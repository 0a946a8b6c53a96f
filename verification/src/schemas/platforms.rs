//! Platforms as the REST surface returns them.

use vstd::prelude::*;
use crate::decode::{model_of, models_of};
use crate::schemas::datahub;
use crate::schemas::datahub::{EntityModel, FromEntity};
use vstd::string::StringExecFns;
use crate::json::{push_quoted, quoted};
use crate::render::{array, jsons_of, push_array, ToJson};
use crate::schemas::paging::{paging_or_null, push_paging_or_null, Paging, PagingModel};

verus! {

/// `Platform` as a mathematical value.
pub struct PlatformModel {
    pub id: Seq<char>,
    pub name: Seq<char>,
    pub title: Seq<char>,
    pub class: Seq<char>,
}

/// `PlatformEnvelope` as a mathematical value.
pub struct PlatformEnvelopeModel {
    pub platform: Option<PlatformModel>,
}

/// `Platforms` as a mathematical value.
pub struct PlatformsModel {
    pub data: Seq<PlatformEnvelopeModel>,
    pub paging: Option<PagingModel>,
}

impl PlatformModel {
    /// The value as JSON.
    pub open spec fn json(self) -> Seq<char> {
        "{\"id\":"@ + quoted(self.id) + ",\"name\":"@ + quoted(self.name) + ",\"title\":"@
            + quoted(self.title) + ",\"type\":"@ + quoted(self.class) + "}"@
    }
}

impl PlatformEnvelopeModel {
    /// The value as JSON.
    pub open spec fn json(self) -> Seq<char> {
        "{\"platform\":"@ + (match self.platform {
            Some(p) => p.json(),
            None => "null"@,
        }) + "}"@
    }
}

impl PlatformsModel {
    /// The value as JSON.
    pub open spec fn json(self) -> Seq<char> {
        "{\"data\":"@ + array(jsons_of::<PlatformEnvelope>(self.data)) + ",\"paging\":"@
            + paging_or_null(self.paging) + "}"@
    }
}

/// The list of platforms that an answer to a request for the recommendation
/// modules is reduced to.
pub open spec fn platforms_of(resp: datahub::ListRecommendationsResponseModel) -> PlatformsModel {
    PlatformsModel { data: resp.processed().0, paging: resp.processed().1 }
}

/// A platform: its URN, the name upstream knows it by, the title shown, and
/// its class.
#[derive(Debug, PartialEq, Eq)]
pub struct Platform {
    pub id: String,
    pub name: String,
    pub title: String,
    pub class: String,
}

/// A platform, or nothing where there is none of the URN asked for.
#[derive(Debug, PartialEq, Eq)]
pub struct PlatformEnvelope {
    pub platform: Option<Platform>,
}

/// A list of platforms. Upstream counts no total of them, so there is no page.
#[derive(Debug, PartialEq, Eq)]
pub struct Platforms {
    data: Vec<PlatformEnvelope>,
    paging: Option<Paging>,
}

impl View for Platform {
    type V = PlatformModel;

    open spec fn view(&self) -> PlatformModel {
        PlatformModel { id: self.id@, name: self.name@, title: self.title@, class: self.class@ }
    }
}

impl View for PlatformEnvelope {
    type V = PlatformEnvelopeModel;

    open spec fn view(&self) -> PlatformEnvelopeModel {
        PlatformEnvelopeModel { platform: model_of(self.platform) }
    }
}

impl View for Platforms {
    type V = PlatformsModel;

    closed spec fn view(&self) -> PlatformsModel {
        PlatformsModel { data: models_of(self.data@), paging: model_of(self.paging) }
    }
}

/// What an upstream platform is reduced to: the title and the class come
/// from its properties.
pub open spec fn normalized_platform(p: datahub::DataPlatformModel) -> PlatformModel {
    PlatformModel { id: p.urn, name: p.name, title: p.properties.name, class: p.properties.class }
}

/// The envelope of a platform that may be absent.
pub open spec fn platform_envelope(p: Option<datahub::DataPlatformModel>) -> PlatformEnvelopeModel {
    PlatformEnvelopeModel {
        platform: match p {
            Some(p) => Some(normalized_platform(p)),
            None => None,
        },
    }
}

/// The envelopes of the platforms that a module lists, in order.
pub open spec fn platform_envelopes(content: Seq<datahub::PlatformEntityModel>) -> Seq<
    PlatformEnvelopeModel,
> {
    Seq::new(content.len(), |i: int| platform_envelope(Some(content[i].entity)))
}

impl Platform {
    pub fn from_platform(p: &datahub::DataPlatform) -> (r: Platform)
        ensures
            r@ == normalized_platform(p@),
    {
        Platform {
            id: p.urn.to_owned(),
            name: p.name.to_owned(),
            title: p.properties.name.to_owned(),
            class: p.properties.class.to_owned(),
        }
    }


    /// The value as JSON.
    pub fn to_json(&self) -> (r: String)
        ensures
            r@ == self@.json(),
    {
        let mut out = "{\"id\":".to_owned();
        push_quoted(&mut out, self.id.as_str());
        out.append(",\"name\":");
        push_quoted(&mut out, self.name.as_str());
        out.append(",\"title\":");
        push_quoted(&mut out, self.title.as_str());
        out.append(",\"type\":");
        push_quoted(&mut out, self.class.as_str());
        out.append("}");
        out
    }

    /// The platform that one of the platforms of a module is reduced to.
    pub fn from_platform_entity(e: &datahub::PlatformEntity) -> (r: Platform)
        ensures
            r@ == normalized_platform(e@.entity),
    {
        Platform::from_platform(&e.entity)
    }
}

impl ToJson for PlatformEnvelope {
    open spec fn json_of(v: PlatformEnvelopeModel) -> Seq<char> {
        v.json()
    }

    fn to_json(&self) -> (r: String) {
        let mut out = "{\"platform\":".to_owned();
        match &self.platform {
            Some(p) => {
                let text = p.to_json();
                out.append(text.as_str());
            },
            None => out.append("null"),
        }
        out.append("}");
        out
    }
}

impl Platforms {
    /// How many platforms the list holds.
    pub fn len(&self) -> (r: usize)
        ensures
            r == self@.data.len(),
    {
        self.data.len()
    }

    /// The page, which a list of platforms never has.
    pub fn paging(&self) -> (r: Option<Paging>)
        ensures
            model_of(r) == self@.paging,
    {
        self.paging
    }

    /// The value as JSON.
    pub fn to_json(&self) -> (r: String)
        ensures
            r@ == self@.json(),
    {
        let mut out = "{\"data\":".to_owned();
        push_array::<PlatformEnvelope>(&mut out, &self.data);
        out.append(",\"paging\":");
        push_paging_or_null(&mut out, &self.paging);
        out.append("}");
        out
    }

    /// The list that an answer to a request for the recommendation modules
    /// is reduced to.
    pub fn from_response(resp: &datahub::ListRecommendationsResponse) -> (r: Platforms)
        ensures
            r@ == platforms_of(resp@),
    {
        let (data, paging) = resp.process();
        Platforms { data, paging }
    }
}

impl PlatformEnvelope {
    /// Whether the envelope holds no platform.
    pub fn is_empty(&self) -> (r: bool)
        ensures
            r == (self@.platform is None),
    {
        self.platform.is_none()
    }

    /// The envelopes of the platforms that a module lists.
    pub fn from_content(content: &Vec<datahub::PlatformEntity>) -> (r: Vec<PlatformEnvelope>)
        ensures
            models_of(r@) == platform_envelopes(models_of(content@)),
    {
        let mut out: Vec<PlatformEnvelope> = Vec::new();
        let mut i: usize = 0;
        while i < content.len()
            invariant
                i <= content@.len(),
                out@.len() == i,
                forall|k: int|
                    0 <= k < i ==> (#[trigger] out@[k])@ == platform_envelope(
                        Some(content@[k]@.entity),
                    ),
            decreases content@.len() - i,
        {
            out.push(PlatformEnvelope::from_platform_entity(&content[i]));
            i = i + 1;
        }
        proof {
            assert(models_of(out@) =~= platform_envelopes(models_of(content@)));
        }
        out
    }

    /// The envelope of one of the platforms of a module.
    pub fn from_platform_entity(e: &datahub::PlatformEntity) -> (r: PlatformEnvelope)
        ensures
            r@ == platform_envelope(Some(e@.entity)),
    {
        PlatformEnvelope { platform: Some(Platform::from_platform_entity(e)) }
    }
}




impl FromEntity for PlatformEnvelope {
    open spec fn of_entity(e: EntityModel) -> Option<PlatformEnvelopeModel> {
        match e {
            EntityModel::Platform(p) => Some(platform_envelope(Some(p))),
            _ => None,
        }
    }

    open spec fn absent() -> PlatformEnvelopeModel {
        PlatformEnvelopeModel { platform: None }
    }

    fn from_entity(e: &datahub::Entity) -> (r: Option<PlatformEnvelope>) {
        match e {
            datahub::Entity::Platform(p) => Some(
                PlatformEnvelope { platform: Some(Platform::from_platform(p)) },
            ),
            _ => None,
        }
    }

    fn empty() -> (r: PlatformEnvelope) {
        PlatformEnvelope { platform: None }
    }
}

/// A list of platforms never has a page.
pub proof fn lemma_platforms_have_no_page(resp: datahub::ListRecommendationsResponseModel)
    ensures
        platforms_of(resp).paging is None,
{
}

} // verus!
