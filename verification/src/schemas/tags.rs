//! Tags as the REST surface returns them.

use vstd::prelude::*;
use crate::decode::{model_of, models_of};
use crate::schemas::datahub;
use crate::schemas::datahub::{EntityModel, FromEntity};
use vstd::string::StringExecFns;
use crate::decode::agrees;
use crate::json::{push_quoted, quoted, DecodeError};
use crate::render::{array, jsons_of, push_array, push_quoted_or_null, quoted_or_null, ToJson};
use crate::schemas::paging::{paging_or_null, push_paging_or_null, Paging, PagingModel};

verus! {

/// `Tag` as a mathematical value.
pub struct TagModel {
    pub id: Seq<char>,
    pub name: Option<Seq<char>>,
    pub description: Option<Seq<char>>,
}

/// `TagEnvelope` as a mathematical value.
pub struct TagEnvelopeModel {
    pub tag: Option<TagModel>,
}

/// `Tags` as a mathematical value.
pub struct TagsModel {
    pub data: Seq<TagEnvelopeModel>,
    pub paging: Option<PagingModel>,
}

impl TagModel {
    /// The value as JSON.
    pub open spec fn json(self) -> Seq<char> {
        "{\"id\":"@ + quoted(self.id) + ",\"name\":"@ + quoted_or_null(self.name)
            + ",\"description\":"@ + quoted_or_null(self.description) + "}"@
    }
}

impl TagEnvelopeModel {
    /// The value as JSON.
    pub open spec fn json(self) -> Seq<char> {
        "{\"tag\":"@ + (match self.tag {
            Some(t) => t.json(),
            None => "null"@,
        }) + "}"@
    }
}

impl TagsModel {
    /// The value as JSON.
    pub open spec fn json(self) -> Seq<char> {
        "{\"data\":"@ + array(jsons_of::<TagEnvelope>(self.data)) + ",\"paging\":"@
            + paging_or_null(self.paging) + "}"@
    }
}

/// The list of tags that an answer to a list request is reduced to.
pub open spec fn tags_of(resp: datahub::QueryResponseModel) -> Result<TagsModel, DecodeError> {
    match resp.processed::<TagEnvelope>() {
        Ok((data, paging)) => Ok(TagsModel { data, paging }),
        Err(e) => Err(e),
    }
}

/// A tag: its URN, and its name and description where upstream has them.
#[derive(Debug, PartialEq, Eq)]
pub struct Tag {
    id: String,
    name: Option<String>,
    description: Option<String>,
}

/// A tag, or nothing where there is none of the URN asked for.
#[derive(Debug, PartialEq, Eq)]
pub struct TagEnvelope {
    tag: Option<Tag>,
}

/// A list of tags, with the page where the list comes from a counted search.
#[derive(Debug, PartialEq, Eq)]
pub struct Tags {
    data: Vec<TagEnvelope>,
    paging: Option<Paging>,
}

impl View for Tag {
    type V = TagModel;

    closed spec fn view(&self) -> TagModel {
        TagModel { id: self.id@, name: model_of(self.name), description: model_of(self.description) }
    }
}

impl View for TagEnvelope {
    type V = TagEnvelopeModel;

    closed spec fn view(&self) -> TagEnvelopeModel {
        TagEnvelopeModel { tag: model_of(self.tag) }
    }
}

impl View for Tags {
    type V = TagsModel;

    closed spec fn view(&self) -> TagsModel {
        TagsModel { data: models_of(self.data@), paging: model_of(self.paging) }
    }
}

/// What an upstream tag is reduced to: name and description come from its
/// properties, and are absent where those are.
pub open spec fn normalized_tag(tag: datahub::TagModel) -> TagModel {
    TagModel {
        id: tag.urn,
        name: match tag.properties {
            Some(p) => Some(p.name),
            None => None,
        },
        description: match tag.properties {
            Some(p) => Some(p.description),
            None => None,
        },
    }
}

/// The envelope of a tag that may be absent.
pub open spec fn tag_envelope(tag: Option<datahub::TagModel>) -> TagEnvelopeModel {
    TagEnvelopeModel {
        tag: match tag {
            Some(t) => Some(normalized_tag(t)),
            None => None,
        },
    }
}

/// The envelopes of the tags that a dataset carries, in order.
pub open spec fn tag_envelopes(tags: Seq<datahub::TagEntityModel>) -> Seq<TagEnvelopeModel> {
    Seq::new(tags.len(), |i: int| tag_envelope(tags[i].tag))
}

impl Tag {
    pub fn new(id: String, name: Option<String>, description: Option<String>) -> (r: Tag)
        ensures
            r@ == (TagModel { id: id@, name: model_of(name), description: model_of(description) }),
    {
        Tag { id, name, description }
    }

    /// The tag that an upstream tag is reduced to.
    pub fn from_tag(tag: &datahub::Tag) -> (r: Tag)
        ensures
            r@ == normalized_tag(tag@),
    {
        match &tag.properties {
            Some(p) => Tag {
                id: tag.urn.to_owned(),
                name: Some(p.name.to_owned()),
                description: Some(p.description.to_owned()),
            },
            None => Tag { id: tag.urn.to_owned(), name: None, description: None },
        }
    }

    /// The value as JSON.
    pub fn to_json(&self) -> (r: String)
        ensures
            r@ == self@.json(),
    {
        let mut out = "{\"id\":".to_owned();
        push_quoted(&mut out, self.id.as_str());
        out.append(",\"name\":");
        push_quoted_or_null(&mut out, &self.name);
        out.append(",\"description\":");
        push_quoted_or_null(&mut out, &self.description);
        out.append("}");
        out
    }
}

impl ToJson for TagEnvelope {
    open spec fn json_of(v: TagEnvelopeModel) -> Seq<char> {
        v.json()
    }

    fn to_json(&self) -> (r: String) {
        let mut out = "{\"tag\":".to_owned();
        match &self.tag {
            Some(t) => {
                let text = t.to_json();
                out.append(text.as_str());
            },
            None => out.append("null"),
        }
        out.append("}");
        out
    }
}

impl Tags {
    /// The list that an answer to a list request is reduced to. An entity
    /// that is no tag is a failure.
    pub fn from_response(resp: &datahub::QueryResponse) -> (r: Result<Tags, DecodeError>)
        ensures
            agrees(r, tags_of(resp@)),
    {
        match resp.process::<TagEnvelope>() {
            Ok((data, paging)) => Ok(Tags { data, paging }),
            Err(e) => Err(e),
        }
    }

    /// How many tags the list holds.
    pub fn len(&self) -> (r: usize)
        ensures
            r == self@.data.len(),
    {
        self.data.len()
    }

    /// The page, where the list comes from a counted search.
    pub fn paging(&self) -> (r: Option<Paging>)
        ensures
            model_of(r) == self@.paging,
    {
        self.paging
    }

    /// The value as JSON.
    pub fn to_json(&self) -> (r: String)
        ensures
            r@ == self@.json(),
    {
        let mut out = "{\"data\":".to_owned();
        push_array::<TagEnvelope>(&mut out, &self.data);
        out.append(",\"paging\":");
        push_paging_or_null(&mut out, &self.paging);
        out.append("}");
        out
    }
}

impl TagEnvelope {
    /// The envelope that holds `tag`.
    pub fn new(tag: Option<Tag>) -> (r: TagEnvelope)
        ensures
            r@ == (TagEnvelopeModel { tag: model_of(tag) }),
    {
        TagEnvelope { tag }
    }

    /// Whether the envelope holds no tag.
    pub fn is_empty(&self) -> (r: bool)
        ensures
            r == (self@.tag is None),
    {
        self.tag.is_none()
    }

    pub fn from_tag(tag: &datahub::Tag) -> (r: TagEnvelope)
        ensures
            r@ == tag_envelope(Some(tag@)),
    {
        TagEnvelope { tag: Some(Tag::from_tag(tag)) }
    }

    pub fn from_tag_entity(e: &datahub::TagEntity) -> (r: TagEnvelope)
        ensures
            r@ == tag_envelope(e@.tag),
    {
        match &e.tag {
            Some(t) => TagEnvelope { tag: Some(Tag::from_tag(t)) },
            None => TagEnvelope { tag: None },
        }
    }

    /// The envelopes of the tags that a dataset carries.
    pub fn from_tags(tags: &Vec<datahub::TagEntity>) -> (r: Vec<TagEnvelope>)
        ensures
            models_of(r@) == tag_envelopes(models_of(tags@)),
    {
        let mut out: Vec<TagEnvelope> = Vec::new();
        let mut i: usize = 0;
        while i < tags.len()
            invariant
                i <= tags@.len(),
                out@.len() == i,
                forall|k: int| 0 <= k < i ==> (#[trigger] out@[k])@ == tag_envelope(tags@[k]@.tag),
            decreases tags@.len() - i,
        {
            out.push(TagEnvelope::from_tag_entity(&tags[i]));
            i = i + 1;
        }
        proof {
            assert(models_of(out@) =~= tag_envelopes(models_of(tags@)));
        }
        out
    }
}

impl FromEntity for TagEnvelope {
    open spec fn of_entity(e: EntityModel) -> Option<TagEnvelopeModel> {
        match e {
            EntityModel::Tag(t) => Some(tag_envelope(Some(t))),
            _ => None,
        }
    }

    open spec fn absent() -> TagEnvelopeModel {
        TagEnvelopeModel { tag: None }
    }

    fn from_entity(e: &datahub::Entity) -> (r: Option<TagEnvelope>) {
        match e {
            datahub::Entity::Tag(t) => Some(TagEnvelope::from_tag(t)),
            _ => None,
        }
    }

    fn empty() -> (r: TagEnvelope) {
        TagEnvelope { tag: None }
    }
}

/// A list of tags has a page exactly where the answer is that of a search,
/// and as many tags as the answer has entities.
pub proof fn lemma_tags_page_iff_search(resp: datahub::QueryResponseModel)
    requires
        tags_of(resp) is Ok,
    ensures
        tags_of(resp)->Ok_0.paging is Some <==> resp.data.results is SearchResults,
        tags_of(resp)->Ok_0.data.len() == resp.data.results.entities().len(),
{
    datahub::lemma_page_iff_search::<TagEnvelope>(resp);
}

} // verus!
