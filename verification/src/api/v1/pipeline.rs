//! From what upstream answered with, its status and its bytes, to the shape
//! that the REST surface returns. Each step is there twice: on the document
//! that the bytes were read as, and on the bytes themselves.

use vstd::prelude::*;
use crate::api::v1::status::{
    association_status, is_success, mutation_status, succeeded, Failure, OK,
};
use crate::decode::{agrees, Decode};
use crate::json::{document, DecodeError, Json, JsonModel};
use crate::schemas::datahub::{
    lemma_absent_entity_is_no_failure, DatasetAddTagResponse, DatasetAddTagResponseModel,
    FromEntity, ListRecommendationsResponse, QueryResponse, SingleEntity,
};
use crate::schemas::datasets::{datasets_of, DatasetsModel};
use crate::schemas::platforms::{platforms_of, PlatformsModel};
use crate::schemas::tags::{tags_of, TagsModel};
use crate::schemas::{Datasets, Platforms, Tags};

verus! {

/// What the answer to a lookup is reduced to.
pub open spec fn lookup_in<T: FromEntity>(j: JsonModel) -> Result<T::V, DecodeError> {
    match SingleEntity::decoded(j) {
        Err(e) => Err(e),
        Ok(single) => single.processed::<T>(),
    }
}

/// The list of tags that the answer to a list request is reduced to.
pub open spec fn tags_in(j: JsonModel) -> Result<TagsModel, DecodeError> {
    match QueryResponse::decoded(j) {
        Err(e) => Err(e),
        Ok(resp) => tags_of(resp),
    }
}

/// The list of datasets that the answer to a list request is reduced to.
pub open spec fn datasets_in(j: JsonModel) -> Result<DatasetsModel, DecodeError> {
    match QueryResponse::decoded(j) {
        Err(e) => Err(e),
        Ok(resp) => datasets_of(resp),
    }
}

/// The list of platforms that the answer to a request for the
/// recommendation modules is reduced to.
pub open spec fn platforms_in(j: JsonModel) -> Result<PlatformsModel, DecodeError> {
    match ListRecommendationsResponse::decoded(j) {
        Err(e) => Err(e),
        Ok(resp) => Ok(platforms_of(resp)),
    }
}

/// How a mutation that ties or unties a tag ended, as a mathematical value.
pub struct OutcomeModel {
    pub status: u16,
    pub messages: Seq<Seq<char>>,
}

/// How a mutation that ties or unties a tag ended: the status to answer
/// with, and the errors that upstream reported, which are to be recorded.
#[derive(Debug, PartialEq, Eq)]
pub struct Outcome {
    pub status: u16,
    pub messages: Vec<String>,
}

impl View for Outcome {
    type V = OutcomeModel;

    open spec fn view(&self) -> OutcomeModel {
        OutcomeModel { status: self.status, messages: self.messages.deep_view() }
    }
}

/// The messages of the errors that upstream reported beside its answer.
pub open spec fn messages_of(answer: DatasetAddTagResponseModel) -> Seq<Seq<char>> {
    match answer.errors {
        Some(errors) => Seq::new(errors.len(), |i: int| errors[i].message),
        None => Seq::empty(),
    }
}

/// How a mutation ended whose transport succeeded with the status `status`.
pub open spec fn outcome_in(status: u16, j: JsonModel) -> Result<OutcomeModel, DecodeError> {
    match DatasetAddTagResponse::decoded(j) {
        Err(e) => Err(e),
        Ok(answer) => Ok(
            OutcomeModel { status: mutation_status(status, answer), messages: messages_of(answer) },
        ),
    }
}

/// What a read is answered with: nothing of the answer is looked at where
/// the transport failed, and its status is handed on; else the answer is
/// decoded.
pub open spec fn read_of<V>(status: u16, decoded: Result<V, DecodeError>) -> Result<V, Failure> {
    if !is_success(status) {
        Err(Failure::Transport(status))
    } else {
        match decoded {
            Ok(v) => Ok(v),
            Err(e) => Err(Failure::Decode(e)),
        }
    }
}

/// Whether the outcome of a read is the one expected.
pub open spec fn served<T: View>(r: Result<T, Failure>, expected: Result<T::V, Failure>) -> bool {
    match r {
        Ok(t) => expected == Ok::<T::V, Failure>(t@),
        Err(e) => expected == Err::<T::V, Failure>(e),
    }
}

/// What the answer to a lookup is reduced to, for bytes that may be no
/// document.
pub open spec fn lookup_of<T: FromEntity>(doc: Option<JsonModel>) -> Result<T::V, DecodeError> {
    match doc {
        None => Err(DecodeError::Malformed),
        Some(j) => lookup_in::<T>(j),
    }
}

/// The list of tags, for bytes that may be no document.
pub open spec fn tags_list_of(doc: Option<JsonModel>) -> Result<TagsModel, DecodeError> {
    match doc {
        None => Err(DecodeError::Malformed),
        Some(j) => tags_in(j),
    }
}

/// The list of datasets, for bytes that may be no document.
pub open spec fn datasets_list_of(doc: Option<JsonModel>) -> Result<DatasetsModel, DecodeError> {
    match doc {
        None => Err(DecodeError::Malformed),
        Some(j) => datasets_in(j),
    }
}

/// The list of platforms, for bytes that may be no document.
pub open spec fn platforms_list_of(doc: Option<JsonModel>) -> Result<PlatformsModel, DecodeError> {
    match doc {
        None => Err(DecodeError::Malformed),
        Some(j) => platforms_in(j),
    }
}

/// How a mutation that ties or unties a tag ended. Where the transport did
/// not answer with the status of success, its status is handed on and the
/// answer is not read.
pub open spec fn association_outcome_of(status: u16, doc: Option<JsonModel>) -> Result<
    OutcomeModel,
    DecodeError,
> {
    if status != 200 {
        Ok(OutcomeModel { status, messages: Seq::empty() })
    } else {
        match doc {
            None => Err(DecodeError::Malformed),
            Some(j) => outcome_in(status, j),
        }
    }
}

/// The entity that a document answers a lookup with, reduced to `T`.
pub fn lookup_from<T: FromEntity>(json: &Json) -> (r: Result<T, DecodeError>)
    ensures
        agrees(r, lookup_in::<T>(json@)),
{
    SingleEntity::decode(json)?.process::<T>()
}

/// The tags that a document answers a list request with.
pub fn tags_from(json: &Json) -> (r: Result<Tags, DecodeError>)
    ensures
        agrees(r, tags_in(json@)),
{
    let resp = QueryResponse::decode(json)?;
    Tags::from_response(&resp)
}

/// The datasets that a document answers a list request with.
pub fn datasets_from(json: &Json) -> (r: Result<Datasets, DecodeError>)
    ensures
        agrees(r, datasets_in(json@)),
{
    let resp = QueryResponse::decode(json)?;
    Datasets::from_response(&resp)
}

/// The platforms that a document answers a request for the recommendation
/// modules with.
pub fn platforms_from(json: &Json) -> (r: Result<Platforms, DecodeError>)
    ensures
        agrees(r, platforms_in(json@)),
{
    let resp = ListRecommendationsResponse::decode(json)?;
    Ok(Platforms::from_response(&resp))
}

/// The messages of the errors that upstream reported beside its answer.
pub fn messages(answer: &DatasetAddTagResponse) -> (r: Vec<String>)
    ensures
        r.deep_view() == messages_of(answer@),
{
    let mut out: Vec<String> = Vec::new();
    match &answer.errors {
        Some(errors) => {
            let mut i: usize = 0;
            while i < errors.len()
                invariant
                    i <= errors@.len(),
                    out@.len() == i,
                    forall|k: int| 0 <= k < i ==> (#[trigger] out@[k])@ == errors@[k]@.message,
                decreases errors@.len() - i,
            {
                out.push(errors[i].message.to_owned());
                i = i + 1;
            }
            proof {
                assert(out.deep_view() =~= messages_of(answer@));
            }
        },
        None => {
            proof {
                assert(out.deep_view() =~= messages_of(answer@));
            }
        },
    }
    out
}

/// How a mutation ended whose transport succeeded with the status `status`,
/// from the document that upstream answered with.
pub fn outcome_from(status: u16, json: &Json) -> (r: Result<Outcome, DecodeError>)
    ensures
        agrees(r, outcome_in(status, json@)),
{
    let answer = DatasetAddTagResponse::decode(json)?;
    Ok(Outcome { status: association_status(status, &answer), messages: messages(&answer) })
}

/// The entity that upstream answered a lookup with, reduced to `T`.
pub fn lookup<T: FromEntity>(status: u16, bytes: &[u8]) -> (r: Result<T, Failure>)
    ensures
        served(r, read_of(status, lookup_of::<T>(document(bytes@)))),
{
    if !succeeded(status) {
        return Err(Failure::Transport(status));
    }
    let json = match Json::parse(bytes) {
        Ok(j) => j,
        Err(e) => {
            return Err(Failure::Decode(e));
        },
    };
    match lookup_from::<T>(&json) {
        Ok(t) => Ok(t),
        Err(e) => Err(Failure::Decode(e)),
    }
}

/// The tags that upstream answered a list request with.
pub fn tags_list(status: u16, bytes: &[u8]) -> (r: Result<Tags, Failure>)
    ensures
        served(r, read_of(status, tags_list_of(document(bytes@)))),
{
    if !succeeded(status) {
        return Err(Failure::Transport(status));
    }
    let json = match Json::parse(bytes) {
        Ok(j) => j,
        Err(e) => {
            return Err(Failure::Decode(e));
        },
    };
    match tags_from(&json) {
        Ok(t) => Ok(t),
        Err(e) => Err(Failure::Decode(e)),
    }
}

/// The datasets that upstream answered a list request with.
pub fn datasets_list(status: u16, bytes: &[u8]) -> (r: Result<Datasets, Failure>)
    ensures
        served(r, read_of(status, datasets_list_of(document(bytes@)))),
{
    if !succeeded(status) {
        return Err(Failure::Transport(status));
    }
    let json = match Json::parse(bytes) {
        Ok(j) => j,
        Err(e) => {
            return Err(Failure::Decode(e));
        },
    };
    match datasets_from(&json) {
        Ok(t) => Ok(t),
        Err(e) => Err(Failure::Decode(e)),
    }
}

/// The platforms that upstream answered a request for the recommendation
/// modules with.
pub fn platforms_list(status: u16, bytes: &[u8]) -> (r: Result<Platforms, Failure>)
    ensures
        served(r, read_of(status, platforms_list_of(document(bytes@)))),
{
    if !succeeded(status) {
        return Err(Failure::Transport(status));
    }
    let json = match Json::parse(bytes) {
        Ok(j) => j,
        Err(e) => {
            return Err(Failure::Decode(e));
        },
    };
    match platforms_from(&json) {
        Ok(t) => Ok(t),
        Err(e) => Err(Failure::Decode(e)),
    }
}

/// How a mutation that ties or unties a tag ended, from the status and the
/// bytes that upstream answered with.
pub fn association_outcome(status: u16, bytes: &[u8]) -> (r: Result<Outcome, DecodeError>)
    ensures
        agrees(r, association_outcome_of(status, document(bytes@))),
{
    if status != OK {
        let none: Vec<String> = Vec::new();
        proof {
            assert(none.deep_view() =~= Seq::<Seq<char>>::empty());
        }
        return Ok(Outcome { status, messages: none });
    }
    let json = Json::parse(bytes)?;
    outcome_from(status, &json)
}

/// A lookup that finds no entity is answered with what stands for none, and
/// is no failure, whatever kind of entity was asked for.
pub proof fn lemma_lookup_of_nothing<T: FromEntity>(j: JsonModel)
    requires
        j.required("data"@) matches Ok(data) && data is Object && data.present("entity"@) is None,
    ensures
        lookup_in::<T>(j) == Ok::<T::V, DecodeError>(T::absent()),
        read_of(200, lookup_of::<T>(Some(j))) == Ok::<T::V, Failure>(T::absent()),
{
    lemma_absent_entity_is_no_failure::<T>(j);
}

} // verus!
