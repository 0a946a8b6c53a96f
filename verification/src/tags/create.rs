//! The snapshot that creates a tag.

use vstd::prelude::*;
use crate::schemas::datahub::{CreateTag, CreateTagModel};
use crate::text::join;

verus! {

/// The URN of the tag of a given name.
pub open spec fn tag_urn(name: Seq<char>) -> Seq<char> {
    "urn:li:tag:"@ + name
}

/// The snapshot that creates the tag of a given name.
#[derive(Debug, PartialEq, Eq)]
pub struct CreateRequest {
    urn: String,
    name: String,
    description: String,
}

impl View for CreateRequest {
    type V = CreateTagModel;

    closed spec fn view(&self) -> CreateTagModel {
        CreateTagModel { urn: self.urn@, name: self.name@, description: self.description@ }
    }
}

impl CreateRequest {
    /// The snapshot of the tag `name`: its URN is made of the name.
    pub fn with(name: String, description: String) -> (r: CreateRequest)
        ensures
            r@ == (CreateTagModel { urn: tag_urn(name@), name: name@, description: description@ }),
    {
        CreateRequest { urn: join("urn:li:tag:", name.as_str()), name, description }
    }

    /// The body sent to the ingestion endpoint.
    pub fn to_json(&self) -> (r: String)
        ensures
            r@ == self@.json(),
    {
        CreateTag::new(self.urn.as_str(), self.name.as_str(), self.description.as_str()).to_json()
    }
}

} // verus!
