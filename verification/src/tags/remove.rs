//! The snapshot that removes a tag.

use vstd::prelude::*;
use crate::schemas::datahub::{DeleteTag, DeleteTagModel};

verus! {

/// The snapshot that marks a tag as removed, or as not removed.
#[derive(Debug, PartialEq, Eq)]
pub struct RemoveRequest {
    urn: String,
    removed: bool,
}

impl View for RemoveRequest {
    type V = DeleteTagModel;

    closed spec fn view(&self) -> DeleteTagModel {
        DeleteTagModel { urn: self.urn@, removed: self.removed }
    }
}

impl RemoveRequest {
    pub fn with(urn: String, removed: bool) -> (r: RemoveRequest)
        ensures
            r@ == (DeleteTagModel { urn: urn@, removed }),
    {
        RemoveRequest { urn, removed }
    }

    /// The body sent to the ingestion endpoint.
    pub fn to_json(&self) -> (r: String)
        ensures
            r@ == self@.json(),
    {
        DeleteTag::with_status(self.urn.as_str(), self.removed).to_json()
    }
}

} // verus!
