//! The shapes of the documents exchanged: what is sent upstream, what comes
//! back, and what the REST surface returns.

pub mod datahub;
pub mod datasets;
pub mod graphql;
pub mod paging;
pub mod platforms;
pub mod requests;
pub mod tags;

pub use datahub::{
    CreateTag, DatasetAddTagResponse, DeleteTag, ListRecommendationsResponse, QueryResponse,
};
pub use datasets::{DatasetEnvelope, Datasets};
pub use graphql::{
    AutoCompleteInput, Filter, GraphQL, ListRecommendationsInput, SearchInput,
    TagAssociationInput, Variables,
};
pub use paging::Paging;
pub use platforms::{PlatformEnvelope, Platforms};
pub use tags::{Tag, TagEnvelope, Tags};
