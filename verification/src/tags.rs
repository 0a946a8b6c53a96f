//! The snapshots of a tag that the ingestion endpoint takes, as values that
//! own their texts.

pub mod create;
pub mod remove;

pub use create::CreateRequest;
pub use remove::RemoveRequest;
