//! The REST surface, by version.

pub mod v1;
