//! Version 1 of the REST surface: the upstream operation that serves each
//! request, and what is made of its answer.

pub mod datasets;
pub mod graphql;
pub mod params;
pub mod pipeline;
pub mod platforms;
pub mod queries;
pub mod status;
pub mod tags;
