//! A translation layer between a REST surface and the GraphQL interface of a
//! metadata catalog.
//!
//! A REST request becomes one GraphQL request with typed variables
//! ([`api::v1::graphql`], [`api::v1::queries`], [`schemas::graphql`]); what
//! upstream answers is decoded by its own type discriminators
//! ([`schemas::datahub`], [`decode`]) and reduced to the shapes that the REST
//! surface returns ([`schemas::tags`], [`schemas::datasets`],
//! [`schemas::platforms`]), which are written as JSON ([`render`]).
//! [`api::v1::pipeline`] puts the steps together, and [`api::v1::status`]
//! decides the status of each answer.
//!
//! Nothing here reads or writes anything: the transport hands in the status
//! and the bytes that upstream answered with, and takes the body to send.
//! JSON is read and its strings are escaped by `serde_json` ([`json`]); every
//! other function is verified against the contract it carries.

pub mod api;
pub mod datahub;
pub mod decode;
pub mod json;
pub mod render;
pub mod schemas;
pub mod tags;
pub mod text;
