//! Where upstream listens, and in whose name it is asked.

use vstd::prelude::*;

verus! {

/// The endpoint that takes the snapshots that create and delete entities.
pub const INGEST_ENDPOINT: &'static str = "http://localhost:8080/entities?action=ingest";

/// The endpoint that answers GraphQL requests.
pub const GRAPHQL_ENDPOINT: &'static str = "http://localhost:8080/api/graphql";

/// The header that names the actor of a request.
pub const ACTOR_HEADER: &'static str = "X-DataHub-Actor";

/// The actor in whose name every request is made.
pub const ACTOR: &'static str = "urn:li:corpuser:datahub";

} // verus!
