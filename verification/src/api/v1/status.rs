//! The status that the REST surface answers with.

use vstd::prelude::*;
use crate::json::DecodeError;
use crate::schemas::datahub::{DatasetAddTagResponse, DatasetAddTagResponseModel};

verus! {

pub const OK: u16 = 200;

pub const CREATED: u16 = 201;

pub const NO_CONTENT: u16 = 204;

pub const NOT_FOUND: u16 = 404;

pub const UNPROCESSABLE_ENTITY: u16 = 422;

pub const INTERNAL_SERVER_ERROR: u16 = 500;

/// The status of a mutation that ties or unties a tag, from the status that
/// upstream answered with and from what its answer says. Upstream's word
/// counts only where the transport succeeded: then the mutation succeeded if
/// upstream says so, and could not be processed if it says otherwise or
/// nothing. Any other status of the transport is handed on as it is. The
/// errors that upstream reports beside its answer change nothing.
pub open spec fn mutation_status(status: u16, answer: DatasetAddTagResponseModel) -> u16 {
    if status == 200 {
        match answer.data {
            Some(result) => if result.success {
                204
            } else {
                422
            },
            None => 422,
        }
    } else {
        status
    }
}

/// The status of a mutation, as `mutation_status` states it.
pub fn association_status(status: u16, answer: &DatasetAddTagResponse) -> (r: u16)
    ensures
        r == mutation_status(status, answer@),
{
    if status == OK {
        match &answer.data {
            Some(result) => if result.success {
                NO_CONTENT
            } else {
                UNPROCESSABLE_ENTITY
            },
            None => UNPROCESSABLE_ENTITY,
        }
    } else {
        status
    }
}

/// The status of the creation of a tag: created where upstream took the
/// snapshot, else the status that upstream answered with.
pub fn creation_status(status: u16) -> (r: u16)
    ensures
        r == (if status == 200 {
            201u16
        } else {
            status
        }),
{
    if status == OK {
        CREATED
    } else {
        status
    }
}

/// The status of the deletion of a tag: no content where upstream took the
/// snapshot, else the status that upstream answered with.
pub fn deletion_status(status: u16) -> (r: u16)
    ensures
        r == (if status == 200 {
            204u16
        } else {
            status
        }),
{
    if status == OK {
        NO_CONTENT
    } else {
        status
    }
}

/// The status of a lookup: not found where there is no entity of the URN
/// asked for.
pub fn lookup_status(found: bool) -> (r: u16)
    ensures
        r == (if found {
            200u16
        } else {
            404u16
        }),
{
    if found {
        OK
    } else {
        NOT_FOUND
    }
}

/// Why a request could not be served.
#[derive(Clone, Copy, Debug, PartialEq, Eq, Structural)]
pub enum Failure {
    /// Upstream answered with a status that is no success.
    Transport(u16),
    /// Upstream's answer could not be decoded.
    Decode(DecodeError),
}

/// Whether a status says that the transport succeeded.
pub open spec fn is_success(status: u16) -> bool {
    200 <= status <= 299
}

/// Whether upstream answered with a success, so that its answer is read.
pub fn succeeded(status: u16) -> (r: bool)
    ensures
        r == is_success(status),
{
    200 <= status && status <= 299
}

/// The status of a request that could not be served. A status of the
/// transport is handed on as it is. An answer that could not be decoded is
/// an internal error whatever was wrong with it: upstream broke its word.
pub fn failure_status(failure: Failure) -> (r: u16)
    ensures
        r == (match failure {
            Failure::Transport(status) => status,
            Failure::Decode(_) => 500u16,
        }),
{
    match failure {
        Failure::Transport(status) => status,
        Failure::Decode(_) => INTERNAL_SERVER_ERROR,
    }
}

/// Upstream's errors never change the status of a mutation: two answers that
/// say the same of its success give the same status.
pub proof fn lemma_errors_do_not_decide(
    status: u16,
    first: DatasetAddTagResponseModel,
    second: DatasetAddTagResponseModel,
)
    requires
        first.data == second.data,
    ensures
        mutation_status(status, first) == mutation_status(status, second),
{
}

} // verus!
