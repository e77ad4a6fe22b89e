//! The error taxonomy of the resource service and its mapping to
//! HTTP-style status codes.

use vstd::prelude::*;

verus! {

/// The three failure kinds a resource operation can produce.
///
/// `ClientError` marks a malformed identifier and never involves the store;
/// `NotFound` marks a well-formed lookup that matched no record (or a delete
/// that removed nothing); `ServerError` marks any underlying store failure.
#[derive(PartialEq, Eq, Structural, Clone, Copy, Debug)]
pub enum ApiError {
    ClientError,
    NotFound,
    ServerError,
}

/// A generic failure reported by the document store collaborator.
#[derive(PartialEq, Eq, Structural, Clone, Copy, Debug)]
pub struct StoreFault;

/// The five operations of the resource service.
#[derive(PartialEq, Eq, Structural, Clone, Copy, Debug)]
pub enum Operation {
    Create,
    GetById,
    ListAll,
    UpdateById,
    DeleteById,
}

/// Status code of each failure kind: 400 for a malformed identifier,
/// 404 for a missed lookup, 500 for a store failure.
pub open spec fn spec_error_status(e: ApiError) -> u16 {
    match e {
        ApiError::ClientError => 400,
        ApiError::NotFound => 404,
        ApiError::ServerError => 500,
    }
}

/// Status code of each operation's success: 201 for creation, 204 for a
/// delete without a body, 200 otherwise.
pub open spec fn spec_success_status(op: Operation) -> u16 {
    match op {
        Operation::Create => 201,
        Operation::GetById => 200,
        Operation::ListAll => 200,
        Operation::UpdateById => 200,
        Operation::DeleteById => 204,
    }
}

/// The one place where failure kinds become status codes.
pub fn error_status(e: &ApiError) -> (s: u16)
    ensures
        s == spec_error_status(*e),
{
    match e {
        ApiError::ClientError => 400,
        ApiError::NotFound => 404,
        ApiError::ServerError => 500,
    }
}

/// The one place where successful operations become status codes.
pub fn success_status(op: &Operation) -> (s: u16)
    ensures
        s == spec_success_status(*op),
{
    match op {
        Operation::Create => 201,
        Operation::GetById => 200,
        Operation::ListAll => 200,
        Operation::UpdateById => 200,
        Operation::DeleteById => 204,
    }
}

} // verus!
