//! Error taxonomy.
//!
//! The taxonomy is flat and final: a failure of the transport itself, a
//! non-success HTTP status, or a response body that did not match the
//! schema. Nothing is retried or recovered internally; every operation is
//! atomic from the caller's viewpoint.

use vstd::prelude::*;

verus! {

/// Why a JSON value did not match the schema; carries the offending field.
#[derive(Debug, Clone, PartialEq)]
pub struct DecodeError {
    pub field: String,
}

impl DecodeError {
    pub fn at(field: &str) -> (r: DecodeError)
        ensures
            r.field@ == field@,
    {
        DecodeError { field: String::from_str(field) }
    }
}

/// The remote operations, used to tag failures with their endpoint.
#[derive(Debug, Clone, Copy, PartialEq, Eq, Structural)]
pub enum Operation {
    CreateServer,
    GetServers,
    GetRuntime,
    GetServerResources,
    AddMissions,
    StartMission,
    StartServer,
    StopServer,
    ResumeServer,
    PauseServer,
    DeleteServer,
}

/// How an operation failed. All three variants propagate to the caller
/// immediately; a 404 and a 500 are reported identically.
#[derive(Debug, Clone, PartialEq)]
pub enum ApiError {
    /// The transport could not complete the exchange (DNS, connect, TLS,
    /// timeout); the transport's own description is kept unchanged.
    TransportFailure { detail: String },
    /// The service answered outside the success range; carries the
    /// best-effort body text as the diagnostic.
    HttpStatusFailure { operation: Operation, status: u16, body: String },
    /// The response body did not match the expected shape.
    DecodeFailure { operation: Operation, field: String },
}

} // verus!
