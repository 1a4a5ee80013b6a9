//! The verified core of the API client.
//!
//! Every remote operation is: build a payload, send one request to the
//! fixed origin, branch on the HTTP status, decode the body or synthesize
//! an error. This module holds everything in that sequence except the
//! network exchange itself: the stored key, the endpoint paths, and one
//! outcome function per operation. The transport hands an outcome function
//! the status code, the body text, and the body parsed into the document
//! model (`None` when the body was not JSON); the outcome function's
//! contract pins the result for every combination.

use vstd::prelude::*;

use crate::dcs_runtime::{spec_dcs_runtime, DcsRuntime};
use crate::error::{ApiError, Operation};
use crate::ids::{uuid_chars, Uuid};
use crate::instance::{instance_seq_of, instance_views, decode_instances, Instance};
use crate::json::Json;
use crate::num::{dec_digits, u64_to_dec};
use crate::system_resources::{spec_server_resources, ServerResources};

verus! {

/// The coordinator's fixed origin; not configurable.
pub fn base_url() -> (r: &'static str)
    ensures
        r@ == "https://coordinator.nimbuspulse.com"@,
{
    "https://coordinator.nimbuspulse.com"
}

/// Holds the bearer key the transport attaches to every call. The key is
/// read once at the start of a call; rotating it concurrently with an
/// in-flight call is the caller's race to synchronize.
pub struct Client {
    api_key: String,
}

impl View for Client {
    type V = Seq<char>;

    closed spec fn view(&self) -> Seq<char> {
        self.api_key@
    }
}

impl Client {
    pub fn new(api_key: String) -> (r: Client)
        ensures
            r@ == api_key@,
    {
        Client { api_key }
    }

    /// Replaces the stored key for subsequent calls.
    pub fn set_api_key(&mut self, api_key: String)
        ensures
            final(self)@ == api_key@,
    {
        self.api_key = api_key;
    }

    /// The key as the transport reads it at the start of a call.
    pub fn api_key(&self) -> (r: &str)
        ensures
            r@ == self@,
    {
        self.api_key.as_str()
    }
}

/// The collection path for instances.
pub fn servers_path() -> (r: String)
    ensures
        r@ == "/game_servers"@,
{
    String::from_str("/game_servers")
}

/// The path of one instance.
pub fn server_path(id: &Uuid) -> (r: String)
    ensures
        r@ == "/game_servers/"@ + uuid_chars(*id),
{
    let mut s = String::from_str("/game_servers/");
    s.append(id.hyphenated().as_str());
    s
}

/// The path of one instance, then a fixed suffix.
fn server_sub_path(id: &Uuid, suffix: &str) -> (r: String)
    ensures
        r@ == "/game_servers/"@ + uuid_chars(*id) + suffix@,
{
    let mut s = server_path(id);
    s.append(suffix);
    s
}

pub fn start_server_path(id: &Uuid) -> (r: String)
    ensures
        r@ == "/game_servers/"@ + uuid_chars(*id) + "/start"@,
{
    server_sub_path(id, "/start")
}

pub fn stop_server_path(id: &Uuid) -> (r: String)
    ensures
        r@ == "/game_servers/"@ + uuid_chars(*id) + "/stop"@,
{
    server_sub_path(id, "/stop")
}

pub fn runtime_path(id: &Uuid) -> (r: String)
    ensures
        r@ == "/game_servers/"@ + uuid_chars(*id) + "/runtime"@,
{
    server_sub_path(id, "/runtime")
}

pub fn resources_path(id: &Uuid) -> (r: String)
    ensures
        r@ == "/game_servers/"@ + uuid_chars(*id) + "/resources"@,
{
    server_sub_path(id, "/resources")
}

pub fn missions_path(id: &Uuid) -> (r: String)
    ensures
        r@ == "/game_servers/"@ + uuid_chars(*id) + "/dcs-api/missions"@,
{
    server_sub_path(id, "/dcs-api/missions")
}

pub fn resume_path(id: &Uuid) -> (r: String)
    ensures
        r@ == "/game_servers/"@ + uuid_chars(*id) + "/dcs-api/resume"@,
{
    server_sub_path(id, "/dcs-api/resume")
}

pub fn pause_path(id: &Uuid) -> (r: String)
    ensures
        r@ == "/game_servers/"@ + uuid_chars(*id) + "/dcs-api/pause"@,
{
    server_sub_path(id, "/dcs-api/pause")
}

pub fn start_mission_path(id: &Uuid, mission_idx: u32) -> (r: String)
    ensures
        r@ == "/game_servers/"@ + uuid_chars(*id) + "/dcs-api/missions/"@ + dec_digits(
            mission_idx as int,
        ) + "/start"@,
{
    let mut s = server_sub_path(id, "/dcs-api/missions/");
    s.append(u64_to_dec(mission_idx as u64).as_str());
    s.append("/start");
    s
}

/// The success range: any 2xx status.
pub open spec fn status_success(status: u16) -> bool {
    200 <= status < 300
}

/// Whether a status is in the success range; a 404 and a 500 are treated
/// identically (not success), with no further branching.
pub fn is_success(status: u16) -> (r: bool)
    ensures
        r == status_success(status),
{
    200 <= status && status < 300
}

/// The outcome of a pure-action operation (start, stop, pause, resume,
/// delete, add missions, start mission): success is unit, any non-2xx
/// status is an `HttpStatusFailure` carrying the body text.
pub fn action_outcome(operation: Operation, status: u16, body_text: String) -> (r: Result<
    (),
    ApiError,
>)
    ensures
        status_success(status) <==> r is Ok,
        r matches Err(e) ==> (e matches ApiError::HttpStatusFailure {
            operation: op,
            status: st,
            body,
        } && op == operation && st == status && body@ == body_text@),
{
    if is_success(status) {
        Ok(())
    } else {
        Err(ApiError::HttpStatusFailure { operation, status, body: body_text })
    }
}

/// The outcome of creating a server: on a 2xx status the body must decode
/// as an instance record; on any other status the body text is the
/// diagnostic.
pub fn create_server_outcome(status: u16, body_text: String, body_json: Option<&Json>) -> (r:
    Result<Instance, ApiError>)
    ensures
        !status_success(status) ==> (r matches Err(ApiError::HttpStatusFailure {
            operation,
            status: st,
            body,
        }) && operation == Operation::CreateServer && st == status && body@ == body_text@),
        status_success(status) ==> match body_json {
            Some(j) => match crate::instance::spec_instance(*j) {
                Some(m) => r matches Ok(inst) && inst@ == m,
                None => r matches Err(ApiError::DecodeFailure { operation, .. }) && operation
                    == Operation::CreateServer,
            },
            None => r matches Err(ApiError::DecodeFailure { operation, .. }) && operation
                == Operation::CreateServer,
        },
{
    if !is_success(status) {
        return Err(
            ApiError::HttpStatusFailure {
                operation: Operation::CreateServer,
                status,
                body: body_text,
            },
        );
    }
    match body_json {
        Some(j) => match Instance::decode(j) {
            Ok(inst) => Ok(inst),
            Err(e) => Err(
                ApiError::DecodeFailure { operation: Operation::CreateServer, field: e.field },
            ),
        },
        None => Err(
            ApiError::DecodeFailure {
                operation: Operation::CreateServer,
                field: String::from_str("body"),
            },
        ),
    }
}

/// The outcome of listing servers: on a 2xx status the body must decode as
/// an array of instance records.
pub fn get_servers_outcome(status: u16, body_text: String, body_json: Option<&Json>) -> (r: Result<
    Vec<Instance>,
    ApiError,
>)
    ensures
        !status_success(status) ==> (r matches Err(ApiError::HttpStatusFailure {
            operation,
            status: st,
            body,
        }) && operation == Operation::GetServers && st == status && body@ == body_text@),
        status_success(status) ==> match body_json {
            Some(j) => match instance_seq_of(*j) {
                Some(m) => r matches Ok(v) && instance_views(v@) == m,
                None => r matches Err(ApiError::DecodeFailure { operation, .. }) && operation
                    == Operation::GetServers,
            },
            None => r matches Err(ApiError::DecodeFailure { operation, .. }) && operation
                == Operation::GetServers,
        },
{
    if !is_success(status) {
        return Err(
            ApiError::HttpStatusFailure {
                operation: Operation::GetServers,
                status,
                body: body_text,
            },
        );
    }
    match body_json {
        Some(j) => match decode_instances(j, "servers") {
            Ok(v) => Ok(v),
            Err(e) => Err(
                ApiError::DecodeFailure { operation: Operation::GetServers, field: e.field },
            ),
        },
        None => Err(
            ApiError::DecodeFailure {
                operation: Operation::GetServers,
                field: String::from_str("body"),
            },
        ),
    }
}

/// The outcome of reading an instance's runtime snapshot.
pub fn get_runtime_outcome(status: u16, body_text: String, body_json: Option<&Json>) -> (r: Result<
    DcsRuntime,
    ApiError,
>)
    ensures
        !status_success(status) ==> (r matches Err(ApiError::HttpStatusFailure {
            operation,
            status: st,
            body,
        }) && operation == Operation::GetRuntime && st == status && body@ == body_text@),
        status_success(status) ==> match body_json {
            Some(j) => match spec_dcs_runtime(*j) {
                Some(m) => r matches Ok(v) && v@ == m,
                None => r matches Err(ApiError::DecodeFailure { operation, .. }) && operation
                    == Operation::GetRuntime,
            },
            None => r matches Err(ApiError::DecodeFailure { operation, .. }) && operation
                == Operation::GetRuntime,
        },
{
    if !is_success(status) {
        return Err(
            ApiError::HttpStatusFailure {
                operation: Operation::GetRuntime,
                status,
                body: body_text,
            },
        );
    }
    match body_json {
        Some(j) => match DcsRuntime::decode(j) {
            Ok(v) => Ok(v),
            Err(e) => Err(
                ApiError::DecodeFailure { operation: Operation::GetRuntime, field: e.field },
            ),
        },
        None => Err(
            ApiError::DecodeFailure {
                operation: Operation::GetRuntime,
                field: String::from_str("body"),
            },
        ),
    }
}

/// The outcome of reading an instance's resource telemetry.
pub fn get_server_resources_outcome(status: u16, body_text: String, body_json: Option<&Json>) -> (r:
    Result<ServerResources, ApiError>)
    ensures
        !status_success(status) ==> (r matches Err(ApiError::HttpStatusFailure {
            operation,
            status: st,
            body,
        }) && operation == Operation::GetServerResources && st == status && body@ == body_text@),
        status_success(status) ==> match body_json {
            Some(j) => match spec_server_resources(*j) {
                Some(m) => r matches Ok(v) && v@ == m,
                None => r matches Err(ApiError::DecodeFailure { operation, .. }) && operation
                    == Operation::GetServerResources,
            },
            None => r matches Err(ApiError::DecodeFailure { operation, .. }) && operation
                == Operation::GetServerResources,
        },
{
    if !is_success(status) {
        return Err(
            ApiError::HttpStatusFailure {
                operation: Operation::GetServerResources,
                status,
                body: body_text,
            },
        );
    }
    match body_json {
        Some(j) => match ServerResources::decode(j) {
            Ok(v) => Ok(v),
            Err(e) => Err(
                ApiError::DecodeFailure {
                    operation: Operation::GetServerResources,
                    field: e.field,
                },
            ),
        },
        None => Err(
            ApiError::DecodeFailure {
                operation: Operation::GetServerResources,
                field: String::from_str("body"),
            },
        ),
    }
}

} // verus!
