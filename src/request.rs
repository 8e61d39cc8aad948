//! What happens to one request: whether it reaches a handler, and what status
//! and payload the handler's outcome turns into.

use vstd::prelude::*;
use crate::pipeline::MAX_BODY_LENGTH;
use crate::routes::{Method, Route, route, route_of};

verus! {

pub const STATUS_OK: u16 = 200;

pub const STATUS_BAD_REQUEST: u16 = 400;

pub const STATUS_NOT_FOUND: u16 = 404;

pub const STATUS_PAYLOAD_TOO_LARGE: u16 = 413;

pub const STATUS_INTERNAL_SERVER_ERROR: u16 = 500;

/// Whether a status code is a client error (4xx).
pub open spec fn is_client_error(status: u16) -> bool {
    400 <= status && status < 500
}

/// Whether a status code is a success (2xx).
pub open spec fn is_success(status: u16) -> bool {
    200 <= status && status < 300
}

/// The verdict of the before phase and the router on a request.
#[derive(Clone, Copy, Debug, PartialEq, Eq, Structural)]
pub enum Admission {
    /// Answered at once with this status; no handler runs.
    Reject(u16),
    /// Handed to the handler of this route.
    Dispatch(Route),
}

/// The body cap is enforced before routing: an oversized body is refused
/// whatever its destination; otherwise an unknown route is not found.
pub open spec fn admission_of(method: Method, path: Seq<char>, body_len: nat) -> Admission {
    if body_len > MAX_BODY_LENGTH {
        Admission::Reject(STATUS_PAYLOAD_TOO_LARGE)
    } else {
        match route_of(method, path) {
            Some(r) => Admission::Dispatch(r),
            None => Admission::Reject(STATUS_NOT_FOUND),
        }
    }
}

/// Decides whether a request with a body of `body_len` bytes reaches a handler.
pub fn admission(method: Method, path: &str, body_len: usize) -> (r: Admission)
    ensures
        r == admission_of(method, path@, body_len as nat),
{
    if body_len > MAX_BODY_LENGTH {
        Admission::Reject(STATUS_PAYLOAD_TOO_LARGE)
    } else {
        match route(method, path) {
            Some(r) => Admission::Dispatch(r),
            None => Admission::Reject(STATUS_NOT_FOUND),
        }
    }
}

/// What an engine operation reported.
pub enum EngineOutcome<T> {
    /// A result, such as the definition at the queried position.
    Found(T),
    /// Nothing at the queried position.
    Absent,
    /// The engine reported a domain error, such as a file it cannot parse.
    Declined,
    /// The operation faulted (the engine broke down or panicked).
    Failed,
}

/// A handler's answer: a status and, on success, an optional payload.
pub struct Reply<T> {
    pub status: u16,
    pub body: Option<T>,
}

/// A found result is a success carrying it; an absent result and an error
/// that the engine reports are both a success with an empty payload (the one
/// convention for every engine endpoint); only a fault is a server error.
pub open spec fn reply_of<T>(outcome: EngineOutcome<T>) -> Reply<T> {
    match outcome {
        EngineOutcome::Found(v) => Reply { status: STATUS_OK, body: Some(v) },
        EngineOutcome::Absent => Reply { status: STATUS_OK, body: None },
        EngineOutcome::Declined => Reply { status: STATUS_OK, body: None },
        EngineOutcome::Failed => Reply { status: STATUS_INTERNAL_SERVER_ERROR, body: None },
    }
}

/// Turns an engine outcome into the reply sent to the client.
pub fn engine_reply<T>(outcome: EngineOutcome<T>) -> (r: Reply<T>)
    ensures
        r == reply_of(outcome),
{
    match outcome {
        EngineOutcome::Found(v) => Reply { status: STATUS_OK, body: Some(v) },
        EngineOutcome::Absent => Reply { status: STATUS_OK, body: None },
        EngineOutcome::Declined => Reply { status: STATUS_OK, body: None },
        EngineOutcome::Failed => Reply { status: STATUS_INTERNAL_SERVER_ERROR, body: None },
    }
}

/// The reply to a body that does not decode as the endpoint's request.
pub fn decode_error_reply<T>() -> (r: Reply<T>)
    ensures
        r.status == STATUS_BAD_REQUEST,
        r.body is None,
{
    Reply { status: STATUS_BAD_REQUEST, body: None }
}

/// The reply of an endpoint handler: a body that did not decode (`None`) is a
/// client error and the engine is not consulted; otherwise the engine's
/// outcome decides.
pub open spec fn handler_reply_of<T>(decoded: Option<EngineOutcome<T>>) -> Reply<T> {
    match decoded {
        None => Reply { status: STATUS_BAD_REQUEST, body: None },
        Some(o) => reply_of(o),
    }
}

/// Turns the result of decoding and, when it decoded, of the engine call into
/// the reply sent to the client.
pub fn handler_reply<T>(decoded: Option<EngineOutcome<T>>) -> (r: Reply<T>)
    ensures
        r == handler_reply_of(decoded),
{
    match decoded {
        None => decode_error_reply(),
        Some(o) => engine_reply(o),
    }
}

/// The reply to a request that never reached a handler.
pub fn rejection_reply<T>(status: u16) -> (r: Reply<T>)
    ensures
        r.status == status,
        r.body is None,
{
    Reply { status, body: None }
}

/// The reply of the liveness check: a success, without consulting the engine.
pub fn ping_reply() -> (r: Reply<()>)
    ensures
        r.status == STATUS_OK,
        r.body == Some(()),
{
    Reply { status: STATUS_OK, body: Some(()) }
}

/// A definition that the engine reports: where it is and its source text.
pub struct Definition {
    pub file_path: String,
    pub text: String,
    pub line: usize,
    pub column: usize,
}

/// A request whose body exceeds the cap is refused with a client error and
/// reaches no handler, whatever its method and path.
pub proof fn oversized_body_never_dispatched(method: Method, path: Seq<char>, body_len: nat)
    requires
        body_len > MAX_BODY_LENGTH,
    ensures
        admission_of(method, path, body_len) == Admission::Reject(STATUS_PAYLOAD_TOO_LARGE),
        is_client_error(STATUS_PAYLOAD_TOO_LARGE),
{
}

/// When the engine reports a definition, the reply is a success whose payload
/// carries the reported path, text, line and column unchanged.
pub proof fn definition_reply_round_trips(d: Definition)
    ensures
        ({
            let r = reply_of(EngineOutcome::Found(d));
            &&& r.status == STATUS_OK
            &&& r.body is Some
            &&& r.body->Some_0.file_path@ == d.file_path@
            &&& r.body->Some_0.text@ == d.text@
            &&& r.body->Some_0.line == d.line
            &&& r.body->Some_0.column == d.column
        }),
{
}

/// A body that does not decode is answered with a client error and no
/// payload on every endpoint that reads one: the POST routes.
pub proof fn malformed_body_is_client_error<T>(path: Seq<char>, body_len: nat, route: Route)
    requires
        admission_of(Method::Post, path, body_len) == Admission::Dispatch(route),
    ensures
        route != Route::Ping,
        is_client_error(handler_reply_of::<T>(None).status),
        handler_reply_of::<T>(None).body is None,
{
    reveal_strlit("/ping");
    reveal_strlit("/parse_file");
    reveal_strlit("/find_definition");
    reveal_strlit("/list_completions");
}

/// The liveness check is dispatched to a handler that does not consult the
/// engine and whose reply is a success, for any body within the cap.
pub proof fn ping_needs_no_engine(body_len: nat)
    requires
        body_len <= MAX_BODY_LENGTH,
    ensures
        admission_of(Method::Get, "/ping"@, body_len) == Admission::Dispatch(Route::Ping),
        !Route::Ping.spec_uses_engine(),
        is_success(STATUS_OK),
{
    reveal_strlit("/ping");
    reveal_strlit("/parse_file");
    reveal_strlit("/find_definition");
    reveal_strlit("/list_completions");
}

} // verus!
