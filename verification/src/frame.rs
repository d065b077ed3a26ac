//! JSON-RPC frames exchanged with a gateway (requests, responses and
//! server-pushed events), fresh request identifiers, and the reply
//! handling of the in-process transport.
use vstd::prelude::*;

use crate::error::AppError;
use crate::text::{concat2, owned};

verus! {

/// A request frame; `frame_type` is always `req`.
#[derive(Debug, Clone)]
pub struct GatewayRequest {
    pub frame_type: String,
    pub id: String,
    pub method: String,
    pub params: serde_json::Value,
}

/// A response frame; `frame_type` is always `res`.
#[derive(Debug, Clone)]
pub struct GatewayResponse {
    pub frame_type: String,
    pub id: String,
    pub ok: bool,
    pub payload: Option<serde_json::Value>,
    pub error: Option<GatewayError>,
}

/// The error part of a response.
#[derive(Debug, Clone)]
pub struct GatewayError {
    pub code: Option<i32>,
    pub message: String,
    pub data: Option<serde_json::Value>,
}

/// A server-pushed event frame; `frame_type` is always `event`.
#[derive(Debug, Clone)]
pub struct GatewayEvent {
    pub frame_type: String,
    pub event: String,
    pub payload: serde_json::Value,
    pub seq: Option<u64>,
    pub state_version: Option<u64>,
}

/// Any frame, told apart by its `type` tag.
#[derive(Debug, Clone)]
pub enum GatewayFrame {
    Request(GatewayRequest),
    Response(GatewayResponse),
    Event(GatewayEvent),
}

/// Lowercase hexadecimal digit.
pub open spec fn is_lower_hex(c: char) -> bool {
    ('0' <= c <= '9') || ('a' <= c <= 'f')
}

/// The text of a random (version 4) UUID: 36 characters, hyphens at
/// positions 8, 13, 18 and 23, lowercase hexadecimal digits elsewhere,
/// the version digit `4` at position 14 and a variant digit among `8`,
/// `9`, `a`, `b` at position 19.
pub open spec fn is_uuid_v4_text(s: Seq<char>) -> bool {
    &&& s.len() == 36
    &&& forall|i: int|
        0 <= i < 36 ==> (if i == 8 || i == 13 || i == 18 || i == 23 {
            s[i] == '-'
        } else {
            is_lower_hex(#[trigger] s[i])
        })
    &&& s[14] == '4'
    &&& (s[19] == '8' || s[19] == '9' || s[19] == 'a' || s[19] == 'b')
}

/// A fresh random identifier: `uuid::Uuid::new_v4()` written with its
/// `Display` form (lowercase, hyphenated). The identifier is random; only
/// its shape is stated.
#[verifier::external_body]
pub(crate) fn new_uuid_v4() -> (s: String)
    ensures
        is_uuid_v4_text(s@),
{
    uuid::Uuid::new_v4().to_string()
}

impl GatewayRequest {
    /// A request for `method` with a fresh random identifier.
    pub fn new(method: &str, params: serde_json::Value) -> (r: GatewayRequest)
        ensures
            r.frame_type@ == "req"@,
            is_uuid_v4_text(r.id@),
            r.method@ == method@,
            r.params == params,
    {
        GatewayRequest { frame_type: owned("req"), id: new_uuid_v4(), method: owned(method), params }
    }
}

/// What the in-process transport answers a request with: the payload of
/// a successful reply; otherwise a transport error with the reply's error
/// message, `Unknown IPC error`, `Response has no payload`, or (where no
/// reply came) `IPC channel closed`.
pub open spec fn ipc_reply_spec(reply: Option<GatewayResponse>, r: Result<serde_json::Value, AppError>) -> bool {
    match reply {
        Some(resp) => if resp.ok {
            match resp.payload {
                Some(p) => r == Ok::<serde_json::Value, AppError>(p),
                None => r matches Err(AppError::Transport(m)) && m@ == "Response has no payload"@,
            }
        } else {
            match resp.error {
                Some(e) => r matches Err(AppError::Transport(m)) && m@ == e.message@,
                None => r matches Err(AppError::Transport(m)) && m@ == "Unknown IPC error"@,
            }
        },
        None => r matches Err(AppError::Transport(m)) && m@ == "IPC channel closed"@,
    }
}

/// Interprets the reply to an in-process request.
pub fn ipc_reply(reply: Option<GatewayResponse>) -> (r: Result<serde_json::Value, AppError>)
    ensures
        ipc_reply_spec(reply, r),
{
    match reply {
        Some(resp) => {
            if resp.ok {
                match resp.payload {
                    Some(p) => Ok(p),
                    None => Err(AppError::Transport(owned("Response has no payload"))),
                }
            } else {
                match resp.error {
                    Some(e) => Err(AppError::Transport(e.message)),
                    None => Err(AppError::Transport(owned("Unknown IPC error"))),
                }
            }
        },
        None => Err(AppError::Transport(owned("IPC channel closed"))),
    }
}

/// The event that the in-process transport forwards to the other side
/// for each request: named `request.<method>`, carrying the parameters.
pub fn forwarded_event(method: &str, params: serde_json::Value) -> (e: GatewayEvent)
    ensures
        e.frame_type@ == "event"@,
        e.event@ == "request."@ + method@,
        e.payload == params,
        e.seq is None,
        e.state_version is None,
{
    GatewayEvent {
        frame_type: owned("event"),
        event: concat2("request.", method),
        payload: params,
        seq: None,
        state_version: None,
    }
}

/// The error for a request that could not be handed to the in-process
/// transport.
pub fn ipc_send_failed(reason: &str) -> (e: AppError)
    ensures
        e matches AppError::Transport(m) && m@ == "Failed to send IPC request: "@ + reason@,
{
    AppError::Transport(concat2("Failed to send IPC request: ", reason))
}

} // verus!
