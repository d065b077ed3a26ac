//! The OpenClaw gateway client's own logic: its settings, its error
//! vocabulary, request numbering, and how an incoming frame is routed.
use vstd::prelude::*;

use crate::error::AppError;
use crate::frame::{GatewayEvent, GatewayResponse};
use crate::json::{json_parse, json_parse_error, parse_json};
use crate::text::{concat2, decimal, owned, push_decimal, push_i32, signed_decimal, str_eq};

verus! {

/// Errors of the gateway connection.
#[derive(Debug, Clone, PartialEq, Eq)]
pub enum OpenClawError {
    Connection(String),
    Serialization(String),
    SendError(String),
    ConnectionClosed,
    Timeout,
    InvalidResponse(String),
    GatewayError { code: Option<i32>, message: String },
    NotConnected,
}

/// How an optional error code prints with `{:?}`.
pub open spec fn code_text(code: Option<i32>) -> Seq<char> {
    match code {
        Some(c) => "Some("@ + signed_decimal(c as int) + ")"@,
        None => "None"@,
    }
}

/// The message of a gateway error.
pub open spec fn openclaw_error_message(e: OpenClawError) -> Seq<char> {
    match e {
        OpenClawError::Connection(m) => "WebSocket connection error: "@ + m@,
        OpenClawError::Serialization(m) => "Failed to serialize message: "@ + m@,
        OpenClawError::SendError(m) => "Failed to send message: "@ + m@,
        OpenClawError::ConnectionClosed => "Connection closed unexpectedly"@,
        OpenClawError::Timeout => "Request timed out"@,
        OpenClawError::InvalidResponse(m) => "Invalid response: "@ + m@,
        OpenClawError::GatewayError { code, message } => "Gateway error: code="@ + code_text(code)
            + ", message="@ + message@,
        OpenClawError::NotConnected => "Not connected to gateway"@,
    }
}

impl OpenClawError {
    /// The message of this error, as its `Display` rendering reads.
    pub fn message(&self) -> (m: String)
        ensures
            m@ == openclaw_error_message(*self),
    {
        match self {
            OpenClawError::Connection(m) => concat2("WebSocket connection error: ", m.as_str()),
            OpenClawError::Serialization(m) => concat2("Failed to serialize message: ", m.as_str()),
            OpenClawError::SendError(m) => concat2("Failed to send message: ", m.as_str()),
            OpenClawError::ConnectionClosed => owned("Connection closed unexpectedly"),
            OpenClawError::Timeout => owned("Request timed out"),
            OpenClawError::InvalidResponse(m) => concat2("Invalid response: ", m.as_str()),
            OpenClawError::GatewayError { code, message } => {
                let mut s = owned("Gateway error: code=");
                match code {
                    Some(c) => {
                        s.append("Some(");
                        push_i32(&mut s, *c);
                        s.append(")");
                    },
                    None => {
                        s.append("None");
                    },
                }
                s.append(", message=");
                s.append(message.as_str());
                s
            },
            OpenClawError::NotConnected => owned("Not connected to gateway"),
        }
    }
}

/// A message from the gateway, as the client handles it.
#[derive(Debug, Clone)]
pub enum GatewayMessage {
    Event(GatewayEvent),
    Response(GatewayResponse),
}

/// What the gateway reported about itself during the handshake.
#[derive(Debug, Clone, PartialEq, Eq)]
pub struct GatewayCapabilities {
    pub version: String,
    pub features: Vec<String>,
    pub agent_types: Vec<String>,
}

impl Default for GatewayCapabilities {
    fn default() -> (c: GatewayCapabilities)
        ensures
            c.version@ == "1.0.0"@,
            c.features@.len() == 0,
            c.agent_types@.len() == 0,
    {
        GatewayCapabilities { version: owned("1.0.0"), features: Vec::new(), agent_types: Vec::new() }
    }
}

/// Connection settings of the gateway client.
#[derive(Debug, Clone, PartialEq, Eq)]
pub struct OpenClawConfig {
    pub url: String,
    pub reconnect_interval_ms: u64,
    pub request_timeout_ms: u64,
    pub max_reconnect_attempts: u32,
}

impl Default for OpenClawConfig {
    fn default() -> (c: OpenClawConfig)
        ensures
            c.url@ == "ws://127.0.0.1:8080/gateway"@,
            c.reconnect_interval_ms == 1000,
            c.request_timeout_ms == 30000,
            c.max_reconnect_attempts == 5,
    {
        OpenClawConfig {
            url: owned("ws://127.0.0.1:8080/gateway"),
            reconnect_interval_ms: 1000,
            request_timeout_ms: 30000,
            max_reconnect_attempts: 5,
        }
    }
}

impl OpenClawConfig {
    /// The default settings with another gateway address.
    pub fn with_url(url: String) -> (c: OpenClawConfig)
        ensures
            c.url == url,
            c.reconnect_interval_ms == 1000,
            c.request_timeout_ms == 30000,
            c.max_reconnect_attempts == 5,
    {
        let mut c = OpenClawConfig::default();
        c.url = url;
        c
    }

    /// The settings a connection test uses: the configured address and a
    /// timeout given in seconds.
    pub fn for_connection_test(url: String, timeout_secs: u64) -> (c: OpenClawConfig)
        requires
            timeout_secs * 1000 <= u64::MAX,
        ensures
            c.url == url,
            c.reconnect_interval_ms == 1000,
            c.request_timeout_ms == timeout_secs * 1000,
            c.max_reconnect_attempts == 5,
    {
        let mut c = OpenClawConfig::with_url(url);
        c.request_timeout_ms = timeout_secs * 1000;
        c
    }
}

/// The identifier of the `n`-th request sent on a connection.
pub open spec fn request_id_text(n: nat) -> Seq<char> {
    "req-"@ + decimal(n)
}

/// The identifier of the request numbered `n`: `req-<n>`.
pub fn request_id(n: u64) -> (s: String)
    ensures
        s@ == request_id_text(n as nat),
{
    let mut s = owned("req-");
    push_decimal(&mut s, n);
    s
}

/// Distinct request numbers give distinct identifiers, so replies can be
/// matched to their requests.
pub proof fn lemma_request_ids_distinct(a: nat, b: nat)
    requires
        a != b,
    ensures
        request_id_text(a) != request_id_text(b),
{
    if request_id_text(a) == request_id_text(b) {
        assert("req-"@ + decimal(a) == "req-"@ + decimal(b));
        assert(decimal(a) =~= ("req-"@ + decimal(a)).subrange(4, ("req-"@ + decimal(a)).len() as int)) by {
            reveal_strlit("req-");
        }
        assert(decimal(b) =~= ("req-"@ + decimal(b)).subrange(4, ("req-"@ + decimal(b)).len() as int)) by {
            reveal_strlit("req-");
        }
        lemma_decimal_injective(a, b);
    }
}

/// Distinct numbers have distinct numerals.
pub proof fn lemma_decimal_injective(a: nat, b: nat)
    requires
        decimal(a) == decimal(b),
    ensures
        a == b,
    decreases a,
{
    crate::text::lemma_decimal_digits(a);
    crate::text::lemma_decimal_digits(b);
    if a < 10 && b < 10 {
        assert(decimal(a)[0] == crate::text::digit_char(a as int));
        assert(decimal(b)[0] == crate::text::digit_char(b as int));
        lemma_digit_char_injective(a as int, b as int);
    } else if a >= 10 && b >= 10 {
        let da = decimal(a);
        assert(da.drop_last() == decimal(a / 10));
        assert(decimal(b).drop_last() == decimal(b / 10));
        assert(da.last() == crate::text::digit_char((a % 10) as int));
        assert(decimal(b).last() == crate::text::digit_char((b % 10) as int));
        lemma_digit_char_injective((a % 10) as int, (b % 10) as int);
        lemma_decimal_injective(a / 10, b / 10);
    } else if a < 10 {
        crate::text::lemma_decimal_digits(b / 10);
        assert(decimal(b).len() >= 2);
    } else {
        crate::text::lemma_decimal_digits(a / 10);
        assert(decimal(a).len() >= 2);
    }
}

proof fn lemma_digit_char_injective(a: int, b: int)
    requires
        0 <= a < 10,
        0 <= b < 10,
        crate::text::digit_char(a) == crate::text::digit_char(b),
    ensures
        a == b,
{
}

/// The kind of an incoming frame, from its `type` tag.
#[derive(Debug, Clone, Copy, PartialEq, Eq, Structural)]
pub enum FrameKind {
    Response,
    Event,
    Request,
    Unknown,
}

/// The kind a `type` tag names: `res`, `event`, `req`, or anything else.
pub fn classify_frame(frame_type: &str) -> (k: FrameKind)
    ensures
        k == FrameKind::Response <==> frame_type@ == "res"@,
        k == FrameKind::Event <==> frame_type@ == "event"@,
        k == FrameKind::Request <==> frame_type@ == "req"@,
{
    proof {
        reveal_strlit("res");
        reveal_strlit("event");
        reveal_strlit("req");
        assert("res"@ != "event"@ && "res"@ != "req"@ && "event"@ != "req"@) by {
            assert("res"@.len() != "event"@.len());
            assert("res"@[2] != "req"@[2]);
            assert("event"@.len() != "req"@.len());
        }
    }
    if str_eq(frame_type, "res") {
        FrameKind::Response
    } else if str_eq(frame_type, "event") {
        FrameKind::Event
    } else if str_eq(frame_type, "req") {
        FrameKind::Request
    } else {
        FrameKind::Unknown
    }
}

/// The `type` tag of an incoming frame: its `type` member where that is a
/// string, else empty.
pub open spec fn frame_tag(value: serde_json::Value) -> Seq<char> {
    match crate::json::member_str(value, "type"@) {
        Some(t) => t,
        None => Seq::<char>::empty(),
    }
}

/// The kind of frame a value's `type` tag names.
pub open spec fn frame_kind_of(value: serde_json::Value) -> FrameKind {
    if frame_tag(value) == "res"@ {
        FrameKind::Response
    } else if frame_tag(value) == "event"@ {
        FrameKind::Event
    } else if frame_tag(value) == "req"@ {
        FrameKind::Request
    } else {
        FrameKind::Unknown
    }
}

/// The kind of an incoming frame, from its `type` tag.
pub fn incoming_frame_kind(value: &serde_json::Value) -> (k: FrameKind)
    ensures
        k == frame_kind_of(*value),
        k == FrameKind::Response <==> frame_tag(*value) == "res"@,
        k == FrameKind::Event <==> frame_tag(*value) == "event"@,
        k == FrameKind::Request <==> frame_tag(*value) == "req"@,
{
    let tag = match crate::json::get_member_str(value, "type") {
        Some(t) => t,
        None => String::new(),
    };
    classify_frame(tag.as_str())
}

/// Reads an incoming frame's text: the JSON value it holds and the kind
/// of frame its `type` tag names; a text that is not one JSON value is
/// refused with `Invalid JSON: <the parser's error>`.
pub fn read_incoming_frame(text: &str) -> (r: Result<(FrameKind, serde_json::Value), AppError>)
    ensures
        match json_parse(text@) {
            Some(v) => r == Ok::<(FrameKind, serde_json::Value), AppError>((frame_kind_of(v), v)),
            None => r matches Err(AppError::Transport(m)) && m@ == "Invalid JSON: "@ + json_parse_error(text@),
        },
{
    match parse_json(text) {
        Ok(v) => {
            let k = incoming_frame_kind(&v);
            Ok((k, v))
        },
        Err(e) => Err(AppError::Transport(concat2("Invalid JSON: ", e.as_str()))),
    }
}

/// What a waiting request is answered with, given its response frame:
/// the payload of a successful response (`No payload` where it has none),
/// or the gateway's error (`Unknown error` where the frame gives none).
pub open spec fn reply_spec(resp: GatewayResponse, r: Result<serde_json::Value, OpenClawError>) -> bool {
    if resp.ok {
        match resp.payload {
            Some(p) => r == Ok::<serde_json::Value, OpenClawError>(p),
            None => r matches Err(OpenClawError::InvalidResponse(m)) && m@ == "No payload"@,
        }
    } else {
        match resp.error {
            Some(e) => r matches Err(OpenClawError::GatewayError { code, message }) && code == e.code
                && message@ == e.message@,
            None => r matches Err(OpenClawError::GatewayError { code, message }) && code is None
                && message@ == "Unknown error"@,
        }
    }
}

/// The answer for the request that a response frame replies to.
pub fn reply_for_response(resp: GatewayResponse) -> (r: Result<serde_json::Value, OpenClawError>)
    ensures
        reply_spec(resp, r),
{
    if resp.ok {
        match resp.payload {
            Some(p) => Ok(p),
            None => Err(OpenClawError::InvalidResponse(owned("No payload"))),
        }
    } else {
        match resp.error {
            Some(e) => Err(OpenClawError::GatewayError { code: e.code, message: e.message }),
            None => Err(OpenClawError::GatewayError { code: None, message: owned("Unknown error") }),
        }
    }
}

/// Whether an event announces that the gateway is ready (its payload then
/// carries the gateway's capabilities).
pub fn is_ready_event(event: &GatewayEvent) -> (b: bool)
    ensures
        b == (event.event@ == "gateway.ready"@),
{
    str_eq(event.event.as_str(), "gateway.ready")
}

/// A gateway error as the transport reports it to callers.
pub fn as_transport_error(e: &OpenClawError) -> (a: AppError)
    ensures
        a matches AppError::Transport(m) && m@ == openclaw_error_message(*e),
{
    AppError::Transport(e.message())
}

} // verus!
