//! JSON-RPC limits, errors, envelopes, and response correlation.

use std::collections::BTreeSet;

use vstd::prelude::*;
use vstd::string::StringExecFns;

use crate::framing;
use crate::framing::{encode_frame, read_body};
use crate::json;
use crate::json::{
    contains_member, parse_json, serialize_json, take_member, Json, JsonNumber,
    JsonNumberView, JsonView,
};
use crate::text;
use crate::text::{push_decimal, text_around_number, text_equal};

verus! {

/// The default maximum number of bytes in an LSP header, including its terminator.
pub const DEFAULT_MAX_HEADER_BYTES: usize = 16 * 1024;

/// The default maximum number of bytes in an inbound JSON-RPC body.
pub const DEFAULT_MAX_INBOUND_BODY_BYTES: usize = 16 * 1024 * 1024;

/// The default maximum number of bytes in an outbound JSON-RPC body.
pub const DEFAULT_MAX_OUTBOUND_BODY_BYTES: usize = 64 * 1024 * 1024;

/// The default maximum encoded byte length of a server request ID.
pub const DEFAULT_MAX_ID_BYTES: usize = 256;

/// The default maximum byte length of a JSON-RPC method name.
pub const DEFAULT_MAX_METHOD_BYTES: usize = 256;

/// The default maximum serialized byte length of request or notification parameters.
pub const DEFAULT_MAX_PARAMS_BYTES: usize = 1024 * 1024;

/// The default maximum nesting depth of arrays and objects in an inbound JSON body.
pub const DEFAULT_MAX_JSON_DEPTH: usize = 64;

/// The default maximum number of simultaneously pending client requests.
pub const DEFAULT_MAX_PENDING_REQUESTS: usize = 8;

/// Independent bounds for LSP framing in each direction.
#[derive(Clone, Copy, Debug, PartialEq, Eq, Structural)]
pub struct FramingLimits {
    /// Maximum bytes in an inbound header, including `\r\n\r\n`.
    pub max_header_bytes: usize,
    /// Maximum bytes in an inbound message body.
    pub max_inbound_body_bytes: usize,
    /// Maximum bytes in an outbound message body.
    pub max_outbound_body_bytes: usize,
}

impl Default for FramingLimits {
    fn default() -> (limits: Self)
        ensures
            limits == (FramingLimits {
                max_header_bytes: DEFAULT_MAX_HEADER_BYTES,
                max_inbound_body_bytes: DEFAULT_MAX_INBOUND_BODY_BYTES,
                max_outbound_body_bytes: DEFAULT_MAX_OUTBOUND_BODY_BYTES,
            }),
    {
        FramingLimits {
            max_header_bytes: DEFAULT_MAX_HEADER_BYTES,
            max_inbound_body_bytes: DEFAULT_MAX_INBOUND_BODY_BYTES,
            max_outbound_body_bytes: DEFAULT_MAX_OUTBOUND_BODY_BYTES,
        }
    }
}

/// Bounds applied while classifying an already framed JSON-RPC value.
#[derive(Clone, Copy, Debug, PartialEq, Eq, Structural)]
pub struct EnvelopeLimits {
    /// Maximum nesting depth of arrays and objects in a JSON body.
    pub max_json_depth: usize,
    /// Maximum encoded byte length of a server request ID.
    pub max_id_bytes: usize,
    /// Maximum UTF-8 byte length of a method name.
    pub max_method_bytes: usize,
    /// Maximum serialized byte length of request or notification parameters.
    pub max_params_bytes: usize,
}

impl Default for EnvelopeLimits {
    fn default() -> (limits: Self)
        ensures
            limits == (EnvelopeLimits {
                max_json_depth: DEFAULT_MAX_JSON_DEPTH,
                max_id_bytes: DEFAULT_MAX_ID_BYTES,
                max_method_bytes: DEFAULT_MAX_METHOD_BYTES,
                max_params_bytes: DEFAULT_MAX_PARAMS_BYTES,
            }),
    {
        EnvelopeLimits {
            max_json_depth: DEFAULT_MAX_JSON_DEPTH,
            max_id_bytes: DEFAULT_MAX_ID_BYTES,
            max_method_bytes: DEFAULT_MAX_METHOD_BYTES,
            max_params_bytes: DEFAULT_MAX_PARAMS_BYTES,
        }
    }
}

/// The section of an LSP frame that ended prematurely.
#[derive(Clone, Copy, Debug, PartialEq, Eq, Structural)]
pub enum FrameSection {
    /// The HTTP-like header section.
    Header,
    /// The JSON-RPC body.
    Body,
}

/// A deterministic category for an invalid JSON-RPC envelope.
#[derive(Clone, Copy, Debug, PartialEq, Eq, Structural)]
pub enum EnvelopeViolation {
    /// The top-level JSON value was neither a request, notification, nor response object.
    InvalidShape,
    /// The `jsonrpc` member was absent or was not exactly `"2.0"`.
    InvalidVersion,
    /// A request or notification contained response-only members.
    RequestContainsResponseMembers,
    /// A response contained request-only members.
    ResponseContainsRequestMembers,
    /// A response contained both or neither of `result` and `error`.
    InvalidResponsePayload,
    /// The optional `params` member was not null, an object, or an array.
    InvalidParams,
    /// A JSON-RPC error object had an invalid shape.
    InvalidErrorObject,
}

/// A monotonically allocated request ID owned by the srcmv client.
#[derive(Clone, Copy, Debug, PartialEq, Eq, PartialOrd, Ord, Structural)]
pub struct ClientRequestId(u64);

impl View for ClientRequestId {
    type V = u64;

    closed spec fn view(&self) -> u64 {
        self.0
    }
}

/// The request ID of a number.
pub closed spec fn client_id(number: u64) -> ClientRequestId {
    ClientRequestId(number)
}

/// Request IDs and their numbers correspond one to one.
pub broadcast proof fn law_request_ids_are_their_numbers(number: u64)
    ensures
        (#[trigger] client_id(number))@ == number,
        forall|id: ClientRequestId| #[trigger] id@ == number ==> id == client_id(number),
{
}

/// A framing, serialization, envelope, or response-correlation failure.
#[derive(Clone, Debug, PartialEq, Eq)]
pub enum JsonRpcError {
    /// An I/O operation failed.
    Io {
        /// The operation being performed.
        operation: &'static str,
        /// The text of the underlying I/O error.
        message: String,
    },
    /// EOF occurred after a frame had begun but before it was complete.
    UnexpectedEof {
        /// The incomplete portion of the frame.
        section: FrameSection,
    },
    /// An unterminated or terminated header exceeded its configured bound.
    HeaderTooLarge {
        /// The maximum accepted header size.
        limit: usize,
    },
    /// A header contained a non-ASCII byte.
    NonAsciiHeader,
    /// A header line was malformed.
    MalformedHeader,
    /// The required `Content-Length` header was absent.
    MissingContentLength,
    /// More than one `Content-Length` header was present.
    DuplicateContentLength,
    /// A `Content-Length` value was not an unsigned decimal integer.
    InvalidContentLength,
    /// A `Content-Length` value overflowed the platform's `usize`.
    ContentLengthOverflow,
    /// More than one `Content-Type` header was present.
    DuplicateContentType,
    /// A `Content-Type` media type, parameter, or charset was unsupported.
    UnsupportedContentType,
    /// An inbound JSON-RPC body exceeded its configured bound.
    InboundBodyTooLarge {
        /// The declared inbound body length.
        length: usize,
        /// The maximum accepted body length.
        limit: usize,
    },
    /// The exactly serialized outbound JSON-RPC body exceeded its configured bound.
    OutboundBodyTooLarge {
        /// The serialized outbound body length.
        length: usize,
        /// The maximum accepted body length.
        limit: usize,
    },
    /// An inbound body was not valid JSON.
    MalformedJson {
        /// The parser's message, which contains location but not source text.
        message: String,
    },
    /// An inbound JSON body exceeded its configured array/object nesting bound.
    JsonNestingTooDeep {
        /// The first observed depth above the configured limit.
        depth: usize,
        /// The maximum accepted array/object nesting depth.
        limit: usize,
    },
    /// JSON-RPC batch messages are unsupported.
    BatchUnsupported,
    /// A JSON-RPC envelope violated the protocol shape.
    InvalidEnvelope {
        /// The deterministic violation category.
        violation: EnvelopeViolation,
    },
    /// An ID was not an accepted integer or string in its message context.
    InvalidId,
    /// An encoded server request ID exceeded its configured bound.
    IdTooLarge {
        /// The encoded ID length.
        length: usize,
        /// The maximum accepted encoded length.
        limit: usize,
    },
    /// A method name exceeded its configured bound.
    MethodTooLong {
        /// The UTF-8 method-name length.
        length: usize,
        /// The maximum accepted length.
        limit: usize,
    },
    /// Serialized request or notification parameters exceeded their configured bound.
    ParamsTooLarge {
        /// The serialized parameter length.
        length: usize,
        /// The maximum accepted length.
        limit: usize,
    },
    /// The pending-client-request limit was reached.
    PendingRequestLimit {
        /// The maximum pending request count.
        limit: usize,
    },
    /// No additional monotonically increasing client request ID was available.
    ClientRequestIdsExhausted,
    /// A response repeated an already completed client request ID.
    DuplicateResponseId {
        /// The repeated client request ID.
        id: ClientRequestId,
    },
    /// A response did not correspond to an issued client request ID.
    UnknownResponseId {
        /// The unrecognized client request ID.
        id: ClientRequestId,
    },
}

/// What a [`JsonRpcError`] says, with its texts as character sequences.
pub enum JsonRpcErrorView {
    /// An I/O failure.
    Io { operation: Seq<char>, message: Seq<char> },
    /// A parser failure.
    MalformedJson { message: Seq<char> },
    /// Any other failure.
    Plain(JsonRpcError),
}

impl View for JsonRpcError {
    type V = JsonRpcErrorView;

    open spec fn view(&self) -> JsonRpcErrorView {
        match *self {
            JsonRpcError::Io { operation, message } => JsonRpcErrorView::Io {
                operation: operation@,
                message: message@,
            },
            JsonRpcError::MalformedJson { message } => JsonRpcErrorView::MalformedJson {
                message: message@,
            },
            other => JsonRpcErrorView::Plain(other),
        }
    }
}

/// An integer or string ID on a request initiated by the server.
#[derive(Clone, Debug, PartialEq, Eq, PartialOrd, Ord)]
pub enum ServerRequestId {
    /// A signed JSON integer.
    Integer(i64),
    /// A nonnegative JSON integer outside the signed range.
    Unsigned(u64),
    /// A JSON string.
    String(String),
}

/// A request initiated by the language server.
#[derive(Clone, Debug, PartialEq)]
pub struct ServerRequest {
    /// The server-owned request ID.
    pub id: ServerRequestId,
    /// The request method.
    pub method: String,
    /// Optional structured parameters.
    pub params: Option<Json>,
}

/// A notification emitted by the language server.
#[derive(Clone, Debug, PartialEq)]
pub struct ServerNotification {
    /// The notification method.
    pub method: String,
    /// Optional structured parameters.
    pub params: Option<Json>,
}

/// A structured JSON-RPC error returned for a client request.
#[derive(Clone, Debug, PartialEq)]
pub struct ResponseError {
    /// The JSON-RPC error code.
    pub code: i64,
    /// The bounded-by-frame error message.
    pub message: String,
    /// Optional error data.
    pub data: Option<Json>,
}

/// The mutually exclusive payload of a client response.
#[derive(Clone, Debug, PartialEq)]
pub enum ResponsePayload {
    /// A successful result, including JSON `null`.
    Result(Json),
    /// A JSON-RPC error object.
    Error(ResponseError),
}

/// A response to a request initiated by the srcmv client.
#[derive(Clone, Debug, PartialEq)]
pub struct ClientResponse {
    /// The client-owned response ID.
    pub id: ClientRequestId,
    /// The exactly one result or error payload.
    pub payload: ResponsePayload,
}

/// A validated inbound JSON-RPC message.
#[derive(Clone, Debug, PartialEq)]
pub enum IncomingMessage {
    /// A request initiated by the language server.
    Request(ServerRequest),
    /// A notification emitted by the language server.
    Notification(ServerNotification),
    /// A response to a srcmv client request.
    Response(ClientResponse),
}

/// The mathematical value of a [`ServerRequestId`].
pub enum ServerRequestIdView {
    Integer(i64),
    Unsigned(u64),
    String(Seq<char>),
}

/// The mathematical value of a [`ResponsePayload`].
pub enum ResponsePayloadView {
    Result(JsonView),
    Error { code: i64, message: Seq<char>, data: Option<JsonView> },
}

/// The mathematical value of an [`IncomingMessage`].
#[allow(inconsistent_fields)]
pub enum IncomingMessageView {
    Request { id: ServerRequestIdView, method: Seq<char>, params: Option<JsonView> },
    Notification { method: Seq<char>, params: Option<JsonView> },
    Response { id: ClientRequestId, payload: ResponsePayloadView },
}

/// The value of an optional JSON value.
pub open spec fn optional_json(json: Option<Json>) -> Option<JsonView> {
    match json {
        Some(json) => Some(json@),
        None => None,
    }
}

impl View for ServerRequestId {
    type V = ServerRequestIdView;

    open spec fn view(&self) -> ServerRequestIdView {
        match self {
            ServerRequestId::Integer(value) => ServerRequestIdView::Integer(*value),
            ServerRequestId::Unsigned(value) => ServerRequestIdView::Unsigned(*value),
            ServerRequestId::String(text) => ServerRequestIdView::String(text@),
        }
    }
}

impl View for ResponsePayload {
    type V = ResponsePayloadView;

    open spec fn view(&self) -> ResponsePayloadView {
        match self {
            ResponsePayload::Result(json) => ResponsePayloadView::Result(json@),
            ResponsePayload::Error(error) => ResponsePayloadView::Error {
                code: error.code,
                message: error.message@,
                data: optional_json(error.data),
            },
        }
    }
}

impl View for IncomingMessage {
    type V = IncomingMessageView;

    open spec fn view(&self) -> IncomingMessageView {
        match self {
            IncomingMessage::Request(request) => IncomingMessageView::Request {
                id: request.id@,
                method: request.method@,
                params: optional_json(request.params),
            },
            IncomingMessage::Notification(notification) => IncomingMessageView::Notification {
                method: notification.method@,
                params: optional_json(notification.params),
            },
            IncomingMessage::Response(response) => IncomingMessageView::Response {
                id: response.id,
                payload: response.payload@,
            },
        }
    }
}

impl ServerRequestId {
    /// Returns this ID in a form suitable for a JSON-RPC response.
    pub fn to_json(&self) -> (json: Json)
        ensures
            json@ == id_json(self@),
    {
        match self {
            ServerRequestId::Integer(value) => Json::Number(
                if *value >= 0 {
                    JsonNumber::Unsigned(*value as u64)
                } else {
                    JsonNumber::Negative(*value)
                },
            ),
            ServerRequestId::Unsigned(value) => Json::Number(JsonNumber::Unsigned(*value)),
            ServerRequestId::String(text) => Json::String(text.clone()),
        }
    }
}

/// The JSON value that repeats a server request ID.
pub open spec fn id_json(id: ServerRequestIdView) -> JsonView {
    match id {
        ServerRequestIdView::Integer(value) => JsonView::Number(
            if value >= 0 {
                JsonNumberView::Unsigned(value as u64)
            } else {
                JsonNumberView::Negative(value)
            },
        ),
        ServerRequestIdView::Unsigned(value) => JsonView::Number(JsonNumberView::Unsigned(value)),
        ServerRequestIdView::String(text) => JsonView::String(text),
    }
}

impl ClientRequestId {
    /// Returns the integer sent on the JSON-RPC wire.
    pub fn get(self) -> (value: u64)
        ensures
            value == self@,
    {
        self.0
    }

    /// Returns this ID in a form suitable for an outbound JSON-RPC request.
    pub fn to_json(self) -> (json: Json)
        ensures
            json@ == JsonView::Number(JsonNumberView::Unsigned(self@)),
    {
        Json::Number(JsonNumber::Unsigned(self.0))
    }
}

/// The stable text of an envelope violation.
pub open spec fn violation_text(violation: EnvelopeViolation) -> Seq<char> {
    match violation {
        EnvelopeViolation::InvalidShape => "invalid JSON-RPC message shape"@,
        EnvelopeViolation::InvalidVersion => "JSON-RPC version must be exactly 2.0"@,
        EnvelopeViolation::RequestContainsResponseMembers =>
            "JSON-RPC request contains response-only members"@,
        EnvelopeViolation::ResponseContainsRequestMembers =>
            "JSON-RPC response contains request-only members"@,
        EnvelopeViolation::InvalidResponsePayload =>
            "JSON-RPC response must contain exactly one of result or error"@,
        EnvelopeViolation::InvalidParams => "JSON-RPC params must be null, an object, or an array"@,
        EnvelopeViolation::InvalidErrorObject => "invalid JSON-RPC error object"@,
    }
}

impl EnvelopeViolation {
    /// Returns the stable text of this violation.
    pub fn message(&self) -> (text: &'static str)
        ensures
            text@ == violation_text(*self),
    {
        match self {
            EnvelopeViolation::InvalidShape => "invalid JSON-RPC message shape",
            EnvelopeViolation::InvalidVersion => "JSON-RPC version must be exactly 2.0",
            EnvelopeViolation::RequestContainsResponseMembers =>
                "JSON-RPC request contains response-only members",
            EnvelopeViolation::ResponseContainsRequestMembers =>
                "JSON-RPC response contains request-only members",
            EnvelopeViolation::InvalidResponsePayload =>
                "JSON-RPC response must contain exactly one of result or error",
            EnvelopeViolation::InvalidParams =>
                "JSON-RPC params must be null, an object, or an array",
            EnvelopeViolation::InvalidErrorObject => "invalid JSON-RPC error object",
        }
    }
}

/// A measured length against its limit, in words.
pub open spec fn measured(subject: Seq<char>, length: usize, limit: usize) -> Seq<char> {
    subject + text::decimal(length as nat) + " bytes; limit is "@ + text::decimal(
        limit as nat,
    )
}

/// The stable text of a JSON-RPC error.
pub open spec fn error_text(error: JsonRpcErrorView) -> Seq<char> {
    match error {
        JsonRpcErrorView::Io { operation, message } => operation + ": "@ + message,
        JsonRpcErrorView::MalformedJson { message } => "malformed JSON: "@ + message,
        JsonRpcErrorView::Plain(error) => match error {
            JsonRpcError::UnexpectedEof { section } => match section {
                FrameSection::Header => "unexpected EOF while reading Header"@,
                FrameSection::Body => "unexpected EOF while reading Body"@,
            },
            JsonRpcError::HeaderTooLarge { limit } => "LSP header exceeds "@ + text::decimal(
                limit as nat,
            ) + " bytes"@,
            JsonRpcError::NonAsciiHeader => "LSP header is not ASCII"@,
            JsonRpcError::MalformedHeader => "malformed LSP header"@,
            JsonRpcError::MissingContentLength => "missing Content-Length header"@,
            JsonRpcError::DuplicateContentLength => "duplicate Content-Length header"@,
            JsonRpcError::InvalidContentLength =>
                "Content-Length is not an unsigned decimal integer"@,
            JsonRpcError::ContentLengthOverflow => "Content-Length overflow"@,
            JsonRpcError::DuplicateContentType => "duplicate Content-Type header"@,
            JsonRpcError::UnsupportedContentType => "unsupported Content-Type"@,
            JsonRpcError::InboundBodyTooLarge { length, limit } => measured(
                "inbound body is "@,
                length,
                limit,
            ),
            JsonRpcError::OutboundBodyTooLarge { length, limit } => measured(
                "outbound body is "@,
                length,
                limit,
            ),
            JsonRpcError::JsonNestingTooDeep { depth, limit } => "JSON nesting depth is "@
                + text::decimal(depth as nat) + "; limit is "@ + text::decimal(
                limit as nat,
            ),
            JsonRpcError::BatchUnsupported => "JSON-RPC batches are unsupported"@,
            JsonRpcError::InvalidEnvelope { violation } => violation_text(violation),
            JsonRpcError::InvalidId => "invalid JSON-RPC ID"@,
            JsonRpcError::IdTooLarge { length, limit } => measured(
                "JSON-RPC ID is "@,
                length,
                limit,
            ),
            JsonRpcError::MethodTooLong { length, limit } => measured(
                "JSON-RPC method is "@,
                length,
                limit,
            ),
            JsonRpcError::ParamsTooLarge { length, limit } => measured(
                "JSON-RPC params are "@,
                length,
                limit,
            ),
            JsonRpcError::PendingRequestLimit { limit } => "pending client request limit of "@
                + text::decimal(limit as nat) + " reached"@,
            JsonRpcError::ClientRequestIdsExhausted => "client request IDs exhausted"@,
            JsonRpcError::DuplicateResponseId { id } => "duplicate response ID "@
                + text::decimal(id@ as nat),
            JsonRpcError::UnknownResponseId { id } => "unknown response ID "@
                + text::decimal(id@ as nat),
            JsonRpcError::Io { .. } | JsonRpcError::MalformedJson { .. } => ""@,
        },
    }
}

/// Returns a measured length against its limit, in words.
fn measured_text(subject: &str, length: usize, limit: usize) -> (text: String)
    ensures
        text@ == measured(subject@, length, limit),
{
    let mut text = text_around_number(subject, length as u64, " bytes; limit is ");
    push_decimal(&mut text, limit as u64);
    text
}

impl JsonRpcError {
    /// Returns the stable text of this error.
    pub fn message(&self) -> (text: String)
        ensures
            text@ == error_text(self@),
    {
        match self {
            JsonRpcError::Io { operation, message } => {
                let mut text = (*operation).to_owned();
                text.append(": ");
                text.append(message.as_str());
                text
            },
            JsonRpcError::UnexpectedEof { section } => match section {
                FrameSection::Header => "unexpected EOF while reading Header".to_owned(),
                FrameSection::Body => "unexpected EOF while reading Body".to_owned(),
            },
            JsonRpcError::HeaderTooLarge { limit } => text_around_number(
                "LSP header exceeds ",
                *limit as u64,
                " bytes",
            ),
            JsonRpcError::NonAsciiHeader => "LSP header is not ASCII".to_owned(),
            JsonRpcError::MalformedHeader => "malformed LSP header".to_owned(),
            JsonRpcError::MissingContentLength => "missing Content-Length header".to_owned(),
            JsonRpcError::DuplicateContentLength => "duplicate Content-Length header".to_owned(),
            JsonRpcError::InvalidContentLength =>
                "Content-Length is not an unsigned decimal integer".to_owned(),
            JsonRpcError::ContentLengthOverflow => "Content-Length overflow".to_owned(),
            JsonRpcError::DuplicateContentType => "duplicate Content-Type header".to_owned(),
            JsonRpcError::UnsupportedContentType => "unsupported Content-Type".to_owned(),
            JsonRpcError::InboundBodyTooLarge { length, limit } => measured_text(
                "inbound body is ",
                *length,
                *limit,
            ),
            JsonRpcError::OutboundBodyTooLarge { length, limit } => measured_text(
                "outbound body is ",
                *length,
                *limit,
            ),
            JsonRpcError::MalformedJson { message } => {
                let mut text = "malformed JSON: ".to_owned();
                text.append(message.as_str());
                text
            },
            JsonRpcError::JsonNestingTooDeep { depth, limit } => {
                let mut text = text_around_number(
                    "JSON nesting depth is ",
                    *depth as u64,
                    "; limit is ",
                );
                push_decimal(&mut text, *limit as u64);
                text
            },
            JsonRpcError::BatchUnsupported => "JSON-RPC batches are unsupported".to_owned(),
            JsonRpcError::InvalidEnvelope { violation } => violation.message().to_owned(),
            JsonRpcError::InvalidId => "invalid JSON-RPC ID".to_owned(),
            JsonRpcError::IdTooLarge { length, limit } => measured_text(
                "JSON-RPC ID is ",
                *length,
                *limit,
            ),
            JsonRpcError::MethodTooLong { length, limit } => measured_text(
                "JSON-RPC method is ",
                *length,
                *limit,
            ),
            JsonRpcError::ParamsTooLarge { length, limit } => measured_text(
                "JSON-RPC params are ",
                *length,
                *limit,
            ),
            JsonRpcError::PendingRequestLimit { limit } => text_around_number(
                "pending client request limit of ",
                *limit as u64,
                " reached",
            ),
            JsonRpcError::ClientRequestIdsExhausted => "client request IDs exhausted".to_owned(),
            JsonRpcError::DuplicateResponseId { id } => {
                let mut text = "duplicate response ID ".to_owned();
                push_decimal(&mut text, id.get());
                text
            },
            JsonRpcError::UnknownResponseId { id } => {
                let mut text = "unknown response ID ".to_owned();
                push_decimal(&mut text, id.get());
                text
            },
        }
    }
}

/// The refusal of an envelope.
pub open spec fn refused(violation: EnvelopeViolation) -> JsonRpcErrorView {
    JsonRpcErrorView::Plain(JsonRpcError::InvalidEnvelope { violation })
}

/// The serialized byte length of a value, or the serializer's message.
pub type EncodedSize = Result<usize, String>;

/// The mathematical value of an [`EncodedSize`].
pub type EncodedSizeView = Result<usize, Seq<char>>;

/// The value of an optional encoded size.
pub open spec fn size_view(size: Option<EncodedSize>) -> Option<EncodedSizeView> {
    match size {
        Some(Ok(length)) => Some(Ok(length)),
        Some(Err(message)) => Some(Err(message@)),
        None => None,
    }
}

/// The serialized byte length of an optional value.
pub open spec fn encoded_size(json: Option<JsonView>) -> Option<EncodedSizeView> {
    match json {
        Some(json) => Some(
            match json::serialized_json(json) {
                Ok(bytes) => Ok(bytes.len() as usize),
                Err(message) => Err(message),
            },
        ),
        None => None,
    }
}

/// Whether a size is within its limit, and the errors of one that is not.
///
/// An absent size is within any limit.
pub open spec fn size_outcome(
    size: Option<EncodedSizeView>,
    limit: usize,
    too_large: spec_fn(usize) -> JsonRpcError,
) -> Result<(), JsonRpcErrorView> {
    match size {
        None => Ok(()),
        Some(Err(message)) => Err(JsonRpcErrorView::MalformedJson { message }),
        Some(Ok(length)) => if length > limit {
            Err(JsonRpcErrorView::Plain(too_large(length)))
        } else {
            Ok(())
        },
    }
}

/// Whether optional request parameters are acceptable, given their size.
pub open spec fn params_outcome(
    params: Option<JsonView>,
    size: Option<EncodedSizeView>,
    limit: usize,
) -> Result<(), JsonRpcErrorView> {
    match params {
        None => Ok(()),
        Some(params) => if !(params is Null || params is Array || params is Object) {
            Err(refused(EnvelopeViolation::InvalidParams))
        } else {
            size_outcome(
                size,
                limit,
                |length: usize| JsonRpcError::ParamsTooLarge { length, limit },
            )
        },
    }
}

/// The server request ID that a value denotes, given its size.
pub open spec fn server_id(id: JsonView, size: Option<EncodedSizeView>, limit: usize) -> Result<
    ServerRequestIdView,
    JsonRpcErrorView,
> {
    match size_outcome(size, limit, |length: usize| JsonRpcError::IdTooLarge { length, limit }) {
        Err(error) => Err(error),
        Ok(()) => match id {
            JsonView::Number(JsonNumberView::Unsigned(value)) => if value <= i64::MAX {
                Ok(ServerRequestIdView::Integer(value as i64))
            } else {
                Ok(ServerRequestIdView::Unsigned(value))
            },
            JsonView::Number(JsonNumberView::Negative(value)) => Ok(
                ServerRequestIdView::Integer(value),
            ),
            JsonView::String(text) => Ok(ServerRequestIdView::String(text)),
            _ => Err(JsonRpcErrorView::Plain(JsonRpcError::InvalidId)),
        },
    }
}

/// The request or notification that members denote, given the encoded sizes
/// of `params` and `id`.
pub open spec fn request_of(
    members: Seq<(Seq<char>, JsonView)>,
    limits: EnvelopeLimits,
    params_size: Option<EncodedSizeView>,
    id_size: Option<EncodedSizeView>,
) -> Result<IncomingMessageView, JsonRpcErrorView> {
    let params = json::member(members, "params"@);
    if json::has_member(members, "result"@) || json::has_member(members, "error"@) {
        Err(refused(EnvelopeViolation::RequestContainsResponseMembers))
    } else {
        match json::member(members, "method"@) {
            Some(JsonView::String(method)) => {
                let length = text::utf8(method).len();
                if length > limits.max_method_bytes {
                    Err(
                        JsonRpcErrorView::Plain(
                            JsonRpcError::MethodTooLong {
                                length: length as usize,
                                limit: limits.max_method_bytes,
                            },
                        ),
                    )
                } else {
                    match params_outcome(params, params_size, limits.max_params_bytes) {
                        Err(error) => Err(error),
                        Ok(()) => match json::member(members, "id"@) {
                            None => Ok(IncomingMessageView::Notification { method, params }),
                            Some(id) => match server_id(id, id_size, limits.max_id_bytes) {
                                Err(error) => Err(error),
                                Ok(id) => Ok(IncomingMessageView::Request { id, method, params }),
                            },
                        },
                    }
                }
            },
            _ => Err(refused(EnvelopeViolation::InvalidShape)),
        }
    }
}

/// The signed integer that a value denotes.
pub open spec fn signed_integer(json: JsonView) -> Option<i64> {
    match json {
        JsonView::Number(JsonNumberView::Unsigned(value)) => if value <= i64::MAX {
            Some(value as i64)
        } else {
            None
        },
        JsonView::Number(JsonNumberView::Negative(value)) => Some(value),
        _ => None,
    }
}

/// The unsigned integer that a value denotes.
pub open spec fn unsigned_integer(json: JsonView) -> Option<u64> {
    match json {
        JsonView::Number(JsonNumberView::Unsigned(value)) => Some(value),
        JsonView::Number(JsonNumberView::Negative(value)) => if value >= 0 {
            Some(value as u64)
        } else {
            None
        },
        _ => None,
    }
}

/// The error payload that a JSON-RPC error object denotes.
pub open spec fn error_payload(json: JsonView) -> Result<ResponsePayloadView, JsonRpcErrorView> {
    let code = match json::json_member(json, "code"@) {
        Some(code) => signed_integer(code),
        None => None,
    };
    match (code, json::json_member(json, "message"@)) {
        (Some(code), Some(JsonView::String(message))) => Ok(
            ResponsePayloadView::Error {
                code,
                message,
                data: json::json_member(json, "data"@),
            },
        ),
        _ => Err(refused(EnvelopeViolation::InvalidErrorObject)),
    }
}

/// The response that members denote.
pub open spec fn response_of(members: Seq<(Seq<char>, JsonView)>) -> Result<
    IncomingMessageView,
    JsonRpcErrorView,
> {
    let id = match json::member(members, "id"@) {
        Some(id) => unsigned_integer(id),
        None => None,
    };
    let result = json::member(members, "result"@);
    let error = json::member(members, "error"@);
    if json::has_member(members, "params"@) {
        Err(refused(EnvelopeViolation::ResponseContainsRequestMembers))
    } else {
        match id {
            None => Err(JsonRpcErrorView::Plain(JsonRpcError::InvalidId)),
            Some(id) => match (result, error) {
                (Some(result), None) => Ok(
                    IncomingMessageView::Response {
                        id: client_id(id),
                        payload: ResponsePayloadView::Result(result),
                    },
                ),
                (None, Some(error)) => match error_payload(error) {
                    Ok(payload) => Ok(
                        IncomingMessageView::Response { id: client_id(id), payload },
                    ),
                    Err(error) => Err(error),
                },
                _ => Err(refused(EnvelopeViolation::InvalidResponsePayload)),
            },
        }
    }
}

/// The message that a JSON value denotes, given the encoded sizes of its
/// `params` and `id` members.
pub open spec fn message_of(
    value: JsonView,
    limits: EnvelopeLimits,
    params_size: Option<EncodedSizeView>,
    id_size: Option<EncodedSizeView>,
) -> Result<IncomingMessageView, JsonRpcErrorView> {
    match value {
        JsonView::Array(_) => Err(JsonRpcErrorView::Plain(JsonRpcError::BatchUnsupported)),
        JsonView::Object(members) => if json::member(members, "jsonrpc"@) != Some(
            JsonView::String("2.0"@),
        ) {
            Err(refused(EnvelopeViolation::InvalidVersion))
        } else if json::has_member(members, "method"@) {
            request_of(members, limits, params_size, id_size)
        } else {
            response_of(members)
        },
        _ => Err(refused(EnvelopeViolation::InvalidShape)),
    }
}

/// The message that a JSON value denotes.
pub open spec fn classified(value: JsonView, limits: EnvelopeLimits) -> Result<
    IncomingMessageView,
    JsonRpcErrorView,
> {
    message_of(
        value,
        limits,
        encoded_size(json::json_member(value, "params"@)),
        encoded_size(json::json_member(value, "id"@)),
    )
}

/// Whether a classification outcome has the given value.
pub open spec fn classifies_as(
    outcome: Result<IncomingMessage, JsonRpcError>,
    expected: Result<IncomingMessageView, JsonRpcErrorView>,
) -> bool {
    match outcome {
        Ok(message) => expected == Ok::<IncomingMessageView, JsonRpcErrorView>(message@),
        Err(error) => expected == Err::<IncomingMessageView, JsonRpcErrorView>(error@),
    }
}

/// The refusal of an envelope, as an error value.
fn invalid_envelope<T>(violation: EnvelopeViolation) -> (outcome: Result<T, JsonRpcError>)
    ensures
        outcome matches Err(error) && error == (JsonRpcError::InvalidEnvelope { violation }),
{
    Err(JsonRpcError::InvalidEnvelope { violation })
}

/// Measures the serialized byte length of an optional value.
fn measure(json: Option<&Json>) -> (size: Option<EncodedSize>)
    ensures
        size_view(size) == encoded_size(
            match json {
                Some(json) => Some(json@),
                None => None,
            },
        ),
{
    match json {
        None => None,
        Some(json) => match serialize_json(json) {
            Ok(bytes) => Some(Ok(bytes.len())),
            Err(message) => Some(Err(message)),
        },
    }
}

/// Refuses optional parameters that are scalar or larger than their limit,
/// given their encoded size.
pub fn validate_params(params: Option<&Json>, size: Option<EncodedSize>, limit: usize) -> (valid:
    Result<(), JsonRpcError>)
    ensures
        match valid {
            Ok(()) => params_outcome(
                match params {
                    Some(json) => Some(json@),
                    None => None,
                },
                size_view(size),
                limit,
            ) == Ok::<(), JsonRpcErrorView>(()),
            Err(error) => params_outcome(
                match params {
                    Some(json) => Some(json@),
                    None => None,
                },
                size_view(size),
                limit,
            ) == Err::<(), JsonRpcErrorView>(error@),
        },
{
    match params {
        None => Ok(()),
        Some(params) => {
            if !params.is_null() && !params.is_array() && !params.is_object() {
                return invalid_envelope(EnvelopeViolation::InvalidParams);
            }
            match size {
                None => Ok(()),
                Some(Err(message)) => Err(JsonRpcError::MalformedJson { message }),
                Some(Ok(length)) => if length > limit {
                    Err(JsonRpcError::ParamsTooLarge { length, limit })
                } else {
                    Ok(())
                },
            }
        },
    }
}

/// Parses a server request ID, given its encoded size; the size is checked
/// before the type.
pub fn parse_server_request_id(value: Json, size: Option<EncodedSize>, limit: usize) -> (id: Result<
    ServerRequestId,
    JsonRpcError,
>)
    ensures
        match id {
            Ok(id) => server_id(value@, size_view(size), limit) == Ok::<
                ServerRequestIdView,
                JsonRpcErrorView,
            >(id@),
            Err(error) => server_id(value@, size_view(size), limit) == Err::<
                ServerRequestIdView,
                JsonRpcErrorView,
            >(error@),
        },
{
    match size {
        None => {},
        Some(Err(message)) => {
            return Err(JsonRpcError::MalformedJson { message });
        },
        Some(Ok(length)) => {
            if length > limit {
                return Err(JsonRpcError::IdTooLarge { length, limit });
            }
        },
    }
    match value {
        Json::Number(JsonNumber::Unsigned(value)) => if value <= i64::MAX as u64 {
            Ok(ServerRequestId::Integer(value as i64))
        } else {
            Ok(ServerRequestId::Unsigned(value))
        },
        Json::Number(JsonNumber::Negative(value)) => Ok(ServerRequestId::Integer(value)),
        Json::String(text) => Ok(ServerRequestId::String(text)),
        _ => Err(JsonRpcError::InvalidId),
    }
}

/// Returns the signed integer that a value denotes.
fn as_signed(json: &Json) -> (value: Option<i64>)
    ensures
        value == signed_integer(json@),
{
    match json {
        Json::Number(JsonNumber::Unsigned(value)) => if *value <= i64::MAX as u64 {
            Some(*value as i64)
        } else {
            None
        },
        Json::Number(JsonNumber::Negative(value)) => Some(*value),
        _ => None,
    }
}

/// Returns the unsigned integer that a value denotes.
pub fn as_unsigned(json: &Json) -> (value: Option<u64>)
    ensures
        value == unsigned_integer(json@),
{
    match json {
        Json::Number(JsonNumber::Unsigned(value)) => Some(*value),
        Json::Number(JsonNumber::Negative(value)) => if *value >= 0 {
            Some(*value as u64)
        } else {
            None
        },
        _ => None,
    }
}

/// Parses a JSON-RPC error object.
fn parse_response_error(value: Json) -> (error: Result<ResponseError, JsonRpcError>)
    ensures
        match error {
            Ok(error) => error_payload(value@) == Ok::<ResponsePayloadView, JsonRpcErrorView>(
                ResponsePayload::Error(error)@,
            ),
            Err(error) => error_payload(value@) == Err::<ResponsePayloadView, JsonRpcErrorView>(
                error@,
            ),
        },
{
    proof {
        reveal_strlit("code");
        reveal_strlit("message");
        reveal_strlit("data");
        assert("code"@.len() != "message"@.len());
        assert("data"@.len() != "message"@.len());
        assert("code"@[0] != "data"@[0]);
    }
    match value {
        Json::Object(object) => {
            let mut members = object;
            proof {
                json::lemma_object_view(members);
            }
            let code: Option<i64> = match take_member(&mut members, "code") {
                Some(code) => as_signed(&code),
                None => None,
            };
            let code: i64 = match code {
                Some(code) => code,
                None => return invalid_envelope(EnvelopeViolation::InvalidErrorObject),
            };
            let message = match take_member(&mut members, "message") {
                Some(Json::String(message)) => message,
                _ => return invalid_envelope(EnvelopeViolation::InvalidErrorObject),
            };
            let data = take_member(&mut members, "data");
            Ok(ResponseError { code, message, data })
        },
        _ => invalid_envelope(EnvelopeViolation::InvalidErrorObject),
    }
}

/// The member names of an envelope are pairwise different.
proof fn lemma_member_names()
    ensures
        "jsonrpc"@ != "method"@,
        "jsonrpc"@ != "params"@,
        "jsonrpc"@ != "id"@,
        "jsonrpc"@ != "result"@,
        "jsonrpc"@ != "error"@,
        "method"@ != "params"@,
        "method"@ != "id"@,
        "method"@ != "result"@,
        "method"@ != "error"@,
        "params"@ != "id"@,
        "params"@ != "result"@,
        "params"@ != "error"@,
        "id"@ != "result"@,
        "id"@ != "error"@,
        "result"@ != "error"@,
{
    reveal_strlit("jsonrpc");
    reveal_strlit("method");
    reveal_strlit("params");
    reveal_strlit("id");
    reveal_strlit("result");
    reveal_strlit("error");
    assert("jsonrpc"@.len() == 7 && "id"@.len() == 2 && "error"@.len() == 5);
    assert("method"@.len() == 6 && "params"@.len() == 6 && "result"@.len() == 6);
    assert("method"@[0] != "params"@[0]);
    assert("method"@[0] != "result"@[0]);
    assert("params"@[0] != "result"@[0]);
}

/// Classifies an object with a `method` member.
fn classify_request_or_notification(
    object: Vec<(String, Json)>,
    limits: EnvelopeLimits,
    params_size: Option<EncodedSize>,
    id_size: Option<EncodedSize>,
) -> (message: Result<IncomingMessage, JsonRpcError>)
    ensures
        classifies_as(
            message,
            request_of(
                json::members_view(object@),
                limits,
                size_view(params_size),
                size_view(id_size),
            ),
        ),
{
    proof {
        lemma_member_names();
    }
    let mut members = object;
    if contains_member(&members, "result") || contains_member(&members, "error") {
        return invalid_envelope(EnvelopeViolation::RequestContainsResponseMembers);
    }
    let method = match take_member(&mut members, "method") {
        Some(Json::String(method)) => method,
        _ => return invalid_envelope(EnvelopeViolation::InvalidShape),
    };
    let length: usize = method.as_str().as_bytes().len();
    if length > limits.max_method_bytes {
        return Err(JsonRpcError::MethodTooLong { length, limit: limits.max_method_bytes });
    }
    let params = take_member(&mut members, "params");
    match validate_params(params.as_ref(), params_size, limits.max_params_bytes) {
        Ok(()) => {},
        Err(error) => return Err(error),
    }
    match take_member(&mut members, "id") {
        Some(id) => match parse_server_request_id(id, id_size, limits.max_id_bytes) {
            Ok(id) => Ok(IncomingMessage::Request(ServerRequest { id, method, params })),
            Err(error) => Err(error),
        },
        None => Ok(IncomingMessage::Notification(ServerNotification { method, params })),
    }
}

/// Classifies an object without a `method` member.
fn classify_response(object: Vec<(String, Json)>) -> (message: Result<
    IncomingMessage,
    JsonRpcError,
>)
    ensures
        classifies_as(message, response_of(json::members_view(object@))),
{
    proof {
        lemma_member_names();
    }
    let mut members = object;
    if contains_member(&members, "params") {
        return invalid_envelope(EnvelopeViolation::ResponseContainsRequestMembers);
    }
    let id: Option<u64> = match take_member(&mut members, "id") {
        Some(id) => as_unsigned(&id),
        None => None,
    };
    let id = match id {
        Some(id) => ClientRequestId(id),
        None => return Err(JsonRpcError::InvalidId),
    };
    let has_result = contains_member(&members, "result");
    let has_error = contains_member(&members, "error");
    if has_result == has_error {
        return invalid_envelope(EnvelopeViolation::InvalidResponsePayload);
    }
    if let Some(result) = take_member(&mut members, "result") {
        return Ok(
            IncomingMessage::Response(
                ClientResponse { id, payload: ResponsePayload::Result(result) },
            ),
        );
    }
    match take_member(&mut members, "error") {
        Some(error) => match parse_response_error(error) {
            Ok(error) => Ok(
                IncomingMessage::Response(
                    ClientResponse { id, payload: ResponsePayload::Error(error) },
                ),
            ),
            Err(error) => Err(error),
        },
        None => invalid_envelope(EnvelopeViolation::InvalidResponsePayload),
    }
}

/// Classifies one parsed inbound value, given the encoded sizes of its
/// `params` and `id` members.
pub fn classify_sized(
    value: Json,
    limits: EnvelopeLimits,
    params_size: Option<EncodedSize>,
    id_size: Option<EncodedSize>,
) -> (message: Result<IncomingMessage, JsonRpcError>)
    ensures
        classifies_as(
            message,
            message_of(value@, limits, size_view(params_size), size_view(id_size)),
        ),
{
    match value {
        Json::Array(items) => {
            Err(JsonRpcError::BatchUnsupported)
        },
        Json::Object(object) => {
            let mut members = object;
            let ghost before = json::members_view(members@);
            proof {
                json::lemma_object_view(members);
                lemma_member_names();
            }
            let version_matches = match take_member(&mut members, "jsonrpc") {
                Some(Json::String(version)) => text_equal(version.as_str(), "2.0"),
                _ => false,
            };
            if !version_matches {
                return invalid_envelope(EnvelopeViolation::InvalidVersion);
            }
            proof {
                let after = json::members_view(members@);
                assert(json::member(after, "method"@) == json::member(
                    before,
                    "method"@,
                ));
                assert(json::member(after, "params"@) == json::member(
                    before,
                    "params"@,
                ));
                assert(json::member(after, "id"@) == json::member(before, "id"@));
                assert(json::member(after, "result"@) == json::member(
                    before,
                    "result"@,
                ));
                assert(json::member(after, "error"@) == json::member(
                    before,
                    "error"@,
                ));
            }
            if contains_member(&members, "method") {
                classify_request_or_notification(members, limits, params_size, id_size)
            } else {
                classify_response(members)
            }
        },
        _ => invalid_envelope(EnvelopeViolation::InvalidShape),
    }
}

/// Classifies and validates one parsed inbound JSON-RPC value.
pub fn classify_message(value: Json, limits: EnvelopeLimits) -> (message: Result<
    IncomingMessage,
    JsonRpcError,
>)
    ensures
        classifies_as(message, classified(value@, limits)),
{
    let params_size = measure(value.get("params"));
    let id_size = measure(value.get("id"));
    classify_sized(value, limits, params_size, id_size)
}

/// How far a scan of raw JSON has come.
pub struct DepthScan {
    /// Open arrays and objects.
    pub depth: usize,
    /// Whether the scan is inside a string.
    pub in_string: bool,
    /// Whether the next byte of the string is escaped.
    pub escaped: bool,
}

/// The scan after one more byte.
pub open spec fn depth_step(scan: DepthScan, byte: u8) -> DepthScan {
    if scan.in_string {
        DepthScan {
            in_string: scan.escaped || byte != 34,
            escaped: !scan.escaped && byte == 92,
            ..scan
        }
    } else if byte == 34 {
        DepthScan { in_string: true, ..scan }
    } else if byte == 123 || byte == 91 {
        DepthScan {
            depth: if scan.depth < usize::MAX {
                (scan.depth + 1) as usize
            } else {
                scan.depth
            },
            ..scan
        }
    } else if byte == 125 || byte == 93 {
        DepthScan {
            depth: if scan.depth > 0 {
                (scan.depth - 1) as usize
            } else {
                0
            },
            ..scan
        }
    } else {
        scan
    }
}

/// Whether raw JSON stays within a nesting limit, reported at the first byte
/// that opens a level beyond it.
pub open spec fn depth_outcome(body: Seq<u8>, scan: DepthScan, limit: usize) -> Result<
    (),
    JsonRpcError,
>
    decreases body.len(),
{
    if body.len() == 0 {
        Ok(())
    } else {
        let next = depth_step(scan, body[0]);
        if next.depth > scan.depth && next.depth > limit {
            Err(JsonRpcError::JsonNestingTooDeep { depth: next.depth, limit })
        } else {
            depth_outcome(body.drop_first(), next, limit)
        }
    }
}

/// The scan before the first byte.
pub open spec fn depth_start() -> DepthScan {
    DepthScan { depth: 0, in_string: false, escaped: false }
}

/// Refuses raw JSON whose arrays and objects nest deeper than `limit`.
pub fn validate_raw_json_depth(body: &[u8], limit: usize) -> (valid: Result<(), JsonRpcError>)
    ensures
        valid == depth_outcome(body@, depth_start(), limit),
        valid matches Err(error) ==> error is JsonNestingTooDeep,
{
    let mut scan = DepthScan { depth: 0, in_string: false, escaped: false };
    let mut index: usize = 0;
    assert(body@.skip(0) =~= body@);
    while index < body.len()
        invariant
            index <= body@.len(),
            scan.depth <= index,
            depth_outcome(body@, depth_start(), limit) == depth_outcome(
                body@.skip(index as int),
                scan,
                limit,
            ),
        decreases body@.len() - index,
    {
        let byte: u8 = body[index];
        let ghost before = scan;
        assert(body@.skip(index as int).drop_first() =~= body@.skip(index + 1));
        if scan.in_string {
            if scan.escaped {
                scan.escaped = false;
            } else if byte == 92 {
                scan.escaped = true;
            } else if byte == 34 {
                scan.in_string = false;
            }
        } else if byte == 34 {
            scan.in_string = true;
        } else if byte == 123 || byte == 91 {
            scan.depth = scan.depth.saturating_add(1);
            if scan.depth > limit {
                return Err(JsonRpcError::JsonNestingTooDeep { depth: scan.depth, limit });
            }
        } else if byte == 125 || byte == 93 {
            scan.depth = scan.depth.saturating_sub(1);
        }
        assert(before.in_string ==> scan == depth_step(before, byte));
        assert(scan == depth_step(before, byte));
        index = index + 1;
    }
    Ok(())
}

/// What decoding a body gives, given what the parser made of it.
pub open spec fn decoded(
    body: Seq<u8>,
    parsed: Result<JsonView, Seq<char>>,
    limits: EnvelopeLimits,
) -> Result<IncomingMessageView, JsonRpcErrorView> {
    match depth_outcome(body, depth_start(), limits.max_json_depth) {
        Err(error) => Err(JsonRpcErrorView::Plain(error)),
        Ok(()) => match parsed {
            Err(message) => Err(JsonRpcErrorView::MalformedJson { message }),
            Ok(value) => classified(value, limits),
        },
    }
}

/// Parses and classifies one already framed JSON-RPC body.
///
/// This byte-oriented entry point is suitable for deterministic corpus tests
/// and fuzz harnesses without constructing an I/O adapter.
pub fn decode_body(body: &[u8], limits: EnvelopeLimits) -> (message: Result<
    IncomingMessage,
    JsonRpcError,
>)
    ensures
        classifies_as(message, decoded(body@, json::parsed_json(body@), limits)),
{
    match validate_raw_json_depth(body, limits.max_json_depth) {
        Ok(()) => {},
        Err(error) => return Err(error),
    }
    match parse_json(body) {
        Ok(value) => classify_message(value, limits),
        Err(message) => Err(JsonRpcError::MalformedJson { message }),
    }
}

/// Reads and validates one framed inbound JSON-RPC message from the start of a
/// byte stream.
///
/// `Ok(None)` means the stream ended between frames. EOF after any bytes of a
/// frame have been received is an error. A message comes with the count of
/// stream bytes up to its end.
pub fn read_message(
    stream: &[u8],
    framing_limits: FramingLimits,
    envelope_limits: EnvelopeLimits,
) -> (message: Result<Option<(IncomingMessage, usize)>, JsonRpcError>)
    ensures
        match framing::first_frame(
            framing_limits,
            framing::between_frames(),
            stream@,
        ) {
            Err(error) => message matches Err(refusal) && refusal == error,
            Ok(None) => message matches Ok(None),
            Ok(Some((body, count))) => match decoded(
                body,
                json::parsed_json(body),
                envelope_limits,
            ) {
                Ok(value) => message matches Ok(Some(read)) && read.0@ == value && read.1 == count,
                Err(error) => message matches Err(refusal) && refusal@ == error,
            },
        },
{
    match read_body(stream, framing_limits) {
        Err(error) => Err(error),
        Ok(None) => Ok(None),
        Ok(Some((body, count))) => match decode_body(body.as_slice(), envelope_limits) {
            Ok(message) => Ok(Some((message, count))),
            Err(error) => Err(error),
        },
    }
}

/// Whether a reader that starts between frames gets back exactly one body from
/// a frame, which parses as the value.
pub open spec fn reads_back(frame: Seq<u8>, value: JsonView, limits: FramingLimits) -> bool {
    let body = json::serialized_json(value)->Ok_0;
    &&& framing::decode_frames(limits, framing::between_frames(), frame) == Ok::<
        (framing::FrameState, Seq<Seq<u8>>),
        JsonRpcError,
    >((framing::between_frames(), seq![body]))
    &&& json::parsed_json(body) == Ok::<JsonView, Seq<char>>(value)
}

/// Serializes and frames one outbound JSON value after exact byte-size preflight.
///
/// Only an oversized body is refused. A plain value whose frame is within the
/// inbound bounds too is read back from it.
pub fn encode_message(value: &Json, limits: FramingLimits) -> (frame: Result<Vec<u8>, JsonRpcError>)
    ensures
        frame matches Err(error) ==> error is OutboundBodyTooLarge,
        frame matches Ok(bytes) ==> {
            let body = json::serialized_json(value@)->Ok_0;
            &&& body.len() <= limits.max_outbound_body_bytes
            &&& json::is_plain(value@, json::READABLE_DEPTH as nat) && body.len()
                <= limits.max_inbound_body_bytes && text::utf8(
                framing::header_text(body.len()),
            ).len() <= limits.max_header_bytes ==> reads_back(bytes@, value@, limits)
        },
        match json::serialized_json(value@) {
            Err(message) => frame matches Err(error) && error@ == (
            JsonRpcErrorView::MalformedJson { message }),
            Ok(body) => match framing::framed(body, limits) {
                Ok(bytes) => frame matches Ok(frame) && frame@ == bytes,
                Err(error) => frame == Err::<Vec<u8>, JsonRpcError>(error),
            },
        },
{
    match serialize_json(value) {
        Ok(body) => {
            proof {
                if body@.len() <= limits.max_inbound_body_bytes && text::utf8(
                    framing::header_text(body@.len()),
                ).len() <= limits.max_header_bytes {
                    framing::law_frame_round_trip(limits, body@);
                }
            }
            encode_frame(body.as_slice(), limits)
        },
        Err(message) => Err(JsonRpcError::MalformedJson { message }),
    }
}

/// The ID that the next request gets, or why it gets none.
pub open spec fn allocation(pending: Set<u64>, next: u64, limit: usize) -> Result<
    ClientRequestId,
    JsonRpcError,
> {
    if pending.len() >= limit {
        Err(JsonRpcError::PendingRequestLimit { limit })
    } else if next == u64::MAX {
        Err(JsonRpcError::ClientRequestIdsExhausted)
    } else {
        Ok(client_id(next))
    }
}

/// Whether a response ID is pending, was completed before, or was never issued.
pub open spec fn completion(pending: Set<u64>, next: u64, id: ClientRequestId) -> Result<
    (),
    JsonRpcError,
> {
    if pending.contains(id@) {
        Ok(())
    } else if 0 < id@ < next {
        Err(JsonRpcError::DuplicateResponseId { id })
    } else {
        Err(JsonRpcError::UnknownResponseId { id })
    }
}

/// An allocated ID completes exactly once: it is unknown before its
/// allocation, its first response is accepted, and every later response to it
/// is a duplicate, however many requests were begun in between.
pub proof fn law_response_completes_once(pending: Set<u64>, next: u64, limit: usize, later: u64)
    requires
        forall|id: u64| #[trigger] pending.contains(id) ==> 1 <= id < next,
        next >= 1,
        allocation(pending, next, limit) is Ok,
        later > next,
    ensures
        ({
            let id = allocation(pending, next, limit)->Ok_0;
            let begun = pending.insert(id@);
            &&& completion(pending, next, id) == Err::<(), JsonRpcError>(
                JsonRpcError::UnknownResponseId { id },
            )
            &&& completion(begun, (next + 1) as u64, id) == Ok::<(), JsonRpcError>(())
            &&& completion(begun.remove(id@), later, id) == Err::<(), JsonRpcError>(
                JsonRpcError::DuplicateResponseId { id },
            )
        }),
{
}

/// Allocated IDs grow: two IDs allocated one after the other are different and
/// in order, whatever completed in between.
pub proof fn law_request_ids_increase(
    first: Set<u64>,
    second: Set<u64>,
    next: u64,
    later: u64,
    limit: usize,
)
    requires
        allocation(first, next, limit) is Ok,
        later >= next + 1,
        allocation(second, later, limit) is Ok,
    ensures
        allocation(first, next, limit)->Ok_0@ < allocation(second, later, limit)->Ok_0@,
{
}

/// Allocates client request IDs and rejects duplicate or unknown responses.
#[derive(Debug)]
pub struct ResponseCorrelator {
    next_id: u64,
    pending: BTreeSet<u64>,
    max_pending: usize,
}

impl ResponseCorrelator {
    /// The ID that the next request gets.
    pub closed spec fn next(&self) -> u64 {
        self.next_id
    }

    /// The IDs that await a response.
    pub closed spec fn pending_ids(&self) -> Set<u64> {
        self.pending@
    }

    /// The greatest number of IDs that may await a response.
    pub closed spec fn limit(&self) -> usize {
        self.max_pending
    }

    /// Every pending ID was issued, and no more are pending than allowed.
    pub open spec fn wf(&self) -> bool {
        &&& self.next() >= 1
        &&& self.pending_ids().finite()
        &&& self.pending_ids().len() <= self.limit()
        &&& forall|id: u64| #[trigger]
            self.pending_ids().contains(id) ==> 1 <= id < self.next()
    }

    /// Creates a correlator whose first allocated ID is one.
    pub fn new(max_pending: usize) -> (correlator: Self)
        ensures
            correlator.wf(),
            correlator.next() == 1,
            correlator.pending_ids() == Set::<u64>::empty(),
            correlator.limit() == max_pending,
    {
        ResponseCorrelator { next_id: 1, pending: BTreeSet::new(), max_pending }
    }

    /// Allocates and records a new pending client request ID.
    pub fn begin_request(&mut self) -> (id: Result<ClientRequestId, JsonRpcError>)
        requires
            old(self).wf(),
        ensures
            final(self).wf(),
            final(self).limit() == old(self).limit(),
            id == allocation(old(self).pending_ids(), old(self).next(), old(self).limit()),
            id matches Ok(id) ==> id@ == old(self).next() && final(self).next()
                == old(self).next() + 1 && final(self).pending_ids()
                == old(self).pending_ids().insert(id@),
            id is Err ==> final(self).next() == old(self).next() && final(self).pending_ids()
                == old(self).pending_ids(),
    {
        broadcast use vstd::std_specs::btree::group_btree_axioms;

        if self.pending.len() >= self.max_pending {
            return Err(JsonRpcError::PendingRequestLimit { limit: self.max_pending });
        }
        let following: u64 = match self.next_id.checked_add(1) {
            Some(following) => following,
            None => return Err(JsonRpcError::ClientRequestIdsExhausted),
        };
        let id = ClientRequestId(self.next_id);
        self.pending.insert(self.next_id);
        self.next_id = following;
        Ok(id)
    }

    /// Completes a pending response ID or classifies it as duplicate or unknown.
    pub fn complete(&mut self, id: ClientRequestId) -> (outcome: Result<(), JsonRpcError>)
        requires
            old(self).wf(),
        ensures
            final(self).wf(),
            final(self).limit() == old(self).limit(),
            final(self).next() == old(self).next(),
            final(self).pending_ids() == old(self).pending_ids().remove(id@),
            outcome == completion(old(self).pending_ids(), old(self).next(), id),
    {
        broadcast use vstd::std_specs::btree::group_btree_axioms;

        if self.pending.remove(&id.0) {
            return Ok(());
        }
        assert(self.pending_ids() =~= old(self).pending_ids());
        if id.0 > 0 && id.0 < self.next_id {
            Err(JsonRpcError::DuplicateResponseId { id })
        } else {
            Err(JsonRpcError::UnknownResponseId { id })
        }
    }

    /// Returns the current number of requests awaiting a response.
    pub fn pending_count(&self) -> (count: usize)
        ensures
            count == self.pending_ids().len(),
    {
        broadcast use vstd::std_specs::btree::group_btree_axioms;

        self.pending.len()
    }
}

impl Default for ResponseCorrelator {
    fn default() -> (correlator: Self)
        ensures
            correlator.wf(),
            correlator.next() == 1,
            correlator.pending_ids() == Set::<u64>::empty(),
            correlator.limit() == DEFAULT_MAX_PENDING_REQUESTS,
    {
        ResponseCorrelator::new(DEFAULT_MAX_PENDING_REQUESTS)
    }
}

} // verus!
