//! The selection error for each way in which a selection can fail.

use vstd::prelude::*;

use crate::edit_report::{CoreError, FsError};
use crate::json;
use crate::json::{json_array, json_number, json_object, json_text, named, Json, JsonView};
use crate::jsonrpc::JsonRpcError;
use crate::kinds;
use crate::order;
use crate::position::{PositionError, DEFAULT_MAXIMUM_CODE_POINTS_SCANNED};
use crate::selection::{
    SelectionByteSelectorDto, SelectionErrorCode, SelectionErrorDto, SelectionErrorView,
};
use crate::symbols;
use crate::symbols::{AmbiguityCandidate, CandidateView, SymbolError, SymbolErrorView};
use crate::transport::{ProcessError, ProcessFaultKind, TransportError};
use crate::wire;
use crate::wire::{json_texts, MAX_RESPONSE_BYTES};

verus! {

/// The most bytes of a reported server name or version.
pub const MAXIMUM_SERVER_IDENTITY_BYTES: usize = 1024;

/// The most bytes of a queried symbol name.
pub const MAXIMUM_QUERY_NAME_BYTES: usize = 4096;

/// Whether an outcome is a success, or the expected failure.
pub open spec fn fails_as(
    outcome: Result<(), SelectionErrorDto>,
    expected: Option<SelectionErrorView>,
) -> bool {
    match outcome {
        Ok(()) => expected is None,
        Err(error) => expected == Some(error@),
    }
}

/// An error without context.
pub open spec fn plain(code: SelectionErrorCode, message: Seq<char>) -> SelectionErrorView {
    SelectionErrorView { code, message, context: Seq::empty() }
}

/// Returns an error without context.
pub fn error(code: SelectionErrorCode, message: &str) -> (error: SelectionErrorDto)
    ensures
        error@ == plain(code, message@),
{
    let context: Vec<(String, Json)> = Vec::new();
    assert(json::members_view(context@) =~= Seq::<(Seq<char>, JsonView)>::empty());
    SelectionErrorDto::new(code, message, context)
}

/// The error for a failed invariant.
pub open spec fn internal(message: Seq<char>) -> SelectionErrorView {
    plain(SelectionErrorCode::SelectionInternalError, message)
}

/// Returns the error for a failed invariant.
pub fn internal_error(message: &str) -> (error: SelectionErrorDto)
    ensures
        error@ == internal(message@),
{
    error(SelectionErrorCode::SelectionInternalError, message)
}

/// The error for an exceeded resource limit.
pub open spec fn resource_exceeded(resource: Seq<char>, limit: usize) -> SelectionErrorView {
    SelectionErrorView {
        code: SelectionErrorCode::LspResourceLimitExceeded,
        message: "semantic selection exceeded a configured resource limit"@,
        context: seq![
            ("limit"@, json::number_json(limit as u64)),
            ("resource"@, JsonView::String(resource)),
        ],
    }
}

/// Returns the error for an exceeded resource limit.
pub fn resource_error(resource: &str, limit: usize) -> (error: SelectionErrorDto)
    ensures
        error@ == resource_exceeded(resource@, limit),
{
    proof {
        wire::lemma_context_keys_ascend();
    }
    let context = vec![
        named("limit", json_number(limit as u64)),
        named("resource", json_text(resource)),
    ];
    assert(json::members_view(context@) =~= resource_exceeded(resource@, limit).context);
    SelectionErrorDto::new(
        SelectionErrorCode::LspResourceLimitExceeded,
        "semantic selection exceeded a configured resource limit",
        context,
    )
}

/// A limit as a machine size; larger limits become the largest size.
pub open spec fn machine_size(limit: u64) -> usize {
    if limit > usize::MAX {
        usize::MAX
    } else {
        limit as usize
    }
}

/// Returns a limit as a machine size.
pub fn as_machine_size(limit: u64) -> (size: usize)
    ensures
        size == machine_size(limit),
{
    if limit > usize::MAX as u64 {
        usize::MAX
    } else {
        limit as usize
    }
}

/// The error for a response that is too large.
pub open spec fn oversized_response() -> SelectionErrorView {
    resource_exceeded("serialized selection response"@, machine_size(MAX_RESPONSE_BYTES))
}

/// Returns the error for a response that is too large.
pub fn response_size_error() -> (error: SelectionErrorDto)
    ensures
        error@ == oversized_response(),
{
    resource_error("serialized selection response", as_machine_size(MAX_RESPONSE_BYTES))
}

/// The error for a reported identity field, if it is unacceptable.
pub open spec fn identity_refusal(
    value: Option<Seq<char>>,
    resource: Seq<char>,
) -> Option<SelectionErrorView> {
    match value {
        None => None,
        Some(value) => if value.len() == 0 {
            Some(
                plain(
                    SelectionErrorCode::LspProtocolError,
                    "the language server reported an empty identity field"@,
                ),
            )
        } else if crate::text::utf8(value).len() > MAXIMUM_SERVER_IDENTITY_BYTES {
            Some(resource_exceeded(resource, MAXIMUM_SERVER_IDENTITY_BYTES))
        } else {
            None
        },
    }
}

/// Refuses an empty or overlong identity field.
pub fn validate_server_identity(value: &Option<String>, resource: &str) -> (outcome: Result<
    (),
    SelectionErrorDto,
>)
    ensures
        fails_as(outcome, identity_refusal(order::optional_text(*value), resource@)),
{
    match value {
        None => Ok(()),
        Some(value) => {
            if value.as_str().unicode_len() == 0 {
                Err(
                    error(
                        SelectionErrorCode::LspProtocolError,
                        "the language server reported an empty identity field",
                    ),
                )
            } else if value.as_str().as_bytes().len() > MAXIMUM_SERVER_IDENTITY_BYTES {
                Err(resource_error(resource, MAXIMUM_SERVER_IDENTITY_BYTES))
            } else {
                Ok(())
            }
        },
    }
}

/// Why no server could be resolved from the configuration.
#[derive(Clone, Debug, PartialEq, Eq)]
pub enum ConfigError {
    /// The configuration file could not be read.
    Read {
        /// Whether it does not exist.
        not_found: bool,
    },
    /// The configuration is too large.
    ConfigurationTooLarge,
    /// The configuration nests too deeply.
    ConfigurationTooDeep,
    /// A field is too large.
    FieldTooLarge,
    /// The arguments of a server are too many or too large.
    InvalidArguments,
    /// An embedded JSON value is too large.
    OversizedJsonConfiguration,
    /// The explicit choice of a server is invalid.
    InvalidExplicitSelection,
    /// Any other reason.
    Other,
}

/// The error for an unresolved server.
pub open spec fn config_failure(error: ConfigError) -> SelectionErrorView {
    match error {
        ConfigError::ConfigurationTooLarge
        | ConfigError::ConfigurationTooDeep
        | ConfigError::FieldTooLarge
        | ConfigError::InvalidArguments
        | ConfigError::OversizedJsonConfiguration => plain(
            SelectionErrorCode::LspResourceLimitExceeded,
            "the language-server configuration exceeds a resource limit"@,
        ),
        ConfigError::InvalidExplicitSelection => plain(
            SelectionErrorCode::InvalidSelectionQuery,
            "the explicit language-server selection is invalid"@,
        ),
        ConfigError::Read { .. } | ConfigError::Other => plain(
            SelectionErrorCode::LspServerNotConfigured,
            "no trusted language server could be resolved for the source"@,
        ),
    }
}

/// Returns the error for an unresolved server.
pub fn map_config_error(error_value: &ConfigError) -> (report: SelectionErrorDto)
    ensures
        report@ == config_failure(*error_value),
{
    match error_value {
        ConfigError::ConfigurationTooLarge
        | ConfigError::ConfigurationTooDeep
        | ConfigError::FieldTooLarge
        | ConfigError::InvalidArguments
        | ConfigError::OversizedJsonConfiguration => error(
            SelectionErrorCode::LspResourceLimitExceeded,
            "the language-server configuration exceeds a resource limit",
        ),
        ConfigError::InvalidExplicitSelection => error(
            SelectionErrorCode::InvalidSelectionQuery,
            "the explicit language-server selection is invalid",
        ),
        ConfigError::Read { .. } | ConfigError::Other => error(
            SelectionErrorCode::LspServerNotConfigured,
            "no trusted language server could be resolved for the source",
        ),
    }
}

/// The failure of loading a configuration, if it is one: a configuration that
/// nobody asked for may be missing.
pub open spec fn configuration_refusal(failure: ConfigError, explicit: bool) -> Option<
    SelectionErrorView,
> {
    if failure == (ConfigError::Read { not_found: true }) && !explicit {
        None
    } else {
        Some(config_failure(failure))
    }
}

/// Decides whether a configuration that could not be loaded is a failure.
pub fn tolerate_missing_configuration(failure: &ConfigError, explicit: bool) -> (outcome: Result<
    (),
    SelectionErrorDto,
>)
    ensures
        fails_as(outcome, configuration_refusal(*failure, explicit)),
{
    if !explicit && matches!(failure, ConfigError::Read { not_found: true }) {
        Ok(())
    } else {
        Err(map_config_error(failure))
    }
}

/// The error for a refusal of the workspace.
pub open spec fn filesystem_failure(error: FsError) -> SelectionErrorView {
    match error {
        FsError::ResourceLimitExceeded { resource, limit, .. }
        | FsError::Core(CoreError::ResourceLimitExceeded { resource, limit, .. }) =>
            resource_exceeded(resource@, machine_size(limit)),
        FsError::InvalidPath { .. }
        | FsError::PathNotFound { .. }
        | FsError::SymlinkNotAllowed { .. }
        | FsError::UnsupportedFileType { .. } => plain(
            SelectionErrorCode::InvalidSelectionQuery,
            "the selected source path is not a readable workspace file"@,
        ),
        _ => internal("the workspace could not be inspected safely"@),
    }
}

/// Returns the error for a refusal of the workspace.
pub fn map_filesystem_error(error_value: &FsError) -> (report: SelectionErrorDto)
    ensures
        report@ == filesystem_failure(*error_value),
{
    match error_value {
        FsError::ResourceLimitExceeded { resource, limit, .. }
        | FsError::Core(CoreError::ResourceLimitExceeded { resource, limit, .. }) =>
            resource_error(resource.as_str(), as_machine_size(*limit)),
        FsError::InvalidPath { .. }
        | FsError::PathNotFound { .. }
        | FsError::SymlinkNotAllowed { .. }
        | FsError::UnsupportedFileType { .. } => error(
            SelectionErrorCode::InvalidSelectionQuery,
            "the selected source path is not a readable workspace file",
        ),
        _ => internal_error("the workspace could not be inspected safely"),
    }
}

/// The phase of a session that a deadline belongs to.
#[derive(Clone, Copy, Debug, PartialEq, Eq, Structural)]
pub enum SessionPhase {
    /// Initialization.
    Initialize,
    /// The document-symbol request.
    DocumentSymbols,
    /// Shutdown.
    Shutdown,
}

/// What a server lacks.
#[derive(Clone, Copy, Debug, PartialEq, Eq, Structural)]
pub enum CapabilityError {
    /// It provides no document symbols.
    DocumentSymbolsUnavailable,
    /// It cannot synchronize an opened document.
    DocumentSyncUnavailable,
    /// It chose an unsupported position encoding.
    UnsupportedPositionEncoding,
}

/// Why a session failed.
#[derive(Clone, Debug, PartialEq, Eq)]
pub enum SessionError {
    /// The server lacks something.
    Capability(CapabilityError),
    /// A deadline passed.
    Timeout(SessionPhase),
    /// The server rejected a required request.
    RequestFailed,
    /// A resource limit was exceeded.
    ResourceLimit {
        /// The resource.
        resource: String,
        /// Its limit.
        limit: usize,
    },
    /// The transport failed.
    Transport(TransportError),
    /// A payload does not follow the protocol.
    InvalidLspPayload,
    /// A response was not expected.
    UnexpectedResponse,
}

/// The name of a phase in an error's context.
pub open spec fn phase_text(phase: SessionPhase) -> Seq<char> {
    match phase {
        SessionPhase::Initialize => "initialize"@,
        SessionPhase::DocumentSymbols => "document_symbol"@,
        SessionPhase::Shutdown => "shutdown"@,
    }
}

/// The error for a deadline that passed.
pub open spec fn timed_out(phase: SessionPhase) -> SelectionErrorView {
    SelectionErrorView {
        code: SelectionErrorCode::LspTimeout,
        message: "the language server did not respond before the selection deadline"@,
        context: seq![("phase"@, JsonView::String(phase_text(phase)))],
    }
}

/// Returns the error for a deadline that passed.
pub fn timeout_error(phase: SessionPhase) -> (error: SelectionErrorDto)
    ensures
        error@ == timed_out(phase),
{
    let phase_name: &str = match phase {
        SessionPhase::Initialize => "initialize",
        SessionPhase::DocumentSymbols => "document_symbol",
        SessionPhase::Shutdown => "shutdown",
    };
    let context = vec![named("phase", json_text(phase_name))];
    assert(json::members_view(context@) =~= timed_out(phase).context);
    SelectionErrorDto::new(
        SelectionErrorCode::LspTimeout,
        "the language server did not respond before the selection deadline",
        context,
    )
}

/// The transport bound that a protocol violation exceeds, if it is one: the
/// resource and its limit. Nesting beyond its limit counts as malformed.
pub open spec fn exceeded_bound(error: JsonRpcError) -> Option<(Seq<char>, usize)> {
    match error {
        JsonRpcError::HeaderTooLarge { limit } => Some(("LSP header bytes"@, limit)),
        JsonRpcError::InboundBodyTooLarge { limit, .. } => Some(("inbound JSON-RPC body bytes"@, limit)),
        JsonRpcError::OutboundBodyTooLarge { limit, .. } => Some(("outbound JSON-RPC body bytes"@, limit)),
        JsonRpcError::IdTooLarge { limit, .. } => Some(("JSON-RPC request ID bytes"@, limit)),
        JsonRpcError::MethodTooLong { limit, .. } => Some(("JSON-RPC method name bytes"@, limit)),
        JsonRpcError::ParamsTooLarge { limit, .. } => Some(("JSON-RPC parameter bytes"@, limit)),
        JsonRpcError::PendingRequestLimit { limit } => Some(("pending client requests"@, limit)),
        _ => None,
    }
}

/// Returns the transport bound that a protocol violation exceeds, if it is one.
fn bound_of(error: &JsonRpcError) -> (bound: Option<(&'static str, usize)>)
    ensures
        match bound {
            Some((resource, limit)) => exceeded_bound(*error) == Some((resource@, limit)),
            None => exceeded_bound(*error) is None,
        },
{
    match error {
        JsonRpcError::HeaderTooLarge { limit } => Some(("LSP header bytes", *limit)),
        JsonRpcError::InboundBodyTooLarge { limit, .. } => Some(("inbound JSON-RPC body bytes", *limit)),
        JsonRpcError::OutboundBodyTooLarge { limit, .. } => Some(("outbound JSON-RPC body bytes", *limit)),
        JsonRpcError::IdTooLarge { limit, .. } => Some(("JSON-RPC request ID bytes", *limit)),
        JsonRpcError::MethodTooLong { limit, .. } => Some(("JSON-RPC method name bytes", *limit)),
        JsonRpcError::ParamsTooLarge { limit, .. } => Some(("JSON-RPC parameter bytes", *limit)),
        JsonRpcError::PendingRequestLimit { limit } => Some(("pending client requests", *limit)),
        _ => None,
    }
}

/// The error for a failed transport.
pub open spec fn transport_failure(error: TransportError) -> SelectionErrorView {
    match error {
        TransportError::Process(ProcessError::Spawn { .. })
        | TransportError::Process(ProcessError::SpawnWorker { .. }) => plain(
            SelectionErrorCode::LspStartFailed,
            "the configured language server could not be started"@,
        ),
        TransportError::Exited(_) | TransportError::StdoutClosed | TransportError::StdinClosed => plain(
            SelectionErrorCode::LspExited,
            "the language server exited before selection completed"@,
        ),
        TransportError::DeadlineExceeded | TransportError::Process(
            ProcessError::DeadlineExceeded,
        ) => plain(
            SelectionErrorCode::LspTimeout,
            "the language server did not respond before the deadline"@,
        ),
        TransportError::ResourceLimit { resource, limit } => resource_exceeded(resource@, limit),
        TransportError::Protocol(violation) => match exceeded_bound(violation) {
            Some((resource, limit)) => resource_exceeded(resource, limit),
            None => plain(
                SelectionErrorCode::LspProtocolError,
                "the language-server transport failed"@,
            ),
        },
        TransportError::Process(
            ProcessError::ByteCapacityExceeded { capacity_bytes, .. },
        ) => resource_exceeded("language-server queued bytes"@, capacity_bytes),
        TransportError::ProcessFault(fault) => match fault.kind {
            ProcessFaultKind::ResourceLimit { capacity_bytes, .. } => resource_exceeded(
                "language-server queued bytes"@,
                capacity_bytes,
            ),
            ProcessFaultKind::Io { .. } => plain(
                SelectionErrorCode::LspProtocolError,
                "the language-server transport failed"@,
            ),
        },
        TransportError::Process(_) => plain(
            SelectionErrorCode::LspProtocolError,
            "the language-server transport failed"@,
        ),
    }
}

/// Returns the error for a failed transport.
pub fn map_transport_error(error_value: &TransportError) -> (report: SelectionErrorDto)
    ensures
        report@ == transport_failure(*error_value),
{
    match error_value {
        TransportError::Process(ProcessError::Spawn { .. })
        | TransportError::Process(ProcessError::SpawnWorker { .. }) => error(
            SelectionErrorCode::LspStartFailed,
            "the configured language server could not be started",
        ),
        TransportError::Exited(_) | TransportError::StdoutClosed | TransportError::StdinClosed => error(
            SelectionErrorCode::LspExited,
            "the language server exited before selection completed",
        ),
        TransportError::DeadlineExceeded | TransportError::Process(
            ProcessError::DeadlineExceeded,
        ) => error(
            SelectionErrorCode::LspTimeout,
            "the language server did not respond before the deadline",
        ),
        TransportError::ResourceLimit { resource, limit } => resource_error(resource, *limit),
        TransportError::Protocol(violation) => match bound_of(violation) {
            Some((resource, limit)) => resource_error(resource, limit),
            None => error(
                SelectionErrorCode::LspProtocolError,
                "the language-server transport failed",
            ),
        },
        TransportError::Process(
            ProcessError::ByteCapacityExceeded { capacity_bytes, .. },
        ) => resource_error("language-server queued bytes", *capacity_bytes),
        TransportError::ProcessFault(fault) => match &fault.kind {
            ProcessFaultKind::ResourceLimit { capacity_bytes, .. } => resource_error(
                "language-server queued bytes",
                *capacity_bytes,
            ),
            ProcessFaultKind::Io { .. } => error(
                SelectionErrorCode::LspProtocolError,
                "the language-server transport failed",
            ),
        },
        TransportError::Process(_) => error(
            SelectionErrorCode::LspProtocolError,
            "the language-server transport failed",
        ),
    }
}

/// The error for a failed session.
pub open spec fn session_failure(error: SessionError) -> SelectionErrorView {
    match error {
        SessionError::Capability(CapabilityError::DocumentSymbolsUnavailable) => plain(
            SelectionErrorCode::LspCapabilityUnavailable,
            "the language server does not provide document symbols"@,
        ),
        SessionError::Capability(CapabilityError::DocumentSyncUnavailable) => plain(
            SelectionErrorCode::LspDocumentSyncUnavailable,
            "the language server cannot synchronize the immutable source snapshot"@,
        ),
        SessionError::Capability(CapabilityError::UnsupportedPositionEncoding) => plain(
            SelectionErrorCode::LspCapabilityUnavailable,
            "the language server selected an unsupported position encoding"@,
        ),
        SessionError::Timeout(phase) => timed_out(phase),
        SessionError::RequestFailed => plain(
            SelectionErrorCode::LspRequestFailed,
            "the language server rejected a required request"@,
        ),
        SessionError::ResourceLimit { resource, limit } => resource_exceeded(resource@, limit),
        SessionError::Transport(transport) => transport_failure(transport),
        SessionError::InvalidLspPayload | SessionError::UnexpectedResponse => plain(
            SelectionErrorCode::LspProtocolError,
            "the language server returned an invalid protocol response"@,
        ),
    }
}

/// Returns the error for a failed session.
pub fn map_session_error(error_value: &SessionError) -> (report: SelectionErrorDto)
    ensures
        report@ == session_failure(*error_value),
{
    match error_value {
        SessionError::Capability(CapabilityError::DocumentSymbolsUnavailable) => error(
            SelectionErrorCode::LspCapabilityUnavailable,
            "the language server does not provide document symbols",
        ),
        SessionError::Capability(CapabilityError::DocumentSyncUnavailable) => error(
            SelectionErrorCode::LspDocumentSyncUnavailable,
            "the language server cannot synchronize the immutable source snapshot",
        ),
        SessionError::Capability(CapabilityError::UnsupportedPositionEncoding) => error(
            SelectionErrorCode::LspCapabilityUnavailable,
            "the language server selected an unsupported position encoding",
        ),
        SessionError::Timeout(phase) => timeout_error(*phase),
        SessionError::RequestFailed => error(
            SelectionErrorCode::LspRequestFailed,
            "the language server rejected a required request",
        ),
        SessionError::ResourceLimit { resource, limit } => resource_error(
            resource.as_str(),
            *limit,
        ),
        SessionError::Transport(transport) => map_transport_error(transport),
        SessionError::InvalidLspPayload | SessionError::UnexpectedResponse => error(
            SelectionErrorCode::LspProtocolError,
            "the language server returned an invalid protocol response",
        ),
    }
}

/// The structured form of one ambiguous candidate.
pub open spec fn candidate_json(candidate: CandidateView) -> JsonView {
    JsonView::Object(
        seq![
            ("name"@, JsonView::String(candidate.name)),
            ("symbol_kind"@, JsonView::String(kinds::normalized_kind_text(candidate.kind))),
            ("symbol_path"@, wire::texts_json(candidate.symbol_path)),
            (
                "selector"@,
                (SelectionByteSelectorDto {
                    start: candidate.byte_range.start,
                    end: candidate.byte_range.end,
                })@,
            ),
        ],
    )
}

/// The error for an ambiguous query: how many candidates there are, and the
/// first of them.
pub open spec fn ambiguous(total: u64, candidates: Seq<CandidateView>) -> SelectionErrorView {
    SelectionErrorView {
        code: SelectionErrorCode::SelectionAmbiguous,
        message: "the selection query matched more than one document symbol"@,
        context: seq![
            ("candidate_count"@, json::number_json(total)),
            (
                "candidates"@,
                JsonView::Array(
                    Seq::new(candidates.len(), |i: int| candidate_json(candidates[i])),
                ),
            ),
        ],
    }
}

/// Returns the structured form of one ambiguous candidate.
fn json_candidate(candidate: &AmbiguityCandidate) -> (value: Json)
    ensures
        value@ == candidate_json(candidate@),
{
    let selector = SelectionByteSelectorDto::new(
        candidate.byte_range.start,
        candidate.byte_range.end,
    );
    let members = vec![
        named("name", json_text(candidate.name.as_str())),
        named("symbol_kind", json_text(candidate.kind.as_str())),
        named("symbol_path", json_texts(&candidate.symbol_path)),
        named("selector", selector.to_json()),
    ];
    assert(json::members_view(members@) =~= candidate_json(candidate@)->Object_0);
    json_object(members)
}

/// Returns the error for an ambiguous query.
pub fn ambiguity_error(total: u64, candidates: &Vec<AmbiguityCandidate>) -> (error:
    SelectionErrorDto)
    ensures
        error@ == ambiguous(total, symbols::candidates_view(candidates@)),
{
    proof {
        wire::lemma_context_keys_ascend();
    }
    let ghost views = symbols::candidates_view(candidates@);
    let mut items: Vec<Json> = Vec::new();
    let mut index: usize = 0;
    while index < candidates.len()
        invariant
            index <= candidates@.len(),
            items@.len() == index,
            views == symbols::candidates_view(candidates@),
            forall|i: int| 0 <= i < index ==> (#[trigger] items@[i])@ == candidate_json(views[i]),
        decreases candidates@.len() - index,
    {
        items.push(json_candidate(&candidates[index]));
        index = index + 1;
    }
    assert(json::items_view(items@) =~= Seq::new(views.len(), |i: int| candidate_json(views[i])));
    let context = vec![
        named("candidate_count", json_number(total)),
        named("candidates", json_array(items)),
    ];
    assert(json::members_view(context@) =~= ambiguous(total, views).context);
    SelectionErrorDto::new(
        SelectionErrorCode::SelectionAmbiguous,
        "the selection query matched more than one document symbol",
        context,
    )
}

/// The error for converting positions beyond the work that one command may
/// spend on it.
pub open spec fn conversion_exceeded() -> SelectionErrorView {
    resource_exceeded(
        "position conversion scalars"@,
        machine_size(DEFAULT_MAXIMUM_CODE_POINTS_SCANNED),
    )
}

/// Returns the error for converting positions beyond the work that one command
/// may spend on it.
pub fn conversion_work_error() -> (report: SelectionErrorDto)
    ensures
        report@ == conversion_exceeded(),
{
    resource_error(
        "position conversion scalars",
        as_machine_size(DEFAULT_MAXIMUM_CODE_POINTS_SCANNED),
    )
}

/// The error for a failed normalization or resolution.
pub open spec fn symbol_failure(error: SymbolErrorView) -> SelectionErrorView {
    match error {
        SymbolErrorView::FlatSymbolsUnsupported => plain(
            SelectionErrorCode::LspFlatSymbolsUnsupported,
            "the language server returned unsupported flat document symbols"@,
        ),
        SymbolErrorView::ResourceLimitExceeded { resource, maximum } => resource_exceeded(
            resource,
            machine_size(maximum),
        ),
        SymbolErrorView::NotFound => plain(
            SelectionErrorCode::SelectionNotFound,
            "no document symbol matched the selection query"@,
        ),
        SymbolErrorView::Ambiguous { total, candidates } => ambiguous(total, candidates),
        SymbolErrorView::QueryPositionOutOfBounds => plain(
            SelectionErrorCode::InvalidSelectionQuery,
            "the selection position is outside the source snapshot"@,
        ),
        SymbolErrorView::Position(PositionError::WorkLimitExceeded) => conversion_exceeded(),
        SymbolErrorView::MalformedDocumentSymbols
        | SymbolErrorView::Position(_)
        | SymbolErrorView::SelectionRangeNotContained
        | SymbolErrorView::InvalidExtent => plain(
            SelectionErrorCode::LspProtocolError,
            "the language server returned invalid document-symbol ranges"@,
        ),
    }
}

/// Returns the error for a failed normalization or resolution.
pub fn map_symbol_error(error_value: &SymbolError) -> (report: SelectionErrorDto)
    ensures
        report@ == symbol_failure(error_value@),
{
    match error_value {
        SymbolError::FlatSymbolsUnsupported => error(
            SelectionErrorCode::LspFlatSymbolsUnsupported,
            "the language server returned unsupported flat document symbols",
        ),
        SymbolError::ResourceLimitExceeded { resource, maximum } => resource_error(
            resource,
            as_machine_size(*maximum),
        ),
        SymbolError::NotFound => error(
            SelectionErrorCode::SelectionNotFound,
            "no document symbol matched the selection query",
        ),
        SymbolError::Ambiguous { total, candidates } => ambiguity_error(*total, candidates),
        SymbolError::QueryPositionOutOfBounds => error(
            SelectionErrorCode::InvalidSelectionQuery,
            "the selection position is outside the source snapshot",
        ),
        SymbolError::Position(PositionError::WorkLimitExceeded) => conversion_work_error(),
        SymbolError::MalformedDocumentSymbols
        | SymbolError::Position(_)
        | SymbolError::SelectionRangeNotContained
        | SymbolError::InvalidExtent => error(
            SelectionErrorCode::LspProtocolError,
            "the language server returned invalid document-symbol ranges",
        ),
    }
}

/// The error for a queried position that could not be converted: it lies outside
/// the source, or finding it took more work than allowed.
pub open spec fn user_position_failure(error: PositionError) -> SelectionErrorView {
    match error {
        PositionError::WorkLimitExceeded => conversion_exceeded(),
        _ => plain(
            SelectionErrorCode::InvalidSelectionQuery,
            "the selection position is outside the source snapshot"@,
        ),
    }
}

/// Returns the error for a queried position that could not be converted.
pub fn map_user_position_error(error_value: PositionError) -> (report: SelectionErrorDto)
    ensures
        report@ == user_position_failure(error_value),
{
    match error_value {
        PositionError::WorkLimitExceeded => conversion_work_error(),
        _ => error(
            SelectionErrorCode::InvalidSelectionQuery,
            "the selection position is outside the source snapshot",
        ),
    }
}

/// The error for a line index of another snapshot.
pub open spec fn index_failure() -> SelectionErrorView {
    plain(
        SelectionErrorCode::LspProtocolError,
        "the immutable source position index is invalid"@,
    )
}

/// Returns the error for a line index of another snapshot.
pub fn map_position_protocol_error(_error: PositionError) -> (report: SelectionErrorDto)
    ensures
        report@ == index_failure(),
{
    error(
        SelectionErrorCode::LspProtocolError,
        "the immutable source position index is invalid",
    )
}

/// A failed session is always reported in the support category.
pub proof fn law_server_failures_are_support(error: SessionError)
    ensures
        crate::selection::selection_category(session_failure(error).code)
            == crate::selection::SelectionErrorCategory::Support,
{
}

} // verus!
