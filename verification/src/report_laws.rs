//! What the failures of selections and outlines say of their causes.

use vstd::prelude::*;

use crate::edit_report::{CoreError, FsError};
use crate::json::{JsonNumberView, JsonView};
use crate::jsonrpc::JsonRpcError;
use crate::kinds;
use crate::outline::OutlineErrorCode;
use crate::outline_command;
use crate::position::PositionError;
use crate::select_command;
use crate::select_command::{choose_server, session_deadlines, ServerSelection, SessionDeadlines};
use crate::select_report;
use crate::select_report::{CapabilityError, ConfigError, SessionError, SessionPhase};
use crate::selection::{SelectionErrorCode, SelectionErrorView};
use crate::symbols::{CandidateView, SymbolErrorView};
use crate::text;
use crate::transport::{ProcessError, ProcessFaultKind, TransportError};
use crate::wire_laws;

verus! {

/// Whether an error's context has a member.
pub open spec fn tells(error: SelectionErrorView, key: Seq<char>, value: JsonView) -> bool {
    error.context.contains((key, value))
}

/// Whether an error says that a resource exceeded its limit.
pub open spec fn says_exceeded(
    error: SelectionErrorView,
    resource: Seq<char>,
    limit: usize,
) -> bool {
    &&& error.code == SelectionErrorCode::LspResourceLimitExceeded
    &&& tells(error, "resource"@, JsonView::String(resource))
    &&& tells(error, "limit"@, JsonView::Number(JsonNumberView::Unsigned(limit as u64)))
}

/// Whether an error says that a resource exceeded its limit, or the largest one
/// that the machine can hold where it cannot hold that limit.
pub open spec fn says_exceeded_limit(
    error: SelectionErrorView,
    resource: Seq<char>,
    limit: u64,
) -> bool {
    if limit <= usize::MAX {
        says_exceeded(error, resource, limit as usize)
    } else {
        says_exceeded(error, resource, usize::MAX)
    }
}

/// Whether an error has no context.
pub open spec fn is_plain(error: SelectionErrorView, code: SelectionErrorCode) -> bool {
    error.code == code && error.context.len() == 0
}

proof fn lemma_exceeded(resource: Seq<char>, limit: usize)
    ensures
        says_exceeded(select_report::resource_exceeded(resource, limit), resource, limit),
{
    let error = select_report::resource_exceeded(resource, limit);
    assert(error.context.contains(error.context[0]));
    assert(error.context.contains(error.context[1]));
}

/// A configuration that is too large in some way exceeded a limit, an explicit
/// choice that is invalid is the query's fault, and otherwise there just is no
/// server. A missing file fails only the command that named it.
pub proof fn law_configuration_failures_name_their_cause(failure: ConfigError, explicit: bool)
    ensures
        is_plain(
            select_report::config_failure(failure),
            match failure {
                ConfigError::ConfigurationTooLarge
                | ConfigError::ConfigurationTooDeep
                | ConfigError::FieldTooLarge
                | ConfigError::InvalidArguments
                | ConfigError::OversizedJsonConfiguration =>
                    SelectionErrorCode::LspResourceLimitExceeded,
                ConfigError::InvalidExplicitSelection => SelectionErrorCode::InvalidSelectionQuery,
                ConfigError::Read { .. } | ConfigError::Other =>
                    SelectionErrorCode::LspServerNotConfigured,
            },
        ),
        select_report::configuration_refusal(failure, explicit) is None <==> !explicit && failure
            == (ConfigError::Read { not_found: true }),
        select_report::configuration_refusal(failure, explicit) matches Some(error) ==> error
            == select_report::config_failure(failure),
{
}

/// A refusal of the workspace is the query's fault where the source's path is no
/// readable file, tells the limit where one was exceeded, and says nothing more
/// otherwise.
pub proof fn law_workspace_failures_name_their_cause(failure: FsError)
    ensures
        ({
            let error = select_report::filesystem_failure(failure);
            match failure {
                FsError::ResourceLimitExceeded { resource, limit, .. }
                | FsError::Core(CoreError::ResourceLimitExceeded { resource, limit, .. }) =>
                    says_exceeded_limit(error, resource@, limit),
                FsError::InvalidPath { .. }
                | FsError::PathNotFound { .. }
                | FsError::SymlinkNotAllowed { .. }
                | FsError::UnsupportedFileType { .. } => is_plain(
                    error,
                    SelectionErrorCode::InvalidSelectionQuery,
                ),
                _ => is_plain(error, SelectionErrorCode::SelectionInternalError),
            }
        }),
{
    match failure {
        FsError::ResourceLimitExceeded { resource, limit, .. }
        | FsError::Core(CoreError::ResourceLimitExceeded { resource, limit, .. }) => {
            lemma_exceeded(resource@, select_report::machine_size(limit));
        },
        _ => {},
    }
}

/// A failed transport is told apart by what failed: a server that did not start,
/// one that is gone, one that is late, a bound that was exceeded, and anything
/// else.
pub proof fn law_transport_failures_name_their_cause(failure: TransportError)
    ensures
        ({
            let error = select_report::transport_failure(failure);
            match failure {
                TransportError::Exited(_)
                | TransportError::StdoutClosed
                | TransportError::StdinClosed => is_plain(error, SelectionErrorCode::LspExited),
                TransportError::DeadlineExceeded => is_plain(error, SelectionErrorCode::LspTimeout),
                TransportError::ResourceLimit { resource, limit } => says_exceeded(
                    error,
                    resource@,
                    limit,
                ),
                TransportError::ProcessFault(fault) => match fault.kind {
                    ProcessFaultKind::ResourceLimit { capacity_bytes, .. } => says_exceeded(
                        error,
                        "language-server queued bytes"@,
                        capacity_bytes,
                    ),
                    ProcessFaultKind::Io { .. } => is_plain(
                        error,
                        SelectionErrorCode::LspProtocolError,
                    ),
                },
                TransportError::Process(process) => match process {
                    ProcessError::Spawn { .. } | ProcessError::SpawnWorker { .. } => is_plain(
                        error,
                        SelectionErrorCode::LspStartFailed,
                    ),
                    ProcessError::DeadlineExceeded => is_plain(
                        error,
                        SelectionErrorCode::LspTimeout,
                    ),
                    ProcessError::ByteCapacityExceeded { capacity_bytes, .. } => says_exceeded(
                        error,
                        "language-server queued bytes"@,
                        capacity_bytes,
                    ),
                    _ => is_plain(error, SelectionErrorCode::LspProtocolError),
                },
                TransportError::Protocol(violation) => match violation {
                    JsonRpcError::HeaderTooLarge { limit } => says_exceeded(
                        error,
                        "LSP header bytes"@,
                        limit,
                    ),
                    JsonRpcError::InboundBodyTooLarge { limit, .. } => says_exceeded(
                        error,
                        "inbound JSON-RPC body bytes"@,
                        limit,
                    ),
                    JsonRpcError::OutboundBodyTooLarge { limit, .. } => says_exceeded(
                        error,
                        "outbound JSON-RPC body bytes"@,
                        limit,
                    ),
                    JsonRpcError::IdTooLarge { limit, .. } => says_exceeded(
                        error,
                        "JSON-RPC request ID bytes"@,
                        limit,
                    ),
                    JsonRpcError::MethodTooLong { limit, .. } => says_exceeded(
                        error,
                        "JSON-RPC method name bytes"@,
                        limit,
                    ),
                    JsonRpcError::ParamsTooLarge { limit, .. } => says_exceeded(
                        error,
                        "JSON-RPC parameter bytes"@,
                        limit,
                    ),
                    JsonRpcError::PendingRequestLimit { limit } => says_exceeded(
                        error,
                        "pending client requests"@,
                        limit,
                    ),
                    _ => is_plain(error, SelectionErrorCode::LspProtocolError),
                },
            }
        }),
{
    match failure {
        TransportError::ResourceLimit { resource, limit } => lemma_exceeded(resource@, limit),
        TransportError::ProcessFault(fault) => if let ProcessFaultKind::ResourceLimit {
            capacity_bytes,
            ..
        } = fault.kind {
            lemma_exceeded("language-server queued bytes"@, capacity_bytes);
        },
        TransportError::Process(ProcessError::ByteCapacityExceeded { capacity_bytes, .. }) => {
            lemma_exceeded("language-server queued bytes"@, capacity_bytes);
        },
        TransportError::Protocol(violation) => if let Some((resource, limit)) =
            select_report::exceeded_bound(violation) {
            lemma_exceeded(resource, limit);
        },
        _ => {},
    }
}

/// A failed session is told apart by what the server lacks, which phase was
/// late, which limit was exceeded, and how the transport failed.
pub proof fn law_session_failures_name_their_cause(failure: SessionError)
    ensures
        ({
            let error = select_report::session_failure(failure);
            match failure {
                SessionError::Capability(CapabilityError::DocumentSyncUnavailable) => is_plain(
                    error,
                    SelectionErrorCode::LspDocumentSyncUnavailable,
                ),
                SessionError::Capability(_) => is_plain(
                    error,
                    SelectionErrorCode::LspCapabilityUnavailable,
                ),
                SessionError::Timeout(phase) => {
                    &&& error.code == SelectionErrorCode::LspTimeout
                    &&& tells(
                        error,
                        "phase"@,
                        JsonView::String(
                            match phase {
                                SessionPhase::Initialize => "initialize"@,
                                SessionPhase::DocumentSymbols => "document_symbol"@,
                                SessionPhase::Shutdown => "shutdown"@,
                            },
                        ),
                    )
                },
                SessionError::RequestFailed => is_plain(
                    error,
                    SelectionErrorCode::LspRequestFailed,
                ),
                SessionError::ResourceLimit { resource, limit } => says_exceeded(
                    error,
                    resource@,
                    limit,
                ),
                SessionError::Transport(transport) => error == select_report::transport_failure(
                    transport,
                ),
                SessionError::InvalidLspPayload | SessionError::UnexpectedResponse => is_plain(
                    error,
                    SelectionErrorCode::LspProtocolError,
                ),
            }
        }),
{
    match failure {
        SessionError::Timeout(phase) => {
            let error = select_report::session_failure(failure);
            assert(error.context.contains(error.context[0]));
        },
        SessionError::ResourceLimit { resource, limit } => lemma_exceeded(resource@, limit),
        _ => {},
    }
}

/// Whether a JSON value describes a candidate of an ambiguous query.
pub open spec fn says_candidate(value: JsonView, candidate: CandidateView) -> bool {
    &&& wire_laws::has(value, "name"@, JsonView::String(candidate.name))
    &&& wire_laws::has(
        value,
        "symbol_kind"@,
        JsonView::String(kinds::normalized_kind_text(candidate.kind)),
    )
    &&& exists|path: JsonView| #[trigger]
        wire_laws::has(value, "symbol_path"@, path) && wire_laws::lists_texts(
            path,
            candidate.symbol_path,
        )
    &&& exists|selector: JsonView| #[trigger]
        wire_laws::has(value, "selector"@, selector) && wire_laws::says_bytes(
            selector,
            candidate.byte_range.start,
            candidate.byte_range.end,
        )
}

/// A query that found nothing, or too much, says so; the latter with the number
/// of the matches and a description of each candidate, in order. What a server
/// sent wrongly is the protocol's failure, and a limit is told as it is.
pub proof fn law_query_failures_name_their_cause(failure: SymbolErrorView)
    ensures
        ({
            let error = select_report::symbol_failure(failure);
            match failure {
                SymbolErrorView::FlatSymbolsUnsupported => is_plain(
                    error,
                    SelectionErrorCode::LspFlatSymbolsUnsupported,
                ),
                SymbolErrorView::ResourceLimitExceeded { resource, maximum } =>
                    says_exceeded_limit(error, resource, maximum),
                SymbolErrorView::NotFound => is_plain(error, SelectionErrorCode::SelectionNotFound),
                SymbolErrorView::Ambiguous { total, candidates } => {
                    &&& error.code == SelectionErrorCode::SelectionAmbiguous
                    &&& tells(error, "candidate_count"@, wire_laws::count(total))
                    &&& exists|items: Seq<JsonView>| #[trigger]
                        tells(error, "candidates"@, JsonView::Array(items)) && items.len()
                            == candidates.len() && forall|i: int|
                            0 <= i < items.len() ==> says_candidate(
                                #[trigger] items[i],
                                candidates[i],
                            )
                },
                SymbolErrorView::QueryPositionOutOfBounds => is_plain(
                    error,
                    SelectionErrorCode::InvalidSelectionQuery,
                ),
                SymbolErrorView::Position(PositionError::WorkLimitExceeded) => {
                    &&& error.code == SelectionErrorCode::LspResourceLimitExceeded
                    &&& tells(
                        error,
                        "resource"@,
                        JsonView::String("position conversion scalars"@),
                    )
                },
                SymbolErrorView::MalformedDocumentSymbols
                | SymbolErrorView::Position(_)
                | SymbolErrorView::SelectionRangeNotContained
                | SymbolErrorView::InvalidExtent => is_plain(
                    error,
                    SelectionErrorCode::LspProtocolError,
                ),
            }
        }),
{
    let error = select_report::symbol_failure(failure);
    match failure {
        SymbolErrorView::ResourceLimitExceeded { resource, maximum } => {
            lemma_exceeded(resource, select_report::machine_size(maximum));
        },
        SymbolErrorView::Position(PositionError::WorkLimitExceeded) => {
            assert(error.context.contains(error.context[1]));
        },
        SymbolErrorView::Ambiguous { total, candidates } => {
            assert(error.context.contains(error.context[0]));
            assert(error.context.contains(error.context[1]));
            let items = error.context[1].1->Array_0;
            assert(tells(error, "candidates"@, JsonView::Array(items)));
            assert forall|i: int| 0 <= i < items.len() implies says_candidate(
                #[trigger] items[i],
                candidates[i],
            ) by {
                lemma_candidate(candidates[i]);
            }
        },
        _ => {},
    }
}

proof fn lemma_candidate(candidate: CandidateView)
    ensures
        says_candidate(select_report::candidate_json(candidate), candidate),
{
    let value = select_report::candidate_json(candidate);
    let members = value->Object_0;
    assert(members.contains(members[0]));
    assert(members.contains(members[1]));
    assert(members.contains(members[2]));
    assert(members.contains(members[3]));
    assert(wire_laws::has(value, "symbol_path"@, members[2].1));
    assert(wire_laws::has(value, "selector"@, members[3].1));
    let bytes = members[3].1->Object_0;
    assert(bytes.contains(bytes[0]));
    assert(bytes.contains(bytes[1]));
    assert(bytes.contains(bytes[2]));
}

/// A position that no offset has is the query's fault.
pub proof fn law_missing_positions_are_the_querys_fault(failure: PositionError)
    ensures
        if failure == PositionError::WorkLimitExceeded {
            select_report::user_position_failure(failure).code
                == SelectionErrorCode::LspResourceLimitExceeded
        } else {
            is_plain(
                select_report::user_position_failure(failure),
                SelectionErrorCode::InvalidSelectionQuery,
            )
        },
{
}

/// A server's name and version may be missing, but are neither empty nor longer
/// than 1,024 bytes; and a queried name is neither empty nor longer than 4,096.
pub proof fn law_names_are_bounded(value: Option<Seq<char>>, resource: Seq<char>)
    ensures
        match (value, select_report::identity_refusal(value, resource)) {
            (None, refusal) => refusal is None,
            (Some(value), None) => 0 < value.len() && text::utf8(value).len() <= 1_024,
            (Some(value), Some(error)) => if value.len() == 0 {
                is_plain(error, SelectionErrorCode::LspProtocolError)
            } else {
                text::utf8(value).len() > 1_024 && says_exceeded(error, resource, 1_024)
            },
        },
        match (value, select_command::name_refusal(value)) {
            (None, refusal) => refusal is None,
            (Some(value), None) => 0 < value.len() && text::utf8(value).len() <= 4_096,
            (Some(value), Some(error)) => if value.len() == 0 {
                is_plain(error, SelectionErrorCode::InvalidSelectionQuery)
            } else {
                text::utf8(value).len() > 4_096 && says_exceeded(
                    error,
                    "selection query name bytes"@,
                    4_096,
                )
            },
        },
{
    lemma_exceeded(resource, 1_024);
    lemma_exceeded("selection query name bytes"@, 4_096);
}

/// An outline fails as a selection would, under the code of the same name, and
/// under its own codes for its query and its invariants.
pub proof fn law_outlines_fail_as_selections_do(error: SelectionErrorView)
    ensures
        outline_command::retargeted(error).context == error.context,
        outline_command::retargeted(error).code == match error.code {
            SelectionErrorCode::InvalidSelectionQuery => OutlineErrorCode::InvalidOutlineQuery,
            SelectionErrorCode::LspServerNotConfigured => OutlineErrorCode::LspServerNotConfigured,
            SelectionErrorCode::UnsupportedTextEncoding =>
                OutlineErrorCode::UnsupportedTextEncoding,
            SelectionErrorCode::LspCapabilityUnavailable =>
                OutlineErrorCode::LspCapabilityUnavailable,
            SelectionErrorCode::LspFlatSymbolsUnsupported =>
                OutlineErrorCode::LspFlatSymbolsUnsupported,
            SelectionErrorCode::LspDocumentSyncUnavailable =>
                OutlineErrorCode::LspDocumentSyncUnavailable,
            SelectionErrorCode::LspResourceLimitExceeded =>
                OutlineErrorCode::LspResourceLimitExceeded,
            SelectionErrorCode::LspTimeout => OutlineErrorCode::LspTimeout,
            SelectionErrorCode::LspStartFailed => OutlineErrorCode::LspStartFailed,
            SelectionErrorCode::LspExited => OutlineErrorCode::LspExited,
            SelectionErrorCode::LspProtocolError => OutlineErrorCode::LspProtocolError,
            SelectionErrorCode::LspRequestFailed => OutlineErrorCode::LspRequestFailed,
            SelectionErrorCode::SelectionNotFound
            | SelectionErrorCode::SelectionAmbiguous
            | SelectionErrorCode::SelectionInternalError => OutlineErrorCode::OutlineInternalError,
        },
{
}

/// An explicit program is taken with its arguments, whatever else is given;
/// without one a descriptor is, and without either the source decides.
pub proof fn law_programs_come_before_descriptors(
    program: Option<String>,
    arguments: Vec<String>,
    language_id: Option<String>,
    server_id: Option<String>,
    selection: ServerSelection,
)
    requires
        call_ensures(choose_server, (program, arguments, language_id, server_id), selection),
    ensures
        match selection {
            ServerSelection::Program { program: chosen, arguments: kept, language_id: language } => {
                &&& program == Some(chosen)
                &&& kept == arguments
                &&& language_id matches Some(given) ==> language@ == given@
                &&& language_id is None ==> language@.len() == 0
            },
            ServerSelection::Id(id) => program is None && server_id == Some(id),
            ServerSelection::Automatic => program is None && server_id is None,
        },
{
    reveal_strlit("");
}

/// A session's phases get the server's own timeouts and five seconds each for
/// the end; all of it gets the sum, and ten seconds more, as far as it can be
/// counted.
pub proof fn law_deadlines_cover_their_phases(
    startup: u64,
    request: u64,
    deadlines: SessionDeadlines,
)
    requires
        call_ensures(session_deadlines, (startup, request), deadlines),
    ensures
        deadlines.initialize == startup,
        deadlines.document_symbols == request,
        deadlines.shutdown == 5_000,
        deadlines.cleanup == 5_000,
        deadlines.total == startup + request + 20_000 || (deadlines.total == u64::MAX && startup
            + request + 20_000 > u64::MAX),
{
}

} // verus!
