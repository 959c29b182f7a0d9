//! How failures are worded.

use vstd::prelude::*;

use crate::edit_laws;
use crate::edit_report;
use crate::edit_report::{CoreError, FsError};
use crate::outline_command;
use crate::position::PositionError;
use crate::select_report;
use crate::select_report::{CapabilityError, ConfigError, SessionError};
use crate::symbols::SymbolErrorView;
use crate::transport::{ProcessError, ProcessFaultKind, TransportError};

verus! {

/// The wording of every refusal of the workspace.
pub proof fn law_refusals_are_worded(error: FsError)
    ensures
        edit_report::filesystem_report(error).message == (
            match error {
                FsError::UnsupportedPlatform => "workspace inspection requires Linux or macOS"@,
                FsError::WorkspaceRootNotDirectory =>
                    "the selected workspace root is not a directory"@,
                FsError::InvalidPath { .. } => "an inspection path is invalid"@,
                FsError::SymlinkNotAllowed { .. } =>
                    "an inspection path traverses or names a symbolic link"@,
                FsError::UnsupportedFileType { .. } => "an inspection path is not a regular file"@,
                FsError::PathNotFound { .. } => "an inspection path does not exist"@,
                FsError::PreconditionFailed { .. } =>
                    "a path precondition does not match the stable workspace state"@,
                FsError::IncompatiblePrecondition { .. } =>
                    "one path has incompatible preconditions"@,
                FsError::FileAlias { .. } => "distinct paths identify the same existing file"@,
                FsError::FileChanged { .. } =>
                    "a file remained unstable during bounded snapshot acquisition"@,
                FsError::CrossDeviceTransaction =>
                    "the control directory and changed target parent are on different filesystems"@,
                FsError::NoReplaceUnavailable =>
                    "the required no-replace rename primitive is unavailable"@,
                FsError::UnsupportedFilesystem { .. } =>
                    "commit requires a qualified local ext4 or APFS filesystem"@,
                FsError::TransactionRecoveryRequired { .. } =>
                    "unfinished transactions require explicit recovery"@,
                FsError::TransactionNotFound { .. } => "the requested transaction does not exist"@,
                FsError::RecoveryActionNotAllowed { .. } =>
                    "the requested recovery action is not safe in the current state"@,
                FsError::ControlDirectoryInvalid { .. } => "the workspace control tree is invalid"@,
                FsError::RecoveryConflict { .. } =>
                    "filesystem observations conflict with the transaction journal"@,
                FsError::InternalInvariant { .. } =>
                    "an internal workspace inspection invariant failed"@,
                FsError::Unrecognized => "an unrecognized filesystem error occurred"@,
                FsError::ResourceLimitExceeded { .. } => "a command resource limit was exceeded"@,
                FsError::TransactionBusy =>
                    "an incompatible workspace lock is held; wait and retry; never bypass or remove the lock"@,
                FsError::LegacyControlState { name } => name@
                    + " holds unfinished transaction state from the former product identity; finish or remove it with the former tool before running srcmv in this workspace"@,
                FsError::TransactionRecordCorrupt { .. } => "a transaction record is corrupt"@,
                FsError::Io { .. } => "workspace operation failed"@,
                FsError::Core(error) => match error {
                    CoreError::ResourceLimitExceeded { .. } =>
                        "a command resource limit was exceeded"@,
                    CoreError::EditConflict { .. } =>
                        "the requested edits conflict under immutable-snapshot semantics"@,
                    CoreError::HardLinkNotSupported { .. } =>
                        "a changing output has multiple hard links"@,
                    CoreError::Other { .. } => "the core planning model rejected acquired data"@,
                },
            }
        ),
{
}

/// The reasons that are told with refusals that give none themselves.
pub proof fn law_unreasoned_refusals_tell_a_reason(error: FsError)
    ensures
        error is WorkspaceRootNotDirectory ==> edit_laws::tells_text(
            edit_report::filesystem_report(error),
            "reason"@,
            "workspace_not_directory"@,
        ),
        error is IncompatiblePrecondition ==> edit_laws::tells_text(
            edit_report::filesystem_report(error),
            "reason"@,
            "incompatible_preconditions"@,
        ),
        error is LegacyControlState ==> edit_laws::tells_text(
            edit_report::filesystem_report(error),
            "reason"@,
            "legacy_control_state"@,
        ),
{
    let context = edit_report::filesystem_report(error).context;
    if context.len() > 0 {
        assert(context.contains(context[0]));
    }
    if context.len() > 1 {
        assert(context.contains(context[1]));
    }
}

/// The wording of a server that was not resolved, and of a source that was not
/// read.
pub proof fn law_missing_servers_and_sources_are_worded(error: ConfigError, failure: FsError)
    ensures
        select_report::config_failure(error).message == (
            match error {
                ConfigError::ConfigurationTooLarge
                | ConfigError::ConfigurationTooDeep
                | ConfigError::FieldTooLarge
                | ConfigError::InvalidArguments
                | ConfigError::OversizedJsonConfiguration =>
                    "the language-server configuration exceeds a resource limit"@,
                ConfigError::InvalidExplicitSelection =>
                    "the explicit language-server selection is invalid"@,
                ConfigError::Read { .. } | ConfigError::Other =>
                    "no trusted language server could be resolved for the source"@,
            }
        ),
        select_report::filesystem_failure(failure).message == (
            match failure {
                FsError::ResourceLimitExceeded { .. }
                | FsError::Core(CoreError::ResourceLimitExceeded { .. }) =>
                    "semantic selection exceeded a configured resource limit"@,
                FsError::InvalidPath { .. }
                | FsError::PathNotFound { .. }
                | FsError::SymlinkNotAllowed { .. }
                | FsError::UnsupportedFileType { .. } =>
                    "the selected source path is not a readable workspace file"@,
                _ => "the workspace could not be inspected safely"@,
            }
        ),
{
}

/// The wording of a transport that failed.
pub proof fn law_failed_transports_are_worded(error: TransportError)
    ensures
        select_report::transport_failure(error).message == (
            match error {
                TransportError::Process(ProcessError::Spawn { .. })
                | TransportError::Process(ProcessError::SpawnWorker { .. }) =>
                    "the configured language server could not be started"@,
                TransportError::Exited(_) | TransportError::StdoutClosed | TransportError::StdinClosed =>
                    "the language server exited before selection completed"@,
                TransportError::DeadlineExceeded | TransportError::Process(
                    ProcessError::DeadlineExceeded,
                ) => "the language server did not respond before the deadline"@,
                TransportError::ResourceLimit { .. } =>
                    "semantic selection exceeded a configured resource limit"@,
                TransportError::Protocol(violation) => match select_report::exceeded_bound(violation) {
                    Some(_) =>
                        "semantic selection exceeded a configured resource limit"@,
                    None => "the language-server transport failed"@,
                },
                TransportError::Process(
                    ProcessError::ByteCapacityExceeded { .. },
                ) => "semantic selection exceeded a configured resource limit"@,
                TransportError::ProcessFault(fault) => match fault.kind {
                    ProcessFaultKind::ResourceLimit { .. } =>
                        "semantic selection exceeded a configured resource limit"@,
                    ProcessFaultKind::Io { .. } => "the language-server transport failed"@,
                },
                TransportError::Process(_) => "the language-server transport failed"@,
            }
        ),
{
}

/// The wording of a session that failed.
pub proof fn law_failed_sessions_are_worded(error: SessionError)
    ensures
        select_report::session_failure(error).message == (
            match error {
                SessionError::Capability(CapabilityError::DocumentSymbolsUnavailable) =>
                    "the language server does not provide document symbols"@,
                SessionError::Capability(CapabilityError::DocumentSyncUnavailable) =>
                    "the language server cannot synchronize the immutable source snapshot"@,
                SessionError::Capability(CapabilityError::UnsupportedPositionEncoding) =>
                    "the language server selected an unsupported position encoding"@,
                SessionError::Timeout(_) =>
                    "the language server did not respond before the selection deadline"@,
                SessionError::RequestFailed => "the language server rejected a required request"@,
                SessionError::ResourceLimit { .. } =>
                    "semantic selection exceeded a configured resource limit"@,
                SessionError::Transport(transport) => select_report::transport_failure(transport).message,
                SessionError::InvalidLspPayload | SessionError::UnexpectedResponse =>
                    "the language server returned an invalid protocol response"@,
            }
        ),
{
}

/// The wording of a query that failed.
pub proof fn law_failed_queries_are_worded(error: SymbolErrorView)
    ensures
        select_report::symbol_failure(error).message == (
            match error {
                SymbolErrorView::FlatSymbolsUnsupported =>
                    "the language server returned unsupported flat document symbols"@,
                SymbolErrorView::ResourceLimitExceeded { .. } =>
                    "semantic selection exceeded a configured resource limit"@,
                SymbolErrorView::NotFound => "no document symbol matched the selection query"@,
                SymbolErrorView::Ambiguous { .. } =>
                    "the selection query matched more than one document symbol"@,
                SymbolErrorView::QueryPositionOutOfBounds =>
                    "the selection position is outside the source snapshot"@,
                SymbolErrorView::Position(PositionError::WorkLimitExceeded) =>
                    "semantic selection exceeded a configured resource limit"@,
                SymbolErrorView::MalformedDocumentSymbols
                | SymbolErrorView::Position(_)
                | SymbolErrorView::SelectionRangeNotContained
                | SymbolErrorView::InvalidExtent =>
                    "the language server returned invalid document-symbol ranges"@,
            }
        ),
{
}

/// An outline words a failure as a selection does, but for what names a selection.
pub proof fn law_outlines_are_worded_for_themselves(message: Seq<char>)
    ensures
        outline_command::reworded(message) == if message
            == "semantic selection exceeded a configured resource limit"@ {
            "the read-only outline exceeded a configured resource limit"@
        } else if message
            == "the language server did not respond before the selection deadline"@ {
            "the language server did not respond before the outline deadline"@
        } else if message == "the language server exited before selection completed"@ {
            "the language server exited before the outline completed"@
        } else {
            message
        },
{
}

} // verus!
