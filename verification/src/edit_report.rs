//! Structured edit errors: their registry, and the report for each way in
//! which the workspace can refuse an operation.

use vstd::prelude::*;
use vstd::string::StringExecFns;

use crate::digest;
use crate::digest::Sha256Digest;
use crate::json;
use crate::json::{json_number, json_object, json_text, named, Json, JsonView};
use crate::order;
use crate::terminal;
use crate::terminal::escape_terminal_text;
use crate::text_map;
use crate::text_map::TextMap;
use crate::wire;
use crate::wire::{copy_members, json_texts};

verus! {

/// Edit error categories.
#[derive(Clone, Copy, Debug, PartialEq, Eq, Structural)]
pub enum ErrorCategory {
    /// Invalid input.
    Request,
    /// The request conflicts with the observed state.
    Conflict,
    /// A limit was exceeded, or something is not supported.
    Support,
    /// The transaction state does not allow the request.
    Transaction,
    /// Persistent state is corrupt.
    Corruption,
    /// An implementation invariant or an operation failed.
    Internal,
}

/// The stable spelling of a category.
pub open spec fn category_text(value: ErrorCategory) -> Seq<char> {
    match value {
        ErrorCategory::Request => "request"@,
        ErrorCategory::Conflict => "conflict"@,
        ErrorCategory::Support => "support"@,
        ErrorCategory::Transaction => "transaction"@,
        ErrorCategory::Corruption => "corruption"@,
        ErrorCategory::Internal => "internal"@,
    }
}

impl ErrorCategory {
    /// Returns the stable wire spelling.
    pub fn as_str(self) -> (text: &'static str)
        ensures
            text@ == category_text(self),
    {
        match self {
            ErrorCategory::Request => "request",
            ErrorCategory::Conflict => "conflict",
            ErrorCategory::Support => "support",
            ErrorCategory::Transaction => "transaction",
            ErrorCategory::Corruption => "corruption",
            ErrorCategory::Internal => "internal",
        }
    }

    /// Returns the documented command-line exit status for this category.
    pub fn exit_code(self) -> (code: u8)
        ensures
            code == category_exit_code(self),
    {
        match self {
            ErrorCategory::Request => 2,
            ErrorCategory::Conflict => 3,
            ErrorCategory::Support => 4,
            ErrorCategory::Transaction => 5,
            ErrorCategory::Corruption => 6,
            ErrorCategory::Internal => 8,
        }
    }
}

/// The documented command-line exit status of a category.
pub open spec fn category_exit_code(category: ErrorCategory) -> u8 {
    match category {
        ErrorCategory::Request => 2,
        ErrorCategory::Conflict => 3,
        ErrorCategory::Support => 4,
        ErrorCategory::Transaction => 5,
        ErrorCategory::Corruption => 6,
        ErrorCategory::Internal => 8,
    }
}

/// The documented category of a code.
pub open spec fn code_category(code: ErrorCode) -> ErrorCategory {
    match code {
        ErrorCode::InvalidCli
        | ErrorCode::InvalidJson
        | ErrorCode::UnsupportedProtocolVersion
        | ErrorCode::InvalidRequest
        | ErrorCode::InvalidDigest => ErrorCategory::Request,
        ErrorCode::PreconditionFailed
        | ErrorCode::FileChanged
        | ErrorCode::FileAlias
        | ErrorCode::ExpectedPlanRequired
        | ErrorCode::ExpectedPlanMismatch
        | ErrorCode::PlanChangedDuringCommit
        | ErrorCode::EditConflict
        | ErrorCode::RecoveryConflict => ErrorCategory::Conflict,
        ErrorCode::ResourceLimitExceeded
        | ErrorCode::UnsupportedPlatform
        | ErrorCode::UnsupportedFilesystem
        | ErrorCode::UnsupportedFileType
        | ErrorCode::SymlinkNotAllowed
        | ErrorCode::HardLinkNotSupported
        | ErrorCode::CrossDeviceTransaction
        | ErrorCode::NoReplaceUnavailable => ErrorCategory::Support,
        ErrorCode::TransactionBusy
        | ErrorCode::TransactionRecoveryRequired
        | ErrorCode::TransactionNotFound
        | ErrorCode::RecoveryActionNotAllowed => ErrorCategory::Transaction,
        ErrorCode::ControlDirectoryInvalid
        | ErrorCode::TransactionRecordCorrupt => ErrorCategory::Corruption,
        ErrorCode::IoError
        | ErrorCode::InternalError => ErrorCategory::Internal,
    }
}

/// The edit error-code registry.
#[derive(Clone, Copy, Debug, PartialEq, Eq, Hash, PartialOrd, Ord, Structural)]
pub enum ErrorCode {
    /// The command line does not match the grammar.
    InvalidCli,
    /// The request is not valid JSON.
    InvalidJson,
    /// The request names another protocol version.
    UnsupportedProtocolVersion,
    /// The request holds an invalid value.
    InvalidRequest,
    /// A digest is malformed.
    InvalidDigest,
    /// A path precondition does not hold.
    PreconditionFailed,
    /// A file did not stay stable.
    FileChanged,
    /// Two paths name one file.
    FileAlias,
    /// A commit names no expected-plan policy.
    ExpectedPlanRequired,
    /// The plan differs from the expected one.
    ExpectedPlanMismatch,
    /// The plan changed while the lock was acquired.
    PlanChangedDuringCommit,
    /// The requested edits conflict.
    EditConflict,
    /// The files conflict with the journal.
    RecoveryConflict,
    /// A resource limit was exceeded.
    ResourceLimitExceeded,
    /// The platform is not supported.
    UnsupportedPlatform,
    /// The filesystem is not supported.
    UnsupportedFilesystem,
    /// A path is not a regular file.
    UnsupportedFileType,
    /// A path traverses a symbolic link.
    SymlinkNotAllowed,
    /// A changing output has several hard links.
    HardLinkNotSupported,
    /// Control directory and target are on different filesystems.
    CrossDeviceTransaction,
    /// The no-replace rename is unavailable.
    NoReplaceUnavailable,
    /// An incompatible lock is held.
    TransactionBusy,
    /// Unfinished transactions need recovery.
    TransactionRecoveryRequired,
    /// No such transaction exists.
    TransactionNotFound,
    /// The recovery action is not safe now.
    RecoveryActionNotAllowed,
    /// The control tree is invalid.
    ControlDirectoryInvalid,
    /// A transaction record is corrupt.
    TransactionRecordCorrupt,
    /// An input or output operation failed.
    IoError,
    /// An internal invariant failed.
    InternalError,
}

/// The stable spelling of a code.
pub open spec fn code_text(value: ErrorCode) -> Seq<char> {
    match value {
        ErrorCode::InvalidCli => "INVALID_CLI"@,
        ErrorCode::InvalidJson => "INVALID_JSON"@,
        ErrorCode::UnsupportedProtocolVersion => "UNSUPPORTED_PROTOCOL_VERSION"@,
        ErrorCode::InvalidRequest => "INVALID_REQUEST"@,
        ErrorCode::InvalidDigest => "INVALID_DIGEST"@,
        ErrorCode::PreconditionFailed => "PRECONDITION_FAILED"@,
        ErrorCode::FileChanged => "FILE_CHANGED"@,
        ErrorCode::FileAlias => "FILE_ALIAS"@,
        ErrorCode::ExpectedPlanRequired => "EXPECTED_PLAN_REQUIRED"@,
        ErrorCode::ExpectedPlanMismatch => "EXPECTED_PLAN_MISMATCH"@,
        ErrorCode::PlanChangedDuringCommit => "PLAN_CHANGED_DURING_COMMIT"@,
        ErrorCode::EditConflict => "EDIT_CONFLICT"@,
        ErrorCode::RecoveryConflict => "RECOVERY_CONFLICT"@,
        ErrorCode::ResourceLimitExceeded => "RESOURCE_LIMIT_EXCEEDED"@,
        ErrorCode::UnsupportedPlatform => "UNSUPPORTED_PLATFORM"@,
        ErrorCode::UnsupportedFilesystem => "UNSUPPORTED_FILESYSTEM"@,
        ErrorCode::UnsupportedFileType => "UNSUPPORTED_FILE_TYPE"@,
        ErrorCode::SymlinkNotAllowed => "SYMLINK_NOT_ALLOWED"@,
        ErrorCode::HardLinkNotSupported => "HARD_LINK_NOT_SUPPORTED"@,
        ErrorCode::CrossDeviceTransaction => "CROSS_DEVICE_TRANSACTION"@,
        ErrorCode::NoReplaceUnavailable => "NO_REPLACE_UNAVAILABLE"@,
        ErrorCode::TransactionBusy => "TRANSACTION_BUSY"@,
        ErrorCode::TransactionRecoveryRequired => "TRANSACTION_RECOVERY_REQUIRED"@,
        ErrorCode::TransactionNotFound => "TRANSACTION_NOT_FOUND"@,
        ErrorCode::RecoveryActionNotAllowed => "RECOVERY_ACTION_NOT_ALLOWED"@,
        ErrorCode::ControlDirectoryInvalid => "CONTROL_DIRECTORY_INVALID"@,
        ErrorCode::TransactionRecordCorrupt => "TRANSACTION_RECORD_CORRUPT"@,
        ErrorCode::IoError => "IO_ERROR"@,
        ErrorCode::InternalError => "INTERNAL_ERROR"@,
    }
}

impl ErrorCode {
    /// Returns every registered error code.
    pub fn all() -> (values: Vec<Self>)
        ensures
            values@.len() == 29,
            forall|value: Self| values@.contains(value),
            values@.no_duplicates(),
    {
        let values = vec![
            ErrorCode::InvalidCli,
            ErrorCode::InvalidJson,
            ErrorCode::UnsupportedProtocolVersion,
            ErrorCode::InvalidRequest,
            ErrorCode::InvalidDigest,
            ErrorCode::PreconditionFailed,
            ErrorCode::FileChanged,
            ErrorCode::FileAlias,
            ErrorCode::ExpectedPlanRequired,
            ErrorCode::ExpectedPlanMismatch,
            ErrorCode::PlanChangedDuringCommit,
            ErrorCode::EditConflict,
            ErrorCode::RecoveryConflict,
            ErrorCode::ResourceLimitExceeded,
            ErrorCode::UnsupportedPlatform,
            ErrorCode::UnsupportedFilesystem,
            ErrorCode::UnsupportedFileType,
            ErrorCode::SymlinkNotAllowed,
            ErrorCode::HardLinkNotSupported,
            ErrorCode::CrossDeviceTransaction,
            ErrorCode::NoReplaceUnavailable,
            ErrorCode::TransactionBusy,
            ErrorCode::TransactionRecoveryRequired,
            ErrorCode::TransactionNotFound,
            ErrorCode::RecoveryActionNotAllowed,
            ErrorCode::ControlDirectoryInvalid,
            ErrorCode::TransactionRecordCorrupt,
            ErrorCode::IoError,
            ErrorCode::InternalError,
        ];
        proof {
            assert forall|value: Self| values@.contains(value) by {
                match value {
                    ErrorCode::InvalidCli => assert(values@[0] == value),
                    ErrorCode::InvalidJson => assert(values@[1] == value),
                    ErrorCode::UnsupportedProtocolVersion => assert(values@[2] == value),
                    ErrorCode::InvalidRequest => assert(values@[3] == value),
                    ErrorCode::InvalidDigest => assert(values@[4] == value),
                    ErrorCode::PreconditionFailed => assert(values@[5] == value),
                    ErrorCode::FileChanged => assert(values@[6] == value),
                    ErrorCode::FileAlias => assert(values@[7] == value),
                    ErrorCode::ExpectedPlanRequired => assert(values@[8] == value),
                    ErrorCode::ExpectedPlanMismatch => assert(values@[9] == value),
                    ErrorCode::PlanChangedDuringCommit => assert(values@[10] == value),
                    ErrorCode::EditConflict => assert(values@[11] == value),
                    ErrorCode::RecoveryConflict => assert(values@[12] == value),
                    ErrorCode::ResourceLimitExceeded => assert(values@[13] == value),
                    ErrorCode::UnsupportedPlatform => assert(values@[14] == value),
                    ErrorCode::UnsupportedFilesystem => assert(values@[15] == value),
                    ErrorCode::UnsupportedFileType => assert(values@[16] == value),
                    ErrorCode::SymlinkNotAllowed => assert(values@[17] == value),
                    ErrorCode::HardLinkNotSupported => assert(values@[18] == value),
                    ErrorCode::CrossDeviceTransaction => assert(values@[19] == value),
                    ErrorCode::NoReplaceUnavailable => assert(values@[20] == value),
                    ErrorCode::TransactionBusy => assert(values@[21] == value),
                    ErrorCode::TransactionRecoveryRequired => assert(values@[22] == value),
                    ErrorCode::TransactionNotFound => assert(values@[23] == value),
                    ErrorCode::RecoveryActionNotAllowed => assert(values@[24] == value),
                    ErrorCode::ControlDirectoryInvalid => assert(values@[25] == value),
                    ErrorCode::TransactionRecordCorrupt => assert(values@[26] == value),
                    ErrorCode::IoError => assert(values@[27] == value),
                    ErrorCode::InternalError => assert(values@[28] == value),
                }
            }
        }
        values
    }

    /// Returns the stable wire spelling.
    pub fn as_str(self) -> (text: &'static str)
        ensures
            text@ == code_text(self),
    {
        match self {
            ErrorCode::InvalidCli => "INVALID_CLI",
            ErrorCode::InvalidJson => "INVALID_JSON",
            ErrorCode::UnsupportedProtocolVersion => "UNSUPPORTED_PROTOCOL_VERSION",
            ErrorCode::InvalidRequest => "INVALID_REQUEST",
            ErrorCode::InvalidDigest => "INVALID_DIGEST",
            ErrorCode::PreconditionFailed => "PRECONDITION_FAILED",
            ErrorCode::FileChanged => "FILE_CHANGED",
            ErrorCode::FileAlias => "FILE_ALIAS",
            ErrorCode::ExpectedPlanRequired => "EXPECTED_PLAN_REQUIRED",
            ErrorCode::ExpectedPlanMismatch => "EXPECTED_PLAN_MISMATCH",
            ErrorCode::PlanChangedDuringCommit => "PLAN_CHANGED_DURING_COMMIT",
            ErrorCode::EditConflict => "EDIT_CONFLICT",
            ErrorCode::RecoveryConflict => "RECOVERY_CONFLICT",
            ErrorCode::ResourceLimitExceeded => "RESOURCE_LIMIT_EXCEEDED",
            ErrorCode::UnsupportedPlatform => "UNSUPPORTED_PLATFORM",
            ErrorCode::UnsupportedFilesystem => "UNSUPPORTED_FILESYSTEM",
            ErrorCode::UnsupportedFileType => "UNSUPPORTED_FILE_TYPE",
            ErrorCode::SymlinkNotAllowed => "SYMLINK_NOT_ALLOWED",
            ErrorCode::HardLinkNotSupported => "HARD_LINK_NOT_SUPPORTED",
            ErrorCode::CrossDeviceTransaction => "CROSS_DEVICE_TRANSACTION",
            ErrorCode::NoReplaceUnavailable => "NO_REPLACE_UNAVAILABLE",
            ErrorCode::TransactionBusy => "TRANSACTION_BUSY",
            ErrorCode::TransactionRecoveryRequired => "TRANSACTION_RECOVERY_REQUIRED",
            ErrorCode::TransactionNotFound => "TRANSACTION_NOT_FOUND",
            ErrorCode::RecoveryActionNotAllowed => "RECOVERY_ACTION_NOT_ALLOWED",
            ErrorCode::ControlDirectoryInvalid => "CONTROL_DIRECTORY_INVALID",
            ErrorCode::TransactionRecordCorrupt => "TRANSACTION_RECORD_CORRUPT",
            ErrorCode::IoError => "IO_ERROR",
            ErrorCode::InternalError => "INTERNAL_ERROR",
        }
    }

    /// Returns the documented category for this code.
    pub fn category(self) -> (category: ErrorCategory)
        ensures
            category == code_category(self),
    {
        match self {
            ErrorCode::InvalidCli
            | ErrorCode::InvalidJson
            | ErrorCode::UnsupportedProtocolVersion
            | ErrorCode::InvalidRequest
            | ErrorCode::InvalidDigest => ErrorCategory::Request,
            ErrorCode::PreconditionFailed
            | ErrorCode::FileChanged
            | ErrorCode::FileAlias
            | ErrorCode::ExpectedPlanRequired
            | ErrorCode::ExpectedPlanMismatch
            | ErrorCode::PlanChangedDuringCommit
            | ErrorCode::EditConflict
            | ErrorCode::RecoveryConflict => ErrorCategory::Conflict,
            ErrorCode::ResourceLimitExceeded
            | ErrorCode::UnsupportedPlatform
            | ErrorCode::UnsupportedFilesystem
            | ErrorCode::UnsupportedFileType
            | ErrorCode::SymlinkNotAllowed
            | ErrorCode::HardLinkNotSupported
            | ErrorCode::CrossDeviceTransaction
            | ErrorCode::NoReplaceUnavailable => ErrorCategory::Support,
            ErrorCode::TransactionBusy
            | ErrorCode::TransactionRecoveryRequired
            | ErrorCode::TransactionNotFound
            | ErrorCode::RecoveryActionNotAllowed => ErrorCategory::Transaction,
            ErrorCode::ControlDirectoryInvalid
            | ErrorCode::TransactionRecordCorrupt => ErrorCategory::Corruption,
            ErrorCode::IoError
            | ErrorCode::InternalError => ErrorCategory::Internal,
        }
    }

    /// Returns whether waiting and retrying may resolve the error.
    pub fn retryable(self) -> (retryable: bool)
        ensures
            retryable == (self == ErrorCode::TransactionBusy),
    {
        matches!(self, ErrorCode::TransactionBusy)
    }
}

/// A structured edit error.
#[derive(Clone, Debug, PartialEq)]
pub struct ErrorDto {
    /// The stable error code.
    pub code: ErrorCode,
    /// The human-readable message before terminal escaping.
    pub message: String,
    /// Structured context, by key.
    pub context: TextMap<Json>,
}

/// The mathematical value of an [`ErrorDto`].
#[verifier::ext_equal]
pub struct ErrorView {
    pub code: ErrorCode,
    pub message: Seq<char>,
    pub context: Seq<(Seq<char>, JsonView)>,
}

impl View for ErrorDto {
    type V = ErrorView;

    open spec fn view(&self) -> ErrorView {
        ErrorView {
            code: self.code,
            message: self.message@,
            context: self.context@,
        }
    }
}

/// The structured form of an error: code, category, retryability, message, and
/// context.
pub open spec fn error_json(error: ErrorView) -> JsonView {
    JsonView::Object(
        seq![
            ("code"@, JsonView::String(code_text(error.code))),
            ("category"@, JsonView::String(category_text(code_category(error.code)))),
            ("retryable"@, JsonView::Bool(error.code == ErrorCode::TransactionBusy)),
            ("message"@, JsonView::String(error.message)),
            ("context"@, JsonView::Object(error.context)),
        ],
    )
}

/// The line shown for an error: the program's name, the code, and the message
/// with its unsafe characters spelled out.
pub open spec fn error_line(code: Seq<char>, message: Seq<char>) -> Seq<char> {
    "srcmv: "@ + code + ": "@ + terminal::escaped(message) + "\n"@
}

/// Returns the line shown for an error.
pub fn human_error_line(code: &str, message: &str) -> (line: String)
    ensures
        line@ == error_line(code@, message@),
{
    let mut line = "srcmv: ".to_owned();
    line.append(code);
    line.append(": ");
    line.append(escape_terminal_text(message).as_str());
    line.append("\n");
    line
}

/// Returns the process status for an error: its own where the report was
/// written, and 8 where it was not.
pub fn error_status(exit_code: u8, written: bool) -> (status: u8)
    ensures
        status == if written {
            exit_code
        } else {
            8
        },
{
    if written {
        exit_code
    } else {
        8
    }
}

impl ErrorDto {
    /// Creates an error.
    /// The context is kept as a map: in key order, with the last value given for
    /// each key.
    pub fn new(code: ErrorCode, message: &str, context: Vec<(String, Json)>) -> (error: Self)
        ensures
            error@ == (ErrorView {
                code,
                message: message@,
                context: text_map::ordered(json::members_view(context@)),
            }),
            text_map::is_ordered(error@.context),
            text_map::is_ordered(json::members_view(context@)) ==> error@.context
                == json::members_view(context@),
    {
        ErrorDto { code, message: message.to_owned(), context: TextMap::from_entries(context) }
    }

    /// Returns the stable error code.
    pub fn code(&self) -> (code: ErrorCode)
        ensures
            code == self@.code,
    {
        self.code
    }

    /// Returns the process exit status associated with this error.
    pub fn exit_code(&self) -> (code: u8)
        ensures
            code == category_exit_code(code_category(self@.code)),
    {
        self.code.category().exit_code()
    }

    /// Returns the human-readable message before terminal escaping.
    pub fn message(&self) -> (message: &str)
        ensures
            message@ == self@.message,
    {
        self.message.as_str()
    }

    /// Returns the structured error context.
    pub fn context(&self) -> (context: &Vec<(String, Json)>)
        ensures
            json::members_view(context@) == self@.context,
            text_map::is_ordered(self@.context),
    {
        self.context.entries()
    }

    /// Returns the line shown for this error.
    pub fn line(&self) -> (line: String)
        ensures
            line@ == error_line(code_text(self@.code), self@.message),
    {
        human_error_line(self.code.as_str(), self.message.as_str())
    }

    /// Returns the structured form.
    pub fn to_json(&self) -> (value: Json)
        ensures
            value@ == error_json(self@),
    {
        let members = vec![
            named("code", json_text(self.code.as_str())),
            named("category", json_text(self.code.category().as_str())),
            named("retryable", Json::Bool(self.code.retryable())),
            named("message", json_text(self.message.as_str())),
            named("context", json_object(copy_members(self.context.entries()))),
        ];
        assert(json::members_view(members@) =~= error_json(self@)->Object_0);
        json_object(members)
    }
}

/// How the planning model refused acquired data.
#[derive(Clone, Debug, PartialEq, Eq)]
pub enum CoreError {
    /// A resource limit was exceeded.
    ResourceLimitExceeded { resource: String, actual: u64, limit: u64 },
    /// Two edits conflict.
    EditConflict { reason: String, operation_index: u64 },
    /// A changing output has several hard links.
    HardLinkNotSupported { path: String, link_count: u64 },
    /// Any other refusal, by its text.
    Other { message: String },
}

/// How the workspace refused an operation.
#[derive(Clone, Debug, PartialEq, Eq)]
#[allow(inconsistent_fields)]
pub enum FsError {
    /// The platform is not supported.
    UnsupportedPlatform,
    /// The workspace root is not a directory.
    WorkspaceRootNotDirectory,
    /// A path is malformed.
    InvalidPath { path: String, reason: String },
    /// A path traverses or names a symbolic link.
    SymlinkNotAllowed { path: String },
    /// A path is not a regular file.
    UnsupportedFileType { path: String },
    /// A path does not exist.
    PathNotFound { path: String },
    /// A path precondition does not hold.
    PreconditionFailed {
        path: String,
        expected: Option<Sha256Digest>,
        actual: Option<Sha256Digest>,
    },
    /// One path has incompatible preconditions.
    IncompatiblePrecondition { path: String },
    /// Two paths name one existing file.
    FileAlias { first_path: String, second_path: String },
    /// A file did not stay stable.
    FileChanged { path: String, attempts: u64 },
    /// A resource limit was exceeded.
    ResourceLimitExceeded { resource: String, actual: u64, limit: u64 },
    /// Control directory and changed target are on different filesystems.
    CrossDeviceTransaction,
    /// The no-replace rename is unavailable.
    NoReplaceUnavailable,
    /// The filesystem is not supported.
    UnsupportedFilesystem { filesystem: String },
    /// An incompatible lock is held.
    TransactionBusy,
    /// Unfinished transactions need recovery.
    TransactionRecoveryRequired { transaction_ids: Vec<String> },
    /// No such transaction exists.
    TransactionNotFound { transaction_id: String },
    /// The recovery action is not safe now.
    RecoveryActionNotAllowed { transaction_id: String, reason: String },
    /// The control tree is invalid.
    ControlDirectoryInvalid { reason: String },
    /// A control tree of a former product identity holds unfinished state.
    LegacyControlState { name: String },
    /// A transaction record is corrupt.
    TransactionRecordCorrupt { transaction_id: Option<String>, reason: String },
    /// The files conflict with the journal.
    RecoveryConflict { reason: String },
    /// An input or output operation failed.
    Io { operation: String, path: Option<String>, kind: String },
    /// The planning model refused acquired data.
    Core(CoreError),
    /// An invariant of inspection failed.
    InternalInvariant { broken: String },
    /// A refusal of no known kind.
    Unrecognized,
}

/// What is reported of a path: an absolute path is not repeated.
pub open spec fn redacted(path: Seq<char>) -> Seq<char> {
    if path.len() > 0 && path[0] == '/' {
        "<redacted absolute path>"@
    } else {
        path
    }
}

/// Returns what is reported of a path.
pub fn redact_path(path: &str) -> (shown: String)
    ensures
        shown@ == redacted(path@),
{
    let absolute = path.unicode_len() > 0 && path.get_char(0) == '/';
    if absolute {
        "<redacted absolute path>".to_owned()
    } else {
        path.to_owned()
    }
}

/// The textual form of an optional digest.
pub open spec fn optional_digest_json(digest: Option<Sha256Digest>) -> JsonView {
    match digest {
        Some(digest) => JsonView::String(digest::prefixed_hex(digest.0@)),
        None => JsonView::Null,
    }
}

/// Returns the textual form of an optional digest.
pub fn json_optional_digest(digest: &Option<Sha256Digest>) -> (value: Json)
    ensures
        value@ == optional_digest_json(*digest),
{
    match digest {
        Some(digest) => json_text(digest.to_prefixed_hex().as_str()),
        None => Json::Null,
    }
}

/// The report for an exceeded resource limit.
pub open spec fn limit_report(resource: Seq<char>, actual: u64, limit: u64) -> ErrorView {
    ErrorView {
        code: ErrorCode::ResourceLimitExceeded,
        message: "a command resource limit was exceeded"@,
        context: seq![
            ("actual"@, json::number_json(actual)),
            ("limit"@, json::number_json(limit)),
            ("resource"@, JsonView::String(resource)),
        ],
    }
}

/// Returns the report for an exceeded resource limit.
pub fn limit_error(resource: &str, actual: u64, limit: u64) -> (error: ErrorDto)
    ensures
        error@ == limit_report(resource@, actual, limit),
{
    proof {
        wire::lemma_context_keys_ascend();
    }
    let context = vec![
        named("actual", json_number(actual)),
        named("limit", json_number(limit)),
        named("resource", json_text(resource)),
    ];
    assert(json::members_view(context@) =~= limit_report(resource@, actual, limit).context);
    ErrorDto::new(
        ErrorCode::ResourceLimitExceeded,
        "a command resource limit was exceeded",
        context,
    )
}

/// The report for a held lock.
pub open spec fn busy_report() -> ErrorView {
    ErrorView {
        code: ErrorCode::TransactionBusy,
        message: "an incompatible workspace lock is held; wait and retry; never bypass or remove the lock"@,
        context: seq![
            ("lock_state"@, JsonView::String("contended"@)),
            ("recovery_required"@, JsonView::String("unknown"@)),
            ("safe_next_action"@, JsonView::String("wait_then_retry"@)),
        ],
    }
}

/// Returns the report for a held lock.
pub fn transaction_busy_error() -> (error: ErrorDto)
    ensures
        error@ == busy_report(),
{
    proof {
        wire::lemma_context_keys_ascend();
    }
    let context = vec![
        named("lock_state", json_text("contended")),
        named("recovery_required", json_text("unknown")),
        named("safe_next_action", json_text("wait_then_retry")),
    ];
    assert(json::members_view(context@) =~= busy_report().context);
    ErrorDto::new(
        ErrorCode::TransactionBusy,
        "an incompatible workspace lock is held; wait and retry; never bypass or remove the lock",
        context,
    )
}

/// The report for a refusal of the planning model.
pub open spec fn core_report(error: CoreError) -> ErrorView {
    match error {
        CoreError::ResourceLimitExceeded { resource, actual, limit } => limit_report(
            resource@,
            actual,
            limit,
        ),
        CoreError::EditConflict { reason, operation_index } => ErrorView {
            code: ErrorCode::EditConflict,
            message: "the requested edits conflict under immutable-snapshot semantics"@,
            context: seq![
                ("operation_index"@, json::number_json(operation_index)),
                ("reason"@, JsonView::String(reason@)),
            ],
        },
        CoreError::HardLinkNotSupported { path, link_count } => ErrorView {
            code: ErrorCode::HardLinkNotSupported,
            message: "a changing output has multiple hard links"@,
            context: seq![
                ("link_count"@, json::number_json(link_count)),
                ("path"@, JsonView::String(path@)),
            ],
        },
        CoreError::Other { message } => ErrorView {
            code: ErrorCode::InternalError,
            message: "the core planning model rejected acquired data"@,
            context: seq![
                ("reason"@, JsonView::String(message@)),
            ],
        },
    }
}

/// Returns the report for a refusal of the planning model.
pub fn core_error(error: &CoreError) -> (report: ErrorDto)
    ensures
        report@ == core_report(*error),
{
    proof {
        wire::lemma_context_keys_ascend();
    }
    match error {
        CoreError::ResourceLimitExceeded { resource, actual, limit } => limit_error(
            resource.as_str(),
            *actual,
            *limit,
        ),
        CoreError::EditConflict { reason, operation_index } => {
            let context = vec![
                named("operation_index", json_number(*operation_index)),
                named("reason", json_text(reason.as_str())),
            ];
            assert(json::members_view(context@) =~= core_report(*error).context);
            ErrorDto::new(
                ErrorCode::EditConflict,
                "the requested edits conflict under immutable-snapshot semantics",
                context,
            )
        },
        CoreError::HardLinkNotSupported { path, link_count } => {
            let context = vec![
                named("link_count", json_number(*link_count)),
                named("path", json_text(path.as_str())),
            ];
            assert(json::members_view(context@) =~= core_report(*error).context);
            ErrorDto::new(
                ErrorCode::HardLinkNotSupported,
                "a changing output has multiple hard links",
                context,
            )
        },
        CoreError::Other { message } => {
            let context = vec![
                named("reason", json_text(message.as_str())),
            ];
            assert(json::members_view(context@) =~= core_report(*error).context);
            ErrorDto::new(
                ErrorCode::InternalError,
                "the core planning model rejected acquired data",
                context,
            )
        },
    }
}

/// The message for the control tree of a former product identity.
pub open spec fn legacy_message(name: Seq<char>) -> Seq<char> {
    name + " holds unfinished transaction state from the former product identity; finish or remove it with the former tool before running srcmv in this workspace"@
}

/// The report for a refusal of the workspace.
pub open spec fn filesystem_report(error: FsError) -> ErrorView {
    match error {
        FsError::UnsupportedPlatform => ErrorView {
            code: ErrorCode::UnsupportedPlatform,
            message: "workspace inspection requires Linux or macOS"@,
            context: Seq::empty(),
        },
        FsError::WorkspaceRootNotDirectory => ErrorView {
            code: ErrorCode::InvalidRequest,
            message: "the selected workspace root is not a directory"@,
            context: seq![
                ("reason"@, JsonView::String("workspace_not_directory"@)),
            ],
        },
        FsError::InvalidPath { path, reason } => ErrorView {
            code: ErrorCode::InvalidRequest,
            message: "an inspection path is invalid"@,
            context: seq![
                ("path"@, JsonView::String(redacted(path@))),
                ("reason"@, JsonView::String(reason@)),
            ],
        },
        FsError::SymlinkNotAllowed { path } => ErrorView {
            code: ErrorCode::SymlinkNotAllowed,
            message: "an inspection path traverses or names a symbolic link"@,
            context: seq![
                ("path"@, JsonView::String(path@)),
            ],
        },
        FsError::UnsupportedFileType { path } => ErrorView {
            code: ErrorCode::UnsupportedFileType,
            message: "an inspection path is not a regular file"@,
            context: seq![
                ("path"@, JsonView::String(path@)),
            ],
        },
        FsError::PathNotFound { path } => ErrorView {
            code: ErrorCode::InvalidRequest,
            message: "an inspection path does not exist"@,
            context: seq![
                ("path"@, JsonView::String(path@)),
            ],
        },
        FsError::PreconditionFailed { path, expected, actual } => ErrorView {
            code: ErrorCode::PreconditionFailed,
            message: "a path precondition does not match the stable workspace state"@,
            context: seq![
                ("actual"@, optional_digest_json(actual)),
                ("expected"@, optional_digest_json(expected)),
                ("path"@, JsonView::String(path@)),
            ],
        },
        FsError::IncompatiblePrecondition { path } => ErrorView {
            code: ErrorCode::EditConflict,
            message: "one path has incompatible preconditions"@,
            context: seq![
                ("path"@, JsonView::String(path@)),
                ("reason"@, JsonView::String("incompatible_preconditions"@)),
            ],
        },
        FsError::FileAlias { first_path, second_path } => ErrorView {
            code: ErrorCode::FileAlias,
            message: "distinct paths identify the same existing file"@,
            context: seq![
                ("first_path"@, JsonView::String(first_path@)),
                ("second_path"@, JsonView::String(second_path@)),
            ],
        },
        FsError::FileChanged { path, attempts } => ErrorView {
            code: ErrorCode::FileChanged,
            message: "a file remained unstable during bounded snapshot acquisition"@,
            context: seq![
                ("attempts"@, json::number_json(attempts)),
                ("path"@, JsonView::String(path@)),
            ],
        },
        FsError::CrossDeviceTransaction => ErrorView {
            code: ErrorCode::CrossDeviceTransaction,
            message: "the control directory and changed target parent are on different filesystems"@,
            context: Seq::empty(),
        },
        FsError::NoReplaceUnavailable => ErrorView {
            code: ErrorCode::NoReplaceUnavailable,
            message: "the required no-replace rename primitive is unavailable"@,
            context: Seq::empty(),
        },
        FsError::UnsupportedFilesystem { filesystem } => ErrorView {
            code: ErrorCode::UnsupportedFilesystem,
            message: "commit requires a qualified local ext4 or APFS filesystem"@,
            context: seq![
                ("filesystem"@, JsonView::String(filesystem@)),
            ],
        },
        FsError::TransactionRecoveryRequired { transaction_ids } => ErrorView {
            code: ErrorCode::TransactionRecoveryRequired,
            message: "unfinished transactions require explicit recovery"@,
            context: seq![
                ("transaction_ids"@, wire::texts_json(order::path_view(transaction_ids@))),
            ],
        },
        FsError::TransactionNotFound { transaction_id } => ErrorView {
            code: ErrorCode::TransactionNotFound,
            message: "the requested transaction does not exist"@,
            context: seq![
                ("transaction_id"@, JsonView::String(transaction_id@)),
            ],
        },
        FsError::RecoveryActionNotAllowed { transaction_id, reason } => ErrorView {
            code: ErrorCode::RecoveryActionNotAllowed,
            message: "the requested recovery action is not safe in the current state"@,
            context: seq![
                ("reason"@, JsonView::String(reason@)),
                ("transaction_id"@, JsonView::String(transaction_id@)),
            ],
        },
        FsError::ControlDirectoryInvalid { reason } => ErrorView {
            code: ErrorCode::ControlDirectoryInvalid,
            message: "the workspace control tree is invalid"@,
            context: seq![
                ("reason"@, JsonView::String(reason@)),
            ],
        },
        FsError::RecoveryConflict { reason } => ErrorView {
            code: ErrorCode::RecoveryConflict,
            message: "filesystem observations conflict with the transaction journal"@,
            context: seq![
                ("reason"@, JsonView::String(reason@)),
            ],
        },
        FsError::InternalInvariant { broken } => ErrorView {
            code: ErrorCode::InternalError,
            message: "an internal workspace inspection invariant failed"@,
            context: seq![
                ("invariant"@, JsonView::String(broken@)),
            ],
        },
        FsError::Unrecognized => ErrorView {
            code: ErrorCode::InternalError,
            message: "an unrecognized filesystem error occurred"@,
            context: Seq::empty(),
        },
        FsError::ResourceLimitExceeded { resource, actual, limit } => limit_report(
            resource@,
            actual,
            limit,
        ),
        FsError::TransactionBusy => busy_report(),
        FsError::LegacyControlState { name } => ErrorView {
            code: ErrorCode::ControlDirectoryInvalid,
            message: legacy_message(name@),
            context: seq![
                ("path"@, JsonView::String(name@)),
                ("reason"@, JsonView::String("legacy_control_state"@)),
            ],
        },
        FsError::TransactionRecordCorrupt { transaction_id, reason } => ErrorView {
            code: ErrorCode::TransactionRecordCorrupt,
            message: "a transaction record is corrupt"@,
            context: match transaction_id {
                Some(transaction_id) => seq![
                    ("reason"@, JsonView::String(reason@)),
                    ("transaction_id"@, JsonView::String(transaction_id@)),
                ],
                None => seq![("reason"@, JsonView::String(reason@))],
            },
        },
        FsError::Io { operation, path, kind } => ErrorView {
            code: ErrorCode::IoError,
            message: "workspace operation failed"@,
            context: match path {
                Some(path) => seq![
                    ("io_kind"@, JsonView::String(kind@)),
                    ("operation"@, JsonView::String(operation@)),
                    ("path"@, JsonView::String(path@)),
                ],
                None => seq![
                    ("io_kind"@, JsonView::String(kind@)),
                    ("operation"@, JsonView::String(operation@)),
                ],
            },
        },
        FsError::Core(error) => core_report(error),
    }
}

/// The context of every report for a refusal of the workspace is in key order.
proof fn lemma_filesystem_contexts_ascend(error: FsError)
    ensures
        text_map::is_ordered(filesystem_report(error).context),
{
    wire::lemma_context_keys_ascend();
}

/// Creates an error of a context that is in key order.
fn ordered_error(code: ErrorCode, message: &str, context: Vec<(String, Json)>) -> (error: ErrorDto)
    requires
        text_map::is_ordered(json::members_view(context@)),
    ensures
        error@ == (ErrorView {
            code,
            message: message@,
            context: json::members_view(context@),
        }),
{
    ErrorDto::new(code, message, context)
}

/// Returns the report for a refusal of the workspace.
pub fn filesystem_error(error: &FsError) -> (report: ErrorDto)
    ensures
        report@ == filesystem_report(*error),
{
    proof {
        lemma_filesystem_contexts_ascend(*error);
    }
    match error {
        FsError::UnsupportedPlatform => {
            let context: Vec<(String, Json)> = Vec::new();
            assert(json::members_view(context@) =~= filesystem_report(*error).context);
            ordered_error(
                ErrorCode::UnsupportedPlatform,
                "workspace inspection requires Linux or macOS",
                context,
            )
        },
        FsError::WorkspaceRootNotDirectory => {
            let context = vec![
                named("reason", json_text("workspace_not_directory")),
            ];
            assert(json::members_view(context@) =~= filesystem_report(*error).context);
            ordered_error(
                ErrorCode::InvalidRequest,
                "the selected workspace root is not a directory",
                context,
            )
        },
        FsError::InvalidPath { path, reason } => {
            let context = vec![
                named("path", json_text(redact_path(path.as_str()).as_str())),
                named("reason", json_text(reason.as_str())),
            ];
            assert(json::members_view(context@) =~= filesystem_report(*error).context);
            ordered_error(
                ErrorCode::InvalidRequest,
                "an inspection path is invalid",
                context,
            )
        },
        FsError::SymlinkNotAllowed { path } => {
            let context = vec![
                named("path", json_text(path.as_str())),
            ];
            assert(json::members_view(context@) =~= filesystem_report(*error).context);
            ordered_error(
                ErrorCode::SymlinkNotAllowed,
                "an inspection path traverses or names a symbolic link",
                context,
            )
        },
        FsError::UnsupportedFileType { path } => {
            let context = vec![
                named("path", json_text(path.as_str())),
            ];
            assert(json::members_view(context@) =~= filesystem_report(*error).context);
            ordered_error(
                ErrorCode::UnsupportedFileType,
                "an inspection path is not a regular file",
                context,
            )
        },
        FsError::PathNotFound { path } => {
            let context = vec![
                named("path", json_text(path.as_str())),
            ];
            assert(json::members_view(context@) =~= filesystem_report(*error).context);
            ordered_error(
                ErrorCode::InvalidRequest,
                "an inspection path does not exist",
                context,
            )
        },
        FsError::PreconditionFailed { path, expected, actual } => {
            let context = vec![
                named("actual", json_optional_digest(actual)),
                named("expected", json_optional_digest(expected)),
                named("path", json_text(path.as_str())),
            ];
            assert(json::members_view(context@) =~= filesystem_report(*error).context);
            ordered_error(
                ErrorCode::PreconditionFailed,
                "a path precondition does not match the stable workspace state",
                context,
            )
        },
        FsError::IncompatiblePrecondition { path } => {
            let context = vec![
                named("path", json_text(path.as_str())),
                named("reason", json_text("incompatible_preconditions")),
            ];
            assert(json::members_view(context@) =~= filesystem_report(*error).context);
            ordered_error(
                ErrorCode::EditConflict,
                "one path has incompatible preconditions",
                context,
            )
        },
        FsError::FileAlias { first_path, second_path } => {
            let context = vec![
                named("first_path", json_text(first_path.as_str())),
                named("second_path", json_text(second_path.as_str())),
            ];
            assert(json::members_view(context@) =~= filesystem_report(*error).context);
            ordered_error(
                ErrorCode::FileAlias,
                "distinct paths identify the same existing file",
                context,
            )
        },
        FsError::FileChanged { path, attempts } => {
            let context = vec![
                named("attempts", json_number(*attempts)),
                named("path", json_text(path.as_str())),
            ];
            assert(json::members_view(context@) =~= filesystem_report(*error).context);
            ordered_error(
                ErrorCode::FileChanged,
                "a file remained unstable during bounded snapshot acquisition",
                context,
            )
        },
        FsError::CrossDeviceTransaction => {
            let context: Vec<(String, Json)> = Vec::new();
            assert(json::members_view(context@) =~= filesystem_report(*error).context);
            ordered_error(
                ErrorCode::CrossDeviceTransaction,
                "the control directory and changed target parent are on different filesystems",
                context,
            )
        },
        FsError::NoReplaceUnavailable => {
            let context: Vec<(String, Json)> = Vec::new();
            assert(json::members_view(context@) =~= filesystem_report(*error).context);
            ordered_error(
                ErrorCode::NoReplaceUnavailable,
                "the required no-replace rename primitive is unavailable",
                context,
            )
        },
        FsError::UnsupportedFilesystem { filesystem } => {
            let context = vec![
                named("filesystem", json_text(filesystem.as_str())),
            ];
            assert(json::members_view(context@) =~= filesystem_report(*error).context);
            ordered_error(
                ErrorCode::UnsupportedFilesystem,
                "commit requires a qualified local ext4 or APFS filesystem",
                context,
            )
        },
        FsError::TransactionRecoveryRequired { transaction_ids } => {
            let context = vec![
                named("transaction_ids", json_texts(transaction_ids)),
            ];
            assert(json::members_view(context@) =~= filesystem_report(*error).context);
            ordered_error(
                ErrorCode::TransactionRecoveryRequired,
                "unfinished transactions require explicit recovery",
                context,
            )
        },
        FsError::TransactionNotFound { transaction_id } => {
            let context = vec![
                named("transaction_id", json_text(transaction_id.as_str())),
            ];
            assert(json::members_view(context@) =~= filesystem_report(*error).context);
            ordered_error(
                ErrorCode::TransactionNotFound,
                "the requested transaction does not exist",
                context,
            )
        },
        FsError::RecoveryActionNotAllowed { transaction_id, reason } => {
            let context = vec![
                named("reason", json_text(reason.as_str())),
                named("transaction_id", json_text(transaction_id.as_str())),
            ];
            assert(json::members_view(context@) =~= filesystem_report(*error).context);
            ordered_error(
                ErrorCode::RecoveryActionNotAllowed,
                "the requested recovery action is not safe in the current state",
                context,
            )
        },
        FsError::ControlDirectoryInvalid { reason } => {
            let context = vec![
                named("reason", json_text(reason.as_str())),
            ];
            assert(json::members_view(context@) =~= filesystem_report(*error).context);
            ordered_error(
                ErrorCode::ControlDirectoryInvalid,
                "the workspace control tree is invalid",
                context,
            )
        },
        FsError::RecoveryConflict { reason } => {
            let context = vec![
                named("reason", json_text(reason.as_str())),
            ];
            assert(json::members_view(context@) =~= filesystem_report(*error).context);
            ordered_error(
                ErrorCode::RecoveryConflict,
                "filesystem observations conflict with the transaction journal",
                context,
            )
        },
        FsError::InternalInvariant { broken } => {
            let context = vec![
                named("invariant", json_text(broken.as_str())),
            ];
            assert(json::members_view(context@) =~= filesystem_report(*error).context);
            ordered_error(
                ErrorCode::InternalError,
                "an internal workspace inspection invariant failed",
                context,
            )
        },
        FsError::Unrecognized => {
            let context: Vec<(String, Json)> = Vec::new();
            assert(json::members_view(context@) =~= filesystem_report(*error).context);
            ordered_error(
                ErrorCode::InternalError,
                "an unrecognized filesystem error occurred",
                context,
            )
        },
        FsError::ResourceLimitExceeded { resource, actual, limit } => limit_error(
            resource.as_str(),
            *actual,
            *limit,
        ),
        FsError::TransactionBusy => transaction_busy_error(),
        FsError::LegacyControlState { name } => {
            let mut message = name.clone();
            message.append(
                " holds unfinished transaction state from the former product identity; finish or remove it with the former tool before running srcmv in this workspace",
            );
            let context = vec![
                named("path", json_text(name.as_str())),
                named("reason", json_text("legacy_control_state")),
            ];
            assert(json::members_view(context@) =~= filesystem_report(*error).context);
            ordered_error(ErrorCode::ControlDirectoryInvalid, message.as_str(), context)
        },
        FsError::TransactionRecordCorrupt { transaction_id, reason } => {
            let mut context = vec![named("reason", json_text(reason.as_str()))];
            if let Some(transaction_id) = transaction_id {
                context.push(named("transaction_id", json_text(transaction_id.as_str())));
            }
            assert(json::members_view(context@) =~= filesystem_report(*error).context);
            ordered_error(
                ErrorCode::TransactionRecordCorrupt,
                "a transaction record is corrupt",
                context,
            )
        },
        FsError::Io { operation, path, kind } => {
            let mut context = vec![
                named("io_kind", json_text(kind.as_str())),
                named("operation", json_text(operation.as_str())),
            ];
            if let Some(path) = path {
                context.push(named("path", json_text(path.as_str())));
            }
            assert(json::members_view(context@) =~= filesystem_report(*error).context);
            ordered_error(ErrorCode::IoError, "workspace operation failed", context)
        },
        FsError::Core(error) => core_error(error),
    }
}

/// No two edit error codes share a spelling.
pub proof fn law_error_codes_are_unique(left: ErrorCode, right: ErrorCode)
    requires
        code_text(left) == code_text(right),
    ensures
        left == right,
{
    reveal_strlit("INVALID_CLI");
    reveal_strlit("INVALID_JSON");
    reveal_strlit("UNSUPPORTED_PROTOCOL_VERSION");
    reveal_strlit("INVALID_REQUEST");
    reveal_strlit("INVALID_DIGEST");
    reveal_strlit("PRECONDITION_FAILED");
    reveal_strlit("FILE_CHANGED");
    reveal_strlit("FILE_ALIAS");
    reveal_strlit("EXPECTED_PLAN_REQUIRED");
    reveal_strlit("EXPECTED_PLAN_MISMATCH");
    reveal_strlit("PLAN_CHANGED_DURING_COMMIT");
    reveal_strlit("EDIT_CONFLICT");
    reveal_strlit("RECOVERY_CONFLICT");
    reveal_strlit("RESOURCE_LIMIT_EXCEEDED");
    reveal_strlit("UNSUPPORTED_PLATFORM");
    reveal_strlit("UNSUPPORTED_FILESYSTEM");
    reveal_strlit("UNSUPPORTED_FILE_TYPE");
    reveal_strlit("SYMLINK_NOT_ALLOWED");
    reveal_strlit("HARD_LINK_NOT_SUPPORTED");
    reveal_strlit("CROSS_DEVICE_TRANSACTION");
    reveal_strlit("NO_REPLACE_UNAVAILABLE");
    reveal_strlit("TRANSACTION_BUSY");
    reveal_strlit("TRANSACTION_RECOVERY_REQUIRED");
    reveal_strlit("TRANSACTION_NOT_FOUND");
    reveal_strlit("RECOVERY_ACTION_NOT_ALLOWED");
    reveal_strlit("CONTROL_DIRECTORY_INVALID");
    reveal_strlit("TRANSACTION_RECORD_CORRUPT");
    reveal_strlit("IO_ERROR");
    reveal_strlit("INTERNAL_ERROR");
    let length = code_text(left).len();
    assert(length == code_text(right).len());
    assert("INVALID_CLI"@.len() == 11);
    assert("INVALID_JSON"@.len() == 12);
    assert("UNSUPPORTED_PROTOCOL_VERSION"@.len() == 28);
    assert("INVALID_REQUEST"@.len() == 15);
    assert("INVALID_DIGEST"@.len() == 14);
    assert("PRECONDITION_FAILED"@.len() == 19);
    assert("FILE_CHANGED"@.len() == 12);
    assert("FILE_ALIAS"@.len() == 10);
    assert("EXPECTED_PLAN_REQUIRED"@.len() == 22);
    assert("EXPECTED_PLAN_MISMATCH"@.len() == 22);
    assert("PLAN_CHANGED_DURING_COMMIT"@.len() == 26);
    assert("EDIT_CONFLICT"@.len() == 13);
    assert("RECOVERY_CONFLICT"@.len() == 17);
    assert("RESOURCE_LIMIT_EXCEEDED"@.len() == 23);
    assert("UNSUPPORTED_PLATFORM"@.len() == 20);
    assert("UNSUPPORTED_FILESYSTEM"@.len() == 22);
    assert("UNSUPPORTED_FILE_TYPE"@.len() == 21);
    assert("SYMLINK_NOT_ALLOWED"@.len() == 19);
    assert("HARD_LINK_NOT_SUPPORTED"@.len() == 23);
    assert("CROSS_DEVICE_TRANSACTION"@.len() == 24);
    assert("NO_REPLACE_UNAVAILABLE"@.len() == 22);
    assert("TRANSACTION_BUSY"@.len() == 16);
    assert("TRANSACTION_RECOVERY_REQUIRED"@.len() == 29);
    assert("TRANSACTION_NOT_FOUND"@.len() == 21);
    assert("RECOVERY_ACTION_NOT_ALLOWED"@.len() == 27);
    assert("CONTROL_DIRECTORY_INVALID"@.len() == 25);
    assert("TRANSACTION_RECORD_CORRUPT"@.len() == 26);
    assert("IO_ERROR"@.len() == 8);
    assert("INTERNAL_ERROR"@.len() == 14);
    assert("INVALID_JSON"@[0] != "FILE_CHANGED"@[0] && "INVALID_JSON"@ != "FILE_CHANGED"@);
    assert("INVALID_DIGEST"@[2] != "INTERNAL_ERROR"@[2] && "INVALID_DIGEST"@ != "INTERNAL_ERROR"@);
    assert("PRECONDITION_FAILED"@[0] != "SYMLINK_NOT_ALLOWED"@[0] && "PRECONDITION_FAILED"@ != "SYMLINK_NOT_ALLOWED"@);
    assert("EXPECTED_PLAN_REQUIRED"@[14] != "EXPECTED_PLAN_MISMATCH"@[14] && "EXPECTED_PLAN_REQUIRED"@ != "EXPECTED_PLAN_MISMATCH"@);
    assert("EXPECTED_PLAN_REQUIRED"@[0] != "UNSUPPORTED_FILESYSTEM"@[0] && "EXPECTED_PLAN_REQUIRED"@ != "UNSUPPORTED_FILESYSTEM"@);
    assert("EXPECTED_PLAN_REQUIRED"@[0] != "NO_REPLACE_UNAVAILABLE"@[0] && "EXPECTED_PLAN_REQUIRED"@ != "NO_REPLACE_UNAVAILABLE"@);
    assert("EXPECTED_PLAN_MISMATCH"@[0] != "UNSUPPORTED_FILESYSTEM"@[0] && "EXPECTED_PLAN_MISMATCH"@ != "UNSUPPORTED_FILESYSTEM"@);
    assert("EXPECTED_PLAN_MISMATCH"@[0] != "NO_REPLACE_UNAVAILABLE"@[0] && "EXPECTED_PLAN_MISMATCH"@ != "NO_REPLACE_UNAVAILABLE"@);
    assert("PLAN_CHANGED_DURING_COMMIT"@[0] != "TRANSACTION_RECORD_CORRUPT"@[0] && "PLAN_CHANGED_DURING_COMMIT"@ != "TRANSACTION_RECORD_CORRUPT"@);
    assert("RESOURCE_LIMIT_EXCEEDED"@[0] != "HARD_LINK_NOT_SUPPORTED"@[0] && "RESOURCE_LIMIT_EXCEEDED"@ != "HARD_LINK_NOT_SUPPORTED"@);
    assert("UNSUPPORTED_FILESYSTEM"@[0] != "NO_REPLACE_UNAVAILABLE"@[0] && "UNSUPPORTED_FILESYSTEM"@ != "NO_REPLACE_UNAVAILABLE"@);
    assert("UNSUPPORTED_FILE_TYPE"@[0] != "TRANSACTION_NOT_FOUND"@[0] && "UNSUPPORTED_FILE_TYPE"@ != "TRANSACTION_NOT_FOUND"@);
}

/// Every report of a held lock is marked retryable and has the one documented
/// context.
pub proof fn law_busy_reports_are_uniform(error: FsError)
    requires
        filesystem_report(error).code == ErrorCode::TransactionBusy,
    ensures
        filesystem_report(error) == busy_report(),
        error_json(filesystem_report(error))->Object_0[2] == ("retryable"@, JsonView::Bool(true)),
{
}

/// The report for a malformed path never repeats an absolute path.
pub proof fn law_absolute_paths_are_redacted(path: String, reason: String)
    requires
        path@.len() > 0,
        path@[0] == '/',
    ensures
        filesystem_report(FsError::InvalidPath { path, reason }).context[0] == (
            "path"@,
            JsonView::String("<redacted absolute path>"@),
        ),
{
}

} // verus!
