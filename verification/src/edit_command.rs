//! The decisions of the edit commands: what inspection, commit, and recovery
//! do next, given what the workspace answered.

use vstd::prelude::*;
use vstd::string::StringExecFns;

use crate::edit_report;
use crate::edit_report::{
    filesystem_error, limit_error, redact_path, ErrorCode, ErrorDto, ErrorView, FsError,
};
use crate::json;
use crate::json::{json_text, named, Json, JsonView};
use crate::order;
use crate::text;
use crate::text::text_equal;
use crate::wire;
use crate::wire::{push_joined, WarningCode, WarningDto, MAX_RESPONSE_BYTES};

verus! {

/// The most paths that one command names.
pub const MAX_OPERATION_PATHS: u64 = 1_000;

/// The most UTF-8 bytes of one path.
pub const MAX_PATH_BYTES: u64 = 4_096;

/// The most bytes of one request.
pub const MAX_REQUEST_BYTES: u64 = 4_194_304;

/// Whether an outcome is a success, or the expected report.
pub open spec fn refuses_as(outcome: Result<(), ErrorDto>, expected: Option<ErrorView>) -> bool {
    match outcome {
        Ok(()) => expected is None,
        Err(error) => expected == Some(error@),
    }
}

/// A report without context.
pub open spec fn plain_report(code: ErrorCode, message: Seq<char>) -> ErrorView {
    ErrorView { code, message, context: Seq::empty() }
}

/// A report whose context is one reason.
pub open spec fn reason_report(code: ErrorCode, message: Seq<char>, reason: Seq<char>) -> ErrorView {
    ErrorView { code, message, context: seq![("reason"@, JsonView::String(reason))] }
}

/// Returns a report without context.
pub fn plain_error(code: ErrorCode, message: &str) -> (error: ErrorDto)
    ensures
        error@ == plain_report(code, message@),
{
    let context: Vec<(String, Json)> = Vec::new();
    assert(json::members_view(context@) =~= Seq::<(Seq<char>, JsonView)>::empty());
    ErrorDto::new(code, message, context)
}

/// Returns a report whose context is one reason.
pub fn reason_error(code: ErrorCode, message: &str, reason: &str) -> (error: ErrorDto)
    ensures
        error@ == reason_report(code, message@, reason@),
{
    let context = vec![named("reason", json_text(reason))];
    assert(json::members_view(context@) =~= reason_report(code, message@, reason@).context);
    ErrorDto::new(code, message, context)
}

/// Returns the report for a command line outside the grammar.
pub fn invalid_command_line(reason: &str) -> (error: ErrorDto)
    ensures
        error@ == reason_report(
            ErrorCode::InvalidCli,
            "the command line does not match the srcmv grammar"@,
            reason@,
        ),
{
    reason_error(
        ErrorCode::InvalidCli,
        "the command line does not match the srcmv grammar",
        reason,
    )
}

/// The report for a request that could not be read.
pub open spec fn request_report(
    message: Seq<char>,
    io_kind: Seq<char>,
    key: Seq<char>,
    value: Seq<char>,
) -> ErrorView {
    ErrorView {
        code: ErrorCode::IoError,
        message,
        context: seq![("io_kind"@, JsonView::String(io_kind)), (key, JsonView::String(value))],
    }
}

/// Returns the report for a request file that could not be opened.
pub fn open_request_error(io_kind: &str, path: &str) -> (error: ErrorDto)
    ensures
        error@ == request_report(
            "failed to open the request file"@,
            io_kind@,
            "path"@,
            edit_report::redacted(path@),
        ),
{
    proof {
        wire::lemma_context_keys_ascend();
    }
    let shown = redact_path(path);
    let context = vec![
        named("io_kind", json_text(io_kind)),
        named("path", json_text(shown.as_str())),
    ];
    assert(json::members_view(context@) =~= request_report(
        "failed to open the request file"@,
        io_kind@,
        "path"@,
        shown@,
    ).context);
    ErrorDto::new(ErrorCode::IoError, "failed to open the request file", context)
}

/// Returns the report for a request that could not be read from `source`.
pub fn read_request_error(io_kind: &str, source: &str) -> (error: ErrorDto)
    ensures
        error@ == request_report(
            "failed to read the JSON request"@,
            io_kind@,
            "source"@,
            source@,
        ),
{
    proof {
        wire::lemma_context_keys_ascend();
    }
    let context = vec![
        named("io_kind", json_text(io_kind)),
        named("source", json_text(source)),
    ];
    assert(json::members_view(context@) =~= request_report(
        "failed to read the JSON request"@,
        io_kind@,
        "source"@,
        source@,
    ).context);
    ErrorDto::new(ErrorCode::IoError, "failed to read the JSON request", context)
}

/// The report for a workspace given to a command that has none.
pub open spec fn workspace_refusal(has_workspace: bool) -> Option<ErrorView> {
    if has_workspace {
        Some(
            plain_report(
                ErrorCode::InvalidCli,
                "--workspace is not accepted by target-independent commands"@,
            ),
        )
    } else {
        None
    }
}

/// Refuses a workspace where the command is independent of one.
pub fn reject_workspace_for_target_independent(has_workspace: bool) -> (outcome: Result<
    (),
    ErrorDto,
>)
    ensures
        refuses_as(outcome, workspace_refusal(has_workspace)),
{
    if has_workspace {
        Err(
            plain_error(
                ErrorCode::InvalidCli,
                "--workspace is not accepted by target-independent commands",
            ),
        )
    } else {
        Ok(())
    }
}

/// The report for a response of `actual` bytes, if it is too large.
pub open spec fn response_refusal(actual: u64) -> Option<ErrorView> {
    if actual > MAX_RESPONSE_BYTES {
        Some(
            edit_report::limit_report("serialized_json_response"@, actual, MAX_RESPONSE_BYTES),
        )
    } else {
        None
    }
}

/// Refuses a response that is too large.
pub fn enforce_response_bytes(actual: u64) -> (outcome: Result<(), ErrorDto>)
    ensures
        refuses_as(outcome, response_refusal(actual)),
{
    if actual > MAX_RESPONSE_BYTES {
        Err(limit_error("serialized_json_response", actual, MAX_RESPONSE_BYTES))
    } else {
        Ok(())
    }
}

/// The report for one path, if it is unacceptable.
pub open spec fn path_refusal(path: Seq<char>) -> Option<ErrorView> {
    if text::utf8(path).len() > MAX_PATH_BYTES {
        Some(
            edit_report::limit_report(
                "path_bytes"@,
                text::utf8(path).len() as u64,
                MAX_PATH_BYTES,
            ),
        )
    } else if path.contains('\0') {
        Some(
            reason_report(
                ErrorCode::InvalidRequest,
                "an inspection path contains an invalid value"@,
                "path_contains_nul"@,
            ),
        )
    } else {
        None
    }
}

/// The report for the first unacceptable path.
pub open spec fn first_path_refusal(paths: Seq<Seq<char>>) -> Option<ErrorView>
    decreases paths.len(),
{
    if paths.len() == 0 {
        None
    } else if path_refusal(paths[0]) is Some {
        path_refusal(paths[0])
    } else {
        first_path_refusal(paths.drop_first())
    }
}

/// The report for a list of paths, if it is unacceptable.
pub open spec fn paths_refusal(paths: Seq<Seq<char>>) -> Option<ErrorView> {
    if paths.len() > MAX_OPERATION_PATHS {
        Some(
            edit_report::limit_report(
                "operation_paths"@,
                paths.len() as u64,
                MAX_OPERATION_PATHS,
            ),
        )
    } else {
        first_path_refusal(paths)
    }
}

/// Returns whether a text holds a NUL character.
fn contains_nul(text: &str) -> (found: bool)
    ensures
        found == text@.contains('\0'),
{
    for character in chars: text.chars()
        invariant
            chars.seq() == text@,
            forall|i: int| 0 <= i < chars.index() ==> text@[i] != '\0',
    {
        assert(character == text@[chars.index() as int]);
        if character == '\0' {
            assert(text@.contains('\0'));
            return true;
        }
    }
    false
}

/// Refuses too many paths, overlong paths, and paths that hold a NUL.
pub fn validate_inspect_paths(paths: &Vec<String>) -> (outcome: Result<(), ErrorDto>)
    ensures
        refuses_as(outcome, paths_refusal(order::path_view(paths@))),
{
    let ghost views = order::path_view(paths@);
    let actual: u64 = paths.len() as u64;
    if actual > MAX_OPERATION_PATHS {
        return Err(limit_error("operation_paths", actual, MAX_OPERATION_PATHS));
    }
    let mut index: usize = 0;
    assert(views.skip(0) =~= views);
    while index < paths.len()
        invariant
            index <= paths@.len(),
            views == order::path_view(paths@),
            views.len() <= MAX_OPERATION_PATHS,
            first_path_refusal(views) == first_path_refusal(views.skip(index as int)),
        decreases paths@.len() - index,
    {
        let path: &str = paths[index].as_str();
        proof {
            let rest = views.skip(index as int);
            assert(rest[0] == path@);
            assert(rest.drop_first() =~= views.skip(index + 1));
        }
        let length: u64 = path.as_bytes().len() as u64;
        if length > MAX_PATH_BYTES {
            return Err(limit_error("path_bytes", length, MAX_PATH_BYTES));
        }
        if contains_nul(path) {
            return Err(
                reason_error(
                    ErrorCode::InvalidRequest,
                    "an inspection path contains an invalid value",
                    "path_contains_nul",
                ),
            );
        }
        index = index + 1;
    }
    Ok(())
}

/// Whether a byte is a lowercase hexadecimal digit.
pub open spec fn is_lower_hex(byte: u8) -> bool {
    (48 <= byte && byte <= 57) || (97 <= byte && byte <= 102)
}

/// Whether a text is a transaction identifier.
pub open spec fn is_transaction_id(id: Seq<char>) -> bool {
    text::utf8(id).len() == 32 && forall|i: int|
        0 <= i < 32 ==> is_lower_hex(#[trigger] text::utf8(id)[i])
}

/// The report for a malformed transaction identifier.
pub open spec fn id_refusal(id: Seq<char>) -> Option<ErrorView> {
    if is_transaction_id(id) {
        None
    } else {
        Some(
            reason_report(
                ErrorCode::InvalidRequest,
                "the transaction ID must be exactly 32 lowercase hexadecimal characters"@,
                "invalid_transaction_id"@,
            ),
        )
    }
}

/// Refuses a malformed transaction identifier.
pub fn validate_transaction_id_argument(transaction_id: &str) -> (outcome: Result<(), ErrorDto>)
    ensures
        refuses_as(outcome, id_refusal(transaction_id@)),
{
    let bytes = transaction_id.as_bytes();
    let mut valid = bytes.len() == 32;
    let mut index: usize = 0;
    while valid && index < 32
        invariant
            index <= 32,
            bytes@ == text::utf8(transaction_id@),
            valid ==> bytes@.len() == 32 && forall|i: int|
                0 <= i < index ==> is_lower_hex(#[trigger] bytes@[i]),
            !valid ==> !is_transaction_id(transaction_id@),
        decreases 32 - index + if valid { 1int } else { 0int },
    {
        let byte: u8 = bytes[index];
        let digit = byte >= 48 && byte <= 57;
        let letter = byte >= 97 && byte <= 102;
        if !digit && !letter {
            assert(!is_lower_hex(bytes@[index as int]));
            valid = false;
        } else {
            index = index + 1;
        }
    }
    if valid {
        Ok(())
    } else {
        Err(
            reason_error(
                ErrorCode::InvalidRequest,
                "the transaction ID must be exactly 32 lowercase hexadecimal characters",
                "invalid_transaction_id",
            ),
        )
    }
}

/// What a recovery scan found of one transaction.
#[derive(Clone, Debug, PartialEq, Eq)]
pub struct RecoveryEntry {
    /// The transaction's identifier.
    pub transaction_id: String,
    /// The kind of the entry.
    pub kind: String,
    /// What unrelated readers may observe.
    pub visibility: String,
    /// The actions that are allowed.
    pub actions: Vec<String>,
}

/// The mathematical value of a [`RecoveryEntry`].
#[verifier::ext_equal]
pub struct RecoveryEntryView {
    pub transaction_id: Seq<char>,
    pub kind: Seq<char>,
    pub visibility: Seq<char>,
    pub actions: Seq<Seq<char>>,
}

impl View for RecoveryEntry {
    type V = RecoveryEntryView;

    open spec fn view(&self) -> RecoveryEntryView {
        RecoveryEntryView {
            transaction_id: self.transaction_id@,
            kind: self.kind@,
            visibility: self.visibility@,
            actions: order::path_view(self.actions@),
        }
    }
}

/// The values of a list of entries.
pub open spec fn entries_view(entries: Seq<RecoveryEntry>) -> Seq<RecoveryEntryView> {
    Seq::new(entries.len(), |i: int| entries[i]@)
}

/// The identifiers of the entries that are more than terminal cleanup.
pub open spec fn unfinished(entries: Seq<RecoveryEntryView>) -> Seq<Seq<char>>
    decreases entries.len(),
{
    if entries.len() == 0 {
        Seq::empty()
    } else if entries.last().kind != "cleanup_only"@ {
        unfinished(entries.drop_last()).push(entries.last().transaction_id)
    } else {
        unfinished(entries.drop_last())
    }
}

/// The warning for an observation that no lock coordinated.
pub open spec fn stale_warning() -> JsonView {
    wire::warning_json(
        WarningCode::ObservationMayBeStale,
        "no existing srcmv lock coordinated this read-only observation"@,
        Seq::empty(),
    )
}

/// Whether the warnings, or the unfinished transactions, are the expected ones.
pub open spec fn diagnoses_as(
    outcome: Result<Vec<WarningDto>, FsError>,
    scanned: Option<Seq<RecoveryEntryView>>,
) -> bool {
    match scanned {
        None => outcome matches Ok(warnings) && wire::warnings_view(warnings@) == seq![
            stale_warning(),
        ],
        Some(entries) => if unfinished(entries).len() == 0 {
            outcome matches Ok(warnings) && warnings@.len() == 0
        } else {
            outcome matches Err(FsError::TransactionRecoveryRequired { transaction_ids })
                && order::path_view(transaction_ids@) == unfinished(entries)
        },
    }
}

/// The values of an optional list of entries.
pub open spec fn scanned_view(scanned: Option<Vec<RecoveryEntry>>) -> Option<
    Seq<RecoveryEntryView>,
> {
    match scanned {
        Some(entries) => Some(entries_view(entries@)),
        None => None,
    }
}

/// Decides whether a read-only command may go on: without a lock it goes on
/// with a warning, and with one it goes on unless transactions are unfinished.
pub fn diagnostic_context(scanned: &Option<Vec<RecoveryEntry>>) -> (outcome: Result<
    Vec<WarningDto>,
    FsError,
>)
    ensures
        diagnoses_as(outcome, scanned_view(*scanned)),
{
    match scanned {
        None => {
            let context: Vec<(String, Json)> = Vec::new();
            assert(json::members_view(context@) =~= Seq::<(Seq<char>, JsonView)>::empty());
            let warnings = vec![
                WarningDto::new(
                    WarningCode::ObservationMayBeStale,
                    "no existing srcmv lock coordinated this read-only observation",
                    context,
                ),
            ];
            assert(wire::warnings_view(warnings@) =~= seq![stale_warning()]);
            Ok(warnings)
        },
        Some(entries) => {
            let ghost views = entries_view(entries@);
            let mut transaction_ids: Vec<String> = Vec::new();
            let mut index: usize = 0;
            assert(views.take(0) =~= Seq::<RecoveryEntryView>::empty());
            assert(order::path_view(transaction_ids@) =~= unfinished(views.take(0)));
            while index < entries.len()
                invariant
                    index <= entries@.len(),
                    views == entries_view(entries@),
                    order::path_view(transaction_ids@) == unfinished(views.take(index as int)),
                decreases entries@.len() - index,
            {
                let ghost taken = views.take(index + 1);
                assert(taken.drop_last() =~= views.take(index as int));
                assert(taken.last() == entries@[index as int]@);
                let ghost before = transaction_ids@;
                if !text_equal(entries[index].kind.as_str(), "cleanup_only") {
                    transaction_ids.push(entries[index].transaction_id.clone());
                    assert(order::path_view(transaction_ids@) =~= order::path_view(before).push(
                        entries@[index as int].transaction_id@,
                    ));
                }
                index = index + 1;
            }
            assert(views.take(index as int) =~= views);
            if transaction_ids.len() > 0 {
                Err(FsError::TransactionRecoveryRequired { transaction_ids })
            } else {
                Ok(Vec::new())
            }
        },
    }
}

/// The arguments of the recovery command.
#[derive(Clone, Debug, PartialEq, Eq)]
pub struct RecoverCommand {
    /// The transaction to act on.
    pub id: Option<String>,
    /// Whether to list every transaction.
    pub list: bool,
    /// Whether to report one transaction.
    pub status: bool,
    /// Whether to roll one transaction back; otherwise it is completed.
    pub rollback: bool,
    /// Whether structured output is wanted.
    pub json: bool,
}

/// What a finished recovery says of itself.
#[derive(Clone, Debug, PartialEq, Eq)]
pub struct RecoveryOutcome {
    /// The transaction's identifier.
    pub transaction_id: String,
    /// The state that it reached.
    pub state: String,
}

/// What the workspace answered to the pending recovery step.
pub enum RecoveryAnswer {
    /// Nothing was asked yet.
    Start,
    /// The workspace was opened.
    Opened(Result<(), FsError>),
    /// The transactions were listed.
    Listed(Result<Vec<RecoveryEntry>, FsError>),
    /// One transaction was looked up.
    Inspected(Result<RecoveryEntry, FsError>),
    /// One transaction was rolled back.
    RolledBack(Result<RecoveryOutcome, FsError>),
    /// One transaction was completed.
    Completed(Result<RecoveryOutcome, FsError>),
}

/// What a recovery command does next.
#[derive(Debug, PartialEq)]
pub enum RecoveryStep {
    /// Open the workspace.
    Open,
    /// List the transactions.
    List,
    /// Look one transaction up.
    Inspect(String),
    /// Roll one transaction back.
    RollBack(String),
    /// Complete one transaction.
    Complete(String),
    /// Report these transactions.
    ReportEntries(Vec<RecoveryEntry>),
    /// Report this transaction.
    ReportEntry(RecoveryEntry),
    /// Print this text.
    Print(String),
    /// Fail.
    Refuse(ErrorDto),
}

/// The mathematical value of a [`RecoveryStep`].
#[verifier::ext_equal]
pub enum RecoveryStepView {
    Open,
    List,
    Inspect(Seq<char>),
    RollBack(Seq<char>),
    Complete(Seq<char>),
    ReportEntries(Seq<RecoveryEntryView>),
    ReportEntry(RecoveryEntryView),
    Print(Seq<char>),
    Refuse(ErrorView),
}

impl View for RecoveryStep {
    type V = RecoveryStepView;

    open spec fn view(&self) -> RecoveryStepView {
        match self {
            RecoveryStep::Open => RecoveryStepView::Open,
            RecoveryStep::List => RecoveryStepView::List,
            RecoveryStep::Inspect(id) => RecoveryStepView::Inspect(id@),
            RecoveryStep::RollBack(id) => RecoveryStepView::RollBack(id@),
            RecoveryStep::Complete(id) => RecoveryStepView::Complete(id@),
            RecoveryStep::ReportEntries(entries) => RecoveryStepView::ReportEntries(
                entries_view(entries@),
            ),
            RecoveryStep::ReportEntry(entry) => RecoveryStepView::ReportEntry(entry@),
            RecoveryStep::Print(text) => RecoveryStepView::Print(text@),
            RecoveryStep::Refuse(error) => RecoveryStepView::Refuse(error@),
        }
    }
}

/// The line printed for one transaction.
pub open spec fn entry_line(entry: RecoveryEntryView) -> Seq<char> {
    entry.transaction_id + " "@ + entry.kind + " visibility="@ + entry.visibility + " ["@ + wire::joined(
        entry.actions,
        ","@,
    ) + "]\n"@
}

/// The lines printed for a list of transactions.
pub open spec fn entry_lines(entries: Seq<RecoveryEntryView>) -> Seq<char>
    decreases entries.len(),
{
    if entries.len() == 0 {
        Seq::empty()
    } else {
        entry_lines(entries.drop_last()) + entry_line(entries.last())
    }
}

/// The entry reported for a transaction that recovery brought to an end.
pub open spec fn ended_entry(id: Seq<char>, visibility: Seq<char>) -> RecoveryEntryView {
    RecoveryEntryView {
        transaction_id: id,
        kind: "cleanup_only"@,
        visibility,
        actions: Seq::empty(),
    }
}

/// The report for a recovery action without a transaction.
pub open spec fn missing_id() -> RecoveryStepView {
    RecoveryStepView::Refuse(
        plain_report(ErrorCode::InvalidCli, "recovery requires a transaction ID"@),
    )
}

/// What follows the end of a recovery action.
pub open spec fn recovery_ended(
    command: RecoverCommand,
    outcome: Result<RecoveryOutcome, FsError>,
    visibility: Seq<char>,
) -> RecoveryStepView {
    match outcome {
        Err(error) => RecoveryStepView::Refuse(edit_report::filesystem_report(error)),
        Ok(outcome) => match command.id {
            None => missing_id(),
            Some(id) => if command.json {
                RecoveryStepView::ReportEntry(ended_entry(id@, visibility))
            } else {
                RecoveryStepView::Print(outcome.transaction_id@ + " "@ + outcome.state@ + "\n"@)
            },
        },
    }
}

/// What a recovery command does after an answer.
pub open spec fn recovery_next(command: RecoverCommand, answer: RecoveryAnswer) -> RecoveryStepView {
    match answer {
        RecoveryAnswer::Start => match command.id {
            Some(id) if id_refusal(id@) is Some => RecoveryStepView::Refuse(id_refusal(id@)->0),
            _ => RecoveryStepView::Open,
        },
        RecoveryAnswer::Opened(Err(error)) => RecoveryStepView::Refuse(
            edit_report::filesystem_report(error),
        ),
        RecoveryAnswer::Opened(Ok(())) => if command.list {
            RecoveryStepView::List
        } else {
            match command.id {
                None => missing_id(),
                Some(id) => if command.status {
                    RecoveryStepView::Inspect(id@)
                } else if command.rollback {
                    RecoveryStepView::RollBack(id@)
                } else {
                    RecoveryStepView::Complete(id@)
                },
            }
        },
        RecoveryAnswer::Listed(Err(error)) => RecoveryStepView::Refuse(
            edit_report::filesystem_report(error),
        ),
        RecoveryAnswer::Listed(Ok(entries)) => if command.json {
            RecoveryStepView::ReportEntries(entries_view(entries@))
        } else {
            RecoveryStepView::Print(entry_lines(entries_view(entries@)))
        },
        RecoveryAnswer::Inspected(Err(error)) => RecoveryStepView::Refuse(
            edit_report::filesystem_report(error),
        ),
        RecoveryAnswer::Inspected(Ok(entry)) => if command.json {
            RecoveryStepView::ReportEntry(entry@)
        } else {
            RecoveryStepView::Print(entry_line(entry@))
        },
        RecoveryAnswer::RolledBack(outcome) => recovery_ended(
            command,
            outcome,
            "all_original"@,
        ),
        RecoveryAnswer::Completed(outcome) => recovery_ended(command, outcome, "all_planned"@),
    }
}

/// Appends the line printed for one transaction.
fn push_entry_line(out: &mut String, entry: &RecoveryEntry)
    ensures
        final(out)@ == old(out)@ + entry_line(entry@),
{
    let ghost before = out@;
    out.append(entry.transaction_id.as_str());
    out.append(" ");
    out.append(entry.kind.as_str());
    out.append(" visibility=");
    out.append(entry.visibility.as_str());
    out.append(" [");
    push_joined(out, &entry.actions, ",");
    out.append("]\n");
    assert(out@ =~= before + entry_line(entry@));
}

/// Returns the lines printed for a list of transactions.
fn list_entries(entries: &Vec<RecoveryEntry>) -> (text: String)
    ensures
        text@ == entry_lines(entries_view(entries@)),
{
    let ghost views = entries_view(entries@);
    let mut text = String::new();
    let mut index: usize = 0;
    assert(views.take(0) =~= Seq::<RecoveryEntryView>::empty());
    while index < entries.len()
        invariant
            index <= entries@.len(),
            views == entries_view(entries@),
            text@ == entry_lines(views.take(index as int)),
        decreases entries@.len() - index,
    {
        let ghost taken = views.take(index + 1);
        assert(taken.drop_last() =~= views.take(index as int));
        assert(taken.last() == entries@[index as int]@);
        push_entry_line(&mut text, &entries[index]);
        assert(text@ =~= entry_lines(taken));
        index = index + 1;
    }
    assert(views.take(index as int) =~= views);
    text
}

/// Returns what follows the end of a recovery action.
fn end_recovery(
    command: &RecoverCommand,
    outcome: Result<RecoveryOutcome, FsError>,
    visibility: &str,
) -> (step: RecoveryStep)
    ensures
        step@ == recovery_ended(*command, outcome, visibility@),
{
    match outcome {
        Err(error) => RecoveryStep::Refuse(filesystem_error(&error)),
        Ok(outcome) => match &command.id {
            None => RecoveryStep::Refuse(
                plain_error(ErrorCode::InvalidCli, "recovery requires a transaction ID"),
            ),
            Some(id) => {
                if command.json {
                    let actions: Vec<String> = Vec::new();
                    assert(order::path_view(actions@) =~= Seq::<Seq<char>>::empty());
                    RecoveryStep::ReportEntry(
                        RecoveryEntry {
                            transaction_id: id.clone(),
                            kind: "cleanup_only".to_owned(),
                            visibility: visibility.to_owned(),
                            actions,
                        },
                    )
                } else {
                    let mut text = outcome.transaction_id.clone();
                    text.append(" ");
                    text.append(outcome.state.as_str());
                    text.append("\n");
                    RecoveryStep::Print(text)
                }
            },
        },
    }
}

/// Returns what a recovery command does after an answer.
pub fn execute_recovery(command: &RecoverCommand, answer: RecoveryAnswer) -> (step: RecoveryStep)
    ensures
        step@ == recovery_next(*command, answer),
{
    match answer {
        RecoveryAnswer::Start => match &command.id {
            Some(id) => match validate_transaction_id_argument(id.as_str()) {
                Ok(()) => RecoveryStep::Open,
                Err(error) => RecoveryStep::Refuse(error),
            },
            None => RecoveryStep::Open,
        },
        RecoveryAnswer::Opened(Err(error)) => RecoveryStep::Refuse(filesystem_error(&error)),
        RecoveryAnswer::Opened(Ok(())) => {
            if command.list {
                return RecoveryStep::List;
            }
            match &command.id {
                None => RecoveryStep::Refuse(
                    plain_error(ErrorCode::InvalidCli, "recovery requires a transaction ID"),
                ),
                Some(id) => {
                    if command.status {
                        RecoveryStep::Inspect(id.clone())
                    } else if command.rollback {
                        RecoveryStep::RollBack(id.clone())
                    } else {
                        RecoveryStep::Complete(id.clone())
                    }
                },
            }
        },
        RecoveryAnswer::Listed(Err(error)) => RecoveryStep::Refuse(filesystem_error(&error)),
        RecoveryAnswer::Listed(Ok(entries)) => {
            if command.json {
                RecoveryStep::ReportEntries(entries)
            } else {
                RecoveryStep::Print(list_entries(&entries))
            }
        },
        RecoveryAnswer::Inspected(Err(error)) => RecoveryStep::Refuse(filesystem_error(&error)),
        RecoveryAnswer::Inspected(Ok(entry)) => {
            if command.json {
                RecoveryStep::ReportEntry(entry)
            } else {
                let mut text = String::new();
                push_entry_line(&mut text, &entry);
                assert(text@ =~= entry_line(entry@));
                RecoveryStep::Print(text)
            }
        },
        RecoveryAnswer::RolledBack(outcome) => end_recovery(command, outcome, "all_original"),
        RecoveryAnswer::Completed(outcome) => end_recovery(command, outcome, "all_planned"),
    }
}

/// A recovery command acts on no transaction whose identifier is malformed.
pub proof fn law_malformed_ids_never_reach_the_workspace(command: RecoverCommand)
    requires
        command.id is Some,
        !is_transaction_id(command.id->0@),
    ensures
        recovery_next(command, RecoveryAnswer::Start) is Refuse,
{
}

} // verus!
