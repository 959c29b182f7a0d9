//! What the editing commands mean: what is refused, what is asked of the
//! workspace, and what is reported.

use vstd::prelude::*;

use crate::apply_flow;
use crate::apply_flow::{ApplyAnswer, ApplyCommand, ApplyPhase, ApplyStep};
use crate::commit;
use crate::commit::{Endpoint, Operation, Precondition, RequiredPathState};
use crate::digest;
use crate::edit_command;
use crate::edit_command::{
    RecoverCommand, RecoveryAnswer, RecoveryEntryView, RecoveryOutcome, RecoveryStepView,
};
use crate::edit_report;
use crate::edit_report::{CoreError, ErrorCode, ErrorView, FsError};
use crate::json::{JsonNumberView, JsonView};
use crate::text;
use crate::wire;

verus! {

/// Whether a report's context has a member.
pub open spec fn tells(report: ErrorView, key: Seq<char>, value: JsonView) -> bool {
    report.context.contains((key, value))
}

/// Whether a report's context has a text.
pub open spec fn tells_text(report: ErrorView, key: Seq<char>, value: Seq<char>) -> bool {
    tells(report, key, JsonView::String(value))
}

/// Whether a report's context has a number.
pub open spec fn tells_number(report: ErrorView, key: Seq<char>, value: u64) -> bool {
    tells(report, key, JsonView::Number(JsonNumberView::Unsigned(value)))
}

/// The wire form of an optional digest.
pub open spec fn digest_or_null(found: Option<digest::Sha256Digest>) -> JsonView {
    match found {
        Some(found) => JsonView::String(digest::prefixed_hex(found.0@)),
        None => JsonView::Null,
    }
}

proof fn lemma_tells(report: ErrorView, place: int)
    requires
        0 <= place < report.context.len(),
    ensures
        tells(report, report.context[place].0, report.context[place].1),
{
    assert(report.context.contains(report.context[place]));
}

/// Every refusal of the workspace is reported under its own code, and its
/// context tells what the refusal names: paths, reasons, digests, transactions,
/// counts, and bounds.
pub proof fn law_refusals_are_reported_as_they_are(error: FsError)
    ensures
        ({
            let report = edit_report::filesystem_report(error);
            match error {
                FsError::UnsupportedPlatform => report.code == ErrorCode::UnsupportedPlatform,
                FsError::WorkspaceRootNotDirectory => report.code == ErrorCode::InvalidRequest,
                FsError::InvalidPath { path, reason } => {
                    &&& report.code == ErrorCode::InvalidRequest
                    &&& tells_text(report, "reason"@, reason@)
                    &&& path@.len() == 0 || path@[0] != '/' ==> tells_text(report, "path"@, path@)
                },
                FsError::SymlinkNotAllowed { path } => {
                    report.code == ErrorCode::SymlinkNotAllowed && tells_text(
                        report,
                        "path"@,
                        path@,
                    )
                },
                FsError::UnsupportedFileType { path } => {
                    report.code == ErrorCode::UnsupportedFileType && tells_text(
                        report,
                        "path"@,
                        path@,
                    )
                },
                FsError::PathNotFound { path } => {
                    report.code == ErrorCode::InvalidRequest && tells_text(report, "path"@, path@)
                },
                FsError::PreconditionFailed { path, expected, actual } => {
                    &&& report.code == ErrorCode::PreconditionFailed
                    &&& tells_text(report, "path"@, path@)
                    &&& tells(report, "expected"@, digest_or_null(expected))
                    &&& tells(report, "actual"@, digest_or_null(actual))
                },
                FsError::IncompatiblePrecondition { path } => {
                    report.code == ErrorCode::EditConflict && tells_text(report, "path"@, path@)
                },
                FsError::FileAlias { first_path, second_path } => {
                    &&& report.code == ErrorCode::FileAlias
                    &&& tells_text(report, "first_path"@, first_path@)
                    &&& tells_text(report, "second_path"@, second_path@)
                },
                FsError::FileChanged { path, attempts } => {
                    &&& report.code == ErrorCode::FileChanged
                    &&& tells_text(report, "path"@, path@)
                    &&& tells_number(report, "attempts"@, attempts)
                },
                FsError::ResourceLimitExceeded { resource, actual, limit }
                | FsError::Core(CoreError::ResourceLimitExceeded { resource, actual, limit }) => {
                    &&& report.code == ErrorCode::ResourceLimitExceeded
                    &&& tells_text(report, "resource"@, resource@)
                    &&& tells_number(report, "actual"@, actual)
                    &&& tells_number(report, "limit"@, limit)
                },
                FsError::CrossDeviceTransaction => report.code
                    == ErrorCode::CrossDeviceTransaction,
                FsError::NoReplaceUnavailable => report.code == ErrorCode::NoReplaceUnavailable,
                FsError::UnsupportedFilesystem { filesystem } => {
                    report.code == ErrorCode::UnsupportedFilesystem && tells_text(
                        report,
                        "filesystem"@,
                        filesystem@,
                    )
                },
                FsError::TransactionBusy => report.code == ErrorCode::TransactionBusy,
                FsError::TransactionRecoveryRequired { transaction_ids } => {
                    &&& report.code == ErrorCode::TransactionRecoveryRequired
                    &&& exists|ids: Seq<JsonView>| #[trigger]
                        tells(report, "transaction_ids"@, JsonView::Array(ids)) && ids.len()
                            == transaction_ids@.len() && forall|i: int|
                            0 <= i < ids.len() ==> #[trigger] ids[i] == JsonView::String(
                                transaction_ids@[i]@,
                            )
                },
                FsError::TransactionNotFound { transaction_id } => {
                    report.code == ErrorCode::TransactionNotFound && tells_text(
                        report,
                        "transaction_id"@,
                        transaction_id@,
                    )
                },
                FsError::RecoveryActionNotAllowed { transaction_id, reason } => {
                    &&& report.code == ErrorCode::RecoveryActionNotAllowed
                    &&& tells_text(report, "transaction_id"@, transaction_id@)
                    &&& tells_text(report, "reason"@, reason@)
                },
                FsError::ControlDirectoryInvalid { reason } => {
                    report.code == ErrorCode::ControlDirectoryInvalid && tells_text(
                        report,
                        "reason"@,
                        reason@,
                    )
                },
                FsError::LegacyControlState { name } => {
                    report.code == ErrorCode::ControlDirectoryInvalid && tells_text(
                        report,
                        "path"@,
                        name@,
                    )
                },
                FsError::TransactionRecordCorrupt { transaction_id, reason } => {
                    &&& report.code == ErrorCode::TransactionRecordCorrupt
                    &&& tells_text(report, "reason"@, reason@)
                    &&& transaction_id matches Some(id) ==> tells_text(
                        report,
                        "transaction_id"@,
                        id@,
                    )
                },
                FsError::RecoveryConflict { reason } => {
                    report.code == ErrorCode::RecoveryConflict && tells_text(
                        report,
                        "reason"@,
                        reason@,
                    )
                },
                FsError::Io { operation, path, kind } => {
                    &&& report.code == ErrorCode::IoError
                    &&& tells_text(report, "operation"@, operation@)
                    &&& tells_text(report, "io_kind"@, kind@)
                    &&& path matches Some(path) ==> tells_text(report, "path"@, path@)
                },
                FsError::Core(CoreError::EditConflict { reason, operation_index }) => {
                    &&& report.code == ErrorCode::EditConflict
                    &&& tells_text(report, "reason"@, reason@)
                    &&& tells_number(report, "operation_index"@, operation_index)
                },
                FsError::Core(CoreError::HardLinkNotSupported { path, link_count }) => {
                    &&& report.code == ErrorCode::HardLinkNotSupported
                    &&& tells_text(report, "path"@, path@)
                    &&& tells_number(report, "link_count"@, link_count)
                },
                FsError::Core(CoreError::Other { message }) => {
                    report.code == ErrorCode::InternalError && tells_text(
                        report,
                        "reason"@,
                        message@,
                    )
                },
                FsError::InternalInvariant { broken } => {
                    report.code == ErrorCode::InternalError && tells_text(
                        report,
                        "invariant"@,
                        broken@,
                    )
                },
                FsError::Unrecognized => report.code == ErrorCode::InternalError,
            }
        }),
{
    let report = edit_report::filesystem_report(error);
    if report.context.len() > 0 {
        lemma_tells(report, 0);
    }
    if report.context.len() > 1 {
        lemma_tells(report, 1);
    }
    if report.context.len() > 2 {
        lemma_tells(report, 2);
    }
    if let FsError::TransactionRecoveryRequired { transaction_ids } = error {
        let ids = report.context[0].1->Array_0;
        assert(tells(report, "transaction_ids"@, JsonView::Array(ids)));
    }
}

/// Whether identifiers are those of the transactions that are more than terminal
/// cleanup, in order; `places` says which entry each is of.
pub open spec fn are_unfinished(
    ids: Seq<Seq<char>>,
    entries: Seq<RecoveryEntryView>,
    places: Seq<int>,
) -> bool {
    &&& places.len() == ids.len()
    &&& forall|k: int|
        0 <= k < places.len() ==> 0 <= #[trigger] places[k] < entries.len()
            && entries[places[k]].kind != "cleanup_only"@ && ids[k]
            == entries[places[k]].transaction_id
    &&& forall|k: int, m: int|
        #![trigger places[k], places[m]]
        0 <= k < m < places.len() ==> places[k] < places[m]
    &&& forall|i: int|
        0 <= i < entries.len() && (#[trigger] entries[i]).kind != "cleanup_only"@
            ==> places.contains(i)
}

proof fn lemma_unfinished(entries: Seq<RecoveryEntryView>) -> (places: Seq<int>)
    ensures
        are_unfinished(edit_command::unfinished(entries), entries, places),
    decreases entries.len(),
{
    if entries.len() == 0 {
        Seq::empty()
    } else {
        let shorter = entries.drop_last();
        let last = entries.len() - 1;
        let earlier = lemma_unfinished(shorter);
        let places = if entries[last].kind != "cleanup_only"@ {
            earlier.push(last)
        } else {
            earlier
        };
        assert forall|i: int|
            0 <= i < entries.len() && (#[trigger] entries[i]).kind
                != "cleanup_only"@ implies places.contains(i) by {
            if i < last {
                assert(shorter[i].kind != "cleanup_only"@);
                assert(earlier.contains(i));
                let k = choose|k: int| 0 <= k < earlier.len() && earlier[k] == i;
                assert(places[k] == i);
            } else {
                assert(places[places.len() - 1] == i);
            }
        }
        places
    }
}

/// Whether a JSON value is the warning that nothing coordinated an observation.
pub open spec fn says_stale(value: JsonView) -> bool {
    value matches JsonView::Object(members) && members.contains(
        ("code"@, JsonView::String("OBSERVATION_MAY_BE_STALE"@)),
    )
}

/// An observation without a lock goes on with just the warning that it may be
/// stale; one with a lock goes on without any, unless some transaction is more
/// than terminal cleanup, and then it is refused with all of those and no other.
pub proof fn law_observations_need_finished_transactions(scanned: Option<Seq<RecoveryEntryView>>)
    ensures
        match (scanned, apply_flow::observation(scanned)) {
            (None, Ok(warnings)) => warnings.len() == 1 && says_stale(warnings[0]),
            (Some(entries), Ok(warnings)) => warnings.len() == 0 && forall|i: int|
                0 <= i < entries.len() ==> (#[trigger] entries[i]).kind == "cleanup_only"@,
            (None, Err(_)) => false,
            (Some(entries), Err(error)) => {
                &&& error.code == ErrorCode::TransactionRecoveryRequired
                &&& exists|ids: Seq<Seq<char>>, places: Seq<int>| #[trigger]
                    are_unfinished(ids, entries, places) && ids.len() > 0 && tells(
                        error,
                        "transaction_ids"@,
                        JsonView::Array(Seq::new(ids.len(), |i: int| JsonView::String(ids[i]))),
                    )
            },
        },
{
    match scanned {
        None => {
            let members = edit_command::stale_warning()->Object_0;
            assert(members.contains(members[0]));
        },
        Some(entries) => {
            let ids = edit_command::unfinished(entries);
            let places = lemma_unfinished(entries);
            if ids.len() == 0 {
                assert forall|i: int| 0 <= i < entries.len() implies (#[trigger] entries[i]).kind
                    == "cleanup_only"@ by {
                    if entries[i].kind != "cleanup_only"@ {
                        assert(places.contains(i));
                    }
                }
            } else {
                let error = apply_flow::observation(scanned)->Err_0;
                lemma_tells(error, 0);
                assert(wire::texts_json(ids) == JsonView::Array(
                    Seq::new(ids.len(), |i: int| JsonView::String(ids[i])),
                ));
            }
        },
    }
}

/// Paths are accepted exactly where there are at most a thousand of them, each
/// of at most 4,096 bytes and without a NUL.
pub proof fn law_inspected_paths_are_bounded(paths: Seq<Seq<char>>)
    requires
        paths.len() <= u64::MAX,
    ensures
        match edit_command::paths_refusal(paths) {
            None => paths.len() <= 1_000 && forall|i: int|
                0 <= i < paths.len() ==> text::utf8(#[trigger] paths[i]).len() <= 4_096
                    && !paths[i].contains('\0'),
            Some(error) => {
                ||| paths.len() > 1_000 && error.code == ErrorCode::ResourceLimitExceeded
                    && tells_number(error, "actual"@, paths.len() as u64) && tells_number(
                    error,
                    "limit"@,
                    1_000,
                )
                ||| paths.len() <= 1_000 && exists|i: int|
                    0 <= i < paths.len() && (text::utf8(#[trigger] paths[i]).len() > 4_096
                        && error.code == ErrorCode::ResourceLimitExceeded
                        || paths[i].contains('\0') && error.code == ErrorCode::InvalidRequest)
            },
        },
{
    if paths.len() > 1_000 {
        let error = edit_command::paths_refusal(paths)->Some_0;
        lemma_tells(error, 0);
        lemma_tells(error, 1);
    } else {
        lemma_first_refusal(paths);
    }
}

proof fn lemma_first_refusal(paths: Seq<Seq<char>>)
    ensures
        match edit_command::first_path_refusal(paths) {
            None => forall|i: int|
                0 <= i < paths.len() ==> text::utf8(#[trigger] paths[i]).len() <= 4_096
                    && !paths[i].contains('\0'),
            Some(error) => exists|i: int|
                0 <= i < paths.len() && (text::utf8(#[trigger] paths[i]).len() > 4_096
                    && error.code == ErrorCode::ResourceLimitExceeded || paths[i].contains('\0')
                    && error.code == ErrorCode::InvalidRequest),
        },
    decreases paths.len(),
{
    if paths.len() > 0 {
        let rest = paths.drop_first();
        lemma_first_refusal(rest);
        if edit_command::path_refusal(paths[0]) is None {
            match edit_command::first_path_refusal(rest) {
                None => {
                    assert forall|i: int| 0 <= i < paths.len() implies text::utf8(
                        #[trigger] paths[i],
                    ).len() <= 4_096 && !paths[i].contains('\0') by {
                        if i > 0 {
                            assert(rest[i - 1] == paths[i]);
                        }
                    }
                },
                Some(error) => {
                    let i = choose|i: int|
                        0 <= i < rest.len() && (text::utf8(#[trigger] rest[i]).len() > 4_096
                            && error.code == ErrorCode::ResourceLimitExceeded || rest[i].contains(
                            '\0',
                        ) && error.code == ErrorCode::InvalidRequest);
                    assert(paths[i + 1] == rest[i]);
                },
            }
        }
    }
}

/// A response is refused exactly where it is larger than sixteen mebibytes, with
/// its size and that bound.
pub proof fn law_responses_are_bounded(actual: u64)
    ensures
        match edit_command::response_refusal(actual) {
            None => actual <= 16_777_216,
            Some(error) => {
                &&& actual > 16_777_216
                &&& error.code == ErrorCode::ResourceLimitExceeded
                &&& tells_number(error, "actual"@, actual)
                &&& tells_number(error, "limit"@, 16_777_216)
            },
        },
{
    if let Some(error) = edit_command::response_refusal(actual) {
        lemma_tells(error, 0);
        lemma_tells(error, 1);
    }
}

/// Whether a text is 32 digits and letters from `a` to `f`.
pub open spec fn is_identifier(id: Seq<char>) -> bool {
    &&& text::utf8(id).len() == 32
    &&& forall|i: int|
        0 <= i < 32 ==> 48 <= #[trigger] text::utf8(id)[i] <= 57 || 97 <= text::utf8(id)[i] <= 102
}

/// A recovery begins by opening the workspace, unless it names something that is
/// no identifier; then it is refused.
pub proof fn law_recoveries_begin_with_an_identifier(command: RecoverCommand)
    ensures
        match command.id {
            Some(id) => if is_identifier(id@) {
                edit_command::recovery_next(command, RecoveryAnswer::Start) is Open
            } else {
                edit_command::recovery_next(command, RecoveryAnswer::Start) matches
                    RecoveryStepView::Refuse(error) && error.code == ErrorCode::InvalidRequest
            },
            None => edit_command::recovery_next(command, RecoveryAnswer::Start) is Open,
        },
{
    if let Some(id) = command.id {
        if is_identifier(id@) {
            assert forall|i: int| 0 <= i < 32 implies edit_command::is_lower_hex(
                #[trigger] text::utf8(id@)[i],
            ) by {}
        } else if edit_command::is_transaction_id(id@) {
            assert forall|i: int| 0 <= i < 32 implies 48 <= #[trigger] text::utf8(id@)[i] <= 57
                || 97 <= text::utf8(id@)[i] <= 102 by {
                assert(edit_command::is_lower_hex(text::utf8(id@)[i]));
            }
        }
    }
}

/// Once the workspace is open, a recovery lists, where that is asked for; and
/// otherwise does to the transaction that it names, and to no other, what is
/// asked for: report it, roll it back, or complete it.
pub proof fn law_recoveries_act_on_what_they_name(command: RecoverCommand)
    ensures
        ({
            let step = edit_command::recovery_next(command, RecoveryAnswer::Opened(Ok(())));
            match step {
                RecoveryStepView::List => command.list,
                RecoveryStepView::Inspect(id) => !command.list && command.status && (
                command.id matches Some(named) && id == named@),
                RecoveryStepView::RollBack(id) => !command.list && !command.status
                    && command.rollback && (command.id matches Some(named) && id == named@),
                RecoveryStepView::Complete(id) => !command.list && !command.status
                    && !command.rollback && (command.id matches Some(named) && id == named@),
                RecoveryStepView::Refuse(error) => !command.list && command.id is None
                    && error.code == ErrorCode::InvalidCli,
                _ => false,
            }
        }),
{
}

/// Every failure of the workspace ends a recovery with the report of just that
/// failure.
pub proof fn law_failures_end_recoveries(command: RecoverCommand, error: FsError)
    ensures
        ({
            let report = RecoveryStepView::Refuse(edit_report::filesystem_report(error));
            &&& edit_command::recovery_next(command, RecoveryAnswer::Opened(Err(error))) == report
            &&& edit_command::recovery_next(command, RecoveryAnswer::Listed(Err(error))) == report
            &&& edit_command::recovery_next(command, RecoveryAnswer::Inspected(Err(error)))
                == report
            &&& edit_command::recovery_next(command, RecoveryAnswer::RolledBack(Err(error)))
                == report
            &&& edit_command::recovery_next(command, RecoveryAnswer::Completed(Err(error)))
                == report
        }),
{
}

/// A recovery that is over says so: rolled back, readers see the original of
/// every file; completed, what was planned of every file. Structured, it is the
/// entry of the transaction named, with nothing left to do; printed, it is the
/// workspace's word on it.
pub proof fn law_recoveries_report_their_end(command: RecoverCommand, outcome: RecoveryOutcome)
    requires
        command.id is Some,
    ensures
        ({
            let back = edit_command::recovery_next(
                command,
                RecoveryAnswer::RolledBack(Ok(outcome)),
            );
            let forward = edit_command::recovery_next(
                command,
                RecoveryAnswer::Completed(Ok(outcome)),
            );
            if command.json {
                &&& back matches RecoveryStepView::ReportEntry(entry)
                &&& entry.transaction_id == command.id->Some_0@
                &&& entry.kind == "cleanup_only"@
                &&& entry.visibility == "all_original"@
                &&& entry.actions.len() == 0
                &&& forward matches RecoveryStepView::ReportEntry(other)
                &&& other.transaction_id == command.id->Some_0@
                &&& other.kind == "cleanup_only"@
                &&& other.visibility == "all_planned"@
                &&& other.actions.len() == 0
            } else {
                let line = RecoveryStepView::Print(
                    outcome.transaction_id@ + " "@ + outcome.state@ + "\n"@,
                );
                back == line && forward == line
            }
        }),
{
}

/// What a recovery found is reported whole and in order: structured as it is,
/// and printed one line after the other.
pub proof fn law_recoveries_report_what_they_found(
    command: RecoverCommand,
    entries: Vec<edit_command::RecoveryEntry>,
    entry: edit_command::RecoveryEntry,
)
    ensures
        match edit_command::recovery_next(command, RecoveryAnswer::Listed(Ok(entries))) {
            RecoveryStepView::ReportEntries(reported) => command.json && reported.len()
                == entries@.len() && forall|i: int|
                0 <= i < reported.len() ==> is_entry(#[trigger] reported[i], entries@[i]),
            RecoveryStepView::Print(text) => !command.json && text == edit_command::entry_lines(
                edit_command::entries_view(entries@),
            ),
            _ => false,
        },
        match edit_command::recovery_next(command, RecoveryAnswer::Inspected(Ok(entry))) {
            RecoveryStepView::ReportEntry(reported) => command.json && is_entry(reported, entry),
            RecoveryStepView::Print(text) => !command.json && text == edit_command::entry_lines(
                seq![entry@],
            ),
            _ => false,
        },
{
    reveal_with_fuel(edit_command::entry_lines, 2);
    assert(seq![entry@].drop_last() =~= Seq::<RecoveryEntryView>::empty());
    assert(edit_command::entry_lines(seq![entry@]) =~= edit_command::entry_line(entry@));
}

/// Whether a view holds the fields of an entry.
pub open spec fn is_entry(view: RecoveryEntryView, entry: edit_command::RecoveryEntry) -> bool {
    &&& view.transaction_id == entry.transaction_id@
    &&& view.kind == entry.kind@
    &&& view.visibility == entry.visibility@
    &&& view.actions.len() == entry.actions@.len()
    &&& forall|i: int|
        0 <= i < view.actions.len() ==> #[trigger] view.actions[i] == entry.actions@[i]@
}

/// Printed entries follow one another: the lines of lists in a row are the lines
/// of each, and a line gives the identifier, the kind, the visibility, and the
/// actions of its entry, in this order, and ends.
pub proof fn law_entries_are_printed_in_order(
    left: Seq<RecoveryEntryView>,
    right: Seq<RecoveryEntryView>,
    entry: RecoveryEntryView,
)
    ensures
        edit_command::entry_lines(left + right) == edit_command::entry_lines(left)
            + edit_command::entry_lines(right),
        edit_command::entry_lines(seq![entry]) == entry.transaction_id + " "@ + entry.kind
            + " visibility="@ + entry.visibility + " ["@ + wire::joined(entry.actions, ","@)
            + "]\n"@,
    decreases right.len(),
{
    reveal_with_fuel(edit_command::entry_lines, 2);
    assert(seq![entry].drop_last() =~= Seq::<RecoveryEntryView>::empty());
    assert(edit_command::entry_lines(seq![entry]) =~= edit_command::entry_line(entry));
    let both = left + right;
    if right.len() == 0 {
        assert(both =~= left);
        assert(edit_command::entry_lines(left) + edit_command::entry_lines(right)
            =~= edit_command::entry_lines(left));
    } else {
        assert(both.drop_last() =~= left + right.drop_last());
        law_entries_are_printed_in_order(left, right.drop_last(), entry);
        assert(edit_command::entry_lines(both) =~= edit_command::entry_lines(left)
            + edit_command::entry_lines(right));
    }
}

/// Whether a requirement asks a path to be found as an end of an edit says.
pub open spec fn asks_for(requirement: commit::SnapshotRequirement, end: Endpoint) -> bool {
    &&& requirement.path@ == end.path@
    &&& match end.precondition {
        Precondition::Sha256(digest) => requirement.state == RequiredPathState::Existing(digest),
        Precondition::MustNotExist => requirement.state is Absent,
    }
}

/// Whether requirements ask, for each operation in order, for its source and then
/// for its destination.
pub open spec fn asks_for_all(
    requirements: Seq<commit::SnapshotRequirement>,
    operations: Seq<Operation>,
) -> bool {
    &&& requirements.len() == 2 * operations.len()
    &&& forall|i: int|
        #![trigger operations[i]]
        0 <= i < operations.len() ==> match operations[i] {
            Operation::Move(ends) | Operation::Copy(ends) => asks_for(
                requirements[2 * i],
                ends.source,
            ) && asks_for(requirements[2 * i + 1], ends.destination),
        }
}

/// An `apply` command goes on with what it was told: the digest parsed is the
/// plan expected, the bytes read are parsed, and the operations parsed are what
/// the snapshot must allow; it commits only where that is asked for, and only in
/// the workspace that was opened; and it prints the preview that was made, in
/// the form asked for.
pub proof fn law_applications_go_on_with_what_they_were_told(
    command: ApplyCommand,
    before: ApplyPhase,
    answer: ApplyAnswer,
    phase: ApplyPhase,
    step: ApplyStep,
)
    requires
        apply_flow::goes_on(command, before, answer, phase, step),
    ensures
        before is ParsingDigest && (answer matches ApplyAnswer::DigestParsed(Ok(digest))) ==> phase
            == (ApplyPhase::Reading { expected: Some(answer->DigestParsed_0->Ok_0) }) && step
            is Read,
        before matches ApplyPhase::Reading { expected } ==> (answer matches
            ApplyAnswer::RequestRead(Ok(bytes)) ==> phase == (ApplyPhase::Parsing { expected })
            && step == ApplyStep::Parse(bytes)),
        before matches ApplyPhase::Parsing { expected } ==> (answer matches
            ApplyAnswer::RequestParsed(Ok(operations)) ==> phase == (ApplyPhase::Opening {
            expected,
            operations,
        }) && step is Open),
        before matches ApplyPhase::Opening { expected, operations } ==> (answer matches
            ApplyAnswer::Opened(Ok(workspace)) ==> if command.commit {
            &&& step matches ApplyStep::Commit { commit, requirements }
            &&& commit.expected_plan == expected
            &&& commit.startup_umask == command.startup_umask
            &&& commit.workspace == workspace
            &&& commit.phase is Planning
            &&& asks_for_all(requirements@, operations@)
        } else {
            step is Diagnose && phase == (ApplyPhase::Diagnosing { operations })
        }),
        before matches ApplyPhase::Diagnosing { operations } ==> (step matches ApplyStep::Preview {
            requirements,
            warnings,
        } ==> asks_for_all(requirements@, operations@)),
        before is Diagnosing ==> (answer matches ApplyAnswer::Diagnosed(Ok(scanned))
            ==> match apply_flow::observation(edit_command::scanned_view(scanned)) {
            Ok(expected) => {
                &&& phase is Previewing
                &&& step matches ApplyStep::Preview { requirements, warnings }
                &&& wire::warnings_view(warnings@) == expected
            },
            Err(report) => phase is Finished && (step matches ApplyStep::Refuse(error) && error@
                == report),
        }),
        before is Previewing ==> (answer matches ApplyAnswer::Previewed(Ok(preview)) ==> {
            &&& !command.json ==> (step matches ApplyStep::Print(printed) && printed@
                == preview.human@)
            &&& command.json ==> match (preview.line, step) {
                (Ok(line), ApplyStep::Print(printed)) => printed@ == line@ && text::utf8(
                    line@,
                ).len() as u64 <= 16_777_216,
                (Ok(line), ApplyStep::Refuse(error)) => text::utf8(line@).len() as u64
                    > 16_777_216 && error@.code == ErrorCode::ResourceLimitExceeded,
                (Err(error), ApplyStep::Refuse(refused)) => refused@ == error@,
                _ => false,
            }
        }),
{
    if let ApplyStep::Commit { commit, requirements } = step {
        if let ApplyPhase::Opening { expected, operations } = before {
            lemma_asks_for_all(requirements@, operations@);
        }
    }
    if let ApplyStep::Preview { requirements, warnings } = step {
        if let ApplyPhase::Diagnosing { operations } = before {
            lemma_asks_for_all(requirements@, operations@);
        }
    }
}

proof fn lemma_asks_for_all(
    requirements: Seq<commit::SnapshotRequirement>,
    operations: Seq<Operation>,
)
    requires
        apply_flow::requires_batch(requirements, operations),
    ensures
        asks_for_all(requirements, operations),
{
}

/// A failure that answers the question an `apply` command waits for ends it with
/// the report of just that failure.
pub proof fn law_failures_end_applications(
    command: ApplyCommand,
    before: ApplyPhase,
    answer: ApplyAnswer,
    phase: ApplyPhase,
    step: ApplyStep,
)
    requires
        apply_flow::goes_on(command, before, answer, phase, step),
    ensures
        match (before, answer) {
            (ApplyPhase::ParsingDigest, ApplyAnswer::DigestParsed(Err(error)))
            | (ApplyPhase::Reading { .. }, ApplyAnswer::RequestRead(Err(error)))
            | (ApplyPhase::Parsing { .. }, ApplyAnswer::RequestParsed(Err(error))) => phase
                is Finished && (step matches ApplyStep::Refuse(refused) && refused@ == error@),
            (ApplyPhase::Opening { .. }, ApplyAnswer::Opened(Err(error)))
            | (ApplyPhase::Diagnosing { .. }, ApplyAnswer::Diagnosed(Err(error)))
            | (ApplyPhase::Previewing, ApplyAnswer::Previewed(Err(error))) => phase is Finished && (
            step matches ApplyStep::Refuse(refused) && refused@ == edit_report::filesystem_report(
                error,
            )),
            _ => true,
        },
{
}

/// An `apply` command begins with the digest of the plan that it expects, or with
/// its request where it expects none: standard input for a lone hyphen, and the
/// file so named for anything else. A commit without a policy is refused.
pub proof fn law_applications_begin_with_their_policy(
    command: ApplyCommand,
    phase: ApplyPhase,
    step: ApplyStep,
)
    requires
        apply_flow::begins(command, phase, step),
    ensures
        match step {
            ApplyStep::Refuse(error) => command.commit && command.expect_plan is None
                && !command.accept_current_plan && error@.code == ErrorCode::ExpectedPlanRequired,
            ApplyStep::ParseDigest(text) => command.expect_plan matches Some(digest) && text@
                == digest@,
            ApplyStep::Read(source) => command.expect_plan is None && (command.commit
                ==> command.accept_current_plan) && match source {
                apply_flow::RequestSource::StandardInput => command.request@ == "-"@,
                apply_flow::RequestSource::File(path) => command.request@ != "-"@ && path@
                    == command.request@,
            },
            _ => false,
        },
{
}

} // verus!
