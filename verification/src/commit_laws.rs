//! What commits mean: when they go on, and what they report.

use vstd::prelude::*;

use crate::commit;
use crate::commit::{
    CommitAnswer, CommitPhase, CommitReport, CommitStepView, OutputChange, PlanSummary,
    PlannedOutput,
};
use crate::digest;
use crate::digest::Sha256Digest;
use crate::edit_report;
use crate::edit_report::{ErrorCode, ErrorView};
use crate::json::JsonView;
use crate::order;
use crate::wire;

verus! {

/// Whether a length is that of the first file of a path in a snapshot, or none
/// where the snapshot has no such file.
pub open spec fn is_length_before(
    length: Option<u64>,
    files: Seq<commit::SnapshotFile>,
    path: Seq<char>,
) -> bool {
    match length {
        Some(length) => exists|k: int|
            0 <= k < files.len() && (#[trigger] files[k]).path@ == path && files[k].byte_length
                == length && forall|m: int| 0 <= m < k ==> (#[trigger] files[m]).path@ != path,
        None => forall|k: int| 0 <= k < files.len() ==> (#[trigger] files[k]).path@ != path,
    }
}

proof fn lemma_length_before(files: Seq<commit::SnapshotFile>, path: Seq<char>)
    ensures
        is_length_before(commit::length_before(files, path), files, path),
    decreases files.len(),
{
    if files.len() > 0 && files[0].path@ != path {
        let rest = files.drop_first();
        lemma_length_before(rest, path);
        match commit::length_before(rest, path) {
            Some(length) => {
                let k = choose|k: int|
                    0 <= k < rest.len() && (#[trigger] rest[k]).path@ == path && rest[k].byte_length
                        == length && forall|m: int|
                        0 <= m < k ==> (#[trigger] rest[m]).path@ != path;
                assert(files[k + 1] == rest[k]);
                assert forall|m: int| 0 <= m < k + 1 implies (#[trigger] files[m]).path@ != path by {
                    if m > 0 {
                        assert(files[m] == rest[m - 1]);
                    }
                }
            },
            None => {
                assert forall|k: int| 0 <= k < files.len() implies (#[trigger] files[k]).path@
                    != path by {
                    if k > 0 {
                        assert(files[k] == rest[k - 1]);
                    }
                }
            },
        }
    } else if files.len() > 0 {
        assert(files[0].path@ == path);
    }
}

/// Whether paths are those of the outputs that change, in order; `places` says
/// which output each is of.
pub open spec fn are_changed_paths(
    paths: Seq<Seq<char>>,
    outputs: Seq<PlannedOutput>,
    places: Seq<int>,
) -> bool {
    &&& places.len() == paths.len()
    &&& forall|k: int|
        0 <= k < places.len() ==> 0 <= #[trigger] places[k] < outputs.len()
            && outputs[places[k]].change != OutputChange::Unchanged && paths[k]
            == outputs[places[k]].path@
    &&& forall|k: int, m: int|
        #![trigger places[k], places[m]]
        0 <= k < m < places.len() ==> places[k] < places[m]
    &&& forall|i: int|
        0 <= i < outputs.len() && (#[trigger] outputs[i]).change != OutputChange::Unchanged
            ==> places.contains(i)
}

proof fn lemma_changed_paths(outputs: Seq<PlannedOutput>) -> (places: Seq<int>)
    ensures
        are_changed_paths(commit::changed_paths(outputs), outputs, places),
    decreases outputs.len(),
{
    if outputs.len() == 0 {
        Seq::empty()
    } else {
        let shorter = outputs.drop_last();
        let last = outputs.len() - 1;
        let earlier = lemma_changed_paths(shorter);
        let places = if outputs[last].change != OutputChange::Unchanged {
            earlier.push(last)
        } else {
            earlier
        };
        assert forall|i: int|
            0 <= i < outputs.len() && (#[trigger] outputs[i]).change
                != OutputChange::Unchanged implies places.contains(i) by {
            if i < last {
                assert(shorter[i].change != OutputChange::Unchanged);
                assert(earlier.contains(i));
                let k = choose|k: int| 0 <= k < earlier.len() && earlier[k] == i;
                assert(places[k] == i);
            } else {
                assert(places[places.len() - 1] == i);
            }
        }
        places
    }
}

/// A report holds what its plan holds: the plan's digest and operations, and of
/// every output, in order, the path, the change, and the lengths and digests
/// before and after, where the length before is the snapshot's; and the paths of
/// the outputs that change.
pub proof fn law_reports_hold_the_plan(
    report: CommitReport,
    plan: PlanSummary,
    workspace: Sha256Digest,
    warnings: Seq<JsonView>,
    transaction_id: Option<Seq<char>>,
    modes: Seq<(Seq<char>, u32)>,
)
    requires
        report@ == commit::commit_report(plan, workspace, warnings, transaction_id, modes),
    ensures
        report.plan == plan.digest,
        report.workspace == workspace,
        report.operations@.len() == plan.operations@.len(),
        forall|i: int|
            0 <= i < plan.operations@.len() ==> (#[trigger] report.operations@[i])@
                == plan.operations@[i]@,
        report.outputs@.len() == plan.outputs@.len(),
        forall|i: int|
            0 <= i < plan.outputs@.len() ==> {
                let output = #[trigger] report.outputs@[i];
                &&& output.path@ == plan.outputs@[i].path@
                &&& output.change == plan.outputs@[i].change
                &&& output.original_digest == plan.outputs@[i].original_digest
                &&& output.resulting_length == plan.outputs@[i].resulting_length
                &&& output.resulting_digest == plan.outputs@[i].resulting_digest
                &&& is_length_before(output.before_length, plan.files@, output.path@)
            },
        report.warnings@.len() == warnings.len(),
        forall|i: int|
            0 <= i < warnings.len() ==> (#[trigger] report.warnings@[i])@ == warnings[i],
        match (report.transaction_id, transaction_id) {
            (Some(id), Some(expected)) => id@ == expected,
            (None, None) => true,
            _ => false,
        },
        report.preserved_permission_modes@ == modes,
        exists|places: Seq<int>| #[trigger]
            are_changed_paths(
                order::path_view(report.files_changed@),
                plan.outputs@,
                places,
            ),
{
    let expected = commit::commit_report(plan, workspace, warnings, transaction_id, modes);
    assert(report@.operations.len() == expected.operations.len());
    assert(report@.outputs.len() == expected.outputs.len());
    assert(report@.warnings.len() == expected.warnings.len());
    assert forall|i: int| 0 <= i < plan.operations@.len() implies (
    #[trigger] report.operations@[i])@ == plan.operations@[i]@ by {
        assert(report@.operations[i] == expected.operations[i]);
    }
    assert forall|i: int| 0 <= i < warnings.len() implies (#[trigger] report.warnings@[i])@
        == warnings[i] by {
        assert(report@.warnings[i] == expected.warnings[i]);
    }
    assert forall|i: int| 0 <= i < plan.outputs@.len() implies ({
        let output = #[trigger] report.outputs@[i];
        &&& output.path@ == plan.outputs@[i].path@
        &&& output.change == plan.outputs@[i].change
        &&& output.original_digest == plan.outputs@[i].original_digest
        &&& output.resulting_length == plan.outputs@[i].resulting_length
        &&& output.resulting_digest == plan.outputs@[i].resulting_digest
        &&& is_length_before(output.before_length, plan.files@, output.path@)
    }) by {
        assert(report@.outputs[i] == expected.outputs[i]);
        lemma_length_before(plan.files@, plan.outputs@[i].path@);
    }
    let places = lemma_changed_paths(plan.outputs@);
}

/// Whether a plan is another than the one that the caller expects.
pub open spec fn is_unexpected(expected: Option<Sha256Digest>, plan: PlanSummary) -> bool {
    expected matches Some(digest) && digest.0@ != plan.digest.0@
}

/// Whether an error is the refusal of a plan that the caller does not expect.
pub open spec fn is_mismatch(
    error: ErrorView,
    expected: Option<Sha256Digest>,
    plan: PlanSummary,
) -> bool {
    &&& error.code == ErrorCode::ExpectedPlanMismatch
    &&& error.context.contains(
        (
            "actual_plan_sha256"@,
            JsonView::String(digest::prefixed_hex(plan.digest.0@)),
        ),
    )
    &&& expected matches Some(digest) && error.context.contains(
        ("expected_plan_sha256"@, JsonView::String(digest::prefixed_hex(digest.0@))),
    )
}

/// A first plan is refused exactly where it is not the expected one; otherwise
/// the commit goes on with it, to the lock where it changes something, and to a
/// mere look where it changes nothing.
pub proof fn law_first_plans_are_checked(
    expected: Option<Sha256Digest>,
    startup_umask: u32,
    workspace: Sha256Digest,
    plan: PlanSummary,
)
    ensures
        ({
            let (phase, step) = commit::commit_next(
                expected,
                startup_umask,
                workspace,
                CommitPhase::Planning,
                CommitAnswer::Planned(Ok(plan)),
            );
            &&& is_unexpected(expected, plan) ==> phase is Finished && step is Refuse
                && is_mismatch(step->Refuse_0, expected, plan)
            &&& !is_unexpected(expected, plan) && plan.changed_targets == 0 ==> phase
                == CommitPhase::Diagnosing(plan) && step is Diagnose
            &&& !is_unexpected(expected, plan) && plan.changed_targets != 0 ==> phase
                == CommitPhase::Locking(plan) && step is Lock
        }),
{
    let context = commit::mismatch_report(expected, plan.digest).context;
    assert(context.contains(context[0]));
    assert(context.contains(context[1]));
}

/// Under the lock, the journal is looked at before the plan is made again, and
/// the new plan is committed exactly where it is the expected one and has the
/// digest of the first; what is committed is the new plan.
pub proof fn law_locked_plans_are_checked(
    expected: Option<Sha256Digest>,
    startup_umask: u32,
    workspace: Sha256Digest,
    first: PlanSummary,
    plan: PlanSummary,
)
    ensures
        commit::commit_next(
            expected,
            startup_umask,
            workspace,
            CommitPhase::Locking(first),
            CommitAnswer::Locked(Ok(())),
        ) == (CommitPhase::Gating(first), CommitStepView::Gate),
        commit::commit_next(
            expected,
            startup_umask,
            workspace,
            CommitPhase::Gating(first),
            CommitAnswer::Gated(Ok(())),
        ) == (CommitPhase::Replanning(first), CommitStepView::Plan),
        ({
            let (phase, step) = commit::commit_next(
                expected,
                startup_umask,
                workspace,
                CommitPhase::Replanning(first),
                CommitAnswer::Planned(Ok(plan)),
            );
            &&& is_unexpected(expected, plan) ==> phase is Finished && step is Refuse
                && is_mismatch(step->Refuse_0, expected, plan)
            &&& !is_unexpected(expected, plan) && plan.digest.0@ != first.digest.0@ ==> phase
                is Finished && step is Refuse && step->Refuse_0.code
                == ErrorCode::PlanChangedDuringCommit && step->Refuse_0.context.contains(
                (
                    "locked_plan_sha256"@,
                    JsonView::String(digest::prefixed_hex(plan.digest.0@)),
                ),
            ) && step->Refuse_0.context.contains(
                (
                    "prelock_plan_sha256"@,
                    JsonView::String(digest::prefixed_hex(first.digest.0@)),
                ),
            )
            &&& !is_unexpected(expected, plan) && plan.digest.0@ == first.digest.0@ ==> phase
                == CommitPhase::Committing(plan) && step == CommitStepView::Commit(
                0o666u32 & !startup_umask,
            )
        }),
{
    let context = commit::mismatch_report(expected, plan.digest).context;
    assert(context.contains(context[0]));
    assert(context.contains(context[1]));
    let changed = commit::changed_report(first.digest, plan.digest).context;
    assert(changed.contains(changed[0]));
    assert(changed.contains(changed[1]));
}

/// The failure that an answer tells of, where it answers the question that a
/// commit waits for.
pub open spec fn failure_of(phase: CommitPhase, answer: CommitAnswer) -> Option<
    edit_report::FsError,
> {
    match (phase, answer) {
        (CommitPhase::Planning, CommitAnswer::Planned(Err(error))) => Some(error),
        (CommitPhase::Diagnosing(_), CommitAnswer::Diagnosed(Err(error))) => Some(error),
        (CommitPhase::Locking(_), CommitAnswer::Locked(Err(error))) => Some(error),
        (CommitPhase::Gating(_), CommitAnswer::Gated(Err(error))) => Some(error),
        (CommitPhase::Replanning(_), CommitAnswer::Planned(Err(error))) => Some(error),
        (CommitPhase::Committing(_), CommitAnswer::Committed(Err(error))) => Some(error),
        _ => None,
    }
}

/// Every failure of the workspace ends a commit with the report of just that
/// failure.
pub proof fn law_failures_end_commits(
    expected: Option<Sha256Digest>,
    startup_umask: u32,
    workspace: Sha256Digest,
    phase: CommitPhase,
    answer: CommitAnswer,
)
    ensures
        failure_of(phase, answer) matches Some(error) ==> commit::commit_next(
            expected,
            startup_umask,
            workspace,
            phase,
            answer,
        ) == (
            CommitPhase::Finished,
            CommitStepView::Refuse(edit_report::filesystem_report(error)),
        ),
{
}

/// A commit reports exactly when it is over without failure: of the plan that
/// changes nothing, with the warnings of the look and without transaction; or of
/// the plan that was committed, with the one warning about metadata, the
/// transaction, and the modes that the workspace gave.
pub proof fn law_commits_report_what_was_committed(
    expected: Option<Sha256Digest>,
    startup_umask: u32,
    workspace: Sha256Digest,
    phase: CommitPhase,
    answer: CommitAnswer,
)
    ensures
        ({
            let (next, step) = commit::commit_next(
                expected,
                startup_umask,
                workspace,
                phase,
                answer,
            );
            &&& step is Report <==> {
                ||| phase is Diagnosing && (answer matches CommitAnswer::Diagnosed(Ok(_)))
                ||| phase is Committing && (answer matches CommitAnswer::Committed(Ok(_)))
            }
            &&& step is Report ==> next is Finished
            &&& phase matches CommitPhase::Diagnosing(plan) ==> (answer matches
                CommitAnswer::Diagnosed(Ok(warnings)) ==> step == CommitStepView::Report(
                commit::commit_report(
                    plan,
                    workspace,
                    wire::warnings_view(warnings@),
                    None,
                    Seq::empty(),
                ),
            ))
            &&& phase matches CommitPhase::Committing(plan) ==> (answer matches
                CommitAnswer::Committed(Ok(outcome)) ==> step == CommitStepView::Report(
                commit::commit_report(
                    plan,
                    workspace,
                    seq![commit::metadata_warning()],
                    Some(outcome.transaction_id@),
                    outcome.preserved_permission_modes@,
                ),
            ))
        }),
{
}

/// The requirements of a batch are, for each operation in order, the state that
/// its source and then the state that its destination must be found in: the
/// file of the digest named, or no file.
pub proof fn law_requirements_follow_the_preconditions(
    requirement: commit::SnapshotRequirement,
    end: commit::Endpoint,
)
    requires
        commit::requires_end(requirement, end),
    ensures
        requirement.path@ == end.path@,
        match end.precondition {
            commit::Precondition::Sha256(digest) => requirement.state
                == commit::RequiredPathState::Existing(digest),
            commit::Precondition::MustNotExist => requirement.state is Absent,
        },
{
}

/// The ends of an operation are those it names, whether it moves or copies.
pub proof fn law_operations_have_their_ends(specification: commit::Specification)
    ensures
        commit::specification_of(commit::Operation::Move(specification)) == specification,
        commit::specification_of(commit::Operation::Copy(specification)) == specification,
{
}

/// A commit is refused exactly where it names no policy for the plan.
pub proof fn law_commits_name_a_policy(commit: bool, expects_plan: bool, accepts_current_plan: bool)
    ensures
        match commit::policy_refusal(commit, expects_plan, accepts_current_plan) {
            Some(error) => commit && !expects_plan && !accepts_current_plan && error.code
                == ErrorCode::ExpectedPlanRequired,
            None => commit ==> expects_plan || accepts_current_plan,
        },
{
}

} // verus!
