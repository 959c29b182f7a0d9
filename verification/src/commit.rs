//! The commit of an edit plan as a sequence of questions to the workspace.

use vstd::prelude::*;
use vstd::string::StringExecFns;

use crate::digest;
use crate::digest::Sha256Digest;
use crate::edit_command;
use crate::edit_command::plain_error;
use crate::edit_report;
use crate::edit_report::{
    filesystem_error, json_optional_digest, ErrorCode, ErrorDto, ErrorView, FsError,
};
use crate::json;
use crate::json::{json_text, named, Json, JsonView};
use crate::order;
use crate::terminal;
use crate::terminal::escape_terminal_text;
use crate::text::{bytes_equal, text_equal};
use crate::text_map::TextMap;
use crate::wire;
use crate::wire::{WarningCode, WarningDto};

verus! {

/// What must hold of a path before an edit.
#[derive(Clone, Debug, PartialEq, Eq)]
pub enum Precondition {
    /// The path holds exactly the bytes of this digest.
    Sha256(Sha256Digest),
    /// The path does not exist.
    MustNotExist,
}

/// One end of an edit.
#[derive(Clone, Debug, PartialEq, Eq)]
pub struct Endpoint {
    /// The workspace-relative path.
    pub path: String,
    /// What must hold of it.
    pub precondition: Precondition,
}

/// The two ends of an edit.
#[derive(Clone, Debug, PartialEq, Eq)]
pub struct Specification {
    /// Where the bytes come from.
    pub source: Endpoint,
    /// Where the bytes go.
    pub destination: Endpoint,
}

/// One requested edit.
#[derive(Clone, Debug, PartialEq, Eq)]
pub enum Operation {
    /// Move bytes.
    Move(Specification),
    /// Copy bytes.
    Copy(Specification),
}

/// The state that a path must be found in.
#[derive(Clone, Debug, PartialEq, Eq)]
pub enum RequiredPathState {
    /// An existing file of this digest.
    Existing(Sha256Digest),
    /// No file.
    Absent,
}

/// A path and the state that it must be found in.
#[derive(Clone, Debug, PartialEq, Eq)]
pub struct SnapshotRequirement {
    /// The workspace-relative path.
    pub path: String,
    /// Its required state.
    pub state: RequiredPathState,
}

/// The state that a precondition requires.
pub open spec fn state_required(precondition: Precondition) -> RequiredPathState {
    match precondition {
        Precondition::Sha256(digest) => RequiredPathState::Existing(digest),
        Precondition::MustNotExist => RequiredPathState::Absent,
    }
}

/// The ends of an operation.
pub open spec fn specification_of(operation: Operation) -> Specification {
    match operation {
        Operation::Move(specification) => specification,
        Operation::Copy(specification) => specification,
    }
}

/// Whether a requirement is the one of an end.
pub open spec fn requires_end(requirement: SnapshotRequirement, end: Endpoint) -> bool {
    requirement.path@ == end.path@ && requirement.state == state_required(end.precondition)
}

/// Returns the state that a precondition requires.
pub fn required_state(precondition: &Precondition) -> (state: RequiredPathState)
    ensures
        state == state_required(*precondition),
{
    match precondition {
        Precondition::Sha256(digest) => RequiredPathState::Existing(*digest),
        Precondition::MustNotExist => RequiredPathState::Absent,
    }
}

/// Returns the requirements of a batch: source and destination of each
/// operation, in order.
pub fn snapshot_requirements(operations: &Vec<Operation>) -> (requirements: Vec<SnapshotRequirement>)
    ensures
        requirements@.len() == 2 * operations@.len(),
        forall|i: int|
            #![trigger operations@[i]]
            0 <= i < operations@.len() ==> requires_end(
                requirements@[2 * i],
                specification_of(operations@[i]).source,
            ) && requires_end(
                requirements@[2 * i + 1],
                specification_of(operations@[i]).destination,
            ),
{
    let mut requirements: Vec<SnapshotRequirement> = Vec::new();
    let mut index: usize = 0;
    while index < operations.len()
        invariant
            index <= operations@.len(),
            requirements@.len() == 2 * index,
            forall|i: int|
                #![trigger operations@[i]]
                0 <= i < index ==> requires_end(
                    requirements@[2 * i],
                    specification_of(operations@[i]).source,
                ) && requires_end(
                    requirements@[2 * i + 1],
                    specification_of(operations@[i]).destination,
                ),
        decreases operations@.len() - index,
    {
        let specification = match &operations[index] {
            Operation::Move(specification) => specification,
            Operation::Copy(specification) => specification,
        };
        requirements.push(
            SnapshotRequirement {
                path: specification.source.path.clone(),
                state: required_state(&specification.source.precondition),
            },
        );
        requirements.push(
            SnapshotRequirement {
                path: specification.destination.path.clone(),
                state: required_state(&specification.destination.precondition),
            },
        );
        index = index + 1;
    }
    requirements
}

/// The report for a commit that names no expected-plan policy.
pub open spec fn policy_refusal(
    commit: bool,
    expects_plan: bool,
    accepts_current_plan: bool,
) -> Option<ErrorView> {
    if commit && !expects_plan && !accepts_current_plan {
        Some(
            edit_command::plain_report(
                ErrorCode::ExpectedPlanRequired,
                "commit requires exactly one expected-plan policy"@,
            ),
        )
    } else {
        None
    }
}

/// Refuses a commit that names no expected-plan policy.
pub fn validate_plan_policy(commit: bool, expects_plan: bool, accepts_current_plan: bool) -> (outcome:
    Result<(), ErrorDto>)
    ensures
        edit_command::refuses_as(
            outcome,
            policy_refusal(commit, expects_plan, accepts_current_plan),
        ),
{
    if commit && !expects_plan && !accepts_current_plan {
        Err(
            plain_error(
                ErrorCode::ExpectedPlanRequired,
                "commit requires exactly one expected-plan policy",
            ),
        )
    } else {
        Ok(())
    }
}

/// How a plan changes one output.
#[derive(Clone, Copy, Debug, PartialEq, Eq, Structural)]
pub enum OutputChange {
    /// The file is new.
    Created,
    /// The file's bytes change.
    Modified,
    /// The file's bytes stay.
    Unchanged,
}

/// One output of a plan.
#[derive(Clone, Debug, PartialEq, Eq)]
pub struct PlannedOutput {
    /// The workspace-relative path.
    pub path: String,
    /// How it changes.
    pub change: OutputChange,
    /// The digest of its bytes before.
    pub original_digest: Option<Sha256Digest>,
    /// The length of its bytes after.
    pub resulting_length: u64,
    /// The digest of its bytes after.
    pub resulting_digest: Sha256Digest,
}

/// One file of a snapshot.
#[derive(Clone, Debug, PartialEq, Eq)]
pub struct SnapshotFile {
    /// The workspace-relative path.
    pub path: String,
    /// The length of its bytes.
    pub byte_length: u64,
}

/// A plan, and the snapshot that it was made from.
#[derive(Clone, Debug, PartialEq)]
pub struct PlanSummary {
    /// The plan's digest.
    pub digest: Sha256Digest,
    /// The resolved operations in their reported form, in order.
    pub operations: Vec<Json>,
    /// How many targets change.
    pub changed_targets: u64,
    /// The outputs, in order.
    pub outputs: Vec<PlannedOutput>,
    /// The snapshot's files.
    pub files: Vec<SnapshotFile>,
}

/// One output of a commit report.
#[derive(Clone, Debug, PartialEq, Eq)]
pub struct CommittedOutput {
    /// The workspace-relative path.
    pub path: String,
    /// How it changed.
    pub change: OutputChange,
    /// The length of its bytes before, where it existed.
    pub before_length: Option<u64>,
    /// The digest of its bytes before.
    pub original_digest: Option<Sha256Digest>,
    /// The length of its bytes after.
    pub resulting_length: u64,
    /// The digest of its bytes after.
    pub resulting_digest: Sha256Digest,
}

/// The mathematical value of a [`CommittedOutput`].
#[verifier::ext_equal]
pub struct CommittedOutputView {
    pub path: Seq<char>,
    pub change: OutputChange,
    pub before_length: Option<u64>,
    pub original_digest: Option<Sha256Digest>,
    pub resulting_length: u64,
    pub resulting_digest: Sha256Digest,
}

impl View for CommittedOutput {
    type V = CommittedOutputView;

    open spec fn view(&self) -> CommittedOutputView {
        CommittedOutputView {
            path: self.path@,
            change: self.change,
            before_length: self.before_length,
            original_digest: self.original_digest,
            resulting_length: self.resulting_length,
            resulting_digest: self.resulting_digest,
        }
    }
}

/// What a commit reports.
#[derive(Clone, Debug, PartialEq)]
pub struct CommitReport {
    /// The committed plan's digest.
    pub plan: Sha256Digest,
    /// The opaque workspace identity.
    pub workspace: Sha256Digest,
    /// The resolved operations, in order.
    pub operations: Vec<Json>,
    /// The outputs, in order.
    pub outputs: Vec<CommittedOutput>,
    /// The warnings.
    pub warnings: Vec<WarningDto>,
    /// The transaction, unless nothing changed.
    pub transaction_id: Option<String>,
    /// The paths whose bytes changed, in order.
    pub files_changed: Vec<String>,
    /// The permission modes that were kept, by path.
    pub preserved_permission_modes: TextMap<u32>,
}

/// The mathematical value of a [`CommitReport`].
#[verifier::ext_equal]
pub struct CommitReportView {
    pub plan: Sha256Digest,
    pub workspace: Sha256Digest,
    pub operations: Seq<JsonView>,
    pub outputs: Seq<CommittedOutputView>,
    pub warnings: Seq<JsonView>,
    pub transaction_id: Option<Seq<char>>,
    pub files_changed: Seq<Seq<char>>,
    pub preserved_permission_modes: Seq<(Seq<char>, u32)>,
}

impl View for CommitReport {
    type V = CommitReportView;

    open spec fn view(&self) -> CommitReportView {
        CommitReportView {
            plan: self.plan,
            workspace: self.workspace,
            operations: json::items_view(self.operations@),
            outputs: Seq::new(self.outputs@.len(), |i: int| self.outputs@[i]@),
            warnings: wire::warnings_view(self.warnings@),
            transaction_id: order::optional_text(self.transaction_id),
            files_changed: order::path_view(self.files_changed@),
            preserved_permission_modes: self.preserved_permission_modes@,
        }
    }
}

/// The length of the first snapshot file of a path.
pub open spec fn length_before(files: Seq<SnapshotFile>, path: Seq<char>) -> Option<u64>
    decreases files.len(),
{
    if files.len() == 0 {
        None
    } else if files[0].path@ == path {
        Some(files[0].byte_length)
    } else {
        length_before(files.drop_first(), path)
    }
}

/// The report's record of one output.
pub open spec fn committed_output(
    output: PlannedOutput,
    files: Seq<SnapshotFile>,
) -> CommittedOutputView {
    CommittedOutputView {
        path: output.path@,
        change: output.change,
        before_length: length_before(files, output.path@),
        original_digest: output.original_digest,
        resulting_length: output.resulting_length,
        resulting_digest: output.resulting_digest,
    }
}

/// The paths of the outputs that change, in order.
pub open spec fn changed_paths(outputs: Seq<PlannedOutput>) -> Seq<Seq<char>>
    decreases outputs.len(),
{
    if outputs.len() == 0 {
        Seq::empty()
    } else if outputs.last().change != OutputChange::Unchanged {
        changed_paths(outputs.drop_last()).push(outputs.last().path@)
    } else {
        changed_paths(outputs.drop_last())
    }
}

/// The report of a plan.
pub open spec fn commit_report(
    plan: PlanSummary,
    workspace: Sha256Digest,
    warnings: Seq<JsonView>,
    transaction_id: Option<Seq<char>>,
    modes: Seq<(Seq<char>, u32)>,
) -> CommitReportView {
    CommitReportView {
        plan: plan.digest,
        workspace,
        operations: json::items_view(plan.operations@),
        outputs: Seq::new(
            plan.outputs@.len(),
            |i: int| committed_output(plan.outputs@[i], plan.files@),
        ),
        warnings,
        transaction_id,
        files_changed: changed_paths(plan.outputs@),
        preserved_permission_modes: modes,
    }
}

/// Returns the length of the first snapshot file of a path.
fn find_length(files: &Vec<SnapshotFile>, path: &str) -> (length: Option<u64>)
    ensures
        length == length_before(files@, path@),
{
    let mut index: usize = 0;
    assert(files@.skip(0) =~= files@);
    while index < files.len()
        invariant
            index <= files@.len(),
            length_before(files@, path@) == length_before(files@.skip(index as int), path@),
        decreases files@.len() - index,
    {
        assert(files@.skip(index as int).drop_first() =~= files@.skip(index + 1));
        assert(files@.skip(index as int)[0] == files@[index as int]);
        if text_equal(files[index].path.as_str(), path) {
            return Some(files[index].byte_length);
        }
        index = index + 1;
    }
    None
}

/// Returns the same values.
fn copy_values(values: &Vec<Json>) -> (copies: Vec<Json>)
    ensures
        json::items_view(copies@) == json::items_view(values@),
{
    let mut copies: Vec<Json> = Vec::new();
    let mut index: usize = 0;
    while index < values.len()
        invariant
            index <= values@.len(),
            copies@.len() == index,
            forall|i: int| 0 <= i < index ==> (#[trigger] copies@[i])@ == values@[i]@,
        decreases values@.len() - index,
    {
        copies.push(values[index].clone());
        index = index + 1;
    }
    assert(json::items_view(copies@) =~= json::items_view(values@));
    copies
}

/// Returns the report of a plan.
pub fn build_commit_response(
    plan: &PlanSummary,
    workspace: Sha256Digest,
    warnings: Vec<WarningDto>,
    transaction_id: Option<String>,
    preserved_permission_modes: TextMap<u32>,
) -> (report: CommitReport)
    ensures
        report@ == commit_report(
            *plan,
            workspace,
            wire::warnings_view(warnings@),
            order::optional_text(transaction_id),
            preserved_permission_modes@,
        ),
{
    let mut outputs: Vec<CommittedOutput> = Vec::new();
    let mut files_changed: Vec<String> = Vec::new();
    let mut index: usize = 0;
    assert(plan.outputs@.take(0) =~= Seq::<PlannedOutput>::empty());
    assert(order::path_view(files_changed@) =~= changed_paths(plan.outputs@.take(0)));
    while index < plan.outputs.len()
        invariant
            index <= plan.outputs@.len(),
            outputs@.len() == index,
            forall|i: int|
                0 <= i < index ==> (#[trigger] outputs@[i])@ == committed_output(
                    plan.outputs@[i],
                    plan.files@,
                ),
            order::path_view(files_changed@) == changed_paths(plan.outputs@.take(index as int)),
        decreases plan.outputs@.len() - index,
    {
        let output = &plan.outputs[index];
        let ghost taken = plan.outputs@.take(index + 1);
        assert(taken.drop_last() =~= plan.outputs@.take(index as int));
        let ghost before = files_changed@;
        outputs.push(
            CommittedOutput {
                path: output.path.clone(),
                change: output.change,
                before_length: find_length(&plan.files, output.path.as_str()),
                original_digest: output.original_digest,
                resulting_length: output.resulting_length,
                resulting_digest: output.resulting_digest,
            },
        );
        if output.change != OutputChange::Unchanged {
            files_changed.push(output.path.clone());
            assert(order::path_view(files_changed@) =~= order::path_view(before).push(
                output.path@,
            ));
        }
        index = index + 1;
    }
    assert(plan.outputs@.take(index as int) =~= plan.outputs@);
    let report = CommitReport {
        plan: plan.digest,
        workspace,
        operations: copy_values(&plan.operations),
        outputs,
        warnings,
        transaction_id,
        files_changed,
        preserved_permission_modes,
    };
    assert(report@.outputs =~= Seq::new(
        plan.outputs@.len(),
        |i: int| committed_output(plan.outputs@[i], plan.files@),
    ));
    report
}

/// Returns whether two digests are the same.
pub fn digests_equal(left: &Sha256Digest, right: &Sha256Digest) -> (equal: bool)
    ensures
        equal == (left.0@ == right.0@),
{
    bytes_equal(left.0.as_slice(), right.0.as_slice())
}

/// The report for a plan that is not the expected one.
pub open spec fn mismatch_report(expected: Option<Sha256Digest>, actual: Sha256Digest) -> ErrorView {
    ErrorView {
        code: ErrorCode::ExpectedPlanMismatch,
        message: "the current resolved plan does not match --expect-plan"@,
        context: seq![
            ("actual_plan_sha256"@, JsonView::String(digest::prefixed_hex(actual.0@))),
            ("expected_plan_sha256"@, edit_report::optional_digest_json(expected)),
        ],
    }
}

/// Returns the report for a plan that is not the expected one.
pub fn expected_plan_mismatch(expected: Option<Sha256Digest>, actual: Sha256Digest) -> (error:
    ErrorDto)
    ensures
        error@ == mismatch_report(expected, actual),
{
    proof {
        wire::lemma_context_keys_ascend();
    }
    let context = vec![
        named("actual_plan_sha256", json_text(actual.to_prefixed_hex().as_str())),
        named("expected_plan_sha256", json_optional_digest(&expected)),
    ];
    assert(json::members_view(context@) =~= mismatch_report(expected, actual).context);
    ErrorDto::new(
        ErrorCode::ExpectedPlanMismatch,
        "the current resolved plan does not match --expect-plan",
        context,
    )
}

/// The report for a plan that changed while the lock was acquired.
pub open spec fn changed_report(prelock: Sha256Digest, locked: Sha256Digest) -> ErrorView {
    ErrorView {
        code: ErrorCode::PlanChangedDuringCommit,
        message: "the resolved plan changed while acquiring the mutation lock"@,
        context: seq![
            ("locked_plan_sha256"@, JsonView::String(digest::prefixed_hex(locked.0@))),
            ("prelock_plan_sha256"@, JsonView::String(digest::prefixed_hex(prelock.0@))),
        ],
    }
}

/// Returns the report for a plan that changed while the lock was acquired.
fn plan_changed_error(prelock: Sha256Digest, locked: Sha256Digest) -> (error: ErrorDto)
    ensures
        error@ == changed_report(prelock, locked),
{
    proof {
        wire::lemma_context_keys_ascend();
    }
    let context = vec![
        named("locked_plan_sha256", json_text(locked.to_prefixed_hex().as_str())),
        named("prelock_plan_sha256", json_text(prelock.to_prefixed_hex().as_str())),
    ];
    assert(json::members_view(context@) =~= changed_report(prelock, locked).context);
    ErrorDto::new(
        ErrorCode::PlanChangedDuringCommit,
        "the resolved plan changed while acquiring the mutation lock",
        context,
    )
}

/// Whether a plan is one that a commit may go on with.
pub open spec fn is_expected(expected: Option<Sha256Digest>, actual: Sha256Digest) -> bool {
    expected is Some ==> (expected->Some_0).0@ == actual.0@
}

/// Returns whether a plan is one that a commit may go on with.
fn plan_is_expected(expected: &Option<Sha256Digest>, actual: &Sha256Digest) -> (fits: bool)
    ensures
        fits == is_expected(*expected, *actual),
{
    match expected {
        Some(expected) => digests_equal(expected, actual),
        None => true,
    }
}

/// Where a commit stands: the question that is pending, and the plan that the
/// answers so far led to.
pub enum CommitPhase {
    /// A first plan is being made.
    Planning,
    /// Nothing changes; the diagnostic lock is being looked at.
    Diagnosing(PlanSummary),
    /// The mutation lock is being acquired.
    Locking(PlanSummary),
    /// The journal is being checked for unfinished transactions.
    Gating(PlanSummary),
    /// The plan is being made again, under the lock.
    Replanning(PlanSummary),
    /// The plan is being committed.
    Committing(PlanSummary),
    /// The commit is over.
    Finished,
}

/// A commit in progress.
pub struct Commit {
    /// The plan that the caller expects.
    pub expected_plan: Option<Sha256Digest>,
    /// The process's file-mode creation mask.
    pub startup_umask: u32,
    /// The opaque workspace identity.
    pub workspace: Sha256Digest,
    /// Where it stands.
    pub phase: CommitPhase,
}

/// What a commit left behind.
#[derive(Clone, Debug, PartialEq, Eq)]
pub struct CommitOutcome {
    /// The transaction's identifier.
    pub transaction_id: String,
    /// The permission modes that were kept, by path.
    pub preserved_permission_modes: TextMap<u32>,
}

/// What the workspace answered to the pending question.
pub enum CommitAnswer {
    /// A snapshot was acquired and a plan was made.
    Planned(Result<PlanSummary, FsError>),
    /// The diagnostic lock was looked at.
    Diagnosed(Result<Vec<WarningDto>, FsError>),
    /// The mutation lock was acquired.
    Locked(Result<(), FsError>),
    /// The journal was checked.
    Gated(Result<(), FsError>),
    /// The plan was committed.
    Committed(Result<CommitOutcome, FsError>),
}

/// What a commit does next.
#[derive(Debug, PartialEq)]
pub enum CommitStep {
    /// Acquire a snapshot and make a plan.
    Plan,
    /// Look at the diagnostic lock.
    Diagnose,
    /// Acquire the mutation lock.
    Lock,
    /// Check the journal for unfinished transactions.
    Gate,
    /// Commit the plan; new files get this mode.
    Commit(u32),
    /// Report.
    Report(CommitReport),
    /// Fail.
    Refuse(ErrorDto),
    /// The commit is over.
    Done,
}

/// The mathematical value of a [`CommitStep`].
#[verifier::ext_equal]
pub enum CommitStepView {
    Plan,
    Diagnose,
    Lock,
    Gate,
    Commit(u32),
    Report(CommitReportView),
    Refuse(ErrorView),
    Done,
}

impl View for CommitStep {
    type V = CommitStepView;

    open spec fn view(&self) -> CommitStepView {
        match self {
            CommitStep::Plan => CommitStepView::Plan,
            CommitStep::Diagnose => CommitStepView::Diagnose,
            CommitStep::Lock => CommitStepView::Lock,
            CommitStep::Gate => CommitStepView::Gate,
            CommitStep::Commit(mode) => CommitStepView::Commit(*mode),
            CommitStep::Report(report) => CommitStepView::Report(report@),
            CommitStep::Refuse(error) => CommitStepView::Refuse(error@),
            CommitStep::Done => CommitStepView::Done,
        }
    }
}

/// The mode of a new file: read and write for all, less the mask.
pub open spec fn new_file_mode(startup_umask: u32) -> u32 {
    0o666u32 & !startup_umask
}

/// The question that a phase waits for.
pub open spec fn pending(phase: CommitPhase, startup_umask: u32) -> CommitStepView {
    match phase {
        CommitPhase::Planning => CommitStepView::Plan,
        CommitPhase::Diagnosing(_) => CommitStepView::Diagnose,
        CommitPhase::Locking(_) => CommitStepView::Lock,
        CommitPhase::Gating(_) => CommitStepView::Gate,
        CommitPhase::Replanning(_) => CommitStepView::Plan,
        CommitPhase::Committing(_) => CommitStepView::Commit(new_file_mode(startup_umask)),
        CommitPhase::Finished => CommitStepView::Done,
    }
}

/// The warning of every commit that changed something.
pub open spec fn metadata_warning() -> JsonView {
    wire::warning_json(
        WarningCode::MetadataNotPreserved,
        "metadata outside content bytes and POSIX permission bits is not preserved"@,
        Seq::empty(),
    )
}

/// What ends a commit with a failure.
pub open spec fn failed(report: ErrorView) -> (CommitPhase, CommitStepView) {
    (CommitPhase::Finished, CommitStepView::Refuse(report))
}

/// What a commit that stands at `phase` does after an answer. An answer to
/// another question leaves the commit where it stands.
pub open spec fn commit_next(
    expected: Option<Sha256Digest>,
    startup_umask: u32,
    workspace: Sha256Digest,
    phase: CommitPhase,
    answer: CommitAnswer,
) -> (CommitPhase, CommitStepView) {
    match (phase, answer) {
        (CommitPhase::Planning, CommitAnswer::Planned(Err(error))) => failed(
            edit_report::filesystem_report(error),
        ),
        (CommitPhase::Planning, CommitAnswer::Planned(Ok(plan))) => if !is_expected(
            expected,
            plan.digest,
        ) {
            failed(mismatch_report(expected, plan.digest))
        } else if plan.changed_targets == 0 {
            (CommitPhase::Diagnosing(plan), CommitStepView::Diagnose)
        } else {
            (CommitPhase::Locking(plan), CommitStepView::Lock)
        },
        (CommitPhase::Diagnosing(_), CommitAnswer::Diagnosed(Err(error))) => failed(
            edit_report::filesystem_report(error),
        ),
        (CommitPhase::Diagnosing(plan), CommitAnswer::Diagnosed(Ok(warnings))) => (
            CommitPhase::Finished,
            CommitStepView::Report(
                commit_report(
                    plan,
                    workspace,
                    wire::warnings_view(warnings@),
                    None,
                    Seq::empty(),
                ),
            ),
        ),
        (CommitPhase::Locking(_), CommitAnswer::Locked(Err(error))) => failed(
            edit_report::filesystem_report(error),
        ),
        (CommitPhase::Locking(plan), CommitAnswer::Locked(Ok(()))) => (
            CommitPhase::Gating(plan),
            CommitStepView::Gate,
        ),
        (CommitPhase::Gating(_), CommitAnswer::Gated(Err(error))) => failed(
            edit_report::filesystem_report(error),
        ),
        (CommitPhase::Gating(plan), CommitAnswer::Gated(Ok(()))) => (
            CommitPhase::Replanning(plan),
            CommitStepView::Plan,
        ),
        (CommitPhase::Replanning(_), CommitAnswer::Planned(Err(error))) => failed(
            edit_report::filesystem_report(error),
        ),
        (CommitPhase::Replanning(prelock), CommitAnswer::Planned(Ok(locked))) => if !is_expected(
            expected,
            locked.digest,
        ) {
            failed(mismatch_report(expected, locked.digest))
        } else if locked.digest.0@ != prelock.digest.0@ {
            failed(changed_report(prelock.digest, locked.digest))
        } else {
            (
                CommitPhase::Committing(locked),
                CommitStepView::Commit(new_file_mode(startup_umask)),
            )
        },
        (CommitPhase::Committing(_), CommitAnswer::Committed(Err(error))) => failed(
            edit_report::filesystem_report(error),
        ),
        (CommitPhase::Committing(plan), CommitAnswer::Committed(Ok(outcome))) => (
            CommitPhase::Finished,
            CommitStepView::Report(
                commit_report(
                    plan,
                    workspace,
                    seq![metadata_warning()],
                    Some(outcome.transaction_id@),
                    outcome.preserved_permission_modes@,
                ),
            ),
        ),
        (phase, _) => (phase, pending(phase, startup_umask)),
    }
}

/// Returns the mode of a new file.
pub fn file_mode(startup_umask: u32) -> (mode: u32)
    ensures
        mode == new_file_mode(startup_umask),
{
    0o666u32 & !startup_umask
}

/// Returns the warning of every commit that changed something.
fn metadata_warnings() -> (warnings: Vec<WarningDto>)
    ensures
        wire::warnings_view(warnings@) == seq![metadata_warning()],
{
    let context: Vec<(String, Json)> = Vec::new();
    assert(json::members_view(context@) =~= Seq::<(Seq<char>, JsonView)>::empty());
    let warnings = vec![
        WarningDto::new(
            WarningCode::MetadataNotPreserved,
            "metadata outside content bytes and POSIX permission bits is not preserved",
            context,
        ),
    ];
    assert(wire::warnings_view(warnings@) =~= seq![metadata_warning()]);
    warnings
}

impl Commit {
    /// Starts a commit; its first question is for a plan.
    pub fn new(
        expected_plan: Option<Sha256Digest>,
        startup_umask: u32,
        workspace: Sha256Digest,
    ) -> (commit: Self)
        ensures
            commit == (Commit {
                expected_plan,
                startup_umask,
                workspace,
                phase: CommitPhase::Planning,
            }),
    {
        Commit { expected_plan, startup_umask, workspace, phase: CommitPhase::Planning }
    }

    /// Returns the pending question.
    pub fn pending(&self) -> (step: CommitStep)
        ensures
            step@ == pending(self.phase, self.startup_umask),
    {
        match &self.phase {
            CommitPhase::Planning => CommitStep::Plan,
            CommitPhase::Diagnosing(_) => CommitStep::Diagnose,
            CommitPhase::Locking(_) => CommitStep::Lock,
            CommitPhase::Gating(_) => CommitStep::Gate,
            CommitPhase::Replanning(_) => CommitStep::Plan,
            CommitPhase::Committing(_) => CommitStep::Commit(file_mode(self.startup_umask)),
            CommitPhase::Finished => CommitStep::Done,
        }
    }

    /// Takes an answer and returns the commit with its next step.
    pub fn advance(self, answer: CommitAnswer) -> (next: (Commit, CommitStep))
        ensures
            ({
                let expected = commit_next(
                    self.expected_plan,
                    self.startup_umask,
                    self.workspace,
                    self.phase,
                    answer,
                );
                &&& next.0 == (Commit { phase: expected.0, ..self })
                &&& next.1@ == expected.1
            }),
    {
        let Commit { expected_plan, startup_umask, workspace, phase } = self;
        let (phase, step) = match (phase, answer) {
            (CommitPhase::Planning, CommitAnswer::Planned(Err(error))) => (
                CommitPhase::Finished,
                CommitStep::Refuse(filesystem_error(&error)),
            ),
            (CommitPhase::Planning, CommitAnswer::Planned(Ok(plan))) => {
                if !plan_is_expected(&expected_plan, &plan.digest) {
                    (
                        CommitPhase::Finished,
                        CommitStep::Refuse(expected_plan_mismatch(expected_plan, plan.digest)),
                    )
                } else if plan.changed_targets == 0 {
                    (CommitPhase::Diagnosing(plan), CommitStep::Diagnose)
                } else {
                    (CommitPhase::Locking(plan), CommitStep::Lock)
                }
            },
            (CommitPhase::Diagnosing(_), CommitAnswer::Diagnosed(Err(error))) => (
                CommitPhase::Finished,
                CommitStep::Refuse(filesystem_error(&error)),
            ),
            (CommitPhase::Diagnosing(plan), CommitAnswer::Diagnosed(Ok(warnings))) => {
                let none: Vec<(String, u32)> = Vec::new();
                let modes = TextMap::from_entries(none);
                assert(modes@ =~= Seq::<(Seq<char>, u32)>::empty());
                let report = build_commit_response(&plan, workspace, warnings, None, modes);
                (CommitPhase::Finished, CommitStep::Report(report))
            },
            (CommitPhase::Locking(_), CommitAnswer::Locked(Err(error))) => (
                CommitPhase::Finished,
                CommitStep::Refuse(filesystem_error(&error)),
            ),
            (CommitPhase::Locking(plan), CommitAnswer::Locked(Ok(()))) => (
                CommitPhase::Gating(plan),
                CommitStep::Gate,
            ),
            (CommitPhase::Gating(_), CommitAnswer::Gated(Err(error))) => (
                CommitPhase::Finished,
                CommitStep::Refuse(filesystem_error(&error)),
            ),
            (CommitPhase::Gating(plan), CommitAnswer::Gated(Ok(()))) => (
                CommitPhase::Replanning(plan),
                CommitStep::Plan,
            ),
            (CommitPhase::Replanning(_), CommitAnswer::Planned(Err(error))) => (
                CommitPhase::Finished,
                CommitStep::Refuse(filesystem_error(&error)),
            ),
            (CommitPhase::Replanning(prelock), CommitAnswer::Planned(Ok(locked))) => {
                if !plan_is_expected(&expected_plan, &locked.digest) {
                    (
                        CommitPhase::Finished,
                        CommitStep::Refuse(expected_plan_mismatch(expected_plan, locked.digest)),
                    )
                } else if !digests_equal(&locked.digest, &prelock.digest) {
                    (
                        CommitPhase::Finished,
                        CommitStep::Refuse(plan_changed_error(prelock.digest, locked.digest)),
                    )
                } else {
                    (
                        CommitPhase::Committing(locked),
                        CommitStep::Commit(file_mode(startup_umask)),
                    )
                }
            },
            (CommitPhase::Committing(_), CommitAnswer::Committed(Err(error))) => (
                CommitPhase::Finished,
                CommitStep::Refuse(filesystem_error(&error)),
            ),
            (CommitPhase::Committing(plan), CommitAnswer::Committed(Ok(outcome))) => {
                let report = build_commit_response(
                    &plan,
                    workspace,
                    metadata_warnings(),
                    Some(outcome.transaction_id),
                    outcome.preserved_permission_modes,
                );
                (CommitPhase::Finished, CommitStep::Report(report))
            },
            (phase, _) => {
                let commit = Commit { expected_plan, startup_umask, workspace, phase };
                let step = commit.pending();
                return (commit, step);
            },
        };
        (Commit { expected_plan, startup_umask, workspace, phase }, step)
    }
}

/// The text printed for a commit.
pub open spec fn commit_text(
    plan: Seq<char>,
    transaction_id: Option<Seq<char>>,
    state: Seq<char>,
) -> Seq<char> {
    "plan "@ + terminal::escaped(plan) + "\ntransaction "@ + terminal::escaped(
        match transaction_id {
            Some(id) => id,
            None => "none (no-op)"@,
        },
    ) + "\nstate "@ + terminal::escaped(state) + "\n"@
}

/// Returns the text printed for a commit that reached `state`.
pub fn render_commit(report: &CommitReport, state: &str) -> (text: String)
    ensures
        text@ == commit_text(
            digest::prefixed_hex(report@.plan.0@),
            report@.transaction_id,
            state@,
        ),
{
    let mut text = "plan ".to_owned();
    text.append(escape_terminal_text(report.plan.to_prefixed_hex().as_str()).as_str());
    text.append("\ntransaction ");
    match &report.transaction_id {
        Some(id) => {
            text.append(escape_terminal_text(id.as_str()).as_str());
        },
        None => {
            text.append(escape_terminal_text("none (no-op)").as_str());
        },
    }
    text.append("\nstate ");
    text.append(escape_terminal_text(state).as_str());
    text.append("\n");
    text
}

/// A plan is committed only under the mutation lock, only after the journal
/// was checked, and only if the plan made under the lock is the one made
/// before it and the one that the caller expects.
pub proof fn law_commits_only_confirmed_plans(
    expected: Option<Sha256Digest>,
    startup_umask: u32,
    workspace: Sha256Digest,
    phase: CommitPhase,
    answer: CommitAnswer,
)
    requires
        !(phase is Committing),
        commit_next(expected, startup_umask, workspace, phase, answer).1 is Commit,
    ensures
        phase is Replanning,
        answer matches CommitAnswer::Planned(Ok(plan)) && plan.digest.0@
            == phase->Replanning_0.digest.0@ && is_expected(expected, plan.digest),
{
}

/// A plan that changes nothing never acquires the mutation lock.
pub proof fn law_unchanged_plans_never_lock(
    expected: Option<Sha256Digest>,
    startup_umask: u32,
    workspace: Sha256Digest,
    plan: PlanSummary,
)
    requires
        plan.changed_targets == 0,
    ensures
        !(commit_next(
            expected,
            startup_umask,
            workspace,
            CommitPhase::Planning,
            CommitAnswer::Planned(Ok(plan)),
        ).1 is Lock),
{
}

/// A new file's mode is within read and write for all, and holds no bit of the
/// mask.
pub proof fn law_new_files_obey_the_mask(startup_umask: u32)
    ensures
        new_file_mode(startup_umask) & startup_umask == 0,
        new_file_mode(startup_umask) & !0o666u32 == 0,
{
    assert((0o666u32 & !startup_umask) & startup_umask == 0) by (bit_vector);
    assert((0o666u32 & !startup_umask) & !0o666u32 == 0) by (bit_vector);
}

} // verus!
