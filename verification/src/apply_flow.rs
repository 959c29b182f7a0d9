//! The `apply` and `inspect` commands: what they ask of the workspace, in which
//! order.

use vstd::prelude::*;

use crate::commit;
use crate::commit::{
    snapshot_requirements, validate_plan_policy, Commit, CommitPhase, Operation,
    SnapshotRequirement,
};
use crate::digest::Sha256Digest;
use crate::edit_command;
use crate::edit_command::{
    diagnostic_context, enforce_response_bytes, validate_inspect_paths, RecoveryEntry,
};
use crate::edit_report;
use crate::edit_report::{filesystem_error, ErrorDto, ErrorView, FsError};
use crate::json::JsonView;
use crate::order;
use crate::text;
use crate::text::text_equal;
use crate::wire;
use crate::wire::WarningDto;

verus! {

/// What follows a look at the diagnostic lock: the warnings of the observation,
/// or the report that unfinished transactions need recovery.
pub open spec fn observation(scanned: Option<Seq<edit_command::RecoveryEntryView>>) -> Result<
    Seq<JsonView>,
    ErrorView,
> {
    match scanned {
        None => Ok(seq![edit_command::stale_warning()]),
        Some(entries) => if edit_command::unfinished(entries).len() == 0 {
            Ok(Seq::empty())
        } else {
            Err(
                ErrorView {
                    code: edit_report::ErrorCode::TransactionRecoveryRequired,
                    message: "unfinished transactions require explicit recovery"@,
                    context: seq![
                        (
                            "transaction_ids"@,
                            wire::texts_json(edit_command::unfinished(entries)),
                        ),
                    ],
                },
            )
        },
    }
}

/// Decides whether a command may go on after a look at the diagnostic lock.
pub fn observe(scanned: &Option<Vec<RecoveryEntry>>) -> (outcome: Result<Vec<WarningDto>, ErrorDto>)
    ensures
        match outcome {
            Ok(warnings) => observation(edit_command::scanned_view(*scanned)) == Ok::<
                Seq<JsonView>,
                ErrorView,
            >(wire::warnings_view(warnings@)),
            Err(error) => observation(edit_command::scanned_view(*scanned)) == Err::<
                Seq<JsonView>,
                ErrorView,
            >(error@),
        },
{
    match diagnostic_context(scanned) {
        Ok(warnings) => {
            assert(wire::warnings_view(warnings@) =~= match scanned {
                None => seq![edit_command::stale_warning()],
                Some(_) => Seq::empty(),
            });
            Ok(warnings)
        },
        Err(failure) => {
            let error = filesystem_error(&failure);
            assert(error@ =~= observation(edit_command::scanned_view(*scanned))->Err_0);
            Err(error)
        },
    }
}

/// A serialized response within its bound, or its report.
pub open spec fn bounded_response(line: Result<Seq<char>, ErrorView>) -> Result<
    Seq<char>,
    ErrorView,
> {
    match line {
        Err(error) => Err(error),
        Ok(line) => match edit_command::response_refusal(text::utf8(line).len() as u64) {
            Some(error) => Err(error),
            None => Ok(line),
        },
    }
}

/// The value of a text or its report.
pub open spec fn text_or_report(text: Result<String, ErrorDto>) -> Result<Seq<char>, ErrorView> {
    match text {
        Ok(text) => Ok(text@),
        Err(error) => Err(error@),
    }
}

/// Refuses a serialized response that is too large.
pub fn bound_response(line: Result<String, ErrorDto>) -> (bounded: Result<String, ErrorDto>)
    ensures
        text_or_report(bounded) == bounded_response(text_or_report(line)),
{
    match line {
        Err(error) => Err(error),
        Ok(line) => match enforce_response_bytes(line.as_str().as_bytes().len() as u64) {
            Ok(()) => Ok(line),
            Err(error) => Err(error),
        },
    }
}

/// The arguments of the `apply` command.
#[derive(Clone, Debug, PartialEq, Eq)]
pub struct ApplyCommand {
    /// The request file, or `-`.
    pub request: String,
    /// Whether to commit; otherwise the plan is previewed.
    pub commit: bool,
    /// The digest of the expected plan.
    pub expect_plan: Option<String>,
    /// Whether whatever plan results is accepted.
    pub accept_current_plan: bool,
    /// Whether structured output is wanted.
    pub json: bool,
    /// Whether the preview goes without a diff.
    pub no_diff: bool,
    /// Whether the preview holds review metadata.
    pub summary: bool,
    /// The process's file-mode creation mask.
    pub startup_umask: u32,
}

/// Where a request comes from.
#[derive(Clone, Debug, PartialEq, Eq)]
pub enum RequestSource {
    /// Standard input.
    StandardInput,
    /// This file.
    File(String),
}

/// The source that a command-line value names.
pub open spec fn is_source(source: RequestSource, request: Seq<char>) -> bool {
    match source {
        RequestSource::StandardInput => request == "-"@,
        RequestSource::File(path) => request != "-"@ && path@ == request,
    }
}

/// Returns the source that a command-line value names.
pub fn request_source(request: &str) -> (source: RequestSource)
    ensures
        is_source(source, request@),
{
    if text_equal(request, "-") {
        RequestSource::StandardInput
    } else {
        RequestSource::File(request.to_owned())
    }
}

/// A preview of a plan.
#[derive(Debug, PartialEq)]
pub struct Preview {
    /// The text for a reader.
    pub human: String,
    /// The serialized response.
    pub line: Result<String, ErrorDto>,
}

/// Where an `apply` command stands: the question that is pending, and what the
/// answers so far led to.
pub enum ApplyPhase {
    /// The expected plan's digest is being parsed.
    ParsingDigest,
    /// The request is being read.
    Reading { expected: Option<Sha256Digest> },
    /// The request is being parsed.
    Parsing { expected: Option<Sha256Digest> },
    /// The workspace is being opened.
    Opening { expected: Option<Sha256Digest>, operations: Vec<Operation> },
    /// The diagnostic lock is being looked at.
    Diagnosing { operations: Vec<Operation> },
    /// The plan is being previewed.
    Previewing,
    /// The command is over, or a commit has taken over.
    Finished,
}

/// What was answered to the pending question.
pub enum ApplyAnswer {
    /// The expected plan's digest was parsed.
    DigestParsed(Result<Sha256Digest, ErrorDto>),
    /// The request was read.
    RequestRead(Result<Vec<u8>, ErrorDto>),
    /// The request was parsed.
    RequestParsed(Result<Vec<Operation>, ErrorDto>),
    /// The workspace was opened, and has this identity.
    Opened(Result<Sha256Digest, FsError>),
    /// The diagnostic lock was looked at; without a lock nothing was scanned.
    Diagnosed(Result<Option<Vec<RecoveryEntry>>, FsError>),
    /// A snapshot was acquired, and its plan was previewed.
    Previewed(Result<Preview, FsError>),
}

/// What an `apply` command does next.
pub enum ApplyStep {
    /// Parse this digest.
    ParseDigest(String),
    /// Read the request.
    Read(RequestSource),
    /// Parse this request.
    Parse(Vec<u8>),
    /// Open the workspace.
    Open,
    /// Commit what meets these requirements.
    Commit {
        /// The commit.
        commit: Commit,
        /// The requirements of its snapshots.
        requirements: Vec<SnapshotRequirement>,
    },
    /// Look at the diagnostic lock.
    Diagnose,
    /// Acquire a snapshot that meets these requirements, and preview its plan.
    Preview {
        /// The requirements of the snapshot.
        requirements: Vec<SnapshotRequirement>,
        /// The warnings of the observation.
        warnings: Vec<WarningDto>,
    },
    /// Print this text.
    Print(String),
    /// Fail.
    Refuse(ErrorDto),
    /// What was asked before still needs its answer.
    Pending,
}

/// Whether requirements are those of a batch: source and destination of each
/// operation, in order.
pub open spec fn requires_batch(
    requirements: Seq<SnapshotRequirement>,
    operations: Seq<Operation>,
) -> bool {
    &&& requirements.len() == 2 * operations.len()
    &&& forall|i: int|
        #![trigger operations[i]]
        0 <= i < operations.len() ==> commit::requires_end(
            requirements[2 * i],
            commit::specification_of(operations[i]).source,
        ) && commit::requires_end(
            requirements[2 * i + 1],
            commit::specification_of(operations[i]).destination,
        )
}

/// Whether a step is a failure with this report.
pub open spec fn refuses(step: ApplyStep, report: ErrorView) -> bool {
    step matches ApplyStep::Refuse(error) && error@ == report
}

/// Whether a command reads its request next.
pub open spec fn reads_next(
    command: ApplyCommand,
    expected: Option<Sha256Digest>,
    phase: ApplyPhase,
    step: ApplyStep,
) -> bool {
    &&& phase == (ApplyPhase::Reading { expected })
    &&& step matches ApplyStep::Read(source)
    &&& is_source(source, command.request@)
}

/// Whether a command begins so: a commit must name its expected-plan policy,
/// and an expected plan's digest is parsed before the request is read.
pub open spec fn begins(command: ApplyCommand, phase: ApplyPhase, step: ApplyStep) -> bool {
    match commit::policy_refusal(
        command.commit,
        command.expect_plan is Some,
        command.accept_current_plan,
    ) {
        Some(report) => phase is Finished && refuses(step, report),
        None => match command.expect_plan {
            Some(digest) => {
                &&& phase is ParsingDigest
                &&& step matches ApplyStep::ParseDigest(text)
                &&& text@ == digest@
            },
            None => reads_next(command, None, phase, step),
        },
    }
}

/// Whether a command that stands at `before` goes on so after an answer. An
/// answer to another question leaves the command where it stands.
pub open spec fn goes_on(
    command: ApplyCommand,
    before: ApplyPhase,
    answer: ApplyAnswer,
    phase: ApplyPhase,
    step: ApplyStep,
) -> bool {
    match (before, answer) {
        (ApplyPhase::ParsingDigest, ApplyAnswer::DigestParsed(Err(error))) => phase is Finished
            && refuses(step, error@),
        (ApplyPhase::ParsingDigest, ApplyAnswer::DigestParsed(Ok(digest))) => reads_next(
            command,
            Some(digest),
            phase,
            step,
        ),
        (ApplyPhase::Reading { .. }, ApplyAnswer::RequestRead(Err(error))) => phase is Finished
            && refuses(step, error@),
        (ApplyPhase::Reading { expected }, ApplyAnswer::RequestRead(Ok(bytes))) => phase == (
        ApplyPhase::Parsing { expected }) && step == ApplyStep::Parse(bytes),
        (ApplyPhase::Parsing { .. }, ApplyAnswer::RequestParsed(Err(error))) => phase is Finished
            && refuses(step, error@),
        (ApplyPhase::Parsing { expected }, ApplyAnswer::RequestParsed(Ok(operations))) => phase == (
        ApplyPhase::Opening { expected, operations }) && step == ApplyStep::Open,
        (ApplyPhase::Opening { .. }, ApplyAnswer::Opened(Err(error))) => phase is Finished
            && refuses(step, edit_report::filesystem_report(error)),
        (
            ApplyPhase::Opening { expected, operations },
            ApplyAnswer::Opened(Ok(workspace)),
        ) => if command.commit {
            &&& phase is Finished
            &&& step matches ApplyStep::Commit { commit, requirements }
            &&& commit == (Commit {
                expected_plan: expected,
                startup_umask: command.startup_umask,
                workspace,
                phase: CommitPhase::Planning,
            })
            &&& requires_batch(requirements@, operations@)
        } else {
            phase == (ApplyPhase::Diagnosing { operations }) && step == ApplyStep::Diagnose
        },
        (ApplyPhase::Diagnosing { .. }, ApplyAnswer::Diagnosed(Err(error))) => phase is Finished
            && refuses(step, edit_report::filesystem_report(error)),
        (
            ApplyPhase::Diagnosing { operations },
            ApplyAnswer::Diagnosed(Ok(scanned)),
        ) => match observation(edit_command::scanned_view(scanned)) {
            Err(report) => phase is Finished && refuses(step, report),
            Ok(expected) => {
                &&& phase is Previewing
                &&& step matches ApplyStep::Preview { requirements, warnings }
                &&& requires_batch(requirements@, operations@)
                &&& wire::warnings_view(warnings@) == expected
            },
        },
        (ApplyPhase::Previewing, ApplyAnswer::Previewed(Err(error))) => phase is Finished
            && refuses(step, edit_report::filesystem_report(error)),
        (ApplyPhase::Previewing, ApplyAnswer::Previewed(Ok(preview))) => {
            &&& phase is Finished
            &&& match if command.json {
                bounded_response(text_or_report(preview.line))
            } else {
                Ok(preview.human@)
            } {
                Ok(text) => step matches ApplyStep::Print(printed) && printed@ == text,
                Err(report) => refuses(step, report),
            }
        },
        _ => phase == before && step is Pending,
    }
}

/// Starts reading the request.
fn read_step(command: &ApplyCommand, expected: Option<Sha256Digest>) -> (next: (
    ApplyPhase,
    ApplyStep,
))
    ensures
        reads_next(*command, expected, next.0, next.1),
{
    (ApplyPhase::Reading { expected }, ApplyStep::Read(request_source(command.request.as_str())))
}

/// Begins an `apply` command.
pub fn begin_apply(command: &ApplyCommand) -> (next: (ApplyPhase, ApplyStep))
    ensures
        begins(*command, next.0, next.1),
{
    let expects_plan = command.expect_plan.is_some();
    if let Err(error) = validate_plan_policy(
        command.commit,
        expects_plan,
        command.accept_current_plan,
    ) {
        return (ApplyPhase::Finished, ApplyStep::Refuse(error));
    }
    match &command.expect_plan {
        Some(digest) => (ApplyPhase::ParsingDigest, ApplyStep::ParseDigest(digest.clone())),
        None => read_step(command, None),
    }
}

/// Takes an answer and returns where an `apply` command stands, with its next
/// step.
pub fn execute_apply(command: &ApplyCommand, phase: ApplyPhase, answer: ApplyAnswer) -> (next: (
    ApplyPhase,
    ApplyStep,
))
    ensures
        goes_on(*command, phase, answer, next.0, next.1),
{
    match (phase, answer) {
        (ApplyPhase::ParsingDigest, ApplyAnswer::DigestParsed(Err(error)))
        | (ApplyPhase::Reading { .. }, ApplyAnswer::RequestRead(Err(error)))
        | (ApplyPhase::Parsing { .. }, ApplyAnswer::RequestParsed(Err(error))) => (
            ApplyPhase::Finished,
            ApplyStep::Refuse(error),
        ),
        (ApplyPhase::Opening { .. }, ApplyAnswer::Opened(Err(error)))
        | (ApplyPhase::Diagnosing { .. }, ApplyAnswer::Diagnosed(Err(error)))
        | (ApplyPhase::Previewing, ApplyAnswer::Previewed(Err(error))) => (
            ApplyPhase::Finished,
            ApplyStep::Refuse(filesystem_error(&error)),
        ),
        (ApplyPhase::ParsingDigest, ApplyAnswer::DigestParsed(Ok(digest))) => read_step(
            command,
            Some(digest),
        ),
        (ApplyPhase::Reading { expected }, ApplyAnswer::RequestRead(Ok(bytes))) => (
            ApplyPhase::Parsing { expected },
            ApplyStep::Parse(bytes),
        ),
        (ApplyPhase::Parsing { expected }, ApplyAnswer::RequestParsed(Ok(operations))) => (
            ApplyPhase::Opening { expected, operations },
            ApplyStep::Open,
        ),
        (ApplyPhase::Opening { expected, operations }, ApplyAnswer::Opened(Ok(workspace))) => {
            if command.commit {
                let requirements = snapshot_requirements(&operations);
                let commit = Commit::new(expected, command.startup_umask, workspace);
                (ApplyPhase::Finished, ApplyStep::Commit { commit, requirements })
            } else {
                (ApplyPhase::Diagnosing { operations }, ApplyStep::Diagnose)
            }
        },
        (ApplyPhase::Diagnosing { operations }, ApplyAnswer::Diagnosed(Ok(scanned))) => {
            match observe(&scanned) {
                Err(error) => (ApplyPhase::Finished, ApplyStep::Refuse(error)),
                Ok(warnings) => {
                    let requirements = snapshot_requirements(&operations);
                    (ApplyPhase::Previewing, ApplyStep::Preview { requirements, warnings })
                },
            }
        },
        (ApplyPhase::Previewing, ApplyAnswer::Previewed(Ok(preview))) => {
            let output = if command.json {
                bound_response(preview.line)
            } else {
                Ok(preview.human)
            };
            let step = match output {
                Ok(text) => ApplyStep::Print(text),
                Err(error) => ApplyStep::Refuse(error),
            };
            (ApplyPhase::Finished, step)
        },
        (phase, _) => (phase, ApplyStep::Pending),
    }
}

/// Only a command that asks for it commits, after its policy was checked, its
/// request was parsed, and the workspace was opened; a preview never does.
pub proof fn law_previews_never_commit(
    command: ApplyCommand,
    before: ApplyPhase,
    answer: ApplyAnswer,
    phase: ApplyPhase,
    step: ApplyStep,
)
    requires
        begins(command, phase, step) || goes_on(command, before, answer, phase, step),
    ensures
        step is Commit ==> command.commit && before is Opening && answer is Opened,
        step is Preview ==> before is Diagnosing,
        phase is Diagnosing && before !is Diagnosing ==> !command.commit,
{
}

/// What inspection found at a path.
#[derive(Clone, Debug, PartialEq, Eq)]
pub enum InspectedState {
    /// A regular file.
    Existing {
        /// The digest of its bytes.
        digest: Sha256Digest,
        /// The length of its bytes.
        byte_length: u64,
        /// How many lines it has.
        line_count: u64,
        /// Its opaque identity.
        identity_hash: Sha256Digest,
    },
    /// Nothing.
    Absent,
}

/// A path and what inspection found there.
#[derive(Clone, Debug, PartialEq, Eq)]
pub struct Inspection {
    /// The workspace-relative path.
    pub path: String,
    /// What was found there.
    pub state: InspectedState,
}

/// Where an `inspect` command stands.
pub enum InspectPhase {
    /// The workspace is being opened.
    Opening,
    /// The diagnostic lock is being looked at.
    Diagnosing,
    /// The paths are being inspected.
    Inspecting {
        /// The warnings of the observation.
        warnings: Vec<WarningDto>,
    },
    /// The command is over.
    Finished,
}

/// What was answered to the pending question.
pub enum InspectAnswer {
    /// The workspace was opened.
    Opened(Result<(), FsError>),
    /// The diagnostic lock was looked at; without a lock nothing was scanned.
    Diagnosed(Result<Option<Vec<RecoveryEntry>>, FsError>),
    /// The paths were inspected.
    Inspected(Result<Vec<Inspection>, FsError>),
}

/// What an `inspect` command does next.
#[derive(Debug, PartialEq)]
pub enum InspectStep {
    /// Open the workspace.
    Open,
    /// Look at the diagnostic lock.
    Diagnose,
    /// Inspect the paths.
    Inspect,
    /// Report these paths.
    Report {
        /// The paths, in order.
        paths: Vec<Inspection>,
        /// The warnings of the observation.
        warnings: Vec<WarningDto>,
    },
    /// Fail.
    Refuse(ErrorDto),
    /// What was asked before still needs its answer.
    Pending,
}

/// Whether a step is a failure with this report.
pub open spec fn inspection_refused(step: InspectStep, report: ErrorView) -> bool {
    step matches InspectStep::Refuse(error) && error@ == report
}

/// Begins an `inspect` command; unacceptable paths never reach the workspace.
pub fn begin_inspect(paths: &Vec<String>) -> (next: (InspectPhase, InspectStep))
    ensures
        match edit_command::paths_refusal(order::path_view(paths@)) {
            Some(report) => next.0 is Finished && inspection_refused(next.1, report),
            None => next.0 is Opening && next.1 is Open,
        },
{
    match validate_inspect_paths(paths) {
        Ok(()) => (InspectPhase::Opening, InspectStep::Open),
        Err(error) => (InspectPhase::Finished, InspectStep::Refuse(error)),
    }
}

/// Takes an answer and returns where an `inspect` command stands, with its next
/// step. An answer to another question leaves the command where it stands.
pub fn execute_inspect(phase: InspectPhase, answer: InspectAnswer) -> (next: (
    InspectPhase,
    InspectStep,
))
    ensures
        match (phase, answer) {
            (InspectPhase::Opening, InspectAnswer::Opened(Err(error))) => next.0 is Finished
                && inspection_refused(next.1, edit_report::filesystem_report(error)),
            (InspectPhase::Opening, InspectAnswer::Opened(Ok(()))) => next.0 is Diagnosing
                && next.1 is Diagnose,
            (InspectPhase::Diagnosing, InspectAnswer::Diagnosed(Err(error))) => next.0 is Finished
                && inspection_refused(next.1, edit_report::filesystem_report(error)),
            (InspectPhase::Diagnosing, InspectAnswer::Diagnosed(Ok(scanned))) => match observation(
                edit_command::scanned_view(scanned),
            ) {
                Err(report) => next.0 is Finished && inspection_refused(next.1, report),
                Ok(expected) => {
                    &&& next.0 matches InspectPhase::Inspecting { warnings }
                    &&& wire::warnings_view(warnings@) == expected
                    &&& next.1 is Inspect
                },
            },
            (InspectPhase::Inspecting { .. }, InspectAnswer::Inspected(Err(error))) => next.0
                is Finished && inspection_refused(next.1, edit_report::filesystem_report(error)),
            (
                InspectPhase::Inspecting { warnings },
                InspectAnswer::Inspected(Ok(paths)),
            ) => next.0 is Finished && next.1 == (InspectStep::Report { paths, warnings }),
            _ => next.0 == phase && next.1 is Pending,
        },
{
    match (phase, answer) {
        (InspectPhase::Opening, InspectAnswer::Opened(Err(error)))
        | (InspectPhase::Diagnosing, InspectAnswer::Diagnosed(Err(error)))
        | (InspectPhase::Inspecting { .. }, InspectAnswer::Inspected(Err(error))) => (
            InspectPhase::Finished,
            InspectStep::Refuse(filesystem_error(&error)),
        ),
        (InspectPhase::Opening, InspectAnswer::Opened(Ok(()))) => (
            InspectPhase::Diagnosing,
            InspectStep::Diagnose,
        ),
        (InspectPhase::Diagnosing, InspectAnswer::Diagnosed(Ok(scanned))) => {
            match observe(&scanned) {
                Err(error) => (InspectPhase::Finished, InspectStep::Refuse(error)),
                Ok(warnings) => (InspectPhase::Inspecting { warnings }, InspectStep::Inspect),
            }
        },
        (InspectPhase::Inspecting { warnings }, InspectAnswer::Inspected(Ok(paths))) => (
            InspectPhase::Finished,
            InspectStep::Report { paths, warnings },
        ),
        (phase, _) => (phase, InspectStep::Pending),
    }
}

} // verus!
