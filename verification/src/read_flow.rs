//! The read-only commands from their arguments to their output: what they ask
//! of the workspace and of the language server, in which order.

use vstd::prelude::*;

use crate::digest;
use crate::digest::Sha256Digest;
use crate::edit_command;
use crate::edit_command::{diagnostic_context, RecoveryEntry};
use crate::edit_report::FsError;
use crate::json::{Json, JsonView};
use crate::jsonrpc;
use crate::kinds;
use crate::kinds::KnownSymbolKind;
use crate::location;
use crate::location::{locate_project, locate_source, name_folder, source_extension, SystemPath};
use crate::order;
use crate::outline::{OutlineErrorDto, OutlineErrorView};
use crate::outline_command;
use crate::outline_command::{complete_outline, parse_kinds, retarget_report, OutlineFrame};
use crate::select_command;
use crate::select_command::{
    capture_source, complete_selection, parse_kind, selection_snapshot_limits, session_deadlines,
    validate_name, validate_query, QueryArguments, QueryView, ResponseFrame, SelectOptions,
    ServerSelection, SessionDeadlines, SessionReport, SnapshotLimits, SourceSnapshot,
    ValidatedQuery, MAXIMUM_SOURCE_BYTES, MAX_LINE_INDEX_MEMORY, MAX_SOURCE_PATH_BYTES,
    MAX_TOTAL_LINE_COUNT,
};
use crate::select_report;
use crate::select_report::{
    internal_error, map_config_error, map_filesystem_error, map_session_error,
    tolerate_missing_configuration, ConfigError, SessionError,
};
use crate::selection::{SelectionErrorDto, SelectionErrorView};
use crate::text;
use crate::transport;
use crate::transport::TransportLimits;
use crate::wire;
use crate::wire::WarningDto;

verus! {

/// A read-only command.
pub enum ReadCommand {
    /// Select symbols of a source file.
    Select {
        /// What is asked for.
        query: QueryArguments,
        /// The kind filter.
        kind: Option<KnownSymbolKind>,
        /// The options.
        options: SelectOptions,
    },
    /// Outline a source file.
    Outline {
        /// The kind filters.
        kinds: Vec<KnownSymbolKind>,
        /// Whether structured output is wanted.
        json: bool,
    },
}

/// A trusted server, as far as the commands depend on it.
#[derive(Clone, Debug, PartialEq)]
pub struct ResolvedServer {
    /// The descriptor that it comes from.
    pub configuration_id: Option<String>,
    /// The language that it serves.
    pub language_id: String,
    /// The milliseconds that it may take to start.
    pub startup_timeout: u64,
    /// The milliseconds that it may take to answer.
    pub request_timeout: u64,
    /// The options that it is initialized with.
    pub initialization_options: Option<Json>,
    /// The settings that it is configured with.
    pub settings: Option<Json>,
}

/// What a server may ask of one session.
#[derive(Clone, Copy, Debug, PartialEq, Eq, Structural)]
pub struct SessionLimits {
    /// Maximum items of one `workspace/configuration` request.
    pub max_configuration_items: usize,
    /// Maximum serialized bytes of one configuration response.
    pub max_configuration_bytes: usize,
    /// Maximum requests that the server initiates.
    pub max_server_requests: usize,
    /// Maximum notifications that the server sends.
    pub max_server_notifications: usize,
}

/// The bounds of every session.
pub open spec fn session_limits() -> SessionLimits {
    SessionLimits {
        max_configuration_items: 256,
        max_configuration_bytes: 1_048_576,
        max_server_requests: 64,
        max_server_notifications: 1_024,
    }
}

impl Default for SessionLimits {
    fn default() -> (limits: Self)
        ensures
            limits == session_limits(),
    {
        SessionLimits {
            max_configuration_items: 256,
            max_configuration_bytes: 1_048_576,
            max_server_requests: 64,
            max_server_notifications: 1_024,
        }
    }
}

/// What became of the user's configuration.
#[derive(Clone, Debug, PartialEq, Eq)]
pub enum Configuration {
    /// There is no place for one.
    Absent,
    /// It was loaded.
    Loaded,
    /// It could not be loaded.
    Failed {
        /// Why.
        error: ConfigError,
        /// Whether the user named its place.
        explicit: bool,
    },
}

/// A source, captured for a command.
pub struct ReadSource {
    /// The opaque workspace identity.
    pub workspace: Sha256Digest,
    /// The warnings of the observation.
    pub warnings: Vec<WarningDto>,
    /// The source.
    pub snapshot: SourceSnapshot,
    /// The validated query of a selection.
    pub query: Option<ValidatedQuery>,
}

/// The mathematical value of a [`ReadSource`].
#[verifier::ext_equal]
pub struct ReadSourceView {
    pub workspace: Seq<u8>,
    pub warnings: Seq<JsonView>,
    pub bytes: Seq<u8>,
    pub query: Option<QueryView>,
}

impl View for ReadSource {
    type V = ReadSourceView;

    open spec fn view(&self) -> ReadSourceView {
        ReadSourceView {
            workspace: self.workspace.0@,
            warnings: wire::warnings_view(self.warnings@),
            bytes: self.snapshot.bytes(),
            query: match self.query {
                Some(query) => Some(query@),
                None => None,
            },
        }
    }
}

impl ReadSource {
    /// Whether the snapshot is one of `path`, and a query was validated exactly
    /// where the command has one.
    pub open spec fn wf(&self, path: Seq<char>, command: ReadCommand) -> bool {
        &&& self.snapshot.wf()
        &&& self.snapshot.path@ == path
        &&& self.query is Some <==> command is Select
        &&& self.snapshot.digest.0@ == digest::sha256_of(self.snapshot.bytes())
    }
}

/// Where a command stands: the question that is pending, and what the answers
/// so far led to.
pub enum ReadPhase {
    /// The workspace is being opened.
    Opening,
    /// The diagnostic lock is being looked at.
    Diagnosing {
        /// The opaque workspace identity.
        workspace: Sha256Digest,
    },
    /// The source is being acquired.
    Acquiring {
        /// The opaque workspace identity.
        workspace: Sha256Digest,
        /// The warnings of the observation.
        warnings: Vec<WarningDto>,
    },
    /// The user's configuration is being loaded.
    Configuring(ReadSource),
    /// The server is being resolved.
    Resolving(ReadSource),
    /// The URIs are being made.
    Locating(ReadSource, ResolvedServer),
    /// The session is running.
    Running(ReadSource, ResolvedServer),
    /// The command is over.
    Finished,
}

/// The mathematical value of a [`ReadPhase`].
#[verifier::ext_equal]
pub enum ReadPhaseView {
    Opening,
    Diagnosing { workspace: Seq<u8> },
    Acquiring { workspace: Seq<u8>, warnings: Seq<JsonView> },
    Configuring(ReadSourceView),
    Resolving(ReadSourceView),
    Locating(ReadSourceView, ResolvedServer),
    Running(ReadSourceView, ResolvedServer),
    Finished,
}

impl View for ReadPhase {
    type V = ReadPhaseView;

    open spec fn view(&self) -> ReadPhaseView {
        match *self {
            ReadPhase::Opening => ReadPhaseView::Opening,
            ReadPhase::Diagnosing { workspace } => ReadPhaseView::Diagnosing {
                workspace: workspace.0@,
            },
            ReadPhase::Acquiring { workspace, warnings } => ReadPhaseView::Acquiring {
                workspace: workspace.0@,
                warnings: wire::warnings_view(warnings@),
            },
            ReadPhase::Configuring(source) => ReadPhaseView::Configuring(source@),
            ReadPhase::Resolving(source) => ReadPhaseView::Resolving(source@),
            ReadPhase::Locating(source, server) => ReadPhaseView::Locating(source@, server),
            ReadPhase::Running(source, server) => ReadPhaseView::Running(source@, server),
            ReadPhase::Finished => ReadPhaseView::Finished,
        }
    }
}

/// What was answered to the pending question.
pub enum ReadAnswer {
    /// The workspace was opened, and has this identity.
    Opened(Result<Sha256Digest, FsError>),
    /// The diagnostic lock was looked at; without a lock nothing was scanned.
    Diagnosed(Result<Option<Vec<RecoveryEntry>>, FsError>),
    /// The source's bytes were acquired.
    Acquired(Result<Vec<u8>, FsError>),
    /// The user's configuration was looked for.
    Configured(Configuration),
    /// The server was resolved.
    Resolved(Result<ResolvedServer, ConfigError>),
    /// The project's root and the source were located.
    Located {
        /// The path of the project's root.
        project: SystemPath,
        /// The path of the source.
        source: SystemPath,
    },
    /// The session ended.
    Reported(Result<SessionReport, SessionError>),
}

/// What a session is given.
#[derive(Clone, Debug, PartialEq)]
pub struct SessionInput {
    /// The URI of the workspace folder.
    pub project_uri: String,
    /// The name of the workspace folder.
    pub workspace_name: String,
    /// The URI of the document.
    pub source_uri: String,
    /// The language of the document.
    pub language_id: String,
    /// The text of the document.
    pub text: String,
    /// The options that the server is initialized with.
    pub initialization_options: Option<Json>,
    /// The settings that the server is configured with.
    pub settings: Option<Json>,
    /// The deadlines.
    pub deadlines: SessionDeadlines,
    /// The bounds on what the server may ask.
    pub limits: SessionLimits,
    /// The bounds of the transport.
    pub transport_limits: TransportLimits,
}

/// The mathematical value of a [`SessionInput`].
#[verifier::ext_equal]
pub struct SessionInputView {
    pub project_uri: Seq<char>,
    pub workspace_name: Seq<char>,
    pub source_uri: Seq<char>,
    pub language_id: Seq<char>,
    pub bytes: Seq<u8>,
    pub initialization_options: Option<JsonView>,
    pub settings: Option<JsonView>,
    pub deadlines: SessionDeadlines,
    pub limits: SessionLimits,
    pub transport_limits: TransportLimits,
}

impl View for SessionInput {
    type V = SessionInputView;

    open spec fn view(&self) -> SessionInputView {
        SessionInputView {
            project_uri: self.project_uri@,
            workspace_name: self.workspace_name@,
            source_uri: self.source_uri@,
            language_id: self.language_id@,
            bytes: text::utf8(self.text@),
            initialization_options: jsonrpc::optional_json(self.initialization_options),
            settings: jsonrpc::optional_json(self.settings),
            deadlines: self.deadlines,
            limits: self.limits,
            transport_limits: self.transport_limits,
        }
    }
}

/// Why a command failed.
#[derive(Debug, PartialEq)]
pub enum ReadRefusal {
    /// A selection failed.
    Selection(SelectionErrorDto),
    /// An outline failed.
    Outline(OutlineErrorDto),
}

/// The mathematical value of a [`ReadRefusal`].
#[verifier::ext_equal]
pub enum ReadRefusalView {
    Selection(SelectionErrorView),
    Outline(OutlineErrorView),
}

impl View for ReadRefusal {
    type V = ReadRefusalView;

    open spec fn view(&self) -> ReadRefusalView {
        match self {
            ReadRefusal::Selection(error) => ReadRefusalView::Selection(error@),
            ReadRefusal::Outline(error) => ReadRefusalView::Outline(error@),
        }
    }
}

/// What a command does next.
#[derive(Debug, PartialEq)]
pub enum ReadStep {
    /// Open the workspace.
    Open,
    /// Look at the diagnostic lock.
    Diagnose,
    /// Acquire the source within these bounds.
    Acquire(SnapshotLimits),
    /// Look for the user's configuration.
    Configure,
    /// Resolve the server for a source of this extension.
    Resolve(String),
    /// Make the URIs of project root and source.
    Locate,
    /// Run a session.
    Run(SessionInput),
    /// Print this text.
    Print(String),
    /// Fail.
    Refuse(ReadRefusal),
    /// What was asked before still needs its answer.
    Pending,
}

/// The mathematical value of a [`ReadStep`].
#[verifier::ext_equal]
pub enum ReadStepView {
    Open,
    Diagnose,
    Acquire(SnapshotLimits),
    Configure,
    Resolve(Seq<char>),
    Locate,
    Run(SessionInputView),
    Print(Seq<char>),
    Refuse(ReadRefusalView),
    Pending,
}

impl View for ReadStep {
    type V = ReadStepView;

    open spec fn view(&self) -> ReadStepView {
        match self {
            ReadStep::Open => ReadStepView::Open,
            ReadStep::Diagnose => ReadStepView::Diagnose,
            ReadStep::Acquire(limits) => ReadStepView::Acquire(*limits),
            ReadStep::Configure => ReadStepView::Configure,
            ReadStep::Resolve(extension) => ReadStepView::Resolve(extension@),
            ReadStep::Locate => ReadStepView::Locate,
            ReadStep::Run(input) => ReadStepView::Run(input@),
            ReadStep::Print(text) => ReadStepView::Print(text@),
            ReadStep::Refuse(refusal) => ReadStepView::Refuse(refusal@),
            ReadStep::Pending => ReadStepView::Pending,
        }
    }
}

/// How a command words a failure.
pub open spec fn worded(command: ReadCommand, error: SelectionErrorView) -> ReadRefusalView {
    match command {
        ReadCommand::Select { .. } => ReadRefusalView::Selection(error),
        ReadCommand::Outline { .. } => ReadRefusalView::Outline(
            outline_command::retargeted(error),
        ),
    }
}

/// What ends a command with a failure.
pub open spec fn failed(command: ReadCommand, error: SelectionErrorView) -> (
    ReadPhaseView,
    ReadStepView,
) {
    (ReadPhaseView::Finished, ReadStepView::Refuse(worded(command, error)))
}

/// The bounds on the capture of one source file.
pub open spec fn source_limits() -> SnapshotLimits {
    SnapshotLimits {
        path_bytes: MAX_SOURCE_PATH_BYTES,
        files: 1,
        file_bytes: MAXIMUM_SOURCE_BYTES,
        total_bytes: MAXIMUM_SOURCE_BYTES,
        total_lines: MAX_TOTAL_LINE_COUNT,
        line_index_bytes: MAX_LINE_INDEX_MEMORY,
    }
}

/// What follows a look at the diagnostic lock: without a lock the observation
/// may be stale, and with one no transaction may be unfinished.
pub open spec fn diagnosed(
    command: ReadCommand,
    workspace: Seq<u8>,
    scanned: Option<Seq<edit_command::RecoveryEntryView>>,
) -> (ReadPhaseView, ReadStepView) {
    match scanned {
        None => (
            ReadPhaseView::Acquiring { workspace, warnings: seq![edit_command::stale_warning()] },
            ReadStepView::Acquire(source_limits()),
        ),
        Some(entries) => if edit_command::unfinished(entries).len() == 0 {
            (
                ReadPhaseView::Acquiring { workspace, warnings: Seq::empty() },
                ReadStepView::Acquire(source_limits()),
            )
        } else {
            failed(
                command,
                select_report::internal("the workspace could not be inspected safely"@),
            )
        },
    }
}

/// What follows the acquisition of the source: it must be UTF-8, and a
/// selection's query must fit it.
pub open spec fn acquired(
    command: ReadCommand,
    workspace: Seq<u8>,
    warnings: Seq<JsonView>,
    bytes: Seq<u8>,
) -> (ReadPhaseView, ReadStepView) {
    if !vstd::utf8::valid_utf8(bytes) {
        failed(command, select_command::encoding_failure())
    } else {
        match command {
            ReadCommand::Select { query, kind, .. } => match select_command::query_of(
                query,
                kind,
                bytes,
            ) {
                Err(error) => failed(command, error),
                Ok(query) => (
                    ReadPhaseView::Configuring(
                        ReadSourceView { workspace, warnings, bytes, query: Some(query) },
                    ),
                    ReadStepView::Configure,
                ),
            },
            ReadCommand::Outline { .. } => (
                ReadPhaseView::Configuring(
                    ReadSourceView { workspace, warnings, bytes, query: None },
                ),
                ReadStepView::Configure,
            ),
        }
    }
}

/// The failure of looking for a configuration, if it is one.
pub open spec fn configured(configuration: Configuration) -> Option<SelectionErrorView> {
    match configuration {
        Configuration::Absent | Configuration::Loaded => None,
        Configuration::Failed { error, explicit } => select_report::configuration_refusal(
            error,
            explicit,
        ),
    }
}

/// What follows the making of the URIs.
pub open spec fn located(
    command: ReadCommand,
    source: ReadSourceView,
    server: ResolvedServer,
    project_uri: Option<Seq<char>>,
    source_uri: Option<Seq<char>>,
    root_name: Option<Seq<char>>,
) -> (ReadPhaseView, ReadStepView) {
    match (project_uri, source_uri) {
        (None, _) => failed(
            command,
            select_report::internal("failed to construct the project-root file URI"@),
        ),
        (Some(_), None) => failed(
            command,
            select_report::internal("failed to construct the source file URI"@),
        ),
        (Some(project_uri), Some(source_uri)) => (
            ReadPhaseView::Running(source, server),
            ReadStepView::Run(
                SessionInputView {
                    project_uri,
                    workspace_name: match root_name {
                        Some(name) => name,
                        None => "workspace"@,
                    },
                    source_uri,
                    language_id: server.language_id@,
                    bytes: source.bytes,
                    initialization_options: jsonrpc::optional_json(server.initialization_options),
                    settings: jsonrpc::optional_json(server.settings),
                    deadlines: SessionDeadlines {
                        initialize: server.startup_timeout,
                        document_symbols: server.request_timeout,
                        shutdown: 5_000,
                        cleanup: 5_000,
                        total: select_command::total_deadline(
                            server.startup_timeout,
                            server.request_timeout,
                        ),
                    },
                    limits: session_limits(),
                    transport_limits: transport::default_limits(),
                },
            ),
        ),
    }
}

/// The output of a command after its session.
pub open spec fn reported(
    command: ReadCommand,
    path: Seq<char>,
    source: ReadSourceView,
    server: ResolvedServer,
    report: SessionReport,
) -> ReadStepView {
    match command {
        ReadCommand::Select { options, .. } => match select_command::selection_output(
            ResponseFrame {
                workspace: source.workspace,
                path,
                source_digest: digest::sha256_of(source.bytes),
                bytes: source.bytes,
                query: source.query->Some_0,
                configuration_id: order::optional_text(server.configuration_id),
                reported_name: order::optional_text(report.server_name),
                reported_version: order::optional_text(report.server_version),
                encoding: report.position_encoding,
                warnings: source.warnings,
            },
            report.symbols@,
            options,
        ) {
            Ok(text) => ReadStepView::Print(text),
            Err(error) => ReadStepView::Refuse(ReadRefusalView::Selection(error)),
        },
        ReadCommand::Outline { kinds, json } => match outline_command::outline_output(
            OutlineFrame {
                workspace: source.workspace,
                path,
                source_digest: digest::sha256_of(source.bytes),
                bytes: source.bytes,
                configuration_id: order::optional_text(server.configuration_id),
                reported_name: order::optional_text(report.server_name),
                reported_version: order::optional_text(report.server_version),
                encoding: report.position_encoding,
                warnings: source.warnings,
            },
            report.symbols@,
            kinds@,
            json,
        ) {
            Ok(text) => ReadStepView::Print(text),
            Err(error) => ReadStepView::Refuse(ReadRefusalView::Outline(error)),
        },
    }
}

/// What a command that stands at `phase` does after an answer. An answer to
/// another question leaves the command where it stands.
pub open spec fn read_next(
    command: ReadCommand,
    path: Seq<char>,
    phase: ReadPhaseView,
    answer: ReadAnswer,
) -> (ReadPhaseView, ReadStepView) {
    match (phase, answer) {
        (ReadPhaseView::Opening, ReadAnswer::Opened(Err(error))) => failed(
            command,
            select_report::filesystem_failure(error),
        ),
        (ReadPhaseView::Opening, ReadAnswer::Opened(Ok(workspace))) => (
            ReadPhaseView::Diagnosing { workspace: workspace.0@ },
            ReadStepView::Diagnose,
        ),
        (ReadPhaseView::Diagnosing { .. }, ReadAnswer::Diagnosed(Err(error))) => failed(
            command,
            select_report::filesystem_failure(error),
        ),
        (ReadPhaseView::Diagnosing { workspace }, ReadAnswer::Diagnosed(Ok(scanned))) => diagnosed(
            command,
            workspace,
            edit_command::scanned_view(scanned),
        ),
        (ReadPhaseView::Acquiring { .. }, ReadAnswer::Acquired(Err(error))) => failed(
            command,
            select_report::filesystem_failure(error),
        ),
        (
            ReadPhaseView::Acquiring { workspace, warnings },
            ReadAnswer::Acquired(Ok(bytes)),
        ) => acquired(command, workspace, warnings, bytes@),
        (
            ReadPhaseView::Configuring(source),
            ReadAnswer::Configured(configuration),
        ) => match configured(configuration) {
            Some(error) => failed(command, error),
            None => (
                ReadPhaseView::Resolving(source),
                ReadStepView::Resolve(location::extension_text(path)),
            ),
        },
        (ReadPhaseView::Resolving(_), ReadAnswer::Resolved(Err(error))) => failed(
            command,
            select_report::config_failure(error),
        ),
        (ReadPhaseView::Resolving(source), ReadAnswer::Resolved(Ok(server))) => (
            ReadPhaseView::Locating(source, server),
            ReadStepView::Locate,
        ),
        (
            ReadPhaseView::Locating(acquired, server),
            ReadAnswer::Located { project, source },
        ) => located(
            command,
            acquired,
            server,
            location::project_location(project),
            location::source_location(source),
            location::folder_name(project),
        ),
        (ReadPhaseView::Running(..), ReadAnswer::Reported(Err(error))) => failed(
            command,
            select_report::session_failure(error),
        ),
        (ReadPhaseView::Running(source, server), ReadAnswer::Reported(Ok(report))) => (
            ReadPhaseView::Finished,
            reported(command, path, source, server, report),
        ),
        (phase, _) => (phase, ReadStepView::Pending),
    }
}

/// A read-only command in progress.
pub struct ReadFlow {
    /// The command.
    pub command: ReadCommand,
    /// The workspace-relative path of the source.
    pub path: String,
    /// How the server is chosen.
    pub server: ServerSelection,
    /// Where it stands.
    pub phase: ReadPhase,
}

impl ReadFlow {
    /// Whether what was captured is a source of the command's path.
    pub open spec fn wf(&self) -> bool {
        match self.phase {
            ReadPhase::Configuring(source)
            | ReadPhase::Resolving(source)
            | ReadPhase::Locating(source, _)
            | ReadPhase::Running(source, _) => source.wf(self.path@, self.command),
            _ => true,
        }
    }
}

/// Why a selection is refused before the workspace is opened: its kind filter
/// is checked first, and then its name.
pub open spec fn start_refusal(kind: Option<Seq<char>>, name: Option<Seq<char>>) -> Option<
    SelectionErrorView,
> {
    if kind is Some && !outline_command::is_kind(kind->Some_0) {
        Some(select_command::unknown_kind())
    } else {
        select_command::name_refusal(name)
    }
}

/// The characters of an optional text.
pub open spec fn optional_chars(text: Option<&str>) -> Option<Seq<char>> {
    match text {
        Some(text) => Some(text@),
        None => None,
    }
}

/// Starts a selection, or refuses it before the workspace is opened.
pub fn start_selection(
    path: String,
    kind: Option<&str>,
    query: QueryArguments,
    options: SelectOptions,
    server: ServerSelection,
) -> (flow: Result<ReadFlow, SelectionErrorDto>)
    ensures
        match flow {
            Ok(flow) => {
                &&& flow.wf()
                &&& flow.phase@ == ReadPhaseView::Opening
                &&& flow.path == path
                &&& flow.server == server
                &&& flow.command matches ReadCommand::Select {
                    query: kept,
                    kind: parsed,
                    options: chosen,
                }
                &&& kept == query
                &&& chosen == options
                &&& start_refusal(optional_chars(kind), order::optional_text(query.name)) is None
                &&& match (kind, parsed) {
                    (None, None) => true,
                    (Some(spelling), Some(parsed)) => kinds::kind_text(parsed) == spelling@,
                    _ => false,
                }
            },
            Err(error) => start_refusal(
                optional_chars(kind),
                order::optional_text(query.name),
            ) == Some(error@),
        },
{
    let parsed = match parse_kind(kind) {
        Ok(parsed) => parsed,
        Err(failure) => return Err(failure),
    };
    let name: Option<&str> = match &query.name {
        Some(name) => Some(name.as_str()),
        None => None,
    };
    if let Err(failure) = validate_name(name) {
        return Err(failure);
    }
    Ok(
        ReadFlow {
            command: ReadCommand::Select { query, kind: parsed, options },
            path,
            server,
            phase: ReadPhase::Opening,
        },
    )
}

/// Starts an outline, or refuses it before the workspace is opened.
pub fn start_outline(
    path: String,
    kinds: &Vec<String>,
    json: bool,
    server: ServerSelection,
) -> (flow: Result<ReadFlow, OutlineErrorDto>)
    ensures
        match flow {
            Ok(flow) => {
                &&& flow.wf()
                &&& flow.phase@ == ReadPhaseView::Opening
                &&& flow.path == path
                &&& flow.server == server
                &&& flow.command matches ReadCommand::Outline { kinds: requested, json: wanted }
                &&& wanted == json
                &&& requested@.len() == kinds@.len()
                &&& forall|i: int|
                    0 <= i < kinds@.len() ==> kinds::kind_text(#[trigger] requested@[i])
                        == kinds@[i]@
            },
            Err(error) => error@ == outline_command::unknown_kind() && exists|i: int|
                0 <= i < kinds@.len() && !outline_command::is_kind((#[trigger] kinds@[i])@),
        },
{
    let requested = match parse_kinds(kinds) {
        Ok(requested) => requested,
        Err(failure) => return Err(failure),
    };
    Ok(
        ReadFlow {
            command: ReadCommand::Outline { kinds: requested, json },
            path,
            server,
            phase: ReadPhase::Opening,
        },
    )
}

/// Returns how a command words a failure.
fn refuse(command: &ReadCommand, error: SelectionErrorDto) -> (step: (ReadPhase, ReadStep))
    ensures
        step.0@ == ReadPhaseView::Finished,
        step.1@ == ReadStepView::Refuse(worded(*command, error@)),
{
    let refusal = match command {
        ReadCommand::Select { .. } => ReadRefusal::Selection(error),
        ReadCommand::Outline { .. } => ReadRefusal::Outline(retarget_report(&error)),
    };
    (ReadPhase::Finished, ReadStep::Refuse(refusal))
}

/// Decides what follows a look at the diagnostic lock.
fn after_diagnosis(
    command: &ReadCommand,
    workspace: Sha256Digest,
    scanned: Option<Vec<RecoveryEntry>>,
) -> (step: (ReadPhase, ReadStep))
    ensures
        (step.0@, step.1@) == diagnosed(
            *command,
            workspace.0@,
            edit_command::scanned_view(scanned),
        ),
        step.0 is Acquiring || step.0 is Finished,
{
    match diagnostic_context(&scanned) {
        Ok(warnings) => {
            assert(wire::warnings_view(warnings@) =~= match scanned {
                None => seq![edit_command::stale_warning()],
                Some(_) => Seq::empty(),
            });
            (
                ReadPhase::Acquiring { workspace, warnings },
                ReadStep::Acquire(selection_snapshot_limits()),
            )
        },
        Err(failure) => refuse(command, map_filesystem_error(&failure)),
    }
}

/// Decides what follows the acquisition of the source.
fn after_acquisition(
    command: &ReadCommand,
    path: &str,
    workspace: Sha256Digest,
    warnings: Vec<WarningDto>,
    bytes: Vec<u8>,
) -> (step: (ReadPhase, ReadStep))
    ensures
        (step.0@, step.1@) == acquired(
            *command,
            workspace.0@,
            wire::warnings_view(warnings@),
            bytes@,
        ),
        match step.0 {
            ReadPhase::Configuring(source) => source.wf(path@, *command),
            phase => phase is Finished,
        },
{
    let ghost content = bytes@;
    let snapshot = match capture_source(path, bytes) {
        Ok(snapshot) => snapshot,
        Err(failure) => return refuse(command, failure),
    };
    proof {
        vstd::utf8::encode_utf8_valid_utf8(snapshot.text@);
    }
    let query = match command {
        ReadCommand::Outline { .. } => None,
        ReadCommand::Select { query, kind, .. } => match validate_query(query, *kind, &snapshot) {
            Ok(query) => Some(query),
            Err(failure) => return refuse(command, failure),
        },
    };
    (
        ReadPhase::Configuring(ReadSource { workspace, warnings, snapshot, query }),
        ReadStep::Configure,
    )
}

/// Returns the same optional value.
fn copy_optional_json(value: &Option<Json>) -> (copy: Option<Json>)
    ensures
        jsonrpc::optional_json(copy) == jsonrpc::optional_json(*value),
{
    match value {
        Some(value) => Some(value.clone()),
        None => None,
    }
}

/// Decides what follows the making of the URIs.
pub fn after_location(
    command: &ReadCommand,
    source: ReadSource,
    server: ResolvedServer,
    project_uri: Option<String>,
    source_uri: Option<String>,
    root_name: Option<String>,
) -> (step: (ReadPhase, ReadStep))
    ensures
        (step.0@, step.1@) == located(
            *command,
            source@,
            server,
            order::optional_text(project_uri),
            order::optional_text(source_uri),
            order::optional_text(root_name),
        ),
        match step.0 {
            ReadPhase::Running(kept, resolved) => kept == source && resolved == server,
            phase => phase is Finished,
        },
{
    let project_uri = match project_uri {
        Some(uri) => uri,
        None => return refuse(
            command,
            internal_error("failed to construct the project-root file URI"),
        ),
    };
    let source_uri = match source_uri {
        Some(uri) => uri,
        None => return refuse(command, internal_error("failed to construct the source file URI")),
    };
    let workspace_name = match root_name {
        Some(name) => name,
        None => "workspace".to_owned(),
    };
    let input = SessionInput {
        project_uri,
        workspace_name,
        source_uri,
        language_id: server.language_id.clone(),
        text: source.snapshot.text.clone(),
        initialization_options: copy_optional_json(&server.initialization_options),
        settings: copy_optional_json(&server.settings),
        deadlines: session_deadlines(server.startup_timeout, server.request_timeout),
        limits: SessionLimits::default(),
        transport_limits: TransportLimits::default(),
    };
    (ReadPhase::Running(source, server), ReadStep::Run(input))
}

/// Returns the output of a command after its session.
fn after_session(
    command: &ReadCommand,
    source: ReadSource,
    server: ResolvedServer,
    report: SessionReport,
) -> (step: ReadStep)
    requires
        source.wf(source.snapshot.path@, *command),
    ensures
        step@ == reported(*command, source.snapshot.path@, source@, server, report),
{
    let ReadSource { workspace, warnings, snapshot, query } = source;
    match command {
        ReadCommand::Select { options, .. } => {
            let query = query.unwrap();
            match complete_selection(
                workspace,
                &snapshot,
                &query,
                *options,
                &server.configuration_id,
                report,
                warnings,
            ) {
                Ok(text) => ReadStep::Print(text),
                Err(error) => ReadStep::Refuse(ReadRefusal::Selection(error)),
            }
        },
        ReadCommand::Outline { kinds, json } => match complete_outline(
            workspace,
            &snapshot,
            &server.configuration_id,
            report,
            kinds,
            *json,
            warnings,
        ) {
            Ok(text) => ReadStep::Print(text),
            Err(error) => ReadStep::Refuse(ReadRefusal::Outline(error)),
        },
    }
}

impl ReadFlow {
    /// Takes an answer and returns the command with its next step.
    pub fn advance(self, answer: ReadAnswer) -> (next: (ReadFlow, ReadStep))
        requires
            self.wf(),
        ensures
            next.0.wf(),
            next.0.command == self.command,
            next.0.path == self.path,
            next.0.server == self.server,
            (next.0.phase@, next.1@) == read_next(self.command, self.path@, self.phase@, answer),
    {
        let ReadFlow { command, path, server, phase } = self;
        let (phase, step) = match (phase, answer) {
            (ReadPhase::Opening, ReadAnswer::Opened(Err(error))) => refuse(
                &command,
                map_filesystem_error(&error),
            ),
            (ReadPhase::Opening, ReadAnswer::Opened(Ok(workspace))) => (
                ReadPhase::Diagnosing { workspace },
                ReadStep::Diagnose,
            ),
            (ReadPhase::Diagnosing { .. }, ReadAnswer::Diagnosed(Err(error))) => refuse(
                &command,
                map_filesystem_error(&error),
            ),
            (ReadPhase::Diagnosing { workspace }, ReadAnswer::Diagnosed(Ok(scanned))) => {
                after_diagnosis(&command, workspace, scanned)
            },
            (ReadPhase::Acquiring { .. }, ReadAnswer::Acquired(Err(error))) => refuse(
                &command,
                map_filesystem_error(&error),
            ),
            (ReadPhase::Acquiring { workspace, warnings }, ReadAnswer::Acquired(Ok(bytes))) => {
                after_acquisition(&command, path.as_str(), workspace, warnings, bytes)
            },
            (ReadPhase::Configuring(source), ReadAnswer::Configured(configuration)) => {
                match configuration {
                    Configuration::Absent | Configuration::Loaded => (
                        ReadPhase::Resolving(source),
                        ReadStep::Resolve(source_extension(path.as_str())),
                    ),
                    Configuration::Failed { error, explicit } => {
                        match tolerate_missing_configuration(&error, explicit) {
                            Ok(()) => (
                                ReadPhase::Resolving(source),
                                ReadStep::Resolve(source_extension(path.as_str())),
                            ),
                            Err(failure) => refuse(&command, failure),
                        }
                    },
                }
            },
            (ReadPhase::Resolving(_), ReadAnswer::Resolved(Err(error))) => refuse(
                &command,
                map_config_error(&error),
            ),
            (ReadPhase::Resolving(source), ReadAnswer::Resolved(Ok(resolved))) => (
                ReadPhase::Locating(source, resolved),
                ReadStep::Locate,
            ),
            (
                ReadPhase::Locating(acquired, resolved),
                ReadAnswer::Located { project, source },
            ) => {
                let root_name = name_folder(&project);
                after_location(
                    &command,
                    acquired,
                    resolved,
                    locate_project(project),
                    locate_source(source),
                    root_name,
                )
            },
            (ReadPhase::Running(..), ReadAnswer::Reported(Err(error))) => refuse(
                &command,
                map_session_error(&error),
            ),
            (ReadPhase::Running(source, resolved), ReadAnswer::Reported(Ok(report))) => (
                ReadPhase::Finished,
                after_session(&command, source, resolved, report),
            ),
            (phase, _) => (phase, ReadStep::Pending),
        };
        (ReadFlow { command, path, server, phase }, step)
    }
}

/// A server is started only for a source that was acquired whole, is UTF-8, and
/// fits the query: a session is run only after its URIs were made, for a
/// resolved server, under a configuration that is no failure.
pub proof fn law_sessions_follow_validation(
    command: ReadCommand,
    path: Seq<char>,
    phase: ReadPhaseView,
    answer: ReadAnswer,
)
    ensures
        ({
            let (next, step) = read_next(command, path, phase, answer);
            &&& step is Run ==> phase is Locating && next is Running
            &&& next is Running ==> phase is Locating || phase is Running
            &&& next is Locating ==> phase is Resolving || phase is Locating
            &&& next is Resolving ==> phase is Resolving || phase is Configuring
            &&& next is Configuring && phase !is Configuring ==> {
                &&& phase is Acquiring
                &&& answer matches ReadAnswer::Acquired(Ok(bytes))
                &&& vstd::utf8::valid_utf8(bytes@)
                &&& command matches ReadCommand::Select { query, kind, .. }
                    ==> select_command::query_of(query, kind, bytes@) is Ok
            }
        }),
{
}

/// The server sees, and the output describes, exactly the bytes that were
/// acquired: no later answer changes them.
pub proof fn law_sessions_see_the_acquired_bytes(
    command: ReadCommand,
    path: Seq<char>,
    phase: ReadPhaseView,
    answer: ReadAnswer,
)
    ensures
        ({
            let (next, step) = read_next(command, path, phase, answer);
            &&& captured_bytes(phase) is Some && next !is Finished ==> captured_bytes(next)
                == captured_bytes(phase)
            &&& step matches ReadStepView::Run(input) ==> Some(input.bytes) == captured_bytes(
                phase,
            )
            &&& phase is Acquiring && captured_bytes(next) is Some ==> (answer matches
                ReadAnswer::Acquired(Ok(bytes)) && captured_bytes(next) == Some(bytes@))
        }),
{
}

/// The bytes of the source, once they were captured.
pub open spec fn captured_bytes(phase: ReadPhaseView) -> Option<Seq<u8>> {
    match phase {
        ReadPhaseView::Configuring(source)
        | ReadPhaseView::Resolving(source)
        | ReadPhaseView::Locating(source, _)
        | ReadPhaseView::Running(source, _) => Some(source.bytes),
        _ => None,
    }
}

} // verus!
