//! The commands as conversations with the workspace and the server.

use serde_json::Value;
use srcmv::apply_flow::{
    begin_apply, begin_inspect, execute_apply, execute_inspect, request_source, ApplyAnswer,
    ApplyCommand, ApplyPhase, ApplyStep, InspectAnswer, InspectPhase, InspectStep, InspectedState,
    Inspection, Preview, RequestSource,
};
use srcmv::commit::{Endpoint, Operation, Precondition, Specification};
use srcmv::digest::Sha256Digest;
use srcmv::edit_command::RecoveryEntry;
use srcmv::edit_report::{ErrorCode, FsError};
use srcmv::json::{Json, JsonNumber};
use srcmv::location::{
    locate_project, locate_source, name_folder, source_extension, SystemPath,
};
use srcmv::outline::OutlineErrorCode;
use srcmv::position::SupportedPositionEncoding;
use srcmv::read_flow::{
    start_outline, start_selection, Configuration, ReadAnswer, ReadFlow, ReadPhase, ReadRefusal,
    ReadStep, ResolvedServer, SessionLimits,
};
use srcmv::select_command::{QueryArguments, SelectOptions, ServerSelection, SessionReport};
use srcmv::select_report::{ConfigError, SessionError, SessionPhase};
use srcmv::selection::SelectionErrorCode;
use srcmv::symbols::SelectionExtent;
use srcmv::transport::TransportLimits;
use srcmv::wire::MAX_RESPONSE_BYTES;

/// The library's value of a parsed JSON value.
fn converted(value: &Value) -> Json {
    match value {
        Value::Null => Json::Null,
        Value::Bool(flag) => Json::Bool(*flag),
        Value::Number(number) => Json::Number(match (number.as_u64(), number.as_i64()) {
            (Some(unsigned), _) => JsonNumber::Unsigned(unsigned),
            (None, Some(signed)) => JsonNumber::Negative(signed),
            (None, None) => JsonNumber::Real(number.to_string()),
        }),
        Value::String(text) => Json::String(text.clone()),
        Value::Array(items) => Json::Array(items.iter().map(converted).collect()),
        Value::Object(members) => Json::Object(
            members.iter().map(|(name, member)| (name.clone(), converted(member))).collect(),
        ),
    }
}

/// The library's value of a JSON text.
fn json(text: &str) -> Json {
    let value: Value = serde_json::from_str(text).expect("test JSON should parse");
    converted(&value)
}

const SOURCE: &str = "fn alpha() {}\nfn beta() {}\n";

const SYMBOLS: &str = r#"[
    {"name":"alpha","kind":12,
     "range":{"start":{"line":0,"character":0},"end":{"line":0,"character":13}},
     "selectionRange":{"start":{"line":0,"character":3},"end":{"line":0,"character":8}}},
    {"name":"beta","kind":12,
     "range":{"start":{"line":1,"character":0},"end":{"line":1,"character":12}},
     "selectionRange":{"start":{"line":1,"character":3},"end":{"line":1,"character":7}}}
]"#;

fn by_name(name: &str) -> QueryArguments {
    QueryArguments { name: Some(name.to_owned()), at_byte: None, at_line: None, at_column: None }
}

fn options() -> SelectOptions {
    SelectOptions { extent: SelectionExtent::Symbol, all_matches: false, json: true }
}

fn selection(name: &str) -> ReadFlow {
    start_selection(
        "source.rs".to_owned(),
        None,
        by_name(name),
        options(),
        ServerSelection::Automatic,
    )
    .unwrap_or_else(|error| panic!("the selection should start: {error:?}"))
}

fn outline() -> ReadFlow {
    start_outline("source.rs".to_owned(), &vec![], false, ServerSelection::Automatic)
        .unwrap_or_else(|error| panic!("the outline should start: {error:?}"))
}

fn server() -> ResolvedServer {
    ResolvedServer {
        configuration_id: Some("fixture".to_owned()),
        language_id: "rust".to_owned(),
        startup_timeout: 1_000,
        request_timeout: 2_000,
        initialization_options: Some(json(r#"{"fixture":true}"#)),
        settings: Some(json("[1]")),
    }
}

fn report() -> SessionReport {
    SessionReport {
        symbols: json(SYMBOLS),
        position_encoding: SupportedPositionEncoding::Utf8,
        server_name: None,
        server_version: None,
    }
}

fn located() -> ReadAnswer {
    ReadAnswer::Located {
        project: SystemPath::Text("/work".to_owned()),
        source: SystemPath::Text("/work/source.rs".to_owned()),
    }
}

/// Answers everything up to the session.
fn until_session(flow: ReadFlow) -> (ReadFlow, ReadStep) {
    let (flow, step) = flow.advance(ReadAnswer::Opened(Ok(Sha256Digest([1; 32]))));
    assert_eq!(step, ReadStep::Diagnose);
    let (flow, step) = flow.advance(ReadAnswer::Diagnosed(Ok(Some(Vec::new()))));
    assert!(matches!(step, ReadStep::Acquire(limits) if limits.files == 1));
    let (flow, step) = flow.advance(ReadAnswer::Acquired(Ok(SOURCE.as_bytes().to_vec())));
    assert_eq!(step, ReadStep::Configure);
    let (flow, step) = flow.advance(ReadAnswer::Configured(Configuration::Failed {
        error: ConfigError::Read { not_found: true },
        explicit: false,
    }));
    assert_eq!(step, ReadStep::Resolve("rs".to_owned()));
    let (flow, step) = flow.advance(ReadAnswer::Resolved(Ok(server())));
    assert_eq!(step, ReadStep::Locate);
    flow.advance(located())
}

#[test]
fn selections_run_one_session_over_the_acquired_text() {
    let (flow, step) = until_session(selection("beta"));
    let ReadStep::Run(input) = step else {
        panic!("a session should run");
    };
    assert_eq!(input.text, SOURCE);
    assert_eq!(input.workspace_name, "work");
    assert_eq!(input.project_uri, "file:///work/");
    assert_eq!(input.source_uri, "file:///work/source.rs");
    assert_eq!(input.language_id, "rust");
    assert_eq!(input.deadlines.total, 23_000);
    assert_eq!(input.initialization_options, server().initialization_options);
    assert_eq!(input.settings, server().settings);
    assert_eq!(input.limits, SessionLimits::default());
    assert_eq!(input.limits.max_server_requests, 64);
    assert_eq!(input.transport_limits, TransportLimits::default());
    let (flow, step) = flow.advance(ReadAnswer::Reported(Ok(report())));
    let ReadStep::Print(line) = step else {
        panic!("the selection should print");
    };
    let value = json(line.trim_end());
    let Some(Json::Array(matches)) = value.get("matches") else {
        panic!("matches must be an array");
    };
    assert_eq!(matches[0].get("name"), Some(&Json::String("beta".to_owned())));
    let (_, step) = flow.advance(located());
    assert_eq!(step, ReadStep::Pending);
}

#[test]
fn outlines_run_the_same_session() {
    let (flow, _) = until_session(outline());
    let (_, step) = flow.advance(ReadAnswer::Reported(Ok(report())));
    assert_eq!(
        step,
        ReadStep::Print(
            "source.rs: 2 document symbols\n\
             function alpha lines 1..1 lsp=0:0..0:13 bytes 0..13\n\
             function beta lines 2..2 lsp=1:0..1:12 bytes 14..26\n"
                .to_owned()
        )
    );
}

#[test]
fn malformed_queries_never_reach_the_workspace() {
    let unknown = start_selection(
        "source.rs".to_owned(),
        Some("bogus"),
        by_name(""),
        options(),
        ServerSelection::Automatic,
    );
    assert_eq!(
        unknown.err().map(|error| error.message().to_owned()),
        Some("the symbol kind is not recognized".to_owned())
    );
    let unnamed = start_selection(
        "source.rs".to_owned(),
        Some("function"),
        by_name(""),
        options(),
        ServerSelection::Automatic,
    );
    assert_eq!(
        unnamed.err().map(|error| error.message().to_owned()),
        Some("a symbol name must not be empty".to_owned())
    );
    let outline = start_outline(
        "source.rs".to_owned(),
        &vec!["bogus".to_owned()],
        false,
        ServerSelection::Automatic,
    );
    assert_eq!(
        outline.err().map(|error| error.code()),
        Some(OutlineErrorCode::InvalidOutlineQuery)
    );
}

fn refused(step: ReadStep) -> SelectionErrorCode {
    match step {
        ReadStep::Refuse(ReadRefusal::Selection(error)) => error.code(),
        other => panic!("the selection should be refused, not {other:?}"),
    }
}

#[test]
fn every_failed_answer_ends_the_selection() {
    let missing = || FsError::PathNotFound { path: "source.rs".to_owned() };
    let (_, step) = selection("beta").advance(ReadAnswer::Opened(Err(FsError::Unrecognized)));
    assert_eq!(refused(step), SelectionErrorCode::SelectionInternalError);

    let opened = || selection("beta").advance(ReadAnswer::Opened(Ok(Sha256Digest([1; 32])))).0;
    let unfinished = RecoveryEntry {
        transaction_id: "id".to_owned(),
        kind: "rollback_required".to_owned(),
        visibility: "unchanged".to_owned(),
        actions: Vec::new(),
    };
    let (_, step) = opened().advance(ReadAnswer::Diagnosed(Ok(Some(vec![unfinished]))));
    assert_eq!(refused(step), SelectionErrorCode::SelectionInternalError);

    let unlocked = || opened().advance(ReadAnswer::Diagnosed(Ok(None))).0;
    let (_, step) = unlocked().advance(ReadAnswer::Acquired(Err(missing())));
    assert_eq!(refused(step), SelectionErrorCode::InvalidSelectionQuery);
    let (_, step) = unlocked().advance(ReadAnswer::Acquired(Ok(vec![0xff])));
    assert_eq!(refused(step), SelectionErrorCode::UnsupportedTextEncoding);

    let acquired = || unlocked().advance(ReadAnswer::Acquired(Ok(SOURCE.into()))).0;
    let (_, step) = acquired().advance(ReadAnswer::Configured(Configuration::Failed {
        error: ConfigError::Read { not_found: true },
        explicit: true,
    }));
    assert_eq!(refused(step), SelectionErrorCode::LspServerNotConfigured);

    let configured = || acquired().advance(ReadAnswer::Configured(Configuration::Absent)).0;
    let (_, step) = configured().advance(ReadAnswer::Resolved(Err(ConfigError::Other)));
    assert_eq!(refused(step), SelectionErrorCode::LspServerNotConfigured);

    let resolved = || configured().advance(ReadAnswer::Resolved(Ok(server()))).0;
    let (_, step) = resolved().advance(ReadAnswer::Located {
        project: SystemPath::Text("/".to_owned()),
        source: SystemPath::Text("/source.rs".to_owned()),
    });
    assert!(matches!(step, ReadStep::Run(input) if input.workspace_name == "workspace"));
    for (project, source) in [("work", "/work/source.rs"), ("/work", "source.rs")] {
        let (_, step) = resolved().advance(ReadAnswer::Located {
            project: SystemPath::Text(project.to_owned()),
            source: SystemPath::Text(source.to_owned()),
        });
        assert_eq!(refused(step), SelectionErrorCode::SelectionInternalError);
    }

    let running = resolved().advance(located()).0;
    let (_, step) = running.advance(ReadAnswer::Reported(Err(SessionError::Timeout(
        SessionPhase::Initialize,
    ))));
    assert_eq!(refused(step), SelectionErrorCode::LspTimeout);
}

#[test]
fn paths_have_percent_encoded_file_uris() {
    let text = |path: &str| SystemPath::Text(path.to_owned());
    for (path, source, project) in [
        ("/", "file:///", "file:///"),
        ("/a b/c#\u{e9}.rs", "file:///a%20b/c%23%C3%A9.rs", "file:///a%20b/c%23%C3%A9.rs/"),
        ("/work/./source.rs", "file:///work/source.rs", "file:///work/source.rs/"),
    ] {
        assert_eq!(locate_source(text(path)).as_deref(), Some(source));
        assert_eq!(locate_project(text(path)).as_deref(), Some(project));
    }
    assert_eq!(locate_source(text("work/source.rs")), None);
    assert_eq!(locate_project(text("")), None);

    let uri = Some("file:///%FF/".to_owned());
    let other = SystemPath::Other { uri: uri.clone(), name: Some("work".to_owned()) };
    assert_eq!(name_folder(&other).as_deref(), Some("work"));
    assert_eq!(locate_project(other), uri);
    assert_eq!(locate_source(SystemPath::Other { uri: None, name: None }), None);
}

#[test]
fn paths_have_names_and_extensions() {
    for (path, name, extension) in [
        ("source.rs", Some("source.rs"), "rs"),
        ("a.b/archive.tar.gz", Some("archive.tar.gz"), "gz"),
        ("a.b/source", Some("source"), ""),
        ("a/.hidden", Some(".hidden"), ""),
        ("a/.hidden.toml", Some(".hidden.toml"), "toml"),
        ("a/source.", Some("source."), ""),
        ("a/work/", Some("work"), ""),
        ("a/..", None, ""),
        ("/", None, ""),
        ("", None, ""),
        (".", None, ""),
        ("a/./", Some("a"), ""),
        ("a//b.c/.", Some("b.c"), "c"),
        ("...", Some("..."), ""),
        ("\u{e9}.\u{e8}", Some("\u{e9}.\u{e8}"), "\u{e8}"),
    ] {
        let system = std::path::Path::new(path);
        assert_eq!(system.file_name().and_then(|name| name.to_str()), name);
        assert_eq!(system.extension().and_then(|text| text.to_str()).unwrap_or(""), extension);
        assert_eq!(source_extension(path), extension);
        assert_eq!(name_folder(&SystemPath::Text(path.to_owned())).as_deref(), name);
    }
}

#[test]
fn observations_without_a_lock_carry_a_warning() {
    let (flow, _) = outline().advance(ReadAnswer::Opened(Ok(Sha256Digest([1; 32]))));
    let (flow, _) = flow.advance(ReadAnswer::Diagnosed(Ok(None)));
    let ReadPhase::Acquiring { warnings, .. } = flow.phase else {
        panic!("the source should be acquired next");
    };
    assert_eq!(warnings.len(), 1);
}

fn apply(commit: bool, expect_plan: Option<&str>, json: bool) -> ApplyCommand {
    ApplyCommand {
        request: "-".to_owned(),
        commit,
        expect_plan: expect_plan.map(str::to_owned),
        accept_current_plan: expect_plan.is_none(),
        json,
        no_diff: false,
        summary: false,
        startup_umask: 0o022,
    }
}

fn operation() -> Operation {
    Operation::Move(Specification {
        source: Endpoint {
            path: "from.rs".to_owned(),
            precondition: Precondition::Sha256(Sha256Digest([1; 32])),
        },
        destination: Endpoint {
            path: "to.rs".to_owned(),
            precondition: Precondition::MustNotExist,
        },
    })
}

#[test]
fn applied_requests_are_read_and_parsed_before_the_workspace_is_opened() {
    let command = apply(true, Some("sha256:00"), true);
    let (phase, step) = begin_apply(&command);
    assert!(matches!(step, ApplyStep::ParseDigest(digest) if digest == "sha256:00"));
    let (phase, step) = execute_apply(
        &command,
        phase,
        ApplyAnswer::DigestParsed(Ok(Sha256Digest([7; 32]))),
    );
    assert!(matches!(step, ApplyStep::Read(RequestSource::StandardInput)));
    let (phase, step) =
        execute_apply(&command, phase, ApplyAnswer::RequestRead(Ok(b"{}".to_vec())));
    assert!(matches!(step, ApplyStep::Parse(bytes) if bytes == b"{}"));
    let (phase, step) =
        execute_apply(&command, phase, ApplyAnswer::RequestParsed(Ok(vec![operation()])));
    assert!(matches!(step, ApplyStep::Open));
    let (_, step) =
        execute_apply(&command, phase, ApplyAnswer::Opened(Ok(Sha256Digest([9; 32]))));
    let ApplyStep::Commit { commit, requirements } = step else {
        panic!("a commit takes over");
    };
    assert_eq!(commit.expected_plan, Some(Sha256Digest([7; 32])));
    assert_eq!(requirements.len(), 2);
    assert_eq!(requirements[1].path, "to.rs");
    assert_eq!(
        request_source("request.json"),
        RequestSource::File("request.json".to_owned())
    );
}

fn previewing(command: &ApplyCommand) -> ApplyPhase {
    let (phase, _) = begin_apply(command);
    let (phase, _) =
        execute_apply(command, phase, ApplyAnswer::RequestRead(Ok(b"{}".to_vec())));
    let (phase, _) =
        execute_apply(command, phase, ApplyAnswer::RequestParsed(Ok(vec![operation()])));
    let (phase, step) =
        execute_apply(command, phase, ApplyAnswer::Opened(Ok(Sha256Digest([9; 32]))));
    assert!(matches!(step, ApplyStep::Diagnose));
    let (phase, step) = execute_apply(command, phase, ApplyAnswer::Diagnosed(Ok(None)));
    assert!(matches!(step, ApplyStep::Preview { warnings, .. } if warnings.len() == 1));
    phase
}

#[test]
fn previews_print_the_text_or_the_bounded_line() {
    let human = apply(false, None, false);
    let preview = || Preview { human: "shown\n".to_owned(), line: Ok("{}\n".to_owned()) };
    let (_, step) =
        execute_apply(&human, previewing(&human), ApplyAnswer::Previewed(Ok(preview())));
    assert!(matches!(step, ApplyStep::Print(text) if text == "shown\n"));

    let structured = apply(false, None, true);
    let (_, step) = execute_apply(
        &structured,
        previewing(&structured),
        ApplyAnswer::Previewed(Ok(preview())),
    );
    assert!(matches!(step, ApplyStep::Print(text) if text == "{}\n"));

    let oversized = Preview {
        human: String::new(),
        line: Ok("x".repeat(MAX_RESPONSE_BYTES as usize + 1)),
    };
    let (_, step) = execute_apply(
        &structured,
        previewing(&structured),
        ApplyAnswer::Previewed(Ok(oversized)),
    );
    assert!(matches!(
        step,
        ApplyStep::Refuse(error) if error.code() == ErrorCode::ResourceLimitExceeded
    ));
}

#[test]
fn commits_without_a_policy_are_refused_before_anything_is_read() {
    let command = ApplyCommand { accept_current_plan: false, ..apply(true, None, true) };
    let (_, step) = begin_apply(&command);
    assert!(matches!(
        step,
        ApplyStep::Refuse(error) if error.code() == ErrorCode::ExpectedPlanRequired
    ));
}

#[test]
fn inspections_open_diagnose_and_report() {
    let (phase, step) = begin_inspect(&vec!["a\0".to_owned()]);
    assert!(matches!(phase, InspectPhase::Finished));
    assert!(matches!(step, InspectStep::Refuse(_)));

    let (phase, step) = begin_inspect(&vec!["a".to_owned()]);
    assert_eq!(step, InspectStep::Open);
    let (phase, step) = execute_inspect(phase, InspectAnswer::Opened(Ok(())));
    assert_eq!(step, InspectStep::Diagnose);
    let (phase, step) = execute_inspect(phase, InspectAnswer::Diagnosed(Ok(Some(Vec::new()))));
    assert_eq!(step, InspectStep::Inspect);
    let found = Inspection { path: "a".to_owned(), state: InspectedState::Absent };
    let (phase, step) =
        execute_inspect(phase, InspectAnswer::Inspected(Ok(vec![found.clone()])));
    assert_eq!(step, InspectStep::Report { paths: vec![found], warnings: Vec::new() });
    let (_, step) = execute_inspect(phase, InspectAnswer::Opened(Ok(())));
    assert_eq!(step, InspectStep::Pending);

    let (phase, _) = begin_inspect(&vec![]);
    let (_, step) = execute_inspect(phase, InspectAnswer::Opened(Err(FsError::TransactionBusy)));
    assert!(matches!(
        step,
        InspectStep::Refuse(error) if error.code() == ErrorCode::TransactionBusy
    ));
}
