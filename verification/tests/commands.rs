//! The read-only commands, from their arguments to their output.

use serde_json::Value;
use srcmv::digest::Sha256Digest;
use srcmv::edit_report::{CoreError, FsError};
use srcmv::json::{Json, JsonNumber};
use srcmv::jsonrpc::JsonRpcError;
use srcmv::kinds::{KnownSymbolKind, NormalizedSymbolKind};
use srcmv::outline::{OutlineErrorCode, OutlineSymbolDto};
use srcmv::outline_command::{
    complete_outline, conversion_error, enforce_outline_limit, filter_kinds, outline_filesystem_error,
    outline_message, outline_session_error, parse_kinds, render_human_with_limit, retarget_report,
};
use srcmv::position::{ByteRange, Position, PositionError, Range, SupportedPositionEncoding};
use srcmv::select_command::{
    capture_source, choose_server, complete_selection, parse_kind, selection_snapshot_limits,
    session_deadlines, validate_name, validate_query, QueryArguments, QueryValue, SelectOptions,
    ServerSelection, SessionReport, SourceSnapshot,
};
use srcmv::select_report::{
    map_filesystem_error, map_session_error, map_symbol_error, map_transport_error,
    map_user_position_error, tolerate_missing_configuration,
    validate_server_identity, ConfigError, SessionError, MAXIMUM_QUERY_NAME_BYTES,
    MAXIMUM_SERVER_IDENTITY_BYTES,
};
use srcmv::selection::{
    SelectionByteSelectorDto, SelectionErrorCode, SelectionErrorDto, SelectionKnownSymbolKindDto,
    SelectionLspPositionDto, SelectionLspRangeDto, SelectionSymbolKindDto,
};
use srcmv::symbols::{
    order_unique_candidates, NormalizedSymbol, SelectionExtent, SymbolError, DEFAULT_MAXIMUM_OUTLINE_SYMBOLS,
};
use srcmv::transport::{
    ProcessError, ProcessFault, ProcessFaultKind, ProcessWorker, TransportError,
};

/// The library's value of a parsed JSON value.
fn converted(value: &Value) -> Json {
    match value {
        Value::Null => Json::Null,
        Value::Bool(flag) => Json::Bool(*flag),
        Value::Number(number) => Json::Number(match (number.as_u64(), number.as_i64()) {
            (Some(unsigned), _) => JsonNumber::Unsigned(unsigned),
            (None, Some(signed)) => JsonNumber::Negative(signed),
            (None, None) => JsonNumber::Real(number.to_string()),
        }),
        Value::String(text) => Json::String(text.clone()),
        Value::Array(items) => Json::Array(items.iter().map(converted).collect()),
        Value::Object(members) => Json::Object(
            members.iter().map(|(name, member)| (name.clone(), converted(member))).collect(),
        ),
    }
}

/// The library's value of a JSON text.
fn json(text: &str) -> Json {
    let value: Value = serde_json::from_str(text).expect("test JSON should parse");
    converted(&value)
}

/// The context member of a report.
fn context<'a>(members: &'a [(String, Json)], name: &str) -> &'a Json {
    members
        .iter()
        .find(|(key, _)| key == name)
        .map(|(_, value)| value)
        .unwrap_or_else(|| panic!("missing context `{name}`"))
}

fn number(value: u64) -> Json {
    Json::Number(JsonNumber::Unsigned(value))
}

fn text(value: &str) -> Json {
    Json::String(value.to_owned())
}

fn member<'a>(value: &'a Json, name: &str) -> &'a Json {
    value.get(name).unwrap_or_else(|| panic!("missing member `{name}`"))
}

#[test]
fn server_identity_must_be_nonempty_and_bounded_for_the_wire_schema() {
    assert!(validate_server_identity(&None, "identity").is_ok());
    assert!(validate_server_identity(&Some("server".to_owned()), "identity").is_ok());
    assert!(
        validate_server_identity(&Some("x".repeat(MAXIMUM_SERVER_IDENTITY_BYTES)), "identity",)
            .is_ok()
    );

    let empty = validate_server_identity(&Some(String::new()), "identity")
        .expect_err("empty identity must fail");
    let oversized = validate_server_identity(
        &Some("x".repeat(MAXIMUM_SERVER_IDENTITY_BYTES + 1)),
        "identity",
    )
    .expect_err("oversized identity must fail");

    assert_eq!(empty.code(), SelectionErrorCode::LspProtocolError);
    assert_eq!(
        oversized.code(),
        SelectionErrorCode::LspResourceLimitExceeded
    );
}

#[test]
fn query_name_bytes_are_checked_below_at_and_above_the_limit() {
    assert!(validate_name(Some(&"x".repeat(MAXIMUM_QUERY_NAME_BYTES - 1))).is_ok());
    assert!(validate_name(Some(&"x".repeat(MAXIMUM_QUERY_NAME_BYTES))).is_ok());

    let oversized = validate_name(Some(&"x".repeat(MAXIMUM_QUERY_NAME_BYTES + 1)))
        .expect_err("a name above the byte limit must fail");
    assert_eq!(
        oversized.code(),
        SelectionErrorCode::LspResourceLimitExceeded
    );

    let empty = validate_name(Some("")).expect_err("an empty name must fail");
    assert_eq!(empty.code(), SelectionErrorCode::InvalidSelectionQuery);
    assert!(validate_name(None).is_ok());
}

#[test]
fn asynchronous_queue_overflow_maps_to_the_resource_error_registry() {
    let report = map_transport_error(&TransportError::ProcessFault(ProcessFault {
        worker: ProcessWorker::Stdout,
        kind: ProcessFaultKind::ResourceLimit {
            queue: "stdout",
            item_bytes: 9,
            capacity_bytes: 8,
        },
    }));

    assert_eq!(report.code(), SelectionErrorCode::LspResourceLimitExceeded);
}

#[test]
fn exceeded_transport_bounds_map_to_the_resource_error_registry() {
    let id = JsonRpcError::IdTooLarge { length: 257, limit: 256 };
    for (violation, resource, limit) in [
        (
            JsonRpcError::HeaderTooLarge { limit: 16_384 },
            "LSP header bytes",
            16_384,
        ),
        (
            JsonRpcError::InboundBodyTooLarge { length: 16_777_217, limit: 16_777_216 },
            "inbound JSON-RPC body bytes",
            16_777_216,
        ),
        (
            JsonRpcError::OutboundBodyTooLarge { length: 9, limit: 8 },
            "outbound JSON-RPC body bytes",
            8,
        ),
        (id, "JSON-RPC request ID bytes", 256),
        (
            JsonRpcError::MethodTooLong { length: 257, limit: 256 },
            "JSON-RPC method name bytes",
            256,
        ),
        (
            JsonRpcError::ParamsTooLarge { length: 3, limit: 2 },
            "JSON-RPC parameter bytes",
            2,
        ),
        (
            JsonRpcError::PendingRequestLimit { limit: 8 },
            "pending client requests",
            8,
        ),
    ] {
        let report = map_transport_error(&TransportError::Protocol(violation));
        assert_eq!(report.code(), SelectionErrorCode::LspResourceLimitExceeded);
        assert_eq!(
            report.context(),
            &vec![
                ("limit".to_owned(), Json::Number(JsonNumber::Unsigned(limit))),
                ("resource".to_owned(), Json::String(resource.to_owned())),
            ]
        );
    }
    let nested = JsonRpcError::JsonNestingTooDeep { depth: 65, limit: 64 };
    let report = map_transport_error(&TransportError::Protocol(nested));
    assert_eq!(report.code(), SelectionErrorCode::LspProtocolError);
}

#[test]
fn terminal_pipe_closures_map_to_lsp_exited() {
    for error_value in [TransportError::StdinClosed, TransportError::StdoutClosed] {
        let report = map_transport_error(&error_value);
        assert_eq!(report.code(), SelectionErrorCode::LspExited);
    }
}

#[test]
fn unrelated_io_fault_remains_a_protocol_error() {
    let report = map_transport_error(&TransportError::ProcessFault(ProcessFault {
        worker: ProcessWorker::Stdout,
        kind: ProcessFaultKind::Io {
            message: "fixture I/O failure".to_owned(),
        },
    }));

    assert_eq!(report.code(), SelectionErrorCode::LspProtocolError);
}

fn fixture_symbol(
    name: &str,
    kind: SelectionSymbolKindDto,
    depth: u64,
    start_line: u64,
    end_line: u64,
) -> OutlineSymbolDto {
    let lsp = u32::try_from(depth).unwrap_or(0);
    OutlineSymbolDto::new(
        name,
        kind,
        vec![name.to_owned()],
        depth,
        None,
        start_line,
        Some(1),
        end_line,
        Some(2),
        outline_lsp_range(2 + lsp, 4 * lsp, 6 + lsp, 5 * lsp),
        outline_lsp_range(2 + lsp, 5 * lsp, 2 + lsp, 10 * lsp),
        SelectionByteSelectorDto::new(19 + 17 * depth, 77 - 2 * depth),
    )
}

fn outline_lsp_range(
    start_line: u32,
    start_character: u32,
    end_line: u32,
    end_character: u32,
) -> SelectionLspRangeDto {
    SelectionLspRangeDto::new(
        SelectionLspPositionDto::new(start_line, start_character),
        SelectionLspPositionDto::new(end_line, end_character),
    )
}

fn normalized(kind: NormalizedSymbolKind, name: &str) -> NormalizedSymbol {
    let range = Range {
        start: Position { line: 0, character: 0 },
        end: Position { line: 0, character: 1 },
    };
    NormalizedSymbol {
        name: name.to_owned(),
        detail: None,
        kind,
        symbol_path: vec![name.to_owned()],
        lsp_range: range,
        lsp_selection_range: range,
        byte_range: ByteRange { start: 0, end: 1 },
        selection_byte_range: ByteRange { start: 0, end: 1 },
    }
}

fn selection_report(code: SelectionErrorCode) -> SelectionErrorDto {
    SelectionErrorDto::new(
        code,
        "fixture message",
        vec![("probe".to_owned(), number(42))],
    )
}

#[test]
fn unknown_kind_spellings_fail_as_invalid_outline_queries() {
    assert_eq!(
        parse_kinds(&vec!["function".to_owned(), "method".to_owned()])
            .expect("standard spellings must parse"),
        vec![KnownSymbolKind::Function, KnownSymbolKind::Method]
    );

    let error = parse_kinds(&vec!["function".to_owned(), "bogus".to_owned()])
        .expect_err("unknown spellings must fail");
    assert_eq!(error.code(), OutlineErrorCode::InvalidOutlineQuery);
    assert_eq!(error.exit_code(), 2);
    assert!(!error.retryable());
}

#[test]
fn outline_symbol_count_bound_covers_below_at_and_above() {
    assert!(enforce_outline_limit(DEFAULT_MAXIMUM_OUTLINE_SYMBOLS - 1).is_ok());
    assert!(enforce_outline_limit(DEFAULT_MAXIMUM_OUTLINE_SYMBOLS).is_ok());

    let error = enforce_outline_limit(DEFAULT_MAXIMUM_OUTLINE_SYMBOLS + 1)
        .expect_err("above-limit counts must fail");
    assert_eq!(error.code(), OutlineErrorCode::LspResourceLimitExceeded);
    assert_eq!(error.exit_code(), 4);
    assert!(!error.retryable());
    assert_eq!(context(error.context(), "resource"), &text("outline_symbols"));
    assert_eq!(
        context(error.context(), "limit"),
        &number(DEFAULT_MAXIMUM_OUTLINE_SYMBOLS as u64)
    );
}

#[test]
fn shared_mapper_reports_retarget_to_the_outline_envelope() {
    let cases = [
        (
            SelectionErrorCode::InvalidSelectionQuery,
            OutlineErrorCode::InvalidOutlineQuery,
        ),
        (
            SelectionErrorCode::LspServerNotConfigured,
            OutlineErrorCode::LspServerNotConfigured,
        ),
        (
            SelectionErrorCode::SelectionNotFound,
            OutlineErrorCode::OutlineInternalError,
        ),
        (
            SelectionErrorCode::SelectionAmbiguous,
            OutlineErrorCode::OutlineInternalError,
        ),
        (
            SelectionErrorCode::UnsupportedTextEncoding,
            OutlineErrorCode::UnsupportedTextEncoding,
        ),
        (
            SelectionErrorCode::LspCapabilityUnavailable,
            OutlineErrorCode::LspCapabilityUnavailable,
        ),
        (
            SelectionErrorCode::LspFlatSymbolsUnsupported,
            OutlineErrorCode::LspFlatSymbolsUnsupported,
        ),
        (
            SelectionErrorCode::LspDocumentSyncUnavailable,
            OutlineErrorCode::LspDocumentSyncUnavailable,
        ),
        (
            SelectionErrorCode::LspResourceLimitExceeded,
            OutlineErrorCode::LspResourceLimitExceeded,
        ),
        (SelectionErrorCode::LspTimeout, OutlineErrorCode::LspTimeout),
        (
            SelectionErrorCode::LspStartFailed,
            OutlineErrorCode::LspStartFailed,
        ),
        (SelectionErrorCode::LspExited, OutlineErrorCode::LspExited),
        (
            SelectionErrorCode::LspProtocolError,
            OutlineErrorCode::LspProtocolError,
        ),
        (
            SelectionErrorCode::LspRequestFailed,
            OutlineErrorCode::LspRequestFailed,
        ),
        (
            SelectionErrorCode::SelectionInternalError,
            OutlineErrorCode::OutlineInternalError,
        ),
    ];
    // Every registered selection code must have an explicit retarget rule.
    assert_eq!(cases.len(), SelectionErrorCode::all().len());

    for (selection_code, expected_code) in cases {
        let retargeted = retarget_report(&selection_report(selection_code));
        assert_eq!(
            retargeted.code(),
            expected_code,
            "{} must retarget",
            selection_code.as_str()
        );
        assert_eq!(
            retargeted.retryable(),
            selection_code.retryable(),
            "{} retryability",
            selection_code.as_str()
        );
        assert_eq!(context(retargeted.context(), "probe"), &number(42));
        assert_eq!(
            member(&retargeted.to_json(), "outline_protocol_version"),
            &number(1)
        );
    }
}

#[test]
fn selection_flavored_messages_are_rewritten_for_the_outline_envelope() {
    let rewritten = [
        (
            "semantic selection exceeded a configured resource limit",
            "the read-only outline exceeded a configured resource limit",
        ),
        (
            "the language server did not respond before the selection deadline",
            "the language server did not respond before the outline deadline",
        ),
        (
            "the language server exited before selection completed",
            "the language server exited before the outline completed",
        ),
    ];
    for (original, expected) in rewritten {
        assert_eq!(outline_message(original), expected);
    }

    assert_eq!(
        outline_message("the source snapshot is not valid UTF-8"),
        "the source snapshot is not valid UTF-8"
    );
}

#[test]
fn kind_filters_keep_everything_when_empty_and_subset_otherwise() {
    let symbols = vec![
        normalized(NormalizedSymbolKind::Known(KnownSymbolKind::Class), "Outer"),
        normalized(
            NormalizedSymbolKind::Known(KnownSymbolKind::Function),
            "alpha",
        ),
        normalized(NormalizedSymbolKind::Unknown(99), "future"),
    ];
    let ordered = order_unique_candidates(&symbols);

    assert_eq!(filter_kinds(&ordered, &vec![]).len(), 3);

    let functions_only = filter_kinds(&ordered, &vec![KnownSymbolKind::Function]);
    assert_eq!(functions_only.len(), 1);
    assert_eq!(functions_only[0].name, "alpha");

    let both_requested = filter_kinds(
        &ordered,
        &vec![KnownSymbolKind::Function, KnownSymbolKind::Class],
    );
    assert_eq!(both_requested.len(), 2);
    assert_eq!(both_requested[0].name, "Outer");
    assert_eq!(both_requested[1].name, "alpha");

    let unknown_unreachable = filter_kinds(&ordered, &vec![KnownSymbolKind::File]);
    assert!(unknown_unreachable.is_empty());
}

#[test]
fn human_output_indents_roots_at_column_zero_and_nests_by_depth() {
    let outer = OutlineSymbolDto::new(
        "Outer",
        SelectionSymbolKindDto::Known(SelectionKnownSymbolKindDto::Class),
        vec!["Outer".to_owned()],
        0,
        None,
        3,
        Some(1),
        7,
        Some(2),
        outline_lsp_range(2, 0, 6, 1),
        outline_lsp_range(2, 5, 2, 10),
        SelectionByteSelectorDto::new(19, 77),
    );
    let alpha = OutlineSymbolDto::new(
        "alpha",
        SelectionSymbolKindDto::Known(SelectionKnownSymbolKindDto::Function),
        vec!["Outer".to_owned(), "alpha".to_owned()],
        1,
        None,
        4,
        Some(5),
        6,
        Some(6),
        outline_lsp_range(3, 4, 5, 5),
        outline_lsp_range(3, 11, 3, 16),
        SelectionByteSelectorDto::new(36, 75),
    );
    let symbols = vec![outer, alpha];

    let output = render_human_with_limit("source.rs", &symbols, usize::MAX)
        .expect("small outlines must render");

    assert_eq!(
        output,
        "source.rs: 2 document symbols\n\
         class Outer lines 3..7 lsp=2:0..6:1 bytes 19..77\n\
         \x20 function alpha lines 4..6 lsp=3:4..5:5 bytes 36..75\n"
    );
}

#[test]
fn human_output_escapes_control_characters_in_names_and_paths() {
    let symbol = vec![fixture_symbol(
        "bad\u{1b}name",
        SelectionSymbolKindDto::Unknown,
        0,
        1,
        2,
    )];

    let output = render_human_with_limit("dir\u{7}file.rs", &symbol, usize::MAX)
        .expect("escaped outlines must render");

    assert!(output.starts_with("dir\\u{7}file.rs: 1 document symbols\n"));
    assert!(output.contains("unknown bad\\u{1b}name lines 1..2"));
}

#[test]
fn empty_human_output_prints_no_header_and_the_no_symbols_phrase() {
    let output =
        render_human_with_limit("source.rs", &vec![], usize::MAX).expect("empty must render");
    assert_eq!(output, "no document symbols\n");
}

#[test]
fn human_accumulation_fails_closed_at_and_below_the_cap_without_partial_output() {
    let symbols = vec![
        fixture_symbol(
            "Outer",
            SelectionSymbolKindDto::Known(SelectionKnownSymbolKindDto::Class),
            0,
            3,
            7,
        ),
        fixture_symbol(
            "alpha",
            SelectionSymbolKindDto::Known(SelectionKnownSymbolKindDto::Function),
            1,
            4,
            6,
        ),
    ];

    let exact = render_human_with_limit("source.rs", &symbols, usize::MAX)
        .expect("reference render must succeed")
        .len();
    assert!(
        render_human_with_limit("source.rs", &symbols, exact).is_ok(),
        "at-limit renders must succeed"
    );

    let error = render_human_with_limit("source.rs", &symbols, exact - 1)
        .expect_err("above-limit renders must fail");
    assert_eq!(error.code(), OutlineErrorCode::LspResourceLimitExceeded);
    assert_eq!(
        context(error.context(), "resource"),
        &text("serialized_human_output")
    );
}

const SOURCE: &str =
    "pub struct Outer;\n\nimpl Outer {\n    pub fn alpha() -> u32 {\n        1\n    }\n}\n";

const SYMBOLS: &str = r#"[{
    "name": "Outer",
    "detail": "fixture class",
    "kind": 5,
    "range": {"start": {"line": 2, "character": 0}, "end": {"line": 6, "character": 1}},
    "selectionRange": {"start": {"line": 2, "character": 5}, "end": {"line": 2, "character": 10}},
    "children": [{
        "name": "alpha",
        "kind": 12,
        "range": {"start": {"line": 3, "character": 4}, "end": {"line": 5, "character": 5}},
        "selectionRange": {"start": {"line": 3, "character": 11}, "end": {"line": 3, "character": 16}}
    }]
}]"#;

fn snapshot() -> SourceSnapshot {
    capture_source("source.rs", SOURCE.as_bytes().to_vec()).expect("the source is UTF-8")
}

fn report(symbols: &str) -> SessionReport {
    SessionReport {
        symbols: json(symbols),
        position_encoding: SupportedPositionEncoding::Utf16,
        server_name: Some("srcmv-fake-lsp".to_owned()),
        server_version: None,
    }
}

fn by_name(name: &str) -> QueryArguments {
    QueryArguments {
        name: Some(name.to_owned()),
        at_byte: None,
        at_line: None,
        at_column: None,
    }
}

fn options(extent: SelectionExtent, all_matches: bool, json: bool) -> SelectOptions {
    SelectOptions { extent, all_matches, json }
}

#[test]
fn sources_are_captured_with_their_digest() {
    let captured = capture_source("abc.txt", b"abc".to_vec()).expect("abc is UTF-8");
    assert_eq!(
        captured.digest.to_prefixed_hex(),
        "sha256:ba7816bf8f01cfea414140de5dae2223b00361a396177a9cb410ff61f20015ad"
    );
    assert_eq!(captured.text, "abc");
    assert_eq!(captured.path, "abc.txt");

    let error = capture_source("bad.txt", vec![b'a', 0xff]).expect_err("0xff is not UTF-8");
    assert_eq!(error.code(), SelectionErrorCode::UnsupportedTextEncoding);
}

#[test]
fn queries_are_checked_against_the_snapshot() {
    let snapshot = snapshot();
    let query = validate_query(&by_name("alpha"), Some(KnownSymbolKind::Function), &snapshot)
        .expect("a name query is valid");
    assert_eq!(query.value, QueryValue::Name("alpha".to_owned()));
    assert_eq!(query.kind, Some(KnownSymbolKind::Function));

    let at_byte = |offset| QueryArguments {
        name: None,
        at_byte: Some(offset),
        at_line: None,
        at_column: None,
    };
    let query = validate_query(&at_byte(40), None, &snapshot).expect("40 is an offset");
    assert_eq!(query.value, QueryValue::Byte(40));
    let error = validate_query(&at_byte(79), None, &snapshot).expect_err("79 is past the end");
    assert_eq!(error.code(), SelectionErrorCode::InvalidSelectionQuery);

    let at_line = QueryArguments { name: None, at_byte: None, at_line: Some(4), at_column: None };
    let query = validate_query(&at_line, None, &snapshot).expect("line 4 exists");
    assert_eq!(query.value, QueryValue::Byte(32));

    let nothing = QueryArguments { name: None, at_byte: None, at_line: None, at_column: None };
    let error = validate_query(&nothing, None, &snapshot).expect_err("nothing is asked");
    assert_eq!(error.message(), "exactly one semantic-selection query is required");
    assert_eq!(
        parse_kind(Some("bogus")).expect_err("an unknown kind").message(),
        "the symbol kind is not recognized"
    );
    assert_eq!(parse_kind(Some("class")).expect("a kind"), Some(KnownSymbolKind::Class));
    assert_eq!(parse_kind(None).expect("no kind"), None);
}

#[test]
fn unique_selections_print_one_line_and_the_wire_line() {
    let snapshot = snapshot();
    let query = validate_query(&by_name("alpha"), None, &snapshot).expect("a name query");
    let shown = complete_selection(
        Sha256Digest([1; 32]),
        &snapshot,
        &query,
        options(SelectionExtent::Symbol, false, false),
        &None,
        report(SYMBOLS),
        Vec::new(),
    )
    .expect("alpha is unique");
    assert!(shown.contains("alpha"));
    assert!(shown.ends_with('\n'));

    let line = complete_selection(
        Sha256Digest([1; 32]),
        &snapshot,
        &query,
        options(SelectionExtent::DeclarationLines, false, true),
        &Some("fixture".to_owned()),
        report(SYMBOLS),
        Vec::new(),
    )
    .expect("alpha is unique");
    let value = json(line.trim_end());
    let Json::Array(matches) = member(&value, "matches") else {
        panic!("matches must be an array");
    };
    assert_eq!(matches.len(), 1);
    assert_eq!(
        member(&matches[0], "selector"),
        &json(r#"{"kind":"bytes","start":32,"end":76}"#)
    );
    assert_eq!(member(&matches[0], "symbol_path"), &json(r#"["Outer","alpha"]"#));
    let request = member(&matches[0], "request_source");
    assert_eq!(member(request, "path"), &text("source.rs"));
    assert_eq!(member(request, "selector"), member(&matches[0], "selector"));
    assert_eq!(
        member(member(&value, "server"), "configuration_id"),
        &text("fixture")
    );
    let payload = capture_source("payload", SOURCE.as_bytes()[32..76].to_vec())
        .expect("the payload is UTF-8");
    assert_eq!(
        member(&matches[0], "selected_payload_sha256"),
        &text(&payload.digest.to_prefixed_hex())
    );
}

#[test]
fn selections_report_missing_ambiguous_and_malformed_symbols() {
    let snapshot = snapshot();
    let select = |name: &str, all: bool, symbols: &str| {
        let query = validate_query(&by_name(name), None, &snapshot).expect("a name query");
        complete_selection(
            Sha256Digest([1; 32]),
            &snapshot,
            &query,
            options(SelectionExtent::Symbol, all, false),
            &None,
            report(symbols),
            Vec::new(),
        )
    };
    let missing = select("absent", false, SYMBOLS).expect_err("no such symbol");
    assert_eq!(missing.code(), SelectionErrorCode::SelectionNotFound);
    assert!(select("absent", true, SYMBOLS).is_ok());

    let twice = r#"[
        {"name":"x","kind":12,
         "range":{"start":{"line":0,"character":0},"end":{"line":0,"character":3}},
         "selectionRange":{"start":{"line":0,"character":0},"end":{"line":0,"character":1}}},
        {"name":"x","kind":12,
         "range":{"start":{"line":0,"character":4},"end":{"line":0,"character":10}},
         "selectionRange":{"start":{"line":0,"character":4},"end":{"line":0,"character":5}}}
    ]"#;
    let ambiguous = select("x", false, twice).expect_err("two symbols");
    assert_eq!(ambiguous.code(), SelectionErrorCode::SelectionAmbiguous);
    assert_eq!(ambiguous.exit_code(), 3);

    let malformed = select("x", false, "42").expect_err("a number is no symbol list");
    assert_eq!(malformed.code(), SelectionErrorCode::LspProtocolError);

    let unnamed = SessionReport { server_name: Some(String::new()), ..report(SYMBOLS) };
    let query = validate_query(&by_name("alpha"), None, &snapshot).expect("a name query");
    let refused = complete_selection(
        Sha256Digest([1; 32]),
        &snapshot,
        &query,
        options(SelectionExtent::Symbol, false, false),
        &None,
        unnamed,
        Vec::new(),
    )
    .expect_err("an empty server name is refused");
    assert_eq!(refused.code(), SelectionErrorCode::LspProtocolError);
}

#[test]
fn outlines_list_every_symbol_with_its_lines() {
    let snapshot = snapshot();
    let outline = |symbols: &str, kinds: Vec<KnownSymbolKind>, json_output: bool| {
        complete_outline(
            Sha256Digest([1; 32]),
            &snapshot,
            &None,
            report(symbols),
            &kinds,
            json_output,
            Vec::new(),
        )
    };
    assert_eq!(
        outline(SYMBOLS, Vec::new(), false).expect("the outline renders"),
        "source.rs: 2 document symbols\n\
         class Outer lines 3..7 lsp=2:0..6:1 bytes 19..77\n\
         \x20 function alpha lines 4..6 lsp=3:4..5:5 bytes 36..75\n"
    );
    assert_eq!(
        outline(SYMBOLS, vec![KnownSymbolKind::Function], false).expect("the outline renders"),
        "source.rs: 1 document symbols\n\
         \x20 function alpha lines 4..6 lsp=3:4..5:5 bytes 36..75\n"
    );
    assert_eq!(
        outline("null", Vec::new(), false).expect("no symbols render"),
        "no document symbols\n"
    );
    let line = outline(SYMBOLS, Vec::new(), true).expect("the outline serializes");
    let value = json(line.trim_end());
    let Json::Array(symbols) = member(&value, "symbols") else {
        panic!("symbols must be an array");
    };
    assert_eq!(member(&symbols[1], "depth"), &number(1));
    assert_eq!(member(&symbols[1], "start_line"), &number(4));
    assert_eq!(member(&symbols[1], "start_column"), &number(5));
    assert_eq!(member(&symbols[1], "end_column"), &number(6));

    let malformed = outline("42", Vec::new(), true).expect_err("a number is no symbol list");
    assert_eq!(malformed.code(), OutlineErrorCode::LspProtocolError);
}

#[test]
fn servers_are_chosen_by_program_then_identifier() {
    assert_eq!(
        choose_server(
            Some("server".to_owned()),
            vec!["--stdio".to_owned()],
            Some("rust".to_owned()),
            Some("ignored".to_owned()),
        ),
        ServerSelection::Program {
            program: "server".to_owned(),
            arguments: vec!["--stdio".to_owned()],
            language_id: "rust".to_owned(),
        }
    );
    assert_eq!(
        choose_server(None, Vec::new(), None, Some("rust-analyzer".to_owned())),
        ServerSelection::Id("rust-analyzer".to_owned())
    );
    assert_eq!(
        choose_server(None, Vec::new(), None, None),
        ServerSelection::Automatic
    );
}

#[test]
fn deadlines_add_up_with_an_allowance() {
    let deadlines = session_deadlines(1_000, 2_000);
    assert_eq!(deadlines.total, 23_000);
    assert_eq!((deadlines.shutdown, deadlines.cleanup), (5_000, 5_000));
    assert_eq!(session_deadlines(u64::MAX, 1).total, u64::MAX);
    assert_eq!(selection_snapshot_limits().files, 1);
}

#[test]
fn missing_configuration_is_tolerated_only_where_it_was_not_named() {
    let missing = ConfigError::Read { not_found: true };
    assert!(tolerate_missing_configuration(&missing, false).is_ok());
    assert!(tolerate_missing_configuration(&missing, true).is_err());
    let unreadable = ConfigError::Read { not_found: false };
    assert!(tolerate_missing_configuration(&unreadable, false).is_err());
}

#[test]
fn session_failures_are_support_errors() {
    let cases = [
        (
            SessionError::Transport(TransportError::DeadlineExceeded),
            SelectionErrorCode::LspTimeout,
        ),
        (
            SessionError::Transport(TransportError::Process(ProcessError::Spawn {
                message: "missing".to_owned(),
            })),
            SelectionErrorCode::LspStartFailed,
        ),
        (
            SessionError::Transport(TransportError::Protocol(JsonRpcError::BatchUnsupported)),
            SelectionErrorCode::LspProtocolError,
        ),
    ];
    for (failure, expected) in cases {
        let report = map_session_error(&failure);
        assert_eq!(report.code(), expected);
        assert_eq!(report.exit_code(), 4);
        assert_eq!(
            outline_session_error(&failure).retryable(),
            report.retryable()
        );
    }
}

#[test]
fn workspace_failures_keep_their_meaning_in_read_only_commands() {
    let failure = FsError::PathNotFound { path: "missing.rs".to_owned() };
    let report = map_filesystem_error(&failure);
    assert_eq!(report.exit_code(), 2);
    assert_eq!(outline_filesystem_error(&failure).exit_code(), 2);
}

#[test]
fn exceeded_conversion_work_maps_to_the_resource_error_registry() {
    let reports = [
        map_symbol_error(&SymbolError::Position(PositionError::WorkLimitExceeded)),
        map_user_position_error(PositionError::WorkLimitExceeded),
    ];
    for report in reports {
        assert_eq!(report.code(), SelectionErrorCode::LspResourceLimitExceeded);
        assert_eq!(report.exit_code(), 4);
        assert_eq!(report.context()[0].0, "limit");
        assert_eq!(report.context()[0].1, Json::Number(JsonNumber::Unsigned(16_777_216)));
    }
    let outline = conversion_error(PositionError::WorkLimitExceeded, "unused");
    assert_eq!(outline.code(), OutlineErrorCode::LspResourceLimitExceeded);
    assert_eq!(
        outline.message(),
        "the read-only outline exceeded a configured resource limit"
    );
    assert_eq!(
        conversion_error(PositionError::InvalidRange, "broken").code(),
        OutlineErrorCode::OutlineInternalError
    );
    assert_eq!(
        map_symbol_error(&SymbolError::Position(PositionError::InvalidRange)).code(),
        SelectionErrorCode::LspProtocolError
    );
    assert_eq!(
        map_user_position_error(PositionError::InvalidUserPosition).code(),
        SelectionErrorCode::InvalidSelectionQuery
    );
}

#[test]
fn exceeded_source_bounds_map_to_the_resource_error_registry() {
    let failures = [
        FsError::ResourceLimitExceeded {
            resource: "line_count".to_owned(),
            actual: 12,
            limit: 11,
        },
        FsError::Core(CoreError::ResourceLimitExceeded {
            resource: "line_count".to_owned(),
            actual: 12,
            limit: 11,
        }),
    ];
    for failure in failures {
        let report = map_filesystem_error(&failure);
        assert_eq!(report.code(), SelectionErrorCode::LspResourceLimitExceeded);
        assert_eq!(report.context()[0].1, Json::Number(JsonNumber::Unsigned(11)));
        assert_eq!(
            outline_filesystem_error(&failure).code(),
            OutlineErrorCode::LspResourceLimitExceeded
        );
    }
}
