//! Wire forms of the selection and outline protocols.

use std::io::Write;

use serde_json::Value;
use srcmv::digest::Sha256Digest;
use srcmv::json::{Json, JsonNumber};
use srcmv::outline::{
    outline_line_text, outline_response_limit_error, outline_serialization_error,
    to_outline_json_line, OutlineErrorCode, OutlineErrorDto, OutlineResponse, OutlineSymbolDto,
};
use srcmv::selection::{
    selection_line_text, selection_response_limit_error, selection_serialization_error,
    to_selection_json_line, SelectionByteSelectorDto, SelectionErrorCode, SelectionErrorDto,
    SelectionExtentDto, SelectionKnownSymbolKindDto, SelectionLspPositionDto, SelectionLspRangeDto,
    SelectionMatchDto, SelectionPositionEncodingDto, SelectionQueryDto, SelectionRequestSourceDto,
    SelectionResponse, SelectionServerDto, SelectionSourceDto, SelectionSymbolKindDto,
};
use srcmv::terminal::{escape_terminal_text, is_unsafe};
use srcmv::wire::{
    finished_line, write_bounded_json_line, BoundedJsonLineFailure, BoundedJsonWriter,
    WarningCode, WarningDto, MAX_RESPONSE_BYTES,
};

/// The library's value of a parsed JSON value.
fn converted(value: &Value) -> Json {
    match value {
        Value::Null => Json::Null,
        Value::Bool(flag) => Json::Bool(*flag),
        Value::Number(number) => Json::Number(match (number.as_u64(), number.as_i64()) {
            (Some(unsigned), _) => JsonNumber::Unsigned(unsigned),
            (None, Some(signed)) => JsonNumber::Negative(signed),
            (None, None) => JsonNumber::Real(number.to_string()),
        }),
        Value::String(text) => Json::String(text.clone()),
        Value::Array(items) => Json::Array(items.iter().map(converted).collect()),
        Value::Object(members) => Json::Object(
            members.iter().map(|(name, member)| (name.clone(), converted(member))).collect(),
        ),
    }
}

/// The library's value of a JSON text.
fn json(text: &str) -> Json {
    let value: Value = serde_json::from_str(text).expect("test JSON should parse");
    converted(&value)
}

/// The member of an object.
fn member<'a>(value: &'a Json, name: &str) -> &'a Json {
    value.get(name).unwrap_or_else(|| panic!("missing member `{name}`"))
}

/// The context member of a report.
fn context<'a>(members: &'a [(String, Json)], name: &str) -> &'a Json {
    members
        .iter()
        .find(|(key, _)| key == name)
        .map(|(_, value)| value)
        .unwrap_or_else(|| panic!("missing context `{name}`"))
}

fn number(value: u64) -> Json {
    Json::Number(JsonNumber::Unsigned(value))
}

fn text(value: &str) -> Json {
    Json::String(value.to_owned())
}

fn serialized_len(value: &Json) -> usize {
    write_bounded_json_line(value, u64::MAX).expect("value should serialize").len() - 1
}

fn sample_symbol() -> OutlineSymbolDto {
    OutlineSymbolDto::new(
        "Outer",
        SelectionSymbolKindDto::Known(SelectionKnownSymbolKindDto::Class),
        vec!["Outer".to_owned()],
        0,
        Some("fixture class".to_owned()),
        3,
        Some(1),
        7,
        Some(2),
        SelectionLspRangeDto::new(
            SelectionLspPositionDto::new(2, 0),
            SelectionLspPositionDto::new(6, 1),
        ),
        SelectionLspRangeDto::new(
            SelectionLspPositionDto::new(2, 5),
            SelectionLspPositionDto::new(2, 10),
        ),
        SelectionByteSelectorDto::new(19, 77),
    )
}

fn sample_server() -> SelectionServerDto {
    SelectionServerDto::new(
        None,
        Some("srcmv-fake-lsp".to_owned()),
        Some("1".to_owned()),
        SelectionPositionEncodingDto::Utf16,
    )
}

fn sample_response() -> Json {
    OutlineResponse::new(
        Sha256Digest([0xee; 32]),
        SelectionSourceDto::new("source.rs", Sha256Digest([0xfc; 32]), 78),
        sample_server(),
        vec![sample_symbol()],
        Vec::new(),
    )
    .to_json()
}

#[test]
fn outline_response_serializes_the_frozen_wire_shape() {
    let value = sample_response();

    assert_eq!(member(&value, "outline_protocol_version"), &number(1));
    assert_eq!(
        member(&value, "workspace_identity_hash"),
        &text("sha256:eeeeeeeeeeeeeeeeeeeeeeeeeeeeeeeeeeeeeeeeeeeeeeeeeeeeeeeeeeeeeeee")
    );
    assert_eq!(
        member(&value, "source"),
        &json(
            r#"{
                "path": "source.rs",
                "sha256": "sha256:fcfcfcfcfcfcfcfcfcfcfcfcfcfcfcfcfcfcfcfcfcfcfcfcfcfcfcfcfcfcfcfc",
                "byte_length": 78
            }"#
        )
    );
    assert_eq!(
        member(&value, "server"),
        &json(
            r#"{
                "configuration_id": null,
                "reported_name": "srcmv-fake-lsp",
                "reported_version": "1",
                "position_encoding": "utf-16"
            }"#
        )
    );
    assert_eq!(member(&value, "warnings"), &Json::Array(Vec::new()));
    let Json::Array(symbols) = member(&value, "symbols") else {
        panic!("symbols must be an array");
    };
    assert_eq!(symbols.len(), 1);

    let symbol = &symbols[0];
    let Json::Object(members) = symbol else {
        panic!("symbol must be an object");
    };
    let mut expected_keys = [
        "name",
        "symbol_kind",
        "symbol_path",
        "depth",
        "detail",
        "start_line",
        "start_column",
        "end_line",
        "end_column",
        "lsp_range",
        "lsp_selection_range",
        "selector",
    ];
    expected_keys.sort_unstable();
    let mut observed_keys = members.iter().map(|(key, _)| key.as_str()).collect::<Vec<_>>();
    observed_keys.sort_unstable();
    assert_eq!(observed_keys, expected_keys);
    assert_eq!(member(symbol, "name"), &text("Outer"));
    assert_eq!(member(symbol, "symbol_kind"), &text("class"));
    assert_eq!(member(symbol, "symbol_path"), &json(r#"["Outer"]"#));
    assert_eq!(member(symbol, "depth"), &number(0));
    assert_eq!(member(symbol, "detail"), &text("fixture class"));
    assert_eq!(member(symbol, "start_line"), &number(3));
    assert_eq!(member(symbol, "start_column"), &number(1));
    assert_eq!(member(symbol, "end_line"), &number(7));
    assert_eq!(member(symbol, "end_column"), &number(2));
    assert_eq!(
        member(symbol, "lsp_range"),
        &json(r#"{"start": {"line": 2, "character": 0}, "end": {"line": 6, "character": 1}}"#)
    );
    assert_eq!(
        member(symbol, "lsp_selection_range"),
        &json(r#"{"start": {"line": 2, "character": 5}, "end": {"line": 2, "character": 10}}"#)
    );
    assert_eq!(
        member(symbol, "selector"),
        &json(r#"{"kind": "bytes", "start": 19, "end": 77}"#)
    );
}

#[test]
fn to_outline_json_line_emits_exactly_one_trailing_lf() {
    let line = to_outline_json_line(&sample_response()).expect("small response should fit");

    assert!(line.ends_with('\n'));
    assert!(!line[..line.len() - 1].contains('\n'));
    let parsed = json(line.trim_end());
    assert_eq!(member(&parsed, "outline_protocol_version"), &number(1));
    assert_eq!(parsed, sample_response());
}

#[test]
fn bounded_serialization_accepts_below_and_at_the_exact_limit() {
    let value = sample_response();
    let exact_bytes = serialized_len(&value) + 1;

    let below = write_bounded_json_line(&value, (exact_bytes + 1) as u64)
        .expect("below-limit response should serialize");
    assert_eq!(below.len(), exact_bytes);

    let at = write_bounded_json_line(&value, exact_bytes as u64)
        .expect("at-limit response should serialize");
    assert_eq!(at.len(), exact_bytes);
}

#[test]
fn bounded_serialization_rejects_above_the_exact_limit_without_partial_output() {
    let value = sample_response();
    let exact_bytes = (serialized_len(&value) + 1) as u64;

    let error =
        write_bounded_json_line(&value, exact_bytes - 1).expect_err("above-limit must fail");

    let BoundedJsonLineFailure::ResponseLimit(actual) = error else {
        panic!("an oversized value must report the response limit");
    };
    assert!(actual > exact_bytes - 1);
}

#[test]
fn to_outline_json_line_maps_oversized_responses_to_the_resource_registry() {
    let value = sample_response();
    let exact_bytes = serialized_len(&value) + 1;
    // Exercise the shared writer with a shrunken bound so the same small
    // fixture exceeds it without mutating the frozen constant.
    let failure = write_bounded_json_line(&value, (exact_bytes - 1) as u64)
        .expect_err("oversized response must fail");
    let BoundedJsonLineFailure::ResponseLimit(actual) = failure else {
        panic!("expected a response-limit failure");
    };

    let report = outline_response_limit_error(actual).into_report();
    assert_eq!(report.code(), OutlineErrorCode::LspResourceLimitExceeded);
    assert_eq!(report.exit_code(), 4);
    assert!(!report.retryable());
    assert_eq!(
        context(report.context(), "resource"),
        &text("serialized_json_response")
    );
    assert_eq!(context(report.context(), "limit"), &number(MAX_RESPONSE_BYTES));
}

#[test]
fn every_outline_error_code_has_a_frozen_category_exit_and_retry_flag() {
    let expected = [
        (
            OutlineErrorCode::InvalidOutlineQuery,
            "request",
            2_u8,
            false,
        ),
        (
            OutlineErrorCode::LspServerNotConfigured,
            "support",
            4,
            false,
        ),
        (
            OutlineErrorCode::UnsupportedTextEncoding,
            "support",
            4,
            false,
        ),
        (
            OutlineErrorCode::LspCapabilityUnavailable,
            "support",
            4,
            false,
        ),
        (
            OutlineErrorCode::LspFlatSymbolsUnsupported,
            "support",
            4,
            false,
        ),
        (
            OutlineErrorCode::LspDocumentSyncUnavailable,
            "support",
            4,
            false,
        ),
        (
            OutlineErrorCode::LspResourceLimitExceeded,
            "support",
            4,
            false,
        ),
        (OutlineErrorCode::LspTimeout, "support", 4, true),
        (OutlineErrorCode::LspStartFailed, "support", 4, true),
        (OutlineErrorCode::LspExited, "support", 4, true),
        (OutlineErrorCode::LspProtocolError, "support", 4, false),
        (OutlineErrorCode::LspRequestFailed, "support", 4, true),
        (OutlineErrorCode::OutlineInternalError, "internal", 8, false),
    ];
    assert_eq!(OutlineErrorCode::all().len(), expected.len());

    for (code, category, exit, retryable) in expected {
        assert_eq!(code.category().as_str(), category, "{}", code.as_str());
        assert_eq!(code.category().exit_code(), exit, "{}", code.as_str());
        assert_eq!(code.retryable(), retryable, "{}", code.as_str());
        let report = OutlineErrorDto::new(code, "fixture message", Vec::new());
        assert_eq!(report.code(), code);
        assert_eq!(report.exit_code(), exit);
        assert_eq!(report.retryable(), retryable);
        assert_eq!(
            member(&report.to_json(), "outline_protocol_version"),
            &number(1)
        );
    }
}

#[test]
fn outline_error_spellings_are_unique_and_stable() {
    let mut spellings = OutlineErrorCode::all()
        .iter()
        .map(|code| code.as_str())
        .collect::<Vec<_>>();
    spellings.sort_unstable();
    let unique_count = spellings.len();
    spellings.dedup();
    assert_eq!(spellings.len(), unique_count);

    for spelling in [
        "INVALID_OUTLINE_QUERY",
        "OUTLINE_INTERNAL_ERROR",
        "LSP_SERVER_NOT_CONFIGURED",
        "UNSUPPORTED_TEXT_ENCODING",
        "LSP_CAPABILITY_UNAVAILABLE",
        "LSP_FLAT_SYMBOLS_UNSUPPORTED",
        "LSP_DOCUMENT_SYNC_UNAVAILABLE",
        "LSP_RESOURCE_LIMIT_EXCEEDED",
        "LSP_TIMEOUT",
        "LSP_START_FAILED",
        "LSP_EXITED",
        "LSP_PROTOCOL_ERROR",
        "LSP_REQUEST_FAILED",
    ] {
        assert!(
            OutlineErrorCode::all()
                .iter()
                .any(|code| code.as_str() == spelling),
            "{spelling} must stay registered"
        );
    }
}

#[test]
fn outline_protocol_error_displays_code_and_message() {
    let error = outline_serialization_error();

    assert_eq!(
        error.message(),
        "OUTLINE_INTERNAL_ERROR: failed to serialize the outline response"
    );
    assert_eq!(
        error.report().code(),
        OutlineErrorCode::OutlineInternalError
    );
}

fn sample_match() -> SelectionMatchDto {
    SelectionMatchDto::new(
        "alpha",
        SelectionSymbolKindDto::Known(SelectionKnownSymbolKindDto::Function),
        vec!["Outer".to_owned(), "alpha".to_owned()],
        None,
        SelectionLspRangeDto::new(
            SelectionLspPositionDto::new(3, 4),
            SelectionLspPositionDto::new(5, 5),
        ),
        SelectionLspRangeDto::new(
            SelectionLspPositionDto::new(3, 11),
            SelectionLspPositionDto::new(3, 16),
        ),
        SelectionExtentDto::DeclarationLines,
        SelectionByteSelectorDto::new(32, 76),
        Sha256Digest([0xab; 32]),
        "source.rs",
        Sha256Digest([0xfc; 32]),
    )
}

#[test]
fn selection_responses_serialize_every_member_in_order() {
    let response = SelectionResponse::new(
        Sha256Digest([0x01; 32]),
        SelectionSourceDto::new("source.rs", Sha256Digest([0xfc; 32]), 78),
        SelectionQueryDto::name("alpha", Some(SelectionKnownSymbolKindDto::Function)),
        sample_server(),
        vec![sample_match()],
        vec![WarningDto::new(WarningCode::ObservationMayBeStale, "unlocked", Vec::new())],
    );
    let value = response.to_json();
    let Json::Object(members) = &value else {
        panic!("a response must be an object");
    };
    assert_eq!(
        members.iter().map(|(key, _)| key.as_str()).collect::<Vec<_>>(),
        [
            "selection_protocol_version",
            "workspace_identity_hash",
            "source",
            "query",
            "server",
            "matches",
            "warnings",
        ]
    );
    assert_eq!(member(&value, "selection_protocol_version"), &number(1));
    assert_eq!(
        member(&value, "query"),
        &json(r#"{"kind": "name", "name": "alpha", "symbol_kind": "function"}"#)
    );
    assert_eq!(
        SelectionQueryDto::position(9, None).to_json(),
        json(r#"{"kind": "position", "byte_offset": 9, "symbol_kind": null}"#)
    );
    assert_eq!(
        member(&sample_match().to_json(), "request_source"),
        &SelectionRequestSourceDto::new(
            "source.rs",
            SelectionByteSelectorDto::new(32, 76),
            Sha256Digest([0xfc; 32]),
        )
        .to_json()
    );
    let line = to_selection_json_line(&value).expect("small response should fit");
    assert!(line.ends_with('\n'));
    assert_eq!(json(line.trim_end()), value);
    assert_eq!(sample_match().selected_byte_length(), 44);
}

#[test]
fn every_selection_error_code_keeps_its_category_exit_and_retry_flag() {
    let codes = SelectionErrorCode::all();
    assert_eq!(codes.len(), 15);
    let mut spellings = codes.iter().map(|code| code.as_str()).collect::<Vec<_>>();
    spellings.sort_unstable();
    spellings.dedup();
    assert_eq!(spellings.len(), codes.len());
    for code in codes {
        let report = SelectionErrorDto::new(code, "fixture message", Vec::new());
        let expected = match code.category().as_str() {
            "request" => 2,
            "conflict" => 3,
            "support" => 4,
            "internal" => 8,
            other => panic!("unexpected category `{other}`"),
        };
        assert_eq!(report.exit_code(), expected, "{}", code.as_str());
        assert_eq!(
            report.retryable(),
            matches!(
                code,
                SelectionErrorCode::LspTimeout
                    | SelectionErrorCode::LspStartFailed
                    | SelectionErrorCode::LspExited
                    | SelectionErrorCode::LspRequestFailed
            ),
            "{}",
            code.as_str()
        );
        let value = report.to_json();
        assert_eq!(member(&value, "selection_protocol_version"), &number(1));
    }
}

#[test]
fn selection_protocol_errors_name_their_code() {
    assert_eq!(
        selection_serialization_error().message(),
        "SELECTION_INTERNAL_ERROR: failed to serialize the semantic-selection response"
    );
    let report = selection_response_limit_error(MAX_RESPONSE_BYTES + 5).into_report();
    assert_eq!(report.code(), SelectionErrorCode::LspResourceLimitExceeded);
    assert_eq!(
        context(report.context(), "actual"),
        &number(MAX_RESPONSE_BYTES + 5)
    );
}

#[test]
fn wire_kinds_are_spelled_once_each() {
    let mut spellings = SelectionKnownSymbolKindDto::all()
        .iter()
        .map(|kind| kind.as_str())
        .collect::<Vec<_>>();
    assert_eq!(spellings.len(), 26);
    spellings.sort_unstable();
    spellings.dedup();
    assert_eq!(spellings.len(), 26);
    assert_eq!(SelectionSymbolKindDto::Unknown.as_str(), "unknown");
}

#[test]
fn failed_serialization_is_reported_apart_from_size() {
    assert_eq!(
        finished_line(BoundedJsonWriter::new(100), false),
        Err(BoundedJsonLineFailure::Serialization)
    );
    let mut output = BoundedJsonWriter::new(2);
    assert_eq!(output.write(b"{}").expect("two bytes fit"), 2);
    assert_eq!(finished_line(output, true), Ok(b"{}\n".to_vec()));
    let mut output = BoundedJsonWriter::new(1);
    assert!(output.write(b"{}").is_err());
    assert_eq!(
        finished_line(output, false),
        Err(BoundedJsonLineFailure::ResponseLimit(3))
    );
    assert!(selection_line_text(Ok(vec![0xff, b'\n'])).is_err());
    assert_eq!(
        outline_line_text(Ok(b"{}\n".to_vec())).expect("a line is UTF-8"),
        "{}\n"
    );
}

#[test]
fn bounded_writers_keep_what_fits() {
    let mut writer = BoundedJsonWriter::new(4);
    assert_eq!(writer.write(b"abc").expect("three bytes fit"), 3);
    assert!(writer.write(b"de").is_err());
    assert_eq!(writer.bytes, b"abc");
    assert_eq!((writer.exceeded, writer.attempted_bytes), (true, 6));
    assert_eq!(writer.write(b"d").expect("one more byte fits"), 1);
    assert!(writer.flush().is_ok());
    assert_eq!(writer.bytes, b"abcd");
}

#[test]
fn refused_lines_report_the_size_at_the_refused_piece() {
    let value = json(r#"{"name":"a long value","rest":[1,2,3]}"#);
    assert_eq!(
        write_bounded_json_line(&value, 39),
        Ok(b"{\"name\":\"a long value\",\"rest\":[1,2,3]}\n".to_vec())
    );
    for (limit, attempted) in [(0, 2), (1, 2), (3, 7), (10, 22), (38, 39)] {
        assert_eq!(
            write_bounded_json_line(&value, limit),
            Err(BoundedJsonLineFailure::ResponseLimit(attempted))
        );
    }
}

#[test]
fn digests_are_spelled_in_lower_case_hexadecimal() {
    let mut bytes = [0u8; 32];
    bytes[0] = 0x0f;
    bytes[31] = 0xa0;
    assert_eq!(
        Sha256Digest(bytes).to_prefixed_hex(),
        "sha256:0f000000000000000000000000000000000000000000000000000000000000a0"
    );
}

#[test]
fn shown_text_escapes_controls_and_directional_marks() {
    assert_eq!(escape_terminal_text("plain text, \u{e9}"), "plain text, \u{e9}");
    assert_eq!(escape_terminal_text("a\u{1b}[0m\u{202e}\n"), "a\\u{1b}[0m\\u{202e}\\u{a}");
    assert!(is_unsafe('\u{7f}'));
    assert!(!is_unsafe(' '));
    let twice = escape_terminal_text(&escape_terminal_text("\u{7}"));
    assert_eq!(twice, "\\u{7}");
}

#[test]
fn no_line_fits_an_empty_limit() {
    for limit in [0, 1] {
        for value in [Json::Null, Json::String(String::new()), Json::Array(Vec::new())] {
            let failure = write_bounded_json_line(&value, limit).expect_err("nothing may fit");
            assert!(
                matches!(failure, BoundedJsonLineFailure::ResponseLimit(actual) if actual > limit)
            );
        }
    }
    let line = write_bounded_json_line(&Json::Number(JsonNumber::Unsigned(0)), 2);
    assert_eq!(line, Ok(b"0\n".to_vec()));
}
