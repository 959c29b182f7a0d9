//! The scripted language server.

use serde_json::Value;
use srcmv::fake_args::{parse_process_args, ArgumentStep, ParsedProcessArgs};
use srcmv::fake_json::{same_value, value_at};
use srcmv::fake_lsp::{symbol_result, FakeLspExpectations, FakeLspScenario};
use srcmv::fake_script::expect_exact_response;
use srcmv::fake_wire::{read_message, serve_fake_lsp, write_message, FakeEnding};
use srcmv::json::{Json, JsonNumber};

/// The library's value of a parsed JSON value.
fn converted(value: &Value) -> Json {
    match value {
        Value::Null => Json::Null,
        Value::Bool(flag) => Json::Bool(*flag),
        Value::Number(number) => Json::Number(match (number.as_u64(), number.as_i64()) {
            (Some(unsigned), _) => JsonNumber::Unsigned(unsigned),
            (None, Some(signed)) => JsonNumber::Negative(signed),
            (None, None) => JsonNumber::Real(number.to_string()),
        }),
        Value::String(text) => Json::String(text.clone()),
        Value::Array(items) => Json::Array(items.iter().map(converted).collect()),
        Value::Object(members) => Json::Object(
            members.iter().map(|(name, member)| (name.clone(), converted(member))).collect(),
        ),
    }
}

/// The library's value of a JSON text.
fn json(text: &str) -> Json {
    let value: Value = serde_json::from_str(text).expect("test JSON should parse");
    converted(&value)
}

const DOCUMENT_URI: &str = "file:///fixture/workspace/source.rs";
const DOCUMENT_TEXT: &str =
    "pub struct Outer;\n\nimpl Outer {\n    pub fn alpha() -> u32 {\n        1\n    }\n}\n";

#[test]
fn scenario_names_should_round_trip_through_the_command_line_spelling() {
    for scenario in FakeLspScenario::all() {
        assert_eq!(scenario.as_str().parse(), Ok(scenario));
    }
    assert_eq!(FakeLspScenario::all().len(), 38);
    assert!("unheard-of".parse::<FakeLspScenario>().is_err());
}

#[test]
fn success_should_replay_the_complete_lifecycle() {
    let input = successful_client_input(false);

    let session = serve_fake_lsp(FakeLspScenario::Success, exact_expectations(), &input);

    assert_eq!(session.ending, FakeEnding::Finished);
    let expected = [
        r#"{
            "jsonrpc": "2.0",
            "id": 1,
            "result": {
                "capabilities": {
                    "positionEncoding": "utf-16",
                    "textDocumentSync": {"openClose": true, "change": 1},
                    "documentSymbolProvider": true
                },
                "serverInfo": {"name": "srcmv-fake-lsp", "version": "1"}
            }
        }"#,
        r#"{
            "jsonrpc": "2.0",
            "id": 2,
            "result": [{
                "name": "Outer",
                "detail": "fixture class",
                "kind": 5,
                "range": {
                    "start": {"line": 2, "character": 0},
                    "end": {"line": 6, "character": 1}
                },
                "selectionRange": {
                    "start": {"line": 2, "character": 5},
                    "end": {"line": 2, "character": 10}
                },
                "children": [{
                    "name": "alpha",
                    "detail": "fixture function",
                    "kind": 12,
                    "range": {
                        "start": {"line": 3, "character": 4},
                        "end": {"line": 5, "character": 5}
                    },
                    "selectionRange": {
                        "start": {"line": 3, "character": 11},
                        "end": {"line": 3, "character": 16}
                    }
                }]
            }]
        }"#,
        r#"{"jsonrpc": "2.0", "id": 3, "result": null}"#,
    ];
    let messages = read_all_messages(&session.output);
    assert_eq!(messages.len(), expected.len());
    for (message, expected) in messages.iter().zip(expected) {
        assert!(same_value(message, &json(expected)), "unexpected message: {message:?}");
    }
}

#[test]
fn success_with_configuration_should_require_configuration_before_open() {
    let input = successful_client_input(true);

    let session = serve_fake_lsp(
        FakeLspScenario::SuccessWithConfiguration,
        exact_expectations(),
        &input,
    );

    assert_eq!(session.ending, FakeEnding::Finished);
}

#[test]
fn did_open_should_reject_text_that_differs_from_the_snapshot_expectation() {
    let input = successful_client_input(false);
    let mut expectations = exact_expectations();
    expectations.document_text = Some("different snapshot".to_owned());

    let session = serve_fake_lsp(FakeLspScenario::Success, expectations, &input);

    let FakeEnding::Failed(error) = session.ending else {
        panic!("mismatched snapshot must fail");
    };
    assert_eq!(
        error.message(),
        "didOpen document text did not match its exact expectation"
    );
}

#[test]
fn server_request_response_should_reject_both_result_and_error() {
    let expected = json(r#"{"jsonrpc": "2.0", "id": 7001, "result": [{"enabled": true}]}"#);
    let actual = json(
        r#"{
            "jsonrpc": "2.0",
            "id": 7001,
            "result": [{"enabled": true}],
            "error": {"code": -32603, "message": "invalid"}
        }"#,
    );

    let error = expect_exact_response(&actual, &expected, "workspace/configuration")
        .expect_err("dual response must fail");

    assert_eq!(
        error.message(),
        "response to `workspace/configuration` did not match the frozen expected JSON-RPC envelope"
    );
}

#[test]
fn server_request_response_should_reject_neither_result_nor_error() {
    let expected = json(r#"{"jsonrpc": "2.0", "id": 7001, "result": [{"enabled": true}]}"#);
    let actual = json(r#"{"jsonrpc": "2.0", "id": 7001}"#);

    let error = expect_exact_response(&actual, &expected, "workspace/configuration")
        .expect_err("empty response must fail");

    assert_eq!(
        error.message(),
        "response to `workspace/configuration` did not match the frozen expected JSON-RPC envelope"
    );
}

#[test]
fn workspace_folders_response_should_reject_the_wrong_folder() {
    let expected = json(
        r#"{
            "jsonrpc": "2.0",
            "id": "folders-request",
            "result": [{"uri": "file:///fixture/workspace/", "name": "workspace"}]
        }"#,
    );
    let actual = json(
        r#"{
            "jsonrpc": "2.0",
            "id": "folders-request",
            "result": [{"uri": "file:///wrong/", "name": "wrong"}]
        }"#,
    );

    let result = expect_exact_response(&actual, &expected, "workspace/workspaceFolders");

    assert!(result.is_err(), "wrong workspace folder was accepted");
}

#[test]
fn configuration_response_should_reject_the_wrong_section_value() {
    let expected = json(r#"{"jsonrpc": "2.0", "id": 7001, "result": [{"enabled": true}]}"#);
    let actual = json(r#"{"jsonrpc": "2.0", "id": 7001, "result": [null]}"#);

    let result = expect_exact_response(&actual, &expected, "workspace/configuration");

    assert!(result.is_err(), "wrong configuration value was accepted");
}

#[test]
fn show_message_response_should_reject_a_non_null_result() {
    let expected = json(r#"{"jsonrpc": "2.0", "id": "show-message-request", "result": null}"#);
    let actual = json(
        r#"{
            "jsonrpc": "2.0",
            "id": "show-message-request",
            "result": {"title": "Apply"}
        }"#,
    );

    let result = expect_exact_response(&actual, &expected, "window/showMessageRequest");

    assert!(result.is_err(), "non-null show-message result was accepted");
}

#[test]
fn apply_edit_response_should_reject_an_applied_result() {
    let expected = json(
        r#"{
            "jsonrpc": "2.0",
            "id": 7002,
            "result": {
                "applied": false,
                "failureReason": "srcmv selection is read-only"
            }
        }"#,
    );
    let actual = json(r#"{"jsonrpc": "2.0", "id": 7002, "result": {"applied": true}}"#);

    let result = expect_exact_response(&actual, &expected, "workspace/applyEdit");

    assert!(result.is_err(), "successful apply-edit result was accepted");
}

#[test]
fn unknown_request_response_should_reject_a_non_method_not_found_error() {
    let expected = json(
        r#"{
            "jsonrpc": "2.0",
            "id": "unknown-request",
            "error": {"code": -32601, "message": "Method not found"}
        }"#,
    );
    let actual = json(
        r#"{
            "jsonrpc": "2.0",
            "id": "unknown-request",
            "error": {"code": -32603, "message": "Internal error"}
        }"#,
    );

    let result = expect_exact_response(&actual, &expected, "fixture/unknownRequest");

    assert!(result.is_err(), "non-MethodNotFound error was accepted");
}

#[test]
fn deep_symbols_should_form_a_valid_contained_hierarchy() {
    let symbols = symbol_result(FakeLspScenario::DeepSymbols, DOCUMENT_URI);
    let Json::Array(roots) = &symbols else {
        panic!("symbols must be an array");
    };
    let mut symbol = &roots[0];
    let mut depth = 0;
    let mut all_ranges_are_contained = true;

    loop {
        let range_start = position(symbol, "range", "start");
        let range_end = position(symbol, "range", "end");
        let selection_start = position(symbol, "selectionRange", "start");
        let selection_end = position(symbol, "selectionRange", "end");
        all_ranges_are_contained &= range_start <= selection_start
            && selection_start <= selection_end
            && selection_end <= range_end;
        depth += 1;

        let Some(Json::Array(children)) = symbol.get("children") else {
            break;
        };
        let Some(child) = children.first() else {
            break;
        };
        symbol = child;
    }

    assert_eq!((depth, all_ranges_are_contained), (65, true));
}

fn position(value: &Json, range: &str, end: &str) -> (u64, u64) {
    let position = value_at(value, &vec![range, end])
        .unwrap_or_else(|| panic!("missing position at `{range}/{end}`"));
    (unsigned(position, "line"), unsigned(position, "character"))
}

fn unsigned(value: &Json, name: &str) -> u64 {
    match value.get(name) {
        Some(Json::Number(JsonNumber::Unsigned(number))) => *number,
        other => panic!("`{name}` is not an unsigned number: {other:?}"),
    }
}

fn exact_expectations() -> FakeLspExpectations {
    FakeLspExpectations {
        document_uri: Some(DOCUMENT_URI.to_owned()),
        language_id: Some("fixture-rust".to_owned()),
        document_text: Some(DOCUMENT_TEXT.to_owned()),
    }
}

const INITIALIZE: &str = r#"{
    "jsonrpc": "2.0",
    "id": 1,
    "method": "initialize",
    "params": {
        "rootUri": "file:///fixture/workspace/",
        "workspaceFolders": [{
            "uri": "file:///fixture/workspace/",
            "name": "workspace"
        }],
        "capabilities": {
            "general": {"positionEncodings": ["utf-8", "utf-16", "utf-32"]},
            "textDocument": {"documentSymbol": {
                "dynamicRegistration": false,
                "hierarchicalDocumentSymbolSupport": true
            }},
            "window": {"workDoneProgress": false},
            "workspace": {"applyEdit": false}
        }
    }
}"#;

fn did_open() -> Json {
    let document = Json::Object(vec![
        ("uri".to_owned(), Json::String(DOCUMENT_URI.to_owned())),
        ("languageId".to_owned(), Json::String("fixture-rust".to_owned())),
        ("version".to_owned(), Json::Number(JsonNumber::Unsigned(1))),
        ("text".to_owned(), Json::String(DOCUMENT_TEXT.to_owned())),
    ]);
    let params = Json::Object(vec![("textDocument".to_owned(), document)]);
    Json::Object(vec![
        ("jsonrpc".to_owned(), Json::String("2.0".to_owned())),
        ("method".to_owned(), Json::String("textDocument/didOpen".to_owned())),
        ("params".to_owned(), params),
    ])
}

fn successful_client_input(with_configuration: bool) -> Vec<u8> {
    let mut messages = vec![
        json(INITIALIZE),
        json(r#"{"jsonrpc": "2.0", "method": "initialized", "params": {}}"#),
    ];
    if with_configuration {
        messages.push(json(
            r#"{
                "jsonrpc": "2.0",
                "method": "workspace/didChangeConfiguration",
                "params": {"settings": {"fixture": {"enabled": true}}}
            }"#,
        ));
    }
    messages.push(did_open());
    messages.push(json(&format!(
        r#"{{
            "jsonrpc": "2.0",
            "id": 2,
            "method": "textDocument/documentSymbol",
            "params": {{"textDocument": {{"uri": "{DOCUMENT_URI}"}}}}
        }}"#
    )));
    messages.push(json(&format!(
        r#"{{
            "jsonrpc": "2.0",
            "method": "textDocument/didClose",
            "params": {{"textDocument": {{"uri": "{DOCUMENT_URI}"}}}}
        }}"#
    )));
    messages.push(json(r#"{"jsonrpc": "2.0", "id": 3, "method": "shutdown", "params": null}"#));
    messages.push(json(r#"{"jsonrpc": "2.0", "method": "exit", "params": null}"#));
    framed(&messages)
}

fn framed(messages: &[Json]) -> Vec<u8> {
    let mut input = Vec::new();
    for message in messages {
        input.extend(write_message(message).expect("input frame should serialize"));
    }
    input
}

fn read_all_messages(bytes: &[u8]) -> Vec<Json> {
    let mut rest = bytes;
    let mut messages = Vec::new();
    while let Some((message, count)) = read_message(rest).expect("output frame should parse") {
        messages.push(message);
        rest = &rest[count..];
    }
    messages
}

fn refusal(scenario: FakeLspScenario, input: &[u8]) -> String {
    match serve_fake_lsp(scenario, FakeLspExpectations::default(), input).ending {
        FakeEnding::Failed(error) => error.message().to_owned(),
        ending => panic!("the session should fail, not end with {ending:?}"),
    }
}

#[test]
fn frames_round_trip_and_report_their_length() {
    let message = json(r#"{"jsonrpc":"2.0","method":"exit"}"#);
    let frame = write_message(&message).expect("a small frame");
    assert_eq!(
        frame,
        b"Content-Length: 33\r\n\r\n{\"jsonrpc\":\"2.0\",\"method\":\"exit\"}".to_vec()
    );
    let mut stream = frame.clone();
    stream.extend_from_slice(b"trailing");
    let (read, count) = read_message(&stream)
        .expect("the frame is whole")
        .expect("a frame is there");
    assert_eq!(read, message);
    assert_eq!(count, frame.len());
    assert_eq!(read_message(b""), Ok(None));
    assert!(read_message(b"Content-Length: 9\r\n\r\n{}").is_err());
    assert!(read_message(b"Content-Length: x\r\n\r\n{}").is_err());
    assert!(read_message(b"Content-Length: 1\r\n\r\n{").is_err());
}

#[test]
fn object_members_are_compared_without_order() {
    assert!(same_value(&json(r#"{"a":1,"b":[2]}"#), &json(r#"{"b":[2],"a":1}"#)));
    assert!(!same_value(&json(r#"{"a":1}"#), &json(r#"{"a":1,"b":2}"#)));
    assert!(!same_value(&json("[1,2]"), &json("[2,1]")));
    assert!(!same_value(&json("1"), &json("\"1\"")));
}

#[test]
fn sessions_out_of_order_are_refused() {
    let initialized = json(r#"{"jsonrpc": "2.0", "method": "initialized", "params": {}}"#);
    let refused = refusal(FakeLspScenario::Success, &framed(&[initialized]));
    assert!(refused.contains("initialize"), "unexpected refusal: {refused}");

    let whole = successful_client_input(false);
    let refused = refusal(FakeLspScenario::SuccessWithConfiguration, &whole);
    assert!(
        refused.contains("workspace/didChangeConfiguration"),
        "unexpected refusal: {refused}"
    );
}

#[test]
fn symbols_of_another_document_are_refused() {
    let messages = [
        json(INITIALIZE),
        json(r#"{"jsonrpc": "2.0", "method": "initialized", "params": {}}"#),
        did_open(),
        json(
            r#"{
                "jsonrpc": "2.0",
                "id": 2,
                "method": "textDocument/documentSymbol",
                "params": {"textDocument": {"uri": "file:///fixture/workspace/other.rs"}}
            }"#,
        ),
    ];
    let refused = refusal(FakeLspScenario::Success, &framed(&messages));
    assert!(refused.contains("URI"), "unexpected refusal: {refused}");
}

#[test]
fn hanging_scenarios_stop_without_an_answer() {
    let input = successful_client_input(false);
    let session = serve_fake_lsp(
        "hang-initialize".parse().expect("a scenario"),
        FakeLspExpectations::default(),
        &input,
    );
    assert!(matches!(session.ending, FakeEnding::Hung));
    assert!(session.output.is_empty());
}

fn arguments(values: &[&str]) -> Vec<Option<String>> {
    values.iter().map(|value| Some((*value).to_owned())).collect()
}

fn argument_failure(values: Vec<Option<String>>) -> String {
    match parse_process_args(&values, ParsedProcessArgs::new()) {
        ArgumentStep::Fail(error) => error.message().to_owned(),
        _ => panic!("the arguments should be refused"),
    }
}

#[test]
fn process_arguments_choose_the_scenario_and_expectations() {
    let values = arguments(&[
        "--scenario",
        "success",
        "--expected-document-uri",
        DOCUMENT_URI,
        "--expected-document-text-file",
        "expected.txt",
        "--expected-language-id",
        "rust",
        "--sleep-forever",
    ]);
    let ArgumentStep::ReadText { path, parsed } =
        parse_process_args(&values, ParsedProcessArgs::new())
    else {
        panic!("the expected text is needed first");
    };
    assert_eq!(path, "expected.txt");
    let parsed = parsed
        .with_text(Ok("text".to_owned()))
        .unwrap_or_else(|error| panic!("the text was read: {error:?}"));
    let ArgumentStep::Done(parsed) = parse_process_args(&values, parsed) else {
        panic!("every argument is known");
    };
    assert_eq!(parsed.scenario, FakeLspScenario::Success);
    assert!(parsed.sleep_forever);
    assert_eq!(
        parsed.expectations,
        FakeLspExpectations {
            document_uri: Some(DOCUMENT_URI.to_owned()),
            language_id: Some("rust".to_owned()),
            document_text: Some("text".to_owned()),
        }
    );
}

#[test]
fn wrong_process_arguments_are_named() {
    assert_eq!(
        argument_failure(arguments(&["--scenario"])),
        "missing value for `--scenario`"
    );
    assert_eq!(
        argument_failure(arguments(&["--scenario", "bogus"])),
        "unknown fake LSP scenario `bogus`"
    );
    assert_eq!(
        argument_failure(arguments(&["--bogus"])),
        "unknown fake LSP argument `--bogus`"
    );
    assert_eq!(argument_failure(vec![None]), "fake LSP arguments must be UTF-8");
    assert_eq!(
        argument_failure(vec![Some("--scenario".to_owned()), None]),
        "value for `--scenario` must be UTF-8"
    );
    let failed = ParsedProcessArgs::new().with_text(Err("no such file".to_owned()));
    assert_eq!(
        failed.err().map(|error| error.message().to_owned()),
        Some("failed to read expected document text: no such file".to_owned())
    );
}

#[test]
fn zeros_of_either_sign_are_the_same_number() {
    let response = |number: &str| {
        json(&format!(r#"{{"jsonrpc":"2.0","id":7,"result":[{number}]}}"#))
    };
    assert!(expect_exact_response(&response("-0.0"), &response("0.0"), "m").is_ok());
    assert!(expect_exact_response(&response("-0"), &response("0.0"), "m").is_ok());
    assert!(expect_exact_response(&response("1.5"), &response("1.5"), "m").is_ok());
    assert!(expect_exact_response(&response("0"), &response("0.0"), "m").is_err());
    assert!(expect_exact_response(&response("-1.5"), &response("1.5"), "m").is_err());
}
