//! The session of the scripted language server, message by message.

use vstd::prelude::*;
use vstd::string::StringExecFns;

use crate::fake_json;
use crate::fake_json::{error_around, same_value, string_at, value_at, FakeLspError};
use crate::fake_lsp;
use crate::fake_lsp::{initialize_result, symbol_result, FakeLspExpectations, FakeLspScenario};
use crate::json;
use crate::json::{
    json_array, json_number, json_object, json_text, named, Json, JsonNumber, JsonNumberView,
    JsonView,
};
use crate::order;
use crate::text;
use crate::text::{push_decimal, text_equal};

verus! {

/// The JSON-RPC code for a method that does not exist.
pub const METHOD_NOT_FOUND: i64 = -32601;

/// The JSON-RPC code for an internal error.
pub const INTERNAL_ERROR: i64 = -32603;

/// Whether a check passed, or failed as expected.
pub open spec fn complains_as(
    outcome: Result<(), FakeLspError>,
    expected: Option<Seq<char>>,
) -> bool {
    match outcome {
        Ok(()) => expected is None,
        Err(error) => expected == Some(error@),
    }
}

/// The complaint about a message that is not of this method.
pub open spec fn method_complaint(message: JsonView, method: Seq<char>) -> Option<Seq<char>> {
    if json::json_member(message, "jsonrpc"@) != Some(JsonView::String("2.0"@)) {
        Some("message must declare JSON-RPC 2.0"@)
    } else {
        match json::json_member(message, "method"@) {
            Some(JsonView::String(received)) => if received == method {
                None
            } else {
                Some("expected `"@ + method + "`, received `"@ + received + "`"@)
            },
            _ => Some("expected `"@ + method + "` message"@),
        }
    }
}

/// Checks that a message is of this method.
fn expect_method(message: &Json, expected_method: &str) -> (outcome: Result<(), FakeLspError>)
    ensures
        complains_as(outcome, method_complaint(message@, expected_method@)),
{
    let declared = match message.get("jsonrpc") {
        Some(Json::String(version)) => text_equal(version.as_str(), "2.0"),
        _ => false,
    };
    if !declared {
        return Err(FakeLspError::new("message must declare JSON-RPC 2.0"));
    }
    match message.get("method") {
        Some(Json::String(received)) => {
            if text_equal(received.as_str(), expected_method) {
                Ok(())
            } else {
                let mut text = "expected `".to_owned();
                text.append(expected_method);
                text.append("`, received `");
                text.append(received.as_str());
                text.append("`");
                Err(FakeLspError { message: text })
            }
        },
        _ => Err(error_around("expected `", expected_method, "` message")),
    }
}

/// Whether a value can identify a request: an integer or a text.
pub open spec fn is_request_id(id: JsonView) -> bool {
    match id {
        JsonView::Number(JsonNumberView::Unsigned(_)) => true,
        JsonView::Number(JsonNumberView::Negative(_)) => true,
        JsonView::String(_) => true,
        _ => false,
    }
}

/// The identifier of a request of this method, or the complaint about it.
pub open spec fn request_id(message: JsonView, method: Seq<char>) -> Result<JsonView, Seq<char>> {
    match method_complaint(message, method) {
        Some(complaint) => Err(complaint),
        None => match json::json_member(message, "id"@) {
            Some(id) if is_request_id(id) => Ok(id),
            _ => Err("request `"@ + method + "` must have an integer or string ID"@),
        },
    }
}

/// Returns the identifier of a request of this method.
pub fn expect_request(message: &Json, expected_method: &str) -> (id: Result<Json, FakeLspError>)
    ensures
        ({
            let expected = request_id(message@, expected_method@);
            match id {
                Ok(id) => expected == Ok::<JsonView, Seq<char>>(id@),
                Err(error) => expected == Err::<JsonView, Seq<char>>(error@),
            }
        }),
{
    if let Err(error) = expect_method(message, expected_method) {
        return Err(error);
    }
    let acceptable = match message.get("id") {
        Some(Json::Number(JsonNumber::Unsigned(_))) => true,
        Some(Json::Number(JsonNumber::Negative(_))) => true,
        Some(Json::String(_)) => true,
        _ => false,
    };
    match message.get("id") {
        Some(id) => {
            if acceptable {
                return Ok(id.clone());
            }
        },
        None => {},
    }
    Err(error_around("request `", expected_method, "` must have an integer or string ID"))
}

/// The complaint about a notification of this method.
pub open spec fn notification_complaint(message: JsonView, method: Seq<char>) -> Option<Seq<char>> {
    match method_complaint(message, method) {
        Some(complaint) => Some(complaint),
        None => if json::json_member(message, "id"@) is Some {
            Some("notification `"@ + method + "` must not contain an ID"@)
        } else {
            None
        },
    }
}

/// Checks that a message is a notification of this method.
pub fn expect_notification(message: &Json, expected_method: &str) -> (outcome: Result<
    (),
    FakeLspError,
>)
    ensures
        complains_as(outcome, notification_complaint(message@, expected_method@)),
{
    if let Err(error) = expect_method(message, expected_method) {
        return Err(error);
    }
    match message.get("id") {
        Some(_) => Err(
            error_around("notification `", expected_method, "` must not contain an ID"),
        ),
        None => Ok(()),
    }
}

/// The complaint about a response that differs from the expected one.
pub open spec fn response_complaint(
    message: JsonView,
    expected: JsonView,
    method: Seq<char>,
) -> Option<Seq<char>> {
    if fake_json::same_json(message, expected) {
        None
    } else {
        Some(
            "response to `"@ + method
                + "` did not match the frozen expected JSON-RPC envelope"@,
        )
    }
}

/// Checks that a response is exactly the expected one.
pub fn expect_exact_response(message: &Json, expected: &Json, method: &str) -> (outcome: Result<
    (),
    FakeLspError,
>)
    ensures
        complains_as(outcome, response_complaint(message@, expected@, method@)),
{
    if same_value(message, expected) {
        Ok(())
    } else {
        Err(
            error_around(
                "response to `",
                method,
                "` did not match the frozen expected JSON-RPC envelope",
            ),
        )
    }
}

/// The position encodings that a client must offer, in this order.
pub open spec fn offered_encodings() -> JsonView {
    JsonView::Array(
        seq![
            JsonView::String("utf-8"@),
            JsonView::String("utf-16"@),
            JsonView::String("utf-32"@),
        ],
    )
}

/// Whether the value at a path is this boolean.
pub open spec fn has_flag(message: JsonView, path: Seq<Seq<char>>, flag: bool) -> bool {
    fake_json::pointed(message, path) == Some(JsonView::Bool(flag))
}

/// The complaint about an `initialize` request.
pub open spec fn initialize_complaint(message: JsonView) -> Option<Seq<char>> {
    let root = fake_json::text_at(message, seq!["params"@, "rootUri"@]);
    let folder = fake_json::text_at(
        message,
        seq!["params"@, "workspaceFolders"@, "0"@, "uri"@],
    );
    let folders = fake_json::pointed(message, seq!["params"@, "workspaceFolders"@]);
    let encodings = fake_json::pointed(
        message,
        seq!["params"@, "capabilities"@, "general"@, "positionEncodings"@],
    );
    if root is Err {
        Some(root->Err_0)
    } else if folder is Err {
        Some(folder->Err_0)
    } else if root->Ok_0 != folder->Ok_0 {
        Some("initialize rootUri must match the single workspace folder URI"@)
    } else if !(folders matches Some(JsonView::Array(_))) {
        Some("initialize must contain workspaceFolders"@)
    } else if (folders->Some_0)->Array_0.len() != 1 {
        Some("initialize must contain exactly one workspace folder"@)
    } else if !(encodings is Some && fake_json::same_json(
        encodings->Some_0,
        offered_encodings(),
    )) {
        Some("initialize must advertise utf-8, utf-16, and utf-32 in preference order"@)
    } else if !has_flag(
        message,
        seq![
            "params"@,
            "capabilities"@,
            "textDocument"@,
            "documentSymbol"@,
            "hierarchicalDocumentSymbolSupport"@,
        ],
        true,
    ) {
        Some("initialize must advertise hierarchical document symbols"@)
    } else if !has_flag(
        message,
        seq![
            "params"@,
            "capabilities"@,
            "textDocument"@,
            "documentSymbol"@,
            "dynamicRegistration"@,
        ],
        false,
    ) {
        Some("initialize must disable document-symbol dynamic registration"@)
    } else if !has_flag(
        message,
        seq!["params"@, "capabilities"@, "window"@, "workDoneProgress"@],
        false,
    ) {
        Some("initialize must disable work-done progress"@)
    } else if !has_flag(
        message,
        seq!["params"@, "capabilities"@, "workspace"@, "applyEdit"@],
        false,
    ) {
        Some("initialize must disable workspace applyEdit"@)
    } else {
        None
    }
}

/// Returns whether the value at a path is this boolean.
fn flag_at(message: &Json, path: &Vec<&str>, flag: bool) -> (found: bool)
    ensures
        found == has_flag(message@, fake_json::steps_view(path@), flag),
{
    match value_at(message, path) {
        Some(Json::Bool(value)) => *value == flag,
        _ => false,
    }
}

/// Returns the position encodings that a client must offer.
fn expected_encodings() -> (value: Json)
    ensures
        value@ == offered_encodings(),
{
    let items = vec![json_text("utf-8"), json_text("utf-16"), json_text("utf-32")];
    assert(json::items_view(items@) =~= offered_encodings()->Array_0);
    json_array(items)
}

/// Checks an `initialize` request.
pub fn validate_initialize(message: &Json) -> (outcome: Result<(), FakeLspError>)
    ensures
        complains_as(outcome, initialize_complaint(message@)),
{
    let root_path = vec!["params", "rootUri"];
    assert(fake_json::steps_view(root_path@) =~= seq!["params"@, "rootUri"@]);
    let root = match string_at(message, &root_path) {
        Ok(root) => root,
        Err(error) => return Err(error),
    };
    let folder_path = vec!["params", "workspaceFolders", "0", "uri"];
    assert(fake_json::steps_view(folder_path@) =~= seq![
        "params"@,
        "workspaceFolders"@,
        "0"@,
        "uri"@,
    ]);
    let folder = match string_at(message, &folder_path) {
        Ok(folder) => folder,
        Err(error) => return Err(error),
    };
    if !text_equal(root.as_str(), folder.as_str()) {
        return Err(
            FakeLspError::new("initialize rootUri must match the single workspace folder URI"),
        );
    }
    let folders_path = vec!["params", "workspaceFolders"];
    assert(fake_json::steps_view(folders_path@) =~= seq!["params"@, "workspaceFolders"@]);
    match value_at(message, &folders_path) {
        Some(Json::Array(folders)) => {
            proof {
                json::lemma_array_view(*folders);
            }
            if folders.len() != 1 {
                return Err(
                    FakeLspError::new("initialize must contain exactly one workspace folder"),
                );
            }
        },
        _ => return Err(FakeLspError::new("initialize must contain workspaceFolders")),
    }
    let encodings_path = vec!["params", "capabilities", "general", "positionEncodings"];
    assert(fake_json::steps_view(encodings_path@) =~= seq![
        "params"@,
        "capabilities"@,
        "general"@,
        "positionEncodings"@,
    ]);
    let offered = match value_at(message, &encodings_path) {
        Some(encodings) => same_value(encodings, &expected_encodings()),
        None => false,
    };
    if !offered {
        return Err(
            FakeLspError::new(
                "initialize must advertise utf-8, utf-16, and utf-32 in preference order",
            ),
        );
    }
    let hierarchy_path = vec![
        "params",
        "capabilities",
        "textDocument",
        "documentSymbol",
        "hierarchicalDocumentSymbolSupport",
    ];
    assert(fake_json::steps_view(hierarchy_path@) =~= seq![
        "params"@,
        "capabilities"@,
        "textDocument"@,
        "documentSymbol"@,
        "hierarchicalDocumentSymbolSupport"@,
    ]);
    if !flag_at(message, &hierarchy_path, true) {
        return Err(FakeLspError::new("initialize must advertise hierarchical document symbols"));
    }
    let registration_path = vec![
        "params",
        "capabilities",
        "textDocument",
        "documentSymbol",
        "dynamicRegistration",
    ];
    assert(fake_json::steps_view(registration_path@) =~= seq![
        "params"@,
        "capabilities"@,
        "textDocument"@,
        "documentSymbol"@,
        "dynamicRegistration"@,
    ]);
    if !flag_at(message, &registration_path, false) {
        return Err(
            FakeLspError::new("initialize must disable document-symbol dynamic registration"),
        );
    }
    let progress_path = vec!["params", "capabilities", "window", "workDoneProgress"];
    assert(fake_json::steps_view(progress_path@) =~= seq![
        "params"@,
        "capabilities"@,
        "window"@,
        "workDoneProgress"@,
    ]);
    if !flag_at(message, &progress_path, false) {
        return Err(FakeLspError::new("initialize must disable work-done progress"));
    }
    let edit_path = vec!["params", "capabilities", "workspace", "applyEdit"];
    assert(fake_json::steps_view(edit_path@) =~= seq![
        "params"@,
        "capabilities"@,
        "workspace"@,
        "applyEdit"@,
    ]);
    if !flag_at(message, &edit_path, false) {
        return Err(FakeLspError::new("initialize must disable workspace applyEdit"));
    }
    Ok(())
}

/// Whether a value is an integer that fits a signed 64-bit word.
pub open spec fn is_signed(value: Option<JsonView>) -> bool {
    match value {
        Some(JsonView::Number(JsonNumberView::Unsigned(number))) => number <= i64::MAX,
        Some(JsonView::Number(JsonNumberView::Negative(_))) => true,
        _ => false,
    }
}

/// The complaint about a text that must be there, and be as expected.
pub open spec fn text_complaint(
    message: JsonView,
    path: Seq<Seq<char>>,
    expected: Option<Seq<char>>,
    field: Seq<char>,
) -> Option<Seq<char>> {
    match fake_json::text_at(message, path) {
        Err(complaint) => Some(complaint),
        Ok(actual) => match expected {
            Some(expected) if actual != expected => Some(
                field + " did not match its exact expectation"@,
            ),
            _ => None,
        },
    }
}

/// The steps to a member of the document of a message.
pub open spec fn document_path(member: Seq<char>) -> Seq<Seq<char>> {
    seq!["params"@, "textDocument"@, member]
}

/// The complaint about a `didOpen` notification.
pub open spec fn open_complaint(message: JsonView, expectations: FakeLspExpectations) -> Option<
    Seq<char>,
> {
    let uri = text_complaint(
        message,
        document_path("uri"@),
        order::optional_text(expectations.document_uri),
        "didOpen document URI"@,
    );
    let language = text_complaint(
        message,
        document_path("languageId"@),
        order::optional_text(expectations.language_id),
        "didOpen language ID"@,
    );
    let content = text_complaint(
        message,
        document_path("text"@),
        order::optional_text(expectations.document_text),
        "didOpen document text"@,
    );
    if !is_signed(fake_json::pointed(message, document_path("version"@))) {
        Some("didOpen textDocument.version must be an integer"@)
    } else if uri is Some {
        uri
    } else if language is Some {
        language
    } else {
        content
    }
}

/// Returns the steps to a member of the document of a message.
fn document_steps<'a>(member: &'a str) -> (path: Vec<&'a str>)
    ensures
        fake_json::steps_view(path@) == document_path(member@),
{
    let path = vec!["params", "textDocument", member];
    assert(fake_json::steps_view(path@) =~= document_path(member@));
    path
}

/// Checks a text that must be there, and be as expected.
fn validate_optional_string(
    message: &Json,
    member: &str,
    expected: &Option<String>,
    field_name: &str,
) -> (outcome: Result<(), FakeLspError>)
    ensures
        complains_as(
            outcome,
            text_complaint(
                message@,
                document_path(member@),
                order::optional_text(*expected),
                field_name@,
            ),
        ),
{
    let path = document_steps(member);
    let actual = match string_at(message, &path) {
        Ok(actual) => actual,
        Err(error) => return Err(error),
    };
    match expected {
        Some(expected) => {
            if text_equal(actual.as_str(), expected.as_str()) {
                Ok(())
            } else {
                let mut text = field_name.to_owned();
                text.append(" did not match its exact expectation");
                Err(FakeLspError { message: text })
            }
        },
        None => Ok(()),
    }
}

/// Checks a `didOpen` notification.
pub fn validate_did_open(message: &Json, expectations: &FakeLspExpectations) -> (outcome: Result<
    (),
    FakeLspError,
>)
    ensures
        complains_as(outcome, open_complaint(message@, *expectations)),
{
    let version_path = document_steps("version");
    let signed = match value_at(message, &version_path) {
        Some(Json::Number(JsonNumber::Unsigned(number))) => *number <= i64::MAX as u64,
        Some(Json::Number(JsonNumber::Negative(_))) => true,
        _ => false,
    };
    if !signed {
        return Err(FakeLspError::new("didOpen textDocument.version must be an integer"));
    }
    if let Err(error) = validate_optional_string(
        message,
        "uri",
        &expectations.document_uri,
        "didOpen document URI",
    ) {
        return Err(error);
    }
    if let Err(error) = validate_optional_string(
        message,
        "languageId",
        &expectations.language_id,
        "didOpen language ID",
    ) {
        return Err(error);
    }
    validate_optional_string(
        message,
        "text",
        &expectations.document_text,
        "didOpen document text",
    )
}

/// A response that holds a result.
pub open spec fn result_json(id: JsonView, result: JsonView) -> JsonView {
    JsonView::Object(
        seq![("jsonrpc"@, JsonView::String("2.0"@)), ("id"@, id), ("result"@, result)],
    )
}

/// An error object.
pub open spec fn error_object(code: i64, message: Seq<char>) -> JsonView {
    JsonView::Object(
        seq![
            ("code"@, fake_lsp::negative_json(code)),
            ("message"@, JsonView::String(message)),
        ],
    )
}

/// A response that holds an error.
pub open spec fn failure_json(id: JsonView, code: i64, message: Seq<char>) -> JsonView {
    JsonView::Object(
        seq![
            ("jsonrpc"@, JsonView::String("2.0"@)),
            ("id"@, id),
            ("error"@, error_object(code, message)),
        ],
    )
}

/// A response that holds a result and an error.
pub open spec fn dual_json(id: JsonView, result: JsonView, code: i64, message: Seq<char>) -> JsonView {
    JsonView::Object(
        seq![
            ("jsonrpc"@, JsonView::String("2.0"@)),
            ("id"@, id),
            ("result"@, result),
            ("error"@, error_object(code, message)),
        ],
    )
}

/// A request.
pub open spec fn call_json(id: JsonView, method: Seq<char>, params: JsonView) -> JsonView {
    JsonView::Object(
        seq![
            ("jsonrpc"@, JsonView::String("2.0"@)),
            ("id"@, id),
            ("method"@, JsonView::String(method)),
            ("params"@, params),
        ],
    )
}

/// A numbered log notification.
pub open spec fn log_json(sequence: nat) -> JsonView {
    JsonView::Object(
        seq![
            ("jsonrpc"@, JsonView::String("2.0"@)),
            ("method"@, JsonView::String("window/logMessage"@)),
            (
                "params"@,
                JsonView::Object(
                    seq![
                        ("type"@, json::number_json(3)),
                        (
                            "message"@,
                            JsonView::String("fixture notification "@ + text::decimal(sequence)),
                        ),
                    ],
                ),
            ),
        ],
    )
}

/// Returns a response that holds a result.
fn result_response(id: Json, result: Json) -> (value: Json)
    ensures
        value@ == result_json(id@, result@),
{
    let ghost expected = result_json(id@, result@);
    let members = vec![named("jsonrpc", json_text("2.0")), named("id", id), named("result", result)];
    assert(json::members_view(members@) =~= expected->Object_0);
    json_object(members)
}

/// Returns an error object.
fn failure_object(code: i64, message: &str) -> (value: Json)
    ensures
        value@ == error_object(code, message@),
{
    let members = vec![
        named("code", Json::Number(JsonNumber::Negative(code))),
        named("message", json_text(message)),
    ];
    assert(json::members_view(members@) =~= error_object(code, message@)->Object_0);
    json_object(members)
}

/// Returns a response that holds an error.
fn failure_response(id: Json, code: i64, message: &str) -> (value: Json)
    ensures
        value@ == failure_json(id@, code, message@),
{
    let ghost expected = failure_json(id@, code, message@);
    let members = vec![
        named("jsonrpc", json_text("2.0")),
        named("id", id),
        named("error", failure_object(code, message)),
    ];
    assert(json::members_view(members@) =~= expected->Object_0);
    json_object(members)
}

/// Returns a response that holds a result and an error.
fn dual_response(id: Json, result: Json, code: i64, message: &str) -> (value: Json)
    ensures
        value@ == dual_json(id@, result@, code, message@),
{
    let ghost expected = dual_json(id@, result@, code, message@);
    let members = vec![
        named("jsonrpc", json_text("2.0")),
        named("id", id),
        named("result", result),
        named("error", failure_object(code, message)),
    ];
    assert(json::members_view(members@) =~= expected->Object_0);
    json_object(members)
}

/// Returns a request.
fn call(id: Json, method: &str, params: Json) -> (value: Json)
    ensures
        value@ == call_json(id@, method@, params@),
{
    let ghost expected = call_json(id@, method@, params@);
    let members = vec![
        named("jsonrpc", json_text("2.0")),
        named("id", id),
        named("method", json_text(method)),
        named("params", params),
    ];
    assert(json::members_view(members@) =~= expected->Object_0);
    json_object(members)
}

/// Returns a numbered log notification.
fn log_notification(sequence: u64) -> (value: Json)
    ensures
        value@ == log_json(sequence as nat),
{
    let mut message = "fixture notification ".to_owned();
    push_decimal(&mut message, sequence);
    let params = vec![named("type", json_number(3)), named("message", Json::String(message))];
    assert(json::members_view(params@) =~= log_json(sequence as nat)->Object_0[2].1->Object_0);
    let members = vec![
        named("jsonrpc", json_text("2.0")),
        named("method", json_text("window/logMessage")),
        named("params", json_object(params)),
    ];
    assert(json::members_view(members@) =~= log_json(sequence as nat)->Object_0);
    json_object(members)
}

/// How many different requests the server asks of its client.
pub const SERVER_REQUEST_COUNT: usize = 5;

/// The last number of a flood of requests.
pub const LAST_FLOOD_REQUEST: u64 = 64;

/// An object without members.
pub open spec fn no_members() -> JsonView {
    JsonView::Object(Seq::empty())
}

/// The identifier of the server's request.
pub open spec fn asked_id(index: int) -> JsonView {
    if index == 0 {
        JsonView::String("folders-request"@)
    } else if index == 1 {
        json::number_json(7001)
    } else if index == 2 {
        JsonView::String("show-message-request"@)
    } else if index == 3 {
        json::number_json(7002)
    } else {
        JsonView::String("unknown-request"@)
    }
}

/// The method of the server's request.
pub open spec fn asked_method(index: int) -> Seq<char> {
    if index == 0 {
        "workspace/workspaceFolders"@
    } else if index == 1 {
        "workspace/configuration"@
    } else if index == 2 {
        "window/showMessageRequest"@
    } else if index == 3 {
        "workspace/applyEdit"@
    } else {
        "fixture/unknownRequest"@
    }
}

/// The parameters of the server's request.
pub open spec fn asked_params(index: int) -> JsonView {
    if index == 0 {
        JsonView::Null
    } else if index == 1 {
        JsonView::Object(
            seq![
                (
                    "items"@,
                    JsonView::Array(
                        seq![JsonView::Object(seq![("section"@, JsonView::String("fixture"@))])],
                    ),
                ),
            ],
        )
    } else if index == 2 {
        JsonView::Object(
            seq![
                ("type"@, json::number_json(3)),
                ("message"@, JsonView::String("fixture question"@)),
                ("actions"@, JsonView::Array(Seq::empty())),
            ],
        )
    } else if index == 3 {
        JsonView::Object(
            seq![("edit"@, JsonView::Object(seq![("changes"@, no_members())]))],
        )
    } else {
        no_members()
    }
}

/// The only response that the server accepts to its request.
pub open spec fn accepted_reply(index: int, folder: JsonView) -> JsonView {
    if index == 0 {
        result_json(asked_id(0), JsonView::Array(seq![folder]))
    } else if index == 1 {
        result_json(
            asked_id(1),
            JsonView::Array(seq![JsonView::Object(seq![("enabled"@, JsonView::Bool(true))])]),
        )
    } else if index == 2 {
        result_json(asked_id(2), JsonView::Null)
    } else if index == 3 {
        result_json(
            asked_id(3),
            JsonView::Object(
                seq![
                    ("applied"@, JsonView::Bool(false)),
                    ("failureReason"@, JsonView::String("srcmv selection is read-only"@)),
                ],
            ),
        )
    } else {
        failure_json(asked_id(4), METHOD_NOT_FOUND, "Method not found"@)
    }
}

/// The server's request.
pub open spec fn asked_json(index: int) -> JsonView {
    call_json(asked_id(index), asked_method(index), asked_params(index))
}

/// Returns an array of one item.
fn single(item: Json) -> (value: Json)
    ensures
        value@ == JsonView::Array(seq![item@]),
{
    let items = vec![item];
    assert(json::items_view(items@) =~= seq![item@]);
    json_array(items)
}

/// Returns an object of one member.
fn object_of(name: &str, value: Json) -> (object: Json)
    ensures
        object@ == JsonView::Object(seq![(name@, value@)]),
{
    let ghost expected = seq![(name@, value@)];
    let members = vec![named(name, value)];
    assert(json::members_view(members@) =~= expected);
    json_object(members)
}

/// Returns an object without members.
fn empty_object() -> (object: Json)
    ensures
        object@ == no_members(),
{
    let members: Vec<(String, Json)> = Vec::new();
    assert(json::members_view(members@) =~= Seq::<(Seq<char>, JsonView)>::empty());
    json_object(members)
}

/// Returns the identifier of the server's request.
fn server_request_id(index: usize) -> (id: Json)
    ensures
        id@ == asked_id(index as int),
{
    if index == 0 {
        json_text("folders-request")
    } else if index == 1 {
        json_number(7001)
    } else if index == 2 {
        json_text("show-message-request")
    } else if index == 3 {
        json_number(7002)
    } else {
        json_text("unknown-request")
    }
}

/// Returns the method of the server's request.
fn server_request_method(index: usize) -> (method: &'static str)
    ensures
        method@ == asked_method(index as int),
{
    if index == 0 {
        "workspace/workspaceFolders"
    } else if index == 1 {
        "workspace/configuration"
    } else if index == 2 {
        "window/showMessageRequest"
    } else if index == 3 {
        "workspace/applyEdit"
    } else {
        "fixture/unknownRequest"
    }
}

/// Returns the server's request.
fn server_request(index: usize) -> (request: Json)
    ensures
        request@ == asked_json(index as int),
{
    let params = if index == 0 {
        Json::Null
    } else if index == 1 {
        object_of("items", single(object_of("section", json_text("fixture"))))
    } else if index == 2 {
        let actions: Vec<Json> = Vec::new();
        assert(json::items_view(actions@) =~= Seq::<JsonView>::empty());
        let members = vec![
            named("type", json_number(3)),
            named("message", json_text("fixture question")),
            named("actions", json_array(actions)),
        ];
        assert(json::members_view(members@) =~= asked_params(2)->Object_0);
        json_object(members)
    } else if index == 3 {
        object_of("edit", object_of("changes", empty_object()))
    } else {
        empty_object()
    };
    call(server_request_id(index), server_request_method(index), params)
}

/// Returns the only response that the server accepts to its request.
fn expected_reply(index: usize, folder: &Json) -> (reply: Json)
    ensures
        reply@ == accepted_reply(index as int, folder@),
{
    if index == 0 {
        result_response(server_request_id(0), single(folder.clone()))
    } else if index == 1 {
        result_response(server_request_id(1), single(object_of("enabled", Json::Bool(true))))
    } else if index == 2 {
        result_response(server_request_id(2), Json::Null)
    } else if index == 3 {
        let members = vec![
            named("applied", Json::Bool(false)),
            named("failureReason", json_text("srcmv selection is read-only")),
        ];
        assert(json::members_view(members@) =~= seq![
            ("applied"@, JsonView::Bool(false)),
            ("failureReason"@, JsonView::String("srcmv selection is read-only"@)),
        ]);
        result_response(server_request_id(3), json_object(members))
    } else {
        failure_response(server_request_id(4), METHOD_NOT_FOUND, "Method not found")
    }
}

/// One request of a flood.
pub open spec fn flood_json(sequence: u64) -> JsonView {
    call_json(json::number_json((8000 + sequence) as u64), "fixture/unknownRequest"@, no_members())
}

/// The only response that the server accepts to a request of a flood.
pub open spec fn flood_reply(sequence: u64) -> JsonView {
    failure_json(json::number_json((8000 + sequence) as u64), METHOD_NOT_FOUND, "Method not found"@)
}

/// Where a session stands: the message that the server waits for.
pub enum FakePhase {
    /// The `initialize` request.
    Initialize,
    /// The `initialized` notification.
    Initialized { folder: Json },
    /// A configuration notification.
    Configuration { folder: Json },
    /// The `didOpen` notification.
    Open { folder: Json },
    /// The document-symbol request.
    Symbols { folder: Json, uri: String },
    /// The response to one of the server's own requests.
    Reply { folder: Json, uri: String, id: Json, index: usize },
    /// The response to one request of a flood.
    FloodReply { uri: String, id: Json, sequence: u64 },
    /// The `didClose` notification.
    Close { uri: String },
    /// The `shutdown` request.
    Shutdown,
    /// The `exit` notification.
    Exit,
    /// Nothing more.
    Over,
}

/// The mathematical value of a [`FakePhase`].
#[verifier::ext_equal]
pub enum FakePhaseView {
    Initialize,
    Initialized { folder: JsonView },
    Configuration { folder: JsonView },
    Open { folder: JsonView },
    Symbols { folder: JsonView, uri: Seq<char> },
    Reply { folder: JsonView, uri: Seq<char>, id: JsonView, index: usize },
    FloodReply { uri: Seq<char>, id: JsonView, sequence: u64 },
    Close { uri: Seq<char> },
    Shutdown,
    Exit,
    Over,
}

impl View for FakePhase {
    type V = FakePhaseView;

    open spec fn view(&self) -> FakePhaseView {
        match self {
            FakePhase::Initialize => FakePhaseView::Initialize,
            FakePhase::Initialized { folder } => FakePhaseView::Initialized { folder: folder@ },
            FakePhase::Configuration { folder } => FakePhaseView::Configuration {
                folder: folder@,
            },
            FakePhase::Open { folder } => FakePhaseView::Open { folder: folder@ },
            FakePhase::Symbols { folder, uri } => FakePhaseView::Symbols {
                folder: folder@,
                uri: uri@,
            },
            FakePhase::Reply { folder, uri, id, index } => FakePhaseView::Reply {
                folder: folder@,
                uri: uri@,
                id: id@,
                index: *index,
            },
            FakePhase::FloodReply { uri, id, sequence } => FakePhaseView::FloodReply {
                uri: uri@,
                id: id@,
                sequence: *sequence,
            },
            FakePhase::Close { uri } => FakePhaseView::Close { uri: uri@ },
            FakePhase::Shutdown => FakePhaseView::Shutdown,
            FakePhase::Exit => FakePhaseView::Exit,
            FakePhase::Over => FakePhaseView::Over,
        }
    }
}

/// What follows the output of a step.
#[derive(Debug, PartialEq, Eq)]
pub enum FakeNext {
    /// Read the next message.
    Read,
    /// Stay alive and do nothing.
    Hang,
    /// Start a sleeping child, and then stay alive and do nothing.
    SpawnAndHang,
    /// End the session.
    Finish,
    /// End the session with an error.
    Fail(FakeLspError),
}

/// The mathematical value of a [`FakeNext`].
#[verifier::ext_equal]
pub enum FakeNextView {
    Read,
    Hang,
    SpawnAndHang,
    Finish,
    Fail(Seq<char>),
}

impl View for FakeNext {
    type V = FakeNextView;

    open spec fn view(&self) -> FakeNextView {
        match self {
            FakeNext::Read => FakeNextView::Read,
            FakeNext::Hang => FakeNextView::Hang,
            FakeNext::SpawnAndHang => FakeNextView::SpawnAndHang,
            FakeNext::Finish => FakeNextView::Finish,
            FakeNext::Fail(error) => FakeNextView::Fail(error@),
        }
    }
}

/// What the server does after a message: it may flood its standard error, it
/// writes raw text, it writes framed messages, and then something follows.
#[derive(Debug, PartialEq)]
pub struct FakeStep {
    /// Whether standard error is flooded first.
    pub flood: bool,
    /// Unframed output.
    pub raw: &'static str,
    /// Framed output, in order.
    pub messages: Vec<Json>,
    /// What follows.
    pub next: FakeNext,
}

/// The mathematical value of a [`FakeStep`].
#[verifier::ext_equal]
pub struct FakeStepView {
    pub flood: bool,
    pub raw: Seq<char>,
    pub messages: Seq<JsonView>,
    pub next: FakeNextView,
}

impl View for FakeStep {
    type V = FakeStepView;

    open spec fn view(&self) -> FakeStepView {
        FakeStepView {
            flood: self.flood,
            raw: self.raw@,
            messages: json::items_view(self.messages@),
            next: self.next@,
        }
    }
}

/// A step that writes these messages.
pub open spec fn writing(messages: Seq<JsonView>, next: FakeNextView) -> FakeStepView {
    FakeStepView { flood: false, raw: ""@, messages, next }
}

/// A step that ends the session with an error.
pub open spec fn failing(complaint: Seq<char>) -> (FakePhaseView, FakeStepView) {
    (FakePhaseView::Over, writing(Seq::empty(), FakeNextView::Fail(complaint)))
}

/// A step that writes nothing.
pub open spec fn waiting(phase: FakePhaseView) -> (FakePhaseView, FakeStepView) {
    (phase, writing(Seq::empty(), FakeNextView::Read))
}

/// What follows an acceptable `initialize` request.
pub open spec fn after_initialize(
    scenario: FakeLspScenario,
    id: JsonView,
    folder: JsonView,
) -> (FakePhaseView, FakeStepView) {
    let answer = result_json(id, fake_lsp::initialize_json(scenario));
    match scenario {
        FakeLspScenario::HangInitialize => (
            FakePhaseView::Over,
            writing(Seq::empty(), FakeNextView::Hang),
        ),
        FakeLspScenario::MalformedHeader => (
            FakePhaseView::Over,
            FakeStepView {
                flood: false,
                raw: "Content-Length: nope\r\n\r\n"@,
                messages: Seq::empty(),
                next: FakeNextView::Hang,
            },
        ),
        FakeLspScenario::InvalidJson => (
            FakePhaseView::Over,
            FakeStepView {
                flood: false,
                raw: "Content-Length: 1\r\n\r\n{"@,
                messages: Seq::empty(),
                next: FakeNextView::Hang,
            },
        ),
        FakeLspScenario::InitializeError => (
            FakePhaseView::Over,
            writing(
                seq![failure_json(id, INTERNAL_ERROR, "fixture initialize failure"@)],
                FakeNextView::Hang,
            ),
        ),
        FakeLspScenario::UnknownResponseId => (
            FakePhaseView::Over,
            writing(
                seq![
                    result_json(json::number_json(999999), fake_lsp::initialize_json(scenario)),
                ],
                FakeNextView::Hang,
            ),
        ),
        FakeLspScenario::ResponseAndError => (
            FakePhaseView::Over,
            writing(
                seq![
                    dual_json(
                        id,
                        fake_lsp::initialize_json(scenario),
                        INTERNAL_ERROR,
                        "invalid dual response"@,
                    ),
                ],
                FakeNextView::Hang,
            ),
        ),
        FakeLspScenario::ExitAfterInitialize => (
            FakePhaseView::Over,
            writing(seq![answer], FakeNextView::Finish),
        ),
        _ => (
            FakePhaseView::Initialized { folder },
            FakeStepView {
                flood: scenario == FakeLspScenario::StderrFlood,
                raw: ""@,
                messages: seq![answer],
                next: FakeNextView::Read,
            },
        ),
    }
}

/// Whether a scenario waits for a configuration.
pub open spec fn awaits_configuration(scenario: FakeLspScenario) -> bool {
    scenario == FakeLspScenario::SuccessWithConfiguration || scenario
        == FakeLspScenario::ServerRequests
}

/// So many numbered log notifications.
pub open spec fn log_burst(count: nat) -> Seq<JsonView> {
    Seq::new(count, |i: int| log_json(i as nat))
}

/// The answer to the document-symbol request.
pub open spec fn symbols_answer(
    scenario: FakeLspScenario,
    id: JsonView,
    uri: Seq<char>,
) -> JsonView {
    result_json(id, fake_lsp::symbols_json(scenario, uri))
}

/// What follows an acceptable document-symbol request.
pub open spec fn after_symbols(
    scenario: FakeLspScenario,
    folder: JsonView,
    uri: Seq<char>,
    id: JsonView,
) -> (FakePhaseView, FakeStepView) {
    let answer = symbols_answer(scenario, id, uri);
    match scenario {
        FakeLspScenario::HangDocumentSymbols => (
            FakePhaseView::Over,
            writing(Seq::empty(), FakeNextView::Hang),
        ),
        FakeLspScenario::ServerRequests => (
            FakePhaseView::Reply { folder, uri, id, index: 0 },
            writing(seq![asked_json(0)], FakeNextView::Read),
        ),
        FakeLspScenario::ServerRequestFlood => (
            FakePhaseView::FloodReply { uri, id, sequence: 0 },
            writing(seq![flood_json(0)], FakeNextView::Read),
        ),
        FakeLspScenario::NotificationFlood => (
            FakePhaseView::Close { uri },
            writing(log_burst(64).push(answer), FakeNextView::Read),
        ),
        FakeLspScenario::NotificationLimitExceeded => (
            FakePhaseView::Close { uri },
            writing(log_burst(1025).push(answer), FakeNextView::Read),
        ),
        _ => (FakePhaseView::Close { uri }, writing(seq![answer], FakeNextView::Read)),
    }
}

/// What the server does with a message, where it stands at `phase`.
pub open spec fn fake_next(
    scenario: FakeLspScenario,
    expectations: FakeLspExpectations,
    phase: FakePhaseView,
    message: JsonView,
) -> (FakePhaseView, FakeStepView) {
    match phase {
        FakePhaseView::Initialize => match request_id(message, "initialize"@) {
            Err(complaint) => failing(complaint),
            Ok(id) => match initialize_complaint(message) {
                Some(complaint) => failing(complaint),
                None => match fake_json::pointed(
                    message,
                    seq!["params"@, "workspaceFolders"@, "0"@],
                ) {
                    None => failing("initialize must contain one workspace folder"@),
                    Some(folder) => after_initialize(scenario, id, folder),
                },
            },
        },
        FakePhaseView::Initialized { folder } => match notification_complaint(
            message,
            "initialized"@,
        ) {
            Some(complaint) => failing(complaint),
            None => if awaits_configuration(scenario) {
                waiting(FakePhaseView::Configuration { folder })
            } else {
                waiting(FakePhaseView::Open { folder })
            },
        },
        FakePhaseView::Configuration { folder } => match notification_complaint(
            message,
            "workspace/didChangeConfiguration"@,
        ) {
            Some(complaint) => failing(complaint),
            None => if fake_json::pointed(message, seq!["params"@, "settings"@]) is None {
                failing("configuration notification must contain params.settings"@)
            } else {
                waiting(FakePhaseView::Open { folder })
            },
        },
        FakePhaseView::Open { folder } => match notification_complaint(
            message,
            "textDocument/didOpen"@,
        ) {
            Some(complaint) => failing(complaint),
            None => match open_complaint(message, expectations) {
                Some(complaint) => failing(complaint),
                None => match fake_json::text_at(message, document_path("uri"@)) {
                    Err(complaint) => failing(complaint),
                    Ok(uri) => waiting(FakePhaseView::Symbols { folder, uri }),
                },
            },
        },
        FakePhaseView::Symbols { folder, uri } => match request_id(
            message,
            "textDocument/documentSymbol"@,
        ) {
            Err(complaint) => failing(complaint),
            Ok(id) => match fake_json::text_at(message, document_path("uri"@)) {
                Err(complaint) => failing(complaint),
                Ok(asked) => if asked != uri {
                    failing("documentSymbol URI must match the didOpen URI"@)
                } else {
                    after_symbols(scenario, folder, uri, id)
                },
            },
        },
        FakePhaseView::Reply { folder, uri, id, index } => match response_complaint(
            message,
            accepted_reply(index as int, folder),
            asked_method(index as int),
        ) {
            Some(complaint) => failing(complaint),
            None => if index + 1 < SERVER_REQUEST_COUNT {
                (
                    FakePhaseView::Reply { folder, uri, id, index: (index + 1) as usize },
                    writing(seq![asked_json(index + 1)], FakeNextView::Read),
                )
            } else {
                (
                    FakePhaseView::Close { uri },
                    writing(seq![symbols_answer(scenario, id, uri)], FakeNextView::Read),
                )
            },
        },
        FakePhaseView::FloodReply { uri, id, sequence } => match response_complaint(
            message,
            flood_reply(sequence),
            "fixture/unknownRequest"@,
        ) {
            Some(complaint) => failing(complaint),
            None => if sequence < LAST_FLOOD_REQUEST {
                (
                    FakePhaseView::FloodReply { uri, id, sequence: (sequence + 1) as u64 },
                    writing(seq![flood_json((sequence + 1) as u64)], FakeNextView::Read),
                )
            } else {
                (
                    FakePhaseView::Close { uri },
                    writing(seq![symbols_answer(scenario, id, uri)], FakeNextView::Read),
                )
            },
        },
        FakePhaseView::Close { uri } => match notification_complaint(
            message,
            "textDocument/didClose"@,
        ) {
            Some(complaint) => failing(complaint),
            None => match fake_json::text_at(message, document_path("uri"@)) {
                Err(complaint) => failing(complaint),
                Ok(closed) => if closed != uri {
                    failing("didClose URI must match the didOpen URI"@)
                } else {
                    waiting(FakePhaseView::Shutdown)
                },
            },
        },
        FakePhaseView::Shutdown => match request_id(message, "shutdown"@) {
            Err(complaint) => failing(complaint),
            Ok(id) => match scenario {
                FakeLspScenario::IgnoreShutdown => (
                    FakePhaseView::Over,
                    writing(Seq::empty(), FakeNextView::Hang),
                ),
                FakeLspScenario::IgnoreShutdownWithChild => (
                    FakePhaseView::Over,
                    writing(Seq::empty(), FakeNextView::SpawnAndHang),
                ),
                _ => (
                    FakePhaseView::Exit,
                    writing(seq![result_json(id, JsonView::Null)], FakeNextView::Read),
                ),
            },
        },
        FakePhaseView::Exit => match notification_complaint(message, "exit"@) {
            Some(complaint) => failing(complaint),
            None => (FakePhaseView::Over, writing(Seq::empty(), FakeNextView::Finish)),
        },
        FakePhaseView::Over => (
            FakePhaseView::Over,
            writing(Seq::empty(), FakeNextView::Finish),
        ),
    }
}

/// Returns a step that writes nothing.
fn quiet(next: FakeNext) -> (step: FakeStep)
    ensures
        step@ == writing(Seq::empty(), next@),
{
    let messages: Vec<Json> = Vec::new();
    assert(json::items_view(messages@) =~= Seq::<JsonView>::empty());
    FakeStep { flood: false, raw: "", messages, next }
}

/// Returns a step that writes one message.
fn write_one(message: Json, next: FakeNext) -> (step: FakeStep)
    ensures
        step@ == writing(seq![message@], next@),
{
    let ghost expected = seq![message@];
    let messages = vec![message];
    assert(json::items_view(messages@) =~= expected);
    FakeStep { flood: false, raw: "", messages, next }
}

/// Returns a step that writes raw output and stays alive.
fn write_raw(raw: &'static str) -> (step: FakeStep)
    ensures
        step@ == (FakeStepView {
            flood: false,
            raw: raw@,
            messages: Seq::empty(),
            next: FakeNextView::Hang,
        }),
{
    let messages: Vec<Json> = Vec::new();
    assert(json::items_view(messages@) =~= Seq::<JsonView>::empty());
    FakeStep { flood: false, raw, messages, next: FakeNext::Hang }
}

/// Returns the end of the session with an error.
fn fail(error: FakeLspError) -> (outcome: (FakePhase, FakeStep))
    ensures
        (outcome.0@, outcome.1@) == failing(error@),
{
    (FakePhase::Over, quiet(FakeNext::Fail(error)))
}

/// Returns a burst of log notifications, and one message after it.
fn log_then(count: u64, last: Json) -> (step: FakeStep)
    ensures
        step@ == writing(log_burst(count as nat).push(last@), FakeNextView::Read),
{
    let ghost expected = log_burst(count as nat).push(last@);
    let mut messages: Vec<Json> = Vec::new();
    let mut sequence: u64 = 0;
    while sequence < count
        invariant
            sequence <= count,
            messages@.len() == sequence,
            forall|i: int| 0 <= i < sequence ==> (#[trigger] messages@[i])@ == log_json(i as nat),
        decreases count - sequence,
    {
        messages.push(log_notification(sequence));
        sequence = sequence + 1;
    }
    messages.push(last);
    assert(json::items_view(messages@) =~= expected);
    FakeStep { flood: false, raw: "", messages, next: FakeNext::Read }
}

/// Returns what follows an acceptable `initialize` request.
fn answer_initialize(scenario: FakeLspScenario, id: Json, folder: Json) -> (outcome: (
    FakePhase,
    FakeStep,
))
    ensures
        (outcome.0@, outcome.1@) == after_initialize(scenario, id@, folder@),
{
    match scenario {
        FakeLspScenario::HangInitialize => (FakePhase::Over, quiet(FakeNext::Hang)),
        FakeLspScenario::MalformedHeader => (
            FakePhase::Over,
            write_raw("Content-Length: nope\r\n\r\n"),
        ),
        FakeLspScenario::InvalidJson => (FakePhase::Over, write_raw("Content-Length: 1\r\n\r\n{")),
        FakeLspScenario::InitializeError => (
            FakePhase::Over,
            write_one(
                failure_response(id, INTERNAL_ERROR, "fixture initialize failure"),
                FakeNext::Hang,
            ),
        ),
        FakeLspScenario::UnknownResponseId => (
            FakePhase::Over,
            write_one(
                result_response(json_number(999999), initialize_result(scenario)),
                FakeNext::Hang,
            ),
        ),
        FakeLspScenario::ResponseAndError => (
            FakePhase::Over,
            write_one(
                dual_response(
                    id,
                    initialize_result(scenario),
                    INTERNAL_ERROR,
                    "invalid dual response",
                ),
                FakeNext::Hang,
            ),
        ),
        FakeLspScenario::ExitAfterInitialize => (
            FakePhase::Over,
            write_one(result_response(id, initialize_result(scenario)), FakeNext::Finish),
        ),
        _ => {
            let mut step = write_one(
                result_response(id, initialize_result(scenario)),
                FakeNext::Read,
            );
            step.flood = scenario == FakeLspScenario::StderrFlood;
            (FakePhase::Initialized { folder }, step)
        },
    }
}

/// Returns what follows an acceptable document-symbol request.
fn answer_symbols(scenario: FakeLspScenario, folder: Json, uri: String, id: Json) -> (outcome: (
    FakePhase,
    FakeStep,
))
    ensures
        (outcome.0@, outcome.1@) == after_symbols(scenario, folder@, uri@, id@),
{
    match scenario {
        FakeLspScenario::HangDocumentSymbols => (FakePhase::Over, quiet(FakeNext::Hang)),
        FakeLspScenario::ServerRequests => (
            FakePhase::Reply { folder, uri, id, index: 0 },
            write_one(server_request(0), FakeNext::Read),
        ),
        FakeLspScenario::ServerRequestFlood => (
            FakePhase::FloodReply { uri, id, sequence: 0 },
            write_one(
                call(json_number(8000), "fixture/unknownRequest", empty_object()),
                FakeNext::Read,
            ),
        ),
        FakeLspScenario::NotificationFlood => {
            let answer = result_response(id, symbol_result(scenario, uri.as_str()));
            (FakePhase::Close { uri }, log_then(64, answer))
        },
        FakeLspScenario::NotificationLimitExceeded => {
            let answer = result_response(id, symbol_result(scenario, uri.as_str()));
            (FakePhase::Close { uri }, log_then(1025, answer))
        },
        _ => {
            let answer = result_response(id, symbol_result(scenario, uri.as_str()));
            (FakePhase::Close { uri }, write_one(answer, FakeNext::Read))
        },
    }
}

/// Checks the response to one of the server's own requests, and returns what
/// follows it.
pub fn exercise_server_requests(
    scenario: FakeLspScenario,
    folder: Json,
    uri: String,
    id: Json,
    index: usize,
    message: &Json,
) -> (outcome: (FakePhase, FakeStep))
    ensures
        forall|expectations: FakeLspExpectations|
            (outcome.0@, outcome.1@) == #[trigger] fake_next(
                scenario,
                expectations,
                FakePhaseView::Reply { folder: folder@, uri: uri@, id: id@, index },
                message@,
            ),
{
    let expected = expected_reply(index, &folder);
    if let Err(error) = expect_exact_response(message, &expected, server_request_method(index)) {
        return fail(error);
    }
    if index < SERVER_REQUEST_COUNT - 1 {
        (
            FakePhase::Reply { folder, uri, id, index: index + 1 },
            write_one(server_request(index + 1), FakeNext::Read),
        )
    } else {
        let answer = result_response(id, symbol_result(scenario, uri.as_str()));
        (FakePhase::Close { uri }, write_one(answer, FakeNext::Read))
    }
}

/// Checks the response to one request of a flood, and returns what follows it.
pub fn exercise_server_request_flood(
    scenario: FakeLspScenario,
    uri: String,
    id: Json,
    sequence: u64,
    message: &Json,
) -> (outcome: (FakePhase, FakeStep))
    requires
        sequence <= LAST_FLOOD_REQUEST,
    ensures
        forall|expectations: FakeLspExpectations|
            (outcome.0@, outcome.1@) == #[trigger] fake_next(
                scenario,
                expectations,
                FakePhaseView::FloodReply { uri: uri@, id: id@, sequence },
                message@,
            ),
{
    let expected = failure_response(json_number(8000 + sequence), METHOD_NOT_FOUND, "Method not found");
    if let Err(error) = expect_exact_response(message, &expected, "fixture/unknownRequest") {
        return fail(error);
    }
    if sequence < LAST_FLOOD_REQUEST {
        let next = call(
            json_number(8000 + sequence + 1),
            "fixture/unknownRequest",
            empty_object(),
        );
        (
            FakePhase::FloodReply { uri, id, sequence: sequence + 1 },
            write_one(next, FakeNext::Read),
        )
    } else {
        let answer = result_response(id, symbol_result(scenario, uri.as_str()));
        (FakePhase::Close { uri }, write_one(answer, FakeNext::Read))
    }
}

/// A scripted session in progress.
pub struct FakeServer {
    /// The scenario.
    pub scenario: FakeLspScenario,
    /// What is expected of the opened document.
    pub expectations: FakeLspExpectations,
    /// Where the session stands.
    pub phase: FakePhase,
}

/// Whether a phase is one that a session reaches.
pub open spec fn is_reached(phase: FakePhaseView) -> bool {
    phase matches FakePhaseView::FloodReply { sequence, .. } ==> sequence <= LAST_FLOOD_REQUEST
}

/// A session stays among the phases that it reaches.
proof fn lemma_phases_stay_reached(
    scenario: FakeLspScenario,
    expectations: FakeLspExpectations,
    phase: FakePhaseView,
    message: JsonView,
)
    requires
        is_reached(phase),
    ensures
        is_reached(fake_next(scenario, expectations, phase, message).0),
{
}

/// Reads the `initialize` request.
fn read_initialize(scenario: FakeLspScenario, message: &Json) -> (outcome: (FakePhase, FakeStep))
    ensures
        forall|expectations: FakeLspExpectations|
            (outcome.0@, outcome.1@) == #[trigger] fake_next(
                scenario,
                expectations,
                FakePhaseView::Initialize,
                message@,
            ),
{
    let id = match expect_request(message, "initialize") {
        Ok(id) => id,
        Err(error) => return fail(error),
    };
    if let Err(error) = validate_initialize(message) {
        return fail(error);
    }
    let path = vec!["params", "workspaceFolders", "0"];
    assert(fake_json::steps_view(path@) =~= seq!["params"@, "workspaceFolders"@, "0"@]);
    match value_at(message, &path) {
        Some(folder) => answer_initialize(scenario, id, folder.clone()),
        None => fail(FakeLspError::new("initialize must contain one workspace folder")),
    }
}

/// Reads the `didOpen` notification.
fn read_open(expectations: &FakeLspExpectations, folder: Json, message: &Json) -> (outcome: (
    FakePhase,
    FakeStep,
))
    ensures
        forall|scenario: FakeLspScenario|
            (outcome.0@, outcome.1@) == #[trigger] fake_next(
                scenario,
                *expectations,
                FakePhaseView::Open { folder: folder@ },
                message@,
            ),
{
    if let Err(error) = expect_notification(message, "textDocument/didOpen") {
        return fail(error);
    }
    if let Err(error) = validate_did_open(message, expectations) {
        return fail(error);
    }
    let path = document_steps("uri");
    match string_at(message, &path) {
        Ok(uri) => (FakePhase::Symbols { folder, uri: uri.clone() }, quiet(FakeNext::Read)),
        Err(error) => fail(error),
    }
}

/// Reads the document-symbol request.
fn read_symbols(scenario: FakeLspScenario, folder: Json, uri: String, message: &Json) -> (outcome: (
    FakePhase,
    FakeStep,
))
    ensures
        forall|expectations: FakeLspExpectations|
            (outcome.0@, outcome.1@) == #[trigger] fake_next(
                scenario,
                expectations,
                FakePhaseView::Symbols { folder: folder@, uri: uri@ },
                message@,
            ),
{
    let id = match expect_request(message, "textDocument/documentSymbol") {
        Ok(id) => id,
        Err(error) => return fail(error),
    };
    let path = document_steps("uri");
    match string_at(message, &path) {
        Ok(asked) => {
            if text_equal(asked.as_str(), uri.as_str()) {
                answer_symbols(scenario, folder, uri, id)
            } else {
                fail(FakeLspError::new("documentSymbol URI must match the didOpen URI"))
            }
        },
        Err(error) => fail(error),
    }
}

/// Reads the `didClose` notification.
fn read_close(uri: String, message: &Json) -> (outcome: (FakePhase, FakeStep))
    ensures
        forall|scenario: FakeLspScenario, expectations: FakeLspExpectations|
            (outcome.0@, outcome.1@) == #[trigger] fake_next(
                scenario,
                expectations,
                FakePhaseView::Close { uri: uri@ },
                message@,
            ),
{
    if let Err(error) = expect_notification(message, "textDocument/didClose") {
        return fail(error);
    }
    let path = document_steps("uri");
    match string_at(message, &path) {
        Ok(closed) => {
            if text_equal(closed.as_str(), uri.as_str()) {
                (FakePhase::Shutdown, quiet(FakeNext::Read))
            } else {
                fail(FakeLspError::new("didClose URI must match the didOpen URI"))
            }
        },
        Err(error) => fail(error),
    }
}

impl FakeServer {
    /// Starts a session; the server waits for `initialize`.
    pub fn new(scenario: FakeLspScenario, expectations: FakeLspExpectations) -> (server: Self)
        ensures
            server.scenario == scenario,
            server.expectations == expectations,
            server.phase@ == FakePhaseView::Initialize,
    {
        FakeServer { scenario, expectations, phase: FakePhase::Initialize }
    }

    /// Takes the next message and returns the session with what it does.
    pub fn advance(self, message: &Json) -> (next: (FakeServer, FakeStep))
        requires
            is_reached(self.phase@),
        ensures
            next.0.scenario == self.scenario,
            next.0.expectations == self.expectations,
            is_reached(next.0.phase@),
            (next.0.phase@, next.1@) == fake_next(
                self.scenario,
                self.expectations,
                self.phase@,
                message@,
            ),
    {
        proof {
            lemma_phases_stay_reached(self.scenario, self.expectations, self.phase@, message@);
        }
        let FakeServer { scenario, expectations, phase } = self;
        let (phase, step) = match phase {
            FakePhase::Initialize => read_initialize(scenario, message),
            FakePhase::Initialized { folder } => match expect_notification(
                message,
                "initialized",
            ) {
                Err(error) => fail(error),
                Ok(()) => {
                    if matches!(
                        scenario,
                        FakeLspScenario::SuccessWithConfiguration | FakeLspScenario::ServerRequests
                    ) {
                        (FakePhase::Configuration { folder }, quiet(FakeNext::Read))
                    } else {
                        (FakePhase::Open { folder }, quiet(FakeNext::Read))
                    }
                },
            },
            FakePhase::Configuration { folder } => match expect_notification(
                message,
                "workspace/didChangeConfiguration",
            ) {
                Err(error) => fail(error),
                Ok(()) => {
                    let path = vec!["params", "settings"];
                    assert(fake_json::steps_view(path@) =~= seq!["params"@, "settings"@]);
                    match value_at(message, &path) {
                        Some(_) => (FakePhase::Open { folder }, quiet(FakeNext::Read)),
                        None => fail(
                            FakeLspError::new(
                                "configuration notification must contain params.settings",
                            ),
                        ),
                    }
                },
            },
            FakePhase::Open { folder } => read_open(&expectations, folder, message),
            FakePhase::Symbols { folder, uri } => read_symbols(scenario, folder, uri, message),
            FakePhase::Reply { folder, uri, id, index } => exercise_server_requests(
                scenario,
                folder,
                uri,
                id,
                index,
                message,
            ),
            FakePhase::FloodReply { uri, id, sequence } => exercise_server_request_flood(
                scenario,
                uri,
                id,
                sequence,
                message,
            ),
            FakePhase::Close { uri } => read_close(uri, message),
            FakePhase::Shutdown => match expect_request(message, "shutdown") {
                Err(error) => fail(error),
                Ok(id) => match scenario {
                    FakeLspScenario::IgnoreShutdown => (FakePhase::Over, quiet(FakeNext::Hang)),
                    FakeLspScenario::IgnoreShutdownWithChild => (
                        FakePhase::Over,
                        quiet(FakeNext::SpawnAndHang),
                    ),
                    _ => (
                        FakePhase::Exit,
                        write_one(result_response(id, Json::Null), FakeNext::Read),
                    ),
                },
            },
            FakePhase::Exit => match expect_notification(message, "exit") {
                Err(error) => fail(error),
                Ok(()) => (FakePhase::Over, quiet(FakeNext::Finish)),
            },
            FakePhase::Over => (FakePhase::Over, quiet(FakeNext::Finish)),
        };
        (FakeServer { scenario, expectations, phase }, step)
    }
}

/// A session ends well only with `exit`, after every earlier message of the
/// lifecycle, except where the scenario is to exit after `initialize`.
pub proof fn law_sessions_finish_in_order(
    scenario: FakeLspScenario,
    expectations: FakeLspExpectations,
    phase: FakePhaseView,
    message: JsonView,
)
    requires
        !(phase is Over),
        fake_next(scenario, expectations, phase, message).1.next == FakeNextView::Finish,
    ensures
        phase is Exit || (phase is Initialize && scenario
            == FakeLspScenario::ExitAfterInitialize),
{
}

/// The server answers document symbols only for the document that was opened,
/// under the identifier of the request.
pub proof fn law_symbols_answer_the_opened_document(
    scenario: FakeLspScenario,
    expectations: FakeLspExpectations,
    folder: JsonView,
    uri: Seq<char>,
    message: JsonView,
)
    requires
        fake_next(
            scenario,
            expectations,
            FakePhaseView::Symbols { folder, uri },
            message,
        ).0 is Close,
    ensures
        fake_json::text_at(message, document_path("uri"@)) == Ok::<Seq<char>, Seq<char>>(uri),
        fake_next(
            scenario,
            expectations,
            FakePhaseView::Symbols { folder, uri },
            message,
        ).1.messages.last() == symbols_answer(
            scenario,
            request_id(message, "textDocument/documentSymbol"@)->Ok_0,
            uri,
        ),
{
}

} // verus!
