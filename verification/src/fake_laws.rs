//! What the scripted server accepts, and what it answers.

use vstd::prelude::*;

use crate::bytes;
use crate::fake_args;
use crate::fake_args::{ArgumentStepView, ParsedView};
use crate::fake_json;
use crate::fake_lsp;
use crate::fake_lsp::{FakeLspExpectations, FakeLspScenario};
use crate::fake_script;
use crate::fake_script::{FakePhaseView, FakeStepView};
use crate::fake_wire;
use crate::framing;
use crate::json;
use crate::json::JsonView;
use crate::message_laws;
use crate::print_laws;
use crate::text;
use crate::wire_laws;

verus! {

/// Whether a message is a request of a method, under an identifier.
pub open spec fn is_request(message: JsonView, method: Seq<char>, id: JsonView) -> bool {
    &&& message matches JsonView::Object(members)
    &&& message_laws::says(members, "jsonrpc"@, JsonView::String("2.0"@))
    &&& message_laws::says(members, "method"@, JsonView::String(method))
    &&& message_laws::says(members, "id"@, id)
    &&& id is String || message_laws::is_whole_number(id)
}

/// Whether a message is a notification of a method.
pub open spec fn is_notification(message: JsonView, method: Seq<char>) -> bool {
    &&& message matches JsonView::Object(members)
    &&& message_laws::says(members, "jsonrpc"@, JsonView::String("2.0"@))
    &&& message_laws::says(members, "method"@, JsonView::String(method))
    &&& !message_laws::is_named(members, "id"@)
}

proof fn lemma_said(members: Seq<(Seq<char>, JsonView)>, name: Seq<char>)
    ensures
        match json::member(members, name) {
            Some(value) => forall|other: JsonView|
                #[trigger] message_laws::says(members, name, other) <==> other == value,
            None => forall|other: JsonView| !#[trigger] message_laws::says(members, name, other),
        },
        json::member(members, name) is Some <==> message_laws::is_named(members, name),
{
    message_laws::law_members_are_found_by_name(members, name);
    assert forall|other: JsonView| #[trigger]
        message_laws::says(members, name, other) implies json::member(members, name) == Some(
        other,
    ) by {
        let i = choose|i: int|
            {
                &&& 0 <= i < members.len()
                &&& (#[trigger] members[i]) == (name, other)
                &&& forall|j: int| 0 <= j < i ==> (#[trigger] members[j]).0 != name
            };
        json::lemma_member_index(members, name, i);
    }
}

/// A request is accepted exactly where it is one of the method that is expected,
/// and its identifier is then the one that it has; a notification exactly where it
/// is one of the method that is expected.
pub proof fn law_only_expected_methods_are_accepted(
    message: JsonView,
    method: Seq<char>,
    id: JsonView,
)
    ensures
        fake_script::request_id(message, method) == Ok::<JsonView, Seq<char>>(id) <==> is_request(
            message,
            method,
            id,
        ),
        fake_script::notification_complaint(message, method) is None <==> is_notification(
            message,
            method,
        ),
{
    if let JsonView::Object(members) = message {
        lemma_said(members, "jsonrpc"@);
        lemma_said(members, "method"@);
        lemma_said(members, "id"@);
    }
}

/// A path of steps goes from a value to one of its members by name, and to one of
/// its items by number; anything else has neither.
pub proof fn law_steps_lead_into_values(
    value: JsonView,
    token: Seq<char>,
    rest: Seq<Seq<char>>,
    index: int,
)
    ensures
        fake_json::pointed(value, Seq::empty()) == Some(value),
        match value {
            JsonView::Object(members) => match json::member(members, token) {
                Some(inner) => message_laws::says(members, token, inner) && fake_json::pointed(
                    value,
                    seq![token] + rest,
                ) == fake_json::pointed(inner, rest),
                None => fake_json::pointed(value, seq![token] + rest) is None,
            },
            JsonView::Array(items) => 0 <= index < items.len() ==> fake_json::pointed(
                value,
                seq![text::decimal(index as nat)] + rest,
            ) == fake_json::pointed(items[index], rest),
            _ => fake_json::pointed(value, seq![token] + rest) is None,
        },
{
    let path = seq![token] + rest;
    assert(path.drop_first() =~= rest);
    assert(path[0] == token);
    match value {
        JsonView::Object(members) => lemma_said(members, token),
        JsonView::Array(items) => {
            if 0 <= index < items.len() {
                let numbered = seq![text::decimal(index as nat)] + rest;
                assert(numbered.drop_first() =~= rest);
                lemma_index(index as nat, 0, items.len());
            }
        },
        _ => {},
    }
}

proof fn lemma_index(index: nat, from: nat, length: nat)
    requires
        from <= index < length,
    ensures
        fake_json::index_spelled(text::decimal(index), from, length) == index,
    decreases length - from,
{
    print_laws::law_decimals_write_their_number(index);
    print_laws::law_decimals_write_their_number(from);
    if from < index {
        lemma_index(index, from + 1, length);
    }
}

/// Whether a value is an array or an object.
pub open spec fn is_structured(value: JsonView) -> bool {
    value is Array || value is Object
}

/// Values that hold no others are the same exactly where they are equal, but that
/// the two zeros that are no integers count as one.
pub proof fn law_same_values_are_equal(left: JsonView, right: JsonView)
    requires
        !is_structured(left),
    ensures
        !(left is Number && right is Number) || message_laws::is_whole_number(left) ==> (
        fake_json::same_json(left, right) <==> left == right),
{
}

/// Arrays are the same exactly where their items are, in order.
pub proof fn law_same_arrays_have_the_same_items(items: Seq<JsonView>, right: JsonView)
    ensures
        fake_json::same_json(JsonView::Array(items), right) <==> {
            &&& right matches JsonView::Array(others)
            &&& others.len() == items.len()
            &&& forall|i: int|
                0 <= i < items.len() ==> fake_json::same_json(#[trigger] items[i], others[i])
        },
{
    if let JsonView::Array(others) = right {
        assert(fake_json::same_json(JsonView::Array(items), JsonView::Array(others)) <==> {
            &&& items.len() == others.len()
            &&& forall|i: int|
                0 <= i < items.len() ==> fake_json::same_json(#[trigger] items[i], others[i])
        }) by {
            reveal_with_fuel(fake_json::same_json, 2);
        }
    }
}

/// Objects are the same only where they have as many members, and each is the same
/// as the other's of its name.
pub proof fn law_same_objects_have_the_same_members(
    members: Seq<(Seq<char>, JsonView)>,
    right: JsonView,
    place: int,
)
    requires
        fake_json::same_json(JsonView::Object(members), right),
        0 <= place < members.len(),
    ensures
        right matches JsonView::Object(others) && others.len() == members.len() && exists|
            other: JsonView,
        |
            message_laws::says(others, members[place].0, other) && #[trigger] fake_json::same_json(
                members[place].1,
                other,
            ),
{
    reveal_with_fuel(fake_json::same_json, 2);
    let others = right->Object_0;
    let member = members[place];
    lemma_said(others, member.0);
    let other = json::member(others, member.0)->Some_0;
    assert(fake_json::same_json(member.1, other));
}

/// Whether a message says a text at the end of a path.
pub open spec fn says_text(message: JsonView, path: Seq<Seq<char>>, value: Seq<char>) -> bool {
    fake_json::pointed(message, path) == Some(JsonView::String(value))
}

/// Whether a message says a text at a place of the opened document.
pub open spec fn says_document(message: JsonView, member: Seq<char>, value: Seq<char>) -> bool {
    says_text(message, seq!["params"@, "textDocument"@, member], value)
}

/// A document is accepted only with an address, a language, and a text, and with
/// those that are expected, where they are; and its version is an integer.
pub proof fn law_only_expected_documents_are_opened(
    message: JsonView,
    expectations: FakeLspExpectations,
)
    requires
        fake_script::open_complaint(message, expectations) is None,
    ensures
        exists|uri: Seq<char>, language: Seq<char>, content: Seq<char>|
            {
                &&& #[trigger] says_document(message, "uri"@, uri)
                &&& #[trigger] says_document(message, "languageId"@, language)
                &&& #[trigger] says_document(message, "text"@, content)
                &&& expectations.document_uri matches Some(expected) ==> uri == expected@
                &&& expectations.language_id matches Some(expected) ==> language == expected@
                &&& expectations.document_text matches Some(expected) ==> content == expected@
            },
        exists|version: JsonView|
            fake_json::pointed(message, seq!["params"@, "textDocument"@, "version"@]) == Some(
                version,
            ) && #[trigger] message_laws::is_whole_number(version),
{
    let uri = fake_json::text_at(message, fake_script::document_path("uri"@))->Ok_0;
    let language = fake_json::text_at(message, fake_script::document_path("languageId"@))->Ok_0;
    let content = fake_json::text_at(message, fake_script::document_path("text"@))->Ok_0;
    assert(says_document(message, "uri"@, uri));
    assert(says_document(message, "languageId"@, language));
    assert(says_document(message, "text"@, content));
    let version = fake_json::pointed(
        message,
        fake_script::document_path("version"@),
    )->Some_0;
    assert(message_laws::is_whole_number(version));
}

/// Whether a message says a root, and the first folder is that root.
pub open spec fn is_root(message: JsonView, root: Seq<char>) -> bool {
    &&& says_text(message, seq!["params"@, "rootUri"@], root)
    &&& says_text(message, seq!["params"@, "workspaceFolders"@, "0"@, "uri"@], root)
}

/// A session is initialized only by a client with one folder that is its root, that
/// reads symbols in a hierarchy, and that lets the server change nothing.
pub proof fn law_only_readers_are_initialized(message: JsonView)
    requires
        fake_script::initialize_complaint(message) is None,
    ensures
        exists|root: Seq<char>| #[trigger] is_root(message, root),
        fake_json::pointed(message, seq!["params"@, "workspaceFolders"@]) matches Some(
            JsonView::Array(folders),
        ) && folders.len() == 1,
        fake_json::pointed(
            message,
            seq![
                "params"@,
                "capabilities"@,
                "textDocument"@,
                "documentSymbol"@,
                "hierarchicalDocumentSymbolSupport"@,
            ],
        ) == Some(JsonView::Bool(true)),
        fake_json::pointed(
            message,
            seq![
                "params"@,
                "capabilities"@,
                "textDocument"@,
                "documentSymbol"@,
                "dynamicRegistration"@,
            ],
        ) == Some(JsonView::Bool(false)),
        fake_json::pointed(
            message,
            seq!["params"@, "capabilities"@, "window"@, "workDoneProgress"@],
        ) == Some(JsonView::Bool(false)),
        fake_json::pointed(message, seq!["params"@, "capabilities"@, "workspace"@, "applyEdit"@])
            == Some(JsonView::Bool(false)),
{
    let root = fake_json::text_at(message, seq!["params"@, "rootUri"@])->Ok_0;
    assert(is_root(message, root));
}

/// Whether a message is the response to a request, with a result.
pub open spec fn responds(message: JsonView, id: JsonView, result: JsonView) -> bool {
    &&& wire_laws::has(message, "jsonrpc"@, JsonView::String("2.0"@))
    &&& wire_laws::has(message, "id"@, id)
    &&& wire_laws::has(message, "result"@, result)
    &&& message->Object_0.len() == 3
}

proof fn lemma_responds(id: JsonView, result: JsonView)
    ensures
        responds(fake_script::result_json(id, result), id, result),
{
    let members = fake_script::result_json(id, result)->Object_0;
    assert(members.contains(members[0]));
    assert(members.contains(members[1]));
    assert(members.contains(members[2]));
}

/// Whether a step writes nothing and waits for the next message.
pub open spec fn just_reads(step: FakeStepView) -> bool {
    step.messages.len() == 0 && step.next is Read && !step.flood && step.raw == ""@
}

/// Whether a step ends the session with a complaint.
pub open spec fn complains(phase: FakePhaseView, step: FakeStepView) -> bool {
    phase is Over && step.messages.len() == 0 && step.next is Fail
}

/// A session goes from its beginning to its end in this order: it is initialized,
/// perhaps configured, a document is opened, asked about, and closed, and the
/// server is shut down and exits. Any other message ends it with a complaint.
pub proof fn law_sessions_go_in_order(
    scenario: FakeLspScenario,
    expectations: FakeLspExpectations,
    phase: FakePhaseView,
    message: JsonView,
)
    ensures
        ({
            let (next, step) = fake_script::fake_next(scenario, expectations, phase, message);
            match phase {
                FakePhaseView::Initialize => complains(next, step) || exists|id: JsonView|
                    #[trigger] is_request(message, "initialize"@, id) && match scenario {
                        FakeLspScenario::HangInitialize
                        | FakeLspScenario::MalformedHeader
                        | FakeLspScenario::InvalidJson
                        | FakeLspScenario::InitializeError
                        | FakeLspScenario::UnknownResponseId
                        | FakeLspScenario::ResponseAndError => next is Over && step.next is Hang,
                        FakeLspScenario::ExitAfterInitialize => next is Over && step.next is Finish
                            && step.messages.len() == 1 && responds(
                            step.messages[0],
                            id,
                            fake_lsp::initialize_json(scenario),
                        ),
                        _ => {
                            &&& next is Initialized
                            &&& step.next is Read
                            &&& step.messages.len() == 1
                            &&& responds(
                                step.messages[0],
                                id,
                                fake_lsp::initialize_json(scenario),
                            )
                            &&& step.flood <==> scenario == FakeLspScenario::StderrFlood
                        },
                    },
                FakePhaseView::Initialized { folder } => if is_notification(
                    message,
                    "initialized"@,
                ) {
                    &&& just_reads(step)
                    &&& match scenario {
                        FakeLspScenario::SuccessWithConfiguration
                        | FakeLspScenario::ServerRequests => next
                            == (FakePhaseView::Configuration { folder }),
                        _ => next == (FakePhaseView::Open { folder }),
                    }
                } else {
                    complains(next, step)
                },
                FakePhaseView::Configuration { folder } => if is_notification(
                    message,
                    "workspace/didChangeConfiguration"@,
                ) && fake_json::pointed(message, seq!["params"@, "settings"@]) is Some {
                    just_reads(step) && next == (FakePhaseView::Open { folder })
                } else {
                    complains(next, step)
                },
                FakePhaseView::Open { folder } => if is_notification(
                    message,
                    "textDocument/didOpen"@,
                ) && fake_script::open_complaint(message, expectations) is None {
                    &&& just_reads(step)
                    &&& next matches FakePhaseView::Symbols { folder: kept, uri }
                    &&& kept == folder
                    &&& says_document(message, "uri"@, uri)
                } else {
                    complains(next, step)
                },
                FakePhaseView::Symbols { folder, uri } => {
                    let asked = exists|id: JsonView| #[trigger]
                        is_request(message, "textDocument/documentSymbol"@, id);
                    if asked && says_document(message, "uri"@, uri) {
                        &&& scenario == FakeLspScenario::HangDocumentSymbols ==> next is Over
                            && step.next is Hang && step.messages.len() == 0
                        &&& next is Close ==> next->Close_uri == uri && step.messages.len() > 0
                            && step.next is Read
                        &&& scenario == FakeLspScenario::ServerRequests ==> next is Reply
                        &&& scenario == FakeLspScenario::ServerRequestFlood ==> next is FloodReply
                    } else {
                        complains(next, step)
                    }
                },
                FakePhaseView::Close { uri } => if is_notification(
                    message,
                    "textDocument/didClose"@,
                ) && says_document(message, "uri"@, uri) {
                    just_reads(step) && next is Shutdown
                } else {
                    complains(next, step)
                },
                FakePhaseView::Shutdown => complains(next, step) || exists|id: JsonView|
                    #[trigger] is_request(message, "shutdown"@, id) && match scenario {
                        FakeLspScenario::IgnoreShutdown => next is Over && step.next is Hang
                            && step.messages.len() == 0,
                        FakeLspScenario::IgnoreShutdownWithChild => next is Over && step.next
                            is SpawnAndHang && step.messages.len() == 0,
                        _ => next is Exit && step.next is Read && step.messages.len() == 1
                            && responds(step.messages[0], id, JsonView::Null),
                    },
                FakePhaseView::Exit => next is Over && step.messages.len() == 0 && if is_notification(
                    message,
                    "exit"@,
                ) {
                    step.next is Finish
                } else {
                    step.next is Fail
                },
                FakePhaseView::Over => next is Over && step.next is Finish && step.messages.len()
                    == 0,
                _ => true,
            }
        }),
{
    let method = match phase {
        FakePhaseView::Initialize => "initialize"@,
        FakePhaseView::Initialized { .. } => "initialized"@,
        FakePhaseView::Configuration { .. } => "workspace/didChangeConfiguration"@,
        FakePhaseView::Open { .. } => "textDocument/didOpen"@,
        FakePhaseView::Symbols { .. } => "textDocument/documentSymbol"@,
        FakePhaseView::Close { .. } => "textDocument/didClose"@,
        FakePhaseView::Shutdown => "shutdown"@,
        _ => "exit"@,
    };
    let (next, step) = fake_script::fake_next(scenario, expectations, phase, message);
    let id = match fake_script::request_id(message, method) {
        Ok(id) => id,
        Err(_) => JsonView::Null,
    };
    law_only_expected_methods_are_accepted(message, method, id);
    lemma_responds(id, fake_lsp::initialize_json(scenario));
    lemma_responds(id, JsonView::Null);
    if let FakePhaseView::Symbols { folder, uri } = phase {
        if exists|other: JsonView| #[trigger] is_request(message, method, other) {
            let other = choose|other: JsonView| #[trigger] is_request(message, method, other);
            law_only_expected_methods_are_accepted(message, method, other);
        }
    }
    if let FakePhaseView::Initialize = phase {
        if !complains(next, step) {
            assert(is_request(message, method, id));
            let answer = fake_script::result_json(id, fake_lsp::initialize_json(scenario));
            assert(responds(answer, id, fake_lsp::initialize_json(scenario)));
            if scenario == FakeLspScenario::ExitAfterInitialize {
                assert(step.messages[0] == answer);
            }
        }
    }
}

/// Whatever is asked about a document in between, its symbols are answered last, to
/// the request that asked for them.
pub proof fn law_symbols_are_answered_last(
    scenario: FakeLspScenario,
    expectations: FakeLspExpectations,
    phase: FakePhaseView,
    message: JsonView,
)
    requires
        !(phase is Close),
        fake_script::fake_next(scenario, expectations, phase, message).0 is Close,
    ensures
        ({
            let (next, step) = fake_script::fake_next(scenario, expectations, phase, message);
            let answer = step.messages.last();
            match phase {
                FakePhaseView::Symbols { uri, .. } => next->Close_uri == uri && exists|id: JsonView|
                    is_request(message, "textDocument/documentSymbol"@, id) && #[trigger] responds(
                        answer,
                        id,
                        fake_lsp::symbols_json(scenario, uri),
                    ),
                FakePhaseView::Reply { uri, id, .. } | FakePhaseView::FloodReply {
                    uri,
                    id,
                    ..
                } => next->Close_uri == uri && responds(
                    answer,
                    id,
                    fake_lsp::symbols_json(scenario, uri),
                ),
                _ => false,
            }
        }),
{
    match phase {
        FakePhaseView::Symbols { uri, .. } => {
            let id = fake_script::request_id(message, "textDocument/documentSymbol"@)->Ok_0;
            law_only_expected_methods_are_accepted(message, "textDocument/documentSymbol"@, id);
            lemma_responds(id, fake_lsp::symbols_json(scenario, uri));
        },
        FakePhaseView::Reply { uri, id, .. } | FakePhaseView::FloodReply { uri, id, .. } => {
            lemma_responds(id, fake_lsp::symbols_json(scenario, uri));
        },
        _ => {},
    }
}

/// What the server says it can do depends on the scenario alone: the encoding, the
/// synchronization, and whether it provides symbols.
pub proof fn law_capabilities_follow_the_scenario(scenario: FakeLspScenario)
    ensures
        exists|capabilities: JsonView|
            {
                &&& #[trigger] wire_laws::has(
                    fake_lsp::initialize_json(scenario),
                    "capabilities"@,
                    capabilities,
                )
                &&& match scenario {
                    FakeLspScenario::Utf8Encoding => wire_laws::has(
                        capabilities,
                        "positionEncoding"@,
                        JsonView::String("utf-8"@),
                    ),
                    FakeLspScenario::Utf32Encoding => wire_laws::has(
                        capabilities,
                        "positionEncoding"@,
                        JsonView::String("utf-32"@),
                    ),
                    FakeLspScenario::UnsupportedEncoding | FakeLspScenario::DefaultEncoding => true,
                    _ => wire_laws::has(
                        capabilities,
                        "positionEncoding"@,
                        JsonView::String("utf-16"@),
                    ),
                }
                &&& scenario != FakeLspScenario::NoDocumentSymbols ==> wire_laws::has(
                    capabilities,
                    "documentSymbolProvider"@,
                    JsonView::Bool(true),
                )
                &&& scenario == FakeLspScenario::LegacyFullSync ==> wire_laws::has(
                    capabilities,
                    "textDocumentSync"@,
                    wire_laws::count(1),
                )
                &&& scenario == FakeLspScenario::LegacyIncrementalSync ==> wire_laws::has(
                    capabilities,
                    "textDocumentSync"@,
                    wire_laws::count(2),
                )
            },
{
    let value = fake_lsp::initialize_json(scenario);
    let members = value->Object_0;
    assert(members.contains(members[0]));
    let capabilities = members[0].1;
    let inner = capabilities->Object_0;
    let encoding = fake_lsp::reported_encoding(scenario);
    let sync = fake_lsp::reported_sync(scenario);
    let provider = fake_lsp::reported_provider(scenario);
    assert(inner == encoding + sync + provider);
    if encoding.len() > 0 {
        assert(inner[0] == encoding[0]);
        assert(inner.contains(inner[0]));
    }
    if sync.len() > 0 {
        let place = encoding.len() as int;
        assert(inner[place] == sync[0]);
        assert(inner.contains(inner[place]));
    }
    if provider.len() > 0 {
        let place = encoding.len() + sync.len();
        assert(inner[place as int] == provider[0]);
        assert(inner.contains(inner[place as int]));
    }
    assert(wire_laws::has(value, "capabilities"@, capabilities));
}

/// A header line of the scripted server is its name up to the first colon and its
/// value behind it; a length is declared once, and any other header changes
/// nothing.
pub proof fn law_scripted_headers_declare(line: Seq<u8>, found: Option<usize>, colon: int)
    requires
        0 <= colon < line.len(),
        line[colon] == 58,
        forall|i: int| 0 <= i < colon ==> line[i] != 58,
    ensures
        ({
            let named = message_laws::is_word(line.take(colon), "Content-Length"@);
            let digits = fake_wire::value_digits(line.skip(colon + 1));
            match fake_wire::line_length(line, found) {
                Ok(length) => if named {
                    &&& found is None
                    &&& message_laws::is_number(digits)
                    &&& length == Some(message_laws::written_number(digits) as usize)
                } else {
                    length == found
                },
                Err(_) => named && (found is Some || !message_laws::is_number(digits)
                    || message_laws::written_number(digits) > usize::MAX),
            }
        }),
{
    bytes::lemma_first_index(line, 58, colon);
    message_laws::law_spelling_ignores_case(line.take(colon), "Content-Length"@);
    message_laws::law_lengths_are_decimal(fake_wire::value_digits(line.skip(colon + 1)));
}

/// Messages are written one after the other, each as its frame, until one is too
/// large.
pub proof fn law_scripted_messages_are_written_in_order(message: JsonView, rest: Seq<JsonView>)
    ensures
        fake_wire::frames_of(Seq::empty()).0.len() == 0,
        match json::serialized_json(message) {
            Ok(body) => if body.len() <= 16_777_216 {
                &&& fake_wire::frames_of(seq![message] + rest).0 == framing::frame_of(body)
                    + fake_wire::frames_of(rest).0
                &&& fake_wire::frames_of(seq![message] + rest).1 == fake_wire::frames_of(rest).1
            } else {
                &&& fake_wire::frames_of(seq![message] + rest).0.len() == 0
                &&& fake_wire::frames_of(seq![message] + rest).1 is Some
            },
            Err(_) => {
                &&& fake_wire::frames_of(seq![message] + rest).0.len() == 0
                &&& fake_wire::frames_of(seq![message] + rest).1 is Some
            },
        },
{
    let messages = seq![message] + rest;
    assert(messages.drop_first() =~= rest);
    assert(messages[0] == message);
}

/// Every option of the command line sets what it names and nothing else, a flag
/// takes one argument and any other option two, and an unknown one is refused.
pub proof fn law_options_set_what_they_name(
    arguments: Seq<Option<Seq<char>>>,
    parsed: ParsedView,
    value: Seq<char>,
)
    requires
        parsed.position + 1 < arguments.len(),
        arguments[parsed.position as int] is Some,
        arguments[parsed.position as int + 1] == Some(value),
    ensures
        ({
            let option = arguments[parsed.position as int]->Some_0;
            let step = fake_args::argument_read(arguments, parsed);
            let after = parsed.position + 2;
            if option == "--scenario"@ {
                match step {
                    ArgumentStepView::Done(next) => {
                        &&& fake_lsp::scenario_text(next.scenario) == value
                        &&& next == ParsedView {
                            position: after,
                            scenario: next.scenario,
                            ..parsed
                        }
                    },
                    ArgumentStepView::Fail(_) => forall|scenario: FakeLspScenario|
                        #[trigger] fake_lsp::scenario_text(scenario) != value,
                    _ => false,
                }
            } else if option == "--expected-document-uri"@ {
                step == ArgumentStepView::Done(
                    ParsedView { position: after, document_uri: Some(value), ..parsed },
                )
            } else if option == "--expected-language-id"@ {
                step == ArgumentStepView::Done(
                    ParsedView { position: after, language_id: Some(value), ..parsed },
                )
            } else if option == "--expected-document-text-file"@ {
                step == (ArgumentStepView::ReadText {
                    path: value,
                    parsed: ParsedView { position: after, ..parsed },
                })
            } else if option == "--sleep-forever"@ {
                step == ArgumentStepView::Done(
                    ParsedView {
                        position: parsed.position + 1,
                        sleep_forever: true,
                        ..parsed
                    },
                )
            } else {
                step is Fail
            }
        }),
{
}

} // verus!
