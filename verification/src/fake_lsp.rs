//! A scripted language server: what it answers, what it checks, and what it
//! does wrong on purpose.

use vstd::prelude::*;
use vstd::string::StringExecFns;

use crate::fake_json::FakeLspError;
use crate::json;
use crate::json::{
    json_array, json_number, json_object, json_text, named, Json, JsonNumberView, JsonView,
};
use crate::text;
use crate::text::{push_decimal, text_equal};

verus! {

/// How many symbols the scenario of too many symbols serves.
pub const OUTLINE_LIMIT_SYMBOL_COUNT: usize = 10_001;

/// Named behavior of the fake language server.
#[derive(Clone, Copy, Debug, PartialEq, Eq, Structural)]
pub enum FakeLspScenario {
    /// Completes a normal full-synchronization, hierarchical-symbol session.
    Success,
    /// Requires a configuration notification before `didOpen`.
    SuccessWithConfiguration,
    /// Returns a JSON-RPC error for `initialize`.
    InitializeError,
    /// Exits immediately after returning a successful initialize response.
    ExitAfterInitialize,
    /// Reads `initialize` and then never responds.
    HangInitialize,
    /// Reads `textDocument/documentSymbol` and then never responds.
    HangDocumentSymbols,
    /// Reads `shutdown` but never responds.
    IgnoreShutdown,
    /// Spawns a same-process-group sleeper and then ignores `shutdown`.
    IgnoreShutdownWithChild,
    /// Emits a malformed header instead of an initialize response.
    MalformedHeader,
    /// Emits a framed invalid JSON body instead of an initialize response.
    InvalidJson,
    /// Returns an initialize response with an unrequested ID.
    UnknownResponseId,
    /// Returns a response containing both `result` and `error`.
    ResponseAndError,
    /// Fills stderr before completing the successful lifecycle.
    StderrFlood,
    /// Sends supported and unsupported server requests during symbol lookup.
    ServerRequests,
    /// Sends more server requests than the production per-selection limit.
    ServerRequestFlood,
    /// Omits document-symbol support from the initialize result.
    NoDocumentSymbols,
    /// Omits text-document synchronization from the initialize result.
    NoDocumentSync,
    /// Reports incremental synchronization through synchronization options.
    IncrementalSync,
    /// Reports legacy numeric full synchronization.
    LegacyFullSync,
    /// Reports legacy numeric incremental synchronization.
    LegacyIncrementalSync,
    /// Reports synchronization options with `openClose` disabled.
    OpenCloseFalse,
    /// Negotiates UTF-8 positions.
    Utf8Encoding,
    /// Negotiates UTF-32 positions.
    Utf32Encoding,
    /// Omits position encoding so clients must use the UTF-16 default.
    DefaultEncoding,
    /// Reports an unsupported future position encoding.
    UnsupportedEncoding,
    /// Returns legacy flat `SymbolInformation` records.
    FlatSymbols,
    /// Returns `null` for document symbols.
    NullSymbols,
    /// Returns a `selectionRange` outside the enclosing symbol range.
    InvalidSelectionRange,
    /// Returns a symbol whose enclosing range has its endpoints reversed.
    MalformedRange,
    /// Returns a hierarchical symbol with a future numeric kind.
    UnknownSymbolKind,
    /// Returns a deeply nested hierarchical symbol tree.
    DeepSymbols,
    /// Returns duplicate hierarchical symbols.
    DuplicateSymbols,
    /// Returns equal-range symbols with distinct hierarchical paths.
    AmbiguousSymbols,
    /// Sends a bounded burst of notifications during symbol lookup.
    NotificationFlood,
    /// Sends more notifications than the production per-selection limit.
    NotificationLimitExceeded,
    /// Returns ~120 well-formed nested symbols spanning several depths and kinds.
    ManySymbols,
    /// Returns more tiny distinct symbols than the outline emission bound.
    SymbolCountLimitExceeded,
    /// Returns a symbol whose name contains terminal-control characters.
    EscapedNameSymbols,
}

/// The stable command-line spelling of a scenario.
pub open spec fn scenario_text(value: FakeLspScenario) -> Seq<char> {
    match value {
        FakeLspScenario::Success => "success"@,
        FakeLspScenario::SuccessWithConfiguration => "success-with-configuration"@,
        FakeLspScenario::InitializeError => "initialize-error"@,
        FakeLspScenario::ExitAfterInitialize => "exit-after-initialize"@,
        FakeLspScenario::HangInitialize => "hang-initialize"@,
        FakeLspScenario::HangDocumentSymbols => "hang-document-symbols"@,
        FakeLspScenario::IgnoreShutdown => "ignore-shutdown"@,
        FakeLspScenario::IgnoreShutdownWithChild => "ignore-shutdown-with-child"@,
        FakeLspScenario::MalformedHeader => "malformed-header"@,
        FakeLspScenario::InvalidJson => "invalid-json"@,
        FakeLspScenario::UnknownResponseId => "unknown-response-id"@,
        FakeLspScenario::ResponseAndError => "response-and-error"@,
        FakeLspScenario::StderrFlood => "stderr-flood"@,
        FakeLspScenario::ServerRequests => "server-requests"@,
        FakeLspScenario::ServerRequestFlood => "server-request-flood"@,
        FakeLspScenario::NoDocumentSymbols => "no-document-symbols"@,
        FakeLspScenario::NoDocumentSync => "no-document-sync"@,
        FakeLspScenario::IncrementalSync => "incremental-sync"@,
        FakeLspScenario::LegacyFullSync => "legacy-full-sync"@,
        FakeLspScenario::LegacyIncrementalSync => "legacy-incremental-sync"@,
        FakeLspScenario::OpenCloseFalse => "open-close-false"@,
        FakeLspScenario::Utf8Encoding => "utf-8-encoding"@,
        FakeLspScenario::Utf32Encoding => "utf-32-encoding"@,
        FakeLspScenario::DefaultEncoding => "default-encoding"@,
        FakeLspScenario::UnsupportedEncoding => "unsupported-encoding"@,
        FakeLspScenario::FlatSymbols => "flat-symbols"@,
        FakeLspScenario::NullSymbols => "null-symbols"@,
        FakeLspScenario::InvalidSelectionRange => "invalid-selection-range"@,
        FakeLspScenario::MalformedRange => "malformed-range"@,
        FakeLspScenario::UnknownSymbolKind => "unknown-symbol-kind"@,
        FakeLspScenario::DeepSymbols => "deep-symbols"@,
        FakeLspScenario::DuplicateSymbols => "duplicate-symbols"@,
        FakeLspScenario::AmbiguousSymbols => "ambiguous-symbols"@,
        FakeLspScenario::NotificationFlood => "notification-flood"@,
        FakeLspScenario::NotificationLimitExceeded => "notification-limit-exceeded"@,
        FakeLspScenario::ManySymbols => "many-symbols"@,
        FakeLspScenario::SymbolCountLimitExceeded => "symbol-count-limit-exceeded"@,
        FakeLspScenario::EscapedNameSymbols => "escaped-name-symbols"@,
    }
}

impl FakeLspScenario {
    /// Returns every scenario.
    pub fn all() -> (values: Vec<Self>)
        ensures
            values@.len() == 38,
            forall|value: Self| values@.contains(value),
            values@.no_duplicates(),
    {
        let values = vec![
            FakeLspScenario::Success,
            FakeLspScenario::SuccessWithConfiguration,
            FakeLspScenario::InitializeError,
            FakeLspScenario::ExitAfterInitialize,
            FakeLspScenario::HangInitialize,
            FakeLspScenario::HangDocumentSymbols,
            FakeLspScenario::IgnoreShutdown,
            FakeLspScenario::IgnoreShutdownWithChild,
            FakeLspScenario::MalformedHeader,
            FakeLspScenario::InvalidJson,
            FakeLspScenario::UnknownResponseId,
            FakeLspScenario::ResponseAndError,
            FakeLspScenario::StderrFlood,
            FakeLspScenario::ServerRequests,
            FakeLspScenario::ServerRequestFlood,
            FakeLspScenario::NoDocumentSymbols,
            FakeLspScenario::NoDocumentSync,
            FakeLspScenario::IncrementalSync,
            FakeLspScenario::LegacyFullSync,
            FakeLspScenario::LegacyIncrementalSync,
            FakeLspScenario::OpenCloseFalse,
            FakeLspScenario::Utf8Encoding,
            FakeLspScenario::Utf32Encoding,
            FakeLspScenario::DefaultEncoding,
            FakeLspScenario::UnsupportedEncoding,
            FakeLspScenario::FlatSymbols,
            FakeLspScenario::NullSymbols,
            FakeLspScenario::InvalidSelectionRange,
            FakeLspScenario::MalformedRange,
            FakeLspScenario::UnknownSymbolKind,
            FakeLspScenario::DeepSymbols,
            FakeLspScenario::DuplicateSymbols,
            FakeLspScenario::AmbiguousSymbols,
            FakeLspScenario::NotificationFlood,
            FakeLspScenario::NotificationLimitExceeded,
            FakeLspScenario::ManySymbols,
            FakeLspScenario::SymbolCountLimitExceeded,
            FakeLspScenario::EscapedNameSymbols,
        ];
        proof {
            assert forall|value: Self| values@.contains(value) by {
                match value {
                    FakeLspScenario::Success => assert(values@[0] == value),
                    FakeLspScenario::SuccessWithConfiguration => assert(values@[1] == value),
                    FakeLspScenario::InitializeError => assert(values@[2] == value),
                    FakeLspScenario::ExitAfterInitialize => assert(values@[3] == value),
                    FakeLspScenario::HangInitialize => assert(values@[4] == value),
                    FakeLspScenario::HangDocumentSymbols => assert(values@[5] == value),
                    FakeLspScenario::IgnoreShutdown => assert(values@[6] == value),
                    FakeLspScenario::IgnoreShutdownWithChild => assert(values@[7] == value),
                    FakeLspScenario::MalformedHeader => assert(values@[8] == value),
                    FakeLspScenario::InvalidJson => assert(values@[9] == value),
                    FakeLspScenario::UnknownResponseId => assert(values@[10] == value),
                    FakeLspScenario::ResponseAndError => assert(values@[11] == value),
                    FakeLspScenario::StderrFlood => assert(values@[12] == value),
                    FakeLspScenario::ServerRequests => assert(values@[13] == value),
                    FakeLspScenario::ServerRequestFlood => assert(values@[14] == value),
                    FakeLspScenario::NoDocumentSymbols => assert(values@[15] == value),
                    FakeLspScenario::NoDocumentSync => assert(values@[16] == value),
                    FakeLspScenario::IncrementalSync => assert(values@[17] == value),
                    FakeLspScenario::LegacyFullSync => assert(values@[18] == value),
                    FakeLspScenario::LegacyIncrementalSync => assert(values@[19] == value),
                    FakeLspScenario::OpenCloseFalse => assert(values@[20] == value),
                    FakeLspScenario::Utf8Encoding => assert(values@[21] == value),
                    FakeLspScenario::Utf32Encoding => assert(values@[22] == value),
                    FakeLspScenario::DefaultEncoding => assert(values@[23] == value),
                    FakeLspScenario::UnsupportedEncoding => assert(values@[24] == value),
                    FakeLspScenario::FlatSymbols => assert(values@[25] == value),
                    FakeLspScenario::NullSymbols => assert(values@[26] == value),
                    FakeLspScenario::InvalidSelectionRange => assert(values@[27] == value),
                    FakeLspScenario::MalformedRange => assert(values@[28] == value),
                    FakeLspScenario::UnknownSymbolKind => assert(values@[29] == value),
                    FakeLspScenario::DeepSymbols => assert(values@[30] == value),
                    FakeLspScenario::DuplicateSymbols => assert(values@[31] == value),
                    FakeLspScenario::AmbiguousSymbols => assert(values@[32] == value),
                    FakeLspScenario::NotificationFlood => assert(values@[33] == value),
                    FakeLspScenario::NotificationLimitExceeded => assert(values@[34] == value),
                    FakeLspScenario::ManySymbols => assert(values@[35] == value),
                    FakeLspScenario::SymbolCountLimitExceeded => assert(values@[36] == value),
                    FakeLspScenario::EscapedNameSymbols => assert(values@[37] == value),
                }
            }
        }
        values
    }

    /// Returns the stable command-line spelling.
    pub fn as_str(self) -> (text: &'static str)
        ensures
            text@ == scenario_text(self),
    {
        match self {
            FakeLspScenario::Success => "success",
            FakeLspScenario::SuccessWithConfiguration => "success-with-configuration",
            FakeLspScenario::InitializeError => "initialize-error",
            FakeLspScenario::ExitAfterInitialize => "exit-after-initialize",
            FakeLspScenario::HangInitialize => "hang-initialize",
            FakeLspScenario::HangDocumentSymbols => "hang-document-symbols",
            FakeLspScenario::IgnoreShutdown => "ignore-shutdown",
            FakeLspScenario::IgnoreShutdownWithChild => "ignore-shutdown-with-child",
            FakeLspScenario::MalformedHeader => "malformed-header",
            FakeLspScenario::InvalidJson => "invalid-json",
            FakeLspScenario::UnknownResponseId => "unknown-response-id",
            FakeLspScenario::ResponseAndError => "response-and-error",
            FakeLspScenario::StderrFlood => "stderr-flood",
            FakeLspScenario::ServerRequests => "server-requests",
            FakeLspScenario::ServerRequestFlood => "server-request-flood",
            FakeLspScenario::NoDocumentSymbols => "no-document-symbols",
            FakeLspScenario::NoDocumentSync => "no-document-sync",
            FakeLspScenario::IncrementalSync => "incremental-sync",
            FakeLspScenario::LegacyFullSync => "legacy-full-sync",
            FakeLspScenario::LegacyIncrementalSync => "legacy-incremental-sync",
            FakeLspScenario::OpenCloseFalse => "open-close-false",
            FakeLspScenario::Utf8Encoding => "utf-8-encoding",
            FakeLspScenario::Utf32Encoding => "utf-32-encoding",
            FakeLspScenario::DefaultEncoding => "default-encoding",
            FakeLspScenario::UnsupportedEncoding => "unsupported-encoding",
            FakeLspScenario::FlatSymbols => "flat-symbols",
            FakeLspScenario::NullSymbols => "null-symbols",
            FakeLspScenario::InvalidSelectionRange => "invalid-selection-range",
            FakeLspScenario::MalformedRange => "malformed-range",
            FakeLspScenario::UnknownSymbolKind => "unknown-symbol-kind",
            FakeLspScenario::DeepSymbols => "deep-symbols",
            FakeLspScenario::DuplicateSymbols => "duplicate-symbols",
            FakeLspScenario::AmbiguousSymbols => "ambiguous-symbols",
            FakeLspScenario::NotificationFlood => "notification-flood",
            FakeLspScenario::NotificationLimitExceeded => "notification-limit-exceeded",
            FakeLspScenario::ManySymbols => "many-symbols",
            FakeLspScenario::SymbolCountLimitExceeded => "symbol-count-limit-exceeded",
            FakeLspScenario::EscapedNameSymbols => "escaped-name-symbols",
        }
    }

    /// Returns the scenario of a command-line spelling.
    pub fn parse(value: &str) -> (scenario: Result<Self, FakeLspError>)
        ensures
            match scenario {
                Ok(scenario) => scenario_text(scenario) == value@,
                Err(error) => error@ == "unknown fake LSP scenario `"@ + value@ + "`"@ && forall|
                    scenario: FakeLspScenario,
                | #[trigger] scenario_text(scenario) != value@,
            },
    {
        if text_equal(value, "success") {
            return Ok(FakeLspScenario::Success);
        }
        if text_equal(value, "success-with-configuration") {
            return Ok(FakeLspScenario::SuccessWithConfiguration);
        }
        if text_equal(value, "initialize-error") {
            return Ok(FakeLspScenario::InitializeError);
        }
        if text_equal(value, "exit-after-initialize") {
            return Ok(FakeLspScenario::ExitAfterInitialize);
        }
        if text_equal(value, "hang-initialize") {
            return Ok(FakeLspScenario::HangInitialize);
        }
        if text_equal(value, "hang-document-symbols") {
            return Ok(FakeLspScenario::HangDocumentSymbols);
        }
        if text_equal(value, "ignore-shutdown") {
            return Ok(FakeLspScenario::IgnoreShutdown);
        }
        if text_equal(value, "ignore-shutdown-with-child") {
            return Ok(FakeLspScenario::IgnoreShutdownWithChild);
        }
        if text_equal(value, "malformed-header") {
            return Ok(FakeLspScenario::MalformedHeader);
        }
        if text_equal(value, "invalid-json") {
            return Ok(FakeLspScenario::InvalidJson);
        }
        if text_equal(value, "unknown-response-id") {
            return Ok(FakeLspScenario::UnknownResponseId);
        }
        if text_equal(value, "response-and-error") {
            return Ok(FakeLspScenario::ResponseAndError);
        }
        if text_equal(value, "stderr-flood") {
            return Ok(FakeLspScenario::StderrFlood);
        }
        if text_equal(value, "server-requests") {
            return Ok(FakeLspScenario::ServerRequests);
        }
        if text_equal(value, "server-request-flood") {
            return Ok(FakeLspScenario::ServerRequestFlood);
        }
        if text_equal(value, "no-document-symbols") {
            return Ok(FakeLspScenario::NoDocumentSymbols);
        }
        if text_equal(value, "no-document-sync") {
            return Ok(FakeLspScenario::NoDocumentSync);
        }
        if text_equal(value, "incremental-sync") {
            return Ok(FakeLspScenario::IncrementalSync);
        }
        if text_equal(value, "legacy-full-sync") {
            return Ok(FakeLspScenario::LegacyFullSync);
        }
        if text_equal(value, "legacy-incremental-sync") {
            return Ok(FakeLspScenario::LegacyIncrementalSync);
        }
        if text_equal(value, "open-close-false") {
            return Ok(FakeLspScenario::OpenCloseFalse);
        }
        if text_equal(value, "utf-8-encoding") {
            return Ok(FakeLspScenario::Utf8Encoding);
        }
        if text_equal(value, "utf-32-encoding") {
            return Ok(FakeLspScenario::Utf32Encoding);
        }
        if text_equal(value, "default-encoding") {
            return Ok(FakeLspScenario::DefaultEncoding);
        }
        if text_equal(value, "unsupported-encoding") {
            return Ok(FakeLspScenario::UnsupportedEncoding);
        }
        if text_equal(value, "flat-symbols") {
            return Ok(FakeLspScenario::FlatSymbols);
        }
        if text_equal(value, "null-symbols") {
            return Ok(FakeLspScenario::NullSymbols);
        }
        if text_equal(value, "invalid-selection-range") {
            return Ok(FakeLspScenario::InvalidSelectionRange);
        }
        if text_equal(value, "malformed-range") {
            return Ok(FakeLspScenario::MalformedRange);
        }
        if text_equal(value, "unknown-symbol-kind") {
            return Ok(FakeLspScenario::UnknownSymbolKind);
        }
        if text_equal(value, "deep-symbols") {
            return Ok(FakeLspScenario::DeepSymbols);
        }
        if text_equal(value, "duplicate-symbols") {
            return Ok(FakeLspScenario::DuplicateSymbols);
        }
        if text_equal(value, "ambiguous-symbols") {
            return Ok(FakeLspScenario::AmbiguousSymbols);
        }
        if text_equal(value, "notification-flood") {
            return Ok(FakeLspScenario::NotificationFlood);
        }
        if text_equal(value, "notification-limit-exceeded") {
            return Ok(FakeLspScenario::NotificationLimitExceeded);
        }
        if text_equal(value, "many-symbols") {
            return Ok(FakeLspScenario::ManySymbols);
        }
        if text_equal(value, "symbol-count-limit-exceeded") {
            return Ok(FakeLspScenario::SymbolCountLimitExceeded);
        }
        if text_equal(value, "escaped-name-symbols") {
            return Ok(FakeLspScenario::EscapedNameSymbols);
        }
        let mut message = "unknown fake LSP scenario `".to_owned();
        message.append(value);
        message.append("`");
        Err(FakeLspError { message })
    }
}

impl std::str::FromStr for FakeLspScenario {
    type Err = FakeLspError;

    /// Returns the scenario of a spelling.
    fn from_str(value: &str) -> (scenario: Result<Self, FakeLspError>)
        ensures
            match scenario {
                Ok(scenario) => scenario_text(scenario) == value@,
                Err(error) => error@ == "unknown fake LSP scenario `"@ + value@ + "`"@ && forall|
                    scenario: FakeLspScenario,
                | #[trigger] scenario_text(scenario) != value@,
            },
    {
        FakeLspScenario::parse(value)
    }
}

/// Optional exact expectations of the `didOpen` notification.
#[derive(Clone, Debug, PartialEq, Eq)]
pub struct FakeLspExpectations {
    /// The expected document URI.
    pub document_uri: Option<String>,
    /// The expected language identifier.
    pub language_id: Option<String>,
    /// The expected document text.
    pub document_text: Option<String>,
}

impl Default for FakeLspExpectations {
    fn default() -> (expectations: Self)
        ensures
            expectations == (FakeLspExpectations {
                document_uri: None,
                language_id: None,
                document_text: None,
            }),
    {
        FakeLspExpectations { document_uri: None, language_id: None, document_text: None }
    }
}

/// A negative integer.
pub open spec fn negative_json(number: i64) -> JsonView {
    JsonView::Number(JsonNumberView::Negative(number))
}

/// The position encoding that a scenario reports.
pub open spec fn reported_encoding(scenario: FakeLspScenario) -> Seq<(Seq<char>, JsonView)> {
    match scenario {
        FakeLspScenario::DefaultEncoding => Seq::empty(),
        FakeLspScenario::Utf8Encoding => seq![
            ("positionEncoding"@, JsonView::String("utf-8"@)),
        ],
        FakeLspScenario::Utf32Encoding => seq![
            ("positionEncoding"@, JsonView::String("utf-32"@)),
        ],
        FakeLspScenario::UnsupportedEncoding => seq![
            ("positionEncoding"@, JsonView::String("fixture-encoding"@)),
        ],
        _ => seq![("positionEncoding"@, JsonView::String("utf-16"@))],
    }
}

/// Synchronization options.
pub open spec fn sync_options(open_close: bool, change: u64) -> JsonView {
    JsonView::Object(
        seq![
            ("openClose"@, JsonView::Bool(open_close)),
            ("change"@, json::number_json(change)),
        ],
    )
}

/// The synchronization that a scenario reports.
pub open spec fn reported_sync(scenario: FakeLspScenario) -> Seq<(Seq<char>, JsonView)> {
    match scenario {
        FakeLspScenario::NoDocumentSync => Seq::empty(),
        FakeLspScenario::IncrementalSync => seq![("textDocumentSync"@, sync_options(true, 2))],
        FakeLspScenario::LegacyFullSync => seq![("textDocumentSync"@, json::number_json(1))],
        FakeLspScenario::LegacyIncrementalSync => seq![
            ("textDocumentSync"@, json::number_json(2)),
        ],
        FakeLspScenario::OpenCloseFalse => seq![("textDocumentSync"@, sync_options(false, 1))],
        _ => seq![("textDocumentSync"@, sync_options(true, 1))],
    }
}

/// The document-symbol support that a scenario reports.
pub open spec fn reported_provider(scenario: FakeLspScenario) -> Seq<(Seq<char>, JsonView)> {
    if scenario == FakeLspScenario::NoDocumentSymbols {
        Seq::empty()
    } else {
        seq![("documentSymbolProvider"@, JsonView::Bool(true))]
    }
}

/// The result of `initialize`.
pub open spec fn initialize_json(scenario: FakeLspScenario) -> JsonView {
    JsonView::Object(
        seq![
            (
                "capabilities"@,
                JsonView::Object(
                    reported_encoding(scenario) + reported_sync(scenario) + reported_provider(
                        scenario,
                    ),
                ),
            ),
            (
                "serverInfo"@,
                JsonView::Object(
                    seq![
                        ("name"@, JsonView::String("srcmv-fake-lsp"@)),
                        ("version"@, JsonView::String("1"@)),
                    ],
                ),
            ),
        ],
    )
}

/// Returns synchronization options.
fn json_sync(open_close: bool, change: u64) -> (value: Json)
    ensures
        value@ == sync_options(open_close, change),
{
    let members = vec![
        named("openClose", Json::Bool(open_close)),
        named("change", json_number(change)),
    ];
    assert(json::members_view(members@) =~= sync_options(open_close, change)->Object_0);
    json_object(members)
}

/// Returns the result of `initialize`.
pub fn initialize_result(scenario: FakeLspScenario) -> (result: Json)
    ensures
        result@ == initialize_json(scenario),
{
    let mut capabilities: Vec<(String, Json)> = Vec::new();
    match scenario {
        FakeLspScenario::DefaultEncoding => {},
        FakeLspScenario::Utf8Encoding => {
            capabilities.push(named("positionEncoding", json_text("utf-8")));
        },
        FakeLspScenario::Utf32Encoding => {
            capabilities.push(named("positionEncoding", json_text("utf-32")));
        },
        FakeLspScenario::UnsupportedEncoding => {
            capabilities.push(named("positionEncoding", json_text("fixture-encoding")));
        },
        _ => {
            capabilities.push(named("positionEncoding", json_text("utf-16")));
        },
    }
    assert(json::members_view(capabilities@) =~= reported_encoding(scenario));
    match scenario {
        FakeLspScenario::NoDocumentSync => {},
        FakeLspScenario::IncrementalSync => {
            capabilities.push(named("textDocumentSync", json_sync(true, 2)));
        },
        FakeLspScenario::LegacyFullSync => {
            capabilities.push(named("textDocumentSync", json_number(1)));
        },
        FakeLspScenario::LegacyIncrementalSync => {
            capabilities.push(named("textDocumentSync", json_number(2)));
        },
        FakeLspScenario::OpenCloseFalse => {
            capabilities.push(named("textDocumentSync", json_sync(false, 1)));
        },
        _ => {
            capabilities.push(named("textDocumentSync", json_sync(true, 1)));
        },
    }
    assert(json::members_view(capabilities@) =~= reported_encoding(scenario) + reported_sync(
        scenario,
    ));
    if scenario != FakeLspScenario::NoDocumentSymbols {
        capabilities.push(named("documentSymbolProvider", Json::Bool(true)));
    }
    assert(json::members_view(capabilities@) =~= reported_encoding(scenario) + reported_sync(
        scenario,
    ) + reported_provider(scenario));
    let info = vec![
        named("name", json_text("srcmv-fake-lsp")),
        named("version", json_text("1")),
    ];
    assert(json::members_view(info@) =~= initialize_json(scenario)->Object_0[1].1->Object_0);
    let members = vec![
        named("capabilities", json_object(capabilities)),
        named("serverInfo", json_object(info)),
    ];
    assert(json::members_view(members@) =~= initialize_json(scenario)->Object_0);
    json_object(members)
}

/// A raw position.
pub open spec fn point_json(line: u32, character: u32) -> JsonView {
    JsonView::Object(
        seq![
            ("line"@, json::number_json(line as u64)),
            ("character"@, json::number_json(character as u64)),
        ],
    )
}

/// A raw range.
pub open spec fn range_json(
    start_line: u32,
    start_character: u32,
    end_line: u32,
    end_character: u32,
) -> JsonView {
    JsonView::Object(
        seq![
            ("start"@, point_json(start_line, start_character)),
            ("end"@, point_json(end_line, end_character)),
        ],
    )
}

/// Returns a raw position.
fn point(line: u32, character: u32) -> (value: Json)
    ensures
        value@ == point_json(line, character),
{
    let members = vec![
        named("line", json_number(line as u64)),
        named("character", json_number(character as u64)),
    ];
    assert(json::members_view(members@) =~= point_json(line, character)->Object_0);
    json_object(members)
}

/// Returns a raw range.
fn range(start_line: u32, start_character: u32, end_line: u32, end_character: u32) -> (value: Json)
    ensures
        value@ == range_json(start_line, start_character, end_line, end_character),
{
    let members = vec![
        named("start", point(start_line, start_character)),
        named("end", point(end_line, end_character)),
    ];
    assert(json::members_view(members@) =~= range_json(
        start_line,
        start_character,
        end_line,
        end_character,
    )->Object_0);
    json_object(members)
}

/// A hierarchical symbol; a detail and children where they are given.
pub open spec fn symbol_json(
    name: Seq<char>,
    detail: Option<Seq<char>>,
    kind: u64,
    range: JsonView,
    selection_range: JsonView,
    children: Option<Seq<JsonView>>,
) -> JsonView {
    JsonView::Object(
        seq![("name"@, JsonView::String(name))] + (match detail {
            Some(detail) => seq![("detail"@, JsonView::String(detail))],
            None => Seq::empty(),
        }) + seq![
            ("kind"@, json::number_json(kind)),
            ("range"@, range),
            ("selectionRange"@, selection_range),
        ] + (match children {
            Some(children) => seq![("children"@, JsonView::Array(children))],
            None => Seq::empty(),
        }),
    )
}

/// The values of an optional list.
pub open spec fn children_view(children: Option<Vec<Json>>) -> Option<Seq<JsonView>> {
    match children {
        Some(children) => Some(json::items_view(children@)),
        None => None,
    }
}

/// The value of an optional text.
pub open spec fn detail_view(detail: Option<&str>) -> Option<Seq<char>> {
    match detail {
        Some(detail) => Some(detail@),
        None => None,
    }
}

/// Returns a hierarchical symbol.
fn symbol(
    name: &str,
    detail: Option<&str>,
    kind: u64,
    range: Json,
    selection_range: Json,
    children: Option<Vec<Json>>,
) -> (value: Json)
    ensures
        value@ == symbol_json(
            name@,
            detail_view(detail),
            kind,
            range@,
            selection_range@,
            children_view(children),
        ),
{
    let ghost expected = symbol_json(
        name@,
        detail_view(detail),
        kind,
        range@,
        selection_range@,
        children_view(children),
    );
    let mut members = vec![named("name", json_text(name))];
    if let Some(detail) = detail {
        members.push(named("detail", json_text(detail)));
    }
    members.push(named("kind", json_number(kind)));
    members.push(named("range", range));
    members.push(named("selectionRange", selection_range));
    if let Some(children) = children {
        members.push(named("children", json_array(children)));
    }
    assert(json::members_view(members@) =~= expected->Object_0);
    json_object(members)
}

/// The function symbol of the fixture.
pub open spec fn alpha_json() -> JsonView {
    symbol_json(
        "alpha"@,
        Some("fixture function"@),
        12,
        range_json(3, 4, 5, 5),
        range_json(3, 11, 3, 16),
        None,
    )
}

/// Returns the function symbol of the fixture.
fn alpha_symbol() -> (value: Json)
    ensures
        value@ == alpha_json(),
{
    symbol(
        "alpha",
        Some("fixture function"),
        12,
        range(3, 4, 5, 5),
        range(3, 11, 3, 16),
        None,
    )
}

/// The function symbol under `depth` nested modules; the outermost module is
/// at level `level`.
pub open spec fn nested_json(level: nat, depth: nat) -> JsonView
    decreases depth,
{
    if depth == 0 {
        alpha_json()
    } else {
        symbol_json(
            "Level"@ + text::decimal(level),
            None,
            3,
            range_json(2, 0, 6, 1),
            range_json(2, 0, 2, 1),
            Some(seq![nested_json(level + 1, (depth - 1) as nat)]),
        )
    }
}

/// Returns one tree of `depth` nested modules around the function symbol.
fn deep_symbols(depth: usize) -> (value: Json)
    ensures
        value@ == JsonView::Array(seq![nested_json(0, depth as nat)]),
{
    let mut tree = alpha_symbol();
    let mut level: usize = depth;
    while level > 0
        invariant
            level <= depth,
            tree@ == nested_json(level as nat, (depth - level) as nat),
        decreases level,
    {
        level = level - 1;
        let mut name = "Level".to_owned();
        push_decimal(&mut name, level as u64);
        let children = vec![tree];
        assert(json::items_view(children@) =~= seq![
            nested_json((level + 1) as nat, (depth - level - 1) as nat),
        ]);
        tree = symbol(
            name.as_str(),
            None,
            3,
            range(2, 0, 6, 1),
            range(2, 0, 2, 1),
            Some(children),
        );
    }
    let items = vec![tree];
    assert(json::items_view(items@) =~= seq![nested_json(0, depth as nat)]);
    json_array(items)
}

/// Three parts of a name, with underscores between the numbers.
pub open spec fn numbered(prefix: Seq<char>, numbers: Seq<nat>) -> Seq<char>
    decreases numbers.len(),
{
    if numbers.len() == 0 {
        prefix
    } else if numbers.len() == 1 {
        prefix + text::decimal(numbers[0])
    } else {
        numbered(prefix, numbers.drop_last()) + "_"@ + text::decimal(numbers.last())
    }
}

/// One function of the large fixture.
pub open spec fn many_function(group: u32, module: u32, index: u32) -> JsonView {
    let line = (12 * group + 1 + 3 * module + index) as u32;
    symbol_json(
        numbered("Fn"@, seq![group as nat, module as nat, index as nat]),
        None,
        12,
        range_json(line, 4, line, 20),
        range_json(line, 8, line, 12),
        None,
    )
}

/// One module of the large fixture, with its two functions.
pub open spec fn many_module(group: u32, module: u32) -> JsonView {
    let line = (12 * group + 1 + 3 * module) as u32;
    symbol_json(
        numbered("Module"@, seq![group as nat, module as nat]),
        None,
        2,
        range_json(line, 2, (line + 2) as u32, 3),
        range_json(line, 8, line, 10),
        Some(seq![many_function(group, module, 0), many_function(group, module, 1)]),
    )
}

/// One class of the large fixture, with its three modules.
pub open spec fn many_group(group: u32) -> JsonView {
    let line = (12 * group) as u32;
    symbol_json(
        numbered("Group"@, seq![group as nat]),
        None,
        5,
        range_json(line, 0, (line + 11) as u32, 1),
        range_json(line, 6, line, 11),
        Some(seq![many_module(group, 0), many_module(group, 1), many_module(group, 2)]),
    )
}

/// Returns one function of the large fixture.
fn build_function(group: u32, module: u32, index: u32) -> (value: Json)
    requires
        group < 12,
        module < 3,
        index < 2,
    ensures
        value@ == many_function(group, module, index),
{
    let line: u32 = 12 * group + 1 + 3 * module + index;
    let mut name = "Fn".to_owned();
    push_decimal(&mut name, group as u64);
    name.append("_");
    push_decimal(&mut name, module as u64);
    name.append("_");
    push_decimal(&mut name, index as u64);
    proof {
        let numbers = seq![group as nat, module as nat, index as nat];
        assert(numbers.drop_last() =~= seq![group as nat, module as nat]);
        assert(numbers.drop_last().drop_last() =~= seq![group as nat]);
        reveal_with_fuel(numbered, 3);
        assert(name@ =~= numbered("Fn"@, numbers));
    }
    symbol(name.as_str(), None, 12, range(line, 4, line, 20), range(line, 8, line, 12), None)
}

/// Returns one module of the large fixture.
fn build_module(group: u32, module: u32) -> (value: Json)
    requires
        group < 12,
        module < 3,
    ensures
        value@ == many_module(group, module),
{
    let line: u32 = 12 * group + 1 + 3 * module;
    let mut name = "Module".to_owned();
    push_decimal(&mut name, group as u64);
    name.append("_");
    push_decimal(&mut name, module as u64);
    let functions = vec![build_function(group, module, 0), build_function(group, module, 1)];
    proof {
        let numbers = seq![group as nat, module as nat];
        assert(numbers.drop_last() =~= seq![group as nat]);
        reveal_with_fuel(numbered, 3);
        assert(name@ =~= numbered("Module"@, numbers));
        assert(json::items_view(functions@) =~= seq![
            many_function(group, module, 0),
            many_function(group, module, 1),
        ]);
    }
    symbol(
        name.as_str(),
        None,
        2,
        range(line, 2, line + 2, 3),
        range(line, 8, line, 10),
        Some(functions),
    )
}

/// Returns one class of the large fixture.
fn build_group(group: u32) -> (value: Json)
    requires
        group < 12,
    ensures
        value@ == many_group(group),
{
    let line: u32 = 12 * group;
    let mut name = "Group".to_owned();
    push_decimal(&mut name, group as u64);
    let modules = vec![build_module(group, 0), build_module(group, 1), build_module(group, 2)];
    proof {
        assert(name@ =~= numbered("Group"@, seq![group as nat]));
        assert(json::items_view(modules@) =~= seq![
            many_module(group, 0),
            many_module(group, 1),
            many_module(group, 2),
        ]);
    }
    symbol(
        name.as_str(),
        None,
        5,
        range(line, 0, line + 11, 1),
        range(line, 6, line, 11),
        Some(modules),
    )
}

/// Returns the large fixture: twelve classes, each with three modules of two
/// functions.
fn many_symbols() -> (value: Json)
    ensures
        value@ == JsonView::Array(Seq::new(12, |i: int| many_group(i as u32))),
{
    let mut groups: Vec<Json> = Vec::new();
    let mut group: u32 = 0;
    while group < 12
        invariant
            group <= 12,
            groups@.len() == group,
            forall|i: int| 0 <= i < group ==> (#[trigger] groups@[i])@ == many_group(i as u32),
        decreases 12 - group,
    {
        groups.push(build_group(group));
        group = group + 1;
    }
    assert(json::items_view(groups@) =~= Seq::new(12, |i: int| many_group(i as u32)));
    json_array(groups)
}

/// One of many tiny symbols.
pub open spec fn tiny_symbol(index: nat) -> JsonView {
    symbol_json(
        "s"@ + text::decimal(index),
        None,
        12,
        range_json(0, 0, 0, 1),
        range_json(0, 0, 0, 1),
        None,
    )
}

/// Returns more tiny symbols than an outline accepts.
fn symbol_count_limit_exceeded() -> (value: Json)
    ensures
        value@ == JsonView::Array(
            Seq::new(OUTLINE_LIMIT_SYMBOL_COUNT as nat, |i: int| tiny_symbol(i as nat)),
        ),
{
    let mut items: Vec<Json> = Vec::new();
    let mut index: usize = 0;
    while index < OUTLINE_LIMIT_SYMBOL_COUNT
        invariant
            index <= OUTLINE_LIMIT_SYMBOL_COUNT,
            items@.len() == index,
            forall|i: int| 0 <= i < index ==> (#[trigger] items@[i])@ == tiny_symbol(i as nat),
        decreases OUTLINE_LIMIT_SYMBOL_COUNT - index,
    {
        let mut name = "s".to_owned();
        push_decimal(&mut name, index as u64);
        items.push(symbol(name.as_str(), None, 12, range(0, 0, 0, 1), range(0, 0, 0, 1), None));
        index = index + 1;
    }
    assert(json::items_view(items@) =~= Seq::new(
        OUTLINE_LIMIT_SYMBOL_COUNT as nat,
        |i: int| tiny_symbol(i as nat),
    ));
    json_array(items)
}

/// A legacy flat symbol.
pub open spec fn flat_json(uri: Seq<char>) -> JsonView {
    JsonView::Object(
        seq![
            ("name"@, JsonView::String("alpha"@)),
            ("kind"@, json::number_json(12)),
            (
                "location"@,
                JsonView::Object(
                    seq![("uri"@, JsonView::String(uri)), ("range"@, range_json(3, 4, 5, 5))],
                ),
            ),
        ],
    )
}

/// The namespace of an ambiguous fixture.
pub open spec fn namespace_json(name: Seq<char>, reveal_end: u32) -> JsonView {
    symbol_json(
        name,
        None,
        3,
        range_json(2, 0, 6, 1),
        range_json(2, 0, 2, reveal_end),
        Some(seq![alpha_json()]),
    )
}

/// The class symbol of the fixture, with its function.
pub open spec fn outer_json() -> JsonView {
    symbol_json(
        "Outer"@,
        Some("fixture class"@),
        5,
        range_json(2, 0, 6, 1),
        range_json(2, 5, 2, 10),
        Some(seq![alpha_json()]),
    )
}

/// The document symbols that a scenario serves.
pub open spec fn symbols_json(scenario: FakeLspScenario, uri: Seq<char>) -> JsonView {
    match scenario {
        FakeLspScenario::FlatSymbols => JsonView::Array(seq![flat_json(uri)]),
        FakeLspScenario::NullSymbols => JsonView::Null,
        FakeLspScenario::InvalidSelectionRange => JsonView::Array(
            seq![
                symbol_json(
                    "alpha"@,
                    None,
                    12,
                    range_json(3, 4, 5, 5),
                    range_json(2, 0, 2, 4),
                    None,
                ),
            ],
        ),
        FakeLspScenario::MalformedRange => JsonView::Array(
            seq![
                symbol_json(
                    "alpha"@,
                    None,
                    12,
                    range_json(5, 5, 3, 4),
                    range_json(3, 11, 3, 16),
                    None,
                ),
            ],
        ),
        FakeLspScenario::UnknownSymbolKind => JsonView::Array(
            seq![
                symbol_json(
                    "alpha"@,
                    None,
                    999,
                    range_json(3, 4, 5, 5),
                    range_json(3, 11, 3, 16),
                    None,
                ),
            ],
        ),
        FakeLspScenario::DeepSymbols => JsonView::Array(seq![nested_json(0, 64)]),
        FakeLspScenario::DuplicateSymbols => JsonView::Array(seq![alpha_json(), alpha_json()]),
        FakeLspScenario::ManySymbols => JsonView::Array(
            Seq::new(12, |i: int| many_group(i as u32)),
        ),
        FakeLspScenario::SymbolCountLimitExceeded => JsonView::Array(
            Seq::new(OUTLINE_LIMIT_SYMBOL_COUNT as nat, |i: int| tiny_symbol(i as nat)),
        ),
        FakeLspScenario::EscapedNameSymbols => JsonView::Array(
            seq![
                symbol_json(
                    "bad\u{1b}name"@,
                    None,
                    5,
                    range_json(2, 0, 6, 1),
                    range_json(2, 0, 2, 3),
                    None,
                ),
            ],
        ),
        FakeLspScenario::AmbiguousSymbols => JsonView::Array(
            seq![namespace_json("First"@, 5), namespace_json("Second"@, 6)],
        ),
        _ => JsonView::Array(seq![outer_json()]),
    }
}

/// Returns an array of one item.
fn single(item: Json) -> (value: Json)
    ensures
        value@ == JsonView::Array(seq![item@]),
{
    let items = vec![item];
    assert(json::items_view(items@) =~= seq![item@]);
    json_array(items)
}

/// Returns a list that holds the function symbol of the fixture.
fn alpha_children() -> (children: Vec<Json>)
    ensures
        json::items_view(children@) == seq![alpha_json()],
{
    let children = vec![alpha_symbol()];
    assert(json::items_view(children@) =~= seq![alpha_json()]);
    children
}

/// Returns a legacy flat symbol.
fn flat_symbol(document_uri: &str) -> (value: Json)
    ensures
        value@ == flat_json(document_uri@),
{
    let location = vec![named("uri", json_text(document_uri)), named("range", range(3, 4, 5, 5))];
    assert(json::members_view(location@) =~= flat_json(
        document_uri@,
    )->Object_0[2].1->Object_0);
    let members = vec![
        named("name", json_text("alpha")),
        named("kind", json_number(12)),
        named("location", json_object(location)),
    ];
    assert(json::members_view(members@) =~= flat_json(document_uri@)->Object_0);
    json_object(members)
}

/// Returns the document symbols that a scenario serves.
pub fn symbol_result(scenario: FakeLspScenario, document_uri: &str) -> (result: Json)
    ensures
        result@ == symbols_json(scenario, document_uri@),
{
    match scenario {
        FakeLspScenario::FlatSymbols => single(flat_symbol(document_uri)),
        FakeLspScenario::NullSymbols => Json::Null,
        FakeLspScenario::InvalidSelectionRange => single(
            symbol("alpha", None, 12, range(3, 4, 5, 5), range(2, 0, 2, 4), None),
        ),
        FakeLspScenario::MalformedRange => single(
            symbol("alpha", None, 12, range(5, 5, 3, 4), range(3, 11, 3, 16), None),
        ),
        FakeLspScenario::UnknownSymbolKind => single(
            symbol("alpha", None, 999, range(3, 4, 5, 5), range(3, 11, 3, 16), None),
        ),
        FakeLspScenario::DeepSymbols => deep_symbols(64),
        FakeLspScenario::DuplicateSymbols => {
            let items = vec![alpha_symbol(), alpha_symbol()];
            assert(json::items_view(items@) =~= seq![alpha_json(), alpha_json()]);
            json_array(items)
        },
        FakeLspScenario::ManySymbols => many_symbols(),
        FakeLspScenario::SymbolCountLimitExceeded => symbol_count_limit_exceeded(),
        FakeLspScenario::EscapedNameSymbols => single(
            symbol("bad\u{1b}name", None, 5, range(2, 0, 6, 1), range(2, 0, 2, 3), None),
        ),
        FakeLspScenario::AmbiguousSymbols => {
            let items = vec![
                symbol(
                    "First",
                    None,
                    3,
                    range(2, 0, 6, 1),
                    range(2, 0, 2, 5),
                    Some(alpha_children()),
                ),
                symbol(
                    "Second",
                    None,
                    3,
                    range(2, 0, 6, 1),
                    range(2, 0, 2, 6),
                    Some(alpha_children()),
                ),
            ];
            assert(json::items_view(items@) =~= seq![
                namespace_json("First"@, 5),
                namespace_json("Second"@, 6),
            ]);
            json_array(items)
        },
        _ => single(
            symbol(
                "Outer",
                Some("fixture class"),
                5,
                range(2, 0, 6, 1),
                range(2, 5, 2, 10),
                Some(alpha_children()),
            ),
        ),
    }
}

/// No two scenarios share a spelling, so the spelling of a scenario parses to that
/// scenario only.
pub proof fn law_scenario_spellings_are_unique(left: FakeLspScenario, right: FakeLspScenario)
    requires
        scenario_text(left) == scenario_text(right),
    ensures
        left == right,
{
    reveal_strlit("success");
    reveal_strlit("success-with-configuration");
    reveal_strlit("initialize-error");
    reveal_strlit("exit-after-initialize");
    reveal_strlit("hang-initialize");
    reveal_strlit("hang-document-symbols");
    reveal_strlit("ignore-shutdown");
    reveal_strlit("ignore-shutdown-with-child");
    reveal_strlit("malformed-header");
    reveal_strlit("invalid-json");
    reveal_strlit("unknown-response-id");
    reveal_strlit("response-and-error");
    reveal_strlit("stderr-flood");
    reveal_strlit("server-requests");
    reveal_strlit("server-request-flood");
    reveal_strlit("no-document-symbols");
    reveal_strlit("no-document-sync");
    reveal_strlit("incremental-sync");
    reveal_strlit("legacy-full-sync");
    reveal_strlit("legacy-incremental-sync");
    reveal_strlit("open-close-false");
    reveal_strlit("utf-8-encoding");
    reveal_strlit("utf-32-encoding");
    reveal_strlit("default-encoding");
    reveal_strlit("unsupported-encoding");
    reveal_strlit("flat-symbols");
    reveal_strlit("null-symbols");
    reveal_strlit("invalid-selection-range");
    reveal_strlit("malformed-range");
    reveal_strlit("unknown-symbol-kind");
    reveal_strlit("deep-symbols");
    reveal_strlit("duplicate-symbols");
    reveal_strlit("ambiguous-symbols");
    reveal_strlit("notification-flood");
    reveal_strlit("notification-limit-exceeded");
    reveal_strlit("many-symbols");
    reveal_strlit("symbol-count-limit-exceeded");
    reveal_strlit("escaped-name-symbols");
    let length = scenario_text(left).len();
    assert(length == scenario_text(right).len());
    assert("success"@.len() == 7);
    assert("success-with-configuration"@.len() == 26);
    assert("initialize-error"@.len() == 16);
    assert("exit-after-initialize"@.len() == 21);
    assert("hang-initialize"@.len() == 15);
    assert("hang-document-symbols"@.len() == 21);
    assert("ignore-shutdown"@.len() == 15);
    assert("ignore-shutdown-with-child"@.len() == 26);
    assert("malformed-header"@.len() == 16);
    assert("invalid-json"@.len() == 12);
    assert("unknown-response-id"@.len() == 19);
    assert("response-and-error"@.len() == 18);
    assert("stderr-flood"@.len() == 12);
    assert("server-requests"@.len() == 15);
    assert("server-request-flood"@.len() == 20);
    assert("no-document-symbols"@.len() == 19);
    assert("no-document-sync"@.len() == 16);
    assert("incremental-sync"@.len() == 16);
    assert("legacy-full-sync"@.len() == 16);
    assert("legacy-incremental-sync"@.len() == 23);
    assert("open-close-false"@.len() == 16);
    assert("utf-8-encoding"@.len() == 14);
    assert("utf-32-encoding"@.len() == 15);
    assert("default-encoding"@.len() == 16);
    assert("unsupported-encoding"@.len() == 20);
    assert("flat-symbols"@.len() == 12);
    assert("null-symbols"@.len() == 12);
    assert("invalid-selection-range"@.len() == 23);
    assert("malformed-range"@.len() == 15);
    assert("unknown-symbol-kind"@.len() == 19);
    assert("deep-symbols"@.len() == 12);
    assert("duplicate-symbols"@.len() == 17);
    assert("ambiguous-symbols"@.len() == 17);
    assert("notification-flood"@.len() == 18);
    assert("notification-limit-exceeded"@.len() == 27);
    assert("many-symbols"@.len() == 12);
    assert("symbol-count-limit-exceeded"@.len() == 27);
    assert("escaped-name-symbols"@.len() == 20);
    assert("success-with-configuration"@[0] != "ignore-shutdown-with-child"@[0] && "success-with-configuration"@ != "ignore-shutdown-with-child"@);
    assert("initialize-error"@[0] != "malformed-header"@[0] && "initialize-error"@ != "malformed-header"@);
    assert("initialize-error"@[0] != "no-document-sync"@[0] && "initialize-error"@ != "no-document-sync"@);
    assert("initialize-error"@[2] != "incremental-sync"@[2] && "initialize-error"@ != "incremental-sync"@);
    assert("initialize-error"@[0] != "legacy-full-sync"@[0] && "initialize-error"@ != "legacy-full-sync"@);
    assert("initialize-error"@[0] != "open-close-false"@[0] && "initialize-error"@ != "open-close-false"@);
    assert("initialize-error"@[0] != "default-encoding"@[0] && "initialize-error"@ != "default-encoding"@);
    assert("exit-after-initialize"@[0] != "hang-document-symbols"@[0] && "exit-after-initialize"@ != "hang-document-symbols"@);
    assert("hang-initialize"@[0] != "ignore-shutdown"@[0] && "hang-initialize"@ != "ignore-shutdown"@);
    assert("hang-initialize"@[0] != "server-requests"@[0] && "hang-initialize"@ != "server-requests"@);
    assert("hang-initialize"@[0] != "utf-32-encoding"@[0] && "hang-initialize"@ != "utf-32-encoding"@);
    assert("hang-initialize"@[0] != "malformed-range"@[0] && "hang-initialize"@ != "malformed-range"@);
    assert("ignore-shutdown"@[0] != "server-requests"@[0] && "ignore-shutdown"@ != "server-requests"@);
    assert("ignore-shutdown"@[0] != "utf-32-encoding"@[0] && "ignore-shutdown"@ != "utf-32-encoding"@);
    assert("ignore-shutdown"@[0] != "malformed-range"@[0] && "ignore-shutdown"@ != "malformed-range"@);
    assert("malformed-header"@[0] != "no-document-sync"@[0] && "malformed-header"@ != "no-document-sync"@);
    assert("malformed-header"@[0] != "incremental-sync"@[0] && "malformed-header"@ != "incremental-sync"@);
    assert("malformed-header"@[0] != "legacy-full-sync"@[0] && "malformed-header"@ != "legacy-full-sync"@);
    assert("malformed-header"@[0] != "open-close-false"@[0] && "malformed-header"@ != "open-close-false"@);
    assert("malformed-header"@[0] != "default-encoding"@[0] && "malformed-header"@ != "default-encoding"@);
    assert("invalid-json"@[0] != "stderr-flood"@[0] && "invalid-json"@ != "stderr-flood"@);
    assert("invalid-json"@[0] != "flat-symbols"@[0] && "invalid-json"@ != "flat-symbols"@);
    assert("invalid-json"@[0] != "null-symbols"@[0] && "invalid-json"@ != "null-symbols"@);
    assert("invalid-json"@[0] != "deep-symbols"@[0] && "invalid-json"@ != "deep-symbols"@);
    assert("invalid-json"@[0] != "many-symbols"@[0] && "invalid-json"@ != "many-symbols"@);
    assert("unknown-response-id"@[0] != "no-document-symbols"@[0] && "unknown-response-id"@ != "no-document-symbols"@);
    assert("unknown-response-id"@[8] != "unknown-symbol-kind"@[8] && "unknown-response-id"@ != "unknown-symbol-kind"@);
    assert("response-and-error"@[0] != "notification-flood"@[0] && "response-and-error"@ != "notification-flood"@);
    assert("stderr-flood"@[0] != "flat-symbols"@[0] && "stderr-flood"@ != "flat-symbols"@);
    assert("stderr-flood"@[0] != "null-symbols"@[0] && "stderr-flood"@ != "null-symbols"@);
    assert("stderr-flood"@[0] != "deep-symbols"@[0] && "stderr-flood"@ != "deep-symbols"@);
    assert("stderr-flood"@[0] != "many-symbols"@[0] && "stderr-flood"@ != "many-symbols"@);
    assert("server-requests"@[0] != "utf-32-encoding"@[0] && "server-requests"@ != "utf-32-encoding"@);
    assert("server-requests"@[0] != "malformed-range"@[0] && "server-requests"@ != "malformed-range"@);
    assert("server-request-flood"@[0] != "unsupported-encoding"@[0] && "server-request-flood"@ != "unsupported-encoding"@);
    assert("server-request-flood"@[0] != "escaped-name-symbols"@[0] && "server-request-flood"@ != "escaped-name-symbols"@);
    assert("no-document-symbols"@[0] != "unknown-symbol-kind"@[0] && "no-document-symbols"@ != "unknown-symbol-kind"@);
    assert("no-document-sync"@[0] != "incremental-sync"@[0] && "no-document-sync"@ != "incremental-sync"@);
    assert("no-document-sync"@[0] != "legacy-full-sync"@[0] && "no-document-sync"@ != "legacy-full-sync"@);
    assert("no-document-sync"@[0] != "open-close-false"@[0] && "no-document-sync"@ != "open-close-false"@);
    assert("no-document-sync"@[0] != "default-encoding"@[0] && "no-document-sync"@ != "default-encoding"@);
    assert("incremental-sync"@[0] != "legacy-full-sync"@[0] && "incremental-sync"@ != "legacy-full-sync"@);
    assert("incremental-sync"@[0] != "open-close-false"@[0] && "incremental-sync"@ != "open-close-false"@);
    assert("incremental-sync"@[0] != "default-encoding"@[0] && "incremental-sync"@ != "default-encoding"@);
    assert("legacy-full-sync"@[0] != "open-close-false"@[0] && "legacy-full-sync"@ != "open-close-false"@);
    assert("legacy-full-sync"@[0] != "default-encoding"@[0] && "legacy-full-sync"@ != "default-encoding"@);
    assert("legacy-incremental-sync"@[0] != "invalid-selection-range"@[0] && "legacy-incremental-sync"@ != "invalid-selection-range"@);
    assert("open-close-false"@[0] != "default-encoding"@[0] && "open-close-false"@ != "default-encoding"@);
    assert("utf-32-encoding"@[0] != "malformed-range"@[0] && "utf-32-encoding"@ != "malformed-range"@);
    assert("unsupported-encoding"@[0] != "escaped-name-symbols"@[0] && "unsupported-encoding"@ != "escaped-name-symbols"@);
    assert("flat-symbols"@[0] != "null-symbols"@[0] && "flat-symbols"@ != "null-symbols"@);
    assert("flat-symbols"@[0] != "deep-symbols"@[0] && "flat-symbols"@ != "deep-symbols"@);
    assert("flat-symbols"@[0] != "many-symbols"@[0] && "flat-symbols"@ != "many-symbols"@);
    assert("null-symbols"@[0] != "deep-symbols"@[0] && "null-symbols"@ != "deep-symbols"@);
    assert("null-symbols"@[0] != "many-symbols"@[0] && "null-symbols"@ != "many-symbols"@);
    assert("deep-symbols"@[0] != "many-symbols"@[0] && "deep-symbols"@ != "many-symbols"@);
    assert("duplicate-symbols"@[0] != "ambiguous-symbols"@[0] && "duplicate-symbols"@ != "ambiguous-symbols"@);
    assert("notification-limit-exceeded"@[0] != "symbol-count-limit-exceeded"@[0] && "notification-limit-exceeded"@ != "symbol-count-limit-exceeded"@);
}


} // verus!
