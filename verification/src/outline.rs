//! The read-only outline protocol: its records, its errors, and its lines.

use vstd::prelude::*;
use vstd::string::StringExecFns;

use crate::digest;
use crate::digest::Sha256Digest;
use crate::json;
use crate::json::{json_array, json_number, json_object, json_text, named, Json, JsonView};
use crate::order;
use crate::selection;
use crate::selection::{
    SelectionByteSelectorDto, SelectionLspRangeDto, SelectionServerDto, SelectionSourceDto,
    SelectionSymbolKindDto,
};
use crate::text;
use crate::text_map;
use crate::text_map::TextMap;
use crate::wire;
use crate::wire::{
    copy_members, json_optional_number, json_optional_text, json_texts, json_warnings,
    text_from_utf8, write_bounded_json_line, BoundedJsonLineFailure, WarningDto,
    MAX_RESPONSE_BYTES,
};

verus! {

/// The only read-only outline protocol version.
pub const OUTLINE_PROTOCOL_VERSION: u64 = 1;

/// One flattened document symbol in a successful outline response.
#[derive(Clone, Debug, PartialEq, Eq)]
pub struct OutlineSymbolDto {
    /// The unqualified symbol name.
    pub name: String,
    /// The normalized symbol kind.
    pub symbol_kind: SelectionSymbolKindDto,
    /// The breadcrumb from the root symbol to this one.
    pub symbol_path: Vec<String>,
    /// The hierarchy depth; roots are at zero.
    pub depth: u64,
    /// The server-provided detail.
    pub detail: Option<String>,
    /// The one-based physical line of the start.
    pub start_line: u64,
    /// The one-based Unicode-scalar column of the start.
    pub start_column: Option<u64>,
    /// The one-based physical line containing the end.
    pub end_line: u64,
    /// The one-based Unicode-scalar column just past the end.
    pub end_column: Option<u64>,
    /// The raw enclosing range.
    pub lsp_range: SelectionLspRangeDto,
    /// The raw reveal range.
    pub lsp_selection_range: SelectionLspRangeDto,
    /// The enclosing range's bytes.
    pub selector: SelectionByteSelectorDto,
}

/// The mathematical value of an [`OutlineSymbolDto`].
#[verifier::ext_equal]
pub struct OutlineSymbolView {
    pub name: Seq<char>,
    pub symbol_kind: SelectionSymbolKindDto,
    pub symbol_path: Seq<Seq<char>>,
    pub depth: u64,
    pub detail: Option<Seq<char>>,
    pub start_line: u64,
    pub start_column: Option<u64>,
    pub end_line: u64,
    pub end_column: Option<u64>,
    pub lsp_range: SelectionLspRangeDto,
    pub lsp_selection_range: SelectionLspRangeDto,
    pub selector: SelectionByteSelectorDto,
}

impl View for OutlineSymbolDto {
    type V = OutlineSymbolView;

    open spec fn view(&self) -> OutlineSymbolView {
        OutlineSymbolView {
            name: self.name@,
            symbol_kind: self.symbol_kind,
            symbol_path: order::path_view(self.symbol_path@),
            depth: self.depth,
            detail: order::optional_text(self.detail),
            start_line: self.start_line,
            start_column: self.start_column,
            end_line: self.end_line,
            end_column: self.end_column,
            lsp_range: self.lsp_range,
            lsp_selection_range: self.lsp_selection_range,
            selector: self.selector,
        }
    }
}

/// The wire form of an outline record.
pub open spec fn outline_symbol_json(symbol: OutlineSymbolView) -> JsonView {
    JsonView::Object(
        seq![
            ("name"@, JsonView::String(symbol.name)),
            ("symbol_kind"@, JsonView::String(selection::result_kind_text(symbol.symbol_kind))),
            ("symbol_path"@, wire::texts_json(symbol.symbol_path)),
            ("depth"@, json::number_json(symbol.depth)),
            ("detail"@, wire::optional_text_json(symbol.detail)),
            ("start_line"@, json::number_json(symbol.start_line)),
            ("start_column"@, wire::optional_number_json(symbol.start_column)),
            ("end_line"@, json::number_json(symbol.end_line)),
            ("end_column"@, wire::optional_number_json(symbol.end_column)),
            ("lsp_range"@, symbol.lsp_range@),
            ("lsp_selection_range"@, symbol.lsp_selection_range@),
            ("selector"@, symbol.selector@),
        ],
    )
}

impl OutlineSymbolDto {
    /// Creates one outline record from already validated coordinates.
    pub fn new(
        name: &str,
        symbol_kind: SelectionSymbolKindDto,
        symbol_path: Vec<String>,
        depth: u64,
        detail: Option<String>,
        start_line: u64,
        start_column: Option<u64>,
        end_line: u64,
        end_column: Option<u64>,
        lsp_range: SelectionLspRangeDto,
        lsp_selection_range: SelectionLspRangeDto,
        selector: SelectionByteSelectorDto,
    ) -> (symbol: Self)
        ensures
            symbol@ == (OutlineSymbolView {
                name: name@,
                symbol_kind,
                symbol_path: order::path_view(symbol_path@),
                depth,
                detail: order::optional_text(detail),
                start_line,
                start_column,
                end_line,
                end_column,
                lsp_range,
                lsp_selection_range,
                selector,
            }),
    {
        OutlineSymbolDto {
            name: name.to_owned(),
            symbol_kind,
            symbol_path,
            depth,
            detail,
            start_line,
            start_column,
            end_line,
            end_column,
            lsp_range,
            lsp_selection_range,
            selector,
        }
    }

    /// Returns the unqualified symbol name.
    pub fn name(&self) -> (name: &str)
        ensures
            name@ == self@.name,
    {
        self.name.as_str()
    }

    /// Returns the normalized symbol kind.
    pub fn symbol_kind(&self) -> (kind: SelectionSymbolKindDto)
        ensures
            kind == self@.symbol_kind,
    {
        self.symbol_kind
    }

    /// Returns the hierarchy depth.
    pub fn depth(&self) -> (depth: u64)
        ensures
            depth == self@.depth,
    {
        self.depth
    }

    /// Returns the one-based physical line of the symbol's start.
    pub fn start_line(&self) -> (line: u64)
        ensures
            line == self@.start_line,
    {
        self.start_line
    }

    /// Returns the one-based physical line containing the symbol's end.
    pub fn end_line(&self) -> (line: u64)
        ensures
            line == self@.end_line,
    {
        self.end_line
    }

    /// Returns the raw zero-based LSP enclosing range retained for audit.
    pub fn lsp_range(&self) -> (range: SelectionLspRangeDto)
        ensures
            range == self@.lsp_range,
    {
        self.lsp_range
    }

    /// Returns the validated half-open byte selector of the enclosing range.
    pub fn selector(&self) -> (selector: SelectionByteSelectorDto)
        ensures
            selector == self@.selector,
    {
        self.selector
    }

    /// Returns the wire form.
    pub fn to_json(&self) -> (value: Json)
        ensures
            value@ == outline_symbol_json(self@),
    {
        let members = vec![
            named("name", json_text(self.name.as_str())),
            named("symbol_kind", json_text(self.symbol_kind.as_str())),
            named("symbol_path", json_texts(&self.symbol_path)),
            named("depth", json_number(self.depth)),
            named("detail", json_optional_text(&self.detail)),
            named("start_line", json_number(self.start_line)),
            named("start_column", json_optional_number(self.start_column)),
            named("end_line", json_number(self.end_line)),
            named("end_column", json_optional_number(self.end_column)),
            named("lsp_range", self.lsp_range.to_json()),
            named("lsp_selection_range", self.lsp_selection_range.to_json()),
            named("selector", self.selector.to_json()),
        ];
        assert(json::members_view(members@) =~= outline_symbol_json(self@)->Object_0);
        json_object(members)
    }
}

/// The values of a list of outline records.
pub open spec fn outline_symbols_view(symbols: Seq<OutlineSymbolDto>) -> Seq<OutlineSymbolView> {
    Seq::new(symbols.len(), |i: int| symbols[i]@)
}

/// The wire forms of a list of outline records.
pub open spec fn outline_symbols_json(symbols: Seq<OutlineSymbolView>) -> Seq<JsonView> {
    Seq::new(symbols.len(), |i: int| outline_symbol_json(symbols[i]))
}

/// Returns the wire forms of a list of outline records.
fn json_symbols(symbols: &Vec<OutlineSymbolDto>) -> (array: Json)
    ensures
        array@ == JsonView::Array(outline_symbols_json(outline_symbols_view(symbols@))),
{
    let mut items: Vec<Json> = Vec::new();
    let mut index: usize = 0;
    while index < symbols.len()
        invariant
            index <= symbols@.len(),
            items@.len() == index,
            forall|i: int|
                0 <= i < index ==> (#[trigger] items@[i])@ == outline_symbol_json(symbols@[i]@),
        decreases symbols@.len() - index,
    {
        items.push(symbols[index].to_json());
        index = index + 1;
    }
    assert(json::items_view(items@) =~= outline_symbols_json(outline_symbols_view(symbols@)));
    json_array(items)
}

/// A successful read-only outline response.
#[derive(Clone, Debug, PartialEq)]
pub struct OutlineResponse {
    /// The opaque workspace identity, in its textual form.
    pub workspace_identity_hash: String,
    /// The source snapshot.
    pub source: SelectionSourceDto,
    /// The server's metadata.
    pub server: SelectionServerDto,
    /// The records, in order.
    pub symbols: Vec<OutlineSymbolDto>,
    /// The warnings.
    pub warnings: Vec<WarningDto>,
}

/// The wire form of an outline response.
pub open spec fn outline_response_json(
    workspace_identity_hash: Seq<char>,
    source: JsonView,
    server: JsonView,
    symbols: Seq<OutlineSymbolView>,
    warnings: Seq<JsonView>,
) -> JsonView {
    JsonView::Object(
        seq![
            ("outline_protocol_version"@, json::number_json(OUTLINE_PROTOCOL_VERSION)),
            ("workspace_identity_hash"@, JsonView::String(workspace_identity_hash)),
            ("source"@, source),
            ("server"@, server),
            ("symbols"@, JsonView::Array(outline_symbols_json(symbols))),
            ("warnings"@, JsonView::Array(warnings)),
        ],
    )
}

impl View for OutlineResponse {
    type V = JsonView;

    open spec fn view(&self) -> JsonView {
        outline_response_json(
            self.workspace_identity_hash@,
            self.source@,
            self.server@,
            outline_symbols_view(self.symbols@),
            wire::warnings_view(self.warnings@),
        )
    }
}

impl OutlineResponse {
    /// Creates an outline response.
    pub fn new(
        workspace_identity_hash: Sha256Digest,
        source: SelectionSourceDto,
        server: SelectionServerDto,
        symbols: Vec<OutlineSymbolDto>,
        warnings: Vec<WarningDto>,
    ) -> (response: Self)
        ensures
            response.workspace_identity_hash@ == digest::prefixed_hex(workspace_identity_hash.0@),
            response.source == source,
            response.server == server,
            response.symbols == symbols,
            response.warnings == warnings,
    {
        OutlineResponse {
            workspace_identity_hash: workspace_identity_hash.to_prefixed_hex(),
            source,
            server,
            symbols,
            warnings,
        }
    }

    /// Returns the wire form.
    pub fn to_json(&self) -> (value: Json)
        ensures
            value@ == self@,
    {
        let members = vec![
            named("outline_protocol_version", json_number(OUTLINE_PROTOCOL_VERSION)),
            named("workspace_identity_hash", json_text(self.workspace_identity_hash.as_str())),
            named("source", self.source.to_json()),
            named("server", self.server.to_json()),
            named("symbols", json_symbols(&self.symbols)),
            named("warnings", json_warnings(&self.warnings)),
        ];
        assert(json::members_view(members@) =~= self@->Object_0);
        json_object(members)
    }
}

/// Stable outline error categories.
#[derive(Clone, Copy, Debug, PartialEq, Eq, Structural)]
pub enum OutlineErrorCategory {
    /// Invalid outline input.
    Request,
    /// The configured server or platform cannot satisfy the request.
    Support,
    /// An implementation invariant failed.
    Internal,
}

/// The stable wire spelling of a category.
pub open spec fn outline_category_text(value: OutlineErrorCategory) -> Seq<char> {
    match value {
        OutlineErrorCategory::Request => "request"@,
        OutlineErrorCategory::Support => "support"@,
        OutlineErrorCategory::Internal => "internal"@,
    }
}

impl OutlineErrorCategory {
    /// Returns the stable wire spelling.
    pub fn as_str(self) -> (text: &'static str)
        ensures
            text@ == outline_category_text(self),
    {
        match self {
            OutlineErrorCategory::Request => "request",
            OutlineErrorCategory::Support => "support",
            OutlineErrorCategory::Internal => "internal",
        }
    }

    /// Returns the documented command-line exit status for this category.
    pub fn exit_code(self) -> (code: u8)
        ensures
            code == outline_exit_code(self),
    {
        match self {
            OutlineErrorCategory::Request => 2,
            OutlineErrorCategory::Support => 4,
            OutlineErrorCategory::Internal => 8,
        }
    }
}

/// The documented command-line exit status of a category.
pub open spec fn outline_exit_code(category: OutlineErrorCategory) -> u8 {
    match category {
        OutlineErrorCategory::Request => 2,
        OutlineErrorCategory::Support => 4,
        OutlineErrorCategory::Internal => 8,
    }
}

/// The documented category of a code.
pub open spec fn outline_category(code: OutlineErrorCode) -> OutlineErrorCategory {
    match code {
        OutlineErrorCode::InvalidOutlineQuery => OutlineErrorCategory::Request,
        OutlineErrorCode::LspServerNotConfigured
        | OutlineErrorCode::UnsupportedTextEncoding
        | OutlineErrorCode::LspCapabilityUnavailable
        | OutlineErrorCode::LspFlatSymbolsUnsupported
        | OutlineErrorCode::LspDocumentSyncUnavailable
        | OutlineErrorCode::LspResourceLimitExceeded
        | OutlineErrorCode::LspTimeout
        | OutlineErrorCode::LspStartFailed
        | OutlineErrorCode::LspExited
        | OutlineErrorCode::LspProtocolError
        | OutlineErrorCode::LspRequestFailed => OutlineErrorCategory::Support,
        OutlineErrorCode::OutlineInternalError => OutlineErrorCategory::Internal,
    }
}

/// Whether retrying after an external-state refresh may resolve an error.
pub open spec fn outline_retryable(code: OutlineErrorCode) -> bool {
    code == OutlineErrorCode::LspTimeout
    || code == OutlineErrorCode::LspStartFailed
    || code == OutlineErrorCode::LspExited
    || code == OutlineErrorCode::LspRequestFailed
}

/// The complete outline error-code registry.
#[derive(Clone, Copy, Debug, PartialEq, Eq, Hash, PartialOrd, Ord, Structural)]
pub enum OutlineErrorCode {
    /// The outline request is invalid.
    InvalidOutlineQuery,
    /// No language server is configured for the source.
    LspServerNotConfigured,
    /// The source snapshot is not valid UTF-8.
    UnsupportedTextEncoding,
    /// The server lacks a required capability.
    LspCapabilityUnavailable,
    /// The server returned unsupported flat document symbols.
    LspFlatSymbolsUnsupported,
    /// The server cannot synchronize an opened snapshot.
    LspDocumentSyncUnavailable,
    /// A language-server or outline resource bound was exceeded.
    LspResourceLimitExceeded,
    /// A language-server lifecycle deadline expired.
    LspTimeout,
    /// The configured language server could not be started.
    LspStartFailed,
    /// The language server exited before completing the session.
    LspExited,
    /// The server violated JSON-RPC, LSP, or range semantics.
    LspProtocolError,
    /// The server returned a JSON-RPC request error.
    LspRequestFailed,
    /// An internal outline invariant failed.
    OutlineInternalError,
}

/// The stable wire spelling of a code.
pub open spec fn outline_code_text(value: OutlineErrorCode) -> Seq<char> {
    match value {
        OutlineErrorCode::InvalidOutlineQuery => "INVALID_OUTLINE_QUERY"@,
        OutlineErrorCode::LspServerNotConfigured => "LSP_SERVER_NOT_CONFIGURED"@,
        OutlineErrorCode::UnsupportedTextEncoding => "UNSUPPORTED_TEXT_ENCODING"@,
        OutlineErrorCode::LspCapabilityUnavailable => "LSP_CAPABILITY_UNAVAILABLE"@,
        OutlineErrorCode::LspFlatSymbolsUnsupported => "LSP_FLAT_SYMBOLS_UNSUPPORTED"@,
        OutlineErrorCode::LspDocumentSyncUnavailable => "LSP_DOCUMENT_SYNC_UNAVAILABLE"@,
        OutlineErrorCode::LspResourceLimitExceeded => "LSP_RESOURCE_LIMIT_EXCEEDED"@,
        OutlineErrorCode::LspTimeout => "LSP_TIMEOUT"@,
        OutlineErrorCode::LspStartFailed => "LSP_START_FAILED"@,
        OutlineErrorCode::LspExited => "LSP_EXITED"@,
        OutlineErrorCode::LspProtocolError => "LSP_PROTOCOL_ERROR"@,
        OutlineErrorCode::LspRequestFailed => "LSP_REQUEST_FAILED"@,
        OutlineErrorCode::OutlineInternalError => "OUTLINE_INTERNAL_ERROR"@,
    }
}

impl OutlineErrorCode {
    /// Returns every registered error code.
    pub fn all() -> (values: Vec<Self>)
        ensures
            values@.len() == 13,
            forall|value: Self| values@.contains(value),
            values@.no_duplicates(),
    {
        let values = vec![
            OutlineErrorCode::InvalidOutlineQuery,
            OutlineErrorCode::LspServerNotConfigured,
            OutlineErrorCode::UnsupportedTextEncoding,
            OutlineErrorCode::LspCapabilityUnavailable,
            OutlineErrorCode::LspFlatSymbolsUnsupported,
            OutlineErrorCode::LspDocumentSyncUnavailable,
            OutlineErrorCode::LspResourceLimitExceeded,
            OutlineErrorCode::LspTimeout,
            OutlineErrorCode::LspStartFailed,
            OutlineErrorCode::LspExited,
            OutlineErrorCode::LspProtocolError,
            OutlineErrorCode::LspRequestFailed,
            OutlineErrorCode::OutlineInternalError,
        ];
        proof {
            assert forall|value: Self| values@.contains(value) by {
                match value {
                    OutlineErrorCode::InvalidOutlineQuery => assert(values@[0] == value),
                    OutlineErrorCode::LspServerNotConfigured => assert(values@[1] == value),
                    OutlineErrorCode::UnsupportedTextEncoding => assert(values@[2] == value),
                    OutlineErrorCode::LspCapabilityUnavailable => assert(values@[3] == value),
                    OutlineErrorCode::LspFlatSymbolsUnsupported => assert(values@[4] == value),
                    OutlineErrorCode::LspDocumentSyncUnavailable => assert(values@[5] == value),
                    OutlineErrorCode::LspResourceLimitExceeded => assert(values@[6] == value),
                    OutlineErrorCode::LspTimeout => assert(values@[7] == value),
                    OutlineErrorCode::LspStartFailed => assert(values@[8] == value),
                    OutlineErrorCode::LspExited => assert(values@[9] == value),
                    OutlineErrorCode::LspProtocolError => assert(values@[10] == value),
                    OutlineErrorCode::LspRequestFailed => assert(values@[11] == value),
                    OutlineErrorCode::OutlineInternalError => assert(values@[12] == value),
                }
            }
        }
        values
    }

    /// Returns the stable wire spelling.
    pub fn as_str(self) -> (text: &'static str)
        ensures
            text@ == outline_code_text(self),
    {
        match self {
            OutlineErrorCode::InvalidOutlineQuery => "INVALID_OUTLINE_QUERY",
            OutlineErrorCode::LspServerNotConfigured => "LSP_SERVER_NOT_CONFIGURED",
            OutlineErrorCode::UnsupportedTextEncoding => "UNSUPPORTED_TEXT_ENCODING",
            OutlineErrorCode::LspCapabilityUnavailable => "LSP_CAPABILITY_UNAVAILABLE",
            OutlineErrorCode::LspFlatSymbolsUnsupported => "LSP_FLAT_SYMBOLS_UNSUPPORTED",
            OutlineErrorCode::LspDocumentSyncUnavailable => "LSP_DOCUMENT_SYNC_UNAVAILABLE",
            OutlineErrorCode::LspResourceLimitExceeded => "LSP_RESOURCE_LIMIT_EXCEEDED",
            OutlineErrorCode::LspTimeout => "LSP_TIMEOUT",
            OutlineErrorCode::LspStartFailed => "LSP_START_FAILED",
            OutlineErrorCode::LspExited => "LSP_EXITED",
            OutlineErrorCode::LspProtocolError => "LSP_PROTOCOL_ERROR",
            OutlineErrorCode::LspRequestFailed => "LSP_REQUEST_FAILED",
            OutlineErrorCode::OutlineInternalError => "OUTLINE_INTERNAL_ERROR",
        }
    }

    /// Returns the documented category for this code.
    pub fn category(self) -> (category: OutlineErrorCategory)
        ensures
            category == outline_category(self),
    {
        match self {
            OutlineErrorCode::InvalidOutlineQuery => OutlineErrorCategory::Request,
            OutlineErrorCode::LspServerNotConfigured
            | OutlineErrorCode::UnsupportedTextEncoding
            | OutlineErrorCode::LspCapabilityUnavailable
            | OutlineErrorCode::LspFlatSymbolsUnsupported
            | OutlineErrorCode::LspDocumentSyncUnavailable
            | OutlineErrorCode::LspResourceLimitExceeded
            | OutlineErrorCode::LspTimeout
            | OutlineErrorCode::LspStartFailed
            | OutlineErrorCode::LspExited
            | OutlineErrorCode::LspProtocolError
            | OutlineErrorCode::LspRequestFailed => OutlineErrorCategory::Support,
            OutlineErrorCode::OutlineInternalError => OutlineErrorCategory::Internal,
        }
    }

    /// Returns whether retrying after an external-state refresh may resolve the error.
    pub fn retryable(self) -> (retryable: bool)
        ensures
            retryable == outline_retryable(self),
    {
        matches!(
            self,
            OutlineErrorCode::LspTimeout
                | OutlineErrorCode::LspStartFailed
                | OutlineErrorCode::LspExited
                | OutlineErrorCode::LspRequestFailed
        )
    }
}

/// A stable structured outline error response.
#[derive(Clone, Debug, PartialEq)]
pub struct OutlineErrorDto {
    /// The stable error code.
    pub code: OutlineErrorCode,
    /// The human-readable message before terminal escaping.
    pub message: String,
    /// Structured non-sensitive context, by key.
    pub context: TextMap<Json>,
}

/// The mathematical value of a [`OutlineErrorDto`].
#[verifier::ext_equal]
pub struct OutlineErrorView {
    pub code: OutlineErrorCode,
    pub message: Seq<char>,
    pub context: Seq<(Seq<char>, JsonView)>,
}

impl View for OutlineErrorDto {
    type V = OutlineErrorView;

    open spec fn view(&self) -> OutlineErrorView {
        OutlineErrorView {
            code: self.code,
            message: self.message@,
            context: self.context@,
        }
    }
}

/// The wire form of an error response; its category and retryability are the
/// registry's.
pub open spec fn outline_error_json(error: OutlineErrorView) -> JsonView {
    JsonView::Object(
        seq![
            ("outline_protocol_version"@, json::number_json(OUTLINE_PROTOCOL_VERSION)),
            ("code"@, JsonView::String(outline_code_text(error.code))),
            ("category"@, JsonView::String(outline_category_text(outline_category(error.code)))),
            ("retryable"@, JsonView::Bool(outline_retryable(error.code))),
            ("message"@, JsonView::String(error.message)),
            ("context"@, JsonView::Object(error.context)),
        ],
    )
}

impl OutlineErrorDto {
    /// Creates an error response using registry-owned category and retry policy.
    /// The context is kept as a map: in key order, with the last value given for
    /// each key.
    pub fn new(code: OutlineErrorCode, message: &str, context: Vec<(String, Json)>) -> (error: Self)
        ensures
            error@ == (OutlineErrorView {
                code,
                message: message@,
                context: text_map::ordered(json::members_view(context@)),
            }),
            text_map::is_ordered(error@.context),
            text_map::is_ordered(json::members_view(context@)) ==> error@.context
                == json::members_view(context@),
    {
        OutlineErrorDto { code, message: message.to_owned(), context: TextMap::from_entries(context) }
    }

    /// Returns the stable error code.
    pub fn code(&self) -> (code: OutlineErrorCode)
        ensures
            code == self@.code,
    {
        self.code
    }

    /// Returns the process exit status associated with this error.
    pub fn exit_code(&self) -> (code: u8)
        ensures
            code == outline_exit_code(outline_category(self@.code)),
    {
        self.code.category().exit_code()
    }

    /// Returns whether this failure may be transient.
    pub fn retryable(&self) -> (retryable: bool)
        ensures
            retryable == outline_retryable(self@.code),
    {
        self.code.retryable()
    }

    /// Returns the human-readable message before terminal escaping.
    pub fn message(&self) -> (message: &str)
        ensures
            message@ == self@.message,
    {
        self.message.as_str()
    }

    /// Returns the structured non-sensitive error context.
    pub fn context(&self) -> (context: &Vec<(String, Json)>)
        ensures
            json::members_view(context@) == self@.context,
            text_map::is_ordered(self@.context),
    {
        self.context.entries()
    }

    /// Returns the wire form.
    pub fn to_json(&self) -> (value: Json)
        ensures
            value@ == outline_error_json(self@),
    {
        let members = vec![
            named("outline_protocol_version", json_number(OUTLINE_PROTOCOL_VERSION)),
            named("code", json_text(self.code.as_str())),
            named("category", json_text(self.code.category().as_str())),
            named("retryable", Json::Bool(self.code.retryable())),
            named("message", json_text(self.message.as_str())),
            named("context", json_object(copy_members(self.context.entries()))),
        ];
        assert(json::members_view(members@) =~= outline_error_json(self@)->Object_0);
        json_object(members)
    }
}

/// A response that could not be serialized, or that is too large.
#[derive(Clone, Debug, PartialEq)]
pub struct OutlineProtocolError {
    /// The stable error response.
    pub report: OutlineErrorDto,
}

/// The text of a protocol error: its code and its message.
pub open spec fn outline_failure_text(error: OutlineErrorView) -> Seq<char> {
    outline_code_text(error.code) + ": "@ + error.message
}

impl OutlineProtocolError {
    /// Returns the stable error response.
    pub fn report(&self) -> (report: &OutlineErrorDto)
        ensures
            *report == self.report,
    {
        &self.report
    }

    /// Consumes the failure and returns its stable error response.
    pub fn into_report(self) -> (report: OutlineErrorDto)
        ensures
            report == self.report,
    {
        self.report
    }

    /// Returns the code and the message as one text.
    pub fn message(&self) -> (text: String)
        ensures
            text@ == outline_failure_text(self.report@),
    {
        let mut text = self.report.code.as_str().to_owned();
        text.append(": ");
        text.append(self.report.message.as_str());
        text
    }
}

/// The error for a response that could not be serialized.
pub open spec fn outline_unserializable() -> OutlineErrorView {
    OutlineErrorView {
        code: OutlineErrorCode::OutlineInternalError,
        message: "failed to serialize the outline response"@,
        context: Seq::empty(),
    }
}

/// The error for a response of `actual` bytes.
pub open spec fn outline_too_large(actual: u64) -> OutlineErrorView {
    OutlineErrorView {
        code: OutlineErrorCode::LspResourceLimitExceeded,
        message: "the outline response exceeds the serialized response limit"@,
        context: seq![
            ("actual"@, json::number_json(actual)),
            ("limit"@, json::number_json(MAX_RESPONSE_BYTES)),
            ("resource"@, JsonView::String("serialized_json_response"@)),
        ],
    }
}

/// Returns the error for a response that could not be serialized.
pub fn outline_serialization_error() -> (error: OutlineProtocolError)
    ensures
        error.report@ == outline_unserializable(),
{
    let context: Vec<(String, Json)> = Vec::new();
    assert(json::members_view(context@) =~= outline_unserializable().context);
    OutlineProtocolError {
        report: OutlineErrorDto::new(
            OutlineErrorCode::OutlineInternalError,
            "failed to serialize the outline response",
            context,
        ),
    }
}

/// Returns the error for a response of `actual` bytes.
pub fn outline_response_limit_error(actual: u64) -> (error: OutlineProtocolError)
    ensures
        error.report@ == outline_too_large(actual),
{
    proof {
        wire::lemma_context_keys_ascend();
    }
    let context = vec![
        named("actual", json_number(actual)),
        named("limit", json_number(MAX_RESPONSE_BYTES)),
        named("resource", json_text("serialized_json_response")),
    ];
    assert(json::members_view(context@) =~= outline_too_large(actual).context);
    OutlineProtocolError {
        report: OutlineErrorDto::new(
            OutlineErrorCode::LspResourceLimitExceeded,
            "the outline response exceeds the serialized response limit",
            context,
        ),
    }
}

/// The text of one line, or the error that stands for it.
pub open spec fn outline_line(line: Result<Seq<u8>, BoundedJsonLineFailure>) -> Result<
    Seq<char>,
    OutlineErrorView,
> {
    match line {
        Ok(bytes) => if vstd::utf8::valid_utf8(bytes) {
            Ok(vstd::utf8::decode_utf8(bytes))
        } else {
            Err(outline_unserializable())
        },
        Err(BoundedJsonLineFailure::ResponseLimit(actual)) => Err(outline_too_large(actual)),
        Err(BoundedJsonLineFailure::Serialization) => Err(outline_unserializable()),
    }
}

/// Whether a produced text, or its error, is the expected one.
pub open spec fn is_outline_line(
    text: Result<String, OutlineProtocolError>,
    expected: Result<Seq<char>, OutlineErrorView>,
) -> bool {
    match text {
        Ok(text) => expected == Ok::<Seq<char>, OutlineErrorView>(text@),
        Err(error) => expected == Err::<Seq<char>, OutlineErrorView>(error.report@),
    }
}

/// Reads one bounded line as text, or names the failure.
pub fn outline_line_text(line: Result<Vec<u8>, BoundedJsonLineFailure>) -> (text: Result<
    String,
    OutlineProtocolError,
>)
    ensures
        is_outline_line(
            text,
            outline_line(
                match line {
                    Ok(bytes) => Ok(bytes@),
                    Err(failure) => Err(failure),
                },
            ),
        ),
{
    match line {
        Ok(bytes) => match text_from_utf8(bytes) {
            Some(text) => Ok(text),
            None => Err(outline_serialization_error()),
        },
        Err(BoundedJsonLineFailure::ResponseLimit(actual)) => Err(
            outline_response_limit_error(actual),
        ),
        Err(BoundedJsonLineFailure::Serialization) => Err(outline_serialization_error()),
    }
}

/// Serializes one outline value followed by exactly one line feed, and
/// checks the response limit before the caller writes any bytes.
pub fn to_outline_json_line(value: &Json) -> (text: Result<String, OutlineProtocolError>)
    ensures
        is_outline_line(text, outline_line(wire::json_line(value@, MAX_RESPONSE_BYTES))),
        text matches Ok(text) ==> wire::is_one_line(text::utf8(text@)),
        text matches Err(error) ==> error.report@.code
            == OutlineErrorCode::LspResourceLimitExceeded,
{
    let line = write_bounded_json_line(value, MAX_RESPONSE_BYTES);
    proof {
        if line is Ok {
            vstd::utf8::decode_utf8_encode_utf8(line->Ok_0@);
        }
    }
    outline_line_text(line)
}

/// No two outline error codes share a spelling.
pub proof fn law_outline_codes_are_unique(left: OutlineErrorCode, right: OutlineErrorCode)
    requires
        outline_code_text(left) == outline_code_text(right),
    ensures
        left == right,
{
    reveal_strlit("INVALID_OUTLINE_QUERY");
    reveal_strlit("LSP_SERVER_NOT_CONFIGURED");
    reveal_strlit("UNSUPPORTED_TEXT_ENCODING");
    reveal_strlit("LSP_CAPABILITY_UNAVAILABLE");
    reveal_strlit("LSP_FLAT_SYMBOLS_UNSUPPORTED");
    reveal_strlit("LSP_DOCUMENT_SYNC_UNAVAILABLE");
    reveal_strlit("LSP_RESOURCE_LIMIT_EXCEEDED");
    reveal_strlit("LSP_TIMEOUT");
    reveal_strlit("LSP_START_FAILED");
    reveal_strlit("LSP_EXITED");
    reveal_strlit("LSP_PROTOCOL_ERROR");
    reveal_strlit("LSP_REQUEST_FAILED");
    reveal_strlit("OUTLINE_INTERNAL_ERROR");
    let length = outline_code_text(left).len();
    assert(length == outline_code_text(right).len());
    assert("INVALID_OUTLINE_QUERY"@.len() == 21);
    assert("LSP_SERVER_NOT_CONFIGURED"@.len() == 25);
    assert("UNSUPPORTED_TEXT_ENCODING"@.len() == 25);
    assert("LSP_CAPABILITY_UNAVAILABLE"@.len() == 26);
    assert("LSP_FLAT_SYMBOLS_UNSUPPORTED"@.len() == 28);
    assert("LSP_DOCUMENT_SYNC_UNAVAILABLE"@.len() == 29);
    assert("LSP_RESOURCE_LIMIT_EXCEEDED"@.len() == 27);
    assert("LSP_TIMEOUT"@.len() == 11);
    assert("LSP_START_FAILED"@.len() == 16);
    assert("LSP_EXITED"@.len() == 10);
    assert("LSP_PROTOCOL_ERROR"@.len() == 18);
    assert("LSP_REQUEST_FAILED"@.len() == 18);
    assert("OUTLINE_INTERNAL_ERROR"@.len() == 22);
    assert("LSP_SERVER_NOT_CONFIGURED"@[0] != "UNSUPPORTED_TEXT_ENCODING"@[0] && "LSP_SERVER_NOT_CONFIGURED"@ != "UNSUPPORTED_TEXT_ENCODING"@);
    assert("LSP_PROTOCOL_ERROR"@[4] != "LSP_REQUEST_FAILED"@[4] && "LSP_PROTOCOL_ERROR"@ != "LSP_REQUEST_FAILED"@);
}

} // verus!
