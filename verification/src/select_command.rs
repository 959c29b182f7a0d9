//! The `select` command: its query, its response, and its output.

use vstd::prelude::*;
use vstd::string::StringExecFns;

use crate::digest;
use crate::digest::{sha256, Sha256Digest};
use crate::json;
use crate::json::{serialize_json, Json, JsonView};
use crate::kinds;
use crate::kinds::{KnownSymbolKind, NormalizedSymbolKind};
use crate::line_index::LineIndex;
use crate::normalize;
use crate::normalize::normalize_document_symbols;
use crate::order;
use crate::position;
use crate::position::{
    ByteRange, PositionConverter, PositionError, PositionLimits, Range, Snapshot,
    SupportedPositionEncoding, DEFAULT_MAXIMUM_CODE_POINTS_SCANNED,
};
use crate::resolve;
use crate::resolve::{resolve_name, resolve_position};
use crate::select_report;
use crate::select_report::{
    error, internal_error, map_position_protocol_error, map_symbol_error, map_user_position_error,
    resource_error, response_size_error, validate_server_identity, MAXIMUM_QUERY_NAME_BYTES,
};
use crate::selection;
use crate::selection::{
    to_selection_json_line, SelectionByteSelectorDto, SelectionErrorCode, SelectionErrorDto,
    SelectionErrorView, SelectionExtentDto, SelectionKnownSymbolKindDto, SelectionLspPositionDto,
    SelectionLspRangeDto, SelectionMatchDto, SelectionPositionEncodingDto, SelectionQueryDto,
    SelectionResponse, SelectionServerDto, SelectionSourceDto, SelectionSymbolKindDto,
};
use crate::symbols;
use crate::symbols::{
    copy_optional_text, copy_path, MatchMode, MatchView, SelectionExtent, SymbolErrorView,
    SymbolLimits, SymbolMatch, SymbolView,
};
use crate::terminal;
use crate::terminal::escape_terminal_text;
use crate::text;
use crate::text::push_decimal;
use crate::wire;
use crate::wire::{push_joined, text_from_utf8, WarningDto, MAX_RESPONSE_BYTES};

verus! {

/// The most bytes of a selected source file.
pub const MAXIMUM_SOURCE_BYTES: u64 = 8_388_608;

/// The most lines of a selected source file.
pub const MAX_TOTAL_LINE_COUNT: u64 = 5_000_000;

/// The most bytes of a line index.
pub const MAX_LINE_INDEX_MEMORY: u64 = 268_435_456;

/// The most bytes of a source path.
pub const MAX_SOURCE_PATH_BYTES: u64 = 4_096;

/// Bounds on the capture of a snapshot.
#[derive(Clone, Copy, Debug, PartialEq, Eq, Structural)]
pub struct SnapshotLimits {
    /// The most bytes of a path.
    pub path_bytes: u64,
    /// The most files.
    pub files: u64,
    /// The most bytes of one file.
    pub file_bytes: u64,
    /// The most bytes of all files.
    pub total_bytes: u64,
    /// The most lines of all files.
    pub total_lines: u64,
    /// The most bytes of line indexes.
    pub line_index_bytes: u64,
}

/// Returns the bounds on the capture of one source file.
pub fn selection_snapshot_limits() -> (limits: SnapshotLimits)
    ensures
        limits == (SnapshotLimits {
            path_bytes: MAX_SOURCE_PATH_BYTES,
            files: 1,
            file_bytes: MAXIMUM_SOURCE_BYTES,
            total_bytes: MAXIMUM_SOURCE_BYTES,
            total_lines: MAX_TOTAL_LINE_COUNT,
            line_index_bytes: MAX_LINE_INDEX_MEMORY,
        }),
{
    SnapshotLimits {
        path_bytes: MAX_SOURCE_PATH_BYTES,
        files: 1,
        file_bytes: MAXIMUM_SOURCE_BYTES,
        total_bytes: MAXIMUM_SOURCE_BYTES,
        total_lines: MAX_TOTAL_LINE_COUNT,
        line_index_bytes: MAX_LINE_INDEX_MEMORY,
    }
}

/// An immutable source snapshot.
#[derive(Debug, PartialEq, Eq)]
pub struct SourceSnapshot {
    /// The workspace-relative path.
    pub path: String,
    /// The source text.
    pub text: String,
    /// The digest of the text's bytes.
    pub digest: Sha256Digest,
    /// The index of the text's lines.
    pub line_index: LineIndex,
}

impl SourceSnapshot {
    /// The bytes of the source.
    pub open spec fn bytes(&self) -> Seq<u8> {
        text::utf8(self.text@)
    }

    /// Whether the line index is the one of the text.
    pub open spec fn wf(&self) -> bool {
        self.line_index.describes(self.bytes())
    }
}

/// The error for a source that is not UTF-8.
pub open spec fn encoding_failure() -> SelectionErrorView {
    select_report::plain(
        SelectionErrorCode::UnsupportedTextEncoding,
        "the source snapshot is not valid UTF-8"@,
    )
}

/// Captures a source file from its bytes, which must be UTF-8.
pub fn capture_source(path: &str, bytes: Vec<u8>) -> (captured: Result<
    SourceSnapshot,
    SelectionErrorDto,
>)
    ensures
        match captured {
            Ok(snapshot) => {
                &&& snapshot.wf()
                &&& snapshot.path@ == path@
                &&& snapshot.bytes() == bytes@
                &&& snapshot.digest.0@ == digest::sha256_of(bytes@)
            },
            Err(error) => !vstd::utf8::valid_utf8(bytes@) && error@ == encoding_failure(),
        },
{
    let digest = sha256(bytes.as_slice());
    let line_index = LineIndex::from_bytes(bytes.as_slice());
    let ghost content = bytes@;
    match text_from_utf8(bytes) {
        Some(text) => {
            proof {
                vstd::utf8::decode_utf8_encode_utf8(content);
            }
            Ok(SourceSnapshot { path: path.to_owned(), text, digest, line_index })
        },
        None => Err(
            error(
                SelectionErrorCode::UnsupportedTextEncoding,
                "the source snapshot is not valid UTF-8",
            ),
        ),
    }
}

/// The error for a queried name, if it is unacceptable.
pub open spec fn name_refusal(name: Option<Seq<char>>) -> Option<SelectionErrorView> {
    match name {
        None => None,
        Some(name) => if name.len() == 0 {
            Some(
                select_report::plain(
                    SelectionErrorCode::InvalidSelectionQuery,
                    "a symbol name must not be empty"@,
                ),
            )
        } else if text::utf8(name).len() > MAXIMUM_QUERY_NAME_BYTES {
            Some(
                select_report::resource_exceeded(
                    "selection query name bytes"@,
                    MAXIMUM_QUERY_NAME_BYTES,
                ),
            )
        } else {
            None
        },
    }
}

/// Refuses an empty or overlong name.
pub fn validate_name(name: Option<&str>) -> (outcome: Result<(), SelectionErrorDto>)
    ensures
        select_report::fails_as(
            outcome,
            name_refusal(
                match name {
                    Some(name) => Some(name@),
                    None => None,
                },
            ),
        ),
{
    match name {
        None => Ok(()),
        Some(name) => {
            if name.unicode_len() == 0 {
                Err(
                    error(
                        SelectionErrorCode::InvalidSelectionQuery,
                        "a symbol name must not be empty",
                    ),
                )
            } else if name.as_bytes().len() > MAXIMUM_QUERY_NAME_BYTES {
                Err(resource_error("selection query name bytes", MAXIMUM_QUERY_NAME_BYTES))
            } else {
                Ok(())
            }
        },
    }
}

/// The error for a spelling that no kind has.
pub open spec fn unknown_kind() -> SelectionErrorView {
    select_report::plain(
        SelectionErrorCode::InvalidSelectionQuery,
        "the symbol kind is not recognized"@,
    )
}

/// Parses an optional kind filter: the kind of that spelling, if there is one.
pub fn parse_kind(value: Option<&str>) -> (kind: Result<Option<KnownSymbolKind>, SelectionErrorDto>)
    ensures
        match (value, kind) {
            (None, kind) => kind == Ok::<Option<KnownSymbolKind>, SelectionErrorDto>(None),
            (Some(_), Ok(None)) => false,
            (Some(spelling), Ok(Some(kind))) => kinds::kind_text(kind) == spelling@,
            (Some(spelling), Err(error)) => error@ == unknown_kind() && forall|
                kind: KnownSymbolKind,
            | #[trigger] kinds::kind_text(kind) != spelling@,
        },
{
    match value {
        None => Ok(None),
        Some(spelling) => match KnownSymbolKind::parse(spelling) {
            Ok(kind) => Ok(Some(kind)),
            Err(_) => Err(
                error(
                    SelectionErrorCode::InvalidSelectionQuery,
                    "the symbol kind is not recognized",
                ),
            ),
        },
    }
}

/// The query arguments of the command line.
#[derive(Clone, Debug, PartialEq, Eq)]
pub struct QueryArguments {
    /// The exact symbol name.
    pub name: Option<String>,
    /// The zero-based byte offset.
    pub at_byte: Option<u64>,
    /// The one-based line.
    pub at_line: Option<u64>,
    /// The one-based scalar column; one where it is missing.
    pub at_column: Option<u64>,
}

/// What a query asks for.
#[derive(Clone, Debug, PartialEq, Eq)]
pub enum QueryValue {
    /// Symbols of this name.
    Name(String),
    /// Symbols that hold this byte offset.
    Byte(u64),
}

/// A validated query.
#[derive(Clone, Debug, PartialEq, Eq)]
pub struct ValidatedQuery {
    /// The kind filter.
    pub kind: Option<KnownSymbolKind>,
    /// What is asked for.
    pub value: QueryValue,
}

/// The mathematical value of a [`ValidatedQuery`].
#[verifier::ext_equal]
pub enum QueryView {
    Name { name: Seq<char>, kind: Option<KnownSymbolKind> },
    Byte { offset: u64, kind: Option<KnownSymbolKind> },
}

impl View for ValidatedQuery {
    type V = QueryView;

    open spec fn view(&self) -> QueryView {
        match self.value {
            QueryValue::Name(name) => QueryView::Name { name: name@, kind: self.kind },
            QueryValue::Byte(offset) => QueryView::Byte { offset, kind: self.kind },
        }
    }
}

/// The query that the arguments ask for. A name comes first, and then a byte
/// offset; coordinates are exact and never clamped.
pub open spec fn query_of(
    arguments: QueryArguments,
    kind: Option<KnownSymbolKind>,
    bytes: Seq<u8>,
) -> Result<QueryView, SelectionErrorView> {
    match (arguments.name, arguments.at_byte, arguments.at_line) {
        (Some(name), _, _) => Ok(QueryView::Name { name: name@, kind }),
        (None, Some(offset), _) => if offset <= bytes.len() && position::is_boundary(
            bytes,
            offset as int,
        ) {
            Ok(QueryView::Byte { offset, kind })
        } else {
            Err(select_report::user_position_failure(PositionError::InvalidUserPosition))
        },
        (None, None, Some(line)) => match position::user_to_byte(
            bytes,
            line,
            match arguments.at_column {
                Some(column) => column,
                None => 1,
            },
            0,
            DEFAULT_MAXIMUM_CODE_POINTS_SCANNED as nat,
        ).0 {
            Ok(offset) => Ok(QueryView::Byte { offset, kind }),
            Err(error) => Err(select_report::user_position_failure(error)),
        },
        (None, None, None) => Err(
            select_report::plain(
                SelectionErrorCode::InvalidSelectionQuery,
                "exactly one semantic-selection query is required"@,
            ),
        ),
    }
}

/// Whether a validated query, or its error, is the expected one.
pub open spec fn queries_as(
    outcome: Result<ValidatedQuery, SelectionErrorDto>,
    expected: Result<QueryView, SelectionErrorView>,
) -> bool {
    match outcome {
        Ok(query) => expected == Ok::<QueryView, SelectionErrorView>(query@),
        Err(error) => expected == Err::<QueryView, SelectionErrorView>(error@),
    }
}

/// Validates the query against the source.
pub fn validate_query(
    arguments: &QueryArguments,
    kind: Option<KnownSymbolKind>,
    snapshot: &SourceSnapshot,
) -> (query: Result<ValidatedQuery, SelectionErrorDto>)
    requires
        snapshot.wf(),
    ensures
        queries_as(query, query_of(*arguments, kind, snapshot.bytes())),
{
    let mut converter = match PositionConverter::new(
        snapshot.text.as_str(),
        &snapshot.line_index,
        SupportedPositionEncoding::Utf8,
        PositionLimits::default(),
    ) {
        Ok(converter) => converter,
        Err(failure) => return Err(map_user_position_error(failure)),
    };
    let value = if let Some(name) = &arguments.name {
        QueryValue::Name(name.clone())
    } else if let Some(offset) = arguments.at_byte {
        match converter.validate_user_byte(offset) {
            Ok(offset) => QueryValue::Byte(offset),
            Err(failure) => return Err(map_user_position_error(failure)),
        }
    } else if let Some(line) = arguments.at_line {
        let column: u64 = match arguments.at_column {
            Some(column) => column,
            None => 1,
        };
        match converter.user_line_scalar_to_byte(line, column) {
            Ok(offset) => QueryValue::Byte(offset),
            Err(failure) => return Err(map_user_position_error(failure)),
        }
    } else {
        return Err(
            error(
                SelectionErrorCode::InvalidSelectionQuery,
                "exactly one semantic-selection query is required",
            ),
        );
    };
    Ok(ValidatedQuery { kind, value })
}

/// How a server is chosen.
#[derive(Clone, Debug, PartialEq, Eq)]
pub enum ServerSelection {
    /// An explicit program.
    Program {
        /// The program.
        program: String,
        /// Its arguments.
        arguments: Vec<String>,
        /// The language that it serves.
        language_id: String,
    },
    /// A configured descriptor.
    Id(String),
    /// The descriptor for the source's extension.
    Automatic,
}

/// Returns how the command line chooses a server: an explicit program comes
/// first, and then a descriptor.
pub fn choose_server(
    program: Option<String>,
    arguments: Vec<String>,
    language_id: Option<String>,
    server_id: Option<String>,
) -> (selection: ServerSelection)
    ensures
        match program {
            Some(program) => selection matches ServerSelection::Program {
                program: chosen,
                arguments: kept,
                language_id: language,
            } && chosen == program && kept == arguments && language@ == (match language_id {
                Some(language_id) => language_id@,
                None => ""@,
            }),
            None => match server_id {
                Some(id) => selection == ServerSelection::Id(id),
                None => selection == ServerSelection::Automatic,
            },
        },
{
    match program {
        Some(program) => ServerSelection::Program {
            program,
            arguments,
            language_id: match language_id {
                Some(language_id) => language_id,
                None => "".to_owned(),
            },
        },
        None => match server_id {
            Some(id) => ServerSelection::Id(id),
            None => ServerSelection::Automatic,
        },
    }
}

/// The deadlines of a session, in milliseconds.
#[derive(Clone, Copy, Debug, PartialEq, Eq, Structural)]
pub struct SessionDeadlines {
    /// For initialization.
    pub initialize: u64,
    /// For the document-symbol request.
    pub document_symbols: u64,
    /// For shutdown.
    pub shutdown: u64,
    /// For cleanup.
    pub cleanup: u64,
    /// For all of it.
    pub total: u64,
}

/// The sum of the phases' deadlines and an allowance for scheduling.
pub open spec fn total_deadline(startup: u64, request: u64) -> u64 {
    let sum = startup + request + 5_000 + 5_000 + 10_000;
    if sum > u64::MAX {
        u64::MAX
    } else {
        sum as u64
    }
}

/// Returns the deadlines for a server's startup and request timeouts.
pub fn session_deadlines(startup: u64, request: u64) -> (deadlines: SessionDeadlines)
    ensures
        deadlines == (SessionDeadlines {
            initialize: startup,
            document_symbols: request,
            shutdown: 5_000,
            cleanup: 5_000,
            total: total_deadline(startup, request),
        }),
{
    let shutdown: u64 = 5_000;
    let cleanup: u64 = 5_000;
    let scheduling_allowance: u64 = 10_000;
    SessionDeadlines {
        initialize: startup,
        document_symbols: request,
        shutdown,
        cleanup,
        total: startup.saturating_add(request).saturating_add(shutdown).saturating_add(
            cleanup,
        ).saturating_add(scheduling_allowance),
    }
}

/// The wire kind of a standardized kind.
pub open spec fn wire_kind(kind: KnownSymbolKind) -> SelectionKnownSymbolKindDto {
    match kind {
        KnownSymbolKind::File => SelectionKnownSymbolKindDto::File,
        KnownSymbolKind::Module => SelectionKnownSymbolKindDto::Module,
        KnownSymbolKind::Namespace => SelectionKnownSymbolKindDto::Namespace,
        KnownSymbolKind::Package => SelectionKnownSymbolKindDto::Package,
        KnownSymbolKind::Class => SelectionKnownSymbolKindDto::Class,
        KnownSymbolKind::Method => SelectionKnownSymbolKindDto::Method,
        KnownSymbolKind::Property => SelectionKnownSymbolKindDto::Property,
        KnownSymbolKind::Field => SelectionKnownSymbolKindDto::Field,
        KnownSymbolKind::Constructor => SelectionKnownSymbolKindDto::Constructor,
        KnownSymbolKind::Enum => SelectionKnownSymbolKindDto::Enum,
        KnownSymbolKind::Interface => SelectionKnownSymbolKindDto::Interface,
        KnownSymbolKind::Function => SelectionKnownSymbolKindDto::Function,
        KnownSymbolKind::Variable => SelectionKnownSymbolKindDto::Variable,
        KnownSymbolKind::Constant => SelectionKnownSymbolKindDto::Constant,
        KnownSymbolKind::String => SelectionKnownSymbolKindDto::String,
        KnownSymbolKind::Number => SelectionKnownSymbolKindDto::Number,
        KnownSymbolKind::Boolean => SelectionKnownSymbolKindDto::Boolean,
        KnownSymbolKind::Array => SelectionKnownSymbolKindDto::Array,
        KnownSymbolKind::Object => SelectionKnownSymbolKindDto::Object,
        KnownSymbolKind::Key => SelectionKnownSymbolKindDto::Key,
        KnownSymbolKind::Null => SelectionKnownSymbolKindDto::Null,
        KnownSymbolKind::EnumMember => SelectionKnownSymbolKindDto::EnumMember,
        KnownSymbolKind::Struct => SelectionKnownSymbolKindDto::Struct,
        KnownSymbolKind::Event => SelectionKnownSymbolKindDto::Event,
        KnownSymbolKind::Operator => SelectionKnownSymbolKindDto::Operator,
        KnownSymbolKind::TypeParameter => SelectionKnownSymbolKindDto::TypeParameter,
    }
}

/// Returns the wire kind of a standardized kind.
pub fn protocol_known_kind(value: KnownSymbolKind) -> (kind: SelectionKnownSymbolKindDto)
    ensures
        kind == wire_kind(value),
{
    match value {
        KnownSymbolKind::File => SelectionKnownSymbolKindDto::File,
        KnownSymbolKind::Module => SelectionKnownSymbolKindDto::Module,
        KnownSymbolKind::Namespace => SelectionKnownSymbolKindDto::Namespace,
        KnownSymbolKind::Package => SelectionKnownSymbolKindDto::Package,
        KnownSymbolKind::Class => SelectionKnownSymbolKindDto::Class,
        KnownSymbolKind::Method => SelectionKnownSymbolKindDto::Method,
        KnownSymbolKind::Property => SelectionKnownSymbolKindDto::Property,
        KnownSymbolKind::Field => SelectionKnownSymbolKindDto::Field,
        KnownSymbolKind::Constructor => SelectionKnownSymbolKindDto::Constructor,
        KnownSymbolKind::Enum => SelectionKnownSymbolKindDto::Enum,
        KnownSymbolKind::Interface => SelectionKnownSymbolKindDto::Interface,
        KnownSymbolKind::Function => SelectionKnownSymbolKindDto::Function,
        KnownSymbolKind::Variable => SelectionKnownSymbolKindDto::Variable,
        KnownSymbolKind::Constant => SelectionKnownSymbolKindDto::Constant,
        KnownSymbolKind::String => SelectionKnownSymbolKindDto::String,
        KnownSymbolKind::Number => SelectionKnownSymbolKindDto::Number,
        KnownSymbolKind::Boolean => SelectionKnownSymbolKindDto::Boolean,
        KnownSymbolKind::Array => SelectionKnownSymbolKindDto::Array,
        KnownSymbolKind::Object => SelectionKnownSymbolKindDto::Object,
        KnownSymbolKind::Key => SelectionKnownSymbolKindDto::Key,
        KnownSymbolKind::Null => SelectionKnownSymbolKindDto::Null,
        KnownSymbolKind::EnumMember => SelectionKnownSymbolKindDto::EnumMember,
        KnownSymbolKind::Struct => SelectionKnownSymbolKindDto::Struct,
        KnownSymbolKind::Event => SelectionKnownSymbolKindDto::Event,
        KnownSymbolKind::Operator => SelectionKnownSymbolKindDto::Operator,
        KnownSymbolKind::TypeParameter => SelectionKnownSymbolKindDto::TypeParameter,
    }
}

/// The wire kind of a kind.
pub open spec fn wire_symbol_kind(kind: NormalizedSymbolKind) -> SelectionSymbolKindDto {
    match kind {
        NormalizedSymbolKind::Known(kind) => SelectionSymbolKindDto::Known(wire_kind(kind)),
        NormalizedSymbolKind::Unknown(_) => SelectionSymbolKindDto::Unknown,
    }
}

/// Returns the wire kind of a kind.
pub fn protocol_symbol_kind(value: NormalizedSymbolKind) -> (kind: SelectionSymbolKindDto)
    ensures
        kind == wire_symbol_kind(value),
{
    match value {
        NormalizedSymbolKind::Known(kind) => SelectionSymbolKindDto::Known(
            protocol_known_kind(kind),
        ),
        NormalizedSymbolKind::Unknown(_) => SelectionSymbolKindDto::Unknown,
    }
}

/// The wire kind of an optional filter.
pub open spec fn wire_filter(kind: Option<KnownSymbolKind>) -> Option<SelectionKnownSymbolKindDto> {
    match kind {
        Some(kind) => Some(wire_kind(kind)),
        None => None,
    }
}

/// Returns the wire kind of an optional filter.
fn protocol_filter(kind: Option<KnownSymbolKind>) -> (filter: Option<SelectionKnownSymbolKindDto>)
    ensures
        filter == wire_filter(kind),
{
    match kind {
        Some(kind) => Some(protocol_known_kind(kind)),
        None => None,
    }
}

/// The wire form of a range.
pub open spec fn wire_range(range: Range) -> SelectionLspRangeDto {
    SelectionLspRangeDto {
        start: SelectionLspPositionDto { line: range.start.line, character: range.start.character },
        end: SelectionLspPositionDto { line: range.end.line, character: range.end.character },
    }
}

/// Returns the wire form of a range.
pub fn protocol_lsp_range(range: Range) -> (converted: SelectionLspRangeDto)
    ensures
        converted == wire_range(range),
{
    SelectionLspRangeDto::new(
        SelectionLspPositionDto::new(range.start.line, range.start.character),
        SelectionLspPositionDto::new(range.end.line, range.end.character),
    )
}

/// The wire form of a position encoding.
pub open spec fn wire_encoding(encoding: SupportedPositionEncoding) -> SelectionPositionEncodingDto {
    match encoding {
        SupportedPositionEncoding::Utf8 => SelectionPositionEncodingDto::Utf8,
        SupportedPositionEncoding::Utf16 => SelectionPositionEncodingDto::Utf16,
        SupportedPositionEncoding::Utf32 => SelectionPositionEncodingDto::Utf32,
    }
}

/// Returns the wire form of a position encoding.
pub fn protocol_position_encoding(value: SupportedPositionEncoding) -> (encoding:
    SelectionPositionEncodingDto)
    ensures
        encoding == wire_encoding(value),
{
    match value {
        SupportedPositionEncoding::Utf8 => SelectionPositionEncodingDto::Utf8,
        SupportedPositionEncoding::Utf16 => SelectionPositionEncodingDto::Utf16,
        SupportedPositionEncoding::Utf32 => SelectionPositionEncodingDto::Utf32,
    }
}

/// The wire form of an extent.
pub open spec fn wire_extent(extent: SelectionExtent) -> SelectionExtentDto {
    match extent {
        SelectionExtent::Symbol => SelectionExtentDto::Symbol,
        SelectionExtent::DeclarationLines => SelectionExtentDto::DeclarationLines,
    }
}

/// Returns the wire form of an extent.
fn protocol_extent(extent: SelectionExtent) -> (converted: SelectionExtentDto)
    ensures
        converted == wire_extent(extent),
{
    match extent {
        SelectionExtent::Symbol => SelectionExtentDto::Symbol,
        SelectionExtent::DeclarationLines => SelectionExtentDto::DeclarationLines,
    }
}

/// The wire form of a match, or the reason why its bytes cannot be selected.
pub open spec fn match_value(
    path: Seq<char>,
    source_digest: Seq<u8>,
    bytes: Seq<u8>,
    selected: MatchView,
) -> Result<JsonView, SelectionErrorView> {
    let start = selected.selected_range.start;
    let end = selected.selected_range.end;
    if start > usize::MAX || end > usize::MAX {
        Err(select_report::internal("selected range does not fit memory"@))
    } else if start > end || end > bytes.len() {
        Err(select_report::internal("selected range is outside the immutable snapshot"@))
    } else {
        let selector = SelectionByteSelectorDto { start, end };
        Ok(
            selection::match_json(
                selected.name,
                wire_symbol_kind(selected.kind),
                selected.symbol_path,
                selected.detail,
                wire_range(selected.lsp_range),
                wire_range(selected.lsp_selection_range),
                wire_extent(selected.extent),
                selector,
                digest::prefixed_hex(digest::sha256_of(bytes.subrange(start as int, end as int))),
                selection::request_source_json(
                    path,
                    selector,
                    digest::prefixed_hex(source_digest),
                ),
            ),
        )
    }
}

/// Returns the wire record of a match.
pub fn build_match(snapshot: &SourceSnapshot, selected: &SymbolMatch) -> (built: Result<
    SelectionMatchDto,
    SelectionErrorDto,
>)
    ensures
        ({
            let expected = match_value(
                snapshot.path@,
                snapshot.digest.0@,
                snapshot.bytes(),
                selected@,
            );
            match built {
                Ok(record) => expected == Ok::<JsonView, SelectionErrorView>(record@),
                Err(error) => expected == Err::<JsonView, SelectionErrorView>(error@),
            }
        }),
{
    let ByteRange { start, end } = selected.selected_range;
    if start > usize::MAX as u64 || end > usize::MAX as u64 {
        return Err(internal_error("selected range does not fit memory"));
    }
    let bytes: &[u8] = snapshot.text.as_str().as_bytes();
    if start > end || end > bytes.len() as u64 {
        return Err(internal_error("selected range is outside the immutable snapshot"));
    }
    let payload = vstd::slice::slice_subrange(bytes, start as usize, end as usize);
    let selected_digest = sha256(payload);
    Ok(
        SelectionMatchDto::new(
            selected.name.as_str(),
            protocol_symbol_kind(selected.kind),
            copy_path(&selected.symbol_path),
            copy_optional_text(&selected.detail),
            protocol_lsp_range(selected.lsp_range),
            protocol_lsp_range(selected.lsp_selection_range),
            protocol_extent(selected.extent),
            SelectionByteSelectorDto::new(start, end),
            selected_digest,
            snapshot.path.as_str(),
            snapshot.digest,
        ),
    )
}

/// The wire form of a query.
pub open spec fn query_json(query: QueryView) -> JsonView {
    match query {
        QueryView::Name { name, kind } => selection::name_query_json(name, wire_filter(kind)),
        QueryView::Byte { offset, kind } => selection::position_query_json(
            offset,
            wire_filter(kind),
        ),
    }
}

/// Returns the wire form of a query.
fn protocol_query(query: &ValidatedQuery) -> (converted: SelectionQueryDto)
    ensures
        converted@ == query_json(query@),
{
    match &query.value {
        QueryValue::Name(name) => SelectionQueryDto::name(
            name.as_str(),
            protocol_filter(query.kind),
        ),
        QueryValue::Byte(offset) => SelectionQueryDto::position(
            *offset,
            protocol_filter(query.kind),
        ),
    }
}

/// The size of a response without matches, its line feed included, given what
/// the serializer made of it.
pub open spec fn first_size(serialized: Result<Seq<u8>, Seq<char>>) -> Result<
    nat,
    SelectionErrorView,
> {
    match serialized {
        Err(_) => Err(select_report::internal("failed to measure the selection response"@)),
        Ok(bytes) => if bytes.len() + 1 > MAX_RESPONSE_BYTES {
            Err(select_report::oversized_response())
        } else {
            Ok(bytes.len() + 1)
        },
    }
}

/// The size of a response of `size` bytes after one more match, given what the
/// serializer made of it; a comma separates it from a match before it.
pub open spec fn next_size(
    size: nat,
    serialized: Result<Seq<u8>, Seq<char>>,
    separated: bool,
) -> Result<nat, SelectionErrorView> {
    match serialized {
        Err(_) => Err(select_report::internal("failed to measure a selection match"@)),
        Ok(bytes) => {
            let total = size + bytes.len() + if separated {
                1nat
            } else {
                0nat
            };
            if total > MAX_RESPONSE_BYTES {
                Err(select_report::oversized_response())
            } else {
                Ok(total)
            }
        },
    }
}

/// Whether a measured size, or the reason against it, is the expected one.
pub open spec fn sizes_as(
    outcome: Result<usize, SelectionErrorDto>,
    expected: Result<nat, SelectionErrorView>,
) -> bool {
    match outcome {
        Ok(size) => expected == Ok::<nat, SelectionErrorView>(size as nat),
        Err(error) => expected == Err::<nat, SelectionErrorView>(error@),
    }
}

/// Measures a response without matches, given what the serializer made of it.
pub fn measure_response(serialized: Result<Vec<u8>, String>) -> (size: Result<
    usize,
    SelectionErrorDto,
>)
    ensures
        sizes_as(size, first_size(json::serialized_view(serialized))),
{
    match serialized {
        Err(_) => Err(internal_error("failed to measure the selection response")),
        Ok(bytes) => {
            let maximum: usize = MAX_RESPONSE_BYTES as usize;
            if bytes.len() >= maximum {
                Err(response_size_error())
            } else {
                Ok(bytes.len() + 1)
            }
        },
    }
}

/// Measures a response after one more match, given what the serializer made of
/// it.
pub fn measure_match(size: usize, serialized: Result<Vec<u8>, String>, separated: bool) -> (total:
    Result<usize, SelectionErrorDto>)
    ensures
        sizes_as(total, next_size(size as nat, json::serialized_view(serialized), separated)),
{
    match serialized {
        Err(_) => Err(internal_error("failed to measure a selection match")),
        Ok(bytes) => {
            let maximum: usize = MAX_RESPONSE_BYTES as usize;
            let separator: usize = if separated {
                1
            } else {
                0
            };
            match size.checked_add(bytes.len()) {
                Some(sum) => match sum.checked_add(separator) {
                    Some(total) => if total > maximum {
                        Err(response_size_error())
                    } else {
                        Ok(total)
                    },
                    None => Err(response_size_error()),
                },
                None => Err(response_size_error()),
            }
        },
    }
}

/// The wire forms of matches that are added to a response of `size` bytes.
pub open spec fn added_matches(
    path: Seq<char>,
    source_digest: Seq<u8>,
    bytes: Seq<u8>,
    matches: Seq<MatchView>,
    size: nat,
    separated: bool,
) -> Result<Seq<JsonView>, SelectionErrorView>
    decreases matches.len(),
{
    if matches.len() == 0 {
        Ok(Seq::empty())
    } else {
        match match_value(path, source_digest, bytes, matches[0]) {
            Err(error) => Err(error),
            Ok(value) => match next_size(size, json::serialized_json(value), separated) {
                Err(error) => Err(error),
                Ok(total) => match added_matches(
                    path,
                    source_digest,
                    bytes,
                    matches.drop_first(),
                    total,
                    true,
                ) {
                    Err(error) => Err(error),
                    Ok(rest) => Ok(seq![value] + rest),
                },
            },
        }
    }
}

/// What a response says besides its matches.
#[verifier::ext_equal]
pub struct ResponseFrame {
    pub workspace: Seq<u8>,
    pub path: Seq<char>,
    pub source_digest: Seq<u8>,
    pub bytes: Seq<u8>,
    pub query: QueryView,
    pub configuration_id: Option<Seq<char>>,
    pub reported_name: Option<Seq<char>>,
    pub reported_version: Option<Seq<char>>,
    pub encoding: SupportedPositionEncoding,
    pub warnings: Seq<JsonView>,
}

/// The wire form of a response with these matches.
pub open spec fn framed_response(frame: ResponseFrame, matches: Seq<JsonView>) -> JsonView {
    selection::selection_response_json(
        digest::prefixed_hex(frame.workspace),
        selection::source_json(
            frame.path,
            digest::prefixed_hex(frame.source_digest),
            frame.bytes.len() as u64,
        ),
        query_json(frame.query),
        selection::server_json(
            frame.configuration_id,
            frame.reported_name,
            frame.reported_version,
            wire_encoding(frame.encoding),
        ),
        matches,
        frame.warnings,
    )
}

/// The wire form of the response to a query, or why there is none.
pub open spec fn response_value(frame: ResponseFrame, matches: Seq<MatchView>) -> Result<
    JsonView,
    SelectionErrorView,
> {
    match first_size(json::serialized_json(framed_response(frame, Seq::empty()))) {
        Err(error) => Err(error),
        Ok(size) => match added_matches(
            frame.path,
            frame.source_digest,
            frame.bytes,
            matches,
            size,
            false,
        ) {
            Err(error) => Err(error),
            Ok(values) => Ok(framed_response(frame, values)),
        },
    }
}

/// What a session reported.
pub struct SessionReport {
    /// The raw document-symbol result.
    pub symbols: Json,
    /// The negotiated position encoding.
    pub position_encoding: SupportedPositionEncoding,
    /// The name that the server reported.
    pub server_name: Option<String>,
    /// The version that the server reported.
    pub server_version: Option<String>,
}

/// Returns the response to a query. Its size is checked match by match, before
/// any of it is written.
pub fn build_response(
    workspace: Sha256Digest,
    snapshot: &SourceSnapshot,
    query: &ValidatedQuery,
    configuration_id: &Option<String>,
    position_encoding: SupportedPositionEncoding,
    reported_name: &Option<String>,
    reported_version: &Option<String>,
    matches: &Vec<SymbolMatch>,
    warnings: Vec<WarningDto>,
) -> (response: Result<SelectionResponse, SelectionErrorDto>)
    ensures
        ({
            let expected = response_value(
                ResponseFrame {
                    workspace: workspace.0@,
                    path: snapshot.path@,
                    source_digest: snapshot.digest.0@,
                    bytes: snapshot.bytes(),
                    query: query@,
                    configuration_id: order::optional_text(*configuration_id),
                    reported_name: order::optional_text(*reported_name),
                    reported_version: order::optional_text(*reported_version),
                    encoding: position_encoding,
                    warnings: wire::warnings_view(warnings@),
                },
                symbols::matches_view(matches@),
            );
            match response {
                Ok(response) => expected == Ok::<JsonView, SelectionErrorView>(response@),
                Err(error) => expected == Err::<JsonView, SelectionErrorView>(error@),
            }
        }),
{
    let ghost frame = ResponseFrame {
        workspace: workspace.0@,
        path: snapshot.path@,
        source_digest: snapshot.digest.0@,
        bytes: snapshot.bytes(),
        query: query@,
        configuration_id: order::optional_text(*configuration_id),
        reported_name: order::optional_text(*reported_name),
        reported_version: order::optional_text(*reported_version),
        encoding: position_encoding,
        warnings: wire::warnings_view(warnings@),
    };
    let ghost views = symbols::matches_view(matches@);
    let source = SelectionSourceDto::new(
        snapshot.path.as_str(),
        snapshot.digest,
        snapshot.text.as_str().as_bytes().len() as u64,
    );
    let server = SelectionServerDto::new(
        copy_optional_text(configuration_id),
        copy_optional_text(reported_name),
        copy_optional_text(reported_version),
        protocol_position_encoding(position_encoding),
    );
    let empty: Vec<SelectionMatchDto> = Vec::new();
    assert(selection::wire_matches(empty@) =~= Seq::<JsonView>::empty());
    let mut response = SelectionResponse::new(
        workspace,
        source,
        protocol_query(query),
        server,
        empty,
        warnings,
    );
    assert(response@ == framed_response(frame, Seq::empty()));
    let mut size: usize = match measure_response(serialize_json(&response.to_json())) {
        Ok(size) => size,
        Err(failure) => return Err(failure),
    };
    let mut built: Vec<SelectionMatchDto> = Vec::new();
    let mut index: usize = 0;
    let ghost expected = added_matches(
        frame.path,
        frame.source_digest,
        frame.bytes,
        views,
        size as nat,
        false,
    );
    assert(views.skip(0) =~= views);
    assert(expected matches Ok(values) ==> values =~= selection::wire_matches(built@) + values);
    #[verifier::loop_isolation(false)]
    while index < matches.len()
        invariant
            index <= matches@.len(),
            views == symbols::matches_view(matches@),
            built@.len() == index,
            frame.path == snapshot.path@,
            frame.source_digest == snapshot.digest.0@,
            frame.bytes == snapshot.bytes(),
            first_size(json::serialized_json(framed_response(frame, Seq::empty()))) is Ok,
            response_value(frame, views) == (match expected {
                Err(error) => Err::<JsonView, SelectionErrorView>(error),
                Ok(values) => Ok(framed_response(frame, values)),
            }),
            expected == (match added_matches(
                frame.path,
                frame.source_digest,
                frame.bytes,
                views.skip(index as int),
                size as nat,
                index > 0,
            ) {
                Err(error) => Err::<Seq<JsonView>, SelectionErrorView>(error),
                Ok(rest) => Ok(selection::wire_matches(built@) + rest),
            }),
        decreases matches@.len() - index,
    {
        let ghost remaining = views.skip(index as int);
        assert(remaining[0] == matches@[index as int]@);
        assert(remaining.drop_first() =~= views.skip(index + 1));
        let record = match build_match(snapshot, &matches[index]) {
            Ok(record) => record,
            Err(failure) => return Err(failure),
        };
        size = match measure_match(size, serialize_json(&record.to_json()), index > 0) {
            Ok(total) => total,
            Err(failure) => return Err(failure),
        };
        let ghost before = selection::wire_matches(built@);
        let ghost value = record@;
        built.push(record);
        proof {
            assert(selection::wire_matches(built@) =~= before.push(value));
            let rest = added_matches(
                frame.path,
                frame.source_digest,
                frame.bytes,
                views.skip(index + 1),
                size as nat,
                true,
            );
            if let Ok(values) = rest {
                assert(before + (seq![value] + values) =~= before.push(value) + values);
            }
        }
        index = index + 1;
    }
    proof {
        assert(views.skip(index as int) =~= Seq::<MatchView>::empty());
        assert(selection::wire_matches(built@) + Seq::<JsonView>::empty()
            =~= selection::wire_matches(built@));
    }
    response.matches = built;
    Ok(response)
}

/// A raw position, as `line:character`.
pub open spec fn point_text(point: position::Position) -> Seq<char> {
    text::decimal(point.line as nat) + ":"@ + text::decimal(point.character as nat)
}

/// A raw range, as two positions.
pub open spec fn range_text(range: Range) -> Seq<char> {
    point_text(range.start) + ".."@ + point_text(range.end)
}

/// The line printed for one match.
pub open spec fn match_line(path: Seq<char>, selected: MatchView) -> Seq<char> {
    terminal::escaped(path) + ":"@ + text::decimal(selected.selected_range.start as nat) + ".."@
        + text::decimal(selected.selected_range.end as nat) + " "@ + kinds::normalized_kind_text(
        selected.kind,
    ) + " "@ + terminal::escaped(selected.name) + " ["@ + terminal::escaped(
        wire::joined(selected.symbol_path, "::"@),
    ) + "] lsp="@ + range_text(selected.lsp_range) + " selection="@ + range_text(
        selected.lsp_selection_range,
    ) + "\n"@
}

/// The lines printed for matches.
pub open spec fn match_lines(path: Seq<char>, matches: Seq<MatchView>) -> Seq<char>
    decreases matches.len(),
{
    if matches.len() == 0 {
        Seq::empty()
    } else {
        match_lines(path, matches.drop_last()) + match_line(path, matches.last())
    }
}

/// The text printed for matches, or why it is too large.
pub open spec fn human_text(path: Seq<char>, matches: Seq<MatchView>) -> Result<
    Seq<char>,
    SelectionErrorView,
> {
    if matches.len() == 0 {
        Ok("no matching document symbols\n"@)
    } else if text::utf8(match_lines(path, matches)).len() > MAX_RESPONSE_BYTES {
        Err(select_report::oversized_response())
    } else {
        Ok(match_lines(path, matches))
    }
}

/// Appends a raw position.
fn push_point(out: &mut String, point: position::Position)
    ensures
        final(out)@ == old(out)@ + point_text(point),
{
    let ghost before = out@;
    push_decimal(out, point.line as u64);
    out.append(":");
    push_decimal(out, point.character as u64);
    assert(out@ =~= before + point_text(point));
}

/// Appends a raw range.
fn push_range(out: &mut String, range: Range)
    ensures
        final(out)@ == old(out)@ + range_text(range),
{
    let ghost before = out@;
    push_point(out, range.start);
    out.append("..");
    push_point(out, range.end);
    assert(out@ =~= before + range_text(range));
}

/// Returns the line printed for one match.
fn render_match(path: &str, selected: &SymbolMatch) -> (line: String)
    ensures
        line@ == match_line(path@, selected@),
{
    let mut line = escape_terminal_text(path);
    line.append(":");
    push_decimal(&mut line, selected.selected_range.start);
    line.append("..");
    push_decimal(&mut line, selected.selected_range.end);
    line.append(" ");
    line.append(selected.kind.as_str());
    line.append(" ");
    line.append(escape_terminal_text(selected.name.as_str()).as_str());
    line.append(" [");
    let mut breadcrumb = String::new();
    push_joined(&mut breadcrumb, &selected.symbol_path, "::");
    assert(breadcrumb@ =~= wire::joined(selected@.symbol_path, "::"@));
    line.append(escape_terminal_text(breadcrumb.as_str()).as_str());
    line.append("] lsp=");
    push_range(&mut line, selected.lsp_range);
    line.append(" selection=");
    push_range(&mut line, selected.lsp_selection_range);
    line.append("\n");
    line
}

/// Fewer matches print no more bytes.
proof fn lemma_match_lines_grow(path: Seq<char>, matches: Seq<MatchView>, count: int)
    requires
        0 <= count <= matches.len(),
    ensures
        text::utf8(match_lines(path, matches.take(count))).len() <= text::utf8(
            match_lines(path, matches),
        ).len(),
    decreases matches.len() - count,
{
    if count < matches.len() {
        let next = matches.take(count + 1);
        assert(next.drop_last() =~= matches.take(count));
        text::lemma_utf8_concat(
            match_lines(path, matches.take(count)),
            match_line(path, next.last()),
        );
        lemma_match_lines_grow(path, matches, count + 1);
    } else {
        assert(matches.take(count) =~= matches);
    }
}

/// Returns the text printed for matches.
pub fn render_human(path: &str, matches: &Vec<SymbolMatch>) -> (output: Result<
    String,
    SelectionErrorDto,
>)
    ensures
        ({
            let expected = human_text(path@, symbols::matches_view(matches@));
            match output {
                Ok(output) => expected == Ok::<Seq<char>, SelectionErrorView>(output@),
                Err(error) => expected == Err::<Seq<char>, SelectionErrorView>(error@),
            }
        }),
{
    let ghost views = symbols::matches_view(matches@);
    let maximum: usize = MAX_RESPONSE_BYTES as usize;
    let mut output = String::new();
    let mut size: usize = 0;
    let mut index: usize = 0;
    assert(views.take(0) =~= Seq::<MatchView>::empty());
    while index < matches.len()
        invariant
            index <= matches@.len(),
            maximum == MAX_RESPONSE_BYTES,
            views == symbols::matches_view(matches@),
            output@ == match_lines(path@, views.take(index as int)),
            size == text::utf8(output@).len(),
            size <= maximum,
        decreases matches@.len() - index,
    {
        let line = render_match(path, &matches[index]);
        proof {
            let taken = views.take(index + 1);
            assert(taken.drop_last() =~= views.take(index as int));
            assert(taken.last() == matches@[index as int]@);
            text::lemma_utf8_concat(output@, line@);
            lemma_match_lines_grow(path@, views, index + 1);
        }
        let line_size: usize = line.as_str().as_bytes().len();
        if line_size > maximum - size {
            return Err(response_size_error());
        }
        size = size + line_size;
        output.append(line.as_str());
        index = index + 1;
    }
    assert(views.take(index as int) =~= views);
    if matches.len() == 0 {
        output.append("no matching document symbols\n");
        assert(output@ =~= "no matching document symbols\n"@);
    }
    Ok(output)
}

/// The bounds that selection applies to symbols.
pub open spec fn default_symbol_limits() -> SymbolLimits {
    SymbolLimits {
        maximum_raw_symbols: symbols::DEFAULT_MAXIMUM_RAW_SYMBOLS,
        maximum_flattened_symbols: symbols::DEFAULT_MAXIMUM_FLATTENED_SYMBOLS,
        maximum_depth: symbols::DEFAULT_MAXIMUM_SYMBOL_DEPTH,
        maximum_name_bytes: symbols::DEFAULT_MAXIMUM_SYMBOL_NAME_BYTES,
        maximum_detail_bytes: symbols::DEFAULT_MAXIMUM_SYMBOL_DETAIL_BYTES,
        maximum_path_bytes: symbols::DEFAULT_MAXIMUM_SYMBOL_PATH_BYTES,
        maximum_candidate_storage_bytes: symbols::DEFAULT_MAXIMUM_CANDIDATE_STORAGE_BYTES,
        maximum_matches: symbols::DEFAULT_MAXIMUM_MATCHES,
        maximum_ambiguity_candidates: symbols::DEFAULT_MAXIMUM_AMBIGUITY_CANDIDATES,
    }
}

/// What the options of the command ask for.
#[derive(Clone, Copy, Debug, PartialEq, Eq, Structural)]
pub struct SelectOptions {
    /// The extent of each match.
    pub extent: SelectionExtent,
    /// Whether every match is wanted.
    pub all_matches: bool,
    /// Whether structured output is wanted.
    pub json: bool,
}

/// Whether one match is required.
pub open spec fn match_mode(all_matches: bool) -> MatchMode {
    if all_matches {
        MatchMode::All
    } else {
        MatchMode::Unique
    }
}

/// The matches of a query among normalized symbols.
pub open spec fn query_matches(
    symbols: Seq<SymbolView>,
    bytes: Seq<u8>,
    query: QueryView,
    extent: SelectionExtent,
    mode: MatchMode,
) -> Result<Seq<MatchView>, SymbolErrorView> {
    match query {
        QueryView::Name { name, kind } => resolve::resolved(
            symbols::ordered_unique(resolve::named(symbols, name, kind)),
            bytes,
            extent,
            mode,
            default_symbol_limits(),
        ),
        QueryView::Byte { offset, kind } => resolve::position_resolved(
            symbols,
            bytes,
            offset,
            kind,
            extent,
            mode,
            default_symbol_limits(),
        ),
    }
}

/// The symbols of a raw result over a source, or why there are none.
pub open spec fn source_symbols(
    response: JsonView,
    bytes: Seq<u8>,
    encoding: SupportedPositionEncoding,
) -> Result<Seq<SymbolView>, SymbolErrorView> {
    normalize::normalized_response(
        response,
        normalize::decoded_symbols(response),
        0,
        Snapshot { bytes, encoding, limit: DEFAULT_MAXIMUM_CODE_POINTS_SCANNED as nat },
        default_symbol_limits(),
    ).0
}

/// The output of a selection over normalized symbols, or why it fails.
pub open spec fn selected_output(
    frame: ResponseFrame,
    symbols: Seq<SymbolView>,
    options: SelectOptions,
) -> Result<Seq<char>, SelectionErrorView> {
    match query_matches(
        symbols,
        frame.bytes,
        frame.query,
        options.extent,
        match_mode(options.all_matches),
    ) {
        Err(error) => Err(select_report::symbol_failure(error)),
        Ok(matches) => match response_value(frame, matches) {
            Err(error) => Err(error),
            Ok(response) => if options.json {
                selection::selection_line(
                    wire::json_line(response, MAX_RESPONSE_BYTES),
                )
            } else {
                human_text(frame.path, matches)
            },
        },
    }
}

/// The output of a selection after its session, or why it fails.
pub open spec fn selection_output(
    frame: ResponseFrame,
    response: JsonView,
    options: SelectOptions,
) -> Result<Seq<char>, SelectionErrorView> {
    match (
        select_report::identity_refusal(frame.reported_name, "reported server name"@),
        select_report::identity_refusal(frame.reported_version, "reported server version"@),
    ) {
        (Some(error), _) => Err(error),
        (None, Some(error)) => Err(error),
        (None, None) => match source_symbols(response, frame.bytes, frame.encoding) {
            Err(error) => Err(select_report::symbol_failure(error)),
            Ok(symbols) => selected_output(frame, symbols, options),
        },
    }
}

/// Whether a produced text, or its error, is the expected one.
pub open spec fn outputs_as(
    output: Result<String, SelectionErrorDto>,
    expected: Result<Seq<char>, SelectionErrorView>,
) -> bool {
    match output {
        Ok(text) => expected == Ok::<Seq<char>, SelectionErrorView>(text@),
        Err(error) => expected == Err::<Seq<char>, SelectionErrorView>(error@),
    }
}

/// Resolves the query among normalized symbols and returns the output.
pub fn select_among(
    workspace: Sha256Digest,
    snapshot: &SourceSnapshot,
    query: &ValidatedQuery,
    options: SelectOptions,
    configuration_id: &Option<String>,
    position_encoding: SupportedPositionEncoding,
    reported_name: &Option<String>,
    reported_version: &Option<String>,
    symbols: &Vec<symbols::NormalizedSymbol>,
    warnings: Vec<WarningDto>,
) -> (output: Result<String, SelectionErrorDto>)
    ensures
        outputs_as(
            output,
            selected_output(
                ResponseFrame {
                    workspace: workspace.0@,
                    path: snapshot.path@,
                    source_digest: snapshot.digest.0@,
                    bytes: snapshot.bytes(),
                    query: query@,
                    configuration_id: order::optional_text(*configuration_id),
                    reported_name: order::optional_text(*reported_name),
                    reported_version: order::optional_text(*reported_version),
                    encoding: position_encoding,
                    warnings: wire::warnings_view(warnings@),
                },
                symbols::symbols_view(symbols@),
                options,
            ),
        ),
{
    let mode = if options.all_matches {
        MatchMode::All
    } else {
        MatchMode::Unique
    };
    let source: &str = snapshot.text.as_str();
    let resolved = match &query.value {
        QueryValue::Name(name) => resolve_name(
            symbols.as_slice(),
            source,
            name.as_str(),
            query.kind,
            options.extent,
            mode,
            SymbolLimits::default(),
        ),
        QueryValue::Byte(offset) => resolve_position(
            symbols.as_slice(),
            source,
            *offset,
            query.kind,
            options.extent,
            mode,
            SymbolLimits::default(),
        ),
    };
    let matches = match resolved {
        Ok(matches) => matches,
        Err(failure) => return Err(map_symbol_error(&failure)),
    };
    let response = match build_response(
        workspace,
        snapshot,
        query,
        configuration_id,
        position_encoding,
        reported_name,
        reported_version,
        &matches,
        warnings,
    ) {
        Ok(response) => response,
        Err(failure) => return Err(failure),
    };
    if options.json {
        match to_selection_json_line(&response.to_json()) {
            Ok(line) => Ok(line),
            Err(failure) => Err(failure.into_report()),
        }
    } else {
        render_human(snapshot.path.as_str(), &matches)
    }
}

/// Turns what a session reported into the output of the selection.
pub fn complete_selection(
    workspace: Sha256Digest,
    snapshot: &SourceSnapshot,
    query: &ValidatedQuery,
    options: SelectOptions,
    configuration_id: &Option<String>,
    report: SessionReport,
    warnings: Vec<WarningDto>,
) -> (output: Result<String, SelectionErrorDto>)
    requires
        snapshot.wf(),
    ensures
        outputs_as(
            output,
            selection_output(
                ResponseFrame {
                    workspace: workspace.0@,
                    path: snapshot.path@,
                    source_digest: snapshot.digest.0@,
                    bytes: snapshot.bytes(),
                    query: query@,
                    configuration_id: order::optional_text(*configuration_id),
                    reported_name: order::optional_text(report.server_name),
                    reported_version: order::optional_text(report.server_version),
                    encoding: report.position_encoding,
                    warnings: wire::warnings_view(warnings@),
                },
                report.symbols@,
                options,
            ),
        ),
{
    if let Err(failure) = validate_server_identity(&report.server_name, "reported server name") {
        return Err(failure);
    }
    if let Err(failure) = validate_server_identity(
        &report.server_version,
        "reported server version",
    ) {
        return Err(failure);
    }
    let mut converter = match PositionConverter::new(
        snapshot.text.as_str(),
        &snapshot.line_index,
        report.position_encoding,
        PositionLimits::default(),
    ) {
        Ok(converter) => converter,
        Err(failure) => return Err(map_position_protocol_error(failure)),
    };
    let normalized = normalize_document_symbols(
        report.symbols,
        &mut converter,
        SymbolLimits::default(),
    );
    let symbols = match normalized {
        Ok(symbols) => symbols,
        Err(failure) => return Err(map_symbol_error(&failure)),
    };
    select_among(
        workspace,
        snapshot,
        query,
        options,
        configuration_id,
        report.position_encoding,
        &report.server_name,
        &report.server_version,
        &symbols,
        warnings,
    )
}

/// The wire spelling of a kind is its spelling as a filter.
pub proof fn law_wire_kinds_keep_their_spelling(kind: NormalizedSymbolKind)
    ensures
        selection::result_kind_text(wire_symbol_kind(kind)) == kinds::normalized_kind_text(kind),
{
}

/// The matches that a response accepts are reported one by one.
proof fn lemma_added_matches(
    path: Seq<char>,
    source_digest: Seq<u8>,
    bytes: Seq<u8>,
    matches: Seq<MatchView>,
    size: nat,
    separated: bool,
)
    requires
        added_matches(path, source_digest, bytes, matches, size, separated) is Ok,
    ensures
        ({
            let values = added_matches(path, source_digest, bytes, matches, size, separated)->Ok_0;
            &&& values.len() == matches.len()
            &&& forall|i: int|
                0 <= i < matches.len() ==> match_value(
                    path,
                    source_digest,
                    bytes,
                    #[trigger] matches[i],
                ) == Ok::<JsonView, SelectionErrorView>(values[i])
        }),
    decreases matches.len(),
{
    if matches.len() > 0 {
        let value = match_value(path, source_digest, bytes, matches[0])->Ok_0;
        let total = next_size(size, json::serialized_json(value), separated)->Ok_0;
        let rest = matches.drop_first();
        lemma_added_matches(path, source_digest, bytes, rest, total, true);
        let later = added_matches(path, source_digest, bytes, rest, total, true)->Ok_0;
        let values = seq![value] + later;
        assert forall|i: int| 0 <= i < matches.len() implies match_value(
            path,
            source_digest,
            bytes,
            #[trigger] matches[i],
        ) == Ok::<JsonView, SelectionErrorView>(values[i]) by {
            if i > 0 {
                assert(rest[i - 1] == matches[i]);
                assert(values[i] == later[i - 1]);
            }
        }
    }
}

/// A response reports every match, in order, or fails; none is dropped.
pub proof fn law_responses_are_complete(frame: ResponseFrame, matches: Seq<MatchView>)
    requires
        response_value(frame, matches) is Ok,
    ensures
        response_value(frame, matches) == Ok::<JsonView, SelectionErrorView>(
            framed_response(
                frame,
                Seq::new(
                    matches.len(),
                    |i: int|
                        match_value(frame.path, frame.source_digest, frame.bytes, matches[i])->Ok_0,
                ),
            ),
        ),
{
    let size = first_size(json::serialized_json(framed_response(frame, Seq::empty())))->Ok_0;
    lemma_added_matches(
        frame.path,
        frame.source_digest,
        frame.bytes,
        matches,
        size,
        false,
    );
    let values = added_matches(
        frame.path,
        frame.source_digest,
        frame.bytes,
        matches,
        size,
        false,
    )->Ok_0;
    assert(values =~= Seq::new(
        matches.len(),
        |i: int| match_value(frame.path, frame.source_digest, frame.bytes, matches[i])->Ok_0,
    ));
}

/// Every match of a response that is made can be selected.
pub proof fn lemma_response_matches(frame: ResponseFrame, matches: Seq<MatchView>, place: int)
    requires
        response_value(frame, matches) is Ok,
        0 <= place < matches.len(),
    ensures
        match_value(frame.path, frame.source_digest, frame.bytes, matches[place]) is Ok,
{
    let size = first_size(json::serialized_json(framed_response(frame, Seq::empty())))->Ok_0;
    lemma_added_matches(frame.path, frame.source_digest, frame.bytes, matches, size, false);
}

/// The edit source of a match selects the match's own bytes, of the response's
/// own source, under the digest of the whole snapshot.
pub proof fn law_request_sources_are_copy_ready(frame: ResponseFrame, selected: MatchView)
    requires
        match_value(frame.path, frame.source_digest, frame.bytes, selected) is Ok,
    ensures
        ({
            let selector = SelectionByteSelectorDto {
                start: selected.selected_range.start,
                end: selected.selected_range.end,
            };
            let members = match_value(
                frame.path,
                frame.source_digest,
                frame.bytes,
                selected,
            )->Ok_0->Object_0;
            &&& members[7] == ("selector"@, selector@)
            &&& members[10] == (
                "request_source"@,
                selection::request_source_json(
                    frame.path,
                    selector,
                    digest::prefixed_hex(frame.source_digest),
                ),
            )
            &&& selector.start <= selector.end <= frame.bytes.len()
        }),
{
}

} // verus!
