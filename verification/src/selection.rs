//! The semantic-selection protocol: its records, its errors, and its lines.

use vstd::prelude::*;
use vstd::string::StringExecFns;

use crate::digest;
use crate::digest::Sha256Digest;
use crate::json;
use crate::json::{json_array, json_number, json_object, json_text, named, Json, JsonView};
use crate::order;
use crate::text;
use crate::text_map;
use crate::text_map::TextMap;
use crate::wire;
use crate::wire::{
    copy_members, json_optional_text, json_texts, json_warnings, text_from_utf8,
    write_bounded_json_line, BoundedJsonLineFailure, WarningDto, MAX_RESPONSE_BYTES,
};

verus! {

/// The only semantic-selection protocol version.
pub const SELECTION_PROTOCOL_VERSION: u64 = 1;

/// A byte selector ready for insertion into an edit source.
#[derive(Clone, Copy, Debug, PartialEq, Eq, Structural)]
pub struct SelectionByteSelectorDto {
    /// The inclusive start byte offset.
    pub start: u64,
    /// The exclusive end byte offset.
    pub end: u64,
}

impl View for SelectionByteSelectorDto {
    type V = JsonView;

    open spec fn view(&self) -> JsonView {
        JsonView::Object(
            seq![
                ("kind"@, JsonView::String("bytes"@)),
                ("start"@, json::number_json(self.start)),
                ("end"@, json::number_json(self.end)),
            ],
        )
    }
}

impl SelectionByteSelectorDto {
    /// Creates a half-open byte selector from already validated coordinates.
    pub fn new(start: u64, end: u64) -> (selector: Self)
        ensures
            selector == (SelectionByteSelectorDto { start, end }),
    {
        SelectionByteSelectorDto { start, end }
    }

    /// Returns the inclusive start byte offset.
    pub fn start(self) -> (start: u64)
        ensures
            start == self.start,
    {
        self.start
    }

    /// Returns the exclusive end byte offset.
    pub fn end(self) -> (end: u64)
        ensures
            end == self.end,
    {
        self.end
    }

    /// Returns the wire form.
    pub fn to_json(&self) -> (value: Json)
        ensures
            value@ == self@,
    {
        let members = vec![
            named("kind", json_text("bytes")),
            named("start", json_number(self.start)),
            named("end", json_number(self.end)),
        ];
        assert(json::members_view(members@) =~= self@->Object_0);
        json_object(members)
    }
}

/// One raw zero-based LSP position retained for audit output.
#[derive(Clone, Copy, Debug, PartialEq, Eq, Structural)]
pub struct SelectionLspPositionDto {
    /// The raw zero-based line.
    pub line: u32,
    /// The raw zero-based character offset.
    pub character: u32,
}

impl View for SelectionLspPositionDto {
    type V = JsonView;

    open spec fn view(&self) -> JsonView {
        JsonView::Object(
            seq![
                ("line"@, json::number_json(self.line as u64)),
                ("character"@, json::number_json(self.character as u64)),
            ],
        )
    }
}

impl SelectionLspPositionDto {
    /// Creates a raw LSP position from server-provided coordinates.
    pub fn new(line: u32, character: u32) -> (position: Self)
        ensures
            position == (SelectionLspPositionDto { line, character }),
    {
        SelectionLspPositionDto { line, character }
    }

    /// Returns the raw zero-based line.
    pub fn line(self) -> (line: u32)
        ensures
            line == self.line,
    {
        self.line
    }

    /// Returns the raw zero-based character offset.
    pub fn character(self) -> (character: u32)
        ensures
            character == self.character,
    {
        self.character
    }

    /// Returns the wire form.
    pub fn to_json(&self) -> (value: Json)
        ensures
            value@ == self@,
    {
        let members = vec![
            named("line", json_number(self.line as u64)),
            named("character", json_number(self.character as u64)),
        ];
        assert(json::members_view(members@) =~= self@->Object_0);
        json_object(members)
    }
}

/// One raw zero-based LSP range retained for audit output.
#[derive(Clone, Copy, Debug, PartialEq, Eq, Structural)]
pub struct SelectionLspRangeDto {
    /// The raw range start.
    pub start: SelectionLspPositionDto,
    /// The raw range end.
    pub end: SelectionLspPositionDto,
}

impl View for SelectionLspRangeDto {
    type V = JsonView;

    open spec fn view(&self) -> JsonView {
        JsonView::Object(seq![("start"@, self.start@), ("end"@, self.end@)])
    }
}

impl SelectionLspRangeDto {
    /// Creates an LSP range from its raw endpoints.
    pub fn new(start: SelectionLspPositionDto, end: SelectionLspPositionDto) -> (range: Self)
        ensures
            range == (SelectionLspRangeDto { start, end }),
    {
        SelectionLspRangeDto { start, end }
    }

    /// Returns the raw range start.
    pub fn start(self) -> (start: SelectionLspPositionDto)
        ensures
            start == self.start,
    {
        self.start
    }

    /// Returns the raw range end.
    pub fn end(self) -> (end: SelectionLspPositionDto)
        ensures
            end == self.end,
    {
        self.end
    }

    /// Returns the wire form.
    pub fn to_json(&self) -> (value: Json)
        ensures
            value@ == self@,
    {
        let members = vec![named("start", self.start.to_json()), named("end", self.end.to_json())];
        assert(json::members_view(members@) =~= self@->Object_0);
        json_object(members)
    }
}

/// A standardized symbol kind accepted as a selection query filter.
#[derive(Clone, Copy, Debug, PartialEq, Eq, Structural)]
pub enum SelectionKnownSymbolKindDto {
    /// A file.
    File,
    /// A module.
    Module,
    /// A namespace.
    Namespace,
    /// A package.
    Package,
    /// A class.
    Class,
    /// A method.
    Method,
    /// A property.
    Property,
    /// A field.
    Field,
    /// A constructor.
    Constructor,
    /// An enumeration.
    Enum,
    /// An interface.
    Interface,
    /// A function.
    Function,
    /// A variable.
    Variable,
    /// A constant.
    Constant,
    /// A string value.
    String,
    /// A numeric value.
    Number,
    /// A boolean value.
    Boolean,
    /// An array value.
    Array,
    /// An object value.
    Object,
    /// An object key.
    Key,
    /// A null value.
    Null,
    /// An enumeration member.
    EnumMember,
    /// A structure.
    Struct,
    /// An event.
    Event,
    /// An operator.
    Operator,
    /// A type parameter.
    TypeParameter,
}

/// The frozen lowercase wire spelling of a standardized kind.
pub open spec fn wire_kind_text(value: SelectionKnownSymbolKindDto) -> Seq<char> {
    match value {
        SelectionKnownSymbolKindDto::File => "file"@,
        SelectionKnownSymbolKindDto::Module => "module"@,
        SelectionKnownSymbolKindDto::Namespace => "namespace"@,
        SelectionKnownSymbolKindDto::Package => "package"@,
        SelectionKnownSymbolKindDto::Class => "class"@,
        SelectionKnownSymbolKindDto::Method => "method"@,
        SelectionKnownSymbolKindDto::Property => "property"@,
        SelectionKnownSymbolKindDto::Field => "field"@,
        SelectionKnownSymbolKindDto::Constructor => "constructor"@,
        SelectionKnownSymbolKindDto::Enum => "enum"@,
        SelectionKnownSymbolKindDto::Interface => "interface"@,
        SelectionKnownSymbolKindDto::Function => "function"@,
        SelectionKnownSymbolKindDto::Variable => "variable"@,
        SelectionKnownSymbolKindDto::Constant => "constant"@,
        SelectionKnownSymbolKindDto::String => "string"@,
        SelectionKnownSymbolKindDto::Number => "number"@,
        SelectionKnownSymbolKindDto::Boolean => "boolean"@,
        SelectionKnownSymbolKindDto::Array => "array"@,
        SelectionKnownSymbolKindDto::Object => "object"@,
        SelectionKnownSymbolKindDto::Key => "key"@,
        SelectionKnownSymbolKindDto::Null => "null"@,
        SelectionKnownSymbolKindDto::EnumMember => "enum_member"@,
        SelectionKnownSymbolKindDto::Struct => "struct"@,
        SelectionKnownSymbolKindDto::Event => "event"@,
        SelectionKnownSymbolKindDto::Operator => "operator"@,
        SelectionKnownSymbolKindDto::TypeParameter => "type_parameter"@,
    }
}

impl SelectionKnownSymbolKindDto {
    /// Returns every standardized symbol kind, in LSP order.
    pub fn all() -> (values: Vec<Self>)
        ensures
            values@.len() == 26,
            forall|value: Self| values@.contains(value),
            values@.no_duplicates(),
    {
        let values = vec![
            SelectionKnownSymbolKindDto::File,
            SelectionKnownSymbolKindDto::Module,
            SelectionKnownSymbolKindDto::Namespace,
            SelectionKnownSymbolKindDto::Package,
            SelectionKnownSymbolKindDto::Class,
            SelectionKnownSymbolKindDto::Method,
            SelectionKnownSymbolKindDto::Property,
            SelectionKnownSymbolKindDto::Field,
            SelectionKnownSymbolKindDto::Constructor,
            SelectionKnownSymbolKindDto::Enum,
            SelectionKnownSymbolKindDto::Interface,
            SelectionKnownSymbolKindDto::Function,
            SelectionKnownSymbolKindDto::Variable,
            SelectionKnownSymbolKindDto::Constant,
            SelectionKnownSymbolKindDto::String,
            SelectionKnownSymbolKindDto::Number,
            SelectionKnownSymbolKindDto::Boolean,
            SelectionKnownSymbolKindDto::Array,
            SelectionKnownSymbolKindDto::Object,
            SelectionKnownSymbolKindDto::Key,
            SelectionKnownSymbolKindDto::Null,
            SelectionKnownSymbolKindDto::EnumMember,
            SelectionKnownSymbolKindDto::Struct,
            SelectionKnownSymbolKindDto::Event,
            SelectionKnownSymbolKindDto::Operator,
            SelectionKnownSymbolKindDto::TypeParameter,
        ];
        proof {
            assert forall|value: Self| values@.contains(value) by {
                match value {
                    SelectionKnownSymbolKindDto::File => assert(values@[0] == value),
                    SelectionKnownSymbolKindDto::Module => assert(values@[1] == value),
                    SelectionKnownSymbolKindDto::Namespace => assert(values@[2] == value),
                    SelectionKnownSymbolKindDto::Package => assert(values@[3] == value),
                    SelectionKnownSymbolKindDto::Class => assert(values@[4] == value),
                    SelectionKnownSymbolKindDto::Method => assert(values@[5] == value),
                    SelectionKnownSymbolKindDto::Property => assert(values@[6] == value),
                    SelectionKnownSymbolKindDto::Field => assert(values@[7] == value),
                    SelectionKnownSymbolKindDto::Constructor => assert(values@[8] == value),
                    SelectionKnownSymbolKindDto::Enum => assert(values@[9] == value),
                    SelectionKnownSymbolKindDto::Interface => assert(values@[10] == value),
                    SelectionKnownSymbolKindDto::Function => assert(values@[11] == value),
                    SelectionKnownSymbolKindDto::Variable => assert(values@[12] == value),
                    SelectionKnownSymbolKindDto::Constant => assert(values@[13] == value),
                    SelectionKnownSymbolKindDto::String => assert(values@[14] == value),
                    SelectionKnownSymbolKindDto::Number => assert(values@[15] == value),
                    SelectionKnownSymbolKindDto::Boolean => assert(values@[16] == value),
                    SelectionKnownSymbolKindDto::Array => assert(values@[17] == value),
                    SelectionKnownSymbolKindDto::Object => assert(values@[18] == value),
                    SelectionKnownSymbolKindDto::Key => assert(values@[19] == value),
                    SelectionKnownSymbolKindDto::Null => assert(values@[20] == value),
                    SelectionKnownSymbolKindDto::EnumMember => assert(values@[21] == value),
                    SelectionKnownSymbolKindDto::Struct => assert(values@[22] == value),
                    SelectionKnownSymbolKindDto::Event => assert(values@[23] == value),
                    SelectionKnownSymbolKindDto::Operator => assert(values@[24] == value),
                    SelectionKnownSymbolKindDto::TypeParameter => assert(values@[25] == value),
                }
            }
        }
        values
    }

    /// Returns the stable wire spelling.
    pub fn as_str(self) -> (text: &'static str)
        ensures
            text@ == wire_kind_text(self),
    {
        match self {
            SelectionKnownSymbolKindDto::File => "file",
            SelectionKnownSymbolKindDto::Module => "module",
            SelectionKnownSymbolKindDto::Namespace => "namespace",
            SelectionKnownSymbolKindDto::Package => "package",
            SelectionKnownSymbolKindDto::Class => "class",
            SelectionKnownSymbolKindDto::Method => "method",
            SelectionKnownSymbolKindDto::Property => "property",
            SelectionKnownSymbolKindDto::Field => "field",
            SelectionKnownSymbolKindDto::Constructor => "constructor",
            SelectionKnownSymbolKindDto::Enum => "enum",
            SelectionKnownSymbolKindDto::Interface => "interface",
            SelectionKnownSymbolKindDto::Function => "function",
            SelectionKnownSymbolKindDto::Variable => "variable",
            SelectionKnownSymbolKindDto::Constant => "constant",
            SelectionKnownSymbolKindDto::String => "string",
            SelectionKnownSymbolKindDto::Number => "number",
            SelectionKnownSymbolKindDto::Boolean => "boolean",
            SelectionKnownSymbolKindDto::Array => "array",
            SelectionKnownSymbolKindDto::Object => "object",
            SelectionKnownSymbolKindDto::Key => "key",
            SelectionKnownSymbolKindDto::Null => "null",
            SelectionKnownSymbolKindDto::EnumMember => "enum_member",
            SelectionKnownSymbolKindDto::Struct => "struct",
            SelectionKnownSymbolKindDto::Event => "event",
            SelectionKnownSymbolKindDto::Operator => "operator",
            SelectionKnownSymbolKindDto::TypeParameter => "type_parameter",
        }
    }

}

/// A standardized or unknown symbol kind in a selection result.
#[derive(Clone, Copy, Debug, PartialEq, Eq, Structural)]
pub enum SelectionSymbolKindDto {
    /// A symbol kind standardized by LSP.
    Known(SelectionKnownSymbolKindDto),
    /// A future or vendor-defined symbol kind.
    Unknown,
}

/// The frozen lowercase wire spelling of a result's kind.
pub open spec fn result_kind_text(kind: SelectionSymbolKindDto) -> Seq<char> {
    match kind {
        SelectionSymbolKindDto::Known(kind) => wire_kind_text(kind),
        SelectionSymbolKindDto::Unknown => "unknown"@,
    }
}

impl SelectionSymbolKindDto {
    /// Returns the frozen lowercase wire spelling.
    pub fn as_str(self) -> (text: &'static str)
        ensures
            text@ == result_kind_text(self),
    {
        match self {
            SelectionSymbolKindDto::Known(kind) => kind.as_str(),
            SelectionSymbolKindDto::Unknown => "unknown",
        }
    }
}

impl From<SelectionKnownSymbolKindDto> for SelectionSymbolKindDto {
    fn from(kind: SelectionKnownSymbolKindDto) -> (converted: Self) {
        SelectionSymbolKindDto::Known(kind)
    }
}

impl vstd::std_specs::convert::FromSpecImpl<SelectionKnownSymbolKindDto> for SelectionSymbolKindDto {
    open spec fn obeys_from_spec() -> bool {
        true
    }

    open spec fn from_spec(kind: SelectionKnownSymbolKindDto) -> Self {
        SelectionSymbolKindDto::Known(kind)
    }
}

/// The normalized query recorded in a selection response.
#[derive(Clone, Debug, PartialEq, Eq)]
pub enum SelectionQueryDto {
    /// An exact symbol-name query.
    Name {
        /// The exact unqualified symbol name.
        name: String,
        /// The optional standardized symbol-kind filter.
        symbol_kind: Option<SelectionKnownSymbolKindDto>,
    },
    /// A query for the smallest symbol containing one snapshot byte.
    Position {
        /// The validated zero-based snapshot byte offset.
        byte_offset: u64,
        /// The optional standardized symbol-kind filter.
        symbol_kind: Option<SelectionKnownSymbolKindDto>,
    },
}

/// The wire form of an optional kind filter.
pub open spec fn filter_json(kind: Option<SelectionKnownSymbolKindDto>) -> JsonView {
    match kind {
        Some(kind) => JsonView::String(wire_kind_text(kind)),
        None => JsonView::Null,
    }
}

/// The wire form of a name query.
pub open spec fn name_query_json(
    name: Seq<char>,
    kind: Option<SelectionKnownSymbolKindDto>,
) -> JsonView {
    JsonView::Object(
        seq![
            ("kind"@, JsonView::String("name"@)),
            ("name"@, JsonView::String(name)),
            ("symbol_kind"@, filter_json(kind)),
        ],
    )
}

/// The wire form of a position query.
pub open spec fn position_query_json(
    byte_offset: u64,
    kind: Option<SelectionKnownSymbolKindDto>,
) -> JsonView {
    JsonView::Object(
        seq![
            ("kind"@, JsonView::String("position"@)),
            ("byte_offset"@, json::number_json(byte_offset)),
            ("symbol_kind"@, filter_json(kind)),
        ],
    )
}

impl View for SelectionQueryDto {
    type V = JsonView;

    open spec fn view(&self) -> JsonView {
        match self {
            SelectionQueryDto::Name { name, symbol_kind } => name_query_json(name@, *symbol_kind),
            SelectionQueryDto::Position { byte_offset, symbol_kind } => position_query_json(
                *byte_offset,
                *symbol_kind,
            ),
        }
    }
}

/// Returns the wire form of an optional kind filter.
fn json_filter(kind: Option<SelectionKnownSymbolKindDto>) -> (value: Json)
    ensures
        value@ == filter_json(kind),
{
    match kind {
        Some(kind) => json_text(kind.as_str()),
        None => Json::Null,
    }
}

impl SelectionQueryDto {
    /// Creates an exact name query.
    pub fn name(name: &str, symbol_kind: Option<SelectionKnownSymbolKindDto>) -> (query: Self)
        ensures
            query@ == name_query_json(name@, symbol_kind),
            query matches SelectionQueryDto::Name { name: kept, symbol_kind: filter } && kept@
                == name@ && filter == symbol_kind,
    {
        SelectionQueryDto::Name { name: name.to_owned(), symbol_kind }
    }

    /// Creates a normalized position query.
    pub fn position(
        byte_offset: u64,
        symbol_kind: Option<SelectionKnownSymbolKindDto>,
    ) -> (query: Self)
        ensures
            query == (SelectionQueryDto::Position { byte_offset, symbol_kind }),
    {
        SelectionQueryDto::Position { byte_offset, symbol_kind }
    }

    /// Returns the wire form.
    pub fn to_json(&self) -> (value: Json)
        ensures
            value@ == self@,
    {
        let members = match self {
            SelectionQueryDto::Name { name, symbol_kind } => vec![
                named("kind", json_text("name")),
                named("name", json_text(name.as_str())),
                named("symbol_kind", json_filter(*symbol_kind)),
            ],
            SelectionQueryDto::Position { byte_offset, symbol_kind } => vec![
                named("kind", json_text("position")),
                named("byte_offset", json_number(*byte_offset)),
                named("symbol_kind", json_filter(*symbol_kind)),
            ],
        };
        assert(json::members_view(members@) =~= self@->Object_0);
        json_object(members)
    }
}

/// The immutable source snapshot described by a response.
#[derive(Clone, Debug, PartialEq, Eq)]
pub struct SelectionSourceDto {
    /// The workspace-relative path.
    pub path: String,
    /// The snapshot digest, in its textual form.
    pub sha256: String,
    /// The snapshot length.
    pub byte_length: u64,
}

/// The wire form of a source description.
pub open spec fn source_json(path: Seq<char>, sha256: Seq<char>, byte_length: u64) -> JsonView {
    JsonView::Object(
        seq![
            ("path"@, JsonView::String(path)),
            ("sha256"@, JsonView::String(sha256)),
            ("byte_length"@, json::number_json(byte_length)),
        ],
    )
}

impl View for SelectionSourceDto {
    type V = JsonView;

    open spec fn view(&self) -> JsonView {
        source_json(self.path@, self.sha256@, self.byte_length)
    }
}

impl SelectionSourceDto {
    /// Creates source metadata from validated workspace-relative data.
    pub fn new(path: &str, sha256: Sha256Digest, byte_length: u64) -> (source: Self)
        ensures
            source.path@ == path@,
            source.sha256@ == digest::prefixed_hex(sha256.0@),
            source.byte_length == byte_length,
    {
        SelectionSourceDto { path: path.to_owned(), sha256: sha256.to_prefixed_hex(), byte_length }
    }

    /// Returns the wire form.
    pub fn to_json(&self) -> (value: Json)
        ensures
            value@ == self@,
    {
        let members = vec![
            named("path", json_text(self.path.as_str())),
            named("sha256", json_text(self.sha256.as_str())),
            named("byte_length", json_number(self.byte_length)),
        ];
        assert(json::members_view(members@) =~= self@->Object_0);
        json_object(members)
    }
}

/// The negotiated LSP position encoding recorded in a response.
#[derive(Clone, Copy, Debug, PartialEq, Eq, Structural)]
pub enum SelectionPositionEncodingDto {
    /// UTF-8 code units.
    Utf8,
    /// UTF-16 code units.
    Utf16,
    /// UTF-32 code units.
    Utf32,
}

/// The LSP wire spelling of a position encoding.
pub open spec fn encoding_text(value: SelectionPositionEncodingDto) -> Seq<char> {
    match value {
        SelectionPositionEncodingDto::Utf8 => "utf-8"@,
        SelectionPositionEncodingDto::Utf16 => "utf-16"@,
        SelectionPositionEncodingDto::Utf32 => "utf-32"@,
    }
}

impl SelectionPositionEncodingDto {
    /// Returns the stable wire spelling.
    pub fn as_str(self) -> (text: &'static str)
        ensures
            text@ == encoding_text(self),
    {
        match self {
            SelectionPositionEncodingDto::Utf8 => "utf-8",
            SelectionPositionEncodingDto::Utf16 => "utf-16",
            SelectionPositionEncodingDto::Utf32 => "utf-32",
        }
    }

}

/// Non-sensitive server metadata recorded in a response.
#[derive(Clone, Debug, PartialEq, Eq)]
pub struct SelectionServerDto {
    /// The configured descriptor's identifier.
    pub configuration_id: Option<String>,
    /// The name that the server reported.
    pub reported_name: Option<String>,
    /// The version that the server reported.
    pub reported_version: Option<String>,
    /// The negotiated position encoding.
    pub position_encoding: SelectionPositionEncodingDto,
}

/// The wire form of server metadata.
pub open spec fn server_json(
    configuration_id: Option<Seq<char>>,
    reported_name: Option<Seq<char>>,
    reported_version: Option<Seq<char>>,
    position_encoding: SelectionPositionEncodingDto,
) -> JsonView {
    JsonView::Object(
        seq![
            ("configuration_id"@, wire::optional_text_json(configuration_id)),
            ("reported_name"@, wire::optional_text_json(reported_name)),
            ("reported_version"@, wire::optional_text_json(reported_version)),
            ("position_encoding"@, JsonView::String(encoding_text(position_encoding))),
        ],
    )
}

impl View for SelectionServerDto {
    type V = JsonView;

    open spec fn view(&self) -> JsonView {
        server_json(
            order::optional_text(self.configuration_id),
            order::optional_text(self.reported_name),
            order::optional_text(self.reported_version),
            self.position_encoding,
        )
    }
}

impl SelectionServerDto {
    /// Creates server metadata without retaining invocation or configuration details.
    pub fn new(
        configuration_id: Option<String>,
        reported_name: Option<String>,
        reported_version: Option<String>,
        position_encoding: SelectionPositionEncodingDto,
    ) -> (server: Self)
        ensures
            server == (SelectionServerDto {
                configuration_id,
                reported_name,
                reported_version,
                position_encoding,
            }),
    {
        SelectionServerDto { configuration_id, reported_name, reported_version, position_encoding }
    }

    /// Returns the wire form.
    pub fn to_json(&self) -> (value: Json)
        ensures
            value@ == self@,
    {
        let members = vec![
            named("configuration_id", json_optional_text(&self.configuration_id)),
            named("reported_name", json_optional_text(&self.reported_name)),
            named("reported_version", json_optional_text(&self.reported_version)),
            named("position_encoding", json_text(self.position_encoding.as_str())),
        ];
        assert(json::members_view(members@) =~= self@->Object_0);
        json_object(members)
    }
}

/// A copy-ready edit source fragment, whose precondition is the digest of the
/// whole snapshot.
#[derive(Clone, Debug, PartialEq, Eq)]
pub struct SelectionRequestSourceDto {
    /// The workspace-relative path.
    pub path: String,
    /// The selected bytes.
    pub selector: SelectionByteSelectorDto,
    /// The snapshot digest, in its textual form.
    pub source_sha256: String,
}

/// The wire form of an edit source fragment.
pub open spec fn request_source_json(
    path: Seq<char>,
    selector: SelectionByteSelectorDto,
    source_sha256: Seq<char>,
) -> JsonView {
    JsonView::Object(
        seq![
            ("path"@, JsonView::String(path)),
            ("selector"@, selector@),
            (
                "precondition"@,
                JsonView::Object(
                    seq![
                        ("kind"@, JsonView::String("sha256"@)),
                        ("value"@, JsonView::String(source_sha256)),
                    ],
                ),
            ),
        ],
    )
}

impl View for SelectionRequestSourceDto {
    type V = JsonView;

    open spec fn view(&self) -> JsonView {
        request_source_json(self.path@, self.selector, self.source_sha256@)
    }
}

impl SelectionRequestSourceDto {
    /// Creates an edit source with an exact snapshot digest precondition.
    pub fn new(
        path: &str,
        selector: SelectionByteSelectorDto,
        source_sha256: Sha256Digest,
    ) -> (source: Self)
        ensures
            source.path@ == path@,
            source.selector == selector,
            source.source_sha256@ == digest::prefixed_hex(source_sha256.0@),
    {
        SelectionRequestSourceDto {
            path: path.to_owned(),
            selector,
            source_sha256: source_sha256.to_prefixed_hex(),
        }
    }

    /// Returns the wire form.
    pub fn to_json(&self) -> (value: Json)
        ensures
            value@ == self@,
    {
        let precondition = vec![
            named("kind", json_text("sha256")),
            named("value", json_text(self.source_sha256.as_str())),
        ];
        assert(json::members_view(precondition@) =~= self@->Object_0[2].1->Object_0);
        let members = vec![
            named("path", json_text(self.path.as_str())),
            named("selector", self.selector.to_json()),
            named("precondition", json_object(precondition)),
        ];
        assert(json::members_view(members@) =~= self@->Object_0);
        json_object(members)
    }
}

/// The extent applied to an authoritative result byte selector.
#[derive(Clone, Copy, Debug, PartialEq, Eq, Structural)]
pub enum SelectionExtentDto {
    /// Use the raw enclosing symbol range.
    Symbol,
    /// Include whitespace-only declaration line edges.
    DeclarationLines,
}

/// The stable wire spelling of an extent.
pub open spec fn extent_text(value: SelectionExtentDto) -> Seq<char> {
    match value {
        SelectionExtentDto::Symbol => "symbol"@,
        SelectionExtentDto::DeclarationLines => "declaration_lines"@,
    }
}

impl SelectionExtentDto {
    /// Returns the stable wire spelling.
    pub fn as_str(self) -> (text: &'static str)
        ensures
            text@ == extent_text(self),
    {
        match self {
            SelectionExtentDto::Symbol => "symbol",
            SelectionExtentDto::DeclarationLines => "declaration_lines",
        }
    }

}

/// One deterministic semantic-selection match.
#[derive(Clone, Debug, PartialEq, Eq)]
pub struct SelectionMatchDto {
    /// The unqualified symbol name.
    pub name: String,
    /// The normalized symbol kind.
    pub symbol_kind: SelectionSymbolKindDto,
    /// The breadcrumb from the root symbol to this one.
    pub symbol_path: Vec<String>,
    /// The server-provided detail.
    pub detail: Option<String>,
    /// The raw enclosing range.
    pub lsp_range: SelectionLspRangeDto,
    /// The raw reveal range.
    pub lsp_selection_range: SelectionLspRangeDto,
    /// The extent that the selector covers.
    pub extent: SelectionExtentDto,
    /// The selected bytes.
    pub selector: SelectionByteSelectorDto,
    /// The digest of the selected bytes, in its textual form.
    pub selected_payload_sha256: String,
    /// The copy-ready edit source.
    pub request_source: SelectionRequestSourceDto,
}

/// The number of bytes between a selector's ends.
pub open spec fn selected_length(selector: SelectionByteSelectorDto) -> u64 {
    if selector.end >= selector.start {
        (selector.end - selector.start) as u64
    } else {
        0
    }
}

/// The wire form of a match.
pub open spec fn match_json(
    name: Seq<char>,
    symbol_kind: SelectionSymbolKindDto,
    symbol_path: Seq<Seq<char>>,
    detail: Option<Seq<char>>,
    lsp_range: SelectionLspRangeDto,
    lsp_selection_range: SelectionLspRangeDto,
    extent: SelectionExtentDto,
    selector: SelectionByteSelectorDto,
    selected_payload_sha256: Seq<char>,
    request_source: JsonView,
) -> JsonView {
    JsonView::Object(
        seq![
            ("name"@, JsonView::String(name)),
            ("symbol_kind"@, JsonView::String(result_kind_text(symbol_kind))),
            ("symbol_path"@, wire::texts_json(symbol_path)),
            ("detail"@, wire::optional_text_json(detail)),
            ("lsp_range"@, lsp_range@),
            ("lsp_selection_range"@, lsp_selection_range@),
            ("extent"@, JsonView::String(extent_text(extent))),
            ("selector"@, selector@),
            ("selected_payload_sha256"@, JsonView::String(selected_payload_sha256)),
            ("selected_byte_length"@, json::number_json(selected_length(selector))),
            ("request_source"@, request_source),
        ],
    )
}

impl View for SelectionMatchDto {
    type V = JsonView;

    open spec fn view(&self) -> JsonView {
        match_json(
            self.name@,
            self.symbol_kind,
            order::path_view(self.symbol_path@),
            order::optional_text(self.detail),
            self.lsp_range,
            self.lsp_selection_range,
            self.extent,
            self.selector,
            self.selected_payload_sha256@,
            self.request_source@,
        )
    }
}

impl SelectionMatchDto {
    /// Creates one match from already validated LSP and byte ranges. Callers
    /// pass the same source path and snapshot digest as the response source.
    pub fn new(
        name: &str,
        symbol_kind: SelectionSymbolKindDto,
        symbol_path: Vec<String>,
        detail: Option<String>,
        lsp_range: SelectionLspRangeDto,
        lsp_selection_range: SelectionLspRangeDto,
        extent: SelectionExtentDto,
        selector: SelectionByteSelectorDto,
        selected_payload_sha256: Sha256Digest,
        source_path: &str,
        source_sha256: Sha256Digest,
    ) -> (matched: Self)
        ensures
            matched@ == match_json(
                name@,
                symbol_kind,
                order::path_view(symbol_path@),
                order::optional_text(detail),
                lsp_range,
                lsp_selection_range,
                extent,
                selector,
                digest::prefixed_hex(selected_payload_sha256.0@),
                request_source_json(source_path@, selector, digest::prefixed_hex(source_sha256.0@)),
            ),
            matched.name@ == name@,
            matched.symbol_kind == symbol_kind,
            matched.symbol_path == symbol_path,
            matched.detail == detail,
            matched.lsp_range == lsp_range,
            matched.lsp_selection_range == lsp_selection_range,
            matched.extent == extent,
            matched.selector == selector,
    {
        SelectionMatchDto {
            name: name.to_owned(),
            symbol_kind,
            symbol_path,
            detail,
            lsp_range,
            lsp_selection_range,
            extent,
            selector,
            selected_payload_sha256: selected_payload_sha256.to_prefixed_hex(),
            request_source: SelectionRequestSourceDto::new(source_path, selector, source_sha256),
        }
    }

    /// Returns the number of selected bytes.
    pub fn selected_byte_length(&self) -> (length: u64)
        ensures
            length == selected_length(self.selector),
    {
        self.selector.end.saturating_sub(self.selector.start)
    }

    /// Returns the wire form.
    pub fn to_json(&self) -> (value: Json)
        ensures
            value@ == self@,
    {
        let members = vec![
            named("name", json_text(self.name.as_str())),
            named("symbol_kind", json_text(self.symbol_kind.as_str())),
            named("symbol_path", json_texts(&self.symbol_path)),
            named("detail", json_optional_text(&self.detail)),
            named("lsp_range", self.lsp_range.to_json()),
            named("lsp_selection_range", self.lsp_selection_range.to_json()),
            named("extent", json_text(self.extent.as_str())),
            named("selector", self.selector.to_json()),
            named("selected_payload_sha256", json_text(self.selected_payload_sha256.as_str())),
            named("selected_byte_length", json_number(self.selected_byte_length())),
            named("request_source", self.request_source.to_json()),
        ];
        assert(json::members_view(members@) =~= self@->Object_0);
        json_object(members)
    }
}

/// The wire forms of a list of matches.
pub open spec fn wire_matches(matches: Seq<SelectionMatchDto>) -> Seq<JsonView> {
    Seq::new(matches.len(), |i: int| matches[i]@)
}

/// Returns the wire forms of a list of matches.
fn json_matches(matches: &Vec<SelectionMatchDto>) -> (array: Json)
    ensures
        array@ == JsonView::Array(wire_matches(matches@)),
{
    let mut items: Vec<Json> = Vec::new();
    let mut index: usize = 0;
    while index < matches.len()
        invariant
            index <= matches@.len(),
            items@.len() == index,
            forall|i: int| 0 <= i < index ==> (#[trigger] items@[i])@ == matches@[i]@,
        decreases matches@.len() - index,
    {
        items.push(matches[index].to_json());
        index = index + 1;
    }
    assert(json::items_view(items@) =~= wire_matches(matches@));
    json_array(items)
}

/// A successful semantic-selection response.
#[derive(Clone, Debug, PartialEq)]
pub struct SelectionResponse {
    /// The opaque workspace identity, in its textual form.
    pub workspace_identity_hash: String,
    /// The source snapshot.
    pub source: SelectionSourceDto,
    /// The normalized query.
    pub query: SelectionQueryDto,
    /// The server's metadata.
    pub server: SelectionServerDto,
    /// The matches, in order.
    pub matches: Vec<SelectionMatchDto>,
    /// The warnings.
    pub warnings: Vec<WarningDto>,
}

/// The wire form of a selection response.
pub open spec fn selection_response_json(
    workspace_identity_hash: Seq<char>,
    source: JsonView,
    query: JsonView,
    server: JsonView,
    matches: Seq<JsonView>,
    warnings: Seq<JsonView>,
) -> JsonView {
    JsonView::Object(
        seq![
            ("selection_protocol_version"@, json::number_json(SELECTION_PROTOCOL_VERSION)),
            ("workspace_identity_hash"@, JsonView::String(workspace_identity_hash)),
            ("source"@, source),
            ("query"@, query),
            ("server"@, server),
            ("matches"@, JsonView::Array(matches)),
            ("warnings"@, JsonView::Array(warnings)),
        ],
    )
}

impl View for SelectionResponse {
    type V = JsonView;

    open spec fn view(&self) -> JsonView {
        selection_response_json(
            self.workspace_identity_hash@,
            self.source@,
            self.query@,
            self.server@,
            wire_matches(self.matches@),
            wire::warnings_view(self.warnings@),
        )
    }
}

impl SelectionResponse {
    /// Creates a semantic-selection response.
    pub fn new(
        workspace_identity_hash: Sha256Digest,
        source: SelectionSourceDto,
        query: SelectionQueryDto,
        server: SelectionServerDto,
        matches: Vec<SelectionMatchDto>,
        warnings: Vec<WarningDto>,
    ) -> (response: Self)
        ensures
            response.workspace_identity_hash@ == digest::prefixed_hex(workspace_identity_hash.0@),
            response.source == source,
            response.query == query,
            response.server == server,
            response.matches == matches,
            response.warnings == warnings,
    {
        SelectionResponse {
            workspace_identity_hash: workspace_identity_hash.to_prefixed_hex(),
            source,
            query,
            server,
            matches,
            warnings,
        }
    }

    /// Returns the wire form.
    pub fn to_json(&self) -> (value: Json)
        ensures
            value@ == self@,
    {
        let members = vec![
            named("selection_protocol_version", json_number(SELECTION_PROTOCOL_VERSION)),
            named("workspace_identity_hash", json_text(self.workspace_identity_hash.as_str())),
            named("source", self.source.to_json()),
            named("query", self.query.to_json()),
            named("server", self.server.to_json()),
            named("matches", json_matches(&self.matches)),
            named("warnings", json_warnings(&self.warnings)),
        ];
        assert(json::members_view(members@) =~= self@->Object_0);
        json_object(members)
    }
}

/// Stable semantic-selection error categories.
#[derive(Clone, Copy, Debug, PartialEq, Eq, Structural)]
pub enum SelectionErrorCategory {
    /// Invalid semantic-selection input.
    Request,
    /// A valid query conflicts with the observed symbol set.
    Conflict,
    /// The configured server or platform cannot satisfy the query.
    Support,
    /// An implementation invariant failed.
    Internal,
}

/// The stable wire spelling of a category.
pub open spec fn selection_category_text(value: SelectionErrorCategory) -> Seq<char> {
    match value {
        SelectionErrorCategory::Request => "request"@,
        SelectionErrorCategory::Conflict => "conflict"@,
        SelectionErrorCategory::Support => "support"@,
        SelectionErrorCategory::Internal => "internal"@,
    }
}

impl SelectionErrorCategory {
    /// Returns the stable wire spelling.
    pub fn as_str(self) -> (text: &'static str)
        ensures
            text@ == selection_category_text(self),
    {
        match self {
            SelectionErrorCategory::Request => "request",
            SelectionErrorCategory::Conflict => "conflict",
            SelectionErrorCategory::Support => "support",
            SelectionErrorCategory::Internal => "internal",
        }
    }

    /// Returns the documented command-line exit status for this category.
    pub fn exit_code(self) -> (code: u8)
        ensures
            code == selection_exit_code(self),
    {
        match self {
            SelectionErrorCategory::Request => 2,
            SelectionErrorCategory::Conflict => 3,
            SelectionErrorCategory::Support => 4,
            SelectionErrorCategory::Internal => 8,
        }
    }
}

/// The documented command-line exit status of a category.
pub open spec fn selection_exit_code(category: SelectionErrorCategory) -> u8 {
    match category {
        SelectionErrorCategory::Request => 2,
        SelectionErrorCategory::Conflict => 3,
        SelectionErrorCategory::Support => 4,
        SelectionErrorCategory::Internal => 8,
    }
}

/// The documented category of a code.
pub open spec fn selection_category(code: SelectionErrorCode) -> SelectionErrorCategory {
    match code {
        SelectionErrorCode::InvalidSelectionQuery => SelectionErrorCategory::Request,
        SelectionErrorCode::LspServerNotConfigured
        | SelectionErrorCode::UnsupportedTextEncoding
        | SelectionErrorCode::LspCapabilityUnavailable
        | SelectionErrorCode::LspFlatSymbolsUnsupported
        | SelectionErrorCode::LspDocumentSyncUnavailable
        | SelectionErrorCode::LspResourceLimitExceeded
        | SelectionErrorCode::LspTimeout
        | SelectionErrorCode::LspStartFailed
        | SelectionErrorCode::LspExited
        | SelectionErrorCode::LspProtocolError
        | SelectionErrorCode::LspRequestFailed => SelectionErrorCategory::Support,
        SelectionErrorCode::SelectionNotFound
        | SelectionErrorCode::SelectionAmbiguous => SelectionErrorCategory::Conflict,
        SelectionErrorCode::SelectionInternalError => SelectionErrorCategory::Internal,
    }
}

/// Whether retrying after an external-state refresh may resolve an error.
pub open spec fn selection_retryable(code: SelectionErrorCode) -> bool {
    code == SelectionErrorCode::LspTimeout
    || code == SelectionErrorCode::LspStartFailed
    || code == SelectionErrorCode::LspExited
    || code == SelectionErrorCode::LspRequestFailed
}

/// The complete semantic-selection error-code registry.
#[derive(Clone, Copy, Debug, PartialEq, Eq, Hash, PartialOrd, Ord, Structural)]
pub enum SelectionErrorCode {
    /// The selection query is invalid.
    InvalidSelectionQuery,
    /// No language server is configured for the source.
    LspServerNotConfigured,
    /// No symbol matched a unique query.
    SelectionNotFound,
    /// Multiple distinct symbols remained for a unique query.
    SelectionAmbiguous,
    /// The source snapshot is not valid UTF-8.
    UnsupportedTextEncoding,
    /// The server lacks a required semantic-selection capability.
    LspCapabilityUnavailable,
    /// The server returned unsupported flat document symbols.
    LspFlatSymbolsUnsupported,
    /// The server cannot synchronize an opened snapshot.
    LspDocumentSyncUnavailable,
    /// A language-server or selection resource bound was exceeded.
    LspResourceLimitExceeded,
    /// A language-server lifecycle deadline expired.
    LspTimeout,
    /// The configured language server could not be started.
    LspStartFailed,
    /// The language server exited before completing the session.
    LspExited,
    /// The server violated JSON-RPC, LSP, or range semantics.
    LspProtocolError,
    /// The server returned a JSON-RPC request error.
    LspRequestFailed,
    /// An internal semantic-selection invariant failed.
    SelectionInternalError,
}

/// The stable wire spelling of a code.
pub open spec fn selection_code_text(value: SelectionErrorCode) -> Seq<char> {
    match value {
        SelectionErrorCode::InvalidSelectionQuery => "INVALID_SELECTION_QUERY"@,
        SelectionErrorCode::LspServerNotConfigured => "LSP_SERVER_NOT_CONFIGURED"@,
        SelectionErrorCode::SelectionNotFound => "SELECTION_NOT_FOUND"@,
        SelectionErrorCode::SelectionAmbiguous => "SELECTION_AMBIGUOUS"@,
        SelectionErrorCode::UnsupportedTextEncoding => "UNSUPPORTED_TEXT_ENCODING"@,
        SelectionErrorCode::LspCapabilityUnavailable => "LSP_CAPABILITY_UNAVAILABLE"@,
        SelectionErrorCode::LspFlatSymbolsUnsupported => "LSP_FLAT_SYMBOLS_UNSUPPORTED"@,
        SelectionErrorCode::LspDocumentSyncUnavailable => "LSP_DOCUMENT_SYNC_UNAVAILABLE"@,
        SelectionErrorCode::LspResourceLimitExceeded => "LSP_RESOURCE_LIMIT_EXCEEDED"@,
        SelectionErrorCode::LspTimeout => "LSP_TIMEOUT"@,
        SelectionErrorCode::LspStartFailed => "LSP_START_FAILED"@,
        SelectionErrorCode::LspExited => "LSP_EXITED"@,
        SelectionErrorCode::LspProtocolError => "LSP_PROTOCOL_ERROR"@,
        SelectionErrorCode::LspRequestFailed => "LSP_REQUEST_FAILED"@,
        SelectionErrorCode::SelectionInternalError => "SELECTION_INTERNAL_ERROR"@,
    }
}

impl SelectionErrorCode {
    /// Returns every registered error code.
    pub fn all() -> (values: Vec<Self>)
        ensures
            values@.len() == 15,
            forall|value: Self| values@.contains(value),
            values@.no_duplicates(),
    {
        let values = vec![
            SelectionErrorCode::InvalidSelectionQuery,
            SelectionErrorCode::LspServerNotConfigured,
            SelectionErrorCode::SelectionNotFound,
            SelectionErrorCode::SelectionAmbiguous,
            SelectionErrorCode::UnsupportedTextEncoding,
            SelectionErrorCode::LspCapabilityUnavailable,
            SelectionErrorCode::LspFlatSymbolsUnsupported,
            SelectionErrorCode::LspDocumentSyncUnavailable,
            SelectionErrorCode::LspResourceLimitExceeded,
            SelectionErrorCode::LspTimeout,
            SelectionErrorCode::LspStartFailed,
            SelectionErrorCode::LspExited,
            SelectionErrorCode::LspProtocolError,
            SelectionErrorCode::LspRequestFailed,
            SelectionErrorCode::SelectionInternalError,
        ];
        proof {
            assert forall|value: Self| values@.contains(value) by {
                match value {
                    SelectionErrorCode::InvalidSelectionQuery => assert(values@[0] == value),
                    SelectionErrorCode::LspServerNotConfigured => assert(values@[1] == value),
                    SelectionErrorCode::SelectionNotFound => assert(values@[2] == value),
                    SelectionErrorCode::SelectionAmbiguous => assert(values@[3] == value),
                    SelectionErrorCode::UnsupportedTextEncoding => assert(values@[4] == value),
                    SelectionErrorCode::LspCapabilityUnavailable => assert(values@[5] == value),
                    SelectionErrorCode::LspFlatSymbolsUnsupported => assert(values@[6] == value),
                    SelectionErrorCode::LspDocumentSyncUnavailable => assert(values@[7] == value),
                    SelectionErrorCode::LspResourceLimitExceeded => assert(values@[8] == value),
                    SelectionErrorCode::LspTimeout => assert(values@[9] == value),
                    SelectionErrorCode::LspStartFailed => assert(values@[10] == value),
                    SelectionErrorCode::LspExited => assert(values@[11] == value),
                    SelectionErrorCode::LspProtocolError => assert(values@[12] == value),
                    SelectionErrorCode::LspRequestFailed => assert(values@[13] == value),
                    SelectionErrorCode::SelectionInternalError => assert(values@[14] == value),
                }
            }
        }
        values
    }

    /// Returns the stable wire spelling.
    pub fn as_str(self) -> (text: &'static str)
        ensures
            text@ == selection_code_text(self),
    {
        match self {
            SelectionErrorCode::InvalidSelectionQuery => "INVALID_SELECTION_QUERY",
            SelectionErrorCode::LspServerNotConfigured => "LSP_SERVER_NOT_CONFIGURED",
            SelectionErrorCode::SelectionNotFound => "SELECTION_NOT_FOUND",
            SelectionErrorCode::SelectionAmbiguous => "SELECTION_AMBIGUOUS",
            SelectionErrorCode::UnsupportedTextEncoding => "UNSUPPORTED_TEXT_ENCODING",
            SelectionErrorCode::LspCapabilityUnavailable => "LSP_CAPABILITY_UNAVAILABLE",
            SelectionErrorCode::LspFlatSymbolsUnsupported => "LSP_FLAT_SYMBOLS_UNSUPPORTED",
            SelectionErrorCode::LspDocumentSyncUnavailable => "LSP_DOCUMENT_SYNC_UNAVAILABLE",
            SelectionErrorCode::LspResourceLimitExceeded => "LSP_RESOURCE_LIMIT_EXCEEDED",
            SelectionErrorCode::LspTimeout => "LSP_TIMEOUT",
            SelectionErrorCode::LspStartFailed => "LSP_START_FAILED",
            SelectionErrorCode::LspExited => "LSP_EXITED",
            SelectionErrorCode::LspProtocolError => "LSP_PROTOCOL_ERROR",
            SelectionErrorCode::LspRequestFailed => "LSP_REQUEST_FAILED",
            SelectionErrorCode::SelectionInternalError => "SELECTION_INTERNAL_ERROR",
        }
    }

    /// Returns the documented category for this code.
    pub fn category(self) -> (category: SelectionErrorCategory)
        ensures
            category == selection_category(self),
    {
        match self {
            SelectionErrorCode::InvalidSelectionQuery => SelectionErrorCategory::Request,
            SelectionErrorCode::LspServerNotConfigured
            | SelectionErrorCode::UnsupportedTextEncoding
            | SelectionErrorCode::LspCapabilityUnavailable
            | SelectionErrorCode::LspFlatSymbolsUnsupported
            | SelectionErrorCode::LspDocumentSyncUnavailable
            | SelectionErrorCode::LspResourceLimitExceeded
            | SelectionErrorCode::LspTimeout
            | SelectionErrorCode::LspStartFailed
            | SelectionErrorCode::LspExited
            | SelectionErrorCode::LspProtocolError
            | SelectionErrorCode::LspRequestFailed => SelectionErrorCategory::Support,
            SelectionErrorCode::SelectionNotFound
            | SelectionErrorCode::SelectionAmbiguous => SelectionErrorCategory::Conflict,
            SelectionErrorCode::SelectionInternalError => SelectionErrorCategory::Internal,
        }
    }

    /// Returns whether retrying after an external-state refresh may resolve the error.
    pub fn retryable(self) -> (retryable: bool)
        ensures
            retryable == selection_retryable(self),
    {
        matches!(
            self,
            SelectionErrorCode::LspTimeout
                | SelectionErrorCode::LspStartFailed
                | SelectionErrorCode::LspExited
                | SelectionErrorCode::LspRequestFailed
        )
    }
}

/// A stable structured semantic-selection error response.
#[derive(Clone, Debug, PartialEq)]
pub struct SelectionErrorDto {
    /// The stable error code.
    pub code: SelectionErrorCode,
    /// The human-readable message before terminal escaping.
    pub message: String,
    /// Structured non-sensitive context, by key.
    pub context: TextMap<Json>,
}

/// The mathematical value of a [`SelectionErrorDto`].
#[verifier::ext_equal]
pub struct SelectionErrorView {
    pub code: SelectionErrorCode,
    pub message: Seq<char>,
    pub context: Seq<(Seq<char>, JsonView)>,
}

impl View for SelectionErrorDto {
    type V = SelectionErrorView;

    open spec fn view(&self) -> SelectionErrorView {
        SelectionErrorView {
            code: self.code,
            message: self.message@,
            context: self.context@,
        }
    }
}

/// The wire form of an error response; its category and retryability are the
/// registry's.
pub open spec fn selection_error_json(error: SelectionErrorView) -> JsonView {
    JsonView::Object(
        seq![
            ("selection_protocol_version"@, json::number_json(SELECTION_PROTOCOL_VERSION)),
            ("code"@, JsonView::String(selection_code_text(error.code))),
            ("category"@, JsonView::String(selection_category_text(selection_category(error.code)))),
            ("retryable"@, JsonView::Bool(selection_retryable(error.code))),
            ("message"@, JsonView::String(error.message)),
            ("context"@, JsonView::Object(error.context)),
        ],
    )
}

impl SelectionErrorDto {
    /// Creates an error response using registry-owned category and retry policy.
    /// The context is kept as a map: in key order, with the last value given for
    /// each key.
    pub fn new(code: SelectionErrorCode, message: &str, context: Vec<(String, Json)>) -> (error: Self)
        ensures
            error@ == (SelectionErrorView {
                code,
                message: message@,
                context: text_map::ordered(json::members_view(context@)),
            }),
            text_map::is_ordered(error@.context),
            text_map::is_ordered(json::members_view(context@)) ==> error@.context
                == json::members_view(context@),
    {
        SelectionErrorDto { code, message: message.to_owned(), context: TextMap::from_entries(context) }
    }

    /// Returns the stable error code.
    pub fn code(&self) -> (code: SelectionErrorCode)
        ensures
            code == self@.code,
    {
        self.code
    }

    /// Returns the process exit status associated with this error.
    pub fn exit_code(&self) -> (code: u8)
        ensures
            code == selection_exit_code(selection_category(self@.code)),
    {
        self.code.category().exit_code()
    }

    /// Returns whether this failure may be transient.
    pub fn retryable(&self) -> (retryable: bool)
        ensures
            retryable == selection_retryable(self@.code),
    {
        self.code.retryable()
    }

    /// Returns the human-readable message before terminal escaping.
    pub fn message(&self) -> (message: &str)
        ensures
            message@ == self@.message,
    {
        self.message.as_str()
    }

    /// Returns the structured non-sensitive error context.
    pub fn context(&self) -> (context: &Vec<(String, Json)>)
        ensures
            json::members_view(context@) == self@.context,
            text_map::is_ordered(self@.context),
    {
        self.context.entries()
    }

    /// Returns the wire form.
    pub fn to_json(&self) -> (value: Json)
        ensures
            value@ == selection_error_json(self@),
    {
        let members = vec![
            named("selection_protocol_version", json_number(SELECTION_PROTOCOL_VERSION)),
            named("code", json_text(self.code.as_str())),
            named("category", json_text(self.code.category().as_str())),
            named("retryable", Json::Bool(self.code.retryable())),
            named("message", json_text(self.message.as_str())),
            named("context", json_object(copy_members(self.context.entries()))),
        ];
        assert(json::members_view(members@) =~= selection_error_json(self@)->Object_0);
        json_object(members)
    }
}

/// A response that could not be serialized, or that is too large.
#[derive(Clone, Debug, PartialEq)]
pub struct SelectionProtocolError {
    /// The stable error response.
    pub report: SelectionErrorDto,
}

/// The text of a protocol error: its code and its message.
pub open spec fn selection_failure_text(error: SelectionErrorView) -> Seq<char> {
    selection_code_text(error.code) + ": "@ + error.message
}

impl SelectionProtocolError {
    /// Returns the stable error response.
    pub fn report(&self) -> (report: &SelectionErrorDto)
        ensures
            *report == self.report,
    {
        &self.report
    }

    /// Consumes the failure and returns its stable error response.
    pub fn into_report(self) -> (report: SelectionErrorDto)
        ensures
            report == self.report,
    {
        self.report
    }

    /// Returns the code and the message as one text.
    pub fn message(&self) -> (text: String)
        ensures
            text@ == selection_failure_text(self.report@),
    {
        let mut text = self.report.code.as_str().to_owned();
        text.append(": ");
        text.append(self.report.message.as_str());
        text
    }
}

/// The error for a response that could not be serialized.
pub open spec fn selection_unserializable() -> SelectionErrorView {
    SelectionErrorView {
        code: SelectionErrorCode::SelectionInternalError,
        message: "failed to serialize the semantic-selection response"@,
        context: Seq::empty(),
    }
}

/// The error for a response of `actual` bytes.
pub open spec fn selection_too_large(actual: u64) -> SelectionErrorView {
    SelectionErrorView {
        code: SelectionErrorCode::LspResourceLimitExceeded,
        message: "the semantic-selection response exceeds the serialized response limit"@,
        context: seq![
            ("actual"@, json::number_json(actual)),
            ("limit"@, json::number_json(MAX_RESPONSE_BYTES)),
            ("resource"@, JsonView::String("serialized_json_response"@)),
        ],
    }
}

/// Returns the error for a response that could not be serialized.
pub fn selection_serialization_error() -> (error: SelectionProtocolError)
    ensures
        error.report@ == selection_unserializable(),
{
    let context: Vec<(String, Json)> = Vec::new();
    assert(json::members_view(context@) =~= selection_unserializable().context);
    SelectionProtocolError {
        report: SelectionErrorDto::new(
            SelectionErrorCode::SelectionInternalError,
            "failed to serialize the semantic-selection response",
            context,
        ),
    }
}

/// Returns the error for a response of `actual` bytes.
pub fn selection_response_limit_error(actual: u64) -> (error: SelectionProtocolError)
    ensures
        error.report@ == selection_too_large(actual),
{
    proof {
        wire::lemma_context_keys_ascend();
    }
    let context = vec![
        named("actual", json_number(actual)),
        named("limit", json_number(MAX_RESPONSE_BYTES)),
        named("resource", json_text("serialized_json_response")),
    ];
    assert(json::members_view(context@) =~= selection_too_large(actual).context);
    SelectionProtocolError {
        report: SelectionErrorDto::new(
            SelectionErrorCode::LspResourceLimitExceeded,
            "the semantic-selection response exceeds the serialized response limit",
            context,
        ),
    }
}

/// The text of one line, or the error that stands for it.
pub open spec fn selection_line(line: Result<Seq<u8>, BoundedJsonLineFailure>) -> Result<
    Seq<char>,
    SelectionErrorView,
> {
    match line {
        Ok(bytes) => if vstd::utf8::valid_utf8(bytes) {
            Ok(vstd::utf8::decode_utf8(bytes))
        } else {
            Err(selection_unserializable())
        },
        Err(BoundedJsonLineFailure::ResponseLimit(actual)) => Err(selection_too_large(actual)),
        Err(BoundedJsonLineFailure::Serialization) => Err(selection_unserializable()),
    }
}

/// Whether a produced text, or its error, is the expected one.
pub open spec fn is_selection_line(
    text: Result<String, SelectionProtocolError>,
    expected: Result<Seq<char>, SelectionErrorView>,
) -> bool {
    match text {
        Ok(text) => expected == Ok::<Seq<char>, SelectionErrorView>(text@),
        Err(error) => expected == Err::<Seq<char>, SelectionErrorView>(error.report@),
    }
}

/// Reads one bounded line as text, or names the failure.
pub fn selection_line_text(line: Result<Vec<u8>, BoundedJsonLineFailure>) -> (text: Result<
    String,
    SelectionProtocolError,
>)
    ensures
        is_selection_line(
            text,
            selection_line(
                match line {
                    Ok(bytes) => Ok(bytes@),
                    Err(failure) => Err(failure),
                },
            ),
        ),
{
    match line {
        Ok(bytes) => match text_from_utf8(bytes) {
            Some(text) => Ok(text),
            None => Err(selection_serialization_error()),
        },
        Err(BoundedJsonLineFailure::ResponseLimit(actual)) => Err(
            selection_response_limit_error(actual),
        ),
        Err(BoundedJsonLineFailure::Serialization) => Err(selection_serialization_error()),
    }
}

/// Serializes one semantic-selection value followed by exactly one line feed, and
/// checks the response limit before the caller writes any bytes.
pub fn to_selection_json_line(value: &Json) -> (text: Result<String, SelectionProtocolError>)
    ensures
        is_selection_line(text, selection_line(wire::json_line(value@, MAX_RESPONSE_BYTES))),
        text matches Ok(text) ==> wire::is_one_line(text::utf8(text@)),
        text matches Err(error) ==> error.report@.code
            == SelectionErrorCode::LspResourceLimitExceeded,
{
    let line = write_bounded_json_line(value, MAX_RESPONSE_BYTES);
    proof {
        if line is Ok {
            vstd::utf8::decode_utf8_encode_utf8(line->Ok_0@);
        }
    }
    selection_line_text(line)
}

/// No two selection error codes share a spelling.
pub proof fn law_selection_codes_are_unique(left: SelectionErrorCode, right: SelectionErrorCode)
    requires
        selection_code_text(left) == selection_code_text(right),
    ensures
        left == right,
{
    reveal_strlit("INVALID_SELECTION_QUERY");
    reveal_strlit("LSP_SERVER_NOT_CONFIGURED");
    reveal_strlit("SELECTION_NOT_FOUND");
    reveal_strlit("SELECTION_AMBIGUOUS");
    reveal_strlit("UNSUPPORTED_TEXT_ENCODING");
    reveal_strlit("LSP_CAPABILITY_UNAVAILABLE");
    reveal_strlit("LSP_FLAT_SYMBOLS_UNSUPPORTED");
    reveal_strlit("LSP_DOCUMENT_SYNC_UNAVAILABLE");
    reveal_strlit("LSP_RESOURCE_LIMIT_EXCEEDED");
    reveal_strlit("LSP_TIMEOUT");
    reveal_strlit("LSP_START_FAILED");
    reveal_strlit("LSP_EXITED");
    reveal_strlit("LSP_PROTOCOL_ERROR");
    reveal_strlit("LSP_REQUEST_FAILED");
    reveal_strlit("SELECTION_INTERNAL_ERROR");
    let length = selection_code_text(left).len();
    assert(length == selection_code_text(right).len());
    assert("INVALID_SELECTION_QUERY"@.len() == 23);
    assert("LSP_SERVER_NOT_CONFIGURED"@.len() == 25);
    assert("SELECTION_NOT_FOUND"@.len() == 19);
    assert("SELECTION_AMBIGUOUS"@.len() == 19);
    assert("UNSUPPORTED_TEXT_ENCODING"@.len() == 25);
    assert("LSP_CAPABILITY_UNAVAILABLE"@.len() == 26);
    assert("LSP_FLAT_SYMBOLS_UNSUPPORTED"@.len() == 28);
    assert("LSP_DOCUMENT_SYNC_UNAVAILABLE"@.len() == 29);
    assert("LSP_RESOURCE_LIMIT_EXCEEDED"@.len() == 27);
    assert("LSP_TIMEOUT"@.len() == 11);
    assert("LSP_START_FAILED"@.len() == 16);
    assert("LSP_EXITED"@.len() == 10);
    assert("LSP_PROTOCOL_ERROR"@.len() == 18);
    assert("LSP_REQUEST_FAILED"@.len() == 18);
    assert("SELECTION_INTERNAL_ERROR"@.len() == 24);
    assert("LSP_SERVER_NOT_CONFIGURED"@[0] != "UNSUPPORTED_TEXT_ENCODING"@[0] && "LSP_SERVER_NOT_CONFIGURED"@ != "UNSUPPORTED_TEXT_ENCODING"@);
    assert("SELECTION_NOT_FOUND"@[10] != "SELECTION_AMBIGUOUS"@[10] && "SELECTION_NOT_FOUND"@ != "SELECTION_AMBIGUOUS"@);
    assert("LSP_PROTOCOL_ERROR"@[4] != "LSP_REQUEST_FAILED"@[4] && "LSP_PROTOCOL_ERROR"@ != "LSP_REQUEST_FAILED"@);
}

/// No two standardized kinds share a wire spelling.
pub proof fn law_wire_kinds_are_unique(
    left: SelectionKnownSymbolKindDto,
    right: SelectionKnownSymbolKindDto,
)
    requires
        wire_kind_text(left) == wire_kind_text(right),
    ensures
        left == right,
{
    reveal_strlit("file");
    reveal_strlit("module");
    reveal_strlit("namespace");
    reveal_strlit("package");
    reveal_strlit("class");
    reveal_strlit("method");
    reveal_strlit("property");
    reveal_strlit("field");
    reveal_strlit("constructor");
    reveal_strlit("enum");
    reveal_strlit("interface");
    reveal_strlit("function");
    reveal_strlit("variable");
    reveal_strlit("constant");
    reveal_strlit("string");
    reveal_strlit("number");
    reveal_strlit("boolean");
    reveal_strlit("array");
    reveal_strlit("object");
    reveal_strlit("key");
    reveal_strlit("null");
    reveal_strlit("enum_member");
    reveal_strlit("struct");
    reveal_strlit("event");
    reveal_strlit("operator");
    reveal_strlit("type_parameter");
    let length = wire_kind_text(left).len();
    assert(length == wire_kind_text(right).len());
    assert("file"@.len() == 4);
    assert("module"@.len() == 6);
    assert("namespace"@.len() == 9);
    assert("package"@.len() == 7);
    assert("class"@.len() == 5);
    assert("method"@.len() == 6);
    assert("property"@.len() == 8);
    assert("field"@.len() == 5);
    assert("constructor"@.len() == 11);
    assert("enum"@.len() == 4);
    assert("interface"@.len() == 9);
    assert("function"@.len() == 8);
    assert("variable"@.len() == 8);
    assert("constant"@.len() == 8);
    assert("string"@.len() == 6);
    assert("number"@.len() == 6);
    assert("boolean"@.len() == 7);
    assert("array"@.len() == 5);
    assert("object"@.len() == 6);
    assert("key"@.len() == 3);
    assert("null"@.len() == 4);
    assert("enum_member"@.len() == 11);
    assert("struct"@.len() == 6);
    assert("event"@.len() == 5);
    assert("operator"@.len() == 8);
    assert("type_parameter"@.len() == 14);
    assert("file"@[0] != "enum"@[0] && "file"@ != "enum"@);
    assert("file"@[0] != "null"@[0] && "file"@ != "null"@);
    assert("module"@[1] != "method"@[1] && "module"@ != "method"@);
    assert("module"@[0] != "string"@[0] && "module"@ != "string"@);
    assert("module"@[0] != "number"@[0] && "module"@ != "number"@);
    assert("module"@[0] != "object"@[0] && "module"@ != "object"@);
    assert("module"@[0] != "struct"@[0] && "module"@ != "struct"@);
    assert("namespace"@[0] != "interface"@[0] && "namespace"@ != "interface"@);
    assert("package"@[0] != "boolean"@[0] && "package"@ != "boolean"@);
    assert("class"@[0] != "field"@[0] && "class"@ != "field"@);
    assert("class"@[0] != "array"@[0] && "class"@ != "array"@);
    assert("class"@[0] != "event"@[0] && "class"@ != "event"@);
    assert("method"@[0] != "string"@[0] && "method"@ != "string"@);
    assert("method"@[0] != "number"@[0] && "method"@ != "number"@);
    assert("method"@[0] != "object"@[0] && "method"@ != "object"@);
    assert("method"@[0] != "struct"@[0] && "method"@ != "struct"@);
    assert("property"@[0] != "function"@[0] && "property"@ != "function"@);
    assert("property"@[0] != "variable"@[0] && "property"@ != "variable"@);
    assert("property"@[0] != "constant"@[0] && "property"@ != "constant"@);
    assert("property"@[0] != "operator"@[0] && "property"@ != "operator"@);
    assert("field"@[0] != "array"@[0] && "field"@ != "array"@);
    assert("field"@[0] != "event"@[0] && "field"@ != "event"@);
    assert("constructor"@[0] != "enum_member"@[0] && "constructor"@ != "enum_member"@);
    assert("enum"@[0] != "null"@[0] && "enum"@ != "null"@);
    assert("function"@[0] != "variable"@[0] && "function"@ != "variable"@);
    assert("function"@[0] != "constant"@[0] && "function"@ != "constant"@);
    assert("function"@[0] != "operator"@[0] && "function"@ != "operator"@);
    assert("variable"@[0] != "constant"@[0] && "variable"@ != "constant"@);
    assert("variable"@[0] != "operator"@[0] && "variable"@ != "operator"@);
    assert("constant"@[0] != "operator"@[0] && "constant"@ != "operator"@);
    assert("string"@[0] != "number"@[0] && "string"@ != "number"@);
    assert("string"@[0] != "object"@[0] && "string"@ != "object"@);
    assert("string"@[3] != "struct"@[3] && "string"@ != "struct"@);
    assert("number"@[0] != "object"@[0] && "number"@ != "object"@);
    assert("number"@[0] != "struct"@[0] && "number"@ != "struct"@);
    assert("array"@[0] != "event"@[0] && "array"@ != "event"@);
    assert("object"@[0] != "struct"@[0] && "object"@ != "struct"@);
}

} // verus!
