//! Standardized and future document-symbol kinds.

use vstd::prelude::*;
use vstd::string::StringExecFns;

use crate::text;
use crate::text::{push_decimal, text_equal};

verus! {

/// A standardized symbol kind accepted as a query filter.
#[derive(Clone, Copy, Debug, PartialEq, Eq, Hash, PartialOrd, Ord, Structural)]
pub enum KnownSymbolKind {
    /// A file.
    File,
    /// A module.
    Module,
    /// A namespace.
    Namespace,
    /// A package.
    Package,
    /// A class.
    Class,
    /// A method.
    Method,
    /// A property.
    Property,
    /// A field.
    Field,
    /// A constructor.
    Constructor,
    /// An enumeration.
    Enum,
    /// An interface.
    Interface,
    /// A function.
    Function,
    /// A variable.
    Variable,
    /// A constant.
    Constant,
    /// A string value.
    String,
    /// A numeric value.
    Number,
    /// A boolean value.
    Boolean,
    /// An array value.
    Array,
    /// An object value.
    Object,
    /// An object key.
    Key,
    /// A null value.
    Null,
    /// An enumeration member.
    EnumMember,
    /// A structure.
    Struct,
    /// An event.
    Event,
    /// An operator.
    Operator,
    /// A type parameter.
    TypeParameter,
}

/// The stable lowercase spelling of a standardized kind.
pub open spec fn kind_text(kind: KnownSymbolKind) -> Seq<char> {
    match kind {
        KnownSymbolKind::File => "file"@,
        KnownSymbolKind::Module => "module"@,
        KnownSymbolKind::Namespace => "namespace"@,
        KnownSymbolKind::Package => "package"@,
        KnownSymbolKind::Class => "class"@,
        KnownSymbolKind::Method => "method"@,
        KnownSymbolKind::Property => "property"@,
        KnownSymbolKind::Field => "field"@,
        KnownSymbolKind::Constructor => "constructor"@,
        KnownSymbolKind::Enum => "enum"@,
        KnownSymbolKind::Interface => "interface"@,
        KnownSymbolKind::Function => "function"@,
        KnownSymbolKind::Variable => "variable"@,
        KnownSymbolKind::Constant => "constant"@,
        KnownSymbolKind::String => "string"@,
        KnownSymbolKind::Number => "number"@,
        KnownSymbolKind::Boolean => "boolean"@,
        KnownSymbolKind::Array => "array"@,
        KnownSymbolKind::Object => "object"@,
        KnownSymbolKind::Key => "key"@,
        KnownSymbolKind::Null => "null"@,
        KnownSymbolKind::EnumMember => "enum_member"@,
        KnownSymbolKind::Struct => "struct"@,
        KnownSymbolKind::Event => "event"@,
        KnownSymbolKind::Operator => "operator"@,
        KnownSymbolKind::TypeParameter => "type_parameter"@,
    }
}

/// The LSP number of a standardized kind.
pub open spec fn kind_number(kind: KnownSymbolKind) -> u32 {
    match kind {
        KnownSymbolKind::File => 1,
        KnownSymbolKind::Module => 2,
        KnownSymbolKind::Namespace => 3,
        KnownSymbolKind::Package => 4,
        KnownSymbolKind::Class => 5,
        KnownSymbolKind::Method => 6,
        KnownSymbolKind::Property => 7,
        KnownSymbolKind::Field => 8,
        KnownSymbolKind::Constructor => 9,
        KnownSymbolKind::Enum => 10,
        KnownSymbolKind::Interface => 11,
        KnownSymbolKind::Function => 12,
        KnownSymbolKind::Variable => 13,
        KnownSymbolKind::Constant => 14,
        KnownSymbolKind::String => 15,
        KnownSymbolKind::Number => 16,
        KnownSymbolKind::Boolean => 17,
        KnownSymbolKind::Array => 18,
        KnownSymbolKind::Object => 19,
        KnownSymbolKind::Key => 20,
        KnownSymbolKind::Null => 21,
        KnownSymbolKind::EnumMember => 22,
        KnownSymbolKind::Struct => 23,
        KnownSymbolKind::Event => 24,
        KnownSymbolKind::Operator => 25,
        KnownSymbolKind::TypeParameter => 26,
    }
}

/// The kind that an LSP number denotes.
pub open spec fn kind_of_number(number: u32) -> NormalizedSymbolKind {
    if number == 1 {
        NormalizedSymbolKind::Known(KnownSymbolKind::File)
    } else if number == 2 {
        NormalizedSymbolKind::Known(KnownSymbolKind::Module)
    } else if number == 3 {
        NormalizedSymbolKind::Known(KnownSymbolKind::Namespace)
    } else if number == 4 {
        NormalizedSymbolKind::Known(KnownSymbolKind::Package)
    } else if number == 5 {
        NormalizedSymbolKind::Known(KnownSymbolKind::Class)
    } else if number == 6 {
        NormalizedSymbolKind::Known(KnownSymbolKind::Method)
    } else if number == 7 {
        NormalizedSymbolKind::Known(KnownSymbolKind::Property)
    } else if number == 8 {
        NormalizedSymbolKind::Known(KnownSymbolKind::Field)
    } else if number == 9 {
        NormalizedSymbolKind::Known(KnownSymbolKind::Constructor)
    } else if number == 10 {
        NormalizedSymbolKind::Known(KnownSymbolKind::Enum)
    } else if number == 11 {
        NormalizedSymbolKind::Known(KnownSymbolKind::Interface)
    } else if number == 12 {
        NormalizedSymbolKind::Known(KnownSymbolKind::Function)
    } else if number == 13 {
        NormalizedSymbolKind::Known(KnownSymbolKind::Variable)
    } else if number == 14 {
        NormalizedSymbolKind::Known(KnownSymbolKind::Constant)
    } else if number == 15 {
        NormalizedSymbolKind::Known(KnownSymbolKind::String)
    } else if number == 16 {
        NormalizedSymbolKind::Known(KnownSymbolKind::Number)
    } else if number == 17 {
        NormalizedSymbolKind::Known(KnownSymbolKind::Boolean)
    } else if number == 18 {
        NormalizedSymbolKind::Known(KnownSymbolKind::Array)
    } else if number == 19 {
        NormalizedSymbolKind::Known(KnownSymbolKind::Object)
    } else if number == 20 {
        NormalizedSymbolKind::Known(KnownSymbolKind::Key)
    } else if number == 21 {
        NormalizedSymbolKind::Known(KnownSymbolKind::Null)
    } else if number == 22 {
        NormalizedSymbolKind::Known(KnownSymbolKind::EnumMember)
    } else if number == 23 {
        NormalizedSymbolKind::Known(KnownSymbolKind::Struct)
    } else if number == 24 {
        NormalizedSymbolKind::Known(KnownSymbolKind::Event)
    } else if number == 25 {
        NormalizedSymbolKind::Known(KnownSymbolKind::Operator)
    } else if number == 26 {
        NormalizedSymbolKind::Known(KnownSymbolKind::TypeParameter)
    } else {
        NormalizedSymbolKind::Unknown(number)
    }
}

impl KnownSymbolKind {
    /// Returns the stable lowercase spelling used by selection protocol v1.
    pub fn as_str(self) -> (text: &'static str)
        ensures
            text@ == kind_text(self),
    {
        match self {
            KnownSymbolKind::File => "file",
            KnownSymbolKind::Module => "module",
            KnownSymbolKind::Namespace => "namespace",
            KnownSymbolKind::Package => "package",
            KnownSymbolKind::Class => "class",
            KnownSymbolKind::Method => "method",
            KnownSymbolKind::Property => "property",
            KnownSymbolKind::Field => "field",
            KnownSymbolKind::Constructor => "constructor",
            KnownSymbolKind::Enum => "enum",
            KnownSymbolKind::Interface => "interface",
            KnownSymbolKind::Function => "function",
            KnownSymbolKind::Variable => "variable",
            KnownSymbolKind::Constant => "constant",
            KnownSymbolKind::String => "string",
            KnownSymbolKind::Number => "number",
            KnownSymbolKind::Boolean => "boolean",
            KnownSymbolKind::Array => "array",
            KnownSymbolKind::Object => "object",
            KnownSymbolKind::Key => "key",
            KnownSymbolKind::Null => "null",
            KnownSymbolKind::EnumMember => "enum_member",
            KnownSymbolKind::Struct => "struct",
            KnownSymbolKind::Event => "event",
            KnownSymbolKind::Operator => "operator",
            KnownSymbolKind::TypeParameter => "type_parameter",
        }
    }

    /// Returns the standardized kind with exactly this spelling.
    pub fn parse(value: &str) -> (kind: Result<KnownSymbolKind, UnknownSymbolKind>)
        ensures
            match kind {
                Ok(kind) => kind_text(kind) == value@,
                Err(_) => forall|kind: KnownSymbolKind| #[trigger] kind_text(kind) != value@,
            },
    {
        if text_equal(value, "file") {
            return Ok(KnownSymbolKind::File);
        }
        if text_equal(value, "module") {
            return Ok(KnownSymbolKind::Module);
        }
        if text_equal(value, "namespace") {
            return Ok(KnownSymbolKind::Namespace);
        }
        if text_equal(value, "package") {
            return Ok(KnownSymbolKind::Package);
        }
        if text_equal(value, "class") {
            return Ok(KnownSymbolKind::Class);
        }
        if text_equal(value, "method") {
            return Ok(KnownSymbolKind::Method);
        }
        if text_equal(value, "property") {
            return Ok(KnownSymbolKind::Property);
        }
        if text_equal(value, "field") {
            return Ok(KnownSymbolKind::Field);
        }
        if text_equal(value, "constructor") {
            return Ok(KnownSymbolKind::Constructor);
        }
        if text_equal(value, "enum") {
            return Ok(KnownSymbolKind::Enum);
        }
        if text_equal(value, "interface") {
            return Ok(KnownSymbolKind::Interface);
        }
        if text_equal(value, "function") {
            return Ok(KnownSymbolKind::Function);
        }
        if text_equal(value, "variable") {
            return Ok(KnownSymbolKind::Variable);
        }
        if text_equal(value, "constant") {
            return Ok(KnownSymbolKind::Constant);
        }
        if text_equal(value, "string") {
            return Ok(KnownSymbolKind::String);
        }
        if text_equal(value, "number") {
            return Ok(KnownSymbolKind::Number);
        }
        if text_equal(value, "boolean") {
            return Ok(KnownSymbolKind::Boolean);
        }
        if text_equal(value, "array") {
            return Ok(KnownSymbolKind::Array);
        }
        if text_equal(value, "object") {
            return Ok(KnownSymbolKind::Object);
        }
        if text_equal(value, "key") {
            return Ok(KnownSymbolKind::Key);
        }
        if text_equal(value, "null") {
            return Ok(KnownSymbolKind::Null);
        }
        if text_equal(value, "enum_member") {
            return Ok(KnownSymbolKind::EnumMember);
        }
        if text_equal(value, "struct") {
            return Ok(KnownSymbolKind::Struct);
        }
        if text_equal(value, "event") {
            return Ok(KnownSymbolKind::Event);
        }
        if text_equal(value, "operator") {
            return Ok(KnownSymbolKind::Operator);
        }
        if text_equal(value, "type_parameter") {
            return Ok(KnownSymbolKind::TypeParameter);
        }
        assert forall|kind: KnownSymbolKind| #[trigger] kind_text(kind) != value@ by {
            match kind {
                KnownSymbolKind::File => {},
                KnownSymbolKind::Module => {},
                KnownSymbolKind::Namespace => {},
                KnownSymbolKind::Package => {},
                KnownSymbolKind::Class => {},
                KnownSymbolKind::Method => {},
                KnownSymbolKind::Property => {},
                KnownSymbolKind::Field => {},
                KnownSymbolKind::Constructor => {},
                KnownSymbolKind::Enum => {},
                KnownSymbolKind::Interface => {},
                KnownSymbolKind::Function => {},
                KnownSymbolKind::Variable => {},
                KnownSymbolKind::Constant => {},
                KnownSymbolKind::String => {},
                KnownSymbolKind::Number => {},
                KnownSymbolKind::Boolean => {},
                KnownSymbolKind::Array => {},
                KnownSymbolKind::Object => {},
                KnownSymbolKind::Key => {},
                KnownSymbolKind::Null => {},
                KnownSymbolKind::EnumMember => {},
                KnownSymbolKind::Struct => {},
                KnownSymbolKind::Event => {},
                KnownSymbolKind::Operator => {},
                KnownSymbolKind::TypeParameter => {},
            }
        }
        Err(UnknownSymbolKind)
    }
}

/// Error returned when a query kind is not one of the standardized spellings.
#[derive(Clone, Copy, Debug, PartialEq, Eq, Structural)]
pub struct UnknownSymbolKind;

impl UnknownSymbolKind {
    /// Returns the stable text of this error.
    pub fn message(&self) -> (text: &'static str)
        ensures
            text@ == "unknown standardized symbol kind"@,
    {
        "unknown standardized symbol kind"
    }
}

impl std::str::FromStr for KnownSymbolKind {
    type Err = UnknownSymbolKind;

    /// Returns the kind of a spelling.
    fn from_str(value: &str) -> (kind: Result<Self, Self::Err>)
        ensures
            match kind {
                Ok(kind) => kind_text(kind) == value@,
                Err(_) => forall|kind: KnownSymbolKind| #[trigger] kind_text(kind) != value@,
            },
    {
        KnownSymbolKind::parse(value)
    }
}

/// A normalized kind, retaining the number of a future LSP kind for diagnostics.
#[derive(Clone, Copy, Debug, PartialEq, Eq, Hash, Structural)]
pub enum NormalizedSymbolKind {
    /// A kind standardized by the negotiated LSP version.
    Known(KnownSymbolKind),
    /// A future or vendor-defined numeric kind.
    Unknown(u32),
}

/// The stable selection-protocol spelling of a normalized kind.
pub open spec fn normalized_kind_text(kind: NormalizedSymbolKind) -> Seq<char> {
    match kind {
        NormalizedSymbolKind::Known(kind) => kind_text(kind),
        NormalizedSymbolKind::Unknown(_) => "unknown"@,
    }
}

/// The LSP number of a normalized kind.
pub open spec fn normalized_kind_number(kind: NormalizedSymbolKind) -> u32 {
    match kind {
        NormalizedSymbolKind::Known(kind) => kind_number(kind),
        NormalizedSymbolKind::Unknown(number) => number,
    }
}

impl NormalizedSymbolKind {
    /// Returns the stable selection-protocol spelling.
    pub fn as_str(self) -> (text: &'static str)
        ensures
            text@ == normalized_kind_text(self),
    {
        match self {
            NormalizedSymbolKind::Known(kind) => kind.as_str(),
            NormalizedSymbolKind::Unknown(_) => "unknown",
        }
    }

    /// Returns the server's numeric value when the kind is not standardized.
    pub fn unknown_numeric(self) -> (number: Option<u32>)
        ensures
            number == match self {
                NormalizedSymbolKind::Known(_) => None::<u32>,
                NormalizedSymbolKind::Unknown(number) => Some(number),
            },
    {
        match self {
            NormalizedSymbolKind::Known(_) => None,
            NormalizedSymbolKind::Unknown(number) => Some(number),
        }
    }

    /// Returns the LSP number of this kind.
    pub fn numeric(self) -> (number: u32)
        ensures
            number == normalized_kind_number(self),
    {
        match self {
            NormalizedSymbolKind::Known(kind) => known_kind_number(kind),
            NormalizedSymbolKind::Unknown(number) => number,
        }
    }

    /// Returns the diagnostic text of this kind, with the number of an unknown one.
    pub fn message(&self) -> (text: String)
        ensures
            text@ == match *self {
                NormalizedSymbolKind::Known(kind) => kind_text(kind),
                NormalizedSymbolKind::Unknown(number) => "unknown ("@ + text::decimal(number as nat)
                    + ")"@,
            },
    {
        match self {
            NormalizedSymbolKind::Known(kind) => kind.as_str().to_owned(),
            NormalizedSymbolKind::Unknown(number) => {
                let mut text = "unknown (".to_owned();
                push_decimal(&mut text, *number as u64);
                text.append(")");
                text
            },
        }
    }
}

/// Returns the LSP number of a standardized kind.
pub fn known_kind_number(kind: KnownSymbolKind) -> (number: u32)
    ensures
        number == kind_number(kind),
{
    match kind {
        KnownSymbolKind::File => 1,
        KnownSymbolKind::Module => 2,
        KnownSymbolKind::Namespace => 3,
        KnownSymbolKind::Package => 4,
        KnownSymbolKind::Class => 5,
        KnownSymbolKind::Method => 6,
        KnownSymbolKind::Property => 7,
        KnownSymbolKind::Field => 8,
        KnownSymbolKind::Constructor => 9,
        KnownSymbolKind::Enum => 10,
        KnownSymbolKind::Interface => 11,
        KnownSymbolKind::Function => 12,
        KnownSymbolKind::Variable => 13,
        KnownSymbolKind::Constant => 14,
        KnownSymbolKind::String => 15,
        KnownSymbolKind::Number => 16,
        KnownSymbolKind::Boolean => 17,
        KnownSymbolKind::Array => 18,
        KnownSymbolKind::Object => 19,
        KnownSymbolKind::Key => 20,
        KnownSymbolKind::Null => 21,
        KnownSymbolKind::EnumMember => 22,
        KnownSymbolKind::Struct => 23,
        KnownSymbolKind::Event => 24,
        KnownSymbolKind::Operator => 25,
        KnownSymbolKind::TypeParameter => 26,
    }
}

/// Returns the kind that an LSP number denotes.
pub fn normalize_kind(number: u32) -> (kind: NormalizedSymbolKind)
    ensures
        kind == kind_of_number(number),
{
    match number {
        1 => NormalizedSymbolKind::Known(KnownSymbolKind::File),
        2 => NormalizedSymbolKind::Known(KnownSymbolKind::Module),
        3 => NormalizedSymbolKind::Known(KnownSymbolKind::Namespace),
        4 => NormalizedSymbolKind::Known(KnownSymbolKind::Package),
        5 => NormalizedSymbolKind::Known(KnownSymbolKind::Class),
        6 => NormalizedSymbolKind::Known(KnownSymbolKind::Method),
        7 => NormalizedSymbolKind::Known(KnownSymbolKind::Property),
        8 => NormalizedSymbolKind::Known(KnownSymbolKind::Field),
        9 => NormalizedSymbolKind::Known(KnownSymbolKind::Constructor),
        10 => NormalizedSymbolKind::Known(KnownSymbolKind::Enum),
        11 => NormalizedSymbolKind::Known(KnownSymbolKind::Interface),
        12 => NormalizedSymbolKind::Known(KnownSymbolKind::Function),
        13 => NormalizedSymbolKind::Known(KnownSymbolKind::Variable),
        14 => NormalizedSymbolKind::Known(KnownSymbolKind::Constant),
        15 => NormalizedSymbolKind::Known(KnownSymbolKind::String),
        16 => NormalizedSymbolKind::Known(KnownSymbolKind::Number),
        17 => NormalizedSymbolKind::Known(KnownSymbolKind::Boolean),
        18 => NormalizedSymbolKind::Known(KnownSymbolKind::Array),
        19 => NormalizedSymbolKind::Known(KnownSymbolKind::Object),
        20 => NormalizedSymbolKind::Known(KnownSymbolKind::Key),
        21 => NormalizedSymbolKind::Known(KnownSymbolKind::Null),
        22 => NormalizedSymbolKind::Known(KnownSymbolKind::EnumMember),
        23 => NormalizedSymbolKind::Known(KnownSymbolKind::Struct),
        24 => NormalizedSymbolKind::Known(KnownSymbolKind::Event),
        25 => NormalizedSymbolKind::Known(KnownSymbolKind::Operator),
        26 => NormalizedSymbolKind::Known(KnownSymbolKind::TypeParameter),
        _ => NormalizedSymbolKind::Unknown(number),
    }
}

/// Whether a kind passes an optional kind filter.
pub open spec fn kind_passes(
    actual: NormalizedSymbolKind,
    requested: Option<KnownSymbolKind>,
) -> bool {
    requested is None || actual == NormalizedSymbolKind::Known(requested->Some_0)
}

/// Returns whether a kind passes an optional kind filter.
pub fn kind_matches(actual: NormalizedSymbolKind, requested: Option<KnownSymbolKind>) -> (passes:
    bool)
    ensures
        passes == kind_passes(actual, requested),
{
    match requested {
        None => true,
        Some(requested) => match actual {
            NormalizedSymbolKind::Known(kind) => kind == requested,
            NormalizedSymbolKind::Unknown(_) => false,
        },
    }
}

/// Normalizing a number keeps it.
pub proof fn law_kind_numbers_round_trip(number: u32)
    ensures
        normalized_kind_number(kind_of_number(number)) == number,
{
}

/// Standardized kinds have different spellings, so the spelling of a kind
/// parses to that kind only, and none is spelled like an unknown kind.
pub proof fn law_kind_spellings_are_unique(left: KnownSymbolKind, right: KnownSymbolKind)
    ensures
        kind_text(left) == kind_text(right) ==> left == right,
        kind_text(left) != "unknown"@,
{
    reveal_strlit("file");
    reveal_strlit("module");
    reveal_strlit("namespace");
    reveal_strlit("package");
    reveal_strlit("class");
    reveal_strlit("method");
    reveal_strlit("property");
    reveal_strlit("field");
    reveal_strlit("constructor");
    reveal_strlit("enum");
    reveal_strlit("interface");
    reveal_strlit("function");
    reveal_strlit("variable");
    reveal_strlit("constant");
    reveal_strlit("string");
    reveal_strlit("number");
    reveal_strlit("boolean");
    reveal_strlit("array");
    reveal_strlit("object");
    reveal_strlit("key");
    reveal_strlit("null");
    reveal_strlit("enum_member");
    reveal_strlit("struct");
    reveal_strlit("event");
    reveal_strlit("operator");
    reveal_strlit("type_parameter");
    reveal_strlit("unknown");
    let left_text = kind_text(left);
    let right_text = kind_text(right);
    assert(left_text == right_text ==> left_text.len() == right_text.len() && left_text[0]
        == right_text[0] && left_text.last() == right_text.last());
    assert(left_text.len() == 7 ==> left_text[0] != "unknown"@[0]);
}

} // verus!
