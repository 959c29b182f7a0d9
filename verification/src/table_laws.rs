//! How kinds, codes, and other choices are spelled and numbered.

use vstd::prelude::*;

use crate::digest;
use crate::edit_report;
use crate::edit_report::{ErrorCategory, ErrorCode};
use crate::kinds;
use crate::kinds::{KnownSymbolKind, NormalizedSymbolKind};
use crate::outline;
use crate::outline::{OutlineErrorCategory, OutlineErrorCode};
use crate::print_laws;
use crate::selection;
use crate::selection::{
    SelectionErrorCategory, SelectionErrorCode, SelectionExtentDto, SelectionPositionEncodingDto,
};
use crate::wire;
use crate::wire::WarningCode;

verus! {

/// The spellings of the kinds, and the numbers that the protocol gives them.
pub proof fn law_kinds_are_spelled_and_numbered(kind: KnownSymbolKind)
    ensures
        kinds::kind_text(kind) == match kind {
            KnownSymbolKind::File => "file"@,
            KnownSymbolKind::Module => "module"@,
            KnownSymbolKind::Namespace => "namespace"@,
            KnownSymbolKind::Package => "package"@,
            KnownSymbolKind::Class => "class"@,
            KnownSymbolKind::Method => "method"@,
            KnownSymbolKind::Property => "property"@,
            KnownSymbolKind::Field => "field"@,
            KnownSymbolKind::Constructor => "constructor"@,
            KnownSymbolKind::Enum => "enum"@,
            KnownSymbolKind::Interface => "interface"@,
            KnownSymbolKind::Function => "function"@,
            KnownSymbolKind::Variable => "variable"@,
            KnownSymbolKind::Constant => "constant"@,
            KnownSymbolKind::String => "string"@,
            KnownSymbolKind::Number => "number"@,
            KnownSymbolKind::Boolean => "boolean"@,
            KnownSymbolKind::Array => "array"@,
            KnownSymbolKind::Object => "object"@,
            KnownSymbolKind::Key => "key"@,
            KnownSymbolKind::Null => "null"@,
            KnownSymbolKind::EnumMember => "enum_member"@,
            KnownSymbolKind::Struct => "struct"@,
            KnownSymbolKind::Event => "event"@,
            KnownSymbolKind::Operator => "operator"@,
            KnownSymbolKind::TypeParameter => "type_parameter"@,
        },
        kinds::kind_number(kind) == match kind {
            KnownSymbolKind::File => 1u32,
            KnownSymbolKind::Module => 2,
            KnownSymbolKind::Namespace => 3,
            KnownSymbolKind::Package => 4,
            KnownSymbolKind::Class => 5,
            KnownSymbolKind::Method => 6,
            KnownSymbolKind::Property => 7,
            KnownSymbolKind::Field => 8,
            KnownSymbolKind::Constructor => 9,
            KnownSymbolKind::Enum => 10,
            KnownSymbolKind::Interface => 11,
            KnownSymbolKind::Function => 12,
            KnownSymbolKind::Variable => 13,
            KnownSymbolKind::Constant => 14,
            KnownSymbolKind::String => 15,
            KnownSymbolKind::Number => 16,
            KnownSymbolKind::Boolean => 17,
            KnownSymbolKind::Array => 18,
            KnownSymbolKind::Object => 19,
            KnownSymbolKind::Key => 20,
            KnownSymbolKind::Null => 21,
            KnownSymbolKind::EnumMember => 22,
            KnownSymbolKind::Struct => 23,
            KnownSymbolKind::Event => 24,
            KnownSymbolKind::Operator => 25,
            KnownSymbolKind::TypeParameter => 26,
        },
{
}

/// A number from 1 to 26 is that of a kind, and any other number is kept as it is.
pub proof fn law_numbers_are_those_of_kinds(number: u32)
    ensures
        match kinds::kind_of_number(number) {
            NormalizedSymbolKind::Known(kind) => 1 <= number <= 26 && kinds::kind_number(kind)
                == number,
            NormalizedSymbolKind::Unknown(kept) => !(1 <= number <= 26) && kept == number,
        },
        kinds::normalized_kind_number(kinds::kind_of_number(number)) == number,
        !(1 <= number <= 26) ==> kinds::normalized_kind_text(kinds::kind_of_number(number))
            == "unknown"@,
{
}

/// A kind passes the filter that it is, and no other, and passes where there is no
/// filter.
pub proof fn law_kinds_pass_their_own_filter(
    kind: NormalizedSymbolKind,
    filter: Option<KnownSymbolKind>,
)
    ensures
        kinds::kind_passes(kind, filter) <==> filter is None || kind == NormalizedSymbolKind::Known(
            filter->Some_0,
        ),
{
}

/// The spellings of the codes of selections.
pub proof fn law_selection_codes_are_spelled(code: SelectionErrorCode)
    ensures
        selection::selection_code_text(code) == match code {
            SelectionErrorCode::InvalidSelectionQuery => "INVALID_SELECTION_QUERY"@,
            SelectionErrorCode::LspServerNotConfigured => "LSP_SERVER_NOT_CONFIGURED"@,
            SelectionErrorCode::SelectionNotFound => "SELECTION_NOT_FOUND"@,
            SelectionErrorCode::SelectionAmbiguous => "SELECTION_AMBIGUOUS"@,
            SelectionErrorCode::UnsupportedTextEncoding => "UNSUPPORTED_TEXT_ENCODING"@,
            SelectionErrorCode::LspCapabilityUnavailable => "LSP_CAPABILITY_UNAVAILABLE"@,
            SelectionErrorCode::LspFlatSymbolsUnsupported => "LSP_FLAT_SYMBOLS_UNSUPPORTED"@,
            SelectionErrorCode::LspDocumentSyncUnavailable => "LSP_DOCUMENT_SYNC_UNAVAILABLE"@,
            SelectionErrorCode::LspResourceLimitExceeded => "LSP_RESOURCE_LIMIT_EXCEEDED"@,
            SelectionErrorCode::LspTimeout => "LSP_TIMEOUT"@,
            SelectionErrorCode::LspStartFailed => "LSP_START_FAILED"@,
            SelectionErrorCode::LspExited => "LSP_EXITED"@,
            SelectionErrorCode::LspProtocolError => "LSP_PROTOCOL_ERROR"@,
            SelectionErrorCode::LspRequestFailed => "LSP_REQUEST_FAILED"@,
            SelectionErrorCode::SelectionInternalError => "SELECTION_INTERNAL_ERROR"@,
        },
{
}

/// The spellings of the codes of outlines.
pub proof fn law_outline_codes_are_spelled(code: OutlineErrorCode)
    ensures
        outline::outline_code_text(code) == match code {
            OutlineErrorCode::InvalidOutlineQuery => "INVALID_OUTLINE_QUERY"@,
            OutlineErrorCode::LspServerNotConfigured => "LSP_SERVER_NOT_CONFIGURED"@,
            OutlineErrorCode::UnsupportedTextEncoding => "UNSUPPORTED_TEXT_ENCODING"@,
            OutlineErrorCode::LspCapabilityUnavailable => "LSP_CAPABILITY_UNAVAILABLE"@,
            OutlineErrorCode::LspFlatSymbolsUnsupported => "LSP_FLAT_SYMBOLS_UNSUPPORTED"@,
            OutlineErrorCode::LspDocumentSyncUnavailable => "LSP_DOCUMENT_SYNC_UNAVAILABLE"@,
            OutlineErrorCode::LspResourceLimitExceeded => "LSP_RESOURCE_LIMIT_EXCEEDED"@,
            OutlineErrorCode::LspTimeout => "LSP_TIMEOUT"@,
            OutlineErrorCode::LspStartFailed => "LSP_START_FAILED"@,
            OutlineErrorCode::LspExited => "LSP_EXITED"@,
            OutlineErrorCode::LspProtocolError => "LSP_PROTOCOL_ERROR"@,
            OutlineErrorCode::LspRequestFailed => "LSP_REQUEST_FAILED"@,
            OutlineErrorCode::OutlineInternalError => "OUTLINE_INTERNAL_ERROR"@,
        },
{
}

/// The spellings of the codes of edits.
pub proof fn law_edit_codes_are_spelled(code: ErrorCode)
    ensures
        edit_report::code_text(code) == match code {
            ErrorCode::InvalidCli => "INVALID_CLI"@,
            ErrorCode::InvalidJson => "INVALID_JSON"@,
            ErrorCode::UnsupportedProtocolVersion => "UNSUPPORTED_PROTOCOL_VERSION"@,
            ErrorCode::InvalidRequest => "INVALID_REQUEST"@,
            ErrorCode::InvalidDigest => "INVALID_DIGEST"@,
            ErrorCode::PreconditionFailed => "PRECONDITION_FAILED"@,
            ErrorCode::FileChanged => "FILE_CHANGED"@,
            ErrorCode::FileAlias => "FILE_ALIAS"@,
            ErrorCode::ExpectedPlanRequired => "EXPECTED_PLAN_REQUIRED"@,
            ErrorCode::ExpectedPlanMismatch => "EXPECTED_PLAN_MISMATCH"@,
            ErrorCode::PlanChangedDuringCommit => "PLAN_CHANGED_DURING_COMMIT"@,
            ErrorCode::EditConflict => "EDIT_CONFLICT"@,
            ErrorCode::RecoveryConflict => "RECOVERY_CONFLICT"@,
            ErrorCode::ResourceLimitExceeded => "RESOURCE_LIMIT_EXCEEDED"@,
            ErrorCode::UnsupportedPlatform => "UNSUPPORTED_PLATFORM"@,
            ErrorCode::UnsupportedFilesystem => "UNSUPPORTED_FILESYSTEM"@,
            ErrorCode::UnsupportedFileType => "UNSUPPORTED_FILE_TYPE"@,
            ErrorCode::SymlinkNotAllowed => "SYMLINK_NOT_ALLOWED"@,
            ErrorCode::HardLinkNotSupported => "HARD_LINK_NOT_SUPPORTED"@,
            ErrorCode::CrossDeviceTransaction => "CROSS_DEVICE_TRANSACTION"@,
            ErrorCode::NoReplaceUnavailable => "NO_REPLACE_UNAVAILABLE"@,
            ErrorCode::TransactionBusy => "TRANSACTION_BUSY"@,
            ErrorCode::TransactionRecoveryRequired => "TRANSACTION_RECOVERY_REQUIRED"@,
            ErrorCode::TransactionNotFound => "TRANSACTION_NOT_FOUND"@,
            ErrorCode::RecoveryActionNotAllowed => "RECOVERY_ACTION_NOT_ALLOWED"@,
            ErrorCode::ControlDirectoryInvalid => "CONTROL_DIRECTORY_INVALID"@,
            ErrorCode::TransactionRecordCorrupt => "TRANSACTION_RECORD_CORRUPT"@,
            ErrorCode::IoError => "IO_ERROR"@,
            ErrorCode::InternalError => "INTERNAL_ERROR"@,
        },
{
}

/// The spellings of the categories.
pub proof fn law_categories_are_spelled(edit: ErrorCategory, select: SelectionErrorCategory, outlined: OutlineErrorCategory)
    ensures
        edit_report::category_text(edit) == match edit {
            ErrorCategory::Request => "request"@,
            ErrorCategory::Conflict => "conflict"@,
            ErrorCategory::Support => "support"@,
            ErrorCategory::Transaction => "transaction"@,
            ErrorCategory::Corruption => "corruption"@,
            ErrorCategory::Internal => "internal"@,
        },
        selection::selection_category_text(select) == match select {
            SelectionErrorCategory::Request => "request"@,
            SelectionErrorCategory::Conflict => "conflict"@,
            SelectionErrorCategory::Support => "support"@,
            SelectionErrorCategory::Internal => "internal"@,
        },
        outline::outline_category_text(outlined) == match outlined {
            OutlineErrorCategory::Request => "request"@,
            OutlineErrorCategory::Support => "support"@,
            OutlineErrorCategory::Internal => "internal"@,
        },
{
}

/// The spellings of encodings, extents, and warnings.
pub proof fn law_choices_are_spelled(encoding: SelectionPositionEncodingDto, extent: SelectionExtentDto, warning: WarningCode)
    ensures
        selection::encoding_text(encoding) == match encoding {
            SelectionPositionEncodingDto::Utf8 => "utf-8"@,
            SelectionPositionEncodingDto::Utf16 => "utf-16"@,
            SelectionPositionEncodingDto::Utf32 => "utf-32"@,
        },
        selection::extent_text(extent) == match extent {
            SelectionExtentDto::Symbol => "symbol"@,
            SelectionExtentDto::DeclarationLines => "declaration_lines"@,
        },
        wire::warning_text(warning) == match warning {
            WarningCode::ObservationMayBeStale => "OBSERVATION_MAY_BE_STALE"@,
            WarningCode::MetadataNotPreserved => "METADATA_NOT_PRESERVED"@,
            WarningCode::DiffTruncated => "DIFF_TRUNCATED"@,
        },
{
}

/// Whether two digits write a byte.
pub open spec fn writes_byte(high: char, low: char, byte: u8) -> bool {
    &&& print_laws::is_digit(high, 16)
    &&& print_laws::is_digit(low, 16)
    &&& 16 * print_laws::digit_value(high) + print_laws::digit_value(low) == byte
}

/// A digest is written as the name of its algorithm and two digits for each byte,
/// in order.
pub proof fn law_digests_are_written_byte_by_byte(bytes: Seq<u8>)
    ensures
        digest::prefixed_hex(bytes) == "sha256:"@ + digest::hex_text(bytes),
        digest::hex_text(bytes).len() == 2 * bytes.len(),
        forall|i: int|
            0 <= i < bytes.len() ==> writes_byte(
                digest::hex_text(bytes)[2 * i],
                digest::hex_text(bytes)[2 * i + 1],
                #[trigger] bytes[i],
            ),
    decreases bytes.len(),
{
    if bytes.len() > 0 {
        let shorter = bytes.drop_last();
        let before = digest::hex_text(shorter);
        let written = digest::hex_text(bytes);
        law_digests_are_written_byte_by_byte(shorter);
        assert forall|i: int| 0 <= i < bytes.len() implies writes_byte(
            written[2 * i],
            written[2 * i + 1],
            #[trigger] bytes[i],
        ) by {
            if i < shorter.len() {
                assert(shorter[i] == bytes[i]);
                assert(written[2 * i] == before[2 * i]);
                assert(written[2 * i + 1] == before[2 * i + 1]);
            }
        }
    }
}

} // verus!
