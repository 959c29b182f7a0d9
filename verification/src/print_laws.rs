//! What is printed, and in which order.

use vstd::prelude::*;

use crate::commit;
use crate::edit_report;
use crate::edit_report::{ErrorCode, ErrorView};
use crate::json;
use crate::json::JsonView;
use crate::kinds;
use crate::order;
use crate::order::Rank;
use crate::outline;
use crate::outline::{OutlineErrorCode, OutlineErrorView, OutlineSymbolView};
use crate::outline_command;
use crate::position::Position;
use crate::select_command;
use crate::selection;
use crate::selection::{SelectionErrorCode, SelectionErrorView};
use crate::symbol_laws;
use crate::symbols;
use crate::symbols::{MatchView, SymbolView};
use crate::terminal;
use crate::text;
use crate::wire;
use crate::wire::{BoundedJsonLineFailure, WarningDto};
use crate::wire_laws;

verus! {

/// The value of a digit, in lower case.
pub open spec fn digit_value(digit: char) -> int {
    if '0' <= digit <= '9' {
        digit as int - '0' as int
    } else {
        digit as int - 'a' as int + 10
    }
}

/// Whether a character is a digit of a base, in lower case.
pub open spec fn is_digit(digit: char, base: int) -> bool {
    ('0' <= digit <= '9' || 'a' <= digit <= 'z') && digit_value(digit) < base
}

/// The number that digits write in a base.
pub open spec fn number_of(digits: Seq<char>, base: int) -> int
    decreases digits.len(),
{
    if digits.len() == 0 {
        0
    } else {
        number_of(digits.drop_last(), base) * base + digit_value(digits.last())
    }
}

/// Whether digits write a number in a base: each is one of its digits, there is
/// at least one, and the first is no zero but for zero itself.
pub open spec fn writes(digits: Seq<char>, number: nat, base: int) -> bool {
    &&& digits.len() > 0
    &&& forall|i: int| 0 <= i < digits.len() ==> is_digit(#[trigger] digits[i], base)
    &&& number_of(digits, base) == number
    &&& number > 0 ==> digits[0] != '0'
}

/// A number is printed as the decimal digits that write it.
pub proof fn law_decimals_write_their_number(number: nat)
    ensures
        writes(text::decimal(number), number, 10),
    decreases number,
{
    reveal_with_fuel(number_of, 2);
    if number < 10 {
        assert(text::decimal(number).drop_last() =~= Seq::<char>::empty());
    } else {
        let shorter = text::decimal(number / 10);
        law_decimals_write_their_number(number / 10);
        assert(text::decimal(number).drop_last() =~= shorter);
        assert(text::decimal(number)[0] == shorter[0]);
        assert(number / 10 * 10 + number % 10 == number);
        assert forall|i: int| 0 <= i < text::decimal(number).len() implies is_digit(
            #[trigger] text::decimal(number)[i],
            10,
        ) by {
            if i < shorter.len() {
                assert(text::decimal(number)[i] == shorter[i]);
            }
        }
    }
}

/// A number in hexadecimal is printed as the digits that write it.
pub proof fn law_hexadecimals_write_their_number(number: nat)
    ensures
        writes(text::hexadecimal(number), number, 16),
    decreases number,
{
    reveal_with_fuel(number_of, 2);
    if number < 16 {
        assert(text::hexadecimal(number).drop_last() =~= Seq::<char>::empty());
    } else {
        let shorter = text::hexadecimal(number / 16);
        law_hexadecimals_write_their_number(number / 16);
        assert(text::hexadecimal(number).drop_last() =~= shorter);
        assert(text::hexadecimal(number)[0] == shorter[0]);
        assert(number / 16 * 16 + number % 16 == number);
        assert forall|i: int| 0 <= i < text::hexadecimal(number).len() implies is_digit(
            #[trigger] text::hexadecimal(number)[i],
            16,
        ) by {
            if i < shorter.len() {
                assert(text::hexadecimal(number)[i] == shorter[i]);
            }
        }
    }
}

/// Whether a character moves the cursor, rings, or turns the direction of text.
pub open spec fn is_control(character: char) -> bool {
    let number = character as u32;
    ||| number < 32
    ||| 127 <= number < 160
    ||| number == 1_564
    ||| number == 8_206 || number == 8_207
    ||| 8_234 <= number <= 8_238
    ||| 8_294 <= number <= 8_297
}

/// Text is shown character by character: one that controls the terminal as its
/// number between braces, and any other as it is.
pub proof fn law_text_is_shown_character_by_character(left: Seq<char>, character: char)
    ensures
        terminal::escaped(Seq::empty()).len() == 0,
        terminal::escaped(left.push(character)) == terminal::escaped(left) + if is_control(
            character,
        ) {
            "\\u{"@ + text::hexadecimal((character as u32) as nat) + "}"@
        } else {
            seq![character]
        },
{
    assert(left.push(character).drop_last() =~= left);
}

/// Texts in a row are each separated from the next.
pub proof fn law_joined_texts_are_separated(
    texts: Seq<Seq<char>>,
    last: Seq<char>,
    separator: Seq<char>,
)
    ensures
        wire::joined(Seq::empty(), separator).len() == 0,
        wire::joined(seq![last], separator) == last,
        texts.len() > 0 ==> wire::joined(texts.push(last), separator) == wire::joined(
            texts,
            separator,
        ) + separator + last,
{
    assert(texts.push(last).drop_last() =~= texts);
}

/// A position as it is printed: its line and its character, counted from zero.
pub open spec fn printed_position(place: Position) -> Seq<char> {
    text::decimal(place.line as nat) + ":"@ + text::decimal(place.character as nat)
}

/// Each match is printed on a line of its own, in order: the path and the selected
/// bytes, the kind and the name, the breadcrumb, and both ranges of the server.
pub proof fn law_matches_are_printed_in_order(
    path: Seq<char>,
    earlier: Seq<MatchView>,
    found: MatchView,
)
    ensures
        select_command::match_lines(path, Seq::empty()).len() == 0,
        select_command::match_lines(path, earlier.push(found)) == select_command::match_lines(
            path,
            earlier,
        ) + (terminal::escaped(path) + ":"@ + text::decimal(found.selected_range.start as nat)
            + ".."@ + text::decimal(found.selected_range.end as nat) + " "@
            + kinds::normalized_kind_text(found.kind) + " "@ + terminal::escaped(found.name)
            + " ["@ + terminal::escaped(wire::joined(found.symbol_path, "::"@)) + "] lsp="@ + (
        printed_position(found.lsp_range.start) + ".."@ + printed_position(found.lsp_range.end))
            + " selection="@ + (printed_position(found.lsp_selection_range.start) + ".."@
            + printed_position(found.lsp_selection_range.end)) + "\n"@),
{
    assert(earlier.push(found).drop_last() =~= earlier);
}

/// What is printed for matches is their lines, or that there are none; and more
/// than sixteen mebibytes are refused.
pub proof fn law_printed_matches_are_bounded(path: Seq<char>, matches: Seq<MatchView>)
    ensures
        match select_command::human_text(path, matches) {
            Ok(printed) => if matches.len() == 0 {
                printed == "no matching document symbols\n"@
            } else {
                &&& printed == select_command::match_lines(path, matches)
                &&& text::utf8(printed).len() <= 16_777_216
            },
            Err(error) => {
                &&& matches.len() > 0
                &&& text::utf8(select_command::match_lines(path, matches)).len() > 16_777_216
                &&& error.code == SelectionErrorCode::LspResourceLimitExceeded
            },
        },
{
}

/// Each record is printed on a line of its own under the heading, in order: two
/// spaces for each ancestor, the kind and the name, the lines, the server's range,
/// and the bytes.
pub proof fn law_records_are_printed_in_order(
    path: Seq<char>,
    count: nat,
    earlier: Seq<OutlineSymbolView>,
    record: OutlineSymbolView,
)
    requires
        record.depth <= usize::MAX,
    ensures
        outline_command::record_lines(path, count, Seq::empty()) == terminal::escaped(path)
            + ": "@ + text::decimal(count) + " document symbols\n"@,
        outline_command::record_lines(path, count, earlier.push(record))
            == outline_command::record_lines(path, count, earlier) + (outline_command::spaces(
            record.depth as nat,
        ) + selection::result_kind_text(record.symbol_kind) + " "@ + terminal::escaped(record.name)
            + " lines "@ + text::decimal(record.start_line as nat) + ".."@ + text::decimal(
            record.end_line as nat,
        ) + " lsp="@ + text::decimal(record.lsp_range.start.line as nat) + ":"@ + text::decimal(
            record.lsp_range.start.character as nat,
        ) + ".."@ + text::decimal(record.lsp_range.end.line as nat) + ":"@ + text::decimal(
            record.lsp_range.end.character as nat,
        ) + " bytes "@ + text::decimal(record.selector.start as nat) + ".."@ + text::decimal(
            record.selector.end as nat,
        ) + "\n"@),
{
    assert(earlier.push(record).drop_last() =~= earlier);
}

/// An indentation has two spaces for each level, and nothing else.
pub proof fn law_indentations_are_spaces(depth: nat)
    ensures
        outline_command::spaces(depth).len() == 2 * depth,
        forall|i: int| 0 <= i < 2 * depth ==> #[trigger] outline_command::spaces(depth)[i] == ' ',
    decreases depth,
{
    reveal_strlit("  ");
    if depth > 0 {
        let before = outline_command::spaces((depth - 1) as nat);
        law_indentations_are_spaces((depth - 1) as nat);
        assert forall|i: int| 0 <= i < 2 * depth implies #[trigger] outline_command::spaces(
            depth,
        )[i] == ' ' by {
            if i < before.len() {
                assert(outline_command::spaces(depth)[i] == before[i]);
            }
        }
    }
}

/// What is printed for records is all of them under the number of them, or that
/// there are none; and more than the bound is refused.
pub proof fn law_printed_records_are_bounded(
    path: Seq<char>,
    records: Seq<OutlineSymbolView>,
    maximum: usize,
)
    ensures
        match outline_command::bounded_text(path, records, maximum) {
            Ok(printed) => {
                &&& text::utf8(printed).len() <= maximum
                &&& if records.len() == 0 {
                    printed == "no document symbols\n"@
                } else {
                    printed == outline_command::record_lines(path, records.len(), records)
                }
            },
            Err(error) => {
                &&& error.code == OutlineErrorCode::LspResourceLimitExceeded
                &&& records.len() == 0 ==> text::utf8("no document symbols\n"@).len() > maximum
                &&& records.len() > 0 ==> text::utf8(
                    outline_command::record_lines(path, records.len(), records),
                ).len() > maximum
            },
        },
{
}

/// A structured line is the serialized value and one line feed, exactly where both
/// together are within the bound.
pub proof fn law_structured_lines_are_whole(value: JsonView, maximum: u64)
    requires
        0 < maximum <= usize::MAX,
    ensures
        match (json::serialized_json(value), wire::json_line(value, maximum)) {
            (Ok(payload), Ok(line)) => payload.len() + 1 <= maximum && line == payload.push(10u8),
            (Ok(payload), Err(failure)) => payload.len() + 1 > maximum && failure is ResponseLimit,
            (Err(_), outcome) => outcome == Err::<Seq<u8>, BoundedJsonLineFailure>(
                BoundedJsonLineFailure::Serialization,
            ),
        },
{
}

/// An error is shown as the program's name, its code, and its message, on a line.
pub proof fn law_errors_are_shown_on_a_line(code: Seq<char>, message: Seq<char>)
    ensures
        edit_report::error_line(code, message) == "srcmv: "@ + code + ": "@ + terminal::escaped(
            message,
        ) + "\n"@,
{
}

/// A structured error says its code, its category, its message, its context, and
/// whether trying again may help: that is where a server or a lock was in the way.
pub proof fn law_errors_say_whether_to_retry(
    edit: ErrorView,
    select: SelectionErrorView,
    outlined: OutlineErrorView,
)
    ensures
        ({
            let value = edit_report::error_json(edit);
            &&& wire_laws::has(value, "code"@, JsonView::String(edit_report::code_text(edit.code)))
            &&& wire_laws::has(
                value,
                "category"@,
                JsonView::String(edit_report::category_text(edit_report::code_category(edit.code))),
            )
            &&& wire_laws::has(
                value,
                "retryable"@,
                JsonView::Bool(edit.code is TransactionBusy),
            )
            &&& wire_laws::has(value, "message"@, JsonView::String(edit.message))
            &&& wire_laws::has(value, "context"@, JsonView::Object(edit.context))
        }),
        ({
            let value = selection::selection_error_json(select);
            &&& wire_laws::has(value, "selection_protocol_version"@, wire_laws::count(1))
            &&& wire_laws::has(
                value,
                "code"@,
                JsonView::String(selection::selection_code_text(select.code)),
            )
            &&& wire_laws::has(
                value,
                "category"@,
                JsonView::String(
                    selection::selection_category_text(selection::selection_category(select.code)),
                ),
            )
            &&& wire_laws::has(
                value,
                "retryable"@,
                JsonView::Bool(
                    match select.code {
                        SelectionErrorCode::LspTimeout
                        | SelectionErrorCode::LspStartFailed
                        | SelectionErrorCode::LspExited
                        | SelectionErrorCode::LspRequestFailed => true,
                        _ => false,
                    },
                ),
            )
            &&& wire_laws::has(value, "message"@, JsonView::String(select.message))
            &&& wire_laws::has(value, "context"@, JsonView::Object(select.context))
        }),
        ({
            let value = outline::outline_error_json(outlined);
            &&& wire_laws::has(value, "outline_protocol_version"@, wire_laws::count(1))
            &&& wire_laws::has(
                value,
                "code"@,
                JsonView::String(outline::outline_code_text(outlined.code)),
            )
            &&& wire_laws::has(
                value,
                "category"@,
                JsonView::String(
                    outline::outline_category_text(outline::outline_category(outlined.code)),
                ),
            )
            &&& wire_laws::has(
                value,
                "retryable"@,
                JsonView::Bool(
                    match outlined.code {
                        OutlineErrorCode::LspTimeout
                        | OutlineErrorCode::LspStartFailed
                        | OutlineErrorCode::LspExited
                        | OutlineErrorCode::LspRequestFailed => true,
                        _ => false,
                    },
                ),
            )
            &&& wire_laws::has(value, "message"@, JsonView::String(outlined.message))
            &&& wire_laws::has(value, "context"@, JsonView::Object(outlined.context))
        }),
{
    let members = edit_report::error_json(edit)->Object_0;
    assert(members.contains(members[0]) && members.contains(members[1]) && members.contains(
        members[2],
    ) && members.contains(members[3]) && members.contains(members[4]));
    let members = selection::selection_error_json(select)->Object_0;
    assert(members.contains(members[0]) && members.contains(members[1]) && members.contains(
        members[2],
    ) && members.contains(members[3]) && members.contains(members[4]) && members.contains(
        members[5],
    ));
    let members = outline::outline_error_json(outlined)->Object_0;
    assert(members.contains(members[0]) && members.contains(members[1]) && members.contains(
        members[2],
    ) && members.contains(members[3]) && members.contains(members[4]) && members.contains(
        members[5],
    ));
}

/// A warning says its code, its message, and its context; the one of a commit is
/// that metadata was not preserved.
pub proof fn law_warnings_say_what_they_are(warning: WarningDto)
    ensures
        wire_laws::has(
            warning@,
            "code"@,
            JsonView::String(wire::warning_text(warning.code)),
        ),
        wire_laws::has(warning@, "message"@, JsonView::String(warning.message@)),
        wire_laws::has(warning@, "context"@, JsonView::Object(warning.context@)),
        wire_laws::has(
            commit::metadata_warning(),
            "code"@,
            JsonView::String("METADATA_NOT_PRESERVED"@),
        ),
{
    let members = warning@->Object_0;
    assert(members.contains(members[0]) && members.contains(members[1]) && members.contains(
        members[2],
    ));
    let members = commit::metadata_warning()->Object_0;
    assert(members.contains(members[0]));
}

/// The process status of an error: 2 for the request's fault, 3 for a conflict, 4
/// for what is not supported, 5 for a transaction in the way, 6 for corrupt state,
/// and 8 for anything else.
pub proof fn law_statuses_tell_whose_fault(
    edit: ErrorCode,
    select: SelectionErrorCode,
    outlined: OutlineErrorCode,
)
    ensures
        edit_report::category_exit_code(edit_report::code_category(edit)) == match edit {
            ErrorCode::InvalidCli
            | ErrorCode::InvalidJson
            | ErrorCode::UnsupportedProtocolVersion
            | ErrorCode::InvalidRequest
            | ErrorCode::InvalidDigest => 2u8,
            ErrorCode::PreconditionFailed
            | ErrorCode::FileChanged
            | ErrorCode::FileAlias
            | ErrorCode::ExpectedPlanRequired
            | ErrorCode::ExpectedPlanMismatch
            | ErrorCode::PlanChangedDuringCommit
            | ErrorCode::EditConflict
            | ErrorCode::RecoveryConflict => 3,
            ErrorCode::ResourceLimitExceeded
            | ErrorCode::UnsupportedPlatform
            | ErrorCode::UnsupportedFilesystem
            | ErrorCode::UnsupportedFileType
            | ErrorCode::SymlinkNotAllowed
            | ErrorCode::HardLinkNotSupported
            | ErrorCode::CrossDeviceTransaction
            | ErrorCode::NoReplaceUnavailable => 4,
            ErrorCode::TransactionBusy
            | ErrorCode::TransactionRecoveryRequired
            | ErrorCode::TransactionNotFound
            | ErrorCode::RecoveryActionNotAllowed => 5,
            ErrorCode::ControlDirectoryInvalid | ErrorCode::TransactionRecordCorrupt => 6,
            ErrorCode::IoError | ErrorCode::InternalError => 8,
        },
        selection::selection_exit_code(selection::selection_category(select)) == match select {
            SelectionErrorCode::InvalidSelectionQuery => 2u8,
            SelectionErrorCode::SelectionNotFound | SelectionErrorCode::SelectionAmbiguous => 3,
            SelectionErrorCode::SelectionInternalError => 8,
            _ => 4,
        },
        outline::outline_exit_code(outline::outline_category(outlined)) == match outlined {
            OutlineErrorCode::InvalidOutlineQuery => 2u8,
            OutlineErrorCode::OutlineInternalError => 8,
            _ => 4,
        },
{
}

/// Whether bytes come before others, or are the same: they are a prefix, or the
/// first byte that differs is smaller.
pub open spec fn is_not_after(left: Seq<u8>, right: Seq<u8>) -> bool {
    exists|common: int|
        {
            &&& 0 <= common <= left.len()
            &&& common <= right.len()
            &&& #[trigger] left.take(common) == right.take(common)
            &&& common == left.len() || (common < right.len() && left[common] < right[common])
        }
}

proof fn lemma_not_after(left: Seq<u8>, right: Seq<u8>)
    requires
        order::rank_bytes(left, right) != Rank::Greater,
    ensures
        is_not_after(left, right),
    decreases left.len(),
{
    if left.len() == 0 || right.len() == 0 {
        assert(left.take(0) =~= right.take(0));
        assert(left.len() == 0);
    } else if left[0] < right[0] {
        assert(left.take(0) =~= right.take(0));
    } else {
        let (first, second) = (left.drop_first(), right.drop_first());
        lemma_not_after(first, second);
        let common = choose|common: int|
            {
                &&& 0 <= common <= first.len()
                &&& common <= second.len()
                &&& #[trigger] first.take(common) == second.take(common)
                &&& common == first.len() || (common < second.len() && first[common]
                    < second[common])
            };
        assert(left.take(common + 1) =~= seq![left[0]] + first.take(common));
        assert(right.take(common + 1) =~= seq![right[0]] + second.take(common));
        assert(left.take(common + 1) == right.take(common + 1));
    }
}

/// Candidates come by where they start, then by where they end, and then by the
/// spelling of their kind.
pub proof fn law_candidates_come_by_their_place(list: Seq<SymbolView>)
    ensures
        ({
            let ordered = symbols::ordered_unique(list);
            forall|i: int, j: int|
                0 <= i < j < ordered.len() ==> {
                    let first = #[trigger] ordered[i];
                    let second = #[trigger] ordered[j];
                    ||| first.byte_range.start < second.byte_range.start
                    ||| first.byte_range.start == second.byte_range.start && first.byte_range.end
                        < second.byte_range.end
                    ||| first.byte_range == second.byte_range && is_not_after(
                        text::utf8(kinds::normalized_kind_text(first.kind)),
                        text::utf8(kinds::normalized_kind_text(second.kind)),
                    )
                }
        }),
{
    symbol_laws::law_candidates_are_sorted_and_unique(list);
    let ordered = symbols::ordered_unique(list);
    assert forall|i: int, j: int| 0 <= i < j < ordered.len() implies {
        let first = #[trigger] ordered[i];
        let second = #[trigger] ordered[j];
        ||| first.byte_range.start < second.byte_range.start
        ||| first.byte_range.start == second.byte_range.start && first.byte_range.end
            < second.byte_range.end
        ||| first.byte_range == second.byte_range && is_not_after(
            text::utf8(kinds::normalized_kind_text(first.kind)),
            text::utf8(kinds::normalized_kind_text(second.kind)),
        )
    } by {
        lemma_candidate_order(ordered[i], ordered[j]);
    }
}

proof fn lemma_candidate_order(first: SymbolView, second: SymbolView)
    requires
        symbols::rank_symbols(first, second) != Rank::Greater,
    ensures
        ({
            ||| first.byte_range.start < second.byte_range.start
            ||| first.byte_range.start == second.byte_range.start && first.byte_range.end
                < second.byte_range.end
            ||| first.byte_range == second.byte_range && is_not_after(
                text::utf8(kinds::normalized_kind_text(first.kind)),
                text::utf8(kinds::normalized_kind_text(second.kind)),
            )
        }),
{
    reveal(symbols::rank_symbols);
    let left = text::utf8(kinds::normalized_kind_text(first.kind));
    let right = text::utf8(kinds::normalized_kind_text(second.kind));
    if first.byte_range == second.byte_range {
        assert(order::rank_bytes(left, right) != Rank::Greater);
        lemma_not_after(left, right);
    }
}

/// Of two records at the same place and of the same kind, the one whose breadcrumb
/// comes first does; of equal breadcrumbs, the one whose name does; and then the
/// one whose name stands first, and the one without a detail.
pub proof fn law_equal_places_come_by_their_names(first: SymbolView, second: SymbolView)
    requires
        first.byte_range == second.byte_range,
        first.kind == second.kind,
    ensures
        ({
            let paths = order::rank_paths(first.symbol_path, second.symbol_path);
            let names = order::rank_texts(first.name, second.name);
            let rank = symbols::rank_symbols(first, second);
            &&& paths != Rank::Equal ==> rank == paths
            &&& paths == Rank::Equal && names != Rank::Equal ==> rank == names
            &&& paths == Rank::Equal && names == Rank::Equal && first.selection_byte_range.start
                < second.selection_byte_range.start ==> rank == Rank::Less
            &&& paths == Rank::Equal && names == Rank::Equal && first.selection_byte_range.start
                == second.selection_byte_range.start && first.selection_byte_range.end
                < second.selection_byte_range.end ==> rank == Rank::Less
            &&& paths == Rank::Equal && names == Rank::Equal && first.selection_byte_range
                == second.selection_byte_range && first.detail is None && second.detail is Some
                ==> rank == Rank::Less
        }),
{
    reveal(symbols::rank_symbols);
    lemma_same_bytes(text::utf8(kinds::normalized_kind_text(first.kind)));
}

proof fn lemma_same_bytes(bytes: Seq<u8>)
    ensures
        order::rank_bytes(bytes, bytes) == Rank::Equal,
    decreases bytes.len(),
{
    if bytes.len() > 0 {
        lemma_same_bytes(bytes.drop_first());
    }
}

/// Breadcrumbs come by their first name that differs, and a shorter one first.
pub proof fn law_breadcrumbs_come_by_their_names(
    common: Seq<Seq<char>>,
    left: Seq<Seq<char>>,
    right: Seq<Seq<char>>,
)
    ensures
        order::rank_paths(common + left, common + right) == order::rank_paths(left, right),
        left.len() > 0 && right.len() > 0 && order::rank_texts(left[0], right[0]) != Rank::Equal
            ==> order::rank_paths(left, right) == order::rank_texts(left[0], right[0]),
        left.len() == 0 && right.len() > 0 ==> order::rank_paths(left, right) == Rank::Less,
    decreases common.len(),
{
    if common.len() == 0 {
        assert(common + left =~= left);
        assert(common + right =~= right);
    } else {
        let rest = common.drop_first();
        law_breadcrumbs_come_by_their_names(rest, left, right);
        assert((common + left).drop_first() =~= rest + left);
        assert((common + right).drop_first() =~= rest + right);
        lemma_same_bytes(text::utf8(common[0]));
    }
}

} // verus!
