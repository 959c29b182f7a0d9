//! What is refused for its size, and what is kept field by field.

use vstd::prelude::*;

use crate::commit;
use crate::commit::{CommitPhase, CommittedOutput};
use crate::edit_command;
use crate::edit_command::{open_request_error, read_request_error};
use crate::edit_laws;
use crate::edit_report::{error_status, ErrorCode, ErrorDto};
use crate::json;
use crate::json::{JsonNumberView, JsonView};
use crate::order;
use crate::order::Rank;
use crate::outline::{OutlineErrorCode, OutlineSymbolDto};
use crate::outline_command;
use crate::outline_command::OutlineFrame;
use crate::position::PositionError;
use crate::query_laws;
use crate::select_command;
use crate::selection::SelectionErrorCode;
use crate::symbol_laws;
use crate::symbols;
use crate::symbols::{AmbiguityCandidate, MatchView, NormalizedSymbol, SymbolMatch, SymbolView};
use crate::terminal;
use crate::text_map;

verus! {

/// An outline lists up to ten thousand records, and refuses more with that bound.
pub proof fn law_outlines_are_bounded(count: usize)
    ensures
        match outline_command::count_refusal(count) {
            None => count <= 10_000,
            Some(error) => {
                &&& count > 10_000
                &&& error.code == OutlineErrorCode::LspResourceLimitExceeded
                &&& error.context.contains(
                    ("limit"@, JsonView::Number(JsonNumberView::Unsigned(10_000))),
                )
                &&& error.context.contains(("resource"@, JsonView::String("outline_symbols"@)))
            },
        },
{
    if let Some(error) = outline_command::count_refusal(count) {
        assert(error.context.contains(error.context[0]));
        assert(error.context.contains(error.context[1]));
    }
}

/// Whether a serialized value is text that fits into a response with its line feed.
pub open spec fn is_printable(serialized: Result<Seq<u8>, Seq<char>>) -> bool {
    &&& serialized matches Ok(payload)
    &&& payload.len() + 1 <= 16_777_216
    &&& vstd::utf8::valid_utf8(payload.push(10u8))
}

/// An outline of no more records than that is printed, unless one of them has no
/// place or all of them together are too large.
pub proof fn law_outlines_fail_only_for_a_reason(
    frame: OutlineFrame,
    list: Seq<SymbolView>,
    scanned: nat,
    requested: Seq<crate::kinds::KnownSymbolKind>,
    json_output: bool,
)
    requires
        outline_command::outlined_output(frame, list, scanned, requested, json_output) is Err,
    ensures
        ({
            let kept = outline_command::filtered(symbols::ordered_unique(list), requested);
            let records = outline_command::outlined_all(kept, frame.bytes, scanned, 16_777_216);
            ||| kept.len() > 10_000
            ||| records is Err && records->Err_0 == outline_command::outlined_output(
                frame,
                list,
                scanned,
                requested,
                json_output,
            )->Err_0
            ||| json_output && !is_printable(
                json::serialized_json(outline_command::framed_outline(frame, records->Ok_0)),
            )
            ||| !json_output && crate::text::utf8(
                outline_command::outline_text(frame.path, records->Ok_0),
            ).len() > 16_777_216
        }),
{
}

/// A record whose offset took too much work to convert says so, and one whose
/// offset has no place breaks an invariant.
pub proof fn law_unplaced_records_say_why(failure: PositionError, message: Seq<char>)
    ensures
        outline_command::conversion_failure(failure, message).code == if failure
            == PositionError::WorkLimitExceeded {
            OutlineErrorCode::LspResourceLimitExceeded
        } else {
            OutlineErrorCode::OutlineInternalError
        },
{
}

/// The bytes of a match can be selected exactly where they lie in the source.
pub proof fn law_matches_lie_in_their_source(
    path: Seq<char>,
    source_digest: Seq<u8>,
    bytes: Seq<u8>,
    found: MatchView,
)
    requires
        bytes.len() <= usize::MAX,
    ensures
        select_command::match_value(path, source_digest, bytes, found) is Ok
            <==> found.selected_range.start <= found.selected_range.end <= bytes.len(),
        select_command::match_value(path, source_digest, bytes, found) matches Err(error)
            ==> error.code == SelectionErrorCode::SelectionInternalError,
{
}

/// A response grows by each match and the comma before it, and by its own line feed
/// at first; it is refused exactly where it outgrows sixteen mebibytes.
pub proof fn law_responses_grow_match_by_match(size: nat, payload: Seq<u8>, separated: bool)
    ensures
        match select_command::first_size(Ok(payload)) {
            Ok(total) => total == payload.len() + 1 && total <= 16_777_216,
            Err(error) => payload.len() + 1 > 16_777_216 && error.code
                == SelectionErrorCode::LspResourceLimitExceeded,
        },
        ({
            let grown = size + payload.len() + if separated {
                1int
            } else {
                0int
            };
            match select_command::next_size(size, Ok(payload), separated) {
                Ok(total) => total == grown && total <= 16_777_216,
                Err(error) => grown > 16_777_216 && error.code
                    == SelectionErrorCode::LspResourceLimitExceeded,
            }
        }),
{
}

/// What is printed of a commit is its plan, its transaction, or that nothing was
/// done, and its state, each on a line.
pub proof fn law_commits_are_printed(
    plan: Seq<char>,
    transaction: Option<Seq<char>>,
    state: Seq<char>,
)
    ensures
        commit::commit_text(plan, transaction, state) == "plan "@ + terminal::escaped(plan)
            + "\ntransaction "@ + (match transaction {
            Some(id) => terminal::escaped(id),
            None => terminal::escaped("none (no-op)"@),
        }) + "\nstate "@ + terminal::escaped(state) + "\n"@,
{
}

/// A request that could not be opened, or read, is reported with the kind of the
/// failure and with its place, of which an absolute path is not repeated.
pub proof fn law_unread_requests_name_their_place(
    io_kind: &str,
    place: &str,
    opening: ErrorDto,
    reading: ErrorDto,
)
    requires
        call_ensures(open_request_error, (io_kind, place), opening),
        call_ensures(read_request_error, (io_kind, place), reading),
    ensures
        opening@.code == ErrorCode::IoError,
        reading@.code == ErrorCode::IoError,
        edit_laws::tells_text(opening@, "io_kind"@, io_kind@),
        edit_laws::tells_text(reading@, "io_kind"@, io_kind@),
        place@.len() == 0 || place@[0] != '/' ==> edit_laws::tells_text(
            opening@,
            "path"@,
            place@,
        ),
        place@.len() > 0 && place@[0] == '/' ==> edit_laws::tells_text(
            opening@,
            "path"@,
            "<redacted absolute path>"@,
        ),
        edit_laws::tells_text(reading@, "source"@, place@),
{
    assert(opening@.context.contains(opening@.context[0]));
    assert(opening@.context.contains(opening@.context[1]));
    assert(reading@.context.contains(reading@.context[0]));
    assert(reading@.context.contains(reading@.context[1]));
}

/// A workspace is refused exactly where it is given to a command that has none.
pub proof fn law_workspaces_are_refused_where_unused(has_workspace: bool)
    ensures
        match edit_command::workspace_refusal(has_workspace) {
            Some(error) => has_workspace && error.code == ErrorCode::InvalidCli,
            None => !has_workspace,
        },
{
}

/// The status of an error is its own where its report was written, and 8 where not.
pub proof fn law_unwritten_reports_are_internal(exit_code: u8, written: bool, status: u8)
    requires
        call_ensures(error_status, (exit_code, written), status),
    ensures
        written ==> status == exit_code,
        !written ==> status == 8,
{
}

/// An answer to another question leaves a commit where it stands, and its own
/// question is asked again.
pub proof fn law_pending_questions_are_asked_again(phase: CommitPhase, startup_umask: u32)
    ensures
        match (phase, commit::pending(phase, startup_umask)) {
            (CommitPhase::Planning, step) => step is Plan,
            (CommitPhase::Diagnosing(_), step) => step is Diagnose,
            (CommitPhase::Locking(_), step) => step is Lock,
            (CommitPhase::Gating(_), step) => step is Gate,
            (CommitPhase::Replanning(_), step) => step is Plan,
            (CommitPhase::Committing(_), step) => step is Commit,
            (CommitPhase::Finished, step) => step is Done,
        },
{
}

proof fn lemma_last_of_push<T>(entries: Seq<(Seq<char>, T)>, entry: (Seq<char>, T), key: Seq<char>)
    ensures
        text_map::last_value(entries.push(entry), key) == if entry.0 == key {
            Some(entry.1)
        } else {
            text_map::last_value(entries, key)
        },
    decreases entries.len(),
{
    reveal_with_fuel(text_map::last_value, 2);
    if entries.len() == 0 {
        assert(entries.push(entry).drop_first() =~= Seq::<(Seq<char>, T)>::empty());
    } else {
        let rest = entries.drop_first();
        lemma_last_of_push(rest, entry, key);
        assert(entries.push(entry).drop_first() =~= rest.push(entry));
    }
}

proof fn lemma_last_is_held<T>(entries: Seq<(Seq<char>, T)>, key: Seq<char>)
    ensures
        text_map::last_value(entries, key) matches Some(value) ==> entries.contains((key, value)),
        text_map::last_value(entries, key) is None ==> forall|i: int|
            0 <= i < entries.len() ==> (#[trigger] entries[i]).0 != key,
    decreases entries.len(),
{
    if entries.len() > 0 {
        let rest = entries.drop_first();
        lemma_last_is_held(rest, key);
        match text_map::last_value(rest, key) {
            Some(value) => {
                let i = choose|i: int| 0 <= i < rest.len() && rest[i] == (key, value);
                assert(entries[i + 1] == (key, value));
            },
            None => {
                assert forall|i: int| 0 <= i < entries.len() && entries[0].0 != key implies (
                #[trigger] entries[i]).0 != key by {
                    if i > 0 {
                        assert(rest[i - 1] == entries[i]);
                    }
                }
                if entries[0].0 == key {
                    assert(entries[0] == (key, entries[0].1));
                }
            },
        }
    }
}

/// A map holds what was given last for a key, and otherwise what it held before.
pub proof fn law_maps_hold_what_was_given_last<T>(
    entries: Seq<(Seq<char>, T)>,
    entry: (Seq<char>, T),
    key: Seq<char>,
)
    ensures
        text_map::ordered(entries.push(entry)).contains(entry),
        entry.0 != key ==> text_map::last_value(text_map::ordered(entries.push(entry)), key)
            == text_map::last_value(text_map::ordered(entries), key),
        text_map::last_value(text_map::ordered(entries), key) matches Some(value)
            ==> text_map::ordered(entries).contains((key, value)),
{
    text_map::law_ordered_entries_are_a_map(entries);
    text_map::law_ordered_entries_are_a_map(entries.push(entry));
    lemma_last_of_push(entries, entry, entry.0);
    lemma_last_of_push(entries, entry, key);
    assert(text_map::last_value(text_map::ordered(entries.push(entry)), entry.0) == Some(entry.1));
    lemma_last_is_held(text_map::ordered(entries.push(entry)), entry.0);
    lemma_last_is_held(text_map::ordered(entries), key);
    assert(text_map::last_value(text_map::ordered(entries.push(entry)), key)
        == text_map::last_value(entries.push(entry), key));
    assert(text_map::last_value(text_map::ordered(entries), key) == text_map::last_value(
        entries,
        key,
    ));
}

/// The value of a symbol holds each of its fields.
pub proof fn law_symbols_hold_their_fields(symbol: NormalizedSymbol)
    ensures
        symbol@.name == symbol.name@,
        symbol@.detail == order::optional_text(symbol.detail),
        symbol@.kind == symbol.kind,
        symbol@.symbol_path.len() == symbol.symbol_path@.len(),
        forall|i: int|
            0 <= i < symbol.symbol_path@.len() ==> #[trigger] symbol@.symbol_path[i]
                == symbol.symbol_path@[i]@,
        symbol@.lsp_range == symbol.lsp_range,
        symbol@.lsp_selection_range == symbol.lsp_selection_range,
        symbol@.byte_range == symbol.byte_range,
        symbol@.selection_byte_range == symbol.selection_byte_range,
{
}

/// The value of a match holds each of its fields.
pub proof fn law_matches_hold_their_fields(found: SymbolMatch, candidate: AmbiguityCandidate)
    ensures
        found@.name == found.name@,
        found@.detail == order::optional_text(found.detail),
        found@.kind == found.kind,
        found@.symbol_path.len() == found.symbol_path@.len(),
        forall|i: int|
            0 <= i < found.symbol_path@.len() ==> #[trigger] found@.symbol_path[i]
                == found.symbol_path@[i]@,
        found@.lsp_range == found.lsp_range,
        found@.lsp_selection_range == found.lsp_selection_range,
        found@.symbol_range == found.symbol_range,
        found@.selected_range == found.selected_range,
        found@.extent == found.extent,
        candidate@.name == candidate.name@,
        candidate@.kind == candidate.kind,
        candidate@.byte_range == candidate.byte_range,
        candidate@.symbol_path.len() == candidate.symbol_path@.len(),
        forall|i: int|
            0 <= i < candidate.symbol_path@.len() ==> #[trigger] candidate@.symbol_path[i]
                == candidate.symbol_path@[i]@,
{
}

/// The value of a record holds each of its fields.
pub proof fn law_records_hold_their_fields(record: OutlineSymbolDto, output: CommittedOutput)
    ensures
        record@.name == record.name@,
        record@.symbol_kind == record.symbol_kind,
        record@.depth == record.depth,
        record@.detail == order::optional_text(record.detail),
        record@.start_line == record.start_line,
        record@.start_column == record.start_column,
        record@.end_line == record.end_line,
        record@.end_column == record.end_column,
        record@.lsp_range == record.lsp_range,
        record@.lsp_selection_range == record.lsp_selection_range,
        record@.selector == record.selector,
        record@.symbol_path.len() == record.symbol_path@.len(),
        forall|i: int|
            0 <= i < record.symbol_path@.len() ==> #[trigger] record@.symbol_path[i]
                == record.symbol_path@[i]@,
        output@.path == output.path@,
        output@.change == output.change,
        output@.before_length == output.before_length,
        output@.original_digest == output.original_digest,
        output@.resulting_length == output.resulting_length,
        output@.resulting_digest == output.resulting_digest,
{
}

proof fn lemma_kept_is_listed(list: Seq<SymbolView>, i: int) -> (place: int)
    requires
        0 <= i < symbols::deduplicated(list).len(),
    ensures
        0 <= place < list.len(),
        list[place] == symbols::deduplicated(list)[i],
    decreases list.len(),
{
    let shorter = list.drop_last();
    if i < symbols::deduplicated(shorter).len() {
        lemma_kept_is_listed(shorter, i)
    } else {
        list.len() - 1
    }
}

proof fn lemma_listed_is_kept(list: Seq<SymbolView>, k: int) -> (i: int)
    requires
        0 <= k < list.len(),
    ensures
        0 <= i < symbols::deduplicated(list).len(),
        query_laws::is_same_record(list[k], symbols::deduplicated(list)[i]),
    decreases list.len(),
{
    let shorter = list.drop_last();
    let before = symbols::deduplicated(shorter);
    if k < shorter.len() {
        lemma_listed_is_kept(shorter, k)
    } else if symbols::is_repeated(before, list[k]) {
        choose|i: int|
            0 <= i < before.len() && symbols::is_duplicate(list[k], #[trigger] before[i])
    } else {
        before.len() as int
    }
}

proof fn lemma_kept_is_first(list: Seq<SymbolView>, i: int, k: int)
    requires
        symbol_laws::is_sorted(list),
        0 <= i < symbols::deduplicated(list).len(),
        0 <= k < list.len(),
        query_laws::is_same_record(list[k], symbols::deduplicated(list)[i]),
    ensures
        symbols::rank_symbols(symbols::deduplicated(list)[i], list[k]) != Rank::Greater,
    decreases list.len(),
{
    let shorter = list.drop_last();
    let last = list.len() - 1;
    let before = symbols::deduplicated(shorter);
    let kept = symbols::deduplicated(list);
    assert forall|a: int, b: int| 0 <= a < b < shorter.len() implies symbols::rank_symbols(
        #[trigger] shorter[a],
        #[trigger] shorter[b],
    ) != Rank::Greater by {
        assert(symbols::rank_symbols(list[a], list[b]) != Rank::Greater);
    }
    if i < before.len() {
        assert(kept[i] == before[i]);
        if k < last {
            assert(shorter[k] == list[k]);
            lemma_kept_is_first(shorter, i, k);
        } else {
            let place = lemma_kept_is_listed(shorter, i);
            assert(list[place] == kept[i]);
            assert(symbols::rank_symbols(list[place], list[last]) != Rank::Greater);
        }
    } else {
        assert(kept[i] == list[last]);
        if k < last {
            let other = lemma_listed_is_kept(shorter, k);
            assert(symbols::is_duplicate(list[last], before[other]));
            assert(symbols::is_repeated(before, list[last]));
        } else {
            symbols::lemma_rank_symbols(list[k], list[k], list[k]);
        }
    }
}

/// Of the symbols of one record the candidate is the one that comes first.
pub proof fn law_candidates_are_the_first_of_their_record(
    list: Seq<SymbolView>,
    candidate: SymbolView,
    symbol: SymbolView,
)
    requires
        symbols::ordered_unique(list).contains(candidate),
        list.contains(symbol),
        query_laws::is_same_record(symbol, candidate),
    ensures
        symbols::rank_symbols(candidate, symbol) != Rank::Greater,
{
    let ordered = symbols::sorted(list);
    symbol_laws::law_sorted_is_an_order(list);
    assert(ordered.contains(symbol));
    let k = choose|k: int| 0 <= k < ordered.len() && ordered[k] == symbol;
    let kept = symbols::ordered_unique(list);
    let i = choose|i: int| 0 <= i < kept.len() && kept[i] == candidate;
    lemma_kept_is_first(ordered, i, k);
}

} // verus!
