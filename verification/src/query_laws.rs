//! What selections mean: which symbols a query finds, and which bytes of each
//! it selects.

use vstd::prelude::*;

use crate::kinds::{KnownSymbolKind, NormalizedSymbolKind};
use crate::line_index;
use crate::order::Rank;
use crate::position;
use crate::position::{
    ByteRange, PositionError, SupportedPositionEncoding, DEFAULT_MAXIMUM_CODE_POINTS_SCANNED,
};
use crate::position_laws;
use crate::resolve;
use crate::select_command;
use crate::select_command::{QueryArguments, QueryView};
use crate::selection::{SelectionErrorCode, SelectionErrorView};
use crate::symbol_laws;
use crate::symbols;
use crate::symbols::{
    CandidateView, MatchMode, MatchView, SelectionExtent, SymbolErrorView, SymbolLimits,
    SymbolView,
};

verus! {

/// A range can be selected exactly where it is nonempty, inside the text, and
/// begins and ends between scalar values.
pub proof fn law_whole_text_is_selectable(
    bytes: Seq<u8>,
    range: ByteRange,
    extent: SelectionExtent,
)
    ensures
        resolve::extended(bytes, range, extent) is Some <==> {
            &&& range.start < range.end <= bytes.len()
            &&& !(128 <= bytes[range.start as int] < 192)
            &&& range.end < bytes.len() ==> !(128 <= bytes[range.end as int] < 192)
        },
        extent == SelectionExtent::Symbol && resolve::extended(bytes, range, extent) is Some
            ==> resolve::extended(bytes, range, extent) == Some(range),
{
}

/// The beginning of a line is the only one before its offsets.
proof fn lemma_line_begin_is(bytes: Seq<u8>, offset: int, begin: int)
    requires
        0 <= begin <= offset,
        begin == 0 || bytes[begin - 1] == 10 || bytes[begin - 1] == 13,
        forall|i: int| begin <= i < offset ==> #[trigger] bytes[i] != 10 && bytes[i] != 13,
    ensures
        resolve::line_begin(bytes, offset) == begin,
    decreases offset,
{
    if begin < offset {
        assert(bytes[offset - 1] != 10 && bytes[offset - 1] != 13);
        lemma_line_begin_is(bytes, offset - 1, begin);
    }
}

/// Blanks end where the first other byte stands.
proof fn lemma_after_indent_is(bytes: Seq<u8>, offset: int, next: int)
    requires
        0 <= offset <= next <= bytes.len(),
        forall|i: int| offset <= i < next ==> #[trigger] bytes[i] == 32 || bytes[i] == 9,
        next < bytes.len() ==> bytes[next] != 32 && bytes[next] != 9,
    ensures
        resolve::after_indent(bytes, offset) == next,
    decreases next - offset,
{
    if offset < next {
        assert(bytes[offset] == 32 || bytes[offset] == 9);
        lemma_after_indent_is(bytes, offset + 1, next);
    }
}

/// Declaration lines begin where the line begins, if only spaces and tabs
/// precede the symbol on it, whatever follows the symbol; and they end after
/// the line's terminator, or with the text, if only spaces and tabs come before
/// that, whatever precedes the symbol. Otherwise that end of the symbol stays,
/// as does the end of one that ends with a terminator.
///
/// `begin` is where the line of the symbol's start begins, and `next` the first
/// offset after the symbol that holds neither space nor tab.
pub proof fn law_declaration_lines_are_whole_lines(
    bytes: Seq<u8>,
    range: ByteRange,
    begin: int,
    next: int,
)
    requires
        bytes.len() <= u64::MAX,
        resolve::extended(bytes, range, SelectionExtent::DeclarationLines) is Some,
        0 <= begin <= range.start,
        begin == 0 || bytes[begin - 1] == 10 || bytes[begin - 1] == 13,
        forall|i: int| begin <= i < range.start ==> #[trigger] bytes[i] != 10 && bytes[i] != 13,
        range.end <= next <= bytes.len(),
        forall|i: int| range.end <= i < next ==> #[trigger] bytes[i] == 32 || bytes[i] == 9,
        next < bytes.len() ==> bytes[next] != 32 && bytes[next] != 9,
    ensures
        ({
            let lines = resolve::extended(bytes, range, SelectionExtent::DeclarationLines)->Some_0;
            let terminated = bytes[range.end - 1] == 10 || bytes[range.end - 1] == 13;
            &&& (forall|i: int| begin <= i < range.start ==> #[trigger] bytes[i] == 32 || bytes[i]
                == 9) ==> lines.start == begin
            &&& (exists|i: int|
                begin <= i < range.start && #[trigger] bytes[i] != 32 && bytes[i] != 9)
                ==> lines.start == range.start
            &&& terminated ==> lines.end == range.end
            &&& !terminated && next == bytes.len() ==> lines.end == bytes.len()
            &&& !terminated && next < bytes.len() && bytes[next] == 10 ==> lines.end == next + 1
            &&& !terminated && next < bytes.len() && bytes[next] == 13 ==> lines.end == if next + 1
                < bytes.len() && bytes[next + 1] == 10 {
                next + 2
            } else {
                next + 1
            }
            &&& !terminated && next < bytes.len() && bytes[next] != 10 && bytes[next] != 13
                ==> lines.end == range.end
        }),
{
    lemma_line_begin_is(bytes, range.start as int, begin);
    lemma_after_indent_is(bytes, range.end as int, next);
    if forall|i: int| begin <= i < range.start ==> #[trigger] bytes[i] == 32 || bytes[i] == 9 {
        assert forall|i: int| begin <= i < range.start implies resolve::is_indent(
            #[trigger] bytes[i],
        ) by {}
    } else {
        let i = choose|i: int|
            begin <= i < range.start && !(#[trigger] bytes[i] == 32 || bytes[i] == 9);
        assert(!resolve::is_indent(bytes[i]));
    }
}

/// Neither end of what is selected depends on the other end of the symbol: of
/// two symbols of one text that begin together, both selections begin together,
/// and of two that end together, both end together.
pub proof fn law_extents_treat_their_ends_apart(
    bytes: Seq<u8>,
    range: ByteRange,
    other: ByteRange,
    extent: SelectionExtent,
)
    requires
        resolve::extended(bytes, range, extent) is Some,
        resolve::extended(bytes, other, extent) is Some,
    ensures
        ({
            let (left, right) = (
                resolve::extended(bytes, range, extent)->Some_0,
                resolve::extended(bytes, other, extent)->Some_0,
            );
            &&& range.start == other.start ==> left.start == right.start
            &&& range.end == other.end ==> left.end == right.end
        }),
{
}

/// Whether an offset of the text does not split a scalar value.
pub open spec fn is_whole(bytes: Seq<u8>, offset: u64) -> bool {
    offset <= bytes.len() && (offset < bytes.len() ==> !(128 <= bytes[offset as int] < 192))
}

/// The column that coordinates ask for: the first where they name none.
pub open spec fn asked_column(arguments: QueryArguments) -> u64 {
    match arguments.at_column {
        Some(column) => column,
        None => 1,
    }
}

/// A query asks for exactly what its arguments name: the name as it is, the
/// byte offset as it is, or the offset that has that line and that column, with
/// the kind as it is. A name goes before an offset, and an offset before a
/// line; what names no place of the text is refused.
pub proof fn law_queries_ask_for_what_is_named(
    arguments: QueryArguments,
    kind: Option<KnownSymbolKind>,
    bytes: Seq<u8>,
)
    requires
        bytes.len() <= u64::MAX,
    ensures
        match select_command::query_of(arguments, kind, bytes) {
            Ok(QueryView::Name { name, kind: wanted }) => {
                &&& arguments.name matches Some(asked)
                &&& name == asked@
                &&& wanted == kind
            },
            Ok(QueryView::Byte { offset, kind: wanted }) => {
                &&& arguments.name is None
                &&& wanted == kind
                &&& arguments.at_byte matches Some(asked) ==> offset == asked && is_whole(
                    bytes,
                    offset,
                )
                &&& arguments.at_byte is None ==> arguments.at_line is Some
                    && position_laws::is_user_place(
                    bytes,
                    arguments.at_line->Some_0 as int,
                    asked_column(arguments) as int,
                    offset as int,
                )
            },
            Err(error) => {
                &&& arguments.name is None
                &&& error.code == SelectionErrorCode::InvalidSelectionQuery || error.code
                    == SelectionErrorCode::LspResourceLimitExceeded
                &&& arguments.at_byte matches Some(asked) ==> !is_whole(bytes, asked)
            },
        },
        arguments.name is None && arguments.at_byte is None ==> forall|offset: u64|
            arguments.at_line is Some && arguments.at_line->Some_0 <= u32::MAX && asked_column(
                arguments,
            ) <= 16_777_217 && #[trigger] position_laws::is_user_place(
                bytes,
                arguments.at_line->Some_0 as int,
                asked_column(arguments) as int,
                offset as int,
            ) ==> select_command::query_of(arguments, kind, bytes) == Ok::<
                QueryView,
                SelectionErrorView,
            >(QueryView::Byte { offset, kind }),
{
    if arguments.name is None && arguments.at_byte is None && arguments.at_line is Some {
        let line = arguments.at_line->Some_0;
        let column = asked_column(arguments);
        let limit = DEFAULT_MAXIMUM_CODE_POINTS_SCANNED as nat;
        if let Ok(found) = position::user_to_byte(bytes, line, column, 0, limit).0 {
            position_laws::law_user_positions_are_exact(bytes, line, column, found, 0, limit);
        }
        assert forall|offset: u64|
            line <= u32::MAX && column <= 16_777_217 && #[trigger] position_laws::is_user_place(
                bytes,
                line as int,
                column as int,
                offset as int,
            ) implies select_command::query_of(arguments, kind, bytes) == Ok::<
            QueryView,
            SelectionErrorView,
        >(QueryView::Byte { offset, kind }) by {
            position_laws::law_user_positions_are_exact(bytes, line, column, offset, 0, limit);
        }
    }
}

/// The offset that a line and a column ask for converts back to that line and
/// that column.
pub proof fn law_queried_coordinates_convert_back(
    arguments: QueryArguments,
    kind: Option<KnownSymbolKind>,
    bytes: Seq<u8>,
    offset: u64,
)
    requires
        bytes.len() < u64::MAX,
        arguments.name is None,
        arguments.at_byte is None,
        select_command::query_of(arguments, kind, bytes) == Ok::<QueryView, SelectionErrorView>(
            QueryView::Byte { offset, kind },
        ),
    ensures
        arguments.at_line matches Some(line) && position::byte_to_user(
            bytes,
            offset as int,
            0,
            DEFAULT_MAXIMUM_CODE_POINTS_SCANNED as nat,
        ).0 == Ok::<(u64, Option<u64>), PositionError>((line, Some(asked_column(arguments)))),
{
    let line = arguments.at_line->Some_0;
    let column = asked_column(arguments);
    let limit = DEFAULT_MAXIMUM_CODE_POINTS_SCANNED as nat;
    let starts = line_index::line_starts(bytes);
    let start = starts[line - 1] as int;
    let end = line_index::content_end(bytes, line - 1);
    line_index::lemma_line_starts(bytes, bytes.len() as int);
    position_laws::law_user_positions_are_exact(bytes, line, column, offset, 0, limit);
    position::lemma_content_end_is_boundary(bytes, line - 1);
    position::lemma_boundary_reaching(
        SupportedPositionEncoding::Utf32,
        bytes,
        start,
        end,
        start,
        column - 1,
    );
    position_laws::lemma_content_place(bytes, line - 1, offset as int);
    position::lemma_units_bound(SupportedPositionEncoding::Utf32, bytes, start, offset as int);
}

/// Different lines or columns of one text ask for different offsets.
pub proof fn law_different_coordinates_ask_for_different_places(
    arguments: QueryArguments,
    others: QueryArguments,
    kind: Option<KnownSymbolKind>,
    bytes: Seq<u8>,
)
    requires
        bytes.len() < u64::MAX,
        arguments.name is None,
        arguments.at_byte is None,
        others.name is None,
        others.at_byte is None,
        arguments.at_line != others.at_line || asked_column(arguments) != asked_column(others),
        select_command::query_of(arguments, kind, bytes) is Ok,
    ensures
        select_command::query_of(arguments, kind, bytes) != select_command::query_of(
            others,
            kind,
            bytes,
        ),
{
    law_queries_ask_for_what_is_named(arguments, kind, bytes);
    law_queries_ask_for_what_is_named(others, kind, bytes);
    if let Ok(QueryView::Byte { offset, kind: wanted }) = select_command::query_of(
        arguments,
        kind,
        bytes,
    ) {
        law_queried_coordinates_convert_back(arguments, kind, bytes, offset);
        if select_command::query_of(arguments, kind, bytes) == select_command::query_of(
            others,
            kind,
            bytes,
        ) {
            law_queried_coordinates_convert_back(others, kind, bytes, offset);
        }
    }
}

/// Whether a match reports a symbol: its name, detail, kind, breadcrumb, and
/// ranges.
pub open spec fn is_reported(symbol: SymbolView, found: MatchView) -> bool {
    &&& found.name == symbol.name
    &&& found.detail == symbol.detail
    &&& found.kind == symbol.kind
    &&& found.symbol_path == symbol.symbol_path
    &&& found.lsp_range == symbol.lsp_range
    &&& found.lsp_selection_range == symbol.lsp_selection_range
    &&& found.symbol_range == symbol.byte_range
}

/// Whether two symbols are records of the same range, kind, breadcrumb, and
/// name.
pub open spec fn is_same_record(left: SymbolView, right: SymbolView) -> bool {
    &&& left.lsp_range == right.lsp_range
    &&& left.kind == right.kind
    &&& left.symbol_path == right.symbol_path
    &&& left.name == right.name
}

/// Whether a match selects, for its own symbol's range, what the extent takes
/// in.
pub open spec fn selects(found: MatchView, bytes: Seq<u8>, extent: SelectionExtent) -> bool {
    &&& found.extent == extent
    &&& resolve::extended(bytes, found.symbol_range, extent) == Some(found.selected_range)
}

/// Whether a list takes stock of the wanted symbols: it holds one symbol of each
/// record among them and no other, in the order in which they start, and where
/// they start together, in the order in which they end.
#[verifier::opaque]
pub open spec fn is_census(
    picked: Seq<SymbolView>,
    symbols: Seq<SymbolView>,
    wanted: spec_fn(SymbolView) -> bool,
) -> bool {
    &&& forall|i: int|
        0 <= i < picked.len() ==> wanted(#[trigger] picked[i]) && symbols.contains(picked[i])
    &&& forall|k: int|
        0 <= k < symbols.len() && wanted(#[trigger] symbols[k]) ==> exists|i: int|
            0 <= i < picked.len() && is_same_record(symbols[k], #[trigger] picked[i])
    &&& forall|i: int, j: int|
        #![trigger picked[i], picked[j]]
        0 <= i < j < picked.len() ==> !is_same_record(picked[i], picked[j]) && (
        picked[i].byte_range.start < picked[j].byte_range.start || (picked[i].byte_range.start
            == picked[j].byte_range.start && picked[i].byte_range.end <= picked[j].byte_range.end))
}

/// Whether a diagnostic candidate describes a symbol.
pub open spec fn is_described(symbol: SymbolView, candidate: CandidateView) -> bool {
    &&& candidate.name == symbol.name
    &&& candidate.kind == symbol.kind
    &&& candidate.symbol_path == symbol.symbol_path
    &&& candidate.byte_range == symbol.byte_range
}

/// Whether an outcome is what a list of symbols calls for: each of them, in
/// order, with the extent asked for; the only one, where one is required; none
/// or too many of them as such; or the refusal of a range that cannot be
/// selected.
pub open spec fn answers(
    outcome: Result<Seq<MatchView>, SymbolErrorView>,
    picked: Seq<SymbolView>,
    bytes: Seq<u8>,
    extent: SelectionExtent,
    mode: MatchMode,
    limits: SymbolLimits,
) -> bool {
    match outcome {
        Ok(found) => {
            &&& found.len() == picked.len()
            &&& mode == MatchMode::Unique ==> picked.len() == 1
            &&& mode == MatchMode::All ==> picked.len() <= limits.maximum_matches
            &&& forall|i: int| 0 <= i < found.len() ==> is_reported(picked[i], #[trigger] found[i])
            &&& forall|i: int| 0 <= i < found.len() ==> selects(#[trigger] found[i], bytes, extent)
        },
        Err(SymbolErrorView::NotFound) => mode == MatchMode::Unique && picked.len() == 0,
        Err(SymbolErrorView::Ambiguous { total, candidates }) => {
            &&& mode == MatchMode::Unique
            &&& picked.len() > 1
            &&& total == picked.len()
            &&& candidates.len() <= limits.maximum_ambiguity_candidates
            &&& candidates.len() == limits.maximum_ambiguity_candidates || candidates.len()
                == picked.len()
            &&& candidates.len() <= picked.len()
            &&& forall|i: int|
                0 <= i < candidates.len() ==> is_described(picked[i], #[trigger] candidates[i])
        },
        Err(SymbolErrorView::ResourceLimitExceeded { resource, maximum }) => {
            &&& mode == MatchMode::All
            &&& picked.len() > limits.maximum_matches
            &&& maximum == limits.maximum_matches
        },
        Err(SymbolErrorView::InvalidExtent) => {
            &&& mode == MatchMode::Unique ==> picked.len() == 1
            &&& exists|i: int|
                0 <= i < picked.len() && resolve::extended(
                    bytes,
                    (#[trigger] picked[i]).byte_range,
                    extent,
                ) is None
        },
        Err(_) => false,
    }
}

/// Candidates in order start in order, and where they start together they end
/// in order.
proof fn lemma_rank_follows_ranges(left: SymbolView, right: SymbolView)
    requires
        symbols::rank_symbols(left, right) != Rank::Greater,
    ensures
        left.byte_range.start < right.byte_range.start || (left.byte_range.start
            == right.byte_range.start && left.byte_range.end <= right.byte_range.end),
{
    reveal(symbols::rank_symbols);
}

/// Where a listed symbol has its candidate.
proof fn lemma_candidate_place(list: Seq<SymbolView>, symbol: SymbolView) -> (place: int)
    requires
        list.contains(symbol),
    ensures
        0 <= place < symbols::ordered_unique(list).len(),
        is_same_record(symbol, symbols::ordered_unique(list)[place]),
{
    let candidates = symbols::ordered_unique(list);
    symbol_laws::law_candidates_cover_every_record(list);
    let other = choose|other: SymbolView| #[trigger]
        candidates.contains(other) && symbols::is_duplicate(symbol, other);
    choose|i: int| 0 <= i < candidates.len() && candidates[i] == other
}

/// Where a candidate is listed.
proof fn lemma_candidate_origin(list: Seq<SymbolView>, place: int) -> (origin: int)
    requires
        0 <= place < symbols::ordered_unique(list).len(),
    ensures
        0 <= origin < list.len(),
        list[origin] == symbols::ordered_unique(list)[place],
{
    let candidates = symbols::ordered_unique(list);
    symbol_laws::law_candidates_cover_every_record(list);
    assert(candidates.contains(candidates[place]));
    assert(list.contains(candidates[place]));
    choose|k: int| 0 <= k < list.len() && list[k] == candidates[place]
}

/// Two candidates are different records, in order.
proof fn lemma_candidate_order(list: Seq<SymbolView>, i: int, j: int)
    requires
        0 <= i < j < symbols::ordered_unique(list).len(),
    ensures
        ({
            let (left, right) = (
                symbols::ordered_unique(list)[i],
                symbols::ordered_unique(list)[j],
            );
            &&& !is_same_record(left, right)
            &&& left.byte_range.start < right.byte_range.start || (left.byte_range.start
                == right.byte_range.start && left.byte_range.end <= right.byte_range.end)
        }),
{
    symbol_laws::law_candidates_are_sorted_and_unique(list);
    let candidates = symbols::ordered_unique(list);
    assert(!symbols::is_duplicate(candidates[i], candidates[j]));
    assert(symbols::rank_symbols(candidates[i], candidates[j]) != Rank::Greater);
    lemma_rank_follows_ranges(candidates[i], candidates[j]);
}

/// What prepared candidates resolve to is what they call for.
proof fn lemma_resolved_answers(
    picked: Seq<SymbolView>,
    bytes: Seq<u8>,
    extent: SelectionExtent,
    mode: MatchMode,
    limits: SymbolLimits,
)
    requires
        picked.len() <= u64::MAX,
    ensures
        answers(
            resolve::resolved(picked, bytes, extent, mode, limits),
            picked,
            bytes,
            extent,
            mode,
            limits,
        ),
{
    if let Ok(found) = resolve::resolved(picked, bytes, extent, mode, limits) {
        assert forall|i: int| 0 <= i < found.len() implies selects(
            #[trigger] found[i],
            bytes,
            extent,
        ) by {
            assert(resolve::extended(bytes, picked[i].byte_range, extent) is Some);
        }
    }
}

/// Candidates of the wanted symbols take stock of them.
pub proof fn lemma_candidates_are_a_census(
    symbols: Seq<SymbolView>,
    wanted: spec_fn(SymbolView) -> bool,
    list: Seq<SymbolView>,
)
    requires
        list == symbols.filter(wanted),
    ensures
        is_census(symbols::ordered_unique(list), symbols, wanted),
        symbols::ordered_unique(list).len() <= symbols.len(),
{
    reveal(is_census);
    let picked = symbols::ordered_unique(list);
    symbols.filter_lemma(wanted);
    symbols.lemma_filter_len(wanted);
    symbol_laws::lemma_candidates_are_no_more(list);
    assert forall|i: int| 0 <= i < picked.len() implies wanted(#[trigger] picked[i])
        && symbols.contains(picked[i]) by {
        let k = lemma_candidate_origin(list, i);
        assert(wanted(list[k]));
        assert(symbols.contains(list[k])) by {
            lemma_filter_keeps(symbols, wanted, k);
        }
    }
    assert forall|k: int| 0 <= k < symbols.len() && wanted(#[trigger] symbols[k]) implies exists|
        i: int,
    | 0 <= i < picked.len() && is_same_record(symbols[k], #[trigger] picked[i]) by {
        assert(list.contains(symbols[k]));
        let i = lemma_candidate_place(list, symbols[k]);
        assert(is_same_record(symbols[k], picked[i]));
    }
    assert forall|i: int, j: int|
        #![trigger picked[i], picked[j]]
        0 <= i < j < picked.len() implies !is_same_record(picked[i], picked[j]) && (
    picked[i].byte_range.start < picked[j].byte_range.start || (picked[i].byte_range.start
        == picked[j].byte_range.start && picked[i].byte_range.end
        <= picked[j].byte_range.end)) by {
        lemma_candidate_order(list, i, j);
    }
}

/// A filtered list holds only what it was given.
proof fn lemma_filter_keeps(
    symbols: Seq<SymbolView>,
    wanted: spec_fn(SymbolView) -> bool,
    place: int,
)
    requires
        0 <= place < symbols.filter(wanted).len(),
    ensures
        symbols.contains(symbols.filter(wanted)[place]),
    decreases symbols.len(),
{
    reveal(Seq::filter);
    if symbols.len() > 0 {
        let shorter = symbols.drop_last();
        let kept = shorter.filter(wanted);
        if place < kept.len() {
            lemma_filter_keeps(shorter, wanted, place);
            let k = choose|k: int| 0 <= k < shorter.len() && shorter[k] == kept[place];
            assert(symbols[k] == kept[place]);
        } else {
            assert(symbols[symbols.len() - 1] == symbols.filter(wanted)[place]);
        }
    }
}

/// Whether a symbol has a name, and a kind where one is asked for.
pub open spec fn is_named(name: Seq<char>, kind: Option<KnownSymbolKind>) -> spec_fn(
    SymbolView,
) -> bool {
    |symbol: SymbolView|
        symbol.name == name && (kind is Some ==> symbol.kind == NormalizedSymbolKind::Known(
            kind->Some_0,
        ))
}

/// A name query answers with the symbols of exactly that name, and of the kind
/// asked for: one match for each record among them, in order, each selecting
/// what the extent takes in; one only, where one is required.
pub proof fn law_name_queries_find_the_named(
    list: Seq<SymbolView>,
    bytes: Seq<u8>,
    name: Seq<char>,
    kind: Option<KnownSymbolKind>,
    extent: SelectionExtent,
    mode: MatchMode,
    limits: SymbolLimits,
)
    requires
        list.len() <= u64::MAX,
    ensures
        exists|picked: Seq<SymbolView>| #[trigger]
            is_census(picked, list, is_named(name, kind)) && answers(
                resolve::resolved(
                    symbols::ordered_unique(resolve::named(list, name, kind)),
                    bytes,
                    extent,
                    mode,
                    limits,
                ),
                picked,
                bytes,
                extent,
                mode,
                limits,
            ),
{
    let wanted = is_named(name, kind);
    let asked = |symbol: SymbolView| resolve::answers_name(symbol, name, kind);
    assert forall|symbol: SymbolView| #[trigger] asked(symbol) == wanted(symbol) by {}
    lemma_filter_same(list, asked, wanted);
    let picked = symbols::ordered_unique(resolve::named(list, name, kind));
    lemma_candidates_are_a_census(list, wanted, resolve::named(list, name, kind));
    lemma_resolved_answers(picked, bytes, extent, mode, limits);
}

/// Filters that keep the same symbols filter alike.
proof fn lemma_filter_same(
    list: Seq<SymbolView>,
    left: spec_fn(SymbolView) -> bool,
    right: spec_fn(SymbolView) -> bool,
)
    requires
        forall|symbol: SymbolView| #[trigger] left(symbol) == right(symbol),
    ensures
        list.filter(left) == list.filter(right),
    decreases list.len(),
{
    reveal(Seq::filter);
    if list.len() > 0 {
        lemma_filter_same(list.drop_last(), left, right);
        assert(left(list.last()) == right(list.last()));
    }
}

/// Whether a symbol is around an offset of a text of some length, its end
/// included only at the end of the text, and of the kind asked for.
pub open spec fn is_around(offset: u64, length: nat, kind: Option<KnownSymbolKind>) -> spec_fn(
    SymbolView,
) -> bool {
    |symbol: SymbolView|
        {
            &&& symbol.byte_range.start <= offset
            &&& offset < symbol.byte_range.end || (offset == length && symbol.byte_range.end
                == length && symbol.byte_range.start < length)
            &&& kind is Some ==> symbol.kind == NormalizedSymbolKind::Known(kind->Some_0)
        }
}

/// Whether a symbol is wanted, and none that is wanted is shorter.
pub open spec fn is_innermost(
    list: Seq<SymbolView>,
    wanted: spec_fn(SymbolView) -> bool,
) -> spec_fn(SymbolView) -> bool {
    |symbol: SymbolView|
        {
            &&& wanted(symbol)
            &&& forall|k: int|
                0 <= k < list.len() && wanted(#[trigger] list[k]) ==> symbol.byte_range.end
                    - symbol.byte_range.start <= list[k].byte_range.end - list[k].byte_range.start
        }
}

/// Whether a symbol is called for: where one is required, only the innermost.
pub open spec fn is_called_for(
    list: Seq<SymbolView>,
    wanted: spec_fn(SymbolView) -> bool,
    mode: MatchMode,
) -> spec_fn(SymbolView) -> bool {
    match mode {
        MatchMode::All => wanted,
        MatchMode::Unique => is_innermost(list, wanted),
    }
}

/// Whether symbols with the same raw range have the same byte range, as the
/// symbols of one snapshot do.
pub open spec fn is_of_one_snapshot(list: Seq<SymbolView>) -> bool {
    forall|i: int, j: int|
        #![trigger list[i], list[j]]
        0 <= i < list.len() && 0 <= j < list.len() && list[i].lsp_range == list[j].lsp_range
            ==> list[i].byte_range == list[j].byte_range
}

/// A position query is refused exactly where the offset is outside the text or
/// splits a scalar value. Otherwise it answers with the symbols around the
/// offset that have the kind asked for: all of them, or, where one is required,
/// those than which no other is shorter.
pub proof fn law_position_queries_find_what_is_around(
    list: Seq<SymbolView>,
    bytes: Seq<u8>,
    offset: u64,
    kind: Option<KnownSymbolKind>,
    extent: SelectionExtent,
    mode: MatchMode,
    limits: SymbolLimits,
)
    requires
        list.len() <= u64::MAX,
        bytes.len() <= u64::MAX,
        is_of_one_snapshot(list),
    ensures
        ({
            let outcome = resolve::position_resolved(
                list,
                bytes,
                offset,
                kind,
                extent,
                mode,
                limits,
            );
            let around = is_around(offset, bytes.len(), kind);
            if !is_whole(bytes, offset) {
                outcome == Err::<Seq<MatchView>, SymbolErrorView>(
                    SymbolErrorView::QueryPositionOutOfBounds,
                )
            } else {
                exists|picked: Seq<SymbolView>| #[trigger]
                    is_census(picked, list, is_called_for(list, around, mode)) && answers(
                        outcome,
                        picked,
                        bytes,
                        extent,
                        mode,
                        limits,
                    )
            }
        }),
{
    if is_whole(bytes, offset) {
        let around = is_around(offset, bytes.len(), kind);
        let length = bytes.len() as u64;
        let asked = |symbol: SymbolView| resolve::answers_position(symbol, offset, length, kind);
        assert forall|symbol: SymbolView| #[trigger] asked(symbol) == around(symbol) by {}
        lemma_filter_same(list, asked, around);
        let held = resolve::containing(list, offset, length, kind);
        let candidates = symbols::ordered_unique(held);
        lemma_candidates_are_a_census(list, around, held);
        if mode == MatchMode::All {
            lemma_resolved_answers(candidates, bytes, extent, mode, limits);
            assert(is_census(candidates, list, is_called_for(list, around, mode)));
        } else {
            let picked = resolve::innermost(candidates);
            lemma_innermost_census(list, around, candidates);
            lemma_resolved_answers(picked, bytes, extent, mode, limits);
            assert(is_census(picked, list, is_called_for(list, around, mode)));
        }
    }
}

/// What makes a census.
pub proof fn lemma_census(
    picked: Seq<SymbolView>,
    list: Seq<SymbolView>,
    wanted: spec_fn(SymbolView) -> bool,
)
    requires
        forall|i: int|
            0 <= i < picked.len() ==> wanted(#[trigger] picked[i]) && list.contains(picked[i]),
        forall|k: int|
            0 <= k < list.len() && wanted(#[trigger] list[k]) ==> exists|i: int|
                0 <= i < picked.len() && is_same_record(list[k], #[trigger] picked[i]),
        forall|i: int, j: int|
            #![trigger picked[i], picked[j]]
            0 <= i < j < picked.len() ==> !is_same_record(picked[i], picked[j]) && (
            picked[i].byte_range.start < picked[j].byte_range.start || (picked[i].byte_range.start
                == picked[j].byte_range.start && picked[i].byte_range.end
                <= picked[j].byte_range.end)),
    ensures
        is_census(picked, list, wanted),
{
    reveal(is_census);
}

/// What a census holds is ordered.
pub proof fn lemma_census_order(
    picked: Seq<SymbolView>,
    list: Seq<SymbolView>,
    wanted: spec_fn(SymbolView) -> bool,
    i: int,
    j: int,
)
    requires
        is_census(picked, list, wanted),
        0 <= i < j < picked.len(),
    ensures
        !is_same_record(picked[i], picked[j]),
        picked[i].byte_range.start < picked[j].byte_range.start || (picked[i].byte_range.start
            == picked[j].byte_range.start && picked[i].byte_range.end <= picked[j].byte_range.end),
{
    reveal(is_census);
}

/// What a census holds is wanted and listed.
pub proof fn lemma_census_origin(
    picked: Seq<SymbolView>,
    list: Seq<SymbolView>,
    wanted: spec_fn(SymbolView) -> bool,
    place: int,
) -> (origin: int)
    requires
        is_census(picked, list, wanted),
        0 <= place < picked.len(),
    ensures
        wanted(picked[place]),
        0 <= origin < list.len(),
        list[origin] == picked[place],
{
    reveal(is_census);
    assert(list.contains(picked[place]));
    choose|k: int| 0 <= k < list.len() && list[k] == picked[place]
}

/// A filter that keeps everything keeps the list.
pub proof fn lemma_filter_all(list: Seq<SymbolView>)
    ensures
        list == list.filter(|symbol: SymbolView| true),
    decreases list.len(),
{
    reveal(Seq::filter);
    if list.len() > 0 {
        lemma_filter_all(list.drop_last());
        assert(list =~= list.drop_last().push(list.last()));
    } else {
        assert(list =~= list.filter(|symbol: SymbolView| true));
    }
}

/// A census holds the record of what is wanted and listed.
pub proof fn lemma_census_record(
    picked: Seq<SymbolView>,
    list: Seq<SymbolView>,
    wanted: spec_fn(SymbolView) -> bool,
    origin: int,
) -> (place: int)
    requires
        is_census(picked, list, wanted),
        0 <= origin < list.len(),
        wanted(list[origin]),
    ensures
        0 <= place < picked.len(),
        is_same_record(list[origin], picked[place]),
{
    reveal(is_census);
    choose|i: int| 0 <= i < picked.len() && is_same_record(list[origin], #[trigger] picked[i])
}

/// A census holds the record of what is wanted and listed, and its range.
proof fn lemma_census_place(
    picked: Seq<SymbolView>,
    list: Seq<SymbolView>,
    wanted: spec_fn(SymbolView) -> bool,
    origin: int,
) -> (place: int)
    requires
        is_census(picked, list, wanted),
        is_of_one_snapshot(list),
        0 <= origin < list.len(),
        wanted(list[origin]),
    ensures
        0 <= place < picked.len(),
        is_same_record(list[origin], picked[place]),
        list[origin].byte_range == picked[place].byte_range,
{
    let place = lemma_census_record(picked, list, wanted, origin);
    let other = lemma_census_origin(picked, list, wanted, place);
    assert(list[origin].lsp_range == list[other].lsp_range);
    place
}

/// The shortest of a census are innermost.
proof fn lemma_shortest_is_innermost(
    list: Seq<SymbolView>,
    wanted: spec_fn(SymbolView) -> bool,
    candidates: Seq<SymbolView>,
    place: int,
)
    requires
        is_of_one_snapshot(list),
        is_census(candidates, list, wanted),
        0 <= place < candidates.len(),
        resolve::is_shortest(candidates, resolve::span(candidates[place])),
    ensures
        is_innermost(list, wanted)(candidates[place]),
{
    let symbol = candidates[place];
    let origin = lemma_census_origin(candidates, list, wanted, place);
    assert forall|k: int| 0 <= k < list.len() && wanted(#[trigger] list[k]) implies
        symbol.byte_range.end - symbol.byte_range.start <= list[k].byte_range.end
        - list[k].byte_range.start by {
        let j = lemma_census_place(candidates, list, wanted, k);
        assert(resolve::span(symbol) <= resolve::span(candidates[j]));
    }
}

/// The innermost symbols have the shortest of a census.
proof fn lemma_innermost_is_shortest(
    list: Seq<SymbolView>,
    wanted: spec_fn(SymbolView) -> bool,
    candidates: Seq<SymbolView>,
    origin: int,
) -> (place: int)
    requires
        is_of_one_snapshot(list),
        is_census(candidates, list, wanted),
        0 <= origin < list.len(),
        is_innermost(list, wanted)(list[origin]),
    ensures
        0 <= place < candidates.len(),
        is_same_record(list[origin], candidates[place]),
        resolve::is_shortest(candidates, resolve::span(candidates[place])),
{
    let place = lemma_census_place(candidates, list, wanted, origin);
    assert forall|n: int| 0 <= n < candidates.len() implies resolve::span(candidates[place])
        <= resolve::span(#[trigger] candidates[n]) by {
        let other = lemma_census_origin(candidates, list, wanted, n);
        assert(wanted(list[other]));
    }
    place
}

/// The shortest of a census are a census of the innermost.
proof fn lemma_innermost_census(
    list: Seq<SymbolView>,
    wanted: spec_fn(SymbolView) -> bool,
    candidates: Seq<SymbolView>,
)
    requires
        is_of_one_snapshot(list),
        is_census(candidates, list, wanted),
        candidates.len() <= list.len(),
    ensures
        is_census(resolve::innermost(candidates), list, is_innermost(list, wanted)),
        resolve::innermost(candidates).len() <= list.len(),
{
    let shortest = |symbol: SymbolView| resolve::is_shortest(candidates, resolve::span(symbol));
    let picked = candidates.filter(shortest);
    let inner = is_innermost(list, wanted);
    candidates.filter_lemma(shortest);
    candidates.lemma_filter_len(shortest);
    let places = lemma_filter_places(candidates, shortest);
    assert forall|i: int| 0 <= i < picked.len() implies inner(#[trigger] picked[i])
        && list.contains(picked[i]) by {
        assert(shortest(picked[i]));
        assert(picked[i] == candidates[places[i]]);
        lemma_shortest_is_innermost(list, wanted, candidates, places[i]);
        let origin = lemma_census_origin(candidates, list, wanted, places[i]);
        assert(list[origin] == picked[i]);
    }
    assert forall|k: int| 0 <= k < list.len() && inner(#[trigger] list[k]) implies exists|i: int|
        0 <= i < picked.len() && is_same_record(list[k], #[trigger] picked[i]) by {
        let j = lemma_innermost_is_shortest(list, wanted, candidates, k);
        assert(shortest(candidates[j]));
        assert(picked.contains(candidates[j]));
        let i = choose|i: int| 0 <= i < picked.len() && picked[i] == candidates[j];
        assert(is_same_record(list[k], picked[i]));
    }
    assert forall|i: int, j: int|
        #![trigger picked[i], picked[j]]
        0 <= i < j < picked.len() implies !is_same_record(picked[i], picked[j]) && (
    picked[i].byte_range.start < picked[j].byte_range.start || (picked[i].byte_range.start
        == picked[j].byte_range.start && picked[i].byte_range.end
        <= picked[j].byte_range.end)) by {
        lemma_census_order(candidates, list, wanted, places[i], places[j]);
    }
    lemma_census(picked, list, inner);
}

/// Where the symbols that a filter keeps were listed, in order.
pub proof fn lemma_filter_places(list: Seq<SymbolView>, wanted: spec_fn(SymbolView) -> bool) -> (places:
    Seq<int>)
    ensures
        places.len() == list.filter(wanted).len(),
        forall|i: int|
            0 <= i < places.len() ==> 0 <= #[trigger] places[i] < list.len() && list[places[i]]
                == list.filter(wanted)[i],
        forall|i: int, j: int|
            #![trigger places[i], places[j]]
            0 <= i < j < places.len() ==> places[i] < places[j],
    decreases list.len(),
{
    reveal(Seq::filter);
    if list.len() == 0 {
        Seq::empty()
    } else {
        let shorter = list.drop_last();
        let earlier = lemma_filter_places(shorter, wanted);
        if wanted(list.last()) {
            earlier.push(list.len() - 1)
        } else {
            earlier
        }
    }
}

/// What a selection finds among the symbols of its source: what its query's
/// name or offset finds, with its kind, extent, and mode, and at most a
/// thousand matches.
pub proof fn law_selections_find_what_is_asked(
    list: Seq<SymbolView>,
    bytes: Seq<u8>,
    query: QueryView,
    extent: SelectionExtent,
    mode: MatchMode,
)
    requires
        list.len() <= u64::MAX,
        bytes.len() <= u64::MAX,
        is_of_one_snapshot(list),
    ensures
        ({
            let outcome = select_command::query_matches(list, bytes, query, extent, mode);
            let limits = select_command::default_symbol_limits();
            &&& limits.maximum_matches == 1_000
            &&& limits.maximum_ambiguity_candidates == 50
            &&& match query {
                QueryView::Name { name, kind } => exists|picked: Seq<SymbolView>| #[trigger]
                    is_census(picked, list, is_named(name, kind)) && answers(
                        outcome,
                        picked,
                        bytes,
                        extent,
                        mode,
                        limits,
                    ),
                QueryView::Byte { offset, kind } => if !is_whole(bytes, offset) {
                    outcome == Err::<Seq<MatchView>, SymbolErrorView>(
                        SymbolErrorView::QueryPositionOutOfBounds,
                    )
                } else {
                    exists|picked: Seq<SymbolView>| #[trigger]
                        is_census(
                            picked,
                            list,
                            is_called_for(list, is_around(offset, bytes.len(), kind), mode),
                        ) && answers(outcome, picked, bytes, extent, mode, limits)
                },
            }
        }),
{
    let limits = select_command::default_symbol_limits();
    match query {
        QueryView::Name { name, kind } => {
            law_name_queries_find_the_named(list, bytes, name, kind, extent, mode, limits);
        },
        QueryView::Byte { offset, kind } => {
            law_position_queries_find_what_is_around(
                list,
                bytes,
                offset,
                kind,
                extent,
                mode,
                limits,
            );
        },
    }
}

} // verus!
