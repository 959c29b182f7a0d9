//! Laws that relate flattening, ordering, resolution, and extents.

use vstd::prelude::*;

use crate::kinds::KnownSymbolKind;
use crate::normalize;
use crate::normalize::{ServerSymbolView, FlatSymbol, Progress};
use crate::order::Rank;
use crate::position;
use crate::position::{ByteRange, Snapshot};
use crate::resolve;
use crate::symbols;
use crate::symbols::{SelectionExtent, SymbolLimits, SymbolView};

verus! {

/// Whether no symbol comes after a later one.
pub open spec fn is_sorted(list: Seq<SymbolView>) -> bool {
    forall|i: int, j: int|
        0 <= i < j < list.len() ==> symbols::rank_symbols(#[trigger] list[i], #[trigger] list[j])
            != Rank::Greater
}

/// Inserting keeps a list sorted.
proof fn lemma_inserted_is_sorted(list: Seq<SymbolView>, symbol: SymbolView)
    requires
        is_sorted(list),
    ensures
        is_sorted(symbols::inserted(list, symbol)),
        symbols::inserted(list, symbol).len() == list.len() + 1,
        forall|i: int|
            0 <= i <= list.len() ==> (#[trigger] symbols::inserted(list, symbol)[i] == symbol
                || list.contains(symbols::inserted(list, symbol)[i])),
    decreases list.len(),
{
    let result = symbols::inserted(list, symbol);
    if list.len() == 0 || symbols::rank_symbols(list.last(), symbol) != Rank::Greater {
        assert forall|i: int, j: int| 0 <= i < j < result.len() implies symbols::rank_symbols(
            #[trigger] result[i],
            #[trigger] result[j],
        ) != Rank::Greater by {
            if j == list.len() && i < list.len() - 1 {
                let last = list.len() - 1;
                assert(symbols::rank_symbols(list[i], list[last]) != Rank::Greater);
                symbols::lemma_rank_symbols(list[i], list[last], symbol);
            }
        }
        assert forall|i: int| 0 <= i <= list.len() implies (#[trigger] result[i] == symbol
            || list.contains(result[i])) by {
            if i < list.len() {
                assert(list[i] == result[i]);
            }
        }
    } else {
        let shorter = list.drop_last();
        lemma_inserted_is_sorted(shorter, symbol);
        let inner = symbols::inserted(shorter, symbol);
        let last = list.len() - 1;
        assert forall|i: int| 0 <= i < inner.len() implies symbols::rank_symbols(
            #[trigger] inner[i],
            list[last],
        ) != Rank::Greater by {
            if inner[i] == symbol {
                symbols::lemma_rank_symbols(list[last], symbol, list[last]);
            } else {
                let k = choose|k: int| 0 <= k < shorter.len() && shorter[k] == inner[i];
                assert(list[k] == inner[i]);
                assert(symbols::rank_symbols(list[k], list[last]) != Rank::Greater);
            }
        }
        assert forall|i: int, j: int| 0 <= i < j < result.len() implies symbols::rank_symbols(
            #[trigger] result[i],
            #[trigger] result[j],
        ) != Rank::Greater by {
            if j < inner.len() {
                assert(result[i] == inner[i] && result[j] == inner[j]);
            } else {
                assert(result[i] == inner[i] && result[j] == list[last]);
            }
        }
        assert forall|i: int| 0 <= i <= list.len() implies (#[trigger] result[i] == symbol
            || list.contains(result[i])) by {
            if i < inner.len() {
                assert(result[i] == inner[i]);
                if inner[i] != symbol {
                    let k = choose|k: int| 0 <= k < shorter.len() && shorter[k] == inner[i];
                    assert(list[k] == result[i]);
                }
            } else {
                assert(result[i] == list[last]);
            }
        }
    }
}

/// The stable order is sorted, has as many symbols as it was given, and holds
/// the same ones.
pub proof fn law_sorted_is_an_order(list: Seq<SymbolView>)
    ensures
        is_sorted(symbols::sorted(list)),
        symbols::sorted(list).len() == list.len(),
        forall|x: SymbolView| #[trigger] symbols::sorted(list).contains(x) <==> list.contains(x),
    decreases list.len(),
{
    resolve::lemma_sorted_keeps(list);
    if list.len() > 0 {
        law_sorted_is_an_order(list.drop_last());
        lemma_inserted_is_sorted(symbols::sorted(list.drop_last()), list.last());
    }
}

/// Candidate order drops only repeated records: each candidate is one of the
/// given symbols, and each given symbol has a candidate with its raw range,
/// kind, breadcrumb, and name.
pub proof fn law_candidates_cover_every_record(list: Seq<SymbolView>)
    ensures
        forall|x: SymbolView| #[trigger]
            symbols::ordered_unique(list).contains(x) ==> list.contains(x),
        forall|x: SymbolView| #[trigger]
            list.contains(x) ==> exists|y: SymbolView| #[trigger]
                symbols::ordered_unique(list).contains(y) && symbols::is_duplicate(x, y),
{
    resolve::lemma_sorted_keeps(list);
    resolve::lemma_deduplicated_keeps(symbols::sorted(list));
    assert forall|x: SymbolView| #[trigger] list.contains(x) implies exists|y: SymbolView| #[trigger]
        symbols::ordered_unique(list).contains(y) && symbols::is_duplicate(x, y) by {
        assert(symbols::sorted(list).contains(x));
        let y = choose|y: SymbolView| #[trigger]
            symbols::deduplicated(symbols::sorted(list)).contains(y) && symbols::is_duplicate(x, y);
        assert(symbols::ordered_unique(list).contains(y));
    }
}

/// Filtering a list with one more symbol.
proof fn lemma_filter_push(
    list: Seq<SymbolView>,
    symbol: SymbolView,
    keep: spec_fn(SymbolView) -> bool,
)
    ensures
        list.push(symbol).filter(keep) == (if keep(symbol) {
            list.filter(keep).push(symbol)
        } else {
            list.filter(keep)
        }),
{
    reveal(Seq::filter);
    assert(list.push(symbol).drop_last() =~= list);
}

/// A filtered list holds the symbols that pass, and only those.
proof fn lemma_filter_contains(list: Seq<SymbolView>, keep: spec_fn(SymbolView) -> bool)
    ensures
        forall|x: SymbolView| #[trigger]
            list.filter(keep).contains(x) ==> list.contains(x) && keep(x),
        list.filter(keep).len() <= list.len(),
        list.len() > 0 && keep(list.last()) ==> list.filter(keep).len() > 0 && list.filter(
            keep,
        ).last() == list.last(),
    decreases list.len(),
{
    reveal(Seq::filter);
    if list.len() > 0 {
        let shorter = list.drop_last();
        lemma_filter_contains(shorter, keep);
        lemma_filter_push(shorter, list.last(), keep);
        assert(list =~= shorter.push(list.last()));
        assert forall|x: SymbolView| #[trigger] list.filter(keep).contains(x) implies list.contains(
            x,
        ) && keep(x) by {
            let kept = list.filter(keep);
            let k = choose|k: int| 0 <= k < kept.len() && kept[k] == x;
            if keep(list.last()) && k == kept.len() - 1 {
                assert(list[list.len() - 1] == x);
            } else {
                assert(shorter.filter(keep)[k] == x);
                assert(shorter.filter(keep).contains(x));
                assert(shorter.contains(x));
                let m = choose|m: int| 0 <= m < shorter.len() && shorter[m] == x;
                assert(list[m] == x);
            }
        }
    }
}

/// Filtering commutes with insertion into a sorted list.
proof fn lemma_filter_inserted(
    list: Seq<SymbolView>,
    symbol: SymbolView,
    keep: spec_fn(SymbolView) -> bool,
)
    requires
        is_sorted(list),
    ensures
        symbols::inserted(list, symbol).filter(keep) == (if keep(symbol) {
            symbols::inserted(list.filter(keep), symbol)
        } else {
            list.filter(keep)
        }),
    decreases list.len(),
{
    let result = symbols::inserted(list, symbol);
    if list.len() == 0 || symbols::rank_symbols(list.last(), symbol) != Rank::Greater {
        lemma_filter_push(list, symbol, keep);
        let kept = list.filter(keep);
        if keep(symbol) && kept.len() > 0 {
            lemma_filter_contains(list, keep);
            assert(kept.contains(kept.last()));
            let k = choose|k: int| 0 <= k < list.len() && list[k] == kept.last();
            let last = list.len() - 1;
            if k < last {
                assert(symbols::rank_symbols(list[k], list[last]) != Rank::Greater);
                symbols::lemma_rank_symbols(list[k], list[last], symbol);
            }
        }
    } else {
        let shorter = list.drop_last();
        let last = list.last();
        lemma_filter_inserted(shorter, symbol, keep);
        let inner = symbols::inserted(shorter, symbol);
        lemma_filter_push(inner, last, keep);
        lemma_filter_push(shorter, last, keep);
        assert(list =~= shorter.push(last));
        if keep(symbol) && keep(last) {
            let kept = list.filter(keep);
            assert(kept == shorter.filter(keep).push(last));
            assert(kept.drop_last() =~= shorter.filter(keep));
        }
    }
}

/// Filtering commutes with the stable order.
pub proof fn law_filtering_commutes_with_sorting(
    list: Seq<SymbolView>,
    keep: spec_fn(SymbolView) -> bool,
)
    ensures
        symbols::sorted(list).filter(keep) == symbols::sorted(list.filter(keep)),
    decreases list.len(),
{
    reveal(Seq::filter);
    if list.len() == 0 {
        assert(symbols::sorted(list).filter(keep) =~= symbols::sorted(list.filter(keep)));
    } else {
        let shorter = list.drop_last();
        law_filtering_commutes_with_sorting(shorter, keep);
        law_sorted_is_an_order(shorter);
        lemma_filter_inserted(symbols::sorted(shorter), list.last(), keep);
        assert(list =~= shorter.push(list.last()));
        lemma_filter_push(shorter, list.last(), keep);
        if keep(list.last()) {
            let kept = shorter.filter(keep).push(list.last());
            assert(kept.drop_last() =~= shorter.filter(keep));
        }
    }
}

/// Each kept record has a place in the list it came from, in order, and no two
/// are the same record.
proof fn lemma_deduplicated_places(list: Seq<SymbolView>) -> (places: Seq<int>)
    ensures
        places.len() == symbols::deduplicated(list).len(),
        forall|i: int| 0 <= i < places.len() ==> 0 <= #[trigger] places[i] < list.len(),
        forall|i: int|
            0 <= i < places.len() ==> list[#[trigger] places[i]] == symbols::deduplicated(list)[i],
        forall|i: int, j: int| 0 <= i < j < places.len() ==> places[i] < places[j],
        forall|i: int, j: int|
            0 <= i < j < places.len() ==> !symbols::is_duplicate(
                #[trigger] symbols::deduplicated(list)[i],
                #[trigger] symbols::deduplicated(list)[j],
            ),
    decreases list.len(),
{
    if list.len() == 0 {
        Seq::empty()
    } else {
        let shorter = list.drop_last();
        let earlier = lemma_deduplicated_places(shorter);
        let kept = symbols::deduplicated(shorter);
        if symbols::is_repeated(kept, list.last()) {
            earlier
        } else {
            assert forall|i: int| 0 <= i < kept.len() implies !symbols::is_duplicate(
                #[trigger] kept[i],
                list.last(),
            ) by {
                assert(!symbols::is_duplicate(list.last(), kept[i]));
            }
            earlier.push(list.len() - 1)
        }
    }
}

/// Candidates are sorted, and no two of them have equal raw range, kind,
/// breadcrumb, and name.
pub proof fn law_candidates_are_sorted_and_unique(list: Seq<SymbolView>)
    ensures
        is_sorted(symbols::ordered_unique(list)),
        forall|i: int, j: int|
            0 <= i < j < symbols::ordered_unique(list).len() ==> !symbols::is_duplicate(
                #[trigger] symbols::ordered_unique(list)[i],
                #[trigger] symbols::ordered_unique(list)[j],
            ),
{
    law_sorted_is_an_order(list);
    let ordered = symbols::sorted(list);
    let places = lemma_deduplicated_places(ordered);
    let kept = symbols::ordered_unique(list);
    assert forall|i: int, j: int| 0 <= i < j < kept.len() implies symbols::rank_symbols(
        #[trigger] kept[i],
        #[trigger] kept[j],
    ) != Rank::Greater by {
        assert(ordered[places[i]] == kept[i] && ordered[places[j]] == kept[j]);
    }
}

/// There are no more candidates than symbols.
pub proof fn lemma_candidates_are_no_more(list: Seq<SymbolView>)
    ensures
        symbols::ordered_unique(list).len() <= list.len(),
{
    law_sorted_is_an_order(list);
    lemma_deduplicated_is_no_more(symbols::sorted(list));
}

proof fn lemma_deduplicated_is_no_more(list: Seq<SymbolView>)
    ensures
        symbols::deduplicated(list).len() <= list.len(),
    decreases list.len(),
{
    if list.len() > 0 {
        lemma_deduplicated_is_no_more(list.drop_last());
    }
}

/// Filtering by what a name query asks commutes with deduplication.
proof fn lemma_filter_deduplicated(
    list: Seq<SymbolView>,
    name: Seq<char>,
    kind: Option<KnownSymbolKind>,
)
    ensures
        resolve::named(symbols::deduplicated(list), name, kind) == symbols::deduplicated(
            resolve::named(list, name, kind),
        ),
    decreases list.len(),
{
    reveal(Seq::filter);
    let keep = |symbol: SymbolView| resolve::answers_name(symbol, name, kind);
    if list.len() == 0 {
        assert(resolve::named(symbols::deduplicated(list), name, kind) =~= symbols::deduplicated(
            resolve::named(list, name, kind),
        ));
    } else {
        let shorter = list.drop_last();
        let last = list.last();
        lemma_filter_deduplicated(shorter, name, kind);
        let kept = symbols::deduplicated(shorter);
        let named_kept = kept.filter(keep);
        assert(list =~= shorter.push(last));
        lemma_filter_push(shorter, last, keep);
        lemma_filter_push(kept, last, keep);
        if keep(last) {
            let filtered = shorter.filter(keep).push(last);
            assert(filtered.drop_last() =~= shorter.filter(keep));
            assert(symbols::deduplicated(shorter.filter(keep)) == named_kept);
            lemma_filter_repeated(kept, last, name, kind);
        }
    }
}

/// A symbol that answers a name query repeats one of the records exactly when
/// it repeats one of those that answer it.
proof fn lemma_filter_repeated(
    kept: Seq<SymbolView>,
    symbol: SymbolView,
    name: Seq<char>,
    kind: Option<KnownSymbolKind>,
)
    requires
        resolve::answers_name(symbol, name, kind),
    ensures
        symbols::is_repeated(resolve::named(kept, name, kind), symbol) == symbols::is_repeated(
            kept,
            symbol,
        ),
    decreases kept.len(),
{
    reveal(Seq::filter);
    let keep = |symbol: SymbolView| resolve::answers_name(symbol, name, kind);
    if kept.len() == 0 {
        assert(kept.filter(keep) =~= kept);
    } else {
        let shorter = kept.drop_last();
        lemma_filter_repeated(shorter, symbol, name, kind);
        lemma_filter_push(shorter, kept.last(), keep);
        assert(kept =~= shorter.push(kept.last()));
        lemma_repeated_push(shorter, kept.last(), symbol);
        lemma_repeated_push(shorter.filter(keep), kept.last(), symbol);
    }
}

/// A symbol repeats one of a list and one more exactly when it repeats one of
/// the list or that one.
proof fn lemma_repeated_push(list: Seq<SymbolView>, more: SymbolView, symbol: SymbolView)
    ensures
        symbols::is_repeated(list.push(more), symbol) == (symbols::is_repeated(list, symbol)
            || symbols::is_duplicate(symbol, more)),
{
    let longer = list.push(more);
    if symbols::is_repeated(longer, symbol) {
        let i = choose|i: int|
            0 <= i < longer.len() && symbols::is_duplicate(symbol, #[trigger] longer[i]);
        if i < list.len() {
            assert(symbols::is_duplicate(symbol, list[i]));
        }
    }
    if symbols::is_repeated(list, symbol) {
        let i = choose|i: int|
            0 <= i < list.len() && symbols::is_duplicate(symbol, #[trigger] list[i]);
        assert(symbols::is_duplicate(symbol, longer[i]));
    }
    if symbols::is_duplicate(symbol, more) {
        assert(symbols::is_duplicate(symbol, longer[list.len() as int]));
    }
}

/// The outline order of the symbols that answer a name query is the order in
/// which an all-matches query returns them.
pub proof fn law_outline_order_matches_name_queries(
    list: Seq<SymbolView>,
    name: Seq<char>,
    kind: Option<KnownSymbolKind>,
)
    ensures
        resolve::named(symbols::ordered_unique(list), name, kind) == symbols::ordered_unique(
            resolve::named(list, name, kind),
        ),
{
    let keep = |symbol: SymbolView| resolve::answers_name(symbol, name, kind);
    law_filtering_commutes_with_sorting(list, keep);
    lemma_filter_deduplicated(symbols::sorted(list), name, kind);
}

/// An extent only adds to a selectable range: indentation before it, and
/// indentation with at most one line terminator after it.
pub proof fn law_extents_add_only_line_edges(
    bytes: Seq<u8>,
    range: ByteRange,
    extent: SelectionExtent,
)
    requires
        bytes.len() <= u64::MAX,
        resolve::extended(bytes, range, extent) is Some,
    ensures
        ({
            let wider = resolve::extended(bytes, range, extent)->Some_0;
            &&& wider.start <= range.start < range.end <= wider.end <= bytes.len()
            &&& forall|i: int|
                wider.start <= i < range.start ==> resolve::is_indent(#[trigger] bytes[i])
            &&& forall|i: int|
                range.end <= i < wider.end ==> resolve::is_indent(#[trigger] bytes[i]) || (
                resolve::is_line_break(bytes[i]) && i + 2 >= wider.end)
        }),
{
    resolve::lemma_line_begin(bytes, range.start as int);
    resolve::lemma_after_indent(bytes, range.end as int);
}

/// In UTF-8, the byte after an ASCII byte begins a scalar value.
proof fn lemma_after_ascii(bytes: Seq<u8>, index: int)
    requires
        vstd::utf8::valid_utf8(bytes),
        0 <= index,
        index + 1 < bytes.len(),
        bytes[index] < 128,
    ensures
        !position::is_continuation(bytes[index + 1]),
{
    let length = bytes.len() as int;
    vstd::utf8::is_char_boundary_iff_not_is_continuation_byte(bytes, index);
    assert(vstd::utf8::is_char_boundary(bytes, index));
    vstd::utf8::valid_utf8_split(bytes, index);
    let suffix = bytes.subrange(index, length);
    assert(suffix[0] == bytes[index]);
    let rest = vstd::utf8::pop_first_scalar(suffix);
    assert(vstd::utf8::length_of_first_scalar(suffix) == 1);
    assert(rest =~= suffix.subrange(1, suffix.len() as int));
    assert(rest[0] == bytes[index + 1]);
    vstd::utf8::is_char_boundary_start_end_of_seq(rest);
    vstd::utf8::is_char_boundary_iff_not_is_continuation_byte(rest, 0);
}

/// What an extent selects in UTF-8 text is again a nonempty span of whole
/// scalar values, and applying the extent to it selects the same range.
pub proof fn law_extents_are_idempotent(bytes: Seq<u8>, range: ByteRange, extent: SelectionExtent)
    requires
        bytes.len() <= u64::MAX,
        vstd::utf8::valid_utf8(bytes),
        resolve::extended(bytes, range, extent) is Some,
    ensures
        resolve::is_selectable(bytes, resolve::extended(bytes, range, extent)->Some_0),
        resolve::extended(bytes, resolve::extended(bytes, range, extent)->Some_0, extent)
            == resolve::extended(bytes, range, extent),
{
    let wider = resolve::extended(bytes, range, extent)->Some_0;
    resolve::lemma_line_begin(bytes, range.start as int);
    resolve::lemma_after_indent(bytes, range.end as int);
    if extent == SelectionExtent::DeclarationLines {
        let begin = resolve::line_begin(bytes, range.start as int);
        if wider.start < range.start {
            assert(resolve::is_indent(bytes[begin]));
        }
        assert(position::is_boundary(bytes, wider.start as int));
        if wider.end > range.end && wider.end < bytes.len() {
            assert(bytes[wider.end - 1] < 128);
            lemma_after_ascii(bytes, wider.end - 1);
        }
        assert(position::is_boundary(bytes, wider.end as int));
    }
    resolve::lemma_line_begin(bytes, wider.start as int);
    resolve::lemma_after_indent(bytes, wider.end as int);
    if extent == SelectionExtent::DeclarationLines {
        let begin = resolve::line_begin(bytes, range.start as int);
        if wider.start == begin {
            assert(resolve::line_begin(bytes, begin) == begin);
        }
        assert(resolve::expanded_start(bytes, wider.start as int) == wider.start);
        if !resolve::is_line_break(bytes[wider.end - 1]) {
            let next = resolve::after_indent(bytes, range.end as int);
            if wider.end != range.end {
                assert(next >= bytes.len());
            }
        }
        assert(resolve::expanded_end(bytes, wider.end as int) == wider.end);
    }
}

/// Every normalized symbol has a nonempty enclosing range inside the snapshot
/// that contains its nonempty reveal range, a nonempty name that ends its
/// breadcrumb, and its place in the preorder of the hierarchy.
pub proof fn law_normalized_symbols_are_valid(
    flats: Seq<FlatSymbol>,
    progress: Progress,
    snapshot: Snapshot,
    limits: SymbolLimits,
    index: int,
)
    requires
        snapshot.bytes.len() <= u64::MAX,
        normalize::visited_all(flats, progress, snapshot, limits).0 is Ok,
        0 <= index < flats.len(),
        flats[index].path.len() > 0,
        flats[index].path.last() == flats[index].symbol.name,
    ensures
        ({
            let kept = normalize::visited_all(flats, progress, snapshot, limits).0->Ok_0;
            &&& kept.len() == flats.len()
            &&& kept[index].name == flats[index].symbol.name
            &&& kept[index].name.len() > 0
            &&& kept[index].symbol_path == flats[index].path
            &&& kept[index].symbol_path.last() == kept[index].name
            &&& kept[index].byte_range.start <= kept[index].selection_byte_range.start
            &&& kept[index].selection_byte_range.start < kept[index].selection_byte_range.end
            &&& kept[index].selection_byte_range.end <= kept[index].byte_range.end
            &&& kept[index].byte_range.end <= snapshot.bytes.len()
        }),
    decreases flats.len(),
{
    let first = normalize::visited(flats[0], progress, snapshot, limits);
    let after = normalize::advanced(flats[0], progress, first.1);
    let rest = flats.drop_first();
    lemma_visited_all_length(rest, after, snapshot, limits);
    let tail = normalize::visited_all(rest, after, snapshot, limits).0->Ok_0;
    let kept = normalize::visited_all(flats, progress, snapshot, limits).0->Ok_0;
    assert(kept == seq![first.0->Ok_0] + tail);
    if index == 0 {
        let symbol = flats[0].symbol;
        position::law_converted_ranges_are_nonempty(
            snapshot.encoding,
            snapshot.bytes,
            symbol.range,
            progress.scanned,
            snapshot.limit,
        );
        let scanned = position::range_to_bytes(
            snapshot.encoding,
            snapshot.bytes,
            symbol.range,
            progress.scanned,
            snapshot.limit,
        ).1;
        position::law_converted_ranges_are_nonempty(
            snapshot.encoding,
            snapshot.bytes,
            symbol.selection_range,
            scanned,
            snapshot.limit,
        );
    } else {
        assert(rest[index - 1] == flats[index]);
        law_normalized_symbols_are_valid(rest, after, snapshot, limits, index - 1);
        assert(kept[index] == tail[index - 1]);
    }
}

/// A successful visit keeps every symbol.
proof fn lemma_visited_all_length(
    flats: Seq<FlatSymbol>,
    progress: Progress,
    snapshot: Snapshot,
    limits: SymbolLimits,
)
    ensures
        normalize::visited_all(flats, progress, snapshot, limits).0 is Ok
            ==> normalize::visited_all(flats, progress, snapshot, limits).0->Ok_0.len()
            == flats.len(),
    decreases flats.len(),
{
    if flats.len() > 0 {
        let first = normalize::visited(flats[0], progress, snapshot, limits);
        lemma_visited_all_length(
            flats.drop_first(),
            normalize::advanced(flats[0], progress, first.1),
            snapshot,
            limits,
        );
    }
}

/// Whether a flattened symbol's breadcrumb extends a parent's breadcrumb, ends
/// with the symbol's name, and is as long as the symbol is deep.
pub open spec fn is_placed(flat: FlatSymbol, parent: Seq<Seq<char>>, depth: nat) -> bool {
    &&& flat.depth >= depth
    &&& flat.path.len() == parent.len() + 1 + flat.depth - depth
    &&& parent == flat.path.take(parent.len() as int)
    &&& flat.path.last() == flat.symbol.name
}

/// Flattening gives every symbol a complete breadcrumb: it extends its
/// parent's, ends with the symbol's name, and grows by one name per level.
pub proof fn law_breadcrumbs_are_complete(
    list: Seq<ServerSymbolView>,
    parent: Seq<Seq<char>>,
    depth: nat,
)
    ensures
        forall|i: int|
            0 <= i < normalize::flattened(list, parent, depth).len() ==> is_placed(
                #[trigger] normalize::flattened(list, parent, depth)[i],
                parent,
                depth,
            ),
    decreases list,
{
    let flats = normalize::flattened(list, parent, depth);
    if list.len() > 0 {
        let head = normalize::flattened_one(list[0], parent, depth);
        let rest = list.subrange(1, list.len() as int);
        let tail = normalize::flattened(rest, parent, depth);
        lemma_one_breadcrumb(list[0], parent, depth);
        law_breadcrumbs_are_complete(rest, parent, depth);
        assert forall|i: int| 0 <= i < flats.len() implies is_placed(
            #[trigger] flats[i],
            parent,
            depth,
        ) by {
            if i < head.len() {
                assert(flats[i] == head[i]);
            } else {
                assert(flats[i] == tail[i - head.len()]);
            }
        }
    }
}

proof fn lemma_one_breadcrumb(symbol: ServerSymbolView, parent: Seq<Seq<char>>, depth: nat)
    ensures
        forall|i: int|
            0 <= i < normalize::flattened_one(symbol, parent, depth).len() ==> is_placed(
                #[trigger] normalize::flattened_one(symbol, parent, depth)[i],
                parent,
                depth,
            ),
    decreases symbol,
{
    let path = parent.push(symbol.name);
    let flats = normalize::flattened_one(symbol, parent, depth);
    assert(parent =~= path.take(parent.len() as int));
    match symbol.children {
        Some(children) => {
            law_breadcrumbs_are_complete(children, path, depth + 1);
            let nested = normalize::flattened(children, path, depth + 1);
            assert forall|i: int| 0 <= i < flats.len() implies is_placed(
                #[trigger] flats[i],
                parent,
                depth,
            ) by {
                if i > 0 {
                    assert(flats[i] == nested[i - 1]);
                    let inner = nested[i - 1];
                    assert(is_placed(inner, path, depth + 1));
                    assert(parent =~= inner.path.take(parent.len() as int)) by {
                        assert forall|k: int| 0 <= k < parent.len() implies parent[k]
                            == inner.path[k] by {
                            assert(path[k] == inner.path.take(path.len() as int)[k]);
                        }
                    }
                }
            }
        },
        None => {},
    }
}

} // verus!
