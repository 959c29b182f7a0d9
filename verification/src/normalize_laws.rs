//! What normalization means: which symbols it keeps, and where they are.

use vstd::prelude::*;

use crate::json;
use crate::json::JsonView;
use crate::kinds;
use crate::normalize;
use crate::normalize::{FlatSymbol, Progress, ServerSymbolView};
use crate::position;
use crate::position::{ByteRange, PositionError, Range, Snapshot};
use crate::position_laws;
use crate::query_laws;
use crate::symbols::{SymbolErrorView, SymbolLimits, SymbolView};
use crate::text;

verus! {

/// The symbols of a hierarchy, nested ones included.
pub open spec fn node_count(list: Seq<ServerSymbolView>) -> nat
    decreases list,
{
    if list.len() == 0 {
        0
    } else {
        1 + (match list[0].children {
            Some(children) => node_count(children),
            None => 0,
        }) + node_count(list.subrange(1, list.len() as int))
    }
}

/// Flattening loses no symbol.
pub proof fn law_flattening_keeps_every_symbol(
    list: Seq<ServerSymbolView>,
    parent: Seq<Seq<char>>,
    depth: nat,
)
    ensures
        normalize::flattened(list, parent, depth).len() == node_count(list),
    decreases list,
{
    if list.len() > 0 {
        let first = list[0];
        let path = parent.push(first.name);
        reveal_with_fuel(normalize::flattened, 2);
        reveal_with_fuel(normalize::flattened_one, 2);
        assert(normalize::flattened(list, parent, depth) == normalize::flattened_one(
            first,
            parent,
            depth,
        ) + normalize::flattened(list.subrange(1, list.len() as int), parent, depth));
        assert(normalize::flattened_one(first, parent, depth).len() == 1 + (match first.children {
            Some(children) => normalize::flattened(children, path, depth + 1).len(),
            None => 0,
        }));
        law_flattening_keeps_every_symbol(list.subrange(1, list.len() as int), parent, depth);
        if let Some(children) = list[0].children {
            assert(decreases_to!(list => list[0]));
            law_flattening_keeps_every_symbol(children, path, depth + 1);
        }
    }
}

/// A symbol comes first, with its name at the end of its parent's breadcrumb,
/// and then its nested symbols, one level deeper; nothing comes in between, and
/// nothing else.
pub proof fn law_symbols_come_before_their_children(
    symbol: ServerSymbolView,
    parent: Seq<Seq<char>>,
    depth: nat,
)
    ensures
        normalize::flattened(seq![symbol], parent, depth) == seq![
            FlatSymbol { symbol, depth, path: parent.push(symbol.name) },
        ] + (match symbol.children {
            Some(children) => normalize::flattened(
                children,
                parent.push(symbol.name),
                depth + 1,
            ),
            None => Seq::empty(),
        }),
        normalize::flattened(Seq::empty(), parent, depth) == Seq::<FlatSymbol>::empty(),
{
    reveal_with_fuel(normalize::flattened, 2);
    reveal_with_fuel(normalize::flattened_one, 2);
    let list = seq![symbol];
    assert(list.subrange(1, 1) =~= Seq::<ServerSymbolView>::empty());
    assert(normalize::flattened(list, parent, depth) =~= normalize::flattened_one(
        symbol,
        parent,
        depth,
    ));
}

/// Symbols are flattened one after the other: flattening lists in a row is
/// flattening each of them.
pub proof fn law_flattening_goes_in_order(
    left: Seq<ServerSymbolView>,
    right: Seq<ServerSymbolView>,
    parent: Seq<Seq<char>>,
    depth: nat,
)
    ensures
        normalize::flattened(left + right, parent, depth) == normalize::flattened(
            left,
            parent,
            depth,
        ) + normalize::flattened(right, parent, depth),
    decreases left.len(),
{
    let both = left + right;
    if left.len() == 0 {
        assert(both =~= right);
        assert(normalize::flattened(left, parent, depth) + normalize::flattened(
            right,
            parent,
            depth,
        ) =~= normalize::flattened(right, parent, depth));
    } else {
        let rest = left.subrange(1, left.len() as int);
        assert(both.subrange(1, both.len() as int) =~= rest + right);
        law_flattening_goes_in_order(rest, right, parent, depth);
        assert(normalize::flattened(both, parent, depth) =~= normalize::flattened(
            left,
            parent,
            depth,
        ) + normalize::flattened(right, parent, depth));
    }
}

/// Whether a byte range is that of a range of LSP positions: it begins at the
/// place of the first and ends at the place of the second, further on.
pub open spec fn is_converted(range: Range, bytes: ByteRange, snapshot: Snapshot) -> bool {
    &&& position_laws::is_server_place(
        snapshot.encoding,
        snapshot.bytes,
        range.start,
        bytes.start as int,
    )
    &&& position_laws::is_server_place(
        snapshot.encoding,
        snapshot.bytes,
        range.end,
        bytes.end as int,
    )
    &&& bytes.start < bytes.end
}

/// A range converts to the bytes between the places of its two positions, and
/// to nothing where the second does not come after the first.
pub proof fn law_ranges_convert_at_both_ends(range: Range, scanned: nat, snapshot: Snapshot)
    requires
        snapshot.bytes.len() <= u64::MAX,
    ensures
        match position::range_to_bytes(
            snapshot.encoding,
            snapshot.bytes,
            range,
            scanned,
            snapshot.limit,
        ).0 {
            Ok(bytes) => is_converted(range, bytes, snapshot),
            Err(PositionError::InvalidRange) => exists|start: u64, end: u64|
                #![trigger position_laws::is_server_place(snapshot.encoding, snapshot.bytes, range.start, start as int), position_laws::is_server_place(snapshot.encoding, snapshot.bytes, range.end, end as int)]
                position_laws::is_server_place(
                    snapshot.encoding,
                    snapshot.bytes,
                    range.start,
                    start as int,
                ) && position_laws::is_server_place(
                    snapshot.encoding,
                    snapshot.bytes,
                    range.end,
                    end as int,
                ) && start >= end,
            Err(_) => true,
        },
{
    let (start, total) = position::position_to_byte(
        snapshot.encoding,
        snapshot.bytes,
        range.start,
        scanned,
        snapshot.limit,
    );
    if let Ok(start) = start {
        position_laws::law_server_positions_are_exact(
            snapshot.encoding,
            snapshot.bytes,
            range.start,
            start,
            scanned,
            snapshot.limit,
        );
        if let Ok(end) = position::position_to_byte(
            snapshot.encoding,
            snapshot.bytes,
            range.end,
            total,
            snapshot.limit,
        ).0 {
            position_laws::law_server_positions_are_exact(
                snapshot.encoding,
                snapshot.bytes,
                range.end,
                end,
                total,
                snapshot.limit,
            );
        }
    }
}

/// Whether a normalized symbol is a server's symbol: its name, detail, kind,
/// breadcrumb, and ranges as they were given, and the bytes of both ranges, the
/// second within the first.
pub open spec fn is_normal_form(
    kept: SymbolView,
    flat: FlatSymbol,
    snapshot: Snapshot,
) -> bool {
    &&& kept.name == flat.symbol.name
    &&& kept.detail == flat.symbol.detail
    &&& kinds::normalized_kind_number(kept.kind) == flat.symbol.kind
    &&& kept.symbol_path == flat.path
    &&& kept.lsp_range == flat.symbol.range
    &&& kept.lsp_selection_range == flat.symbol.selection_range
    &&& is_converted(flat.symbol.range, kept.byte_range, snapshot)
    &&& is_converted(flat.symbol.selection_range, kept.selection_byte_range, snapshot)
    &&& kept.byte_range.start <= kept.selection_byte_range.start
    &&& kept.selection_byte_range.end <= kept.byte_range.end
}

/// The UTF-8 bytes of texts in a row.
pub open spec fn total_bytes(texts: Seq<Seq<char>>) -> nat
    decreases texts.len(),
{
    if texts.len() == 0 {
        0
    } else {
        total_bytes(texts.drop_last()) + text::utf8(texts.last()).len()
    }
}

proof fn lemma_total_bytes(texts: Seq<Seq<char>>)
    ensures
        total_bytes(texts) == normalize::path_bytes(texts),
    decreases texts.len(),
{
    if texts.len() > 0 {
        lemma_total_bytes(texts.drop_last());
    }
}

/// Whether a symbol is within the bounds on one symbol: how deep it lies, and
/// how long its name, its detail, and its breadcrumb are.
pub open spec fn is_within(flat: FlatSymbol, limits: SymbolLimits) -> bool {
    &&& flat.depth <= limits.maximum_depth
    &&& text::utf8(flat.symbol.name).len() <= limits.maximum_name_bytes
    &&& flat.symbol.detail matches Some(detail) ==> text::utf8(detail).len()
        <= limits.maximum_detail_bytes
    &&& total_bytes(flat.path) <= limits.maximum_path_bytes
}

/// Whether a symbol is well formed: it has a name, and all its numbers are LSP
/// unsigned integers.
pub open spec fn is_well_formed(flat: FlatSymbol) -> bool {
    let range = flat.symbol.range;
    let selection = flat.symbol.selection_range;
    let greatest = 2_147_483_647u32;
    &&& flat.symbol.name.len() > 0
    &&& range.start.line <= greatest && range.start.character <= greatest
    &&& range.end.line <= greatest && range.end.character <= greatest
    &&& selection.start.line <= greatest && selection.start.character <= greatest
    &&& selection.end.line <= greatest && selection.end.character <= greatest
}

/// A visited symbol is kept in its normal form exactly where it is well formed,
/// within its bounds, and both its ranges convert, the second within the first;
/// every refusal says which of these fails, or that there are too many symbols
/// or too much text in all.
pub proof fn law_visits_keep_or_say_why(
    flat: FlatSymbol,
    progress: Progress,
    snapshot: Snapshot,
    limits: SymbolLimits,
)
    requires
        snapshot.bytes.len() <= u64::MAX,
    ensures
        match normalize::visited(flat, progress, snapshot, limits).0 {
            Ok(kept) => {
                &&& is_normal_form(kept, flat, snapshot)
                &&& is_well_formed(flat)
                &&& is_within(flat, limits)
                &&& progress.visited < limits.maximum_raw_symbols
                &&& progress.visited < limits.maximum_flattened_symbols
            },
            Err(SymbolErrorView::MalformedDocumentSymbols) => !is_well_formed(flat),
            Err(SymbolErrorView::ResourceLimitExceeded { resource, maximum }) => {
                ||| maximum == limits.maximum_raw_symbols && (progress.visited >= maximum
                    || progress.discovered + normalize::children_of(flat.symbol).len() > maximum)
                ||| maximum == limits.maximum_flattened_symbols && progress.visited >= maximum
                ||| maximum == limits.maximum_candidate_storage_bytes && progress.storage
                    + 2 * text::utf8(flat.symbol.name).len() + (match flat.symbol.detail {
                    Some(detail) => text::utf8(detail).len(),
                    None => 0,
                }) + total_bytes(flat.path) > maximum
                ||| !is_within(flat, limits)
                ||| flat.depth >= u64::MAX
            },
            Err(SymbolErrorView::Position(error)) => is_well_formed(flat) && is_within(
                flat,
                limits,
            ),
            Err(SymbolErrorView::SelectionRangeNotContained) => exists|
                outer: ByteRange,
                inner: ByteRange,
            |
                #![trigger is_converted(flat.symbol.range, outer, snapshot), is_converted(flat.symbol.selection_range, inner, snapshot)]
                is_converted(flat.symbol.range, outer, snapshot) && is_converted(
                    flat.symbol.selection_range,
                    inner,
                    snapshot,
                ) && !(outer.start <= inner.start && inner.end <= outer.end),
            Err(_) => false,
        },
{
    lemma_total_bytes(flat.path);
    kinds::law_kind_numbers_round_trip(flat.symbol.kind);
    law_ranges_convert_at_both_ends(flat.symbol.range, progress.scanned, snapshot);
    let scanned = position::range_to_bytes(
        snapshot.encoding,
        snapshot.bytes,
        flat.symbol.range,
        progress.scanned,
        snapshot.limit,
    ).1;
    law_ranges_convert_at_both_ends(flat.symbol.selection_range, scanned, snapshot);
}

/// Symbols visited in a row are all kept, in order, each in its normal form.
pub proof fn law_visits_keep_every_symbol(
    flats: Seq<FlatSymbol>,
    progress: Progress,
    snapshot: Snapshot,
    limits: SymbolLimits,
)
    requires
        snapshot.bytes.len() <= u64::MAX,
        normalize::visited_all(flats, progress, snapshot, limits).0 is Ok,
    ensures
        ({
            let kept = normalize::visited_all(flats, progress, snapshot, limits).0->Ok_0;
            &&& kept.len() == flats.len()
            &&& progress.visited + kept.len() <= limits.maximum_raw_symbols || kept.len() == 0
            &&& progress.visited + kept.len() <= limits.maximum_flattened_symbols || kept.len()
                == 0
            &&& forall|i: int|
                0 <= i < kept.len() ==> is_normal_form(#[trigger] kept[i], flats[i], snapshot)
            &&& forall|i: int|
                0 <= i < flats.len() ==> is_well_formed(#[trigger] flats[i]) && is_within(
                    flats[i],
                    limits,
                )
        }),
    decreases flats.len(),
{
    if flats.len() > 0 {
        let kept = normalize::visited_all(flats, progress, snapshot, limits).0->Ok_0;
        let first = normalize::visited(flats[0], progress, snapshot, limits);
        let after = normalize::advanced(flats[0], progress, first.1);
        let rest = flats.drop_first();
        law_visits_keep_or_say_why(flats[0], progress, snapshot, limits);
        law_visits_keep_every_symbol(rest, after, snapshot, limits);
        let later = normalize::visited_all(rest, after, snapshot, limits).0->Ok_0;
        assert forall|i: int| 0 <= i < kept.len() implies is_normal_form(
            #[trigger] kept[i],
            flats[i],
            snapshot,
        ) by {
            if i > 0 {
                assert(kept[i] == later[i - 1]);
                assert(rest[i - 1] == flats[i]);
            }
        }
        assert forall|i: int| 0 <= i < flats.len() implies is_well_formed(#[trigger] flats[i])
            && is_within(flats[i], limits) by {
            if i > 0 {
                assert(rest[i - 1] == flats[i]);
            }
        }
    }
}

/// A normalized hierarchy holds every symbol of it, in the order in which it is
/// flattened, each in its normal form; and symbols of one raw range have one
/// byte range.
pub proof fn law_normalization_keeps_the_hierarchy(
    roots: Seq<ServerSymbolView>,
    scanned: nat,
    snapshot: Snapshot,
    limits: SymbolLimits,
)
    requires
        snapshot.bytes.len() <= u64::MAX,
        normalize::normalized(roots, scanned, snapshot, limits).0 is Ok,
    ensures
        ({
            let kept = normalize::normalized(roots, scanned, snapshot, limits).0->Ok_0;
            let flats = normalize::flattened(roots, Seq::empty(), 1);
            &&& kept.len() == node_count(roots)
            &&& kept.len() == flats.len()
            &&& kept.len() <= limits.maximum_raw_symbols
            &&& kept.len() <= limits.maximum_flattened_symbols
            &&& forall|i: int|
                0 <= i < kept.len() ==> is_normal_form(#[trigger] kept[i], flats[i], snapshot)
            &&& query_laws::is_of_one_snapshot(kept)
        }),
{
    let kept = normalize::normalized(roots, scanned, snapshot, limits).0->Ok_0;
    let flats = normalize::flattened(roots, Seq::empty(), 1);
    let progress = Progress { visited: 0, discovered: roots.len(), storage: 0, scanned };
    law_flattening_keeps_every_symbol(roots, Seq::empty(), 1);
    law_visits_keep_every_symbol(flats, progress, snapshot, limits);
    assert forall|i: int, j: int|
        #![trigger kept[i], kept[j]]
        0 <= i < kept.len() && 0 <= j < kept.len() && kept[i].lsp_range
            == kept[j].lsp_range implies kept[i].byte_range == kept[j].byte_range by {
        lemma_converted_is_unique(
            kept[i].lsp_range,
            kept[i].byte_range,
            kept[j].byte_range,
            snapshot,
        );
    }
}

/// A range converts to one byte range.
proof fn lemma_converted_is_unique(
    range: Range,
    left: ByteRange,
    right: ByteRange,
    snapshot: Snapshot,
)
    requires
        snapshot.bytes.len() <= u64::MAX,
        is_converted(range, left, snapshot),
        is_converted(range, right, snapshot),
    ensures
        left == right,
{
    let (encoding, bytes) = (snapshot.encoding, snapshot.bytes);
    let limit = bytes.len() as nat;
    position_laws::law_server_positions_are_exact(
        encoding,
        bytes,
        range.start,
        left.start,
        0,
        limit,
    );
    position_laws::law_server_positions_are_exact(
        encoding,
        bytes,
        range.start,
        right.start,
        0,
        limit,
    );
    position_laws::law_server_positions_are_exact(encoding, bytes, range.end, left.end, 0, limit);
    position_laws::law_server_positions_are_exact(encoding, bytes, range.end, right.end, 0, limit);
}

/// Whether an object has a member of some name.
pub open spec fn has_member(value: JsonView, name: Seq<char>) -> bool {
    value matches JsonView::Object(members) && exists|i: int|
        0 <= i < members.len() && (#[trigger] members[i]).0 == name
}

proof fn lemma_has_member(value: JsonView, name: Seq<char>)
    ensures
        has_member(value, name) <==> json::json_member(value, name) is Some,
{
    if let JsonView::Object(members) = value {
        lemma_member(members, name);
    }
}

proof fn lemma_member(members: Seq<(Seq<char>, JsonView)>, name: Seq<char>)
    ensures
        json::member(members, name) is Some <==> exists|i: int|
            0 <= i < members.len() && (#[trigger] members[i]).0 == name,
    decreases members.len(),
{
    if members.len() > 0 {
        let rest = members.drop_first();
        lemma_member(rest, name);
        if members[0].0 != name {
            if json::member(rest, name) is Some {
                let i = choose|i: int| 0 <= i < rest.len() && (#[trigger] rest[i]).0 == name;
                assert(members[i + 1].0 == name);
            }
            if exists|i: int| 0 <= i < members.len() && (#[trigger] members[i]).0 == name {
                let i = choose|i: int| 0 <= i < members.len() && (#[trigger] members[i]).0 == name;
                assert(rest[i - 1].0 == name);
            }
        } else {
            assert(members[0].0 == name);
        }
    }
}

/// Nothing and an empty list have no symbols. A list whose every record has a
/// `location` is refused as flat, and one whose every record has a `range` and a
/// `selectionRange` is normalized as decoded; anything else is malformed.
pub proof fn law_only_hierarchies_are_normalized(
    response: JsonView,
    decoded: Option<Seq<ServerSymbolView>>,
    scanned: nat,
    snapshot: Snapshot,
    limits: SymbolLimits,
)
    ensures
        ({
            let outcome = normalize::normalized_response(
                response,
                decoded,
                scanned,
                snapshot,
                limits,
            );
            match response {
                JsonView::Null => outcome.0 == Ok::<Seq<SymbolView>, SymbolErrorView>(Seq::empty()),
                JsonView::Array(items) => {
                    let flat = forall|i: int|
                        0 <= i < items.len() ==> has_member(#[trigger] items[i], "location"@);
                    let nested = forall|i: int|
                        0 <= i < items.len() ==> has_member(#[trigger] items[i], "range"@)
                            && has_member(items[i], "selectionRange"@);
                    &&& items.len() == 0 ==> outcome.0 == Ok::<Seq<SymbolView>, SymbolErrorView>(
                        Seq::empty(),
                    )
                    &&& items.len() > 0 && flat ==> outcome.0 == Err::<
                        Seq<SymbolView>,
                        SymbolErrorView,
                    >(SymbolErrorView::FlatSymbolsUnsupported)
                    &&& items.len() > 0 && !flat && nested ==> match decoded {
                        Some(roots) => outcome == normalize::normalized(
                            roots,
                            scanned,
                            snapshot,
                            limits,
                        ),
                        None => outcome.0 == Err::<Seq<SymbolView>, SymbolErrorView>(
                            SymbolErrorView::MalformedDocumentSymbols,
                        ),
                    }
                    &&& items.len() > 0 && !flat && !nested ==> outcome.0 == Err::<
                        Seq<SymbolView>,
                        SymbolErrorView,
                    >(SymbolErrorView::MalformedDocumentSymbols)
                },
                _ => outcome.0 == Err::<Seq<SymbolView>, SymbolErrorView>(
                    SymbolErrorView::MalformedDocumentSymbols,
                ),
            }
        }),
{
    if let JsonView::Array(items) = response {
        assert forall|i: int| 0 <= i < items.len() implies {
            &&& has_member(#[trigger] items[i], "location"@) <==> json::json_member(
                items[i],
                "location"@,
            ) is Some
            &&& has_member(items[i], "range"@) <==> json::json_member(items[i], "range"@) is Some
            &&& has_member(items[i], "selectionRange"@) <==> json::json_member(
                items[i],
                "selectionRange"@,
            ) is Some
        } by {
            lemma_has_member(items[i], "location"@);
            lemma_has_member(items[i], "range"@);
            lemma_has_member(items[i], "selectionRange"@);
        }
    }
}

} // verus!
