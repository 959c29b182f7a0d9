//! What outlines mean: which symbols they list, and what each record says.

use vstd::prelude::*;

use crate::kinds;
use crate::kinds::{KnownSymbolKind, NormalizedSymbolKind};
use crate::outline::OutlineSymbolView;
use crate::outline_command;
use crate::position;
use crate::position_laws;
use crate::query_laws;
use crate::select_command;
use crate::selection;
use crate::symbols;
use crate::symbols::SymbolView;

verus! {

/// Whether a symbol is of one of the requested kinds; without any request,
/// every symbol is wanted.
pub open spec fn is_requested(requested: Seq<KnownSymbolKind>) -> spec_fn(SymbolView) -> bool {
    |symbol: SymbolView|
        requested.len() == 0 || exists|i: int|
            0 <= i < requested.len() && symbol.kind == NormalizedSymbolKind::Known(
                #[trigger] requested[i],
            )
}

/// An outline lists one symbol of each record whose kind was requested, and no
/// other, in the order of their ranges.
pub proof fn law_outlines_list_the_requested(
    list: Seq<SymbolView>,
    requested: Seq<KnownSymbolKind>,
)
    ensures
        query_laws::is_census(
            outline_command::filtered(symbols::ordered_unique(list), requested),
            list,
            is_requested(requested),
        ),
        outline_command::filtered(symbols::ordered_unique(list), requested).len() <= list.len(),
{
    let wanted = is_requested(requested);
    let passing = |symbol: SymbolView| outline_command::passes(symbol.kind, requested);
    let candidates = symbols::ordered_unique(list);
    let picked = candidates.filter(passing);
    let all = |symbol: SymbolView| true;
    query_laws::lemma_filter_all(list);
    query_laws::lemma_candidates_are_a_census(list, all, list);
    candidates.filter_lemma(passing);
    candidates.lemma_filter_len(passing);
    let places = query_laws::lemma_filter_places(candidates, passing);
    assert forall|i: int| 0 <= i < picked.len() implies wanted(#[trigger] picked[i])
        && list.contains(picked[i]) by {
        assert(passing(picked[i]));
        assert(picked[i] == candidates[places[i]]);
        let origin = query_laws::lemma_census_origin(candidates, list, all, places[i]);
        assert(list[origin] == picked[i]);
    }
    assert forall|k: int| 0 <= k < list.len() && wanted(#[trigger] list[k]) implies exists|i: int|
        0 <= i < picked.len() && query_laws::is_same_record(list[k], #[trigger] picked[i]) by {
        assert(all(list[k]));
        let j = query_laws::lemma_census_record(candidates, list, all, k);
        assert(passing(candidates[j]));
        assert(picked.contains(candidates[j]));
        let i = choose|i: int| 0 <= i < picked.len() && picked[i] == candidates[j];
        assert(query_laws::is_same_record(list[k], picked[i]));
    }
    assert forall|i: int, j: int|
        #![trigger picked[i], picked[j]]
        0 <= i < j < picked.len() implies !query_laws::is_same_record(picked[i], picked[j]) && (
    picked[i].byte_range.start < picked[j].byte_range.start || (picked[i].byte_range.start
        == picked[j].byte_range.start && picked[i].byte_range.end
        <= picked[j].byte_range.end)) by {
        query_laws::lemma_census_order(candidates, list, all, places[i], places[j]);
    }
    query_laws::lemma_census(picked, list, wanted);
}

/// Whether a record describes a symbol: its name, kind, breadcrumb, depth,
/// detail, and ranges, with the lines and columns of its first byte and of the
/// byte after its last.
pub open spec fn describes(
    record: OutlineSymbolView,
    symbol: SymbolView,
    bytes: Seq<u8>,
) -> bool {
    &&& record.name == symbol.name
    &&& selection::result_kind_text(record.symbol_kind) == kinds::normalized_kind_text(symbol.kind)
    &&& record.symbol_path == symbol.symbol_path
    &&& 0 < symbol.symbol_path.len() <= u64::MAX ==> record.depth == symbol.symbol_path.len() - 1
    &&& record.detail == symbol.detail
    &&& record.start_column matches Some(column) && position_laws::is_user_place(
        bytes,
        record.start_line as int,
        column as int,
        symbol.byte_range.start as int,
    )
    &&& record.end_column matches Some(column) ==> position_laws::is_user_place(
        bytes,
        record.end_line as int,
        column as int,
        symbol.byte_range.end as int,
    )
    &&& record.end_column is None ==> !position_laws::is_place(bytes, symbol.byte_range.end as int)
    &&& record.lsp_range.start.line == symbol.lsp_range.start.line
    &&& record.lsp_range.start.character == symbol.lsp_range.start.character
    &&& record.lsp_range.end.line == symbol.lsp_range.end.line
    &&& record.lsp_range.end.character == symbol.lsp_range.end.character
    &&& record.lsp_selection_range.start.line == symbol.lsp_selection_range.start.line
    &&& record.lsp_selection_range.start.character == symbol.lsp_selection_range.start.character
    &&& record.lsp_selection_range.end.line == symbol.lsp_selection_range.end.line
    &&& record.lsp_selection_range.end.character == symbol.lsp_selection_range.end.character
    &&& record.selector.start == symbol.byte_range.start
    &&& record.selector.end == symbol.byte_range.end
}

/// A record describes its symbol.
pub proof fn law_records_describe_their_symbols(
    symbol: SymbolView,
    bytes: Seq<u8>,
    scanned: nat,
    limit: nat,
)
    requires
        bytes.len() <= u64::MAX,
        outline_command::outlined(symbol, bytes, scanned, limit).0 is Ok,
    ensures
        describes(
            outline_command::outlined(symbol, bytes, scanned, limit).0->Ok_0,
            symbol,
            bytes,
        ),
{
    let record = outline_command::outlined(symbol, bytes, scanned, limit).0->Ok_0;
    let range = symbol.byte_range;
    let after = position::byte_to_user(bytes, range.start as int, scanned, limit).1;
    select_command::law_wire_kinds_keep_their_spelling(symbol.kind);
    position_laws::law_offsets_have_exact_coordinates(
        bytes,
        range.start,
        record.start_line,
        record.start_column,
        scanned,
        limit,
    );
    position_laws::law_offsets_have_exact_coordinates(
        bytes,
        range.end,
        record.end_line,
        record.end_column,
        after,
        limit,
    );
}

/// The records of symbols describe every one of them, in order.
pub proof fn law_outlines_describe_every_symbol(
    list: Seq<SymbolView>,
    bytes: Seq<u8>,
    scanned: nat,
    limit: nat,
)
    requires
        bytes.len() <= u64::MAX,
        outline_command::outlined_all(list, bytes, scanned, limit) is Ok,
    ensures
        ({
            let records = outline_command::outlined_all(list, bytes, scanned, limit)->Ok_0;
            &&& records.len() == list.len()
            &&& forall|i: int|
                0 <= i < records.len() ==> describes(#[trigger] records[i], list[i], bytes)
        }),
    decreases list.len(),
{
    if list.len() > 0 {
        let records = outline_command::outlined_all(list, bytes, scanned, limit)->Ok_0;
        let (first, total) = outline_command::outlined(list[0], bytes, scanned, limit);
        let rest = list.drop_first();
        law_records_describe_their_symbols(list[0], bytes, scanned, limit);
        law_outlines_describe_every_symbol(rest, bytes, total, limit);
        let later = outline_command::outlined_all(rest, bytes, total, limit)->Ok_0;
        assert forall|i: int| 0 <= i < records.len() implies describes(
            #[trigger] records[i],
            list[i],
            bytes,
        ) by {
            if i > 0 {
                assert(records[i] == later[i - 1]);
                assert(rest[i - 1] == list[i]);
            }
        }
    }
}

} // verus!
