//! Declaration extents, and name and position queries over normalized symbols.

use vstd::prelude::*;

use crate::kinds;
use crate::kinds::{kind_matches, KnownSymbolKind};
use crate::order;
use crate::position;
use crate::position::ByteRange;
use crate::symbols;
use crate::symbols::{
    copy_optional_text, copy_path, prepare_candidates, AmbiguityCandidate, CandidateView,
    MatchMode, MatchView, NormalizedSymbol, SelectionExtent, SymbolError, SymbolErrorView,
    SymbolLimits, SymbolMatch, SymbolView,
};
use crate::text;
use crate::text::text_equal;

verus! {

/// Whether a byte is CR or LF.
pub open spec fn is_line_break(byte: u8) -> bool {
    byte == 13 || byte == 10
}

/// Whether a byte is a space or a tab.
pub open spec fn is_indent(byte: u8) -> bool {
    byte == 32 || byte == 9
}

/// The offset after the last line break before `offset`, or the snapshot start.
pub open spec fn line_begin(bytes: Seq<u8>, offset: int) -> int
    decreases offset,
{
    if offset <= 0 {
        0
    } else if is_line_break(bytes[offset - 1]) {
        offset
    } else {
        line_begin(bytes, offset - 1)
    }
}

/// The first offset at or after `offset` that holds neither space nor tab.
pub open spec fn after_indent(bytes: Seq<u8>, offset: int) -> int
    decreases bytes.len() - offset,
{
    if offset >= bytes.len() || !is_indent(bytes[offset]) {
        offset
    } else {
        after_indent(bytes, offset + 1)
    }
}

/// Where a declaration begins when its line holds only indentation before it.
pub open spec fn expanded_start(bytes: Seq<u8>, start: int) -> int {
    let begin = line_begin(bytes, start);
    if forall|i: int| begin <= i < start ==> is_indent(#[trigger] bytes[i]) {
        begin
    } else {
        start
    }
}

/// Where a declaration ends when only indentation separates it from its line's
/// terminator or from the end of the snapshot.
pub open spec fn line_end_after(bytes: Seq<u8>, end: int) -> int {
    let next = after_indent(bytes, end);
    if next >= bytes.len() {
        next
    } else if bytes[next] == 13 && next + 1 < bytes.len() && bytes[next + 1] == 10 {
        next + 2
    } else if is_line_break(bytes[next]) {
        next + 1
    } else {
        end
    }
}

/// Where a declaration ends; one that already ends with a line break stays.
pub open spec fn expanded_end(bytes: Seq<u8>, end: int) -> int {
    if is_line_break(bytes[end - 1]) {
        end
    } else {
        line_end_after(bytes, end)
    }
}

/// Whether a range is a nonempty span of whole scalar values.
pub open spec fn is_selectable(bytes: Seq<u8>, range: ByteRange) -> bool {
    &&& range.start < range.end <= bytes.len()
    &&& position::is_boundary(bytes, range.start as int)
    &&& position::is_boundary(bytes, range.end as int)
}

/// The range that an extent selects for a symbol's range, if it is selectable.
pub open spec fn extended(bytes: Seq<u8>, range: ByteRange, extent: SelectionExtent) -> Option<
    ByteRange,
> {
    if !is_selectable(bytes, range) {
        None
    } else {
        match extent {
            SelectionExtent::Symbol => Some(range),
            SelectionExtent::DeclarationLines => Some(
                ByteRange {
                    start: expanded_start(bytes, range.start as int) as u64,
                    end: expanded_end(bytes, range.end as int) as u64,
                },
            ),
        }
    }
}

/// A line begins at or before any of its offsets.
pub proof fn lemma_line_begin(bytes: Seq<u8>, offset: int)
    requires
        0 <= offset,
    ensures
        0 <= line_begin(bytes, offset) <= offset,
        line_begin(bytes, offset) > 0 ==> is_line_break(bytes[line_begin(bytes, offset) - 1]),
        forall|i: int|
            line_begin(bytes, offset) <= i < offset ==> !is_line_break(#[trigger] bytes[i]),
    decreases offset,
{
    if offset > 0 && !is_line_break(bytes[offset - 1]) {
        lemma_line_begin(bytes, offset - 1);
    }
}

/// Indentation ends at or after its offset.
pub proof fn lemma_after_indent(bytes: Seq<u8>, offset: int)
    requires
        0 <= offset <= bytes.len(),
    ensures
        offset <= after_indent(bytes, offset) <= bytes.len(),
        forall|i: int|
            offset <= i < after_indent(bytes, offset) ==> is_indent(#[trigger] bytes[i]),
        after_indent(bytes, offset) < bytes.len() ==> !is_indent(
            bytes[after_indent(bytes, offset)],
        ),
    decreases bytes.len() - offset,
{
    if offset < bytes.len() && is_indent(bytes[offset]) {
        lemma_after_indent(bytes, offset + 1);
    }
}

/// Returns whether an offset of a text does not split a scalar value.
pub fn is_text_boundary(bytes: &[u8], offset: usize) -> (boundary: bool)
    requires
        offset <= bytes@.len(),
    ensures
        boundary == position::is_boundary(bytes@, offset as int),
{
    offset == bytes.len() || bytes[offset] < 128 || bytes[offset] >= 192
}

/// Returns where a declaration that ends at `end` ends with its line.
pub fn declaration_line_end(bytes: &[u8], end: usize) -> (line_end: usize)
    requires
        end <= bytes@.len(),
    ensures
        line_end == line_end_after(bytes@, end as int),
        end <= line_end <= bytes@.len(),
{
    let mut cursor: usize = end;
    while cursor < bytes.len() && (bytes[cursor] == 32 || bytes[cursor] == 9)
        invariant
            end <= cursor <= bytes@.len(),
            after_indent(bytes@, end as int) == after_indent(bytes@, cursor as int),
        decreases bytes@.len() - cursor,
    {
        cursor = cursor + 1;
    }
    if cursor >= bytes.len() {
        return cursor;
    }
    if bytes[cursor] == 13 {
        if cursor + 1 < bytes.len() && bytes[cursor + 1] == 10 {
            return cursor + 2;
        }
        return cursor + 1;
    }
    if bytes[cursor] == 10 {
        return cursor + 1;
    }
    end
}

/// Returns where a declaration that begins at `start` begins with its line.
fn declaration_line_start(bytes: &[u8], start: usize) -> (line_start: usize)
    requires
        start <= bytes@.len(),
    ensures
        line_start == expanded_start(bytes@, start as int),
        line_start <= start,
{
    let mut begin: usize = start;
    let mut only_indent = true;
    while begin > 0 && bytes[begin - 1] != 13 && bytes[begin - 1] != 10
        invariant
            begin <= start <= bytes@.len(),
            line_begin(bytes@, start as int) == line_begin(bytes@, begin as int),
            only_indent == (forall|i: int| begin <= i < start ==> is_indent(#[trigger] bytes@[i])),
        decreases begin,
    {
        if bytes[begin - 1] != 32 && bytes[begin - 1] != 9 {
            assert(!is_indent(bytes@[begin - 1]));
            only_indent = false;
        }
        begin = begin - 1;
    }
    if only_indent {
        begin
    } else {
        start
    }
}

/// Applies the selected declaration extent to a validated nonempty byte range.
///
/// `DeclarationLines` expands through spaces and tabs only. It preserves LF,
/// CRLF, lone CR, and an absent final terminator byte-for-byte.
///
/// # Errors
///
/// Returns [`SymbolError::InvalidExtent`] when the input is empty, reversed,
/// outside the snapshot, or not on UTF-8 boundaries.
pub fn apply_extent(snapshot: &str, range: ByteRange, extent: SelectionExtent) -> (selected: Result<
    ByteRange,
    SymbolError,
>)
    ensures
        match extended(text::utf8(snapshot@), range, extent) {
            Some(expected) => selected == Ok::<ByteRange, SymbolError>(expected),
            None => selected == Err::<ByteRange, SymbolError>(SymbolError::InvalidExtent),
        },
{
    let bytes: &[u8] = snapshot.as_bytes();
    let length: u64 = bytes.len() as u64;
    if range.start >= range.end || range.end > length {
        return Err(SymbolError::InvalidExtent);
    }
    let start: usize = range.start as usize;
    let end: usize = range.end as usize;
    if !is_text_boundary(bytes, start) || !is_text_boundary(bytes, end) {
        return Err(SymbolError::InvalidExtent);
    }
    match extent {
        SelectionExtent::Symbol => Ok(range),
        SelectionExtent::DeclarationLines => {
            let line_start: usize = declaration_line_start(bytes, start);
            let line_end: usize = if bytes[end - 1] == 13 || bytes[end - 1] == 10 {
                end
            } else {
                declaration_line_end(bytes, end)
            };
            Ok(ByteRange { start: line_start as u64, end: line_end as u64 })
        },
    }
}

/// The match of one candidate.
pub open spec fn match_of(symbol: SymbolView, bytes: Seq<u8>, extent: SelectionExtent) -> MatchView {
    MatchView {
        name: symbol.name,
        detail: symbol.detail,
        kind: symbol.kind,
        symbol_path: symbol.symbol_path,
        lsp_range: symbol.lsp_range,
        lsp_selection_range: symbol.lsp_selection_range,
        symbol_range: symbol.byte_range,
        selected_range: extended(bytes, symbol.byte_range, extent)->Some_0,
        extent,
    }
}

/// The diagnostic candidate of a symbol.
pub open spec fn candidate_of(symbol: SymbolView) -> CandidateView {
    CandidateView {
        name: symbol.name,
        kind: symbol.kind,
        symbol_path: symbol.symbol_path,
        byte_range: symbol.byte_range,
    }
}

/// The lesser of a length and a bound.
pub open spec fn at_most(length: nat, bound: usize) -> nat {
    if length <= bound {
        length
    } else {
        bound as nat
    }
}

/// What a query over prepared candidates resolves to.
pub open spec fn resolved(
    candidates: Seq<SymbolView>,
    bytes: Seq<u8>,
    extent: SelectionExtent,
    mode: MatchMode,
    limits: SymbolLimits,
) -> Result<Seq<MatchView>, SymbolErrorView> {
    if mode == MatchMode::All && candidates.len() > limits.maximum_matches {
        Err(
            SymbolErrorView::ResourceLimitExceeded {
                resource: "selection_matches"@,
                maximum: limits.maximum_matches as u64,
            },
        )
    } else if mode == MatchMode::Unique && candidates.len() == 0 {
        Err(SymbolErrorView::NotFound)
    } else if mode == MatchMode::Unique && candidates.len() > 1 {
        Err(
            SymbolErrorView::Ambiguous {
                total: candidates.len() as u64,
                candidates: Seq::new(
                    at_most(candidates.len(), limits.maximum_ambiguity_candidates),
                    |i: int| candidate_of(candidates[i]),
                ),
            },
        )
    } else if exists|i: int|
        0 <= i < candidates.len() && extended(bytes, (#[trigger] candidates[i]).byte_range, extent)
            is None {
        Err(SymbolErrorView::InvalidExtent)
    } else {
        Ok(Seq::new(candidates.len(), |i: int| match_of(candidates[i], bytes, extent)))
    }
}

/// Whether a resolution outcome has the given value.
pub open spec fn resolves_as(
    outcome: Result<Vec<SymbolMatch>, SymbolError>,
    expected: Result<Seq<MatchView>, SymbolErrorView>,
) -> bool {
    match outcome {
        Ok(found) => expected == Ok::<Seq<MatchView>, SymbolErrorView>(
            symbols::matches_view(found@),
        ),
        Err(error) => expected == Err::<Seq<MatchView>, SymbolErrorView>(error@),
    }
}

/// Turns prepared candidates into matches or the reason there are none.
fn finish_resolution(
    candidates: Vec<&NormalizedSymbol>,
    snapshot: &str,
    extent: SelectionExtent,
    mode: MatchMode,
    limits: SymbolLimits,
) -> (outcome: Result<Vec<SymbolMatch>, SymbolError>)
    ensures
        resolves_as(
            outcome,
            resolved(
                symbols::refs_view(candidates@),
                text::utf8(snapshot@),
                extent,
                mode,
                limits,
            ),
        ),
{
    let ghost views = symbols::refs_view(candidates@);
    let ghost bytes = text::utf8(snapshot@);
    if mode == MatchMode::All && candidates.len() > limits.maximum_matches {
        return Err(
            SymbolError::ResourceLimitExceeded {
                resource: "selection_matches",
                maximum: limits.maximum_matches as u64,
            },
        );
    }
    if mode == MatchMode::Unique {
        if candidates.len() == 0 {
            return Err(SymbolError::NotFound);
        }
        if candidates.len() > 1 {
            let count: usize = if candidates.len() <= limits.maximum_ambiguity_candidates {
                candidates.len()
            } else {
                limits.maximum_ambiguity_candidates
            };
            let mut diagnostics: Vec<AmbiguityCandidate> = Vec::new();
            let mut index: usize = 0;
            while index < count
                invariant
                    views == symbols::refs_view(candidates@),
                    count <= candidates@.len(),
                    index <= count,
                    diagnostics@.len() == index,
                    forall|i: int|
                        0 <= i < index ==> (#[trigger] diagnostics@[i])@ == candidate_of(views[i]),
                decreases count - index,
            {
                let symbol: &NormalizedSymbol = candidates[index];
                diagnostics.push(
                    AmbiguityCandidate {
                        name: symbol.name.clone(),
                        kind: symbol.kind,
                        symbol_path: copy_path(&symbol.symbol_path),
                        byte_range: symbol.byte_range,
                    },
                );
                assert(diagnostics@[index as int]@ =~= candidate_of(views[index as int]));
                index = index + 1;
            }
            assert(symbols::candidates_view(diagnostics@) =~= Seq::new(
                at_most(views.len(), limits.maximum_ambiguity_candidates),
                |i: int| candidate_of(views[i]),
            ));
            return Err(
                SymbolError::Ambiguous {
                    total: candidates.len() as u64,
                    candidates: diagnostics,
                },
            );
        }
    }
    let mut found: Vec<SymbolMatch> = Vec::new();
    let mut index: usize = 0;
    while index < candidates.len()
        invariant
            views == symbols::refs_view(candidates@),
            bytes == text::utf8(snapshot@),
            !(mode == MatchMode::All && views.len() > limits.maximum_matches),
            !(mode == MatchMode::Unique && views.len() != 1),
            index <= candidates@.len(),
            found@.len() == index,
            forall|i: int|
                0 <= i < index ==> extended(bytes, (#[trigger] views[i]).byte_range, extent)
                    is Some,
            forall|i: int|
                0 <= i < index ==> (#[trigger] found@[i])@ == match_of(views[i], bytes, extent),
        decreases candidates@.len() - index,
    {
        let symbol: &NormalizedSymbol = candidates[index];
        assert(views[index as int] == symbol@);
        let selected_range = match apply_extent(snapshot, symbol.byte_range, extent) {
            Ok(selected_range) => selected_range,
            Err(error) => return Err(error),
        };
        found.push(
            SymbolMatch {
                name: symbol.name.clone(),
                detail: copy_optional_text(&symbol.detail),
                kind: symbol.kind,
                symbol_path: copy_path(&symbol.symbol_path),
                lsp_range: symbol.lsp_range,
                lsp_selection_range: symbol.lsp_selection_range,
                symbol_range: symbol.byte_range,
                selected_range,
                extent,
            },
        );
        assert(found@[index as int]@ =~= match_of(views[index as int], bytes, extent));
        index = index + 1;
    }
    assert(symbols::matches_view(found@) =~= Seq::new(
        views.len(),
        |i: int| match_of(views[i], bytes, extent),
    ));
    Ok(found)
}

/// Whether a symbol answers a name query.
pub open spec fn answers_name(
    symbol: SymbolView,
    name: Seq<char>,
    kind: Option<KnownSymbolKind>,
) -> bool {
    symbol.name == name && kinds::kind_passes(symbol.kind, kind)
}

/// The symbols that answer a name query, in server order.
pub open spec fn named(
    symbols: Seq<SymbolView>,
    name: Seq<char>,
    kind: Option<KnownSymbolKind>,
) -> Seq<SymbolView> {
    symbols.filter(|symbol: SymbolView| answers_name(symbol, name, kind))
}

/// Resolves an exact, case-sensitive name query.
///
/// Duplicate records are removed by `(range, kind, symbol_path, name)` before
/// unique-or-all behavior is applied. Results use deterministic candidate order.
///
/// # Errors
///
/// Returns [`SymbolError::NotFound`] or [`SymbolError::Ambiguous`] in unique
/// mode, or [`SymbolError::InvalidExtent`] if line expansion is invalid.
pub fn resolve_name(
    symbols: &[NormalizedSymbol],
    snapshot: &str,
    name: &str,
    kind: Option<KnownSymbolKind>,
    extent: SelectionExtent,
    mode: MatchMode,
    limits: SymbolLimits,
) -> (outcome: Result<Vec<SymbolMatch>, SymbolError>)
    ensures
        resolves_as(
            outcome,
            resolved(
                symbols::ordered_unique(named(symbols::symbols_view(symbols@), name@, kind)),
                text::utf8(snapshot@),
                extent,
                mode,
                limits,
            ),
        ),
{
    let ghost views = symbols::symbols_view(symbols@);
    let ghost answers = |symbol: SymbolView| answers_name(symbol, name@, kind);
    let mut chosen: Vec<&NormalizedSymbol> = Vec::new();
    let mut index: usize = 0;
    proof {
        reveal(Seq::filter);
        assert(views.take(0) =~= Seq::<SymbolView>::empty());
        assert(symbols::refs_view(chosen@) =~= Seq::<SymbolView>::empty());
    }
    while index < symbols.len()
        invariant
            views == symbols::symbols_view(symbols@),
            answers == (|symbol: SymbolView| answers_name(symbol, name@, kind)),
            index <= symbols@.len(),
            symbols::refs_view(chosen@) == views.take(index as int).filter(answers),
        decreases symbols@.len() - index,
    {
        let symbol: &NormalizedSymbol = &symbols[index];
        let ghost before = symbols::refs_view(chosen@);
        proof {
            reveal(Seq::filter);
            assert(views.take(index + 1).drop_last() =~= views.take(index as int));
            assert(views.take(index + 1).last() == symbol@);
        }
        if text_equal(symbol.name.as_str(), name) && kind_matches(symbol.kind, kind) {
            chosen.push(symbol);
            assert(symbols::refs_view(chosen@) =~= before.push(symbol@));
        }
        index = index + 1;
    }
    assert(views.take(index as int) =~= views);
    let candidates = prepare_candidates(chosen);
    finish_resolution(candidates, snapshot, extent, mode, limits)
}

/// Whether a range holds an insertion offset; a range that ends at the end of
/// the file also holds that end.
pub open spec fn holds_position(range: ByteRange, offset: u64, file_length: u64) -> bool {
    ||| range.start <= offset < range.end
    ||| offset == file_length && range.end == file_length && range.start < range.end
}

/// Whether a symbol answers a position query.
pub open spec fn answers_position(
    symbol: SymbolView,
    offset: u64,
    file_length: u64,
    kind: Option<KnownSymbolKind>,
) -> bool {
    kinds::kind_passes(symbol.kind, kind) && holds_position(symbol.byte_range, offset, file_length)
}

/// The symbols that answer a position query, in server order.
pub open spec fn containing(
    symbols: Seq<SymbolView>,
    offset: u64,
    file_length: u64,
    kind: Option<KnownSymbolKind>,
) -> Seq<SymbolView> {
    symbols.filter(|symbol: SymbolView| answers_position(symbol, offset, file_length, kind))
}

/// The length of a candidate's enclosing range.
pub open spec fn span(symbol: SymbolView) -> int {
    symbol.byte_range.end - symbol.byte_range.start
}

/// Whether a length is the least among candidates.
pub open spec fn is_shortest(candidates: Seq<SymbolView>, length: int) -> bool {
    forall|i: int| 0 <= i < candidates.len() ==> length <= span(#[trigger] candidates[i])
}

/// The candidates with the shortest enclosing range, in candidate order.
pub open spec fn innermost(candidates: Seq<SymbolView>) -> Seq<SymbolView> {
    candidates.filter(|symbol: SymbolView| is_shortest(candidates, span(symbol)))
}

/// The candidates of a position query: all of them for discovery, and the
/// innermost where one is required.
pub open spec fn position_candidates(candidates: Seq<SymbolView>, mode: MatchMode) -> Seq<
    SymbolView,
> {
    match mode {
        MatchMode::All => candidates,
        MatchMode::Unique => innermost(candidates),
    }
}

/// Returns whether a range holds an insertion offset.
fn contains_position(range: ByteRange, offset: u64, file_length: u64) -> (holds: bool)
    ensures
        holds == holds_position(range, offset, file_length),
{
    (range.start <= offset && offset < range.end) || (offset == file_length && range.end
        == file_length && range.start < range.end)
}

/// Keeps the candidates with the shortest enclosing range.
fn keep_innermost<'a>(candidates: Vec<&'a NormalizedSymbol>) -> (kept: Vec<&'a NormalizedSymbol>)
    requires
        forall|i: int|
            0 <= i < candidates@.len() ==> (#[trigger] candidates@[i]).byte_range.start
                <= candidates@[i].byte_range.end,
    ensures
        symbols::refs_view(kept@) == innermost(symbols::refs_view(candidates@)),
{
    let ghost views = symbols::refs_view(candidates@);
    let ghost shortest_test = |symbol: SymbolView| is_shortest(views, span(symbol));
    let mut kept: Vec<&'a NormalizedSymbol> = Vec::new();
    if candidates.len() == 0 {
        proof {
            reveal(Seq::filter);
            assert(symbols::refs_view(kept@) =~= innermost(views));
        }
        return kept;
    }
    let mut shortest: u64 = candidates[0].byte_range.end - candidates[0].byte_range.start;
    let mut index: usize = 1;
    let ghost mut holder: int = 0;
    assert(views[0] == candidates@[0]@);
    while index < candidates.len()
        invariant
            views == symbols::refs_view(candidates@),
            forall|i: int|
                0 <= i < candidates@.len() ==> (#[trigger] candidates@[i]).byte_range.start
                    <= candidates@[i].byte_range.end,
            index <= candidates@.len(),
            0 <= holder < candidates@.len(),
            shortest == span(views[holder]),
            forall|i: int| 0 <= i < index ==> shortest <= span(#[trigger] views[i]),
        decreases candidates@.len() - index,
    {
        let range = candidates[index].byte_range;
        assert(views[index as int] == candidates@[index as int]@);
        let length: u64 = range.end - range.start;
        if length < shortest {
            shortest = length;
            proof {
                holder = index as int;
            }
        }
        index = index + 1;
    }
    assert(is_shortest(views, shortest as int));
    let mut position: usize = 0;
    proof {
        reveal(Seq::filter);
        assert(views.take(0) =~= Seq::<SymbolView>::empty());
        assert(symbols::refs_view(kept@) =~= Seq::<SymbolView>::empty());
    }
    while position < candidates.len()
        invariant
            views == symbols::refs_view(candidates@),
            shortest_test == (|symbol: SymbolView| is_shortest(views, span(symbol))),
            forall|i: int|
                0 <= i < candidates@.len() ==> (#[trigger] candidates@[i]).byte_range.start
                    <= candidates@[i].byte_range.end,
            position <= candidates@.len(),
            0 <= holder < candidates@.len(),
            shortest == span(views[holder]),
            is_shortest(views, shortest as int),
            symbols::refs_view(kept@) == views.take(position as int).filter(shortest_test),
        decreases candidates@.len() - position,
    {
        let symbol: &'a NormalizedSymbol = candidates[position];
        let ghost before = symbols::refs_view(kept@);
        proof {
            reveal(Seq::filter);
            assert(views[position as int] == symbol@);
            assert(views.take(position + 1).drop_last() =~= views.take(position as int));
            assert(views.take(position + 1).last() == symbol@);
            assert(is_shortest(views, span(symbol@)) == (span(symbol@) == shortest)) by {
                if is_shortest(views, span(symbol@)) {
                    assert(span(symbol@) <= span(views[holder]));
                }
                assert(shortest <= span(views[position as int]));
            }
        }
        if symbol.byte_range.end - symbol.byte_range.start == shortest {
            kept.push(symbol);
            assert(symbols::refs_view(kept@) =~= before.push(symbol@));
        }
        position = position + 1;
    }
    assert(views.take(position as int) =~= views);
    kept
}

/// What a position query resolves to.
pub open spec fn position_resolved(
    symbols: Seq<SymbolView>,
    bytes: Seq<u8>,
    offset: u64,
    kind: Option<KnownSymbolKind>,
    extent: SelectionExtent,
    mode: MatchMode,
    limits: SymbolLimits,
) -> Result<Seq<MatchView>, SymbolErrorView> {
    if offset > bytes.len() || !position::is_boundary(bytes, offset as int) {
        Err(SymbolErrorView::QueryPositionOutOfBounds)
    } else {
        resolved(
            position_candidates(
                symbols::ordered_unique(containing(symbols, offset, bytes.len() as u64, kind)),
                mode,
            ),
            bytes,
            extent,
            mode,
            limits,
        )
    }
}

/// Resolves symbols containing a validated snapshot byte insertion offset.
///
/// Unique mode retains only the shortest containing range and reports equally
/// short distinct symbols as ambiguous. All mode returns every containing
/// symbol in the frozen start/end/kind/path/name candidate order.
///
/// # Errors
///
/// Returns [`SymbolError::QueryPositionOutOfBounds`] for an offset past EOF,
/// [`SymbolError::NotFound`] or [`SymbolError::Ambiguous`] in unique mode, or
/// [`SymbolError::InvalidExtent`] if line expansion is invalid.
pub fn resolve_position(
    symbols: &[NormalizedSymbol],
    snapshot: &str,
    byte_offset: u64,
    kind: Option<KnownSymbolKind>,
    extent: SelectionExtent,
    mode: MatchMode,
    limits: SymbolLimits,
) -> (outcome: Result<Vec<SymbolMatch>, SymbolError>)
    ensures
        resolves_as(
            outcome,
            position_resolved(
                symbols::symbols_view(symbols@),
                text::utf8(snapshot@),
                byte_offset,
                kind,
                extent,
                mode,
                limits,
            ),
        ),
{
    let bytes: &[u8] = snapshot.as_bytes();
    let file_length: u64 = bytes.len() as u64;
    if byte_offset > file_length || !is_text_boundary(bytes, byte_offset as usize) {
        return Err(SymbolError::QueryPositionOutOfBounds);
    }
    let ghost views = symbols::symbols_view(symbols@);
    let ghost answers = |symbol: SymbolView|
        answers_position(symbol, byte_offset, file_length, kind);
    let mut chosen: Vec<&NormalizedSymbol> = Vec::new();
    let mut index: usize = 0;
    proof {
        reveal(Seq::filter);
        assert(views.take(0) =~= Seq::<SymbolView>::empty());
        assert(symbols::refs_view(chosen@) =~= Seq::<SymbolView>::empty());
    }
    while index < symbols.len()
        invariant
            views == symbols::symbols_view(symbols@),
            answers == (|symbol: SymbolView|
                answers_position(symbol, byte_offset, file_length, kind)),
            index <= symbols@.len(),
            symbols::refs_view(chosen@) == views.take(index as int).filter(answers),
            forall|i: int|
                0 <= i < chosen@.len() ==> (#[trigger] chosen@[i]).byte_range.start
                    < chosen@[i].byte_range.end,
        decreases symbols@.len() - index,
    {
        let symbol: &NormalizedSymbol = &symbols[index];
        let ghost before = symbols::refs_view(chosen@);
        proof {
            reveal(Seq::filter);
            assert(views.take(index + 1).drop_last() =~= views.take(index as int));
            assert(views.take(index + 1).last() == symbol@);
        }
        if kind_matches(symbol.kind, kind) && contains_position(
            symbol.byte_range,
            byte_offset,
            file_length,
        ) {
            chosen.push(symbol);
            assert(symbols::refs_view(chosen@) =~= before.push(symbol@));
        }
        index = index + 1;
    }
    assert(views.take(index as int) =~= views);
    let ghost picked = symbols::refs_view(chosen@);
    proof {
        assert forall|i: int| 0 <= i < picked.len() implies (#[trigger] picked[i]).byte_range.start
            < picked[i].byte_range.end by {
            assert(picked[i] == chosen@[i]@);
        }
        lemma_ordered_unique_keeps(picked);
    }
    let candidates = prepare_candidates(chosen);
    proof {
        let prepared = symbols::refs_view(candidates@);
        assert forall|i: int| 0 <= i < candidates@.len() implies (
        #[trigger] candidates@[i]).byte_range.start <= candidates@[i].byte_range.end by {
            assert(prepared[i] == candidates@[i]@);
            assert(prepared.contains(prepared[i]));
            assert(picked.contains(prepared[i]));
        }
    }
    let candidates = match mode {
        MatchMode::Unique => keep_innermost(candidates),
        MatchMode::All => candidates,
    };
    finish_resolution(candidates, snapshot, extent, mode, limits)
}

/// Inserting keeps every symbol and adds one.
proof fn lemma_inserted_keeps(list: Seq<SymbolView>, symbol: SymbolView)
    ensures
        forall|x: SymbolView| #[trigger]
            symbols::inserted(list, symbol).contains(x) <==> list.contains(x) || x == symbol,
    decreases list.len(),
{
    let result = symbols::inserted(list, symbol);
    if list.len() == 0 || symbols::rank_symbols(list.last(), symbol) != order::Rank::Greater {
        assert forall|x: SymbolView| #[trigger] result.contains(x) <==> list.contains(x) || x
            == symbol by {
            lemma_push_contains(list, symbol, x);
        }
    } else {
        lemma_inserted_keeps(list.drop_last(), symbol);
        let shorter = symbols::inserted(list.drop_last(), symbol);
        assert(list =~= list.drop_last().push(list.last()));
        assert forall|x: SymbolView| #[trigger] result.contains(x) <==> list.contains(x) || x
            == symbol by {
            lemma_push_contains(shorter, list.last(), x);
            lemma_push_contains(list.drop_last(), list.last(), x);
        }
    }
}

proof fn lemma_push_contains(list: Seq<SymbolView>, symbol: SymbolView, x: SymbolView)
    ensures
        list.push(symbol).contains(x) <==> list.contains(x) || x == symbol,
{
    let longer = list.push(symbol);
    if list.contains(x) {
        let i = choose|i: int| 0 <= i < list.len() && list[i] == x;
        assert(longer[i] == x);
    }
    if x == symbol {
        assert(longer[list.len() as int] == x);
    }
    if longer.contains(x) {
        let i = choose|i: int| 0 <= i < longer.len() && longer[i] == x;
        if i < list.len() {
            assert(list[i] == x);
        }
    }
}

/// Sorting keeps every symbol.
pub proof fn lemma_sorted_keeps(list: Seq<SymbolView>)
    ensures
        forall|x: SymbolView| #[trigger] symbols::sorted(list).contains(x) <==> list.contains(x),
    decreases list.len(),
{
    if list.len() == 0 {
        assert(symbols::sorted(list) =~= list);
    } else {
        lemma_sorted_keeps(list.drop_last());
        lemma_inserted_keeps(symbols::sorted(list.drop_last()), list.last());
        assert(list =~= list.drop_last().push(list.last()));
        assert forall|x: SymbolView| #[trigger]
            symbols::sorted(list).contains(x) <==> list.contains(x) by {
            lemma_push_contains(list.drop_last(), list.last(), x);
        }
    }
}

/// Deduplication keeps a record of every symbol and adds none.
pub proof fn lemma_deduplicated_keeps(list: Seq<SymbolView>)
    ensures
        forall|x: SymbolView| #[trigger]
            symbols::deduplicated(list).contains(x) ==> list.contains(x),
        forall|x: SymbolView| #[trigger]
            list.contains(x) ==> exists|y: SymbolView| #[trigger]
                symbols::deduplicated(list).contains(y) && symbols::is_duplicate(x, y),
    decreases list.len(),
{
    let kept = symbols::deduplicated(list);
    if list.len() == 0 {
        assert(kept =~= list);
    } else {
        let shorter = list.drop_last();
        let earlier = symbols::deduplicated(shorter);
        lemma_deduplicated_keeps(shorter);
        assert(list =~= shorter.push(list.last()));
        assert forall|x: SymbolView| #[trigger] kept.contains(x) implies list.contains(x) by {
            lemma_push_contains(shorter, list.last(), x);
            lemma_push_contains(earlier, list.last(), x);
        }
        assert forall|x: SymbolView| #[trigger] list.contains(x) implies exists|y: SymbolView|
            #[trigger]
            kept.contains(y) && symbols::is_duplicate(x, y) by {
            lemma_push_contains(shorter, list.last(), x);
            if shorter.contains(x) {
                let y = choose|y: SymbolView| #[trigger]
                    earlier.contains(y) && symbols::is_duplicate(x, y);
                lemma_push_contains(earlier, list.last(), y);
                assert(kept.contains(y));
            } else {
                assert(x == list.last());
                if symbols::is_repeated(earlier, x) {
                    let i = choose|i: int|
                        0 <= i < earlier.len() && symbols::is_duplicate(x, #[trigger] earlier[i]);
                    assert(kept.contains(earlier[i]));
                } else {
                    assert(kept.contains(kept.last()));
                    assert(symbols::is_duplicate(x, kept.last()));
                }
            }
        }
    }
}

/// Every candidate of the prepared list is one of the given symbols.
proof fn lemma_ordered_unique_keeps(list: Seq<SymbolView>)
    ensures
        forall|x: SymbolView| #[trigger]
            symbols::ordered_unique(list).contains(x) ==> list.contains(x),
{
    lemma_sorted_keeps(list);
    lemma_deduplicated_keeps(symbols::sorted(list));
}

} // verus!
