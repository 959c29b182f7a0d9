//! Validated document symbols and their deterministic order and resolution.

use vstd::prelude::*;
use vstd::string::StringExecFns;

use crate::kinds;
use crate::kinds::NormalizedSymbolKind;
use crate::order;
use crate::order::{
    compare_numbers, compare_optional_texts, compare_paths, compare_texts, Rank,
};
use crate::position;
use crate::position::{ByteRange, Position, PositionError, Range};
use crate::resolve;
use crate::text;
use crate::text::{push_decimal, text_equal};

verus! {

/// Default maximum number of raw document-symbol nodes accepted from a server.
pub const DEFAULT_MAXIMUM_RAW_SYMBOLS: u64 = 100_000;

/// Default maximum number of normalized symbols retained for resolution.
pub const DEFAULT_MAXIMUM_FLATTENED_SYMBOLS: u64 = 100_000;

/// Default maximum hierarchy depth, counting a root symbol as depth one.
pub const DEFAULT_MAXIMUM_SYMBOL_DEPTH: u64 = 256;

/// Default maximum UTF-8 byte length of one symbol name.
pub const DEFAULT_MAXIMUM_SYMBOL_NAME_BYTES: u64 = 4 * 1024;

/// Default maximum UTF-8 byte length of one symbol detail.
pub const DEFAULT_MAXIMUM_SYMBOL_DETAIL_BYTES: u64 = 16 * 1024;

/// Default maximum cumulative UTF-8 byte length of one symbol breadcrumb.
pub const DEFAULT_MAXIMUM_SYMBOL_PATH_BYTES: u64 = 64 * 1024;

/// Default maximum cumulative owned string bytes across normalized candidates.
pub const DEFAULT_MAXIMUM_CANDIDATE_STORAGE_BYTES: u64 = 64 * 1024 * 1024;

/// Default maximum matches representable by selection protocol v1.
pub const DEFAULT_MAXIMUM_MATCHES: usize = 1_000;

/// Default maximum number of symbols emitted by one outline response.
pub const DEFAULT_MAXIMUM_OUTLINE_SYMBOLS: usize = 10_000;

/// Default maximum number of candidates retained in an ambiguity error.
pub const DEFAULT_MAXIMUM_AMBIGUITY_CANDIDATES: usize = 50;

/// Resource bounds applied while normalizing and resolving document symbols.
#[derive(Clone, Copy, Debug, PartialEq, Eq, Structural)]
pub struct SymbolLimits {
    /// Maximum number of hierarchy nodes visited.
    pub maximum_raw_symbols: u64,
    /// Maximum number of normalized candidates retained.
    pub maximum_flattened_symbols: u64,
    /// Maximum hierarchy depth, with roots at depth one.
    pub maximum_depth: u64,
    /// Maximum UTF-8 byte length of one name.
    pub maximum_name_bytes: u64,
    /// Maximum UTF-8 byte length of one optional detail.
    pub maximum_detail_bytes: u64,
    /// Maximum cumulative UTF-8 byte length of one breadcrumb.
    pub maximum_path_bytes: u64,
    /// Maximum cumulative owned string bytes across normalized candidates.
    pub maximum_candidate_storage_bytes: u64,
    /// Maximum matches returned by all-match discovery.
    pub maximum_matches: usize,
    /// Maximum candidates included in an ambiguity error.
    pub maximum_ambiguity_candidates: usize,
}

impl Default for SymbolLimits {
    fn default() -> (limits: Self)
        ensures
            limits == (SymbolLimits {
                maximum_raw_symbols: DEFAULT_MAXIMUM_RAW_SYMBOLS,
                maximum_flattened_symbols: DEFAULT_MAXIMUM_FLATTENED_SYMBOLS,
                maximum_depth: DEFAULT_MAXIMUM_SYMBOL_DEPTH,
                maximum_name_bytes: DEFAULT_MAXIMUM_SYMBOL_NAME_BYTES,
                maximum_detail_bytes: DEFAULT_MAXIMUM_SYMBOL_DETAIL_BYTES,
                maximum_path_bytes: DEFAULT_MAXIMUM_SYMBOL_PATH_BYTES,
                maximum_candidate_storage_bytes: DEFAULT_MAXIMUM_CANDIDATE_STORAGE_BYTES,
                maximum_matches: DEFAULT_MAXIMUM_MATCHES,
                maximum_ambiguity_candidates: DEFAULT_MAXIMUM_AMBIGUITY_CANDIDATES,
            }),
    {
        SymbolLimits {
            maximum_raw_symbols: DEFAULT_MAXIMUM_RAW_SYMBOLS,
            maximum_flattened_symbols: DEFAULT_MAXIMUM_FLATTENED_SYMBOLS,
            maximum_depth: DEFAULT_MAXIMUM_SYMBOL_DEPTH,
            maximum_name_bytes: DEFAULT_MAXIMUM_SYMBOL_NAME_BYTES,
            maximum_detail_bytes: DEFAULT_MAXIMUM_SYMBOL_DETAIL_BYTES,
            maximum_path_bytes: DEFAULT_MAXIMUM_SYMBOL_PATH_BYTES,
            maximum_candidate_storage_bytes: DEFAULT_MAXIMUM_CANDIDATE_STORAGE_BYTES,
            maximum_matches: DEFAULT_MAXIMUM_MATCHES,
            maximum_ambiguity_candidates: DEFAULT_MAXIMUM_AMBIGUITY_CANDIDATES,
        }
    }
}

/// A fully validated hierarchical document symbol in snapshot byte coordinates.
#[derive(Clone, Debug, PartialEq, Eq)]
pub struct NormalizedSymbol {
    /// Unqualified name reported by the server.
    pub name: String,
    /// Optional server detail, bounded but otherwise uninterpreted.
    pub detail: Option<String>,
    /// Standardized or future numeric symbol kind.
    pub kind: NormalizedSymbolKind,
    /// Complete hierarchy breadcrumb, including this symbol.
    pub symbol_path: Vec<String>,
    /// Raw enclosing LSP range retained for audit output.
    pub lsp_range: Range,
    /// Raw LSP reveal range retained for audit output.
    pub lsp_selection_range: Range,
    /// Validated enclosing byte range used for semantic selection.
    pub byte_range: ByteRange,
    /// Validated reveal byte range, which is contained by `byte_range`.
    pub selection_byte_range: ByteRange,
}

/// The mathematical value of a [`NormalizedSymbol`].
#[verifier::ext_equal]
pub struct SymbolView {
    pub name: Seq<char>,
    pub detail: Option<Seq<char>>,
    pub kind: NormalizedSymbolKind,
    pub symbol_path: Seq<Seq<char>>,
    pub lsp_range: Range,
    pub lsp_selection_range: Range,
    pub byte_range: ByteRange,
    pub selection_byte_range: ByteRange,
}

impl View for NormalizedSymbol {
    type V = SymbolView;

    open spec fn view(&self) -> SymbolView {
        SymbolView {
            name: self.name@,
            detail: order::optional_text(self.detail),
            kind: self.kind,
            symbol_path: order::path_view(self.symbol_path@),
            lsp_range: self.lsp_range,
            lsp_selection_range: self.lsp_selection_range,
            byte_range: self.byte_range,
            selection_byte_range: self.selection_byte_range,
        }
    }
}

/// The values of a list of symbols.
pub open spec fn symbols_view(symbols: Seq<NormalizedSymbol>) -> Seq<SymbolView> {
    Seq::new(symbols.len(), |i: int| symbols[i]@)
}

/// The values of a list of borrowed symbols.
pub open spec fn refs_view(symbols: Seq<&NormalizedSymbol>) -> Seq<SymbolView> {
    Seq::new(symbols.len(), |i: int| symbols[i]@)
}

/// Whether a selected declaration is expanded to whitespace-only line edges.
#[derive(Clone, Copy, Debug, PartialEq, Eq, Structural)]
pub enum SelectionExtent {
    /// Use the server's enclosing symbol range exactly.
    Symbol,
    /// Include line indentation and a terminator when only spaces or tabs intervene.
    DeclarationLines,
}

/// Whether resolution requires one match or returns all matches for discovery.
#[derive(Clone, Copy, Debug, PartialEq, Eq, Structural)]
pub enum MatchMode {
    /// Require exactly one result after query-specific resolution.
    Unique,
    /// Return every bounded result, including an empty result.
    All,
}

/// One selected symbol with both raw LSP and authoritative byte coordinates.
#[derive(Clone, Debug, PartialEq, Eq)]
pub struct SymbolMatch {
    /// Unqualified symbol name.
    pub name: String,
    /// Optional bounded detail reported by the server.
    pub detail: Option<String>,
    /// Normalized symbol kind.
    pub kind: NormalizedSymbolKind,
    /// Complete hierarchy breadcrumb.
    pub symbol_path: Vec<String>,
    /// Raw enclosing LSP range.
    pub lsp_range: Range,
    /// Raw LSP reveal range.
    pub lsp_selection_range: Range,
    /// Validated enclosing byte range before extent expansion.
    pub symbol_range: ByteRange,
    /// Authoritative final byte selector.
    pub selected_range: ByteRange,
    /// Extent applied to produce `selected_range`.
    pub extent: SelectionExtent,
}

/// The mathematical value of a [`SymbolMatch`].
#[verifier::ext_equal]
pub struct MatchView {
    pub name: Seq<char>,
    pub detail: Option<Seq<char>>,
    pub kind: NormalizedSymbolKind,
    pub symbol_path: Seq<Seq<char>>,
    pub lsp_range: Range,
    pub lsp_selection_range: Range,
    pub symbol_range: ByteRange,
    pub selected_range: ByteRange,
    pub extent: SelectionExtent,
}

impl View for SymbolMatch {
    type V = MatchView;

    open spec fn view(&self) -> MatchView {
        MatchView {
            name: self.name@,
            detail: order::optional_text(self.detail),
            kind: self.kind,
            symbol_path: order::path_view(self.symbol_path@),
            lsp_range: self.lsp_range,
            lsp_selection_range: self.lsp_selection_range,
            symbol_range: self.symbol_range,
            selected_range: self.selected_range,
            extent: self.extent,
        }
    }
}

/// The values of a list of matches.
pub open spec fn matches_view(matches: Seq<SymbolMatch>) -> Seq<MatchView> {
    Seq::new(matches.len(), |i: int| matches[i]@)
}

/// A bounded candidate suitable for an ambiguity diagnostic.
#[derive(Clone, Debug, PartialEq, Eq)]
pub struct AmbiguityCandidate {
    /// Candidate name.
    pub name: String,
    /// Candidate kind.
    pub kind: NormalizedSymbolKind,
    /// Complete hierarchy breadcrumb.
    pub symbol_path: Vec<String>,
    /// Validated, unexpanded symbol range.
    pub byte_range: ByteRange,
}

/// The mathematical value of an [`AmbiguityCandidate`].
#[verifier::ext_equal]
pub struct CandidateView {
    pub name: Seq<char>,
    pub kind: NormalizedSymbolKind,
    pub symbol_path: Seq<Seq<char>>,
    pub byte_range: ByteRange,
}

impl View for AmbiguityCandidate {
    type V = CandidateView;

    open spec fn view(&self) -> CandidateView {
        CandidateView {
            name: self.name@,
            kind: self.kind,
            symbol_path: order::path_view(self.symbol_path@),
            byte_range: self.byte_range,
        }
    }
}

/// The values of a list of ambiguity candidates.
pub open spec fn candidates_view(candidates: Seq<AmbiguityCandidate>) -> Seq<CandidateView> {
    Seq::new(candidates.len(), |i: int| candidates[i]@)
}

/// Fail-closed document-symbol validation or resolution failure.
#[derive(Clone, Debug, PartialEq, Eq)]
pub enum SymbolError {
    /// The server returned legacy flat `SymbolInformation[]` records.
    FlatSymbolsUnsupported,
    /// The document-symbol result was neither `null` nor one homogeneous array.
    MalformedDocumentSymbols,
    /// A configured symbol resource bound was exceeded.
    ResourceLimitExceeded {
        /// Stable resource name.
        resource: &'static str,
        /// Configured maximum.
        maximum: u64,
    },
    /// Position or range conversion failed.
    Position(PositionError),
    /// A selection range was not contained by its enclosing symbol range.
    SelectionRangeNotContained,
    /// A position query was outside the immutable snapshot.
    QueryPositionOutOfBounds,
    /// No symbol matched a unique query.
    NotFound,
    /// Multiple distinct symbols remained where a unique result was required.
    Ambiguous {
        /// Total number of ambiguous candidates.
        total: u64,
        /// Deterministically ordered, bounded diagnostic candidates.
        candidates: Vec<AmbiguityCandidate>,
    },
    /// Extent expansion produced an invalid selector.
    InvalidExtent,
}

/// The mathematical value of a [`SymbolError`].
#[verifier::ext_equal]
pub enum SymbolErrorView {
    FlatSymbolsUnsupported,
    MalformedDocumentSymbols,
    ResourceLimitExceeded { resource: Seq<char>, maximum: u64 },
    Position(PositionError),
    SelectionRangeNotContained,
    QueryPositionOutOfBounds,
    NotFound,
    Ambiguous { total: u64, candidates: Seq<CandidateView> },
    InvalidExtent,
}

impl View for SymbolError {
    type V = SymbolErrorView;

    open spec fn view(&self) -> SymbolErrorView {
        match *self {
            SymbolError::FlatSymbolsUnsupported => SymbolErrorView::FlatSymbolsUnsupported,
            SymbolError::MalformedDocumentSymbols => SymbolErrorView::MalformedDocumentSymbols,
            SymbolError::ResourceLimitExceeded {
                resource,
                maximum,
            } => SymbolErrorView::ResourceLimitExceeded { resource: resource@, maximum },
            SymbolError::Position(error) => SymbolErrorView::Position(error),
            SymbolError::SelectionRangeNotContained => SymbolErrorView::SelectionRangeNotContained,
            SymbolError::QueryPositionOutOfBounds => SymbolErrorView::QueryPositionOutOfBounds,
            SymbolError::NotFound => SymbolErrorView::NotFound,
            SymbolError::Ambiguous { total, candidates } => SymbolErrorView::Ambiguous {
                total,
                candidates: candidates_view(candidates@),
            },
            SymbolError::InvalidExtent => SymbolErrorView::InvalidExtent,
        }
    }
}

/// The stable text of a symbol error.
pub open spec fn symbol_error_text(error: SymbolErrorView) -> Seq<char> {
    match error {
        SymbolErrorView::FlatSymbolsUnsupported =>
            "language server returned unsupported flat symbols"@,
        SymbolErrorView::MalformedDocumentSymbols =>
            "language server returned malformed document symbols"@,
        SymbolErrorView::ResourceLimitExceeded { resource, maximum } => resource
            + " exceeds configured maximum "@ + text::decimal(maximum as nat),
        SymbolErrorView::Position(error) => "invalid language-server range: "@
            + position::position_error_text(error),
        SymbolErrorView::SelectionRangeNotContained =>
            "language-server selection range is outside its enclosing range"@,
        SymbolErrorView::QueryPositionOutOfBounds =>
            "selection position is outside the immutable snapshot"@,
        SymbolErrorView::NotFound => "no document symbol matched the query"@,
        SymbolErrorView::Ambiguous { total, .. } => "document-symbol query has "@ + text::decimal(
            total as nat,
        ) + " matches"@,
        SymbolErrorView::InvalidExtent => "declaration extent is invalid"@,
    }
}

impl SymbolError {
    /// Returns the stable text of this error.
    pub fn message(&self) -> (text: String)
        ensures
            text@ == symbol_error_text(self@),
    {
        match self {
            SymbolError::FlatSymbolsUnsupported =>
                "language server returned unsupported flat symbols".to_owned(),
            SymbolError::MalformedDocumentSymbols =>
                "language server returned malformed document symbols".to_owned(),
            SymbolError::ResourceLimitExceeded { resource, maximum } => {
                let mut text = (*resource).to_owned();
                text.append(" exceeds configured maximum ");
                push_decimal(&mut text, *maximum);
                text
            },
            SymbolError::Position(error) => {
                let mut text = "invalid language-server range: ".to_owned();
                text.append(error.message());
                text
            },
            SymbolError::SelectionRangeNotContained =>
                "language-server selection range is outside its enclosing range".to_owned(),
            SymbolError::QueryPositionOutOfBounds =>
                "selection position is outside the immutable snapshot".to_owned(),
            SymbolError::NotFound => "no document symbol matched the query".to_owned(),
            SymbolError::Ambiguous { total, .. } => {
                let mut text = "document-symbol query has ".to_owned();
                push_decimal(&mut text, *total);
                text.append(" matches");
                text
            },
            SymbolError::InvalidExtent => "declaration extent is invalid".to_owned(),
        }
    }
}

impl From<PositionError> for SymbolError {
    fn from(error: PositionError) -> (converted: Self) {
        SymbolError::Position(error)
    }
}

impl vstd::std_specs::convert::FromSpecImpl<PositionError> for SymbolError {
    open spec fn obeys_from_spec() -> bool {
        true
    }

    open spec fn from_spec(error: PositionError) -> SymbolError {
        SymbolError::Position(error)
    }
}

/// A list of texts with the same characters.
pub fn copy_path(path: &Vec<String>) -> (copy: Vec<String>)
    ensures
        order::path_view(copy@) == order::path_view(path@),
{
    let mut copy: Vec<String> = Vec::new();
    let mut index: usize = 0;
    while index < path.len()
        invariant
            index <= path@.len(),
            copy@.len() == index,
            forall|i: int| 0 <= i < index ==> (#[trigger] copy@[i])@ == path@[i]@,
        decreases path@.len() - index,
    {
        copy.push(path[index].clone());
        index = index + 1;
    }
    assert(order::path_view(copy@) =~= order::path_view(path@));
    copy
}

/// An optional text with the same characters.
pub fn copy_optional_text(source: &Option<String>) -> (copy: Option<String>)
    ensures
        order::optional_text(copy) == order::optional_text(*source),
{
    match source {
        Some(text) => Some(text.clone()),
        None => None,
    }
}

// ---------------------------------------------------------------------------
// Candidate order

/// The rank of two byte ranges: by start, then by end.
pub open spec fn rank_ranges(left: ByteRange, right: ByteRange) -> Rank {
    order::or_else(
        order::rank_numbers(left.start as int, right.start as int),
        order::rank_numbers(left.end as int, right.end as int),
    )
}

/// The rank of two kinds: by spelling, then by number.
pub open spec fn rank_kinds(left: NormalizedSymbolKind, right: NormalizedSymbolKind) -> Rank {
    order::or_else(
        order::rank_texts(kinds::normalized_kind_text(left), kinds::normalized_kind_text(right)),
        order::rank_numbers(
            kinds::normalized_kind_number(left) as int,
            kinds::normalized_kind_number(right) as int,
        ),
    )
}

/// The rank of two candidates: by enclosing range, kind, breadcrumb, and name.
pub open spec fn rank_candidates(left: SymbolView, right: SymbolView) -> Rank {
    order::or_else(
        rank_ranges(left.byte_range, right.byte_range),
        order::or_else(
            rank_kinds(left.kind, right.kind),
            order::or_else(
                order::rank_paths(left.symbol_path, right.symbol_path),
                order::rank_texts(left.name, right.name),
            ),
        ),
    )
}

/// The rank of two symbols: as candidates, then by reveal range, then by
/// detail.
#[verifier::opaque]
pub open spec fn rank_symbols(left: SymbolView, right: SymbolView) -> Rank {
    order::or_else(
        rank_candidates(left, right),
        order::or_else(
            rank_ranges(left.selection_byte_range, right.selection_byte_range),
            order::rank_optional_texts(left.detail, right.detail),
        ),
    )
}

/// Whether two symbols are the same record: equal raw range, kind, breadcrumb,
/// and name.
pub open spec fn is_duplicate(left: SymbolView, right: SymbolView) -> bool {
    &&& left.lsp_range == right.lsp_range
    &&& left.kind == right.kind
    &&& left.symbol_path == right.symbol_path
    &&& left.name == right.name
}

/// A sorted list with one more symbol, placed after every symbol that does not
/// come after it.
pub open spec fn inserted(sorted: Seq<SymbolView>, symbol: SymbolView) -> Seq<SymbolView>
    decreases sorted.len(),
{
    if sorted.len() == 0 || rank_symbols(sorted.last(), symbol) != Rank::Greater {
        sorted.push(symbol)
    } else {
        inserted(sorted.drop_last(), symbol).push(sorted.last())
    }
}

/// The symbols in stable order.
pub open spec fn sorted(symbols: Seq<SymbolView>) -> Seq<SymbolView>
    decreases symbols.len(),
{
    if symbols.len() == 0 {
        Seq::empty()
    } else {
        inserted(sorted(symbols.drop_last()), symbols.last())
    }
}

/// Whether a symbol is the same record as one of those kept.
pub open spec fn is_repeated(kept: Seq<SymbolView>, symbol: SymbolView) -> bool {
    exists|i: int| 0 <= i < kept.len() && is_duplicate(symbol, #[trigger] kept[i])
}

/// The symbols without those that repeat an earlier record.
pub open spec fn deduplicated(symbols: Seq<SymbolView>) -> Seq<SymbolView>
    decreases symbols.len(),
{
    if symbols.len() == 0 {
        Seq::empty()
    } else {
        let kept = deduplicated(symbols.drop_last());
        if is_repeated(kept, symbols.last()) {
            kept
        } else {
            kept.push(symbols.last())
        }
    }
}

/// The symbols in candidate order, with repeated records coalesced.
pub open spec fn ordered_unique(symbols: Seq<SymbolView>) -> Seq<SymbolView> {
    deduplicated(sorted(symbols))
}

/// Symbols are ordered.
pub proof fn lemma_rank_symbols(a: SymbolView, b: SymbolView, c: SymbolView)
    ensures
        rank_symbols(b, a) == order::flipped(rank_symbols(a, b)),
        order::chains(rank_symbols(a, b), rank_symbols(b, c), rank_symbols(a, c)),
{
    order::lemma_rank_bytes(
        text::utf8(kinds::normalized_kind_text(a.kind)),
        text::utf8(kinds::normalized_kind_text(b.kind)),
        text::utf8(kinds::normalized_kind_text(c.kind)),
    );
    order::lemma_rank_paths(a.symbol_path, b.symbol_path, c.symbol_path);
    order::lemma_rank_bytes(text::utf8(a.name), text::utf8(b.name), text::utf8(c.name));
    order::lemma_rank_optional_texts(a.detail, b.detail, c.detail);
    reveal(rank_symbols);
}

/// A symbol ranks equal to itself.
pub proof fn lemma_rank_symbols_reflexive(a: SymbolView)
    ensures
        rank_symbols(a, a) == Rank::Equal,
{
    lemma_rank_symbols(a, a, a);
}

/// Compares two byte ranges: by start, then by end.
fn compare_ranges(left: ByteRange, right: ByteRange) -> (rank: Rank)
    ensures
        rank == rank_ranges(left, right),
{
    match compare_numbers(left.start, right.start) {
        Rank::Equal => compare_numbers(left.end, right.end),
        rank => rank,
    }
}

/// Compares two kinds: by spelling, then by number.
fn compare_kinds(left: NormalizedSymbolKind, right: NormalizedSymbolKind) -> (rank: Rank)
    ensures
        rank == rank_kinds(left, right),
{
    match compare_texts(left.as_str(), right.as_str()) {
        Rank::Equal => compare_numbers(left.numeric() as u64, right.numeric() as u64),
        rank => rank,
    }
}

/// Compares two candidates: by enclosing range, kind, breadcrumb, and name.
fn compare_candidates(left: &NormalizedSymbol, right: &NormalizedSymbol) -> (rank: Rank)
    ensures
        rank == rank_candidates(left@, right@),
{
    let ranges = compare_ranges(left.byte_range, right.byte_range);
    if ranges != Rank::Equal {
        return ranges;
    }
    let kinds = compare_kinds(left.kind, right.kind);
    if kinds != Rank::Equal {
        return kinds;
    }
    match compare_paths(&left.symbol_path, &right.symbol_path) {
        Rank::Equal => compare_texts(left.name.as_str(), right.name.as_str()),
        rank => rank,
    }
}

/// Compares two symbols: as candidates, then by reveal range, then by detail.
fn compare_symbols(left: &NormalizedSymbol, right: &NormalizedSymbol) -> (rank: Rank)
    ensures
        rank == rank_symbols(left@, right@),
{
    proof {
        reveal(rank_symbols);
    }
    let candidates = compare_candidates(left, right);
    if candidates != Rank::Equal {
        return candidates;
    }
    match compare_ranges(left.selection_byte_range, right.selection_byte_range) {
        Rank::Equal => compare_optional_texts(&left.detail, &right.detail),
        rank => rank,
    }
}

/// Returns whether two breadcrumbs hold the same texts.
fn paths_equal(left: &Vec<String>, right: &Vec<String>) -> (equal: bool)
    ensures
        equal == (order::path_view(left@) == order::path_view(right@)),
{
    let ghost a = order::path_view(left@);
    let ghost b = order::path_view(right@);
    if left.len() != right.len() {
        assert(a.len() != b.len());
        return false;
    }
    let mut index: usize = 0;
    while index < left.len()
        invariant
            a == order::path_view(left@),
            b == order::path_view(right@),
            left@.len() == right@.len(),
            index <= left@.len(),
            forall|i: int| 0 <= i < index ==> a[i] == b[i],
        decreases left@.len() - index,
    {
        if !text_equal(left[index].as_str(), right[index].as_str()) {
            assert(a[index as int] != b[index as int]);
            return false;
        }
        index = index + 1;
    }
    assert(a =~= b);
    true
}

/// Returns whether two symbols are the same record.
fn duplicate_key_equal(left: &NormalizedSymbol, right: &NormalizedSymbol) -> (duplicate: bool)
    ensures
        duplicate == is_duplicate(left@, right@),
{
    left.lsp_range == right.lsp_range && left.kind == right.kind && paths_equal(
        &left.symbol_path,
        &right.symbol_path,
    ) && text_equal(left.name.as_str(), right.name.as_str())
}

/// What symbols are sorted by.
#[derive(Clone, Copy, Debug, PartialEq, Eq, Structural)]
enum SortKey {
    /// The candidate order.
    Candidate,
    /// The record that a symbol is.
    Record,
}

/// The rank of two raw positions: by line, then by character.
spec fn rank_positions(left: Position, right: Position) -> Rank {
    order::or_else(
        order::rank_numbers(left.line as int, right.line as int),
        order::rank_numbers(left.character as int, right.character as int),
    )
}

/// The rank of two symbols as records: equal for the same record only.
spec fn rank_records(left: SymbolView, right: SymbolView) -> Rank {
    order::or_else(
        rank_positions(left.lsp_range.start, right.lsp_range.start),
        order::or_else(
            rank_positions(left.lsp_range.end, right.lsp_range.end),
            order::or_else(
                rank_kinds(left.kind, right.kind),
                order::or_else(
                    order::rank_paths(left.symbol_path, right.symbol_path),
                    order::rank_texts(left.name, right.name),
                ),
            ),
        ),
    )
}

/// The rank of two symbols by a sort key.
spec fn rank_by(by: SortKey, left: SymbolView, right: SymbolView) -> Rank {
    match by {
        SortKey::Candidate => rank_symbols(left, right),
        SortKey::Record => rank_records(left, right),
    }
}

/// Symbols are ordered by either key.
proof fn lemma_rank_by(by: SortKey, a: SymbolView, b: SymbolView, c: SymbolView)
    ensures
        rank_by(by, b, a) == order::flipped(rank_by(by, a, b)),
        order::chains(rank_by(by, a, b), rank_by(by, b, c), rank_by(by, a, c)),
{
    lemma_rank_symbols(a, b, c);
    order::lemma_rank_bytes(
        text::utf8(kinds::normalized_kind_text(a.kind)),
        text::utf8(kinds::normalized_kind_text(b.kind)),
        text::utf8(kinds::normalized_kind_text(c.kind)),
    );
    order::lemma_rank_paths(a.symbol_path, b.symbol_path, c.symbol_path);
    order::lemma_rank_bytes(text::utf8(a.name), text::utf8(b.name), text::utf8(c.name));
}

/// A symbol ranks equal to itself.
proof fn lemma_rank_by_reflexive(by: SortKey, a: SymbolView)
    ensures
        rank_by(by, a, a) == Rank::Equal,
{
    lemma_rank_by(by, a, a, a);
}

/// Equal rank of kinds is equality.
proof fn lemma_rank_kinds_equal(a: NormalizedSymbolKind, b: NormalizedSymbolKind)
    ensures
        rank_kinds(a, b) == Rank::Equal <==> a == b,
{
    let left = kinds::normalized_kind_text(a);
    let right = kinds::normalized_kind_text(b);
    order::lemma_rank_bytes_equal(text::utf8(left), text::utf8(right));
    text::lemma_utf8_injective(left, right);
    match (a, b) {
        (NormalizedSymbolKind::Known(x), NormalizedSymbolKind::Known(y)) => {
            kinds::law_kind_spellings_are_unique(x, y);
        },
        (NormalizedSymbolKind::Known(x), NormalizedSymbolKind::Unknown(_)) => {
            kinds::law_kind_spellings_are_unique(x, x);
        },
        (NormalizedSymbolKind::Unknown(_), NormalizedSymbolKind::Known(y)) => {
            kinds::law_kind_spellings_are_unique(y, y);
        },
        (NormalizedSymbolKind::Unknown(_), NormalizedSymbolKind::Unknown(_)) => {},
    }
}

/// Symbols rank equal as records exactly when they are the same one.
proof fn lemma_rank_records_equal(a: SymbolView, b: SymbolView)
    ensures
        rank_records(a, b) == Rank::Equal <==> is_duplicate(a, b),
{
    lemma_rank_kinds_equal(a.kind, b.kind);
    order::lemma_rank_paths_equal(a.symbol_path, b.symbol_path);
    order::lemma_rank_bytes_equal(text::utf8(a.name), text::utf8(b.name));
    text::lemma_utf8_injective(a.name, b.name);
}

/// Compares two raw positions: by line, then by character.
fn compare_positions(left: Position, right: Position) -> (rank: Rank)
    ensures
        rank == rank_positions(left, right),
{
    match compare_numbers(left.line as u64, right.line as u64) {
        Rank::Equal => compare_numbers(left.character as u64, right.character as u64),
        rank => rank,
    }
}

/// Compares two symbols as records.
fn compare_records(left: &NormalizedSymbol, right: &NormalizedSymbol) -> (rank: Rank)
    ensures
        rank == rank_records(left@, right@),
{
    let starts = compare_positions(left.lsp_range.start, right.lsp_range.start);
    if starts != Rank::Equal {
        return starts;
    }
    let ends = compare_positions(left.lsp_range.end, right.lsp_range.end);
    if ends != Rank::Equal {
        return ends;
    }
    let kinds = compare_kinds(left.kind, right.kind);
    if kinds != Rank::Equal {
        return kinds;
    }
    match compare_paths(&left.symbol_path, &right.symbol_path) {
        Rank::Equal => compare_texts(left.name.as_str(), right.name.as_str()),
        rank => rank,
    }
}

/// Compares two symbols by a sort key.
fn compare_by(by: SortKey, left: &NormalizedSymbol, right: &NormalizedSymbol) -> (rank: Rank)
    ensures
        rank == rank_by(by, left@, right@),
{
    match by {
        SortKey::Candidate => compare_symbols(left, right),
        SortKey::Record => compare_records(left, right),
    }
}

/// Whether one index comes before another: by rank, then by position.
spec fn precedes(by: SortKey, symbols: Seq<SymbolView>, left: int, right: int) -> bool {
    ||| rank_by(by, symbols[left], symbols[right]) == Rank::Less
    ||| rank_by(by, symbols[left], symbols[right]) == Rank::Equal && left < right
}

/// Whether indices between two bounds are listed in strict order.
spec fn is_run(by: SortKey, symbols: Seq<SymbolView>, run: Seq<usize>, low: int, high: int) -> bool {
    &&& forall|i: int| 0 <= i < run.len() ==> low <= #[trigger] run[i] < high
    &&& forall|i: int, j: int|
        0 <= i < j < run.len() ==> precedes(by, symbols, #[trigger] run[i] as int, #[trigger] run[j] as int)
}

proof fn lemma_precedes_transitive(by: SortKey, symbols: Seq<SymbolView>, a: int, b: int, c: int)
    requires
        precedes(by, symbols, a, b),
        precedes(by, symbols, b, c),
    ensures
        precedes(by, symbols, a, c),
{
    lemma_rank_by(by, symbols[a], symbols[b], symbols[c]);
}

/// Merges two adjacent runs.
fn merge_runs(
    by: SortKey,
    symbols: &Vec<&NormalizedSymbol>,
    left: &Vec<usize>,
    right: &Vec<usize>,
    Ghost(low): Ghost<int>,
    Ghost(middle): Ghost<int>,
    Ghost(high): Ghost<int>,
) -> (merged: Vec<usize>)
    requires
        0 <= low <= middle <= high <= symbols@.len(),
        is_run(by, refs_view(symbols@), left@, low, middle),
        is_run(by, refs_view(symbols@), right@, middle, high),
        left@.len() == middle - low,
        right@.len() == high - middle,
    ensures
        is_run(by, refs_view(symbols@), merged@, low, high),
        merged@.len() == high - low,
{
    let ghost views = refs_view(symbols@);
    let mut merged: Vec<usize> = Vec::new();
    let mut i: usize = 0;
    let mut j: usize = 0;
    while i < left.len() || j < right.len()
        invariant
            views == refs_view(symbols@),
            0 <= low <= middle <= high <= symbols@.len(),
            is_run(by, views, left@, low, middle),
            is_run(by, views, right@, middle, high),
            i <= left@.len(),
            j <= right@.len(),
            merged@.len() == i + j,
            is_run(by, views, merged@, low, high),
            forall|k: int, l: int|
                0 <= k < merged@.len() && i <= l < left@.len() ==> precedes(by, views,
                    #[trigger] merged@[k] as int,
                    #[trigger] left@[l] as int,
                ),
            forall|k: int, l: int|
                0 <= k < merged@.len() && j <= l < right@.len() ==> precedes(by, views,
                    #[trigger] merged@[k] as int,
                    #[trigger] right@[l] as int,
                ),
        decreases left@.len() - i + right@.len() - j,
    {
        let take_left: bool = if i >= left.len() {
            false
        } else if j >= right.len() {
            true
        } else {
            compare_by(by, symbols[left[i]], symbols[right[j]]) != Rank::Greater
        };
        let ghost before = merged@;
        if take_left {
            proof {
                let a = left@[i as int] as int;
                assert forall|l: int| j <= l < right@.len() implies precedes(by, views,
                    a,
                    #[trigger] right@[l] as int,
                ) by {
                    let b = right@[j as int] as int;
                    assert(views[a] == symbols@[a]@ && views[b] == symbols@[b]@);
                    assert(precedes(by, views, a, b));
                    if l > j {
                        lemma_precedes_transitive(by, views, a, b, right@[l] as int);
                    }
                }
            }
            merged.push(left[i]);
            i = i + 1;
        } else {
            proof {
                let b = right@[j as int] as int;
                assert forall|l: int| i <= l < left@.len() implies precedes(by, views,
                    b,
                    #[trigger] left@[l] as int,
                ) by {
                    let a = left@[i as int] as int;
                    assert(views[a] == symbols@[a]@ && views[b] == symbols@[b]@);
                    lemma_rank_by(by, views[a], views[b], views[a]);
                    assert(precedes(by, views, b, a));
                    if l > i {
                        lemma_precedes_transitive(by, views, b, a, left@[l] as int);
                    }
                }
            }
            merged.push(right[j]);
            j = j + 1;
        }
    }
    merged
}

/// Lists the indices between two bounds in stable symbol order.
fn sort_indices(by: SortKey, symbols: &Vec<&NormalizedSymbol>, low: usize, high: usize) -> (run: Vec<
    usize,
>)
    requires
        low <= high <= symbols@.len(),
    ensures
        is_run(by, refs_view(symbols@), run@, low as int, high as int),
        run@.len() == high - low,
    decreases high - low,
{
    if high - low == 0 {
        return Vec::new();
    }
    if high - low == 1 {
        let mut run: Vec<usize> = Vec::new();
        run.push(low);
        return run;
    }
    let middle: usize = low + (high - low) / 2;
    let left = sort_indices(by, symbols, low, middle);
    let right = sort_indices(by, symbols, middle, high);
    merge_runs(
        by,
        symbols,
        &left,
        &right,
        Ghost(low as int),
        Ghost(middle as int),
        Ghost(high as int),
    )
}

/// The symbols at listed indices.
spec fn selected(symbols: Seq<SymbolView>, run: Seq<usize>) -> Seq<SymbolView> {
    Seq::new(run.len(), |i: int| symbols[run[i] as int])
}

/// A complete run lists every index.
proof fn lemma_run_is_complete(
    by: SortKey,
    symbols: Seq<SymbolView>,
    run: Seq<usize>,
    index: int,
)
    requires
        is_run(by, symbols, run, 0, symbols.len() as int),
        run.len() == symbols.len(),
        0 <= index < symbols.len(),
        symbols.len() <= usize::MAX,
    ensures
        exists|p: int| 0 <= p < run.len() && run[p] == index,
{
    let ints = Seq::new(run.len(), |i: int| run[i] as int);
    assert(ints.no_duplicates()) by {
        assert forall|i: int, j: int| 0 <= i < ints.len() && 0 <= j < ints.len() && i
            != j implies ints[i] != ints[j] by {
            if i < j {
                assert(precedes(by, symbols, run[i] as int, run[j] as int));
                lemma_rank_by_reflexive(by, symbols[run[i] as int]);
            } else {
                assert(precedes(by, symbols, run[j] as int, run[i] as int));
                lemma_rank_by_reflexive(by, symbols[run[j] as int]);
            }
        }
    }
    ints.unique_seq_to_set();
    vstd::set_lib::lemma_int_range(0, symbols.len() as int);
    let all = vstd::set_lib::set_int_range(0, symbols.len() as int);
    assert(ints.to_set().subset_of(all)) by {
        assert forall|x: int| ints.to_set().contains(x) implies all.contains(x) by {
            let i = choose|i: int| 0 <= i < ints.len() && ints[i] == x;
            assert(run[i] as int == x);
        }
    }
    vstd::set_lib::lemma_subset_equality(ints.to_set(), all);
    assert(ints.to_set().contains(index));
    let p = choose|p: int| 0 <= p < ints.len() && ints[p] == index;
    assert(run[p] == index);
}

/// Inserting a symbol between those that do not come after it and those that
/// do places it there.
proof fn lemma_inserted_between(symbols: Seq<SymbolView>, symbol: SymbolView, place: int)
    requires
        0 <= place <= symbols.len(),
        forall|i: int|
            0 <= i < place ==> rank_symbols(#[trigger] symbols[i], symbol) != Rank::Greater,
        forall|i: int|
            place <= i < symbols.len() ==> rank_symbols(#[trigger] symbols[i], symbol)
                == Rank::Greater,
    ensures
        inserted(symbols, symbol) == symbols.insert(place, symbol),
    decreases symbols.len(),
{
    if place == symbols.len() {
        assert(symbols.insert(place, symbol) =~= symbols.push(symbol));
        if symbols.len() > 0 {
            assert(symbols.last() == symbols[place - 1]);
        }
    } else {
        let shorter = symbols.drop_last();
        assert(rank_symbols(symbols[symbols.len() - 1], symbol) == Rank::Greater);
        lemma_inserted_between(shorter, symbol, place);
        assert(symbols.insert(place, symbol) =~= shorter.insert(place, symbol).push(
            symbols.last(),
        ));
    }
}

/// A complete run selects the symbols in stable order.
proof fn lemma_run_is_sorted(symbols: Seq<SymbolView>, run: Seq<usize>)
    requires
        is_run(SortKey::Candidate, symbols, run, 0, symbols.len() as int),
        run.len() == symbols.len(),
        symbols.len() <= usize::MAX,
    ensures
        selected(symbols, run) == sorted(symbols),
    decreases symbols.len(),
{
    let by = SortKey::Candidate;
    if symbols.len() == 0 {
        assert(selected(symbols, run) =~= sorted(symbols));
    } else {
        let last = symbols.len() - 1;
        lemma_run_is_complete(by, symbols, run, last);
        let place = choose|p: int| 0 <= p < run.len() && run[p] == last;
        let shorter = symbols.drop_last();
        let rest = run.remove(place);
        assert forall|i: int| 0 <= i < rest.len() implies 0 <= #[trigger] rest[i] < last by {
            let k = if i < place { i } else { i + 1 };
            assert(rest[i] == run[k]);
            if k < place {
                assert(precedes(by, symbols, run[k] as int, run[place] as int));
            } else {
                assert(precedes(by, symbols, run[place] as int, run[k] as int));
            }
            lemma_rank_symbols_reflexive(symbols[last]);
        }
        assert forall|i: int, j: int| 0 <= i < j < rest.len() implies precedes(by, shorter,
            #[trigger] rest[i] as int,
            #[trigger] rest[j] as int,
        ) by {
            let k = if i < place { i } else { i + 1 };
            let l = if j < place { j } else { j + 1 };
            assert(rest[i] == run[k] && rest[j] == run[l]);
            assert(precedes(by, symbols, run[k] as int, run[l] as int));
            assert(0 <= rest[i] < last && 0 <= rest[j] < last);
        }
        lemma_run_is_sorted(shorter, rest);
        let chosen = selected(shorter, rest);
        assert forall|i: int| 0 <= i < chosen.len() implies (i < place ==> rank_symbols(
            #[trigger] chosen[i],
            symbols[last],
        ) != Rank::Greater) && (i >= place ==> rank_symbols(chosen[i], symbols[last])
            == Rank::Greater) by {
            let k = if i < place { i } else { i + 1 };
            assert(rest[i] == run[k]);
            assert(0 <= rest[i] < last);
            assert(chosen[i] == symbols[run[k] as int]);
            if i < place {
                assert(precedes(by, symbols, run[k] as int, run[place] as int));
            } else {
                assert(precedes(by, symbols, run[place] as int, run[k] as int));
                lemma_rank_symbols(symbols[last], symbols[run[k] as int], symbols[last]);
            }
        }
        lemma_inserted_between(chosen, symbols[last], place);
        assert(selected(symbols, run) =~= chosen.insert(place, symbols[last])) by {
            assert forall|i: int| 0 <= i < run.len() implies #[trigger] selected(symbols, run)[i]
                == chosen.insert(place, symbols[last])[i] by {
                if i < place {
                    assert(rest[i] == run[i]);
                    assert(0 <= rest[i] < last);
                } else if i > place {
                    assert(rest[i - 1] == run[i]);
                    assert(0 <= rest[i - 1] < last);
                }
            }
        }
    }
}

/// Whether a symbol is the same record as an earlier one.
spec fn repeats_earlier(symbols: Seq<SymbolView>, index: int) -> bool {
    exists|earlier: int|
        0 <= earlier < index && is_duplicate(symbols[index], #[trigger] symbols[earlier])
}

/// In a complete run by record, a symbol repeats an earlier one exactly when it
/// is the same record as the one listed before it.
proof fn lemma_repeats_neighbour(symbols: Seq<SymbolView>, run: Seq<usize>, place: int)
    requires
        is_run(SortKey::Record, symbols, run, 0, symbols.len() as int),
        run.len() == symbols.len(),
        symbols.len() <= usize::MAX,
        0 <= place < run.len(),
    ensures
        repeats_earlier(symbols, run[place] as int) <==> place > 0 && is_duplicate(
            symbols[run[place] as int],
            symbols[run[place - 1] as int],
        ),
{
    let by = SortKey::Record;
    let index = run[place] as int;
    if place > 0 {
        let before = run[place - 1] as int;
        assert(precedes(by, symbols, before, index));
        lemma_rank_records_equal(symbols[before], symbols[index]);
        lemma_rank_by(by, symbols[before], symbols[index], symbols[before]);
    }
    if repeats_earlier(symbols, index) {
        let earlier = choose|earlier: int|
            0 <= earlier < index && is_duplicate(symbols[index], #[trigger] symbols[earlier]);
        lemma_run_is_complete(by, symbols, run, earlier);
        let other = choose|p: int| 0 <= p < run.len() && run[p] == earlier;
        lemma_rank_records_equal(symbols[earlier], symbols[index]);
        lemma_rank_by(by, symbols[earlier], symbols[index], symbols[earlier]);
        if place < other {
            assert(precedes(by, symbols, run[place] as int, run[other] as int));
        }
        assert(other < place);
        let before = run[place - 1] as int;
        if other < place - 1 {
            assert(precedes(by, symbols, run[other] as int, run[place - 1] as int));
        }
        lemma_rank_by_reflexive(by, symbols[earlier]);
        lemma_rank_by(by, symbols[earlier], symbols[before], symbols[index]);
        lemma_rank_by(by, symbols[before], symbols[earlier], symbols[index]);
    }
}

/// The places of a run are listed once.
proof fn lemma_run_places_differ(symbols: Seq<SymbolView>, run: Seq<usize>, i: int, j: int)
    requires
        is_run(SortKey::Record, symbols, run, 0, symbols.len() as int),
        0 <= i < run.len(),
        0 <= j < run.len(),
        i != j,
    ensures
        run[i] != run[j],
{
    let by = SortKey::Record;
    lemma_rank_by_reflexive(by, symbols[run[i] as int]);
    if i < j {
        assert(precedes(by, symbols, run[i] as int, run[j] as int));
    } else {
        assert(precedes(by, symbols, run[j] as int, run[i] as int));
    }
}

/// Marks each symbol that is the same record as an earlier one.
fn mark_repeated(symbols: &Vec<&NormalizedSymbol>) -> (repeated: Vec<bool>)
    ensures
        repeated@.len() == symbols@.len(),
        forall|i: int|
            0 <= i < symbols@.len() ==> #[trigger] repeated@[i] == repeats_earlier(
                refs_view(symbols@),
                i,
            ),
{
    let ghost views = refs_view(symbols@);
    let count: usize = symbols.len();
    let run = sort_indices(SortKey::Record, symbols, 0, count);
    let mut repeated: Vec<bool> = Vec::new();
    while repeated.len() < count
        invariant
            repeated@.len() <= count,
            forall|i: int| 0 <= i < repeated@.len() ==> !#[trigger] repeated@[i],
        decreases count - repeated@.len(),
    {
        repeated.push(false);
    }
    let mut place: usize = 0;
    while place < run.len()
        invariant
            views == refs_view(symbols@),
            count == symbols@.len(),
            run@.len() == count,
            repeated@.len() == count,
            is_run(SortKey::Record, views, run@, 0, count as int),
            place <= count,
            forall|p: int|
                0 <= p < place ==> repeated@[#[trigger] run@[p] as int] == repeats_earlier(
                    views,
                    run@[p] as int,
                ),
            forall|p: int| place <= p < count ==> !repeated@[#[trigger] run@[p] as int],
        decreases count - place,
    {
        let ghost before = repeated@;
        proof {
            lemma_repeats_neighbour(views, run@, place as int);
            assert(views[run@[place as int] as int] == symbols@[run@[place as int] as int]@);
        }
        if place > 0 {
            assert(views[run@[place - 1] as int] == symbols@[run@[place - 1] as int]@);
            if duplicate_key_equal(symbols[run[place]], symbols[run[place - 1]]) {
                repeated.set(run[place], true);
            }
        }
        proof {
            assert forall|p: int| 0 <= p < count && p != place implies repeated@[
                #[trigger] run@[p] as int] == before[run@[p] as int] by {
                lemma_run_places_differ(views, run@, p, place as int);
            }
        }
        place = place + 1;
    }
    proof {
        assert forall|i: int| 0 <= i < count implies #[trigger] repeated@[i] == repeats_earlier(
            views,
            i,
        ) by {
            lemma_run_is_complete(SortKey::Record, views, run@, i);
            let p = choose|p: int| 0 <= p < run@.len() && run@[p] == i;
            assert(repeated@[run@[p] as int] == repeats_earlier(views, run@[p] as int));
        }
    }
    repeated
}

/// Deduplication drops exactly the symbols that repeat an earlier one.
proof fn lemma_repeated_among_kept(symbols: Seq<SymbolView>, index: int)
    requires
        0 <= index < symbols.len(),
    ensures
        is_repeated(deduplicated(symbols.take(index)), symbols[index]) == repeats_earlier(
            symbols,
            index,
        ),
{
    let earlier = symbols.take(index);
    let kept = deduplicated(earlier);
    resolve::lemma_deduplicated_keeps(earlier);
    if is_repeated(kept, symbols[index]) {
        let i = choose|i: int|
            0 <= i < kept.len() && is_duplicate(symbols[index], #[trigger] kept[i]);
        assert(kept.contains(kept[i]));
        let j = choose|j: int| 0 <= j < earlier.len() && earlier[j] == kept[i];
        assert(symbols[j] == kept[i]);
    }
    if repeats_earlier(symbols, index) {
        let j = choose|j: int|
            0 <= j < index && is_duplicate(symbols[index], #[trigger] symbols[j]);
        assert(earlier[j] == symbols[j]);
        assert(earlier.contains(symbols[j]));
        let y = choose|y: SymbolView| #[trigger] kept.contains(y) && is_duplicate(symbols[j], y);
        let i = choose|i: int| 0 <= i < kept.len() && kept[i] == y;
        assert(is_duplicate(symbols[index], kept[i]));
    }
}

/// Orders candidates and coalesces repeated records.
pub(crate) fn prepare_candidates<'a>(symbols: Vec<&'a NormalizedSymbol>) -> (candidates: Vec<
    &'a NormalizedSymbol,
>)
    ensures
        refs_view(candidates@) == ordered_unique(refs_view(symbols@)),
{
    let ghost views = refs_view(symbols@);
    let count: usize = symbols.len();
    let run = sort_indices(SortKey::Candidate, &symbols, 0, count);
    proof {
        lemma_run_is_sorted(views, run@);
    }
    let ghost in_order = selected(views, run@);
    let mut ordered: Vec<&'a NormalizedSymbol> = Vec::new();
    while ordered.len() < count
        invariant
            views == refs_view(symbols@),
            count == symbols@.len(),
            run@.len() == count,
            is_run(SortKey::Candidate, views, run@, 0, count as int),
            ordered@.len() <= count,
            forall|i: int|
                0 <= i < ordered@.len() ==> #[trigger] ordered@[i] == symbols@[run@[i] as int],
        decreases count - ordered@.len(),
    {
        ordered.push(symbols[run[ordered.len()]]);
    }
    assert(refs_view(ordered@) =~= in_order);
    let repeated = mark_repeated(&ordered);
    let mut kept: Vec<&'a NormalizedSymbol> = Vec::new();
    let mut index: usize = 0;
    assert(in_order.take(0) =~= Seq::<SymbolView>::empty());
    assert(refs_view(kept@) =~= Seq::<SymbolView>::empty());
    while index < count
        invariant
            in_order == refs_view(ordered@),
            count == ordered@.len(),
            repeated@.len() == count,
            forall|i: int|
                0 <= i < count ==> #[trigger] repeated@[i] == repeats_earlier(in_order, i),
            index <= count,
            refs_view(kept@) == deduplicated(in_order.take(index as int)),
        decreases count - index,
    {
        let ghost before = refs_view(kept@);
        proof {
            let next = in_order.take(index + 1);
            assert(next.drop_last() =~= in_order.take(index as int));
            assert(next.last() == ordered@[index as int]@);
            lemma_repeated_among_kept(in_order, index as int);
        }
        if !repeated[index] {
            kept.push(ordered[index]);
            assert(refs_view(kept@) =~= before.push(ordered@[index as int]@));
        }
        index = index + 1;
    }
    assert(in_order.take(index as int) =~= in_order);
    kept
}

/// Orders every normalized symbol with the frozen candidate comparator and
/// coalesces exact duplicates.
///
/// This is the same treatment all-match resolution applies, extracted so the
/// outline surface shares one deterministic order and dedup key. Results are
/// ordered by enclosing-range start/end bytes, kind spelling then numeric
/// value, symbol path, name, reveal-range start/end, then detail; duplicates
/// coalesce by `(lsp_range, kind, symbol_path, name)`.
pub fn order_unique_candidates<'a>(symbols: &'a [NormalizedSymbol]) -> (candidates: Vec<
    &'a NormalizedSymbol,
>)
    ensures
        refs_view(candidates@) == ordered_unique(symbols_view(symbols@)),
{
    let mut all: Vec<&'a NormalizedSymbol> = Vec::new();
    let mut index: usize = 0;
    while index < symbols.len()
        invariant
            index <= symbols@.len(),
            all@.len() == index,
            forall|i: int| 0 <= i < index ==> #[trigger] all@[i] == &symbols@[i],
        decreases symbols@.len() - index,
    {
        all.push(&symbols[index]);
        index = index + 1;
    }
    assert(refs_view(all@) =~= symbols_view(symbols@));
    prepare_candidates(all)
}

} // verus!
