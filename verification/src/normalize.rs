//! Decoding, validation, and iterative flattening of document symbols.

use std::sync::Arc;

use vstd::prelude::*;

use crate::json;
use crate::json::{Json, JsonView};
use crate::kinds;
use crate::kinds::normalize_kind;
use crate::order;
use crate::position;
use crate::position::{ByteRange, PositionConverter, Range, Snapshot};
use crate::symbols;
use crate::symbols::{
    NormalizedSymbol, SymbolError, SymbolErrorView, SymbolLimits, SymbolView,
};
use crate::text;

verus! {

/// The greatest value of an LSP `uinteger`.
pub const MAXIMUM_LSP_UINTEGER: u32 = 2_147_483_647;

/// A hierarchical document symbol as a language server reports it.
#[derive(Debug, PartialEq, Eq)]
pub struct ServerSymbol {
    /// Unqualified name.
    pub name: String,
    /// Optional detail.
    pub detail: Option<String>,
    /// LSP number of the kind.
    pub kind: u32,
    /// Enclosing range.
    pub range: Range,
    /// Range to reveal.
    pub selection_range: Range,
    /// Nested symbols.
    pub children: Option<Vec<ServerSymbol>>,
}

/// The mathematical value of a [`ServerSymbol`].
#[verifier::ext_equal]
pub struct ServerSymbolView {
    pub name: Seq<char>,
    pub detail: Option<Seq<char>>,
    pub kind: u32,
    pub range: Range,
    pub selection_range: Range,
    pub children: Option<Seq<ServerSymbolView>>,
}

/// The mathematical value of a document symbol.
pub open spec fn server_symbol_view(symbol: ServerSymbol) -> ServerSymbolView
    decreases symbol,
{
    ServerSymbolView {
        name: symbol.name@,
        detail: order::optional_text(symbol.detail),
        kind: symbol.kind,
        range: symbol.range,
        selection_range: symbol.selection_range,
        children: match symbol.children {
            None => None,
            Some(children) => Some(
                Seq::new(
                    children@.len(),
                    |i: int|
                        if 0 <= i < children@.len() {
                            server_symbol_view(children[i])
                        } else {
                            arbitrary()
                        },
                ),
            ),
        },
    }
}

impl View for ServerSymbol {
    type V = ServerSymbolView;

    open spec fn view(&self) -> ServerSymbolView {
        server_symbol_view(*self)
    }
}

/// The values of a list of document symbols.
pub open spec fn server_symbols_view(symbols: Seq<ServerSymbol>) -> Seq<ServerSymbolView> {
    Seq::new(symbols.len(), |i: int| symbols[i]@)
}

/// The nested symbols of a document symbol.
pub open spec fn children_of(symbol: ServerSymbolView) -> Seq<ServerSymbolView> {
    match symbol.children {
        Some(children) => children,
        None => Seq::empty(),
    }
}

/// One symbol of a flattened hierarchy.
#[verifier::ext_equal]
pub struct FlatSymbol {
    /// The symbol itself.
    pub symbol: ServerSymbolView,
    /// Its depth, with roots at depth one.
    pub depth: nat,
    /// Its breadcrumb, including itself.
    pub path: Seq<Seq<char>>,
}

/// The UTF-8 bytes of a breadcrumb.
pub open spec fn path_bytes(path: Seq<Seq<char>>) -> nat
    decreases path.len(),
{
    if path.len() == 0 {
        0
    } else {
        path_bytes(path.drop_last()) + text::utf8(path.last()).len()
    }
}

/// A hierarchy in preorder: each symbol, then its nested symbols, then the
/// symbols after it.
pub open spec fn flattened(
    symbols: Seq<ServerSymbolView>,
    parent: Seq<Seq<char>>,
    depth: nat,
) -> Seq<FlatSymbol>
    decreases symbols,
{
    if symbols.len() == 0 {
        Seq::empty()
    } else {
        flattened_one(symbols[0], parent, depth) + flattened(
            symbols.subrange(1, symbols.len() as int),
            parent,
            depth,
        )
    }
}

/// One symbol and its nested symbols in preorder.
pub open spec fn flattened_one(symbol: ServerSymbolView, parent: Seq<Seq<char>>, depth: nat) -> Seq<
    FlatSymbol,
>
    decreases symbol,
{
    let path = parent.push(symbol.name);
    seq![FlatSymbol { symbol, depth, path }] + match symbol.children {
        Some(children) => flattened(children, path, depth + 1),
        None => Seq::empty(),
    }
}

/// How far normalization has come.
pub struct Progress {
    /// Symbols visited.
    pub visited: nat,
    /// Symbols visited or waiting to be.
    pub discovered: nat,
    /// Owned string bytes of the symbols kept.
    pub storage: nat,
    /// Scalar values examined by position conversion.
    pub scanned: nat,
}

/// The refusal of an exceeded bound.
pub open spec fn exceeded(resource: Seq<char>, maximum: u64) -> SymbolErrorView {
    SymbolErrorView::ResourceLimitExceeded { resource, maximum }
}

/// Whether both positions of a range are LSP `uinteger`s.
pub open spec fn is_wire_range(range: Range) -> bool {
    &&& range.start.line <= MAXIMUM_LSP_UINTEGER
    &&& range.start.character <= MAXIMUM_LSP_UINTEGER
    &&& range.end.line <= MAXIMUM_LSP_UINTEGER
    &&& range.end.character <= MAXIMUM_LSP_UINTEGER
}

/// Whether one byte range lies within another.
pub open spec fn encloses(outer: ByteRange, inner: ByteRange) -> bool {
    outer.start <= inner.start && inner.end <= outer.end
}

/// The UTF-8 bytes of an optional detail.
pub open spec fn detail_bytes(detail: Option<Seq<char>>) -> nat {
    match detail {
        Some(detail) => text::utf8(detail).len(),
        None => 0,
    }
}

/// The owned string bytes of a kept symbol: its name twice, its detail, and
/// its breadcrumb.
pub open spec fn owned_bytes(flat: FlatSymbol) -> nat {
    2 * text::utf8(flat.symbol.name).len() + detail_bytes(flat.symbol.detail) + path_bytes(
        flat.path,
    )
}

/// Why the shape and texts of a symbol are refused, if they are.
pub open spec fn text_refusal(flat: FlatSymbol, progress: Progress, limits: SymbolLimits) -> Option<
    SymbolErrorView,
> {
    let symbol = flat.symbol;
    if progress.visited + 1 > limits.maximum_raw_symbols {
        Some(exceeded("raw_document_symbols"@, limits.maximum_raw_symbols))
    } else if flat.depth > limits.maximum_depth {
        Some(exceeded("symbol_nesting_depth"@, limits.maximum_depth))
    } else if symbol.name.len() == 0 || !is_wire_range(symbol.range) || !is_wire_range(
        symbol.selection_range,
    ) {
        Some(SymbolErrorView::MalformedDocumentSymbols)
    } else if text::utf8(symbol.name).len() > limits.maximum_name_bytes {
        Some(exceeded("symbol_name_bytes"@, limits.maximum_name_bytes))
    } else if detail_bytes(symbol.detail) > limits.maximum_detail_bytes {
        Some(exceeded("symbol_detail_bytes"@, limits.maximum_detail_bytes))
    } else if path_bytes(flat.path) > limits.maximum_path_bytes {
        Some(exceeded("symbol_path_bytes"@, limits.maximum_path_bytes))
    } else {
        None
    }
}

/// Why keeping a symbol with valid ranges is refused, if it is.
pub open spec fn storage_refusal(
    flat: FlatSymbol,
    progress: Progress,
    limits: SymbolLimits,
) -> Option<SymbolErrorView> {
    if progress.storage + owned_bytes(flat) > limits.maximum_candidate_storage_bytes {
        Some(
            exceeded(
                "symbol_candidate_storage_bytes"@,
                limits.maximum_candidate_storage_bytes,
            ),
        )
    } else if flat.symbol.children is Some && progress.discovered + children_of(flat.symbol).len()
        > limits.maximum_raw_symbols {
        Some(exceeded("raw_document_symbols"@, limits.maximum_raw_symbols))
    } else if flat.symbol.children is Some && flat.depth + 1 > u64::MAX {
        Some(exceeded("symbol_nesting_depth"@, limits.maximum_depth))
    } else if progress.visited + 1 > limits.maximum_flattened_symbols {
        Some(exceeded("flattened_document_symbols"@, limits.maximum_flattened_symbols))
    } else {
        None
    }
}

/// The normalized form of a symbol with its converted ranges.
pub open spec fn normalized_symbol(
    flat: FlatSymbol,
    byte_range: ByteRange,
    selection_byte_range: ByteRange,
) -> SymbolView {
    SymbolView {
        name: flat.symbol.name,
        detail: flat.symbol.detail,
        kind: kinds::kind_of_number(flat.symbol.kind),
        symbol_path: flat.path,
        lsp_range: flat.symbol.range,
        lsp_selection_range: flat.symbol.selection_range,
        byte_range,
        selection_byte_range,
    }
}

/// What visiting one symbol gives, and the scalar values examined in all.
pub open spec fn visited(
    flat: FlatSymbol,
    progress: Progress,
    snapshot: Snapshot,
    limits: SymbolLimits,
) -> (Result<SymbolView, SymbolErrorView>, nat) {
    match text_refusal(flat, progress, limits) {
        Some(error) => (Err(error), progress.scanned),
        None => match position::range_to_bytes(
            snapshot.encoding,
            snapshot.bytes,
            flat.symbol.range,
            progress.scanned,
            snapshot.limit,
        ) {
            (Err(error), scanned) => (Err(SymbolErrorView::Position(error)), scanned),
            (Ok(byte_range), scanned) => match position::range_to_bytes(
                snapshot.encoding,
                snapshot.bytes,
                flat.symbol.selection_range,
                scanned,
                snapshot.limit,
            ) {
                (Err(error), scanned) => (Err(SymbolErrorView::Position(error)), scanned),
                (Ok(selection), scanned) => if !encloses(byte_range, selection) {
                    (Err(SymbolErrorView::SelectionRangeNotContained), scanned)
                } else {
                    match storage_refusal(flat, progress, limits) {
                        Some(error) => (Err(error), scanned),
                        None => (Ok(normalized_symbol(flat, byte_range, selection)), scanned),
                    }
                },
            },
        },
    }
}

/// The progress after keeping a symbol.
pub open spec fn advanced(flat: FlatSymbol, progress: Progress, scanned: nat) -> Progress {
    Progress {
        visited: progress.visited + 1,
        discovered: progress.discovered + children_of(flat.symbol).len(),
        storage: progress.storage + owned_bytes(flat),
        scanned,
    }
}

/// What visiting symbols in order gives, and the scalar values examined in
/// all; the first refused symbol decides.
pub open spec fn visited_all(
    flats: Seq<FlatSymbol>,
    progress: Progress,
    snapshot: Snapshot,
    limits: SymbolLimits,
) -> (Result<Seq<SymbolView>, SymbolErrorView>, nat)
    decreases flats.len(),
{
    if flats.len() == 0 {
        (Ok(Seq::empty()), progress.scanned)
    } else {
        match visited(flats[0], progress, snapshot, limits) {
            (Err(error), scanned) => (Err(error), scanned),
            (Ok(symbol), scanned) => match visited_all(
                flats.drop_first(),
                advanced(flats[0], progress, scanned),
                snapshot,
                limits,
            ) {
                (Err(error), scanned) => (Err(error), scanned),
                (Ok(rest), scanned) => (Ok(seq![symbol] + rest), scanned),
            },
        }
    }
}

/// What normalizing a hierarchy gives, and the scalar values examined in all.
pub open spec fn normalized(
    roots: Seq<ServerSymbolView>,
    scanned: nat,
    snapshot: Snapshot,
    limits: SymbolLimits,
) -> (Result<Seq<SymbolView>, SymbolErrorView>, nat) {
    if roots.len() > limits.maximum_raw_symbols {
        (Err(exceeded("raw_document_symbols"@, limits.maximum_raw_symbols)), scanned)
    } else {
        visited_all(
            flattened(roots, Seq::empty(), 1),
            Progress { visited: 0, discovered: roots.len(), storage: 0, scanned },
            snapshot,
            limits,
        )
    }
}

/// Whether a normalization outcome has the given value.
pub open spec fn normalizes_as(
    outcome: Result<Vec<NormalizedSymbol>, SymbolError>,
    expected: Result<Seq<SymbolView>, SymbolErrorView>,
) -> bool {
    match outcome {
        Ok(kept) => expected == Ok::<Seq<SymbolView>, SymbolErrorView>(
            symbols::symbols_view(kept@),
        ),
        Err(error) => expected == Err::<Seq<SymbolView>, SymbolErrorView>(error@),
    }
}

/// A name with the names that enclose it.
struct PathNode {
    name: String,
    parent: Option<Arc<PathNode>>,
}

/// The breadcrumb of a node.
spec fn node_path(node: PathNode) -> Seq<Seq<char>>
    decreases node,
{
    match node.parent {
        None => seq![node.name@],
        Some(parent) => node_path(*parent).push(node.name@),
    }
}

/// The breadcrumb of an optional node.
spec fn parent_path(parent: Option<Arc<PathNode>>) -> Seq<Seq<char>> {
    match parent {
        None => Seq::empty(),
        Some(parent) => node_path(*parent),
    }
}

/// Collects the breadcrumb of a node.
fn materialize_path(node: &PathNode) -> (path: Vec<String>)
    ensures
        order::path_view(path@) == node_path(*node),
{
    let mut reversed: Vec<String> = Vec::new();
    let mut current: &PathNode = node;
    let ghost full = node_path(*node);
    reversed.push(current.name.clone());
    loop
        invariant
            full == node_path(*node),
            reversed@.len() > 0,
            reversed@.last()@ == current.name@,
            full.len() == node_path(*current).len() + reversed@.len() - 1,
            node_path(*current) == full.take(node_path(*current).len() as int),
            forall|i: int|
                0 <= i < reversed@.len() ==> (#[trigger] reversed@[i])@ == full[full.len() - 1 - i],
        ensures
            full.len() == reversed@.len(),
            forall|i: int|
                0 <= i < reversed@.len() ==> (#[trigger] reversed@[i])@ == full[full.len() - 1 - i],
        decreases *current,
    {
        match &current.parent {
            None => {
                break ;
            },
            Some(parent) => {
                let next: &PathNode = &**parent;
                proof {
                    let here = node_path(*current);
                    let above = node_path(*next);
                    assert(here == above.push(current.name@));
                    assert(above =~= here.take(above.len() as int));
                    assert(above =~= full.take(above.len() as int));
                    assert(above.len() > 0 && above.last() == next.name@);
                    assert(full[above.len() - 1] == above[above.len() - 1]);
                    assert(decreases_to!(*current => current.parent));
                    assert(decreases_to!(current.parent => current.parent->Some_0));
                }
                reversed.push(next.name.clone());
                current = next;
            },
        }
    }
    let mut path: Vec<String> = Vec::new();
    let ghost total = reversed@.len();
    while reversed.len() > 0
        invariant
            full == node_path(*node),
            full.len() == total,
            reversed@.len() + path@.len() == total,
            forall|i: int|
                0 <= i < reversed@.len() ==> (#[trigger] reversed@[i])@ == full[full.len() - 1 - i],
            forall|i: int| 0 <= i < path@.len() ==> (#[trigger] path@[i])@ == full[i],
        decreases reversed@.len(),
    {
        match reversed.pop() {
            Some(name) => {
                path.push(name);
            },
            None => {},
        }
    }
    assert(order::path_view(path@) =~= full);
    path
}

/// A symbol that waits to be visited.
struct PendingSymbol {
    symbol: ServerSymbol,
    parent: Option<Arc<PathNode>>,
    parent_bytes: u64,
    depth: u64,
}

/// Whether the recorded bytes of a pending symbol's parents are right.
spec fn pending_wf(pending: PendingSymbol) -> bool {
    pending.parent_bytes == path_bytes(parent_path(pending.parent))
}

/// The symbols that a stack of pending symbols stands for, top first.
spec fn pending_flats(stack: Seq<PendingSymbol>) -> Seq<FlatSymbol>
    decreases stack.len(),
{
    if stack.len() == 0 {
        Seq::empty()
    } else {
        flattened_one(
            stack.last().symbol@,
            parent_path(stack.last().parent),
            stack.last().depth as nat,
        ) + pending_flats(stack.drop_last())
    }
}

/// An outcome after symbols that were kept earlier.
spec fn prepended(
    earlier: Seq<SymbolView>,
    outcome: (Result<Seq<SymbolView>, SymbolErrorView>, nat),
) -> (Result<Seq<SymbolView>, SymbolErrorView>, nat) {
    match outcome {
        (Ok(later), scanned) => (Ok(earlier + later), scanned),
        (Err(error), scanned) => (Err(error), scanned),
    }
}

/// Refuses a count above its bound.
pub fn enforce_limit(actual: u64, maximum: u64, resource: &'static str) -> (outcome: Result<
    (),
    SymbolError,
>)
    ensures
        match outcome {
            Ok(()) => actual <= maximum,
            Err(error) => actual > maximum && error == (SymbolError::ResourceLimitExceeded {
                resource,
                maximum,
            }),
        },
{
    if actual > maximum {
        return Err(SymbolError::ResourceLimitExceeded { resource, maximum });
    }
    Ok(())
}

/// Refuses a text longer than its bound.
pub fn enforce_byte_length(value: &str, maximum: u64, resource: &'static str) -> (outcome: Result<
    (),
    SymbolError,
>)
    ensures
        match outcome {
            Ok(()) => text::utf8(value@).len() <= maximum,
            Err(error) => text::utf8(value@).len() > maximum && error == (
            SymbolError::ResourceLimitExceeded { resource, maximum }),
        },
{
    enforce_limit(value.as_bytes().len() as u64, maximum, resource)
}

/// Returns whether both positions of a range are LSP `uinteger`s.
fn wire_range_is_valid(range: Range) -> (valid: bool)
    ensures
        valid == is_wire_range(range),
{
    range.start.line <= MAXIMUM_LSP_UINTEGER && range.start.character <= MAXIMUM_LSP_UINTEGER
        && range.end.line <= MAXIMUM_LSP_UINTEGER && range.end.character <= MAXIMUM_LSP_UINTEGER
}

/// Returns whether one byte range lies within another.
fn range_contains(outer: ByteRange, inner: ByteRange) -> (contains: bool)
    ensures
        contains == encloses(outer, inner),
{
    outer.start <= inner.start && inner.end <= outer.end
}

/// Checks the shape and texts of a pending symbol, and returns the bytes of
/// its breadcrumb.
fn check_texts(pending: &PendingSymbol, raw: u64, limits: SymbolLimits, Ghost(progress): Ghost<
    Progress,
>) -> (checked: Result<u64, SymbolError>)
    requires
        pending_wf(*pending),
        progress.visited == raw,
    ensures
        ({
            let flat = FlatSymbol {
                symbol: pending.symbol@,
                depth: pending.depth as nat,
                path: parent_path(pending.parent).push(pending.symbol.name@),
            };
            match checked {
                Ok(bytes) => text_refusal(flat, progress, limits) is None && bytes == path_bytes(
                    flat.path,
                ) && raw < u64::MAX,
                Err(error) => text_refusal(flat, progress, limits) == Some(error@),
            }
        }),
{
    let ghost parent = parent_path(pending.parent);
    let symbol: &ServerSymbol = &pending.symbol;
    proof {
        assert(parent.push(symbol.name@).drop_last() =~= parent);
    }
    if raw >= limits.maximum_raw_symbols {
        return Err(
            SymbolError::ResourceLimitExceeded {
                resource: "raw_document_symbols",
                maximum: limits.maximum_raw_symbols,
            },
        );
    }
    match enforce_limit(pending.depth, limits.maximum_depth, "symbol_nesting_depth") {
        Ok(()) => {},
        Err(error) => return Err(error),
    }
    if symbol.name.as_str().is_empty() || !wire_range_is_valid(symbol.range)
        || !wire_range_is_valid(symbol.selection_range) {
        return Err(SymbolError::MalformedDocumentSymbols);
    }
    match enforce_byte_length(
        symbol.name.as_str(),
        limits.maximum_name_bytes,
        "symbol_name_bytes",
    ) {
        Ok(()) => {},
        Err(error) => return Err(error),
    }
    match &symbol.detail {
        Some(detail) => match enforce_byte_length(
            detail.as_str(),
            limits.maximum_detail_bytes,
            "symbol_detail_bytes",
        ) {
            Ok(()) => {},
            Err(error) => return Err(error),
        },
        None => {},
    }
    let name_bytes: u64 = symbol.name.as_str().as_bytes().len() as u64;
    match pending.parent_bytes.checked_add(name_bytes) {
        Some(total) if total <= limits.maximum_path_bytes => Ok(total),
        _ => Err(
            SymbolError::ResourceLimitExceeded {
                resource: "symbol_path_bytes",
                maximum: limits.maximum_path_bytes,
            },
        ),
    }
}

/// Adds the owned bytes of a symbol to the bytes kept, within their bound.
fn add_storage(
    storage: u64,
    name: &String,
    detail: &Option<String>,
    breadcrumb_bytes: u64,
    maximum: u64,
) -> (total: Result<u64, SymbolError>)
    ensures
        ({
            let expected = storage + 2 * text::utf8(name@).len() + detail_bytes(
                order::optional_text(*detail),
            ) + breadcrumb_bytes;
            match total {
                Ok(total) => total == expected && expected <= maximum,
                Err(error) => expected > maximum && error == (SymbolError::ResourceLimitExceeded {
                    resource: "symbol_candidate_storage_bytes",
                    maximum,
                }),
            }
        }),
{
    let name_bytes: u64 = name.as_str().as_bytes().len() as u64;
    let detail_length: u64 = match detail {
        Some(detail) => detail.as_str().as_bytes().len() as u64,
        None => 0,
    };
    let refused = SymbolError::ResourceLimitExceeded {
        resource: "symbol_candidate_storage_bytes",
        maximum,
    };
    let total: u64 = match storage.checked_add(name_bytes) {
        Some(total) => total,
        None => return Err(refused),
    };
    let total: u64 = match total.checked_add(name_bytes) {
        Some(total) => total,
        None => return Err(refused),
    };
    let total: u64 = match total.checked_add(detail_length) {
        Some(total) => total,
        None => return Err(refused),
    };
    let total: u64 = match total.checked_add(breadcrumb_bytes) {
        Some(total) => total,
        None => return Err(refused),
    };
    if total > maximum {
        return Err(refused);
    }
    Ok(total)
}

/// Pushes symbols so that the first one is on top of the stack.
fn push_pending(
    stack: &mut Vec<PendingSymbol>,
    children: Vec<ServerSymbol>,
    parent: Option<Arc<PathNode>>,
    parent_bytes: u64,
    depth: u64,
)
    requires
        parent_bytes == path_bytes(parent_path(parent)),
        forall|i: int| 0 <= i < old(stack)@.len() ==> pending_wf(#[trigger] old(stack)@[i]),
    ensures
        forall|i: int| 0 <= i < final(stack)@.len() ==> pending_wf(#[trigger] final(stack)@[i]),
        final(stack)@.len() == old(stack)@.len() + children@.len(),
        pending_flats(final(stack)@) == flattened(
            server_symbols_view(children@),
            parent_path(parent),
            depth as nat,
        ) + pending_flats(old(stack)@),
{
    let ghost base = pending_flats(stack@);
    let ghost before = stack@.len();
    let ghost all = server_symbols_view(children@);
    let ghost path = parent_path(parent);
    let mut rest = children;
    proof {
        let none = all.subrange(all.len() as int, all.len() as int);
        assert(none.len() == 0);
        assert(flattened(none, path, depth as nat) =~= Seq::<FlatSymbol>::empty());
        assert(Seq::<FlatSymbol>::empty() + base =~= base);
    }
    while rest.len() > 0
        invariant
            all.len() >= rest@.len(),
            forall|i: int| 0 <= i < rest@.len() ==> (#[trigger] rest@[i])@ == all[i],
            path == parent_path(parent),
            parent_bytes == path_bytes(path),
            forall|i: int| 0 <= i < stack@.len() ==> pending_wf(#[trigger] stack@[i]),
            stack@.len() == before + all.len() - rest@.len(),
            pending_flats(stack@) == flattened(
                all.subrange(rest@.len() as int, all.len() as int),
                path,
                depth as nat,
            ) + base,
        decreases rest@.len(),
    {
        let ghost size = rest@.len() as int;
        match rest.pop() {
            Some(symbol) => {
                let ghost view = symbol@;
                let ghost under = stack@;
                let shared: Option<Arc<PathNode>> = share(&parent);
                stack.push(PendingSymbol { symbol, parent: shared, parent_bytes, depth });
                proof {
                    let tail = all.subrange(size, all.len() as int);
                    let longer = all.subrange(size - 1, all.len() as int);
                    assert(longer[0] == view);
                    assert(longer.subrange(1, longer.len() as int) =~= tail);
                    assert(stack@.drop_last() =~= under);
                    assert(flattened_one(view, path, depth as nat) + (flattened(
                        tail,
                        path,
                        depth as nat,
                    ) + base) =~= (flattened_one(view, path, depth as nat) + flattened(
                        tail,
                        path,
                        depth as nat,
                    )) + base);
                }
            },
            None => {},
        }
    }
    assert(all.subrange(0, all.len() as int) =~= all);
}

/// Another handle to the same parent.
fn share(parent: &Option<Arc<PathNode>>) -> (shared: Option<Arc<PathNode>>)
    ensures
        shared == *parent,
{
    match parent {
        Some(node) => Some(Arc::clone(node)),
        None => None,
    }
}

/// Validates and iteratively flattens already-decoded hierarchical symbols.
///
/// This entry point is useful when the caller has a structurally unambiguous
/// typed hierarchy. Wire-facing callers should use [`normalize_document_symbols`].
/// Every symbol and selection range is converted before resolution.
///
/// # Errors
///
/// Returns a resource error for oversized hierarchies or strings, and a range
/// error for invalid or non-contained positions.
pub fn normalize_hierarchical_symbols(
    roots: Vec<ServerSymbol>,
    converter: &mut PositionConverter<'_>,
    limits: SymbolLimits,
) -> (outcome: Result<Vec<NormalizedSymbol>, SymbolError>)
    requires
        old(converter).wf(),
    ensures
        final(converter).wf(),
        final(converter).snapshot() == old(converter).snapshot(),
        ({
            let (expected, scanned) = normalized(
                server_symbols_view(roots@),
                old(converter).scanned(),
                old(converter).snapshot(),
                limits,
            );
            normalizes_as(outcome, expected) && final(converter).scanned() == scanned
        }),
{
    let ghost snapshot = converter.snapshot();
    let ghost views = server_symbols_view(roots@);
    let ghost all = flattened(views, Seq::empty(), 1);
    let ghost start = Progress {
        visited: 0,
        discovered: views.len(),
        storage: 0,
        scanned: converter.scanned(),
    };
    match enforce_limit(roots.len() as u64, limits.maximum_raw_symbols, "raw_document_symbols") {
        Ok(()) => {},
        Err(error) => return Err(error),
    }
    let mut stack: Vec<PendingSymbol> = Vec::new();
    push_pending(&mut stack, roots, None, 0, 1);
    let mut raw: u64 = 0;
    let mut storage: u64 = 0;
    let mut kept: Vec<NormalizedSymbol> = Vec::new();
    let ghost mut progress = start;
    proof {
        assert(pending_flats(stack@) =~= all);
        assert(symbols::symbols_view(kept@) =~= Seq::<SymbolView>::empty());
        lemma_prepend_nothing(visited_all(all, start, snapshot, limits));
    }
    while stack.len() > 0
        invariant
            converter.wf(),
            converter.snapshot() == old(converter).snapshot(),
            snapshot == old(converter).snapshot(),
            views.len() <= limits.maximum_raw_symbols,
            all == flattened(views, Seq::empty(), 1),
            views == server_symbols_view(roots@),
            start == (Progress {
                visited: 0,
                discovered: views.len(),
                storage: 0,
                scanned: old(converter).scanned(),
            }),
            forall|i: int| 0 <= i < stack@.len() ==> pending_wf(#[trigger] stack@[i]),
            progress.visited == raw,
            progress.discovered == stack@.len() + raw,
            progress.storage == storage,
            progress.scanned == converter.scanned(),
            visited_all(all, start, snapshot, limits) == prepended(
                symbols::symbols_view(kept@),
                visited_all(pending_flats(stack@), progress, snapshot, limits),
            ),
        decreases pending_flats(stack@).len(),
    {
        let ghost whole = pending_flats(stack@);
        let ghost earlier = symbols::symbols_view(kept@);
        let ghost below = pending_flats(stack@.drop_last());
        let ghost top = stack@.last();
        let pending = match stack.pop() {
            Some(pending) => pending,
            None => return Ok(kept),
        };
        let ghost path = parent_path(pending.parent).push(pending.symbol.name@);
        let ghost flat = FlatSymbol {
            symbol: pending.symbol@,
            depth: pending.depth as nat,
            path,
        };
        let ghost nested = match flat.symbol.children {
            Some(children) => flattened(children, path, flat.depth + 1),
            None => Seq::empty(),
        };
        proof {
            assert(whole =~= seq![flat] + (nested + below));
            assert(whole[0] == flat);
            assert(whole.drop_first() =~= nested + below);
        }
        let breadcrumb_bytes: u64 = match check_texts(&pending, raw, limits, Ghost(progress)) {
            Ok(bytes) => bytes,
            Err(error) => return Err(error),
        };
        let byte_range = match converter.lsp_range_to_byte_range(pending.symbol.range) {
            Ok(byte_range) => byte_range,
            Err(error) => return Err(SymbolError::Position(error)),
        };
        let selection_byte_range = match converter.lsp_range_to_byte_range(
            pending.symbol.selection_range,
        ) {
            Ok(selection_byte_range) => selection_byte_range,
            Err(error) => return Err(SymbolError::Position(error)),
        };
        if !range_contains(byte_range, selection_byte_range) {
            return Err(SymbolError::SelectionRangeNotContained);
        }
        let PendingSymbol { symbol, parent, parent_bytes: _, depth } = pending;
        let ServerSymbol { name, detail, kind, range, selection_range, children } = symbol;
        let total: u64 = match add_storage(
            storage,
            &name,
            &detail,
            breadcrumb_bytes,
            limits.maximum_candidate_storage_bytes,
        ) {
            Ok(total) => total,
            Err(error) => return Err(error),
        };
        let node: Arc<PathNode> = Arc::new(PathNode { name: name.clone(), parent });
        let symbol_path = materialize_path(&*node);
        proof {
            assert(node_path(*node) =~= path);
        }
        let ghost nested_count = children_of(flat.symbol).len();
        let ghost under = stack@.len();
        match children {
            Some(children) => {
                proof {
                    assert(server_symbols_view(children@) =~= flat.symbol.children->Some_0);
                }
                let pending_count: Option<u64> = match (stack.len() as u64).checked_add(raw + 1) {
                    Some(waiting) => waiting.checked_add(children.len() as u64),
                    None => None,
                };
                let within = match pending_count {
                    Some(count) => count <= limits.maximum_raw_symbols,
                    None => false,
                };
                if !within {
                    return Err(
                        SymbolError::ResourceLimitExceeded {
                            resource: "raw_document_symbols",
                            maximum: limits.maximum_raw_symbols,
                        },
                    );
                }
                let child_depth: u64 = match depth.checked_add(1) {
                    Some(child_depth) => child_depth,
                    None => return Err(
                        SymbolError::ResourceLimitExceeded {
                            resource: "symbol_nesting_depth",
                            maximum: limits.maximum_depth,
                        },
                    ),
                };
                push_pending(&mut stack, children, Some(node), breadcrumb_bytes, child_depth);
            },
            None => {
                assert(nested + below =~= below);
            },
        }
        assert(pending_flats(stack@) =~= nested + below);
        if raw >= limits.maximum_flattened_symbols {
            return Err(
                SymbolError::ResourceLimitExceeded {
                    resource: "flattened_document_symbols",
                    maximum: limits.maximum_flattened_symbols,
                },
            );
        }
        kept.push(
            NormalizedSymbol {
                name,
                detail,
                kind: normalize_kind(kind),
                symbol_path,
                lsp_range: range,
                lsp_selection_range: selection_range,
                byte_range,
                selection_byte_range,
            },
        );
        raw = raw + 1;
        storage = total;
        proof {
            let view = normalized_symbol(flat, byte_range, selection_byte_range);
            assert(kept@.last()@ =~= view);
            assert(symbols::symbols_view(kept@) =~= earlier.push(view));
            let rest = visited_all(
                nested + below,
                advanced(flat, progress, converter.scanned()),
                snapshot,
                limits,
            );
            lemma_prepend_step(earlier, view, rest);
            progress = advanced(flat, progress, converter.scanned());
        }
    }
    proof {
        assert(pending_flats(stack@) =~= Seq::<FlatSymbol>::empty());
        assert(symbols::symbols_view(kept@) + Seq::<SymbolView>::empty() =~= symbols::symbols_view(
            kept@,
        ));
    }
    Ok(kept)
}

proof fn lemma_prepend_nothing(outcome: (Result<Seq<SymbolView>, SymbolErrorView>, nat))
    ensures
        prepended(Seq::empty(), outcome) == outcome,
{
    match outcome {
        (Ok(later), _) => {
            assert(Seq::<SymbolView>::empty() + later =~= later);
        },
        (Err(_), _) => {},
    }
}

proof fn lemma_prepend_step(
    earlier: Seq<SymbolView>,
    symbol: SymbolView,
    rest: (Result<Seq<SymbolView>, SymbolErrorView>, nat),
)
    ensures
        prepended(earlier, prepended(seq![symbol], rest)) == prepended(earlier.push(symbol), rest),
{
    match rest {
        (Ok(later), _) => {
            assert(earlier + (seq![symbol] + later) =~= earlier.push(symbol) + later);
        },
        (Err(_), _) => {},
    }
}

/// Declares `gen_lsp_types::DocumentSymbol`, which only the conversion below
/// looks into.
#[verifier::external_type_specification]
#[verifier::external_body]
pub struct ExDocumentSymbol(gen_lsp_types::DocumentSymbol);

/// Converts a `gen_lsp_types::DocumentSymbol` field by field, with the kind as
/// the number that `u32::from` gives for it.
#[verifier::external_body]
fn document_symbol_from_lsp(symbol: gen_lsp_types::DocumentSymbol) -> (converted: ServerSymbol) {
    let range = |range: gen_lsp_types::Range| Range {
        start: position::Position { line: range.start.line, character: range.start.character },
        end: position::Position { line: range.end.line, character: range.end.character },
    };
    ServerSymbol {
        name: symbol.name,
        detail: symbol.detail,
        kind: u32::from(symbol.kind),
        range: range(symbol.range),
        selection_range: range(symbol.selection_range),
        children: symbol.children.map(|nested| nested.into_iter().map(document_symbol_from_lsp).collect()),
    }
}

/// What `serde_json::from_value` makes of a value as a list of
/// `gen_lsp_types::DocumentSymbol`: the symbols, or nothing where it refuses
/// the value.
pub uninterp spec fn decoded_symbols(json: JsonView) -> Option<Seq<ServerSymbolView>>;

/// Decodes a list of hierarchical document symbols with
/// `serde_json::from_value` and the field rules of `gen_lsp_types`.
///
/// The outcome depends on the value alone and is named [`decoded_symbols`].
#[verifier::external_body]
fn decode_symbols(json: &Json) -> (decoded: Option<Vec<ServerSymbol>>)
    ensures
        match decoded {
            Some(list) => decoded_symbols(json@) == Some(server_symbols_view(list@)),
            None => decoded_symbols(json@) is None,
        },
{
    let value = json::value_from_json(json);
    match serde_json::from_value::<Vec<gen_lsp_types::DocumentSymbol>>(value) {
        Ok(list) => Some(list.into_iter().map(document_symbol_from_lsp).collect()),
        Err(_) => None,
    }
}

/// The shape of a document-symbol result.
#[derive(Clone, Copy, Debug, PartialEq, Eq, Structural)]
pub enum ResponseShape {
    /// `null` or an empty array.
    Empty,
    /// A nonempty array of records with a `location`.
    Flat,
    /// A nonempty array of records with a `range` and a `selectionRange`.
    Hierarchical,
    /// Anything else.
    Malformed,
}

/// The shape of a document-symbol result, by its wire fields.
pub open spec fn shape_of(response: JsonView) -> ResponseShape {
    match response {
        JsonView::Null => ResponseShape::Empty,
        JsonView::Array(items) => if items.len() == 0 {
            ResponseShape::Empty
        } else if forall|i: int|
            0 <= i < items.len() ==> json::json_member(#[trigger] items[i], "location"@) is Some {
            ResponseShape::Flat
        } else if forall|i: int|
            0 <= i < items.len() ==> json::json_member(#[trigger] items[i], "range"@) is Some
                && json::json_member(items[i], "selectionRange"@) is Some {
            ResponseShape::Hierarchical
        } else {
            ResponseShape::Malformed
        },
        _ => ResponseShape::Malformed,
    }
}

/// Returns the shape of a document-symbol result.
pub fn response_shape(response: &Json) -> (shape: ResponseShape)
    ensures
        shape == shape_of(response@),
{
    match response {
        Json::Null => ResponseShape::Empty,
        Json::Array(items) => {
            let ghost views = json::items_view(items@);
            proof {
                json::lemma_array_view(*items);
            }
            if items.len() == 0 {
                return ResponseShape::Empty;
            }
            let mut flat = true;
            let mut hierarchical = true;
            let mut index: usize = 0;
            while index < items.len()
                invariant
                    views == json::items_view(items@),
                    index <= items@.len(),
                    flat == (forall|i: int|
                        0 <= i < index ==> json::json_member(#[trigger] views[i], "location"@)
                            is Some),
                    hierarchical == (forall|i: int|
                        0 <= i < index ==> json::json_member(#[trigger] views[i], "range"@) is Some
                            && json::json_member(views[i], "selectionRange"@) is Some),
                decreases items@.len() - index,
            {
                let item: &Json = &items[index];
                assert(views[index as int] == item@);
                if item.get("location").is_none() {
                    flat = false;
                }
                if item.get("range").is_none() || item.get("selectionRange").is_none() {
                    hierarchical = false;
                }
                index = index + 1;
            }
            if flat {
                ResponseShape::Flat
            } else if hierarchical {
                ResponseShape::Hierarchical
            } else {
                ResponseShape::Malformed
            }
        },
        _ => ResponseShape::Malformed,
    }
}

/// The root symbols of a result of some shape, given what the decoder made of
/// it.
pub open spec fn roots_of(
    shape: ResponseShape,
    decoded: Option<Seq<ServerSymbolView>>,
) -> Result<Seq<ServerSymbolView>, SymbolErrorView> {
    match shape {
        ResponseShape::Empty => Ok(Seq::empty()),
        ResponseShape::Flat => Err(SymbolErrorView::FlatSymbolsUnsupported),
        ResponseShape::Malformed => Err(SymbolErrorView::MalformedDocumentSymbols),
        ResponseShape::Hierarchical => match decoded {
            Some(roots) => Ok(roots),
            None => Err(SymbolErrorView::MalformedDocumentSymbols),
        },
    }
}

/// Returns the root symbols of a result of some shape, given what the decoder
/// made of it.
pub fn roots_for_shape(shape: ResponseShape, decoded: Option<Vec<ServerSymbol>>) -> (roots: Result<
    Vec<ServerSymbol>,
    SymbolError,
>)
    ensures
        ({
            let expected = roots_of(
                shape,
                match decoded {
                    Some(list) => Some(server_symbols_view(list@)),
                    None => None,
                },
            );
            match roots {
                Ok(list) => expected == Ok::<Seq<ServerSymbolView>, SymbolErrorView>(
                    server_symbols_view(list@),
                ),
                Err(error) => expected == Err::<Seq<ServerSymbolView>, SymbolErrorView>(error@),
            }
        }),
{
    match shape {
        ResponseShape::Empty => {
            let none: Vec<ServerSymbol> = Vec::new();
            assert(server_symbols_view(none@) =~= Seq::<ServerSymbolView>::empty());
            Ok(none)
        },
        ResponseShape::Flat => Err(SymbolError::FlatSymbolsUnsupported),
        ResponseShape::Malformed => Err(SymbolError::MalformedDocumentSymbols),
        ResponseShape::Hierarchical => match decoded {
            Some(roots) => Ok(roots),
            None => Err(SymbolError::MalformedDocumentSymbols),
        },
    }
}

/// Decodes the root symbols of a document-symbol result.
fn decode_hierarchical_response(response: &Json) -> (roots: Result<
    Vec<ServerSymbol>,
    SymbolError,
>)
    ensures
        ({
            let expected = roots_of(shape_of(response@), decoded_symbols(response@));
            match roots {
                Ok(list) => expected == Ok::<Seq<ServerSymbolView>, SymbolErrorView>(
                    server_symbols_view(list@),
                ),
                Err(error) => expected == Err::<Seq<ServerSymbolView>, SymbolErrorView>(error@),
            }
        }),
{
    let shape = response_shape(response);
    let decoded = match shape {
        ResponseShape::Hierarchical => decode_symbols(response),
        _ => None,
    };
    roots_for_shape(shape, decoded)
}

/// What normalizing a raw document-symbol result gives, given what the decoder
/// made of it, and the scalar values examined in all.
pub open spec fn normalized_response(
    response: JsonView,
    decoded: Option<Seq<ServerSymbolView>>,
    scanned: nat,
    snapshot: Snapshot,
    limits: SymbolLimits,
) -> (Result<Seq<SymbolView>, SymbolErrorView>, nat) {
    match roots_of(shape_of(response), decoded) {
        Err(error) => (Err(error), scanned),
        Ok(roots) => normalized(roots, scanned, snapshot, limits),
    }
}

/// Decodes, validates, and iteratively flattens a raw document-symbol result.
///
/// Every enclosing and selection range is converted before any later query
/// filter can hide malformed server output. `null` and the structurally
/// ambiguous empty array both normalize to no symbols. Nonempty arrays are
/// classified by their wire fields before generated LSP types are used, so the
/// generated untagged enum cannot misclassify `[]` as flat symbols.
///
/// # Errors
///
/// Returns [`SymbolError::FlatSymbolsUnsupported`] for legacy flat responses,
/// [`SymbolError::MalformedDocumentSymbols`] for mixed or invalid shapes, a
/// resource error for oversized hierarchies or strings, and a range error for
/// invalid or non-contained positions.
pub fn normalize_document_symbols(
    response: Json,
    converter: &mut PositionConverter<'_>,
    limits: SymbolLimits,
) -> (outcome: Result<Vec<NormalizedSymbol>, SymbolError>)
    requires
        old(converter).wf(),
    ensures
        final(converter).wf(),
        final(converter).snapshot() == old(converter).snapshot(),
        ({
            let (expected, scanned) = normalized_response(
                response@,
                decoded_symbols(response@),
                old(converter).scanned(),
                old(converter).snapshot(),
                limits,
            );
            normalizes_as(outcome, expected) && final(converter).scanned() == scanned
        }),
{
    match decode_hierarchical_response(&response) {
        Ok(roots) => normalize_hierarchical_symbols(roots, converter, limits),
        Err(error) => Err(error),
    }
}

} // verus!
