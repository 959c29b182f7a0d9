//! The `outline` command: its filter, its records, and its output.

use vstd::prelude::*;
use vstd::string::StringExecFns;

use crate::digest;
use crate::digest::Sha256Digest;
use crate::edit_report::FsError;
use crate::json;
use crate::json::{json_number, json_text, named, Json, JsonView};
use crate::kinds;
use crate::kinds::{KnownSymbolKind, NormalizedSymbolKind};
use crate::normalize;
use crate::normalize::normalize_document_symbols;
use crate::order;
use crate::outline;
use crate::outline::{
    to_outline_json_line, OutlineErrorCode, OutlineErrorDto, OutlineErrorView, OutlineResponse,
    OutlineSymbolDto, OutlineSymbolView,
};
use crate::position;
use crate::position::{
    PositionConverter, PositionError, PositionLimits, SupportedPositionEncoding,
    DEFAULT_MAXIMUM_CODE_POINTS_SCANNED,
};
use crate::select_command;
use crate::select_command::{
    protocol_lsp_range, protocol_position_encoding, protocol_symbol_kind, SessionReport,
    SourceSnapshot,
};
use crate::select_report;
use crate::select_report::{
    conversion_work_error, map_filesystem_error, map_session_error, map_symbol_error,
    validate_server_identity, SessionError,
};
use crate::selection;
use crate::selection::{
    SelectionByteSelectorDto, SelectionErrorCode, SelectionErrorDto, SelectionErrorView,
    SelectionServerDto, SelectionSourceDto,
};
use crate::symbols;
use crate::symbols::{
    copy_optional_text, copy_path, order_unique_candidates, NormalizedSymbol, SymbolError,
    SymbolErrorView, SymbolLimits, SymbolView, DEFAULT_MAXIMUM_OUTLINE_SYMBOLS,
};
use crate::terminal;
use crate::terminal::escape_terminal_text;
use crate::text;
use crate::text::{push_decimal, text_equal};
use crate::wire;
use crate::wire::{copy_members, WarningDto, MAX_RESPONSE_BYTES};

verus! {

/// The outline code for a selection code.
pub open spec fn retargeted_code(code: SelectionErrorCode) -> OutlineErrorCode {
    match code {
        SelectionErrorCode::InvalidSelectionQuery => OutlineErrorCode::InvalidOutlineQuery,
        SelectionErrorCode::LspServerNotConfigured => OutlineErrorCode::LspServerNotConfigured,
        SelectionErrorCode::UnsupportedTextEncoding => OutlineErrorCode::UnsupportedTextEncoding,
        SelectionErrorCode::LspCapabilityUnavailable => OutlineErrorCode::LspCapabilityUnavailable,
        SelectionErrorCode::LspFlatSymbolsUnsupported => OutlineErrorCode::LspFlatSymbolsUnsupported,
        SelectionErrorCode::LspDocumentSyncUnavailable => OutlineErrorCode::LspDocumentSyncUnavailable,
        SelectionErrorCode::LspResourceLimitExceeded => OutlineErrorCode::LspResourceLimitExceeded,
        SelectionErrorCode::LspTimeout => OutlineErrorCode::LspTimeout,
        SelectionErrorCode::LspStartFailed => OutlineErrorCode::LspStartFailed,
        SelectionErrorCode::LspExited => OutlineErrorCode::LspExited,
        SelectionErrorCode::LspProtocolError => OutlineErrorCode::LspProtocolError,
        SelectionErrorCode::LspRequestFailed => OutlineErrorCode::LspRequestFailed,
        SelectionErrorCode::SelectionNotFound
        | SelectionErrorCode::SelectionAmbiguous
        | SelectionErrorCode::SelectionInternalError => OutlineErrorCode::OutlineInternalError,
    }
}

/// The outline's wording of a selection message: messages that name the
/// selection are reworded, and all others are kept.
pub open spec fn reworded(message: Seq<char>) -> Seq<char> {
    if message == "semantic selection exceeded a configured resource limit"@ {
        "the read-only outline exceeded a configured resource limit"@
    } else if message == "the language server did not respond before the selection deadline"@ {
        "the language server did not respond before the outline deadline"@
    } else if message == "the language server exited before selection completed"@ {
        "the language server exited before the outline completed"@
    } else {
        message
    }
}

/// The outline error for a selection error.
pub open spec fn retargeted(error: SelectionErrorView) -> OutlineErrorView {
    OutlineErrorView {
        code: retargeted_code(error.code),
        message: reworded(error.message),
        context: error.context,
    }
}

/// Returns the outline's wording of a selection message.
pub fn outline_message(original: &str) -> (message: String)
    ensures
        message@ == reworded(original@),
{
    if text_equal(original, "semantic selection exceeded a configured resource limit") {
        "the read-only outline exceeded a configured resource limit".to_owned()
    } else if text_equal(
        original,
        "the language server did not respond before the selection deadline",
    ) {
        "the language server did not respond before the outline deadline".to_owned()
    } else if text_equal(original, "the language server exited before selection completed") {
        "the language server exited before the outline completed".to_owned()
    } else {
        original.to_owned()
    }
}

/// Returns the outline code for a selection code.
fn retarget_code(code: SelectionErrorCode) -> (retargeted: OutlineErrorCode)
    ensures
        retargeted == retargeted_code(code),
{
    match code {
        SelectionErrorCode::InvalidSelectionQuery => OutlineErrorCode::InvalidOutlineQuery,
        SelectionErrorCode::LspServerNotConfigured => OutlineErrorCode::LspServerNotConfigured,
        SelectionErrorCode::UnsupportedTextEncoding => OutlineErrorCode::UnsupportedTextEncoding,
        SelectionErrorCode::LspCapabilityUnavailable => OutlineErrorCode::LspCapabilityUnavailable,
        SelectionErrorCode::LspFlatSymbolsUnsupported => OutlineErrorCode::LspFlatSymbolsUnsupported,
        SelectionErrorCode::LspDocumentSyncUnavailable => OutlineErrorCode::LspDocumentSyncUnavailable,
        SelectionErrorCode::LspResourceLimitExceeded => OutlineErrorCode::LspResourceLimitExceeded,
        SelectionErrorCode::LspTimeout => OutlineErrorCode::LspTimeout,
        SelectionErrorCode::LspStartFailed => OutlineErrorCode::LspStartFailed,
        SelectionErrorCode::LspExited => OutlineErrorCode::LspExited,
        SelectionErrorCode::LspProtocolError => OutlineErrorCode::LspProtocolError,
        SelectionErrorCode::LspRequestFailed => OutlineErrorCode::LspRequestFailed,
        SelectionErrorCode::SelectionNotFound
        | SelectionErrorCode::SelectionAmbiguous
        | SelectionErrorCode::SelectionInternalError => OutlineErrorCode::OutlineInternalError,
    }
}

/// Returns the outline error for a selection error.
pub fn retarget_report(report: &SelectionErrorDto) -> (error: OutlineErrorDto)
    ensures
        error@ == retargeted(report@),
{
    OutlineErrorDto::new(
        retarget_code(report.code()),
        outline_message(report.message()).as_str(),
        copy_members(report.context()),
    )
}

/// Returns the outline error for a refusal of the workspace.
pub fn outline_filesystem_error(error_value: &FsError) -> (error: OutlineErrorDto)
    ensures
        error@ == retargeted(select_report::filesystem_failure(*error_value)),
{
    retarget_report(&map_filesystem_error(error_value))
}

/// Returns the outline error for a failed session.
pub fn outline_session_error(error_value: &SessionError) -> (error: OutlineErrorDto)
    ensures
        error@ == retargeted(select_report::session_failure(*error_value)),
{
    retarget_report(&map_session_error(error_value))
}

/// Returns the outline error for failed normalization.
pub fn outline_symbol_error(error_value: &SymbolError) -> (error: OutlineErrorDto)
    ensures
        error@ == retargeted(select_report::symbol_failure(error_value@)),
{
    retarget_report(&map_symbol_error(error_value))
}

/// An error without context.
pub open spec fn plain(code: OutlineErrorCode, message: Seq<char>) -> OutlineErrorView {
    OutlineErrorView { code, message, context: Seq::empty() }
}

/// Returns an error without context.
fn plain_error(code: OutlineErrorCode, message: &str) -> (error: OutlineErrorDto)
    ensures
        error@ == plain(code, message@),
{
    let context: Vec<(String, Json)> = Vec::new();
    assert(json::members_view(context@) =~= Seq::<(Seq<char>, JsonView)>::empty());
    OutlineErrorDto::new(code, message, context)
}

/// The error for a failed invariant.
pub open spec fn internal(message: Seq<char>) -> OutlineErrorView {
    plain(OutlineErrorCode::OutlineInternalError, message)
}

/// Returns the error for a failed invariant.
pub fn outline_internal_error(message: &str) -> (error: OutlineErrorDto)
    ensures
        error@ == internal(message@),
{
    plain_error(OutlineErrorCode::OutlineInternalError, message)
}

/// Returns the error for a line index of another snapshot.
pub fn outline_protocol_error() -> (error: OutlineErrorDto)
    ensures
        error@ == plain(
            OutlineErrorCode::LspProtocolError,
            "the immutable source position index is invalid"@,
        ),
{
    plain_error(
        OutlineErrorCode::LspProtocolError,
        "the immutable source position index is invalid",
    )
}

/// The error for an exceeded resource limit.
pub open spec fn resource_exceeded(resource: Seq<char>, limit: usize) -> OutlineErrorView {
    OutlineErrorView {
        code: OutlineErrorCode::LspResourceLimitExceeded,
        message: "the read-only outline exceeded a configured resource limit"@,
        context: seq![
            ("limit"@, json::number_json(limit as u64)),
            ("resource"@, JsonView::String(resource)),
        ],
    }
}

/// Returns the error for an exceeded resource limit.
pub fn resource_limit_error(resource: &str, limit: usize) -> (error: OutlineErrorDto)
    ensures
        error@ == resource_exceeded(resource@, limit),
{
    proof {
        wire::lemma_context_keys_ascend();
    }
    let context = vec![
        named("limit", json_number(limit as u64)),
        named("resource", json_text(resource)),
    ];
    assert(json::members_view(context@) =~= resource_exceeded(resource@, limit).context);
    OutlineErrorDto::new(
        OutlineErrorCode::LspResourceLimitExceeded,
        "the read-only outline exceeded a configured resource limit",
        context,
    )
}

/// The error for printed output that is too large.
pub open spec fn oversized_text() -> OutlineErrorView {
    resource_exceeded("serialized_human_output"@, MAX_RESPONSE_BYTES as usize)
}

/// Returns the error for printed output that is too large.
pub fn human_size_error() -> (error: OutlineErrorDto)
    ensures
        error@ == oversized_text(),
{
    resource_limit_error("serialized_human_output", MAX_RESPONSE_BYTES as usize)
}

/// The error for a spelling that no kind has.
pub open spec fn unknown_kind() -> OutlineErrorView {
    plain(OutlineErrorCode::InvalidOutlineQuery, "the symbol kind is not recognized"@)
}

/// Whether some kind has this spelling.
pub open spec fn is_kind(spelling: Seq<char>) -> bool {
    exists|kind: KnownSymbolKind| #[trigger] kinds::kind_text(kind) == spelling
}

/// Parses the kind filters: the kinds of those spellings, in order, or an error
/// if a spelling is no kind's.
pub fn parse_kinds(values: &Vec<String>) -> (requested: Result<
    Vec<KnownSymbolKind>,
    OutlineErrorDto,
>)
    ensures
        match requested {
            Ok(requested) => requested@.len() == values@.len() && forall|i: int|
                0 <= i < values@.len() ==> kinds::kind_text(#[trigger] requested@[i])
                    == values@[i]@,
            Err(error) => error@ == unknown_kind() && exists|i: int|
                0 <= i < values@.len() && !is_kind((#[trigger] values@[i])@),
        },
{
    let mut requested: Vec<KnownSymbolKind> = Vec::new();
    let mut index: usize = 0;
    while index < values.len()
        invariant
            index <= values@.len(),
            requested@.len() == index,
            forall|i: int|
                0 <= i < index ==> kinds::kind_text(#[trigger] requested@[i]) == values@[i]@,
        decreases values@.len() - index,
    {
        match KnownSymbolKind::parse(values[index].as_str()) {
            Ok(kind) => {
                requested.push(kind);
            },
            Err(_) => {
                assert(!is_kind(values@[index as int]@));
                return Err(
                    plain_error(
                        OutlineErrorCode::InvalidOutlineQuery,
                        "the symbol kind is not recognized",
                    ),
                );
            },
        }
        index = index + 1;
    }
    Ok(requested)
}

/// Whether a kind passes the filters; no filter lets every kind pass.
pub open spec fn passes(kind: NormalizedSymbolKind, requested: Seq<KnownSymbolKind>) -> bool {
    requested.len() == 0 || exists|i: int|
        0 <= i < requested.len() && kind == NormalizedSymbolKind::Known(#[trigger] requested[i])
}

/// The candidates that pass the filters, in order.
pub open spec fn filtered(candidates: Seq<SymbolView>, requested: Seq<KnownSymbolKind>) -> Seq<
    SymbolView,
> {
    candidates.filter(|candidate: SymbolView| passes(candidate.kind, requested))
}

/// Returns whether a kind passes the filters.
fn kind_passes(kind: NormalizedSymbolKind, requested: &Vec<KnownSymbolKind>) -> (found: bool)
    ensures
        found == passes(kind, requested@),
{
    if requested.len() == 0 {
        return true;
    }
    let known = match kind {
        NormalizedSymbolKind::Known(known) => known,
        NormalizedSymbolKind::Unknown(_) => return false,
    };
    let mut index: usize = 0;
    while index < requested.len()
        invariant
            index <= requested@.len(),
            kind == NormalizedSymbolKind::Known(known),
            forall|i: int|
                0 <= i < index ==> kind != NormalizedSymbolKind::Known(#[trigger] requested@[i]),
        decreases requested@.len() - index,
    {
        if requested[index] == known {
            return true;
        }
        index = index + 1;
    }
    false
}

/// Returns the candidates that pass the filters, in order.
pub fn filter_kinds<'a>(
    candidates: &Vec<&'a NormalizedSymbol>,
    requested: &Vec<KnownSymbolKind>,
) -> (kept: Vec<&'a NormalizedSymbol>)
    ensures
        symbols::refs_view(kept@) == filtered(symbols::refs_view(candidates@), requested@),
{
    let ghost views = symbols::refs_view(candidates@);
    let ghost keeps = |candidate: SymbolView| passes(candidate.kind, requested@);
    let mut kept: Vec<&NormalizedSymbol> = Vec::new();
    let mut index: usize = 0;
    proof {
        reveal(Seq::filter);
        assert(views.take(0) =~= Seq::<SymbolView>::empty());
        assert(symbols::refs_view(kept@) =~= Seq::<SymbolView>::empty());
    }
    while index < candidates.len()
        invariant
            index <= candidates@.len(),
            views == symbols::refs_view(candidates@),
            keeps == (|candidate: SymbolView| passes(candidate.kind, requested@)),
            symbols::refs_view(kept@) == views.take(index as int).filter(keeps),
        decreases candidates@.len() - index,
    {
        let candidate: &NormalizedSymbol = candidates[index];
        let ghost before = symbols::refs_view(kept@);
        proof {
            reveal(Seq::filter);
            assert(views.take(index + 1).drop_last() =~= views.take(index as int));
            assert(views.take(index + 1).last() == candidate@);
        }
        if kind_passes(candidate.kind, requested) {
            kept.push(candidate);
            assert(symbols::refs_view(kept@) =~= before.push(candidate@));
        }
        index = index + 1;
    }
    assert(views.take(index as int) =~= views);
    kept
}

/// The error for too many records.
pub open spec fn count_refusal(count: usize) -> Option<OutlineErrorView> {
    if count > DEFAULT_MAXIMUM_OUTLINE_SYMBOLS {
        Some(resource_exceeded("outline_symbols"@, DEFAULT_MAXIMUM_OUTLINE_SYMBOLS))
    } else {
        None
    }
}

/// Refuses too many records.
pub fn enforce_outline_limit(count: usize) -> (outcome: Result<(), OutlineErrorDto>)
    ensures
        match outcome {
            Ok(()) => count_refusal(count) is None,
            Err(error) => count_refusal(count) == Some(error@),
        },
{
    if count > DEFAULT_MAXIMUM_OUTLINE_SYMBOLS {
        return Err(resource_limit_error("outline_symbols", DEFAULT_MAXIMUM_OUTLINE_SYMBOLS));
    }
    Ok(())
}

/// The hierarchy depth of a breadcrumb; roots are at zero.
pub open spec fn depth_of(path: Seq<Seq<char>>) -> u64 {
    if path.len() == 0 {
        0
    } else {
        (path.len() - 1) as u64
    }
}

/// The error for an offset of a record that could not be converted: the work
/// allowed was spent, or an invariant failed.
pub open spec fn conversion_failure(error: PositionError, message: Seq<char>) -> OutlineErrorView {
    match error {
        PositionError::WorkLimitExceeded => retargeted(select_report::conversion_exceeded()),
        _ => internal(message),
    }
}

/// Returns the error for an offset of a record that could not be converted.
pub fn conversion_error(error_value: PositionError, message: &str) -> (error: OutlineErrorDto)
    ensures
        error@ == conversion_failure(error_value, message@),
{
    match error_value {
        PositionError::WorkLimitExceeded => retarget_report(&conversion_work_error()),
        _ => outline_internal_error(message),
    }
}

/// The record of a symbol, and the scalar values examined in all.
pub open spec fn outlined(symbol: SymbolView, bytes: Seq<u8>, scanned: nat, limit: nat) -> (
    Result<OutlineSymbolView, OutlineErrorView>,
    nat,
) {
    let (start, after_start) = position::byte_to_user(
        bytes,
        symbol.byte_range.start as int,
        scanned,
        limit,
    );
    match start {
        Err(error) => (
            Err(conversion_failure(error, "the symbol start offset has no physical line"@)),
            after_start,
        ),
        Ok((_, None)) => (
            Err(internal("the symbol start offset has no scalar column"@)),
            after_start,
        ),
        Ok((start_line, Some(start_column))) => {
            let (end, after_end) = position::byte_to_user(
                bytes,
                symbol.byte_range.end as int,
                after_start,
                limit,
            );
            match end {
                Err(error) => (
                    Err(conversion_failure(error, "the symbol end offset has no physical line"@)),
                    after_end,
                ),
                Ok((end_line, end_column)) => (
                    Ok(
                        OutlineSymbolView {
                            name: symbol.name,
                            symbol_kind: select_command::wire_symbol_kind(symbol.kind),
                            symbol_path: symbol.symbol_path,
                            depth: depth_of(symbol.symbol_path),
                            detail: symbol.detail,
                            start_line,
                            start_column: Some(start_column),
                            end_line,
                            end_column,
                            lsp_range: select_command::wire_range(symbol.lsp_range),
                            lsp_selection_range: select_command::wire_range(
                                symbol.lsp_selection_range,
                            ),
                            selector: SelectionByteSelectorDto {
                                start: symbol.byte_range.start,
                                end: symbol.byte_range.end,
                            },
                        },
                    ),
                    after_end,
                ),
            }
        },
    }
}

/// Returns the record of a symbol.
pub fn outline_symbol(candidate: &NormalizedSymbol, converter: &mut PositionConverter<'_>) -> (record:
    Result<OutlineSymbolDto, OutlineErrorDto>)
    requires
        old(converter).wf(),
    ensures
        final(converter).wf(),
        final(converter).snapshot() == old(converter).snapshot(),
        ({
            let (expected, scanned) = outlined(
                candidate@,
                old(converter).snapshot().bytes,
                old(converter).scanned(),
                old(converter).snapshot().limit,
            );
            &&& final(converter).scanned() == scanned
            &&& match record {
                Ok(record) => expected == Ok::<OutlineSymbolView, OutlineErrorView>(record@),
                Err(error) => expected == Err::<OutlineSymbolView, OutlineErrorView>(error@),
            }
        }),
{
    let (start_line, start_column) = match converter.byte_to_user_line_scalar(
        candidate.byte_range.start,
    ) {
        Ok(coordinates) => coordinates,
        Err(error) => return Err(
            conversion_error(error, "the symbol start offset has no physical line"),
        ),
    };
    let start_column: u64 = match start_column {
        Some(column) => column,
        None => return Err(
            outline_internal_error("the symbol start offset has no scalar column"),
        ),
    };
    let (end_line, end_column) = match converter.byte_to_user_line_scalar(
        candidate.byte_range.end,
    ) {
        Ok(coordinates) => coordinates,
        Err(error) => return Err(
            conversion_error(error, "the symbol end offset has no physical line"),
        ),
    };
    let depth: u64 = candidate.symbol_path.len().saturating_sub(1) as u64;
    Ok(
        OutlineSymbolDto::new(
            candidate.name.as_str(),
            protocol_symbol_kind(candidate.kind),
            copy_path(&candidate.symbol_path),
            depth,
            copy_optional_text(&candidate.detail),
            start_line,
            Some(start_column),
            end_line,
            end_column,
            protocol_lsp_range(candidate.lsp_range),
            protocol_lsp_range(candidate.lsp_selection_range),
            SelectionByteSelectorDto::new(candidate.byte_range.start, candidate.byte_range.end),
        ),
    )
}

/// The records of symbols, in order, or the first failure.
pub open spec fn outlined_all(symbols: Seq<SymbolView>, bytes: Seq<u8>, scanned: nat, limit: nat) -> Result<
    Seq<OutlineSymbolView>,
    OutlineErrorView,
>
    decreases symbols.len(),
{
    if symbols.len() == 0 {
        Ok(Seq::empty())
    } else {
        let (record, total) = outlined(symbols[0], bytes, scanned, limit);
        match record {
            Err(error) => Err(error),
            Ok(record) => match outlined_all(symbols.drop_first(), bytes, total, limit) {
                Err(error) => Err(error),
                Ok(rest) => Ok(seq![record] + rest),
            },
        }
    }
}

/// Returns the records of symbols, in order.
pub fn outline_symbols(candidates: &Vec<&NormalizedSymbol>, converter: &mut PositionConverter<'_>) -> (records:
    Result<Vec<OutlineSymbolDto>, OutlineErrorDto>)
    requires
        old(converter).wf(),
    ensures
        final(converter).wf(),
        final(converter).snapshot() == old(converter).snapshot(),
        ({
            let expected = outlined_all(
                symbols::refs_view(candidates@),
                old(converter).snapshot().bytes,
                old(converter).scanned(),
                old(converter).snapshot().limit,
            );
            match records {
                Ok(records) => expected == Ok::<Seq<OutlineSymbolView>, OutlineErrorView>(
                    outline::outline_symbols_view(records@),
                ),
                Err(error) => expected == Err::<Seq<OutlineSymbolView>, OutlineErrorView>(error@),
            }
        }),
{
    let ghost views = symbols::refs_view(candidates@);
    let ghost bytes = converter.snapshot().bytes;
    let ghost limit = converter.snapshot().limit;
    let ghost expected = outlined_all(views, bytes, converter.scanned(), limit);
    let mut records: Vec<OutlineSymbolDto> = Vec::new();
    let mut index: usize = 0;
    assert(views.skip(0) =~= views);
    assert(expected matches Ok(values) ==> values =~= outline::outline_symbols_view(records@)
        + values);
    #[verifier::loop_isolation(false)]
    while index < candidates.len()
        invariant
            index <= candidates@.len(),
            records@.len() == index,
            converter.wf(),
            converter.snapshot() == old(converter).snapshot(),
            expected == (match outlined_all(
                views.skip(index as int),
                bytes,
                converter.scanned(),
                limit,
            ) {
                Err(error) => Err::<Seq<OutlineSymbolView>, OutlineErrorView>(error),
                Ok(rest) => Ok(outline::outline_symbols_view(records@) + rest),
            }),
        decreases candidates@.len() - index,
    {
        let ghost remaining = views.skip(index as int);
        assert(remaining[0] == candidates@[index as int]@);
        assert(remaining.drop_first() =~= views.skip(index + 1));
        let record = match outline_symbol(candidates[index], converter) {
            Ok(record) => record,
            Err(error) => return Err(error),
        };
        let ghost before = outline::outline_symbols_view(records@);
        let ghost value = record@;
        records.push(record);
        proof {
            assert(outline::outline_symbols_view(records@) =~= before.push(value));
            let rest = outlined_all(views.skip(index + 1), bytes, converter.scanned(), limit);
            if let Ok(values) = rest {
                assert(before + (seq![value] + values) =~= before.push(value) + values);
            }
        }
        index = index + 1;
    }
    proof {
        assert(views.skip(index as int) =~= Seq::<SymbolView>::empty());
        assert(outline::outline_symbols_view(records@) + Seq::<OutlineSymbolView>::empty()
            =~= outline::outline_symbols_view(records@));
    }
    Ok(records)
}

/// Two spaces for each level of depth.
pub open spec fn indent(depth: u64) -> Seq<char> {
    if depth > usize::MAX {
        Seq::empty()
    } else {
        spaces(depth as nat)
    }
}

/// Two spaces, so many times.
pub open spec fn spaces(count: nat) -> Seq<char>
    decreases count,
{
    if count == 0 {
        Seq::empty()
    } else {
        spaces((count - 1) as nat) + "  "@
    }
}

/// The line printed for one record.
pub open spec fn record_line(symbol: OutlineSymbolView) -> Seq<char> {
    let range = symbol.lsp_range;
    indent(symbol.depth) + selection::result_kind_text(symbol.symbol_kind) + " "@
        + terminal::escaped(symbol.name) + " lines "@ + text::decimal(symbol.start_line as nat)
        + ".."@ + text::decimal(symbol.end_line as nat) + " lsp="@ + text::decimal(
        range.start.line as nat,
    ) + ":"@ + text::decimal(range.start.character as nat) + ".."@ + text::decimal(
        range.end.line as nat,
    ) + ":"@ + text::decimal(range.end.character as nat) + " bytes "@ + text::decimal(
        symbol.selector.start as nat,
    ) + ".."@ + text::decimal(symbol.selector.end as nat) + "\n"@
}

/// The line printed above the records.
pub open spec fn heading(path: Seq<char>, count: nat) -> Seq<char> {
    terminal::escaped(path) + ": "@ + text::decimal(count) + " document symbols\n"@
}

/// The heading, and the lines printed for records.
pub open spec fn record_lines(
    path: Seq<char>,
    count: nat,
    symbols: Seq<OutlineSymbolView>,
) -> Seq<char>
    decreases symbols.len(),
{
    if symbols.len() == 0 {
        heading(path, count)
    } else {
        record_lines(path, count, symbols.drop_last()) + record_line(symbols.last())
    }
}

/// The text printed for records.
pub open spec fn outline_text(path: Seq<char>, symbols: Seq<OutlineSymbolView>) -> Seq<char> {
    if symbols.len() == 0 {
        "no document symbols\n"@
    } else {
        record_lines(path, symbols.len(), symbols)
    }
}

/// The text printed for records, or the error for one above `maximum` bytes.
pub open spec fn bounded_text(
    path: Seq<char>,
    symbols: Seq<OutlineSymbolView>,
    maximum: usize,
) -> Result<Seq<char>, OutlineErrorView> {
    if text::utf8(outline_text(path, symbols)).len() > maximum {
        Err(oversized_text())
    } else {
        Ok(outline_text(path, symbols))
    }
}

/// Appends a piece, unless the output would exceed `maximum` bytes.
pub fn push_bounded(output: &mut String, chunk: &str, maximum: usize) -> (outcome: Result<
    (),
    OutlineErrorDto,
>)
    ensures
        match outcome {
            Ok(()) => {
                &&& text::utf8(old(output)@ + chunk@).len() <= maximum
                &&& final(output)@ == old(output)@ + chunk@
            },
            Err(error) => {
                &&& text::utf8(old(output)@ + chunk@).len() > maximum
                &&& final(output)@ == old(output)@
                &&& error@ == oversized_text()
            },
        },
{
    proof {
        text::lemma_utf8_concat(output@, chunk@);
    }
    match output.as_str().as_bytes().len().checked_add(chunk.as_bytes().len()) {
        None => Err(human_size_error()),
        Some(next_size) => {
            if next_size > maximum {
                return Err(human_size_error());
            }
            output.append(chunk);
            Ok(())
        },
    }
}

/// Appends two spaces for each level of depth.
fn push_indent(output: &mut String, depth: u64)
    ensures
        final(output)@ == old(output)@ + indent(depth),
{
    let ghost before = output@;
    if depth > usize::MAX as u64 {
        assert(output@ =~= before + indent(depth));
        return;
    }
    let mut level: u64 = 0;
    assert(output@ =~= before + spaces(0));
    while level < depth
        invariant
            level <= depth,
            output@ == before + spaces(level as nat),
        decreases depth - level,
    {
        output.append("  ");
        assert(output@ =~= before + spaces((level + 1) as nat));
        level = level + 1;
    }
}

/// Returns the line printed for one record.
fn render_record(symbol: &OutlineSymbolDto) -> (line: String)
    ensures
        line@ == record_line(symbol@),
{
    let range = symbol.lsp_range();
    let selector = symbol.selector();
    let mut line = String::new();
    push_indent(&mut line, symbol.depth());
    assert(line@ =~= indent(symbol@.depth));
    line.append(symbol.symbol_kind().as_str());
    line.append(" ");
    line.append(escape_terminal_text(symbol.name()).as_str());
    line.append(" lines ");
    push_decimal(&mut line, symbol.start_line());
    line.append("..");
    push_decimal(&mut line, symbol.end_line());
    line.append(" lsp=");
    push_decimal(&mut line, range.start().line() as u64);
    line.append(":");
    push_decimal(&mut line, range.start().character() as u64);
    line.append("..");
    push_decimal(&mut line, range.end().line() as u64);
    line.append(":");
    push_decimal(&mut line, range.end().character() as u64);
    line.append(" bytes ");
    push_decimal(&mut line, selector.start());
    line.append("..");
    push_decimal(&mut line, selector.end());
    line.append("\n");
    line
}

/// Fewer records print no more bytes.
proof fn lemma_record_lines_grow(
    path: Seq<char>,
    count: nat,
    symbols: Seq<OutlineSymbolView>,
    kept: int,
)
    requires
        0 <= kept <= symbols.len(),
    ensures
        text::utf8(record_lines(path, count, symbols.take(kept))).len() <= text::utf8(
            record_lines(path, count, symbols),
        ).len(),
    decreases symbols.len() - kept,
{
    if kept < symbols.len() {
        let next = symbols.take(kept + 1);
        assert(next.drop_last() =~= symbols.take(kept));
        text::lemma_utf8_concat(
            record_lines(path, count, symbols.take(kept)),
            record_line(next.last()),
        );
        lemma_record_lines_grow(path, count, symbols, kept + 1);
    } else {
        assert(symbols.take(kept) =~= symbols);
    }
}

/// Returns the text printed for records, within `maximum` bytes.
pub fn render_human_with_limit(path: &str, symbols: &Vec<OutlineSymbolDto>, maximum: usize) -> (output:
    Result<String, OutlineErrorDto>)
    ensures
        ({
            let expected = bounded_text(path@, outline::outline_symbols_view(symbols@), maximum);
            match output {
                Ok(output) => expected == Ok::<Seq<char>, OutlineErrorView>(output@),
                Err(error) => expected == Err::<Seq<char>, OutlineErrorView>(error@),
            }
        }),
{
    let ghost views = outline::outline_symbols_view(symbols@);
    let ghost count = views.len();
    let mut output = String::new();
    if symbols.len() == 0 {
        assert(output@ + "no document symbols\n"@ =~= "no document symbols\n"@);
        return match push_bounded(&mut output, "no document symbols\n", maximum) {
            Ok(()) => Ok(output),
            Err(error) => Err(error),
        };
    }
    let mut first = escape_terminal_text(path);
    first.append(": ");
    push_decimal(&mut first, symbols.len() as u64);
    first.append(" document symbols\n");
    assert(output@ + first@ =~= heading(path@, count));
    proof {
        lemma_record_lines_grow(path@, count, views, 0);
        assert(views.take(0) =~= Seq::<OutlineSymbolView>::empty());
    }
    if let Err(error) = push_bounded(&mut output, first.as_str(), maximum) {
        return Err(error);
    }
    let mut index: usize = 0;
    while index < symbols.len()
        invariant
            index <= symbols@.len(),
            symbols@.len() > 0,
            views == outline::outline_symbols_view(symbols@),
            count == views.len(),
            output@ == record_lines(path@, count, views.take(index as int)),
            text::utf8(output@).len() <= maximum,
        decreases symbols@.len() - index,
    {
        let line = render_record(&symbols[index]);
        proof {
            let taken = views.take(index + 1);
            assert(taken.drop_last() =~= views.take(index as int));
            assert(taken.last() == symbols@[index as int]@);
            lemma_record_lines_grow(path@, count, views, index + 1);
        }
        if let Err(error) = push_bounded(&mut output, line.as_str(), maximum) {
            return Err(error);
        }
        index = index + 1;
    }
    assert(views.take(index as int) =~= views);
    Ok(output)
}

/// Returns the text printed for records, within the response limit.
pub fn render_human(path: &str, symbols: &Vec<OutlineSymbolDto>) -> (output: Result<
    String,
    OutlineErrorDto,
>)
    ensures
        ({
            let expected = bounded_text(
                path@,
                outline::outline_symbols_view(symbols@),
                MAX_RESPONSE_BYTES as usize,
            );
            match output {
                Ok(output) => expected == Ok::<Seq<char>, OutlineErrorView>(output@),
                Err(error) => expected == Err::<Seq<char>, OutlineErrorView>(error@),
            }
        }),
{
    render_human_with_limit(path, symbols, MAX_RESPONSE_BYTES as usize)
}

/// What an outline says besides its records.
#[verifier::ext_equal]
pub struct OutlineFrame {
    pub workspace: Seq<u8>,
    pub path: Seq<char>,
    pub source_digest: Seq<u8>,
    pub bytes: Seq<u8>,
    pub configuration_id: Option<Seq<char>>,
    pub reported_name: Option<Seq<char>>,
    pub reported_version: Option<Seq<char>>,
    pub encoding: SupportedPositionEncoding,
    pub warnings: Seq<JsonView>,
}

/// The wire form of an outline with these records.
pub open spec fn framed_outline(frame: OutlineFrame, records: Seq<OutlineSymbolView>) -> JsonView {
    outline::outline_response_json(
        digest::prefixed_hex(frame.workspace),
        selection::source_json(
            frame.path,
            digest::prefixed_hex(frame.source_digest),
            frame.bytes.len() as u64,
        ),
        selection::server_json(
            frame.configuration_id,
            frame.reported_name,
            frame.reported_version,
            select_command::wire_encoding(frame.encoding),
        ),
        records,
        frame.warnings,
    )
}

/// The output of an outline of normalized symbols, or why it fails. `scanned`
/// scalar values were examined so far.
pub open spec fn outlined_output(
    frame: OutlineFrame,
    symbols: Seq<SymbolView>,
    scanned: nat,
    requested: Seq<KnownSymbolKind>,
    json_output: bool,
) -> Result<Seq<char>, OutlineErrorView> {
    let kept = filtered(symbols::ordered_unique(symbols), requested);
    if kept.len() > DEFAULT_MAXIMUM_OUTLINE_SYMBOLS {
        Err(resource_exceeded("outline_symbols"@, DEFAULT_MAXIMUM_OUTLINE_SYMBOLS))
    } else {
        match outlined_all(
            kept,
            frame.bytes,
            scanned,
            DEFAULT_MAXIMUM_CODE_POINTS_SCANNED as nat,
        ) {
            Err(error) => Err(error),
            Ok(records) => if json_output {
                outline::outline_line(
                    wire::json_line(framed_outline(frame, records), MAX_RESPONSE_BYTES),
                )
            } else {
                bounded_text(frame.path, records, MAX_RESPONSE_BYTES as usize)
            },
        }
    }
}

/// What normalizing a raw result over a source gives, and the scalar values
/// examined in all.
pub open spec fn outline_symbols_of(
    response: JsonView,
    bytes: Seq<u8>,
    encoding: SupportedPositionEncoding,
) -> (Result<Seq<SymbolView>, SymbolErrorView>, nat) {
    normalize::normalized_response(
        response,
        normalize::decoded_symbols(response),
        0,
        position::Snapshot {
            bytes,
            encoding,
            limit: DEFAULT_MAXIMUM_CODE_POINTS_SCANNED as nat,
        },
        select_command::default_symbol_limits(),
    )
}

/// The output of an outline after its session, or why it fails.
pub open spec fn outline_output(
    frame: OutlineFrame,
    response: JsonView,
    requested: Seq<KnownSymbolKind>,
    json_output: bool,
) -> Result<Seq<char>, OutlineErrorView> {
    match (
        select_report::identity_refusal(frame.reported_name, "reported server name"@),
        select_report::identity_refusal(frame.reported_version, "reported server version"@),
    ) {
        (Some(error), _) => Err(retargeted(error)),
        (None, Some(error)) => Err(retargeted(error)),
        (None, None) => match outline_symbols_of(response, frame.bytes, frame.encoding) {
            (Err(error), _) => Err(retargeted(select_report::symbol_failure(error))),
            (Ok(symbols), scanned) => outlined_output(
                frame,
                symbols,
                scanned,
                requested,
                json_output,
            ),
        },
    }
}

/// Whether a produced text, or its error, is the expected one.
pub open spec fn outputs_as(
    output: Result<String, OutlineErrorDto>,
    expected: Result<Seq<char>, OutlineErrorView>,
) -> bool {
    match output {
        Ok(text) => expected == Ok::<Seq<char>, OutlineErrorView>(text@),
        Err(error) => expected == Err::<Seq<char>, OutlineErrorView>(error@),
    }
}

/// Outlines normalized symbols of the converter's source and returns the
/// output.
pub fn outline_among(
    workspace: Sha256Digest,
    snapshot: &SourceSnapshot,
    configuration_id: &Option<String>,
    reported_name: &Option<String>,
    reported_version: &Option<String>,
    symbols: &Vec<NormalizedSymbol>,
    converter: &mut PositionConverter<'_>,
    requested: &Vec<KnownSymbolKind>,
    json_output: bool,
    warnings: Vec<WarningDto>,
) -> (output: Result<String, OutlineErrorDto>)
    requires
        old(converter).wf(),
        old(converter).snapshot().bytes == snapshot.bytes(),
        old(converter).snapshot().limit == DEFAULT_MAXIMUM_CODE_POINTS_SCANNED,
    ensures
        final(converter).wf(),
        outputs_as(
            output,
            outlined_output(
                OutlineFrame {
                    workspace: workspace.0@,
                    path: snapshot.path@,
                    source_digest: snapshot.digest.0@,
                    bytes: snapshot.bytes(),
                    configuration_id: order::optional_text(*configuration_id),
                    reported_name: order::optional_text(*reported_name),
                    reported_version: order::optional_text(*reported_version),
                    encoding: old(converter).snapshot().encoding,
                    warnings: wire::warnings_view(warnings@),
                },
                symbols::symbols_view(symbols@),
                old(converter).scanned(),
                requested@,
                json_output,
            ),
        ),
{
    let ordered = order_unique_candidates(symbols.as_slice());
    let kept = filter_kinds(&ordered, requested);
    if let Err(error) = enforce_outline_limit(kept.len()) {
        return Err(error);
    }
    let records = match outline_symbols(&kept, converter) {
        Ok(records) => records,
        Err(error) => return Err(error),
    };
    if !json_output {
        return render_human(snapshot.path.as_str(), &records);
    }
    let response = OutlineResponse::new(
        workspace,
        SelectionSourceDto::new(
            snapshot.path.as_str(),
            snapshot.digest,
            snapshot.text.as_str().as_bytes().len() as u64,
        ),
        SelectionServerDto::new(
            copy_optional_text(configuration_id),
            copy_optional_text(reported_name),
            copy_optional_text(reported_version),
            protocol_position_encoding(converter.encoding()),
        ),
        records,
        warnings,
    );
    match to_outline_json_line(&response.to_json()) {
        Ok(line) => Ok(line),
        Err(failure) => Err(failure.into_report()),
    }
}

/// Turns what a session reported into the output of the outline.
pub fn complete_outline(
    workspace: Sha256Digest,
    snapshot: &SourceSnapshot,
    configuration_id: &Option<String>,
    report: SessionReport,
    requested: &Vec<KnownSymbolKind>,
    json_output: bool,
    warnings: Vec<WarningDto>,
) -> (output: Result<String, OutlineErrorDto>)
    requires
        snapshot.wf(),
    ensures
        outputs_as(
            output,
            outline_output(
                OutlineFrame {
                    workspace: workspace.0@,
                    path: snapshot.path@,
                    source_digest: snapshot.digest.0@,
                    bytes: snapshot.bytes(),
                    configuration_id: order::optional_text(*configuration_id),
                    reported_name: order::optional_text(report.server_name),
                    reported_version: order::optional_text(report.server_version),
                    encoding: report.position_encoding,
                    warnings: wire::warnings_view(warnings@),
                },
                report.symbols@,
                requested@,
                json_output,
            ),
        ),
{
    if let Err(failure) = validate_server_identity(&report.server_name, "reported server name") {
        return Err(retarget_report(&failure));
    }
    if let Err(failure) = validate_server_identity(
        &report.server_version,
        "reported server version",
    ) {
        return Err(retarget_report(&failure));
    }
    let mut converter = match PositionConverter::new(
        snapshot.text.as_str(),
        &snapshot.line_index,
        report.position_encoding,
        PositionLimits::default(),
    ) {
        Ok(converter) => converter,
        Err(_) => return Err(outline_protocol_error()),
    };
    let normalized = normalize_document_symbols(
        report.symbols,
        &mut converter,
        SymbolLimits::default(),
    );
    let symbols = match normalized {
        Ok(symbols) => symbols,
        Err(failure) => return Err(outline_symbol_error(&failure)),
    };
    outline_among(
        workspace,
        snapshot,
        configuration_id,
        &report.server_name,
        &report.server_version,
        &symbols,
        &mut converter,
        requested,
        json_output,
        warnings,
    )
}

/// Retargeting keeps whether an error is retryable, its context, and every
/// wire spelling that the two registries share.
pub proof fn law_retargeting_keeps_meaning(error: SelectionErrorView)
    ensures
        outline::outline_retryable(retargeted(error).code) == selection::selection_retryable(
            error.code,
        ),
        retargeted(error).context == error.context,
        selection::selection_category(error.code) == selection::SelectionErrorCategory::Support
            ==> outline::outline_code_text(retargeted(error).code)
            == selection::selection_code_text(error.code),
{
}

/// Every record of a normalized symbol has both columns, and its lines are the
/// lines that the server named, counted from one, wherever the work limit
/// allows counting them.
pub proof fn law_records_have_columns(
    flat: normalize::FlatSymbol,
    progress: normalize::Progress,
    snapshot: position::Snapshot,
    limits: SymbolLimits,
    scanned: nat,
)
    requires
        snapshot.bytes.len() < u64::MAX,
        normalize::visited(flat, progress, snapshot, limits).0 is Ok,
        scanned + 2 * snapshot.bytes.len() <= snapshot.limit,
    ensures
        ({
            let symbol = normalize::visited(flat, progress, snapshot, limits).0->Ok_0;
            let record = outlined(symbol, snapshot.bytes, scanned, snapshot.limit).0;
            &&& record is Ok
            &&& record->Ok_0.start_column is Some
            &&& record->Ok_0.end_column is Some
            &&& record->Ok_0.start_line == symbol.lsp_range.start.line + 1
            &&& record->Ok_0.end_line == symbol.lsp_range.end.line + 1
        }),
{
    let range = flat.symbol.range;
    let encoding = snapshot.encoding;
    let bytes = snapshot.bytes;
    let limit = snapshot.limit;
    position::law_converted_positions_have_columns(
        encoding,
        bytes,
        range.start,
        progress.scanned,
        scanned,
        limit,
    );
    let (start, total) = position::position_to_byte(
        encoding,
        bytes,
        range.start,
        progress.scanned,
        limit,
    );
    let after_start = position::byte_to_user(bytes, start->Ok_0 as int, scanned, limit).1;
    position::law_converted_positions_have_columns(
        encoding,
        bytes,
        range.end,
        total,
        after_start,
        limit,
    );
}

/// The depth of a record is the number of its ancestors.
pub proof fn law_depth_counts_ancestors(
    symbol: SymbolView,
    bytes: Seq<u8>,
    scanned: nat,
    limit: nat,
)
    requires
        outlined(symbol, bytes, scanned, limit).0 is Ok,
        0 < symbol.symbol_path.len() <= u64::MAX,
    ensures
        outlined(symbol, bytes, scanned, limit).0->Ok_0.depth + 1 == symbol.symbol_path.len(),
{
}

} // verus!
