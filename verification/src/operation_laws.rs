//! What the operations do, from their arguments to their results.

use vstd::prelude::*;

use crate::commit::{build_commit_response, CommitReport, PlanSummary};
use crate::commit_laws;
use crate::digest::Sha256Digest;
use crate::framing::encode_frame;
use crate::jsonrpc::{FramingLimits, JsonRpcError};
use crate::kinds;
use crate::kinds::{normalize_kind, KnownSymbolKind, NormalizedSymbolKind};
use crate::order;
use crate::outline_command::filter_kinds;
use crate::position::ByteRange;
use crate::position_laws;
use crate::query_laws;
use crate::resolve;
use crate::resolve::{apply_extent, resolve_name, resolve_position};
use crate::select_command::{
    validate_query, QueryArguments, QueryValue, SourceSnapshot, ValidatedQuery,
};
use crate::selection::{SelectionErrorCode, SelectionErrorDto};
use crate::symbols;
use crate::symbols::{
    MatchMode, MatchView, NormalizedSymbol, SelectionExtent, SymbolError, SymbolErrorView,
    SymbolLimits, SymbolMatch, SymbolView,
};
use crate::text;
use crate::text_map::TextMap;
use crate::wire;
use crate::wire::WarningDto;

verus! {

/// An extent is applied exactly to ranges of whole scalar values. The symbol's own
/// is the range itself. Declaration lines begin with the line, where only spaces
/// and tabs come before the range on it, and otherwise with the range; and they
/// end behind the line's terminator, or with the text, where only spaces and tabs
/// come before that, and otherwise with the range.
///
/// `begin` is where the line of the range's start begins, and `next` the first
/// offset behind the range that holds neither space nor tab.
pub proof fn law_applied_extents_take_whole_lines(
    snapshot: &str,
    range: ByteRange,
    extent: SelectionExtent,
    begin: int,
    next: int,
    selected: Result<ByteRange, SymbolError>,
)
    requires
        call_ensures(apply_extent, (snapshot, range, extent), selected),
        text::utf8(snapshot@).len() <= u64::MAX,
        ({
            let bytes = text::utf8(snapshot@);
            range.start < range.end <= bytes.len() ==> {
                &&& 0 <= begin <= range.start
                &&& begin == 0 || bytes[begin - 1] == 10 || bytes[begin - 1] == 13
                &&& forall|i: int|
                    begin <= i < range.start ==> #[trigger] bytes[i] != 10 && bytes[i] != 13
                &&& range.end <= next <= bytes.len()
                &&& forall|i: int|
                    range.end <= i < next ==> #[trigger] bytes[i] == 32 || bytes[i] == 9
                &&& next < bytes.len() ==> bytes[next] != 32 && bytes[next] != 9
            }
        }),
    ensures
        ({
            let bytes = text::utf8(snapshot@);
            match selected {
                Err(error) => {
                    &&& error is InvalidExtent
                    &&& !(range.start < range.end && query_laws::is_whole(bytes, range.start)
                        && query_laws::is_whole(bytes, range.end))
                },
                Ok(lines) => {
                    let terminated = bytes[range.end - 1] == 10 || bytes[range.end - 1] == 13;
                    &&& range.start < range.end
                    &&& query_laws::is_whole(bytes, range.start)
                    &&& query_laws::is_whole(bytes, range.end)
                    &&& extent == SelectionExtent::Symbol ==> lines == range
                    &&& extent == SelectionExtent::DeclarationLines ==> {
                        &&& (forall|i: int|
                            begin <= i < range.start ==> #[trigger] bytes[i] == 32 || bytes[i]
                                == 9) ==> lines.start == begin
                        &&& (exists|i: int|
                            begin <= i < range.start && #[trigger] bytes[i] != 32 && bytes[i] != 9)
                            ==> lines.start == range.start
                        &&& terminated ==> lines.end == range.end
                        &&& !terminated && next == bytes.len() ==> lines.end == bytes.len()
                        &&& !terminated && next < bytes.len() && bytes[next] == 10 ==> lines.end
                            == next + 1
                        &&& !terminated && next < bytes.len() && bytes[next] == 13 ==> lines.end
                            == if next + 1 < bytes.len() && bytes[next + 1] == 10 {
                            next + 2
                        } else {
                            next + 1
                        }
                        &&& !terminated && next < bytes.len() && bytes[next] != 10 && bytes[next]
                            != 13 ==> lines.end == range.end
                    }
                },
            }
        }),
{
    let bytes = text::utf8(snapshot@);
    if selected is Ok && extent == SelectionExtent::DeclarationLines {
        query_laws::law_declaration_lines_are_whole_lines(bytes, range, begin, next);
    }
}

/// A validated query asks for what its arguments name: the name, or the byte
/// offset, or else the offset that has their line and their column; always with
/// the kind that was given. What names no place of the source is refused.
pub proof fn law_validated_queries_ask_for_what_is_named(
    arguments: &QueryArguments,
    kind: Option<KnownSymbolKind>,
    snapshot: &SourceSnapshot,
    query: Result<ValidatedQuery, SelectionErrorDto>,
)
    requires
        call_ensures(validate_query, (arguments, kind, snapshot), query),
        text::utf8(snapshot.text@).len() <= u64::MAX,
    ensures
        ({
            let bytes = text::utf8(snapshot.text@);
            match query {
                Ok(query) => {
                    &&& query.kind == kind
                    &&& match query.value {
                        QueryValue::Name(name) => arguments.name is Some && name@
                            == arguments.name->Some_0@,
                        QueryValue::Byte(offset) => {
                            &&& arguments.name is None
                            &&& arguments.at_byte matches Some(asked) ==> offset == asked
                                && query_laws::is_whole(bytes, offset)
                            &&& arguments.at_byte is None ==> arguments.at_line is Some
                                && position_laws::is_user_place(
                                bytes,
                                arguments.at_line->Some_0 as int,
                                query_laws::asked_column(*arguments) as int,
                                offset as int,
                            )
                        },
                    }
                },
                Err(error) => {
                    &&& arguments.name is None
                    &&& error@.code == SelectionErrorCode::InvalidSelectionQuery || error@.code
                        == SelectionErrorCode::LspResourceLimitExceeded
                    &&& arguments.at_byte matches Some(asked) ==> !query_laws::is_whole(
                        bytes,
                        asked,
                    )
                },
            }
        }),
{
    query_laws::law_queries_ask_for_what_is_named(*arguments, kind, text::utf8(snapshot.text@));
}

/// The values of an outcome.
pub open spec fn outcome_view(outcome: Result<Vec<SymbolMatch>, SymbolError>) -> Result<
    Seq<MatchView>,
    SymbolErrorView,
> {
    match outcome {
        Ok(found) => Ok(Seq::new(found@.len(), |i: int| found@[i]@)),
        Err(error) => Err(error@),
    }
}

/// The values of symbols.
pub open spec fn values_of(list: Seq<NormalizedSymbol>) -> Seq<SymbolView> {
    Seq::new(list.len(), |i: int| list[i]@)
}

/// Whether every match has the extent asked for, and selects what applying that
/// extent to its own symbol selects.
pub open spec fn are_extended(
    outcome: Result<Vec<SymbolMatch>, SymbolError>,
    snapshot: Seq<char>,
    extent: SelectionExtent,
) -> bool {
    outcome matches Ok(found) ==> forall|i: int|
        0 <= i < found@.len() ==> {
            let one = #[trigger] found@[i];
            &&& one.extent == extent
            &&& extent == SelectionExtent::Symbol ==> one.selected_range == one.symbol_range
            &&& resolve::extended(text::utf8(snapshot), one.symbol_range, extent) == Some(
                one.selected_range,
            )
        }
}

proof fn lemma_answers_are_extended(
    outcome: Result<Vec<SymbolMatch>, SymbolError>,
    picked: Seq<SymbolView>,
    snapshot: Seq<char>,
    extent: SelectionExtent,
    mode: MatchMode,
    limits: SymbolLimits,
)
    requires
        query_laws::answers(
            outcome_view(outcome),
            picked,
            text::utf8(snapshot),
            extent,
            mode,
            limits,
        ),
    ensures
        are_extended(outcome, snapshot, extent),
{
    if let Ok(found) = outcome {
        let views = outcome_view(outcome)->Ok_0;
        assert forall|i: int| 0 <= i < found@.len() implies ({
            let one = #[trigger] found@[i];
            &&& one.extent == extent
            &&& extent == SelectionExtent::Symbol ==> one.selected_range == one.symbol_range
            &&& resolve::extended(text::utf8(snapshot), one.symbol_range, extent) == Some(
                one.selected_range,
            )
        }) by {
            assert(query_laws::selects(views[i], text::utf8(snapshot), extent));
        }
    }
}

/// A name is resolved to the symbols of exactly that name, and of the kind asked
/// for, one for each record and in order; each with the extent asked for, in both
/// modes.
pub proof fn law_resolved_names_are_those_asked_for(
    list: &[NormalizedSymbol],
    snapshot: &str,
    name: &str,
    kind: Option<KnownSymbolKind>,
    extent: SelectionExtent,
    mode: MatchMode,
    limits: SymbolLimits,
    outcome: Result<Vec<SymbolMatch>, SymbolError>,
)
    requires
        call_ensures(resolve_name, (list, snapshot, name, kind, extent, mode, limits), outcome),
        list@.len() <= u64::MAX,
    ensures
        exists|picked: Seq<SymbolView>| #[trigger]
            query_laws::is_census(picked, values_of(list@), query_laws::is_named(name@, kind))
                && query_laws::answers(
                outcome_view(outcome),
                picked,
                text::utf8(snapshot@),
                extent,
                mode,
                limits,
            ),
        are_extended(outcome, snapshot@, extent),
{
    let views = symbols::symbols_view(list@);
    assert(views =~= values_of(list@));
    if let Ok(found) = outcome {
        assert(symbols::matches_view(found@) =~= outcome_view(outcome)->Ok_0);
    }
    query_laws::law_name_queries_find_the_named(
        views,
        text::utf8(snapshot@),
        name@,
        kind,
        extent,
        mode,
        limits,
    );
    let picked = choose|picked: Seq<SymbolView>| #[trigger]
        query_laws::is_census(picked, views, query_laws::is_named(name@, kind))
            && query_laws::answers(
            outcome_view(outcome),
            picked,
            text::utf8(snapshot@),
            extent,
            mode,
            limits,
        );
    lemma_answers_are_extended(outcome, picked, snapshot@, extent, mode, limits);
}

/// An offset is resolved to the symbols around it, and of the kind asked for, one
/// for each record and in order: all of them, or only the innermost; each with the
/// extent asked for, in both modes.
pub proof fn law_resolved_positions_are_those_asked_for(
    list: &[NormalizedSymbol],
    snapshot: &str,
    offset: u64,
    kind: Option<KnownSymbolKind>,
    extent: SelectionExtent,
    mode: MatchMode,
    limits: SymbolLimits,
    outcome: Result<Vec<SymbolMatch>, SymbolError>,
)
    requires
        call_ensures(
            resolve_position,
            (list, snapshot, offset, kind, extent, mode, limits),
            outcome,
        ),
        list@.len() <= u64::MAX,
        text::utf8(snapshot@).len() <= u64::MAX,
        query_laws::is_of_one_snapshot(values_of(list@)),
    ensures
        ({
            let bytes = text::utf8(snapshot@);
            let around = query_laws::is_around(offset, bytes.len(), kind);
            if !query_laws::is_whole(bytes, offset) {
                outcome == Err::<Vec<SymbolMatch>, SymbolError>(
                    SymbolError::QueryPositionOutOfBounds,
                )
            } else {
                exists|picked: Seq<SymbolView>| #[trigger]
                    query_laws::is_census(
                        picked,
                        values_of(list@),
                        query_laws::is_called_for(values_of(list@), around, mode),
                    ) && query_laws::answers(
                        outcome_view(outcome),
                        picked,
                        bytes,
                        extent,
                        mode,
                        limits,
                    )
            }
        }),
        are_extended(outcome, snapshot@, extent),
{
    let bytes = text::utf8(snapshot@);
    let views = symbols::symbols_view(list@);
    assert(views =~= values_of(list@));
    if let Ok(found) = outcome {
        assert(symbols::matches_view(found@) =~= outcome_view(outcome)->Ok_0);
    }
    query_laws::law_position_queries_find_what_is_around(
        views,
        bytes,
        offset,
        kind,
        extent,
        mode,
        limits,
    );
    if query_laws::is_whole(bytes, offset) {
        let wanted = query_laws::is_called_for(
            views,
            query_laws::is_around(offset, bytes.len(), kind),
            mode,
        );
        let picked = choose|picked: Seq<SymbolView>| #[trigger]
            query_laws::is_census(picked, views, wanted) && query_laws::answers(
                outcome_view(outcome),
                picked,
                bytes,
                extent,
                mode,
                limits,
            );
        lemma_answers_are_extended(outcome, picked, snapshot@, extent, mode, limits);
    }
}

/// Whether a kind was requested; none requested asks for every kind.
pub open spec fn is_requested(kind: NormalizedSymbolKind, requested: Seq<KnownSymbolKind>) -> bool {
    requested.len() == 0 || exists|i: int|
        0 <= i < requested.len() && kind == NormalizedSymbolKind::Known(#[trigger] requested[i])
}

proof fn lemma_places(list: Seq<SymbolView>, wanted: spec_fn(SymbolView) -> bool) -> (places: Seq<
    int,
>)
    ensures
        places.len() == list.filter(wanted).len(),
        forall|k: int|
            0 <= k < places.len() ==> 0 <= #[trigger] places[k] < list.len() && list[places[k]]
                == list.filter(wanted)[k],
        forall|k: int, m: int|
            #![trigger places[k], places[m]]
            0 <= k < m < places.len() ==> places[k] < places[m],
        forall|i: int| 0 <= i < list.len() && wanted(#[trigger] list[i]) ==> places.contains(i),
    decreases list.len(),
{
    reveal(Seq::filter);
    if list.len() == 0 {
        Seq::empty()
    } else {
        let shorter = list.drop_last();
        let last = list.len() - 1;
        let earlier = lemma_places(shorter, wanted);
        let places = if wanted(list.last()) {
            earlier.push(last)
        } else {
            earlier
        };
        assert forall|i: int| 0 <= i < list.len() && wanted(
            #[trigger] list[i],
        ) implies places.contains(i) by {
            if i < last {
                assert(wanted(shorter[i]));
                let k = choose|k: int| 0 <= k < earlier.len() && earlier[k] == i;
                assert(places[k] == i);
            } else {
                assert(places[places.len() - 1] == i);
            }
        }
        places
    }
}

/// Filtering keeps exactly the candidates whose kind was requested, in order;
/// `places` says where each was.
pub proof fn law_filters_keep_the_requested_kinds(
    candidates: &Vec<&NormalizedSymbol>,
    requested: &Vec<KnownSymbolKind>,
    kept: Vec<&NormalizedSymbol>,
) -> (places: Seq<int>)
    requires
        call_ensures(filter_kinds, (candidates, requested), kept),
    ensures
        places.len() == kept@.len(),
        forall|k: int|
            0 <= k < places.len() ==> 0 <= #[trigger] places[k] < candidates@.len() && kept@[k]@
                == candidates@[places[k]]@ && is_requested(kept@[k].kind, requested@),
        forall|k: int, m: int|
            #![trigger places[k], places[m]]
            0 <= k < m < places.len() ==> places[k] < places[m],
        forall|i: int|
            0 <= i < candidates@.len() && is_requested((#[trigger] candidates@[i]).kind, requested@)
                ==> places.contains(i),
{
    let views = symbols::refs_view(candidates@);
    let passing = |candidate: SymbolView|
        crate::outline_command::passes(candidate.kind, requested@);
    let places = lemma_places(views, passing);
    let found = symbols::refs_view(kept@);
    assert(found == views.filter(passing));
    views.filter_lemma(passing);
    assert forall|k: int| 0 <= k < places.len() implies 0 <= #[trigger] places[k]
        < candidates@.len() && kept@[k]@ == candidates@[places[k]]@ && is_requested(
        kept@[k].kind,
        requested@,
    ) by {
        assert(found[k] == kept@[k]@);
        assert(found[k] == views[places[k]]);
        assert(passing(found[k]));
        assert(kept@[k]@.kind == kept@[k].kind);
    }
    assert forall|i: int|
        0 <= i < candidates@.len() && is_requested(
            (#[trigger] candidates@[i]).kind,
            requested@,
        ) implies places.contains(i) by {
        assert(views[i] == candidates@[i]@);
        assert(passing(views[i]));
    }
    places
}

/// A commit is reported with its plan: of every output, in order, the path, the
/// change, and the lengths and digests before and after.
pub proof fn law_commit_responses_hold_the_plan(
    plan: &PlanSummary,
    workspace: Sha256Digest,
    warnings: Vec<WarningDto>,
    transaction_id: Option<String>,
    modes: TextMap<u32>,
    report: CommitReport,
)
    requires
        call_ensures(
            build_commit_response,
            (plan, workspace, warnings, transaction_id, modes),
            report,
        ),
    ensures
        report.plan == plan.digest,
        report.workspace == workspace,
        report.outputs@.len() == plan.outputs@.len(),
        forall|i: int|
            0 <= i < plan.outputs@.len() ==> {
                let output = #[trigger] report.outputs@[i];
                &&& output.path@ == plan.outputs@[i].path@
                &&& output.change == plan.outputs@[i].change
                &&& output.original_digest == plan.outputs@[i].original_digest
                &&& output.resulting_length == plan.outputs@[i].resulting_length
                &&& output.resulting_digest == plan.outputs@[i].resulting_digest
                &&& commit_laws::is_length_before(
                    output.before_length,
                    plan.files@,
                    output.path@,
                )
            },
        report.preserved_permission_modes@ == modes@,
        match (report.transaction_id, transaction_id) {
            (Some(id), Some(expected)) => id@ == expected@,
            (None, None) => true,
            _ => false,
        },
        exists|places: Seq<int>| #[trigger]
            commit_laws::are_changed_paths(
                order::path_view(report.files_changed@),
                plan.outputs@,
                places,
            ),
{
    commit_laws::law_reports_hold_the_plan(
        report,
        *plan,
        workspace,
        wire::warnings_view(warnings@),
        order::optional_text(transaction_id),
        modes@,
    );
}

/// A kind's number is normalized to that kind, and any other number is kept.
pub proof fn law_normalized_kinds_keep_their_number(number: u32, kind: NormalizedSymbolKind)
    requires
        call_ensures(normalize_kind, (number,), kind),
    ensures
        match kind {
            NormalizedSymbolKind::Known(known) => 1 <= number <= 26 && kinds::kind_number(known)
                == number,
            NormalizedSymbolKind::Unknown(kept) => !(1 <= number <= 26) && kept == number,
        },
{
}

/// A frame is a header that gives its body's length, and the body; a body beyond
/// the outbound bound has none.
pub proof fn law_frames_carry_their_body(
    body: &[u8],
    limits: FramingLimits,
    frame: Result<Vec<u8>, JsonRpcError>,
)
    requires
        call_ensures(encode_frame, (body, limits), frame),
    ensures
        match frame {
            Ok(frame) => {
                &&& body@.len() <= limits.max_outbound_body_bytes
                &&& frame@ == text::utf8(
                    "Content-Length: "@ + text::decimal(body@.len()) + "\r\n\r\n"@,
                ) + body@
            },
            Err(error) => error is OutboundBodyTooLarge,
        },
{
}

} // verus!
