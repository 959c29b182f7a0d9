//! What the read-only commands mean: what they ask for, with what, and what they
//! make of the answers.

use vstd::prelude::*;

use crate::apply_flow::{execute_inspect, InspectAnswer, InspectPhase, InspectStep};
use crate::digest;
use crate::edit_command::RecoveryEntry;
use crate::edit_laws;
use crate::edit_report;
use crate::edit_report::ErrorCode;
use crate::json::JsonView;
use crate::jsonrpc;
use crate::kinds;
use crate::location;
use crate::normalize;
use crate::order;
use crate::outline::OutlineErrorCode;
use crate::outline_command;
use crate::outline_command::OutlineFrame;
use crate::position::Snapshot;
use crate::read_flow::{
    start_outline, start_selection, Configuration, ReadAnswer, ReadCommand, ReadFlow, ReadPhase,
    ReadRefusal, ReadSource, ReadStep, ResolvedServer, SessionInput,
};
use crate::select_command;
use crate::select_command::{
    capture_source, QueryArguments, ResponseFrame, SelectOptions, ServerSelection, SourceSnapshot,
};
use crate::select_report;
use crate::select_report::ConfigError;
use crate::selection::{SelectionErrorCode, SelectionErrorDto, SelectionErrorView};
use crate::symbols::SymbolLimits;
use crate::text;
use crate::wire;

verus! {

/// Whether a step refuses a command with a failure: a selection with the failure
/// itself, and an outline with the outline's form of it.
pub open spec fn refuses(step: ReadStep, command: ReadCommand, failure: SelectionErrorView) -> bool {
    match (command, step) {
        (ReadCommand::Select { .. }, ReadStep::Refuse(ReadRefusal::Selection(error))) => error@
            == failure,
        (ReadCommand::Outline { .. }, ReadStep::Refuse(ReadRefusal::Outline(error))) => error@
            == outline_command::retargeted(failure),
        _ => false,
    }
}

/// Whether every scanned transaction is mere terminal cleanup.
pub open spec fn are_over(entries: Seq<RecoveryEntry>) -> bool {
    forall|i: int| 0 <= i < entries.len() ==> (#[trigger] entries[i]).kind@ == "cleanup_only"@
}

/// A failure that answers the pending question ends a command with that failure,
/// and with no other.
pub proof fn law_failures_end_reads(flow: ReadFlow, answer: ReadAnswer, next: (ReadFlow, ReadStep))
    requires
        flow.wf(),
        call_ensures(ReadFlow::advance, (flow, answer), next),
    ensures
        match (flow.phase, answer) {
            (ReadPhase::Opening, ReadAnswer::Opened(Err(error)))
            | (ReadPhase::Diagnosing { .. }, ReadAnswer::Diagnosed(Err(error)))
            | (ReadPhase::Acquiring { .. }, ReadAnswer::Acquired(Err(error))) => next.0.phase
                is Finished && refuses(
                next.1,
                flow.command,
                select_report::filesystem_failure(error),
            ),
            (ReadPhase::Resolving(_), ReadAnswer::Resolved(Err(error))) => next.0.phase is Finished
                && refuses(next.1, flow.command, select_report::config_failure(error)),
            (ReadPhase::Running(..), ReadAnswer::Reported(Err(error))) => next.0.phase is Finished
                && refuses(next.1, flow.command, select_report::session_failure(error)),
            _ => true,
        },
{
}

/// A command opens its workspace, looks at its lock, and acquires its source, in
/// this order and within fixed bounds; without a lock it warns, and beside an
/// unfinished transaction it ends.
pub proof fn law_reads_observe_before_they_acquire(
    flow: ReadFlow,
    answer: ReadAnswer,
    next: (ReadFlow, ReadStep),
)
    requires
        flow.wf(),
        call_ensures(ReadFlow::advance, (flow, answer), next),
    ensures
        flow.phase is Opening ==> (answer matches ReadAnswer::Opened(Ok(opened)) ==> {
            &&& next.0.phase matches ReadPhase::Diagnosing { workspace }
            &&& workspace.0@ == opened.0@
            &&& next.1 is Diagnose
        }),
        flow.phase matches ReadPhase::Diagnosing { workspace: opened } ==> (answer matches
            ReadAnswer::Diagnosed(Ok(scanned)) ==> if scanned is None || are_over(
            scanned->Some_0@,
        ) {
            &&& next.0.phase matches ReadPhase::Acquiring { workspace, warnings }
            &&& workspace.0@ == opened.0@
            &&& scanned is None ==> warnings@.len() == 1 && edit_laws::says_stale(warnings@[0]@)
            &&& scanned is Some ==> warnings@.len() == 0
            &&& next.1 matches ReadStep::Acquire(limits)
            &&& limits.files == 1
            &&& limits.path_bytes == 4_096
            &&& limits.file_bytes == 8_388_608
            &&& limits.total_bytes == 8_388_608
            &&& limits.total_lines == 5_000_000
            &&& limits.line_index_bytes == 268_435_456
        } else {
            next.0.phase is Finished && next.1 is Refuse
        }),
{
    if let ReadPhase::Diagnosing { workspace: opened } = flow.phase {
        if let ReadAnswer::Diagnosed(Ok(scanned)) = answer {
            let view = crate::edit_command::scanned_view(scanned);
            edit_laws::law_observations_need_finished_transactions(view);
            if let Some(entries) = scanned {
                let entries = entries@;
                let views = view->Some_0;
                assert(views.len() == entries.len());
                assert(forall|i: int|
                    0 <= i < entries.len() ==> (#[trigger] views[i]).kind == entries[i].kind@);
                if are_over(entries) {
                    assert(forall|i: int|
                        0 <= i < views.len() ==> (#[trigger] views[i]).kind == "cleanup_only"@) by {
                        assert(forall|i: int|
                            0 <= i < entries.len() ==> (#[trigger] entries[i]).kind@
                                == "cleanup_only"@);
                    }
                    lemma_all_over(views);
                } else {
                    let i = choose|i: int|
                        0 <= i < entries.len() && (#[trigger] entries[i]).kind@
                            != "cleanup_only"@;
                    assert(views[i].kind != "cleanup_only"@);
                }
            }
            if let ReadPhase::Acquiring { workspace, warnings } = next.0.phase {
                let said = wire::warnings_view(warnings@);
                assert(said.len() == warnings@.len());
                if scanned is None {
                    assert(said[0] == crate::edit_command::stale_warning());
                    assert(said[0] == warnings@[0]@);
                }
            }
        }
    }
}

proof fn lemma_all_over(views: Seq<crate::edit_command::RecoveryEntryView>)
    requires
        forall|i: int| 0 <= i < views.len() ==> (#[trigger] views[i]).kind == "cleanup_only"@,
    ensures
        crate::edit_command::unfinished(views).len() == 0,
    decreases views.len(),
{
    if views.len() > 0 {
        let last = views.len() - 1;
        assert(views[last].kind == "cleanup_only"@);
        assert forall|i: int| 0 <= i < views.drop_last().len() implies (
        #[trigger] views.drop_last()[i]).kind == "cleanup_only"@ by {
            assert(views.drop_last()[i] == views[i]);
        }
        lemma_all_over(views.drop_last());
    }
}

/// A source is taken over as it was acquired, byte for byte and with its digest,
/// together with the workspace and the warnings so far; a selection's query is
/// what its arguments ask for in it. A source that is not UTF-8, or that the
/// arguments do not fit, ends the command.
pub proof fn law_reads_take_the_acquired_source(
    flow: ReadFlow,
    answer: ReadAnswer,
    next: (ReadFlow, ReadStep),
)
    requires
        flow.wf(),
        call_ensures(ReadFlow::advance, (flow, answer), next),
    ensures
        flow.phase matches ReadPhase::Acquiring { workspace, warnings } ==> (answer matches
            ReadAnswer::Acquired(Ok(bytes)) ==> match next.0.phase {
            ReadPhase::Configuring(source) => {
                &&& vstd::utf8::valid_utf8(bytes@)
                &&& text::utf8(source.snapshot.text@) == bytes@
                &&& source.snapshot.path@ == flow.path@
                &&& source.snapshot.digest.0@ == digest::sha256_of(bytes@)
                &&& source.workspace.0@ == workspace.0@
                &&& wire::warnings_view(source.warnings@) == wire::warnings_view(warnings@)
                &&& next.1 is Configure
                &&& match flow.command {
                    ReadCommand::Select { query, kind, .. } => source.query is Some
                        && select_command::query_of(query, kind, bytes@) == Ok::<
                        select_command::QueryView,
                        SelectionErrorView,
                    >(source.query->Some_0@),
                    ReadCommand::Outline { .. } => source.query is None,
                }
            },
            ReadPhase::Finished => if vstd::utf8::valid_utf8(bytes@) {
                &&& flow.command matches ReadCommand::Select { query, kind, .. }
                &&& select_command::query_of(query, kind, bytes@) matches Err(failure)
                &&& refuses(next.1, flow.command, failure)
            } else {
                exists|failure: SelectionErrorView| #[trigger]
                    refuses(next.1, flow.command, failure) && failure.code
                        == SelectionErrorCode::UnsupportedTextEncoding
            },
            _ => false,
        }),
{
    if let ReadPhase::Acquiring { workspace, warnings } = flow.phase {
        if let ReadAnswer::Acquired(Ok(bytes)) = answer {
            if !vstd::utf8::valid_utf8(bytes@) {
                assert(refuses(next.1, flow.command, select_command::encoding_failure()));
            }
        }
    }
}

/// Whether a source is still the same, as far as the commands depend on it.
pub open spec fn is_same_source(kept: ReadSource, source: ReadSource) -> bool {
    &&& text::utf8(kept.snapshot.text@) == text::utf8(source.snapshot.text@)
    &&& kept.workspace.0@ == source.workspace.0@
    &&& wire::warnings_view(kept.warnings@) == wire::warnings_view(source.warnings@)
    &&& kept.query is Some <==> source.query is Some
    &&& kept.query is Some ==> kept.query->Some_0@ == source.query->Some_0@
}

/// A server is looked for by the source's extension, under a configuration that
/// was loaded, or that may be missing; the source goes along unchanged.
pub proof fn law_reads_look_for_a_server(
    flow: ReadFlow,
    answer: ReadAnswer,
    next: (ReadFlow, ReadStep),
)
    requires
        flow.wf(),
        call_ensures(ReadFlow::advance, (flow, answer), next),
    ensures
        flow.phase matches ReadPhase::Configuring(source) ==> (answer matches
            ReadAnswer::Configured(configuration) ==> {
            let tolerated = match configuration {
                Configuration::Absent | Configuration::Loaded => true,
                Configuration::Failed { error, explicit } => !explicit && error
                    == (ConfigError::Read { not_found: true }),
            };
            &&& tolerated ==> {
                &&& next.0.phase matches ReadPhase::Resolving(kept)
                &&& is_same_source(kept, source)
                &&& next.1 matches ReadStep::Resolve(extension)
                &&& extension@ == location::extension_text(flow.path@)
            }
            &&& !tolerated ==> next.0.phase is Finished && refuses(
                next.1,
                flow.command,
                select_report::config_failure(configuration->Failed_error),
            )
        }),
        flow.phase matches ReadPhase::Resolving(source) ==> (answer matches ReadAnswer::Resolved(
            Ok(server),
        ) ==> {
            &&& next.0.phase matches ReadPhase::Locating(kept, resolved)
            &&& is_same_source(kept, source)
            &&& resolved == server
            &&& next.1 is Locate
        }),
{
}

/// Whether a session is given a source and a server: the source's bytes in the
/// server's language, the server's options, settings, and timeouts, and fixed
/// bounds.
pub open spec fn is_session_of(
    input: SessionInput,
    source: ReadSource,
    server: ResolvedServer,
) -> bool {
    &&& text::utf8(input.text@) == text::utf8(source.snapshot.text@)
    &&& input.language_id@ == server.language_id@
    &&& jsonrpc::optional_json(input.initialization_options) == jsonrpc::optional_json(
        server.initialization_options,
    )
    &&& jsonrpc::optional_json(input.settings) == jsonrpc::optional_json(server.settings)
    &&& input.deadlines.initialize == server.startup_timeout
    &&& input.deadlines.document_symbols == server.request_timeout
    &&& input.deadlines.shutdown == 5_000
    &&& input.deadlines.cleanup == 5_000
    &&& server.startup_timeout + server.request_timeout + 20_000 <= u64::MAX
        ==> input.deadlines.total == server.startup_timeout + server.request_timeout + 20_000
    &&& server.startup_timeout + server.request_timeout + 20_000 > u64::MAX
        ==> input.deadlines.total == u64::MAX
    &&& input.limits.max_configuration_items == 256
    &&& input.limits.max_configuration_bytes == 1_048_576
    &&& input.limits.max_server_requests == 64
    &&& input.limits.max_server_notifications == 1_024
    &&& input.transport_limits.framing.max_header_bytes == 16_384
    &&& input.transport_limits.framing.max_inbound_body_bytes == 16_777_216
    &&& input.transport_limits.framing.max_outbound_body_bytes == 67_108_864
    &&& input.transport_limits.envelope.max_json_depth == 64
    &&& input.transport_limits.envelope.max_id_bytes == 256
    &&& input.transport_limits.envelope.max_method_bytes == 256
    &&& input.transport_limits.envelope.max_params_bytes == 1_048_576
    &&& input.transport_limits.max_pending_requests == 8
    &&& input.transport_limits.max_ready_events == 4_096
    &&& input.transport_limits.max_buffered_messages == 1_024
    &&& input.transport_limits.max_buffered_message_bytes == 33_554_432
}

/// A session is run with the URIs of the project and of the source, under the
/// name of the project's folder, or as a mere workspace where that has no name;
/// with the source and for the server that were found.
pub proof fn law_sessions_are_given_what_was_found(
    flow: ReadFlow,
    answer: ReadAnswer,
    next: (ReadFlow, ReadStep),
)
    requires
        flow.wf(),
        call_ensures(ReadFlow::advance, (flow, answer), next),
    ensures
        flow.phase matches ReadPhase::Locating(acquired, server) ==> (answer matches
            ReadAnswer::Located { project, source } ==> if location::project_location(project)
            is Some && location::source_location(source) is Some {
            &&& next.0.phase matches ReadPhase::Running(kept, resolved)
            &&& is_same_source(kept, acquired)
            &&& resolved == server
            &&& next.1 matches ReadStep::Run(input)
            &&& is_session_of(input, acquired, server)
            &&& location::project_location(project) == Some(input.project_uri@)
            &&& location::source_location(source) == Some(input.source_uri@)
            &&& match location::folder_name(project) {
                Some(name) => input.workspace_name@ == name,
                None => input.workspace_name@ == "workspace"@,
            }
        } else {
            next.0.phase is Finished && next.1 is Refuse
        }),
{
}

/// What a command prints after its session is the output for the source that was
/// acquired, the symbols that were reported, under the encoding that was
/// negotiated, with the identities of the workspace and of the server.
pub proof fn law_reads_report_their_own_source(
    flow: ReadFlow,
    answer: ReadAnswer,
    next: (ReadFlow, ReadStep),
    selecting: ResponseFrame,
    outlining: OutlineFrame,
)
    requires
        flow.wf(),
        call_ensures(ReadFlow::advance, (flow, answer), next),
        flow.phase is Running,
        answer is Reported,
        answer->Reported_0 is Ok,
        ({
            let source = flow.phase->Running_0;
            let server = flow.phase->Running_1;
            let report = answer->Reported_0->Ok_0;
            &&& selecting.workspace == source.workspace.0@
            &&& selecting.path == flow.path@
            &&& selecting.bytes == text::utf8(source.snapshot.text@)
            &&& selecting.source_digest == digest::sha256_of(selecting.bytes)
            &&& source.query is Some ==> selecting.query == source.query->Some_0@
            &&& selecting.configuration_id == order::optional_text(server.configuration_id)
            &&& selecting.reported_name == order::optional_text(report.server_name)
            &&& selecting.reported_version == order::optional_text(report.server_version)
            &&& selecting.encoding == report.position_encoding
            &&& selecting.warnings == wire::warnings_view(source.warnings@)
            &&& outlining.workspace == selecting.workspace
            &&& outlining.path == selecting.path
            &&& outlining.source_digest == selecting.source_digest
            &&& outlining.bytes == selecting.bytes
            &&& outlining.configuration_id == selecting.configuration_id
            &&& outlining.reported_name == selecting.reported_name
            &&& outlining.reported_version == selecting.reported_version
            &&& outlining.encoding == selecting.encoding
            &&& outlining.warnings == selecting.warnings
        }),
    ensures
        next.0.phase is Finished,
        ({
            let symbols = answer->Reported_0->Ok_0.symbols@;
            match flow.command {
                ReadCommand::Select { options, .. } => match select_command::selection_output(
                    selecting,
                    symbols,
                    options,
                ) {
                    Ok(text) => next.1 matches ReadStep::Print(printed) && printed@ == text,
                    Err(failure) => next.1 matches ReadStep::Refuse(ReadRefusal::Selection(error))
                        && error@ == failure,
                },
                ReadCommand::Outline { kinds, json } => match outline_command::outline_output(
                    outlining,
                    symbols,
                    kinds@,
                    json,
                ) {
                    Ok(text) => next.1 matches ReadStep::Print(printed) && printed@ == text,
                    Err(failure) => next.1 matches ReadStep::Refuse(ReadRefusal::Outline(error))
                        && error@ == failure,
                },
            }
        }),
{
    let source = flow.phase->Running_0;
    let server = flow.phase->Running_1;
    let report = answer->Reported_0->Ok_0;
    if source.query is Some {
        assert(selecting == (ResponseFrame {
            workspace: source.workspace.0@,
            path: flow.path@,
            source_digest: digest::sha256_of(source@.bytes),
            bytes: source@.bytes,
            query: source@.query->Some_0,
            configuration_id: order::optional_text(server.configuration_id),
            reported_name: order::optional_text(report.server_name),
            reported_version: order::optional_text(report.server_version),
            encoding: report.position_encoding,
            warnings: source@.warnings,
        }));
    }
    assert(outlining == (OutlineFrame {
        workspace: source.workspace.0@,
        path: flow.path@,
        source_digest: digest::sha256_of(source@.bytes),
        bytes: source@.bytes,
        configuration_id: order::optional_text(server.configuration_id),
        reported_name: order::optional_text(report.server_name),
        reported_version: order::optional_text(report.server_version),
        encoding: report.position_encoding,
        warnings: source@.warnings,
    }));
}

/// Whether limits on symbols are the ones of the commands.
pub open spec fn are_command_limits(limits: SymbolLimits) -> bool {
    &&& limits.maximum_raw_symbols == 100_000
    &&& limits.maximum_flattened_symbols == 100_000
    &&& limits.maximum_depth == 256
    &&& limits.maximum_name_bytes == 4_096
    &&& limits.maximum_detail_bytes == 16_384
    &&& limits.maximum_path_bytes == 65_536
    &&& limits.maximum_candidate_storage_bytes == 67_108_864
    &&& limits.maximum_matches == 1_000
    &&& limits.maximum_ambiguity_candidates == 50
}

/// A command works on the symbols that the server reported, with their positions
/// taken in the negotiated encoding over the source itself, within fixed limits;
/// and on no symbols of a server whose name or version is unacceptable.
pub proof fn law_outputs_are_of_the_reported_symbols(
    selecting: ResponseFrame,
    options: SelectOptions,
    outlining: OutlineFrame,
    requested: Seq<kinds::KnownSymbolKind>,
    json: bool,
    response: JsonView,
    limits: SymbolLimits,
)
    requires
        are_command_limits(limits),
    ensures
        select_command::selection_output(selecting, response, options) matches Ok(output) ==> {
            let normalized = normalize::normalized_response(
                response,
                normalize::decoded_symbols(response),
                0,
                Snapshot {
                    bytes: selecting.bytes,
                    encoding: selecting.encoding,
                    limit: 16_777_216,
                },
                limits,
            ).0;
            &&& normalized is Ok
            &&& select_command::selected_output(selecting, normalized->Ok_0, options) == Ok::<
                Seq<char>,
                SelectionErrorView,
            >(output)
            &&& select_report::identity_refusal(selecting.reported_name, ""@) is None
            &&& select_report::identity_refusal(selecting.reported_version, ""@) is None
        },
        outline_command::outline_output(outlining, response, requested, json) matches Ok(output)
            ==> {
            let (normalized, scanned) = normalize::normalized_response(
                response,
                normalize::decoded_symbols(response),
                0,
                Snapshot {
                    bytes: outlining.bytes,
                    encoding: outlining.encoding,
                    limit: 16_777_216,
                },
                limits,
            );
            &&& normalized is Ok
            &&& outline_command::outlined_output(
                outlining,
                normalized->Ok_0,
                scanned,
                requested,
                json,
            ) == Ok::<Seq<char>, crate::outline::OutlineErrorView>(output)
            &&& select_report::identity_refusal(outlining.reported_name, ""@) is None
            &&& select_report::identity_refusal(outlining.reported_version, ""@) is None
        },
{
    assert(limits == select_command::default_symbol_limits());
}

/// A selection starts by opening the workspace, with the arguments that it was
/// given and the kind that was spelled; with a spelling that is no kind's, or an
/// unacceptable name, it does not start.
pub proof fn law_selections_start_with_their_arguments(
    path: String,
    kind: Option<&str>,
    query: QueryArguments,
    options: SelectOptions,
    server: ServerSelection,
    flow: Result<ReadFlow, SelectionErrorDto>,
)
    requires
        call_ensures(start_selection, (path, kind, query, options, server), flow),
    ensures
        match flow {
            Ok(flow) => {
                &&& flow.phase is Opening
                &&& flow.path == path
                &&& flow.server == server
                &&& flow.command matches ReadCommand::Select {
                    query: kept,
                    kind: parsed,
                    options: chosen,
                }
                &&& kept == query
                &&& chosen == options
                &&& kind is Some <==> parsed is Some
                &&& kind is Some ==> kinds::kind_text(parsed->Some_0) == kind->Some_0@
                &&& query.name matches Some(name) ==> 0 < name@.len() && text::utf8(name@).len()
                    <= 4_096
            },
            Err(error) => {
                ||| kind is Some && error@.code == SelectionErrorCode::InvalidSelectionQuery
                    && forall|known: kinds::KnownSymbolKind|
                    #[trigger] kinds::kind_text(known) != kind->Some_0@
                ||| query.name is Some && query.name->Some_0@.len() == 0 && error@.code
                    == SelectionErrorCode::InvalidSelectionQuery
                ||| query.name is Some && text::utf8(query.name->Some_0@).len() > 4_096
                    && error@.code == SelectionErrorCode::LspResourceLimitExceeded
            },
        },
{
}

/// An outline starts by opening the workspace, with the kinds that were spelled,
/// in order; with a spelling that is no kind's it does not start.
pub proof fn law_outlines_start_with_their_arguments(
    path: String,
    spellings: &Vec<String>,
    json: bool,
    server: ServerSelection,
    flow: Result<ReadFlow, crate::outline::OutlineErrorDto>,
)
    requires
        call_ensures(start_outline, (path, spellings, json, server), flow),
    ensures
        match flow {
            Ok(flow) => {
                &&& flow.phase is Opening
                &&& flow.path == path
                &&& flow.server == server
                &&& flow.command matches ReadCommand::Outline { kinds: requested, json: wanted }
                &&& wanted == json
                &&& requested@.len() == spellings@.len()
                &&& forall|i: int|
                    0 <= i < spellings@.len() ==> kinds::kind_text(#[trigger] requested@[i])
                        == spellings@[i]@
            },
            Err(error) => error@.code == OutlineErrorCode::InvalidOutlineQuery && exists|i: int|
                #![trigger spellings@[i]]
                0 <= i < spellings@.len() && forall|known: kinds::KnownSymbolKind|
                    #[trigger] kinds::kind_text(known) != spellings@[i]@,
        },
{
    if let Err(error) = flow {
        let i = choose|i: int|
            0 <= i < spellings@.len() && !outline_command::is_kind((#[trigger] spellings@[i])@);
        assert(forall|known: kinds::KnownSymbolKind|
            #[trigger] kinds::kind_text(known) != spellings@[i]@);
    }
}

/// A captured source is the bytes that were given, with their digest.
pub proof fn law_captured_sources_are_whole(
    path: &str,
    bytes: Vec<u8>,
    captured: Result<SourceSnapshot, SelectionErrorDto>,
)
    requires
        call_ensures(capture_source, (path, bytes), captured),
    ensures
        match captured {
            Ok(snapshot) => snapshot.path@ == path@ && text::utf8(snapshot.text@) == bytes@
                && snapshot.digest.0@ == digest::sha256_of(bytes@),
            Err(error) => !vstd::utf8::valid_utf8(bytes@) && error@.code
                == SelectionErrorCode::UnsupportedTextEncoding,
        },
{
}

/// An inspection reports the paths as they were found, with the warnings of its
/// observation; it looks at the lock first, and at no path beside an unfinished
/// transaction.
pub proof fn law_inspections_report_what_they_find(
    phase: InspectPhase,
    answer: InspectAnswer,
    next: (InspectPhase, InspectStep),
)
    requires
        call_ensures(execute_inspect, (phase, answer), next),
    ensures
        match (phase, answer) {
            (InspectPhase::Opening, InspectAnswer::Opened(Err(error)))
            | (InspectPhase::Diagnosing, InspectAnswer::Diagnosed(Err(error)))
            | (InspectPhase::Inspecting { .. }, InspectAnswer::Inspected(Err(error))) => {
                &&& next.0 is Finished
                &&& next.1 matches InspectStep::Refuse(refused)
                &&& refused@ == edit_report::filesystem_report(error)
            },
            (InspectPhase::Opening, InspectAnswer::Opened(Ok(_))) => next.0 is Diagnosing && next.1
                is Diagnose,
            (InspectPhase::Diagnosing, InspectAnswer::Diagnosed(Ok(scanned))) => if scanned is None
                || are_over(scanned->Some_0@) {
                &&& next.0 matches InspectPhase::Inspecting { warnings }
                &&& scanned is None ==> warnings@.len() == 1 && edit_laws::says_stale(
                    warnings@[0]@,
                )
                &&& scanned is Some ==> warnings@.len() == 0
                &&& next.1 is Inspect
            } else {
                &&& next.0 is Finished
                &&& next.1 matches InspectStep::Refuse(refused)
                &&& refused@.code == ErrorCode::TransactionRecoveryRequired
            },
            (InspectPhase::Inspecting { warnings: kept }, InspectAnswer::Inspected(Ok(found))) => {
                &&& next.0 is Finished
                &&& next.1 matches InspectStep::Report { paths, warnings }
                &&& paths == found
                &&& warnings == kept
            },
            _ => next.0 == phase && next.1 is Pending,
        },
{
    if let InspectPhase::Diagnosing = phase {
        if let InspectAnswer::Diagnosed(Ok(scanned)) = answer {
            let view = crate::edit_command::scanned_view(scanned);
            edit_laws::law_observations_need_finished_transactions(view);
            if let Some(entries) = scanned {
                let entries = entries@;
                let views = view->Some_0;
                assert(forall|i: int|
                    0 <= i < entries.len() ==> (#[trigger] views[i]).kind == entries[i].kind@);
                if are_over(entries) {
                    assert forall|i: int| 0 <= i < views.len() implies (#[trigger] views[i]).kind
                        == "cleanup_only"@ by {
                        assert(entries[i].kind@ == "cleanup_only"@);
                    }
                    lemma_all_over(views);
                } else {
                    let i = choose|i: int|
                        0 <= i < entries.len() && (#[trigger] entries[i]).kind@
                            != "cleanup_only"@;
                    assert(views[i].kind != "cleanup_only"@);
                }
            }
            if let InspectPhase::Inspecting { warnings } = next.0 {
                let said = wire::warnings_view(warnings@);
                assert(said.len() == warnings@.len());
                if scanned is None {
                    assert(said[0] == warnings@[0]@);
                }
            }
        }
    }
}

} // verus!
