//! What the structured output says, member by member.

use vstd::prelude::*;

use crate::digest;
use crate::json;
use crate::json::{JsonNumberView, JsonView};
use crate::kinds;
use crate::outline;
use crate::outline::OutlineSymbolView;
use crate::outline_command;
use crate::outline_command::OutlineFrame;
use crate::outline_laws;
use crate::position::{Position, Range, SupportedPositionEncoding};
use crate::query_laws;
use crate::select_command;
use crate::select_command::{QueryView, ResponseFrame, SelectOptions};
use crate::selection;
use crate::selection::{SelectionByteSelectorDto, SelectionLspPositionDto, SelectionLspRangeDto};
use crate::symbols::{MatchMode, MatchView, SelectionExtent, SymbolView};
use crate::text;
use crate::wire;

verus! {

/// Whether an object has a member.
pub open spec fn has(value: JsonView, key: Seq<char>, member: JsonView) -> bool {
    value matches JsonView::Object(members) && members.contains((key, member))
}

/// A number as a JSON value.
pub open spec fn count(number: u64) -> JsonView {
    JsonView::Number(JsonNumberView::Unsigned(number))
}

/// An optional text as a JSON value.
pub open spec fn text_or_null(text: Option<Seq<char>>) -> JsonView {
    match text {
        Some(text) => JsonView::String(text),
        None => JsonView::Null,
    }
}

/// An optional number as a JSON value.
pub open spec fn count_or_null(number: Option<u64>) -> JsonView {
    match number {
        Some(number) => count(number),
        None => JsonView::Null,
    }
}

/// Whether a JSON value lists texts.
pub open spec fn lists_texts(value: JsonView, texts: Seq<Seq<char>>) -> bool {
    &&& value matches JsonView::Array(items)
    &&& items.len() == texts.len()
    &&& forall|i: int| 0 <= i < items.len() ==> #[trigger] items[i] == JsonView::String(texts[i])
}

/// Whether a JSON value gives a half-open range of bytes.
pub open spec fn says_bytes(value: JsonView, start: u64, end: u64) -> bool {
    &&& has(value, "kind"@, JsonView::String("bytes"@))
    &&& has(value, "start"@, count(start))
    &&& has(value, "end"@, count(end))
}

/// Whether a JSON value gives a zero-based position.
pub open spec fn says_position(value: JsonView, line: u32, character: u32) -> bool {
    &&& has(value, "line"@, count(line as u64))
    &&& has(value, "character"@, count(character as u64))
}

/// Whether a JSON value gives a range of positions.
pub open spec fn says_range(value: JsonView, range: Range) -> bool {
    &&& exists|start: JsonView| #[trigger]
        has(value, "start"@, start) && says_position(
            start,
            range.start.line,
            range.start.character,
        )
    &&& exists|end: JsonView| #[trigger]
        has(value, "end"@, end) && says_position(end, range.end.line, range.end.character)
}

/// A member of an object is one.
proof fn lemma_has(members: Seq<(Seq<char>, JsonView)>, place: int)
    requires
        0 <= place < members.len(),
    ensures
        has(JsonView::Object(members), members[place].0, members[place].1),
{
    assert(members.contains(members[place]));
}

proof fn lemma_says_bytes(selector: SelectionByteSelectorDto)
    ensures
        says_bytes(selector@, selector.start, selector.end),
{
    let members = selector@->Object_0;
    lemma_has(members, 0);
    lemma_has(members, 1);
    lemma_has(members, 2);
}

proof fn lemma_says_position(position: SelectionLspPositionDto)
    ensures
        says_position(position@, position.line, position.character),
{
    let members = position@->Object_0;
    lemma_has(members, 0);
    lemma_has(members, 1);
}

/// The wire form of a range gives its four numbers as they are.
pub proof fn law_ranges_are_written_out(range: Range)
    ensures
        says_range(select_command::wire_range(range)@, range),
{
    let wire = select_command::wire_range(range);
    let members = wire@->Object_0;
    lemma_says_position(wire.start);
    lemma_says_position(wire.end);
    lemma_has(members, 0);
    lemma_has(members, 1);
    assert(has(wire@, "start"@, wire.start@));
    assert(has(wire@, "end"@, wire.end@));
}

/// Whether the wire form of a record says what the record holds.
pub open spec fn says_record(value: JsonView, record: OutlineSymbolView) -> bool {
    &&& has(value, "name"@, JsonView::String(record.name))
    &&& has(
        value,
        "symbol_kind"@,
        JsonView::String(selection::result_kind_text(record.symbol_kind)),
    )
    &&& exists|path: JsonView| #[trigger]
        has(value, "symbol_path"@, path) && lists_texts(path, record.symbol_path)
    &&& has(value, "depth"@, count(record.depth))
    &&& has(value, "detail"@, text_or_null(record.detail))
    &&& has(value, "start_line"@, count(record.start_line))
    &&& has(value, "start_column"@, count_or_null(record.start_column))
    &&& has(value, "end_line"@, count(record.end_line))
    &&& has(value, "end_column"@, count_or_null(record.end_column))
    &&& exists|range: JsonView| #[trigger]
        has(value, "lsp_range"@, range) && says_range(
            range,
            raw_range(record.lsp_range),
        )
    &&& exists|range: JsonView| #[trigger]
        has(value, "lsp_selection_range"@, range) && says_range(
            range,
            raw_range(record.lsp_selection_range),
        )
    &&& exists|selector: JsonView| #[trigger]
        has(value, "selector"@, selector) && says_bytes(
            selector,
            record.selector.start,
            record.selector.end,
        )
}

/// The range that a wire range gives.
pub open spec fn raw_range(range: SelectionLspRangeDto) -> Range {
    Range {
        start: Position { line: range.start.line, character: range.start.character },
        end: Position { line: range.end.line, character: range.end.character },
    }
}

/// The wire form of a record says what the record holds.
pub proof fn law_records_are_written_out(record: OutlineSymbolView)
    ensures
        says_record(outline::outline_symbol_json(record), record),
{
    let value = outline::outline_symbol_json(record);
    let members = value->Object_0;
    lemma_has(members, 0);
    lemma_has(members, 1);
    lemma_has(members, 2);
    lemma_has(members, 3);
    lemma_has(members, 4);
    lemma_has(members, 5);
    lemma_has(members, 6);
    lemma_has(members, 7);
    lemma_has(members, 8);
    lemma_has(members, 9);
    lemma_has(members, 10);
    lemma_has(members, 11);
    law_ranges_are_written_out(raw_range(record.lsp_range));
    law_ranges_are_written_out(raw_range(record.lsp_selection_range));
    lemma_says_bytes(record.selector);
    assert(has(value, "symbol_path"@, members[2].1));
    assert(has(value, "lsp_range"@, record.lsp_range@));
    assert(has(value, "lsp_selection_range"@, record.lsp_selection_range@));
    assert(has(value, "selector"@, record.selector@));
}

/// Whether a JSON value gives a source: its path, its digest, and its length.
pub open spec fn says_source(
    value: JsonView,
    path: Seq<char>,
    source_digest: Seq<u8>,
    length: nat,
) -> bool {
    &&& has(value, "path"@, JsonView::String(path))
    &&& has(value, "sha256"@, JsonView::String(digest::prefixed_hex(source_digest)))
    &&& has(value, "byte_length"@, count(length as u64))
}

/// The spelling of a position encoding.
pub open spec fn encoding_name(encoding: SupportedPositionEncoding) -> Seq<char> {
    match encoding {
        SupportedPositionEncoding::Utf8 => "utf-8"@,
        SupportedPositionEncoding::Utf16 => "utf-16"@,
        SupportedPositionEncoding::Utf32 => "utf-32"@,
    }
}

/// Whether a JSON value gives a server: how it was configured, what it calls
/// itself, and the position encoding agreed on.
pub open spec fn says_server(
    value: JsonView,
    configuration_id: Option<Seq<char>>,
    reported_name: Option<Seq<char>>,
    reported_version: Option<Seq<char>>,
    encoding: SupportedPositionEncoding,
) -> bool {
    &&& has(value, "configuration_id"@, text_or_null(configuration_id))
    &&& has(value, "reported_name"@, text_or_null(reported_name))
    &&& has(value, "reported_version"@, text_or_null(reported_version))
    &&& has(value, "position_encoding"@, JsonView::String(encoding_name(encoding)))
}

proof fn lemma_says_source(path: Seq<char>, source_digest: Seq<u8>, length: nat)
    ensures
        says_source(
            selection::source_json(path, digest::prefixed_hex(source_digest), length as u64),
            path,
            source_digest,
            length,
        ),
{
    let members = selection::source_json(
        path,
        digest::prefixed_hex(source_digest),
        length as u64,
    )->Object_0;
    lemma_has(members, 0);
    lemma_has(members, 1);
    lemma_has(members, 2);
}

proof fn lemma_says_server(
    configuration_id: Option<Seq<char>>,
    reported_name: Option<Seq<char>>,
    reported_version: Option<Seq<char>>,
    encoding: SupportedPositionEncoding,
)
    ensures
        says_server(
            selection::server_json(
                configuration_id,
                reported_name,
                reported_version,
                select_command::wire_encoding(encoding),
            ),
            configuration_id,
            reported_name,
            reported_version,
            encoding,
        ),
{
    let members = selection::server_json(
        configuration_id,
        reported_name,
        reported_version,
        select_command::wire_encoding(encoding),
    )->Object_0;
    lemma_has(members, 0);
    lemma_has(members, 1);
    lemma_has(members, 2);
    lemma_has(members, 3);
}

/// Whether a JSON value is an outline of these records.
pub open spec fn says_outline(
    value: JsonView,
    frame: OutlineFrame,
    records: Seq<OutlineSymbolView>,
) -> bool {
    &&& has(value, "outline_protocol_version"@, count(1))
    &&& has(
        value,
        "workspace_identity_hash"@,
        JsonView::String(digest::prefixed_hex(frame.workspace)),
    )
    &&& exists|source: JsonView| #[trigger]
        has(value, "source"@, source) && says_source(
            source,
            frame.path,
            frame.source_digest,
            frame.bytes.len(),
        )
    &&& exists|server: JsonView| #[trigger]
        has(value, "server"@, server) && says_server(
            server,
            frame.configuration_id,
            frame.reported_name,
            frame.reported_version,
            frame.encoding,
        )
    &&& exists|items: Seq<JsonView>| #[trigger]
        has(value, "symbols"@, JsonView::Array(items)) && items.len() == records.len() && forall|
            i: int,
        |
            0 <= i < items.len() ==> says_record(#[trigger] items[i], records[i])
    &&& has(value, "warnings"@, JsonView::Array(frame.warnings))
}

/// The wire form of an outline gives its source, its server, its warnings, and
/// every record, in order.
pub proof fn law_outlines_are_written_out(frame: OutlineFrame, records: Seq<OutlineSymbolView>)
    ensures
        says_outline(outline_command::framed_outline(frame, records), frame, records),
{
    let value = outline_command::framed_outline(frame, records);
    let members = value->Object_0;
    lemma_has(members, 0);
    lemma_has(members, 1);
    lemma_has(members, 2);
    lemma_has(members, 3);
    lemma_has(members, 4);
    lemma_has(members, 5);
    lemma_says_source(frame.path, frame.source_digest, frame.bytes.len());
    lemma_says_server(
        frame.configuration_id,
        frame.reported_name,
        frame.reported_version,
        frame.encoding,
    );
    assert(has(value, "source"@, members[2].1));
    assert(has(value, "server"@, members[3].1));
    let items = members[4].1->Array_0;
    assert(has(value, "symbols"@, JsonView::Array(items)));
    assert forall|i: int| 0 <= i < items.len() implies says_record(
        #[trigger] items[i],
        records[i],
    ) by {
        law_records_are_written_out(records[i]);
    }
}

/// The spelling of an extent.
pub open spec fn extent_name(extent: SelectionExtent) -> Seq<char> {
    match extent {
        SelectionExtent::Symbol => "symbol"@,
        SelectionExtent::DeclarationLines => "declaration_lines"@,
    }
}

/// Whether a JSON value is the edit source of a range of a file: its path, the
/// range, and the digest that the file must have.
pub open spec fn says_request_source(
    value: JsonView,
    path: Seq<char>,
    start: u64,
    end: u64,
    source_digest: Seq<u8>,
) -> bool {
    &&& has(value, "path"@, JsonView::String(path))
    &&& exists|selector: JsonView| #[trigger]
        has(value, "selector"@, selector) && says_bytes(selector, start, end)
    &&& exists|precondition: JsonView| #[trigger]
        has(value, "precondition"@, precondition) && has(
            precondition,
            "kind"@,
            JsonView::String("sha256"@),
        ) && has(
            precondition,
            "value"@,
            JsonView::String(digest::prefixed_hex(source_digest)),
        )
}

/// Whether a JSON value is a match in a source: its symbol, what it selects,
/// the digest and the length of just those bytes, and the edit source of them.
pub open spec fn says_match(
    value: JsonView,
    selected: MatchView,
    path: Seq<char>,
    source_digest: Seq<u8>,
    bytes: Seq<u8>,
) -> bool {
    let start = selected.selected_range.start;
    let end = selected.selected_range.end;
    &&& start <= end <= bytes.len()
    &&& has(value, "name"@, JsonView::String(selected.name))
    &&& has(
        value,
        "symbol_kind"@,
        JsonView::String(kinds::normalized_kind_text(selected.kind)),
    )
    &&& exists|crumbs: JsonView| #[trigger]
        has(value, "symbol_path"@, crumbs) && lists_texts(crumbs, selected.symbol_path)
    &&& has(value, "detail"@, text_or_null(selected.detail))
    &&& exists|range: JsonView| #[trigger]
        has(value, "lsp_range"@, range) && says_range(range, selected.lsp_range)
    &&& exists|range: JsonView| #[trigger]
        has(value, "lsp_selection_range"@, range) && says_range(
            range,
            selected.lsp_selection_range,
        )
    &&& has(value, "extent"@, JsonView::String(extent_name(selected.extent)))
    &&& exists|selector: JsonView| #[trigger]
        has(value, "selector"@, selector) && says_bytes(selector, start, end)
    &&& has(
        value,
        "selected_payload_sha256"@,
        JsonView::String(
            digest::prefixed_hex(digest::sha256_of(bytes.subrange(start as int, end as int))),
        ),
    )
    &&& has(value, "selected_byte_length"@, count((end - start) as u64))
    &&& exists|request: JsonView| #[trigger]
        has(value, "request_source"@, request) && says_request_source(
            request,
            path,
            start,
            end,
            source_digest,
        )
}

/// The wire form of a match says what was matched and selected, and nothing
/// that is inside the source is refused.
pub proof fn law_matches_are_written_out(
    path: Seq<char>,
    source_digest: Seq<u8>,
    bytes: Seq<u8>,
    selected: MatchView,
)
    ensures
        match select_command::match_value(path, source_digest, bytes, selected) {
            Ok(value) => says_match(value, selected, path, source_digest, bytes),
            Err(_) => !(selected.selected_range.start <= selected.selected_range.end
                <= bytes.len()) || selected.selected_range.end > usize::MAX,
        },
{
    if let Ok(value) = select_command::match_value(path, source_digest, bytes, selected) {
        let members = value->Object_0;
        let selector = SelectionByteSelectorDto {
            start: selected.selected_range.start,
            end: selected.selected_range.end,
        };
        lemma_has(members, 0);
        lemma_has(members, 1);
        lemma_has(members, 2);
        lemma_has(members, 3);
        lemma_has(members, 4);
        lemma_has(members, 5);
        lemma_has(members, 6);
        lemma_has(members, 7);
        lemma_has(members, 8);
        lemma_has(members, 9);
        lemma_has(members, 10);
        select_command::law_wire_kinds_keep_their_spelling(selected.kind);
        law_ranges_are_written_out(selected.lsp_range);
        law_ranges_are_written_out(selected.lsp_selection_range);
        lemma_says_bytes(selector);
        assert(has(value, "symbol_path"@, members[2].1));
        assert(has(value, "lsp_range"@, members[4].1));
        assert(has(value, "lsp_selection_range"@, members[5].1));
        assert(has(value, "selector"@, selector@));
        let request = members[10].1;
        assert(has(value, "request_source"@, request));
        let parts = request->Object_0;
        lemma_has(parts, 0);
        lemma_has(parts, 1);
        lemma_has(parts, 2);
        assert(has(request, "selector"@, selector@));
        assert(has(request, "precondition"@, parts[2].1));
        lemma_has(parts[2].1->Object_0, 0);
        lemma_has(parts[2].1->Object_0, 1);
    }
}

/// Whether a JSON value is a query.
pub open spec fn says_query(value: JsonView, query: QueryView) -> bool {
    match query {
        QueryView::Name { name, kind } => {
            &&& has(value, "kind"@, JsonView::String("name"@))
            &&& has(value, "name"@, JsonView::String(name))
            &&& has(
                value,
                "symbol_kind"@,
                text_or_null(
                    match kind {
                        Some(kind) => Some(kinds::kind_text(kind)),
                        None => None,
                    },
                ),
            )
        },
        QueryView::Byte { offset, kind } => {
            &&& has(value, "kind"@, JsonView::String("position"@))
            &&& has(value, "byte_offset"@, count(offset))
            &&& has(
                value,
                "symbol_kind"@,
                text_or_null(
                    match kind {
                        Some(kind) => Some(kinds::kind_text(kind)),
                        None => None,
                    },
                ),
            )
        },
    }
}

/// The wire form of a query says what is asked for.
pub proof fn law_queries_are_written_out(query: QueryView)
    ensures
        says_query(select_command::query_json(query), query),
{
    let members = select_command::query_json(query)->Object_0;
    lemma_has(members, 0);
    lemma_has(members, 1);
    lemma_has(members, 2);
}

/// Whether a JSON value is the response with these matches.
pub open spec fn says_response(
    value: JsonView,
    frame: ResponseFrame,
    matches: Seq<MatchView>,
) -> bool {
    &&& has(value, "selection_protocol_version"@, count(1))
    &&& has(
        value,
        "workspace_identity_hash"@,
        JsonView::String(digest::prefixed_hex(frame.workspace)),
    )
    &&& exists|source: JsonView| #[trigger]
        has(value, "source"@, source) && says_source(
            source,
            frame.path,
            frame.source_digest,
            frame.bytes.len(),
        )
    &&& exists|query: JsonView| #[trigger]
        has(value, "query"@, query) && says_query(query, frame.query)
    &&& exists|server: JsonView| #[trigger]
        has(value, "server"@, server) && says_server(
            server,
            frame.configuration_id,
            frame.reported_name,
            frame.reported_version,
            frame.encoding,
        )
    &&& exists|items: Seq<JsonView>| #[trigger]
        has(value, "matches"@, JsonView::Array(items)) && items.len() == matches.len() && forall|
            i: int,
        |
            0 <= i < items.len() ==> says_match(
                #[trigger] items[i],
                matches[i],
                frame.path,
                frame.source_digest,
                frame.bytes,
            )
    &&& has(value, "warnings"@, JsonView::Array(frame.warnings))
}

/// A response gives its source, its query, its server, its warnings, and every
/// match, in order.
pub proof fn law_responses_are_written_out(frame: ResponseFrame, matches: Seq<MatchView>)
    requires
        select_command::response_value(frame, matches) is Ok,
    ensures
        says_response(select_command::response_value(frame, matches)->Ok_0, frame, matches),
{
    let value = select_command::response_value(frame, matches)->Ok_0;
    let members = value->Object_0;
    select_command::law_responses_are_complete(frame, matches);
    lemma_has(members, 0);
    lemma_has(members, 1);
    lemma_has(members, 2);
    lemma_has(members, 3);
    lemma_has(members, 4);
    lemma_has(members, 5);
    lemma_has(members, 6);
    lemma_says_source(frame.path, frame.source_digest, frame.bytes.len());
    law_queries_are_written_out(frame.query);
    lemma_says_server(
        frame.configuration_id,
        frame.reported_name,
        frame.reported_version,
        frame.encoding,
    );
    assert(has(value, "source"@, members[2].1));
    assert(has(value, "query"@, members[3].1));
    assert(has(value, "server"@, members[4].1));
    let items = members[5].1->Array_0;
    assert(has(value, "matches"@, JsonView::Array(items)));
    assert forall|i: int| 0 <= i < items.len() implies says_match(
        #[trigger] items[i],
        matches[i],
        frame.path,
        frame.source_digest,
        frame.bytes,
    ) by {
        select_command::lemma_response_matches(frame, matches, i);
        law_matches_are_written_out(frame.path, frame.source_digest, frame.bytes, matches[i]);
    }
}

/// Whether a text is the one line of a value's serialization.
pub open spec fn is_line_of(output: Seq<char>, value: JsonView) -> bool {
    &&& json::serialized_json(value) matches Ok(payload)
    &&& text::utf8(output) == payload.push(10u8)
}

/// The structured output of a selection is one line: the response whose matches
/// are those that the query calls for, with the extent and in the mode asked
/// for.
pub proof fn law_selections_print_what_they_find(
    frame: ResponseFrame,
    list: Seq<SymbolView>,
    options: SelectOptions,
    mode: MatchMode,
)
    requires
        options.json,
        options.all_matches <==> mode == MatchMode::All,
        select_command::selected_output(frame, list, options) is Ok,
    ensures
        ({
            let output = select_command::selected_output(frame, list, options)->Ok_0;
            let found = select_command::query_matches(
                list,
                frame.bytes,
                frame.query,
                options.extent,
                mode,
            );
            &&& found is Ok
            &&& exists|value: JsonView| #[trigger]
                says_response(value, frame, found->Ok_0) && is_line_of(output, value)
            &&& text::utf8(output).len() <= 16_777_216
        }),
{
    let output = select_command::selected_output(frame, list, options)->Ok_0;
    let found = select_command::query_matches(
        list,
        frame.bytes,
        frame.query,
        options.extent,
        mode,
    );
    let value = select_command::response_value(frame, found->Ok_0)->Ok_0;
    law_responses_are_written_out(frame, found->Ok_0);
    let line = wire::json_line(value, wire::MAX_RESPONSE_BYTES)->Ok_0;
    vstd::utf8::decode_utf8_encode_utf8(line);
    assert(is_line_of(output, value));
}

/// The structured output of an outline is one line: the outline whose records
/// describe one symbol of each record of a requested kind, in order, and at
/// most ten thousand of them.
pub proof fn law_outlines_print_what_they_list(
    frame: OutlineFrame,
    list: Seq<SymbolView>,
    scanned: nat,
    requested: Seq<kinds::KnownSymbolKind>,
)
    requires
        frame.bytes.len() <= u64::MAX,
        outline_command::outlined_output(frame, list, scanned, requested, true) is Ok,
    ensures
        ({
            let output = outline_command::outlined_output(
                frame,
                list,
                scanned,
                requested,
                true,
            )->Ok_0;
            exists|value: JsonView, records: Seq<OutlineSymbolView>, picked: Seq<SymbolView>|
                #![trigger says_outline(value, frame, records), query_laws::is_census(picked, list, outline_laws::is_requested(requested))]
                {
                    &&& query_laws::is_census(picked, list, outline_laws::is_requested(requested))
                    &&& picked.len() <= 10_000
                    &&& records.len() == picked.len()
                    &&& forall|i: int|
                        0 <= i < records.len() ==> outline_laws::describes(
                            #[trigger] records[i],
                            picked[i],
                            frame.bytes,
                        )
                    &&& says_outline(value, frame, records)
                    &&& is_line_of(output, value)
                }
        }),
        text::utf8(
            outline_command::outlined_output(frame, list, scanned, requested, true)->Ok_0,
        ).len() <= 16_777_216,
{
    let output = outline_command::outlined_output(frame, list, scanned, requested, true)->Ok_0;
    let picked = outline_command::filtered(crate::symbols::ordered_unique(list), requested);
    let limit = crate::position::DEFAULT_MAXIMUM_CODE_POINTS_SCANNED as nat;
    let records = outline_command::outlined_all(picked, frame.bytes, scanned, limit)->Ok_0;
    let value = outline_command::framed_outline(frame, records);
    outline_laws::law_outlines_list_the_requested(list, requested);
    outline_laws::law_outlines_describe_every_symbol(picked, frame.bytes, scanned, limit);
    law_outlines_are_written_out(frame, records);
    let line = wire::json_line(value, wire::MAX_RESPONSE_BYTES)->Ok_0;
    vstd::utf8::decode_utf8_encode_utf8(line);
    assert(is_line_of(output, value));
    assert(says_outline(value, frame, records));
}

} // verus!
