//! What headers and messages mean: which are accepted, and what they say.

use vstd::prelude::*;

use crate::bytes;
use crate::framing;
use crate::framing::{FrameState, HeaderFields};
use crate::json;
use crate::json::{JsonNumberView, JsonView};
use crate::jsonrpc;
use crate::jsonrpc::{
    ClientRequestId, EnvelopeLimits, EnvelopeViolation, FramingLimits, IncomingMessageView,
    JsonRpcError, JsonRpcErrorView, ResponsePayloadView, ServerRequestIdView,
};
use crate::text;

verus! {

/// Whether a byte is a space or a tab.
pub open spec fn is_space(byte: u8) -> bool {
    byte == 32 || byte == 9
}

/// Whether bytes are the rest of others without the spaces and tabs around them.
pub open spec fn is_inner(inner: Seq<u8>, outer: Seq<u8>) -> bool {
    exists|start: int, end: int|
        {
            &&& 0 <= start <= end <= outer.len()
            &&& inner == #[trigger] outer.subrange(start, end)
            &&& forall|i: int|
                0 <= i < outer.len() && !(start <= i < end) ==> is_space(#[trigger] outer[i])
            &&& inner.len() > 0 ==> !is_space(inner[0]) && !is_space(inner.last())
        }
}

proof fn lemma_trim_start(outer: Seq<u8>) -> (start: int)
    ensures
        0 <= start <= outer.len(),
        bytes::trim_start(outer) == outer.skip(start),
        forall|i: int| 0 <= i < start ==> is_space(#[trigger] outer[i]),
        start < outer.len() ==> !is_space(outer[start]),
    decreases outer.len(),
{
    if outer.len() > 0 && bytes::is_blank(outer[0]) {
        let rest = outer.drop_first();
        let start = lemma_trim_start(rest);
        assert(outer.skip(start + 1) =~= rest.skip(start));
        assert forall|i: int| 0 <= i < start + 1 implies is_space(#[trigger] outer[i]) by {
            if i > 0 {
                assert(outer[i] == rest[i - 1]);
            }
        }
        if start < rest.len() {
            assert(outer[start + 1] == rest[start]);
        }
        start + 1
    } else {
        assert(outer.skip(0) =~= outer);
        0
    }
}

proof fn lemma_trim_end(outer: Seq<u8>) -> (end: int)
    ensures
        0 <= end <= outer.len(),
        bytes::trim_end(outer) == outer.take(end),
        forall|i: int| end <= i < outer.len() ==> is_space(#[trigger] outer[i]),
        0 < end ==> !is_space(outer[end - 1]),
    decreases outer.len(),
{
    if outer.len() > 0 && bytes::is_blank(outer.last()) {
        let rest = outer.drop_last();
        let end = lemma_trim_end(rest);
        assert(outer.take(end) =~= rest.take(end));
        assert forall|i: int| end <= i < outer.len() implies is_space(#[trigger] outer[i]) by {
            if i < rest.len() {
                assert(outer[i] == rest[i]);
            }
        }
        if 0 < end {
            assert(outer[end - 1] == rest[end - 1]);
        }
        end
    } else {
        assert(outer.take(outer.len() as int) =~= outer);
        outer.len() as int
    }
}

/// Trimming takes away the spaces and tabs around bytes, and nothing else.
pub proof fn law_trimming_takes_only_spaces(outer: Seq<u8>)
    ensures
        is_inner(bytes::trimmed(outer), outer),
{
    let start = lemma_trim_start(outer);
    let rest = outer.skip(start);
    let size = lemma_trim_end(rest);
    let inner = bytes::trimmed(outer);
    let end = start + size;
    assert(inner =~= outer.subrange(start, end));
    assert forall|i: int| 0 <= i < outer.len() && !(start <= i < end) implies is_space(
        #[trigger] outer[i],
    ) by {
        if i >= end {
            assert(outer[i] == rest[i - start]);
        }
    }
    if inner.len() > 0 {
        assert(inner[0] == outer[start]);
        assert(inner.last() == rest[size - 1]);
    }
}

/// Whether two bytes are the same but for the case of a letter.
pub open spec fn is_alike(left: u8, right: u8) -> bool {
    ||| left == right
    ||| 65 <= left <= 90 && right == left + 32
    ||| 65 <= right <= 90 && left == right + 32
}

/// Whether bytes spell a word but for the case of letters.
pub open spec fn is_word(spelling: Seq<u8>, word: Seq<char>) -> bool {
    &&& spelling.len() == text::utf8(word).len()
    &&& forall|i: int|
        0 <= i < spelling.len() ==> is_alike(#[trigger] spelling[i], text::utf8(word)[i])
}

/// Bytes spell a word exactly where they do so but for the case of letters.
pub proof fn law_spelling_ignores_case(spelling: Seq<u8>, word: Seq<char>)
    ensures
        bytes::spells(spelling, word) <==> is_word(spelling, word),
{
    let left = bytes::lowered(spelling);
    let right = bytes::lowered(text::utf8(word));
    if is_word(spelling, word) {
        assert(left =~= right);
    }
    if bytes::spells(spelling, word) {
        assert(left.len() == right.len());
        assert forall|i: int| 0 <= i < spelling.len() implies is_alike(
            #[trigger] spelling[i],
            text::utf8(word)[i],
        ) by {
            assert(left[i] == right[i]);
        }
    }
}

/// The number that decimal digits write.
pub open spec fn written_number(digits: Seq<u8>) -> nat
    decreases digits.len(),
{
    if digits.len() == 0 {
        0
    } else {
        10 * written_number(digits.drop_last()) + (digits.last() - 48) as nat
    }
}

proof fn lemma_written_number(digits: Seq<u8>)
    ensures
        bytes::digits_value(digits) == written_number(digits),
    decreases digits.len(),
{
    if digits.len() > 0 {
        lemma_written_number(digits.drop_last());
    }
}

/// Whether bytes are one or more decimal digits.
pub open spec fn is_number(value: Seq<u8>) -> bool {
    value.len() > 0 && forall|i: int| 0 <= i < value.len() ==> 48 <= #[trigger] value[i] <= 57
}

/// A declared length is the number that its digits write, where the machine can
/// hold it; anything but digits declares none.
pub proof fn law_lengths_are_decimal(value: Seq<u8>)
    ensures
        match framing::content_length_of(value) {
            Ok(length) => is_number(value) && length == written_number(value),
            Err(error) => if is_number(value) {
                written_number(value) > usize::MAX && error is ContentLengthOverflow
            } else {
                error is InvalidContentLength
            },
        },
{
    lemma_written_number(value);
}

/// Whether a byte may stand in the name of a header.
pub open spec fn is_name_byte(byte: u8) -> bool {
    ||| 48 <= byte <= 57
    ||| 65 <= byte <= 90
    ||| 94 <= byte <= 122
    ||| byte == 33 || 35 <= byte <= 39
    ||| byte == 42 || byte == 43 || byte == 45 || byte == 46
    ||| byte == 124 || byte == 126
}

/// Whether a header line is well-formed: a name, a colon, and a value without
/// control bytes.
pub open spec fn is_well_formed(line: Seq<u8>, colon: int, value: Seq<u8>) -> bool {
    &&& 0 < colon < line.len()
    &&& forall|i: int| 0 <= i < line.len() ==> #[trigger] line[i] != 13 && line[i] != 10
    &&& forall|i: int| 0 <= i < colon ==> is_name_byte(#[trigger] line[i])
    &&& forall|i: int| 0 <= i < value.len() ==> #[trigger] value[i] == 9 || 32 <= value[i] <= 126
}

/// A header line is its name up to the first colon and its value behind it,
/// without the spaces around that. A length is declared once, and so is a type;
/// any other header changes nothing, and a line that is no header is refused.
pub proof fn law_header_lines_declare(line: Seq<u8>, fields: HeaderFields, colon: int)
    requires
        0 <= colon < line.len(),
        line[colon] == 58,
        forall|i: int| 0 <= i < colon ==> line[i] != 58,
    ensures
        exists|value: Seq<u8>| #[trigger] is_inner(value, line.skip(colon + 1)) && {
            let name = line.take(colon);
            match framing::read_line(line, fields) {
                Ok(read) => is_well_formed(line, colon, value) && if is_word(
                    name,
                    "Content-Length"@,
                ) {
                    &&& fields.content_length is None
                    &&& is_number(value)
                    &&& read.content_length == Some(written_number(value) as usize)
                    &&& written_number(value) <= usize::MAX
                    &&& read.saw_content_type == fields.saw_content_type
                } else if is_word(name, "Content-Type"@) {
                    &&& !fields.saw_content_type
                    &&& framing::is_supported_content_type(value)
                    &&& read.saw_content_type
                    &&& read.content_length == fields.content_length
                } else {
                    read == fields
                },
                Err(error) => if !is_well_formed(line, colon, value) {
                    error is MalformedHeader
                } else if is_word(name, "Content-Length"@) {
                    ||| fields.content_length is Some && error is DuplicateContentLength
                    ||| fields.content_length is None && !is_number(value) && error
                        is InvalidContentLength
                    ||| fields.content_length is None && is_number(value) && written_number(value)
                        > usize::MAX && error is ContentLengthOverflow
                } else {
                    &&& is_word(name, "Content-Type"@)
                    &&& if fields.saw_content_type {
                        error is DuplicateContentType
                    } else {
                        !framing::is_supported_content_type(value) && error
                            is UnsupportedContentType
                    }
                },
            }
        },
{
    bytes::lemma_first_index(line, 58, colon);
    let name = line.take(colon);
    let value = bytes::trimmed(line.skip(colon + 1));
    law_trimming_takes_only_spaces(line.skip(colon + 1));
    law_spelling_ignores_case(name, "Content-Length"@);
    law_spelling_ignores_case(name, "Content-Type"@);
    law_lengths_are_decimal(value);
    assert(framing::is_field_line(line) ==> is_well_formed(line, colon, value));
    if is_well_formed(line, colon, value) {
        assert forall|i: int| 0 <= i < colon implies framing::is_token(#[trigger] line[i]) by {
            assert(is_name_byte(line[i]));
        }
        assert(framing::is_field_line(line));
    }
    assert(is_inner(value, line.skip(colon + 1)));
}

/// A line without a colon is no header.
pub proof fn law_headers_have_a_colon(line: Seq<u8>, fields: HeaderFields)
    requires
        !line.contains(58u8),
    ensures
        framing::read_line(line, fields) matches Err(error) && error is MalformedHeader,
{
    assert forall|i: int| 0 <= i < line.len() implies line[i] != 58 by {
        assert(line.contains(line[i]));
    }
    bytes::lemma_first_index(line, 58, line.len() as int);
}

/// A type is supported exactly where it is the protocol's own, alone or with one
/// parameter that says the text is UTF-8.
pub proof fn law_supported_types_are_plain(value: Seq<u8>, left: Seq<u8>, right: Seq<u8>)
    requires
        !left.contains(59u8),
        !right.contains(59u8),
    ensures
        framing::is_supported_content_type(left) <==> is_word(
            bytes::trimmed(left),
            "application/vscode-jsonrpc"@,
        ),
        framing::is_supported_content_type(left + seq![59u8] + right) <==> is_word(
            bytes::trimmed(left),
            "application/vscode-jsonrpc"@,
        ) && framing::is_utf8_charset(right),
        !framing::is_supported_content_type(left + seq![59u8] + right + seq![59u8] + value),
{
    law_spelling_ignores_case(bytes::trimmed(left), "application/vscode-jsonrpc"@);
    lemma_no_pieces(left);
    lemma_no_pieces(right);
    lemma_first_piece(left, right);
    lemma_first_piece(left, right + seq![59u8] + value);
    lemma_first_piece(right, value);
    assert(left + seq![59u8] + right + seq![59u8] + value =~= left + seq![59u8] + (right
        + seq![59u8] + value));
    assert(framing::pieces(value, 59).len() > 0) by {
        reveal_with_fuel(framing::pieces, 2);
    }
}

proof fn lemma_no_pieces(part: Seq<u8>)
    requires
        !part.contains(59u8),
    ensures
        framing::pieces(part, 59) == seq![part],
{
    assert forall|i: int| 0 <= i < part.len() implies part[i] != 59 by {
        assert(part.contains(part[i]));
    }
    bytes::lemma_first_index(part, 59, part.len() as int);
}

proof fn lemma_first_piece(part: Seq<u8>, rest: Seq<u8>)
    requires
        !part.contains(59u8),
    ensures
        framing::pieces(part + seq![59u8] + rest, 59) == seq![part] + framing::pieces(rest, 59),
{
    let whole = part + seq![59u8] + rest;
    assert forall|i: int| 0 <= i < part.len() implies whole[i] != 59 by {
        assert(part.contains(part[i]));
    }
    bytes::lemma_first_index(whole, 59, part.len() as int);
    assert(whole.take(part.len() as int) =~= part);
    assert(whole.skip(part.len() as int + 1) =~= rest);
}

/// A parameter says that the text is UTF-8 exactly where its name, up to the first
/// equals sign, is that of the character set, and its value is either spelling.
pub proof fn law_only_utf8_is_a_character_set(name: Seq<u8>, value: Seq<u8>)
    requires
        !name.contains(61u8),
        bytes::trimmed(name + seq![61u8] + value) == name + seq![61u8] + value,
    ensures
        framing::is_utf8_charset(name + seq![61u8] + value) <==> is_word(
            bytes::trimmed(name),
            "charset"@,
        ) && (is_word(bytes::trimmed(value), "utf-8"@) || is_word(bytes::trimmed(value), "utf8"@)),
{
    let inner = name + seq![61u8] + value;
    assert forall|i: int| 0 <= i < name.len() implies inner[i] != 61 by {
        assert(name.contains(name[i]));
    }
    bytes::lemma_first_index(inner, 61, name.len() as int);
    assert(inner.take(name.len() as int) =~= name);
    assert(inner.skip(name.len() as int + 1) =~= value);
    law_spelling_ignores_case(bytes::trimmed(name), "charset"@);
    law_spelling_ignores_case(bytes::trimmed(value), "utf-8"@);
    law_spelling_ignores_case(bytes::trimmed(value), "utf8"@);
}

/// Whether a decoder holds no more than it may: a header within its bound, or less
/// than the body that was declared within its own.
pub open spec fn is_within_bounds(state: FrameState, limits: FramingLimits) -> bool {
    match state {
        FrameState::Header(header) => header.len() <= limits.max_header_bytes,
        FrameState::Body { bytes, expected } => bytes.len() < expected
            <= limits.max_inbound_body_bytes,
    }
}

/// A decoder never holds more than its bounds allow, byte by byte, and completes no
/// body beyond them; a header that is too long, or is not ASCII, ends it, and a
/// body ends exactly with its declared length.
pub proof fn law_frames_stay_within_bounds(limits: FramingLimits, state: FrameState, byte: u8)
    requires
        is_within_bounds(state, limits),
    ensures
        match (state, framing::frame_step(limits, state, byte)) {
            (FrameState::Header(header), Ok((next, body))) => {
                &&& header.len() < limits.max_header_bytes
                &&& byte < 128
                &&& is_within_bounds(next, limits)
                &&& body matches Some(body) ==> body.len() == 0 && next == FrameState::Header(
                    Seq::empty(),
                )
                &&& next matches FrameState::Header(kept) ==> body is Some || kept == header.push(
                    byte,
                )
                &&& next matches FrameState::Body { bytes, expected } ==> bytes.len() == 0
            },
            (FrameState::Body { bytes, expected }, Ok((next, body))) => {
                &&& is_within_bounds(next, limits)
                &&& bytes.len() + 1 == expected ==> body == Some(bytes.push(byte)) && next
                    == FrameState::Header(Seq::empty())
                &&& bytes.len() + 1 < expected ==> body is None && next == (FrameState::Body {
                    bytes: bytes.push(byte),
                    expected,
                })
            },
            (FrameState::Body { .. }, Err(_)) => false,
            (FrameState::Header(header), Err(error)) => {
                &&& header.len() == limits.max_header_bytes ==> error is HeaderTooLarge
                &&& header.len() < limits.max_header_bytes && byte >= 128 ==> error
                    is NonAsciiHeader
                &&& error matches JsonRpcError::HeaderTooLarge { limit } ==> limit
                    == limits.max_header_bytes && header.len() + 1 >= limit
                &&& error matches JsonRpcError::InboundBodyTooLarge { length, limit } ==> limit
                    == limits.max_inbound_body_bytes && length > limit
            },
        },
{
    if let FrameState::Header(header) = state {
        let next = header.push(byte);
        lemma_line_failures(
            framing::header_lines(next.take(next.len() - 4)),
            framing::no_fields(),
        );
    }
}

proof fn lemma_line_failures(lines: Seq<Seq<u8>>, fields: HeaderFields)
    ensures
        framing::read_lines(lines, fields) matches Err(error) ==> !(error is HeaderTooLarge)
            && !(error is InboundBodyTooLarge),
    decreases lines.len(),
{
    if lines.len() > 0 {
        if let Ok(next) = framing::read_line(lines[0], fields) {
            lemma_line_failures(lines.drop_first(), next);
        }
    }
}

/// Whether members have one of this name.
pub open spec fn is_named(members: Seq<(Seq<char>, JsonView)>, name: Seq<char>) -> bool {
    exists|i: int| 0 <= i < members.len() && (#[trigger] members[i]).0 == name
}

/// Whether the first member of a name has a value.
pub open spec fn says(
    members: Seq<(Seq<char>, JsonView)>,
    name: Seq<char>,
    value: JsonView,
) -> bool {
    exists|i: int|
        {
            &&& 0 <= i < members.len()
            &&& (#[trigger] members[i]) == (name, value)
            &&& forall|j: int| 0 <= j < i ==> (#[trigger] members[j]).0 != name
        }
}

/// What is looked up is the first member of the name, where there is one.
pub proof fn law_members_are_found_by_name(
    members: Seq<(Seq<char>, JsonView)>,
    name: Seq<char>,
)
    ensures
        json::has_member(members, name) <==> is_named(members, name),
        match json::member(members, name) {
            Some(value) => says(members, name, value) && is_named(members, name),
            None => !is_named(members, name),
        },
    decreases members.len(),
{
    if members.len() > 0 {
        let rest = members.drop_first();
        law_members_are_found_by_name(rest, name);
        if members[0].0 == name {
            assert(members[0] == (name, members[0].1));
        } else {
            match json::member(rest, name) {
                Some(value) => {
                    let i = choose|i: int|
                        {
                            &&& 0 <= i < rest.len()
                            &&& (#[trigger] rest[i]) == (name, value)
                            &&& forall|j: int| 0 <= j < i ==> (#[trigger] rest[j]).0 != name
                        };
                    assert(members[i + 1] == (name, value));
                    assert forall|j: int| 0 <= j < i + 1 implies (#[trigger] members[j]).0
                        != name by {
                        if j > 0 {
                            assert(rest[j - 1].0 != name);
                        }
                    }
                    json::lemma_member_index_bounds(rest, name);
                    json::lemma_member_index_bounds(members, name);
                    assert(members[json::member_index(members, name)]
                        == rest[json::member_index(rest, name)]);
                },
                None => {
                    json::lemma_member_index_bounds(rest, name);
                    assert forall|j: int| 0 <= j < members.len() implies (#[trigger] members[j]).0
                        != name by {
                        if j > 0 {
                            assert(rest[j - 1].0 != name);
                        }
                    }
                },
            }
        }
    }
}

/// Whether a JSON value is an identifier of a server's request.
pub open spec fn identifies(value: JsonView, id: ServerRequestIdView) -> bool {
    match id {
        ServerRequestIdView::Integer(number) => {
            ||| value matches JsonView::Number(JsonNumberView::Unsigned(given)) && given == number
            ||| value matches JsonView::Number(JsonNumberView::Negative(given)) && given == number
        },
        ServerRequestIdView::Unsigned(number) => number > i64::MAX && value == JsonView::Number(
            JsonNumberView::Unsigned(number),
        ),
        ServerRequestIdView::String(given) => value == JsonView::String(given),
    }
}

/// Whether a JSON value is a number that is counted from zero.
pub open spec fn is_count(value: JsonView, number: u64) -> bool {
    ||| value matches JsonView::Number(JsonNumberView::Unsigned(given)) && given == number
    ||| value matches JsonView::Number(JsonNumberView::Negative(given)) && given == number
}

/// Whether a JSON value is an integer.
pub open spec fn is_whole_number(value: JsonView) -> bool {
    ||| value matches JsonView::Number(JsonNumberView::Unsigned(_))
    ||| value matches JsonView::Number(JsonNumberView::Negative(_))
}

/// Whether a JSON value is a negative integer.
pub open spec fn is_negative(value: JsonView) -> bool {
    value matches JsonView::Number(JsonNumberView::Negative(number)) && number < 0
}

/// Whether parameters are as the members give them: nothing, or structured.
pub open spec fn gives_params(
    members: Seq<(Seq<char>, JsonView)>,
    params: Option<JsonView>,
) -> bool {
    match params {
        Some(value) => says(members, "params"@, value) && (value is Null || value is Array || value
            is Object),
        None => !is_named(members, "params"@),
    }
}

/// Whether members are those of a request or a notification of a method.
pub open spec fn calls(
    members: Seq<(Seq<char>, JsonView)>,
    method: Seq<char>,
    params: Option<JsonView>,
) -> bool {
    &&& says(members, "jsonrpc"@, JsonView::String("2.0"@))
    &&& says(members, "method"@, JsonView::String(method))
    &&& gives_params(members, params)
    &&& !is_named(members, "result"@)
    &&& !is_named(members, "error"@)
}

/// Whether a number is the code of an error.
pub open spec fn is_code(value: JsonView, code: i64) -> bool {
    ||| value matches JsonView::Number(JsonNumberView::Unsigned(given)) && given == code
    ||| value matches JsonView::Number(JsonNumberView::Negative(given)) && given == code
}

/// Whether a payload is as the members give it: a result, or an error with its
/// code, its message, and what data it has.
pub open spec fn answers(
    members: Seq<(Seq<char>, JsonView)>,
    payload: ResponsePayloadView,
) -> bool {
    match payload {
        ResponsePayloadView::Result(value) => says(members, "result"@, value) && !is_named(
            members,
            "error"@,
        ),
        ResponsePayloadView::Error { code, message, data } => !is_named(members, "result"@)
            && exists|inner: Seq<(Seq<char>, JsonView)>, number: JsonView|
            {
                &&& #[trigger] says(members, "error"@, JsonView::Object(inner))
                &&& #[trigger] says(inner, "code"@, number)
                &&& is_code(number, code)
                &&& says(inner, "message"@, JsonView::String(message))
                &&& match data {
                    Some(value) => says(inner, "data"@, value),
                    None => !is_named(inner, "data"@),
                }
            },
    }
}

/// Whether a value is serialized within a number of bytes.
pub open spec fn fits(value: JsonView, limit: usize) -> bool {
    json::serialized_json(value) matches Ok(bytes) && bytes.len() as usize <= limit
}

/// A message is what its members say: a request or a notification of the method
/// that it names, with its parameters and its identifier, or a response to the
/// request that it names, with a result or an error but not both. A name that
/// is too long, and what belongs to the other kind of message, is refused.
pub proof fn law_messages_are_what_their_members_say(value: JsonView, limits: EnvelopeLimits)
    ensures
        match jsonrpc::classified(value, limits) {
            Ok(IncomingMessageView::Request { id, method, params }) => {
                &&& value matches JsonView::Object(members)
                &&& calls(members, method, params)
                &&& text::utf8(method).len() <= limits.max_method_bytes
                &&& params matches Some(params) ==> fits(params, limits.max_params_bytes)
                &&& exists|given: JsonView| #[trigger]
                    says(members, "id"@, given) && identifies(given, id) && fits(
                        given,
                        limits.max_id_bytes,
                    )
            },
            Ok(IncomingMessageView::Notification { method, params }) => {
                &&& value matches JsonView::Object(members)
                &&& calls(members, method, params)
                &&& text::utf8(method).len() <= limits.max_method_bytes
                &&& params matches Some(params) ==> fits(params, limits.max_params_bytes)
                &&& !is_named(members, "id"@)
            },
            Ok(IncomingMessageView::Response { id, payload }) => {
                &&& value matches JsonView::Object(members)
                &&& says(members, "jsonrpc"@, JsonView::String("2.0"@))
                &&& !is_named(members, "method"@)
                &&& !is_named(members, "params"@)
                &&& exists|given: JsonView| #[trigger]
                    says(members, "id"@, given) && is_count(given, id@)
                &&& answers(members, payload)
            },
            Err(_) => true,
        },
{
    if let JsonView::Object(members) = value {
        law_members_are_found_by_name(members, "jsonrpc"@);
        law_members_are_found_by_name(members, "method"@);
        law_members_are_found_by_name(members, "params"@);
        law_members_are_found_by_name(members, "id"@);
        law_members_are_found_by_name(members, "result"@);
        law_members_are_found_by_name(members, "error"@);
        if let Ok(IncomingMessageView::Response { id, payload }) = jsonrpc::classified(
            value,
            limits,
        ) {
            jsonrpc::law_request_ids_are_their_numbers(jsonrpc::unsigned_integer(
                json::member(members, "id"@)->Some_0,
            )->Some_0);
            if let ResponsePayloadView::Error { code, message, data } = payload {
                let error = json::member(members, "error"@)->Some_0;
                let inner = error->Object_0;
                law_members_are_found_by_name(inner, "code"@);
                law_members_are_found_by_name(inner, "message"@);
                law_members_are_found_by_name(inner, "data"@);
                let number = json::member(inner, "code"@)->Some_0;
                assert(says(members, "error"@, JsonView::Object(inner)));
                assert(says(inner, "code"@, number));
                assert(is_code(number, code));
            }
        }
    }
}

/// A message is refused only for what is wrong with it: a batch, a value that is
/// no object, another version, a method that is no name or too long, members of
/// the other kind of message, unstructured or oversized parameters, and an
/// identifier or an error object that is none.
pub proof fn law_refused_messages_are_wrong(value: JsonView, limits: EnvelopeLimits)
    ensures
        value is Array <==> jsonrpc::classified(value, limits) == Err::<
            IncomingMessageView,
            JsonRpcErrorView,
        >(JsonRpcErrorView::Plain(JsonRpcError::BatchUnsupported)),
        jsonrpc::classified(value, limits) matches Err(JsonRpcErrorView::Plain(error)) ==> (value
            matches JsonView::Object(members) ==> match error {
            JsonRpcError::InvalidEnvelope { violation } => match violation {
                EnvelopeViolation::InvalidVersion => !says(
                    members,
                    "jsonrpc"@,
                    JsonView::String("2.0"@),
                ),
                EnvelopeViolation::InvalidShape => is_named(members, "method"@) && forall|
                    method: Seq<char>,
                | !#[trigger] says(members, "method"@, JsonView::String(method)),
                EnvelopeViolation::RequestContainsResponseMembers => is_named(members, "method"@)
                    && (is_named(members, "result"@) || is_named(members, "error"@)),
                EnvelopeViolation::ResponseContainsRequestMembers => !is_named(members, "method"@)
                    && is_named(members, "params"@),
                EnvelopeViolation::InvalidResponsePayload => !is_named(members, "method"@) && (
                is_named(members, "result"@) <==> is_named(members, "error"@)),
                EnvelopeViolation::InvalidParams => exists|params: JsonView| #[trigger]
                    says(members, "params"@, params) && !(params is Null || params is Array
                        || params is Object),
                EnvelopeViolation::InvalidErrorObject => !is_named(members, "method"@) && is_named(
                    members,
                    "error"@,
                ),
            },
            JsonRpcError::MethodTooLong { length, limit } => exists|method: Seq<char>| #[trigger]
                says(members, "method"@, JsonView::String(method)) && text::utf8(method).len()
                    > limits.max_method_bytes,
            JsonRpcError::ParamsTooLarge { length, limit } => is_named(members, "params"@) && limit
                == limits.max_params_bytes && length > limit,
            JsonRpcError::IdTooLarge { length, limit } => is_named(members, "id"@) && limit
                == limits.max_id_bytes && length > limit,
            JsonRpcError::InvalidId => forall|given: JsonView| #[trigger]
                says(members, "id"@, given) ==> !is_whole_number(given) && (is_named(
                    members,
                    "method"@,
                ) ==> !(given is String)) || (is_negative(given) && !is_named(members, "method"@)),
            _ => false,
        }),
        jsonrpc::classified(value, limits) is Err && !(value is Object) && !(value is Array)
            ==> jsonrpc::classified(value, limits)->Err_0 == JsonRpcErrorView::Plain(
            JsonRpcError::InvalidEnvelope { violation: EnvelopeViolation::InvalidShape },
        ),
{
    if let JsonView::Object(members) = value {
        law_members_are_found_by_name(members, "jsonrpc"@);
        law_members_are_found_by_name(members, "method"@);
        law_members_are_found_by_name(members, "params"@);
        law_members_are_found_by_name(members, "id"@);
        law_members_are_found_by_name(members, "result"@);
        law_members_are_found_by_name(members, "error"@);
        lemma_first_is_one(members, "jsonrpc"@);
        lemma_first_is_one(members, "method"@);
        lemma_first_is_one(members, "id"@);
    }
}

proof fn lemma_first_is_one(members: Seq<(Seq<char>, JsonView)>, name: Seq<char>)
    ensures
        forall|value: JsonView| #[trigger]
            says(members, name, value) ==> json::member(members, name) == Some(value),
{
    law_members_are_found_by_name(members, name);
    assert forall|value: JsonView| #[trigger] says(members, name, value) implies json::member(
        members,
        name,
    ) == Some(value) by {
        let i = choose|i: int|
            {
                &&& 0 <= i < members.len()
                &&& (#[trigger] members[i]) == (name, value)
                &&& forall|j: int| 0 <= j < i ==> (#[trigger] members[j]).0 != name
            };
        json::lemma_member_index(members, name, i);
    }
}

/// A response completes a request exactly where that is pending; and a request
/// begins exactly where fewer are pending than allowed and a number is left.
pub proof fn law_only_pending_requests_complete(
    pending: Set<u64>,
    next: u64,
    limit: usize,
    id: ClientRequestId,
)
    ensures
        jsonrpc::completion(pending, next, id) is Ok <==> pending.contains(id@),
        !pending.contains(id@) && 1 <= id@ < next ==> (jsonrpc::completion(
            pending,
            next,
            id,
        )->Err_0 == JsonRpcError::DuplicateResponseId { id }),
        !pending.contains(id@) && (id@ == 0 || id@ >= next) ==> (jsonrpc::completion(
            pending,
            next,
            id,
        )->Err_0 == JsonRpcError::UnknownResponseId { id }),
        jsonrpc::allocation(pending, next, limit) is Ok <==> pending.len() < limit && next
            < u64::MAX,
{
}

/// Whether bytes hold neither a quotation mark nor a backslash.
pub open spec fn is_unquoted(content: Seq<u8>) -> bool {
    forall|i: int| 0 <= i < content.len() ==> #[trigger] content[i] != 34 && content[i] != 92
}

/// What stands in a string does not nest, and neither does anything that opens or
/// closes nothing; what is opened and closed again leaves the depth as it was; and
/// opening one level more than allowed is refused.
pub proof fn law_only_brackets_nest(
    content: Seq<u8>,
    open: u8,
    close: u8,
    other: u8,
    rest: Seq<u8>,
    depth: usize,
    limit: usize,
)
    requires
        is_unquoted(content),
        open == 91 || open == 123,
        close == 93 || close == 125,
        other != 34 && other != 91 && other != 93 && other != 123 && other != 125,
        depth < usize::MAX,
    ensures
        ({
            let here = jsonrpc::DepthScan { depth, in_string: false, escaped: false };
            let within = jsonrpc::depth_outcome(rest, here, limit);
            &&& jsonrpc::depth_outcome(seq![other] + rest, here, limit) == within
            &&& jsonrpc::depth_outcome(seq![34u8] + content + seq![34u8] + rest, here, limit)
                == within
            &&& jsonrpc::depth_outcome(
                seq![34u8] + content + seq![92u8, 34u8] + content + seq![34u8] + rest,
                here,
                limit,
            ) == within
            &&& depth < limit ==> jsonrpc::depth_outcome(seq![open, close] + rest, here, limit)
                == within
            &&& depth >= limit ==> jsonrpc::depth_outcome(seq![open] + rest, here, limit)
                == Err::<(), JsonRpcError>(
                JsonRpcError::JsonNestingTooDeep { depth: (depth + 1) as usize, limit },
            )
            &&& jsonrpc::depth_outcome(Seq::empty(), here, limit) is Ok
        }),
{
    let here = jsonrpc::DepthScan { depth, in_string: false, escaped: false };
    let inside = jsonrpc::DepthScan { depth, in_string: true, escaped: false };
    let escaped = jsonrpc::DepthScan { depth, in_string: true, escaped: true };
    reveal_with_fuel(jsonrpc::depth_outcome, 3);
    assert((seq![other] + rest).drop_first() =~= rest);
    let tail = content + seq![34u8] + rest;
    assert((seq![34u8] + content + seq![34u8] + rest).drop_first() =~= content + (seq![34u8]
        + rest));
    assert((seq![34u8] + rest).drop_first() =~= rest);
    lemma_string_content(content, seq![34u8] + rest, depth, limit);
    let second = content + (seq![34u8] + rest);
    let quoted = seq![92u8, 34u8] + second;
    assert((seq![34u8] + content + seq![92u8, 34u8] + content + seq![34u8] + rest).drop_first()
        =~= content + quoted);
    lemma_string_content(content, quoted, depth, limit);
    assert(quoted.drop_first() =~= seq![34u8] + second);
    assert((seq![34u8] + second).drop_first() =~= second);
    assert(jsonrpc::depth_step(inside, 92) == escaped);
    assert(jsonrpc::depth_step(escaped, 34) == inside);
    assert(jsonrpc::depth_outcome(quoted, inside, limit) == jsonrpc::depth_outcome(
        seq![34u8] + second,
        escaped,
        limit,
    ));
    assert((seq![open, close] + rest).drop_first() =~= seq![close] + rest);
    assert((seq![close] + rest).drop_first() =~= rest);
    let deeper = jsonrpc::DepthScan { depth: (depth + 1) as usize, ..here };
    assert(jsonrpc::depth_step(here, open) == deeper);
    assert(jsonrpc::depth_step(deeper, close) == here);
    assert(jsonrpc::depth_step(inside, 34) == here);
    assert(jsonrpc::depth_step(here, 34) == inside);
}

proof fn lemma_string_content(content: Seq<u8>, rest: Seq<u8>, depth: usize, limit: usize)
    requires
        is_unquoted(content),
    ensures
        ({
            let inside = jsonrpc::DepthScan { depth, in_string: true, escaped: false };
            jsonrpc::depth_outcome(content + rest, inside, limit) == jsonrpc::depth_outcome(
                rest,
                inside,
                limit,
            )
        }),
    decreases content.len(),
{
    let inside = jsonrpc::DepthScan { depth, in_string: true, escaped: false };
    if content.len() == 0 {
        assert(content + rest =~= rest);
    } else {
        let shorter = content.drop_first();
        assert(content[0] != 34 && content[0] != 92);
        assert forall|i: int| 0 <= i < shorter.len() implies #[trigger] shorter[i] != 34
            && shorter[i] != 92 by {
            assert(shorter[i] == content[i + 1]);
        }
        assert((content + rest).drop_first() =~= shorter + rest);
        assert((content + rest)[0] == content[0]);
        assert(jsonrpc::depth_step(inside, content[0]) == inside);
        lemma_string_content(shorter, rest, depth, limit);
    }
}

} // verus!
