//! Bounded LSP framing: the header grammar, the incremental frame decoder, and
//! the frame encoder.

use vstd::prelude::*;
use vstd::slice::slice_subrange;

use crate::bytes;
use crate::bytes::{equals_ignoring_case, find_byte, trim_ascii_whitespace};
use crate::jsonrpc::{FrameSection, FramingLimits, JsonRpcError};
use crate::text;
use crate::text::text_around_number;
use crate::wire::text_from_utf8;

verus! {

/// Whether a byte may occur in a header name.
pub open spec fn is_token(byte: u8) -> bool {
    ||| 48 <= byte <= 57
    ||| 65 <= byte <= 90
    ||| 97 <= byte <= 122
    ||| byte == 33
    ||| 35 <= byte <= 39
    ||| byte == 42
    ||| byte == 43
    ||| byte == 45
    ||| byte == 46
    ||| byte == 94
    ||| byte == 95
    ||| byte == 96
    ||| byte == 124
    ||| byte == 126
}

/// Whether a byte may occur in a header value.
pub open spec fn is_field_byte(byte: u8) -> bool {
    byte == 9 || 32 <= byte <= 126
}

/// The index of the first CR LF pair, or the length.
pub open spec fn first_line_end(bytes: Seq<u8>) -> int
    decreases bytes.len(),
{
    if bytes.len() == 0 {
        0
    } else if bytes.len() >= 2 && bytes[0] == 13 && bytes[1] == 10 {
        0
    } else {
        1 + first_line_end(bytes.drop_first())
    }
}

/// The lines of a header, which CR LF pairs separate.
pub open spec fn header_lines(bytes: Seq<u8>) -> Seq<Seq<u8>>
    decreases bytes.len(),
{
    let end = first_line_end(bytes);
    if 0 <= end && end + 2 <= bytes.len() {
        seq![bytes.take(end)] + header_lines(bytes.skip(end + 2))
    } else {
        seq![bytes]
    }
}

/// The pieces of a byte string, which one byte separates.
pub open spec fn pieces(bytes: Seq<u8>, separator: u8) -> Seq<Seq<u8>>
    decreases bytes.len(),
{
    let end = bytes::first_index(bytes, separator);
    if 0 <= end < bytes.len() {
        seq![bytes.take(end)] + pieces(bytes.skip(end + 1), separator)
    } else {
        seq![bytes]
    }
}

/// What the header lines read so far have declared.
pub struct HeaderFields {
    /// The declared body length.
    pub content_length: Option<usize>,
    /// Whether a content type was declared.
    pub saw_content_type: bool,
}

/// The body length that a `Content-Length` value declares.
pub open spec fn content_length_of(value: Seq<u8>) -> Result<usize, JsonRpcError> {
    if value.len() == 0 || !bytes::all_digits(value) {
        Err(JsonRpcError::InvalidContentLength)
    } else if bytes::digits_value(value) > usize::MAX {
        Err(JsonRpcError::ContentLengthOverflow)
    } else {
        Ok(bytes::digits_value(value) as usize)
    }
}

/// Whether one `Content-Type` parameter is a supported `charset`.
pub open spec fn is_utf8_charset(parameter: Seq<u8>) -> bool {
    let inner = bytes::trimmed(parameter);
    let equals = bytes::first_index(inner, 61);
    let value = bytes::trimmed(inner.skip(equals + 1));
    &&& equals < inner.len()
    &&& bytes::spells(bytes::trimmed(inner.take(equals)), "charset"@)
    &&& bytes::spells(value, "utf-8"@) || bytes::spells(value, "utf8"@)
}

/// Whether a `Content-Type` value is the LSP media type with at most one
/// parameter, a UTF-8 `charset`.
pub open spec fn is_supported_content_type(value: Seq<u8>) -> bool {
    let parts = pieces(value, 59);
    &&& bytes::spells(bytes::trimmed(parts[0]), "application/vscode-jsonrpc"@)
    &&& parts.len() <= 2
    &&& parts.len() == 2 ==> is_utf8_charset(parts[1])
}

/// Whether a header line is a name, a colon, and a printable value.
pub open spec fn is_field_line(line: Seq<u8>) -> bool {
    let colon = bytes::first_index(line, 58);
    let value = bytes::trimmed(line.skip(colon + 1));
    &&& forall|i: int| 0 <= i < line.len() ==> #[trigger] line[i] != 13 && line[i] != 10
    &&& 0 < colon < line.len()
    &&& forall|i: int| 0 <= i < colon ==> is_token(#[trigger] line[i])
    &&& forall|i: int| 0 <= i < value.len() ==> is_field_byte(#[trigger] value[i])
}

/// What one more header line does to the fields read so far.
pub open spec fn read_line(line: Seq<u8>, fields: HeaderFields) -> Result<
    HeaderFields,
    JsonRpcError,
> {
    let colon = bytes::first_index(line, 58);
    let name = line.take(colon);
    let value = bytes::trimmed(line.skip(colon + 1));
    if !is_field_line(line) {
        Err(JsonRpcError::MalformedHeader)
    } else if bytes::spells(name, "Content-Length"@) {
        if fields.content_length is Some {
            Err(JsonRpcError::DuplicateContentLength)
        } else {
            match content_length_of(value) {
                Ok(length) => Ok(HeaderFields { content_length: Some(length), ..fields }),
                Err(error) => Err(error),
            }
        }
    } else if bytes::spells(name, "Content-Type"@) {
        if fields.saw_content_type {
            Err(JsonRpcError::DuplicateContentType)
        } else if !is_supported_content_type(value) {
            Err(JsonRpcError::UnsupportedContentType)
        } else {
            Ok(HeaderFields { saw_content_type: true, ..fields })
        }
    } else {
        Ok(fields)
    }
}

/// What a sequence of header lines does to the fields read so far; the first
/// refused line decides.
pub open spec fn read_lines(lines: Seq<Seq<u8>>, fields: HeaderFields) -> Result<
    HeaderFields,
    JsonRpcError,
>
    decreases lines.len(),
{
    if lines.len() == 0 {
        Ok(fields)
    } else {
        match read_line(lines[0], fields) {
            Ok(next) => read_lines(lines.drop_first(), next),
            Err(error) => Err(error),
        }
    }
}

/// The fields of a header before its first line.
pub open spec fn no_fields() -> HeaderFields {
    HeaderFields { content_length: None, saw_content_type: false }
}

/// Whether bytes end with the blank line that closes a header.
pub open spec fn ends_header(bytes: Seq<u8>) -> bool {
    &&& bytes.len() >= 4
    &&& bytes[bytes.len() - 4] == 13
    &&& bytes[bytes.len() - 3] == 10
    &&& bytes[bytes.len() - 2] == 13
    &&& bytes[bytes.len() - 1] == 10
}

/// The body length that a complete header declares.
pub open spec fn header_length(header: Seq<u8>) -> Result<usize, JsonRpcError> {
    if !ends_header(header) {
        Err(JsonRpcError::MalformedHeader)
    } else if !vstd::utf8::valid_utf8(header.take(header.len() - 4)) {
        Err(JsonRpcError::NonAsciiHeader)
    } else {
        match read_lines(header_lines(header.take(header.len() - 4)), no_fields()) {
            Ok(fields) => match fields.content_length {
                Some(length) => Ok(length),
                None => Err(JsonRpcError::MissingContentLength),
            },
            Err(error) => Err(error),
        }
    }
}

/// Returns whether a byte may occur in a header name.
pub fn is_header_name_byte(byte: u8) -> (token: bool)
    ensures
        token == is_token(byte),
{
    (48 <= byte && byte <= 57) || (65 <= byte && byte <= 90) || (97 <= byte && byte <= 122) || byte
        == 33 || (35 <= byte && byte <= 39) || byte == 42 || byte == 43 || byte == 45 || byte == 46
        || byte == 94 || byte == 95 || byte == 96 || byte == 124 || byte == 126
}

/// Parses the value of a `Content-Length` header.
pub fn parse_content_length(value: &[u8]) -> (length: Result<usize, JsonRpcError>)
    ensures
        length == content_length_of(value@),
{
    if value.len() == 0 {
        return Err(JsonRpcError::InvalidContentLength);
    }
    let mut index: usize = 0;
    while index < value.len()
        invariant
            index <= value@.len(),
            forall|i: int| 0 <= i < index ==> 48 <= #[trigger] value@[i] <= 57,
        decreases value@.len() - index,
    {
        if value[index] < 48 || value[index] > 57 {
            return Err(JsonRpcError::InvalidContentLength);
        }
        index = index + 1;
    }
    let mut length: usize = 0;
    let mut position: usize = 0;
    assert(value@.take(0) =~= Seq::<u8>::empty());
    while position < value.len()
        invariant
            position <= value@.len(),
            value@.len() > 0,
            bytes::all_digits(value@),
            length == bytes::digits_value(value@.take(position as int)),
        decreases value@.len() - position,
    {
        let digit: usize = (value[position] - 48) as usize;
        proof {
            let next = value@.take(position + 1);
            assert(next.drop_last() =~= value@.take(position as int));
            bytes::lemma_digits_value_grows(value@, position + 1);
        }
        let shifted: usize = match length.checked_mul(10) {
            Some(shifted) => shifted,
            None => return Err(JsonRpcError::ContentLengthOverflow),
        };
        length =
        match shifted.checked_add(digit) {
            Some(next) => next,
            None => return Err(JsonRpcError::ContentLengthOverflow),
        };
        position = position + 1;
    }
    assert(value@.take(position as int) =~= value@);
    Ok(length)
}

/// Returns whether one `Content-Type` parameter is a supported `charset`.
fn charset_is_utf8(parameter: &[u8]) -> (supported: bool)
    ensures
        supported == is_utf8_charset(parameter@),
{
    let inner: &[u8] = trim_ascii_whitespace(parameter);
    let equals: usize = find_byte(inner, 61);
    if equals >= inner.len() {
        return false;
    }
    let name: &[u8] = trim_ascii_whitespace(slice_subrange(inner, 0, equals));
    let value: &[u8] = trim_ascii_whitespace(slice_subrange(inner, equals + 1, inner.len()));
    assert(inner@.take(equals as int) =~= inner@.subrange(0, equals as int));
    assert(inner@.skip(equals + 1) =~= inner@.subrange(equals + 1, inner@.len() as int));
    equals_ignoring_case(name, "charset") && (equals_ignoring_case(value, "utf-8")
        || equals_ignoring_case(value, "utf8"))
}

/// Refuses a `Content-Type` value other than the LSP media type in UTF-8.
pub fn validate_content_type(value: &[u8]) -> (valid: Result<(), JsonRpcError>)
    ensures
        valid == (if is_supported_content_type(value@) {
            Ok::<(), JsonRpcError>(())
        } else {
            Err(JsonRpcError::UnsupportedContentType)
        }),
{
    let end: usize = find_byte(value, 59);
    proof {
        bytes::lemma_first_index_bounds(value@, 59);
    }
    let media_type: &[u8] = slice_subrange(value, 0, end);
    assert(value@.take(end as int) =~= value@.subrange(0, end as int));
    if !equals_ignoring_case(trim_ascii_whitespace(media_type), "application/vscode-jsonrpc") {
        assert(end == value@.len() ==> value@.take(end as int) =~= value@);
        return Err(JsonRpcError::UnsupportedContentType);
    }
    if end == value.len() {
        assert(value@.take(end as int) =~= value@);
        return Ok(());
    }
    let rest: &[u8] = slice_subrange(value, end + 1, value.len());
    assert(value@.skip(end + 1) =~= rest@);
    let next: usize = find_byte(rest, 59);
    proof {
        bytes::lemma_first_index_bounds(rest@, 59);
        assert(pieces(value@, 59) == seq![value@.take(end as int)] + pieces(rest@, 59));
        assert(pieces(rest@, 59).len() >= 1);
    }
    if next < rest.len() {
        proof {
            let tail = pieces(rest@.skip(next + 1), 59);
            assert(pieces(rest@, 59) == seq![rest@.take(next as int)] + tail);
            assert(tail.len() >= 1);
        }
        return Err(JsonRpcError::UnsupportedContentType);
    }
    assert(pieces(value@, 59)[1] == rest@);
    if charset_is_utf8(rest) {
        Ok(())
    } else {
        Err(JsonRpcError::UnsupportedContentType)
    }
}

/// Reads one header line into the fields read so far.
fn read_header_line(line: &[u8], fields: HeaderFields) -> (next: Result<HeaderFields, JsonRpcError>)
    ensures
        next == read_line(line@, fields),
{
    let mut index: usize = 0;
    while index < line.len()
        invariant
            index <= line@.len(),
            forall|i: int| 0 <= i < index ==> #[trigger] line@[i] != 13 && line@[i] != 10,
        decreases line@.len() - index,
    {
        if line[index] == 13 || line[index] == 10 {
            return Err(JsonRpcError::MalformedHeader);
        }
        index = index + 1;
    }
    let colon: usize = find_byte(line, 58);
    if colon == 0 || colon >= line.len() {
        return Err(JsonRpcError::MalformedHeader);
    }
    let name: &[u8] = slice_subrange(line, 0, colon);
    let value: &[u8] = trim_ascii_whitespace(slice_subrange(line, colon + 1, line.len()));
    assert(line@.take(colon as int) =~= name@);
    assert(line@.skip(colon + 1) =~= line@.subrange(colon + 1, line@.len() as int));
    let mut position: usize = 0;
    while position < name.len()
        invariant
            position <= name@.len(),
            colon == name@.len(),
            name@ == line@.subrange(0, colon as int),
            0 < colon < line@.len(),
            colon == bytes::first_index(line@, 58),
            forall|i: int| 0 <= i < position ==> is_token(#[trigger] line@[i]),
        decreases name@.len() - position,
    {
        assert(name@[position as int] == line@[position as int]);
        if !is_header_name_byte(name[position]) {
            return Err(JsonRpcError::MalformedHeader);
        }
        position = position + 1;
    }
    let mut cursor: usize = 0;
    while cursor < value.len()
        invariant
            cursor <= value@.len(),
            colon == bytes::first_index(line@, 58),
            value@ == bytes::trimmed(line@.skip(colon + 1)),
            forall|i: int| 0 <= i < cursor ==> is_field_byte(#[trigger] value@[i]),
        decreases value@.len() - cursor,
    {
        if value[cursor] != 9 && (value[cursor] < 32 || value[cursor] > 126) {
            return Err(JsonRpcError::MalformedHeader);
        }
        cursor = cursor + 1;
    }
    if equals_ignoring_case(name, "Content-Length") {
        if fields.content_length.is_some() {
            return Err(JsonRpcError::DuplicateContentLength);
        }
        match parse_content_length(value) {
            Ok(length) => Ok(
                HeaderFields {
                    content_length: Some(length),
                    saw_content_type: fields.saw_content_type,
                },
            ),
            Err(error) => Err(error),
        }
    } else if equals_ignoring_case(name, "Content-Type") {
        if fields.saw_content_type {
            return Err(JsonRpcError::DuplicateContentType);
        }
        match validate_content_type(value) {
            Ok(()) => Ok(
                HeaderFields { content_length: fields.content_length, saw_content_type: true },
            ),
            Err(error) => Err(error),
        }
    } else {
        Ok(fields)
    }
}

/// `first_line_end` is the first CR LF pair.
proof fn lemma_first_line_end(bytes: Seq<u8>, index: int)
    requires
        0 <= index <= bytes.len(),
        forall|i: int|
            0 <= i < index ==> !(#[trigger] bytes[i] == 13 && i + 1 < bytes.len() && bytes[i + 1]
                == 10),
        index < bytes.len() ==> index + 1 < bytes.len() && bytes[index] == 13 && bytes[index + 1]
            == 10,
    ensures
        first_line_end(bytes) == index,
    decreases bytes.len(),
{
    if bytes.len() > 0 && index > 0 {
        let rest = bytes.drop_first();
        assert(!(bytes[0] == 13 && 1 < bytes.len() && bytes[1] == 10));
        assert forall|i: int| 0 <= i < index - 1 implies !(#[trigger] rest[i] == 13 && i + 1
            < rest.len() && rest[i + 1] == 10) by {
            assert(rest[i] == bytes[i + 1]);
        }
        lemma_first_line_end(rest, index - 1);
    }
}

/// Returns the index of the first CR LF pair, or the length.
fn find_line_end(bytes: &[u8]) -> (index: usize)
    ensures
        index == first_line_end(bytes@),
        index == bytes@.len() || index + 2 <= bytes@.len(),
{
    let mut index: usize = 0;
    while index < bytes.len()
        invariant
            index <= bytes@.len(),
            forall|i: int|
                0 <= i < index ==> !(#[trigger] bytes@[i] == 13 && i + 1 < bytes@.len() && bytes@[i
                    + 1] == 10),
        decreases bytes@.len() - index,
    {
        if bytes[index] == 13 && index + 1 < bytes.len() && bytes[index + 1] == 10 {
            proof {
                lemma_first_line_end(bytes@, index as int);
            }
            return index;
        }
        index = index + 1;
    }
    proof {
        lemma_first_line_end(bytes@, index as int);
    }
    index
}

/// Parses a complete header, terminator included, to the body length it declares.
pub(crate) fn parse_header(header: &[u8]) -> (length: Result<usize, JsonRpcError>)
    ensures
        length == header_length(header@),
{
    let total: usize = header.len();
    if total < 4 || header[total - 4] != 13 || header[total - 3] != 10 || header[total - 2] != 13
        || header[total - 1] != 10 {
        return Err(JsonRpcError::MalformedHeader);
    }
    let mut rest: &[u8] = slice_subrange(header, 0, total - 4);
    assert(rest@ =~= header@.take(total - 4));
    let mut payload: Vec<u8> = Vec::new();
    payload.extend_from_slice(rest);
    assert(payload@ =~= rest@);
    if text_from_utf8(payload).is_none() {
        return Err(JsonRpcError::NonAsciiHeader);
    }
    let mut fields = HeaderFields { content_length: None, saw_content_type: false };
    let ghost expected = read_lines(header_lines(rest@), no_fields());
    loop
        invariant
            total == header@.len(),
            ends_header(header@),
            vstd::utf8::valid_utf8(header@.take(total - 4)),
            expected == read_lines(header_lines(header@.take(total - 4)), no_fields()),
            expected == read_lines(header_lines(rest@), fields),
        decreases rest@.len(),
    {
        let end: usize = find_line_end(rest);
        let line: &[u8] = slice_subrange(rest, 0, end);
        proof {
            assert(line@ =~= rest@.take(end as int));
            assert(end == rest@.len() ==> line@ =~= rest@);
            assert(header_lines(rest@)[0] == line@);
        }
        fields =
        match read_header_line(line, fields) {
            Ok(next) => next,
            Err(error) => return Err(error),
        };
        if end == rest.len() {
            proof {
                let none = Seq::<Seq<u8>>::empty();
                assert(header_lines(rest@).drop_first() =~= none);
                assert(read_lines(none, fields) == Ok::<HeaderFields, JsonRpcError>(fields));
            }
            return match fields.content_length {
                Some(length) => Ok(length),
                None => Err(JsonRpcError::MissingContentLength),
            };
        }
        let after: &[u8] = slice_subrange(rest, end + 2, rest.len());
        proof {
            assert(after@ =~= rest@.skip(end + 2));
            assert(header_lines(rest@).drop_first() =~= header_lines(after@));
        }
        rest = after;
    }
}

/// The progress of a frame decoder.
#[verifier::ext_equal]
pub enum FrameState {
    /// Inside a header, after these bytes of it.
    Header(Seq<u8>),
    /// Inside a body of `expected` bytes, after these bytes of it.
    Body { bytes: Seq<u8>, expected: nat },
}

/// The state between two frames.
pub open spec fn between_frames() -> FrameState {
    FrameState::Header(Seq::empty())
}

/// Whether a state can occur under the limits: buffered bytes stay within the
/// header bound and below the declared, bounded body length.
pub open spec fn is_reachable(limits: FramingLimits, state: FrameState) -> bool {
    match state {
        FrameState::Header(header) => header.len() <= limits.max_header_bytes,
        FrameState::Body { bytes, expected } => bytes.len() < expected
            <= limits.max_inbound_body_bytes,
    }
}

/// What one more input byte does: the next state, with the body it completes,
/// or the error that ends decoding.
pub open spec fn frame_step(limits: FramingLimits, state: FrameState, byte: u8) -> Result<
    (FrameState, Option<Seq<u8>>),
    JsonRpcError,
> {
    match state {
        FrameState::Header(header) => {
            let next = header.push(byte);
            if header.len() == limits.max_header_bytes {
                Err(JsonRpcError::HeaderTooLarge { limit: limits.max_header_bytes })
            } else if byte >= 128 {
                Err(JsonRpcError::NonAsciiHeader)
            } else if ends_header(next) {
                match header_length(next) {
                    Err(error) => Err(error),
                    Ok(length) => if length > limits.max_inbound_body_bytes {
                        Err(
                            JsonRpcError::InboundBodyTooLarge {
                                length,
                                limit: limits.max_inbound_body_bytes,
                            },
                        )
                    } else if length == 0 {
                        Ok((between_frames(), Some(Seq::empty())))
                    } else {
                        Ok((FrameState::Body { bytes: Seq::empty(), expected: length as nat }, None))
                    },
                }
            } else if next.len() == limits.max_header_bytes {
                Err(JsonRpcError::HeaderTooLarge { limit: limits.max_header_bytes })
            } else {
                Ok((FrameState::Header(next), None))
            }
        },
        FrameState::Body { bytes, expected } => {
            let next = bytes.push(byte);
            if next.len() == expected {
                Ok((between_frames(), Some(next)))
            } else {
                Ok((FrameState::Body { bytes: next, expected }, None))
            }
        },
    }
}

/// The state after one more input byte, whether or not it is refused. A refused
/// header keeps the byte that completes or fills it.
pub open spec fn stepped(limits: FramingLimits, state: FrameState, byte: u8) -> FrameState {
    match (frame_step(limits, state, byte), state) {
        (Ok((next, _)), _) => next,
        (Err(_), FrameState::Header(header)) => if header.len() == limits.max_header_bytes || byte
            >= 128 {
            state
        } else {
            FrameState::Header(header.push(byte))
        },
        (Err(_), FrameState::Body { .. }) => state,
    }
}

/// The bodies that one step completes.
pub open spec fn completed_by(body: Option<Seq<u8>>) -> Seq<Seq<u8>> {
    match body {
        Some(body) => seq![body],
        None => Seq::empty(),
    }
}

/// What a string of input bytes does: the final state, with every body it
/// completes in order, or the first error.
pub open spec fn decode_frames(limits: FramingLimits, state: FrameState, input: Seq<u8>) -> Result<
    (FrameState, Seq<Seq<u8>>),
    JsonRpcError,
>
    decreases input.len(),
{
    if input.len() == 0 {
        Ok((state, Seq::empty()))
    } else {
        match frame_step(limits, state, input[0]) {
            Err(error) => Err(error),
            Ok((next, body)) => match decode_frames(limits, next, input.drop_first()) {
                Err(error) => Err(error),
                Ok((last, bodies)) => Ok((last, completed_by(body) + bodies)),
            },
        }
    }
}

/// The state after a string of input bytes, of which those behind the first
/// error are not taken in.
pub open spec fn state_after(limits: FramingLimits, state: FrameState, input: Seq<u8>) -> FrameState
    decreases input.len(),
{
    if input.len() == 0 {
        state
    } else if frame_step(limits, state, input[0]) is Err {
        stepped(limits, state, input[0])
    } else {
        state_after(limits, stepped(limits, state, input[0]), input.drop_first())
    }
}

/// The error that EOF causes in a state, if any.
pub open spec fn eof_outcome(state: FrameState) -> Result<(), JsonRpcError> {
    match state {
        FrameState::Header(header) => if header.len() == 0 {
            Ok(())
        } else {
            Err(JsonRpcError::UnexpectedEof { section: FrameSection::Header })
        },
        FrameState::Body { .. } => Err(JsonRpcError::UnexpectedEof { section: FrameSection::Body }),
    }
}

/// The first body of a stream with the count of bytes up to its end, nothing
/// for a stream that ends between frames, or the error that stops reading.
pub open spec fn first_frame(limits: FramingLimits, state: FrameState, stream: Seq<u8>) -> Result<
    Option<(Seq<u8>, nat)>,
    JsonRpcError,
>
    decreases stream.len(),
{
    if stream.len() == 0 {
        match eof_outcome(state) {
            Ok(()) => Ok(None),
            Err(error) => Err(error),
        }
    } else {
        match frame_step(limits, state, stream[0]) {
            Err(error) => Err(error),
            Ok((_, Some(body))) => Ok(Some((body, 1))),
            Ok((next, None)) => match first_frame(limits, next, stream.drop_first()) {
                Ok(Some((body, count))) => Ok(Some((body, count + 1))),
                other => other,
            },
        }
    }
}

/// Incrementally decodes bounded LSP frames from arbitrary byte chunks.
///
/// The decoder never waits for additional input. Callers can therefore read
/// stdout using their own poll, channel, or deadline mechanism, pass each
/// available chunk to [`FrameDecoder::push`], and call [`FrameDecoder::finish`]
/// at EOF.
#[derive(Debug)]
pub struct FrameDecoder {
    limits: FramingLimits,
    header: Vec<u8>,
    body: Vec<u8>,
    expected: usize,
}

impl View for FrameDecoder {
    type V = FrameState;

    closed spec fn view(&self) -> FrameState {
        if self.expected == 0 {
            FrameState::Header(self.header@)
        } else {
            FrameState::Body { bytes: self.body@, expected: self.expected as nat }
        }
    }
}

impl FrameDecoder {
    /// The limits of this decoder.
    pub closed spec fn framing_limits(&self) -> FramingLimits {
        self.limits
    }

    /// Whether the buffered bytes are those of one reachable state.
    pub closed spec fn wf(&self) -> bool {
        &&& is_reachable(self.limits, self@)
        &&& self.expected == 0 ==> self.body@.len() == 0
        &&& self.expected > 0 ==> self.header@.len() == 0
    }

    /// Whatever bytes a decoder has taken in, it holds back at most a header
    /// within the header limit or a body within the body limit.
    pub proof fn law_decoders_buffer_within_limits(&self)
        requires
            self.wf(),
        ensures
            is_reachable(self.framing_limits(), self@),
            match self@ {
                FrameState::Header(header) => header.len() <= self.framing_limits().max_header_bytes,
                FrameState::Body { bytes, .. } => bytes.len()
                    < self.framing_limits().max_inbound_body_bytes,
            },
    {
    }

    /// Creates an empty decoder with the supplied directional limits.
    pub fn new(limits: FramingLimits) -> (decoder: Self)
        ensures
            decoder.wf(),
            decoder.framing_limits() == limits,
            decoder@ == between_frames(),
    {
        let decoder = FrameDecoder {
            limits,
            header: Vec::new(),
            body: Vec::new(),
            expected: 0,
        };
        assert(decoder@ =~= between_frames());
        decoder
    }

    /// Reports whether a frame has been partially decoded and awaits more input.
    ///
    /// This is `false` between frames: a fresh decoder and a decoder that just
    /// completed a body both report `false`.
    pub fn is_mid_frame(&self) -> (mid_frame: bool)
        ensures
            mid_frame == (self@ != between_frames()),
    {
        assert(self.header@.len() == 0 ==> self.header@ =~= Seq::<u8>::empty());
        self.expected != 0 || self.header.len() != 0
    }

    /// Consumes one input byte and returns the body that it completes.
    fn accept(&mut self, byte: u8) -> (body: Result<Option<Vec<u8>>, JsonRpcError>)
        requires
            old(self).wf(),
        ensures
            final(self).wf(),
            final(self).framing_limits() == old(self).framing_limits(),
            final(self)@ == stepped(old(self).framing_limits(), old(self)@, byte),
            match frame_step(old(self).framing_limits(), old(self)@, byte) {
                Err(error) => body == Err::<Option<Vec<u8>>, JsonRpcError>(error),
                Ok((_, None)) => body matches Ok(None),
                Ok((_, Some(bytes))) => body matches Ok(Some(completed)) && completed@ == bytes,
            },
    {
        if self.expected == 0 {
            let limit: usize = self.limits.max_header_bytes;
            if self.header.len() == limit {
                return Err(JsonRpcError::HeaderTooLarge { limit });
            }
            if byte >= 128 {
                return Err(JsonRpcError::NonAsciiHeader);
            }
            self.header.push(byte);
            let total: usize = self.header.len();
            if total >= 4 && self.header[total - 4] == 13 && self.header[total - 3] == 10
                && self.header[total - 2] == 13 && self.header[total - 1] == 10 {
                let length: usize = match parse_header(self.header.as_slice()) {
                    Ok(length) => length,
                    Err(error) => return Err(error),
                };
                if length > self.limits.max_inbound_body_bytes {
                    return Err(
                        JsonRpcError::InboundBodyTooLarge {
                            length,
                            limit: self.limits.max_inbound_body_bytes,
                        },
                    );
                }
                self.header.clear();
                self.expected = length;
                assert(self.body@ =~= Seq::<u8>::empty());
                if length == 0 {
                    return Ok(Some(Vec::new()));
                }
                return Ok(None);
            }
            if total == limit {
                return Err(JsonRpcError::HeaderTooLarge { limit });
            }
            Ok(None)
        } else {
            self.body.push(byte);
            if self.body.len() == self.expected {
                let mut completed: Vec<u8> = Vec::new();
                std::mem::swap(&mut completed, &mut self.body);
                self.expected = 0;
                assert(self.header@ =~= Seq::<u8>::empty());
                Ok(Some(completed))
            } else {
                Ok(None)
            }
        }
    }

    /// Consumes an available input chunk and returns every completed body.
    ///
    /// An empty body is a completed frame. Empty input is a no-op. After any
    /// returned error, the caller must discard the decoder and enter cleanup.
    pub fn push(&mut self, chunk: &[u8]) -> (bodies: Result<Vec<Vec<u8>>, JsonRpcError>)
        requires
            old(self).wf(),
        ensures
            final(self).wf(),
            final(self).framing_limits() == old(self).framing_limits(),
            final(self)@ == state_after(old(self).framing_limits(), old(self)@, chunk@),
            match decode_frames(old(self).framing_limits(), old(self)@, chunk@) {
                Err(error) => bodies == Err::<Vec<Vec<u8>>, JsonRpcError>(error),
                Ok((state, completed)) => {
                    &&& bodies matches Ok(bodies)
                    &&& bodies_view(bodies@) == completed
                    &&& final(self)@ == state
                },
            },
    {
        let ghost limits = self.framing_limits();
        let ghost start = self@;
        let mut completed: Vec<Vec<u8>> = Vec::new();
        let mut index: usize = 0;
        assert(bodies_view(completed@) =~= Seq::empty());
        assert(chunk@.skip(0) =~= chunk@);
        proof {
            lemma_prepend_nothing(limits, start, chunk@);
        }
        while index < chunk.len()
            invariant
                index <= chunk@.len(),
                limits == old(self).framing_limits(),
                start == old(self)@,
                self.wf(),
                self.framing_limits() == limits,
                state_after(limits, start, chunk@) == state_after(
                    limits,
                    self@,
                    chunk@.skip(index as int),
                ),
                decode_frames(limits, start, chunk@) == prepended(
                    bodies_view(completed@),
                    decode_frames(limits, self@, chunk@.skip(index as int)),
                ),
            decreases chunk@.len() - index,
        {
            let ghost before = self@;
            let ghost done = bodies_view(completed@);
            let ghost rest = chunk@.skip(index as int);
            assert(rest.drop_first() =~= chunk@.skip(index + 1));
            let outcome = self.accept(chunk[index]);
            match outcome {
                Err(error) => {
                    return Err(error);
                },
                Ok(Some(body)) => {
                    let ghost bytes = body@;
                    completed.push(body);
                    proof {
                        assert(bodies_view(completed@) =~= done.push(bytes));
                        lemma_prepended_step(
                            done,
                            Some(bytes),
                            decode_frames(limits, self@, chunk@.skip(index + 1)),
                        );
                        assert(done + completed_by(Some(bytes)) =~= done.push(bytes));
                    }
                },
                Ok(None) => {
                    proof {
                        lemma_prepended_step(
                            done,
                            None,
                            decode_frames(limits, self@, chunk@.skip(index + 1)),
                        );
                        assert(done + completed_by(None) =~= done);
                    }
                },
            }
            index = index + 1;
        }
        proof {
            assert(chunk@.skip(index as int) =~= Seq::<u8>::empty());
            assert(bodies_view(completed@) + Seq::<Seq<u8>>::empty() =~= bodies_view(completed@));
        }
        Ok(completed)
    }

    /// Validates that EOF occurred between complete frames.
    pub fn finish(self) -> (outcome: Result<(), JsonRpcError>)
        ensures
            outcome == eof_outcome(self@),
            outcome is Ok <==> self@ == between_frames(),
    {
        assert(self.header@.len() == 0 ==> self.header@ =~= Seq::<u8>::empty());
        if self.expected != 0 {
            Err(JsonRpcError::UnexpectedEof { section: FrameSection::Body })
        } else if self.header.len() != 0 {
            Err(JsonRpcError::UnexpectedEof { section: FrameSection::Header })
        } else {
            Ok(())
        }
    }
}

/// The bytes of each body.
pub open spec fn bodies_view(bodies: Seq<Vec<u8>>) -> Seq<Seq<u8>> {
    Seq::new(bodies.len(), |i: int| bodies[i]@)
}

/// A decoding outcome after bodies that were completed earlier.
spec fn prepended(
    earlier: Seq<Seq<u8>>,
    outcome: Result<(FrameState, Seq<Seq<u8>>), JsonRpcError>,
) -> Result<(FrameState, Seq<Seq<u8>>), JsonRpcError> {
    match outcome {
        Err(error) => Err(error),
        Ok((state, bodies)) => Ok((state, earlier + bodies)),
    }
}

proof fn lemma_prepend_nothing(limits: FramingLimits, state: FrameState, input: Seq<u8>)
    ensures
        decode_frames(limits, state, input) == prepended(
            Seq::empty(),
            decode_frames(limits, state, input),
        ),
{
    match decode_frames(limits, state, input) {
        Ok((_, bodies)) => {
            assert(Seq::<Seq<u8>>::empty() + bodies =~= bodies);
        },
        Err(_) => {},
    }
}

proof fn lemma_prepended_step(
    earlier: Seq<Seq<u8>>,
    body: Option<Seq<u8>>,
    rest: Result<(FrameState, Seq<Seq<u8>>), JsonRpcError>,
)
    ensures
        prepended(earlier, prepended(completed_by(body), rest)) == prepended(
            earlier + completed_by(body),
            rest,
        ),
{
    match rest {
        Ok((_, bodies)) => {
            assert(earlier + (completed_by(body) + bodies) =~= (earlier + completed_by(body))
                + bodies);
        },
        Err(_) => {},
    }
}

/// Decoding does not depend on how the input is cut into chunks: decoding two
/// chunks in turn is decoding their concatenation.
pub proof fn law_chunks_concatenate(
    limits: FramingLimits,
    state: FrameState,
    first: Seq<u8>,
    second: Seq<u8>,
)
    ensures
        decode_frames(limits, state, first + second) == match decode_frames(limits, state, first) {
            Err(error) => Err::<(FrameState, Seq<Seq<u8>>), JsonRpcError>(error),
            Ok((middle, earlier)) => match decode_frames(limits, middle, second) {
                Err(error) => Err(error),
                Ok((last, later)) => Ok((last, earlier + later)),
            },
        },
    decreases first.len(),
{
    if first.len() == 0 {
        assert(first + second =~= second);
        lemma_prepend_nothing(limits, state, second);
    } else {
        assert((first + second).drop_first() =~= first.drop_first() + second);
        assert((first + second)[0] == first[0]);
        match frame_step(limits, state, first[0]) {
            Err(_) => {},
            Ok((next, body)) => {
                law_chunks_concatenate(limits, next, first.drop_first(), second);
                match decode_frames(limits, next, first.drop_first()) {
                    Err(_) => {},
                    Ok((middle, earlier)) => {
                        match decode_frames(limits, middle, second) {
                            Err(_) => {},
                            Ok((_, later)) => {
                                assert(completed_by(body) + (earlier + later) =~= (completed_by(
                                    body,
                                ) + earlier) + later);
                            },
                        }
                    },
                }
            },
        }
    }
}

/// Whether an input, taken in between frames, completes exactly one body.
pub open spec fn completes_one(limits: FramingLimits, input: Seq<u8>) -> bool {
    decode_frames(limits, between_frames(), input) matches Ok((_, bodies)) && bodies.len() == 1
}

/// Whether the first `count` bytes of a stream are its shortest prefix that
/// completes a body, and complete this one.
pub open spec fn is_first_body(
    limits: FramingLimits,
    stream: Seq<u8>,
    body: Seq<u8>,
    count: nat,
) -> bool {
    &&& count <= stream.len()
    &&& decode_frames(limits, between_frames(), stream.take(count as int)) matches Ok((_, bodies))
        && bodies == seq![body]
    &&& forall|shorter: int|
        0 <= shorter < count ==> !completes_one(limits, #[trigger] stream.take(shorter))
}

/// Whether no prefix of a stream completes a body.
pub open spec fn completes_none(limits: FramingLimits, stream: Seq<u8>) -> bool {
    forall|count: int|
        0 <= count <= stream.len() ==> !completes_one(limits, #[trigger] stream.take(count))
}

/// Reading one body agrees with decoding the stream: it finds the body of the
/// shortest prefix that completes one, nothing in an empty stream, the missing
/// section of a stream that ends inside its first frame, and otherwise the
/// error that decoding gives.
pub proof fn law_reading_agrees_with_decoding(limits: FramingLimits, stream: Seq<u8>)
    ensures
        first_frame(limits, between_frames(), stream) matches Ok(None) <==> stream.len() == 0,
        forall|body: Seq<u8>, count: nat|
            first_frame(limits, between_frames(), stream) == Ok::<
                Option<(Seq<u8>, nat)>,
                JsonRpcError,
            >(Some((body, count))) <==> #[trigger] is_first_body(limits, stream, body, count),
        forall|section: FrameSection|
            first_frame(limits, between_frames(), stream) == Err::<
                Option<(Seq<u8>, nat)>,
                JsonRpcError,
            >(#[trigger] missing(section)) <==> {
                &&& stream.len() > 0
                &&& decode_frames(limits, between_frames(), stream) matches Ok((state, bodies))
                &&& bodies.len() == 0
                &&& eof_outcome(state) == Err::<(), JsonRpcError>(missing(section))
            },
        forall|error: JsonRpcError|
            !(error is UnexpectedEof) ==> (#[trigger] refuses_with(limits, stream, error) <==> {
                &&& decode_frames(limits, between_frames(), stream) == Err::<
                    (FrameState, Seq<Seq<u8>>),
                    JsonRpcError,
                >(error)
                &&& completes_none(limits, stream)
            }),
{
    let start = between_frames();
    lemma_first_frame(limits, start, stream);
    let found = first_frame(limits, start, stream);
    let decoded = decode_frames(limits, start, stream);
    assert(stream.take(stream.len() as int) =~= stream);
    if stream.len() > 0 {
        lemma_progress_leaves_the_start(limits, start, stream);
    }
    assert forall|count: int|
        0 <= count <= stream.len() && decoded is Ok && decoded->Ok_0.1.len() == 0 implies decode_frames(
        limits,
        start,
        #[trigger] stream.take(count),
    ) matches Ok((_, bodies)) && bodies.len() == 0 by {
        assert(stream.take(count) + stream.skip(count) =~= stream);
        law_chunks_concatenate(limits, start, stream.take(count), stream.skip(count));
    }
    assert forall|body: Seq<u8>, count: nat| #[trigger]
        is_first_body(limits, stream, body, count) implies found == Ok::<
        Option<(Seq<u8>, nat)>,
        JsonRpcError,
    >(Some((body, count))) by {
        let prefix = stream.take(count as int);
        match found {
            Ok(Some((other, end))) => {
                let whole = stream.take(end as int);
                assert(completes_one(limits, whole));
                assert(!(end < count));
                assert(!(count < end));
                assert(seq![body][0] == body && seq![other][0] == other);
            },
            _ => {
                assert(completes_one(limits, prefix));
            },
        }
    }
    assert forall|body: Seq<u8>, count: nat|
        found == Ok::<Option<(Seq<u8>, nat)>, JsonRpcError>(Some((body, count))) implies
        #[trigger] is_first_body(limits, stream, body, count) by {}
}

/// The error for a stream that ends inside a section.
pub open spec fn missing(section: FrameSection) -> JsonRpcError {
    JsonRpcError::UnexpectedEof { section }
}

/// Whether reading one body of a stream gives this error.
pub open spec fn refuses_with(limits: FramingLimits, stream: Seq<u8>, error: JsonRpcError) -> bool {
    first_frame(limits, between_frames(), stream) == Err::<
        Option<(Seq<u8>, nat)>,
        JsonRpcError,
    >(error)
}

/// Decoding errors are not about the end of the input.
proof fn lemma_step_errors(limits: FramingLimits, state: FrameState, byte: u8)
    ensures
        frame_step(limits, state, byte) matches Err(error) ==> !(error is UnexpectedEof),
{
    if let FrameState::Header(header) = state {
        let payload = header.push(byte).take(header.push(byte).len() - 4);
        lemma_line_errors(header_lines(payload), no_fields());
    }
}

proof fn lemma_line_errors(lines: Seq<Seq<u8>>, fields: HeaderFields)
    ensures
        read_lines(lines, fields) matches Err(error) ==> !(error is UnexpectedEof),
    decreases lines.len(),
{
    if lines.len() > 0 {
        if let Ok(next) = read_line(lines[0], fields) {
            lemma_line_errors(lines.drop_first(), next);
        }
    }
}

/// Input that completes no body leaves the decoder inside a frame.
proof fn lemma_progress_leaves_the_start(limits: FramingLimits, state: FrameState, input: Seq<u8>)
    requires
        input.len() > 0,
    ensures
        decode_frames(limits, state, input) matches Ok((last, bodies)) ==> bodies.len() > 0
            || eof_outcome(last) is Err,
    decreases input.len(),
{
    if let Ok((next, body)) = frame_step(limits, state, input[0]) {
        if input.len() > 1 {
            lemma_progress_leaves_the_start(limits, next, input.drop_first());
        } else {
            assert(input.drop_first().len() == 0);
        }
    }
}

/// What the first frame of a stream is, by what its prefixes decode to.
proof fn lemma_first_frame(limits: FramingLimits, state: FrameState, stream: Seq<u8>)
    ensures
        match first_frame(limits, state, stream) {
            Ok(Some((body, count))) => {
                &&& 0 < count <= stream.len()
                &&& decode_frames(limits, state, stream.take(count as int)) == Ok::<
                    (FrameState, Seq<Seq<u8>>),
                    JsonRpcError,
                >((between_frames(), seq![body]))
                &&& forall|shorter: int|
                    0 <= shorter < count ==> (decode_frames(
                        limits,
                        state,
                        #[trigger] stream.take(shorter),
                    ) matches Ok((_, bodies)) && bodies.len() == 0)
            },
            Ok(None) => {
                &&& decode_frames(limits, state, stream) matches Ok((last, bodies))
                &&& bodies.len() == 0
                &&& eof_outcome(last) is Ok
            },
            Err(error) => if error is UnexpectedEof {
                &&& decode_frames(limits, state, stream) matches Ok((last, bodies))
                &&& bodies.len() == 0
                &&& eof_outcome(last) == Err::<(), JsonRpcError>(error)
            } else {
                &&& decode_frames(limits, state, stream) == Err::<
                    (FrameState, Seq<Seq<u8>>),
                    JsonRpcError,
                >(error)
                &&& forall|count: int|
                    0 <= count <= stream.len() ==> (decode_frames(
                        limits,
                        state,
                        #[trigger] stream.take(count),
                    ) matches Ok((_, bodies)) ==> bodies.len() == 0)
            },
        },
    decreases stream.len(),
{
    assert(stream.take(0) =~= Seq::<u8>::empty());
    if stream.len() > 0 {
        let rest = stream.drop_first();
        let step = frame_step(limits, state, stream[0]);
        lemma_step_errors(limits, state, stream[0]);
        assert forall|count: int| 0 < count <= stream.len() implies (#[trigger] stream.take(
            count,
        )).drop_first() == rest.take(count - 1) && stream.take(count)[0] == stream[0] by {
            assert(stream.take(count).drop_first() =~= rest.take(count - 1));
        }
        match step {
            Err(_) => {},
            Ok((next, Some(body))) => {
                assert(rest.take(0) =~= Seq::<u8>::empty());
                assert(stream.take(1).drop_first() == rest.take(0));
                let none = Seq::<Seq<u8>>::empty();
                assert(decode_frames(limits, next, rest.take(0)) == Ok::<
                    (FrameState, Seq<Seq<u8>>),
                    JsonRpcError,
                >((next, none)));
                assert(completed_by(Some(body)) + none =~= seq![body]);
            },
            Ok((next, None)) => {
                lemma_first_frame(limits, next, rest);
                let none = Seq::<Seq<u8>>::empty();
                assert forall|bodies: Seq<Seq<u8>>| #[trigger]
                    (completed_by(None) + bodies) == bodies by {
                    assert(completed_by(None) + bodies =~= bodies);
                }
                if let Ok(Some((body, count))) = first_frame(limits, next, rest) {
                    assert(stream.take(count as int + 1).drop_first() == rest.take(count as int));
                }
            },
        }
    }
}

/// Reads one bounded LSP body from the start of a byte stream without
/// interpreting its JSON contents.
///
/// Returns the body with the count of stream bytes up to its end, or `None`
/// when the stream ends before a frame begins.
pub fn read_body(stream: &[u8], limits: FramingLimits) -> (body: Result<
    Option<(Vec<u8>, usize)>,
    JsonRpcError,
>)
    ensures
        match first_frame(limits, between_frames(), stream@) {
            Err(error) => body == Err::<Option<(Vec<u8>, usize)>, JsonRpcError>(error),
            Ok(None) => body matches Ok(None),
            Ok(Some((bytes, count))) => body matches Ok(Some(read)) && read.0@ == bytes && read.1
                == count,
        },
{
    let mut decoder = FrameDecoder::new(limits);
    let mut index: usize = 0;
    assert(stream@.skip(0) =~= stream@);
    while index < stream.len()
        invariant
            index <= stream@.len(),
            decoder.wf(),
            decoder.framing_limits() == limits,
            first_frame(limits, between_frames(), stream@) == advanced(
                index as nat,
                first_frame(limits, decoder@, stream@.skip(index as int)),
            ),
        decreases stream@.len() - index,
    {
        assert(stream@.skip(index as int).drop_first() =~= stream@.skip(index + 1));
        match decoder.accept(stream[index]) {
            Err(error) => {
                return Err(error);
            },
            Ok(Some(body)) => {
                return Ok(Some((body, index + 1)));
            },
            Ok(None) => {},
        }
        index = index + 1;
    }
    assert(stream@.skip(index as int).len() == 0);
    match decoder.finish() {
        Ok(()) => Ok(None),
        Err(error) => Err(error),
    }
}

/// A first frame found after `count` earlier bytes.
spec fn advanced(
    count: nat,
    frame: Result<Option<(Seq<u8>, nat)>, JsonRpcError>,
) -> Result<Option<(Seq<u8>, nat)>, JsonRpcError> {
    match frame {
        Ok(Some((body, end))) => Ok(Some((body, end + count))),
        other => other,
    }
}

/// The header text that declares a body of `length` bytes.
pub open spec fn header_text(length: nat) -> Seq<char> {
    "Content-Length: "@ + text::decimal(length) + "\r\n\r\n"@
}

/// The frame of a body: its header, then the body.
pub open spec fn frame_of(body: Seq<u8>) -> Seq<u8> {
    text::utf8(header_text(body.len())) + body
}

/// The frame of an outbound body, or the refusal of a body over its bound.
///
/// A body whose frame no byte vector can hold is refused the same way.
pub open spec fn framed(body: Seq<u8>, limits: FramingLimits) -> Result<Seq<u8>, JsonRpcError> {
    if body.len() > limits.max_outbound_body_bytes || frame_of(body).len() > usize::MAX {
        Err(
            JsonRpcError::OutboundBodyTooLarge {
                length: body.len() as usize,
                limit: limits.max_outbound_body_bytes,
            },
        )
    } else {
        Ok(frame_of(body))
    }
}

/// Frames one serialized outbound body after its exact byte-size preflight.
pub fn encode_frame(body: &[u8], limits: FramingLimits) -> (frame: Result<Vec<u8>, JsonRpcError>)
    ensures
        match framed(body@, limits) {
            Ok(bytes) => frame matches Ok(frame) && frame@ == bytes,
            Err(error) => frame == Err::<Vec<u8>, JsonRpcError>(error),
        },
{
    let length: usize = body.len();
    if length > limits.max_outbound_body_bytes {
        return Err(
            JsonRpcError::OutboundBodyTooLarge { length, limit: limits.max_outbound_body_bytes },
        );
    }
    let header: String = text_around_number("Content-Length: ", length as u64, "\r\n\r\n");
    let header_bytes: &[u8] = header.as_str().as_bytes();
    if header_bytes.len().checked_add(length).is_none() {
        return Err(
            JsonRpcError::OutboundBodyTooLarge { length, limit: limits.max_outbound_body_bytes },
        );
    }
    let mut frame: Vec<u8> = Vec::new();
    frame.extend_from_slice(header_bytes);
    frame.extend_from_slice(body);
    assert(frame@ =~= frame_of(body@));
    Ok(frame)
}

/// Decimal spellings are nonempty digit strings.
proof fn lemma_decimal_digits(number: nat)
    ensures
        text::decimal(number).len() > 0,
        forall|i: int|
            0 <= i < text::decimal(number).len() ==> 48 <= #[trigger] text::decimal(
                number,
            )[i] as int <= 57,
    decreases number,
{
    if number >= 10 {
        lemma_decimal_digits(number / 10);
    }
}

/// Reading a decimal spelling gives the number back.
proof fn lemma_decimal_value(number: nat, digits: Seq<u8>)
    requires
        digits.len() == text::decimal(number).len(),
        forall|i: int|
            0 <= i < digits.len() ==> #[trigger] digits[i] == text::decimal(number)[i] as u8,
    ensures
        bytes::digits_value(digits) == number,
    decreases number,
{
    lemma_decimal_digits(number);
    let text = text::decimal(number);
    if number < 10 {
        assert(digits.drop_last() =~= Seq::<u8>::empty());
        assert(bytes::digits_value(digits.drop_last()) == 0);
        assert(digits.last() == (48 + number) as u8);
    } else {
        let shorter = digits.drop_last();
        let prefix = text::decimal(number / 10);
        assert forall|i: int| 0 <= i < shorter.len() implies #[trigger] shorter[i]
            == prefix[i] as u8 by {
            assert(digits[i] == text[i] as u8);
            assert(text[i] == prefix[i]);
        }
        lemma_decimal_value(number / 10, shorter);
        assert(digits.last() == text.last() as u8);
    }
}

/// The header bytes that declare a body: each is ASCII, line breaks occur only
/// in the closing blank line, and the one line before it is the name
/// `Content-Length` and the decimal digits of the body's length.
pub proof fn lemma_header_bytes(length: nat)
    requires
        length <= usize::MAX,
    ensures
        ({
            let header = text::utf8(header_text(length));
            &&& header.len() > 20
            &&& forall|i: int| 0 <= i < header.len() ==> #[trigger] header[i] < 128
            &&& forall|i: int|
                0 <= i < header.len() - 4 ==> #[trigger] header[i] != 13 && header[i] != 10
            &&& ends_header(header)
            &&& header_length(header) == Ok::<usize, JsonRpcError>(length as usize)
        }),
        ({
            let line = text::utf8(header_text(length)).take(
                text::utf8(header_text(length)).len() - 4,
            );
            &&& bytes::first_index(line, 58) == 14
            &&& line.take(14) == text::utf8("Content-Length"@)
            &&& line[15] == 32
            &&& bytes::all_digits(line.skip(16))
            &&& line.len() == 16 + text::decimal(length).len()
            &&& content_length_of(line.skip(16)) == Ok::<usize, JsonRpcError>(length as usize)
        }),
{
    let text = header_text(length);
    let header = text::utf8(text);
    let digits = text::decimal(length);
    lemma_decimal_digits(length);
    reveal_strlit("Content-Length: ");
    reveal_strlit("\r\n\r\n");
    assert(text.len() == 16 + digits.len() + 4);
    assert forall|i: int| 0 <= i < text.len() implies #[trigger] text[i] as int <= 127 by {
        if 16 <= i < 16 + digits.len() {
            assert(text[i] == digits[i - 16]);
        }
    }
    assert(vstd::utf8::is_ascii_chars(text));
    vstd::utf8::is_ascii_chars_encode_utf8(text);
    assert(header.len() == text.len());
    assert forall|i: int| 0 <= i < header.len() implies #[trigger] header[i] == text[i] as u8 by {}
    assert forall|i: int| 0 <= i < header.len() implies #[trigger] header[i] < 128 by {
        assert(text[i] as int <= 127);
    }
    assert forall|i: int| 0 <= i < header.len() - 4 implies #[trigger] header[i] != 13 && header[i]
        != 10 by {
        if i >= 16 {
            assert(text[i] == digits[i - 16]);
        }
    }
    let line = header.take(header.len() - 4);
    let line_text = text.take(text.len() - 4);
    assert(vstd::utf8::is_ascii_chars(line_text));
    vstd::utf8::is_ascii_chars_encode_utf8(line_text);
    assert(line =~= text::utf8(line_text));
    vstd::utf8::encode_utf8_valid_utf8(line_text);
    lemma_first_line_end(line, line.len() as int);
    assert(header_lines(line) == seq![line]);
    assert(line[14] == 58);
    bytes::lemma_first_index(line, 58, 14);
    let value = line.skip(15);
    assert(value[0] == 32);
    let rest = value.drop_first();
    assert(rest =~= line.skip(16));
    assert forall|i: int| 0 <= i < rest.len() implies #[trigger] rest[i] == digits[i] as u8 by {
        assert(rest[i] == header[16 + i]);
        assert(text[16 + i] == digits[i]);
    }
    assert(rest.len() == digits.len());
    assert(bytes::trim_start(rest) == rest);
    assert(bytes::trim_start(value) == rest);
    assert(bytes::trim_end(rest) == rest);
    assert(bytes::all_digits(rest));
    lemma_decimal_value(length, rest);
    assert(content_length_of(rest) == Ok::<usize, JsonRpcError>(length as usize));
    let name = line.take(14);
    reveal_strlit("Content-Length");
    assert(vstd::utf8::is_ascii_chars("Content-Length"@));
    vstd::utf8::is_ascii_chars_encode_utf8("Content-Length"@);
    assert(text::utf8("Content-Length"@).len() == 14);
    assert forall|i: int| 0 <= i < 14 implies #[trigger] name[i] == text::utf8(
        "Content-Length"@,
    )[i] by {
        assert(name[i] == header[i]);
        assert(text[i] == "Content-Length: "@[i]);
    }
    assert(name =~= text::utf8("Content-Length"@));
    assert(is_field_line(line)) by {
        assert forall|i: int| 0 <= i < 14 implies is_token(#[trigger] line[i]) by {
            assert(line[i] == name[i]);
        }
    }
    assert(read_line(line, no_fields()) is Ok);
    let lines = seq![line];
    assert(lines.drop_first() =~= Seq::<Seq<u8>>::empty());
    reveal_with_fuel(read_lines, 2);
    assert(read_lines(lines, no_fields()) == read_line(line, no_fields()));
}

/// Decoding an unfinished header only collects it.
proof fn lemma_decode_header_prefix(limits: FramingLimits, header: Seq<u8>, count: int)
    requires
        0 <= count < header.len(),
        header.len() <= limits.max_header_bytes,
        forall|i: int| 0 <= i < header.len() ==> #[trigger] header[i] < 128,
        forall|i: int| 0 <= i < header.len() - 4 ==> #[trigger] header[i] != 13,
    ensures
        decode_frames(limits, between_frames(), header.take(count)) == Ok::<
            (FrameState, Seq<Seq<u8>>),
            JsonRpcError,
        >((FrameState::Header(header.take(count)), Seq::empty())),
    decreases count,
{
    if count == 0 {
        assert(header.take(0) =~= Seq::<u8>::empty());
    } else {
        let shorter = header.take(count - 1);
        let last = seq![header[count - 1]];
        lemma_decode_header_prefix(limits, header, count - 1);
        assert(header.take(count) =~= shorter + last);
        law_chunks_concatenate(limits, between_frames(), shorter, last);
        assert(shorter.push(header[count - 1]) =~= header.take(count));
        assert(!ends_header(header.take(count)));
        let state = FrameState::Header(shorter);
        assert(frame_step(limits, state, header[count - 1]) == Ok::<
            (FrameState, Option<Seq<u8>>),
            JsonRpcError,
        >((FrameState::Header(header.take(count)), None)));
        assert(last.drop_first() =~= Seq::<u8>::empty());
        reveal_with_fuel(decode_frames, 2);
        let none = Seq::<Seq<u8>>::empty();
        assert(none + none =~= none);
        assert(completed_by(None) + none =~= none);
        assert(last[0] == header[count - 1]);
    }
}

/// Decoding an unfinished body only collects it.
proof fn lemma_decode_body_prefix(limits: FramingLimits, body: Seq<u8>, count: int)
    requires
        0 <= count < body.len(),
    ensures
        decode_frames(
            limits,
            FrameState::Body { bytes: Seq::empty(), expected: body.len() },
            body.take(count),
        ) == Ok::<(FrameState, Seq<Seq<u8>>), JsonRpcError>(
            (FrameState::Body { bytes: body.take(count), expected: body.len() }, Seq::empty()),
        ),
    decreases count,
{
    let start = FrameState::Body { bytes: Seq::<u8>::empty(), expected: body.len() };
    if count == 0 {
        assert(body.take(0) =~= Seq::<u8>::empty());
    } else {
        let shorter = body.take(count - 1);
        let last = seq![body[count - 1]];
        lemma_decode_body_prefix(limits, body, count - 1);
        assert(body.take(count) =~= shorter + last);
        law_chunks_concatenate(limits, start, shorter, last);
        assert(shorter.push(body[count - 1]) =~= body.take(count));
        assert(last.drop_first() =~= Seq::<u8>::empty());
        reveal_with_fuel(decode_frames, 2);
        let none = Seq::<Seq<u8>>::empty();
        assert(none + none =~= none);
        assert(completed_by(None) + none =~= none);
        assert(last[0] == body[count - 1]);
    }
}

/// A decoder reads back what the encoder wrote: the frame of a body within the
/// inbound bounds decodes to exactly that body and leaves the decoder between
/// frames.
pub proof fn law_frame_round_trip(limits: FramingLimits, body: Seq<u8>)
    requires
        body.len() <= limits.max_inbound_body_bytes,
        text::utf8(header_text(body.len())).len() <= limits.max_header_bytes,
    ensures
        decode_frames(limits, between_frames(), frame_of(body)) == Ok::<
            (FrameState, Seq<Seq<u8>>),
            JsonRpcError,
        >((between_frames(), seq![body])),
{
    let header = text::utf8(header_text(body.len()));
    lemma_header_bytes(body.len());
    let size = header.len() as int;
    lemma_decode_header_prefix(limits, header, size - 1);
    let last = seq![header[size - 1]];
    let partial = header.take(size - 1);
    assert(partial + last =~= header);
    law_chunks_concatenate(limits, between_frames(), partial, last);
    assert(partial.push(header[size - 1]) =~= header);
    assert(last[0] == header[size - 1]);
    assert(last.drop_first() =~= Seq::<u8>::empty());
    reveal_with_fuel(decode_frames, 2);
    let none = Seq::<Seq<u8>>::empty();
    assert(none + none =~= none);
    law_chunks_concatenate(limits, between_frames(), header, body);
    if body.len() == 0 {
        assert(body =~= Seq::<u8>::empty());
        assert(completed_by(Some(body)) + none =~= seq![body]);
        assert(none + seq![body] =~= seq![body]);
        assert(seq![body] + none =~= seq![body]);
    } else {
        let start = FrameState::Body { bytes: Seq::<u8>::empty(), expected: body.len() };
        let count = body.len() - 1;
        let tail = seq![body[count]];
        assert(completed_by(None) + none =~= none);
        lemma_decode_body_prefix(limits, body, count);
        law_chunks_concatenate(limits, start, body.take(count), tail);
        assert(body.take(count) + tail =~= body);
        assert(body.take(count).push(body[count]) =~= body);
        assert(tail[0] == body[count]);
        assert(tail.drop_first() =~= Seq::<u8>::empty());
        assert(completed_by(Some(body)) + none =~= seq![body]);
        assert(none + seq![body] =~= seq![body]);
    }
}

} // verus!
