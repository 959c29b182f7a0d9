//! The frames of the scripted language server, and a whole session over bytes.

use vstd::prelude::*;
use vstd::slice::slice_subrange;
use vstd::string::StringExecFns;

use crate::bytes;
use crate::bytes::{equals_ignoring_case, find_byte};
use crate::fake_json::FakeLspError;
use crate::fake_lsp::{FakeLspExpectations, FakeLspScenario};
use crate::fake_script;
use crate::fake_script::{
    FakeNext, FakeNextView, FakePhaseView, FakeServer, FakeStep, FakeStepView,
};
use crate::framing;
use crate::framing::parse_content_length;
use crate::json;
use crate::json::{parse_json, serialize_json, Json, JsonView};
use crate::text;
use crate::text::text_around_number;

verus! {

/// The most bytes of a message.
pub const MAX_FAKE_FRAME_BYTES: usize = 16_777_216;

/// The most bytes of a header.
pub const MAX_FAKE_HEADER_BYTES: usize = 65_536;

/// How many bytes flood standard error.
pub const STDERR_FLOOD_BYTES: usize = 1_048_576;

/// Whether bytes end with an empty line.
pub open spec fn ends_header(bytes: Seq<u8>) -> bool {
    let length = bytes.len();
    &&& length >= 4
    &&& bytes[length - 4] == 13
    &&& bytes[length - 3] == 10
    &&& bytes[length - 2] == 13
    &&& bytes[length - 1] == 10
}

/// The length of the header at the start of the input, where its first `read`
/// bytes do not end it; zero where there is no input at all.
pub open spec fn header_length(input: Seq<u8>, read: nat) -> Result<nat, Seq<char>>
    decreases input.len() - read,
{
    if read >= input.len() {
        if read == 0 {
            Ok(0)
        } else {
            Err("EOF inside fake LSP header"@)
        }
    } else if read + 1 > MAX_FAKE_HEADER_BYTES {
        Err("fake LSP header exceeded its limit"@)
    } else if ends_header(input.take((read + 1) as int)) {
        Ok(read + 1)
    } else {
        header_length(input, read + 1)
    }
}

/// Whether a byte is white space around a header value.
pub open spec fn is_space(byte: u8) -> bool {
    (9 <= byte && byte <= 13) || byte == 32
}

/// The bytes without leading white space.
pub open spec fn without_leading(bytes: Seq<u8>) -> Seq<u8>
    decreases bytes.len(),
{
    if bytes.len() > 0 && is_space(bytes[0]) {
        without_leading(bytes.drop_first())
    } else {
        bytes
    }
}

/// The bytes without trailing white space.
pub open spec fn without_trailing(bytes: Seq<u8>) -> Seq<u8>
    decreases bytes.len(),
{
    if bytes.len() > 0 && is_space(bytes.last()) {
        without_trailing(bytes.drop_last())
    } else {
        bytes
    }
}

/// The bytes without a leading plus sign.
pub open spec fn unsigned(bytes: Seq<u8>) -> Seq<u8> {
    if bytes.len() > 0 && bytes[0] == 43 {
        bytes.drop_first()
    } else {
        bytes
    }
}

/// The digits of a header value.
pub open spec fn value_digits(value: Seq<u8>) -> Seq<u8> {
    unsigned(without_trailing(without_leading(value)))
}

/// The first line break at or after `from`, or the length.
pub open spec fn line_end(bytes: Seq<u8>, from: int) -> int
    decreases bytes.len() - from,
{
    if from < 0 || from >= bytes.len() {
        bytes.len() as int
    } else if bytes[from] == 13 && from + 1 < bytes.len() && bytes[from + 1] == 10 {
        from
    } else {
        line_end(bytes, from + 1)
    }
}

/// A line break lies at or after where the search began, and within the bytes.
pub proof fn lemma_line_end(bytes: Seq<u8>, from: int)
    requires
        0 <= from <= bytes.len(),
    ensures
        from <= line_end(bytes, from) <= bytes.len(),
        line_end(bytes, from) < bytes.len() ==> line_end(bytes, from) + 2 <= bytes.len(),
    decreases bytes.len() - from,
{
    if from < bytes.len() && !(bytes[from] == 13 && from + 1 < bytes.len() && bytes[from + 1]
        == 10) {
        lemma_line_end(bytes, from + 1);
    }
}

/// The body length after one header line, where `found` was declared before.
pub open spec fn line_length(line: Seq<u8>, found: Option<usize>) -> Result<
    Option<usize>,
    Seq<char>,
> {
    let colon = bytes::first_index(line, 58);
    if colon >= line.len() {
        Err("malformed fake LSP header line"@)
    } else if !bytes::spells(line.take(colon), "Content-Length"@) {
        Ok(found)
    } else if found is Some {
        Err("duplicate Content-Length in fake LSP input"@)
    } else {
        match framing::content_length_of(value_digits(line.skip(colon + 1))) {
            Ok(length) => Ok(Some(length)),
            Err(_) => Err("invalid fake LSP Content-Length"@),
        }
    }
}

/// The body length that header lines declare, from `from` on.
pub open spec fn declared_length(header: Seq<u8>, from: int, found: Option<usize>) -> Result<
    Option<usize>,
    Seq<char>,
>
    decreases header.len() - from,
    when 0 <= from <= header.len()
{
    proof {
        lemma_line_end(header, from);
    }
    let end = line_end(header, from);
    match line_length(header.subrange(from, end), found) {
        Err(complaint) => Err(complaint),
        Ok(next) => if end >= header.len() {
            Ok(next)
        } else {
            declared_length(header, end + 2, next)
        },
    }
}

/// Whether every byte is ASCII.
pub open spec fn all_ascii(bytes: Seq<u8>) -> bool {
    forall|i: int| 0 <= i < bytes.len() ==> #[trigger] bytes[i] < 128
}

/// The length of the body that a header declares.
pub open spec fn body_length(header: Seq<u8>) -> Result<nat, Seq<char>> {
    if !all_ascii(header) {
        Err("fake LSP header must be ASCII"@)
    } else {
        match declared_length(header.take(header.len() - 4), 0, None) {
            Err(complaint) => Err(complaint),
            Ok(None) => Err("missing Content-Length in fake LSP input"@),
            Ok(Some(length)) => if length > MAX_FAKE_FRAME_BYTES {
                Err("fake LSP input frame exceeded its limit"@)
            } else {
                Ok(length as nat)
            },
        }
    }
}

/// Where the body of the first message lies; nothing where there is no input.
pub open spec fn body_place(input: Seq<u8>) -> Result<Option<(nat, nat)>, Seq<char>> {
    match header_length(input, 0) {
        Err(complaint) => Err(complaint),
        Ok(header) => if header == 0 {
            Ok(None)
        } else {
            match body_length(input.take(header as int)) {
                Err(complaint) => Err(complaint),
                Ok(length) => if header + length > input.len() {
                    Err("fake LSP I/O failed: failed to fill whole buffer"@)
                } else {
                    Ok(Some((header, header + length)))
                },
            }
        },
    }
}

/// How many bytes are to be read next, so that nothing is read past the frame of
/// the first message: one while its header is open, and then the rest of its
/// body; none where the frame is whole or wrong.
pub open spec fn input_needed(input: Seq<u8>) -> nat {
    match header_length(input, 0) {
        Err(_) => if input.len() <= MAX_FAKE_HEADER_BYTES {
            1
        } else {
            0
        },
        Ok(header) => if header == 0 {
            1
        } else {
            match body_length(input.take(header as int)) {
                Err(_) => 0,
                Ok(length) => if header + length > input.len() {
                    (header + length - input.len()) as nat
                } else {
                    0
                },
            }
        },
    }
}

/// A header has at least the four bytes that end it.
proof fn lemma_header_length(input: Seq<u8>, read: nat)
    requires
        read <= input.len(),
        header_length(input, read) is Ok,
    ensures
        header_length(input, read)->Ok_0 <= input.len(),
        header_length(input, read)->Ok_0 == 0 ==> input.len() == 0,
        header_length(input, read)->Ok_0 > 0 ==> header_length(input, read)->Ok_0 >= 4,
    decreases input.len() - read,
{
    if read < input.len() && read + 1 <= MAX_FAKE_HEADER_BYTES && !ends_header(
        input.take((read + 1) as int),
    ) {
        lemma_header_length(input, read + 1);
    }
}

/// A body lies after its header, within the input.
proof fn lemma_body_place(input: Seq<u8>)
    requires
        body_place(input) matches Ok(Some(_)),
    ensures
        4 <= body_place(input)->Ok_0->Some_0.0 <= body_place(input)->Ok_0->Some_0.1 <= input.len(),
{
    lemma_header_length(input, 0);
}

/// Returns the length of the header at the start of the input.
fn read_header(input: &[u8]) -> (length: Result<usize, FakeLspError>)
    ensures
        match length {
            Ok(length) => header_length(input@, 0) == Ok::<nat, Seq<char>>(length as nat)
                && length <= input@.len(),
            Err(error) => header_length(input@, 0) == Err::<nat, Seq<char>>(error@),
        },
{
    if input.len() == 0 {
        return Ok(0);
    }
    let mut read: usize = 0;
    while read < input.len()
        invariant
            read <= input@.len(),
            input@.len() > 0,
            header_length(input@, 0) == header_length(input@, read as nat),
        decreases input@.len() - read,
    {
        let count: usize = read + 1;
        if count > MAX_FAKE_HEADER_BYTES {
            return Err(FakeLspError::new("fake LSP header exceeded its limit"));
        }
        assert(input@.take(count as int).len() == count);
        if count >= 4 && input[count - 4] == 13 && input[count - 3] == 10 && input[count - 2] == 13
            && input[count - 1] == 10 {
            assert(ends_header(input@.take(count as int)));
            return Ok(count);
        }
        assert(!ends_header(input@.take(count as int)));
        read = count;
    }
    Err(FakeLspError::new("EOF inside fake LSP header"))
}

/// Returns the first line break at or after `from`, or the length.
fn find_line_end(bytes: &[u8], from: usize) -> (end: usize)
    requires
        from <= bytes@.len(),
    ensures
        end == line_end(bytes@, from as int),
        from <= end <= bytes@.len(),
{
    let mut position: usize = from;
    while position < bytes.len()
        invariant
            from <= position <= bytes@.len(),
            line_end(bytes@, from as int) == line_end(bytes@, position as int),
        decreases bytes@.len() - position,
    {
        if bytes[position] == 13 && position < bytes.len() - 1 && bytes[position + 1] == 10 {
            return position;
        }
        position = position + 1;
    }
    position
}

/// Returns the digits of a header value.
fn strip_value(value: &[u8]) -> (digits: &[u8])
    ensures
        digits@ == value_digits(value@),
{
    let mut start: usize = 0;
    assert(value@.skip(0) =~= value@);
    while start < value.len() && ((9 <= value[start] && value[start] <= 13) || value[start] == 32)
        invariant
            start <= value@.len(),
            without_leading(value@) == without_leading(value@.skip(start as int)),
        decreases value@.len() - start,
    {
        assert(value@.skip(start as int).drop_first() =~= value@.skip(start + 1));
        start = start + 1;
    }
    let ghost rest = value@.skip(start as int);
    assert(without_leading(value@) == rest);
    let mut end: usize = value.len();
    assert(value@.subrange(start as int, end as int) =~= rest);
    while end > start && ((9 <= value[end - 1] && value[end - 1] <= 13) || value[end - 1] == 32)
        invariant
            start <= end <= value@.len(),
            without_trailing(rest) == without_trailing(
                value@.subrange(start as int, end as int),
            ),
        decreases end,
    {
        assert(value@.subrange(start as int, end as int).drop_last() =~= value@.subrange(
            start as int,
            end - 1,
        ));
        end = end - 1;
    }
    let ghost inner = value@.subrange(start as int, end as int);
    assert(without_trailing(rest) == inner);
    if start < end && value[start] == 43 {
        assert(inner.drop_first() =~= value@.subrange(start + 1, end as int));
        slice_subrange(value, start + 1, end)
    } else {
        slice_subrange(value, start, end)
    }
}

/// Returns the body length after one header line.
fn read_line_length(line: &[u8], found: Option<usize>) -> (length: Result<
    Option<usize>,
    FakeLspError,
>)
    ensures
        match length {
            Ok(length) => line_length(line@, found) == Ok::<Option<usize>, Seq<char>>(length),
            Err(error) => line_length(line@, found) == Err::<Option<usize>, Seq<char>>(error@),
        },
{
    let colon: usize = find_byte(line, 58);
    if colon >= line.len() {
        return Err(FakeLspError::new("malformed fake LSP header line"));
    }
    let name = slice_subrange(line, 0, colon);
    assert(name@ =~= line@.take(colon as int));
    if !equals_ignoring_case(name, "Content-Length") {
        return Ok(found);
    }
    if found.is_some() {
        return Err(FakeLspError::new("duplicate Content-Length in fake LSP input"));
    }
    let value = slice_subrange(line, colon + 1, line.len());
    assert(value@ =~= line@.skip(colon + 1));
    match parse_content_length(strip_value(value)) {
        Ok(length) => Ok(Some(length)),
        Err(_) => Err(FakeLspError::new("invalid fake LSP Content-Length")),
    }
}

/// Returns the body length that a header declares.
fn read_declared_length(header: &[u8]) -> (length: Result<Option<usize>, FakeLspError>)
    ensures
        match length {
            Ok(length) => declared_length(header@, 0, None) == Ok::<Option<usize>, Seq<char>>(
                length,
            ),
            Err(error) => declared_length(header@, 0, None) == Err::<Option<usize>, Seq<char>>(
                error@,
            ),
        },
{
    let mut found: Option<usize> = None;
    let mut from: usize = 0;
    loop
        invariant
            from <= header@.len(),
            declared_length(header@, 0, None) == declared_length(header@, from as int, found),
        decreases header@.len() - from,
    {
        let end: usize = find_line_end(header, from);
        proof {
            lemma_line_end(header@, from as int);
        }
        let line = slice_subrange(header, from, end);
        match read_line_length(line, found) {
            Err(error) => return Err(error),
            Ok(next) => {
                if end >= header.len() {
                    return Ok(next);
                }
                found = next;
                from = end + 2;
            },
        }
    }
}

/// Returns whether every byte is ASCII.
fn is_ascii(bytes: &[u8]) -> (ascii: bool)
    ensures
        ascii == all_ascii(bytes@),
{
    let mut index: usize = 0;
    while index < bytes.len()
        invariant
            index <= bytes@.len(),
            forall|i: int| 0 <= i < index ==> #[trigger] bytes@[i] < 128,
        decreases bytes@.len() - index,
    {
        if bytes[index] >= 128 {
            assert(!(bytes@[index as int] < 128));
            return false;
        }
        index = index + 1;
    }
    true
}

/// Returns the length of the body that a header declares.
fn read_body_length(header: &[u8]) -> (length: Result<usize, FakeLspError>)
    requires
        header@.len() >= 4,
    ensures
        match length {
            Ok(length) => body_length(header@) == Ok::<nat, Seq<char>>(length as nat) && length
                <= MAX_FAKE_FRAME_BYTES,
            Err(error) => body_length(header@) == Err::<nat, Seq<char>>(error@),
        },
{
    if !is_ascii(header) {
        return Err(FakeLspError::new("fake LSP header must be ASCII"));
    }
    let lines = slice_subrange(header, 0, header.len() - 4);
    assert(lines@ =~= header@.take(header@.len() - 4));
    match read_declared_length(lines) {
        Ok(Some(length)) => {
            if length > MAX_FAKE_FRAME_BYTES {
                Err(FakeLspError::new("fake LSP input frame exceeded its limit"))
            } else {
                Ok(length)
            }
        },
        Ok(None) => Err(FakeLspError::new("missing Content-Length in fake LSP input")),
        Err(error) => Err(error),
    }
}

/// Returns how many bytes are to be read next.
pub fn needed_input(input: &[u8]) -> (count: usize)
    ensures
        count == input_needed(input@),
{
    let header: usize = match read_header(input) {
        Ok(header) => header,
        Err(_) => return if input.len() <= MAX_FAKE_HEADER_BYTES {
            1
        } else {
            0
        },
    };
    if header == 0 {
        return 1;
    }
    proof {
        lemma_header_length(input@, 0);
    }
    let head = slice_subrange(input, 0, header);
    assert(head@ =~= input@.take(header as int));
    match read_body_length(head) {
        Ok(length) => {
            let present: usize = input.len() - header;
            if length > present {
                length - present
            } else {
                0
            }
        },
        Err(_) => 0,
    }
}

/// The decimal spelling of a frame's length has few digits.
proof fn lemma_short_decimal(number: nat, count: nat)
    requires
        count > 0,
        number < vstd::arithmetic::power::pow(10, count),
    ensures
        text::decimal(number).len() <= count,
    decreases count,
{
    vstd::arithmetic::power::lemma_pow1(10);
    if number >= 10 {
        vstd::arithmetic::power::lemma_pow_adds(10, 1, (count - 1) as nat);
        if count == 1 {
            vstd::arithmetic::power::lemma_pow0(10);
        } else {
            assert(number / 10 < vstd::arithmetic::power::pow(10, (count - 1) as nat))
                by (nonlinear_arith)
                requires
                    number < 10 * vstd::arithmetic::power::pow(10, (count - 1) as nat),
            ;
            lemma_short_decimal(number / 10, (count - 1) as nat);
        }
    }
}

/// No shorter part of the input ends the header.
proof fn lemma_header_found(input: Seq<u8>, size: nat, read: nat)
    requires
        read < size <= input.len(),
        size <= MAX_FAKE_HEADER_BYTES,
        ends_header(input.take(size as int)),
        forall|i: int| 0 <= i < size - 4 ==> #[trigger] input[i] != 13,
    ensures
        header_length(input, read) == Ok::<nat, Seq<char>>(size),
    decreases size - read,
{
    if read + 1 < size {
        let part = input.take((read + 1) as int);
        if ends_header(part) {
            assert(part[read + 1 - 4] == input[read + 1 - 4]);
        }
        lemma_header_found(input, size, read + 1);
    }
}

/// Bytes without a line break are one line.
proof fn lemma_one_line(line: Seq<u8>, from: int)
    requires
        0 <= from <= line.len(),
        forall|i: int| 0 <= i < line.len() ==> #[trigger] line[i] != 13,
    ensures
        line_end(line, from) == line.len(),
    decreases line.len() - from,
{
    if from < line.len() {
        lemma_one_line(line, from + 1);
    }
}

/// A reader gets back what the writer framed: the body lies after the header,
/// and ends with the frame.
pub proof fn law_frames_hold_their_body(body: Seq<u8>)
    requires
        body.len() <= MAX_FAKE_FRAME_BYTES,
    ensures
        ({
            let frame = framing::frame_of(body);
            let start = (frame.len() - body.len()) as nat;
            &&& body_place(frame) == Ok::<Option<(nat, nat)>, Seq<char>>(
                Some((start, frame.len())),
            )
            &&& frame.skip(start as int) == body
        }),
{
    let header = text::utf8(framing::header_text(body.len()));
    let frame = framing::frame_of(body);
    let size = header.len();
    framing::lemma_header_bytes(body.len());
    assert(vstd::arithmetic::power::pow(10, 8) == 100_000_000) by {
        reveal_with_fuel(vstd::arithmetic::power::pow, 9);
    }
    lemma_short_decimal(body.len(), 8);
    assert(frame.take(size as int) =~= header);
    assert forall|i: int| 0 <= i < size - 4 implies #[trigger] frame[i] != 13 by {
        assert(frame[i] == header[i]);
    }
    lemma_header_found(frame, size, 0);
    let line = header.take(size - 4);
    assert forall|i: int| 0 <= i < line.len() implies #[trigger] line[i] != 13 by {
        assert(line[i] == header[i]);
    }
    lemma_one_line(line, 0);
    assert(line.subrange(0, line.len() as int) =~= line);
    let value = line.skip(15);
    let digits = line.skip(16);
    assert(value[0] == 32);
    assert(value.drop_first() =~= digits);
    assert(!is_space(digits[0]));
    assert(without_leading(digits) == digits);
    assert(without_leading(value) == digits);
    assert(digits.last() == digits[digits.len() - 1]);
    assert(without_trailing(digits) == digits);
    assert(value_digits(value) == digits);
    assert(bytes::spells(line.take(14), "Content-Length"@));
    assert(line_length(line, None) == Ok::<Option<usize>, Seq<char>>(Some(body.len() as usize)));
    assert(declared_length(line, 0, None) == Ok::<Option<usize>, Seq<char>>(
        Some(body.len() as usize),
    ));
    assert(header.take(header.len() - 4) =~= line);
    assert(frame.skip(size as int) =~= body);
}

/// Input is needed exactly as long as the first frame is open: a whole frame
/// needs none, and wherever some is needed no message can be read yet.
pub proof fn law_whole_frames_need_no_input(input: Seq<u8>)
    ensures
        body_place(input) matches Ok(Some(_)) ==> input_needed(input) == 0,
        input_needed(input) > 0 ==> !(first_message(input) matches Ok(Some(_))),
        input_needed(input) <= MAX_FAKE_FRAME_BYTES,
{
    if header_length(input, 0) is Ok {
        lemma_header_length(input, 0);
    }
}

/// Returns where the body of the first message lies.
pub fn find_body(input: &[u8]) -> (place: Result<Option<(usize, usize)>, FakeLspError>)
    ensures
        match place {
            Ok(Some((start, end))) => body_place(input@) == Ok::<Option<(nat, nat)>, Seq<char>>(
                Some((start as nat, end as nat)),
            ),
            Ok(None) => body_place(input@) == Ok::<Option<(nat, nat)>, Seq<char>>(None),
            Err(error) => body_place(input@) == Err::<Option<(nat, nat)>, Seq<char>>(error@),
        },
{
    let header: usize = match read_header(input) {
        Ok(header) => header,
        Err(error) => return Err(error),
    };
    if header == 0 {
        return Ok(None);
    }
    proof {
        lemma_header_length(input@, 0);
    }
    let head = slice_subrange(input, 0, header);
    assert(head@ =~= input@.take(header as int));
    let length: usize = match read_body_length(head) {
        Ok(length) => length,
        Err(error) => return Err(error),
    };
    if length > input.len() - header {
        return Err(FakeLspError::new("fake LSP I/O failed: failed to fill whole buffer"));
    }
    Ok(Some((header, header + length)))
}

/// The first message of the input and the end of its frame; nothing where
/// there is no input.
pub open spec fn first_message(input: Seq<u8>) -> Result<Option<(JsonView, nat)>, Seq<char>> {
    match body_place(input) {
        Err(complaint) => Err(complaint),
        Ok(None) => Ok(None),
        Ok(Some((start, end))) => match json::parsed_json(
            input.subrange(start as int, end as int),
        ) {
            Ok(message) => Ok(Some((message, end))),
            Err(reason) => Err("fake LSP JSON failed: "@ + reason),
        },
    }
}

/// Returns the complaint about text that is not JSON.
fn json_error(reason: &str) -> (error: FakeLspError)
    ensures
        error@ == "fake LSP JSON failed: "@ + reason@,
{
    let mut message = "fake LSP JSON failed: ".to_owned();
    message.append(reason);
    FakeLspError { message }
}

/// Returns the first message of the input and the end of its frame.
pub fn read_message(input: &[u8]) -> (message: Result<Option<(Json, usize)>, FakeLspError>)
    ensures
        match message {
            Ok(Some((message, end))) => first_message(input@) == Ok::<
                Option<(JsonView, nat)>,
                Seq<char>,
            >(Some((message@, end as nat))) && 0 < end <= input@.len(),
            Ok(None) => first_message(input@) == Ok::<Option<(JsonView, nat)>, Seq<char>>(None),
            Err(error) => first_message(input@) == Err::<Option<(JsonView, nat)>, Seq<char>>(
                error@,
            ),
        },
{
    let (start, end) = match find_body(input) {
        Ok(Some(place)) => place,
        Ok(None) => return Ok(None),
        Err(error) => return Err(error),
    };
    proof {
        lemma_body_place(input@);
    }
    let body = slice_subrange(input, start, end);
    match parse_json(body) {
        Ok(message) => Ok(Some((message, end))),
        Err(reason) => Err(json_error(reason.as_str())),
    }
}

/// The frame of a message, given what the serializer made of it.
pub open spec fn fake_frame(serialized: Result<Seq<u8>, Seq<char>>) -> Result<Seq<u8>, Seq<char>> {
    match serialized {
        Err(reason) => Err("fake LSP JSON failed: "@ + reason),
        Ok(body) => if body.len() > MAX_FAKE_FRAME_BYTES {
            Err("fake LSP output frame exceeded its limit"@)
        } else {
            Ok(framing::frame_of(body))
        },
    }
}

/// Returns the frame of a message, given what the serializer made of it.
pub fn frame_serialized(serialized: Result<Vec<u8>, String>) -> (frame: Result<
    Vec<u8>,
    FakeLspError,
>)
    ensures
        ({
            let expected = fake_frame(json::serialized_view(serialized));
            match frame {
                Ok(frame) => expected == Ok::<Seq<u8>, Seq<char>>(frame@),
                Err(error) => expected == Err::<Seq<u8>, Seq<char>>(error@),
            }
        }),
{
    match serialized {
        Err(reason) => Err(json_error(reason.as_str())),
        Ok(body) => {
            if body.len() > MAX_FAKE_FRAME_BYTES {
                return Err(FakeLspError::new("fake LSP output frame exceeded its limit"));
            }
            let header = text_around_number("Content-Length: ", body.len() as u64, "\r\n\r\n");
            let mut frame: Vec<u8> = Vec::new();
            frame.extend_from_slice(header.as_str().as_bytes());
            frame.extend_from_slice(body.as_slice());
            assert(frame@ =~= framing::frame_of(body@));
            Ok(frame)
        },
    }
}

/// Returns the frame of a message. Only an oversized message has none, and a
/// plain message is read back from its frame.
pub fn write_message(message: &Json) -> (frame: Result<Vec<u8>, FakeLspError>)
    ensures
        frame matches Ok(bytes) ==> json::is_plain(message@, json::READABLE_DEPTH as nat)
            ==> first_message(bytes@) == Ok::<Option<(JsonView, nat)>, Seq<char>>(
            Some((message@, bytes@.len())),
        ),
        frame is Ok <==> json::serialized_json(message@)->Ok_0.len() <= MAX_FAKE_FRAME_BYTES,
        ({
            let expected = fake_frame(json::serialized_json(message@));
            match frame {
                Ok(frame) => expected == Ok::<Seq<u8>, Seq<char>>(frame@),
                Err(error) => expected == Err::<Seq<u8>, Seq<char>>(error@),
            }
        }),
{
    let serialized = serialize_json(message);
    proof {
        let body = serialized->Ok_0@;
        if body.len() <= MAX_FAKE_FRAME_BYTES {
            law_frames_hold_their_body(body);
            let frame = framing::frame_of(body);
            let start = frame.len() - body.len();
            assert(frame.subrange(start, frame.len() as int) =~= frame.skip(start));
        }
    }
    frame_serialized(serialized)
}

/// The frames of messages in a row, up to the first that cannot be framed, and
/// the complaint about that one.
pub open spec fn frames_of(messages: Seq<JsonView>) -> (Seq<u8>, Option<Seq<char>>)
    decreases messages.len(),
{
    if messages.len() == 0 {
        (Seq::empty(), None)
    } else {
        match fake_frame(json::serialized_json(messages[0])) {
            Err(complaint) => (Seq::empty(), Some(complaint)),
            Ok(frame) => {
                let (rest, complaint) = frames_of(messages.drop_first());
                (frame + rest, complaint)
            },
        }
    }
}

/// Appends the frames of messages in a row.
pub fn write_messages(output: &mut Vec<u8>, messages: &Vec<Json>) -> (outcome: Result<
    (),
    FakeLspError,
>)
    ensures
        final(output)@ == old(output)@ + frames_of(json::items_view(messages@)).0,
        fake_script::complains_as(outcome, frames_of(json::items_view(messages@)).1),
{
    let ghost views = json::items_view(messages@);
    let ghost before = output@;
    let mut index: usize = 0;
    assert(views.skip(0) =~= views);
    assert(before + frames_of(views).0 =~= output@ + frames_of(views.skip(0)).0);
    while index < messages.len()
        invariant
            index <= messages@.len(),
            views == json::items_view(messages@),
            before == old(output)@,
            before + frames_of(views).0 == output@ + frames_of(views.skip(index as int)).0,
            frames_of(views).1 == frames_of(views.skip(index as int)).1,
        decreases messages@.len() - index,
    {
        let ghost remaining = views.skip(index as int);
        assert(remaining[0] == messages@[index as int]@);
        assert(remaining.drop_first() =~= views.skip(index + 1));
        match write_message(&messages[index]) {
            Err(error) => {
                assert(output@ + Seq::<u8>::empty() =~= output@);
                return Err(error);
            },
            Ok(frame) => {
                let ghost written = output@;
                output.extend_from_slice(frame.as_slice());
                assert(output@ =~= written + frame@);
                assert(written + (frame@ + frames_of(views.skip(index + 1)).0) =~= (written
                    + frame@) + frames_of(views.skip(index + 1)).0);
            },
        }
        index = index + 1;
    }
    proof {
        assert(views.skip(index as int) =~= Seq::<JsonView>::empty());
        assert(output@ + Seq::<u8>::empty() =~= output@);
    }
    Ok(())
}

/// How a session over bytes ended.
#[derive(Debug, PartialEq, Eq)]
pub enum FakeEnding {
    /// It was played to its end.
    Finished,
    /// The server stays alive and does nothing.
    Hung,
    /// The server started a sleeping child, and stays alive and does nothing.
    HungWithChild,
    /// It failed.
    Failed(FakeLspError),
}

/// The mathematical value of a [`FakeEnding`].
#[verifier::ext_equal]
pub enum FakeEndingView {
    Finished,
    Hung,
    HungWithChild,
    Failed(Seq<char>),
}

impl View for FakeEnding {
    type V = FakeEndingView;

    open spec fn view(&self) -> FakeEndingView {
        match self {
            FakeEnding::Finished => FakeEndingView::Finished,
            FakeEnding::Hung => FakeEndingView::Hung,
            FakeEnding::HungWithChild => FakeEndingView::HungWithChild,
            FakeEnding::Failed(error) => FakeEndingView::Failed(error@),
        }
    }
}

/// A session over bytes.
#[derive(Debug, PartialEq, Eq)]
pub struct FakeSession {
    /// What was written to standard output.
    pub output: Vec<u8>,
    /// How many bytes were written to standard error.
    pub error_bytes: usize,
    /// How it ended.
    pub ending: FakeEnding,
}

/// The mathematical value of a [`FakeSession`].
#[verifier::ext_equal]
pub struct FakeSessionView {
    pub output: Seq<u8>,
    pub error_bytes: nat,
    pub ending: FakeEndingView,
}

impl View for FakeSession {
    type V = FakeSessionView;

    open spec fn view(&self) -> FakeSessionView {
        FakeSessionView {
            output: self.output@,
            error_bytes: self.error_bytes as nat,
            ending: self.ending@,
        }
    }
}

/// A session that ends without output.
pub open spec fn ended(ending: FakeEndingView) -> FakeSessionView {
    FakeSessionView { output: Seq::empty(), error_bytes: 0, ending }
}

/// A session after earlier output.
pub open spec fn continued(output: Seq<u8>, error_bytes: nat, rest: FakeSessionView) -> FakeSessionView {
    FakeSessionView {
        output: output + rest.output,
        error_bytes: error_bytes + rest.error_bytes,
        ending: rest.ending,
    }
}

/// The end of the first message's frame lies within the input.
pub proof fn lemma_first_message(input: Seq<u8>)
    requires
        first_message(input) matches Ok(Some(_)),
    ensures
        0 < first_message(input)->Ok_0->Some_0.1 <= input.len(),
{
    lemma_body_place(input);
}

/// What a step writes to standard output.
pub open spec fn step_output(step: FakeStepView) -> Seq<u8> {
    text::utf8(step.raw) + frames_of(step.messages).0
}

/// How many bytes a step writes to standard error.
pub open spec fn step_flood(step: FakeStepView) -> nat {
    if step.flood {
        STDERR_FLOOD_BYTES as nat
    } else {
        0
    }
}

/// How a step ends the session, if it does.
pub open spec fn step_ending(step: FakeStepView) -> Option<FakeEndingView> {
    match frames_of(step.messages).1 {
        Some(complaint) => Some(FakeEndingView::Failed(complaint)),
        None => match step.next {
            FakeNextView::Read => None,
            FakeNextView::Hang => Some(FakeEndingView::Hung),
            FakeNextView::SpawnAndHang => Some(FakeEndingView::HungWithChild),
            FakeNextView::Finish => Some(FakeEndingView::Finished),
            FakeNextView::Fail(complaint) => Some(FakeEndingView::Failed(complaint)),
        },
    }
}

/// What the server plays over the rest of its client's bytes.
pub open spec fn played(
    scenario: FakeLspScenario,
    expectations: FakeLspExpectations,
    phase: FakePhaseView,
    input: Seq<u8>,
) -> FakeSessionView
    decreases input.len(),
{
    proof {
        if first_message(input) matches Ok(Some(_)) {
            lemma_first_message(input);
        }
    }
    match first_message(input) {
        Err(complaint) => ended(FakeEndingView::Failed(complaint)),
        Ok(None) => ended(FakeEndingView::Failed("unexpected EOF from fake LSP client"@)),
        Ok(Some((message, end))) => {
            let (next, step) = fake_script::fake_next(scenario, expectations, phase, message);
            continued(
                step_output(step),
                step_flood(step),
                match step_ending(step) {
                    Some(ending) => ended(ending),
                    None => played(scenario, expectations, next, input.skip(end as int)),
                },
            )
        },
    }
}

/// Earlier output and later output add up.
proof fn lemma_continued(
    before: Seq<u8>,
    flooded: nat,
    added: Seq<u8>,
    flood: nat,
    later: FakeSessionView,
)
    ensures
        continued(before, flooded, continued(added, flood, later)) == continued(
            before + added,
            flooded + flood,
            later,
        ),
{
    assert(before + (added + later.output) =~= (before + added) + later.output);
}

/// A flood is written at most once, after `initialize`.
proof fn lemma_flood_follows_initialize(
    scenario: FakeLspScenario,
    expectations: FakeLspExpectations,
    phase: FakePhaseView,
    message: JsonView,
)
    ensures
        fake_script::fake_next(scenario, expectations, phase, message).1.flood ==> phase
            == FakePhaseView::Initialize,
        !(fake_script::fake_next(scenario, expectations, phase, message).0
            == FakePhaseView::Initialize),
{
}

/// Ends a session over bytes.
fn session(output: Vec<u8>, error_bytes: usize, ending: FakeEnding) -> (session: FakeSession)
    ensures
        session@ == continued(output@, error_bytes as nat, ended(ending@)),
{
    assert(output@ + Seq::<u8>::empty() =~= output@);
    FakeSession { output, error_bytes, ending }
}

/// Writes what a step writes to standard output, and returns how the step ends
/// the session, if it does.
fn perform(step: FakeStep, output: &mut Vec<u8>) -> (ending: Option<FakeEnding>)
    ensures
        final(output)@ == old(output)@ + step_output(step@),
        match ending {
            Some(ending) => step_ending(step@) == Some(ending@),
            None => step_ending(step@) is None,
        },
{
    let ghost before = output@;
    output.extend_from_slice(step.raw.as_bytes());
    let outcome = write_messages(output, &step.messages);
    assert(output@ =~= before + step_output(step@));
    if let Err(error) = outcome {
        return Some(FakeEnding::Failed(error));
    }
    match step.next {
        FakeNext::Read => None,
        FakeNext::Hang => Some(FakeEnding::Hung),
        FakeNext::SpawnAndHang => Some(FakeEnding::HungWithChild),
        FakeNext::Finish => Some(FakeEnding::Finished),
        FakeNext::Fail(error) => Some(FakeEnding::Failed(error)),
    }
}

/// Plays one deterministic session over a client's bytes.
#[verifier::rlimit(80)]
#[verifier::spinoff_prover]
pub fn serve_fake_lsp(
    scenario: FakeLspScenario,
    expectations: FakeLspExpectations,
    input: &[u8],
) -> (session: FakeSession)
    ensures
        session@ == played(scenario, expectations, FakePhaseView::Initialize, input@),
{
    let ghost expected = played(scenario, expectations, FakePhaseView::Initialize, input@);
    let mut server = FakeServer::new(scenario, expectations);
    let mut output: Vec<u8> = Vec::new();
    let mut error_bytes: usize = 0;
    let mut position: usize = 0;
    assert(input@.skip(0) =~= input@);
    assert(continued(output@, 0, expected).output =~= expected.output);
    loop
        invariant
            position <= input@.len(),
            server.scenario == scenario,
            server.expectations == expectations,
            fake_script::is_reached(server.phase@),
            error_bytes == 0 || error_bytes == STDERR_FLOOD_BYTES,
            error_bytes > 0 ==> server.phase@ != FakePhaseView::Initialize,
            expected == played(scenario, expectations, FakePhaseView::Initialize, input@),
            expected == continued(
                output@,
                error_bytes as nat,
                played(scenario, expectations, server.phase@, input@.skip(position as int)),
            ),
        decreases input@.len() - position,
    {
        let rest = slice_subrange(input, position, input.len());
        assert(rest@ =~= input@.skip(position as int));
        let (message, end) = match read_message(rest) {
            Ok(Some(found)) => found,
            Ok(None) => {
                return session(
                    output,
                    error_bytes,
                    FakeEnding::Failed(FakeLspError::new("unexpected EOF from fake LSP client")),
                );
            },
            Err(error) => return session(output, error_bytes, FakeEnding::Failed(error)),
        };
        let ghost before = output@;
        let ghost flooded = error_bytes as nat;
        proof {
            lemma_flood_follows_initialize(scenario, expectations, server.phase@, message@);
        }
        let (next, step) = server.advance(&message);
        let ghost taken = step@;
        server = next;
        if step.flood {
            error_bytes = error_bytes + STDERR_FLOOD_BYTES;
        }
        let ending = perform(step, &mut output);
        proof {
            let later = match step_ending(taken) {
                Some(ending) => ended(ending),
                None => played(scenario, expectations, server.phase@, rest@.skip(end as int)),
            };
            lemma_continued(before, flooded, step_output(taken), step_flood(taken), later);
            assert(rest@.skip(end as int) =~= input@.skip(position + end));
        }
        match ending {
            Some(ending) => return session(output, error_bytes, ending),
            None => {
                position = position + end;
            },
        }
    }
}

} // verus!
