//! What every conversion of positions means, counted on the bytes alone.

use vstd::prelude::*;

use crate::line_index;
use crate::position;
use crate::position::{Position, PositionError, SupportedPositionEncoding};

verus! {

/// How many line terminators end at or before an offset: each LF, and each CR
/// that no LF follows.
pub open spec fn breaks(bytes: Seq<u8>, offset: int) -> nat
    decreases offset,
{
    if offset <= 0 {
        0
    } else if bytes[offset - 1] == 10 || (bytes[offset - 1] == 13 && !(offset < bytes.len()
        && bytes[offset] == 10)) {
        breaks(bytes, offset - 1) + 1
    } else {
        breaks(bytes, offset - 1)
    }
}

/// How many code units lie between two offsets: each byte in UTF-8, each
/// leading byte in UTF-32, and each leading byte in UTF-16, where one of a
/// four-byte sequence counts twice.
pub open spec fn width(
    encoding: SupportedPositionEncoding,
    bytes: Seq<u8>,
    from: int,
    to: int,
) -> nat
    decreases to - from,
{
    if to <= from {
        0
    } else {
        let byte = bytes[to - 1];
        let added: nat = if encoding == SupportedPositionEncoding::Utf8 {
            1
        } else if 128 <= byte < 192 {
            0
        } else if encoding == SupportedPositionEncoding::Utf16 && byte >= 240 {
            2
        } else {
            1
        };
        width(encoding, bytes, from, to - 1) + added
    }
}

/// Whether the text between two offsets is what a line holds before the second:
/// it begins the text or follows a CR or LF, and holds neither.
pub open spec fn is_line_prefix(bytes: Seq<u8>, start: int, offset: int) -> bool {
    &&& 0 <= start <= offset <= bytes.len()
    &&& start == 0 || bytes[start - 1] == 10 || bytes[start - 1] == 13
    &&& forall|i: int| start <= i < offset ==> #[trigger] bytes[i] != 10 && bytes[i] != 13
}

/// Whether an offset lies on a line of the text, at most at the end of what the
/// line holds before its terminator, and splits no scalar value.
pub open spec fn is_place(bytes: Seq<u8>, offset: int) -> bool {
    &&& 0 <= offset <= bytes.len()
    &&& bytes.len() > 0
    &&& offset < bytes.len() ==> !(128 <= bytes[offset] < 192)
    &&& !(0 < offset < bytes.len() && bytes[offset - 1] == 13 && bytes[offset] == 10)
    &&& !(offset == bytes.len() && (bytes[offset - 1] == 10 || bytes[offset - 1] == 13))
}

/// Whether a line's terminator or the end of the text follows an offset.
pub open spec fn ends_content(bytes: Seq<u8>, offset: int) -> bool {
    offset == bytes.len() || bytes[offset] == 10 || bytes[offset] == 13
}

/// Lines are numbered by the terminators before them.
proof fn lemma_breaks(bytes: Seq<u8>, offset: int)
    requires
        0 <= offset < bytes.len(),
    ensures
        breaks(bytes, offset) == line_index::line_of(bytes, offset),
    decreases offset,
{
    if offset > 0 {
        lemma_breaks(bytes, offset - 1);
    } else {
        assert(line_index::line_starts_before(bytes, 0).len() == 0);
        assert(line_index::is_line_start(bytes, 0));
        assert(line_index::line_starts_before(bytes, 1).len() == 1);
    }
}

/// Code units are counted byte by byte.
proof fn lemma_width(encoding: SupportedPositionEncoding, bytes: Seq<u8>, from: int, to: int)
    ensures
        width(encoding, bytes, from, to) == position::units(encoding, bytes, from, to),
    decreases to - from,
{
    if from < to {
        lemma_width(encoding, bytes, from, to - 1);
    }
}

/// A place in a line's content follows its line's start and no terminator of
/// it.
pub proof fn lemma_content_place(bytes: Seq<u8>, line: int, offset: int)
    requires
        bytes.len() <= u64::MAX,
        0 <= line < line_index::line_starts(bytes).len(),
        line_index::line_starts(bytes)[line] <= offset <= line_index::content_end(bytes, line),
    ensures
        breaks(bytes, offset) == line,
        line == line_index::line_of(bytes, offset),
        is_line_prefix(bytes, line_index::line_starts(bytes)[line] as int, offset),
        offset < line_index::content_end(bytes, line) ==> !ends_content(bytes, offset),
        offset == line_index::content_end(bytes, line) ==> ends_content(bytes, offset),
        position::is_boundary(bytes, offset) ==> is_place(bytes, offset),
{
    let starts = line_index::line_starts(bytes);
    let start = starts[line] as int;
    let close = line_index::physical_end(bytes, line);
    let end = line_index::content_end(bytes, line);
    line_index::lemma_line_starts(bytes, bytes.len() as int);
    line_index::lemma_line_of_end(bytes);
    position::lemma_content_end_is_boundary(bytes, line);
    assert(line_index::is_line_start(bytes, start));
    if line + 1 < starts.len() {
        position::lemma_line_terminates(bytes, line);
        assert(line_index::is_line_start(bytes, starts[line + 1] as int));
        assert(starts[line] < starts[line + 1]);
    }
    assert(start < close <= bytes.len());
    assert forall|i: int| start <= i < end implies #[trigger] bytes[i] != 10 && bytes[i] != 13 by {
        if bytes[i] == 10 || bytes[i] == 13 {
            let next = if bytes[i] == 13 && i + 1 < bytes.len() && bytes[i + 1] == 10 {
                i + 2
            } else {
                i + 1
            };
            if next < bytes.len() {
                assert(line_index::ends_line(bytes, next));
                assert(line_index::is_line_start(bytes, next));
                line_index::lemma_line_starts_complete(bytes, bytes.len() as int, next);
                let k = choose|k: int| 0 <= k < starts.len() && starts[k] == next as u64;
                if k <= line {
                    if k < line {
                        assert(starts[k] < starts[line]);
                    }
                } else if k > line + 1 {
                    assert(starts[line + 1] < starts[k]);
                }
                assert(close <= next);
            }
            if close == i + 1 && next == i + 2 {
                assert(line_index::is_line_start(bytes, close));
            }
        }
    }
    if offset < bytes.len() {
        line_index::lemma_line_of(bytes, offset);
        let held = line_index::line_of(bytes, offset);
        if held < line {
            assert(starts[held + 1] <= starts[line]);
        }
        if held > line {
            assert(starts[line + 1] <= starts[held]);
        }
        lemma_breaks(bytes, offset);
    } else {
        if line + 1 < starts.len() {
            assert(starts[line + 1] < bytes.len());
        }
        lemma_breaks(bytes, bytes.len() - 1);
        line_index::lemma_line_of(bytes, bytes.len() - 1);
        let held = line_index::line_of(bytes, bytes.len() - 1);
        if held < line {
            assert(starts[held + 1] <= starts[line]);
        }
    }
}

/// A place lies in the content of the line that the terminators before it
/// number.
pub proof fn lemma_place_line(bytes: Seq<u8>, offset: int)
    requires
        bytes.len() <= u64::MAX,
        is_place(bytes, offset),
    ensures
        ({
            let line = line_index::line_of(bytes, offset);
            let starts = line_index::line_starts(bytes);
            &&& 0 <= line < starts.len()
            &&& breaks(bytes, offset) == line
            &&& starts[line] <= offset <= line_index::content_end(bytes, line)
            &&& is_line_prefix(bytes, starts[line] as int, offset)
        }),
{
    let starts = line_index::line_starts(bytes);
    let line = line_index::line_of(bytes, offset);
    line_index::lemma_line_starts(bytes, bytes.len() as int);
    line_index::lemma_line_of_end(bytes);
    if offset < bytes.len() {
        line_index::lemma_line_of(bytes, offset);
    }
    if line + 1 < starts.len() {
        assert(line_index::is_line_start(bytes, starts[line + 1] as int));
    }
    assert(starts[line] <= offset <= line_index::content_end(bytes, line));
    lemma_content_place(bytes, line, offset);
}

/// A line's prefix up to an offset is determined by the offset.
pub proof fn lemma_line_prefix_is_unique(bytes: Seq<u8>, start: int, other: int, offset: int)
    requires
        is_line_prefix(bytes, start, offset),
        is_line_prefix(bytes, other, offset),
    ensures
        start == other,
{
    if start < other {
        assert(bytes[other - 1] != 10 && bytes[other - 1] != 13);
    }
    if other < start {
        assert(bytes[start - 1] != 10 && bytes[start - 1] != 13);
    }
}

/// Whether an offset is the place of a one-based line and a one-based column:
/// the line has that many terminators before it, less one, and the column has
/// that many scalar values before it on the line, less one.
pub open spec fn is_user_place(bytes: Seq<u8>, line: int, column: int, offset: int) -> bool {
    &&& is_place(bytes, offset)
    &&& breaks(bytes, offset) == line - 1
    &&& exists|start: int| #[trigger]
        is_line_prefix(bytes, start, offset) && width(
            SupportedPositionEncoding::Utf32,
            bytes,
            start,
            offset,
        ) == column - 1
}

/// A user line and column convert to the place that has as many lines and as
/// many scalar values of its line before it, and to nothing else; wherever
/// there is such a place, and enough work left to count to it, it is found.
pub proof fn law_user_positions_are_exact(
    bytes: Seq<u8>,
    line: u64,
    column: u64,
    offset: u64,
    scanned: nat,
    limit: nat,
)
    requires
        bytes.len() <= u64::MAX,
    ensures
        position::user_to_byte(bytes, line, column, scanned, limit).0 == Ok::<u64, PositionError>(
            offset,
        ) ==> is_user_place(bytes, line as int, column as int, offset as int),
        is_user_place(bytes, line as int, column as int, offset as int) && line <= u32::MAX
            && scanned + column <= limit + 1 ==> position::user_to_byte(
            bytes,
            line,
            column,
            scanned,
            limit,
        ).0 == Ok::<u64, PositionError>(offset),
{
    let utf32 = SupportedPositionEncoding::Utf32;
    let starts = line_index::line_starts(bytes);
    line_index::lemma_line_starts(bytes, bytes.len() as int);
    if position::user_to_byte(bytes, line, column, scanned, limit).0 == Ok::<u64, PositionError>(
        offset,
    ) {
        let start = starts[line - 1] as int;
        let end = line_index::content_end(bytes, line - 1);
        position::lemma_content_end_is_boundary(bytes, line - 1);
        position::lemma_boundary_reaching(utf32, bytes, start, end, start, column - 1);
        lemma_content_place(bytes, line - 1, offset as int);
        lemma_width(utf32, bytes, start, offset as int);
        assert(is_line_prefix(bytes, start, offset as int));
    }
    if is_user_place(bytes, line as int, column as int, offset as int) && line <= u32::MAX {
        lemma_place_line(bytes, offset as int);
        let start = starts[line - 1] as int;
        let end = line_index::content_end(bytes, line - 1);
        let other = choose|other: int| #[trigger]
            is_line_prefix(bytes, other, offset as int) && width(utf32, bytes, other, offset as int)
                == column - 1;
        lemma_line_prefix_is_unique(bytes, start, other, offset as int);
        lemma_width(utf32, bytes, start, offset as int);
        position::lemma_content_end_is_boundary(bytes, line - 1);
        position::lemma_stop_at_boundary(utf32, bytes, start, end, offset as int);
    }
}

/// An offset converts to the user line and column whose place it is; one that
/// no column has, inside a CR LF or after the last terminator, converts to its
/// line alone.
pub proof fn law_offsets_have_exact_coordinates(
    bytes: Seq<u8>,
    offset: u64,
    line: u64,
    column: Option<u64>,
    scanned: nat,
    limit: nat,
)
    requires
        bytes.len() <= u64::MAX,
        position::byte_to_user(bytes, offset as int, scanned, limit).0 == Ok::<
            (u64, Option<u64>),
            PositionError,
        >((line, column)),
    ensures
        match column {
            Some(column) => is_user_place(bytes, line as int, column as int, offset as int),
            None => {
                let length = bytes.len() as int;
                ||| 0 < offset < length && bytes[offset - 1] == 13 && bytes[offset as int] == 10
                    && breaks(bytes, offset as int) == line - 1
                ||| offset == length && 0 < length && (bytes[length - 1] == 10 || bytes[length - 1]
                    == 13) && breaks(bytes, length) == line
            },
        },
{
    let held = line_index::line_of(bytes, offset as int);
    let starts = line_index::line_starts(bytes);
    position::lemma_line_facts(bytes, offset as int);
    line_index::lemma_line_starts(bytes, bytes.len() as int);
    line_index::lemma_line_of_end(bytes);
    if column is Some {
        lemma_content_place(bytes, held, offset as int);
        lemma_width(
            SupportedPositionEncoding::Utf32,
            bytes,
            starts[held] as int,
            offset as int,
        );
        assert(is_line_prefix(bytes, starts[held] as int, offset as int));
    } else if offset < bytes.len() {
        lemma_breaks(bytes, offset as int);
        line_index::lemma_line_of(bytes, offset as int);
    } else {
        lemma_breaks(bytes, bytes.len() - 1);
        line_index::lemma_line_of(bytes, bytes.len() - 1);
        let before = line_index::line_of(bytes, bytes.len() - 1);
        if before < held {
            assert(starts[before + 1] <= starts[held]);
        }
    }
}

/// Whether an offset is the place of a zero-based LSP position: that many
/// terminators before its line, and that many code units before it on the line,
/// or fewer where the line's content ends there.
pub open spec fn is_server_place(
    encoding: SupportedPositionEncoding,
    bytes: Seq<u8>,
    position: Position,
    offset: int,
) -> bool {
    &&& is_place(bytes, offset)
    &&& breaks(bytes, offset) == position.line
    &&& exists|start: int| #[trigger]
        is_line_prefix(bytes, start, offset) && (width(encoding, bytes, start, offset)
            == position.character || (ends_content(bytes, offset) && width(
            encoding,
            bytes,
            start,
            offset,
        ) < position.character))
}

/// An LSP position converts to its place, and to nothing else; wherever there
/// is such a place, and enough work left to count to it, it is found.
pub proof fn law_server_positions_are_exact(
    encoding: SupportedPositionEncoding,
    bytes: Seq<u8>,
    position: Position,
    offset: u64,
    scanned: nat,
    limit: nat,
)
    requires
        bytes.len() <= u64::MAX,
    ensures
        position::position_to_byte(encoding, bytes, position, scanned, limit).0 == Ok::<
            u64,
            PositionError,
        >(offset) ==> is_server_place(encoding, bytes, position, offset as int),
        is_server_place(encoding, bytes, position, offset as int) && scanned + offset <= limit
            ==> position::position_to_byte(encoding, bytes, position, scanned, limit).0 == Ok::<
            u64,
            PositionError,
        >(offset),
{
    let starts = line_index::line_starts(bytes);
    let line = position.line as int;
    line_index::lemma_line_starts(bytes, bytes.len() as int);
    if position::position_to_byte(encoding, bytes, position, scanned, limit).0 == Ok::<
        u64,
        PositionError,
    >(offset) {
        let start = starts[line] as int;
        let end = line_index::content_end(bytes, line);
        position::lemma_content_end_is_boundary(bytes, line);
        position::lemma_boundary_reaching(
            encoding,
            bytes,
            start,
            end,
            start,
            position.character as int,
        );
        lemma_content_place(bytes, line, offset as int);
        lemma_width(encoding, bytes, start, offset as int);
        assert(is_line_prefix(bytes, start, offset as int));
    }
    if is_server_place(encoding, bytes, position, offset as int) {
        lemma_place_line(bytes, offset as int);
        let start = starts[line] as int;
        let end = line_index::content_end(bytes, line);
        lemma_content_place(bytes, line, offset as int);
        let other = choose|other: int| #[trigger]
            is_line_prefix(bytes, other, offset as int) && (width(
                encoding,
                bytes,
                other,
                offset as int,
            ) == position.character || (ends_content(bytes, offset as int) && width(
                encoding,
                bytes,
                other,
                offset as int,
            ) < position.character));
        lemma_line_prefix_is_unique(bytes, start, other, offset as int);
        lemma_width(encoding, bytes, start, offset as int);
        position::lemma_content_end_is_boundary(bytes, line);
        position::lemma_units_bound(
            SupportedPositionEncoding::Utf32,
            bytes,
            start,
            offset as int,
        );
        if width(encoding, bytes, start, offset as int) == position.character {
            position::lemma_stop_at_boundary(encoding, bytes, start, end, offset as int);
        } else if scanned + offset <= limit {
            assert(offset == end);
            position::law_oversized_characters_clamp(encoding, bytes, position, scanned, limit);
        }
    }
}

/// An offset converts to the LSP position whose place it is, with as many code
/// units before it as the position's character says.
pub proof fn law_offsets_have_exact_positions(
    encoding: SupportedPositionEncoding,
    bytes: Seq<u8>,
    offset: u64,
    position: Position,
    scanned: nat,
    limit: nat,
)
    requires
        bytes.len() <= u64::MAX,
        position::byte_to_position(encoding, bytes, offset as int, scanned, limit).0 == Ok::<
            Position,
            PositionError,
        >(position),
    ensures
        is_place(bytes, offset as int),
        breaks(bytes, offset as int) == position.line,
        exists|start: int| #[trigger]
            is_line_prefix(bytes, start, offset as int) && width(
                encoding,
                bytes,
                start,
                offset as int,
            ) == position.character,
{
    let held = line_index::line_of(bytes, offset as int);
    let start = line_index::line_starts(bytes)[held] as int;
    position::lemma_line_facts(bytes, offset as int);
    lemma_content_place(bytes, held, offset as int);
    lemma_width(encoding, bytes, start, offset as int);
    assert(is_line_prefix(bytes, start, offset as int));
}

} // verus!
