//! Exact conversion between LSP coordinates and immutable snapshot bytes.

use vstd::prelude::*;

use crate::line_index;
use crate::line_index::LineIndex;
use crate::text;

verus! {

/// Default maximum number of Unicode scalar values examined by one converter.
pub const DEFAULT_MAXIMUM_CODE_POINTS_SCANNED: u64 = 16 * 1024 * 1024;

/// A zero-based LSP position.
#[derive(Clone, Copy, Debug, PartialEq, Eq, Structural)]
pub struct Position {
    /// Zero-based line.
    pub line: u32,
    /// Zero-based character, in units of the negotiated encoding.
    pub character: u32,
}

/// A half-open LSP range.
#[derive(Clone, Copy, Debug, PartialEq, Eq, Structural)]
pub struct Range {
    /// First position.
    pub start: Position,
    /// Position after the last one.
    pub end: Position,
}

/// A half-open range of snapshot bytes.
#[derive(Clone, Copy, Debug, PartialEq, Eq, Structural)]
pub struct ByteRange {
    /// First byte.
    pub start: u64,
    /// Byte after the last one.
    pub end: u64,
}

/// A position encoding that LSP servers can negotiate.
#[derive(Clone, Copy, Debug, PartialEq, Eq, Structural)]
pub enum SupportedPositionEncoding {
    /// Characters count UTF-8 bytes.
    Utf8,
    /// Characters count UTF-16 code units.
    Utf16,
    /// Characters count Unicode scalar values.
    Utf32,
}

/// Cumulative work limits for position conversion over one snapshot.
#[derive(Clone, Copy, Debug, PartialEq, Eq, Structural)]
pub struct PositionLimits {
    /// Maximum Unicode scalar values that conversions may examine.
    ///
    /// UTF-8 conversions that can validate a byte boundary in constant time do
    /// not consume this budget. UTF-16, UTF-32, and user scalar-column scans
    /// consume one unit for each examined scalar value.
    pub maximum_code_points_scanned: u64,
}

impl Default for PositionLimits {
    fn default() -> (limits: Self)
        ensures
            limits.maximum_code_points_scanned == DEFAULT_MAXIMUM_CODE_POINTS_SCANNED,
    {
        PositionLimits { maximum_code_points_scanned: DEFAULT_MAXIMUM_CODE_POINTS_SCANNED }
    }
}

/// A non-sensitive reason a snapshot position could not be converted.
#[derive(Clone, Copy, Debug, PartialEq, Eq, Structural)]
pub enum PositionError {
    /// The line index does not describe a snapshot with this byte length.
    InvalidSnapshotIndex,
    /// An LSP position refers to a line that does not exist.
    NonexistentLine,
    /// An LSP character offset splits a UTF-8 code point or UTF-16 surrogate pair.
    CharacterSplitsCodeUnit,
    /// An LSP range is reversed, empty, or otherwise outside the snapshot.
    InvalidRange,
    /// A user byte, line, or scalar-column coordinate is outside the snapshot.
    InvalidUserPosition,
    /// A byte offset splits a UTF-8 code point or lies inside a line terminator.
    ByteNotRepresentable,
    /// Cumulative Unicode scanning exceeded the configured work limit.
    WorkLimitExceeded,
}

/// The stable text of a position error.
pub open spec fn position_error_text(error: PositionError) -> Seq<char> {
    match error {
        PositionError::InvalidSnapshotIndex =>
            "line index does not describe the immutable snapshot"@,
        PositionError::NonexistentLine => "position refers to a nonexistent line"@,
        PositionError::CharacterSplitsCodeUnit =>
            "position splits a UTF-8 code point or UTF-16 surrogate pair"@,
        PositionError::InvalidRange => "range is reversed, empty, or outside the snapshot"@,
        PositionError::InvalidUserPosition => "user position is outside the immutable snapshot"@,
        PositionError::ByteNotRepresentable =>
            "byte offset is not representable as an LSP position"@,
        PositionError::WorkLimitExceeded => "position conversion work limit exceeded"@,
    }
}

impl PositionError {
    /// Returns the stable text of this error.
    pub fn message(&self) -> (text: &'static str)
        ensures
            text@ == position_error_text(*self),
    {
        match self {
            PositionError::InvalidSnapshotIndex =>
                "line index does not describe the immutable snapshot",
            PositionError::NonexistentLine => "position refers to a nonexistent line",
            PositionError::CharacterSplitsCodeUnit =>
                "position splits a UTF-8 code point or UTF-16 surrogate pair",
            PositionError::InvalidRange => "range is reversed, empty, or outside the snapshot",
            PositionError::InvalidUserPosition => "user position is outside the immutable snapshot",
            PositionError::ByteNotRepresentable =>
                "byte offset is not representable as an LSP position",
            PositionError::WorkLimitExceeded => "position conversion work limit exceeded",
        }
    }
}

/// Whether a byte continues a UTF-8 sequence.
pub open spec fn is_continuation(byte: u8) -> bool {
    128 <= byte < 192
}

/// Whether an offset does not split a scalar value.
pub open spec fn is_boundary(bytes: Seq<u8>, offset: int) -> bool {
    offset == bytes.len() || (0 <= offset < bytes.len() && !is_continuation(bytes[offset]))
}

/// The code units that a byte of UTF-8 text accounts for: each byte in UTF-8,
/// and otherwise each leading byte, twice where it begins a scalar value
/// outside the Basic Multilingual Plane in UTF-16.
pub open spec fn byte_units(encoding: SupportedPositionEncoding, byte: u8) -> nat {
    match encoding {
        SupportedPositionEncoding::Utf8 => 1,
        SupportedPositionEncoding::Utf16 => if is_continuation(byte) {
            0
        } else if byte >= 240 {
            2
        } else {
            1
        },
        SupportedPositionEncoding::Utf32 => if is_continuation(byte) {
            0
        } else {
            1
        },
    }
}

/// The code units of the text between two offsets.
pub open spec fn units(
    encoding: SupportedPositionEncoding,
    bytes: Seq<u8>,
    from: int,
    to: int,
) -> nat
    decreases to - from,
{
    if to <= from {
        0
    } else {
        units(encoding, bytes, from, to - 1) + byte_units(encoding, bytes[to - 1])
    }
}

/// The scalar values of the text between two offsets.
pub open spec fn scalars(bytes: Seq<u8>, from: int, to: int) -> nat {
    units(SupportedPositionEncoding::Utf32, bytes, from, to)
}

/// The first boundary at or after `offset`, within content that spans `from`
/// to `end`, that has at least `target` code units before it; `end` where
/// there is none.
pub open spec fn boundary_reaching(
    encoding: SupportedPositionEncoding,
    bytes: Seq<u8>,
    from: int,
    end: int,
    offset: int,
    target: int,
) -> int
    decreases end - offset,
{
    if offset >= end {
        end
    } else if is_boundary(bytes, offset) && units(encoding, bytes, from, offset) >= target {
        offset
    } else {
        boundary_reaching(encoding, bytes, from, end, offset + 1, target)
    }
}

/// A work budget after examining scalar values: the new count, or `None` when
/// the limit stops the scan.
pub open spec fn charged(scanned: nat, limit: nat, work: nat) -> Option<nat> {
    if scanned + work > limit {
        None
    } else {
        Some(scanned + work)
    }
}

/// The scalar values that converting within one line examines.
pub open spec fn line_work(
    encoding: SupportedPositionEncoding,
    bytes: Seq<u8>,
    from: int,
    to: int,
) -> nat {
    if encoding == SupportedPositionEncoding::Utf8 {
        0
    } else {
        scalars(bytes, from, to)
    }
}

/// The byte offset of an LSP position, and the scalar values examined in all.
///
/// A character past the content of its line stands for the content end.
pub open spec fn position_to_byte(
    encoding: SupportedPositionEncoding,
    bytes: Seq<u8>,
    position: Position,
    scanned: nat,
    limit: nat,
) -> (Result<u64, PositionError>, nat) {
    let line = position.line as int;
    if line >= line_index::line_starts(bytes).len() {
        (Err(PositionError::NonexistentLine), scanned)
    } else {
        let start = line_index::line_starts(bytes)[line] as int;
        let end = line_index::content_end(bytes, line);
        let stop = boundary_reaching(
            encoding,
            bytes,
            start,
            end,
            start,
            position.character as int,
        );
        match charged(scanned, limit, line_work(encoding, bytes, start, stop)) {
            None => (Err(PositionError::WorkLimitExceeded), limit),
            Some(total) => if units(encoding, bytes, start, stop) > position.character {
                (Err(PositionError::CharacterSplitsCodeUnit), total)
            } else {
                (Ok(stop as u64), total)
            },
        }
    }
}

/// The byte range of an LSP range, and the scalar values examined in all.
pub open spec fn range_to_bytes(
    encoding: SupportedPositionEncoding,
    bytes: Seq<u8>,
    range: Range,
    scanned: nat,
    limit: nat,
) -> (Result<ByteRange, PositionError>, nat) {
    match position_to_byte(encoding, bytes, range.start, scanned, limit) {
        (Err(error), total) => (Err(error), total),
        (Ok(start), total) => match position_to_byte(encoding, bytes, range.end, total, limit) {
            (Err(error), total) => (Err(error), total),
            (Ok(end), total) => if start >= end {
                (Err(PositionError::InvalidRange), total)
            } else {
                (Ok(ByteRange { start, end }), total)
            },
        },
    }
}

/// Whether an offset is a boundary of a snapshot that has lines, on a line
/// whose zero-based number LSP can express.
pub open spec fn is_on_line(bytes: Seq<u8>, offset: int) -> bool {
    &&& 0 <= offset <= bytes.len()
    &&& is_boundary(bytes, offset)
    &&& bytes.len() > 0
    &&& line_index::line_of(bytes, offset) <= u32::MAX
}

/// The LSP position of a byte offset, and the scalar values examined in all.
pub open spec fn byte_to_position(
    encoding: SupportedPositionEncoding,
    bytes: Seq<u8>,
    offset: int,
    scanned: nat,
    limit: nat,
) -> (Result<Position, PositionError>, nat) {
    let line = line_index::line_of(bytes, offset);
    let start = line_index::line_starts(bytes)[line] as int;
    if !is_on_line(bytes, offset) || offset > line_index::content_end(bytes, line) {
        (Err(PositionError::ByteNotRepresentable), scanned)
    } else {
        match charged(scanned, limit, line_work(encoding, bytes, start, offset)) {
            None => (Err(PositionError::WorkLimitExceeded), limit),
            Some(total) => {
                let character = units(encoding, bytes, start, offset);
                if character > u32::MAX {
                    (Err(PositionError::ByteNotRepresentable), total)
                } else {
                    (Ok(Position { line: line as u32, character: character as u32 }), total)
                }
            },
        }
    }
}

/// The byte offset of a one-based line and scalar column, and the scalar
/// values examined in all. Nothing is clamped.
pub open spec fn user_to_byte(
    bytes: Seq<u8>,
    line: u64,
    column: u64,
    scanned: nat,
    limit: nat,
) -> (Result<u64, PositionError>, nat) {
    if line == 0 || column == 0 || line - 1 > u32::MAX || line > line_index::line_starts(bytes).len() {
        (Err(PositionError::InvalidUserPosition), scanned)
    } else {
        let start = line_index::line_starts(bytes)[line - 1] as int;
        let end = line_index::content_end(bytes, line - 1);
        let stop = boundary_reaching(
            SupportedPositionEncoding::Utf32,
            bytes,
            start,
            end,
            start,
            column - 1,
        );
        match charged(scanned, limit, scalars(bytes, start, stop)) {
            None => (Err(PositionError::WorkLimitExceeded), limit),
            Some(total) => if scalars(bytes, start, stop) != column - 1 {
                (Err(PositionError::InvalidUserPosition), total)
            } else {
                (Ok(stop as u64), total)
            },
        }
    }
}

/// The one-based line of a byte offset, with its one-based scalar column where
/// it has one, and the scalar values examined in all.
pub open spec fn byte_to_user(bytes: Seq<u8>, offset: int, scanned: nat, limit: nat) -> (
    Result<(u64, Option<u64>), PositionError>,
    nat,
) {
    let line = line_index::line_of(bytes, offset);
    let start = line_index::line_starts(bytes)[line] as int;
    if !is_on_line(bytes, offset) {
        (Err(PositionError::ByteNotRepresentable), scanned)
    } else if offset > line_index::content_end(bytes, line) {
        (Ok(((line + 1) as u64, None)), scanned)
    } else {
        match charged(scanned, limit, scalars(bytes, start, offset)) {
            None => (Err(PositionError::WorkLimitExceeded), limit),
            Some(total) => {
                let column = scalars(bytes, start, offset) + 1;
                if column > u64::MAX {
                    (Err(PositionError::WorkLimitExceeded), total)
                } else {
                    (Ok(((line + 1) as u64, Some(column as u64))), total)
                }
            },
        }
    }
}

/// A count that stops growing at `u64::MAX`.
spec fn capped(count: nat) -> nat {
    if count > u64::MAX {
        u64::MAX as nat
    } else {
        count
    }
}

/// Code units of adjacent spans add up.
pub proof fn lemma_units_split(
    encoding: SupportedPositionEncoding,
    bytes: Seq<u8>,
    from: int,
    middle: int,
    to: int,
)
    requires
        from <= middle <= to,
    ensures
        units(encoding, bytes, from, to) == units(encoding, bytes, from, middle) + units(
            encoding,
            bytes,
            middle,
            to,
        ),
    decreases to - middle,
{
    if middle < to {
        lemma_units_split(encoding, bytes, from, middle, to - 1);
    }
}

/// A span has no more code units than twice its bytes.
pub proof fn lemma_units_bound(
    encoding: SupportedPositionEncoding,
    bytes: Seq<u8>,
    from: int,
    to: int,
)
    requires
        from <= to,
    ensures
        units(encoding, bytes, from, to) <= 2 * (to - from),
        encoding == SupportedPositionEncoding::Utf8 ==> units(encoding, bytes, from, to) == to
            - from,
        encoding == SupportedPositionEncoding::Utf32 ==> units(encoding, bytes, from, to) <= to
            - from,
    decreases to - from,
{
    if from < to {
        lemma_units_bound(encoding, bytes, from, to - 1);
    }
}

/// A boundary that reaches a target lies between where the search began and
/// the content end, with no nearer one.
pub proof fn lemma_boundary_reaching(
    encoding: SupportedPositionEncoding,
    bytes: Seq<u8>,
    from: int,
    end: int,
    offset: int,
    target: int,
)
    requires
        from <= offset <= end,
    ensures
        ({
            let stop = boundary_reaching(encoding, bytes, from, end, offset, target);
            &&& offset <= stop <= end
            &&& stop < end ==> is_boundary(bytes, stop) && units(encoding, bytes, from, stop)
                >= target
            &&& forall|i: int|
                offset <= i < stop ==> !(#[trigger] is_boundary(bytes, i) && units(
                    encoding,
                    bytes,
                    from,
                    i,
                ) >= target)
        }),
    decreases end - offset,
{
    if offset < end && !(is_boundary(bytes, offset) && units(encoding, bytes, from, offset)
        >= target) {
        lemma_boundary_reaching(encoding, bytes, from, end, offset + 1, target);
    }
}

/// Skipping over positions that are no stop does not change the stop.
proof fn lemma_boundary_reaching_skips(
    encoding: SupportedPositionEncoding,
    bytes: Seq<u8>,
    from: int,
    end: int,
    offset: int,
    later: int,
    target: int,
)
    requires
        from <= offset <= later <= end,
        forall|i: int|
            offset <= i < later ==> !(#[trigger] is_boundary(bytes, i) && units(
                encoding,
                bytes,
                from,
                i,
            ) >= target),
    ensures
        boundary_reaching(encoding, bytes, from, end, offset, target) == boundary_reaching(
            encoding,
            bytes,
            from,
            end,
            later,
            target,
        ),
    decreases later - offset,
{
    if offset < later {
        assert(!(is_boundary(bytes, offset) && units(encoding, bytes, from, offset) >= target));
        lemma_boundary_reaching_skips(encoding, bytes, from, end, offset + 1, later, target);
    }
}

/// Once a target is reached, only continuation bytes separate the stop.
proof fn lemma_boundary_reaching_settles(
    encoding: SupportedPositionEncoding,
    bytes: Seq<u8>,
    from: int,
    end: int,
    offset: int,
    target: int,
)
    requires
        0 <= from <= offset <= end <= bytes.len(),
        encoding != SupportedPositionEncoding::Utf8,
        units(encoding, bytes, from, offset) >= target,
    ensures
        ({
            let stop = boundary_reaching(encoding, bytes, from, end, offset, target);
            &&& units(encoding, bytes, from, stop) == units(encoding, bytes, from, offset)
            &&& scalars(bytes, from, stop) == scalars(bytes, from, offset)
        }),
    decreases end - offset,
{
    if offset < end && !is_boundary(bytes, offset) {
        assert(units(encoding, bytes, from, offset + 1) == units(encoding, bytes, from, offset));
        assert(scalars(bytes, from, offset + 1) == scalars(bytes, from, offset));
        lemma_boundary_reaching_settles(encoding, bytes, from, end, offset + 1, target);
    }
}

/// Converts positions against one immutable UTF-8 snapshot and its line index.
///
/// The supplied [`LineIndex`] must have been built from `text.as_bytes()`.
/// Conversion never reads from the filesystem and never changes the snapshot.
/// Work accounting is cumulative so a caller can use one converter for all
/// symbols returned by a server.
pub struct PositionConverter<'a> {
    text: &'a str,
    line_index: &'a LineIndex,
    encoding: SupportedPositionEncoding,
    limits: PositionLimits,
    code_points_scanned: u64,
}

/// What a converter converts against.
pub struct Snapshot {
    /// The snapshot's UTF-8 bytes.
    pub bytes: Seq<u8>,
    /// The negotiated encoding.
    pub encoding: SupportedPositionEncoding,
    /// The greatest number of scalar values to examine.
    pub limit: nat,
}

impl<'a> PositionConverter<'a> {
    /// What this converter converts against.
    pub closed spec fn snapshot(&self) -> Snapshot {
        Snapshot {
            bytes: text::utf8(self.text@),
            encoding: self.encoding,
            limit: self.limits.maximum_code_points_scanned as nat,
        }
    }

    /// The scalar values examined so far.
    pub closed spec fn scanned(&self) -> nat {
        self.code_points_scanned as nat
    }

    /// Whether the index describes the text and the work is within its limit.
    pub closed spec fn wf(&self) -> bool {
        &&& self.line_index.describes(text::utf8(self.text@))
        &&& self.code_points_scanned <= self.limits.maximum_code_points_scanned
    }

    /// A well-formed converter has examined no more than its limit, and its
    /// snapshot's length is a 64-bit number.
    pub proof fn lemma_wf(&self)
        requires
            self.wf(),
        ensures
            self.scanned() <= self.snapshot().limit,
            self.snapshot().bytes.len() <= u64::MAX,
            self.snapshot().limit <= u64::MAX,
    {
    }

    /// Creates a converter after checking the index's snapshot byte length.
    ///
    /// # Errors
    ///
    /// Returns [`PositionError::InvalidSnapshotIndex`] when `line_index` was
    /// built for a snapshot with a different byte length.
    pub fn new(
        text: &'a str,
        line_index: &'a LineIndex,
        encoding: SupportedPositionEncoding,
        limits: PositionLimits,
    ) -> (converter: Result<Self, PositionError>)
        requires
            line_index.snapshot_length() == text::utf8(text@).len() ==> line_index.describes(
                text::utf8(text@),
            ),
        ensures
            match converter {
                Ok(converter) => {
                    &&& line_index.snapshot_length() == text::utf8(text@).len()
                    &&& converter.wf()
                    &&& converter.scanned() == 0
                    &&& converter.snapshot() == (Snapshot {
                        bytes: text::utf8(text@),
                        encoding,
                        limit: limits.maximum_code_points_scanned as nat,
                    })
                },
                Err(error) => {
                    &&& line_index.snapshot_length() != text::utf8(text@).len()
                    &&& error == PositionError::InvalidSnapshotIndex
                },
            },
    {
        if text.as_bytes().len() as u64 != line_index.byte_length() {
            return Err(PositionError::InvalidSnapshotIndex);
        }
        Ok(PositionConverter { text, line_index, encoding, limits, code_points_scanned: 0 })
    }

    /// Returns the negotiated encoding used by this converter.
    pub fn encoding(&self) -> (encoding: SupportedPositionEncoding)
        ensures
            encoding == self.snapshot().encoding,
    {
        self.encoding
    }

    /// Returns the cumulative Unicode scalar values examined so far.
    pub fn code_points_scanned(&self) -> (scanned: u64)
        ensures
            scanned == self.scanned(),
    {
        self.code_points_scanned
    }

    /// Examines one scalar value, if the budget allows it.
    fn charge_code_point(&mut self) -> (outcome: Result<(), PositionError>)
        requires
            old(self).wf(),
        ensures
            final(self).wf(),
            final(self).snapshot() == old(self).snapshot(),
            match outcome {
                Ok(()) => final(self).scanned() == old(self).scanned() + 1,
                Err(error) => error == PositionError::WorkLimitExceeded && old(self).scanned()
                    == old(self).snapshot().limit && final(self).scanned() == old(self).scanned(),
            },
    {
        let next: u64 = match self.code_points_scanned.checked_add(1) {
            Some(next) => next,
            None => return Err(PositionError::WorkLimitExceeded),
        };
        if next > self.limits.maximum_code_points_scanned {
            return Err(PositionError::WorkLimitExceeded);
        }
        self.code_points_scanned = next;
        Ok(())
    }

    /// Returns the start and content end of an existing zero-based line.
    fn line_bounds(&self, line: u64) -> (bounds: Option<(usize, usize)>)
        requires
            self.wf(),
        ensures
            match bounds {
                Some((start, end)) => {
                    &&& line < line_index::line_starts(self.snapshot().bytes).len()
                    &&& start == line_index::line_starts(self.snapshot().bytes)[line as int]
                    &&& end == line_index::content_end(self.snapshot().bytes, line as int)
                    &&& start <= end <= self.snapshot().bytes.len()
                },
                None => line >= line_index::line_starts(self.snapshot().bytes).len(),
            },
    {
        let bytes: &[u8] = self.text.as_bytes();
        let total: usize = bytes.len();
        proof {
            line_index::lemma_line_starts(bytes@, bytes@.len() as int);
        }
        if line >= self.line_index.line_count() {
            return None;
        }
        match (self.line_index.line_start(line + 1), self.line_index.line_end(line + 1)) {
            (Some(start), Some(end)) => {
                proof {
                    assert(end == line_index::physical_end(bytes@, line as int));
                    assert(start < end <= total);
                }
                let start: usize = start as usize;
                let end: usize = end as usize;
                let terminator: usize = if end - start >= 2 && bytes[end - 2] == 13 && bytes[end
                    - 1] == 10 {
                    2
                } else if end - start >= 1 && (bytes[end - 1] == 13 || bytes[end - 1] == 10) {
                    1
                } else {
                    0
                };
                assert(terminator == line_index::terminator_length(bytes@, start as int, end as int));
                Some((start, end - terminator))
            },
            _ => None,
        }
    }

    /// Returns whether an offset does not split a scalar value.
    fn at_boundary(&self, offset: usize) -> (boundary: bool)
        requires
            offset <= self.snapshot().bytes.len(),
        ensures
            boundary == is_boundary(self.snapshot().bytes, offset as int),
    {
        let bytes: &[u8] = self.text.as_bytes();
        offset == bytes.len() || bytes[offset] < 128 || bytes[offset] >= 192
    }

    /// Scans content for the boundary that has `target` code units before it.
    ///
    /// Returns the first boundary that reaches the target with the code units
    /// before it.
    fn scan_to_units(
        &mut self,
        encoding: SupportedPositionEncoding,
        start: usize,
        end: usize,
        target: u64,
    ) -> (found: Result<(usize, u64), PositionError>)
        requires
            old(self).wf(),
            start <= end <= old(self).snapshot().bytes.len(),
            encoding != SupportedPositionEncoding::Utf8,
            encoding == SupportedPositionEncoding::Utf16 ==> target <= u32::MAX,
        ensures
            final(self).wf(),
            final(self).snapshot() == old(self).snapshot(),
            ({
                let bytes = old(self).snapshot().bytes;
                let stop = boundary_reaching(
                    encoding,
                    bytes,
                    start as int,
                    end as int,
                    start as int,
                    target as int,
                );
                match charged(
                    old(self).scanned(),
                    old(self).snapshot().limit,
                    scalars(bytes, start as int, stop),
                ) {
                    None => found == Err::<(usize, u64), PositionError>(
                        PositionError::WorkLimitExceeded,
                    ) && final(self).scanned() == old(self).snapshot().limit,
                    Some(total) => {
                        &&& found matches Ok(found)
                        &&& found.1 == units(encoding, bytes, start as int, stop)
                        &&& found.1 <= target ==> found.0 == stop
                        &&& final(self).scanned() == total
                    },
                }
            }),
    {
        let bytes: &[u8] = self.text.as_bytes();
        let ghost limit = self.snapshot().limit;
        let ghost before = self.scanned();
        let ghost stop = boundary_reaching(
            encoding,
            bytes@,
            start as int,
            end as int,
            start as int,
            target as int,
        );
        let mut index: usize = start;
        let mut count: u64 = 0;
        while index < end
            invariant
                self.wf(),
                self.snapshot() == old(self).snapshot(),
                bytes@ == self.snapshot().bytes,
                limit == self.snapshot().limit,
                before == old(self).scanned(),
                start <= index <= end <= bytes@.len(),
                encoding != SupportedPositionEncoding::Utf8,
                encoding == SupportedPositionEncoding::Utf16 ==> target <= u32::MAX,
                stop == boundary_reaching(
                    encoding,
                    bytes@,
                    start as int,
                    end as int,
                    start as int,
                    target as int,
                ),
                stop == boundary_reaching(
                    encoding,
                    bytes@,
                    start as int,
                    end as int,
                    index as int,
                    target as int,
                ),
                count == units(encoding, bytes@, start as int, index as int),
                count <= target,
                self.scanned() == before + scalars(bytes@, start as int, index as int),
            decreases end - index,
        {
            let byte: u8 = bytes[index];
            proof {
                lemma_units_bound(encoding, bytes@, start as int, index as int);
                lemma_boundary_reaching(
                    encoding,
                    bytes@,
                    start as int,
                    end as int,
                    index as int,
                    target as int,
                );
            }
            if byte < 128 || byte >= 192 {
                if count == target {
                    return Ok((index, count));
                }
                proof {
                    assert(stop > index);
                    lemma_units_split(
                        SupportedPositionEncoding::Utf32,
                        bytes@,
                        start as int,
                        index + 1,
                        stop,
                    );
                }
                match self.charge_code_point() {
                    Ok(()) => {},
                    Err(error) => return Err(error),
                }
                let width: u64 = match encoding {
                    SupportedPositionEncoding::Utf16 => if byte >= 240 {
                        2
                    } else {
                        1
                    },
                    _ => 1,
                };
                let next: u64 = count + width;
                if next > target {
                    proof {
                        lemma_boundary_reaching_settles(
                            encoding,
                            bytes@,
                            start as int,
                            end as int,
                            index + 1,
                            target as int,
                        );
                    }
                    return Ok((index, next));
                }
                count = next;
            }
            index = index + 1;
        }
        Ok((end, count))
    }

    /// Counts the code units between two offsets of one line, up to `u64::MAX`.
    fn count_units(&mut self, encoding: SupportedPositionEncoding, start: usize, end: usize) -> (
        counted: Result<u64, PositionError>)
        requires
            old(self).wf(),
            start <= end <= old(self).snapshot().bytes.len(),
            encoding != SupportedPositionEncoding::Utf8,
        ensures
            final(self).wf(),
            final(self).snapshot() == old(self).snapshot(),
            ({
                let bytes = old(self).snapshot().bytes;
                match charged(
                    old(self).scanned(),
                    old(self).snapshot().limit,
                    scalars(bytes, start as int, end as int),
                ) {
                    None => counted == Err::<u64, PositionError>(PositionError::WorkLimitExceeded)
                        && final(self).scanned() == old(self).snapshot().limit,
                    Some(total) => counted matches Ok(counted) && counted == capped(
                        units(encoding, bytes, start as int, end as int),
                    ) && final(self).scanned() == total,
                }
            }),
    {
        let bytes: &[u8] = self.text.as_bytes();
        let ghost before = self.scanned();
        let mut index: usize = start;
        let mut count: u64 = 0;
        proof {
            self.lemma_wf();
        }
        while index < end
            invariant
                self.wf(),
                self.snapshot() == old(self).snapshot(),
                bytes@ == self.snapshot().bytes,
                self.snapshot().limit <= u64::MAX,
                before == old(self).scanned(),
                start <= index <= end <= bytes@.len(),
                encoding != SupportedPositionEncoding::Utf8,
                count == capped(units(encoding, bytes@, start as int, index as int)),
                self.scanned() == before + scalars(bytes@, start as int, index as int),
            decreases end - index,
        {
            let byte: u8 = bytes[index];
            if byte < 128 || byte >= 192 {
                proof {
                    lemma_units_split(
                        SupportedPositionEncoding::Utf32,
                        bytes@,
                        start as int,
                        index + 1,
                        end as int,
                    );
                }
                match self.charge_code_point() {
                    Ok(()) => {},
                    Err(error) => return Err(error),
                }
                let width: u64 = match encoding {
                    SupportedPositionEncoding::Utf16 => if byte >= 240 {
                        2
                    } else {
                        1
                    },
                    _ => 1,
                };
                count = count.saturating_add(width);
            }
            index = index + 1;
        }
        Ok(count)
    }

    /// Converts a server position to an exact snapshot byte offset.
    ///
    /// An oversized character on an existing line is normalized to that
    /// line's content end. CR and LF terminator bytes never contribute to the
    /// character count.
    ///
    /// # Errors
    ///
    /// Returns a typed error for a nonexistent line, a split code-unit
    /// boundary, or exhausted conversion work.
    pub fn lsp_position_to_byte(&mut self, position: Position) -> (offset: Result<
        u64,
        PositionError,
    >)
        requires
            old(self).wf(),
        ensures
            final(self).wf(),
            final(self).snapshot() == old(self).snapshot(),
            (offset, final(self).scanned()) == position_to_byte(
                old(self).snapshot().encoding,
                old(self).snapshot().bytes,
                position,
                old(self).scanned(),
                old(self).snapshot().limit,
            ),
    {
        let ghost bytes = self.snapshot().bytes;
        proof {
            self.lemma_wf();
        }
        let (start, end) = match self.line_bounds(position.line as u64) {
            Some(bounds) => bounds,
            None => return Err(PositionError::NonexistentLine),
        };
        let character: u64 = position.character as u64;
        let ghost stop = boundary_reaching(
            self.encoding,
            bytes,
            start as int,
            end as int,
            start as int,
            character as int,
        );
        proof {
            lemma_boundary_reaching(
                self.encoding,
                bytes,
                start as int,
                end as int,
                start as int,
                character as int,
            );
            lemma_units_bound(self.encoding, bytes, start as int, stop);
        }
        match self.encoding {
            SupportedPositionEncoding::Utf8 => {
                if character >= (end - start) as u64 {
                    proof {
                        lemma_utf8_stop(bytes, start as int, end as int, end as int, character as int);
                    }
                    return Ok(end as u64);
                }
                let requested: usize = start + character as usize;
                if !self.at_boundary(requested) {
                    proof {
                        lemma_utf8_stop(
                            bytes,
                            start as int,
                            end as int,
                            requested as int,
                            character as int,
                        );
                    }
                    return Err(PositionError::CharacterSplitsCodeUnit);
                }
                proof {
                    lemma_utf8_stop(
                        bytes,
                        start as int,
                        end as int,
                        requested as int,
                        character as int,
                    );
                    lemma_units_bound(self.encoding, bytes, start as int, requested as int);
                }
                Ok(requested as u64)
            },
            encoding => match self.scan_to_units(encoding, start, end, character) {
                Err(error) => Err(error),
                Ok((offset, count)) => if count > character {
                    Err(PositionError::CharacterSplitsCodeUnit)
                } else {
                    Ok(offset as u64)
                },
            },
        }
    }

    /// Converts and validates a nonempty server range.
    ///
    /// Both endpoints use LSP oversized-character normalization before the
    /// resulting byte range is checked for ordering and non-emptiness.
    ///
    /// # Errors
    ///
    /// Returns [`PositionError::InvalidRange`] when the normalized range is
    /// empty or reversed. Endpoint conversion errors are returned unchanged.
    pub fn lsp_range_to_byte_range(&mut self, range: Range) -> (converted: Result<
        ByteRange,
        PositionError,
    >)
        requires
            old(self).wf(),
        ensures
            final(self).wf(),
            final(self).snapshot() == old(self).snapshot(),
            (converted, final(self).scanned()) == range_to_bytes(
                old(self).snapshot().encoding,
                old(self).snapshot().bytes,
                range,
                old(self).scanned(),
                old(self).snapshot().limit,
            ),
    {
        let start: u64 = match self.lsp_position_to_byte(range.start) {
            Ok(start) => start,
            Err(error) => return Err(error),
        };
        let end: u64 = match self.lsp_position_to_byte(range.end) {
            Ok(end) => end,
            Err(error) => return Err(error),
        };
        if start >= end {
            return Err(PositionError::InvalidRange);
        }
        Ok(ByteRange { start, end })
    }

    /// Returns the line that holds a boundary offset, with its start and
    /// content end.
    fn line_for_byte(&self, offset: u64) -> (found: Option<(u64, usize, usize)>)
        requires
            self.wf(),
        ensures
            match found {
                Some((line, start, end)) => {
                    &&& is_on_line(self.snapshot().bytes, offset as int)
                    &&& line == line_index::line_of(self.snapshot().bytes, offset as int)
                    &&& line < line_index::line_starts(self.snapshot().bytes).len()
                    &&& start == line_index::line_starts(self.snapshot().bytes)[line as int]
                    &&& end == line_index::content_end(self.snapshot().bytes, line as int)
                    &&& start <= end <= self.snapshot().bytes.len()
                    &&& start <= offset
                },
                None => !is_on_line(self.snapshot().bytes, offset as int),
            },
    {
        let bytes: &[u8] = self.text.as_bytes();
        let total: usize = bytes.len();
        if total == 0 || offset > total as u64 || !self.at_boundary(offset as usize) {
            return None;
        }
        let line: u64 = self.line_index.line_holding(offset, Ghost(bytes@));
        proof {
            line_index::lemma_line_starts(bytes@, bytes@.len() as int);
            line_index::lemma_line_of_end(bytes@);
            if offset < bytes@.len() {
                line_index::lemma_line_of(bytes@, offset as int);
            }
        }
        if line > u32::MAX as u64 {
            return None;
        }
        match self.line_bounds(line) {
            Some((start, end)) => Some((line, start, end)),
            None => None,
        }
    }

    /// Converts a representable snapshot byte offset to an LSP position.
    ///
    /// Content starts and ends are representable. Offsets splitting a UTF-8
    /// code point, offsets inside CR/LF terminators, and EOF after a final
    /// terminator are not representable because LSP has no corresponding
    /// physical-line character position.
    ///
    /// # Errors
    ///
    /// Returns [`PositionError::ByteNotRepresentable`] when `byte_offset` has
    /// no exact LSP representation, or a work-limit error while counting units.
    pub fn byte_to_lsp_position(&mut self, byte_offset: u64) -> (position: Result<
        Position,
        PositionError,
    >)
        requires
            old(self).wf(),
        ensures
            final(self).wf(),
            final(self).snapshot() == old(self).snapshot(),
            (position, final(self).scanned()) == byte_to_position(
                old(self).snapshot().encoding,
                old(self).snapshot().bytes,
                byte_offset as int,
                old(self).scanned(),
                old(self).snapshot().limit,
            ),
    {
        proof {
            self.lemma_wf();
        }
        let (line, start, end) = match self.line_for_byte(byte_offset) {
            Some(found) => found,
            None => return Err(PositionError::ByteNotRepresentable),
        };
        if byte_offset > end as u64 {
            return Err(PositionError::ByteNotRepresentable);
        }
        let offset: usize = byte_offset as usize;
        proof {
            lemma_units_bound(self.encoding, self.snapshot().bytes, start as int, offset as int);
        }
        let character: u64 = match self.encoding {
            SupportedPositionEncoding::Utf8 => (offset - start) as u64,
            encoding => match self.count_units(encoding, start, offset) {
                Ok(count) => count,
                Err(error) => return Err(error),
            },
        };
        if character > u32::MAX as u64 {
            return Err(PositionError::ByteNotRepresentable);
        }
        Ok(Position { line: line as u32, character: character as u32 })
    }

    /// Validates an exact zero-based user byte insertion offset.
    ///
    /// Unlike server positions, this method never clamps. EOF is valid.
    ///
    /// # Errors
    ///
    /// Returns [`PositionError::InvalidUserPosition`] when the offset exceeds
    /// the snapshot length or splits a UTF-8 code point.
    pub fn validate_user_byte(&self, byte_offset: u64) -> (valid: Result<u64, PositionError>)
        ensures
            valid == (if byte_offset <= self.snapshot().bytes.len() && is_boundary(
                self.snapshot().bytes,
                byte_offset as int,
            ) {
                Ok::<u64, PositionError>(byte_offset)
            } else {
                Err(PositionError::InvalidUserPosition)
            }),
    {
        if byte_offset > self.text.as_bytes().len() as u64 || !self.at_boundary(
            byte_offset as usize,
        ) {
            return Err(PositionError::InvalidUserPosition);
        }
        Ok(byte_offset)
    }

    /// Converts an exact zero-based user byte position to negotiated LSP units.
    ///
    /// This first applies [`Self::validate_user_byte`] and never clamps. A
    /// valid insertion offset inside a line terminator can still be rejected as
    /// [`PositionError::ByteNotRepresentable`] because LSP characters exclude
    /// terminators.
    ///
    /// # Errors
    ///
    /// Returns [`PositionError::InvalidUserPosition`] for an out-of-range or
    /// split-code-point offset, or the errors from [`Self::byte_to_lsp_position`].
    pub fn user_byte_to_lsp_position(&mut self, byte_offset: u64) -> (position: Result<
        Position,
        PositionError,
    >)
        requires
            old(self).wf(),
        ensures
            final(self).wf(),
            final(self).snapshot() == old(self).snapshot(),
            (position, final(self).scanned()) == (if byte_offset <= old(self).snapshot().bytes.len() && is_boundary(
                old(self).snapshot().bytes,
                byte_offset as int,
            ) {
                byte_to_position(
                    old(self).snapshot().encoding,
                    old(self).snapshot().bytes,
                    byte_offset as int,
                    old(self).scanned(),
                    old(self).snapshot().limit,
                )
            } else {
                (Err(PositionError::InvalidUserPosition), old(self).scanned())
            }),
    {
        match self.validate_user_byte(byte_offset) {
            Ok(_) => self.byte_to_lsp_position(byte_offset),
            Err(error) => Err(error),
        }
    }

    /// Converts a one-based user line and scalar insertion column to bytes.
    ///
    /// Column 1 is the line start and the position immediately after the final
    /// scalar is also valid. Terminators are not columns. This method never
    /// clamps an oversized column.
    ///
    /// # Errors
    ///
    /// Returns [`PositionError::InvalidUserPosition`] when either coordinate
    /// is zero, the line does not exist, or the column is too large.
    pub fn user_line_scalar_to_byte(&mut self, line: u64, scalar_column: u64) -> (offset: Result<
        u64,
        PositionError,
    >)
        requires
            old(self).wf(),
        ensures
            final(self).wf(),
            final(self).snapshot() == old(self).snapshot(),
            (offset, final(self).scanned()) == user_to_byte(
                old(self).snapshot().bytes,
                line,
                scalar_column,
                old(self).scanned(),
                old(self).snapshot().limit,
            ),
    {
        if line == 0 || scalar_column == 0 || line - 1 > u32::MAX as u64 {
            return Err(PositionError::InvalidUserPosition);
        }
        let (start, end) = match self.line_bounds(line - 1) {
            Some(bounds) => bounds,
            None => return Err(PositionError::InvalidUserPosition),
        };
        let target: u64 = scalar_column - 1;
        proof {
            let bytes = self.snapshot().bytes;
            let encoding = SupportedPositionEncoding::Utf32;
            lemma_scalars_never_overshoot(bytes, start as int, end as int, start as int, target as int);
        }
        match self.scan_to_units(SupportedPositionEncoding::Utf32, start, end, target) {
            Err(error) => Err(error),
            Ok((offset, count)) => if count != target {
                Err(PositionError::InvalidUserPosition)
            } else {
                Ok(offset as u64)
            },
        }
    }

    /// Converts an exact one-based user line/scalar column to negotiated LSP units.
    ///
    /// # Errors
    ///
    /// Returns the same errors as [`Self::user_line_scalar_to_byte`] or
    /// [`Self::byte_to_lsp_position`].
    pub fn user_line_scalar_to_lsp_position(&mut self, line: u64, scalar_column: u64) -> (position:
        Result<Position, PositionError>)
        requires
            old(self).wf(),
        ensures
            final(self).wf(),
            final(self).snapshot() == old(self).snapshot(),
            (position, final(self).scanned()) == match user_to_byte(
                old(self).snapshot().bytes,
                line,
                scalar_column,
                old(self).scanned(),
                old(self).snapshot().limit,
            ) {
                (Err(error), total) => (Err(error), total),
                (Ok(offset), total) => byte_to_position(
                    old(self).snapshot().encoding,
                    old(self).snapshot().bytes,
                    offset as int,
                    total,
                    old(self).snapshot().limit,
                ),
            },
    {
        match self.user_line_scalar_to_byte(line, scalar_column) {
            Ok(offset) => self.byte_to_lsp_position(offset),
            Err(error) => Err(error),
        }
    }

    /// Converts a snapshot byte offset to its one-based physical line and,
    /// when representable, its one-based Unicode-scalar column.
    ///
    /// Content offsets report the column of the offset itself; an offset at
    /// the content end reports the column just past the final scalar, which
    /// is the exclusive-end convention used by half-open ranges. Only offsets
    /// strictly beyond the content end, inside a multi-byte CR/LF terminator
    /// or at EOF after a final terminator, still report their physical line
    /// with a `None` column. Column scans charge the cumulative work budget
    /// one unit per examined scalar value.
    ///
    /// # Errors
    ///
    /// Returns [`PositionError::ByteNotRepresentable`] when the offset exceeds
    /// the snapshot length or splits a UTF-8 code point, or a work-limit error
    /// while counting units.
    pub fn byte_to_user_line_scalar(&mut self, byte_offset: u64) -> (coordinates: Result<
        (u64, Option<u64>),
        PositionError,
    >)
        requires
            old(self).wf(),
        ensures
            final(self).wf(),
            final(self).snapshot() == old(self).snapshot(),
            (coordinates, final(self).scanned()) == byte_to_user(
                old(self).snapshot().bytes,
                byte_offset as int,
                old(self).scanned(),
                old(self).snapshot().limit,
            ),
    {
        proof {
            self.lemma_wf();
        }
        let (line, start, end) = match self.line_for_byte(byte_offset) {
            Some(found) => found,
            None => return Err(PositionError::ByteNotRepresentable),
        };
        if byte_offset > end as u64 {
            return Ok((line + 1, None));
        }
        let offset: usize = byte_offset as usize;
        let ghost bytes = self.snapshot().bytes;
        proof {
            lemma_units_bound(
                SupportedPositionEncoding::Utf32,
                bytes,
                start as int,
                offset as int,
            );
        }
        match self.count_units(SupportedPositionEncoding::Utf32, start, offset) {
            Ok(count) => match count.checked_add(1) {
                Some(column) => Ok((line + 1, Some(column))),
                None => Err(PositionError::WorkLimitExceeded),
            },
            Err(error) => Err(error),
        }
    }
}

/// In UTF-8, the search for a boundary stops at the requested offset exactly
/// when that is a boundary, and beyond it otherwise.
proof fn lemma_utf8_stop(bytes: Seq<u8>, start: int, end: int, requested: int, character: int)
    requires
        0 <= start <= requested <= end <= bytes.len(),
        requested - start <= character,
        requested < end ==> requested - start == character,
    ensures
        ({
            let encoding = SupportedPositionEncoding::Utf8;
            let stop = boundary_reaching(encoding, bytes, start, end, start, character);
            &&& requested == end ==> stop == end && units(encoding, bytes, start, stop) <= character
            &&& requested < end && is_boundary(bytes, requested) ==> stop == requested
            &&& requested < end && !is_boundary(bytes, requested) ==> units(
                encoding,
                bytes,
                start,
                stop,
            ) > character
        }),
{
    let encoding = SupportedPositionEncoding::Utf8;
    assert forall|i: int| start <= i < requested implies !(#[trigger] is_boundary(bytes, i)
        && units(encoding, bytes, start, i) >= character) by {
        lemma_units_bound(encoding, bytes, start, i);
    }
    lemma_boundary_reaching_skips(encoding, bytes, start, end, start, requested, character);
    lemma_units_bound(encoding, bytes, start, requested);
    if requested < end && !is_boundary(bytes, requested) {
        lemma_boundary_reaching(encoding, bytes, start, end, requested + 1, character);
        let stop = boundary_reaching(encoding, bytes, start, end, start, character);
        lemma_units_bound(encoding, bytes, start, stop);
    }
}

/// Scalar values are counted one by one, so the search never overshoots.
pub proof fn lemma_scalars_never_overshoot(bytes: Seq<u8>, from: int, end: int, offset: int, target: int)
    requires
        0 <= from <= offset <= end <= bytes.len(),
        scalars(bytes, from, offset) <= target,
    ensures
        scalars(
            bytes,
            from,
            boundary_reaching(
                SupportedPositionEncoding::Utf32,
                bytes,
                from,
                end,
                offset,
                target,
            ),
        ) <= target,
    decreases end - offset,
{
    if offset < end && !(is_boundary(bytes, offset) && scalars(bytes, from, offset) >= target) {
        lemma_scalars_never_overshoot(bytes, from, end, offset + 1, target);
    }
}

/// A boundary strictly after another has more code units before it.
pub proof fn lemma_units_grow(
    encoding: SupportedPositionEncoding,
    bytes: Seq<u8>,
    from: int,
    earlier: int,
    later: int,
)
    requires
        0 <= from <= earlier < later <= bytes.len(),
        is_boundary(bytes, earlier),
    ensures
        units(encoding, bytes, from, earlier) < units(encoding, bytes, from, later),
{
    lemma_units_split(encoding, bytes, from, earlier + 1, later);
}

/// The search for the code units before a content boundary stops there.
pub proof fn lemma_stop_at_boundary(
    encoding: SupportedPositionEncoding,
    bytes: Seq<u8>,
    start: int,
    end: int,
    offset: int,
)
    requires
        0 <= start <= offset <= end <= bytes.len(),
        is_boundary(bytes, offset),
    ensures
        boundary_reaching(
            encoding,
            bytes,
            start,
            end,
            start,
            units(encoding, bytes, start, offset) as int,
        ) == offset,
{
    let target = units(encoding, bytes, start, offset) as int;
    assert forall|i: int| start <= i < offset implies !(#[trigger] is_boundary(bytes, i) && units(
        encoding,
        bytes,
        start,
        i,
    ) >= target) by {
        if is_boundary(bytes, i) {
            lemma_units_grow(encoding, bytes, start, i, offset);
        }
    }
    lemma_boundary_reaching_skips(encoding, bytes, start, end, start, offset, target);
}

/// Facts about the line of an offset that every conversion needs.
pub proof fn lemma_line_facts(bytes: Seq<u8>, offset: int)
    requires
        bytes.len() <= u64::MAX,
        is_on_line(bytes, offset),
    ensures
        ({
            let line = line_index::line_of(bytes, offset);
            &&& 0 <= line < line_index::line_starts(bytes).len()
            &&& 0 <= line_index::line_starts(bytes)[line] <= line_index::content_end(bytes, line) <= line_index::physical_end(
                bytes,
                line,
            ) <= bytes.len()
            &&& line_index::line_starts(bytes)[line] <= offset <= line_index::physical_end(bytes, line)
        }),
{
    line_index::lemma_line_starts(bytes, bytes.len() as int);
    line_index::lemma_line_of_end(bytes);
    if offset < bytes.len() {
        line_index::lemma_line_of(bytes, offset);
    }
    let line = line_index::line_of(bytes, offset);
    assert(line_index::line_starts(bytes)[line] < line_index::physical_end(bytes, line));
}

/// Converting a byte offset to an LSP position and back gives the offset. The
/// way back examines as many scalar values as the way there, so a converter
/// with that much work left makes both conversions.
pub proof fn law_byte_round_trip(
    encoding: SupportedPositionEncoding,
    bytes: Seq<u8>,
    offset: int,
    scanned: nat,
    rescanned: nat,
    limit: nat,
)
    requires
        bytes.len() <= u64::MAX,
        byte_to_position(encoding, bytes, offset, scanned, limit).0 is Ok,
        rescanned + (byte_to_position(encoding, bytes, offset, scanned, limit).1 - scanned)
            <= limit,
    ensures
        ({
            let (position, total) = byte_to_position(encoding, bytes, offset, scanned, limit);
            let (back, retotal) = position_to_byte(
                encoding,
                bytes,
                position->Ok_0,
                rescanned,
                limit,
            );
            &&& back == Ok::<u64, PositionError>(offset as u64)
            &&& retotal - rescanned == total - scanned
        }),
{
    let line = line_index::line_of(bytes, offset);
    lemma_line_facts(bytes, offset);
    let start = line_index::line_starts(bytes)[line] as int;
    let end = line_index::content_end(bytes, line);
    lemma_stop_at_boundary(encoding, bytes, start, end, offset);
}

/// Every boundary of a line's content, its end included, has an LSP position
/// on that line, whose character counts the code units before it.
pub proof fn law_content_boundaries_are_representable(
    encoding: SupportedPositionEncoding,
    bytes: Seq<u8>,
    line: int,
    offset: int,
    scanned: nat,
    limit: nat,
)
    requires
        bytes.len() <= u64::MAX,
        0 <= line < line_index::line_starts(bytes).len(),
        line <= u32::MAX,
        line_index::line_starts(bytes)[line] <= offset <= line_index::content_end(bytes, line),
        is_boundary(bytes, offset),
        scanned + line_work(
            encoding,
            bytes,
            line_index::line_starts(bytes)[line] as int,
            offset,
        ) <= limit,
        units(encoding, bytes, line_index::line_starts(bytes)[line] as int, offset) <= u32::MAX,
    ensures
        byte_to_position(encoding, bytes, offset, scanned, limit).0 == Ok::<
            Position,
            PositionError,
        >(
            Position {
                line: line as u32,
                character: units(encoding, bytes, line_index::line_starts(bytes)[line] as int, offset) as u32,
            },
        ),
{
    let starts = line_index::line_starts(bytes);
    line_index::lemma_line_starts(bytes, bytes.len() as int);
    line_index::lemma_line_of_end(bytes);
    let start = starts[line] as int;
    let held = line_index::line_of(bytes, offset);
    assert(start < line_index::physical_end(bytes, line) <= bytes.len());
    if offset < bytes.len() {
        line_index::lemma_line_of(bytes, offset);
        if held < line {
            assert(starts[held + 1] <= starts[line]);
        }
        if held > line {
            lemma_line_terminates(bytes, line);
            assert(starts[line + 1] <= starts[held]);
        }
    } else if line + 1 < starts.len() {
        assert(starts[line + 1] < bytes.len());
    }
    assert(held == line);
    lemma_units_bound(SupportedPositionEncoding::Utf32, bytes, start, offset);
}

/// A line that another line follows ends with a terminator.
pub proof fn lemma_line_terminates(bytes: Seq<u8>, line: int)
    requires
        bytes.len() <= u64::MAX,
        0 <= line,
        line + 1 < line_index::line_starts(bytes).len(),
    ensures
        line_index::content_end(bytes, line) < line_index::physical_end(bytes, line),
{
    let starts = line_index::line_starts(bytes);
    line_index::lemma_line_starts(bytes, bytes.len() as int);
    let next = starts[line + 1] as int;
    assert(line_index::is_line_start(bytes, next));
    assert(starts[line] < starts[line + 1]);
}

/// The end of a line's content is a boundary: a terminator or the end of the
/// snapshot follows it.
pub proof fn lemma_content_end_is_boundary(bytes: Seq<u8>, line: int)
    requires
        bytes.len() <= u64::MAX,
        0 <= line < line_index::line_starts(bytes).len(),
    ensures
        is_boundary(bytes, line_index::content_end(bytes, line)),
        0 <= line_index::line_starts(bytes)[line] <= line_index::content_end(bytes, line)
            <= bytes.len(),
{
    let starts = line_index::line_starts(bytes);
    line_index::lemma_line_starts(bytes, bytes.len() as int);
    if line + 1 < starts.len() {
        lemma_line_terminates(bytes, line);
        assert(starts[line] < starts[line + 1]);
    }
    assert(starts[line] < line_index::physical_end(bytes, line) <= bytes.len());
}

/// A character at or past the code units of its line's content converts to
/// the content end: LSP's normalization of oversized characters.
pub proof fn law_oversized_characters_clamp(
    encoding: SupportedPositionEncoding,
    bytes: Seq<u8>,
    position: Position,
    scanned: nat,
    limit: nat,
)
    requires
        bytes.len() <= u64::MAX,
        position.line < line_index::line_starts(bytes).len(),
        units(
            encoding,
            bytes,
            line_index::line_starts(bytes)[position.line as int] as int,
            line_index::content_end(bytes, position.line as int),
        ) <= position.character,
        scanned + line_work(
            encoding,
            bytes,
            line_index::line_starts(bytes)[position.line as int] as int,
            line_index::content_end(bytes, position.line as int),
        ) <= limit,
    ensures
        position_to_byte(encoding, bytes, position, scanned, limit).0 == Ok::<u64, PositionError>(
            line_index::content_end(bytes, position.line as int) as u64,
        ),
{
    let line = position.line as int;
    let starts = line_index::line_starts(bytes);
    line_index::lemma_line_starts(bytes, bytes.len() as int);
    lemma_content_end_is_boundary(bytes, line);
    let start = starts[line] as int;
    let end = line_index::content_end(bytes, line);
    let target = position.character as int;
    assert(start < line_index::physical_end(bytes, line) <= bytes.len());
    assert forall|i: int| start <= i < end implies !(#[trigger] is_boundary(bytes, i) && units(
        encoding,
        bytes,
        start,
        i,
    ) >= target) by {
        if is_boundary(bytes, i) {
            lemma_units_grow(encoding, bytes, start, i, end);
        }
    }
    lemma_boundary_reaching_skips(encoding, bytes, start, end, start, end, target);
}

/// The text of a line has no more code units than the snapshot has bytes.
proof fn lemma_units_fit(
    encoding: SupportedPositionEncoding,
    text: Seq<char>,
    from: int,
    to: int,
)
    requires
        0 <= from <= to <= text::utf8(text).len(),
    ensures
        units(encoding, text::utf8(text), from, to) <= text::utf8(text).len(),
{
    let bytes = text::utf8(text);
    let length = bytes.len() as int;
    lemma_units_split(encoding, bytes, 0, from, length);
    lemma_units_split(encoding, bytes, from, to, length);
    law_units_count_characters(encoding, text);
    lemma_text_units_fit(encoding, text);
}

/// A text has no more code units than bytes.
proof fn lemma_text_units_fit(encoding: SupportedPositionEncoding, text: Seq<char>)
    ensures
        text_units(encoding, text) <= text::utf8(text).len(),
    decreases text.len(),
{
    if text.len() > 0 {
        assert(text::utf8(text) == vstd::utf8::encode_scalar(text[0] as u32) + text::utf8(
            text.drop_first(),
        ));
        lemma_text_units_fit(encoding, text.drop_first());
        vstd::utf8::char_is_scalar(text[0]);
    }
}

/// The greatest character of the line that an offset converts to stands for
/// the end of that line's content, which no converted offset of the line
/// passes.
pub proof fn law_greatest_characters_clamp(
    encoding: SupportedPositionEncoding,
    text: Seq<char>,
    offset: int,
    scanned: nat,
    rescanned: nat,
    limit: nat,
)
    requires
        text::utf8(text).len() < u32::MAX,
        byte_to_position(encoding, text::utf8(text), offset, scanned, limit).0 is Ok,
        ({
            let bytes = text::utf8(text);
            let line = line_index::line_of(bytes, offset);
            rescanned + line_work(
                encoding,
                bytes,
                line_index::line_starts(bytes)[line] as int,
                line_index::content_end(bytes, line),
            ) <= limit
        }),
    ensures
        ({
            let bytes = text::utf8(text);
            let position = byte_to_position(encoding, bytes, offset, scanned, limit).0->Ok_0;
            let greatest = Position { line: position.line, character: u32::MAX };
            let end = line_index::content_end(bytes, position.line as int);
            &&& position_to_byte(encoding, bytes, greatest, rescanned, limit).0 == Ok::<
                u64,
                PositionError,
            >(end as u64)
            &&& offset <= end
        }),
{
    let bytes = text::utf8(text);
    let line = line_index::line_of(bytes, offset);
    lemma_line_facts(bytes, offset);
    let start = line_index::line_starts(bytes)[line] as int;
    let end = line_index::content_end(bytes, line);
    lemma_units_fit(encoding, text, start, end);
    let greatest = Position { line: line as u32, character: u32::MAX };
    law_oversized_characters_clamp(encoding, bytes, greatest, rescanned, limit);
}

/// Converting a byte offset to a user line and column and back gives the
/// offset. Both coordinates are at least one. The way back examines as many
/// scalar values as the way there, so a converter with that much work left
/// makes both conversions.
pub proof fn law_user_round_trip(
    bytes: Seq<u8>,
    offset: int,
    scanned: nat,
    rescanned: nat,
    limit: nat,
)
    requires
        bytes.len() <= u64::MAX,
        byte_to_user(bytes, offset, scanned, limit).0 matches Ok(coordinates) && coordinates.1
            is Some,
        rescanned + (byte_to_user(bytes, offset, scanned, limit).1 - scanned) <= limit,
    ensures
        ({
            let (coordinates, total) = byte_to_user(bytes, offset, scanned, limit);
            let (line, column) = coordinates->Ok_0;
            let (back, retotal) = user_to_byte(bytes, line, column->Some_0, rescanned, limit);
            &&& line >= 1
            &&& column->Some_0 >= 1
            &&& back == Ok::<u64, PositionError>(offset as u64)
            &&& retotal - rescanned == total - scanned
        }),
{
    let line = line_index::line_of(bytes, offset);
    lemma_line_facts(bytes, offset);
    let start = line_index::line_starts(bytes)[line] as int;
    let end = line_index::content_end(bytes, line);
    lemma_stop_at_boundary(SupportedPositionEncoding::Utf32, bytes, start, end, offset);
}

/// Conversions only ever add to the work done, and never exceed its limit.
pub proof fn law_work_is_cumulative_and_bounded(
    encoding: SupportedPositionEncoding,
    bytes: Seq<u8>,
    position: Position,
    offset: int,
    line: u64,
    column: u64,
    scanned: nat,
    limit: nat,
)
    requires
        scanned <= limit,
    ensures
        scanned <= position_to_byte(encoding, bytes, position, scanned, limit).1 <= limit,
        scanned <= byte_to_position(encoding, bytes, offset, scanned, limit).1 <= limit,
        scanned <= user_to_byte(bytes, line, column, scanned, limit).1 <= limit,
        scanned <= byte_to_user(bytes, offset, scanned, limit).1 <= limit,
{
}

/// A converted LSP range is nonempty, ordered, and inside the snapshot.
pub proof fn law_converted_ranges_are_nonempty(
    encoding: SupportedPositionEncoding,
    bytes: Seq<u8>,
    range: Range,
    scanned: nat,
    limit: nat,
)
    requires
        bytes.len() <= u64::MAX,
        range_to_bytes(encoding, bytes, range, scanned, limit).0 is Ok,
    ensures
        ({
            let converted = range_to_bytes(encoding, bytes, range, scanned, limit).0->Ok_0;
            converted.start < converted.end <= bytes.len()
        }),
{
    lemma_position_within(encoding, bytes, range.start, scanned, limit);
    let total = position_to_byte(encoding, bytes, range.start, scanned, limit).1;
    lemma_position_within(encoding, bytes, range.end, total, limit);
}

/// A converted LSP position is inside the snapshot.
pub proof fn lemma_position_within(
    encoding: SupportedPositionEncoding,
    bytes: Seq<u8>,
    position: Position,
    scanned: nat,
    limit: nat,
)
    requires
        bytes.len() <= u64::MAX,
        position_to_byte(encoding, bytes, position, scanned, limit).0 is Ok,
    ensures
        position_to_byte(encoding, bytes, position, scanned, limit).0->Ok_0 <= bytes.len(),
{
    let line = position.line as int;
    line_index::lemma_line_starts(bytes, bytes.len() as int);
    let start = line_index::line_starts(bytes)[line] as int;
    let end = line_index::content_end(bytes, line);
    assert(start < line_index::physical_end(bytes, line) <= bytes.len());
    lemma_boundary_reaching(encoding, bytes, start, end, start, position.character as int);
}

/// A converted LSP position lies on the line that it names, within that line's
/// content, so it has a user line and a scalar column wherever the work limit
/// allows counting it.
pub proof fn law_converted_positions_have_columns(
    encoding: SupportedPositionEncoding,
    bytes: Seq<u8>,
    position: Position,
    scanned: nat,
    rescanned: nat,
    limit: nat,
)
    requires
        bytes.len() < u64::MAX,
        position_to_byte(encoding, bytes, position, scanned, limit).0 is Ok,
        rescanned + bytes.len() <= limit,
    ensures
        ({
            let offset = position_to_byte(encoding, bytes, position, scanned, limit).0->Ok_0;
            let start = line_index::line_starts(bytes)[position.line as int] as int;
            &&& line_index::line_of(bytes, offset as int) == position.line
            &&& byte_to_user(bytes, offset as int, rescanned, limit) == (
                Ok::<(u64, Option<u64>), PositionError>(
                    (
                        (position.line + 1) as u64,
                        Some((scalars(bytes, start, offset as int) + 1) as u64),
                    ),
                ),
                rescanned + scalars(bytes, start, offset as int),
            )
            &&& scalars(bytes, start, offset as int) <= bytes.len()
        }),
{
    let starts = line_index::line_starts(bytes);
    let line = position.line as int;
    line_index::lemma_line_starts(bytes, bytes.len() as int);
    line_index::lemma_line_of_end(bytes);
    let start = starts[line] as int;
    let end = line_index::content_end(bytes, line);
    assert(start < line_index::physical_end(bytes, line) <= bytes.len());
    lemma_boundary_reaching(encoding, bytes, start, end, start, position.character as int);
    let offset = boundary_reaching(
        encoding,
        bytes,
        start,
        end,
        start,
        position.character as int,
    );
    if offset == end && end < bytes.len() {
        if line + 1 < starts.len() {
            lemma_line_terminates(bytes, line);
        }
        assert(bytes[end] == 10 || bytes[end] == 13);
    }
    assert(is_boundary(bytes, offset));
    let held = line_index::line_of(bytes, offset);
    if offset < bytes.len() {
        line_index::lemma_line_of(bytes, offset);
        if held < line {
            assert(starts[held + 1] <= starts[line]);
        }
        if held > line {
            lemma_line_terminates(bytes, line);
            assert(starts[line + 1] <= starts[held]);
        }
    } else if line + 1 < starts.len() {
        assert(starts[line + 1] < bytes.len());
    }
    assert(held == line);
    lemma_units_bound(SupportedPositionEncoding::Utf32, bytes, start, offset);
}

/// In UTF-8 text, the boundaries are exactly those between scalar values.
pub proof fn law_boundaries_separate_scalars(bytes: Seq<u8>, offset: int)
    requires
        vstd::utf8::valid_utf8(bytes),
        0 <= offset <= bytes.len(),
    ensures
        is_boundary(bytes, offset) == vstd::utf8::is_char_boundary(bytes, offset),
{
    if offset < bytes.len() {
        vstd::utf8::is_char_boundary_iff_not_is_continuation_byte(bytes, offset);
    } else {
        vstd::utf8::is_char_boundary_start_end_of_seq(bytes);
    }
}

/// The code units of a character in an encoding.
pub open spec fn char_units(encoding: SupportedPositionEncoding, character: char) -> nat {
    match encoding {
        SupportedPositionEncoding::Utf8 => vstd::utf8::encode_scalar(character as u32).len(),
        SupportedPositionEncoding::Utf16 => if character as u32 >= 0x10000 {
            2
        } else {
            1
        },
        SupportedPositionEncoding::Utf32 => 1,
    }
}

/// The code units of a text in an encoding.
pub open spec fn text_units(encoding: SupportedPositionEncoding, text: Seq<char>) -> nat
    decreases text.len(),
{
    if text.len() == 0 {
        0
    } else {
        char_units(encoding, text[0]) + text_units(encoding, text.drop_first())
    }
}

/// Only the bytes of a span decide its code units.
proof fn lemma_units_of_span(
    encoding: SupportedPositionEncoding,
    bytes: Seq<u8>,
    other: Seq<u8>,
    shift: int,
    from: int,
    to: int,
)
    requires
        forall|i: int| from <= i < to ==> bytes[i] == #[trigger] other[i - shift],
    ensures
        units(encoding, bytes, from, to) == units(encoding, other, from - shift, to - shift),
    decreases to - from,
{
    if to > from {
        assert(other[(to - 1) - shift] == bytes[to - 1]);
        lemma_units_of_span(encoding, bytes, other, shift, from, to - 1);
    }
}

/// The bytes of one scalar value account for its code units.
proof fn lemma_scalar_units(encoding: SupportedPositionEncoding, character: char)
    ensures
        ({
            let encoded = vstd::utf8::encode_scalar(character as u32);
            units(encoding, encoded, 0, encoded.len() as int) == char_units(encoding, character)
        }),
{
    let scalar = character as u32;
    vstd::utf8::char_is_scalar(character);
    let encoded = vstd::utf8::encode_scalar(scalar);
    assert((scalar & 0x7f) as u8 <= 127) by (bit_vector);
    assert(192 <= (0xC0u8 | ((scalar >> 6) & 0x1F) as u8) <= 223) by (bit_vector);
    assert(224 <= (0xE0u8 | ((scalar >> 12) & 0x0F) as u8) <= 239) by (bit_vector);
    assert(240 <= (0xF0u8 | ((scalar >> 18) & 0x7) as u8)) by (bit_vector);
    assert(128 <= (0x80u8 | (scalar & 0x3F) as u8) <= 191) by (bit_vector);
    assert(128 <= (0x80u8 | ((scalar >> 6) & 0x3F) as u8) <= 191) by (bit_vector);
    assert(128 <= (0x80u8 | ((scalar >> 12) & 0x3F) as u8) <= 191) by (bit_vector);
    reveal_with_fuel(units, 5);
}

/// The code units of UTF-8 text are those of its characters: one or two in
/// UTF-16, one in UTF-32, and the bytes themselves in UTF-8.
pub proof fn law_units_count_characters(encoding: SupportedPositionEncoding, text: Seq<char>)
    ensures
        units(encoding, text::utf8(text), 0, text::utf8(text).len() as int) == text_units(
            encoding,
            text,
        ),
    decreases text.len(),
{
    if text.len() > 0 {
        let bytes = text::utf8(text);
        let first = vstd::utf8::encode_scalar(text[0] as u32);
        let rest = text::utf8(text.drop_first());
        assert(bytes == first + rest);
        let width = first.len() as int;
        let length = bytes.len() as int;
        lemma_units_split(encoding, bytes, 0, width, length);
        lemma_units_of_span(encoding, bytes, first, 0, 0, width);
        lemma_units_of_span(encoding, bytes, rest, width, width, length);
        lemma_scalar_units(encoding, text[0]);
        law_units_count_characters(encoding, text.drop_first());
    }
}

} // verus!
