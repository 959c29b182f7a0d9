//! Physical lines of an immutable snapshot.
//!
//! A line ends after LF, CR LF, or a lone CR. A final terminator does not begin
//! another line, and an empty snapshot has no line.

use vstd::prelude::*;

verus! {

/// Whether a line terminator ends just before `index`.
pub open spec fn ends_line(bytes: Seq<u8>, index: int) -> bool {
    &&& 0 < index <= bytes.len()
    &&& bytes[index - 1] == 10 || (bytes[index - 1] == 13 && !(index < bytes.len() && bytes[index]
        == 10))
}

/// Whether a physical line starts at `index`.
pub open spec fn is_line_start(bytes: Seq<u8>, index: int) -> bool {
    &&& 0 <= index < bytes.len()
    &&& index == 0 || ends_line(bytes, index)
}

/// The line starts before `end`, in order.
pub open spec fn line_starts_before(bytes: Seq<u8>, end: int) -> Seq<u64>
    decreases end,
{
    if end <= 0 {
        Seq::empty()
    } else if is_line_start(bytes, end - 1) {
        line_starts_before(bytes, end - 1).push((end - 1) as u64)
    } else {
        line_starts_before(bytes, end - 1)
    }
}

/// The starts of the physical lines, in order.
pub open spec fn line_starts(bytes: Seq<u8>) -> Seq<u64> {
    line_starts_before(bytes, bytes.len() as int)
}

/// The end of a line, its terminator included.
pub open spec fn physical_end(bytes: Seq<u8>, line: int) -> int {
    if line + 1 < line_starts(bytes).len() {
        line_starts(bytes)[line + 1] as int
    } else {
        bytes.len() as int
    }
}

/// The length of the terminator that ends just before `end`, in a line that
/// starts at `start`.
pub open spec fn terminator_length(bytes: Seq<u8>, start: int, end: int) -> int {
    if end - start >= 2 && bytes[end - 2] == 13 && bytes[end - 1] == 10 {
        2
    } else if end - start >= 1 && (bytes[end - 1] == 13 || bytes[end - 1] == 10) {
        1
    } else {
        0
    }
}

/// The end of a line's content, its terminator excluded.
pub open spec fn content_end(bytes: Seq<u8>, line: int) -> int {
    physical_end(bytes, line) - terminator_length(
        bytes,
        line_starts(bytes)[line] as int,
        physical_end(bytes, line),
    )
}

/// The zero-based line that holds a byte offset; the end of the snapshot
/// belongs to the last line.
pub open spec fn line_of(bytes: Seq<u8>, offset: int) -> int {
    line_starts_before(bytes, offset + 1).len() - 1
}

/// Line starts are increasing positions of the snapshot.
pub proof fn lemma_line_starts(bytes: Seq<u8>, end: int)
    requires
        0 <= end <= bytes.len(),
        bytes.len() <= u64::MAX,
    ensures
        ({
            let starts = line_starts_before(bytes, end);
            &&& starts.len() <= end
            &&& end > 0 ==> starts.len() > 0 && starts[0] == 0
            &&& forall|i: int| 0 <= i < starts.len() ==> #[trigger] starts[i] < end
            &&& forall|i: int| 0 <= i < starts.len() ==> is_line_start(
                bytes,
                #[trigger] starts[i] as int,
            )
            &&& forall|i: int, j: int| 0 <= i < j < starts.len() ==> starts[i] < starts[j]
        }),
    decreases end,
{
    if end > 0 {
        lemma_line_starts(bytes, end - 1);
    }
}

/// The starts before an earlier bound are a prefix of those before a later one.
pub proof fn lemma_line_starts_prefix(bytes: Seq<u8>, end: int, later: int)
    requires
        0 <= end <= later <= bytes.len(),
        bytes.len() <= u64::MAX,
    ensures
        line_starts_before(bytes, end).len() <= line_starts_before(bytes, later).len(),
        line_starts_before(bytes, end) == line_starts_before(bytes, later).take(
            line_starts_before(bytes, end).len() as int,
        ),
        forall|i: int|
            line_starts_before(bytes, end).len() <= i < line_starts_before(bytes, later).len()
                ==> #[trigger] line_starts_before(bytes, later)[i] >= end,
    decreases later - end,
{
    let starts = line_starts_before(bytes, end);
    if end == later {
        assert(starts.take(starts.len() as int) =~= starts);
    } else {
        lemma_line_starts_prefix(bytes, end, later - 1);
        let shorter = line_starts_before(bytes, later - 1);
        let longer = line_starts_before(bytes, later);
        assert(longer.take(starts.len() as int) =~= shorter.take(starts.len() as int));
    }
}

/// Every position that starts a line is listed.
pub proof fn lemma_line_starts_complete(bytes: Seq<u8>, end: int, start: int)
    requires
        0 <= start < end <= bytes.len(),
        bytes.len() <= u64::MAX,
        is_line_start(bytes, start),
    ensures
        line_starts_before(bytes, end).contains(start as u64),
    decreases end,
{
    let starts = line_starts_before(bytes, end);
    let shorter = line_starts_before(bytes, end - 1);
    if start == end - 1 {
        assert(starts[starts.len() - 1] == start as u64);
    } else {
        lemma_line_starts_complete(bytes, end - 1, start);
        let i = choose|i: int| 0 <= i < shorter.len() && shorter[i] == start as u64;
        assert(starts[i] == start as u64);
    }
}

/// Inside the snapshot, `line_of` is the line whose start is at or before the
/// offset and whose successor starts after it.
pub proof fn lemma_line_of(bytes: Seq<u8>, offset: int)
    requires
        0 <= offset < bytes.len(),
        bytes.len() <= u64::MAX,
    ensures
        0 <= line_of(bytes, offset) < line_starts(bytes).len(),
        line_starts(bytes)[line_of(bytes, offset)] <= offset < physical_end(
            bytes,
            line_of(bytes, offset),
        ),
{
    lemma_line_starts(bytes, offset + 1);
    lemma_line_starts_prefix(bytes, offset + 1, bytes.len() as int);
    let starts = line_starts(bytes);
    let before = line_starts_before(bytes, offset + 1);
    let line = line_of(bytes, offset);
    assert(before[line] == starts[line]);
}

/// The end of the snapshot belongs to the last line.
pub proof fn lemma_line_of_end(bytes: Seq<u8>)
    requires
        bytes.len() <= u64::MAX,
    ensures
        line_of(bytes, bytes.len() as int) == line_starts(bytes).len() - 1,
{
    assert(!is_line_start(bytes, bytes.len() as int));
}

/// The lines of one snapshot.
#[derive(Debug, PartialEq, Eq)]
pub struct LineIndex {
    starts: Vec<u64>,
    length: u64,
}

impl LineIndex {
    /// The byte length of the snapshot this index was built from.
    pub closed spec fn snapshot_length(&self) -> nat {
        self.length as nat
    }

    /// The recorded line starts.
    pub closed spec fn starts(&self) -> Seq<u64> {
        self.starts@
    }

    /// Whether this index was built from `bytes`.
    pub open spec fn describes(&self, bytes: Seq<u8>) -> bool {
        &&& bytes.len() <= u64::MAX
        &&& self.snapshot_length() == bytes.len()
        &&& self.starts() == line_starts(bytes)
    }

    /// Builds the index of a snapshot's physical lines.
    pub fn from_bytes(bytes: &[u8]) -> (index: Self)
        ensures
            index.describes(bytes@),
    {
        let mut starts: Vec<u64> = Vec::new();
        let mut position: usize = 0;
        while position < bytes.len()
            invariant
                position <= bytes@.len(),
                starts@ == line_starts_before(bytes@, position as int),
            decreases bytes@.len() - position,
        {
            let begins = position == 0 || bytes[position - 1] == 10 || (bytes[position - 1] == 13
                && bytes[position] != 10);
            assert(begins == is_line_start(bytes@, position as int));
            if begins {
                starts.push(position as u64);
            }
            position = position + 1;
        }
        LineIndex { starts, length: bytes.len() as u64 }
    }

    /// Returns the byte length of the snapshot this index was built from.
    pub fn byte_length(&self) -> (length: u64)
        ensures
            length == self.snapshot_length(),
    {
        self.length
    }

    /// Returns the number of physical lines.
    pub fn line_count(&self) -> (count: u64)
        ensures
            count == self.starts().len(),
    {
        self.starts.len() as u64
    }

    /// Returns the start of a one-based line.
    pub fn line_start(&self, line: u64) -> (start: Option<u64>)
        ensures
            start == (if 1 <= line <= self.starts().len() {
                Some(self.starts()[line - 1])
            } else {
                None::<u64>
            }),
    {
        if line >= 1 && line <= self.starts.len() as u64 {
            Some(self.starts[(line - 1) as usize])
        } else {
            None
        }
    }

    /// Returns the end of a one-based line, its terminator included.
    pub fn line_end(&self, line: u64) -> (end: Option<u64>)
        ensures
            end == (if 1 <= line < self.starts().len() {
                Some(self.starts()[line as int])
            } else if 1 <= line && line == self.starts().len() {
                Some(self.snapshot_length() as u64)
            } else {
                None::<u64>
            }),
    {
        let count: u64 = self.starts.len() as u64;
        if line >= 1 && line < count {
            Some(self.starts[line as usize])
        } else if line >= 1 && line == count {
            Some(self.length)
        } else {
            None
        }
    }

    /// Returns the zero-based line that holds a byte offset.
    pub(crate) fn line_holding(&self, offset: u64, Ghost(bytes): Ghost<Seq<u8>>) -> (line: u64)
        requires
            self.describes(bytes),
            bytes.len() > 0,
            offset <= bytes.len(),
        ensures
            line == line_of(bytes, offset as int),
            line < self.starts().len(),
    {
        proof {
            lemma_line_starts(bytes, bytes.len() as int);
            lemma_line_of_end(bytes);
            if offset < bytes.len() {
                lemma_line_of(bytes, offset as int);
            }
        }
        let mut low: usize = 0;
        let mut high: usize = self.starts.len() - 1;
        while low < high
            invariant
                self.describes(bytes),
                bytes.len() > 0,
                offset <= bytes.len(),
                low <= high < self.starts().len(),
                self.starts()[low as int] <= offset,
                high + 1 < self.starts().len() ==> offset < self.starts()[high + 1],
            decreases high - low,
        {
            let middle: usize = low + (high - low) / 2 + 1;
            if self.starts[middle] <= offset {
                low = middle;
            } else {
                high = middle - 1;
            }
        }
        proof {
            let line = line_of(bytes, offset as int);
            let starts = line_starts(bytes);
            if offset < bytes.len() {
                assert(starts[line] <= offset < physical_end(bytes, line));
                assert(line == low) by {
                    if line < low {
                        assert(starts[line + 1] <= starts[low as int]);
                    }
                    if line > low {
                        assert(starts[low + 1] <= starts[line]);
                    }
                }
            } else {
                if low + 1 < starts.len() {
                    assert(starts[low + 1] < bytes.len());
                }
            }
        }
        low as u64
    }
}

} // verus!
