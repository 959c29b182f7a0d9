//! Byte-string helpers shared by the header grammar and the text surfaces.

use vstd::prelude::*;
use vstd::slice::slice_subrange;

use crate::text;

verus! {

/// The index of the first occurrence of `byte`, or the length.
pub open spec fn first_index(bytes: Seq<u8>, byte: u8) -> int
    decreases bytes.len(),
{
    if bytes.len() == 0 || bytes[0] == byte {
        0
    } else {
        1 + first_index(bytes.drop_first(), byte)
    }
}

/// `first_index` is the first matching position.
pub proof fn lemma_first_index(bytes: Seq<u8>, byte: u8, index: int)
    requires
        0 <= index <= bytes.len(),
        forall|i: int| 0 <= i < index ==> bytes[i] != byte,
        index < bytes.len() ==> bytes[index] == byte,
    ensures
        first_index(bytes, byte) == index,
    decreases bytes.len(),
{
    if bytes.len() > 0 && index > 0 {
        assert(bytes[0] != byte);
        lemma_first_index(bytes.drop_first(), byte, index - 1);
    }
}

/// `first_index` stays within the bytes.
pub proof fn lemma_first_index_bounds(bytes: Seq<u8>, byte: u8)
    ensures
        0 <= first_index(bytes, byte) <= bytes.len(),
        forall|i: int| 0 <= i < first_index(bytes, byte) ==> bytes[i] != byte,
        first_index(bytes, byte) < bytes.len() ==> bytes[first_index(bytes, byte)] == byte,
    decreases bytes.len(),
{
    if bytes.len() > 0 && bytes[0] != byte {
        let rest = bytes.drop_first();
        lemma_first_index_bounds(rest, byte);
        assert forall|i: int| 0 <= i < first_index(bytes, byte) implies bytes[i] != byte by {
            if i > 0 {
                assert(bytes[i] == rest[i - 1]);
            }
        }
    }
}

/// Returns the index of the first occurrence of `byte`, or the length.
pub fn find_byte(bytes: &[u8], byte: u8) -> (index: usize)
    ensures
        index == first_index(bytes@, byte),
        index <= bytes@.len(),
{
    let mut index: usize = 0;
    while index < bytes.len()
        invariant
            index <= bytes@.len(),
            forall|i: int| 0 <= i < index ==> bytes@[i] != byte,
        decreases bytes@.len() - index,
    {
        if bytes[index] == byte {
            proof {
                lemma_first_index(bytes@, byte, index as int);
            }
            return index;
        }
        index = index + 1;
    }
    proof {
        lemma_first_index(bytes@, byte, index as int);
    }
    index
}

/// Whether a byte is a space or a horizontal tab.
pub open spec fn is_blank(byte: u8) -> bool {
    byte == 32 || byte == 9
}

/// The bytes without leading blanks.
pub open spec fn trim_start(bytes: Seq<u8>) -> Seq<u8>
    decreases bytes.len(),
{
    if bytes.len() > 0 && is_blank(bytes[0]) {
        trim_start(bytes.drop_first())
    } else {
        bytes
    }
}

/// The bytes without trailing blanks.
pub open spec fn trim_end(bytes: Seq<u8>) -> Seq<u8>
    decreases bytes.len(),
{
    if bytes.len() > 0 && is_blank(bytes.last()) {
        trim_end(bytes.drop_last())
    } else {
        bytes
    }
}

/// The bytes without leading and trailing blanks.
pub open spec fn trimmed(bytes: Seq<u8>) -> Seq<u8> {
    trim_end(trim_start(bytes))
}

/// Returns the bytes without leading and trailing spaces and tabs.
pub fn trim_ascii_whitespace(bytes: &[u8]) -> (inner: &[u8])
    ensures
        inner@ == trimmed(bytes@),
{
    let mut start: usize = 0;
    assert(bytes@.skip(0) =~= bytes@);
    while start < bytes.len() && (bytes[start] == 32 || bytes[start] == 9)
        invariant
            start <= bytes@.len(),
            trim_start(bytes@) == trim_start(bytes@.skip(start as int)),
        decreases bytes@.len() - start,
    {
        assert(bytes@.skip(start as int).drop_first() =~= bytes@.skip(start + 1));
        start = start + 1;
    }
    let ghost rest = bytes@.skip(start as int);
    assert(trim_start(bytes@) == rest);
    let mut end: usize = bytes.len();
    assert(bytes@.subrange(start as int, end as int) =~= rest);
    while end > start && (bytes[end - 1] == 32 || bytes[end - 1] == 9)
        invariant
            start <= end <= bytes@.len(),
            trim_end(rest) == trim_end(bytes@.subrange(start as int, end as int)),
        decreases end,
    {
        assert(bytes@.subrange(start as int, end as int).drop_last() =~= bytes@.subrange(
            start as int,
            end - 1,
        ));
        end = end - 1;
    }
    assert(trim_end(rest) == bytes@.subrange(start as int, end as int));
    slice_subrange(bytes, start, end)
}

/// The lowercase form of an ASCII letter; other bytes are kept.
pub open spec fn lower(byte: u8) -> u8 {
    if 65 <= byte <= 90 {
        (byte + 32) as u8
    } else {
        byte
    }
}

/// The bytes with ASCII letters in lowercase.
pub open spec fn lowered(bytes: Seq<u8>) -> Seq<u8> {
    Seq::new(bytes.len(), |i: int| lower(bytes[i]))
}

/// Whether bytes spell a text when ASCII case is ignored.
pub open spec fn spells(bytes: Seq<u8>, expected: Seq<char>) -> bool {
    lowered(bytes) == lowered(text::utf8(expected))
}

/// Returns the lowercase form of an ASCII letter; other bytes are kept.
pub fn lower_byte(byte: u8) -> (folded: u8)
    ensures
        folded == lower(byte),
{
    if 65 <= byte && byte <= 90 {
        byte + 32
    } else {
        byte
    }
}

/// Returns whether bytes spell `expected` when ASCII case is ignored.
pub fn equals_ignoring_case(bytes: &[u8], expected: &str) -> (equal: bool)
    ensures
        equal == spells(bytes@, expected@),
{
    let other: &[u8] = expected.as_bytes();
    let ghost left = lowered(bytes@);
    let ghost right = lowered(other@);
    if bytes.len() != other.len() {
        assert(left.len() != right.len());
        return false;
    }
    let mut index: usize = 0;
    while index < bytes.len()
        invariant
            bytes@.len() == other@.len(),
            other@ == text::utf8(expected@),
            left == lowered(bytes@),
            right == lowered(other@),
            index <= bytes@.len(),
            forall|i: int| 0 <= i < index ==> left[i] == right[i],
        decreases bytes@.len() - index,
    {
        if lower_byte(bytes[index]) != lower_byte(other[index]) {
            assert(left[index as int] != right[index as int]);
            return false;
        }
        index = index + 1;
    }
    assert(left =~= right);
    true
}

/// The value that a string of decimal digits denotes.
pub open spec fn digits_value(digits: Seq<u8>) -> nat
    decreases digits.len(),
{
    if digits.len() == 0 {
        0
    } else {
        digits_value(digits.drop_last()) * 10 + (digits.last() - 48) as nat
    }
}

/// Whether every byte is a decimal digit.
pub open spec fn all_digits(bytes: Seq<u8>) -> bool {
    forall|i: int| 0 <= i < bytes.len() ==> 48 <= #[trigger] bytes[i] <= 57
}

/// A longer digit string denotes at least what its prefix denotes.
pub proof fn lemma_digits_value_grows(digits: Seq<u8>, count: int)
    requires
        0 <= count <= digits.len(),
        all_digits(digits),
    ensures
        digits_value(digits.take(count)) <= digits_value(digits),
    decreases digits.len(),
{
    if count == digits.len() {
        assert(digits.take(count) =~= digits);
    } else {
        let shorter = digits.drop_last();
        assert(shorter.take(count) =~= digits.take(count));
        lemma_digits_value_grows(shorter, count);
    }
}

} // verus!
