//! Three-way comparison of texts, paths, and numbers, with the laws of an order.

use vstd::prelude::*;

use crate::text;

verus! {

/// How a left value compares to a right one.
#[derive(Clone, Copy, Debug, PartialEq, Eq, Structural)]
pub enum Rank {
    /// The left value comes first.
    Less,
    /// Neither value comes first.
    Equal,
    /// The right value comes first.
    Greater,
}

/// The rank with left and right exchanged.
pub open spec fn flipped(rank: Rank) -> Rank {
    match rank {
        Rank::Less => Rank::Greater,
        Rank::Equal => Rank::Equal,
        Rank::Greater => Rank::Less,
    }
}

/// The first rank, or the second where the first decides nothing.
pub open spec fn or_else(first: Rank, second: Rank) -> Rank {
    if first == Rank::Equal {
        second
    } else {
        first
    }
}

/// Whether three ranks, of a pair, the next pair, and both ends, agree with a
/// transitive order.
pub open spec fn chains(first: Rank, second: Rank, both: Rank) -> bool {
    &&& first == Rank::Equal ==> both == second
    &&& second == Rank::Equal ==> both == first
    &&& first == second ==> both == first
}

/// The rank of two numbers.
pub open spec fn rank_numbers(left: int, right: int) -> Rank {
    if left < right {
        Rank::Less
    } else if left > right {
        Rank::Greater
    } else {
        Rank::Equal
    }
}

/// The lexicographic rank of two byte strings.
pub open spec fn rank_bytes(left: Seq<u8>, right: Seq<u8>) -> Rank
    decreases left.len(),
{
    if left.len() == 0 || right.len() == 0 {
        rank_numbers(left.len() as int, right.len() as int)
    } else {
        or_else(
            rank_numbers(left[0] as int, right[0] as int),
            rank_bytes(left.drop_first(), right.drop_first()),
        )
    }
}

/// The rank of two texts, by their UTF-8 bytes.
pub open spec fn rank_texts(left: Seq<char>, right: Seq<char>) -> Rank {
    rank_bytes(text::utf8(left), text::utf8(right))
}

/// The lexicographic rank of two breadcrumbs.
pub open spec fn rank_paths(left: Seq<Seq<char>>, right: Seq<Seq<char>>) -> Rank
    decreases left.len(),
{
    if left.len() == 0 || right.len() == 0 {
        rank_numbers(left.len() as int, right.len() as int)
    } else {
        or_else(
            rank_texts(left[0], right[0]),
            rank_paths(left.drop_first(), right.drop_first()),
        )
    }
}

/// The rank of two optional texts; an absent text comes first.
pub open spec fn rank_optional_texts(left: Option<Seq<char>>, right: Option<Seq<char>>) -> Rank {
    match (left, right) {
        (None, None) => Rank::Equal,
        (None, Some(_)) => Rank::Less,
        (Some(_), None) => Rank::Greater,
        (Some(left), Some(right)) => rank_texts(left, right),
    }
}

/// Byte strings are ordered.
pub proof fn lemma_rank_bytes(a: Seq<u8>, b: Seq<u8>, c: Seq<u8>)
    ensures
        rank_bytes(b, a) == flipped(rank_bytes(a, b)),
        chains(rank_bytes(a, b), rank_bytes(b, c), rank_bytes(a, c)),
    decreases a.len() + b.len() + c.len(),
{
    if a.len() > 0 && b.len() > 0 {
        if c.len() > 0 {
            lemma_rank_bytes(a.drop_first(), b.drop_first(), c.drop_first());
        } else {
            lemma_rank_bytes(a.drop_first(), b.drop_first(), c);
        }
    }
}

/// Equal rank of byte strings is equality.
pub proof fn lemma_rank_bytes_equal(a: Seq<u8>, b: Seq<u8>)
    ensures
        rank_bytes(a, b) == Rank::Equal <==> a == b,
    decreases a.len(),
{
    if a.len() > 0 && b.len() > 0 {
        lemma_rank_bytes_equal(a.drop_first(), b.drop_first());
        if a[0] == b[0] && a.drop_first() == b.drop_first() {
            assert(a =~= seq![a[0]] + a.drop_first());
            assert(b =~= seq![b[0]] + b.drop_first());
        }
    } else {
        assert(a.len() == b.len() ==> a =~= b);
    }
}

/// Byte strings that agree up to a place rank as their bytes there do.
pub proof fn lemma_rank_bytes_at(left: Seq<u8>, right: Seq<u8>, place: int)
    requires
        0 <= place < left.len(),
        place < right.len(),
        forall|i: int| 0 <= i < place ==> #[trigger] left[i] == right[i],
        left[place] < right[place],
    ensures
        rank_bytes(left, right) == Rank::Less,
    decreases place,
{
    if place > 0 {
        assert(left[0] == right[0]);
        assert forall|i: int| 0 <= i < place - 1 implies #[trigger] left.drop_first()[i]
            == right.drop_first()[i] by {
            assert(left[i + 1] == right[i + 1]);
        }
        lemma_rank_bytes_at(left.drop_first(), right.drop_first(), place - 1);
    }
}

/// ASCII texts that agree up to a place rank as their characters there do.
pub proof fn lemma_rank_ascii_at(left: Seq<char>, right: Seq<char>, place: int)
    requires
        vstd::utf8::is_ascii_chars(left),
        vstd::utf8::is_ascii_chars(right),
        0 <= place < left.len(),
        place < right.len(),
        forall|i: int| 0 <= i < place ==> #[trigger] left[i] == right[i],
        left[place] < right[place],
    ensures
        rank_texts(left, right) == Rank::Less,
{
    vstd::utf8::is_ascii_chars_encode_utf8(left);
    vstd::utf8::is_ascii_chars_encode_utf8(right);
    let (a, b) = (text::utf8(left), text::utf8(right));
    assert(a[place] == left[place] as u8 && b[place] == right[place] as u8);
    assert forall|i: int| 0 <= i < place implies #[trigger] a[i] == b[i] by {
        assert(left[i] == right[i]);
    }
    lemma_rank_bytes_at(a, b, place);
}

/// Breadcrumbs are ordered.
pub proof fn lemma_rank_paths(a: Seq<Seq<char>>, b: Seq<Seq<char>>, c: Seq<Seq<char>>)
    ensures
        rank_paths(b, a) == flipped(rank_paths(a, b)),
        chains(rank_paths(a, b), rank_paths(b, c), rank_paths(a, c)),
    decreases a.len() + b.len() + c.len(),
{
    if a.len() > 0 && b.len() > 0 {
        if c.len() > 0 {
            lemma_rank_bytes(text::utf8(a[0]), text::utf8(b[0]), text::utf8(c[0]));
            lemma_rank_paths(a.drop_first(), b.drop_first(), c.drop_first());
        } else {
            lemma_rank_bytes(text::utf8(a[0]), text::utf8(b[0]), text::utf8(b[0]));
            lemma_rank_paths(a.drop_first(), b.drop_first(), c);
        }
    }
}

/// Equal rank of breadcrumbs is equality.
pub proof fn lemma_rank_paths_equal(a: Seq<Seq<char>>, b: Seq<Seq<char>>)
    ensures
        rank_paths(a, b) == Rank::Equal <==> a == b,
    decreases a.len(),
{
    if a.len() > 0 && b.len() > 0 {
        lemma_rank_bytes_equal(text::utf8(a[0]), text::utf8(b[0]));
        text::lemma_utf8_injective(a[0], b[0]);
        lemma_rank_paths_equal(a.drop_first(), b.drop_first());
        if a[0] == b[0] && a.drop_first() == b.drop_first() {
            assert(a =~= seq![a[0]] + a.drop_first());
            assert(b =~= seq![b[0]] + b.drop_first());
        }
    } else {
        assert(a.len() == b.len() ==> a =~= b);
    }
}

/// Optional texts are ordered.
pub proof fn lemma_rank_optional_texts(
    a: Option<Seq<char>>,
    b: Option<Seq<char>>,
    c: Option<Seq<char>>,
)
    ensures
        rank_optional_texts(b, a) == flipped(rank_optional_texts(a, b)),
        chains(rank_optional_texts(a, b), rank_optional_texts(b, c), rank_optional_texts(a, c)),
{
    if a is Some && b is Some {
        if c is Some {
            lemma_rank_bytes(text::utf8(a->0), text::utf8(b->0), text::utf8(c->0));
        } else {
            lemma_rank_bytes(text::utf8(a->0), text::utf8(b->0), text::utf8(b->0));
        }
    }
}

/// Compares two numbers.
pub fn compare_numbers(left: u64, right: u64) -> (rank: Rank)
    ensures
        rank == rank_numbers(left as int, right as int),
{
    if left < right {
        Rank::Less
    } else if left > right {
        Rank::Greater
    } else {
        Rank::Equal
    }
}

/// Compares two texts by their UTF-8 bytes.
pub fn compare_texts(left: &str, right: &str) -> (rank: Rank)
    ensures
        rank == rank_texts(left@, right@),
{
    let a: &[u8] = left.as_bytes();
    let b: &[u8] = right.as_bytes();
    let mut index: usize = 0;
    assert(a@.skip(0) =~= a@);
    assert(b@.skip(0) =~= b@);
    while index < a.len() && index < b.len()
        invariant
            index <= a@.len(),
            index <= b@.len(),
            rank_bytes(a@, b@) == rank_bytes(a@.skip(index as int), b@.skip(index as int)),
            a@ == text::utf8(left@),
            b@ == text::utf8(right@),
        decreases a@.len() - index,
    {
        assert(a@.skip(index as int).drop_first() =~= a@.skip(index + 1));
        assert(b@.skip(index as int).drop_first() =~= b@.skip(index + 1));
        if a[index] < b[index] {
            return Rank::Less;
        }
        if a[index] > b[index] {
            return Rank::Greater;
        }
        index = index + 1;
    }
    compare_numbers(a.len() as u64, b.len() as u64)
}

/// The characters of each text of a breadcrumb.
pub open spec fn path_view(path: Seq<String>) -> Seq<Seq<char>> {
    Seq::new(path.len(), |i: int| path[i]@)
}

/// Compares two breadcrumbs.
pub fn compare_paths(left: &Vec<String>, right: &Vec<String>) -> (rank: Rank)
    ensures
        rank == rank_paths(path_view(left@), path_view(right@)),
{
    let ghost a = path_view(left@);
    let ghost b = path_view(right@);
    let mut index: usize = 0;
    assert(a.skip(0) =~= a);
    assert(b.skip(0) =~= b);
    while index < left.len() && index < right.len()
        invariant
            a == path_view(left@),
            b == path_view(right@),
            index <= a.len(),
            index <= b.len(),
            rank_paths(a, b) == rank_paths(a.skip(index as int), b.skip(index as int)),
        decreases a.len() - index,
    {
        assert(a.skip(index as int).drop_first() =~= a.skip(index + 1));
        assert(b.skip(index as int).drop_first() =~= b.skip(index + 1));
        let rank = compare_texts(left[index].as_str(), right[index].as_str());
        if rank != Rank::Equal {
            return rank;
        }
        index = index + 1;
    }
    compare_numbers(left.len() as u64, right.len() as u64)
}

/// The characters of an optional text.
pub open spec fn optional_text(text: Option<String>) -> Option<Seq<char>> {
    match text {
        Some(text) => Some(text@),
        None => None,
    }
}

/// Compares two optional texts; an absent text comes first.
pub fn compare_optional_texts(left: &Option<String>, right: &Option<String>) -> (rank: Rank)
    ensures
        rank == rank_optional_texts(optional_text(*left), optional_text(*right)),
{
    match (left, right) {
        (None, None) => Rank::Equal,
        (None, Some(_)) => Rank::Less,
        (Some(_), None) => Rank::Greater,
        (Some(left), Some(right)) => compare_texts(left.as_str(), right.as_str()),
    }
}

} // verus!
