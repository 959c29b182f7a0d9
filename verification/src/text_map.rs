//! Maps from texts to values, held in the order of their keys.

use vstd::prelude::*;

use crate::order;
use crate::order::{compare_texts, Rank};
use crate::text;

verus! {

/// The keys and values of entries.
pub open spec fn entries_view<V: View>(entries: Seq<(String, V)>) -> Seq<(Seq<char>, V::V)> {
    Seq::new(entries.len(), |i: int| (entries[i].0@, entries[i].1@))
}

/// Whether keys ascend, so that none occurs twice.
pub open spec fn is_ordered<T>(entries: Seq<(Seq<char>, T)>) -> bool {
    forall|i: int, j: int|
        #![trigger entries[i], entries[j]]
        0 <= i < j < entries.len() ==> order::rank_texts(entries[i].0, entries[j].0) == Rank::Less
}

/// Ordered entries with one more at its place, unless its key is already there.
pub open spec fn inserted<T>(entries: Seq<(Seq<char>, T)>, entry: (Seq<char>, T)) -> Seq<
    (Seq<char>, T),
>
    decreases entries.len(),
{
    if entries.len() == 0 {
        seq![entry]
    } else {
        match order::rank_texts(entry.0, entries[0].0) {
            Rank::Less => seq![entry] + entries,
            Rank::Equal => entries,
            Rank::Greater => seq![entries[0]] + inserted(entries.drop_first(), entry),
        }
    }
}

/// The entries of a map that takes in entries one after the other: in the order
/// of their keys, with the last value given for each.
pub open spec fn ordered<T>(entries: Seq<(Seq<char>, T)>) -> Seq<(Seq<char>, T)>
    decreases entries.len(),
{
    if entries.len() == 0 {
        Seq::empty()
    } else {
        inserted(ordered(entries.drop_first()), entries[0])
    }
}

/// The last value given for a key.
pub open spec fn last_value<T>(entries: Seq<(Seq<char>, T)>, key: Seq<char>) -> Option<T>
    decreases entries.len(),
{
    if entries.len() == 0 {
        None
    } else {
        match last_value(entries.drop_first(), key) {
            Some(value) => Some(value),
            None => if entries[0].0 == key {
                Some(entries[0].1)
            } else {
                None
            },
        }
    }
}

/// Texts are ordered.
proof fn lemma_rank_texts(a: Seq<char>, b: Seq<char>, c: Seq<char>)
    ensures
        order::rank_texts(b, a) == order::flipped(order::rank_texts(a, b)),
        order::chains(order::rank_texts(a, b), order::rank_texts(b, c), order::rank_texts(a, c)),
        order::rank_texts(a, b) == Rank::Equal <==> a == b,
{
    order::lemma_rank_bytes(text::utf8(a), text::utf8(b), text::utf8(c));
    order::lemma_rank_bytes_equal(text::utf8(a), text::utf8(b));
    text::lemma_utf8_injective(a, b);
}

/// Where an entry is inserted: before the first key that does not come before
/// its own.
proof fn lemma_inserted_at<T>(entries: Seq<(Seq<char>, T)>, entry: (Seq<char>, T), place: int)
    requires
        0 <= place <= entries.len(),
        forall|i: int|
            0 <= i < place ==> order::rank_texts(entry.0, (#[trigger] entries[i]).0)
                == Rank::Greater,
        place < entries.len() ==> order::rank_texts(entry.0, entries[place].0) != Rank::Greater,
    ensures
        inserted(entries, entry) == if place < entries.len() && order::rank_texts(
            entry.0,
            entries[place].0,
        ) == Rank::Equal {
            entries
        } else {
            entries.insert(place, entry)
        },
    decreases entries.len(),
{
    if entries.len() == 0 {
        assert(entries.insert(place, entry) =~= seq![entry]);
    } else if place == 0 {
        assert(entries.insert(place, entry) =~= seq![entry] + entries);
    } else {
        let rest = entries.drop_first();
        assert(order::rank_texts(entry.0, entries[0].0) == Rank::Greater);
        assert forall|i: int| 0 <= i < place - 1 implies order::rank_texts(
            entry.0,
            (#[trigger] rest[i]).0,
        ) == Rank::Greater by {
            assert(rest[i] == entries[i + 1]);
        }
        lemma_inserted_at(rest, entry, place - 1);
        assert(seq![entries[0]] + rest =~= entries);
        assert(seq![entries[0]] + rest.insert(place - 1, entry) =~= entries.insert(place, entry));
    }
}

/// Inserting keeps entries ordered, and the first key is that of the entry or
/// the first one before.
proof fn lemma_inserted_ordered<T>(entries: Seq<(Seq<char>, T)>, entry: (Seq<char>, T))
    requires
        is_ordered(entries),
    ensures
        is_ordered(inserted(entries, entry)),
        inserted(entries, entry).len() > 0,
        inserted(entries, entry)[0].0 == entry.0 || (entries.len() > 0 && inserted(
            entries,
            entry,
        )[0].0 == entries[0].0),
    decreases entries.len(),
{
    let result = inserted(entries, entry);
    if entries.len() > 0 {
        let first = entries[0].0;
        match order::rank_texts(entry.0, first) {
            Rank::Less => {
                assert forall|i: int, j: int|
                    #![trigger result[i], result[j]]
                    0 <= i < j < result.len() implies order::rank_texts(result[i].0, result[j].0)
                    == Rank::Less by {
                    if i == 0 {
                        if j > 1 {
                            assert(entries[j - 1] == result[j]);
                            assert(order::rank_texts(entries[0].0, entries[j - 1].0) == Rank::Less);
                            lemma_rank_texts(entry.0, first, result[j].0);
                        }
                    } else {
                        assert(result[i] == entries[i - 1]);
                        assert(result[j] == entries[j - 1]);
                    }
                }
            },
            Rank::Equal => {},
            Rank::Greater => {
                let rest = entries.drop_first();
                assert forall|i: int, j: int|
                    #![trigger rest[i], rest[j]]
                    0 <= i < j < rest.len() implies order::rank_texts(rest[i].0, rest[j].0)
                    == Rank::Less by {
                    assert(rest[i] == entries[i + 1]);
                    assert(rest[j] == entries[j + 1]);
                }
                lemma_inserted_ordered(rest, entry);
                let tail = inserted(rest, entry);
                lemma_rank_texts(entry.0, first, first);
                if rest.len() > 0 {
                    assert(rest[0] == entries[1]);
                    assert(order::rank_texts(entries[0].0, entries[1].0) == Rank::Less);
                }
                assert(order::rank_texts(first, tail[0].0) == Rank::Less);
                assert forall|i: int, j: int|
                    #![trigger result[i], result[j]]
                    0 <= i < j < result.len() implies order::rank_texts(result[i].0, result[j].0)
                    == Rank::Less by {
                    assert(result[j] == tail[j - 1]);
                    if i > 0 {
                        assert(result[i] == tail[i - 1]);
                    } else if j > 1 {
                        assert(order::rank_texts(tail[0].0, tail[j - 1].0) == Rank::Less);
                        lemma_rank_texts(first, tail[0].0, tail[j - 1].0);
                    }
                }
            },
        }
    }
}

/// Inserting gives a value to a key that had none, and changes no other.
proof fn lemma_inserted_value<T>(
    entries: Seq<(Seq<char>, T)>,
    entry: (Seq<char>, T),
    key: Seq<char>,
)
    requires
        is_ordered(entries),
    ensures
        last_value(inserted(entries, entry), key) == match last_value(entries, key) {
            Some(value) => Some(value),
            None => if entry.0 == key {
                Some(entry.1)
            } else {
                None
            },
        },
    decreases entries.len(),
{
    let result = inserted(entries, entry);
    if entries.len() == 0 {
        assert(result.drop_first() =~= Seq::<(Seq<char>, T)>::empty());
        assert(last_value(result.drop_first(), key) is None);
    } else {
        let rest = entries.drop_first();
        assert forall|i: int, j: int|
            #![trigger rest[i], rest[j]]
            0 <= i < j < rest.len() implies order::rank_texts(rest[i].0, rest[j].0)
            == Rank::Less by {
            assert(rest[i] == entries[i + 1]);
            assert(rest[j] == entries[j + 1]);
        }
        lemma_rank_texts(entry.0, entries[0].0, entries[0].0);
        match order::rank_texts(entry.0, entries[0].0) {
            Rank::Less => {
                assert(result.drop_first() =~= entries);
            },
            Rank::Equal => {
                if entry.0 == key {
                    assert(last_value(entries, key) is Some);
                }
            },
            Rank::Greater => {
                assert(result.drop_first() =~= inserted(rest, entry));
                lemma_inserted_value(rest, entry, key);
            },
        }
    }
}

/// Ordering entries makes a map of them: its keys ascend, each with the last
/// value given for it, and entries whose keys ascend already stay as they are.
pub proof fn law_ordered_entries_are_a_map<T>(entries: Seq<(Seq<char>, T)>)
    ensures
        is_ordered(ordered(entries)),
        forall|key: Seq<char>| #[trigger]
            last_value(ordered(entries), key) == last_value(entries, key),
        is_ordered(entries) ==> ordered(entries) == entries,
    decreases entries.len(),
{
    if entries.len() > 0 {
        let rest = entries.drop_first();
        law_ordered_entries_are_a_map(rest);
        lemma_inserted_ordered(ordered(rest), entries[0]);
        assert forall|key: Seq<char>| #[trigger]
            last_value(ordered(entries), key) == last_value(entries, key) by {
            lemma_inserted_value(ordered(rest), entries[0], key);
            assert(last_value(ordered(rest), key) == last_value(rest, key));
        }
        if is_ordered(entries) {
            assert forall|i: int, j: int|
                #![trigger rest[i], rest[j]]
                0 <= i < j < rest.len() implies order::rank_texts(rest[i].0, rest[j].0)
                == Rank::Less by {
                assert(rest[i] == entries[i + 1]);
                assert(rest[j] == entries[j + 1]);
            }
            if rest.len() > 0 {
                assert(rest[0] == entries[1]);
            }
            assert(seq![entries[0]] + rest =~= entries);
        }
    }
}

/// A map from texts to values. Its entries ascend by key, so that no key occurs
/// twice.
#[derive(Debug, PartialEq, Eq)]
pub struct TextMap<V> {
    /// The entries, in the order of their keys.
    entries: Vec<(String, V)>,
}

impl<V> TextMap<V> {
    /// The entries as they are held.
    pub closed spec fn held(self) -> Seq<(String, V)> {
        self.entries@
    }

    /// Whether keys ascend.
    #[verifier::type_invariant]
    closed spec fn keys_ascend(self) -> bool {
        forall|i: int, j: int|
            #![trigger self.entries@[i], self.entries@[j]]
            0 <= i < j < self.entries@.len() ==> order::rank_texts(
                self.entries@[i].0@,
                self.entries@[j].0@,
            ) == Rank::Less
    }
}

impl<V: View> View for TextMap<V> {
    type V = Seq<(Seq<char>, V::V)>;

    closed spec fn view(&self) -> Seq<(Seq<char>, V::V)> {
        entries_view(self.entries@)
    }
}

impl<V: Clone> Clone for TextMap<V> {
    /// Returns a map of the same keys and of clones of their values.
    fn clone(&self) -> (copy: Self)
        ensures
            copy.held().len() == self.held().len(),
            forall|i: int|
                0 <= i < self.held().len() ==> {
                    &&& (#[trigger] copy.held()[i]).0@ == self.held()[i].0@
                    &&& cloned(self.held()[i].1, copy.held()[i].1)
                },
    {
        proof {
            use_type_invariant(self);
        }
        let mut entries: Vec<(String, V)> = Vec::new();
        let mut index: usize = 0;
        while index < self.entries.len()
            invariant
                index <= self.entries@.len(),
                entries@.len() == index,
                forall|i: int|
                    0 <= i < index ==> {
                        &&& (#[trigger] entries@[i]).0@ == self.entries@[i].0@
                        &&& cloned(self.entries@[i].1, entries@[i].1)
                    },
            decreases self.entries@.len() - index,
        {
            entries.push((self.entries[index].0.clone(), self.entries[index].1.clone()));
            index = index + 1;
        }
        TextMap { entries }
    }
}

/// Returns whether keys ascend.
fn ascends<V: View>(entries: &Vec<(String, V)>) -> (ascends: bool)
    ensures
        ascends == is_ordered(entries_view(entries@)),
{
    let ghost views = entries_view(entries@);
    let mut index: usize = 1;
    while index < entries.len()
        invariant
            1 <= index,
            index <= entries@.len() || index == 1,
            views == entries_view(entries@),
            is_ordered(views.take(if index <= views.len() {
                index as int
            } else {
                views.len() as int
            })),
        decreases entries@.len() - index,
    {
        let ghost known = views.take(index as int);
        match compare_texts(entries[index - 1].0.as_str(), entries[index].0.as_str()) {
            Rank::Less => {},
            _ => {
                assert(order::rank_texts(views[index - 1].0, views[index as int].0) != Rank::Less);
                return false;
            },
        }
        proof {
            let next = views.take(index + 1);
            assert forall|i: int, j: int|
                #![trigger next[i], next[j]]
                0 <= i < j < next.len() implies order::rank_texts(next[i].0, next[j].0)
                == Rank::Less by {
                if j < index {
                    assert(known[i] == next[i]);
                    assert(known[j] == next[j]);
                } else if i < index - 1 {
                    assert(known[i] == next[i]);
                    assert(known[index - 1] == views[index - 1]);
                    assert(order::rank_texts(known[i].0, known[index - 1].0) == Rank::Less);
                    lemma_rank_texts(next[i].0, views[index - 1].0, next[j].0);
                }
            }
        }
        index = index + 1;
    }
    assert(views.take(views.len() as int) =~= views);
    true
}

/// Inserts an entry at its place, unless its key is already there.
fn insert_entry<V: View>(entries: &mut Vec<(String, V)>, entry: (String, V))
    ensures
        entries_view(final(entries)@) == inserted(
            entries_view(old(entries)@),
            (entry.0@, entry.1@),
        ),
{
    let ghost views = entries_view(entries@);
    let ghost value = (entry.0@, entry.1@);
    let mut place: usize = 0;
    let mut next = Rank::Greater;
    while place < entries.len()
        invariant_except_break
            next == Rank::Greater,
        invariant
            place <= entries@.len(),
            entries@ == old(entries)@,
            views == entries_view(entries@),
            value == (entry.0@, entry.1@),
            forall|i: int|
                0 <= i < place ==> order::rank_texts(value.0, (#[trigger] views[i]).0)
                    == Rank::Greater,
        ensures
            next != Rank::Greater ==> place < entries@.len() && next == order::rank_texts(
                value.0,
                views[place as int].0,
            ),
            next == Rank::Greater ==> place == entries@.len(),
        decreases entries@.len() - place,
    {
        next = compare_texts(entry.0.as_str(), entries[place].0.as_str());
        if next != Rank::Greater {
            break;
        }
        place = place + 1;
    }
    proof {
        lemma_inserted_at(views, value, place as int);
    }
    if next != Rank::Equal {
        entries.insert(place, entry);
        assert(entries_view(entries@) =~= views.insert(place as int, value));
    }
}

impl<V: View> TextMap<V> {
    /// Creates a map of entries, given one after the other: of entries with the
    /// same key, the last one counts.
    pub fn from_entries(entries: Vec<(String, V)>) -> (map: Self)
        ensures
            map@ == ordered(entries_view(entries@)),
            is_ordered(map@),
            is_ordered(entries_view(entries@)) ==> map@ == entries_view(entries@),
    {
        let ghost views = entries_view(entries@);
        proof {
            law_ordered_entries_are_a_map(views);
        }
        if ascends(&entries) {
            proof {
                lemma_keys_ascend(entries@);
            }
            return TextMap { entries };
        }
        let mut entries = entries;
        let mut kept: Vec<(String, V)> = Vec::new();
        assert(entries_view(kept@) =~= ordered(views.skip(views.len() as int)));
        loop
            invariant
                entries@.len() <= views.len(),
                entries_view(entries@) == views.take(entries@.len() as int),
                entries_view(kept@) == ordered(views.skip(entries@.len() as int)),
            ensures
                entries@.len() == 0,
            decreases entries@.len(),
        {
            let ghost before = entries@;
            let entry = match entries.pop() {
                Some(entry) => entry,
                None => break,
            };
            let ghost left = entries@.len() as int;
            assert(entries_view(before)[left] == (entry.0@, entry.1@));
            assert(views.skip(left).drop_first() =~= views.skip(left + 1));
            assert(entries_view(entries@) =~= views.take(left));
            assert(views[left] == (entry.0@, entry.1@));
            insert_entry(&mut kept, entry);
        }
        assert(views.skip(0) =~= views);
        proof {
            lemma_keys_ascend(kept@);
        }
        TextMap { entries: kept }
    }

    /// Returns the entries, in the order of their keys.
    pub fn entries(&self) -> (entries: &Vec<(String, V)>)
        ensures
            entries_view(entries@) == self@,
            is_ordered(self@),
    {
        proof {
            use_type_invariant(self);
            let views = entries_view(self.entries@);
            assert forall|i: int, j: int|
                #![trigger views[i], views[j]]
                0 <= i < j < views.len() implies order::rank_texts(views[i].0, views[j].0)
                == Rank::Less by {
                assert(views[i].0 == self.entries@[i].0@);
                assert(views[j].0 == self.entries@[j].0@);
            }
        }
        &self.entries
    }
}

/// Ordered entries have ascending keys.
proof fn lemma_keys_ascend<V: View>(entries: Seq<(String, V)>)
    requires
        is_ordered(entries_view(entries)),
    ensures
        forall|i: int, j: int|
            #![trigger entries[i], entries[j]]
            0 <= i < j < entries.len() ==> order::rank_texts(entries[i].0@, entries[j].0@)
                == Rank::Less,
{
    let views = entries_view(entries);
    assert forall|i: int, j: int|
        #![trigger entries[i], entries[j]]
        0 <= i < j < entries.len() implies order::rank_texts(entries[i].0@, entries[j].0@)
        == Rank::Less by {
        assert(views[i].0 == entries[i].0@);
        assert(views[j].0 == entries[j].0@);
    }
}

} // verus!
