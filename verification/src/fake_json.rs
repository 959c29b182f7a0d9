//! What the scripted language server reads out of messages.

use vstd::prelude::*;
use vstd::string::StringExecFns;

use crate::json;
use crate::json::{find_member, Json, JsonNumber, JsonNumberView, JsonView};
use crate::text;
use crate::text::{decimal_text, text_equal};

verus! {

/// Why the scripted server stopped.
#[derive(Clone, Debug, PartialEq, Eq)]
pub struct FakeLspError {
    /// The reason.
    pub message: String,
}

impl View for FakeLspError {
    type V = Seq<char>;

    open spec fn view(&self) -> Seq<char> {
        self.message@
    }
}

impl FakeLspError {
    /// Creates an error.
    pub fn new(message: &str) -> (error: Self)
        ensures
            error@ == message@,
    {
        FakeLspError { message: message.to_owned() }
    }

    /// Returns the reason.
    pub fn message(&self) -> (message: &str)
        ensures
            message@ == self@,
    {
        self.message.as_str()
    }
}

/// Returns an error of two texts and a text between them.
pub fn error_around(before: &str, middle: &str, after: &str) -> (error: FakeLspError)
    ensures
        error@ == before@ + middle@ + after@,
{
    let mut message = before.to_owned();
    message.append(middle);
    message.append(after);
    FakeLspError { message }
}

/// The first of `length` indexes, from `from` on, whose decimal spelling is
/// `token`; `length` where there is none.
pub open spec fn index_spelled(token: Seq<char>, from: nat, length: nat) -> nat
    decreases length - from,
{
    if from >= length {
        length
    } else if text::decimal(from) == token {
        from
    } else {
        index_spelled(token, from + 1, length)
    }
}

/// The value one step into a value: a member of an object, or an item of an
/// array.
pub open spec fn stepped(value: JsonView, token: Seq<char>) -> Option<JsonView> {
    match value {
        JsonView::Object(members) => json::member(members, token),
        JsonView::Array(items) => {
            let index = index_spelled(token, 0, items.len());
            if index < items.len() {
                Some(items[index as int])
            } else {
                None
            }
        },
        _ => None,
    }
}

/// The value at the end of a path.
pub open spec fn pointed(value: JsonView, path: Seq<Seq<char>>) -> Option<JsonView>
    decreases path.len(),
{
    if path.len() == 0 {
        Some(value)
    } else {
        match stepped(value, path[0]) {
            Some(next) => pointed(next, path.drop_first()),
            None => None,
        }
    }
}

/// The steps of a path.
pub open spec fn steps_view(path: Seq<&str>) -> Seq<Seq<char>> {
    Seq::new(path.len(), |i: int| path[i]@)
}

/// A path as a JSON pointer.
pub open spec fn pointer_text(path: Seq<Seq<char>>) -> Seq<char>
    decreases path.len(),
{
    if path.len() == 0 {
        Seq::empty()
    } else {
        pointer_text(path.drop_last()) + "/"@ + path.last()
    }
}

/// The value of an optional reference.
pub open spec fn found_view(found: Option<&Json>) -> Option<JsonView> {
    match found {
        Some(value) => Some(value@),
        None => None,
    }
}

/// Returns the value one step into a value.
fn step_into<'a>(value: &'a Json, token: &str) -> (found: Option<&'a Json>)
    ensures
        found_view(found) == stepped(value@, token@),
{
    match value {
        Json::Object(members) => {
            proof {
                json::lemma_object_view(*members);
            }
            let index: usize = find_member(members, token);
            if index < members.len() {
                Some(&members[index].1)
            } else {
                None
            }
        },
        Json::Array(items) => {
            proof {
                json::lemma_array_view(*items);
            }
            let mut index: usize = 0;
            while index < items.len()
                invariant
                    index <= items@.len(),
                    index_spelled(token@, 0, items@.len()) == index_spelled(
                        token@,
                        index as nat,
                        items@.len(),
                    ),
                    *value == Json::Array(*items),
                    value@ == JsonView::Array(json::items_view(items@)),
                decreases items@.len() - index,
            {
                if text_equal(decimal_text(index as u64).as_str(), token) {
                    return Some(&items[index]);
                }
                index = index + 1;
            }
            None
        },
        _ => None,
    }
}

/// Returns the value at the end of a path.
pub fn value_at<'a>(message: &'a Json, path: &Vec<&str>) -> (found: Option<&'a Json>)
    ensures
        found_view(found) == pointed(message@, steps_view(path@)),
{
    let ghost steps = steps_view(path@);
    let mut value: &Json = message;
    let mut index: usize = 0;
    assert(steps.skip(0) =~= steps);
    while index < path.len()
        invariant
            index <= path@.len(),
            steps == steps_view(path@),
            pointed(message@, steps) == pointed(value@, steps.skip(index as int)),
        decreases path@.len() - index,
    {
        assert(steps.skip(index as int)[0] == path@[index as int]@);
        assert(steps.skip(index as int).drop_first() =~= steps.skip(index + 1));
        match step_into(value, path[index]) {
            Some(next) => {
                value = next;
            },
            None => return None,
        }
        index = index + 1;
    }
    Some(value)
}

/// The text at the end of a path, or the complaint that there is none.
pub open spec fn text_at(value: JsonView, path: Seq<Seq<char>>) -> Result<Seq<char>, Seq<char>> {
    match pointed(value, path) {
        Some(JsonView::String(text)) => Ok(text),
        _ => Err("expected string at JSON pointer `"@ + pointer_text(path) + "`"@),
    }
}

/// Appends a path as a JSON pointer.
fn push_pointer(out: &mut String, path: &Vec<&str>)
    ensures
        final(out)@ == old(out)@ + pointer_text(steps_view(path@)),
{
    let ghost before = out@;
    let ghost steps = steps_view(path@);
    let mut index: usize = 0;
    assert(steps.take(0) =~= Seq::<Seq<char>>::empty());
    assert(out@ =~= before + pointer_text(steps.take(0)));
    while index < path.len()
        invariant
            index <= path@.len(),
            steps == steps_view(path@),
            out@ == before + pointer_text(steps.take(index as int)),
        decreases path@.len() - index,
    {
        let ghost taken = steps.take(index + 1);
        assert(taken.drop_last() =~= steps.take(index as int));
        assert(taken.last() == path@[index as int]@);
        out.append("/");
        out.append(path[index]);
        assert(out@ =~= before + pointer_text(taken));
        index = index + 1;
    }
    assert(steps.take(index as int) =~= steps);
}

/// Returns the text at the end of a path.
pub fn string_at<'a>(message: &'a Json, path: &Vec<&str>) -> (found: Result<&'a String, FakeLspError>)
    ensures
        ({
            let expected = text_at(message@, steps_view(path@));
            match found {
                Ok(text) => expected == Ok::<Seq<char>, Seq<char>>(text@),
                Err(error) => expected == Err::<Seq<char>, Seq<char>>(error@),
            }
        }),
{
    match value_at(message, path) {
        Some(Json::String(text)) => Ok(text),
        _ => {
            let mut message = "expected string at JSON pointer `".to_owned();
            push_pointer(&mut message, path);
            message.append("`");
            Err(FakeLspError { message })
        },
    }
}

/// Whether a number is the real zero, whatever its sign.
pub open spec fn is_real_zero(number: JsonNumberView) -> bool {
    match number {
        JsonNumberView::Real(text) => text == "0.0"@ || text == "-0.0"@,
        _ => false,
    }
}

/// Whether two numbers are equal: they are spelled alike, or both are the real
/// zero. An integer never equals a real number.
pub open spec fn equal_numbers(left: JsonNumberView, right: JsonNumberView) -> bool {
    left == right || (is_real_zero(left) && is_real_zero(right))
}

/// Whether two values are equal as JSON: neither the order of an object's
/// members matters, nor the sign of a zero.
pub open spec fn same_json(left: JsonView, right: JsonView) -> bool
    decreases left,
{
    match (left, right) {
        (JsonView::Array(left_items), JsonView::Array(right_items)) => {
            &&& left_items.len() == right_items.len()
            &&& forall|i: int|
                0 <= i < left_items.len() ==> same_json(
                    #[trigger] left_items[i],
                    right_items[i],
                )
        },
        (JsonView::Object(left_members), JsonView::Object(right_members)) => {
            &&& left_members.len() == right_members.len()
            &&& forall|i: int|
                0 <= i < left_members.len() ==> {
                    let member = #[trigger] left_members[i];
                    let other = json::member(right_members, member.0);
                    other is Some && same_json(member.1, other->Some_0)
                }
        },
        (JsonView::Number(left_number), JsonView::Number(right_number)) => equal_numbers(
            left_number,
            right_number,
        ),
        (JsonView::Array(_), _) => false,
        (JsonView::Object(_), _) => false,
        _ => left == right,
    }
}

/// Returns whether a real number is zero.
fn real_zero(spelling: &str) -> (zero: bool)
    ensures
        zero == is_real_zero(JsonNumberView::Real(spelling@)),
{
    text_equal(spelling, "0.0") || text_equal(spelling, "-0.0")
}

/// Returns whether two numbers are equal.
fn same_number(left: &JsonNumber, right: &JsonNumber) -> (same: bool)
    ensures
        same == equal_numbers(left@, right@),
{
    match (left, right) {
        (JsonNumber::Unsigned(left), JsonNumber::Unsigned(right)) => *left == *right,
        (JsonNumber::Negative(left), JsonNumber::Negative(right)) => *left == *right,
        (JsonNumber::Real(left), JsonNumber::Real(right)) => text_equal(
            left.as_str(),
            right.as_str(),
        ) || (real_zero(left.as_str()) && real_zero(right.as_str())),
        _ => false,
    }
}

/// Returns whether two values are equal as JSON.
pub fn same_value(left: &Json, right: &Json) -> (same: bool)
    ensures
        same == same_json(left@, right@),
    decreases left,
{
    match (left, right) {
        (Json::Null, Json::Null) => true,
        (Json::Bool(left), Json::Bool(right)) => *left == *right,
        (Json::Number(left), Json::Number(right)) => same_number(left, right),
        (Json::String(left), Json::String(right)) => text_equal(left.as_str(), right.as_str()),
        (Json::Array(left_items), Json::Array(right_items)) => {
            proof {
                json::lemma_array_view(*left_items);
                json::lemma_array_view(*right_items);
            }
            if left_items.len() != right_items.len() {
                return false;
            }
            let mut index: usize = 0;
            while index < left_items.len()
                invariant
                    index <= left_items@.len(),
                    left_items@.len() == right_items@.len(),
                    *left == Json::Array(*left_items),
                    left@ == JsonView::Array(json::items_view(left_items@)),
                    right@ == JsonView::Array(json::items_view(right_items@)),
                    forall|i: int|
                        0 <= i < index ==> same_json(
                            #[trigger] json::items_view(left_items@)[i],
                            json::items_view(right_items@)[i],
                        ),
                decreases left_items@.len() - index,
            {
                assert(decreases_to!(*left => left->Array_0));
                assert(decreases_to!(*left_items => left_items[index as int]));
                assert(json::items_view(left_items@)[index as int] == left_items@[index as int]@);
                assert(json::items_view(right_items@)[index as int] == right_items@[index as int]@);
                if !same_value(&left_items[index], &right_items[index]) {
                    return false;
                }
                index = index + 1;
            }
            true
        },
        (Json::Object(left_members), Json::Object(right_members)) => {
            proof {
                json::lemma_object_view(*left_members);
                json::lemma_object_view(*right_members);
            }
            if left_members.len() != right_members.len() {
                return false;
            }
            let mut index: usize = 0;
            while index < left_members.len()
                invariant
                    index <= left_members@.len(),
                    left_members@.len() == right_members@.len(),
                    *left == Json::Object(*left_members),
                    left@ == JsonView::Object(json::members_view(left_members@)),
                    right@ == JsonView::Object(json::members_view(right_members@)),
                    forall|i: int|
                        0 <= i < index ==> {
                            let member = #[trigger] json::members_view(left_members@)[i];
                            let other = json::member(
                                json::members_view(right_members@),
                                member.0,
                            );
                            other is Some && same_json(member.1, other->Some_0)
                        },
                decreases left_members@.len() - index,
            {
                assert(decreases_to!(*left => left->Object_0));
                assert(decreases_to!(*left_members => left_members[index as int]));
                assert(decreases_to!(left_members[index as int] => left_members[index as int].1));
                let ghost member = json::members_view(left_members@)[index as int];
                assert(member == (
                    left_members@[index as int].0@,
                    left_members@[index as int].1@,
                ));
                let place: usize = find_member(right_members, left_members[index].0.as_str());
                if place >= right_members.len() {
                    return false;
                }
                assert(json::members_view(right_members@)[place as int].1
                    == right_members@[place as int].1@);
                if !same_value(&left_members[index].1, &right_members[place].1) {
                    return false;
                }
                index = index + 1;
            }
            true
        },
        _ => false,
    }
}

} // verus!
