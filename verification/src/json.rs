//! JSON values as plain data, and the parser and serializer behind them.

use vstd::prelude::*;

use crate::text::text_equal;
use crate::text_map;

verus! {

/// A JSON number.
#[derive(Debug, PartialEq)]
pub enum JsonNumber {
    /// A nonnegative integer.
    Unsigned(u64),
    /// A negative integer.
    Negative(i64),
    /// Any other number, as its JSON spelling: the shortest one, as a serializer
    /// writes it.
    Real(String),
}

/// A JSON value. Object members keep their order.
#[derive(Debug, PartialEq)]
pub enum Json {
    /// The `null` value.
    Null,
    /// A boolean.
    Bool(bool),
    /// A number.
    Number(JsonNumber),
    /// A string.
    String(String),
    /// An array.
    Array(Vec<Json>),
    /// An object, as its members in order.
    Object(Vec<(String, Json)>),
}

/// The mathematical value of a [`JsonNumber`].
#[verifier::ext_equal]
pub enum JsonNumberView {
    Unsigned(u64),
    Negative(i64),
    Real(Seq<char>),
}

/// The mathematical value of a [`Json`].
#[verifier::ext_equal]
pub enum JsonView {
    Null,
    Bool(bool),
    Number(JsonNumberView),
    String(Seq<char>),
    Array(Seq<JsonView>),
    Object(Seq<(Seq<char>, JsonView)>),
}

impl View for JsonNumber {
    type V = JsonNumberView;

    open spec fn view(&self) -> JsonNumberView {
        match self {
            JsonNumber::Unsigned(value) => JsonNumberView::Unsigned(*value),
            JsonNumber::Negative(value) => JsonNumberView::Negative(*value),
            JsonNumber::Real(text) => JsonNumberView::Real(text@),
        }
    }
}

/// The mathematical value of a JSON value.
pub open spec fn json_view(json: Json) -> JsonView
    decreases json,
{
    match json {
        Json::Null => JsonView::Null,
        Json::Bool(value) => JsonView::Bool(value),
        Json::Number(number) => JsonView::Number(number@),
        Json::String(text) => JsonView::String(text@),
        Json::Array(items) => JsonView::Array(
            Seq::new(
                items@.len(),
                |i: int|
                    if 0 <= i < items@.len() {
                        json_view(items[i])
                    } else {
                        JsonView::Null
                    },
            ),
        ),
        Json::Object(members) => JsonView::Object(
            Seq::new(
                members@.len(),
                |i: int|
                    if 0 <= i < members@.len() {
                        (members[i].0@, json_view(members[i].1))
                    } else {
                        (Seq::<char>::empty(), JsonView::Null)
                    },
            ),
        ),
    }
}

impl View for Json {
    type V = JsonView;

    open spec fn view(&self) -> JsonView {
        json_view(*self)
    }
}

/// The values of an array's items.
pub open spec fn items_view(items: Seq<Json>) -> Seq<JsonView> {
    Seq::new(items.len(), |i: int| items[i]@)
}

/// The values of an object's members.
pub open spec fn members_view(members: Seq<(String, Json)>) -> Seq<(Seq<char>, JsonView)> {
    text_map::entries_view(members)
}

/// The value of an array is the sequence of its items' values.
pub broadcast proof fn lemma_array_view(items: Vec<Json>)
    ensures
        #[trigger] Json::Array(items)@ == JsonView::Array(items_view(items@)),
{
    assert(Json::Array(items)@->Array_0 =~= items_view(items@));
}

/// The value of an object is the sequence of its members' names and values.
pub broadcast proof fn lemma_object_view(members: Vec<(String, Json)>)
    ensures
        #[trigger] Json::Object(members)@ == JsonView::Object(members_view(members@)),
{
    assert(Json::Object(members)@->Object_0 =~= members_view(members@));
}

/// The index of the first member named `name`, or the member count.
pub open spec fn member_index(members: Seq<(Seq<char>, JsonView)>, name: Seq<char>) -> int
    decreases members.len(),
{
    if members.len() == 0 {
        0
    } else if members[0].0 == name {
        0
    } else {
        1 + member_index(members.drop_first(), name)
    }
}

/// The value of the first member named `name`.
pub open spec fn member(members: Seq<(Seq<char>, JsonView)>, name: Seq<char>) -> Option<JsonView> {
    let index = member_index(members, name);
    if index < members.len() {
        Some(members[index].1)
    } else {
        None
    }
}

/// Whether a member named `name` exists.
pub open spec fn has_member(members: Seq<(Seq<char>, JsonView)>, name: Seq<char>) -> bool {
    member(members, name) is Some
}

/// The value of a named member of any JSON value; only objects have members.
pub open spec fn json_member(json: JsonView, name: Seq<char>) -> Option<JsonView> {
    match json {
        JsonView::Object(members) => member(members, name),
        _ => None,
    }
}

/// `member_index` is the first index whose name matches.
pub proof fn lemma_member_index(members: Seq<(Seq<char>, JsonView)>, name: Seq<char>, index: int)
    requires
        0 <= index <= members.len(),
        forall|i: int| 0 <= i < index ==> (#[trigger] members[i]).0 != name,
        index < members.len() ==> members[index].0 == name,
    ensures
        member_index(members, name) == index,
    decreases members.len(),
{
    if members.len() > 0 && index > 0 {
        let rest = members.drop_first();
        assert(members[0].0 != name);
        assert forall|i: int| 0 <= i < index - 1 implies (#[trigger] rest[i]).0 != name by {
            assert(rest[i] == members[i + 1]);
        }
        lemma_member_index(rest, name, index - 1);
    }
}

/// Removing the first member of one name leaves the members of other names.
pub proof fn lemma_member_after_removal(
    members: Seq<(Seq<char>, JsonView)>,
    removed: int,
    name: Seq<char>,
)
    requires
        0 <= removed < members.len(),
        members[removed].0 != name,
    ensures
        member(members.remove(removed), name) == member(members, name),
    decreases members.len(),
{
    let rest = members.drop_first();
    let without = members.remove(removed);
    lemma_member_index_bounds(rest, name);
    if removed == 0 {
        assert(without =~= rest);
    } else {
        assert(without.drop_first() =~= rest.remove(removed - 1));
        assert(without[0] == members[0]);
        if members[0].0 != name {
            lemma_member_after_removal(rest, removed - 1, name);
            lemma_member_index_bounds(without.drop_first(), name);
        }
    }
}

/// `member_index` stays within the members.
pub proof fn lemma_member_index_bounds(members: Seq<(Seq<char>, JsonView)>, name: Seq<char>)
    ensures
        0 <= member_index(members, name) <= members.len(),
        forall|i: int| 0 <= i < member_index(members, name) ==> (#[trigger] members[i]).0 != name,
        member_index(members, name) < members.len() ==> members[member_index(members, name)].0
            == name,
    decreases members.len(),
{
    if members.len() > 0 && members[0].0 != name {
        lemma_member_index_bounds(members.drop_first(), name);
        assert forall|i: int| 0 <= i < member_index(members, name) implies (
        #[trigger] members[i]).0 != name by {
            if i > 0 {
                assert(members[i] == members.drop_first()[i - 1]);
            }
        }
    }
}

/// Returns the index of the first member named `name`, or the member count.
pub fn find_member(members: &Vec<(String, Json)>, name: &str) -> (index: usize)
    ensures
        index == member_index(members_view(members@), name@),
        index <= members@.len(),
{
    let mut index: usize = 0;
    while index < members.len()
        invariant
            index <= members@.len(),
            forall|i: int| 0 <= i < index ==> (#[trigger] members_view(members@)[i]).0 != name@,
        decreases members@.len() - index,
    {
        assert(members_view(members@)[index as int].0 == members@[index as int].0@);
        if text_equal(members[index].0.as_str(), name) {
            proof {
                lemma_member_index(members_view(members@), name@, index as int);
            }
            return index;
        }
        index = index + 1;
    }
    proof {
        lemma_member_index(members_view(members@), name@, index as int);
    }
    index
}

/// Returns whether a member named `name` exists.
pub fn contains_member(members: &Vec<(String, Json)>, name: &str) -> (found: bool)
    ensures
        found == has_member(members_view(members@), name@),
{
    let index: usize = find_member(members, name);
    index < members.len()
}

/// Removes and returns the first member named `name`.
pub fn take_member(members: &mut Vec<(String, Json)>, name: &str) -> (value: Option<Json>)
    ensures
        match value {
            Some(json) => member(members_view(old(members)@), name@) == Some(json@),
            None => member(members_view(old(members)@), name@) is None,
        },
        forall|other: Seq<char>| other != name@ ==> #[trigger] member(
            members_view(final(members)@),
            other,
        ) == member(members_view(old(members)@), other),
{
    let index: usize = find_member(members, name);
    let ghost before = members_view(members@);
    if index < members.len() {
        let (_, value) = members.remove(index);
        proof {
            lemma_member_index_bounds(before, name@);
            assert(members_view(members@) =~= before.remove(index as int));
            assert forall|other: Seq<char>| other != name@ implies #[trigger] member(
                members_view(members@),
                other,
            ) == member(before, other) by {
                lemma_member_after_removal(before, index as int, other);
            }
        }
        Some(value)
    } else {
        None
    }
}

impl Clone for JsonNumber {
    fn clone(&self) -> (copy: Self)
        ensures
            copy@ == self@,
    {
        match self {
            JsonNumber::Unsigned(value) => JsonNumber::Unsigned(*value),
            JsonNumber::Negative(value) => JsonNumber::Negative(*value),
            JsonNumber::Real(text) => JsonNumber::Real(text.clone()),
        }
    }
}

impl Clone for Json {
    fn clone(&self) -> (copy: Self)
        ensures
            copy@ == self@,
        decreases self,
    {
        match self {
            Json::Null => Json::Null,
            Json::Bool(value) => Json::Bool(*value),
            Json::Number(number) => Json::Number(number.clone()),
            Json::String(text) => Json::String(text.clone()),
            Json::Array(items) => {
                let mut copies: Vec<Json> = Vec::new();
                let mut index: usize = 0;
                while index < items.len()
                    invariant
                        index <= items@.len(),
                        *self == Json::Array(*items),
                        copies@.len() == index,
                        forall|i: int| 0 <= i < index ==> (#[trigger] copies@[i])@ == items@[i]@,
                    decreases items@.len() - index,
                {
                    assert(decreases_to!(*self => self->Array_0));
                    assert(decreases_to!(*items => items[index as int]));
                    copies.push(items[index].clone());
                    index = index + 1;
                }
                proof {
                    lemma_array_view(*items);
                    lemma_array_view(copies);
                    assert(items_view(copies@) =~= items_view(items@));
                }
                Json::Array(copies)
            },
            Json::Object(members) => {
                let mut copies: Vec<(String, Json)> = Vec::new();
                let mut index: usize = 0;
                while index < members.len()
                    invariant
                        index <= members@.len(),
                        *self == Json::Object(*members),
                        copies@.len() == index,
                        forall|i: int|
                            0 <= i < index ==> (#[trigger] copies@[i]).0@ == members@[i].0@
                                && copies@[i].1@ == members@[i].1@,
                    decreases members@.len() - index,
                {
                    assert(decreases_to!(*self => self->Object_0));
                    assert(decreases_to!(*members => members[index as int]));
                    assert(decreases_to!(members[index as int] => members[index as int].1));
                    copies.push((members[index].0.clone(), members[index].1.clone()));
                    index = index + 1;
                }
                proof {
                    lemma_object_view(*members);
                    lemma_object_view(copies);
                    assert(members_view(copies@) =~= members_view(members@));
                }
                Json::Object(copies)
            },
        }
    }
}

impl Json {
    /// Returns the first member of this object named `name`.
    pub fn get(&self, name: &str) -> (value: Option<&Json>)
        ensures
            match value {
                Some(json) => json_member(self@, name@) == Some(json@),
                None => json_member(self@, name@) is None,
            },
    {
        match self {
            Json::Object(members) => {
                proof {
                    lemma_object_view(*members);
                }
                let index: usize = find_member(members, name);
                if index < members.len() {
                    Some(&members[index].1)
                } else {
                    None
                }
            },
            _ => None,
        }
    }

    /// Returns whether this is the `null` value.
    pub fn is_null(&self) -> (null: bool)
        ensures
            null == (self@ is Null),
    {
        matches!(self, Json::Null)
    }

    /// Returns whether this is an array.
    pub fn is_array(&self) -> (array: bool)
        ensures
            array == (self@ is Array),
    {
        matches!(self, Json::Array(_))
    }

    /// Returns whether this is an object.
    pub fn is_object(&self) -> (object: bool)
        ensures
            object == (self@ is Object),
    {
        matches!(self, Json::Object(_))
    }
}

/// Returns a string value.
pub fn json_text(text: &str) -> (json: Json)
    ensures
        json@ == JsonView::String(text@),
{
    Json::String(text.to_owned())
}

/// Returns a nonnegative integer value.
pub fn json_number(number: u64) -> (json: Json)
    ensures
        json@ == number_json(number),
{
    Json::Number(JsonNumber::Unsigned(number))
}

/// The value of a nonnegative integer.
pub open spec fn number_json(number: u64) -> JsonView {
    JsonView::Number(JsonNumberView::Unsigned(number))
}

/// Returns an array of values.
pub fn json_array(items: Vec<Json>) -> (json: Json)
    ensures
        json@ == JsonView::Array(items_view(items@)),
{
    proof {
        lemma_array_view(items);
    }
    Json::Array(items)
}

/// Returns an object of members, in order.
pub fn json_object(members: Vec<(String, Json)>) -> (json: Json)
    ensures
        json@ == JsonView::Object(members_view(members@)),
{
    proof {
        lemma_object_view(members);
    }
    Json::Object(members)
}

/// Returns a named member.
pub fn named(name: &str, value: Json) -> (member: (String, Json))
    ensures
        member.0@ == name@,
        member.1@ == value@,
{
    (name.to_owned(), value)
}

/// Declares `serde_json::Value`, which only the conversions below look into.
#[verifier::external_type_specification]
#[verifier::external_body]
pub struct ExValue(serde_json::Value);

/// Converts a `serde_json::Value` to the [`Json`] of the same shape.
///
/// Each variant becomes the variant of the same name. A number becomes
/// `Unsigned` or `Negative` where it is such an integer, and otherwise `Real`
/// with the spelling that `serde_json::Number` prints.
#[verifier::external_body]
fn json_from_value(value: serde_json::Value) -> (json: Json) {
    match value {
        serde_json::Value::Null => Json::Null,
        serde_json::Value::Bool(value) => Json::Bool(value),
        serde_json::Value::Number(number) => Json::Number(match (number.as_u64(), number.as_i64()) {
            (Some(value), _) => JsonNumber::Unsigned(value),
            (None, Some(value)) => JsonNumber::Negative(value),
            (None, None) => JsonNumber::Real(number.to_string()),
        }),
        serde_json::Value::String(text) => Json::String(text),
        serde_json::Value::Array(items) => Json::Array(items.into_iter().map(json_from_value).collect()),
        serde_json::Value::Object(members) =>
            Json::Object(members.into_iter().map(|(name, value)| (name, json_from_value(value))).collect()),
    }
}

/// Converts a [`Json`] to the `serde_json::Value` of the same shape.
///
/// Members are inserted in order, and a `Real` is read back by
/// `serde_json::from_str`.
#[verifier::external_body]
pub(crate) fn value_from_json(json: &Json) -> (value: serde_json::Value) {
    match json {
        Json::Null => serde_json::Value::Null,
        Json::Bool(value) => serde_json::Value::Bool(*value),
        Json::Number(JsonNumber::Unsigned(value)) => serde_json::Value::from(*value),
        Json::Number(JsonNumber::Negative(value)) => serde_json::Value::from(*value),
        Json::Number(JsonNumber::Real(text)) => serde_json::from_str(text).unwrap_or_default(),
        Json::String(text) => serde_json::Value::String(text.clone()),
        Json::Array(items) => serde_json::Value::Array(items.iter().map(value_from_json).collect()),
        Json::Object(members) => serde_json::Value::Object(
            members.iter().map(|(name, value)| (name.clone(), value_from_json(value))).collect()),
    }
}

/// What `serde_json::from_slice` makes of a byte string: a value, or the text
/// of its error.
pub uninterp spec fn parsed_json(bytes: Seq<u8>) -> Result<JsonView, Seq<char>>;

/// What `serde_json::to_vec` makes of a value: its bytes, or the text of its
/// error.
pub uninterp spec fn serialized_json(json: JsonView) -> Result<Seq<u8>, Seq<char>>;

/// The outcome of a serialization, by views.
pub open spec fn serialized_view(serialized: Result<Vec<u8>, String>) -> Result<
    Seq<u8>,
    Seq<char>,
> {
    match serialized {
        Ok(bytes) => Ok(bytes@),
        Err(message) => Err(message@),
    }
}

/// How deeply arrays and objects may nest for `serde_json` to read them.
pub const READABLE_DEPTH: u64 = 127;

/// Whether a value holds only what its JSON spelling keeps: arrays and objects
/// nested at most `depth` deep, no member name twice in one object, and no
/// numbers but integers in their canonical form.
pub open spec fn is_plain(json: JsonView, depth: nat) -> bool
    decreases json,
{
    match json {
        JsonView::Null | JsonView::Bool(_) | JsonView::String(_) => true,
        JsonView::Number(JsonNumberView::Unsigned(_)) => true,
        JsonView::Number(JsonNumberView::Negative(value)) => value < 0,
        JsonView::Number(JsonNumberView::Real(_)) => false,
        JsonView::Array(items) => depth > 0 && forall|i: int|
            0 <= i < items.len() ==> is_plain(#[trigger] items[i], (depth - 1) as nat),
        JsonView::Object(members) => {
            &&& depth > 0
            &&& forall|i: int, j: int|
                0 <= i < j < members.len() ==> (#[trigger] members[i]).0 != (
                #[trigger] members[j]).0
            &&& forall|i: int|
                0 <= i < members.len() ==> is_plain(
                    (#[trigger] members[i]).1,
                    (depth - 1) as nat,
                )
        },
    }
}

/// Whether bytes are nonempty UTF-8 text without a line feed.
pub open spec fn is_compact(bytes: Seq<u8>) -> bool {
    &&& bytes.len() > 0
    &&& vstd::utf8::valid_utf8(bytes)
    &&& forall|i: int| 0 <= i < bytes.len() ==> #[trigger] bytes[i] != 10
}

/// Parses one JSON document with `serde_json::from_slice`.
///
/// The outcome depends on the bytes alone and is named [`parsed_json`].
#[verifier::external_body]
pub(crate) fn parse_json(bytes: &[u8]) -> (parsed: Result<Json, String>)
    ensures
        match parsed {
            Ok(json) => parsed_json(bytes@) == Ok::<JsonView, Seq<char>>(json@),
            Err(message) => parsed_json(bytes@) == Err::<JsonView, Seq<char>>(message@),
        },
{
    match serde_json::from_slice::<serde_json::Value>(bytes) {
        Ok(value) => Ok(json_from_value(value)),
        Err(error) => Err(error.to_string()),
    }
}

/// Serializes one JSON document compactly with `serde_json::to_vec`.
///
/// The outcome depends on the value alone and is named [`serialized_json`]. It
/// is never an error, because every member name is a string. The bytes are
/// nonempty, because every value has a spelling, and UTF-8 without a line feed:
/// the compact form has no white space between tokens, and strings spell control
/// characters out. `serde_json::from_slice` reads a plain value back from them.
#[verifier::external_body]
pub(crate) fn serialize_json(json: &Json) -> (bytes: Result<Vec<u8>, String>)
    ensures
        match bytes {
            Ok(bytes) => serialized_json(json@) == Ok::<Seq<u8>, Seq<char>>(bytes@),
            Err(message) => serialized_json(json@) == Err::<Seq<u8>, Seq<char>>(message@),
        },
        bytes matches Ok(bytes) && is_compact(bytes@) && (is_plain(json@, READABLE_DEPTH as nat)
            ==> parsed_json(bytes@) == Ok::<JsonView, Seq<char>>(json@)),
{
    match serde_json::to_vec(&value_from_json(json)) {
        Ok(bytes) => Ok(bytes),
        Err(error) => Err(error.to_string()),
    }
}

} // verus!
