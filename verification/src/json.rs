//! JSON values as the protocol's payloads carry them.

use vstd::prelude::*;

use crate::text::same_text;
use crate::trusted::json::{
    close_value, insert_member, into_members, new_map, number_as_i64, number_copy,
    number_from_i64, number_from_u64, open_value, parse_slice, parse_value, write_value, JsonNode,
};
#[allow(unused_imports)]
use crate::trusted::json::{
    integral_within, json_text, map_tree, natural_number, number_integer, pairs_tree,
    parsed_bytes, parsed_text, reader_depth, signed_number, value_tree, values_tree,
};

verus! {

/// One JSON value.
#[derive(Debug, PartialEq)]
pub enum Json {
    /// `null`.
    Null,
    /// `true` or `false`.
    Bool(bool),
    /// A number, kept as it was read.
    Number(serde_json::Number),
    /// A string.
    String(String),
    /// An array.
    Array(Vec<Json>),
    /// An object, as a list of members; of two members with one key the later counts.
    Object(Vec<(String, Json)>),
}

/// The mathematical value of a [`Json`].
pub enum JsonView {
    /// `null`.
    Null,
    /// `true` or `false`.
    Bool(bool),
    /// A number.
    Number(serde_json::Number),
    /// A string.
    String(Seq<char>),
    /// An array.
    Array(Seq<JsonView>),
    /// An object: a finite map from keys to values.
    Object(Map<Seq<char>, JsonView>),
}

/// What reading JSON gives: a tree, or the message of the error.
pub enum ParsedView {
    /// The tree that was read.
    Tree(JsonView),
    /// The message of the error.
    Failure(Seq<char>),
}

/// The tree of a JSON value.
pub open spec fn json_tree(json: Json) -> JsonView
    decreases json,
{
    match json {
        Json::Null => JsonView::Null,
        Json::Bool(flag) => JsonView::Bool(flag),
        Json::Number(number) => JsonView::Number(number),
        Json::String(text) => JsonView::String(text@),
        Json::Array(items) => JsonView::Array(items_tree(items@)),
        Json::Object(members) => JsonView::Object(members_tree(members@)),
    }
}

/// The trees of the items of an array.
pub open spec fn items_tree(items: Seq<Json>) -> Seq<JsonView>
    decreases items,
{
    Seq::new(
        items.len(),
        |i: int|
            if 0 <= i < items.len() {
                json_tree(items[i])
            } else {
                JsonView::Null
            },
    )
}

/// The members of an object; of two members with one key the later counts.
pub open spec fn members_tree(members: Seq<(String, Json)>) -> Map<Seq<char>, JsonView>
    decreases members,
{
    if members.len() == 0 {
        Map::empty()
    } else {
        members_tree(members.drop_last()).insert(members.last().0@, json_tree(members.last().1))
    }
}

impl View for Json {
    type V = JsonView;

    open spec fn view(&self) -> JsonView {
        json_tree(*self)
    }
}

/// The tree of an optional JSON value.
pub open spec fn opt_tree(json: Option<Json>) -> Option<JsonView> {
    match json {
        Some(json) => Some(json@),
        None => None,
    }
}

impl JsonView {
    /// The object without members.
    pub open spec fn empty_object() -> JsonView {
        JsonView::Object(Map::empty())
    }

    /// The member of an object with the given key.
    pub open spec fn field(self, key: Seq<char>) -> Option<JsonView> {
        match self {
            JsonView::Object(members) if members.contains_key(key) => Some(members[key]),
            _ => None,
        }
    }

    /// The object with one more member; of two members with one key the later counts.
    pub open spec fn with(self, key: Seq<char>, value: JsonView) -> JsonView {
        match self {
            JsonView::Object(members) => JsonView::Object(members.insert(key, value)),
            _ => self,
        }
    }

    /// The content of a string.
    pub open spec fn as_text(self) -> Option<Seq<char>> {
        match self {
            JsonView::String(text) => Some(text),
            _ => None,
        }
    }

    /// The items of an array.
    pub open spec fn as_items(self) -> Option<Seq<JsonView>> {
        match self {
            JsonView::Array(items) => Some(items),
            _ => None,
        }
    }

    /// The integer of a number that is one and fits 64 signed bits.
    pub open spec fn as_integer(self) -> Option<i64> {
        match self {
            JsonView::Number(number) => match number_integer(number) {
                Some(k) if i64::MIN <= k <= i64::MAX => Some(k as i64),
                _ => None,
            },
            _ => None,
        }
    }

    /// The member with the given key, where it is a string.
    pub open spec fn text_field(self, key: Seq<char>) -> Option<Seq<char>> {
        match self.field(key) {
            Some(member) => member.as_text(),
            None => None,
        }
    }
}

impl Json {
    /// The string with the given content.
    pub fn text(content: &str) -> (json: Json)
        ensures
            json@ == JsonView::String(content@),
    {
        Json::String(content.to_owned())
    }

    /// The number that is the given natural number.
    pub fn natural(n: u64) -> (json: Json)
        ensures
            json@ == JsonView::Number(natural_number(n)),
            number_integer(natural_number(n)) == Some(n as int),
    {
        Json::Number(number_from_u64(n))
    }

    /// The number that is the given integer.
    pub fn integer(n: i64) -> (json: Json)
        ensures
            json@ == JsonView::Number(signed_number(n)),
            number_integer(signed_number(n)) == Some(n as int),
            json@.as_integer() == Some(n),
    {
        Json::Number(number_from_i64(n))
    }

    /// The object without members.
    pub fn empty_object() -> (json: Json)
        ensures
            json@ == JsonView::empty_object(),
    {
        Json::Object(Vec::new())
    }

    /// The object with one more member; of two members with one key the later counts.
    pub fn with(self, key: &str, value: Json) -> (json: Json)
        ensures
            json@ == self@.with(key@, value@),
    {
        match self {
            Json::Object(members) => {
                let mut members = members;
                set_member(&mut members, key, value);
                Json::Object(members)
            },
            other => other,
        }
    }

    /// The member of an object with the given key.
    pub fn get(&self, key: &str) -> (member: Option<&Json>)
        ensures
            match member {
                Some(member) => self@.field(key@) == Some(member@),
                None => self@.field(key@) is None,
            },
    {
        match self {
            Json::Object(members) => {
                let mut i: usize = members.len();
                assert(members@.take(i as int) =~= members@);
                while i > 0
                    invariant
                        *self == Json::Object(*members),
                        i <= members@.len(),
                        members_tree(members@.take(i as int)).contains_key(key@)
                            == members_tree(members@).contains_key(key@),
                        members_tree(members@).contains_key(key@) ==> members_tree(
                            members@.take(i as int),
                        )[key@] == members_tree(members@)[key@],
                    decreases i,
                {
                    assert(members@.take(i as int).drop_last() =~= members@.take(i - 1));
                    if same_text(members[i - 1].0.as_str(), key) {
                        return Some(&members[i - 1].1);
                    }
                    i -= 1;
                }
                None
            },
            _ => None,
        }
    }

    /// The content of a string.
    pub fn as_str(&self) -> (text: Option<&str>)
        ensures
            match text {
                Some(text) => self@.as_text() == Some(text@),
                None => self@.as_text() is None,
            },
    {
        match self {
            Json::String(text) => Some(text.as_str()),
            _ => None,
        }
    }

    /// The member with the given key, where it is a string.
    pub fn get_str(&self, key: &str) -> (text: Option<&str>)
        ensures
            match text {
                Some(text) => self@.text_field(key@) == Some(text@),
                None => self@.text_field(key@) is None,
            },
    {
        match self.get(key) {
            Some(member) => member.as_str(),
            None => None,
        }
    }

    /// The items of an array.
    pub fn as_array(&self) -> (items: Option<&Vec<Json>>)
        ensures
            match items {
                Some(items) => self@.as_items() == Some(items_tree(items@)),
                None => self@.as_items() is None,
            },
    {
        match self {
            Json::Array(items) => Some(items),
            _ => None,
        }
    }

    /// Whether the value is an object.
    pub fn is_object(&self) -> (object: bool)
        ensures
            object == (self@ is Object),
    {
        match self {
            Json::Object(_) => true,
            _ => false,
        }
    }

    /// The integer of a number that is one and fits 64 signed bits.
    pub fn as_i64(&self) -> (n: Option<i64>)
        ensures
            n == self@.as_integer(),
    {
        match self {
            Json::Number(number) => number_as_i64(number),
            _ => None,
        }
    }
}

/// Appending a member to an object's list sets that member.
pub proof fn lemma_members_push(members: Seq<(String, Json)>, key: String, value: Json)
    ensures
        members_tree(members.push((key, value))) == members_tree(members).insert(key@, value@),
{
    assert(members.push((key, value)).drop_last() =~= members);
}

/// Adds a member to an object, or replaces it where the key is present.
pub(crate) fn set_member(members: &mut Vec<(String, Json)>, key: &str, value: Json)
    ensures
        members_tree(final(members)@) == members_tree(old(members)@).insert(key@, value@),
{
    let key = key.to_owned();
    proof {
        lemma_members_push(members@, key, value);
    }
    members.push((key, value));
}

impl Clone for Json {
    fn clone(&self) -> (copy: Self)
        ensures
            copy@ == self@,
        decreases self,
    {
        match self {
            Json::Null => Json::Null,
            Json::Bool(flag) => Json::Bool(*flag),
            Json::Number(number) => Json::Number(number_copy(number)),
            Json::String(text) => Json::String(text.clone()),
            Json::Array(items) => {
                let mut copies: Vec<Json> = Vec::new();
                let mut i: usize = 0;
                while i < items.len()
                    invariant
                        *self == Json::Array(*items),
                        i <= items@.len(),
                        copies@.len() == i,
                        forall|j: int|
                            0 <= j < i ==> json_tree(#[trigger] copies@[j]) == json_tree(items@[j]),
                    decreases items@.len() - i,
                {
                    assert(decreases_to!(*self => self->Array_0));
                    assert(decreases_to!(*items => items@));
                    assert(decreases_to!(items@ => items@[i as int]));
                    copies.push(items[i].clone());
                    i += 1;
                }
                assert(items_tree(copies@) =~= items_tree(items@));
                Json::Array(copies)
            },
            Json::Object(members) => {
                let mut copies: Vec<(String, Json)> = Vec::new();
                let mut i: usize = 0;
                while i < members.len()
                    invariant
                        *self == Json::Object(*members),
                        i <= members@.len(),
                        members_tree(copies@) == members_tree(members@.take(i as int)),
                    decreases members@.len() - i,
                {
                    assert(members@.take(i + 1).drop_last() =~= members@.take(i as int));
                    assert(decreases_to!(*self => self->Object_0));
                    assert(decreases_to!(*members => members@));
                    assert(decreases_to!(members@ => members@[i as int]));
                    assert(decreases_to!(members@[i as int] => members@[i as int].1));
                    let key = members[i].0.clone();
                    let value = members[i].1.clone();
                    proof {
                        lemma_members_push(copies@, key, value);
                    }
                    copies.push((key, value));
                    i += 1;
                }
                assert(members@.take(members@.len() as int) =~= members@);
                Json::Object(copies)
            },
        }
    }
}

/// A copy of a list of values.
pub fn copy_items(items: &Vec<Json>) -> (copies: Vec<Json>)
    ensures
        items_tree(copies@) == items_tree(items@),
{
    let mut copies: Vec<Json> = Vec::new();
    let mut i: usize = 0;
    while i < items.len()
        invariant
            i <= items@.len(),
            copies@.len() == i,
            forall|j: int| 0 <= j < i ==> json_tree(#[trigger] copies@[j]) == json_tree(items@[j]),
        decreases items@.len() - i,
    {
        copies.push(items[i].clone());
        i += 1;
    }
    assert(items_tree(copies@) =~= items_tree(items@));
    copies
}

/// A member of a list without repeated keys is a member of the object.
proof fn lemma_pair_listed(pairs: Seq<(String, serde_json::Value)>, i: int)
    requires
        0 <= i < pairs.len(),
        forall|i: int, j: int| 0 <= i < j < pairs.len() ==> pairs[i].0@ != pairs[j].0@,
    ensures
        pairs_tree(pairs).dom().finite(),
        pairs_tree(pairs).contains_key(pairs[i].0@),
        pairs_tree(pairs)[pairs[i].0@] == value_tree(pairs[i].1),
    decreases pairs.len(),
{
    lemma_pairs_finite(pairs);
    if i < pairs.len() - 1 {
        assert(pairs.drop_last()[i] == pairs[i]);
        lemma_pair_listed(pairs.drop_last(), i);
    }
}

proof fn lemma_pairs_finite(pairs: Seq<(String, serde_json::Value)>)
    ensures
        pairs_tree(pairs).dom().finite(),
    decreases pairs.len(),
{
    if pairs.len() > 0 {
        lemma_pairs_finite(pairs.drop_last());
    }
}

/// The library's form of a value that the JSON reader yields.
fn from_value(source: serde_json::Value) -> (json: Json)
    ensures
        json@ == value_tree(source),
    decreases value_tree(source),
{
    let ghost tree = value_tree(source);
    match open_value(source) {
        JsonNode::Null => Json::Null,
        JsonNode::Bool(flag) => Json::Bool(flag),
        JsonNode::Number(number) => Json::Number(number),
        JsonNode::String(text) => Json::String(text),
        JsonNode::Array(values) => {
            let mut items: Vec<Json> = Vec::new();
            for value in it: values
                invariant
                    tree == value_tree(source),
                    tree == JsonView::Array(values_tree(it.seq())),
                    items@.len() == it.index(),
                    forall|i: int|
                        0 <= i < items@.len() ==> json_tree(#[trigger] items@[i]) == value_tree(
                            it.seq()[i],
                        ),
            {
                assert(tree->Array_0[it.index()] == value_tree(value));
                items.push(from_value(value));
            }
            assert(items_tree(items@) =~= tree->Array_0);
            Json::Array(items)
        },
        JsonNode::Object(map) => {
            let pairs = into_members(map);
            let mut members: Vec<(String, Json)> = Vec::new();
            for pair in it: pairs
                invariant
                    tree == value_tree(source),
                    tree == JsonView::Object(pairs_tree(it.seq())),
                    forall|i: int, j: int|
                        0 <= i < j < it.seq().len() ==> it.seq()[i].0@ != it.seq()[j].0@,
                    members@.len() == it.index(),
                    members_tree(members@) == pairs_tree(it.seq().take(it.index())),
            {
                let (key, value) = pair;
                proof {
                    lemma_pair_listed(it.seq(), it.index());
                    assert(it.seq().take(it.index() + 1).drop_last() =~= it.seq().take(it.index()));
                    assert(decreases_to!(tree->Object_0 => tree->Object_0[key@]));
                }
                let member = from_value(value);
                proof {
                    lemma_members_push(members@, key, member);
                }
                members.push((key, member));
            }
            assert(pairs@.take(pairs@.len() as int) =~= pairs@);
            Json::Object(members)
        },
    }
}

/// The JSON writer's form of a value.
fn to_value(json: &Json) -> (value: serde_json::Value)
    ensures
        value_tree(value) == json@,
    decreases json,
{
    match json {
        Json::Null => close_value(JsonNode::Null),
        Json::Bool(flag) => close_value(JsonNode::Bool(*flag)),
        Json::Number(number) => close_value(JsonNode::Number(number_copy(number))),
        Json::String(text) => close_value(JsonNode::String(text.clone())),
        Json::Array(items) => {
            let mut values: Vec<serde_json::Value> = Vec::new();
            let mut i: usize = 0;
            while i < items.len()
                invariant
                    *json == Json::Array(*items),
                    i <= items@.len(),
                    values@.len() == i,
                    forall|j: int|
                        0 <= j < i ==> value_tree(#[trigger] values@[j]) == json_tree(items@[j]),
                decreases items@.len() - i,
            {
                assert(decreases_to!(*json => json->Array_0));
                assert(decreases_to!(*items => items@));
                assert(decreases_to!(items@ => items@[i as int]));
                values.push(to_value(&items[i]));
                i += 1;
            }
            assert(values_tree(values@) =~= items_tree(items@));
            close_value(JsonNode::Array(values))
        },
        Json::Object(members) => {
            let mut map = new_map();
            let mut i: usize = 0;
            while i < members.len()
                invariant
                    *json == Json::Object(*members),
                    i <= members@.len(),
                    map_tree(map) == members_tree(members@.take(i as int)),
                decreases members@.len() - i,
            {
                assert(members@.take(i + 1).drop_last() =~= members@.take(i as int));
                assert(decreases_to!(*json => json->Object_0));
                assert(decreases_to!(*members => members@));
                assert(decreases_to!(members@ => members@[i as int]));
                assert(decreases_to!(members@[i as int] => members@[i as int].1));
                insert_member(&mut map, members[i].0.clone(), to_value(&members[i].1));
                i += 1;
            }
            assert(members@.take(members@.len() as int) =~= members@);
            close_value(JsonNode::Object(map))
        },
    }
}

/// Reads a text as one JSON value; the error is the reader's message.
pub fn parse_json(text: &str) -> (result: Result<Json, String>)
    ensures
        match result {
            Ok(json) => parsed_text(text@) == ParsedView::Tree(json@),
            Err(message) => parsed_text(text@) == ParsedView::Failure(message@),
        },
{
    match parse_value(text) {
        Ok(value) => Ok(from_value(value)),
        Err(message) => Err(message),
    }
}

/// Reads bytes as one JSON value; the error is the reader's message.
pub fn parse_json_bytes(bytes: &[u8]) -> (result: Result<Json, String>)
    ensures
        match result {
            Ok(json) => parsed_bytes(bytes@) == ParsedView::Tree(json@),
            Err(message) => parsed_bytes(bytes@) == ParsedView::Failure(message@),
        },
{
    match parse_slice(bytes) {
        Ok(value) => Ok(from_value(value)),
        Err(message) => Err(message),
    }
}

/// Writes a value as one line of compact JSON.
pub fn write_json(json: &Json) -> (text: String)
    ensures
        text@ == json_text(json@),
        !text@.contains('\n'),
        integral_within(json@, reader_depth()) ==> parsed_text(text@) == ParsedView::Tree(
            json@,
        ),
{
    write_value(&to_value(json))
}

/// The member of an object under a key is the value of the last entry with that key; a key that no
/// entry has names no member.
pub proof fn law_the_last_member_counts(members: Seq<(String, Json)>, key: Seq<char>, last: int)
    requires
        -1 <= last < members.len(),
        last >= 0 ==> members[last].0@ == key,
        forall|i: int| last < i < members.len() ==> (#[trigger] members[i]).0@ != key,
    ensures
        members_tree(members).contains_key(key) <==> last >= 0,
        last >= 0 ==> members_tree(members)[key] == members[last].1@,
    decreases members.len(),
{
    if members.len() > 0 && last < members.len() - 1 {
        let rest = members.drop_last();
        assert(members[members.len() - 1].0@ != key);
        assert forall|i: int| last < i < rest.len() implies (#[trigger] rest[i]).0@ != key by {
            assert(rest[i] == members[i]);
        }
        law_the_last_member_counts(rest, key, last);
    }
}

/// The tree of a value has its shape: a scalar is itself, an array holds the trees of its items in
/// order, and an object those of its members.
pub proof fn law_trees_keep_their_shape(json: Json)
    ensures
        match json {
            Json::Null => json@ is Null,
            Json::Bool(flag) => json@ == JsonView::Bool(flag),
            Json::Number(number) => json@ == JsonView::Number(number),
            Json::String(text) => json@ == JsonView::String(text@),
            Json::Array(items) => json@ matches JsonView::Array(trees) && trees.len()
                == items@.len() && forall|i: int|
                0 <= i < trees.len() ==> #[trigger] trees[i] == items@[i]@,
            Json::Object(members) => json@ == JsonView::Object(members_tree(members@)),
        },
{
}

/// Reading a member gives what was set last under its key, and setting one leaves the others.
pub proof fn law_members_are_read_as_they_were_set(
    members: Map<Seq<char>, JsonView>,
    key: Seq<char>,
    value: JsonView,
    other: Seq<char>,
)
    ensures
        ({
            let object = JsonView::Object(members);
            &&& object.with(key, value).field(key) == Some(value)
            &&& other != key ==> object.with(key, value).field(other) == object.field(other)
            &&& object.with(key, value) is Object
            &&& object.field(key) is Some <==> members.contains_key(key)
            &&& members.contains_key(key) ==> object.field(key) == Some(members[key])
            &&& JsonView::empty_object().field(key) is None
            &&& JsonView::empty_object() is Object
        }),
{
}

/// Only an object has members, only a string a text, only an array items, and only a number that is
/// an integer of 64 signed bits an integer.
pub proof fn law_values_are_told_apart(value: JsonView, key: Seq<char>, text: Seq<char>, n: i64)
    ensures
        !(value is Object) ==> value.field(key) is None,
        value.as_text() == Some(text) <==> value == JsonView::String(text),
        value.as_text() is Some ==> value is String,
        value.as_items() matches Some(items) ==> value == JsonView::Array(items),
        value is Array ==> value.as_items() == Some(value->Array_0),
        value.as_integer() == Some(n) <==> (value matches JsonView::Number(number)
            && number_integer(number) == Some(n as int)),
        value.text_field(key) == Some(text) <==> value.field(key) == Some(JsonView::String(text)),
        value.text_field(key) is Some ==> (value.field(key) matches Some(JsonView::String(_))),
{
}

/// What the reading methods give of a value is what its tree holds.
pub proof fn law_values_are_read_by_their_tree(
    json: Json,
    key: &str,
    member: Option<&Json>,
    text: Option<&str>,
    items: Option<&Vec<Json>>,
    n: Option<i64>,
    object: bool,
)
    requires
        call_ensures(Json::get, (&json, key), member),
        call_ensures(Json::get_str, (&json, key), text),
        call_ensures(Json::as_array, (&json,), items),
        call_ensures(Json::as_i64, (&json,), n),
        call_ensures(Json::is_object, (&json,), object),
    ensures
        object <==> json@ is Object,
        member is Some <==> (json@ matches JsonView::Object(members) && members.contains_key(key@)),
        member matches Some(found) ==> found@ == json@->Object_0[key@],
        text is Some <==> (member matches Some(found) && found@ is String),
        text matches Some(found) ==> JsonView::String(found@) == json@->Object_0[key@],
        items is Some <==> json@ is Array,
        items matches Some(found) ==> items_tree(found@) == json@->Array_0,
        n matches Some(found) ==> (json@ matches JsonView::Number(number) && number_integer(number)
            == Some(found as int)),
        json@ matches JsonView::Number(number) ==> (number_integer(number) matches Some(k)
            ==> i64::MIN <= k <= i64::MAX ==> n is Some),
{
}

/// A value that is made holds what it was made of.
pub proof fn law_values_hold_what_they_are_made_of(
    content: &str,
    text: Json,
    n: u64,
    natural: Json,
    k: i64,
    integer: Json,
    empty: Json,
    object: Json,
    key: &str,
    value: Json,
    extended: Json,
)
    requires
        call_ensures(Json::text, (content,), text),
        call_ensures(Json::natural, (n,), natural),
        call_ensures(Json::integer, (k,), integer),
        call_ensures(Json::empty_object, (), empty),
        call_ensures(Json::with, (object, key, value), extended),
        object@ is Object,
    ensures
        text@ == JsonView::String(content@),
        natural@ matches JsonView::Number(number) && number_integer(number) == Some(n as int),
        integer@ matches JsonView::Number(number) && number_integer(number) == Some(k as int),
        empty@ == JsonView::Object(Map::empty()),
        extended@ is Object,
        extended@->Object_0 == object@->Object_0.insert(key@, value@),
{
}

/// Copies have the trees of what they copy.
pub proof fn law_copies_have_the_same_tree(
    items: Vec<Json>,
    copies: Vec<Json>,
    json: Json,
    copy: Json,
    i: int,
)
    requires
        call_ensures(copy_items, (&items,), copies),
        call_ensures(<Json as Clone>::clone, (&json,), copy),
    ensures
        copy@ == json@,
        copies@.len() == items@.len(),
        0 <= i < items@.len() ==> copies@[i]@ == items@[i]@,
{
    assert(items_tree(copies@).len() == copies@.len());
    assert(items_tree(items@).len() == items@.len());
    if 0 <= i < items@.len() {
        assert(items_tree(copies@)[i] == copies@[i]@);
        assert(items_tree(items@)[i] == items@[i]@);
    }
}

/// What is written, in one line, is read back as it was, as far as numbers are integers and nothing
/// is nested deeper than the reader goes; what is read is what the reader says.
pub proof fn law_what_is_written_is_read_back(
    json: Json,
    text: String,
    line: &str,
    result: Result<Json, String>,
    bytes: &[u8],
    from_bytes: Result<Json, String>,
)
    requires
        call_ensures(write_json, (&json,), text),
        call_ensures(parse_json, (line,), result),
        call_ensures(parse_json_bytes, (bytes,), from_bytes),
        line@ == text@,
    ensures
        !text@.contains('\n'),
        integral_within(json@, reader_depth()) ==> (result matches Ok(read) && read@ == json@),
        from_bytes matches Ok(read) ==> parsed_bytes(bytes@) == ParsedView::Tree(read@),
        from_bytes matches Err(message) ==> parsed_bytes(bytes@) == ParsedView::Failure(message@),
{
}

/// A string is read as its text, and nothing else is.
pub proof fn law_only_strings_are_texts(json: Json, text: Option<&str>)
    requires
        call_ensures(Json::as_str, (&json,), text),
    ensures
        text is Some <==> json is String,
        text matches Some(found) ==> json@ == JsonView::String(found@),
{
}

} // verus!
