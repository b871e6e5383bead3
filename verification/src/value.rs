//! JSON values: the tree that requests and replies are made of.

use vstd::prelude::*;

verus! {

/// A JSON value. A number is an unsigned integer, a negative integer, or a floating-point
/// number, which is held by its two decimal texts: the one that JSON documents have, and the
/// plain one without an exponent. An object lists its members in order; where a name occurs
/// twice the first one counts.
pub enum Json {
    Null,
    Bool(bool),
    Unsigned(u64),
    Negative(i64),
    Float { json: String, plain: String },
    Str(String),
    Array(Vec<Json>),
    Object(Vec<(String, Json)>),
}

/// The mathematical value of a [`Json`].
#[verifier::ext_equal]
pub enum JsonView {
    Null,
    Bool(bool),
    Unsigned(u64),
    Negative(i64),
    Float { json: Seq<char>, plain: Seq<char> },
    Str(Seq<char>),
    Array(Seq<JsonView>),
    Object(Seq<(Seq<char>, JsonView)>),
}

/// The values of a list.
pub open spec fn values(v: Seq<Json>) -> Seq<JsonView> {
    v.map_values(|j: Json| j@)
}

/// The names and values of a list of members.
pub open spec fn members(v: Seq<(String, Json)>) -> Seq<(Seq<char>, JsonView)> {
    v.map_values(|m: (String, Json)| (m.0@, m.1@))
}

/// The mathematical value of a JSON value.
pub open spec fn value_of(j: Json) -> JsonView
    decreases j,
{
    match j {
        Json::Null => JsonView::Null,
        Json::Bool(b) => JsonView::Bool(b),
        Json::Unsigned(n) => JsonView::Unsigned(n),
        Json::Negative(n) => JsonView::Negative(n),
        Json::Float { json, plain } => JsonView::Float { json: json@, plain: plain@ },
        Json::Str(s) => JsonView::Str(s@),
        Json::Array(v) => JsonView::Array(
            Seq::new(
                v@.len(),
                |i: int|
                    if 0 <= i < v@.len() {
                        value_of(v[i])
                    } else {
                        JsonView::Null
                    },
            ),
        ),
        Json::Object(v) => JsonView::Object(
            Seq::new(
                v@.len(),
                |i: int|
                    if 0 <= i < v@.len() {
                        (v[i].0@, value_of(v[i].1))
                    } else {
                        (seq![], JsonView::Null)
                    },
            ),
        ),
    }
}

impl View for Json {
    type V = JsonView;

    open spec fn view(&self) -> JsonView {
        value_of(*self)
    }
}

/// The value of an array is the list of its items' values.
pub broadcast proof fn array_value(v: Vec<Json>)
    ensures
        #[trigger] Json::Array(v).view() == JsonView::Array(values(v@)),
{
    let all = Json::Array(v)@->Array_0;
    assert forall|i: int| 0 <= i < v@.len() implies all[i] == values(v@)[i] by {
        assert(all[i] == value_of(v[i]));
    }
    assert(all =~= values(v@));
}

/// The value of an object is the list of its members' names and values.
pub broadcast proof fn object_value(v: Vec<(String, Json)>)
    ensures
        #[trigger] Json::Object(v).view() == JsonView::Object(members(v@)),
{
    let all = Json::Object(v)@->Object_0;
    assert forall|i: int| 0 <= i < v@.len() implies all[i] == members(v@)[i] by {
        assert(all[i] == (v[i].0@, value_of(v[i].1)));
    }
    assert(all =~= members(v@));
}

/// The value of the first member called `key`.
pub open spec fn lookup(m: Seq<(Seq<char>, JsonView)>, key: Seq<char>) -> Option<JsonView>
    decreases m.len(),
{
    if m.len() == 0 {
        None
    } else if m[0].0 == key {
        Some(m[0].1)
    } else {
        lookup(m.skip(1), key)
    }
}

/// The members with the value of the first one called `key` replaced.
pub open spec fn replaced_member(
    m: Seq<(Seq<char>, JsonView)>,
    key: Seq<char>,
    v: JsonView,
) -> Seq<(Seq<char>, JsonView)>
    decreases m.len(),
{
    if m.len() == 0 {
        m
    } else if m[0].0 == key {
        seq![(key, v)] + m.skip(1)
    } else {
        seq![m[0]] + replaced_member(m.skip(1), key, v)
    }
}

/// An object with one member.
pub open spec fn object(k: Seq<char>, v: JsonView) -> JsonView {
    JsonView::Object(seq![(k, v)])
}

/// An object without members.
pub open spec fn empty_object() -> JsonView {
    JsonView::Object(seq![])
}

impl JsonView {
    /// An object with one more member at its end; any other value as it is.
    pub open spec fn with(self, k: Seq<char>, v: JsonView) -> JsonView {
        match self {
            JsonView::Object(m) => JsonView::Object(m.push((k, v))),
            _ => self,
        }
    }

    /// An object with the value of the first member called `key` replaced; any other value as
    /// it is.
    pub open spec fn replace(self, key: Seq<char>, v: JsonView) -> JsonView {
        match self {
            JsonView::Object(m) => JsonView::Object(replaced_member(m, key, v)),
            _ => self,
        }
    }

    /// The member of an object called `key`.
    pub open spec fn get(self, key: Seq<char>) -> Option<JsonView> {
        match self {
            JsonView::Object(m) => lookup(m, key),
            _ => None,
        }
    }

    /// The text of a string.
    pub open spec fn as_str(self) -> Option<Seq<char>> {
        match self {
            JsonView::Str(s) => Some(s),
            _ => None,
        }
    }

    /// The value of an unsigned integer.
    pub open spec fn as_u64(self) -> Option<u64> {
        match self {
            JsonView::Unsigned(n) => Some(n),
            _ => None,
        }
    }

    /// The value of a boolean.
    pub open spec fn as_bool(self) -> Option<bool> {
        match self {
            JsonView::Bool(b) => Some(b),
            _ => None,
        }
    }

    /// The items of an array.
    pub open spec fn as_array(self) -> Option<Seq<JsonView>> {
        match self {
            JsonView::Array(v) => Some(v),
            _ => None,
        }
    }

    /// The text of the member called `key`, where there is one and it is a string.
    pub open spec fn get_str(self, key: Seq<char>) -> Option<Seq<char>> {
        match self.get(key) {
            Some(v) => v.as_str(),
            None => None,
        }
    }

    /// The number in the member called `key`, where there is one and it is an unsigned integer.
    pub open spec fn get_u64(self, key: Seq<char>) -> Option<u64> {
        match self.get(key) {
            Some(v) => v.as_u64(),
            None => None,
        }
    }

    /// The items in the member called `key`, where there is one and it is an array.
    pub open spec fn get_array(self, key: Seq<char>) -> Option<Seq<JsonView>> {
        match self.get(key) {
            Some(v) => v.as_array(),
            None => None,
        }
    }

    /// The member called `key`, or `default` where there is none.
    pub open spec fn get_or(self, key: Seq<char>, default: JsonView) -> JsonView {
        match self.get(key) {
            Some(v) => v,
            None => default,
        }
    }

    /// The text of the member called `key`, or `default`.
    pub open spec fn get_str_or(self, key: Seq<char>, default: Seq<char>) -> Seq<char> {
        match self.get_str(key) {
            Some(s) => s,
            None => default,
        }
    }

    /// The number in the member called `key`, or `default`.
    pub open spec fn get_u64_or(self, key: Seq<char>, default: u64) -> u64 {
        match self.get_u64(key) {
            Some(n) => n,
            None => default,
        }
    }
}

} // verus!
