//! Reading, copying and building JSON values.

use crate::text::text_eq;
use crate::value::{
    array_value, empty_object, lookup, members, object, object_value, replaced_member,
    values, Json, JsonView,
};
use vstd::prelude::*;

verus! {

broadcast use {array_value, object_value};

/// The value of an optional JSON value.
pub open spec fn option_value(o: Option<&Json>) -> Option<JsonView> {
    match o {
        Some(v) => Some(v@),
        None => None,
    }
}

/// The text of an optional string slice.
pub open spec fn option_text(o: Option<&str>) -> Option<Seq<char>> {
    match o {
        Some(s) => Some(s@),
        None => None,
    }
}

impl Json {
    /// The member of an object called `key`.
    pub fn get(&self, key: &str) -> (r: Option<&Json>)
        ensures
            option_value(r) == self@.get(key@),
    {
        match self {
            Json::Object(m) => {
                let ghost all = self@->Object_0;
                let mut i: usize = 0;
                assert(all.skip(0) == all);
                while i < m.len()
                    invariant
                        *self == Json::Object(*m),
                        self@ == JsonView::Object(all),
                        all == members(m@),
                        i <= m@.len(),
                        lookup(all, key@) == lookup(all.skip(i as int), key@),
                    decreases m@.len() - i,
                {
                    if text_eq(m[i].0.as_str(), key) {
                        return Some(&m[i].1);
                    }
                    assert(all.skip(i as int).skip(1) == all.skip(i + 1));
                    i = i + 1;
                }
                None
            },
            _ => None,
        }
    }

    /// The text of a string.
    pub fn as_str(&self) -> (r: Option<&str>)
        ensures
            option_text(r) == self@.as_str(),
    {
        match self {
            Json::Str(s) => Some(s.as_str()),
            _ => None,
        }
    }

    /// The value of an unsigned integer.
    pub fn as_u64(&self) -> (r: Option<u64>)
        ensures
            r == self@.as_u64(),
    {
        match self {
            Json::Unsigned(n) => Some(*n),
            _ => None,
        }
    }

    /// The value of a boolean.
    pub fn as_bool(&self) -> (r: Option<bool>)
        ensures
            r == self@.as_bool(),
    {
        match self {
            Json::Bool(b) => Some(*b),
            _ => None,
        }
    }

    /// The items of an array.
    pub fn as_array(&self) -> (r: Option<&Vec<Json>>)
        ensures
            match r {
                Some(v) => self@.as_array() == Some(values(v@)),
                None => self@.as_array() is None,
            },
    {
        match self {
            Json::Array(v) => Some(v),
            _ => None,
        }
    }

    /// Whether this is `null`.
    pub fn is_null(&self) -> (r: bool)
        ensures
            r == (self@ is Null),
    {
        match self {
            Json::Null => true,
            _ => false,
        }
    }

    /// Whether this is an object.
    pub fn is_object(&self) -> (r: bool)
        ensures
            r == (self@ is Object),
    {
        match self {
            Json::Object(_) => true,
            _ => false,
        }
    }

    /// The text of the member called `key`, where there is one and it is a string.
    pub fn get_str(&self, key: &str) -> (r: Option<&str>)
        ensures
            option_text(r) == self@.get_str(key@),
    {
        match self.get(key) {
            Some(v) => v.as_str(),
            None => None,
        }
    }

    /// The number in the member called `key`, where there is one and it is an unsigned integer.
    pub fn get_u64(&self, key: &str) -> (r: Option<u64>)
        ensures
            r == self@.get_u64(key@),
    {
        match self.get(key) {
            Some(v) => v.as_u64(),
            None => None,
        }
    }

    /// The items in the member called `key`, where there is one and it is an array.
    pub fn get_array(&self, key: &str) -> (r: Option<&Vec<Json>>)
        ensures
            match r {
                Some(v) => self@.get_array(key@) == Some(values(v@)),
                None => self@.get_array(key@) is None,
            },
    {
        match self.get(key) {
            Some(v) => v.as_array(),
            None => None,
        }
    }

    /// A copy of the member called `key`, or `default` where there is none.
    pub fn get_or(&self, key: &str, default: Json) -> (r: Json)
        ensures
            r@ == self@.get_or(key@, default@),
    {
        match self.get(key) {
            Some(v) => v.copy(),
            None => default,
        }
    }

    /// The text of the member called `key`, or `default`.
    pub fn get_str_or(&self, key: &str, default: &str) -> (r: String)
        ensures
            r@ == self@.get_str_or(key@, default@),
    {
        match self.get_str(key) {
            Some(s) => s.to_owned(),
            None => default.to_owned(),
        }
    }

    /// The number in the member called `key`, or `default`.
    pub fn get_u64_or(&self, key: &str, default: u64) -> (r: u64)
        ensures
            r == self@.get_u64_or(key@, default),
    {
        match self.get_u64(key) {
            Some(n) => n,
            None => default,
        }
    }

    /// A copy with the value of the first member called `key` replaced.
    pub fn replace(&self, key: &str, v: Json) -> (r: Json)
        ensures
            r@ == self@.replace(key@, v@),
    {
        match self {
            Json::Object(m) => {
                let ghost all = members(m@);
                let mut out: Vec<(String, Json)> = Vec::new();
                let mut i: usize = 0;
                assert(all.skip(0) == all);
                assert(members(out@) + replaced_member(all, key@, v@) =~= replaced_member(
                    all,
                    key@,
                    v@,
                ));
                while i < m.len() && !text_eq(m[i].0.as_str(), key)
                    invariant
                        all == members(m@),
                        i <= m@.len(),
                        replaced_member(all, key@, v@) == members(out@) + replaced_member(
                            all.skip(i as int),
                            key@,
                            v@,
                        ),
                        members(out@) == all.take(i as int),
                    decreases m@.len() - i,
                {
                    let ghost before = out@;
                    out.push((m[i].0.clone(), m[i].1.copy()));
                    assert(members(out@) =~= members(before).push(all[i as int]));
                    assert(all.skip(i as int).skip(1) == all.skip(i + 1));
                    assert(members(before) + (seq![all[i as int]] + replaced_member(
                        all.skip(i + 1),
                        key@,
                        v@,
                    )) =~= members(out@) + replaced_member(all.skip(i + 1), key@, v@));
                    assert(all.take(i + 1) =~= all.take(i as int).push(all[i as int]));
                    i = i + 1;
                }
                let ghost head = out@;
                let ghost rest = all.skip(i as int);
                let ghost mut tail: Seq<(Seq<char>, JsonView)> = seq![];
                if i < m.len() {
                    out.push((key.to_owned(), v));
                    proof {
                        tail = seq![(key@, v@)];
                        assert(members(out@) =~= members(head) + tail);
                        assert(rest.skip(1) == all.skip(i + 1));
                        assert(tail + all.skip(i + 1) == replaced_member(rest, key@, v@));
                    }
                    i = i + 1;
                    while i < m.len()
                        invariant
                            all == members(m@),
                            i <= m@.len(),
                            members(head) + replaced_member(rest, key@, v@) == members(out@)
                                + all.skip(i as int),
                        decreases m@.len() - i,
                    {
                        let ghost before = out@;
                        out.push((m[i].0.clone(), m[i].1.copy()));
                        assert(members(out@) =~= members(before).push(all[i as int]));
                        assert(members(before) + all.skip(i as int) =~= members(out@) + all.skip(
                            i + 1,
                        ));
                        i = i + 1;
                    }
                }
                assert(members(out@) =~= replaced_member(all, key@, v@));
                Json::Object(out)
            },
            _ => self.copy(),
        }
    }

    /// A copy of the whole tree.
    pub fn copy(&self) -> (r: Json)
        ensures
            r@ == self@,
        decreases self,
    {
        match self {
            Json::Null => Json::Null,
            Json::Bool(b) => Json::Bool(*b),
            Json::Unsigned(n) => Json::Unsigned(*n),
            Json::Negative(n) => Json::Negative(*n),
            Json::Float { json, plain } => Json::Float {
                json: json.clone(),
                plain: plain.clone(),
            },
            Json::Str(s) => Json::Str(s.clone()),
            Json::Array(v) => {
                let mut out: Vec<Json> = Vec::new();
                let mut i: usize = 0;
                while i < v.len()
                    invariant
                        *self == Json::Array(*v),
                        i == out@.len(),
                        i <= v@.len(),
                        forall|k: int| 0 <= k < i ==> out@[k]@ == v@[k]@,
                    decreases v@.len() - i,
                {
                    assert(decreases_to!(self->Array_0 => self->Array_0[i as int]));
                    out.push(v[i].copy());
                    i = i + 1;
                }
                assert(values(out@) =~= values(v@));
                Json::Array(out)
            },
            Json::Object(v) => {
                let mut out: Vec<(String, Json)> = Vec::new();
                let mut i: usize = 0;
                while i < v.len()
                    invariant
                        *self == Json::Object(*v),
                        i == out@.len(),
                        i <= v@.len(),
                        forall|k: int|
                            0 <= k < i ==> out@[k].0@ == v@[k].0@ && out@[k].1@ == v@[k].1@,
                    decreases v@.len() - i,
                {
                    assert(decreases_to!(self->Object_0 => self->Object_0[i as int]));
                    out.push((v[i].0.clone(), v[i].1.copy()));
                    i = i + 1;
                }
                assert(members(out@) =~= members(v@));
                Json::Object(out)
            },
        }
    }
}

/// A JSON string.
pub fn text_value(s: &str) -> (r: Json)
    ensures
        r@ == JsonView::Str(s@),
{
    Json::Str(s.to_owned())
}

/// An array without items.
pub fn empty_array() -> (r: Json)
    ensures
        r@ == JsonView::Array(seq![]),
{
    let v: Vec<Json> = Vec::new();
    assert(values(v@) =~= seq![]);
    Json::Array(v)
}

/// An object without members.
pub fn object_0() -> (r: Json)
    ensures
        r@ == empty_object(),
{
    let v: Vec<(String, Json)> = Vec::new();
    assert(members(v@) =~= seq![]);
    Json::Object(v)
}

/// An object with one member.
pub fn object_1(k: &str, v: Json) -> (r: Json)
    ensures
        r@ == object(k@, v@),
{
    let list: Vec<(String, Json)> = vec![(k.to_owned(), v)];
    assert(members(list@) =~= seq![(k@, v@)]);
    Json::Object(list)
}

/// Adds a member at the end of an object; any other value stays as it is.
pub fn with_member(o: Json, k: &str, v: Json) -> (r: Json)
    ensures
        r@ == o@.with(k@, v@),
{
    match o {
        Json::Object(list) => {
            let mut list = list;
            let ghost before = list@;
            list.push((k.to_owned(), v));
            assert(members(list@) =~= members(before).push((k@, v@)));
            Json::Object(list)
        },
        _ => o,
    }
}

} // verus!
