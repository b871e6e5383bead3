//! Members of objects, as the laws need them.

use crate::driver::session::{element_object, ElementView};
use crate::value::{lookup, object, replaced_member, JsonView};
use vstd::prelude::*;

verus! {

pub(crate) proof fn lemma_lookup_push(
    m: Seq<(Seq<char>, JsonView)>,
    k: Seq<char>,
    v: JsonView,
    key: Seq<char>,
)
    ensures
        lookup(m.push((k, v)), key) == match lookup(m, key) {
            Some(x) => Some(x),
            None => if k == key {
                Some(v)
            } else {
                None
            },
        },
    decreases m.len(),
{
    let all = m.push((k, v));
    if m.len() == 0 {
        assert(all.skip(1) =~= seq![]);
        assert(lookup(all.skip(1), key) is None);
    } else {
        lemma_lookup_push(m.skip(1), k, v, key);
        assert(all.skip(1) =~= m.skip(1).push((k, v)));
    }
}

pub(crate) proof fn lemma_lookup_replaced(
    m: Seq<(Seq<char>, JsonView)>,
    key: Seq<char>,
    v: JsonView,
)
    requires
        lookup(m, key) is Some,
    ensures
        lookup(replaced_member(m, key, v), key) == Some(v),
    decreases m.len(),
{
    if m[0].0 != key {
        lemma_lookup_replaced(m.skip(1), key, v);
        let r = replaced_member(m, key, v);
        assert(r[0] == m[0]);
        assert(r.skip(1) =~= replaced_member(m.skip(1), key, v));
    }
}

proof fn lemma_lookup_others(
    m: Seq<(Seq<char>, JsonView)>,
    key: Seq<char>,
    v: JsonView,
    other: Seq<char>,
)
    requires
        other != key,
    ensures
        lookup(replaced_member(m, key, v), other) == lookup(m, other),
    decreases m.len(),
{
    if m.len() > 0 {
        let r = replaced_member(m, key, v);
        if m[0].0 == key {
            assert(r.skip(1) =~= m.skip(1));
        } else {
            lemma_lookup_others(m.skip(1), key, v, other);
            assert(r.skip(1) =~= replaced_member(m.skip(1), key, v));
        }
    }
}

/// Replacing a member keeps the others.
pub(crate) proof fn lemma_other_members_kept(
    o: JsonView,
    key: Seq<char>,
    v: JsonView,
    other: Seq<char>,
)
    ensures
        other != key ==> o.replace(key, v).get(other) == o.get(other),
{
    if other != key && o is Object {
        lemma_lookup_others(o->Object_0, key, v, other);
    }
}

/// What a member says comes back under its name, and nothing under another name.
pub(crate) proof fn lemma_one_member(k: Seq<char>, v: JsonView, key: Seq<char>)
    ensures
        object(k, v).get(key) == if k == key {
            Some(v)
        } else {
            None
        },
{
    let none: Seq<(Seq<char>, JsonView)> = seq![];
    assert(seq![(k, v)] =~= none.push((k, v)));
    lemma_lookup_push(none, k, v, key);
}

pub(crate) proof fn lemma_with_member(o: JsonView, k: Seq<char>, v: JsonView, key: Seq<char>)
    requires
        o is Object,
    ensures
        o.with(k, v).get(key) == match o.get(key) {
            Some(x) => Some(x),
            None => if k == key {
                Some(v)
            } else {
                None
            },
        },
{
    lemma_lookup_push(o->Object_0, k, v, key);
}

pub(crate) proof fn lemma_element_members(e: ElementView)
    ensures
        element_object(e).get_str("selector"@) == Some(e.selector),
        element_object(e).get_u64("index"@) == Some(e.index as u64),
        element_object(e).get_str("using"@) == Some(e.using),
{
    reveal_strlit("selector");
    reveal_strlit("index");
    reveal_strlit("using");
    assert("using"@[0] == 'u');
    assert("index"@[0] == 'i');
    let one = object("selector"@, JsonView::Str(e.selector));
    let two = one.with("index"@, JsonView::Unsigned(e.index as u64));
    let using = JsonView::Str(e.using);
    lemma_one_member("selector"@, JsonView::Str(e.selector), "selector"@);
    lemma_one_member("selector"@, JsonView::Str(e.selector), "index"@);
    lemma_one_member("selector"@, JsonView::Str(e.selector), "using"@);
    lemma_with_member(one, "index"@, JsonView::Unsigned(e.index as u64), "selector"@);
    lemma_with_member(one, "index"@, JsonView::Unsigned(e.index as u64), "index"@);
    lemma_with_member(one, "index"@, JsonView::Unsigned(e.index as u64), "using"@);
    lemma_with_member(two, "using"@, using, "selector"@);
    lemma_with_member(two, "using"@, using, "index"@);
    lemma_with_member(two, "using"@, using, "using"@);
}

} // verus!
