//! How the arguments of a script reach the plugin.

use crate::driver::request::{first_step, Kind, RequestView};
use crate::driver::script::{
    element_origin, resolved, resolved_action, resolved_actions, resolved_sequence,
    W3C_ELEMENT_KEY,
};
use crate::driver::session::{element_object, ElementView, SessionView};
use crate::driver::step::StepView;
use crate::laws::members::{
    lemma_element_members, lemma_lookup_replaced, lemma_one_member, lemma_other_members_kept,
    lemma_with_member,
};
use crate::value::{object, JsonView};
use vstd::prelude::*;

verus! {

/// The value that a path leads to: each number is a position in an array, or that of a member in
/// an object.
pub open spec fn at_path(v: JsonView, path: Seq<nat>) -> Option<JsonView>
    decreases path.len(),
{
    if path.len() == 0 {
        Some(v)
    } else {
        match v {
            JsonView::Array(items) => if path[0] < items.len() {
                at_path(items[path[0] as int], path.skip(1))
            } else {
                None
            },
            JsonView::Object(list) => if path[0] < list.len() {
                at_path(list[path[0] as int].1, path.skip(1))
            } else {
                None
            },
            _ => None,
        }
    }
}

/// Whether a value refers to a known element.
pub open spec fn refers(v: JsonView, elements: Map<Seq<char>, ElementView>) -> bool {
    v.get(W3C_ELEMENT_KEY@) matches Some(JsonView::Str(eid)) && elements.contains_key(eid)
}

/// Whether a value above the one that a path leads to refers to a known element.
pub open spec fn covered(
    v: JsonView,
    path: Seq<nat>,
    elements: Map<Seq<char>, ElementView>,
) -> bool {
    exists|k: int|
        0 <= k < path.len() && (#[trigger] at_path(v, path.take(k)) matches Some(u) && refers(
            u,
            elements,
        ))
}

/// Whether a value has one member, called `key`, which tells how an element was found.
pub open spec fn names(v: JsonView, key: Seq<char>, e: ElementView) -> bool {
    &&& v is Object
    &&& v->Object_0.len() == 1
    &&& v.get(key) matches Some(m) && {
        &&& m.get("selector"@) == Some(JsonView::Str(e.selector))
        &&& m.get("index"@) == Some(JsonView::Unsigned(e.index as u64))
        &&& m.get("using"@) == Some(JsonView::Str(e.using))
    }
}

/// Whether a value tells the plugin to put an element in its place.
pub open spec fn stands_for(v: JsonView, e: ElementView) -> bool {
    names(v, "__wd_resolve"@, e)
}

/// The value that a path leads to within the value at its first number.
pub open spec fn child(v: JsonView, k: nat) -> JsonView {
    match v {
        JsonView::Array(items) => items[k as int],
        JsonView::Object(list) => list[k as int].1,
        _ => v,
    }
}

proof fn lemma_covered_below(
    v: JsonView,
    path: Seq<nat>,
    elements: Map<Seq<char>, ElementView>,
)
    requires
        path.len() > 0,
        !covered(v, path, elements),
        at_path(v, path) is Some || at_path(v, seq![path[0]]) is Some,
    ensures
        !refers(v, elements),
        !covered(child(v, path[0]), path.skip(1), elements),
        at_path(v, path) == at_path(child(v, path[0]), path.skip(1)),
{
    assert(path.take(0) =~= seq![]);
    assert(at_path(v, path.take(0)) == Some(v));
    let below = child(v, path[0]);
    let rest = path.skip(1);
    assert(seq![path[0]].skip(1) =~= seq![]);
    assert forall|k: int|
        0 <= k < rest.len() && #[trigger] at_path(below, rest.take(k)) is Some implies !refers(
        at_path(below, rest.take(k))->0,
        elements,
    ) by {
        assert(path.take(k + 1).skip(1) =~= rest.take(k));
        assert(at_path(v, path.take(k + 1)) == at_path(below, rest.take(k)));
    }
}

/// Wherever in the arguments a value refers to a known element, in an array or in an object and
/// at any depth, and none above it does, what tells the plugin to put that element there stands
/// in its place.
pub proof fn law_reference_is_resolved_at_every_path(
    v: JsonView,
    path: Seq<nat>,
    elements: Map<Seq<char>, ElementView>,
    w: JsonView,
    eid: Seq<char>,
)
    requires
        at_path(v, path) == Some(w),
        w.get(W3C_ELEMENT_KEY@) == Some(JsonView::Str(eid)),
        elements.contains_key(eid),
        !covered(v, path, elements),
    ensures
        at_path(resolved(v, elements), path) matches Some(r) && stands_for(r, elements[eid]),
    decreases path.len(),
{
    if path.len() == 0 {
        let e = elements[eid];
        lemma_element_members(e);
        lemma_one_member(
            "__wd_resolve"@,
            element_object(e),
            "__wd_resolve"@,
        );
    } else {
        lemma_covered_below(v, path, elements);
        law_reference_is_resolved_at_every_path(
            child(v, path[0]),
            path.skip(1),
            elements,
            w,
            eid,
        );
        assert(child(resolved(v, elements), path[0]) == resolved(child(v, path[0]), elements));
    }
}

/// Everything else in the arguments stays what it is and where it is: arrays keep their length,
/// objects the names of their members, and all other values are the same.
pub proof fn law_everything_else_stays(
    v: JsonView,
    path: Seq<nat>,
    elements: Map<Seq<char>, ElementView>,
    w: JsonView,
)
    requires
        at_path(v, path) == Some(w),
        !refers(w, elements),
        !covered(v, path, elements),
    ensures
        at_path(resolved(v, elements), path) matches Some(r) && match w {
            JsonView::Array(items) => r matches JsonView::Array(found) && found.len()
                == items.len(),
            JsonView::Object(list) => r matches JsonView::Object(found) && found.len()
                == list.len() && forall|i: int|
                0 <= i < list.len() ==> (#[trigger] found[i]).0 == list[i].0,
            _ => r == w,
        },
    decreases path.len(),
{
    if path.len() > 0 {
        lemma_covered_below(v, path, elements);
        law_everything_else_stays(child(v, path[0]), path.skip(1), elements, w);
        assert(child(resolved(v, elements), path[0]) == resolved(child(v, path[0]), elements));
    }
}

/// Both ways to execute a script post the script as it was given, and the arguments with all
/// references resolved; a request without arguments has none, and one without a script an empty
/// one.
pub proof fn law_script_and_arguments_are_posted(
    s: SessionView,
    r: RequestView,
    script: Seq<char>,
    args: JsonView,
)
    requires
        r.kind == Kind::ExecuteSync || r.kind == Kind::ExecuteAsync,
        r.body.get("script"@) == Some(JsonView::Str(script)) || (r.body.get("script"@) is None
            && script == ""@),
        r.body.get("args"@) == Some(args) || (r.body.get("args"@) is None && args
            == JsonView::Array(seq![])),
    ensures
        first_step(s, r) matches StepView::Call { url, body, .. } && {
            &&& url == s.plugin_url + (if r.kind == Kind::ExecuteSync {
                "/script/execute"@
            } else {
                "/script/execute-async"@
            })
            &&& body.get("script"@) == Some(JsonView::Str(script))
            &&& body.get("args"@) == Some(resolved(args, s.elements))
        },
{
    reveal_strlit("script");
    reveal_strlit("args");
    assert("script"@.len() == 6 && "args"@.len() == 4);
    let text = JsonView::Str(script);
    let values = resolved(args, s.elements);
    lemma_one_member("script"@, text, "script"@);
    lemma_one_member("script"@, text, "args"@);
    lemma_with_member(object("script"@, text), "args"@, values, "script"@);
    lemma_with_member(object("script"@, text), "args"@, values, "args"@);
}

/// The actions that a request for actions has for a source.
pub open spec fn actions_of(body: JsonView, i: int) -> Option<Seq<JsonView>> {
    match body.get("actions"@) {
        Some(JsonView::Array(sources)) => if 0 <= i < sources.len() {
            match sources[i].get("actions"@) {
                Some(JsonView::Array(list)) => Some(list),
                _ => None,
            }
        } else {
            None
        },
        _ => None,
    }
}

/// A request for actions reaches the plugin with as many sources and as many actions, each in its
/// place. A move over a known element names that element by what it was found with, and every
/// action that is none is the same; all other members of the request, of its sources and of its
/// actions are the same too.
pub proof fn law_actions_are_posted(
    s: SessionView,
    r: RequestView,
    i: int,
    j: int,
    key: Seq<char>,
)
    requires
        r.kind == Kind::PerformActions,
        actions_of(r.body, i) matches Some(list) && 0 <= j < list.len(),
    ensures
        first_step(s, r) matches StepView::Call { url, body, .. } && {
            let given = actions_of(r.body, i)->0;
            let sources = r.body.get("actions"@)->0->Array_0;
            &&& url == s.plugin_url + "/actions/perform"@
            &&& body.get("actions"@) matches Some(JsonView::Array(posted)) && {
                &&& posted.len() == sources.len()
                &&& key != "actions"@ ==> posted[i].get(key) == sources[i].get(key)
            }
            &&& key != "actions"@ ==> body.get(key) == r.body.get(key)
            &&& actions_of(body, i) matches Some(list) && {
                &&& list.len() == given.len()
                &&& key != "origin"@ ==> list[j].get(key) == given[j].get(key)
                &&& (given[j].get("origin"@) matches Some(o) ==> !refers(o, s.elements))
                    ==> list[j] == given[j]
                &&& given[j].get("origin"@) matches Some(o) ==> refers(o, s.elements)
                    ==> (list[j].get("origin"@) matches Some(posted) && names(
                    posted,
                    W3C_ELEMENT_KEY@,
                    s.elements[o.get(W3C_ELEMENT_KEY@)->0->Str_0],
                ))
            }
        },
{
    let elements = s.elements;
    let sources = r.body.get("actions"@)->0->Array_0;
    let given = sources[i].get("actions"@)->0->Array_0;
    let new_sources = sources.map_values(
        |q: JsonView| resolved_sequence(q, elements),
    );
    let new_list = given.map_values(|a: JsonView| resolved_action(a, elements));
    let body = resolved_actions(r.body, elements);
    lemma_lookup_replaced(r.body->Object_0, "actions"@, JsonView::Array(new_sources));
    lemma_other_members_kept(r.body, "actions"@, JsonView::Array(new_sources), key);
    assert(body.get("actions"@) == Some(JsonView::Array(new_sources)));
    lemma_lookup_replaced(sources[i]->Object_0, "actions"@, JsonView::Array(new_list));
    lemma_other_members_kept(sources[i], "actions"@, JsonView::Array(new_list), key);
    assert(new_sources[i].get("actions"@) == Some(JsonView::Array(new_list)));
    assert(actions_of(body, i) == Some(new_list));
    let action = given[j];
    if let Some(o) = action.get("origin"@) {
        if refers(o, elements) {
            let e = elements[o.get(W3C_ELEMENT_KEY@)->0->Str_0];
            let plain = element_origin(e);
            lemma_lookup_replaced(action->Object_0, "origin"@, plain);
            lemma_other_members_kept(action, "origin"@, plain, key);
            lemma_element_members(e);
            lemma_one_member(
                W3C_ELEMENT_KEY@,
                element_object(e),
                W3C_ELEMENT_KEY@,
            );
        }
    }
}

} // verus!
