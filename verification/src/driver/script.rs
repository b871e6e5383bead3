//! Element references in the arguments of scripts and in the origins of pointer actions.

use crate::driver::session::{element_object, write_element, ElementRef, ElementView, Session};
use crate::json::object_1;
use crate::value::{array_value, members, object, object_value, values, Json, JsonView};
use vstd::prelude::*;

verus! {

broadcast use {array_value, object_value};

/// The member of an object that makes it a reference to an element.
pub const W3C_ELEMENT_KEY: &'static str = "element-6066-11e4-a52e-4f735466cecf";

/// The member of an object that makes it a reference to a shadow root.
pub const W3C_SHADOW_KEY: &'static str = "shadow-6066-11e4-a52e-4f735466cecf";

/// The name of the known element that a value refers to, if it refers to one.
pub open spec fn referred(v: JsonView, elements: Map<Seq<char>, ElementView>) -> Option<
    Seq<char>,
> {
    match v.get_str(W3C_ELEMENT_KEY@) {
        Some(eid) => if elements.contains_key(eid) {
            Some(eid)
        } else {
            None
        },
        None => None,
    }
}

/// The marker that the plugin replaces by the element itself.
pub open spec fn marker(e: ElementView) -> JsonView {
    object("__wd_resolve"@, element_object(e))
}

/// A value with every reference to a known element, at any depth, replaced by its marker.
pub open spec fn resolved(v: JsonView, elements: Map<Seq<char>, ElementView>) -> JsonView
    decreases v,
{
    match v {
        JsonView::Array(items) => JsonView::Array(
            Seq::new(
                items.len(),
                |i: int|
                    if 0 <= i < items.len() {
                        resolved(items[i], elements)
                    } else {
                        JsonView::Null
                    },
            ),
        ),
        JsonView::Object(list) => match referred(v, elements) {
            Some(eid) => marker(elements[eid]),
            None => JsonView::Object(
                Seq::new(
                    list.len(),
                    |i: int|
                        if 0 <= i < list.len() {
                            (list[i].0, resolved(list[i].1, elements))
                        } else {
                            (seq![], JsonView::Null)
                        },
                ),
            ),
        },
        _ => v,
    }
}

fn find_referred<'a>(v: &Json, session: &'a Session) -> (r: Option<
    &'a ElementRef,
>)
    requires
        session.wf(),
    ensures
        match r {
            Some(e) => referred(v@, session@.elements) matches Some(eid) && e@
                == session@.elements[eid],
            None => referred(v@, session@.elements) is None,
        },
{
    match v.get_str(W3C_ELEMENT_KEY) {
        Some(eid) => session.elements.get(eid),
        None => None,
    }
}

fn resolve_value(v: &Json, session: &Session) -> (r: Json)
    requires
        session.wf(),
    ensures
        r@ == resolved(v@, session@.elements),
    decreases v,
{
    match v {
        Json::Array(items) => {
            let ghost target = resolved(v@, session@.elements)->Array_0;
            let mut out: Vec<Json> = Vec::new();
            let mut i: usize = 0;
            while i < items.len()
                invariant
                    session.wf(),
                    *v == Json::Array(*items),
                    target == resolved(v@, session@.elements)->Array_0,
                    i == out@.len(),
                    i <= items@.len(),
                    forall|k: int| 0 <= k < i ==> out@[k]@ == target[k],
                decreases items@.len() - i,
            {
                assert(decreases_to!(v->Array_0 => v->Array_0[i as int]));
                assert(target[i as int] == resolved(values(items@)[i as int], session@.elements));
                out.push(resolve_value(&items[i], session));
                i = i + 1;
            }
            assert(values(out@) =~= target);
            Json::Array(out)
        },
        Json::Object(list) => {
            if let Some(e) = find_referred(v, session) {
                return object_1("__wd_resolve", write_element(e));
            }
            let ghost target = resolved(v@, session@.elements)->Object_0;
            let mut out: Vec<(String, Json)> = Vec::new();
            let mut i: usize = 0;
            while i < list.len()
                invariant
                    session.wf(),
                    *v == Json::Object(*list),
                    referred(v@, session@.elements) is None,
                    target == resolved(v@, session@.elements)->Object_0,
                    i == out@.len(),
                    i <= list@.len(),
                    forall|k: int| 0 <= k < i ==> (out@[k].0@, out@[k].1@) == target[k],
                decreases list@.len() - i,
            {
                assert(decreases_to!(v->Object_0 => v->Object_0[i as int]));
                assert(target[i as int] == (
                    members(list@)[i as int].0,
                    resolved(members(list@)[i as int].1, session@.elements),
                ));
                out.push((list[i].0.clone(), resolve_value(&list[i].1, session)));
                i = i + 1;
            }
            assert(members(out@) =~= target);
            Json::Object(out)
        },
        _ => v.copy(),
    }
}

/// Replaces the references to known elements in the arguments of a script by markers.
pub fn resolve_script_args(value: &mut Json, session: &Session)
    requires
        session.wf(),
    ensures
        final(value)@ == resolved(old(value)@, session@.elements),
{
    *value = resolve_value(value, session);
}

/// Whether a value refers, at any depth that resolving reaches, to a known element.
pub open spec fn mentions(v: JsonView, elements: Map<Seq<char>, ElementView>) -> bool
    decreases v,
{
    match v {
        JsonView::Array(items) => exists|i: int|
            0 <= i < items.len() && mentions(#[trigger] items[i], elements),
        JsonView::Object(list) => referred(v, elements) is Some || exists|i: int|
            0 <= i < list.len() && mentions((#[trigger] list[i]).1, elements),
        _ => false,
    }
}

/// Arguments that refer to no known element reach the plugin as they came.
pub proof fn law_other_args_unchanged(v: JsonView, elements: Map<Seq<char>, ElementView>)
    requires
        !mentions(v, elements),
    ensures
        resolved(v, elements) == v,
    decreases v,
{
    match v {
        JsonView::Array(items) => {
            let r = resolved(v, elements)->Array_0;
            assert forall|i: int| 0 <= i < items.len() implies r[i] == items[i] by {
                law_other_args_unchanged(items[i], elements);
            }
            assert(r =~= items);
        },
        JsonView::Object(list) => {
            let r = resolved(v, elements)->Object_0;
            assert forall|i: int| 0 <= i < list.len() implies r[i] == list[i] by {
                assert(!mentions(list[i].1, elements));
                law_other_args_unchanged(list[i].1, elements);
            }
            assert(r =~= list);
        },
        _ => {},
    }
}

/// The origin that tells the plugin which element a pointer moves over.
pub open spec fn element_origin(e: ElementView) -> JsonView {
    object(W3C_ELEMENT_KEY@, element_object(e))
}

/// An action whose origin refers to a known element, with the origin made plain.
pub open spec fn resolved_action(
    action: JsonView,
    elements: Map<Seq<char>, ElementView>,
) -> JsonView {
    match action.get("origin"@) {
        Some(origin) => match referred(origin, elements) {
            Some(eid) => action.replace("origin"@, element_origin(elements[eid])),
            None => action,
        },
        None => action,
    }
}

/// An action sequence with the origins of its actions made plain.
pub open spec fn resolved_sequence(
    seq: JsonView,
    elements: Map<Seq<char>, ElementView>,
) -> JsonView {
    match seq.get_array("actions"@) {
        Some(actions) => seq.replace(
            "actions"@,
            JsonView::Array(actions.map_values(|a: JsonView| resolved_action(a, elements))),
        ),
        None => seq,
    }
}

/// The body of a request for actions with all origins made plain.
pub open spec fn resolved_actions(
    body: JsonView,
    elements: Map<Seq<char>, ElementView>,
) -> JsonView {
    match body.get_array("actions"@) {
        Some(sequences) => body.replace(
            "actions"@,
            JsonView::Array(sequences.map_values(|s: JsonView| resolved_sequence(s, elements))),
        ),
        None => body,
    }
}

fn resolve_action(action: &Json, session: &Session) -> (r: Json)
    requires
        session.wf(),
    ensures
        r@ == resolved_action(action@, session@.elements),
{
    if let Some(origin) = action.get("origin") {
        if let Some(e) = find_referred(origin, session) {
            return action.replace("origin", object_1(W3C_ELEMENT_KEY, write_element(e)));
        }
    }
    action.copy()
}

fn resolve_sequence(seq: &Json, session: &Session) -> (r: Json)
    requires
        session.wf(),
    ensures
        r@ == resolved_sequence(seq@, session@.elements),
{
    match seq.get_array("actions") {
        Some(actions) => {
            let ghost target = values(actions@).map_values(
                |a: JsonView| resolved_action(a, session@.elements),
            );
            let mut out: Vec<Json> = Vec::new();
            let mut i: usize = 0;
            while i < actions.len()
                invariant
                    session.wf(),
                    target == values(actions@).map_values(
                        |a: JsonView| resolved_action(a, session@.elements),
                    ),
                    i == out@.len(),
                    i <= actions@.len(),
                    forall|k: int| 0 <= k < i ==> out@[k]@ == target[k],
                decreases actions@.len() - i,
            {
                out.push(resolve_action(&actions[i], session));
                i = i + 1;
            }
            assert(values(out@) =~= target);
            seq.replace("actions", Json::Array(out))
        },
        None => seq.copy(),
    }
}

/// Makes the origins in a request for actions plain.
pub fn resolve_actions(body: &Json, session: &Session) -> (r: Json)
    requires
        session.wf(),
    ensures
        r@ == resolved_actions(body@, session@.elements),
{
    match body.get_array("actions") {
        Some(sequences) => {
            let ghost target = values(sequences@).map_values(
                |s: JsonView| resolved_sequence(s, session@.elements),
            );
            let mut out: Vec<Json> = Vec::new();
            let mut i: usize = 0;
            while i < sequences.len()
                invariant
                    session.wf(),
                    target == values(sequences@).map_values(
                        |s: JsonView| resolved_sequence(s, session@.elements),
                    ),
                    i == out@.len(),
                    i <= sequences@.len(),
                    forall|k: int| 0 <= k < i ==> out@[k]@ == target[k],
                decreases sequences@.len() - i,
            {
                out.push(resolve_sequence(&sequences[i], session));
                i = i + 1;
            }
            assert(values(out@) =~= target);
            body.replace("actions", Json::Array(out))
        },
        None => body.copy(),
    }
}

} // verus!
