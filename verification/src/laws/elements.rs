//! The names of elements and shadow roots.

use crate::driver::answer::{
    element_reference, found, names_needed, next_session, next_step, references, with_elements,
};
use crate::driver::commands::find::{find_in_shadow_step, shadow_object};
use crate::driver::error::W3cErrorView;
use crate::driver::locator::locator;
use crate::driver::script::W3C_ELEMENT_KEY;
use crate::driver::session::{
    described_element, element_object, elements_distinct, given_name, is_known, stores,
    with_element, ElementView, SessionView, ShadowView,
};
use crate::driver::step::{
    answered, call_step, element_step, error_step, reply_step, OutcomeView, StepView, ThenView,
};
use crate::laws::members::lemma_one_member;
use crate::laws::replies::gives;
use crate::outside::is_uuid;
use crate::value::JsonView;
use vstd::prelude::*;

verus! {

/// An element that was stored is what its name stands for.
pub proof fn law_stored_element_is_known(
    before: Map<Seq<char>, ElementView>,
    e: ElementView,
    id: Seq<char>,
    after: Map<Seq<char>, ElementView>,
)
    requires
        stores(before, e, id, after),
    ensures
        after.contains_key(id),
        after[id] == e,
{
}

/// Storing an element again answers the same name and changes nothing.
pub proof fn law_storing_twice_is_storing_once(
    before: Map<Seq<char>, ElementView>,
    e: ElementView,
    first: Seq<char>,
    between: Map<Seq<char>, ElementView>,
    second: Seq<char>,
    after: Map<Seq<char>, ElementView>,
)
    requires
        elements_distinct(before),
        stores(before, e, first, between),
        stores(between, e, second, after),
    ensures
        second == first,
        after == between,
{
    assert(between[first] == e);
    assert(is_known(between, e));
    assert(between[second] == e);
    if !is_known(before, e) && second != first {
        assert(before[second] == e);
    }
}

/// Different elements have different names, as long as chance gives no name twice.
pub proof fn law_different_elements_have_different_names(
    before: Map<Seq<char>, ElementView>,
    one: ElementView,
    first: Seq<char>,
    between: Map<Seq<char>, ElementView>,
    other: ElementView,
    second: Seq<char>,
    after: Map<Seq<char>, ElementView>,
)
    requires
        one != other,
        stores(before, one, first, between),
        stores(between, other, second, after),
        !is_known(between, other) ==> !between.contains_key(second),
    ensures
        first != second,
{
}

/// No name of a known element changes its meaning when an element is stored, as long as chance
/// gives no name twice.
pub proof fn law_storing_keeps_names(
    before: Map<Seq<char>, ElementView>,
    e: ElementView,
    fresh: Seq<char>,
    name: Seq<char>,
)
    requires
        before.contains_key(name),
        !before.contains_key(fresh),
    ensures
        with_element(before, e, fresh).contains_key(name),
        with_element(before, e, fresh)[name] == before[name],
{
}

/// Storing an element adds at most its own name, a random one, and keeps every other name and
/// what it stands for.
pub proof fn law_storing_adds_one_name(
    before: Map<Seq<char>, ElementView>,
    e: ElementView,
    id: Seq<char>,
    after: Map<Seq<char>, ElementView>,
    name: Seq<char>,
)
    requires
        stores(before, e, id, after),
    ensures
        name != id && before.contains_key(name) ==> after.contains_key(name) && after[name]
            == before[name],
        name != id && after.contains_key(name) ==> before.contains_key(name),
        (forall|k: Seq<char>| #[trigger] before.contains_key(k) ==> before[k] != e) ==> is_uuid(
            id,
        ),
        before.contains_key(name) && before[name] == e ==> after == before,
{
    if before.contains_key(name) && before[name] == e {
        assert(is_known(before, e));
    }
}

/// Whether the names are new and differ from each other.
pub open spec fn unused(
    fresh: Seq<Seq<char>>,
    elements: Map<Seq<char>, ElementView>,
) -> bool {
    &&& fresh.no_duplicates()
    &&& forall|i: int| 0 <= i < fresh.len() ==> !elements.contains_key(#[trigger] fresh[i])
}

proof fn lemma_where_names_come_from(
    elements: Map<Seq<char>, ElementView>,
    items: Seq<JsonView>,
    fresh: Seq<Seq<char>>,
    n: nat,
    k: Seq<char>,
)
    requires
        n <= fresh.len(),
        with_elements(elements, items, fresh, n).contains_key(k),
    ensures
        elements.contains_key(k) || exists|i: int| 0 <= i < n && #[trigger] fresh[i] == k,
    decreases n,
{
    if n > 0 {
        let before = with_elements(elements, items, fresh, (n - 1) as nat);
        if before.contains_key(k) {
            lemma_where_names_come_from(elements, items, fresh, (n - 1) as nat, k);
        } else {
            assert(fresh[n - 1] == k);
        }
    }
}

proof fn lemma_names_stay(
    elements: Map<Seq<char>, ElementView>,
    items: Seq<JsonView>,
    fresh: Seq<Seq<char>>,
    m: nat,
    n: nat,
    k: Seq<char>,
)
    requires
        m <= n <= fresh.len(),
        unused(fresh, elements),
        with_elements(elements, items, fresh, m).contains_key(k),
    ensures
        with_elements(elements, items, fresh, n).contains_key(k),
        with_elements(elements, items, fresh, n)[k] == with_elements(elements, items, fresh, m)[k],
    decreases n,
{
    if m < n {
        let before = with_elements(elements, items, fresh, (n - 1) as nat);
        let last = fresh[n - 1];
        lemma_names_stay(elements, items, fresh, m, (n - 1) as nat, k);
        if before.contains_key(last) {
            lemma_where_names_come_from(elements, items, fresh, (n - 1) as nat, last);
        }
    }
}

/// The first element that a search finds can be used at once: the name in the reply stands for
/// the element that the plugin described, in the command that comes next.
pub proof fn law_found_element_can_be_used(
    s: SessionView,
    message: Seq<char>,
    o: OutcomeView,
    v: JsonView,
    fresh: Seq<Seq<char>>,
    path: Seq<char>,
    then: ThenView,
)
    requires
        answered(o) == Ok::<JsonView, W3cErrorView>(v),
        found(v).len() > 0,
    ensures
        ({
            let e = described_element(found(v)[0]);
            let id = given_name(s.elements, e, fresh[0]);
            let after = next_session(s, ThenView::First { message }, o, fresh);
            &&& next_step(s, ThenView::First { message }, o, fresh) == reply_step(
                element_reference(id),
            )
            &&& element_step(after, id, path, then) == call_step(
                after,
                path,
                element_object(e),
                then,
            )
        }),
{
    let e = described_element(found(v)[0]);
    let id = given_name(s.elements, e, fresh[0]);
    if is_known(s.elements, e) {
        assert(s.elements.contains_key(id) && s.elements[id] == e);
    }
}

/// Every element that a search finds can be used: the reply names the elements in the plugin's
/// order, and each name stands for its element in the command that comes next, as long as chance
/// gives no name twice.
pub proof fn law_found_elements_can_be_used(
    s: SessionView,
    o: OutcomeView,
    v: JsonView,
    fresh: Seq<Seq<char>>,
    i: int,
    path: Seq<char>,
    then: ThenView,
)
    requires
        answered(o) == Ok::<JsonView, W3cErrorView>(v),
        0 <= i < found(v).len() <= fresh.len(),
        unused(fresh, s.elements),
    ensures
        ({
            let e = described_element(found(v)[i]);
            let id = given_name(
                with_elements(s.elements, found(v), fresh, i as nat),
                e,
                fresh[i],
            );
            let after = next_session(s, ThenView::All, o, fresh);
            &&& next_step(s, ThenView::All, o, fresh) == reply_step(
                JsonView::Array(references(s.elements, found(v), fresh)),
            )
            &&& references(s.elements, found(v), fresh)[i] == element_reference(id)
            &&& element_step(after, id, path, then) == call_step(
                after,
                path,
                element_object(e),
                then,
            )
        }),
{
    let items = found(v);
    let e = described_element(items[i]);
    let before = with_elements(s.elements, items, fresh, i as nat);
    let between = with_elements(s.elements, items, fresh, (i + 1) as nat);
    let id = given_name(before, e, fresh[i]);
    if is_known(before, e) {
        assert(before.contains_key(id) && before[id] == e);
    }
    assert(between.contains_key(id) && between[id] == e);
    lemma_names_stay(s.elements, items, fresh, (i + 1) as nat, items.len(), id);
}

/// Nothing that the plugin answers takes an element from a session or changes what a name
/// stands for, as long as chance gives no name twice.
pub proof fn law_names_keep_their_meaning(
    s: SessionView,
    then: ThenView,
    o: OutcomeView,
    fresh: Seq<Seq<char>>,
    name: Seq<char>,
)
    requires
        s.elements.contains_key(name),
        fresh.len() >= names_needed(then, o),
        unused(fresh, s.elements),
    ensures
        next_session(s, then, o, fresh).elements.contains_key(name),
        next_session(s, then, o, fresh).elements[name] == s.elements[name],
{
    if let Ok(v) = answered(o) {
        match then {
            ThenView::All => {
                lemma_names_stay(s.elements, found(v), fresh, 0, found(v).len(), name);
            },
            ThenView::First { .. } => {
                assert(!s.elements.contains_key(fresh[0]));
            },
            ThenView::Active => {
                assert(!s.elements.contains_key(fresh[0]));
            },
            _ => {},
        }
    }
}

/// A shadow root can be searched as soon as it is named: the search goes to the element that
/// the root was asked for.
pub proof fn law_named_shadow_root_can_be_searched(
    s: SessionView,
    eid: Seq<char>,
    host: ElementView,
    o: OutcomeView,
    v: JsonView,
    fresh: Seq<Seq<char>>,
    body: JsonView,
    first: bool,
)
    requires
        answered(o) == Ok::<JsonView, W3cErrorView>(v),
        v.get("hasShadow"@) == Some(JsonView::Bool(true)),
    ensures
        ({
            let after = next_session(s, ThenView::Shadow { eid, host }, o, fresh);
            let root = ShadowView {
                host_selector: host.selector,
                host_index: host.index,
                host_using: host.using,
            };
            &&& after.shadows.contains_key(fresh[0])
            &&& after.shadows[fresh[0]] == root
            &&& match locator(body) {
                Ok(l) => find_in_shadow_step(after, fresh[0], body, first) matches StepView::Call {
                    body: search,
                    ..
                } && search == shadow_object(root, l),
                Err(e) => find_in_shadow_step(after, fresh[0], body, first) == error_step(e),
            }
        }),
{
}

/// An element that is known keeps its name, and none is added for it; one that is not known gets
/// the new name, beside the others.
pub proof fn law_known_elements_get_no_new_name(
    elements: Map<Seq<char>, ElementView>,
    e: ElementView,
    fresh: Seq<char>,
    name: Seq<char>,
)
    requires
        elements_distinct(elements),
    ensures
        elements.contains_key(name) && elements[name] == e ==> given_name(elements, e, fresh)
            == name && with_element(elements, e, fresh) == elements,
        (forall|k: Seq<char>| #[trigger] elements.contains_key(k) ==> elements[k] != e)
            ==> given_name(elements, e, fresh) == fresh && with_element(elements, e, fresh)
            == elements.insert(fresh, e),
{
    if elements.contains_key(name) && elements[name] == e {
        assert(is_known(elements, e));
        let id = given_name(elements, e, fresh);
        assert(elements.contains_key(id) && elements[id] == e);
    }
}

/// Whether a value describes an element.
pub open spec fn describes(v: JsonView, e: ElementView) -> bool {
    &&& v.get("selector"@) == Some(JsonView::Str(e.selector))
    &&& v.get("index"@) == Some(JsonView::Unsigned(e.index as u64))
    &&& v.get("using"@) == Some(JsonView::Str(e.using))
}

/// Whether a value is a reference to an element that a session knows by it.
pub open spec fn refers_to(v: JsonView, s: SessionView, e: ElementView) -> bool {
    &&& v matches JsonView::Object(m) && m.len() == 1
    &&& v.get(W3C_ELEMENT_KEY@) matches Some(JsonView::Str(name)) && s.elements.contains_key(name)
        && s.elements[name] == e
}

proof fn lemma_reference(s: SessionView, name: Seq<char>, e: ElementView)
    requires
        s.elements.contains_key(name),
        s.elements[name] == e,
    ensures
        refers_to(element_reference(name), s, e),
{
    lemma_one_member(W3C_ELEMENT_KEY@, JsonView::Str(name), W3C_ELEMENT_KEY@);
}

/// A search for one element, and the question which element has the focus, are answered with a
/// reference to the element that the plugin describes, the first one of a search, by which the
/// session knows it from then on. Nothing else of the session changes.
pub proof fn law_described_element_is_answered(
    s: SessionView,
    then: ThenView,
    o: OutcomeView,
    v: JsonView,
    item: JsonView,
    e: ElementView,
    fresh: Seq<Seq<char>>,
)
    requires
        gives(o, v),
        describes(item, e),
        (then is First && (v.get("elements"@) matches Some(JsonView::Array(items)) && items.len()
            > 0 && items[0] == item)) || (then is Active && v.get("element"@) == Some(item)),
    ensures
        ({
            let after = next_session(s, then, o, fresh);
            &&& next_step(s, then, o, fresh) matches StepView::Done(Ok(body)) && body.get(
                "value"@,
            ) matches Some(reference) && refers_to(reference, after, e)
            &&& after.shadows == s.shadows
            &&& after.plugin_url == s.plugin_url
            &&& after.timeouts == s.timeouts
        }),
{
    let after = next_session(s, then, o, fresh);
    assert(described_element(item) == e);
    let id = given_name(s.elements, e, fresh[0]);
    if is_known(s.elements, e) {
        assert(s.elements.contains_key(id) && s.elements[id] == e);
    }
    lemma_reference(after, id, e);
    lemma_one_member("value"@, element_reference(id), "value"@);
}

/// A search for all elements is answered with as many references as the plugin describes
/// elements, in the same order, and the session knows each element by its reference from then on,
/// as long as chance gives no name twice. Nothing else of the session changes.
pub proof fn law_described_elements_are_answered(
    s: SessionView,
    o: OutcomeView,
    v: JsonView,
    items: Seq<JsonView>,
    i: int,
    e: ElementView,
    fresh: Seq<Seq<char>>,
)
    requires
        gives(o, v),
        v.get("elements"@) == Some(JsonView::Array(items)),
        0 <= i < items.len() <= fresh.len(),
        unused(fresh, s.elements),
        describes(items[i], e),
    ensures
        ({
            let after = next_session(s, ThenView::All, o, fresh);
            &&& next_step(s, ThenView::All, o, fresh) matches StepView::Done(Ok(body)) && body.get(
                "value"@,
            ) matches Some(JsonView::Array(all)) && all.len() == items.len() && refers_to(
                all[i],
                after,
                e,
            )
            &&& after.shadows == s.shadows
            &&& after.plugin_url == s.plugin_url
            &&& after.timeouts == s.timeouts
        }),
{
    let after = next_session(s, ThenView::All, o, fresh);
    assert(described_element(items[i]) == e);
    let before = with_elements(s.elements, items, fresh, i as nat);
    let between = with_elements(s.elements, items, fresh, (i + 1) as nat);
    let id = given_name(before, e, fresh[i]);
    if is_known(before, e) {
        assert(before.contains_key(id) && before[id] == e);
    }
    assert(between.contains_key(id) && between[id] == e);
    lemma_names_stay(s.elements, items, fresh, (i + 1) as nat, items.len(), id);
    lemma_reference(after, id, e);
    lemma_one_member(
        "value"@,
        JsonView::Array(references(s.elements, items, fresh)),
        "value"@,
    );
}

} // verus!
