//! Sessions and the elements and shadow roots that they know.

use crate::driver::error::{no_element_error, W3cError};
use crate::driver::table::Table;
use crate::json::{object_1, text_value, with_member};
use crate::outside::{is_uuid, new_uuid};
use crate::value::{object, Json, JsonView};
use vstd::prelude::*;

verus! {

/// How the plugin finds an element again: the locator strategy, the selector, and the place of
/// the element among those that match.
pub struct ElementRef {
    pub selector: String,
    pub index: usize,
    pub using: String,
}

/// The mathematical value of an [`ElementRef`].
#[verifier::ext_equal]
pub struct ElementView {
    pub selector: Seq<char>,
    pub index: usize,
    pub using: Seq<char>,
}

impl View for ElementRef {
    type V = ElementView;

    open spec fn view(&self) -> ElementView {
        ElementView { selector: self.selector@, index: self.index, using: self.using@ }
    }
}

impl ElementRef {
    /// A copy.
    pub fn copy(&self) -> (r: ElementRef)
        ensures
            r@ == self@,
    {
        ElementRef { selector: self.selector.clone(), index: self.index, using: self.using.clone() }
    }

    fn same(&self, other: &ElementRef) -> (r: bool)
        ensures
            r == (self@ == other@),
    {
        self.selector == other.selector && self.index == other.index && self.using == other.using
    }
}

/// The members that tell the plugin which element is meant.
pub open spec fn element_object(e: ElementView) -> JsonView {
    object("selector"@, JsonView::Str(e.selector)).with(
        "index"@,
        JsonView::Unsigned(e.index as u64),
    ).with("using"@, JsonView::Str(e.using))
}

/// Writes the members that tell the plugin which element is meant.
pub fn write_element(e: &ElementRef) -> (r: Json)
    ensures
        r@ == element_object(e@),
{
    let body = object_1("selector", text_value(e.selector.as_str()));
    let body = with_member(body, "index", Json::Unsigned(e.index as u64));
    with_member(body, "using", text_value(e.using.as_str()))
}

/// How the plugin finds the host of a shadow root again.
pub struct ShadowRef {
    pub host_selector: String,
    pub host_index: usize,
    pub host_using: String,
}

/// The mathematical value of a [`ShadowRef`].
#[verifier::ext_equal]
pub struct ShadowView {
    pub host_selector: Seq<char>,
    pub host_index: usize,
    pub host_using: Seq<char>,
}

impl View for ShadowRef {
    type V = ShadowView;

    open spec fn view(&self) -> ShadowView {
        ShadowView {
            host_selector: self.host_selector@,
            host_index: self.host_index,
            host_using: self.host_using@,
        }
    }
}

/// The timeouts of a session, in milliseconds.
#[derive(Clone, Copy, PartialEq, Eq, Structural, Debug)]
pub struct Timeouts {
    pub script: u64,
    pub page_load: u64,
    pub implicit: u64,
}

/// The timeouts of a new session.
pub open spec fn default_timeouts() -> Timeouts {
    Timeouts { script: 30000, page_load: 300000, implicit: 0 }
}

impl Default for Timeouts {
    fn default() -> (r: Timeouts)
        ensures
            r == default_timeouts(),
    {
        Timeouts { script: 30000, page_load: 300000, implicit: 0 }
    }
}

/// An open session: where its plugin listens, and what it knows.
pub struct Session {
    pub plugin_url: String,
    pub elements: Table<ElementRef>,
    pub shadows: Table<ShadowRef>,
    pub timeouts: Timeouts,
}

/// The mathematical value of a [`Session`].
#[verifier::ext_equal]
pub struct SessionView {
    pub plugin_url: Seq<char>,
    pub elements: Map<Seq<char>, ElementView>,
    pub shadows: Map<Seq<char>, ShadowView>,
    pub timeouts: Timeouts,
}

/// The values of a table of elements.
pub open spec fn elements_view(t: Table<ElementRef>) -> Map<Seq<char>, ElementView> {
    t.map().map_values(|e: ElementRef| e@)
}

/// The values of a table of shadow roots.
pub open spec fn shadows_view(t: Table<ShadowRef>) -> Map<Seq<char>, ShadowView> {
    t.map().map_values(|e: ShadowRef| e@)
}

impl View for Session {
    type V = SessionView;

    open spec fn view(&self) -> SessionView {
        SessionView {
            plugin_url: self.plugin_url@,
            elements: elements_view(self.elements),
            shadows: shadows_view(self.shadows),
            timeouts: self.timeouts,
        }
    }
}

/// No element is known under two names.
pub open spec fn elements_distinct(elements: Map<Seq<char>, ElementView>) -> bool {
    forall|a: Seq<char>, b: Seq<char>|
        #![trigger elements[a], elements[b]]
        elements.contains_key(a) && elements.contains_key(b) && elements[a] == elements[b] ==> a
            == b
}

/// What a new session is.
pub open spec fn fresh_session(plugin_url: Seq<char>) -> SessionView {
    SessionView {
        plugin_url,
        elements: Map::empty(),
        shadows: Map::empty(),
        timeouts: default_timeouts(),
    }
}

/// The element that a plugin describes: its selector, place and strategy, each with a default.
pub open spec fn described_element(j: JsonView) -> ElementView {
    ElementView {
        selector: j.get_str_or("selector"@, ""@),
        index: j.get_u64_or("index"@, 0) as usize,
        using: j.get_str_or("using"@, "css"@),
    }
}

/// Whether an element is known under some name.
pub open spec fn is_known(elements: Map<Seq<char>, ElementView>, e: ElementView) -> bool {
    exists|k: Seq<char>| elements.contains_key(k) && #[trigger] elements[k] == e
}

/// The name that an element is given: the one that it has, or the fresh one.
pub open spec fn given_name(
    elements: Map<Seq<char>, ElementView>,
    e: ElementView,
    fresh: Seq<char>,
) -> Seq<char> {
    if is_known(elements, e) {
        choose|k: Seq<char>| elements.contains_key(k) && #[trigger] elements[k] == e
    } else {
        fresh
    }
}

/// The elements that are known once `e` has been stored, with `fresh` as the name for a new one.
pub open spec fn with_element(
    elements: Map<Seq<char>, ElementView>,
    e: ElementView,
    fresh: Seq<char>,
) -> Map<Seq<char>, ElementView> {
    if is_known(elements, e) {
        elements
    } else {
        elements.insert(fresh, e)
    }
}

/// Whether storing `e` may answer `id` and lead from `before` to `after`: a known element keeps
/// its name, a new one gets a random UUID.
pub open spec fn stores(
    before: Map<Seq<char>, ElementView>,
    e: ElementView,
    id: Seq<char>,
    after: Map<Seq<char>, ElementView>,
) -> bool {
    if is_known(before, e) {
        before.contains_key(id) && before[id] == e && after == before
    } else {
        is_uuid(id) && after == before.insert(id, e)
    }
}

impl Session {
    /// The tables are well formed and no element is known under two names.
    pub open spec fn wf(self) -> bool {
        &&& self.elements.wf()
        &&& self.shadows.wf()
        &&& elements_distinct(self@.elements)
    }

    /// A session that knows nothing yet.
    pub fn new(plugin_url: String) -> (r: Session)
        ensures
            r.wf(),
            r@ == fresh_session(plugin_url@),
    {
        let r = Session {
            plugin_url,
            elements: Table::new(),
            shadows: Table::new(),
            timeouts: Timeouts::default(),
        };
        assert(r@.elements =~= Map::<Seq<char>, ElementView>::empty());
        assert(r@.shadows =~= Map::<Seq<char>, ShadowView>::empty());
        r
    }
}

/// The element that a name stands for.
pub fn resolve_element<'a>(session: &'a Session, eid: &str) -> (r: Result<&'a ElementRef, W3cError>)
    requires
        session.wf(),
    ensures
        match r {
            Ok(e) => session@.elements.contains_key(eid@) && e@ == session@.elements[eid@],
            Err(e) => !session@.elements.contains_key(eid@) && e@ == no_element_error(eid@),
        },
{
    match session.elements.get(eid) {
        Some(e) => Ok(e),
        None => Err(W3cError::no_element(eid)),
    }
}

/// Reads the element that a plugin describes.
pub fn read_element(elem: &Json) -> (r: ElementRef)
    ensures
        r@ == described_element(elem@),
{
    ElementRef {
        selector: elem.get_str_or("selector", ""),
        index: elem.get_u64_or("index", 0) as usize,
        using: elem.get_str_or("using", "css"),
    }
}

/// The name of an element, where it is known.
fn find_name(session: &Session, e: &ElementRef) -> (r: Option<String>)
    requires
        session.wf(),
    ensures
        match r {
            Some(k) => session@.elements.contains_key(k@) && session@.elements[k@] == e@,
            None => !is_known(session@.elements, e@),
        },
{
    let table = &session.elements;
    let mut i: usize = 0;
    while i < table.len()
        invariant
            session.wf(),
            *table == session.elements,
            i <= table.size(),
            forall|k: int| 0 <= k < i ==> (#[trigger] table.entry(k))@ != e@,
        decreases table.size() - i,
    {
        if table.entry_at(i).same(e) {
            proof {
                table.lemma_entry(i as int);
            }
            return Some(table.name_at(i).clone());
        }
        i = i + 1;
    }
    assert(!is_known(session@.elements, e@)) by {
        if is_known(session@.elements, e@) {
            let k = choose|k: Seq<char>|
                session@.elements.contains_key(k) && #[trigger] session@.elements[k] == e@;
            let j = table.lemma_key(k);
        }
    }
    None
}

/// Stores an element that a plugin describes and answers its name: the one that it has, or
/// `fresh` where it is new.
pub fn store_element_as(session: &mut Session, elem: &Json, fresh: String) -> (r: String)
    requires
        old(session).wf(),
    ensures
        final(session).wf(),
        r@ == given_name(old(session)@.elements, described_element(elem@), fresh@),
        final(session)@ == (SessionView {
            elements: with_element(old(session)@.elements, described_element(elem@), fresh@),
            ..old(session)@
        }),
{
    let e = read_element(elem);
    let ghost before = session@;
    match find_name(session, &e) {
        Some(k) => {
            assert(given_name(before.elements, e@, fresh@) == k@) by {
                let c = given_name(before.elements, e@, fresh@);
                assert(before.elements[c] == before.elements[k@]);
            }
            k
        },
        None => {
            let id = fresh.clone();
            session.elements.insert(fresh, e);
            assert(session@.elements =~= before.elements.insert(id@, e@));
            assert(elements_distinct(session@.elements)) by {
                assert forall|a: Seq<char>, b: Seq<char>|
                    #![trigger session@.elements[a], session@.elements[b]]
                    session@.elements.contains_key(a) && session@.elements.contains_key(b)
                        && session@.elements[a] == session@.elements[b] implies a == b by {
                    if a != id@ && b != id@ {
                        assert(before.elements[a] == before.elements[b]);
                    } else if a != id@ {
                        assert(before.elements[a] == e@);
                    } else if b != id@ {
                        assert(before.elements[b] == e@);
                    }
                }
            }
            id
        },
    }
}

/// Stores an element that a plugin describes and answers its name. An element that is known
/// keeps its name.
pub fn store_element(session: &mut Session, elem: &Json) -> (r: String)
    requires
        old(session).wf(),
    ensures
        final(session).wf(),
        stores(
            old(session)@.elements,
            described_element(elem@),
            r@,
            final(session)@.elements,
        ),
        final(session)@ == (SessionView { elements: final(session)@.elements, ..old(session)@ }),
{
    let fresh = new_uuid();
    store_element_as(session, elem, fresh)
}

} // verus!
