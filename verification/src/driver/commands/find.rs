//! Commands that look for elements.

use crate::driver::error::{no_element_error, W3cError, W3cErrorView};
use crate::driver::locator::{extract_locator, locator};
use crate::driver::session::{resolve_element, ElementView, Session, SessionView, ShadowView};
use crate::driver::step::{call, call_step, error_step, fail, Step, StepView, Then, ThenView};
use crate::json::{object_1, text_value, with_member};
use crate::value::{object, Json, JsonView};
use vstd::prelude::*;

verus! {

/// The body of a search with a locator.
pub open spec fn locator_object(l: (Seq<char>, Seq<char>)) -> JsonView {
    object("using"@, JsonView::Str(l.0)).with("value"@, JsonView::Str(l.1))
}

/// The body of a search below a shadow root.
pub open spec fn shadow_object(h: ShadowView, l: (Seq<char>, Seq<char>)) -> JsonView {
    object("host_selector"@, JsonView::Str(h.host_selector)).with(
        "host_index"@,
        JsonView::Unsigned(h.host_index as u64),
    ).with("host_using"@, JsonView::Str(h.host_using)).with("using"@, JsonView::Str(l.0)).with(
        "value"@,
        JsonView::Str(l.1),
    )
}

/// The body of a search below an element.
pub open spec fn parent_object(p: ElementView, l: (Seq<char>, Seq<char>)) -> JsonView {
    object("parent_selector"@, JsonView::Str(p.selector)).with(
        "parent_index"@,
        JsonView::Unsigned(p.index as u64),
    ).with("parent_using"@, JsonView::Str(p.using)).with("using"@, JsonView::Str(l.0)).with(
        "value"@,
        JsonView::Str(l.1),
    )
}

/// The message for a search without result.
pub open spec fn not_found_message(lead: Seq<char>, l: (Seq<char>, Seq<char>)) -> Seq<char> {
    lead + l.0 + ": "@ + l.1
}

/// What to do with the result of a search: reply with the first element, or with all.
pub open spec fn search_then(first: bool, lead: Seq<char>, l: (Seq<char>, Seq<char>)) -> ThenView {
    if first {
        ThenView::First { message: not_found_message(lead, l) }
    } else {
        ThenView::All
    }
}

/// The first step of a search of the page.
pub open spec fn find_step(s: SessionView, body: JsonView, first: bool) -> StepView {
    match locator(body) {
        Ok(l) => call_step(
            s,
            "/element/find"@,
            locator_object(l),
            search_then(first, "No element found with "@, l),
        ),
        Err(e) => error_step(e),
    }
}

/// The error for a shadow root that is not known.
pub open spec fn no_shadow_error(id: Seq<char>) -> W3cErrorView {
    W3cErrorView {
        status: 404,
        error: "no such shadow root"@,
        message: "Shadow root "@ + id + " not found"@,
    }
}

/// The first step of a search below a shadow root.
pub open spec fn find_in_shadow_step(
    s: SessionView,
    id: Seq<char>,
    body: JsonView,
    first: bool,
) -> StepView {
    if !s.shadows.contains_key(id) {
        error_step(no_shadow_error(id))
    } else {
        match locator(body) {
            Ok(l) => call_step(
                s,
                "/shadow/find"@,
                shadow_object(s.shadows[id], l),
                search_then(first, "No element found in shadow with "@, l),
            ),
            Err(e) => error_step(e),
        }
    }
}

/// The first step of a search below an element.
pub open spec fn find_from_step(
    s: SessionView,
    eid: Seq<char>,
    body: JsonView,
    first: bool,
) -> StepView {
    if !s.elements.contains_key(eid) {
        error_step(no_element_error(eid))
    } else {
        match locator(body) {
            Ok(l) => call_step(
                s,
                "/element/find-from"@,
                parent_object(s.elements[eid], l),
                search_then(first, "No child element found with "@, l),
            ),
            Err(e) => error_step(e),
        }
    }
}

fn write_search_then(first: bool, lead: &str, using: &str, value: &str) -> (r: Then)
    ensures
        r@ == search_then(first, lead@, (using@, value@)),
{
    if first {
        let mut message = lead.to_owned();
        message.append(using);
        message.append(": ");
        message.append(value);
        Then::First { message }
    } else {
        Then::All
    }
}

fn find(session: &Session, body: &Json, first: bool) -> (r: Step)
    ensures
        r@ == find_step(session@, body@, first),
{
    match extract_locator(body) {
        Ok((using, value)) => {
            let then = write_search_then(
                first,
                "No element found with ",
                using.as_str(),
                value.as_str(),
            );
            let search = object_1("using", Json::Str(using));
            call(session, "/element/find", with_member(search, "value", Json::Str(value)), then)
        },
        Err(e) => fail(e),
    }
}

fn find_below_shadow(session: &Session, shadow_id: &str, body: &Json, first: bool) -> (r: Step)
    requires
        session.wf(),
    ensures
        r@ == find_in_shadow_step(session@, shadow_id@, body@, first),
{
    let host = match session.shadows.get(shadow_id) {
        Some(h) => h,
        None => {
            let mut message = "Shadow root ".to_owned();
            message.append(shadow_id);
            message.append(" not found");
            return fail(W3cError::new(404, "no such shadow root", message));
        },
    };
    match extract_locator(body) {
        Ok((using, value)) => {
            let then = write_search_then(
                first,
                "No element found in shadow with ",
                using.as_str(),
                value.as_str(),
            );
            let search = object_1("host_selector", text_value(host.host_selector.as_str()));
            let search = with_member(search, "host_index", Json::Unsigned(host.host_index as u64));
            let search = with_member(search, "host_using", text_value(host.host_using.as_str()));
            let search = with_member(search, "using", Json::Str(using));
            call(session, "/shadow/find", with_member(search, "value", Json::Str(value)), then)
        },
        Err(e) => fail(e),
    }
}

fn find_below_element(session: &Session, eid: &str, body: &Json, first: bool) -> (r: Step)
    requires
        session.wf(),
    ensures
        r@ == find_from_step(session@, eid@, body@, first),
{
    let parent = match resolve_element(session, eid) {
        Ok(p) => p,
        Err(e) => return fail(e),
    };
    match extract_locator(body) {
        Ok((using, value)) => {
            let then = write_search_then(
                first,
                "No child element found with ",
                using.as_str(),
                value.as_str(),
            );
            let search = object_1("parent_selector", text_value(parent.selector.as_str()));
            let search = with_member(search, "parent_index", Json::Unsigned(parent.index as u64));
            let search = with_member(search, "parent_using", text_value(parent.using.as_str()));
            let search = with_member(search, "using", Json::Str(using));
            call(
                session,
                "/element/find-from",
                with_member(search, "value", Json::Str(value)),
                then,
            )
        },
        Err(e) => fail(e),
    }
}

/// Looks for the first element that a locator matches.
pub fn find_element(session: &Session, body: &Json) -> (r: Step)
    ensures
        r@ == find_step(session@, body@, true),
{
    find(session, body, true)
}

/// Looks for all elements that a locator matches.
pub fn find_elements(session: &Session, body: &Json) -> (r: Step)
    ensures
        r@ == find_step(session@, body@, false),
{
    find(session, body, false)
}

/// Looks below a shadow root for the first element that a locator matches.
pub fn find_in_shadow(session: &Session, shadow_id: &str, body: &Json) -> (r: Step)
    requires
        session.wf(),
    ensures
        r@ == find_in_shadow_step(session@, shadow_id@, body@, true),
{
    find_below_shadow(session, shadow_id, body, true)
}

/// Looks below a shadow root for all elements that a locator matches.
pub fn find_all_in_shadow(session: &Session, shadow_id: &str, body: &Json) -> (r: Step)
    requires
        session.wf(),
    ensures
        r@ == find_in_shadow_step(session@, shadow_id@, body@, false),
{
    find_below_shadow(session, shadow_id, body, false)
}

/// Looks below an element for the first element that a locator matches.
pub fn find_element_from_element(session: &Session, eid: &str, body: &Json) -> (r: Step)
    requires
        session.wf(),
    ensures
        r@ == find_from_step(session@, eid@, body@, true),
{
    find_below_element(session, eid, body, true)
}

/// Looks below an element for all elements that a locator matches.
pub fn find_elements_from_element(session: &Session, eid: &str, body: &Json) -> (r: Step)
    requires
        session.wf(),
    ensures
        r@ == find_from_step(session@, eid@, body@, false),
{
    find_below_element(session, eid, body, false)
}

} // verus!
