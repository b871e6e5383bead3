//! Commands on elements.

use crate::driver::commands::replies::{member, member_then};
use crate::driver::error::no_element_error;
use crate::driver::session::{
    element_object, resolve_element, write_element, Session, SessionView,
};
use crate::driver::step::{
    call, call_on_element, call_on_element_with, call_step, element_step, element_step_with,
    error_step, fail, Step, StepView, Then, ThenView,
};
use crate::json::{object_0, text_value};
use crate::value::{empty_object, Json, JsonView};
use vstd::prelude::*;

verus! {

/// Clicks an element.
pub fn click_element(session: &Session, eid: &str) -> (r: Step)
    requires
        session.wf(),
    ensures
        r@ == element_step(session@, eid@, "/element/click"@, ThenView::Null),
{
    call_on_element(session, eid, "/element/click", Then::Null)
}

/// Empties an element.
pub fn clear_element(session: &Session, eid: &str) -> (r: Step)
    requires
        session.wf(),
    ensures
        r@ == element_step(session@, eid@, "/element/clear"@, ThenView::Null),
{
    call_on_element(session, eid, "/element/clear", Then::Null)
}

/// The first step of sending text to an element: asking for its tag.
pub open spec fn send_keys_step(s: SessionView, eid: Seq<char>, body: JsonView) -> StepView {
    if s.elements.contains_key(eid) {
        call_step(
            s,
            "/element/tag"@,
            element_object(s.elements[eid]),
            ThenView::KeysTag {
                element: s.elements[eid],
                text: body.get_str_or("text"@, ""@),
            },
        )
    } else {
        error_step(no_element_error(eid))
    }
}

/// Sends text to an element; for a file input the text lists the files to upload.
pub fn send_keys(session: &Session, eid: &str, body: &Json) -> (r: Step)
    requires
        session.wf(),
    ensures
        r@ == send_keys_step(session@, eid@, body@),
{
    match resolve_element(session, eid) {
        Ok(e) => {
            let then = Then::KeysTag { element: e.copy(), text: body.get_str_or("text", "") };
            call(session, "/element/tag", write_element(e), then)
        },
        Err(e) => fail(e),
    }
}

/// Asks for the text of an element.
pub fn get_element_text(session: &Session, eid: &str) -> (r: Step)
    requires
        session.wf(),
    ensures
        r@ == element_step(
            session@,
            eid@,
            "/element/text"@,
            member_then("text"@, JsonView::Str(""@)),
        ),
{
    call_on_element(session, eid, "/element/text", member("text", text_value("")))
}

/// Asks for the tag of an element.
pub fn get_element_tag(session: &Session, eid: &str) -> (r: Step)
    requires
        session.wf(),
    ensures
        r@ == element_step(
            session@,
            eid@,
            "/element/tag"@,
            member_then("tag"@, JsonView::Str(""@)),
        ),
{
    call_on_element(session, eid, "/element/tag", member("tag", text_value("")))
}

/// Asks for an attribute of an element.
pub fn get_element_attribute(session: &Session, eid: &str, name: &str) -> (r: Step)
    requires
        session.wf(),
    ensures
        r@ == element_step_with(
            session@,
            eid@,
            "/element/attribute"@,
            "name"@,
            JsonView::Str(name@),
            member_then("value"@, JsonView::Null),
        ),
{
    call_on_element_with(
        session,
        eid,
        "/element/attribute",
        "name",
        text_value(name),
        member("value", Json::Null),
    )
}

/// Asks for a property of an element.
pub fn get_element_property(session: &Session, eid: &str, name: &str) -> (r: Step)
    requires
        session.wf(),
    ensures
        r@ == element_step_with(
            session@,
            eid@,
            "/element/property"@,
            "name"@,
            JsonView::Str(name@),
            member_then("value"@, JsonView::Null),
        ),
{
    call_on_element_with(
        session,
        eid,
        "/element/property",
        "name",
        text_value(name),
        member("value", Json::Null),
    )
}

/// Asks for a style property of an element, as a property under a marked name.
pub fn get_element_css(session: &Session, eid: &str, name: &str) -> (r: Step)
    requires
        session.wf(),
    ensures
        r@ == element_step_with(
            session@,
            eid@,
            "/element/property"@,
            "name"@,
            JsonView::Str("__css__"@ + name@),
            ThenView::Style,
        ),
{
    let mut full = "__css__".to_owned();
    full.append(name);
    call_on_element_with(session, eid, "/element/property", "name", Json::Str(full), Then::Style)
}

/// Asks for the place and size of an element.
pub fn get_element_rect(session: &Session, eid: &str) -> (r: Step)
    requires
        session.wf(),
    ensures
        r@ == element_step(session@, eid@, "/element/rect"@, ThenView::Whole),
{
    call_on_element(session, eid, "/element/rect", Then::Whole)
}

/// Asks whether an element is enabled.
pub fn is_element_enabled(session: &Session, eid: &str) -> (r: Step)
    requires
        session.wf(),
    ensures
        r@ == element_step(
            session@,
            eid@,
            "/element/enabled"@,
            member_then("enabled"@, JsonView::Bool(true)),
        ),
{
    call_on_element(session, eid, "/element/enabled", member("enabled", Json::Bool(true)))
}

/// Asks whether an element is selected.
pub fn is_element_selected(session: &Session, eid: &str) -> (r: Step)
    requires
        session.wf(),
    ensures
        r@ == element_step(
            session@,
            eid@,
            "/element/selected"@,
            member_then("selected"@, JsonView::Bool(false)),
        ),
{
    call_on_element(session, eid, "/element/selected", member("selected", Json::Bool(false)))
}

/// Asks whether an element is displayed.
pub fn is_element_displayed(session: &Session, eid: &str) -> (r: Step)
    requires
        session.wf(),
    ensures
        r@ == element_step(
            session@,
            eid@,
            "/element/displayed"@,
            member_then("displayed"@, JsonView::Bool(true)),
        ),
{
    call_on_element(session, eid, "/element/displayed", member("displayed", Json::Bool(true)))
}

/// Asks for the role of an element.
pub fn get_computed_role(session: &Session, eid: &str) -> (r: Step)
    requires
        session.wf(),
    ensures
        r@ == element_step(
            session@,
            eid@,
            "/element/computed-role"@,
            member_then("role"@, JsonView::Str("generic"@)),
        ),
{
    call_on_element(session, eid, "/element/computed-role", member("role", text_value("generic")))
}

/// Asks for the label of an element.
pub fn get_computed_label(session: &Session, eid: &str) -> (r: Step)
    requires
        session.wf(),
    ensures
        r@ == element_step(
            session@,
            eid@,
            "/element/computed-label"@,
            member_then("label"@, JsonView::Str(""@)),
        ),
{
    call_on_element(session, eid, "/element/computed-label", member("label", text_value("")))
}

/// The first step of asking for the shadow root of an element.
pub open spec fn get_shadow_root_step(s: SessionView, eid: Seq<char>) -> StepView {
    if s.elements.contains_key(eid) {
        call_step(
            s,
            "/element/shadow"@,
            element_object(s.elements[eid]),
            ThenView::Shadow { eid, host: s.elements[eid] },
        )
    } else {
        error_step(no_element_error(eid))
    }
}

/// Asks for the shadow root of an element.
pub fn get_shadow_root(session: &Session, eid: &str) -> (r: Step)
    requires
        session.wf(),
    ensures
        r@ == get_shadow_root_step(session@, eid@),
{
    match resolve_element(session, eid) {
        Ok(e) => {
            let then = Then::Shadow { eid: eid.to_owned(), host: e.copy() };
            call(session, "/element/shadow", write_element(e), then)
        },
        Err(e) => fail(e),
    }
}

/// Asks for the element that has the focus.
pub fn get_active_element(session: &Session) -> (r: Step)
    ensures
        r@ == call_step(session@, "/element/active"@, empty_object(), ThenView::Active),
{
    call(session, "/element/active", object_0(), Then::Active)
}

} // verus!
