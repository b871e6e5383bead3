//! Commands on the page: navigation, pictures and printing.

use crate::driver::commands::replies::{member, member_then};
use crate::driver::error::{argument_error, W3cError};
use crate::driver::session::{Session, SessionView};
use crate::driver::step::{
    call, call_on_element, call_step, element_step, error_step, fail, Step, StepView, Then,
    ThenView,
};
use crate::json::{object_0, object_1, text_value};
use crate::value::{empty_object, object, Json, JsonView};
use vstd::prelude::*;

verus! {

/// The first step of going to the address that a request gives.
pub open spec fn navigate_to_step(s: SessionView, body: JsonView) -> StepView {
    match body.get_str("url"@) {
        Some(url) => call_step(
            s,
            "/navigate/url"@,
            object("url"@, JsonView::Str(url)),
            ThenView::Null,
        ),
        None => error_step(argument_error("Missing url"@)),
    }
}

/// Goes to the address that a request gives.
pub fn navigate_to(session: &Session, body: &Json) -> (r: Step)
    ensures
        r@ == navigate_to_step(session@, body@),
{
    match body.get_str("url") {
        Some(url) => call(session, "/navigate/url", object_1("url", text_value(url)), Then::Null),
        None => fail(W3cError::bad_request("Missing url".to_owned())),
    }
}

/// Asks for the address of the page.
pub fn get_url(session: &Session) -> (r: Step)
    ensures
        r@ == call_step(
            session@,
            "/navigate/current"@,
            empty_object(),
            member_then("url"@, JsonView::Str(""@)),
        ),
{
    call(session, "/navigate/current", object_0(), member("url", text_value("")))
}

/// Asks for the title of the page.
pub fn get_title(session: &Session) -> (r: Step)
    ensures
        r@ == call_step(
            session@,
            "/navigate/title"@,
            empty_object(),
            member_then("title"@, JsonView::Str(""@)),
        ),
{
    call(session, "/navigate/title", object_0(), member("title", text_value("")))
}

/// Asks for the source of the page.
pub fn get_page_source(session: &Session) -> (r: Step)
    ensures
        r@ == call_step(
            session@,
            "/source"@,
            empty_object(),
            member_then("source"@, JsonView::Str(""@)),
        ),
{
    call(session, "/source", object_0(), member("source", text_value("")))
}

/// Goes back in the history.
pub fn go_back(session: &Session) -> (r: Step)
    ensures
        r@ == call_step(session@, "/navigate/back"@, empty_object(), ThenView::Null),
{
    call(session, "/navigate/back", object_0(), Then::Null)
}

/// Goes forward in the history.
pub fn go_forward(session: &Session) -> (r: Step)
    ensures
        r@ == call_step(session@, "/navigate/forward"@, empty_object(), ThenView::Null),
{
    call(session, "/navigate/forward", object_0(), Then::Null)
}

/// Loads the page again.
pub fn refresh(session: &Session) -> (r: Step)
    ensures
        r@ == call_step(session@, "/navigate/refresh"@, empty_object(), ThenView::Null),
{
    call(session, "/navigate/refresh", object_0(), Then::Null)
}

/// Takes a picture of the page.
pub fn take_screenshot(session: &Session) -> (r: Step)
    ensures
        r@ == call_step(
            session@,
            "/screenshot"@,
            empty_object(),
            member_then("data"@, JsonView::Str(""@)),
        ),
{
    call(session, "/screenshot", object_0(), member("data", text_value("")))
}

/// Takes a picture of an element.
pub fn element_screenshot(session: &Session, eid: &str) -> (r: Step)
    requires
        session.wf(),
    ensures
        r@ == element_step(
            session@,
            eid@,
            "/screenshot/element"@,
            member_then("data"@, JsonView::Str(""@)),
        ),
{
    call_on_element(session, eid, "/screenshot/element", member("data", text_value("")))
}

/// Prints the page.
pub fn print_page(session: &Session, body: &Json) -> (r: Step)
    ensures
        r@ == call_step(session@, "/print"@, body@, member_then("data"@, JsonView::Str(""@))),
{
    call(session, "/print", body.copy(), member("data", text_value("")))
}

} // verus!
