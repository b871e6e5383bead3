//! Commands on windows and frames.

use crate::driver::error::{argument_error, no_element_error, W3cError};
use crate::driver::script::W3C_ELEMENT_KEY;
use crate::driver::session::{resolve_element, Session, SessionView};
use crate::driver::step::{call, call_step, error_step, fail, Step, StepView, Then, ThenView};
use crate::json::{object_0, object_1, text_value, with_member};
use crate::value::{empty_object, object, Json, JsonView};
use vstd::prelude::*;

verus! {

/// Asks for the handle of the current window.
pub fn get_window_handle(session: &Session) -> (r: Step)
    ensures
        r@ == call_step(session@, "/window/handle"@, empty_object(), ThenView::Whole),
{
    call(session, "/window/handle", object_0(), Then::Whole)
}

/// Closes the current window: asks for its handle, closes the window of that handle, and asks
/// for the handles that are left.
pub fn close_window(session: &Session) -> (r: Step)
    ensures
        r@ == call_step(session@, "/window/handle"@, empty_object(), ThenView::Close),
{
    call(session, "/window/handle", object_0(), Then::Close)
}

/// Asks for the handles of all windows.
pub fn get_window_handles(session: &Session) -> (r: Step)
    ensures
        r@ == call_step(session@, "/window/handles"@, empty_object(), ThenView::Whole),
{
    call(session, "/window/handles", object_0(), Then::Whole)
}

/// Asks for the place and size of the window.
pub fn get_window_rect(session: &Session) -> (r: Step)
    ensures
        r@ == call_step(session@, "/window/rect"@, empty_object(), ThenView::Whole),
{
    call(session, "/window/rect", object_0(), Then::Whole)
}

/// Moves and resizes the window, and asks for its place and size.
pub fn set_window_rect(session: &Session, body: &Json) -> (r: Step)
    ensures
        r@ == call_step(session@, "/window/set-rect"@, body@, ThenView::Rect),
{
    call(session, "/window/set-rect", body.copy(), Then::Rect)
}

/// Maximizes the window, and asks for its place and size.
pub fn maximize_window(session: &Session) -> (r: Step)
    ensures
        r@ == call_step(session@, "/window/maximize"@, empty_object(), ThenView::Rect),
{
    call(session, "/window/maximize", object_0(), Then::Rect)
}

/// Minimizes the window, and asks for its place and size.
pub fn minimize_window(session: &Session) -> (r: Step)
    ensures
        r@ == call_step(session@, "/window/minimize"@, empty_object(), ThenView::Rect),
{
    call(session, "/window/minimize", object_0(), Then::Rect)
}

/// Makes the window fill the screen, and asks for its place and size.
pub fn fullscreen_window(session: &Session) -> (r: Step)
    ensures
        r@ == call_step(session@, "/window/fullscreen"@, empty_object(), ThenView::Rect),
{
    call(session, "/window/fullscreen", object_0(), Then::Rect)
}

/// Opens a window.
pub fn new_window(session: &Session, body: &Json) -> (r: Step)
    ensures
        r@ == call_step(session@, "/window/new"@, body@, ThenView::NewWindow),
{
    call(session, "/window/new", body.copy(), Then::NewWindow)
}

/// The first step of switching to the window that a request names.
pub open spec fn switch_to_window_step(s: SessionView, body: JsonView) -> StepView {
    match body.get_str("handle"@) {
        Some(handle) => call_step(
            s,
            "/window/set-current"@,
            object("label"@, JsonView::Str(handle)),
            ThenView::Switch { handle },
        ),
        None => error_step(argument_error("Missing 'handle'"@)),
    }
}

/// Switches to the window that a request names.
pub fn switch_to_window(session: &Session, body: &Json) -> (r: Step)
    ensures
        r@ == switch_to_window_step(session@, body@),
{
    match body.get_str("handle") {
        Some(handle) => call(
            session,
            "/window/set-current",
            object_1("label", text_value(handle)),
            Then::Switch { handle: handle.to_owned() },
        ),
        None => fail(W3cError::bad_request("Missing 'handle'".to_owned())),
    }
}

/// The first step of switching to the frame that a request names: the top level for null or
/// nothing, a frame by its number, or the frame of an element.
pub open spec fn switch_to_frame_step(s: SessionView, body: JsonView) -> StepView {
    let id = body.get_or("id"@, JsonView::Null);
    match id {
        JsonView::Null => call_step(
            s,
            "/frame/switch"@,
            object("id"@, JsonView::Null),
            ThenView::Null,
        ),
        JsonView::Unsigned(n) => call_step(
            s,
            "/frame/switch"@,
            object("id"@, JsonView::Unsigned(n)),
            ThenView::Null,
        ),
        _ => match id.get_str(W3C_ELEMENT_KEY@) {
            Some(eid) => if s.elements.contains_key(eid) {
                call_step(
                    s,
                    "/frame/switch"@,
                    object(
                        "id"@,
                        object("selector"@, JsonView::Str(s.elements[eid].selector)).with(
                            "index"@,
                            JsonView::Unsigned(s.elements[eid].index as u64),
                        ),
                    ),
                    ThenView::Null,
                )
            } else {
                error_step(no_element_error(eid))
            },
            None => error_step(argument_error("Invalid frame id"@)),
        },
    }
}

/// Switches to the frame that a request names.
pub fn switch_to_frame(session: &Session, body: &Json) -> (r: Step)
    requires
        session.wf(),
    ensures
        r@ == switch_to_frame_step(session@, body@),
{
    let id = body.get_or("id", Json::Null);
    if id.is_null() {
        return call(session, "/frame/switch", object_1("id", Json::Null), Then::Null);
    }
    if let Some(n) = id.as_u64() {
        return call(session, "/frame/switch", object_1("id", Json::Unsigned(n)), Then::Null);
    }
    match id.get_str(W3C_ELEMENT_KEY) {
        Some(eid) => match resolve_element(session, eid) {
            Ok(e) => {
                let frame = object_1("selector", text_value(e.selector.as_str()));
                let frame = with_member(frame, "index", Json::Unsigned(e.index as u64));
                call(session, "/frame/switch", object_1("id", frame), Then::Null)
            },
            Err(e) => fail(e),
        },
        None => fail(W3cError::bad_request("Invalid frame id".to_owned())),
    }
}

/// Switches to the parent of the current frame.
pub fn switch_to_parent_frame(session: &Session) -> (r: Step)
    ensures
        r@ == call_step(session@, "/frame/parent"@, empty_object(), ThenView::Null),
{
    call(session, "/frame/parent", object_0(), Then::Null)
}

} // verus!
