//! Commands on scripts, cookies, actions and dialogs.

use crate::driver::commands::replies::{member, member_then};
use crate::driver::script::{resolve_actions, resolve_script_args, resolved, resolved_actions};
use crate::driver::session::{Session, SessionView};
use crate::driver::step::{call, call_step, Step, StepView, Then, ThenView};
use crate::json::{empty_array, object_0, object_1, text_value, with_member};
use crate::value::{empty_object, object, Json, JsonView};
use vstd::prelude::*;

verus! {

/// The body of a request to run a script, with the references to known elements in its
/// arguments made plain.
pub open spec fn script_object(s: SessionView, body: JsonView) -> JsonView {
    object("script"@, JsonView::Str(body.get_str_or("script"@, ""@))).with(
        "args"@,
        resolved(body.get_or("args"@, JsonView::Array(seq![])), s.elements),
    )
}

/// The first step of running a script.
pub open spec fn execute_step(s: SessionView, path: Seq<char>, body: JsonView) -> StepView {
    call_step(s, path, script_object(s, body), ThenView::Script)
}

fn execute(session: &Session, path: &str, body: &Json) -> (r: Step)
    requires
        session.wf(),
    ensures
        r@ == execute_step(session@, path@, body@),
{
    let script = body.get_str_or("script", "");
    let mut args = body.get_or("args", empty_array());
    resolve_script_args(&mut args, session);
    call(
        session,
        path,
        with_member(object_1("script", Json::Str(script)), "args", args),
        Then::Script,
    )
}

/// Runs a script.
pub fn execute_sync(session: &Session, body: &Json) -> (r: Step)
    requires
        session.wf(),
    ensures
        r@ == execute_step(session@, "/script/execute"@, body@),
{
    execute(session, "/script/execute", body)
}

/// Runs a script that calls back.
pub fn execute_async(session: &Session, body: &Json) -> (r: Step)
    requires
        session.wf(),
    ensures
        r@ == execute_step(session@, "/script/execute-async"@, body@),
{
    execute(session, "/script/execute-async", body)
}

/// Asks for all cookies.
pub fn get_all_cookies(session: &Session) -> (r: Step)
    ensures
        r@ == call_step(
            session@,
            "/cookie/get-all"@,
            empty_object(),
            member_then("cookies"@, JsonView::Array(seq![])),
        ),
{
    call(session, "/cookie/get-all", object_0(), member("cookies", empty_array()))
}

/// Asks for the cookie of a name.
pub fn get_named_cookie(session: &Session, name: &str) -> (r: Step)
    ensures
        r@ == call_step(
            session@,
            "/cookie/get"@,
            object("name"@, JsonView::Str(name@)),
            ThenView::Cookie { name: name@ },
        ),
{
    call(
        session,
        "/cookie/get",
        object_1("name", text_value(name)),
        Then::Cookie { name: name.to_owned() },
    )
}

/// Adds the cookie that a request gives.
pub fn add_cookie(session: &Session, body: &Json) -> (r: Step)
    ensures
        r@ == call_step(
            session@,
            "/cookie/add"@,
            object("cookie"@, body@.get_or("cookie"@, empty_object())),
            ThenView::Null,
        ),
{
    let cookie = body.get_or("cookie", object_0());
    call(session, "/cookie/add", object_1("cookie", cookie), Then::Null)
}

/// Deletes the cookie of a name.
pub fn delete_cookie(session: &Session, name: &str) -> (r: Step)
    ensures
        r@ == call_step(
            session@,
            "/cookie/delete"@,
            object("name"@, JsonView::Str(name@)),
            ThenView::Null,
        ),
{
    call(session, "/cookie/delete", object_1("name", text_value(name)), Then::Null)
}

/// Deletes all cookies.
pub fn delete_all_cookies(session: &Session) -> (r: Step)
    ensures
        r@ == call_step(session@, "/cookie/delete-all"@, empty_object(), ThenView::Null),
{
    call(session, "/cookie/delete-all", object_0(), Then::Null)
}

/// Performs actions, with the references to known elements in their origins made plain.
pub fn perform_actions(session: &Session, body: &Json) -> (r: Step)
    requires
        session.wf(),
    ensures
        r@ == call_step(
            session@,
            "/actions/perform"@,
            resolved_actions(body@, session@.elements),
            ThenView::Null,
        ),
{
    call(session, "/actions/perform", resolve_actions(body, session), Then::Null)
}

/// Releases keys and buttons.
pub fn release_actions(session: &Session) -> (r: Step)
    ensures
        r@ == call_step(session@, "/actions/release"@, empty_object(), ThenView::Null),
{
    call(session, "/actions/release", object_0(), Then::Null)
}

/// Dismisses the open dialog.
pub fn dismiss_alert(session: &Session) -> (r: Step)
    ensures
        r@ == call_step(session@, "/alert/dismiss"@, empty_object(), ThenView::AlertNull),
{
    call(session, "/alert/dismiss", object_0(), Then::AlertNull)
}

/// Accepts the open dialog.
pub fn accept_alert(session: &Session) -> (r: Step)
    ensures
        r@ == call_step(session@, "/alert/accept"@, empty_object(), ThenView::AlertNull),
{
    call(session, "/alert/accept", object_0(), Then::AlertNull)
}

/// Asks for the text of the open dialog.
pub fn get_alert_text(session: &Session) -> (r: Step)
    ensures
        r@ == call_step(session@, "/alert/text"@, empty_object(), ThenView::AlertText),
{
    call(session, "/alert/text", object_0(), Then::AlertText)
}

/// Sends text to the open dialog.
pub fn send_alert_text(session: &Session, body: &Json) -> (r: Step)
    ensures
        r@ == call_step(
            session@,
            "/alert/send-text"@,
            object("text"@, JsonView::Str(body@.get_str_or("text"@, ""@))),
            ThenView::AlertNull,
        ),
{
    let text = body.get_str_or("text", "");
    call(session, "/alert/send-text", object_1("text", Json::Str(text)), Then::AlertNull)
}

} // verus!
