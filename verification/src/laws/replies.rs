//! What a client is told of the plugin's answers.

use crate::driver::answer::{
    found, next_session, next_session_on_value, next_step, references, step_on_error,
    step_on_value,
};
use crate::driver::error::{error_body, value_body, W3cErrorView};
use crate::driver::request::{first_step, Kind, RequestView};
use crate::driver::script::W3C_SHADOW_KEY;
use crate::driver::session::{described_element, SessionView};
use crate::driver::step::{answered, OutcomeView, StepView, ThenView};
use crate::laws::commands::is_on_element;
use crate::laws::members::{lemma_one_member, lemma_with_member};
use crate::laws::posting::{posts_nothing, posts_only, posts_to};
use crate::laws::relay::reply_key;
use crate::text::contains_text;
use crate::value::{object, JsonView};
use vstd::prelude::*;

verus! {

/// Whether a step replies with a value: the one member of the reply's body.
pub open spec fn replies(step: StepView, v: JsonView) -> bool {
    step matches StepView::Done(Ok(body)) && {
        &&& body matches JsonView::Object(m) && m.len() == 1
        &&& body.get("value"@) == Some(v)
    }
}

/// Whether a step reports an error.
pub open spec fn reports(
    step: StepView,
    status: u16,
    error: Seq<char>,
    message: Seq<char>,
) -> bool {
    step matches StepView::Done(Err(e)) && {
        &&& e.status == status
        &&& e.error == error
        &&& e.message == message
    }
}

/// Whether the plugin answered with a value.
pub open spec fn gives(o: OutcomeView, v: JsonView) -> bool {
    o matches OutcomeView::Answer { status, body } && 200 <= status < 300 && body == v
}

/// What the plugin answers with a status of success is its value, as it is. With any other status
/// it is an error whose message is the one that the plugin gives, where it gives one. A plugin
/// that cannot be reached or understood is an error that says why.
pub proof fn law_answers_are_told_apart(status: u16, body: JsonView, why: Seq<char>)
    ensures
        200 <= status < 300 ==> answered(OutcomeView::Answer { status, body }) == Ok::<
            JsonView,
            W3cErrorView,
        >(body),
        !(200 <= status < 300) ==> (answered(OutcomeView::Answer { status, body }) matches Err(e)
            && {
            &&& e.status == 500
            &&& e.error == "unknown error"@
            &&& body.get("error"@) matches Some(JsonView::Str(m)) ==> e.message == m
            &&& (body.get("error"@) matches Some(m) ==> m !is Str) ==> e.message
                == "plugin error"@
        }),
        answered(OutcomeView::SendFailed(why)) matches Err(e) && e.status == 500 && e.error
            == "unknown error"@ && e.message == "plugin request failed: "@ + why,
        answered(OutcomeView::ParseFailed(why)) matches Err(e) && e.status == 500 && e.error
            == "unknown error"@ && e.message == "plugin response parse failed: "@ + why,
{
}

/// A value that the plugin answers decides the next step and what becomes of the session, and an
/// error decides the next step alone; how the value came does not matter.
pub proof fn law_answer_decides_the_next_step(
    s: SessionView,
    then: ThenView,
    o: OutcomeView,
    v: JsonView,
    e: W3cErrorView,
    fresh: Seq<Seq<char>>,
)
    ensures
        gives(o, v) ==> next_step(s, then, o, fresh) == step_on_value(s, then, v, fresh)
            && next_session(s, then, o, fresh) == next_session_on_value(s, then, v, fresh),
        answered(o) == Err::<JsonView, W3cErrorView>(e) ==> next_step(s, then, o, fresh)
            == step_on_error(then, e) && next_session(s, then, o, fresh) == s,
{
}

/// Whether an answer makes a session know something new.
pub open spec fn teaches(then: ThenView) -> bool {
    then is First || then is All || then is Active || then is Shadow
}

/// A session learns from answers to searches, to the question for the focus and to that for a
/// shadow root; every other answer leaves it as it was. No answer changes its plugin or its
/// timeouts.
pub proof fn law_sessions_learn_only_from_searches(
    s: SessionView,
    then: ThenView,
    o: OutcomeView,
    fresh: Seq<Seq<char>>,
)
    ensures
        !teaches(then) ==> next_session(s, then, o, fresh) == s,
        next_session(s, then, o, fresh).plugin_url == s.plugin_url,
        next_session(s, then, o, fresh).timeouts == s.timeouts,
        then !is Shadow ==> next_session(s, then, o, fresh).shadows == s.shadows,
        then is Shadow ==> next_session(s, then, o, fresh).elements == s.elements,
{
}

/// Whether a command does something and is answered with null.
pub open spec fn is_deed(kind: Kind) -> bool {
    match kind {
        Kind::NavigateTo
        | Kind::GoBack
        | Kind::GoForward
        | Kind::Refresh
        | Kind::SwitchToWindow
        | Kind::SwitchToFrame
        | Kind::SwitchToParentFrame
        | Kind::ClickElement
        | Kind::ClearElement
        | Kind::AddCookie
        | Kind::DeleteCookie
        | Kind::DeleteAllCookies
        | Kind::PerformActions
        | Kind::ReleaseActions
        | Kind::DismissAlert
        | Kind::AcceptAlert
        | Kind::SendAlertText => true,
        _ => false,
    }
}

/// A command that does something is answered with null once it is done, whatever the plugin says
/// beside that.
pub proof fn law_deeds_are_answered_with_null(
    s: SessionView,
    r: RequestView,
    o: OutcomeView,
    v: JsonView,
    fresh: Seq<Seq<char>>,
)
    requires
        is_deed(r.kind),
        gives(o, v),
    ensures
        first_step(s, r) matches StepView::Call { then, .. } ==> replies(
            next_step(s, then, o, fresh),
            JsonView::Null,
        ),
{
    lemma_one_member("value"@, JsonView::Null, "value"@);
}

/// A command that asks for a window's handle or for all of them, or for the place of a window or
/// an element, is answered with what the plugin says.
pub proof fn law_answers_are_passed_on(
    s: SessionView,
    r: RequestView,
    o: OutcomeView,
    v: JsonView,
    fresh: Seq<Seq<char>>,
)
    requires
        r.kind == Kind::GetWindowHandle || r.kind == Kind::GetWindowHandles || r.kind
            == Kind::GetWindowRect || (r.kind == Kind::GetElementRect && s.elements.contains_key(
            r.target,
        )),
        gives(o, v),
    ensures
        first_step(s, r) matches StepView::Call { then, .. } && replies(
            next_step(s, then, o, fresh),
            v,
        ),
{
    lemma_one_member("value"@, v, "value"@);
}

/// What a command that asks for a value is answered with where the plugin says nothing of it.
pub open spec fn value_left_out(kind: Kind) -> JsonView {
    match kind {
        Kind::GetElementAttribute
        | Kind::GetElementProperty
        | Kind::ExecuteSync
        | Kind::ExecuteAsync => JsonView::Null,
        Kind::IsElementEnabled | Kind::IsElementDisplayed => JsonView::Bool(true),
        Kind::IsElementSelected => JsonView::Bool(false),
        Kind::GetComputedRole => JsonView::Str("generic"@),
        Kind::GetAllCookies => JsonView::Array(seq![]),
        _ => JsonView::Str(""@),
    }
}

/// A command that asks for a value is answered with the member of the plugin's answer that holds
/// it, whatever else the answer holds; where it holds none, with what the command has for that.
pub proof fn law_member_is_passed_on(
    s: SessionView,
    r: RequestView,
    o: OutcomeView,
    v: JsonView,
    fresh: Seq<Seq<char>>,
)
    requires
        reply_key(r.kind) is Some,
        is_on_element(r.kind) ==> s.elements.contains_key(r.target),
        gives(o, v),
    ensures
        first_step(s, r) matches StepView::Call { then, .. } && replies(
            next_step(s, then, o, fresh),
            match v.get(reply_key(r.kind)->0) {
                Some(m) => m,
                None => value_left_out(r.kind),
            },
        ),
{
    let m = match v.get(reply_key(r.kind)->0) {
        Some(m) => m,
        None => value_left_out(r.kind),
    };
    lemma_one_member("value"@, m, "value"@);
}

/// Closing a window closes the one that the plugin says is the current one, then asks which are
/// left, and is answered with those.
pub proof fn law_current_window_is_closed(
    s: SessionView,
    r: RequestView,
    o: OutcomeView,
    v: JsonView,
    fresh: Seq<Seq<char>>,
)
    requires
        r.kind == Kind::CloseWindow,
        gives(o, v),
    ensures
        ({
            let closing = next_step(s, ThenView::Close, o, fresh);
            let asking = next_step(s, ThenView::Handles, o, fresh);
            &&& first_step(s, r) matches StepView::Call { then, .. } && then == ThenView::Close
            &&& posts_to(closing, s, "/window/close"@)
            &&& posts_only(
                closing,
                "label"@,
                if v is Str {
                    v
                } else {
                    JsonView::Str("main"@)
                },
            )
            &&& closing matches StepView::Call { then, .. } && then == ThenView::Handles
            &&& posts_to(asking, s, "/window/handles"@)
            &&& posts_nothing(asking)
            &&& asking matches StepView::Call { then, .. } && replies(
                next_step(s, then, o, fresh),
                v,
            )
        }),
{
    lemma_one_member("value"@, v, "value"@);
    lemma_one_member("label"@, v, "label"@);
    lemma_one_member("label"@, JsonView::Str("main"@), "label"@);
}

/// A command that changes the place or size of a window then asks for both, and is answered with
/// what the plugin says.
pub proof fn law_new_place_is_reported(
    s: SessionView,
    r: RequestView,
    o: OutcomeView,
    v: JsonView,
    fresh: Seq<Seq<char>>,
)
    requires
        r.kind == Kind::SetWindowRect || r.kind == Kind::MaximizeWindow || r.kind
            == Kind::MinimizeWindow || r.kind == Kind::FullscreenWindow,
        gives(o, v),
    ensures
        first_step(s, r) matches StepView::Call { then, .. } && {
            let asking = next_step(s, then, o, fresh);
            &&& posts_to(asking, s, "/window/rect"@)
            &&& posts_nothing(asking)
            &&& asking matches StepView::Call { then: last, .. } && replies(
                next_step(s, last, o, fresh),
                v,
            )
        },
{
    lemma_one_member("value"@, v, "value"@);
}

/// A new window is reported with the handle and the type that the plugin gives it.
pub proof fn law_new_window_is_reported(
    s: SessionView,
    r: RequestView,
    o: OutcomeView,
    v: JsonView,
    fresh: Seq<Seq<char>>,
)
    requires
        r.kind == Kind::NewWindow,
        gives(o, v),
    ensures
        first_step(s, r) matches StepView::Call { then, .. } && next_step(
            s,
            then,
            o,
            fresh,
        ) matches StepView::Done(Ok(body)) && body.get("value"@) matches Some(report) && {
            &&& report.get("handle"@) == Some(
                match v.get("handle"@) {
                    Some(h) => h,
                    None => JsonView::Str(""@),
                },
            )
            &&& report.get("type"@) == Some(
                match v.get("type"@) {
                    Some(t) => t,
                    None => JsonView::Str("window"@),
                },
            )
        },
{
    let handle = v.get_or("handle"@, JsonView::Str(""@));
    let kind = v.get_or("type"@, JsonView::Str("window"@));
    let one = object("handle"@, handle);
    reveal_strlit("handle");
    reveal_strlit("type");
    assert("handle"@.len() == 6 && "type"@.len() == 4);
    lemma_one_member("handle"@, handle, "handle"@);
    lemma_one_member("handle"@, handle, "type"@);
    lemma_with_member(one, "type"@, kind, "handle"@);
    lemma_with_member(one, "type"@, kind, "type"@);
    lemma_one_member("value"@, one.with("type"@, kind), "value"@);
}

/// A cookie is reported as the plugin gives it; where there is none that is reported, with its
/// name.
pub proof fn law_cookie_is_reported(
    s: SessionView,
    r: RequestView,
    o: OutcomeView,
    v: JsonView,
    fresh: Seq<Seq<char>>,
)
    requires
        r.kind == Kind::GetNamedCookie,
        gives(o, v),
    ensures
        first_step(s, r) matches StepView::Call { then, .. } && match v.get("cookie"@) {
            None | Some(JsonView::Null) => reports(
                next_step(s, then, o, fresh),
                404,
                "no such cookie"@,
                "Cookie '"@ + r.name + "' not found"@,
            ),
            Some(c) => replies(next_step(s, then, o, fresh), c),
        },
{
    if let Some(c) = v.get("cookie"@) {
        lemma_one_member("value"@, c, "value"@);
    }
}

/// Whether a step replies with a reference: one member whose value is a name.
pub open spec fn replies_reference(step: StepView, key: Seq<char>, name: Seq<char>) -> bool {
    step matches StepView::Done(Ok(body)) && body.get("value"@) matches Some(JsonView::Object(m))
        && m.len() == 1 && JsonView::Object(m).get(key) == Some(JsonView::Str(name))
}

/// The shadow root of an element is answered with a name by which the session knows the element
/// as its host from then on, and keeps all others; an element without one is reported as such and
/// the session stays as it was.
pub proof fn law_shadow_root_is_named(
    s: SessionView,
    r: RequestView,
    o: OutcomeView,
    v: JsonView,
    fresh: Seq<Seq<char>>,
)
    requires
        r.kind == Kind::GetShadowRoot,
        s.elements.contains_key(r.target),
        gives(o, v),
    ensures
        first_step(s, r) matches StepView::Call { then, .. } && {
            let step = next_step(s, then, o, fresh);
            let after = next_session(s, then, o, fresh);
            let host = s.elements[r.target];
            &&& v.get("hasShadow"@) == Some(JsonView::Bool(true)) ==> {
                &&& replies_reference(step, W3C_SHADOW_KEY@, fresh[0])
                &&& after.shadows.contains_key(fresh[0])
                &&& after.shadows[fresh[0]].host_selector == host.selector
                &&& after.shadows[fresh[0]].host_index == host.index
                &&& after.shadows[fresh[0]].host_using == host.using
                &&& after.shadows.remove(fresh[0]) == s.shadows.remove(fresh[0])
                &&& after.elements == s.elements
                &&& after.plugin_url == s.plugin_url
                &&& after.timeouts == s.timeouts
            }
            &&& v.get("hasShadow"@) != Some(JsonView::Bool(true)) ==> {
                &&& reports(
                    step,
                    404,
                    "no such shadow root"@,
                    "Element "@ + r.target + " does not have a shadow root"@,
                )
                &&& after == s
            }
        },
{
    let reference = object(W3C_SHADOW_KEY@, JsonView::Str(fresh[0]));
    lemma_one_member("value"@, reference, "value"@);
    lemma_one_member(W3C_SHADOW_KEY@, JsonView::Str(fresh[0]), W3C_SHADOW_KEY@);
    if let StepView::Call { then, .. } = first_step(s, r) {
        let after = next_session(s, then, o, fresh);
        assert(after.shadows.remove(fresh[0]) =~= s.shadows.remove(fresh[0]));
    }
}

/// What an answer says of an element is what the session keeps of it: its selector, its place
/// among those that the selector matches, and how the selector is read; css where the answer does
/// not say.
pub proof fn law_described_element_is_kept(v: JsonView, selector: Seq<char>, index: u64)
    ensures
        v.get("selector"@) == Some(JsonView::Str(selector)) ==> described_element(v).selector
            == selector,
        v.get("index"@) == Some(JsonView::Unsigned(index)) && index <= usize::MAX
            ==> described_element(v).index == index,
        v.get("using"@) matches Some(JsonView::Str(using)) ==> described_element(v).using == using,
        v.get("using"@) is None ==> described_element(v).using == "css"@,
        v.get("index"@) is None ==> described_element(v).index == 0,
{
}

/// What a search found is the list of elements in the answer, all of it and in its order; an
/// answer without a list found nothing.
pub proof fn law_found_elements_are_listed(v: JsonView, items: Seq<JsonView>)
    ensures
        v.get("elements"@) == Some(JsonView::Array(items)) ==> found(v) == items,
        (v.get("elements"@) matches Some(m) ==> m !is Array) ==> found(v).len() == 0,
{
}

/// A search that finds nothing is answered with an empty list where all were asked for; where one
/// was asked for it is reported that there is none, with what was searched for. The session stays
/// as it was.
pub proof fn law_fruitless_search_is_reported(
    s: SessionView,
    o: OutcomeView,
    v: JsonView,
    message: Seq<char>,
    fresh: Seq<Seq<char>>,
)
    requires
        gives(o, v),
        v.get("elements"@) == Some(JsonView::Array(seq![])) || v.get("elements"@) is None,
    ensures
        replies(next_step(s, ThenView::All, o, fresh), JsonView::Array(seq![])),
        next_session(s, ThenView::All, o, fresh) == s,
        reports(
            next_step(s, ThenView::First { message }, o, fresh),
            404,
            "no such element"@,
            message,
        ),
        next_session(s, ThenView::First { message }, o, fresh) == s,
{
    let none = JsonView::Array(
        references(s.elements, found(v), fresh),
    );
    assert(none->Array_0 =~= seq![]);
    lemma_one_member("value"@, none, "value"@);
}

/// Where no element has the focus that is reported.
pub proof fn law_missing_focus_is_reported(
    s: SessionView,
    o: OutcomeView,
    v: JsonView,
    fresh: Seq<Seq<char>>,
)
    requires
        gives(o, v),
        v.get("element"@) == Some(JsonView::Null) || v.get("element"@) is None,
    ensures
        reports(
            next_step(s, ThenView::Active, o, fresh),
            404,
            "no such element"@,
            "No element is focused"@,
        ),
        next_session(s, ThenView::Active, o, fresh) == s,
{
}

/// An answer that is an error ends the command and leaves the session as it was. Its message
/// reaches the client: as an error of the script for one that was executed, as a missing dialog
/// where the message says so, as a missing window where one was switched to, and otherwise as it
/// is. For a style it means that there is none.
pub proof fn law_errors_are_passed_on(
    s: SessionView,
    then: ThenView,
    o: OutcomeView,
    e: W3cErrorView,
    fresh: Seq<Seq<char>>,
)
    requires
        answered(o) == Err::<JsonView, W3cErrorView>(e),
    ensures
        ({
            let step = next_step(s, then, o, fresh);
            &&& next_session(s, then, o, fresh) == s
            &&& match then {
                ThenView::Style => replies(step, JsonView::Str(""@)),
                ThenView::Script => reports(step, 500, "javascript error"@, e.message),
                ThenView::AlertNull | ThenView::AlertText => if contains_text(
                    e.message,
                    "no such alert"@,
                ) {
                    reports(step, 404, "no such alert"@, e.message)
                } else {
                    reports(step, e.status, e.error, e.message)
                },
                ThenView::Switch { handle } => reports(
                    step,
                    404,
                    "no such window"@,
                    "Window '"@ + handle + "' not found"@,
                ),
                _ => reports(step, e.status, e.error, e.message),
            }
        }),
{
    lemma_one_member("value"@, JsonView::Str(""@), "value"@);
}

/// The reply that reports an error has its code and its message under the names that clients look
/// for, and a value is under that name too.
pub proof fn law_replies_have_their_form(e: W3cErrorView, v: JsonView)
    ensures
        value_body(v).get("value"@) == Some(v),
        error_body(e).get("value"@) matches Some(report) && {
            &&& report.get("error"@) == Some(JsonView::Str(e.error))
            &&& report.get("message"@) == Some(JsonView::Str(e.message))
            &&& report.get("stacktrace"@) == Some(JsonView::Str(""@))
        },
{
    let error = JsonView::Str(e.error);
    let message = JsonView::Str(e.message);
    let trace = JsonView::Str(""@);
    let one = object("error"@, error);
    let two = one.with("message"@, message);
    reveal_strlit("error");
    reveal_strlit("message");
    reveal_strlit("stacktrace");
    assert("error"@.len() == 5 && "message"@.len() == 7 && "stacktrace"@.len() == 10);
    lemma_one_member("value"@, v, "value"@);
    lemma_one_member("value"@, two.with("stacktrace"@, trace), "value"@);
    lemma_one_member("error"@, error, "error"@);
    lemma_one_member("error"@, error, "message"@);
    lemma_one_member("error"@, error, "stacktrace"@);
    lemma_with_member(one, "message"@, message, "error"@);
    lemma_with_member(one, "message"@, message, "message"@);
    lemma_with_member(one, "message"@, message, "stacktrace"@);
    lemma_with_member(two, "stacktrace"@, trace, "error"@);
    lemma_with_member(two, "stacktrace"@, trace, "message"@);
    lemma_with_member(two, "stacktrace"@, trace, "stacktrace"@);
}

} // verus!
