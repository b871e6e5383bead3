//! What the driver and the plugin tell each other.

use crate::driver::answer::{element_reference, next_step};
use crate::driver::commands::window::switch_to_frame_step;
use crate::driver::error::{script_error, unknown_error, W3cErrorView};
use crate::driver::request::{first_step, Kind, RequestView};
use crate::driver::script::{
    element_origin, marker, referred, resolved, resolved_action, W3C_ELEMENT_KEY,
};
use crate::driver::session::{element_object, ElementView, SessionView};
use crate::driver::step::{
    answered, call_step, error_step, reply_step, OutcomeView, StepView, ThenView,
};
use crate::laws::commands::is_on_element;
use crate::laws::members::{
    lemma_element_members, lemma_lookup_replaced, lemma_one_member, lemma_with_member,
};
use crate::plugin::actions::{move_origin, OriginView};
use crate::plugin::error::{api_error_body, ApiErrorView};
use crate::plugin::eval::{
    evaluated, is_thrown, EvaluationView, JobView, ReplyWithView, ScriptOutcomeView,
};
use crate::plugin::state::{frames_after_switch, FrameView};
use crate::text::contains_text;
use crate::value::{object, JsonView};
use vstd::prelude::*;

verus! {

/// An error of the plugin reaches the client with the plugin's message, as an unknown error.
pub proof fn law_plugin_error_is_reported(e: ApiErrorView)
    ensures
        answered(OutcomeView::Answer { status: e.status(), body: api_error_body(e) }) == Err::<
            JsonView,
            W3cErrorView,
        >(unknown_error(e.message())),
{
    lemma_one_member("error"@, JsonView::Str(e.message()), "error"@);
}

/// A script that throws is answered as an error of the script with the message that it threw.
pub proof fn law_thrown_error_is_a_script_error(
    s: SessionView,
    job: JobView,
    how: ReplyWithView,
    thrown: JsonView,
    message: Seq<char>,
    fresh: Seq<Seq<char>>,
)
    requires
        thrown.get("error"@) is Some,
        thrown.get("message"@) == Some(JsonView::Str(message)),
    ensures
        evaluated(EvaluationView { job, how }, ScriptOutcomeView::Value(thrown)) == Err::<
            JsonView,
            ApiErrorView,
        >(ApiErrorView::Internal(message)),
        next_step(
            s,
            ThenView::Script,
            OutcomeView::Answer {
                status: 500,
                body: api_error_body(ApiErrorView::Internal(message)),
            },
            fresh,
        ) == error_step(script_error(message)),
{
    law_plugin_error_is_reported(ApiErrorView::Internal(message));
}

/// A command on a dialog that is not open is answered that there is none.
pub proof fn law_missing_dialog_is_reported(
    s: SessionView,
    then: ThenView,
    message: Seq<char>,
    fresh: Seq<Seq<char>>,
)
    requires
        then is AlertNull || then is AlertText,
        contains_text(message, "no such alert"@),
    ensures
        next_step(
            s,
            then,
            OutcomeView::Answer {
                status: 500,
                body: api_error_body(ApiErrorView::Internal(message)),
            },
            fresh,
        ) == error_step(
            (W3cErrorView { status: 404, error: "no such alert"@, message }),
        ),
{
    law_plugin_error_is_reported(ApiErrorView::Internal(message));
}

/// The member under which the plugin replies with the value that a command asks for.
pub open spec fn reply_key(kind: Kind) -> Option<Seq<char>> {
    match kind {
        Kind::GetUrl => Some("url"@),
        Kind::GetTitle => Some("title"@),
        Kind::GetPageSource => Some("source"@),
        Kind::TakeScreenshot => Some("data"@),
        Kind::ElementScreenshot => Some("data"@),
        Kind::PrintPage => Some("data"@),
        Kind::GetElementText => Some("text"@),
        Kind::GetElementTag => Some("tag"@),
        Kind::GetElementAttribute => Some("value"@),
        Kind::GetElementProperty => Some("value"@),
        Kind::GetElementCss => Some("value"@),
        Kind::IsElementEnabled => Some("enabled"@),
        Kind::IsElementSelected => Some("selected"@),
        Kind::IsElementDisplayed => Some("displayed"@),
        Kind::GetComputedRole => Some("role"@),
        Kind::GetComputedLabel => Some("label"@),
        Kind::ExecuteSync => Some("value"@),
        Kind::ExecuteAsync => Some("value"@),
        Kind::GetAllCookies => Some("cookies"@),
        Kind::GetAlertText => Some("text"@),
        _ => None,
    }
}

/// A command that asks for a value is answered with the value that the script in the webview
/// returned, whatever the value is.
pub proof fn law_asked_value_comes_back(
    s: SessionView,
    r: RequestView,
    job: JobView,
    v: JsonView,
    fresh: Seq<Seq<char>>,
)
    requires
        reply_key(r.kind) is Some,
        is_on_element(r.kind) ==> s.elements.contains_key(r.target),
        !is_thrown(v),
    ensures
        ({
            let key = reply_key(r.kind)->0;
            let e = EvaluationView { job, how: ReplyWithView::Member(key) };
            &&& evaluated(e, ScriptOutcomeView::Value(v)) == Ok::<JsonView, ApiErrorView>(
                object(key, v),
            )
            &&& first_step(s, r) matches StepView::Call { then, .. } && next_step(
                s,
                then,
                OutcomeView::Answer { status: 200, body: object(key, v) },
                fresh,
            ) == reply_step(v)
        }),
{
    lemma_one_member(reply_key(r.kind)->0, v, reply_key(r.kind)->0);
}

/// The number of a frame, or an element, that a client switches to is the frame that the plugin
/// enters; null takes the plugin back to the top level.
pub proof fn law_switched_frame_is_entered(
    s: SessionView,
    body: JsonView,
    frames: Seq<FrameView>,
    n: u64,
    eid: Seq<char>,
)
    ensures
        body.get("id"@) == Some(JsonView::Null) ==> switch_to_frame_step(s, body) == call_step(
            s,
            "/frame/switch"@,
            object("id"@, JsonView::Null),
            ThenView::Null,
        ) && frames_after_switch(frames, JsonView::Null) == Ok::<Seq<FrameView>, ApiErrorView>(
            seq![],
        ),
        body.get("id"@) == Some(JsonView::Unsigned(n)) ==> switch_to_frame_step(s, body)
            == call_step(
            s,
            "/frame/switch"@,
            object("id"@, JsonView::Unsigned(n)),
            ThenView::Null,
        ) && frames_after_switch(frames, JsonView::Unsigned(n)) == Ok::<
            Seq<FrameView>,
            ApiErrorView,
        >(frames.push(FrameView { selector: "iframe"@, index: n as usize })),
        body.get("id"@) == Some(element_reference(eid)) && s.elements.contains_key(eid) ==> {
            let e = s.elements[eid];
            let id = object("selector"@, JsonView::Str(e.selector)).with(
                "index"@,
                JsonView::Unsigned(e.index as u64),
            );
            &&& switch_to_frame_step(s, body) == call_step(
                s,
                "/frame/switch"@,
                object("id"@, id),
                ThenView::Null,
            )
            &&& frames_after_switch(frames, id) == Ok::<Seq<FrameView>, ApiErrorView>(
                frames.push(FrameView { selector: e.selector, index: e.index }),
            )
        },
{
    if body.get("id"@) == Some(element_reference(eid)) && s.elements.contains_key(eid) {
        let e = s.elements[eid];
        let one = object("selector"@, JsonView::Str(e.selector));
        let index = JsonView::Unsigned(e.index as u64);
        lemma_one_member(W3C_ELEMENT_KEY@, JsonView::Str(eid), W3C_ELEMENT_KEY@);
        reveal_strlit("selector");
        reveal_strlit("index");
        assert("selector"@.len() != "index"@.len());
        lemma_one_member("selector"@, JsonView::Str(e.selector), "selector"@);
        lemma_one_member("selector"@, JsonView::Str(e.selector), "index"@);
        lemma_with_member(one, "index"@, index, "selector"@);
        lemma_with_member(one, "index"@, index, "index"@);
    }
}

/// Leaving a frame right after it was entered leads back to where the plugin was.
pub proof fn law_leaving_undoes_entering(frames: Seq<FrameView>, id: JsonView)
    requires
        id !is Null,
        frames_after_switch(frames, id) is Ok,
    ensures
        frames_after_switch(frames, id)->Ok_0.len() > 0,
        frames_after_switch(frames, id)->Ok_0.drop_last() == frames,
{
    let after = frames_after_switch(frames, id)->Ok_0;
    assert(after.drop_last() =~= frames);
}

/// A reference to a known element in the arguments of a script reaches the plugin as the marker
/// of that element, wherever in the arguments it stands.
pub proof fn law_reference_becomes_marker(
    items: Seq<JsonView>,
    i: int,
    elements: Map<Seq<char>, ElementView>,
    eid: Seq<char>,
)
    requires
        0 <= i < items.len(),
        referred(items[i], elements) == Some(eid),
    ensures
        resolved(items[i], elements) == marker(elements[eid]),
        resolved(JsonView::Array(items), elements)->Array_0[i] == marker(elements[eid]),
{
}

/// A pointer that moves to an element that the session knows moves to the centre of that
/// element: the driver makes the reference plain, and the plugin reads the same element.
pub proof fn law_element_origin_reaches_the_plugin(
    action: JsonView,
    elements: Map<Seq<char>, ElementView>,
    origin: JsonView,
    eid: Seq<char>,
)
    requires
        action.get("origin"@) == Some(origin),
        referred(origin, elements) == Some(eid),
    ensures
        move_origin(resolved_action(action, elements)) == (OriginView::Element {
            selector: elements[eid].selector,
            index: elements[eid].index as u64,
        }),
{
    let e = elements[eid];
    let plain = element_origin(e);
    lemma_lookup_replaced(action->Object_0, "origin"@, plain);
    lemma_element_members(e);
    assert(plain->Object_0[0].1 == element_object(e));
}

} // verus!
