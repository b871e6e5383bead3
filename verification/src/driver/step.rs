//! The steps of a command: requests to the plugin, what to do with the answers, and replies.

use crate::driver::error::{
    no_element_error, unknown_error, value_body, w3c_value, W3cError, W3cErrorView,
};
use crate::driver::session::{
    element_object, resolve_element, write_element, ElementRef, ElementView, Session, SessionView,
};
use crate::json::with_member;
use crate::text::texts;
use crate::value::{values, Json, JsonView};
use vstd::prelude::*;

verus! {

/// What came of a request to the plugin: it could not be sent, its answer could not be read,
/// or an answer with a status and a body.
pub enum PluginOutcome {
    SendFailed(String),
    ParseFailed(String),
    Answer { status: u16, body: Json },
}

/// The mathematical value of a [`PluginOutcome`].
pub enum OutcomeView {
    SendFailed(Seq<char>),
    ParseFailed(Seq<char>),
    Answer { status: u16, body: JsonView },
}

impl View for PluginOutcome {
    type V = OutcomeView;

    open spec fn view(&self) -> OutcomeView {
        match self {
            PluginOutcome::SendFailed(e) => OutcomeView::SendFailed(e@),
            PluginOutcome::ParseFailed(e) => OutcomeView::ParseFailed(e@),
            PluginOutcome::Answer { status, body } => OutcomeView::Answer {
                status: *status,
                body: body@,
            },
        }
    }
}

/// The value that the plugin answers, or the error that is reported in its place.
pub open spec fn answered(o: OutcomeView) -> Result<JsonView, W3cErrorView> {
    match o {
        OutcomeView::SendFailed(e) => Err(unknown_error("plugin request failed: "@ + e)),
        OutcomeView::ParseFailed(e) => Err(unknown_error("plugin response parse failed: "@ + e)),
        OutcomeView::Answer { status, body } => if 200 <= status < 300 {
            Ok(body)
        } else {
            Err(unknown_error(body.get_str_or("error"@, "plugin error"@)))
        },
    }
}

/// Reads what came of a request to the plugin.
pub fn plugin_post(outcome: PluginOutcome) -> (r: Result<Json, W3cError>)
    ensures
        match r {
            Ok(v) => answered(outcome@) == Ok::<JsonView, W3cErrorView>(v@),
            Err(e) => answered(outcome@) == Err::<JsonView, W3cErrorView>(e@),
        },
{
    match outcome {
        PluginOutcome::SendFailed(e) => {
            let mut message = "plugin request failed: ".to_owned();
            message.append(e.as_str());
            Err(W3cError::unknown(message))
        },
        PluginOutcome::ParseFailed(e) => {
            let mut message = "plugin response parse failed: ".to_owned();
            message.append(e.as_str());
            Err(W3cError::unknown(message))
        },
        PluginOutcome::Answer { status, body } => if 200 <= status && status < 300 {
            Ok(body)
        } else {
            Err(W3cError::unknown(body.get_str_or("error", "plugin error")))
        },
    }
}

/// What to do with the plugin's answer.
pub enum Then {
    /// Reply with null.
    Null,
    /// Reply with the answer.
    Whole,
    /// Reply with a member of the answer, or the default.
    Member { key: String, default: Json },
    /// Reply with the value of a style property, or with an empty text.
    Style,
    /// Reply with the value of a script.
    Script,
    /// Reply with null, or report that there is no dialog.
    AlertNull,
    /// Reply with the text of a dialog, or report that there is none.
    AlertText,
    /// Close the window that the answer names.
    Close,
    /// Ask for the windows that are left.
    Handles,
    /// Ask for the place and size of the window.
    Rect,
    /// Reply with the handle and the type of a new window.
    NewWindow,
    /// Reply with the first element that was found, or report the message.
    First { message: String },
    /// Reply with every element that was found.
    All,
    /// Reply with a cookie, or report that there is none.
    Cookie { name: String },
    /// Reply with the shadow root of an element, or report that it has none.
    Shadow { eid: String, host: ElementRef },
    /// Reply with null, or report that there is no such window.
    Switch { handle: String },
    /// Reply with the element that has the focus, or report that none has.
    Active,
    /// Learn the tag of the element that text goes to.
    KeysTag { element: ElementRef, text: String },
    /// Learn the type of the input that text goes to.
    KeysType { element: ElementRef, text: String },
}

/// The mathematical value of a [`Then`].
pub enum ThenView {
    Null,
    Whole,
    Member { key: Seq<char>, default: JsonView },
    Style,
    Script,
    AlertNull,
    AlertText,
    Close,
    Handles,
    Rect,
    NewWindow,
    First { message: Seq<char> },
    All,
    Cookie { name: Seq<char> },
    Shadow { eid: Seq<char>, host: ElementView },
    Switch { handle: Seq<char> },
    Active,
    KeysTag { element: ElementView, text: Seq<char> },
    KeysType { element: ElementView, text: Seq<char> },
}

impl View for Then {
    type V = ThenView;

    open spec fn view(&self) -> ThenView {
        match self {
            Then::Null => ThenView::Null,
            Then::Whole => ThenView::Whole,
            Then::Member { key, default } => ThenView::Member { key: key@, default: default@ },
            Then::Style => ThenView::Style,
            Then::Script => ThenView::Script,
            Then::AlertNull => ThenView::AlertNull,
            Then::AlertText => ThenView::AlertText,
            Then::Close => ThenView::Close,
            Then::Handles => ThenView::Handles,
            Then::Rect => ThenView::Rect,
            Then::NewWindow => ThenView::NewWindow,
            Then::First { message } => ThenView::First { message: message@ },
            Then::All => ThenView::All,
            Then::Cookie { name } => ThenView::Cookie { name: name@ },
            Then::Shadow { eid, host } => ThenView::Shadow { eid: eid@, host: host@ },
            Then::Switch { handle } => ThenView::Switch { handle: handle@ },
            Then::Active => ThenView::Active,
            Then::KeysTag { element, text } => ThenView::KeysTag { element: element@, text: text@ },
            Then::KeysType { element, text } => ThenView::KeysType {
                element: element@,
                text: text@,
            },
        }
    }
}

/// An upload on its way: the file input, the paths that are still to be read, and the files
/// that were read.
pub struct Upload {
    pub element: ElementRef,
    pub pending: Vec<String>,
    pub files: Vec<Json>,
}

/// The mathematical value of an [`Upload`].
#[verifier::ext_equal]
pub struct UploadView {
    pub element: ElementView,
    pub pending: Seq<Seq<char>>,
    pub files: Seq<JsonView>,
}

impl View for Upload {
    type V = UploadView;

    open spec fn view(&self) -> UploadView {
        UploadView {
            element: self.element@,
            pending: texts(self.pending@),
            files: values(self.files@),
        }
    }
}

/// The next step of a command: post a body to the plugin, read a file, or reply.
pub enum Step {
    Call { url: String, body: Json, then: Then },
    Read { path: String, upload: Upload },
    Done(Result<Json, W3cError>),
}

/// The mathematical value of a [`Step`].
#[verifier::ext_equal]
pub enum StepView {
    Call { url: Seq<char>, body: JsonView, then: ThenView },
    Read { path: Seq<char>, upload: UploadView },
    Done(Result<JsonView, W3cErrorView>),
}

impl View for Step {
    type V = StepView;

    open spec fn view(&self) -> StepView {
        match self {
            Step::Call { url, body, then } => StepView::Call {
                url: url@,
                body: body@,
                then: then@,
            },
            Step::Read { path, upload } => StepView::Read { path: path@, upload: upload@ },
            Step::Done(Ok(v)) => StepView::Done(Ok(v@)),
            Step::Done(Err(e)) => StepView::Done(Err(e@)),
        }
    }
}

/// The step that posts to an endpoint of the session's plugin.
pub open spec fn call_step(
    s: SessionView,
    path: Seq<char>,
    body: JsonView,
    then: ThenView,
) -> StepView {
    StepView::Call { url: s.plugin_url + path, body, then }
}

/// The step that replies with a value.
pub open spec fn reply_step(v: JsonView) -> StepView {
    StepView::Done(Ok(value_body(v)))
}

/// The step that reports an error.
pub open spec fn error_step(e: W3cErrorView) -> StepView {
    StepView::Done(Err(e))
}

/// The step that posts an element to an endpoint of the plugin, where the element is known.
pub open spec fn element_step(
    s: SessionView,
    eid: Seq<char>,
    path: Seq<char>,
    then: ThenView,
) -> StepView {
    if s.elements.contains_key(eid) {
        call_step(s, path, element_object(s.elements[eid]), then)
    } else {
        error_step(no_element_error(eid))
    }
}

/// The step that posts an element and one more member, where the element is known.
pub open spec fn element_step_with(
    s: SessionView,
    eid: Seq<char>,
    path: Seq<char>,
    key: Seq<char>,
    value: JsonView,
    then: ThenView,
) -> StepView {
    if s.elements.contains_key(eid) {
        call_step(s, path, element_object(s.elements[eid]).with(key, value), then)
    } else {
        error_step(no_element_error(eid))
    }
}

/// Posts to an endpoint of the session's plugin.
pub fn call(session: &Session, path: &str, body: Json, then: Then) -> (r: Step)
    ensures
        r@ == call_step(session@, path@, body@, then@),
{
    let mut url = session.plugin_url.clone();
    url.append(path);
    Step::Call { url, body, then }
}

/// Replies with a value.
pub fn reply(v: Json) -> (r: Step)
    ensures
        r@ == reply_step(v@),
{
    Step::Done(Ok(w3c_value(v)))
}

/// Reports an error.
pub fn fail(e: W3cError) -> (r: Step)
    ensures
        r@ == error_step(e@),
{
    Step::Done(Err(e))
}

/// Posts an element to an endpoint of the plugin.
pub fn call_on_element(session: &Session, eid: &str, path: &str, then: Then) -> (r: Step)
    requires
        session.wf(),
    ensures
        r@ == element_step(session@, eid@, path@, then@),
{
    match resolve_element(session, eid) {
        Ok(e) => call(session, path, write_element(e), then),
        Err(e) => fail(e),
    }
}

/// Posts an element and one more member to an endpoint of the plugin.
pub fn call_on_element_with(
    session: &Session,
    eid: &str,
    path: &str,
    key: &str,
    value: Json,
    then: Then,
) -> (r: Step)
    requires
        session.wf(),
    ensures
        r@ == element_step_with(session@, eid@, path@, key@, value@, then@),
{
    match resolve_element(session, eid) {
        Ok(e) => call(session, path, with_member(write_element(e), key, value), then),
        Err(e) => fail(e),
    }
}

} // verus!
