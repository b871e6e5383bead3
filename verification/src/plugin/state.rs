//! The plugin's state: the current window and the frames that were entered.

use crate::driver::state::{announce_port, port_line};
use crate::outside::{json_quoted, quote_json};
use crate::plugin::error::{api_result, ApiError, ApiErrorView};
use crate::plugin::requests::{CloseReq, SwitchWindowReq};
use crate::text::{decimal, decimal_text, text_eq};
use crate::value::{Json, JsonView};
use vstd::prelude::*;

verus! {

/// A frame that was entered: how it is found in the document around it.
pub struct FrameRef {
    pub selector: String,
    pub index: usize,
}

/// The mathematical value of a [`FrameRef`].
#[verifier::ext_equal]
pub struct FrameView {
    pub selector: Seq<char>,
    pub index: usize,
}

impl View for FrameRef {
    type V = FrameView;

    open spec fn view(&self) -> FrameView {
        FrameView { selector: self.selector@, index: self.index }
    }
}

/// The state of the plugin: the label of the window that was switched to, and the frames that
/// were entered, the outermost first.
pub struct ServerState {
    pub current_window_label: Option<String>,
    pub frame_stack: Vec<FrameRef>,
}

/// The mathematical value of a [`ServerState`].
#[verifier::ext_equal]
pub struct ServerView {
    pub label: Option<Seq<char>>,
    pub frames: Seq<FrameView>,
}

/// The values of a list of frames.
pub open spec fn frames_view(v: Seq<FrameRef>) -> Seq<FrameView> {
    v.map_values(|f: FrameRef| f@)
}

impl View for ServerState {
    type V = ServerView;

    open spec fn view(&self) -> ServerView {
        ServerView {
            label: match self.current_window_label {
                Some(l) => Some(l@),
                None => None,
            },
            frames: frames_view(self.frame_stack@),
        }
    }
}

pub const FRAME_OPEN: &'static str = "var __f=__doc.querySelectorAll(";

pub const FRAME_CLOSE: &'static str =
    "];if(!__f)throw new Error('frame not found');__doc=__f.contentDocument;if(!__doc)\
     throw new Error('cannot access frame document');";

/// The script that enters one frame.
pub open spec fn enter_frame(f: FrameView) -> Seq<char> {
    FRAME_OPEN@ + json_quoted(f.selector) + ")["@ + decimal_text(f.index as nat) + FRAME_CLOSE@
}

/// The script that enters frames one after the other.
pub open spec fn enter_frames(frames: Seq<FrameView>) -> Seq<char>
    decreases frames.len(),
{
    if frames.len() == 0 {
        "var __doc=document;"@
    } else {
        enter_frames(frames.drop_last()) + enter_frame(frames.last())
    }
}

/// The script that makes `__doc` the document of the innermost frame, and nothing at the top
/// level.
pub open spec fn frame_prefix(frames: Seq<FrameView>) -> Seq<char> {
    if frames.len() == 0 {
        seq![]
    } else {
        enter_frames(frames)
    }
}

/// Writes the script that enters the current frames.
pub fn build_frame_prefix(state: &ServerState) -> (r: String)
    ensures
        r@ == frame_prefix(state@.frames),
{
    if state.frame_stack.is_empty() {
        return String::new();
    }
    let ghost all = state@.frames;
    let mut js = "var __doc=document;".to_owned();
    let mut i: usize = 0;
    assert(all.take(0) =~= seq![]);
    while i < state.frame_stack.len()
        invariant
            all == state@.frames,
            i <= state.frame_stack@.len(),
            js@ == enter_frames(all.take(i as int)),
        decreases state.frame_stack@.len() - i,
    {
        let frame = &state.frame_stack[i];
        let ghost before = js@;
        js.append(FRAME_OPEN);
        js.append(quote_json(frame.selector.as_str()).as_str());
        js.append(")[");
        js.append(decimal(frame.index as u64).as_str());
        js.append(FRAME_CLOSE);
        assert(all.take(i + 1).drop_last() =~= all.take(i as int));
        assert(js@ =~= before + enter_frame(all[i as int]));
        i = i + 1;
    }
    assert(all.take(i as int) =~= all);
    js
}

/// Whether a frame was entered.
pub fn in_frame(state: &ServerState) -> (r: bool)
    ensures
        r == (state@.frames.len() > 0),
{
    !state.frame_stack.is_empty()
}

impl ServerState {
    /// The state at the start: no window chosen, at the top level.
    pub fn new() -> (r: ServerState)
        ensures
            r@ == (ServerView { label: None, frames: seq![] }),
    {
        let r = ServerState { current_window_label: None, frame_stack: Vec::new() };
        assert(r@.frames =~= seq![]);
        r
    }
}

/// What the plugin starts with once it listens on a port: its state, and the line that announces
/// the port to the driver.
pub fn start(port: u16) -> (r: (ServerState, String))
    ensures
        r.0@ == (ServerView { label: None, frames: seq![] }),
        r.1@ == port_line(port),
{
    (ServerState::new(), announce_port(port))
}

/// The state after a window was closed: it is no longer the current one, and no frame is
/// entered.
pub open spec fn after_close(s: ServerView, label: Seq<char>) -> ServerView {
    ServerView {
        label: if s.label == Some(label) {
            None
        } else {
            s.label
        },
        frames: seq![],
    }
}

/// The error for a window that is not there.
pub open spec fn no_window(label: Seq<char>) -> ApiErrorView {
    ApiErrorView::NotFound("window '"@ + label + "' not found"@)
}

fn window_not_found(label: &str) -> (r: ApiError)
    ensures
        r@ == no_window(label@),
{
    let mut message = "window '".to_owned();
    message.append(label);
    message.append("' not found");
    ApiError::NotFound(message)
}

/// What came of something that was asked of a window: there is no such window, it failed, or it
/// was done.
pub enum WindowOutcome {
    Missing,
    Failed(String),
    Done,
}

/// The reply to a request to close a window.
pub open spec fn close_reply(label: Seq<char>, outcome: WindowOutcome) -> Result<
    JsonView,
    ApiErrorView,
> {
    match outcome {
        WindowOutcome::Missing => Err(no_window(label)),
        WindowOutcome::Failed(e) => Err(ApiErrorView::Internal(e@)),
        WindowOutcome::Done => Ok(JsonView::Bool(true)),
    }
}

/// The state after a request to close a window.
pub open spec fn after_close_request(
    s: ServerView,
    label: Seq<char>,
    outcome: WindowOutcome,
) -> ServerView {
    if outcome is Done {
        after_close(s, label)
    } else {
        s
    }
}

/// Notes what came of closing a window, and replies.
pub fn window_close(state: &mut ServerState, body: &CloseReq, outcome: WindowOutcome) -> (r: Result<
    Json,
    ApiError,
>)
    ensures
        api_result(r) == close_reply(body.label@, outcome),
        final(state)@ == after_close_request(old(state)@, body.label@, outcome),
{
    match outcome {
        WindowOutcome::Missing => Err(window_not_found(body.label.as_str())),
        WindowOutcome::Failed(e) => Err(ApiError::Internal(e)),
        WindowOutcome::Done => {
            let same = match &state.current_window_label {
                Some(current) => text_eq(current.as_str(), body.label.as_str()),
                None => false,
            };
            if same {
                state.current_window_label = None;
            }
            state.frame_stack.clear();
            assert(state@.frames =~= seq![]);
            Ok(Json::Bool(true))
        },
    }
}

/// The state after a switch to a window: at its top level.
pub open spec fn after_window_switch(label: Seq<char>) -> ServerView {
    ServerView { label: Some(label), frames: seq![] }
}

/// The reply to a request to switch to a window.
pub open spec fn switch_reply(label: Seq<char>, exists_now: bool) -> Result<
    JsonView,
    ApiErrorView,
> {
    if exists_now {
        Ok(JsonView::Bool(true))
    } else {
        Err(no_window(label))
    }
}

/// The state after a request to switch to a window.
pub open spec fn after_switch_request(
    s: ServerView,
    label: Seq<char>,
    exists_now: bool,
) -> ServerView {
    if exists_now {
        after_window_switch(label)
    } else {
        s
    }
}

/// Makes a window the current one, at its top level, where there is such a window.
pub fn window_set_current(
    state: &mut ServerState,
    body: &SwitchWindowReq,
    exists_now: bool,
) -> (r: Result<Json, ApiError>)
    ensures
        api_result(r) == switch_reply(body.label@, exists_now),
        final(state)@ == after_switch_request(old(state)@, body.label@, exists_now),
{
    if !exists_now {
        return Err(window_not_found(body.label.as_str()));
    }
    state.frame_stack.clear();
    state.current_window_label = Some(body.label.clone());
    assert(state@.frames =~= seq![]);
    Ok(Json::Bool(true))
}

/// The frames after a switch: none for null, one more for a number or for an element with a
/// selector; or the error.
pub open spec fn frames_after_switch(frames: Seq<FrameView>, id: JsonView) -> Result<
    Seq<FrameView>,
    ApiErrorView,
> {
    match id {
        JsonView::Null => Ok(seq![]),
        JsonView::Unsigned(n) => Ok(
            frames.push(FrameView { selector: "iframe"@, index: n as usize }),
        ),
        JsonView::Object(_) => match id.get_str("selector"@) {
            Some(selector) => Ok(
                frames.push(
                    FrameView { selector, index: id.get_u64_or("index"@, 0) as usize },
                ),
            ),
            None => Err(ApiErrorView::Internal("frame element missing selector"@)),
        },
        _ => Err(ApiErrorView::Internal("invalid frame id"@)),
    }
}

/// Enters a frame, or goes back to the top level.
pub fn frame_switch(state: &mut ServerState, id: &Json) -> (r: Result<Json, ApiError>)
    ensures
        match frames_after_switch(old(state)@.frames, id@) {
            Ok(frames) => {
                &&& api_result(r) == Ok::<JsonView, ApiErrorView>(JsonView::Null)
                &&& final(state)@ == (ServerView { frames, ..old(state)@ })
            },
            Err(e) => {
                &&& api_result(r) == Err::<JsonView, ApiErrorView>(e)
                &&& final(state)@ == old(state)@
            },
        },
{
    let ghost before = state@;
    if id.is_null() {
        state.frame_stack.clear();
        assert(state@.frames =~= seq![]);
        return Ok(Json::Null);
    }
    let frame = if let Some(n) = id.as_u64() {
        FrameRef { selector: "iframe".to_owned(), index: n as usize }
    } else if id.is_object() {
        match id.get_str("selector") {
            Some(selector) => FrameRef {
                selector: selector.to_owned(),
                index: id.get_u64_or("index", 0) as usize,
            },
            None => return Err(ApiError::Internal("frame element missing selector".to_owned())),
        }
    } else {
        return Err(ApiError::Internal("invalid frame id".to_owned()));
    };
    let ghost entered = frame@;
    state.frame_stack.push(frame);
    assert(state@.frames =~= before.frames.push(entered));
    Ok(Json::Null)
}

/// The state after the innermost frame was left.
pub open spec fn after_leaving(s: ServerView) -> ServerView {
    ServerView {
        frames: if s.frames.len() > 0 {
            s.frames.drop_last()
        } else {
            s.frames
        },
        ..s
    }
}

/// Leaves the innermost frame; at the top level nothing changes.
pub fn frame_parent(state: &mut ServerState) -> (r: Json)
    ensures
        r@ == JsonView::Null,
        final(state)@ == after_leaving(old(state)@),
{
    let ghost before = state@;
    state.frame_stack.pop();
    assert(before.frames.len() > 0 ==> state@.frames =~= before.frames.drop_last());
    Json::Null
}

} // verus!
