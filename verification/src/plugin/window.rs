//! Replies about windows.

use crate::json::{object_1, text_value, with_member};
use crate::outside::{is_uuid, new_uuid};
use crate::plugin::error::{api_result, ApiError, ApiErrorView};
use crate::plugin::state::WindowOutcome;
use crate::text::texts;
use crate::value::{array_value, object, values, Json, JsonView};
use vstd::prelude::*;

verus! {

broadcast use array_value;

/// How long a new window is given to come up, in milliseconds.
pub const NEW_WINDOW_WAIT_MS: u64 = 200;

/// The error for a request on a window where there is none.
pub fn window_absent() -> (r: ApiError)
    ensures
        r@ == ApiErrorView::NotFound("no window"@),
{
    ApiError::NotFound("no window".to_owned())
}

/// The reply to the question which window is the current one.
pub open spec fn handle_reply(label: Option<Seq<char>>) -> Result<JsonView, ApiErrorView> {
    match label {
        Some(l) => Ok(JsonView::Str(l)),
        None => Err(ApiErrorView::NotFound("no window"@)),
    }
}

/// Replies with the label of the current window, where there is a window.
pub fn window_handle(label: Option<&str>) -> (r: Result<Json, ApiError>)
    ensures
        api_result(r) == handle_reply(
            match label {
                Some(l) => Some(l@),
                None => None,
            },
        ),
{
    match label {
        Some(l) => Ok(text_value(l)),
        None => Err(window_absent()),
    }
}

/// The reply to a request that changes a window.
pub open spec fn changed_reply(outcome: WindowOutcome) -> Result<JsonView, ApiErrorView> {
    match outcome {
        WindowOutcome::Missing => Err(ApiErrorView::NotFound("no window"@)),
        WindowOutcome::Failed(e) => Err(ApiErrorView::Internal(e@)),
        WindowOutcome::Done => Ok(JsonView::Bool(true)),
    }
}

/// Replies to a request that changes a window: to move it, resize it, or show it in another way.
pub fn window_changed(outcome: WindowOutcome) -> (r: Result<Json, ApiError>)
    ensures
        api_result(r) == changed_reply(outcome),
{
    match outcome {
        WindowOutcome::Missing => Err(window_absent()),
        WindowOutcome::Failed(e) => Err(ApiError::Internal(e)),
        WindowOutcome::Done => Ok(Json::Bool(true)),
    }
}

/// The labels of windows as JSON strings.
pub open spec fn label_values(labels: Seq<Seq<char>>) -> Seq<JsonView> {
    labels.map_values(|l: Seq<char>| JsonView::Str(l))
}

/// The reply with the labels of all windows.
pub fn window_handles(labels: &Vec<String>) -> (r: Json)
    ensures
        r@ == JsonView::Array(label_values(texts(labels@))),
{
    let mut out: Vec<Json> = Vec::new();
    let mut i: usize = 0;
    while i < labels.len()
        invariant
            i == out@.len(),
            i <= labels@.len(),
            forall|k: int| 0 <= k < i ==> (#[trigger] out@[k])@ == JsonView::Str(labels@[k]@),
        decreases labels@.len() - i,
    {
        out.push(text_value(labels[i].as_str()));
        i = i + 1;
    }
    assert(values(out@) =~= label_values(texts(labels@)));
    Json::Array(out)
}

/// Which of a window's place and size a request changes: each needs both of its numbers.
pub struct RectChange {
    pub position: bool,
    pub size: bool,
}

/// What a request for a place and size changes, by the numbers that it gives.
pub open spec fn rect_change(x: bool, y: bool, width: bool, height: bool) -> RectChange {
    RectChange { position: x && y, size: width && height }
}

/// Decides what a request for a place and size changes, by the numbers that it gives.
pub fn window_set_rect(x: bool, y: bool, width: bool, height: bool) -> (r: RectChange)
    ensures
        r.position == (x && y),
        r.size == (width && height),
        r == rect_change(x, y, width, height),
{
    RectChange { position: x && y, size: width && height }
}

/// Makes the label of a new window out of a random UUID.
pub fn new_window_label() -> (r: String)
    ensures
        exists|id: Seq<char>| is_uuid(id) && r@ == "wd-"@ + id,
{
    let id = new_uuid();
    let mut label = "wd-".to_owned();
    label.append(id.as_str());
    assert(is_uuid(id@) && label@ == "wd-"@ + id@);
    label
}

/// The reply to a request for a window.
pub open spec fn new_window_reply(label: Seq<char>, failure: Option<Seq<char>>) -> Result<
    JsonView,
    ApiErrorView,
> {
    match failure {
        None => Ok(
            object("handle"@, JsonView::Str(label)).with("type"@, JsonView::Str("window"@)),
        ),
        Some(e) => Err(ApiErrorView::Internal("failed to create window: "@ + e)),
    }
}

/// Replies to a request for a window, once a window with a given label was opened or could not
/// be.
pub fn window_new(label: &str, failure: Option<&str>) -> (r: Result<Json, ApiError>)
    ensures
        api_result(r) == new_window_reply(
            label@,
            match failure {
                Some(e) => Some(e@),
                None => None,
            },
        ),
{
    match failure {
        None => {
            let window = object_1("handle", text_value(label));
            Ok(with_member(window, "type", text_value("window")))
        },
        Some(e) => {
            let mut message = "failed to create window: ".to_owned();
            message.append(e);
            Err(ApiError::Internal(message))
        },
    }
}

} // verus!
