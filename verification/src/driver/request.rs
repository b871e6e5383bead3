//! Requests and their first steps.

use crate::driver::commands::element::{self, get_shadow_root_step, send_keys_step};
use crate::driver::commands::find::{self, find_from_step, find_in_shadow_step, find_step};
use crate::driver::commands::navigation::{self, navigate_to_step};
use crate::driver::commands::page::{self, execute_step};
use crate::driver::commands::replies::member_then;
use crate::driver::commands::window::{self, switch_to_frame_step, switch_to_window_step};
use crate::driver::error::no_session_error;
use crate::driver::script::resolved_actions;
use crate::driver::session::{Session, SessionView};
use crate::driver::state::{AppState, StateView};
use crate::driver::step::{
    call_step, element_step, element_step_with, error_step, fail, Step, StepView, ThenView,
};
use crate::value::{empty_object, object, Json, JsonView};
use vstd::prelude::*;

verus! {

/// The commands on a session.
#[derive(Clone, Copy, PartialEq, Eq, Structural, Debug)]
pub enum Kind {
    NavigateTo,
    GetUrl,
    GetTitle,
    GetPageSource,
    GoBack,
    GoForward,
    Refresh,
    TakeScreenshot,
    ElementScreenshot,
    PrintPage,
    GetWindowHandle,
    CloseWindow,
    GetWindowHandles,
    GetWindowRect,
    SetWindowRect,
    MaximizeWindow,
    MinimizeWindow,
    FullscreenWindow,
    NewWindow,
    SwitchToWindow,
    SwitchToFrame,
    SwitchToParentFrame,
    ClickElement,
    ClearElement,
    SendKeys,
    GetElementText,
    GetElementTag,
    GetElementAttribute,
    GetElementProperty,
    GetElementCss,
    GetElementRect,
    IsElementEnabled,
    IsElementSelected,
    IsElementDisplayed,
    GetComputedRole,
    GetComputedLabel,
    GetShadowRoot,
    GetActiveElement,
    FindElement,
    FindElements,
    FindInShadow,
    FindAllInShadow,
    FindElementFromElement,
    FindElementsFromElement,
    ExecuteSync,
    ExecuteAsync,
    GetAllCookies,
    GetNamedCookie,
    AddCookie,
    DeleteCookie,
    DeleteAllCookies,
    PerformActions,
    ReleaseActions,
    DismissAlert,
    AcceptAlert,
    GetAlertText,
    SendAlertText,
}

/// A request for a command on a session: which command, the element or shadow root and the name
/// in its path, empty where the path has none, and its body, null where it has none.
pub struct Request {
    pub kind: Kind,
    pub target: String,
    pub name: String,
    pub body: Json,
}

/// The mathematical value of a [`Request`].
#[verifier::ext_equal]
pub struct RequestView {
    pub kind: Kind,
    pub target: Seq<char>,
    pub name: Seq<char>,
    pub body: JsonView,
}

impl View for Request {
    type V = RequestView;

    open spec fn view(&self) -> RequestView {
        RequestView {
            kind: self.kind,
            target: self.target@,
            name: self.name@,
            body: self.body@,
        }
    }
}

/// The first step of a request on a session.
pub open spec fn first_step(s: SessionView, r: RequestView) -> StepView {
    match r.kind {
        Kind::NavigateTo => navigate_to_step(s, r.body),
        Kind::GetUrl => call_step(
            s,
            "/navigate/current"@,
            empty_object(),
            member_then("url"@, JsonView::Str(""@)),
        ),
        Kind::GetTitle => call_step(
            s,
            "/navigate/title"@,
            empty_object(),
            member_then("title"@, JsonView::Str(""@)),
        ),
        Kind::GetPageSource => call_step(
            s,
            "/source"@,
            empty_object(),
            member_then("source"@, JsonView::Str(""@)),
        ),
        Kind::GoBack => call_step(s, "/navigate/back"@, empty_object(), ThenView::Null),
        Kind::GoForward => call_step(s, "/navigate/forward"@, empty_object(), ThenView::Null),
        Kind::Refresh => call_step(s, "/navigate/refresh"@, empty_object(), ThenView::Null),
        Kind::TakeScreenshot => call_step(
            s,
            "/screenshot"@,
            empty_object(),
            member_then("data"@, JsonView::Str(""@)),
        ),
        Kind::ElementScreenshot => element_step(
            s,
            r.target,
            "/screenshot/element"@,
            member_then("data"@, JsonView::Str(""@)),
        ),
        Kind::PrintPage => call_step(
            s,
            "/print"@,
            r.body,
            member_then("data"@, JsonView::Str(""@)),
        ),
        Kind::GetWindowHandle => call_step(s, "/window/handle"@, empty_object(), ThenView::Whole),
        Kind::CloseWindow => call_step(s, "/window/handle"@, empty_object(), ThenView::Close),
        Kind::GetWindowHandles => call_step(s, "/window/handles"@, empty_object(), ThenView::Whole),
        Kind::GetWindowRect => call_step(s, "/window/rect"@, empty_object(), ThenView::Whole),
        Kind::SetWindowRect => call_step(s, "/window/set-rect"@, r.body, ThenView::Rect),
        Kind::MaximizeWindow => call_step(s, "/window/maximize"@, empty_object(), ThenView::Rect),
        Kind::MinimizeWindow => call_step(s, "/window/minimize"@, empty_object(), ThenView::Rect),
        Kind::FullscreenWindow => call_step(
            s,
            "/window/fullscreen"@,
            empty_object(),
            ThenView::Rect,
        ),
        Kind::NewWindow => call_step(s, "/window/new"@, r.body, ThenView::NewWindow),
        Kind::SwitchToWindow => switch_to_window_step(s, r.body),
        Kind::SwitchToFrame => switch_to_frame_step(s, r.body),
        Kind::SwitchToParentFrame => call_step(s, "/frame/parent"@, empty_object(), ThenView::Null),
        Kind::ClickElement => element_step(s, r.target, "/element/click"@, ThenView::Null),
        Kind::ClearElement => element_step(s, r.target, "/element/clear"@, ThenView::Null),
        Kind::SendKeys => send_keys_step(s, r.target, r.body),
        Kind::GetElementText => element_step(
            s,
            r.target,
            "/element/text"@,
            member_then("text"@, JsonView::Str(""@)),
        ),
        Kind::GetElementTag => element_step(
            s,
            r.target,
            "/element/tag"@,
            member_then("tag"@, JsonView::Str(""@)),
        ),
        Kind::GetElementAttribute => element_step_with(
            s,
            r.target,
            "/element/attribute"@,
            "name"@,
            JsonView::Str(r.name),
            member_then("value"@, JsonView::Null),
        ),
        Kind::GetElementProperty => element_step_with(
            s,
            r.target,
            "/element/property"@,
            "name"@,
            JsonView::Str(r.name),
            member_then("value"@, JsonView::Null),
        ),
        Kind::GetElementCss => element_step_with(
            s,
            r.target,
            "/element/property"@,
            "name"@,
            JsonView::Str("__css__"@ + r.name),
            ThenView::Style,
        ),
        Kind::GetElementRect => element_step(s, r.target, "/element/rect"@, ThenView::Whole),
        Kind::IsElementEnabled => element_step(
            s,
            r.target,
            "/element/enabled"@,
            member_then("enabled"@, JsonView::Bool(true)),
        ),
        Kind::IsElementSelected => element_step(
            s,
            r.target,
            "/element/selected"@,
            member_then("selected"@, JsonView::Bool(false)),
        ),
        Kind::IsElementDisplayed => element_step(
            s,
            r.target,
            "/element/displayed"@,
            member_then("displayed"@, JsonView::Bool(true)),
        ),
        Kind::GetComputedRole => element_step(
            s,
            r.target,
            "/element/computed-role"@,
            member_then("role"@, JsonView::Str("generic"@)),
        ),
        Kind::GetComputedLabel => element_step(
            s,
            r.target,
            "/element/computed-label"@,
            member_then("label"@, JsonView::Str(""@)),
        ),
        Kind::GetShadowRoot => get_shadow_root_step(s, r.target),
        Kind::GetActiveElement => call_step(
            s,
            "/element/active"@,
            empty_object(),
            ThenView::Active,
        ),
        Kind::FindElement => find_step(s, r.body, true),
        Kind::FindElements => find_step(s, r.body, false),
        Kind::FindInShadow => find_in_shadow_step(s, r.target, r.body, true),
        Kind::FindAllInShadow => find_in_shadow_step(s, r.target, r.body, false),
        Kind::FindElementFromElement => find_from_step(s, r.target, r.body, true),
        Kind::FindElementsFromElement => find_from_step(s, r.target, r.body, false),
        Kind::ExecuteSync => execute_step(s, "/script/execute"@, r.body),
        Kind::ExecuteAsync => execute_step(s, "/script/execute-async"@, r.body),
        Kind::GetAllCookies => call_step(
            s,
            "/cookie/get-all"@,
            empty_object(),
            member_then("cookies"@, JsonView::Array(seq![])),
        ),
        Kind::GetNamedCookie => call_step(
            s,
            "/cookie/get"@,
            object("name"@, JsonView::Str(r.name)),
            ThenView::Cookie { name: r.name },
        ),
        Kind::AddCookie => call_step(
            s,
            "/cookie/add"@,
            object("cookie"@, r.body.get_or("cookie"@, empty_object())),
            ThenView::Null,
        ),
        Kind::DeleteCookie => call_step(
            s,
            "/cookie/delete"@,
            object("name"@, JsonView::Str(r.name)),
            ThenView::Null,
        ),
        Kind::DeleteAllCookies => call_step(
            s,
            "/cookie/delete-all"@,
            empty_object(),
            ThenView::Null,
        ),
        Kind::PerformActions => call_step(
            s,
            "/actions/perform"@,
            resolved_actions(r.body, s.elements),
            ThenView::Null,
        ),
        Kind::ReleaseActions => call_step(s, "/actions/release"@, empty_object(), ThenView::Null),
        Kind::DismissAlert => call_step(s, "/alert/dismiss"@, empty_object(), ThenView::AlertNull),
        Kind::AcceptAlert => call_step(s, "/alert/accept"@, empty_object(), ThenView::AlertNull),
        Kind::GetAlertText => call_step(s, "/alert/text"@, empty_object(), ThenView::AlertText),
        Kind::SendAlertText => call_step(
            s,
            "/alert/send-text"@,
            object("text"@, JsonView::Str(r.body.get_str_or("text"@, ""@))),
            ThenView::AlertNull,
        ),
    }
}

/// Takes the first step of a request on a session.
pub fn begin_on(session: &Session, request: &Request) -> (r: Step)
    requires
        session.wf(),
    ensures
        r@ == first_step(session@, request@),
{
    match request.kind {
        Kind::NavigateTo => navigation::navigate_to(session, &request.body),
        Kind::GetUrl => navigation::get_url(session),
        Kind::GetTitle => navigation::get_title(session),
        Kind::GetPageSource => navigation::get_page_source(session),
        Kind::GoBack => navigation::go_back(session),
        Kind::GoForward => navigation::go_forward(session),
        Kind::Refresh => navigation::refresh(session),
        Kind::TakeScreenshot => navigation::take_screenshot(session),
        Kind::ElementScreenshot => navigation::element_screenshot(session, request.target.as_str()),
        Kind::PrintPage => navigation::print_page(session, &request.body),
        Kind::GetWindowHandle => window::get_window_handle(session),
        Kind::CloseWindow => window::close_window(session),
        Kind::GetWindowHandles => window::get_window_handles(session),
        Kind::GetWindowRect => window::get_window_rect(session),
        Kind::SetWindowRect => window::set_window_rect(session, &request.body),
        Kind::MaximizeWindow => window::maximize_window(session),
        Kind::MinimizeWindow => window::minimize_window(session),
        Kind::FullscreenWindow => window::fullscreen_window(session),
        Kind::NewWindow => window::new_window(session, &request.body),
        Kind::SwitchToWindow => window::switch_to_window(session, &request.body),
        Kind::SwitchToFrame => window::switch_to_frame(session, &request.body),
        Kind::SwitchToParentFrame => window::switch_to_parent_frame(session),
        Kind::ClickElement => element::click_element(session, request.target.as_str()),
        Kind::ClearElement => element::clear_element(session, request.target.as_str()),
        Kind::SendKeys => element::send_keys(session, request.target.as_str(), &request.body),
        Kind::GetElementText => element::get_element_text(session, request.target.as_str()),
        Kind::GetElementTag => element::get_element_tag(session, request.target.as_str()),
        Kind::GetElementAttribute => element::get_element_attribute(
            session,
            request.target.as_str(),
            request.name.as_str(),
        ),
        Kind::GetElementProperty => element::get_element_property(
            session,
            request.target.as_str(),
            request.name.as_str(),
        ),
        Kind::GetElementCss => element::get_element_css(
            session,
            request.target.as_str(),
            request.name.as_str(),
        ),
        Kind::GetElementRect => element::get_element_rect(session, request.target.as_str()),
        Kind::IsElementEnabled => element::is_element_enabled(session, request.target.as_str()),
        Kind::IsElementSelected => element::is_element_selected(session, request.target.as_str()),
        Kind::IsElementDisplayed => element::is_element_displayed(session, request.target.as_str()),
        Kind::GetComputedRole => element::get_computed_role(session, request.target.as_str()),
        Kind::GetComputedLabel => element::get_computed_label(session, request.target.as_str()),
        Kind::GetShadowRoot => element::get_shadow_root(session, request.target.as_str()),
        Kind::GetActiveElement => element::get_active_element(session),
        Kind::FindElement => find::find_element(session, &request.body),
        Kind::FindElements => find::find_elements(session, &request.body),
        Kind::FindInShadow => find::find_in_shadow(session, request.target.as_str(), &request.body),
        Kind::FindAllInShadow => find::find_all_in_shadow(
            session,
            request.target.as_str(),
            &request.body,
        ),
        Kind::FindElementFromElement => find::find_element_from_element(
            session,
            request.target.as_str(),
            &request.body,
        ),
        Kind::FindElementsFromElement => find::find_elements_from_element(
            session,
            request.target.as_str(),
            &request.body,
        ),
        Kind::ExecuteSync => page::execute_sync(session, &request.body),
        Kind::ExecuteAsync => page::execute_async(session, &request.body),
        Kind::GetAllCookies => page::get_all_cookies(session),
        Kind::GetNamedCookie => page::get_named_cookie(session, request.name.as_str()),
        Kind::AddCookie => page::add_cookie(session, &request.body),
        Kind::DeleteCookie => page::delete_cookie(session, request.name.as_str()),
        Kind::DeleteAllCookies => page::delete_all_cookies(session),
        Kind::PerformActions => page::perform_actions(session, &request.body),
        Kind::ReleaseActions => page::release_actions(session),
        Kind::DismissAlert => page::dismiss_alert(session),
        Kind::AcceptAlert => page::accept_alert(session),
        Kind::GetAlertText => page::get_alert_text(session),
        Kind::SendAlertText => page::send_alert_text(session, &request.body),
    }
}

/// The first step of a request on the session that an id names.
pub open spec fn begin_step(s: StateView, sid: Seq<char>, r: RequestView) -> StepView {
    if s.sessions.contains_key(sid) {
        first_step(s.sessions[sid], r)
    } else {
        error_step(no_session_error())
    }
}

/// Takes the first step of a request. A request on a session that is not open is answered at
/// once.
pub fn begin(state: &AppState, sid: &str, request: &Request) -> (r: Step)
    requires
        state.wf(),
    ensures
        r@ == begin_step(state@, sid@, request@),
{
    match state.get_session(sid) {
        Ok(session) => begin_on(session, request),
        Err(e) => fail(e),
    }
}

} // verus!
