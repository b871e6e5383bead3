//! What each command posts to the plugin.

use crate::driver::request::{first_step, Kind, RequestView};
use crate::driver::script::W3C_ELEMENT_KEY;
use crate::driver::session::{ElementView, SessionView};
use crate::driver::step::StepView;
use crate::laws::commands::is_on_element;
use crate::laws::members::{lemma_element_members, lemma_one_member, lemma_with_member};
use crate::laws::typing::{lemma_element_with, lemma_other_names};
use crate::value::{object, JsonView};
use vstd::prelude::*;

verus! {

/// Whether a step posts to an endpoint of a session's plugin.
pub open spec fn posts_to(step: StepView, s: SessionView, path: Seq<char>) -> bool {
    step matches StepView::Call { url, .. } && url == s.plugin_url + path
}

/// Whether a step posts an object whose one member is this.
pub open spec fn posts_only(step: StepView, key: Seq<char>, v: JsonView) -> bool {
    step matches StepView::Call { body, .. } && {
        &&& body matches JsonView::Object(m) && m.len() == 1
        &&& body.get(key) == Some(v)
    }
}

/// Whether a step posts an object without members.
pub open spec fn posts_nothing(step: StepView) -> bool {
    step matches StepView::Call { body, .. } && body matches JsonView::Object(m) && m.len() == 0
}

/// Whether a step posts how an element was found.
pub open spec fn posts_element(step: StepView, e: ElementView) -> bool {
    step matches StepView::Call { body, .. } && {
        &&& body.get("selector"@) == Some(JsonView::Str(e.selector))
        &&& body.get("index"@) == Some(JsonView::Unsigned(e.index as u64))
        &&& body.get("using"@) == Some(JsonView::Str(e.using))
    }
}

/// Whether a step refuses a request as malformed, for this reason.
pub open spec fn refuses(step: StepView, message: Seq<char>) -> bool {
    step matches StepView::Done(Err(e)) && {
        &&& e.status == 400
        &&& e.error == "invalid argument"@
        &&& e.message == message
    }
}

/// A page to go to is posted as it was given; without one the request is refused.
pub proof fn law_page_is_posted(s: SessionView, r: RequestView, v: JsonView)
    requires
        r.kind == Kind::NavigateTo,
    ensures
        ({
            let step = first_step(s, r);
            &&& r.body.get("url"@) == Some(v) && v is Str ==> posts_to(step, s, "/navigate/url"@)
                && posts_only(step, "url"@, v)
            &&& (r.body.get("url"@) matches Some(u) ==> u !is Str) ==> refuses(
                step,
                "Missing url"@,
            )
        }),
{
    lemma_one_member("url"@, v, "url"@);
}

/// A window to switch to is posted as it was given; without one the request is refused.
pub proof fn law_window_is_posted(s: SessionView, r: RequestView, v: JsonView)
    requires
        r.kind == Kind::SwitchToWindow,
    ensures
        ({
            let step = first_step(s, r);
            &&& r.body.get("handle"@) == Some(v) && v is Str ==> posts_to(
                step,
                s,
                "/window/set-current"@,
            ) && posts_only(step, "label"@, v)
            &&& (r.body.get("handle"@) matches Some(u) ==> u !is Str) ==> refuses(
                step,
                "Missing 'handle'"@,
            )
        }),
{
    lemma_one_member("label"@, v, "label"@);
}

/// How a page is printed, where a window is put and what kind of window is opened are posted as
/// they were given.
pub proof fn law_settings_are_posted(s: SessionView, r: RequestView)
    requires
        r.kind == Kind::PrintPage || r.kind == Kind::SetWindowRect || r.kind == Kind::NewWindow,
    ensures
        first_step(s, r) matches StepView::Call { body, .. } && body == r.body,
        r.kind == Kind::PrintPage ==> posts_to(first_step(s, r), s, "/print"@),
        r.kind == Kind::SetWindowRect ==> posts_to(first_step(s, r), s, "/window/set-rect"@),
        r.kind == Kind::NewWindow ==> posts_to(first_step(s, r), s, "/window/new"@),
{
}

/// A cookie to add is posted as it was given, and the name of a cookie to read or delete as it
/// stands in the path.
pub proof fn law_cookies_are_posted(s: SessionView, r: RequestView, cookie: JsonView)
    ensures
        r.kind == Kind::AddCookie && r.body.get("cookie"@) == Some(cookie) ==> posts_to(
            first_step(s, r),
            s,
            "/cookie/add"@,
        ) && posts_only(first_step(s, r), "cookie"@, cookie),
        r.kind == Kind::AddCookie && r.body.get("cookie"@) is None ==> posts_only(
            first_step(s, r),
            "cookie"@,
            JsonView::Object(seq![]),
        ),
        r.kind == Kind::GetNamedCookie ==> posts_to(first_step(s, r), s, "/cookie/get"@)
            && posts_only(first_step(s, r), "name"@, JsonView::Str(r.name)),
        r.kind == Kind::DeleteCookie ==> posts_to(first_step(s, r), s, "/cookie/delete"@)
            && posts_only(first_step(s, r), "name"@, JsonView::Str(r.name)),
{
    lemma_one_member("cookie"@, cookie, "cookie"@);
    lemma_one_member("cookie"@, JsonView::Object(seq![]), "cookie"@);
    lemma_one_member("name"@, JsonView::Str(r.name), "name"@);
}

/// The text for a dialog is posted as it was given, and an empty one where none was.
pub proof fn law_dialog_text_is_posted(s: SessionView, r: RequestView, text: Seq<char>)
    requires
        r.kind == Kind::SendAlertText,
        r.body.get("text"@) == Some(JsonView::Str(text)) || (r.body.get("text"@) is None && text
            == ""@),
    ensures
        posts_to(first_step(s, r), s, "/alert/send-text"@),
        posts_only(first_step(s, r), "text"@, JsonView::Str(text)),
{
    lemma_one_member("text"@, JsonView::Str(text), "text"@);
}

/// Where a command on a known element posts to, other than a search from it.
pub open spec fn element_endpoint(kind: Kind) -> Seq<char> {
    match kind {
        Kind::ElementScreenshot => "/screenshot/element"@,
        Kind::ClickElement => "/element/click"@,
        Kind::ClearElement => "/element/clear"@,
        Kind::SendKeys => "/element/tag"@,
        Kind::GetElementText => "/element/text"@,
        Kind::GetElementTag => "/element/tag"@,
        Kind::GetElementAttribute => "/element/attribute"@,
        Kind::GetElementProperty => "/element/property"@,
        Kind::GetElementCss => "/element/property"@,
        Kind::GetElementRect => "/element/rect"@,
        Kind::IsElementEnabled => "/element/enabled"@,
        Kind::IsElementSelected => "/element/selected"@,
        Kind::IsElementDisplayed => "/element/displayed"@,
        Kind::GetComputedRole => "/element/computed-role"@,
        Kind::GetComputedLabel => "/element/computed-label"@,
        _ => "/element/shadow"@,
    }
}

/// A command on a known element posts how that element was found, and no other; one that asks for
/// an attribute, a property or a style posts its name too, that of a style behind a mark.
pub proof fn law_element_is_posted(s: SessionView, r: RequestView)
    requires
        is_on_element(r.kind),
        r.kind != Kind::FindElementFromElement && r.kind != Kind::FindElementsFromElement,
        s.elements.contains_key(r.target),
    ensures
        posts_element(first_step(s, r), s.elements[r.target]),
        posts_to(first_step(s, r), s, element_endpoint(r.kind)),
        r.kind == Kind::GetElementAttribute || r.kind == Kind::GetElementProperty ==> (first_step(
            s,
            r,
        ) matches StepView::Call { body, .. } && body.get("name"@) == Some(JsonView::Str(r.name))),
        r.kind == Kind::GetElementCss ==> (first_step(s, r) matches StepView::Call { body, .. }
            && body.get("name"@) == Some(JsonView::Str("__css__"@ + r.name))),
{
    let e = s.elements[r.target];
    lemma_element_members(e);
    lemma_other_names(e);
    lemma_element_with(e, "name"@, JsonView::Str(r.name));
    lemma_element_with(e, "name"@, JsonView::Str("__css__"@ + r.name));
}

/// Where a command without data posts to.
pub open spec fn bare_endpoint(kind: Kind) -> Option<Seq<char>> {
    match kind {
        Kind::GetUrl => Some("/navigate/current"@),
        Kind::GetTitle => Some("/navigate/title"@),
        Kind::GetPageSource => Some("/source"@),
        Kind::GoBack => Some("/navigate/back"@),
        Kind::GoForward => Some("/navigate/forward"@),
        Kind::Refresh => Some("/navigate/refresh"@),
        Kind::TakeScreenshot => Some("/screenshot"@),
        Kind::GetWindowHandle | Kind::CloseWindow => Some("/window/handle"@),
        Kind::GetWindowHandles => Some("/window/handles"@),
        Kind::GetWindowRect => Some("/window/rect"@),
        Kind::MaximizeWindow => Some("/window/maximize"@),
        Kind::MinimizeWindow => Some("/window/minimize"@),
        Kind::FullscreenWindow => Some("/window/fullscreen"@),
        Kind::SwitchToParentFrame => Some("/frame/parent"@),
        Kind::GetActiveElement => Some("/element/active"@),
        Kind::GetAllCookies => Some("/cookie/get-all"@),
        Kind::DeleteAllCookies => Some("/cookie/delete-all"@),
        Kind::ReleaseActions => Some("/actions/release"@),
        Kind::DismissAlert => Some("/alert/dismiss"@),
        Kind::AcceptAlert => Some("/alert/accept"@),
        Kind::GetAlertText => Some("/alert/text"@),
        _ => None,
    }
}

/// A command without data posts an empty object to the endpoint that does what the command says,
/// whatever its body holds.
pub proof fn law_bare_commands_are_posted(s: SessionView, r: RequestView)
    requires
        bare_endpoint(r.kind) is Some,
    ensures
        posts_to(first_step(s, r), s, bare_endpoint(r.kind)->0),
        posts_nothing(first_step(s, r)),
{
}

/// A frame is switched to by null, by its number or by the known element that holds it. A request
/// for anything else is refused: for an unknown element as not found, otherwise as malformed.
pub proof fn law_frame_is_posted(s: SessionView, r: RequestView, id: JsonView)
    requires
        r.kind == Kind::SwitchToFrame,
        r.body.get("id"@) == Some(id) || (r.body.get("id"@) is None && id is Null),
    ensures
        ({
            let step = first_step(s, r);
            let key = W3C_ELEMENT_KEY@;
            &&& id is Null || id is Unsigned ==> posts_to(step, s, "/frame/switch"@)
                && posts_only(step, "id"@, id)
            &&& id !is Null && id !is Unsigned ==> match id.get(key) {
                Some(JsonView::Str(eid)) => if s.elements.contains_key(eid) {
                    posts_to(step, s, "/frame/switch"@) && (step matches StepView::Call {
                        body,
                        ..
                    } && body.get("id"@) matches Some(posted) && {
                        &&& posted.get("selector"@) == Some(
                            JsonView::Str(s.elements[eid].selector),
                        )
                        &&& posted.get("index"@) == Some(
                            JsonView::Unsigned(s.elements[eid].index as u64),
                        )
                    })
                } else {
                    step matches StepView::Done(Err(e)) && e.status == 404 && e.error
                        == "no such element"@ && e.message == "Element "@ + eid + " not found"@
                },
                _ => refuses(step, "Invalid frame id"@),
            }
        }),
{
    lemma_one_member("id"@, id, "id"@);
    let key = W3C_ELEMENT_KEY@;
    if let Some(JsonView::Str(eid)) = id.get(key) {
        let e = s.elements[eid];
        let one = object("selector"@, JsonView::Str(e.selector));
        let index = JsonView::Unsigned(e.index as u64);
        reveal_strlit("selector");
        reveal_strlit("index");
        assert("selector"@.len() != "index"@.len());
        lemma_one_member("selector"@, JsonView::Str(e.selector), "selector"@);
        lemma_one_member("selector"@, JsonView::Str(e.selector), "index"@);
        lemma_with_member(one, "index"@, index, "selector"@);
        lemma_with_member(one, "index"@, index, "index"@);
        lemma_one_member("id"@, one.with("index"@, index), "id"@);
    }
}

/// A command on an element that the session does not know is refused, with its name, before
/// anything is posted.
pub proof fn law_unknown_element_is_named(s: SessionView, r: RequestView)
    requires
        is_on_element(r.kind),
        !s.elements.contains_key(r.target),
    ensures
        first_step(s, r) matches StepView::Done(Err(e)) && {
            &&& e.status == 404
            &&& e.error == "no such element"@
            &&& e.message == "Element "@ + r.target + " not found"@
        },
{
}

} // verus!
