//! The steps of commands.

use crate::driver::answer::{next_step, step_on_file, upload_step};
use crate::driver::error::{argument_error, no_element_error};
use crate::driver::locator::locator;
use crate::driver::request::{first_step, Kind, RequestView};
use crate::driver::session::{element_object, SessionView};
use crate::driver::step::{call_step, error_step, OutcomeView, StepView, ThenView, UploadView};
use crate::driver::upload::{file_name, file_object, is_plain_path, may_be_named};
use crate::text::matches_at;
use crate::value::JsonView;
use vstd::prelude::*;

verus! {

/// Whether a command is on an element that its path names.
pub open spec fn is_on_element(kind: Kind) -> bool {
    match kind {
        Kind::ElementScreenshot
        | Kind::ClickElement
        | Kind::ClearElement
        | Kind::SendKeys
        | Kind::GetElementText
        | Kind::GetElementTag
        | Kind::GetElementAttribute
        | Kind::GetElementProperty
        | Kind::GetElementCss
        | Kind::GetElementRect
        | Kind::IsElementEnabled
        | Kind::IsElementSelected
        | Kind::IsElementDisplayed
        | Kind::GetComputedRole
        | Kind::GetComputedLabel
        | Kind::GetShadowRoot
        | Kind::FindElementFromElement
        | Kind::FindElementsFromElement => true,
        _ => false,
    }
}

/// A command on an element that the session does not know is refused before anything is sent
/// to the plugin.
pub proof fn law_unknown_element_is_refused(s: SessionView, r: RequestView)
    requires
        is_on_element(r.kind),
        !s.elements.contains_key(r.target),
    ensures
        first_step(s, r) == error_step(no_element_error(r.target)),
{
}

/// Whether a step posts to the plugin of a session, if it posts at all.
pub open spec fn stays_with(s: SessionView, step: StepView) -> bool {
    step matches StepView::Call { url, .. } ==> matches_at(url, s.plugin_url, 0)
}

proof fn lemma_call_stays(s: SessionView, path: Seq<char>)
    ensures
        matches_at(s.plugin_url + path, s.plugin_url, 0),
{
    assert((s.plugin_url + path).subrange(0, s.plugin_url.len() as int) =~= s.plugin_url);
}

/// A command posts to the plugin of its own session and to no other.
pub proof fn law_requests_go_to_the_own_plugin(
    s: SessionView,
    r: RequestView,
    then: ThenView,
    o: OutcomeView,
    fresh: Seq<Seq<char>>,
    u: UploadView,
    name: Option<Seq<char>>,
    data: Result<Seq<u8>, Seq<char>>,
)
    ensures
        stays_with(s, first_step(s, r)),
        stays_with(s, next_step(s, then, o, fresh)),
        stays_with(s, step_on_file(s, u, name, data)),
{
    assert forall|path: Seq<char>| #[trigger]
        matches_at(s.plugin_url + path, s.plugin_url, 0) by {
        lemma_call_stays(s, path);
    }
    if let StepView::Call { url, .. } = first_step(s, r) {
        assert(exists|path: Seq<char>| url == #[trigger] (s.plugin_url + path));
    }
    if let StepView::Call { url, .. } = next_step(s, then, o, fresh) {
        assert(exists|path: Seq<char>| url == #[trigger] (s.plugin_url + path));
    }
    if let StepView::Call { url, .. } = step_on_file(s, u, name, data) {
        assert(exists|path: Seq<char>| url == #[trigger] (s.plugin_url + path));
    }
}

/// How many answers of the plugin a command may still wait for.
pub open spec fn answers_left(then: ThenView) -> nat {
    match then {
        ThenView::KeysTag { .. } => 4,
        ThenView::KeysType { .. } => 3,
        ThenView::Close => 3,
        ThenView::Handles => 2,
        ThenView::Rect => 2,
        _ => 1,
    }
}

/// Every command comes to an end: with each answer of the plugin fewer are left to wait for,
/// files are read only for an input's type, and with each file fewer are left to read.
pub proof fn law_commands_come_to_an_end(
    s: SessionView,
    then: ThenView,
    o: OutcomeView,
    fresh: Seq<Seq<char>>,
    u: UploadView,
    name: Option<Seq<char>>,
    data: Result<Seq<u8>, Seq<char>>,
)
    ensures
        match next_step(s, then, o, fresh) {
            StepView::Call { then: next, .. } => answers_left(next) < answers_left(then),
            StepView::Read { upload, .. } => then is KeysType && upload.pending.len() > 0,
            StepView::Done(_) => true,
        },
        match step_on_file(s, u, name, data) {
            StepView::Call { then: next, .. } => next is Null,
            StepView::Read { upload, .. } => u.pending.len() > 0 ==> upload.pending.len()
                == u.pending.len() - 1,
            StepView::Done(_) => u.pending.len() > 0,
        },
{
}

/// The step of an upload after its first files were read, with the given file names and contents.
pub open spec fn after_files(
    s: SessionView,
    u: UploadView,
    names: Seq<Option<Seq<char>>>,
    contents: Seq<Seq<u8>>,
) -> StepView
    decreases contents.len(),
{
    if contents.len() == 0 {
        upload_step(s, u)
    } else {
        match step_on_file(s, u, names[0], Ok(contents[0])) {
            StepView::Read { upload, .. } => after_files(
                s,
                upload,
                names.skip(1),
                contents.skip(1),
            ),
            done => done,
        }
    }
}

/// The files of an upload as the plugin takes them.
pub open spec fn file_objects(
    names: Seq<Option<Seq<char>>>,
    contents: Seq<Seq<u8>>,
) -> Seq<JsonView> {
    Seq::new(contents.len(), |i: int| file_object(names[i], contents[i]))
}

/// An upload reads every path that was given, in order, and hands all files to the plugin in
/// that order, each under the name that its path has on the system at hand. For a path that
/// every system reads alike that is the path's last component.
pub proof fn law_upload_holds_every_file(
    s: SessionView,
    u: UploadView,
    names: Seq<Option<Seq<char>>>,
    contents: Seq<Seq<u8>>,
)
    requires
        contents.len() == u.pending.len(),
        names.len() == u.pending.len(),
        forall|i: int|
            0 <= i < names.len() ==> may_be_named(u.pending[i], #[trigger] names[i]),
    ensures
        after_files(s, u, names, contents) == call_step(
            s,
            "/element/set-files"@,
            element_object(u.element).with(
                "files"@,
                JsonView::Array(u.files + file_objects(names, contents)),
            ),
            ThenView::Null,
        ),
        forall|i: int|
            0 <= i < names.len() && is_plain_path(u.pending[i]) ==> (
            #[trigger] file_objects(names, contents)[i]) == file_object(
                file_name(u.pending[i]),
                contents[i],
            ),
    decreases contents.len(),
{
    if contents.len() == 0 {
        assert(u.files + file_objects(names, contents) =~= u.files);
    } else {
        let next = UploadView {
            pending: u.pending.skip(1),
            files: u.files.push(file_object(names[0], contents[0])),
            ..u
        };
        assert forall|i: int| 0 <= i < names.skip(1).len() implies may_be_named(
            next.pending[i],
            #[trigger] names.skip(1)[i],
        ) by {
            assert(names.skip(1)[i] == names[i + 1]);
        }
        law_upload_holds_every_file(s, next, names.skip(1), contents.skip(1));
        assert(next.files + file_objects(names.skip(1), contents.skip(1)) =~= u.files
            + file_objects(names, contents));
        if next.pending.len() == 0 {
            assert(contents.skip(1).len() == 0);
        }
    }
}

/// A file that cannot be read ends an upload with an error that names it, and nothing is sent.
pub proof fn law_unreadable_file_ends_the_upload(
    s: SessionView,
    u: UploadView,
    name: Option<Seq<char>>,
    reason: Seq<char>,
)
    requires
        u.pending.len() > 0,
    ensures
        step_on_file(s, u, name, Err(reason)) == error_step(
            argument_error("Cannot read file "@ + u.pending[0] + ": "@ + reason),
        ),
{
}

/// Every search reaches the plugin with one of the two strategies that it has.
pub proof fn law_plugin_gets_a_strategy_that_it_has(body: JsonView)
    ensures
        locator(body) matches Ok(l) ==> l.0 == "css"@ || l.0 == "xpath"@,
{
}

} // verus!
