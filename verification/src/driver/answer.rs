//! The steps that follow the plugin's answers.

use crate::driver::error::{
    argument_error, no_session_error, script_error, W3cError, W3cErrorView,
};
use crate::driver::script::{W3C_ELEMENT_KEY, W3C_SHADOW_KEY};
use crate::driver::session::{
    described_element, element_object, given_name, store_element_as, with_element, write_element,
    ElementRef, ElementView, Session, SessionView, ShadowRef, ShadowView,
};
use crate::driver::state::{AppState, StateView};
use crate::driver::step::{
    answered, call, call_step, error_step, fail, plugin_post, reply, reply_step, OutcomeView,
    PluginOutcome, Step, StepView, Then, ThenView, Upload, UploadView,
};
use crate::driver::upload::{file_object, may_be_named, name_view, write_file};
use crate::json::{object_0, object_1, text_value, with_member};
use crate::outside::{is_uuid, new_uuid, path_file_name};
use crate::text::{
    ascii_lower_text, contains, contains_text, eq_ignore_ascii_case, filled_lines,
    split_filled_lines, texts,
};
use crate::value::{
    array_value, empty_object, object, object_value, values, Json, JsonView,
};
use vstd::prelude::*;

verus! {

broadcast use {array_value, object_value};

/// A reference to an element.
pub open spec fn element_reference(id: Seq<char>) -> JsonView {
    object(W3C_ELEMENT_KEY@, JsonView::Str(id))
}

/// The error for a search without result, and for a page without focus.
pub open spec fn not_found_error(message: Seq<char>) -> W3cErrorView {
    W3cErrorView { status: 404, error: "no such element"@, message }
}

/// The error for a window that is not there.
pub open spec fn no_window_error(handle: Seq<char>) -> W3cErrorView {
    W3cErrorView {
        status: 404,
        error: "no such window"@,
        message: "Window '"@ + handle + "' not found"@,
    }
}

/// The error for a cookie that is not there.
pub open spec fn no_cookie_error(name: Seq<char>) -> W3cErrorView {
    W3cErrorView {
        status: 404,
        error: "no such cookie"@,
        message: "Cookie '"@ + name + "' not found"@,
    }
}

/// The error for an element without a shadow root.
pub open spec fn no_root_error(eid: Seq<char>) -> W3cErrorView {
    W3cErrorView {
        status: 404,
        error: "no such shadow root"@,
        message: "Element "@ + eid + " does not have a shadow root"@,
    }
}

/// The error of a command on a dialog: one whose message says so is that there is no dialog.
pub open spec fn alert_error(e: W3cErrorView) -> W3cErrorView {
    if contains_text(e.message, "no such alert"@) {
        W3cErrorView { status: 404, error: "no such alert"@, message: e.message }
    } else {
        e
    }
}

/// The elements that the plugin found.
pub open spec fn found(v: JsonView) -> Seq<JsonView> {
    match v.get_array("elements"@) {
        Some(items) => items,
        None => seq![],
    }
}

/// The elements that are known once the first `n` of `items` have been stored, with the names
/// `fresh` for new ones.
pub open spec fn with_elements(
    elements: Map<Seq<char>, ElementView>,
    items: Seq<JsonView>,
    fresh: Seq<Seq<char>>,
    n: nat,
) -> Map<Seq<char>, ElementView>
    decreases n,
{
    if n == 0 {
        elements
    } else {
        with_element(
            with_elements(elements, items, fresh, (n - 1) as nat),
            described_element(items[n - 1]),
            fresh[n - 1],
        )
    }
}

/// The references to all `items`, stored one after the other.
pub open spec fn references(
    elements: Map<Seq<char>, ElementView>,
    items: Seq<JsonView>,
    fresh: Seq<Seq<char>>,
) -> Seq<JsonView> {
    Seq::new(
        items.len(),
        |i: int|
            element_reference(
                given_name(
                    with_elements(elements, items, fresh, i as nat),
                    described_element(items[i]),
                    fresh[i],
                ),
            ),
    )
}

/// The step that types text into an element.
pub open spec fn keys_step(s: SessionView, element: ElementView, text: Seq<char>) -> StepView {
    call_step(
        s,
        "/element/send-keys"@,
        element_object(element).with("text"@, JsonView::Str(text)),
        ThenView::Null,
    )
}

/// The next step of an upload: read the next file, or hand all files to the plugin.
pub open spec fn upload_step(s: SessionView, u: UploadView) -> StepView {
    if u.pending.len() > 0 {
        StepView::Read { path: u.pending[0], upload: u }
    } else {
        call_step(
            s,
            "/element/set-files"@,
            element_object(u.element).with("files"@, JsonView::Array(u.files)),
            ThenView::Null,
        )
    }
}

/// Whether two words are the same but for the case of ASCII letters.
pub open spec fn same_word(a: Seq<char>, b: Seq<char>) -> bool {
    ascii_lower_text(a) == ascii_lower_text(b)
}

/// The step after an answer that is a value.
pub open spec fn step_on_value(
    s: SessionView,
    then: ThenView,
    v: JsonView,
    fresh: Seq<Seq<char>>,
) -> StepView {
    match then {
        ThenView::Null | ThenView::AlertNull | ThenView::Switch { .. } => reply_step(
            JsonView::Null,
        ),
        ThenView::Whole => reply_step(v),
        ThenView::Member { key, default } => reply_step(v.get_or(key, default)),
        ThenView::Style => reply_step(v.get_or("value"@, JsonView::Str(""@))),
        ThenView::Script => reply_step(v.get_or("value"@, JsonView::Null)),
        ThenView::AlertText => reply_step(v.get_or("text"@, JsonView::Str(""@))),
        ThenView::Close => call_step(
            s,
            "/window/close"@,
            object(
                "label"@,
                JsonView::Str(
                    match v.as_str() {
                        Some(label) => label,
                        None => "main"@,
                    },
                ),
            ),
            ThenView::Handles,
        ),
        ThenView::Handles => call_step(s, "/window/handles"@, empty_object(), ThenView::Whole),
        ThenView::Rect => call_step(s, "/window/rect"@, empty_object(), ThenView::Whole),
        ThenView::NewWindow => reply_step(
            object("handle"@, v.get_or("handle"@, JsonView::Str(""@))).with(
                "type"@,
                v.get_or("type"@, JsonView::Str("window"@)),
            ),
        ),
        ThenView::First { message } => if found(v).len() > 0 {
            reply_step(
                element_reference(
                    given_name(s.elements, described_element(found(v)[0]), fresh[0]),
                ),
            )
        } else {
            error_step(not_found_error(message))
        },
        ThenView::All => reply_step(JsonView::Array(references(s.elements, found(v), fresh))),
        ThenView::Cookie { name } => match v.get_or("cookie"@, JsonView::Null) {
            JsonView::Null => error_step(no_cookie_error(name)),
            c => reply_step(c),
        },
        ThenView::Shadow { eid, host } => if v.get_or("hasShadow"@, JsonView::Null).as_bool()
            == Some(true) {
            reply_step(object(W3C_SHADOW_KEY@, JsonView::Str(fresh[0])))
        } else {
            error_step(no_root_error(eid))
        },
        ThenView::Active => match v.get_or("element"@, JsonView::Null) {
            JsonView::Null => error_step(not_found_error("No element is focused"@)),
            e => reply_step(
                element_reference(given_name(s.elements, described_element(e), fresh[0])),
            ),
        },
        ThenView::KeysTag { element, text } => if same_word(
            v.get_str_or("tag"@, ""@),
            "input"@,
        ) {
            call_step(
                s,
                "/element/attribute"@,
                element_object(element).with("name"@, JsonView::Str("type"@)),
                ThenView::KeysType { element, text },
            )
        } else {
            keys_step(s, element, text)
        },
        ThenView::KeysType { element, text } => if same_word(
            v.get_str_or("value"@, ""@),
            "file"@,
        ) {
            upload_step(s, UploadView { element, pending: filled_lines(text), files: seq![] })
        } else {
            keys_step(s, element, text)
        },
    }
}

/// The step after an answer that is an error.
pub open spec fn step_on_error(then: ThenView, e: W3cErrorView) -> StepView {
    match then {
        ThenView::Style => reply_step(JsonView::Str(""@)),
        ThenView::Script => error_step(script_error(e.message)),
        ThenView::AlertNull | ThenView::AlertText => error_step(alert_error(e)),
        ThenView::Switch { handle } => error_step(no_window_error(handle)),
        _ => error_step(e),
    }
}

/// The step after what came of a request to the plugin, with the names `fresh` for new elements
/// and shadow roots.
pub open spec fn next_step(
    s: SessionView,
    then: ThenView,
    o: OutcomeView,
    fresh: Seq<Seq<char>>,
) -> StepView {
    match answered(o) {
        Ok(v) => step_on_value(s, then, v, fresh),
        Err(e) => step_on_error(then, e),
    }
}

/// The session after an answer that is a value, with the names `fresh` for new elements and
/// shadow roots.
pub open spec fn next_session_on_value(
    s: SessionView,
    then: ThenView,
    v: JsonView,
    fresh: Seq<Seq<char>>,
) -> SessionView {
    match then {
        ThenView::First { .. } => if found(v).len() > 0 {
            SessionView {
                elements: with_element(
                    s.elements,
                    described_element(found(v)[0]),
                    fresh[0],
                ),
                ..s
            }
        } else {
            s
        },
        ThenView::All => SessionView {
            elements: with_elements(s.elements, found(v), fresh, found(v).len()),
            ..s
        },
        ThenView::Active => match v.get_or("element"@, JsonView::Null) {
            JsonView::Null => s,
            e => SessionView {
                elements: with_element(s.elements, described_element(e), fresh[0]),
                ..s
            },
        },
        ThenView::Shadow { host, .. } => if v.get_or("hasShadow"@, JsonView::Null).as_bool()
            == Some(true) {
            SessionView {
                shadows: s.shadows.insert(
                    fresh[0],
                    ShadowView {
                        host_selector: host.selector,
                        host_index: host.index,
                        host_using: host.using,
                    },
                ),
                ..s
            }
        } else {
            s
        },
        _ => s,
    }
}

/// The session after what came of a request to the plugin, with the names `fresh` for new
/// elements and shadow roots.
pub open spec fn next_session(
    s: SessionView,
    then: ThenView,
    o: OutcomeView,
    fresh: Seq<Seq<char>>,
) -> SessionView {
    match answered(o) {
        Ok(v) => next_session_on_value(s, then, v, fresh),
        Err(_) => s,
    }
}

/// How many fresh names an answer may need.
pub open spec fn names_needed(then: ThenView, o: OutcomeView) -> nat {
    match answered(o) {
        Ok(v) => match then {
            ThenView::First { .. } | ThenView::Active | ThenView::Shadow { .. } => 1,
            ThenView::All => found(v).len(),
            _ => 0,
        },
        Err(_) => 0,
    }
}

fn write_reference(id: String) -> (r: Json)
    ensures
        r@ == element_reference(id@),
{
    object_1(W3C_ELEMENT_KEY, Json::Str(id))
}

fn quoted_message(lead: &str, name: &str, tail: &str) -> (r: String)
    ensures
        r@ == lead@ + name@ + tail@,
{
    let mut message = lead.to_owned();
    message.append(name);
    message.append(tail);
    message
}

fn type_keys(session: &Session, element: &ElementRef, text: String) -> (r: Step)
    ensures
        r@ == keys_step(session@, element@, text@),
{
    let body = with_member(write_element(element), "text", Json::Str(text));
    call(session, "/element/send-keys", body, Then::Null)
}

/// Takes the next step of an upload.
pub fn go_on_uploading(session: &Session, upload: Upload) -> (r: Step)
    ensures
        r@ == upload_step(session@, upload@),
{
    if upload.pending.len() > 0 {
        let path = upload.pending[0].clone();
        Step::Read { path, upload }
    } else {
        let body = with_member(
            write_element(&upload.element),
            "files",
            Json::Array(upload.files),
        );
        call(session, "/element/set-files", body, Then::Null)
    }
}

/// The contents of a file, or why it could not be read.
pub open spec fn read_view(r: Result<Vec<u8>, String>) -> Result<Seq<u8>, Seq<char>> {
    match r {
        Ok(d) => Ok(d@),
        Err(e) => Err(e@),
    }
}

/// The step after the first pending file of an upload, which has the file name `name`, was read,
/// or could not be.
pub open spec fn step_on_file(
    s: SessionView,
    u: UploadView,
    name: Option<Seq<char>>,
    data: Result<Seq<u8>, Seq<char>>,
) -> StepView {
    if u.pending.len() == 0 {
        upload_step(s, u)
    } else {
        match data {
            Ok(d) => upload_step(
                s,
                UploadView {
                    pending: u.pending.skip(1),
                    files: u.files.push(file_object(name, d)),
                    ..u
                },
            ),
            Err(e) => error_step(
                argument_error("Cannot read file "@ + u.pending[0] + ": "@ + e),
            ),
        }
    }
}

/// Goes on with an upload after its first pending file, which has the file name `name`, was read,
/// or could not be.
pub fn file_read_as(
    session: &Session,
    upload: Upload,
    name: Option<String>,
    data: Result<Vec<u8>, String>,
) -> (r: Step)
    ensures
        r@ == step_on_file(session@, upload@, name_view(name), read_view(data)),
{
    let mut upload = upload;
    if upload.pending.len() == 0 {
        return go_on_uploading(session, upload);
    }
    let ghost before = upload@;
    let path = upload.pending.remove(0);
    assert(texts(upload.pending@) =~= before.pending.skip(1));
    match data {
        Ok(d) => {
            let ghost files = upload.files@;
            upload.files.push(write_file(name, &d));
            assert(values(upload.files@) =~= values(files).push(
                file_object(name_view(name), d@),
            ));
            go_on_uploading(session, upload)
        },
        Err(e) => {
            let mut message = quoted_message("Cannot read file ", path.as_str(), ": ");
            message.append(e.as_str());
            fail(W3cError::bad_request(message))
        },
    }
}

/// Whether `r` is a right step after the first pending file of an upload was read, or could not
/// be: the step for a file name that the path may have on the system at hand.
pub open spec fn uploads(
    s: SessionView,
    u: UploadView,
    data: Result<Seq<u8>, Seq<char>>,
    r: StepView,
) -> bool {
    exists|name: Option<Seq<char>>|
        {
            &&& u.pending.len() > 0 ==> may_be_named(u.pending[0], name)
            &&& r == #[trigger] step_on_file(s, u, name, data)
        }
}

/// Goes on with an upload after its first pending file was read, or could not be.
pub fn file_read(session: &Session, upload: Upload, data: Result<Vec<u8>, String>) -> (r: Step)
    ensures
        uploads(session@, upload@, read_view(data), r@),
{
    let name = if upload.pending.len() > 0 {
        assert(upload@.pending[0] == upload.pending@[0]@);
        path_file_name(upload.pending[0].as_str())
    } else {
        None
    };
    let ghost u = upload@;
    let ghost d = read_view(data);
    let r = file_read_as(session, upload, name, data);
    assert(r@ == step_on_file(session@, u, name_view(name), d));
    r
}

fn store_all_as(session: &mut Session, items: &Vec<Json>, fresh: &Vec<String>) -> (r: Vec<Json>)
    requires
        old(session).wf(),
        fresh@.len() >= items@.len(),
    ensures
        final(session).wf(),
        values(r@) == references(old(session)@.elements, values(items@), texts(fresh@)),
        final(session)@ == (SessionView {
            elements: with_elements(
                old(session)@.elements,
                values(items@),
                texts(fresh@),
                items@.len(),
            ),
            ..old(session)@
        }),
{
    let ghost before = session@;
    let ghost list = values(items@);
    let ghost names = texts(fresh@);
    let mut out: Vec<Json> = Vec::new();
    let mut i: usize = 0;
    while i < items.len()
        invariant
            session.wf(),
            list == values(items@),
            names == texts(fresh@),
            fresh@.len() >= items@.len(),
            i == out@.len(),
            i <= items@.len(),
            session@ == (SessionView {
                elements: with_elements(before.elements, list, names, i as nat),
                ..before
            }),
            forall|k: int|
                0 <= k < i ==> (#[trigger] out@[k])@ == references(
                    before.elements,
                    list,
                    names,
                )[k],
        decreases items@.len() - i,
    {
        assert(names[i as int] == fresh@[i as int]@);
        assert(list[i as int] == items@[i as int]@);
        let id = store_element_as(session, &items[i], fresh[i].clone());
        out.push(write_reference(id));
        i = i + 1;
    }
    assert(values(out@) =~= references(before.elements, list, names));
    out
}

fn fresh_name(fresh: &Vec<String>) -> (r: String)
    requires
        fresh@.len() > 0,
    ensures
        r@ == texts(fresh@)[0],
{
    fresh[0].clone()
}

fn resume_on_value(session: &mut Session, then: Then, v: Json, fresh: &Vec<String>) -> (r: Step)
    requires
        old(session).wf(),
        match then@ {
            ThenView::First { .. } | ThenView::Active | ThenView::Shadow { .. } => fresh@.len() > 0,
            ThenView::All => fresh@.len() >= found(v@).len(),
            _ => true,
        },
    ensures
        final(session).wf(),
        r@ == step_on_value(old(session)@, then@, v@, texts(fresh@)),
        final(session)@ == next_session_on_value(old(session)@, then@, v@, texts(fresh@)),
{
    match then {
        Then::Null | Then::AlertNull | Then::Switch { .. } => reply(Json::Null),
        Then::Whole => reply(v),
        Then::Member { key, default } => reply(v.get_or(key.as_str(), default)),
        Then::Style => reply(v.get_or("value", text_value(""))),
        Then::Script => reply(v.get_or("value", Json::Null)),
        Then::AlertText => reply(v.get_or("text", text_value(""))),
        Then::Close => {
            let label = match v.as_str() {
                Some(label) => text_value(label),
                None => text_value("main"),
            };
            call(session, "/window/close", object_1("label", label), Then::Handles)
        },
        Then::Handles => call(session, "/window/handles", object_0(), Then::Whole),
        Then::Rect => call(session, "/window/rect", object_0(), Then::Whole),
        Then::NewWindow => {
            let handle = v.get_or("handle", text_value(""));
            let kind = v.get_or("type", text_value("window"));
            reply(with_member(object_1("handle", handle), "type", kind))
        },
        Then::First { message } => {
            if let Some(items) = v.get_array("elements") {
                if items.len() > 0 {
                    let id = store_element_as(session, &items[0], fresh_name(fresh));
                    return reply(write_reference(id));
                }
            }
            fail(W3cError::new(404, "no such element", message))
        },
        Then::All => match v.get_array("elements") {
            Some(items) => {
                let list = store_all_as(session, items, fresh);
                reply(Json::Array(list))
            },
            None => {
                let list: Vec<Json> = Vec::new();
                assert(values(list@) =~= references(session@.elements, seq![], texts(fresh@)));
                reply(Json::Array(list))
            },
        },
        Then::Cookie { name } => {
            let cookie = v.get_or("cookie", Json::Null);
            if cookie.is_null() {
                let message = quoted_message("Cookie '", name.as_str(), "' not found");
                fail(W3cError::new(404, "no such cookie", message))
            } else {
                reply(cookie)
            }
        },
        Then::Shadow { eid, host } => {
            if let Some(true) = v.get_or("hasShadow", Json::Null).as_bool() {
                let id = fresh_name(fresh);
                let ghost before = session@;
                session.shadows.insert(
                    id.clone(),
                    ShadowRef {
                        host_selector: host.selector,
                        host_index: host.index,
                        host_using: host.using,
                    },
                );
                assert(session@.shadows =~= before.shadows.insert(
                    id@,
                    ShadowView {
                        host_selector: host@.selector,
                        host_index: host@.index,
                        host_using: host@.using,
                    },
                ));
                reply(object_1(W3C_SHADOW_KEY, Json::Str(id)))
            } else {
                let message = quoted_message(
                    "Element ",
                    eid.as_str(),
                    " does not have a shadow root",
                );
                fail(W3cError::new(404, "no such shadow root", message))
            }
        },
        Then::Active => {
            let element = v.get_or("element", Json::Null);
            if element.is_null() {
                fail(W3cError::new(404, "no such element", "No element is focused".to_owned()))
            } else {
                let id = store_element_as(session, &element, fresh_name(fresh));
                reply(write_reference(id))
            }
        },
        Then::KeysTag { element, text } => {
            if eq_ignore_ascii_case(v.get_str_or("tag", "").as_str(), "input") {
                let body = with_member(write_element(&element), "name", text_value("type"));
                call(session, "/element/attribute", body, Then::KeysType { element, text })
            } else {
                type_keys(session, &element, text)
            }
        },
        Then::KeysType { element, text } => {
            if eq_ignore_ascii_case(v.get_str_or("value", "").as_str(), "file") {
                let pending = split_filled_lines(text.as_str());
                let files: Vec<Json> = Vec::new();
                assert(values(files@) =~= seq![]);
                go_on_uploading(session, Upload { element, pending, files })
            } else {
                type_keys(session, &element, text)
            }
        },
    }
}

fn resume_on_error(then: &Then, e: W3cError) -> (r: Step)
    ensures
        r@ == step_on_error(then@, e@),
{
    match then {
        Then::Style => reply(text_value("")),
        Then::Script => fail(W3cError::javascript_error(e.message)),
        Then::AlertNull | Then::AlertText => if contains(e.message.as_str(), "no such alert") {
            fail(W3cError::new(404, "no such alert", e.message))
        } else {
            fail(e)
        },
        Then::Switch { handle } => {
            let message = quoted_message("Window '", handle.as_str(), "' not found");
            fail(W3cError::new(404, "no such window", message))
        },
        _ => fail(e),
    }
}

/// Goes on with a command after what came of a request to the plugin, with given names for new
/// elements and shadow roots.
pub fn resume_as(
    session: &mut Session,
    then: Then,
    outcome: PluginOutcome,
    fresh: &Vec<String>,
) -> (r: Step)
    requires
        old(session).wf(),
        fresh@.len() >= names_needed(then@, outcome@),
    ensures
        final(session).wf(),
        r@ == next_step(old(session)@, then@, outcome@, texts(fresh@)),
        final(session)@ == next_session(old(session)@, then@, outcome@, texts(fresh@)),
{
    match plugin_post(outcome) {
        Ok(v) => resume_on_value(session, then, v, fresh),
        Err(e) => resume_on_error(&then, e),
    }
}

/// Whether every text is a random UUID.
pub open spec fn all_uuids(names: Seq<Seq<char>>) -> bool {
    forall|i: int| 0 <= i < names.len() ==> is_uuid(#[trigger] names[i])
}

fn new_uuids(n: usize) -> (r: Vec<String>)
    ensures
        r@.len() == n,
        all_uuids(texts(r@)),
{
    let mut out: Vec<String> = Vec::new();
    let mut i: usize = 0;
    while i < n
        invariant
            i <= n,
            i == out@.len(),
            all_uuids(texts(out@)),
        decreases n - i,
    {
        let ghost before = out@;
        let id = new_uuid();
        out.push(id);
        assert(texts(out@) =~= texts(before).push(id@));
        i = i + 1;
    }
    out
}

fn count_names(then: &Then, outcome: &PluginOutcome) -> (r: usize)
    ensures
        r >= names_needed(then@, outcome@),
{
    match then {
        Then::All => match outcome {
            PluginOutcome::Answer { body, .. } => match body.get_array("elements") {
                Some(items) => items.len(),
                None => 0,
            },
            _ => 0,
        },
        _ => 1,
    }
}

/// Whether `r` is a right step, and `after` the right state, once a request to the plugin in a
/// session of `before` had the outcome `o`: the session's next step and next value for some
/// random names. Where the session is not open the step reports that and nothing changes.
pub open spec fn resumes(
    before: StateView,
    sid: Seq<char>,
    then: ThenView,
    o: OutcomeView,
    r: StepView,
    after: StateView,
) -> bool {
    if before.sessions.contains_key(sid) {
        exists|fresh: Seq<Seq<char>>|
            {
                &&& all_uuids(fresh)
                &&& fresh.len() >= names_needed(then, o)
                &&& r == #[trigger] next_step(before.sessions[sid], then, o, fresh)
                &&& after == (StateView {
                    sessions: before.sessions.insert(
                        sid,
                        next_session(before.sessions[sid], then, o, fresh),
                    ),
                    ..before
                })
            }
    } else {
        r == error_step(no_session_error()) && after == before
    }
}

/// Goes on with a command after what came of a request to the plugin. New elements and shadow
/// roots get random names.
pub fn resume(state: &mut AppState, sid: &str, then: Then, outcome: PluginOutcome) -> (r: Step)
    requires
        old(state).wf(),
    ensures
        final(state).wf(),
        resumes(old(state)@, sid@, then@, outcome@, r@, final(state)@),
{
    let fresh = new_uuids(count_names(&then, &outcome));
    let ghost before = state@;
    match state.get_session_mut(sid) {
        Ok(session) => {
            let ghost s = session@;
            let r = resume_as(session, then, outcome, &fresh);
            assert(r@ == next_step(s, then@, outcome@, texts(fresh@)));
            r
        },
        Err(e) => fail(e),
    }
}

/// Whether `r` is a right step once the first pending file of an upload in a session was read, or
/// could not be. Where the session is not open the step reports that.
pub open spec fn resumes_upload(
    s: StateView,
    sid: Seq<char>,
    u: UploadView,
    data: Result<Seq<u8>, Seq<char>>,
    r: StepView,
) -> bool {
    if s.sessions.contains_key(sid) {
        uploads(s.sessions[sid], u, data, r)
    } else {
        r == error_step(no_session_error())
    }
}

/// Goes on with an upload of a session after its first pending file was read, or could not be.
pub fn resume_upload(
    state: &AppState,
    sid: &str,
    upload: Upload,
    data: Result<Vec<u8>, String>,
) -> (r: Step)
    requires
        state.wf(),
    ensures
        resumes_upload(state@, sid@, upload@, read_view(data), r@),
{
    match state.get_session(sid) {
        Ok(session) => file_read(session, upload, data),
        Err(e) => fail(e),
    }
}

} // verus!
