use tauri_webdriver::document::write_document;
use tauri_webdriver::driver::answer::{file_read_as, resume, resume_as, resume_upload};
use tauri_webdriver::driver::request::{begin, Kind, Request};
use tauri_webdriver::driver::script::{W3C_ELEMENT_KEY, W3C_SHADOW_KEY};
use tauri_webdriver::driver::session::store_element_as;
use tauri_webdriver::driver::state::{open_session_as, AppState};
use tauri_webdriver::driver::step::{PluginOutcome, Step, Then, Upload};
use tauri_webdriver::value::Json;

const ELEMENT: &str = r##"{"selector":"#a","index":2,"using":"css"}"##;

fn text(s: &str) -> Json {
    Json::Str(s.to_owned())
}

fn object(members: Vec<(&str, Json)>) -> Json {
    Json::Object(members.into_iter().map(|(k, v)| (k.to_owned(), v)).collect())
}

fn described(selector: &str, index: u64) -> Json {
    object(vec![("selector", text(selector)), ("index", Json::Unsigned(index))])
}

/// A server with the session `s1`, which knows the element `e1`.
fn server() -> AppState {
    let mut state = AppState::new(0);
    open_session_as(&mut state, "s1", "/bin/app", 4445);
    match state.get_session_mut("s1") {
        Ok(session) => {
            store_element_as(session, &described("#a", 2), "e1".to_owned());
        }
        Err(_) => panic!("the session was just opened"),
    }
    state
}

fn request(kind: Kind, target: &str, name: &str, body: Json) -> Request {
    Request { kind, target: target.to_owned(), name: name.to_owned(), body }
}

fn called(step: Step) -> (String, String, Then) {
    match step {
        Step::Call { url, body, then } => (url, write_document(&body), then),
        _ => panic!("a request to the plugin was due"),
    }
}

fn replied(step: Step) -> String {
    match step {
        Step::Done(Ok(v)) => write_document(&v),
        Step::Done(Err(e)) => panic!("a reply was due, not {}", e.message),
        _ => panic!("a reply was due"),
    }
}

fn failed(step: Step) -> (u16, String, String) {
    match step {
        Step::Done(Err(e)) => (e.status, e.error, e.message),
        _ => panic!("an error was due"),
    }
}

fn error(status: u16, code: &str, message: &str) -> (u16, String, String) {
    (status, code.to_owned(), message.to_owned())
}

fn answer(body: Json) -> PluginOutcome {
    PluginOutcome::Answer { status: 200, body }
}

fn refusal(status: u16, message: &str) -> PluginOutcome {
    PluginOutcome::Answer { status, body: object(vec![("error", text(message))]) }
}

fn first(state: &AppState, kind: Kind, target: &str, name: &str, body: Json) -> Step {
    begin(state, "s1", &request(kind, target, name, body))
}

/// Runs a command that needs one answer of the plugin.
fn check(kind: Kind, name: &str, body: Json, path: &str, sent: &str, back: Json, reply: &str) {
    let mut state = server();
    let (url, sent_body, then) = called(first(&state, kind, "e1", name, body));
    assert_eq!(url, format!("http://127.0.0.1:4445{path}"));
    assert_eq!(sent_body, sent);
    let step = resume(&mut state, "s1", then, answer(back));
    assert_eq!(replied(step), format!("{{\"value\":{reply}}}"));
}

#[test]
fn navigation_commands() {
    let url = object(vec![("url", text("http://x/"))]);
    check(Kind::NavigateTo, "", url, "/navigate/url", r#"{"url":"http://x/"}"#, Json::Null, "null");
    for (kind, path) in vec![
        (Kind::GoBack, "/navigate/back"),
        (Kind::GoForward, "/navigate/forward"),
        (Kind::Refresh, "/navigate/refresh"),
    ] {
        check(kind, "", Json::Null, path, "{}", Json::Null, "null");
    }
    for (kind, path, key) in vec![
        (Kind::GetUrl, "/navigate/current", "url"),
        (Kind::GetTitle, "/navigate/title", "title"),
        (Kind::GetPageSource, "/source", "source"),
        (Kind::TakeScreenshot, "/screenshot", "data"),
    ] {
        let back = object(vec![("other", Json::Null), (key, text("it"))]);
        check(kind, "", Json::Null, path, "{}", back, "\"it\"");
        check(kind, "", Json::Null, path, "{}", object(vec![]), "\"\"");
    }
}

#[test]
fn navigation_needs_an_address() {
    let state = server();
    let step = first(&state, Kind::NavigateTo, "", "", object(vec![("url", Json::Unsigned(1))]));
    assert_eq!(failed(step), error(400, "invalid argument", "Missing url"));
}

#[test]
fn window_commands_with_one_answer() {
    let rect = object(vec![("x", Json::Float { json: "1.5".to_owned(), plain: "1.5".to_owned() })]);
    check(Kind::GetWindowHandle, "", Json::Null, "/window/handle", "{}", text("main"), "\"main\"");
    check(
        Kind::GetWindowHandles,
        "",
        Json::Null,
        "/window/handles",
        "{}",
        Json::Array(vec![text("a"), text("b")]),
        r#"["a","b"]"#,
    );
    check(Kind::GetWindowRect, "", Json::Null, "/window/rect", "{}", rect, r#"{"x":1.5}"#);
    check(
        Kind::NewWindow,
        "",
        object(vec![("type", text("tab"))]),
        "/window/new",
        r#"{"type":"tab"}"#,
        object(vec![("handle", text("wd-1")), ("type", text("window"))]),
        r#"{"handle":"wd-1","type":"window"}"#,
    );
    check(
        Kind::NewWindow,
        "",
        object(vec![]),
        "/window/new",
        "{}",
        object(vec![]),
        r#"{"handle":"","type":"window"}"#,
    );
    check(
        Kind::SwitchToWindow,
        "",
        object(vec![("handle", text("w"))]),
        "/window/set-current",
        r#"{"label":"w"}"#,
        Json::Bool(true),
        "null",
    );
    check(Kind::SwitchToParentFrame, "", Json::Null, "/frame/parent", "{}", Json::Null, "null");
}

#[test]
fn window_commands_that_ask_for_the_rect() {
    for (kind, path) in vec![
        (Kind::SetWindowRect, "/window/set-rect"),
        (Kind::MaximizeWindow, "/window/maximize"),
        (Kind::MinimizeWindow, "/window/minimize"),
        (Kind::FullscreenWindow, "/window/fullscreen"),
    ] {
        let mut state = server();
        let body = object(vec![]);
        let (url, sent, then) = called(first(&state, kind, "", "", body));
        assert_eq!(url, format!("http://127.0.0.1:4445{path}"));
        assert_eq!(sent, "{}");
        let step = resume(&mut state, "s1", then, answer(Json::Bool(true)));
        let (url, sent, then) = called(step);
        assert_eq!(url, "http://127.0.0.1:4445/window/rect");
        assert_eq!(sent, "{}");
        let step = resume(&mut state, "s1", then, answer(object(vec![("x", Json::Negative(-3))])));
        assert_eq!(replied(step), r#"{"value":{"x":-3}}"#);
    }
}

#[test]
fn closing_a_window_takes_three_answers() {
    for (handle, label) in vec![(text("w2"), "w2"), (Json::Null, "main")] {
        let mut state = server();
        let (url, _, then) = called(first(&state, Kind::CloseWindow, "", "", Json::Null));
        assert_eq!(url, "http://127.0.0.1:4445/window/handle");
        let (url, sent, then) = called(resume(&mut state, "s1", then, answer(handle)));
        assert_eq!(url, "http://127.0.0.1:4445/window/close");
        assert_eq!(sent, format!("{{\"label\":\"{label}\"}}"));
        let (url, sent, then) = called(resume(&mut state, "s1", then, answer(Json::Bool(true))));
        assert_eq!(url, "http://127.0.0.1:4445/window/handles");
        assert_eq!(sent, "{}");
        let step = resume(&mut state, "s1", then, answer(Json::Array(vec![text("main")])));
        assert_eq!(replied(step), r#"{"value":["main"]}"#);
    }
}

#[test]
fn switching_to_a_window_that_is_not_there() {
    let mut state = server();
    let body = object(vec![("handle", text("w"))]);
    let (_, _, then) = called(first(&state, Kind::SwitchToWindow, "", "", body));
    let step = resume(&mut state, "s1", then, refusal(404, "whatever"));
    assert_eq!(failed(step), error(404, "no such window", "Window 'w' not found"));
    let step = first(&state, Kind::SwitchToWindow, "", "", object(vec![]));
    assert_eq!(failed(step), error(400, "invalid argument", "Missing 'handle'"));
}

#[test]
fn frames_by_null_number_and_element() {
    for (id, sent) in vec![
        (Json::Null, r##"{"id":null}"##),
        (Json::Unsigned(3), r##"{"id":3}"##),
        (object(vec![(W3C_ELEMENT_KEY, text("e1"))]), r##"{"id":{"selector":"#a","index":2}}"##),
    ] {
        check(
            Kind::SwitchToFrame,
            "",
            object(vec![("id", id)]),
            "/frame/switch",
            sent,
            Json::Null,
            "null",
        );
    }
    check(
        Kind::SwitchToFrame,
        "",
        object(vec![]),
        "/frame/switch",
        r#"{"id":null}"#,
        Json::Null,
        "null",
    );
}

#[test]
fn frames_that_are_not_named_well() {
    let state = server();
    for id in vec![Json::Negative(-1), text("x"), object(vec![("element", text("e1"))])] {
        let step = first(&state, Kind::SwitchToFrame, "", "", object(vec![("id", id)]));
        assert_eq!(failed(step), error(400, "invalid argument", "Invalid frame id"));
    }
    let id = object(vec![(W3C_ELEMENT_KEY, text("e9"))]);
    let step = first(&state, Kind::SwitchToFrame, "", "", object(vec![("id", id)]));
    assert_eq!(failed(step), error(404, "no such element", "Element e9 not found"));
}

#[test]
fn element_commands() {
    for (kind, path) in vec![
        (Kind::ClickElement, "/element/click"),
        (Kind::ClearElement, "/element/clear"),
    ] {
        check(kind, "", Json::Null, path, ELEMENT, Json::Null, "null");
    }
    for (kind, path, key, default) in vec![
        (Kind::GetElementText, "/element/text", "text", "\"\""),
        (Kind::GetElementTag, "/element/tag", "tag", "\"\""),
        (Kind::IsElementEnabled, "/element/enabled", "enabled", "true"),
        (Kind::IsElementSelected, "/element/selected", "selected", "false"),
        (Kind::IsElementDisplayed, "/element/displayed", "displayed", "true"),
        (Kind::GetComputedRole, "/element/computed-role", "role", "\"generic\""),
        (Kind::GetComputedLabel, "/element/computed-label", "label", "\"\""),
        (Kind::ElementScreenshot, "/screenshot/element", "data", "\"\""),
    ] {
        let back = object(vec![(key, Json::Unsigned(7))]);
        check(kind, "", Json::Null, path, ELEMENT, back, "7");
        check(kind, "", Json::Null, path, ELEMENT, Json::Null, default);
    }
    let rect = object(vec![("x", Json::Unsigned(1))]);
    check(Kind::GetElementRect, "", Json::Null, "/element/rect", ELEMENT, rect, r#"{"x":1}"#);
}

#[test]
fn element_commands_with_a_name() {
    let sent = r##"{"selector":"#a","index":2,"using":"css","name":"href"}"##;
    let back = object(vec![("value", text("v"))]);
    check(Kind::GetElementAttribute, "href", Json::Null, "/element/attribute", sent, back, "\"v\"");
    let sent = r##"{"selector":"#a","index":2,"using":"css","name":"href"}"##;
    check(
        Kind::GetElementProperty,
        "href",
        Json::Null,
        "/element/property",
        sent,
        object(vec![]),
        "null",
    );
    let sent = r##"{"selector":"#a","index":2,"using":"css","name":"__css__color"}"##;
    let back = object(vec![("value", text("red"))]);
    check(Kind::GetElementCss, "color", Json::Null, "/element/property", sent, back, "\"red\"");
    check(
        Kind::GetElementCss,
        "color",
        Json::Null,
        "/element/property",
        sent,
        object(vec![]),
        "\"\"",
    );
}

#[test]
fn a_style_that_the_plugin_refuses_is_empty() {
    let mut state = server();
    let (_, _, then) = called(first(&state, Kind::GetElementCss, "e1", "color", Json::Null));
    let step = resume(&mut state, "s1", then, refusal(500, "no"));
    assert_eq!(replied(step), r#"{"value":""}"#);
}

#[test]
fn unknown_elements_are_refused_by_every_command_on_elements() {
    let state = server();
    for kind in vec![
        Kind::ElementScreenshot,
        Kind::ClickElement,
        Kind::ClearElement,
        Kind::SendKeys,
        Kind::GetElementText,
        Kind::GetElementTag,
        Kind::GetElementAttribute,
        Kind::GetElementProperty,
        Kind::GetElementCss,
        Kind::GetElementRect,
        Kind::IsElementEnabled,
        Kind::IsElementSelected,
        Kind::IsElementDisplayed,
        Kind::GetComputedRole,
        Kind::GetComputedLabel,
        Kind::GetShadowRoot,
        Kind::FindElementFromElement,
        Kind::FindElementsFromElement,
    ] {
        let step = first(&state, kind, "e9", "n", Json::Null);
        assert_eq!(failed(step), error(404, "no such element", "Element e9 not found"));
    }
}

#[test]
fn commands_without_a_session_are_refused() {
    let mut state = server();
    let r = request(Kind::GetUrl, "", "", Json::Null);
    let refused = error(404, "invalid session id", "No active session");
    assert_eq!(failed(begin(&state, "s9", &r)), refused);
    assert_eq!(failed(resume(&mut state, "s9", Then::Null, answer(Json::Null))), refused);
    let upload = Upload {
        element: tauri_webdriver::driver::session::read_element(&described("#f", 0)),
        pending: vec![],
        files: vec![],
    };
    assert_eq!(failed(resume_upload(&state, "s9", upload, Ok(vec![]))), refused);
}

#[test]
fn finding_the_first_element() {
    let mut state = server();
    let body = object(vec![("using", text("css selector")), ("value", text("li"))]);
    let (url, sent, then) = called(first(&state, Kind::FindElement, "", "", body));
    assert_eq!(url, "http://127.0.0.1:4445/element/find");
    assert_eq!(sent, r#"{"using":"css","value":"li"}"#);
    let found = object(vec![(
        "elements",
        Json::Array(vec![described("li", 0), described("li", 1)]),
    )]);
    let session = match state.get_session_mut("s1") {
        Ok(s) => s,
        Err(_) => panic!("the session is open"),
    };
    let step = resume_as(session, then, answer(found), &vec!["e2".to_owned()]);
    assert_eq!(replied(step), format!("{{\"value\":{{\"{W3C_ELEMENT_KEY}\":\"e2\"}}}}"));
    let (_, sent, _) = called(first(&state, Kind::ClickElement, "e2", "", Json::Null));
    assert_eq!(sent, r#"{"selector":"li","index":0,"using":"css"}"#);
}

#[test]
fn finding_a_known_element_gives_its_name() {
    let mut state = server();
    let body = object(vec![("using", text("css selector")), ("value", text("#a"))]);
    let (_, _, then) = called(first(&state, Kind::FindElement, "", "", body));
    let found = object(vec![("elements", Json::Array(vec![described("#a", 2)]))]);
    let step = resume(&mut state, "s1", then, answer(found));
    assert_eq!(replied(step), format!("{{\"value\":{{\"{W3C_ELEMENT_KEY}\":\"e1\"}}}}"));
}

#[test]
fn finding_nothing() {
    let nothing = vec![object(vec![]), object(vec![("elements", Json::Array(vec![]))]), Json::Null];
    for found in nothing {
        let mut state = server();
        let body = object(vec![("using", text("xpath")), ("value", text("//li"))]);
        let (_, _, then) = called(first(&state, Kind::FindElement, "", "", body));
        let step = resume(&mut state, "s1", then, answer(found));
        let message = "No element found with xpath: //li";
        assert_eq!(failed(step), error(404, "no such element", message));
        let body = object(vec![("using", text("xpath")), ("value", text("//li"))]);
        let (_, _, then) = called(first(&state, Kind::FindElements, "", "", body));
        let step = resume(&mut state, "s1", then, answer(Json::Null));
        assert_eq!(replied(step), r#"{"value":[]}"#);
    }
}

#[test]
fn finding_all_elements() {
    let mut state = server();
    let body = object(vec![("using", text("tag name")), ("value", text("li"))]);
    let (_, sent, then) = called(first(&state, Kind::FindElements, "", "", body));
    assert_eq!(sent, r#"{"using":"css","value":"li"}"#);
    let items = vec![described("li", 0), described("#a", 2), described("li", 0)];
    let found = object(vec![("elements", Json::Array(items))]);
    let names = vec!["e2".to_owned(), "e3".to_owned(), "e4".to_owned()];
    let session = match state.get_session_mut("s1") {
        Ok(s) => s,
        Err(_) => panic!("the session is open"),
    };
    let step = resume_as(session, then, answer(found), &names);
    let k = W3C_ELEMENT_KEY;
    assert_eq!(
        replied(step),
        format!("{{\"value\":[{{\"{k}\":\"e2\"}},{{\"{k}\":\"e1\"}},{{\"{k}\":\"e2\"}}]}}")
    );
}

#[test]
fn locators() {
    for (strategy, using, value) in vec![
        ("css selector", "css", "x"),
        ("tag name", "css", "x"),
        ("xpath", "xpath", "x"),
        ("link text", "xpath", "//a[normalize-space()='x']"),
        ("partial link text", "xpath", "//a[contains(.,'x')]"),
    ] {
        let state = server();
        let body = object(vec![("using", text(strategy)), ("value", text("x"))]);
        let (_, sent, _) = called(first(&state, Kind::FindElement, "", "", body));
        assert_eq!(sent, format!("{{\"using\":\"{using}\",\"value\":\"{value}\"}}"));
    }
}

#[test]
fn locators_that_are_refused() {
    let state = server();
    for (body, message) in vec![
        (object(vec![("value", text("x"))]), "Missing 'using'"),
        (object(vec![("using", text("xpath"))]), "Missing 'value'"),
        (
            object(vec![("using", text("id")), ("value", text("x"))]),
            "Unsupported locator strategy: id",
        ),
    ] {
        let step = first(&state, Kind::FindElements, "", "", body);
        assert_eq!(failed(step), error(400, "invalid argument", message));
    }
}

#[test]
fn searching_below_an_element() {
    let mut state = server();
    let body = object(vec![("using", text("xpath")), ("value", text("./p"))]);
    let (url, sent, then) = called(first(&state, Kind::FindElementFromElement, "e1", "", body));
    assert_eq!(url, "http://127.0.0.1:4445/element/find-from");
    assert_eq!(
        sent,
        concat(&[
            r##"{"parent_selector":"#a","parent_index":2,"parent_using":"css","##,
            r##""using":"xpath","value":"./p"}"##,
        ])
    );
    let step = resume(&mut state, "s1", then, answer(Json::Null));
    let message = "No child element found with xpath: ./p";
    assert_eq!(failed(step), error(404, "no such element", message));
    let body = object(vec![("using", text("xpath")), ("value", text("./p"))]);
    let (_, _, then) = called(first(&state, Kind::FindElementsFromElement, "e1", "", body));
    let step = resume(&mut state, "s1", then, answer(object(vec![])));
    assert_eq!(replied(step), r#"{"value":[]}"#);
}

fn concat(parts: &[&str]) -> String {
    parts.concat()
}

#[test]
fn shadow_roots() {
    let mut state = server();
    let (url, sent, then) = called(first(&state, Kind::GetShadowRoot, "e1", "", Json::Null));
    assert_eq!(url, "http://127.0.0.1:4445/element/shadow");
    assert_eq!(sent, ELEMENT);
    let session = match state.get_session_mut("s1") {
        Ok(s) => s,
        Err(_) => panic!("the session is open"),
    };
    let has = object(vec![("hasShadow", Json::Bool(true))]);
    let step = resume_as(session, then, answer(has), &vec!["r1".to_owned()]);
    assert_eq!(replied(step), format!("{{\"value\":{{\"{W3C_SHADOW_KEY}\":\"r1\"}}}}"));
    let body = object(vec![("using", text("css selector")), ("value", text("p"))]);
    let (url, sent, then) = called(first(&state, Kind::FindInShadow, "r1", "", body));
    assert_eq!(url, "http://127.0.0.1:4445/shadow/find");
    assert_eq!(
        sent,
        concat(&[
            r##"{"host_selector":"#a","host_index":2,"host_using":"css","##,
            r##""using":"css","value":"p"}"##,
        ])
    );
    let step = resume(&mut state, "s1", then, answer(Json::Null));
    let message = "No element found in shadow with css: p";
    assert_eq!(failed(step), error(404, "no such element", message));
    let body = object(vec![("using", text("css selector")), ("value", text("p"))]);
    let (_, _, then) = called(first(&state, Kind::FindAllInShadow, "r1", "", body));
    assert_eq!(replied(resume(&mut state, "s1", then, answer(Json::Null))), r#"{"value":[]}"#);
}

#[test]
fn shadow_roots_that_are_not_there() {
    let mut state = server();
    for back in vec![Json::Null, object(vec![("hasShadow", Json::Bool(false))])] {
        let (_, _, then) = called(first(&state, Kind::GetShadowRoot, "e1", "", Json::Null));
        let step = resume(&mut state, "s1", then, answer(back));
        let message = "Element e1 does not have a shadow root";
        assert_eq!(failed(step), error(404, "no such shadow root", message));
    }
    for kind in vec![Kind::FindInShadow, Kind::FindAllInShadow] {
        let step = first(&state, kind, "r9", "", Json::Null);
        let message = "Shadow root r9 not found";
        assert_eq!(failed(step), error(404, "no such shadow root", message));
    }
}

#[test]
fn the_active_element() {
    let mut state = server();
    let (url, sent, then) = called(first(&state, Kind::GetActiveElement, "", "", Json::Null));
    assert_eq!(url, "http://127.0.0.1:4445/element/active");
    assert_eq!(sent, "{}");
    let back = object(vec![("element", described("#a", 2))]);
    let step = resume(&mut state, "s1", then, answer(back));
    assert_eq!(replied(step), format!("{{\"value\":{{\"{W3C_ELEMENT_KEY}\":\"e1\"}}}}"));
    let (_, _, then) = called(first(&state, Kind::GetActiveElement, "", "", Json::Null));
    let step = resume(&mut state, "s1", then, answer(object(vec![("element", Json::Null)])));
    assert_eq!(failed(step), error(404, "no such element", "No element is focused"));
}

#[test]
fn scripts_with_references() {
    let reference = object(vec![(W3C_ELEMENT_KEY, text("e1"))]);
    let unknown = object(vec![(W3C_ELEMENT_KEY, text("e9"))]);
    let args = Json::Array(vec![
        reference,
        object(vec![("deep", Json::Array(vec![object(vec![(W3C_ELEMENT_KEY, text("e1"))])]))]),
        unknown,
        Json::Unsigned(1),
    ]);
    let marker = format!("{{\"__wd_resolve\":{ELEMENT}}}");
    let k = W3C_ELEMENT_KEY;
    let sent = format!(
        "{{\"script\":\"return 1\",\"args\":[{marker},{{\"deep\":[{marker}]}},{{\"{k}\":\"e9\"}},1]}}"
    );
    let body = object(vec![("script", text("return 1")), ("args", args)]);
    let back = object(vec![("value", Json::Unsigned(5))]);
    check(Kind::ExecuteSync, "", body, "/script/execute", &sent, back, "5");
    check(
        Kind::ExecuteAsync,
        "",
        Json::Null,
        "/script/execute-async",
        r#"{"script":"","args":[]}"#,
        Json::Null,
        "null",
    );
}

#[test]
fn scripts_that_fail() {
    for kind in vec![Kind::ExecuteSync, Kind::ExecuteAsync] {
        let mut state = server();
        let (_, _, then) = called(first(&state, kind, "", "", Json::Null));
        let step = resume(&mut state, "s1", then, refusal(500, "x is not defined"));
        assert_eq!(failed(step), error(500, "javascript error", "x is not defined"));
    }
}

#[test]
fn cookies() {
    let back = object(vec![("cookies", Json::Array(vec![Json::Unsigned(1)]))]);
    check(Kind::GetAllCookies, "", Json::Null, "/cookie/get-all", "{}", back, "[1]");
    check(Kind::GetAllCookies, "", Json::Null, "/cookie/get-all", "{}", Json::Null, "[]");
    let back = object(vec![("cookie", object(vec![("name", text("c"))]))]);
    let sent = r#"{"name":"c"}"#;
    check(Kind::GetNamedCookie, "c", Json::Null, "/cookie/get", sent, back, sent);
    check(Kind::DeleteCookie, "c", Json::Null, "/cookie/delete", sent, Json::Null, "null");
    check(Kind::DeleteAllCookies, "", Json::Null, "/cookie/delete-all", "{}", Json::Null, "null");
    let body = object(vec![("cookie", object(vec![("name", text("c"))]))]);
    let sent = r#"{"cookie":{"name":"c"}}"#;
    check(Kind::AddCookie, "", body, "/cookie/add", sent, Json::Null, "null");
    let sent = r#"{"cookie":{}}"#;
    check(Kind::AddCookie, "", Json::Null, "/cookie/add", sent, Json::Null, "null");
    let mut state = server();
    let (_, _, then) = called(first(&state, Kind::GetNamedCookie, "", "c", Json::Null));
    let step = resume(&mut state, "s1", then, answer(object(vec![("cookie", Json::Null)])));
    assert_eq!(failed(step), error(404, "no such cookie", "Cookie 'c' not found"));
}

#[test]
fn actions_with_origins() {
    let origin = object(vec![(W3C_ELEMENT_KEY, text("e1"))]);
    let other = object(vec![(W3C_ELEMENT_KEY, text("e9"))]);
    let list = Json::Array(vec![
        object(vec![("type", text("pointerMove")), ("origin", origin), ("x", Json::Unsigned(1))]),
        object(vec![("origin", other)]),
        object(vec![("origin", text("pointer"))]),
        Json::Null,
    ]);
    let source = object(vec![("type", text("pointer")), ("actions", list)]);
    let body = object(vec![("actions", Json::Array(vec![source, Json::Unsigned(4)]))]);
    let k = W3C_ELEMENT_KEY;
    let sent = [
        "{\"actions\":[{\"type\":\"pointer\",\"actions\":[{\"type\":\"pointerMove\",\"origin\":{\"",
        k,
        "\":",
        ELEMENT,
        "},\"x\":1},{\"origin\":{\"",
        k,
        "\":\"e9\"}},{\"origin\":\"pointer\"},null]},4]}",
    ]
    .concat();
    check(Kind::PerformActions, "", body, "/actions/perform", &sent, Json::Null, "null");
    let body = object(vec![("actions", text("none"))]);
    let sent = r#"{"actions":"none"}"#;
    check(Kind::PerformActions, "", body, "/actions/perform", sent, Json::Null, "null");
    check(Kind::ReleaseActions, "", Json::Null, "/actions/release", "{}", Json::Null, "null");
}

#[test]
fn dialogs() {
    check(Kind::DismissAlert, "", Json::Null, "/alert/dismiss", "{}", Json::Null, "null");
    check(Kind::AcceptAlert, "", Json::Null, "/alert/accept", "{}", Json::Null, "null");
    let back = object(vec![("text", text("sure?"))]);
    check(Kind::GetAlertText, "", Json::Null, "/alert/text", "{}", back, "\"sure?\"");
    check(Kind::GetAlertText, "", Json::Null, "/alert/text", "{}", Json::Null, "\"\"");
    let body = object(vec![("text", text("yes"))]);
    let sent = r#"{"text":"yes"}"#;
    check(Kind::SendAlertText, "", body, "/alert/send-text", sent, Json::Null, "null");
    let sent = r#"{"text":""}"#;
    check(Kind::SendAlertText, "", Json::Null, "/alert/send-text", sent, Json::Null, "null");
    for kind in
        vec![Kind::DismissAlert, Kind::AcceptAlert, Kind::GetAlertText, Kind::SendAlertText]
    {
        let mut state = server();
        let (_, _, then) = called(first(&state, kind, "", "", Json::Null));
        let step = resume(&mut state, "s1", then, refusal(500, "Error: no such alert"));
        assert_eq!(failed(step), error(404, "no such alert", "Error: no such alert"));
        let (_, _, then) = called(first(&state, kind, "", "", Json::Null));
        let step = resume(&mut state, "s1", then, refusal(500, "no such window"));
        assert_eq!(failed(step), error(500, "unknown error", "no such window"));
    }
}

#[test]
fn printing() {
    let body = object(vec![("scale", Json::Unsigned(1))]);
    let back = object(vec![("data", text("JVBE"))]);
    check(Kind::PrintPage, "", body, "/print", r#"{"scale":1}"#, back, "\"JVBE\"");
}

#[test]
fn plugin_failures() {
    let mut state = server();
    for (outcome, message) in vec![
        (PluginOutcome::SendFailed("refused".to_owned()), "plugin request failed: refused"),
        (PluginOutcome::ParseFailed("eof".to_owned()), "plugin response parse failed: eof"),
        (refusal(404, "no window"), "no window"),
        (refusal(199, "low"), "low"),
        (refusal(300, "high"), "high"),
        (PluginOutcome::Answer { status: 500, body: Json::Null }, "plugin error"),
    ] {
        let step = resume(&mut state, "s1", Then::Whole, outcome);
        assert_eq!(failed(step), error(500, "unknown error", message));
    }
    let back = PluginOutcome::Answer { status: 299, body: Json::Bool(true) };
    assert_eq!(replied(resume(&mut state, "s1", Then::Whole, back)), r#"{"value":true}"#);
}

#[test]
fn typing_into_an_element() {
    let mut state = server();
    let body = object(vec![("text", text("hi"))]);
    let (url, sent, then) = called(first(&state, Kind::SendKeys, "e1", "", body));
    assert_eq!(url, "http://127.0.0.1:4445/element/tag");
    assert_eq!(sent, ELEMENT);
    let step = resume(&mut state, "s1", then, answer(object(vec![("tag", text("textarea"))])));
    let (url, sent, then) = called(step);
    assert_eq!(url, "http://127.0.0.1:4445/element/send-keys");
    assert_eq!(sent, r##"{"selector":"#a","index":2,"using":"css","text":"hi"}"##);
    assert_eq!(replied(resume(&mut state, "s1", then, answer(Json::Null))), r#"{"value":null}"#);
}

#[test]
fn typing_into_an_input_that_takes_text() {
    let mut state = server();
    let body = object(vec![("text", text("hi"))]);
    let (_, _, then) = called(first(&state, Kind::SendKeys, "e1", "", body));
    let step = resume(&mut state, "s1", then, answer(object(vec![("tag", text("InPut"))])));
    let (url, sent, then) = called(step);
    assert_eq!(url, "http://127.0.0.1:4445/element/attribute");
    assert_eq!(sent, r##"{"selector":"#a","index":2,"using":"css","name":"type"}"##);
    let step = resume(&mut state, "s1", then, answer(object(vec![("value", Json::Null)])));
    let (url, sent, _) = called(step);
    assert_eq!(url, "http://127.0.0.1:4445/element/send-keys");
    assert_eq!(sent, r##"{"selector":"#a","index":2,"using":"css","text":"hi"}"##);
}

fn reads(step: Step) -> (String, Upload) {
    match step {
        Step::Read { path, upload } => (path, upload),
        _ => panic!("a file was due to be read"),
    }
}

fn file_input(state: &mut AppState, paths: &str) -> Step {
    let body = object(vec![("text", text(paths))]);
    let (_, _, then) = called(first(state, Kind::SendKeys, "e1", "", body));
    let step = resume(state, "s1", then, answer(object(vec![("tag", text("input"))])));
    let (_, _, then) = called(step);
    resume(state, "s1", then, answer(object(vec![("value", text("FILE"))])))
}

#[test]
fn uploading_files() {
    let mut state = server();
    let (path, upload) = reads(file_input(&mut state, "/tmp/a.TXT\r\n\n/tmp/b.tar.gz\n"));
    assert_eq!(path, "/tmp/a.TXT");
    let step = resume_upload(&state, "s1", upload, Ok(vec![0x68, 0x69]));
    let (path, upload) = reads(step);
    assert_eq!(path, "/tmp/b.tar.gz");
    let step = resume_upload(&state, "s1", upload, Ok(vec![0xfb, 0xff, 0xfe]));
    let (url, sent, then) = called(step);
    assert_eq!(url, "http://127.0.0.1:4445/element/set-files");
    assert_eq!(
        sent,
        concat(&[
            r##"{"selector":"#a","index":2,"using":"css","files":["##,
            r##"{"name":"a.TXT","data":"aGk=","mime":"text/plain"},"##,
            r##"{"name":"b.tar.gz","data":"+//+","mime":"application/octet-stream"}]}"##,
        ])
    );
    assert_eq!(replied(resume(&mut state, "s1", then, answer(Json::Null))), r#"{"value":null}"#);
}

#[test]
fn uploading_nothing() {
    let mut state = server();
    let (_, sent, _) = called(file_input(&mut state, "\n\r\n"));
    assert_eq!(sent, r##"{"selector":"#a","index":2,"using":"css","files":[]}"##);
}

#[test]
fn uploading_a_file_that_cannot_be_read() {
    let mut state = server();
    let (_, upload) = reads(file_input(&mut state, "/none\n/tmp/b"));
    let step = resume_upload(&state, "s1", upload, Err("not found".to_owned()));
    let message = "Cannot read file /none: not found";
    assert_eq!(failed(step), error(400, "invalid argument", message));
}

#[test]
fn uploads_are_named_after_the_last_component() {
    for path in vec!["/tmp/a.txt", "a.txt", "/tmp/d/", "/tmp/d/.", "/tmp/..", "/", "C:\\d\\a.txt"] {
        let mut state = server();
        let (read, upload) = reads(file_input(&mut state, path));
        assert_eq!(read, path);
        let (_, sent, _) = called(resume_upload(&state, "s1", upload, Ok(vec![])));
        let name = std::path::Path::new(path)
            .file_name()
            .and_then(|n| n.to_str())
            .unwrap_or("file");
        let quoted = write_document(&text(name));
        assert!(sent.contains(&format!("{{\"name\":{quoted},")));
    }
}

#[test]
fn uploads_with_a_given_name() {
    let mut state = server();
    let (_, upload) = reads(file_input(&mut state, "C:\\d\\a.txt"));
    let session = match state.get_session("s1") {
        Ok(s) => s,
        Err(_) => panic!("the session is open"),
    };
    let step = file_read_as(session, upload, Some("a.txt".to_owned()), Ok(vec![0x68, 0x69]));
    let (_, sent, _) = called(step);
    assert_eq!(
        sent,
        concat(&[
            r##"{"selector":"#a","index":2,"using":"css","files":["##,
            r##"{"name":"a.txt","data":"aGk=","mime":"text/plain"}]}"##,
        ])
    );
}
