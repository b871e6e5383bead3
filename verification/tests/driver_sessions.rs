use tauri_webdriver::document::write_document;
use tauri_webdriver::driver::error::W3cError;
use tauri_webdriver::driver::session::{resolve_element, store_element, Session, Timeouts};
use tauri_webdriver::driver::state::{
    announce_port, clear_sessions, create_session, delete_session, get_status, get_timeouts,
    go_on_opening, launch_failed, no_output, open_session, open_session_as, read_port, set_timeouts,
    watch_output, AppOutput, AppState, Launch, Opening,
};
use tauri_webdriver::driver::upload::{mime_from_extension, mime_from_name, write_file};
use tauri_webdriver::value::Json;

fn text(s: &str) -> Json {
    Json::Str(s.to_owned())
}

fn object(members: Vec<(&str, Json)>) -> Json {
    Json::Object(members.into_iter().map(|(k, v)| (k.to_owned(), v)).collect())
}

fn reported(e: W3cError) -> (u16, String) {
    let (status, body) = e.into_response();
    (status, write_document(&body))
}

fn error_text(code: &str, message: &str) -> String {
    format!(
        "{{\"value\":{{\"error\":\"{code}\",\"message\":\"{message}\",\"stacktrace\":\"\"}}}}"
    )
}

fn ok(r: Result<Json, W3cError>) -> String {
    match r {
        Ok(v) => write_document(&v),
        Err(e) => panic!("a reply was due, not {}", e.message),
    }
}

fn err(r: Result<Json, W3cError>) -> W3cError {
    match r {
        Ok(_) => panic!("an error was due"),
        Err(e) => e,
    }
}

#[test]
fn errors_have_a_status_a_code_and_a_message() {
    let m = || "why".to_owned();
    for (e, status, code, message) in vec![
        (W3cError::no_session(), 404, "invalid session id", "No active session"),
        (W3cError::no_element("e7"), 404, "no such element", "Element e7 not found"),
        (W3cError::session_not_created(m()), 500, "session not created", "why"),
        (W3cError::unknown(m()), 500, "unknown error", "why"),
        (W3cError::bad_request(m()), 400, "invalid argument", "why"),
        (W3cError::javascript_error(m()), 500, "javascript error", "why"),
        (W3cError::new(418, "teapot", m()), 418, "teapot", "why"),
    ] {
        assert_eq!(reported(e), (status, error_text(code, message)));
    }
}

#[test]
fn the_status_counts_sessions() {
    let mut state = AppState::new(2);
    assert_eq!(
        write_document(&get_status(&state)),
        r#"{"value":{"ready":true,"message":"ready"}}"#
    );
    open_session_as(&mut state, "s1", "app", 1);
    assert_eq!(
        write_document(&get_status(&state)),
        r#"{"value":{"ready":true,"message":"1 session(s) active, accepting more"}}"#
    );
    open_session_as(&mut state, "s2", "app", 2);
    assert_eq!(
        write_document(&get_status(&state)),
        r#"{"value":{"ready":false,"message":"2 session(s) active, at capacity"}}"#
    );
}

#[test]
fn a_full_server_refuses_sessions() {
    let body = options("alwaysMatch", "binary", text("/bin/app"));
    let mut state = AppState::new(1);
    assert!(create_session(&state, &body).is_ok());
    open_session_as(&mut state, "s1", "app", 1);
    match create_session(&state, &body) {
        Ok(_) => panic!("the server is full"),
        Err(e) => assert_eq!(
            reported(e),
            (500, error_text("session not created", "Maximum number of sessions reached"))
        ),
    }
    assert!(delete_session(&mut state, "s1").is_ok());
    assert!(create_session(&state, &body).is_ok());
}

fn options(kind: &str, key: &str, value: Json) -> Json {
    let options = object(vec![("tauri:options", object(vec![(key, value)]))]);
    let capabilities = if kind == "firstMatch" {
        object(vec![(kind, Json::Array(vec![options]))])
    } else {
        object(vec![(kind, options)])
    };
    object(vec![("capabilities", capabilities)])
}

#[test]
fn the_application_comes_from_the_capabilities() {
    let state = AppState::new(0);
    for kind in vec!["alwaysMatch", "firstMatch"] {
        for key in vec!["binary", "application"] {
            match create_session(&state, &options(kind, key, text("/bin/app"))) {
                Ok(path) => assert_eq!(path, "/bin/app"),
                Err(_) => panic!("a path was due"),
            }
        }
    }
    let both = object(vec![(
        "capabilities",
        object(vec![
            ("firstMatch", object(vec![("0", object(vec![]))])),
            (
                "alwaysMatch",
                object(vec![(
                    "tauri:options",
                    object(vec![("application", text("second")), ("binary", text("first"))]),
                )]),
            ),
        ]),
    )]);
    match create_session(&state, &both) {
        Ok(path) => assert_eq!(path, "first"),
        Err(_) => panic!("a path was due"),
    }
}

#[test]
fn a_session_needs_an_application() {
    let state = AppState::new(0);
    let message = "Missing tauri:options.binary (or application) in capabilities";
    for body in vec![
        Json::Null,
        object(vec![]),
        options("alwaysMatch", "other", text("x")),
        options("alwaysMatch", "binary", Json::Unsigned(1)),
        object(vec![(
            "capabilities",
            object(vec![("firstMatch", Json::Array(vec![]))]),
        )]),
    ] {
        match create_session(&state, &body) {
            Ok(_) => panic!("an error was due"),
            Err(e) => assert_eq!(reported(e), (500, error_text("session not created", message))),
        }
    }
}

#[test]
fn launching_can_fail() {
    assert_eq!(
        reported(launch_failed("/bin/app", "no such file")),
        (500, error_text("session not created", "Failed to launch /bin/app: no such file"))
    );
    assert_eq!(
        reported(no_output()),
        (500, error_text("session not created", "Failed to capture app stdout"))
    );
}

#[test]
fn announced_ports_are_read() {
    for port in vec![0, 1, 9, 10, 4445, 65535] {
        assert_eq!(read_port(&announce_port(port)), Some(port));
    }
    assert_eq!(announce_port(4445), "[webdriver] listening on port 4445");
    assert_eq!(read_port("[webdriver] listening on port  \t7 \u{a0}"), Some(7));
    assert_eq!(read_port("[webdriver] listening on port +08"), Some(8));
    for line in vec![
        "",
        "hello",
        "[webdriver] listening on port",
        "[webdriver] listening on port ",
        "[webdriver] listening on port 65536",
        "[webdriver] listening on port -1",
        "[webdriver] listening on port 1 2",
        " [webdriver] listening on port 1",
        "[webdriver] listening on port +",
        "[webdriver] listening on port \u{664}",
    ] {
        assert_eq!(read_port(line), None);
    }
}

#[test]
fn the_output_of_an_application_is_watched() {
    assert!(matches!(watch_output(&AppOutput::Line("starting".to_owned())), Launch::Wait));
    let line = "[webdriver] listening on port 5000".to_owned();
    assert!(matches!(watch_output(&AppOutput::Line(line)), Launch::Ready(5000)));
    for output in vec![AppOutput::End, AppOutput::Deadline] {
        match watch_output(&output) {
            Launch::Refused(e) => assert_eq!(e.message, "App did not report plugin port in time"),
            _ => panic!("an error was due"),
        }
    }
    match watch_output(&AppOutput::Failed("broken".to_owned())) {
        Launch::Refused(e) => {
            assert_eq!(e.error, "session not created");
            assert_eq!(e.message, "IO error reading app stdout: broken");
        }
        _ => panic!("an error was due"),
    }
}

#[test]
fn opening_a_session_replies_with_its_capabilities() {
    let mut state = AppState::new(0);
    let body = open_session_as(&mut state, "s1", "/bin/app", 4445);
    assert_eq!(
        write_document(&body),
        [
            r#"{"value":{"sessionId":"s1","capabilities":{"browserName":"tauri","#,
            r#""platformName":"mac","tauri:options":{"binary":"/bin/app"}}}}"#,
        ]
        .concat()
    );
    match state.get_session("s1") {
        Ok(s) => assert_eq!(s.plugin_url, "http://127.0.0.1:4445"),
        Err(_) => panic!("the session is open"),
    }
}

#[test]
fn a_session_opens_once_its_port_is_announced() {
    let mut state = AppState::new(1);
    let line = AppOutput::Line("loading".to_owned());
    assert!(matches!(go_on_opening(&mut state, "/bin/app", &line), Opening::Wait));
    match go_on_opening(&mut state, "/bin/app", &AppOutput::End) {
        Opening::Refused(e) => assert_eq!(e.message, "App did not report plugin port in time"),
        _ => panic!("an error was due"),
    }
    assert!(write_document(&get_status(&state)).contains("\"ready\":true"));
    let line = AppOutput::Line(announce_port(4445));
    match go_on_opening(&mut state, "/bin/app", &line) {
        Opening::Opened { id, body } => {
            assert!(is_uuid(&id));
            assert!(write_document(&body).contains(&id));
            match state.get_session(&id) {
                Ok(s) => assert_eq!(s.plugin_url, "http://127.0.0.1:4445"),
                Err(_) => panic!("the session is open"),
            }
        }
        _ => panic!("a session was due"),
    }
    assert!(write_document(&get_status(&state)).contains("\"ready\":false"));
}

fn is_uuid(s: &str) -> bool {
    s.len() == 36
        && s.chars().enumerate().all(|(i, c)| match i {
            8 | 13 | 18 | 23 => c == '-',
            14 => c == '4',
            19 => matches!(c, '8' | '9' | 'a' | 'b'),
            _ => c.is_ascii_digit() || ('a'..='f').contains(&c),
        })
}

#[test]
fn sessions_get_random_ids() {
    let mut state = AppState::new(0);
    let (one, _) = open_session(&mut state, "app", 1);
    let (two, body) = open_session(&mut state, "app", 2);
    assert!(is_uuid(&one) && is_uuid(&two));
    assert_ne!(one, two);
    assert!(write_document(&body).contains(&two));
    match state.get_session(&one) {
        Ok(s) => assert_eq!(s.plugin_url, "http://127.0.0.1:1"),
        Err(_) => panic!("the session is open"),
    }
}

#[test]
fn closing_sessions() {
    let mut state = AppState::new(0);
    open_session_as(&mut state, "s1", "app", 1);
    open_session_as(&mut state, "s2", "app", 2);
    assert_eq!(ok(delete_session(&mut state, "s1")), r#"{"value":null}"#);
    assert!(state.get_session("s1").is_err());
    assert!(state.get_session("s2").is_ok());
    let e = err(delete_session(&mut state, "s1"));
    assert_eq!(reported(e), (404, error_text("invalid session id", "No active session")));
    clear_sessions(&mut state);
    assert!(state.get_session("s2").is_err());
    assert!(write_document(&get_status(&state)).contains("\"ready\""));
}

#[test]
fn timeouts() {
    let mut state = AppState::new(0);
    open_session_as(&mut state, "s1", "app", 1);
    open_session_as(&mut state, "s2", "app", 2);
    let at_first = r#"{"value":{"script":30000,"pageLoad":300000,"implicit":0}}"#;
    assert_eq!(ok(get_timeouts(&state, "s1")), at_first);
    let body = object(vec![
        ("implicit", Json::Unsigned(5)),
        ("script", Json::Negative(-1)),
        ("pageLoad", Json::Unsigned(18446744073709551615)),
    ]);
    assert_eq!(ok(set_timeouts(&mut state, "s1", &body)), r#"{"value":null}"#);
    assert_eq!(
        ok(get_timeouts(&state, "s1")),
        r#"{"value":{"script":30000,"pageLoad":18446744073709551615,"implicit":5}}"#
    );
    assert_eq!(ok(get_timeouts(&state, "s2")), at_first);
    assert_eq!(err(get_timeouts(&state, "s9")).error, "invalid session id");
    assert_eq!(err(set_timeouts(&mut state, "s9", &body)).error, "invalid session id");
    assert_eq!(
        Timeouts::default(),
        Timeouts { script: 30000, page_load: 300000, implicit: 0 }
    );
}

#[test]
fn reported_timeouts_set_the_same() {
    let mut state = AppState::new(0);
    open_session_as(&mut state, "s1", "app", 1);
    let report = match get_timeouts(&state, "s1") {
        Ok(v) => v.get_or("value", Json::Null),
        Err(_) => panic!("the session is open"),
    };
    let other = object(vec![("script", Json::Unsigned(1)), ("implicit", Json::Unsigned(2))]);
    assert!(set_timeouts(&mut state, "s1", &other).is_ok());
    assert!(set_timeouts(&mut state, "s1", &report).is_ok());
    assert_eq!(
        ok(get_timeouts(&state, "s1")),
        r#"{"value":{"script":30000,"pageLoad":300000,"implicit":0}}"#
    );
}

#[test]
fn elements_keep_their_names() {
    let mut session = Session::new("http://127.0.0.1:1".to_owned());
    let a = object(vec![("selector", text("#a")), ("index", Json::Unsigned(1))]);
    let b = object(vec![
        ("selector", text("#a")),
        ("index", Json::Unsigned(1)),
        ("using", text("xpath")),
    ]);
    let one = store_element(&mut session, &a);
    let two = store_element(&mut session, &b);
    let three = store_element(&mut session, &a);
    assert!(is_uuid(&one) && is_uuid(&two));
    assert_eq!(one, three);
    assert_ne!(one, two);
    match resolve_element(&session, &two) {
        Ok(e) => {
            assert_eq!((e.selector.as_str(), e.index, e.using.as_str()), ("#a", 1, "xpath"))
        }
        Err(_) => panic!("the element is known"),
    }
    let none = store_element(&mut session, &Json::Null);
    match resolve_element(&session, &none) {
        Ok(e) => assert_eq!((e.selector.as_str(), e.index, e.using.as_str()), ("", 0, "css")),
        Err(_) => panic!("the element is known"),
    }
    match resolve_element(&session, "e9") {
        Ok(_) => panic!("the element is not known"),
        Err(e) => assert_eq!(e.message, "Element e9 not found"),
    }
}

#[test]
fn media_types() {
    for (path, mime) in vec![
        ("a.txt", "text/plain"),
        ("a.html", "text/html"),
        ("a.htm", "text/html"),
        ("a.css", "text/css"),
        ("a.js", "application/javascript"),
        ("a.json", "application/json"),
        ("a.xml", "application/xml"),
        ("a.pdf", "application/pdf"),
        ("a.zip", "application/zip"),
        ("a.png", "image/png"),
        ("a.jpg", "image/jpeg"),
        ("a.jpeg", "image/jpeg"),
        ("a.gif", "image/gif"),
        ("a.svg", "image/svg+xml"),
        ("a.webp", "image/webp"),
        ("a.mp4", "video/mp4"),
        ("a.mp3", "audio/mpeg"),
        ("A.PnG", "image/png"),
        ("/d.txt/file", "application/octet-stream"),
        ("/d/a.txt/", "text/plain"),
        ("/d/a.txt/.", "text/plain"),
        ("/d/a.txt/..", "application/octet-stream"),
        (".txt", "application/octet-stream"),
        ("..txt", "text/plain"),
        ("a.", "application/octet-stream"),
        ("", "application/octet-stream"),
        ("a.tar.gz", "application/octet-stream"),
        ("/tmp/12:30.png", "image/png"),
        ("ab:c.css", "text/css"),
    ] {
        assert_eq!(mime_from_extension(path), mime);
        assert_eq!(mime_from_extension(path), like_std(path));
    }
}

fn like_std(path: &str) -> &'static str {
    let ext = std::path::Path::new(path)
        .extension()
        .and_then(|e| e.to_str())
        .unwrap_or("")
        .to_lowercase();
    match ext.as_str() {
        "txt" => "text/plain",
        "html" | "htm" => "text/html",
        "css" => "text/css",
        "js" => "application/javascript",
        "json" => "application/json",
        "xml" => "application/xml",
        "pdf" => "application/pdf",
        "zip" => "application/zip",
        "png" => "image/png",
        "jpg" | "jpeg" => "image/jpeg",
        "gif" => "image/gif",
        "svg" => "image/svg+xml",
        "webp" => "image/webp",
        "mp4" => "video/mp4",
        "mp3" => "audio/mpeg",
        _ => "application/octet-stream",
    }
}

#[test]
fn media_types_of_names() {
    assert_eq!(mime_from_name(&Some("a.PNG".to_owned())), "image/png");
    assert_eq!(mime_from_name(&Some(".png".to_owned())), "application/octet-stream");
    assert_eq!(mime_from_name(&Some("a.b.css".to_owned())), "text/css");
    assert_eq!(mime_from_name(&None), "application/octet-stream");
    for path in vec!["C:\\x\\.png", "C:\\x\\a.png", "\\\\srv\\a.txt", "//srv/a.txt", "c:a.txt"] {
        assert_eq!(mime_from_extension(path), like_std(path));
    }
}

#[test]
fn files_for_the_plugin() {
    for (name, data, shown, encoded) in vec![
        (Some("a.txt"), vec![], "a.txt", ""),
        (Some("a.txt"), vec![0], "a.txt", "AA=="),
        (Some("a.txt"), vec![0, 16], "a.txt", "ABA="),
        (Some("a.txt"), vec![0, 16, 131], "a.txt", "ABCD"),
        (None, vec![255, 255, 255, 255], "file", "/////w=="),
        (None, vec![62 * 4], "file", "+A=="),
    ] {
        let file = write_file(name.map(|n| n.to_owned()), &data);
        assert_eq!(file.get_str_or("name", "?"), shown);
        assert_eq!(file.get_str_or("data", "?"), encoded);
    }
}
