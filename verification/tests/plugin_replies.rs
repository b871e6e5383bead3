use tauri_webdriver::document::write_document;
use tauri_webdriver::driver::state::{read_port, LAUNCH_TIMEOUT_MS};
use tauri_webdriver::plugin::actions::{go_on_performing, NextAction};
use tauri_webdriver::plugin::error::ApiError;
use tauri_webdriver::plugin::eval::{
    conclude, finish, prepare, run_quietly, run_reporting, Evaluation, Job, ReplyWith,
    ScriptOutcome, SCRIPT_TIMEOUT_MS,
};
use tauri_webdriver::plugin::requests::{CloseReq, SwitchWindowReq};
use tauri_webdriver::plugin::state::{
    build_frame_prefix, frame_parent, frame_switch, start, window_close, window_set_current,
    ServerState, WindowOutcome,
};
use tauri_webdriver::plugin::window::{
    new_window_label, window_absent, window_changed, window_handle, window_handles, window_new,
    window_set_rect, NEW_WINDOW_WAIT_MS,
};
use tauri_webdriver::value::Json;

fn text(s: &str) -> Json {
    Json::Str(s.to_owned())
}

fn object(members: Vec<(&str, Json)>) -> Json {
    Json::Object(members.into_iter().map(|(k, v)| (k.to_owned(), v)).collect())
}

fn shown(r: Result<Json, ApiError>) -> String {
    match r {
        Ok(v) => write_document(&v),
        Err(e) => {
            let (status, body) = e.into_response();
            format!("{status} {}", write_document(&body))
        }
    }
}

fn jobs() -> Vec<Job> {
    vec![
        Job::Wrapped("return 1".to_owned()),
        Job::Callback("f('__CALLBACK_ID__')".to_owned()),
        Job::Async { args: "[]".to_owned(), script: "f()".to_owned() },
    ]
}

#[test]
fn errors_of_the_plugin() {
    assert_eq!(shown(Err(ApiError::NotFound("a".to_owned()))), r#"404 {"error":"a"}"#);
    assert_eq!(shown(Err(ApiError::Internal("b".to_owned()))), r#"500 {"error":"b"}"#);
}

#[test]
fn values_of_scripts() {
    for job in jobs() {
        assert_eq!(shown(conclude(&job, ScriptOutcome::Value(Json::Unsigned(3)))), "3");
        let half = object(vec![("error", text("E"))]);
        assert_eq!(shown(conclude(&job, ScriptOutcome::Value(half))), r#"{"error":"E"}"#);
        let thrown = object(vec![("error", text("E")), ("message", text("m"))]);
        assert_eq!(shown(conclude(&job, ScriptOutcome::Value(thrown))), r#"500 {"error":"m"}"#);
        let thrown = object(vec![("error", Json::Null), ("message", Json::Null)]);
        assert_eq!(
            shown(conclude(&job, ScriptOutcome::Value(thrown))),
            r#"500 {"error":"script error"}"#
        );
        assert_eq!(
            shown(conclude(&job, ScriptOutcome::Closed)),
            r#"500 {"error":"result channel closed"}"#
        );
        assert_eq!(
            shown(conclude(&job, ScriptOutcome::NotRun("gone".to_owned()))),
            r#"500 {"error":"gone"}"#
        );
    }
}

#[test]
fn scripts_without_a_window_or_in_time() {
    let missing = vec!["no such window", "no such window", "no window"];
    let late = vec!["script timed out", "screenshot timed out", "async script timed out"];
    for ((job, m), l) in jobs().into_iter().zip(missing).zip(late) {
        assert_eq!(
            shown(conclude(&job, ScriptOutcome::NoWindow)),
            format!("404 {{\"error\":\"{m}\"}}")
        );
        assert_eq!(
            shown(conclude(&job, ScriptOutcome::TimedOut)),
            format!("500 {{\"error\":\"{l}\"}}")
        );
    }
}

#[test]
fn replies_with_values() {
    let v = || ScriptOutcome::Value(Json::Unsigned(3));
    assert_eq!(shown(finish(&run_quietly("x".to_owned()), v())), "null");
    assert_eq!(shown(finish(&run_reporting("x".to_owned(), "k"), v())), r#"{"k":3}"#);
    let whole = Evaluation { job: Job::Wrapped("x".to_owned()), how: ReplyWith::Whole };
    assert_eq!(shown(finish(&whole, v())), "3");
    assert_eq!(
        shown(finish(&whole, ScriptOutcome::TimedOut)),
        r#"500 {"error":"script timed out"}"#
    );
}

#[test]
fn scripts_get_random_ids() {
    let state = ServerState::new();
    for job in jobs() {
        let (one, script) = prepare(&state, &job);
        let (two, _) = prepare(&state, &job);
        assert_eq!(one.len(), 36);
        assert_ne!(one, two);
        assert!(script.contains(&one));
        assert!(!script.contains("__CALLBACK_ID__"));
    }
}

#[test]
fn frames_are_entered_and_left() {
    let mut state = ServerState::new();
    assert_eq!(shown(Ok(frame_parent(&mut state))), "null");
    let id = object(vec![("selector", text("#f\"")), ("index", Json::Unsigned(2))]);
    assert_eq!(shown(frame_switch(&mut state, &id)), "null");
    let one = build_frame_prefix(&state);
    assert_eq!(
        one,
        [
            r##"var __doc=document;var __f=__doc.querySelectorAll("#f\"")[2];"##,
            "if(!__f)throw new Error('frame not found');__doc=__f.contentDocument;",
            "if(!__doc)throw new Error('cannot access frame document');",
        ]
        .concat()
    );
    assert_eq!(shown(frame_switch(&mut state, &Json::Unsigned(0))), "null");
    assert!(build_frame_prefix(&state).contains(r#"__doc.querySelectorAll("iframe")[0]"#));
    frame_parent(&mut state);
    assert_eq!(build_frame_prefix(&state), one);
    assert_eq!(shown(frame_switch(&mut state, &Json::Null)), "null");
    assert_eq!(build_frame_prefix(&state), "");
}

#[test]
fn frames_that_are_refused() {
    let mut state = ServerState::new();
    assert!(frame_switch(&mut state, &Json::Unsigned(1)).is_ok());
    let before = build_frame_prefix(&state);
    let id = object(vec![("index", Json::Unsigned(2))]);
    assert_eq!(
        shown(frame_switch(&mut state, &id)),
        r#"500 {"error":"frame element missing selector"}"#
    );
    for id in vec![Json::Bool(true), text("f"), Json::Negative(-1), Json::Array(vec![])] {
        assert_eq!(shown(frame_switch(&mut state, &id)), r#"500 {"error":"invalid frame id"}"#);
    }
    assert_eq!(build_frame_prefix(&state), before);
}

#[test]
fn switching_windows_leaves_frames() {
    let mut state = ServerState::new();
    assert!(frame_switch(&mut state, &Json::Unsigned(1)).is_ok());
    let body = SwitchWindowReq { label: "w".to_owned() };
    assert_eq!(
        shown(window_set_current(&mut state, &body, false)),
        r#"404 {"error":"window 'w' not found"}"#
    );
    assert_eq!(state.frame_stack.len(), 1);
    assert!(state.current_window_label.is_none());
    assert_eq!(shown(window_set_current(&mut state, &body, true)), "true");
    assert!(state.frame_stack.is_empty());
    assert_eq!(state.current_window_label.as_deref(), Some("w"));
}

#[test]
fn closing_windows() {
    let mut state = ServerState::new();
    let body = SwitchWindowReq { label: "w".to_owned() };
    assert!(window_set_current(&mut state, &body, true).is_ok());
    assert!(frame_switch(&mut state, &Json::Unsigned(1)).is_ok());
    let w = CloseReq { label: "w".to_owned() };
    let v = CloseReq { label: "v".to_owned() };
    assert_eq!(
        shown(window_close(&mut state, &w, WindowOutcome::Missing)),
        r#"404 {"error":"window 'w' not found"}"#
    );
    assert_eq!(
        shown(window_close(&mut state, &w, WindowOutcome::Failed("busy".to_owned()))),
        r#"500 {"error":"busy"}"#
    );
    assert_eq!(state.frame_stack.len(), 1);
    assert_eq!(shown(window_close(&mut state, &v, WindowOutcome::Done)), "true");
    assert_eq!(state.current_window_label.as_deref(), Some("w"));
    assert!(state.frame_stack.is_empty());
    assert_eq!(shown(window_close(&mut state, &w, WindowOutcome::Done)), "true");
    assert!(state.current_window_label.is_none());
}

#[test]
fn replies_about_windows() {
    assert_eq!(shown(window_handle(Some("main"))), "\"main\"");
    assert_eq!(shown(window_handle(None)), r#"404 {"error":"no window"}"#);
    let labels = vec!["a".to_owned(), "b\"".to_owned()];
    assert_eq!(write_document(&window_handles(&labels)), r#"["a","b\""]"#);
    assert_eq!(write_document(&window_handles(&vec![])), "[]");
    assert_eq!(shown(window_changed(WindowOutcome::Done)), "true");
    assert_eq!(shown(window_changed(WindowOutcome::Missing)), r#"404 {"error":"no window"}"#);
    assert_eq!(
        shown(window_changed(WindowOutcome::Failed("no".to_owned()))),
        r#"500 {"error":"no"}"#
    );
}

#[test]
fn new_windows() {
    let label = new_window_label();
    assert!(label.starts_with("wd-"));
    assert_eq!(label.len(), 39);
    assert_ne!(label, new_window_label());
    assert_eq!(shown(window_new("wd-1", None)), r#"{"handle":"wd-1","type":"window"}"#);
    assert_eq!(
        shown(window_new("wd-1", Some("no display"))),
        r#"500 {"error":"failed to create window: no display"}"#
    );
}

#[test]
fn a_rect_needs_both_numbers() {
    for x in vec![false, true] {
        for y in vec![false, true] {
            let change = window_set_rect(x, y, y, x);
            assert_eq!(change.position, x && y);
            assert_eq!(change.size, x && y);
            assert!(window_set_rect(true, true, x, y).position);
            assert!(window_set_rect(x, y, true, true).size);
        }
    }
}

#[test]
fn actions_go_on_until_one_fails() {
    let next = |done: usize, last: Result<Json, ApiError>| match go_on_performing(2, done, last) {
        NextAction::Do(i) => format!("do {i}"),
        NextAction::Reply(r) => shown(r),
    };
    assert_eq!(next(0, Ok(Json::Null)), "do 0");
    assert_eq!(next(1, Ok(Json::Unsigned(7))), "do 1");
    assert_eq!(next(2, Ok(Json::Unsigned(7))), "null");
    for done in vec![0, 1, 2] {
        let failed = Err(ApiError::Internal("broken".to_owned()));
        assert_eq!(next(done, failed), r#"500 {"error":"broken"}"#);
    }
    assert_eq!(next(1, Err(ApiError::NotFound("no".to_owned()))), r#"404 {"error":"no"}"#);
}

#[test]
fn the_plugin_starts_at_the_top() {
    let (state, line) = start(4445);
    assert_eq!(line, "[webdriver] listening on port 4445");
    assert_eq!(read_port(&line), Some(4445));
    assert!(state.current_window_label.is_none());
    assert!(state.frame_stack.is_empty());
}

#[test]
fn limits_in_milliseconds() {
    assert_eq!((LAUNCH_TIMEOUT_MS, SCRIPT_TIMEOUT_MS, NEW_WINDOW_WAIT_MS), (30000, 30000, 200));
    assert_eq!(shown(Err(window_absent())), r#"404 {"error":"no window"}"#);
}
