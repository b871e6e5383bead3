use tauri_webdriver::document::write_document;
use tauri_webdriver::driver::answer::resume;
use tauri_webdriver::driver::request::{begin, Kind, Request};
use tauri_webdriver::driver::script::W3C_ELEMENT_KEY;
use tauri_webdriver::driver::session::store_element_as;
use tauri_webdriver::driver::state::{open_session_as, AppState};
use tauri_webdriver::driver::step::{PluginOutcome, Step, Then};
use tauri_webdriver::plugin::actions::{actions_perform, ActionStep};
use tauri_webdriver::plugin::element::element_text;
use tauri_webdriver::plugin::error::ApiError;
use tauri_webdriver::plugin::eval::{finish, Evaluation, Job, ScriptOutcome};
use tauri_webdriver::plugin::page::{alert_accept, navigate_title, script_execute};
use tauri_webdriver::plugin::requests::{ElemReq, ScriptReq};
use tauri_webdriver::plugin::state::{build_frame_prefix, frame_switch, ServerState};
use tauri_webdriver::value::Json;

fn text(s: &str) -> Json {
    Json::Str(s.to_owned())
}

fn object(members: Vec<(&str, Json)>) -> Json {
    Json::Object(members.into_iter().map(|(k, v)| (k.to_owned(), v)).collect())
}

fn server() -> AppState {
    let mut state = AppState::new(0);
    open_session_as(&mut state, "s1", "/bin/app", 4445);
    match state.get_session_mut("s1") {
        Ok(session) => {
            let e = object(vec![("selector", text("#a")), ("index", Json::Unsigned(2))]);
            store_element_as(session, &e, "e1".to_owned());
        }
        Err(_) => panic!("the session was just opened"),
    }
    state
}

fn first(state: &AppState, kind: Kind, body: Json) -> (Json, Then) {
    let request = Request { kind, target: "e1".to_owned(), name: String::new(), body };
    match begin(state, "s1", &request) {
        Step::Call { body, then, .. } => (body, then),
        _ => panic!("a request to the plugin was due"),
    }
}

/// What the driver gets of the plugin's reply.
fn outcome(r: Result<Json, ApiError>) -> PluginOutcome {
    match r {
        Ok(body) => PluginOutcome::Answer { status: 200, body },
        Err(e) => {
            let (status, body) = e.into_response();
            PluginOutcome::Answer { status, body }
        }
    }
}

fn shown(step: Step) -> String {
    match step {
        Step::Done(Ok(v)) => write_document(&v),
        Step::Done(Err(e)) => format!("{} {}: {}", e.status, e.error, e.message),
        _ => panic!("the end was due"),
    }
}

fn replied(kind: Kind, evaluation: Evaluation, result: ScriptOutcome) -> String {
    let mut state = server();
    let (_, then) = first(&state, kind, Json::Null);
    let step = resume(&mut state, "s1", then, outcome(finish(&evaluation, result)));
    shown(step)
}

fn thrown(message: &str) -> ScriptOutcome {
    ScriptOutcome::Value(object(vec![
        ("error", text("Error")),
        ("message", text(message)),
        ("stacktrace", text("")),
    ]))
}

fn user_script() -> Evaluation {
    script_execute(&ScriptReq { script: "return 1".to_owned(), args: vec![] })
}

#[test]
fn values_of_scripts_reach_the_client() {
    let v = ScriptOutcome::Value(object(vec![("a", Json::Array(vec![Json::Unsigned(1)]))]));
    assert_eq!(replied(Kind::ExecuteSync, user_script(), v), r#"{"value":{"a":[1]}}"#);
    let v = ScriptOutcome::Value(text("Home"));
    assert_eq!(replied(Kind::GetTitle, navigate_title(), v), r#"{"value":"Home"}"#);
    let request = ElemReq { selector: "#a".to_owned(), index: 2, using: None };
    let v = ScriptOutcome::Value(text("hello"));
    assert_eq!(replied(Kind::GetElementText, element_text(&request), v), r#"{"value":"hello"}"#);
}

#[test]
fn errors_of_scripts_reach_the_client() {
    assert_eq!(
        replied(Kind::ExecuteSync, user_script(), thrown("x is not defined")),
        "500 javascript error: x is not defined"
    );
    assert_eq!(
        replied(Kind::GetTitle, navigate_title(), thrown("broken")),
        "500 unknown error: broken"
    );
    assert_eq!(
        replied(Kind::GetTitle, navigate_title(), ScriptOutcome::NoWindow),
        "500 unknown error: no such window"
    );
    assert_eq!(
        replied(Kind::GetTitle, navigate_title(), ScriptOutcome::TimedOut),
        "500 unknown error: script timed out"
    );
}

#[test]
fn a_missing_dialog_reaches_the_client() {
    assert_eq!(
        replied(Kind::AcceptAlert, alert_accept(), thrown("no such alert")),
        "404 no such alert: no such alert"
    );
    assert_eq!(
        replied(Kind::AcceptAlert, alert_accept(), ScriptOutcome::Value(Json::Null)),
        r#"{"value":null}"#
    );
}

#[test]
fn frames_of_elements_are_entered() {
    let driver = server();
    let mut plugin = ServerState::new();
    for (id, entered) in vec![
        (Json::Unsigned(3), r##"querySelectorAll("iframe")[3]"##),
        (object(vec![(W3C_ELEMENT_KEY, text("e1"))]), r##"querySelectorAll("#a")[2]"##),
    ] {
        let (body, _) = first(&driver, Kind::SwitchToFrame, object(vec![("id", id)]));
        let sent = body.get_or("id", Json::Bool(false));
        assert!(frame_switch(&mut plugin, &sent).is_ok());
        assert!(build_frame_prefix(&plugin).contains(entered));
    }
    let (body, _) = first(&driver, Kind::SwitchToFrame, object(vec![("id", Json::Null)]));
    assert!(frame_switch(&mut plugin, &body.get_or("id", Json::Bool(false))).is_ok());
    assert_eq!(build_frame_prefix(&plugin), "");
}

#[test]
fn the_pointer_moves_to_the_element() {
    let driver = server();
    let action = object(vec![
        ("type", text("pointerMove")),
        ("x", Json::Unsigned(4)),
        ("y", Json::Negative(-5)),
        ("origin", object(vec![(W3C_ELEMENT_KEY, text("e1"))])),
    ]);
    let source = object(vec![("type", text("pointer")), ("actions", Json::Array(vec![action]))]);
    let body = object(vec![("actions", Json::Array(vec![source]))]);
    let (sent, _) = first(&driver, Kind::PerformActions, body);
    let steps = match actions_perform(&sent) {
        Ok(s) => s,
        Err(_) => panic!("steps were due"),
    };
    assert_eq!(steps.len(), 1);
    match &steps[0] {
        ActionStep::Run(Evaluation { job: Job::Wrapped(script), .. }) => {
            let start = [
                r##"(function(){var el=document.querySelectorAll("#a")[2];"##,
                "if(el){var r=el.getBoundingClientRect();",
                "window.__wdPointerX=r.x+r.width/2+4;window.__wdPointerY=r.y+r.height/2+-5;}})();",
            ]
            .concat();
            assert!(script.starts_with(&start));
        }
        _ => panic!("a script was due"),
    }
}
