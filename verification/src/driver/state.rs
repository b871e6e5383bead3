//! The open sessions, and how sessions are opened, configured and closed.

use crate::driver::error::{
    no_session_error, result_view, session_error, value_body, w3c_value, W3cError, W3cErrorView,
};
use crate::driver::session::{fresh_session, Session, SessionView, Timeouts};
use crate::driver::table::Table;
use crate::json::{object_1, option_value, text_value, with_member};
use crate::outside::{is_uuid, new_uuid};
use crate::text::{
    decimal, decimal_text, matches_at, parse_u16, strip_prefix, trim, trimmed, u16_value,
};
use crate::value::{object, Json, JsonView};
use vstd::prelude::*;

verus! {

/// What starts the line on which an application announces the port of its plugin.
pub const PORT_LINE: &'static str = "[webdriver] listening on port ";

/// How long an application may take to announce the port of its plugin, in milliseconds.
pub const LAUNCH_TIMEOUT_MS: u64 = 30000;

/// The open sessions and the number that may be open at a time, zero for any number.
pub struct AppState {
    sessions: Table<Session>,
    max_sessions: usize,
}

/// The mathematical value of an [`AppState`].
#[verifier::ext_equal]
pub struct StateView {
    pub sessions: Map<Seq<char>, SessionView>,
    pub max_sessions: usize,
}

impl View for AppState {
    type V = StateView;

    closed spec fn view(&self) -> StateView {
        StateView {
            sessions: self.sessions.map().map_values(|s: Session| s@),
            max_sessions: self.max_sessions,
        }
    }
}

impl StateView {
    /// Whether one more session may be opened.
    pub open spec fn accepts(self) -> bool {
        self.max_sessions == 0 || self.sessions.dom().len() < self.max_sessions
    }
}

/// The message of the status reply.
pub open spec fn status_message(s: StateView) -> Seq<char> {
    let count = decimal_text(s.sessions.dom().len());
    if s.sessions.dom().len() == 0 {
        "ready"@
    } else if s.accepts() {
        count + " session(s) active, accepting more"@
    } else {
        count + " session(s) active, at capacity"@
    }
}

/// The body of the status reply.
pub open spec fn status_body(s: StateView) -> JsonView {
    value_body(
        object("ready"@, JsonView::Bool(s.accepts())).with(
            "message"@,
            JsonView::Str(status_message(s)),
        ),
    )
}

impl AppState {
    /// The table and every session in it are well formed, and a limit on the number of
    /// sessions is kept.
    pub closed spec fn wf(self) -> bool {
        &&& self.sessions.wf()
        &&& forall|k: Seq<char>|
            self.sessions.map().contains_key(k) ==> (#[trigger] self.sessions.map()[k]).wf()
        &&& self.max_sessions > 0 ==> self.sessions.size() <= self.max_sessions
    }

    proof fn lemma_count(self)
        requires
            self.wf(),
        ensures
            self@.sessions.dom().finite(),
            self@.sessions.dom().len() == self.sessions.size(),
    {
        self.sessions.lemma_size();
        assert(self@.sessions.dom() =~= self.sessions.map().dom());
    }

    /// The sessions are finite in number, and no more than the limit allows.
    pub proof fn law_limit_is_kept(self)
        requires
            self.wf(),
        ensures
            self@.sessions.dom().finite(),
            self@.max_sessions > 0 ==> self@.sessions.dom().len() <= self@.max_sessions,
    {
        self.lemma_count();
    }

    /// A server without sessions.
    pub fn new(max_sessions: usize) -> (r: AppState)
        ensures
            r.wf(),
            r@ == (StateView { sessions: Map::empty(), max_sessions }),
    {
        let r = AppState { sessions: Table::new(), max_sessions };
        assert(r@.sessions =~= Map::<Seq<char>, SessionView>::empty());
        r
    }

    fn accepts(&self) -> (r: bool)
        requires
            self.wf(),
        ensures
            r == self@.accepts(),
    {
        proof {
            self.lemma_count();
        }
        self.max_sessions == 0 || self.sessions.len() < self.max_sessions
    }

    /// The session that an id names.
    pub fn get_session(&self, sid: &str) -> (r: Result<&Session, W3cError>)
        requires
            self.wf(),
        ensures
            match r {
                Ok(s) => {
                    &&& self@.sessions.contains_key(sid@)
                    &&& s@ == self@.sessions[sid@]
                    &&& s.wf()
                },
                Err(e) => !self@.sessions.contains_key(sid@) && e@ == no_session_error(),
            },
    {
        match self.sessions.get(sid) {
            Some(s) => Ok(s),
            None => Err(W3cError::no_session()),
        }
    }

    /// The session that an id names, to be changed in place.
    pub fn get_session_mut(&mut self, sid: &str) -> (r: Result<&mut Session, W3cError>)
        requires
            old(self).wf(),
        ensures
            match r {
                Ok(s) => {
                    &&& old(self)@.sessions.contains_key(sid@)
                    &&& s@ == old(self)@.sessions[sid@]
                    &&& s.wf()
                    &&& final(s).wf() ==> final(self).wf()
                    &&& final(self)@ == (StateView {
                        sessions: old(self)@.sessions.insert(sid@, final(s)@),
                        ..old(self)@
                    })
                },
                Err(e) => {
                    &&& !old(self)@.sessions.contains_key(sid@)
                    &&& e@ == no_session_error()
                    &&& final(self).wf()
                    &&& final(self)@ == old(self)@
                },
            },
    {
        let ghost before = *self;
        match self.sessions.get_mut(sid) {
            Some(s) => {
                proof {
                    assert forall|after: Session|
                        #![trigger before.sessions.map().insert(sid@, after)]
                        before.sessions.map().insert(sid@, after).map_values(
                            |s: Session| s@,
                        ) == before@.sessions.insert(sid@, after@) by {
                        assert(before.sessions.map().insert(sid@, after).map_values(
                            |s: Session| s@,
                        ) =~= before@.sessions.insert(sid@, after@));
                    }
                }
                Ok(s)
            },
            None => Err(W3cError::no_session()),
        }
    }
}

/// Tells whether the server takes another session, and how many it has.
pub fn get_status(state: &AppState) -> (r: Json)
    requires
        state.wf(),
    ensures
        r@ == status_body(state@),
{
    proof {
        state.lemma_count();
    }
    let count = state.sessions.len();
    let ready = state.accepts();
    let message = if count == 0 {
        "ready".to_owned()
    } else {
        let mut m = decimal(count as u64);
        if ready {
            m.append(" session(s) active, accepting more");
        } else {
            m.append(" session(s) active, at capacity");
        }
        m
    };
    w3c_value(with_member(object_1("ready", Json::Bool(ready)), "message", Json::Str(message)))
}

/// The member of an object, or the item of an array for the token `0`.
pub open spec fn first_child(v: JsonView) -> Option<JsonView> {
    match v {
        JsonView::Array(items) => if items.len() > 0 {
            Some(items[0])
        } else {
            None
        },
        _ => v.get("0"@),
    }
}

/// The value at the end of a path of names, where every name is there.
pub open spec fn at(v: Option<JsonView>, key: Seq<char>) -> Option<JsonView> {
    match v {
        Some(j) => j.get(key),
        None => None,
    }
}

/// The options for the application under the capabilities that must match.
pub open spec fn required_options(body: JsonView) -> Option<JsonView> {
    at(at(body.get("capabilities"@), "alwaysMatch"@), "tauri:options"@)
}

/// The options for the application under the first capabilities of those that may match.
pub open spec fn first_options(body: JsonView) -> Option<JsonView> {
    match at(body.get("capabilities"@), "firstMatch"@) {
        Some(list) => at(first_child(list), "tauri:options"@),
        None => None,
    }
}

/// The value that names the application: the first that is there of the `binary` and the
/// `application` option under the required capabilities and under the first of the others.
pub open spec fn binary_option(body: JsonView) -> Option<JsonView> {
    if at(required_options(body), "binary"@) is Some {
        at(required_options(body), "binary"@)
    } else if at(required_options(body), "application"@) is Some {
        at(required_options(body), "application"@)
    } else if at(first_options(body), "binary"@) is Some {
        at(first_options(body), "binary"@)
    } else {
        at(first_options(body), "application"@)
    }
}

/// What a request for a session is answered with: the application to launch, or the error.
pub open spec fn session_request(s: StateView, body: JsonView) -> Result<
    Seq<char>,
    W3cErrorView,
> {
    if !s.accepts() {
        Err(session_error("Maximum number of sessions reached"@))
    } else {
        match binary_option(body) {
            Some(JsonView::Str(path)) => Ok(path),
            _ => Err(
                session_error("Missing tauri:options.binary (or application) in capabilities"@),
            ),
        }
    }
}

fn child<'a>(v: Option<&'a Json>, key: &str) -> (r: Option<&'a Json>)
    ensures
        option_value(r) == at(option_value(v), key@),
{
    match v {
        Some(j) => j.get(key),
        None => None,
    }
}

fn first_of(v: &Json) -> (r: Option<&Json>)
    ensures
        option_value(r) == first_child(v@),
{
    broadcast use {crate::value::array_value, crate::value::object_value};

    match v {
        Json::Array(items) => if items.len() > 0 {
            Some(&items[0])
        } else {
            None
        },
        _ => v.get("0"),
    }
}

fn find_binary_option(body: &Json) -> (r: Option<&Json>)
    ensures
        option_value(r) == binary_option(body@),
{
    let capabilities = body.get("capabilities");
    let required = child(child(capabilities, "alwaysMatch"), "tauri:options");
    if let Some(v) = child(required, "binary") {
        return Some(v);
    }
    if let Some(v) = child(required, "application") {
        return Some(v);
    }
    let first = match child(capabilities, "firstMatch") {
        Some(list) => child(first_of(list), "tauri:options"),
        None => None,
    };
    if let Some(v) = child(first, "binary") {
        return Some(v);
    }
    child(first, "application")
}

/// Decides on a request for a session: refuses it when the server is full or the request names
/// no application, and otherwise answers the application to launch.
pub fn create_session(state: &AppState, body: &Json) -> (r: Result<String, W3cError>)
    requires
        state.wf(),
    ensures
        match r {
            Ok(path) => session_request(state@, body@) == Ok::<Seq<char>, W3cErrorView>(path@),
            Err(e) => session_request(state@, body@) == Err::<Seq<char>, W3cErrorView>(e@),
        },
{
    if !state.accepts() {
        return Err(
            W3cError::session_not_created("Maximum number of sessions reached".to_owned()),
        );
    }
    let path = match find_binary_option(body) {
        Some(v) => v.as_str(),
        None => None,
    };
    match path {
        Some(p) => Ok(p.to_owned()),
        None => Err(
            W3cError::session_not_created(
                "Missing tauri:options.binary (or application) in capabilities".to_owned(),
            ),
        ),
    }
}

/// The error for an application that could not be launched.
pub open spec fn launch_error(binary: Seq<char>, reason: Seq<char>) -> W3cErrorView {
    session_error("Failed to launch "@ + binary + ": "@ + reason)
}

/// The error for an application that could not be started.
pub fn launch_failed(binary: &str, reason: &str) -> (r: W3cError)
    ensures
        r@ == launch_error(binary@, reason@),
{
    let mut message = "Failed to launch ".to_owned();
    message.append(binary);
    message.append(": ");
    message.append(reason);
    W3cError::session_not_created(message)
}

/// The error for an application whose output cannot be read.
pub fn no_output() -> (r: W3cError)
    ensures
        r@ == session_error("Failed to capture app stdout"@),
{
    W3cError::session_not_created("Failed to capture app stdout".to_owned())
}

/// The line on which the plugin announces its port.
pub open spec fn port_line(port: u16) -> Seq<char> {
    PORT_LINE@ + decimal_text(port as nat)
}

/// The port that a line of the application's output announces, if it announces one.
pub open spec fn announced_port(line: Seq<char>) -> Option<u16> {
    if matches_at(line, PORT_LINE@, 0) {
        u16_value(trimmed(line.skip(PORT_LINE@.len() as int)))
    } else {
        None
    }
}

/// Writes the line on which the plugin announces its port.
pub fn announce_port(port: u16) -> (r: String)
    ensures
        r@ == port_line(port),
{
    let mut line = PORT_LINE.to_owned();
    line.append(decimal(port as u64).as_str());
    line
}

/// Reads the port that a line of the application's output announces.
pub fn read_port(line: &str) -> (r: Option<u16>)
    ensures
        r == announced_port(line@),
{
    match strip_prefix(line, PORT_LINE) {
        Some(rest) => {
            assert(line@.subrange(0, PORT_LINE@.len() as int) =~= PORT_LINE@);
            assert(line@.skip(PORT_LINE@.len() as int) =~= rest@);
            parse_u16(trim(rest.as_str()).as_str())
        },
        None => None,
    }
}

/// What comes of waiting for the application's next line of output.
pub enum AppOutput {
    Line(String),
    End,
    Failed(String),
    Deadline,
}

/// What to do after it: wait on, use the port, or give up.
pub enum Launch {
    Wait,
    Ready(u16),
    Refused(W3cError),
}

/// Whether `r` is the right reaction to `output`.
pub open spec fn reacts(output: AppOutput, r: Launch) -> bool {
    match output {
        AppOutput::Line(line) => match announced_port(line@) {
            Some(port) => r == Launch::Ready(port),
            None => r is Wait,
        },
        AppOutput::Failed(reason) => r matches Launch::Refused(e) && e@ == session_error(
            "IO error reading app stdout: "@ + reason@,
        ),
        _ => r matches Launch::Refused(e) && e@ == session_error(
            "App did not report plugin port in time"@,
        ),
    }
}

/// Watches the application's output for the port of its plugin.
pub fn watch_output(output: &AppOutput) -> (r: Launch)
    ensures
        reacts(*output, r),
{
    match output {
        AppOutput::Line(line) => match read_port(line.as_str()) {
            Some(port) => Launch::Ready(port),
            None => Launch::Wait,
        },
        AppOutput::Failed(reason) => {
            let mut message = "IO error reading app stdout: ".to_owned();
            message.append(reason.as_str());
            Launch::Refused(W3cError::session_not_created(message))
        },
        _ => Launch::Refused(
            W3cError::session_not_created("App did not report plugin port in time".to_owned()),
        ),
    }
}

/// Where a plugin listens.
pub open spec fn plugin_url(port: u16) -> Seq<char> {
    "http://127.0.0.1:"@ + decimal_text(port as nat)
}

/// The body of the reply to the request that opened a session.
pub open spec fn session_body(id: Seq<char>, binary: Seq<char>) -> JsonView {
    value_body(
        object("sessionId"@, JsonView::Str(id)).with(
            "capabilities"@,
            object("browserName"@, JsonView::Str("tauri"@)).with(
                "platformName"@,
                JsonView::Str("mac"@),
            ).with("tauri:options"@, object("binary"@, JsonView::Str(binary))),
        ),
    )
}

/// The sessions with one more, which talks to the plugin on a port.
pub open spec fn with_session(s: StateView, id: Seq<char>, port: u16) -> StateView {
    StateView { sessions: s.sessions.insert(id, fresh_session(plugin_url(port))), ..s }
}

/// Opens a session under a given id with the plugin that listens on `port`, and answers the
/// body of the reply.
pub fn open_session_as(state: &mut AppState, id: &str, binary: &str, port: u16) -> (r: Json)
    requires
        old(state).wf(),
        old(state)@.accepts(),
    ensures
        final(state).wf(),
        final(state)@ == with_session(old(state)@, id@, port),
        r@ == session_body(id@, binary@),
{
    let mut url = "http://127.0.0.1:".to_owned();
    url.append(decimal(port as u64).as_str());
    let session = Session::new(url);
    let ghost before = *state;
    proof {
        before.lemma_count();
    }
    state.sessions.insert(id.to_owned(), session);
    proof {
        assert(state@.sessions =~= before@.sessions.insert(id@, session@));
        state.sessions.lemma_size();
        assert(state.sessions.map().dom() =~= before.sessions.map().dom().insert(id@));
        before.sessions.lemma_size();
    }
    let options = object_1("binary", text_value(binary));
    let capabilities = object_1("browserName", text_value("tauri"));
    let capabilities = with_member(capabilities, "platformName", text_value("mac"));
    let capabilities = with_member(capabilities, "tauri:options", options);
    w3c_value(with_member(object_1("sessionId", text_value(id)), "capabilities", capabilities))
}

/// Opens a session under a random id and answers the id and the body of the reply.
pub fn open_session(state: &mut AppState, binary: &str, port: u16) -> (r: (String, Json))
    requires
        old(state).wf(),
        old(state)@.accepts(),
    ensures
        final(state).wf(),
        is_uuid(r.0@),
        final(state)@ == with_session(old(state)@, r.0@, port),
        r.1@ == session_body(r.0@, binary@),
{
    let id = new_uuid();
    let body = open_session_as(state, id.as_str(), binary, port);
    (id, body)
}

/// What to do while a session is being opened: wait for more output of its application, reply
/// that the session is open, or give up.
pub enum Opening {
    Wait,
    Opened { id: String, body: Json },
    Refused(W3cError),
}

/// Whether `r` is the right reaction to `output` while a session with the application `binary`
/// is being opened, and `after` the right state. The session is opened with the port that the
/// application announces, and with nothing else.
pub open spec fn opens(
    before: StateView,
    binary: Seq<char>,
    output: AppOutput,
    r: Opening,
    after: StateView,
) -> bool {
    match r {
        Opening::Wait => reacts(output, Launch::Wait) && after == before,
        Opening::Refused(e) => reacts(output, Launch::Refused(e)) && after == before,
        Opening::Opened { id, body } => {
            &&& output is Line
            &&& announced_port(output->Line_0@) is Some
            &&& is_uuid(id@)
            &&& body@ == session_body(id@, binary)
            &&& after == with_session(before, id@, announced_port(output->Line_0@)->0)
        },
    }
}

/// Goes on with opening a session after some output of its application.
pub fn go_on_opening(state: &mut AppState, binary: &str, output: &AppOutput) -> (r: Opening)
    requires
        old(state).wf(),
        old(state)@.accepts(),
    ensures
        final(state).wf(),
        opens(old(state)@, binary@, *output, r, final(state)@),
{
    match watch_output(output) {
        Launch::Wait => Opening::Wait,
        Launch::Refused(e) => Opening::Refused(e),
        Launch::Ready(port) => {
            let (id, body) = open_session(state, binary, port);
            Opening::Opened { id, body }
        },
    }
}

/// The sessions without one.
pub open spec fn without_session(s: StateView, sid: Seq<char>) -> StateView {
    StateView { sessions: s.sessions.remove(sid), ..s }
}

/// The reply to a request on the session that an id names, where it is open.
pub open spec fn session_reply(s: StateView, sid: Seq<char>, body: JsonView) -> Result<
    JsonView,
    W3cErrorView,
> {
    if s.sessions.contains_key(sid) {
        Ok(body)
    } else {
        Err(no_session_error())
    }
}

/// Closes a session.
pub fn delete_session(state: &mut AppState, sid: &str) -> (r: Result<Json, W3cError>)
    requires
        old(state).wf(),
    ensures
        final(state).wf(),
        final(state)@ == without_session(old(state)@, sid@),
        result_view(r) == session_reply(old(state)@, sid@, value_body(JsonView::Null)),
{
    let ghost before = *state;
    proof {
        before.sessions.lemma_size();
    }
    let removed = state.sessions.remove(sid);
    proof {
        assert(state@.sessions =~= before@.sessions.remove(sid@));
        state.sessions.lemma_size();
        assert(state.sessions.map().dom() =~= before.sessions.map().dom().remove(sid@));
    }
    match removed {
        Some(_) => Ok(w3c_value(Json::Null)),
        None => Err(W3cError::no_session()),
    }
}

/// Closes every session.
pub fn clear_sessions(state: &mut AppState)
    requires
        old(state).wf(),
    ensures
        final(state).wf(),
        final(state)@ == (StateView { sessions: Map::empty(), ..old(state)@ }),
{
    state.sessions = Table::new();
    assert(state@.sessions =~= Map::<Seq<char>, SessionView>::empty());
}

/// The body of the reply that reports timeouts.
pub open spec fn timeouts_body(t: Timeouts) -> JsonView {
    value_body(
        object("script"@, JsonView::Unsigned(t.script)).with(
            "pageLoad"@,
            JsonView::Unsigned(t.page_load),
        ).with("implicit"@, JsonView::Unsigned(t.implicit)),
    )
}

/// The timeouts once those that a request gives have been set.
pub open spec fn updated_timeouts(t: Timeouts, body: JsonView) -> Timeouts {
    Timeouts {
        script: body.get_u64_or("script"@, t.script),
        page_load: body.get_u64_or("pageLoad"@, t.page_load),
        implicit: body.get_u64_or("implicit"@, t.implicit),
    }
}

/// Reports the timeouts of a session.
pub fn get_timeouts(state: &AppState, sid: &str) -> (r: Result<Json, W3cError>)
    requires
        state.wf(),
    ensures
        result_view(r) == session_reply(
            state@,
            sid@,
            timeouts_body(state@.sessions[sid@].timeouts),
        ),
{
    match state.get_session(sid) {
        Ok(session) => {
            let t = object_1("script", Json::Unsigned(session.timeouts.script));
            let t = with_member(t, "pageLoad", Json::Unsigned(session.timeouts.page_load));
            let t = with_member(t, "implicit", Json::Unsigned(session.timeouts.implicit));
            Ok(w3c_value(t))
        },
        Err(e) => Err(e),
    }
}

/// The server once the timeouts that a request gives have been set.
pub open spec fn with_timeouts(s: StateView, sid: Seq<char>, body: JsonView) -> StateView {
    if s.sessions.contains_key(sid) {
        StateView {
            sessions: s.sessions.insert(
                sid,
                SessionView {
                    timeouts: updated_timeouts(s.sessions[sid].timeouts, body),
                    ..s.sessions[sid]
                },
            ),
            ..s
        }
    } else {
        s
    }
}

/// Sets the timeouts that a request gives and leaves the others.
pub fn set_timeouts(state: &mut AppState, sid: &str, body: &Json) -> (r: Result<Json, W3cError>)
    requires
        old(state).wf(),
    ensures
        final(state).wf(),
        final(state)@ == with_timeouts(old(state)@, sid@, body@),
        result_view(r) == session_reply(old(state)@, sid@, value_body(JsonView::Null)),
{
    match state.get_session_mut(sid) {
        Ok(session) => {
            session.timeouts = Timeouts {
                script: body.get_u64_or("script", session.timeouts.script),
                page_load: body.get_u64_or("pageLoad", session.timeouts.page_load),
                implicit: body.get_u64_or("implicit", session.timeouts.implicit),
            };
            Ok(w3c_value(Json::Null))
        },
        Err(e) => Err(e),
    }
}

} // verus!
