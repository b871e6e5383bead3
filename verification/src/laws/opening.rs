//! Which application a request for a session launches.

use crate::driver::answer::{next_session, next_step, resumes, resumes_upload};
use crate::driver::error::W3cErrorView;
use crate::driver::request::{begin_step, first_step, RequestView};
use crate::driver::state::{
    announced_port, first_options, launch_error, opens, session_body, session_reply,
    session_request, status_body, status_message, with_session, with_timeouts, without_session,
    AppOutput, Opening, StateView, PORT_LINE,
};
use crate::driver::step::{OutcomeView, StepView, ThenView, UploadView};
use crate::laws::members::{lemma_one_member, lemma_with_member};
use crate::laws::replies::reports;
use crate::text::{
    decimal_text, is_white_space, law_decimal_reads_back, matches_at, trimmed, trimmed_end,
    trimmed_start, unsigned_part,
};
use crate::value::{object, JsonView};
use vstd::prelude::*;

verus! {

/// The options of the application that stand in the required capabilities.
pub open spec fn required(body: JsonView, options: JsonView) -> bool {
    body.get("capabilities"@) matches Some(caps) && caps.get("alwaysMatch"@) matches Some(always)
        && always.get("tauri:options"@) == Some(options)
}

/// The options of the application that stand in the first of the alternatives, which are a list,
/// or an object whose members are numbered.
pub open spec fn first_offered(body: JsonView, options: JsonView) -> bool {
    body.get("capabilities"@) matches Some(caps) && match caps.get("firstMatch"@) {
        Some(JsonView::Array(list)) => list.len() > 0 && list[0].get("tauri:options"@) == Some(
            options,
        ),
        Some(JsonView::Object(list)) => JsonView::Object(list).get("0"@) matches Some(first)
            && first.get("tauri:options"@) == Some(options),
        _ => false,
    }
}

/// Whether options name no application.
pub open spec fn silent(options: JsonView) -> bool {
    options.get("binary"@) is None && options.get("application"@) is None
}

/// A binary in the required capabilities is what is launched, whatever else the capabilities
/// hold, an application beside it and alternatives of either form among it; an application there
/// is what is launched where no binary is there.
pub proof fn law_required_application_is_launched(
    s: StateView,
    body: JsonView,
    options: JsonView,
    path: Seq<char>,
)
    requires
        s.accepts(),
        required(body, options),
        options.get("binary"@) == Some(JsonView::Str(path)) || (options.get("binary"@) is None
            && options.get("application"@) == Some(JsonView::Str(path))),
    ensures
        session_request(s, body) == Ok::<Seq<char>, W3cErrorView>(path),
{
}

/// Where the required capabilities name no application, the first alternative does, in the same
/// way; those behind it do not matter.
pub proof fn law_first_alternative_is_launched(
    s: StateView,
    body: JsonView,
    options: JsonView,
    path: Seq<char>,
)
    requires
        s.accepts(),
        forall|o: JsonView| #[trigger] required(body, o) ==> silent(o),
        first_offered(body, options),
        options.get("binary"@) == Some(JsonView::Str(path)) || (options.get("binary"@) is None
            && options.get("application"@) == Some(JsonView::Str(path))),
    ensures
        session_request(s, body) == Ok::<Seq<char>, W3cErrorView>(path),
{
    let caps = body.get("capabilities"@)->0;
    if let Some(always) = caps.get("alwaysMatch"@) {
        if let Some(o) = always.get("tauri:options"@) {
            assert(required(body, o));
        }
    }
}

/// Where neither names an application, or what should name it is no text, no session is created,
/// and the reason is given.
pub proof fn law_missing_application_is_refused(s: StateView, body: JsonView, options: JsonView)
    requires
        s.accepts(),
        ({
            ||| body.get("capabilities"@) is None
            ||| forall|o: JsonView|
                #![trigger required(body, o)]
                #![trigger first_offered(body, o)]
                (required(body, o) || first_offered(body, o)) ==> silent(o)
            ||| required(body, options) && options.get("binary"@) is Some && options.get(
                "binary"@,
            )->0 !is Str
            ||| required(body, options) && options.get("binary"@) is None && options.get(
                "application"@,
            ) is Some && options.get("application"@)->0 !is Str
        }),
    ensures
        session_request(s, body) == Err::<Seq<char>, W3cErrorView>(
            (W3cErrorView {
                status: 500,
                error: "session not created"@,
                message: "Missing tauri:options.binary (or application) in capabilities"@,
            }),
        ),
{
    if let Some(caps) = body.get("capabilities"@) {
        if let Some(always) = caps.get("alwaysMatch"@) {
            if let Some(o) = always.get("tauri:options"@) {
                assert(required(body, o));
            }
        }
        if let Some(o) = first_options(body) {
            assert(first_offered(body, o));
        }
    }
}

/// There is room exactly when fewer sessions are open than may be; where the limit is zero there
/// always is. Without room every request is refused.
pub proof fn law_room_is_limited(s: StateView, body: JsonView)
    ensures
        s.max_sessions == 0 ==> s.accepts(),
        s.max_sessions > 0 ==> (s.accepts() <==> s.sessions.dom().len() < s.max_sessions),
        !s.accepts() ==> session_request(s, body) == Err::<Seq<char>, W3cErrorView>(
            (W3cErrorView {
                status: 500,
                error: "session not created"@,
                message: "Maximum number of sessions reached"@,
            }),
        ),
{
}

/// A session that was opened talks to the plugin on this machine and on its port, knows no
/// element and no shadow root, and has the timeouts that sessions start with. No other session
/// and no limit changes.
pub proof fn law_new_session_is_fresh(s: StateView, id: Seq<char>, port: u16, other: Seq<char>)
    ensures
        ({
            let after = with_session(s, id, port);
            let own = after.sessions[id];
            &&& after.sessions.contains_key(id)
            &&& own.plugin_url == "http://127.0.0.1:"@ + decimal_text(port as nat)
            &&& own.elements.dom().is_empty()
            &&& own.shadows.dom().is_empty()
            &&& own.timeouts.script == 30000
            &&& own.timeouts.page_load == 300000
            &&& own.timeouts.implicit == 0
            &&& other != id ==> (after.sessions.contains_key(other) <==> s.sessions.contains_key(
                other,
            ))
            &&& other != id && s.sessions.contains_key(other) ==> after.sessions[other]
                == s.sessions[other]
            &&& after.max_sessions == s.max_sessions
        }),
{
    assert(with_session(s, id, port).sessions[id].elements.dom() =~= Set::<Seq<char>>::empty());
    assert(with_session(s, id, port).sessions[id].shadows.dom() =~= Set::<Seq<char>>::empty());
}

/// A session that was closed is gone, and no other is; closing one that is not open changes
/// nothing.
pub proof fn law_closed_session_is_gone(s: StateView, sid: Seq<char>, other: Seq<char>)
    ensures
        ({
            let after = without_session(s, sid);
            &&& !after.sessions.contains_key(sid)
            &&& other != sid ==> (after.sessions.contains_key(other) <==> s.sessions.contains_key(
                other,
            ))
            &&& other != sid && s.sessions.contains_key(other) ==> after.sessions[other]
                == s.sessions[other]
            &&& !s.sessions.contains_key(sid) ==> after == s
            &&& after.max_sessions == s.max_sessions
        }),
{
    if !s.sessions.contains_key(sid) {
        assert(without_session(s, sid).sessions =~= s.sessions);
    }
}

/// A request on a session that is not open is refused before anything else.
pub proof fn law_closed_session_is_refused(s: StateView, sid: Seq<char>, r: RequestView)
    ensures
        !s.sessions.contains_key(sid) ==> reports(
            begin_step(s, sid, r),
            404,
            "invalid session id"@,
            "No active session"@,
        ),
        s.sessions.contains_key(sid) ==> begin_step(s, sid, r) == first_step(s.sessions[sid], r),
{
}

/// Setting timeouts leaves all else of the session as it was, and every other session.
pub proof fn law_timeouts_change_nothing_else(s: StateView, sid: Seq<char>, body: JsonView)
    requires
        s.sessions.contains_key(sid),
    ensures
        ({
            let after = with_timeouts(s, sid, body);
            &&& after.sessions.contains_key(sid)
            &&& after.sessions[sid].elements == s.sessions[sid].elements
            &&& after.sessions[sid].shadows == s.sessions[sid].shadows
            &&& after.sessions[sid].plugin_url == s.sessions[sid].plugin_url
            &&& after.sessions.remove(sid) == s.sessions.remove(sid)
            &&& after.max_sessions == s.max_sessions
        }),
{
    assert(with_timeouts(s, sid, body).sessions.remove(sid) =~= s.sessions.remove(sid));
}

/// The reply to a request for a session names the session and the application that was launched,
/// under the names that clients look for.
pub proof fn law_opened_session_is_reported(id: Seq<char>, binary: Seq<char>)
    ensures
        session_body(id, binary).get("value"@) matches Some(report) && {
            &&& report.get("sessionId"@) == Some(JsonView::Str(id))
            &&& report.get("capabilities"@) matches Some(caps) && {
                &&& caps.get("browserName"@) == Some(JsonView::Str("tauri"@))
                &&& caps.get("platformName"@) == Some(JsonView::Str("mac"@))
                &&& caps.get("tauri:options"@) matches Some(options) && options.get("binary"@)
                    == Some(JsonView::Str(binary))
            }
        },
{
    let name = JsonView::Str("tauri"@);
    let platform = JsonView::Str("mac"@);
    let options = object("binary"@, JsonView::Str(binary));
    let one = object("browserName"@, name);
    let two = one.with("platformName"@, platform);
    let caps = two.with("tauri:options"@, options);
    let report = object("sessionId"@, JsonView::Str(id));
    reveal_strlit("browserName");
    reveal_strlit("platformName");
    reveal_strlit("tauri:options");
    reveal_strlit("sessionId");
    reveal_strlit("capabilities");
    assert("browserName"@.len() == 11 && "platformName"@.len() == 12);
    assert("tauri:options"@.len() == 13);
    assert("sessionId"@.len() == 9 && "capabilities"@.len() == 12);
    lemma_one_member("value"@, report.with("capabilities"@, caps), "value"@);
    lemma_one_member("sessionId"@, JsonView::Str(id), "sessionId"@);
    lemma_one_member("sessionId"@, JsonView::Str(id), "capabilities"@);
    lemma_with_member(report, "capabilities"@, caps, "sessionId"@);
    lemma_with_member(report, "capabilities"@, caps, "capabilities"@);
    lemma_one_member("browserName"@, name, "browserName"@);
    lemma_one_member("browserName"@, name, "platformName"@);
    lemma_one_member("browserName"@, name, "tauri:options"@);
    lemma_with_member(one, "platformName"@, platform, "browserName"@);
    lemma_with_member(one, "platformName"@, platform, "platformName"@);
    lemma_with_member(one, "platformName"@, platform, "tauri:options"@);
    lemma_with_member(two, "tauri:options"@, options, "browserName"@);
    lemma_with_member(two, "tauri:options"@, options, "platformName"@);
    lemma_with_member(two, "tauri:options"@, options, "tauri:options"@);
    lemma_one_member("binary"@, JsonView::Str(binary), "binary"@);
}

/// The status says that there is room exactly when there is, and how many sessions are open.
pub proof fn law_status_is_reported(s: StateView)
    ensures
        status_body(s).get("value"@) matches Some(report) && {
            let n = s.sessions.dom().len();
            &&& report.get("ready"@) == Some(
                JsonView::Bool(s.max_sessions == 0 || n < s.max_sessions),
            )
            &&& report.get("message"@) == Some(
                JsonView::Str(
                    if n == 0 {
                        "ready"@
                    } else {
                        decimal_text(n) + (if s.max_sessions == 0 || n < s.max_sessions {
                            " session(s) active, accepting more"@
                        } else {
                            " session(s) active, at capacity"@
                        })
                    },
                ),
            )
        },
{
    let ready = JsonView::Bool(s.accepts());
    let message = JsonView::Str(status_message(s));
    let one = object("ready"@, ready);
    reveal_strlit("ready");
    reveal_strlit("message");
    assert("ready"@.len() == 5 && "message"@.len() == 7);
    lemma_one_member("value"@, one.with("message"@, message), "value"@);
    lemma_one_member("ready"@, ready, "ready"@);
    lemma_one_member("ready"@, ready, "message"@);
    lemma_with_member(one, "message"@, message, "ready"@);
    lemma_with_member(one, "message"@, message, "message"@);
}

/// Whether a text is nothing but white space.
pub open spec fn is_blank(s: Seq<char>) -> bool {
    forall|i: int| 0 <= i < s.len() ==> is_white_space(#[trigger] s[i])
}

proof fn lemma_trimmed_start(pad: Seq<char>, s: Seq<char>)
    requires
        is_blank(pad),
        s.len() > 0 ==> !is_white_space(s[0]),
    ensures
        trimmed_start(pad + s) == s,
    decreases pad.len(),
{
    let all = pad + s;
    if pad.len() == 0 {
        assert(all =~= s);
    } else {
        assert(all[0] == pad[0]);
        assert(all.skip(1) =~= pad.skip(1) + s);
        lemma_trimmed_start(pad.skip(1), s);
    }
}

proof fn lemma_trimmed_end(s: Seq<char>, pad: Seq<char>)
    requires
        is_blank(pad),
        s.len() > 0 ==> !is_white_space(s.last()),
    ensures
        trimmed_end(s + pad) == s,
    decreases pad.len(),
{
    let all = s + pad;
    if pad.len() == 0 {
        assert(all =~= s);
    } else {
        assert(all.last() == pad.last());
        assert(all.drop_last() =~= s + pad.drop_last());
        lemma_trimmed_end(s, pad.drop_last());
    }
}

/// The driver reads the port from an announcement with white space around the number too, and
/// passes over every line that is no announcement: one that does not start as announcements do,
/// and one whose number is too large for a port or is missing.
pub proof fn law_announcements_are_read(
    before: Seq<char>,
    n: nat,
    after: Seq<char>,
    line: Seq<char>,
)
    requires
        is_blank(before),
        is_blank(after),
    ensures
        announced_port(PORT_LINE@ + before + decimal_text(n) + after) == (if n <= u16::MAX {
            Some(n as u16)
        } else {
            None
        }),
        announced_port(PORT_LINE@ + before) is None,
        !matches_at(line, PORT_LINE@, 0) ==> announced_port(line) is None,
{
    let digits = decimal_text(n);
    law_decimal_reads_back(n);
    assert('0' <= digits[0] <= '9');
    assert('0' <= digits[digits.len() - 1] <= '9');
    let rest = before + digits + after;
    let all = PORT_LINE@ + before + digits + after;
    assert(all.skip(PORT_LINE@.len() as int) =~= rest);
    assert(all.subrange(0, PORT_LINE@.len() as int) =~= PORT_LINE@);
    assert(matches_at(all, PORT_LINE@, 0));
    assert(rest =~= before + (digits + after));
    assert((digits + after)[0] == digits[0]);
    lemma_trimmed_start(before, digits + after);
    lemma_trimmed_end(digits, after);
    assert(trimmed(rest) == digits);
    assert(unsigned_part(digits) == digits);
    let bare = PORT_LINE@ + before;
    let none: Seq<char> = seq![];
    assert(bare.skip(PORT_LINE@.len() as int) =~= before);
    assert(before + none =~= before);
    lemma_trimmed_start(before, none);
    assert(trimmed(before) == none);
}

/// While a session is being opened the driver waits as long as lines come that announce no port.
/// It gives up, with a reason, where the output cannot be read or none comes in time. Neither
/// changes a session.
pub proof fn law_waiting_changes_nothing(
    before: StateView,
    binary: Seq<char>,
    output: AppOutput,
    r: Opening,
    after: StateView,
)
    requires
        opens(before, binary, output, r, after),
    ensures
        r is Opened <==> (output matches AppOutput::Line(line) && announced_port(line@) is Some),
        r is Wait <==> (output matches AppOutput::Line(line) && announced_port(line@) is None),
        r !is Opened ==> after == before,
        r matches Opening::Refused(e) ==> {
            &&& e@.status == 500
            &&& e@.error == "session not created"@
            &&& e@.message == match output {
                AppOutput::Failed(reason) => "IO error reading app stdout: "@ + reason@,
                _ => "App did not report plugin port in time"@,
            }
        },
{
}

/// A request to close a session, or to read or set its timeouts, is answered where the session is
/// open and refused where it is not.
pub proof fn law_only_open_sessions_reply(s: StateView, sid: Seq<char>, body: JsonView)
    ensures
        s.sessions.contains_key(sid) ==> session_reply(s, sid, body) == Ok::<
            JsonView,
            W3cErrorView,
        >(body),
        !s.sessions.contains_key(sid) ==> (session_reply(s, sid, body) matches Err(e) && {
            &&& e.status == 404
            &&& e.error == "invalid session id"@
            &&& e.message == "No active session"@
        }),
{
}

/// Why an application could not be launched is reported, with what should have been launched.
pub proof fn law_failed_launch_is_reported(binary: Seq<char>, reason: Seq<char>)
    ensures
        ({
            let e = launch_error(binary, reason);
            &&& e.status == 500
            &&& e.error == "session not created"@
            &&& e.message == "Failed to launch "@ + binary + ": "@ + reason
        }),
{
}

/// An answer, or a file, for a session that is not open is reported as such, and changes nothing;
/// one for an open session takes its next step.
pub proof fn law_answers_need_an_open_session(
    before: StateView,
    sid: Seq<char>,
    then: ThenView,
    o: OutcomeView,
    u: UploadView,
    data: Result<Seq<u8>, Seq<char>>,
    r: StepView,
    after: StateView,
)
    ensures
        !before.sessions.contains_key(sid) && resumes(before, sid, then, o, r, after) ==> reports(
            r,
            404,
            "invalid session id"@,
            "No active session"@,
        ) && after == before,
        !before.sessions.contains_key(sid) && resumes_upload(before, sid, u, data, r) ==> reports(
            r,
            404,
            "invalid session id"@,
            "No active session"@,
        ),
        before.sessions.contains_key(sid) && resumes(before, sid, then, o, r, after)
            ==> exists|fresh: Seq<Seq<char>>|
            {
                &&& r == #[trigger] next_step(before.sessions[sid], then, o, fresh)
                &&& after.sessions[sid] == next_session(before.sessions[sid], then, o, fresh)
                &&& after.max_sessions == before.max_sessions
            },
{
}

} // verus!
