//! Opening, closing and configuring sessions.

use crate::driver::answer::resumes;
use crate::driver::error::{session_error, W3cErrorView};
use crate::driver::session::{fresh_session, Timeouts};
use crate::driver::state::{
    announced_port, opens, plugin_url, port_line, session_request, timeouts_body, updated_timeouts,
    with_timeouts, AppOutput, Opening, StateView, PORT_LINE,
};
use crate::driver::step::{OutcomeView, StepView, ThenView};
use crate::laws::members::{lemma_one_member, lemma_with_member};
use crate::text::{
    decimal_text, is_white_space, law_decimal_reads_back, matches_at, trimmed, unsigned_part,
};
use crate::value::{object, JsonView};
use vstd::prelude::*;

verus! {

/// The driver reads from the plugin's announcement the port that the plugin announced.
pub proof fn law_announced_port_is_read(port: u16)
    ensures
        announced_port(port_line(port)) == Some(port),
{
    let digits = decimal_text(port as nat);
    let line = port_line(port);
    law_decimal_reads_back(port as nat);
    assert(line.subrange(0, PORT_LINE@.len() as int) =~= PORT_LINE@);
    assert(matches_at(line, PORT_LINE@, 0));
    assert(line.skip(PORT_LINE@.len() as int) =~= digits);
    assert('0' <= digits[0] <= '9');
    assert('0' <= digits[digits.len() - 1] <= '9');
    assert(!is_white_space(digits[0]));
    assert(!is_white_space(digits.last()));
    assert(trimmed(digits) == digits);
    assert(unsigned_part(digits) == digits);
}

/// A session is opened as soon as the application announces the port of its plugin, and talks to
/// the plugin on that port.
pub proof fn law_announcement_opens_the_session(
    before: StateView,
    binary: Seq<char>,
    line: String,
    port: u16,
    r: Opening,
    after: StateView,
)
    requires
        line@ == port_line(port),
        opens(before, binary, AppOutput::Line(line), r, after),
    ensures
        r is Opened,
        after.sessions.contains_key(r->id@),
        after.sessions[r->id@] == fresh_session(plugin_url(port)),
{
    law_announced_port_is_read(port);
}

/// Timeouts that were set are reported, those that a request leaves out stay as they were, and
/// setting the same twice is setting it once.
pub proof fn law_timeouts_are_kept(t: Timeouts, body: JsonView)
    ensures
        body.get_u64("script"@) matches Some(n) ==> updated_timeouts(t, body).script == n,
        body.get_u64("script"@) is None ==> updated_timeouts(t, body).script == t.script,
        body.get_u64("pageLoad"@) matches Some(n) ==> updated_timeouts(t, body).page_load == n,
        body.get_u64("pageLoad"@) is None ==> updated_timeouts(t, body).page_load
            == t.page_load,
        body.get_u64("implicit"@) matches Some(n) ==> updated_timeouts(t, body).implicit == n,
        body.get_u64("implicit"@) is None ==> updated_timeouts(t, body).implicit == t.implicit,
        updated_timeouts(updated_timeouts(t, body), body) == updated_timeouts(t, body),
{
}

/// The timeouts that a session reports can be sent back, and set the timeouts to what was
/// reported.
pub proof fn law_reported_timeouts_can_be_set(t: Timeouts, other: Timeouts)
    ensures
        timeouts_body(t).get("value"@) matches Some(report) && updated_timeouts(other, report)
            == t,
{
    reveal_strlit("script");
    reveal_strlit("pageLoad");
    reveal_strlit("implicit");
    assert("pageLoad"@[0] == 'p');
    assert("implicit"@[0] == 'i');
    let script = JsonView::Unsigned(t.script);
    let page_load = JsonView::Unsigned(t.page_load);
    let implicit = JsonView::Unsigned(t.implicit);
    let one = object("script"@, script);
    let two = one.with("pageLoad"@, page_load);
    let three = two.with("implicit"@, implicit);
    lemma_one_member("value"@, three, "value"@);
    lemma_one_member("script"@, script, "script"@);
    lemma_one_member("script"@, script, "pageLoad"@);
    lemma_one_member("script"@, script, "implicit"@);
    lemma_with_member(one, "pageLoad"@, page_load, "script"@);
    lemma_with_member(one, "pageLoad"@, page_load, "pageLoad"@);
    lemma_with_member(one, "pageLoad"@, page_load, "implicit"@);
    lemma_with_member(two, "implicit"@, implicit, "script"@);
    lemma_with_member(two, "implicit"@, implicit, "pageLoad"@);
    lemma_with_member(two, "implicit"@, implicit, "implicit"@);
}

/// The server says that it is ready exactly when a request for a session is not refused for the
/// number of sessions.
pub proof fn law_ready_means_room(s: StateView, body: JsonView)
    ensures
        s.accepts() <==> session_request(s, body) != Err::<Seq<char>, W3cErrorView>(
            session_error("Maximum number of sessions reached"@),
        ),
{
    reveal_strlit("Maximum number of sessions reached");
    reveal_strlit("Missing tauri:options.binary (or application) in capabilities");
    assert("Maximum number of sessions reached"@.len()
        != "Missing tauri:options.binary (or application) in capabilities"@.len());
}

/// A session that was opened knows nothing yet, is the only one that changed, and is gone once
/// it is closed, which leaves the server as it was before.
pub proof fn law_closing_undoes_opening(s: StateView, id: Seq<char>, port: u16)
    requires
        !s.sessions.contains_key(id),
    ensures
        ({
            let opened = s.sessions.insert(id, fresh_session(plugin_url(port)));
            &&& opened.contains_key(id)
            &&& opened[id] == fresh_session(plugin_url(port))
            &&& !opened.remove(id).contains_key(id)
            &&& opened.remove(id) == s.sessions
        }),
{
    let opened = s.sessions.insert(id, fresh_session(plugin_url(port)));
    assert(opened.remove(id) =~= s.sessions);
}

/// A command changes no session but its own, and opens and closes none.
pub proof fn law_sessions_are_apart(
    before: StateView,
    sid: Seq<char>,
    then: ThenView,
    o: OutcomeView,
    r: StepView,
    after: StateView,
    body: JsonView,
)
    requires
        resumes(before, sid, then, o, r, after),
    ensures
        after.sessions.dom() =~= before.sessions.dom(),
        forall|other: Seq<char>|
            other != sid && before.sessions.contains_key(other) ==> #[trigger]
            after.sessions[other] == before.sessions[other],
        with_timeouts(before, sid, body).sessions.dom() =~= before.sessions.dom(),
        forall|other: Seq<char>|
            other != sid && before.sessions.contains_key(other) ==> #[trigger] with_timeouts(
                before,
                sid,
                body,
            ).sessions[other] == before.sessions[other],
{
}

} // verus!
