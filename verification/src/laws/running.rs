//! How the plugin runs scripts, and where.

use crate::document::document;
use crate::laws::members::{lemma_one_member, lemma_with_member};
use crate::laws::texts::{agree_but_for, lemma_laid_push, lemma_part, lemma_two_parts};
use crate::outside::json_quoted;
use crate::plugin::error::{api_error_body, ApiErrorView};
use crate::plugin::eval::{
    evaluated, final_script, EvaluationView, JobView, ReplyWithView, ScriptOutcomeView,
    ASYNC_CLOSE, ASYNC_FOURTH, ASYNC_OPEN, ASYNC_SECOND, ASYNC_THIRD, FRAMED_CLOSE,
    FRAMED_FOURTH, FRAMED_OPEN, FRAMED_SECOND, FRAMED_THIRD, RESOLVE_ARGS_JS, TOP_CLOSE, TOP_OPEN,
    TOP_SECOND, TOP_THIRD,
};
use crate::plugin::page::{async_execution, execution, run_script};
use crate::plugin::state::{
    after_close, after_close_request, after_leaving, after_switch_request, close_reply,
    enter_frame, enter_frames, frame_prefix, frames_after_switch, no_window, switch_reply,
    FrameView, ServerView, WindowOutcome, FRAME_CLOSE, FRAME_OPEN,
};
use crate::plugin::window::{
    changed_reply, handle_reply, label_values, new_window_reply, rect_change,
};
use crate::text::{contains_text, decimal_text, matches_at, replaced};
use crate::value::{object, JsonView};
use vstd::prelude::*;

verus! {

broadcast use lemma_laid_push;

/// A script whose result is the value that it returns is run as it is, in one place of what the
/// webview runs; the id of its result stands there twice, for a value and for an error. Both are
/// the same for all others but for that.
pub proof fn law_wrapped_script_is_run(
    frames: Seq<FrameView>,
    script: Seq<char>,
    other: Seq<char>,
    id: Seq<char>,
    other_id: Seq<char>,
)
    ensures
        agree_but_for(
            1,
            final_script(frames, JobView::Wrapped(script), id),
            script,
            final_script(frames, JobView::Wrapped(other), id),
            other,
        ),
        agree_but_for(
            2,
            final_script(frames, JobView::Wrapped(script), id),
            id,
            final_script(frames, JobView::Wrapped(script), other_id),
            other_id,
        ),
{
    if frames.len() > 0 {
        let prefix = frame_prefix(frames);
        let own = seq![FRAMED_OPEN@].push(prefix).push(FRAMED_SECOND@).push(script)
            .push(FRAMED_THIRD@).push(id).push(FRAMED_FOURTH@).push(id).push(FRAMED_CLOSE@);
        lemma_part(
            own,
            seq![FRAMED_OPEN@].push(prefix).push(FRAMED_SECOND@).push(other).push(FRAMED_THIRD@)
                .push(id).push(FRAMED_FOURTH@).push(id).push(FRAMED_CLOSE@),
            3,
        );
        lemma_two_parts(
            own,
            seq![FRAMED_OPEN@].push(prefix).push(FRAMED_SECOND@).push(script).push(FRAMED_THIRD@)
                .push(other_id).push(FRAMED_FOURTH@).push(other_id).push(FRAMED_CLOSE@),
            5,
            7,
        );
    } else {
        let own = seq![TOP_OPEN@].push(script).push(TOP_SECOND@).push(id).push(TOP_THIRD@).push(id)
            .push(TOP_CLOSE@);
        lemma_part(
            own,
            seq![TOP_OPEN@].push(other).push(TOP_SECOND@).push(id).push(TOP_THIRD@).push(id)
                .push(TOP_CLOSE@),
            1,
        );
        lemma_two_parts(
            own,
            seq![TOP_OPEN@].push(script).push(TOP_SECOND@).push(other_id).push(TOP_THIRD@)
                .push(other_id).push(TOP_CLOSE@),
            3,
            5,
        );
    }
}

/// A script that is given a function to report with is run as it is, with its arguments as they
/// are, each in one place of what the webview runs; the id of its result stands there twice. All
/// are the same for all others but for that, and the frames do not matter.
pub proof fn law_async_script_is_run(
    frames: Seq<FrameView>,
    other_frames: Seq<FrameView>,
    args: Seq<char>,
    other_args: Seq<char>,
    script: Seq<char>,
    other: Seq<char>,
    id: Seq<char>,
    other_id: Seq<char>,
)
    ensures
        ({
            let own = final_script(frames, JobView::Async { args, script }, id);
            &&& agree_but_for(
                1,
                own,
                args,
                final_script(frames, JobView::Async { args: other_args, script }, id),
                other_args,
            )
            &&& agree_but_for(
                1,
                own,
                script,
                final_script(frames, JobView::Async { args, script: other }, id),
                other,
            )
            &&& agree_but_for(
                2,
                own,
                id,
                final_script(frames, JobView::Async { args, script }, other_id),
                other_id,
            )
            &&& own == final_script(other_frames, JobView::Async { args, script }, id)
        }),
{
    let open = "(function(){"@;
    let own = seq![open].push(RESOLVE_ARGS_JS@).push(ASYNC_OPEN@).push(args).push(ASYNC_SECOND@)
        .push(id).push(ASYNC_THIRD@).push(script).push(ASYNC_FOURTH@).push(id).push(ASYNC_CLOSE@);
    lemma_part(
        own,
        seq![open].push(RESOLVE_ARGS_JS@).push(ASYNC_OPEN@).push(other_args).push(ASYNC_SECOND@)
            .push(id).push(ASYNC_THIRD@).push(script).push(ASYNC_FOURTH@).push(id)
            .push(ASYNC_CLOSE@),
        3,
    );
    lemma_part(
        own,
        seq![open].push(RESOLVE_ARGS_JS@).push(ASYNC_OPEN@).push(args).push(ASYNC_SECOND@).push(id)
            .push(ASYNC_THIRD@).push(other).push(ASYNC_FOURTH@).push(id).push(ASYNC_CLOSE@),
        7,
    );
    lemma_two_parts(
        own,
        seq![open].push(RESOLVE_ARGS_JS@).push(ASYNC_OPEN@).push(args).push(ASYNC_SECOND@)
            .push(other_id).push(ASYNC_THIRD@).push(script).push(ASYNC_FOURTH@).push(other_id)
            .push(ASYNC_CLOSE@),
        5,
        9,
    );
}

proof fn lemma_nothing_replaced(s: Seq<char>, pattern: Seq<char>, with: Seq<char>)
    requires
        !contains_text(s, pattern),
    ensures
        replaced(s, pattern, with) == s,
    decreases s.len(),
{
    if s.len() > 0 && pattern.len() > 0 {
        let rest = s.skip(1);
        assert(!matches_at(s, pattern, 0));
        assert forall|i: int| !matches_at(rest, pattern, i) by {
            if matches_at(rest, pattern, i) {
                assert(s.subrange(i + 1, i + 1 + pattern.len()) =~= rest.subrange(
                    i,
                    i + pattern.len(),
                ));
                assert(matches_at(s, pattern, i + 1));
            }
        }
        lemma_nothing_replaced(rest, pattern, with);
        assert(seq![s[0]] + rest =~= s);
    }
}

proof fn lemma_first_replaced(
    before: Seq<char>,
    pattern: Seq<char>,
    with: Seq<char>,
    after: Seq<char>,
)
    requires
        pattern.len() > 0,
        forall|i: int|
            0 <= i < before.len() ==> !#[trigger] matches_at(before + pattern + after, pattern, i),
    ensures
        replaced(before + pattern + after, pattern, with) == before + with + replaced(
            after,
            pattern,
            with,
        ),
    decreases before.len(),
{
    let all = before + pattern + after;
    let end = replaced(after, pattern, with);
    if before.len() == 0 {
        assert(all.subrange(0, pattern.len() as int) =~= pattern);
        assert(matches_at(all, pattern, 0));
        assert(all.skip(pattern.len() as int) =~= after);
        assert(before + with + end =~= with + end);
    } else {
        let rest = before.skip(1);
        let below = rest + pattern + after;
        assert(all.skip(1) =~= below);
        assert forall|i: int| 0 <= i < rest.len() implies !#[trigger] matches_at(
            below,
            pattern,
            i,
        ) by {
            assert(!matches_at(all, pattern, i + 1));
            if matches_at(below, pattern, i) {
                assert(below.subrange(i, i + pattern.len()) =~= all.subrange(
                    i + 1,
                    i + 1 + pattern.len(),
                ));
            }
        }
        lemma_first_replaced(rest, pattern, with, after);
        assert(!matches_at(all, pattern, 0));
        assert(replaced(all, pattern, with) == seq![before[0]] + (rest + with + end));
        assert(seq![before[0]] + (rest + with + end) =~= before + with + end);
    }
}

/// Replacing changes nothing where there is nothing to replace. Otherwise what stands before the
/// first place stays, the new text takes that place, and all behind it is replaced in the same
/// way.
pub proof fn law_replacing_goes_from_place_to_place(
    before: Seq<char>,
    pattern: Seq<char>,
    with: Seq<char>,
    after: Seq<char>,
)
    requires
        pattern.len() > 0,
    ensures
        !contains_text(before, pattern) ==> replaced(before, pattern, with) == before,
        (forall|i: int|
            0 <= i < before.len() ==> !#[trigger] matches_at(before + pattern + after, pattern, i))
            ==> replaced(before + pattern + after, pattern, with) == before + with + replaced(
            after,
            pattern,
            with,
        ),
{
    if !contains_text(before, pattern) {
        lemma_nothing_replaced(before, pattern, with);
    }
    if forall|i: int|
        0 <= i < before.len() ==> !#[trigger] matches_at(before + pattern + after, pattern, i) {
        lemma_first_replaced(before, pattern, with, after);
    }
}

/// A script that reports its result itself is run as it is, with the id in every place that is
/// kept for it; the frames do not matter.
pub proof fn law_reporting_script_is_run(
    frames: Seq<FrameView>,
    before: Seq<char>,
    after: Seq<char>,
    id: Seq<char>,
)
    ensures
        !contains_text(before, "__CALLBACK_ID__"@) ==> final_script(
            frames,
            JobView::Callback(before),
            id,
        ) == before,
        (forall|i: int|
            0 <= i < before.len() ==> !#[trigger] matches_at(
                before + "__CALLBACK_ID__"@ + after,
                "__CALLBACK_ID__"@,
                i,
            )) ==> final_script(
            frames,
            JobView::Callback(before + "__CALLBACK_ID__"@ + after),
            id,
        ) == before + id + final_script(frames, JobView::Callback(after), id),
{
    reveal_strlit("__CALLBACK_ID__");
    assert("__CALLBACK_ID__"@.len() == 15);
    law_replacing_goes_from_place_to_place(before, "__CALLBACK_ID__"@, id, after);
}

/// Inside frames a script is run behind the steps into each of them, from the outermost to the
/// innermost; at the top level there are none.
pub proof fn law_frames_are_entered_in_order(frames: Seq<FrameView>, f: FrameView)
    ensures
        frame_prefix(seq![]) == Seq::<char>::empty(),
        frames.len() > 0 ==> frame_prefix(frames.push(f)) == frame_prefix(frames) + enter_frame(f),
        frame_prefix(seq![f]) == "var __doc=document;"@ + enter_frame(f),
{
    reveal_with_fuel(enter_frames, 2);
    let none: Seq<FrameView> = seq![];
    assert(frames.push(f).drop_last() =~= frames);
    assert(seq![f].drop_last() =~= none);
}

/// The step into a frame holds its selector as a text and its place, each in one place, and is
/// the same for all others but for them. What the webview runs inside frames holds all steps as
/// they are.
pub proof fn law_frame_is_what_is_entered(
    one: FrameView,
    other: FrameView,
    frames: Seq<FrameView>,
    other_frames: Seq<FrameView>,
    script: Seq<char>,
    id: Seq<char>,
)
    ensures
        one.index == other.index ==> agree_but_for(
            1,
            enter_frame(one),
            json_quoted(one.selector),
            enter_frame(other),
            json_quoted(other.selector),
        ),
        one.selector == other.selector ==> agree_but_for(
            1,
            enter_frame(one),
            decimal_text(one.index as nat),
            enter_frame(other),
            decimal_text(other.index as nat),
        ),
        frames.len() > 0 && other_frames.len() > 0 ==> agree_but_for(
            1,
            final_script(frames, JobView::Wrapped(script), id),
            frame_prefix(frames),
            final_script(other_frames, JobView::Wrapped(script), id),
            frame_prefix(other_frames),
        ),
{
    let qa = json_quoted(one.selector);
    let qb = json_quoted(other.selector);
    let di = decimal_text(one.index as nat);
    let dj = decimal_text(other.index as nat);
    if one.index == other.index {
        lemma_part(
            seq![FRAME_OPEN@].push(qa).push(")["@).push(di).push(FRAME_CLOSE@),
            seq![FRAME_OPEN@].push(qb).push(")["@).push(dj).push(FRAME_CLOSE@),
            1,
        );
    }
    if one.selector == other.selector {
        lemma_part(
            seq![FRAME_OPEN@].push(qa).push(")["@).push(di).push(FRAME_CLOSE@),
            seq![FRAME_OPEN@].push(qb).push(")["@).push(dj).push(FRAME_CLOSE@),
            3,
        );
    }
    if frames.len() > 0 && other_frames.len() > 0 {
        lemma_part(
            seq![FRAMED_OPEN@].push(frame_prefix(frames)).push(FRAMED_SECOND@).push(script)
                .push(FRAMED_THIRD@).push(id).push(FRAMED_FOURTH@).push(id).push(FRAMED_CLOSE@),
            seq![FRAMED_OPEN@].push(frame_prefix(other_frames)).push(FRAMED_SECOND@).push(script)
                .push(FRAMED_THIRD@).push(id).push(FRAMED_FOURTH@).push(id).push(FRAMED_CLOSE@),
            1,
        );
    }
}

/// A value that does not say both an error and a message is what the script returned: it is
/// replied as it is, as the one member of an object, or not at all, as the request has it. One
/// that says both is an error with that message.
pub proof fn law_results_are_told_apart(job: JobView, v: JsonView, key: Seq<char>)
    ensures
        ({
            let result = |how: ReplyWithView|
                evaluated(EvaluationView { job, how }, ScriptOutcomeView::Value(v));
            &&& v.get("error"@) is None || v.get("message"@) is None ==> {
                &&& result(ReplyWithView::Whole) == Ok::<JsonView, ApiErrorView>(v)
                &&& result(ReplyWithView::Null) == Ok::<JsonView, ApiErrorView>(JsonView::Null)
                &&& result(ReplyWithView::Member(key)) matches Ok(r) && r is Object
                    && r->Object_0.len() == 1 && r.get(key) == Some(v)
            }
            &&& v.get("error"@) is Some && v.get("message"@) is Some ==> forall|how: ReplyWithView|
                #[trigger] evaluated(EvaluationView { job, how }, ScriptOutcomeView::Value(v))
                    == Err::<JsonView, ApiErrorView>(
                    ApiErrorView::Internal(
                        match v.get("message"@) {
                            Some(JsonView::Str(m)) => m,
                            _ => "script error"@,
                        },
                    ),
                )
        }),
{
    lemma_one_member(key, v, key);
}

/// A script without a window to run in, one that could not be run, and one whose result did not
/// come are errors, whatever would have been replied; each says what happened.
pub proof fn law_failures_are_told_apart(e: EvaluationView, why: Seq<char>)
    ensures
        evaluated(e, ScriptOutcomeView::NoWindow) == Err::<JsonView, ApiErrorView>(
            ApiErrorView::NotFound(
                if e.job is Async {
                    "no window"@
                } else {
                    "no such window"@
                },
            ),
        ),
        evaluated(e, ScriptOutcomeView::NotRun(why)) == Err::<JsonView, ApiErrorView>(
            ApiErrorView::Internal(why),
        ),
        evaluated(e, ScriptOutcomeView::Closed) == Err::<JsonView, ApiErrorView>(
            ApiErrorView::Internal("result channel closed"@),
        ),
        evaluated(e, ScriptOutcomeView::TimedOut) == Err::<JsonView, ApiErrorView>(
            ApiErrorView::Internal(
                match e.job {
                    JobView::Wrapped(_) => "script timed out"@,
                    JobView::Callback(_) => "screenshot timed out"@,
                    JobView::Async { .. } => "async script timed out"@,
                },
            ),
        ),
{
}

/// An error of the plugin is replied with the status of something that is not there or that
/// failed, and with its message as the one member of the body.
pub proof fn law_plugin_errors_have_their_form(m: Seq<char>)
    ensures
        ApiErrorView::NotFound(m).status() == 404,
        ApiErrorView::Internal(m).status() == 500,
        api_error_body(ApiErrorView::NotFound(m)).get("error"@) == Some(JsonView::Str(m)),
        api_error_body(ApiErrorView::Internal(m)).get("error"@) == Some(JsonView::Str(m)),
{
    lemma_one_member("error"@, JsonView::Str(m), "error"@);
}

/// Closing a window leaves all frames. The window that was switched to stays the current one,
/// unless it is the one that was closed: then none is.
pub proof fn law_closed_window_is_not_current(s: ServerView, label: Seq<char>)
    ensures
        after_close(s, label).frames.len() == 0,
        after_close(s, label).label != Some(label),
        s.label != Some(label) ==> after_close(s, label).label == s.label,
        s.label == Some(label) ==> after_close(s, label).label is None,
{
}

/// A window is closed, and forgotten, only where that was done; one that is not there is reported
/// by its label, and so is why it could not be closed.
pub proof fn law_closing_is_reported(s: ServerView, label: Seq<char>, outcome: WindowOutcome)
    ensures
        ({
            let after = after_close_request(s, label, outcome);
            let reply = close_reply(label, outcome);
            match outcome {
                WindowOutcome::Done => {
                    &&& reply == Ok::<JsonView, ApiErrorView>(JsonView::Bool(true))
                    &&& after.frames.len() == 0
                    &&& after.label == if s.label == Some(label) {
                        None
                    } else {
                        s.label
                    }
                },
                WindowOutcome::Failed(e) => {
                    &&& reply == Err::<JsonView, ApiErrorView>(ApiErrorView::Internal(e@))
                    &&& after == s
                },
                WindowOutcome::Missing => {
                    &&& reply == Err::<JsonView, ApiErrorView>(
                        ApiErrorView::NotFound("window '"@ + label + "' not found"@),
                    )
                    &&& after == s
                },
            }
        }),
{
}

/// A window that is there is the current one after a switch to it, at its top level; one that is
/// not there is reported by its label, and nothing changes.
pub proof fn law_window_is_switched_to(s: ServerView, label: Seq<char>)
    ensures
        after_switch_request(s, label, true).label == Some(label),
        after_switch_request(s, label, true).frames.len() == 0,
        switch_reply(label, true) == Ok::<JsonView, ApiErrorView>(JsonView::Bool(true)),
        after_switch_request(s, label, false) == s,
        switch_reply(label, false) == Err::<JsonView, ApiErrorView>(
            ApiErrorView::NotFound("window '"@ + label + "' not found"@),
        ),
{
}

/// A user's script is run with all its arguments, in their order, and its value is replied; the
/// arguments are given as the JSON text of their list, to a script that returns its value as to
/// one that calls back.
pub proof fn law_user_script_gets_its_arguments(args: Seq<JsonView>, script: Seq<char>)
    ensures
        execution(args, script).job == JobView::Wrapped(
            run_script(document(JsonView::Array(args)), script),
        ),
        execution(args, script).how == ReplyWithView::Member("value"@),
        async_execution(args, script).job == (JobView::Async {
            args: document(JsonView::Array(args)),
            script,
        }),
        async_execution(args, script).how == ReplyWithView::Member("value"@),
{
}

/// Leaving a frame leaves the innermost one and no other, and keeps the window; at the top level
/// nothing changes.
pub proof fn law_innermost_frame_is_left(s: ServerView, f: FrameView)
    ensures
        after_leaving(ServerView { frames: s.frames.push(f), ..s }) == s,
        s.frames.len() == 0 ==> after_leaving(s) == s,
        after_leaving(s).label == s.label,
{
    assert(s.frames.push(f).drop_last() =~= s.frames);
}

/// A frame is entered behind those that were entered before: the one with a number, or the one
/// that an element with a selector and a place names, the first place where none is given. Null
/// leaves all frames. Nothing else names a frame.
pub proof fn law_frames_are_switched_to(frames: Seq<FrameView>, id: JsonView)
    ensures
        ({
            let after = frames_after_switch(frames, id);
            &&& id is Null ==> (after matches Ok(l) && l.len() == 0)
            &&& id matches JsonView::Unsigned(n) ==> n <= usize::MAX ==> after == Ok::<
                Seq<FrameView>,
                ApiErrorView,
            >(frames.push(FrameView { selector: "iframe"@, index: n as usize }))
            &&& id is Object ==> match id.get("selector"@) {
                Some(JsonView::Str(selector)) => after matches Ok(l) && {
                    &&& l.len() == frames.len() + 1
                    &&& l.drop_last() == frames
                    &&& l.last().selector == selector
                    &&& id.get("index"@) matches Some(JsonView::Unsigned(n)) ==> n <= usize::MAX
                        ==> l.last().index == n
                    &&& id.get("index"@) is None ==> l.last().index == 0
                },
                _ => after == Err::<Seq<FrameView>, ApiErrorView>(
                    ApiErrorView::Internal("frame element missing selector"@),
                ),
            }
            &&& id !is Null && id !is Unsigned && id !is Object ==> after == Err::<
                Seq<FrameView>,
                ApiErrorView,
            >(ApiErrorView::Internal("invalid frame id"@))
        }),
{
    if let Ok(l) = frames_after_switch(frames, id) {
        if id is Object {
            assert(l.drop_last() =~= frames);
        }
    }
}

/// Windows are told by their labels, as they are: the current one, all of them in their order,
/// and a new one. A window that is not there is reported, by its label where the request named
/// it, and so is what failed.
pub proof fn law_windows_are_told_by_their_labels(
    label: Seq<char>,
    labels: Seq<Seq<char>>,
    i: int,
    why: Seq<char>,
    failed: WindowOutcome,
)
    ensures
        handle_reply(Some(label)) == Ok::<JsonView, ApiErrorView>(JsonView::Str(label)),
        handle_reply(None) == Err::<JsonView, ApiErrorView>(ApiErrorView::NotFound("no window"@)),
        label_values(labels).len() == labels.len(),
        0 <= i < labels.len() ==> label_values(labels)[i] == JsonView::Str(labels[i]),
        new_window_reply(label, None) matches Ok(r) && r.get("handle"@) == Some(
            JsonView::Str(label),
        ) && r.get("type"@) == Some(JsonView::Str("window"@)),
        new_window_reply(label, Some(why)) == Err::<JsonView, ApiErrorView>(
            ApiErrorView::Internal("failed to create window: "@ + why),
        ),
        no_window(label) == ApiErrorView::NotFound("window '"@ + label + "' not found"@),
        changed_reply(WindowOutcome::Done) == Ok::<JsonView, ApiErrorView>(JsonView::Bool(true)),
        changed_reply(WindowOutcome::Missing) == Err::<JsonView, ApiErrorView>(
            ApiErrorView::NotFound("no window"@),
        ),
        failed matches WindowOutcome::Failed(e) ==> changed_reply(failed) == Err::<
            JsonView,
            ApiErrorView,
        >(ApiErrorView::Internal(e@)),
{
    let handle = JsonView::Str(label);
    let kind = JsonView::Str("window"@);
    reveal_strlit("handle");
    reveal_strlit("type");
    assert("handle"@.len() == 6 && "type"@.len() == 4);
    lemma_one_member("handle"@, handle, "handle"@);
    lemma_one_member("handle"@, handle, "type"@);
    lemma_with_member(object("handle"@, handle), "type"@, kind, "handle"@);
    lemma_with_member(object("handle"@, handle), "type"@, kind, "type"@);
}

/// The place of a window changes only where both of its numbers are given, and so does its size;
/// one does not ask for the other.
pub proof fn law_place_and_size_are_apart(x: bool, y: bool, width: bool, height: bool)
    ensures
        rect_change(x, y, width, height).position <==> x && y,
        rect_change(x, y, width, height).size <==> width && height,
{
}

} // verus!
