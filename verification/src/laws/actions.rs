//! The ticks of input actions.

use crate::plugin::actions::{
    action_deed, action_script, action_steps, due, next_action, perform_steps, runs, tick_count,
    tick_of, tick_steps, ActionStepView, Deed, NextActionView,
};
use crate::plugin::error::ApiErrorView;
use crate::plugin::eval::quietly;
use crate::value::JsonView;
use vstd::prelude::*;

verus! {

/// Every action of every source is due in a tick that is performed.
pub proof fn law_every_action_is_performed(sources: Seq<JsonView>, n: nat, i: int, tick: nat)
    requires
        0 <= i < n <= sources.len(),
        due(sources[i], tick) is Some,
    ensures
        tick < tick_count(sources, n),
    decreases n,
{
    if i < n - 1 {
        law_every_action_is_performed(sources, (n - 1) as nat, i, tick);
    }
}

/// A tick waits as long as the longest of its pauses.
pub proof fn law_tick_keeps_its_longest_pause(sources: Seq<JsonView>, n: nat, tick: nat)
    requires
        n <= sources.len(),
    ensures
        forall|i: int|
            0 <= i < n && (due(#[trigger] sources[i], tick) matches Some(a) && action_deed(
                sources[i],
                a,
            ) == Deed::Pause) ==> due(sources[i], tick)->0.get_u64_or("duration"@, 0) <= tick_of(
                sources,
                n,
                tick,
            ).pause,
        tick_of(sources, n, tick).pause > 0 ==> exists|i: int|
            0 <= i < n && (due(#[trigger] sources[i], tick) matches Some(a) && action_deed(
                sources[i],
                a,
            ) == Deed::Pause && a.get_u64_or("duration"@, 0) == tick_of(
                sources,
                n,
                tick,
            ).pause),
    decreases n,
{
    if n > 0 {
        law_tick_keeps_its_longest_pause(sources, (n - 1) as nat, tick);
        let before = tick_of(sources, (n - 1) as nat, tick);
        let now = tick_of(sources, n, tick);
        if now.pause > 0 {
            if now.pause == before.pause {
                let i = choose|i: int|
                    0 <= i < n - 1 && (due(#[trigger] sources[i], tick) matches Some(a)
                        && action_deed(sources[i], a) == Deed::Pause && a.get_u64_or(
                        "duration"@,
                        0,
                    ) == before.pause);
                assert(due(sources[i], tick) is Some);
            } else {
                assert(due(sources[n - 1], tick) is Some);
            }
        }
    }
}

/// A tick runs a script exactly when one of its actions is more than a pause.
pub proof fn law_tick_runs_what_is_due(sources: Seq<JsonView>, n: nat, tick: nat)
    requires
        n <= sources.len(),
    ensures
        tick_of(sources, n, tick).runs <==> exists|i: int|
            0 <= i < n && (due(#[trigger] sources[i], tick) matches Some(a) && runs(
                action_deed(sources[i], a),
            )),
    decreases n,
{
    if n > 0 {
        law_tick_runs_what_is_due(sources, (n - 1) as nat, tick);
        if tick_of(sources, (n - 1) as nat, tick).runs {
            let i = choose|i: int|
                0 <= i < n - 1 && (due(#[trigger] sources[i], tick) matches Some(a) && runs(
                    action_deed(sources[i], a),
                ));
            assert(due(sources[i], tick) is Some);
        } else if tick_of(sources, n, tick).runs {
            assert(due(sources[n - 1], tick) is Some);
        }
    }
}

/// The script for what a source has for a tick: that of its action, or nothing where it has none.
pub open spec fn due_script(source: JsonView, tick: nat) -> Seq<char> {
    match due(source, tick) {
        Some(a) => action_script(action_deed(source, a), a),
        None => seq![],
    }
}

/// The actions of a source are due one after the other: the first in the first tick, and no other
/// in any tick.
pub proof fn law_actions_are_due_in_order(source: JsonView, list: Seq<JsonView>, tick: nat)
    requires
        source.get("actions"@) == Some(JsonView::Array(list)),
    ensures
        tick < list.len() ==> due(source, tick) == Some(list[tick as int]),
        tick >= list.len() ==> due(source, tick) is None,
{
}

proof fn lemma_same_sources(a: Seq<JsonView>, b: Seq<JsonView>, n: nat, tick: nat)
    requires
        n <= a.len(),
        n <= b.len(),
        forall|i: int| 0 <= i < n ==> a[i] == b[i],
    ensures
        tick_of(a, n, tick) == tick_of(b, n, tick),
    decreases n,
{
    if n > 0 {
        lemma_same_sources(a, b, (n - 1) as nat, tick);
    }
}

/// The script of a tick for a list of sources, cut in two anywhere, is the script for the first
/// part and behind it the script for the second.
pub proof fn law_tick_joins_its_sources(
    one: Seq<JsonView>,
    two: Seq<JsonView>,
    tick: nat,
)
    ensures
        tick_of(one + two, (one + two).len(), tick).script == tick_of(
            one,
            one.len(),
            tick,
        ).script + tick_of(two, two.len(), tick).script,
    decreases two.len(),
{
    let all = one + two;
    if two.len() == 0 {
        assert(all =~= one);
        assert(tick_of(two, 0, tick).script =~= seq![]);
        assert(tick_of(one, one.len(), tick).script + seq![] =~= tick_of(
            one,
            one.len(),
            tick,
        ).script);
    } else {
        let fewer = two.drop_last();
        law_tick_joins_its_sources(one, fewer, tick);
        lemma_same_sources(all, one + fewer, (all.len() - 1) as nat, tick);
        lemma_same_sources(two, fewer, (two.len() - 1) as nat, tick);
        assert(all[all.len() - 1] == two[two.len() - 1]);
        assert(tick_of(all, all.len(), tick).script =~= tick_of(one, one.len(), tick).script
            + tick_of(two, two.len(), tick).script);
    }
}

/// The script of a tick for one source is that of its action, and nothing where it has none.
pub proof fn law_tick_of_one_source(source: JsonView, tick: nat)
    ensures
        tick_of(seq![source], 1, tick).script == due_script(source, tick),
        tick_of(seq![source], 1, tick).runs <==> (due(source, tick) matches Some(a) && runs(
            action_deed(source, a),
        )),
{
    reveal_with_fuel(tick_of, 2);
    assert(tick_of(seq![source], 1, tick).script =~= due_script(source, tick));
}

/// The script of each source's action stands in the script of the tick: behind those of the
/// sources before it, and before those of the sources behind it.
pub proof fn law_each_source_acts_in_its_turn(sources: Seq<JsonView>, i: int, tick: nat)
    requires
        0 <= i < sources.len(),
    ensures
        tick_of(sources, sources.len(), tick).script == tick_of(
            sources.take(i),
            i as nat,
            tick,
        ).script + due_script(sources[i], tick) + tick_of(
            sources.skip(i + 1),
            (sources.len() - i - 1) as nat,
            tick,
        ).script,
{
    let before = sources.take(i);
    let after = sources.skip(i + 1);
    let own = seq![sources[i]];
    assert(before + own + after =~= sources);
    law_tick_joins_its_sources(before + own, after, tick);
    law_tick_joins_its_sources(before, own, tick);
    law_tick_of_one_source(sources[i], tick);
}

proof fn lemma_steps_grow(sources: Seq<JsonView>, few: nat, many: nat)
    requires
        few <= many,
    ensures
        action_steps(sources, few).len() <= action_steps(sources, many).len(),
        forall|k: int|
            0 <= k < action_steps(sources, few).len() ==> action_steps(sources, many)[k]
                == #[trigger] action_steps(sources, few)[k],
    decreases many,
{
    if few < many {
        lemma_steps_grow(sources, few, (many - 1) as nat);
    }
}

/// The script of every action that is more than a pause is run: the request has a step that runs
/// it, behind all steps of the ticks before it, whole, with nothing but the scripts of the other
/// sources in the same tick around it.
pub proof fn law_script_of_every_action_is_run(
    body: JsonView,
    sources: Seq<JsonView>,
    i: int,
    tick: nat,
    action: JsonView,
)
    requires
        body.get("actions"@) == Some(JsonView::Array(sources)),
        0 <= i < sources.len(),
        due(sources[i], tick) == Some(action),
        runs(action_deed(sources[i], action)),
    ensures
        perform_steps(body) matches Ok(all) && {
            let k = action_steps(sources, tick).len() as int;
            let before = tick_of(sources.take(i), i as nat, tick).script;
            let after = tick_of(
                sources.skip(i + 1),
                (sources.len() - i - 1) as nat,
                tick,
            ).script;
            let own = action_script(action_deed(sources[i], action), action);
            &&& k < all.len()
            &&& all[k] == ActionStepView::Run(quietly(before + own + after + "return null"@))
        },
{
    let n = sources.len();
    let count = tick_count(sources, n);
    law_every_action_is_performed(sources, n, i, tick);
    law_tick_runs_what_is_due(sources, n, tick);
    assert(tick_of(sources, n, tick).runs) by {
        assert(due(sources[i], tick) is Some);
    }
    law_each_source_acts_in_its_turn(sources, i, tick);
    lemma_steps_grow(sources, tick + 1, count);
    let k = action_steps(sources, tick).len() as int;
    assert(action_steps(sources, tick + 1)[k] == tick_steps(tick_of(sources, n, tick))[0]);
    assert(action_steps(sources, count)[k] == action_steps(sources, tick + 1)[k]);
}

/// Every pause is kept: the request has a step, among those of the pause's tick, that waits at
/// least as long.
pub proof fn law_every_pause_is_kept(
    body: JsonView,
    sources: Seq<JsonView>,
    i: int,
    tick: nat,
    action: JsonView,
)
    requires
        body.get("actions"@) == Some(JsonView::Array(sources)),
        0 <= i < sources.len(),
        due(sources[i], tick) == Some(action),
        action_deed(sources[i], action) == Deed::Pause,
        action.get("duration"@) matches Some(JsonView::Unsigned(n)) && n > 0,
    ensures
        perform_steps(body) matches Ok(all) && {
            let k = action_steps(sources, tick + 1).len() - 1;
            &&& action_steps(sources, tick).len() <= k < all.len()
            &&& all[k] matches ActionStepView::Wait { milliseconds } && milliseconds
                >= action.get("duration"@)->0->Unsigned_0
        },
{
    let n = sources.len();
    let count = tick_count(sources, n);
    law_every_action_is_performed(sources, n, i, tick);
    law_tick_keeps_its_longest_pause(sources, n, tick);
    law_pause_follows_the_script(sources, tick);
    lemma_steps_grow(sources, tick + 1, count);
    let k = action_steps(sources, tick + 1).len() - 1;
    assert(action_steps(sources, count)[k] == action_steps(sources, tick + 1)[k]);
}

/// A request without a list of sources is refused; a request without sources does nothing.
pub proof fn law_missing_actions_are_refused(body: JsonView)
    ensures
        (body.get("actions"@) matches Some(v) ==> v !is Array) ==> perform_steps(body) == Err::<
            Seq<ActionStepView>,
            ApiErrorView,
        >(ApiErrorView::Internal("Missing 'actions' array"@)),
        body.get("actions"@) == Some(JsonView::Array(seq![])) ==> (perform_steps(body)
            matches Ok(all) && all.len() == 0),
{
}

/// The pause of a tick follows its script, and the longest of its pauses is what is waited for;
/// a tick without a pause is not waited for.
pub proof fn law_pause_follows_the_script(sources: Seq<JsonView>, tick: nat)
    ensures
        ({
            let t = tick_of(sources, sources.len(), tick);
            let before = action_steps(sources, tick);
            let now = action_steps(sources, tick + 1);
            let first = before.len() as int;
            &&& now.len() == first + (if t.runs {
                1int
            } else {
                0
            }) + (if t.pause > 0 {
                1int
            } else {
                0
            })
            &&& now.take(first) == before
            &&& t.runs ==> now[first] is Run
            &&& t.pause > 0 ==> now.last() == ActionStepView::Wait { milliseconds: t.pause }
        }),
{
    let before = action_steps(sources, tick);
    let now = action_steps(sources, tick + 1);
    assert(now.take(before.len() as int) =~= before);
}

/// How many of `count` steps are taken from `done` on, and what the reply is, where each step
/// that is taken has its result in `results`.
pub open spec fn performed(
    count: nat,
    done: nat,
    results: Seq<Result<JsonView, ApiErrorView>>,
) -> (nat, Result<JsonView, ApiErrorView>)
    decreases count - done,
{
    let last = if done == 0 {
        Ok(JsonView::Null)
    } else {
        results[done - 1]
    };
    match next_action(count, done, last) {
        NextActionView::Do(i) => performed(count, i + 1, results),
        NextActionView::Reply(r) => (done, r),
    }
}

/// A step that fails ends the request with its error: the steps before it were taken, and no
/// step behind it is.
pub proof fn law_failed_step_ends_the_request(
    count: nat,
    done: nat,
    results: Seq<Result<JsonView, ApiErrorView>>,
    t: nat,
    e: ApiErrorView,
)
    requires
        done <= t < count,
        forall|k: int| 0 <= k < t ==> (#[trigger] results[k]) is Ok,
        results[t as int] == Err::<JsonView, ApiErrorView>(e),
    ensures
        performed(count, done, results) == (t + 1, Err::<JsonView, ApiErrorView>(e)),
    decreases t - done,
{
    if done > 0 {
        assert(results[done - 1] is Ok);
    }
    if done < t {
        law_failed_step_ends_the_request(count, done + 1, results, t, e);
    } else {
        assert(performed(count, t + 1, results) == (t + 1, Err::<JsonView, ApiErrorView>(e)));
    }
}

/// Where no step fails, every step is taken and the reply is null.
pub proof fn law_all_steps_are_taken(
    count: nat,
    done: nat,
    results: Seq<Result<JsonView, ApiErrorView>>,
)
    requires
        done <= count,
        forall|k: int| 0 <= k < count ==> (#[trigger] results[k]) is Ok,
    ensures
        performed(count, done, results) == (
            count,
            Ok::<JsonView, ApiErrorView>(JsonView::Null),
        ),
    decreases count - done,
{
    if done > 0 {
        assert(results[done - 1] is Ok);
    }
    if done < count {
        law_all_steps_are_taken(count, done + 1, results);
    }
}

proof fn lemma_earlier_ticks_come_first(sources: Seq<JsonView>, m: nat, n: nat)
    requires
        m <= n,
    ensures
        action_steps(sources, m).len() <= action_steps(sources, n).len(),
        action_steps(sources, n).take(action_steps(sources, m).len() as int) == action_steps(
            sources,
            m,
        ),
    decreases n,
{
    let first = action_steps(sources, m);
    if m < n {
        lemma_earlier_ticks_come_first(sources, m, (n - 1) as nat);
        let before = action_steps(sources, (n - 1) as nat);
        assert(action_steps(sources, n).take(first.len() as int) =~= before.take(
            first.len() as int,
        ));
    } else {
        assert(first.take(first.len() as int) =~= first);
    }
}

/// Where the script of a tick fails and nothing failed before, the request ends with that error.
/// What was done are the steps of the ticks before it and its script: neither its pause nor
/// anything of a later tick.
pub proof fn law_failed_script_ends_the_request(
    sources: Seq<JsonView>,
    ticks: nat,
    tick: nat,
    results: Seq<Result<JsonView, ApiErrorView>>,
    e: ApiErrorView,
)
    requires
        tick < ticks,
        tick_of(sources, sources.len(), tick).runs,
        forall|k: int|
            0 <= k < action_steps(sources, tick).len() ==> (#[trigger] results[k]) is Ok,
        results[action_steps(sources, tick).len() as int] == Err::<JsonView, ApiErrorView>(e),
    ensures
        ({
            let steps = action_steps(sources, ticks);
            let (taken, reply) = performed(steps.len(), 0, results);
            &&& reply == Err::<JsonView, ApiErrorView>(e)
            &&& steps.take(taken as int) == action_steps(sources, tick).push(
                ActionStepView::Run(
                    quietly(tick_of(sources, sources.len(), tick).script + "return null"@),
                ),
            )
        }),
{
    let steps = action_steps(sources, ticks);
    let before = action_steps(sources, tick);
    let through = action_steps(sources, tick + 1);
    lemma_earlier_ticks_come_first(sources, tick + 1, ticks);
    assert(through == before + tick_steps(tick_of(sources, sources.len(), tick)));
    law_failed_step_ends_the_request(steps.len(), 0, results, before.len(), e);
    assert(steps.take(before.len() as int + 1) =~= through.take(before.len() as int + 1)) by {
        assert(steps.take(through.len() as int) == through);
        assert forall|i: int| 0 <= i < before.len() + 1 implies steps[i] == through[i] by {
            assert(steps.take(through.len() as int)[i] == steps[i]);
        }
    }
    assert(through.take(before.len() as int + 1) =~= before.push(through[before.len() as int]));
}

} // verus!
