//! What holds of every run of the monitor.
//!
//! The statements are about [`next`], the transition table, and about runs of it: the states
//! and actions that a sequence of inputs leads through. A [`Monitor`] keeps to the table on
//! the inputs it takes ([`Monitor::lemma_follows_the_table`]), so they hold of every monitor,
//! whatever its channels and children do.
//!
//! [`Monitor`]: crate::monitor::Monitor
//! [`Monitor::lemma_follows_the_table`]: crate::monitor::Monitor::lemma_follows_the_table

use vstd::prelude::*;
use crate::monitor::{next, reason_of, Action, Child, Event, KillReason, Phase, Source, Watch};
use crate::status::ExitStatus;

verus! {

/// One input of the monitor: what the event sources showed and what was reported.
pub struct Input {
    pub ready: Option<Source>,
    pub event: Event,
}

/// The state that `inputs`, taken in order, lead to from `w`.
pub open spec fn run(w: Watch, inputs: Seq<Input>) -> Watch
    decreases inputs.len(),
{
    if inputs.len() == 0 {
        w
    } else {
        next(run(w, inputs.drop_last()), inputs.last().ready, inputs.last().event).0
    }
}

/// The state in which input number `i` is taken.
pub open spec fn state_at(w: Watch, inputs: Seq<Input>, i: int) -> Watch {
    run(w, inputs.take(i))
}

/// The action that answers input number `i`.
pub open spec fn action_at(w: Watch, inputs: Seq<Input>, i: int) -> Action {
    next(state_at(w, inputs, i), inputs[i].ready, inputs[i].event).1
}

/// Whether the monitor is waiting for the status of the child whose exit ends the run.
pub open spec fn awaits_downstream(w: Watch) -> bool {
    w.phase == Phase::Polling(Child::Downstream) || w.phase == Phase::Rechecking
}

/// A kill is asked for at most once, and is on record from then on: an action is a kill only
/// if none was asked for before, the state then holds its reason, and no other step touches
/// the record.
pub proof fn lemma_kill_once(w: Watch, ready: Option<Source>, event: Event)
    ensures
        ({
            let (after, action) = next(w, ready, event);
            &&& action matches Action::Kill(reason) ==> w.kill is None && after.kill == Some(reason)
            &&& !(action is Kill) ==> after.kill == w.kill
        }),
{
}

/// The source that fires first is the one that kills: when an idle monitor that has asked for
/// no kill is woken and finds a source ready, it stops listening to it and asks for the kill
/// that belongs to it, the timeout's for the timeout and the cancellation's for the
/// cancellation channel.
pub proof fn lemma_first_source_kills(w: Watch, source: Source)
    requires
        w.phase == Phase::Idle,
        w.kill is None,
        w.armed(source),
    ensures
        ({
            let (after, action) = next(w, Some(source), Event::Wake);
            &&& action == Action::Kill(reason_of(source))
            &&& after.kill == Some(reason_of(source))
            &&& !after.armed(source)
            &&& after.phase == Phase::Idle
        }),
{
}

/// A source that fires after the kill is a no-op: the monitor stops listening to it and goes
/// on waiting for the child to exit.
pub proof fn lemma_second_source_is_ignored(w: Watch, source: Source)
    requires
        w.phase == Phase::Idle,
        w.kill is Some,
        w.armed(source),
    ensures
        next(w, Some(source), Event::Wake) == (w.disarm(source), Action::Wait),
{
}

/// An exit that the monitor sees is the verdict, as it is: when the child whose exit ends the
/// run is reported as terminated, the run finishes with exactly the reported status, and the
/// record of kills stays as it was. An exit that comes before any source has fired is
/// therefore never reported as a kill.
pub proof fn lemma_exit_is_reported_as_is(w: Watch, ready: Option<Source>, status: ExitStatus)
    requires
        awaits_downstream(w),
    ensures
        ({
            let (after, action) = next(w, ready, Event::Polled(Some(status)));
            &&& action == Action::Finish { status, stop_upstream: w.piped }
            &&& after.status() == Some(status)
            &&& after.kill == w.kill
        }),
{
}

/// The run is over exactly when a status has been recorded, and the action that ends it
/// carries that status.
pub proof fn lemma_finish_records_status(w: Watch, ready: Option<Source>, event: Event)
    ensures
        ({
            let (after, action) = next(w, ready, event);
            &&& action is Finish <==> after.phase is Done
            &&& action matches Action::Finish { status, stop_upstream } ==> after.status() == Some(
                status,
            ) && stop_upstream == w.piped
        }),
{
}

/// A finished monitor stays as it is and repeats its verdict, whatever reaches it: a
/// cancellation or a timeout that fires after the run is over changes nothing.
pub proof fn lemma_done_is_final(w: Watch, ready: Option<Source>, event: Event)
    requires
        w.phase is Done,
    ensures
        next(w, ready, event) == (
            w,
            Action::Finish { status: w.status().unwrap(), stop_upstream: w.piped },
        ),
{
}

/// Sources are only ever switched off, and a step that switches one off is the step in which
/// it fired.
pub proof fn lemma_sources_only_disarm(w: Watch, ready: Option<Source>, event: Event)
    ensures
        ({
            let after = next(w, ready, event).0;
            &&& after.piped == w.piped
            &&& after.cancel ==> w.cancel
            &&& after.timeout ==> w.timeout
            &&& (w.cancel && !after.cancel) ==> ready == Some(Source::Cancel)
            &&& (w.timeout && !after.timeout) ==> ready == Some(Source::Timeout)
        }),
{
}

/// Without sources, a single child is never killed.
pub proof fn lemma_unwatched_step_never_kills(w: Watch, ready: Option<Source>, event: Event)
    requires
        !w.piped,
        !w.cancel,
        !w.timeout,
        w.phase != Phase::Polling(Child::Upstream),
        w.phase != Phase::Rechecking,
    ensures
        ({
            let (after, action) = next(w, ready, event);
            &&& !(action is Kill)
            &&& after.phase != Phase::Polling(Child::Upstream)
            &&& after.phase != Phase::Rechecking
        }),
{
}

/// Taking one more input is taking a step from where the earlier inputs led.
pub proof fn lemma_run_unfolds(w: Watch, inputs: Seq<Input>, i: int)
    requires
        0 <= i < inputs.len(),
    ensures
        state_at(w, inputs, i + 1) == next(
            state_at(w, inputs, i),
            inputs[i].ready,
            inputs[i].event,
        ).0,
        state_at(w, inputs, 0) == w,
        state_at(w, inputs, inputs.len() as int) == run(w, inputs),
{
    assert(inputs.take(i + 1).drop_last() =~= inputs.take(i));
    assert(inputs.take(i + 1).last() == inputs[i]);
    assert(inputs.take(inputs.len() as int) =~= inputs);
}

/// Once a kill is on record it stays on record, unchanged.
pub proof fn lemma_kill_record_stands(w: Watch, inputs: Seq<Input>, i: int, j: int)
    requires
        0 <= i <= j <= inputs.len(),
        state_at(w, inputs, i).kill is Some,
    ensures
        state_at(w, inputs, j).kill == state_at(w, inputs, i).kill,
    decreases j - i,
{
    if i < j {
        lemma_kill_record_stands(w, inputs, i, j - 1);
        lemma_run_unfolds(w, inputs, j - 1);
        lemma_kill_once(state_at(w, inputs, j - 1), inputs[j - 1].ready, inputs[j - 1].event);
    }
}

/// In a whole run, the children are killed at most once: no two actions are kills.
pub proof fn lemma_at_most_one_kill(w: Watch, inputs: Seq<Input>, i: int, j: int)
    requires
        0 <= i < j < inputs.len(),
        action_at(w, inputs, i) is Kill,
    ensures
        !(action_at(w, inputs, j) is Kill),
{
    lemma_kill_once(state_at(w, inputs, i), inputs[i].ready, inputs[i].event);
    lemma_run_unfolds(w, inputs, i);
    lemma_kill_record_stands(w, inputs, i + 1, j);
    lemma_kill_once(state_at(w, inputs, j), inputs[j].ready, inputs[j].event);
}

/// A kill is never swallowed and never made up. In a run that starts with no kill on
/// record, the record at the end holds a reason exactly if some action of the run was the
/// kill for that reason.
pub proof fn lemma_kill_is_on_record(w: Watch, inputs: Seq<Input>, reason: KillReason)
    requires
        w.kill is None,
    ensures
        run(w, inputs).kill == Some(reason) <==> exists|i: int|
            0 <= i < inputs.len() && #[trigger] action_at(w, inputs, i) == Action::Kill(reason),
    decreases inputs.len(),
{
    if inputs.len() == 0 {
    } else {
        let n = inputs.len() - 1;
        let head = inputs.drop_last();
        lemma_kill_is_on_record(w, head, reason);
        lemma_run_unfolds(w, inputs, n);
        assert(inputs.take(n) =~= head);
        let before = run(w, head);
        lemma_kill_once(before, inputs[n].ready, inputs[n].event);
        assert forall|i: int| 0 <= i < n implies action_at(w, head, i) == action_at(
            w,
            inputs,
            i,
        ) by {
            assert(head.take(i) =~= inputs.take(i));
        }
        if run(w, inputs).kill == Some(reason) {
            if before.kill == Some(reason) {
                let i = choose|i: int|
                    0 <= i < head.len() && #[trigger] action_at(w, head, i) == Action::Kill(reason);
                assert(action_at(w, inputs, i) == Action::Kill(reason));
            } else {
                assert(action_at(w, inputs, n) == Action::Kill(reason));
            }
        }
        if exists|i: int|
            0 <= i < inputs.len() && #[trigger] action_at(w, inputs, i) == Action::Kill(reason) {
            let i = choose|i: int|
                0 <= i < inputs.len() && #[trigger] action_at(w, inputs, i) == Action::Kill(reason);
            if i < n {
                assert(action_at(w, head, i) == Action::Kill(reason));
                assert(before.kill == Some(reason));
                lemma_kill_record_stands(w, inputs, n, n + 1);
            }
        }
    }
}

/// The status of a run is the status of its child. When a run that was not over at the start
/// ends with a status, one of its inputs reported exactly that status for the child whose
/// exit ends the run, the monitor was waiting for that report, and it answered with the
/// verdict.
pub proof fn lemma_status_is_the_childs(w: Watch, inputs: Seq<Input>, status: ExitStatus)
    requires
        !(w.phase is Done),
        run(w, inputs).status() == Some(status),
    ensures
        exists|i: int|
            0 <= i < inputs.len() && awaits_downstream(#[trigger] state_at(w, inputs, i))
                && inputs[i].event == Event::Polled(Some(status)) && action_at(w, inputs, i)
                == (Action::Finish { status, stop_upstream: w.piped }),
    decreases inputs.len(),
{
    let n = inputs.len() - 1;
    let head = inputs.drop_last();
    lemma_run_unfolds(w, inputs, n);
    assert(inputs.take(n) =~= head);
    let before = run(w, head);
    lemma_piped_is_fixed(w, head);
    if before.phase is Done {
        lemma_status_is_the_childs(w, head, status);
        let i = choose|i: int|
            0 <= i < head.len() && awaits_downstream(#[trigger] state_at(w, head, i))
                && head[i].event == Event::Polled(Some(status)) && action_at(w, head, i)
                == (Action::Finish { status, stop_upstream: w.piped });
        assert(head.take(i) =~= inputs.take(i));
        assert(awaits_downstream(state_at(w, inputs, i)));
    } else {
        assert(awaits_downstream(state_at(w, inputs, n)));
    }
}

/// Whether a run is piped never changes.
pub proof fn lemma_piped_is_fixed(w: Watch, inputs: Seq<Input>)
    ensures
        run(w, inputs).piped == w.piped,
    decreases inputs.len(),
{
    if inputs.len() > 0 {
        lemma_piped_is_fixed(w, inputs.drop_last());
    }
}

/// Done is for good: from the input that ends the run on, the state is the same.
pub proof fn lemma_done_stands(w: Watch, inputs: Seq<Input>, i: int, j: int)
    requires
        0 <= i <= j <= inputs.len(),
        state_at(w, inputs, i).phase is Done,
    ensures
        state_at(w, inputs, j) == state_at(w, inputs, i),
    decreases j - i,
{
    if i < j {
        lemma_done_stands(w, inputs, i, j - 1);
        lemma_run_unfolds(w, inputs, j - 1);
    }
}

/// The actions of a run do not depend on the inputs that come after them.
pub proof fn lemma_prefix_actions(w: Watch, inputs: Seq<Input>, n: int, i: int)
    requires
        0 <= i < n <= inputs.len(),
    ensures
        action_at(w, inputs.take(n), i) == action_at(w, inputs, i),
        state_at(w, inputs.take(n), i) == state_at(w, inputs, i),
{
    assert(inputs.take(n).take(i) =~= inputs.take(i));
}

/// The source that fires first decides the kill, and the kill stays on record. When a
/// monitor that has asked for no kill looks at its sources and is shown one that it listens
/// to, its answer is the kill for that source (the timeout's for the timeout, the
/// cancellation's for the cancellation channel), and whatever the rest of the run brings,
/// that reason is on record at its end.
pub proof fn lemma_firing_source_is_on_record(
    w: Watch,
    inputs: Seq<Input>,
    i: int,
    source: Source,
)
    requires
        0 <= i < inputs.len(),
        state_at(w, inputs, i).phase == Phase::Idle,
        state_at(w, inputs, i).kill is None,
        state_at(w, inputs, i).armed(source),
        inputs[i].ready == Some(source),
        inputs[i].event == Event::Wake,
    ensures
        action_at(w, inputs, i) == Action::Kill(reason_of(source)),
        run(w, inputs).kill == Some(reason_of(source)),
{
    lemma_first_source_kills(state_at(w, inputs, i), source);
    lemma_run_unfolds(w, inputs, i);
    lemma_kill_record_stands(w, inputs, i + 1, inputs.len() as int);
}

/// An exit that comes first is never reported as a kill. When the child whose exit ends the
/// run is reported as terminated before any kill has been asked for, the run ends with
/// exactly the reported status, no action of the whole run is a kill, and no kill is on
/// record at its end, whichever sources fire afterwards.
pub proof fn lemma_exit_that_comes_first_is_no_kill(
    w: Watch,
    inputs: Seq<Input>,
    i: int,
    status: ExitStatus,
)
    requires
        w.kill is None,
        0 <= i < inputs.len(),
        awaits_downstream(state_at(w, inputs, i)),
        state_at(w, inputs, i).kill is None,
        inputs[i].event == Event::Polled(Some(status)),
    ensures
        run(w, inputs).status() == Some(status),
        run(w, inputs).kill is None,
        forall|j: int| 0 <= j < inputs.len() ==> !(#[trigger] action_at(w, inputs, j) is Kill),
{
    let at = state_at(w, inputs, i);
    lemma_exit_is_reported_as_is(at, inputs[i].ready, status);
    lemma_run_unfolds(w, inputs, i);
    lemma_done_stands(w, inputs, i + 1, inputs.len() as int);
    assert forall|j: int| 0 <= j < inputs.len() implies !(#[trigger] action_at(w, inputs, j)
        is Kill) by {
        if action_at(w, inputs, j) is Kill {
            let reason = action_at(w, inputs, j)->Kill_0;
            lemma_kill_is_on_record(w, inputs, reason);
        }
    }
}

/// The monitor goes on polling after a kill: an idle monitor that finds no source ready asks
/// for the status of the child whose exit ends the run, whether or not a kill was asked for.
pub proof fn lemma_idle_monitor_polls(w: Watch)
    requires
        w.phase == Phase::Idle,
    ensures
        next(w, None, Event::Wake) == (
            Watch { phase: Phase::Polling(Child::Downstream), ..w },
            Action::Poll(Child::Downstream),
        ),
{
}

/// The verdict stands: once an action has ended the run, every later action repeats it.
pub proof fn lemma_verdict_stands(w: Watch, inputs: Seq<Input>, i: int, j: int)
    requires
        0 <= i <= j < inputs.len(),
        action_at(w, inputs, i) is Finish,
    ensures
        action_at(w, inputs, j) == action_at(w, inputs, i),
    decreases j - i,
{
    if i < j {
        lemma_verdict_stands(w, inputs, i, j - 1);
        lemma_run_unfolds(w, inputs, j - 1);
        let s = state_at(w, inputs, j - 1);
        lemma_finish_records_status(s, inputs[j - 1].ready, inputs[j - 1].event);
    }
}

/// A run of one command with neither a timeout nor a cancellation channel is left alone: no
/// action of it is a kill, no kill is on record at its end, and if it ends with a status,
/// that is a status that was reported for the child while the monitor waited for it.
pub proof fn lemma_unwatched_run_is_left_alone(inputs: Seq<Input>)
    ensures
        forall|i: int|
            0 <= i < inputs.len() ==> !(#[trigger] action_at(
                Watch::initial(false, false, false),
                inputs,
                i,
            ) is Kill),
        run(Watch::initial(false, false, false), inputs).kill is None,
        forall|status: ExitStatus|
            run(Watch::initial(false, false, false), inputs).status() == Some(status)
                ==> exists|i: int|
                0 <= i < inputs.len() && awaits_downstream(
                    #[trigger] state_at(Watch::initial(false, false, false), inputs, i),
                ) && inputs[i].event == Event::Polled(Some(status)),
{
    let w = Watch::initial(false, false, false);
    assert forall|i: int| 0 <= i < inputs.len() implies !(#[trigger] action_at(w, inputs, i)
        is Kill) by {
        lemma_unwatched_states(w, inputs, i);
        lemma_unwatched_step_never_kills(
            state_at(w, inputs, i),
            inputs[i].ready,
            inputs[i].event,
        );
    }
    lemma_unwatched_states(w, inputs, inputs.len() as int);
    assert(inputs.take(inputs.len() as int) =~= inputs);
    assert forall|status: ExitStatus| run(w, inputs).status() == Some(status) implies exists|
        i: int,
    |
        0 <= i < inputs.len() && awaits_downstream(#[trigger] state_at(w, inputs, i))
            && inputs[i].event == Event::Polled(Some(status)) by {
        lemma_status_is_the_childs(w, inputs, status);
    }
}

proof fn lemma_unwatched_states(w: Watch, inputs: Seq<Input>, i: int)
    requires
        w == Watch::initial(false, false, false),
        0 <= i <= inputs.len(),
    ensures
        ({
            let s = state_at(w, inputs, i);
            &&& !s.piped && !s.cancel && !s.timeout && s.kill is None
            &&& s.phase != Phase::Polling(Child::Upstream)
            &&& s.phase != Phase::Rechecking
        }),
    decreases i,
{
    if i > 0 {
        lemma_unwatched_states(w, inputs, i - 1);
        lemma_run_unfolds(w, inputs, i - 1);
        let s = state_at(w, inputs, i - 1);
        lemma_unwatched_step_never_kills(s, inputs[i - 1].ready, inputs[i - 1].event);
        lemma_kill_once(s, inputs[i - 1].ready, inputs[i - 1].event);
        lemma_sources_only_disarm(s, inputs[i - 1].ready, inputs[i - 1].event);
    } else {
        assert(inputs.take(0) =~= Seq::<Input>::empty());
    }
}

} // verus!
