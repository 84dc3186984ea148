//! The monitor of a supervised run.
//!
//! A run has one child, or two joined by a pipe. Its monitor races the exit of the child that
//! ends the run (the only one, or the downstream one of a pair) against a cancellation signal
//! and a timeout. The monitor itself touches no process: it is a state machine that is told
//! what happened ([`Event`]) and answers what to do next ([`Action`]). Whoever owns the
//! children performs the action and reports back.
//!
//! [`next`] is the whole transition table. [`Monitor`] is the machine together with the live
//! event sources; [`Monitor::step`] looks at the sources where the table asks for it and
//! follows the table otherwise.

use vstd::prelude::*;
use crossbeam_channel::Select;
use crate::race::{run, Input};
use crate::select::{select_new, select_ops, select_recv, select_remove, select_try_ready, Sources};
use crate::status::ExitStatus;

verus! {

/// One of the children of a run. A run of a single command has only the downstream child.
#[derive(Clone, Copy, Debug, PartialEq, Eq, Structural)]
pub enum Child {
    /// The producer of a pipe.
    Upstream,
    /// The consumer of a pipe, or the only child. Its exit ends the run.
    Downstream,
}

/// An event source that ends a run early.
#[derive(Clone, Copy, Debug, PartialEq, Eq, Structural)]
pub enum Source {
    Cancel,
    Timeout,
}

/// Why the monitor had children killed.
#[derive(Clone, Copy, Debug, PartialEq, Eq, Structural)]
pub enum KillReason {
    /// The cancellation channel fired.
    Cancelled,
    /// The timeout elapsed.
    TimedOut,
    /// The upstream child exited while the downstream child was still running.
    UpstreamExited,
}

impl KillReason {
    /// Whether a kill for this reason is aimed at `child`: cancellation and timeout take
    /// every child down, the exit of the upstream child only the downstream one.
    pub open spec fn spec_hits(self, child: Child) -> bool {
        self != KillReason::UpstreamExited || child == Child::Downstream
    }

    #[verifier::when_used_as_spec(spec_hits)]
    pub fn hits(self, child: Child) -> (hit: bool)
        ensures
            hit == self.spec_hits(child),
    {
        match (self, child) {
            (KillReason::UpstreamExited, Child::Upstream) => false,
            _ => true,
        }
    }
}

/// Where the monitor stands within a round.
#[derive(Clone, Copy, Debug, PartialEq, Eq, Structural)]
pub enum Phase {
    /// Between rounds: the next thing to look at is the event sources.
    Idle,
    /// Waiting to be told the status of this child.
    Polling(Child),
    /// The upstream child has exited; waiting to be told whether the downstream one has too.
    Rechecking,
    /// The run is over with this status.
    Done(ExitStatus),
}

/// What the owner of the children reports to the monitor.
#[derive(Clone, Copy, Debug, PartialEq, Eq, Structural)]
pub enum Event {
    /// Nothing to report: the previous action, if any, has been carried out.
    Wake,
    /// The answer to [`Action::Poll`]: the status of the child if it has terminated, `None`
    /// if it is still running or its status could not be read.
    Polled(Option<ExitStatus>),
}

/// What the monitor asks the owner of the children to do.
#[derive(Clone, Copy, Debug, PartialEq, Eq, Structural)]
pub enum Action {
    /// Read the status of this child without blocking and report it with [`Event::Polled`].
    Poll(Child),
    /// Kill every child that the reason is aimed at, then report [`Event::Wake`].
    Kill(KillReason),
    /// Nothing to do in this round; report [`Event::Wake`].
    Wait,
    /// The run is over. Record `status` as its one terminal status and stop; when
    /// `stop_upstream` is set, kill the upstream child first in case it is still running.
    Finish { status: ExitStatus, stop_upstream: bool },
}

/// The state of a monitor, apart from the channels themselves.
#[derive(Clone, Copy, Debug, PartialEq, Eq, Structural)]
pub struct Watch {
    /// Whether the run is a pair of children joined by a pipe.
    pub piped: bool,
    /// Whether the cancellation channel is still being listened to.
    pub cancel: bool,
    /// Whether the timeout is still being listened to.
    pub timeout: bool,
    pub phase: Phase,
    /// The reason of the one kill the monitor has asked for, once it has.
    pub kill: Option<KillReason>,
}

impl Watch {
    /// The state a monitor starts in.
    pub open spec fn initial(piped: bool, cancel: bool, timeout: bool) -> Watch {
        Watch { piped, cancel, timeout, phase: Phase::Idle, kill: None }
    }

    /// Whether this source is still being listened to.
    pub open spec fn armed(self, source: Source) -> bool {
        match source {
            Source::Cancel => self.cancel,
            Source::Timeout => self.timeout,
        }
    }

    /// The same state, no longer listening to `source`.
    pub open spec fn disarm(self, source: Source) -> Watch {
        match source {
            Source::Cancel => Watch { cancel: false, ..self },
            Source::Timeout => Watch { timeout: false, ..self },
        }
    }

    /// The terminal status, once the run is over.
    pub open spec fn status(self) -> Option<ExitStatus> {
        match self.phase {
            Phase::Done(status) => Some(status),
            _ => None,
        }
    }
}

/// The kill that a source asks for when it fires.
pub open spec fn reason_of(source: Source) -> KillReason {
    match source {
        Source::Cancel => KillReason::Cancelled,
        Source::Timeout => KillReason::TimedOut,
    }
}

/// A source has fired. It is listened to no longer. If no kill has been asked for yet, this is
/// the one; any later firing changes nothing else.
pub open spec fn fire(w: Watch, source: Source) -> (Watch, Action) {
    let w = w.disarm(source);
    if w.kill is None {
        (Watch { kill: Some(reason_of(source)), ..w }, Action::Kill(reason_of(source)))
    } else {
        (w, Action::Wait)
    }
}

/// The run ends with `status`.
pub open spec fn finish(w: Watch, status: ExitStatus) -> (Watch, Action) {
    (Watch { phase: Phase::Done(status), ..w }, Action::Finish { status, stop_upstream: w.piped })
}

/// The transition table of the monitor: the state after `event` and the action to take.
///
/// `ready` is what the event sources showed, and is looked at only when an idle monitor is
/// woken; a source that is not listened to counts as not ready.
///
/// * Idle, woken: a ready source fires (see [`fire`]); with none ready the downstream child
///   is polled.
/// * The downstream child has terminated: the run ends with its status.
/// * The downstream child is running: in a piped run without a kill so far the upstream child
///   is polled next; otherwise the round is over.
/// * The upstream child has terminated: the downstream child is checked once more, and killed
///   if it is still running, so that it does not wait forever on a closed pipe.
/// * A report that nobody asked for is dropped; a wake-up in place of a report has the
///   request repeated; a finished monitor repeats its verdict.
pub open spec fn next(w: Watch, ready: Option<Source>, event: Event) -> (Watch, Action) {
    match (w.phase, event) {
        (Phase::Done(status), _) => (w, Action::Finish { status, stop_upstream: w.piped }),
        (Phase::Idle, Event::Wake) => match ready {
            Some(source) if w.armed(source) => fire(w, source),
            _ => (
                Watch { phase: Phase::Polling(Child::Downstream), ..w },
                Action::Poll(Child::Downstream),
            ),
        },
        (Phase::Idle, Event::Polled(_)) => (w, Action::Wait),
        (Phase::Polling(child), Event::Wake) => (w, Action::Poll(child)),
        (Phase::Rechecking, Event::Wake) => (w, Action::Poll(Child::Downstream)),
        (Phase::Polling(Child::Downstream), Event::Polled(Some(status))) => finish(w, status),
        (Phase::Polling(Child::Downstream), Event::Polled(None)) => if w.piped && w.kill is None {
            (Watch { phase: Phase::Polling(Child::Upstream), ..w }, Action::Poll(Child::Upstream))
        } else {
            (Watch { phase: Phase::Idle, ..w }, Action::Wait)
        },
        (Phase::Polling(Child::Upstream), Event::Polled(Some(_))) => (
            Watch { phase: Phase::Rechecking, ..w },
            Action::Poll(Child::Downstream),
        ),
        (Phase::Polling(Child::Upstream), Event::Polled(None)) => (
            Watch { phase: Phase::Idle, ..w },
            Action::Wait,
        ),
        (Phase::Rechecking, Event::Polled(Some(status))) => finish(w, status),
        (Phase::Rechecking, Event::Polled(None)) => if w.kill is None {
            (
                Watch { phase: Phase::Idle, kill: Some(KillReason::UpstreamExited), ..w },
                Action::Kill(KillReason::UpstreamExited),
            )
        } else {
            (Watch { phase: Phase::Idle, ..w }, Action::Wait)
        },
    }
}

/// Whether the event sources are consulted when `event` reaches a monitor in state `w`.
pub open spec fn consults_sources(w: Watch, event: Event) -> bool {
    w.phase is Idle && event is Wake
}

impl Watch {
    /// A state to start from.
    pub fn new(piped: bool, cancel: bool, timeout: bool) -> (w: Watch)
        ensures
            w == Watch::initial(piped, cancel, timeout),
    {
        Watch { piped, cancel, timeout, phase: Phase::Idle, kill: None }
    }

    /// Whether the event sources are to be looked at before `event` is taken.
    pub fn consults(&self, event: Event) -> (consults: bool)
        ensures
            consults == consults_sources(*self, event),
    {
        match (self.phase, event) {
            (Phase::Idle, Event::Wake) => true,
            _ => false,
        }
    }

    fn fire(self, source: Source) -> (r: (Watch, Action))
        ensures
            r == fire(self, source),
    {
        let mut w = self;
        match source {
            Source::Cancel => {
                w.cancel = false;
            },
            Source::Timeout => {
                w.timeout = false;
            },
        }
        match w.kill {
            None => {
                let reason = match source {
                    Source::Cancel => KillReason::Cancelled,
                    Source::Timeout => KillReason::TimedOut,
                };
                w.kill = Some(reason);
                (w, Action::Kill(reason))
            },
            Some(_) => (w, Action::Wait),
        }
    }

    fn enter(self, phase: Phase) -> (w: Watch)
        ensures
            w == (Watch { phase, ..self }),
    {
        let mut w = self;
        w.phase = phase;
        w
    }

    /// One step of the monitor, with what the event sources showed given: the state after
    /// `event` and the action to take, as [`next`] has them.
    pub fn step(self, ready: Option<Source>, event: Event) -> (r: (Watch, Action))
        ensures
            r == next(self, ready, event),
    {
        match (self.phase, event) {
            (Phase::Done(status), _) => (
                self,
                Action::Finish { status, stop_upstream: self.piped },
            ),
            (Phase::Idle, Event::Wake) => {
                match ready {
                    Some(Source::Cancel) if self.cancel => self.fire(Source::Cancel),
                    Some(Source::Timeout) if self.timeout => self.fire(Source::Timeout),
                    _ => (
                        self.enter(Phase::Polling(Child::Downstream)),
                        Action::Poll(Child::Downstream),
                    ),
                }
            },
            (Phase::Idle, Event::Polled(_)) => (self, Action::Wait),
            (Phase::Polling(child), Event::Wake) => (self, Action::Poll(child)),
            (Phase::Rechecking, Event::Wake) => (self, Action::Poll(Child::Downstream)),
            (Phase::Polling(Child::Downstream), Event::Polled(Some(status)))
            | (Phase::Rechecking, Event::Polled(Some(status))) => (
                self.enter(Phase::Done(status)),
                Action::Finish { status, stop_upstream: self.piped },
            ),
            (Phase::Polling(Child::Downstream), Event::Polled(None)) => {
                if self.piped && self.kill.is_none() {
                    (self.enter(Phase::Polling(Child::Upstream)), Action::Poll(Child::Upstream))
                } else {
                    (self.enter(Phase::Idle), Action::Wait)
                }
            },
            (Phase::Polling(Child::Upstream), Event::Polled(Some(_))) => (
                self.enter(Phase::Rechecking),
                Action::Poll(Child::Downstream),
            ),
            (Phase::Polling(Child::Upstream), Event::Polled(None)) => (
                self.enter(Phase::Idle),
                Action::Wait,
            ),
            (Phase::Rechecking, Event::Polled(None)) => {
                let mut w = self.enter(Phase::Idle);
                if w.kill.is_none() {
                    w.kill = Some(KillReason::UpstreamExited);
                    (w, Action::Kill(KillReason::UpstreamExited))
                } else {
                    (w, Action::Wait)
                }
            },
        }
    }
}

/// The monitor of one run: the state of the race and the selector over its event sources.
pub struct Monitor<'a> {
    sel: Select<'a>,
    cancel: Option<usize>,
    timeout: Option<usize>,
    watch: Watch,
    start: Ghost<Watch>,
    inputs: Ghost<Seq<Input>>,
}

impl<'a> View for Monitor<'a> {
    type V = Watch;

    closed spec fn view(&self) -> Watch {
        self.watch
    }
}

impl<'a> Monitor<'a> {
    /// The state that the monitor started in.
    pub closed spec fn started(&self) -> Watch {
        self.start@
    }

    /// The inputs that the monitor has taken so far, in order: for each step, what the event
    /// sources showed and the event that was reported.
    pub closed spec fn inputs(&self) -> Seq<Input> {
        self.inputs@
    }

    /// The selector watches exactly the sources that the state says are listened to, and
    /// the state is where the inputs taken so far lead. Every monitor that [`Monitor::new`]
    /// made and [`Monitor::step`] moved is well formed.
    pub closed spec fn wf(&self) -> bool {
        &&& self.watch == run(self.start@, self.inputs@)
        &&& forall|i: usize|
            select_ops(&self.sel).contains(i) <==> (self.cancel == Some(i) || self.timeout == Some(
                i,
            ))
        &&& (self.cancel is Some && self.timeout is Some) ==> self.cancel != self.timeout
        &&& self.watch.cancel == self.cancel is Some
        &&& self.watch.timeout == self.timeout is Some
    }

    /// A monitor for a run with these event sources, of one child or, if `piped`, of two.
    pub fn new(sources: &'a Sources, piped: bool) -> (monitor: Monitor<'a>)
        ensures
            monitor.wf(),
            monitor@ == Watch::initial(piped, sources.cancel is Some, sources.ticks is Some),
            monitor.started() == monitor@,
            monitor.inputs() == Seq::<Input>::empty(),
    {
        let mut sel = select_new();
        let cancel = match &sources.cancel {
            Some(r) => Some(select_recv(&mut sel, r)),
            None => None,
        };
        let timeout = match &sources.ticks {
            Some(r) => Some(select_recv(&mut sel, r)),
            None => None,
        };
        let watch = Watch::new(piped, cancel.is_some(), timeout.is_some());
        Monitor { sel, cancel, timeout, watch, start: Ghost(watch), inputs: Ghost(Seq::empty()) }
    }

    /// A well-formed monitor is where the transition table leads from its start on the inputs
    /// it has taken. Whatever holds of every run of the table holds of the monitor.
    pub proof fn lemma_follows_the_table(&self)
        requires
            self.wf(),
        ensures
            self@ == run(self.started(), self.inputs()),
    {
    }

    /// The state of the race.
    pub fn watch(&self) -> (w: Watch)
        ensures
            w == self@,
    {
        self.watch
    }

    /// The terminal status of the run, once there is one.
    pub fn status(&self) -> (status: Option<ExitStatus>)
        ensures
            status == self@.status(),
    {
        match self.watch.phase {
            Phase::Done(status) => Some(status),
            _ => None,
        }
    }

    /// The reason of the kill that this monitor asked for, if it asked for one.
    pub fn kill_reason(&self) -> (reason: Option<KillReason>)
        ensures
            reason == self@.kill,
    {
        self.watch.kill
    }

    /// Takes the machine one step: `event` is what happened, the result is what to do next.
    ///
    /// The step is the one [`next`] gives. Only where the table consults the event sources
    /// (see [`consults_sources`]) does the outcome depend on anything but the state and the
    /// event: there it is the table's answer for whichever listened-to source the channels
    /// showed as ready, or for none. Which source is shown when several are ready, and
    /// whether one is ready at all, is up to the channels.
    pub fn step(&mut self, event: Event) -> (action: Action)
        requires
            old(self).wf(),
        ensures
            final(self).wf(),
            final(self).started() == old(self).started(),
            !consults_sources(old(self)@, event) ==> (final(self)@, action) == next(
                old(self)@,
                None,
                event,
            ) && final(self).inputs() == old(self).inputs().push(Input { ready: None, event }),
            consults_sources(old(self)@, event) ==> exists|ready: Option<Source>|
                {
                    &&& ready matches Some(source) ==> old(self)@.armed(source)
                    &&& (final(self)@, action) == #[trigger] next(old(self)@, ready, event)
                    &&& final(self).inputs() == old(self).inputs().push(Input { ready, event })
                },
    {
        let ready = if self.watch.consults(event) {
            match select_try_ready(&mut self.sel) {
                Some(i) => if self.cancel == Some(i) {
                    Some(Source::Cancel)
                } else {
                    Some(Source::Timeout)
                },
                None => None,
            }
        } else {
            None
        };
        let (watch, action) = self.watch.step(ready, event);
        if self.watch.cancel && !watch.cancel {
            if let Some(i) = self.cancel {
                select_remove(&mut self.sel, i);
            }
            self.cancel = None;
        }
        if self.watch.timeout && !watch.timeout {
            if let Some(i) = self.timeout {
                select_remove(&mut self.sel, i);
            }
            self.timeout = None;
        }
        proof {
            let taken = self.inputs@.push(Input { ready, event });
            assert(taken.drop_last() =~= self.inputs@);
            self.inputs@ = taken;
        }
        self.watch = watch;
        action
    }
}

} // verus!
