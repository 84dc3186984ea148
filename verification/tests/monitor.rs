use simple_cmd::monitor::{Action, Child, Event, KillReason, Monitor, Phase, Source, Watch};
use simple_cmd::output::{Output, OutputExt};
use simple_cmd::select::Sources;
use simple_cmd::status::ExitStatus;
use std::time::{Duration, Instant};

fn spin(duration: Duration) {
    let start = Instant::now();
    while start.elapsed() < duration {
        std::hint::spin_loop();
    }
}

fn finish(status: ExitStatus, stop_upstream: bool) -> Action {
    Action::Finish { status, stop_upstream }
}

#[test]
fn natural_exit_without_sources_is_the_verdict() {
    let sources = Sources::none();
    let mut monitor = Monitor::new(&sources, false);
    assert_eq!(monitor.watch(), Watch { piped: false, cancel: false, timeout: false, phase: Phase::Idle, kill: None });
    assert_eq!(monitor.step(Event::Wake), Action::Poll(Child::Downstream));
    assert_eq!(monitor.step(Event::Polled(None)), Action::Wait);
    assert_eq!(monitor.status(), None);
    assert_eq!(monitor.step(Event::Wake), Action::Poll(Child::Downstream));
    assert_eq!(monitor.step(Event::Polled(Some(ExitStatus::Exited(0)))), finish(ExitStatus::Exited(0), false));
    assert_eq!(monitor.status(), Some(ExitStatus::Exited(0)));
    assert_eq!(monitor.kill_reason(), None);
}

#[test]
fn nonzero_exit_is_reported_as_it_is() {
    let sources = Sources::none();
    let mut monitor = Monitor::new(&sources, false);
    assert_eq!(monitor.step(Event::Wake), Action::Poll(Child::Downstream));
    assert_eq!(monitor.step(Event::Polled(Some(ExitStatus::Exited(3)))), finish(ExitStatus::Exited(3), false));
    assert_eq!(monitor.status(), Some(ExitStatus::Exited(3)));
}

#[test]
fn cancellation_kills_once_and_the_kill_shows_in_the_result() {
    let (sender, receiver) = crossbeam_channel::bounded::<()>(1);
    let sources = Sources::new(Some(receiver), None);
    let mut monitor = Monitor::new(&sources, false);

    assert_eq!(monitor.step(Event::Wake), Action::Poll(Child::Downstream));
    assert_eq!(monitor.step(Event::Polled(None)), Action::Wait);

    sender.send(()).unwrap();
    assert_eq!(monitor.step(Event::Wake), Action::Kill(KillReason::Cancelled));
    assert_eq!(monitor.kill_reason(), Some(KillReason::Cancelled));
    assert!(!monitor.watch().cancel);

    assert_eq!(monitor.step(Event::Wake), Action::Poll(Child::Downstream));
    assert_eq!(monitor.step(Event::Polled(None)), Action::Wait);
    assert_eq!(monitor.step(Event::Wake), Action::Poll(Child::Downstream));
    let killed = ExitStatus::Signaled(9);
    assert_eq!(monitor.step(Event::Polled(Some(killed))), finish(killed, false));

    let output = Output { status: monitor.status().unwrap(), stdout: vec![], stderr: vec![] };
    assert!(!output.status.success());
    assert!(output.kill());
    assert!(!output.interrupt());
    assert_eq!(monitor.kill_reason(), Some(KillReason::Cancelled));
}

#[test]
fn timeout_kills_a_child_that_outlives_it() {
    let started = Instant::now();
    let sources = Sources::new(None, Some(Duration::from_millis(100)));
    let mut monitor = Monitor::new(&sources, false);
    let mut rounds = 0u64;
    let reason = loop {
        match monitor.step(Event::Wake) {
            Action::Poll(child) => {
                assert_eq!(child, Child::Downstream);
                assert_eq!(monitor.step(Event::Polled(None)), Action::Wait);
            }
            Action::Kill(reason) => break reason,
            other => panic!("unexpected action {:?}", other),
        }
        rounds += 1;
        assert!(started.elapsed() < Duration::from_secs(10));
    };
    assert_eq!(reason, KillReason::TimedOut);
    assert!(started.elapsed() >= Duration::from_millis(100));
    assert!(started.elapsed() < Duration::from_secs(1));
    assert!(rounds > 0);
    assert!(!monitor.watch().timeout);

    assert_eq!(monitor.step(Event::Wake), Action::Poll(Child::Downstream));
    let killed = ExitStatus::Signaled(9);
    assert_eq!(monitor.step(Event::Polled(Some(killed))), finish(killed, false));
    let output = Output { status: killed, stdout: vec![], stderr: vec![] };
    assert!(!output.status.success());
    assert!(!output.interrupt());
    assert!(output.kill());
}

#[test]
fn timeout_that_has_not_elapsed_does_not_fire() {
    let sources = Sources::new(None, Some(Duration::from_secs(3600)));
    let mut monitor = Monitor::new(&sources, false);
    for _ in 0..50 {
        assert_eq!(monitor.step(Event::Wake), Action::Poll(Child::Downstream));
        assert_eq!(monitor.step(Event::Polled(None)), Action::Wait);
    }
    assert_eq!(monitor.kill_reason(), None);
    assert!(monitor.watch().timeout);
}

#[test]
fn exit_just_before_the_timeout_is_not_a_kill() {
    let (sender, receiver) = crossbeam_channel::bounded::<()>(1);
    let sources = Sources::new(Some(receiver), Some(Duration::from_millis(30)));
    let mut monitor = Monitor::new(&sources, false);
    assert_eq!(monitor.step(Event::Wake), Action::Poll(Child::Downstream));
    // Both sources fire while the monitor waits for the status; the child has exited by itself.
    sender.send(()).unwrap();
    spin(Duration::from_millis(40));
    assert_eq!(monitor.step(Event::Polled(Some(ExitStatus::Exited(0)))), finish(ExitStatus::Exited(0), false));
    assert_eq!(monitor.kill_reason(), None);
    assert_eq!(monitor.status(), Some(ExitStatus::Exited(0)));
    // Whatever fires now is ignored.
    assert_eq!(monitor.step(Event::Wake), finish(ExitStatus::Exited(0), false));
    assert_eq!(monitor.step(Event::Polled(Some(ExitStatus::Signaled(9)))), finish(ExitStatus::Exited(0), false));
    assert_eq!(monitor.kill_reason(), None);
    assert!(monitor.watch().cancel);
    assert!(monitor.watch().timeout);
}

#[test]
fn second_source_after_the_kill_is_a_no_op() {
    let (sender, receiver) = crossbeam_channel::bounded::<()>(1);
    let sources = Sources::new(Some(receiver), Some(Duration::from_millis(20)));
    let mut monitor = Monitor::new(&sources, false);
    sender.send(()).unwrap();
    spin(Duration::from_millis(30));
    // Both are ready; one of them kills, the other is dropped without a second kill.
    let first = monitor.step(Event::Wake);
    assert!(first == Action::Kill(KillReason::Cancelled) || first == Action::Kill(KillReason::TimedOut));
    let reason = monitor.kill_reason();
    assert!(reason.is_some());
    assert_eq!(monitor.step(Event::Wake), Action::Wait);
    assert_eq!(monitor.kill_reason(), reason);
    assert!(!monitor.watch().cancel);
    assert!(!monitor.watch().timeout);
    // The monitor goes on polling until the child is gone.
    assert_eq!(monitor.step(Event::Wake), Action::Poll(Child::Downstream));
    assert_eq!(monitor.step(Event::Polled(None)), Action::Wait);
    assert_eq!(monitor.step(Event::Wake), Action::Poll(Child::Downstream));
    assert_eq!(monitor.step(Event::Polled(Some(ExitStatus::Signaled(9)))), finish(ExitStatus::Signaled(9), false));
}

#[test]
fn shared_cancellation_reaches_every_monitor() {
    let (sender, receiver) = crossbeam_channel::bounded::<()>(1);
    let first = Sources::new(Some(receiver.clone()), None);
    let second = Sources::new(Some(receiver), None);
    let mut a = Monitor::new(&first, false);
    let mut b = Monitor::new(&second, true);
    sender.send(()).unwrap();
    assert_eq!(a.step(Event::Wake), Action::Kill(KillReason::Cancelled));
    assert_eq!(b.step(Event::Wake), Action::Kill(KillReason::Cancelled));
}

#[test]
fn hung_up_cancellation_channel_counts_as_fired() {
    let (sender, receiver) = crossbeam_channel::bounded::<()>(1);
    let sources = Sources::new(Some(receiver), None);
    let mut monitor = Monitor::new(&sources, false);
    drop(sender);
    assert_eq!(monitor.step(Event::Wake), Action::Kill(KillReason::Cancelled));
}

#[test]
fn pipe_ends_with_the_downstream_status() {
    let sources = Sources::none();
    let mut monitor = Monitor::new(&sources, true);
    assert_eq!(monitor.step(Event::Wake), Action::Poll(Child::Downstream));
    assert_eq!(monitor.step(Event::Polled(None)), Action::Poll(Child::Upstream));
    assert_eq!(monitor.step(Event::Polled(None)), Action::Wait);
    assert_eq!(monitor.step(Event::Wake), Action::Poll(Child::Downstream));
    assert_eq!(monitor.step(Event::Polled(Some(ExitStatus::Exited(0)))), finish(ExitStatus::Exited(0), true));
    assert_eq!(monitor.kill_reason(), None);
}

#[test]
fn upstream_exit_kills_a_downstream_that_lingers() {
    let sources = Sources::none();
    let mut monitor = Monitor::new(&sources, true);
    assert_eq!(monitor.step(Event::Wake), Action::Poll(Child::Downstream));
    assert_eq!(monitor.step(Event::Polled(None)), Action::Poll(Child::Upstream));
    assert_eq!(monitor.step(Event::Polled(Some(ExitStatus::Exited(0)))), Action::Poll(Child::Downstream));
    assert_eq!(monitor.watch().phase, Phase::Rechecking);
    assert_eq!(monitor.step(Event::Polled(None)), Action::Kill(KillReason::UpstreamExited));
    assert!(KillReason::UpstreamExited.hits(Child::Downstream));
    assert!(!KillReason::UpstreamExited.hits(Child::Upstream));
    // After the kill the upstream child is not looked at again.
    assert_eq!(monitor.step(Event::Wake), Action::Poll(Child::Downstream));
    assert_eq!(monitor.step(Event::Polled(None)), Action::Wait);
    assert_eq!(monitor.step(Event::Wake), Action::Poll(Child::Downstream));
    assert_eq!(monitor.step(Event::Polled(Some(ExitStatus::Signaled(9)))), finish(ExitStatus::Signaled(9), true));
    assert_eq!(monitor.kill_reason(), Some(KillReason::UpstreamExited));
}

#[test]
fn upstream_exit_with_downstream_done_is_no_kill() {
    let sources = Sources::none();
    let mut monitor = Monitor::new(&sources, true);
    assert_eq!(monitor.step(Event::Wake), Action::Poll(Child::Downstream));
    assert_eq!(monitor.step(Event::Polled(None)), Action::Poll(Child::Upstream));
    assert_eq!(monitor.step(Event::Polled(Some(ExitStatus::Exited(0)))), Action::Poll(Child::Downstream));
    assert_eq!(monitor.step(Event::Polled(Some(ExitStatus::Exited(1)))), finish(ExitStatus::Exited(1), true));
    assert_eq!(monitor.kill_reason(), None);
}

#[test]
fn cancellation_of_a_pipe_takes_both_children_down() {
    let (sender, receiver) = crossbeam_channel::bounded::<()>(1);
    let sources = Sources::new(Some(receiver), None);
    let mut monitor = Monitor::new(&sources, true);
    sender.send(()).unwrap();
    let action = monitor.step(Event::Wake);
    assert_eq!(action, Action::Kill(KillReason::Cancelled));
    assert!(KillReason::Cancelled.hits(Child::Upstream));
    assert!(KillReason::Cancelled.hits(Child::Downstream));
    assert!(KillReason::TimedOut.hits(Child::Upstream));
    assert!(KillReason::TimedOut.hits(Child::Downstream));
    // Once killed, a piped run no longer looks at the upstream child.
    assert_eq!(monitor.step(Event::Wake), Action::Poll(Child::Downstream));
    assert_eq!(monitor.step(Event::Polled(None)), Action::Wait);
}

#[test]
fn misplaced_reports_change_nothing() {
    let sources = Sources::none();
    let mut monitor = Monitor::new(&sources, false);
    let before = monitor.watch();
    assert_eq!(monitor.step(Event::Polled(Some(ExitStatus::Exited(0)))), Action::Wait);
    assert_eq!(monitor.watch(), before);
    assert_eq!(monitor.step(Event::Wake), Action::Poll(Child::Downstream));
    let polling = monitor.watch();
    assert_eq!(monitor.step(Event::Wake), Action::Poll(Child::Downstream));
    assert_eq!(monitor.watch(), polling);
}

#[test]
fn table_fires_only_sources_that_are_listened_to() {
    let idle = Watch::new(false, true, false);
    assert_eq!(
        idle.step(Some(Source::Cancel), Event::Wake),
        (Watch { cancel: false, kill: Some(KillReason::Cancelled), ..idle }, Action::Kill(KillReason::Cancelled))
    );
    assert_eq!(
        idle.step(Some(Source::Timeout), Event::Wake),
        (Watch { phase: Phase::Polling(Child::Downstream), ..idle }, Action::Poll(Child::Downstream))
    );
    assert_eq!(
        idle.step(None, Event::Wake),
        (Watch { phase: Phase::Polling(Child::Downstream), ..idle }, Action::Poll(Child::Downstream))
    );
    let armed = Watch::new(true, true, true);
    assert_eq!(
        armed.step(Some(Source::Timeout), Event::Wake),
        (Watch { timeout: false, kill: Some(KillReason::TimedOut), ..armed }, Action::Kill(KillReason::TimedOut))
    );
    let killed = Watch { kill: Some(KillReason::TimedOut), timeout: false, ..armed };
    assert_eq!(killed.step(Some(Source::Cancel), Event::Wake), (Watch { cancel: false, ..killed }, Action::Wait));
}

#[test]
fn table_consults_sources_only_when_idle_and_woken() {
    let idle = Watch::new(true, true, true);
    assert!(idle.consults(Event::Wake));
    assert!(!idle.consults(Event::Polled(None)));
    let polling = Watch { phase: Phase::Polling(Child::Downstream), ..idle };
    assert!(!polling.consults(Event::Wake));
    assert!(!polling.consults(Event::Polled(None)));
    let done = Watch { phase: Phase::Done(ExitStatus::Exited(0)), ..idle };
    assert!(!done.consults(Event::Wake));
    // Away from that point a ready source is not even looked at.
    assert_eq!(
        polling.step(Some(Source::Cancel), Event::Polled(None)),
        (Watch { phase: Phase::Polling(Child::Upstream), ..polling }, Action::Poll(Child::Upstream))
    );
}

#[test]
fn table_rows_of_a_piped_run() {
    let start = Watch::new(true, false, false);
    let rechecking = Watch { phase: Phase::Rechecking, ..start };
    assert_eq!(rechecking.step(None, Event::Wake), (rechecking, Action::Poll(Child::Downstream)));
    assert_eq!(
        rechecking.step(None, Event::Polled(None)),
        (Watch { phase: Phase::Idle, kill: Some(KillReason::UpstreamExited), ..start }, Action::Kill(KillReason::UpstreamExited))
    );
    let killed = Watch { phase: Phase::Rechecking, kill: Some(KillReason::Cancelled), ..start };
    assert_eq!(killed.step(None, Event::Polled(None)), (Watch { phase: Phase::Idle, ..killed }, Action::Wait));
    let upstream = Watch { phase: Phase::Polling(Child::Upstream), ..start };
    assert_eq!(upstream.step(None, Event::Polled(None)), (Watch { phase: Phase::Idle, ..start }, Action::Wait));
    assert_eq!(upstream.step(None, Event::Wake), (upstream, Action::Poll(Child::Upstream)));
    let single = Watch { phase: Phase::Polling(Child::Downstream), ..Watch::new(false, false, false) };
    assert_eq!(single.step(None, Event::Polled(None)), (Watch { phase: Phase::Idle, ..single }, Action::Wait));
}

#[test]
fn verdict_is_repeated_and_never_replaced() {
    let done = Watch { phase: Phase::Done(ExitStatus::Exited(2)), ..Watch::new(true, true, true) };
    let verdict = finish(ExitStatus::Exited(2), true);
    assert_eq!(done.step(None, Event::Wake), (done, verdict));
    assert_eq!(done.step(Some(Source::Cancel), Event::Wake), (done, verdict));
    assert_eq!(done.step(Some(Source::Timeout), Event::Polled(Some(ExitStatus::Signaled(9)))), (done, verdict));
}

#[test]
fn independent_runs_do_not_touch_each_other() {
    let (sender, receiver) = crossbeam_channel::bounded::<()>(1);
    let watched = Sources::new(Some(receiver), None);
    let unwatched = Sources::none();
    let mut a = Monitor::new(&watched, false);
    let mut b = Monitor::new(&unwatched, false);
    let mut c = Monitor::new(&unwatched, true);
    sender.send(()).unwrap();
    assert_eq!(a.step(Event::Wake), Action::Kill(KillReason::Cancelled));
    assert_eq!(b.step(Event::Wake), Action::Poll(Child::Downstream));
    assert_eq!(c.step(Event::Wake), Action::Poll(Child::Downstream));
    assert_eq!(b.step(Event::Polled(Some(ExitStatus::Exited(0)))), finish(ExitStatus::Exited(0), false));
    assert_eq!(c.step(Event::Polled(Some(ExitStatus::Exited(7)))), finish(ExitStatus::Exited(7), true));
    assert_eq!(a.step(Event::Wake), Action::Poll(Child::Downstream));
    assert_eq!(a.status(), None);
    assert_eq!(b.kill_reason(), None);
    assert_eq!(c.kill_reason(), None);
}
