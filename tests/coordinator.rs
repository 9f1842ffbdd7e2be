use shared_child::coordinator::{
    Coordinator, LeaderStep, OsError, TryStart, WaitError, WaitStart, WaitState,
};

// Raw wait status of a child killed by SIGKILL.
const KILLED: i32 = 9;

/// A stand-in for a running child: it exits when signalled, and counts the
/// blocking waits, reaps and signals made on it.
struct FakeChild {
    exit: Option<i32>,
    blocking_waits: usize,
    reaps: usize,
    signals: usize,
}

impl FakeChild {
    fn new() -> FakeChild {
        FakeChild { exit: None, blocking_waits: 0, reaps: 0, signals: 0 }
    }

    fn wait_without_reaping(&mut self) -> Result<(), OsError> {
        assert!(self.exit.is_some(), "the waiting thread would still be blocked");
        assert_eq!(self.reaps, 0, "waiting on a reaped child");
        self.blocking_waits += 1;
        Ok(())
    }

    fn poll(&mut self) -> Result<Option<i32>, OsError> {
        if self.exit.is_some() {
            self.reaps += 1;
        }
        Ok(self.exit)
    }

    fn kill(&mut self, c: &Coordinator) {
        if c.kill_needs_signal() {
            assert_eq!(self.reaps, 0, "signalling a reaped child");
            self.signals += 1;
            self.exit = Some(KILLED);
        }
    }
}

#[test]
fn wait_on_child_that_exited_returns_zero() {
    let mut c = Coordinator::new();
    assert_eq!(c.begin_wait(), WaitStart::Lead);
    assert_eq!(c.state(), WaitState::Waiting);
    assert_eq!(c.blocking_wait_done(Ok(())), LeaderStep::Reap);
    assert_eq!(c.reap_done(Ok(Some(0))), Ok(0));
    assert_eq!(c.state(), WaitState::Exited(0));
    assert_eq!(c.begin_wait(), WaitStart::Finished(0));
}

#[test]
fn try_wait_before_and_after_exit() {
    let mut c = Coordinator::new();
    assert_eq!(c.begin_try_wait(), TryStart::Poll);
    assert_eq!(c.poll_done(Ok(None)), Ok(None));
    assert_eq!(c.state(), WaitState::NotWaiting);
    assert!(c.kill_needs_signal());
    assert_eq!(c.begin_try_wait(), TryStart::Poll);
    assert_eq!(c.poll_done(Ok(Some(KILLED))), Ok(Some(KILLED)));
    for _ in 0..3 {
        assert_eq!(c.begin_try_wait(), TryStart::Known(Some(KILLED)));
    }
    assert_eq!(c.begin_wait(), WaitStart::Finished(KILLED));
}

#[test]
fn try_wait_does_not_join_a_wait_in_progress() {
    let mut c = Coordinator::new();
    assert_eq!(c.begin_wait(), WaitStart::Lead);
    assert_eq!(c.begin_try_wait(), TryStart::Known(None));
    assert_eq!(c.begin_wait(), WaitStart::Block);
    assert_eq!(c.state(), WaitState::Waiting);
}

#[test]
fn kill_after_exit_sends_nothing() {
    let mut c = Coordinator::new();
    assert!(c.kill_needs_signal());
    assert_eq!(c.begin_wait(), WaitStart::Lead);
    assert!(c.kill_needs_signal());
    assert_eq!(c.blocking_wait_done(Ok(())), LeaderStep::Reap);
    assert_eq!(c.reap_done(Ok(Some(KILLED))), Ok(KILLED));
    assert!(!c.kill_needs_signal());
}

#[test]
fn failed_wait_can_be_retried() {
    let mut c = Coordinator::new();
    let e = OsError { code: 10 };
    assert_eq!(c.begin_wait(), WaitStart::Lead);
    assert_eq!(c.blocking_wait_done(Err(e)), LeaderStep::Done(Err(WaitError::Os(e))));
    assert_eq!(c.state(), WaitState::NotWaiting);
    assert_eq!(c.begin_wait(), WaitStart::Lead);
    assert_eq!(c.blocking_wait_done(Ok(())), LeaderStep::Reap);
    assert_eq!(c.reap_done(Ok(Some(3))), Ok(3));
}

#[test]
fn reap_finding_child_running_is_an_error() {
    let mut c = Coordinator::new();
    assert_eq!(c.begin_wait(), WaitStart::Lead);
    assert_eq!(c.blocking_wait_done(Ok(())), LeaderStep::Reap);
    assert_eq!(c.reap_done(Ok(None)), Err(WaitError::ReapFoundRunning));
    assert_eq!(c.state(), WaitState::NotWaiting);
}

#[test]
fn reap_error_gives_up_the_wait() {
    let mut c = Coordinator::new();
    let e = OsError { code: 4 };
    assert_eq!(c.begin_wait(), WaitStart::Lead);
    assert_eq!(c.blocking_wait_done(Ok(())), LeaderStep::Reap);
    assert_eq!(c.reap_done(Err(e)), Err(WaitError::Os(e)));
    assert_eq!(c.state(), WaitState::NotWaiting);
    assert!(c.kill_needs_signal());
}

#[test]
fn poll_error_leaves_state() {
    let mut c = Coordinator::new();
    let e = OsError { code: 10 };
    assert_eq!(c.poll_done(Err(e)), Err(e));
    assert_eq!(c.state(), WaitState::NotWaiting);
}

#[test]
fn ten_waiters_and_one_kill() {
    let mut c = Coordinator::new();
    let mut child = FakeChild::new();
    // Ten callers look at the state in turn: the first becomes the waiting
    // thread, the other nine block on the condition variable.
    let mut starts = Vec::new();
    for _ in 0..10 {
        starts.push(c.begin_wait());
    }
    assert_eq!(starts[0], WaitStart::Lead);
    for s in &starts[1..] {
        assert_eq!(*s, WaitStart::Block);
    }
    // A spurious wakeup blocks again.
    assert_eq!(c.begin_wait(), WaitStart::Block);
    // Another thread kills the child while it is being waited on.
    child.kill(&c);
    assert_eq!(child.signals, 1);
    // The waiting thread wakes up and reaps.
    let woke = child.wait_without_reaping();
    assert_eq!(c.blocking_wait_done(woke), LeaderStep::Reap);
    let reap = child.poll();
    let mut results = vec![c.reap_done(reap)];
    // The nine blocked callers are woken and see the same status.
    for _ in 0..9 {
        match c.begin_wait() {
            WaitStart::Finished(status) => results.push(Ok(status)),
            other => panic!("unexpected {:?}", other),
        }
    }
    assert_eq!(results.len(), 10);
    for r in &results {
        assert_eq!(*r, Ok(KILLED));
    }
    assert_eq!(child.blocking_waits, 1);
    assert_eq!(child.reaps, 1);
    // A later kill sends nothing.
    child.kill(&c);
    assert_eq!(child.signals, 1);
}
