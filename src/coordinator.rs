use vstd::prelude::*;

verus! {

/// An error number reported by the operating system.
#[derive(Clone, Copy, Debug, PartialEq, Eq, Structural)]
pub struct OsError {
    pub code: i32,
}

/// Why a `wait` did not produce an exit status.
#[derive(Clone, Copy, Debug, PartialEq, Eq, Structural)]
pub enum WaitError {
    /// The blocking wait or the reap failed with this error.
    Os(OsError),
    /// The blocking wait reported an exit, but the reap right after it found
    /// the child still running: the platform broke its own contract.
    ReapFoundRunning,
}

/// What is known of the child. The status is the raw wait status that the
/// platform reported when the child was reaped.
#[derive(Clone, Copy, Debug, PartialEq, Eq, Structural)]
pub enum WaitState {
    /// No thread is blocked waiting on the child.
    NotWaiting,
    /// Exactly one thread is blocked waiting on the child, without reaping it.
    Waiting,
    /// The child has exited and been reaped, with this status.
    Exited(i32),
}

/// What a thread that called `wait` does after looking at the state.
#[derive(Clone, Copy, Debug, PartialEq, Eq, Structural)]
pub enum WaitStart {
    /// The child is known to have exited: return this status.
    Finished(i32),
    /// Another thread is waiting: block on the condition variable, then look again.
    Block,
    /// This thread has become the one that waits on the child.
    Lead,
}

/// What the waiting thread does once its blocking wait has returned.
#[derive(Clone, Copy, Debug, PartialEq, Eq)]
pub enum LeaderStep {
    /// The child has exited: reap it, still holding the lock.
    Reap,
    /// Wake every blocked thread and return this result.
    Done(Result<i32, WaitError>),
}

/// What a thread that called `try_wait` does after looking at the state.
#[derive(Clone, Copy, Debug, PartialEq, Eq, Structural)]
pub enum TryStart {
    /// Return this answer without asking the platform.
    Known(Option<i32>),
    /// Nobody is waiting: poll the child without blocking, still holding the lock.
    Poll,
}

pub open spec fn wait_start_spec(s: WaitState) -> (WaitState, WaitStart) {
    match s {
        WaitState::NotWaiting => (WaitState::Waiting, WaitStart::Lead),
        WaitState::Waiting => (WaitState::Waiting, WaitStart::Block),
        WaitState::Exited(c) => (WaitState::Exited(c), WaitStart::Finished(c)),
    }
}

/// The waiting thread's next step, given what its blocking wait returned.
pub open spec fn blocking_wait_done_spec(woke: Result<(), OsError>) -> (WaitState, LeaderStep) {
    match woke {
        Ok(()) => (WaitState::Waiting, LeaderStep::Reap),
        Err(e) => (WaitState::NotWaiting, LeaderStep::Done(Err(WaitError::Os(e)))),
    }
}

/// The outcome of the waiting thread, given what its reap returned.
pub open spec fn reap_done_spec(reap: Result<Option<i32>, OsError>) -> (WaitState, Result<i32, WaitError>) {
    match reap {
        Ok(Some(c)) => (WaitState::Exited(c), Ok(c)),
        Ok(None) => (WaitState::NotWaiting, Err(WaitError::ReapFoundRunning)),
        Err(e) => (WaitState::NotWaiting, Err(WaitError::Os(e))),
    }
}

pub open spec fn try_start_spec(s: WaitState) -> TryStart {
    match s {
        WaitState::NotWaiting => TryStart::Poll,
        WaitState::Waiting => TryStart::Known(None),
        WaitState::Exited(c) => TryStart::Known(Some(c)),
    }
}

/// The state and the answer of `try_wait`, given what its poll returned.
pub open spec fn poll_done_spec(s: WaitState, poll: Result<Option<i32>, OsError>) -> (WaitState, Result<Option<i32>, OsError>) {
    match poll {
        Ok(Some(c)) => (WaitState::Exited(c), Ok(Some(c))),
        Ok(None) => (s, Ok(None)),
        Err(e) => (s, Err(e)),
    }
}

/// A kill signal is sent only to a child that has not been reaped.
pub open spec fn kill_signals_spec(s: WaitState) -> bool {
    !(s is Exited)
}

/// The state shared by every thread that waits on, polls, or kills one child.
/// Each method is one step taken while the caller holds the lock around it.
pub struct Coordinator {
    state: WaitState,
}

impl View for Coordinator {
    type V = WaitState;

    closed spec fn view(&self) -> WaitState {
        self.state
    }
}

impl Coordinator {
    /// A coordinator for a child that nobody waits on yet.
    pub fn new() -> (r: Coordinator)
        ensures
            r@ == WaitState::NotWaiting,
    {
        Coordinator { state: WaitState::NotWaiting }
    }

    pub fn state(&self) -> (r: WaitState)
        ensures
            r == self@,
    {
        self.state
    }

    /// The first step of `wait`: return the known status, block behind the
    /// thread that waits, or become that thread.
    pub fn begin_wait(&mut self) -> (r: WaitStart)
        ensures
            (final(self)@, r) == wait_start_spec(old(self)@),
    {
        match self.state {
            WaitState::NotWaiting => {
                self.state = WaitState::Waiting;
                WaitStart::Lead
            },
            WaitState::Waiting => WaitStart::Block,
            WaitState::Exited(c) => WaitStart::Finished(c),
        }
    }

    /// The waiting thread's step once its blocking wait has returned. A failed
    /// wait gives the role up, so that a later call can try again.
    pub fn blocking_wait_done(&mut self, woke: Result<(), OsError>) -> (r: LeaderStep)
        requires
            old(self)@ == WaitState::Waiting,
        ensures
            (final(self)@, r) == blocking_wait_done_spec(woke),
    {
        match woke {
            Ok(()) => LeaderStep::Reap,
            Err(e) => {
                self.state = WaitState::NotWaiting;
                LeaderStep::Done(Err(WaitError::Os(e)))
            },
        }
    }

    /// The waiting thread's last step, given what the reap returned. The
    /// state leaves `Waiting` whatever happened.
    pub fn reap_done(&mut self, reap: Result<Option<i32>, OsError>) -> (r: Result<i32, WaitError>)
        requires
            old(self)@ == WaitState::Waiting,
        ensures
            (final(self)@, r) == reap_done_spec(reap),
    {
        match reap {
            Ok(Some(c)) => {
                self.state = WaitState::Exited(c);
                Ok(c)
            },
            Ok(None) => {
                self.state = WaitState::NotWaiting;
                Err(WaitError::ReapFoundRunning)
            },
            Err(e) => {
                self.state = WaitState::NotWaiting;
                Err(WaitError::Os(e))
            },
        }
    }

    /// The first step of `try_wait`. It never joins a wait in progress.
    pub fn begin_try_wait(&self) -> (r: TryStart)
        ensures
            r == try_start_spec(self@),
    {
        match self.state {
            WaitState::NotWaiting => TryStart::Poll,
            WaitState::Waiting => TryStart::Known(None),
            WaitState::Exited(c) => TryStart::Known(Some(c)),
        }
    }

    /// The last step of `try_wait`, given what the poll returned. Nobody else
    /// waits on the child, so a status found here is recorded for all.
    pub fn poll_done(&mut self, poll: Result<Option<i32>, OsError>) -> (r: Result<Option<i32>, OsError>)
        requires
            old(self)@ == WaitState::NotWaiting,
        ensures
            (final(self)@, r) == poll_done_spec(old(self)@, poll),
    {
        match poll {
            Ok(Some(c)) => {
                self.state = WaitState::Exited(c);
                Ok(Some(c))
            },
            Ok(None) => Ok(None),
            Err(e) => Err(e),
        }
    }

    /// Whether `kill` must send the signal. Once the child has exited, `kill`
    /// succeeds without sending anything.
    pub fn kill_needs_signal(&self) -> (r: bool)
        ensures
            r == kill_signals_spec(self@),
            r == !(self@ is Exited),
    {
        !matches!(self.state, WaitState::Exited(_))
    }
}

} // verus!
