use vstd::prelude::*;
use crate::coordinator::{
    blocking_wait_done_spec, kill_signals_spec, poll_done_spec, reap_done_spec,
    try_start_spec, wait_start_spec, LeaderStep, OsError, TryStart, WaitError, WaitStart,
    WaitState,
};

verus! {

/// Where a thread that calls `wait` stands.
pub enum Phase {
    /// It has not looked at the state yet.
    Idle,
    /// It blocks on the condition variable behind the waiting thread.
    Queued,
    /// It is the waiting thread, blocked in the wait that does not reap.
    Leading,
    /// It is the waiting thread, reaping the child under the lock.
    Reaping,
    /// Its call has returned this result.
    Returned(Result<i32, WaitError>),
}

/// Every thread's view of one child: the coordinator's state, where each
/// `wait` caller stands, how many times the child has been reaped, how many blocking
/// waits were started and how many of them failed.
pub struct Snapshot {
    pub state: WaitState,
    pub phases: Seq<Phase>,
    pub reaps: nat,
    pub leads: nat,
    pub failures: nat,
}

/// One step taken under the lock, with what the platform returned to it.
pub enum Event {
    /// `wait` caller `t` looks at the state: first, after a wakeup, or again
    /// after its earlier wait failed.
    Check(int),
    /// The blocking wait of the waiting thread `t` returned.
    Woke(int, Result<(), OsError>),
    /// The reap of the waiting thread `t` returned.
    Reaped(int, Result<Option<i32>, OsError>),
    /// Some thread calls `try_wait`, and a poll would return this.
    TryWait(Result<Option<i32>, OsError>),
}

/// The status that a `wait` returned, if it has returned one.
pub open spec fn returned_status(p: Phase) -> Option<i32> {
    match p {
        Phase::Returned(Ok(c)) => Some(c),
        _ => None,
    }
}

pub open spec fn is_leader(p: Phase) -> bool {
    p is Leading || p is Reaping
}

/// `n` threads about to call `wait` on a freshly spawned child.
pub open spec fn initial(n: nat) -> Snapshot {
    Snapshot {
        state: WaitState::NotWaiting,
        phases: Seq::new(n, |i: int| Phase::Idle),
        reaps: 0,
        leads: 0,
        failures: 0,
    }
}

/// The lock is held across the reap: nobody else moves meanwhile.
pub open spec fn lock_held_by_reaper(s: Snapshot) -> bool {
    exists|i: int| 0 <= i < s.phases.len() && #[trigger] s.phases[i] is Reaping
}

pub open spec fn enabled(s: Snapshot, e: Event) -> bool {
    match e {
        Event::Check(t) => {
            &&& 0 <= t < s.phases.len()
            &&& !lock_held_by_reaper(s)
            &&& (s.phases[t] is Idle || s.phases[t] is Queued || s.phases[t] matches Phase::Returned(Err(_)))
        },
        Event::Woke(t, _) => {
            &&& 0 <= t < s.phases.len()
            &&& !lock_held_by_reaper(s)
            &&& s.phases[t] is Leading
        },
        Event::Reaped(t, _) => 0 <= t < s.phases.len() && s.phases[t] is Reaping,
        Event::TryWait(_) => !lock_held_by_reaper(s),
    }
}

pub open spec fn step(s: Snapshot, e: Event) -> Snapshot {
    match e {
        Event::Check(t) => {
            let (ns, start) = wait_start_spec(s.state);
            let p = match start {
                WaitStart::Finished(c) => Phase::Returned(Ok(c)),
                WaitStart::Block => Phase::Queued,
                WaitStart::Lead => Phase::Leading,
            };
            Snapshot {
                state: ns,
                phases: s.phases.update(t, p),
                leads: if start is Lead { s.leads + 1 } else { s.leads },
                ..s
            }
        },
        Event::Woke(t, woke) => {
            let (ns, next) = blocking_wait_done_spec(woke);
            match next {
                LeaderStep::Reap => Snapshot { state: ns, phases: s.phases.update(t, Phase::Reaping), ..s },
                LeaderStep::Done(res) => Snapshot {
                    state: ns,
                    phases: s.phases.update(t, Phase::Returned(res)),
                    failures: s.failures + 1,
                    ..s
                },
            }
        },
        Event::Reaped(t, reap) => {
            let (ns, res) = reap_done_spec(reap);
            Snapshot {
                state: ns,
                phases: s.phases.update(t, Phase::Returned(res)),
                reaps: if ns is Exited { s.reaps + 1 } else { s.reaps },
                failures: if res is Err { s.failures + 1 } else { s.failures },
                ..s
            }
        },
        Event::TryWait(poll) => match try_start_spec(s.state) {
            TryStart::Poll => {
                let (ns, _) = poll_done_spec(s.state, poll);
                Snapshot { state: ns, reaps: if ns is Exited { s.reaps + 1 } else { s.reaps }, ..s }
            },
            TryStart::Known(_) => s,
        },
    }
}

/// The snapshot after the events in order, or `None` if one of them could
/// not happen where it stands.
pub open spec fn run(s: Snapshot, evs: Seq<Event>) -> Option<Snapshot>
    decreases evs.len(),
{
    if evs.len() == 0 {
        Some(s)
    } else if enabled(s, evs[0]) {
        run(step(s, evs[0]), evs.drop_first())
    } else {
        None
    }
}

/// What holds of every snapshot that the events can reach.
pub open spec fn inv(s: Snapshot) -> bool {
    &&& forall|i: int, j: int|
        0 <= i < s.phases.len() && 0 <= j < s.phases.len() && is_leader(#[trigger] s.phases[i])
            && is_leader(#[trigger] s.phases[j]) ==> i == j
    &&& (s.state is Waiting) == (exists|i: int| 0 <= i < s.phases.len() && is_leader(#[trigger] s.phases[i]))
    &&& s.reaps == (if s.state is Exited { 1nat } else { 0nat })
    &&& forall|i: int|
        0 <= i < s.phases.len() && #[trigger] returned_status(s.phases[i]) is Some
            ==> s.state == WaitState::Exited(returned_status(s.phases[i])->0)
    &&& s.leads <= s.failures + 1
    &&& !(s.state is Exited) ==> s.leads == s.failures + (if s.state is Waiting { 1nat } else { 0nat })
}

proof fn lemma_initial_inv(n: nat)
    ensures
        inv(initial(n)),
{
    let s = initial(n);
    assert forall|i: int| 0 <= i < s.phases.len() implies !is_leader(#[trigger] s.phases[i]) by {}
}

proof fn lemma_step_inv(s: Snapshot, e: Event)
    requires
        inv(s),
        enabled(s, e),
    ensures
        inv(step(s, e)),
{
    let s2 = step(s, e);
    match e {
        Event::Check(t) => {
            assert(!is_leader(s.phases[t]));
            if s.state is NotWaiting {
                assert forall|i: int| 0 <= i < s.phases.len() implies !is_leader(#[trigger] s.phases[i]) by {}
                assert(is_leader(s2.phases[t]));
            } else if s.state is Waiting {
                let w = choose|i: int| 0 <= i < s.phases.len() && is_leader(#[trigger] s.phases[i]);
                assert(is_leader(s2.phases[w]));
            }
        },
        Event::Woke(t, woke) => {
            assert(s.state is Waiting);
            if woke is Ok {
                assert(is_leader(s2.phases[t]));
            } else {
                assert forall|i: int| 0 <= i < s2.phases.len() implies !is_leader(#[trigger] s2.phases[i]) by {
                    if i != t {
                        assert(is_leader(s.phases[t]));
                    }
                }
            }
        },
        Event::Reaped(t, reap) => {
            assert(s.state is Waiting);
            assert forall|i: int| 0 <= i < s2.phases.len() implies !is_leader(#[trigger] s2.phases[i]) by {
                if i != t {
                    assert(is_leader(s.phases[t]));
                }
            }
        },
        Event::TryWait(poll) => {
            if s.state is NotWaiting {
                assert forall|i: int| 0 <= i < s.phases.len() implies !is_leader(#[trigger] s.phases[i]) by {}
            }
        },
    }
}

proof fn lemma_run_inv(s: Snapshot, evs: Seq<Event>)
    requires
        inv(s),
    ensures
        run(s, evs) matches Some(s2) ==> inv(s2),
    decreases evs.len(),
{
    if evs.len() > 0 && enabled(s, evs[0]) {
        lemma_step_inv(s, evs[0]);
        lemma_run_inv(step(s, evs[0]), evs.drop_first());
    }
}

/// However the calls interleave, at most one thread is ever inside the
/// blocking wait or the reap, exactly when the state is `Waiting`; and no
/// more blocking waits are started than one plus the number that failed, so
/// that when none fails a single thread waits on the child for all.
pub proof fn lemma_single_waiter(n: nat, evs: Seq<Event>)
    ensures
        run(initial(n), evs) matches Some(s) ==> {
            &&& forall|i: int, j: int|
                0 <= i < s.phases.len() && 0 <= j < s.phases.len() && is_leader(#[trigger] s.phases[i])
                    && is_leader(#[trigger] s.phases[j]) ==> i == j
            &&& (s.state is Waiting) == (exists|i: int| 0 <= i < s.phases.len() && is_leader(#[trigger] s.phases[i]))
            &&& s.leads <= s.failures + 1
        },
{
    lemma_initial_inv(n);
    lemma_run_inv(initial(n), evs);
}

/// Every `wait` that has returned a status returned the same one, the status
/// the child was reaped with.
pub proof fn lemma_waits_agree(n: nat, evs: Seq<Event>)
    ensures
        run(initial(n), evs) matches Some(s) ==> forall|i: int, j: int|
            0 <= i < s.phases.len() && 0 <= j < s.phases.len()
                && #[trigger] returned_status(s.phases[i]) is Some
                && #[trigger] returned_status(s.phases[j]) is Some
                ==> returned_status(s.phases[i]) == returned_status(s.phases[j])
                    && s.state == WaitState::Exited(returned_status(s.phases[i])->0),
{
    lemma_initial_inv(n);
    lemma_run_inv(initial(n), evs);
}

/// A kill signal is only ever sent to a child that has not been reaped, so its
/// identifier cannot have been reused; and the blocking wait only ever runs
/// on a child that has not been reaped.
pub proof fn lemma_signal_before_reap(n: nat, evs: Seq<Event>)
    ensures
        run(initial(n), evs) matches Some(s) ==> {
            &&& kill_signals_spec(s.state) ==> s.reaps == 0
            &&& forall|i: int| 0 <= i < s.phases.len() && is_leader(#[trigger] s.phases[i]) ==> s.reaps == 0
        },
{
    lemma_initial_inv(n);
    lemma_run_inv(initial(n), evs);
}

proof fn lemma_exited_stays(s: Snapshot, more: Seq<Event>)
    requires
        inv(s),
        s.state is Exited,
    ensures
        run(s, more) matches Some(s2) ==> s2.state == s.state && s2.reaps == 1,
    decreases more.len(),
{
    if more.len() > 0 && enabled(s, more[0]) {
        let e = more[0];
        match e {
            Event::Woke(t, _) => {
                assert(is_leader(s.phases[t]));
            },
            Event::Reaped(t, _) => {
                assert(is_leader(s.phases[t]));
            },
            _ => {},
        }
        lemma_step_inv(s, e);
        lemma_exited_stays(step(s, e), more.drop_first());
    }
}

/// The child is reaped at most once. Once it has been, the state never
/// changes again, whatever calls follow: every later `wait` returns the same
/// status without blocking, every later `try_wait` reports it without
/// polling, and `kill` succeeds without sending a signal.
pub proof fn lemma_exit_is_final(n: nat, evs: Seq<Event>, more: Seq<Event>)
    ensures
        run(initial(n), evs) matches Some(s) ==> {
            &&& s.reaps <= 1
            &&& s.state matches WaitState::Exited(c) ==> {
                &&& s.reaps == 1
                &&& run(s, more) matches Some(s2) ==> {
                    &&& s2.state == s.state
                    &&& s2.reaps == 1
                    &&& wait_start_spec(s2.state) == (s2.state, WaitStart::Finished(c))
                    &&& try_start_spec(s2.state) == TryStart::Known(Some(c))
                    &&& !kill_signals_spec(s2.state)
                }
            }
        },
{
    lemma_initial_inv(n);
    lemma_run_inv(initial(n), evs);
    if let Some(s) = run(initial(n), evs) {
        if s.state is Exited {
            lemma_exited_stays(s, more);
        }
    }
}

} // verus!
