use vstd::prelude::*;

use crate::delay::Delay;
use crate::strategy::{Backoff, Explicit, Fixed};

verus! {

/// Whether an attempt is in flight.
#[derive(Debug, Clone, Copy, PartialEq, Eq, Structural)]
pub enum RetryState {
    /// No attempt has started yet.
    Initing,
    /// Attempt `n` is in flight: its action and its timer are running.
    Running(u64),
}

/// What the driver is waiting to be told next.
#[derive(Debug, Clone, Copy, PartialEq, Eq, Structural)]
pub enum Stage {
    /// Between resumptions: the next call is `resume`.
    Idle,
    /// The in-flight action is to be polled: the next call is `action_polled`.
    ActionDue,
    /// The action is pending and the timer is to be polled: the next call is `timer_polled`.
    TimerDue,
    /// An action completed: the run is over with its output.
    Succeeded,
    /// The delay sequence ended at an attempt boundary: the run is over.
    Exhausted,
}

/// What the host is to do next.
#[derive(Debug, Clone, Copy, PartialEq, Eq, Structural)]
pub enum Step {
    /// Drop any previous attempt, make the action of attempt `attempt`, start a timer
    /// of `delay`, then poll the new action.
    Start { attempt: u64, delay: Delay },
    /// Poll the in-flight action and report with `action_polled`.
    PollAction,
    /// Poll the timer and report with `timer_polled`.
    PollTimer,
    /// Suspend; call `resume` when woken.
    Suspend,
    /// Finish with the output of the action just polled.
    Succeed,
    /// Finish with the exhaustion error.
    Exhaust,
}

/// The decisions of a retry run over the delay strategy `S`: which attempt to start
/// with which delay, what to poll, when to suspend and when to finish.
pub struct Retry<S> {
    strategy: S,
    state: RetryState,
    stage: Stage,
    initial: Ghost<S>,
}

/// Starts a retry run over `strategy`.
pub fn retry<S: Backoff>(strategy: S) -> (r: Retry<S>)
    requires
        strategy.inv(),
    ensures
        r.wf(),
        r.initial() == strategy,
        r.state() == RetryState::Initing,
        r.stage() == Stage::Idle,
        r.started() == 0,
{
    let ghost initial = strategy;
    Retry { strategy, state: RetryState::Initing, stage: Stage::Idle, initial: Ghost(initial) }
}

impl<S: Backoff> Retry<S> {
    /// The strategy as it was when the run started.
    pub closed spec fn initial(&self) -> S {
        self.initial@
    }

    /// The strategy in its current state.
    pub closed spec fn strategy(&self) -> S {
        self.strategy
    }

    pub closed spec fn state(&self) -> RetryState {
        self.state
    }

    pub closed spec fn stage(&self) -> Stage {
        self.stage
    }

    /// The delay that the run pairs with attempt `k`, or `None` when the sequence ends
    /// before it.
    pub open spec fn delay_of(&self, k: nat) -> Option<Delay> {
        self.initial().upcoming(k)
    }

    /// How many attempts have started.
    pub open spec fn started(&self) -> nat {
        match self.state() {
            RetryState::Initing => 0,
            RetryState::Running(n) => (n + 1) as nat,
        }
    }

    /// How many delays have been pulled from the strategy.
    pub open spec fn pulled(&self) -> nat {
        if self.stage() == Stage::Exhausted {
            self.started() + 1
        } else {
            self.started()
        }
    }

    /// Whether the run has finished.
    pub open spec fn finished(&self) -> bool {
        self.stage() == Stage::Succeeded || self.stage() == Stage::Exhausted
    }

    /// The driver's invariant: the strategy stands `pulled()` delays into the schedule
    /// that the run started with, every started attempt had a delay, and a run that
    /// ended exhausted found none for the attempt after the last one.
    pub open spec fn wf(&self) -> bool {
        &&& self.strategy().inv()
        &&& self.initial().inv()
        &&& forall|k: nat| #[trigger]
            self.strategy().upcoming(k) == self.initial().upcoming(k + self.pulled())
        &&& forall|k: nat| k < self.started() ==> (#[trigger] self.initial().upcoming(k)) is Some
        &&& self.stage() == Stage::Exhausted ==> self.delay_of(self.started()) is None
        &&& self.state() == RetryState::Initing ==> (self.stage() == Stage::Idle || self.stage()
            == Stage::Exhausted)
    }

    /// The attempt in flight (0 before the first).
    pub open spec fn attempt(&self) -> nat {
        match self.state() {
            RetryState::Initing => 0,
            RetryState::Running(n) => n as nat,
        }
    }

    /// Whether an attempt is in flight, and which.
    pub fn current_state(&self) -> (r: RetryState)
        ensures
            r == self.state(),
    {
        self.state
    }

    /// What the driver is waiting to be told next.
    pub fn current_stage(&self) -> (r: Stage)
        ensures
            r == self.stage(),
    {
        self.stage
    }

    /// Pulls the delay for attempt `n` and starts it, or finishes exhausted.
    fn advance(&mut self, n: u64) -> (r: Step)
        requires
            old(self).wf(),
            n == old(self).started(),
            old(self).stage() != Stage::Exhausted,
        ensures
            final(self).wf(),
            final(self).initial() == old(self).initial(),
            match old(self).delay_of(n as nat) {
                Some(d) => {
                    &&& r == (Step::Start { attempt: n, delay: d })
                    &&& final(self).state() == RetryState::Running(n)
                    &&& final(self).stage() == Stage::ActionDue
                },
                None => {
                    &&& r == Step::Exhaust
                    &&& final(self).state() == old(self).state()
                    &&& final(self).stage() == Stage::Exhausted
                },
            },
    {
        let next = self.strategy.next_delay();
        proof {
            assert(self.pulled() == old(self).pulled());
            assert(old(self).strategy().upcoming(0) == self.initial().upcoming(n as nat));
        }
        match next {
            Some(delay) => {
                self.state = RetryState::Running(n);
                self.stage = Stage::ActionDue;
                proof {
                    assert forall|k: nat| #[trigger]
                        self.strategy().upcoming(k) == self.initial().upcoming(k + self.pulled()) by {
                        assert(old(self).strategy().upcoming(k + 1) == self.initial().upcoming(
                            (k + 1 + n) as nat,
                        ));
                    }
                    assert forall|k: nat| k < self.started() implies (#[trigger] self.delay_of(
                        k,
                    )) is Some by {
                        if k < n {
                            assert(old(self).delay_of(k) is Some);
                        }
                    }
                }
                Step::Start { attempt: n, delay }
            },
            None => {
                self.stage = Stage::Exhausted;
                proof {
                    assert forall|k: nat| #[trigger]
                        self.strategy().upcoming(k) == self.initial().upcoming(k + self.pulled()) by {
                        assert(old(self).strategy().upcoming(k + 1) == self.initial().upcoming(
                            (k + 1 + n) as nat,
                        ));
                    }
                }
                Step::Exhaust
            },
        }
    }

    /// Called each time the run is resumed: starts the first attempt, or asks for the
    /// in-flight action to be polled.
    pub fn resume(&mut self) -> (r: Step)
        requires
            old(self).wf(),
            old(self).stage() == Stage::Idle,
        ensures
            final(self).wf(),
            final(self).initial() == old(self).initial(),
            old(self).state() == RetryState::Initing ==> match old(self).delay_of(0) {
                Some(d) => {
                    &&& r == (Step::Start { attempt: 0, delay: d })
                    &&& final(self).state() == RetryState::Running(0)
                    &&& final(self).stage() == Stage::ActionDue
                },
                None => {
                    &&& r == Step::Exhaust
                    &&& final(self).state() == RetryState::Initing
                    &&& final(self).stage() == Stage::Exhausted
                },
            },
            r is Start ==> r->attempt == old(self).started() && final(self).started()
                == old(self).started() + 1,
            !(r is Start) ==> final(self).started() == old(self).started(),
            old(self).state() != RetryState::Initing ==> {
                &&& r == Step::PollAction
                &&& final(self).state() == old(self).state()
                &&& final(self).stage() == Stage::ActionDue
            },
    {
        match self.state {
            RetryState::Initing => self.advance(0),
            RetryState::Running(_) => {
                self.stage = Stage::ActionDue;
                Step::PollAction
            },
        }
    }

    /// Takes the outcome of polling the in-flight action. The action is always polled
    /// before the timer, so an action that is ready wins even when its timer has
    /// elapsed too.
    pub fn action_polled(&mut self, ready: bool) -> (r: Step)
        requires
            old(self).wf(),
            old(self).stage() == Stage::ActionDue,
        ensures
            final(self).wf(),
            final(self).initial() == old(self).initial(),
            final(self).state() == old(self).state(),
            final(self).started() == old(self).started(),
            ready ==> r == Step::Succeed && final(self).stage() == Stage::Succeeded
                && final(self).finished(),
            !ready ==> r == Step::PollTimer && final(self).stage() == Stage::TimerDue,
    {
        if ready {
            self.stage = Stage::Succeeded;
            Step::Succeed
        } else {
            self.stage = Stage::TimerDue;
            Step::PollTimer
        }
    }

    /// Takes the outcome of polling the timer of the in-flight attempt `n`, whose action
    /// is pending: suspends while the timer runs; once it has elapsed, abandons attempt
    /// `n` and starts attempt `n + 1` with the next delay, or finishes exhausted.
    pub fn timer_polled(&mut self, elapsed: bool) -> (r: Step)
        requires
            old(self).wf(),
            old(self).stage() == Stage::TimerDue,
            old(self).attempt() < u64::MAX,
        ensures
            final(self).wf(),
            final(self).initial() == old(self).initial(),
            r is Start ==> r->attempt == old(self).started() && final(self).started()
                == old(self).started() + 1,
            !(r is Start) ==> final(self).started() == old(self).started(),
            !elapsed ==> {
                &&& r == Step::Suspend
                &&& final(self).state() == old(self).state()
                &&& final(self).stage() == Stage::Idle
            },
            elapsed ==> match old(self).delay_of(old(self).started()) {
                Some(d) => {
                    &&& r == (Step::Start { attempt: (old(self).attempt() + 1) as u64, delay: d })
                    &&& final(self).state() == RetryState::Running((old(self).attempt() + 1) as u64)
                    &&& final(self).stage() == Stage::ActionDue
                },
                None => {
                    &&& r == Step::Exhaust
                    &&& final(self).state() == old(self).state()
                    &&& final(self).stage() == Stage::Exhausted
                },
            },
    {
        match self.state {
            RetryState::Running(n) => {
                if elapsed {
                    self.advance(n + 1)
                } else {
                    self.stage = Stage::Idle;
                    Step::Suspend
                }
            },
            RetryState::Initing => {
                // no timer runs before the first attempt
                proof {
                    assert(false);
                }
                self.stage = Stage::Idle;
                Step::Suspend
            },
        }
    }
}

/// Every attempt of a run over an explicit list is paired with a delay of the list:
/// a list of length `L` allows at most `L` attempts, and a run that ends exhausted
/// has made exactly `L`.
pub proof fn lemma_list_bounds_attempts(r: &Retry<Explicit>)
    requires
        r.wf(),
    ensures
        r.started() <= r.initial().remaining(),
        r.stage() == Stage::Exhausted ==> r.started() == r.initial().remaining(),
{
    if r.started() > 0 {
        assert(r.initial().upcoming((r.started() - 1) as nat) is Some);
    }
}

/// A run over a strategy that never ends its sequence never finishes exhausted: it
/// goes on until an action completes.
pub proof fn lemma_endless_never_exhausts<S: Backoff>(r: &Retry<S>)
    requires
        r.wf(),
        forall|k: nat| #[trigger] r.initial().upcoming(k) is Some,
    ensures
        r.stage() != Stage::Exhausted,
{
    assert(r.initial().upcoming(r.started()) is Some);
}

/// A run over `Fixed` never finishes exhausted.
pub proof fn lemma_fixed_never_exhausts(r: &Retry<Fixed>)
    requires
        r.wf(),
    ensures
        r.stage() != Stage::Exhausted,
{
    lemma_endless_never_exhausts(r);
}

} // verus!
