//! Pre-authentication probing.
//!
//! For a host that refuses the login (or the connection), the probe times the
//! connection attempt itself, once per tick. An attempt whose login was denied
//! is one latency sample. The first attempt that yields a session ends this
//! phase: its time is the last sample here, and the session goes on to echo
//! probing with what is left of the iteration budget. A fatal transport error
//! ends the run with that error; cancellation ends it quietly.
//!
//! The caller performs the attempts and the waiting; this state decides what
//! follows each attempt.

use crate::classify::Classified;
use vstd::prelude::*;

verus! {

/// What to do after one connection attempt.
#[derive(Debug, PartialEq, Eq)]
pub enum PreAuthStep<S, E> {
    /// Wait for the next tick and attempt again, unless the budget is spent.
    Continue,
    /// Hand the session to echo probing, for `budget` more iterations.
    SwitchToEcho { session: S, budget: u64 },
    /// End the run with this error.
    Abort(E),
}

/// The state of the pre-auth phase of a run.
pub struct PreAuthProbe {
    count: u64,
    attempts: u64,
    samples: Vec<u64>,
    stopped: bool,
}

impl PreAuthProbe {
    /// The iteration budget of the run.
    pub closed spec fn count_spec(&self) -> u64 {
        self.count
    }

    /// Attempts made so far.
    pub closed spec fn attempts_spec(&self) -> u64 {
        self.attempts
    }

    /// Handshake times recorded so far, in microseconds.
    pub closed spec fn samples_spec(&self) -> Seq<u64> {
        self.samples@
    }

    /// Whether the phase ended before its budget ran out.
    pub closed spec fn stopped_spec(&self) -> bool {
        self.stopped
    }

    /// No more attempts than the budget allows.
    pub closed spec fn wf(&self) -> bool {
        self.attempts <= self.count
    }

    /// Whether the phase attempts no more connections.
    pub open spec fn done_spec(&self) -> bool {
        self.stopped_spec() || self.attempts_spec() >= self.count_spec()
    }

    /// The phase at its start, with an iteration budget of `count`.
    pub fn new(count: u64) -> (p: PreAuthProbe)
        ensures
            p.wf(),
            p.count_spec() == count,
            p.attempts_spec() == 0,
            p.samples_spec() == Seq::<u64>::empty(),
            !p.stopped_spec(),
    {
        PreAuthProbe { count, attempts: 0, samples: Vec::new(), stopped: false }
    }

    /// The phase of a run with an iteration budget of `count` whose first
    /// attempt, which took `elapsed` microseconds, was a denied login when
    /// `login_denied` holds and a refused connection otherwise. That attempt
    /// counts against the budget; a denied login is its first sample.
    pub fn after_first_attempt(count: u64, login_denied: bool, elapsed: u64) -> (p: PreAuthProbe)
        ensures
            p.wf(),
            p.count_spec() == count,
            !p.stopped_spec(),
            count == 0 ==> p.attempts_spec() == 0 && p.samples_spec() == Seq::<u64>::empty(),
            count > 0 ==> p.attempts_spec() == 1,
            count > 0 && login_denied ==> p.samples_spec() == seq![elapsed],
            count > 0 && !login_denied ==> p.samples_spec() == Seq::<u64>::empty(),
    {
        let mut p = PreAuthProbe::new(count);
        if count > 0 {
            let first: Classified<(), ()> = if login_denied {
                Classified::AuthRejected
            } else {
                Classified::Unreachable
            };
            p.on_attempt(first, elapsed);
        }
        p
    }

    /// Whether the phase attempts no more connections.
    pub fn is_done(&self) -> (r: bool)
        ensures
            r == self.done_spec(),
    {
        self.stopped || self.attempts >= self.count
    }

    /// Sequence number of the next attempt.
    pub fn attempts(&self) -> (r: u64)
        ensures
            r == self.attempts_spec(),
    {
        self.attempts
    }

    /// Takes in the class of one attempt that took `elapsed` microseconds, and
    /// says what follows.
    pub fn on_attempt<S, E>(&mut self, outcome: Classified<S, E>, elapsed: u64) -> (r: PreAuthStep<
        S,
        E,
    >)
        requires
            old(self).wf(),
            !old(self).done_spec(),
        ensures
            final(self).wf(),
            final(self).count_spec() == old(self).count_spec(),
            final(self).attempts_spec() == old(self).attempts_spec() + 1,
            outcome is AuthRejected ==> {
                &&& r is Continue
                &&& final(self).samples_spec() == old(self).samples_spec().push(elapsed)
                &&& !final(self).stopped_spec()
            },
            outcome is Unreachable ==> {
                &&& r is Continue
                &&& final(self).samples_spec() == old(self).samples_spec()
                &&& !final(self).stopped_spec()
            },
            outcome matches Classified::Authenticated(s) ==> {
                &&& r == PreAuthStep::<S, E>::SwitchToEcho {
                    session: s,
                    budget: (old(self).count_spec() - old(self).attempts_spec() - 1) as u64,
                }
                &&& final(self).samples_spec() == old(self).samples_spec().push(elapsed)
                &&& final(self).stopped_spec()
            },
            outcome matches Classified::Fatal(e) ==> {
                &&& r == PreAuthStep::<S, E>::Abort(e)
                &&& final(self).samples_spec() == old(self).samples_spec()
                &&& final(self).stopped_spec()
            },
    {
        self.attempts = self.attempts + 1;
        match outcome {
            Classified::AuthRejected => {
                self.samples.push(elapsed);
                PreAuthStep::Continue
            },
            Classified::Unreachable => PreAuthStep::Continue,
            Classified::Authenticated(session) => {
                self.samples.push(elapsed);
                self.stopped = true;
                PreAuthStep::SwitchToEcho { session, budget: self.count - self.attempts }
            },
            Classified::Fatal(e) => {
                self.stopped = true;
                PreAuthStep::Abort(e)
            },
        }
    }

    /// Ends the phase on cancellation, keeping every sample.
    pub fn cancel(&mut self)
        requires
            old(self).wf(),
        ensures
            final(self).wf(),
            final(self).stopped_spec(),
            final(self).count_spec() == old(self).count_spec(),
            final(self).attempts_spec() == old(self).attempts_spec(),
            final(self).samples_spec() == old(self).samples_spec(),
    {
        self.stopped = true;
    }

    /// The handshake times recorded so far, in microseconds.
    pub fn samples(&self) -> (r: &[u64])
        ensures
            r@ == self.samples_spec(),
    {
        self.samples.as_slice()
    }
}

} // verus!
