//! The foreground wait for the credential to appear: a bounded sleep-and-poll
//! that ends with the credential, with the failure of the flow or with a
//! timeout, never later than its limit.

use crate::auth::AuthState;
use crate::error::Error;
use vstd::prelude::*;

verus! {

/// How long the wait sleeps between two looks at the store, in milliseconds.
pub const POLL_INTERVAL_MS: u64 = 25;

/// How long the user has to complete the authorization, in milliseconds.
pub const AUTH_TIMEOUT_MS: u64 = 60_000;

/// What the waiting side does next.
#[derive(Clone, Copy, Debug, PartialEq, Eq, Structural)]
pub enum Wait {
    /// The credential is there.
    Ready,
    /// Sleep this many milliseconds, then look again.
    Sleep(u64),
    /// The limit is reached: report `AuthenticationTimedOut`.
    TimedOut,
}

/// The decision of one look: a present credential ends the wait, whatever
/// the time; without it the wait sleeps for the interval, but for at least a
/// millisecond and not beyond the limit.
pub open spec fn spec_poll(present: bool, waited: u64, limit: u64, interval: u64) -> Wait {
    if present {
        Wait::Ready
    } else if waited >= limit {
        Wait::TimedOut
    } else if interval == 0 {
        Wait::Sleep(1)
    } else if interval <= limit - waited {
        Wait::Sleep(interval)
    } else {
        Wait::Sleep((limit - waited) as u64)
    }
}

/// Decides what the waiting side does after a look at the store.
pub fn poll(present: bool, waited: u64, limit: u64, interval: u64) -> (next: Wait)
    ensures
        next == spec_poll(present, waited, limit, interval),
        next matches Wait::Sleep(pause) ==> 1 <= pause && waited + pause <= limit,
{
    if present {
        Wait::Ready
    } else if waited >= limit {
        Wait::TimedOut
    } else if interval == 0 {
        Wait::Sleep(1)
    } else if interval <= limit - waited {
        Wait::Sleep(interval)
    } else {
        Wait::Sleep(limit - waited)
    }
}

/// What the waiting side does next, the flow taken into account.
#[derive(Clone, Copy, Debug, PartialEq, Eq, Structural)]
pub enum Watch {
    /// The credential is there: the user is authenticated.
    Ready,
    /// Sleep this many milliseconds, then look again.
    Sleep(u64),
    /// Stop waiting, tell the authenticator that the time is over, and
    /// report this error.
    GiveUp(Error),
}

/// The decision of one look at the flow and at the store: a flow that has
/// failed ends the wait with its error; else a present credential ends it
/// with success; else the wait sleeps as [`spec_poll`] says, and ends with
/// `AuthenticationTimedOut` at the limit.
pub open spec fn spec_watch(
    state: AuthState,
    present: bool,
    waited: u64,
    limit: u64,
    interval: u64,
) -> Watch {
    match state {
        AuthState::Failed(error) => Watch::GiveUp(error),
        _ => match spec_poll(present, waited, limit, interval) {
            Wait::Ready => Watch::Ready,
            Wait::Sleep(pause) => Watch::Sleep(pause),
            Wait::TimedOut => Watch::GiveUp(Error::AuthenticationTimedOut),
        },
    }
}

/// The time slept so far in one wait, against its limit.
#[derive(Clone, Copy, Debug)]
pub struct Waiter {
    waited: u64,
    limit: u64,
    interval: u64,
}

impl Waiter {
    /// The milliseconds slept so far.
    pub closed spec fn spec_waited(&self) -> u64 {
        self.waited
    }

    /// The milliseconds after which the wait gives up.
    pub closed spec fn spec_limit(&self) -> u64 {
        self.limit
    }

    /// The milliseconds between two looks.
    pub closed spec fn spec_interval(&self) -> u64 {
        self.interval
    }

    /// A wait never sleeps beyond its limit.
    #[verifier::type_invariant]
    spec fn within_limit(&self) -> bool {
        self.waited <= self.limit
    }

    /// A wait that has not slept yet.
    pub fn new(limit: u64, interval: u64) -> (waiter: Waiter)
        ensures
            waiter.spec_waited() == 0,
            waiter.spec_limit() == limit,
            waiter.spec_interval() == interval,
    {
        Waiter { waited: 0, limit, interval }
    }

    /// A wait with the limit and the interval of this client.
    pub fn standard() -> (waiter: Waiter)
        ensures
            waiter.spec_waited() == 0,
            waiter.spec_limit() == AUTH_TIMEOUT_MS,
            waiter.spec_interval() == POLL_INTERVAL_MS,
    {
        Waiter::new(AUTH_TIMEOUT_MS, POLL_INTERVAL_MS)
    }

    /// The milliseconds slept so far.
    pub fn waited(&self) -> (waited: u64)
        ensures
            waited == self.spec_waited(),
            waited <= self.spec_limit(),
    {
        proof {
            use_type_invariant(self);
        }
        self.waited
    }

    /// Decides what is done after a look at the store, and counts the sleep
    /// that it orders. Every sleep brings the limit nearer, so a wait without
    /// a credential ends in `TimedOut` after at most `limit` looks.
    pub fn look(&mut self, present: bool) -> (next: Wait)
        ensures
            final(self).spec_limit() == old(self).spec_limit(),
            final(self).spec_interval() == old(self).spec_interval(),
            next == spec_poll(
                present,
                old(self).spec_waited(),
                old(self).spec_limit(),
                old(self).spec_interval(),
            ),
            match next {
                Wait::Sleep(pause) => pause >= 1 && final(self).spec_waited() == old(
                    self,
                ).spec_waited() + pause,
                _ => final(self).spec_waited() == old(self).spec_waited(),
            },
    {
        proof {
            use_type_invariant(&*self);
        }
        let next = poll(present, self.waited, self.limit, self.interval);
        if let Wait::Sleep(pause) = next {
            self.waited = self.waited + pause;
        }
        next
    }

    /// Decides what is done after a look at the flow and at the store, and
    /// counts the sleep that it orders.
    pub fn watch(&mut self, state: AuthState, present: bool) -> (next: Watch)
        ensures
            final(self).spec_limit() == old(self).spec_limit(),
            final(self).spec_interval() == old(self).spec_interval(),
            next == spec_watch(
                state,
                present,
                old(self).spec_waited(),
                old(self).spec_limit(),
                old(self).spec_interval(),
            ),
            match next {
                Watch::Sleep(pause) => pause >= 1 && final(self).spec_waited() == old(
                    self,
                ).spec_waited() + pause,
                _ => final(self).spec_waited() == old(self).spec_waited(),
            },
    {
        match state {
            AuthState::Failed(error) => Watch::GiveUp(error),
            _ => match self.look(present) {
                Wait::Ready => Watch::Ready,
                Wait::Sleep(pause) => Watch::Sleep(pause),
                Wait::TimedOut => Watch::GiveUp(Error::AuthenticationTimedOut),
            },
        }
    }
}

} // verus!
