//! Countdowns over a monotonic millisecond clock, and the idle timer.
//!
//! The clock itself belongs to the caller, who passes the current time to each
//! operation. Nothing here reads a hardware timer.

use vstd::prelude::*;

verus! {

/// `a + b`, held at `u64::MAX` where the sum would pass it.
pub open spec fn saturating_sum(a: u64, b: u64) -> u64 {
    if a + b > u64::MAX {
        u64::MAX
    } else {
        (a + b) as u64
    }
}

/// A periodic countdown: it completes at `deadline`, and again every `period`
/// after that.
#[derive(Clone, Copy, Debug, PartialEq, Eq, Structural)]
pub struct Countdown {
    /// Time between two completions.
    pub period: u64,
    /// The next completion.
    pub deadline: u64,
}

impl Countdown {
    /// A countdown started at `now` that completes `period` later.
    pub open spec fn started(now: u64, period: u64) -> Countdown {
        Countdown { period, deadline: saturating_sum(now, period) }
    }

    /// Whether a completion is due at `now`.
    pub open spec fn elapsed_at(&self, now: u64) -> bool {
        now >= self.deadline
    }

    /// The countdown after it was asked at `now`: a due completion is consumed
    /// and the next one lies one period after it.
    pub open spec fn after_wait(&self, now: u64) -> Countdown {
        if self.elapsed_at(now) {
            Countdown { period: self.period, deadline: saturating_sum(self.deadline, self.period) }
        } else {
            *self
        }
    }

    /// Starts a countdown of `period` at `now`.
    pub fn start(now: u64, period: u64) -> (c: Countdown)
        ensures
            c == Countdown::started(now, period),
    {
        Countdown { period, deadline: now.saturating_add(period) }
    }

    /// Reports whether the countdown has completed, once per completion. It
    /// never blocks, and restarts itself when it reports a completion.
    pub fn wait(&mut self, now: u64) -> (elapsed: bool)
        ensures
            elapsed == old(self).elapsed_at(now),
            *final(self) == old(self).after_wait(now),
    {
        if now >= self.deadline {
            self.deadline = self.deadline.saturating_add(self.period);
            true
        } else {
            false
        }
    }
}

/// The idle timer of one function. With an idle period of zero there is no
/// timer and nothing ever forces a resend.
#[derive(Clone, Copy, Debug, PartialEq, Eq, Structural)]
pub enum IdleTimer {
    /// No timer: the idle period is zero.
    Disarmed,
    /// Counting down from the idle period.
    Armed(Countdown),
}

impl IdleTimer {
    /// The timer that `reset_idle` gives for `idle` at `now`.
    pub open spec fn armed_at(now: u64, idle: u64) -> IdleTimer {
        if idle == 0 {
            IdleTimer::Disarmed
        } else {
            IdleTimer::Armed(Countdown::started(now, idle))
        }
    }

    /// Whether the timer expires when asked at `now`.
    pub open spec fn expires_at(&self, now: u64) -> bool {
        match *self {
            IdleTimer::Disarmed => false,
            IdleTimer::Armed(c) => c.elapsed_at(now),
        }
    }

    /// The timer after it was asked at `now`.
    pub open spec fn after_expiry_check(&self, now: u64) -> IdleTimer {
        match *self {
            IdleTimer::Disarmed => IdleTimer::Disarmed,
            IdleTimer::Armed(c) => IdleTimer::Armed(c.after_wait(now)),
        }
    }

    /// Reports an expiry, exactly once per completed countdown; an armed timer
    /// stays armed and counts down again. A disarmed timer never expires.
    pub fn expired(&mut self, now: u64) -> (fired: bool)
        ensures
            fired == old(self).expires_at(now),
            *final(self) == old(self).after_expiry_check(now),
    {
        match *self {
            IdleTimer::Disarmed => false,
            IdleTimer::Armed(c) => {
                let mut next = c;
                let fired = next.wait(now);
                *self = IdleTimer::Armed(next);
                fired
            },
        }
    }
}

/// (Re)starts the idle timer at `now`: disarmed for an idle period of zero,
/// else armed with a full period to run.
pub fn reset_idle(now: u64, idle: u64) -> (timer: IdleTimer)
    ensures
        timer == IdleTimer::armed_at(now, idle),
{
    if idle == 0 {
        IdleTimer::Disarmed
    } else {
        IdleTimer::Armed(Countdown::start(now, idle))
    }
}

/// An armed timer expires at exactly the times from its deadline on, and a
/// timer started with `idle > 0` has its deadline `idle` after the start.
pub proof fn lemma_idle_expires_after_period(start: u64, idle: u64, now: u64)
    requires
        idle > 0,
        start + idle <= u64::MAX,
    ensures
        IdleTimer::armed_at(start, idle).expires_at(now) <==> now >= start + idle,
{
}

/// With an idle period of zero the timer never expires, whatever the time, and
/// asking it changes nothing.
pub proof fn lemma_idle_zero_never_expires(start: u64, now: u64)
    ensures
        !IdleTimer::armed_at(start, 0).expires_at(now),
        IdleTimer::armed_at(start, 0).after_expiry_check(now) == IdleTimer::armed_at(start, 0),
{
}

/// An expiry is reported once per countdown completion: after it, the timer is
/// armed again and stays quiet until one more period has passed.
pub proof fn lemma_idle_expiry_is_periodic(timer: IdleTimer, now: u64, later: u64)
    requires
        timer.expires_at(now),
    ensures
        timer matches IdleTimer::Armed(c) && timer.after_expiry_check(now) == IdleTimer::Armed(
            Countdown { period: c.period, deadline: saturating_sum(c.deadline, c.period) },
        ) && (timer.after_expiry_check(now).expires_at(later) <==> later >= saturating_sum(
            c.deadline,
            c.period,
        )),
{
}

} // verus!
