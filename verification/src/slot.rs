//! The function slot: what the scheduler keeps for one HID function.
//!
//! A slot remembers the report that its function sent last, runs the
//! function's idle timer, and counts down to the function's next poll. It
//! decides whether a sampled report has to go out, and takes note of what came
//! of the write.

use crate::error::{UsbHidError, WriteOutcome};
use crate::report::Report;
use crate::timer::{reset_idle, Countdown, IdleTimer};
use vstd::prelude::*;

verus! {

/// One HID function, bound to an interface.
#[derive(Clone, Copy, Debug, PartialEq, Eq)]
pub struct FunctionSlot {
    /// The number of the interface that the function is bound to.
    pub interface: u8,
    /// The report sent last, as remembered; `None` before the first report,
    /// after a reset and after an idle expiry.
    pub last_report: Option<Report>,
    /// The idle period in milliseconds. Zero means that nothing is resent
    /// for idleness.
    pub idle_period: u64,
    /// The idle timer: restarted by each report sent.
    pub idle: IdleTimer,
    /// The countdown to the next poll of this function.
    pub poll: Countdown,
}

impl FunctionSlot {
    /// The slot as `new` makes it.
    pub open spec fn created(
        interface: u8,
        poll_interval: u64,
        idle_period: u64,
        now: u64,
    ) -> FunctionSlot {
        FunctionSlot {
            interface,
            last_report: None,
            idle_period,
            idle: IdleTimer::armed_at(now, idle_period),
            poll: Countdown::started(now, poll_interval),
        }
    }

    /// Whether what is remembered is a report as it is remembered after
    /// sending: a mouse report with no movement. `new` establishes this and
    /// every operation keeps it.
    pub open spec fn wf(&self) -> bool {
        self.last_report matches Some(r) ==> r.settled() == r
    }

    /// Whether `candidate`, sampled at `now`, has to be sent: it differs
    /// from what was sent last, or nothing is remembered, or the idle timer
    /// expires at `now`.
    pub open spec fn must_send(&self, candidate: Report, now: u64) -> bool {
        self.last_report != Some(candidate) || self.idle.expires_at(now)
    }

    /// The slot after a candidate was offered at `now`: an idle expiry is
    /// consumed, and with it what was remembered.
    pub open spec fn after_offer(&self, now: u64) -> FunctionSlot {
        FunctionSlot {
            last_report: if self.idle.expires_at(now) {
                None
            } else {
                self.last_report
            },
            idle: self.idle.after_expiry_check(now),
            ..*self
        }
    }

    /// The slot after the write of `report` at `now` ended with `outcome`.
    /// Only a report that was sent is remembered and restarts the idle timer.
    pub open spec fn after_write(&self, report: Report, outcome: WriteOutcome, now: u64)
        -> FunctionSlot {
        match outcome {
            WriteOutcome::Sent => FunctionSlot {
                last_report: Some(report.settled()),
                idle: IdleTimer::armed_at(now, self.idle_period),
                ..*self
            },
            _ => *self,
        }
    }

    /// The slot after a poll at `now` that offers `report`, with the write
    /// succeeding at once where the report has to be sent.
    pub open spec fn after_poll(&self, report: Report, now: u64) -> FunctionSlot {
        if self.must_send(report, now) {
            self.after_offer(now).after_write(report, WriteOutcome::Sent, now)
        } else {
            self.after_offer(now)
        }
    }

    /// The slot after one such poll at each of `times` in turn.
    pub open spec fn after_polls(&self, report: Report, times: Seq<u64>) -> FunctionSlot
        decreases times.len(),
    {
        if times.len() == 0 {
            *self
        } else {
            self.after_polls(report, times.drop_last()).after_poll(report, times.last())
        }
    }

    /// Makes the slot of a function at startup: nothing sent yet, the poll
    /// countdown started at `now`, and the idle timer armed if `idle_period`
    /// is not zero.
    pub fn new(interface: u8, poll_interval: u64, idle_period: u64, now: u64) -> (slot:
        FunctionSlot)
        ensures
            slot == FunctionSlot::created(interface, poll_interval, idle_period, now),
            slot.wf(),
    {
        FunctionSlot {
            interface,
            last_report: None,
            idle_period,
            idle: reset_idle(now, idle_period),
            poll: Countdown::start(now, poll_interval),
        }
    }

    /// The interface that the function is bound to.
    pub fn interface(&self) -> (interface: u8)
        ensures
            interface == self.interface,
    {
        self.interface
    }

    /// The bus was reset or reconfigured: forgets the report sent last, so
    /// that the next sampled report is sent whatever it is.
    pub fn reset(&mut self)
        ensures
            *final(self) == (FunctionSlot { last_report: None, ..*old(self) }),
            final(self).wf(),
            forall|candidate: Report, now: u64| final(self).must_send(candidate, now),
    {
        self.last_report = None;
    }

    /// The bookkeeping of one scheduler iteration. A slot has none: nothing
    /// changes and nothing fails.
    pub fn tick(&mut self) -> (done: Result<(), UsbHidError>)
        ensures
            done == Ok::<(), UsbHidError>(()),
            *final(self) == *old(self),
    {
        Ok(())
    }

    /// Sets the idle period that the next report sent will arm the timer
    /// with. The host may change it at any time.
    pub fn set_idle_period(&mut self, idle_period: u64)
        ensures
            *final(self) == (FunctionSlot { idle_period, ..*old(self) }),
    {
        self.idle_period = idle_period;
    }

    /// Whether the function's poll countdown has elapsed at `now`. An elapsed
    /// countdown starts over.
    pub fn due(&mut self, now: u64) -> (elapsed: bool)
        ensures
            elapsed == old(self).poll.elapsed_at(now),
            *final(self) == (FunctionSlot { poll: old(self).poll.after_wait(now), ..*old(self) }),
    {
        self.poll.wait(now)
    }

    /// Decides whether `candidate`, sampled at `now`, has to be sent. An idle
    /// timer that expires at `now` makes the slot forget what it sent last,
    /// so that the candidate goes out even if nothing has changed.
    pub fn offer(&mut self, candidate: &Report, now: u64) -> (send: bool)
        ensures
            send == old(self).must_send(*candidate, now),
            *final(self) == old(self).after_offer(now),
            old(self).wf() ==> final(self).wf(),
    {
        if self.idle.expired(now) {
            self.last_report = None;
        }
        match &self.last_report {
            None => true,
            Some(last) => !last.same(candidate),
        }
    }

    /// Takes note of how the write of `report` at `now` ended, and returns
    /// the result of the write. `Sent`: the report is remembered and the idle
    /// timer restarted with the idle period, and the write has succeeded.
    /// `WouldBlock`: nothing changes, and the write is to be tried again later.
    /// `Fault`: nothing changes, and the write has failed for good.
    pub fn complete(&mut self, report: &Report, outcome: WriteOutcome, now: u64) -> (done: Result<
        (),
        UsbHidError,
    >)
        ensures
            done == outcome.as_result(),
            *final(self) == old(self).after_write(*report, outcome, now),
            old(self).wf() ==> final(self).wf(),
    {
        match outcome {
            WriteOutcome::Sent => {
                self.last_report = Some(report.settle());
                self.idle = reset_idle(now, self.idle_period);
            },
            _ => {},
        }
        outcome.into_result()
    }
}

/// A report is sent if and only if it differs from the one sent last, or the
/// idle timer has just expired, or nothing has been sent since startup or the
/// last reset. For the mouse, whose report is remembered without its
/// movement, this means: whenever a button has changed or there is movement.
pub proof fn lemma_change_detection(slot: FunctionSlot, candidate: Report, now: u64)
    requires
        slot.wf(),
    ensures
        slot.must_send(candidate, now) <==> (slot.last_report is None || slot.last_report->Some_0
            != candidate || slot.idle.expires_at(now)),
        candidate matches Report::Mouse(m) && (m.x != 0 || m.y != 0) ==> slot.must_send(
            candidate,
            now,
        ),
{
}

/// With an idle period above zero, an unchanged report goes out again once
/// the period has passed since it was sent: the slot that sent `report` at
/// `sent` asks for it again at every `now` from `sent + idle_period` on, and
/// what it asks to send is the same report.
pub proof fn lemma_idle_forces_resend(slot: FunctionSlot, report: Report, sent: u64, now: u64)
    requires
        slot.idle_period > 0,
        sent + slot.idle_period <= u64::MAX,
        now >= sent + slot.idle_period,
        report.settled() == report,
    ensures
        slot.after_write(report, WriteOutcome::Sent, sent).last_report == Some(report),
        slot.after_write(report, WriteOutcome::Sent, sent).must_send(report, now),
{
}

/// Until the idle period has passed, an unchanged report is not sent again,
/// and offering it changes nothing in the slot.
pub proof fn lemma_quiet_until_idle(slot: FunctionSlot, report: Report, sent: u64, now: u64)
    requires
        slot.idle_period > 0,
        sent + slot.idle_period <= u64::MAX,
        now < sent + slot.idle_period,
        report.settled() == report,
    ensures
        !slot.after_write(report, WriteOutcome::Sent, sent).must_send(report, now),
        slot.after_write(report, WriteOutcome::Sent, sent).after_offer(now) == slot.after_write(
            report,
            WriteOutcome::Sent,
            sent,
        ),
{
}

/// With an idle period of zero an unchanged report is never sent again,
/// however much time has passed.
pub proof fn lemma_no_idle_no_resend(slot: FunctionSlot, report: Report, sent: u64, now: u64)
    requires
        slot.idle_period == 0,
        report.settled() == report,
    ensures
        !slot.after_write(report, WriteOutcome::Sent, sent).must_send(report, now),
        slot.after_write(report, WriteOutcome::Sent, sent).after_offer(now) == slot.after_write(
            report,
            WriteOutcome::Sent,
            sent,
        ),
{
}

/// A write that would block leaves the slot as it was: the report sent last
/// and the idle timer are not touched. The next offer therefore decides on the
/// report it is given, as if the failed write had not been tried.
pub proof fn lemma_would_block_changes_nothing(
    slot: FunctionSlot,
    stale: Report,
    fresh: Report,
    now: u64,
    later: u64,
)
    ensures
        slot.after_write(stale, WriteOutcome::WouldBlock, now) == slot,
        slot.after_write(stale, WriteOutcome::WouldBlock, now).must_send(fresh, later)
            == slot.must_send(fresh, later),
{
}

/// After an idle expiry the slot remembers nothing, so the report is asked
/// for again on every later offer until a write of it succeeds.
pub proof fn lemma_expiry_retries_until_sent(
    slot: FunctionSlot,
    report: Report,
    now: u64,
    later: u64,
)
    requires
        slot.idle.expires_at(now),
    ensures
        slot.after_offer(now).last_report is None,
        slot.after_offer(now).after_write(report, WriteOutcome::WouldBlock, now).must_send(
            report,
            later,
        ),
{
}

/// The time at which an unchanged report was sent last, after polls at
/// `times` that followed a send at `sent`: a poll sends if it comes `period`
/// or more after the send before it.
pub open spec fn last_send(sent: u64, period: u64, times: Seq<u64>) -> u64
    decreases times.len(),
{
    if times.len() == 0 {
        sent
    } else {
        let before = last_send(sent, period, times.drop_last());
        if times.last() >= before + period {
            times.last()
        } else {
            before
        }
    }
}

/// With an idle period above zero and no change of input, the report is sent
/// again and again, once per idle period: over any run of polls, a poll sends
/// the report exactly if it comes one period or more after the last send, and
/// every poll in between sends nothing. What is sent is always the same
/// report, and after each send the slot is as it was after the first.
pub proof fn lemma_idle_resend_is_periodic(
    slot: FunctionSlot,
    report: Report,
    sent: u64,
    times: Seq<u64>,
)
    requires
        slot.idle_period > 0,
        report.settled() == report,
        sent + slot.idle_period <= u64::MAX,
        forall|i: int| 0 <= i < times.len() ==> times[i] + slot.idle_period <= u64::MAX,
    ensures
        slot.after_write(report, WriteOutcome::Sent, sent).after_polls(report, times)
            == slot.after_write(
            report,
            WriteOutcome::Sent,
            last_send(sent, slot.idle_period, times),
        ),
        last_send(sent, slot.idle_period, times) + slot.idle_period <= u64::MAX,
        times.len() > 0 ==> (slot.after_write(report, WriteOutcome::Sent, sent).after_polls(
            report,
            times.drop_last(),
        ).must_send(report, times.last()) <==> times.last() >= last_send(
            sent,
            slot.idle_period,
            times.drop_last(),
        ) + slot.idle_period),
    decreases times.len(),
{
    if times.len() > 0 {
        lemma_idle_resend_is_periodic(slot, report, sent, times.drop_last());
    }
}

/// With an idle period of zero and no change of input, no run of polls ever
/// sends the report again, whatever the times of the polls.
pub proof fn lemma_no_idle_never_resends(
    slot: FunctionSlot,
    report: Report,
    sent: u64,
    times: Seq<u64>,
)
    requires
        slot.idle_period == 0,
        report.settled() == report,
    ensures
        slot.after_write(report, WriteOutcome::Sent, sent).after_polls(report, times)
            == slot.after_write(report, WriteOutcome::Sent, sent),
        times.len() > 0 ==> !slot.after_write(report, WriteOutcome::Sent, sent).after_polls(
            report,
            times.drop_last(),
        ).must_send(report, times.last()),
    decreases times.len(),
{
    if times.len() > 0 {
        lemma_no_idle_never_resends(slot, report, sent, times.drop_last());
    }
}

} // verus!
