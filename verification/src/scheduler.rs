//! The composite scheduler: one cooperative loop over all functions.
//!
//! The scheduler never waits and does no I/O. It is driven by events and
//! answers each with the one action that is to be performed next; what came
//! of that action is the next event. One iteration of the loop begins with a
//! `Tick` and runs through a fixed order of stages: keyboard, mouse, consumer
//! control, the poll of the shared bus with the keyboard LEDs, and the flush
//! of the diagnostics. A stage with nothing to do is passed over.

use crate::device::consumer::{ConsumerReport, MULTIPLE_CODE_REPORT_DESCRIPTOR};
use crate::device::keyboard::{
    KeyboardLedsReport, KeyboardReport, BOOT_KEYBOARD_REPORT_DESCRIPTOR,
};
use crate::device::mouse::{MouseReport, BOOT_MOUSE_REPORT_DESCRIPTOR};
use crate::error::{ReadOutcome, UsbHidError, WriteOutcome};
use crate::input::{
    consumer_sample, keyboard_sample, mouse_after, sample_consumer, sample_keyboard,
    update_mouse_report, InputSnapshot,
};
use crate::interface::{InterfaceConfig, InterfaceProtocol};
use crate::report::{Function, Report};
use crate::slot::FunctionSlot;
use crate::timer::Countdown;
use vstd::prelude::*;

verus! {

/// Interface number of the keyboard.
pub const KEYBOARD_INTERFACE: u8 = 0;

/// Interface number of the mouse.
pub const MOUSE_INTERFACE: u8 = 1;

/// Interface number of the consumer-control keypad.
pub const CONSUMER_INTERFACE: u8 = 2;

/// Idle period of the keyboard at startup, in milliseconds.
pub const DEFAULT_KEYBOARD_IDLE: u64 = 500;

/// Poll interval of the keyboard and of the mouse, in milliseconds.
pub const KEYBOARD_MOUSE_POLL: u64 = 10;

/// Poll interval of the keyboard's LED endpoint, in milliseconds.
pub const KEYBOARD_LED_POLL: u64 = 100;

/// Poll interval of the consumer-control keypad, in milliseconds.
pub const CONSUMER_POLL: u64 = 50;

/// The interface of the boot keyboard: idle resending every half second,
/// polled every ten milliseconds, with an OUT endpoint for the LEDs.
pub fn keyboard_interface() -> (config: InterfaceConfig)
    ensures
        config == (InterfaceConfig {
            report_descriptor: &BOOT_KEYBOARD_REPORT_DESCRIPTOR,
            description: "Keyboard",
            protocol: InterfaceProtocol::Keyboard,
            idle_default: DEFAULT_KEYBOARD_IDLE,
            in_interval: KEYBOARD_MOUSE_POLL,
            out_interval: Some(KEYBOARD_LED_POLL),
        }),
{
    InterfaceConfig::new(&BOOT_KEYBOARD_REPORT_DESCRIPTOR).boot_device(
        InterfaceProtocol::Keyboard,
    ).description("Keyboard").idle_default(DEFAULT_KEYBOARD_IDLE).in_endpoint(
        KEYBOARD_MOUSE_POLL,
    ).with_out_endpoint(KEYBOARD_LED_POLL)
}

/// The interface of the boot mouse: no idle resending, polled every ten
/// milliseconds, no OUT endpoint.
pub fn mouse_interface() -> (config: InterfaceConfig)
    ensures
        config == (InterfaceConfig {
            report_descriptor: &BOOT_MOUSE_REPORT_DESCRIPTOR,
            description: "Mouse",
            protocol: InterfaceProtocol::Mouse,
            idle_default: 0,
            in_interval: KEYBOARD_MOUSE_POLL,
            out_interval: None,
        }),
{
    InterfaceConfig::new(&BOOT_MOUSE_REPORT_DESCRIPTOR).boot_device(
        InterfaceProtocol::Mouse,
    ).description("Mouse").idle_default(0).in_endpoint(KEYBOARD_MOUSE_POLL).without_out_endpoint()
}

/// The interface of the consumer-control keypad: no boot protocol, no idle
/// resending, polled every fifty milliseconds, no OUT endpoint.
pub fn consumer_interface() -> (config: InterfaceConfig)
    ensures
        config == (InterfaceConfig {
            report_descriptor: &MULTIPLE_CODE_REPORT_DESCRIPTOR,
            description: "Consumer Control",
            protocol: InterfaceProtocol::NonBoot,
            idle_default: 0,
            in_interval: CONSUMER_POLL,
            out_interval: None,
        }),
{
    InterfaceConfig::new(&MULTIPLE_CODE_REPORT_DESCRIPTOR).description(
        "Consumer Control",
    ).idle_default(0).in_endpoint(CONSUMER_POLL).without_out_endpoint()
}

/// What the caller is to do next.
#[derive(Clone, Copy, Debug, PartialEq, Eq)]
pub enum Action {
    /// Sample the clock, the reflash line and the input lines, and begin an
    /// iteration with a `Tick`.
    Sample,
    /// Attempt one non-blocking write of `report` on the IN endpoint of
    /// `interface`, and answer with `Written`.
    WriteReport {
        /// The interface of the function that the report belongs to.
        interface: u8,
        /// The report to encode and send.
        report: Report,
    },
    /// Poll the shared bus once, and answer with `BusPolled`.
    PollBus,
    /// Attempt one non-blocking read of the LED report on the OUT endpoint
    /// of `interface`, and answer with `LedsRead`.
    ReadLeds {
        /// The interface of the keyboard.
        interface: u8,
    },
    /// Switch the status output on or off, and answer with `Done`.
    SetStatusLed {
        /// The new state of the output.
        on: bool,
    },
    /// Flush the diagnostics, and answer with `Done`.
    FlushDiagnostics,
    /// Hand over to the bootloader. The loop does not go on.
    EnterBootloader,
    /// Stop the device: the transport has failed.
    Halt,
}

/// What came of the last action.
#[derive(Clone, Copy, Debug, PartialEq, Eq)]
pub enum Event {
    /// An iteration begins.
    Tick {
        /// The time in milliseconds, from a clock that never runs backwards.
        now: u64,
        /// Whether the reflash line is asserted.
        reflash: bool,
        /// The input lines as just sampled.
        lines: InputSnapshot,
        /// Whether the host has configured the device.
        configured: bool,
    },
    /// The write was attempted, with this outcome.
    Written(WriteOutcome),
    /// The bus was polled.
    BusPolled {
        /// Whether the poll reported pending activity.
        active: bool,
    },
    /// The read of the LED report was attempted, with this outcome.
    LedsRead(ReadOutcome),
    /// The status output was switched, or the diagnostics were flushed.
    Done,
}

/// Where in its iteration the scheduler stands, which is also what it waits
/// for.
#[derive(Clone, Copy, Debug, PartialEq, Eq)]
pub enum Phase {
    /// Between iterations: waiting for a `Tick`.
    Sampling,
    /// The write of this keyboard report is under way.
    KeyboardWrite(KeyboardReport),
    /// The write of this mouse report is under way.
    MouseWrite(MouseReport),
    /// The write of this consumer report is under way.
    ConsumerWrite(ConsumerReport),
    /// The bus is being polled.
    BusPoll,
    /// The LED report is being read.
    LedRead,
    /// The status output is being switched to this state.
    LedUpdate(bool),
    /// The diagnostics are being flushed.
    Flush,
    /// Control went to the bootloader. This is final.
    Bootloader,
    /// The transport has failed. This is final.
    Halted,
}

impl Phase {
    /// The place of the phase in the order of an iteration.
    pub open spec fn rank(&self) -> int {
        match *self {
            Phase::Sampling => 0,
            Phase::KeyboardWrite(_) => 1,
            Phase::MouseWrite(_) => 2,
            Phase::ConsumerWrite(_) => 3,
            Phase::BusPoll => 4,
            Phase::LedRead => 5,
            Phase::LedUpdate(_) => 6,
            Phase::Flush => 7,
            Phase::Bootloader => 8,
            Phase::Halted => 9,
        }
    }

    /// Whether the phase is one of the two that nothing leads out of.
    pub open spec fn is_final(&self) -> bool {
        *self == Phase::Bootloader || *self == Phase::Halted
    }
}

/// The scheduler of the composite device. It alone owns the slots of the
/// three functions.
#[derive(Clone, Copy, Debug, PartialEq, Eq)]
pub struct Scheduler {
    /// The slot of the keyboard.
    pub keyboard: FunctionSlot,
    /// The slot of the mouse.
    pub mouse: FunctionSlot,
    /// The slot of the consumer-control keypad.
    pub consumer: FunctionSlot,
    /// The mouse report as sampled so far: its movement adds up from pass to
    /// pass until a report is sent.
    pub mouse_report: MouseReport,
    /// The countdown to the next flush of the diagnostics.
    pub diagnostics: Countdown,
    /// Where in its iteration the scheduler stands.
    pub phase: Phase,
    /// The time of the iteration under way.
    pub now: u64,
    /// The input lines of the iteration under way.
    pub lines: InputSnapshot,
    /// Whether the mouse is served in the iteration under way.
    pub mouse_due: bool,
    /// Whether the consumer keypad is served in the iteration under way.
    pub consumer_due: bool,
    /// Whether the diagnostics are flushed in the iteration under way.
    pub flush_due: bool,
}

impl Scheduler {
    /// Whether each slot remembers a report as it is remembered after
    /// sending. `new` establishes this and `step` keeps it.
    pub open spec fn wf(&self) -> bool {
        self.keyboard.wf() && self.mouse.wf() && self.consumer.wf()
    }

    /// The action that the scheduler asks for in its phase.
    pub open spec fn pending(&self) -> Action {
        match self.phase {
            Phase::Sampling => Action::Sample,
            Phase::KeyboardWrite(report) => Action::WriteReport {
                interface: self.keyboard.interface,
                report: Report::Keyboard(report),
            },
            Phase::MouseWrite(report) => Action::WriteReport {
                interface: self.mouse.interface,
                report: Report::Mouse(report),
            },
            Phase::ConsumerWrite(report) => Action::WriteReport {
                interface: self.consumer.interface,
                report: Report::Consumer(report),
            },
            Phase::BusPoll => Action::PollBus,
            Phase::LedRead => Action::ReadLeds { interface: self.keyboard.interface },
            Phase::LedUpdate(on) => Action::SetStatusLed { on },
            Phase::Flush => Action::FlushDiagnostics,
            Phase::Bootloader => Action::EnterBootloader,
            Phase::Halted => Action::Halt,
        }
    }

    /// The scheduler as `new` makes it.
    pub open spec fn created(
        keyboard: InterfaceConfig,
        mouse: InterfaceConfig,
        consumer: InterfaceConfig,
        diagnostics_interval: u64,
        now: u64,
    ) -> Scheduler {
        Scheduler {
            keyboard: FunctionSlot::created(
                KEYBOARD_INTERFACE,
                keyboard.in_interval,
                keyboard.idle_default,
                now,
            ),
            mouse: FunctionSlot::created(
                MOUSE_INTERFACE,
                mouse.in_interval,
                mouse.idle_default,
                now,
            ),
            consumer: FunctionSlot::created(
                CONSUMER_INTERFACE,
                consumer.in_interval,
                consumer.idle_default,
                now,
            ),
            mouse_report: MouseReport { buttons: 0, x: 0, y: 0 },
            diagnostics: Countdown::started(now, diagnostics_interval),
            phase: Phase::Sampling,
            now,
            lines: InputSnapshot::none_asserted(),
            mouse_due: false,
            consumer_due: false,
            flush_due: false,
        }
    }

    /// The last stage: the diagnostics are flushed if their countdown has
    /// elapsed, and the iteration is over if not.
    pub open spec fn to_diagnostics(self) -> Scheduler {
        Scheduler {
            phase: if self.flush_due {
                Phase::Flush
            } else {
                Phase::Sampling
            },
            ..self
        }
    }

    /// The stage of the bus poll: it is never passed over.
    pub open spec fn to_bus(self) -> Scheduler {
        Scheduler { phase: Phase::BusPoll, ..self }
    }

    /// The stage of the consumer keypad: if it is served, its report is
    /// sampled from the lines of this iteration and written if it has to be.
    pub open spec fn to_consumer(self) -> Scheduler {
        if self.consumer_due {
            let candidate = consumer_sample(self.lines);
            let offered = Scheduler { consumer: self.consumer.after_offer(self.now), ..self };
            if self.consumer.must_send(Report::Consumer(candidate), self.now) {
                Scheduler { phase: Phase::ConsumerWrite(candidate), ..offered }
            } else {
                offered.to_bus()
            }
        } else {
            self.to_bus()
        }
    }

    /// The stage of the mouse: if it is served, the lines of this iteration
    /// are folded into its report, which is written if it has to be.
    pub open spec fn to_mouse(self) -> Scheduler {
        if self.mouse_due {
            let candidate = mouse_after(self.mouse_report, self.lines);
            let offered = Scheduler {
                mouse: self.mouse.after_offer(self.now),
                mouse_report: candidate,
                ..self
            };
            if self.mouse.must_send(Report::Mouse(candidate), self.now) {
                Scheduler { phase: Phase::MouseWrite(candidate), ..offered }
            } else {
                offered.to_consumer()
            }
        } else {
            self.to_consumer()
        }
    }

    /// The stage of the keyboard: if it is served, its report is sampled
    /// from the lines of this iteration and written if it has to be.
    pub open spec fn to_keyboard(self, due: bool) -> Scheduler {
        if due {
            let candidate = keyboard_sample(self.lines);
            let offered = Scheduler { keyboard: self.keyboard.after_offer(self.now), ..self };
            if self.keyboard.must_send(Report::Keyboard(candidate), self.now) {
                Scheduler { phase: Phase::KeyboardWrite(candidate), ..offered }
            } else {
                offered.to_mouse()
            }
        } else {
            self.to_mouse()
        }
    }

    /// The scheduler after an iteration began at `now` with `lines`: every
    /// countdown is asked once, a function is served if its countdown has
    /// elapsed and the host has configured the device, and the stages begin
    /// with the keyboard.
    pub open spec fn after_tick(self, now: u64, lines: InputSnapshot, configured: bool)
        -> Scheduler {
        (Scheduler {
            keyboard: FunctionSlot { poll: self.keyboard.poll.after_wait(now), ..self.keyboard },
            mouse: FunctionSlot { poll: self.mouse.poll.after_wait(now), ..self.mouse },
            consumer: FunctionSlot { poll: self.consumer.poll.after_wait(now), ..self.consumer },
            diagnostics: self.diagnostics.after_wait(now),
            now,
            lines,
            mouse_due: self.mouse.poll.elapsed_at(now) && configured,
            consumer_due: self.consumer.poll.elapsed_at(now) && configured,
            flush_due: self.diagnostics.elapsed_at(now),
            ..self
        }).to_keyboard(self.keyboard.poll.elapsed_at(now) && configured)
    }

    /// The scheduler after the write of the keyboard report ended.
    pub open spec fn after_keyboard_write(self, report: KeyboardReport, outcome: WriteOutcome)
        -> Scheduler {
        let noted = Scheduler {
            keyboard: self.keyboard.after_write(Report::Keyboard(report), outcome, self.now),
            ..self
        };
        if outcome == WriteOutcome::Fault {
            Scheduler { phase: Phase::Halted, ..noted }
        } else {
            noted.to_mouse()
        }
    }

    /// The scheduler after the write of the mouse report ended. A report
    /// that was sent has spent its movement: sampling starts over from rest.
    pub open spec fn after_mouse_write(self, report: MouseReport, outcome: WriteOutcome)
        -> Scheduler {
        let noted = Scheduler {
            mouse: self.mouse.after_write(Report::Mouse(report), outcome, self.now),
            mouse_report: if outcome == WriteOutcome::Sent {
                MouseReport { buttons: 0, x: 0, y: 0 }
            } else {
                self.mouse_report
            },
            ..self
        };
        if outcome == WriteOutcome::Fault {
            Scheduler { phase: Phase::Halted, ..noted }
        } else {
            noted.to_consumer()
        }
    }

    /// The scheduler after the write of the consumer report ended.
    pub open spec fn after_consumer_write(self, report: ConsumerReport, outcome: WriteOutcome)
        -> Scheduler {
        let noted = Scheduler {
            consumer: self.consumer.after_write(Report::Consumer(report), outcome, self.now),
            ..self
        };
        if outcome == WriteOutcome::Fault {
            Scheduler { phase: Phase::Halted, ..noted }
        } else {
            noted.to_bus()
        }
    }

    /// The scheduler after the read of the LED report ended: a report that
    /// arrived sets the status output to its Num Lock bit, a read that would
    /// block is passed over, and a failed read halts the device.
    pub open spec fn after_leds_read(self, outcome: ReadOutcome) -> Scheduler {
        match outcome {
            ReadOutcome::Received(leds) => Scheduler {
                phase: Phase::LedUpdate(KeyboardLedsReport::of_byte(leds).num_lock),
                ..self
            },
            ReadOutcome::WouldBlock => self.to_diagnostics(),
            ReadOutcome::Fault => Scheduler { phase: Phase::Halted, ..self },
        }
    }

    /// The scheduler after `event`. An event that does not answer the action
    /// that the scheduler asked for changes nothing.
    pub open spec fn after(self, event: Event) -> Scheduler {
        match (self.phase, event) {
            (Phase::Sampling, Event::Tick { now, reflash, lines, configured }) => if reflash {
                Scheduler { phase: Phase::Bootloader, ..self }
            } else {
                self.after_tick(now, lines, configured)
            },
            (Phase::KeyboardWrite(report), Event::Written(outcome)) => self.after_keyboard_write(
                report,
                outcome,
            ),
            (Phase::MouseWrite(report), Event::Written(outcome)) => self.after_mouse_write(
                report,
                outcome,
            ),
            (Phase::ConsumerWrite(report), Event::Written(outcome)) => self.after_consumer_write(
                report,
                outcome,
            ),
            (Phase::BusPoll, Event::BusPolled { active }) => if active {
                Scheduler { phase: Phase::LedRead, ..self }
            } else {
                self.to_diagnostics()
            },
            (Phase::LedRead, Event::LedsRead(outcome)) => self.after_leds_read(outcome),
            (Phase::LedUpdate(_), Event::Done) => self.to_diagnostics(),
            (Phase::Flush, Event::Done) => Scheduler { phase: Phase::Sampling, ..self },
            _ => self,
        }
    }

    /// The scheduler after each of `events` in turn.
    pub open spec fn after_all(self, events: Seq<Event>) -> Scheduler
        decreases events.len(),
    {
        if events.len() == 0 {
            self
        } else {
            self.after_all(events.drop_last()).after(events.last())
        }
    }

    /// Makes the scheduler at startup, at time `now`: a slot for each of the
    /// three functions, with the poll interval and the idle period of its
    /// configuration, the keyboard on interface 0, the mouse on 1 and the
    /// consumer keypad on 2; no report sent yet; the mouse at rest; and the
    /// scheduler between iterations.
    pub fn new(
        keyboard: &InterfaceConfig,
        mouse: &InterfaceConfig,
        consumer: &InterfaceConfig,
        diagnostics_interval: u64,
        now: u64,
    ) -> (scheduler: Scheduler)
        ensures
            scheduler == Scheduler::created(*keyboard, *mouse, *consumer, diagnostics_interval, now),
            scheduler.wf(),
            scheduler.pending() == Action::Sample,
    {
        Scheduler {
            keyboard: FunctionSlot::new(
                KEYBOARD_INTERFACE,
                keyboard.in_interval,
                keyboard.idle_default,
                now,
            ),
            mouse: FunctionSlot::new(MOUSE_INTERFACE, mouse.in_interval, mouse.idle_default, now),
            consumer: FunctionSlot::new(
                CONSUMER_INTERFACE,
                consumer.in_interval,
                consumer.idle_default,
                now,
            ),
            mouse_report: MouseReport { buttons: 0, x: 0, y: 0 },
            diagnostics: Countdown::start(now, diagnostics_interval),
            phase: Phase::Sampling,
            now,
            lines: InputSnapshot::released(),
            mouse_due: false,
            consumer_due: false,
            flush_due: false,
        }
    }

    /// The action that the scheduler asks for in its phase. It is the
    /// action that the last `step` returned.
    pub fn pending_action(&self) -> (action: Action)
        ensures
            action == self.pending(),
    {
        match self.phase {
            Phase::Sampling => Action::Sample,
            Phase::KeyboardWrite(report) => Action::WriteReport {
                interface: self.keyboard.interface,
                report: Report::Keyboard(report),
            },
            Phase::MouseWrite(report) => Action::WriteReport {
                interface: self.mouse.interface,
                report: Report::Mouse(report),
            },
            Phase::ConsumerWrite(report) => Action::WriteReport {
                interface: self.consumer.interface,
                report: Report::Consumer(report),
            },
            Phase::BusPoll => Action::PollBus,
            Phase::LedRead => Action::ReadLeds { interface: self.keyboard.interface },
            Phase::LedUpdate(on) => Action::SetStatusLed { on },
            Phase::Flush => Action::FlushDiagnostics,
            Phase::Bootloader => Action::EnterBootloader,
            Phase::Halted => Action::Halt,
        }
    }

    /// Whether the device has halted on a failure of the transport.
    pub fn is_halted(&self) -> (halted: bool)
        ensures
            halted == (self.phase == Phase::Halted),
    {
        match self.phase {
            Phase::Halted => true,
            _ => false,
        }
    }

    /// The bus was reset or reconfigured: every function forgets the report
    /// it sent last, so that each sends again when it is served next.
    pub fn reset(&mut self)
        ensures
            *final(self) == (Scheduler {
                keyboard: FunctionSlot { last_report: None, ..old(self).keyboard },
                mouse: FunctionSlot { last_report: None, ..old(self).mouse },
                consumer: FunctionSlot { last_report: None, ..old(self).consumer },
                ..*old(self)
            }),
            final(self).wf(),
    {
        self.keyboard.reset();
        self.mouse.reset();
        self.consumer.reset();
    }

    /// Sets the idle period of `function` to what the host asked for. A
    /// function that the device does not have changes nothing.
    pub fn set_idle_period(&mut self, function: Function, idle_period: u64)
        ensures
            *final(self) == (match function {
                Function::Keyboard => Scheduler {
                    keyboard: FunctionSlot { idle_period, ..old(self).keyboard },
                    ..*old(self)
                },
                Function::Mouse => Scheduler {
                    mouse: FunctionSlot { idle_period, ..old(self).mouse },
                    ..*old(self)
                },
                Function::Consumer => Scheduler {
                    consumer: FunctionSlot { idle_period, ..old(self).consumer },
                    ..*old(self)
                },
                Function::Joystick => *old(self),
            }),
    {
        match function {
            Function::Keyboard => self.keyboard.set_idle_period(idle_period),
            Function::Mouse => self.mouse.set_idle_period(idle_period),
            Function::Consumer => self.consumer.set_idle_period(idle_period),
            Function::Joystick => {},
        }
    }

    /// Enters the last stage.
    fn enter_diagnostics(&mut self)
        ensures
            *final(self) == old(self).to_diagnostics(),
    {
        if self.flush_due {
            self.phase = Phase::Flush;
        } else {
            self.phase = Phase::Sampling;
        }
    }

    /// Enters the stage of the bus poll.
    fn enter_bus(&mut self)
        ensures
            *final(self) == old(self).to_bus(),
    {
        self.phase = Phase::BusPoll;
    }

    /// Enters the stage of the consumer keypad, and goes on from it if
    /// there is nothing to write.
    fn enter_consumer(&mut self)
        ensures
            *final(self) == old(self).to_consumer(),
    {
        if self.consumer_due {
            let candidate = sample_consumer(&self.lines);
            if self.consumer.offer(&Report::Consumer(candidate), self.now) {
                self.phase = Phase::ConsumerWrite(candidate);
                return ;
            }
        }
        self.enter_bus();
    }

    /// Enters the stage of the mouse, and goes on from it if there is
    /// nothing to write.
    fn enter_mouse(&mut self)
        ensures
            *final(self) == old(self).to_mouse(),
    {
        if self.mouse_due {
            let candidate = update_mouse_report(self.mouse_report, &self.lines);
            self.mouse_report = candidate;
            if self.mouse.offer(&Report::Mouse(candidate), self.now) {
                self.phase = Phase::MouseWrite(candidate);
                return ;
            }
        }
        self.enter_consumer();
    }

    /// Enters the stage of the keyboard, and goes on from it if there is
    /// nothing to write.
    fn enter_keyboard(&mut self, due: bool)
        ensures
            *final(self) == old(self).to_keyboard(due),
    {
        if due {
            let candidate = sample_keyboard(&self.lines);
            if self.keyboard.offer(&Report::Keyboard(candidate), self.now) {
                self.phase = Phase::KeyboardWrite(candidate);
                return ;
            }
        }
        self.enter_mouse();
    }

    /// Begins an iteration.
    fn begin(&mut self, now: u64, lines: InputSnapshot, configured: bool)
        ensures
            *final(self) == old(self).after_tick(now, lines, configured),
    {
        let _ = self.keyboard.tick();
        let _ = self.mouse.tick();
        let _ = self.consumer.tick();
        let keyboard_elapsed = self.keyboard.due(now);
        let mouse_elapsed = self.mouse.due(now);
        let consumer_elapsed = self.consumer.due(now);
        self.flush_due = self.diagnostics.wait(now);
        self.mouse_due = mouse_elapsed && configured;
        self.consumer_due = consumer_elapsed && configured;
        self.now = now;
        self.lines = lines;
        self.enter_keyboard(keyboard_elapsed && configured);
    }

    /// Takes the event that answers the last action, and returns the next
    /// action.
    ///
    /// A `Tick` with the reflash line asserted hands over to the bootloader
    /// before anything else is looked at. Any other `Tick` begins an
    /// iteration: each function whose countdown has elapsed is served, in
    /// the order keyboard, mouse, consumer keypad, and only while the host
    /// has the device configured; then the bus is polled, and the keyboard
    /// LEDs are read if the poll found activity; then the diagnostics are
    /// flushed if their countdown has elapsed. A function is served by
    /// sampling its report and writing it if it has changed, or if its idle
    /// timer has expired. A write that would block changes nothing and is not
    /// repeated in this iteration. A write or read that fails halts the
    /// device for good. An event that does not answer the last action is
    /// ignored, and the last action is returned again.
    pub fn step(&mut self, event: Event) -> (action: Action)
        ensures
            *final(self) == old(self).after(event),
            action == final(self).pending(),
            old(self).wf() ==> final(self).wf(),
    {
        proof {
            if self.wf() {
                lemma_step_keeps_wf(*self, event);
            }
        }
        match (self.phase, event) {
            (Phase::Sampling, Event::Tick { now, reflash, lines, configured }) => {
                if reflash {
                    self.phase = Phase::Bootloader;
                } else {
                    self.begin(now, lines, configured);
                }
            },
            (Phase::KeyboardWrite(report), Event::Written(outcome)) => {
                match self.keyboard.complete(&Report::Keyboard(report), outcome, self.now) {
                    Ok(()) | Err(UsbHidError::WouldBlock) => {
                        self.enter_mouse();
                    },
                    Err(_) => {
                        self.phase = Phase::Halted;
                    },
                }
            },
            (Phase::MouseWrite(report), Event::Written(outcome)) => {
                match self.mouse.complete(&Report::Mouse(report), outcome, self.now) {
                    Ok(()) => {
                        self.mouse_report = MouseReport { buttons: 0, x: 0, y: 0 };
                        self.enter_consumer();
                    },
                    Err(UsbHidError::WouldBlock) => {
                        self.enter_consumer();
                    },
                    Err(_) => {
                        self.phase = Phase::Halted;
                    },
                }
            },
            (Phase::ConsumerWrite(report), Event::Written(outcome)) => {
                match self.consumer.complete(&Report::Consumer(report), outcome, self.now) {
                    Ok(()) | Err(UsbHidError::WouldBlock) => {
                        self.enter_bus();
                    },
                    Err(_) => {
                        self.phase = Phase::Halted;
                    },
                }
            },
            (Phase::BusPoll, Event::BusPolled { active }) => {
                if active {
                    self.phase = Phase::LedRead;
                } else {
                    self.enter_diagnostics();
                }
            },
            (Phase::LedRead, Event::LedsRead(outcome)) => {
                match outcome {
                    ReadOutcome::Received(leds) => {
                        self.phase = Phase::LedUpdate(KeyboardLedsReport::from_byte(leds).num_lock);
                    },
                    ReadOutcome::WouldBlock => {
                        self.enter_diagnostics();
                    },
                    ReadOutcome::Fault => {
                        self.phase = Phase::Halted;
                    },
                }
            },
            (Phase::LedUpdate(_), Event::Done) => {
                self.enter_diagnostics();
            },
            (Phase::Flush, Event::Done) => {
                self.phase = Phase::Sampling;
            },
            _ => {},
        }
        self.pending_action()
    }
}

/// Whatever the event, the slots keep remembering reports as they are
/// remembered after sending.
pub proof fn lemma_step_keeps_wf(scheduler: Scheduler, event: Event)
    requires
        scheduler.wf(),
    ensures
        scheduler.after(event).wf(),
{
}

/// A failed write halts the device at once, whichever function it was for,
/// and the halt is final: whatever events follow, the scheduler does not
/// change any more and asks for nothing but the halt. In particular no write
/// is attempted for any function after the failure.
pub proof fn lemma_fault_halts_for_good(scheduler: Scheduler, events: Seq<Event>)
    requires
        scheduler.phase is KeyboardWrite || scheduler.phase is MouseWrite
            || scheduler.phase is ConsumerWrite,
    ensures
        scheduler.after(Event::Written(WriteOutcome::Fault)).phase == Phase::Halted,
        scheduler.after(Event::Written(WriteOutcome::Fault)).after_all(events) == scheduler.after(
            Event::Written(WriteOutcome::Fault),
        ),
        scheduler.after(Event::Written(WriteOutcome::Fault)).after_all(events).pending()
            == Action::Halt,
{
    lemma_final_phases_are_final(scheduler.after(Event::Written(WriteOutcome::Fault)), events);
}

/// Nothing leads out of a halt or out of the hand-over to the bootloader:
/// whatever events follow, the scheduler stays as it is.
pub proof fn lemma_final_phases_are_final(scheduler: Scheduler, events: Seq<Event>)
    requires
        scheduler.phase.is_final(),
    ensures
        scheduler.after_all(events) == scheduler,
    decreases events.len(),
{
    if events.len() > 0 {
        lemma_final_phases_are_final(scheduler, events.drop_last());
    }
}

/// The reflash line comes first: a `Tick` that finds it asserted hands over
/// to the bootloader, and nothing else happens in that iteration. No input
/// is sampled, no countdown is asked, and no slot changes.
pub proof fn lemma_reflash_comes_first(
    scheduler: Scheduler,
    now: u64,
    lines: InputSnapshot,
    configured: bool,
)
    requires
        scheduler.phase == Phase::Sampling,
    ensures
        scheduler.after(Event::Tick { now, reflash: true, lines, configured }) == (Scheduler {
            phase: Phase::Bootloader,
            ..scheduler
        }),
        scheduler.after(Event::Tick { now, reflash: true, lines, configured }).pending()
            == Action::EnterBootloader,
{
}

/// Within one iteration the stages come in their order: the keyboard before
/// the mouse, the mouse before the consumer keypad, that before the bus poll
/// and the LEDs, and those before the flush of the diagnostics. An event
/// either changes nothing, or ends the iteration, or moves the scheduler to a
/// later stage.
pub proof fn lemma_stages_come_in_order(scheduler: Scheduler, event: Event)
    ensures
        scheduler.after(event) == scheduler || scheduler.after(event).phase == Phase::Sampling
            || scheduler.after(event).phase.rank() > scheduler.phase.rank(),
{
}

/// While a write is under way, only its outcome moves the scheduler: any
/// other event changes nothing, and the scheduler keeps asking for that same
/// write. So no function has a second write attempted before the first has
/// ended.
pub proof fn lemma_one_write_at_a_time(scheduler: Scheduler, event: Event)
    requires
        scheduler.phase is KeyboardWrite || scheduler.phase is MouseWrite
            || scheduler.phase is ConsumerWrite,
        !(event is Written),
    ensures
        scheduler.after(event) == scheduler,
        scheduler.pending() is WriteReport,
{
}

/// The keyboard report is written in an iteration if and only if the
/// keyboard is served in it and its slot says that the report sampled in
/// this iteration has to be sent. What is written is that freshly sampled
/// report, never an older one.
pub proof fn lemma_keyboard_write_decision(
    scheduler: Scheduler,
    now: u64,
    lines: InputSnapshot,
    configured: bool,
)
    requires
        scheduler.phase == Phase::Sampling,
    ensures
        ({
            let next = scheduler.after(Event::Tick { now, reflash: false, lines, configured });
            let served = scheduler.keyboard.poll.elapsed_at(now) && configured;
            let sampled = keyboard_sample(lines);
            &&& next.phase is KeyboardWrite <==> served && scheduler.keyboard.must_send(
                Report::Keyboard(sampled),
                now,
            )
            &&& next.phase is KeyboardWrite ==> next.pending() == Action::WriteReport {
                interface: scheduler.keyboard.interface,
                report: Report::Keyboard(sampled),
            }
        }),
{
}

/// While the host has not configured the device, an iteration writes no
/// report at all: it goes straight to the bus poll.
pub proof fn lemma_nothing_written_unconfigured(
    scheduler: Scheduler,
    now: u64,
    lines: InputSnapshot,
)
    requires
        scheduler.phase == Phase::Sampling,
    ensures
        scheduler.after(Event::Tick { now, reflash: false, lines, configured: false }).phase
            == Phase::BusPoll,
{
}

/// A write that would block leaves the slot of its function as it was: the
/// report sent last and the idle timer are what they were before the
/// outcome. The iteration goes on with the next stage, and the write is tried
/// again only when the function is served next.
pub proof fn lemma_would_block_is_absorbed(scheduler: Scheduler)
    requires
        scheduler.phase is KeyboardWrite || scheduler.phase is MouseWrite
            || scheduler.phase is ConsumerWrite,
    ensures
        ({
            let next = scheduler.after(Event::Written(WriteOutcome::WouldBlock));
            &&& next.phase != Phase::Halted
            &&& scheduler.phase is KeyboardWrite ==> next.keyboard == scheduler.keyboard
            &&& scheduler.phase is MouseWrite ==> next.mouse == scheduler.mouse && next.mouse_report
                == scheduler.mouse_report
            &&& scheduler.phase is ConsumerWrite ==> next.consumer == scheduler.consumer
        }),
{
}

/// A report that was sent is what its slot remembers afterwards, and its
/// idle timer starts over from the time of the iteration.
pub proof fn lemma_sent_report_is_remembered(scheduler: Scheduler)
    ensures
        ({
            let next = scheduler.after(Event::Written(WriteOutcome::Sent));
            &&& scheduler.phase matches Phase::KeyboardWrite(report) ==> next.keyboard.last_report
                == Some(Report::Keyboard(report)) && next.keyboard.idle
                == crate::timer::IdleTimer::armed_at(scheduler.now, scheduler.keyboard.idle_period)
            &&& scheduler.phase matches Phase::MouseWrite(report) ==> next.mouse.last_report
                == Some(Report::Mouse(report.at_rest()))
            &&& scheduler.phase matches Phase::ConsumerWrite(report) ==> next.consumer.last_report
                == Some(Report::Consumer(report))
        }),
{
}

/// The movement of the mouse is sent once: after a mouse report was sent,
/// both axes of the sampled report are back at zero. After a write that would
/// block they are kept, and go on adding up.
pub proof fn lemma_mouse_movement_is_sent_once(
    scheduler: Scheduler,
    report: MouseReport,
)
    requires
        scheduler.phase == Phase::MouseWrite(report),
    ensures
        scheduler.after(Event::Written(WriteOutcome::Sent)).mouse_report.x == 0,
        scheduler.after(Event::Written(WriteOutcome::Sent)).mouse_report.y == 0,
        scheduler.after(Event::Written(WriteOutcome::WouldBlock)).mouse_report
            == scheduler.mouse_report,
{
}

/// With an idle period above zero, a keyboard report that has not changed
/// goes out again once the period has passed since it was sent: the first
/// iteration from then on that serves the keyboard writes it, with the same
/// content.
pub proof fn lemma_keyboard_idle_resend(
    scheduler: Scheduler,
    sent: u64,
    period: u64,
    now: u64,
    lines: InputSnapshot,
)
    requires
        scheduler.phase == Phase::Sampling,
        period > 0,
        sent + period <= u64::MAX,
        scheduler.keyboard.idle == crate::timer::IdleTimer::armed_at(sent, period),
        scheduler.keyboard.last_report == Some(Report::Keyboard(keyboard_sample(lines))),
        scheduler.keyboard.poll.elapsed_at(now),
        now >= sent + period,
    ensures
        scheduler.after(Event::Tick { now, reflash: false, lines, configured: true }).pending()
            == (Action::WriteReport {
            interface: scheduler.keyboard.interface,
            report: Report::Keyboard(keyboard_sample(lines)),
        }),
{
}

/// With an idle period of zero, a keyboard report that has not changed is
/// never written again, however late the iteration comes.
pub proof fn lemma_keyboard_no_idle_no_resend(
    scheduler: Scheduler,
    now: u64,
    lines: InputSnapshot,
    configured: bool,
)
    requires
        scheduler.phase == Phase::Sampling,
        scheduler.keyboard.idle == crate::timer::IdleTimer::Disarmed,
        scheduler.keyboard.last_report == Some(Report::Keyboard(keyboard_sample(lines))),
    ensures
        !(scheduler.after(Event::Tick { now, reflash: false, lines, configured }).phase
            is KeyboardWrite),
{
}

/// Once the keyboard's write has ended without a failure, the mouse report
/// is written if and only if the mouse is served in this iteration and its
/// slot says that the report has to be sent. What is written is the report
/// with the lines of this iteration folded in.
pub proof fn lemma_mouse_write_decision(scheduler: Scheduler, outcome: WriteOutcome)
    requires
        scheduler.phase is KeyboardWrite,
        outcome != WriteOutcome::Fault,
    ensures
        ({
            let next = scheduler.after(Event::Written(outcome));
            let sampled = mouse_after(scheduler.mouse_report, scheduler.lines);
            &&& next.phase is MouseWrite <==> scheduler.mouse_due && scheduler.mouse.must_send(
                Report::Mouse(sampled),
                scheduler.now,
            )
            &&& next.phase is MouseWrite ==> next.pending() == Action::WriteReport {
                interface: scheduler.mouse.interface,
                report: Report::Mouse(sampled),
            }
        }),
{
}

/// Once the mouse's write has ended without a failure, the consumer report
/// is written if and only if the consumer keypad is served in this iteration
/// and its slot says that the report has to be sent. What is written is the
/// report sampled from the lines of this iteration.
pub proof fn lemma_consumer_write_decision(scheduler: Scheduler, outcome: WriteOutcome)
    requires
        scheduler.phase is MouseWrite,
        outcome != WriteOutcome::Fault,
    ensures
        ({
            let next = scheduler.after(Event::Written(outcome));
            let sampled = consumer_sample(scheduler.lines);
            &&& next.phase is ConsumerWrite <==> scheduler.consumer_due
                && scheduler.consumer.must_send(Report::Consumer(sampled), scheduler.now)
            &&& next.phase is ConsumerWrite ==> next.pending() == Action::WriteReport {
                interface: scheduler.consumer.interface,
                report: Report::Consumer(sampled),
            }
        }),
{
}

} // verus!
