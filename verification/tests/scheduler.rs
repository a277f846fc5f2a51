use hid_composite::device::consumer::ConsumerReport;
use hid_composite::device::keyboard::{KeyboardReport, KEY_A, KEY_B, KEY_NO_EVENT};
use hid_composite::device::mouse::MouseReport;
use hid_composite::error::{ReadOutcome, WriteOutcome};
use hid_composite::input::InputSnapshot;
use hid_composite::interface::{InterfaceConfig, InterfaceProtocol};
use hid_composite::report::{Function, Report};
use hid_composite::scheduler::{
    consumer_interface, keyboard_interface, mouse_interface, Action, Event, Phase, Scheduler,
    CONSUMER_INTERFACE, CONSUMER_POLL, DEFAULT_KEYBOARD_IDLE, KEYBOARD_INTERFACE,
    KEYBOARD_LED_POLL, KEYBOARD_MOUSE_POLL, MOUSE_INTERFACE,
};
use hid_composite::timer::Countdown;

const KEYBOARD_IDLE: u64 = 500;
const DIAGNOSTICS_POLL: u64 = 1000;

fn composite(now: u64) -> Scheduler {
    let keyboard = InterfaceConfig::new(&[])
        .boot_device(InterfaceProtocol::Keyboard)
        .description("Keyboard")
        .idle_default(KEYBOARD_IDLE)
        .in_endpoint(KEYBOARD_MOUSE_POLL)
        .with_out_endpoint(KEYBOARD_LED_POLL);
    let mouse = InterfaceConfig::new(&[])
        .boot_device(InterfaceProtocol::Mouse)
        .description("Mouse")
        .idle_default(0)
        .in_endpoint(KEYBOARD_MOUSE_POLL)
        .without_out_endpoint();
    let consumer = InterfaceConfig::new(&[])
        .description("Consumer Control")
        .idle_default(0)
        .in_endpoint(CONSUMER_POLL)
        .without_out_endpoint();
    Scheduler::new(&keyboard, &mouse, &consumer, DIAGNOSTICS_POLL, now)
}

fn lines(asserted: &[usize]) -> InputSnapshot {
    let mut snapshot = InputSnapshot::released();
    for line in asserted {
        snapshot = snapshot.with_line(*line, true);
    }
    snapshot
}

fn tick(now: u64, asserted: &[usize]) -> Event {
    Event::Tick { now, reflash: false, lines: lines(asserted), configured: true }
}

fn keyboard(keys: [u8; 3]) -> Action {
    Action::WriteReport {
        interface: KEYBOARD_INTERFACE,
        report: Report::Keyboard(KeyboardReport { keys }),
    }
}

fn mouse(buttons: u8, x: i8, y: i8) -> Action {
    Action::WriteReport {
        interface: MOUSE_INTERFACE,
        report: Report::Mouse(MouseReport { buttons, x, y }),
    }
}

fn consumer(codes: [u16; 4]) -> Action {
    Action::WriteReport {
        interface: CONSUMER_INTERFACE,
        report: Report::Consumer(ConsumerReport { codes }),
    }
}

/// Runs the iteration that `first` begins to its end, with every write sent
/// and a quiet bus, and returns the actions it asked for.
fn run_iteration(scheduler: &mut Scheduler, first: Event) -> Vec<Action> {
    let mut actions = Vec::new();
    let mut event = first;
    loop {
        let action = scheduler.step(event);
        actions.push(action);
        event = match action {
            Action::Sample | Action::Halt | Action::EnterBootloader => return actions,
            Action::WriteReport { .. } => Event::Written(WriteOutcome::Sent),
            Action::PollBus => Event::BusPolled { active: false },
            Action::ReadLeds { .. } => Event::LedsRead(ReadOutcome::WouldBlock),
            Action::SetStatusLed { .. } | Action::FlushDiagnostics => Event::Done,
        };
    }
}

#[test]
fn new_scheduler_waits_for_a_tick() {
    let scheduler = composite(0);
    assert_eq!(scheduler.phase, Phase::Sampling);
    assert_eq!(scheduler.pending_action(), Action::Sample);
    assert!(!scheduler.is_halted());
    assert_eq!(scheduler.keyboard.interface, 0);
    assert_eq!(scheduler.mouse.interface, 1);
    assert_eq!(scheduler.consumer.interface, 2);
    assert_eq!(scheduler.keyboard.last_report, None);
    assert_eq!(scheduler.mouse_report, MouseReport::default());
}

#[test]
fn key_line_nine_sends_a_then_its_release() {
    let mut scheduler = composite(0);
    let action = scheduler.step(tick(10, &[9]));
    assert_eq!(action, keyboard([KEY_A, KEY_NO_EVENT, KEY_NO_EVENT]));
    let next = scheduler.step(Event::Written(WriteOutcome::Sent));
    assert_eq!(
        scheduler.keyboard.last_report,
        Some(Report::Keyboard(KeyboardReport { keys: [KEY_A, KEY_NO_EVENT, KEY_NO_EVENT] }))
    );
    assert_eq!(next, mouse(0, 0, 0));
    assert_eq!(scheduler.step(Event::Written(WriteOutcome::Sent)), Action::PollBus);
    assert_eq!(scheduler.step(Event::BusPolled { active: false }), Action::Sample);

    let action = scheduler.step(tick(20, &[]));
    assert_eq!(action, keyboard([KEY_NO_EVENT, KEY_NO_EVENT, KEY_NO_EVENT]));
}

#[test]
fn first_iteration_sends_every_function_in_order() {
    let mut scheduler = composite(0);
    let actions = run_iteration(&mut scheduler, tick(50, &[]));
    assert_eq!(
        actions,
        vec![keyboard([0, 0, 0]), mouse(0, 0, 0), consumer([0, 0, 0, 0]), Action::PollBus, Action::Sample]
    );
}

#[test]
fn unchanged_inputs_send_nothing() {
    let mut scheduler = composite(0);
    run_iteration(&mut scheduler, tick(50, &[]));
    assert_eq!(run_iteration(&mut scheduler, tick(60, &[])), vec![Action::PollBus, Action::Sample]);
    assert_eq!(run_iteration(&mut scheduler, tick(100, &[])), vec![Action::PollBus, Action::Sample]);
}

#[test]
fn nothing_is_served_before_its_countdown_elapses() {
    let mut scheduler = composite(0);
    assert_eq!(run_iteration(&mut scheduler, tick(9, &[9, 0, 3])), vec![Action::PollBus, Action::Sample]);
    assert_eq!(
        run_iteration(&mut scheduler, tick(10, &[9, 0, 3])),
        vec![keyboard([KEY_A, 0, 0]), mouse(1, 0, 0), Action::PollBus, Action::Sample]
    );
    assert_eq!(
        run_iteration(&mut scheduler, tick(50, &[9, 0, 3])),
        vec![consumer([0xEA, 0, 0, 0]), Action::PollBus, Action::Sample]
    );
}

#[test]
fn nothing_is_written_while_unconfigured() {
    let mut scheduler = composite(0);
    let event = Event::Tick { now: 50, reflash: false, lines: lines(&[9, 0, 3]), configured: false };
    assert_eq!(run_iteration(&mut scheduler, event), vec![Action::PollBus, Action::Sample]);
    assert_eq!(scheduler.keyboard.last_report, None);
    assert_eq!(scheduler.keyboard.poll.deadline, 20);
    assert_eq!(scheduler.consumer.poll.deadline, 100);
}

#[test]
fn reflash_line_preempts_everything() {
    let mut scheduler = composite(0);
    let before = scheduler;
    let event = Event::Tick { now: 50, reflash: true, lines: lines(&[9, 0, 3]), configured: true };
    assert_eq!(scheduler.step(event), Action::EnterBootloader);
    assert_eq!(scheduler, Scheduler { phase: Phase::Bootloader, ..before });
    assert_eq!(scheduler.step(tick(60, &[9])), Action::EnterBootloader);
    assert_eq!(scheduler.step(Event::Done), Action::EnterBootloader);
    assert_eq!(scheduler, Scheduler { phase: Phase::Bootloader, ..before });
}

#[test]
fn keyboard_fault_halts_before_any_other_write() {
    let mut scheduler = composite(0);
    assert_eq!(scheduler.step(tick(50, &[9, 0, 3])), keyboard([KEY_A, 0, 0]));
    assert_eq!(scheduler.step(Event::Written(WriteOutcome::Fault)), Action::Halt);
    assert!(scheduler.is_halted());
    let halted = scheduler;
    for event in [
        tick(60, &[10]),
        Event::Written(WriteOutcome::Sent),
        Event::BusPolled { active: true },
        Event::LedsRead(ReadOutcome::Received(1)),
        Event::Done,
    ] {
        assert_eq!(scheduler.step(event), Action::Halt);
        assert_eq!(scheduler, halted);
    }
}

#[test]
fn mouse_and_consumer_faults_halt_too() {
    let mut scheduler = composite(0);
    assert_eq!(scheduler.step(tick(50, &[])), keyboard([0, 0, 0]));
    assert_eq!(scheduler.step(Event::Written(WriteOutcome::Sent)), mouse(0, 0, 0));
    assert_eq!(scheduler.step(Event::Written(WriteOutcome::Fault)), Action::Halt);
    assert_eq!(scheduler.step(tick(100, &[])), Action::Halt);

    let mut scheduler = composite(0);
    assert_eq!(scheduler.step(tick(50, &[])), keyboard([0, 0, 0]));
    assert_eq!(scheduler.step(Event::Written(WriteOutcome::Sent)), mouse(0, 0, 0));
    assert_eq!(scheduler.step(Event::Written(WriteOutcome::Sent)), consumer([0, 0, 0, 0]));
    assert_eq!(scheduler.step(Event::Written(WriteOutcome::Fault)), Action::Halt);
    assert_eq!(scheduler.step(Event::BusPolled { active: false }), Action::Halt);
}

#[test]
fn would_block_is_retried_with_the_fresh_sample() {
    let mut scheduler = composite(0);
    run_iteration(&mut scheduler, tick(10, &[]));
    assert_eq!(scheduler.step(tick(20, &[9])), keyboard([KEY_A, 0, 0]));
    let slot = scheduler.keyboard;
    assert_eq!(scheduler.step(Event::Written(WriteOutcome::WouldBlock)), Action::PollBus);
    assert_eq!(scheduler.keyboard, slot);
    assert_eq!(
        scheduler.keyboard.last_report,
        Some(Report::Keyboard(KeyboardReport { keys: [0, 0, 0] }))
    );
    assert_eq!(scheduler.step(Event::BusPolled { active: false }), Action::Sample);
    assert_eq!(scheduler.step(tick(30, &[10])), keyboard([0, KEY_B, 0]));
    assert_eq!(scheduler.step(Event::Written(WriteOutcome::Sent)), Action::PollBus);
    assert_eq!(
        scheduler.keyboard.last_report,
        Some(Report::Keyboard(KeyboardReport { keys: [0, KEY_B, 0] }))
    );
}

#[test]
fn would_block_then_release_sends_nothing() {
    let mut scheduler = composite(0);
    run_iteration(&mut scheduler, tick(10, &[]));
    assert_eq!(scheduler.step(tick(20, &[9])), keyboard([KEY_A, 0, 0]));
    assert_eq!(scheduler.step(Event::Written(WriteOutcome::WouldBlock)), Action::PollBus);
    assert_eq!(scheduler.step(Event::BusPolled { active: false }), Action::Sample);
    assert_eq!(run_iteration(&mut scheduler, tick(30, &[])), vec![Action::PollBus, Action::Sample]);
}

#[test]
fn keyboard_idle_resends_the_same_report() {
    let mut scheduler = composite(0);
    run_iteration(&mut scheduler, tick(10, &[9]));
    let sent = scheduler.keyboard.last_report;
    assert_eq!(
        run_iteration(&mut scheduler, tick(50, &[9])),
        vec![consumer([0, 0, 0, 0]), Action::PollBus, Action::Sample]
    );
    for now in [60, 100, 250, 500, 509] {
        assert_eq!(run_iteration(&mut scheduler, tick(now, &[9])), vec![Action::PollBus, Action::Sample]);
    }
    let actions = run_iteration(&mut scheduler, tick(510, &[9]));
    assert_eq!(actions, vec![keyboard([KEY_A, 0, 0]), Action::PollBus, Action::Sample]);
    assert_eq!(scheduler.keyboard.last_report, sent);
    assert_eq!(run_iteration(&mut scheduler, tick(520, &[9])), vec![Action::PollBus, Action::Sample]);
    let actions = run_iteration(&mut scheduler, tick(1010, &[9]));
    assert_eq!(actions[0], keyboard([KEY_A, 0, 0]));
}

#[test]
fn mouse_and_consumer_are_never_resent_for_idleness() {
    let mut scheduler = composite(0);
    run_iteration(&mut scheduler, tick(50, &[0, 3]));
    scheduler.set_idle_period(Function::Keyboard, 0);
    run_iteration(&mut scheduler, tick(1000, &[0, 3]));
    for now in [2000, 100_000, u64::MAX - 1] {
        let actions = run_iteration(&mut scheduler, tick(now, &[0, 3]));
        assert!(actions.iter().all(|action| !matches!(action, Action::WriteReport { .. })));
    }
}

#[test]
fn mouse_movement_is_sent_once_and_reset() {
    let mut scheduler = composite(0);
    run_iteration(&mut scheduler, tick(10, &[]));
    assert_eq!(scheduler.step(tick(20, &[8, 7])), mouse(0, 10, 10));
    assert_eq!(scheduler.mouse_report, MouseReport { buttons: 0, x: 10, y: 10 });
    assert_eq!(scheduler.step(Event::Written(WriteOutcome::Sent)), Action::PollBus);
    assert_eq!(scheduler.mouse_report, MouseReport { buttons: 0, x: 0, y: 0 });
    assert_eq!(scheduler.step(Event::BusPolled { active: false }), Action::Sample);
    assert_eq!(run_iteration(&mut scheduler, tick(30, &[])), vec![Action::PollBus, Action::Sample]);
}

#[test]
fn mouse_movement_adds_up_while_the_write_would_block() {
    let mut scheduler = composite(0);
    run_iteration(&mut scheduler, tick(10, &[]));
    for pass in 1..=3 {
        assert_eq!(scheduler.step(tick(10 + 10 * pass, &[8])), mouse(0, 10 * pass as i8, 0));
        assert_eq!(scheduler.step(Event::Written(WriteOutcome::WouldBlock)), Action::PollBus);
        assert_eq!(scheduler.step(Event::BusPolled { active: false }), Action::Sample);
    }
    assert_eq!(scheduler.step(tick(45, &[])), Action::PollBus);
    assert_eq!(scheduler.step(Event::BusPolled { active: false }), Action::Sample);
    assert_eq!(scheduler.step(tick(50, &[])), mouse(0, 30, 0));
    assert_eq!(scheduler.step(Event::Written(WriteOutcome::Sent)), consumer([0, 0, 0, 0]));
    assert_eq!(scheduler.mouse_report, MouseReport::default());
}

#[test]
fn mouse_movement_saturates_while_the_write_would_block() {
    let mut scheduler = composite(0);
    run_iteration(&mut scheduler, tick(10, &[]));
    let mut last = Action::Sample;
    for pass in 1..=20u64 {
        last = scheduler.step(tick(10 + 10 * pass, &[6, 7]));
        let mut action = scheduler.step(Event::Written(WriteOutcome::WouldBlock));
        if let Action::WriteReport { .. } = action {
            action = scheduler.step(Event::Written(WriteOutcome::Sent));
        }
        assert_eq!(action, Action::PollBus);
        assert_eq!(scheduler.step(Event::BusPolled { active: false }), Action::Sample);
    }
    assert_eq!(last, mouse(0, -128, 127));
}

#[test]
fn held_mouse_button_is_sent_once() {
    let mut scheduler = composite(0);
    run_iteration(&mut scheduler, tick(10, &[]));
    assert_eq!(
        run_iteration(&mut scheduler, tick(20, &[1])),
        vec![mouse(4, 0, 0), Action::PollBus, Action::Sample]
    );
    assert_eq!(run_iteration(&mut scheduler, tick(30, &[1])), vec![Action::PollBus, Action::Sample]);
    assert_eq!(
        run_iteration(&mut scheduler, tick(40, &[])),
        vec![mouse(0, 0, 0), Action::PollBus, Action::Sample]
    );
}

#[test]
fn consumer_codes_are_sent_on_change() {
    let mut scheduler = composite(0);
    run_iteration(&mut scheduler, tick(50, &[]));
    assert_eq!(
        run_iteration(&mut scheduler, tick(100, &[5])),
        vec![consumer([0, 0xE9, 0, 0]), Action::PollBus, Action::Sample]
    );
    assert_eq!(run_iteration(&mut scheduler, tick(150, &[5])), vec![Action::PollBus, Action::Sample]);
    assert_eq!(
        run_iteration(&mut scheduler, tick(200, &[3, 5])),
        vec![consumer([0xEA, 0xE9, 0, 0]), Action::PollBus, Action::Sample]
    );
}

#[test]
fn bus_activity_reads_the_leds_and_sets_the_status_output() {
    let mut scheduler = composite(0);
    assert_eq!(scheduler.step(tick(5, &[])), Action::PollBus);
    assert_eq!(
        scheduler.step(Event::BusPolled { active: true }),
        Action::ReadLeds { interface: KEYBOARD_INTERFACE }
    );
    assert_eq!(
        scheduler.step(Event::LedsRead(ReadOutcome::Received(0b0000_0001))),
        Action::SetStatusLed { on: true }
    );
    assert_eq!(scheduler.step(Event::Done), Action::Sample);

    assert_eq!(scheduler.step(tick(6, &[])), Action::PollBus);
    assert_eq!(
        scheduler.step(Event::BusPolled { active: true }),
        Action::ReadLeds { interface: KEYBOARD_INTERFACE }
    );
    assert_eq!(
        scheduler.step(Event::LedsRead(ReadOutcome::Received(0b0000_0110))),
        Action::SetStatusLed { on: false }
    );
    assert_eq!(scheduler.step(Event::Done), Action::Sample);
}

#[test]
fn led_read_that_would_block_is_ignored() {
    let mut scheduler = composite(0);
    assert_eq!(scheduler.step(tick(5, &[])), Action::PollBus);
    assert_eq!(
        scheduler.step(Event::BusPolled { active: true }),
        Action::ReadLeds { interface: KEYBOARD_INTERFACE }
    );
    assert_eq!(scheduler.step(Event::LedsRead(ReadOutcome::WouldBlock)), Action::Sample);
    assert!(!scheduler.is_halted());
}

#[test]
fn led_read_fault_halts() {
    let mut scheduler = composite(0);
    assert_eq!(scheduler.step(tick(5, &[])), Action::PollBus);
    assert_eq!(
        scheduler.step(Event::BusPolled { active: true }),
        Action::ReadLeds { interface: KEYBOARD_INTERFACE }
    );
    assert_eq!(scheduler.step(Event::LedsRead(ReadOutcome::Fault)), Action::Halt);
    assert!(scheduler.is_halted());
    assert_eq!(scheduler.step(tick(50, &[9])), Action::Halt);
}

#[test]
fn diagnostics_are_flushed_last_when_due() {
    let mut scheduler = composite(0);
    assert_eq!(
        run_iteration(&mut scheduler, tick(1000, &[])),
        vec![
            keyboard([0, 0, 0]),
            mouse(0, 0, 0),
            consumer([0, 0, 0, 0]),
            Action::PollBus,
            Action::FlushDiagnostics,
            Action::Sample
        ]
    );
    assert_eq!(run_iteration(&mut scheduler, tick(1001, &[])), vec![Action::PollBus, Action::Sample]);
    assert_eq!(
        run_iteration(&mut scheduler, tick(1499, &[])),
        vec![Action::PollBus, Action::Sample]
    );
    assert_eq!(
        run_iteration(&mut scheduler, tick(2000, &[])),
        vec![keyboard([0, 0, 0]), Action::PollBus, Action::FlushDiagnostics, Action::Sample]
    );
}

#[test]
fn event_that_answers_nothing_is_ignored() {
    let mut scheduler = composite(0);
    let idle = scheduler;
    assert_eq!(scheduler.step(Event::Written(WriteOutcome::Sent)), Action::Sample);
    assert_eq!(scheduler.step(Event::Done), Action::Sample);
    assert_eq!(scheduler, idle);

    assert_eq!(scheduler.step(tick(10, &[9])), keyboard([KEY_A, 0, 0]));
    let writing = scheduler;
    assert_eq!(scheduler.step(tick(20, &[10])), keyboard([KEY_A, 0, 0]));
    assert_eq!(scheduler.step(Event::BusPolled { active: true }), keyboard([KEY_A, 0, 0]));
    assert_eq!(scheduler.step(Event::Done), keyboard([KEY_A, 0, 0]));
    assert_eq!(scheduler, writing);
    assert_eq!(scheduler.pending_action(), keyboard([KEY_A, 0, 0]));
}

#[test]
fn reset_makes_every_function_send_again() {
    let mut scheduler = composite(0);
    run_iteration(&mut scheduler, tick(50, &[9]));
    assert_eq!(run_iteration(&mut scheduler, tick(100, &[9])), vec![Action::PollBus, Action::Sample]);
    scheduler.reset();
    assert_eq!(scheduler.keyboard.last_report, None);
    assert_eq!(scheduler.mouse.last_report, None);
    assert_eq!(scheduler.consumer.last_report, None);
    assert_eq!(
        run_iteration(&mut scheduler, tick(150, &[9])),
        vec![
            keyboard([KEY_A, 0, 0]),
            mouse(0, 0, 0),
            consumer([0, 0, 0, 0]),
            Action::PollBus,
            Action::Sample
        ]
    );
}

#[test]
fn host_idle_period_applies_to_the_keyboard() {
    let mut scheduler = composite(0);
    scheduler.set_idle_period(Function::Keyboard, 40);
    assert_eq!(scheduler.keyboard.idle_period, 40);
    let before = scheduler;
    scheduler.set_idle_period(Function::Joystick, 7);
    assert_eq!(scheduler, before);
    scheduler.set_idle_period(Function::Mouse, 8);
    scheduler.set_idle_period(Function::Consumer, 9);
    assert_eq!(scheduler.mouse.idle_period, 8);
    assert_eq!(scheduler.consumer.idle_period, 9);
    assert_eq!(scheduler.keyboard.idle_period, 40);
    scheduler.set_idle_period(Function::Mouse, 0);
    scheduler.set_idle_period(Function::Consumer, 0);
    run_iteration(&mut scheduler, tick(10, &[9]));
    assert_eq!(run_iteration(&mut scheduler, tick(40, &[9])), vec![Action::PollBus, Action::Sample]);
    assert_eq!(run_iteration(&mut scheduler, tick(50, &[9]))[0], keyboard([KEY_A, 0, 0]));
}

#[test]
fn composite_interfaces_have_the_usual_timing() {
    let keyboard = keyboard_interface();
    assert_eq!(keyboard.description, "Keyboard");
    assert_eq!(keyboard.protocol, InterfaceProtocol::Keyboard);
    assert_eq!(keyboard.idle_default, 500);
    assert_eq!(keyboard.idle_default, DEFAULT_KEYBOARD_IDLE);
    assert_eq!(keyboard.in_interval, KEYBOARD_MOUSE_POLL);
    assert_eq!(keyboard.out_interval, Some(KEYBOARD_LED_POLL));
    assert_eq!(keyboard.report_descriptor.len(), 63);
    let mouse = mouse_interface();
    assert_eq!(mouse.description, "Mouse");
    assert_eq!(mouse.protocol, InterfaceProtocol::Mouse);
    assert_eq!((mouse.idle_default, mouse.in_interval, mouse.out_interval), (0, 10, None));
    assert_eq!(mouse.report_descriptor.len(), 50);
    let consumer = consumer_interface();
    assert_eq!(consumer.description, "Consumer Control");
    assert_eq!(consumer.protocol, InterfaceProtocol::NonBoot);
    assert_eq!((consumer.idle_default, consumer.in_interval, consumer.out_interval), (0, 50, None));
    assert_eq!(consumer.in_interval, CONSUMER_POLL);
    assert_eq!(consumer.report_descriptor.len(), 23);
    let scheduler = Scheduler::new(&keyboard, &mouse, &consumer, 200, 0);
    assert_eq!(scheduler, composite_with_diagnostics(200));
}

fn composite_with_diagnostics(interval: u64) -> Scheduler {
    let mut scheduler = composite(0);
    scheduler.diagnostics = Countdown::start(0, interval);
    scheduler
}
