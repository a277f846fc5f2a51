use hid_composite::timer::{reset_idle, Countdown, IdleTimer};

#[test]
fn countdown_completes_at_its_deadline() {
    let mut countdown = Countdown::start(100, 10);
    assert_eq!(countdown, Countdown { period: 10, deadline: 110 });
    assert!(!countdown.wait(100));
    assert!(!countdown.wait(109));
    assert!(countdown.wait(110));
    assert_eq!(countdown.deadline, 120);
}

#[test]
fn countdown_is_periodic() {
    let mut countdown = Countdown::start(0, 50);
    assert!(countdown.wait(50));
    assert!(!countdown.wait(50));
    assert!(!countdown.wait(99));
    assert!(countdown.wait(100));
    assert!(!countdown.wait(100));
}

#[test]
fn countdown_reports_each_missed_completion_once() {
    let mut countdown = Countdown::start(0, 10);
    assert!(countdown.wait(35));
    assert!(countdown.wait(35));
    assert!(countdown.wait(35));
    assert!(!countdown.wait(35));
    assert_eq!(countdown.deadline, 40);
}

#[test]
fn countdown_of_zero_is_always_due() {
    let mut countdown = Countdown::start(7, 0);
    assert!(countdown.wait(7));
    assert!(countdown.wait(7));
    assert!(!Countdown::start(7, 0).wait(6));
}

#[test]
fn countdown_deadline_holds_at_the_end_of_time() {
    let mut countdown = Countdown::start(u64::MAX - 5, 10);
    assert_eq!(countdown.deadline, u64::MAX);
    assert!(!countdown.wait(u64::MAX - 1));
    assert!(countdown.wait(u64::MAX));
    assert_eq!(countdown.deadline, u64::MAX);
}

#[test]
fn idle_period_zero_disarms() {
    assert_eq!(reset_idle(123, 0), IdleTimer::Disarmed);
    let mut timer = reset_idle(0, 0);
    assert!(!timer.expired(0));
    assert!(!timer.expired(1_000_000));
    assert!(!timer.expired(u64::MAX));
    assert_eq!(timer, IdleTimer::Disarmed);
}

#[test]
fn idle_timer_arms_with_a_full_period() {
    assert_eq!(reset_idle(100, 500), IdleTimer::Armed(Countdown { period: 500, deadline: 600 }));
}

#[test]
fn idle_timer_expires_once_per_period() {
    let mut timer = reset_idle(0, 500);
    assert!(!timer.expired(499));
    assert!(timer.expired(500));
    assert!(!timer.expired(500));
    assert!(!timer.expired(999));
    assert!(timer.expired(1000));
    assert_eq!(timer, IdleTimer::Armed(Countdown { period: 500, deadline: 1500 }));
}
