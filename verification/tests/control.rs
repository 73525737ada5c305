use demo1::button_led::{LedAction, LedController, LedInput, LedPhase, LedWait};
use demo1::clock::{delay_elapsed, RateMeter};

#[test]
fn led_blinks_without_press() {
    let mut c = LedController::new();
    assert_eq!(c.phase(), LedPhase::ReadButton);
    assert_eq!(
        c.step(LedInput::Button { pressed: false }),
        LedAction { led: Some(true), wait: LedWait::TimerOrPress }
    );
    assert_eq!(
        c.step(LedInput::TimerFired),
        LedAction { led: Some(false), wait: LedWait::TimerOrPress }
    );
    assert_eq!(c.step(LedInput::TimerFired), LedAction { led: None, wait: LedWait::ReadButton });
    assert_eq!(c.phase(), LedPhase::ReadButton);
}

#[test]
fn held_button_keeps_led_lit() {
    let mut c = LedController::new();
    assert_eq!(
        c.step(LedInput::Button { pressed: true }),
        LedAction { led: Some(true), wait: LedWait::UntilReleased }
    );
    assert_eq!(c.phase(), LedPhase::ReadButton);
}

#[test]
fn press_cuts_blink_short() {
    let mut c = LedController::new();
    c.step(LedInput::Button { pressed: false });
    assert_eq!(c.step(LedInput::ButtonPressed), LedAction { led: None, wait: LedWait::ReadButton });
    assert_eq!(c.phase(), LedPhase::ReadButton);
    c.step(LedInput::Button { pressed: false });
    c.step(LedInput::TimerFired);
    assert_eq!(c.phase(), LedPhase::Dark);
    assert_eq!(c.step(LedInput::ButtonPressed), LedAction { led: None, wait: LedWait::ReadButton });
}

#[test]
fn spin_delay_ends_after_duration() {
    assert!(!delay_elapsed(1_000, 1_000, 1));
    assert!(!delay_elapsed(1_000, 1_000_999, 1));
    assert!(delay_elapsed(1_000, 1_001_000, 1));
    assert!(delay_elapsed(7, 7, 0));
}

#[test]
fn rate_meter_reports_once_a_second() {
    let mut m = RateMeter::new(100);
    assert_eq!(m.poll(100), None);
    assert_eq!(m.poll(500_000), None);
    assert_eq!(m.poll(1_000_099), None);
    assert_eq!(m.counter(), 3);
    assert_eq!(m.poll(1_000_100), Some(3));
    assert_eq!(m.counter(), 0);
    m.restart(1_000_200);
    assert_eq!(m.poll(1_000_300), None);
    assert_eq!(m.counter(), 1);
}
