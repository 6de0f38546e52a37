use pluto::face::{ButtonId, GestureEvent, GestureKind};
use pluto::input::{ButtonScanner, DOUBLE_CLICK_MS, HOLD_DELAY_MS, REPEAT_MS};

fn press_at(s: &mut ButtonScanner, t: u64) -> Option<GestureKind> {
    s.sample(true, t)
}

fn release_at(s: &mut ButtonScanner, t: u64) -> Option<GestureKind> {
    s.sample(false, t)
}

fn tap(s: &mut ButtonScanner, down_t: u64, up_t: u64) -> Option<GestureKind> {
    press_at(s, down_t);
    release_at(s, up_t)
}

#[test]
fn quick_tap_is_press_on_release() {
    let mut s = ButtonScanner::new();
    assert_eq!(press_at(&mut s, 1000), None);
    assert_eq!(release_at(&mut s, 1400), Some(GestureKind::Press));
}

#[test]
fn no_repeat_before_hold_delay() {
    let mut s = ButtonScanner::new();
    press_at(&mut s, 0);
    assert_eq!(s.sample(true, HOLD_DELAY_MS - 1), None);
}

#[test]
fn hold_autorepeats_every_repeat_ms() {
    let mut s = ButtonScanner::new();
    press_at(&mut s, 0);
    assert_eq!(s.sample(true, HOLD_DELAY_MS), Some(GestureKind::Hold));
    assert_eq!(s.sample(true, HOLD_DELAY_MS + REPEAT_MS), Some(GestureKind::Hold));
    assert_eq!(s.sample(true, HOLD_DELAY_MS + REPEAT_MS + 1), None);
}

#[test]
fn hold_suppresses_press_on_release() {
    let mut s = ButtonScanner::new();
    press_at(&mut s, 0);
    s.sample(true, HOLD_DELAY_MS);
    assert_eq!(release_at(&mut s, HOLD_DELAY_MS + 100), None);
    // ... and the next tap is a plain press, not a double.
    assert_eq!(tap(&mut s, HOLD_DELAY_MS + 500, HOLD_DELAY_MS + 600), Some(GestureKind::Press));
}

#[test]
fn double_click_detected() {
    let mut s = ButtonScanner::new();
    assert_eq!(tap(&mut s, 0, 200), Some(GestureKind::Press));
    assert_eq!(tap(&mut s, 300, 400), Some(GestureKind::Double));
}

#[test]
fn separate_presses_not_double() {
    let mut s = ButtonScanner::new();
    assert_eq!(tap(&mut s, 0, 200), Some(GestureKind::Press));
    assert_eq!(tap(&mut s, 600, 700), Some(GestureKind::Press));
}

#[test]
fn reset_forgets_previous_press() {
    let mut s = ButtonScanner::new();
    assert_eq!(tap(&mut s, 0, 100), Some(GestureKind::Press));
    s.reset();
    // Right after reset the previous press is forgotten -> not a double.
    assert_eq!(tap(&mut s, 150, 250), Some(GestureKind::Press));
}

#[test]
fn double_click_window_edge() {
    // The window is measured between the two presses and includes its end.
    let mut s = ButtonScanner::new();
    assert_eq!(tap(&mut s, 0, 100), Some(GestureKind::Press));
    assert_eq!(tap(&mut s, DOUBLE_CLICK_MS, DOUBLE_CLICK_MS + 50), Some(GestureKind::Double));
    let mut s = ButtonScanner::new();
    assert_eq!(tap(&mut s, 0, 100), Some(GestureKind::Press));
    assert_eq!(tap(&mut s, DOUBLE_CLICK_MS + 1, DOUBLE_CLICK_MS + 50), Some(GestureKind::Press));
}

#[test]
fn event_tags_the_button() {
    let mut s = ButtonScanner::new();
    assert_eq!(s.event(ButtonId::Light, true, 0), None);
    assert_eq!(s.event(ButtonId::Light, false, 50), Some(GestureEvent::press(ButtonId::Light)));
    assert_eq!(s.event(ButtonId::Alarm, true, 1000), None);
    assert_eq!(s.event(ButtonId::Alarm, true, 1000 + HOLD_DELAY_MS), Some(GestureEvent::hold(ButtonId::Alarm)));
}
