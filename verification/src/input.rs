//! Button gesture recognition: turns raw "button is down" samples into
//! [`GestureEvent`]s (press / hold auto-repeat / double-click).
//!
//! A *press* is recognised on the falling edge of the button (its release):
//! a quick tap fires a `Press` (or a `Double` if a previous press happened
//! recently); holding the button past `HOLD_DELAY_MS` fires `Hold`
//! auto-repeats instead (driven by the repeated samples platforms send) and
//! suppresses the press.
//!
//! The same scanner drives both the real firmware (a poll loop sampling the
//! GPIO pins a few times per second) and the emulator (discrete `mousedown` /
//! `keydown` events), so the gesture timing is identical on both.
use vstd::prelude::*;

use crate::face::{ButtonId, GestureEvent, GestureKind};

verus! {

/// How long a button must be held before auto-repeat starts.
pub const HOLD_DELAY_MS: u64 = 750;

/// How often a held button re-fires after `HOLD_DELAY_MS`.
pub const REPEAT_MS: u64 = 250;

/// A press within this many ms of the previous press counts as a double-click.
pub const DOUBLE_CLICK_MS: u64 = 400;

/// The state of a [`ButtonScanner`].
pub struct ScannerState {
    /// The button is currently physically pressed.
    pub pressed: bool,
    /// ms of the current press (its down).
    pub press_ms: u64,
    /// ms of the last `Hold` auto-repeat (or of the press).
    pub last_repeat_ms: u64,
    /// ms of the previous press that fired, for double-click detection.
    pub prev_press_ms: Option<u64>,
    /// A `Hold` already fired for the current press.
    pub held: bool,
}

impl ScannerState {
    /// A hold only ever fires while the button is pressed.
    pub open spec fn wf(self) -> bool {
        self.held ==> self.pressed
    }
}

/// `a - b`, or 0 when `b > a`.
pub open spec fn saturating_diff(a: u64, b: u64) -> int {
    if a >= b { a - b } else { 0 }
}

/// The gesture a sample of the button produces, and the scanner's next
/// state.
///
/// - Button down, already pressed: a `Hold` once the press is at least
///   `HOLD_DELAY_MS` old and the last repeat at least `REPEAT_MS` ago.
/// - Button down, not pressed: a fresh press starts; nothing fires yet.
/// - Button up after a hold: nothing fires, and the previous press is
///   forgotten.
/// - Button up after a quick tap: `Double` if the previous press was at most
///   `DOUBLE_CLICK_MS` before this one (and not after it), else `Press`.
/// - Button up, not pressed: nothing.
pub open spec fn scan(s: ScannerState, down: bool, now: u64) -> (ScannerState, Option<GestureKind>) {
    if down {
        if s.pressed {
            if saturating_diff(now, s.press_ms) >= HOLD_DELAY_MS && saturating_diff(now, s.last_repeat_ms)
                >= REPEAT_MS {
                (ScannerState { last_repeat_ms: now, held: true, ..s }, Some(GestureKind::Hold))
            } else {
                (s, None)
            }
        } else {
            (ScannerState { pressed: true, press_ms: now, last_repeat_ms: now, ..s }, None)
        }
    } else if s.pressed {
        if s.held {
            (ScannerState { pressed: false, held: false, prev_press_ms: None, ..s }, None)
        } else {
            let double = match s.prev_press_ms {
                Some(prev) => s.press_ms >= prev && s.press_ms - prev <= DOUBLE_CLICK_MS,
                None => false,
            };
            (
                ScannerState { pressed: false, prev_press_ms: Some(s.press_ms), ..s },
                Some(if double { GestureKind::Double } else { GestureKind::Press }),
            )
        }
    } else {
        (s, None)
    }
}

/// Per-button gesture state machine.
///
/// Feed it [`ButtonScanner::sample`] whenever the button's physical state is
/// known (on every poll on real hardware, or on down/up events in the
/// emulator). It returns the [`GestureKind`] of the transition, if any.
#[derive(Clone, Copy, Debug)]
pub struct ButtonScanner {
    pressed: bool,
    press_ms: u64,
    last_repeat_ms: u64,
    prev_press_ms: Option<u64>,
    held: bool,
}

impl View for ButtonScanner {
    type V = ScannerState;

    closed spec fn view(&self) -> ScannerState {
        ScannerState {
            pressed: self.pressed,
            press_ms: self.press_ms,
            last_repeat_ms: self.last_repeat_ms,
            prev_press_ms: self.prev_press_ms,
            held: self.held,
        }
    }
}

impl ButtonScanner {
    pub fn new() -> (s: Self)
        ensures
            s@ == (ScannerState {
                pressed: false,
                press_ms: 0,
                last_repeat_ms: 0,
                prev_press_ms: None,
                held: false,
            }),
    {
        ButtonScanner { pressed: false, press_ms: 0, last_repeat_ms: 0, prev_press_ms: None, held: false }
    }

    /// Forget the previous press, so the next tap of this button is a plain
    /// `Press`. Called by the runtime after a chord, so the buttons of a
    /// simultaneous pair do not ghost a `Double` for their next single tap.
    pub fn reset(&mut self)
        ensures
            final(self)@ == (ScannerState {
                pressed: false,
                held: false,
                prev_press_ms: None,
                ..old(self)@
            }),
    {
        self.pressed = false;
        self.held = false;
        self.prev_press_ms = None;
    }

    /// Sample the current physical state of the button.
    ///
    /// `down` is whether the button is pressed, `now_ms` the current time in
    /// ms (monotonic). Returns the gesture that this sample represents, or
    /// `None` if nothing changed / it's still inside the hold delay.
    pub fn sample(&mut self, down: bool, now_ms: u64) -> (g: Option<GestureKind>)
        ensures
            (final(self)@, g) == scan(old(self)@, down, now_ms),
            old(self)@.wf() ==> final(self)@.wf(),
    {
        if down {
            if self.pressed {
                // Still held: auto-repeat after the hold delay.
                if now_ms.saturating_sub(self.press_ms) >= HOLD_DELAY_MS && now_ms.saturating_sub(
                    self.last_repeat_ms,
                ) >= REPEAT_MS {
                    self.last_repeat_ms = now_ms;
                    self.held = true;
                    return Some(GestureKind::Hold);
                }
                return None;
            }
            // Fresh press (rising edge): remember it; the press itself fires
            // when the button is released.
            self.pressed = true;
            self.press_ms = now_ms;
            self.last_repeat_ms = now_ms;
            None
        } else if self.pressed {
            // Release (falling edge).
            self.pressed = false;
            // The button was held and a `Hold` already fired: do not also
            // fire a press on release.
            if self.held {
                self.held = false;
                self.prev_press_ms = None;
                return None;
            }
            // A quick tap: a press within `DOUBLE_CLICK_MS` of the previous
            // one is a double-click. A press *before* the previous one (the
            // clock jumped backwards, e.g. the RTC was written back) is not.
            let is_double = match self.prev_press_ms {
                Some(prev) => self.press_ms >= prev && self.press_ms - prev <= DOUBLE_CLICK_MS,
                None => false,
            };
            self.prev_press_ms = Some(self.press_ms);
            if is_double {
                Some(GestureKind::Double)
            } else {
                Some(GestureKind::Press)
            }
        } else {
            None
        }
    }

    /// Convenience: sample a button and wrap the result in a [`GestureEvent`].
    pub fn event(&mut self, button: ButtonId, down: bool, now_ms: u64) -> (e: Option<GestureEvent>)
        ensures
            final(self)@ == scan(old(self)@, down, now_ms).0,
            old(self)@.wf() ==> final(self)@.wf(),
            e == (match scan(old(self)@, down, now_ms).1 {
                Some(kind) => Some(GestureEvent { button, kind }),
                None => None,
            }),
    {
        match self.sample(down, now_ms) {
            Some(kind) => Some(GestureEvent { button, kind }),
            None => None,
        }
    }
}

/// A hold suppresses the press: releasing a button after a `Hold` fired
/// never produces a gesture, and the next tap is a plain press (not a
/// double).
pub proof fn lemma_hold_suppresses_press(s: ScannerState, now: u64)
    requires
        s.pressed,
        s.held,
    ensures
        scan(s, false, now).1 == None::<GestureKind>,
        scan(s, false, now).0.prev_press_ms == None::<u64>,
{
}

/// A tap (down then up) of a released button after a forgotten previous
/// press is a plain press, whatever the timing.
pub proof fn lemma_tap_is_press(s: ScannerState, t_down: u64, t_up: u64)
    requires
        s.wf(),
        !s.pressed,
        s.prev_press_ms == None::<u64>,
    ensures
        scan(scan(s, true, t_down).0, false, t_up).1 == Some(GestureKind::Press),
{
}

/// Two taps of a released button, the second pressed at most
/// `DOUBLE_CLICK_MS` after the first, give a press then a double-click.
pub proof fn lemma_double_click(s: ScannerState, d1: u64, u1: u64, d2: u64, u2: u64)
    requires
        s.wf(),
        !s.pressed,
        s.prev_press_ms == None::<u64>,
        d1 <= d2 <= d1 + DOUBLE_CLICK_MS,
    ensures
        ({
            let s1 = scan(scan(s, true, d1).0, false, u1);
            let s2 = scan(scan(s1.0, true, d2).0, false, u2);
            s1.1 == Some(GestureKind::Press) && s2.1 == Some(GestureKind::Double)
        }),
{
}

/// A press never fires a gesture before it has been held for
/// `HOLD_DELAY_MS`, and a held press fires at most one `Hold` per
/// `REPEAT_MS`.
pub proof fn lemma_hold_timing(s: ScannerState, now: u64)
    requires
        s.pressed,
        s.press_ms <= now,
        s.last_repeat_ms <= now,
        now - s.press_ms < HOLD_DELAY_MS || now - s.last_repeat_ms < REPEAT_MS,
    ensures
        scan(s, true, now) == (s, None::<GestureKind>),
{
}


/// The double-click window: after a press that fired (its down at `p`,
/// remembered as the previous press), a tap of the released button with its
/// down at `q` is a `Double` exactly when `p <= q <= p + DOUBLE_CLICK_MS`,
/// and a `Press` otherwise (a down before `p`, the clock having gone back,
/// is never a double); the tap is then remembered in turn.
pub proof fn lemma_double_click_window(s: ScannerState, p: u64, q: u64, r: u64)
    requires
        s.wf(),
        !s.pressed,
        s.prev_press_ms == Some(p),
    ensures
        ({
            let tap = scan(scan(s, true, q).0, false, r);
            &&& tap.1 == Some(if p <= q && q - p <= DOUBLE_CLICK_MS { GestureKind::Double } else { GestureKind::Press })
            &&& tap.0.prev_press_ms == Some(q)
        }),
{
}

/// A quick release remembers its press: a release that fires a `Press` or a
/// `Double` leaves the press's down time as the previous press.
pub proof fn lemma_release_remembers_press(s: ScannerState, now: u64)
    requires
        s.wf(),
    ensures
        scan(s, false, now).1 is Some ==> scan(s, false, now).0.prev_press_ms == Some(s.press_ms),
{
}

/// Hold timing: a sample of a pressed button fires `Hold` exactly when the
/// press is at least `HOLD_DELAY_MS` old and the last repeat (or the press
/// itself) at least `REPEAT_MS` ago, and a fired hold becomes the last
/// repeat; a fresh press and the release of a released button fire
/// nothing.
pub proof fn lemma_hold_fires(s: ScannerState, now: u64)
    requires
        s.wf(),
    ensures
        s.pressed ==> ((scan(s, true, now).1 == Some(GestureKind::Hold)) <==> (saturating_diff(now, s.press_ms)
            >= HOLD_DELAY_MS && saturating_diff(now, s.last_repeat_ms) >= REPEAT_MS)),
        s.pressed && scan(s, true, now).1 is Some ==> {
            &&& scan(s, true, now).0.last_repeat_ms == now
            &&& scan(s, true, now).0.held
            &&& scan(s, true, now).0.press_ms == s.press_ms
        },
        !s.pressed ==> scan(s, true, now).1 is None && scan(s, true, now).0.press_ms == now
            && scan(s, true, now).0.last_repeat_ms == now,
        !s.pressed ==> scan(s, false, now).1 is None,
{
}

/// After a reset (released, no hold, previous press forgotten) a release
/// fires nothing, and a tap is a plain press: never a double, never
/// suppressed by an earlier hold.
pub proof fn lemma_reset_forgets(s: ScannerState, a: u64, b: u64, t: u64)
    requires
        !s.pressed,
        !s.held,
        s.prev_press_ms == None::<u64>,
    ensures
        scan(s, false, t).1 == None::<GestureKind>,
        scan(s, true, a).1 == None::<GestureKind>,
        scan(scan(s, true, a).0, false, b).1 == Some(GestureKind::Press),
{
}

} // verus!
