//! Button gesture recognition. Turns raw "button is down" samples into the
//! pluto key events (`Up` / `Down` / `Enter`, plain or `Long`).
//!
//! The same scanner drives the real firmware (a poll loop sampling the GPIO
//! pins) and the emulator (discrete down/up events), so gesture timing is
//! identical on both.
use vstd::prelude::*;

use crate::legacy::app::Event;

verus! {

/// How long a button must be held before it becomes a `*Long` event / starts
/// auto-repeating.
pub const HOLD_DELAY_MS: u64 = 750;

/// How often a held button re-fires after `HOLD_DELAY_MS`.
pub const REPEAT_MS: u64 = 250;

/// The pluto buttons, by their logical role (same physical buttons as the
/// F-91W: Mode = Enter, Light = Down, Alarm = Up).
#[derive(Clone, Copy, Debug, PartialEq, Eq, Structural)]
pub enum KeyId {
    Up,
    Down,
    Enter,
}

impl KeyId {
    /// The key with number `id` as the emulator page numbers the buttons
    /// (`0 = Up`, `1 = Down`, anything else is Enter).
    pub fn from_id(id: u32) -> (k: KeyId)
        ensures
            k == (if id == 0 {
                KeyId::Up
            } else if id == 1 {
                KeyId::Down
            } else {
                KeyId::Enter
            }),
    {
        match id {
            0 => KeyId::Up,
            1 => KeyId::Down,
            _ => KeyId::Enter,
        }
    }

    /// The index of the key's scanner: the button number, at most 2.
    pub fn scanner_index(id: u32) -> (i: usize)
        ensures
            i == (if id < 2 { id as int } else { 2 }),
    {
        if id < 2 {
            id as usize
        } else {
            2
        }
    }
}

/// The state of a [`ButtonScanner`].
pub struct KeyState {
    /// The button is down.
    pub pressed: bool,
    /// When it went down.
    pub press_ms: u64,
    /// When it last fired.
    pub last_repeat_ms: u64,
}

/// `a - b`, or 0 when `b` is later.
pub open spec fn elapsed(a: u64, b: u64) -> int {
    if a >= b {
        a - b
    } else {
        0
    }
}

/// One sample of a button: the new state and the event it fires. Going down
/// fires the plain key at once; holding it fires the `Long` key after
/// [`HOLD_DELAY_MS`] and then every [`REPEAT_MS`]; releasing fires nothing.
pub open spec fn key_scan(s: KeyState, key: KeyId, down: bool, now: u64) -> (KeyState, Option<Event>) {
    if down {
        if s.pressed {
            if elapsed(now, s.press_ms) >= HOLD_DELAY_MS && elapsed(now, s.last_repeat_ms) >= REPEAT_MS {
                (KeyState { last_repeat_ms: now, ..s }, Some(Event::spec_key_long(key)))
            } else {
                (s, None)
            }
        } else {
            (KeyState { pressed: true, press_ms: now, last_repeat_ms: now }, Some(Event::spec_key(key)))
        }
    } else {
        (KeyState { pressed: false, ..s }, None)
    }
}

/// Per-button gesture state machine.
///
/// Feed it [`ButtonScanner::sample`] whenever the button's physical state is
/// known. Returns the resulting [`Event`], or `None` if nothing happened.
#[derive(Clone, Copy, Debug)]
pub struct ButtonScanner {
    pressed: bool,
    press_ms: u64,
    last_repeat_ms: u64,
}

impl View for ButtonScanner {
    type V = KeyState;

    closed spec fn view(&self) -> KeyState {
        KeyState { pressed: self.pressed, press_ms: self.press_ms, last_repeat_ms: self.last_repeat_ms }
    }
}

impl ButtonScanner {
    pub fn new() -> (s: Self)
        ensures
            s@ == (KeyState { pressed: false, press_ms: 0, last_repeat_ms: 0 }),
    {
        ButtonScanner { pressed: false, press_ms: 0, last_repeat_ms: 0 }
    }

    /// Sample the current physical state of the button.
    pub fn sample(&mut self, key: KeyId, down: bool, now_ms: u64) -> (e: Option<Event>)
        ensures
            (final(self)@, e) == key_scan(old(self)@, key, down, now_ms),
    {
        if down {
            if self.pressed {
                if now_ms.saturating_sub(self.press_ms) >= HOLD_DELAY_MS && now_ms.saturating_sub(
                    self.last_repeat_ms,
                ) >= REPEAT_MS {
                    self.last_repeat_ms = now_ms;
                    return Some(Event::key_long(key));
                }
                return None;
            }
            self.pressed = true;
            self.press_ms = now_ms;
            self.last_repeat_ms = now_ms;
            Some(Event::key(key))
        } else {
            self.pressed = false;
            None
        }
    }
}

/// Holding a button fires its `Long` key exactly when the hold delay has
/// passed since it went down and the repeat interval since it last fired;
/// the plain key fires once, when it goes down.
pub proof fn lemma_key_fires_once(s: KeyState, key: KeyId, now: u64, later: u64)
    requires
        !s.pressed,
    ensures
        ({
            let (s1, e1) = key_scan(s, key, true, now);
            let (s2, e2) = key_scan(s1, key, true, later);
            &&& e1 == Some(Event::spec_key(key))
            &&& (e2 is Some <==> later >= now + HOLD_DELAY_MS)
            &&& e2 is Some ==> e2 == Some(Event::spec_key_long(key))
        }),
{
}

} // verus!
