//! Casio-style countdown timer face (the stock F-91W ST mode).
//!
//! The view mode shows `TI` in the weekday letters and the remaining time as
//! HH:MM:SS (no leading zero on the hour, like the clock face). The **LAP**
//! indicator is on while the countdown runs. The Alarm button starts / pauses
//! it; on a finished countdown (stopped at 00:00:00) the first press re-arms
//! the full duration, paused, and the next press starts it. On the very first entry the timer is pre-set to the first preset
//! (1 minute).
//!
//! Light enters the settings: the fields are seconds -> minutes -> hours
//! (Light advances, Alarm steps the value, a double adds 5, a hold resets to
//! 0). Entering the settings pauses any running countdown, and leaving them
//! arms the freshly configured duration (reset to its full length, paused).
//! The maximum duration is 23:59:59.
//!
//! The Alarm + Light chord steps through the preset durations
//! (1/3/5/7/10/15/20/30/40/60 minutes): it sets the duration and stops /
//! resets the current countdown.
//!
//! The countdown runs in the background (via `background_tick`) on any face.
//! When it reaches zero the watch auto-switches here and rings for up to
//! [`RING_SECS`] (or until any button press), showing 00:00:00 with the Bell
//! indicator blinking at 2 Hz and playing the ring melody (two short beeps)
//! once per second, like the alarms.
use vstd::prelude::*;

use crate::display::{lemma_letter_owners, pair_blank, same_except, shows_chars, shows_pair, shows_unpadded, DigitDisplay};
use crate::face::{is_alarm_light, AlarmAction, ButtonId, ChordEvent, Face, FaceContext, GestureEvent, GestureKind};
use crate::faces::simple_alarm::{blink, blink_on};
use crate::font::{lemma_font_owners, lemma_indicator_owners, shows_digit, shows_indicator, Indicator};
use crate::hardware::{ring_beep, ring_beep_notes, Effect, Hardware};
use crate::time::DateTime;

verus! {

/// How long a finished countdown keeps ringing (seconds), unless silenced by a
/// button press first. Same as the alarm faces.
pub const RING_SECS: u32 = 120;

/// Preset durations in minutes, cycled by the Alarm + Light chord.
pub const PRESETS_MIN: [u32; 10] = [1, 3, 5, 7, 10, 15, 20, 30, 40, 60];

/// The longest duration, 23:59:59, in ms.
pub const MAX_DURATION_MS: u64 = 86_399_000;

/// Which value is being edited.
#[derive(Clone, Copy, PartialEq, Eq, Structural)]
pub enum TimerField {
    Sec,
    Min,
    Hour,
}

/// Display mode of the face.
#[derive(Clone, Copy, PartialEq, Eq, Structural)]
pub enum TimerMode {
    View,
    Edit(TimerField),
}

/// The countdown timer face.
#[derive(Clone, Copy, PartialEq, Eq, Structural)]
pub struct Timer {
    /// Configured countdown length in ms.
    duration_ms: u64,
    /// Milliseconds left until zero (never more than `duration_ms` outside
    /// the settings).
    remaining_ms: u64,
    /// Whether the countdown is currently running.
    running: bool,
    /// Epoch ms of the last background tick while running, to compute the
    /// elapsed wall-clock time. Stale when paused (and re-armed on resume).
    last_tick_ms: u64,
    /// Index into [`PRESETS_MIN`] of the currently selected preset.
    preset: usize,
    mode: TimerMode,
    /// Epoch ms of the last change of the edited value, to suppress blinking
    /// while the user is rapidly scrolling. `None` when unchanged.
    changed_at: Option<u64>,
    /// Epoch second at which the ring ends. `None` when not ringing.
    ring_until: Option<u64>,
    /// Epoch second of the last ring melody, to play it once per second.
    last_beep: Option<u64>,
}

/// `hour:min:sec` in ms.
pub open spec fn parts_ms(hour: int, min: int, sec: int) -> int {
    (hour * 3600 + min * 60 + sec) * 1000
}

impl Timer {
    /// The configured duration in ms.
    pub closed spec fn spec_duration_ms(self) -> u64 {
        self.duration_ms
    }

    /// The time left in ms.
    pub closed spec fn spec_remaining_ms(self) -> u64 {
        self.remaining_ms
    }

    /// The epoch ms of the last background tick of a running countdown.
    pub closed spec fn spec_last_tick_ms(self) -> u64 {
        self.last_tick_ms
    }

    /// The countdown runs.
    pub closed spec fn spec_running(self) -> bool {
        self.running
    }

    /// The display mode.
    pub closed spec fn spec_mode(self) -> TimerMode {
        self.mode
    }

    /// The epoch second at which the ring ends, while it rings.
    pub closed spec fn spec_ring_until(self) -> Option<u64> {
        self.ring_until
    }

    /// The epoch second of the last ring melody.
    pub closed spec fn spec_last_beep(self) -> Option<u64> {
        self.last_beep
    }

    /// The index of the selected preset.
    pub closed spec fn spec_preset(self) -> int {
        self.preset as int
    }

    /// The duration as `(hour, minute, second)`.
    pub open spec fn parts(self) -> (int, int, int) {
        let total = self.spec_duration_ms() as int / 1000;
        ((total / 3600) % 24, (total / 60) % 60, total % 60)
    }

    /// The time left rounded up to whole seconds, as `(hour, minute,
    /// second)`: a freshly started timer shows its full seconds until a full
    /// second has actually elapsed.
    pub open spec fn remaining(self) -> (int, int, int) {
        let secs = (self.spec_remaining_ms() as int + 999) / 1000;
        (secs / 3600, (secs / 60) % 60, secs % 60)
    }

    /// A face as [`Timer::new`] makes it.
    pub closed spec fn fresh() -> Self {
        Timer {
            duration_ms: 60_000,
            remaining_ms: 60_000,
            running: false,
            last_tick_ms: 0,
            preset: 0,
            mode: TimerMode::View,
            changed_at: None,
            ring_until: None,
            last_beep: None,
        }
    }

    pub fn new() -> (t: Self)
        ensures
            t == Self::fresh(),
            t.spec_duration_ms() == 60_000,
            t.spec_remaining_ms() == 60_000,
            !t.spec_running(),
            t.spec_preset() == 0,
            t.spec_mode() == TimerMode::View,
            t.spec_ring_until() == None::<u64>,
            t.inv(),
    {
        let duration_ms = PRESETS_MIN[0] as u64 * 60_000;
        Timer {
            duration_ms,
            remaining_ms: duration_ms,
            running: false,
            last_tick_ms: 0,
            preset: 0,
            mode: TimerMode::View,
            changed_at: None,
            ring_until: None,
            last_beep: None,
        }
    }

    /// The configured duration, in whole seconds.
    pub fn duration_secs(&self) -> (secs: u32)
        requires
            self.inv(),
        ensures
            secs == self.spec_duration_ms() / 1000,
    {
        (self.duration_ms / 1000) as u32
    }

    /// The configured duration split into (hour, minute, second).
    fn duration_parts(&self) -> (p: (u8, u8, u8))
        requires
            self.inv(),
        ensures
            (p.0 as int, p.1 as int, p.2 as int) == self.parts(),
    {
        let total = (self.duration_ms / 1000) as u32;
        (((total / 3600) % 24) as u8, ((total / 60) % 60) as u8, (total % 60) as u8)
    }

    /// Rebuild the duration from (hour, minute, second).
    fn set_duration_parts(&mut self, hour: u8, min: u8, sec: u8)
        requires
            hour < 24,
            min < 60,
            sec < 60,
        ensures
            *final(self) == (Timer { duration_ms: parts_ms(hour as int, min as int, sec as int) as u64, ..*old(self) }),
            final(self).duration_ms <= MAX_DURATION_MS,
            final(self).duration_ms % 1000 == 0,
    {
        self.duration_ms = (hour as u64 * 3600 + min as u64 * 60 + sec as u64) * 1000;
    }

    /// The duration with the focused field replaced by `f(field value)`.
    pub closed spec fn with_field(self, value: int) -> u64 {
        let (h, m, s) = self.parts();
        match self.mode {
            TimerMode::Edit(TimerField::Sec) => parts_ms(h, m, value) as u64,
            TimerMode::Edit(TimerField::Min) => parts_ms(h, value, s) as u64,
            TimerMode::Edit(TimerField::Hour) => parts_ms(value, m, s) as u64,
            TimerMode::View => self.duration_ms,
        }
    }

    /// The face with the focused field advanced by `steps` (seconds and
    /// minutes wrap at 60, hours at 24).
    pub closed spec fn stepped(self, steps: int) -> Self {
        let (h, m, s) = self.parts();
        match self.mode {
            TimerMode::Edit(TimerField::Sec) => Timer { duration_ms: self.with_field((s + steps) % 60), ..self },
            TimerMode::Edit(TimerField::Min) => Timer { duration_ms: self.with_field((m + steps) % 60), ..self },
            TimerMode::Edit(TimerField::Hour) => Timer { duration_ms: self.with_field((h + steps) % 24), ..self },
            TimerMode::View => self,
        }
    }

    /// The face with the focused field set to zero.
    pub closed spec fn zeroed(self) -> Self {
        Timer { duration_ms: self.with_field(0), ..self }
    }

    fn step(&mut self, steps: u8)
        requires
            old(self).inv(),
            steps <= 4,
        ensures
            *final(self) == old(self).stepped(steps as int),
            final(self).inv(),
    {
        let (mut hour, mut min, mut sec) = self.duration_parts();
        match self.mode {
            TimerMode::Edit(TimerField::Sec) => sec = (sec + steps) % 60,
            TimerMode::Edit(TimerField::Min) => min = (min + steps) % 60,
            TimerMode::Edit(TimerField::Hour) => hour = (hour + steps) % 24,
            TimerMode::View => return,
        }
        self.set_duration_parts(hour, min, sec);
    }

    /// Reset the focused value to zero (holding the Alarm button).
    fn reset(&mut self)
        requires
            old(self).inv(),
        ensures
            *final(self) == old(self).zeroed(),
            final(self).inv(),
    {
        let (mut hour, mut min, mut sec) = self.duration_parts();
        match self.mode {
            TimerMode::Edit(TimerField::Sec) => sec = 0,
            TimerMode::Edit(TimerField::Min) => min = 0,
            TimerMode::Edit(TimerField::Hour) => hour = 0,
            TimerMode::View => return,
        }
        self.set_duration_parts(hour, min, sec);
    }

    /// The face after the Alarm + Light chord: the next preset is selected,
    /// the duration set to it and the countdown reset and stopped.
    pub closed spec fn with_next_preset(self) -> Self {
        let p = (self.preset + 1) % 10;
        let d = (PRESETS_MIN[p as int] * 60_000) as u64;
        Timer { preset: p as usize, duration_ms: d, remaining_ms: d, running: false, ..self }
    }

    /// Step to the next preset: set the duration, reset the countdown and stop
    /// any run.
    fn next_preset(&mut self)
        requires
            old(self).inv(),
        ensures
            *final(self) == old(self).with_next_preset(),
    {
        self.preset = (self.preset + 1) % PRESETS_MIN.len();
        self.duration_ms = PRESETS_MIN[self.preset] as u64 * 60_000;
        self.remaining_ms = self.duration_ms;
        self.running = false;
    }

    /// The remaining time rounded up to whole seconds, as (hour, min, sec).
    fn remaining_parts(&self) -> (p: (u8, u8, u8))
        requires
            self.inv(),
        ensures
            (p.0 as int, p.1 as int, p.2 as int) == self.remaining(),
    {
        let secs = (self.remaining_ms + 999) / 1000;
        ((secs / 3600) as u8, ((secs / 60) % 60) as u8, (secs % 60) as u8)
    }

    fn draw_pair<H: Hardware>(&self, hw: &mut H, position: u8, value: u8, visible: bool)
        requires
            position == 4 || position == 6 || position == 8,
            value < 100,
        ensures
            visible ==> shows_pair(final(hw).segments(), position as int, value as int),
            !visible ==> pair_blank(final(hw).segments(), position as int),
            same_except(old(hw).segments(), final(hw).segments(), set![position as int, position + 1]),
            final(hw).effects() == old(hw).effects(),
    {
        proof {
            lemma_font_owners();
        }
        if visible {
            hw.set_digit(position, value / 10);
            hw.set_digit(position + 1, value % 10);
        } else {
            hw.clear_digit(position);
            hw.clear_digit(position + 1);
        }
    }

    /// The face after an Alarm gesture (see [`Face::after_button`]).
    pub closed spec fn after_alarm(self, kind: GestureKind, now: u64) -> Self {
        match self.mode {
            TimerMode::View => if kind == GestureKind::Press {
                if self.running {
                    Timer { running: false, ..self }
                } else if self.remaining_ms == 0 {
                    Timer { remaining_ms: self.duration_ms, ..self }
                } else {
                    Timer { running: true, last_tick_ms: now, ..self }
                }
            } else {
                self
            },
            TimerMode::Edit(_) => match kind {
                GestureKind::Press => Timer { changed_at: Some(now), ..self.stepped(1) },
                GestureKind::Hold => Timer { changed_at: Some(now), ..self.zeroed() },
                GestureKind::Double => Timer { changed_at: Some(now), ..self.stepped(4) },
            },
        }
    }

    /// The face after a Light gesture (see [`Face::after_button`]).
    pub closed spec fn after_light(self, kind: GestureKind) -> Self {
        match self.mode {
            TimerMode::View => if kind == GestureKind::Press {
                Timer { running: false, mode: TimerMode::Edit(TimerField::Sec), ..self }
            } else {
                self
            },
            TimerMode::Edit(field) => {
                let mode = match kind {
                    GestureKind::Press => match field {
                        TimerField::Sec => TimerMode::Edit(TimerField::Min),
                        TimerField::Min => TimerMode::Edit(TimerField::Hour),
                        TimerField::Hour => TimerMode::View,
                    },
                    GestureKind::Hold => TimerMode::View,
                    GestureKind::Double => self.mode,
                };
                Timer {
                    mode,
                    remaining_ms: if mode == TimerMode::View { self.duration_ms } else { self.remaining_ms },
                    ..self
                }
            },
        }
    }

    fn alarm_button(&mut self, kind: GestureKind, now_ms: u64)
        requires
            old(self).inv(),
        ensures
            *final(self) == old(self).after_alarm(kind, now_ms),
            final(self).inv(),
    {
        match self.mode {
            // In the view mode Alarm starts / pauses the countdown; on a
            // finished countdown (stopped at 00:00:00) the first press re-arms
            // the full duration, paused, and the next one starts it.
            TimerMode::View => {
                if kind == GestureKind::Press {
                    if self.running {
                        self.running = false;
                    } else if self.remaining_ms == 0 {
                        self.remaining_ms = self.duration_ms;
                    } else {
                        self.running = true;
                        self.last_tick_ms = now_ms;
                    }
                }
            },
            TimerMode::Edit(_) => match kind {
                // A plain press adds one unit.
                GestureKind::Press => {
                    self.step(1);
                    self.changed_at = Some(now_ms);
                },
                // Holding the button resets the value to zero.
                GestureKind::Hold => {
                    self.reset();
                    self.changed_at = Some(now_ms);
                },
                // A double press adds five units in total: the first press of
                // the pair already added one, so the second adds four more.
                GestureKind::Double => {
                    self.step(4);
                    self.changed_at = Some(now_ms);
                },
            },
        }
    }

    fn light_button(&mut self, kind: GestureKind)
        requires
            old(self).inv(),
        ensures
            *final(self) == old(self).after_light(kind),
            final(self).inv(),
    {
        match self.mode {
            // A press enters the settings (no hold needed). The countdown is
            // paused: the face shows a duration, not a ticking remaining
            // time, while editing.
            TimerMode::View => {
                if kind == GestureKind::Press {
                    self.running = false;
                    self.mode = TimerMode::Edit(TimerField::Sec);
                }
            },
            TimerMode::Edit(field) => {
                match kind {
                    // A press moves to the next field; on the last one (hour)
                    // it exits the settings.
                    GestureKind::Press => {
                        self.mode = match field {
                            TimerField::Sec => TimerMode::Edit(TimerField::Min),
                            TimerField::Min => TimerMode::Edit(TimerField::Hour),
                            TimerField::Hour => TimerMode::View,
                        };
                    },
                    // A hold exits the settings.
                    GestureKind::Hold => self.mode = TimerMode::View,
                    _ => {},
                }
                // Exiting the settings arms the freshly configured duration:
                // the countdown resets to its full length, paused, ready to
                // start on Alarm.
                if self.mode == TimerMode::View {
                    self.remaining_ms = self.duration_ms;
                }
            },
        }
    }

    /// Draw HH:MM:SS into the time digits, no leading zero on the hour (like
    /// the clock face).
    fn draw_clock<H: Hardware>(&self, hw: &mut H, hour: u8, min: u8, sec: u8)
        requires
            hour < 24,
            min < 60,
            sec < 60,
        ensures
            shows_unpadded(final(hw).segments(), 4, hour as int),
            shows_pair(final(hw).segments(), 6, min as int),
            shows_pair(final(hw).segments(), 8, sec as int),
            same_except(old(hw).segments(), final(hw).segments(), set![4int, 5, 6, 7, 8, 9]),
            final(hw).effects() == old(hw).effects(),
    {
        proof {
            lemma_font_owners();
        }
        if hour >= 10 {
            hw.set_digit(4, hour / 10);
        } else {
            hw.clear_digit(4);
        }
        hw.set_digit(5, hour % 10);
        hw.set_digit(6, min / 10);
        hw.set_digit(7, min % 10);
        hw.set_digit(8, sec / 10);
        hw.set_digit(9, sec % 10);
    }

    /// What the view mode shows: `TI`, the time left (hour without a leading
    /// zero), LAP while the countdown runs, the Bell blinking at 2 Hz while
    /// ringing, SIG while the chime is on, no 24H / PM.
    pub open spec fn view_screen(self, lit: Set<(u8, u8)>, ctx: FaceContext) -> bool {
        let (h, m, s) = self.remaining();
        &&& shows_chars(lit, ['T' as u8, 'I' as u8])
        &&& shows_unpadded(lit, 4, h)
        &&& shows_pair(lit, 6, m)
        &&& shows_pair(lit, 8, s)
        &&& shows_indicator(lit, Indicator::Lap, self.spec_running())
        &&& shows_indicator(lit, Indicator::Bell, self.spec_ring_until() is Some && (ctx.time.ms / 500) % 2 == 0)
        &&& shows_indicator(lit, Indicator::H24, false)
        &&& shows_indicator(lit, Indicator::Pm, false)
        &&& shows_indicator(lit, Indicator::Signal, ctx.chime)
    }

    /// When the edited field last changed.
    pub closed spec fn spec_changed_at(self) -> Option<u64> {
        self.changed_at
    }

    /// What the settings show: `SE`, `MI` or `HO` for the edited field, the
    /// duration with its hour always two digits and the edited minute or
    /// second pair blinking (see [`blink_on`]), and no indicator.
    pub open spec fn edit_screen(self, lit: Set<(u8, u8)>, t: DateTime) -> bool {
        let (h, m, s) = self.parts();
        let b = blink_on(self.spec_changed_at(), t);
        match self.spec_mode() {
            TimerMode::Edit(field) => {
                &&& shows_chars(
                    lit,
                    match field {
                        TimerField::Sec => ['S' as u8, 'E' as u8],
                        TimerField::Min => ['M' as u8, 'I' as u8],
                        TimerField::Hour => ['H' as u8, 'O' as u8],
                    },
                )
                &&& shows_pair(lit, 4, h)
                &&& (if field != TimerField::Min || b { shows_pair(lit, 6, m) } else { pair_blank(lit, 6) })
                &&& (if field != TimerField::Sec || b { shows_pair(lit, 8, s) } else { pair_blank(lit, 8) })
                &&& shows_indicator(lit, Indicator::Lap, false)
                &&& shows_indicator(lit, Indicator::Bell, false)
                &&& shows_indicator(lit, Indicator::H24, false)
                &&& shows_indicator(lit, Indicator::Pm, false)
                &&& shows_indicator(lit, Indicator::Signal, false)
            },
            TimerMode::View => true,
        }
    }

    #[verifier::rlimit(40)]
    fn draw_view<H: Hardware>(&self, ctx: &FaceContext, hw: &mut H)
        requires
            self.inv(),
            ctx.wf(),
        ensures
            self.view_screen(final(hw).segments(), *ctx),
            same_except(old(hw).segments(), final(hw).segments(), set![0int, 1, 4, 5, 6, 7, 8, 9, 20, 21, 22, 23, 24]),
            final(hw).effects() == old(hw).effects(),
    {
        proof {
            lemma_font_owners();
            lemma_letter_owners();
            lemma_indicator_owners();
        }
        hw.set_char(0, 'T' as u8);
        hw.set_char(1, 'I' as u8);
        let (hour, min, sec) = self.remaining_parts();
        self.draw_clock(hw, hour, min, sec);
        // The LAP indicator means "the countdown is running". The Bell
        // indicator blinks at 2 Hz while the ring fires; otherwise it is off.
        let ringing = self.ring_until.is_some();
        let bell = ringing && (ctx.time.ms / 500) % 2 == 0;
        hw.set_indicator(Indicator::Lap, self.running);
        hw.set_indicator(Indicator::Bell, bell);
        hw.set_indicator(Indicator::H24, false);
        hw.set_indicator(Indicator::Pm, false);
        hw.set_indicator(Indicator::Signal, ctx.chime);
    }

    #[verifier::rlimit(40)]
    fn draw_edit<H: Hardware>(&self, t: &DateTime, hw: &mut H)
        requires
            self.inv(),
            t.wf(),
        ensures
            self.edit_screen(final(hw).segments(), *t),
            same_except(old(hw).segments(), final(hw).segments(), set![0int, 1, 4, 5, 6, 7, 8, 9, 20, 21, 22, 23, 24]),
            final(hw).effects() == old(hw).effects(),
    {
        proof {
            lemma_font_owners();
            lemma_letter_owners();
            lemma_indicator_owners();
        }
        // While the user is rapidly stepping through values (hold auto-repeat
        // or a double press) the focused value is shown steadily instead of
        // blinking; blinking resumes shortly after the last change.
        let blink = blink(self.changed_at, t);
        let field = match self.mode {
            TimerMode::Edit(f) => f,
            TimerMode::View => return,
        };
        match field {
            TimerField::Sec => {
                hw.set_char(0, 'S' as u8);
                hw.set_char(1, 'E' as u8);
            },
            TimerField::Min => {
                hw.set_char(0, 'M' as u8);
                hw.set_char(1, 'I' as u8);
            },
            TimerField::Hour => {
                hw.set_char(0, 'H' as u8);
                hw.set_char(1, 'O' as u8);
            },
        }
        let (hour, min, sec) = self.duration_parts();
        // The edited hours always show their tens, so the maximum 23:59:59 is
        // unambiguous while configuring.
        hw.set_digit(4, hour / 10);
        hw.set_digit(5, hour % 10);
        self.draw_pair(hw, 6, min, field != TimerField::Min || blink);
        self.draw_pair(hw, 8, sec, field != TimerField::Sec || blink);
        hw.set_indicator(Indicator::Lap, false);
        hw.set_indicator(Indicator::Bell, false);
        hw.set_indicator(Indicator::H24, false);
        hw.set_indicator(Indicator::Pm, false);
        hw.set_indicator(Indicator::Signal, false);
    }
}


impl Face for Timer {
    /// The duration is whole seconds up to 23:59:59, the time left never
    /// exceeds that and, outside the settings, never exceeds the duration;
    /// the countdown is paused during the settings; the selected preset
    /// exists.
    closed spec fn inv(&self) -> bool {
        &&& self.duration_ms <= MAX_DURATION_MS
        &&& self.duration_ms % 1000 == 0
        &&& self.remaining_ms <= MAX_DURATION_MS
        &&& self.mode == TimerMode::View ==> self.remaining_ms <= self.duration_ms
        &&& self.mode != TimerMode::View ==> !self.running
        &&& self.preset < 10
    }

    /// Entering the face starts in the view mode and silences the ring; an
    /// edit session abandoned with Mode re-arms the full duration (unless the
    /// countdown runs).
    closed spec fn after_init(&self, ctx: FaceContext) -> Self {
        let was_editing = self.mode != TimerMode::View;
        Timer {
            mode: TimerMode::View,
            ring_until: None,
            last_beep: None,
            remaining_ms: if was_editing && !self.running {
                self.duration_ms
            } else {
                self.remaining_ms
            },
            ..*self
        }
    }

    /// The ring ends once its window has passed.
    closed spec fn after_tick(&self, ctx: FaceContext) -> Self {
        match self.ring_until {
            Some(until) => if ctx.time.secs < until {
                Timer { last_beep: Some(ctx.time.secs), ..*self }
            } else {
                Timer { ring_until: None, last_beep: None, ..*self }
            },
            None => *self,
        }
    }

    /// A running countdown loses the wall-clock time elapsed since the last
    /// tick (never going below zero). When it reaches zero it stops, the face
    /// switches to the view mode, rings for [`RING_SECS`] and asks to be
    /// shown.
    closed spec fn after_background(&self, ctx: FaceContext) -> (Self, bool) {
        let now = (ctx.time.secs * 1000 + ctx.time.ms) as u64;
        if self.running {
            let elapsed = if now >= self.last_tick_ms { now - self.last_tick_ms } else { 0 };
            let remaining = if self.remaining_ms >= elapsed { self.remaining_ms - elapsed } else { 0 };
            if remaining == 0 {
                (
                    Timer {
                        last_tick_ms: now,
                        remaining_ms: 0,
                        running: false,
                        mode: TimerMode::View,
                        ring_until: Some((ctx.time.secs + RING_SECS) as u64),
                        ..*self
                    },
                    true,
                )
            } else {
                (Timer { last_tick_ms: now, remaining_ms: remaining as u64, ..*self }, false)
            }
        } else {
            (*self, false)
        }
    }

    /// Any button silences the ring. Alarm: in the view mode a press pauses a
    /// running countdown or starts a paused one (on a finished one it re-arms
    /// the full duration, paused); in the settings a press adds one, a
    /// double adds four more, a hold resets the field. Light: in the view
    /// mode a press pauses the countdown and enters the settings at the
    /// seconds; in the settings a press moves on (the hours leave them), a
    /// hold leaves them, and leaving re-arms the full duration. Mode is not
    /// consumed.
    closed spec fn after_button(&self, event: GestureEvent, ctx: FaceContext) -> (Self, bool) {
        let s = Timer { ring_until: None, last_beep: None, ..*self };
        let now = (ctx.time.secs * 1000 + ctx.time.ms) as u64;
        match event.button {
            ButtonId::Alarm => (s.after_alarm(event.kind, now), true),
            ButtonId::Light => (s.after_light(event.kind), true),
            ButtonId::Mode => (s, false),
        }
    }

    /// Alarm + Light selects the next preset.
    closed spec fn after_chord(&self, event: ChordEvent, ctx: FaceContext) -> (Self, bool) {
        if event.is_alarm_light() {
            (self.with_next_preset(), true)
        } else {
            (*self, false)
        }
    }

    closed spec fn action(&self) -> AlarmAction {
        AlarmAction::H24Toggle
    }

    /// Entering the face leaves the glass as it is.
    closed spec fn init_glass(&self, ctx: FaceContext, before: Set<(u8, u8)>) -> Set<(u8, u8)> {
        before
    }

    /// A tick draws the view (in the view mode) or the settings of the face
    /// after the tick, and changes nothing outside the face's elements.
    closed spec fn tick_draws(&self, ctx: FaceContext, before: Set<(u8, u8)>, after: Set<(u8, u8)>) -> bool {
        let s = self.after_tick(ctx);
        &&& s.mode == TimerMode::View ==> s.view_screen(after, ctx)
        &&& s.edit_screen(after, ctx.time)
        &&& same_except(before, after, set![0int, 1, 4, 5, 6, 7, 8, 9, 20, 21, 22, 23, 24])
    }

    /// Entering the face stops the ring melody.
    closed spec fn init_effects(&self, ctx: FaceContext) -> Seq<Effect> {
        seq![Effect::StopMelody]
    }

    /// The ring melody once per second while the ring lasts; the melody
    /// stops when the ring ends.
    closed spec fn tick_effects(&self, ctx: FaceContext) -> Seq<Effect> {
        match self.ring_until {
            Some(until) => if ctx.time.secs < until {
                if self.last_beep != Some(ctx.time.secs) {
                    seq![Effect::Melody(ring_beep_notes())]
                } else {
                    Seq::empty()
                }
            } else {
                seq![Effect::StopMelody]
            },
            None => Seq::empty(),
        }
    }

    /// Any button stops the ring melody.
    closed spec fn button_effects(&self, event: GestureEvent, ctx: FaceContext) -> Seq<Effect> {
        seq![Effect::StopMelody]
    }

    /// A chord requests nothing.
    closed spec fn chord_effects(&self, event: ChordEvent, ctx: FaceContext) -> Seq<Effect> {
        Seq::empty()
    }

    fn init<H: Hardware>(&mut self, _ctx: &FaceContext, hw: &mut H)
        ensures
            final(hw).segments() == old(hw).segments(),
            final(hw).effects() == old(hw).effects().push(Effect::StopMelody),
    {
        // Entering the face always starts in the view mode and silences the
        // ring. An auto-switch when the countdown ends does NOT call init, so
        // the ring survives that path. The countdown itself keeps running:
        // coming back from another face resumes it. An edit session abandoned
        // with Mode re-arms the full duration.
        let was_editing = match self.mode {
            TimerMode::Edit(_) => true,
            TimerMode::View => false,
        };
        self.mode = TimerMode::View;
        self.ring_until = None;
        self.last_beep = None;
        if was_editing && !self.running {
            self.remaining_ms = self.duration_ms;
        }
        hw.stop_melody();
    }

    /// Plays the ring melody once per second while the ring lasts, stops it
    /// when the ring ends, and draws the view or the settings.
    fn tick<H: Hardware>(&mut self, ctx: &FaceContext, hw: &mut H)
        ensures
            final(hw).effects() == old(hw).effects() + (match old(self).spec_ring_until() {
                Some(until) => if ctx.time.secs < until {
                    if old(self).spec_last_beep() != Some(ctx.time.secs) {
                        seq![Effect::Melody(ring_beep_notes())]
                    } else {
                        Seq::empty()
                    }
                } else {
                    seq![Effect::StopMelody]
                },
                None => Seq::empty(),
            }),
            final(self).spec_mode() == TimerMode::View ==> final(self).view_screen(final(hw).segments(), *ctx),
            final(self).edit_screen(final(hw).segments(), ctx.time),
            same_except(old(hw).segments(), final(hw).segments(), set![0int, 1, 4, 5, 6, 7, 8, 9, 20, 21, 22, 23, 24]),
    {
        // Ring while inside the window; go silent once we pass it. Only the
        // active face ticks, so a ring dies the moment the user switches faces
        // with Mode. The ring melody re-triggers once per second (not on every
        // tick).
        let secs = ctx.time.secs;
        match self.ring_until {
            Some(until) => {
                if secs < until {
                    let beeped = match self.last_beep {
                        Some(b) => b == secs,
                        None => false,
                    };
                    if !beeped {
                        self.last_beep = Some(secs);
                        let notes = ring_beep();
                        hw.melody(&notes);
                    }
                } else {
                    self.ring_until = None;
                    self.last_beep = None;
                    hw.stop_melody();
                }
            },
            None => {},
        }
        let ghost e = hw.effects();
        match self.mode {
            TimerMode::View => self.draw_view(ctx, hw),
            TimerMode::Edit(_) => self.draw_edit(&ctx.time, hw),
        }
        proof {
            assert(hw.effects() =~= e);
            assert(old(hw).effects() + Seq::<Effect>::empty() =~= old(hw).effects());
            assert(old(hw).effects() + seq![Effect::StopMelody] =~= old(hw).effects().push(Effect::StopMelody));
            assert(old(hw).effects() + seq![Effect::Melody(ring_beep_notes())] =~= old(hw).effects().push(
                Effect::Melody(ring_beep_notes()),
            ));
        }
    }

    fn background_tick<H: Hardware>(&mut self, ctx: &FaceContext, _hw: &mut H) -> (activate: bool) {
        let now_ms = ctx.time.secs * 1000 + ctx.time.ms as u64;
        if self.running {
            let elapsed = now_ms.saturating_sub(self.last_tick_ms);
            self.last_tick_ms = now_ms;
            self.remaining_ms = self.remaining_ms.saturating_sub(elapsed);
            if self.remaining_ms == 0 {
                self.running = false;
                // Snap to the view mode: the countdown ending interrupts
                // whatever the face was doing (even its own edit session).
                self.mode = TimerMode::View;
                self.ring_until = Some(ctx.time.secs + RING_SECS as u64);
                return true;
            }
        }
        false
    }

    fn button<H: Hardware>(&mut self, event: GestureEvent, ctx: &FaceContext, hw: &mut H) -> (consumed: bool)
        ensures
            final(hw).segments() == old(hw).segments(),
            final(hw).effects() == old(hw).effects().push(Effect::StopMelody),
    {
        // Any button press silences the ring (the stock Casio behaviour).
        self.ring_until = None;
        self.last_beep = None;
        hw.stop_melody();
        let now_ms = ctx.time.secs * 1000 + ctx.time.ms as u64;
        match event.button {
            ButtonId::Alarm => self.alarm_button(event.kind, now_ms),
            ButtonId::Light => self.light_button(event.kind),
            _ => return false,
        }
        true
    }

    fn chord<H: Hardware>(&mut self, event: ChordEvent, _ctx: &FaceContext, hw: &mut H) -> (consumed: bool)
        ensures
            *final(hw) == *old(hw),
    {
        // Only the Alarm + Light combination does anything here (in either
        // press order): it cycles to the next preset duration.
        if !is_alarm_light(event) {
            return false;
        }
        self.next_preset();
        true
    }

    fn alarm_action(&self) -> (action: AlarmAction) {
        AlarmAction::H24Toggle
    }
}

/// A running countdown stops at zero, once: a background tick asks to show
/// the face exactly when the countdown runs and the time elapsed since the
/// last tick (none if the clock went back) uses up what was left; it then stands stopped at zero, ringing,
/// and no later background tick fires again until it is restarted.
pub proof fn lemma_countdown_fires_once(t: Timer, ctx: FaceContext, later: FaceContext)
    requires
        t.inv(),
        ctx.wf(),
    ensures
        ({
            let now = ctx.time.secs * 1000 + ctx.time.ms;
            let elapsed = if now >= t.spec_last_tick_ms() { now - t.spec_last_tick_ms() } else { 0 };
            t.after_background(ctx).1 <==> t.spec_running() && elapsed >= t.spec_remaining_ms()
        }),
        t.after_background(ctx).1 ==> {
            let t1 = t.after_background(ctx).0;
            &&& !t1.spec_running()
            &&& t1.spec_remaining_ms() == 0
            &&& t1.spec_ring_until() is Some
            &&& !t1.after_background(later).1
        },
{
}

/// Any button press silences a ringing countdown: the ring ends and its
/// melody is stopped.
pub proof fn lemma_button_silences(t: Timer, event: GestureEvent, ctx: FaceContext)
    requires
        t.inv(),
    ensures
        t.after_button(event, ctx).0.spec_ring_until() is None,
        t.button_effects(event, ctx) == seq![Effect::StopMelody],
{
}


/// A finished countdown rings for [`RING_SECS`] seconds: the background tick
/// that ends it sets the ring to end that long after its second; a tick
/// before the end keeps the ring and plays the ring melody (unless it already
/// played in that second), and a tick at or after the end ends the ring and
/// stops the melody.
pub proof fn lemma_ring_lasts(t: Timer, ctx: FaceContext, later: FaceContext)
    requires
        t.inv(),
        ctx.wf(),
        t.after_background(ctx).1,
    ensures
        ({
            let rung = t.after_background(ctx).0;
            let end = ctx.time.secs + RING_SECS;
            let s = later.time.secs;
            &&& rung.spec_ring_until() == Some(end as u64)
            &&& s < end ==> {
                &&& rung.after_tick(later).spec_ring_until() == rung.spec_ring_until()
                &&& rung.tick_effects(later) == if rung.spec_last_beep() == Some(s) {
                    Seq::<Effect>::empty()
                } else {
                    seq![Effect::Melody(ring_beep_notes())]
                }
            }
            &&& s >= end ==> {
                &&& rung.after_tick(later).spec_ring_until() is None
                &&& rung.tick_effects(later) == seq![Effect::StopMelody]
            }
        }),
{
}


/// The ring plays its melody once per second however many ticks fall in
/// that second: after a tick that keeps the ring going, another tick in the
/// same second requests nothing and keeps the ring.
pub proof fn lemma_melody_once_per_second(t: Timer, ctx: FaceContext, later: FaceContext)
    requires
        t.inv(),
        t.spec_ring_until() matches Some(until) && ctx.time.secs < until,
        later.time.secs == ctx.time.secs,
    ensures
        t.after_tick(ctx).spec_ring_until() == t.spec_ring_until(),
        t.after_tick(ctx).tick_effects(later) == Seq::<Effect>::empty(),
        t.after_tick(ctx).after_tick(later).spec_ring_until() == t.spec_ring_until(),
{
}


/// In the view mode an Alarm press pauses a running countdown, starts a
/// paused one with time left (from the press), and re-arms a finished one
/// (at zero) to its full duration, paused; the duration never changes.
pub proof fn lemma_alarm_press_starts_and_pauses(t: Timer, ctx: FaceContext)
    requires
        t.inv(),
        t.spec_mode() == TimerMode::View,
    ensures
        ({
            let (u, consumed) = t.after_button(GestureEvent { button: ButtonId::Alarm, kind: GestureKind::Press }, ctx);
            &&& consumed
            &&& u.spec_duration_ms() == t.spec_duration_ms()
            &&& t.spec_running() ==> !u.spec_running() && u.spec_remaining_ms() == t.spec_remaining_ms()
            &&& !t.spec_running() && t.spec_remaining_ms() > 0 ==> u.spec_running() && u.spec_remaining_ms()
                == t.spec_remaining_ms() && u.spec_last_tick_ms() == (ctx.time.secs * 1000 + ctx.time.ms) as u64
            &&& !t.spec_running() && t.spec_remaining_ms() == 0 ==> !u.spec_running() && u.spec_remaining_ms()
                == t.spec_duration_ms()
        }),
{
}


/// A background tick of a running countdown takes off exactly the
/// wall-clock time since the previous tick (none if the clock went back) and
/// records this tick's time as the last tick; the countdown keeps running
/// while time is left, and stops at zero, ringing, once it is used up. The
/// duration never changes.
pub proof fn lemma_countdown_counts_elapsed_time(t: Timer, ctx: FaceContext)
    requires
        t.inv(),
        ctx.wf(),
        t.spec_running(),
    ensures
        ({
            let now = ctx.time.secs * 1000 + ctx.time.ms;
            let elapsed = if now >= t.spec_last_tick_ms() { now - t.spec_last_tick_ms() } else { 0 };
            let (u, fired) = t.after_background(ctx);
            &&& u.spec_last_tick_ms() == now
            &&& u.spec_duration_ms() == t.spec_duration_ms()
            &&& elapsed < t.spec_remaining_ms() ==> {
                &&& !fired
                &&& u.spec_running()
                &&& u.spec_remaining_ms() == t.spec_remaining_ms() - elapsed
            }
            &&& elapsed >= t.spec_remaining_ms() ==> {
                &&& fired
                &&& !u.spec_running()
                &&& u.spec_remaining_ms() == 0
            }
        }),
{
}

/// The countdown after the background ticks at `ctxs`, in order.
pub open spec fn after_backgrounds(t: Timer, ctxs: Seq<FaceContext>) -> Timer
    decreases ctxs.len(),
{
    if ctxs.len() == 0 {
        t
    } else {
        after_backgrounds(t, ctxs.drop_last()).after_background(ctxs.last()).0
    }
}

/// Over any run of background ticks whose times go forward from the last
/// tick, a running countdown loses exactly the wall-clock time that passed
/// from its last tick to the latest one, as long as that leaves time on it:
/// it still runs, with the latest tick as its last tick.
pub proof fn lemma_countdown_loses_the_time_that_passed(t: Timer, ctxs: Seq<FaceContext>)
    requires
        t.inv(),
        t.spec_running(),
        ctxs.len() > 0,
        forall|k: int| 0 <= k < ctxs.len() ==> (#[trigger] ctxs[k]).wf(),
        forall|k: int|
            0 <= k < ctxs.len() ==> t.spec_last_tick_ms() <= (#[trigger] ctxs[k]).time.secs * 1000
                + ctxs[k].time.ms,
        forall|j: int, k: int|
            0 <= j < k < ctxs.len() ==> (#[trigger] ctxs[j]).time.secs * 1000 + ctxs[j].time.ms
                <= (#[trigger] ctxs[k]).time.secs * 1000 + ctxs[k].time.ms,
        ctxs.last().time.secs * 1000 + ctxs.last().time.ms - t.spec_last_tick_ms() < t.spec_remaining_ms(),
    ensures
        ({
            let u = after_backgrounds(t, ctxs);
            let latest = ctxs.last().time.secs * 1000 + ctxs.last().time.ms;
            &&& u.inv()
            &&& u.spec_running()
            &&& u.spec_last_tick_ms() == latest
            &&& u.spec_remaining_ms() == t.spec_remaining_ms() - (latest - t.spec_last_tick_ms())
            &&& u.spec_duration_ms() == t.spec_duration_ms()
        }),
    decreases ctxs.len(),
{
    let rest = ctxs.drop_last();
    if rest.len() == 0 {
        assert(after_backgrounds(t, rest) == t);
        lemma_countdown_counts_elapsed_time(t, ctxs.last());
    } else {
        assert forall|k: int| 0 <= k < rest.len() implies (#[trigger] rest[k]).wf() by {
            assert(rest[k] == ctxs[k]);
        }
        assert forall|k: int| 0 <= k < rest.len() implies t.spec_last_tick_ms() <= (#[trigger] rest[k]).time.secs
            * 1000 + rest[k].time.ms by {
            assert(rest[k] == ctxs[k]);
        }
        assert forall|j: int, k: int| 0 <= j < k < rest.len() implies (#[trigger] rest[j]).time.secs * 1000
            + rest[j].time.ms <= (#[trigger] rest[k]).time.secs * 1000 + rest[k].time.ms by {
            assert(rest[j] == ctxs[j] && rest[k] == ctxs[k]);
        }
        assert(rest.last() == ctxs[ctxs.len() - 2]);
        lemma_countdown_loses_the_time_that_passed(t, rest);
        let v = after_backgrounds(t, rest);
        lemma_countdown_counts_elapsed_time(v, ctxs.last());
    }
}

/// In the settings a press steps the edited field of the duration by one,
/// wrapping seconds and minutes at 60 and hours at 24, and keeps the two
/// other fields: from `h:m:s` the seconds field gives `h:m:(s+1)%60`, the
/// minutes `h:(m+1)%60:s`, the hours `(h+1)%24:m:s`.
pub proof fn lemma_settings_press_steps_one_field(t: Timer, ctx: FaceContext)
    requires
        t.inv(),
        t.spec_mode() is Edit,
    ensures
        ({
            let (h, m, s) = t.parts();
            let (u, consumed) = t.after_button(GestureEvent { button: ButtonId::Alarm, kind: GestureKind::Press }, ctx);
            &&& consumed
            &&& u.spec_mode() == t.spec_mode()
            &&& t.spec_mode() == TimerMode::Edit(TimerField::Sec) ==> u.spec_duration_ms() == parts_ms(h, m, (s + 1) % 60)
            &&& t.spec_mode() == TimerMode::Edit(TimerField::Min) ==> u.spec_duration_ms() == parts_ms(h, (m + 1) % 60, s)
            &&& t.spec_mode() == TimerMode::Edit(TimerField::Hour) ==> u.spec_duration_ms() == parts_ms((h + 1) % 24, m, s)
        }),
{
}

} // verus!
