//! Alarm face: one alarm per weekday (Sun..Sat).
//!
//! View mode shows `AL` in the weekday letters and the number of enabled
//! alarms in the day-of-month digits. In the view mode the Alarm button
//! toggles the hourly chime (the "signal", shown by the SIG indicator); the
//! Bell indicator just reflects whether any alarm is enabled. Pressing Light
//! enters the edit mode: the focused value blinks, Light moves to the next
//! field (day -> hour -> minute -> status), Alarm changes the value. Pressing
//! Light on the status field exits back to the view mode (a long press also
//! exits at any point). Entering the edit mode seeds an alarm that was never
//! configured (disabled at 00:00) with the current wall-clock time as the
//! base value; a configured alarm keeps its saved time. Pressing Alarm and
//! Light together re-seeds the selected day with the current time. The
//! status (AC) is shown as `ON` / `OF` in the seconds digits. While an alarm
//! rings the face shows the current time in full (with seconds) and blinks
//! the Bell indicator at 2 Hz.
use vstd::prelude::*;

use crate::display::{
    lemma_letter_owners, pair_blank, same_except, same_outside, shows_char, shows_chars, shows_letter_mask,
    shows_pair, shows_unpadded, DigitDisplay,
};
use crate::face::{is_alarm_light, AlarmAction, ButtonId, ChordEvent, Face, FaceContext, GestureEvent, GestureKind};
use crate::faces::simple_alarm::{blink, blink_on};
use crate::faces::simple_clock::{hour_12, WEEKDAYS};
use crate::font::{
    blank, cell, cell_exists, lemma_font_owners, lemma_indicator_owners, lit_by, mask_bit, shows_digit,
    shows_indicator, shows_mask, Indicator, FONT,
};
use crate::hardware::{ring_beep, ring_beep_notes, Effect, Hardware};
use crate::time::DateTime;

verus! {

/// Convert a 0..23 hour into 12-hour form (0 -> 12, 13..=23 -> 1..=11), for
/// the live clock shown in the view mode.
fn to_12h(hour: u8) -> (h: u8)
    ensures
        h == hour_12(hour as int),
{
    match hour {
        0 => 12,
        13..=23 => hour - 12,
        _ => hour,
    }
}

/// 7-segment mask of the letter O (A..F, same as 0), drawn in the seconds
/// digits.
pub const SEG_O: u8 = 0x3f;

/// 7-segment mask of a lowercase "n" (C E G): reads as "On". A capital N
/// cannot be drawn on a 7-segment display.
pub const SEG_N: u8 = 0x54;

/// 7-segment mask of the letter F (A E F G).
pub const SEG_F: u8 = 0x71;

/// How long a fired alarm keeps ringing (seconds), unless silenced by a
/// button press first.
pub const RING_SECS: u32 = 120;

/// A single alarm: a time of day plus an on/off switch.
#[derive(Clone, Copy, Debug, PartialEq, Eq, Structural)]
pub struct AlarmDay {
    pub enabled: bool,
    pub hour: u8,
    pub minute: u8,
}

impl Default for AlarmDay {
    fn default() -> (d: Self)
        ensures
            d == (AlarmDay { enabled: false, hour: 0, minute: 0 }),
    {
        AlarmDay { enabled: false, hour: 0, minute: 0 }
    }
}

/// Which value is being edited.
#[derive(Clone, Copy, PartialEq, Eq, Structural)]
pub enum AlarmField {
    Day,
    Hour,
    Minute,
    Status,
}

/// Display mode of the face.
#[derive(Clone, Copy, PartialEq, Eq, Structural)]
pub enum AlarmMode {
    View,
    Edit(AlarmField),
}

/// The alarm face.
#[derive(Clone, Copy, PartialEq, Eq)]
pub struct Alarm {
    /// One alarm per day, indexed by weekday (0 = Sunday).
    alarms: [AlarmDay; 7],
    mode: AlarmMode,
    /// Day currently shown / edited (0 = Sunday).
    day: usize,
    /// Last alarm that fired `(weekday, hour, minute)`, to fire only once.
    last_fired: Option<(u8, u8, u8)>,
    /// When the currently ringing alarm goes silent: `(weekday,
    /// seconds-of-day)` at which the ring ends; the ring also ends when the
    /// weekday changes. `None` when not ringing.
    ring_until: Option<(u8, u32)>,
    /// Seconds-of-day of the last ring beep, so the ring re-triggers the ring
    /// melody once per second instead of on every tick.
    last_beep: Option<u32>,
    /// Epoch ms of the last change of the edited value, to suppress blinking
    /// while the user is rapidly scrolling. `None` when unchanged.
    changed_at: Option<u64>,
}

/// The number of enabled alarms in `alarms`.
pub open spec fn enabled_count(alarms: Seq<AlarmDay>) -> int
    decreases alarms.len(),
{
    if alarms.len() == 0 {
        0
    } else {
        enabled_count(alarms.drop_last()) + if alarms.last().enabled { 1int } else { 0 }
    }
}

/// The field after `f`; the status is the last one.
pub open spec fn field_after(f: AlarmField) -> Option<AlarmField> {
    match f {
        AlarmField::Day => Some(AlarmField::Hour),
        AlarmField::Hour => Some(AlarmField::Minute),
        AlarmField::Minute => Some(AlarmField::Status),
        AlarmField::Status => None,
    }
}

impl Alarm {
    /// The seven alarms, Sunday first.
    pub closed spec fn spec_alarms(self) -> Seq<AlarmDay> {
        self.alarms@
    }

    /// The display mode.
    pub closed spec fn spec_mode(self) -> AlarmMode {
        self.mode
    }

    /// The day shown / edited.
    pub closed spec fn spec_day(self) -> int {
        self.day as int
    }

    /// `(weekday, second of day)` at which the ring ends, while it rings.
    pub closed spec fn spec_ring_until(self) -> Option<(u8, u32)> {
        self.ring_until
    }

    /// The second of the day of the last ring beep.
    pub closed spec fn spec_last_beep(self) -> Option<u32> {
        self.last_beep
    }

    /// When the edited value last changed.
    pub closed spec fn spec_last_fired(self) -> Option<(u8, u8, u8)> {
        self.last_fired
    }

    /// When the edited value last changed.
    pub closed spec fn spec_changed_at(self) -> Option<u64> {
        self.changed_at
    }

    /// A face as [`Alarm::new`] makes it.
    pub closed spec fn fresh() -> Self {
        let off = AlarmDay { enabled: false, hour: 0, minute: 0 };
        Alarm {
            alarms: [off, off, off, off, off, off, off],
            mode: AlarmMode::View,
            day: 0,
            last_fired: None,
            ring_until: None,
            last_beep: None,
            changed_at: None,
        }
    }

    pub fn new() -> (a: Self)
        ensures
            a == Self::fresh(),
            forall|i: int| 0 <= i < 7 ==> #[trigger] a.spec_alarms()[i] == (AlarmDay { enabled: false, hour: 0, minute: 0 }),
            a.spec_alarms().len() == 7,
            a.spec_mode() == AlarmMode::View,
            a.spec_day() == 0,
            a.spec_ring_until() == None::<(u8, u32)>,
            a.inv(),
    {
        let off = AlarmDay { enabled: false, hour: 0, minute: 0 };
        Alarm {
            alarms: [off, off, off, off, off, off, off],
            mode: AlarmMode::View,
            day: 0,
            last_fired: None,
            ring_until: None,
            last_beep: None,
            changed_at: None,
        }
    }

    pub fn alarms(&self) -> (a: &[AlarmDay; 7])
        ensures
            a@ == self.spec_alarms(),
    {
        &self.alarms
    }

    fn active_count(&self) -> (n: usize)
        ensures
            n == enabled_count(self.spec_alarms()),
            n <= 7,
    {
        let mut n: usize = 0;
        let mut i: usize = 0;
        while i < 7
            invariant
                i <= 7,
                n <= i,
                n == enabled_count(self.alarms@.take(i as int)),
            decreases 7 - i,
        {
            proof {
                assert(self.alarms@.take(i as int + 1).drop_last() =~= self.alarms@.take(i as int));
            }
            if self.alarms[i].enabled {
                n += 1;
            }
            i += 1;
        }
        proof {
            assert(self.alarms@.take(7) =~= self.alarms@);
        }
        n
    }

    /// The face with the selected day's alarm set to the current time, if
    /// it was never configured (off at 00:00).
    pub closed spec fn primed(self, t: DateTime) -> Self {
        let a = self.alarms[self.day as int];
        if !a.enabled && a.hour == 0 && a.minute == 0 {
            Alarm { alarms: vstd::array::spec_array_update(self.alarms, self.day as int, AlarmDay { hour: t.hour, minute: t.minute, ..a }), ..self }
        } else {
            self
        }
    }

    /// Seed the selected day's alarm with the current wall-clock time as the
    /// base value for editing, but only if the alarm was never configured.
    /// Seconds are dropped: the alarm fires at the top of the minute.
    fn prime_from_now(&mut self, t: &DateTime)
        requires
            old(self).inv(),
            t.wf(),
        ensures
            *final(self) == old(self).primed(*t),
            final(self).inv(),
    {
        let a = self.alarms[self.day];
        if !a.enabled && a.hour == 0 && a.minute == 0 {
            self.alarms[self.day] = AlarmDay { hour: t.hour, minute: t.minute, ..a };
        }
    }

    /// The face with the selected day's alarm set to the current time.
    pub closed spec fn seeded(self, t: DateTime) -> Self {
        let a = self.alarms[self.day as int];
        Alarm { alarms: vstd::array::spec_array_update(self.alarms, self.day as int, AlarmDay { hour: t.hour, minute: t.minute, ..a }), ..self }
    }

    /// Unconditionally set the selected day's alarm to the current wall-clock
    /// time (the Alarm + Light chord). Seconds are dropped.
    fn seed_now(&mut self, t: &DateTime)
        requires
            old(self).inv(),
            t.wf(),
        ensures
            *final(self) == old(self).seeded(*t),
            final(self).inv(),
    {
        let a = self.alarms[self.day];
        self.alarms[self.day] = AlarmDay { hour: t.hour, minute: t.minute, ..a };
    }

    fn next_field(f: AlarmField) -> (n: Option<AlarmField>)
        ensures
            n == field_after(f),
    {
        match f {
            AlarmField::Day => Some(AlarmField::Hour),
            AlarmField::Hour => Some(AlarmField::Minute),
            AlarmField::Minute => Some(AlarmField::Status),
            // The status ("switcher") is the last field: the next Light press
            // exits the edit mode instead of wrapping around.
            AlarmField::Status => None,
        }
    }

    /// The face with the focused value advanced by `steps`: the day wraps at
    /// 7, hours at 24, minutes at 60; the status toggles.
    pub closed spec fn stepped(self, steps: u8) -> Self {
        let a = self.alarms[self.day as int];
        let set = |d: AlarmDay| Alarm { alarms: vstd::array::spec_array_update(self.alarms, self.day as int, d), ..self };
        match self.mode {
            AlarmMode::Edit(AlarmField::Day) => Alarm { day: ((self.day + steps) % 7) as usize, ..self },
            AlarmMode::Edit(AlarmField::Hour) => set(AlarmDay { hour: ((a.hour + steps) % 24) as u8, ..a }),
            AlarmMode::Edit(AlarmField::Minute) => set(AlarmDay { minute: ((a.minute + steps) % 60) as u8, ..a }),
            AlarmMode::Edit(AlarmField::Status) => set(AlarmDay { enabled: !a.enabled, ..a }),
            AlarmMode::View => self,
        }
    }

    /// The face with the focused value reset: day Sunday, 00 hours or
    /// minutes, status off.
    pub closed spec fn zeroed(self) -> Self {
        let a = self.alarms[self.day as int];
        let set = |d: AlarmDay| Alarm { alarms: vstd::array::spec_array_update(self.alarms, self.day as int, d), ..self };
        match self.mode {
            AlarmMode::Edit(AlarmField::Day) => Alarm { day: 0, ..self },
            AlarmMode::Edit(AlarmField::Hour) => set(AlarmDay { hour: 0, ..a }),
            AlarmMode::Edit(AlarmField::Minute) => set(AlarmDay { minute: 0, ..a }),
            AlarmMode::Edit(AlarmField::Status) => set(AlarmDay { enabled: false, ..a }),
            AlarmMode::View => self,
        }
    }

    fn step(&mut self, steps: u8)
        requires
            old(self).inv(),
            steps <= 4,
        ensures
            *final(self) == old(self).stepped(steps),
            final(self).inv(),
    {
        let mut a = self.alarms[self.day];
        match self.mode {
            AlarmMode::Edit(AlarmField::Day) => {
                self.day = (self.day + steps as usize) % 7;
                return;
            },
            AlarmMode::Edit(AlarmField::Hour) => a.hour = (a.hour + steps) % 24,
            AlarmMode::Edit(AlarmField::Minute) => a.minute = (a.minute + steps) % 60,
            AlarmMode::Edit(AlarmField::Status) => a.enabled = !a.enabled,
            AlarmMode::View => return,
        }
        self.alarms[self.day] = a;
    }

    /// Reset the focused value to zero (holding the Alarm button). The
    /// status field is binary, so "zero" means off.
    fn reset(&mut self)
        requires
            old(self).inv(),
        ensures
            *final(self) == old(self).zeroed(),
            final(self).inv(),
    {
        let mut a = self.alarms[self.day];
        match self.mode {
            AlarmMode::Edit(AlarmField::Day) => {
                self.day = 0;
                return;
            },
            AlarmMode::Edit(AlarmField::Hour) => a.hour = 0,
            AlarmMode::Edit(AlarmField::Minute) => a.minute = 0,
            AlarmMode::Edit(AlarmField::Status) => a.enabled = false,
            AlarmMode::View => return,
        }
        self.alarms[self.day] = a;
    }
}


impl Alarm {
    /// Draw the ON / OF status into the seconds digits using 7-segment masks.
    fn draw_status<H: Hardware>(&self, hw: &mut H, visible: bool)
        requires
            self.inv(),
        ensures
            shows_mask(final(hw).segments(), 8, if visible { SEG_O } else { 0 }),
            shows_mask(
                final(hw).segments(),
                9,
                if !visible { 0 } else if self.alarms[self.day as int].enabled { SEG_N } else { SEG_F },
            ),
            same_except(old(hw).segments(), final(hw).segments(), set![8int, 9]),
            final(hw).effects() == old(hw).effects(),
    {
        let a = &self.alarms[self.day];
        let (hi, lo) = if a.enabled { (SEG_O, SEG_N) } else { (SEG_O, SEG_F) };
        self.seg_pos(hw, 8, if visible { hi } else { 0 });
        self.seg_pos(hw, 9, if visible { lo } else { 0 });
    }

    /// Light the segments of digit position `position` (8 or 9, whose
    /// segments all have wires of their own) after the 7-segment `mask`.
    fn seg_pos<H: Hardware>(&self, hw: &mut H, position: usize, mask: u8)
        requires
            position == 8 || position == 9,
        ensures
            shows_mask(final(hw).segments(), position as int, mask),
            same_outside(old(hw).segments(), final(hw).segments(), position as int),
            final(hw).effects() == old(hw).effects(),
    {
        proof {
            lemma_font_owners();
        }
        let mut i: usize = 0;
        while i < 7
            invariant
                position == 8 || position == 9,
                i <= 7,
                same_outside(old(hw).segments(), hw.segments(), position as int),
                forall|j: int|
                    0 <= j < i ==> (hw.segments().contains(#[trigger] cell(position as int, j)) <==> mask_bit(mask, j)),
                hw.effects() == old(hw).effects(),
            decreases 7 - i,
        {
            let com = FONT[position][i][0];
            let seg = FONT[position][i][1];
            if com < 0 || seg < 0 {
                i += 1;
                continue;
            }
            hw.set_segment(com as u8, seg as u8, mask & (1u8 << (i as u8)) != 0);
            i += 1;
        }
    }

    fn draw_pair<H: Hardware>(&self, hw: &mut H, position: u8, value: u8, visible: bool)
        requires
            position == 4 || position == 6 || position == 8,
            value < 100,
        ensures
            visible ==> shows_pair(final(hw).segments(), position as int, value as int),
            !visible ==> pair_blank(final(hw).segments(), position as int),
            same_except(old(hw).segments(), final(hw).segments(), set![position as int, position + 1]),
            final(hw).effects() == old(hw).effects(),
    {
        proof {
            lemma_font_owners();
        }
        if visible {
            hw.set_digit(position, value / 10);
            hw.set_digit(position + 1, value % 10);
        } else {
            hw.clear_digit(position);
            hw.clear_digit(position + 1);
        }
    }

    /// What the view mode shows: `AL`, the number of enabled alarms in the
    /// day-of-month ones digit (the tens digit blank), the current time
    /// (hour without a leading zero in the chosen format), the seconds only
    /// while ringing; the Bell blinking at 2 Hz while ringing, otherwise lit
    /// when an alarm is enabled; 24H / PM / SIG as on the clock.
    pub open spec fn view_screen(self, lit: Set<(u8, u8)>, ctx: FaceContext) -> bool {
        let t = ctx.time;
        let n = enabled_count(self.spec_alarms());
        let ringing = self.spec_ring_until() is Some;
        let hour = if ctx.h24 { t.hour as int } else { hour_12(t.hour as int) };
        &&& shows_chars(lit, ['A' as u8, 'L' as u8])
        &&& blank(lit, 2)
        &&& shows_digit(lit, 3, n % 10)
        &&& shows_unpadded(lit, 4, hour)
        &&& shows_pair(lit, 6, t.minute as int)
        &&& (if ringing { shows_pair(lit, 8, t.second as int) } else { pair_blank(lit, 8) })
        &&& shows_indicator(lit, Indicator::Bell, if ringing { (t.ms / 500) % 2 == 0 } else { n > 0 })
        &&& shows_indicator(lit, Indicator::H24, ctx.h24)
        &&& shows_indicator(lit, Indicator::Pm, !ctx.h24 && t.hour >= 12)
        &&& shows_indicator(lit, Indicator::Signal, ctx.chime)
    }

    /// What the edit mode shows: the edited day's letters (blinking) or the
    /// field label `HO` / `MI` / `AC`; the day's alarm time with the edited
    /// pair blinking (see [`blink_on`]); `ON` / `OF` in the seconds digits
    /// (blinking on the status field); the Bell when the day's alarm is on
    /// and no 24H / PM / SIG.
    pub open spec fn edit_screen(self, lit: Set<(u8, u8)>, t: DateTime) -> bool {
        let b = blink_on(self.spec_changed_at(), t);
        let a = self.spec_alarms()[self.spec_day()];
        match self.spec_mode() {
            AlarmMode::Edit(field) => {
                &&& (if field == AlarmField::Day {
                    if b {
                        shows_chars(lit, WEEKDAYS[self.spec_day()])
                    } else {
                        shows_letter_mask(lit, 0, 0) && shows_letter_mask(lit, 1, 0)
                    }
                } else {
                    shows_chars(
                        lit,
                        match field {
                            AlarmField::Hour => ['H' as u8, 'O' as u8],
                            AlarmField::Minute => ['M' as u8, 'I' as u8],
                            _ => ['A' as u8, 'C' as u8],
                        },
                    )
                })
                &&& (if field != AlarmField::Hour || b { shows_pair(lit, 4, a.hour as int) } else { pair_blank(lit, 4) })
                &&& (if field != AlarmField::Minute || b { shows_pair(lit, 6, a.minute as int) } else { pair_blank(lit, 6) })
                &&& (if field != AlarmField::Status || b {
                    shows_mask(lit, 8, SEG_O) && shows_mask(lit, 9, if a.enabled { SEG_N } else { SEG_F })
                } else {
                    shows_mask(lit, 8, 0) && shows_mask(lit, 9, 0)
                })
                &&& shows_indicator(lit, Indicator::Bell, a.enabled)
                &&& shows_indicator(lit, Indicator::H24, false)
                &&& shows_indicator(lit, Indicator::Pm, false)
                &&& shows_indicator(lit, Indicator::Signal, false)
            },
            AlarmMode::View => true,
        }
    }

    #[verifier::rlimit(80)]
    #[verifier::spinoff_prover]
    fn draw_view<H: Hardware>(&self, ctx: &FaceContext, hw: &mut H)
        requires
            self.inv(),
            ctx.wf(),
        ensures
            self.view_screen(final(hw).segments(), *ctx),
            same_except(old(hw).segments(), final(hw).segments(), set![0int, 1, 2, 3, 4, 5, 6, 7, 8, 9, 20, 21, 22, 23]),
            final(hw).effects() == old(hw).effects(),
    {
        proof {
            lemma_font_owners();
            lemma_letter_owners();
            lemma_indicator_owners();
        }
        hw.set_char(0, 'A' as u8);
        hw.set_char(1, 'L' as u8);
        // Number of enabled alarms in the day-of-month digits. The tens digit
        // is always 0 (max 7 alarms) and the F-91W glass cannot render a
        // proper `0` there (segments A/D/G share one wire), so it is left
        // blank like a leading-zero day.
        let n = self.active_count();
        hw.set_digit(3, (n % 10) as u8);
        hw.clear_digit(2);
        // Live clock in the time digits (like SimpleClock), so the face is
        // readable right after an alarm auto-switched it on. While the alarm
        // rings the seconds are shown in full.
        let t = ctx.time;
        let ringing = self.ring_until.is_some();
        let hour = if ctx.h24 { t.hour } else { to_12h(t.hour) };
        if hour >= 10 {
            hw.set_digit(4, hour / 10);
        } else {
            hw.clear_digit(4);
        }
        hw.set_digit(5, hour % 10);
        hw.set_digit(6, t.minute / 10);
        hw.set_digit(7, t.minute % 10);
        if ringing {
            hw.set_digit(8, t.second / 10);
            hw.set_digit(9, t.second % 10);
        } else {
            // Seconds are hidden: an alarm face shows a time, not a ticking
            // clock.
            hw.clear_digit(8);
            hw.clear_digit(9);
        }
        // The Bell indicator blinks at 2 Hz while the alarm rings, to draw
        // the eye; otherwise it just reflects the enabled state.
        let bell = if ringing { (t.ms / 500) % 2 == 0 } else { n > 0 };
        hw.set_indicator(Indicator::Bell, bell);
        hw.set_indicator(Indicator::H24, ctx.h24);
        hw.set_indicator(Indicator::Pm, !ctx.h24 && t.hour >= 12);
        hw.set_indicator(Indicator::Signal, ctx.chime);
    }

    #[verifier::rlimit(40)]
    fn draw_edit<H: Hardware>(&self, t: &DateTime, hw: &mut H)
        requires
            self.inv(),
            t.wf(),
        ensures
            self.edit_screen(final(hw).segments(), *t),
            same_except(old(hw).segments(), final(hw).segments(), set![0int, 1, 4, 5, 6, 7, 8, 9, 20, 21, 22, 23]),
            final(hw).effects() == old(hw).effects(),
    {
        proof {
            lemma_font_owners();
            lemma_letter_owners();
            lemma_indicator_owners();
        }
        // While the user is rapidly stepping through values (hold auto-repeat
        // or a double press) the focused value is shown steadily instead of
        // blinking; blinking resumes shortly after the last change.
        let blink = blink(self.changed_at, t);
        let field = match self.mode {
            AlarmMode::Edit(f) => f,
            AlarmMode::View => return,
        };
        // Weekday letters: the focused day (blinking), or the field label.
        match field {
            AlarmField::Day => {
                if blink {
                    hw.set_char(0, WEEKDAYS[self.day][0]);
                    hw.set_char(1, WEEKDAYS[self.day][1]);
                } else {
                    hw.clear_char(0);
                    hw.clear_char(1);
                }
            },
            AlarmField::Hour => {
                hw.set_char(0, 'H' as u8);
                hw.set_char(1, 'O' as u8);
            },
            AlarmField::Minute => {
                hw.set_char(0, 'M' as u8);
                hw.set_char(1, 'I' as u8);
            },
            AlarmField::Status => {
                hw.set_char(0, 'A' as u8);
                hw.set_char(1, 'C' as u8);
            },
        }
        let a = self.alarms[self.day];
        self.draw_pair(hw, 4, a.hour, field != AlarmField::Hour || blink);
        self.draw_pair(hw, 6, a.minute, field != AlarmField::Minute || blink);
        self.draw_status(hw, field != AlarmField::Status || blink);
        hw.set_indicator(Indicator::Bell, a.enabled);
        hw.set_indicator(Indicator::H24, false);
        hw.set_indicator(Indicator::Pm, false);
        hw.set_indicator(Indicator::Signal, false);
    }

    /// The face after an Alarm gesture in the edit mode (see
    /// [`Face::after_button`]).
    pub closed spec fn after_alarm_edit(self, kind: GestureKind, t: DateTime) -> Self {
        let at = Some((t.secs * 1000 + t.ms) as u64);
        let s = match kind {
            GestureKind::Press => Alarm { changed_at: at, ..self.stepped(1) },
            GestureKind::Hold => Alarm { changed_at: at, ..self.zeroed() },
            GestureKind::Double => if self.mode != AlarmMode::Edit(AlarmField::Status) {
                Alarm { changed_at: at, ..self.stepped(4) }
            } else {
                self
            },
        };
        if s.mode == AlarmMode::Edit(AlarmField::Day) {
            s.primed(t)
        } else {
            s
        }
    }

    fn alarm_edit(&mut self, kind: GestureKind, t: &DateTime)
        requires
            old(self).inv(),
            t.wf(),
        ensures
            *final(self) == old(self).after_alarm_edit(kind, *t),
            final(self).inv(),
    {
        let at = t.secs * 1000 + t.ms as u64;
        match kind {
            // A plain press adds one unit.
            GestureKind::Press => {
                self.step(1);
                self.changed_at = Some(at);
            },
            // Holding the button resets the value to zero.
            GestureKind::Hold => {
                self.reset();
                self.changed_at = Some(at);
            },
            // A double press adds five units in total: the first press of the
            // pair already added one, so the second adds four more. The status
            // field is binary, so the second press is ignored there (the first
            // already toggled it).
            GestureKind::Double => {
                if self.mode != AlarmMode::Edit(AlarmField::Status) {
                    self.step(4);
                    self.changed_at = Some(at);
                }
            },
        }
        // When scrolling through days, prime a never-configured day's alarm
        // with the current time.
        if self.mode == AlarmMode::Edit(AlarmField::Day) {
            self.prime_from_now(t);
        }
    }

    /// The face after a Light gesture (see [`Face::after_button`]).
    pub closed spec fn after_light(self, kind: GestureKind, t: DateTime) -> Self {
        match self.mode {
            AlarmMode::View => if kind == GestureKind::Press {
                Alarm { mode: AlarmMode::Edit(AlarmField::Day), ..self }.primed(t)
            } else {
                self
            },
            AlarmMode::Edit(field) => match kind {
                GestureKind::Press => Alarm {
                    mode: match field_after(field) {
                        Some(f) => AlarmMode::Edit(f),
                        None => AlarmMode::View,
                    },
                    ..self
                },
                GestureKind::Hold => Alarm { mode: AlarmMode::View, ..self },
                GestureKind::Double => self,
            },
        }
    }

    fn light(&mut self, kind: GestureKind, t: &DateTime)
        requires
            old(self).inv(),
            t.wf(),
        ensures
            *final(self) == old(self).after_light(kind, *t),
            final(self).inv(),
    {
        match self.mode {
            // A press enters the edit mode (no hold needed).
            AlarmMode::View => {
                if kind == GestureKind::Press {
                    self.mode = AlarmMode::Edit(AlarmField::Day);
                    self.prime_from_now(t);
                }
            },
            AlarmMode::Edit(field) => {
                match kind {
                    // A press moves to the next field; on the last one
                    // (status) it exits the edit mode.
                    GestureKind::Press => {
                        self.mode = match Self::next_field(field) {
                            Some(f) => AlarmMode::Edit(f),
                            None => AlarmMode::View,
                        };
                    },
                    // A hold exits the edit mode.
                    GestureKind::Hold => self.mode = AlarmMode::View,
                    _ => {},
                }
            },
        }
    }
}

impl Face for Alarm {
    /// Every alarm time is a real time of day and the edited day exists.
    closed spec fn inv(&self) -> bool {
        &&& self.day < 7
        &&& forall|i: int| 0 <= i < 7 ==> (#[trigger] self.alarms[i]).hour < 24 && self.alarms[i].minute < 60
    }

    /// Entering the face starts in the view mode and silences the ring.
    closed spec fn after_init(&self, ctx: FaceContext) -> Self {
        Alarm { mode: AlarmMode::View, ring_until: None, last_beep: None, ..*self }
    }

    /// While the ring of a weekday lasts (that weekday, before its end
    /// second) the ring melody is re-triggered once per second; otherwise the
    /// ring ends.
    closed spec fn after_tick(&self, ctx: FaceContext) -> Self {
        let t = ctx.time;
        let secs = t.seconds_of_day();
        match self.ring_until {
            Some((wd, until)) => if t.weekday.spec_index() == wd && secs < until {
                Alarm { last_beep: Some(secs as u32), ..*self }
            } else {
                Alarm { ring_until: None, last_beep: None, ..*self }
            },
            None => *self,
        }
    }

    /// At the top of the minute (second 0) of an enabled alarm of today's
    /// weekday, the alarm fires once: the face switches to the view mode,
    /// rings for [`RING_SECS`] and asks to be shown. Otherwise the
    /// once-per-minute memory is cleared.
    closed spec fn after_background(&self, ctx: FaceContext) -> (Self, bool) {
        let t = ctx.time;
        let day = t.weekday.spec_index();
        let a = self.alarms[day];
        let fired = (day as u8, t.hour, t.minute);
        if a.enabled && a.hour == t.hour && a.minute == t.minute && t.second == 0 {
            if self.last_fired != Some(fired) {
                (
                    Alarm {
                        last_fired: Some(fired),
                        mode: AlarmMode::View,
                        ring_until: Some((day as u8, (t.seconds_of_day() + RING_SECS) as u32)),
                        ..*self
                    },
                    true,
                )
            } else {
                (*self, false)
            }
        } else {
            (Alarm { last_fired: None, ..*self }, false)
        }
    }

    /// Any button silences the ring. Alarm: in the edit mode a press adds
    /// one, a double adds four more (nothing more on the status), a hold
    /// resets; scrolling the days seeds a never-configured day with the
    /// current time; consumed. In the view mode it is not consumed (the
    /// runtime toggles the chime). Light: in the view mode a press enters the
    /// edit mode at the day (seeding a never-configured alarm); in the edit
    /// mode a press moves on (the status leaves it), a hold leaves it;
    /// consumed.
    closed spec fn after_button(&self, event: GestureEvent, ctx: FaceContext) -> (Self, bool) {
        let s = Alarm { ring_until: None, last_beep: None, ..*self };
        match event.button {
            ButtonId::Alarm => if s.mode != AlarmMode::View {
                (s.after_alarm_edit(event.kind, ctx.time), true)
            } else {
                (s, false)
            },
            ButtonId::Light => (s.after_light(event.kind, ctx.time), true),
            ButtonId::Mode => (s, false),
        }
    }

    /// Alarm + Light, in the edit mode, sets the edited day's alarm to the
    /// current time.
    closed spec fn after_chord(&self, event: ChordEvent, ctx: FaceContext) -> (Self, bool) {
        if event.is_alarm_light() && self.mode != AlarmMode::View {
            (
                Alarm { changed_at: Some((ctx.time.secs * 1000 + ctx.time.ms) as u64), ..self.seeded(ctx.time) },
                true,
            )
        } else {
            (*self, false)
        }
    }

    /// The Alarm button toggles the hourly chime on this face.
    closed spec fn action(&self) -> AlarmAction {
        AlarmAction::ChimeToggle
    }

    /// Entering the face leaves the glass as it is.
    closed spec fn init_glass(&self, ctx: FaceContext, before: Set<(u8, u8)>) -> Set<(u8, u8)> {
        before
    }

    /// A tick draws the view (in the view mode) or the settings of the face
    /// after the tick, and changes nothing outside the face's elements.
    closed spec fn tick_draws(&self, ctx: FaceContext, before: Set<(u8, u8)>, after: Set<(u8, u8)>) -> bool {
        let s = self.after_tick(ctx);
        &&& s.mode == AlarmMode::View ==> s.view_screen(after, ctx)
        &&& s.edit_screen(after, ctx.time)
        &&& same_except(before, after, set![0int, 1, 2, 3, 4, 5, 6, 7, 8, 9, 20, 21, 22, 23])
    }

    /// Entering the face stops the ring melody.
    closed spec fn init_effects(&self, ctx: FaceContext) -> Seq<Effect> {
        seq![Effect::StopMelody]
    }

    /// The ring melody once per second while the ring lasts; the melody
    /// stops when the ring ends.
    closed spec fn tick_effects(&self, ctx: FaceContext) -> Seq<Effect> {
        match self.ring_until {
            Some((wd, until)) => if ctx.time.weekday.spec_index() == wd && ctx.time.seconds_of_day() < until {
                if self.last_beep != Some(ctx.time.seconds_of_day() as u32) {
                    seq![Effect::Melody(ring_beep_notes())]
                } else {
                    Seq::empty()
                }
            } else {
                seq![Effect::StopMelody]
            },
            None => Seq::empty(),
        }
    }

    /// Any button stops the ring melody.
    closed spec fn button_effects(&self, event: GestureEvent, ctx: FaceContext) -> Seq<Effect> {
        seq![Effect::StopMelody]
    }

    /// A chord requests nothing.
    closed spec fn chord_effects(&self, event: ChordEvent, ctx: FaceContext) -> Seq<Effect> {
        Seq::empty()
    }

    /// Stops the ring melody.
    fn init<H: Hardware>(&mut self, _ctx: &FaceContext, hw: &mut H)
        ensures
            final(hw).segments() == old(hw).segments(),
            final(hw).effects() == old(hw).effects().push(Effect::StopMelody),
    {
        // Entering the face always starts in the view mode: a Mode exit from
        // the middle of an edit session must not resume the edit later. The
        // ring is also silenced: an auto-switch (when the alarm fires) does
        // NOT call init, so the ring survives that path.
        self.mode = AlarmMode::View;
        self.ring_until = None;
        self.last_beep = None;
        hw.stop_melody();
        assert(hw.effects().subrange(0, old(hw).effects().len() as int) =~= old(hw).effects());
    }

    /// Plays the ring melody once per second while the ring lasts, stops it
    /// when the ring ends, and draws the view or the edit mode.
    fn tick<H: Hardware>(&mut self, ctx: &FaceContext, hw: &mut H)
        ensures
            final(hw).effects() == old(hw).effects() + (match old(self).spec_ring_until() {
                Some((wd, until)) => if ctx.time.weekday.spec_index() == wd && ctx.time.seconds_of_day() < until {
                    if old(self).spec_last_beep() != Some(ctx.time.seconds_of_day() as u32) {
                        seq![Effect::Melody(ring_beep_notes())]
                    } else {
                        Seq::empty()
                    }
                } else {
                    seq![Effect::StopMelody]
                },
                None => Seq::empty(),
            }),
            final(self).spec_mode() == AlarmMode::View ==> final(self).view_screen(final(hw).segments(), *ctx),
            final(self).edit_screen(final(hw).segments(), ctx.time),
            same_except(old(hw).segments(), final(hw).segments(), set![0int, 1, 2, 3, 4, 5, 6, 7, 8, 9, 20, 21, 22, 23]),
    {
        // Ring while inside the window; go silent once we pass it. Only the
        // active face ticks, so a ring dies the moment the user switches
        // faces with Mode. The ring melody re-triggers once per second (not
        // on every tick).
        let t = ctx.time;
        let secs = t.hour as u32 * 3600 + t.minute as u32 * 60 + t.second as u32;
        match self.ring_until {
            Some((wd, until)) => {
                if t.weekday.index() == wd && secs < until {
                    let beeped = match self.last_beep {
                        Some(b) => b == secs,
                        None => false,
                    };
                    if !beeped {
                        self.last_beep = Some(secs);
                        let notes = ring_beep();
                        hw.melody(&notes);
                    }
                } else {
                    self.ring_until = None;
                    self.last_beep = None;
                    hw.stop_melody();
                }
            },
            None => {},
        }
        let ghost e = hw.effects();
        match self.mode {
            AlarmMode::View => self.draw_view(ctx, hw),
            AlarmMode::Edit(_) => self.draw_edit(&t, hw),
        }
        proof {
            assert(hw.effects() =~= e);
            assert(hw.effects().subrange(0, old(hw).effects().len() as int) =~= old(hw).effects());
            assert(old(hw).effects() + Seq::<Effect>::empty() =~= old(hw).effects());
            assert(old(hw).effects() + seq![Effect::StopMelody] =~= old(hw).effects().push(Effect::StopMelody));
            assert(old(hw).effects() + seq![Effect::Melody(ring_beep_notes())] =~= old(hw).effects().push(Effect::Melody(ring_beep_notes())));
        }
    }

    fn background_tick<H: Hardware>(&mut self, ctx: &FaceContext, _hw: &mut H) -> (activate: bool) {
        let t = ctx.time;
        let day = t.weekday.index();
        let a = self.alarms[day as usize];
        // `t.second == 0` pins the ring to the top of the minute: the alarm
        // starts exactly at HH:MM:00, never in the middle of a minute.
        if a.enabled && a.hour == t.hour && a.minute == t.minute && t.second == 0 {
            let fired = match self.last_fired {
                Some((d, h, m)) => d == day && h == t.hour && m == t.minute,
                None => false,
            };
            if !fired {
                self.last_fired = Some((day, t.hour, t.minute));
                // Snap to view mode: an alarm firing interrupts whatever the
                // face was doing (even its own edit session).
                self.mode = AlarmMode::View;
                let secs = t.hour as u32 * 3600 + t.minute as u32 * 60 + t.second as u32;
                self.ring_until = Some((day, secs + RING_SECS));
                return true;
            }
        } else {
            self.last_fired = None;
        }
        false
    }

    /// Stops the ring melody.
    fn button<H: Hardware>(&mut self, event: GestureEvent, ctx: &FaceContext, hw: &mut H) -> (consumed: bool)
        ensures
            final(hw).segments() == old(hw).segments(),
            final(hw).effects() == old(hw).effects().push(Effect::StopMelody),
    {
        // Any button press silences the ring (the stock Casio behaviour).
        self.ring_until = None;
        self.last_beep = None;
        hw.stop_melody();
        assert(hw.effects().subrange(0, old(hw).effects().len() as int) =~= old(hw).effects());
        match event.button {
            ButtonId::Alarm => {
                // In the edit mode everything is consumed here: the Alarm
                // button never toggles the 12/24h format (nor the chime).
                if self.mode != AlarmMode::View {
                    self.alarm_edit(event.kind, &ctx.time);
                    true
                } else {
                    // In the view mode the press is not consumed, so the
                    // runtime toggles the hourly chime instead.
                    false
                }
            },
            ButtonId::Light => {
                self.light(event.kind, &ctx.time);
                true
            },
            _ => false,
        }
    }

    fn chord<H: Hardware>(&mut self, event: ChordEvent, ctx: &FaceContext, hw: &mut H) -> (consumed: bool)
        ensures
            *final(hw) == *old(hw),
    {
        // Only the Alarm + Light combination does anything here (in either
        // press order): it re-seeds the selected day with the current time.
        if !is_alarm_light(event) {
            return false;
        }
        if self.mode != AlarmMode::View {
            self.seed_now(&ctx.time);
            self.changed_at = Some(ctx.time.secs * 1000 + ctx.time.ms as u64);
            true
        } else {
            false
        }
    }

    fn alarm_action(&self) -> (action: AlarmAction) {
        AlarmAction::ChimeToggle
    }
}

/// Each weekday's alarm rings at its time, once: a background tick asks to
/// show the face exactly when the alarm of the clock's weekday is on, the
/// clock reads its hour and minute at second 0 and it has not fired in that
/// minute yet; once it fired, no other tick in the same minute of the same
/// weekday fires it again.
pub proof fn lemma_fires_once_at_its_time(a: Alarm, ctx: FaceContext, later: FaceContext)
    requires
        a.inv(),
        ctx.wf(),
    ensures
        ({
            let t = ctx.time;
            let day = a.spec_alarms()[t.weekday.spec_index()];
            a.after_background(ctx).1 <==> {
                &&& day.enabled
                &&& day.hour == t.hour
                &&& day.minute == t.minute
                &&& t.second == 0
                &&& a.spec_last_fired() != Some((t.weekday.spec_index() as u8, t.hour, t.minute))
            }
        }),
        a.after_background(ctx).1 ==> a.after_background(ctx).0.spec_ring_until() is Some,
        a.after_background(ctx).1 && later.time.weekday == ctx.time.weekday && later.time.hour == ctx.time.hour
            && later.time.minute == ctx.time.minute ==> !a.after_background(ctx).0.after_background(later).1,
{
}

/// Any button press silences a ringing alarm: the ring ends and its melody
/// is stopped.
pub proof fn lemma_button_silences(a: Alarm, event: GestureEvent, ctx: FaceContext)
    requires
        a.inv(),
    ensures
        a.after_button(event, ctx).0.spec_ring_until() is None,
        a.button_effects(event, ctx) == seq![Effect::StopMelody],
{
}

/// A fired alarm rings for up to [`RING_SECS`] seconds of its weekday: the
/// background tick that fires it sets the ring to end that long after the
/// top of the minute; a tick on that weekday before the end keeps the ring
/// and plays the ring melody (unless it already played in that second), and
/// any other tick (a later second, or the next weekday after midnight) ends
/// the ring and stops the melody.
pub proof fn lemma_ring_lasts(a: Alarm, ctx: FaceContext, later: FaceContext)
    requires
        a.inv(),
        ctx.wf(),
        a.after_background(ctx).1,
    ensures
        ({
            let rung = a.after_background(ctx).0;
            let wd = ctx.time.weekday.spec_index();
            let end = ctx.time.seconds_of_day() + RING_SECS;
            let s = later.time.seconds_of_day();
            let rings = later.time.weekday.spec_index() == wd && s < end;
            &&& rung.spec_ring_until() == Some((wd as u8, end as u32))
            &&& rings ==> {
                &&& rung.after_tick(later).spec_ring_until() == rung.spec_ring_until()
                &&& rung.tick_effects(later) == if rung.spec_last_beep() == Some(s as u32) {
                    Seq::<Effect>::empty()
                } else {
                    seq![Effect::Melody(ring_beep_notes())]
                }
            }
            &&& !rings ==> {
                &&& rung.after_tick(later).spec_ring_until() is None
                &&& rung.tick_effects(later) == seq![Effect::StopMelody]
            }
        }),
{
}


/// Entering the settings fills the selected day's alarm with the current
/// hour and minute when it was never configured (off, at 00:00); a
/// configured alarm, and every other day's, keeps its time.
pub proof fn lemma_settings_seed_a_fresh_alarm(a: Alarm, ctx: FaceContext)
    requires
        a.inv(),
        a.spec_mode() == AlarmMode::View,
    ensures
        ({
            let e = a.after_button(GestureEvent { button: ButtonId::Light, kind: GestureKind::Press }, ctx).0;
            let d = a.spec_day();
            let day = a.spec_alarms()[d];
            &&& e.spec_mode() == AlarmMode::Edit(AlarmField::Day)
            &&& e.spec_day() == d
            &&& e.spec_alarms() == if !day.enabled && day.hour == 0 && day.minute == 0 {
                a.spec_alarms().update(d, AlarmDay { hour: ctx.time.hour, minute: ctx.time.minute, ..day })
            } else {
                a.spec_alarms()
            }
        }),
{
}


/// The ring plays its melody once per second however many ticks fall in
/// that second: after a tick that keeps the ring going, another tick in the
/// same second of the same weekday requests nothing and keeps the ring.
pub proof fn lemma_melody_once_per_second(a: Alarm, ctx: FaceContext, later: FaceContext)
    requires
        a.inv(),
        a.spec_ring_until() matches Some((wd, until)) && ctx.time.weekday.spec_index() == wd
            && ctx.time.seconds_of_day() < until,
        later.time.weekday == ctx.time.weekday,
        later.time.seconds_of_day() == ctx.time.seconds_of_day(),
    ensures
        a.after_tick(ctx).spec_ring_until() == a.spec_ring_until(),
        a.after_tick(ctx).tick_effects(later) == Seq::<Effect>::empty(),
        a.after_tick(ctx).after_tick(later).spec_ring_until() == a.spec_ring_until(),
{
}


/// In the settings an Alarm press steps the edited field of the selected
/// day's alarm by one and keeps everything else: the hour wraps at 24, the
/// minute at 60, the status flips; every other day's alarm and the selected
/// day stay as they are. On the day field it selects the next weekday.
pub proof fn lemma_settings_press_steps_one_field(a: Alarm, ctx: FaceContext)
    requires
        a.inv(),
        a.spec_mode() is Edit,
    ensures
        ({
            let d = a.spec_day();
            let day = a.spec_alarms()[d];
            let (b, consumed) = a.after_button(GestureEvent { button: ButtonId::Alarm, kind: GestureKind::Press }, ctx);
            let field = a.spec_mode()->Edit_0;
            &&& consumed
            &&& b.spec_mode() == a.spec_mode()
            &&& field == AlarmField::Day ==> b.spec_day() == (d + 1) % 7
            &&& field == AlarmField::Hour ==> {
                &&& b.spec_day() == d
                &&& b.spec_alarms() == a.spec_alarms().update(d, AlarmDay { hour: ((day.hour + 1) % 24) as u8, ..day })
            }
            &&& field == AlarmField::Minute ==> {
                &&& b.spec_day() == d
                &&& b.spec_alarms() == a.spec_alarms().update(d, AlarmDay { minute: ((day.minute + 1) % 60) as u8, ..day })
            }
            &&& field == AlarmField::Status ==> {
                &&& b.spec_day() == d
                &&& b.spec_alarms() == a.spec_alarms().update(d, AlarmDay { enabled: !day.enabled, ..day })
            }
        }),
{
}

} // verus!
