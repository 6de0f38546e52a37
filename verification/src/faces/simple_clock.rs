//! Simple clock face: weekday + date on top, HH:MM:SS in the middle. Beeps on
//! the Alarm button (the 12/24-hour format toggle).
use vstd::prelude::*;

use crate::display::{same_except, shows_chars, shows_unpadded, DigitDisplay};
use crate::face::{AlarmAction, ButtonId, ChordEvent, Face, FaceContext, GestureEvent, GestureKind};
use crate::font::{
    lemma_font_owners, lemma_indicator_owners, shows_digit, shows_indicator, Indicator, COLON,
};
use crate::display::lemma_letter_owners;
use crate::hardware::{Effect, Hardware};
use crate::time::DateTime;

verus! {

/// Two-letter weekday abbreviations, indexed by `Weekday` (0 = Sunday).
/// Rendered in the weekday (mode) digits of the F-91W.
pub const WEEKDAYS: [[u8; 2]; 7] = [
    ['S' as u8, 'U' as u8],
    ['M' as u8, 'O' as u8],
    ['T' as u8, 'U' as u8],
    ['W' as u8, 'E' as u8],
    ['T' as u8, 'H' as u8],
    ['F' as u8, 'R' as u8],
    ['S' as u8, 'A' as u8],
];

/// A 0..23 hour in 12-hour form (0 -> 12, 13..=23 -> 1..=11).
pub open spec fn hour_12(hour: int) -> int {
    if hour == 0 {
        12
    } else if 13 <= hour <= 23 {
        hour - 12
    } else {
        hour
    }
}

/// Convert a 0..23 hour into 12-hour form (0 -> 12, 13..=23 -> 1..=11).
fn to_12h(hour: u8) -> (h: u8)
    ensures
        h == hour_12(hour as int),
{
    match hour {
        0 => 12,
        13..=23 => hour - 12,
        _ => hour,
    }
}

/// The display elements the clock redraws on every tick: the ten
/// positions and the Signal, PM and 24H indicators.
pub open spec fn clock_elements() -> Set<int> {
    Set::new(|e: int| 0 <= e < 10 || e == 20 || e == 22 || e == 23)
}

/// What the clock shows for `ctx`: the weekday letters, the day of the
/// month and the time (both without a leading zero, the hour in the chosen
/// 12/24-hour format), 24H in 24-hour mode, PM in the afternoon in 12-hour
/// mode, and SIG while the hourly chime is on.
pub open spec fn clock_screen(lit: Set<(u8, u8)>, ctx: FaceContext) -> bool {
    let t = ctx.time;
    let hour = if ctx.h24 { t.hour as int } else { hour_12(t.hour as int) };
    &&& shows_chars(lit, WEEKDAYS[t.weekday.spec_index()])
    &&& shows_unpadded(lit, 2, t.day as int)
    &&& shows_unpadded(lit, 4, hour)
    &&& shows_digit(lit, 6, t.minute as int / 10)
    &&& shows_digit(lit, 7, t.minute as int % 10)
    &&& shows_digit(lit, 8, t.second as int / 10)
    &&& shows_digit(lit, 9, t.second as int % 10)
    &&& shows_indicator(lit, Indicator::H24, ctx.h24)
    &&& shows_indicator(lit, Indicator::Pm, !ctx.h24 && t.hour >= 12)
    &&& shows_indicator(lit, Indicator::Signal, ctx.chime)
}

/// Shows the time and the date.
#[derive(Clone, Copy, Default, PartialEq, Eq, Structural)]
pub struct SimpleClock {}

impl SimpleClock {
    pub fn new() -> (c: Self)
        ensures
            c == (SimpleClock {}),
    {
        SimpleClock {}
    }
}

impl SimpleClock {
    /// The weekday letters and the day of the month (positions 0-3).
    fn draw_date<H: Hardware>(&self, t: &DateTime, hw: &mut H)
        requires
            t.wf(),
        ensures
            shows_chars(final(hw).segments(), WEEKDAYS[t.weekday.spec_index()]),
            shows_unpadded(final(hw).segments(), 2, t.day as int),
            same_except(old(hw).segments(), final(hw).segments(), set![0int, 1, 2, 3]),
            final(hw).effects() == old(hw).effects(),
    {
        proof {
            lemma_font_owners();
            lemma_letter_owners();
        }
        // weekday letters (positions 0-1)
        let wd = WEEKDAYS[t.weekday.index() as usize % 7];
        hw.set_char(0, wd[0]);
        hw.set_char(1, wd[1]);

        // day of month in the top two digits, no leading zero
        if t.day >= 10 {
            hw.set_digit(2, t.day / 10);
        } else {
            hw.clear_digit(2);
        }
        hw.set_digit(3, t.day % 10);
    }

    /// 24H in 24-hour mode, PM in the afternoon in 12-hour mode, SIG while
    /// the hourly chime is on.
    fn draw_indicators<H: Hardware>(&self, ctx: &FaceContext, hw: &mut H)
        ensures
            shows_indicator(final(hw).segments(), Indicator::H24, ctx.h24),
            shows_indicator(final(hw).segments(), Indicator::Pm, !ctx.h24 && ctx.time.hour >= 12),
            shows_indicator(final(hw).segments(), Indicator::Signal, ctx.chime),
            same_except(old(hw).segments(), final(hw).segments(), set![20int, 22, 23]),
            final(hw).effects() == old(hw).effects(),
    {
        proof {
            lemma_indicator_owners();
        }
        hw.set_indicator(Indicator::H24, ctx.h24);
        hw.set_indicator(Indicator::Pm, !ctx.h24 && ctx.time.hour >= 12);
        hw.set_indicator(Indicator::Signal, ctx.chime);
    }

    /// HH:MM:SS in positions 4-9, no leading zero on the hour.
    fn draw_time<H: Hardware>(&self, hour: u8, minute: u8, second: u8, hw: &mut H)
        requires
            hour < 24,
            minute < 60,
            second < 60,
        ensures
            shows_unpadded(final(hw).segments(), 4, hour as int),
            shows_digit(final(hw).segments(), 6, minute as int / 10),
            shows_digit(final(hw).segments(), 7, minute as int % 10),
            shows_digit(final(hw).segments(), 8, second as int / 10),
            shows_digit(final(hw).segments(), 9, second as int % 10),
            same_except(old(hw).segments(), final(hw).segments(), set![4int, 5, 6, 7, 8, 9]),
            final(hw).effects() == old(hw).effects(),
    {
        proof {
            lemma_font_owners();
        }
        if hour >= 10 {
            hw.set_digit(4, hour / 10);
        } else {
            hw.clear_digit(4);
        }
        hw.set_digit(5, hour % 10);
        hw.set_digit(6, minute / 10);
        hw.set_digit(7, minute % 10);
        hw.set_digit(8, second / 10);
        hw.set_digit(9, second % 10);
    }
}

impl Face for SimpleClock {
    open spec fn inv(&self) -> bool {
        true
    }

    open spec fn after_init(&self, ctx: FaceContext) -> Self {
        *self
    }

    open spec fn after_tick(&self, ctx: FaceContext) -> Self {
        *self
    }

    open spec fn after_background(&self, ctx: FaceContext) -> (Self, bool) {
        (*self, false)
    }

    open spec fn after_button(&self, event: GestureEvent, ctx: FaceContext) -> (Self, bool) {
        (*self, false)
    }

    open spec fn after_chord(&self, event: ChordEvent, ctx: FaceContext) -> (Self, bool) {
        (*self, false)
    }

    open spec fn action(&self) -> AlarmAction {
        AlarmAction::H24Toggle
    }

    /// Entering the face lights the colon.
    open spec fn init_glass(&self, ctx: FaceContext, before: Set<(u8, u8)>) -> Set<(u8, u8)> {
        before.insert(COLON)
    }

    /// A tick draws [`clock_screen`] and changes nothing else.
    open spec fn tick_draws(&self, ctx: FaceContext, before: Set<(u8, u8)>, after: Set<(u8, u8)>) -> bool {
        &&& clock_screen(after, ctx)
        &&& same_except(before, after, clock_elements())
    }

    /// Entering the face requests nothing.
    open spec fn init_effects(&self, ctx: FaceContext) -> Seq<Effect> {
        Seq::empty()
    }

    /// Drawing requests nothing.
    open spec fn tick_effects(&self, ctx: FaceContext) -> Seq<Effect> {
        Seq::empty()
    }

    /// An Alarm press beeps.
    open spec fn button_effects(&self, event: GestureEvent, ctx: FaceContext) -> Seq<Effect> {
        if event.button == ButtonId::Alarm && event.kind == GestureKind::Press {
            seq![Effect::Beep(60)]
        } else {
            Seq::empty()
        }
    }

    /// A chord requests nothing.
    open spec fn chord_effects(&self, event: ChordEvent, ctx: FaceContext) -> Seq<Effect> {
        Seq::empty()
    }

    /// Lights the colon.
    fn init<H: Hardware>(&mut self, _ctx: &FaceContext, hw: &mut H)
        ensures
            final(hw).segments() == old(hw).segments().insert(COLON),
            final(hw).effects() == old(hw).effects(),
    {
        hw.set_segment(1, 16, true);
    }

    /// Draws [`clock_screen`].
    fn tick<H: Hardware>(&mut self, ctx: &FaceContext, hw: &mut H)
        ensures
            clock_screen(final(hw).segments(), *ctx),
            same_except(old(hw).segments(), final(hw).segments(), clock_elements()),
            final(hw).effects() == old(hw).effects(),
    {
        let t = ctx.time;
        self.draw_date(&t, hw);
        // 12h format shows 12:xx for midnight and 1..11 otherwise.
        let hour = if ctx.h24 { t.hour } else { to_12h(t.hour) };
        self.draw_time(hour, t.minute, t.second, hw);
        self.draw_indicators(ctx, hw);
    }

    fn background_tick<H: Hardware>(&mut self, _ctx: &FaceContext, _hw: &mut H) -> (activate: bool) {
        false
    }

    /// Beeps on an Alarm press, and lets the runtime toggle the format.
    fn button<H: Hardware>(&mut self, event: GestureEvent, _ctx: &FaceContext, hw: &mut H) -> (consumed: bool)
        ensures
            final(hw).segments() == old(hw).segments(),
            final(hw).effects() == (if event.button == ButtonId::Alarm && event.kind == GestureKind::Press {
                old(hw).effects().push(Effect::Beep(60))
            } else {
                old(hw).effects()
            }),
    {
        if event.button == ButtonId::Alarm && event.kind == GestureKind::Press {
            hw.beep();
            assert(old(hw).effects().push(Effect::Beep(60)).subrange(0, old(hw).effects().len() as int) =~= old(hw).effects());
        } else {
        }
        false
    }

    fn chord<H: Hardware>(&mut self, _event: ChordEvent, _ctx: &FaceContext, hw: &mut H) -> (consumed: bool) {
        false
    }

    fn alarm_action(&self) -> (action: AlarmAction) {
        AlarmAction::H24Toggle
    }
}

} // verus!
