//! Hardware interface: everything a
//! portable app may touch beyond the LCD glass.
use vstd::prelude::*;

use crate::display::Display;
use crate::hardware::Effect;
use crate::time::DateTime;

verus! {

/// A date/time snapshot as the pluto firmware uses it.
#[derive(Clone, Copy, Debug, PartialEq, Eq, Structural)]
pub struct Timedate {
    pub h: u8,
    pub m: u8,
    pub s: u8,
    /// Day of the week, 0 = Monday.
    pub dow: u8,
    pub dom: u8,
    pub month: u8,
    pub year: u16,
}

impl Default for Timedate {
    fn default() -> (t: Self)
        ensures
            t == (Timedate { h: 0, m: 0, s: 0, dow: 0, dom: 0, month: 0, year: 0 }),
    {
        Timedate { h: 0, m: 0, s: 0, dow: 0, dom: 0, month: 0, year: 0 }
    }
}

impl Timedate {
    /// The snapshot of a [`DateTime`]: pluto numbers the weekdays from
    /// Monday (0) where [`crate::time::Weekday`] starts on Sunday.
    pub fn from_date_time(t: &DateTime) -> (td: Timedate)
        ensures
            td == (Timedate {
                h: t.hour,
                m: t.minute,
                s: t.second,
                dow: ((t.weekday.spec_index() + 6) % 7) as u8,
                dom: t.day,
                month: t.month.spec_number() as u8,
                year: t.year,
            }),
    {
        Timedate {
            h: t.hour,
            m: t.minute,
            s: t.second,
            dow: (t.weekday.index() + 6) % 7,
            dom: t.day,
            month: t.month.number(),
            year: t.year,
        }
    }
}

/// Hardware features a pluto app can use.
///
/// The [`Display`] supertrait is the glass itself; [`Hardware`] adds the
/// non-LCD peripherals. Each request is recorded in [`Display::effects`].
pub trait Hardware: Display {
    /// Read the current date and time from the real-time clock. The clock
    /// runs by itself, so nothing is promised of the value.
    fn rtc_get(&mut self) -> (t: Timedate)
        ensures
            final(self).segments() == old(self).segments(),
            final(self).effects() == old(self).effects(),
    ;

    /// Set the RTC's time-of-day portion (h/m/s).
    fn rtc_set_time(&mut self, t: &Timedate)
        ensures
            final(self).segments() == old(self).segments(),
            final(self).effects() == old(self).effects().push(Effect::SetTime(t.h, t.m, t.s)),
    ;

    /// Set the RTC's calendar portion (year/month/day/dow).
    fn rtc_set_date(&mut self, t: &Timedate)
        ensures
            final(self).segments() == old(self).segments(),
            final(self).effects() == old(self).effects().push(Effect::SetDate(t.year, t.month, t.dom, t.dow)),
    ;

    /// Turn the backlight on (`on`) or off.
    fn backlight_set(&mut self, on: bool)
        ensures
            final(self).segments() == old(self).segments(),
            final(self).effects() == old(self).effects().push(Effect::Backlight(on)),
    ;

    /// Start a beep at `freq_hz` (0 = silent) until `aux_timer_set(false)`.
    fn beep(&mut self, freq_hz: u16)
        ensures
            final(self).segments() == old(self).segments(),
            final(self).effects() == old(self).effects().push(Effect::Tone(freq_hz)),
    ;

    /// The auxiliary timer counts down and raises
    /// [`crate::legacy::app::Event::AuxTimer`] when it reaches zero.
    /// `running = true` starts (or restarts) it, `false` stops it.
    fn aux_timer_set(&mut self, running: bool)
        ensures
            final(self).segments() == old(self).segments(),
            final(self).effects() == old(self).effects().push(Effect::AuxTimer(running)),
    ;
}

} // verus!
