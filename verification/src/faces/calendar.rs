//! Calendar face: a perpetual calendar for the years 2000..=2099.
//!
//! The view mode shows the configured date: the weekday in the top-left
//! letters, the day of the month in the top two digits, the **year** in the
//! big digits (4-7) and the month number in the seconds digits (8-9). The
//! weekday is **computed** from the date, so scrolling through dates shows you
//! which day of the week they fall on. On the very first entry the face is
//! seeded with the current date.
//!
//! Light enters the settings: the fields are year -> month -> day -> hour ->
//! minute -> second (Light advances, Alarm steps the value, a double adds 5, a
//! hold resets to the minimum — 2000 / 01 / 01 / 00 / 00 / 00), like the other
//! faces. Stepping the year past 2099 wraps to 2000. While the month is edited
//! the top-left letters show the two-letter Casio-style **month
//! abbreviation** (JA, FE, ...) and the year stays in the big digits; while
//! the day is edited the letters show the computed weekday (blinking). The day
//! is always clamped to the real length of the chosen month/year: switching
//! to February folds a 30th/31st down to the 28th/29th, and changing to a
//! non-leap year folds Feb 29 to the 28th.
//!
//! The face doubles as the watch's date/time setting screen: the hour, minute
//! and second fields (labels `HR` / `MI` / `SE`, edited in 24-hour time) seed
//! from the current clock, and **leaving the settings writes the whole date +
//! time back to the wall clock** (via [`Hardware::set_rtc`]).
//!
//! The Alarm + Light chord enters an **info mode**: the first chord shows `YR`
//! and the number of days in the current year (365/366) in the big digits; the
//! second shows `MO` and the number of days in the current month in the
//! seconds digits; a third chord (or a timeout of a few seconds without any
//! press) returns to the view. A chord pressed during an edit keeps the
//! settings (the clamping has already made them valid), writes them to the
//! wall clock and jumps to the info mode right away.
use vstd::prelude::*;

use crate::display::{
    lemma_letter_owners, pair_blank, same_except, shows_chars, shows_letter_mask, shows_pair, shows_unpadded,
    DigitDisplay,
};
use crate::face::{is_alarm_light, AlarmAction, ButtonId, ChordEvent, Face, FaceContext, GestureEvent, GestureKind};
use crate::faces::simple_alarm::{blink, blink_on};
use crate::faces::simple_clock::WEEKDAYS;
use crate::font::{blank, lemma_font_owners, lemma_indicator_owners, shows_digit, shows_indicator, Indicator};
use crate::hardware::{Effect, Hardware};
use crate::time::{
    days_from_civil, days_in_month, days_in_year, epoch_ms, epoch_ms_of, lemma_days_from_civil_nonneg,
    lemma_epoch_ms_round_trip, month_days,
    valid_date, weekday_of, weekday_of_days, year_days, DateTime,
};

verus! {

/// Two-letter month abbreviations (the Casio LCD style), indexed by month
/// (0 unused). Shown in the top-left letters while the month is edited.
///
/// Two letters are approximations forced by the glass: at position 1 the
/// upper and lower right bars share one electrode, so "P" would draw exactly
/// like "A" — April uses "AR"; "V" would draw exactly like "U", so November
/// uses "NO"; and "Y" would draw as an upside-down A, so May uses "MA".
pub const MONTH_ABBR: [[u8; 2]; 13] = [
    [' ' as u8, ' ' as u8],
    ['J' as u8, 'A' as u8],
    ['F' as u8, 'E' as u8],
    ['M' as u8, 'R' as u8],
    ['A' as u8, 'R' as u8],
    ['M' as u8, 'A' as u8],
    ['J' as u8, 'N' as u8],
    ['J' as u8, 'L' as u8],
    ['A' as u8, 'U' as u8],
    ['S' as u8, 'E' as u8],
    ['O' as u8, 'C' as u8],
    ['N' as u8, 'O' as u8],
    ['D' as u8, 'E' as u8],
];

/// First year of the perpetual calendar.
pub const YEAR_MIN: u16 = 2000;

/// Number of years of the perpetual calendar (2000..=2099).
pub const YEAR_SPAN: u16 = 100;

/// How long the info mode stays up without a button press (seconds).
pub const INFO_SECS: u64 = 5;

/// Which value is being edited.
#[derive(Clone, Copy, PartialEq, Eq, Structural)]
pub enum CalendarField {
    Year,
    Month,
    Day,
    Hour,
    Minute,
    Second,
}

/// Display mode of the face. The two info screens are separate variants so a
/// third chord returns to the view mode.
#[derive(Clone, Copy, PartialEq, Eq, Structural)]
pub enum CalendarMode {
    View,
    Edit(CalendarField),
    /// Info screen: `YR` + number of days in the current year.
    InfoYr,
    /// Info screen: `MO` + number of days in the current month.
    InfoMo,
}

impl CalendarMode {
    /// One of the two info screens.
    pub open spec fn spec_is_info(self) -> bool {
        self is InfoYr || self is InfoMo
    }

    fn is_info(&self) -> (b: bool)
        ensures
            b == self.spec_is_info(),
    {
        match self {
            CalendarMode::InfoYr | CalendarMode::InfoMo => true,
            _ => false,
        }
    }
}

/// The mode after a Light press on `field`: the next field, and the view
/// after the seconds.
pub open spec fn next_mode(field: CalendarField) -> CalendarMode {
    match field {
        CalendarField::Year => CalendarMode::Edit(CalendarField::Month),
        CalendarField::Month => CalendarMode::Edit(CalendarField::Day),
        CalendarField::Day => CalendarMode::Edit(CalendarField::Hour),
        CalendarField::Hour => CalendarMode::Edit(CalendarField::Minute),
        CalendarField::Minute => CalendarMode::Edit(CalendarField::Second),
        CalendarField::Second => CalendarMode::View,
    }
}

/// `day` folded into the length of month `month` of `year`.
pub open spec fn clamped_day(year: int, month: int, day: int) -> int {
    if day > month_days(year, month) {
        month_days(year, month)
    } else {
        day
    }
}

/// The calendar face.
#[derive(Clone, Copy, PartialEq, Eq, Structural)]
pub struct Calendar {
    /// Configured date. `year == 0` means "never configured": the face seeds
    /// itself with the current date on its first `init`.
    year: u16,
    month: u8,
    day: u8,
    /// Time-of-day fields, meaningful only while the settings are open (the
    /// view does not show them). Seeded from the wall clock each time the
    /// settings are entered, and written back to the clock when they are left.
    hour: u8,
    minute: u8,
    second: u8,
    mode: CalendarMode,
    /// Epoch ms of the last change of the edited value, to suppress blinking
    /// while the user is rapidly scrolling. `None` when unchanged.
    changed_at: Option<u64>,
    /// Epoch second at which the info mode expires (auto-return to view).
    /// `None` when not in the info mode.
    info_until: Option<u64>,
}

impl Calendar {
    /// The configured date `(year, month, day)`; the year is 0 until the face
    /// is first seeded.
    pub closed spec fn spec_date(self) -> (int, int, int) {
        (self.year as int, self.month as int, self.day as int)
    }

    /// The time of day `(hour, minute, second)` of the settings.
    pub closed spec fn spec_clock(self) -> (int, int, int) {
        (self.hour as int, self.minute as int, self.second as int)
    }

    /// The display mode.
    pub closed spec fn spec_mode(self) -> CalendarMode {
        self.mode
    }

    /// When the edited value last changed.
    pub closed spec fn spec_changed_at(self) -> Option<u64> {
        self.changed_at
    }

    /// The epoch second at which the info mode ends.
    pub closed spec fn spec_info_until(self) -> Option<u64> {
        self.info_until
    }

    /// The epoch milliseconds of the configured date and time of day, what
    /// leaving the settings writes to the wall clock.
    pub open spec fn written_epoch_ms(self) -> int {
        let (y, m, d) = self.spec_date();
        let (h, mi, s) = self.spec_clock();
        epoch_ms(y, m, d, h, mi, s)
    }

    /// Whether `event` leaves the settings (a Light press on the seconds, or
    /// a Light hold), which writes the wall clock.
    pub open spec fn leaves_settings(self, event: GestureEvent) -> bool {
        &&& self.spec_mode() is Edit
        &&& event.button == ButtonId::Light
        &&& (event.kind == GestureKind::Hold || (event.kind == GestureKind::Press && self.spec_mode()
            == CalendarMode::Edit(CalendarField::Second)))
    }

    /// A face as [`Calendar::new`] makes it.
    pub closed spec fn fresh() -> Self {
        Calendar {
            year: 0,
            month: 1,
            day: 1,
            hour: 0,
            minute: 0,
            second: 0,
            mode: CalendarMode::View,
            changed_at: None,
            info_until: None,
        }
    }

    pub fn new() -> (c: Self)
        ensures
            c == Self::fresh(),
            c.spec_date() == (0int, 1int, 1int),
            c.spec_clock() == (0int, 0int, 0int),
            c.spec_mode() == CalendarMode::View,
            c.spec_changed_at() == None::<u64>,
            c.spec_info_until() == None::<u64>,
            c.inv(),
    {
        Calendar {
            year: 0,  // unconfigured -> seeded from the current date on init
            month: 1,
            day: 1,
            hour: 0,
            minute: 0,
            second: 0,
            mode: CalendarMode::View,
            changed_at: None,
            info_until: None,
        }
    }

    /// The face with a never-configured date replaced by the date of `t`.
    pub closed spec fn seeded(self, t: DateTime) -> Self {
        if self.year == 0 {
            Calendar { year: t.year, month: t.month.spec_number() as u8, day: t.day, ..self }
        } else {
            self
        }
    }

    /// Seed a never-configured face with the current date, so the first entry
    /// shows "today" instead of an arbitrary value. Once set (year != 0) the
    /// configured date is kept across mode switches.
    fn seed_if_needed(&mut self, t: &DateTime)
        requires
            old(self).inv(),
            t.wf(),
        ensures
            *final(self) == old(self).seeded(*t),
            final(self).inv(),
            final(self).year >= 1970,
    {
        if self.year == 0 {
            self.year = t.year;
            self.month = t.month.number();
            self.day = t.day;
        }
    }

    /// Seed the time-of-day fields from the wall clock, called each time the
    /// settings are entered.
    fn seed_time(&mut self, t: &DateTime)
        requires
            t.wf(),
        ensures
            *final(self) == (Calendar { hour: t.hour, minute: t.minute, second: t.second, ..*old(self) }),
    {
        self.hour = t.hour;
        self.minute = t.minute;
        self.second = t.second;
    }

    /// Write the configured date + time to the wall clock, used when leaving
    /// the settings. Returns the written epoch, so the info mode's expiry can
    /// be measured against the time just written.
    fn apply_clock<H: Hardware>(&self, hw: &mut H) -> (epoch: u64)
        requires
            self.inv(),
            self.year >= 1970,
        ensures
            epoch == self.written_epoch_ms(),
            final(hw).effects() == old(hw).effects().push(Effect::SetRtc(epoch)),
            final(hw).segments() == old(hw).segments(),
    {
        proof {
            lemma_days_from_civil_nonneg(self.year as int, self.month as int, self.day as int);
        }
        let epoch = epoch_ms_of(self.year, self.month, self.day, self.hour, self.minute, self.second);
        hw.set_rtc(epoch);
        epoch
    }

    /// The face with the focused value advanced by `steps`: the year wraps
    /// within 2000..=2099, the month at 12, the day at the month's length,
    /// hours at 24, minutes and seconds at 60; a changed year or month folds
    /// the day into the month's length.
    pub closed spec fn stepped(self, steps: int) -> Self {
        match self.mode {
            CalendarMode::Edit(CalendarField::Year) => {
                let y = (self.year % 100 + steps) % 100 + 2000;
                Calendar { year: y as u16, day: clamped_day(y, self.month as int, self.day as int) as u8, ..self }
            },
            CalendarMode::Edit(CalendarField::Month) => {
                let m = (self.month - 1 + steps) % 12 + 1;
                Calendar { month: m as u8, day: clamped_day(self.year as int, m, self.day as int) as u8, ..self }
            },
            CalendarMode::Edit(CalendarField::Day) => Calendar {
                day: ((self.day - 1 + steps) % month_days(self.year as int, self.month as int) + 1) as u8,
                ..self
            },
            CalendarMode::Edit(CalendarField::Hour) => Calendar { hour: ((self.hour + steps) % 24) as u8, ..self },
            CalendarMode::Edit(CalendarField::Minute) => Calendar {
                minute: ((self.minute + steps) % 60) as u8,
                ..self
            },
            CalendarMode::Edit(CalendarField::Second) => Calendar {
                second: ((self.second + steps) % 60) as u8,
                ..self
            },
            _ => self,
        }
    }

    /// The face with the focused value reset to its minimum: the year to
    /// 2000, the month and the day to 01, the time fields to 00.
    pub closed spec fn zeroed(self) -> Self {
        match self.mode {
            CalendarMode::Edit(CalendarField::Year) => Calendar { year: 2000, ..self },
            CalendarMode::Edit(CalendarField::Month) => Calendar { month: 1, ..self },
            CalendarMode::Edit(CalendarField::Day) => Calendar { day: 1, ..self },
            CalendarMode::Edit(CalendarField::Hour) => Calendar { hour: 0, ..self },
            CalendarMode::Edit(CalendarField::Minute) => Calendar { minute: 0, ..self },
            CalendarMode::Edit(CalendarField::Second) => Calendar { second: 0, ..self },
            _ => self,
        }
    }

    /// Fold the day back into the real length of the chosen month/year.
    fn clamp_day(&mut self)
        requires
            1 <= old(self).month <= 12,
            1 <= old(self).day,
        ensures
            *final(self) == (Calendar {
                day: clamped_day(old(self).year as int, old(self).month as int, old(self).day as int) as u8,
                ..*old(self)
            }),
            valid_date(final(self).year as int, final(self).month as int, final(self).day as int),
    {
        let dim = days_in_month(self.year, self.month);
        if self.day > dim {
            self.day = dim;
        }
    }

    fn step(&mut self, steps: u8)
        requires
            old(self).inv(),
            steps <= 4,
        ensures
            *final(self) == old(self).stepped(steps as int),
            final(self).inv(),
    {
        match self.mode {
            CalendarMode::Edit(CalendarField::Year) => {
                // Steps cycle the last two digits within 2000..=2099; a year
                // seeded from a clock before 2000 joins that cycle with its
                // own last two digits (1970 steps to 2071).
                self.year = (self.year % YEAR_SPAN + steps as u16) % YEAR_SPAN + YEAR_MIN;
                self.clamp_day();
            },
            CalendarMode::Edit(CalendarField::Month) => {
                self.month = (self.month - 1 + steps) % 12 + 1;
                self.clamp_day();
            },
            CalendarMode::Edit(CalendarField::Day) => {
                let dim = days_in_month(self.year, self.month);
                self.day = (self.day - 1 + steps) % dim + 1;
            },
            CalendarMode::Edit(CalendarField::Hour) => self.hour = (self.hour + steps) % 24,
            CalendarMode::Edit(CalendarField::Minute) => self.minute = (self.minute + steps) % 60,
            CalendarMode::Edit(CalendarField::Second) => self.second = (self.second + steps) % 60,
            CalendarMode::View | CalendarMode::InfoYr | CalendarMode::InfoMo => {},
        }
    }

    /// Reset the focused value to its minimum (holding the Alarm button).
    fn reset(&mut self)
        requires
            old(self).inv(),
        ensures
            *final(self) == old(self).zeroed(),
            final(self).inv(),
    {
        match self.mode {
            CalendarMode::Edit(CalendarField::Year) => self.year = YEAR_MIN,
            CalendarMode::Edit(CalendarField::Month) => self.month = 1,
            CalendarMode::Edit(CalendarField::Day) => self.day = 1,
            CalendarMode::Edit(CalendarField::Hour) => self.hour = 0,
            CalendarMode::Edit(CalendarField::Minute) => self.minute = 0,
            CalendarMode::Edit(CalendarField::Second) => self.second = 0,
            _ => {},
        }
    }
}

/// The display elements the calendar redraws: the ten positions and the
/// five indicators.
pub open spec fn calendar_elements() -> Set<int> {
    set![0int, 1, 2, 3, 4, 5, 6, 7, 8, 9, 20, 21, 22, 23, 24]
}

/// The big digits (4-7) show `year`; a digit past 9 in the thousands is not
/// drawn (position 4 is then left as it was, see `draw_year`).
pub open spec fn shows_year(lit: Set<(u8, u8)>, year: int) -> bool {
    &&& year / 1000 <= 9 ==> shows_digit(lit, 4, year / 1000)
    &&& shows_digit(lit, 5, (year / 100) % 10)
    &&& shows_digit(lit, 6, (year / 10) % 10)
    &&& shows_digit(lit, 7, year % 10)
}

/// The big digits (4-7) are blank.
pub open spec fn big_blank(lit: Set<(u8, u8)>) -> bool {
    blank(lit, 4) && blank(lit, 5) && blank(lit, 6) && blank(lit, 7)
}

/// A two-digit value in the middle of the big digits (5-6), 4 and 7 blank.
pub open spec fn shows_time_value(lit: Set<(u8, u8)>, value: int) -> bool {
    blank(lit, 4) && shows_pair(lit, 5, value) && blank(lit, 7)
}

/// A three-digit count right-aligned in the big digits (5-7), 4 blank.
pub open spec fn shows_count(lit: Set<(u8, u8)>, count: int) -> bool {
    &&& blank(lit, 4)
    &&& shows_digit(lit, 5, count / 100)
    &&& shows_digit(lit, 6, (count / 10) % 10)
    &&& shows_digit(lit, 7, count % 10)
}

/// Both letter positions are blank.
pub open spec fn letters_blank(lit: Set<(u8, u8)>) -> bool {
    shows_letter_mask(lit, 0, 0) && shows_letter_mask(lit, 1, 0)
}

/// The two-letter weekday of a date.
pub open spec fn weekday_chars(year: int, month: int, day: int) -> [u8; 2] {
    WEEKDAYS[weekday_of_days(days_from_civil(year, month, day))]
}

/// The calendar's indicators: Bell, 24H, PM and LAP off, SIG as `chime`.
pub open spec fn shows_calendar_indicators(lit: Set<(u8, u8)>, chime: bool) -> bool {
    &&& shows_indicator(lit, Indicator::Bell, false)
    &&& shows_indicator(lit, Indicator::H24, false)
    &&& shows_indicator(lit, Indicator::Pm, false)
    &&& shows_indicator(lit, Indicator::Lap, false)
    &&& shows_indicator(lit, Indicator::Signal, chime)
}

impl Calendar {
    /// What the view mode shows: the computed weekday, the day without a
    /// leading zero, the year in the big digits and the month in the seconds
    /// digits.
    pub open spec fn view_screen(self, lit: Set<(u8, u8)>, ctx: FaceContext) -> bool {
        let (y, m, d) = self.spec_date();
        &&& shows_chars(lit, weekday_chars(y, m, d))
        &&& shows_unpadded(lit, 2, d)
        &&& shows_year(lit, y)
        &&& shows_pair(lit, 8, m)
        &&& shows_calendar_indicators(lit, ctx.chime)
    }

    /// The letters of the settings: `YR`, `HR`, `MI`, `SE` for their fields,
    /// the month abbreviation and the computed weekday (both blinking, see
    /// [`blink_on`]) for the month and the day.
    pub open spec fn edit_letters(self, lit: Set<(u8, u8)>, field: CalendarField, b: bool) -> bool {
        let (y, m, d) = self.spec_date();
        match field {
            CalendarField::Year => shows_chars(lit, ['Y' as u8, 'R' as u8]),
            CalendarField::Month => if b {
                shows_chars(lit, MONTH_ABBR[m])
            } else {
                letters_blank(lit)
            },
            CalendarField::Day => if b {
                shows_chars(lit, weekday_chars(y, m, d))
            } else {
                letters_blank(lit)
            },
            CalendarField::Hour => shows_chars(lit, ['H' as u8, 'R' as u8]),
            CalendarField::Minute => shows_chars(lit, ['M' as u8, 'I' as u8]),
            CalendarField::Second => shows_chars(lit, ['S' as u8, 'E' as u8]),
        }
    }

    /// The big digits of the settings: the year (blinking while edited), or
    /// the edited hour, minute or second (blinking).
    pub open spec fn edit_big(self, lit: Set<(u8, u8)>, field: CalendarField, b: bool) -> bool {
        let (y, m, d) = self.spec_date();
        let (h, mi, s) = self.spec_clock();
        match field {
            CalendarField::Month | CalendarField::Day => shows_year(lit, y),
            CalendarField::Year => if b {
                shows_year(lit, y)
            } else {
                big_blank(lit)
            },
            CalendarField::Hour => if b {
                shows_time_value(lit, h)
            } else {
                big_blank(lit)
            },
            CalendarField::Minute => if b {
                shows_time_value(lit, mi)
            } else {
                big_blank(lit)
            },
            CalendarField::Second => if b {
                shows_time_value(lit, s)
            } else {
                big_blank(lit)
            },
        }
    }

    /// What the settings show: see [`Calendar::edit_letters`] and
    /// [`Calendar::edit_big`]; the day of the month, the month number
    /// (blinking with the abbreviation while the month is edited) and no
    /// indicator.
    pub open spec fn edit_screen(self, lit: Set<(u8, u8)>, t: DateTime) -> bool {
        let (y, m, d) = self.spec_date();
        let b = blink_on(self.spec_changed_at(), t);
        match self.spec_mode() {
            CalendarMode::Edit(field) => {
                &&& self.edit_letters(lit, field, b)
                &&& self.edit_big(lit, field, b)
                &&& shows_unpadded(lit, 2, d)
                &&& (if field == CalendarField::Month && !b {
                    pair_blank(lit, 8)
                } else {
                    shows_pair(lit, 8, m)
                })
                &&& shows_calendar_indicators(lit, false)
            },
            _ => true,
        }
    }

    /// What the info screens show: `YR` and the days of the year in the big
    /// digits, or `MO` and the days of the month in the seconds digits, with
    /// the rest of the date around them.
    pub open spec fn info_screen(self, lit: Set<(u8, u8)>, ctx: FaceContext) -> bool {
        let (y, m, d) = self.spec_date();
        match self.spec_mode() {
            CalendarMode::InfoYr => {
                &&& shows_chars(lit, ['Y' as u8, 'R' as u8])
                &&& shows_count(lit, year_days(y))
                &&& shows_unpadded(lit, 2, d)
                &&& shows_pair(lit, 8, m)
                &&& shows_calendar_indicators(lit, ctx.chime)
            },
            CalendarMode::InfoMo => {
                &&& shows_chars(lit, ['M' as u8, 'O' as u8])
                &&& shows_year(lit, y)
                &&& shows_unpadded(lit, 2, d)
                &&& shows_pair(lit, 8, month_days(y, m))
                &&& shows_calendar_indicators(lit, ctx.chime)
            },
            _ => true,
        }
    }

    fn draw_chars<H: Hardware>(&self, hw: &mut H, chars: [u8; 2])
        requires
            32 <= chars[0] <= 126,
            32 <= chars[1] <= 126,
        ensures
            shows_chars(final(hw).segments(), chars),
            same_except(old(hw).segments(), final(hw).segments(), set![0int, 1]),
            final(hw).effects() == old(hw).effects(),
    {
        proof {
            lemma_letter_owners();
        }
        hw.set_char(0, chars[0]);
        hw.set_char(1, chars[1]);
    }

    fn clear_chars<H: Hardware>(&self, hw: &mut H)
        ensures
            letters_blank(final(hw).segments()),
            same_except(old(hw).segments(), final(hw).segments(), set![0int, 1]),
            final(hw).effects() == old(hw).effects(),
    {
        proof {
            lemma_letter_owners();
        }
        hw.clear_char(0);
        hw.clear_char(1);
    }

    fn draw_year<H: Hardware>(&self, hw: &mut H)
        ensures
            shows_year(final(hw).segments(), self.year as int),
            same_except(old(hw).segments(), final(hw).segments(), set![4int, 5, 6, 7]),
            self.year / 1000 > 9 ==> same_except(old(hw).segments(), final(hw).segments(), set![5int, 6, 7]),
            final(hw).effects() == old(hw).effects(),
    {
        proof {
            lemma_font_owners();
        }
        hw.set_digit(4, (self.year / 1000) as u8);
        hw.set_digit(5, ((self.year / 100) % 10) as u8);
        hw.set_digit(6, ((self.year / 10) % 10) as u8);
        hw.set_digit(7, (self.year % 10) as u8);
    }

    fn clear_big<H: Hardware>(&self, hw: &mut H)
        ensures
            big_blank(final(hw).segments()),
            same_except(old(hw).segments(), final(hw).segments(), set![4int, 5, 6, 7]),
            final(hw).effects() == old(hw).effects(),
    {
        proof {
            lemma_font_owners();
        }
        hw.clear_digit(4);
        hw.clear_digit(5);
        hw.clear_digit(6);
        hw.clear_digit(7);
    }

    fn draw_day<H: Hardware>(&self, hw: &mut H)
        requires
            self.day <= 31,
        ensures
            shows_unpadded(final(hw).segments(), 2, self.day as int),
            same_except(old(hw).segments(), final(hw).segments(), set![2int, 3]),
            final(hw).effects() == old(hw).effects(),
    {
        proof {
            lemma_font_owners();
        }
        if self.day >= 10 {
            hw.set_digit(2, self.day / 10);
        } else {
            hw.clear_digit(2);
        }
        hw.set_digit(3, self.day % 10);
    }

    /// A two-digit value in the seconds digits (8-9).
    fn draw_seconds_pair<H: Hardware>(&self, hw: &mut H, value: u8)
        requires
            value < 100,
        ensures
            shows_pair(final(hw).segments(), 8, value as int),
            same_except(old(hw).segments(), final(hw).segments(), set![8int, 9]),
            final(hw).effects() == old(hw).effects(),
    {
        proof {
            lemma_font_owners();
        }
        hw.set_digit(8, value / 10);
        hw.set_digit(9, value % 10);
    }

    fn clear_seconds_pair<H: Hardware>(&self, hw: &mut H)
        ensures
            pair_blank(final(hw).segments(), 8),
            same_except(old(hw).segments(), final(hw).segments(), set![8int, 9]),
            final(hw).effects() == old(hw).effects(),
    {
        proof {
            lemma_font_owners();
        }
        hw.clear_digit(8);
        hw.clear_digit(9);
    }

    /// A 2-digit value right-aligned in the middle of the big digits
    /// (positions 5-6), for the hour/minute/second edit fields.
    fn draw_time_value<H: Hardware>(&self, hw: &mut H, value: u8)
        requires
            value < 100,
        ensures
            shows_time_value(final(hw).segments(), value as int),
            same_except(old(hw).segments(), final(hw).segments(), set![4int, 5, 6, 7]),
            final(hw).effects() == old(hw).effects(),
    {
        proof {
            lemma_font_owners();
        }
        hw.clear_digit(4);
        hw.set_digit(5, value / 10);
        hw.set_digit(6, value % 10);
        hw.clear_digit(7);
    }

    /// A 3-digit count right-aligned in the big digits (positions 5-7), for
    /// the days-in-year info (365/366).
    fn draw_count<H: Hardware>(&self, hw: &mut H, count: u16)
        requires
            count < 1000,
        ensures
            shows_count(final(hw).segments(), count as int),
            same_except(old(hw).segments(), final(hw).segments(), set![4int, 5, 6, 7]),
            final(hw).effects() == old(hw).effects(),
    {
        proof {
            lemma_font_owners();
        }
        hw.clear_digit(4);
        hw.set_digit(5, (count / 100) as u8);
        hw.set_digit(6, ((count / 10) % 10) as u8);
        hw.set_digit(7, (count % 10) as u8);
    }

    fn set_indicators<H: Hardware>(&self, hw: &mut H, chime: bool)
        ensures
            shows_calendar_indicators(final(hw).segments(), chime),
            same_except(old(hw).segments(), final(hw).segments(), set![20int, 21, 22, 23, 24]),
            final(hw).effects() == old(hw).effects(),
    {
        proof {
            lemma_indicator_owners();
        }
        hw.set_indicator(Indicator::Bell, false);
        hw.set_indicator(Indicator::H24, false);
        hw.set_indicator(Indicator::Pm, false);
        hw.set_indicator(Indicator::Lap, false);
        hw.set_indicator(Indicator::Signal, chime);
    }

    /// The weekday letters of the configured date.
    fn weekday_letters(&self) -> (chars: [u8; 2])
        ensures
            chars == weekday_chars(self.year as int, self.month as int, self.day as int),
            32 <= chars[0] <= 126,
            32 <= chars[1] <= 126,
    {
        let wd = weekday_of(self.year, self.month, self.day);
        WEEKDAYS[wd.index() as usize % 7]
    }
}

impl Calendar {
    #[verifier::rlimit(40)]
    fn draw_view<H: Hardware>(&self, ctx: &FaceContext, hw: &mut H)
        requires
            self.inv(),
        ensures
            self.view_screen(final(hw).segments(), *ctx),
            same_except(old(hw).segments(), final(hw).segments(), calendar_elements()),
            final(hw).effects() == old(hw).effects(),
    {
        let chars = self.weekday_letters();
        self.draw_chars(hw, chars);
        self.draw_day(hw);
        self.draw_year(hw);
        self.draw_seconds_pair(hw, self.month);
        self.set_indicators(hw, ctx.chime);
    }

    /// The letters of the settings (see [`Calendar::edit_letters`]).
    fn draw_edit_letters<H: Hardware>(&self, hw: &mut H, field: CalendarField, blink: bool)
        requires
            self.inv(),
        ensures
            self.edit_letters(final(hw).segments(), field, blink),
            same_except(old(hw).segments(), final(hw).segments(), set![0int, 1]),
            final(hw).effects() == old(hw).effects(),
    {
        match field {
            CalendarField::Year => self.draw_chars(hw, ['Y' as u8, 'R' as u8]),
            CalendarField::Month => {
                if blink {
                    self.draw_chars(hw, MONTH_ABBR[self.month as usize]);
                } else {
                    self.clear_chars(hw);
                }
            },
            CalendarField::Hour => self.draw_chars(hw, ['H' as u8, 'R' as u8]),
            CalendarField::Minute => self.draw_chars(hw, ['M' as u8, 'I' as u8]),
            CalendarField::Second => self.draw_chars(hw, ['S' as u8, 'E' as u8]),
            CalendarField::Day => {
                if blink {
                    let chars = self.weekday_letters();
                    self.draw_chars(hw, chars);
                } else {
                    self.clear_chars(hw);
                }
            },
        }
    }

    /// The big digits of the settings (see [`Calendar::edit_big`]): the
    /// edited time field while it is the focus and the year otherwise.
    fn draw_edit_big<H: Hardware>(&self, hw: &mut H, field: CalendarField, blink: bool)
        requires
            self.inv(),
        ensures
            self.edit_big(final(hw).segments(), field, blink),
            same_except(old(hw).segments(), final(hw).segments(), set![4int, 5, 6, 7]),
            final(hw).effects() == old(hw).effects(),
    {
        match field {
            CalendarField::Month | CalendarField::Day => self.draw_year(hw),
            _ => {
                if !blink {
                    self.clear_big(hw);
                } else {
                    match field {
                        CalendarField::Hour => self.draw_time_value(hw, self.hour),
                        CalendarField::Minute => self.draw_time_value(hw, self.minute),
                        CalendarField::Second => self.draw_time_value(hw, self.second),
                        _ => self.draw_year(hw),
                    }
                }
            },
        }
    }

    #[verifier::rlimit(80)]
    #[verifier::spinoff_prover]
    fn draw_edit<H: Hardware>(&self, t: &DateTime, hw: &mut H)
        requires
            self.inv(),
            t.instant_wf(),
        ensures
            self.edit_screen(final(hw).segments(), *t),
            same_except(old(hw).segments(), final(hw).segments(), calendar_elements()),
            final(hw).effects() == old(hw).effects(),
    {
        // While the user is rapidly stepping through values (hold auto-repeat
        // or a double press) the focused value is shown steadily instead of
        // blinking; blinking resumes shortly after the last change.
        let blink = blink(self.changed_at, t);
        let field = match self.mode {
            CalendarMode::Edit(f) => f,
            _ => return,
        };
        self.draw_edit_letters(hw, field, blink);
        self.draw_edit_big(hw, field, blink);
        self.draw_day(hw);
        // The month number in the seconds digits blinks in sync with the
        // month abbreviation in the top letters while the month is the focus.
        if field == CalendarField::Month && !blink {
            self.clear_seconds_pair(hw);
        } else {
            self.draw_seconds_pair(hw, self.month);
        }
        self.set_indicators(hw, false);
    }

    #[verifier::rlimit(40)]
    fn draw_info<H: Hardware>(&self, ctx: &FaceContext, hw: &mut H)
        requires
            self.inv(),
        ensures
            self.info_screen(final(hw).segments(), *ctx),
            same_except(old(hw).segments(), final(hw).segments(), calendar_elements()),
            final(hw).effects() == old(hw).effects(),
    {
        match self.mode {
            CalendarMode::InfoYr => {
                self.draw_chars(hw, ['Y' as u8, 'R' as u8]);
                self.draw_count(hw, days_in_year(self.year));
                self.draw_day(hw);
                self.draw_seconds_pair(hw, self.month);
            },
            CalendarMode::InfoMo => {
                self.draw_chars(hw, ['M' as u8, 'O' as u8]);
                self.draw_year(hw);
                self.draw_day(hw);
                self.draw_seconds_pair(hw, days_in_month(self.year, self.month));
            },
            _ => return,
        }
        self.set_indicators(hw, ctx.chime);
    }

    /// The face after an Alarm gesture in the settings: a press adds one, a
    /// double four more, a hold resets the field; the change time is kept
    /// for the blinking.
    pub closed spec fn after_alarm_edit(self, kind: GestureKind, now: u64) -> Self {
        match kind {
            GestureKind::Press => Calendar { changed_at: Some(now), ..self.stepped(1) },
            GestureKind::Hold => Calendar { changed_at: Some(now), ..self.zeroed() },
            GestureKind::Double => Calendar { changed_at: Some(now), ..self.stepped(4) },
        }
    }

    fn alarm_edit(&mut self, kind: GestureKind, now: u64)
        requires
            old(self).inv(),
        ensures
            *final(self) == old(self).after_alarm_edit(kind, now),
            final(self).inv(),
    {
        match kind {
            // A plain press adds one unit.
            GestureKind::Press => self.step(1),
            // Holding the button resets the value to its minimum.
            GestureKind::Hold => self.reset(),
            // A double press adds five units in total: the first press of
            // the pair already added one, so the second adds four more.
            GestureKind::Double => self.step(4),
        }
        self.changed_at = Some(now);
    }

    /// The face after a Light gesture in the settings: a press moves to the
    /// next field (the seconds leave the settings), a hold leaves them.
    pub closed spec fn after_light_edit(self, field: CalendarField, kind: GestureKind) -> Self {
        match kind {
            GestureKind::Press => Calendar { mode: next_mode(field), ..self },
            GestureKind::Hold => Calendar { mode: CalendarMode::View, ..self },
            GestureKind::Double => self,
        }
    }

    fn light_edit<H: Hardware>(&mut self, field: CalendarField, kind: GestureKind, hw: &mut H)
        requires
            old(self).inv(),
            old(self).mode == CalendarMode::Edit(field),
        ensures
            *final(self) == old(self).after_light_edit(field, kind),
            final(self).inv(),
            final(hw).segments() == old(hw).segments(),
            final(hw).effects() == (if kind == GestureKind::Hold || (kind == GestureKind::Press && field
                == CalendarField::Second) {
                old(hw).effects().push(Effect::SetRtc(old(self).written_epoch_ms() as u64))
            } else {
                old(hw).effects()
            }),
    {
        match kind {
            // A press moves to the next field; on the last one (second) it
            // exits the settings and writes the new date + time back to the
            // wall clock.
            GestureKind::Press => {
                self.mode = match field {
                    CalendarField::Year => CalendarMode::Edit(CalendarField::Month),
                    CalendarField::Month => CalendarMode::Edit(CalendarField::Day),
                    CalendarField::Day => CalendarMode::Edit(CalendarField::Hour),
                    CalendarField::Hour => CalendarMode::Edit(CalendarField::Minute),
                    CalendarField::Minute => CalendarMode::Edit(CalendarField::Second),
                    CalendarField::Second => {
                        self.apply_clock(hw);
                        CalendarMode::View
                    },
                };
            },
            // A hold exits the settings (and writes the clock).
            GestureKind::Hold => {
                self.apply_clock(hw);
                self.mode = CalendarMode::View;
            },
            GestureKind::Double => {},
        }
    }
}

impl Face for Calendar {
    /// The configured date is a real date, from 1970 on once configured (and
    /// always while it is edited); the time of day is a real time.
    closed spec fn inv(&self) -> bool {
        &&& valid_date(self.year as int, self.month as int, self.day as int)
        &&& self.year == 0 || self.year >= 1970
        &&& self.mode is Edit ==> self.year >= 1970
        &&& self.hour < 24
        &&& self.minute < 60
        &&& self.second < 60
    }

    /// Entering the face starts in the view mode, without an info timeout,
    /// and seeds a never-configured date with the current one.
    closed spec fn after_init(&self, ctx: FaceContext) -> Self {
        Calendar { mode: CalendarMode::View, info_until: None, ..self.seeded(ctx.time) }
    }

    /// The info mode returns to the view once its timeout has passed.
    closed spec fn after_tick(&self, ctx: FaceContext) -> Self {
        if self.mode.spec_is_info() && (self.info_until matches Some(until) && ctx.time.secs >= until) {
            Calendar { mode: CalendarMode::View, info_until: None, ..*self }
        } else {
            *self
        }
    }

    /// The calendar has no background work.
    closed spec fn after_background(&self, ctx: FaceContext) -> (Self, bool) {
        (*self, false)
    }

    /// In the info mode any button restarts the timeout. In the settings
    /// Alarm steps or resets the edited value and Light moves on or leaves
    /// (see [`Calendar::leaves_settings`]). In the view Light (a press)
    /// enters the settings at the year, with the time fields seeded from the
    /// wall clock; a date that was never configured is first seeded with the
    /// current one. Alarm in the view and Mode are not consumed.
    closed spec fn after_button(&self, event: GestureEvent, ctx: FaceContext) -> (Self, bool) {
        let now = (ctx.time.secs * 1000 + ctx.time.ms) as u64;
        if self.mode.spec_is_info() {
            (Calendar { info_until: Some((ctx.time.secs + INFO_SECS) as u64), ..*self }, true)
        } else {
            match self.mode {
                CalendarMode::Edit(field) => match event.button {
                    ButtonId::Alarm => (self.after_alarm_edit(event.kind, now), true),
                    ButtonId::Light => (self.after_light_edit(field, event.kind), true),
                    ButtonId::Mode => (*self, false),
                },
                _ => match event.button {
                    ButtonId::Light => (
                        if event.kind == GestureKind::Press {
                            Calendar {
                                hour: ctx.time.hour,
                                minute: ctx.time.minute,
                                second: ctx.time.second,
                                mode: CalendarMode::Edit(CalendarField::Year),
                                ..self.seeded(ctx.time)
                            }
                        } else {
                            *self
                        },
                        true,
                    ),
                    _ => (*self, false),
                },
            }
        }
    }

    /// Alarm + Light cycles view -> info YR -> info MO -> view; from the
    /// settings it goes to info YR. The info timeout is counted from the
    /// current time, or from the time just written when the chord left the
    /// settings.
    closed spec fn after_chord(&self, event: ChordEvent, ctx: FaceContext) -> (Self, bool) {
        if !event.is_alarm_light() {
            (*self, false)
        } else {
            let mode = match self.mode {
                CalendarMode::View => CalendarMode::InfoYr,
                CalendarMode::Edit(_) => CalendarMode::InfoYr,
                CalendarMode::InfoYr => CalendarMode::InfoMo,
                CalendarMode::InfoMo => CalendarMode::View,
            };
            let from = if self.mode is Edit {
                self.written_epoch_ms() / 1000
            } else {
                ctx.time.secs as int
            };
            (
                Calendar {
                    mode,
                    info_until: if mode.spec_is_info() {
                        Some((from + INFO_SECS) as u64)
                    } else {
                        None
                    },
                    ..*self
                },
                true,
            )
        }
    }

    closed spec fn action(&self) -> AlarmAction {
        AlarmAction::H24Toggle
    }

    /// Entering the face leaves the glass as it is.
    closed spec fn init_glass(&self, ctx: FaceContext, before: Set<(u8, u8)>) -> Set<(u8, u8)> {
        before
    }

    /// A tick draws the view (in the view mode) or the settings or the info screen of the face
    /// after the tick, and changes nothing outside the face's elements.
    closed spec fn tick_draws(&self, ctx: FaceContext, before: Set<(u8, u8)>, after: Set<(u8, u8)>) -> bool {
        let s = self.after_tick(ctx);
        &&& s.mode == CalendarMode::View ==> s.view_screen(after, ctx)
        &&& s.edit_screen(after, ctx.time)
        &&& s.info_screen(after, ctx)
        &&& same_except(before, after, calendar_elements())
    }

    /// Entering the face requests nothing.
    closed spec fn init_effects(&self, ctx: FaceContext) -> Seq<Effect> {
        Seq::empty()
    }

    /// Drawing requests nothing.
    closed spec fn tick_effects(&self, ctx: FaceContext) -> Seq<Effect> {
        Seq::empty()
    }

    /// Leaving the settings writes the edited date and time to the clock.
    closed spec fn button_effects(&self, event: GestureEvent, ctx: FaceContext) -> Seq<Effect> {
        if self.leaves_settings(event) {
            seq![Effect::SetRtc(self.written_epoch_ms() as u64)]
        } else {
            Seq::empty()
        }
    }

    /// The Alarm + Light chord in the settings writes the edited date and
    /// time to the clock.
    closed spec fn chord_effects(&self, event: ChordEvent, ctx: FaceContext) -> Seq<Effect> {
        if event.is_alarm_light() && self.mode is Edit {
            seq![Effect::SetRtc(self.written_epoch_ms() as u64)]
        } else {
            Seq::empty()
        }
    }

    fn init<H: Hardware>(&mut self, ctx: &FaceContext, hw: &mut H)
        ensures
            *final(hw) == *old(hw),
    {
        // Entering the face always starts in the view mode (a Mode exit from
        // the middle of an edit or the info mode must not resume later) and
        // seeds a never-configured date with the current one.
        self.seed_if_needed(&ctx.time);
        self.mode = CalendarMode::View;
        self.info_until = None;
    }

    /// Draws the view, the settings or the info screen.
    fn tick<H: Hardware>(&mut self, ctx: &FaceContext, hw: &mut H)
        ensures
            final(hw).effects() == old(hw).effects(),
            final(self).spec_mode() == CalendarMode::View ==> final(self).view_screen(final(hw).segments(), *ctx),
            final(self).edit_screen(final(hw).segments(), ctx.time),
            final(self).info_screen(final(hw).segments(), *ctx),
            same_except(old(hw).segments(), final(hw).segments(), calendar_elements()),
    {
        // The info mode auto-returns to the view after a few seconds without
        // any button press (any press resets the countdown in `button`).
        if self.mode.is_info() {
            match self.info_until {
                Some(until) => {
                    if ctx.time.secs >= until {
                        self.mode = CalendarMode::View;
                        self.info_until = None;
                    }
                },
                None => {},
            }
        }
        match self.mode {
            CalendarMode::View => self.draw_view(ctx, hw),
            CalendarMode::Edit(_) => self.draw_edit(&ctx.time, hw),
            CalendarMode::InfoYr | CalendarMode::InfoMo => self.draw_info(ctx, hw),
        }
    }

    fn background_tick<H: Hardware>(&mut self, _ctx: &FaceContext, _hw: &mut H) -> (activate: bool) {
        false
    }

    fn button<H: Hardware>(&mut self, event: GestureEvent, ctx: &FaceContext, hw: &mut H) -> (consumed: bool)
        ensures
            final(hw).segments() == old(hw).segments(),
            final(hw).effects() == (if old(self).leaves_settings(event) {
                old(hw).effects().push(Effect::SetRtc(old(self).written_epoch_ms() as u64))
            } else {
                old(hw).effects()
            }),
    {
        if self.mode.is_info() {
            // In the info mode any press just keeps it alive; a chord is the
            // only way to move on (see `chord`).
            self.info_until = Some(ctx.time.secs + INFO_SECS);
            return true;
        }
        match self.mode {
            CalendarMode::Edit(field) => match event.button {
                ButtonId::Alarm => {
                    let at = ctx.time.secs * 1000 + ctx.time.ms as u64;
                    self.alarm_edit(event.kind, at);
                    true
                },
                ButtonId::Light => {
                    self.light_edit(field, event.kind, hw);
                    true
                },
                ButtonId::Mode => false,
            },
            _ => match event.button {
                // A press enters the settings (no hold needed). The time
                // fields start from the current wall clock; a date that was
                // never configured starts from today.
                ButtonId::Light => {
                    if event.kind == GestureKind::Press {
                        self.seed_if_needed(&ctx.time);
                        self.seed_time(&ctx.time);
                        self.mode = CalendarMode::Edit(CalendarField::Year);
                    }
                    true
                },
                // The Alarm button is not consumed: the runtime toggles the
                // global 12/24-hour format (which the calendar does not show).
                _ => false,
            },
        }
    }

    fn chord<H: Hardware>(&mut self, event: ChordEvent, ctx: &FaceContext, hw: &mut H) -> (consumed: bool)
        ensures
            final(hw).segments() == old(hw).segments(),
            final(hw).effects() == (if event.is_alarm_light() && old(self).spec_mode() is Edit {
                old(hw).effects().push(Effect::SetRtc(old(self).written_epoch_ms() as u64))
            } else {
                old(hw).effects()
            }),
    {
        // Only the Alarm + Light combination does anything here (in either
        // press order).
        if !is_alarm_light(event) {
            return false;
        }
        // A chord from the middle of an edit writes the clock: the wall clock
        // then jumps to the written date + time, so the info countdown must be
        // measured from that new time.
        let from = match self.mode {
            CalendarMode::Edit(_) => {
                let epoch = self.apply_clock(hw);
                epoch / 1000
            },
            _ => ctx.time.secs,
        };
        self.mode = match self.mode {
            CalendarMode::View => CalendarMode::InfoYr,
            CalendarMode::Edit(_) => CalendarMode::InfoYr,
            CalendarMode::InfoYr => CalendarMode::InfoMo,
            CalendarMode::InfoMo => CalendarMode::View,
        };
        self.info_until = if self.mode.is_info() {
            Some(from + INFO_SECS)
        } else {
            None
        };
        true
    }

    fn alarm_action(&self) -> (action: AlarmAction) {
        AlarmAction::H24Toggle
    }
}


/// The perpetual calendar's year stays in 2000..=2099 while it is stepped,
/// and the configured date stays a real date.
pub proof fn lemma_year_wraps(c: Calendar, steps: int)
    requires
        c.inv(),
        c.spec_mode() == CalendarMode::Edit(CalendarField::Year),
        0 <= steps,
    ensures
        2000 <= c.stepped(steps).spec_date().0 <= 2099,
        valid_date(c.stepped(steps).spec_date().0, c.stepped(steps).spec_date().1, c.stepped(steps).spec_date().2),
{
}

/// Stepping any edited field keeps the calendar consistent: the date stays a
/// real date (the year in 2000..=2099 once the year itself is stepped), the
/// time a real time of day; stepping another field keeps the year (and the
/// month, unless the month is stepped; the whole date when a time field is
/// stepped).
pub proof fn lemma_stepping_stays_in_bounds(c: Calendar, steps: int)
    requires
        c.inv(),
        c.spec_mode() is Edit,
        0 <= steps,
    ensures
        c.stepped(steps).inv(),
        c.stepped(steps).spec_mode() == c.spec_mode(),
        c.spec_mode() != CalendarMode::Edit(CalendarField::Year) ==> c.stepped(steps).spec_date().0
            == c.spec_date().0,
        c.spec_mode() != CalendarMode::Edit(CalendarField::Year) && c.spec_mode() != CalendarMode::Edit(
            CalendarField::Month,
        ) ==> c.stepped(steps).spec_date().1 == c.spec_date().1,
        c.spec_mode() is Edit && !(c.spec_mode() == CalendarMode::Edit(CalendarField::Year) || c.spec_mode()
            == CalendarMode::Edit(CalendarField::Month) || c.spec_mode() == CalendarMode::Edit(CalendarField::Day))
            ==> c.stepped(steps).spec_date() == c.spec_date(),
{
}

/// What leaving the settings writes to the wall clock reads back as the
/// configured date and time: the clock then shows the edited date, with the
/// weekday the calendar computed for it.
pub proof fn lemma_written_clock_reads_back(c: Calendar, t: DateTime)
    requires
        c.inv(),
        c.spec_mode() is Edit,
        t.of_epoch_ms(c.written_epoch_ms()),
    ensures
        t.year == c.spec_date().0,
        t.month.spec_number() == c.spec_date().1,
        t.day == c.spec_date().2,
        t.hour == c.spec_clock().0,
        t.minute == c.spec_clock().1,
        t.second == c.spec_clock().2,
        t.weekday.spec_index() == weekday_of_days(days_from_civil(c.spec_date().0, c.spec_date().1, c.spec_date().2)),
{
    let (y, m, d) = c.spec_date();
    let (h, mi, s) = c.spec_clock();
    lemma_days_from_civil_nonneg(y, m, d);
    lemma_epoch_ms_round_trip(y, m, d, h, mi, s);
}


/// In the settings an Alarm press steps the edited field by one and keeps
/// the others: the year cycles through 2000..=2099, the month wraps after
/// December, the day wraps after the last day of its month (a day before it
/// steps to the next day), the hour wraps at 24 and the minute and second
/// at 60; a changed year or month keeps the day unless the new month is
/// shorter, which folds it to that month's last day.
pub proof fn lemma_settings_press_steps_one_field(c: Calendar, ctx: FaceContext)
    requires
        c.inv(),
        c.spec_mode() is Edit,
    ensures
        ({
            let (y, m, d) = c.spec_date();
            let (h, mi, s) = c.spec_clock();
            let (e, consumed) = c.after_button(GestureEvent { button: ButtonId::Alarm, kind: GestureKind::Press }, ctx);
            let field = c.spec_mode()->Edit_0;
            &&& consumed
            &&& e.spec_mode() == c.spec_mode()
            &&& field == CalendarField::Year ==> {
                let y2 = (y % 100 + 1) % 100 + 2000;
                &&& e.spec_date() == (y2, m, if d <= month_days(y2, m) { d } else { month_days(y2, m) })
                &&& e.spec_clock() == c.spec_clock()
            }
            &&& field == CalendarField::Month ==> {
                let m2 = m % 12 + 1;
                &&& e.spec_date() == (y, m2, if d <= month_days(y, m2) { d } else { month_days(y, m2) })
                &&& e.spec_clock() == c.spec_clock()
            }
            &&& field == CalendarField::Day ==> {
                &&& e.spec_date() == (y, m, if d < month_days(y, m) { d + 1 } else { 1 })
                &&& e.spec_clock() == c.spec_clock()
            }
            &&& field == CalendarField::Hour ==> e.spec_date() == c.spec_date() && e.spec_clock() == ((h + 1) % 24, mi, s)
            &&& field == CalendarField::Minute ==> e.spec_date() == c.spec_date() && e.spec_clock() == (h, (mi + 1) % 60, s)
            &&& field == CalendarField::Second ==> e.spec_date() == c.spec_date() && e.spec_clock() == (h, mi, (s + 1) % 60)
        }),
{
    let (y, m, d) = c.spec_date();
    let md = month_days(y, m);
    assert(1 <= d <= md);
    if d < md {
        vstd::arithmetic::div_mod::lemma_small_mod(d as nat, md as nat);
    } else {
        vstd::arithmetic::div_mod::lemma_mod_self_0(md);
    }
}

} // verus!
