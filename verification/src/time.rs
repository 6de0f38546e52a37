//! Wall-clock date/time, computed from milliseconds since the Unix epoch.
//!
//! The calendar is the proleptic Gregorian one. A civil date is numbered by
//! [`days_from_civil`]: the days since 1970-01-01, counted with March as the
//! first month of the year so that the leap day is the last day of a year.
use vstd::prelude::*;

verus! {

/// Day of the week.
#[derive(Clone, Copy, Debug, PartialEq, Eq, Structural)]
pub enum Weekday {
    Sunday,
    Monday,
    Tuesday,
    Wednesday,
    Thursday,
    Friday,
    Saturday,
}

impl Weekday {
    /// `0 = Sunday .. 6 = Saturday`.
    pub open spec fn spec_index(self) -> int {
        match self {
            Weekday::Sunday => 0,
            Weekday::Monday => 1,
            Weekday::Tuesday => 2,
            Weekday::Wednesday => 3,
            Weekday::Thursday => 4,
            Weekday::Friday => 5,
            Weekday::Saturday => 6,
        }
    }

    /// The day's number, `0 = Sunday .. 6 = Saturday`.
    pub fn index(self) -> (i: u8)
        ensures
            i == self.spec_index(),
    {
        match self {
            Weekday::Sunday => 0,
            Weekday::Monday => 1,
            Weekday::Tuesday => 2,
            Weekday::Wednesday => 3,
            Weekday::Thursday => 4,
            Weekday::Friday => 5,
            Weekday::Saturday => 6,
        }
    }

    /// Convert `0 = Sunday .. 6 = Saturday` into a [`Weekday`]; larger
    /// numbers wrap around the week.
    pub fn from_index(i: u8) -> (w: Weekday)
        ensures
            w.spec_index() == i % 7,
    {
        match i % 7 {
            0 => Weekday::Sunday,
            1 => Weekday::Monday,
            2 => Weekday::Tuesday,
            3 => Weekday::Wednesday,
            4 => Weekday::Thursday,
            5 => Weekday::Friday,
            _ => Weekday::Saturday,
        }
    }
}

/// Month of the year.
#[derive(Clone, Copy, Debug, PartialEq, Eq, Structural)]
pub enum Month {
    January,
    February,
    March,
    April,
    May,
    June,
    July,
    August,
    September,
    October,
    November,
    December,
}

impl Month {
    /// `1 = January .. 12 = December`.
    pub open spec fn spec_number(self) -> int {
        match self {
            Month::January => 1,
            Month::February => 2,
            Month::March => 3,
            Month::April => 4,
            Month::May => 5,
            Month::June => 6,
            Month::July => 7,
            Month::August => 8,
            Month::September => 9,
            Month::October => 10,
            Month::November => 11,
            Month::December => 12,
        }
    }

    /// The month's number, `1 = January .. 12 = December`.
    pub fn number(self) -> (n: u8)
        ensures
            n == self.spec_number(),
    {
        match self {
            Month::January => 1,
            Month::February => 2,
            Month::March => 3,
            Month::April => 4,
            Month::May => 5,
            Month::June => 6,
            Month::July => 7,
            Month::August => 8,
            Month::September => 9,
            Month::October => 10,
            Month::November => 11,
            Month::December => 12,
        }
    }

    /// Convert a `1..=12` month number into a [`Month`]; any other number
    /// gives December.
    pub fn from_u8(m: u8) -> (month: Month)
        ensures
            1 <= m <= 12 ==> month.spec_number() == m,
            !(1 <= m <= 12) ==> month == Month::December,
    {
        match m {
            1 => Month::January,
            2 => Month::February,
            3 => Month::March,
            4 => Month::April,
            5 => Month::May,
            6 => Month::June,
            7 => Month::July,
            8 => Month::August,
            9 => Month::September,
            10 => Month::October,
            11 => Month::November,
            _ => Month::December,
        }
    }
}

/// Civil date and time, plus the epoch seconds it was derived from.
#[derive(Clone, Copy, Debug, PartialEq, Eq, Structural)]
pub struct DateTime {
    /// Seconds since the Unix epoch (UTC) this civil time corresponds to.
    pub secs: u64,
    /// Milliseconds within the current second (0..1000), for sub-second
    /// animations (blinking) that are faster than once per second.
    pub ms: u16,
    pub year: u16,
    pub month: Month,
    pub day: u8,
    pub weekday: Weekday,
    pub hour: u8,
    pub minute: u8,
    pub second: u8,
}

/// `year` is a Gregorian leap year.
pub open spec fn is_leap(year: int) -> bool {
    (year % 4 == 0 && year % 100 != 0) || year % 400 == 0
}

/// Number of days of month `month` (1-12) of `year`; every number other
/// than 2, 4, 6, 9 and 11 counts as a 31-day month.
pub open spec fn month_days(year: int, month: int) -> int {
    if month == 2 {
        if is_leap(year) { 29 } else { 28 }
    } else if month == 4 || month == 6 || month == 9 || month == 11 {
        30
    } else {
        31
    }
}

/// Number of days of `year`.
pub open spec fn year_days(year: int) -> int {
    if is_leap(year) { 366 } else { 365 }
}

/// `(year, month, day)` is a real calendar date.
pub open spec fn valid_date(year: int, month: int, day: int) -> bool {
    1 <= month <= 12 && 1 <= day <= month_days(year, month)
}

/// Days from March 1st to the first day of the `mp`-th month of a year that
/// starts in March (0 = March, ..., 10 = January, 11 = February).
pub open spec fn days_before_march_month(mp: int) -> int {
    if mp == 0 {
        0
    } else if mp == 1 {
        31
    } else if mp == 2 {
        61
    } else if mp == 3 {
        92
    } else if mp == 4 {
        122
    } else if mp == 5 {
        153
    } else if mp == 6 {
        184
    } else if mp == 7 {
        214
    } else if mp == 8 {
        245
    } else if mp == 9 {
        275
    } else if mp == 10 {
        306
    } else {
        337
    }
}

/// Days since 1970-01-01 of day `day` of month `month` of `year`.
///
/// Months are counted in years that start in March: January and February
/// belong to the year that started the March before (`month <= 2`), month
/// `month` is the `(month + 9) % 12`-th of its year. A March-based year `ya`
/// starts `365 * ya + ya / 4 - ya / 100 + ya / 400` days after 0000-03-01,
/// which lies 719 468 days before 1970-01-01.
pub open spec fn days_from_civil(year: int, month: int, day: int) -> int {
    let ya = if month <= 2 { year - 1 } else { year };
    let mp = (month + 9) % 12;
    365 * ya + ya / 4 - ya / 100 + ya / 400 + days_before_march_month(mp) + day - 1 - 719_468
}

/// The civil date `(year, month, day)` whose day number is `days`.
pub open spec fn date_of_days(days: int) -> (int, int, int) {
    choose|ymd: (int, int, int)| valid_date(ymd.0, ymd.1, ymd.2) && days_from_civil(ymd.0, ymd.1, ymd.2) == days
}

/// The day of the week (`0 = Sunday`) of day number `days`: 1970-01-01 was a
/// Thursday.
pub open spec fn weekday_of_days(days: int) -> int {
    (days + 4) % 7
}

/// Milliseconds since the Unix epoch of a civil date and time of day.
pub open spec fn epoch_ms(year: int, month: int, day: int, hour: int, minute: int, second: int) -> int {
    (days_from_civil(year, month, day) * 86_400 + hour * 3600 + minute * 60 + second) * 1000
}

impl DateTime {
    /// The date and time `ms` milliseconds after the Unix epoch.
    pub open spec fn of_epoch_ms(self, ms: int) -> bool {
        let secs = ms / 1000;
        let days = secs / 86_400;
        let tod = secs % 86_400;
        let (y, m, d) = date_of_days(days);
        &&& self.secs == secs
        &&& self.ms == ms % 1000
        &&& self.year == y as u16
        &&& self.month.spec_number() == m
        &&& self.day == d
        &&& self.weekday.spec_index() == weekday_of_days(days)
        &&& self.hour == tod / 3600
        &&& self.minute == (tod % 3600) / 60
        &&& self.second == tod % 60
    }

    /// The time of day, in seconds since midnight.
    pub open spec fn seconds_of_day(self) -> int {
        self.hour * 3600 + self.minute * 60 + self.second
    }

    /// Milliseconds since the epoch, the resolution of gesture timing.
    pub open spec fn epoch_ms(self) -> int {
        self.secs * 1000 + self.ms
    }

    /// Convert milliseconds since the Unix epoch (UTC) into a [`DateTime`].
    ///
    /// The days since the epoch are turned into a civil date with Howard
    /// Hinnant's `civil_from_days`. The year is kept modulo 65 536.
    pub fn from_epoch_ms(ms: u64) -> (t: DateTime)
        ensures
            t.of_epoch_ms(ms as int),
    {
        let seconds = ms / 1000;
        let days = (seconds / 86_400) as i64;
        let tod = seconds % 86_400;
        let hour = (tod / 3600) as u8;
        let minute = ((tod % 3600) / 60) as u8;
        let second = (tod % 60) as u8;

        let (year, month, day) = Self::civil_from_days(days);
        proof {
            lemma_date_of_days(days as int, year as int, month as int, day as int);
        }
        DateTime {
            secs: seconds,
            ms: (ms % 1000) as u16,
            year: year as u16,
            month: Month::from_u8(month),
            day,
            // 1970-01-01 was a Thursday (4 in the 0=Sunday..6=Saturday scheme).
            weekday: Weekday::from_index(((days + 4) % 7) as u8),
            hour,
            minute,
            second,
        }
    }

    /// Howard Hinnant's `civil_from_days`: the civil date of day number `z`.
    fn civil_from_days(z: i64) -> (ymd: (i64, u8, u8))
        requires
            0 <= z <= 0x10_0000_0000_0000,
        ensures
            valid_date(ymd.0 as int, ymd.1 as int, ymd.2 as int),
            days_from_civil(ymd.0 as int, ymd.1 as int, ymd.2 as int) == z,
    {
        let z = z + 719_468;
        let era = if z >= 0 { z } else { z - 146_096 } / 146_097;
        let doe = z - era * 146_097;
        proof {
            lemma_year_of_era(doe as int);
        }
        let yoe = (doe - doe / 1460 + doe / 36_524 - doe / 146_096) / 365;
        let y = yoe + era * 400;
        let doy = doe - (365 * yoe + yoe / 4 - yoe / 100);
        let mp = (5 * doy + 2) / 153;
        proof {
            lemma_month_of_year(doy as int);
        }
        let d = (doy - (153 * mp + 2) / 5 + 1) as u8;
        let m = if mp < 10 { mp + 3 } else { mp - 9 } as u8;
        let y = if m <= 2 { y + 1 } else { y };
        proof {
            lemma_civil_result(
                z as int - 719_468,
                era as int,
                doe as int,
                yoe as int,
                doy as int,
                mp as int,
                m as int,
                d as int,
                y as int,
            );
        }
        (y, m, d)
    }
}

/// True if `year` is a Gregorian leap year (divisible by 4, except for
/// centuries which must be divisible by 400).
pub fn is_leap_year(year: u16) -> (b: bool)
    ensures
        b == is_leap(year as int),
{
    (year % 4 == 0 && year % 100 != 0) || year % 400 == 0
}

/// Number of days in `month` (1-12) of `year`.
pub fn days_in_month(year: u16, month: u8) -> (n: u8)
    ensures
        n == month_days(year as int, month as int),
{
    match month {
        2 => {
            if is_leap_year(year) {
                29
            } else {
                28
            }
        },
        4 | 6 | 9 | 11 => 30,
        _ => 31,
    }
}

/// Number of days in `year` (365 for a common year, 366 for a leap year).
pub fn days_in_year(year: u16) -> (n: u16)
    ensures
        n == year_days(year as int),
{
    if is_leap_year(year) {
        366
    } else {
        365
    }
}

/// Milliseconds since the Unix epoch (UTC) of a civil date and time, the
/// inverse of [`DateTime::from_epoch_ms`]. Used to write the wall clock back
/// when a time-setting face (the calendar's settings screen) exits. The date
/// must not lie before the epoch.
pub fn epoch_ms_of(year: u16, month: u8, day: u8, hour: u8, minute: u8, second: u8) -> (ms: u64)
    requires
        days_from_civil(year as int, month as int, day as int) >= 0,
    ensures
        ms == epoch_ms(year as int, month as int, day as int, hour as int, minute as int, second as int),
{
    let days = days_from_civil_exec(year as i64, month, day);
    (days as u64 * 86_400 + hour as u64 * 3600 + minute as u64 * 60 + second as u64) * 1000
}

/// Day of the week of a civil date (the weekday [`DateTime::from_epoch_ms`]
/// derives for the same day). `month` is 1-12, `day` 1-31.
pub fn weekday_of(year: u16, month: u8, day: u8) -> (w: Weekday)
    ensures
        w.spec_index() == weekday_of_days(days_from_civil(year as int, month as int, day as int)),
{
    let days = days_from_civil_exec(year as i64, month, day);
    // 1970-01-01 was a Thursday (4 in the 0=Sunday..6=Saturday scheme).
    let r = (days + 4) % 7;
    let r = if r < 0 { r + 7 } else { r };
    Weekday::from_index(r as u8)
}

/// Howard Hinnant's `days_from_civil`: days since the Unix epoch
/// (1970-01-01) of a civil date, the inverse of `civil_from_days`.
fn days_from_civil_exec(y: i64, m: u8, d: u8) -> (days: i64)
    requires
        0 <= y <= 65535,
    ensures
        days == days_from_civil(y as int, m as int, d as int),
{
    let y = if m <= 2 { y - 1 } else { y };
    let era = if y >= 0 { y } else { y - 399 } / 400;
    let yoe = y - era * 400;
    let mp = (m as i64 + 9) % 12;  // March = 0 .. February = 11
    let doy = (153 * mp + 2) / 5 + d as i64 - 1;
    let doe = yoe * 365 + yoe / 4 - yoe / 100 + doy;
    proof {
        lemma_era_days(era as int, yoe as int);
        lemma_march_offsets(mp as int);
    }
    era * 146_097 + doe - 719_468
}

/// Days of the first `yoe` March-based years of a 400-year era.
pub open spec fn era_year_start(yoe: int) -> int {
    365 * yoe + yoe / 4 - yoe / 100
}

/// The March-based year `yoe` of an era ends with a leap day (its February
/// belongs to a leap year).
pub open spec fn year_has_leap_day(yoe: int) -> bool {
    (yoe + 1) % 4 == 0 && ((yoe + 1) % 100 != 0 || yoe + 1 == 400)
}

/// The year-of-era formula of `civil_from_days` finds the March-based year
/// that contains day `doe` of a 400-year era.
#[verifier::rlimit(60)]
proof fn lemma_year_of_era(doe: int)
    requires
        0 <= doe <= 146_096,
    ensures
        ({
            let yoe = (doe - doe / 1460 + doe / 36_524 - doe / 146_096) / 365;
            &&& 0 <= yoe <= 399
            &&& era_year_start(yoe) <= doe
            &&& doe - era_year_start(yoe) < 365 + (if year_has_leap_day(yoe) { 1int } else { 0 })
        }),
{
}

/// The `days_before_march_month` table is Hinnant's `(153 * mp + 2) / 5`.
proof fn lemma_march_offsets(mp: int)
    requires
        0 <= mp < 12,
    ensures
        days_before_march_month(mp) == (153 * mp + 2) / 5,
{
}

/// A day `doy` of a March-based year lies in month `mp = (5 * doy + 2) / 153`,
/// `doy - days_before_march_month(mp)` days after its start.
proof fn lemma_month_of_year(doy: int)
    requires
        0 <= doy <= 365,
    ensures
        ({
            let mp = (5 * doy + 2) / 153;
            &&& 0 <= mp <= 11
            &&& days_before_march_month(mp) == (153 * mp + 2) / 5
            &&& days_before_march_month(mp) <= doy
            &&& mp < 11 ==> doy < days_before_march_month(mp + 1)
        }),
{
    let mp = (5 * doy + 2) / 153;
    lemma_march_offsets(mp);
}

/// Year `yoe + 400 * era + 1` is a leap year exactly when the March-based
/// year `yoe` of the era ends with a leap day.
proof fn lemma_leap_of_era_year(era: int, yoe: int)
    requires
        0 <= era,
        0 <= yoe < 400,
    ensures
        is_leap(yoe + 400 * era + 1) == year_has_leap_day(yoe),
{
}

/// The values computed by `civil_from_days` for day number `z` form a real
/// calendar date with that day number.
proof fn lemma_civil_result(z: int, era: int, doe: int, yoe: int, doy: int, mp: int, m: int, d: int, y: int)
    requires
        0 <= z,
        era == (z + 719_468) / 146_097,
        doe == z + 719_468 - era * 146_097,
        0 <= yoe <= 399,
        era_year_start(yoe) <= doe,
        doe - era_year_start(yoe) < 365 + (if year_has_leap_day(yoe) { 1int } else { 0 }),
        doy == doe - era_year_start(yoe),
        0 <= mp <= 11,
        days_before_march_month(mp) == (153 * mp + 2) / 5,
        days_before_march_month(mp) <= doy,
        mp < 11 ==> doy < days_before_march_month(mp + 1),
        d == doy - (153 * mp + 2) / 5 + 1,
        m == (if mp < 10 { mp + 3 } else { mp - 9 }),
        y == (if m <= 2 { yoe + era * 400 + 1 } else { yoe + era * 400 }),
    ensures
        valid_date(y, m, d),
        days_from_civil(y, m, d) == z,
{
    lemma_era_days(era, yoe);
    lemma_leap_of_era_year(era, yoe);
    assert((m + 9) % 12 == mp);
}

/// An era of 400 March-based years starting at year `400 * era` and the
/// year-of-era count add up to the March-based year count of the formula.
proof fn lemma_era_days(era: int, yoe: int)
    requires
        0 <= yoe < 400,
    ensures
        ({
            let ya = yoe + 400 * era;
            365 * ya + ya / 4 - ya / 100 + ya / 400 == 146_097 * era + era_year_start(yoe)
        }),
{
    let ya = yoe + 400 * era;
    assert(ya / 4 == 100 * era + yoe / 4);
    assert(ya / 100 == 4 * era + yoe / 100);
    assert(ya / 400 == era);
}

/// The civil date found by `civil_from_days` is the one [`date_of_days`]
/// names.
proof fn lemma_date_of_days(days: int, y: int, m: int, d: int)
    requires
        valid_date(y, m, d),
        days_from_civil(y, m, d) == days,
    ensures
        date_of_days(days) == (y, m, d),
{
    let w = (y, m, d);
    assert(valid_date(w.0, w.1, w.2) && days_from_civil(w.0, w.1, w.2) == days);
    let ymd = date_of_days(days);
    lemma_days_from_civil_injective(ymd.0, ymd.1, ymd.2, y, m, d);
}

/// Two real calendar dates with the same day number are the same date.
pub proof fn lemma_days_from_civil_injective(y1: int, m1: int, d1: int, y2: int, m2: int, d2: int)
    requires
        valid_date(y1, m1, d1),
        valid_date(y2, m2, d2),
        days_from_civil(y1, m1, d1) == days_from_civil(y2, m2, d2),
    ensures
        y1 == y2 && m1 == m2 && d1 == d2,
{
}


/// The day after a real calendar date.
pub open spec fn next_date(year: int, month: int, day: int) -> (int, int, int) {
    if day < month_days(year, month) {
        (year, month, day + 1)
    } else if month < 12 {
        (year, month + 1, 1)
    } else {
        (year + 1, 1, 1)
    }
}

/// Counting the multiples of `k` up to `x`: one more than up to `x - 1`
/// exactly when `x` is one.
proof fn lemma_div_step(x: int, k: int)
    requires
        k == 4 || k == 100 || k == 400,
    ensures
        x / k - (x - 1) / k == (if x % k == 0 { 1int } else { 0 }),
{
    let q = x / k;
    let r = x % k;
    assert(x == k * q + r && 0 <= r < k);
    if r == 0 {
        assert((x - 1) == k * (q - 1) + (k - 1));
        assert((x - 1) / k == q - 1);
    } else {
        assert((x - 1) == k * q + (r - 1));
        assert((x - 1) / k == q);
    }
}

/// The leap-day corrections of the day count grow by one from the year
/// before `year` to `year` exactly when `year` is a leap year.
proof fn lemma_leap_step(year: int)
    ensures
        (year / 4 - (year - 1) / 4) - (year / 100 - (year - 1) / 100) + (year / 400 - (year - 1) / 400) == (if is_leap(
            year,
        ) {
            1int
        } else {
            0
        }),
{
    lemma_div_step(year, 4);
    lemma_div_step(year, 100);
    lemma_div_step(year, 400);
    lemma_divides_down(year);
}

/// A multiple of 400 is a multiple of 100, and a multiple of 100 one of 4.
proof fn lemma_divides_down(x: int)
    ensures
        x % 400 == 0 ==> x % 100 == 0,
        x % 100 == 0 ==> x % 4 == 0,
{
    if x % 400 == 0 {
        let q = x / 400;
        assert(x == (4 * q) * 100);
        vstd::arithmetic::div_mod::lemma_mod_multiples_basic(4 * q, 100);
    }
    if x % 100 == 0 {
        let q = x / 100;
        assert(x == (25 * q) * 4);
        vstd::arithmetic::div_mod::lemma_mod_multiples_basic(25 * q, 4);
    }
}

/// The day numbering counts days: the day after a real date is the next
/// real date, and it is numbered one higher.
pub proof fn lemma_next_day(year: int, month: int, day: int)
    requires
        valid_date(year, month, day),
    ensures
        ({
            let (y, m, d) = next_date(year, month, day);
            valid_date(y, m, d) && days_from_civil(y, m, d) == days_from_civil(year, month, day) + 1
        }),
{
    if day < month_days(year, month) {
    } else if month == 2 {
        lemma_leap_step(year);
    } else if month < 12 {
        assert((month + 9) % 12 + 1 == (month + 1 + 9) % 12);
    } else {
    }
}

/// A year lasts [`year_days`] days: from its January 1st to the next one.
pub proof fn lemma_year_length(year: int)
    ensures
        days_from_civil(year + 1, 1, 1) - days_from_civil(year, 1, 1) == year_days(year),
{
    lemma_leap_step(year);
}

/// [`epoch_ms_of`] and [`DateTime::from_epoch_ms`] are inverse: converting a
/// real date and time of day (not before the epoch) to epoch milliseconds
/// and back gives the same fields, and the weekday [`weekday_of`] names.
pub proof fn lemma_epoch_ms_round_trip(year: int, month: int, day: int, hour: int, minute: int, second: int)
    requires
        valid_date(year, month, day),
        days_from_civil(year, month, day) >= 0,
        0 <= hour < 24,
        0 <= minute < 60,
        0 <= second < 60,
    ensures
        forall|t: DateTime|
            #[trigger] t.of_epoch_ms(epoch_ms(year, month, day, hour, minute, second)) ==> {
                &&& t.year == year as u16
                &&& t.month.spec_number() == month
                &&& t.day == day
                &&& t.weekday.spec_index() == weekday_of_days(days_from_civil(year, month, day))
                &&& t.hour == hour
                &&& t.minute == minute
                &&& t.second == second
                &&& t.ms == 0
            },
{
    let days = days_from_civil(year, month, day);
    let ms = epoch_ms(year, month, day, hour, minute, second);
    let secs = days * 86_400 + hour * 3600 + minute * 60 + second;
    assert(ms / 1000 == secs && ms % 1000 == 0);
    assert(secs / 86_400 == days && secs % 86_400 == hour * 3600 + minute * 60 + second);
    lemma_date_of_days(days, year, month, day);
}


/// Real dates from 1970-01-01 on have non-negative day numbers.
pub proof fn lemma_days_from_civil_nonneg(year: int, month: int, day: int)
    requires
        valid_date(year, month, day),
        year >= 1970,
    ensures
        days_from_civil(year, month, day) >= 0,
{
}

/// Every day number from the epoch on has a real calendar date, the one
/// [`date_of_days`] names; before the day number 3 000 000 (in the year
/// 10 183) its year fits a `u16`.
pub proof fn lemma_date_of_days_valid(days: int)
    requires
        0 <= days,
    ensures
        ({
            let (y, m, d) = date_of_days(days);
            &&& valid_date(y, m, d)
            &&& days_from_civil(y, m, d) == days
            &&& days < 3_000_000 ==> 0 <= y < 65_536
        }),
{
    let z = days + 719_468;
    let era = z / 146_097;
    let doe = z - era * 146_097;
    lemma_year_of_era(doe);
    let yoe = (doe - doe / 1460 + doe / 36_524 - doe / 146_096) / 365;
    let doy = doe - (365 * yoe + yoe / 4 - yoe / 100);
    assert(era_year_start(yoe) == 365 * yoe + yoe / 4 - yoe / 100);
    lemma_month_of_year(doy);
    let mp = (5 * doy + 2) / 153;
    let d = doy - (153 * mp + 2) / 5 + 1;
    let m = if mp < 10 { mp + 3 } else { mp - 9 };
    let y = if m <= 2 { yoe + era * 400 + 1 } else { yoe + era * 400 };
    lemma_civil_result(days, era, doe, yoe, doy, mp, m, d, y);
    lemma_date_of_days(days, y, m, d);
    if days < 3_000_000 {
        assert(era <= 25);
    }
}

/// [`DateTime::from_epoch_ms`] decodes every instant before the year 10 000
/// into a real calendar date that encodes back, by [`epoch_ms`], to the same
/// instant rounded down to the second.
pub proof fn lemma_epoch_ms_decodes(t: DateTime, ms: int)
    requires
        0 <= ms < 253_402_300_800_000,
        t.of_epoch_ms(ms),
    ensures
        valid_date(t.year as int, t.month.spec_number(), t.day as int),
        epoch_ms(t.year as int, t.month.spec_number(), t.day as int, t.hour as int, t.minute as int, t.second as int)
            == ms - ms % 1000,
{
    let secs = ms / 1000;
    let days = secs / 86_400;
    lemma_date_of_days_valid(days);
    assert(days < 3_000_000);
}

} // verus!
