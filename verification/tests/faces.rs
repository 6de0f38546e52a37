use pluto::face::{AlarmAction, ButtonId, ChordEvent, Face, FaceContext, GestureEvent};
use pluto::faces::{Alarm, AlarmDay, Calendar, SimpleAlarm, SimpleClock, Timer};
use pluto::font::{DIGIT_SEGS, FONT};
use pluto::letters::{LETTER_POS_SEGS, LETTER_SEGS};
use pluto::recorder::{Recorder, Request};
use pluto::time::{epoch_ms_of, DateTime};

fn at(year: u16, month: u8, day: u8, hour: u8, minute: u8, second: u8) -> DateTime {
    DateTime::from_epoch_ms(epoch_ms_of(year, month, day, hour, minute, second))
}

fn ctx(time: DateTime) -> FaceContext {
    FaceContext::new(time, true, false)
}

/// Whether the glass shows the segment pattern `mask` at digit position
/// `pos` (a wire shared by two segments is lit if either is).
fn shows_mask(hw: &Recorder, pos: usize, mask: u8) -> bool {
    (0..7).all(|i| {
        let [com, seg] = FONT[pos][i];
        if com < 0 || seg < 0 {
            return true;
        }
        let want = (0..7).any(|j| FONT[pos][j] == FONT[pos][i] && mask & (1 << j) != 0);
        hw.is_lit(com as u8, seg as u8) == want
    })
}

/// The digit shown at position `pos`: `Some(d)`, `Some(10)` for a blank, or
/// `None`.
fn digit_at(hw: &Recorder, pos: usize) -> Option<u8> {
    if shows_mask(hw, pos, 0) {
        return Some(10);
    }
    (0..10u8).find(|d| shows_mask(hw, pos, DIGIT_SEGS[*d as usize]))
}

/// The number shown by positions `from..to`, blanks read as nothing.
fn number_at(hw: &Recorder, from: usize, to: usize) -> u32 {
    let mut n = 0;
    for pos in from..to {
        match digit_at(hw, pos) {
            Some(10) => {},
            Some(d) => n = n * 10 + d as u32,
            None => panic!("position {} shows no digit", pos),
        }
    }
    n
}

/// Whether letter position `pos` shows `ch`.
fn shows_char(hw: &Recorder, pos: usize, ch: u8) -> bool {
    let mask = LETTER_SEGS[(ch - 32) as usize][pos];
    (0..8).all(|i| {
        let [com, seg] = LETTER_POS_SEGS[pos][i];
        com < 0 || seg < 0 || hw.is_lit(com as u8, seg as u8) == (mask & (1 << i) != 0)
    })
}

fn press(face: &mut impl Face, button: ButtonId, c: &FaceContext, hw: &mut Recorder) -> bool {
    face.button(GestureEvent::press(button), c, hw)
}

#[test]
fn clock_shows_weekday_date_and_time() {
    let t = at(2024, 2, 29, 12, 34, 56);
    let mut hw = Recorder::new();
    let mut clock = SimpleClock::new();
    clock.tick(&ctx(t), &mut hw);
    assert!(shows_char(&hw, 0, b'T') && shows_char(&hw, 1, b'H'));
    assert_eq!(number_at(&hw, 2, 4), 29);
    assert_eq!(number_at(&hw, 4, 10), 123456);
    // 12-hour format: 13:05 shows as 1:05 with PM.
    let t = at(2024, 3, 1, 13, 5, 0);
    let mut hw = Recorder::new();
    clock.tick(&FaceContext::new(t, false, false), &mut hw);
    assert_eq!(digit_at(&hw, 4), Some(10));
    assert_eq!(number_at(&hw, 4, 10), 10500);
    assert!(hw.is_lit(2, 17)); // PM
    assert!(!hw.is_lit(2, 16)); // 24H
}

#[test]
fn clock_beeps_on_alarm_and_leaves_the_format_to_the_runtime() {
    let t = at(2024, 2, 29, 12, 34, 56);
    let mut hw = Recorder::new();
    let mut clock = SimpleClock::new();
    assert!(!press(&mut clock, ButtonId::Alarm, &ctx(t), &mut hw));
    assert_eq!(hw.requests().to_vec(), vec![Request::Beep(60)]);
    assert_eq!(clock.alarm_action(), AlarmAction::H24Toggle);
}

#[test]
fn simple_alarm_fires_once_at_its_time() {
    let mut hw = Recorder::new();
    let mut alarm = SimpleAlarm::new();
    let before = at(2024, 3, 1, 7, 29, 30);
    // Enter the settings: a fresh alarm starts from the current time, and
    // leaving the settings keeps it; Alarm in the view switches it on.
    assert!(press(&mut alarm, ButtonId::Light, &ctx(before), &mut hw));
    assert!(press(&mut alarm, ButtonId::Light, &ctx(before), &mut hw));
    assert!(press(&mut alarm, ButtonId::Light, &ctx(before), &mut hw));
    assert!(press(&mut alarm, ButtonId::Alarm, &ctx(before), &mut hw));
    assert!(alarm.enabled());
    let (h, m) = alarm.time();
    assert_eq!((h, m), (7, 29));
    let ring = at(2024, 3, 1, 7, 29, 0);
    assert!(alarm.background_tick(&ctx(ring), &mut hw));
    // The same second again (ticks come every 250 ms) does not fire again.
    assert!(!alarm.background_tick(&ctx(ring), &mut hw));
    assert!(!alarm.background_tick(&ctx(at(2024, 3, 1, 7, 29, 1)), &mut hw));
    // The ring plays its melody once per second while it lasts.
    alarm.tick(&ctx(at(2024, 3, 1, 7, 29, 2)), &mut hw);
    assert!(matches!(hw.requests().last(), Some(Request::Melody(notes)) if notes.len() == 3 && notes[1].freq_hz == 0));
    let n = hw.requests().len();
    alarm.tick(&ctx(at(2024, 3, 1, 7, 29, 2)), &mut hw);
    assert_eq!(hw.requests().len(), n);
    // Any button silences it: the melody stops and later ticks stay quiet.
    press(&mut alarm, ButtonId::Mode, &ctx(at(2024, 3, 1, 7, 29, 3)), &mut hw);
    assert_eq!(hw.requests().last(), Some(&Request::StopMelody));
    let n = hw.requests().len();
    alarm.tick(&ctx(at(2024, 3, 1, 7, 29, 4)), &mut hw);
    assert_eq!(hw.requests().len(), n);
}

#[test]
fn timer_counts_down_and_rings() {
    let mut hw = Recorder::new();
    let mut timer = Timer::new();
    assert_eq!(timer.duration_secs(), 60);
    let start = at(2024, 3, 1, 8, 0, 0);
    // Alarm starts the countdown.
    assert!(press(&mut timer, ButtonId::Alarm, &ctx(start), &mut hw));
    assert!(!timer.background_tick(&ctx(at(2024, 3, 1, 8, 0, 30)), &mut hw));
    timer.tick(&ctx(at(2024, 3, 1, 8, 0, 30)), &mut hw);
    assert_eq!(number_at(&hw, 8, 10), 30);
    assert!(timer.background_tick(&ctx(at(2024, 3, 1, 8, 1, 0)), &mut hw));
    // Stopped at zero: no second request.
    assert!(!timer.background_tick(&ctx(at(2024, 3, 1, 8, 1, 1)), &mut hw));
    timer.tick(&ctx(at(2024, 3, 1, 8, 1, 1)), &mut hw);
    assert_eq!(number_at(&hw, 4, 10), 0);
    assert!(matches!(hw.requests().last(), Some(Request::Melody(notes)) if notes.len() == 3 && notes[1].freq_hz == 0));
    // The ring ends after its window: the melody is stopped.
    timer.tick(&ctx(at(2024, 3, 1, 8, 3, 1)), &mut hw);
    assert_eq!(hw.requests().last(), Some(&Request::StopMelody));
    // At 00:00:00 the first Alarm press re-arms the full minute, paused...
    assert!(press(&mut timer, ButtonId::Alarm, &ctx(at(2024, 3, 1, 8, 3, 2)), &mut hw));
    assert!(!timer.background_tick(&ctx(at(2024, 3, 1, 8, 3, 30)), &mut hw));
    timer.tick(&ctx(at(2024, 3, 1, 8, 3, 30)), &mut hw);
    assert_eq!(number_at(&hw, 4, 10), 100);
    // ...and the next one starts it.
    assert!(press(&mut timer, ButtonId::Alarm, &ctx(at(2024, 3, 1, 8, 3, 31)), &mut hw));
    assert!(!timer.background_tick(&ctx(at(2024, 3, 1, 8, 4, 1)), &mut hw));
    timer.tick(&ctx(at(2024, 3, 1, 8, 4, 1)), &mut hw);
    assert_eq!(number_at(&hw, 4, 10), 30);
}

#[test]
fn timer_chord_steps_the_presets() {
    let mut hw = Recorder::new();
    let mut timer = Timer::new();
    let t = at(2024, 3, 1, 8, 0, 0);
    let chord = ChordEvent::new(ButtonId::Alarm, ButtonId::Light);
    assert!(timer.chord(chord, &ctx(t), &mut hw));
    assert_eq!(timer.duration_secs(), 180);
    for _ in 0..9 {
        timer.chord(chord, &ctx(t), &mut hw);
    }
    // Ten presets: back to the first.
    assert_eq!(timer.duration_secs(), 60);
    assert!(!timer.chord(ChordEvent::new(ButtonId::Mode, ButtonId::Light), &ctx(t), &mut hw));
}

#[test]
fn calendar_seeds_and_shows_the_date() {
    let mut hw = Recorder::new();
    let mut cal = Calendar::new();
    let t = at(2024, 2, 29, 12, 34, 56);
    cal.init(&ctx(t), &mut hw);
    cal.tick(&ctx(t), &mut hw);
    // Thursday, the 29th, 2024, month 02.
    assert!(shows_char(&hw, 0, b'T') && shows_char(&hw, 1, b'H'));
    assert_eq!(number_at(&hw, 2, 4), 29);
    assert_eq!(number_at(&hw, 4, 8), 2024);
    assert_eq!(number_at(&hw, 8, 10), 2);
}

#[test]
fn calendar_year_wraps_and_day_is_clamped() {
    let mut hw = Recorder::new();
    let mut cal = Calendar::new();
    let t = at(2024, 2, 29, 12, 34, 56);
    cal.init(&ctx(t), &mut hw);
    // Enter the settings at the year and step it: 2025 has no Feb 29.
    assert!(press(&mut cal, ButtonId::Light, &ctx(t), &mut hw));
    assert!(press(&mut cal, ButtonId::Alarm, &ctx(t), &mut hw));
    // Leave with a hold: the clock is written with the clamped date.
    assert!(cal.button(GestureEvent::hold(ButtonId::Light), &ctx(t), &mut hw));
    assert_eq!(
        hw.requests().last(),
        Some(&Request::SetRtc(epoch_ms_of(2025, 2, 28, 12, 34, 56)))
    );
    // Stepping past 2099 wraps to 2000.
    let late = at(2099, 6, 1, 0, 0, 0);
    let mut cal = Calendar::new();
    cal.init(&ctx(late), &mut hw);
    press(&mut cal, ButtonId::Light, &ctx(late), &mut hw);
    press(&mut cal, ButtonId::Alarm, &ctx(late), &mut hw);
    cal.button(GestureEvent::hold(ButtonId::Light), &ctx(late), &mut hw);
    assert_eq!(hw.requests().last(), Some(&Request::SetRtc(epoch_ms_of(2000, 6, 1, 0, 0, 0))));
}

#[test]
fn calendar_settings_walk_all_fields_and_write_the_clock() {
    let mut hw = Recorder::new();
    let mut cal = Calendar::new();
    let t = at(2024, 2, 29, 12, 34, 56);
    cal.init(&ctx(t), &mut hw);
    press(&mut cal, ButtonId::Light, &ctx(t), &mut hw); // year
    press(&mut cal, ButtonId::Light, &ctx(t), &mut hw); // month
    press(&mut cal, ButtonId::Alarm, &ctx(t), &mut hw); // month 3
    press(&mut cal, ButtonId::Light, &ctx(t), &mut hw); // day
    press(&mut cal, ButtonId::Light, &ctx(t), &mut hw); // hour
    cal.button(GestureEvent::hold(ButtonId::Alarm), &ctx(t), &mut hw); // hour 00
    press(&mut cal, ButtonId::Light, &ctx(t), &mut hw); // minute
    cal.button(GestureEvent::double(ButtonId::Alarm), &ctx(t), &mut hw); // minute 38
    press(&mut cal, ButtonId::Light, &ctx(t), &mut hw); // second
    assert!(hw.requests().is_empty());
    press(&mut cal, ButtonId::Light, &ctx(t), &mut hw); // leaves
    assert_eq!(hw.requests().to_vec(), vec![Request::SetRtc(epoch_ms_of(2024, 3, 29, 0, 38, 56))]);
    // Back in the view: Alarm goes to the runtime.
    assert!(!press(&mut cal, ButtonId::Alarm, &ctx(t), &mut hw));
}

#[test]
fn calendar_info_screens() {
    let mut hw = Recorder::new();
    let mut cal = Calendar::new();
    let t = at(2024, 2, 29, 12, 34, 56);
    cal.init(&ctx(t), &mut hw);
    let chord = ChordEvent::new(ButtonId::Light, ButtonId::Alarm);
    assert!(cal.chord(chord, &ctx(t), &mut hw));
    cal.tick(&ctx(t), &mut hw);
    assert!(shows_char(&hw, 0, b'Y') && shows_char(&hw, 1, b'R'));
    assert_eq!(number_at(&hw, 4, 8), 366);
    assert!(cal.chord(chord, &ctx(t), &mut hw));
    cal.tick(&ctx(t), &mut hw);
    assert!(shows_char(&hw, 0, b'M') && shows_char(&hw, 1, b'O'));
    assert_eq!(number_at(&hw, 8, 10), 29);
    // The info mode times out after a few seconds without a press.
    let later = at(2024, 2, 29, 12, 35, 1);
    cal.tick(&ctx(later), &mut hw);
    assert!(shows_char(&hw, 0, b'T') && shows_char(&hw, 1, b'H'));
    // Only Alarm + Light is a calendar chord.
    assert!(!cal.chord(ChordEvent::new(ButtonId::Mode, ButtonId::Alarm), &ctx(t), &mut hw));
}

#[test]
fn calendar_chord_during_edit_writes_the_clock() {
    let mut hw = Recorder::new();
    let mut cal = Calendar::new();
    let t = at(2024, 2, 29, 12, 34, 56);
    cal.init(&ctx(t), &mut hw);
    press(&mut cal, ButtonId::Light, &ctx(t), &mut hw);
    press(&mut cal, ButtonId::Alarm, &ctx(t), &mut hw);
    assert!(cal.chord(ChordEvent::new(ButtonId::Alarm, ButtonId::Light), &ctx(t), &mut hw));
    assert_eq!(hw.requests().to_vec(), vec![Request::SetRtc(epoch_ms_of(2025, 2, 28, 12, 34, 56))]);
}

#[test]
fn weekday_alarm_fires_on_its_day_only() {
    let mut hw = Recorder::new();
    let mut alarm = Alarm::new();
    // 2024-03-03 is a Sunday, the day the face starts on.
    let t = at(2024, 3, 3, 7, 15, 20);
    press(&mut alarm, ButtonId::Light, &ctx(t), &mut hw); // day
    press(&mut alarm, ButtonId::Light, &ctx(t), &mut hw); // hour
    press(&mut alarm, ButtonId::Light, &ctx(t), &mut hw); // minute
    press(&mut alarm, ButtonId::Light, &ctx(t), &mut hw); // status
    assert!(press(&mut alarm, ButtonId::Alarm, &ctx(t), &mut hw));
    press(&mut alarm, ButtonId::Light, &ctx(t), &mut hw); // leaves
    assert_eq!(alarm.alarms()[0], AlarmDay { enabled: true, hour: 7, minute: 15 });
    assert_eq!(alarm.alarms()[1], AlarmDay { enabled: false, hour: 0, minute: 0 });
    assert!(!alarm.background_tick(&ctx(at(2024, 3, 4, 7, 15, 0)), &mut hw));
    let ring = at(2024, 3, 10, 7, 15, 0);
    assert!(alarm.background_tick(&ctx(ring), &mut hw));
    assert!(!alarm.background_tick(&ctx(ring), &mut hw));
    // In the view, Alarm is left to the runtime (the chime toggle).
    assert!(!press(&mut alarm, ButtonId::Alarm, &ctx(ring), &mut hw));
    assert_eq!(alarm.alarm_action(), AlarmAction::ChimeToggle);
}

#[test]
fn calendar_written_clock_reads_back() {
    let mut hw = Recorder::new();
    let mut cal = Calendar::new();
    let t = at(2024, 2, 29, 12, 34, 56);
    cal.init(&ctx(t), &mut hw);
    press(&mut cal, ButtonId::Light, &ctx(t), &mut hw);
    // A double adds four more (its first press already added one).
    cal.button(GestureEvent::double(ButtonId::Alarm), &ctx(t), &mut hw); // 2028
    cal.button(GestureEvent::hold(ButtonId::Light), &ctx(t), &mut hw);
    let written = match hw.requests().last() {
        Some(Request::SetRtc(ms)) => *ms,
        other => panic!("no clock write: {:?}", other),
    };
    let back = DateTime::from_epoch_ms(written);
    // 2028 is a leap year: February 29 stays.
    assert_eq!((back.year, back.month.number(), back.day), (2028, 2, 29));
    assert_eq!((back.hour, back.minute, back.second), (12, 34, 56));
    assert_eq!(back.weekday, pluto::time::weekday_of(2028, 2, 29));
}

#[test]
fn simple_alarm_ring_lasts_two_minutes() {
    let mut hw = Recorder::new();
    let mut alarm = SimpleAlarm::new();
    let set = at(2024, 3, 1, 6, 15, 20);
    // Enter and leave the settings (seeding 06:15), then switch it on.
    assert!(press(&mut alarm, ButtonId::Light, &ctx(set), &mut hw));
    assert!(press(&mut alarm, ButtonId::Light, &ctx(set), &mut hw));
    assert!(press(&mut alarm, ButtonId::Light, &ctx(set), &mut hw));
    assert!(press(&mut alarm, ButtonId::Alarm, &ctx(set), &mut hw));
    assert!(alarm.background_tick(&ctx(at(2024, 3, 2, 6, 15, 0)), &mut hw));
    hw.drain_requests();
    // One second before the end it still rings...
    alarm.tick(&ctx(at(2024, 3, 2, 6, 16, 59)), &mut hw);
    assert!(matches!(hw.drain_requests().as_slice(), [Request::Melody(_)]));
    // ...and at the end the melody stops, for good.
    alarm.tick(&ctx(at(2024, 3, 2, 6, 17, 0)), &mut hw);
    assert_eq!(hw.drain_requests(), vec![Request::StopMelody]);
    alarm.tick(&ctx(at(2024, 3, 2, 6, 17, 1)), &mut hw);
    assert!(hw.drain_requests().is_empty());
}

#[test]
fn calendar_works_on_a_clock_before_2000() {
    let mut hw = Recorder::new();
    let mut cal = Calendar::new();
    let t = DateTime::from_epoch_ms(1_000_300);
    cal.init(&ctx(t), &mut hw);
    // The settings draw at a 1970 instant; stepping the year brings it into
    // the calendar's 2000..=2099 range, keeping its last two digits' cycle.
    assert!(press(&mut cal, ButtonId::Light, &ctx(t), &mut hw));
    cal.tick(&ctx(t), &mut hw);
    assert!(press(&mut cal, ButtonId::Alarm, &ctx(t), &mut hw));
    assert!(cal.button(GestureEvent::hold(ButtonId::Light), &ctx(t), &mut hw));
    assert_eq!(hw.requests().last(), Some(&Request::SetRtc(epoch_ms_of(2071, 1, 1, 0, 16, 40))));
}

#[test]
fn simple_alarm_ring_wraps_past_midnight() {
    let mut hw = Recorder::new();
    let mut alarm = SimpleAlarm::new();
    let set = at(2024, 3, 1, 23, 59, 20);
    assert!(press(&mut alarm, ButtonId::Light, &ctx(set), &mut hw));
    assert!(press(&mut alarm, ButtonId::Light, &ctx(set), &mut hw));
    assert!(press(&mut alarm, ButtonId::Light, &ctx(set), &mut hw));
    assert!(press(&mut alarm, ButtonId::Alarm, &ctx(set), &mut hw));
    assert!(alarm.background_tick(&ctx(at(2024, 3, 2, 23, 59, 0)), &mut hw));
    hw.drain_requests();
    alarm.tick(&ctx(at(2024, 3, 3, 0, 0, 59)), &mut hw);
    assert!(matches!(hw.drain_requests().as_slice(), [Request::Melody(_)]));
    // Two minutes after 23:59:00 the ring is over.
    alarm.tick(&ctx(at(2024, 3, 3, 0, 1, 0)), &mut hw);
    assert_eq!(hw.drain_requests(), vec![Request::StopMelody]);
}

#[test]
fn weekday_alarm_ring_ends_at_midnight() {
    let mut hw = Recorder::new();
    let mut alarm = Alarm::new();
    // 2024-03-03 is a Sunday: set Sunday's alarm to 23:59.
    let t = at(2024, 3, 3, 23, 59, 20);
    press(&mut alarm, ButtonId::Light, &ctx(t), &mut hw); // day
    press(&mut alarm, ButtonId::Light, &ctx(t), &mut hw); // hour
    press(&mut alarm, ButtonId::Light, &ctx(t), &mut hw); // minute
    press(&mut alarm, ButtonId::Light, &ctx(t), &mut hw); // status
    assert!(press(&mut alarm, ButtonId::Alarm, &ctx(t), &mut hw));
    press(&mut alarm, ButtonId::Light, &ctx(t), &mut hw); // leaves
    assert!(alarm.background_tick(&ctx(at(2024, 3, 10, 23, 59, 0)), &mut hw));
    hw.drain_requests();
    alarm.tick(&ctx(at(2024, 3, 10, 23, 59, 59)), &mut hw);
    assert!(matches!(hw.drain_requests().as_slice(), [Request::Melody(_)]));
    // On Monday the Sunday ring is over.
    alarm.tick(&ctx(at(2024, 3, 11, 0, 0, 0)), &mut hw);
    assert_eq!(hw.drain_requests(), vec![Request::StopMelody]);
}
