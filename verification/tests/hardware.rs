use pluto::bits::set_bit;
use pluto::display::{DigitDisplay, Display};
use pluto::face::ButtonId;
use pluto::font::Indicator;
use pluto::hardware::{schedule_melody, Hardware, Note, ScheduledTone, BUZZ_FREQ_HZ};
use pluto::recorder::{Recorder, Request};

#[test]
fn melody_is_scheduled_back_to_back() {
    let notes = [
        Note { freq_hz: 2400, ms: 100 },
        Note { freq_hz: 0, ms: 150 },
        Note { freq_hz: 2400, ms: 100 },
    ];
    assert_eq!(
        schedule_melody(&notes),
        vec![
            ScheduledTone { freq_hz: 2400, ms: 100, delay_ms: 0 },
            ScheduledTone { freq_hz: 2400, ms: 100, delay_ms: 250 },
        ]
    );
    assert!(schedule_melody(&[]).is_empty());
    // Delays stop growing at u32::MAX.
    let long = [Note { freq_hz: 0, ms: u32::MAX }, Note { freq_hz: 440, ms: 5 }];
    assert_eq!(schedule_melody(&long), vec![ScheduledTone { freq_hz: 440, ms: 5, delay_ms: u32::MAX }]);
}

#[test]
fn ring_beep_is_two_short_tones() {
    let notes = pluto::hardware::ring_beep();
    assert_eq!(notes.len(), 3);
    assert_eq!(notes[0], Note { freq_hz: BUZZ_FREQ_HZ, ms: 100 });
    assert_eq!(notes[1].freq_hz, 0);
}

#[test]
fn set_bit_changes_one_bit() {
    assert_eq!(set_bit(0b0000_0000, 3, true), 0b0000_1000);
    assert_eq!(set_bit(0b1111_1111, 0, false), 0b1111_1110);
    assert_eq!(set_bit(0b1010_1010, 1, true), 0b1010_1010);
    assert_eq!(set_bit(0b1010_1010, 7, false), 0b0010_1010);
}

#[test]
fn button_ids_from_the_page() {
    assert_eq!(ButtonId::from_id(0), ButtonId::Light);
    assert_eq!(ButtonId::from_id(1), ButtonId::Mode);
    assert_eq!(ButtonId::from_id(2), ButtonId::Alarm);
    assert_eq!(ButtonId::from_id(77), ButtonId::Alarm);
    assert_eq!(ButtonId::Alarm.index(), 2);
}

#[test]
fn recorder_logs_requests_and_keeps_the_glass() {
    let mut hw = Recorder::new();
    hw.set_segment(1, 16, true);
    Hardware::beep(&mut hw);
    hw.beep_ms(200);
    hw.set_backlight(true);
    hw.melody(&[Note { freq_hz: 1000, ms: 10 }]);
    hw.stop_melody();
    hw.set_rtc(42);
    assert_eq!(
        hw.requests().to_vec(),
        vec![
            Request::Beep(60),
            Request::Beep(200),
            Request::Backlight(true),
            Request::Melody(vec![Note { freq_hz: 1000, ms: 10 }]),
            Request::StopMelody,
            Request::SetRtc(42),
        ]
    );
    assert_eq!(hw.lit_segments(), vec![(1, 16)]);
    hw.clear_all();
    assert!(hw.lit_segments().is_empty());
}

#[test]
fn digits_and_indicators_on_the_glass() {
    let mut hw = Recorder::new();
    hw.set_digit(9, 8);
    // An eight lights all seven segments of the seconds' ones digit.
    assert_eq!(hw.lit_segments().len(), 7);
    hw.set_digit(9, 1);
    assert_eq!(hw.lit_segments().len(), 2);
    hw.clear_digit(9);
    assert!(hw.lit_segments().is_empty());
    // Out-of-range positions and digits are ignored.
    hw.set_digit(10, 1);
    hw.set_digit(3, 10);
    assert!(hw.lit_segments().is_empty());
    hw.set_indicator(Indicator::Bell, true);
    assert_eq!(hw.lit_segments(), vec![(0, 16)]);
    hw.set_indicator(Indicator::Bell, false);
    assert!(hw.lit_segments().is_empty());
}

#[test]
fn redrawing_changes_nothing() {
    let mut hw = Recorder::new();
    hw.set_indicator(Indicator::Signal, true);
    hw.set_digit(4, 7);
    hw.set_char(0, b'S');
    let once = hw.lit_segments();
    hw.set_digit(4, 7);
    hw.set_char(0, b'S');
    assert_eq!(hw.lit_segments(), once);
}
