use pluto::face::ButtonId;
use pluto::faces::{Faces, SimpleAlarm, SimpleClock, FACE_COUNT};
use pluto::recorder::{Recorder, Request};
use pluto::time::{epoch_ms_of, DateTime};
use pluto::watch::{FaceSet, Watch};

fn ms(year: u16, month: u8, day: u8, hour: u8, minute: u8, second: u8) -> u64 {
    epoch_ms_of(year, month, day, hour, minute, second)
}

fn tap(w: &mut Watch<Faces>, hw: &mut Recorder, id: ButtonId, down_ms: u64) {
    w.button_raw(id, true, DateTime::from_epoch_ms(down_ms), hw);
    w.button_raw(id, false, DateTime::from_epoch_ms(down_ms + 100), hw);
}

#[test]
fn five_faces_clock_first() {
    assert_eq!(<Faces as FaceSet>::LEN, FACE_COUNT);
    assert_eq!(Faces::faces().len(), 5);
    assert_eq!(Faces::all().len(), 5);
    let w = Watch::<Faces>::new();
    assert!(w.active_face() == Faces::SimpleClock(SimpleClock::new()));
    assert!(Faces::default() == Faces::SimpleClock(SimpleClock::new()));
}

#[test]
fn mode_cycles_faces_and_keeps_their_state() {
    let mut hw = Recorder::new();
    let mut w = Watch::<Faces>::new();
    let t0 = ms(2024, 3, 1, 7, 0, 0);
    // Mode twice (taps far enough apart not to be a double): the simple
    // alarm.
    tap(&mut w, &mut hw, ButtonId::Mode, t0);
    tap(&mut w, &mut hw, ButtonId::Mode, t0 + 1000);
    assert!(matches!(w.active_face(), Faces::SimpleAlarm(_)));
    // Alarm switches the alarm on.
    tap(&mut w, &mut hw, ButtonId::Alarm, t0 + 2000);
    match w.active_face() {
        Faces::SimpleAlarm(a) => assert!(a.enabled()),
        _ => panic!("not on the simple alarm"),
    }
    // Round the cycle once: five faces.
    for i in 0..5 {
        tap(&mut w, &mut hw, ButtonId::Mode, t0 + 3000 + 1000 * i);
    }
    match w.active_face() {
        Faces::SimpleAlarm(a) => assert!(a.enabled()),
        _ => panic!("not back on the simple alarm"),
    }
    assert!(w.active_face() != Faces::SimpleAlarm(SimpleAlarm::new()));
}

#[test]
fn double_tap_of_mode_switches_once() {
    let mut hw = Recorder::new();
    let mut w = Watch::<Faces>::new();
    let t0 = ms(2024, 3, 1, 7, 0, 0);
    tap(&mut w, &mut hw, ButtonId::Mode, t0);
    tap(&mut w, &mut hw, ButtonId::Mode, t0 + 200);
    assert!(matches!(w.active_face(), Faces::Alarm(_)));
}

#[test]
fn hourly_chime_sounds_once() {
    let mut hw = Recorder::new();
    let mut w = Watch::<Faces>::new();
    let t0 = ms(2024, 3, 1, 7, 59, 0);
    // The alarm face's Alarm button toggles the chime.
    tap(&mut w, &mut hw, ButtonId::Mode, t0);
    tap(&mut w, &mut hw, ButtonId::Alarm, t0 + 1000);
    let top = ms(2024, 3, 1, 8, 0, 0);
    w.tick(DateTime::from_epoch_ms(top), &mut hw);
    let beeps = |hw: &Recorder| hw.requests().iter().filter(|r| **r == Request::Beep(60)).count();
    assert_eq!(beeps(&hw), 1);
    w.tick(DateTime::from_epoch_ms(top + 250), &mut hw);
    w.tick(DateTime::from_epoch_ms(top + 500), &mut hw);
    assert_eq!(beeps(&hw), 1);
    w.tick(DateTime::from_epoch_ms(ms(2024, 3, 1, 9, 0, 0)), &mut hw);
    assert_eq!(beeps(&hw), 2);
}

#[test]
fn light_hold_lights_for_three_seconds() {
    let mut hw = Recorder::new();
    let mut w = Watch::<Faces>::new();
    let t0 = ms(2024, 3, 1, 7, 0, 0);
    w.button_raw(ButtonId::Light, true, DateTime::from_epoch_ms(t0), &mut hw);
    w.button_raw(ButtonId::Light, true, DateTime::from_epoch_ms(t0 + 750), &mut hw);
    assert!(hw.requests().contains(&Request::Backlight(true)));
    w.button_raw(ButtonId::Light, false, DateTime::from_epoch_ms(t0 + 800), &mut hw);
    w.tick(DateTime::from_epoch_ms(t0 + 2000), &mut hw);
    assert!(!hw.requests().contains(&Request::Backlight(false)));
    w.tick(DateTime::from_epoch_ms(t0 + 3000), &mut hw);
    assert_eq!(hw.requests().last(), Some(&Request::Backlight(false)));
}

#[test]
fn alarm_button_toggles_the_time_format_on_the_clock() {
    let mut hw = Recorder::new();
    let mut w = Watch::<Faces>::new();
    let t0 = ms(2024, 3, 1, 13, 0, 0);
    w.tick(DateTime::from_epoch_ms(t0), &mut hw);
    assert!(hw.is_lit(2, 16)); // 24H
    tap(&mut w, &mut hw, ButtonId::Alarm, t0 + 100);
    w.tick(DateTime::from_epoch_ms(t0 + 1000), &mut hw);
    assert!(!hw.is_lit(2, 16));
    assert!(hw.is_lit(2, 17)); // PM
}

#[test]
fn a_ringing_alarm_takes_over_the_screen() {
    let mut hw = Recorder::new();
    let mut w = Watch::<Faces>::new();
    let t0 = ms(2024, 3, 1, 7, 29, 30);
    // Simple alarm: set it (seeded from now, 07:29) and switch it on.
    tap(&mut w, &mut hw, ButtonId::Mode, t0);
    tap(&mut w, &mut hw, ButtonId::Mode, t0 + 1000);
    tap(&mut w, &mut hw, ButtonId::Light, t0 + 2000);
    tap(&mut w, &mut hw, ButtonId::Light, t0 + 3000);
    tap(&mut w, &mut hw, ButtonId::Light, t0 + 4000);
    tap(&mut w, &mut hw, ButtonId::Alarm, t0 + 5000);
    // Back to the clock with three more Mode presses.
    for i in 0..3 {
        tap(&mut w, &mut hw, ButtonId::Mode, t0 + 6000 + 1000 * i);
    }
    assert!(matches!(w.active_face(), Faces::SimpleClock(_)));
    // Next day at 07:29:00 the alarm fires and its face becomes active.
    w.tick(DateTime::from_epoch_ms(ms(2024, 3, 2, 7, 29, 0)), &mut hw);
    assert!(matches!(w.active_face(), Faces::SimpleAlarm(_)));
}

#[test]
fn chord_reaches_the_face_once_and_swallows_holds() {
    let mut hw = Recorder::new();
    let mut w = Watch::<Faces>::new();
    let t0 = ms(2024, 3, 1, 7, 0, 0);
    for i in 0..3 {
        tap(&mut w, &mut hw, ButtonId::Mode, t0 + 1000 * i);
    }
    assert!(matches!(w.active_face(), Faces::Timer(_)));
    let t1 = t0 + 5000;
    w.button_raw(ButtonId::Alarm, true, DateTime::from_epoch_ms(t1), &mut hw);
    w.button_raw(ButtonId::Light, true, DateTime::from_epoch_ms(t1 + 50), &mut hw);
    // Held long enough for a hold: none is delivered (no backlight).
    w.button_raw(ButtonId::Light, true, DateTime::from_epoch_ms(t1 + 1000), &mut hw);
    w.button_raw(ButtonId::Alarm, true, DateTime::from_epoch_ms(t1 + 1000), &mut hw);
    assert!(!hw.requests().contains(&Request::Backlight(true)));
    w.button_raw(ButtonId::Alarm, false, DateTime::from_epoch_ms(t1 + 1100), &mut hw);
    match w.active_face() {
        Faces::Timer(t) => assert_eq!(t.duration_secs(), 60),
        _ => panic!("not on the timer"),
    }
    w.button_raw(ButtonId::Light, false, DateTime::from_epoch_ms(t1 + 1200), &mut hw);
    match w.active_face() {
        Faces::Timer(t) => assert_eq!(t.duration_secs(), 180),
        _ => panic!("not on the timer"),
    }
}

#[test]
fn switching_faces_requests_exactly_what_the_faces_do() {
    let mut hw = Recorder::new();
    let mut w = Watch::<Faces>::new();
    let t0 = ms(2024, 3, 1, 7, 0, 0);
    // The clock face beeps on an Alarm press (and the runtime toggles the
    // format).
    tap(&mut w, &mut hw, ButtonId::Alarm, t0);
    assert_eq!(hw.drain_requests(), vec![Request::Beep(60)]);
    // Entering the alarm face stops any ring melody; a Light press there
    // (entering the settings) silences it again.
    tap(&mut w, &mut hw, ButtonId::Mode, t0 + 1000);
    assert_eq!(hw.drain_requests(), vec![Request::StopMelody]);
    tap(&mut w, &mut hw, ButtonId::Light, t0 + 2000);
    assert_eq!(hw.drain_requests(), vec![Request::StopMelody]);
}
