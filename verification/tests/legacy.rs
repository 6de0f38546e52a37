use pluto::legacy::app::{Event, Runtime};
use pluto::legacy::apps::launcher::Launcher;
use pluto::legacy::apps::time::TimeApp;
use pluto::legacy::apps::AppSet;
use pluto::legacy::hw::Timedate;
use pluto::legacy::time::{DateTime, Month, Weekday};
use pluto::recorder::{Recorder, Request};

/// A glass whose clock reads `time`.
fn booted_at(time: &DateTime) -> (Recorder, Runtime<AppSet>) {
    let mut hw = Recorder::new();
    hw.set_clock(Timedate::from_date_time(time));
    let mut rt = Runtime::new();
    rt.boot(AppSet::Time(TimeApp::new()), AppSet::Launcher(Launcher::new()), *time, &mut hw);
    (hw, rt)
}

#[test]
fn epoch() {
    let t = DateTime::from_epoch_ms(0);
    assert_eq!((t.year, t.month, t.day), (1970, Month::January, 1));
    assert_eq!((t.hour, t.minute, t.second), (0, 0, 0));
    assert_eq!(t.weekday, Weekday::Thursday);
}

#[test]
fn recent() {
    // 2024-02-29 12:34:56 UTC (leap day)
    let ms = 1_709_210_096_000;
    let t = DateTime::from_epoch_ms(ms);
    assert_eq!((t.year, t.month, t.day), (2024, Month::February, 29));
    assert_eq!((t.hour, t.minute, t.second), (12, 34, 56));
    assert_eq!(t.weekday, Weekday::Thursday);
}

#[test]
fn debug_boot() {
    let time = DateTime::from_epoch_ms(1_750_000_000_000);
    let (mut hw, mut rt) = booted_at(&time);
    rt.process(Event::Tick, time, &mut hw);
    println!("LIT {:?}", hw.lit_segments());
    println!(
        "time = {:02}:{:02}:{:02} dom={} dow={}",
        time.hour,
        time.minute,
        time.second,
        time.day,
        time.weekday.index()
    );
    assert_eq!(hw.lit_segments().len(), 44); // known from the WASM dump; adjust if changed
}

const FONT: [[[i8; 2]; 7]; 8] = [
    [[1, 18], [2, 19], [0, 19], [1, 18], [0, 18], [2, 18], [1, 19]],
    [[2, 20], [2, 21], [1, 21], [0, 21], [0, 20], [1, 17], [1, 20]],
    [[0, 22], [2, 23], [0, 23], [0, 22], [1, 22], [2, 22], [1, 23]],
    [[2, 1], [2, 10], [0, 1], [0, 0], [1, 0], [2, 0], [1, 1]],
    [[2, 2], [2, 3], [0, 4], [0, 3], [0, 2], [1, 2], [1, 3]],
    [[2, 4], [2, 5], [1, 6], [0, 6], [0, 5], [1, 4], [1, 5]],
    [[1, 9], [0, 9], [2, 9], [1, 9], [0, 10], [-1, -1], [1, 9]],
    [[0, 7], [1, 7], [2, 7], [2, 6], [2, 8], [0, 8], [1, 8]],
];

#[test]
fn debug_decode() {
    let time = DateTime::from_epoch_ms(1_750_000_000_000);
    let (mut hw, mut rt) = booted_at(&time);
    rt.process(Event::Tick, time, &mut hw);

    let names = ['A', 'B', 'C', 'D', 'E', 'F', 'G'];
    for pos in 0..8 {
        let mut mask = 0u8;
        for (i, seg) in FONT[pos].iter().enumerate() {
            if seg[0] >= 0 && seg[1] >= 0 && hw.is_lit(seg[0] as u8, seg[1] as u8) {
                mask |= 1 << i;
            }
        }
        let mut lit = String::new();
        for i in 0..7 {
            if mask & (1 << i) != 0 {
                lit.push(names[i]);
            }
        }
        println!("pos {} (h,m,s,dom digits): segments lit = {}", pos, lit);
    }
}

#[test]
fn boot_tick_switches_the_backlight_off() {
    // The countdown starts at zero, so the first tick asks for the backlight
    // to go off.
    let time = DateTime::from_epoch_ms(1_750_000_000_000);
    let (mut hw, mut rt) = booted_at(&time);
    rt.process(Event::Tick, time, &mut hw);
    assert_eq!(hw.requests().to_vec(), vec![Request::Backlight(false)]);
    // A long Up press turns it on and keeps it on for eight ticks.
    rt.process(Event::KeyUpLong, time, &mut hw);
    assert_eq!(hw.requests().last(), Some(&Request::Backlight(true)));
    for _ in 0..8 {
        rt.process(Event::Tick, time, &mut hw);
    }
    assert_eq!(hw.requests().len(), 2);
    rt.process(Event::Tick, time, &mut hw);
    assert_eq!(hw.requests().last(), Some(&Request::Backlight(false)));
}

#[test]
fn timedate_counts_weekdays_from_monday() {
    // 2025-06-15 was a Sunday: pluto's weekday 6.
    let time = DateTime::from_epoch_ms(1_750_000_000_000);
    let td = Timedate::from_date_time(&time);
    assert_eq!((td.h, td.m, td.s), (15, 6, 40));
    assert_eq!((td.year, td.month, td.dom, td.dow), (2025, 6, 15, 6));
}

#[test]
fn long_enter_opens_the_time_menu_and_up_goes_home() {
    let time = DateTime::from_epoch_ms(1_750_000_000_000);
    let (mut hw, mut rt) = booted_at(&time);
    rt.process(Event::KeyEnterLong, time, &mut hw);
    // The view switch puts the time app's menu (view 1) on screen.
    assert_eq!(rt.current_view(), 1);
    assert!(matches!(rt.current_app(), Some(a) if App::<Recorder>::current_view(a) == 1));
    rt.process(Event::KeyEnterLong, time, &mut hw);
    rt.process(Event::KeyUp, time, &mut hw);
    // Home is the launcher.
    assert!(matches!(rt.current_app(), Some(AppSet::Launcher(_))));
}

use pluto::legacy::app::{App, Pending};
use pluto::legacy::apps::menu::{render, Item, MenuState};
use pluto::legacy::apps::settings::{Settings, BASE_HEX, LANG_FR};
use pluto::legacy::apps::time::dow_string;
use pluto::legacy::display::{DigitDisplay as PositionDisplay, Indicator};
use pluto::legacy::input::{ButtonScanner, KeyId};
use pluto::legacy::lcd::Lcd;

#[test]
fn menu_cursor_wraps() {
    let mut st = MenuState::new();
    st.up(9);
    assert_eq!(st.item_current, 8);
    st.down(9);
    assert_eq!(st.item_current, 0);
    st.down(0);
    assert_eq!(st.item_current, 0);
    st.item_current = 5;
    st.reset();
    assert_eq!(st, MenuState::new());
}

#[test]
fn settings_wrap_around_three_choices() {
    let mut s = Settings::new();
    s.set_base(4);
    assert_eq!(s.base(), BASE_HEX);
    s.set_lang(255);
    assert_eq!(s.lang(), 0);
    s.set_lang(2);
    assert_eq!(s.lang(), LANG_FR);
}

#[test]
fn weekday_names_per_language() {
    assert_eq!(dow_string(0, 0), "mo");
    assert_eq!(dow_string(6, 1), "so");
    assert_eq!(dow_string(4, 2), "ve");
    assert_eq!(dow_string(7, 0), "mo");
    assert_eq!(dow_string(3, 9), "th");
}

#[test]
fn lcd_numbers_are_right_aligned_and_zero_padded() {
    let mut hw = Recorder::new();
    {
        let mut lcd = Lcd::new(&mut hw);
        lcd.puti(0, 2, 7);
    }
    // Position 0 shows a 0 (six segments), position 1 a 7 (three).
    assert_eq!(hw.lit_segments().len(), 5 + 3);
    let mut hex = Recorder::new();
    {
        let mut lcd = Lcd::new(&mut hex);
        // 0x1f: the 1 (two segments) and the f glyph (four).
        lcd.putix(0, 2, 0x1f);
    }
    assert_eq!(hex.lit_segments().len(), 2 + 4);
    let mut a = Recorder::new();
    {
        let mut lcd = Lcd::new(&mut a);
        // 0x1a: the 1 and the a glyph (six segments).
        lcd.putix(0, 2, 0x1a);
    }
    assert_eq!(a.lit_segments().len(), 2 + 6);
}

#[test]
fn lcd_text_and_blanks() {
    let mut hw = Recorder::new();
    {
        let mut lcd = Lcd::new(&mut hw);
        lcd.puts(8, b"su");
        lcd.indicator(Indicator::Colon, true);
    }
    assert_eq!(hw.lit_segments().len(), 5 + 3 + 1);
    {
        let mut lcd = Lcd::new(&mut hw);
        lcd.putc(8, b' ');
        lcd.putc(9, b' ');
        lcd.clear();
    }
    assert!(hw.lit_segments().is_empty());
    // A letter on a digit position uses the 7-segment map: "-" is G alone.
    PositionDisplay::set_digit(&mut hw, 3, 8);
    assert_eq!(hw.lit_segments().len(), 7);
    {
        let mut lcd = Lcd::new(&mut hw);
        lcd.putc(3, b'-');
    }
    assert_eq!(hw.lit_segments(), vec![(1, 1)]);
}

#[test]
fn menu_frame_has_header_label_and_choice() {
    let mut hw = Recorder::new();
    {
        let mut lcd = Lcd::new(&mut hw);
        let item = Item::Choice { text: "base", pos: 4, choices: ["de", "he", "bi"] };
        assert_eq!(item.text(), "base");
        render(&mut lcd, &item, 4, "cf", 8);
    }
    let frame = hw.lit_segments();
    let mut again = Recorder::new();
    {
        let mut lcd = Lcd::new(&mut again);
        lcd.clear();
        lcd.puts(8, b"cf");
        lcd.puts(0, b"base");
        lcd.puts(4, b"he");
    }
    assert_eq!(frame, again.lit_segments());
}

#[test]
fn keys_fire_on_press_and_repeat_when_held() {
    let mut s = ButtonScanner::new();
    assert_eq!(s.sample(KeyId::Up, true, 0), Some(Event::KeyUp));
    assert_eq!(s.sample(KeyId::Up, true, 749), None);
    assert_eq!(s.sample(KeyId::Up, true, 750), Some(Event::KeyUpLong));
    assert_eq!(s.sample(KeyId::Up, true, 999), None);
    assert_eq!(s.sample(KeyId::Up, true, 1000), Some(Event::KeyUpLong));
    assert_eq!(s.sample(KeyId::Up, false, 1100), None);
    assert_eq!(KeyId::from_id(1), KeyId::Down);
    assert_eq!(KeyId::from_id(9), KeyId::Enter);
    assert_eq!(Event::key_long(KeyId::Enter), Event::KeyEnterLong);
}

#[test]
fn launcher_enter_launches_the_time_app() {
    let time = DateTime::from_epoch_ms(1_750_000_000_000);
    let mut hw = Recorder::new();
    hw.set_clock(Timedate::from_date_time(&time));
    let mut rt = Runtime::new();
    rt.boot(AppSet::Launcher(Launcher::new()), AppSet::Launcher(Launcher::new()), time, &mut hw);
    rt.process(Event::KeyEnter, time, &mut hw);
    assert!(matches!(rt.current_app(), Some(AppSet::Time(_))));
    assert_eq!(rt.current_view(), 0);
    let app = rt.current_app().unwrap();
    assert_eq!(<AppSet as App<Recorder>>::current_view(app), 0);
    let _ = Pending::<AppSet>::Exit;
}
