//! The time app: the main clock face and its configuration menu.
use vstd::prelude::*;
use vstd::string::StringSliceAdditionalSpecFns;

use crate::hardware::{extends, lemma_extends_refl, Effect};
use crate::legacy::app::{only_requests, Event, Pending, Runtime, View};
use crate::legacy::apps::conf::{
    cursor_after, settings_after_enter, settings_item, settings_menu_key, settings_value, spec_settings_item,
    SETTINGS_ITEMS,
};
use crate::legacy::apps::menu::{menu_image, render, MenuState};
use crate::legacy::apps::settings::{BASE_BIN, BASE_HEX, LANG_DE, LANG_FR};
use crate::legacy::apps::AppSet;
use crate::legacy::display::{set_cell, Display, Indicator};
use crate::legacy::hw::{Hardware, Timedate};
use crate::legacy::lcd::{number_image, text_image, Lcd};
use crate::time::DateTime;

verus! {

/// A `Timedate` that differs from any real value, to force a full redraw.
pub open spec fn forced() -> Timedate {
    Timedate { h: 0xff, m: 0xff, s: 0xff, dow: 0xff, dom: 0xff, month: 0xff, year: 0xffff }
}

/// The [`forced`] snapshot.
pub fn force_update() -> (t: Timedate)
    ensures
        t == forced(),
{
    Timedate { h: 0xff, m: 0xff, s: 0xff, dow: 0xff, dom: 0xff, month: 0xff, year: 0xffff }
}

/// English weekday names, Monday first.
pub const DOW_EN: [&'static str; 7] = ["mo", "tu", "we", "th", "fr", "sa", "su"];

/// German weekday names, Monday first.
pub const DOW_DE: [&'static str; 7] = ["mo", "di", "mi", "do", "fr", "sa", "so"];

/// French weekday names, Monday first.
pub const DOW_FR: [&'static str; 7] = ["lu", "ma", "me", "je", "ve", "sa", "di"];

/// The weekday name of pluto's `dow` (0 = Monday, taken modulo 7) in
/// language `lang` (English for an unknown language).
pub open spec fn spec_dow_string(dow: u8, lang: u8) -> &'static str {
    let i = (dow % 7) as int;
    if lang == LANG_DE {
        DOW_DE[i]
    } else if lang == LANG_FR {
        DOW_FR[i]
    } else {
        DOW_EN[i]
    }
}

/// Weekday string for pluto's `dow` (0 = Monday).
pub fn dow_string(dow: u8, lang: u8) -> (s: &'static str)
    ensures
        s == spec_dow_string(dow, lang),
{
    let i = (dow % 7) as usize;
    if lang == LANG_DE {
        DOW_DE[i]
    } else if lang == LANG_FR {
        DOW_FR[i]
    } else {
        DOW_EN[i]
    }
}

/// `lit` with the two-digit `value` drawn in `base` at positions `dig` and
/// `dig + 1`, unless it equals the value drawn before.
pub open spec fn changed_pair(lit: Set<(u8, u8)>, dig: int, value: u8, last: u8, base: nat) -> Set<(u8, u8)> {
    if value != last {
        number_image(lit, dig + 1, 2, value as nat, base)
    } else {
        lit
    }
}

/// The clock face drawn over `lit` for the clock reading `td`, when `last`
/// was drawn before: the date (year, month, day) without the colon, or the
/// time of day in the chosen base with the colon (in binary only the
/// signal bars and the day), and the weekday in the letters. Values equal
/// to the ones drawn before are not redrawn.
pub open spec fn clock_image(
    lit: Set<(u8, u8)>,
    td: Timedate,
    last: Timedate,
    date: bool,
    base: u8,
    lang: u8,
) -> Set<(u8, u8)> {
    let drawn = if date {
        number_image(
            number_image(number_image(set_cell(lit, Indicator::Colon.cell(), false), 3, 4, td.year as nat, 10), 5, 2, td.month as nat, 10),
            7,
            2,
            td.dom as nat,
            10,
        )
    } else if base == BASE_HEX {
        changed_pair(
            changed_pair(
                changed_pair(changed_pair(set_cell(lit, Indicator::Colon.cell(), true), 0, td.h, last.h, 16), 2, td.m, last.m, 16),
                4,
                td.s,
                last.s,
                16,
            ),
            6,
            td.dom,
            last.dom,
            10,
        )
    } else if base == BASE_BIN {
        changed_pair(set_cell(lit, Indicator::Bars.cell(), true), 6, td.dom, last.dom, 10)
    } else {
        changed_pair(
            changed_pair(
                changed_pair(changed_pair(set_cell(lit, Indicator::Colon.cell(), true), 0, td.h, last.h, 10), 2, td.m, last.m, 10),
                4,
                td.s,
                last.s,
                10,
            ),
            6,
            td.dom,
            last.dom,
            10,
        )
    };
    if td.dow != last.dow {
        text_image(drawn, 8, spec_dow_string(td.dow, lang).spec_bytes())
    } else {
        drawn
    }
}

/// View 0: the clock face.
#[derive(Clone, Copy)]
pub struct TimeDisplay {
    needs_clear: bool,
    display_date: bool,
    td_last: Timedate,
}

impl TimeDisplay {
    /// The next frame redraws everything on a cleared glass.
    pub closed spec fn spec_needs_clear(self) -> bool {
        self.needs_clear
    }

    /// The face shows the date instead of the time.
    pub closed spec fn spec_display_date(self) -> bool {
        self.display_date
    }

    /// The clock reading drawn last.
    pub closed spec fn spec_td_last(self) -> Timedate {
        self.td_last
    }

    /// A face as [`TimeDisplay::new`] makes it.
    pub closed spec fn fresh() -> Self {
        TimeDisplay {
            needs_clear: true,
            display_date: false,
            td_last: Timedate { h: 0, m: 0, s: 0, dow: 0, dom: 0, month: 0, year: 0 },
        }
    }

    fn new() -> (d: Self)
        ensures
            d == TimeDisplay::fresh(),
    {
        TimeDisplay { needs_clear: true, display_date: false, td_last: Timedate::default() }
    }

    /// What [`TimeDisplay::update`] does with `event` and the clock reading
    /// `td` (see there): from the runtime `rt`, the glass `lit` and the
    /// request record `log` to the face `d`, the runtime `rt2`, the glass
    /// `lit2` and the record `log2`.
    pub open spec fn update_done(
        self,
        event: Event,
        td: Timedate,
        rt: Runtime<AppSet>,
        lit: Set<(u8, u8)>,
        log: Seq<Effect>,
        d: Self,
        rt2: Runtime<AppSet>,
        lit2: Set<(u8, u8)>,
        log2: Seq<Effect>,
    ) -> bool {
        &&& only_requests(rt, rt2)
        &&& rt2.spec_settings() == rt.spec_settings()
        &&& event == Event::KeyEnterLong ==> rt2.spec_pending() == Some(Pending::<AppSet>::SetView(1))
        &&& event == Event::KeyUp ==> rt2.spec_pending() == Some(Pending::<AppSet>::Exit)
        &&& event == Event::KeyEnterLong || event == Event::KeyUp ==> lit2 == lit && log2 == log
            && d.spec_display_date() == self.spec_display_date()
        &&& event != Event::KeyEnterLong && event != Event::KeyUp ==> {
            let date = if event == Event::KeyDown {
                !self.spec_display_date()
            } else {
                self.spec_display_date()
            };
            let clear = self.spec_needs_clear() || event == Event::KeyDown;
            let last = if clear { forced() } else { self.spec_td_last() };
            let settings = rt.spec_settings();
            &&& rt2.spec_pending() == rt.spec_pending()
            &&& d.spec_display_date() == date
            &&& !d.spec_needs_clear()
            &&& d.spec_td_last() == td
            &&& lit2 == clock_image(
                if clear { Set::empty() } else { lit },
                td,
                last,
                date,
                settings.spec_base(),
                settings.spec_lang(),
            )
            &&& log2 == log
        }
    }

    /// Handle `event` with the clock reading `td`: a long Enter opens the
    /// menu view and Up goes home (both without drawing); Down switches
    /// between time and date. Then the face is drawn (on a cleared glass
    /// after a switch or on entry), and `td` is remembered.
    pub fn update<H: Hardware>(&mut self, event: Event, td: Timedate, hw: &mut H, rt: &mut Runtime<AppSet>)
        ensures
            old(self).update_done(
                event,
                td,
                *old(rt),
                old(hw).segments(),
                old(hw).effects(),
                *final(self),
                *final(rt),
                final(hw).segments(),
                final(hw).effects(),
            ),
            only_requests(*old(rt), *final(rt)),
            final(rt).spec_settings() == old(rt).spec_settings(),
            event == Event::KeyEnterLong ==> final(rt).spec_pending() == Some(Pending::<AppSet>::SetView(1)),
            event == Event::KeyUp ==> final(rt).spec_pending() == Some(Pending::<AppSet>::Exit),
            event == Event::KeyEnterLong || event == Event::KeyUp ==> *final(hw) == *old(hw)
                && final(self).spec_display_date() == old(self).spec_display_date(),
            event != Event::KeyEnterLong && event != Event::KeyUp ==> {
                let date = if event == Event::KeyDown {
                    !old(self).spec_display_date()
                } else {
                    old(self).spec_display_date()
                };
                let clear = old(self).spec_needs_clear() || event == Event::KeyDown;
                let last = if clear { forced() } else { old(self).spec_td_last() };
                let settings = old(rt).spec_settings();
                &&& final(rt).spec_pending() == old(rt).spec_pending()
                &&& final(self).spec_display_date() == date
                &&& !final(self).spec_needs_clear()
                &&& final(self).spec_td_last() == td
                &&& final(hw).segments() == clock_image(
                    if clear { Set::empty() } else { old(hw).segments() },
                    td,
                    last,
                    date,
                    settings.spec_base(),
                    settings.spec_lang(),
                )
                &&& final(hw).effects() == old(hw).effects()
            },
    {
        if self.needs_clear {
            self.td_last = force_update();
        }
        match event {
            Event::KeyEnterLong => {
                rt.set_view(1);
                return;
            },
            Event::KeyDown => {
                self.display_date = !self.display_date;
                self.needs_clear = true;
                self.td_last = force_update();
            },
            Event::KeyUp => {
                rt.exit();
                return;
            },
            _ => {},
        }
        if self.needs_clear {
            hw.clear_all();
        }
        let settings = rt.settings();
        let last = self.td_last;
        let mut lcd = Lcd::new(hw);
        if self.display_date {
            lcd.indicator(Indicator::Colon, false);
            lcd.puti(0, 4, td.year as u32);
            lcd.puti(4, 2, td.month as u32);
            lcd.puti(6, 2, td.dom as u32);
        } else {
            let base = settings.base();
            if base == BASE_HEX {
                lcd.indicator(Indicator::Colon, true);
                if td.h != last.h {
                    lcd.putix(0, 2, td.h as u32);
                }
                if td.m != last.m {
                    lcd.putix(2, 2, td.m as u32);
                }
                if td.s != last.s {
                    lcd.putix(4, 2, td.s as u32);
                }
                if td.dom != last.dom {
                    lcd.puti(6, 2, td.dom as u32);
                }
            } else if base == BASE_BIN {
                // Binary mode on the F-91W uses the signal-bar area; the skin
                // groups all five bars behind one segment.
                lcd.indicator(Indicator::Bars, true);
                if td.dom != last.dom {
                    lcd.puti(6, 2, td.dom as u32);
                }
            } else {
                lcd.indicator(Indicator::Colon, true);
                if td.h != last.h {
                    lcd.puti(0, 2, td.h as u32);
                }
                if td.m != last.m {
                    lcd.puti(2, 2, td.m as u32);
                }
                if td.s != last.s {
                    lcd.puti(4, 2, td.s as u32);
                }
                if td.dom != last.dom {
                    lcd.puti(6, 2, td.dom as u32);
                }
            }
        }
        if td.dow != last.dow {
            lcd.puts(8, dow_string(td.dow, settings.lang()).as_bytes());
        }
        self.td_last = td;
        self.needs_clear = false;
    }
}

impl TimeDisplay {
    /// Entering the face redraws it on a cleared glass.
    fn on_enter(&mut self)
        ensures
            *final(self) == (TimeDisplay { needs_clear: true, ..*old(self) }),
    {
        self.needs_clear = true;
    }

    /// Reads the clock and hands the reading to [`TimeDisplay::update`].
    fn handle<H: Hardware>(&mut self, event: Event, hw: &mut H, rt: &mut Runtime<AppSet>)
        ensures
            exists|td: Timedate|
                #[trigger] old(self).update_done(
                    event,
                    td,
                    *old(rt),
                    old(hw).segments(),
                    old(hw).effects(),
                    *final(self),
                    *final(rt),
                    final(hw).segments(),
                    final(hw).effects(),
                ),
            extends(old(hw).effects(), final(hw).effects()),
            only_requests(*old(rt), *final(rt)),
    {
        let ghost lit = hw.segments();
        let ghost log = hw.effects();
        let td = hw.rtc_get();
        self.update(event, td, hw, rt);
        proof {
            assert(old(self).update_done(event, td, *old(rt), lit, log, *self, *rt, hw.segments(), hw.effects()));
            lemma_extends_refl(hw.effects());
        }
    }
}

impl<H: Hardware> View<H, AppSet> for TimeDisplay {
    /// Entering redraws the face on a cleared glass at the next event.
    fn enter(&mut self, _time: DateTime, hw: &mut H)
        ensures
            final(self).spec_needs_clear(),
            final(self).spec_display_date() == old(self).spec_display_date(),
            final(self).spec_td_last() == old(self).spec_td_last(),
            *final(hw) == *old(hw),
    {
        self.on_enter();
        proof {
            lemma_extends_refl(hw.effects());
        }
    }

    /// Reads the clock and handles `event` with that reading (see
    /// [`TimeDisplay::update`]).
    fn main(&mut self, event: Event, _time: DateTime, hw: &mut H, rt: &mut Runtime<AppSet>)
        ensures
            exists|td: Timedate|
                #[trigger] old(self).update_done(
                    event,
                    td,
                    *old(rt),
                    old(hw).segments(),
                    old(hw).effects(),
                    *final(self),
                    *final(rt),
                    final(hw).segments(),
                    final(hw).effects(),
                ),
    {
        self.handle(event, hw, rt);
    }
}

/// View 1: the time app's configuration menu.
#[derive(Clone, Copy)]
pub struct TimeMenu {
    st: MenuState,
}

impl TimeMenu {
    /// The menu cursor is on an item.
    #[verifier::type_invariant]
    spec fn on_an_item(self) -> bool {
        self.st.item_current < SETTINGS_ITEMS
    }

    /// The menu state.
    pub closed spec fn spec_menu(self) -> MenuState {
        self.st
    }

    /// What [`TimeMenu::update`] does with `event` (see there): from the
    /// runtime `rt`, the glass `lit` and the request record `log` to the menu
    /// `m`, the runtime `rt2`, the glass `lit2` and the record `log2`.
    pub open spec fn update_done(
        self,
        event: Event,
        rt: Runtime<AppSet>,
        lit: Set<(u8, u8)>,
        log: Seq<Effect>,
        m: Self,
        rt2: Runtime<AppSet>,
        lit2: Set<(u8, u8)>,
        log2: Seq<Effect>,
    ) -> bool {
        &&& only_requests(rt, rt2)
        &&& event == Event::KeyEnterLong ==> {
            &&& m == self
            &&& lit2 == lit
            &&& log2 == log
            &&& rt2.spec_pending() == Some(Pending::<AppSet>::SetView(0))
            &&& rt2.spec_settings() == rt.spec_settings()
        }
        &&& event != Event::KeyEnterLong ==> {
            let item = m.spec_menu().item_current;
            &&& item == cursor_after(self.spec_menu().item_current, event, SETTINGS_ITEMS)
            &&& rt2.spec_settings() == (if event == Event::KeyEnter {
                settings_after_enter(rt.spec_settings(), self.spec_menu().item_current)
            } else {
                rt.spec_settings()
            })
            &&& rt2.spec_pending() == rt.spec_pending()
            &&& lit2 == menu_image(spec_settings_item(item), settings_value(rt2.spec_settings(), item), "cf", 8)
            &&& log2 == log
        }
    }

    /// Handle a key: Down/Up move, Enter steps the shown setting, a long
    /// Enter goes back to the clock view (without drawing); otherwise the
    /// menu is drawn.
    pub fn update<H: Hardware>(&mut self, event: Event, hw: &mut H, rt: &mut Runtime<AppSet>)
        ensures
            old(self).update_done(
                event,
                *old(rt),
                old(hw).segments(),
                old(hw).effects(),
                *final(self),
                *final(rt),
                final(hw).segments(),
                final(hw).effects(),
            ),
            only_requests(*old(rt), *final(rt)),
            event == Event::KeyEnterLong ==> {
                &&& *final(self) == *old(self)
                &&& *final(hw) == *old(hw)
                &&& final(rt).spec_pending() == Some(Pending::<AppSet>::SetView(0))
                &&& final(rt).spec_settings() == old(rt).spec_settings()
            },
            event != Event::KeyEnterLong ==> {
                let item = final(self).spec_menu().item_current;
                &&& item == cursor_after(old(self).spec_menu().item_current, event, SETTINGS_ITEMS)
                &&& final(rt).spec_settings() == (if event == Event::KeyEnter {
                    settings_after_enter(old(rt).spec_settings(), old(self).spec_menu().item_current)
                } else {
                    old(rt).spec_settings()
                })
                &&& final(rt).spec_pending() == old(rt).spec_pending()
                &&& final(hw).segments() == menu_image(
                    spec_settings_item(item),
                    settings_value(final(rt).spec_settings(), item),
                    "cf",
                    8,
                )
                &&& final(hw).effects() == old(hw).effects()
            },
    {
        proof {
            use_type_invariant(&*self);
        }
        if event == Event::KeyEnterLong {
            rt.set_view(0);
            return;
        }
        let mut st = self.st;
        let mut settings = rt.settings();
        settings_menu_key(&mut st, event, &mut settings);
        rt.set_settings(settings);
        self.st = st;
        let value = if self.st.item_current == 0 {
            settings.base()
        } else {
            settings.lang()
        };
        let mut lcd = Lcd::new(hw);
        render(&mut lcd, &settings_item(self.st.item_current), value, "cf", 8);
    }
}

impl TimeMenu {
    /// Entering the menu puts the cursor on the first item.
    fn on_enter(&mut self)
        ensures
            final(self).spec_menu() == (MenuState { item_current: 0, adj_mode: false, adj_digit: 0 }),
    {
        let mut st = self.st;
        st.reset();
        self.st = st;
    }
}

impl<H: Hardware> View<H, AppSet> for TimeMenu {
    /// Entering puts the cursor on the first item.
    fn enter(&mut self, _time: DateTime, hw: &mut H)
        ensures
            final(self).spec_menu() == (MenuState { item_current: 0, adj_mode: false, adj_digit: 0 }),
            *final(hw) == *old(hw),
    {
        self.on_enter();
        proof {
            lemma_extends_refl(hw.effects());
        }
    }

    /// Handles `event` as [`TimeMenu::update`] states.
    fn main(&mut self, event: Event, _time: DateTime, hw: &mut H, rt: &mut Runtime<AppSet>)
        ensures
            old(self).update_done(
                event,
                *old(rt),
                old(hw).segments(),
                old(hw).effects(),
                *final(self),
                *final(rt),
                final(hw).segments(),
                final(hw).effects(),
            ),
    {
        self.update(event, hw, rt);
        proof {
            lemma_extends_refl(old(hw).effects());
        }
    }
}

/// The time app: view 0 = clock face, view 1 = configuration menu.
#[derive(Clone, Copy)]
pub struct TimeApp {
    view: usize,
    display: TimeDisplay,
    menu: TimeMenu,
}

impl TimeApp {
    /// The active view.
    pub closed spec fn spec_view(self) -> int {
        self.view as int
    }

    /// The clock face.
    pub closed spec fn spec_display(self) -> TimeDisplay {
        self.display
    }

    /// The configuration menu.
    pub closed spec fn spec_menu(self) -> TimeMenu {
        self.menu
    }

    /// An app as [`TimeApp::new`] makes it.
    pub closed spec fn fresh() -> Self {
        TimeApp {
            view: 0,
            display: TimeDisplay::fresh(),
            menu: TimeMenu { st: MenuState { item_current: 0, adj_mode: false, adj_digit: 0 } },
        }
    }

    /// The app showing view `view`.
    pub closed spec fn spec_with_view(self, view: int) -> Self {
        TimeApp { view: view as usize, ..self }
    }

    /// The app after it is entered: the clock face is redrawn on a cleared
    /// glass, or the menu is back on its first item.
    pub closed spec fn spec_entered(self) -> Self {
        if self.view == 0 {
            TimeApp { display: TimeDisplay { needs_clear: true, ..self.display }, ..self }
        } else {
            TimeApp { menu: TimeMenu { st: MenuState { item_current: 0, adj_mode: false, adj_digit: 0 } }, ..self }
        }
    }

    pub fn new() -> (a: Self)
        ensures
            a == TimeApp::fresh(),
    {
        TimeApp { view: 0, display: TimeDisplay::new(), menu: TimeMenu { st: MenuState::new() } }
    }

    pub(crate) fn enter<H: Hardware>(&mut self, time: DateTime, hw: &mut H)
        ensures
            *final(self) == old(self).spec_entered(),
            final(self).spec_view() == old(self).spec_view(),
            *final(hw) == *old(hw),
    {
        if self.view == 0 {
            self.display.on_enter();
        } else {
            self.menu.on_enter();
        }
    }

    pub(crate) fn leave<H: Hardware>(&mut self, time: DateTime, hw: &mut H)
        ensures
            *final(self) == *old(self),
            *final(hw) == *old(hw),
    {
        // Neither view does anything when it is left.
    }

    pub(crate) fn current_view(&self) -> (view: usize)
        ensures
            view == self.spec_view(),
    {
        self.view
    }

    pub(crate) fn set_current_view(&mut self, view: usize)
        ensures
            *final(self) == old(self).spec_with_view(view as int),
            final(self).spec_view() == view,
    {
        self.view = view;
    }

    /// What [`TimeApp::main`] does with `event`: the active view handles it
    /// (the clock face with some reading of the clock), the other view is
    /// left as it is.
    pub closed spec fn main_done(
        self,
        event: Event,
        rt: Runtime<AppSet>,
        lit: Set<(u8, u8)>,
        log: Seq<Effect>,
        app: Self,
        rt2: Runtime<AppSet>,
        lit2: Set<(u8, u8)>,
        log2: Seq<Effect>,
    ) -> bool {
        &&& app.view == self.view
        &&& if self.view == 0 {
            &&& app.menu == self.menu
            &&& exists|td: Timedate|
                #[trigger] self.display.update_done(event, td, rt, lit, log, app.display, rt2, lit2, log2)
        } else {
            &&& app.display == self.display
            &&& self.menu.update_done(event, rt, lit, log, app.menu, rt2, lit2, log2)
        }
    }

    /// Handling a tick queues nothing.
    pub proof fn lemma_tick_keeps_the_queue(
        self,
        rt: Runtime<AppSet>,
        lit: Set<(u8, u8)>,
        log: Seq<Effect>,
        app: Self,
        rt2: Runtime<AppSet>,
        lit2: Set<(u8, u8)>,
        log2: Seq<Effect>,
    )
        requires
            self.main_done(Event::Tick, rt, lit, log, app, rt2, lit2, log2),
        ensures
            rt2.spec_pending() == rt.spec_pending(),
    {
    }

    pub(crate) fn main<H: Hardware>(&mut self, event: Event, time: DateTime, hw: &mut H, rt: &mut Runtime<AppSet>)
        ensures
            old(self).main_done(
                event,
                *old(rt),
                old(hw).segments(),
                old(hw).effects(),
                *final(self),
                *final(rt),
                final(hw).segments(),
                final(hw).effects(),
            ),
            final(self).spec_view() == old(self).spec_view(),
            extends(old(hw).effects(), final(hw).effects()),
            only_requests(*old(rt), *final(rt)),
    {
        let ghost lit = hw.segments();
        let ghost log = hw.effects();
        let ghost rt0 = *rt;
        if self.view == 0 {
            self.display.handle(event, hw, rt);
            proof {
                let td = choose|td: Timedate|
                    #[trigger] old(self).display.update_done(
                        event,
                        td,
                        rt0,
                        lit,
                        log,
                        self.display,
                        *rt,
                        hw.segments(),
                        hw.effects(),
                    );
                assert(old(self).display.update_done(event, td, rt0, lit, log, self.display, *rt, hw.segments(), hw.effects()));
            }
        } else {
            self.menu.update(event, hw, rt);
            proof {
                lemma_extends_refl(old(hw).effects());
            }
        }
    }
}

} // verus!
