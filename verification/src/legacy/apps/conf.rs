//! The configuration app: a menu of settings.
use vstd::prelude::*;

use crate::hardware::Effect;

use crate::legacy::app::{only_requests, Event, Pending, Runtime};
use crate::legacy::apps::menu::{menu_image, render, Item, MenuState};
use crate::legacy::apps::settings::{Settings, BASE_CHOICES, LANG_CHOICES};
use crate::legacy::apps::AppSet;
use crate::legacy::hw::Hardware;
use crate::legacy::lcd::Lcd;
use crate::time::DateTime;

verus! {

/// The settings menu shared by the configuration app and the time app's
/// menu: the number base and the weekday language.
pub open spec fn spec_settings_item(i: u8) -> Item {
    if i == 0 {
        Item::Choice { text: "base", pos: 4, choices: BASE_CHOICES }
    } else {
        Item::Choice { text: "lang", pos: 4, choices: LANG_CHOICES }
    }
}

/// Item `i` of the settings menu.
pub fn settings_item(i: u8) -> (item: Item)
    ensures
        item == spec_settings_item(i),
{
    if i == 0 {
        Item::Choice { text: "base", pos: 4, choices: BASE_CHOICES }
    } else {
        Item::Choice { text: "lang", pos: 4, choices: LANG_CHOICES }
    }
}

/// Number of settings items.
pub const SETTINGS_ITEMS: u8 = 2;

/// The settings after Enter on item `item`: the base or the language moves
/// to the next choice.
pub open spec fn settings_after_enter(s: Settings, item: u8) -> Settings {
    if item == 0 {
        Settings::new_spec(((s.spec_base() + 1) % 256 % 3) as u8, s.spec_lang())
    } else if item == 1 {
        Settings::new_spec(s.spec_base(), ((s.spec_lang() + 1) % 256 % 3) as u8)
    } else {
        s
    }
}

/// The value item `item` shows: the base for item 0, the language
/// otherwise.
pub open spec fn settings_value(s: Settings, item: u8) -> u8 {
    if item == 0 {
        s.spec_base()
    } else {
        s.spec_lang()
    }
}

/// The menu cursor after `event` on a menu of `n` items.
pub open spec fn cursor_after(item: u8, event: Event, n: u8) -> int {
    match event {
        Event::KeyDown => (item + 1) % n as int,
        Event::KeyUp => if item == 0 {
            n - 1
        } else {
            item - 1
        },
        _ => item as int,
    }
}

/// Handle a key of the settings menu: Down/Up move, Enter steps the shown
/// setting. Returns the new cursor.
pub fn settings_menu_key(st: &mut MenuState, event: Event, settings: &mut Settings)
    requires
        old(st).item_current < SETTINGS_ITEMS,
    ensures
        final(st).item_current == cursor_after(old(st).item_current, event, SETTINGS_ITEMS),
        final(st).item_current < SETTINGS_ITEMS,
        *final(settings) == (if event == Event::KeyEnter {
            settings_after_enter(*old(settings), old(st).item_current)
        } else {
            *old(settings)
        }),
{
    let n = SETTINGS_ITEMS;
    match event {
        Event::KeyDown => st.down(n),
        Event::KeyUp => st.up(n),
        Event::KeyEnter => {
            if st.item_current == 0 {
                let b = settings.base().wrapping_add(1);
                settings.set_base(b);
                proof {
                    let want = settings_after_enter(*old(settings), old(st).item_current);
                    Settings::lemma_new_spec(((old(settings).spec_base() + 1) % 256 % 3) as u8, old(settings).spec_lang());
                    Settings::lemma_ext(*settings, want);
                }
            } else if st.item_current == 1 {
                let l = settings.lang().wrapping_add(1);
                settings.set_lang(l);
                proof {
                    let want = settings_after_enter(*old(settings), old(st).item_current);
                    Settings::lemma_new_spec(old(settings).spec_base(), ((old(settings).spec_lang() + 1) % 256 % 3) as u8);
                    Settings::lemma_ext(*settings, want);
                }
            }
        },
        _ => {},
    }
}

/// The configuration app: a single-view menu.
#[derive(Clone, Copy)]
pub struct ConfApp {
    view: usize,
    st: MenuState,
}

impl ConfApp {
    /// The menu cursor is on an item.
    #[verifier::type_invariant]
    spec fn on_an_item(self) -> bool {
        self.st.item_current < SETTINGS_ITEMS
    }

    /// The active view.
    pub closed spec fn spec_view(self) -> int {
        self.view as int
    }

    /// The menu state.
    pub closed spec fn spec_menu(self) -> MenuState {
        self.st
    }

    /// An app as [`ConfApp::new`] makes it.
    pub closed spec fn fresh() -> Self {
        ConfApp { view: 0, st: MenuState { item_current: 0, adj_mode: false, adj_digit: 0 } }
    }

    /// The app showing view `view`.
    pub closed spec fn spec_with_view(self, view: int) -> Self {
        ConfApp { view: view as usize, ..self }
    }

    /// The app after it is entered: the menu is back on its first item.
    pub closed spec fn spec_entered(self) -> Self {
        ConfApp { st: MenuState { item_current: 0, adj_mode: false, adj_digit: 0 }, ..self }
    }

    pub fn new() -> (c: Self)
        ensures
            c == ConfApp::fresh(),
            c.spec_view() == 0,
            c.spec_menu() == (MenuState { item_current: 0, adj_mode: false, adj_digit: 0 }),
    {
        ConfApp { view: 0, st: MenuState::new() }
    }

    /// Entering resets the menu to its first item.
    pub(crate) fn enter<H: Hardware>(&mut self, _time: DateTime, hw: &mut H)
        ensures
            *final(self) == old(self).spec_entered(),
            final(self).spec_view() == old(self).spec_view(),
            final(self).spec_menu() == (MenuState { item_current: 0, adj_mode: false, adj_digit: 0 }),
            *final(hw) == *old(hw),
    {
        let mut st = self.st;
        st.reset();
        self.st = st;
    }

    pub(crate) fn leave<H: Hardware>(&mut self, _time: DateTime, hw: &mut H)
        ensures
            *final(self) == *old(self),
            *final(hw) == *old(hw),
    {
    }

    pub(crate) fn current_view(&self) -> (view: usize)
        ensures
            view == self.spec_view(),
    {
        self.view
    }

    pub(crate) fn set_current_view(&mut self, view: usize)
        ensures
            *final(self) == old(self).spec_with_view(view as int),
            final(self).spec_view() == view,
            final(self).spec_menu() == old(self).spec_menu(),
    {
        proof {
            use_type_invariant(&*self);
        }
        self.view = view;
    }

    /// What [`ConfApp::main`] does with `event` (see there): from the
    /// runtime `rt`, the glass `lit` and the request record `log` to the app
    /// `app`, the runtime `rt2`, the glass `lit2` and the record `log2`.
    pub open spec fn main_done(
        self,
        event: Event,
        rt: Runtime<AppSet>,
        lit: Set<(u8, u8)>,
        log: Seq<Effect>,
        app: Self,
        rt2: Runtime<AppSet>,
        lit2: Set<(u8, u8)>,
        log2: Seq<Effect>,
    ) -> bool {
        &&& app.spec_view() == self.spec_view()
        &&& event == Event::KeyEnterLong ==> {
            &&& app == self
            &&& lit2 == lit
            &&& log2 == log
            &&& rt2.spec_pending() == Some(Pending::<AppSet>::Exit)
            &&& rt2.spec_settings() == rt.spec_settings()
        }
        &&& event != Event::KeyEnterLong ==> {
            let item = app.spec_menu().item_current;
            &&& item == cursor_after(self.spec_menu().item_current, event, SETTINGS_ITEMS)
            &&& rt2.spec_settings() == (if event == Event::KeyEnter {
                settings_after_enter(rt.spec_settings(), self.spec_menu().item_current)
            } else {
                rt.spec_settings()
            })
            &&& rt2.spec_pending() == rt.spec_pending()
            &&& lit2 == menu_image(spec_settings_item(item), settings_value(rt2.spec_settings(), item), "cf", 8)
            &&& log2 == log
        }
        &&& only_requests(rt, rt2)
    }

    /// Down and Up move through the menu, Enter steps the shown setting, a
    /// long Enter goes back home; every other event redraws the menu.
    pub(crate) fn main<H: Hardware>(&mut self, event: Event, _time: DateTime, hw: &mut H, rt: &mut Runtime<AppSet>)
        ensures
            old(self).main_done(
                event,
                *old(rt),
                old(hw).segments(),
                old(hw).effects(),
                *final(self),
                *final(rt),
                final(hw).segments(),
                final(hw).effects(),
            ),
            final(self).spec_view() == old(self).spec_view(),
            event == Event::KeyEnterLong ==> {
                &&& *final(self) == *old(self)
                &&& *final(hw) == *old(hw)
                &&& final(rt).spec_pending() == Some(Pending::<AppSet>::Exit)
                &&& final(rt).spec_settings() == old(rt).spec_settings()
            },
            event != Event::KeyEnterLong ==> {
                let item = final(self).spec_menu().item_current;
                &&& item == cursor_after(old(self).spec_menu().item_current, event, SETTINGS_ITEMS)
                &&& final(rt).spec_settings() == (if event == Event::KeyEnter {
                    settings_after_enter(old(rt).spec_settings(), old(self).spec_menu().item_current)
                } else {
                    old(rt).spec_settings()
                })
                &&& final(rt).spec_pending() == old(rt).spec_pending()
                &&& final(hw).segments() == menu_image(
                    spec_settings_item(item),
                    settings_value(final(rt).spec_settings(), item),
                    "cf",
                    8,
                )
                &&& final(hw).effects() == old(hw).effects()
            },
            only_requests(*old(rt), *final(rt)),
    {
        proof {
            use_type_invariant(&*self);
        }
        if event == Event::KeyEnterLong {
            rt.exit();
            return;
        }
        let mut st = self.st;
        let mut settings = rt.settings();
        settings_menu_key(&mut st, event, &mut settings);
        rt.set_settings(settings);
        self.st = st;
        let value = if self.st.item_current == 0 {
            settings.base()
        } else {
            settings.lang()
        };
        let mut lcd = Lcd::new(hw);
        render(&mut lcd, &settings_item(self.st.item_current), value, "cf", 8);
    }
}

} // verus!
