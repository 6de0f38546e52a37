//! The launcher app: a menu of the other apps.
use vstd::prelude::*;

use crate::hardware::Effect;

use crate::legacy::app::{only_requests, Event, Pending, Runtime};
use crate::legacy::apps::conf::ConfApp;
use crate::legacy::apps::menu::{menu_image, render, Item, MenuState};
use crate::legacy::apps::time::TimeApp;
use crate::legacy::apps::AppSet;
use crate::legacy::hw::Hardware;
use crate::legacy::lcd::Lcd;
use crate::time::DateTime;

verus! {

/// Number of launcher items.
pub const LAUNCHER_ITEMS: u8 = 9;

/// The launcher menu, same layout as pluto's.
pub open spec fn spec_launcher_item(i: u8) -> Item {
    if i == 0 {
        Item::Text(" time")
    } else if i == 1 {
        Item::Text("ctdn")
    } else if i == 2 {
        Item::Text(" alarm")
    } else if i == 3 {
        Item::Text("chro")
    } else if i == 4 {
        Item::Text(" play")
    } else if i == 5 {
        Item::Text("compa")
    } else if i == 6 {
        Item::Text("speed")
    } else if i == 7 {
        Item::Text("conf")
    } else {
        Item::Text("   otp")
    }
}

/// Item `i` of the launcher menu.
fn launcher_item(i: u8) -> (item: Item)
    ensures
        item == spec_launcher_item(i),
{
    if i == 0 {
        Item::Text(" time")
    } else if i == 1 {
        Item::Text("ctdn")
    } else if i == 2 {
        Item::Text(" alarm")
    } else if i == 3 {
        Item::Text("chro")
    } else if i == 4 {
        Item::Text(" play")
    } else if i == 5 {
        Item::Text("compa")
    } else if i == 6 {
        Item::Text("speed")
    } else if i == 7 {
        Item::Text("conf")
    } else {
        Item::Text("   otp")
    }
}

/// The launcher app: a single-view menu.
#[derive(Clone, Copy)]
pub struct Launcher {
    view: usize,
    st: MenuState,
}

impl Launcher {
    /// The menu cursor is on an item.
    #[verifier::type_invariant]
    spec fn on_an_item(self) -> bool {
        self.st.item_current < LAUNCHER_ITEMS
    }

    /// The active view.
    pub closed spec fn spec_view(self) -> int {
        self.view as int
    }

    /// The menu state.
    pub closed spec fn spec_menu(self) -> MenuState {
        self.st
    }

    /// The launcher showing view `view`.
    pub closed spec fn spec_with_view(self, view: int) -> Self {
        Launcher { view: view as usize, ..self }
    }

    pub fn new() -> (l: Self)
        ensures
            l.spec_view() == 0,
            l.spec_menu() == (MenuState { item_current: 0, adj_mode: false, adj_digit: 0 }),
    {
        Launcher { view: 0, st: MenuState::new() }
    }

    pub(crate) fn enter<H: Hardware>(&mut self, _time: DateTime, hw: &mut H)
        ensures
            *final(self) == *old(self),
            *final(hw) == *old(hw),
    {
    }

    pub(crate) fn leave<H: Hardware>(&mut self, _time: DateTime, hw: &mut H)
        ensures
            *final(self) == *old(self),
            *final(hw) == *old(hw),
    {
    }

    pub(crate) fn current_view(&self) -> (view: usize)
        ensures
            view == self.spec_view(),
    {
        self.view
    }

    pub(crate) fn set_current_view(&mut self, view: usize)
        ensures
            *final(self) == old(self).spec_with_view(view as int),
            final(self).spec_view() == view,
            final(self).spec_menu() == old(self).spec_menu(),
    {
        proof {
            use_type_invariant(&*self);
        }
        self.view = view;
    }

    /// What [`Launcher::main`] does with `event` (see there): from the
    /// runtime `rt`, the glass `lit` and the request record `log` to the app
    /// `app`, the runtime `rt2`, the glass `lit2` and the record `log2`.
    pub open spec fn main_done(
        self,
        event: Event,
        rt: Runtime<AppSet>,
        lit: Set<(u8, u8)>,
        log: Seq<Effect>,
        app: Self,
        rt2: Runtime<AppSet>,
        lit2: Set<(u8, u8)>,
        log2: Seq<Effect>,
    ) -> bool {
        &&& app.spec_view() == self.spec_view()
        &&& app.spec_menu().item_current == (match event {
            Event::KeyDown => (self.spec_menu().item_current + 1) % 9,
            Event::KeyUp => if self.spec_menu().item_current == 0 {
                8
            } else {
                self.spec_menu().item_current - 1
            },
            _ => self.spec_menu().item_current as int,
        })
        &&& lit2 == menu_image(spec_launcher_item(app.spec_menu().item_current), 0, "la", 8)
        &&& log2 == log
        &&& only_requests(rt, rt2)
        &&& rt2.spec_settings() == rt.spec_settings()
        &&& rt2.spec_pending() == (match event {
            Event::KeyEnter => if self.spec_menu().item_current == 0 {
                Some(Pending::Launch(AppSet::Time(TimeApp::fresh())))
            } else if self.spec_menu().item_current == 7 {
                Some(Pending::Launch(AppSet::Conf(ConfApp::fresh())))
            } else {
                rt.spec_pending()
            },
            Event::KeyEnterLong => Some(Pending::Launch(AppSet::Time(TimeApp::fresh()))),
            _ => rt.spec_pending(),
        })
    }

    /// Down and Up move through the menu; Enter on `time` or `conf` launches
    /// that app, a long Enter launches the time app. Every event redraws the
    /// menu.
    pub(crate) fn main<H: Hardware>(&mut self, event: Event, _time: DateTime, hw: &mut H, rt: &mut Runtime<AppSet>)
        ensures
            old(self).main_done(
                event,
                *old(rt),
                old(hw).segments(),
                old(hw).effects(),
                *final(self),
                *final(rt),
                final(hw).segments(),
                final(hw).effects(),
            ),
            final(self).spec_view() == old(self).spec_view(),
            final(self).spec_menu().item_current == (match event {
                Event::KeyDown => (old(self).spec_menu().item_current + 1) % 9,
                Event::KeyUp => if old(self).spec_menu().item_current == 0 {
                    8
                } else {
                    old(self).spec_menu().item_current - 1
                },
                _ => old(self).spec_menu().item_current as int,
            }),
            final(hw).segments() == menu_image(
                spec_launcher_item(final(self).spec_menu().item_current),
                0,
                "la",
                8,
            ),
            final(hw).effects() == old(hw).effects(),
            only_requests(*old(rt), *final(rt)),
            final(rt).spec_settings() == old(rt).spec_settings(),
            final(rt).spec_pending() == (match event {
                Event::KeyEnter => if old(self).spec_menu().item_current == 0 {
                    Some(Pending::Launch(AppSet::Time(TimeApp::fresh())))
                } else if old(self).spec_menu().item_current == 7 {
                    Some(Pending::Launch(AppSet::Conf(ConfApp::fresh())))
                } else {
                    old(rt).spec_pending()
                },
                Event::KeyEnterLong => Some(Pending::Launch(AppSet::Time(TimeApp::fresh()))),
                _ => old(rt).spec_pending(),
            }),
    {
        proof {
            use_type_invariant(&*self);
        }
        let n = LAUNCHER_ITEMS;
        let mut st = self.st;
        match event {
            Event::KeyDown => st.down(n),
            Event::KeyUp => st.up(n),
            Event::KeyEnter => {
                if st.item_current == 0 {
                    rt.launch(AppSet::Time(TimeApp::new()));
                } else if st.item_current == 7 {
                    rt.launch(AppSet::Conf(ConfApp::new()));
                }
            },
            Event::KeyEnterLong => rt.launch(AppSet::Time(TimeApp::new())),
            _ => {},
        }
        self.st = st;
        let mut lcd = Lcd::new(hw);
        render(&mut lcd, &launcher_item(self.st.item_current), 0, "la", 8);
    }
}

} // verus!
