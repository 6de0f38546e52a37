//! Pluto apps: the concrete app set for the watch.
//!
//! The launcher, the time clock face and its configuration menu, and the
//! configuration app. The [`AppSet`] enum implements the [`App`] trait, so
//! the [`crate::legacy::app::Runtime`] holds and switches apps statically.
use vstd::prelude::*;

pub mod conf;
pub mod launcher;
pub mod menu;
pub mod settings;
pub mod time;

use crate::hardware::{extends, lemma_extends_refl, Effect};
use crate::legacy::app::{only_requests, App, Event, Runtime};
use crate::legacy::hw::Hardware;
use crate::time::DateTime;

use conf::ConfApp;
use launcher::Launcher;
use time::TimeApp;

verus! {

/// All apps of this firmware as an enum; one variant per app. The [`App`]
/// impl forwards to the active variant, so the whole dispatch
/// monomorphises.
#[derive(Clone)]
pub enum AppSet {
    Launcher(Launcher),
    Time(TimeApp),
    Conf(ConfApp),
}

impl<H: Hardware> App<H> for AppSet {
    open spec fn view_index(&self) -> int {
        match self {
            AppSet::Launcher(a) => a.spec_view(),
            AppSet::Time(a) => a.spec_view(),
            AppSet::Conf(a) => a.spec_view(),
        }
    }

    open spec fn with_view(&self, view: int) -> Self {
        match self {
            AppSet::Launcher(a) => AppSet::Launcher(a.spec_with_view(view)),
            AppSet::Time(a) => AppSet::Time(a.spec_with_view(view)),
            AppSet::Conf(a) => AppSet::Conf(a.spec_with_view(view)),
        }
    }

    /// Entering the time app redraws its clock face on a cleared glass or
    /// puts its menu back on the first item; entering the configuration app
    /// puts its menu back on the first item; the launcher is unchanged.
    open spec fn entered(&self, time: DateTime) -> Self {
        match self {
            AppSet::Launcher(a) => *self,
            AppSet::Time(a) => AppSet::Time(a.spec_entered()),
            AppSet::Conf(a) => AppSet::Conf(a.spec_entered()),
        }
    }

    /// The current app handles the event as its own `main` states.
    open spec fn main_done(
        &self,
        event: Event,
        time: DateTime,
        rt: Runtime<Self>,
        lit: Set<(u8, u8)>,
        log: Seq<Effect>,
        app: Self,
        rt2: Runtime<Self>,
        lit2: Set<(u8, u8)>,
        log2: Seq<Effect>,
    ) -> bool {
        match (*self, app) {
            (AppSet::Launcher(a), AppSet::Launcher(b)) => a.main_done(event, rt, lit, log, b, rt2, lit2, log2),
            (AppSet::Time(a), AppSet::Time(b)) => a.main_done(event, rt, lit, log, b, rt2, lit2, log2),
            (AppSet::Conf(a), AppSet::Conf(b)) => a.main_done(event, rt, lit, log, b, rt2, lit2, log2),
            _ => false,
        }
    }

    /// Leaving an app changes nothing.
    open spec fn left(&self, time: DateTime) -> Self {
        *self
    }

    /// Entering an app requests nothing.
    open spec fn enter_effects(&self, time: DateTime) -> Seq<Effect> {
        Seq::empty()
    }

    /// Leaving an app requests nothing.
    open spec fn leave_effects(&self, time: DateTime) -> Seq<Effect> {
        Seq::empty()
    }

    fn enter(&mut self, time: DateTime, hw: &mut H) {
        match self {
            AppSet::Launcher(a) => a.enter(time, hw),
            AppSet::Time(a) => a.enter(time, hw),
            AppSet::Conf(a) => a.enter(time, hw),
        }
        proof {
            assert(hw.effects() =~= old(hw).effects() + Seq::<Effect>::empty());
        }
    }

    fn leave(&mut self, time: DateTime, hw: &mut H) {
        match self {
            AppSet::Launcher(a) => a.leave(time, hw),
            AppSet::Time(a) => a.leave(time, hw),
            AppSet::Conf(a) => a.leave(time, hw),
        }
        proof {
            assert(hw.effects() =~= old(hw).effects() + Seq::<Effect>::empty());
        }
    }

    fn main(&mut self, event: Event, time: DateTime, hw: &mut H, rt: &mut Runtime<AppSet>) {
        match self {
            AppSet::Launcher(a) => {
                a.main(event, time, hw, rt);
                proof {
                    lemma_extends_refl(hw.effects());
                }
            },
            AppSet::Time(a) => a.main(event, time, hw, rt),
            AppSet::Conf(a) => {
                a.main(event, time, hw, rt);
                proof {
                    lemma_extends_refl(hw.effects());
                    lemma_extends_refl(old(hw).effects());
                }
            },
        }
    }

    fn current_view(&self) -> (view: usize) {
        match self {
            AppSet::Launcher(a) => a.current_view(),
            AppSet::Time(a) => a.current_view(),
            AppSet::Conf(a) => a.current_view(),
        }
    }

    fn set_current_view(&mut self, view: usize) {
        match self {
            AppSet::Launcher(a) => a.set_current_view(view),
            AppSet::Time(a) => a.set_current_view(view),
            AppSet::Conf(a) => a.set_current_view(view),
        }
    }
}


/// A tick queues nothing: whatever app is current, its handling of a tick
/// leaves the runtime's queued request as it was, so a launch or a
/// going-home queued before is applied at the end of that tick's `process`.
pub proof fn lemma_tick_keeps_the_queue<H: Hardware>(
    a: AppSet,
    time: DateTime,
    rt: Runtime<AppSet>,
    lit: Set<(u8, u8)>,
    log: Seq<Effect>,
    a1: AppSet,
    rt1: Runtime<AppSet>,
    lit1: Set<(u8, u8)>,
    log1: Seq<Effect>,
)
    requires
        App::<H>::main_done(&a, Event::Tick, time, rt, lit, log, a1, rt1, lit1, log1),
    ensures
        rt1.spec_pending() == rt.spec_pending(),
{
    match (a, a1) {
        (AppSet::Time(x), AppSet::Time(y)) => {
            x.lemma_tick_keeps_the_queue(rt, lit, log, y, rt1, lit1, log1);
        },
        _ => {},
    }
}

} // verus!
