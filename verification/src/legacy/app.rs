//! The app / view runtime: an app is a set of views, one is active at a time, and
//! every key press / tick is an [`Event`] delivered to the active view.
//!
//! Everything is generic over the [`Hardware`] type and the concrete app-set
//! enum (generics, not `dyn`), so the whole dispatch monomorphises.
use vstd::prelude::*;

use crate::hardware::{extends, lemma_extends_refl, lemma_extends_trans, Effect};
use crate::legacy::apps::settings::Settings;
use crate::legacy::hw::Hardware;
use crate::legacy::input::KeyId;
use crate::time::DateTime;

verus! {

/// What can happen on the watch: a tick, a key press, or the auxiliary timer.
#[derive(Clone, Copy, Debug, PartialEq, Eq, Structural)]
pub enum Event {
    /// Periodic heartbeat (once per second).
    Tick,
    /// The Up key (Light button) was pressed.
    KeyUp,
    /// The Down key (Mode button) was pressed.
    KeyDown,
    /// The Enter key (Alarm button) was pressed.
    KeyEnter,
    /// Up held past the hold delay (auto-repeats).
    KeyUpLong,
    /// Down held past the hold delay (auto-repeats).
    KeyDownLong,
    /// Enter held past the hold delay.
    KeyEnterLong,
    /// The auxiliary timer reached zero.
    AuxTimer,
}

impl Event {
    /// The event of a plain press of `key`.
    pub open spec fn spec_key(key: KeyId) -> Event {
        match key {
            KeyId::Up => Event::KeyUp,
            KeyId::Down => Event::KeyDown,
            KeyId::Enter => Event::KeyEnter,
        }
    }

    /// The event of `key` held down.
    pub open spec fn spec_key_long(key: KeyId) -> Event {
        match key {
            KeyId::Up => Event::KeyUpLong,
            KeyId::Down => Event::KeyDownLong,
            KeyId::Enter => Event::KeyEnterLong,
        }
    }

    pub fn key(key: KeyId) -> (e: Event)
        ensures
            e == Event::spec_key(key),
    {
        match key {
            KeyId::Up => Event::KeyUp,
            KeyId::Down => Event::KeyDown,
            KeyId::Enter => Event::KeyEnter,
        }
    }

    pub fn key_long(key: KeyId) -> (e: Event)
        ensures
            e == Event::spec_key_long(key),
    {
        match key {
            KeyId::Up => Event::KeyUpLong,
            KeyId::Down => Event::KeyDownLong,
            KeyId::Enter => Event::KeyEnterLong,
        }
    }
}

/// What an app's event handling may change of the runtime: it queues a
/// transition and edits the settings, and leaves the rest alone.
pub open spec fn only_requests<A>(before: Runtime<A>, after: Runtime<A>) -> bool {
    &&& after.spec_app() == before.spec_app()
    &&& after.spec_view() == before.spec_view()
    &&& after.spec_home() == before.spec_home()
    &&& after.spec_backlight_ticks() == before.spec_backlight_ticks()
}

/// A view: one screen of an app. Views are plain structs owned by their app;
/// the app's [`App::main`] dispatches to the active view statically. Views
/// receive a handle to the runtime to switch views / launch apps.
pub trait View<H: Hardware, A: App<H>> {
    /// Called when the view becomes active.
    fn enter(&mut self, time: DateTime, hw: &mut H)
        ensures
            extends(old(hw).effects(), final(hw).effects()),
    {
        proof {
            lemma_extends_refl(hw.effects());
        }
    }

    /// Called when the view stops being active.
    fn leave(&mut self, time: DateTime, hw: &mut H)
        ensures
            extends(old(hw).effects(), final(hw).effects()),
    {
        proof {
            lemma_extends_refl(hw.effects());
        }
    }

    /// Called on every event while the view is active.
    fn main(&mut self, event: Event, time: DateTime, hw: &mut H, rt: &mut Runtime<A>)
        ensures
            extends(old(hw).effects(), final(hw).effects()),
            only_requests(*old(rt), *final(rt)),
    ;
}

/// An app: a named program with a set of views, exactly one active at a time.
///
/// Implemented by the concrete app-set enum (one variant per app), so the
/// runtime can hold and switch apps without any dynamic dispatch. Each app
/// owns its view state and dispatches to the active view itself.
pub trait App<H: Hardware>: Clone + Sized {
    /// The index of the active view.
    spec fn view_index(&self) -> int;

    /// The app after [`App::set_current_view`] switched it to `view`.
    spec fn with_view(&self, view: int) -> Self;

    /// The app after [`App::enter`] at `time`.
    spec fn entered(&self, time: DateTime) -> Self;

    /// The app after [`App::leave`] at `time`.
    spec fn left(&self, time: DateTime) -> Self;

    /// What [`App::enter`] at `time` requests of the hardware beyond the
    /// glass.
    spec fn enter_effects(&self, time: DateTime) -> Seq<Effect>;

    /// What [`App::leave`] at `time` requests of the hardware beyond the
    /// glass.
    spec fn leave_effects(&self, time: DateTime) -> Seq<Effect>;

    /// Called when the app becomes current.
    fn enter(&mut self, time: DateTime, hw: &mut H)
        ensures
            *final(self) == old(self).entered(time),
            final(self).view_index() == old(self).view_index(),
            final(hw).effects() == old(hw).effects() + old(self).enter_effects(time),
    ;

    /// Called when the app stops being current.
    fn leave(&mut self, time: DateTime, hw: &mut H)
        ensures
            *final(self) == old(self).left(time),
            final(self).view_index() == old(self).view_index(),
            final(hw).effects() == old(hw).effects() + old(self).leave_effects(time),
    ;

    /// Whether [`App::main`], handling `event` at `time` from the runtime
    /// `rt`, the glass `lit` and the request record `log`, may leave the app
    /// `app`, the runtime `rt2`, the glass `lit2` and the record `log2`.
    spec fn main_done(
        &self,
        event: Event,
        time: DateTime,
        rt: Runtime<Self>,
        lit: Set<(u8, u8)>,
        log: Seq<Effect>,
        app: Self,
        rt2: Runtime<Self>,
        lit2: Set<(u8, u8)>,
        log2: Seq<Effect>,
    ) -> bool;

    /// Called on every event while the app is current.
    fn main(&mut self, event: Event, time: DateTime, hw: &mut H, rt: &mut Runtime<Self>)
        ensures
            old(self).main_done(
                event,
                time,
                *old(rt),
                old(hw).segments(),
                old(hw).effects(),
                *final(self),
                *final(rt),
                final(hw).segments(),
                final(hw).effects(),
            ),
            final(self).view_index() == old(self).view_index(),
            extends(old(hw).effects(), final(hw).effects()),
            only_requests(*old(rt), *final(rt)),
    ;

    /// The currently active view index.
    fn current_view(&self) -> (view: usize)
        ensures
            view == self.view_index(),
    ;

    /// Switch to `view` within this app (used by the runtime).
    fn set_current_view(&mut self, view: usize)
        ensures
            *final(self) == old(self).with_view(view as int),
            final(self).view_index() == view,
    ;
}

/// A request queued by a view (via [`Runtime`]) and applied after the current
/// event has been processed.
pub enum Pending<A> {
    Launch(A),
    Exit,
    SetView(usize),
}

/// How long the backlight stays on (in ticks) after it was turned on.
pub const BACKLIGHT_TIMEOUT_TICKS: u8 = 8;

/// The backlight countdown after `event`: a long Up press (re)starts it, any
/// other key keeps a running one full, and a tick counts it down.
pub open spec fn backlight_after(ticks: u8, event: Event) -> u8 {
    let started = if event == Event::KeyUpLong { BACKLIGHT_TIMEOUT_TICKS } else { ticks };
    let kept = if started > 0 && event != Event::Tick { BACKLIGHT_TIMEOUT_TICKS } else { started };
    if event == Event::Tick && kept > 0 {
        (kept - 1) as u8
    } else {
        kept
    }
}

/// The backlight requests of `event`: on for a long Up press, off for a
/// tick once the countdown has run out (repeated on every such tick).
pub open spec fn backlight_requests(ticks: u8, event: Event) -> Seq<Effect> {
    if event == Event::KeyUpLong {
        seq![Effect::Backlight(true)]
    } else if event == Event::Tick && ticks == 0 {
        seq![Effect::Backlight(false)]
    } else {
        seq![]
    }
}

/// The backlight countdown after `n` ticks from `ticks`.
pub open spec fn after_ticks(ticks: u8, n: nat) -> u8
    decreases n,
{
    if n == 0 {
        ticks
    } else {
        backlight_after(after_ticks(ticks, (n - 1) as nat), Event::Tick)
    }
}

/// The backlight stays on for [`BACKLIGHT_TIMEOUT_TICKS`] ticks after a long
/// Up press: those ticks request nothing, the one after them switches the
/// light off.
pub proof fn lemma_backlight_countdown(ticks: u8, n: nat)
    ensures
        backlight_requests(ticks, Event::KeyUpLong) == seq![Effect::Backlight(true)],
        n <= 8 ==> after_ticks(backlight_after(ticks, Event::KeyUpLong), n) == 8 - n,
        n < 8 ==> backlight_requests(after_ticks(backlight_after(ticks, Event::KeyUpLong), n), Event::Tick)
            == Seq::<Effect>::empty(),
        backlight_requests(after_ticks(backlight_after(ticks, Event::KeyUpLong), 8), Event::Tick) == seq![
            Effect::Backlight(false),
        ],
{
    if n <= 8 {
        lemma_backlight_countdown_to_zero(ticks, n);
    }
    lemma_backlight_countdown_to_zero(ticks, 8);
}

/// [`lemma_backlight_countdown`] for the whole countdown.
proof fn lemma_backlight_countdown_to_zero(ticks: u8, n: nat)
    requires
        n <= 8,
    ensures
        after_ticks(backlight_after(ticks, Event::KeyUpLong), n) == 8 - n,
    decreases n,
{
    if n > 0 {
        lemma_backlight_countdown_to_zero(ticks, (n - 1) as nat);
    }
}

/// The runtime `after` and the request record `log2` that applying the
/// queued transition of `before` (with the record `log`) leaves at `time`:
/// launching an app or going home leaves the current app and enters the new
/// one (a clone of the home app) at view 0; a view switch leaves and
/// re-enters the app when the view changes and shows the view; nothing
/// queued changes nothing. The queue is empty afterwards.
pub open spec fn applied<H: Hardware, A: App<H>>(
    before: Runtime<A>,
    log: Seq<Effect>,
    after: Runtime<A>,
    log2: Seq<Effect>,
    time: DateTime,
) -> bool {
    let left = match before.spec_app() {
        Some(a) => a.leave_effects(time),
        None => Seq::empty(),
    };
    &&& after.spec_pending() is None
    &&& after.spec_home() == before.spec_home()
    &&& after.spec_backlight_ticks() == before.spec_backlight_ticks()
    &&& after.spec_settings() == before.spec_settings()
    &&& match before.spec_pending() {
        Some(Pending::Launch(app)) => {
            &&& after.spec_view() == 0
            &&& after.spec_app() == Some(app.with_view(0).entered(time))
            &&& after.spec_app()->0.view_index() == 0
            &&& log2 == log + left + app.with_view(0).enter_effects(time)
        },
        Some(Pending::Exit) => {
            &&& after.spec_view() == 0
            &&& match before.spec_home() {
                Some(home) => exists|c: A|
                    #[trigger] cloned::<A>(home, c) && after.spec_app() == Some(c.with_view(0).entered(time))
                        && log2 == log + left + c.with_view(0).enter_effects(time),
                None => after.spec_app() is None && log2 == log + left,
            }
            &&& after.spec_app() is Some ==> after.spec_app()->0.view_index() == 0
        },
        Some(Pending::SetView(v)) => match before.spec_app() {
            Some(a) => {
                &&& after.spec_view() == v
                &&& if v != a.view_index() {
                    &&& after.spec_app() == Some(a.left(time).with_view(v as int).entered(time))
                    &&& after.spec_app()->0.view_index() == v
                    &&& log2 == log + left + a.left(time).with_view(v as int).enter_effects(time)
                } else {
                    &&& after.spec_app() == Some(a)
                    &&& log2 == log
                }
            },
            None => after.spec_view() == before.spec_view() && after.spec_app() is None && log2 == log,
        },
        None => after == before && log2 == log,
    }
}

/// The app runtime: holds the current app + view and dispatches events.
///
/// `A` is the app-set enum (all apps of this firmware); `home` is the app to
/// return to on [`Runtime::exit`], set on [`Runtime::boot`]. The runtime
/// also keeps the watch settings the apps share.
pub struct Runtime<A> {
    app: Option<A>,
    view: usize,
    home: Option<A>,
    pending: Option<Pending<A>>,
    /// Backlight countdown in ticks.
    backlight_ticks: u8,
    settings: Settings,
}

impl<A> Runtime<A> {
    /// The app on screen.
    pub closed spec fn spec_app(self) -> Option<A> {
        self.app
    }

    /// The view index of the app on screen.
    pub closed spec fn spec_view(self) -> int {
        self.view as int
    }

    /// The app the runtime returns to on [`Runtime::exit`].
    pub closed spec fn spec_home(self) -> Option<A> {
        self.home
    }

    /// The queued transition.
    pub closed spec fn spec_pending(self) -> Option<Pending<A>> {
        self.pending
    }

    /// The backlight countdown.
    pub closed spec fn spec_backlight_ticks(self) -> u8 {
        self.backlight_ticks
    }

    /// The shared settings.
    pub closed spec fn spec_settings(self) -> Settings {
        self.settings
    }

    /// The runtime as the current app sees it while it handles `event`: the
    /// app is taken out and the backlight countdown has moved on.
    pub closed spec fn handing(self, event: Event) -> Self {
        Runtime { app: None, backlight_ticks: backlight_after(self.backlight_ticks, event), ..self }
    }

    /// The runtime with `app` on screen.
    pub closed spec fn with_app(self, app: Option<A>) -> Self {
        Runtime { app, ..self }
    }

    pub fn new() -> (rt: Self)
        ensures
            rt.spec_app() is None,
            rt.spec_view() == 0,
            rt.spec_home() is None,
            rt.spec_pending() is None,
            rt.spec_backlight_ticks() == 0,
            rt.spec_settings() == Settings::spec_default(),
    {
        Runtime { app: None, view: 0, home: None, pending: None, backlight_ticks: 0, settings: Settings::new() }
    }

    /// The app currently on screen.
    pub fn current_app(&self) -> (app: Option<&A>)
        ensures
            app is Some <==> self.spec_app() is Some,
            app is Some ==> *app->0 == self.spec_app()->0,
    {
        match &self.app {
            Some(a) => Some(a),
            None => None,
        }
    }

    /// The view index currently on screen.
    pub fn current_view(&self) -> (view: usize)
        ensures
            view == self.spec_view(),
    {
        self.view
    }

    /// The shared settings.
    pub fn settings(&self) -> (s: Settings)
        ensures
            s == self.spec_settings(),
    {
        self.settings
    }

    /// Replace the shared settings.
    pub fn set_settings(&mut self, settings: Settings)
        ensures
            final(self).spec_settings() == settings,
            only_requests(*old(self), *final(self)),
            final(self).spec_pending() == old(self).spec_pending(),
    {
        self.settings = settings;
    }

    /// Switch to a different app.
    pub fn launch(&mut self, app: A)
        ensures
            final(self).spec_pending() == Some(Pending::Launch(app)),
            only_requests(*old(self), *final(self)),
            final(self).spec_settings() == old(self).spec_settings(),
    {
        self.pending = Some(Pending::Launch(app));
    }

    /// Go back to the app the watch booted on (the launcher).
    pub fn exit(&mut self)
        ensures
            final(self).spec_pending() == Some(Pending::<A>::Exit),
            only_requests(*old(self), *final(self)),
            final(self).spec_settings() == old(self).spec_settings(),
    {
        self.pending = Some(Pending::Exit);
    }

    /// Switch to a view within the current app.
    pub fn set_view(&mut self, view: usize)
        ensures
            final(self).spec_pending() == Some(Pending::<A>::SetView(view)),
            only_requests(*old(self), *final(self)),
            final(self).spec_settings() == old(self).spec_settings(),
    {
        self.pending = Some(Pending::SetView(view));
    }

    /// Start the watch on `app` (boot). `home` is the app returned to on
    /// [`Runtime::exit`] (the launcher), which may differ from `app`.
    pub fn boot<H: Hardware>(&mut self, app: A, home: A, time: DateTime, hw: &mut H)
        where
            A: App<H>,
        ensures
            final(self).spec_home() == Some(home),
            final(self).spec_view() == 0,
            final(self).spec_app() == Some(app.with_view(0).entered(time)),
            final(self).spec_app()->0.view_index() == 0,
            final(self).spec_pending() == old(self).spec_pending(),
            final(self).spec_backlight_ticks() == old(self).spec_backlight_ticks(),
            final(self).spec_settings() == old(self).spec_settings(),
            final(hw).effects() == old(hw).effects() + app.with_view(0).enter_effects(time),
    {
        self.home = Some(home);
        self.view = 0;
        let mut a = app;
        a.set_current_view(0);
        a.enter(time, hw);
        self.app = Some(a);
    }

    /// Process the backlight, deliver the event to the active app, then apply
    /// any queued transition.
    pub fn process<H: Hardware>(&mut self, event: Event, time: DateTime, hw: &mut H)
        where
            A: App<H>,
        ensures
            final(self).spec_backlight_ticks() == backlight_after(old(self).spec_backlight_ticks(), event),
            extends(
                old(hw).effects() + backlight_requests(old(self).spec_backlight_ticks(), event),
                final(hw).effects(),
            ),
            final(self).spec_pending() is None,
            final(self).spec_home() == old(self).spec_home(),
            final(self).spec_settings() == old(self).spec_settings() || old(self).spec_app() is Some,
            old(self).spec_app() is None && old(self).spec_pending() is None ==> {
                &&& final(self).spec_app() is None
                &&& final(self).spec_view() == old(self).spec_view()
            },
            ({
                let log0 = old(hw).effects() + backlight_requests(old(self).spec_backlight_ticks(), event);
                match old(self).spec_app() {
                    Some(a) => exists|a1: A, r1: Runtime<A>, lit1: Set<(u8, u8)>, log1: Seq<Effect>|
                        #[trigger] a.main_done(
                            event,
                            time,
                            old(self).handing(event),
                            old(hw).segments(),
                            log0,
                            a1,
                            r1,
                            lit1,
                            log1,
                        ) && applied::<H, A>(r1.with_app(Some(a1)), log1, *final(self), final(hw).effects(), time),
                    None => applied::<H, A>(old(self).handing(event), log0, *final(self), final(hw).effects(), time),
                }
            }),
    {
        let ghost start = hw.effects();
        if event == Event::KeyUpLong {
            self.backlight_ticks = BACKLIGHT_TIMEOUT_TICKS;
            hw.backlight_set(true);
        }
        if self.backlight_ticks > 0 && event != Event::Tick {
            self.backlight_ticks = BACKLIGHT_TIMEOUT_TICKS;
        }
        if event == Event::Tick {
            if self.backlight_ticks > 0 {
                self.backlight_ticks -= 1;
            } else {
                hw.backlight_set(false);
            }
        }
        let ghost lit = hw.effects();
        assert(lit =~= start + backlight_requests(old(self).spec_backlight_ticks(), event));
        proof {
            lemma_extends_refl(lit);
        }
        let ghost glass = hw.segments();
        let ghost a1: A;
        let ghost r1: Runtime<A>;
        match self.app.take() {
            Some(mut app) => {
                assert(*self == old(self).handing(event));
                app.main(event, time, hw, self);
                proof {
                    a1 = app;
                    r1 = *self;
                }
                self.app = Some(app);
            },
            None => {
                assert(*self == old(self).handing(event));
            },
        }
        let ghost dispatched = hw.effects();
        let ghost lit1 = hw.segments();
        let ghost before_apply = *self;
        self.apply_pending(time, hw);
        proof {
            lemma_extends_trans(lit, dispatched, hw.effects());
            if old(self).spec_app() is Some {
                assert(before_apply == r1.with_app(Some(a1)));
                assert(old(self).spec_app()->0.main_done(
                    event,
                    time,
                    old(self).handing(event),
                    glass,
                    lit,
                    a1,
                    r1,
                    lit1,
                    dispatched,
                ));
            }
        }
    }

    /// Apply the queued transition: launching an app or going home leaves
    /// the current app and enters the new one (a clone of the home app) at
    /// view 0; a view switch leaves and re-enters the app when the view
    /// changes.
    fn apply_pending<H: Hardware>(&mut self, time: DateTime, hw: &mut H)
        where
            A: App<H>,
        ensures
            applied::<H, A>(*old(self), old(hw).effects(), *final(self), final(hw).effects(), time),
            extends(old(hw).effects(), final(hw).effects()),
    {
        match self.pending.take() {
            Some(Pending::Launch(app)) => {
                match self.app.take() {
                    Some(mut old_app) => old_app.leave(time, hw),
                    None => {},
                }
                self.view = 0;
                let mut a = app;
                a.set_current_view(0);
                a.enter(time, hw);
                self.app = Some(a);
            },
            Some(Pending::Exit) => {
                match self.app.take() {
                    Some(mut old_app) => old_app.leave(time, hw),
                    None => {},
                }
                let ghost left = hw.effects();
                self.view = 0;
                match self.home.clone() {
                    Some(home) => {
                        let ghost c = home;
                        let mut a = home;
                        a.set_current_view(0);
                        a.enter(time, hw);
                        self.app = Some(a);
                        proof {
                            assert(cloned::<A>(old(self).spec_home()->0, c));
                            assert(hw.effects() =~= left + c.with_view(0).enter_effects(time));
                        }
                    },
                    None => {
                        self.app = None;
                    },
                }
            },
            Some(Pending::SetView(view)) => {
                match self.app.take() {
                    Some(mut app) => {
                        if view != app.current_view() {
                            app.leave(time, hw);
                            app.set_current_view(view);
                            app.enter(time, hw);
                        }
                        self.view = view;
                        self.app = Some(app);
                    },
                    None => {},
                }
            },
            None => {},
        }
        proof {
            assert(hw.effects().subrange(0, old(hw).effects().len() as int) =~= old(hw).effects());
        }
    }
}


/// A launch still queued when the current app has handled the event is
/// applied at the end of the same `process`: the launched app is entered at
/// view 0 and shown, and the queue is empty.
pub proof fn lemma_queued_launch_applies<H: Hardware, A: App<H>>(
    r1: Runtime<A>,
    a1: Option<A>,
    log1: Seq<Effect>,
    after: Runtime<A>,
    log2: Seq<Effect>,
    time: DateTime,
    b: A,
)
    requires
        r1.spec_pending() == Some(Pending::Launch(b)),
        applied::<H, A>(r1.with_app(a1), log1, after, log2, time),
    ensures
        after.spec_app() == Some(b.with_view(0).entered(time)),
        after.spec_view() == 0,
        after.spec_app()->0.view_index() == 0,
        after.spec_pending() is None,
{
}

/// A going-home still queued when the current app has handled the event is
/// applied at the end of the same `process`: a clone of the home app is
/// entered at view 0 and shown (nothing is shown without a home app), and
/// the queue is empty.
pub proof fn lemma_queued_exit_applies<H: Hardware, A: App<H>>(
    r1: Runtime<A>,
    a1: Option<A>,
    log1: Seq<Effect>,
    after: Runtime<A>,
    log2: Seq<Effect>,
    time: DateTime,
)
    requires
        r1.spec_pending() == Some(Pending::<A>::Exit),
        applied::<H, A>(r1.with_app(a1), log1, after, log2, time),
    ensures
        after.spec_view() == 0,
        after.spec_pending() is None,
        match r1.spec_home() {
            Some(home) => exists|c: A|
                #[trigger] cloned::<A>(home, c) && after.spec_app() == Some(c.with_view(0).entered(time)),
            None => after.spec_app() is None,
        },
        after.spec_app() is Some ==> after.spec_app()->0.view_index() == 0,
{
}

} // verus!
