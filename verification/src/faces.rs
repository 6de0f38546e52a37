//! The faces (programs) of the watch.
//!
//! Each face is a struct implementing [`Face`]. [`Faces`] is the enum that
//! links them all together and is the type parameter of the runtime. To add a
//! new face: write a module below, add it as a variant of [`Faces`], delegate
//! the trait methods, and add it to [`FaceSet::all`].
use vstd::prelude::*;

pub mod alarm;
pub mod calendar;
pub mod simple_alarm;
pub mod simple_clock;
pub mod timer;

use crate::face::{AlarmAction, ChordEvent, Face, FaceContext, GestureEvent};
use crate::hardware::{Effect, Hardware};
use crate::watch::FaceSet;

pub use alarm::{Alarm, AlarmDay, AlarmField, AlarmMode};
pub use calendar::{Calendar, CalendarField, CalendarMode};
pub use simple_alarm::{SimpleAlarm, SimpleAlarmField, SimpleAlarmMode};
pub use simple_clock::SimpleClock;
pub use timer::{Timer, TimerField, TimerMode};

verus! {

/// Number of faces.
pub const FACE_COUNT: usize = 5;

/// All faces, linked together as an enum. `SimpleClock` is always the first
/// variant: the runtime boots into it and it is the `Default`.
#[derive(Clone, Copy, PartialEq, Eq)]
pub enum Faces {
    SimpleClock(SimpleClock),
    Alarm(Alarm),
    SimpleAlarm(SimpleAlarm),
    Timer(Timer),
    Calendar(Calendar),
}

impl Default for Faces {
    fn default() -> (f: Self)
        ensures
            f == Faces::SimpleClock(SimpleClock {}),
    {
        Faces::SimpleClock(SimpleClock::new())
    }
}

impl Face for Faces {
    /// The active variant's invariant.
    open spec fn inv(&self) -> bool {
        match *self {
            Faces::SimpleClock(f) => f.inv(),
            Faces::Alarm(f) => f.inv(),
            Faces::SimpleAlarm(f) => f.inv(),
            Faces::Timer(f) => f.inv(),
            Faces::Calendar(f) => f.inv(),
        }
    }

    open spec fn after_init(&self, ctx: FaceContext) -> Self {
        match *self {
            Faces::SimpleClock(f) => Faces::SimpleClock(f.after_init(ctx)),
            Faces::Alarm(f) => Faces::Alarm(f.after_init(ctx)),
            Faces::SimpleAlarm(f) => Faces::SimpleAlarm(f.after_init(ctx)),
            Faces::Timer(f) => Faces::Timer(f.after_init(ctx)),
            Faces::Calendar(f) => Faces::Calendar(f.after_init(ctx)),
        }
    }

    open spec fn after_tick(&self, ctx: FaceContext) -> Self {
        match *self {
            Faces::SimpleClock(f) => Faces::SimpleClock(f.after_tick(ctx)),
            Faces::Alarm(f) => Faces::Alarm(f.after_tick(ctx)),
            Faces::SimpleAlarm(f) => Faces::SimpleAlarm(f.after_tick(ctx)),
            Faces::Timer(f) => Faces::Timer(f.after_tick(ctx)),
            Faces::Calendar(f) => Faces::Calendar(f.after_tick(ctx)),
        }
    }

    open spec fn after_background(&self, ctx: FaceContext) -> (Self, bool) {
        match *self {
            Faces::SimpleClock(f) => (Faces::SimpleClock(f.after_background(ctx).0), f.after_background(ctx).1),
            Faces::Alarm(f) => (Faces::Alarm(f.after_background(ctx).0), f.after_background(ctx).1),
            Faces::SimpleAlarm(f) => (Faces::SimpleAlarm(f.after_background(ctx).0), f.after_background(ctx).1),
            Faces::Timer(f) => (Faces::Timer(f.after_background(ctx).0), f.after_background(ctx).1),
            Faces::Calendar(f) => (Faces::Calendar(f.after_background(ctx).0), f.after_background(ctx).1),
        }
    }

    open spec fn after_button(&self, event: GestureEvent, ctx: FaceContext) -> (Self, bool) {
        match *self {
            Faces::SimpleClock(f) => (Faces::SimpleClock(f.after_button(event, ctx).0), f.after_button(event, ctx).1),
            Faces::Alarm(f) => (Faces::Alarm(f.after_button(event, ctx).0), f.after_button(event, ctx).1),
            Faces::SimpleAlarm(f) => (Faces::SimpleAlarm(f.after_button(event, ctx).0), f.after_button(event, ctx).1),
            Faces::Timer(f) => (Faces::Timer(f.after_button(event, ctx).0), f.after_button(event, ctx).1),
            Faces::Calendar(f) => (Faces::Calendar(f.after_button(event, ctx).0), f.after_button(event, ctx).1),
        }
    }

    open spec fn after_chord(&self, event: ChordEvent, ctx: FaceContext) -> (Self, bool) {
        match *self {
            Faces::SimpleClock(f) => (Faces::SimpleClock(f.after_chord(event, ctx).0), f.after_chord(event, ctx).1),
            Faces::Alarm(f) => (Faces::Alarm(f.after_chord(event, ctx).0), f.after_chord(event, ctx).1),
            Faces::SimpleAlarm(f) => (Faces::SimpleAlarm(f.after_chord(event, ctx).0), f.after_chord(event, ctx).1),
            Faces::Timer(f) => (Faces::Timer(f.after_chord(event, ctx).0), f.after_chord(event, ctx).1),
            Faces::Calendar(f) => (Faces::Calendar(f.after_chord(event, ctx).0), f.after_chord(event, ctx).1),
        }
    }

    open spec fn action(&self) -> AlarmAction {
        match *self {
            Faces::SimpleClock(f) => f.action(),
            Faces::Alarm(f) => f.action(),
            Faces::SimpleAlarm(f) => f.action(),
            Faces::Timer(f) => f.action(),
            Faces::Calendar(f) => f.action(),
        }
    }

    open spec fn init_glass(&self, ctx: FaceContext, before: Set<(u8, u8)>) -> Set<(u8, u8)> {
        match *self {
            Faces::SimpleClock(f) => f.init_glass(ctx, before),
            Faces::Alarm(f) => f.init_glass(ctx, before),
            Faces::SimpleAlarm(f) => f.init_glass(ctx, before),
            Faces::Timer(f) => f.init_glass(ctx, before),
            Faces::Calendar(f) => f.init_glass(ctx, before),
        }
    }

    open spec fn tick_draws(&self, ctx: FaceContext, before: Set<(u8, u8)>, after: Set<(u8, u8)>) -> bool {
        match *self {
            Faces::SimpleClock(f) => f.tick_draws(ctx, before, after),
            Faces::Alarm(f) => f.tick_draws(ctx, before, after),
            Faces::SimpleAlarm(f) => f.tick_draws(ctx, before, after),
            Faces::Timer(f) => f.tick_draws(ctx, before, after),
            Faces::Calendar(f) => f.tick_draws(ctx, before, after),
        }
    }

    open spec fn init_effects(&self, ctx: FaceContext) -> Seq<Effect> {
        match *self {
            Faces::SimpleClock(f) => f.init_effects(ctx),
            Faces::Alarm(f) => f.init_effects(ctx),
            Faces::SimpleAlarm(f) => f.init_effects(ctx),
            Faces::Timer(f) => f.init_effects(ctx),
            Faces::Calendar(f) => f.init_effects(ctx),
        }
    }
    open spec fn tick_effects(&self, ctx: FaceContext) -> Seq<Effect> {
        match *self {
            Faces::SimpleClock(f) => f.tick_effects(ctx),
            Faces::Alarm(f) => f.tick_effects(ctx),
            Faces::SimpleAlarm(f) => f.tick_effects(ctx),
            Faces::Timer(f) => f.tick_effects(ctx),
            Faces::Calendar(f) => f.tick_effects(ctx),
        }
    }
    open spec fn button_effects(&self, event: GestureEvent, ctx: FaceContext) -> Seq<Effect> {
        match *self {
            Faces::SimpleClock(f) => f.button_effects(event, ctx),
            Faces::Alarm(f) => f.button_effects(event, ctx),
            Faces::SimpleAlarm(f) => f.button_effects(event, ctx),
            Faces::Timer(f) => f.button_effects(event, ctx),
            Faces::Calendar(f) => f.button_effects(event, ctx),
        }
    }
    open spec fn chord_effects(&self, event: ChordEvent, ctx: FaceContext) -> Seq<Effect> {
        match *self {
            Faces::SimpleClock(f) => f.chord_effects(event, ctx),
            Faces::Alarm(f) => f.chord_effects(event, ctx),
            Faces::SimpleAlarm(f) => f.chord_effects(event, ctx),
            Faces::Timer(f) => f.chord_effects(event, ctx),
            Faces::Calendar(f) => f.chord_effects(event, ctx),
        }
    }

    fn init<H: Hardware>(&mut self, ctx: &FaceContext, hw: &mut H) {
        match self {
            Faces::SimpleClock(f) => f.init(ctx, hw),
            Faces::Alarm(f) => f.init(ctx, hw),
            Faces::SimpleAlarm(f) => f.init(ctx, hw),
            Faces::Timer(f) => f.init(ctx, hw),
            Faces::Calendar(f) => f.init(ctx, hw),
        }
    }

    fn tick<H: Hardware>(&mut self, ctx: &FaceContext, hw: &mut H) {
        match self {
            Faces::SimpleClock(f) => f.tick(ctx, hw),
            Faces::Alarm(f) => f.tick(ctx, hw),
            Faces::SimpleAlarm(f) => f.tick(ctx, hw),
            Faces::Timer(f) => f.tick(ctx, hw),
            Faces::Calendar(f) => f.tick(ctx, hw),
        }
    }

    fn background_tick<H: Hardware>(&mut self, ctx: &FaceContext, hw: &mut H) -> (activate: bool) {
        match self {
            Faces::SimpleClock(f) => f.background_tick(ctx, hw),
            Faces::Alarm(f) => f.background_tick(ctx, hw),
            Faces::SimpleAlarm(f) => f.background_tick(ctx, hw),
            Faces::Timer(f) => f.background_tick(ctx, hw),
            Faces::Calendar(f) => f.background_tick(ctx, hw),
        }
    }

    fn button<H: Hardware>(&mut self, event: GestureEvent, ctx: &FaceContext, hw: &mut H) -> (consumed: bool) {
        match self {
            Faces::SimpleClock(f) => f.button(event, ctx, hw),
            Faces::Alarm(f) => f.button(event, ctx, hw),
            Faces::SimpleAlarm(f) => f.button(event, ctx, hw),
            Faces::Timer(f) => f.button(event, ctx, hw),
            Faces::Calendar(f) => f.button(event, ctx, hw),
        }
    }

    fn chord<H: Hardware>(&mut self, event: ChordEvent, ctx: &FaceContext, hw: &mut H) -> (consumed: bool) {
        match self {
            Faces::SimpleClock(f) => f.chord(event, ctx, hw),
            Faces::Alarm(f) => f.chord(event, ctx, hw),
            Faces::SimpleAlarm(f) => f.chord(event, ctx, hw),
            Faces::Timer(f) => f.chord(event, ctx, hw),
            Faces::Calendar(f) => f.chord(event, ctx, hw),
        }
    }

    fn alarm_action(&self) -> (action: AlarmAction) {
        match self {
            Faces::SimpleClock(f) => f.alarm_action(),
            Faces::Alarm(f) => f.alarm_action(),
            Faces::SimpleAlarm(f) => f.alarm_action(),
            Faces::Timer(f) => f.alarm_action(),
            Faces::Calendar(f) => f.alarm_action(),
        }
    }
}

impl FaceSet for Faces {
    const LEN: usize = FACE_COUNT;

    /// A fresh clock, alarm, simple alarm, timer and calendar, in that order.
    open spec fn initial() -> Seq<Self> {
        seq![
            Faces::SimpleClock(SimpleClock {}),
            Faces::Alarm(Alarm::fresh()),
            Faces::SimpleAlarm(SimpleAlarm::fresh()),
            Faces::Timer(Timer::fresh()),
            Faces::Calendar(Calendar::fresh()),
        ]
    }

    fn all() -> (faces: Vec<Self>) {
        Self::faces()
    }

    /// One instance of every face, in the enum order above (the Mode cycle
    /// order).
    fn faces() -> (faces: Vec<Self>) {
        let faces = vec![
            Faces::SimpleClock(SimpleClock::new()),
            Faces::Alarm(Alarm::new()),
            Faces::SimpleAlarm(SimpleAlarm::new()),
            Faces::Timer(Timer::new()),
            Faces::Calendar(Calendar::new()),
        ];
        assert(faces@ =~= Self::initial());
        faces
    }
}

} // verus!
