//! The `Face` trait: a "program" / mode of the watch.
use vstd::prelude::*;

use crate::hardware::{Effect, Hardware};
use crate::time::{days_in_month, valid_date, DateTime};

verus! {

/// The physical buttons. `Mode` is handled by the runtime (it cycles through
/// faces); `Light` and `Alarm` are passed through to the active face.
#[derive(Clone, Copy, Debug, PartialEq, Eq, Structural)]
pub enum ButtonId {
    Light,
    Mode,
    Alarm,
}

impl ButtonId {
    /// `Light = 0, Mode = 1, Alarm = 2`.
    pub open spec fn spec_index(self) -> int {
        match self {
            ButtonId::Light => 0,
            ButtonId::Mode => 1,
            ButtonId::Alarm => 2,
        }
    }

    /// The button with number `id` as the emulator page numbers them
    /// (`0 = Light, 1 = Mode`, anything else is Alarm).
    pub fn from_id(id: u32) -> (b: ButtonId)
        ensures
            b == (if id == 0 {
                ButtonId::Light
            } else if id == 1 {
                ButtonId::Mode
            } else {
                ButtonId::Alarm
            }),
    {
        match id {
            0 => ButtonId::Light,
            1 => ButtonId::Mode,
            _ => ButtonId::Alarm,
        }
    }

    /// The button's number, `Light = 0, Mode = 1, Alarm = 2`, used to index
    /// per-button state.
    pub fn index(self) -> (i: usize)
        ensures
            i == self.spec_index(),
    {
        match self {
            ButtonId::Light => 0,
            ButtonId::Mode => 1,
            ButtonId::Alarm => 2,
        }
    }
}

/// How a button event should be interpreted: a plain press, a held button
/// (auto-repeat), or a double-click.
#[derive(Clone, Copy, Debug, PartialEq, Eq, Structural)]
pub enum GestureKind {
    /// A quick tap (fires on the release of the button).
    Press,
    /// The button is being held (auto-repeat, see `HOLD_DELAY_MS`).
    Hold,
    /// A second tap within the double-click window of the previous one.
    Double,
}

/// A button gesture: which button and how it was pressed.
#[derive(Clone, Copy, Debug, PartialEq, Eq, Structural)]
pub struct GestureEvent {
    pub button: ButtonId,
    pub kind: GestureKind,
}

impl GestureEvent {
    pub fn press(button: ButtonId) -> (e: Self)
        ensures
            e == (GestureEvent { button, kind: GestureKind::Press }),
    {
        GestureEvent { button, kind: GestureKind::Press }
    }

    pub fn hold(button: ButtonId) -> (e: Self)
        ensures
            e == (GestureEvent { button, kind: GestureKind::Hold }),
    {
        GestureEvent { button, kind: GestureKind::Hold }
    }

    pub fn double(button: ButtonId) -> (e: Self)
        ensures
            e == (GestureEvent { button, kind: GestureKind::Double }),
    {
        GestureEvent { button, kind: GestureKind::Double }
    }
}

/// Two buttons pressed at the same time: `second` went down while `first` was
/// still held. Delivered to the active face (once both are released) instead
/// of the two separate presses, so faces can react to combinations (e.g.
/// Alarm + Light to re-seed an alarm with the current time).
#[derive(Clone, Copy, Debug, PartialEq, Eq, Structural)]
pub struct ChordEvent {
    pub first: ButtonId,
    pub second: ButtonId,
}

impl ChordEvent {
    pub fn new(first: ButtonId, second: ButtonId) -> (e: Self)
        ensures
            e == (ChordEvent { first, second }),
    {
        ChordEvent { first, second }
    }

    /// The chord is the Alarm + Light combination, in either order.
    pub open spec fn is_alarm_light(self) -> bool {
        (self.first == ButtonId::Alarm && self.second == ButtonId::Light) || (self.first
            == ButtonId::Light && self.second == ButtonId::Alarm)
    }
}

/// Whether the chord `(first, second)` is the Alarm + Light combination, in
/// either press order.
pub fn is_alarm_light(event: ChordEvent) -> (b: bool)
    ensures
        b == event.is_alarm_light(),
{
    let both = [event.first, event.second];
    let has_alarm = both[0] == ButtonId::Alarm || both[1] == ButtonId::Alarm;
    let has_light = both[0] == ButtonId::Light || both[1] == ButtonId::Light;
    has_alarm && has_light
}

/// Context handed to a face on every tick / button press.
#[derive(Clone, Copy, Debug)]
pub struct FaceContext {
    /// Current date and time, provided by the platform (emulator wall clock or
    /// the hardware RTC).
    pub time: DateTime,
    /// Whether the watch displays time in 24-hour (`true`) or 12-hour
    /// (`false`) format. Global state, toggled by the Alarm button in the
    /// runtime, so every face shows the same format.
    pub h24: bool,
    /// Whether the hourly chime (the "signal") is enabled. Global state,
    /// toggled by the Alarm button on the alarm face's view mode.
    pub chime: bool,
}

impl DateTime {
    /// A date and time the faces can work with: a real calendar date from
    /// the Unix epoch's year on, a real time of day, and a well-formed
    /// instant (see [`DateTime::instant_wf`]).
    pub open spec fn wf(self) -> bool {
        &&& valid_date(self.year as int, self.month.spec_number(), self.day as int)
        &&& 1970 <= self.year
        &&& self.hour < 24
        &&& self.minute < 60
        &&& self.second < 60
        &&& self.instant_wf()
    }

    /// The instant alone is well formed: the millisecond is below 1000 and
    /// the epoch milliseconds fit a `u64`.
    pub open spec fn instant_wf(self) -> bool {
        &&& self.ms < 1000
        &&& self.secs * 1000 + self.ms <= u64::MAX
    }

    /// Whether the faces and the runtime can work with this date and time
    /// (see [`DateTime::wf`]).
    pub fn is_valid(&self) -> (b: bool)
        ensures
            b == self.wf(),
    {
        let month = self.month.number();
        1 <= month && month <= 12 && 1 <= self.day && self.day <= days_in_month(self.year, month) && 1970
            <= self.year && self.hour < 24 && self.minute < 60 && self.second < 60 && self.ms < 1000 && self.secs
            <= (u64::MAX - self.ms as u64) / 1000
    }
}

impl FaceContext {
    pub fn new(time: DateTime, h24: bool, chime: bool) -> (c: Self)
        ensures
            c.time == time,
            c.h24 == h24,
            c.chime == chime,
    {
        FaceContext { time, h24, chime }
    }

    /// The context carries a well-formed date and time.
    pub open spec fn wf(&self) -> bool {
        self.time.wf()
    }
}

/// What the global Alarm-button handling does when the active face does not
/// consume the press. The alarm face uses the button to toggle the hourly
/// chime; every other face toggles the 12/24-hour format.
#[derive(Clone, Copy, Debug, PartialEq, Eq, Structural)]
pub enum AlarmAction {
    /// Toggle the global 12/24-hour format.
    H24Toggle,
    /// Toggle the global hourly chime.
    ChimeToggle,
}

/// A face (program) of the watch.
///
/// Implementations should draw the whole visible state on every `tick`
/// (segment writes are idempotent, so re-drawing is cheap and safe) and use
/// the [`Hardware`] handle for non-display effects (backlight, buzzer).
///
/// Every face keeps an internal invariant ([`Face::inv`]) that all its
/// operations preserve, and describes how each operation changes its state
/// (`after_*`). What a face draws and sounds is stated by each face; the
/// runtime relies only on the face's state changes and on the face never
/// taking back a request already made of the hardware.
pub trait Face: Sized {
    /// The face's internal consistency.
    spec fn inv(&self) -> bool;

    /// The face's state after [`Face::init`].
    spec fn after_init(&self, ctx: FaceContext) -> Self;

    /// The face's state after [`Face::tick`].
    spec fn after_tick(&self, ctx: FaceContext) -> Self;

    /// The face's state after [`Face::background_tick`], and whether it asks
    /// to become the active face.
    spec fn after_background(&self, ctx: FaceContext) -> (Self, bool);

    /// The face's state after [`Face::button`], and whether it consumed the
    /// gesture.
    spec fn after_button(&self, event: GestureEvent, ctx: FaceContext) -> (Self, bool);

    /// The face's state after [`Face::chord`], and whether it consumed the
    /// chord.
    spec fn after_chord(&self, event: ChordEvent, ctx: FaceContext) -> (Self, bool);

    /// The global action of the Alarm button while this face is active.
    spec fn action(&self) -> AlarmAction;

    /// The glass after [`Face::init`] started from `before`.
    spec fn init_glass(&self, ctx: FaceContext, before: Set<(u8, u8)>) -> Set<(u8, u8)>;

    /// What [`Face::tick`] draws: the glass `after` it, from `before`.
    spec fn tick_draws(&self, ctx: FaceContext, before: Set<(u8, u8)>, after: Set<(u8, u8)>) -> bool;

    /// What [`Face::init`] requests of the hardware beyond the glass.
    spec fn init_effects(&self, ctx: FaceContext) -> Seq<Effect>;

    /// What [`Face::tick`] requests of the hardware beyond the glass.
    spec fn tick_effects(&self, ctx: FaceContext) -> Seq<Effect>;

    /// What [`Face::button`] requests of the hardware beyond the glass.
    spec fn button_effects(&self, event: GestureEvent, ctx: FaceContext) -> Seq<Effect>;

    /// What [`Face::chord`] requests of the hardware beyond the glass.
    spec fn chord_effects(&self, event: ChordEvent, ctx: FaceContext) -> Seq<Effect>;

    /// Called once when the face becomes active (after boot or after the
    /// user pressed Mode). Resets any per-face state and draws the initial
    /// frame.
    fn init<H: Hardware>(&mut self, ctx: &FaceContext, hw: &mut H)
        requires
            old(self).inv(),
            ctx.wf(),
        ensures
            *final(self) == old(self).after_init(*ctx),
            final(self).inv(),
            final(hw).segments() == old(self).init_glass(*ctx, old(hw).segments()),
            final(hw).effects() == old(hw).effects() + old(self).init_effects(*ctx),
    ;

    /// Called periodically (once per second or more often) for the **active**
    /// face only.
    fn tick<H: Hardware>(&mut self, ctx: &FaceContext, hw: &mut H)
        requires
            old(self).inv(),
            ctx.wf(),
        ensures
            *final(self) == old(self).after_tick(*ctx),
            final(self).inv(),
            old(self).tick_draws(*ctx, old(hw).segments(), final(hw).segments()),
            final(hw).effects() == old(hw).effects() + old(self).tick_effects(*ctx),
    ;

    /// Called periodically for **every** face, active or not. Use for
    /// background behaviour that must run regardless of the visible face,
    /// e.g. detecting that an alarm time was reached. It never draws nor
    /// sounds.
    ///
    /// Return `true` to request becoming the active face: the runtime then
    /// switches to this face right away (first requester wins). The active
    /// face's own request is ignored. The face must leave itself ready to be
    /// shown, since the runtime skips [`Self::init`] on an auto-switch.
    fn background_tick<H: Hardware>(&mut self, ctx: &FaceContext, hw: &mut H) -> (activate: bool)
        requires
            old(self).inv(),
            ctx.wf(),
        ensures
            (*final(self), activate) == old(self).after_background(*ctx),
            final(self).inv(),
            *final(hw) == *old(hw),
    ;

    /// Called when a button gesture happens while the face is active.
    ///
    /// Returns `true` if the event was fully handled by the face. The
    /// runtime then skips its global handling of that button (e.g. the Alarm
    /// button toggling the 12/24h format).
    fn button<H: Hardware>(&mut self, event: GestureEvent, ctx: &FaceContext, hw: &mut H) -> (consumed: bool)
        requires
            old(self).inv(),
            ctx.wf(),
        ensures
            (*final(self), consumed) == old(self).after_button(event, *ctx),
            final(self).inv(),
            final(hw).segments() == old(hw).segments(),
            final(hw).effects() == old(hw).effects() + old(self).button_effects(event, *ctx),
    ;

    /// Called when two buttons are pressed at the same time (see
    /// [`ChordEvent`]). Returns `true` if the chord was fully handled.
    fn chord<H: Hardware>(&mut self, event: ChordEvent, ctx: &FaceContext, hw: &mut H) -> (consumed: bool)
        requires
            old(self).inv(),
            ctx.wf(),
        ensures
            (*final(self), consumed) == old(self).after_chord(event, *ctx),
            final(self).inv(),
            final(hw).segments() == old(hw).segments(),
            final(hw).effects() == old(hw).effects() + old(self).chord_effects(event, *ctx),
    ;

    /// Which global action the Alarm button triggers when this face does not
    /// consume the press.
    fn alarm_action(&self) -> (action: AlarmAction)
        ensures
            action == self.action(),
    ;
}

} // verus!
