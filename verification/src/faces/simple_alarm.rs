//! Simple Casio-style alarm face: one alarm, no weekdays.
//!
//! The view mode shows `AL` and the alarm time (in the current 12/24-hour
//! format, without seconds); while the alarm rings it shows the current time
//! in full (with seconds) instead and blinks the Bell indicator at 2 Hz. The
//! Alarm button toggles the alarm on and off (the Bell indicator), like the
//! stock F-91W. Light enters the settings: the fields are hour -> minute
//! (Light advances, Alarm steps the value). A fresh alarm (00:00, off)
//! starts from the current time; the Alarm + Light chord re-seeds it with the
//! current time at any point. A ringing alarm plays the ring melody (two short
//! beeps) once per second, like the alarm face; any button press silences
//! it.
use vstd::prelude::*;

use crate::display::{
    lemma_letter_owners, pair_blank, same_except, shows_chars, shows_pair, shows_unpadded, DigitDisplay,
};
use crate::face::{is_alarm_light, AlarmAction, ButtonId, ChordEvent, Face, FaceContext, GestureEvent, GestureKind};
use crate::faces::simple_clock::hour_12;
use crate::font::{blank, lemma_font_owners, lemma_indicator_owners, shows_digit, shows_indicator, Indicator};
use crate::hardware::{ring_beep, ring_beep_notes, Effect, Hardware};
use crate::time::DateTime;

verus! {

/// How long a fired alarm keeps ringing (seconds), unless silenced by a
/// button press first.
pub const RING_SECS: u32 = 120;

/// After a change of the edited value the focus is shown steadily (no
/// blinking) for this long, so fast scrolling via the hold auto-repeat or a
/// double press stays readable.
pub const NO_BLINK_MS: u64 = 750;

/// Convert a 0..23 hour into 12-hour form (0 -> 12, 13..=23 -> 1..=11).
fn to_12h(hour: u8) -> (h: u8)
    ensures
        h == hour_12(hour as int),
{
    match hour {
        0 => 12,
        13..=23 => hour - 12,
        _ => hour,
    }
}

/// Which value is being edited.
#[derive(Clone, Copy, PartialEq, Eq, Structural)]
pub enum SimpleAlarmField {
    Hour,
    Minute,
}

/// Display mode of the face.
#[derive(Clone, Copy, PartialEq, Eq, Structural)]
pub enum SimpleAlarmMode {
    View,
    Edit(SimpleAlarmField),
}

/// The simple alarm face.
#[derive(Clone, Copy, PartialEq, Eq)]
pub struct SimpleAlarm {
    enabled: bool,
    hour: u8,
    minute: u8,
    mode: SimpleAlarmMode,
    /// Epoch ms of the last change of the edited value, to suppress blinking
    /// while the user is rapidly scrolling. `None` when unchanged.
    changed_at: Option<u64>,
    /// Last alarm that fired `(hour, minute)`, to fire only once per minute.
    last_fired: Option<(u8, u8)>,
    /// Epoch second at which the ring ends (it wraps past midnight like the
    /// clock does). `None` when not ringing.
    ring_until: Option<u64>,
    /// Epoch second of the last ring melody, to play it once per second.
    last_beep: Option<u64>,
}

/// Whether the focused value is drawn at `t`: always while it was changed
/// less than [`NO_BLINK_MS`] ago, otherwise in the first and third quarter
/// of every second.
pub open spec fn blink_on(changed_at: Option<u64>, t: DateTime) -> bool {
    let now = t.secs * 1000 + t.ms;
    let recent = match changed_at {
        Some(c) => now >= c && now - c < NO_BLINK_MS,
        None => false,
    } || (match changed_at {
        Some(c) => now < c,
        None => false,
    });
    recent || (t.ms / 250) % 2 == 0
}

/// Whether the focused value is drawn at `t` (see [`blink_on`]).
pub fn blink(changed_at: Option<u64>, t: &DateTime) -> (b: bool)
    requires
        t.instant_wf(),
    ensures
        b == blink_on(changed_at, *t),
{
    let now_ms = t.secs * 1000 + t.ms as u64;
    let recently_changed = match changed_at {
        Some(c) => now_ms.saturating_sub(c) < NO_BLINK_MS,
        None => false,
    };
    recently_changed || (t.ms / 250) % 2 == 0
}

impl SimpleAlarm {
    /// The alarm is on.
    pub closed spec fn spec_enabled(self) -> bool {
        self.enabled
    }

    /// The alarm time `(hour, minute)`.
    pub closed spec fn spec_time(self) -> (u8, u8) {
        (self.hour, self.minute)
    }

    /// The display mode.
    pub closed spec fn spec_mode(self) -> SimpleAlarmMode {
        self.mode
    }

    /// The second of the day at which the ring ends, while it rings.
    pub closed spec fn spec_ring_until(self) -> Option<u64> {
        self.ring_until
    }

    /// The second of the day of the last ring melody.
    pub closed spec fn spec_last_beep(self) -> Option<u64> {
        self.last_beep
    }

    /// The alarm (hour, minute) that fired last and whose minute has not
    /// passed yet.
    pub closed spec fn spec_last_fired(self) -> Option<(u8, u8)> {
        self.last_fired
    }

    /// When the edited value last changed.
    pub closed spec fn spec_changed_at(self) -> Option<u64> {
        self.changed_at
    }

    /// A face as [`SimpleAlarm::new`] makes it.
    pub closed spec fn fresh() -> Self {
        SimpleAlarm {
            enabled: false,
            hour: 0,
            minute: 0,
            mode: SimpleAlarmMode::View,
            changed_at: None,
            last_fired: None,
            ring_until: None,
            last_beep: None,
        }
    }

    pub fn new() -> (a: Self)
        ensures
            a == Self::fresh(),
            !a.spec_enabled(),
            a.spec_time() == (0u8, 0u8),
            a.spec_mode() == SimpleAlarmMode::View,
            a.spec_ring_until() == None::<u64>,
            a.spec_last_fired() == None::<(u8, u8)>,
            a.spec_changed_at() == None::<u64>,
            a.inv(),
    {
        SimpleAlarm {
            enabled: false,
            hour: 0,
            minute: 0,
            mode: SimpleAlarmMode::View,
            changed_at: None,
            last_fired: None,
            ring_until: None,
            last_beep: None,
        }
    }

    pub fn enabled(&self) -> (b: bool)
        ensures
            b == self.spec_enabled(),
    {
        self.enabled
    }

    pub fn time(&self) -> (t: (u8, u8))
        ensures
            t == self.spec_time(),
    {
        (self.hour, self.minute)
    }

    /// The face with the alarm time set to the current time, if it was never
    /// configured (off at 00:00).
    pub closed spec fn primed(self, t: DateTime) -> Self {
        if !self.enabled && self.hour == 0 && self.minute == 0 {
            SimpleAlarm { hour: t.hour, minute: t.minute, ..self }
        } else {
            self
        }
    }

    /// The face with the focused value advanced by `steps` (hours wrap at
    /// 24, minutes at 60).
    pub closed spec fn stepped(self, steps: u8) -> Self {
        match self.mode {
            SimpleAlarmMode::Edit(SimpleAlarmField::Hour) => SimpleAlarm {
                hour: ((self.hour + steps) % 24) as u8,
                ..self
            },
            SimpleAlarmMode::Edit(SimpleAlarmField::Minute) => SimpleAlarm {
                minute: ((self.minute + steps) % 60) as u8,
                ..self
            },
            SimpleAlarmMode::View => self,
        }
    }

    /// The face with the focused value set to zero.
    pub closed spec fn zeroed(self) -> Self {
        match self.mode {
            SimpleAlarmMode::Edit(SimpleAlarmField::Hour) => SimpleAlarm { hour: 0, ..self },
            SimpleAlarmMode::Edit(SimpleAlarmField::Minute) => SimpleAlarm { minute: 0, ..self },
            SimpleAlarmMode::View => self,
        }
    }

    /// Seed the alarm with the current wall-clock time as the base value for
    /// editing, but only if it was never configured (disabled, 00:00): a
    /// configured alarm keeps its saved time. Seconds are dropped: the alarm
    /// fires at the top of the minute, never in the middle of one.
    fn prime_from_now(&mut self, t: &DateTime)
        requires
            t.wf(),
        ensures
            *final(self) == old(self).primed(*t),
    {
        if !self.enabled && self.hour == 0 && self.minute == 0 {
            self.hour = t.hour;
            self.minute = t.minute;
        }
    }

    /// Unconditionally set the alarm to the current wall-clock time (the
    /// Alarm + Light chord). Seconds are dropped.
    fn seed_now(&mut self, t: &DateTime)
        ensures
            *final(self) == (SimpleAlarm { hour: t.hour, minute: t.minute, ..*old(self) }),
    {
        self.hour = t.hour;
        self.minute = t.minute;
    }

    fn step(&mut self, steps: u8)
        requires
            old(self).inv(),
            steps <= 4,
        ensures
            *final(self) == old(self).stepped(steps),
    {
        match self.mode {
            SimpleAlarmMode::Edit(SimpleAlarmField::Hour) => {
                self.hour = (self.hour + steps) % 24;
            },
            SimpleAlarmMode::Edit(SimpleAlarmField::Minute) => {
                self.minute = (self.minute + steps) % 60;
            },
            SimpleAlarmMode::View => {},
        }
    }

    /// Reset the focused value to zero (holding the Alarm button).
    fn reset(&mut self)
        ensures
            *final(self) == old(self).zeroed(),
    {
        match self.mode {
            SimpleAlarmMode::Edit(SimpleAlarmField::Hour) => self.hour = 0,
            SimpleAlarmMode::Edit(SimpleAlarmField::Minute) => self.minute = 0,
            SimpleAlarmMode::View => {},
        }
    }

    fn draw_pair<H: Hardware>(&self, hw: &mut H, position: u8, value: u8, visible: bool)
        requires
            position == 4 || position == 6 || position == 8,
            value < 100,
        ensures
            visible ==> shows_pair(final(hw).segments(), position as int, value as int),
            !visible ==> pair_blank(final(hw).segments(), position as int),
            same_except(old(hw).segments(), final(hw).segments(), set![position as int, position + 1]),
            final(hw).effects() == old(hw).effects(),
    {
        proof {
            lemma_font_owners();
        }
        if visible {
            hw.set_digit(position, value / 10);
            hw.set_digit(position + 1, value % 10);
        } else {
            hw.clear_digit(position);
            hw.clear_digit(position + 1);
        }
    }

    /// What the view mode shows: `AL`; while ringing the current time with
    /// seconds and the Bell blinking at 2 Hz, otherwise the alarm time
    /// without seconds and the Bell when the alarm is on; the hour in the
    /// chosen format without a leading zero, 24H / PM / SIG as on the clock.
    pub closed spec fn view_screen(self, lit: Set<(u8, u8)>, ctx: FaceContext) -> bool {
        let t = ctx.time;
        let ringing = self.ring_until is Some;
        let h = if ringing { t.hour } else { self.hour };
        let m = if ringing { t.minute } else { self.minute };
        let hour = if ctx.h24 { h as int } else { hour_12(h as int) };
        &&& shows_chars(lit, ['A' as u8, 'L' as u8])
        &&& shows_unpadded(lit, 4, hour)
        &&& shows_pair(lit, 6, m as int)
        &&& (if ringing { shows_pair(lit, 8, t.second as int) } else { pair_blank(lit, 8) })
        &&& shows_indicator(lit, Indicator::Bell, if ringing { (t.ms / 500) % 2 == 0 } else { self.enabled })
        &&& shows_indicator(lit, Indicator::H24, ctx.h24)
        &&& shows_indicator(lit, Indicator::Pm, !ctx.h24 && h >= 12)
        &&& shows_indicator(lit, Indicator::Signal, ctx.chime)
    }

    /// What the settings show: `HO` or `MI` for the edited field, the alarm
    /// time with the edited pair blinking (see [`blink_on`]), blank seconds,
    /// the Bell when the alarm is on and no other indicator.
    pub closed spec fn edit_screen(self, lit: Set<(u8, u8)>, t: DateTime) -> bool {
        let b = blink_on(self.changed_at, t);
        match self.mode {
            SimpleAlarmMode::Edit(field) => {
                &&& shows_chars(lit, if field == SimpleAlarmField::Hour { ['H' as u8, 'O' as u8] } else { ['M' as u8, 'I' as u8] })
                &&& (if field != SimpleAlarmField::Hour || b { shows_pair(lit, 4, self.hour as int) } else { pair_blank(lit, 4) })
                &&& (if field != SimpleAlarmField::Minute || b { shows_pair(lit, 6, self.minute as int) } else { pair_blank(lit, 6) })
                &&& pair_blank(lit, 8)
                &&& shows_indicator(lit, Indicator::Bell, self.enabled)
                &&& shows_indicator(lit, Indicator::H24, false)
                &&& shows_indicator(lit, Indicator::Pm, false)
                &&& shows_indicator(lit, Indicator::Signal, false)
            },
            SimpleAlarmMode::View => true,
        }
    }

    #[verifier::rlimit(40)]
    fn draw_view<H: Hardware>(&self, ctx: &FaceContext, hw: &mut H)
        requires
            self.inv(),
            ctx.wf(),
        ensures
            self.view_screen(final(hw).segments(), *ctx),
            same_except(old(hw).segments(), final(hw).segments(), set![0int, 1, 4, 5, 6, 7, 8, 9, 20, 21, 22, 23]),
            final(hw).effects() == old(hw).effects(),
    {
        proof {
            lemma_font_owners();
            lemma_letter_owners();
            lemma_indicator_owners();
        }
        hw.set_char(0, 'A' as u8);
        hw.set_char(1, 'L' as u8);
        // While the alarm rings the face shows the current time in full (with
        // seconds): a coherent live clock to glance at when the watch goes
        // off. Otherwise it shows the static alarm time, without seconds.
        let ringing = self.ring_until.is_some();
        let t = ctx.time;
        let (hour, minute) = if ringing { (t.hour, t.minute) } else { (self.hour, self.minute) };
        let pm = hour >= 12;
        let hour = if ctx.h24 { hour } else { to_12h(hour) };
        if hour >= 10 {
            hw.set_digit(4, hour / 10);
        } else {
            hw.clear_digit(4);
        }
        hw.set_digit(5, hour % 10);
        hw.set_digit(6, minute / 10);
        hw.set_digit(7, minute % 10);
        if ringing {
            hw.set_digit(8, t.second / 10);
            hw.set_digit(9, t.second % 10);
        } else {
            hw.clear_digit(8);
            hw.clear_digit(9);
        }
        // The Bell indicator blinks at 2 Hz while the alarm rings, to draw
        // the eye; otherwise it just reflects the enabled state.
        let bell = if ringing { (t.ms / 500) % 2 == 0 } else { self.enabled };
        hw.set_indicator(Indicator::Bell, bell);
        hw.set_indicator(Indicator::H24, ctx.h24);
        hw.set_indicator(Indicator::Pm, !ctx.h24 && pm);
        hw.set_indicator(Indicator::Signal, ctx.chime);
    }

    fn draw_edit<H: Hardware>(&self, t: &DateTime, hw: &mut H)
        requires
            self.inv(),
            t.wf(),
        ensures
            self.edit_screen(final(hw).segments(), *t),
            same_except(old(hw).segments(), final(hw).segments(), set![0int, 1, 4, 5, 6, 7, 8, 9, 20, 21, 22, 23]),
            final(hw).effects() == old(hw).effects(),
    {
        proof {
            lemma_font_owners();
            lemma_letter_owners();
            lemma_indicator_owners();
        }
        // While the user is rapidly stepping through values (hold auto-repeat
        // or a double press) the focused value is shown steadily instead of
        // blinking; blinking resumes shortly after the last change.
        let blink = blink(self.changed_at, t);
        let field = match self.mode {
            SimpleAlarmMode::Edit(f) => f,
            SimpleAlarmMode::View => return,
        };
        match field {
            SimpleAlarmField::Hour => {
                hw.set_char(0, 'H' as u8);
                hw.set_char(1, 'O' as u8);
            },
            SimpleAlarmField::Minute => {
                hw.set_char(0, 'M' as u8);
                hw.set_char(1, 'I' as u8);
            },
        }
        self.draw_pair(hw, 4, self.hour, field != SimpleAlarmField::Hour || blink);
        self.draw_pair(hw, 6, self.minute, field != SimpleAlarmField::Minute || blink);
        hw.clear_digit(8);
        hw.clear_digit(9);
        hw.set_indicator(Indicator::Bell, self.enabled);
        hw.set_indicator(Indicator::H24, false);
        hw.set_indicator(Indicator::Pm, false);
        hw.set_indicator(Indicator::Signal, false);
    }
}


impl Face for SimpleAlarm {
    /// The alarm time is a real time of day.
    closed spec fn inv(&self) -> bool {
        self.hour < 24 && self.minute < 60
    }

    /// Entering the face starts in the view mode and silences the ring.
    closed spec fn after_init(&self, ctx: FaceContext) -> Self {
        SimpleAlarm { mode: SimpleAlarmMode::View, ring_until: None, last_beep: None, ..*self }
    }

    /// While the ring lasts the second of its last melody is kept; the ring
    /// ends once its window has passed.
    closed spec fn after_tick(&self, ctx: FaceContext) -> Self {
        let secs = ctx.time.secs;
        match self.ring_until {
            Some(until) => if secs < until {
                SimpleAlarm { last_beep: Some(secs), ..*self }
            } else {
                SimpleAlarm { ring_until: None, last_beep: None, ..*self }
            },
            None => *self,
        }
    }

    /// At the top of the alarm minute (second 0) an enabled alarm fires once:
    /// the face switches to the view mode, rings for [`RING_SECS`] and asks
    /// to be shown. Outside the alarm minute the once-per-minute memory is
    /// cleared.
    closed spec fn after_background(&self, ctx: FaceContext) -> (Self, bool) {
        let t = ctx.time;
        if self.enabled && self.hour == t.hour && self.minute == t.minute && t.second == 0 {
            if self.last_fired != Some((t.hour, t.minute)) {
                (
                    SimpleAlarm {
                        last_fired: Some((t.hour, t.minute)),
                        mode: SimpleAlarmMode::View,
                        ring_until: Some((t.secs + RING_SECS) as u64),
                        ..*self
                    },
                    true,
                )
            } else {
                (*self, false)
            }
        } else {
            (SimpleAlarm { last_fired: None, ..*self }, false)
        }
    }

    /// Any button silences the ring. Alarm: in the view mode a press toggles
    /// the alarm; in the settings a press adds one, a double adds four more
    /// (five with the first press of the pair), a hold resets the value.
    /// Light: in the view mode a press enters the settings at the hour
    /// (seeding a never-configured alarm with the current time); in the
    /// settings a press moves to the next field (the minute leaves them),
    /// a hold leaves them. Both buttons are always consumed; Mode is not.
    closed spec fn after_button(&self, event: GestureEvent, ctx: FaceContext) -> (Self, bool) {
        let s = SimpleAlarm { ring_until: None, last_beep: None, ..*self };
        let at = Some((ctx.time.secs * 1000 + ctx.time.ms) as u64);
        match event.button {
            ButtonId::Alarm => (
                match s.mode {
                    SimpleAlarmMode::View => if event.kind == GestureKind::Press {
                        SimpleAlarm { enabled: !s.enabled, ..s }
                    } else {
                        s
                    },
                    SimpleAlarmMode::Edit(_) => match event.kind {
                        GestureKind::Press => SimpleAlarm { changed_at: at, ..s.stepped(1) },
                        GestureKind::Hold => SimpleAlarm { changed_at: at, ..s.zeroed() },
                        GestureKind::Double => SimpleAlarm { changed_at: at, ..s.stepped(4) },
                    },
                },
                true,
            ),
            ButtonId::Light => (
                match s.mode {
                    SimpleAlarmMode::View => if event.kind == GestureKind::Press {
                        SimpleAlarm { mode: SimpleAlarmMode::Edit(SimpleAlarmField::Hour), ..s }.primed(ctx.time)
                    } else {
                        s
                    },
                    SimpleAlarmMode::Edit(field) => match event.kind {
                        GestureKind::Press => SimpleAlarm {
                            mode: if field == SimpleAlarmField::Hour {
                                SimpleAlarmMode::Edit(SimpleAlarmField::Minute)
                            } else {
                                SimpleAlarmMode::View
                            },
                            ..s
                        },
                        GestureKind::Hold => SimpleAlarm { mode: SimpleAlarmMode::View, ..s },
                        GestureKind::Double => s,
                    },
                },
                true,
            ),
            ButtonId::Mode => (s, false),
        }
    }

    /// Alarm + Light sets the alarm to the current time (seconds dropped)
    /// and, from the view mode, opens the settings at the hour.
    closed spec fn after_chord(&self, event: ChordEvent, ctx: FaceContext) -> (Self, bool) {
        if !event.is_alarm_light() {
            (*self, false)
        } else {
            (
                SimpleAlarm {
                    hour: ctx.time.hour,
                    minute: ctx.time.minute,
                    changed_at: Some((ctx.time.secs * 1000 + ctx.time.ms) as u64),
                    mode: if self.mode == SimpleAlarmMode::View {
                        SimpleAlarmMode::Edit(SimpleAlarmField::Hour)
                    } else {
                        self.mode
                    },
                    ..*self
                },
                true,
            )
        }
    }

    closed spec fn action(&self) -> AlarmAction {
        AlarmAction::H24Toggle
    }

    /// Entering the face leaves the glass as it is.
    closed spec fn init_glass(&self, ctx: FaceContext, before: Set<(u8, u8)>) -> Set<(u8, u8)> {
        before
    }

    /// A tick draws the view (in the view mode) or the settings of the face
    /// after the tick, and changes nothing outside the face's elements.
    closed spec fn tick_draws(&self, ctx: FaceContext, before: Set<(u8, u8)>, after: Set<(u8, u8)>) -> bool {
        let s = self.after_tick(ctx);
        &&& s.mode == SimpleAlarmMode::View ==> s.view_screen(after, ctx)
        &&& s.edit_screen(after, ctx.time)
        &&& same_except(before, after, set![0int, 1, 4, 5, 6, 7, 8, 9, 20, 21, 22, 23])
    }

    /// Entering the face stops the ring melody.
    closed spec fn init_effects(&self, ctx: FaceContext) -> Seq<Effect> {
        seq![Effect::StopMelody]
    }

    /// The ring melody once per second while the ring lasts; the melody
    /// stops when the ring ends.
    closed spec fn tick_effects(&self, ctx: FaceContext) -> Seq<Effect> {
        match self.ring_until {
            Some(until) => if ctx.time.secs < until {
                if self.last_beep != Some(ctx.time.secs) {
                    seq![Effect::Melody(ring_beep_notes())]
                } else {
                    Seq::empty()
                }
            } else {
                seq![Effect::StopMelody]
            },
            None => Seq::empty(),
        }
    }

    /// Any button stops the ring melody.
    closed spec fn button_effects(&self, event: GestureEvent, ctx: FaceContext) -> Seq<Effect> {
        seq![Effect::StopMelody]
    }

    /// A chord requests nothing.
    closed spec fn chord_effects(&self, event: ChordEvent, ctx: FaceContext) -> Seq<Effect> {
        Seq::empty()
    }

    fn init<H: Hardware>(&mut self, _ctx: &FaceContext, hw: &mut H)
        ensures
            final(hw).segments() == old(hw).segments(),
            final(hw).effects() == old(hw).effects().push(Effect::StopMelody),
    {
        // Entering the face always starts in the view mode. The ring is also
        // silenced: an auto-switch (when the alarm fires) does NOT call init,
        // so the ring survives that path.
        self.mode = SimpleAlarmMode::View;
        self.ring_until = None;
        self.last_beep = None;
        hw.stop_melody();
    }

    /// Plays the ring melody once per second while the ring lasts, stops it
    /// when the ring ends, and draws the view or the settings.
    fn tick<H: Hardware>(&mut self, ctx: &FaceContext, hw: &mut H)
        ensures
            final(hw).effects() == old(hw).effects() + (match old(self).spec_ring_until() {
                Some(until) => if ctx.time.secs < until {
                    if old(self).spec_last_beep() != Some(ctx.time.secs) {
                        seq![Effect::Melody(ring_beep_notes())]
                    } else {
                        Seq::empty()
                    }
                } else {
                    seq![Effect::StopMelody]
                },
                None => Seq::empty(),
            }),
            final(self).spec_mode() == SimpleAlarmMode::View ==> final(self).view_screen(final(hw).segments(), *ctx),
            final(self).edit_screen(final(hw).segments(), ctx.time),
            same_except(old(hw).segments(), final(hw).segments(), set![0int, 1, 4, 5, 6, 7, 8, 9, 20, 21, 22, 23]),
    {
        // Ring while inside the window; go silent once we pass it. Only the
        // active face ticks, so a ring dies the moment the user switches faces
        // with Mode. The ring melody re-triggers once per second (not on every
        // tick).
        let t = ctx.time;
        let secs = t.secs;
        match self.ring_until {
            Some(until) => {
                if secs < until {
                    let beeped = match self.last_beep {
                        Some(b) => b == secs,
                        None => false,
                    };
                    if !beeped {
                        self.last_beep = Some(secs);
                        let notes = ring_beep();
                        hw.melody(&notes);
                    }
                } else {
                    self.ring_until = None;
                    self.last_beep = None;
                    hw.stop_melody();
                }
            },
            None => {},
        }
        let ghost e = hw.effects();
        match self.mode {
            SimpleAlarmMode::View => self.draw_view(ctx, hw),
            SimpleAlarmMode::Edit(_) => self.draw_edit(&t, hw),
        }
        proof {
            assert(hw.effects() =~= e);
            assert(old(hw).effects() + Seq::<Effect>::empty() =~= old(hw).effects());
            assert(old(hw).effects() + seq![Effect::StopMelody] =~= old(hw).effects().push(Effect::StopMelody));
            assert(old(hw).effects() + seq![Effect::Melody(ring_beep_notes())] =~= old(hw).effects().push(
                Effect::Melody(ring_beep_notes()),
            ));
        }
    }

    fn background_tick<H: Hardware>(&mut self, ctx: &FaceContext, _hw: &mut H) -> (activate: bool) {
        let t = ctx.time;
        // `t.second == 0` pins the ring to the top of the minute: the alarm
        // starts exactly at HH:MM:00, never in the middle of a minute.
        if self.enabled && self.hour == t.hour && self.minute == t.minute && t.second == 0 {
            let fired = match self.last_fired {
                Some((h, m)) => h == t.hour && m == t.minute,
                None => false,
            };
            if !fired {
                self.last_fired = Some((t.hour, t.minute));
                // Snap to the view mode: an alarm firing interrupts whatever
                // the face was doing (even its own edit session).
                self.mode = SimpleAlarmMode::View;
                self.ring_until = Some(t.secs + RING_SECS as u64);
                return true;
            }
        } else {
            self.last_fired = None;
        }
        false
    }

    fn button<H: Hardware>(&mut self, event: GestureEvent, ctx: &FaceContext, hw: &mut H) -> (consumed: bool)
        ensures
            final(hw).segments() == old(hw).segments(),
            final(hw).effects() == old(hw).effects().push(Effect::StopMelody),
    {
        // Any button press silences the ring (the stock Casio behaviour).
        self.ring_until = None;
        self.last_beep = None;
        hw.stop_melody();
        match event.button {
            ButtonId::Alarm => {
                match self.mode {
                    SimpleAlarmMode::View => {
                        // The stock Casio: the Alarm button toggles the alarm.
                        if event.kind == GestureKind::Press {
                            self.enabled = !self.enabled;
                        }
                    },
                    SimpleAlarmMode::Edit(_) => {
                        let at = ctx.time.secs * 1000 + ctx.time.ms as u64;
                        match event.kind {
                            // A plain press adds one unit.
                            GestureKind::Press => {
                                self.step(1);
                                self.changed_at = Some(at);
                            },
                            // Holding the button resets the value to zero.
                            GestureKind::Hold => {
                                self.reset();
                                self.changed_at = Some(at);
                            },
                            // A double press adds five units in total: the
                            // first press of the pair already added one, so
                            // the second adds four more.
                            GestureKind::Double => {
                                self.step(4);
                                self.changed_at = Some(at);
                            },
                        }
                    },
                }
                // Always consumed: the Alarm button never toggles the format
                // or the chime on this face.
                true
            },
            ButtonId::Light => {
                match self.mode {
                    // A press enters the settings (no hold needed).
                    SimpleAlarmMode::View => {
                        if event.kind == GestureKind::Press {
                            self.mode = SimpleAlarmMode::Edit(SimpleAlarmField::Hour);
                            self.prime_from_now(&ctx.time);
                        }
                    },
                    SimpleAlarmMode::Edit(field) => {
                        match event.kind {
                            // A press moves to the next field; on the last one
                            // (minute) it exits the settings.
                            GestureKind::Press => {
                                self.mode = match field {
                                    SimpleAlarmField::Hour => SimpleAlarmMode::Edit(SimpleAlarmField::Minute),
                                    SimpleAlarmField::Minute => SimpleAlarmMode::View,
                                };
                            },
                            // A hold exits the settings.
                            GestureKind::Hold => self.mode = SimpleAlarmMode::View,
                            _ => {},
                        }
                    },
                }
                true
            },
            _ => false,
        }
    }

    fn chord<H: Hardware>(&mut self, event: ChordEvent, ctx: &FaceContext, hw: &mut H) -> (consumed: bool)
        ensures
            *final(hw) == *old(hw),
    {
        // Only the Alarm + Light combination does anything here (in either
        // press order): it re-seeds the alarm with the current time.
        if !is_alarm_light(event) {
            return false;
        }
        self.seed_now(&ctx.time);
        self.changed_at = Some(ctx.time.secs * 1000 + ctx.time.ms as u64);
        // In the view mode the chord also enters the settings, so the seeded
        // time can be nudged with plain Alarm presses right away.
        if self.mode == SimpleAlarmMode::View {
            self.mode = SimpleAlarmMode::Edit(SimpleAlarmField::Hour);
        }
        true
    }

    fn alarm_action(&self) -> (action: AlarmAction) {
        AlarmAction::H24Toggle
    }
}

/// The alarm rings at its time, once: a background tick asks to show the
/// face exactly when the alarm is on, the clock reads the alarm's hour and
/// minute at second 0 and the alarm has not fired in that minute yet; once
/// it fired, no other tick in the same minute fires it again.
pub proof fn lemma_fires_once_at_its_time(a: SimpleAlarm, ctx: FaceContext, later: FaceContext)
    requires
        a.inv(),
    ensures
        a.after_background(ctx).1 <==> {
            &&& a.spec_enabled()
            &&& a.spec_time() == (ctx.time.hour, ctx.time.minute)
            &&& ctx.time.second == 0
            &&& a.spec_last_fired() != Some((ctx.time.hour, ctx.time.minute))
        },
        a.after_background(ctx).1 ==> a.after_background(ctx).0.spec_ring_until() is Some,
        a.after_background(ctx).1 && later.time.hour == ctx.time.hour && later.time.minute == ctx.time.minute
            ==> !a.after_background(ctx).0.after_background(later).1,
{
}

/// Any button press silences a ringing alarm: the ring ends and its melody
/// is stopped.
pub proof fn lemma_button_silences(a: SimpleAlarm, event: GestureEvent, ctx: FaceContext)
    requires
        a.inv(),
    ensures
        a.after_button(event, ctx).0.spec_ring_until() is None,
        a.button_effects(event, ctx) == seq![Effect::StopMelody],
{
}


/// A fired alarm rings for [`RING_SECS`] seconds, across midnight too: the
/// background tick that
/// fires it sets the ring to end that long after the top of the minute; a
/// tick before the end keeps the ring and plays the ring melody (unless it
/// already played in that second), and a tick at or after the end ends the
/// ring and stops the melody.
pub proof fn lemma_ring_lasts(a: SimpleAlarm, ctx: FaceContext, later: FaceContext)
    requires
        a.inv(),
        ctx.wf(),
        a.after_background(ctx).1,
    ensures
        ({
            let rung = a.after_background(ctx).0;
            let end = ctx.time.secs + RING_SECS;
            let s = later.time.secs;
            &&& rung.spec_ring_until() == Some(end as u64)
            &&& s < end ==> {
                &&& rung.after_tick(later).spec_ring_until() == rung.spec_ring_until()
                &&& rung.tick_effects(later) == if rung.spec_last_beep() == Some(s) {
                    Seq::<Effect>::empty()
                } else {
                    seq![Effect::Melody(ring_beep_notes())]
                }
            }
            &&& s >= end ==> {
                &&& rung.after_tick(later).spec_ring_until() is None
                &&& rung.tick_effects(later) == seq![Effect::StopMelody]
            }
        }),
{
}


/// Entering the settings fills a never-configured alarm (off, at 00:00)
/// with the current hour and minute, so it can go off in a few minutes; a
/// configured alarm keeps its time.
pub proof fn lemma_settings_seed_a_fresh_alarm(a: SimpleAlarm, ctx: FaceContext)
    requires
        a.inv(),
        a.spec_mode() == SimpleAlarmMode::View,
    ensures
        ({
            let e = a.after_button(GestureEvent { button: ButtonId::Light, kind: GestureKind::Press }, ctx).0;
            &&& e.spec_mode() == SimpleAlarmMode::Edit(SimpleAlarmField::Hour)
            &&& e.spec_enabled() == a.spec_enabled()
            &&& e.spec_time() == if !a.spec_enabled() && a.spec_time() == (0u8, 0u8) {
                (ctx.time.hour, ctx.time.minute)
            } else {
                a.spec_time()
            }
        }),
{
}


/// The ring plays its melody once per second however many ticks fall in
/// that second: after a tick that keeps the ring going, another tick in the
/// same second requests nothing and keeps the ring.
pub proof fn lemma_melody_once_per_second(a: SimpleAlarm, ctx: FaceContext, later: FaceContext)
    requires
        a.inv(),
        a.spec_ring_until() matches Some(until) && ctx.time.secs < until,
        later.time.secs == ctx.time.secs,
    ensures
        a.after_tick(ctx).spec_ring_until() == a.spec_ring_until(),
        a.after_tick(ctx).tick_effects(later) == Seq::<Effect>::empty(),
        a.after_tick(ctx).after_tick(later).spec_ring_until() == a.spec_ring_until(),
{
}


/// In the view mode an Alarm press switches the alarm on or off and keeps
/// its time; the face consumes the press.
pub proof fn lemma_alarm_press_toggles(a: SimpleAlarm, ctx: FaceContext)
    requires
        a.inv(),
        a.spec_mode() == SimpleAlarmMode::View,
    ensures
        ({
            let (b, consumed) = a.after_button(GestureEvent { button: ButtonId::Alarm, kind: GestureKind::Press }, ctx);
            &&& consumed
            &&& b.spec_enabled() == !a.spec_enabled()
            &&& b.spec_time() == a.spec_time()
            &&& b.spec_mode() == SimpleAlarmMode::View
        }),
{
}


/// In the settings an Alarm press steps the edited field by one (a double
/// by four more, five with its first press) and keeps the other: the hour
/// wraps at 24, the minute at 60; the alarm's on/off state is kept.
pub proof fn lemma_settings_press_steps_one_field(a: SimpleAlarm, ctx: FaceContext)
    requires
        a.inv(),
        a.spec_mode() is Edit,
    ensures
        ({
            let (h, m) = a.spec_time();
            let (b, consumed) = a.after_button(GestureEvent { button: ButtonId::Alarm, kind: GestureKind::Press }, ctx);
            let (b4, _) = a.after_button(GestureEvent { button: ButtonId::Alarm, kind: GestureKind::Double }, ctx);
            &&& consumed
            &&& b.spec_mode() == a.spec_mode()
            &&& b.spec_enabled() == a.spec_enabled()
            &&& a.spec_mode() == SimpleAlarmMode::Edit(SimpleAlarmField::Hour) ==> {
                &&& b.spec_time() == (((h + 1) % 24) as u8, m)
                &&& b4.spec_time() == (((h + 4) % 24) as u8, m)
            }
            &&& a.spec_mode() == SimpleAlarmMode::Edit(SimpleAlarmField::Minute) ==> {
                &&& b.spec_time() == (h, ((m + 1) % 60) as u8)
                &&& b4.spec_time() == (h, ((m + 4) % 60) as u8)
            }
        }),
{
}

} // verus!
