//! The runtime: owns the faces, the backlight timer, and dispatches ticks
//! and buttons. Raw button samples go through [`Watch::button_raw`], which
//! turns them into gestures (press / hold auto-repeat / double-click) and
//! detects simultaneous presses (chords).
use vstd::prelude::*;

use crate::face::{AlarmAction, ButtonId, ChordEvent, Face, FaceContext, GestureEvent, GestureKind};
use crate::hardware::{Effect, Hardware};
use crate::input::{scan, ButtonScanner, ScannerState, DOUBLE_CLICK_MS, HOLD_DELAY_MS};
use crate::time::DateTime;

verus! {

/// A face type (usually an enum of all faces) together with the ability to
/// enumerate faces.
pub trait FaceSet: Face + Copy + Default {
    /// Number of faces.
    const LEN: usize;

    /// One fresh instance of every face, in Mode cycle order.
    spec fn initial() -> Seq<Self>;

    /// All faces in order, used for Mode cycling.
    fn all() -> (faces: Vec<Self>)
        ensures
            faces@ == Self::initial(),
    ;

    /// Build the face store, one instance of every face.
    fn faces() -> (faces: Vec<Self>)
        ensures
            faces@ == Self::initial(),
            faces.len() == Self::LEN,
            Self::LEN >= 1,
            forall|i: int| 0 <= i < faces.len() ==> (#[trigger] faces@[i]).inv(),
    ;
}

/// How long the backlight stays on after the Light button is held.
pub const BACKLIGHT_SECS: u64 = 3;

/// The state of a [`Watch`].
pub struct WatchState<F> {
    /// One instance of every face. `face_index` selects the active one.
    pub faces: Seq<F>,
    /// Index of the active face.
    pub face_index: int,
    /// Epoch second at which the backlight should be turned off.
    pub backlight_until: Option<u64>,
    /// Time format: `true` = 24-hour, `false` = 12-hour.
    pub h24: bool,
    /// Hourly chime enabled.
    pub chime: bool,
    /// Epoch hour of the last chime, so the top-of-hour beep fires once.
    pub last_chime: Option<u64>,
    /// Per-button gesture scanners (`Light`, `Mode`, `Alarm`).
    pub scanners: Seq<ScannerState>,
    /// Whether each button is currently physically pressed.
    pub pressed: Seq<bool>,
    /// Whether the press of the current press-hold of each button has already
    /// been delivered (or suppressed by a chord).
    pub press_delivered: Seq<bool>,
    /// The chord that is forming: `(first, second)`.
    pub pending_chord: Option<(ButtonId, ButtonId)>,
}

impl<F: FaceSet> WatchState<F> {
    /// The runtime's consistency: every face is present and consistent, the
    /// active face exists, there is per-button state for the three buttons.
    pub open spec fn wf(self) -> bool {
        &&& self.faces.len() == F::LEN
        &&& F::LEN >= 1
        &&& 0 <= self.face_index < self.faces.len()
        &&& forall|i: int| 0 <= i < self.faces.len() ==> (#[trigger] self.faces[i]).inv()
        &&& self.scanners.len() == 3
        &&& forall|i: int| 0 <= i < 3 ==> (#[trigger] self.scanners[i]).wf()
        &&& self.pressed.len() == 3
        &&& self.press_delivered.len() == 3
    }

    /// The runtime's shape: there is an active face among the faces, and
    /// per-button state for the three buttons.
    pub open spec fn shaped(self) -> bool {
        &&& self.faces.len() >= 1
        &&& 0 <= self.face_index < self.faces.len()
        &&& self.scanners.len() == 3
        &&& self.pressed.len() == 3
        &&& self.press_delivered.len() == 3
    }

    /// The context handed to the faces at time `time`.
    pub open spec fn ctx(self, time: DateTime) -> FaceContext {
        FaceContext { time, h24: self.h24, chime: self.chime }
    }
}

/// The button with number `i` (`Light = 0, Mode = 1, Alarm = 2`).
pub open spec fn button_of(i: int) -> ButtonId {
    if i == 0 {
        ButtonId::Light
    } else if i == 1 {
        ButtonId::Mode
    } else {
        ButtonId::Alarm
    }
}

/// Milliseconds since the epoch of `time`.
pub open spec fn time_ms(time: DateTime) -> int {
    time.secs * 1000 + time.ms
}

/// The first face index, other than `skip`, whose request is set.
pub open spec fn first_request(requests: Seq<bool>, skip: int) -> Option<int>
    decreases requests.len(),
{
    if requests.len() == 0 {
        None
    } else {
        match first_request(requests.drop_last(), skip) {
            Some(i) => Some(i),
            None => if requests.last() && requests.len() - 1 != skip {
                Some(requests.len() - 1)
            } else {
                None
            },
        }
    }
}

/// The first request found is a real request of another face.
pub proof fn lemma_first_request(requests: Seq<bool>, skip: int)
    ensures
        first_request(requests, skip) matches Some(i) ==> 0 <= i < requests.len() && i != skip && requests[i],
    decreases requests.len(),
{
    if requests.len() > 0 {
        lemma_first_request(requests.drop_last(), skip);
    }
}

/// The backlight timer has run out at `time`.
pub open spec fn backlight_expires<F>(w: WatchState<F>, time: DateTime) -> bool {
    match w.backlight_until {
        Some(until) => time.secs >= until,
        None => false,
    }
}

/// The hourly chime sounds at `time`: it is enabled, the time is the top of
/// an hour, and that hour has not chimed yet.
pub open spec fn chimes<F>(w: WatchState<F>, time: DateTime) -> bool {
    w.chime && time.minute == 0 && time.second == 0 && w.last_chime != Some((time.secs / 3600) as u64)
}

/// The requests the runtime itself makes of the hardware on a tick, before
/// the faces run: the backlight going off and the hourly chime.
pub open spec fn runtime_tick_effects<F>(w: WatchState<F>, time: DateTime) -> Seq<Effect> {
    (if backlight_expires(w, time) {
        seq![Effect::Backlight(false)]
    } else {
        Seq::empty()
    }) + (if chimes(w, time) {
        seq![Effect::Beep(60)]
    } else {
        Seq::empty()
    })
}

/// The state after [`Watch::tick`] at `time`: the backlight timer and the
/// chime are updated, every face runs its background tick, the first face
/// (other than the active one) that asks for it becomes active, and the
/// active face ticks.
pub open spec fn tick_state<F: FaceSet>(w: WatchState<F>, time: DateTime) -> WatchState<F> {
    let ctx = w.ctx(time);
    let bg = w.faces.map_values(|f: F| f.after_background(ctx).0);
    let requests = w.faces.map_values(|f: F| f.after_background(ctx).1);
    let active = match first_request(requests, w.face_index) {
        Some(i) => i,
        None => w.face_index,
    };
    WatchState {
        faces: bg.update(active, bg[active].after_tick(ctx)),
        face_index: active,
        backlight_until: if backlight_expires(w, time) {
            None
        } else {
            w.backlight_until
        },
        last_chime: if chimes(w, time) {
            Some((time.secs / 3600) as u64)
        } else {
            w.last_chime
        },
        ..w
    }
}

/// The index of the face that is active after the background ticks at
/// `time`: the first other face that asks to be shown, or the active one.
pub open spec fn tick_active<F: FaceSet>(w: WatchState<F>, time: DateTime) -> int {
    let ctx = w.ctx(time);
    let requests = w.faces.map_values(|f: F| f.after_background(ctx).1);
    match first_request(requests, w.face_index) {
        Some(i) => i,
        None => w.face_index,
    }
}

/// The glass a tick at `time` hands to the active face: cleared when the
/// background ticks switched faces, otherwise as it was.
pub open spec fn tick_start_glass<F: FaceSet>(w: WatchState<F>, time: DateTime, before: Set<(u8, u8)>) -> Set<(u8, u8)> {
    if tick_active(w, time) != w.face_index {
        Set::empty()
    } else {
        before
    }
}

/// What [`Watch::tick`] at `time` requests of the hardware:
/// [`runtime_tick_effects`], then what the tick of the face that is active
/// after the background ticks requests.
pub open spec fn tick_requests<F: FaceSet>(w: WatchState<F>, time: DateTime) -> Seq<Effect> {
    let ctx = w.ctx(time);
    let bg = w.faces.map_values(|f: F| f.after_background(ctx).0);
    let requests = w.faces.map_values(|f: F| f.after_background(ctx).1);
    let active = match first_request(requests, w.face_index) {
        Some(i) => i,
        None => w.face_index,
    };
    runtime_tick_effects(w, time) + bg[active].tick_effects(ctx)
}

/// The state after a gesture is dispatched: Mode presses cycle the faces
/// (initialising the new one); Light goes to the face, and a Light hold also
/// switches the backlight on for [`BACKLIGHT_SECS`]; Alarm goes to the face,
/// and a press the face does not consume triggers the face's global action.
pub open spec fn dispatch_state<F: FaceSet>(w: WatchState<F>, event: GestureEvent, ctx: FaceContext) -> WatchState<F> {
    let fi = w.face_index;
    match event.button {
        ButtonId::Mode => if event.kind == GestureKind::Press {
            let next = (fi + 1) % (w.faces.len() as int);
            WatchState { faces: w.faces.update(next, w.faces[next].after_init(ctx)), face_index: next, ..w }
        } else {
            w
        },
        ButtonId::Light => WatchState {
            faces: w.faces.update(fi, w.faces[fi].after_button(event, ctx).0),
            backlight_until: if event.kind == GestureKind::Hold {
                Some((ctx.time.secs + BACKLIGHT_SECS) as u64)
            } else {
                w.backlight_until
            },
            ..w
        },
        ButtonId::Alarm => {
            let (face, consumed) = w.faces[fi].after_button(event, ctx);
            let action = w.faces[fi].action();
            let toggle = event.kind == GestureKind::Press && !consumed;
            WatchState {
                faces: w.faces.update(fi, face),
                h24: if toggle && action == AlarmAction::H24Toggle {
                    !w.h24
                } else {
                    w.h24
                },
                chime: if toggle && action == AlarmAction::ChimeToggle {
                    !w.chime
                } else {
                    w.chime
                },
                ..w
            }
        },
    }
}

/// The first button other than `idx` that is pressed, in button order.
pub open spec fn other_pressed(pressed: Seq<bool>, idx: int) -> Option<int> {
    if idx != 0 && pressed[0] {
        Some(0)
    } else if idx != 1 && pressed[1] {
        Some(1)
    } else if idx != 2 && pressed[2] {
        Some(2)
    } else {
        None
    }
}

/// A scanner after [`ButtonScanner::reset`].
pub open spec fn reset_state(s: ScannerState) -> ScannerState {
    ScannerState { pressed: false, held: false, prev_press_ms: None, ..s }
}

/// The state after [`Watch::button_raw`]`(id, down, time)`.
///
/// A button going down while another one is held forms a chord; the chord's
/// buttons never deliver their own press or hold, and the chord goes to the
/// active face once both are released (their scanners are reset on each
/// release). Otherwise the button's scanner classifies the sample: a gesture
/// on release is dispatched; a hold while down is dispatched too, preceded
/// by the press of that hold the first time.
pub open spec fn button_state<F: FaceSet>(w: WatchState<F>, id: ButtonId, down: bool, time: DateTime) -> WatchState<F> {
    if down {
        press_state(w, id, time)
    } else {
        match w.pending_chord {
            Some((first, second)) => chord_release_state(w, id, first, second, time),
            None => release_state(w, id, time),
        }
    }
}

/// [`button_state`] of a sample with the button down.
pub open spec fn press_state<F: FaceSet>(w: WatchState<F>, id: ButtonId, time: DateTime) -> WatchState<F> {
    let ctx = w.ctx(time);
    let now = time_ms(time) as u64;
    let idx = id.spec_index();
    let fresh = !w.pressed[idx];
    let other = other_pressed(w.pressed, idx);
    let delivered = if fresh {
        w.press_delivered.update(idx, other is Some)
    } else {
        w.press_delivered
    };
    let chord = if fresh && other is Some {
        Some((button_of(other->0), id))
    } else {
        w.pending_chord
    };
    let (sc, g) = scan(w.scanners[idx], true, now);
    let w1 = WatchState {
        pressed: w.pressed.update(idx, true),
        press_delivered: delivered,
        pending_chord: chord,
        scanners: w.scanners.update(idx, sc),
        ..w
    };
    match g {
        None => w1,
        Some(kind) => match chord {
            Some((first, second)) => if first == id || second == id {
                WatchState { press_delivered: delivered.update(idx, true), ..w1 }
            } else {
                w1
            },
            None => {
                let w2 = if !delivered[idx] {
                    dispatch_state(
                        WatchState { press_delivered: delivered.update(idx, true), ..w1 },
                        GestureEvent { button: id, kind: GestureKind::Press },
                        ctx,
                    )
                } else {
                    w1
                };
                dispatch_state(w2, GestureEvent { button: id, kind }, ctx)
            },
        },
    }
}

/// [`button_state`] of a release while the chord `(first, second)` forms.
pub open spec fn chord_release_state<F: FaceSet>(
    w: WatchState<F>,
    id: ButtonId,
    first: ButtonId,
    second: ButtonId,
    time: DateTime,
) -> WatchState<F> {
    let pressed = w.pressed.update(id.spec_index(), false);
    let sc1 = w.scanners.update(first.spec_index(), reset_state(w.scanners[first.spec_index()]));
    let sc2 = sc1.update(second.spec_index(), reset_state(sc1[second.spec_index()]));
    let w1 = WatchState { pressed, scanners: sc2, ..w };
    if !pressed[first.spec_index()] && !pressed[second.spec_index()] {
        let fi = w.face_index;
        let face = w.faces[fi].after_chord(ChordEvent { first, second }, w.ctx(time)).0;
        WatchState { pending_chord: None, faces: w1.faces.update(fi, face), ..w1 }
    } else {
        w1
    }
}

/// [`button_state`] of a release with no chord forming.
pub open spec fn release_state<F: FaceSet>(w: WatchState<F>, id: ButtonId, time: DateTime) -> WatchState<F> {
    let idx = id.spec_index();
    let (sc, g) = scan(w.scanners[idx], false, time_ms(time) as u64);
    let w1 = WatchState { pressed: w.pressed.update(idx, false), scanners: w.scanners.update(idx, sc), ..w };
    match g {
        Some(kind) => dispatch_state(w1, GestureEvent { button: id, kind }, w.ctx(time)),
        None => w1,
    }
}

/// Owns the faces and dispatches events to the active one.
///
/// Every face lives in [`Watch`] permanently: switching modes with the Mode
/// button swaps the active face but keeps each face's state, so data like
/// the alarm settings survive mode changes.
#[derive(Clone, Debug)]
pub struct Watch<F: FaceSet> {
    faces: Vec<F>,
    face_index: usize,
    backlight_until: Option<u64>,
    h24: bool,
    chime: bool,
    last_chime: Option<u64>,
    scanners: [ButtonScanner; 3],
    pressed: [bool; 3],
    press_delivered: [bool; 3],
    pending_chord: Option<(ButtonId, ButtonId)>,
}

impl<F: FaceSet> View for Watch<F> {
    type V = WatchState<F>;

    closed spec fn view(&self) -> WatchState<F> {
        WatchState {
            faces: self.faces@,
            face_index: self.face_index as int,
            backlight_until: self.backlight_until,
            h24: self.h24,
            chime: self.chime,
            last_chime: self.last_chime,
            scanners: self.scanners@.map_values(|s: ButtonScanner| s@),
            pressed: self.pressed@,
            press_delivered: self.press_delivered@,
            pending_chord: self.pending_chord,
        }
    }
}

impl<F: FaceSet> Watch<F> {
    /// The runtime is consistent.
    pub open spec fn wf(&self) -> bool {
        self@.wf()
    }

    pub fn new() -> (w: Self)
        ensures
            w.wf(),
            w@.faces == F::initial(),
            w@.face_index == 0,
            w@.backlight_until == None::<u64>,
            w@.h24,
            !w@.chime,
            w@.last_chime == None::<u64>,
            forall|i: int|
                0 <= i < 3 ==> #[trigger] w@.scanners[i] == (ScannerState {
                    pressed: false,
                    press_ms: 0,
                    last_repeat_ms: 0,
                    prev_press_ms: None,
                    held: false,
                }),
            w@.pressed == seq![false, false, false],
            w@.press_delivered == seq![false, false, false],
            w@.pending_chord == None::<(ButtonId, ButtonId)>,
    {
        let w = Watch {
            faces: F::faces(),
            face_index: 0,
            backlight_until: None,
            h24: true,
            chime: false,
            last_chime: None,
            scanners: [ButtonScanner::new(), ButtonScanner::new(), ButtonScanner::new()],
            pressed: [false; 3],
            press_delivered: [false; 3],
            pending_chord: None,
        };
        assert(w@.pressed =~= seq![false, false, false]);
        assert(w@.press_delivered =~= seq![false, false, false]);
        w
    }

    /// The face currently shown.
    pub fn active_face(&self) -> (f: F)
        requires
            self.wf(),
        ensures
            f == self@.faces[self@.face_index],
    {
        self.faces[self.face_index]
    }

    /// Periodic tick. `time` comes from the platform (RTC or emulator clock).
    pub fn tick<H: Hardware>(&mut self, time: DateTime, hw: &mut H)
        requires
            old(self).wf(),
            time.wf(),
        ensures
            final(self).wf(),
            final(self)@ == tick_state(old(self)@, time),
            final(hw).effects() == old(hw).effects() + tick_requests(old(self)@, time),
            old(self)@.faces.map_values(|f: F| f.after_background(old(self)@.ctx(time)).0)[tick_active(
                old(self)@,
                time,
            )].tick_draws(
                old(self)@.ctx(time),
                tick_start_glass(old(self)@, time, old(hw).segments()),
                final(hw).segments(),
            ),
    {
        let ghost w = self@;
        let ctx = FaceContext::new(time, self.h24, self.chime);
        if let Some(until) = self.backlight_until {
            if time.secs >= until {
                self.backlight_until = None;
                hw.set_backlight(false);
            }
        }
        let ghost e1 = hw.effects();
        // Hourly chime: beep once at the top of every hour when enabled.
        if self.chime && time.minute == 0 && time.second == 0 {
            let hour = time.secs / 3600;
            if self.last_chime != Some(hour) {
                self.last_chime = Some(hour);
                hw.beep();
            }
        }
        let ghost e2 = hw.effects();
        assert(e2 == old(hw).effects() + runtime_tick_effects(w, time));
        // Background tick for every face (alarms fire even when the clock
        // face is shown). A face may request to become active; the first one
        // in FaceSet order wins and the watch switches to it (skipping init:
        // the face left itself ready to be shown, so its tick just redraws).
        let ghost requests = w.faces.map_values(|f: F| f.after_background(ctx).1);
        let ghost bg = w.faces.map_values(|f: F| f.after_background(ctx).0);
        let ghost w_mid = self@;
        let mut activate: Option<usize> = None;
        let len = self.faces.len();
        let mut i: usize = 0;
        while i < len
            invariant
                len == self.faces.len(),
                len == w.faces.len(),
                0 <= i <= len,
                w.wf(),
                time.wf(),
                self@ == (WatchState { faces: self@.faces, ..w_mid }),
                w_mid.faces == w.faces,
                forall|j: int| 0 <= j < len ==> (#[trigger] self.faces@[j]).inv(),
                self.face_index == w.face_index,
                ctx == w.ctx(time),
                forall|j: int| 0 <= j < i ==> #[trigger] self.faces@[j] == bg[j],
                forall|j: int| i <= j < len ==> #[trigger] self.faces@[j] == w.faces[j],
                first_request(requests.take(i as int), w.face_index) == (match activate {
                    Some(a) => Some(a as int),
                    None => None,
                }),
                hw.effects() == e2,
                hw.segments() == old(hw).segments(),
                bg == w.faces.map_values(|f: F| f.after_background(ctx).0),
                requests == w.faces.map_values(|f: F| f.after_background(ctx).1),
                bg.len() == len,
                requests.len() == len,
            decreases len - i,
        {
            let mut f = self.faces[i];
            let want = f.background_tick(&ctx, hw);
            self.faces.set(i, f);
            proof {
                assert(requests.take(i as int + 1).drop_last() =~= requests.take(i as int));
            }
            if i != self.face_index && want && activate.is_none() {
                activate = Some(i);
            }
            i += 1;
        }
        proof {
            assert(requests.take(len as int) =~= requests);
            assert(self.faces@ =~= bg);
            lemma_first_request(requests, w.face_index);
        }
        if let Some(i) = activate {
            self.face_index = i;
            hw.clear_all();
        }
        let mut f = self.faces[self.face_index];
        assert(hw.segments() == tick_start_glass(w, time, old(hw).segments()));
        f.tick(&ctx, hw);
        self.faces.set(self.face_index, f);
        proof {
            assert(self@.faces =~= tick_state(w, time).faces);
            assert(self@.scanners =~= w.scanners);
            assert(hw.effects() =~= old(hw).effects() + tick_requests(w, time));
        }
    }
}


/// The requests a dispatched gesture makes of the hardware before the face
/// sees it: a Light hold switches the backlight on.
pub open spec fn dispatch_effects(event: GestureEvent) -> Seq<Effect> {
    if event.button == ButtonId::Light && event.kind == GestureKind::Hold {
        seq![Effect::Backlight(true)]
    } else {
        Seq::empty()
    }
}

/// What a dispatched gesture requests of the hardware:
/// [`dispatch_effects`], then what the face that handles it requests (a
/// Mode press initialises the next face; other Mode gestures reach no face).
pub open spec fn dispatch_requests<F: FaceSet>(w: WatchState<F>, event: GestureEvent, ctx: FaceContext) -> Seq<Effect> {
    let fi = w.face_index;
    dispatch_effects(event) + match event.button {
        ButtonId::Mode => if event.kind == GestureKind::Press {
            let next = (fi + 1) % (w.faces.len() as int);
            w.faces[next].init_effects(ctx)
        } else {
            Seq::empty()
        },
        _ => w.faces[fi].button_effects(event, ctx),
    }
}

/// What [`Watch::button_raw`]`(id, down, time)` requests of the hardware:
/// those of the gestures it dispatches, in order, or of the chord it
/// delivers.
pub open spec fn button_requests<F: FaceSet>(w: WatchState<F>, id: ButtonId, down: bool, time: DateTime) -> Seq<Effect> {
    if down {
        press_requests(w, id, time)
    } else {
        match w.pending_chord {
            Some((first, second)) => chord_release_requests(w, id, first, second, time),
            None => release_requests(w, id, time),
        }
    }
}

/// [`button_requests`] of a sample with the button down (see
/// [`press_state`]).
pub open spec fn press_requests<F: FaceSet>(w: WatchState<F>, id: ButtonId, time: DateTime) -> Seq<Effect> {
    let ctx = w.ctx(time);
    let now = time_ms(time) as u64;
    let idx = id.spec_index();
    let fresh = !w.pressed[idx];
    let other = other_pressed(w.pressed, idx);
    let delivered = if fresh {
        w.press_delivered.update(idx, other is Some)
    } else {
        w.press_delivered
    };
    let chord = if fresh && other is Some {
        Some((button_of(other->0), id))
    } else {
        w.pending_chord
    };
    let (sc, g) = scan(w.scanners[idx], true, now);
    let w1 = WatchState {
        pressed: w.pressed.update(idx, true),
        press_delivered: delivered,
        pending_chord: chord,
        scanners: w.scanners.update(idx, sc),
        ..w
    };
    match g {
        None => Seq::empty(),
        Some(kind) => match chord {
            Some(_) => Seq::empty(),
            None => {
                let wp = WatchState { press_delivered: delivered.update(idx, true), ..w1 };
                let press = GestureEvent { button: id, kind: GestureKind::Press };
                let (w2, e2) = if !delivered[idx] {
                    (dispatch_state(wp, press, ctx), dispatch_requests(wp, press, ctx))
                } else {
                    (w1, Seq::empty())
                };
                e2 + dispatch_requests(w2, GestureEvent { button: id, kind }, ctx)
            },
        },
    }
}

/// [`button_requests`] of a release while the chord `(first, second)`
/// forms: the chord's own requests once both buttons are up.
pub open spec fn chord_release_requests<F: FaceSet>(
    w: WatchState<F>,
    id: ButtonId,
    first: ButtonId,
    second: ButtonId,
    time: DateTime,
) -> Seq<Effect> {
    let pressed = w.pressed.update(id.spec_index(), false);
    if !pressed[first.spec_index()] && !pressed[second.spec_index()] {
        w.faces[w.face_index].chord_effects(ChordEvent { first, second }, w.ctx(time))
    } else {
        Seq::empty()
    }
}

/// [`button_requests`] of a release with no chord forming.
pub open spec fn release_requests<F: FaceSet>(w: WatchState<F>, id: ButtonId, time: DateTime) -> Seq<Effect> {
    let idx = id.spec_index();
    let (sc, g) = scan(w.scanners[idx], false, time_ms(time) as u64);
    let w1 = WatchState { pressed: w.pressed.update(idx, false), scanners: w.scanners.update(idx, sc), ..w };
    match g {
        Some(kind) => dispatch_requests(w1, GestureEvent { button: id, kind }, w.ctx(time)),
        None => Seq::empty(),
    }
}

/// The glass after a dispatched gesture, from `before`: a Mode press clears
/// it and initialises the next face on the empty glass; every other gesture
/// leaves it (faces draw on their tick).
pub open spec fn dispatch_glass<F: FaceSet>(
    w: WatchState<F>,
    event: GestureEvent,
    ctx: FaceContext,
    before: Set<(u8, u8)>,
) -> Set<(u8, u8)> {
    if event.button == ButtonId::Mode && event.kind == GestureKind::Press {
        let next = (w.face_index + 1) % (w.faces.len() as int);
        w.faces[next].init_glass(ctx, Set::empty())
    } else {
        before
    }
}

/// The glass after [`Watch::button_raw`]`(id, down, time)`, from `before`
/// (see [`dispatch_glass`]; a chord leaves the glass).
pub open spec fn button_glass<F: FaceSet>(
    w: WatchState<F>,
    id: ButtonId,
    down: bool,
    time: DateTime,
    before: Set<(u8, u8)>,
) -> Set<(u8, u8)> {
    if down {
        press_glass(w, id, time, before)
    } else {
        match w.pending_chord {
            Some(_) => before,
            None => release_glass(w, id, time, before),
        }
    }
}

/// [`button_glass`] of a sample with the button down (see [`press_state`]).
pub open spec fn press_glass<F: FaceSet>(w: WatchState<F>, id: ButtonId, time: DateTime, before: Set<(u8, u8)>) -> Set<(u8, u8)> {
    let ctx = w.ctx(time);
    let now = time_ms(time) as u64;
    let idx = id.spec_index();
    let fresh = !w.pressed[idx];
    let other = other_pressed(w.pressed, idx);
    let delivered = if fresh {
        w.press_delivered.update(idx, other is Some)
    } else {
        w.press_delivered
    };
    let chord = if fresh && other is Some {
        Some((button_of(other->0), id))
    } else {
        w.pending_chord
    };
    let (sc, g) = scan(w.scanners[idx], true, now);
    let w1 = WatchState {
        pressed: w.pressed.update(idx, true),
        press_delivered: delivered,
        pending_chord: chord,
        scanners: w.scanners.update(idx, sc),
        ..w
    };
    match g {
        None => before,
        Some(kind) => match chord {
            Some(_) => before,
            None => {
                let wp = WatchState { press_delivered: delivered.update(idx, true), ..w1 };
                let press = GestureEvent { button: id, kind: GestureKind::Press };
                let (w2, g2) = if !delivered[idx] {
                    (dispatch_state(wp, press, ctx), dispatch_glass(wp, press, ctx, before))
                } else {
                    (w1, before)
                };
                dispatch_glass(w2, GestureEvent { button: id, kind }, ctx, g2)
            },
        },
    }
}

/// [`button_glass`] of a release with no chord forming.
pub open spec fn release_glass<F: FaceSet>(w: WatchState<F>, id: ButtonId, time: DateTime, before: Set<(u8, u8)>) -> Set<(u8, u8)> {
    let idx = id.spec_index();
    let (sc, g) = scan(w.scanners[idx], false, time_ms(time) as u64);
    let w1 = WatchState { pressed: w.pressed.update(idx, false), scanners: w.scanners.update(idx, sc), ..w };
    match g {
        Some(kind) => dispatch_glass(w1, GestureEvent { button: id, kind }, w.ctx(time), before),
        None => before,
    }
}

/// The buttons, indexed like the per-button gesture scanners.
const BUTTON_IDS: [ButtonId; 3] = [ButtonId::Light, ButtonId::Mode, ButtonId::Alarm];

/// Milliseconds since the epoch of `time`.
fn now_ms(time: DateTime) -> (ms: u64)
    requires
        time.wf(),
    ensures
        ms == time_ms(time),
{
    time.secs * 1000 + time.ms as u64
}

impl<F: FaceSet> Watch<F> {
    /// Raw button sample. Called on every state change: `down` is whether
    /// the button is currently pressed, `time` the wall clock. The runtime
    /// classifies the samples: a quick tap fires a `Press` on the button's
    /// release, two quick taps a `Double`, and holding past the hold delay
    /// fires `Hold` auto-repeats. The *first* auto-repeat of a hold also acts
    /// as the press of the hold, so a held button reacts while it is still
    /// pressed. When a second button goes down while another one is still
    /// held, the two form a chord: once both are released the pair is
    /// delivered to the active face as a [`ChordEvent`] instead of the two
    /// separate presses, and the press and hold auto-repeat of the chord's
    /// buttons are suppressed.
    pub fn button_raw<H: Hardware>(&mut self, id: ButtonId, down: bool, time: DateTime, hw: &mut H)
        requires
            old(self).wf(),
            time.wf(),
        ensures
            final(self).wf(),
            final(self)@ == button_state(old(self)@, id, down, time),
            final(hw).effects() == old(hw).effects() + button_requests(old(self)@, id, down, time),
            final(hw).segments() == button_glass(old(self)@, id, down, time, old(hw).segments()),
    {
        if down {
            self.button_down(id, time, hw);
        } else if let Some((first, second)) = self.pending_chord {
            self.chord_release(id, first, second, time, hw);
        } else {
            self.button_up(id, time, hw);
        }
    }

    #[verifier::rlimit(40)]
    fn button_down<H: Hardware>(&mut self, id: ButtonId, time: DateTime, hw: &mut H)
        requires
            old(self).wf(),
            time.wf(),
        ensures
            final(self).wf(),
            final(self)@ == press_state(old(self)@, id, time),
            final(hw).effects() == old(hw).effects() + press_requests(old(self)@, id, time),
            final(hw).segments() == press_glass(old(self)@, id, time, old(hw).segments()),
    {
        let ghost w = self@;
        let ctx = FaceContext::new(time, self.h24, self.chime);
        let now = now_ms(time);
        let idx = id.index();
        if !self.pressed[idx] {
            // A fresh press: clear the per-press flag, then check whether
            // another button is already held (a chord in the making). The
            // chord's buttons never fire their own press or hold; the pair
            // is delivered on release instead.
            self.press_delivered[idx] = false;
            match self.other_pressed(id) {
                Some(other) => {
                    self.pending_chord = Some((other, id));
                    self.press_delivered[idx] = true;
                },
                None => {},
            }
        }
        self.pressed[idx] = true;
        let mut scanner = self.scanners[idx];
        let gesture = scanner.event(id, true, now);
        self.scanners[idx] = scanner;
        proof {
            assert(self@.pressed =~= w.pressed.update(idx as int, true));
            assert(self@.scanners =~= w.scanners.update(idx as int, scan(w.scanners[idx as int], true, now).0));
            assert(self@.press_delivered =~= (if !w.pressed[idx as int] {
                w.press_delivered.update(idx as int, other_pressed(w.pressed, idx as int) is Some)
            } else {
                w.press_delivered
            }));
        }
        if let Some(event) = gesture {
            // The button is being held (auto-repeat past the hold delay).
            if let Some((first, second)) = self.pending_chord {
                if first == id || second == id {
                    // Part of a chord: drop both the press and the hold; the
                    // chord fires when both buttons are released.
                    self.press_delivered[idx] = true;
                }
            } else {
                // The first auto-repeat also delivers the press of the hold
                // (so a held button reacts right away), then the hold itself
                // fires (backlight, alarm reset).
                if !self.press_delivered[idx] {
                    self.press_delivered[idx] = true;
                    self.dispatch(GestureEvent::press(id), &ctx, hw);
                }
                self.dispatch(event, &ctx, hw);
            }
        }
        proof {
            assert(hw.effects() =~= old(hw).effects() + press_requests(w, id, time));
        }
    }

    fn chord_release<H: Hardware>(&mut self, id: ButtonId, first: ButtonId, second: ButtonId, time: DateTime, hw: &mut H)
        requires
            old(self).wf(),
            time.wf(),
            old(self)@.pending_chord == Some((first, second)),
        ensures
            final(self).wf(),
            final(self)@ == chord_release_state(old(self)@, id, first, second, time),
            final(hw).effects() == old(hw).effects() + chord_release_requests(old(self)@, id, first, second, time),
            final(hw).segments() == old(hw).segments(),
    {
        let ghost w = self@;
        let ctx = FaceContext::new(time, self.h24, self.chime);
        // Release of a chord's button: wait until both are released, then
        // deliver the chord (and drop the scanner state of both buttons, so
        // a next tap is not ghosted as a double-click).
        let idx = id.index();
        self.pressed[idx] = false;
        let fi = first.index();
        let si = second.index();
        let mut scanner = self.scanners[fi];
        scanner.reset();
        self.scanners[fi] = scanner;
        let mut scanner = self.scanners[si];
        scanner.reset();
        self.scanners[si] = scanner;
        proof {
            assert(self@.pressed =~= w.pressed.update(idx as int, false));
            let sc1 = w.scanners.update(fi as int, reset_state(w.scanners[fi as int]));
            assert(self@.scanners =~= sc1.update(si as int, reset_state(sc1[si as int])));
        }
        if !self.pressed[fi] && !self.pressed[si] {
            self.pending_chord = None;
            let mut f = self.faces[self.face_index];
            f.chord(ChordEvent::new(first, second), &ctx, hw);
            self.faces.set(self.face_index, f);
        }
        proof {
            assert(hw.effects() =~= old(hw).effects() + chord_release_requests(w, id, first, second, time));
        }
    }

    fn button_up<H: Hardware>(&mut self, id: ButtonId, time: DateTime, hw: &mut H)
        requires
            old(self).wf(),
            time.wf(),
        ensures
            final(self).wf(),
            final(self)@ == release_state(old(self)@, id, time),
            final(hw).effects() == old(hw).effects() + release_requests(old(self)@, id, time),
            final(hw).segments() == release_glass(old(self)@, id, time, old(hw).segments()),
    {
        let ghost w = self@;
        let ctx = FaceContext::new(time, self.h24, self.chime);
        let now = now_ms(time);
        let idx = id.index();
        self.pressed[idx] = false;
        // The scanner suppresses the release of a button whose press was
        // already delivered (as the first auto-repeat of a hold), so a
        // release only ever fires a press for a quick tap.
        let mut scanner = self.scanners[idx];
        let gesture = scanner.event(id, false, now);
        self.scanners[idx] = scanner;
        proof {
            assert(self@.pressed =~= w.pressed.update(idx as int, false));
            assert(self@.scanners =~= w.scanners.update(idx as int, scan(w.scanners[idx as int], false, now).0));
        }
        if let Some(event) = gesture {
            self.dispatch(event, &ctx, hw);
        }
        proof {
            assert(hw.effects() =~= old(hw).effects() + release_requests(w, id, time));
        }
    }

    /// The first button other than `id` that is currently pressed, in
    /// button order.
    fn other_pressed(&self, id: ButtonId) -> (b: Option<ButtonId>)
        requires
            self.wf(),
        ensures
            b == (match other_pressed(self@.pressed, id.spec_index()) {
                Some(i) => Some(button_of(i)),
                None => None,
            }),
    {
        let mut i: usize = 0;
        while i < 3
            invariant
                i <= 3,
                self.wf(),
                forall|j: int| 0 <= j < i ==> !(j != id.spec_index() && self@.pressed[j]),
            decreases 3 - i,
        {
            let other = BUTTON_IDS[i];
            assert(other == button_of(i as int));
            assert(other.spec_index() == i);
            if other != id && self.pressed[i] {
                return Some(other);
            }
            i += 1;
        }
        None
    }

    fn dispatch<H: Hardware>(&mut self, event: GestureEvent, ctx: &FaceContext, hw: &mut H)
        requires
            old(self).wf(),
            ctx.wf(),
        ensures
            final(self).wf(),
            final(self)@ == dispatch_state(old(self)@, event, *ctx),
            final(hw).effects() == old(hw).effects() + dispatch_requests(old(self)@, event, *ctx),
            final(hw).segments() == dispatch_glass(old(self)@, event, *ctx, old(hw).segments()),
    {
        let ghost w = self@;
        match event.button {
            ButtonId::Mode => {
                if event.kind == GestureKind::Press {
                    self.cycle_face(ctx, hw);
                }
            },
            ButtonId::Light => {
                if event.kind == GestureKind::Hold {
                    hw.set_backlight(true);
                    self.backlight_until = Some(ctx.time.secs + BACKLIGHT_SECS);
                }
                let ghost e1 = hw.effects();
                assert(e1 =~= old(hw).effects() + dispatch_effects(event));
                let mut f = self.faces[self.face_index];
                f.button(event, ctx, hw);
                self.faces.set(self.face_index, f);
            },
            ButtonId::Alarm => {
                // The face gets the event first; if it does not consume it, a
                // plain press triggers the face's global Alarm action
                // (12/24-hour format, or the hourly chime on the alarm face).
                let mut f = self.faces[self.face_index];
                let action = f.alarm_action();
                let consumed = f.button(event, ctx, hw);
                self.faces.set(self.face_index, f);
                if event.kind == GestureKind::Press && !consumed {
                    match action {
                        AlarmAction::H24Toggle => self.h24 = !self.h24,
                        AlarmAction::ChimeToggle => self.chime = !self.chime,
                    }
                }
            },
        }
        proof {
            assert(hw.effects() =~= old(hw).effects() + dispatch_requests(w, event, *ctx));
        }
    }

    fn cycle_face<H: Hardware>(&mut self, ctx: &FaceContext, hw: &mut H)
        requires
            old(self).wf(),
            ctx.wf(),
        ensures
            final(self).wf(),
            final(self)@ == ({
                let w = old(self)@;
                let next = (w.face_index + 1) % (w.faces.len() as int);
                WatchState { faces: w.faces.update(next, w.faces[next].after_init(*ctx)), face_index: next, ..w }
            }),
            final(hw).effects() == old(hw).effects() + old(self)@.faces[(old(self)@.face_index + 1) % (old(
                self,
            )@.faces.len() as int)].init_effects(*ctx),
            final(hw).segments() == old(self)@.faces[(old(self)@.face_index + 1) % (old(
                self,
            )@.faces.len() as int)].init_glass(*ctx, Set::empty()),
    {
        self.face_index = (self.face_index + 1) % F::LEN;
        hw.clear_all();
        let mut f = self.faces[self.face_index];
        f.init(ctx, hw);
        self.faces.set(self.face_index, f);
    }
}
/// A dispatched gesture changes at most the face that is active afterwards,
/// and only a Mode press changes which face that is.
proof fn lemma_dispatch_changes_active_only<F: FaceSet>(w: WatchState<F>, event: GestureEvent, ctx: FaceContext)
    requires
        w.faces.len() >= 1,
        0 <= w.face_index < w.faces.len(),
    ensures
        ({
            let w2 = dispatch_state(w, event, ctx);
            &&& w2.faces.len() == w.faces.len()
            &&& 0 <= w2.face_index < w2.faces.len()
            &&& !(event.button == ButtonId::Mode && event.kind == GestureKind::Press) ==> w2.face_index
                == w.face_index
            &&& forall|i: int| 0 <= i < w.faces.len() && i != w2.face_index ==> w2.faces[i] == w.faces[i]
            &&& w2.last_chime == w.last_chime
        }),
{
}

/// Switching faces keeps every face's state: a button sample changes no
/// face but the one that is active afterwards (a Mode press initialises the
/// face it switches to and leaves the one it left as it was), and it never
/// touches the hourly chime's memory.
pub proof fn lemma_button_keeps_other_faces<F: FaceSet>(w: WatchState<F>, id: ButtonId, down: bool, time: DateTime)
    requires
        w.shaped(),
    ensures
        ({
            let w2 = button_state(w, id, down, time);
            &&& w2.shaped()
            &&& w2.faces.len() == w.faces.len()
            &&& forall|i: int| 0 <= i < w.faces.len() && i != w2.face_index ==> w2.faces[i] == w.faces[i]
            &&& w2.last_chime == w.last_chime
        }),
{
    let ctx = w.ctx(time);
    let idx = id.spec_index();
    if down {
        let now = time_ms(time) as u64;
        let fresh = !w.pressed[idx];
        let other = other_pressed(w.pressed, idx);
        let delivered = if fresh {
            w.press_delivered.update(idx, other is Some)
        } else {
            w.press_delivered
        };
        let chord = if fresh && other is Some {
            Some((button_of(other->0), id))
        } else {
            w.pending_chord
        };
        let (sc, g) = scan(w.scanners[idx], true, now);
        let w1 = WatchState {
            pressed: w.pressed.update(idx, true),
            press_delivered: delivered,
            pending_chord: chord,
            scanners: w.scanners.update(idx, sc),
            ..w
        };
        if g is Some && chord is None {
            let kind = g->0;
            assert(kind == GestureKind::Hold);
            let w2 = if !delivered[idx] {
                let wp = WatchState { press_delivered: delivered.update(idx, true), ..w1 };
                lemma_dispatch_changes_active_only(wp, GestureEvent { button: id, kind: GestureKind::Press }, ctx);
                dispatch_state(wp, GestureEvent { button: id, kind: GestureKind::Press }, ctx)
            } else {
                w1
            };
            lemma_dispatch_changes_active_only(w2, GestureEvent { button: id, kind }, ctx);
        }
    } else {
        match w.pending_chord {
            Some((first, second)) => {},
            None => {
                let (sc, g) = scan(w.scanners[idx], false, time_ms(time) as u64);
                let w1 = WatchState {
                    pressed: w.pressed.update(idx, false),
                    scanners: w.scanners.update(idx, sc),
                    ..w
                };
                if g is Some {
                    lemma_dispatch_changes_active_only(w1, GestureEvent { button: id, kind: g->0 }, ctx);
                }
            },
        }
    }
}

/// The hourly chime sounds once per hour: after a tick that chimed, no
/// later tick within the same hour chimes again, whatever buttons are
/// pressed in between.
pub proof fn lemma_chime_once_per_hour<F: FaceSet>(
    w: WatchState<F>,
    t1: DateTime,
    presses: Seq<(ButtonId, bool, DateTime)>,
    t2: DateTime,
)
    requires
        w.shaped(),
        chimes(w, t1),
        t2.secs / 3600 == t1.secs / 3600,
    ensures
        !chimes(presses_state(tick_state(w, t1), presses), t2),
{
    let ctx = w.ctx(t1);
    let requests = w.faces.map_values(|f: F| f.after_background(ctx).1);
    lemma_first_request(requests, w.face_index);
    lemma_presses_keep_chime_memory(tick_state(w, t1), presses);
}

/// The state after the button samples `presses`, in order.
pub open spec fn presses_state<F: FaceSet>(w: WatchState<F>, presses: Seq<(ButtonId, bool, DateTime)>) -> WatchState<F>
    decreases presses.len(),
{
    if presses.len() == 0 {
        w
    } else {
        let (id, down, time) = presses.last();
        button_state(presses_state(w, presses.drop_last()), id, down, time)
    }
}

/// Button samples keep the runtime's shape and never touch the chime's
/// memory.
pub proof fn lemma_presses_keep_chime_memory<F: FaceSet>(w: WatchState<F>, presses: Seq<(ButtonId, bool, DateTime)>)
    requires
        w.shaped(),
    ensures
        presses_state(w, presses).shaped(),
        presses_state(w, presses).last_chime == w.last_chime,
    decreases presses.len(),
{
    if presses.len() > 0 {
        let (id, down, time) = presses.last();
        lemma_presses_keep_chime_memory(w, presses.drop_last());
        lemma_button_keeps_other_faces(presses_state(w, presses.drop_last()), id, down, time);
    }
}

/// The state after the ticks at `times`, in order.
pub open spec fn ticks_state<F: FaceSet>(w: WatchState<F>, times: Seq<DateTime>) -> WatchState<F>
    decreases times.len(),
{
    if times.len() == 0 {
        w
    } else {
        tick_state(ticks_state(w, times.drop_last()), times.last())
    }
}

/// A tick keeps the runtime's shape.
pub proof fn lemma_tick_keeps_shape<F: FaceSet>(w: WatchState<F>, time: DateTime)
    requires
        w.shaped(),
    ensures
        tick_state(w, time).shaped(),
        tick_state(w, time).faces.len() == w.faces.len(),
{
    let ctx = w.ctx(time);
    let requests = w.faces.map_values(|f: F| f.after_background(ctx).1);
    lemma_first_request(requests, w.face_index);
}

/// The backlight stays on through ticks before its timeout: while every
/// tick comes before the second at which it is due to go off, no tick
/// switches it off and the timeout stays; the first tick from that second
/// on switches it off, once.
pub proof fn lemma_backlight_stays_until_due<F: FaceSet>(w: WatchState<F>, until: u64, times: Seq<DateTime>, t: DateTime)
    requires
        w.shaped(),
        w.backlight_until == Some(until),
        forall|k: int| 0 <= k < times.len() ==> (#[trigger] times[k]).secs < until,
    ensures
        ticks_state(w, times).shaped(),
        ticks_state(w, times).backlight_until == Some(until),
        forall|k: int| 0 <= k < times.len() ==> !backlight_expires(#[trigger] ticks_state(w, times.take(k)), times[k]),
        backlight_expires(ticks_state(w, times), t) <==> t.secs >= until,
    decreases times.len(),
{
    if times.len() > 0 {
        let rest = times.drop_last();
        lemma_backlight_stays_until_due(w, until, rest, times.last());
        lemma_tick_keeps_shape(ticks_state(w, rest), times.last());
        assert forall|k: int| 0 <= k < times.len() implies !backlight_expires(
            #[trigger] ticks_state(w, times.take(k)),
            times[k],
        ) by {
            if k < rest.len() {
                assert(times.take(k) =~= rest.take(k));
                assert(rest[k] == times[k]);
            } else {
                assert(times.take(k) =~= rest);
            }
        }
    }
}

/// Once the backlight is off, ticks keep it off: no tick switches it off
/// again until a Light hold switches it on.
pub proof fn lemma_backlight_off_stays_off<F: FaceSet>(w: WatchState<F>, times: Seq<DateTime>, t: DateTime)
    requires
        w.shaped(),
        w.backlight_until is None,
    ensures
        ticks_state(w, times).shaped(),
        ticks_state(w, times).backlight_until is None,
        !backlight_expires(ticks_state(w, times), t),
    decreases times.len(),
{
    if times.len() > 0 {
        lemma_backlight_off_stays_off(w, times.drop_last(), times.last());
        lemma_tick_keeps_shape(ticks_state(w, times.drop_last()), times.last());
    }
}

/// The hourly chime sounds at most once per hour across ticks: after a tick
/// that chimed, no later tick of the same hour chimes again; with the chime
/// off no tick chimes at all.
pub proof fn lemma_chime_once_across_ticks<F: FaceSet>(w: WatchState<F>, t1: DateTime, times: Seq<DateTime>, t2: DateTime)
    requires
        w.shaped(),
        chimes(w, t1),
        forall|k: int| 0 <= k < times.len() ==> (#[trigger] times[k]).secs / 3600 == t1.secs / 3600,
        t2.secs / 3600 == t1.secs / 3600,
    ensures
        ticks_state(tick_state(w, t1), times).last_chime == Some((t1.secs / 3600) as u64),
        !chimes(ticks_state(tick_state(w, t1), times), t2),
    decreases times.len(),
{
    if times.len() > 0 {
        let rest = times.drop_last();
        assert forall|k: int| 0 <= k < rest.len() implies (#[trigger] rest[k]).secs / 3600 == t1.secs / 3600 by {
            assert(rest[k] == times[k]);
        }
        lemma_chime_once_across_ticks(w, t1, rest, times.last());
    }
}

/// Ticks never change whether the chime is on: with it off, no tick
/// chimes.
pub proof fn lemma_chime_off_never_chimes<F: FaceSet>(w: WatchState<F>, times: Seq<DateTime>, t: DateTime)
    requires
        !w.chime,
    ensures
        !ticks_state(w, times).chime,
        !chimes(ticks_state(w, times), t),
    decreases times.len(),
{
    if times.len() > 0 {
        lemma_chime_off_never_chimes(w, times.drop_last(), times.last());
    }
}

/// A Mode tap switches to the next face once: with no button down and no
/// chord forming, pressing Mode changes nothing, and releasing it (no
/// auto-repeat having fired, and no earlier Mode press within the
/// double-click window) makes the next face active, initialised on a
/// cleared glass, with exactly its `init` requests.
pub proof fn lemma_mode_tap_switches_face<F: FaceSet>(w: WatchState<F>, t0: DateTime, t1: DateTime, lit: Set<(u8, u8)>)
    requires
        w.wf(),
        !w.pressed[0] && !w.pressed[1] && !w.pressed[2],
        w.pending_chord is None,
        !w.scanners[1].pressed,
        match w.scanners[1].prev_press_ms {
            Some(p) => !(p <= time_ms(t0) as u64 && time_ms(t0) as u64 - p <= DOUBLE_CLICK_MS),
            None => true,
        },
    ensures
        ({
            let w1 = button_state(w, ButtonId::Mode, true, t0);
            let w2 = button_state(w1, ButtonId::Mode, false, t1);
            let next = (w.face_index + 1) % (w.faces.len() as int);
            &&& w1.face_index == w.face_index && w1.faces == w.faces
            &&& button_requests(w, ButtonId::Mode, true, t0) == Seq::<Effect>::empty()
            &&& button_glass(w, ButtonId::Mode, true, t0, lit) == lit
            &&& w2.face_index == next
            &&& w2.faces == w.faces.update(next, w.faces[next].after_init(w.ctx(t1)))
            &&& button_requests(w1, ButtonId::Mode, false, t1) == w.faces[next].init_effects(w.ctx(t1))
            &&& button_glass(w1, ButtonId::Mode, false, t1, lit) == w.faces[next].init_glass(w.ctx(t1), Set::empty())
        }),
{
    let w1 = button_state(w, ButtonId::Mode, true, t0);
    assert(other_pressed(w.pressed, 1) is None);
    assert(w1.pending_chord is None);
    assert(w1.scanners[1].pressed && !w1.scanners[1].held);
    assert(w1.scanners[1].press_ms == time_ms(t0) as u64);
    assert(w1.scanners[1].prev_press_ms == w.scanners[1].prev_press_ms);
    assert(dispatch_effects(GestureEvent { button: ButtonId::Mode, kind: GestureKind::Press }) =~= Seq::<Effect>::empty());
    assert(Seq::<Effect>::empty() + w.faces[(w.face_index + 1) % (w.faces.len() as int)].init_effects(w.ctx(t1))
        =~= w.faces[(w.face_index + 1) % (w.faces.len() as int)].init_effects(w.ctx(t1)));
}

/// Holding a button alone delivers its press and then its hold, once the
/// hold delay has passed: a held Mode switches to the next face once (the
/// hold itself does nothing), a held Light reaches the face as a press and
/// then a hold and switches the backlight on; the release of the held
/// button then dispatches nothing.
pub proof fn lemma_hold_delivers_press_then_hold<F: FaceSet>(w: WatchState<F>, id: ButtonId, t0: DateTime, t: DateTime, t2: DateTime)
    requires
        w.wf(),
        t.wf(),
        !w.pressed[0] && !w.pressed[1] && !w.pressed[2],
        w.pending_chord is None,
        !w.scanners[id.spec_index()].pressed,
        time_ms(t0) <= time_ms(t),
        time_ms(t) - time_ms(t0) >= HOLD_DELAY_MS,
    ensures
        ({
            let w1 = button_state(w, id, true, t0);
            let w2 = button_state(w1, id, true, t);
            let w3 = button_state(w2, id, false, t2);
            let ctx = w.ctx(t);
            let fi = w.face_index;
            let next = (fi + 1) % (w.faces.len() as int);
            let press = GestureEvent { button: id, kind: GestureKind::Press };
            let hold = GestureEvent { button: id, kind: GestureKind::Hold };
            &&& w1.face_index == w.face_index && w1.faces == w.faces
            &&& id == ButtonId::Mode ==> {
                &&& w2.face_index == next
                &&& w2.faces == w.faces.update(next, w.faces[next].after_init(ctx))
            }
            &&& id == ButtonId::Light ==> {
                &&& w2.face_index == fi
                &&& w2.faces == w.faces.update(fi, w.faces[fi].after_button(press, ctx).0.after_button(hold, ctx).0)
                &&& w2.backlight_until == Some((t.secs + BACKLIGHT_SECS) as u64)
            }
            &&& w3.face_index == w2.face_index && w3.faces == w2.faces
            &&& button_requests(w2, id, false, t2) == Seq::<Effect>::empty()
        }),
{
    let idx = id.spec_index();
    let w1 = button_state(w, id, true, t0);
    assert(other_pressed(w.pressed, idx) is None);
    assert(w1.pending_chord is None);
    assert(w1.scanners[idx].pressed && !w1.scanners[idx].held);
    assert(!w1.press_delivered[idx]);
    let w2 = button_state(w1, id, true, t);
    assert(w2.scanners[idx].held);
    assert(w2.pending_chord is None);
}

/// The backlight switched on by a Light hold at `t1` goes off at the first
/// tick from [`BACKLIGHT_SECS`] seconds later on, and not before.
pub proof fn lemma_backlight_times_out<F: FaceSet>(w: WatchState<F>, t1: DateTime, t2: DateTime)
    requires
        w.shaped(),
        t1.secs + BACKLIGHT_SECS <= u64::MAX,
    ensures
        ({
            let lit = dispatch_state(w, GestureEvent { button: ButtonId::Light, kind: GestureKind::Hold }, w.ctx(t1));
            &&& runtime_tick_effects(lit, t2).len() >= 1 && runtime_tick_effects(lit, t2)[0] == Effect::Backlight(false)
                <==> t2.secs >= t1.secs + BACKLIGHT_SECS
            &&& t2.secs >= t1.secs + BACKLIGHT_SECS ==> tick_state(lit, t2).backlight_until is None
        }),
{
    let lit = dispatch_state(w, GestureEvent { button: ButtonId::Light, kind: GestureKind::Hold }, w.ctx(t1));
    assert(lit.backlight_until == Some((t1.secs + BACKLIGHT_SECS) as u64));
}

/// While two buttons form a chord no gesture reaches the faces: holding
/// buttons changes no face, and the chord itself reaches the active face
/// once, when the last of its two buttons is released.
pub proof fn lemma_chord_suppresses_gestures<F: FaceSet>(w: WatchState<F>, id: ButtonId, down: bool, time: DateTime)
    requires
        w.shaped(),
        w.pending_chord is Some,
    ensures
        ({
            let w2 = button_state(w, id, down, time);
            let (first, second) = w.pending_chord->0;
            let fi = w.face_index;
            &&& w2.face_index == fi
            &&& down ==> w2.faces == w.faces
            &&& !down ==> {
                ||| w2.pending_chord is None && w2.faces == w.faces.update(
                    fi,
                    w.faces[fi].after_chord(ChordEvent { first, second }, w.ctx(time)).0,
                )
                ||| w2.pending_chord == w.pending_chord && w2.faces == w.faces
            }
        }),
{
}

} // verus!
