//! An in-memory [`Hardware`]: a glass whose lit segments can be read back,
//! and a log of the requests made of the other peripherals. Used to run faces
//! and the runtime off the watch (tests, tools), and a verified instance of
//! the [`Display`] and [`Hardware`] contracts.
use vstd::prelude::*;

use crate::display::Display;
use crate::hardware::{Effect, Hardware, Note};
use crate::legacy::hw::{Hardware as PlutoHardware, Timedate};

verus! {

/// Number of addressable `(com, seg)` pairs.
pub const GLASS_CELLS: usize = 65536;

/// A request made of a peripheral beyond the glass, as recorded by a
/// [`Recorder`]; its view is the [`Effect`] it stands for.
#[derive(Clone, Debug, PartialEq, Eq)]
pub enum Request {
    Backlight(bool),
    Beep(u32),
    Melody(Vec<Note>),
    StopMelody,
    SetRtc(u64),
    SetTime(u8, u8, u8),
    SetDate(u16, u8, u8, u8),
    Tone(u16),
    AuxTimer(bool),
}

impl View for Request {
    type V = Effect;

    open spec fn view(&self) -> Effect {
        match self {
            Request::Backlight(on) => Effect::Backlight(*on),
            Request::Beep(ms) => Effect::Beep(*ms),
            Request::Melody(notes) => Effect::Melody(notes@),
            Request::StopMelody => Effect::StopMelody,
            Request::SetRtc(ms) => Effect::SetRtc(*ms),
            Request::SetTime(h, m, sec) => Effect::SetTime(*h, *m, *sec),
            Request::SetDate(y, mo, d, w) => Effect::SetDate(*y, *mo, *d, *w),
            Request::Tone(f) => Effect::Tone(*f),
            Request::AuxTimer(on) => Effect::AuxTimer(*on),
        }
    }
}

/// The index of glass segment `(com, seg)` in a [`Recorder`].
pub open spec fn cell_index(c: (u8, u8)) -> int {
    c.0 as int * 256 + c.1 as int
}

/// An in-memory glass plus a request log, and a clock that reads a set
/// date and time.
pub struct Recorder {
    /// Whether each `(com, seg)` is lit, at [`cell_index`].
    lit: [bool; GLASS_CELLS],
    /// Every request, oldest first.
    requests: Vec<Request>,
    /// What the clock reads.
    clock: Timedate,
}

impl Recorder {
    /// What the clock reads.
    pub closed spec fn spec_clock(self) -> Timedate {
        self.clock
    }

    /// A dark glass, an empty log and a clock at zero.
    pub fn new() -> (r: Self)
        ensures
            r.segments() == Set::<(u8, u8)>::empty(),
            r.effects() == Seq::<Effect>::empty(),
            r.spec_clock() == (Timedate { h: 0, m: 0, s: 0, dow: 0, dom: 0, month: 0, year: 0 }),
    {
        let r = Recorder {
            lit: [false; GLASS_CELLS],
            requests: Vec::new(),
            clock: Timedate { h: 0, m: 0, s: 0, dow: 0, dom: 0, month: 0, year: 0 },
        };
        assert(r.segments() =~= Set::<(u8, u8)>::empty());
        assert(r.effects() =~= Seq::<Effect>::empty());
        r
    }

    /// Whether glass segment `(com, seg)` is lit.
    pub fn is_lit(&self, com: u8, seg: u8) -> (b: bool)
        ensures
            b == self.segments().contains((com, seg)),
    {
        self.lit[com as usize * 256 + seg as usize]
    }

    /// The lit segments, in `(com, seg)` order.
    pub fn lit_segments(&self) -> (cells: Vec<(u8, u8)>)
        ensures
            forall|c: (u8, u8)| self.segments().contains(c) <==> cells@.contains(c),
            forall|i: int, j: int|
                0 <= i < j < cells@.len() ==> cell_index(#[trigger] cells@[i]) < cell_index(#[trigger] cells@[j]),
    {
        let mut cells: Vec<(u8, u8)> = Vec::new();
        let mut i: usize = 0;
        while i < GLASS_CELLS
            invariant
                i <= GLASS_CELLS,
                forall|k: int| 0 <= k < cells@.len() ==> cell_index(#[trigger] cells@[k]) < i,
                forall|k: int| 0 <= k < cells@.len() ==> self.lit@[cell_index(#[trigger] cells@[k])],
                forall|k: int, l: int|
                    0 <= k < l < cells@.len() ==> cell_index(#[trigger] cells@[k]) < cell_index(#[trigger] cells@[l]),
                forall|c: (u8, u8)| cell_index(c) < i && self.lit@[cell_index(c)] ==> cells@.contains(c),
            decreases GLASS_CELLS - i,
        {
            let ghost before = cells@;
            if self.lit[i] {
                let c = ((i / 256) as u8, (i % 256) as u8);
                assert(cell_index(c) == i);
                cells.push(c);
                assert(cells@[cells@.len() - 1] == c);
            }
            proof {
                assert forall|c: (u8, u8)| cell_index(c) < i + 1 && self.lit@[cell_index(c)] implies cells@.contains(
                    c,
                ) by {
                    if cell_index(c) == i {
                        let d = ((i / 256) as u8, (i % 256) as u8);
                        assert(c == d);
                        assert(cells@[cells@.len() - 1] == d);
                    } else {
                        assert(before.contains(c));
                        let k = choose|k: int| 0 <= k < before.len() && before[k] == c;
                        assert(cells@[k] == c);
                    }
                }
            }
            i = i + 1;
        }
        proof {
            assert forall|c: (u8, u8)| self.segments().contains(c) <==> cells@.contains(c) by {
                if cells@.contains(c) {
                    let k = choose|k: int| 0 <= k < cells@.len() && cells@[k] == c;
                    assert(self.lit@[cell_index(cells@[k])]);
                }
            }
        }
        cells
    }

    /// The requests made so far, oldest first.
    pub fn requests(&self) -> (log: &[Request])
        ensures
            log@.map_values(|r: Request| r@) == self.effects(),
    {
        self.requests.as_slice()
    }

    /// Hand out the requests made so far, oldest first, and start a new
    /// log.
    pub fn drain_requests(&mut self) -> (log: Vec<Request>)
        ensures
            log@.map_values(|r: Request| r@) == old(self).effects(),
            final(self).effects() == Seq::<Effect>::empty(),
            final(self).segments() == old(self).segments(),
            final(self).spec_clock() == old(self).spec_clock(),
    {
        let mut log: Vec<Request> = Vec::new();
        std::mem::swap(&mut log, &mut self.requests);
        assert(self.effects() =~= Seq::<Effect>::empty());
        log
    }

    /// Make the clock read `t`.
    pub fn set_clock(&mut self, t: Timedate)
        ensures
            final(self).spec_clock() == t,
            final(self).segments() == old(self).segments(),
            final(self).effects() == old(self).effects(),
    {
        self.clock = t;
    }

    fn record(&mut self, request: Request)
        ensures
            final(self).segments() == old(self).segments(),
            final(self).effects() == old(self).effects().push(request@),
            final(self).spec_clock() == old(self).spec_clock(),
    {
        self.requests.push(request);
        proof {
            assert(final(self).effects() =~= old(self).effects().push(request@));
        }
    }
}

impl Display for Recorder {
    closed spec fn segments(&self) -> Set<(u8, u8)> {
        Set::new(|c: (u8, u8)| self.lit@[cell_index(c)])
    }

    closed spec fn effects(&self) -> Seq<Effect> {
        self.requests@.map_values(|r: Request| r@)
    }

    fn clear_all(&mut self) {
        let mut i: usize = 0;
        while i < GLASS_CELLS
            invariant
                i <= GLASS_CELLS,
                forall|k: int| 0 <= k < i ==> !self.lit@[k],
                self.requests == old(self).requests,
            decreases GLASS_CELLS - i,
        {
            self.lit[i] = false;
            i = i + 1;
        }
        assert(self.segments() =~= Set::<(u8, u8)>::empty());
    }

    fn set_segment(&mut self, com: u8, seg: u8, on: bool) {
        self.lit[com as usize * 256 + seg as usize] = on;
        proof {
            if on {
                assert(self.segments() =~= old(self).segments().insert((com, seg)));
            } else {
                assert(self.segments() =~= old(self).segments().remove((com, seg)));
            }
        }
    }
}

impl Hardware for Recorder {
    fn set_backlight(&mut self, on: bool) {
        self.record(Request::Backlight(on));
    }

    fn beep_ms(&mut self, ms: u32) {
        self.record(Request::Beep(ms));
    }

    fn melody(&mut self, notes: &[Note]) {
        self.record(Request::Melody(vstd::slice::slice_to_vec(notes)));
    }

    fn stop_melody(&mut self) {
        self.record(Request::StopMelody);
    }

    fn set_rtc(&mut self, epoch_ms: u64) {
        self.record(Request::SetRtc(epoch_ms));
    }
}

impl PlutoHardware for Recorder {
    fn rtc_get(&mut self) -> (t: Timedate)
        ensures
            t == old(self).spec_clock(),
    {
        self.clock
    }

    /// Records the request and sets the clock's time of day.
    fn rtc_set_time(&mut self, t: &Timedate)
        ensures
            final(self).spec_clock() == (Timedate { h: t.h, m: t.m, s: t.s, ..old(self).spec_clock() }),
    {
        self.record(Request::SetTime(t.h, t.m, t.s));
        self.clock.h = t.h;
        self.clock.m = t.m;
        self.clock.s = t.s;
    }

    /// Records the request and sets the clock's date.
    fn rtc_set_date(&mut self, t: &Timedate)
        ensures
            final(self).spec_clock() == (Timedate {
                year: t.year,
                month: t.month,
                dom: t.dom,
                dow: t.dow,
                ..old(self).spec_clock()
            }),
    {
        self.record(Request::SetDate(t.year, t.month, t.dom, t.dow));
        self.clock.year = t.year;
        self.clock.month = t.month;
        self.clock.dom = t.dom;
        self.clock.dow = t.dow;
    }

    fn backlight_set(&mut self, on: bool) {
        self.record(Request::Backlight(on));
    }

    fn beep(&mut self, freq_hz: u16) {
        self.record(Request::Tone(freq_hz));
    }

    fn aux_timer_set(&mut self, running: bool) {
        self.record(Request::AuxTimer(running));
    }
}

} // verus!
