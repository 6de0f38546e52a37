//! Hardware features beyond the LCD: backlight, buzzer and the wall clock.
use vstd::prelude::*;

use crate::display::Display;

verus! {

/// A single note of a [`Hardware::melody`]: a tone at `freq_hz` (0 = rest)
/// lasting `ms` milliseconds.
#[derive(Clone, Copy, Debug, PartialEq, Eq, Structural)]
pub struct Note {
    pub freq_hz: u32,
    pub ms: u32,
}

/// Maximum number of notes a [`Hardware::melody`] can play in one call.
pub const MAX_MELODY_NOTES: usize = 64;

/// The buzzer's default frequency, used by the ring melody.
pub const BUZZ_FREQ_HZ: u32 = 2400;

/// The ring cadence of the stock F-91W as notes: two 100 ms beeps, the
/// second starting 250 ms after the first.
pub open spec fn ring_beep_notes() -> Seq<Note> {
    seq![
        Note { freq_hz: BUZZ_FREQ_HZ, ms: 100 },
        Note { freq_hz: 0, ms: 150 },
        Note { freq_hz: BUZZ_FREQ_HZ, ms: 100 },
    ]
}

/// The ring melody ([`ring_beep_notes`]), re-triggered once per second while
/// an alarm rings.
pub fn ring_beep() -> (notes: [Note; 3])
    ensures
        notes@ == ring_beep_notes(),
{
    [
        Note { freq_hz: BUZZ_FREQ_HZ, ms: 100 },
        Note { freq_hz: 0, ms: 150 },
        Note { freq_hz: BUZZ_FREQ_HZ, ms: 100 },
    ]
}

/// A request made of a peripheral beyond the glass.
pub enum Effect {
    /// The backlight was switched on or off.
    Backlight(bool),
    /// A beep of the given length in ms.
    Beep(u32),
    /// A melody was started.
    Melody(Seq<Note>),
    /// The running melody was stopped.
    StopMelody,
    /// The wall clock was set to the given ms since the Unix epoch.
    SetRtc(u64),
    /// The clock's time of day was set to `(hour, minute, second)`.
    SetTime(u8, u8, u8),
    /// The clock's date was set to `(year, month, day, weekday)`, the
    /// weekday counted from Monday (0).
    SetDate(u16, u8, u8, u8),
    /// A tone at the given frequency (0 = silence) was started.
    Tone(u16),
    /// The auxiliary countdown timer was started (`true`) or stopped.
    AuxTimer(bool),
}

/// `after` is `before` with zero or more requests added at the end.
pub open spec fn extends(before: Seq<Effect>, after: Seq<Effect>) -> bool {
    before.len() <= after.len() && after.subrange(0, before.len() as int) == before
}

/// Every record extends itself.
pub proof fn lemma_extends_refl(a: Seq<Effect>)
    ensures
        extends(a, a),
        a + Seq::<Effect>::empty() == a,
{
    assert(a.subrange(0, a.len() as int) =~= a);
    assert(a + Seq::<Effect>::empty() =~= a);
}

/// Extending is transitive.
pub proof fn lemma_extends_trans(a: Seq<Effect>, b: Seq<Effect>, c: Seq<Effect>)
    requires
        extends(a, b),
        extends(b, c),
    ensures
        extends(a, c),
{
    assert(c.subrange(0, a.len() as int) =~= b.subrange(0, a.len() as int));
}

/// The platform a face runs on: a [`Display`] plus non-display peripherals.
///
/// Both the emulator and the real firmware implement this trait, so a face
/// behaves identically on both. Each request is recorded in
/// [`Display::effects`]; none of them touches the glass.
pub trait Hardware: Display {
    /// Turn the backlight on or off (the runtime handles the ~3 s auto-off).
    fn set_backlight(&mut self, on: bool)
        ensures
            final(self).segments() == old(self).segments(),
            final(self).effects() == old(self).effects().push(Effect::Backlight(on)),
    ;

    /// Play a short standard beep: [`Hardware::beep_ms`] with 60 ms.
    fn beep(&mut self)
        ensures
            final(self).segments() == old(self).segments(),
            final(self).effects() == old(self).effects().push(Effect::Beep(60)),
    {
        self.beep_ms(60);
    }

    /// Beep for `ms` milliseconds at the buzzer's default frequency.
    fn beep_ms(&mut self, ms: u32)
        ensures
            final(self).segments() == old(self).segments(),
            final(self).effects() == old(self).effects().push(Effect::Beep(ms)),
    ;

    /// Play a melody in the background. Notes play back-to-back; a note with
    /// `freq_hz == 0` is a rest of `ms` milliseconds. A platform without a
    /// programmable buzzer records the request and plays nothing.
    fn melody(&mut self, notes: &[Note])
        requires
            notes@.len() <= MAX_MELODY_NOTES,
        ensures
            final(self).segments() == old(self).segments(),
            final(self).effects() == old(self).effects().push(Effect::Melody(notes@)),
    ;

    /// Stop any melody currently playing via [`Hardware::melody`].
    fn stop_melody(&mut self)
        ensures
            final(self).segments() == old(self).segments(),
            final(self).effects() == old(self).effects().push(Effect::StopMelody),
    ;

    /// Set the wall clock to `epoch_ms` milliseconds since the Unix epoch.
    fn set_rtc(&mut self, epoch_ms: u64)
        ensures
            final(self).segments() == old(self).segments(),
            final(self).effects() == old(self).effects().push(Effect::SetRtc(epoch_ms)),
    ;
}

/// A tone of a scheduled melody: `freq_hz` for `ms` milliseconds, starting
/// `delay_ms` after the melody starts.
#[derive(Clone, Copy, Debug, PartialEq, Eq, Structural)]
pub struct ScheduledTone {
    pub freq_hz: u32,
    pub ms: u32,
    pub delay_ms: u32,
}

/// `a + b`, or `u32::MAX` when that is larger.
pub open spec fn saturating_sum(a: u32, b: u32) -> u32 {
    if a + b > u32::MAX {
        u32::MAX
    } else {
        (a + b) as u32
    }
}

/// The tones of `notes` played back-to-back from `delay` on: each note
/// starts when the previous ones have ended (the delay stops growing at
/// `u32::MAX`), and rests (`freq_hz == 0`) only take their time.
pub open spec fn melody_tones(notes: Seq<Note>, delay: u32) -> Seq<ScheduledTone>
    decreases notes.len(),
{
    if notes.len() == 0 {
        Seq::empty()
    } else {
        let n = notes[0];
        let rest = melody_tones(notes.drop_first(), saturating_sum(delay, n.ms));
        if n.freq_hz > 0 {
            seq![ScheduledTone { freq_hz: n.freq_hz, ms: n.ms, delay_ms: delay }] + rest
        } else {
            rest
        }
    }
}

/// Schedule a melody on a buzzer that takes tones with a start delay: one
/// tone per sounding note, each delayed by the length of the notes before
/// it.
pub fn schedule_melody(notes: &[Note]) -> (tones: Vec<ScheduledTone>)
    ensures
        tones@ == melody_tones(notes@, 0),
{
    let mut tones: Vec<ScheduledTone> = Vec::new();
    let mut delay: u32 = 0;
    let mut i: usize = 0;
    assert(notes@.skip(0) =~= notes@);
    while i < notes.len()
        invariant
            i <= notes@.len(),
            tones@ + melody_tones(notes@.skip(i as int), delay) == melody_tones(notes@, 0),
        decreases notes@.len() - i,
    {
        let note = notes[i];
        let ghost before = tones@;
        let ghost rest = notes@.skip(i as int);
        assert(rest[0] == note);
        assert(rest.drop_first() =~= notes@.skip(i as int + 1));
        let next = delay.saturating_add(note.ms);
        if note.freq_hz > 0 {
            tones.push(ScheduledTone { freq_hz: note.freq_hz, ms: note.ms, delay_ms: delay });
            assert(before.push(ScheduledTone { freq_hz: note.freq_hz, ms: note.ms, delay_ms: delay }) + melody_tones(
                notes@.skip(i as int + 1),
                next,
            ) =~= before + (seq![ScheduledTone { freq_hz: note.freq_hz, ms: note.ms, delay_ms: delay }]
                + melody_tones(notes@.skip(i as int + 1), next)));
        }
        delay = next;
        i += 1;
    }
    assert(notes@.skip(i as int) =~= Seq::<Note>::empty());
    assert(tones@ + Seq::<ScheduledTone>::empty() =~= tones@);
    tones
}

} // verus!
