//! F-91W glass abstraction, in pluto coordinates.
//!
//! The pluto firmware uses a position-based LCD model: positions 0-7 are the
//! eight 7-segment digits (hours, minutes, seconds, day-of-month, left to
//! right), positions 8-9 are the two weekday/mode letters at the top. Each
//! position maps to the same physical glass as [`crate::font`], so the
//! `(com, seg)` glass coordinates are shared with the emulator skin.
//!
//! Every drawing operation is a sequence of single segment writes; on a
//! position whose segments share a wire the last write wins, which the
//! `*_writes` functions below spell out.
use vstd::prelude::*;

pub use crate::display::Display;
pub use crate::font::DIGIT_SEGS;
use crate::font::mask_bit;
use crate::letters::{glyph, letter_cell, letter_cell_exists, LETTER_POS_SEGS, LETTER_SEGS};

verus! {

/// The seven segments `A..G` of each digit position as `(com, seg)` glass
/// coordinates. `(-1, -1)` means the segment is shared with a neighbouring
/// digit (already driven by the other digit).
///
/// Positions: 0=hour tens, 1=hour ones, 2=minute tens, 3=minute ones,
/// 4=second tens, 5=second ones, 6=day tens, 7=day ones.
pub const FONT: [[[i8; 2]; 7]; 8] = [
    /* pos 0 */ [[1, 18], [2, 19], [0, 19], [1, 18], [0, 18], [2, 18], [1, 19]],
    /* pos 1 */ [[2, 20], [2, 21], [1, 21], [0, 21], [0, 20], [1, 17], [1, 20]],
    /* pos 2 */ [[0, 22], [2, 23], [0, 23], [0, 22], [1, 22], [2, 22], [1, 23]],
    /* pos 3 */ [[2, 1], [2, 10], [0, 1], [0, 0], [1, 0], [2, 0], [1, 1]],
    /* pos 4 */ [[2, 2], [2, 3], [0, 4], [0, 3], [0, 2], [1, 2], [1, 3]],
    /* pos 5 */ [[2, 4], [2, 5], [1, 6], [0, 6], [0, 5], [1, 4], [1, 5]],
    /* pos 6 */ [[1, 9], [0, 9], [2, 9], [1, 9], [0, 10], [-1, -1], [1, 9]],
    /* pos 7 */ [[0, 7], [1, 7], [2, 7], [2, 6], [2, 8], [0, 8], [1, 8]],
];

/// The indicator segments (beyond the digits).
#[derive(Clone, Copy, Debug, PartialEq, Eq, Structural)]
pub enum Indicator {
    /// The colon between hour and minute.
    Colon,
    /// The alarm bell symbol.
    Bell,
    Pm,
    H24,
    Lap,
    /// The "signal" bars segment.
    Bars,
}

/// Glass coordinates `(com, seg)` of the indicators, in [`Indicator`] order.
pub const INDICATORS: [[u8; 2]; 6] = [
    [1, 16], /* Colon  (dot_down + dot_up)      */
    [0, 16], /* Bell   (alarm_inside)           */
    [2, 17], /* PM     (timemode_PM)            */
    [2, 16], /* 24H    (timemode_24H)           */
    [1, 10], /* LAP    (lap)                    */
    [0, 17], /* Bars   (signal_1..signal_5)     */
];

impl Indicator {
    /// Index of the indicator in [`INDICATORS`].
    pub open spec fn spec_index(self) -> int {
        match self {
            Indicator::Colon => 0,
            Indicator::Bell => 1,
            Indicator::Pm => 2,
            Indicator::H24 => 3,
            Indicator::Lap => 4,
            Indicator::Bars => 5,
        }
    }

    /// Index of the indicator in [`INDICATORS`].
    pub fn index(self) -> (i: usize)
        ensures
            i == self.spec_index(),
    {
        match self {
            Indicator::Colon => 0,
            Indicator::Bell => 1,
            Indicator::Pm => 2,
            Indicator::H24 => 3,
            Indicator::Lap => 4,
            Indicator::Bars => 5,
        }
    }

    /// The glass segment of the indicator.
    pub open spec fn cell(self) -> (u8, u8) {
        (INDICATORS[self.spec_index()][0], INDICATORS[self.spec_index()][1])
    }
}

/// Whether segment `i` (0 = A .. 6 = G) of digit position `pos` is driven by
/// that position.
pub open spec fn segment_exists(pos: int, i: int) -> bool {
    FONT[pos][i][0] >= 0 && FONT[pos][i][1] >= 0
}

/// The glass segment of segment `i` of digit position `pos`.
pub open spec fn segment(pos: int, i: int) -> (u8, u8) {
    (FONT[pos][i][0] as u8, FONT[pos][i][1] as u8)
}

/// `lit` with segment `c` switched on or off.
pub open spec fn set_cell(lit: Set<(u8, u8)>, c: (u8, u8), on: bool) -> Set<(u8, u8)> {
    if on {
        lit.insert(c)
    } else {
        lit.remove(c)
    }
}

/// The glass after writing bit `i` of `mask` to segment `i` of digit
/// position `pos`, for `i` in `0..n` in order.
pub open spec fn digit_writes(lit: Set<(u8, u8)>, pos: int, mask: u8, n: int) -> Set<(u8, u8)>
    decreases n,
{
    if n <= 0 {
        lit
    } else {
        let before = digit_writes(lit, pos, mask, n - 1);
        if segment_exists(pos, n - 1) {
            set_cell(before, segment(pos, n - 1), mask_bit(mask, n - 1))
        } else {
            before
        }
    }
}

/// The glass after digit position `pos` (0-7) was drawn with the segment
/// pattern `mask`.
pub open spec fn digit_image(lit: Set<(u8, u8)>, pos: int, mask: u8) -> Set<(u8, u8)> {
    digit_writes(lit, pos, mask, 7)
}

/// The glass after switching off the first `n` segments of letter position
/// `pos`.
pub open spec fn letter_clears(lit: Set<(u8, u8)>, pos: int, n: int) -> Set<(u8, u8)>
    decreases n,
{
    if n <= 0 {
        lit
    } else {
        let before = letter_clears(lit, pos, n - 1);
        if letter_cell_exists(pos, n - 1) {
            before.remove(letter_cell(pos, n - 1))
        } else {
            before
        }
    }
}

/// The glass after switching on the segments among the first `n` of letter
/// position `pos` that `mask` lights.
pub open spec fn letter_sets(lit: Set<(u8, u8)>, pos: int, mask: u8, n: int) -> Set<(u8, u8)>
    decreases n,
{
    if n <= 0 {
        lit
    } else {
        let before = letter_sets(lit, pos, mask, n - 1);
        if letter_cell_exists(pos, n - 1) && mask_bit(mask, n - 1) {
            before.insert(letter_cell(pos, n - 1))
        } else {
            before
        }
    }
}

/// The glass after letter position `pos` (0 = position 8, 1 = position 9)
/// was cleared and then drawn with the letter mask `mask`.
pub open spec fn letter_image(lit: Set<(u8, u8)>, pos: int, mask: u8) -> Set<(u8, u8)> {
    letter_sets(letter_clears(lit, pos, 8), pos, mask, 8)
}

/// Convenience drawing helpers available for any [`Display`].
pub trait DigitDisplay: Display {
    /// Draw a digit (0-9) at one of the 8 seven-segment positions; anything
    /// else is ignored.
    fn set_digit(&mut self, position: u8, digit: u8)
        ensures
            position < 8 && digit <= 9 ==> final(self).segments() == digit_image(
                old(self).segments(),
                position as int,
                DIGIT_SEGS[digit as int],
            ),
            !(position < 8 && digit <= 9) ==> final(self).segments() == old(self).segments(),
            final(self).effects() == old(self).effects(),
    ;

    /// Turn off every segment of a digit position.
    fn clear_digit(&mut self, position: u8)
        ensures
            position < 8 ==> final(self).segments() == digit_image(old(self).segments(), position as int, 0),
            position >= 8 ==> final(self).segments() == old(self).segments(),
            final(self).effects() == old(self).effects(),
    ;

    /// Draw a character at one of the two letter positions (8 or 9; any
    /// lower position draws at 8). Accepts printable ASCII only.
    fn set_char(&mut self, position: u8, ch: u8)
        ensures
            position <= 9 && 32 <= ch <= 126 ==> final(self).segments() == letter_image(
                old(self).segments(),
                if position < 8 { 0 } else { position - 8 },
                glyph(ch, if position < 8 { 0 } else { position - 8 }),
            ),
            !(position <= 9 && 32 <= ch <= 126) ==> final(self).segments() == old(self).segments(),
            final(self).effects() == old(self).effects(),
    ;

    /// Clear a letter position, including its extra segments (any position
    /// below 8 clears 8).
    fn clear_char(&mut self, position: u8)
        ensures
            position <= 9 ==> final(self).segments() == letter_clears(
                old(self).segments(),
                if position < 8 { 0 } else { position - 8 },
                8,
            ),
            position > 9 ==> final(self).segments() == old(self).segments(),
            final(self).effects() == old(self).effects(),
    ;

    /// Turn an indicator segment on or off.
    fn set_indicator(&mut self, indicator: Indicator, on: bool)
        ensures
            final(self).segments() == set_cell(old(self).segments(), indicator.cell(), on),
            final(self).effects() == old(self).effects(),
    ;
}

/// Draw the 7-segment pattern `mask` at digit position `pos`, one segment
/// after the other.
pub fn draw_mask<D: Display + ?Sized>(d: &mut D, pos: usize, mask: u8)
    requires
        pos < 8,
    ensures
        final(d).segments() == digit_image(old(d).segments(), pos as int, mask),
        final(d).effects() == old(d).effects(),
{
    let mut i: usize = 0;
    while i < 7
        invariant
            pos < 8,
            i <= 7,
            d.segments() == digit_writes(old(d).segments(), pos as int, mask, i as int),
            d.effects() == old(d).effects(),
        decreases 7 - i,
    {
        let com = FONT[pos][i][0];
        let seg = FONT[pos][i][1];
        if com >= 0 && seg >= 0 {
            d.set_segment(com as u8, seg as u8, mask & (1u8 << (i as u8)) != 0);
        }
        i += 1;
    }
}

impl<T: Display + ?Sized> DigitDisplay for T {
    fn set_digit(&mut self, position: u8, digit: u8) {
        let pos = position as usize;
        if pos >= 8 || digit > 9 {
            return;
        }
        draw_mask(self, pos, DIGIT_SEGS[digit as usize]);
    }

    fn clear_digit(&mut self, position: u8) {
        let pos = position as usize;
        if pos >= 8 {
            return;
        }
        draw_mask(self, pos, 0);
    }

    fn set_char(&mut self, position: u8, ch: u8) {
        let pos = (position as usize).saturating_sub(8);
        if pos > 1 || ch < 32 || ch > 126 {
            return;
        }
        self.clear_char(position);
        let mask = LETTER_SEGS[(ch - 32) as usize][pos];
        let ghost cleared = self.segments();
        let mut i: usize = 0;
        while i < 8
            invariant
                pos <= 1,
                i <= 8,
                mask == glyph(ch, pos as int),
                self.segments() == letter_sets(cleared, pos as int, mask, i as int),
                self.effects() == old(self).effects(),
            decreases 8 - i,
        {
            let com = LETTER_POS_SEGS[pos][i][0];
            let seg = LETTER_POS_SEGS[pos][i][1];
            if com >= 0 && seg >= 0 && mask & (1u8 << (i as u8)) != 0 {
                self.set_segment(com as u8, seg as u8, true);
            }
            i += 1;
        }
    }

    fn clear_char(&mut self, position: u8) {
        let pos = (position as usize).saturating_sub(8);
        if pos > 1 {
            return;
        }
        let mut i: usize = 0;
        while i < 8
            invariant
                pos <= 1,
                i <= 8,
                self.segments() == letter_clears(old(self).segments(), pos as int, i as int),
                self.effects() == old(self).effects(),
            decreases 8 - i,
        {
            let com = LETTER_POS_SEGS[pos][i][0];
            let seg = LETTER_POS_SEGS[pos][i][1];
            if com >= 0 && seg >= 0 {
                self.set_segment(com as u8, seg as u8, false);
            }
            i += 1;
        }
    }

    fn set_indicator(&mut self, indicator: Indicator, on: bool) {
        let i = indicator.index();
        self.set_segment(INDICATORS[i][0], INDICATORS[i][1], on);
    }
}

} // verus!
