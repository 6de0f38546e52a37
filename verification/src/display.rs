//! LCD glass abstraction.
//!
//! Coordinates passed to [`Display`] are *glass* coordinates: the same
//! `(com, seg)` values used by the emulator skin and by the font tables in
//! [`crate::font`]. Each concrete driver translates them to the real LCD RAM
//! bits.
//!
//! A display is modelled by the set of glass segments that are lit
//! ([`Display::segments`]) and by the requests already made of the other
//! peripherals ([`Display::effects`], see [`crate::hardware`]).
use vstd::prelude::*;

use crate::font::{
    blank, cell, cell_exists, cell_shows, lemma_font_owners, lit_by, mask_bit, owner, shows_digit,
    shows_indicator, shows_mask, Indicator, DIGIT_SEGS, FONT, INDICATORS,
};
use crate::hardware::Effect;
use crate::letters::{glyph, letter_cell, letter_cell_exists, printable, LETTER_POS_SEGS, LETTER_SEGS};

verus! {

/// A driver for the F-91W LCD glass.
pub trait Display {
    /// The glass segments that are currently lit.
    spec fn segments(&self) -> Set<(u8, u8)>;

    /// The requests made so far of the peripherals beyond the glass
    /// (backlight, buzzer, clock), oldest first. Drawing never changes them.
    spec fn effects(&self) -> Seq<Effect>;

    /// Turn every segment off.
    fn clear_all(&mut self)
        ensures
            final(self).segments() == Set::<(u8, u8)>::empty(),
            final(self).effects() == old(self).effects(),
    ;

    /// Turn a single glass segment on (`on == true`) or off.
    fn set_segment(&mut self, com: u8, seg: u8, on: bool)
        ensures
            final(self).segments() == (if on {
                old(self).segments().insert((com, seg))
            } else {
                old(self).segments().remove((com, seg))
            }),
            final(self).effects() == old(self).effects(),
    ;
}

/// `after` agrees with `before` on every glass segment that does not belong
/// to display element `element` (see [`owner`]).
pub open spec fn same_outside(before: Set<(u8, u8)>, after: Set<(u8, u8)>, element: int) -> bool {
    forall|c: (u8, u8)|
        #![trigger before.contains(c)]
        #![trigger after.contains(c)]
        owner(c) != element ==> (after.contains(c) == before.contains(c))
}

/// Glass segment `c` belongs to the 7-segment row of digit position `pos`.
pub open spec fn in_font(pos: int, c: (u8, u8)) -> bool {
    exists|i: int| 0 <= i < 7 && cell_exists(pos, i) && #[trigger] cell(pos, i) == c
}

/// `after` agrees with `before` on every glass segment outside the
/// 7-segment row of digit position `pos`.
pub open spec fn font_frame(before: Set<(u8, u8)>, after: Set<(u8, u8)>, pos: int) -> bool {
    forall|c: (u8, u8)|
        #![trigger before.contains(c)]
        #![trigger after.contains(c)]
        !in_font(pos, c) ==> (after.contains(c) == before.contains(c))
}

/// `after` agrees with `before` on every glass segment whose display
/// element (see [`owner`]) is not in `drawn`.
pub open spec fn same_except(before: Set<(u8, u8)>, after: Set<(u8, u8)>, drawn: Set<int>) -> bool {
    forall|c: (u8, u8)|
        #![trigger before.contains(c)]
        #![trigger after.contains(c)]
        !drawn.contains(owner(c)) ==> (after.contains(c) == before.contains(c))
}

/// Positions `pos` and `pos + 1` show the two decimal digits of `value`.
pub open spec fn shows_pair(lit: Set<(u8, u8)>, pos: int, value: int) -> bool {
    shows_digit(lit, pos, value / 10) && shows_digit(lit, pos + 1, value % 10)
}

/// Positions `pos` and `pos + 1` are blank.
pub open spec fn pair_blank(lit: Set<(u8, u8)>, pos: int) -> bool {
    blank(lit, pos) && blank(lit, pos + 1)
}

/// Positions `pos` and `pos + 1` show `value` without a leading zero.
pub open spec fn shows_unpadded(lit: Set<(u8, u8)>, pos: int, value: int) -> bool {
    &&& (if value >= 10 {
        shows_digit(lit, pos, value / 10)
    } else {
        blank(lit, pos)
    })
    &&& shows_digit(lit, pos + 1, value % 10)
}

/// The letter positions show the two characters `chars`.
pub open spec fn shows_chars(lit: Set<(u8, u8)>, chars: [u8; 2]) -> bool {
    shows_char(lit, 0, chars[0]) && shows_char(lit, 1, chars[1])
}

/// Letter position `pos` shows the segment mask `mask` (see
/// [`crate::letters`]).
pub open spec fn shows_letter_mask(lit: Set<(u8, u8)>, pos: int, mask: u8) -> bool {
    forall|i: int|
        0 <= i < 8 && letter_cell_exists(pos, i) ==> (lit.contains(#[trigger] letter_cell(pos, i))
            <==> mask_bit(mask, i))
}

/// Letter position `pos` (0 or 1) shows the character `ch`.
pub open spec fn shows_char(lit: Set<(u8, u8)>, pos: int, ch: u8) -> bool {
    printable(ch) && shows_letter_mask(lit, pos, glyph(ch, pos))
}

/// Every existing segment of a letter position is owned by that position.
pub proof fn lemma_letter_owners()
    ensures
        forall|pos: int, i: int|
            0 <= pos < 2 && 0 <= i < 8 && letter_cell_exists(pos, i) ==> owner(
                #[trigger] letter_cell(pos, i),
            ) == pos,
{
    assert forall|pos: int, i: int|
        0 <= pos < 2 && 0 <= i < 8 && letter_cell_exists(pos, i) implies owner(
        #[trigger] letter_cell(pos, i),
    ) == pos by {
        if pos == 0 {
        } else {
        }
    }
}

/// The letter segments of a position are pairwise distinct, so each bit of a
/// letter mask drives its own segment.
pub proof fn lemma_letter_cells_distinct()
    ensures
        forall|pos: int, i: int, j: int|
            0 <= pos < 2 && 0 <= i < 8 && 0 <= j < 8 && i != j && letter_cell_exists(pos, i)
                && letter_cell_exists(pos, j) ==> #[trigger] letter_cell(pos, i) != #[trigger] letter_cell(
                pos,
                j,
            ),
{
    assert forall|pos: int, i: int, j: int|
        0 <= pos < 2 && 0 <= i < 8 && 0 <= j < 8 && i != j && letter_cell_exists(pos, i)
            && letter_cell_exists(pos, j) implies #[trigger] letter_cell(pos, i) != #[trigger] letter_cell(
        pos,
        j,
    ) by {
        if pos == 0 {
            if i == 0 {
            } else if i == 1 {
            } else if i == 2 {
            } else if i == 3 {
            } else if i == 4 {
            } else if i == 5 {
            } else if i == 6 {
            } else {
            }
        } else {
        }
    }
}

/// Drawing helpers available for any [`Display`].
pub trait DigitDisplay: Display {
    /// Draw a digit (0-9) at one of the 10 7-segment positions.
    ///
    /// Position layout: 0-1=weekday letters, 2-3=day, 4-5=hours,
    /// 6-7=minutes, 8-9=seconds. Anything else is ignored.
    fn set_digit(&mut self, position: u8, digit: u8)
        ensures
            position < 10 && digit <= 9 ==> shows_digit(final(self).segments(), position as int, digit as int),
            position < 10 && digit <= 9 ==> same_outside(old(self).segments(), final(self).segments(), position as int),
            position < 10 ==> font_frame(old(self).segments(), final(self).segments(), position as int),
            !(position < 10 && digit <= 9) ==> final(self).segments() == old(self).segments(),
            final(self).effects() == old(self).effects(),
    ;

    /// Draw a character at a weekday (mode) digit, positions 0 or 1. Accepts
    /// any ASCII `' '` .. `'~'`; which segments light is defined per
    /// character in [`crate::letters`]. Anything else is ignored.
    fn set_char(&mut self, position: u8, ch: u8)
        ensures
            position <= 1 && printable(ch) ==> shows_char(final(self).segments(), position as int, ch),
            position <= 1 && printable(ch) ==> same_outside(old(self).segments(), final(self).segments(), position as int),
            !(position <= 1 && printable(ch)) ==> final(self).segments() == old(self).segments(),
            final(self).effects() == old(self).effects(),
    ;

    /// Turn off every segment of a digit position.
    fn clear_digit(&mut self, position: u8)
        ensures
            position < 10 ==> blank(final(self).segments(), position as int),
            position < 10 ==> same_outside(old(self).segments(), final(self).segments(), position as int),
            position < 10 ==> font_frame(old(self).segments(), final(self).segments(), position as int),
            position >= 10 ==> final(self).segments() == old(self).segments(),
            final(self).effects() == old(self).effects(),
    ;

    /// Clear a weekday (mode) digit, including its extra segments.
    fn clear_char(&mut self, position: u8)
        ensures
            position <= 1 ==> shows_letter_mask(final(self).segments(), position as int, 0),
            position <= 1 ==> same_outside(old(self).segments(), final(self).segments(), position as int),
            position > 1 ==> final(self).segments() == old(self).segments(),
            final(self).effects() == old(self).effects(),
    ;

    /// Turn an indicator segment on or off.
    fn set_indicator(&mut self, indicator: Indicator, on: bool)
        ensures
            final(self).segments() == (if on {
                old(self).segments().insert(indicator.cell())
            } else {
                old(self).segments().remove(indicator.cell())
            }),
            final(self).effects() == old(self).effects(),
    ;
}

impl<T: Display + ?Sized> DigitDisplay for T {
    fn set_digit(&mut self, position: u8, digit: u8) {
        let pos = position as usize;
        if pos >= 10 || digit > 9 {
            return;
        }
        proof {
            lemma_font_owners();
        }
        let segs = DIGIT_SEGS[digit as usize];
        let ghost start = self.segments();
        // First switch off the segments the digit does not use, then switch
        // on the ones it does: a wire shared by two segments ends up lit if
        // either of them is.
        let mut i: usize = 0;
        while i < 7
            invariant
                pos < 10,
                i <= 7,
                same_outside(start, self.segments(), pos as int),
                font_frame(start, self.segments(), pos as int),
                forall|j: int|
                    0 <= j < i && cell_exists(pos as int, j) && !mask_bit(segs, j) ==> !self.segments().contains(
                        #[trigger] cell(pos as int, j),
                    ),
                self.effects() == old(self).effects(),
            decreases 7 - i,
        {
            let on = segs & (1u8 << (i as u8)) != 0;
            let com = FONT[pos][i][0];
            let seg = FONT[pos][i][1];
            if !on && com >= 0 && seg >= 0 {
                assert(in_font(pos as int, cell(pos as int, i as int)));
                self.set_segment(com as u8, seg as u8, false);
            }
            i += 1;
        }
        let ghost mid = self.segments();
        let mut i: usize = 0;
        while i < 7
            invariant
                pos < 10,
                i <= 7,
                segs == DIGIT_SEGS[digit as int],
                same_outside(start, self.segments(), pos as int),
                font_frame(start, self.segments(), pos as int),
                forall|j: int|
                    0 <= j < 7 && cell_exists(pos as int, j) && !mask_bit(segs, j) ==> !mid.contains(
                        #[trigger] cell(pos as int, j),
                    ),
                forall|j: int|
                    0 <= j < i && cell_exists(pos as int, j) && mask_bit(segs, j) ==> self.segments().contains(
                        #[trigger] cell(pos as int, j),
                    ),
                forall|c: (u8, u8)|
                    !lit_by(pos as int, segs, c) ==> (#[trigger] self.segments().contains(c) == mid.contains(c)),
                self.effects() == old(self).effects(),
            decreases 7 - i,
        {
            let on = segs & (1u8 << (i as u8)) != 0;
            let com = FONT[pos][i][0];
            let seg = FONT[pos][i][1];
            if on && com >= 0 && seg >= 0 {
                assert(lit_by(pos as int, segs, cell(pos as int, i as int)));
                assert(in_font(pos as int, cell(pos as int, i as int)));
                self.set_segment(com as u8, seg as u8, true);
            }
            i += 1;
        }
        assert(shows_mask(self.segments(), pos as int, segs));
    }

    fn clear_digit(&mut self, position: u8) {
        let pos = position as usize;
        if pos >= 10 {
            return;
        }
        proof {
            lemma_font_owners();
        }
        let ghost start = self.segments();
        let mut i: usize = 0;
        while i < 7
            invariant
                pos < 10,
                i <= 7,
                same_outside(start, self.segments(), pos as int),
                font_frame(start, self.segments(), pos as int),
                forall|j: int|
                    0 <= j < i && cell_exists(pos as int, j) ==> !self.segments().contains(
                        #[trigger] cell(pos as int, j),
                    ),
                self.effects() == old(self).effects(),
            decreases 7 - i,
        {
            let com = FONT[pos][i][0];
            let seg = FONT[pos][i][1];
            if com >= 0 && seg >= 0 {
                assert(in_font(pos as int, cell(pos as int, i as int)));
                self.set_segment(com as u8, seg as u8, false);
            }
            i += 1;
        }
        assert(shows_mask(self.segments(), pos as int, 0)) by {
            assert forall|j: int| 0 <= j < 7 implies !mask_bit(0u8, j) by {
                let k = j as u8;
                assert(0u8 & (1u8 << k) == 0u8) by (bit_vector);
            }
        }
    }

    fn set_char(&mut self, position: u8, ch: u8) {
        let pos = position as usize;
        if pos > 1 || ch < 32 || ch > 126 {
            return;
        }
        proof {
            lemma_letter_owners();
            lemma_letter_cells_distinct();
        }
        let mask = LETTER_SEGS[(ch - 32) as usize][pos];
        let ghost start = self.segments();
        // Clear every segment of this weekday digit, then draw the ones the
        // character definition says to light.
        let mut i: usize = 0;
        while i < 8
            invariant
                pos <= 1,
                i <= 8,
                same_outside(start, self.segments(), pos as int),
                forall|j: int|
                    0 <= j < i && letter_cell_exists(pos as int, j) ==> !self.segments().contains(
                        #[trigger] letter_cell(pos as int, j),
                    ),
                self.effects() == old(self).effects(),
            decreases 8 - i,
        {
            let com = LETTER_POS_SEGS[pos][i][0];
            let seg = LETTER_POS_SEGS[pos][i][1];
            if com >= 0 && seg >= 0 {
                self.set_segment(com as u8, seg as u8, false);
            }
            i += 1;
        }
        let mut i: usize = 0;
        while i < 8
            invariant
                pos <= 1,
                i <= 8,
                mask == glyph(ch, pos as int),
                same_outside(start, self.segments(), pos as int),
                forall|j: int|
                    0 <= j < 8 && letter_cell_exists(pos as int, j) ==> (self.segments().contains(
                        #[trigger] letter_cell(pos as int, j),
                    ) <==> (j < i && mask_bit(mask, j))),
                self.effects() == old(self).effects(),
            decreases 8 - i,
        {
            let on = mask & (1u8 << (i as u8)) != 0;
            let com = LETTER_POS_SEGS[pos][i][0];
            let seg = LETTER_POS_SEGS[pos][i][1];
            if on && com >= 0 && seg >= 0 {
                self.set_segment(com as u8, seg as u8, true);
            }
            i += 1;
        }
    }

    fn clear_char(&mut self, position: u8) {
        let pos = position as usize;
        if pos > 1 {
            return;
        }
        proof {
            lemma_letter_owners();
        }
        let ghost start = self.segments();
        let mut i: usize = 0;
        while i < 8
            invariant
                pos <= 1,
                i <= 8,
                same_outside(start, self.segments(), pos as int),
                forall|j: int|
                    0 <= j < i && letter_cell_exists(pos as int, j) ==> !self.segments().contains(
                        #[trigger] letter_cell(pos as int, j),
                    ),
                self.effects() == old(self).effects(),
            decreases 8 - i,
        {
            let com = LETTER_POS_SEGS[pos][i][0];
            let seg = LETTER_POS_SEGS[pos][i][1];
            if com >= 0 && seg >= 0 {
                self.set_segment(com as u8, seg as u8, false);
            }
            i += 1;
        }
        assert forall|j: int| 0 <= j < 8 implies !mask_bit(0u8, j) by {
            let k = j as u8;
            assert(0u8 & (1u8 << k) == 0u8) by (bit_vector);
        }
    }

    fn set_indicator(&mut self, indicator: Indicator, on: bool) {
        let i = indicator.index();
        self.set_segment(INDICATORS[i][0], INDICATORS[i][1], on);
    }
}

/// The segment (0 = A .. 6 = G) that glass segment `c` is for the digit
/// position 2-9 that owns it.
pub open spec fn font_index(c: (u8, u8)) -> int {
    let (com, seg) = c;
    if seg == 0 {
        if com == 0 { 3 } else if com == 1 { 4 } else { 5 }
    } else if seg == 1 {
        if com == 0 { 2 } else if com == 1 { 6 } else { 0 }
    } else if seg == 2 {
        if com == 0 { 4 } else if com == 1 { 5 } else { 0 }
    } else if seg == 3 {
        if com == 0 { 3 } else if com == 1 { 6 } else { 1 }
    } else if seg == 4 {
        if com == 0 { 2 } else if com == 1 { 5 } else { 0 }
    } else if seg == 5 {
        if com == 0 { 4 } else if com == 1 { 6 } else { 1 }
    } else if seg == 6 {
        if com == 1 { 2 } else { 3 }
    } else if seg == 7 {
        if com == 0 { 0 } else if com == 1 { 1 } else { 2 }
    } else if seg == 8 {
        if com == 0 { 5 } else if com == 1 { 6 } else { 4 }
    } else if seg == 9 {
        if com == 0 { 1 } else if com == 1 { 0 } else { 2 }
    } else if seg == 10 {
        if com == 0 { 4 } else { 1 }
    } else if seg == 17 {
        5
    } else if seg == 18 {
        if com == 0 { 4 } else if com == 1 { 0 } else { 5 }
    } else if seg == 19 {
        if com == 0 { 2 } else if com == 1 { 6 } else { 1 }
    } else if seg == 20 {
        if com == 0 { 4 } else if com == 1 { 6 } else { 0 }
    } else if seg == 21 {
        if com == 0 { 3 } else if com == 1 { 2 } else { 1 }
    } else if seg == 22 {
        if com == 0 { 0 } else if com == 1 { 4 } else { 5 }
    } else {
        if com == 0 { 2 } else if com == 1 { 6 } else { 1 }
    }
}

/// Every glass segment owned by a digit position 2-9 is one of that
/// position's segments.
proof fn lemma_owned_digit_cells(c: (u8, u8))
    requires
        2 <= owner(c) <= 9,
    ensures
        0 <= font_index(c) < 7,
        cell_exists(owner(c), font_index(c)),
        cell(owner(c), font_index(c)) == c,
{
}

/// The bit of the letter mask that glass segment `c` is for the letter
/// position that owns it.
pub open spec fn letter_index(c: (u8, u8)) -> int {
    let (com, seg) = c;
    if seg == 13 {
        com as int
    } else if seg == 14 {
        if com == 0 { 5 } else if com == 1 { 7 } else { 4 }
    } else if seg == 15 {
        if com == 1 { 6 } else { 3 }
    } else if seg == 11 {
        com as int
    } else {
        if com == 0 { 5 } else if com == 1 { 3 } else { 4 }
    }
}

/// Every glass segment owned by a letter position is one of that position's
/// segments.
proof fn lemma_owned_letter_cells(c: (u8, u8))
    requires
        0 <= owner(c) <= 1,
    ensures
        0 <= letter_index(c) < 8,
        letter_cell_exists(owner(c), letter_index(c)),
        letter_cell(owner(c), letter_index(c)) == c,
{
}

/// Redrawing is idempotent: drawing a digit position 2-9 with the digit it
/// already shows ([`DigitDisplay::set_digit`]'s outcome, over a glass that
/// shows it) leaves the whole glass as it was.
pub proof fn lemma_redraw_digit(before: Set<(u8, u8)>, after: Set<(u8, u8)>, pos: int, d: int)
    requires
        2 <= pos < 10,
        shows_digit(before, pos, d),
        shows_digit(after, pos, d),
        same_outside(before, after, pos),
    ensures
        after == before,
{
    assert forall|c: (u8, u8)| after.contains(c) == before.contains(c) by {
        if owner(c) == pos {
            lemma_owned_digit_cells(c);
            let i = font_index(c);
            assert(cell_shows(before, pos, DIGIT_SEGS[d], i));
            assert(cell_shows(after, pos, DIGIT_SEGS[d], i));
        }
    }
    assert(after =~= before);
}

/// Redrawing is idempotent: drawing a letter position with the character it
/// already shows ([`DigitDisplay::set_char`]'s outcome, over a glass that
/// shows it) leaves the whole glass as it was.
pub proof fn lemma_redraw_char(before: Set<(u8, u8)>, after: Set<(u8, u8)>, pos: int, ch: u8)
    requires
        0 <= pos <= 1,
        shows_char(before, pos, ch),
        shows_char(after, pos, ch),
        same_outside(before, after, pos),
    ensures
        after == before,
{
    assert forall|c: (u8, u8)| after.contains(c) == before.contains(c) by {
        if owner(c) == pos {
            lemma_owned_letter_cells(c);
            let i = letter_index(c);
            assert(letter_cell(pos, i) == c);
        }
    }
    assert(after =~= before);
}

} // verus!
