//! The F-91W 7-segment font in glass coordinates.
//!
//! For each of the 10 digit positions the table gives the seven segments
//! `A..G` as `(com, seg)` glass coordinates. `(-1, -1)` means the segment does
//! not exist for that position (the F-91W shares some segments between
//! neighbouring digits).
//!
//! Positions: 0-1 = weekday letters (SU, MO, TU, ...), 2-3 = day of month,
//! 4-5 = hours, 6-7 = minutes, 8-9 = seconds.
//!
//! The weekday letters (positions 0-1) are *not* drawn from this table: which
//! segments light per character is defined in [`crate::letters`].
use vstd::prelude::*;

verus! {

pub const FONT: [[[i8; 2]; 7]; 10] = [
    /* pos 0 */ [[0, 13], [1, 13], [2, 13], [2, 15], [2, 14], [0, 14], [1, 15]],
    /* pos 1 */ [[0, 11], [1, 11], [1, 11], [2, 11], [1, 12], [1, 12], [2, 12]],
    /* pos 2 */ [[1, 9], [0, 9], [2, 9], [1, 9], [0, 10], [-1, -1], [1, 9]],
    /* pos 3 */ [[0, 7], [1, 7], [2, 7], [2, 6], [2, 8], [0, 8], [1, 8]],
    /* pos 4 */ [[1, 18], [2, 19], [0, 19], [1, 18], [0, 18], [2, 18], [1, 19]],
    /* pos 5 */ [[2, 20], [2, 21], [1, 21], [0, 21], [0, 20], [1, 17], [1, 20]],
    /* pos 6 */ [[0, 22], [2, 23], [0, 23], [0, 22], [1, 22], [2, 22], [1, 23]],
    /* pos 7 */ [[2, 1], [2, 10], [0, 1], [0, 0], [1, 0], [2, 0], [1, 1]],
    /* pos 8 */ [[2, 2], [2, 3], [0, 4], [0, 3], [0, 2], [1, 2], [1, 3]],
    /* pos 9 */ [[2, 4], [2, 5], [1, 6], [0, 6], [0, 5], [1, 4], [1, 5]],
];

/// Which of the seven segments A..G are lit for each digit, as a bitmask
/// (bit 0 = A ... bit 6 = G).
pub const DIGIT_SEGS: [u8; 10] = [0x3f, 0x06, 0x5b, 0x4f, 0x66, 0x6d, 0x7d, 0x07, 0x7f, 0x6f];

/// The five indicator segments.
#[derive(Clone, Copy, Debug, PartialEq, Eq, Structural)]
pub enum Indicator {
    Signal,
    Bell,
    Pm,
    H24,
    Lap,
}

/// Glass coordinates `(com, seg)` of the five indicators, in [`Indicator`]
/// order.
pub const INDICATORS: [[u8; 2]; 5] = [
    [0, 17], /* Signal */
    [0, 16], /* Bell   */
    [2, 17], /* PM     */
    [2, 16], /* 24H    */
    [1, 10], /* LAP    */
];

/// The colon between the hours and the minutes.
pub const COLON: (u8, u8) = (1, 16);

impl Indicator {
    /// Index of the indicator in [`INDICATORS`].
    pub open spec fn spec_index(self) -> int {
        match self {
            Indicator::Signal => 0,
            Indicator::Bell => 1,
            Indicator::Pm => 2,
            Indicator::H24 => 3,
            Indicator::Lap => 4,
        }
    }

    /// Index of the indicator in [`INDICATORS`].
    pub fn index(self) -> (i: usize)
        ensures
            i == self.spec_index(),
    {
        match self {
            Indicator::Signal => 0,
            Indicator::Bell => 1,
            Indicator::Pm => 2,
            Indicator::H24 => 3,
            Indicator::Lap => 4,
        }
    }

    /// The glass segment of the indicator.
    pub open spec fn cell(self) -> (u8, u8) {
        (INDICATORS[self.spec_index()][0], INDICATORS[self.spec_index()][1])
    }
}

/// Whether segment `i` (0 = A .. 6 = G) of digit position `pos` exists on the
/// glass.
pub open spec fn cell_exists(pos: int, i: int) -> bool {
    FONT[pos][i][0] >= 0 && FONT[pos][i][1] >= 0
}

/// The glass segment of segment `i` of digit position `pos`.
pub open spec fn cell(pos: int, i: int) -> (u8, u8) {
    (FONT[pos][i][0] as u8, FONT[pos][i][1] as u8)
}

/// Whether bit `i` of a 7-segment mask is set.
pub open spec fn mask_bit(mask: u8, i: int) -> bool {
    mask & (1u8 << (i as u8)) != 0
}

/// Whether the glass segment `c` of digit position `pos` is lit when the
/// position shows `mask`: some segment of the mask that is wired to `c` is
/// set (the glass shares a few wires between segments of one digit).
pub open spec fn lit_by(pos: int, mask: u8, c: (u8, u8)) -> bool {
    ||| cell_exists(pos, 0) && cell(pos, 0) == c && mask_bit(mask, 0)
    ||| cell_exists(pos, 1) && cell(pos, 1) == c && mask_bit(mask, 1)
    ||| cell_exists(pos, 2) && cell(pos, 2) == c && mask_bit(mask, 2)
    ||| cell_exists(pos, 3) && cell(pos, 3) == c && mask_bit(mask, 3)
    ||| cell_exists(pos, 4) && cell(pos, 4) == c && mask_bit(mask, 4)
    ||| cell_exists(pos, 5) && cell(pos, 5) == c && mask_bit(mask, 5)
    ||| cell_exists(pos, 6) && cell(pos, 6) == c && mask_bit(mask, 6)
}

/// Segment `i` of digit position `pos` agrees with `mask` in `lit`.
pub open spec fn cell_shows(lit: Set<(u8, u8)>, pos: int, mask: u8, i: int) -> bool {
    cell_exists(pos, i) ==> (lit.contains(cell(pos, i)) <==> lit_by(pos, mask, cell(pos, i)))
}

/// Digit position `pos` shows the 7-segment pattern `mask` in the set `lit`
/// of lit glass segments.
pub open spec fn shows_mask(lit: Set<(u8, u8)>, pos: int, mask: u8) -> bool {
    &&& cell_shows(lit, pos, mask, 0)
    &&& cell_shows(lit, pos, mask, 1)
    &&& cell_shows(lit, pos, mask, 2)
    &&& cell_shows(lit, pos, mask, 3)
    &&& cell_shows(lit, pos, mask, 4)
    &&& cell_shows(lit, pos, mask, 5)
    &&& cell_shows(lit, pos, mask, 6)
}

/// Digit position `pos` shows the decimal digit `d`.
pub open spec fn shows_digit(lit: Set<(u8, u8)>, pos: int, d: int) -> bool {
    0 <= d <= 9 && shows_mask(lit, pos, DIGIT_SEGS[d])
}

/// Digit position `pos` is blank.
pub open spec fn blank(lit: Set<(u8, u8)>, pos: int) -> bool {
    shows_mask(lit, pos, 0)
}

/// The indicator is lit in `lit` exactly when `on`.
pub open spec fn shows_indicator(lit: Set<(u8, u8)>, ind: Indicator, on: bool) -> bool {
    lit.contains(ind.cell()) == on
}

/// Which display element a glass segment belongs to: digit positions 0-9
/// (the two letter positions own their extra segments too), 20 + the
/// indicator index for an indicator, 30 for the colon, -1 for an unused
/// segment. Every segment belongs to exactly one element, which is what lets
/// a drawing operation leave all other elements as they were.
pub open spec fn owner(c: (u8, u8)) -> int {
    let (com, seg) = c;
    if com > 2 || seg > 23 {
        -1
    } else if seg <= 1 {
        7
    } else if seg <= 3 {
        8
    } else if seg == 4 {
        if com == 0 { 8 } else { 9 }
    } else if seg == 5 {
        9
    } else if seg == 6 {
        if com == 2 { 3 } else { 9 }
    } else if seg <= 8 {
        3
    } else if seg == 9 {
        2
    } else if seg == 10 {
        if com == 0 { 2 } else if com == 1 { 24 } else { 7 }
    } else if seg == 11 {
        1
    } else if seg == 12 {
        1
    } else if seg == 13 || seg == 14 {
        0
    } else if seg == 15 {
        if com == 0 { -1 } else { 0 }
    } else if seg == 16 {
        if com == 0 { 21 } else if com == 1 { 30 } else { 23 }
    } else if seg == 17 {
        if com == 0 { 20 } else if com == 1 { 5 } else { 22 }
    } else if seg <= 19 {
        4
    } else if seg <= 21 {
        5
    } else {
        6
    }
}

/// Every existing segment of a digit position is owned by that position.
pub proof fn lemma_font_owners()
    ensures
        forall|pos: int, i: int|
            0 <= pos < 10 && 0 <= i < 7 && cell_exists(pos, i) ==> owner(#[trigger] cell(pos, i)) == pos,
{
    assert forall|pos: int, i: int|
        0 <= pos < 10 && 0 <= i < 7 && cell_exists(pos, i) implies owner(#[trigger] cell(pos, i)) == pos by {
        if pos == 0 {
        } else if pos == 1 {
        } else if pos == 2 {
        } else if pos == 3 {
        } else if pos == 4 {
        } else if pos == 5 {
        } else if pos == 6 {
        } else if pos == 7 {
        } else if pos == 8 {
        } else {
        }
    }
}

/// Each indicator owns its segment.
pub proof fn lemma_indicator_owners()
    ensures
        forall|ind: Indicator| owner(#[trigger] ind.cell()) == 20 + ind.spec_index(),
        owner(COLON) == 30,
{
}

} // verus!
