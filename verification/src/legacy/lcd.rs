//! High-level LCD helpers:
//! printing integers and text onto the F-91W glass.
//!
//! Positions 0-7 are the seven-segment digits; positions 8-9 are the two
//! weekday/mode letters. Text on the digit positions uses the pluto "normal"
//! 7-segment map (letters `a-z` drawn as their 7-segment approximations).
use vstd::prelude::*;

use crate::legacy::display::{
    digit_image, draw_mask, letter_clears, letter_image, set_cell, DigitDisplay, Display, Indicator, DIGIT_SEGS,
};
use crate::letters::glyph;

verus! {

/// Character -> segment mask for the digit positions. Index: `'0'-'9'` = 0-9, `'a'-'z'` = 10-35, `'-'` = 36,
/// `'/'` = 37. Bit 0 = A ... bit 6 = G.
pub const NORMAL_MAP: [u8; 38] = [
    0x3f, 0x06, 0x5b, 0x4f, 0x66, 0x6d, 0x7d, 0x07, 0x7f, 0x6f, // 0-9
    0x77, 0x7c, 0x58, 0x5e, 0x79, 0x71, 0x3d, 0x74, 0x10, 0x1e, // a-j
    0x72, 0x38, 0x37, 0x54, 0x5c, 0x73, 0x67, 0x50, 0x6d, 0x78, // k-t
    0x1c, 0x3c, 0x3e, 0x56, 0x6e, 0x5b,                         // u-z
    0x40, 0x52, // '-' '/'
];

/// The index of character `c` in [`NORMAL_MAP`] (0 for anything unknown;
/// upper-case letters draw as lower-case ones).
pub open spec fn spec_normal_index(c: u8) -> int {
    if 48 <= c <= 57 {
        c - 48
    } else if 97 <= c <= 122 {
        10 + c - 97
    } else if 65 <= c <= 90 {
        10 + c - 65
    } else if c == 45 {
        36
    } else if c == 47 {
        37
    } else {
        0
    }
}

/// Map a character to its index in [`NORMAL_MAP`] (0 for anything unknown).
fn normal_index(c: u8) -> (i: usize)
    ensures
        i == spec_normal_index(c),
{
    if 48 <= c && c <= 57 {
        (c - 48) as usize
    } else if 97 <= c && c <= 122 {
        10 + (c - 97) as usize
    } else if 65 <= c && c <= 90 {
        10 + (c - 65) as usize
    } else if c == 45 {
        36
    } else if c == 47 {
        37
    } else {
        0
    }
}

/// The glass after [`DigitDisplay::set_digit`] drew `digit` at `pos`.
pub open spec fn set_digit_image(lit: Set<(u8, u8)>, pos: int, digit: int) -> Set<(u8, u8)> {
    if pos < 8 && 0 <= digit <= 9 {
        digit_image(lit, pos, DIGIT_SEGS[digit])
    } else {
        lit
    }
}

/// The glass after drawing one digit of a number at `pos`: 0-9 as
/// [`DigitDisplay::set_digit`] draws them, the hexadecimal digits 10-15 with
/// the `a`-`f` glyphs of [`NORMAL_MAP`] (on the digit positions 0-7 only).
pub open spec fn number_digit_image(lit: Set<(u8, u8)>, pos: int, digit: int) -> Set<(u8, u8)> {
    if digit <= 9 {
        set_digit_image(lit, pos, digit)
    } else if 0 <= pos < 8 && digit < 16 {
        digit_image(lit, pos, NORMAL_MAP[digit])
    } else {
        lit
    }
}

/// The glass after drawing the `len` lowest digits of `value` in `base`
/// (10 or 16, see [`number_digit_image`]), the lowest at
/// position `dig` and each further one a position to the left (positions
/// count modulo 256 and only 0-7 exist).
pub open spec fn number_image(lit: Set<(u8, u8)>, dig: int, len: nat, value: nat, base: nat) -> Set<(u8, u8)>
    decreases len,
{
    if len == 0 || base == 0 {
        lit
    } else {
        number_image(
            number_digit_image(lit, dig, (value % base) as int),
            (dig + 255) % 256,
            (len - 1) as nat,
            value / base,
            base,
        )
    }
}

/// The position of the last digit of a `len`-digit number starting at `dig`
/// (positions stop at 255).
pub open spec fn last_position(dig: u8, len: u8) -> int {
    let end = dig + if len > 0 { len - 1 } else { 0 };
    if end > 255 {
        255
    } else {
        end
    }
}

/// The letter position (0 or 1) that drawing at position `dig` (8 or 9)
/// uses.
pub open spec fn letter_pos(dig: int) -> int {
    if dig < 8 {
        0
    } else {
        dig - 8
    }
}

/// The glass after [`Lcd::putc`] drew `c` at position `dig`.
pub open spec fn char_image(lit: Set<(u8, u8)>, dig: int, c: u8) -> Set<(u8, u8)> {
    if c == 32 {
        if dig >= 8 {
            if dig <= 9 {
                letter_clears(lit, letter_pos(dig), 8)
            } else {
                lit
            }
        } else {
            digit_image(lit, dig, 0)
        }
    } else if dig >= 8 {
        if dig <= 9 && 32 <= c <= 126 {
            letter_image(lit, letter_pos(dig), glyph(c, letter_pos(dig)))
        } else {
            lit
        }
    } else {
        digit_image(lit, dig, NORMAL_MAP[spec_normal_index(c)])
    }
}

/// The glass after [`Lcd::puts`] drew `s` from position `dig` on (positions
/// count modulo 256).
pub open spec fn text_image(lit: Set<(u8, u8)>, dig: int, s: Seq<u8>) -> Set<(u8, u8)>
    decreases s.len(),
{
    if s.len() == 0 {
        lit
    } else {
        text_image(char_image(lit, dig, s[0]), (dig + 1) % 256, s.drop_first())
    }
}

/// A borrowed view of a [`Display`] with the pluto drawing helpers.
pub struct Lcd<'a, D: Display> {
    pub d: &'a mut D,
}

impl<'a, D: Display> Lcd<'a, D> {
    pub fn new(d: &'a mut D) -> (l: Self)
        ensures
            *l.d == *old(d),
            *final(d) == *final(l.d),
    {
        Lcd { d }
    }

    /// Turn every segment off.
    pub fn clear(&mut self)
        ensures
            final(self).d.segments() == Set::<(u8, u8)>::empty(),
            final(self).d.effects() == old(self).d.effects(),
            *final(final(self).d) == *final(old(self).d),
    {
        self.d.clear_all();
    }

    /// Draw an integer `value` as `len` digits ending at position
    /// `dig + len - 1`, right aligned and zero-padded.
    pub fn puti(&mut self, dig: u8, len: u8, value: u32)
        ensures
            final(self).d.segments() == number_image(
                old(self).d.segments(),
                last_position(dig, len),
                len as nat,
                value as nat,
                10,
            ),
            final(self).d.effects() == old(self).d.effects(),
            *final(final(self).d) == *final(old(self).d),
    {
        self.put_number(dig, len, value, 10);
    }

    /// Like [`Lcd::puti`] but hexadecimal: the digits 10-15 show as the
    /// `a`-`f` glyphs of [`NORMAL_MAP`].
    pub fn putix(&mut self, dig: u8, len: u8, value: u32)
        ensures
            final(self).d.segments() == number_image(
                old(self).d.segments(),
                last_position(dig, len),
                len as nat,
                value as nat,
                16,
            ),
            final(self).d.effects() == old(self).d.effects(),
            *final(final(self).d) == *final(old(self).d),
    {
        self.put_number(dig, len, value, 16);
    }

    fn put_number(&mut self, dig: u8, len: u8, value: u32, base: u32)
        requires
            base == 10 || base == 16,
        ensures
            final(self).d.segments() == number_image(
                old(self).d.segments(),
                last_position(dig, len),
                len as nat,
                value as nat,
                base as nat,
            ),
            final(self).d.effects() == old(self).d.effects(),
            *final(final(self).d) == *final(old(self).d),
    {
        let mut value = value;
        let mut dig = dig.saturating_add(len.saturating_sub(1));
        let mut len = len;
        let ghost goal = number_image(old(self).d.segments(), dig as int, len as nat, value as nat, base as nat);
        while len > 0
            invariant
                base == 10 || base == 16,
                number_image(self.d.segments(), dig as int, len as nat, value as nat, base as nat) == goal,
                self.d.effects() == old(self).d.effects(),
                *final(self.d) == *final(old(self).d),
            decreases len,
        {
            let digit = (value % base) as u8;
            if digit > 9 && dig < 8 {
                draw_mask(self.d, dig as usize, NORMAL_MAP[digit as usize]);
            } else {
                self.d.set_digit(dig, digit);
            }
            value /= base;
            len -= 1;
            dig = dig.wrapping_sub(1);
        }
    }

    /// Draw a single character at `dig`: digits/letters on the 7-segment
    /// positions (0-7) via [`NORMAL_MAP`], letters on the two letter
    /// positions (8-9). A space turns every segment of the position off
    /// (used to blank unused digits).
    pub fn putc(&mut self, dig: u8, c: u8)
        ensures
            final(self).d.segments() == char_image(old(self).d.segments(), dig as int, c),
            final(self).d.effects() == old(self).d.effects(),
            *final(final(self).d) == *final(old(self).d),
    {
        if c == 32 {
            if dig >= 8 {
                self.d.clear_char(dig);
            } else {
                self.d.clear_digit(dig);
            }
            return;
        }
        if dig >= 8 {
            self.d.set_char(dig, c);
            return;
        }
        let segs = NORMAL_MAP[normal_index(c)];
        draw_mask(self.d, dig as usize, segs);
    }

    /// Draw a string starting at `dig`; positions past 255 wrap around to 0.
    pub fn puts(&mut self, dig: u8, s: &[u8])
        ensures
            final(self).d.segments() == text_image(old(self).d.segments(), dig as int, s@),
            final(self).d.effects() == old(self).d.effects(),
            *final(final(self).d) == *final(old(self).d),
    {
        let mut i: usize = 0;
        assert(s@.skip(0) =~= s@);
        while i < s.len()
            invariant
                i <= s@.len(),
                text_image(self.d.segments(), (dig + i) % 256, s@.skip(i as int)) == text_image(
                    old(self).d.segments(),
                    dig as int,
                    s@,
                ),
                self.d.effects() == old(self).d.effects(),
                *final(self.d) == *final(old(self).d),
            decreases s@.len() - i,
        {
            assert(s@.skip(i as int).drop_first() =~= s@.skip(i as int + 1));
            assert(s@.skip(i as int)[0] == s@[i as int]);
            let pos = dig.wrapping_add(i as u8);
            assert(pos == (dig + i) % 256) by {
                assert((i as u8) == i % 256) by (bit_vector);
            }
            self.putc(pos, s[i]);
            assert((pos + 1) % 256 == (dig + i + 1) % 256);
            i += 1;
        }
        assert(s@.skip(i as int) =~= Seq::<u8>::empty());
    }

    /// Turn an indicator on or off.
    pub fn indicator(&mut self, ind: Indicator, on: bool)
        ensures
            final(self).d.segments() == set_cell(old(self).d.segments(), ind.cell(), on),
            final(self).d.effects() == old(self).d.effects(),
            *final(final(self).d) == *final(old(self).d),
    {
        self.d.set_indicator(ind, on);
    }
}

} // verus!
