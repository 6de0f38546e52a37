//! Weekday-letter segment tables.
//!
//! The two weekday (mode) digits at the top left of the glass can show
//! letters. Each of them has a fixed set of glass segments
//! ([`LETTER_POS_SEGS`]): the seven 7-segment wires plus an extra one (the
//! centre vertical bar on the left digit, the "ninth" diagonal on the right
//! one; the right digit's B/C and E/F bars share a wire each). A character is
//! a bit mask over those segments, per position ([`LETTER_SEGS`], indexed by
//! `ch - b' '` for the printable ASCII range `' '..='~'`).
use vstd::prelude::*;

verus! {

/// The glass segments `(com, seg)` of the two letter positions, bit `i` of a
/// letter mask lights entry `i`. `(-1, -1)` marks an unused bit.
pub const LETTER_POS_SEGS: [[[i8; 2]; 8]; 2] = [
    /* left:  A        B        C        D        E        F        G        centre */
    [[0, 13], [1, 13], [2, 13], [2, 15], [2, 14], [0, 14], [1, 15], [1, 14]],
    /* right: A        B/C      D        E/F      G        ninth    unused    unused */
    [[0, 11], [1, 11], [2, 11], [1, 12], [2, 12], [0, 12], [-1, -1], [-1, -1]],
];

/// Segment masks of every printable ASCII character, `[left, right]`,
/// indexed by `ch - b' '`. Characters without a glyph are blank.
pub const LETTER_SEGS: [[u8; 2]; 95] = [
    [0x00, 0x00], // ' '
    [0x00, 0x00], // '!'
    [0x00, 0x00], // '"'
    [0x00, 0x00], // '#'
    [0x00, 0x00], // '$'
    [0x00, 0x00], // '%'
    [0x00, 0x00], // '&'
    [0x00, 0x00], // "'"
    [0x00, 0x00], // '('
    [0x00, 0x00], // ')'
    [0x00, 0x00], // '*'
    [0x00, 0x00], // '+'
    [0x00, 0x00], // ','
    [0x40, 0x10], // '-'
    [0x00, 0x00], // '.'
    [0x00, 0x00], // '/'
    [0x3f, 0x0f], // '0'
    [0x06, 0x02], // '1'
    [0x5b, 0x1f], // '2'
    [0x4f, 0x17], // '3'
    [0x66, 0x1a], // '4'
    [0x6d, 0x1f], // '5'
    [0x7d, 0x1f], // '6'
    [0x07, 0x03], // '7'
    [0x7f, 0x1f], // '8'
    [0x6f, 0x1f], // '9'
    [0x00, 0x00], // ':'
    [0x00, 0x00], // ';'
    [0x00, 0x00], // '<'
    [0x00, 0x00], // '='
    [0x00, 0x00], // '>'
    [0x00, 0x00], // '?'
    [0x00, 0x00], // '@'
    [0x77, 0x1b], // 'A'
    [0x7c, 0x1e], // 'B'
    [0x39, 0x0d], // 'C'
    [0x5e, 0x1e], // 'D'
    [0x79, 0x1d], // 'E'
    [0x71, 0x19], // 'F'
    [0x3d, 0x0f], // 'G'
    [0x76, 0x1a], // 'H'
    [0x80, 0x02], // 'I'
    [0x1e, 0x0e], // 'J'
    [0xf0, 0x18], // 'K'
    [0x38, 0x0c], // 'L'
    [0xb7, 0x0b], // 'M'
    [0x37, 0x0b], // 'N'
    [0x3f, 0x0f], // 'O'
    [0x73, 0x1b], // 'P'
    [0x67, 0x1b], // 'Q'
    [0xf3, 0x3b], // 'R'
    [0x6d, 0x1f], // 'S'
    [0x81, 0x01], // 'T'
    [0x3e, 0x0e], // 'U'
    [0x3e, 0x0e], // 'V'
    [0xbe, 0x0e], // 'W'
    [0x76, 0x1a], // 'X'
    [0x6e, 0x1e], // 'Y'
    [0x5b, 0x1f], // 'Z'
    [0x00, 0x00], // '['
    [0x00, 0x00], // '\\'
    [0x00, 0x00], // ']'
    [0x00, 0x00], // '^'
    [0x00, 0x00], // '_'
    [0x00, 0x00], // '`'
    [0x77, 0x1b], // 'a'
    [0x7c, 0x1e], // 'b'
    [0x39, 0x0d], // 'c'
    [0x5e, 0x1e], // 'd'
    [0x79, 0x1d], // 'e'
    [0x71, 0x19], // 'f'
    [0x3d, 0x0f], // 'g'
    [0x76, 0x1a], // 'h'
    [0x80, 0x02], // 'i'
    [0x1e, 0x0e], // 'j'
    [0xf0, 0x18], // 'k'
    [0x38, 0x0c], // 'l'
    [0xb7, 0x0b], // 'm'
    [0x37, 0x0b], // 'n'
    [0x3f, 0x0f], // 'o'
    [0x73, 0x1b], // 'p'
    [0x67, 0x1b], // 'q'
    [0xf3, 0x3b], // 'r'
    [0x6d, 0x1f], // 's'
    [0x81, 0x01], // 't'
    [0x3e, 0x0e], // 'u'
    [0x3e, 0x0e], // 'v'
    [0xbe, 0x0e], // 'w'
    [0x76, 0x1a], // 'x'
    [0x6e, 0x1e], // 'y'
    [0x5b, 0x1f], // 'z'
    [0x00, 0x00], // '{'
    [0x00, 0x00], // '|'
    [0x00, 0x00], // '}'
    [0x00, 0x00], // '~'
];

/// Whether bit `i` of letter position `pos` is wired to a glass segment.
pub open spec fn letter_cell_exists(pos: int, i: int) -> bool {
    LETTER_POS_SEGS[pos][i][0] >= 0 && LETTER_POS_SEGS[pos][i][1] >= 0
}

/// The glass segment of bit `i` of letter position `pos`.
pub open spec fn letter_cell(pos: int, i: int) -> (u8, u8) {
    (LETTER_POS_SEGS[pos][i][0] as u8, LETTER_POS_SEGS[pos][i][1] as u8)
}

/// The segment mask of character `ch` at letter position `pos`.
pub open spec fn glyph(ch: u8, pos: int) -> u8 {
    LETTER_SEGS[ch - 32][pos]
}

/// Whether `ch` is a character the letter positions can show.
pub open spec fn printable(ch: u8) -> bool {
    32 <= ch <= 126
}

} // verus!
