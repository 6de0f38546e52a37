use pluto::display::DigitDisplay;
use pluto::font::FONT;
use pluto::letters::LETTER_SEGS;
use pluto::recorder::Recorder;

/// The segments a character lights on a dark glass.
fn lit_by(ch: u8, position: u8) -> Vec<(u8, u8)> {
    let mut d = Recorder::new();
    DigitDisplay::set_char(&mut d, position, ch);
    d.lit_segments()
}

#[test]
fn letters_are_faithful() {
    println!("FONT[1]={:?}", FONT[1]);

    let on = lit_by(b'H', 1);
    println!("pos1 H => {:?}", on);
    // 'H' on the right digit: B/C share (1,11), E/F share (1,12), G = (2,12).
    // A(0,11) and D(2,11) must stay off.
    assert!(on.contains(&(1, 11)) && on.contains(&(1, 12)) && on.contains(&(2, 12)));
    assert!(!on.contains(&(0, 11)) && !on.contains(&(2, 11)));

    let on = lit_by(b'T', 0);
    println!("pos0 T => {:?}", on);
    // 'T' on the left digit: top (0,13) + the center vertical (1,14).
    assert!(on.contains(&(0, 13)) && on.contains(&(1, 14)));
    assert_eq!(on.len(), 2);

    let on = lit_by(b'R', 1);
    println!("pos1 R => {:?}", on);
    // 'R' on the right digit lights the ninth (0,12) but not D(2,11).
    assert!(on.contains(&(0, 11)) && on.contains(&(1, 11)) && on.contains(&(1, 12)) && on.contains(&(2, 12)));
    assert!(on.contains(&(0, 12)), "R must light the ninth (0,12)");
    assert!(!on.contains(&(2, 11)), "R must NOT light D(2,11)");
}

#[test]
fn letters_table_is_indexed_by_ascii() {
    // The table is indexed by (ch - 0x20) and covers every printable char.
    assert_eq!(LETTER_SEGS.len(), 95);
    assert_eq!(LETTER_SEGS[b'A' as usize - 0x20].len(), 2);
    assert_eq!(LETTER_SEGS[b' ' as usize - 0x20], [0, 0]);
}

#[test]
fn letters_outside_the_table_are_ignored() {
    // Only positions 0 and 1 are letters, and only printable ASCII draws.
    assert!(lit_by(b'A', 2).is_empty());
    assert!(lit_by(0x7f, 0).is_empty());
    assert!(lit_by(b' ', 0).is_empty());
}
