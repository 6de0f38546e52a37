//! Single-bit updates of register bytes.
use vstd::prelude::*;

verus! {

/// `v` with bit `bit` set (`on`) or cleared.
pub open spec fn with_bit(v: u8, bit: u8, on: bool) -> u8 {
    if on {
        v | (1u8 << bit)
    } else {
        v & !(1u8 << bit)
    }
}

/// Set (`on`) or clear bit `bit` (0-7) of `v`; the other bits keep their
/// value.
pub fn set_bit(v: u8, bit: u8, on: bool) -> (r: u8)
    requires
        bit < 8,
    ensures
        r == with_bit(v, bit, on),
        (r >> bit) & 1 == (if on { 1u8 } else { 0u8 }),
        forall|i: u8| i < 8 && i != bit ==> (#[trigger] (r >> i) & 1) == (v >> i) & 1,
{
    let r = if on {
        v | (1u8 << bit)
    } else {
        v & !(1u8 << bit)
    };
    assert((r >> bit) & 1 == (if on { 1u8 } else { 0u8 })) by (bit_vector)
        requires
            bit < 8,
            r == (if on { v | (1u8 << bit) } else { v & !(1u8 << bit) }),
    ;
    assert forall|i: u8| i < 8 && i != bit implies (#[trigger] (r >> i) & 1) == (v >> i) & 1 by {
        assert((r >> i) & 1 == (v >> i) & 1) by (bit_vector)
            requires
                bit < 8,
                i < 8,
                i != bit,
                r == (if on { v | (1u8 << bit) } else { v & !(1u8 << bit) }),
        ;
    }
    r
}

} // verus!
