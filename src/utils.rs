use vstd::prelude::*;

verus! {

/// The value of bit `bit` of `value`.
pub open spec fn bit_of(value: u8, bit: u8) -> bool {
    (value >> bit) & 1u8 == 1u8
}

/// Reads a single bit of a byte.
pub fn get_bit(value: u8, bit: u8) -> (r: bool)
    requires
        bit < 8,
    ensures
        r == bit_of(value, bit),
{
    (value >> bit) & 1u8 == 1u8
}

/// Returns `value` with bit `bit` set to `set`, all other bits unchanged.
pub fn change_bit(value: u8, bit: u8, set: bool) -> (r: u8)
    requires
        bit < 8,
    ensures
        r == (if set { value | (1u8 << bit) } else { value & !(1u8 << bit) }),
        bit_of(r, bit) == set,
        forall|b: u8| b < 8 && b != bit ==> bit_of(r, b) == bit_of(value, b),
{
    let r = if set { value | (1u8 << bit) } else { value & !(1u8 << bit) };
    assert(bit_of(r, bit) == set && forall|b: u8| b < 8 && b != bit ==> bit_of(r, b) == bit_of(value, b)) by (bit_vector)
        requires
            bit < 8,
            r == (if set { value | (1u8 << bit) } else { value & !(1u8 << bit) }),
    ;
    r
}

} // verus!
