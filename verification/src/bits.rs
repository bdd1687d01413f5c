//! Bit fields of a 16-bit block.
use vstd::prelude::*;

verus! {

/// The `width` bits of `value` that start at bit `low`, as a number.
pub open spec fn bit_field(value: u16, low: u16, width: u16) -> u16 {
    (value >> low) & (((1u16 << width) - 1) as u16)
}

/// Whether bit `position` of `value` is set.
pub open spec fn bit_flag(value: u16, position: u16) -> bool {
    bit_field(value, position, 1) == 1
}

/// The largest number that fits in `width` bits, for the widths up to a byte.
pub open spec fn field_max(width: u16) -> int {
    if width == 1 {
        1
    } else if width == 2 {
        3
    } else if width == 3 {
        7
    } else if width == 4 {
        15
    } else if width == 5 {
        31
    } else if width == 6 {
        63
    } else if width == 7 {
        127
    } else {
        255
    }
}

/// The more significant byte of `v`.
pub open spec fn high_byte(v: u16) -> u8 {
    (v >> 8) as u8
}

/// The less significant byte of `v`.
pub open spec fn low_byte(v: u16) -> u8 {
    (v & 0xFF) as u8
}

/// A field of up to eight bits is a number of up to eight bits, and a field that reaches
/// the top of the block is all that is left after the shift.
pub proof fn lemma_bit_field_max(value: u16, low: u16, width: u16)
    requires
        low < 16,
        1 <= width <= 8,
    ensures
        bit_field(value, low, width) <= field_max(width),
        low + width == 16 ==> bit_field(value, low, width) == value >> low,
        bit_field(value, 8, 8) == high_byte(value),
        bit_field(value, 0, 8) == low_byte(value),
{
    assert({
        &&& width == 1 ==> ((value >> low) & (((1u16 << width) - 1) as u16)) <= 1
        &&& width == 2 ==> ((value >> low) & (((1u16 << width) - 1) as u16)) <= 3
        &&& width == 3 ==> ((value >> low) & (((1u16 << width) - 1) as u16)) <= 7
        &&& width == 4 ==> ((value >> low) & (((1u16 << width) - 1) as u16)) <= 15
        &&& width == 5 ==> ((value >> low) & (((1u16 << width) - 1) as u16)) <= 31
        &&& width == 6 ==> ((value >> low) & (((1u16 << width) - 1) as u16)) <= 63
        &&& width == 7 ==> ((value >> low) & (((1u16 << width) - 1) as u16)) <= 127
        &&& width == 8 ==> ((value >> low) & (((1u16 << width) - 1) as u16)) <= 255
        &&& low + width == 16 ==> ((value >> low) & (((1u16 << width) - 1) as u16)) == value
            >> low
        &&& ((value >> 8u16) & (((1u16 << 8u16) - 1) as u16)) == (value >> 8)
        &&& ((value >> 0u16) & (((1u16 << 8u16) - 1) as u16)) == (value & 0xFF)
        &&& (value >> 8) <= 0xFF
        &&& (value & 0xFF) <= 0xFF
    }) by (bit_vector)
        requires
            low < 16,
            1 <= width <= 8,
    ;
}

/// Reads the `width` bits of `value` that start at bit `low`.
pub fn bits(value: u16, low: u16, width: u16) -> (field: u16)
    requires
        low < 16,
        1 <= width <= 8,
    ensures
        field == bit_field(value, low, width),
        field <= field_max(width),
{
    proof {
        lemma_bit_field_max(value, low, width);
        assert(1 <= (1u16 << width)) by (bit_vector)
            requires
                1 <= width <= 8,
        ;
    }
    (value >> low) & ((1u16 << width) - 1)
}

/// Reads bit `position` of `value`.
pub fn flag(value: u16, position: u16) -> (set: bool)
    requires
        position < 16,
    ensures
        set == bit_flag(value, position),
{
    bits(value, position, 1) == 1
}

/// The two bytes of `v`, the more significant one first.
pub fn be_bytes(v: u16) -> (bytes: [u8; 2])
    ensures
        bytes[0] == high_byte(v),
        bytes[1] == low_byte(v),
{
    proof {
        lemma_bit_field_max(v, 8, 8);
        lemma_bit_field_max(v, 0, 8);
    }
    [bits(v, 8, 8) as u8, bits(v, 0, 8) as u8]
}

} // verus!
