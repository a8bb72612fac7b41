use vstd::prelude::*;

use crate::types::{Value, WideValue};

verus! {

broadcast use vstd::layout::layout_of_primitives;

/// Bit `index` of `value` (bit 0 is the least significant).
pub open spec fn bit_of(value: u8, index: usize) -> bool {
    (value >> (index as u8)) & 1u8 == 1u8
}

/// `value` with bit `index` set.
pub open spec fn with_bit_set(value: u8, index: usize) -> u8 {
    value | (1u8 << (index as u8))
}

/// `value` with bit `index` cleared.
pub open spec fn with_bit_cleared(value: u8, index: usize) -> u8 {
    value & !(1u8 << (index as u8))
}

/// `value` with bit `index` set to `status`.
pub open spec fn with_bit(value: u8, index: usize, status: bool) -> u8 {
    if status {
        with_bit_set(value, index)
    } else {
        with_bit_cleared(value, index)
    }
}

/// Whether adding two bytes carries out of bit 3.
pub open spec fn half_carry_add(a: u8, b: u8) -> bool {
    a % 16 + b % 16 >= 0x10
}

/// Whether subtracting two bytes borrows into bit 3.
pub open spec fn half_carry_sub(a: u8, b: u8) -> bool {
    a % 16 < b % 16
}

/// Whether adding two 16-bit values carries out of bit 11.
pub open spec fn half_carry_wide_add(a: u16, b: u16) -> bool {
    a % 0x1000 + b % 0x1000 >= 0x1000
}

/// Whether subtracting two 16-bit values borrows into bit 11.
pub open spec fn half_carry_wide_sub(a: u16, b: u16) -> bool {
    a % 0x1000 < b % 0x1000
}

/// The number of bits of a value of type `T`.
pub fn bit_size<T>(_value: T) -> (r: usize)
    requires
        vstd::layout::size_of::<T>() * 8 <= usize::MAX,
    ensures
        r == vstd::layout::size_of::<T>() * 8,
{
    core::mem::size_of::<T>() * 8
}

/// The index of the most significant bit of a value of type `T`.
pub fn max_bit_index<T>(value: T) -> (r: usize)
    requires
        1 <= vstd::layout::size_of::<T>(),
        vstd::layout::size_of::<T>() * 8 <= usize::MAX,
    ensures
        r == vstd::layout::size_of::<T>() * 8 - 1,
{
    bit_size(value) - 1
}

/// Reads bit `bit_index` of a byte.
pub fn get_bit(value: Value, bit_index: usize) -> (r: bool)
    requires
        bit_index < 8,
    ensures
        r == bit_of(value, bit_index),
{
    ((value >> (bit_index as u8)) & 1u8) == 1u8
}

/// Sets bit `bit_index` of a byte.
pub fn set_bit(old_value: Value, bit_index: usize) -> (r: Value)
    requires
        bit_index < 8,
    ensures
        r == with_bit_set(old_value, bit_index),
{
    old_value | (1u8 << (bit_index as u8))
}

/// Clears bit `bit_index` of a byte.
pub fn clear_bit(old_value: Value, bit_index: usize) -> (r: Value)
    requires
        bit_index < 8,
    ensures
        r == with_bit_cleared(old_value, bit_index),
{
    old_value & !(1u8 << (bit_index as u8))
}

/// Sets bit `bit_index` of a byte to `status`.
pub fn assign_bit(old_value: Value, bit_index: usize, status: bool) -> (r: Value)
    requires
        bit_index < 8,
    ensures
        r == with_bit(old_value, bit_index, status),
{
    if status {
        set_bit(old_value, bit_index)
    } else {
        clear_bit(old_value, bit_index)
    }
}

/// Exchanges the high and low nibbles of a byte.
pub fn swap(value: Value) -> (r: Value)
    ensures
        r as int == (value % 16) * 16 + value / 16,
{
    (value % 16) * 16 + value / 16
}

/// Whether `old_value + value` carries out of bit 3: the low nibbles are
/// added and bit 4 of their sum is tested.
pub fn check_half_carry_add(old_value: Value, value: Value) -> (r: bool)
    ensures
        r == half_carry_add(old_value, value),
{
    let low_a: u8 = old_value & 0x0F;
    let low_b: u8 = value & 0x0F;
    assert(old_value & 0x0F == old_value % 16 && value & 0x0F == value % 16) by (bit_vector);
    let sum: u8 = low_a + low_b;
    assert(sum < 32 ==> ((sum & 0x10 != 0) <==> sum >= 16)) by (bit_vector);
    (sum & 0x10) != 0
}

/// Whether `old_value - value` borrows into bit 3: the low nibbles are
/// subtracted with wraparound and bit 4 of the difference is tested.
pub fn check_half_carry_sub(old_value: Value, value: Value) -> (r: bool)
    ensures
        r == half_carry_sub(old_value, value),
{
    let low_a: u8 = old_value & 0x0F;
    let low_b: u8 = value & 0x0F;
    assert(old_value & 0x0F == old_value % 16 && value & 0x0F == value % 16) by (bit_vector);
    let diff: u8 = low_a.wrapping_sub(low_b);
    assert((diff < 16 ==> diff & 0x10 == 0) && (diff >= 0xF1 ==> diff & 0x10 != 0)) by (bit_vector);
    (diff & 0x10) != 0
}

/// Whether `old_value + value` carries out of bit 11.
pub fn check_half_carry_wide_add(old_value: WideValue, value: WideValue) -> (r: bool)
    ensures
        r == half_carry_wide_add(old_value, value),
{
    let low_a: u16 = old_value & 0x0FFF;
    let low_b: u16 = value & 0x0FFF;
    assert(old_value & 0x0FFF == old_value % 0x1000 && value & 0x0FFF == value % 0x1000) by (bit_vector);
    let sum: u16 = low_a + low_b;
    assert(sum < 0x2000 ==> ((sum & 0x1000 != 0) <==> sum >= 0x1000)) by (bit_vector);
    (sum & 0x1000) != 0
}

/// Whether `old_value - value` borrows into bit 11.
pub fn check_half_carry_wide_sub(old_value: WideValue, value: WideValue) -> (r: bool)
    ensures
        r == half_carry_wide_sub(old_value, value),
{
    let low_a: u16 = old_value & 0x0FFF;
    let low_b: u16 = value & 0x0FFF;
    assert(old_value & 0x0FFF == old_value % 0x1000 && value & 0x0FFF == value % 0x1000) by (bit_vector);
    let diff: u16 = low_a.wrapping_sub(low_b);
    assert((diff < 0x1000 ==> diff & 0x1000 == 0) && (diff >= 0xF001 ==> diff & 0x1000 != 0)) by (bit_vector);
    (diff & 0x1000) != 0
}

} // verus!
