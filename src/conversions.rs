use vstd::prelude::*;

use crate::types::{AddressOffset, FarAddress, PairRegister, Value, WideRegister, WideValue};

verus! {

/// The 16-bit value whose high byte is `high` and low byte is `low`.
pub open spec fn wide_of(high: u8, low: u8) -> u16 {
    (high as int * 256 + low as int) as u16
}

/// The high byte of a 16-bit value.
pub open spec fn high_of(wide: u16) -> u8 {
    (wide / 256) as u8
}

/// The low byte of a 16-bit value.
pub open spec fn low_of(wide: u16) -> u8 {
    (wide % 256) as u8
}

/// The bit pattern of a signed offset, read as an unsigned 16-bit value.
pub open spec fn offset_bits(offset: i8) -> u16 {
    if offset < 0 {
        (offset as int + 0x1_0000) as u16
    } else {
        offset as u16
    }
}

/// Joins a high and a low byte into one 16-bit value.
pub fn pair_to_wide(high: Value, low: Value) -> (r: WideRegister)
    ensures
        r == wide_of(high, low),
        r as int == high as int * 256 + low as int,
{
    (high as u16) * 256 + (low as u16)
}

/// Splits a 16-bit value into its (high, low) bytes.
pub fn wide_to_pair(wide: WideRegister) -> (r: PairRegister)
    ensures
        r.0 == high_of(wide),
        r.1 == low_of(wide),
        wide_of(r.0, r.1) == wide,
{
    ((wide / 256) as u8, (wide % 256) as u8)
}

/// Joins a (high, low) register pair into one 16-bit value.
pub fn simple_to_wide(simple: &PairRegister) -> (r: WideRegister)
    ensures
        r == wide_of(simple.0, simple.1),
{
    pair_to_wide(simple.0, simple.1)
}

/// Splits a 16-bit register value into its (high, low) halves.
pub fn wide_to_simple(wide_register: WideRegister) -> (r: PairRegister)
    ensures
        r.0 == high_of(wide_register),
        r.1 == low_of(wide_register),
{
    wide_to_pair(wide_register)
}

/// Reinterprets a signed offset as the unsigned address with the same bits,
/// so that adding it with wraparound moves an address backwards or forwards.
pub fn offset_to_far_address(offset: AddressOffset) -> (r: FarAddress)
    ensures
        r == offset_bits(offset),
{
    if offset < 0 {
        (offset as i32 + 0x1_0000) as u16
    } else {
        offset as u16
    }
}

/// Byte round trip: joining the halves of a value gives the value back.
pub proof fn lemma_wide_round_trip(wide: u16)
    ensures
        wide_of(high_of(wide), low_of(wide)) == wide,
{
}

} // verus!
