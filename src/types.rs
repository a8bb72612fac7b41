use vstd::prelude::*;

verus! {

/// A raw byte of the address space.
pub type Byte = u8;

/// The empty operand of instructions that take none.
pub type Void = ();

/// An 8-bit data value.
pub type Value = u8;

/// A 16-bit data value.
pub type WideValue = u16;

/// An 8-bit address, relative to the I/O page.
pub type NearAddress = u8;

/// A direct 16-bit address.
pub type FarAddress = u16;

/// A signed 8-bit displacement.
pub type AddressOffset = i8;

/// A register pair as its (high, low) halves.
pub type PairRegister = (Value, Value);

/// A register pair as one 16-bit value.
pub type WideRegister = WideValue;

} // verus!
