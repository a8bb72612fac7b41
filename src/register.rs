use vstd::prelude::*;

use crate::bits::{assign_bit, bit_of, get_bit};
use crate::conversions::{high_of, low_of, pair_to_wide, wide_of, wide_to_pair};
use crate::types::{FarAddress, Value, WideValue};

verus! {

/// Position of the zero flag (Z) in the flag register.
pub const ZERO_FLAG_OFFSET: usize = 7;

/// Position of the subtraction flag (N) in the flag register.
pub const SUBTRACTION_FLAG_OFFSET: usize = 6;

/// Position of the half-carry flag (H) in the flag register.
pub const HALF_CARRY_FLAG_OFFSET: usize = 5;

/// Position of the carry flag (C) in the flag register.
pub const CARRY_FLAG_OFFSET: usize = 4;

/// The register file: the accumulator `A`, the pairs `BC`, `DE` and `HL`
/// held as their 8-bit halves, the four flags that make up the high nibble
/// of `F`, the stack pointer and the program counter.
///
/// `F` is not stored as a byte: it is assembled from the flags, so its
/// reserved low nibble is zero by construction.
#[derive(Clone, Copy, Debug, PartialEq, Eq, Structural)]
pub struct RegisterGroup {
    pub a: Value,
    pub b: Value,
    pub c: Value,
    pub d: Value,
    pub e: Value,
    pub h: Value,
    pub l: Value,
    pub zero: bool,
    pub subtraction: bool,
    pub half_carry: bool,
    pub carry: bool,
    pub sp: FarAddress,
    pub pc: FarAddress,
}

impl RegisterGroup {
    /// The flag register `F`: Z, N, H, C at bits 7 to 4, the low nibble zero.
    pub open spec fn flags_byte(self) -> u8 {
        pack_flags(self.zero, self.subtraction, self.half_carry, self.carry)
    }

    pub open spec fn af_value(self) -> u16 {
        wide_of(self.a, self.flags_byte())
    }

    pub open spec fn bc_value(self) -> u16 {
        wide_of(self.b, self.c)
    }

    pub open spec fn de_value(self) -> u16 {
        wide_of(self.d, self.e)
    }

    pub open spec fn hl_value(self) -> u16 {
        wide_of(self.h, self.l)
    }

    /// These registers with `F` loaded from `value`: the flags take bits 7
    /// to 4, the low nibble is dropped.
    pub open spec fn with_flags_byte(self, value: u8) -> RegisterGroup {
        RegisterGroup {
            zero: bit_of(value, 7),
            subtraction: bit_of(value, 6),
            half_carry: bit_of(value, 5),
            carry: bit_of(value, 4),
            ..self
        }
    }

    pub open spec fn with_af(self, value: u16) -> RegisterGroup {
        RegisterGroup { a: high_of(value), ..self.with_flags_byte(low_of(value)) }
    }

    pub open spec fn with_bc(self, value: u16) -> RegisterGroup {
        RegisterGroup { b: high_of(value), c: low_of(value), ..self }
    }

    pub open spec fn with_de(self, value: u16) -> RegisterGroup {
        RegisterGroup { d: high_of(value), e: low_of(value), ..self }
    }

    pub open spec fn with_hl(self, value: u16) -> RegisterGroup {
        RegisterGroup { h: high_of(value), l: low_of(value), ..self }
    }

    /// All registers and flags cleared.
    pub open spec fn cleared() -> RegisterGroup {
        RegisterGroup {
            a: 0,
            b: 0,
            c: 0,
            d: 0,
            e: 0,
            h: 0,
            l: 0,
            zero: false,
            subtraction: false,
            half_carry: false,
            carry: false,
            sp: 0,
            pc: 0,
        }
    }

    pub fn new() -> (r: RegisterGroup)
        ensures
            r == RegisterGroup::cleared(),
    {
        RegisterGroup {
            a: 0,
            b: 0,
            c: 0,
            d: 0,
            e: 0,
            h: 0,
            l: 0,
            zero: false,
            subtraction: false,
            half_carry: false,
            carry: false,
            sp: 0,
            pc: 0,
        }
    }

    pub fn get_af(&self) -> (r: WideValue)
        ensures
            r == self.af_value(),
    {
        pair_to_wide(self.a, self.get_f())
    }

    pub fn set_af(&mut self, value: WideValue)
        ensures
            *final(self) == old(self).with_af(value),
    {
        let (high, low) = wide_to_pair(value);
        self.a = high;
        self.set_f(low);
    }

    pub fn get_a(&self) -> (r: Value)
        ensures
            r == self.a,
    {
        self.a
    }

    pub fn set_a(&mut self, value: Value)
        ensures
            *final(self) == (RegisterGroup { a: value, ..*old(self) }),
    {
        self.a = value;
    }

    /// Assembles `F` from the four flags.
    pub fn get_f(&self) -> (r: Value)
        ensures
            r == self.flags_byte(),
            r % 16 == 0,
    {
        let mut f: u8 = 0;
        if self.zero {
            f = f + 0x80;
        }
        if self.subtraction {
            f = f + 0x40;
        }
        if self.half_carry {
            f = f + 0x20;
        }
        if self.carry {
            f = f + 0x10;
        }
        f
    }

    /// Loads `F`: bits 7 to 4 become the flags, the low nibble is dropped.
    pub fn set_f(&mut self, value: Value)
        ensures
            *final(self) == old(self).with_flags_byte(value),
            final(self).flags_byte() == value & 0xF0,
    {
        self.zero = get_bit(value, ZERO_FLAG_OFFSET);
        self.subtraction = get_bit(value, SUBTRACTION_FLAG_OFFSET);
        self.half_carry = get_bit(value, HALF_CARRY_FLAG_OFFSET);
        self.carry = get_bit(value, CARRY_FLAG_OFFSET);
        proof {
            lemma_flags_byte_of(value);
        }
    }

    pub fn get_bc(&self) -> (r: WideValue)
        ensures
            r == self.bc_value(),
    {
        pair_to_wide(self.b, self.c)
    }

    pub fn set_bc(&mut self, value: WideValue)
        ensures
            *final(self) == old(self).with_bc(value),
    {
        let (high, low) = wide_to_pair(value);
        self.b = high;
        self.c = low;
    }

    pub fn get_b(&self) -> (r: Value)
        ensures
            r == self.b,
    {
        self.b
    }

    pub fn set_b(&mut self, value: Value)
        ensures
            *final(self) == (RegisterGroup { b: value, ..*old(self) }),
    {
        self.b = value;
    }

    pub fn get_c(&self) -> (r: Value)
        ensures
            r == self.c,
    {
        self.c
    }

    pub fn set_c(&mut self, value: Value)
        ensures
            *final(self) == (RegisterGroup { c: value, ..*old(self) }),
    {
        self.c = value;
    }

    pub fn get_de(&self) -> (r: WideValue)
        ensures
            r == self.de_value(),
    {
        pair_to_wide(self.d, self.e)
    }

    pub fn set_de(&mut self, value: WideValue)
        ensures
            *final(self) == old(self).with_de(value),
    {
        let (high, low) = wide_to_pair(value);
        self.d = high;
        self.e = low;
    }

    pub fn get_d(&self) -> (r: Value)
        ensures
            r == self.d,
    {
        self.d
    }

    pub fn set_d(&mut self, value: Value)
        ensures
            *final(self) == (RegisterGroup { d: value, ..*old(self) }),
    {
        self.d = value;
    }

    pub fn get_e(&self) -> (r: Value)
        ensures
            r == self.e,
    {
        self.e
    }

    pub fn set_e(&mut self, value: Value)
        ensures
            *final(self) == (RegisterGroup { e: value, ..*old(self) }),
    {
        self.e = value;
    }

    pub fn get_hl(&self) -> (r: WideValue)
        ensures
            r == self.hl_value(),
    {
        pair_to_wide(self.h, self.l)
    }

    pub fn set_hl(&mut self, value: WideValue)
        ensures
            *final(self) == old(self).with_hl(value),
    {
        let (high, low) = wide_to_pair(value);
        self.h = high;
        self.l = low;
    }

    pub fn get_h(&self) -> (r: Value)
        ensures
            r == self.h,
    {
        self.h
    }

    pub fn set_h(&mut self, value: Value)
        ensures
            *final(self) == (RegisterGroup { h: value, ..*old(self) }),
    {
        self.h = value;
    }

    pub fn get_l(&self) -> (r: Value)
        ensures
            r == self.l,
    {
        self.l
    }

    pub fn set_l(&mut self, value: Value)
        ensures
            *final(self) == (RegisterGroup { l: value, ..*old(self) }),
    {
        self.l = value;
    }

    /// The zero flag, read from bit 7 of `F`.
    pub fn get_zero_flag(&self) -> (r: bool)
        ensures
            r == self.zero,
            r == bit_of(self.flags_byte(), 7),
    {
        proof {
            lemma_flag_bits(self.zero, self.subtraction, self.half_carry, self.carry);
        }
        get_bit(self.get_f(), ZERO_FLAG_OFFSET)
    }

    /// Assigns bit 7 of `F`; the other flags stay.
    pub fn set_zero_flag(&mut self, status: bool)
        ensures
            *final(self) == (RegisterGroup { zero: status, ..*old(self) }),
    {
        let f = assign_bit(self.get_f(), ZERO_FLAG_OFFSET, status);
        proof {
            lemma_assign_flag_bit(self.zero, self.subtraction, self.half_carry, self.carry, status);
        }
        self.set_f(f);
    }

    /// The subtraction flag, read from bit 6 of `F`.
    pub fn get_subtraction_flag(&self) -> (r: bool)
        ensures
            r == self.subtraction,
            r == bit_of(self.flags_byte(), 6),
    {
        proof {
            lemma_flag_bits(self.zero, self.subtraction, self.half_carry, self.carry);
        }
        get_bit(self.get_f(), SUBTRACTION_FLAG_OFFSET)
    }

    /// Assigns bit 6 of `F`; the other flags stay.
    pub fn set_subtraction_flag(&mut self, status: bool)
        ensures
            *final(self) == (RegisterGroup { subtraction: status, ..*old(self) }),
    {
        let f = assign_bit(self.get_f(), SUBTRACTION_FLAG_OFFSET, status);
        proof {
            lemma_assign_flag_bit(self.zero, self.subtraction, self.half_carry, self.carry, status);
        }
        self.set_f(f);
    }

    /// The half-carry flag, read from bit 5 of `F`.
    pub fn get_half_carry_flag(&self) -> (r: bool)
        ensures
            r == self.half_carry,
            r == bit_of(self.flags_byte(), 5),
    {
        proof {
            lemma_flag_bits(self.zero, self.subtraction, self.half_carry, self.carry);
        }
        get_bit(self.get_f(), HALF_CARRY_FLAG_OFFSET)
    }

    /// Assigns bit 5 of `F`; the other flags stay.
    pub fn set_half_carry_flag(&mut self, status: bool)
        ensures
            *final(self) == (RegisterGroup { half_carry: status, ..*old(self) }),
    {
        let f = assign_bit(self.get_f(), HALF_CARRY_FLAG_OFFSET, status);
        proof {
            lemma_assign_flag_bit(self.zero, self.subtraction, self.half_carry, self.carry, status);
        }
        self.set_f(f);
    }

    /// The carry flag, read from bit 4 of `F`.
    pub fn get_carry_flag(&self) -> (r: bool)
        ensures
            r == self.carry,
            r == bit_of(self.flags_byte(), 4),
    {
        proof {
            lemma_flag_bits(self.zero, self.subtraction, self.half_carry, self.carry);
        }
        get_bit(self.get_f(), CARRY_FLAG_OFFSET)
    }

    /// Assigns bit 4 of `F`; the other flags stay.
    pub fn set_carry_flag(&mut self, status: bool)
        ensures
            *final(self) == (RegisterGroup { carry: status, ..*old(self) }),
    {
        let f = assign_bit(self.get_f(), CARRY_FLAG_OFFSET, status);
        proof {
            lemma_assign_flag_bit(self.zero, self.subtraction, self.half_carry, self.carry, status);
        }
        self.set_f(f);
    }
}

/// The packed flag byte of four flags.
pub open spec fn pack_flags(z: bool, n: bool, h: bool, c: bool) -> u8 {
    ((if z { 0x80int } else { 0 }) + (if n { 0x40int } else { 0 }) + (if h { 0x20int } else { 0 }) + (
    if c { 0x10int } else { 0 })) as u8
}

/// Loading a byte into `F` and reading it back gives its high nibble.
proof fn lemma_flags_byte_of(v: u8)
    ensures
        pack_flags(bit_of(v, 7), bit_of(v, 6), bit_of(v, 5), bit_of(v, 4)) == v & 0xF0,
{
    let z: u8 = if bit_of(v, 7) { 0x80 } else { 0 };
    let n: u8 = if bit_of(v, 6) { 0x40 } else { 0 };
    let h: u8 = if bit_of(v, 5) { 0x20 } else { 0 };
    let c: u8 = if bit_of(v, 4) { 0x10 } else { 0 };
    assert(((v >> 7u8) & 1u8 == 1u8 ==> z == 0x80u8) && ((v >> 7u8) & 1u8 != 1u8 ==> z == 0u8) && ((v >> 6u8) & 1u8
        == 1u8 ==> n == 0x40u8) && ((v >> 6u8) & 1u8 != 1u8 ==> n == 0u8) && ((v >> 5u8) & 1u8 == 1u8 ==> h
        == 0x20u8) && ((v >> 5u8) & 1u8 != 1u8 ==> h == 0u8) && ((v >> 4u8) & 1u8 == 1u8 ==> c == 0x10u8) && ((v
        >> 4u8) & 1u8 != 1u8 ==> c == 0u8) ==> z + n + h + c == v & 0xF0) by (bit_vector);
}

/// Each flag is the bit of the packed byte at its offset.
proof fn lemma_flag_bits(z: bool, n: bool, h: bool, c: bool)
    ensures
        bit_of(pack_flags(z, n, h, c), 7) == z,
        bit_of(pack_flags(z, n, h, c), 6) == n,
        bit_of(pack_flags(z, n, h, c), 5) == h,
        bit_of(pack_flags(z, n, h, c), 4) == c,
{
    let f = pack_flags(z, n, h, c);
    let zb: u8 = if z { 1 } else { 0 };
    let nb: u8 = if n { 1 } else { 0 };
    let hb: u8 = if h { 1 } else { 0 };
    let cb: u8 = if c { 1 } else { 0 };
    assert(f == zb * 0x80 + nb * 0x40 + hb * 0x20 + cb * 0x10);
    assert(zb <= 1 && nb <= 1 && hb <= 1 && cb <= 1 ==> {
        let g = (zb * 0x80 + nb * 0x40 + hb * 0x20 + cb * 0x10) as u8;
        &&& (g >> 7u8) & 1u8 == zb
        &&& (g >> 6u8) & 1u8 == nb
        &&& (g >> 5u8) & 1u8 == hb
        &&& (g >> 4u8) & 1u8 == cb
    }) by (bit_vector);
}

/// Assigning one flag bit of the packed byte, then unpacking, changes that
/// flag alone.
proof fn lemma_assign_flag_bit(z: bool, n: bool, h: bool, c: bool, status: bool)
    ensures
        ({
            let f = pack_flags(z, n, h, c);
            &&& {
                let g = crate::bits::with_bit(f, 7, status);
                bit_of(g, 7) == status && bit_of(g, 6) == n && bit_of(g, 5) == h && bit_of(g, 4) == c
            }
            &&& {
                let g = crate::bits::with_bit(f, 6, status);
                bit_of(g, 7) == z && bit_of(g, 6) == status && bit_of(g, 5) == h && bit_of(g, 4) == c
            }
            &&& {
                let g = crate::bits::with_bit(f, 5, status);
                bit_of(g, 7) == z && bit_of(g, 6) == n && bit_of(g, 5) == status && bit_of(g, 4) == c
            }
            &&& {
                let g = crate::bits::with_bit(f, 4, status);
                bit_of(g, 7) == z && bit_of(g, 6) == n && bit_of(g, 5) == h && bit_of(g, 4) == status
            }
        }),
{
    lemma_flag_bits(z, n, h, c);
    let f = pack_flags(z, n, h, c);
    assert(forall|g: u8, i: u8, j: u8|
        i < 8 && j < 8 && i != j ==> #[trigger] ((((g | (1u8 << i)) >> j) & 1u8)) == (g >> j) & 1u8)
        by (bit_vector);
    assert(forall|g: u8, i: u8, j: u8|
        i < 8 && j < 8 && i != j ==> #[trigger] ((((g & !(1u8 << i)) >> j) & 1u8)) == (g >> j) & 1u8)
        by (bit_vector);
    assert(forall|g: u8, i: u8| i < 8 ==> #[trigger] (((g | (1u8 << i)) >> i) & 1u8) == 1u8)
        by (bit_vector);
    assert(forall|g: u8, i: u8| i < 8 ==> #[trigger] (((g & !(1u8 << i)) >> i) & 1u8) == 0u8)
        by (bit_vector);
}

} // verus!
