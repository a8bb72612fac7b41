use vstd::prelude::*;

use crate::bits::{
    check_half_carry_add, check_half_carry_sub, check_half_carry_wide_add, half_carry_add,
    half_carry_sub, half_carry_wide_add,
};
use crate::memory::{lemma_flags_keep_locations, lemma_write_then_read, Loc8, MachineState, Memory, Reg16};
use crate::operations::logical::{alu_loc, AluOp};
use crate::register::RegisterGroup;
use crate::types::{Value, Void};

verus! {

/// 8-bit increment of `loc`: Z from the result, N cleared, H from bit 3,
/// C kept.
pub open spec fn inc_spec(s: MachineState, loc: Loc8) -> MachineState {
    let v = s.read_loc(loc);
    let r = ((v + 1) % 256) as u8;
    s.write_loc(loc, r).with_flags(r == 0, false, half_carry_add(v, 1), s.registers.carry)
}

/// 8-bit decrement of `loc`: Z from the result, N set, H from the borrow
/// into bit 3, C kept.
pub open spec fn dec_spec(s: MachineState, loc: Loc8) -> MachineState {
    let v = s.read_loc(loc);
    let r = ((v + 255) % 256) as u8;
    s.write_loc(loc, r).with_flags(r == 0, true, half_carry_sub(v, 1), s.registers.carry)
}

/// 16-bit increment; no flag changes.
pub open spec fn inc_wide_spec(s: MachineState, reg: Reg16) -> MachineState {
    s.with_reg16(reg, ((s.reg16(reg) + 1) % 0x1_0000) as u16)
}

/// 16-bit decrement; no flag changes.
pub open spec fn dec_wide_spec(s: MachineState, reg: Reg16) -> MachineState {
    s.with_reg16(reg, ((s.reg16(reg) + 0xFFFF) % 0x1_0000) as u16)
}

/// The carry flag as the number 0 or 1.
pub open spec fn carry_in(s: MachineState) -> int {
    if s.registers.carry {
        1
    } else {
        0
    }
}

/// `A` replaced by `a` and the four flags set.
pub open spec fn with_a_and_flags(s: MachineState, a: u8, z: bool, n: bool, h: bool, c: bool) -> MachineState {
    s.with_registers(
        RegisterGroup { a, zero: z, subtraction: n, half_carry: h, carry: c, ..s.registers },
    )
}

/// `ADD A, v`.
pub open spec fn add_spec(s: MachineState, v: u8) -> MachineState {
    let a = s.registers.a;
    let r = ((a + v) % 256) as u8;
    with_a_and_flags(s, r, r == 0, false, half_carry_add(a, v), a + v > 0xFF)
}

/// `ADC A, v`: the incoming carry is added as a third term.
pub open spec fn adc_spec(s: MachineState, v: u8) -> MachineState {
    let a = s.registers.a;
    let c = carry_in(s);
    let r = ((a + v + c) % 256) as u8;
    with_a_and_flags(s, r, r == 0, false, a % 16 + v % 16 + c >= 0x10, a + v + c > 0xFF)
}

/// `SUB A, v`.
pub open spec fn sub_spec(s: MachineState, v: u8) -> MachineState {
    let a = s.registers.a;
    let r = ((a - v + 256) % 256) as u8;
    with_a_and_flags(s, r, r == 0, true, half_carry_sub(a, v), a < v)
}

/// `SBC A, v`: the incoming carry is subtracted as a third term.
pub open spec fn sbc_spec(s: MachineState, v: u8) -> MachineState {
    let a = s.registers.a;
    let c = carry_in(s);
    let r = ((a - v - c + 512) % 256) as u8;
    with_a_and_flags(s, r, r == 0, true, a % 16 < v % 16 + c, a < v + c)
}

/// `ADD HL, reg`: Z kept, N cleared, H from bit 11, C from bit 15.
pub open spec fn add_hl_spec(s: MachineState, reg: Reg16) -> MachineState {
    let hl = s.hl();
    let v = s.reg16(reg);
    s.with_reg16(Reg16::HL, ((hl + v) % 0x1_0000) as u16).with_flags(
        s.registers.zero,
        false,
        half_carry_wide_add(hl, v),
        hl + v > 0xFFFF,
    )
}

/// `CPL`: `A` complemented, N and H set.
pub open spec fn cpl_spec(s: MachineState) -> MachineState {
    with_a_and_flags(s, !s.registers.a, s.registers.zero, true, true, s.registers.carry)
}

/// `CCF`: the carry flag inverted, N and H cleared.
pub open spec fn ccf_spec(s: MachineState) -> MachineState {
    s.with_flags(s.registers.zero, false, false, !s.registers.carry)
}

/// `SCF`: the carry flag set, N and H cleared.
pub open spec fn scf_spec(s: MachineState) -> MachineState {
    s.with_flags(s.registers.zero, false, false, true)
}

/// `DAA`: add 0x06 when H is set or the low nibble exceeds 9; then add 0x60
/// and set C when C is set or the high nibble of the updated value exceeds
/// 9, else clear C; Z from the result, H cleared, N kept.
pub open spec fn daa_spec(s: MachineState) -> MachineState {
    let a = s.registers.a;
    let v1 = if s.registers.half_carry || a % 16 > 9 {
        ((a + 0x06) % 256) as u8
    } else {
        a
    };
    let high = s.registers.carry || v1 / 16 > 9;
    let v2 = if high {
        ((v1 + 0x60) % 256) as u8
    } else {
        v1
    };
    with_a_and_flags(s, v2, v2 == 0, s.registers.subtraction, false, high)
}

/// Increments an 8-bit location.
pub fn inc_value(memory: &mut Memory, loc: Loc8)
    requires
        old(memory)@.loc_ok(loc),
    ensures
        final(memory)@ == inc_spec(old(memory)@, loc),
{
    let old_value = memory.read_loc(loc);
    let new_value = old_value.wrapping_add(1);
    memory.write_loc(loc, new_value);
    memory.registers.set_zero_flag(new_value == 0);
    memory.registers.set_subtraction_flag(false);
    memory.registers.set_half_carry_flag(check_half_carry_add(old_value, 1));
}

/// Decrements an 8-bit location.
pub fn dec_value(memory: &mut Memory, loc: Loc8)
    requires
        old(memory)@.loc_ok(loc),
    ensures
        final(memory)@ == dec_spec(old(memory)@, loc),
{
    let old_value = memory.read_loc(loc);
    let new_value = old_value.wrapping_sub(1);
    memory.write_loc(loc, new_value);
    memory.registers.set_zero_flag(new_value == 0);
    memory.registers.set_subtraction_flag(true);
    memory.registers.set_half_carry_flag(check_half_carry_sub(old_value, 1));
}

/// Increments a 16-bit register.
pub fn inc_wide(memory: &mut Memory, reg: Reg16)
    ensures
        final(memory)@ == inc_wide_spec(old(memory)@, reg),
{
    let value = memory.get_reg16(reg);
    memory.set_reg16(reg, value.wrapping_add(1));
}

/// Decrements a 16-bit register.
pub fn dec_wide(memory: &mut Memory, reg: Reg16)
    ensures
        final(memory)@ == dec_wide_spec(old(memory)@, reg),
{
    let value = memory.get_reg16(reg);
    memory.set_reg16(reg, value.wrapping_sub(1));
}

/// Stores `result` in `A` and sets the four flags.
fn store_a(memory: &mut Memory, result: Value, zero: bool, subtraction: bool, half_carry: bool, carry: bool)
    ensures
        final(memory)@ == with_a_and_flags(old(memory)@, result, zero, subtraction, half_carry, carry),
{
    memory.registers.set_a(result);
    memory.set_flags(zero, subtraction, half_carry, carry);
}

/// Adds `value` to `A`.
pub fn add_a_value(memory: &mut Memory, value: Value)
    ensures
        final(memory)@ == add_spec(old(memory)@, value),
{
    let old_value = memory.registers.get_a();
    let result = old_value.wrapping_add(value);
    let overflow = (old_value as u16) + (value as u16) > 0xFF;
    store_a(memory, result, result == 0, false, check_half_carry_add(old_value, value), overflow);
}

/// Adds `value` and the carry flag to `A`.
pub fn adc_a_value(memory: &mut Memory, value: Value)
    ensures
        final(memory)@ == adc_spec(old(memory)@, value),
{
    let old_value = memory.registers.get_a();
    let carry: u8 = if memory.registers.get_carry_flag() { 1 } else { 0 };
    let partial = old_value.wrapping_add(value);
    let result = partial.wrapping_add(carry);
    let overflow = (old_value as u16) + (value as u16) + (carry as u16) > 0xFF;
    let half_carry = check_half_carry_add(old_value, value) || check_half_carry_add(partial, carry);
    store_a(memory, result, result == 0, false, half_carry, overflow);
}

/// Subtracts `value` from `A`.
pub fn sub_a_value(memory: &mut Memory, value: Value)
    ensures
        final(memory)@ == sub_spec(old(memory)@, value),
{
    let old_value = memory.registers.get_a();
    let result = old_value.wrapping_sub(value);
    store_a(memory, result, result == 0, true, check_half_carry_sub(old_value, value), old_value < value);
}

/// Subtracts `value` and the carry flag from `A`.
pub fn sbc_a_value(memory: &mut Memory, value: Value)
    ensures
        final(memory)@ == sbc_spec(old(memory)@, value),
{
    let old_value = memory.registers.get_a();
    let carry: u8 = if memory.registers.get_carry_flag() { 1 } else { 0 };
    let partial = old_value.wrapping_sub(value);
    let result = partial.wrapping_sub(carry);
    let borrow = (old_value as u16) < (value as u16) + (carry as u16);
    let half_carry = check_half_carry_sub(old_value, value) || check_half_carry_sub(partial, carry);
    store_a(memory, result, result == 0, true, half_carry, borrow);
}

/// Adds a 16-bit register to `HL`.
pub fn add_hl_value(memory: &mut Memory, reg: Reg16)
    ensures
        final(memory)@ == add_hl_spec(old(memory)@, reg),
{
    let old_value = memory.registers.get_hl();
    let value = memory.get_reg16(reg);
    let overflow = (old_value as u32) + (value as u32) > 0xFFFF;
    let half_carry = check_half_carry_wide_add(old_value, value);
    let zero = memory.registers.get_zero_flag();
    memory.registers.set_hl(old_value.wrapping_add(value));
    memory.set_flags(zero, false, half_carry, overflow);
}

/// Complements the accumulator.
pub fn cpl(memory: &mut Memory, _value: Void)
    ensures
        final(memory)@ == cpl_spec(old(memory)@),
{
    memory.registers.set_a(!memory.registers.get_a());
    memory.registers.set_subtraction_flag(true);
    memory.registers.set_half_carry_flag(true);
}

/// Complements the carry flag.
pub fn ccf(memory: &mut Memory, _value: Void)
    ensures
        final(memory)@ == ccf_spec(old(memory)@),
{
    memory.registers.set_subtraction_flag(false);
    memory.registers.set_half_carry_flag(false);
    let carry = memory.registers.get_carry_flag();
    memory.registers.set_carry_flag(!carry);
}

/// Sets the carry flag.
pub fn scf(memory: &mut Memory, _value: Void)
    ensures
        final(memory)@ == scf_spec(old(memory)@),
{
    memory.registers.set_subtraction_flag(false);
    memory.registers.set_half_carry_flag(false);
    memory.registers.set_carry_flag(true);
}

/// Decimal-adjusts the accumulator after a binary-coded-decimal addition.
pub fn daa(memory: &mut Memory, _value: Void)
    ensures
        final(memory)@ == daa_spec(old(memory)@),
{
    let old_value = memory.registers.get_a();
    let old_half_carry_flag = memory.registers.get_half_carry_flag();
    let old_carry_flag = memory.registers.get_carry_flag();
    let mut new_value = old_value;
    if old_half_carry_flag || (old_value % 16) > 9 {
        new_value = new_value.wrapping_add(0x06);
    }
    let carry = old_carry_flag || (new_value / 16) > 9;
    if carry {
        new_value = new_value.wrapping_add(0x60);
    }
    memory.registers.set_a(new_value);
    memory.registers.set_carry_flag(carry);
    memory.registers.set_zero_flag(new_value == 0);
    memory.registers.set_half_carry_flag(false);
}

/// INC A
pub fn inc_a(memory: &mut Memory, _value: Void)
    ensures
        final(memory)@ == inc_spec(old(memory)@, Loc8::A),
{
    inc_value(memory, Loc8::A);
}

/// INC B
pub fn inc_b(memory: &mut Memory, _value: Void)
    ensures
        final(memory)@ == inc_spec(old(memory)@, Loc8::B),
{
    inc_value(memory, Loc8::B);
}

/// INC C
pub fn inc_c(memory: &mut Memory, _value: Void)
    ensures
        final(memory)@ == inc_spec(old(memory)@, Loc8::C),
{
    inc_value(memory, Loc8::C);
}

/// INC D
pub fn inc_d(memory: &mut Memory, _value: Void)
    ensures
        final(memory)@ == inc_spec(old(memory)@, Loc8::D),
{
    inc_value(memory, Loc8::D);
}

/// INC E
pub fn inc_e(memory: &mut Memory, _value: Void)
    ensures
        final(memory)@ == inc_spec(old(memory)@, Loc8::E),
{
    inc_value(memory, Loc8::E);
}

/// INC H
pub fn inc_h(memory: &mut Memory, _value: Void)
    ensures
        final(memory)@ == inc_spec(old(memory)@, Loc8::H),
{
    inc_value(memory, Loc8::H);
}

/// INC L
pub fn inc_l(memory: &mut Memory, _value: Void)
    ensures
        final(memory)@ == inc_spec(old(memory)@, Loc8::L),
{
    inc_value(memory, Loc8::L);
}

/// INC (HL)
pub fn inc_hl_addr(memory: &mut Memory, _value: Void)
    requires
        old(memory)@.loc_ok(Loc8::HlAddr),
    ensures
        final(memory)@ == inc_spec(old(memory)@, Loc8::HlAddr),
{
    inc_value(memory, Loc8::HlAddr);
}

/// INC BC
pub fn inc_bc(memory: &mut Memory, _value: Void)
    ensures
        final(memory)@ == inc_wide_spec(old(memory)@, Reg16::BC),
{
    inc_wide(memory, Reg16::BC);
}

/// INC DE
pub fn inc_de(memory: &mut Memory, _value: Void)
    ensures
        final(memory)@ == inc_wide_spec(old(memory)@, Reg16::DE),
{
    inc_wide(memory, Reg16::DE);
}

/// INC HL
pub fn inc_hl(memory: &mut Memory, _value: Void)
    ensures
        final(memory)@ == inc_wide_spec(old(memory)@, Reg16::HL),
{
    inc_wide(memory, Reg16::HL);
}

/// INC SP
pub fn inc_sp(memory: &mut Memory, _value: Void)
    ensures
        final(memory)@ == inc_wide_spec(old(memory)@, Reg16::SP),
{
    inc_wide(memory, Reg16::SP);
}

/// DEC A
pub fn dec_a(memory: &mut Memory, _value: Void)
    ensures
        final(memory)@ == dec_spec(old(memory)@, Loc8::A),
{
    dec_value(memory, Loc8::A);
}

/// DEC B
pub fn dec_b(memory: &mut Memory, _value: Void)
    ensures
        final(memory)@ == dec_spec(old(memory)@, Loc8::B),
{
    dec_value(memory, Loc8::B);
}

/// DEC C
pub fn dec_c(memory: &mut Memory, _value: Void)
    ensures
        final(memory)@ == dec_spec(old(memory)@, Loc8::C),
{
    dec_value(memory, Loc8::C);
}

/// DEC D
pub fn dec_d(memory: &mut Memory, _value: Void)
    ensures
        final(memory)@ == dec_spec(old(memory)@, Loc8::D),
{
    dec_value(memory, Loc8::D);
}

/// DEC E
pub fn dec_e(memory: &mut Memory, _value: Void)
    ensures
        final(memory)@ == dec_spec(old(memory)@, Loc8::E),
{
    dec_value(memory, Loc8::E);
}

/// DEC H
pub fn dec_h(memory: &mut Memory, _value: Void)
    ensures
        final(memory)@ == dec_spec(old(memory)@, Loc8::H),
{
    dec_value(memory, Loc8::H);
}

/// DEC L
pub fn dec_l(memory: &mut Memory, _value: Void)
    ensures
        final(memory)@ == dec_spec(old(memory)@, Loc8::L),
{
    dec_value(memory, Loc8::L);
}

/// DEC (HL)
pub fn dec_hl_addr(memory: &mut Memory, _value: Void)
    requires
        old(memory)@.loc_ok(Loc8::HlAddr),
    ensures
        final(memory)@ == dec_spec(old(memory)@, Loc8::HlAddr),
{
    dec_value(memory, Loc8::HlAddr);
}

/// DEC BC
pub fn dec_bc(memory: &mut Memory, _value: Void)
    ensures
        final(memory)@ == dec_wide_spec(old(memory)@, Reg16::BC),
{
    dec_wide(memory, Reg16::BC);
}

/// DEC DE
pub fn dec_de(memory: &mut Memory, _value: Void)
    ensures
        final(memory)@ == dec_wide_spec(old(memory)@, Reg16::DE),
{
    dec_wide(memory, Reg16::DE);
}

/// DEC HL
pub fn dec_hl(memory: &mut Memory, _value: Void)
    ensures
        final(memory)@ == dec_wide_spec(old(memory)@, Reg16::HL),
{
    dec_wide(memory, Reg16::HL);
}

/// DEC SP
pub fn dec_sp(memory: &mut Memory, _value: Void)
    ensures
        final(memory)@ == dec_wide_spec(old(memory)@, Reg16::SP),
{
    dec_wide(memory, Reg16::SP);
}

/// ADD A, d8
pub fn add_a_d8(memory: &mut Memory, value: Value)
    ensures
        final(memory)@ == add_spec(old(memory)@, value),
{
    add_a_value(memory, value);
}

/// ADD A, A
pub fn add_a_a(memory: &mut Memory, _value: Void)
    ensures
        final(memory)@ == add_spec(old(memory)@, old(memory)@.read_loc(Loc8::A)),
{
    alu_loc(memory, AluOp::Add, Loc8::A);
}

/// ADD A, B
pub fn add_a_b(memory: &mut Memory, _value: Void)
    ensures
        final(memory)@ == add_spec(old(memory)@, old(memory)@.read_loc(Loc8::B)),
{
    alu_loc(memory, AluOp::Add, Loc8::B);
}

/// ADD A, C
pub fn add_a_c(memory: &mut Memory, _value: Void)
    ensures
        final(memory)@ == add_spec(old(memory)@, old(memory)@.read_loc(Loc8::C)),
{
    alu_loc(memory, AluOp::Add, Loc8::C);
}

/// ADD A, D
pub fn add_a_d(memory: &mut Memory, _value: Void)
    ensures
        final(memory)@ == add_spec(old(memory)@, old(memory)@.read_loc(Loc8::D)),
{
    alu_loc(memory, AluOp::Add, Loc8::D);
}

/// ADD A, E
pub fn add_a_e(memory: &mut Memory, _value: Void)
    ensures
        final(memory)@ == add_spec(old(memory)@, old(memory)@.read_loc(Loc8::E)),
{
    alu_loc(memory, AluOp::Add, Loc8::E);
}

/// ADD A, H
pub fn add_a_h(memory: &mut Memory, _value: Void)
    ensures
        final(memory)@ == add_spec(old(memory)@, old(memory)@.read_loc(Loc8::H)),
{
    alu_loc(memory, AluOp::Add, Loc8::H);
}

/// ADD A, L
pub fn add_a_l(memory: &mut Memory, _value: Void)
    ensures
        final(memory)@ == add_spec(old(memory)@, old(memory)@.read_loc(Loc8::L)),
{
    alu_loc(memory, AluOp::Add, Loc8::L);
}

/// ADD A, (HL)
pub fn add_a_hl_addr(memory: &mut Memory, _value: Void)
    requires
        old(memory)@.loc_ok(Loc8::HlAddr),
    ensures
        final(memory)@ == add_spec(old(memory)@, old(memory)@.read_loc(Loc8::HlAddr)),
{
    alu_loc(memory, AluOp::Add, Loc8::HlAddr);
}

/// ADC A, d8
pub fn adc_a_d8(memory: &mut Memory, value: Value)
    ensures
        final(memory)@ == adc_spec(old(memory)@, value),
{
    adc_a_value(memory, value);
}

/// ADC A, A
pub fn adc_a_a(memory: &mut Memory, _value: Void)
    ensures
        final(memory)@ == adc_spec(old(memory)@, old(memory)@.read_loc(Loc8::A)),
{
    alu_loc(memory, AluOp::Adc, Loc8::A);
}

/// ADC A, B
pub fn adc_a_b(memory: &mut Memory, _value: Void)
    ensures
        final(memory)@ == adc_spec(old(memory)@, old(memory)@.read_loc(Loc8::B)),
{
    alu_loc(memory, AluOp::Adc, Loc8::B);
}

/// ADC A, C
pub fn adc_a_c(memory: &mut Memory, _value: Void)
    ensures
        final(memory)@ == adc_spec(old(memory)@, old(memory)@.read_loc(Loc8::C)),
{
    alu_loc(memory, AluOp::Adc, Loc8::C);
}

/// ADC A, D
pub fn adc_a_d(memory: &mut Memory, _value: Void)
    ensures
        final(memory)@ == adc_spec(old(memory)@, old(memory)@.read_loc(Loc8::D)),
{
    alu_loc(memory, AluOp::Adc, Loc8::D);
}

/// ADC A, E
pub fn adc_a_e(memory: &mut Memory, _value: Void)
    ensures
        final(memory)@ == adc_spec(old(memory)@, old(memory)@.read_loc(Loc8::E)),
{
    alu_loc(memory, AluOp::Adc, Loc8::E);
}

/// ADC A, H
pub fn adc_a_h(memory: &mut Memory, _value: Void)
    ensures
        final(memory)@ == adc_spec(old(memory)@, old(memory)@.read_loc(Loc8::H)),
{
    alu_loc(memory, AluOp::Adc, Loc8::H);
}

/// ADC A, L
pub fn adc_a_l(memory: &mut Memory, _value: Void)
    ensures
        final(memory)@ == adc_spec(old(memory)@, old(memory)@.read_loc(Loc8::L)),
{
    alu_loc(memory, AluOp::Adc, Loc8::L);
}

/// ADC A, (HL)
pub fn adc_a_hl_addr(memory: &mut Memory, _value: Void)
    requires
        old(memory)@.loc_ok(Loc8::HlAddr),
    ensures
        final(memory)@ == adc_spec(old(memory)@, old(memory)@.read_loc(Loc8::HlAddr)),
{
    alu_loc(memory, AluOp::Adc, Loc8::HlAddr);
}

/// SUB A, A
pub fn sub_a_a(memory: &mut Memory, _value: Void)
    ensures
        final(memory)@ == sub_spec(old(memory)@, old(memory)@.read_loc(Loc8::A)),
{
    alu_loc(memory, AluOp::Sub, Loc8::A);
}

/// SUB A, B
pub fn sub_a_b(memory: &mut Memory, _value: Void)
    ensures
        final(memory)@ == sub_spec(old(memory)@, old(memory)@.read_loc(Loc8::B)),
{
    alu_loc(memory, AluOp::Sub, Loc8::B);
}

/// SUB A, C
pub fn sub_a_c(memory: &mut Memory, _value: Void)
    ensures
        final(memory)@ == sub_spec(old(memory)@, old(memory)@.read_loc(Loc8::C)),
{
    alu_loc(memory, AluOp::Sub, Loc8::C);
}

/// SUB A, D
pub fn sub_a_d(memory: &mut Memory, _value: Void)
    ensures
        final(memory)@ == sub_spec(old(memory)@, old(memory)@.read_loc(Loc8::D)),
{
    alu_loc(memory, AluOp::Sub, Loc8::D);
}

/// SUB A, E
pub fn sub_a_e(memory: &mut Memory, _value: Void)
    ensures
        final(memory)@ == sub_spec(old(memory)@, old(memory)@.read_loc(Loc8::E)),
{
    alu_loc(memory, AluOp::Sub, Loc8::E);
}

/// SUB A, H
pub fn sub_a_h(memory: &mut Memory, _value: Void)
    ensures
        final(memory)@ == sub_spec(old(memory)@, old(memory)@.read_loc(Loc8::H)),
{
    alu_loc(memory, AluOp::Sub, Loc8::H);
}

/// SUB A, L
pub fn sub_a_l(memory: &mut Memory, _value: Void)
    ensures
        final(memory)@ == sub_spec(old(memory)@, old(memory)@.read_loc(Loc8::L)),
{
    alu_loc(memory, AluOp::Sub, Loc8::L);
}

/// SUB A, (HL)
pub fn sub_a_hl_addr(memory: &mut Memory, _value: Void)
    requires
        old(memory)@.loc_ok(Loc8::HlAddr),
    ensures
        final(memory)@ == sub_spec(old(memory)@, old(memory)@.read_loc(Loc8::HlAddr)),
{
    alu_loc(memory, AluOp::Sub, Loc8::HlAddr);
}

/// SBC A, A
pub fn sbc_a_a(memory: &mut Memory, _value: Void)
    ensures
        final(memory)@ == sbc_spec(old(memory)@, old(memory)@.read_loc(Loc8::A)),
{
    alu_loc(memory, AluOp::Sbc, Loc8::A);
}

/// SBC A, B
pub fn sbc_a_b(memory: &mut Memory, _value: Void)
    ensures
        final(memory)@ == sbc_spec(old(memory)@, old(memory)@.read_loc(Loc8::B)),
{
    alu_loc(memory, AluOp::Sbc, Loc8::B);
}

/// SBC A, C
pub fn sbc_a_c(memory: &mut Memory, _value: Void)
    ensures
        final(memory)@ == sbc_spec(old(memory)@, old(memory)@.read_loc(Loc8::C)),
{
    alu_loc(memory, AluOp::Sbc, Loc8::C);
}

/// SBC A, D
pub fn sbc_a_d(memory: &mut Memory, _value: Void)
    ensures
        final(memory)@ == sbc_spec(old(memory)@, old(memory)@.read_loc(Loc8::D)),
{
    alu_loc(memory, AluOp::Sbc, Loc8::D);
}

/// SBC A, E
pub fn sbc_a_e(memory: &mut Memory, _value: Void)
    ensures
        final(memory)@ == sbc_spec(old(memory)@, old(memory)@.read_loc(Loc8::E)),
{
    alu_loc(memory, AluOp::Sbc, Loc8::E);
}

/// SBC A, H
pub fn sbc_a_h(memory: &mut Memory, _value: Void)
    ensures
        final(memory)@ == sbc_spec(old(memory)@, old(memory)@.read_loc(Loc8::H)),
{
    alu_loc(memory, AluOp::Sbc, Loc8::H);
}

/// SBC A, L
pub fn sbc_a_l(memory: &mut Memory, _value: Void)
    ensures
        final(memory)@ == sbc_spec(old(memory)@, old(memory)@.read_loc(Loc8::L)),
{
    alu_loc(memory, AluOp::Sbc, Loc8::L);
}

/// SBC A, (HL)
pub fn sbc_a_hl_addr(memory: &mut Memory, _value: Void)
    requires
        old(memory)@.loc_ok(Loc8::HlAddr),
    ensures
        final(memory)@ == sbc_spec(old(memory)@, old(memory)@.read_loc(Loc8::HlAddr)),
{
    alu_loc(memory, AluOp::Sbc, Loc8::HlAddr);
}

/// ADD HL, BC
pub fn add_hl_bc(memory: &mut Memory, _value: Void)
    ensures
        final(memory)@ == add_hl_spec(old(memory)@, Reg16::BC),
{
    add_hl_value(memory, Reg16::BC);
}

/// ADD HL, DE
pub fn add_hl_de(memory: &mut Memory, _value: Void)
    ensures
        final(memory)@ == add_hl_spec(old(memory)@, Reg16::DE),
{
    add_hl_value(memory, Reg16::DE);
}

/// ADD HL, HL
pub fn add_hl_hl(memory: &mut Memory, _value: Void)
    ensures
        final(memory)@ == add_hl_spec(old(memory)@, Reg16::HL),
{
    add_hl_value(memory, Reg16::HL);
}

/// ADD HL, SP
pub fn add_hl_sp(memory: &mut Memory, _value: Void)
    ensures
        final(memory)@ == add_hl_spec(old(memory)@, Reg16::SP),
{
    add_hl_value(memory, Reg16::SP);
}

/// An 8-bit increment followed by a decrement, or a decrement followed by
/// an increment, leaves the location as it was, for every value; after
/// either one the zero flag tells whether its result is 0.
#[verifier::rlimit(50)]
pub proof fn lemma_inc_dec_round_trip(s: MachineState, loc: Loc8)
    requires
        s.loc_ok(loc),
    ensures
        inc_spec(s, loc).loc_ok(loc),
        dec_spec(s, loc).loc_ok(loc),
        dec_spec(inc_spec(s, loc), loc).read_loc(loc) == s.read_loc(loc),
        inc_spec(dec_spec(s, loc), loc).read_loc(loc) == s.read_loc(loc),
        inc_spec(s, loc).registers.zero == (inc_spec(s, loc).read_loc(loc) == 0),
        dec_spec(s, loc).registers.zero == (dec_spec(s, loc).read_loc(loc) == 0),
{
    let v = s.read_loc(loc);
    let up = ((v + 1) % 256) as u8;
    let down = ((v + 255) % 256) as u8;
    lemma_write_then_read(s, loc, up);
    lemma_write_then_read(s, loc, down);
    let carry = s.registers.carry;
    lemma_flags_keep_locations(s.write_loc(loc, up), loc, up == 0, false, half_carry_add(v, 1), carry);
    lemma_flags_keep_locations(s.write_loc(loc, down), loc, down == 0, true, half_carry_sub(v, 1), carry);
    let s1 = inc_spec(s, loc);
    let s2 = dec_spec(s, loc);
    assert(s1.read_loc(loc) == up);
    assert(s2.read_loc(loc) == down);
    let back_down = ((up + 255) % 256) as u8;
    let back_up = ((down + 1) % 256) as u8;
    lemma_write_then_read(s1, loc, back_down);
    lemma_write_then_read(s2, loc, back_up);
    lemma_flags_keep_locations(
        s1.write_loc(loc, back_down),
        loc,
        back_down == 0,
        true,
        half_carry_sub(up, 1),
        s1.registers.carry,
    );
    lemma_flags_keep_locations(
        s2.write_loc(loc, back_up),
        loc,
        back_up == 0,
        false,
        half_carry_add(down, 1),
        s2.registers.carry,
    );
}

} // verus!
