use vstd::prelude::*;

use crate::bits::{check_half_carry_sub, half_carry_sub};
use crate::memory::{Loc8, MachineState, Memory};
use crate::operations::arithmetic::{
    adc_a_value, adc_spec, add_a_value, add_spec, sbc_a_value, sbc_spec, sub_a_value, sub_spec,
    with_a_and_flags,
};
use crate::types::{Value, Void};

verus! {

/// The eight accumulator operations that combine `A` with an 8-bit operand.
#[derive(Clone, Copy, Debug, PartialEq, Eq, Structural)]
pub enum AluOp {
    Add,
    Adc,
    Sub,
    Sbc,
    And,
    Xor,
    Or,
    Cp,
}

/// `AND A, v`: Z from the result, N cleared, H set, C cleared.
pub open spec fn and_spec(s: MachineState, v: u8) -> MachineState {
    let r = s.registers.a & v;
    with_a_and_flags(s, r, r == 0, false, true, false)
}

/// `OR A, v`: Z from the result, N, H and C cleared.
pub open spec fn or_spec(s: MachineState, v: u8) -> MachineState {
    let r = s.registers.a | v;
    with_a_and_flags(s, r, r == 0, false, false, false)
}

/// `XOR A, v`: Z from the result, N, H and C cleared.
pub open spec fn xor_spec(s: MachineState, v: u8) -> MachineState {
    let r = s.registers.a ^ v;
    with_a_and_flags(s, r, r == 0, false, false, false)
}

/// `CP A, v`: the flags of `SUB A, v`, with `A` unchanged.
pub open spec fn cp_spec(s: MachineState, v: u8) -> MachineState {
    let a = s.registers.a;
    let r = ((a - v + 256) % 256) as u8;
    s.with_flags(r == 0, true, half_carry_sub(a, v), a < v)
}

/// The state after `op` with operand `v`.
pub open spec fn alu_spec(s: MachineState, op: AluOp, v: u8) -> MachineState {
    match op {
        AluOp::Add => add_spec(s, v),
        AluOp::Adc => adc_spec(s, v),
        AluOp::Sub => sub_spec(s, v),
        AluOp::Sbc => sbc_spec(s, v),
        AluOp::And => and_spec(s, v),
        AluOp::Xor => xor_spec(s, v),
        AluOp::Or => or_spec(s, v),
        AluOp::Cp => cp_spec(s, v),
    }
}

/// `A &= value`.
pub fn and_a_value(memory: &mut Memory, value: Value)
    ensures
        final(memory)@ == and_spec(old(memory)@, value),
{
    let result = memory.registers.get_a() & value;
    memory.registers.set_a(result);
    memory.set_flags(result == 0, false, true, false);
}

/// `A |= value`.
pub fn or_a_value(memory: &mut Memory, value: Value)
    ensures
        final(memory)@ == or_spec(old(memory)@, value),
{
    let result = memory.registers.get_a() | value;
    memory.registers.set_a(result);
    memory.set_flags(result == 0, false, false, false);
}

/// `A ^= value`.
pub fn xor_a_value(memory: &mut Memory, value: Value)
    ensures
        final(memory)@ == xor_spec(old(memory)@, value),
{
    let result = memory.registers.get_a() ^ value;
    memory.registers.set_a(result);
    memory.set_flags(result == 0, false, false, false);
}

/// Compares `value` with `A`.
pub fn cp_a_value(memory: &mut Memory, value: Value)
    ensures
        final(memory)@ == cp_spec(old(memory)@, value),
{
    let old_value = memory.registers.get_a();
    let result = old_value.wrapping_sub(value);
    memory.set_flags(result == 0, true, check_half_carry_sub(old_value, value), old_value < value);
}

/// Runs `op` on `A` and `value`.
pub fn alu_value(memory: &mut Memory, op: AluOp, value: Value)
    ensures
        final(memory)@ == alu_spec(old(memory)@, op, value),
{
    match op {
        AluOp::Add => add_a_value(memory, value),
        AluOp::Adc => adc_a_value(memory, value),
        AluOp::Sub => sub_a_value(memory, value),
        AluOp::Sbc => sbc_a_value(memory, value),
        AluOp::And => and_a_value(memory, value),
        AluOp::Xor => xor_a_value(memory, value),
        AluOp::Or => or_a_value(memory, value),
        AluOp::Cp => cp_a_value(memory, value),
    }
}

/// Runs `op` on `A` and the byte at `loc`.
pub fn alu_loc(memory: &mut Memory, op: AluOp, loc: Loc8)
    requires
        old(memory)@.loc_ok(loc),
    ensures
        final(memory)@ == alu_spec(old(memory)@, op, old(memory)@.read_loc(loc)),
{
    let value = memory.read_loc(loc);
    alu_value(memory, op, value);
}

/// AND A, d8
pub fn and_a_d8(memory: &mut Memory, value: Value)
    ensures
        final(memory)@ == and_spec(old(memory)@, value),
{
    and_a_value(memory, value);
}

/// AND A, A
pub fn and_a_a(memory: &mut Memory, _value: Void)
    ensures
        final(memory)@ == and_spec(old(memory)@, old(memory)@.read_loc(Loc8::A)),
{
    alu_loc(memory, AluOp::And, Loc8::A);
}

/// AND A, B
pub fn and_a_b(memory: &mut Memory, _value: Void)
    ensures
        final(memory)@ == and_spec(old(memory)@, old(memory)@.read_loc(Loc8::B)),
{
    alu_loc(memory, AluOp::And, Loc8::B);
}

/// AND A, C
pub fn and_a_c(memory: &mut Memory, _value: Void)
    ensures
        final(memory)@ == and_spec(old(memory)@, old(memory)@.read_loc(Loc8::C)),
{
    alu_loc(memory, AluOp::And, Loc8::C);
}

/// AND A, D
pub fn and_a_d(memory: &mut Memory, _value: Void)
    ensures
        final(memory)@ == and_spec(old(memory)@, old(memory)@.read_loc(Loc8::D)),
{
    alu_loc(memory, AluOp::And, Loc8::D);
}

/// AND A, E
pub fn and_a_e(memory: &mut Memory, _value: Void)
    ensures
        final(memory)@ == and_spec(old(memory)@, old(memory)@.read_loc(Loc8::E)),
{
    alu_loc(memory, AluOp::And, Loc8::E);
}

/// AND A, H
pub fn and_a_h(memory: &mut Memory, _value: Void)
    ensures
        final(memory)@ == and_spec(old(memory)@, old(memory)@.read_loc(Loc8::H)),
{
    alu_loc(memory, AluOp::And, Loc8::H);
}

/// AND A, L
pub fn and_a_l(memory: &mut Memory, _value: Void)
    ensures
        final(memory)@ == and_spec(old(memory)@, old(memory)@.read_loc(Loc8::L)),
{
    alu_loc(memory, AluOp::And, Loc8::L);
}

/// AND A, (HL)
pub fn and_a_hl_addr(memory: &mut Memory, _value: Void)
    requires
        old(memory)@.loc_ok(Loc8::HlAddr),
    ensures
        final(memory)@ == and_spec(old(memory)@, old(memory)@.read_loc(Loc8::HlAddr)),
{
    alu_loc(memory, AluOp::And, Loc8::HlAddr);
}

/// OR A, d8
pub fn or_a_d8(memory: &mut Memory, value: Value)
    ensures
        final(memory)@ == or_spec(old(memory)@, value),
{
    or_a_value(memory, value);
}

/// OR A, A
pub fn or_a_a(memory: &mut Memory, _value: Void)
    ensures
        final(memory)@ == or_spec(old(memory)@, old(memory)@.read_loc(Loc8::A)),
{
    alu_loc(memory, AluOp::Or, Loc8::A);
}

/// OR A, B
pub fn or_a_b(memory: &mut Memory, _value: Void)
    ensures
        final(memory)@ == or_spec(old(memory)@, old(memory)@.read_loc(Loc8::B)),
{
    alu_loc(memory, AluOp::Or, Loc8::B);
}

/// OR A, C
pub fn or_a_c(memory: &mut Memory, _value: Void)
    ensures
        final(memory)@ == or_spec(old(memory)@, old(memory)@.read_loc(Loc8::C)),
{
    alu_loc(memory, AluOp::Or, Loc8::C);
}

/// OR A, D
pub fn or_a_d(memory: &mut Memory, _value: Void)
    ensures
        final(memory)@ == or_spec(old(memory)@, old(memory)@.read_loc(Loc8::D)),
{
    alu_loc(memory, AluOp::Or, Loc8::D);
}

/// OR A, E
pub fn or_a_e(memory: &mut Memory, _value: Void)
    ensures
        final(memory)@ == or_spec(old(memory)@, old(memory)@.read_loc(Loc8::E)),
{
    alu_loc(memory, AluOp::Or, Loc8::E);
}

/// OR A, H
pub fn or_a_h(memory: &mut Memory, _value: Void)
    ensures
        final(memory)@ == or_spec(old(memory)@, old(memory)@.read_loc(Loc8::H)),
{
    alu_loc(memory, AluOp::Or, Loc8::H);
}

/// OR A, L
pub fn or_a_l(memory: &mut Memory, _value: Void)
    ensures
        final(memory)@ == or_spec(old(memory)@, old(memory)@.read_loc(Loc8::L)),
{
    alu_loc(memory, AluOp::Or, Loc8::L);
}

/// OR A, (HL)
pub fn or_a_hl_addr(memory: &mut Memory, _value: Void)
    requires
        old(memory)@.loc_ok(Loc8::HlAddr),
    ensures
        final(memory)@ == or_spec(old(memory)@, old(memory)@.read_loc(Loc8::HlAddr)),
{
    alu_loc(memory, AluOp::Or, Loc8::HlAddr);
}

/// XOR A, d8
pub fn xor_a_d8(memory: &mut Memory, value: Value)
    ensures
        final(memory)@ == xor_spec(old(memory)@, value),
{
    xor_a_value(memory, value);
}

/// XOR A, A
pub fn xor_a_a(memory: &mut Memory, _value: Void)
    ensures
        final(memory)@ == xor_spec(old(memory)@, old(memory)@.read_loc(Loc8::A)),
{
    alu_loc(memory, AluOp::Xor, Loc8::A);
}

/// XOR A, B
pub fn xor_a_b(memory: &mut Memory, _value: Void)
    ensures
        final(memory)@ == xor_spec(old(memory)@, old(memory)@.read_loc(Loc8::B)),
{
    alu_loc(memory, AluOp::Xor, Loc8::B);
}

/// XOR A, C
pub fn xor_a_c(memory: &mut Memory, _value: Void)
    ensures
        final(memory)@ == xor_spec(old(memory)@, old(memory)@.read_loc(Loc8::C)),
{
    alu_loc(memory, AluOp::Xor, Loc8::C);
}

/// XOR A, D
pub fn xor_a_d(memory: &mut Memory, _value: Void)
    ensures
        final(memory)@ == xor_spec(old(memory)@, old(memory)@.read_loc(Loc8::D)),
{
    alu_loc(memory, AluOp::Xor, Loc8::D);
}

/// XOR A, E
pub fn xor_a_e(memory: &mut Memory, _value: Void)
    ensures
        final(memory)@ == xor_spec(old(memory)@, old(memory)@.read_loc(Loc8::E)),
{
    alu_loc(memory, AluOp::Xor, Loc8::E);
}

/// XOR A, H
pub fn xor_a_h(memory: &mut Memory, _value: Void)
    ensures
        final(memory)@ == xor_spec(old(memory)@, old(memory)@.read_loc(Loc8::H)),
{
    alu_loc(memory, AluOp::Xor, Loc8::H);
}

/// XOR A, L
pub fn xor_a_l(memory: &mut Memory, _value: Void)
    ensures
        final(memory)@ == xor_spec(old(memory)@, old(memory)@.read_loc(Loc8::L)),
{
    alu_loc(memory, AluOp::Xor, Loc8::L);
}

/// XOR A, (HL)
pub fn xor_a_hl_addr(memory: &mut Memory, _value: Void)
    requires
        old(memory)@.loc_ok(Loc8::HlAddr),
    ensures
        final(memory)@ == xor_spec(old(memory)@, old(memory)@.read_loc(Loc8::HlAddr)),
{
    alu_loc(memory, AluOp::Xor, Loc8::HlAddr);
}

/// CP A, d8
pub fn cp_a_d8(memory: &mut Memory, value: Value)
    ensures
        final(memory)@ == cp_spec(old(memory)@, value),
{
    cp_a_value(memory, value);
}

/// CP A, A
pub fn cp_a_a(memory: &mut Memory, _value: Void)
    ensures
        final(memory)@ == cp_spec(old(memory)@, old(memory)@.read_loc(Loc8::A)),
{
    alu_loc(memory, AluOp::Cp, Loc8::A);
}

/// CP A, B
pub fn cp_a_b(memory: &mut Memory, _value: Void)
    ensures
        final(memory)@ == cp_spec(old(memory)@, old(memory)@.read_loc(Loc8::B)),
{
    alu_loc(memory, AluOp::Cp, Loc8::B);
}

/// CP A, C
pub fn cp_a_c(memory: &mut Memory, _value: Void)
    ensures
        final(memory)@ == cp_spec(old(memory)@, old(memory)@.read_loc(Loc8::C)),
{
    alu_loc(memory, AluOp::Cp, Loc8::C);
}

/// CP A, D
pub fn cp_a_d(memory: &mut Memory, _value: Void)
    ensures
        final(memory)@ == cp_spec(old(memory)@, old(memory)@.read_loc(Loc8::D)),
{
    alu_loc(memory, AluOp::Cp, Loc8::D);
}

/// CP A, E
pub fn cp_a_e(memory: &mut Memory, _value: Void)
    ensures
        final(memory)@ == cp_spec(old(memory)@, old(memory)@.read_loc(Loc8::E)),
{
    alu_loc(memory, AluOp::Cp, Loc8::E);
}

/// CP A, H
pub fn cp_a_h(memory: &mut Memory, _value: Void)
    ensures
        final(memory)@ == cp_spec(old(memory)@, old(memory)@.read_loc(Loc8::H)),
{
    alu_loc(memory, AluOp::Cp, Loc8::H);
}

/// CP A, L
pub fn cp_a_l(memory: &mut Memory, _value: Void)
    ensures
        final(memory)@ == cp_spec(old(memory)@, old(memory)@.read_loc(Loc8::L)),
{
    alu_loc(memory, AluOp::Cp, Loc8::L);
}

/// CP A, (HL)
pub fn cp_a_hl_addr(memory: &mut Memory, _value: Void)
    requires
        old(memory)@.loc_ok(Loc8::HlAddr),
    ensures
        final(memory)@ == cp_spec(old(memory)@, old(memory)@.read_loc(Loc8::HlAddr)),
{
    alu_loc(memory, AluOp::Cp, Loc8::HlAddr);
}

/// `AND` always sets H and clears N and C; `OR` and `XOR` always clear N,
/// H and C; for all three only Z depends on the operands, and it tells
/// whether the result is 0.
pub proof fn lemma_logical_flags(s: MachineState, v: u8)
    ensures
        and_spec(s, v).registers.half_carry && !and_spec(s, v).registers.carry,
        !and_spec(s, v).registers.subtraction,
        and_spec(s, v).registers.zero == (s.registers.a & v == 0),
        !or_spec(s, v).registers.half_carry && !or_spec(s, v).registers.carry,
        !or_spec(s, v).registers.subtraction,
        or_spec(s, v).registers.zero == (s.registers.a | v == 0),
        !xor_spec(s, v).registers.half_carry && !xor_spec(s, v).registers.carry,
        !xor_spec(s, v).registers.subtraction,
        xor_spec(s, v).registers.zero == (s.registers.a ^ v == 0),
{
}

} // verus!
