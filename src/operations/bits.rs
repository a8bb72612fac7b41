use vstd::prelude::*;

use crate::bits::{bit_of, clear_bit, get_bit, set_bit, swap, with_bit_cleared, with_bit_set};
use crate::memory::{Loc8, MachineState, Memory};
use crate::types::{Value, Void};

verus! {

/// The rotate, shift and swap operations of the prefixed table.
#[derive(Clone, Copy, Debug, PartialEq, Eq, Structural)]
pub enum Shift {
    /// Rotate left; bit 7 goes to bit 0 and to the carry.
    Rlc,
    /// Rotate right; bit 0 goes to bit 7 and to the carry.
    Rrc,
    /// Rotate left through the carry.
    Rl,
    /// Rotate right through the carry.
    Rr,
    /// Shift left; bit 0 becomes 0.
    Sla,
    /// Shift right; bit 7 keeps its value.
    Sra,
    /// Shift right; bit 7 becomes 0.
    Srl,
    /// Exchange the two nibbles.
    Swap,
}

/// The result of `op` on `v` with incoming carry `carry`.
pub open spec fn shift_value(op: Shift, v: u8, carry: bool) -> u8 {
    let c: int = if carry {
        1
    } else {
        0
    };
    (match op {
        Shift::Rlc => (v % 128) * 2 + v / 128,
        Shift::Rrc => v / 2 + (v % 2) * 128,
        Shift::Rl => (v % 128) * 2 + c,
        Shift::Rr => v / 2 + c * 128,
        Shift::Sla => (v % 128) * 2,
        Shift::Sra => v / 2 + (v / 128) * 128,
        Shift::Srl => (v / 2) as int,
        Shift::Swap => (v % 16) * 16 + v / 16,
    }) as u8
}

/// The bit that `op` moves out of `v`, which becomes the carry.
pub open spec fn shift_carry(op: Shift, v: u8) -> bool {
    match op {
        Shift::Rlc | Shift::Rl | Shift::Sla => v >= 128,
        Shift::Rrc | Shift::Rr | Shift::Sra | Shift::Srl => v % 2 == 1,
        Shift::Swap => false,
    }
}

/// The full form of `op` on `loc`: Z from the result, N and H cleared, C
/// from the bit moved out.
pub open spec fn shift_spec(s: MachineState, op: Shift, loc: Loc8) -> MachineState {
    let v = s.read_loc(loc);
    let r = shift_value(op, v, s.registers.carry);
    s.write_loc(loc, r).with_flags(r == 0, false, false, shift_carry(op, v))
}

/// The accumulator short form of `op` (`RLCA`, `RRCA`, `RLA`, `RRA`): as the
/// full form on `A`, but Z is always cleared.
pub open spec fn shift_a_spec(s: MachineState, op: Shift) -> MachineState {
    let v = s.registers.a;
    s.write_loc(Loc8::A, shift_value(op, v, s.registers.carry)).with_flags(false, false, false, shift_carry(op, v))
}

/// `BIT index, loc`: Z is the complement of the bit, N cleared, H set, C
/// kept; the operand is not changed.
pub open spec fn bit_spec(s: MachineState, index: usize, loc: Loc8) -> MachineState {
    s.with_flags(!bit_of(s.read_loc(loc), index), false, true, s.registers.carry)
}

/// `RES index, loc`: the bit cleared, no flag changes.
pub open spec fn res_spec(s: MachineState, index: usize, loc: Loc8) -> MachineState {
    s.write_loc(loc, with_bit_cleared(s.read_loc(loc), index))
}

/// `SET index, loc`: the bit set, no flag changes.
pub open spec fn set_spec(s: MachineState, index: usize, loc: Loc8) -> MachineState {
    s.write_loc(loc, with_bit_set(s.read_loc(loc), index))
}

/// Computes `op` on `value` with incoming carry `carry`: the result and the
/// bit moved out.
pub fn shift_byte(op: Shift, value: Value, carry: bool) -> (r: (Value, bool))
    ensures
        r.0 == shift_value(op, value, carry),
        r.1 == shift_carry(op, value),
{
    let c: u8 = if carry { 1 } else { 0 };
    let top = value / 128;
    let bottom = value % 2;
    match op {
        Shift::Rlc => ((value % 128) * 2 + top, top == 1),
        Shift::Rrc => (value / 2 + bottom * 128, bottom == 1),
        Shift::Rl => ((value % 128) * 2 + c, top == 1),
        Shift::Rr => (value / 2 + c * 128, bottom == 1),
        Shift::Sla => ((value % 128) * 2, top == 1),
        Shift::Sra => (value / 2 + top * 128, bottom == 1),
        Shift::Srl => (value / 2, bottom == 1),
        Shift::Swap => (swap(value), false),
    }
}

/// Runs the full form of `op` on `loc`.
pub fn shift_loc(memory: &mut Memory, op: Shift, loc: Loc8)
    requires
        old(memory)@.loc_ok(loc),
    ensures
        final(memory)@ == shift_spec(old(memory)@, op, loc),
{
    let old_value = memory.read_loc(loc);
    let (new_value, popped) = shift_byte(op, old_value, memory.registers.get_carry_flag());
    memory.write_loc(loc, new_value);
    memory.set_flags(new_value == 0, false, false, popped);
}

/// Runs the accumulator short form of `op`.
pub fn shift_a(memory: &mut Memory, op: Shift)
    ensures
        final(memory)@ == shift_a_spec(old(memory)@, op),
{
    let old_value = memory.registers.get_a();
    let (new_value, popped) = shift_byte(op, old_value, memory.registers.get_carry_flag());
    memory.registers.set_a(new_value);
    memory.set_flags(false, false, false, popped);
}

/// Tests bit `index` of `loc`.
pub fn bit_loc(memory: &mut Memory, index: usize, loc: Loc8)
    requires
        index < 8,
        old(memory)@.loc_ok(loc),
    ensures
        final(memory)@ == bit_spec(old(memory)@, index, loc),
{
    let value = memory.read_loc(loc);
    let popped_bit = get_bit(value, index);
    memory.registers.set_zero_flag(!popped_bit);
    memory.registers.set_subtraction_flag(false);
    memory.registers.set_half_carry_flag(true);
}

/// Clears bit `index` of `loc`.
pub fn res_loc(memory: &mut Memory, index: usize, loc: Loc8)
    requires
        index < 8,
        old(memory)@.loc_ok(loc),
    ensures
        final(memory)@ == res_spec(old(memory)@, index, loc),
{
    let value = memory.read_loc(loc);
    memory.write_loc(loc, clear_bit(value, index));
}

/// Sets bit `index` of `loc`.
pub fn set_loc(memory: &mut Memory, index: usize, loc: Loc8)
    requires
        index < 8,
        old(memory)@.loc_ok(loc),
    ensures
        final(memory)@ == set_spec(old(memory)@, index, loc),
{
    let value = memory.read_loc(loc);
    memory.write_loc(loc, set_bit(value, index));
}

/// RLA
pub fn rla(memory: &mut Memory, _value: Void)
    ensures
        final(memory)@ == shift_a_spec(old(memory)@, Shift::Rl),
{
    shift_a(memory, Shift::Rl);
}

/// RLCA
pub fn rlca(memory: &mut Memory, _value: Void)
    ensures
        final(memory)@ == shift_a_spec(old(memory)@, Shift::Rlc),
{
    shift_a(memory, Shift::Rlc);
}

/// RRA
pub fn rra(memory: &mut Memory, _value: Void)
    ensures
        final(memory)@ == shift_a_spec(old(memory)@, Shift::Rr),
{
    shift_a(memory, Shift::Rr);
}

/// RRCA
pub fn rrca(memory: &mut Memory, _value: Void)
    ensures
        final(memory)@ == shift_a_spec(old(memory)@, Shift::Rrc),
{
    shift_a(memory, Shift::Rrc);
}

/// RL A
pub fn rl_a(memory: &mut Memory, _value: Void)
    ensures
        final(memory)@ == shift_spec(old(memory)@, Shift::Rl, Loc8::A),
{
    shift_loc(memory, Shift::Rl, Loc8::A);
}

/// RLC A
pub fn rlc_a(memory: &mut Memory, _value: Void)
    ensures
        final(memory)@ == shift_spec(old(memory)@, Shift::Rlc, Loc8::A),
{
    shift_loc(memory, Shift::Rlc, Loc8::A);
}

/// RR A
pub fn rr_a(memory: &mut Memory, _value: Void)
    ensures
        final(memory)@ == shift_spec(old(memory)@, Shift::Rr, Loc8::A),
{
    shift_loc(memory, Shift::Rr, Loc8::A);
}

/// RRC A
pub fn rrc_a(memory: &mut Memory, _value: Void)
    ensures
        final(memory)@ == shift_spec(old(memory)@, Shift::Rrc, Loc8::A),
{
    shift_loc(memory, Shift::Rrc, Loc8::A);
}

/// RL B
pub fn rl_b(memory: &mut Memory, _value: Void)
    ensures
        final(memory)@ == shift_spec(old(memory)@, Shift::Rl, Loc8::B),
{
    shift_loc(memory, Shift::Rl, Loc8::B);
}

/// RLC B
pub fn rlc_b(memory: &mut Memory, _value: Void)
    ensures
        final(memory)@ == shift_spec(old(memory)@, Shift::Rlc, Loc8::B),
{
    shift_loc(memory, Shift::Rlc, Loc8::B);
}

/// RR B
pub fn rr_b(memory: &mut Memory, _value: Void)
    ensures
        final(memory)@ == shift_spec(old(memory)@, Shift::Rr, Loc8::B),
{
    shift_loc(memory, Shift::Rr, Loc8::B);
}

/// RRC B
pub fn rrc_b(memory: &mut Memory, _value: Void)
    ensures
        final(memory)@ == shift_spec(old(memory)@, Shift::Rrc, Loc8::B),
{
    shift_loc(memory, Shift::Rrc, Loc8::B);
}

/// RL C
pub fn rl_c(memory: &mut Memory, _value: Void)
    ensures
        final(memory)@ == shift_spec(old(memory)@, Shift::Rl, Loc8::C),
{
    shift_loc(memory, Shift::Rl, Loc8::C);
}

/// RLC C
pub fn rlc_c(memory: &mut Memory, _value: Void)
    ensures
        final(memory)@ == shift_spec(old(memory)@, Shift::Rlc, Loc8::C),
{
    shift_loc(memory, Shift::Rlc, Loc8::C);
}

/// RR C
pub fn rr_c(memory: &mut Memory, _value: Void)
    ensures
        final(memory)@ == shift_spec(old(memory)@, Shift::Rr, Loc8::C),
{
    shift_loc(memory, Shift::Rr, Loc8::C);
}

/// RRC C
pub fn rrc_c(memory: &mut Memory, _value: Void)
    ensures
        final(memory)@ == shift_spec(old(memory)@, Shift::Rrc, Loc8::C),
{
    shift_loc(memory, Shift::Rrc, Loc8::C);
}

/// RL D
pub fn rl_d(memory: &mut Memory, _value: Void)
    ensures
        final(memory)@ == shift_spec(old(memory)@, Shift::Rl, Loc8::D),
{
    shift_loc(memory, Shift::Rl, Loc8::D);
}

/// RLC D
pub fn rlc_d(memory: &mut Memory, _value: Void)
    ensures
        final(memory)@ == shift_spec(old(memory)@, Shift::Rlc, Loc8::D),
{
    shift_loc(memory, Shift::Rlc, Loc8::D);
}

/// RR D
pub fn rr_d(memory: &mut Memory, _value: Void)
    ensures
        final(memory)@ == shift_spec(old(memory)@, Shift::Rr, Loc8::D),
{
    shift_loc(memory, Shift::Rr, Loc8::D);
}

/// RRC D
pub fn rrc_d(memory: &mut Memory, _value: Void)
    ensures
        final(memory)@ == shift_spec(old(memory)@, Shift::Rrc, Loc8::D),
{
    shift_loc(memory, Shift::Rrc, Loc8::D);
}

/// RL E
pub fn rl_e(memory: &mut Memory, _value: Void)
    ensures
        final(memory)@ == shift_spec(old(memory)@, Shift::Rl, Loc8::E),
{
    shift_loc(memory, Shift::Rl, Loc8::E);
}

/// RLC E
pub fn rlc_e(memory: &mut Memory, _value: Void)
    ensures
        final(memory)@ == shift_spec(old(memory)@, Shift::Rlc, Loc8::E),
{
    shift_loc(memory, Shift::Rlc, Loc8::E);
}

/// RR E
pub fn rr_e(memory: &mut Memory, _value: Void)
    ensures
        final(memory)@ == shift_spec(old(memory)@, Shift::Rr, Loc8::E),
{
    shift_loc(memory, Shift::Rr, Loc8::E);
}

/// RRC E
pub fn rrc_e(memory: &mut Memory, _value: Void)
    ensures
        final(memory)@ == shift_spec(old(memory)@, Shift::Rrc, Loc8::E),
{
    shift_loc(memory, Shift::Rrc, Loc8::E);
}

/// RL H
pub fn rl_h(memory: &mut Memory, _value: Void)
    ensures
        final(memory)@ == shift_spec(old(memory)@, Shift::Rl, Loc8::H),
{
    shift_loc(memory, Shift::Rl, Loc8::H);
}

/// RLC H
pub fn rlc_h(memory: &mut Memory, _value: Void)
    ensures
        final(memory)@ == shift_spec(old(memory)@, Shift::Rlc, Loc8::H),
{
    shift_loc(memory, Shift::Rlc, Loc8::H);
}

/// RR H
pub fn rr_h(memory: &mut Memory, _value: Void)
    ensures
        final(memory)@ == shift_spec(old(memory)@, Shift::Rr, Loc8::H),
{
    shift_loc(memory, Shift::Rr, Loc8::H);
}

/// RRC H
pub fn rrc_h(memory: &mut Memory, _value: Void)
    ensures
        final(memory)@ == shift_spec(old(memory)@, Shift::Rrc, Loc8::H),
{
    shift_loc(memory, Shift::Rrc, Loc8::H);
}

/// RL L
pub fn rl_l(memory: &mut Memory, _value: Void)
    ensures
        final(memory)@ == shift_spec(old(memory)@, Shift::Rl, Loc8::L),
{
    shift_loc(memory, Shift::Rl, Loc8::L);
}

/// RLC L
pub fn rlc_l(memory: &mut Memory, _value: Void)
    ensures
        final(memory)@ == shift_spec(old(memory)@, Shift::Rlc, Loc8::L),
{
    shift_loc(memory, Shift::Rlc, Loc8::L);
}

/// RR L
pub fn rr_l(memory: &mut Memory, _value: Void)
    ensures
        final(memory)@ == shift_spec(old(memory)@, Shift::Rr, Loc8::L),
{
    shift_loc(memory, Shift::Rr, Loc8::L);
}

/// RRC L
pub fn rrc_l(memory: &mut Memory, _value: Void)
    ensures
        final(memory)@ == shift_spec(old(memory)@, Shift::Rrc, Loc8::L),
{
    shift_loc(memory, Shift::Rrc, Loc8::L);
}

/// RL (HL)
pub fn rl_hl_addr(memory: &mut Memory, _value: Void)
    requires
        old(memory)@.loc_ok(Loc8::HlAddr),
    ensures
        final(memory)@ == shift_spec(old(memory)@, Shift::Rl, Loc8::HlAddr),
{
    shift_loc(memory, Shift::Rl, Loc8::HlAddr);
}

/// RLC (HL)
pub fn rlc_hl_addr(memory: &mut Memory, _value: Void)
    requires
        old(memory)@.loc_ok(Loc8::HlAddr),
    ensures
        final(memory)@ == shift_spec(old(memory)@, Shift::Rlc, Loc8::HlAddr),
{
    shift_loc(memory, Shift::Rlc, Loc8::HlAddr);
}

/// RR (HL)
pub fn rr_hl_addr(memory: &mut Memory, _value: Void)
    requires
        old(memory)@.loc_ok(Loc8::HlAddr),
    ensures
        final(memory)@ == shift_spec(old(memory)@, Shift::Rr, Loc8::HlAddr),
{
    shift_loc(memory, Shift::Rr, Loc8::HlAddr);
}

/// RRC (HL)
pub fn rrc_hl_addr(memory: &mut Memory, _value: Void)
    requires
        old(memory)@.loc_ok(Loc8::HlAddr),
    ensures
        final(memory)@ == shift_spec(old(memory)@, Shift::Rrc, Loc8::HlAddr),
{
    shift_loc(memory, Shift::Rrc, Loc8::HlAddr);
}

/// SLA A
pub fn sla_a(memory: &mut Memory, _value: Void)
    ensures
        final(memory)@ == shift_spec(old(memory)@, Shift::Sla, Loc8::A),
{
    shift_loc(memory, Shift::Sla, Loc8::A);
}

/// SRA A
pub fn sra_a(memory: &mut Memory, _value: Void)
    ensures
        final(memory)@ == shift_spec(old(memory)@, Shift::Sra, Loc8::A),
{
    shift_loc(memory, Shift::Sra, Loc8::A);
}

/// SRL A
pub fn srl_a(memory: &mut Memory, _value: Void)
    ensures
        final(memory)@ == shift_spec(old(memory)@, Shift::Srl, Loc8::A),
{
    shift_loc(memory, Shift::Srl, Loc8::A);
}

/// SLA B
pub fn sla_b(memory: &mut Memory, _value: Void)
    ensures
        final(memory)@ == shift_spec(old(memory)@, Shift::Sla, Loc8::B),
{
    shift_loc(memory, Shift::Sla, Loc8::B);
}

/// SRA B
pub fn sra_b(memory: &mut Memory, _value: Void)
    ensures
        final(memory)@ == shift_spec(old(memory)@, Shift::Sra, Loc8::B),
{
    shift_loc(memory, Shift::Sra, Loc8::B);
}

/// SRL B
pub fn srl_b(memory: &mut Memory, _value: Void)
    ensures
        final(memory)@ == shift_spec(old(memory)@, Shift::Srl, Loc8::B),
{
    shift_loc(memory, Shift::Srl, Loc8::B);
}

/// SLA C
pub fn sla_c(memory: &mut Memory, _value: Void)
    ensures
        final(memory)@ == shift_spec(old(memory)@, Shift::Sla, Loc8::C),
{
    shift_loc(memory, Shift::Sla, Loc8::C);
}

/// SRA C
pub fn sra_c(memory: &mut Memory, _value: Void)
    ensures
        final(memory)@ == shift_spec(old(memory)@, Shift::Sra, Loc8::C),
{
    shift_loc(memory, Shift::Sra, Loc8::C);
}

/// SRL C
pub fn srl_c(memory: &mut Memory, _value: Void)
    ensures
        final(memory)@ == shift_spec(old(memory)@, Shift::Srl, Loc8::C),
{
    shift_loc(memory, Shift::Srl, Loc8::C);
}

/// SLA D
pub fn sla_d(memory: &mut Memory, _value: Void)
    ensures
        final(memory)@ == shift_spec(old(memory)@, Shift::Sla, Loc8::D),
{
    shift_loc(memory, Shift::Sla, Loc8::D);
}

/// SRA D
pub fn sra_d(memory: &mut Memory, _value: Void)
    ensures
        final(memory)@ == shift_spec(old(memory)@, Shift::Sra, Loc8::D),
{
    shift_loc(memory, Shift::Sra, Loc8::D);
}

/// SRL D
pub fn srl_d(memory: &mut Memory, _value: Void)
    ensures
        final(memory)@ == shift_spec(old(memory)@, Shift::Srl, Loc8::D),
{
    shift_loc(memory, Shift::Srl, Loc8::D);
}

/// SLA E
pub fn sla_e(memory: &mut Memory, _value: Void)
    ensures
        final(memory)@ == shift_spec(old(memory)@, Shift::Sla, Loc8::E),
{
    shift_loc(memory, Shift::Sla, Loc8::E);
}

/// SRA E
pub fn sra_e(memory: &mut Memory, _value: Void)
    ensures
        final(memory)@ == shift_spec(old(memory)@, Shift::Sra, Loc8::E),
{
    shift_loc(memory, Shift::Sra, Loc8::E);
}

/// SRL E
pub fn srl_e(memory: &mut Memory, _value: Void)
    ensures
        final(memory)@ == shift_spec(old(memory)@, Shift::Srl, Loc8::E),
{
    shift_loc(memory, Shift::Srl, Loc8::E);
}

/// SLA H
pub fn sla_h(memory: &mut Memory, _value: Void)
    ensures
        final(memory)@ == shift_spec(old(memory)@, Shift::Sla, Loc8::H),
{
    shift_loc(memory, Shift::Sla, Loc8::H);
}

/// SRA H
pub fn sra_h(memory: &mut Memory, _value: Void)
    ensures
        final(memory)@ == shift_spec(old(memory)@, Shift::Sra, Loc8::H),
{
    shift_loc(memory, Shift::Sra, Loc8::H);
}

/// SRL H
pub fn srl_h(memory: &mut Memory, _value: Void)
    ensures
        final(memory)@ == shift_spec(old(memory)@, Shift::Srl, Loc8::H),
{
    shift_loc(memory, Shift::Srl, Loc8::H);
}

/// SLA L
pub fn sla_l(memory: &mut Memory, _value: Void)
    ensures
        final(memory)@ == shift_spec(old(memory)@, Shift::Sla, Loc8::L),
{
    shift_loc(memory, Shift::Sla, Loc8::L);
}

/// SRA L
pub fn sra_l(memory: &mut Memory, _value: Void)
    ensures
        final(memory)@ == shift_spec(old(memory)@, Shift::Sra, Loc8::L),
{
    shift_loc(memory, Shift::Sra, Loc8::L);
}

/// SRL L
pub fn srl_l(memory: &mut Memory, _value: Void)
    ensures
        final(memory)@ == shift_spec(old(memory)@, Shift::Srl, Loc8::L),
{
    shift_loc(memory, Shift::Srl, Loc8::L);
}

/// SLA (HL)
pub fn sla_hl_addr(memory: &mut Memory, _value: Void)
    requires
        old(memory)@.loc_ok(Loc8::HlAddr),
    ensures
        final(memory)@ == shift_spec(old(memory)@, Shift::Sla, Loc8::HlAddr),
{
    shift_loc(memory, Shift::Sla, Loc8::HlAddr);
}

/// SRA (HL)
pub fn sra_hl_addr(memory: &mut Memory, _value: Void)
    requires
        old(memory)@.loc_ok(Loc8::HlAddr),
    ensures
        final(memory)@ == shift_spec(old(memory)@, Shift::Sra, Loc8::HlAddr),
{
    shift_loc(memory, Shift::Sra, Loc8::HlAddr);
}

/// SRL (HL)
pub fn srl_hl_addr(memory: &mut Memory, _value: Void)
    requires
        old(memory)@.loc_ok(Loc8::HlAddr),
    ensures
        final(memory)@ == shift_spec(old(memory)@, Shift::Srl, Loc8::HlAddr),
{
    shift_loc(memory, Shift::Srl, Loc8::HlAddr);
}

/// SWAP A
pub fn swap_a(memory: &mut Memory, _value: Void)
    ensures
        final(memory)@ == shift_spec(old(memory)@, Shift::Swap, Loc8::A),
{
    shift_loc(memory, Shift::Swap, Loc8::A);
}

/// SWAP B
pub fn swap_b(memory: &mut Memory, _value: Void)
    ensures
        final(memory)@ == shift_spec(old(memory)@, Shift::Swap, Loc8::B),
{
    shift_loc(memory, Shift::Swap, Loc8::B);
}

/// SWAP C
pub fn swap_c(memory: &mut Memory, _value: Void)
    ensures
        final(memory)@ == shift_spec(old(memory)@, Shift::Swap, Loc8::C),
{
    shift_loc(memory, Shift::Swap, Loc8::C);
}

/// SWAP D
pub fn swap_d(memory: &mut Memory, _value: Void)
    ensures
        final(memory)@ == shift_spec(old(memory)@, Shift::Swap, Loc8::D),
{
    shift_loc(memory, Shift::Swap, Loc8::D);
}

/// SWAP E
pub fn swap_e(memory: &mut Memory, _value: Void)
    ensures
        final(memory)@ == shift_spec(old(memory)@, Shift::Swap, Loc8::E),
{
    shift_loc(memory, Shift::Swap, Loc8::E);
}

/// SWAP H
pub fn swap_h(memory: &mut Memory, _value: Void)
    ensures
        final(memory)@ == shift_spec(old(memory)@, Shift::Swap, Loc8::H),
{
    shift_loc(memory, Shift::Swap, Loc8::H);
}

/// SWAP L
pub fn swap_l(memory: &mut Memory, _value: Void)
    ensures
        final(memory)@ == shift_spec(old(memory)@, Shift::Swap, Loc8::L),
{
    shift_loc(memory, Shift::Swap, Loc8::L);
}

/// SWAP (HL)
pub fn swap_hl_addr(memory: &mut Memory, _value: Void)
    requires
        old(memory)@.loc_ok(Loc8::HlAddr),
    ensures
        final(memory)@ == shift_spec(old(memory)@, Shift::Swap, Loc8::HlAddr),
{
    shift_loc(memory, Shift::Swap, Loc8::HlAddr);
}

/// BIT 0, A
pub fn bit_0_a(memory: &mut Memory, _value: Void)
    ensures
        final(memory)@ == bit_spec(old(memory)@, 0, Loc8::A),
{
    bit_loc(memory, 0, Loc8::A);
}

/// BIT 1, A
pub fn bit_1_a(memory: &mut Memory, _value: Void)
    ensures
        final(memory)@ == bit_spec(old(memory)@, 1, Loc8::A),
{
    bit_loc(memory, 1, Loc8::A);
}

/// BIT 2, A
pub fn bit_2_a(memory: &mut Memory, _value: Void)
    ensures
        final(memory)@ == bit_spec(old(memory)@, 2, Loc8::A),
{
    bit_loc(memory, 2, Loc8::A);
}

/// BIT 3, A
pub fn bit_3_a(memory: &mut Memory, _value: Void)
    ensures
        final(memory)@ == bit_spec(old(memory)@, 3, Loc8::A),
{
    bit_loc(memory, 3, Loc8::A);
}

/// BIT 4, A
pub fn bit_4_a(memory: &mut Memory, _value: Void)
    ensures
        final(memory)@ == bit_spec(old(memory)@, 4, Loc8::A),
{
    bit_loc(memory, 4, Loc8::A);
}

/// BIT 5, A
pub fn bit_5_a(memory: &mut Memory, _value: Void)
    ensures
        final(memory)@ == bit_spec(old(memory)@, 5, Loc8::A),
{
    bit_loc(memory, 5, Loc8::A);
}

/// BIT 6, A
pub fn bit_6_a(memory: &mut Memory, _value: Void)
    ensures
        final(memory)@ == bit_spec(old(memory)@, 6, Loc8::A),
{
    bit_loc(memory, 6, Loc8::A);
}

/// BIT 7, A
pub fn bit_7_a(memory: &mut Memory, _value: Void)
    ensures
        final(memory)@ == bit_spec(old(memory)@, 7, Loc8::A),
{
    bit_loc(memory, 7, Loc8::A);
}

/// BIT 0, B
pub fn bit_0_b(memory: &mut Memory, _value: Void)
    ensures
        final(memory)@ == bit_spec(old(memory)@, 0, Loc8::B),
{
    bit_loc(memory, 0, Loc8::B);
}

/// BIT 1, B
pub fn bit_1_b(memory: &mut Memory, _value: Void)
    ensures
        final(memory)@ == bit_spec(old(memory)@, 1, Loc8::B),
{
    bit_loc(memory, 1, Loc8::B);
}

/// BIT 2, B
pub fn bit_2_b(memory: &mut Memory, _value: Void)
    ensures
        final(memory)@ == bit_spec(old(memory)@, 2, Loc8::B),
{
    bit_loc(memory, 2, Loc8::B);
}

/// BIT 3, B
pub fn bit_3_b(memory: &mut Memory, _value: Void)
    ensures
        final(memory)@ == bit_spec(old(memory)@, 3, Loc8::B),
{
    bit_loc(memory, 3, Loc8::B);
}

/// BIT 4, B
pub fn bit_4_b(memory: &mut Memory, _value: Void)
    ensures
        final(memory)@ == bit_spec(old(memory)@, 4, Loc8::B),
{
    bit_loc(memory, 4, Loc8::B);
}

/// BIT 5, B
pub fn bit_5_b(memory: &mut Memory, _value: Void)
    ensures
        final(memory)@ == bit_spec(old(memory)@, 5, Loc8::B),
{
    bit_loc(memory, 5, Loc8::B);
}

/// BIT 6, B
pub fn bit_6_b(memory: &mut Memory, _value: Void)
    ensures
        final(memory)@ == bit_spec(old(memory)@, 6, Loc8::B),
{
    bit_loc(memory, 6, Loc8::B);
}

/// BIT 7, B
pub fn bit_7_b(memory: &mut Memory, _value: Void)
    ensures
        final(memory)@ == bit_spec(old(memory)@, 7, Loc8::B),
{
    bit_loc(memory, 7, Loc8::B);
}

/// BIT 0, C
pub fn bit_0_c(memory: &mut Memory, _value: Void)
    ensures
        final(memory)@ == bit_spec(old(memory)@, 0, Loc8::C),
{
    bit_loc(memory, 0, Loc8::C);
}

/// BIT 1, C
pub fn bit_1_c(memory: &mut Memory, _value: Void)
    ensures
        final(memory)@ == bit_spec(old(memory)@, 1, Loc8::C),
{
    bit_loc(memory, 1, Loc8::C);
}

/// BIT 2, C
pub fn bit_2_c(memory: &mut Memory, _value: Void)
    ensures
        final(memory)@ == bit_spec(old(memory)@, 2, Loc8::C),
{
    bit_loc(memory, 2, Loc8::C);
}

/// BIT 3, C
pub fn bit_3_c(memory: &mut Memory, _value: Void)
    ensures
        final(memory)@ == bit_spec(old(memory)@, 3, Loc8::C),
{
    bit_loc(memory, 3, Loc8::C);
}

/// BIT 4, C
pub fn bit_4_c(memory: &mut Memory, _value: Void)
    ensures
        final(memory)@ == bit_spec(old(memory)@, 4, Loc8::C),
{
    bit_loc(memory, 4, Loc8::C);
}

/// BIT 5, C
pub fn bit_5_c(memory: &mut Memory, _value: Void)
    ensures
        final(memory)@ == bit_spec(old(memory)@, 5, Loc8::C),
{
    bit_loc(memory, 5, Loc8::C);
}

/// BIT 6, C
pub fn bit_6_c(memory: &mut Memory, _value: Void)
    ensures
        final(memory)@ == bit_spec(old(memory)@, 6, Loc8::C),
{
    bit_loc(memory, 6, Loc8::C);
}

/// BIT 7, C
pub fn bit_7_c(memory: &mut Memory, _value: Void)
    ensures
        final(memory)@ == bit_spec(old(memory)@, 7, Loc8::C),
{
    bit_loc(memory, 7, Loc8::C);
}

/// BIT 0, D
pub fn bit_0_d(memory: &mut Memory, _value: Void)
    ensures
        final(memory)@ == bit_spec(old(memory)@, 0, Loc8::D),
{
    bit_loc(memory, 0, Loc8::D);
}

/// BIT 1, D
pub fn bit_1_d(memory: &mut Memory, _value: Void)
    ensures
        final(memory)@ == bit_spec(old(memory)@, 1, Loc8::D),
{
    bit_loc(memory, 1, Loc8::D);
}

/// BIT 2, D
pub fn bit_2_d(memory: &mut Memory, _value: Void)
    ensures
        final(memory)@ == bit_spec(old(memory)@, 2, Loc8::D),
{
    bit_loc(memory, 2, Loc8::D);
}

/// BIT 3, D
pub fn bit_3_d(memory: &mut Memory, _value: Void)
    ensures
        final(memory)@ == bit_spec(old(memory)@, 3, Loc8::D),
{
    bit_loc(memory, 3, Loc8::D);
}

/// BIT 4, D
pub fn bit_4_d(memory: &mut Memory, _value: Void)
    ensures
        final(memory)@ == bit_spec(old(memory)@, 4, Loc8::D),
{
    bit_loc(memory, 4, Loc8::D);
}

/// BIT 5, D
pub fn bit_5_d(memory: &mut Memory, _value: Void)
    ensures
        final(memory)@ == bit_spec(old(memory)@, 5, Loc8::D),
{
    bit_loc(memory, 5, Loc8::D);
}

/// BIT 6, D
pub fn bit_6_d(memory: &mut Memory, _value: Void)
    ensures
        final(memory)@ == bit_spec(old(memory)@, 6, Loc8::D),
{
    bit_loc(memory, 6, Loc8::D);
}

/// BIT 7, D
pub fn bit_7_d(memory: &mut Memory, _value: Void)
    ensures
        final(memory)@ == bit_spec(old(memory)@, 7, Loc8::D),
{
    bit_loc(memory, 7, Loc8::D);
}

/// BIT 0, E
pub fn bit_0_e(memory: &mut Memory, _value: Void)
    ensures
        final(memory)@ == bit_spec(old(memory)@, 0, Loc8::E),
{
    bit_loc(memory, 0, Loc8::E);
}

/// BIT 1, E
pub fn bit_1_e(memory: &mut Memory, _value: Void)
    ensures
        final(memory)@ == bit_spec(old(memory)@, 1, Loc8::E),
{
    bit_loc(memory, 1, Loc8::E);
}

/// BIT 2, E
pub fn bit_2_e(memory: &mut Memory, _value: Void)
    ensures
        final(memory)@ == bit_spec(old(memory)@, 2, Loc8::E),
{
    bit_loc(memory, 2, Loc8::E);
}

/// BIT 3, E
pub fn bit_3_e(memory: &mut Memory, _value: Void)
    ensures
        final(memory)@ == bit_spec(old(memory)@, 3, Loc8::E),
{
    bit_loc(memory, 3, Loc8::E);
}

/// BIT 4, E
pub fn bit_4_e(memory: &mut Memory, _value: Void)
    ensures
        final(memory)@ == bit_spec(old(memory)@, 4, Loc8::E),
{
    bit_loc(memory, 4, Loc8::E);
}

/// BIT 5, E
pub fn bit_5_e(memory: &mut Memory, _value: Void)
    ensures
        final(memory)@ == bit_spec(old(memory)@, 5, Loc8::E),
{
    bit_loc(memory, 5, Loc8::E);
}

/// BIT 6, E
pub fn bit_6_e(memory: &mut Memory, _value: Void)
    ensures
        final(memory)@ == bit_spec(old(memory)@, 6, Loc8::E),
{
    bit_loc(memory, 6, Loc8::E);
}

/// BIT 7, E
pub fn bit_7_e(memory: &mut Memory, _value: Void)
    ensures
        final(memory)@ == bit_spec(old(memory)@, 7, Loc8::E),
{
    bit_loc(memory, 7, Loc8::E);
}

/// BIT 0, H
pub fn bit_0_h(memory: &mut Memory, _value: Void)
    ensures
        final(memory)@ == bit_spec(old(memory)@, 0, Loc8::H),
{
    bit_loc(memory, 0, Loc8::H);
}

/// BIT 1, H
pub fn bit_1_h(memory: &mut Memory, _value: Void)
    ensures
        final(memory)@ == bit_spec(old(memory)@, 1, Loc8::H),
{
    bit_loc(memory, 1, Loc8::H);
}

/// BIT 2, H
pub fn bit_2_h(memory: &mut Memory, _value: Void)
    ensures
        final(memory)@ == bit_spec(old(memory)@, 2, Loc8::H),
{
    bit_loc(memory, 2, Loc8::H);
}

/// BIT 3, H
pub fn bit_3_h(memory: &mut Memory, _value: Void)
    ensures
        final(memory)@ == bit_spec(old(memory)@, 3, Loc8::H),
{
    bit_loc(memory, 3, Loc8::H);
}

/// BIT 4, H
pub fn bit_4_h(memory: &mut Memory, _value: Void)
    ensures
        final(memory)@ == bit_spec(old(memory)@, 4, Loc8::H),
{
    bit_loc(memory, 4, Loc8::H);
}

/// BIT 5, H
pub fn bit_5_h(memory: &mut Memory, _value: Void)
    ensures
        final(memory)@ == bit_spec(old(memory)@, 5, Loc8::H),
{
    bit_loc(memory, 5, Loc8::H);
}

/// BIT 6, H
pub fn bit_6_h(memory: &mut Memory, _value: Void)
    ensures
        final(memory)@ == bit_spec(old(memory)@, 6, Loc8::H),
{
    bit_loc(memory, 6, Loc8::H);
}

/// BIT 7, H
pub fn bit_7_h(memory: &mut Memory, _value: Void)
    ensures
        final(memory)@ == bit_spec(old(memory)@, 7, Loc8::H),
{
    bit_loc(memory, 7, Loc8::H);
}

/// BIT 0, L
pub fn bit_0_l(memory: &mut Memory, _value: Void)
    ensures
        final(memory)@ == bit_spec(old(memory)@, 0, Loc8::L),
{
    bit_loc(memory, 0, Loc8::L);
}

/// BIT 1, L
pub fn bit_1_l(memory: &mut Memory, _value: Void)
    ensures
        final(memory)@ == bit_spec(old(memory)@, 1, Loc8::L),
{
    bit_loc(memory, 1, Loc8::L);
}

/// BIT 2, L
pub fn bit_2_l(memory: &mut Memory, _value: Void)
    ensures
        final(memory)@ == bit_spec(old(memory)@, 2, Loc8::L),
{
    bit_loc(memory, 2, Loc8::L);
}

/// BIT 3, L
pub fn bit_3_l(memory: &mut Memory, _value: Void)
    ensures
        final(memory)@ == bit_spec(old(memory)@, 3, Loc8::L),
{
    bit_loc(memory, 3, Loc8::L);
}

/// BIT 4, L
pub fn bit_4_l(memory: &mut Memory, _value: Void)
    ensures
        final(memory)@ == bit_spec(old(memory)@, 4, Loc8::L),
{
    bit_loc(memory, 4, Loc8::L);
}

/// BIT 5, L
pub fn bit_5_l(memory: &mut Memory, _value: Void)
    ensures
        final(memory)@ == bit_spec(old(memory)@, 5, Loc8::L),
{
    bit_loc(memory, 5, Loc8::L);
}

/// BIT 6, L
pub fn bit_6_l(memory: &mut Memory, _value: Void)
    ensures
        final(memory)@ == bit_spec(old(memory)@, 6, Loc8::L),
{
    bit_loc(memory, 6, Loc8::L);
}

/// BIT 7, L
pub fn bit_7_l(memory: &mut Memory, _value: Void)
    ensures
        final(memory)@ == bit_spec(old(memory)@, 7, Loc8::L),
{
    bit_loc(memory, 7, Loc8::L);
}

/// BIT 0, (HL)
pub fn bit_0_hl_addr(memory: &mut Memory, _value: Void)
    requires
        old(memory)@.loc_ok(Loc8::HlAddr),
    ensures
        final(memory)@ == bit_spec(old(memory)@, 0, Loc8::HlAddr),
{
    bit_loc(memory, 0, Loc8::HlAddr);
}

/// BIT 1, (HL)
pub fn bit_1_hl_addr(memory: &mut Memory, _value: Void)
    requires
        old(memory)@.loc_ok(Loc8::HlAddr),
    ensures
        final(memory)@ == bit_spec(old(memory)@, 1, Loc8::HlAddr),
{
    bit_loc(memory, 1, Loc8::HlAddr);
}

/// BIT 2, (HL)
pub fn bit_2_hl_addr(memory: &mut Memory, _value: Void)
    requires
        old(memory)@.loc_ok(Loc8::HlAddr),
    ensures
        final(memory)@ == bit_spec(old(memory)@, 2, Loc8::HlAddr),
{
    bit_loc(memory, 2, Loc8::HlAddr);
}

/// BIT 3, (HL)
pub fn bit_3_hl_addr(memory: &mut Memory, _value: Void)
    requires
        old(memory)@.loc_ok(Loc8::HlAddr),
    ensures
        final(memory)@ == bit_spec(old(memory)@, 3, Loc8::HlAddr),
{
    bit_loc(memory, 3, Loc8::HlAddr);
}

/// BIT 4, (HL)
pub fn bit_4_hl_addr(memory: &mut Memory, _value: Void)
    requires
        old(memory)@.loc_ok(Loc8::HlAddr),
    ensures
        final(memory)@ == bit_spec(old(memory)@, 4, Loc8::HlAddr),
{
    bit_loc(memory, 4, Loc8::HlAddr);
}

/// BIT 5, (HL)
pub fn bit_5_hl_addr(memory: &mut Memory, _value: Void)
    requires
        old(memory)@.loc_ok(Loc8::HlAddr),
    ensures
        final(memory)@ == bit_spec(old(memory)@, 5, Loc8::HlAddr),
{
    bit_loc(memory, 5, Loc8::HlAddr);
}

/// BIT 6, (HL)
pub fn bit_6_hl_addr(memory: &mut Memory, _value: Void)
    requires
        old(memory)@.loc_ok(Loc8::HlAddr),
    ensures
        final(memory)@ == bit_spec(old(memory)@, 6, Loc8::HlAddr),
{
    bit_loc(memory, 6, Loc8::HlAddr);
}

/// BIT 7, (HL)
pub fn bit_7_hl_addr(memory: &mut Memory, _value: Void)
    requires
        old(memory)@.loc_ok(Loc8::HlAddr),
    ensures
        final(memory)@ == bit_spec(old(memory)@, 7, Loc8::HlAddr),
{
    bit_loc(memory, 7, Loc8::HlAddr);
}

/// RES 0, A
pub fn res_0_a(memory: &mut Memory, _value: Void)
    ensures
        final(memory)@ == res_spec(old(memory)@, 0, Loc8::A),
{
    res_loc(memory, 0, Loc8::A);
}

/// RES 1, A
pub fn res_1_a(memory: &mut Memory, _value: Void)
    ensures
        final(memory)@ == res_spec(old(memory)@, 1, Loc8::A),
{
    res_loc(memory, 1, Loc8::A);
}

/// RES 2, A
pub fn res_2_a(memory: &mut Memory, _value: Void)
    ensures
        final(memory)@ == res_spec(old(memory)@, 2, Loc8::A),
{
    res_loc(memory, 2, Loc8::A);
}

/// RES 3, A
pub fn res_3_a(memory: &mut Memory, _value: Void)
    ensures
        final(memory)@ == res_spec(old(memory)@, 3, Loc8::A),
{
    res_loc(memory, 3, Loc8::A);
}

/// RES 4, A
pub fn res_4_a(memory: &mut Memory, _value: Void)
    ensures
        final(memory)@ == res_spec(old(memory)@, 4, Loc8::A),
{
    res_loc(memory, 4, Loc8::A);
}

/// RES 5, A
pub fn res_5_a(memory: &mut Memory, _value: Void)
    ensures
        final(memory)@ == res_spec(old(memory)@, 5, Loc8::A),
{
    res_loc(memory, 5, Loc8::A);
}

/// RES 6, A
pub fn res_6_a(memory: &mut Memory, _value: Void)
    ensures
        final(memory)@ == res_spec(old(memory)@, 6, Loc8::A),
{
    res_loc(memory, 6, Loc8::A);
}

/// RES 7, A
pub fn res_7_a(memory: &mut Memory, _value: Void)
    ensures
        final(memory)@ == res_spec(old(memory)@, 7, Loc8::A),
{
    res_loc(memory, 7, Loc8::A);
}

/// RES 0, B
pub fn res_0_b(memory: &mut Memory, _value: Void)
    ensures
        final(memory)@ == res_spec(old(memory)@, 0, Loc8::B),
{
    res_loc(memory, 0, Loc8::B);
}

/// RES 1, B
pub fn res_1_b(memory: &mut Memory, _value: Void)
    ensures
        final(memory)@ == res_spec(old(memory)@, 1, Loc8::B),
{
    res_loc(memory, 1, Loc8::B);
}

/// RES 2, B
pub fn res_2_b(memory: &mut Memory, _value: Void)
    ensures
        final(memory)@ == res_spec(old(memory)@, 2, Loc8::B),
{
    res_loc(memory, 2, Loc8::B);
}

/// RES 3, B
pub fn res_3_b(memory: &mut Memory, _value: Void)
    ensures
        final(memory)@ == res_spec(old(memory)@, 3, Loc8::B),
{
    res_loc(memory, 3, Loc8::B);
}

/// RES 4, B
pub fn res_4_b(memory: &mut Memory, _value: Void)
    ensures
        final(memory)@ == res_spec(old(memory)@, 4, Loc8::B),
{
    res_loc(memory, 4, Loc8::B);
}

/// RES 5, B
pub fn res_5_b(memory: &mut Memory, _value: Void)
    ensures
        final(memory)@ == res_spec(old(memory)@, 5, Loc8::B),
{
    res_loc(memory, 5, Loc8::B);
}

/// RES 6, B
pub fn res_6_b(memory: &mut Memory, _value: Void)
    ensures
        final(memory)@ == res_spec(old(memory)@, 6, Loc8::B),
{
    res_loc(memory, 6, Loc8::B);
}

/// RES 7, B
pub fn res_7_b(memory: &mut Memory, _value: Void)
    ensures
        final(memory)@ == res_spec(old(memory)@, 7, Loc8::B),
{
    res_loc(memory, 7, Loc8::B);
}

/// RES 0, C
pub fn res_0_c(memory: &mut Memory, _value: Void)
    ensures
        final(memory)@ == res_spec(old(memory)@, 0, Loc8::C),
{
    res_loc(memory, 0, Loc8::C);
}

/// RES 1, C
pub fn res_1_c(memory: &mut Memory, _value: Void)
    ensures
        final(memory)@ == res_spec(old(memory)@, 1, Loc8::C),
{
    res_loc(memory, 1, Loc8::C);
}

/// RES 2, C
pub fn res_2_c(memory: &mut Memory, _value: Void)
    ensures
        final(memory)@ == res_spec(old(memory)@, 2, Loc8::C),
{
    res_loc(memory, 2, Loc8::C);
}

/// RES 3, C
pub fn res_3_c(memory: &mut Memory, _value: Void)
    ensures
        final(memory)@ == res_spec(old(memory)@, 3, Loc8::C),
{
    res_loc(memory, 3, Loc8::C);
}

/// RES 4, C
pub fn res_4_c(memory: &mut Memory, _value: Void)
    ensures
        final(memory)@ == res_spec(old(memory)@, 4, Loc8::C),
{
    res_loc(memory, 4, Loc8::C);
}

/// RES 5, C
pub fn res_5_c(memory: &mut Memory, _value: Void)
    ensures
        final(memory)@ == res_spec(old(memory)@, 5, Loc8::C),
{
    res_loc(memory, 5, Loc8::C);
}

/// RES 6, C
pub fn res_6_c(memory: &mut Memory, _value: Void)
    ensures
        final(memory)@ == res_spec(old(memory)@, 6, Loc8::C),
{
    res_loc(memory, 6, Loc8::C);
}

/// RES 7, C
pub fn res_7_c(memory: &mut Memory, _value: Void)
    ensures
        final(memory)@ == res_spec(old(memory)@, 7, Loc8::C),
{
    res_loc(memory, 7, Loc8::C);
}

/// RES 0, D
pub fn res_0_d(memory: &mut Memory, _value: Void)
    ensures
        final(memory)@ == res_spec(old(memory)@, 0, Loc8::D),
{
    res_loc(memory, 0, Loc8::D);
}

/// RES 1, D
pub fn res_1_d(memory: &mut Memory, _value: Void)
    ensures
        final(memory)@ == res_spec(old(memory)@, 1, Loc8::D),
{
    res_loc(memory, 1, Loc8::D);
}

/// RES 2, D
pub fn res_2_d(memory: &mut Memory, _value: Void)
    ensures
        final(memory)@ == res_spec(old(memory)@, 2, Loc8::D),
{
    res_loc(memory, 2, Loc8::D);
}

/// RES 3, D
pub fn res_3_d(memory: &mut Memory, _value: Void)
    ensures
        final(memory)@ == res_spec(old(memory)@, 3, Loc8::D),
{
    res_loc(memory, 3, Loc8::D);
}

/// RES 4, D
pub fn res_4_d(memory: &mut Memory, _value: Void)
    ensures
        final(memory)@ == res_spec(old(memory)@, 4, Loc8::D),
{
    res_loc(memory, 4, Loc8::D);
}

/// RES 5, D
pub fn res_5_d(memory: &mut Memory, _value: Void)
    ensures
        final(memory)@ == res_spec(old(memory)@, 5, Loc8::D),
{
    res_loc(memory, 5, Loc8::D);
}

/// RES 6, D
pub fn res_6_d(memory: &mut Memory, _value: Void)
    ensures
        final(memory)@ == res_spec(old(memory)@, 6, Loc8::D),
{
    res_loc(memory, 6, Loc8::D);
}

/// RES 7, D
pub fn res_7_d(memory: &mut Memory, _value: Void)
    ensures
        final(memory)@ == res_spec(old(memory)@, 7, Loc8::D),
{
    res_loc(memory, 7, Loc8::D);
}

/// RES 0, E
pub fn res_0_e(memory: &mut Memory, _value: Void)
    ensures
        final(memory)@ == res_spec(old(memory)@, 0, Loc8::E),
{
    res_loc(memory, 0, Loc8::E);
}

/// RES 1, E
pub fn res_1_e(memory: &mut Memory, _value: Void)
    ensures
        final(memory)@ == res_spec(old(memory)@, 1, Loc8::E),
{
    res_loc(memory, 1, Loc8::E);
}

/// RES 2, E
pub fn res_2_e(memory: &mut Memory, _value: Void)
    ensures
        final(memory)@ == res_spec(old(memory)@, 2, Loc8::E),
{
    res_loc(memory, 2, Loc8::E);
}

/// RES 3, E
pub fn res_3_e(memory: &mut Memory, _value: Void)
    ensures
        final(memory)@ == res_spec(old(memory)@, 3, Loc8::E),
{
    res_loc(memory, 3, Loc8::E);
}

/// RES 4, E
pub fn res_4_e(memory: &mut Memory, _value: Void)
    ensures
        final(memory)@ == res_spec(old(memory)@, 4, Loc8::E),
{
    res_loc(memory, 4, Loc8::E);
}

/// RES 5, E
pub fn res_5_e(memory: &mut Memory, _value: Void)
    ensures
        final(memory)@ == res_spec(old(memory)@, 5, Loc8::E),
{
    res_loc(memory, 5, Loc8::E);
}

/// RES 6, E
pub fn res_6_e(memory: &mut Memory, _value: Void)
    ensures
        final(memory)@ == res_spec(old(memory)@, 6, Loc8::E),
{
    res_loc(memory, 6, Loc8::E);
}

/// RES 7, E
pub fn res_7_e(memory: &mut Memory, _value: Void)
    ensures
        final(memory)@ == res_spec(old(memory)@, 7, Loc8::E),
{
    res_loc(memory, 7, Loc8::E);
}

/// RES 0, H
pub fn res_0_h(memory: &mut Memory, _value: Void)
    ensures
        final(memory)@ == res_spec(old(memory)@, 0, Loc8::H),
{
    res_loc(memory, 0, Loc8::H);
}

/// RES 1, H
pub fn res_1_h(memory: &mut Memory, _value: Void)
    ensures
        final(memory)@ == res_spec(old(memory)@, 1, Loc8::H),
{
    res_loc(memory, 1, Loc8::H);
}

/// RES 2, H
pub fn res_2_h(memory: &mut Memory, _value: Void)
    ensures
        final(memory)@ == res_spec(old(memory)@, 2, Loc8::H),
{
    res_loc(memory, 2, Loc8::H);
}

/// RES 3, H
pub fn res_3_h(memory: &mut Memory, _value: Void)
    ensures
        final(memory)@ == res_spec(old(memory)@, 3, Loc8::H),
{
    res_loc(memory, 3, Loc8::H);
}

/// RES 4, H
pub fn res_4_h(memory: &mut Memory, _value: Void)
    ensures
        final(memory)@ == res_spec(old(memory)@, 4, Loc8::H),
{
    res_loc(memory, 4, Loc8::H);
}

/// RES 5, H
pub fn res_5_h(memory: &mut Memory, _value: Void)
    ensures
        final(memory)@ == res_spec(old(memory)@, 5, Loc8::H),
{
    res_loc(memory, 5, Loc8::H);
}

/// RES 6, H
pub fn res_6_h(memory: &mut Memory, _value: Void)
    ensures
        final(memory)@ == res_spec(old(memory)@, 6, Loc8::H),
{
    res_loc(memory, 6, Loc8::H);
}

/// RES 7, H
pub fn res_7_h(memory: &mut Memory, _value: Void)
    ensures
        final(memory)@ == res_spec(old(memory)@, 7, Loc8::H),
{
    res_loc(memory, 7, Loc8::H);
}

/// RES 0, L
pub fn res_0_l(memory: &mut Memory, _value: Void)
    ensures
        final(memory)@ == res_spec(old(memory)@, 0, Loc8::L),
{
    res_loc(memory, 0, Loc8::L);
}

/// RES 1, L
pub fn res_1_l(memory: &mut Memory, _value: Void)
    ensures
        final(memory)@ == res_spec(old(memory)@, 1, Loc8::L),
{
    res_loc(memory, 1, Loc8::L);
}

/// RES 2, L
pub fn res_2_l(memory: &mut Memory, _value: Void)
    ensures
        final(memory)@ == res_spec(old(memory)@, 2, Loc8::L),
{
    res_loc(memory, 2, Loc8::L);
}

/// RES 3, L
pub fn res_3_l(memory: &mut Memory, _value: Void)
    ensures
        final(memory)@ == res_spec(old(memory)@, 3, Loc8::L),
{
    res_loc(memory, 3, Loc8::L);
}

/// RES 4, L
pub fn res_4_l(memory: &mut Memory, _value: Void)
    ensures
        final(memory)@ == res_spec(old(memory)@, 4, Loc8::L),
{
    res_loc(memory, 4, Loc8::L);
}

/// RES 5, L
pub fn res_5_l(memory: &mut Memory, _value: Void)
    ensures
        final(memory)@ == res_spec(old(memory)@, 5, Loc8::L),
{
    res_loc(memory, 5, Loc8::L);
}

/// RES 6, L
pub fn res_6_l(memory: &mut Memory, _value: Void)
    ensures
        final(memory)@ == res_spec(old(memory)@, 6, Loc8::L),
{
    res_loc(memory, 6, Loc8::L);
}

/// RES 7, L
pub fn res_7_l(memory: &mut Memory, _value: Void)
    ensures
        final(memory)@ == res_spec(old(memory)@, 7, Loc8::L),
{
    res_loc(memory, 7, Loc8::L);
}

/// RES 0, (HL)
pub fn res_0_hl_addr(memory: &mut Memory, _value: Void)
    requires
        old(memory)@.loc_ok(Loc8::HlAddr),
    ensures
        final(memory)@ == res_spec(old(memory)@, 0, Loc8::HlAddr),
{
    res_loc(memory, 0, Loc8::HlAddr);
}

/// RES 1, (HL)
pub fn res_1_hl_addr(memory: &mut Memory, _value: Void)
    requires
        old(memory)@.loc_ok(Loc8::HlAddr),
    ensures
        final(memory)@ == res_spec(old(memory)@, 1, Loc8::HlAddr),
{
    res_loc(memory, 1, Loc8::HlAddr);
}

/// RES 2, (HL)
pub fn res_2_hl_addr(memory: &mut Memory, _value: Void)
    requires
        old(memory)@.loc_ok(Loc8::HlAddr),
    ensures
        final(memory)@ == res_spec(old(memory)@, 2, Loc8::HlAddr),
{
    res_loc(memory, 2, Loc8::HlAddr);
}

/// RES 3, (HL)
pub fn res_3_hl_addr(memory: &mut Memory, _value: Void)
    requires
        old(memory)@.loc_ok(Loc8::HlAddr),
    ensures
        final(memory)@ == res_spec(old(memory)@, 3, Loc8::HlAddr),
{
    res_loc(memory, 3, Loc8::HlAddr);
}

/// RES 4, (HL)
pub fn res_4_hl_addr(memory: &mut Memory, _value: Void)
    requires
        old(memory)@.loc_ok(Loc8::HlAddr),
    ensures
        final(memory)@ == res_spec(old(memory)@, 4, Loc8::HlAddr),
{
    res_loc(memory, 4, Loc8::HlAddr);
}

/// RES 5, (HL)
pub fn res_5_hl_addr(memory: &mut Memory, _value: Void)
    requires
        old(memory)@.loc_ok(Loc8::HlAddr),
    ensures
        final(memory)@ == res_spec(old(memory)@, 5, Loc8::HlAddr),
{
    res_loc(memory, 5, Loc8::HlAddr);
}

/// RES 6, (HL)
pub fn res_6_hl_addr(memory: &mut Memory, _value: Void)
    requires
        old(memory)@.loc_ok(Loc8::HlAddr),
    ensures
        final(memory)@ == res_spec(old(memory)@, 6, Loc8::HlAddr),
{
    res_loc(memory, 6, Loc8::HlAddr);
}

/// RES 7, (HL)
pub fn res_7_hl_addr(memory: &mut Memory, _value: Void)
    requires
        old(memory)@.loc_ok(Loc8::HlAddr),
    ensures
        final(memory)@ == res_spec(old(memory)@, 7, Loc8::HlAddr),
{
    res_loc(memory, 7, Loc8::HlAddr);
}

/// SET 0, A
pub fn set_0_a(memory: &mut Memory, _value: Void)
    ensures
        final(memory)@ == set_spec(old(memory)@, 0, Loc8::A),
{
    set_loc(memory, 0, Loc8::A);
}

/// SET 1, A
pub fn set_1_a(memory: &mut Memory, _value: Void)
    ensures
        final(memory)@ == set_spec(old(memory)@, 1, Loc8::A),
{
    set_loc(memory, 1, Loc8::A);
}

/// SET 2, A
pub fn set_2_a(memory: &mut Memory, _value: Void)
    ensures
        final(memory)@ == set_spec(old(memory)@, 2, Loc8::A),
{
    set_loc(memory, 2, Loc8::A);
}

/// SET 3, A
pub fn set_3_a(memory: &mut Memory, _value: Void)
    ensures
        final(memory)@ == set_spec(old(memory)@, 3, Loc8::A),
{
    set_loc(memory, 3, Loc8::A);
}

/// SET 4, A
pub fn set_4_a(memory: &mut Memory, _value: Void)
    ensures
        final(memory)@ == set_spec(old(memory)@, 4, Loc8::A),
{
    set_loc(memory, 4, Loc8::A);
}

/// SET 5, A
pub fn set_5_a(memory: &mut Memory, _value: Void)
    ensures
        final(memory)@ == set_spec(old(memory)@, 5, Loc8::A),
{
    set_loc(memory, 5, Loc8::A);
}

/// SET 6, A
pub fn set_6_a(memory: &mut Memory, _value: Void)
    ensures
        final(memory)@ == set_spec(old(memory)@, 6, Loc8::A),
{
    set_loc(memory, 6, Loc8::A);
}

/// SET 7, A
pub fn set_7_a(memory: &mut Memory, _value: Void)
    ensures
        final(memory)@ == set_spec(old(memory)@, 7, Loc8::A),
{
    set_loc(memory, 7, Loc8::A);
}

/// SET 0, B
pub fn set_0_b(memory: &mut Memory, _value: Void)
    ensures
        final(memory)@ == set_spec(old(memory)@, 0, Loc8::B),
{
    set_loc(memory, 0, Loc8::B);
}

/// SET 1, B
pub fn set_1_b(memory: &mut Memory, _value: Void)
    ensures
        final(memory)@ == set_spec(old(memory)@, 1, Loc8::B),
{
    set_loc(memory, 1, Loc8::B);
}

/// SET 2, B
pub fn set_2_b(memory: &mut Memory, _value: Void)
    ensures
        final(memory)@ == set_spec(old(memory)@, 2, Loc8::B),
{
    set_loc(memory, 2, Loc8::B);
}

/// SET 3, B
pub fn set_3_b(memory: &mut Memory, _value: Void)
    ensures
        final(memory)@ == set_spec(old(memory)@, 3, Loc8::B),
{
    set_loc(memory, 3, Loc8::B);
}

/// SET 4, B
pub fn set_4_b(memory: &mut Memory, _value: Void)
    ensures
        final(memory)@ == set_spec(old(memory)@, 4, Loc8::B),
{
    set_loc(memory, 4, Loc8::B);
}

/// SET 5, B
pub fn set_5_b(memory: &mut Memory, _value: Void)
    ensures
        final(memory)@ == set_spec(old(memory)@, 5, Loc8::B),
{
    set_loc(memory, 5, Loc8::B);
}

/// SET 6, B
pub fn set_6_b(memory: &mut Memory, _value: Void)
    ensures
        final(memory)@ == set_spec(old(memory)@, 6, Loc8::B),
{
    set_loc(memory, 6, Loc8::B);
}

/// SET 7, B
pub fn set_7_b(memory: &mut Memory, _value: Void)
    ensures
        final(memory)@ == set_spec(old(memory)@, 7, Loc8::B),
{
    set_loc(memory, 7, Loc8::B);
}

/// SET 0, C
pub fn set_0_c(memory: &mut Memory, _value: Void)
    ensures
        final(memory)@ == set_spec(old(memory)@, 0, Loc8::C),
{
    set_loc(memory, 0, Loc8::C);
}

/// SET 1, C
pub fn set_1_c(memory: &mut Memory, _value: Void)
    ensures
        final(memory)@ == set_spec(old(memory)@, 1, Loc8::C),
{
    set_loc(memory, 1, Loc8::C);
}

/// SET 2, C
pub fn set_2_c(memory: &mut Memory, _value: Void)
    ensures
        final(memory)@ == set_spec(old(memory)@, 2, Loc8::C),
{
    set_loc(memory, 2, Loc8::C);
}

/// SET 3, C
pub fn set_3_c(memory: &mut Memory, _value: Void)
    ensures
        final(memory)@ == set_spec(old(memory)@, 3, Loc8::C),
{
    set_loc(memory, 3, Loc8::C);
}

/// SET 4, C
pub fn set_4_c(memory: &mut Memory, _value: Void)
    ensures
        final(memory)@ == set_spec(old(memory)@, 4, Loc8::C),
{
    set_loc(memory, 4, Loc8::C);
}

/// SET 5, C
pub fn set_5_c(memory: &mut Memory, _value: Void)
    ensures
        final(memory)@ == set_spec(old(memory)@, 5, Loc8::C),
{
    set_loc(memory, 5, Loc8::C);
}

/// SET 6, C
pub fn set_6_c(memory: &mut Memory, _value: Void)
    ensures
        final(memory)@ == set_spec(old(memory)@, 6, Loc8::C),
{
    set_loc(memory, 6, Loc8::C);
}

/// SET 7, C
pub fn set_7_c(memory: &mut Memory, _value: Void)
    ensures
        final(memory)@ == set_spec(old(memory)@, 7, Loc8::C),
{
    set_loc(memory, 7, Loc8::C);
}

/// SET 0, D
pub fn set_0_d(memory: &mut Memory, _value: Void)
    ensures
        final(memory)@ == set_spec(old(memory)@, 0, Loc8::D),
{
    set_loc(memory, 0, Loc8::D);
}

/// SET 1, D
pub fn set_1_d(memory: &mut Memory, _value: Void)
    ensures
        final(memory)@ == set_spec(old(memory)@, 1, Loc8::D),
{
    set_loc(memory, 1, Loc8::D);
}

/// SET 2, D
pub fn set_2_d(memory: &mut Memory, _value: Void)
    ensures
        final(memory)@ == set_spec(old(memory)@, 2, Loc8::D),
{
    set_loc(memory, 2, Loc8::D);
}

/// SET 3, D
pub fn set_3_d(memory: &mut Memory, _value: Void)
    ensures
        final(memory)@ == set_spec(old(memory)@, 3, Loc8::D),
{
    set_loc(memory, 3, Loc8::D);
}

/// SET 4, D
pub fn set_4_d(memory: &mut Memory, _value: Void)
    ensures
        final(memory)@ == set_spec(old(memory)@, 4, Loc8::D),
{
    set_loc(memory, 4, Loc8::D);
}

/// SET 5, D
pub fn set_5_d(memory: &mut Memory, _value: Void)
    ensures
        final(memory)@ == set_spec(old(memory)@, 5, Loc8::D),
{
    set_loc(memory, 5, Loc8::D);
}

/// SET 6, D
pub fn set_6_d(memory: &mut Memory, _value: Void)
    ensures
        final(memory)@ == set_spec(old(memory)@, 6, Loc8::D),
{
    set_loc(memory, 6, Loc8::D);
}

/// SET 7, D
pub fn set_7_d(memory: &mut Memory, _value: Void)
    ensures
        final(memory)@ == set_spec(old(memory)@, 7, Loc8::D),
{
    set_loc(memory, 7, Loc8::D);
}

/// SET 0, E
pub fn set_0_e(memory: &mut Memory, _value: Void)
    ensures
        final(memory)@ == set_spec(old(memory)@, 0, Loc8::E),
{
    set_loc(memory, 0, Loc8::E);
}

/// SET 1, E
pub fn set_1_e(memory: &mut Memory, _value: Void)
    ensures
        final(memory)@ == set_spec(old(memory)@, 1, Loc8::E),
{
    set_loc(memory, 1, Loc8::E);
}

/// SET 2, E
pub fn set_2_e(memory: &mut Memory, _value: Void)
    ensures
        final(memory)@ == set_spec(old(memory)@, 2, Loc8::E),
{
    set_loc(memory, 2, Loc8::E);
}

/// SET 3, E
pub fn set_3_e(memory: &mut Memory, _value: Void)
    ensures
        final(memory)@ == set_spec(old(memory)@, 3, Loc8::E),
{
    set_loc(memory, 3, Loc8::E);
}

/// SET 4, E
pub fn set_4_e(memory: &mut Memory, _value: Void)
    ensures
        final(memory)@ == set_spec(old(memory)@, 4, Loc8::E),
{
    set_loc(memory, 4, Loc8::E);
}

/// SET 5, E
pub fn set_5_e(memory: &mut Memory, _value: Void)
    ensures
        final(memory)@ == set_spec(old(memory)@, 5, Loc8::E),
{
    set_loc(memory, 5, Loc8::E);
}

/// SET 6, E
pub fn set_6_e(memory: &mut Memory, _value: Void)
    ensures
        final(memory)@ == set_spec(old(memory)@, 6, Loc8::E),
{
    set_loc(memory, 6, Loc8::E);
}

/// SET 7, E
pub fn set_7_e(memory: &mut Memory, _value: Void)
    ensures
        final(memory)@ == set_spec(old(memory)@, 7, Loc8::E),
{
    set_loc(memory, 7, Loc8::E);
}

/// SET 0, H
pub fn set_0_h(memory: &mut Memory, _value: Void)
    ensures
        final(memory)@ == set_spec(old(memory)@, 0, Loc8::H),
{
    set_loc(memory, 0, Loc8::H);
}

/// SET 1, H
pub fn set_1_h(memory: &mut Memory, _value: Void)
    ensures
        final(memory)@ == set_spec(old(memory)@, 1, Loc8::H),
{
    set_loc(memory, 1, Loc8::H);
}

/// SET 2, H
pub fn set_2_h(memory: &mut Memory, _value: Void)
    ensures
        final(memory)@ == set_spec(old(memory)@, 2, Loc8::H),
{
    set_loc(memory, 2, Loc8::H);
}

/// SET 3, H
pub fn set_3_h(memory: &mut Memory, _value: Void)
    ensures
        final(memory)@ == set_spec(old(memory)@, 3, Loc8::H),
{
    set_loc(memory, 3, Loc8::H);
}

/// SET 4, H
pub fn set_4_h(memory: &mut Memory, _value: Void)
    ensures
        final(memory)@ == set_spec(old(memory)@, 4, Loc8::H),
{
    set_loc(memory, 4, Loc8::H);
}

/// SET 5, H
pub fn set_5_h(memory: &mut Memory, _value: Void)
    ensures
        final(memory)@ == set_spec(old(memory)@, 5, Loc8::H),
{
    set_loc(memory, 5, Loc8::H);
}

/// SET 6, H
pub fn set_6_h(memory: &mut Memory, _value: Void)
    ensures
        final(memory)@ == set_spec(old(memory)@, 6, Loc8::H),
{
    set_loc(memory, 6, Loc8::H);
}

/// SET 7, H
pub fn set_7_h(memory: &mut Memory, _value: Void)
    ensures
        final(memory)@ == set_spec(old(memory)@, 7, Loc8::H),
{
    set_loc(memory, 7, Loc8::H);
}

/// SET 0, L
pub fn set_0_l(memory: &mut Memory, _value: Void)
    ensures
        final(memory)@ == set_spec(old(memory)@, 0, Loc8::L),
{
    set_loc(memory, 0, Loc8::L);
}

/// SET 1, L
pub fn set_1_l(memory: &mut Memory, _value: Void)
    ensures
        final(memory)@ == set_spec(old(memory)@, 1, Loc8::L),
{
    set_loc(memory, 1, Loc8::L);
}

/// SET 2, L
pub fn set_2_l(memory: &mut Memory, _value: Void)
    ensures
        final(memory)@ == set_spec(old(memory)@, 2, Loc8::L),
{
    set_loc(memory, 2, Loc8::L);
}

/// SET 3, L
pub fn set_3_l(memory: &mut Memory, _value: Void)
    ensures
        final(memory)@ == set_spec(old(memory)@, 3, Loc8::L),
{
    set_loc(memory, 3, Loc8::L);
}

/// SET 4, L
pub fn set_4_l(memory: &mut Memory, _value: Void)
    ensures
        final(memory)@ == set_spec(old(memory)@, 4, Loc8::L),
{
    set_loc(memory, 4, Loc8::L);
}

/// SET 5, L
pub fn set_5_l(memory: &mut Memory, _value: Void)
    ensures
        final(memory)@ == set_spec(old(memory)@, 5, Loc8::L),
{
    set_loc(memory, 5, Loc8::L);
}

/// SET 6, L
pub fn set_6_l(memory: &mut Memory, _value: Void)
    ensures
        final(memory)@ == set_spec(old(memory)@, 6, Loc8::L),
{
    set_loc(memory, 6, Loc8::L);
}

/// SET 7, L
pub fn set_7_l(memory: &mut Memory, _value: Void)
    ensures
        final(memory)@ == set_spec(old(memory)@, 7, Loc8::L),
{
    set_loc(memory, 7, Loc8::L);
}

/// SET 0, (HL)
pub fn set_0_hl_addr(memory: &mut Memory, _value: Void)
    requires
        old(memory)@.loc_ok(Loc8::HlAddr),
    ensures
        final(memory)@ == set_spec(old(memory)@, 0, Loc8::HlAddr),
{
    set_loc(memory, 0, Loc8::HlAddr);
}

/// SET 1, (HL)
pub fn set_1_hl_addr(memory: &mut Memory, _value: Void)
    requires
        old(memory)@.loc_ok(Loc8::HlAddr),
    ensures
        final(memory)@ == set_spec(old(memory)@, 1, Loc8::HlAddr),
{
    set_loc(memory, 1, Loc8::HlAddr);
}

/// SET 2, (HL)
pub fn set_2_hl_addr(memory: &mut Memory, _value: Void)
    requires
        old(memory)@.loc_ok(Loc8::HlAddr),
    ensures
        final(memory)@ == set_spec(old(memory)@, 2, Loc8::HlAddr),
{
    set_loc(memory, 2, Loc8::HlAddr);
}

/// SET 3, (HL)
pub fn set_3_hl_addr(memory: &mut Memory, _value: Void)
    requires
        old(memory)@.loc_ok(Loc8::HlAddr),
    ensures
        final(memory)@ == set_spec(old(memory)@, 3, Loc8::HlAddr),
{
    set_loc(memory, 3, Loc8::HlAddr);
}

/// SET 4, (HL)
pub fn set_4_hl_addr(memory: &mut Memory, _value: Void)
    requires
        old(memory)@.loc_ok(Loc8::HlAddr),
    ensures
        final(memory)@ == set_spec(old(memory)@, 4, Loc8::HlAddr),
{
    set_loc(memory, 4, Loc8::HlAddr);
}

/// SET 5, (HL)
pub fn set_5_hl_addr(memory: &mut Memory, _value: Void)
    requires
        old(memory)@.loc_ok(Loc8::HlAddr),
    ensures
        final(memory)@ == set_spec(old(memory)@, 5, Loc8::HlAddr),
{
    set_loc(memory, 5, Loc8::HlAddr);
}

/// SET 6, (HL)
pub fn set_6_hl_addr(memory: &mut Memory, _value: Void)
    requires
        old(memory)@.loc_ok(Loc8::HlAddr),
    ensures
        final(memory)@ == set_spec(old(memory)@, 6, Loc8::HlAddr),
{
    set_loc(memory, 6, Loc8::HlAddr);
}

/// SET 7, (HL)
pub fn set_7_hl_addr(memory: &mut Memory, _value: Void)
    requires
        old(memory)@.loc_ok(Loc8::HlAddr),
    ensures
        final(memory)@ == set_spec(old(memory)@, 7, Loc8::HlAddr),
{
    set_loc(memory, 7, Loc8::HlAddr);
}

/// The accumulator short forms (`RLCA`, `RRCA`, `RLA`, `RRA`) always clear
/// the zero flag, even when the result is 0; the full forms set it exactly
/// when the result is 0.
pub proof fn lemma_short_forms_clear_zero(s: MachineState, op: Shift, loc: Loc8)
    requires
        s.loc_ok(loc),
    ensures
        !shift_a_spec(s, op).registers.zero,
        shift_spec(s, op, loc).registers.zero == (shift_spec(s, op, loc).read_loc(loc) == 0),
{
}

} // verus!
