use vstd::prelude::*;

use crate::bits::{check_half_carry_wide_add, half_carry_wide_add};
use crate::conversions::{high_of, low_of, offset_bits, offset_to_far_address};
use crate::memory::{far_of_near, Loc8, MachineState, Memory, Reg16, StackPair};
use crate::register::RegisterGroup;
use crate::types::{AddressOffset, FarAddress, NearAddress, Value, Void, WideValue};

verus! {

/// The register pair through which `A` is loaded or stored, and what
/// happens to `HL` after the access.
#[derive(Clone, Copy, Debug, PartialEq, Eq, Structural)]
pub enum Indirect {
    /// `(BC)`.
    Bc,
    /// `(DE)`.
    De,
    /// `(HL+)`: `HL` is incremented after the access.
    HlIncrement,
    /// `(HL-)`: `HL` is decremented after the access.
    HlDecrement,
}

/// The address that `ind` points at.
pub open spec fn indirect_address(s: MachineState, ind: Indirect) -> u16 {
    match ind {
        Indirect::Bc => s.registers.bc_value(),
        Indirect::De => s.registers.de_value(),
        Indirect::HlIncrement | Indirect::HlDecrement => s.hl(),
    }
}

/// `HL` moved on after an access through `ind`; the rest unchanged.
pub open spec fn after_indirect(s: MachineState, ind: Indirect) -> MachineState {
    match ind {
        Indirect::HlIncrement => s.with_reg16(Reg16::HL, ((s.hl() + 1) % 0x1_0000) as u16),
        Indirect::HlDecrement => s.with_reg16(Reg16::HL, ((s.hl() + 0xFFFF) % 0x1_0000) as u16),
        _ => s,
    }
}

/// `LD dst, src` between 8-bit locations.
pub open spec fn ld_spec(s: MachineState, dst: Loc8, src: Loc8) -> MachineState {
    s.write_loc(dst, s.read_loc(src))
}

/// `LD A, (ind)`.
pub open spec fn ld_a_indirect_spec(s: MachineState, ind: Indirect) -> MachineState {
    after_indirect(s.write_loc(Loc8::A, s.bytes[indirect_address(s, ind) as int]), ind)
}

/// `LD (ind), A`.
pub open spec fn ld_indirect_a_spec(s: MachineState, ind: Indirect) -> MachineState {
    after_indirect(s.with_byte(indirect_address(s, ind) as int, s.registers.a), ind)
}

/// `LD (addr), SP`: the stack pointer stored little-endian.
pub open spec fn ld_far_sp_spec(s: MachineState, addr: u16) -> MachineState {
    s.with_byte(addr as int, low_of(s.registers.sp)).with_byte(addr + 1, high_of(s.registers.sp))
}

/// `LD HL, SP + offset`: Z and N cleared, H from bit 11 and C from bit 15
/// of the unsigned sum.
pub open spec fn ld_hl_sp_offset_spec(s: MachineState, offset: i8) -> MachineState {
    let sp = s.registers.sp;
    let bits = offset_bits(offset);
    s.with_reg16(Reg16::HL, ((sp + bits) % 0x1_0000) as u16).with_flags(
        false,
        false,
        half_carry_wide_add(sp, bits),
        sp + bits > 0xFFFF,
    )
}

/// `PUSH pair`.
pub open spec fn push_spec(s: MachineState, pair: StackPair) -> MachineState {
    s.pushed(s.pair_value(pair))
}

/// `POP pair`.
pub open spec fn pop_spec(s: MachineState, pair: StackPair) -> MachineState {
    s.popped().with_pair(pair, s.top())
}

/// Loads the byte at `src` into `dst`.
pub fn ld_loc(memory: &mut Memory, dst: Loc8, src: Loc8)
    requires
        old(memory)@.loc_ok(dst),
        old(memory)@.loc_ok(src),
    ensures
        final(memory)@ == ld_spec(old(memory)@, dst, src),
{
    let value = memory.read_loc(src);
    memory.write_loc(dst, value);
}

/// Loads an immediate byte into `dst`.
pub fn ld_loc_value(memory: &mut Memory, dst: Loc8, value: Value)
    requires
        old(memory)@.loc_ok(dst),
    ensures
        final(memory)@ == old(memory)@.write_loc(dst, value),
{
    memory.write_loc(dst, value);
}

/// The address that `ind` points at.
fn indirect_addr(memory: &Memory, ind: Indirect) -> (r: FarAddress)
    ensures
        r == indirect_address(memory@, ind),
{
    match ind {
        Indirect::Bc => memory.registers.get_bc(),
        Indirect::De => memory.registers.get_de(),
        Indirect::HlIncrement | Indirect::HlDecrement => memory.registers.get_hl(),
    }
}

/// Moves `HL` on after an access through `ind`.
fn step_indirect(memory: &mut Memory, ind: Indirect)
    ensures
        final(memory)@ == after_indirect(old(memory)@, ind),
{
    match ind {
        Indirect::HlIncrement => {
            let hl = memory.registers.get_hl();
            memory.registers.set_hl(hl.wrapping_add(1));
        },
        Indirect::HlDecrement => {
            let hl = memory.registers.get_hl();
            memory.registers.set_hl(hl.wrapping_sub(1));
        },
        _ => {},
    }
}

/// Whether the address `ind` points at lies inside the address space.
pub fn indirect_ok(memory: &Memory, ind: Indirect) -> (r: bool)
    ensures
        r == memory@.mapped(indirect_address(memory@, ind) as int),
{
    memory.is_mapped(indirect_addr(memory, ind) as usize)
}

/// Loads `A` from the byte that `ind` points at.
pub fn ld_a_indirect(memory: &mut Memory, ind: Indirect)
    requires
        old(memory)@.mapped(indirect_address(old(memory)@, ind) as int),
    ensures
        final(memory)@ == ld_a_indirect_spec(old(memory)@, ind),
{
    let addr = indirect_addr(memory, ind);
    let read_value = memory.read_far_addr(addr);
    memory.registers.set_a(read_value);
    step_indirect(memory, ind);
}

/// Stores `A` at the byte that `ind` points at.
pub fn ld_indirect_a(memory: &mut Memory, ind: Indirect)
    requires
        old(memory)@.mapped(indirect_address(old(memory)@, ind) as int),
    ensures
        final(memory)@ == ld_indirect_a_spec(old(memory)@, ind),
{
    let addr = indirect_addr(memory, ind);
    let a = memory.registers.get_a();
    memory.write_far_addr(addr, a);
    step_indirect(memory, ind);
}

/// Pushes a register pair.
pub fn push_pair(memory: &mut Memory, pair: StackPair)
    requires
        old(memory)@.can_push(),
    ensures
        final(memory)@ == push_spec(old(memory)@, pair),
{
    let value = memory.get_pair(pair);
    memory.push_wide(value);
}

/// Pops into a register pair.
pub fn pop_pair(memory: &mut Memory, pair: StackPair)
    requires
        old(memory)@.can_pop(),
    ensures
        final(memory)@ == pop_spec(old(memory)@, pair),
{
    let value = memory.pop_wide();
    memory.set_pair(pair, value);
}

/// LD A, d8
pub fn ld_a_d8(memory: &mut Memory, value: Value)
    ensures
        final(memory)@ == old(memory)@.write_loc(Loc8::A, value),
{
    ld_loc_value(memory, Loc8::A, value);
}

/// LD B, d8
pub fn ld_b_d8(memory: &mut Memory, value: Value)
    ensures
        final(memory)@ == old(memory)@.write_loc(Loc8::B, value),
{
    ld_loc_value(memory, Loc8::B, value);
}

/// LD C, d8
pub fn ld_c_d8(memory: &mut Memory, value: Value)
    ensures
        final(memory)@ == old(memory)@.write_loc(Loc8::C, value),
{
    ld_loc_value(memory, Loc8::C, value);
}

/// LD D, d8
pub fn ld_d_d8(memory: &mut Memory, value: Value)
    ensures
        final(memory)@ == old(memory)@.write_loc(Loc8::D, value),
{
    ld_loc_value(memory, Loc8::D, value);
}

/// LD E, d8
pub fn ld_e_d8(memory: &mut Memory, value: Value)
    ensures
        final(memory)@ == old(memory)@.write_loc(Loc8::E, value),
{
    ld_loc_value(memory, Loc8::E, value);
}

/// LD H, d8
pub fn ld_h_d8(memory: &mut Memory, value: Value)
    ensures
        final(memory)@ == old(memory)@.write_loc(Loc8::H, value),
{
    ld_loc_value(memory, Loc8::H, value);
}

/// LD L, d8
pub fn ld_l_d8(memory: &mut Memory, value: Value)
    ensures
        final(memory)@ == old(memory)@.write_loc(Loc8::L, value),
{
    ld_loc_value(memory, Loc8::L, value);
}

/// LD (HL), d8
pub fn ld_hl_addr_d8(memory: &mut Memory, value: Value)
    requires
        old(memory)@.loc_ok(Loc8::HlAddr),
    ensures
        final(memory)@ == old(memory)@.write_loc(Loc8::HlAddr, value),
{
    ld_loc_value(memory, Loc8::HlAddr, value);
}

/// LD A, A
pub fn ld_a_a(memory: &mut Memory, _value: Void)
    ensures
        final(memory)@ == ld_spec(old(memory)@, Loc8::A, Loc8::A),
{
    ld_loc(memory, Loc8::A, Loc8::A);
}

/// LD A, B
pub fn ld_a_b(memory: &mut Memory, _value: Void)
    ensures
        final(memory)@ == ld_spec(old(memory)@, Loc8::A, Loc8::B),
{
    ld_loc(memory, Loc8::A, Loc8::B);
}

/// LD A, C
pub fn ld_a_c(memory: &mut Memory, _value: Void)
    ensures
        final(memory)@ == ld_spec(old(memory)@, Loc8::A, Loc8::C),
{
    ld_loc(memory, Loc8::A, Loc8::C);
}

/// LD A, D
pub fn ld_a_d(memory: &mut Memory, _value: Void)
    ensures
        final(memory)@ == ld_spec(old(memory)@, Loc8::A, Loc8::D),
{
    ld_loc(memory, Loc8::A, Loc8::D);
}

/// LD A, E
pub fn ld_a_e(memory: &mut Memory, _value: Void)
    ensures
        final(memory)@ == ld_spec(old(memory)@, Loc8::A, Loc8::E),
{
    ld_loc(memory, Loc8::A, Loc8::E);
}

/// LD A, H
pub fn ld_a_h(memory: &mut Memory, _value: Void)
    ensures
        final(memory)@ == ld_spec(old(memory)@, Loc8::A, Loc8::H),
{
    ld_loc(memory, Loc8::A, Loc8::H);
}

/// LD A, L
pub fn ld_a_l(memory: &mut Memory, _value: Void)
    ensures
        final(memory)@ == ld_spec(old(memory)@, Loc8::A, Loc8::L),
{
    ld_loc(memory, Loc8::A, Loc8::L);
}

/// LD A, (HL)
pub fn ld_a_hl_addr(memory: &mut Memory, _value: Void)
    requires
        old(memory)@.loc_ok(Loc8::HlAddr),
    ensures
        final(memory)@ == ld_spec(old(memory)@, Loc8::A, Loc8::HlAddr),
{
    ld_loc(memory, Loc8::A, Loc8::HlAddr);
}

/// LD B, A
pub fn ld_b_a(memory: &mut Memory, _value: Void)
    ensures
        final(memory)@ == ld_spec(old(memory)@, Loc8::B, Loc8::A),
{
    ld_loc(memory, Loc8::B, Loc8::A);
}

/// LD B, B
pub fn ld_b_b(memory: &mut Memory, _value: Void)
    ensures
        final(memory)@ == ld_spec(old(memory)@, Loc8::B, Loc8::B),
{
    ld_loc(memory, Loc8::B, Loc8::B);
}

/// LD B, C
pub fn ld_b_c(memory: &mut Memory, _value: Void)
    ensures
        final(memory)@ == ld_spec(old(memory)@, Loc8::B, Loc8::C),
{
    ld_loc(memory, Loc8::B, Loc8::C);
}

/// LD B, D
pub fn ld_b_d(memory: &mut Memory, _value: Void)
    ensures
        final(memory)@ == ld_spec(old(memory)@, Loc8::B, Loc8::D),
{
    ld_loc(memory, Loc8::B, Loc8::D);
}

/// LD B, E
pub fn ld_b_e(memory: &mut Memory, _value: Void)
    ensures
        final(memory)@ == ld_spec(old(memory)@, Loc8::B, Loc8::E),
{
    ld_loc(memory, Loc8::B, Loc8::E);
}

/// LD B, H
pub fn ld_b_h(memory: &mut Memory, _value: Void)
    ensures
        final(memory)@ == ld_spec(old(memory)@, Loc8::B, Loc8::H),
{
    ld_loc(memory, Loc8::B, Loc8::H);
}

/// LD B, L
pub fn ld_b_l(memory: &mut Memory, _value: Void)
    ensures
        final(memory)@ == ld_spec(old(memory)@, Loc8::B, Loc8::L),
{
    ld_loc(memory, Loc8::B, Loc8::L);
}

/// LD B, (HL)
pub fn ld_b_hl_addr(memory: &mut Memory, _value: Void)
    requires
        old(memory)@.loc_ok(Loc8::HlAddr),
    ensures
        final(memory)@ == ld_spec(old(memory)@, Loc8::B, Loc8::HlAddr),
{
    ld_loc(memory, Loc8::B, Loc8::HlAddr);
}

/// LD C, A
pub fn ld_c_a(memory: &mut Memory, _value: Void)
    ensures
        final(memory)@ == ld_spec(old(memory)@, Loc8::C, Loc8::A),
{
    ld_loc(memory, Loc8::C, Loc8::A);
}

/// LD C, B
pub fn ld_c_b(memory: &mut Memory, _value: Void)
    ensures
        final(memory)@ == ld_spec(old(memory)@, Loc8::C, Loc8::B),
{
    ld_loc(memory, Loc8::C, Loc8::B);
}

/// LD C, C
pub fn ld_c_c(memory: &mut Memory, _value: Void)
    ensures
        final(memory)@ == ld_spec(old(memory)@, Loc8::C, Loc8::C),
{
    ld_loc(memory, Loc8::C, Loc8::C);
}

/// LD C, D
pub fn ld_c_d(memory: &mut Memory, _value: Void)
    ensures
        final(memory)@ == ld_spec(old(memory)@, Loc8::C, Loc8::D),
{
    ld_loc(memory, Loc8::C, Loc8::D);
}

/// LD C, E
pub fn ld_c_e(memory: &mut Memory, _value: Void)
    ensures
        final(memory)@ == ld_spec(old(memory)@, Loc8::C, Loc8::E),
{
    ld_loc(memory, Loc8::C, Loc8::E);
}

/// LD C, H
pub fn ld_c_h(memory: &mut Memory, _value: Void)
    ensures
        final(memory)@ == ld_spec(old(memory)@, Loc8::C, Loc8::H),
{
    ld_loc(memory, Loc8::C, Loc8::H);
}

/// LD C, L
pub fn ld_c_l(memory: &mut Memory, _value: Void)
    ensures
        final(memory)@ == ld_spec(old(memory)@, Loc8::C, Loc8::L),
{
    ld_loc(memory, Loc8::C, Loc8::L);
}

/// LD C, (HL)
pub fn ld_c_hl_addr(memory: &mut Memory, _value: Void)
    requires
        old(memory)@.loc_ok(Loc8::HlAddr),
    ensures
        final(memory)@ == ld_spec(old(memory)@, Loc8::C, Loc8::HlAddr),
{
    ld_loc(memory, Loc8::C, Loc8::HlAddr);
}

/// LD D, A
pub fn ld_d_a(memory: &mut Memory, _value: Void)
    ensures
        final(memory)@ == ld_spec(old(memory)@, Loc8::D, Loc8::A),
{
    ld_loc(memory, Loc8::D, Loc8::A);
}

/// LD D, B
pub fn ld_d_b(memory: &mut Memory, _value: Void)
    ensures
        final(memory)@ == ld_spec(old(memory)@, Loc8::D, Loc8::B),
{
    ld_loc(memory, Loc8::D, Loc8::B);
}

/// LD D, C
pub fn ld_d_c(memory: &mut Memory, _value: Void)
    ensures
        final(memory)@ == ld_spec(old(memory)@, Loc8::D, Loc8::C),
{
    ld_loc(memory, Loc8::D, Loc8::C);
}

/// LD D, D
pub fn ld_d_d(memory: &mut Memory, _value: Void)
    ensures
        final(memory)@ == ld_spec(old(memory)@, Loc8::D, Loc8::D),
{
    ld_loc(memory, Loc8::D, Loc8::D);
}

/// LD D, E
pub fn ld_d_e(memory: &mut Memory, _value: Void)
    ensures
        final(memory)@ == ld_spec(old(memory)@, Loc8::D, Loc8::E),
{
    ld_loc(memory, Loc8::D, Loc8::E);
}

/// LD D, H
pub fn ld_d_h(memory: &mut Memory, _value: Void)
    ensures
        final(memory)@ == ld_spec(old(memory)@, Loc8::D, Loc8::H),
{
    ld_loc(memory, Loc8::D, Loc8::H);
}

/// LD D, L
pub fn ld_d_l(memory: &mut Memory, _value: Void)
    ensures
        final(memory)@ == ld_spec(old(memory)@, Loc8::D, Loc8::L),
{
    ld_loc(memory, Loc8::D, Loc8::L);
}

/// LD D, (HL)
pub fn ld_d_hl_addr(memory: &mut Memory, _value: Void)
    requires
        old(memory)@.loc_ok(Loc8::HlAddr),
    ensures
        final(memory)@ == ld_spec(old(memory)@, Loc8::D, Loc8::HlAddr),
{
    ld_loc(memory, Loc8::D, Loc8::HlAddr);
}

/// LD E, A
pub fn ld_e_a(memory: &mut Memory, _value: Void)
    ensures
        final(memory)@ == ld_spec(old(memory)@, Loc8::E, Loc8::A),
{
    ld_loc(memory, Loc8::E, Loc8::A);
}

/// LD E, B
pub fn ld_e_b(memory: &mut Memory, _value: Void)
    ensures
        final(memory)@ == ld_spec(old(memory)@, Loc8::E, Loc8::B),
{
    ld_loc(memory, Loc8::E, Loc8::B);
}

/// LD E, C
pub fn ld_e_c(memory: &mut Memory, _value: Void)
    ensures
        final(memory)@ == ld_spec(old(memory)@, Loc8::E, Loc8::C),
{
    ld_loc(memory, Loc8::E, Loc8::C);
}

/// LD E, D
pub fn ld_e_d(memory: &mut Memory, _value: Void)
    ensures
        final(memory)@ == ld_spec(old(memory)@, Loc8::E, Loc8::D),
{
    ld_loc(memory, Loc8::E, Loc8::D);
}

/// LD E, E
pub fn ld_e_e(memory: &mut Memory, _value: Void)
    ensures
        final(memory)@ == ld_spec(old(memory)@, Loc8::E, Loc8::E),
{
    ld_loc(memory, Loc8::E, Loc8::E);
}

/// LD E, H
pub fn ld_e_h(memory: &mut Memory, _value: Void)
    ensures
        final(memory)@ == ld_spec(old(memory)@, Loc8::E, Loc8::H),
{
    ld_loc(memory, Loc8::E, Loc8::H);
}

/// LD E, L
pub fn ld_e_l(memory: &mut Memory, _value: Void)
    ensures
        final(memory)@ == ld_spec(old(memory)@, Loc8::E, Loc8::L),
{
    ld_loc(memory, Loc8::E, Loc8::L);
}

/// LD E, (HL)
pub fn ld_e_hl_addr(memory: &mut Memory, _value: Void)
    requires
        old(memory)@.loc_ok(Loc8::HlAddr),
    ensures
        final(memory)@ == ld_spec(old(memory)@, Loc8::E, Loc8::HlAddr),
{
    ld_loc(memory, Loc8::E, Loc8::HlAddr);
}

/// LD H, A
pub fn ld_h_a(memory: &mut Memory, _value: Void)
    ensures
        final(memory)@ == ld_spec(old(memory)@, Loc8::H, Loc8::A),
{
    ld_loc(memory, Loc8::H, Loc8::A);
}

/// LD H, B
pub fn ld_h_b(memory: &mut Memory, _value: Void)
    ensures
        final(memory)@ == ld_spec(old(memory)@, Loc8::H, Loc8::B),
{
    ld_loc(memory, Loc8::H, Loc8::B);
}

/// LD H, C
pub fn ld_h_c(memory: &mut Memory, _value: Void)
    ensures
        final(memory)@ == ld_spec(old(memory)@, Loc8::H, Loc8::C),
{
    ld_loc(memory, Loc8::H, Loc8::C);
}

/// LD H, D
pub fn ld_h_d(memory: &mut Memory, _value: Void)
    ensures
        final(memory)@ == ld_spec(old(memory)@, Loc8::H, Loc8::D),
{
    ld_loc(memory, Loc8::H, Loc8::D);
}

/// LD H, E
pub fn ld_h_e(memory: &mut Memory, _value: Void)
    ensures
        final(memory)@ == ld_spec(old(memory)@, Loc8::H, Loc8::E),
{
    ld_loc(memory, Loc8::H, Loc8::E);
}

/// LD H, H
pub fn ld_h_h(memory: &mut Memory, _value: Void)
    ensures
        final(memory)@ == ld_spec(old(memory)@, Loc8::H, Loc8::H),
{
    ld_loc(memory, Loc8::H, Loc8::H);
}

/// LD H, L
pub fn ld_h_l(memory: &mut Memory, _value: Void)
    ensures
        final(memory)@ == ld_spec(old(memory)@, Loc8::H, Loc8::L),
{
    ld_loc(memory, Loc8::H, Loc8::L);
}

/// LD H, (HL)
pub fn ld_h_hl_addr(memory: &mut Memory, _value: Void)
    requires
        old(memory)@.loc_ok(Loc8::HlAddr),
    ensures
        final(memory)@ == ld_spec(old(memory)@, Loc8::H, Loc8::HlAddr),
{
    ld_loc(memory, Loc8::H, Loc8::HlAddr);
}

/// LD L, A
pub fn ld_l_a(memory: &mut Memory, _value: Void)
    ensures
        final(memory)@ == ld_spec(old(memory)@, Loc8::L, Loc8::A),
{
    ld_loc(memory, Loc8::L, Loc8::A);
}

/// LD L, B
pub fn ld_l_b(memory: &mut Memory, _value: Void)
    ensures
        final(memory)@ == ld_spec(old(memory)@, Loc8::L, Loc8::B),
{
    ld_loc(memory, Loc8::L, Loc8::B);
}

/// LD L, C
pub fn ld_l_c(memory: &mut Memory, _value: Void)
    ensures
        final(memory)@ == ld_spec(old(memory)@, Loc8::L, Loc8::C),
{
    ld_loc(memory, Loc8::L, Loc8::C);
}

/// LD L, D
pub fn ld_l_d(memory: &mut Memory, _value: Void)
    ensures
        final(memory)@ == ld_spec(old(memory)@, Loc8::L, Loc8::D),
{
    ld_loc(memory, Loc8::L, Loc8::D);
}

/// LD L, E
pub fn ld_l_e(memory: &mut Memory, _value: Void)
    ensures
        final(memory)@ == ld_spec(old(memory)@, Loc8::L, Loc8::E),
{
    ld_loc(memory, Loc8::L, Loc8::E);
}

/// LD L, H
pub fn ld_l_h(memory: &mut Memory, _value: Void)
    ensures
        final(memory)@ == ld_spec(old(memory)@, Loc8::L, Loc8::H),
{
    ld_loc(memory, Loc8::L, Loc8::H);
}

/// LD L, L
pub fn ld_l_l(memory: &mut Memory, _value: Void)
    ensures
        final(memory)@ == ld_spec(old(memory)@, Loc8::L, Loc8::L),
{
    ld_loc(memory, Loc8::L, Loc8::L);
}

/// LD L, (HL)
pub fn ld_l_hl_addr(memory: &mut Memory, _value: Void)
    requires
        old(memory)@.loc_ok(Loc8::HlAddr),
    ensures
        final(memory)@ == ld_spec(old(memory)@, Loc8::L, Loc8::HlAddr),
{
    ld_loc(memory, Loc8::L, Loc8::HlAddr);
}

/// LD (HL), A
pub fn ld_hl_addr_a(memory: &mut Memory, _value: Void)
    requires
        old(memory)@.loc_ok(Loc8::HlAddr),
    ensures
        final(memory)@ == ld_spec(old(memory)@, Loc8::HlAddr, Loc8::A),
{
    ld_loc(memory, Loc8::HlAddr, Loc8::A);
}

/// LD (HL), B
pub fn ld_hl_addr_b(memory: &mut Memory, _value: Void)
    requires
        old(memory)@.loc_ok(Loc8::HlAddr),
    ensures
        final(memory)@ == ld_spec(old(memory)@, Loc8::HlAddr, Loc8::B),
{
    ld_loc(memory, Loc8::HlAddr, Loc8::B);
}

/// LD (HL), C
pub fn ld_hl_addr_c(memory: &mut Memory, _value: Void)
    requires
        old(memory)@.loc_ok(Loc8::HlAddr),
    ensures
        final(memory)@ == ld_spec(old(memory)@, Loc8::HlAddr, Loc8::C),
{
    ld_loc(memory, Loc8::HlAddr, Loc8::C);
}

/// LD (HL), D
pub fn ld_hl_addr_d(memory: &mut Memory, _value: Void)
    requires
        old(memory)@.loc_ok(Loc8::HlAddr),
    ensures
        final(memory)@ == ld_spec(old(memory)@, Loc8::HlAddr, Loc8::D),
{
    ld_loc(memory, Loc8::HlAddr, Loc8::D);
}

/// LD (HL), E
pub fn ld_hl_addr_e(memory: &mut Memory, _value: Void)
    requires
        old(memory)@.loc_ok(Loc8::HlAddr),
    ensures
        final(memory)@ == ld_spec(old(memory)@, Loc8::HlAddr, Loc8::E),
{
    ld_loc(memory, Loc8::HlAddr, Loc8::E);
}

/// LD (HL), H
pub fn ld_hl_addr_h(memory: &mut Memory, _value: Void)
    requires
        old(memory)@.loc_ok(Loc8::HlAddr),
    ensures
        final(memory)@ == ld_spec(old(memory)@, Loc8::HlAddr, Loc8::H),
{
    ld_loc(memory, Loc8::HlAddr, Loc8::H);
}

/// LD (HL), L
pub fn ld_hl_addr_l(memory: &mut Memory, _value: Void)
    requires
        old(memory)@.loc_ok(Loc8::HlAddr),
    ensures
        final(memory)@ == ld_spec(old(memory)@, Loc8::HlAddr, Loc8::L),
{
    ld_loc(memory, Loc8::HlAddr, Loc8::L);
}

/// LD A, (BC)
pub fn ld_a_bc_addr(memory: &mut Memory, _value: Void)
    requires
        old(memory)@.mapped(indirect_address(old(memory)@, Indirect::Bc) as int),
    ensures
        final(memory)@ == ld_a_indirect_spec(old(memory)@, Indirect::Bc),
{
    ld_a_indirect(memory, Indirect::Bc);
}

/// LD (BC), A
pub fn ld_bc_addr_a(memory: &mut Memory, _value: Void)
    requires
        old(memory)@.mapped(indirect_address(old(memory)@, Indirect::Bc) as int),
    ensures
        final(memory)@ == ld_indirect_a_spec(old(memory)@, Indirect::Bc),
{
    ld_indirect_a(memory, Indirect::Bc);
}

/// LD A, (DE)
pub fn ld_a_de_addr(memory: &mut Memory, _value: Void)
    requires
        old(memory)@.mapped(indirect_address(old(memory)@, Indirect::De) as int),
    ensures
        final(memory)@ == ld_a_indirect_spec(old(memory)@, Indirect::De),
{
    ld_a_indirect(memory, Indirect::De);
}

/// LD (DE), A
pub fn ld_de_addr_a(memory: &mut Memory, _value: Void)
    requires
        old(memory)@.mapped(indirect_address(old(memory)@, Indirect::De) as int),
    ensures
        final(memory)@ == ld_indirect_a_spec(old(memory)@, Indirect::De),
{
    ld_indirect_a(memory, Indirect::De);
}

/// LD A, (HL+)
pub fn ld_a_hli_addr(memory: &mut Memory, _value: Void)
    requires
        old(memory)@.mapped(indirect_address(old(memory)@, Indirect::HlIncrement) as int),
    ensures
        final(memory)@ == ld_a_indirect_spec(old(memory)@, Indirect::HlIncrement),
{
    ld_a_indirect(memory, Indirect::HlIncrement);
}

/// LD (HL+), A
pub fn ld_hli_addr_a(memory: &mut Memory, _value: Void)
    requires
        old(memory)@.mapped(indirect_address(old(memory)@, Indirect::HlIncrement) as int),
    ensures
        final(memory)@ == ld_indirect_a_spec(old(memory)@, Indirect::HlIncrement),
{
    ld_indirect_a(memory, Indirect::HlIncrement);
}

/// LD A, (HL-)
pub fn ld_a_hld_addr(memory: &mut Memory, _value: Void)
    requires
        old(memory)@.mapped(indirect_address(old(memory)@, Indirect::HlDecrement) as int),
    ensures
        final(memory)@ == ld_a_indirect_spec(old(memory)@, Indirect::HlDecrement),
{
    ld_a_indirect(memory, Indirect::HlDecrement);
}

/// LD (HL-), A
pub fn ld_hld_addr_a(memory: &mut Memory, _value: Void)
    requires
        old(memory)@.mapped(indirect_address(old(memory)@, Indirect::HlDecrement) as int),
    ensures
        final(memory)@ == ld_indirect_a_spec(old(memory)@, Indirect::HlDecrement),
{
    ld_indirect_a(memory, Indirect::HlDecrement);
}

/// LDH A, (a8)
pub fn ldh_a_a8_addr(memory: &mut Memory, value: NearAddress)
    requires
        old(memory)@.mapped(far_of_near(value)),
    ensures
        final(memory)@ == old(memory)@.write_loc(Loc8::A, old(memory)@.bytes[far_of_near(value)]),
{
    let read_value = memory.read_near_addr(value);
    memory.registers.set_a(read_value);
}

/// LDH (a8), A
pub fn ldh_a8_addr_a(memory: &mut Memory, value: NearAddress)
    requires
        old(memory)@.mapped(far_of_near(value)),
    ensures
        final(memory)@ == old(memory)@.with_byte(far_of_near(value), old(memory)@.registers.a),
{
    let a = memory.registers.get_a();
    memory.write_near_addr(value, a);
}

/// LD A, (C)
pub fn ld_a_c_addr(memory: &mut Memory, _value: Void)
    requires
        old(memory)@.mapped(far_of_near(old(memory)@.registers.c)),
    ensures
        final(memory)@ == old(memory)@.write_loc(Loc8::A, old(memory)@.bytes[far_of_near(old(memory)@.registers.c)]),
{
    let c = memory.registers.get_c();
    let read_value = memory.read_near_addr(c);
    memory.registers.set_a(read_value);
}

/// LD (C), A
pub fn ld_c_addr_a(memory: &mut Memory, _value: Void)
    requires
        old(memory)@.mapped(far_of_near(old(memory)@.registers.c)),
    ensures
        final(memory)@ == old(memory)@.with_byte(far_of_near(old(memory)@.registers.c), old(memory)@.registers.a),
{
    let c = memory.registers.get_c();
    let a = memory.registers.get_a();
    memory.write_near_addr(c, a);
}

/// LD A, (a16)
pub fn ld_a_a16_addr(memory: &mut Memory, value: FarAddress)
    requires
        old(memory)@.mapped(value as int),
    ensures
        final(memory)@ == old(memory)@.write_loc(Loc8::A, old(memory)@.bytes[value as int]),
{
    let read_value = memory.read_far_addr(value);
    memory.registers.set_a(read_value);
}

/// LD (a16), A
pub fn ld_a16_addr_a(memory: &mut Memory, value: FarAddress)
    requires
        old(memory)@.mapped(value as int),
    ensures
        final(memory)@ == old(memory)@.with_byte(value as int, old(memory)@.registers.a),
{
    let a = memory.registers.get_a();
    memory.write_far_addr(value, a);
}

/// LD BC, d16
pub fn ld_bc_d16(memory: &mut Memory, value: WideValue)
    ensures
        final(memory)@ == old(memory)@.with_reg16(Reg16::BC, value),
{
    memory.set_reg16(Reg16::BC, value);
}

/// LD DE, d16
pub fn ld_de_d16(memory: &mut Memory, value: WideValue)
    ensures
        final(memory)@ == old(memory)@.with_reg16(Reg16::DE, value),
{
    memory.set_reg16(Reg16::DE, value);
}

/// LD HL, d16
pub fn ld_hl_d16(memory: &mut Memory, value: WideValue)
    ensures
        final(memory)@ == old(memory)@.with_reg16(Reg16::HL, value),
{
    memory.set_reg16(Reg16::HL, value);
}

/// LD SP, d16
pub fn ld_sp_d16(memory: &mut Memory, value: WideValue)
    ensures
        final(memory)@ == old(memory)@.with_reg16(Reg16::SP, value),
{
    memory.set_reg16(Reg16::SP, value);
}

/// LD SP, HL
pub fn ld_sp_hl(memory: &mut Memory, _value: Void)
    ensures
        final(memory)@ == old(memory)@.with_reg16(Reg16::SP, old(memory)@.hl()),
{
    let hl = memory.registers.get_hl();
    memory.registers.sp = hl;
}

/// LD (a16), SP: the stack pointer stored little-endian
pub fn ld_a16_addr_sp(memory: &mut Memory, value: FarAddress)
    requires
        old(memory)@.mapped(value + 1),
    ensures
        final(memory)@ == ld_far_sp_spec(old(memory)@, value),
{
    let sp = memory.registers.sp;
    memory.write_wide_far_addr(value, sp);
}

/// LD HL, SP + r8
pub fn ld_hl_sp_plus_r8(memory: &mut Memory, value: AddressOffset)
    ensures
        final(memory)@ == ld_hl_sp_offset_spec(old(memory)@, value),
{
    let old_value = memory.registers.sp;
    let offset = offset_to_far_address(value);
    let overflow = (old_value as u32) + (offset as u32) > 0xFFFF;
    memory.registers.set_hl(old_value.wrapping_add(offset));
    memory.set_flags(false, false, check_half_carry_wide_add(old_value, offset), overflow);
}

/// PUSH AF
pub fn push_af(memory: &mut Memory, _value: Void)
    requires
        old(memory)@.can_push(),
    ensures
        final(memory)@ == push_spec(old(memory)@, StackPair::AF),
{
    push_pair(memory, StackPair::AF);
}

/// PUSH BC
pub fn push_bc(memory: &mut Memory, _value: Void)
    requires
        old(memory)@.can_push(),
    ensures
        final(memory)@ == push_spec(old(memory)@, StackPair::BC),
{
    push_pair(memory, StackPair::BC);
}

/// PUSH DE
pub fn push_de(memory: &mut Memory, _value: Void)
    requires
        old(memory)@.can_push(),
    ensures
        final(memory)@ == push_spec(old(memory)@, StackPair::DE),
{
    push_pair(memory, StackPair::DE);
}

/// PUSH HL
pub fn push_hl(memory: &mut Memory, _value: Void)
    requires
        old(memory)@.can_push(),
    ensures
        final(memory)@ == push_spec(old(memory)@, StackPair::HL),
{
    push_pair(memory, StackPair::HL);
}

/// POP AF: the flags are loaded from the low byte
pub fn pop_af(memory: &mut Memory, _value: Void)
    requires
        old(memory)@.can_pop(),
    ensures
        final(memory)@ == pop_spec(old(memory)@, StackPair::AF),
{
    pop_pair(memory, StackPair::AF);
}

/// POP BC
pub fn pop_bc(memory: &mut Memory, _value: Void)
    requires
        old(memory)@.can_pop(),
    ensures
        final(memory)@ == pop_spec(old(memory)@, StackPair::BC),
{
    pop_pair(memory, StackPair::BC);
}

/// POP DE
pub fn pop_de(memory: &mut Memory, _value: Void)
    requires
        old(memory)@.can_pop(),
    ensures
        final(memory)@ == pop_spec(old(memory)@, StackPair::DE),
{
    pop_pair(memory, StackPair::DE);
}

/// POP HL
pub fn pop_hl(memory: &mut Memory, _value: Void)
    requires
        old(memory)@.can_pop(),
    ensures
        final(memory)@ == pop_spec(old(memory)@, StackPair::HL),
{
    pop_pair(memory, StackPair::HL);
}

} // verus!
