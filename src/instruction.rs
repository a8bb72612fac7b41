use vstd::prelude::*;

use crate::memory::{far_of_near, Loc8, MachineState, Memory, Reg16, StackPair};
use crate::operations::arithmetic::{
    add_hl_spec, add_hl_value, ccf, ccf_spec, cpl, cpl_spec, daa, daa_spec, dec_spec, dec_value,
    dec_wide, dec_wide_spec, inc_spec, inc_value, inc_wide, inc_wide_spec, scf, scf_spec,
};
use crate::operations::bits::{
    bit_loc, bit_spec, res_loc, res_spec, set_loc, set_spec, shift_a, shift_a_spec, shift_loc,
    shift_spec, Shift,
};
use crate::operations::jumps::{
    call, call_spec, jp_spec, jr_spec, jump, jump_relative, restart, ret_spec, return_from, rst_spec,
};
use crate::operations::load::{
    indirect_address, indirect_ok, ld_a_indirect, ld_a_indirect_spec, ld_far_sp_spec,
    ld_hl_sp_offset_spec, ld_indirect_a, ld_indirect_a_spec, ld_loc, ld_loc_value, ld_spec, pop_pair,
    pop_spec, push_pair, push_spec, Indirect,
};
use crate::operations::logical::{alu_loc, alu_spec, alu_value, AluOp};
use crate::operations::{check_condition, condition_holds, Condition, ExecutionError};
use crate::types::{AddressOffset, FarAddress, NearAddress, Value, Void, WideValue};

verus! {

/// An opcode byte.
pub type OpCode = u8;

/// The primary opcode that selects the prefixed table for the next byte.
pub const PREFIXED_OPCODE: OpCode = 0xCB;

/// The operations that take no operand.
#[derive(Clone, Copy, Debug, PartialEq, Eq, Structural)]
pub enum VoidOp {
    Nop,
    Inc(Loc8),
    Dec(Loc8),
    IncWide(Reg16),
    DecWide(Reg16),
    AddHl(Reg16),
    Alu(AluOp, Loc8),
    Cpl,
    Ccf,
    Scf,
    Daa,
    /// An accumulator short form: `RLCA`, `RRCA`, `RLA`, `RRA`.
    ShiftA(Shift),
    Shift(Shift, Loc8),
    TestBit(usize, Loc8),
    ResetBit(usize, Loc8),
    SetBit(usize, Loc8),
    Ld(Loc8, Loc8),
    LdAIndirect(Indirect),
    LdIndirectA(Indirect),
    /// `LD A, (C)`: near address `C`.
    LdAHighC,
    /// `LD (C), A`: near address `C`.
    LdHighCA,
    LdSpHl,
    Push(StackPair),
    Pop(StackPair),
    Ret(Condition),
    Reti,
    JpHl,
    Rst(FarAddress),
    /// An instruction whose behaviour is not modelled.
    Unimplemented,
    /// An opcode with no instruction.
    Undefined,
    /// The prefix opcode.
    Prefix,
}

/// The operations that take an 8-bit immediate.
#[derive(Clone, Copy, Debug, PartialEq, Eq, Structural)]
pub enum ValueOp {
    Ld(Loc8),
    Alu(AluOp),
    Unimplemented,
}

/// The operations that take a 16-bit immediate.
#[derive(Clone, Copy, Debug, PartialEq, Eq, Structural)]
pub enum WideOp {
    Ld(Reg16),
}

/// The operations that take a near address.
#[derive(Clone, Copy, Debug, PartialEq, Eq, Structural)]
pub enum NearOp {
    /// `LDH A, (a8)`.
    LdA,
    /// `LDH (a8), A`.
    LdFromA,
}

/// The operations that take a far address.
#[derive(Clone, Copy, Debug, PartialEq, Eq, Structural)]
pub enum FarOp {
    Jp(Condition),
    Call(Condition),
    /// `LD A, (a16)`.
    LdA,
    /// `LD (a16), A`.
    LdFromA,
    /// `LD (a16), SP`.
    LdFromSp,
}

/// The operations that take a signed offset.
#[derive(Clone, Copy, Debug, PartialEq, Eq, Structural)]
pub enum OffsetOp {
    Jr(Condition),
    /// `LD HL, SP + r8`.
    LdHlSp,
    Unimplemented,
}

/// An entry of an instruction table: the opcode, its mnemonic, its length
/// in bytes (opcode and operand), its cost in clock ticks when no branch is
/// taken and when one is, and the operation it runs.
#[derive(Debug)]
pub struct Instruction<T> {
    pub opcode: OpCode,
    pub disassembly: &'static str,
    pub byte_size: usize,
    pub clock_tick: u8,
    pub branch_clock_tick: u8,
    pub function: T,
}

/// An instruction tagged by the kind of operand it takes.
#[derive(Debug)]
pub enum GenericInstruction {
    /// Takes no operand.
    Void(Instruction<VoidOp>),
    /// Takes 8-bit data (d8).
    Value(Instruction<ValueOp>),
    /// Takes 16-bit little-endian data (d16).
    Wide(Instruction<WideOp>),
    /// Takes an 8-bit offset from the I/O page (a8).
    Near(Instruction<NearOp>),
    /// Takes a 16-bit little-endian address (a16).
    Far(Instruction<FarOp>),
    /// Takes a signed 8-bit offset (r8).
    Offset(Instruction<OffsetOp>),
}

/// `None` when `loc` can be accessed, else the fault.
pub open spec fn loc_fault(s: MachineState, loc: Loc8) -> Option<ExecutionError> {
    if s.loc_ok(loc) {
        None
    } else {
        Some(ExecutionError::OutOfRange(s.hl() as usize))
    }
}

/// `None` when `address` is mapped, else the fault.
pub open spec fn address_fault(s: MachineState, address: int) -> Option<ExecutionError> {
    if s.mapped(address) {
        None
    } else {
        Some(ExecutionError::OutOfRange(address as usize))
    }
}

/// `None` when a 16-bit value can be pushed, else the fault.
pub open spec fn push_fault(s: MachineState) -> Option<ExecutionError> {
    if s.can_push() {
        None
    } else {
        Some(ExecutionError::StackOverflow(s.registers.sp))
    }
}

/// `None` when a 16-bit value can be popped, else the fault.
pub open spec fn pop_fault(s: MachineState) -> Option<ExecutionError> {
    if s.can_pop() {
        None
    } else {
        Some(ExecutionError::StackUnderflow(s.registers.sp))
    }
}

/// `None` when bit `index` of `loc` can be accessed, else the fault.
pub open spec fn bit_fault(s: MachineState, index: usize, loc: Loc8) -> Option<ExecutionError> {
    if index >= 8 {
        Some(ExecutionError::OutOfRange(index))
    } else {
        loc_fault(s, loc)
    }
}

/// Why `op` cannot run on `s`, if it cannot.
pub open spec fn void_fault(s: MachineState, op: VoidOp, opcode: u8) -> Option<ExecutionError> {
    match op {
        VoidOp::Inc(loc) | VoidOp::Dec(loc) | VoidOp::Alu(_, loc) | VoidOp::Shift(_, loc) => loc_fault(s, loc),
        VoidOp::TestBit(i, loc) | VoidOp::ResetBit(i, loc) | VoidOp::SetBit(i, loc) => bit_fault(s, i, loc),
        VoidOp::Ld(dst, src) => if loc_fault(s, dst) is Some {
            loc_fault(s, dst)
        } else {
            loc_fault(s, src)
        },
        VoidOp::LdAIndirect(ind) | VoidOp::LdIndirectA(ind) => address_fault(s, indirect_address(s, ind) as int),
        VoidOp::LdAHighC | VoidOp::LdHighCA => address_fault(s, far_of_near(s.registers.c)),
        VoidOp::Push(_) | VoidOp::Rst(_) => push_fault(s),
        VoidOp::Pop(_) | VoidOp::Reti => pop_fault(s),
        VoidOp::Ret(cond) => if condition_holds(s.registers, cond) {
            pop_fault(s)
        } else {
            None
        },
        VoidOp::Unimplemented => Some(ExecutionError::Unimplemented(opcode)),
        VoidOp::Undefined => Some(ExecutionError::Undefined(opcode)),
        VoidOp::Prefix => Some(ExecutionError::Prefix),
        _ => None,
    }
}

/// The state after `op` runs on `s`.
pub open spec fn void_spec(s: MachineState, op: VoidOp) -> MachineState {
    match op {
        VoidOp::Inc(loc) => inc_spec(s, loc),
        VoidOp::Dec(loc) => dec_spec(s, loc),
        VoidOp::IncWide(reg) => inc_wide_spec(s, reg),
        VoidOp::DecWide(reg) => dec_wide_spec(s, reg),
        VoidOp::AddHl(reg) => add_hl_spec(s, reg),
        VoidOp::Alu(alu, loc) => alu_spec(s, alu, s.read_loc(loc)),
        VoidOp::Cpl => cpl_spec(s),
        VoidOp::Ccf => ccf_spec(s),
        VoidOp::Scf => scf_spec(s),
        VoidOp::Daa => daa_spec(s),
        VoidOp::ShiftA(shift) => shift_a_spec(s, shift),
        VoidOp::Shift(shift, loc) => shift_spec(s, shift, loc),
        VoidOp::TestBit(i, loc) => bit_spec(s, i, loc),
        VoidOp::ResetBit(i, loc) => res_spec(s, i, loc),
        VoidOp::SetBit(i, loc) => set_spec(s, i, loc),
        VoidOp::Ld(dst, src) => ld_spec(s, dst, src),
        VoidOp::LdAIndirect(ind) => ld_a_indirect_spec(s, ind),
        VoidOp::LdIndirectA(ind) => ld_indirect_a_spec(s, ind),
        VoidOp::LdAHighC => s.write_loc(Loc8::A, s.bytes[far_of_near(s.registers.c)]),
        VoidOp::LdHighCA => s.with_byte(far_of_near(s.registers.c), s.registers.a),
        VoidOp::LdSpHl => s.with_reg16(Reg16::SP, s.hl()),
        VoidOp::Push(pair) => push_spec(s, pair),
        VoidOp::Pop(pair) => pop_spec(s, pair),
        VoidOp::Ret(cond) => ret_spec(s, cond),
        VoidOp::Reti => MachineState { interrupts_enabled: true, ..ret_spec(s, Condition::Always) },
        VoidOp::JpHl => s.with_pc(s.hl()),
        VoidOp::Rst(vector) => rst_spec(s, vector),
        _ => s,
    }
}

/// Why `op` cannot run on `s` with operand `value`, if it cannot.
pub open spec fn value_fault(s: MachineState, op: ValueOp, opcode: u8) -> Option<ExecutionError> {
    match op {
        ValueOp::Ld(loc) => loc_fault(s, loc),
        ValueOp::Alu(_) => None,
        ValueOp::Unimplemented => Some(ExecutionError::Unimplemented(opcode)),
    }
}

pub open spec fn value_spec(s: MachineState, op: ValueOp, value: u8) -> MachineState {
    match op {
        ValueOp::Ld(loc) => s.write_loc(loc, value),
        ValueOp::Alu(alu) => alu_spec(s, alu, value),
        ValueOp::Unimplemented => s,
    }
}

pub open spec fn wide_spec(s: MachineState, op: WideOp, value: u16) -> MachineState {
    match op {
        WideOp::Ld(reg) => s.with_reg16(reg, value),
    }
}

pub open spec fn near_fault(s: MachineState, op: NearOp, addr: u8) -> Option<ExecutionError> {
    address_fault(s, far_of_near(addr))
}

pub open spec fn near_spec(s: MachineState, op: NearOp, addr: u8) -> MachineState {
    match op {
        NearOp::LdA => s.write_loc(Loc8::A, s.bytes[far_of_near(addr)]),
        NearOp::LdFromA => s.with_byte(far_of_near(addr), s.registers.a),
    }
}

pub open spec fn far_fault(s: MachineState, op: FarOp, addr: u16) -> Option<ExecutionError> {
    match op {
        FarOp::Jp(_) => None,
        FarOp::Call(cond) => if condition_holds(s.registers, cond) {
            push_fault(s)
        } else {
            None
        },
        FarOp::LdA | FarOp::LdFromA => address_fault(s, addr as int),
        FarOp::LdFromSp => address_fault(s, addr + 1),
    }
}

pub open spec fn far_spec(s: MachineState, op: FarOp, addr: u16) -> MachineState {
    match op {
        FarOp::Jp(cond) => jp_spec(s, cond, addr),
        FarOp::Call(cond) => call_spec(s, cond, addr),
        FarOp::LdA => s.write_loc(Loc8::A, s.bytes[addr as int]),
        FarOp::LdFromA => s.with_byte(addr as int, s.registers.a),
        FarOp::LdFromSp => ld_far_sp_spec(s, addr),
    }
}

pub open spec fn offset_fault(s: MachineState, op: OffsetOp, opcode: u8) -> Option<ExecutionError> {
    match op {
        OffsetOp::Unimplemented => Some(ExecutionError::Unimplemented(opcode)),
        _ => None,
    }
}

pub open spec fn offset_spec(s: MachineState, op: OffsetOp, offset: i8) -> MachineState {
    match op {
        OffsetOp::Jr(cond) => jr_spec(s, cond, offset),
        OffsetOp::LdHlSp => ld_hl_sp_offset_spec(s, offset),
        OffsetOp::Unimplemented => s,
    }
}

/// `Ok` when there is no fault, else the fault.
pub open spec fn result_of(fault: Option<ExecutionError>) -> Result<(), ExecutionError> {
    match fault {
        Some(e) => Err(e),
        None => Ok(()),
    }
}

/// The fault of accessing `loc`, if any.
fn check_loc(memory: &Memory, loc: Loc8) -> (r: Option<ExecutionError>)
    ensures
        r == loc_fault(memory@, loc),
{
    if memory.loc_ok(loc) {
        None
    } else {
        Some(ExecutionError::OutOfRange(memory.registers.get_hl() as usize))
    }
}

/// The fault of accessing `address`, if any.
fn check_address(memory: &Memory, address: usize) -> (r: Option<ExecutionError>)
    ensures
        r == address_fault(memory@, address as int),
{
    if memory.is_mapped(address) {
        None
    } else {
        Some(ExecutionError::OutOfRange(address))
    }
}

fn check_push(memory: &Memory) -> (r: Option<ExecutionError>)
    ensures
        r == push_fault(memory@),
{
    if memory.can_push() {
        None
    } else {
        Some(ExecutionError::StackOverflow(memory.registers.sp))
    }
}

fn check_pop(memory: &Memory) -> (r: Option<ExecutionError>)
    ensures
        r == pop_fault(memory@),
{
    if memory.can_pop() {
        None
    } else {
        Some(ExecutionError::StackUnderflow(memory.registers.sp))
    }
}

fn check_bit(memory: &Memory, index: usize, loc: Loc8) -> (r: Option<ExecutionError>)
    ensures
        r == bit_fault(memory@, index, loc),
{
    if index >= 8 {
        Some(ExecutionError::OutOfRange(index))
    } else {
        check_loc(memory, loc)
    }
}

/// Why `op` cannot run, if it cannot.
pub fn void_check(memory: &Memory, op: VoidOp, opcode: OpCode) -> (r: Option<ExecutionError>)
    ensures
        r == void_fault(memory@, op, opcode),
{
    match op {
        VoidOp::Inc(loc) | VoidOp::Dec(loc) | VoidOp::Alu(_, loc) | VoidOp::Shift(_, loc) => check_loc(memory, loc),
        VoidOp::TestBit(i, loc) | VoidOp::ResetBit(i, loc) | VoidOp::SetBit(i, loc) => check_bit(memory, i, loc),
        VoidOp::Ld(dst, src) => {
            let fault = check_loc(memory, dst);
            if fault.is_some() {
                fault
            } else {
                check_loc(memory, src)
            }
        },
        VoidOp::LdAIndirect(ind) | VoidOp::LdIndirectA(ind) => {
            if indirect_ok(memory, ind) {
                None
            } else {
                let address = match ind {
                    Indirect::Bc => memory.registers.get_bc(),
                    Indirect::De => memory.registers.get_de(),
                    _ => memory.registers.get_hl(),
                };
                Some(ExecutionError::OutOfRange(address as usize))
            }
        },
        VoidOp::LdAHighC | VoidOp::LdHighCA => check_address(memory, Memory::near_to_far(memory.registers.c)),
        VoidOp::Push(_) | VoidOp::Rst(_) => check_push(memory),
        VoidOp::Pop(_) | VoidOp::Reti => check_pop(memory),
        VoidOp::Ret(cond) => {
            if check_condition(&memory.registers, cond) {
                check_pop(memory)
            } else {
                None
            }
        },
        VoidOp::Unimplemented => Some(ExecutionError::Unimplemented(opcode)),
        VoidOp::Undefined => Some(ExecutionError::Undefined(opcode)),
        VoidOp::Prefix => Some(ExecutionError::Prefix),
        _ => None,
    }
}

/// Runs `op`, which can run.
pub fn void_run(memory: &mut Memory, op: VoidOp, opcode: OpCode)
    requires
        void_fault(old(memory)@, op, opcode) is None,
    ensures
        final(memory)@ == void_spec(old(memory)@, op),
{
    match op {
        VoidOp::Inc(_) | VoidOp::Dec(_) | VoidOp::IncWide(_) | VoidOp::DecWide(_) | VoidOp::AddHl(_)
        | VoidOp::Alu(_, _) | VoidOp::Cpl | VoidOp::Ccf | VoidOp::Scf | VoidOp::Daa => run_arithmetic(memory, op, opcode),
        VoidOp::ShiftA(_) | VoidOp::Shift(_, _) | VoidOp::TestBit(_, _) | VoidOp::ResetBit(_, _)
        | VoidOp::SetBit(_, _) => run_bits(memory, op, opcode),
        VoidOp::Ld(_, _) | VoidOp::LdAIndirect(_) | VoidOp::LdIndirectA(_) | VoidOp::LdAHighC
        | VoidOp::LdHighCA | VoidOp::LdSpHl | VoidOp::Push(_) | VoidOp::Pop(_) => run_load(memory, op, opcode),
        _ => run_control(memory, op, opcode),
    }
}

/// Runs an arithmetic or logical `op`.
fn run_arithmetic(memory: &mut Memory, op: VoidOp, opcode: OpCode)
    requires
        void_fault(old(memory)@, op, opcode) is None,
    ensures
        final(memory)@ == void_spec(old(memory)@, op) || !(op is Inc || op is Dec || op is IncWide || op is DecWide
            || op is AddHl || op is Alu || op is Cpl || op is Ccf || op is Scf || op is Daa),
{
    match op {
        VoidOp::Inc(loc) => inc_value(memory, loc),
        VoidOp::Dec(loc) => dec_value(memory, loc),
        VoidOp::IncWide(reg) => inc_wide(memory, reg),
        VoidOp::DecWide(reg) => dec_wide(memory, reg),
        VoidOp::AddHl(reg) => add_hl_value(memory, reg),
        VoidOp::Alu(alu, loc) => alu_loc(memory, alu, loc),
        VoidOp::Cpl => cpl(memory, ()),
        VoidOp::Ccf => ccf(memory, ()),
        VoidOp::Scf => scf(memory, ()),
        VoidOp::Daa => daa(memory, ()),
        _ => {},
    }
}

/// Runs a rotate, shift or single-bit `op`.
fn run_bits(memory: &mut Memory, op: VoidOp, opcode: OpCode)
    requires
        void_fault(old(memory)@, op, opcode) is None,
    ensures
        final(memory)@ == void_spec(old(memory)@, op) || !(op is ShiftA || op is Shift || op is TestBit
            || op is ResetBit || op is SetBit),
{
    match op {
        VoidOp::ShiftA(shift) => shift_a(memory, shift),
        VoidOp::Shift(shift, loc) => shift_loc(memory, shift, loc),
        VoidOp::TestBit(i, loc) => bit_loc(memory, i, loc),
        VoidOp::ResetBit(i, loc) => res_loc(memory, i, loc),
        VoidOp::SetBit(i, loc) => set_loc(memory, i, loc),
        _ => {},
    }
}

/// Runs a load, push or pop `op`.
fn run_load(memory: &mut Memory, op: VoidOp, opcode: OpCode)
    requires
        void_fault(old(memory)@, op, opcode) is None,
    ensures
        final(memory)@ == void_spec(old(memory)@, op) || !(op is Ld || op is LdAIndirect || op is LdIndirectA
            || op is LdAHighC || op is LdHighCA || op is LdSpHl || op is Push || op is Pop),
{
    match op {
        VoidOp::Ld(dst, src) => ld_loc(memory, dst, src),
        VoidOp::LdAIndirect(ind) => ld_a_indirect(memory, ind),
        VoidOp::LdIndirectA(ind) => ld_indirect_a(memory, ind),
        VoidOp::LdAHighC => {
            let c = memory.registers.get_c();
            let value = memory.read_near_addr(c);
            memory.registers.set_a(value);
        },
        VoidOp::LdHighCA => {
            let c = memory.registers.get_c();
            let a = memory.registers.get_a();
            memory.write_near_addr(c, a);
        },
        VoidOp::LdSpHl => {
            let hl = memory.registers.get_hl();
            memory.registers.sp = hl;
        },
        VoidOp::Push(pair) => push_pair(memory, pair),
        VoidOp::Pop(pair) => pop_pair(memory, pair),
        _ => {},
    }
}

/// Runs a control-flow or no-operation `op`.
fn run_control(memory: &mut Memory, op: VoidOp, opcode: OpCode)
    requires
        void_fault(old(memory)@, op, opcode) is None,
    ensures
        final(memory)@ == void_spec(old(memory)@, op) || !(op is Nop || op is Ret || op is Reti || op is JpHl
            || op is Rst),
{
    match op {
        VoidOp::Ret(cond) => return_from(memory, cond),
        VoidOp::Reti => {
            return_from(memory, Condition::Always);
            memory.interrupts_enabled = true;
        },
        VoidOp::JpHl => {
            let hl = memory.registers.get_hl();
            memory.registers.pc = hl;
        },
        VoidOp::Rst(vector) => restart(memory, vector),
        _ => {},
    }
}

/// Why `op` cannot run, if it cannot.
pub fn value_check(memory: &Memory, op: ValueOp, opcode: OpCode) -> (r: Option<ExecutionError>)
    ensures
        r == value_fault(memory@, op, opcode),
{
    match op {
        ValueOp::Ld(loc) => check_loc(memory, loc),
        ValueOp::Alu(_) => None,
        ValueOp::Unimplemented => Some(ExecutionError::Unimplemented(opcode)),
    }
}

/// Runs `op` on an 8-bit immediate.
pub fn value_run(memory: &mut Memory, op: ValueOp, opcode: OpCode, value: Value)
    requires
        value_fault(old(memory)@, op, opcode) is None,
    ensures
        final(memory)@ == value_spec(old(memory)@, op, value),
{
    match op {
        ValueOp::Ld(loc) => ld_loc_value(memory, loc, value),
        ValueOp::Alu(alu) => alu_value(memory, alu, value),
        ValueOp::Unimplemented => {},
    }
}

/// Runs `op` on a 16-bit immediate.
pub fn wide_run(memory: &mut Memory, op: WideOp, value: WideValue)
    ensures
        final(memory)@ == wide_spec(old(memory)@, op, value),
{
    match op {
        WideOp::Ld(reg) => memory.set_reg16(reg, value),
    }
}

/// Why `op` cannot run on near address `addr`, if it cannot.
pub fn near_check(memory: &Memory, op: NearOp, addr: NearAddress) -> (r: Option<ExecutionError>)
    ensures
        r == near_fault(memory@, op, addr),
{
    check_address(memory, Memory::near_to_far(addr))
}

/// Runs `op` on near address `addr`.
pub fn near_run(memory: &mut Memory, op: NearOp, addr: NearAddress)
    requires
        near_fault(old(memory)@, op, addr) is None,
    ensures
        final(memory)@ == near_spec(old(memory)@, op, addr),
{
    match op {
        NearOp::LdA => {
            let value = memory.read_near_addr(addr);
            memory.registers.set_a(value);
        },
        NearOp::LdFromA => {
            let a = memory.registers.get_a();
            memory.write_near_addr(addr, a);
        },
    }
}

/// Why `op` cannot run on far address `addr`, if it cannot.
pub fn far_check(memory: &Memory, op: FarOp, addr: FarAddress) -> (r: Option<ExecutionError>)
    ensures
        r == far_fault(memory@, op, addr),
{
    match op {
        FarOp::Jp(_) => None,
        FarOp::Call(cond) => {
            if check_condition(&memory.registers, cond) {
                check_push(memory)
            } else {
                None
            }
        },
        FarOp::LdA | FarOp::LdFromA => check_address(memory, addr as usize),
        FarOp::LdFromSp => check_address(memory, addr as usize + 1),
    }
}

/// Runs `op` on far address `addr`.
pub fn far_run(memory: &mut Memory, op: FarOp, addr: FarAddress)
    requires
        far_fault(old(memory)@, op, addr) is None,
    ensures
        final(memory)@ == far_spec(old(memory)@, op, addr),
{
    match op {
        FarOp::Jp(cond) => jump(memory, cond, addr),
        FarOp::Call(cond) => call(memory, cond, addr),
        FarOp::LdA => {
            let value = memory.read_far_addr(addr);
            memory.registers.set_a(value);
        },
        FarOp::LdFromA => {
            let a = memory.registers.get_a();
            memory.write_far_addr(addr, a);
        },
        FarOp::LdFromSp => {
            let sp = memory.registers.sp;
            memory.write_wide_far_addr(addr, sp);
        },
    }
}

/// Runs `op` on a signed offset.
pub fn offset_run(memory: &mut Memory, op: OffsetOp, offset: AddressOffset)
    ensures
        final(memory)@ == offset_spec(old(memory)@, op, offset),
{
    match op {
        OffsetOp::Jr(cond) => jump_relative(memory, cond, offset),
        OffsetOp::LdHlSp => crate::operations::load::ld_hl_sp_plus_r8(memory, offset),
        OffsetOp::Unimplemented => {},
    }
}

impl Instruction<VoidOp> {
    /// Runs the instruction: its operation, or the fault that stops it, in
    /// which case nothing changes.
    pub fn execute(&self, memory: &mut Memory, _value: Void) -> (r: Result<(), ExecutionError>)
        ensures
            r == result_of(void_fault(old(memory)@, self.function, self.opcode)),
            r is Ok ==> final(memory)@ == void_spec(old(memory)@, self.function),
            r is Err ==> final(memory)@ == old(memory)@,
    {
        match void_check(memory, self.function, self.opcode) {
            Some(e) => Err(e),
            None => {
                void_run(memory, self.function, self.opcode);
                Ok(())
            },
        }
    }
}

impl Instruction<ValueOp> {
    /// Runs the instruction on an 8-bit immediate.
    pub fn execute(&self, memory: &mut Memory, value: Value) -> (r: Result<(), ExecutionError>)
        ensures
            r == result_of(value_fault(old(memory)@, self.function, self.opcode)),
            r is Ok ==> final(memory)@ == value_spec(old(memory)@, self.function, value),
            r is Err ==> final(memory)@ == old(memory)@,
    {
        match value_check(memory, self.function, self.opcode) {
            Some(e) => Err(e),
            None => {
                value_run(memory, self.function, self.opcode, value);
                Ok(())
            },
        }
    }
}

impl Instruction<WideOp> {
    /// Runs the instruction on a 16-bit immediate.
    pub fn execute(&self, memory: &mut Memory, value: WideValue) -> (r: Result<(), ExecutionError>)
        ensures
            r is Ok,
            final(memory)@ == wide_spec(old(memory)@, self.function, value),
    {
        wide_run(memory, self.function, value);
        Ok(())
    }
}

impl Instruction<NearOp> {
    /// Runs the instruction on a near address.
    pub fn execute(&self, memory: &mut Memory, value: NearAddress) -> (r: Result<(), ExecutionError>)
        ensures
            r == result_of(near_fault(old(memory)@, self.function, value)),
            r is Ok ==> final(memory)@ == near_spec(old(memory)@, self.function, value),
            r is Err ==> final(memory)@ == old(memory)@,
    {
        match near_check(memory, self.function, value) {
            Some(e) => Err(e),
            None => {
                near_run(memory, self.function, value);
                Ok(())
            },
        }
    }
}

impl Instruction<FarOp> {
    /// Runs the instruction on a far address.
    pub fn execute(&self, memory: &mut Memory, value: FarAddress) -> (r: Result<(), ExecutionError>)
        ensures
            r == result_of(far_fault(old(memory)@, self.function, value)),
            r is Ok ==> final(memory)@ == far_spec(old(memory)@, self.function, value),
            r is Err ==> final(memory)@ == old(memory)@,
    {
        match far_check(memory, self.function, value) {
            Some(e) => Err(e),
            None => {
                far_run(memory, self.function, value);
                Ok(())
            },
        }
    }
}

impl Instruction<OffsetOp> {
    /// Runs the instruction on a signed offset.
    pub fn execute(&self, memory: &mut Memory, value: AddressOffset) -> (r: Result<(), ExecutionError>)
        ensures
            r == result_of(offset_fault(old(memory)@, self.function, self.opcode)),
            r is Ok ==> final(memory)@ == offset_spec(old(memory)@, self.function, value),
            r is Err ==> final(memory)@ == old(memory)@,
    {
        match self.function {
            OffsetOp::Unimplemented => Err(ExecutionError::Unimplemented(self.opcode)),
            _ => {
                offset_run(memory, self.function, value);
                Ok(())
            },
        }
    }
}

/// Fails for an instruction whose behaviour is not modelled, naming it.
pub fn unimplemented<T>(instr: &Instruction<T>, memory: &mut Memory, _value: Void) -> (r: Result<(), ExecutionError>)
    ensures
        r == Err::<(), ExecutionError>(ExecutionError::Unimplemented(instr.opcode)),
        final(memory)@ == old(memory)@,
{
    Err(ExecutionError::Unimplemented(instr.opcode))
}

} // verus!
