use vstd::prelude::*;

use crate::conversions::{pair_to_wide, wide_of};
use crate::instruction::{
    far_fault, far_spec, near_fault, near_spec, offset_fault, offset_spec, value_fault, value_spec,
    void_fault, void_spec, wide_spec, FarOp, GenericInstruction, Instruction, NearOp, OffsetOp,
    ValueOp, VoidOp, WideOp, PREFIXED_OPCODE,
};
use crate::instruction_set::{instruction_from_opcode, instruction_of, primary_instruction};
use crate::memory::{MachineState, Memory};
use crate::operations::{check_condition, condition_holds, ExecutionError};
use crate::types::{AddressOffset, FarAddress, Value};

verus! {

/// `address + k` with 16-bit wraparound.
pub open spec fn wrap(address: u16, k: int) -> u16 {
    ((address + k) % 0x1_0000) as u16
}

/// A byte read as a two's-complement signed value.
pub open spec fn signed_of(byte: u8) -> i8 {
    if byte < 128 {
        byte as i8
    } else {
        (byte - 256) as i8
    }
}

/// The byte at `address`.
pub open spec fn byte_at(s: MachineState, address: u16) -> u8 {
    s.bytes[address as int]
}

/// The instruction that starts at `PC`: looked up in the prefixed table
/// with the next byte when the first is the prefix opcode.
pub open spec fn decoded(s: MachineState) -> GenericInstruction {
    let pc = s.registers.pc;
    if byte_at(s, pc) == PREFIXED_OPCODE {
        instruction_of(byte_at(s, wrap(pc, 1)), true)
    } else {
        instruction_of(byte_at(s, pc), false)
    }
}

/// The number of operand bytes after the opcode.
pub open spec fn operand_len(instr: GenericInstruction) -> int {
    match instr {
        GenericInstruction::Void(_) => 0,
        GenericInstruction::Value(_) | GenericInstruction::Near(_) | GenericInstruction::Offset(_) => 1,
        GenericInstruction::Wide(_) | GenericInstruction::Far(_) => 2,
    }
}

pub open spec fn byte_size_of(instr: GenericInstruction) -> usize {
    match instr {
        GenericInstruction::Void(i) => i.byte_size,
        GenericInstruction::Value(i) => i.byte_size,
        GenericInstruction::Wide(i) => i.byte_size,
        GenericInstruction::Near(i) => i.byte_size,
        GenericInstruction::Far(i) => i.byte_size,
        GenericInstruction::Offset(i) => i.byte_size,
    }
}

/// The cost of the instruction when its branch is taken or not.
pub open spec fn clock_of(instr: GenericInstruction, taken: bool) -> u8 {
    match instr {
        GenericInstruction::Void(i) => if taken { i.branch_clock_tick } else { i.clock_tick },
        GenericInstruction::Value(i) => if taken { i.branch_clock_tick } else { i.clock_tick },
        GenericInstruction::Wide(i) => if taken { i.branch_clock_tick } else { i.clock_tick },
        GenericInstruction::Near(i) => if taken { i.branch_clock_tick } else { i.clock_tick },
        GenericInstruction::Far(i) => if taken { i.branch_clock_tick } else { i.clock_tick },
        GenericInstruction::Offset(i) => if taken { i.branch_clock_tick } else { i.clock_tick },
    }
}

/// Whether the instruction branches on `s`: a jump, call or return whose
/// condition holds.
pub open spec fn branch_taken(s: MachineState, instr: GenericInstruction) -> bool {
    match instr {
        GenericInstruction::Void(i) => match i.function {
            VoidOp::Ret(cond) => condition_holds(s.registers, cond),
            VoidOp::Reti | VoidOp::JpHl | VoidOp::Rst(_) => true,
            _ => false,
        },
        GenericInstruction::Far(i) => match i.function {
            FarOp::Jp(cond) | FarOp::Call(cond) => condition_holds(s.registers, cond),
            _ => false,
        },
        GenericInstruction::Offset(i) => match i.function {
            OffsetOp::Jr(cond) => condition_holds(s.registers, cond),
            _ => false,
        },
        _ => false,
    }
}

/// Why the bytes of the instruction at `PC` cannot be read, if they cannot.
pub open spec fn fetch_fault(s: MachineState) -> Option<ExecutionError> {
    let pc = s.registers.pc;
    if !s.mapped(pc as int) {
        Some(ExecutionError::OutOfRange(pc as usize))
    } else if byte_at(s, pc) == PREFIXED_OPCODE && !s.mapped(wrap(pc, 1) as int) {
        Some(ExecutionError::OutOfRange(wrap(pc, 1) as usize))
    } else if operand_len(decoded(s)) >= 1 && !s.mapped(wrap(pc, 1) as int) {
        Some(ExecutionError::OutOfRange(wrap(pc, 1) as usize))
    } else if operand_len(decoded(s)) >= 2 && !s.mapped(wrap(pc, 2) as int) {
        Some(ExecutionError::OutOfRange(wrap(pc, 2) as usize))
    } else {
        None
    }
}

/// The state once `PC` has moved past the whole instruction.
pub open spec fn advanced(s: MachineState) -> MachineState {
    s.with_pc(wrap(s.registers.pc, byte_size_of(decoded(s)) as u16 as int))
}

/// The 8-bit operand of the instruction at `PC`.
pub open spec fn operand8(s: MachineState) -> u8 {
    byte_at(s, wrap(s.registers.pc, 1))
}

/// The 16-bit little-endian operand of the instruction at `PC`.
pub open spec fn operand16(s: MachineState) -> u16 {
    wide_of(byte_at(s, wrap(s.registers.pc, 2)), byte_at(s, wrap(s.registers.pc, 1)))
}

/// Why the instruction at `PC`, once fetched, cannot run, if it cannot.
pub open spec fn run_fault(s: MachineState) -> Option<ExecutionError> {
    let t = advanced(s);
    match decoded(s) {
        GenericInstruction::Void(i) => void_fault(t, i.function, i.opcode),
        GenericInstruction::Value(i) => value_fault(t, i.function, i.opcode),
        GenericInstruction::Wide(_) => None,
        GenericInstruction::Near(i) => near_fault(t, i.function, operand8(s)),
        GenericInstruction::Far(i) => far_fault(t, i.function, operand16(s)),
        GenericInstruction::Offset(i) => offset_fault(t, i.function, i.opcode),
    }
}

/// Why one step from `s` fails, if it does.
pub open spec fn step_fault(s: MachineState) -> Option<ExecutionError> {
    if fetch_fault(s) is Some {
        fetch_fault(s)
    } else {
        run_fault(s)
    }
}

/// The state after one successful step from `s`.
pub open spec fn step_state(s: MachineState) -> MachineState {
    let t = advanced(s);
    match decoded(s) {
        GenericInstruction::Void(i) => void_spec(t, i.function),
        GenericInstruction::Value(i) => value_spec(t, i.function, operand8(s)),
        GenericInstruction::Wide(i) => wide_spec(t, i.function, operand16(s)),
        GenericInstruction::Near(i) => near_spec(t, i.function, operand8(s)),
        GenericInstruction::Far(i) => far_spec(t, i.function, operand16(s)),
        GenericInstruction::Offset(i) => offset_spec(t, i.function, signed_of(operand8(s))),
    }
}

/// The cost of one successful step from `s`, in clock ticks.
pub open spec fn step_cycles(s: MachineState) -> u8 {
    clock_of(decoded(s), branch_taken(advanced(s), decoded(s)))
}

/// A byte read as a two's-complement signed value.
pub fn to_signed(byte: Value) -> (r: AddressOffset)
    ensures
        r == signed_of(byte),
{
    if byte < 128 {
        byte as i8
    } else {
        (byte as i16 - 256) as i8
    }
}

/// Reads the byte at `address`, or reports it out of range.
fn fetch_byte(memory: &Memory, address: FarAddress) -> (r: Result<Value, ExecutionError>)
    ensures
        memory@.mapped(address as int) ==> r == Ok::<Value, ExecutionError>(byte_at(memory@, address)),
        !memory@.mapped(address as int) ==> r == Err::<Value, ExecutionError>(
            ExecutionError::OutOfRange(address as usize),
        ),
{
    if memory.is_mapped(address as usize) {
        Ok(memory.read_far_addr(address))
    } else {
        Err(ExecutionError::OutOfRange(address as usize))
    }
}

/// The outcome that `step` promises from `s`.
pub open spec fn step_result(s: MachineState) -> Result<u8, ExecutionError> {
    match step_fault(s) {
        Some(e) => Err(e),
        None => Ok(step_cycles(s)),
    }
}

/// Runs one instruction: fetches the opcode at `PC` (and the next byte after
/// the prefix opcode), looks it up, reads its operand bytes (16-bit operands
/// little-endian), moves `PC` past the whole instruction, then runs it.
/// Returns its cost in clock ticks. When it fails nothing changes.
pub fn step(memory: &mut Memory) -> (r: Result<u8, ExecutionError>)
    ensures
        r == step_result(old(memory)@),
        r is Ok ==> final(memory)@ == step_state(old(memory)@),
        r is Err ==> final(memory)@ == old(memory)@,
{
    let pc = memory.registers.pc;
    let opcode = match fetch_byte(memory, pc) {
        Ok(b) => b,
        Err(e) => return Err(e),
    };
    let instr = if opcode == PREFIXED_OPCODE {
        let next = match fetch_byte(memory, pc.wrapping_add(1)) {
            Ok(b) => b,
            Err(e) => return Err(e),
        };
        instruction_from_opcode(next, true)
    } else {
        instruction_from_opcode(opcode, false)
    };
    let operands: u16 = match instr {
        GenericInstruction::Void(_) => 0,
        GenericInstruction::Value(_) | GenericInstruction::Near(_) | GenericInstruction::Offset(_) => 1,
        _ => 2,
    };
    if operands >= 1 {
        if let Err(e) = fetch_byte(memory, pc.wrapping_add(1)) {
            return Err(e);
        }
    }
    if operands >= 2 {
        if let Err(e) = fetch_byte(memory, pc.wrapping_add(2)) {
            return Err(e);
        }
    }
    match instr {
        GenericInstruction::Void(i) => step_void(memory, i),
        GenericInstruction::Value(i) => step_value(memory, i),
        GenericInstruction::Wide(i) => step_wide(memory, i),
        GenericInstruction::Near(i) => step_near(memory, i),
        GenericInstruction::Far(i) => step_far(memory, i),
        GenericInstruction::Offset(i) => step_offset(memory, i),
    }
}

/// The 8-bit operand after `PC`.
fn operand_byte(memory: &Memory) -> (r: Value)
    requires
        memory@.mapped(wrap(memory@.registers.pc, 1) as int),
    ensures
        r == operand8(memory@),
{
    memory.read_far_addr(memory.registers.pc.wrapping_add(1))
}

/// The 16-bit little-endian operand after `PC`.
fn operand_wide(memory: &Memory) -> (r: u16)
    requires
        memory@.mapped(wrap(memory@.registers.pc, 1) as int),
        memory@.mapped(wrap(memory@.registers.pc, 2) as int),
    ensures
        r == operand16(memory@),
{
    let low = memory.read_far_addr(memory.registers.pc.wrapping_add(1));
    let high = memory.read_far_addr(memory.registers.pc.wrapping_add(2));
    pair_to_wide(high, low)
}

/// Moves `PC` past an instruction of `size` bytes.
fn advance(memory: &mut Memory, size: usize)
    ensures
        final(memory)@ == old(memory)@.with_pc(wrap(old(memory)@.registers.pc, size as u16 as int)),
{
    memory.registers.pc = memory.registers.pc.wrapping_add(size as u16);
}

/// Puts `PC` back after a failed instruction.
fn rewind(memory: &mut Memory, pc: FarAddress)
    ensures
        final(memory)@ == old(memory)@.with_pc(pc),
{
    memory.registers.pc = pc;
}

fn step_void(memory: &mut Memory, i: Instruction<VoidOp>) -> (r: Result<u8, ExecutionError>)
    requires
        fetch_fault(old(memory)@) is None,
        decoded(old(memory)@) == GenericInstruction::Void(i),
    ensures
        r == step_result(old(memory)@),
        r is Ok ==> final(memory)@ == step_state(old(memory)@),
        r is Err ==> final(memory)@ == old(memory)@,
{
    let pc = memory.registers.pc;
    advance(memory, i.byte_size);
    let taken = match i.function {
        VoidOp::Ret(cond) => check_condition(&memory.registers, cond),
        VoidOp::Reti | VoidOp::JpHl | VoidOp::Rst(_) => true,
        _ => false,
    };
    match i.execute(memory, ()) {
        Ok(()) => Ok(if taken { i.branch_clock_tick } else { i.clock_tick }),
        Err(e) => {
            rewind(memory, pc);
            Err(e)
        },
    }
}

fn step_value(memory: &mut Memory, i: Instruction<ValueOp>) -> (r: Result<u8, ExecutionError>)
    requires
        fetch_fault(old(memory)@) is None,
        decoded(old(memory)@) == GenericInstruction::Value(i),
    ensures
        r == step_result(old(memory)@),
        r is Ok ==> final(memory)@ == step_state(old(memory)@),
        r is Err ==> final(memory)@ == old(memory)@,
{
    let pc = memory.registers.pc;
    let value = operand_byte(memory);
    advance(memory, i.byte_size);
    match i.execute(memory, value) {
        Ok(()) => Ok(i.clock_tick),
        Err(e) => {
            rewind(memory, pc);
            Err(e)
        },
    }
}

fn step_wide(memory: &mut Memory, i: Instruction<WideOp>) -> (r: Result<u8, ExecutionError>)
    requires
        fetch_fault(old(memory)@) is None,
        decoded(old(memory)@) == GenericInstruction::Wide(i),
    ensures
        r == step_result(old(memory)@),
        r is Ok ==> final(memory)@ == step_state(old(memory)@),
        r is Err ==> final(memory)@ == old(memory)@,
{
    let value = operand_wide(memory);
    advance(memory, i.byte_size);
    let _ = i.execute(memory, value);
    Ok(i.clock_tick)
}

fn step_near(memory: &mut Memory, i: Instruction<NearOp>) -> (r: Result<u8, ExecutionError>)
    requires
        fetch_fault(old(memory)@) is None,
        decoded(old(memory)@) == GenericInstruction::Near(i),
    ensures
        r == step_result(old(memory)@),
        r is Ok ==> final(memory)@ == step_state(old(memory)@),
        r is Err ==> final(memory)@ == old(memory)@,
{
    let pc = memory.registers.pc;
    let value = operand_byte(memory);
    advance(memory, i.byte_size);
    match i.execute(memory, value) {
        Ok(()) => Ok(i.clock_tick),
        Err(e) => {
            rewind(memory, pc);
            Err(e)
        },
    }
}

fn step_far(memory: &mut Memory, i: Instruction<FarOp>) -> (r: Result<u8, ExecutionError>)
    requires
        fetch_fault(old(memory)@) is None,
        decoded(old(memory)@) == GenericInstruction::Far(i),
    ensures
        r == step_result(old(memory)@),
        r is Ok ==> final(memory)@ == step_state(old(memory)@),
        r is Err ==> final(memory)@ == old(memory)@,
{
    let pc = memory.registers.pc;
    let value = operand_wide(memory);
    advance(memory, i.byte_size);
    let taken = match i.function {
        FarOp::Jp(cond) | FarOp::Call(cond) => check_condition(&memory.registers, cond),
        _ => false,
    };
    match i.execute(memory, value) {
        Ok(()) => Ok(if taken { i.branch_clock_tick } else { i.clock_tick }),
        Err(e) => {
            rewind(memory, pc);
            Err(e)
        },
    }
}

fn step_offset(memory: &mut Memory, i: Instruction<OffsetOp>) -> (r: Result<u8, ExecutionError>)
    requires
        fetch_fault(old(memory)@) is None,
        decoded(old(memory)@) == GenericInstruction::Offset(i),
    ensures
        r == step_result(old(memory)@),
        r is Ok ==> final(memory)@ == step_state(old(memory)@),
        r is Err ==> final(memory)@ == old(memory)@,
{
    let pc = memory.registers.pc;
    let value = to_signed(operand_byte(memory));
    advance(memory, i.byte_size);
    let taken = match i.function {
        OffsetOp::Jr(cond) => check_condition(&memory.registers, cond),
        _ => false,
    };
    match i.execute(memory, value) {
        Ok(()) => Ok(if taken { i.branch_clock_tick } else { i.clock_tick }),
        Err(e) => {
            rewind(memory, pc);
            Err(e)
        },
    }
}

/// Through the engine: a `CALL a16` at `PC` followed by the `RET` at its
/// target leaves `PC` just after the three bytes of the call, and `SP` where
/// it was before the call.
pub proof fn lemma_call_ret_steps(s: MachineState)
    requires
        s.mapped(s.registers.pc as int),
        s.mapped(wrap(s.registers.pc, 1) as int),
        s.mapped(wrap(s.registers.pc, 2) as int),
        byte_at(s, s.registers.pc) == 0xCD,
        s.mapped(operand16(s) as int),
        byte_at(s, operand16(s)) == 0xC9,
        s.can_push(),
    ensures
        step_fault(s) is None,
        step_fault(step_state(s)) is None,
        step_state(step_state(s)).registers.pc == wrap(s.registers.pc, 3),
        step_state(step_state(s)).registers.sp == s.registers.sp,
{
    reveal(primary_instruction);
    let t = advanced(s);
    crate::operations::jumps::lemma_call_then_ret(t, operand16(s));
    let u = step_state(s);
    assert(u.registers.pc == operand16(s));
    assert(byte_at(u, u.registers.pc) == 0xC9);
}

} // verus!
