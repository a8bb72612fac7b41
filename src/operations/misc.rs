use vstd::prelude::*;

use crate::memory::Memory;
use crate::operations::ExecutionError;
use crate::types::{Value, Void};

verus! {

/// The opcode of `STOP`.
pub const STOP_OPCODE: Value = 0x10;

/// The opcode of `HALT`.
pub const HALT_OPCODE: Value = 0x76;

/// The opcode of `DI`.
pub const DI_OPCODE: Value = 0xF3;

/// The opcode of `EI`.
pub const EI_OPCODE: Value = 0xFB;

/// An opcode with no instruction: fails, naming the opcode.
pub fn none(memory: &mut Memory, opcode: Value) -> (r: Result<(), ExecutionError>)
    ensures
        r == Err::<(), ExecutionError>(ExecutionError::Undefined(opcode)),
        final(memory)@ == old(memory)@,
{
    Err(ExecutionError::Undefined(opcode))
}

/// `NOP`: nothing changes.
pub fn noop(memory: &mut Memory, _value: Void)
    ensures
        final(memory)@ == old(memory)@,
{
}

/// The prefix opcode only selects the prefixed table; run on its own it
/// fails.
pub fn prefix(memory: &mut Memory, _value: Void) -> (r: Result<(), ExecutionError>)
    ensures
        r == Err::<(), ExecutionError>(ExecutionError::Prefix),
        final(memory)@ == old(memory)@,
{
    Err(ExecutionError::Prefix)
}

/// `HALT` waits for an interrupt, which is not modelled: it fails.
pub fn halt(memory: &mut Memory, _value: Void) -> (r: Result<(), ExecutionError>)
    ensures
        r == Err::<(), ExecutionError>(ExecutionError::Unimplemented(HALT_OPCODE)),
        final(memory)@ == old(memory)@,
{
    Err(ExecutionError::Unimplemented(HALT_OPCODE))
}

/// `STOP` enters the low-power mode, which is not modelled: it fails.
pub fn stop(memory: &mut Memory, _value: Value) -> (r: Result<(), ExecutionError>)
    ensures
        r == Err::<(), ExecutionError>(ExecutionError::Unimplemented(STOP_OPCODE)),
        final(memory)@ == old(memory)@,
{
    Err(ExecutionError::Unimplemented(STOP_OPCODE))
}

/// `EI` schedules interrupts, which are not modelled: it fails.
pub fn ei(memory: &mut Memory, _value: Void) -> (r: Result<(), ExecutionError>)
    ensures
        r == Err::<(), ExecutionError>(ExecutionError::Unimplemented(EI_OPCODE)),
        final(memory)@ == old(memory)@,
{
    Err(ExecutionError::Unimplemented(EI_OPCODE))
}

/// `DI` disables interrupts, which are not modelled: it fails.
pub fn di(memory: &mut Memory, _value: Void) -> (r: Result<(), ExecutionError>)
    ensures
        r == Err::<(), ExecutionError>(ExecutionError::Unimplemented(DI_OPCODE)),
        final(memory)@ == old(memory)@,
{
    Err(ExecutionError::Unimplemented(DI_OPCODE))
}

} // verus!
