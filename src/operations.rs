use vstd::prelude::*;

use crate::register::RegisterGroup;
use crate::types::{FarAddress, Value};

pub mod arithmetic;
pub mod bits;
pub mod jumps;
pub mod load;
pub mod logical;
pub mod misc;

verus! {

/// Why an instruction could not run. Each is a defect of the program or of
/// the emulator, reported with the value at fault.
#[derive(Clone, Copy, Debug, PartialEq, Eq, Structural)]
pub enum ExecutionError {
    /// The opcode has no instruction.
    Undefined(Value),
    /// The opcode names an instruction whose behaviour is not modelled.
    Unimplemented(Value),
    /// The prefix opcode was run as an instruction of its own.
    Prefix,
    /// An address outside the address space, or a bit index past the width
    /// of a byte.
    OutOfRange(usize),
    /// A push at this stack pointer does not fit the stack.
    StackOverflow(FarAddress),
    /// A pop at this stack pointer reads past what the stack holds.
    StackUnderflow(FarAddress),
}

/// The flag test of a conditional jump, call or return.
#[derive(Clone, Copy, Debug, PartialEq, Eq, Structural)]
pub enum Condition {
    Always,
    Zero,
    NotZero,
    Carry,
    NotCarry,
}

/// Whether `condition` holds on these registers.
pub open spec fn condition_holds(registers: RegisterGroup, condition: Condition) -> bool {
    match condition {
        Condition::Always => true,
        Condition::Zero => registers.zero,
        Condition::NotZero => !registers.zero,
        Condition::Carry => registers.carry,
        Condition::NotCarry => !registers.carry,
    }
}

/// Tests `condition` on the flags.
pub fn check_condition(registers: &RegisterGroup, condition: Condition) -> (r: bool)
    ensures
        r == condition_holds(*registers, condition),
{
    match condition {
        Condition::Always => true,
        Condition::Zero => registers.get_zero_flag(),
        Condition::NotZero => !registers.get_zero_flag(),
        Condition::Carry => registers.get_carry_flag(),
        Condition::NotCarry => !registers.get_carry_flag(),
    }
}

} // verus!
