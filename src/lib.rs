//! An instruction-set interpreter for the 8-bit CPU of the Game Boy.
//!
//! The machine state is a [`memory::Memory`]: a flat address space, a stack
//! below a fixed base address, and the register file. Every opcode has a
//! handler in [`operations`] whose contract states its effect on that state,
//! and [`cpu::step`] fetches, decodes and runs one instruction at a time
//! through the tables of [`instruction_set`].

pub mod bits;
pub mod conversions;
pub mod cpu;
pub mod instruction;
pub mod instruction_set;
pub mod memory;
pub mod operations;
pub mod register;
pub mod stack;
pub mod types;
