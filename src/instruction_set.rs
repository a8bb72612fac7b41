use vstd::prelude::*;

use crate::instruction::{
    FarOp, GenericInstruction, Instruction, NearOp, OffsetOp, OpCode, ValueOp, VoidOp, WideOp,
};
use crate::memory::{Loc8, Reg16, StackPair};
use crate::operations::bits::Shift;
use crate::operations::load::Indirect;
use crate::operations::logical::AluOp;
use crate::operations::Condition;

verus! {

/// The primary table: the instruction of each opcode.
#[verifier::opaque]
pub open spec fn primary_instruction(opcode: OpCode) -> GenericInstruction {
    match opcode {
        0x00 => GenericInstruction::Void(Instruction { opcode: 0x00, disassembly: "NOP", byte_size: 1, clock_tick: 4, branch_clock_tick: 4, function: VoidOp::Nop }),
        0x01 => GenericInstruction::Wide(Instruction { opcode: 0x01, disassembly: "LD BC, d16", byte_size: 3, clock_tick: 12, branch_clock_tick: 12, function: WideOp::Ld(Reg16::BC) }),
        0x02 => GenericInstruction::Void(Instruction { opcode: 0x02, disassembly: "LD (BC), A", byte_size: 1, clock_tick: 8, branch_clock_tick: 8, function: VoidOp::LdIndirectA(Indirect::Bc) }),
        0x03 => GenericInstruction::Void(Instruction { opcode: 0x03, disassembly: "INC BC", byte_size: 1, clock_tick: 8, branch_clock_tick: 8, function: VoidOp::IncWide(Reg16::BC) }),
        0x04 => GenericInstruction::Void(Instruction { opcode: 0x04, disassembly: "INC B", byte_size: 1, clock_tick: 4, branch_clock_tick: 4, function: VoidOp::Inc(Loc8::B) }),
        0x05 => GenericInstruction::Void(Instruction { opcode: 0x05, disassembly: "DEC B", byte_size: 1, clock_tick: 4, branch_clock_tick: 4, function: VoidOp::Dec(Loc8::B) }),
        0x06 => GenericInstruction::Value(Instruction { opcode: 0x06, disassembly: "LD B, d8", byte_size: 2, clock_tick: 8, branch_clock_tick: 8, function: ValueOp::Ld(Loc8::B) }),
        0x07 => GenericInstruction::Void(Instruction { opcode: 0x07, disassembly: "RLCA", byte_size: 1, clock_tick: 4, branch_clock_tick: 4, function: VoidOp::ShiftA(Shift::Rlc) }),
        0x08 => GenericInstruction::Far(Instruction { opcode: 0x08, disassembly: "LD (a16), SP", byte_size: 3, clock_tick: 20, branch_clock_tick: 20, function: FarOp::LdFromSp }),
        0x09 => GenericInstruction::Void(Instruction { opcode: 0x09, disassembly: "ADD HL, BC", byte_size: 1, clock_tick: 8, branch_clock_tick: 8, function: VoidOp::AddHl(Reg16::BC) }),
        0x0A => GenericInstruction::Void(Instruction { opcode: 0x0A, disassembly: "LD A, (BC)", byte_size: 1, clock_tick: 8, branch_clock_tick: 8, function: VoidOp::LdAIndirect(Indirect::Bc) }),
        0x0B => GenericInstruction::Void(Instruction { opcode: 0x0B, disassembly: "DEC BC", byte_size: 1, clock_tick: 8, branch_clock_tick: 8, function: VoidOp::DecWide(Reg16::BC) }),
        0x0C => GenericInstruction::Void(Instruction { opcode: 0x0C, disassembly: "INC C", byte_size: 1, clock_tick: 4, branch_clock_tick: 4, function: VoidOp::Inc(Loc8::C) }),
        0x0D => GenericInstruction::Void(Instruction { opcode: 0x0D, disassembly: "DEC C", byte_size: 1, clock_tick: 4, branch_clock_tick: 4, function: VoidOp::Dec(Loc8::C) }),
        0x0E => GenericInstruction::Value(Instruction { opcode: 0x0E, disassembly: "LD C, d8", byte_size: 2, clock_tick: 8, branch_clock_tick: 8, function: ValueOp::Ld(Loc8::C) }),
        0x0F => GenericInstruction::Void(Instruction { opcode: 0x0F, disassembly: "RRCA", byte_size: 1, clock_tick: 4, branch_clock_tick: 4, function: VoidOp::ShiftA(Shift::Rrc) }),
        0x10 => GenericInstruction::Value(Instruction { opcode: 0x10, disassembly: "STOP d8", byte_size: 2, clock_tick: 4, branch_clock_tick: 4, function: ValueOp::Unimplemented }),
        0x11 => GenericInstruction::Wide(Instruction { opcode: 0x11, disassembly: "LD DE, d16", byte_size: 3, clock_tick: 12, branch_clock_tick: 12, function: WideOp::Ld(Reg16::DE) }),
        0x12 => GenericInstruction::Void(Instruction { opcode: 0x12, disassembly: "LD (DE), A", byte_size: 1, clock_tick: 8, branch_clock_tick: 8, function: VoidOp::LdIndirectA(Indirect::De) }),
        0x13 => GenericInstruction::Void(Instruction { opcode: 0x13, disassembly: "INC DE", byte_size: 1, clock_tick: 8, branch_clock_tick: 8, function: VoidOp::IncWide(Reg16::DE) }),
        0x14 => GenericInstruction::Void(Instruction { opcode: 0x14, disassembly: "INC D", byte_size: 1, clock_tick: 4, branch_clock_tick: 4, function: VoidOp::Inc(Loc8::D) }),
        0x15 => GenericInstruction::Void(Instruction { opcode: 0x15, disassembly: "DEC D", byte_size: 1, clock_tick: 4, branch_clock_tick: 4, function: VoidOp::Dec(Loc8::D) }),
        0x16 => GenericInstruction::Value(Instruction { opcode: 0x16, disassembly: "LD D, d8", byte_size: 2, clock_tick: 8, branch_clock_tick: 8, function: ValueOp::Ld(Loc8::D) }),
        0x17 => GenericInstruction::Void(Instruction { opcode: 0x17, disassembly: "RLA", byte_size: 1, clock_tick: 4, branch_clock_tick: 4, function: VoidOp::ShiftA(Shift::Rl) }),
        0x18 => GenericInstruction::Offset(Instruction { opcode: 0x18, disassembly: "JR r8", byte_size: 2, clock_tick: 12, branch_clock_tick: 12, function: OffsetOp::Jr(Condition::Always) }),
        0x19 => GenericInstruction::Void(Instruction { opcode: 0x19, disassembly: "ADD HL, DE", byte_size: 1, clock_tick: 8, branch_clock_tick: 8, function: VoidOp::AddHl(Reg16::DE) }),
        0x1A => GenericInstruction::Void(Instruction { opcode: 0x1A, disassembly: "LD A, (DE)", byte_size: 1, clock_tick: 8, branch_clock_tick: 8, function: VoidOp::LdAIndirect(Indirect::De) }),
        0x1B => GenericInstruction::Void(Instruction { opcode: 0x1B, disassembly: "DEC DE", byte_size: 1, clock_tick: 8, branch_clock_tick: 8, function: VoidOp::DecWide(Reg16::DE) }),
        0x1C => GenericInstruction::Void(Instruction { opcode: 0x1C, disassembly: "INC E", byte_size: 1, clock_tick: 4, branch_clock_tick: 4, function: VoidOp::Inc(Loc8::E) }),
        0x1D => GenericInstruction::Void(Instruction { opcode: 0x1D, disassembly: "DEC E", byte_size: 1, clock_tick: 4, branch_clock_tick: 4, function: VoidOp::Dec(Loc8::E) }),
        0x1E => GenericInstruction::Value(Instruction { opcode: 0x1E, disassembly: "LD E, d8", byte_size: 2, clock_tick: 8, branch_clock_tick: 8, function: ValueOp::Ld(Loc8::E) }),
        0x1F => GenericInstruction::Void(Instruction { opcode: 0x1F, disassembly: "RRA", byte_size: 1, clock_tick: 4, branch_clock_tick: 4, function: VoidOp::ShiftA(Shift::Rr) }),
        0x20 => GenericInstruction::Offset(Instruction { opcode: 0x20, disassembly: "JR NZ, r8", byte_size: 2, clock_tick: 8, branch_clock_tick: 12, function: OffsetOp::Jr(Condition::NotZero) }),
        0x21 => GenericInstruction::Wide(Instruction { opcode: 0x21, disassembly: "LD HL, d16", byte_size: 3, clock_tick: 12, branch_clock_tick: 12, function: WideOp::Ld(Reg16::HL) }),
        0x22 => GenericInstruction::Void(Instruction { opcode: 0x22, disassembly: "LD (HL+), A", byte_size: 1, clock_tick: 8, branch_clock_tick: 8, function: VoidOp::LdIndirectA(Indirect::HlIncrement) }),
        0x23 => GenericInstruction::Void(Instruction { opcode: 0x23, disassembly: "INC HL", byte_size: 1, clock_tick: 8, branch_clock_tick: 8, function: VoidOp::IncWide(Reg16::HL) }),
        0x24 => GenericInstruction::Void(Instruction { opcode: 0x24, disassembly: "INC H", byte_size: 1, clock_tick: 4, branch_clock_tick: 4, function: VoidOp::Inc(Loc8::H) }),
        0x25 => GenericInstruction::Void(Instruction { opcode: 0x25, disassembly: "DEC H", byte_size: 1, clock_tick: 4, branch_clock_tick: 4, function: VoidOp::Dec(Loc8::H) }),
        0x26 => GenericInstruction::Value(Instruction { opcode: 0x26, disassembly: "LD H, d8", byte_size: 2, clock_tick: 8, branch_clock_tick: 8, function: ValueOp::Ld(Loc8::H) }),
        0x27 => GenericInstruction::Void(Instruction { opcode: 0x27, disassembly: "DAA", byte_size: 1, clock_tick: 4, branch_clock_tick: 4, function: VoidOp::Daa }),
        0x28 => GenericInstruction::Offset(Instruction { opcode: 0x28, disassembly: "JR Z, r8", byte_size: 2, clock_tick: 8, branch_clock_tick: 12, function: OffsetOp::Jr(Condition::Zero) }),
        0x29 => GenericInstruction::Void(Instruction { opcode: 0x29, disassembly: "ADD HL, HL", byte_size: 1, clock_tick: 8, branch_clock_tick: 8, function: VoidOp::AddHl(Reg16::HL) }),
        0x2A => GenericInstruction::Void(Instruction { opcode: 0x2A, disassembly: "LD A, (HL+)", byte_size: 1, clock_tick: 8, branch_clock_tick: 8, function: VoidOp::LdAIndirect(Indirect::HlIncrement) }),
        0x2B => GenericInstruction::Void(Instruction { opcode: 0x2B, disassembly: "DEC HL", byte_size: 1, clock_tick: 8, branch_clock_tick: 8, function: VoidOp::DecWide(Reg16::HL) }),
        0x2C => GenericInstruction::Void(Instruction { opcode: 0x2C, disassembly: "INC L", byte_size: 1, clock_tick: 4, branch_clock_tick: 4, function: VoidOp::Inc(Loc8::L) }),
        0x2D => GenericInstruction::Void(Instruction { opcode: 0x2D, disassembly: "DEC L", byte_size: 1, clock_tick: 4, branch_clock_tick: 4, function: VoidOp::Dec(Loc8::L) }),
        0x2E => GenericInstruction::Value(Instruction { opcode: 0x2E, disassembly: "LD L, d8", byte_size: 2, clock_tick: 8, branch_clock_tick: 8, function: ValueOp::Ld(Loc8::L) }),
        0x2F => GenericInstruction::Void(Instruction { opcode: 0x2F, disassembly: "CPL", byte_size: 1, clock_tick: 4, branch_clock_tick: 4, function: VoidOp::Cpl }),
        0x30 => GenericInstruction::Offset(Instruction { opcode: 0x30, disassembly: "JR NC, r8", byte_size: 2, clock_tick: 8, branch_clock_tick: 12, function: OffsetOp::Jr(Condition::NotCarry) }),
        0x31 => GenericInstruction::Wide(Instruction { opcode: 0x31, disassembly: "LD SP, d16", byte_size: 3, clock_tick: 12, branch_clock_tick: 12, function: WideOp::Ld(Reg16::SP) }),
        0x32 => GenericInstruction::Void(Instruction { opcode: 0x32, disassembly: "LD (HL-), A", byte_size: 1, clock_tick: 8, branch_clock_tick: 8, function: VoidOp::LdIndirectA(Indirect::HlDecrement) }),
        0x33 => GenericInstruction::Void(Instruction { opcode: 0x33, disassembly: "INC SP", byte_size: 1, clock_tick: 8, branch_clock_tick: 8, function: VoidOp::IncWide(Reg16::SP) }),
        0x34 => GenericInstruction::Void(Instruction { opcode: 0x34, disassembly: "INC (HL)", byte_size: 1, clock_tick: 12, branch_clock_tick: 12, function: VoidOp::Inc(Loc8::HlAddr) }),
        0x35 => GenericInstruction::Void(Instruction { opcode: 0x35, disassembly: "DEC (HL)", byte_size: 1, clock_tick: 12, branch_clock_tick: 12, function: VoidOp::Dec(Loc8::HlAddr) }),
        0x36 => GenericInstruction::Value(Instruction { opcode: 0x36, disassembly: "LD (HL), d8", byte_size: 2, clock_tick: 12, branch_clock_tick: 12, function: ValueOp::Ld(Loc8::HlAddr) }),
        0x37 => GenericInstruction::Void(Instruction { opcode: 0x37, disassembly: "SCF", byte_size: 1, clock_tick: 4, branch_clock_tick: 4, function: VoidOp::Scf }),
        0x38 => GenericInstruction::Offset(Instruction { opcode: 0x38, disassembly: "JR C, r8", byte_size: 2, clock_tick: 8, branch_clock_tick: 12, function: OffsetOp::Jr(Condition::Carry) }),
        0x39 => GenericInstruction::Void(Instruction { opcode: 0x39, disassembly: "ADD HL, SP", byte_size: 1, clock_tick: 8, branch_clock_tick: 8, function: VoidOp::AddHl(Reg16::SP) }),
        0x3A => GenericInstruction::Void(Instruction { opcode: 0x3A, disassembly: "LD A, (HL-)", byte_size: 1, clock_tick: 8, branch_clock_tick: 8, function: VoidOp::LdAIndirect(Indirect::HlDecrement) }),
        0x3B => GenericInstruction::Void(Instruction { opcode: 0x3B, disassembly: "DEC SP", byte_size: 1, clock_tick: 8, branch_clock_tick: 8, function: VoidOp::DecWide(Reg16::SP) }),
        0x3C => GenericInstruction::Void(Instruction { opcode: 0x3C, disassembly: "INC A", byte_size: 1, clock_tick: 4, branch_clock_tick: 4, function: VoidOp::Inc(Loc8::A) }),
        0x3D => GenericInstruction::Void(Instruction { opcode: 0x3D, disassembly: "DEC A", byte_size: 1, clock_tick: 4, branch_clock_tick: 4, function: VoidOp::Dec(Loc8::A) }),
        0x3E => GenericInstruction::Value(Instruction { opcode: 0x3E, disassembly: "LD A, d8", byte_size: 2, clock_tick: 8, branch_clock_tick: 8, function: ValueOp::Ld(Loc8::A) }),
        0x3F => GenericInstruction::Void(Instruction { opcode: 0x3F, disassembly: "CCF", byte_size: 1, clock_tick: 4, branch_clock_tick: 4, function: VoidOp::Ccf }),
        0x40 => GenericInstruction::Void(Instruction { opcode: 0x40, disassembly: "LD B, B", byte_size: 1, clock_tick: 4, branch_clock_tick: 4, function: VoidOp::Ld(Loc8::B, Loc8::B) }),
        0x41 => GenericInstruction::Void(Instruction { opcode: 0x41, disassembly: "LD B, C", byte_size: 1, clock_tick: 4, branch_clock_tick: 4, function: VoidOp::Ld(Loc8::B, Loc8::C) }),
        0x42 => GenericInstruction::Void(Instruction { opcode: 0x42, disassembly: "LD B, D", byte_size: 1, clock_tick: 4, branch_clock_tick: 4, function: VoidOp::Ld(Loc8::B, Loc8::D) }),
        0x43 => GenericInstruction::Void(Instruction { opcode: 0x43, disassembly: "LD B, E", byte_size: 1, clock_tick: 4, branch_clock_tick: 4, function: VoidOp::Ld(Loc8::B, Loc8::E) }),
        0x44 => GenericInstruction::Void(Instruction { opcode: 0x44, disassembly: "LD B, H", byte_size: 1, clock_tick: 4, branch_clock_tick: 4, function: VoidOp::Ld(Loc8::B, Loc8::H) }),
        0x45 => GenericInstruction::Void(Instruction { opcode: 0x45, disassembly: "LD B, L", byte_size: 1, clock_tick: 4, branch_clock_tick: 4, function: VoidOp::Ld(Loc8::B, Loc8::L) }),
        0x46 => GenericInstruction::Void(Instruction { opcode: 0x46, disassembly: "LD B, (HL)", byte_size: 1, clock_tick: 8, branch_clock_tick: 8, function: VoidOp::Ld(Loc8::B, Loc8::HlAddr) }),
        0x47 => GenericInstruction::Void(Instruction { opcode: 0x47, disassembly: "LD B, A", byte_size: 1, clock_tick: 4, branch_clock_tick: 4, function: VoidOp::Ld(Loc8::B, Loc8::A) }),
        0x48 => GenericInstruction::Void(Instruction { opcode: 0x48, disassembly: "LD C, B", byte_size: 1, clock_tick: 4, branch_clock_tick: 4, function: VoidOp::Ld(Loc8::C, Loc8::B) }),
        0x49 => GenericInstruction::Void(Instruction { opcode: 0x49, disassembly: "LD C, C", byte_size: 1, clock_tick: 4, branch_clock_tick: 4, function: VoidOp::Ld(Loc8::C, Loc8::C) }),
        0x4A => GenericInstruction::Void(Instruction { opcode: 0x4A, disassembly: "LD C, D", byte_size: 1, clock_tick: 4, branch_clock_tick: 4, function: VoidOp::Ld(Loc8::C, Loc8::D) }),
        0x4B => GenericInstruction::Void(Instruction { opcode: 0x4B, disassembly: "LD C, E", byte_size: 1, clock_tick: 4, branch_clock_tick: 4, function: VoidOp::Ld(Loc8::C, Loc8::E) }),
        0x4C => GenericInstruction::Void(Instruction { opcode: 0x4C, disassembly: "LD C, H", byte_size: 1, clock_tick: 4, branch_clock_tick: 4, function: VoidOp::Ld(Loc8::C, Loc8::H) }),
        0x4D => GenericInstruction::Void(Instruction { opcode: 0x4D, disassembly: "LD C, L", byte_size: 1, clock_tick: 4, branch_clock_tick: 4, function: VoidOp::Ld(Loc8::C, Loc8::L) }),
        0x4E => GenericInstruction::Void(Instruction { opcode: 0x4E, disassembly: "LD C, (HL)", byte_size: 1, clock_tick: 8, branch_clock_tick: 8, function: VoidOp::Ld(Loc8::C, Loc8::HlAddr) }),
        0x4F => GenericInstruction::Void(Instruction { opcode: 0x4F, disassembly: "LD C, A", byte_size: 1, clock_tick: 4, branch_clock_tick: 4, function: VoidOp::Ld(Loc8::C, Loc8::A) }),
        0x50 => GenericInstruction::Void(Instruction { opcode: 0x50, disassembly: "LD D, B", byte_size: 1, clock_tick: 4, branch_clock_tick: 4, function: VoidOp::Ld(Loc8::D, Loc8::B) }),
        0x51 => GenericInstruction::Void(Instruction { opcode: 0x51, disassembly: "LD D, C", byte_size: 1, clock_tick: 4, branch_clock_tick: 4, function: VoidOp::Ld(Loc8::D, Loc8::C) }),
        0x52 => GenericInstruction::Void(Instruction { opcode: 0x52, disassembly: "LD D, D", byte_size: 1, clock_tick: 4, branch_clock_tick: 4, function: VoidOp::Ld(Loc8::D, Loc8::D) }),
        0x53 => GenericInstruction::Void(Instruction { opcode: 0x53, disassembly: "LD D, E", byte_size: 1, clock_tick: 4, branch_clock_tick: 4, function: VoidOp::Ld(Loc8::D, Loc8::E) }),
        0x54 => GenericInstruction::Void(Instruction { opcode: 0x54, disassembly: "LD D, H", byte_size: 1, clock_tick: 4, branch_clock_tick: 4, function: VoidOp::Ld(Loc8::D, Loc8::H) }),
        0x55 => GenericInstruction::Void(Instruction { opcode: 0x55, disassembly: "LD D, L", byte_size: 1, clock_tick: 4, branch_clock_tick: 4, function: VoidOp::Ld(Loc8::D, Loc8::L) }),
        0x56 => GenericInstruction::Void(Instruction { opcode: 0x56, disassembly: "LD D, (HL)", byte_size: 1, clock_tick: 8, branch_clock_tick: 8, function: VoidOp::Ld(Loc8::D, Loc8::HlAddr) }),
        0x57 => GenericInstruction::Void(Instruction { opcode: 0x57, disassembly: "LD D, A", byte_size: 1, clock_tick: 4, branch_clock_tick: 4, function: VoidOp::Ld(Loc8::D, Loc8::A) }),
        0x58 => GenericInstruction::Void(Instruction { opcode: 0x58, disassembly: "LD E, B", byte_size: 1, clock_tick: 4, branch_clock_tick: 4, function: VoidOp::Ld(Loc8::E, Loc8::B) }),
        0x59 => GenericInstruction::Void(Instruction { opcode: 0x59, disassembly: "LD E, C", byte_size: 1, clock_tick: 4, branch_clock_tick: 4, function: VoidOp::Ld(Loc8::E, Loc8::C) }),
        0x5A => GenericInstruction::Void(Instruction { opcode: 0x5A, disassembly: "LD E, D", byte_size: 1, clock_tick: 4, branch_clock_tick: 4, function: VoidOp::Ld(Loc8::E, Loc8::D) }),
        0x5B => GenericInstruction::Void(Instruction { opcode: 0x5B, disassembly: "LD E, E", byte_size: 1, clock_tick: 4, branch_clock_tick: 4, function: VoidOp::Ld(Loc8::E, Loc8::E) }),
        0x5C => GenericInstruction::Void(Instruction { opcode: 0x5C, disassembly: "LD E, H", byte_size: 1, clock_tick: 4, branch_clock_tick: 4, function: VoidOp::Ld(Loc8::E, Loc8::H) }),
        0x5D => GenericInstruction::Void(Instruction { opcode: 0x5D, disassembly: "LD E, L", byte_size: 1, clock_tick: 4, branch_clock_tick: 4, function: VoidOp::Ld(Loc8::E, Loc8::L) }),
        0x5E => GenericInstruction::Void(Instruction { opcode: 0x5E, disassembly: "LD E, (HL)", byte_size: 1, clock_tick: 8, branch_clock_tick: 8, function: VoidOp::Ld(Loc8::E, Loc8::HlAddr) }),
        0x5F => GenericInstruction::Void(Instruction { opcode: 0x5F, disassembly: "LD E, A", byte_size: 1, clock_tick: 4, branch_clock_tick: 4, function: VoidOp::Ld(Loc8::E, Loc8::A) }),
        0x60 => GenericInstruction::Void(Instruction { opcode: 0x60, disassembly: "LD H, B", byte_size: 1, clock_tick: 4, branch_clock_tick: 4, function: VoidOp::Ld(Loc8::H, Loc8::B) }),
        0x61 => GenericInstruction::Void(Instruction { opcode: 0x61, disassembly: "LD H, C", byte_size: 1, clock_tick: 4, branch_clock_tick: 4, function: VoidOp::Ld(Loc8::H, Loc8::C) }),
        0x62 => GenericInstruction::Void(Instruction { opcode: 0x62, disassembly: "LD H, D", byte_size: 1, clock_tick: 4, branch_clock_tick: 4, function: VoidOp::Ld(Loc8::H, Loc8::D) }),
        0x63 => GenericInstruction::Void(Instruction { opcode: 0x63, disassembly: "LD H, E", byte_size: 1, clock_tick: 4, branch_clock_tick: 4, function: VoidOp::Ld(Loc8::H, Loc8::E) }),
        0x64 => GenericInstruction::Void(Instruction { opcode: 0x64, disassembly: "LD H, H", byte_size: 1, clock_tick: 4, branch_clock_tick: 4, function: VoidOp::Ld(Loc8::H, Loc8::H) }),
        0x65 => GenericInstruction::Void(Instruction { opcode: 0x65, disassembly: "LD H, L", byte_size: 1, clock_tick: 4, branch_clock_tick: 4, function: VoidOp::Ld(Loc8::H, Loc8::L) }),
        0x66 => GenericInstruction::Void(Instruction { opcode: 0x66, disassembly: "LD H, (HL)", byte_size: 1, clock_tick: 8, branch_clock_tick: 8, function: VoidOp::Ld(Loc8::H, Loc8::HlAddr) }),
        0x67 => GenericInstruction::Void(Instruction { opcode: 0x67, disassembly: "LD H, A", byte_size: 1, clock_tick: 4, branch_clock_tick: 4, function: VoidOp::Ld(Loc8::H, Loc8::A) }),
        0x68 => GenericInstruction::Void(Instruction { opcode: 0x68, disassembly: "LD L, B", byte_size: 1, clock_tick: 4, branch_clock_tick: 4, function: VoidOp::Ld(Loc8::L, Loc8::B) }),
        0x69 => GenericInstruction::Void(Instruction { opcode: 0x69, disassembly: "LD L, C", byte_size: 1, clock_tick: 4, branch_clock_tick: 4, function: VoidOp::Ld(Loc8::L, Loc8::C) }),
        0x6A => GenericInstruction::Void(Instruction { opcode: 0x6A, disassembly: "LD L, D", byte_size: 1, clock_tick: 4, branch_clock_tick: 4, function: VoidOp::Ld(Loc8::L, Loc8::D) }),
        0x6B => GenericInstruction::Void(Instruction { opcode: 0x6B, disassembly: "LD L, E", byte_size: 1, clock_tick: 4, branch_clock_tick: 4, function: VoidOp::Ld(Loc8::L, Loc8::E) }),
        0x6C => GenericInstruction::Void(Instruction { opcode: 0x6C, disassembly: "LD L, H", byte_size: 1, clock_tick: 4, branch_clock_tick: 4, function: VoidOp::Ld(Loc8::L, Loc8::H) }),
        0x6D => GenericInstruction::Void(Instruction { opcode: 0x6D, disassembly: "LD L, L", byte_size: 1, clock_tick: 4, branch_clock_tick: 4, function: VoidOp::Ld(Loc8::L, Loc8::L) }),
        0x6E => GenericInstruction::Void(Instruction { opcode: 0x6E, disassembly: "LD L, (HL)", byte_size: 1, clock_tick: 8, branch_clock_tick: 8, function: VoidOp::Ld(Loc8::L, Loc8::HlAddr) }),
        0x6F => GenericInstruction::Void(Instruction { opcode: 0x6F, disassembly: "LD L, A", byte_size: 1, clock_tick: 4, branch_clock_tick: 4, function: VoidOp::Ld(Loc8::L, Loc8::A) }),
        0x70 => GenericInstruction::Void(Instruction { opcode: 0x70, disassembly: "LD (HL), B", byte_size: 1, clock_tick: 8, branch_clock_tick: 8, function: VoidOp::Ld(Loc8::HlAddr, Loc8::B) }),
        0x71 => GenericInstruction::Void(Instruction { opcode: 0x71, disassembly: "LD (HL), C", byte_size: 1, clock_tick: 8, branch_clock_tick: 8, function: VoidOp::Ld(Loc8::HlAddr, Loc8::C) }),
        0x72 => GenericInstruction::Void(Instruction { opcode: 0x72, disassembly: "LD (HL), D", byte_size: 1, clock_tick: 8, branch_clock_tick: 8, function: VoidOp::Ld(Loc8::HlAddr, Loc8::D) }),
        0x73 => GenericInstruction::Void(Instruction { opcode: 0x73, disassembly: "LD (HL), E", byte_size: 1, clock_tick: 8, branch_clock_tick: 8, function: VoidOp::Ld(Loc8::HlAddr, Loc8::E) }),
        0x74 => GenericInstruction::Void(Instruction { opcode: 0x74, disassembly: "LD (HL), H", byte_size: 1, clock_tick: 8, branch_clock_tick: 8, function: VoidOp::Ld(Loc8::HlAddr, Loc8::H) }),
        0x75 => GenericInstruction::Void(Instruction { opcode: 0x75, disassembly: "LD (HL), L", byte_size: 1, clock_tick: 8, branch_clock_tick: 8, function: VoidOp::Ld(Loc8::HlAddr, Loc8::L) }),
        0x76 => GenericInstruction::Void(Instruction { opcode: 0x76, disassembly: "HALT", byte_size: 1, clock_tick: 4, branch_clock_tick: 4, function: VoidOp::Unimplemented }),
        0x77 => GenericInstruction::Void(Instruction { opcode: 0x77, disassembly: "LD (HL), A", byte_size: 1, clock_tick: 8, branch_clock_tick: 8, function: VoidOp::Ld(Loc8::HlAddr, Loc8::A) }),
        0x78 => GenericInstruction::Void(Instruction { opcode: 0x78, disassembly: "LD A, B", byte_size: 1, clock_tick: 4, branch_clock_tick: 4, function: VoidOp::Ld(Loc8::A, Loc8::B) }),
        0x79 => GenericInstruction::Void(Instruction { opcode: 0x79, disassembly: "LD A, C", byte_size: 1, clock_tick: 4, branch_clock_tick: 4, function: VoidOp::Ld(Loc8::A, Loc8::C) }),
        0x7A => GenericInstruction::Void(Instruction { opcode: 0x7A, disassembly: "LD A, D", byte_size: 1, clock_tick: 4, branch_clock_tick: 4, function: VoidOp::Ld(Loc8::A, Loc8::D) }),
        0x7B => GenericInstruction::Void(Instruction { opcode: 0x7B, disassembly: "LD A, E", byte_size: 1, clock_tick: 4, branch_clock_tick: 4, function: VoidOp::Ld(Loc8::A, Loc8::E) }),
        0x7C => GenericInstruction::Void(Instruction { opcode: 0x7C, disassembly: "LD A, H", byte_size: 1, clock_tick: 4, branch_clock_tick: 4, function: VoidOp::Ld(Loc8::A, Loc8::H) }),
        0x7D => GenericInstruction::Void(Instruction { opcode: 0x7D, disassembly: "LD A, L", byte_size: 1, clock_tick: 4, branch_clock_tick: 4, function: VoidOp::Ld(Loc8::A, Loc8::L) }),
        0x7E => GenericInstruction::Void(Instruction { opcode: 0x7E, disassembly: "LD A, (HL)", byte_size: 1, clock_tick: 8, branch_clock_tick: 8, function: VoidOp::Ld(Loc8::A, Loc8::HlAddr) }),
        0x7F => GenericInstruction::Void(Instruction { opcode: 0x7F, disassembly: "LD A, A", byte_size: 1, clock_tick: 4, branch_clock_tick: 4, function: VoidOp::Ld(Loc8::A, Loc8::A) }),
        0x80 => GenericInstruction::Void(Instruction { opcode: 0x80, disassembly: "ADD A, B", byte_size: 1, clock_tick: 4, branch_clock_tick: 4, function: VoidOp::Alu(AluOp::Add, Loc8::B) }),
        0x81 => GenericInstruction::Void(Instruction { opcode: 0x81, disassembly: "ADD A, C", byte_size: 1, clock_tick: 4, branch_clock_tick: 4, function: VoidOp::Alu(AluOp::Add, Loc8::C) }),
        0x82 => GenericInstruction::Void(Instruction { opcode: 0x82, disassembly: "ADD A, D", byte_size: 1, clock_tick: 4, branch_clock_tick: 4, function: VoidOp::Alu(AluOp::Add, Loc8::D) }),
        0x83 => GenericInstruction::Void(Instruction { opcode: 0x83, disassembly: "ADD A, E", byte_size: 1, clock_tick: 4, branch_clock_tick: 4, function: VoidOp::Alu(AluOp::Add, Loc8::E) }),
        0x84 => GenericInstruction::Void(Instruction { opcode: 0x84, disassembly: "ADD A, H", byte_size: 1, clock_tick: 4, branch_clock_tick: 4, function: VoidOp::Alu(AluOp::Add, Loc8::H) }),
        0x85 => GenericInstruction::Void(Instruction { opcode: 0x85, disassembly: "ADD A, L", byte_size: 1, clock_tick: 4, branch_clock_tick: 4, function: VoidOp::Alu(AluOp::Add, Loc8::L) }),
        0x86 => GenericInstruction::Void(Instruction { opcode: 0x86, disassembly: "ADD A, (HL)", byte_size: 1, clock_tick: 8, branch_clock_tick: 8, function: VoidOp::Alu(AluOp::Add, Loc8::HlAddr) }),
        0x87 => GenericInstruction::Void(Instruction { opcode: 0x87, disassembly: "ADD A, A", byte_size: 1, clock_tick: 4, branch_clock_tick: 4, function: VoidOp::Alu(AluOp::Add, Loc8::A) }),
        0x88 => GenericInstruction::Void(Instruction { opcode: 0x88, disassembly: "ADC A, B", byte_size: 1, clock_tick: 4, branch_clock_tick: 4, function: VoidOp::Alu(AluOp::Adc, Loc8::B) }),
        0x89 => GenericInstruction::Void(Instruction { opcode: 0x89, disassembly: "ADC A, C", byte_size: 1, clock_tick: 4, branch_clock_tick: 4, function: VoidOp::Alu(AluOp::Adc, Loc8::C) }),
        0x8A => GenericInstruction::Void(Instruction { opcode: 0x8A, disassembly: "ADC A, D", byte_size: 1, clock_tick: 4, branch_clock_tick: 4, function: VoidOp::Alu(AluOp::Adc, Loc8::D) }),
        0x8B => GenericInstruction::Void(Instruction { opcode: 0x8B, disassembly: "ADC A, E", byte_size: 1, clock_tick: 4, branch_clock_tick: 4, function: VoidOp::Alu(AluOp::Adc, Loc8::E) }),
        0x8C => GenericInstruction::Void(Instruction { opcode: 0x8C, disassembly: "ADC A, H", byte_size: 1, clock_tick: 4, branch_clock_tick: 4, function: VoidOp::Alu(AluOp::Adc, Loc8::H) }),
        0x8D => GenericInstruction::Void(Instruction { opcode: 0x8D, disassembly: "ADC A, L", byte_size: 1, clock_tick: 4, branch_clock_tick: 4, function: VoidOp::Alu(AluOp::Adc, Loc8::L) }),
        0x8E => GenericInstruction::Void(Instruction { opcode: 0x8E, disassembly: "ADC A, (HL)", byte_size: 1, clock_tick: 8, branch_clock_tick: 8, function: VoidOp::Alu(AluOp::Adc, Loc8::HlAddr) }),
        0x8F => GenericInstruction::Void(Instruction { opcode: 0x8F, disassembly: "ADC A, A", byte_size: 1, clock_tick: 4, branch_clock_tick: 4, function: VoidOp::Alu(AluOp::Adc, Loc8::A) }),
        0x90 => GenericInstruction::Void(Instruction { opcode: 0x90, disassembly: "SUB B", byte_size: 1, clock_tick: 4, branch_clock_tick: 4, function: VoidOp::Alu(AluOp::Sub, Loc8::B) }),
        0x91 => GenericInstruction::Void(Instruction { opcode: 0x91, disassembly: "SUB C", byte_size: 1, clock_tick: 4, branch_clock_tick: 4, function: VoidOp::Alu(AluOp::Sub, Loc8::C) }),
        0x92 => GenericInstruction::Void(Instruction { opcode: 0x92, disassembly: "SUB D", byte_size: 1, clock_tick: 4, branch_clock_tick: 4, function: VoidOp::Alu(AluOp::Sub, Loc8::D) }),
        0x93 => GenericInstruction::Void(Instruction { opcode: 0x93, disassembly: "SUB E", byte_size: 1, clock_tick: 4, branch_clock_tick: 4, function: VoidOp::Alu(AluOp::Sub, Loc8::E) }),
        0x94 => GenericInstruction::Void(Instruction { opcode: 0x94, disassembly: "SUB H", byte_size: 1, clock_tick: 4, branch_clock_tick: 4, function: VoidOp::Alu(AluOp::Sub, Loc8::H) }),
        0x95 => GenericInstruction::Void(Instruction { opcode: 0x95, disassembly: "SUB L", byte_size: 1, clock_tick: 4, branch_clock_tick: 4, function: VoidOp::Alu(AluOp::Sub, Loc8::L) }),
        0x96 => GenericInstruction::Void(Instruction { opcode: 0x96, disassembly: "SUB (HL)", byte_size: 1, clock_tick: 8, branch_clock_tick: 8, function: VoidOp::Alu(AluOp::Sub, Loc8::HlAddr) }),
        0x97 => GenericInstruction::Void(Instruction { opcode: 0x97, disassembly: "SUB A", byte_size: 1, clock_tick: 4, branch_clock_tick: 4, function: VoidOp::Alu(AluOp::Sub, Loc8::A) }),
        0x98 => GenericInstruction::Void(Instruction { opcode: 0x98, disassembly: "SBC A, B", byte_size: 1, clock_tick: 4, branch_clock_tick: 4, function: VoidOp::Alu(AluOp::Sbc, Loc8::B) }),
        0x99 => GenericInstruction::Void(Instruction { opcode: 0x99, disassembly: "SBC A, C", byte_size: 1, clock_tick: 4, branch_clock_tick: 4, function: VoidOp::Alu(AluOp::Sbc, Loc8::C) }),
        0x9A => GenericInstruction::Void(Instruction { opcode: 0x9A, disassembly: "SBC A, D", byte_size: 1, clock_tick: 4, branch_clock_tick: 4, function: VoidOp::Alu(AluOp::Sbc, Loc8::D) }),
        0x9B => GenericInstruction::Void(Instruction { opcode: 0x9B, disassembly: "SBC A, E", byte_size: 1, clock_tick: 4, branch_clock_tick: 4, function: VoidOp::Alu(AluOp::Sbc, Loc8::E) }),
        0x9C => GenericInstruction::Void(Instruction { opcode: 0x9C, disassembly: "SBC A, H", byte_size: 1, clock_tick: 4, branch_clock_tick: 4, function: VoidOp::Alu(AluOp::Sbc, Loc8::H) }),
        0x9D => GenericInstruction::Void(Instruction { opcode: 0x9D, disassembly: "SBC A, L", byte_size: 1, clock_tick: 4, branch_clock_tick: 4, function: VoidOp::Alu(AluOp::Sbc, Loc8::L) }),
        0x9E => GenericInstruction::Void(Instruction { opcode: 0x9E, disassembly: "SBC A, (HL)", byte_size: 1, clock_tick: 8, branch_clock_tick: 8, function: VoidOp::Alu(AluOp::Sbc, Loc8::HlAddr) }),
        0x9F => GenericInstruction::Void(Instruction { opcode: 0x9F, disassembly: "SBC A, A", byte_size: 1, clock_tick: 4, branch_clock_tick: 4, function: VoidOp::Alu(AluOp::Sbc, Loc8::A) }),
        0xA0 => GenericInstruction::Void(Instruction { opcode: 0xA0, disassembly: "AND B", byte_size: 1, clock_tick: 4, branch_clock_tick: 4, function: VoidOp::Alu(AluOp::And, Loc8::B) }),
        0xA1 => GenericInstruction::Void(Instruction { opcode: 0xA1, disassembly: "AND C", byte_size: 1, clock_tick: 4, branch_clock_tick: 4, function: VoidOp::Alu(AluOp::And, Loc8::C) }),
        0xA2 => GenericInstruction::Void(Instruction { opcode: 0xA2, disassembly: "AND D", byte_size: 1, clock_tick: 4, branch_clock_tick: 4, function: VoidOp::Alu(AluOp::And, Loc8::D) }),
        0xA3 => GenericInstruction::Void(Instruction { opcode: 0xA3, disassembly: "AND E", byte_size: 1, clock_tick: 4, branch_clock_tick: 4, function: VoidOp::Alu(AluOp::And, Loc8::E) }),
        0xA4 => GenericInstruction::Void(Instruction { opcode: 0xA4, disassembly: "AND H", byte_size: 1, clock_tick: 4, branch_clock_tick: 4, function: VoidOp::Alu(AluOp::And, Loc8::H) }),
        0xA5 => GenericInstruction::Void(Instruction { opcode: 0xA5, disassembly: "AND L", byte_size: 1, clock_tick: 4, branch_clock_tick: 4, function: VoidOp::Alu(AluOp::And, Loc8::L) }),
        0xA6 => GenericInstruction::Void(Instruction { opcode: 0xA6, disassembly: "AND (HL)", byte_size: 1, clock_tick: 8, branch_clock_tick: 8, function: VoidOp::Alu(AluOp::And, Loc8::HlAddr) }),
        0xA7 => GenericInstruction::Void(Instruction { opcode: 0xA7, disassembly: "AND A", byte_size: 1, clock_tick: 4, branch_clock_tick: 4, function: VoidOp::Alu(AluOp::And, Loc8::A) }),
        0xA8 => GenericInstruction::Void(Instruction { opcode: 0xA8, disassembly: "XOR B", byte_size: 1, clock_tick: 4, branch_clock_tick: 4, function: VoidOp::Alu(AluOp::Xor, Loc8::B) }),
        0xA9 => GenericInstruction::Void(Instruction { opcode: 0xA9, disassembly: "XOR C", byte_size: 1, clock_tick: 4, branch_clock_tick: 4, function: VoidOp::Alu(AluOp::Xor, Loc8::C) }),
        0xAA => GenericInstruction::Void(Instruction { opcode: 0xAA, disassembly: "XOR D", byte_size: 1, clock_tick: 4, branch_clock_tick: 4, function: VoidOp::Alu(AluOp::Xor, Loc8::D) }),
        0xAB => GenericInstruction::Void(Instruction { opcode: 0xAB, disassembly: "XOR E", byte_size: 1, clock_tick: 4, branch_clock_tick: 4, function: VoidOp::Alu(AluOp::Xor, Loc8::E) }),
        0xAC => GenericInstruction::Void(Instruction { opcode: 0xAC, disassembly: "XOR H", byte_size: 1, clock_tick: 4, branch_clock_tick: 4, function: VoidOp::Alu(AluOp::Xor, Loc8::H) }),
        0xAD => GenericInstruction::Void(Instruction { opcode: 0xAD, disassembly: "XOR L", byte_size: 1, clock_tick: 4, branch_clock_tick: 4, function: VoidOp::Alu(AluOp::Xor, Loc8::L) }),
        0xAE => GenericInstruction::Void(Instruction { opcode: 0xAE, disassembly: "XOR (HL)", byte_size: 1, clock_tick: 8, branch_clock_tick: 8, function: VoidOp::Alu(AluOp::Xor, Loc8::HlAddr) }),
        0xAF => GenericInstruction::Void(Instruction { opcode: 0xAF, disassembly: "XOR A", byte_size: 1, clock_tick: 4, branch_clock_tick: 4, function: VoidOp::Alu(AluOp::Xor, Loc8::A) }),
        0xB0 => GenericInstruction::Void(Instruction { opcode: 0xB0, disassembly: "OR B", byte_size: 1, clock_tick: 4, branch_clock_tick: 4, function: VoidOp::Alu(AluOp::Or, Loc8::B) }),
        0xB1 => GenericInstruction::Void(Instruction { opcode: 0xB1, disassembly: "OR C", byte_size: 1, clock_tick: 4, branch_clock_tick: 4, function: VoidOp::Alu(AluOp::Or, Loc8::C) }),
        0xB2 => GenericInstruction::Void(Instruction { opcode: 0xB2, disassembly: "OR D", byte_size: 1, clock_tick: 4, branch_clock_tick: 4, function: VoidOp::Alu(AluOp::Or, Loc8::D) }),
        0xB3 => GenericInstruction::Void(Instruction { opcode: 0xB3, disassembly: "OR E", byte_size: 1, clock_tick: 4, branch_clock_tick: 4, function: VoidOp::Alu(AluOp::Or, Loc8::E) }),
        0xB4 => GenericInstruction::Void(Instruction { opcode: 0xB4, disassembly: "OR H", byte_size: 1, clock_tick: 4, branch_clock_tick: 4, function: VoidOp::Alu(AluOp::Or, Loc8::H) }),
        0xB5 => GenericInstruction::Void(Instruction { opcode: 0xB5, disassembly: "OR L", byte_size: 1, clock_tick: 4, branch_clock_tick: 4, function: VoidOp::Alu(AluOp::Or, Loc8::L) }),
        0xB6 => GenericInstruction::Void(Instruction { opcode: 0xB6, disassembly: "OR (HL)", byte_size: 1, clock_tick: 8, branch_clock_tick: 8, function: VoidOp::Alu(AluOp::Or, Loc8::HlAddr) }),
        0xB7 => GenericInstruction::Void(Instruction { opcode: 0xB7, disassembly: "OR A", byte_size: 1, clock_tick: 4, branch_clock_tick: 4, function: VoidOp::Alu(AluOp::Or, Loc8::A) }),
        0xB8 => GenericInstruction::Void(Instruction { opcode: 0xB8, disassembly: "CP B", byte_size: 1, clock_tick: 4, branch_clock_tick: 4, function: VoidOp::Alu(AluOp::Cp, Loc8::B) }),
        0xB9 => GenericInstruction::Void(Instruction { opcode: 0xB9, disassembly: "CP C", byte_size: 1, clock_tick: 4, branch_clock_tick: 4, function: VoidOp::Alu(AluOp::Cp, Loc8::C) }),
        0xBA => GenericInstruction::Void(Instruction { opcode: 0xBA, disassembly: "CP D", byte_size: 1, clock_tick: 4, branch_clock_tick: 4, function: VoidOp::Alu(AluOp::Cp, Loc8::D) }),
        0xBB => GenericInstruction::Void(Instruction { opcode: 0xBB, disassembly: "CP E", byte_size: 1, clock_tick: 4, branch_clock_tick: 4, function: VoidOp::Alu(AluOp::Cp, Loc8::E) }),
        0xBC => GenericInstruction::Void(Instruction { opcode: 0xBC, disassembly: "CP H", byte_size: 1, clock_tick: 4, branch_clock_tick: 4, function: VoidOp::Alu(AluOp::Cp, Loc8::H) }),
        0xBD => GenericInstruction::Void(Instruction { opcode: 0xBD, disassembly: "CP L", byte_size: 1, clock_tick: 4, branch_clock_tick: 4, function: VoidOp::Alu(AluOp::Cp, Loc8::L) }),
        0xBE => GenericInstruction::Void(Instruction { opcode: 0xBE, disassembly: "CP (HL)", byte_size: 1, clock_tick: 8, branch_clock_tick: 8, function: VoidOp::Alu(AluOp::Cp, Loc8::HlAddr) }),
        0xBF => GenericInstruction::Void(Instruction { opcode: 0xBF, disassembly: "CP A", byte_size: 1, clock_tick: 4, branch_clock_tick: 4, function: VoidOp::Alu(AluOp::Cp, Loc8::A) }),
        0xC0 => GenericInstruction::Void(Instruction { opcode: 0xC0, disassembly: "RET NZ", byte_size: 1, clock_tick: 8, branch_clock_tick: 20, function: VoidOp::Ret(Condition::NotZero) }),
        0xC1 => GenericInstruction::Void(Instruction { opcode: 0xC1, disassembly: "POP BC", byte_size: 1, clock_tick: 12, branch_clock_tick: 12, function: VoidOp::Pop(StackPair::BC) }),
        0xC2 => GenericInstruction::Far(Instruction { opcode: 0xC2, disassembly: "JP NZ, a16", byte_size: 3, clock_tick: 12, branch_clock_tick: 16, function: FarOp::Jp(Condition::NotZero) }),
        0xC3 => GenericInstruction::Far(Instruction { opcode: 0xC3, disassembly: "JP a16", byte_size: 3, clock_tick: 16, branch_clock_tick: 16, function: FarOp::Jp(Condition::Always) }),
        0xC4 => GenericInstruction::Far(Instruction { opcode: 0xC4, disassembly: "CALL NZ, a16", byte_size: 3, clock_tick: 12, branch_clock_tick: 24, function: FarOp::Call(Condition::NotZero) }),
        0xC5 => GenericInstruction::Void(Instruction { opcode: 0xC5, disassembly: "PUSH BC", byte_size: 1, clock_tick: 16, branch_clock_tick: 16, function: VoidOp::Push(StackPair::BC) }),
        0xC6 => GenericInstruction::Value(Instruction { opcode: 0xC6, disassembly: "ADD A, d8", byte_size: 2, clock_tick: 8, branch_clock_tick: 8, function: ValueOp::Alu(AluOp::Add) }),
        0xC7 => GenericInstruction::Void(Instruction { opcode: 0xC7, disassembly: "RST 00H", byte_size: 1, clock_tick: 16, branch_clock_tick: 16, function: VoidOp::Rst(0x00) }),
        0xC8 => GenericInstruction::Void(Instruction { opcode: 0xC8, disassembly: "RET Z", byte_size: 1, clock_tick: 8, branch_clock_tick: 20, function: VoidOp::Ret(Condition::Zero) }),
        0xC9 => GenericInstruction::Void(Instruction { opcode: 0xC9, disassembly: "RET", byte_size: 1, clock_tick: 16, branch_clock_tick: 16, function: VoidOp::Ret(Condition::Always) }),
        0xCA => GenericInstruction::Far(Instruction { opcode: 0xCA, disassembly: "JP Z, a16", byte_size: 3, clock_tick: 12, branch_clock_tick: 16, function: FarOp::Jp(Condition::Zero) }),
        0xCB => GenericInstruction::Void(Instruction { opcode: 0xCB, disassembly: "PREFIX CB", byte_size: 1, clock_tick: 4, branch_clock_tick: 4, function: VoidOp::Prefix }),
        0xCC => GenericInstruction::Far(Instruction { opcode: 0xCC, disassembly: "CALL Z, a16", byte_size: 3, clock_tick: 12, branch_clock_tick: 24, function: FarOp::Call(Condition::Zero) }),
        0xCD => GenericInstruction::Far(Instruction { opcode: 0xCD, disassembly: "CALL a16", byte_size: 3, clock_tick: 24, branch_clock_tick: 24, function: FarOp::Call(Condition::Always) }),
        0xCE => GenericInstruction::Value(Instruction { opcode: 0xCE, disassembly: "ADC A, d8", byte_size: 2, clock_tick: 8, branch_clock_tick: 8, function: ValueOp::Alu(AluOp::Adc) }),
        0xCF => GenericInstruction::Void(Instruction { opcode: 0xCF, disassembly: "RST 08H", byte_size: 1, clock_tick: 16, branch_clock_tick: 16, function: VoidOp::Rst(0x08) }),
        0xD0 => GenericInstruction::Void(Instruction { opcode: 0xD0, disassembly: "RET NC", byte_size: 1, clock_tick: 8, branch_clock_tick: 20, function: VoidOp::Ret(Condition::NotCarry) }),
        0xD1 => GenericInstruction::Void(Instruction { opcode: 0xD1, disassembly: "POP DE", byte_size: 1, clock_tick: 12, branch_clock_tick: 12, function: VoidOp::Pop(StackPair::DE) }),
        0xD2 => GenericInstruction::Far(Instruction { opcode: 0xD2, disassembly: "JP NC, a16", byte_size: 3, clock_tick: 12, branch_clock_tick: 16, function: FarOp::Jp(Condition::NotCarry) }),
        0xD3 => GenericInstruction::Void(Instruction { opcode: 0xD3, disassembly: "UNDEFINED", byte_size: 1, clock_tick: 4, branch_clock_tick: 4, function: VoidOp::Undefined }),
        0xD4 => GenericInstruction::Far(Instruction { opcode: 0xD4, disassembly: "CALL NC, a16", byte_size: 3, clock_tick: 12, branch_clock_tick: 24, function: FarOp::Call(Condition::NotCarry) }),
        0xD5 => GenericInstruction::Void(Instruction { opcode: 0xD5, disassembly: "PUSH DE", byte_size: 1, clock_tick: 16, branch_clock_tick: 16, function: VoidOp::Push(StackPair::DE) }),
        0xD6 => GenericInstruction::Value(Instruction { opcode: 0xD6, disassembly: "SUB d8", byte_size: 2, clock_tick: 8, branch_clock_tick: 8, function: ValueOp::Alu(AluOp::Sub) }),
        0xD7 => GenericInstruction::Void(Instruction { opcode: 0xD7, disassembly: "RST 10H", byte_size: 1, clock_tick: 16, branch_clock_tick: 16, function: VoidOp::Rst(0x10) }),
        0xD8 => GenericInstruction::Void(Instruction { opcode: 0xD8, disassembly: "RET C", byte_size: 1, clock_tick: 8, branch_clock_tick: 20, function: VoidOp::Ret(Condition::Carry) }),
        0xD9 => GenericInstruction::Void(Instruction { opcode: 0xD9, disassembly: "RETI", byte_size: 1, clock_tick: 16, branch_clock_tick: 16, function: VoidOp::Reti }),
        0xDA => GenericInstruction::Far(Instruction { opcode: 0xDA, disassembly: "JP C, a16", byte_size: 3, clock_tick: 12, branch_clock_tick: 16, function: FarOp::Jp(Condition::Carry) }),
        0xDB => GenericInstruction::Void(Instruction { opcode: 0xDB, disassembly: "UNDEFINED", byte_size: 1, clock_tick: 4, branch_clock_tick: 4, function: VoidOp::Undefined }),
        0xDC => GenericInstruction::Far(Instruction { opcode: 0xDC, disassembly: "CALL C, a16", byte_size: 3, clock_tick: 12, branch_clock_tick: 24, function: FarOp::Call(Condition::Carry) }),
        0xDD => GenericInstruction::Void(Instruction { opcode: 0xDD, disassembly: "UNDEFINED", byte_size: 1, clock_tick: 4, branch_clock_tick: 4, function: VoidOp::Undefined }),
        0xDE => GenericInstruction::Value(Instruction { opcode: 0xDE, disassembly: "SBC A, d8", byte_size: 2, clock_tick: 8, branch_clock_tick: 8, function: ValueOp::Alu(AluOp::Sbc) }),
        0xDF => GenericInstruction::Void(Instruction { opcode: 0xDF, disassembly: "RST 18H", byte_size: 1, clock_tick: 16, branch_clock_tick: 16, function: VoidOp::Rst(0x18) }),
        0xE0 => GenericInstruction::Near(Instruction { opcode: 0xE0, disassembly: "LDH (a8), A", byte_size: 2, clock_tick: 12, branch_clock_tick: 12, function: NearOp::LdFromA }),
        0xE1 => GenericInstruction::Void(Instruction { opcode: 0xE1, disassembly: "POP HL", byte_size: 1, clock_tick: 12, branch_clock_tick: 12, function: VoidOp::Pop(StackPair::HL) }),
        0xE2 => GenericInstruction::Void(Instruction { opcode: 0xE2, disassembly: "LD (C), A", byte_size: 1, clock_tick: 8, branch_clock_tick: 8, function: VoidOp::LdHighCA }),
        0xE3 => GenericInstruction::Void(Instruction { opcode: 0xE3, disassembly: "UNDEFINED", byte_size: 1, clock_tick: 4, branch_clock_tick: 4, function: VoidOp::Undefined }),
        0xE4 => GenericInstruction::Void(Instruction { opcode: 0xE4, disassembly: "UNDEFINED", byte_size: 1, clock_tick: 4, branch_clock_tick: 4, function: VoidOp::Undefined }),
        0xE5 => GenericInstruction::Void(Instruction { opcode: 0xE5, disassembly: "PUSH HL", byte_size: 1, clock_tick: 16, branch_clock_tick: 16, function: VoidOp::Push(StackPair::HL) }),
        0xE6 => GenericInstruction::Value(Instruction { opcode: 0xE6, disassembly: "AND d8", byte_size: 2, clock_tick: 8, branch_clock_tick: 8, function: ValueOp::Alu(AluOp::And) }),
        0xE7 => GenericInstruction::Void(Instruction { opcode: 0xE7, disassembly: "RST 20H", byte_size: 1, clock_tick: 16, branch_clock_tick: 16, function: VoidOp::Rst(0x20) }),
        0xE8 => GenericInstruction::Offset(Instruction { opcode: 0xE8, disassembly: "ADD SP, r8", byte_size: 2, clock_tick: 16, branch_clock_tick: 16, function: OffsetOp::Unimplemented }),
        0xE9 => GenericInstruction::Void(Instruction { opcode: 0xE9, disassembly: "JP HL", byte_size: 1, clock_tick: 4, branch_clock_tick: 4, function: VoidOp::JpHl }),
        0xEA => GenericInstruction::Far(Instruction { opcode: 0xEA, disassembly: "LD (a16), A", byte_size: 3, clock_tick: 16, branch_clock_tick: 16, function: FarOp::LdFromA }),
        0xEB => GenericInstruction::Void(Instruction { opcode: 0xEB, disassembly: "UNDEFINED", byte_size: 1, clock_tick: 4, branch_clock_tick: 4, function: VoidOp::Undefined }),
        0xEC => GenericInstruction::Void(Instruction { opcode: 0xEC, disassembly: "UNDEFINED", byte_size: 1, clock_tick: 4, branch_clock_tick: 4, function: VoidOp::Undefined }),
        0xED => GenericInstruction::Void(Instruction { opcode: 0xED, disassembly: "UNDEFINED", byte_size: 1, clock_tick: 4, branch_clock_tick: 4, function: VoidOp::Undefined }),
        0xEE => GenericInstruction::Value(Instruction { opcode: 0xEE, disassembly: "XOR d8", byte_size: 2, clock_tick: 8, branch_clock_tick: 8, function: ValueOp::Alu(AluOp::Xor) }),
        0xEF => GenericInstruction::Void(Instruction { opcode: 0xEF, disassembly: "RST 28H", byte_size: 1, clock_tick: 16, branch_clock_tick: 16, function: VoidOp::Rst(0x28) }),
        0xF0 => GenericInstruction::Near(Instruction { opcode: 0xF0, disassembly: "LDH A, (a8)", byte_size: 2, clock_tick: 12, branch_clock_tick: 12, function: NearOp::LdA }),
        0xF1 => GenericInstruction::Void(Instruction { opcode: 0xF1, disassembly: "POP AF", byte_size: 1, clock_tick: 12, branch_clock_tick: 12, function: VoidOp::Pop(StackPair::AF) }),
        0xF2 => GenericInstruction::Void(Instruction { opcode: 0xF2, disassembly: "LD A, (C)", byte_size: 1, clock_tick: 8, branch_clock_tick: 8, function: VoidOp::LdAHighC }),
        0xF3 => GenericInstruction::Void(Instruction { opcode: 0xF3, disassembly: "DI", byte_size: 1, clock_tick: 4, branch_clock_tick: 4, function: VoidOp::Unimplemented }),
        0xF4 => GenericInstruction::Void(Instruction { opcode: 0xF4, disassembly: "UNDEFINED", byte_size: 1, clock_tick: 4, branch_clock_tick: 4, function: VoidOp::Undefined }),
        0xF5 => GenericInstruction::Void(Instruction { opcode: 0xF5, disassembly: "PUSH AF", byte_size: 1, clock_tick: 16, branch_clock_tick: 16, function: VoidOp::Push(StackPair::AF) }),
        0xF6 => GenericInstruction::Value(Instruction { opcode: 0xF6, disassembly: "OR d8", byte_size: 2, clock_tick: 8, branch_clock_tick: 8, function: ValueOp::Alu(AluOp::Or) }),
        0xF7 => GenericInstruction::Void(Instruction { opcode: 0xF7, disassembly: "RST 30H", byte_size: 1, clock_tick: 16, branch_clock_tick: 16, function: VoidOp::Rst(0x30) }),
        0xF8 => GenericInstruction::Offset(Instruction { opcode: 0xF8, disassembly: "LD HL, SP + r8", byte_size: 2, clock_tick: 12, branch_clock_tick: 12, function: OffsetOp::LdHlSp }),
        0xF9 => GenericInstruction::Void(Instruction { opcode: 0xF9, disassembly: "LD SP, HL", byte_size: 1, clock_tick: 8, branch_clock_tick: 8, function: VoidOp::LdSpHl }),
        0xFA => GenericInstruction::Far(Instruction { opcode: 0xFA, disassembly: "LD A, (a16)", byte_size: 3, clock_tick: 16, branch_clock_tick: 16, function: FarOp::LdA }),
        0xFB => GenericInstruction::Void(Instruction { opcode: 0xFB, disassembly: "EI", byte_size: 1, clock_tick: 4, branch_clock_tick: 4, function: VoidOp::Unimplemented }),
        0xFC => GenericInstruction::Void(Instruction { opcode: 0xFC, disassembly: "UNDEFINED", byte_size: 1, clock_tick: 4, branch_clock_tick: 4, function: VoidOp::Undefined }),
        0xFD => GenericInstruction::Void(Instruction { opcode: 0xFD, disassembly: "UNDEFINED", byte_size: 1, clock_tick: 4, branch_clock_tick: 4, function: VoidOp::Undefined }),
        0xFE => GenericInstruction::Value(Instruction { opcode: 0xFE, disassembly: "CP d8", byte_size: 2, clock_tick: 8, branch_clock_tick: 8, function: ValueOp::Alu(AluOp::Cp) }),
        0xFF => GenericInstruction::Void(Instruction { opcode: 0xFF, disassembly: "RST 38H", byte_size: 1, clock_tick: 16, branch_clock_tick: 16, function: VoidOp::Rst(0x38) }),
    }
}

/// The prefixed table: the instruction of each byte that follows the prefix
/// opcode.
#[verifier::opaque]
pub open spec fn prefixed_instruction(opcode: OpCode) -> GenericInstruction {
    match opcode {
        0x00 => GenericInstruction::Void(Instruction { opcode: 0x00, disassembly: "RLC B", byte_size: 2, clock_tick: 8, branch_clock_tick: 8, function: VoidOp::Shift(Shift::Rlc, Loc8::B) }),
        0x01 => GenericInstruction::Void(Instruction { opcode: 0x01, disassembly: "RLC C", byte_size: 2, clock_tick: 8, branch_clock_tick: 8, function: VoidOp::Shift(Shift::Rlc, Loc8::C) }),
        0x02 => GenericInstruction::Void(Instruction { opcode: 0x02, disassembly: "RLC D", byte_size: 2, clock_tick: 8, branch_clock_tick: 8, function: VoidOp::Shift(Shift::Rlc, Loc8::D) }),
        0x03 => GenericInstruction::Void(Instruction { opcode: 0x03, disassembly: "RLC E", byte_size: 2, clock_tick: 8, branch_clock_tick: 8, function: VoidOp::Shift(Shift::Rlc, Loc8::E) }),
        0x04 => GenericInstruction::Void(Instruction { opcode: 0x04, disassembly: "RLC H", byte_size: 2, clock_tick: 8, branch_clock_tick: 8, function: VoidOp::Shift(Shift::Rlc, Loc8::H) }),
        0x05 => GenericInstruction::Void(Instruction { opcode: 0x05, disassembly: "RLC L", byte_size: 2, clock_tick: 8, branch_clock_tick: 8, function: VoidOp::Shift(Shift::Rlc, Loc8::L) }),
        0x06 => GenericInstruction::Void(Instruction { opcode: 0x06, disassembly: "RLC (HL)", byte_size: 2, clock_tick: 16, branch_clock_tick: 16, function: VoidOp::Shift(Shift::Rlc, Loc8::HlAddr) }),
        0x07 => GenericInstruction::Void(Instruction { opcode: 0x07, disassembly: "RLC A", byte_size: 2, clock_tick: 8, branch_clock_tick: 8, function: VoidOp::Shift(Shift::Rlc, Loc8::A) }),
        0x08 => GenericInstruction::Void(Instruction { opcode: 0x08, disassembly: "RRC B", byte_size: 2, clock_tick: 8, branch_clock_tick: 8, function: VoidOp::Shift(Shift::Rrc, Loc8::B) }),
        0x09 => GenericInstruction::Void(Instruction { opcode: 0x09, disassembly: "RRC C", byte_size: 2, clock_tick: 8, branch_clock_tick: 8, function: VoidOp::Shift(Shift::Rrc, Loc8::C) }),
        0x0A => GenericInstruction::Void(Instruction { opcode: 0x0A, disassembly: "RRC D", byte_size: 2, clock_tick: 8, branch_clock_tick: 8, function: VoidOp::Shift(Shift::Rrc, Loc8::D) }),
        0x0B => GenericInstruction::Void(Instruction { opcode: 0x0B, disassembly: "RRC E", byte_size: 2, clock_tick: 8, branch_clock_tick: 8, function: VoidOp::Shift(Shift::Rrc, Loc8::E) }),
        0x0C => GenericInstruction::Void(Instruction { opcode: 0x0C, disassembly: "RRC H", byte_size: 2, clock_tick: 8, branch_clock_tick: 8, function: VoidOp::Shift(Shift::Rrc, Loc8::H) }),
        0x0D => GenericInstruction::Void(Instruction { opcode: 0x0D, disassembly: "RRC L", byte_size: 2, clock_tick: 8, branch_clock_tick: 8, function: VoidOp::Shift(Shift::Rrc, Loc8::L) }),
        0x0E => GenericInstruction::Void(Instruction { opcode: 0x0E, disassembly: "RRC (HL)", byte_size: 2, clock_tick: 16, branch_clock_tick: 16, function: VoidOp::Shift(Shift::Rrc, Loc8::HlAddr) }),
        0x0F => GenericInstruction::Void(Instruction { opcode: 0x0F, disassembly: "RRC A", byte_size: 2, clock_tick: 8, branch_clock_tick: 8, function: VoidOp::Shift(Shift::Rrc, Loc8::A) }),
        0x10 => GenericInstruction::Void(Instruction { opcode: 0x10, disassembly: "RL B", byte_size: 2, clock_tick: 8, branch_clock_tick: 8, function: VoidOp::Shift(Shift::Rl, Loc8::B) }),
        0x11 => GenericInstruction::Void(Instruction { opcode: 0x11, disassembly: "RL C", byte_size: 2, clock_tick: 8, branch_clock_tick: 8, function: VoidOp::Shift(Shift::Rl, Loc8::C) }),
        0x12 => GenericInstruction::Void(Instruction { opcode: 0x12, disassembly: "RL D", byte_size: 2, clock_tick: 8, branch_clock_tick: 8, function: VoidOp::Shift(Shift::Rl, Loc8::D) }),
        0x13 => GenericInstruction::Void(Instruction { opcode: 0x13, disassembly: "RL E", byte_size: 2, clock_tick: 8, branch_clock_tick: 8, function: VoidOp::Shift(Shift::Rl, Loc8::E) }),
        0x14 => GenericInstruction::Void(Instruction { opcode: 0x14, disassembly: "RL H", byte_size: 2, clock_tick: 8, branch_clock_tick: 8, function: VoidOp::Shift(Shift::Rl, Loc8::H) }),
        0x15 => GenericInstruction::Void(Instruction { opcode: 0x15, disassembly: "RL L", byte_size: 2, clock_tick: 8, branch_clock_tick: 8, function: VoidOp::Shift(Shift::Rl, Loc8::L) }),
        0x16 => GenericInstruction::Void(Instruction { opcode: 0x16, disassembly: "RL (HL)", byte_size: 2, clock_tick: 16, branch_clock_tick: 16, function: VoidOp::Shift(Shift::Rl, Loc8::HlAddr) }),
        0x17 => GenericInstruction::Void(Instruction { opcode: 0x17, disassembly: "RL A", byte_size: 2, clock_tick: 8, branch_clock_tick: 8, function: VoidOp::Shift(Shift::Rl, Loc8::A) }),
        0x18 => GenericInstruction::Void(Instruction { opcode: 0x18, disassembly: "RR B", byte_size: 2, clock_tick: 8, branch_clock_tick: 8, function: VoidOp::Shift(Shift::Rr, Loc8::B) }),
        0x19 => GenericInstruction::Void(Instruction { opcode: 0x19, disassembly: "RR C", byte_size: 2, clock_tick: 8, branch_clock_tick: 8, function: VoidOp::Shift(Shift::Rr, Loc8::C) }),
        0x1A => GenericInstruction::Void(Instruction { opcode: 0x1A, disassembly: "RR D", byte_size: 2, clock_tick: 8, branch_clock_tick: 8, function: VoidOp::Shift(Shift::Rr, Loc8::D) }),
        0x1B => GenericInstruction::Void(Instruction { opcode: 0x1B, disassembly: "RR E", byte_size: 2, clock_tick: 8, branch_clock_tick: 8, function: VoidOp::Shift(Shift::Rr, Loc8::E) }),
        0x1C => GenericInstruction::Void(Instruction { opcode: 0x1C, disassembly: "RR H", byte_size: 2, clock_tick: 8, branch_clock_tick: 8, function: VoidOp::Shift(Shift::Rr, Loc8::H) }),
        0x1D => GenericInstruction::Void(Instruction { opcode: 0x1D, disassembly: "RR L", byte_size: 2, clock_tick: 8, branch_clock_tick: 8, function: VoidOp::Shift(Shift::Rr, Loc8::L) }),
        0x1E => GenericInstruction::Void(Instruction { opcode: 0x1E, disassembly: "RR (HL)", byte_size: 2, clock_tick: 16, branch_clock_tick: 16, function: VoidOp::Shift(Shift::Rr, Loc8::HlAddr) }),
        0x1F => GenericInstruction::Void(Instruction { opcode: 0x1F, disassembly: "RR A", byte_size: 2, clock_tick: 8, branch_clock_tick: 8, function: VoidOp::Shift(Shift::Rr, Loc8::A) }),
        0x20 => GenericInstruction::Void(Instruction { opcode: 0x20, disassembly: "SLA B", byte_size: 2, clock_tick: 8, branch_clock_tick: 8, function: VoidOp::Shift(Shift::Sla, Loc8::B) }),
        0x21 => GenericInstruction::Void(Instruction { opcode: 0x21, disassembly: "SLA C", byte_size: 2, clock_tick: 8, branch_clock_tick: 8, function: VoidOp::Shift(Shift::Sla, Loc8::C) }),
        0x22 => GenericInstruction::Void(Instruction { opcode: 0x22, disassembly: "SLA D", byte_size: 2, clock_tick: 8, branch_clock_tick: 8, function: VoidOp::Shift(Shift::Sla, Loc8::D) }),
        0x23 => GenericInstruction::Void(Instruction { opcode: 0x23, disassembly: "SLA E", byte_size: 2, clock_tick: 8, branch_clock_tick: 8, function: VoidOp::Shift(Shift::Sla, Loc8::E) }),
        0x24 => GenericInstruction::Void(Instruction { opcode: 0x24, disassembly: "SLA H", byte_size: 2, clock_tick: 8, branch_clock_tick: 8, function: VoidOp::Shift(Shift::Sla, Loc8::H) }),
        0x25 => GenericInstruction::Void(Instruction { opcode: 0x25, disassembly: "SLA L", byte_size: 2, clock_tick: 8, branch_clock_tick: 8, function: VoidOp::Shift(Shift::Sla, Loc8::L) }),
        0x26 => GenericInstruction::Void(Instruction { opcode: 0x26, disassembly: "SLA (HL)", byte_size: 2, clock_tick: 16, branch_clock_tick: 16, function: VoidOp::Shift(Shift::Sla, Loc8::HlAddr) }),
        0x27 => GenericInstruction::Void(Instruction { opcode: 0x27, disassembly: "SLA A", byte_size: 2, clock_tick: 8, branch_clock_tick: 8, function: VoidOp::Shift(Shift::Sla, Loc8::A) }),
        0x28 => GenericInstruction::Void(Instruction { opcode: 0x28, disassembly: "SRA B", byte_size: 2, clock_tick: 8, branch_clock_tick: 8, function: VoidOp::Shift(Shift::Sra, Loc8::B) }),
        0x29 => GenericInstruction::Void(Instruction { opcode: 0x29, disassembly: "SRA C", byte_size: 2, clock_tick: 8, branch_clock_tick: 8, function: VoidOp::Shift(Shift::Sra, Loc8::C) }),
        0x2A => GenericInstruction::Void(Instruction { opcode: 0x2A, disassembly: "SRA D", byte_size: 2, clock_tick: 8, branch_clock_tick: 8, function: VoidOp::Shift(Shift::Sra, Loc8::D) }),
        0x2B => GenericInstruction::Void(Instruction { opcode: 0x2B, disassembly: "SRA E", byte_size: 2, clock_tick: 8, branch_clock_tick: 8, function: VoidOp::Shift(Shift::Sra, Loc8::E) }),
        0x2C => GenericInstruction::Void(Instruction { opcode: 0x2C, disassembly: "SRA H", byte_size: 2, clock_tick: 8, branch_clock_tick: 8, function: VoidOp::Shift(Shift::Sra, Loc8::H) }),
        0x2D => GenericInstruction::Void(Instruction { opcode: 0x2D, disassembly: "SRA L", byte_size: 2, clock_tick: 8, branch_clock_tick: 8, function: VoidOp::Shift(Shift::Sra, Loc8::L) }),
        0x2E => GenericInstruction::Void(Instruction { opcode: 0x2E, disassembly: "SRA (HL)", byte_size: 2, clock_tick: 16, branch_clock_tick: 16, function: VoidOp::Shift(Shift::Sra, Loc8::HlAddr) }),
        0x2F => GenericInstruction::Void(Instruction { opcode: 0x2F, disassembly: "SRA A", byte_size: 2, clock_tick: 8, branch_clock_tick: 8, function: VoidOp::Shift(Shift::Sra, Loc8::A) }),
        0x30 => GenericInstruction::Void(Instruction { opcode: 0x30, disassembly: "SWAP B", byte_size: 2, clock_tick: 8, branch_clock_tick: 8, function: VoidOp::Shift(Shift::Swap, Loc8::B) }),
        0x31 => GenericInstruction::Void(Instruction { opcode: 0x31, disassembly: "SWAP C", byte_size: 2, clock_tick: 8, branch_clock_tick: 8, function: VoidOp::Shift(Shift::Swap, Loc8::C) }),
        0x32 => GenericInstruction::Void(Instruction { opcode: 0x32, disassembly: "SWAP D", byte_size: 2, clock_tick: 8, branch_clock_tick: 8, function: VoidOp::Shift(Shift::Swap, Loc8::D) }),
        0x33 => GenericInstruction::Void(Instruction { opcode: 0x33, disassembly: "SWAP E", byte_size: 2, clock_tick: 8, branch_clock_tick: 8, function: VoidOp::Shift(Shift::Swap, Loc8::E) }),
        0x34 => GenericInstruction::Void(Instruction { opcode: 0x34, disassembly: "SWAP H", byte_size: 2, clock_tick: 8, branch_clock_tick: 8, function: VoidOp::Shift(Shift::Swap, Loc8::H) }),
        0x35 => GenericInstruction::Void(Instruction { opcode: 0x35, disassembly: "SWAP L", byte_size: 2, clock_tick: 8, branch_clock_tick: 8, function: VoidOp::Shift(Shift::Swap, Loc8::L) }),
        0x36 => GenericInstruction::Void(Instruction { opcode: 0x36, disassembly: "SWAP (HL)", byte_size: 2, clock_tick: 16, branch_clock_tick: 16, function: VoidOp::Shift(Shift::Swap, Loc8::HlAddr) }),
        0x37 => GenericInstruction::Void(Instruction { opcode: 0x37, disassembly: "SWAP A", byte_size: 2, clock_tick: 8, branch_clock_tick: 8, function: VoidOp::Shift(Shift::Swap, Loc8::A) }),
        0x38 => GenericInstruction::Void(Instruction { opcode: 0x38, disassembly: "SRL B", byte_size: 2, clock_tick: 8, branch_clock_tick: 8, function: VoidOp::Shift(Shift::Srl, Loc8::B) }),
        0x39 => GenericInstruction::Void(Instruction { opcode: 0x39, disassembly: "SRL C", byte_size: 2, clock_tick: 8, branch_clock_tick: 8, function: VoidOp::Shift(Shift::Srl, Loc8::C) }),
        0x3A => GenericInstruction::Void(Instruction { opcode: 0x3A, disassembly: "SRL D", byte_size: 2, clock_tick: 8, branch_clock_tick: 8, function: VoidOp::Shift(Shift::Srl, Loc8::D) }),
        0x3B => GenericInstruction::Void(Instruction { opcode: 0x3B, disassembly: "SRL E", byte_size: 2, clock_tick: 8, branch_clock_tick: 8, function: VoidOp::Shift(Shift::Srl, Loc8::E) }),
        0x3C => GenericInstruction::Void(Instruction { opcode: 0x3C, disassembly: "SRL H", byte_size: 2, clock_tick: 8, branch_clock_tick: 8, function: VoidOp::Shift(Shift::Srl, Loc8::H) }),
        0x3D => GenericInstruction::Void(Instruction { opcode: 0x3D, disassembly: "SRL L", byte_size: 2, clock_tick: 8, branch_clock_tick: 8, function: VoidOp::Shift(Shift::Srl, Loc8::L) }),
        0x3E => GenericInstruction::Void(Instruction { opcode: 0x3E, disassembly: "SRL (HL)", byte_size: 2, clock_tick: 16, branch_clock_tick: 16, function: VoidOp::Shift(Shift::Srl, Loc8::HlAddr) }),
        0x3F => GenericInstruction::Void(Instruction { opcode: 0x3F, disassembly: "SRL A", byte_size: 2, clock_tick: 8, branch_clock_tick: 8, function: VoidOp::Shift(Shift::Srl, Loc8::A) }),
        0x40 => GenericInstruction::Void(Instruction { opcode: 0x40, disassembly: "BIT 0, B", byte_size: 2, clock_tick: 8, branch_clock_tick: 8, function: VoidOp::TestBit(0, Loc8::B) }),
        0x41 => GenericInstruction::Void(Instruction { opcode: 0x41, disassembly: "BIT 0, C", byte_size: 2, clock_tick: 8, branch_clock_tick: 8, function: VoidOp::TestBit(0, Loc8::C) }),
        0x42 => GenericInstruction::Void(Instruction { opcode: 0x42, disassembly: "BIT 0, D", byte_size: 2, clock_tick: 8, branch_clock_tick: 8, function: VoidOp::TestBit(0, Loc8::D) }),
        0x43 => GenericInstruction::Void(Instruction { opcode: 0x43, disassembly: "BIT 0, E", byte_size: 2, clock_tick: 8, branch_clock_tick: 8, function: VoidOp::TestBit(0, Loc8::E) }),
        0x44 => GenericInstruction::Void(Instruction { opcode: 0x44, disassembly: "BIT 0, H", byte_size: 2, clock_tick: 8, branch_clock_tick: 8, function: VoidOp::TestBit(0, Loc8::H) }),
        0x45 => GenericInstruction::Void(Instruction { opcode: 0x45, disassembly: "BIT 0, L", byte_size: 2, clock_tick: 8, branch_clock_tick: 8, function: VoidOp::TestBit(0, Loc8::L) }),
        0x46 => GenericInstruction::Void(Instruction { opcode: 0x46, disassembly: "BIT 0, (HL)", byte_size: 2, clock_tick: 12, branch_clock_tick: 12, function: VoidOp::TestBit(0, Loc8::HlAddr) }),
        0x47 => GenericInstruction::Void(Instruction { opcode: 0x47, disassembly: "BIT 0, A", byte_size: 2, clock_tick: 8, branch_clock_tick: 8, function: VoidOp::TestBit(0, Loc8::A) }),
        0x48 => GenericInstruction::Void(Instruction { opcode: 0x48, disassembly: "BIT 1, B", byte_size: 2, clock_tick: 8, branch_clock_tick: 8, function: VoidOp::TestBit(1, Loc8::B) }),
        0x49 => GenericInstruction::Void(Instruction { opcode: 0x49, disassembly: "BIT 1, C", byte_size: 2, clock_tick: 8, branch_clock_tick: 8, function: VoidOp::TestBit(1, Loc8::C) }),
        0x4A => GenericInstruction::Void(Instruction { opcode: 0x4A, disassembly: "BIT 1, D", byte_size: 2, clock_tick: 8, branch_clock_tick: 8, function: VoidOp::TestBit(1, Loc8::D) }),
        0x4B => GenericInstruction::Void(Instruction { opcode: 0x4B, disassembly: "BIT 1, E", byte_size: 2, clock_tick: 8, branch_clock_tick: 8, function: VoidOp::TestBit(1, Loc8::E) }),
        0x4C => GenericInstruction::Void(Instruction { opcode: 0x4C, disassembly: "BIT 1, H", byte_size: 2, clock_tick: 8, branch_clock_tick: 8, function: VoidOp::TestBit(1, Loc8::H) }),
        0x4D => GenericInstruction::Void(Instruction { opcode: 0x4D, disassembly: "BIT 1, L", byte_size: 2, clock_tick: 8, branch_clock_tick: 8, function: VoidOp::TestBit(1, Loc8::L) }),
        0x4E => GenericInstruction::Void(Instruction { opcode: 0x4E, disassembly: "BIT 1, (HL)", byte_size: 2, clock_tick: 12, branch_clock_tick: 12, function: VoidOp::TestBit(1, Loc8::HlAddr) }),
        0x4F => GenericInstruction::Void(Instruction { opcode: 0x4F, disassembly: "BIT 1, A", byte_size: 2, clock_tick: 8, branch_clock_tick: 8, function: VoidOp::TestBit(1, Loc8::A) }),
        0x50 => GenericInstruction::Void(Instruction { opcode: 0x50, disassembly: "BIT 2, B", byte_size: 2, clock_tick: 8, branch_clock_tick: 8, function: VoidOp::TestBit(2, Loc8::B) }),
        0x51 => GenericInstruction::Void(Instruction { opcode: 0x51, disassembly: "BIT 2, C", byte_size: 2, clock_tick: 8, branch_clock_tick: 8, function: VoidOp::TestBit(2, Loc8::C) }),
        0x52 => GenericInstruction::Void(Instruction { opcode: 0x52, disassembly: "BIT 2, D", byte_size: 2, clock_tick: 8, branch_clock_tick: 8, function: VoidOp::TestBit(2, Loc8::D) }),
        0x53 => GenericInstruction::Void(Instruction { opcode: 0x53, disassembly: "BIT 2, E", byte_size: 2, clock_tick: 8, branch_clock_tick: 8, function: VoidOp::TestBit(2, Loc8::E) }),
        0x54 => GenericInstruction::Void(Instruction { opcode: 0x54, disassembly: "BIT 2, H", byte_size: 2, clock_tick: 8, branch_clock_tick: 8, function: VoidOp::TestBit(2, Loc8::H) }),
        0x55 => GenericInstruction::Void(Instruction { opcode: 0x55, disassembly: "BIT 2, L", byte_size: 2, clock_tick: 8, branch_clock_tick: 8, function: VoidOp::TestBit(2, Loc8::L) }),
        0x56 => GenericInstruction::Void(Instruction { opcode: 0x56, disassembly: "BIT 2, (HL)", byte_size: 2, clock_tick: 12, branch_clock_tick: 12, function: VoidOp::TestBit(2, Loc8::HlAddr) }),
        0x57 => GenericInstruction::Void(Instruction { opcode: 0x57, disassembly: "BIT 2, A", byte_size: 2, clock_tick: 8, branch_clock_tick: 8, function: VoidOp::TestBit(2, Loc8::A) }),
        0x58 => GenericInstruction::Void(Instruction { opcode: 0x58, disassembly: "BIT 3, B", byte_size: 2, clock_tick: 8, branch_clock_tick: 8, function: VoidOp::TestBit(3, Loc8::B) }),
        0x59 => GenericInstruction::Void(Instruction { opcode: 0x59, disassembly: "BIT 3, C", byte_size: 2, clock_tick: 8, branch_clock_tick: 8, function: VoidOp::TestBit(3, Loc8::C) }),
        0x5A => GenericInstruction::Void(Instruction { opcode: 0x5A, disassembly: "BIT 3, D", byte_size: 2, clock_tick: 8, branch_clock_tick: 8, function: VoidOp::TestBit(3, Loc8::D) }),
        0x5B => GenericInstruction::Void(Instruction { opcode: 0x5B, disassembly: "BIT 3, E", byte_size: 2, clock_tick: 8, branch_clock_tick: 8, function: VoidOp::TestBit(3, Loc8::E) }),
        0x5C => GenericInstruction::Void(Instruction { opcode: 0x5C, disassembly: "BIT 3, H", byte_size: 2, clock_tick: 8, branch_clock_tick: 8, function: VoidOp::TestBit(3, Loc8::H) }),
        0x5D => GenericInstruction::Void(Instruction { opcode: 0x5D, disassembly: "BIT 3, L", byte_size: 2, clock_tick: 8, branch_clock_tick: 8, function: VoidOp::TestBit(3, Loc8::L) }),
        0x5E => GenericInstruction::Void(Instruction { opcode: 0x5E, disassembly: "BIT 3, (HL)", byte_size: 2, clock_tick: 12, branch_clock_tick: 12, function: VoidOp::TestBit(3, Loc8::HlAddr) }),
        0x5F => GenericInstruction::Void(Instruction { opcode: 0x5F, disassembly: "BIT 3, A", byte_size: 2, clock_tick: 8, branch_clock_tick: 8, function: VoidOp::TestBit(3, Loc8::A) }),
        0x60 => GenericInstruction::Void(Instruction { opcode: 0x60, disassembly: "BIT 4, B", byte_size: 2, clock_tick: 8, branch_clock_tick: 8, function: VoidOp::TestBit(4, Loc8::B) }),
        0x61 => GenericInstruction::Void(Instruction { opcode: 0x61, disassembly: "BIT 4, C", byte_size: 2, clock_tick: 8, branch_clock_tick: 8, function: VoidOp::TestBit(4, Loc8::C) }),
        0x62 => GenericInstruction::Void(Instruction { opcode: 0x62, disassembly: "BIT 4, D", byte_size: 2, clock_tick: 8, branch_clock_tick: 8, function: VoidOp::TestBit(4, Loc8::D) }),
        0x63 => GenericInstruction::Void(Instruction { opcode: 0x63, disassembly: "BIT 4, E", byte_size: 2, clock_tick: 8, branch_clock_tick: 8, function: VoidOp::TestBit(4, Loc8::E) }),
        0x64 => GenericInstruction::Void(Instruction { opcode: 0x64, disassembly: "BIT 4, H", byte_size: 2, clock_tick: 8, branch_clock_tick: 8, function: VoidOp::TestBit(4, Loc8::H) }),
        0x65 => GenericInstruction::Void(Instruction { opcode: 0x65, disassembly: "BIT 4, L", byte_size: 2, clock_tick: 8, branch_clock_tick: 8, function: VoidOp::TestBit(4, Loc8::L) }),
        0x66 => GenericInstruction::Void(Instruction { opcode: 0x66, disassembly: "BIT 4, (HL)", byte_size: 2, clock_tick: 12, branch_clock_tick: 12, function: VoidOp::TestBit(4, Loc8::HlAddr) }),
        0x67 => GenericInstruction::Void(Instruction { opcode: 0x67, disassembly: "BIT 4, A", byte_size: 2, clock_tick: 8, branch_clock_tick: 8, function: VoidOp::TestBit(4, Loc8::A) }),
        0x68 => GenericInstruction::Void(Instruction { opcode: 0x68, disassembly: "BIT 5, B", byte_size: 2, clock_tick: 8, branch_clock_tick: 8, function: VoidOp::TestBit(5, Loc8::B) }),
        0x69 => GenericInstruction::Void(Instruction { opcode: 0x69, disassembly: "BIT 5, C", byte_size: 2, clock_tick: 8, branch_clock_tick: 8, function: VoidOp::TestBit(5, Loc8::C) }),
        0x6A => GenericInstruction::Void(Instruction { opcode: 0x6A, disassembly: "BIT 5, D", byte_size: 2, clock_tick: 8, branch_clock_tick: 8, function: VoidOp::TestBit(5, Loc8::D) }),
        0x6B => GenericInstruction::Void(Instruction { opcode: 0x6B, disassembly: "BIT 5, E", byte_size: 2, clock_tick: 8, branch_clock_tick: 8, function: VoidOp::TestBit(5, Loc8::E) }),
        0x6C => GenericInstruction::Void(Instruction { opcode: 0x6C, disassembly: "BIT 5, H", byte_size: 2, clock_tick: 8, branch_clock_tick: 8, function: VoidOp::TestBit(5, Loc8::H) }),
        0x6D => GenericInstruction::Void(Instruction { opcode: 0x6D, disassembly: "BIT 5, L", byte_size: 2, clock_tick: 8, branch_clock_tick: 8, function: VoidOp::TestBit(5, Loc8::L) }),
        0x6E => GenericInstruction::Void(Instruction { opcode: 0x6E, disassembly: "BIT 5, (HL)", byte_size: 2, clock_tick: 12, branch_clock_tick: 12, function: VoidOp::TestBit(5, Loc8::HlAddr) }),
        0x6F => GenericInstruction::Void(Instruction { opcode: 0x6F, disassembly: "BIT 5, A", byte_size: 2, clock_tick: 8, branch_clock_tick: 8, function: VoidOp::TestBit(5, Loc8::A) }),
        0x70 => GenericInstruction::Void(Instruction { opcode: 0x70, disassembly: "BIT 6, B", byte_size: 2, clock_tick: 8, branch_clock_tick: 8, function: VoidOp::TestBit(6, Loc8::B) }),
        0x71 => GenericInstruction::Void(Instruction { opcode: 0x71, disassembly: "BIT 6, C", byte_size: 2, clock_tick: 8, branch_clock_tick: 8, function: VoidOp::TestBit(6, Loc8::C) }),
        0x72 => GenericInstruction::Void(Instruction { opcode: 0x72, disassembly: "BIT 6, D", byte_size: 2, clock_tick: 8, branch_clock_tick: 8, function: VoidOp::TestBit(6, Loc8::D) }),
        0x73 => GenericInstruction::Void(Instruction { opcode: 0x73, disassembly: "BIT 6, E", byte_size: 2, clock_tick: 8, branch_clock_tick: 8, function: VoidOp::TestBit(6, Loc8::E) }),
        0x74 => GenericInstruction::Void(Instruction { opcode: 0x74, disassembly: "BIT 6, H", byte_size: 2, clock_tick: 8, branch_clock_tick: 8, function: VoidOp::TestBit(6, Loc8::H) }),
        0x75 => GenericInstruction::Void(Instruction { opcode: 0x75, disassembly: "BIT 6, L", byte_size: 2, clock_tick: 8, branch_clock_tick: 8, function: VoidOp::TestBit(6, Loc8::L) }),
        0x76 => GenericInstruction::Void(Instruction { opcode: 0x76, disassembly: "BIT 6, (HL)", byte_size: 2, clock_tick: 12, branch_clock_tick: 12, function: VoidOp::TestBit(6, Loc8::HlAddr) }),
        0x77 => GenericInstruction::Void(Instruction { opcode: 0x77, disassembly: "BIT 6, A", byte_size: 2, clock_tick: 8, branch_clock_tick: 8, function: VoidOp::TestBit(6, Loc8::A) }),
        0x78 => GenericInstruction::Void(Instruction { opcode: 0x78, disassembly: "BIT 7, B", byte_size: 2, clock_tick: 8, branch_clock_tick: 8, function: VoidOp::TestBit(7, Loc8::B) }),
        0x79 => GenericInstruction::Void(Instruction { opcode: 0x79, disassembly: "BIT 7, C", byte_size: 2, clock_tick: 8, branch_clock_tick: 8, function: VoidOp::TestBit(7, Loc8::C) }),
        0x7A => GenericInstruction::Void(Instruction { opcode: 0x7A, disassembly: "BIT 7, D", byte_size: 2, clock_tick: 8, branch_clock_tick: 8, function: VoidOp::TestBit(7, Loc8::D) }),
        0x7B => GenericInstruction::Void(Instruction { opcode: 0x7B, disassembly: "BIT 7, E", byte_size: 2, clock_tick: 8, branch_clock_tick: 8, function: VoidOp::TestBit(7, Loc8::E) }),
        0x7C => GenericInstruction::Void(Instruction { opcode: 0x7C, disassembly: "BIT 7, H", byte_size: 2, clock_tick: 8, branch_clock_tick: 8, function: VoidOp::TestBit(7, Loc8::H) }),
        0x7D => GenericInstruction::Void(Instruction { opcode: 0x7D, disassembly: "BIT 7, L", byte_size: 2, clock_tick: 8, branch_clock_tick: 8, function: VoidOp::TestBit(7, Loc8::L) }),
        0x7E => GenericInstruction::Void(Instruction { opcode: 0x7E, disassembly: "BIT 7, (HL)", byte_size: 2, clock_tick: 12, branch_clock_tick: 12, function: VoidOp::TestBit(7, Loc8::HlAddr) }),
        0x7F => GenericInstruction::Void(Instruction { opcode: 0x7F, disassembly: "BIT 7, A", byte_size: 2, clock_tick: 8, branch_clock_tick: 8, function: VoidOp::TestBit(7, Loc8::A) }),
        0x80 => GenericInstruction::Void(Instruction { opcode: 0x80, disassembly: "RES 0, B", byte_size: 2, clock_tick: 8, branch_clock_tick: 8, function: VoidOp::ResetBit(0, Loc8::B) }),
        0x81 => GenericInstruction::Void(Instruction { opcode: 0x81, disassembly: "RES 0, C", byte_size: 2, clock_tick: 8, branch_clock_tick: 8, function: VoidOp::ResetBit(0, Loc8::C) }),
        0x82 => GenericInstruction::Void(Instruction { opcode: 0x82, disassembly: "RES 0, D", byte_size: 2, clock_tick: 8, branch_clock_tick: 8, function: VoidOp::ResetBit(0, Loc8::D) }),
        0x83 => GenericInstruction::Void(Instruction { opcode: 0x83, disassembly: "RES 0, E", byte_size: 2, clock_tick: 8, branch_clock_tick: 8, function: VoidOp::ResetBit(0, Loc8::E) }),
        0x84 => GenericInstruction::Void(Instruction { opcode: 0x84, disassembly: "RES 0, H", byte_size: 2, clock_tick: 8, branch_clock_tick: 8, function: VoidOp::ResetBit(0, Loc8::H) }),
        0x85 => GenericInstruction::Void(Instruction { opcode: 0x85, disassembly: "RES 0, L", byte_size: 2, clock_tick: 8, branch_clock_tick: 8, function: VoidOp::ResetBit(0, Loc8::L) }),
        0x86 => GenericInstruction::Void(Instruction { opcode: 0x86, disassembly: "RES 0, (HL)", byte_size: 2, clock_tick: 16, branch_clock_tick: 16, function: VoidOp::ResetBit(0, Loc8::HlAddr) }),
        0x87 => GenericInstruction::Void(Instruction { opcode: 0x87, disassembly: "RES 0, A", byte_size: 2, clock_tick: 8, branch_clock_tick: 8, function: VoidOp::ResetBit(0, Loc8::A) }),
        0x88 => GenericInstruction::Void(Instruction { opcode: 0x88, disassembly: "RES 1, B", byte_size: 2, clock_tick: 8, branch_clock_tick: 8, function: VoidOp::ResetBit(1, Loc8::B) }),
        0x89 => GenericInstruction::Void(Instruction { opcode: 0x89, disassembly: "RES 1, C", byte_size: 2, clock_tick: 8, branch_clock_tick: 8, function: VoidOp::ResetBit(1, Loc8::C) }),
        0x8A => GenericInstruction::Void(Instruction { opcode: 0x8A, disassembly: "RES 1, D", byte_size: 2, clock_tick: 8, branch_clock_tick: 8, function: VoidOp::ResetBit(1, Loc8::D) }),
        0x8B => GenericInstruction::Void(Instruction { opcode: 0x8B, disassembly: "RES 1, E", byte_size: 2, clock_tick: 8, branch_clock_tick: 8, function: VoidOp::ResetBit(1, Loc8::E) }),
        0x8C => GenericInstruction::Void(Instruction { opcode: 0x8C, disassembly: "RES 1, H", byte_size: 2, clock_tick: 8, branch_clock_tick: 8, function: VoidOp::ResetBit(1, Loc8::H) }),
        0x8D => GenericInstruction::Void(Instruction { opcode: 0x8D, disassembly: "RES 1, L", byte_size: 2, clock_tick: 8, branch_clock_tick: 8, function: VoidOp::ResetBit(1, Loc8::L) }),
        0x8E => GenericInstruction::Void(Instruction { opcode: 0x8E, disassembly: "RES 1, (HL)", byte_size: 2, clock_tick: 16, branch_clock_tick: 16, function: VoidOp::ResetBit(1, Loc8::HlAddr) }),
        0x8F => GenericInstruction::Void(Instruction { opcode: 0x8F, disassembly: "RES 1, A", byte_size: 2, clock_tick: 8, branch_clock_tick: 8, function: VoidOp::ResetBit(1, Loc8::A) }),
        0x90 => GenericInstruction::Void(Instruction { opcode: 0x90, disassembly: "RES 2, B", byte_size: 2, clock_tick: 8, branch_clock_tick: 8, function: VoidOp::ResetBit(2, Loc8::B) }),
        0x91 => GenericInstruction::Void(Instruction { opcode: 0x91, disassembly: "RES 2, C", byte_size: 2, clock_tick: 8, branch_clock_tick: 8, function: VoidOp::ResetBit(2, Loc8::C) }),
        0x92 => GenericInstruction::Void(Instruction { opcode: 0x92, disassembly: "RES 2, D", byte_size: 2, clock_tick: 8, branch_clock_tick: 8, function: VoidOp::ResetBit(2, Loc8::D) }),
        0x93 => GenericInstruction::Void(Instruction { opcode: 0x93, disassembly: "RES 2, E", byte_size: 2, clock_tick: 8, branch_clock_tick: 8, function: VoidOp::ResetBit(2, Loc8::E) }),
        0x94 => GenericInstruction::Void(Instruction { opcode: 0x94, disassembly: "RES 2, H", byte_size: 2, clock_tick: 8, branch_clock_tick: 8, function: VoidOp::ResetBit(2, Loc8::H) }),
        0x95 => GenericInstruction::Void(Instruction { opcode: 0x95, disassembly: "RES 2, L", byte_size: 2, clock_tick: 8, branch_clock_tick: 8, function: VoidOp::ResetBit(2, Loc8::L) }),
        0x96 => GenericInstruction::Void(Instruction { opcode: 0x96, disassembly: "RES 2, (HL)", byte_size: 2, clock_tick: 16, branch_clock_tick: 16, function: VoidOp::ResetBit(2, Loc8::HlAddr) }),
        0x97 => GenericInstruction::Void(Instruction { opcode: 0x97, disassembly: "RES 2, A", byte_size: 2, clock_tick: 8, branch_clock_tick: 8, function: VoidOp::ResetBit(2, Loc8::A) }),
        0x98 => GenericInstruction::Void(Instruction { opcode: 0x98, disassembly: "RES 3, B", byte_size: 2, clock_tick: 8, branch_clock_tick: 8, function: VoidOp::ResetBit(3, Loc8::B) }),
        0x99 => GenericInstruction::Void(Instruction { opcode: 0x99, disassembly: "RES 3, C", byte_size: 2, clock_tick: 8, branch_clock_tick: 8, function: VoidOp::ResetBit(3, Loc8::C) }),
        0x9A => GenericInstruction::Void(Instruction { opcode: 0x9A, disassembly: "RES 3, D", byte_size: 2, clock_tick: 8, branch_clock_tick: 8, function: VoidOp::ResetBit(3, Loc8::D) }),
        0x9B => GenericInstruction::Void(Instruction { opcode: 0x9B, disassembly: "RES 3, E", byte_size: 2, clock_tick: 8, branch_clock_tick: 8, function: VoidOp::ResetBit(3, Loc8::E) }),
        0x9C => GenericInstruction::Void(Instruction { opcode: 0x9C, disassembly: "RES 3, H", byte_size: 2, clock_tick: 8, branch_clock_tick: 8, function: VoidOp::ResetBit(3, Loc8::H) }),
        0x9D => GenericInstruction::Void(Instruction { opcode: 0x9D, disassembly: "RES 3, L", byte_size: 2, clock_tick: 8, branch_clock_tick: 8, function: VoidOp::ResetBit(3, Loc8::L) }),
        0x9E => GenericInstruction::Void(Instruction { opcode: 0x9E, disassembly: "RES 3, (HL)", byte_size: 2, clock_tick: 16, branch_clock_tick: 16, function: VoidOp::ResetBit(3, Loc8::HlAddr) }),
        0x9F => GenericInstruction::Void(Instruction { opcode: 0x9F, disassembly: "RES 3, A", byte_size: 2, clock_tick: 8, branch_clock_tick: 8, function: VoidOp::ResetBit(3, Loc8::A) }),
        0xA0 => GenericInstruction::Void(Instruction { opcode: 0xA0, disassembly: "RES 4, B", byte_size: 2, clock_tick: 8, branch_clock_tick: 8, function: VoidOp::ResetBit(4, Loc8::B) }),
        0xA1 => GenericInstruction::Void(Instruction { opcode: 0xA1, disassembly: "RES 4, C", byte_size: 2, clock_tick: 8, branch_clock_tick: 8, function: VoidOp::ResetBit(4, Loc8::C) }),
        0xA2 => GenericInstruction::Void(Instruction { opcode: 0xA2, disassembly: "RES 4, D", byte_size: 2, clock_tick: 8, branch_clock_tick: 8, function: VoidOp::ResetBit(4, Loc8::D) }),
        0xA3 => GenericInstruction::Void(Instruction { opcode: 0xA3, disassembly: "RES 4, E", byte_size: 2, clock_tick: 8, branch_clock_tick: 8, function: VoidOp::ResetBit(4, Loc8::E) }),
        0xA4 => GenericInstruction::Void(Instruction { opcode: 0xA4, disassembly: "RES 4, H", byte_size: 2, clock_tick: 8, branch_clock_tick: 8, function: VoidOp::ResetBit(4, Loc8::H) }),
        0xA5 => GenericInstruction::Void(Instruction { opcode: 0xA5, disassembly: "RES 4, L", byte_size: 2, clock_tick: 8, branch_clock_tick: 8, function: VoidOp::ResetBit(4, Loc8::L) }),
        0xA6 => GenericInstruction::Void(Instruction { opcode: 0xA6, disassembly: "RES 4, (HL)", byte_size: 2, clock_tick: 16, branch_clock_tick: 16, function: VoidOp::ResetBit(4, Loc8::HlAddr) }),
        0xA7 => GenericInstruction::Void(Instruction { opcode: 0xA7, disassembly: "RES 4, A", byte_size: 2, clock_tick: 8, branch_clock_tick: 8, function: VoidOp::ResetBit(4, Loc8::A) }),
        0xA8 => GenericInstruction::Void(Instruction { opcode: 0xA8, disassembly: "RES 5, B", byte_size: 2, clock_tick: 8, branch_clock_tick: 8, function: VoidOp::ResetBit(5, Loc8::B) }),
        0xA9 => GenericInstruction::Void(Instruction { opcode: 0xA9, disassembly: "RES 5, C", byte_size: 2, clock_tick: 8, branch_clock_tick: 8, function: VoidOp::ResetBit(5, Loc8::C) }),
        0xAA => GenericInstruction::Void(Instruction { opcode: 0xAA, disassembly: "RES 5, D", byte_size: 2, clock_tick: 8, branch_clock_tick: 8, function: VoidOp::ResetBit(5, Loc8::D) }),
        0xAB => GenericInstruction::Void(Instruction { opcode: 0xAB, disassembly: "RES 5, E", byte_size: 2, clock_tick: 8, branch_clock_tick: 8, function: VoidOp::ResetBit(5, Loc8::E) }),
        0xAC => GenericInstruction::Void(Instruction { opcode: 0xAC, disassembly: "RES 5, H", byte_size: 2, clock_tick: 8, branch_clock_tick: 8, function: VoidOp::ResetBit(5, Loc8::H) }),
        0xAD => GenericInstruction::Void(Instruction { opcode: 0xAD, disassembly: "RES 5, L", byte_size: 2, clock_tick: 8, branch_clock_tick: 8, function: VoidOp::ResetBit(5, Loc8::L) }),
        0xAE => GenericInstruction::Void(Instruction { opcode: 0xAE, disassembly: "RES 5, (HL)", byte_size: 2, clock_tick: 16, branch_clock_tick: 16, function: VoidOp::ResetBit(5, Loc8::HlAddr) }),
        0xAF => GenericInstruction::Void(Instruction { opcode: 0xAF, disassembly: "RES 5, A", byte_size: 2, clock_tick: 8, branch_clock_tick: 8, function: VoidOp::ResetBit(5, Loc8::A) }),
        0xB0 => GenericInstruction::Void(Instruction { opcode: 0xB0, disassembly: "RES 6, B", byte_size: 2, clock_tick: 8, branch_clock_tick: 8, function: VoidOp::ResetBit(6, Loc8::B) }),
        0xB1 => GenericInstruction::Void(Instruction { opcode: 0xB1, disassembly: "RES 6, C", byte_size: 2, clock_tick: 8, branch_clock_tick: 8, function: VoidOp::ResetBit(6, Loc8::C) }),
        0xB2 => GenericInstruction::Void(Instruction { opcode: 0xB2, disassembly: "RES 6, D", byte_size: 2, clock_tick: 8, branch_clock_tick: 8, function: VoidOp::ResetBit(6, Loc8::D) }),
        0xB3 => GenericInstruction::Void(Instruction { opcode: 0xB3, disassembly: "RES 6, E", byte_size: 2, clock_tick: 8, branch_clock_tick: 8, function: VoidOp::ResetBit(6, Loc8::E) }),
        0xB4 => GenericInstruction::Void(Instruction { opcode: 0xB4, disassembly: "RES 6, H", byte_size: 2, clock_tick: 8, branch_clock_tick: 8, function: VoidOp::ResetBit(6, Loc8::H) }),
        0xB5 => GenericInstruction::Void(Instruction { opcode: 0xB5, disassembly: "RES 6, L", byte_size: 2, clock_tick: 8, branch_clock_tick: 8, function: VoidOp::ResetBit(6, Loc8::L) }),
        0xB6 => GenericInstruction::Void(Instruction { opcode: 0xB6, disassembly: "RES 6, (HL)", byte_size: 2, clock_tick: 16, branch_clock_tick: 16, function: VoidOp::ResetBit(6, Loc8::HlAddr) }),
        0xB7 => GenericInstruction::Void(Instruction { opcode: 0xB7, disassembly: "RES 6, A", byte_size: 2, clock_tick: 8, branch_clock_tick: 8, function: VoidOp::ResetBit(6, Loc8::A) }),
        0xB8 => GenericInstruction::Void(Instruction { opcode: 0xB8, disassembly: "RES 7, B", byte_size: 2, clock_tick: 8, branch_clock_tick: 8, function: VoidOp::ResetBit(7, Loc8::B) }),
        0xB9 => GenericInstruction::Void(Instruction { opcode: 0xB9, disassembly: "RES 7, C", byte_size: 2, clock_tick: 8, branch_clock_tick: 8, function: VoidOp::ResetBit(7, Loc8::C) }),
        0xBA => GenericInstruction::Void(Instruction { opcode: 0xBA, disassembly: "RES 7, D", byte_size: 2, clock_tick: 8, branch_clock_tick: 8, function: VoidOp::ResetBit(7, Loc8::D) }),
        0xBB => GenericInstruction::Void(Instruction { opcode: 0xBB, disassembly: "RES 7, E", byte_size: 2, clock_tick: 8, branch_clock_tick: 8, function: VoidOp::ResetBit(7, Loc8::E) }),
        0xBC => GenericInstruction::Void(Instruction { opcode: 0xBC, disassembly: "RES 7, H", byte_size: 2, clock_tick: 8, branch_clock_tick: 8, function: VoidOp::ResetBit(7, Loc8::H) }),
        0xBD => GenericInstruction::Void(Instruction { opcode: 0xBD, disassembly: "RES 7, L", byte_size: 2, clock_tick: 8, branch_clock_tick: 8, function: VoidOp::ResetBit(7, Loc8::L) }),
        0xBE => GenericInstruction::Void(Instruction { opcode: 0xBE, disassembly: "RES 7, (HL)", byte_size: 2, clock_tick: 16, branch_clock_tick: 16, function: VoidOp::ResetBit(7, Loc8::HlAddr) }),
        0xBF => GenericInstruction::Void(Instruction { opcode: 0xBF, disassembly: "RES 7, A", byte_size: 2, clock_tick: 8, branch_clock_tick: 8, function: VoidOp::ResetBit(7, Loc8::A) }),
        0xC0 => GenericInstruction::Void(Instruction { opcode: 0xC0, disassembly: "SET 0, B", byte_size: 2, clock_tick: 8, branch_clock_tick: 8, function: VoidOp::SetBit(0, Loc8::B) }),
        0xC1 => GenericInstruction::Void(Instruction { opcode: 0xC1, disassembly: "SET 0, C", byte_size: 2, clock_tick: 8, branch_clock_tick: 8, function: VoidOp::SetBit(0, Loc8::C) }),
        0xC2 => GenericInstruction::Void(Instruction { opcode: 0xC2, disassembly: "SET 0, D", byte_size: 2, clock_tick: 8, branch_clock_tick: 8, function: VoidOp::SetBit(0, Loc8::D) }),
        0xC3 => GenericInstruction::Void(Instruction { opcode: 0xC3, disassembly: "SET 0, E", byte_size: 2, clock_tick: 8, branch_clock_tick: 8, function: VoidOp::SetBit(0, Loc8::E) }),
        0xC4 => GenericInstruction::Void(Instruction { opcode: 0xC4, disassembly: "SET 0, H", byte_size: 2, clock_tick: 8, branch_clock_tick: 8, function: VoidOp::SetBit(0, Loc8::H) }),
        0xC5 => GenericInstruction::Void(Instruction { opcode: 0xC5, disassembly: "SET 0, L", byte_size: 2, clock_tick: 8, branch_clock_tick: 8, function: VoidOp::SetBit(0, Loc8::L) }),
        0xC6 => GenericInstruction::Void(Instruction { opcode: 0xC6, disassembly: "SET 0, (HL)", byte_size: 2, clock_tick: 16, branch_clock_tick: 16, function: VoidOp::SetBit(0, Loc8::HlAddr) }),
        0xC7 => GenericInstruction::Void(Instruction { opcode: 0xC7, disassembly: "SET 0, A", byte_size: 2, clock_tick: 8, branch_clock_tick: 8, function: VoidOp::SetBit(0, Loc8::A) }),
        0xC8 => GenericInstruction::Void(Instruction { opcode: 0xC8, disassembly: "SET 1, B", byte_size: 2, clock_tick: 8, branch_clock_tick: 8, function: VoidOp::SetBit(1, Loc8::B) }),
        0xC9 => GenericInstruction::Void(Instruction { opcode: 0xC9, disassembly: "SET 1, C", byte_size: 2, clock_tick: 8, branch_clock_tick: 8, function: VoidOp::SetBit(1, Loc8::C) }),
        0xCA => GenericInstruction::Void(Instruction { opcode: 0xCA, disassembly: "SET 1, D", byte_size: 2, clock_tick: 8, branch_clock_tick: 8, function: VoidOp::SetBit(1, Loc8::D) }),
        0xCB => GenericInstruction::Void(Instruction { opcode: 0xCB, disassembly: "SET 1, E", byte_size: 2, clock_tick: 8, branch_clock_tick: 8, function: VoidOp::SetBit(1, Loc8::E) }),
        0xCC => GenericInstruction::Void(Instruction { opcode: 0xCC, disassembly: "SET 1, H", byte_size: 2, clock_tick: 8, branch_clock_tick: 8, function: VoidOp::SetBit(1, Loc8::H) }),
        0xCD => GenericInstruction::Void(Instruction { opcode: 0xCD, disassembly: "SET 1, L", byte_size: 2, clock_tick: 8, branch_clock_tick: 8, function: VoidOp::SetBit(1, Loc8::L) }),
        0xCE => GenericInstruction::Void(Instruction { opcode: 0xCE, disassembly: "SET 1, (HL)", byte_size: 2, clock_tick: 16, branch_clock_tick: 16, function: VoidOp::SetBit(1, Loc8::HlAddr) }),
        0xCF => GenericInstruction::Void(Instruction { opcode: 0xCF, disassembly: "SET 1, A", byte_size: 2, clock_tick: 8, branch_clock_tick: 8, function: VoidOp::SetBit(1, Loc8::A) }),
        0xD0 => GenericInstruction::Void(Instruction { opcode: 0xD0, disassembly: "SET 2, B", byte_size: 2, clock_tick: 8, branch_clock_tick: 8, function: VoidOp::SetBit(2, Loc8::B) }),
        0xD1 => GenericInstruction::Void(Instruction { opcode: 0xD1, disassembly: "SET 2, C", byte_size: 2, clock_tick: 8, branch_clock_tick: 8, function: VoidOp::SetBit(2, Loc8::C) }),
        0xD2 => GenericInstruction::Void(Instruction { opcode: 0xD2, disassembly: "SET 2, D", byte_size: 2, clock_tick: 8, branch_clock_tick: 8, function: VoidOp::SetBit(2, Loc8::D) }),
        0xD3 => GenericInstruction::Void(Instruction { opcode: 0xD3, disassembly: "SET 2, E", byte_size: 2, clock_tick: 8, branch_clock_tick: 8, function: VoidOp::SetBit(2, Loc8::E) }),
        0xD4 => GenericInstruction::Void(Instruction { opcode: 0xD4, disassembly: "SET 2, H", byte_size: 2, clock_tick: 8, branch_clock_tick: 8, function: VoidOp::SetBit(2, Loc8::H) }),
        0xD5 => GenericInstruction::Void(Instruction { opcode: 0xD5, disassembly: "SET 2, L", byte_size: 2, clock_tick: 8, branch_clock_tick: 8, function: VoidOp::SetBit(2, Loc8::L) }),
        0xD6 => GenericInstruction::Void(Instruction { opcode: 0xD6, disassembly: "SET 2, (HL)", byte_size: 2, clock_tick: 16, branch_clock_tick: 16, function: VoidOp::SetBit(2, Loc8::HlAddr) }),
        0xD7 => GenericInstruction::Void(Instruction { opcode: 0xD7, disassembly: "SET 2, A", byte_size: 2, clock_tick: 8, branch_clock_tick: 8, function: VoidOp::SetBit(2, Loc8::A) }),
        0xD8 => GenericInstruction::Void(Instruction { opcode: 0xD8, disassembly: "SET 3, B", byte_size: 2, clock_tick: 8, branch_clock_tick: 8, function: VoidOp::SetBit(3, Loc8::B) }),
        0xD9 => GenericInstruction::Void(Instruction { opcode: 0xD9, disassembly: "SET 3, C", byte_size: 2, clock_tick: 8, branch_clock_tick: 8, function: VoidOp::SetBit(3, Loc8::C) }),
        0xDA => GenericInstruction::Void(Instruction { opcode: 0xDA, disassembly: "SET 3, D", byte_size: 2, clock_tick: 8, branch_clock_tick: 8, function: VoidOp::SetBit(3, Loc8::D) }),
        0xDB => GenericInstruction::Void(Instruction { opcode: 0xDB, disassembly: "SET 3, E", byte_size: 2, clock_tick: 8, branch_clock_tick: 8, function: VoidOp::SetBit(3, Loc8::E) }),
        0xDC => GenericInstruction::Void(Instruction { opcode: 0xDC, disassembly: "SET 3, H", byte_size: 2, clock_tick: 8, branch_clock_tick: 8, function: VoidOp::SetBit(3, Loc8::H) }),
        0xDD => GenericInstruction::Void(Instruction { opcode: 0xDD, disassembly: "SET 3, L", byte_size: 2, clock_tick: 8, branch_clock_tick: 8, function: VoidOp::SetBit(3, Loc8::L) }),
        0xDE => GenericInstruction::Void(Instruction { opcode: 0xDE, disassembly: "SET 3, (HL)", byte_size: 2, clock_tick: 16, branch_clock_tick: 16, function: VoidOp::SetBit(3, Loc8::HlAddr) }),
        0xDF => GenericInstruction::Void(Instruction { opcode: 0xDF, disassembly: "SET 3, A", byte_size: 2, clock_tick: 8, branch_clock_tick: 8, function: VoidOp::SetBit(3, Loc8::A) }),
        0xE0 => GenericInstruction::Void(Instruction { opcode: 0xE0, disassembly: "SET 4, B", byte_size: 2, clock_tick: 8, branch_clock_tick: 8, function: VoidOp::SetBit(4, Loc8::B) }),
        0xE1 => GenericInstruction::Void(Instruction { opcode: 0xE1, disassembly: "SET 4, C", byte_size: 2, clock_tick: 8, branch_clock_tick: 8, function: VoidOp::SetBit(4, Loc8::C) }),
        0xE2 => GenericInstruction::Void(Instruction { opcode: 0xE2, disassembly: "SET 4, D", byte_size: 2, clock_tick: 8, branch_clock_tick: 8, function: VoidOp::SetBit(4, Loc8::D) }),
        0xE3 => GenericInstruction::Void(Instruction { opcode: 0xE3, disassembly: "SET 4, E", byte_size: 2, clock_tick: 8, branch_clock_tick: 8, function: VoidOp::SetBit(4, Loc8::E) }),
        0xE4 => GenericInstruction::Void(Instruction { opcode: 0xE4, disassembly: "SET 4, H", byte_size: 2, clock_tick: 8, branch_clock_tick: 8, function: VoidOp::SetBit(4, Loc8::H) }),
        0xE5 => GenericInstruction::Void(Instruction { opcode: 0xE5, disassembly: "SET 4, L", byte_size: 2, clock_tick: 8, branch_clock_tick: 8, function: VoidOp::SetBit(4, Loc8::L) }),
        0xE6 => GenericInstruction::Void(Instruction { opcode: 0xE6, disassembly: "SET 4, (HL)", byte_size: 2, clock_tick: 16, branch_clock_tick: 16, function: VoidOp::SetBit(4, Loc8::HlAddr) }),
        0xE7 => GenericInstruction::Void(Instruction { opcode: 0xE7, disassembly: "SET 4, A", byte_size: 2, clock_tick: 8, branch_clock_tick: 8, function: VoidOp::SetBit(4, Loc8::A) }),
        0xE8 => GenericInstruction::Void(Instruction { opcode: 0xE8, disassembly: "SET 5, B", byte_size: 2, clock_tick: 8, branch_clock_tick: 8, function: VoidOp::SetBit(5, Loc8::B) }),
        0xE9 => GenericInstruction::Void(Instruction { opcode: 0xE9, disassembly: "SET 5, C", byte_size: 2, clock_tick: 8, branch_clock_tick: 8, function: VoidOp::SetBit(5, Loc8::C) }),
        0xEA => GenericInstruction::Void(Instruction { opcode: 0xEA, disassembly: "SET 5, D", byte_size: 2, clock_tick: 8, branch_clock_tick: 8, function: VoidOp::SetBit(5, Loc8::D) }),
        0xEB => GenericInstruction::Void(Instruction { opcode: 0xEB, disassembly: "SET 5, E", byte_size: 2, clock_tick: 8, branch_clock_tick: 8, function: VoidOp::SetBit(5, Loc8::E) }),
        0xEC => GenericInstruction::Void(Instruction { opcode: 0xEC, disassembly: "SET 5, H", byte_size: 2, clock_tick: 8, branch_clock_tick: 8, function: VoidOp::SetBit(5, Loc8::H) }),
        0xED => GenericInstruction::Void(Instruction { opcode: 0xED, disassembly: "SET 5, L", byte_size: 2, clock_tick: 8, branch_clock_tick: 8, function: VoidOp::SetBit(5, Loc8::L) }),
        0xEE => GenericInstruction::Void(Instruction { opcode: 0xEE, disassembly: "SET 5, (HL)", byte_size: 2, clock_tick: 16, branch_clock_tick: 16, function: VoidOp::SetBit(5, Loc8::HlAddr) }),
        0xEF => GenericInstruction::Void(Instruction { opcode: 0xEF, disassembly: "SET 5, A", byte_size: 2, clock_tick: 8, branch_clock_tick: 8, function: VoidOp::SetBit(5, Loc8::A) }),
        0xF0 => GenericInstruction::Void(Instruction { opcode: 0xF0, disassembly: "SET 6, B", byte_size: 2, clock_tick: 8, branch_clock_tick: 8, function: VoidOp::SetBit(6, Loc8::B) }),
        0xF1 => GenericInstruction::Void(Instruction { opcode: 0xF1, disassembly: "SET 6, C", byte_size: 2, clock_tick: 8, branch_clock_tick: 8, function: VoidOp::SetBit(6, Loc8::C) }),
        0xF2 => GenericInstruction::Void(Instruction { opcode: 0xF2, disassembly: "SET 6, D", byte_size: 2, clock_tick: 8, branch_clock_tick: 8, function: VoidOp::SetBit(6, Loc8::D) }),
        0xF3 => GenericInstruction::Void(Instruction { opcode: 0xF3, disassembly: "SET 6, E", byte_size: 2, clock_tick: 8, branch_clock_tick: 8, function: VoidOp::SetBit(6, Loc8::E) }),
        0xF4 => GenericInstruction::Void(Instruction { opcode: 0xF4, disassembly: "SET 6, H", byte_size: 2, clock_tick: 8, branch_clock_tick: 8, function: VoidOp::SetBit(6, Loc8::H) }),
        0xF5 => GenericInstruction::Void(Instruction { opcode: 0xF5, disassembly: "SET 6, L", byte_size: 2, clock_tick: 8, branch_clock_tick: 8, function: VoidOp::SetBit(6, Loc8::L) }),
        0xF6 => GenericInstruction::Void(Instruction { opcode: 0xF6, disassembly: "SET 6, (HL)", byte_size: 2, clock_tick: 16, branch_clock_tick: 16, function: VoidOp::SetBit(6, Loc8::HlAddr) }),
        0xF7 => GenericInstruction::Void(Instruction { opcode: 0xF7, disassembly: "SET 6, A", byte_size: 2, clock_tick: 8, branch_clock_tick: 8, function: VoidOp::SetBit(6, Loc8::A) }),
        0xF8 => GenericInstruction::Void(Instruction { opcode: 0xF8, disassembly: "SET 7, B", byte_size: 2, clock_tick: 8, branch_clock_tick: 8, function: VoidOp::SetBit(7, Loc8::B) }),
        0xF9 => GenericInstruction::Void(Instruction { opcode: 0xF9, disassembly: "SET 7, C", byte_size: 2, clock_tick: 8, branch_clock_tick: 8, function: VoidOp::SetBit(7, Loc8::C) }),
        0xFA => GenericInstruction::Void(Instruction { opcode: 0xFA, disassembly: "SET 7, D", byte_size: 2, clock_tick: 8, branch_clock_tick: 8, function: VoidOp::SetBit(7, Loc8::D) }),
        0xFB => GenericInstruction::Void(Instruction { opcode: 0xFB, disassembly: "SET 7, E", byte_size: 2, clock_tick: 8, branch_clock_tick: 8, function: VoidOp::SetBit(7, Loc8::E) }),
        0xFC => GenericInstruction::Void(Instruction { opcode: 0xFC, disassembly: "SET 7, H", byte_size: 2, clock_tick: 8, branch_clock_tick: 8, function: VoidOp::SetBit(7, Loc8::H) }),
        0xFD => GenericInstruction::Void(Instruction { opcode: 0xFD, disassembly: "SET 7, L", byte_size: 2, clock_tick: 8, branch_clock_tick: 8, function: VoidOp::SetBit(7, Loc8::L) }),
        0xFE => GenericInstruction::Void(Instruction { opcode: 0xFE, disassembly: "SET 7, (HL)", byte_size: 2, clock_tick: 16, branch_clock_tick: 16, function: VoidOp::SetBit(7, Loc8::HlAddr) }),
        0xFF => GenericInstruction::Void(Instruction { opcode: 0xFF, disassembly: "SET 7, A", byte_size: 2, clock_tick: 8, branch_clock_tick: 8, function: VoidOp::SetBit(7, Loc8::A) }),
    }
}

/// Looks an opcode up in the primary table.
pub fn primary_entry(opcode: OpCode) -> (r: GenericInstruction)
    ensures
        r == primary_instruction(opcode),
{
    proof {
        reveal(primary_instruction);
    }
    match opcode {
        0x00 => GenericInstruction::Void(Instruction { opcode: 0x00, disassembly: "NOP", byte_size: 1, clock_tick: 4, branch_clock_tick: 4, function: VoidOp::Nop }),
        0x01 => GenericInstruction::Wide(Instruction { opcode: 0x01, disassembly: "LD BC, d16", byte_size: 3, clock_tick: 12, branch_clock_tick: 12, function: WideOp::Ld(Reg16::BC) }),
        0x02 => GenericInstruction::Void(Instruction { opcode: 0x02, disassembly: "LD (BC), A", byte_size: 1, clock_tick: 8, branch_clock_tick: 8, function: VoidOp::LdIndirectA(Indirect::Bc) }),
        0x03 => GenericInstruction::Void(Instruction { opcode: 0x03, disassembly: "INC BC", byte_size: 1, clock_tick: 8, branch_clock_tick: 8, function: VoidOp::IncWide(Reg16::BC) }),
        0x04 => GenericInstruction::Void(Instruction { opcode: 0x04, disassembly: "INC B", byte_size: 1, clock_tick: 4, branch_clock_tick: 4, function: VoidOp::Inc(Loc8::B) }),
        0x05 => GenericInstruction::Void(Instruction { opcode: 0x05, disassembly: "DEC B", byte_size: 1, clock_tick: 4, branch_clock_tick: 4, function: VoidOp::Dec(Loc8::B) }),
        0x06 => GenericInstruction::Value(Instruction { opcode: 0x06, disassembly: "LD B, d8", byte_size: 2, clock_tick: 8, branch_clock_tick: 8, function: ValueOp::Ld(Loc8::B) }),
        0x07 => GenericInstruction::Void(Instruction { opcode: 0x07, disassembly: "RLCA", byte_size: 1, clock_tick: 4, branch_clock_tick: 4, function: VoidOp::ShiftA(Shift::Rlc) }),
        0x08 => GenericInstruction::Far(Instruction { opcode: 0x08, disassembly: "LD (a16), SP", byte_size: 3, clock_tick: 20, branch_clock_tick: 20, function: FarOp::LdFromSp }),
        0x09 => GenericInstruction::Void(Instruction { opcode: 0x09, disassembly: "ADD HL, BC", byte_size: 1, clock_tick: 8, branch_clock_tick: 8, function: VoidOp::AddHl(Reg16::BC) }),
        0x0A => GenericInstruction::Void(Instruction { opcode: 0x0A, disassembly: "LD A, (BC)", byte_size: 1, clock_tick: 8, branch_clock_tick: 8, function: VoidOp::LdAIndirect(Indirect::Bc) }),
        0x0B => GenericInstruction::Void(Instruction { opcode: 0x0B, disassembly: "DEC BC", byte_size: 1, clock_tick: 8, branch_clock_tick: 8, function: VoidOp::DecWide(Reg16::BC) }),
        0x0C => GenericInstruction::Void(Instruction { opcode: 0x0C, disassembly: "INC C", byte_size: 1, clock_tick: 4, branch_clock_tick: 4, function: VoidOp::Inc(Loc8::C) }),
        0x0D => GenericInstruction::Void(Instruction { opcode: 0x0D, disassembly: "DEC C", byte_size: 1, clock_tick: 4, branch_clock_tick: 4, function: VoidOp::Dec(Loc8::C) }),
        0x0E => GenericInstruction::Value(Instruction { opcode: 0x0E, disassembly: "LD C, d8", byte_size: 2, clock_tick: 8, branch_clock_tick: 8, function: ValueOp::Ld(Loc8::C) }),
        0x0F => GenericInstruction::Void(Instruction { opcode: 0x0F, disassembly: "RRCA", byte_size: 1, clock_tick: 4, branch_clock_tick: 4, function: VoidOp::ShiftA(Shift::Rrc) }),
        0x10 => GenericInstruction::Value(Instruction { opcode: 0x10, disassembly: "STOP d8", byte_size: 2, clock_tick: 4, branch_clock_tick: 4, function: ValueOp::Unimplemented }),
        0x11 => GenericInstruction::Wide(Instruction { opcode: 0x11, disassembly: "LD DE, d16", byte_size: 3, clock_tick: 12, branch_clock_tick: 12, function: WideOp::Ld(Reg16::DE) }),
        0x12 => GenericInstruction::Void(Instruction { opcode: 0x12, disassembly: "LD (DE), A", byte_size: 1, clock_tick: 8, branch_clock_tick: 8, function: VoidOp::LdIndirectA(Indirect::De) }),
        0x13 => GenericInstruction::Void(Instruction { opcode: 0x13, disassembly: "INC DE", byte_size: 1, clock_tick: 8, branch_clock_tick: 8, function: VoidOp::IncWide(Reg16::DE) }),
        0x14 => GenericInstruction::Void(Instruction { opcode: 0x14, disassembly: "INC D", byte_size: 1, clock_tick: 4, branch_clock_tick: 4, function: VoidOp::Inc(Loc8::D) }),
        0x15 => GenericInstruction::Void(Instruction { opcode: 0x15, disassembly: "DEC D", byte_size: 1, clock_tick: 4, branch_clock_tick: 4, function: VoidOp::Dec(Loc8::D) }),
        0x16 => GenericInstruction::Value(Instruction { opcode: 0x16, disassembly: "LD D, d8", byte_size: 2, clock_tick: 8, branch_clock_tick: 8, function: ValueOp::Ld(Loc8::D) }),
        0x17 => GenericInstruction::Void(Instruction { opcode: 0x17, disassembly: "RLA", byte_size: 1, clock_tick: 4, branch_clock_tick: 4, function: VoidOp::ShiftA(Shift::Rl) }),
        0x18 => GenericInstruction::Offset(Instruction { opcode: 0x18, disassembly: "JR r8", byte_size: 2, clock_tick: 12, branch_clock_tick: 12, function: OffsetOp::Jr(Condition::Always) }),
        0x19 => GenericInstruction::Void(Instruction { opcode: 0x19, disassembly: "ADD HL, DE", byte_size: 1, clock_tick: 8, branch_clock_tick: 8, function: VoidOp::AddHl(Reg16::DE) }),
        0x1A => GenericInstruction::Void(Instruction { opcode: 0x1A, disassembly: "LD A, (DE)", byte_size: 1, clock_tick: 8, branch_clock_tick: 8, function: VoidOp::LdAIndirect(Indirect::De) }),
        0x1B => GenericInstruction::Void(Instruction { opcode: 0x1B, disassembly: "DEC DE", byte_size: 1, clock_tick: 8, branch_clock_tick: 8, function: VoidOp::DecWide(Reg16::DE) }),
        0x1C => GenericInstruction::Void(Instruction { opcode: 0x1C, disassembly: "INC E", byte_size: 1, clock_tick: 4, branch_clock_tick: 4, function: VoidOp::Inc(Loc8::E) }),
        0x1D => GenericInstruction::Void(Instruction { opcode: 0x1D, disassembly: "DEC E", byte_size: 1, clock_tick: 4, branch_clock_tick: 4, function: VoidOp::Dec(Loc8::E) }),
        0x1E => GenericInstruction::Value(Instruction { opcode: 0x1E, disassembly: "LD E, d8", byte_size: 2, clock_tick: 8, branch_clock_tick: 8, function: ValueOp::Ld(Loc8::E) }),
        0x1F => GenericInstruction::Void(Instruction { opcode: 0x1F, disassembly: "RRA", byte_size: 1, clock_tick: 4, branch_clock_tick: 4, function: VoidOp::ShiftA(Shift::Rr) }),
        0x20 => GenericInstruction::Offset(Instruction { opcode: 0x20, disassembly: "JR NZ, r8", byte_size: 2, clock_tick: 8, branch_clock_tick: 12, function: OffsetOp::Jr(Condition::NotZero) }),
        0x21 => GenericInstruction::Wide(Instruction { opcode: 0x21, disassembly: "LD HL, d16", byte_size: 3, clock_tick: 12, branch_clock_tick: 12, function: WideOp::Ld(Reg16::HL) }),
        0x22 => GenericInstruction::Void(Instruction { opcode: 0x22, disassembly: "LD (HL+), A", byte_size: 1, clock_tick: 8, branch_clock_tick: 8, function: VoidOp::LdIndirectA(Indirect::HlIncrement) }),
        0x23 => GenericInstruction::Void(Instruction { opcode: 0x23, disassembly: "INC HL", byte_size: 1, clock_tick: 8, branch_clock_tick: 8, function: VoidOp::IncWide(Reg16::HL) }),
        0x24 => GenericInstruction::Void(Instruction { opcode: 0x24, disassembly: "INC H", byte_size: 1, clock_tick: 4, branch_clock_tick: 4, function: VoidOp::Inc(Loc8::H) }),
        0x25 => GenericInstruction::Void(Instruction { opcode: 0x25, disassembly: "DEC H", byte_size: 1, clock_tick: 4, branch_clock_tick: 4, function: VoidOp::Dec(Loc8::H) }),
        0x26 => GenericInstruction::Value(Instruction { opcode: 0x26, disassembly: "LD H, d8", byte_size: 2, clock_tick: 8, branch_clock_tick: 8, function: ValueOp::Ld(Loc8::H) }),
        0x27 => GenericInstruction::Void(Instruction { opcode: 0x27, disassembly: "DAA", byte_size: 1, clock_tick: 4, branch_clock_tick: 4, function: VoidOp::Daa }),
        0x28 => GenericInstruction::Offset(Instruction { opcode: 0x28, disassembly: "JR Z, r8", byte_size: 2, clock_tick: 8, branch_clock_tick: 12, function: OffsetOp::Jr(Condition::Zero) }),
        0x29 => GenericInstruction::Void(Instruction { opcode: 0x29, disassembly: "ADD HL, HL", byte_size: 1, clock_tick: 8, branch_clock_tick: 8, function: VoidOp::AddHl(Reg16::HL) }),
        0x2A => GenericInstruction::Void(Instruction { opcode: 0x2A, disassembly: "LD A, (HL+)", byte_size: 1, clock_tick: 8, branch_clock_tick: 8, function: VoidOp::LdAIndirect(Indirect::HlIncrement) }),
        0x2B => GenericInstruction::Void(Instruction { opcode: 0x2B, disassembly: "DEC HL", byte_size: 1, clock_tick: 8, branch_clock_tick: 8, function: VoidOp::DecWide(Reg16::HL) }),
        0x2C => GenericInstruction::Void(Instruction { opcode: 0x2C, disassembly: "INC L", byte_size: 1, clock_tick: 4, branch_clock_tick: 4, function: VoidOp::Inc(Loc8::L) }),
        0x2D => GenericInstruction::Void(Instruction { opcode: 0x2D, disassembly: "DEC L", byte_size: 1, clock_tick: 4, branch_clock_tick: 4, function: VoidOp::Dec(Loc8::L) }),
        0x2E => GenericInstruction::Value(Instruction { opcode: 0x2E, disassembly: "LD L, d8", byte_size: 2, clock_tick: 8, branch_clock_tick: 8, function: ValueOp::Ld(Loc8::L) }),
        0x2F => GenericInstruction::Void(Instruction { opcode: 0x2F, disassembly: "CPL", byte_size: 1, clock_tick: 4, branch_clock_tick: 4, function: VoidOp::Cpl }),
        0x30 => GenericInstruction::Offset(Instruction { opcode: 0x30, disassembly: "JR NC, r8", byte_size: 2, clock_tick: 8, branch_clock_tick: 12, function: OffsetOp::Jr(Condition::NotCarry) }),
        0x31 => GenericInstruction::Wide(Instruction { opcode: 0x31, disassembly: "LD SP, d16", byte_size: 3, clock_tick: 12, branch_clock_tick: 12, function: WideOp::Ld(Reg16::SP) }),
        0x32 => GenericInstruction::Void(Instruction { opcode: 0x32, disassembly: "LD (HL-), A", byte_size: 1, clock_tick: 8, branch_clock_tick: 8, function: VoidOp::LdIndirectA(Indirect::HlDecrement) }),
        0x33 => GenericInstruction::Void(Instruction { opcode: 0x33, disassembly: "INC SP", byte_size: 1, clock_tick: 8, branch_clock_tick: 8, function: VoidOp::IncWide(Reg16::SP) }),
        0x34 => GenericInstruction::Void(Instruction { opcode: 0x34, disassembly: "INC (HL)", byte_size: 1, clock_tick: 12, branch_clock_tick: 12, function: VoidOp::Inc(Loc8::HlAddr) }),
        0x35 => GenericInstruction::Void(Instruction { opcode: 0x35, disassembly: "DEC (HL)", byte_size: 1, clock_tick: 12, branch_clock_tick: 12, function: VoidOp::Dec(Loc8::HlAddr) }),
        0x36 => GenericInstruction::Value(Instruction { opcode: 0x36, disassembly: "LD (HL), d8", byte_size: 2, clock_tick: 12, branch_clock_tick: 12, function: ValueOp::Ld(Loc8::HlAddr) }),
        0x37 => GenericInstruction::Void(Instruction { opcode: 0x37, disassembly: "SCF", byte_size: 1, clock_tick: 4, branch_clock_tick: 4, function: VoidOp::Scf }),
        0x38 => GenericInstruction::Offset(Instruction { opcode: 0x38, disassembly: "JR C, r8", byte_size: 2, clock_tick: 8, branch_clock_tick: 12, function: OffsetOp::Jr(Condition::Carry) }),
        0x39 => GenericInstruction::Void(Instruction { opcode: 0x39, disassembly: "ADD HL, SP", byte_size: 1, clock_tick: 8, branch_clock_tick: 8, function: VoidOp::AddHl(Reg16::SP) }),
        0x3A => GenericInstruction::Void(Instruction { opcode: 0x3A, disassembly: "LD A, (HL-)", byte_size: 1, clock_tick: 8, branch_clock_tick: 8, function: VoidOp::LdAIndirect(Indirect::HlDecrement) }),
        0x3B => GenericInstruction::Void(Instruction { opcode: 0x3B, disassembly: "DEC SP", byte_size: 1, clock_tick: 8, branch_clock_tick: 8, function: VoidOp::DecWide(Reg16::SP) }),
        0x3C => GenericInstruction::Void(Instruction { opcode: 0x3C, disassembly: "INC A", byte_size: 1, clock_tick: 4, branch_clock_tick: 4, function: VoidOp::Inc(Loc8::A) }),
        0x3D => GenericInstruction::Void(Instruction { opcode: 0x3D, disassembly: "DEC A", byte_size: 1, clock_tick: 4, branch_clock_tick: 4, function: VoidOp::Dec(Loc8::A) }),
        0x3E => GenericInstruction::Value(Instruction { opcode: 0x3E, disassembly: "LD A, d8", byte_size: 2, clock_tick: 8, branch_clock_tick: 8, function: ValueOp::Ld(Loc8::A) }),
        0x3F => GenericInstruction::Void(Instruction { opcode: 0x3F, disassembly: "CCF", byte_size: 1, clock_tick: 4, branch_clock_tick: 4, function: VoidOp::Ccf }),
        0x40 => GenericInstruction::Void(Instruction { opcode: 0x40, disassembly: "LD B, B", byte_size: 1, clock_tick: 4, branch_clock_tick: 4, function: VoidOp::Ld(Loc8::B, Loc8::B) }),
        0x41 => GenericInstruction::Void(Instruction { opcode: 0x41, disassembly: "LD B, C", byte_size: 1, clock_tick: 4, branch_clock_tick: 4, function: VoidOp::Ld(Loc8::B, Loc8::C) }),
        0x42 => GenericInstruction::Void(Instruction { opcode: 0x42, disassembly: "LD B, D", byte_size: 1, clock_tick: 4, branch_clock_tick: 4, function: VoidOp::Ld(Loc8::B, Loc8::D) }),
        0x43 => GenericInstruction::Void(Instruction { opcode: 0x43, disassembly: "LD B, E", byte_size: 1, clock_tick: 4, branch_clock_tick: 4, function: VoidOp::Ld(Loc8::B, Loc8::E) }),
        0x44 => GenericInstruction::Void(Instruction { opcode: 0x44, disassembly: "LD B, H", byte_size: 1, clock_tick: 4, branch_clock_tick: 4, function: VoidOp::Ld(Loc8::B, Loc8::H) }),
        0x45 => GenericInstruction::Void(Instruction { opcode: 0x45, disassembly: "LD B, L", byte_size: 1, clock_tick: 4, branch_clock_tick: 4, function: VoidOp::Ld(Loc8::B, Loc8::L) }),
        0x46 => GenericInstruction::Void(Instruction { opcode: 0x46, disassembly: "LD B, (HL)", byte_size: 1, clock_tick: 8, branch_clock_tick: 8, function: VoidOp::Ld(Loc8::B, Loc8::HlAddr) }),
        0x47 => GenericInstruction::Void(Instruction { opcode: 0x47, disassembly: "LD B, A", byte_size: 1, clock_tick: 4, branch_clock_tick: 4, function: VoidOp::Ld(Loc8::B, Loc8::A) }),
        0x48 => GenericInstruction::Void(Instruction { opcode: 0x48, disassembly: "LD C, B", byte_size: 1, clock_tick: 4, branch_clock_tick: 4, function: VoidOp::Ld(Loc8::C, Loc8::B) }),
        0x49 => GenericInstruction::Void(Instruction { opcode: 0x49, disassembly: "LD C, C", byte_size: 1, clock_tick: 4, branch_clock_tick: 4, function: VoidOp::Ld(Loc8::C, Loc8::C) }),
        0x4A => GenericInstruction::Void(Instruction { opcode: 0x4A, disassembly: "LD C, D", byte_size: 1, clock_tick: 4, branch_clock_tick: 4, function: VoidOp::Ld(Loc8::C, Loc8::D) }),
        0x4B => GenericInstruction::Void(Instruction { opcode: 0x4B, disassembly: "LD C, E", byte_size: 1, clock_tick: 4, branch_clock_tick: 4, function: VoidOp::Ld(Loc8::C, Loc8::E) }),
        0x4C => GenericInstruction::Void(Instruction { opcode: 0x4C, disassembly: "LD C, H", byte_size: 1, clock_tick: 4, branch_clock_tick: 4, function: VoidOp::Ld(Loc8::C, Loc8::H) }),
        0x4D => GenericInstruction::Void(Instruction { opcode: 0x4D, disassembly: "LD C, L", byte_size: 1, clock_tick: 4, branch_clock_tick: 4, function: VoidOp::Ld(Loc8::C, Loc8::L) }),
        0x4E => GenericInstruction::Void(Instruction { opcode: 0x4E, disassembly: "LD C, (HL)", byte_size: 1, clock_tick: 8, branch_clock_tick: 8, function: VoidOp::Ld(Loc8::C, Loc8::HlAddr) }),
        0x4F => GenericInstruction::Void(Instruction { opcode: 0x4F, disassembly: "LD C, A", byte_size: 1, clock_tick: 4, branch_clock_tick: 4, function: VoidOp::Ld(Loc8::C, Loc8::A) }),
        0x50 => GenericInstruction::Void(Instruction { opcode: 0x50, disassembly: "LD D, B", byte_size: 1, clock_tick: 4, branch_clock_tick: 4, function: VoidOp::Ld(Loc8::D, Loc8::B) }),
        0x51 => GenericInstruction::Void(Instruction { opcode: 0x51, disassembly: "LD D, C", byte_size: 1, clock_tick: 4, branch_clock_tick: 4, function: VoidOp::Ld(Loc8::D, Loc8::C) }),
        0x52 => GenericInstruction::Void(Instruction { opcode: 0x52, disassembly: "LD D, D", byte_size: 1, clock_tick: 4, branch_clock_tick: 4, function: VoidOp::Ld(Loc8::D, Loc8::D) }),
        0x53 => GenericInstruction::Void(Instruction { opcode: 0x53, disassembly: "LD D, E", byte_size: 1, clock_tick: 4, branch_clock_tick: 4, function: VoidOp::Ld(Loc8::D, Loc8::E) }),
        0x54 => GenericInstruction::Void(Instruction { opcode: 0x54, disassembly: "LD D, H", byte_size: 1, clock_tick: 4, branch_clock_tick: 4, function: VoidOp::Ld(Loc8::D, Loc8::H) }),
        0x55 => GenericInstruction::Void(Instruction { opcode: 0x55, disassembly: "LD D, L", byte_size: 1, clock_tick: 4, branch_clock_tick: 4, function: VoidOp::Ld(Loc8::D, Loc8::L) }),
        0x56 => GenericInstruction::Void(Instruction { opcode: 0x56, disassembly: "LD D, (HL)", byte_size: 1, clock_tick: 8, branch_clock_tick: 8, function: VoidOp::Ld(Loc8::D, Loc8::HlAddr) }),
        0x57 => GenericInstruction::Void(Instruction { opcode: 0x57, disassembly: "LD D, A", byte_size: 1, clock_tick: 4, branch_clock_tick: 4, function: VoidOp::Ld(Loc8::D, Loc8::A) }),
        0x58 => GenericInstruction::Void(Instruction { opcode: 0x58, disassembly: "LD E, B", byte_size: 1, clock_tick: 4, branch_clock_tick: 4, function: VoidOp::Ld(Loc8::E, Loc8::B) }),
        0x59 => GenericInstruction::Void(Instruction { opcode: 0x59, disassembly: "LD E, C", byte_size: 1, clock_tick: 4, branch_clock_tick: 4, function: VoidOp::Ld(Loc8::E, Loc8::C) }),
        0x5A => GenericInstruction::Void(Instruction { opcode: 0x5A, disassembly: "LD E, D", byte_size: 1, clock_tick: 4, branch_clock_tick: 4, function: VoidOp::Ld(Loc8::E, Loc8::D) }),
        0x5B => GenericInstruction::Void(Instruction { opcode: 0x5B, disassembly: "LD E, E", byte_size: 1, clock_tick: 4, branch_clock_tick: 4, function: VoidOp::Ld(Loc8::E, Loc8::E) }),
        0x5C => GenericInstruction::Void(Instruction { opcode: 0x5C, disassembly: "LD E, H", byte_size: 1, clock_tick: 4, branch_clock_tick: 4, function: VoidOp::Ld(Loc8::E, Loc8::H) }),
        0x5D => GenericInstruction::Void(Instruction { opcode: 0x5D, disassembly: "LD E, L", byte_size: 1, clock_tick: 4, branch_clock_tick: 4, function: VoidOp::Ld(Loc8::E, Loc8::L) }),
        0x5E => GenericInstruction::Void(Instruction { opcode: 0x5E, disassembly: "LD E, (HL)", byte_size: 1, clock_tick: 8, branch_clock_tick: 8, function: VoidOp::Ld(Loc8::E, Loc8::HlAddr) }),
        0x5F => GenericInstruction::Void(Instruction { opcode: 0x5F, disassembly: "LD E, A", byte_size: 1, clock_tick: 4, branch_clock_tick: 4, function: VoidOp::Ld(Loc8::E, Loc8::A) }),
        0x60 => GenericInstruction::Void(Instruction { opcode: 0x60, disassembly: "LD H, B", byte_size: 1, clock_tick: 4, branch_clock_tick: 4, function: VoidOp::Ld(Loc8::H, Loc8::B) }),
        0x61 => GenericInstruction::Void(Instruction { opcode: 0x61, disassembly: "LD H, C", byte_size: 1, clock_tick: 4, branch_clock_tick: 4, function: VoidOp::Ld(Loc8::H, Loc8::C) }),
        0x62 => GenericInstruction::Void(Instruction { opcode: 0x62, disassembly: "LD H, D", byte_size: 1, clock_tick: 4, branch_clock_tick: 4, function: VoidOp::Ld(Loc8::H, Loc8::D) }),
        0x63 => GenericInstruction::Void(Instruction { opcode: 0x63, disassembly: "LD H, E", byte_size: 1, clock_tick: 4, branch_clock_tick: 4, function: VoidOp::Ld(Loc8::H, Loc8::E) }),
        0x64 => GenericInstruction::Void(Instruction { opcode: 0x64, disassembly: "LD H, H", byte_size: 1, clock_tick: 4, branch_clock_tick: 4, function: VoidOp::Ld(Loc8::H, Loc8::H) }),
        0x65 => GenericInstruction::Void(Instruction { opcode: 0x65, disassembly: "LD H, L", byte_size: 1, clock_tick: 4, branch_clock_tick: 4, function: VoidOp::Ld(Loc8::H, Loc8::L) }),
        0x66 => GenericInstruction::Void(Instruction { opcode: 0x66, disassembly: "LD H, (HL)", byte_size: 1, clock_tick: 8, branch_clock_tick: 8, function: VoidOp::Ld(Loc8::H, Loc8::HlAddr) }),
        0x67 => GenericInstruction::Void(Instruction { opcode: 0x67, disassembly: "LD H, A", byte_size: 1, clock_tick: 4, branch_clock_tick: 4, function: VoidOp::Ld(Loc8::H, Loc8::A) }),
        0x68 => GenericInstruction::Void(Instruction { opcode: 0x68, disassembly: "LD L, B", byte_size: 1, clock_tick: 4, branch_clock_tick: 4, function: VoidOp::Ld(Loc8::L, Loc8::B) }),
        0x69 => GenericInstruction::Void(Instruction { opcode: 0x69, disassembly: "LD L, C", byte_size: 1, clock_tick: 4, branch_clock_tick: 4, function: VoidOp::Ld(Loc8::L, Loc8::C) }),
        0x6A => GenericInstruction::Void(Instruction { opcode: 0x6A, disassembly: "LD L, D", byte_size: 1, clock_tick: 4, branch_clock_tick: 4, function: VoidOp::Ld(Loc8::L, Loc8::D) }),
        0x6B => GenericInstruction::Void(Instruction { opcode: 0x6B, disassembly: "LD L, E", byte_size: 1, clock_tick: 4, branch_clock_tick: 4, function: VoidOp::Ld(Loc8::L, Loc8::E) }),
        0x6C => GenericInstruction::Void(Instruction { opcode: 0x6C, disassembly: "LD L, H", byte_size: 1, clock_tick: 4, branch_clock_tick: 4, function: VoidOp::Ld(Loc8::L, Loc8::H) }),
        0x6D => GenericInstruction::Void(Instruction { opcode: 0x6D, disassembly: "LD L, L", byte_size: 1, clock_tick: 4, branch_clock_tick: 4, function: VoidOp::Ld(Loc8::L, Loc8::L) }),
        0x6E => GenericInstruction::Void(Instruction { opcode: 0x6E, disassembly: "LD L, (HL)", byte_size: 1, clock_tick: 8, branch_clock_tick: 8, function: VoidOp::Ld(Loc8::L, Loc8::HlAddr) }),
        0x6F => GenericInstruction::Void(Instruction { opcode: 0x6F, disassembly: "LD L, A", byte_size: 1, clock_tick: 4, branch_clock_tick: 4, function: VoidOp::Ld(Loc8::L, Loc8::A) }),
        0x70 => GenericInstruction::Void(Instruction { opcode: 0x70, disassembly: "LD (HL), B", byte_size: 1, clock_tick: 8, branch_clock_tick: 8, function: VoidOp::Ld(Loc8::HlAddr, Loc8::B) }),
        0x71 => GenericInstruction::Void(Instruction { opcode: 0x71, disassembly: "LD (HL), C", byte_size: 1, clock_tick: 8, branch_clock_tick: 8, function: VoidOp::Ld(Loc8::HlAddr, Loc8::C) }),
        0x72 => GenericInstruction::Void(Instruction { opcode: 0x72, disassembly: "LD (HL), D", byte_size: 1, clock_tick: 8, branch_clock_tick: 8, function: VoidOp::Ld(Loc8::HlAddr, Loc8::D) }),
        0x73 => GenericInstruction::Void(Instruction { opcode: 0x73, disassembly: "LD (HL), E", byte_size: 1, clock_tick: 8, branch_clock_tick: 8, function: VoidOp::Ld(Loc8::HlAddr, Loc8::E) }),
        0x74 => GenericInstruction::Void(Instruction { opcode: 0x74, disassembly: "LD (HL), H", byte_size: 1, clock_tick: 8, branch_clock_tick: 8, function: VoidOp::Ld(Loc8::HlAddr, Loc8::H) }),
        0x75 => GenericInstruction::Void(Instruction { opcode: 0x75, disassembly: "LD (HL), L", byte_size: 1, clock_tick: 8, branch_clock_tick: 8, function: VoidOp::Ld(Loc8::HlAddr, Loc8::L) }),
        0x76 => GenericInstruction::Void(Instruction { opcode: 0x76, disassembly: "HALT", byte_size: 1, clock_tick: 4, branch_clock_tick: 4, function: VoidOp::Unimplemented }),
        0x77 => GenericInstruction::Void(Instruction { opcode: 0x77, disassembly: "LD (HL), A", byte_size: 1, clock_tick: 8, branch_clock_tick: 8, function: VoidOp::Ld(Loc8::HlAddr, Loc8::A) }),
        0x78 => GenericInstruction::Void(Instruction { opcode: 0x78, disassembly: "LD A, B", byte_size: 1, clock_tick: 4, branch_clock_tick: 4, function: VoidOp::Ld(Loc8::A, Loc8::B) }),
        0x79 => GenericInstruction::Void(Instruction { opcode: 0x79, disassembly: "LD A, C", byte_size: 1, clock_tick: 4, branch_clock_tick: 4, function: VoidOp::Ld(Loc8::A, Loc8::C) }),
        0x7A => GenericInstruction::Void(Instruction { opcode: 0x7A, disassembly: "LD A, D", byte_size: 1, clock_tick: 4, branch_clock_tick: 4, function: VoidOp::Ld(Loc8::A, Loc8::D) }),
        0x7B => GenericInstruction::Void(Instruction { opcode: 0x7B, disassembly: "LD A, E", byte_size: 1, clock_tick: 4, branch_clock_tick: 4, function: VoidOp::Ld(Loc8::A, Loc8::E) }),
        0x7C => GenericInstruction::Void(Instruction { opcode: 0x7C, disassembly: "LD A, H", byte_size: 1, clock_tick: 4, branch_clock_tick: 4, function: VoidOp::Ld(Loc8::A, Loc8::H) }),
        0x7D => GenericInstruction::Void(Instruction { opcode: 0x7D, disassembly: "LD A, L", byte_size: 1, clock_tick: 4, branch_clock_tick: 4, function: VoidOp::Ld(Loc8::A, Loc8::L) }),
        0x7E => GenericInstruction::Void(Instruction { opcode: 0x7E, disassembly: "LD A, (HL)", byte_size: 1, clock_tick: 8, branch_clock_tick: 8, function: VoidOp::Ld(Loc8::A, Loc8::HlAddr) }),
        0x7F => GenericInstruction::Void(Instruction { opcode: 0x7F, disassembly: "LD A, A", byte_size: 1, clock_tick: 4, branch_clock_tick: 4, function: VoidOp::Ld(Loc8::A, Loc8::A) }),
        0x80 => GenericInstruction::Void(Instruction { opcode: 0x80, disassembly: "ADD A, B", byte_size: 1, clock_tick: 4, branch_clock_tick: 4, function: VoidOp::Alu(AluOp::Add, Loc8::B) }),
        0x81 => GenericInstruction::Void(Instruction { opcode: 0x81, disassembly: "ADD A, C", byte_size: 1, clock_tick: 4, branch_clock_tick: 4, function: VoidOp::Alu(AluOp::Add, Loc8::C) }),
        0x82 => GenericInstruction::Void(Instruction { opcode: 0x82, disassembly: "ADD A, D", byte_size: 1, clock_tick: 4, branch_clock_tick: 4, function: VoidOp::Alu(AluOp::Add, Loc8::D) }),
        0x83 => GenericInstruction::Void(Instruction { opcode: 0x83, disassembly: "ADD A, E", byte_size: 1, clock_tick: 4, branch_clock_tick: 4, function: VoidOp::Alu(AluOp::Add, Loc8::E) }),
        0x84 => GenericInstruction::Void(Instruction { opcode: 0x84, disassembly: "ADD A, H", byte_size: 1, clock_tick: 4, branch_clock_tick: 4, function: VoidOp::Alu(AluOp::Add, Loc8::H) }),
        0x85 => GenericInstruction::Void(Instruction { opcode: 0x85, disassembly: "ADD A, L", byte_size: 1, clock_tick: 4, branch_clock_tick: 4, function: VoidOp::Alu(AluOp::Add, Loc8::L) }),
        0x86 => GenericInstruction::Void(Instruction { opcode: 0x86, disassembly: "ADD A, (HL)", byte_size: 1, clock_tick: 8, branch_clock_tick: 8, function: VoidOp::Alu(AluOp::Add, Loc8::HlAddr) }),
        0x87 => GenericInstruction::Void(Instruction { opcode: 0x87, disassembly: "ADD A, A", byte_size: 1, clock_tick: 4, branch_clock_tick: 4, function: VoidOp::Alu(AluOp::Add, Loc8::A) }),
        0x88 => GenericInstruction::Void(Instruction { opcode: 0x88, disassembly: "ADC A, B", byte_size: 1, clock_tick: 4, branch_clock_tick: 4, function: VoidOp::Alu(AluOp::Adc, Loc8::B) }),
        0x89 => GenericInstruction::Void(Instruction { opcode: 0x89, disassembly: "ADC A, C", byte_size: 1, clock_tick: 4, branch_clock_tick: 4, function: VoidOp::Alu(AluOp::Adc, Loc8::C) }),
        0x8A => GenericInstruction::Void(Instruction { opcode: 0x8A, disassembly: "ADC A, D", byte_size: 1, clock_tick: 4, branch_clock_tick: 4, function: VoidOp::Alu(AluOp::Adc, Loc8::D) }),
        0x8B => GenericInstruction::Void(Instruction { opcode: 0x8B, disassembly: "ADC A, E", byte_size: 1, clock_tick: 4, branch_clock_tick: 4, function: VoidOp::Alu(AluOp::Adc, Loc8::E) }),
        0x8C => GenericInstruction::Void(Instruction { opcode: 0x8C, disassembly: "ADC A, H", byte_size: 1, clock_tick: 4, branch_clock_tick: 4, function: VoidOp::Alu(AluOp::Adc, Loc8::H) }),
        0x8D => GenericInstruction::Void(Instruction { opcode: 0x8D, disassembly: "ADC A, L", byte_size: 1, clock_tick: 4, branch_clock_tick: 4, function: VoidOp::Alu(AluOp::Adc, Loc8::L) }),
        0x8E => GenericInstruction::Void(Instruction { opcode: 0x8E, disassembly: "ADC A, (HL)", byte_size: 1, clock_tick: 8, branch_clock_tick: 8, function: VoidOp::Alu(AluOp::Adc, Loc8::HlAddr) }),
        0x8F => GenericInstruction::Void(Instruction { opcode: 0x8F, disassembly: "ADC A, A", byte_size: 1, clock_tick: 4, branch_clock_tick: 4, function: VoidOp::Alu(AluOp::Adc, Loc8::A) }),
        0x90 => GenericInstruction::Void(Instruction { opcode: 0x90, disassembly: "SUB B", byte_size: 1, clock_tick: 4, branch_clock_tick: 4, function: VoidOp::Alu(AluOp::Sub, Loc8::B) }),
        0x91 => GenericInstruction::Void(Instruction { opcode: 0x91, disassembly: "SUB C", byte_size: 1, clock_tick: 4, branch_clock_tick: 4, function: VoidOp::Alu(AluOp::Sub, Loc8::C) }),
        0x92 => GenericInstruction::Void(Instruction { opcode: 0x92, disassembly: "SUB D", byte_size: 1, clock_tick: 4, branch_clock_tick: 4, function: VoidOp::Alu(AluOp::Sub, Loc8::D) }),
        0x93 => GenericInstruction::Void(Instruction { opcode: 0x93, disassembly: "SUB E", byte_size: 1, clock_tick: 4, branch_clock_tick: 4, function: VoidOp::Alu(AluOp::Sub, Loc8::E) }),
        0x94 => GenericInstruction::Void(Instruction { opcode: 0x94, disassembly: "SUB H", byte_size: 1, clock_tick: 4, branch_clock_tick: 4, function: VoidOp::Alu(AluOp::Sub, Loc8::H) }),
        0x95 => GenericInstruction::Void(Instruction { opcode: 0x95, disassembly: "SUB L", byte_size: 1, clock_tick: 4, branch_clock_tick: 4, function: VoidOp::Alu(AluOp::Sub, Loc8::L) }),
        0x96 => GenericInstruction::Void(Instruction { opcode: 0x96, disassembly: "SUB (HL)", byte_size: 1, clock_tick: 8, branch_clock_tick: 8, function: VoidOp::Alu(AluOp::Sub, Loc8::HlAddr) }),
        0x97 => GenericInstruction::Void(Instruction { opcode: 0x97, disassembly: "SUB A", byte_size: 1, clock_tick: 4, branch_clock_tick: 4, function: VoidOp::Alu(AluOp::Sub, Loc8::A) }),
        0x98 => GenericInstruction::Void(Instruction { opcode: 0x98, disassembly: "SBC A, B", byte_size: 1, clock_tick: 4, branch_clock_tick: 4, function: VoidOp::Alu(AluOp::Sbc, Loc8::B) }),
        0x99 => GenericInstruction::Void(Instruction { opcode: 0x99, disassembly: "SBC A, C", byte_size: 1, clock_tick: 4, branch_clock_tick: 4, function: VoidOp::Alu(AluOp::Sbc, Loc8::C) }),
        0x9A => GenericInstruction::Void(Instruction { opcode: 0x9A, disassembly: "SBC A, D", byte_size: 1, clock_tick: 4, branch_clock_tick: 4, function: VoidOp::Alu(AluOp::Sbc, Loc8::D) }),
        0x9B => GenericInstruction::Void(Instruction { opcode: 0x9B, disassembly: "SBC A, E", byte_size: 1, clock_tick: 4, branch_clock_tick: 4, function: VoidOp::Alu(AluOp::Sbc, Loc8::E) }),
        0x9C => GenericInstruction::Void(Instruction { opcode: 0x9C, disassembly: "SBC A, H", byte_size: 1, clock_tick: 4, branch_clock_tick: 4, function: VoidOp::Alu(AluOp::Sbc, Loc8::H) }),
        0x9D => GenericInstruction::Void(Instruction { opcode: 0x9D, disassembly: "SBC A, L", byte_size: 1, clock_tick: 4, branch_clock_tick: 4, function: VoidOp::Alu(AluOp::Sbc, Loc8::L) }),
        0x9E => GenericInstruction::Void(Instruction { opcode: 0x9E, disassembly: "SBC A, (HL)", byte_size: 1, clock_tick: 8, branch_clock_tick: 8, function: VoidOp::Alu(AluOp::Sbc, Loc8::HlAddr) }),
        0x9F => GenericInstruction::Void(Instruction { opcode: 0x9F, disassembly: "SBC A, A", byte_size: 1, clock_tick: 4, branch_clock_tick: 4, function: VoidOp::Alu(AluOp::Sbc, Loc8::A) }),
        0xA0 => GenericInstruction::Void(Instruction { opcode: 0xA0, disassembly: "AND B", byte_size: 1, clock_tick: 4, branch_clock_tick: 4, function: VoidOp::Alu(AluOp::And, Loc8::B) }),
        0xA1 => GenericInstruction::Void(Instruction { opcode: 0xA1, disassembly: "AND C", byte_size: 1, clock_tick: 4, branch_clock_tick: 4, function: VoidOp::Alu(AluOp::And, Loc8::C) }),
        0xA2 => GenericInstruction::Void(Instruction { opcode: 0xA2, disassembly: "AND D", byte_size: 1, clock_tick: 4, branch_clock_tick: 4, function: VoidOp::Alu(AluOp::And, Loc8::D) }),
        0xA3 => GenericInstruction::Void(Instruction { opcode: 0xA3, disassembly: "AND E", byte_size: 1, clock_tick: 4, branch_clock_tick: 4, function: VoidOp::Alu(AluOp::And, Loc8::E) }),
        0xA4 => GenericInstruction::Void(Instruction { opcode: 0xA4, disassembly: "AND H", byte_size: 1, clock_tick: 4, branch_clock_tick: 4, function: VoidOp::Alu(AluOp::And, Loc8::H) }),
        0xA5 => GenericInstruction::Void(Instruction { opcode: 0xA5, disassembly: "AND L", byte_size: 1, clock_tick: 4, branch_clock_tick: 4, function: VoidOp::Alu(AluOp::And, Loc8::L) }),
        0xA6 => GenericInstruction::Void(Instruction { opcode: 0xA6, disassembly: "AND (HL)", byte_size: 1, clock_tick: 8, branch_clock_tick: 8, function: VoidOp::Alu(AluOp::And, Loc8::HlAddr) }),
        0xA7 => GenericInstruction::Void(Instruction { opcode: 0xA7, disassembly: "AND A", byte_size: 1, clock_tick: 4, branch_clock_tick: 4, function: VoidOp::Alu(AluOp::And, Loc8::A) }),
        0xA8 => GenericInstruction::Void(Instruction { opcode: 0xA8, disassembly: "XOR B", byte_size: 1, clock_tick: 4, branch_clock_tick: 4, function: VoidOp::Alu(AluOp::Xor, Loc8::B) }),
        0xA9 => GenericInstruction::Void(Instruction { opcode: 0xA9, disassembly: "XOR C", byte_size: 1, clock_tick: 4, branch_clock_tick: 4, function: VoidOp::Alu(AluOp::Xor, Loc8::C) }),
        0xAA => GenericInstruction::Void(Instruction { opcode: 0xAA, disassembly: "XOR D", byte_size: 1, clock_tick: 4, branch_clock_tick: 4, function: VoidOp::Alu(AluOp::Xor, Loc8::D) }),
        0xAB => GenericInstruction::Void(Instruction { opcode: 0xAB, disassembly: "XOR E", byte_size: 1, clock_tick: 4, branch_clock_tick: 4, function: VoidOp::Alu(AluOp::Xor, Loc8::E) }),
        0xAC => GenericInstruction::Void(Instruction { opcode: 0xAC, disassembly: "XOR H", byte_size: 1, clock_tick: 4, branch_clock_tick: 4, function: VoidOp::Alu(AluOp::Xor, Loc8::H) }),
        0xAD => GenericInstruction::Void(Instruction { opcode: 0xAD, disassembly: "XOR L", byte_size: 1, clock_tick: 4, branch_clock_tick: 4, function: VoidOp::Alu(AluOp::Xor, Loc8::L) }),
        0xAE => GenericInstruction::Void(Instruction { opcode: 0xAE, disassembly: "XOR (HL)", byte_size: 1, clock_tick: 8, branch_clock_tick: 8, function: VoidOp::Alu(AluOp::Xor, Loc8::HlAddr) }),
        0xAF => GenericInstruction::Void(Instruction { opcode: 0xAF, disassembly: "XOR A", byte_size: 1, clock_tick: 4, branch_clock_tick: 4, function: VoidOp::Alu(AluOp::Xor, Loc8::A) }),
        0xB0 => GenericInstruction::Void(Instruction { opcode: 0xB0, disassembly: "OR B", byte_size: 1, clock_tick: 4, branch_clock_tick: 4, function: VoidOp::Alu(AluOp::Or, Loc8::B) }),
        0xB1 => GenericInstruction::Void(Instruction { opcode: 0xB1, disassembly: "OR C", byte_size: 1, clock_tick: 4, branch_clock_tick: 4, function: VoidOp::Alu(AluOp::Or, Loc8::C) }),
        0xB2 => GenericInstruction::Void(Instruction { opcode: 0xB2, disassembly: "OR D", byte_size: 1, clock_tick: 4, branch_clock_tick: 4, function: VoidOp::Alu(AluOp::Or, Loc8::D) }),
        0xB3 => GenericInstruction::Void(Instruction { opcode: 0xB3, disassembly: "OR E", byte_size: 1, clock_tick: 4, branch_clock_tick: 4, function: VoidOp::Alu(AluOp::Or, Loc8::E) }),
        0xB4 => GenericInstruction::Void(Instruction { opcode: 0xB4, disassembly: "OR H", byte_size: 1, clock_tick: 4, branch_clock_tick: 4, function: VoidOp::Alu(AluOp::Or, Loc8::H) }),
        0xB5 => GenericInstruction::Void(Instruction { opcode: 0xB5, disassembly: "OR L", byte_size: 1, clock_tick: 4, branch_clock_tick: 4, function: VoidOp::Alu(AluOp::Or, Loc8::L) }),
        0xB6 => GenericInstruction::Void(Instruction { opcode: 0xB6, disassembly: "OR (HL)", byte_size: 1, clock_tick: 8, branch_clock_tick: 8, function: VoidOp::Alu(AluOp::Or, Loc8::HlAddr) }),
        0xB7 => GenericInstruction::Void(Instruction { opcode: 0xB7, disassembly: "OR A", byte_size: 1, clock_tick: 4, branch_clock_tick: 4, function: VoidOp::Alu(AluOp::Or, Loc8::A) }),
        0xB8 => GenericInstruction::Void(Instruction { opcode: 0xB8, disassembly: "CP B", byte_size: 1, clock_tick: 4, branch_clock_tick: 4, function: VoidOp::Alu(AluOp::Cp, Loc8::B) }),
        0xB9 => GenericInstruction::Void(Instruction { opcode: 0xB9, disassembly: "CP C", byte_size: 1, clock_tick: 4, branch_clock_tick: 4, function: VoidOp::Alu(AluOp::Cp, Loc8::C) }),
        0xBA => GenericInstruction::Void(Instruction { opcode: 0xBA, disassembly: "CP D", byte_size: 1, clock_tick: 4, branch_clock_tick: 4, function: VoidOp::Alu(AluOp::Cp, Loc8::D) }),
        0xBB => GenericInstruction::Void(Instruction { opcode: 0xBB, disassembly: "CP E", byte_size: 1, clock_tick: 4, branch_clock_tick: 4, function: VoidOp::Alu(AluOp::Cp, Loc8::E) }),
        0xBC => GenericInstruction::Void(Instruction { opcode: 0xBC, disassembly: "CP H", byte_size: 1, clock_tick: 4, branch_clock_tick: 4, function: VoidOp::Alu(AluOp::Cp, Loc8::H) }),
        0xBD => GenericInstruction::Void(Instruction { opcode: 0xBD, disassembly: "CP L", byte_size: 1, clock_tick: 4, branch_clock_tick: 4, function: VoidOp::Alu(AluOp::Cp, Loc8::L) }),
        0xBE => GenericInstruction::Void(Instruction { opcode: 0xBE, disassembly: "CP (HL)", byte_size: 1, clock_tick: 8, branch_clock_tick: 8, function: VoidOp::Alu(AluOp::Cp, Loc8::HlAddr) }),
        0xBF => GenericInstruction::Void(Instruction { opcode: 0xBF, disassembly: "CP A", byte_size: 1, clock_tick: 4, branch_clock_tick: 4, function: VoidOp::Alu(AluOp::Cp, Loc8::A) }),
        0xC0 => GenericInstruction::Void(Instruction { opcode: 0xC0, disassembly: "RET NZ", byte_size: 1, clock_tick: 8, branch_clock_tick: 20, function: VoidOp::Ret(Condition::NotZero) }),
        0xC1 => GenericInstruction::Void(Instruction { opcode: 0xC1, disassembly: "POP BC", byte_size: 1, clock_tick: 12, branch_clock_tick: 12, function: VoidOp::Pop(StackPair::BC) }),
        0xC2 => GenericInstruction::Far(Instruction { opcode: 0xC2, disassembly: "JP NZ, a16", byte_size: 3, clock_tick: 12, branch_clock_tick: 16, function: FarOp::Jp(Condition::NotZero) }),
        0xC3 => GenericInstruction::Far(Instruction { opcode: 0xC3, disassembly: "JP a16", byte_size: 3, clock_tick: 16, branch_clock_tick: 16, function: FarOp::Jp(Condition::Always) }),
        0xC4 => GenericInstruction::Far(Instruction { opcode: 0xC4, disassembly: "CALL NZ, a16", byte_size: 3, clock_tick: 12, branch_clock_tick: 24, function: FarOp::Call(Condition::NotZero) }),
        0xC5 => GenericInstruction::Void(Instruction { opcode: 0xC5, disassembly: "PUSH BC", byte_size: 1, clock_tick: 16, branch_clock_tick: 16, function: VoidOp::Push(StackPair::BC) }),
        0xC6 => GenericInstruction::Value(Instruction { opcode: 0xC6, disassembly: "ADD A, d8", byte_size: 2, clock_tick: 8, branch_clock_tick: 8, function: ValueOp::Alu(AluOp::Add) }),
        0xC7 => GenericInstruction::Void(Instruction { opcode: 0xC7, disassembly: "RST 00H", byte_size: 1, clock_tick: 16, branch_clock_tick: 16, function: VoidOp::Rst(0x00) }),
        0xC8 => GenericInstruction::Void(Instruction { opcode: 0xC8, disassembly: "RET Z", byte_size: 1, clock_tick: 8, branch_clock_tick: 20, function: VoidOp::Ret(Condition::Zero) }),
        0xC9 => GenericInstruction::Void(Instruction { opcode: 0xC9, disassembly: "RET", byte_size: 1, clock_tick: 16, branch_clock_tick: 16, function: VoidOp::Ret(Condition::Always) }),
        0xCA => GenericInstruction::Far(Instruction { opcode: 0xCA, disassembly: "JP Z, a16", byte_size: 3, clock_tick: 12, branch_clock_tick: 16, function: FarOp::Jp(Condition::Zero) }),
        0xCB => GenericInstruction::Void(Instruction { opcode: 0xCB, disassembly: "PREFIX CB", byte_size: 1, clock_tick: 4, branch_clock_tick: 4, function: VoidOp::Prefix }),
        0xCC => GenericInstruction::Far(Instruction { opcode: 0xCC, disassembly: "CALL Z, a16", byte_size: 3, clock_tick: 12, branch_clock_tick: 24, function: FarOp::Call(Condition::Zero) }),
        0xCD => GenericInstruction::Far(Instruction { opcode: 0xCD, disassembly: "CALL a16", byte_size: 3, clock_tick: 24, branch_clock_tick: 24, function: FarOp::Call(Condition::Always) }),
        0xCE => GenericInstruction::Value(Instruction { opcode: 0xCE, disassembly: "ADC A, d8", byte_size: 2, clock_tick: 8, branch_clock_tick: 8, function: ValueOp::Alu(AluOp::Adc) }),
        0xCF => GenericInstruction::Void(Instruction { opcode: 0xCF, disassembly: "RST 08H", byte_size: 1, clock_tick: 16, branch_clock_tick: 16, function: VoidOp::Rst(0x08) }),
        0xD0 => GenericInstruction::Void(Instruction { opcode: 0xD0, disassembly: "RET NC", byte_size: 1, clock_tick: 8, branch_clock_tick: 20, function: VoidOp::Ret(Condition::NotCarry) }),
        0xD1 => GenericInstruction::Void(Instruction { opcode: 0xD1, disassembly: "POP DE", byte_size: 1, clock_tick: 12, branch_clock_tick: 12, function: VoidOp::Pop(StackPair::DE) }),
        0xD2 => GenericInstruction::Far(Instruction { opcode: 0xD2, disassembly: "JP NC, a16", byte_size: 3, clock_tick: 12, branch_clock_tick: 16, function: FarOp::Jp(Condition::NotCarry) }),
        0xD3 => GenericInstruction::Void(Instruction { opcode: 0xD3, disassembly: "UNDEFINED", byte_size: 1, clock_tick: 4, branch_clock_tick: 4, function: VoidOp::Undefined }),
        0xD4 => GenericInstruction::Far(Instruction { opcode: 0xD4, disassembly: "CALL NC, a16", byte_size: 3, clock_tick: 12, branch_clock_tick: 24, function: FarOp::Call(Condition::NotCarry) }),
        0xD5 => GenericInstruction::Void(Instruction { opcode: 0xD5, disassembly: "PUSH DE", byte_size: 1, clock_tick: 16, branch_clock_tick: 16, function: VoidOp::Push(StackPair::DE) }),
        0xD6 => GenericInstruction::Value(Instruction { opcode: 0xD6, disassembly: "SUB d8", byte_size: 2, clock_tick: 8, branch_clock_tick: 8, function: ValueOp::Alu(AluOp::Sub) }),
        0xD7 => GenericInstruction::Void(Instruction { opcode: 0xD7, disassembly: "RST 10H", byte_size: 1, clock_tick: 16, branch_clock_tick: 16, function: VoidOp::Rst(0x10) }),
        0xD8 => GenericInstruction::Void(Instruction { opcode: 0xD8, disassembly: "RET C", byte_size: 1, clock_tick: 8, branch_clock_tick: 20, function: VoidOp::Ret(Condition::Carry) }),
        0xD9 => GenericInstruction::Void(Instruction { opcode: 0xD9, disassembly: "RETI", byte_size: 1, clock_tick: 16, branch_clock_tick: 16, function: VoidOp::Reti }),
        0xDA => GenericInstruction::Far(Instruction { opcode: 0xDA, disassembly: "JP C, a16", byte_size: 3, clock_tick: 12, branch_clock_tick: 16, function: FarOp::Jp(Condition::Carry) }),
        0xDB => GenericInstruction::Void(Instruction { opcode: 0xDB, disassembly: "UNDEFINED", byte_size: 1, clock_tick: 4, branch_clock_tick: 4, function: VoidOp::Undefined }),
        0xDC => GenericInstruction::Far(Instruction { opcode: 0xDC, disassembly: "CALL C, a16", byte_size: 3, clock_tick: 12, branch_clock_tick: 24, function: FarOp::Call(Condition::Carry) }),
        0xDD => GenericInstruction::Void(Instruction { opcode: 0xDD, disassembly: "UNDEFINED", byte_size: 1, clock_tick: 4, branch_clock_tick: 4, function: VoidOp::Undefined }),
        0xDE => GenericInstruction::Value(Instruction { opcode: 0xDE, disassembly: "SBC A, d8", byte_size: 2, clock_tick: 8, branch_clock_tick: 8, function: ValueOp::Alu(AluOp::Sbc) }),
        0xDF => GenericInstruction::Void(Instruction { opcode: 0xDF, disassembly: "RST 18H", byte_size: 1, clock_tick: 16, branch_clock_tick: 16, function: VoidOp::Rst(0x18) }),
        0xE0 => GenericInstruction::Near(Instruction { opcode: 0xE0, disassembly: "LDH (a8), A", byte_size: 2, clock_tick: 12, branch_clock_tick: 12, function: NearOp::LdFromA }),
        0xE1 => GenericInstruction::Void(Instruction { opcode: 0xE1, disassembly: "POP HL", byte_size: 1, clock_tick: 12, branch_clock_tick: 12, function: VoidOp::Pop(StackPair::HL) }),
        0xE2 => GenericInstruction::Void(Instruction { opcode: 0xE2, disassembly: "LD (C), A", byte_size: 1, clock_tick: 8, branch_clock_tick: 8, function: VoidOp::LdHighCA }),
        0xE3 => GenericInstruction::Void(Instruction { opcode: 0xE3, disassembly: "UNDEFINED", byte_size: 1, clock_tick: 4, branch_clock_tick: 4, function: VoidOp::Undefined }),
        0xE4 => GenericInstruction::Void(Instruction { opcode: 0xE4, disassembly: "UNDEFINED", byte_size: 1, clock_tick: 4, branch_clock_tick: 4, function: VoidOp::Undefined }),
        0xE5 => GenericInstruction::Void(Instruction { opcode: 0xE5, disassembly: "PUSH HL", byte_size: 1, clock_tick: 16, branch_clock_tick: 16, function: VoidOp::Push(StackPair::HL) }),
        0xE6 => GenericInstruction::Value(Instruction { opcode: 0xE6, disassembly: "AND d8", byte_size: 2, clock_tick: 8, branch_clock_tick: 8, function: ValueOp::Alu(AluOp::And) }),
        0xE7 => GenericInstruction::Void(Instruction { opcode: 0xE7, disassembly: "RST 20H", byte_size: 1, clock_tick: 16, branch_clock_tick: 16, function: VoidOp::Rst(0x20) }),
        0xE8 => GenericInstruction::Offset(Instruction { opcode: 0xE8, disassembly: "ADD SP, r8", byte_size: 2, clock_tick: 16, branch_clock_tick: 16, function: OffsetOp::Unimplemented }),
        0xE9 => GenericInstruction::Void(Instruction { opcode: 0xE9, disassembly: "JP HL", byte_size: 1, clock_tick: 4, branch_clock_tick: 4, function: VoidOp::JpHl }),
        0xEA => GenericInstruction::Far(Instruction { opcode: 0xEA, disassembly: "LD (a16), A", byte_size: 3, clock_tick: 16, branch_clock_tick: 16, function: FarOp::LdFromA }),
        0xEB => GenericInstruction::Void(Instruction { opcode: 0xEB, disassembly: "UNDEFINED", byte_size: 1, clock_tick: 4, branch_clock_tick: 4, function: VoidOp::Undefined }),
        0xEC => GenericInstruction::Void(Instruction { opcode: 0xEC, disassembly: "UNDEFINED", byte_size: 1, clock_tick: 4, branch_clock_tick: 4, function: VoidOp::Undefined }),
        0xED => GenericInstruction::Void(Instruction { opcode: 0xED, disassembly: "UNDEFINED", byte_size: 1, clock_tick: 4, branch_clock_tick: 4, function: VoidOp::Undefined }),
        0xEE => GenericInstruction::Value(Instruction { opcode: 0xEE, disassembly: "XOR d8", byte_size: 2, clock_tick: 8, branch_clock_tick: 8, function: ValueOp::Alu(AluOp::Xor) }),
        0xEF => GenericInstruction::Void(Instruction { opcode: 0xEF, disassembly: "RST 28H", byte_size: 1, clock_tick: 16, branch_clock_tick: 16, function: VoidOp::Rst(0x28) }),
        0xF0 => GenericInstruction::Near(Instruction { opcode: 0xF0, disassembly: "LDH A, (a8)", byte_size: 2, clock_tick: 12, branch_clock_tick: 12, function: NearOp::LdA }),
        0xF1 => GenericInstruction::Void(Instruction { opcode: 0xF1, disassembly: "POP AF", byte_size: 1, clock_tick: 12, branch_clock_tick: 12, function: VoidOp::Pop(StackPair::AF) }),
        0xF2 => GenericInstruction::Void(Instruction { opcode: 0xF2, disassembly: "LD A, (C)", byte_size: 1, clock_tick: 8, branch_clock_tick: 8, function: VoidOp::LdAHighC }),
        0xF3 => GenericInstruction::Void(Instruction { opcode: 0xF3, disassembly: "DI", byte_size: 1, clock_tick: 4, branch_clock_tick: 4, function: VoidOp::Unimplemented }),
        0xF4 => GenericInstruction::Void(Instruction { opcode: 0xF4, disassembly: "UNDEFINED", byte_size: 1, clock_tick: 4, branch_clock_tick: 4, function: VoidOp::Undefined }),
        0xF5 => GenericInstruction::Void(Instruction { opcode: 0xF5, disassembly: "PUSH AF", byte_size: 1, clock_tick: 16, branch_clock_tick: 16, function: VoidOp::Push(StackPair::AF) }),
        0xF6 => GenericInstruction::Value(Instruction { opcode: 0xF6, disassembly: "OR d8", byte_size: 2, clock_tick: 8, branch_clock_tick: 8, function: ValueOp::Alu(AluOp::Or) }),
        0xF7 => GenericInstruction::Void(Instruction { opcode: 0xF7, disassembly: "RST 30H", byte_size: 1, clock_tick: 16, branch_clock_tick: 16, function: VoidOp::Rst(0x30) }),
        0xF8 => GenericInstruction::Offset(Instruction { opcode: 0xF8, disassembly: "LD HL, SP + r8", byte_size: 2, clock_tick: 12, branch_clock_tick: 12, function: OffsetOp::LdHlSp }),
        0xF9 => GenericInstruction::Void(Instruction { opcode: 0xF9, disassembly: "LD SP, HL", byte_size: 1, clock_tick: 8, branch_clock_tick: 8, function: VoidOp::LdSpHl }),
        0xFA => GenericInstruction::Far(Instruction { opcode: 0xFA, disassembly: "LD A, (a16)", byte_size: 3, clock_tick: 16, branch_clock_tick: 16, function: FarOp::LdA }),
        0xFB => GenericInstruction::Void(Instruction { opcode: 0xFB, disassembly: "EI", byte_size: 1, clock_tick: 4, branch_clock_tick: 4, function: VoidOp::Unimplemented }),
        0xFC => GenericInstruction::Void(Instruction { opcode: 0xFC, disassembly: "UNDEFINED", byte_size: 1, clock_tick: 4, branch_clock_tick: 4, function: VoidOp::Undefined }),
        0xFD => GenericInstruction::Void(Instruction { opcode: 0xFD, disassembly: "UNDEFINED", byte_size: 1, clock_tick: 4, branch_clock_tick: 4, function: VoidOp::Undefined }),
        0xFE => GenericInstruction::Value(Instruction { opcode: 0xFE, disassembly: "CP d8", byte_size: 2, clock_tick: 8, branch_clock_tick: 8, function: ValueOp::Alu(AluOp::Cp) }),
        0xFF => GenericInstruction::Void(Instruction { opcode: 0xFF, disassembly: "RST 38H", byte_size: 1, clock_tick: 16, branch_clock_tick: 16, function: VoidOp::Rst(0x38) }),
    }
}

/// Looks a byte that follows the prefix opcode up in the prefixed table.
pub fn prefixed_entry(opcode: OpCode) -> (r: GenericInstruction)
    ensures
        r == prefixed_instruction(opcode),
{
    proof {
        reveal(prefixed_instruction);
    }
    match opcode {
        0x00 => GenericInstruction::Void(Instruction { opcode: 0x00, disassembly: "RLC B", byte_size: 2, clock_tick: 8, branch_clock_tick: 8, function: VoidOp::Shift(Shift::Rlc, Loc8::B) }),
        0x01 => GenericInstruction::Void(Instruction { opcode: 0x01, disassembly: "RLC C", byte_size: 2, clock_tick: 8, branch_clock_tick: 8, function: VoidOp::Shift(Shift::Rlc, Loc8::C) }),
        0x02 => GenericInstruction::Void(Instruction { opcode: 0x02, disassembly: "RLC D", byte_size: 2, clock_tick: 8, branch_clock_tick: 8, function: VoidOp::Shift(Shift::Rlc, Loc8::D) }),
        0x03 => GenericInstruction::Void(Instruction { opcode: 0x03, disassembly: "RLC E", byte_size: 2, clock_tick: 8, branch_clock_tick: 8, function: VoidOp::Shift(Shift::Rlc, Loc8::E) }),
        0x04 => GenericInstruction::Void(Instruction { opcode: 0x04, disassembly: "RLC H", byte_size: 2, clock_tick: 8, branch_clock_tick: 8, function: VoidOp::Shift(Shift::Rlc, Loc8::H) }),
        0x05 => GenericInstruction::Void(Instruction { opcode: 0x05, disassembly: "RLC L", byte_size: 2, clock_tick: 8, branch_clock_tick: 8, function: VoidOp::Shift(Shift::Rlc, Loc8::L) }),
        0x06 => GenericInstruction::Void(Instruction { opcode: 0x06, disassembly: "RLC (HL)", byte_size: 2, clock_tick: 16, branch_clock_tick: 16, function: VoidOp::Shift(Shift::Rlc, Loc8::HlAddr) }),
        0x07 => GenericInstruction::Void(Instruction { opcode: 0x07, disassembly: "RLC A", byte_size: 2, clock_tick: 8, branch_clock_tick: 8, function: VoidOp::Shift(Shift::Rlc, Loc8::A) }),
        0x08 => GenericInstruction::Void(Instruction { opcode: 0x08, disassembly: "RRC B", byte_size: 2, clock_tick: 8, branch_clock_tick: 8, function: VoidOp::Shift(Shift::Rrc, Loc8::B) }),
        0x09 => GenericInstruction::Void(Instruction { opcode: 0x09, disassembly: "RRC C", byte_size: 2, clock_tick: 8, branch_clock_tick: 8, function: VoidOp::Shift(Shift::Rrc, Loc8::C) }),
        0x0A => GenericInstruction::Void(Instruction { opcode: 0x0A, disassembly: "RRC D", byte_size: 2, clock_tick: 8, branch_clock_tick: 8, function: VoidOp::Shift(Shift::Rrc, Loc8::D) }),
        0x0B => GenericInstruction::Void(Instruction { opcode: 0x0B, disassembly: "RRC E", byte_size: 2, clock_tick: 8, branch_clock_tick: 8, function: VoidOp::Shift(Shift::Rrc, Loc8::E) }),
        0x0C => GenericInstruction::Void(Instruction { opcode: 0x0C, disassembly: "RRC H", byte_size: 2, clock_tick: 8, branch_clock_tick: 8, function: VoidOp::Shift(Shift::Rrc, Loc8::H) }),
        0x0D => GenericInstruction::Void(Instruction { opcode: 0x0D, disassembly: "RRC L", byte_size: 2, clock_tick: 8, branch_clock_tick: 8, function: VoidOp::Shift(Shift::Rrc, Loc8::L) }),
        0x0E => GenericInstruction::Void(Instruction { opcode: 0x0E, disassembly: "RRC (HL)", byte_size: 2, clock_tick: 16, branch_clock_tick: 16, function: VoidOp::Shift(Shift::Rrc, Loc8::HlAddr) }),
        0x0F => GenericInstruction::Void(Instruction { opcode: 0x0F, disassembly: "RRC A", byte_size: 2, clock_tick: 8, branch_clock_tick: 8, function: VoidOp::Shift(Shift::Rrc, Loc8::A) }),
        0x10 => GenericInstruction::Void(Instruction { opcode: 0x10, disassembly: "RL B", byte_size: 2, clock_tick: 8, branch_clock_tick: 8, function: VoidOp::Shift(Shift::Rl, Loc8::B) }),
        0x11 => GenericInstruction::Void(Instruction { opcode: 0x11, disassembly: "RL C", byte_size: 2, clock_tick: 8, branch_clock_tick: 8, function: VoidOp::Shift(Shift::Rl, Loc8::C) }),
        0x12 => GenericInstruction::Void(Instruction { opcode: 0x12, disassembly: "RL D", byte_size: 2, clock_tick: 8, branch_clock_tick: 8, function: VoidOp::Shift(Shift::Rl, Loc8::D) }),
        0x13 => GenericInstruction::Void(Instruction { opcode: 0x13, disassembly: "RL E", byte_size: 2, clock_tick: 8, branch_clock_tick: 8, function: VoidOp::Shift(Shift::Rl, Loc8::E) }),
        0x14 => GenericInstruction::Void(Instruction { opcode: 0x14, disassembly: "RL H", byte_size: 2, clock_tick: 8, branch_clock_tick: 8, function: VoidOp::Shift(Shift::Rl, Loc8::H) }),
        0x15 => GenericInstruction::Void(Instruction { opcode: 0x15, disassembly: "RL L", byte_size: 2, clock_tick: 8, branch_clock_tick: 8, function: VoidOp::Shift(Shift::Rl, Loc8::L) }),
        0x16 => GenericInstruction::Void(Instruction { opcode: 0x16, disassembly: "RL (HL)", byte_size: 2, clock_tick: 16, branch_clock_tick: 16, function: VoidOp::Shift(Shift::Rl, Loc8::HlAddr) }),
        0x17 => GenericInstruction::Void(Instruction { opcode: 0x17, disassembly: "RL A", byte_size: 2, clock_tick: 8, branch_clock_tick: 8, function: VoidOp::Shift(Shift::Rl, Loc8::A) }),
        0x18 => GenericInstruction::Void(Instruction { opcode: 0x18, disassembly: "RR B", byte_size: 2, clock_tick: 8, branch_clock_tick: 8, function: VoidOp::Shift(Shift::Rr, Loc8::B) }),
        0x19 => GenericInstruction::Void(Instruction { opcode: 0x19, disassembly: "RR C", byte_size: 2, clock_tick: 8, branch_clock_tick: 8, function: VoidOp::Shift(Shift::Rr, Loc8::C) }),
        0x1A => GenericInstruction::Void(Instruction { opcode: 0x1A, disassembly: "RR D", byte_size: 2, clock_tick: 8, branch_clock_tick: 8, function: VoidOp::Shift(Shift::Rr, Loc8::D) }),
        0x1B => GenericInstruction::Void(Instruction { opcode: 0x1B, disassembly: "RR E", byte_size: 2, clock_tick: 8, branch_clock_tick: 8, function: VoidOp::Shift(Shift::Rr, Loc8::E) }),
        0x1C => GenericInstruction::Void(Instruction { opcode: 0x1C, disassembly: "RR H", byte_size: 2, clock_tick: 8, branch_clock_tick: 8, function: VoidOp::Shift(Shift::Rr, Loc8::H) }),
        0x1D => GenericInstruction::Void(Instruction { opcode: 0x1D, disassembly: "RR L", byte_size: 2, clock_tick: 8, branch_clock_tick: 8, function: VoidOp::Shift(Shift::Rr, Loc8::L) }),
        0x1E => GenericInstruction::Void(Instruction { opcode: 0x1E, disassembly: "RR (HL)", byte_size: 2, clock_tick: 16, branch_clock_tick: 16, function: VoidOp::Shift(Shift::Rr, Loc8::HlAddr) }),
        0x1F => GenericInstruction::Void(Instruction { opcode: 0x1F, disassembly: "RR A", byte_size: 2, clock_tick: 8, branch_clock_tick: 8, function: VoidOp::Shift(Shift::Rr, Loc8::A) }),
        0x20 => GenericInstruction::Void(Instruction { opcode: 0x20, disassembly: "SLA B", byte_size: 2, clock_tick: 8, branch_clock_tick: 8, function: VoidOp::Shift(Shift::Sla, Loc8::B) }),
        0x21 => GenericInstruction::Void(Instruction { opcode: 0x21, disassembly: "SLA C", byte_size: 2, clock_tick: 8, branch_clock_tick: 8, function: VoidOp::Shift(Shift::Sla, Loc8::C) }),
        0x22 => GenericInstruction::Void(Instruction { opcode: 0x22, disassembly: "SLA D", byte_size: 2, clock_tick: 8, branch_clock_tick: 8, function: VoidOp::Shift(Shift::Sla, Loc8::D) }),
        0x23 => GenericInstruction::Void(Instruction { opcode: 0x23, disassembly: "SLA E", byte_size: 2, clock_tick: 8, branch_clock_tick: 8, function: VoidOp::Shift(Shift::Sla, Loc8::E) }),
        0x24 => GenericInstruction::Void(Instruction { opcode: 0x24, disassembly: "SLA H", byte_size: 2, clock_tick: 8, branch_clock_tick: 8, function: VoidOp::Shift(Shift::Sla, Loc8::H) }),
        0x25 => GenericInstruction::Void(Instruction { opcode: 0x25, disassembly: "SLA L", byte_size: 2, clock_tick: 8, branch_clock_tick: 8, function: VoidOp::Shift(Shift::Sla, Loc8::L) }),
        0x26 => GenericInstruction::Void(Instruction { opcode: 0x26, disassembly: "SLA (HL)", byte_size: 2, clock_tick: 16, branch_clock_tick: 16, function: VoidOp::Shift(Shift::Sla, Loc8::HlAddr) }),
        0x27 => GenericInstruction::Void(Instruction { opcode: 0x27, disassembly: "SLA A", byte_size: 2, clock_tick: 8, branch_clock_tick: 8, function: VoidOp::Shift(Shift::Sla, Loc8::A) }),
        0x28 => GenericInstruction::Void(Instruction { opcode: 0x28, disassembly: "SRA B", byte_size: 2, clock_tick: 8, branch_clock_tick: 8, function: VoidOp::Shift(Shift::Sra, Loc8::B) }),
        0x29 => GenericInstruction::Void(Instruction { opcode: 0x29, disassembly: "SRA C", byte_size: 2, clock_tick: 8, branch_clock_tick: 8, function: VoidOp::Shift(Shift::Sra, Loc8::C) }),
        0x2A => GenericInstruction::Void(Instruction { opcode: 0x2A, disassembly: "SRA D", byte_size: 2, clock_tick: 8, branch_clock_tick: 8, function: VoidOp::Shift(Shift::Sra, Loc8::D) }),
        0x2B => GenericInstruction::Void(Instruction { opcode: 0x2B, disassembly: "SRA E", byte_size: 2, clock_tick: 8, branch_clock_tick: 8, function: VoidOp::Shift(Shift::Sra, Loc8::E) }),
        0x2C => GenericInstruction::Void(Instruction { opcode: 0x2C, disassembly: "SRA H", byte_size: 2, clock_tick: 8, branch_clock_tick: 8, function: VoidOp::Shift(Shift::Sra, Loc8::H) }),
        0x2D => GenericInstruction::Void(Instruction { opcode: 0x2D, disassembly: "SRA L", byte_size: 2, clock_tick: 8, branch_clock_tick: 8, function: VoidOp::Shift(Shift::Sra, Loc8::L) }),
        0x2E => GenericInstruction::Void(Instruction { opcode: 0x2E, disassembly: "SRA (HL)", byte_size: 2, clock_tick: 16, branch_clock_tick: 16, function: VoidOp::Shift(Shift::Sra, Loc8::HlAddr) }),
        0x2F => GenericInstruction::Void(Instruction { opcode: 0x2F, disassembly: "SRA A", byte_size: 2, clock_tick: 8, branch_clock_tick: 8, function: VoidOp::Shift(Shift::Sra, Loc8::A) }),
        0x30 => GenericInstruction::Void(Instruction { opcode: 0x30, disassembly: "SWAP B", byte_size: 2, clock_tick: 8, branch_clock_tick: 8, function: VoidOp::Shift(Shift::Swap, Loc8::B) }),
        0x31 => GenericInstruction::Void(Instruction { opcode: 0x31, disassembly: "SWAP C", byte_size: 2, clock_tick: 8, branch_clock_tick: 8, function: VoidOp::Shift(Shift::Swap, Loc8::C) }),
        0x32 => GenericInstruction::Void(Instruction { opcode: 0x32, disassembly: "SWAP D", byte_size: 2, clock_tick: 8, branch_clock_tick: 8, function: VoidOp::Shift(Shift::Swap, Loc8::D) }),
        0x33 => GenericInstruction::Void(Instruction { opcode: 0x33, disassembly: "SWAP E", byte_size: 2, clock_tick: 8, branch_clock_tick: 8, function: VoidOp::Shift(Shift::Swap, Loc8::E) }),
        0x34 => GenericInstruction::Void(Instruction { opcode: 0x34, disassembly: "SWAP H", byte_size: 2, clock_tick: 8, branch_clock_tick: 8, function: VoidOp::Shift(Shift::Swap, Loc8::H) }),
        0x35 => GenericInstruction::Void(Instruction { opcode: 0x35, disassembly: "SWAP L", byte_size: 2, clock_tick: 8, branch_clock_tick: 8, function: VoidOp::Shift(Shift::Swap, Loc8::L) }),
        0x36 => GenericInstruction::Void(Instruction { opcode: 0x36, disassembly: "SWAP (HL)", byte_size: 2, clock_tick: 16, branch_clock_tick: 16, function: VoidOp::Shift(Shift::Swap, Loc8::HlAddr) }),
        0x37 => GenericInstruction::Void(Instruction { opcode: 0x37, disassembly: "SWAP A", byte_size: 2, clock_tick: 8, branch_clock_tick: 8, function: VoidOp::Shift(Shift::Swap, Loc8::A) }),
        0x38 => GenericInstruction::Void(Instruction { opcode: 0x38, disassembly: "SRL B", byte_size: 2, clock_tick: 8, branch_clock_tick: 8, function: VoidOp::Shift(Shift::Srl, Loc8::B) }),
        0x39 => GenericInstruction::Void(Instruction { opcode: 0x39, disassembly: "SRL C", byte_size: 2, clock_tick: 8, branch_clock_tick: 8, function: VoidOp::Shift(Shift::Srl, Loc8::C) }),
        0x3A => GenericInstruction::Void(Instruction { opcode: 0x3A, disassembly: "SRL D", byte_size: 2, clock_tick: 8, branch_clock_tick: 8, function: VoidOp::Shift(Shift::Srl, Loc8::D) }),
        0x3B => GenericInstruction::Void(Instruction { opcode: 0x3B, disassembly: "SRL E", byte_size: 2, clock_tick: 8, branch_clock_tick: 8, function: VoidOp::Shift(Shift::Srl, Loc8::E) }),
        0x3C => GenericInstruction::Void(Instruction { opcode: 0x3C, disassembly: "SRL H", byte_size: 2, clock_tick: 8, branch_clock_tick: 8, function: VoidOp::Shift(Shift::Srl, Loc8::H) }),
        0x3D => GenericInstruction::Void(Instruction { opcode: 0x3D, disassembly: "SRL L", byte_size: 2, clock_tick: 8, branch_clock_tick: 8, function: VoidOp::Shift(Shift::Srl, Loc8::L) }),
        0x3E => GenericInstruction::Void(Instruction { opcode: 0x3E, disassembly: "SRL (HL)", byte_size: 2, clock_tick: 16, branch_clock_tick: 16, function: VoidOp::Shift(Shift::Srl, Loc8::HlAddr) }),
        0x3F => GenericInstruction::Void(Instruction { opcode: 0x3F, disassembly: "SRL A", byte_size: 2, clock_tick: 8, branch_clock_tick: 8, function: VoidOp::Shift(Shift::Srl, Loc8::A) }),
        0x40 => GenericInstruction::Void(Instruction { opcode: 0x40, disassembly: "BIT 0, B", byte_size: 2, clock_tick: 8, branch_clock_tick: 8, function: VoidOp::TestBit(0, Loc8::B) }),
        0x41 => GenericInstruction::Void(Instruction { opcode: 0x41, disassembly: "BIT 0, C", byte_size: 2, clock_tick: 8, branch_clock_tick: 8, function: VoidOp::TestBit(0, Loc8::C) }),
        0x42 => GenericInstruction::Void(Instruction { opcode: 0x42, disassembly: "BIT 0, D", byte_size: 2, clock_tick: 8, branch_clock_tick: 8, function: VoidOp::TestBit(0, Loc8::D) }),
        0x43 => GenericInstruction::Void(Instruction { opcode: 0x43, disassembly: "BIT 0, E", byte_size: 2, clock_tick: 8, branch_clock_tick: 8, function: VoidOp::TestBit(0, Loc8::E) }),
        0x44 => GenericInstruction::Void(Instruction { opcode: 0x44, disassembly: "BIT 0, H", byte_size: 2, clock_tick: 8, branch_clock_tick: 8, function: VoidOp::TestBit(0, Loc8::H) }),
        0x45 => GenericInstruction::Void(Instruction { opcode: 0x45, disassembly: "BIT 0, L", byte_size: 2, clock_tick: 8, branch_clock_tick: 8, function: VoidOp::TestBit(0, Loc8::L) }),
        0x46 => GenericInstruction::Void(Instruction { opcode: 0x46, disassembly: "BIT 0, (HL)", byte_size: 2, clock_tick: 12, branch_clock_tick: 12, function: VoidOp::TestBit(0, Loc8::HlAddr) }),
        0x47 => GenericInstruction::Void(Instruction { opcode: 0x47, disassembly: "BIT 0, A", byte_size: 2, clock_tick: 8, branch_clock_tick: 8, function: VoidOp::TestBit(0, Loc8::A) }),
        0x48 => GenericInstruction::Void(Instruction { opcode: 0x48, disassembly: "BIT 1, B", byte_size: 2, clock_tick: 8, branch_clock_tick: 8, function: VoidOp::TestBit(1, Loc8::B) }),
        0x49 => GenericInstruction::Void(Instruction { opcode: 0x49, disassembly: "BIT 1, C", byte_size: 2, clock_tick: 8, branch_clock_tick: 8, function: VoidOp::TestBit(1, Loc8::C) }),
        0x4A => GenericInstruction::Void(Instruction { opcode: 0x4A, disassembly: "BIT 1, D", byte_size: 2, clock_tick: 8, branch_clock_tick: 8, function: VoidOp::TestBit(1, Loc8::D) }),
        0x4B => GenericInstruction::Void(Instruction { opcode: 0x4B, disassembly: "BIT 1, E", byte_size: 2, clock_tick: 8, branch_clock_tick: 8, function: VoidOp::TestBit(1, Loc8::E) }),
        0x4C => GenericInstruction::Void(Instruction { opcode: 0x4C, disassembly: "BIT 1, H", byte_size: 2, clock_tick: 8, branch_clock_tick: 8, function: VoidOp::TestBit(1, Loc8::H) }),
        0x4D => GenericInstruction::Void(Instruction { opcode: 0x4D, disassembly: "BIT 1, L", byte_size: 2, clock_tick: 8, branch_clock_tick: 8, function: VoidOp::TestBit(1, Loc8::L) }),
        0x4E => GenericInstruction::Void(Instruction { opcode: 0x4E, disassembly: "BIT 1, (HL)", byte_size: 2, clock_tick: 12, branch_clock_tick: 12, function: VoidOp::TestBit(1, Loc8::HlAddr) }),
        0x4F => GenericInstruction::Void(Instruction { opcode: 0x4F, disassembly: "BIT 1, A", byte_size: 2, clock_tick: 8, branch_clock_tick: 8, function: VoidOp::TestBit(1, Loc8::A) }),
        0x50 => GenericInstruction::Void(Instruction { opcode: 0x50, disassembly: "BIT 2, B", byte_size: 2, clock_tick: 8, branch_clock_tick: 8, function: VoidOp::TestBit(2, Loc8::B) }),
        0x51 => GenericInstruction::Void(Instruction { opcode: 0x51, disassembly: "BIT 2, C", byte_size: 2, clock_tick: 8, branch_clock_tick: 8, function: VoidOp::TestBit(2, Loc8::C) }),
        0x52 => GenericInstruction::Void(Instruction { opcode: 0x52, disassembly: "BIT 2, D", byte_size: 2, clock_tick: 8, branch_clock_tick: 8, function: VoidOp::TestBit(2, Loc8::D) }),
        0x53 => GenericInstruction::Void(Instruction { opcode: 0x53, disassembly: "BIT 2, E", byte_size: 2, clock_tick: 8, branch_clock_tick: 8, function: VoidOp::TestBit(2, Loc8::E) }),
        0x54 => GenericInstruction::Void(Instruction { opcode: 0x54, disassembly: "BIT 2, H", byte_size: 2, clock_tick: 8, branch_clock_tick: 8, function: VoidOp::TestBit(2, Loc8::H) }),
        0x55 => GenericInstruction::Void(Instruction { opcode: 0x55, disassembly: "BIT 2, L", byte_size: 2, clock_tick: 8, branch_clock_tick: 8, function: VoidOp::TestBit(2, Loc8::L) }),
        0x56 => GenericInstruction::Void(Instruction { opcode: 0x56, disassembly: "BIT 2, (HL)", byte_size: 2, clock_tick: 12, branch_clock_tick: 12, function: VoidOp::TestBit(2, Loc8::HlAddr) }),
        0x57 => GenericInstruction::Void(Instruction { opcode: 0x57, disassembly: "BIT 2, A", byte_size: 2, clock_tick: 8, branch_clock_tick: 8, function: VoidOp::TestBit(2, Loc8::A) }),
        0x58 => GenericInstruction::Void(Instruction { opcode: 0x58, disassembly: "BIT 3, B", byte_size: 2, clock_tick: 8, branch_clock_tick: 8, function: VoidOp::TestBit(3, Loc8::B) }),
        0x59 => GenericInstruction::Void(Instruction { opcode: 0x59, disassembly: "BIT 3, C", byte_size: 2, clock_tick: 8, branch_clock_tick: 8, function: VoidOp::TestBit(3, Loc8::C) }),
        0x5A => GenericInstruction::Void(Instruction { opcode: 0x5A, disassembly: "BIT 3, D", byte_size: 2, clock_tick: 8, branch_clock_tick: 8, function: VoidOp::TestBit(3, Loc8::D) }),
        0x5B => GenericInstruction::Void(Instruction { opcode: 0x5B, disassembly: "BIT 3, E", byte_size: 2, clock_tick: 8, branch_clock_tick: 8, function: VoidOp::TestBit(3, Loc8::E) }),
        0x5C => GenericInstruction::Void(Instruction { opcode: 0x5C, disassembly: "BIT 3, H", byte_size: 2, clock_tick: 8, branch_clock_tick: 8, function: VoidOp::TestBit(3, Loc8::H) }),
        0x5D => GenericInstruction::Void(Instruction { opcode: 0x5D, disassembly: "BIT 3, L", byte_size: 2, clock_tick: 8, branch_clock_tick: 8, function: VoidOp::TestBit(3, Loc8::L) }),
        0x5E => GenericInstruction::Void(Instruction { opcode: 0x5E, disassembly: "BIT 3, (HL)", byte_size: 2, clock_tick: 12, branch_clock_tick: 12, function: VoidOp::TestBit(3, Loc8::HlAddr) }),
        0x5F => GenericInstruction::Void(Instruction { opcode: 0x5F, disassembly: "BIT 3, A", byte_size: 2, clock_tick: 8, branch_clock_tick: 8, function: VoidOp::TestBit(3, Loc8::A) }),
        0x60 => GenericInstruction::Void(Instruction { opcode: 0x60, disassembly: "BIT 4, B", byte_size: 2, clock_tick: 8, branch_clock_tick: 8, function: VoidOp::TestBit(4, Loc8::B) }),
        0x61 => GenericInstruction::Void(Instruction { opcode: 0x61, disassembly: "BIT 4, C", byte_size: 2, clock_tick: 8, branch_clock_tick: 8, function: VoidOp::TestBit(4, Loc8::C) }),
        0x62 => GenericInstruction::Void(Instruction { opcode: 0x62, disassembly: "BIT 4, D", byte_size: 2, clock_tick: 8, branch_clock_tick: 8, function: VoidOp::TestBit(4, Loc8::D) }),
        0x63 => GenericInstruction::Void(Instruction { opcode: 0x63, disassembly: "BIT 4, E", byte_size: 2, clock_tick: 8, branch_clock_tick: 8, function: VoidOp::TestBit(4, Loc8::E) }),
        0x64 => GenericInstruction::Void(Instruction { opcode: 0x64, disassembly: "BIT 4, H", byte_size: 2, clock_tick: 8, branch_clock_tick: 8, function: VoidOp::TestBit(4, Loc8::H) }),
        0x65 => GenericInstruction::Void(Instruction { opcode: 0x65, disassembly: "BIT 4, L", byte_size: 2, clock_tick: 8, branch_clock_tick: 8, function: VoidOp::TestBit(4, Loc8::L) }),
        0x66 => GenericInstruction::Void(Instruction { opcode: 0x66, disassembly: "BIT 4, (HL)", byte_size: 2, clock_tick: 12, branch_clock_tick: 12, function: VoidOp::TestBit(4, Loc8::HlAddr) }),
        0x67 => GenericInstruction::Void(Instruction { opcode: 0x67, disassembly: "BIT 4, A", byte_size: 2, clock_tick: 8, branch_clock_tick: 8, function: VoidOp::TestBit(4, Loc8::A) }),
        0x68 => GenericInstruction::Void(Instruction { opcode: 0x68, disassembly: "BIT 5, B", byte_size: 2, clock_tick: 8, branch_clock_tick: 8, function: VoidOp::TestBit(5, Loc8::B) }),
        0x69 => GenericInstruction::Void(Instruction { opcode: 0x69, disassembly: "BIT 5, C", byte_size: 2, clock_tick: 8, branch_clock_tick: 8, function: VoidOp::TestBit(5, Loc8::C) }),
        0x6A => GenericInstruction::Void(Instruction { opcode: 0x6A, disassembly: "BIT 5, D", byte_size: 2, clock_tick: 8, branch_clock_tick: 8, function: VoidOp::TestBit(5, Loc8::D) }),
        0x6B => GenericInstruction::Void(Instruction { opcode: 0x6B, disassembly: "BIT 5, E", byte_size: 2, clock_tick: 8, branch_clock_tick: 8, function: VoidOp::TestBit(5, Loc8::E) }),
        0x6C => GenericInstruction::Void(Instruction { opcode: 0x6C, disassembly: "BIT 5, H", byte_size: 2, clock_tick: 8, branch_clock_tick: 8, function: VoidOp::TestBit(5, Loc8::H) }),
        0x6D => GenericInstruction::Void(Instruction { opcode: 0x6D, disassembly: "BIT 5, L", byte_size: 2, clock_tick: 8, branch_clock_tick: 8, function: VoidOp::TestBit(5, Loc8::L) }),
        0x6E => GenericInstruction::Void(Instruction { opcode: 0x6E, disassembly: "BIT 5, (HL)", byte_size: 2, clock_tick: 12, branch_clock_tick: 12, function: VoidOp::TestBit(5, Loc8::HlAddr) }),
        0x6F => GenericInstruction::Void(Instruction { opcode: 0x6F, disassembly: "BIT 5, A", byte_size: 2, clock_tick: 8, branch_clock_tick: 8, function: VoidOp::TestBit(5, Loc8::A) }),
        0x70 => GenericInstruction::Void(Instruction { opcode: 0x70, disassembly: "BIT 6, B", byte_size: 2, clock_tick: 8, branch_clock_tick: 8, function: VoidOp::TestBit(6, Loc8::B) }),
        0x71 => GenericInstruction::Void(Instruction { opcode: 0x71, disassembly: "BIT 6, C", byte_size: 2, clock_tick: 8, branch_clock_tick: 8, function: VoidOp::TestBit(6, Loc8::C) }),
        0x72 => GenericInstruction::Void(Instruction { opcode: 0x72, disassembly: "BIT 6, D", byte_size: 2, clock_tick: 8, branch_clock_tick: 8, function: VoidOp::TestBit(6, Loc8::D) }),
        0x73 => GenericInstruction::Void(Instruction { opcode: 0x73, disassembly: "BIT 6, E", byte_size: 2, clock_tick: 8, branch_clock_tick: 8, function: VoidOp::TestBit(6, Loc8::E) }),
        0x74 => GenericInstruction::Void(Instruction { opcode: 0x74, disassembly: "BIT 6, H", byte_size: 2, clock_tick: 8, branch_clock_tick: 8, function: VoidOp::TestBit(6, Loc8::H) }),
        0x75 => GenericInstruction::Void(Instruction { opcode: 0x75, disassembly: "BIT 6, L", byte_size: 2, clock_tick: 8, branch_clock_tick: 8, function: VoidOp::TestBit(6, Loc8::L) }),
        0x76 => GenericInstruction::Void(Instruction { opcode: 0x76, disassembly: "BIT 6, (HL)", byte_size: 2, clock_tick: 12, branch_clock_tick: 12, function: VoidOp::TestBit(6, Loc8::HlAddr) }),
        0x77 => GenericInstruction::Void(Instruction { opcode: 0x77, disassembly: "BIT 6, A", byte_size: 2, clock_tick: 8, branch_clock_tick: 8, function: VoidOp::TestBit(6, Loc8::A) }),
        0x78 => GenericInstruction::Void(Instruction { opcode: 0x78, disassembly: "BIT 7, B", byte_size: 2, clock_tick: 8, branch_clock_tick: 8, function: VoidOp::TestBit(7, Loc8::B) }),
        0x79 => GenericInstruction::Void(Instruction { opcode: 0x79, disassembly: "BIT 7, C", byte_size: 2, clock_tick: 8, branch_clock_tick: 8, function: VoidOp::TestBit(7, Loc8::C) }),
        0x7A => GenericInstruction::Void(Instruction { opcode: 0x7A, disassembly: "BIT 7, D", byte_size: 2, clock_tick: 8, branch_clock_tick: 8, function: VoidOp::TestBit(7, Loc8::D) }),
        0x7B => GenericInstruction::Void(Instruction { opcode: 0x7B, disassembly: "BIT 7, E", byte_size: 2, clock_tick: 8, branch_clock_tick: 8, function: VoidOp::TestBit(7, Loc8::E) }),
        0x7C => GenericInstruction::Void(Instruction { opcode: 0x7C, disassembly: "BIT 7, H", byte_size: 2, clock_tick: 8, branch_clock_tick: 8, function: VoidOp::TestBit(7, Loc8::H) }),
        0x7D => GenericInstruction::Void(Instruction { opcode: 0x7D, disassembly: "BIT 7, L", byte_size: 2, clock_tick: 8, branch_clock_tick: 8, function: VoidOp::TestBit(7, Loc8::L) }),
        0x7E => GenericInstruction::Void(Instruction { opcode: 0x7E, disassembly: "BIT 7, (HL)", byte_size: 2, clock_tick: 12, branch_clock_tick: 12, function: VoidOp::TestBit(7, Loc8::HlAddr) }),
        0x7F => GenericInstruction::Void(Instruction { opcode: 0x7F, disassembly: "BIT 7, A", byte_size: 2, clock_tick: 8, branch_clock_tick: 8, function: VoidOp::TestBit(7, Loc8::A) }),
        0x80 => GenericInstruction::Void(Instruction { opcode: 0x80, disassembly: "RES 0, B", byte_size: 2, clock_tick: 8, branch_clock_tick: 8, function: VoidOp::ResetBit(0, Loc8::B) }),
        0x81 => GenericInstruction::Void(Instruction { opcode: 0x81, disassembly: "RES 0, C", byte_size: 2, clock_tick: 8, branch_clock_tick: 8, function: VoidOp::ResetBit(0, Loc8::C) }),
        0x82 => GenericInstruction::Void(Instruction { opcode: 0x82, disassembly: "RES 0, D", byte_size: 2, clock_tick: 8, branch_clock_tick: 8, function: VoidOp::ResetBit(0, Loc8::D) }),
        0x83 => GenericInstruction::Void(Instruction { opcode: 0x83, disassembly: "RES 0, E", byte_size: 2, clock_tick: 8, branch_clock_tick: 8, function: VoidOp::ResetBit(0, Loc8::E) }),
        0x84 => GenericInstruction::Void(Instruction { opcode: 0x84, disassembly: "RES 0, H", byte_size: 2, clock_tick: 8, branch_clock_tick: 8, function: VoidOp::ResetBit(0, Loc8::H) }),
        0x85 => GenericInstruction::Void(Instruction { opcode: 0x85, disassembly: "RES 0, L", byte_size: 2, clock_tick: 8, branch_clock_tick: 8, function: VoidOp::ResetBit(0, Loc8::L) }),
        0x86 => GenericInstruction::Void(Instruction { opcode: 0x86, disassembly: "RES 0, (HL)", byte_size: 2, clock_tick: 16, branch_clock_tick: 16, function: VoidOp::ResetBit(0, Loc8::HlAddr) }),
        0x87 => GenericInstruction::Void(Instruction { opcode: 0x87, disassembly: "RES 0, A", byte_size: 2, clock_tick: 8, branch_clock_tick: 8, function: VoidOp::ResetBit(0, Loc8::A) }),
        0x88 => GenericInstruction::Void(Instruction { opcode: 0x88, disassembly: "RES 1, B", byte_size: 2, clock_tick: 8, branch_clock_tick: 8, function: VoidOp::ResetBit(1, Loc8::B) }),
        0x89 => GenericInstruction::Void(Instruction { opcode: 0x89, disassembly: "RES 1, C", byte_size: 2, clock_tick: 8, branch_clock_tick: 8, function: VoidOp::ResetBit(1, Loc8::C) }),
        0x8A => GenericInstruction::Void(Instruction { opcode: 0x8A, disassembly: "RES 1, D", byte_size: 2, clock_tick: 8, branch_clock_tick: 8, function: VoidOp::ResetBit(1, Loc8::D) }),
        0x8B => GenericInstruction::Void(Instruction { opcode: 0x8B, disassembly: "RES 1, E", byte_size: 2, clock_tick: 8, branch_clock_tick: 8, function: VoidOp::ResetBit(1, Loc8::E) }),
        0x8C => GenericInstruction::Void(Instruction { opcode: 0x8C, disassembly: "RES 1, H", byte_size: 2, clock_tick: 8, branch_clock_tick: 8, function: VoidOp::ResetBit(1, Loc8::H) }),
        0x8D => GenericInstruction::Void(Instruction { opcode: 0x8D, disassembly: "RES 1, L", byte_size: 2, clock_tick: 8, branch_clock_tick: 8, function: VoidOp::ResetBit(1, Loc8::L) }),
        0x8E => GenericInstruction::Void(Instruction { opcode: 0x8E, disassembly: "RES 1, (HL)", byte_size: 2, clock_tick: 16, branch_clock_tick: 16, function: VoidOp::ResetBit(1, Loc8::HlAddr) }),
        0x8F => GenericInstruction::Void(Instruction { opcode: 0x8F, disassembly: "RES 1, A", byte_size: 2, clock_tick: 8, branch_clock_tick: 8, function: VoidOp::ResetBit(1, Loc8::A) }),
        0x90 => GenericInstruction::Void(Instruction { opcode: 0x90, disassembly: "RES 2, B", byte_size: 2, clock_tick: 8, branch_clock_tick: 8, function: VoidOp::ResetBit(2, Loc8::B) }),
        0x91 => GenericInstruction::Void(Instruction { opcode: 0x91, disassembly: "RES 2, C", byte_size: 2, clock_tick: 8, branch_clock_tick: 8, function: VoidOp::ResetBit(2, Loc8::C) }),
        0x92 => GenericInstruction::Void(Instruction { opcode: 0x92, disassembly: "RES 2, D", byte_size: 2, clock_tick: 8, branch_clock_tick: 8, function: VoidOp::ResetBit(2, Loc8::D) }),
        0x93 => GenericInstruction::Void(Instruction { opcode: 0x93, disassembly: "RES 2, E", byte_size: 2, clock_tick: 8, branch_clock_tick: 8, function: VoidOp::ResetBit(2, Loc8::E) }),
        0x94 => GenericInstruction::Void(Instruction { opcode: 0x94, disassembly: "RES 2, H", byte_size: 2, clock_tick: 8, branch_clock_tick: 8, function: VoidOp::ResetBit(2, Loc8::H) }),
        0x95 => GenericInstruction::Void(Instruction { opcode: 0x95, disassembly: "RES 2, L", byte_size: 2, clock_tick: 8, branch_clock_tick: 8, function: VoidOp::ResetBit(2, Loc8::L) }),
        0x96 => GenericInstruction::Void(Instruction { opcode: 0x96, disassembly: "RES 2, (HL)", byte_size: 2, clock_tick: 16, branch_clock_tick: 16, function: VoidOp::ResetBit(2, Loc8::HlAddr) }),
        0x97 => GenericInstruction::Void(Instruction { opcode: 0x97, disassembly: "RES 2, A", byte_size: 2, clock_tick: 8, branch_clock_tick: 8, function: VoidOp::ResetBit(2, Loc8::A) }),
        0x98 => GenericInstruction::Void(Instruction { opcode: 0x98, disassembly: "RES 3, B", byte_size: 2, clock_tick: 8, branch_clock_tick: 8, function: VoidOp::ResetBit(3, Loc8::B) }),
        0x99 => GenericInstruction::Void(Instruction { opcode: 0x99, disassembly: "RES 3, C", byte_size: 2, clock_tick: 8, branch_clock_tick: 8, function: VoidOp::ResetBit(3, Loc8::C) }),
        0x9A => GenericInstruction::Void(Instruction { opcode: 0x9A, disassembly: "RES 3, D", byte_size: 2, clock_tick: 8, branch_clock_tick: 8, function: VoidOp::ResetBit(3, Loc8::D) }),
        0x9B => GenericInstruction::Void(Instruction { opcode: 0x9B, disassembly: "RES 3, E", byte_size: 2, clock_tick: 8, branch_clock_tick: 8, function: VoidOp::ResetBit(3, Loc8::E) }),
        0x9C => GenericInstruction::Void(Instruction { opcode: 0x9C, disassembly: "RES 3, H", byte_size: 2, clock_tick: 8, branch_clock_tick: 8, function: VoidOp::ResetBit(3, Loc8::H) }),
        0x9D => GenericInstruction::Void(Instruction { opcode: 0x9D, disassembly: "RES 3, L", byte_size: 2, clock_tick: 8, branch_clock_tick: 8, function: VoidOp::ResetBit(3, Loc8::L) }),
        0x9E => GenericInstruction::Void(Instruction { opcode: 0x9E, disassembly: "RES 3, (HL)", byte_size: 2, clock_tick: 16, branch_clock_tick: 16, function: VoidOp::ResetBit(3, Loc8::HlAddr) }),
        0x9F => GenericInstruction::Void(Instruction { opcode: 0x9F, disassembly: "RES 3, A", byte_size: 2, clock_tick: 8, branch_clock_tick: 8, function: VoidOp::ResetBit(3, Loc8::A) }),
        0xA0 => GenericInstruction::Void(Instruction { opcode: 0xA0, disassembly: "RES 4, B", byte_size: 2, clock_tick: 8, branch_clock_tick: 8, function: VoidOp::ResetBit(4, Loc8::B) }),
        0xA1 => GenericInstruction::Void(Instruction { opcode: 0xA1, disassembly: "RES 4, C", byte_size: 2, clock_tick: 8, branch_clock_tick: 8, function: VoidOp::ResetBit(4, Loc8::C) }),
        0xA2 => GenericInstruction::Void(Instruction { opcode: 0xA2, disassembly: "RES 4, D", byte_size: 2, clock_tick: 8, branch_clock_tick: 8, function: VoidOp::ResetBit(4, Loc8::D) }),
        0xA3 => GenericInstruction::Void(Instruction { opcode: 0xA3, disassembly: "RES 4, E", byte_size: 2, clock_tick: 8, branch_clock_tick: 8, function: VoidOp::ResetBit(4, Loc8::E) }),
        0xA4 => GenericInstruction::Void(Instruction { opcode: 0xA4, disassembly: "RES 4, H", byte_size: 2, clock_tick: 8, branch_clock_tick: 8, function: VoidOp::ResetBit(4, Loc8::H) }),
        0xA5 => GenericInstruction::Void(Instruction { opcode: 0xA5, disassembly: "RES 4, L", byte_size: 2, clock_tick: 8, branch_clock_tick: 8, function: VoidOp::ResetBit(4, Loc8::L) }),
        0xA6 => GenericInstruction::Void(Instruction { opcode: 0xA6, disassembly: "RES 4, (HL)", byte_size: 2, clock_tick: 16, branch_clock_tick: 16, function: VoidOp::ResetBit(4, Loc8::HlAddr) }),
        0xA7 => GenericInstruction::Void(Instruction { opcode: 0xA7, disassembly: "RES 4, A", byte_size: 2, clock_tick: 8, branch_clock_tick: 8, function: VoidOp::ResetBit(4, Loc8::A) }),
        0xA8 => GenericInstruction::Void(Instruction { opcode: 0xA8, disassembly: "RES 5, B", byte_size: 2, clock_tick: 8, branch_clock_tick: 8, function: VoidOp::ResetBit(5, Loc8::B) }),
        0xA9 => GenericInstruction::Void(Instruction { opcode: 0xA9, disassembly: "RES 5, C", byte_size: 2, clock_tick: 8, branch_clock_tick: 8, function: VoidOp::ResetBit(5, Loc8::C) }),
        0xAA => GenericInstruction::Void(Instruction { opcode: 0xAA, disassembly: "RES 5, D", byte_size: 2, clock_tick: 8, branch_clock_tick: 8, function: VoidOp::ResetBit(5, Loc8::D) }),
        0xAB => GenericInstruction::Void(Instruction { opcode: 0xAB, disassembly: "RES 5, E", byte_size: 2, clock_tick: 8, branch_clock_tick: 8, function: VoidOp::ResetBit(5, Loc8::E) }),
        0xAC => GenericInstruction::Void(Instruction { opcode: 0xAC, disassembly: "RES 5, H", byte_size: 2, clock_tick: 8, branch_clock_tick: 8, function: VoidOp::ResetBit(5, Loc8::H) }),
        0xAD => GenericInstruction::Void(Instruction { opcode: 0xAD, disassembly: "RES 5, L", byte_size: 2, clock_tick: 8, branch_clock_tick: 8, function: VoidOp::ResetBit(5, Loc8::L) }),
        0xAE => GenericInstruction::Void(Instruction { opcode: 0xAE, disassembly: "RES 5, (HL)", byte_size: 2, clock_tick: 16, branch_clock_tick: 16, function: VoidOp::ResetBit(5, Loc8::HlAddr) }),
        0xAF => GenericInstruction::Void(Instruction { opcode: 0xAF, disassembly: "RES 5, A", byte_size: 2, clock_tick: 8, branch_clock_tick: 8, function: VoidOp::ResetBit(5, Loc8::A) }),
        0xB0 => GenericInstruction::Void(Instruction { opcode: 0xB0, disassembly: "RES 6, B", byte_size: 2, clock_tick: 8, branch_clock_tick: 8, function: VoidOp::ResetBit(6, Loc8::B) }),
        0xB1 => GenericInstruction::Void(Instruction { opcode: 0xB1, disassembly: "RES 6, C", byte_size: 2, clock_tick: 8, branch_clock_tick: 8, function: VoidOp::ResetBit(6, Loc8::C) }),
        0xB2 => GenericInstruction::Void(Instruction { opcode: 0xB2, disassembly: "RES 6, D", byte_size: 2, clock_tick: 8, branch_clock_tick: 8, function: VoidOp::ResetBit(6, Loc8::D) }),
        0xB3 => GenericInstruction::Void(Instruction { opcode: 0xB3, disassembly: "RES 6, E", byte_size: 2, clock_tick: 8, branch_clock_tick: 8, function: VoidOp::ResetBit(6, Loc8::E) }),
        0xB4 => GenericInstruction::Void(Instruction { opcode: 0xB4, disassembly: "RES 6, H", byte_size: 2, clock_tick: 8, branch_clock_tick: 8, function: VoidOp::ResetBit(6, Loc8::H) }),
        0xB5 => GenericInstruction::Void(Instruction { opcode: 0xB5, disassembly: "RES 6, L", byte_size: 2, clock_tick: 8, branch_clock_tick: 8, function: VoidOp::ResetBit(6, Loc8::L) }),
        0xB6 => GenericInstruction::Void(Instruction { opcode: 0xB6, disassembly: "RES 6, (HL)", byte_size: 2, clock_tick: 16, branch_clock_tick: 16, function: VoidOp::ResetBit(6, Loc8::HlAddr) }),
        0xB7 => GenericInstruction::Void(Instruction { opcode: 0xB7, disassembly: "RES 6, A", byte_size: 2, clock_tick: 8, branch_clock_tick: 8, function: VoidOp::ResetBit(6, Loc8::A) }),
        0xB8 => GenericInstruction::Void(Instruction { opcode: 0xB8, disassembly: "RES 7, B", byte_size: 2, clock_tick: 8, branch_clock_tick: 8, function: VoidOp::ResetBit(7, Loc8::B) }),
        0xB9 => GenericInstruction::Void(Instruction { opcode: 0xB9, disassembly: "RES 7, C", byte_size: 2, clock_tick: 8, branch_clock_tick: 8, function: VoidOp::ResetBit(7, Loc8::C) }),
        0xBA => GenericInstruction::Void(Instruction { opcode: 0xBA, disassembly: "RES 7, D", byte_size: 2, clock_tick: 8, branch_clock_tick: 8, function: VoidOp::ResetBit(7, Loc8::D) }),
        0xBB => GenericInstruction::Void(Instruction { opcode: 0xBB, disassembly: "RES 7, E", byte_size: 2, clock_tick: 8, branch_clock_tick: 8, function: VoidOp::ResetBit(7, Loc8::E) }),
        0xBC => GenericInstruction::Void(Instruction { opcode: 0xBC, disassembly: "RES 7, H", byte_size: 2, clock_tick: 8, branch_clock_tick: 8, function: VoidOp::ResetBit(7, Loc8::H) }),
        0xBD => GenericInstruction::Void(Instruction { opcode: 0xBD, disassembly: "RES 7, L", byte_size: 2, clock_tick: 8, branch_clock_tick: 8, function: VoidOp::ResetBit(7, Loc8::L) }),
        0xBE => GenericInstruction::Void(Instruction { opcode: 0xBE, disassembly: "RES 7, (HL)", byte_size: 2, clock_tick: 16, branch_clock_tick: 16, function: VoidOp::ResetBit(7, Loc8::HlAddr) }),
        0xBF => GenericInstruction::Void(Instruction { opcode: 0xBF, disassembly: "RES 7, A", byte_size: 2, clock_tick: 8, branch_clock_tick: 8, function: VoidOp::ResetBit(7, Loc8::A) }),
        0xC0 => GenericInstruction::Void(Instruction { opcode: 0xC0, disassembly: "SET 0, B", byte_size: 2, clock_tick: 8, branch_clock_tick: 8, function: VoidOp::SetBit(0, Loc8::B) }),
        0xC1 => GenericInstruction::Void(Instruction { opcode: 0xC1, disassembly: "SET 0, C", byte_size: 2, clock_tick: 8, branch_clock_tick: 8, function: VoidOp::SetBit(0, Loc8::C) }),
        0xC2 => GenericInstruction::Void(Instruction { opcode: 0xC2, disassembly: "SET 0, D", byte_size: 2, clock_tick: 8, branch_clock_tick: 8, function: VoidOp::SetBit(0, Loc8::D) }),
        0xC3 => GenericInstruction::Void(Instruction { opcode: 0xC3, disassembly: "SET 0, E", byte_size: 2, clock_tick: 8, branch_clock_tick: 8, function: VoidOp::SetBit(0, Loc8::E) }),
        0xC4 => GenericInstruction::Void(Instruction { opcode: 0xC4, disassembly: "SET 0, H", byte_size: 2, clock_tick: 8, branch_clock_tick: 8, function: VoidOp::SetBit(0, Loc8::H) }),
        0xC5 => GenericInstruction::Void(Instruction { opcode: 0xC5, disassembly: "SET 0, L", byte_size: 2, clock_tick: 8, branch_clock_tick: 8, function: VoidOp::SetBit(0, Loc8::L) }),
        0xC6 => GenericInstruction::Void(Instruction { opcode: 0xC6, disassembly: "SET 0, (HL)", byte_size: 2, clock_tick: 16, branch_clock_tick: 16, function: VoidOp::SetBit(0, Loc8::HlAddr) }),
        0xC7 => GenericInstruction::Void(Instruction { opcode: 0xC7, disassembly: "SET 0, A", byte_size: 2, clock_tick: 8, branch_clock_tick: 8, function: VoidOp::SetBit(0, Loc8::A) }),
        0xC8 => GenericInstruction::Void(Instruction { opcode: 0xC8, disassembly: "SET 1, B", byte_size: 2, clock_tick: 8, branch_clock_tick: 8, function: VoidOp::SetBit(1, Loc8::B) }),
        0xC9 => GenericInstruction::Void(Instruction { opcode: 0xC9, disassembly: "SET 1, C", byte_size: 2, clock_tick: 8, branch_clock_tick: 8, function: VoidOp::SetBit(1, Loc8::C) }),
        0xCA => GenericInstruction::Void(Instruction { opcode: 0xCA, disassembly: "SET 1, D", byte_size: 2, clock_tick: 8, branch_clock_tick: 8, function: VoidOp::SetBit(1, Loc8::D) }),
        0xCB => GenericInstruction::Void(Instruction { opcode: 0xCB, disassembly: "SET 1, E", byte_size: 2, clock_tick: 8, branch_clock_tick: 8, function: VoidOp::SetBit(1, Loc8::E) }),
        0xCC => GenericInstruction::Void(Instruction { opcode: 0xCC, disassembly: "SET 1, H", byte_size: 2, clock_tick: 8, branch_clock_tick: 8, function: VoidOp::SetBit(1, Loc8::H) }),
        0xCD => GenericInstruction::Void(Instruction { opcode: 0xCD, disassembly: "SET 1, L", byte_size: 2, clock_tick: 8, branch_clock_tick: 8, function: VoidOp::SetBit(1, Loc8::L) }),
        0xCE => GenericInstruction::Void(Instruction { opcode: 0xCE, disassembly: "SET 1, (HL)", byte_size: 2, clock_tick: 16, branch_clock_tick: 16, function: VoidOp::SetBit(1, Loc8::HlAddr) }),
        0xCF => GenericInstruction::Void(Instruction { opcode: 0xCF, disassembly: "SET 1, A", byte_size: 2, clock_tick: 8, branch_clock_tick: 8, function: VoidOp::SetBit(1, Loc8::A) }),
        0xD0 => GenericInstruction::Void(Instruction { opcode: 0xD0, disassembly: "SET 2, B", byte_size: 2, clock_tick: 8, branch_clock_tick: 8, function: VoidOp::SetBit(2, Loc8::B) }),
        0xD1 => GenericInstruction::Void(Instruction { opcode: 0xD1, disassembly: "SET 2, C", byte_size: 2, clock_tick: 8, branch_clock_tick: 8, function: VoidOp::SetBit(2, Loc8::C) }),
        0xD2 => GenericInstruction::Void(Instruction { opcode: 0xD2, disassembly: "SET 2, D", byte_size: 2, clock_tick: 8, branch_clock_tick: 8, function: VoidOp::SetBit(2, Loc8::D) }),
        0xD3 => GenericInstruction::Void(Instruction { opcode: 0xD3, disassembly: "SET 2, E", byte_size: 2, clock_tick: 8, branch_clock_tick: 8, function: VoidOp::SetBit(2, Loc8::E) }),
        0xD4 => GenericInstruction::Void(Instruction { opcode: 0xD4, disassembly: "SET 2, H", byte_size: 2, clock_tick: 8, branch_clock_tick: 8, function: VoidOp::SetBit(2, Loc8::H) }),
        0xD5 => GenericInstruction::Void(Instruction { opcode: 0xD5, disassembly: "SET 2, L", byte_size: 2, clock_tick: 8, branch_clock_tick: 8, function: VoidOp::SetBit(2, Loc8::L) }),
        0xD6 => GenericInstruction::Void(Instruction { opcode: 0xD6, disassembly: "SET 2, (HL)", byte_size: 2, clock_tick: 16, branch_clock_tick: 16, function: VoidOp::SetBit(2, Loc8::HlAddr) }),
        0xD7 => GenericInstruction::Void(Instruction { opcode: 0xD7, disassembly: "SET 2, A", byte_size: 2, clock_tick: 8, branch_clock_tick: 8, function: VoidOp::SetBit(2, Loc8::A) }),
        0xD8 => GenericInstruction::Void(Instruction { opcode: 0xD8, disassembly: "SET 3, B", byte_size: 2, clock_tick: 8, branch_clock_tick: 8, function: VoidOp::SetBit(3, Loc8::B) }),
        0xD9 => GenericInstruction::Void(Instruction { opcode: 0xD9, disassembly: "SET 3, C", byte_size: 2, clock_tick: 8, branch_clock_tick: 8, function: VoidOp::SetBit(3, Loc8::C) }),
        0xDA => GenericInstruction::Void(Instruction { opcode: 0xDA, disassembly: "SET 3, D", byte_size: 2, clock_tick: 8, branch_clock_tick: 8, function: VoidOp::SetBit(3, Loc8::D) }),
        0xDB => GenericInstruction::Void(Instruction { opcode: 0xDB, disassembly: "SET 3, E", byte_size: 2, clock_tick: 8, branch_clock_tick: 8, function: VoidOp::SetBit(3, Loc8::E) }),
        0xDC => GenericInstruction::Void(Instruction { opcode: 0xDC, disassembly: "SET 3, H", byte_size: 2, clock_tick: 8, branch_clock_tick: 8, function: VoidOp::SetBit(3, Loc8::H) }),
        0xDD => GenericInstruction::Void(Instruction { opcode: 0xDD, disassembly: "SET 3, L", byte_size: 2, clock_tick: 8, branch_clock_tick: 8, function: VoidOp::SetBit(3, Loc8::L) }),
        0xDE => GenericInstruction::Void(Instruction { opcode: 0xDE, disassembly: "SET 3, (HL)", byte_size: 2, clock_tick: 16, branch_clock_tick: 16, function: VoidOp::SetBit(3, Loc8::HlAddr) }),
        0xDF => GenericInstruction::Void(Instruction { opcode: 0xDF, disassembly: "SET 3, A", byte_size: 2, clock_tick: 8, branch_clock_tick: 8, function: VoidOp::SetBit(3, Loc8::A) }),
        0xE0 => GenericInstruction::Void(Instruction { opcode: 0xE0, disassembly: "SET 4, B", byte_size: 2, clock_tick: 8, branch_clock_tick: 8, function: VoidOp::SetBit(4, Loc8::B) }),
        0xE1 => GenericInstruction::Void(Instruction { opcode: 0xE1, disassembly: "SET 4, C", byte_size: 2, clock_tick: 8, branch_clock_tick: 8, function: VoidOp::SetBit(4, Loc8::C) }),
        0xE2 => GenericInstruction::Void(Instruction { opcode: 0xE2, disassembly: "SET 4, D", byte_size: 2, clock_tick: 8, branch_clock_tick: 8, function: VoidOp::SetBit(4, Loc8::D) }),
        0xE3 => GenericInstruction::Void(Instruction { opcode: 0xE3, disassembly: "SET 4, E", byte_size: 2, clock_tick: 8, branch_clock_tick: 8, function: VoidOp::SetBit(4, Loc8::E) }),
        0xE4 => GenericInstruction::Void(Instruction { opcode: 0xE4, disassembly: "SET 4, H", byte_size: 2, clock_tick: 8, branch_clock_tick: 8, function: VoidOp::SetBit(4, Loc8::H) }),
        0xE5 => GenericInstruction::Void(Instruction { opcode: 0xE5, disassembly: "SET 4, L", byte_size: 2, clock_tick: 8, branch_clock_tick: 8, function: VoidOp::SetBit(4, Loc8::L) }),
        0xE6 => GenericInstruction::Void(Instruction { opcode: 0xE6, disassembly: "SET 4, (HL)", byte_size: 2, clock_tick: 16, branch_clock_tick: 16, function: VoidOp::SetBit(4, Loc8::HlAddr) }),
        0xE7 => GenericInstruction::Void(Instruction { opcode: 0xE7, disassembly: "SET 4, A", byte_size: 2, clock_tick: 8, branch_clock_tick: 8, function: VoidOp::SetBit(4, Loc8::A) }),
        0xE8 => GenericInstruction::Void(Instruction { opcode: 0xE8, disassembly: "SET 5, B", byte_size: 2, clock_tick: 8, branch_clock_tick: 8, function: VoidOp::SetBit(5, Loc8::B) }),
        0xE9 => GenericInstruction::Void(Instruction { opcode: 0xE9, disassembly: "SET 5, C", byte_size: 2, clock_tick: 8, branch_clock_tick: 8, function: VoidOp::SetBit(5, Loc8::C) }),
        0xEA => GenericInstruction::Void(Instruction { opcode: 0xEA, disassembly: "SET 5, D", byte_size: 2, clock_tick: 8, branch_clock_tick: 8, function: VoidOp::SetBit(5, Loc8::D) }),
        0xEB => GenericInstruction::Void(Instruction { opcode: 0xEB, disassembly: "SET 5, E", byte_size: 2, clock_tick: 8, branch_clock_tick: 8, function: VoidOp::SetBit(5, Loc8::E) }),
        0xEC => GenericInstruction::Void(Instruction { opcode: 0xEC, disassembly: "SET 5, H", byte_size: 2, clock_tick: 8, branch_clock_tick: 8, function: VoidOp::SetBit(5, Loc8::H) }),
        0xED => GenericInstruction::Void(Instruction { opcode: 0xED, disassembly: "SET 5, L", byte_size: 2, clock_tick: 8, branch_clock_tick: 8, function: VoidOp::SetBit(5, Loc8::L) }),
        0xEE => GenericInstruction::Void(Instruction { opcode: 0xEE, disassembly: "SET 5, (HL)", byte_size: 2, clock_tick: 16, branch_clock_tick: 16, function: VoidOp::SetBit(5, Loc8::HlAddr) }),
        0xEF => GenericInstruction::Void(Instruction { opcode: 0xEF, disassembly: "SET 5, A", byte_size: 2, clock_tick: 8, branch_clock_tick: 8, function: VoidOp::SetBit(5, Loc8::A) }),
        0xF0 => GenericInstruction::Void(Instruction { opcode: 0xF0, disassembly: "SET 6, B", byte_size: 2, clock_tick: 8, branch_clock_tick: 8, function: VoidOp::SetBit(6, Loc8::B) }),
        0xF1 => GenericInstruction::Void(Instruction { opcode: 0xF1, disassembly: "SET 6, C", byte_size: 2, clock_tick: 8, branch_clock_tick: 8, function: VoidOp::SetBit(6, Loc8::C) }),
        0xF2 => GenericInstruction::Void(Instruction { opcode: 0xF2, disassembly: "SET 6, D", byte_size: 2, clock_tick: 8, branch_clock_tick: 8, function: VoidOp::SetBit(6, Loc8::D) }),
        0xF3 => GenericInstruction::Void(Instruction { opcode: 0xF3, disassembly: "SET 6, E", byte_size: 2, clock_tick: 8, branch_clock_tick: 8, function: VoidOp::SetBit(6, Loc8::E) }),
        0xF4 => GenericInstruction::Void(Instruction { opcode: 0xF4, disassembly: "SET 6, H", byte_size: 2, clock_tick: 8, branch_clock_tick: 8, function: VoidOp::SetBit(6, Loc8::H) }),
        0xF5 => GenericInstruction::Void(Instruction { opcode: 0xF5, disassembly: "SET 6, L", byte_size: 2, clock_tick: 8, branch_clock_tick: 8, function: VoidOp::SetBit(6, Loc8::L) }),
        0xF6 => GenericInstruction::Void(Instruction { opcode: 0xF6, disassembly: "SET 6, (HL)", byte_size: 2, clock_tick: 16, branch_clock_tick: 16, function: VoidOp::SetBit(6, Loc8::HlAddr) }),
        0xF7 => GenericInstruction::Void(Instruction { opcode: 0xF7, disassembly: "SET 6, A", byte_size: 2, clock_tick: 8, branch_clock_tick: 8, function: VoidOp::SetBit(6, Loc8::A) }),
        0xF8 => GenericInstruction::Void(Instruction { opcode: 0xF8, disassembly: "SET 7, B", byte_size: 2, clock_tick: 8, branch_clock_tick: 8, function: VoidOp::SetBit(7, Loc8::B) }),
        0xF9 => GenericInstruction::Void(Instruction { opcode: 0xF9, disassembly: "SET 7, C", byte_size: 2, clock_tick: 8, branch_clock_tick: 8, function: VoidOp::SetBit(7, Loc8::C) }),
        0xFA => GenericInstruction::Void(Instruction { opcode: 0xFA, disassembly: "SET 7, D", byte_size: 2, clock_tick: 8, branch_clock_tick: 8, function: VoidOp::SetBit(7, Loc8::D) }),
        0xFB => GenericInstruction::Void(Instruction { opcode: 0xFB, disassembly: "SET 7, E", byte_size: 2, clock_tick: 8, branch_clock_tick: 8, function: VoidOp::SetBit(7, Loc8::E) }),
        0xFC => GenericInstruction::Void(Instruction { opcode: 0xFC, disassembly: "SET 7, H", byte_size: 2, clock_tick: 8, branch_clock_tick: 8, function: VoidOp::SetBit(7, Loc8::H) }),
        0xFD => GenericInstruction::Void(Instruction { opcode: 0xFD, disassembly: "SET 7, L", byte_size: 2, clock_tick: 8, branch_clock_tick: 8, function: VoidOp::SetBit(7, Loc8::L) }),
        0xFE => GenericInstruction::Void(Instruction { opcode: 0xFE, disassembly: "SET 7, (HL)", byte_size: 2, clock_tick: 16, branch_clock_tick: 16, function: VoidOp::SetBit(7, Loc8::HlAddr) }),
        0xFF => GenericInstruction::Void(Instruction { opcode: 0xFF, disassembly: "SET 7, A", byte_size: 2, clock_tick: 8, branch_clock_tick: 8, function: VoidOp::SetBit(7, Loc8::A) }),
    }
}

/// The instruction of `opcode`: from the prefixed table when the opcode
/// follows the prefix, else from the primary one.
pub open spec fn instruction_of(opcode: OpCode, prefixed: bool) -> GenericInstruction {
    if prefixed {
        prefixed_instruction(opcode)
    } else {
        primary_instruction(opcode)
    }
}

/// Looks an opcode up in the table it belongs to.
pub fn instruction_from_opcode(opcode: OpCode, prefixed: bool) -> (r: GenericInstruction)
    ensures
        r == instruction_of(opcode, prefixed),
{
    if prefixed {
        prefixed_entry(opcode)
    } else {
        primary_entry(opcode)
    }
}

} // verus!
