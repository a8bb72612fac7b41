use lameboy::cpu::step;
use lameboy::instruction::{GenericInstruction, VoidOp};
use lameboy::instruction_set::instruction_from_opcode;
use lameboy::memory::Memory;
use lameboy::operations::ExecutionError;

fn load(m: &mut Memory, at: u16, program: &[u8]) {
    for (i, b) in program.iter().enumerate() {
        m.write_far_addr(at + i as u16, *b);
    }
}

fn byte_size(i: &GenericInstruction) -> usize {
    match i {
        GenericInstruction::Void(i) => i.byte_size,
        GenericInstruction::Value(i) => i.byte_size,
        GenericInstruction::Wide(i) => i.byte_size,
        GenericInstruction::Near(i) => i.byte_size,
        GenericInstruction::Far(i) => i.byte_size,
        GenericInstruction::Offset(i) => i.byte_size,
    }
}

#[test]
fn jr_minus_two_loops_on_itself() {
    let mut m = Memory::new(0x1_0000);
    load(&mut m, 0x0150, &[0x18, 0xFE]);
    m.registers.pc = 0x0150;
    assert_eq!(step(&mut m), Ok(12));
    assert_eq!(m.registers.pc, 0x0150);
}

#[test]
fn call_then_ret_returns_after_the_call() {
    let mut m = Memory::new(0x1_0000);
    load(&mut m, 0x0100, &[0xCD, 0x00, 0x02]);
    load(&mut m, 0x0200, &[0xC9]);
    m.registers.pc = 0x0100;
    let sp = m.registers.sp;
    assert_eq!(step(&mut m), Ok(24));
    assert_eq!(m.registers.pc, 0x0200);
    assert_eq!(step(&mut m), Ok(16));
    assert_eq!(m.registers.pc, 0x0103);
    assert_eq!(m.registers.sp, sp);
}

#[test]
fn conditional_call_not_taken() {
    let mut m = Memory::new(0x1_0000);
    load(&mut m, 0x0100, &[0xCC, 0x00, 0x02, 0xC8]);
    m.registers.pc = 0x0100;
    let sp = m.registers.sp;
    assert_eq!(step(&mut m), Ok(12));
    assert_eq!(m.registers.pc, 0x0103);
    assert_eq!(step(&mut m), Ok(8));
    assert_eq!(m.registers.pc, 0x0104);
    assert_eq!(m.registers.sp, sp);
}

#[test]
fn program_with_immediates_and_prefix() {
    let mut m = Memory::new(0x1_0000);
    // LD A, 0xF0 ; SWAP A ; LD HL, 0xC000 ; LD (HL+), A
    load(&mut m, 0x0000, &[0x3E, 0xF0, 0xCB, 0x37, 0x21, 0x00, 0xC0, 0x22]);
    assert_eq!(step(&mut m), Ok(8));
    assert_eq!(m.registers.get_a(), 0xF0);
    assert_eq!(step(&mut m), Ok(8));
    assert_eq!(m.registers.get_a(), 0x0F);
    assert_eq!(m.registers.pc, 0x0004);
    assert_eq!(step(&mut m), Ok(12));
    assert_eq!(m.registers.get_hl(), 0xC000);
    assert_eq!(step(&mut m), Ok(8));
    assert_eq!(m.read_far_addr(0xC000), 0x0F);
    assert_eq!(m.registers.get_hl(), 0xC001);
    assert_eq!(m.registers.pc, 0x0008);
}

#[test]
fn step_reports_faults_and_changes_nothing() {
    let mut m = Memory::new(0x1_0000);
    load(&mut m, 0x0000, &[0x76, 0xD3, 0xC9, 0xF3]);
    assert_eq!(step(&mut m), Err(ExecutionError::Unimplemented(0x76)));
    assert_eq!(m.registers.pc, 0x0000);
    m.registers.pc = 1;
    assert_eq!(step(&mut m), Err(ExecutionError::Undefined(0xD3)));
    m.registers.pc = 2;
    let sp = m.registers.sp;
    assert_eq!(step(&mut m), Err(ExecutionError::StackUnderflow(sp)));
    assert_eq!(m.registers.pc, 2);
    m.registers.pc = 3;
    assert_eq!(step(&mut m), Err(ExecutionError::Unimplemented(0xF3)));
}

#[test]
fn step_reports_out_of_range_accesses() {
    let mut m = Memory::new(0x0100);
    m.registers.pc = 0x0200;
    assert_eq!(step(&mut m), Err(ExecutionError::OutOfRange(0x0200)));
    // INC (HL) with HL outside the address space
    load(&mut m, 0x0000, &[0x34]);
    m.registers.pc = 0;
    m.registers.set_hl(0x8000);
    assert_eq!(step(&mut m), Err(ExecutionError::OutOfRange(0x8000)));
    assert_eq!(m.registers.pc, 0);
    // LD A, d8 whose operand lies past the end
    load(&mut m, 0x00FF, &[0x3E]);
    m.registers.pc = 0x00FF;
    assert_eq!(step(&mut m), Err(ExecutionError::OutOfRange(0x0100)));
}

#[test]
fn tables_cover_every_opcode() {
    for op in 0..=255u8 {
        let primary = instruction_from_opcode(op, false);
        let size = byte_size(&primary);
        assert!((1..=3).contains(&size));
        let prefixed = instruction_from_opcode(op, true);
        assert_eq!(byte_size(&prefixed), 2);
    }
    match instruction_from_opcode(0xCB, false) {
        GenericInstruction::Void(i) => assert_eq!(i.function, VoidOp::Prefix),
        _ => panic!("the prefix opcode takes no operand"),
    }
    match instruction_from_opcode(0x37, true) {
        GenericInstruction::Void(i) => assert_eq!(i.disassembly, "SWAP A"),
        _ => panic!("prefixed instructions take no operand"),
    }
}
