use vstd::prelude::*;

use crate::conversions::{offset_bits, offset_to_far_address};
use crate::memory::{MachineState, Memory};
use crate::operations::{check_condition, condition_holds, Condition};
use crate::types::{AddressOffset, FarAddress, Void};

verus! {

/// `JP cond, addr`: `PC` set to `addr` when the condition holds.
pub open spec fn jp_spec(s: MachineState, cond: Condition, addr: u16) -> MachineState {
    if condition_holds(s.registers, cond) {
        s.with_pc(addr)
    } else {
        s
    }
}

/// The target of a relative jump: `PC` plus the offset's bit pattern, with
/// 16-bit wraparound.
pub open spec fn relative_target(pc: u16, offset: i8) -> u16 {
    ((pc + offset_bits(offset)) % 0x1_0000) as u16
}

/// `JR cond, offset`.
pub open spec fn jr_spec(s: MachineState, cond: Condition, offset: i8) -> MachineState {
    if condition_holds(s.registers, cond) {
        s.with_pc(relative_target(s.registers.pc, offset))
    } else {
        s
    }
}

/// A call can run: the condition fails, or the return address fits on the
/// stack.
pub open spec fn call_ok(s: MachineState, cond: Condition) -> bool {
    condition_holds(s.registers, cond) ==> s.can_push()
}

/// `CALL cond, addr`: when the condition holds, `PC` is pushed and set to
/// `addr`.
pub open spec fn call_spec(s: MachineState, cond: Condition, addr: u16) -> MachineState {
    if condition_holds(s.registers, cond) {
        s.pushed(s.registers.pc).with_pc(addr)
    } else {
        s
    }
}

/// A return can run: the condition fails, or the stack holds an address.
pub open spec fn ret_ok(s: MachineState, cond: Condition) -> bool {
    condition_holds(s.registers, cond) ==> s.can_pop()
}

/// `RET cond`: when the condition holds, `PC` is popped.
pub open spec fn ret_spec(s: MachineState, cond: Condition) -> MachineState {
    if condition_holds(s.registers, cond) {
        s.popped().with_pc(s.top())
    } else {
        s
    }
}

/// `RETI`: an unconditional return that also enables interrupts.
pub open spec fn reti_spec(s: MachineState) -> MachineState {
    MachineState { interrupts_enabled: true, ..ret_spec(s, Condition::Always) }
}

/// `RST vector`: `PC` pushed and set to the fixed vector.
pub open spec fn rst_spec(s: MachineState, vector: u16) -> MachineState {
    s.pushed(s.registers.pc).with_pc(vector)
}

/// Jumps to `addr` when `cond` holds.
pub fn jump(memory: &mut Memory, cond: Condition, addr: FarAddress)
    ensures
        final(memory)@ == jp_spec(old(memory)@, cond, addr),
{
    if check_condition(&memory.registers, cond) {
        memory.registers.pc = addr;
    }
}

/// Jumps by `offset` from `PC` when `cond` holds.
pub fn jump_relative(memory: &mut Memory, cond: Condition, offset: AddressOffset)
    ensures
        final(memory)@ == jr_spec(old(memory)@, cond, offset),
{
    if check_condition(&memory.registers, cond) {
        // The offset is added as an unsigned bit pattern with wraparound, so a
        // negative offset moves backwards and the target may wrap past 0.
        memory.registers.pc = memory.registers.pc.wrapping_add(offset_to_far_address(offset));
    }
}

/// Calls `addr` when `cond` holds.
pub fn call(memory: &mut Memory, cond: Condition, addr: FarAddress)
    requires
        call_ok(old(memory)@, cond),
    ensures
        final(memory)@ == call_spec(old(memory)@, cond, addr),
{
    if check_condition(&memory.registers, cond) {
        let pc = memory.registers.pc;
        memory.push_wide(pc);
        memory.registers.pc = addr;
    }
}

/// Returns when `cond` holds.
pub fn return_from(memory: &mut Memory, cond: Condition)
    requires
        ret_ok(old(memory)@, cond),
    ensures
        final(memory)@ == ret_spec(old(memory)@, cond),
{
    if check_condition(&memory.registers, cond) {
        memory.registers.pc = memory.pop_wide();
    }
}

/// Pushes `PC` and jumps to a fixed vector.
pub fn restart(memory: &mut Memory, vector: FarAddress)
    requires
        old(memory)@.can_push(),
    ensures
        final(memory)@ == rst_spec(old(memory)@, vector),
{
    let pc = memory.registers.pc;
    memory.push_wide(pc);
    memory.registers.pc = vector;
}

/// CALL a16
pub fn call_a16(memory: &mut Memory, value: FarAddress)
    requires
        call_ok(old(memory)@, Condition::Always),
    ensures
        final(memory)@ == call_spec(old(memory)@, Condition::Always, value),
{
    call(memory, Condition::Always, value);
}

/// CALL Z, a16
pub fn call_z_a16(memory: &mut Memory, value: FarAddress)
    requires
        call_ok(old(memory)@, Condition::Zero),
    ensures
        final(memory)@ == call_spec(old(memory)@, Condition::Zero, value),
{
    call(memory, Condition::Zero, value);
}

/// CALL NZ, a16
pub fn call_nz_a16(memory: &mut Memory, value: FarAddress)
    requires
        call_ok(old(memory)@, Condition::NotZero),
    ensures
        final(memory)@ == call_spec(old(memory)@, Condition::NotZero, value),
{
    call(memory, Condition::NotZero, value);
}

/// CALL C, a16
pub fn call_c_a16(memory: &mut Memory, value: FarAddress)
    requires
        call_ok(old(memory)@, Condition::Carry),
    ensures
        final(memory)@ == call_spec(old(memory)@, Condition::Carry, value),
{
    call(memory, Condition::Carry, value);
}

/// CALL NC, a16
pub fn call_nc_a16(memory: &mut Memory, value: FarAddress)
    requires
        call_ok(old(memory)@, Condition::NotCarry),
    ensures
        final(memory)@ == call_spec(old(memory)@, Condition::NotCarry, value),
{
    call(memory, Condition::NotCarry, value);
}

/// RET
pub fn ret(memory: &mut Memory, _value: Void)
    requires
        old(memory)@.can_pop(),
    ensures
        final(memory)@ == ret_spec(old(memory)@, Condition::Always),
{
    return_from(memory, Condition::Always);
}

/// RETI: returns and enables interrupts
pub fn reti(memory: &mut Memory, _value: Void)
    requires
        old(memory)@.can_pop(),
    ensures
        final(memory)@ == reti_spec(old(memory)@),
{
    return_from(memory, Condition::Always);
    memory.interrupts_enabled = true;
}

/// RET Z
pub fn ret_z(memory: &mut Memory, _value: Void)
    requires
        ret_ok(old(memory)@, Condition::Zero),
    ensures
        final(memory)@ == ret_spec(old(memory)@, Condition::Zero),
{
    return_from(memory, Condition::Zero);
}

/// RET NZ
pub fn ret_nz(memory: &mut Memory, _value: Void)
    requires
        ret_ok(old(memory)@, Condition::NotZero),
    ensures
        final(memory)@ == ret_spec(old(memory)@, Condition::NotZero),
{
    return_from(memory, Condition::NotZero);
}

/// RET C
pub fn ret_c(memory: &mut Memory, _value: Void)
    requires
        ret_ok(old(memory)@, Condition::Carry),
    ensures
        final(memory)@ == ret_spec(old(memory)@, Condition::Carry),
{
    return_from(memory, Condition::Carry);
}

/// RET NC
pub fn ret_nc(memory: &mut Memory, _value: Void)
    requires
        ret_ok(old(memory)@, Condition::NotCarry),
    ensures
        final(memory)@ == ret_spec(old(memory)@, Condition::NotCarry),
{
    return_from(memory, Condition::NotCarry);
}

/// JP a16
pub fn jp_a16(memory: &mut Memory, value: FarAddress)
    ensures
        final(memory)@ == jp_spec(old(memory)@, Condition::Always, value),
{
    jump(memory, Condition::Always, value);
}

/// JP HL
pub fn jp_hl(memory: &mut Memory, _value: Void)
    ensures
        final(memory)@ == old(memory)@.with_pc(old(memory)@.hl()),
{
    let hl = memory.registers.get_hl();
    memory.registers.pc = hl;
}

/// JP Z, a16
pub fn jp_z_a16(memory: &mut Memory, value: FarAddress)
    ensures
        final(memory)@ == jp_spec(old(memory)@, Condition::Zero, value),
{
    jump(memory, Condition::Zero, value);
}

/// JP NZ, a16
pub fn jp_nz_a16(memory: &mut Memory, value: FarAddress)
    ensures
        final(memory)@ == jp_spec(old(memory)@, Condition::NotZero, value),
{
    jump(memory, Condition::NotZero, value);
}

/// JP C, a16
pub fn jp_c_a16(memory: &mut Memory, value: FarAddress)
    ensures
        final(memory)@ == jp_spec(old(memory)@, Condition::Carry, value),
{
    jump(memory, Condition::Carry, value);
}

/// JP NC, a16
pub fn jp_nc_a16(memory: &mut Memory, value: FarAddress)
    ensures
        final(memory)@ == jp_spec(old(memory)@, Condition::NotCarry, value),
{
    jump(memory, Condition::NotCarry, value);
}

/// JR r8
pub fn jr_r8(memory: &mut Memory, value: AddressOffset)
    ensures
        final(memory)@ == jr_spec(old(memory)@, Condition::Always, value),
{
    jump_relative(memory, Condition::Always, value);
}

/// JR Z, r8
pub fn jr_z_r8(memory: &mut Memory, value: AddressOffset)
    ensures
        final(memory)@ == jr_spec(old(memory)@, Condition::Zero, value),
{
    jump_relative(memory, Condition::Zero, value);
}

/// JR NZ, r8
pub fn jr_nz_r8(memory: &mut Memory, value: AddressOffset)
    ensures
        final(memory)@ == jr_spec(old(memory)@, Condition::NotZero, value),
{
    jump_relative(memory, Condition::NotZero, value);
}

/// JR C, r8
pub fn jr_c_r8(memory: &mut Memory, value: AddressOffset)
    ensures
        final(memory)@ == jr_spec(old(memory)@, Condition::Carry, value),
{
    jump_relative(memory, Condition::Carry, value);
}

/// JR NC, r8
pub fn jr_nc_r8(memory: &mut Memory, value: AddressOffset)
    ensures
        final(memory)@ == jr_spec(old(memory)@, Condition::NotCarry, value),
{
    jump_relative(memory, Condition::NotCarry, value);
}

/// RST 00H
pub fn rst_00h(memory: &mut Memory, _value: Void)
    requires
        old(memory)@.can_push(),
    ensures
        final(memory)@ == rst_spec(old(memory)@, 0x00),
{
    restart(memory, 0x00);
}

/// RST 08H
pub fn rst_08h(memory: &mut Memory, _value: Void)
    requires
        old(memory)@.can_push(),
    ensures
        final(memory)@ == rst_spec(old(memory)@, 0x08),
{
    restart(memory, 0x08);
}

/// RST 10H
pub fn rst_10h(memory: &mut Memory, _value: Void)
    requires
        old(memory)@.can_push(),
    ensures
        final(memory)@ == rst_spec(old(memory)@, 0x10),
{
    restart(memory, 0x10);
}

/// RST 18H
pub fn rst_18h(memory: &mut Memory, _value: Void)
    requires
        old(memory)@.can_push(),
    ensures
        final(memory)@ == rst_spec(old(memory)@, 0x18),
{
    restart(memory, 0x18);
}

/// RST 20H
pub fn rst_20h(memory: &mut Memory, _value: Void)
    requires
        old(memory)@.can_push(),
    ensures
        final(memory)@ == rst_spec(old(memory)@, 0x20),
{
    restart(memory, 0x20);
}

/// RST 28H
pub fn rst_28h(memory: &mut Memory, _value: Void)
    requires
        old(memory)@.can_push(),
    ensures
        final(memory)@ == rst_spec(old(memory)@, 0x28),
{
    restart(memory, 0x28);
}

/// RST 30H
pub fn rst_30h(memory: &mut Memory, _value: Void)
    requires
        old(memory)@.can_push(),
    ensures
        final(memory)@ == rst_spec(old(memory)@, 0x30),
{
    restart(memory, 0x30);
}

/// RST 38H
pub fn rst_38h(memory: &mut Memory, _value: Void)
    requires
        old(memory)@.can_push(),
    ensures
        final(memory)@ == rst_spec(old(memory)@, 0x38),
{
    restart(memory, 0x38);
}

/// A call followed by a return leaves `PC` at the address the call was
/// made from (the one after the call instruction) and `SP` where it was
/// before the call.
pub proof fn lemma_call_then_ret(s: MachineState, addr: u16)
    requires
        s.can_push(),
    ensures
        ret_ok(call_spec(s, Condition::Always, addr), Condition::Always),
        ret_spec(call_spec(s, Condition::Always, addr), Condition::Always).registers.pc == s.registers.pc,
        ret_spec(call_spec(s, Condition::Always, addr), Condition::Always).registers.sp == s.registers.sp,
{
    crate::stack::lemma_push_pop_wide(s.stack, s.registers.sp, s.registers.pc);
}

/// A conditional jump, relative jump, call or return whose condition fails
/// changes nothing: `PC`, `SP`, the stack and the rest stay as they were.
pub proof fn lemma_untaken_branch(s: MachineState, cond: Condition, addr: u16, offset: i8)
    requires
        !condition_holds(s.registers, cond),
    ensures
        jp_spec(s, cond, addr) == s,
        jr_spec(s, cond, offset) == s,
        call_spec(s, cond, addr) == s,
        ret_spec(s, cond) == s,
{
}

} // verus!
