use lameboy::memory::Memory;
use lameboy::operations::arithmetic::{
    adc_a_b, add_a_d8, add_hl_bc, daa, dec_a, dec_b, dec_bc, inc_a, inc_b, inc_hl_addr, inc_sp,
    sbc_a_c, sub_a_b,
};
use lameboy::operations::bits::{
    bit_7_a, bit_0_b, res_3_c, rl_b, rla, rlc_a, rlca, rr_a, rra, rrc_a, rrca, set_7_hl_addr, sla_d,
    sra_e, srl_h, swap_a,
};
use lameboy::operations::jumps::{
    call_a16, call_nz_a16, call_z_a16, jp_c_a16, jp_nz_a16, jr_nc_r8, jr_nz_r8, jr_r8, jr_z_r8, ret,
    ret_c, ret_nz, ret_z, reti, rst_38h,
};
use lameboy::operations::load::{
    ld_a16_addr_sp, ld_a_hld_addr, ld_b_a, ld_hl_sp_plus_r8, ld_hli_addr_a, ldh_a8_addr_a, pop_af,
    push_bc,
};
use lameboy::operations::logical::{and_a_b, cp_a_d8, or_a_c, xor_a_a};
use lameboy::operations::misc::{di, ei, halt, none, noop, prefix, stop};
use lameboy::operations::ExecutionError;

fn machine() -> Memory {
    Memory::new(0x1_0000)
}

#[test]
fn inc_then_dec_restores_every_value() {
    for v in 0..=255u8 {
        let mut m = machine();
        m.registers.set_b(v);
        inc_b(&mut m, ());
        assert_eq!(m.registers.get_zero_flag(), m.registers.get_b() == 0);
        dec_b(&mut m, ());
        assert_eq!(m.registers.get_b(), v);
        assert_eq!(m.registers.get_zero_flag(), v == 0);
        dec_a(&mut m, ());
        inc_a(&mut m, ());
        assert_eq!(m.registers.get_a(), 0);
    }
}

#[test]
fn inc_wraps_and_sets_flags() {
    let mut m = machine();
    m.registers.set_b(0xFF);
    m.registers.set_carry_flag(true);
    inc_b(&mut m, ());
    assert_eq!(m.registers.get_b(), 0);
    assert!(m.registers.get_zero_flag());
    assert!(m.registers.get_half_carry_flag());
    assert!(!m.registers.get_subtraction_flag());
    assert!(m.registers.get_carry_flag());
    dec_b(&mut m, ());
    assert_eq!(m.registers.get_b(), 0xFF);
    assert!(m.registers.get_subtraction_flag());
    assert!(m.registers.get_half_carry_flag());
}

#[test]
fn inc_hl_addr_changes_memory() {
    let mut m = machine();
    m.registers.set_hl(0xC000);
    m.write_far_addr(0xC000, 0x0F);
    inc_hl_addr(&mut m, ());
    assert_eq!(m.read_far_addr(0xC000), 0x10);
    assert!(m.registers.get_half_carry_flag());
}

#[test]
fn wide_inc_dec_leave_flags() {
    let mut m = machine();
    m.registers.set_bc(0x0000);
    m.registers.set_f(0xF0);
    dec_bc(&mut m, ());
    assert_eq!(m.registers.get_bc(), 0xFFFF);
    m.registers.sp = 0xFFFF;
    inc_sp(&mut m, ());
    assert_eq!(m.registers.sp, 0x0000);
    assert_eq!(m.registers.get_f(), 0xF0);
}

#[test]
fn add_and_subtract_set_every_flag() {
    let mut m = machine();
    m.registers.set_a(0xF8);
    add_a_d8(&mut m, 0x08);
    assert_eq!(m.registers.get_a(), 0x00);
    assert_eq!(m.registers.get_f(), 0b1011_0000);
    m.registers.set_a(0x10);
    m.registers.set_b(0x01);
    sub_a_b(&mut m, ());
    assert_eq!(m.registers.get_a(), 0x0F);
    assert_eq!(m.registers.get_f(), 0b0110_0000);
    m.registers.set_a(0x00);
    sub_a_b(&mut m, ());
    assert_eq!(m.registers.get_a(), 0xFF);
    assert_eq!(m.registers.get_f(), 0b0111_0000);
}

#[test]
fn adc_and_sbc_use_the_carry() {
    let mut m = machine();
    m.registers.set_a(0x0E);
    m.registers.set_b(0x01);
    m.registers.set_carry_flag(true);
    adc_a_b(&mut m, ());
    assert_eq!(m.registers.get_a(), 0x10);
    assert!(m.registers.get_half_carry_flag());
    assert!(!m.registers.get_carry_flag());
    m.registers.set_a(0x00);
    m.registers.set_c(0x00);
    m.registers.set_carry_flag(true);
    sbc_a_c(&mut m, ());
    assert_eq!(m.registers.get_a(), 0xFF);
    assert!(m.registers.get_carry_flag());
    assert!(m.registers.get_half_carry_flag());
    assert!(m.registers.get_subtraction_flag());
}

#[test]
fn add_hl_keeps_zero_and_carries_at_bit_eleven() {
    let mut m = machine();
    m.registers.set_hl(0x0FFF);
    m.registers.set_bc(0x0001);
    m.registers.set_zero_flag(true);
    add_hl_bc(&mut m, ());
    assert_eq!(m.registers.get_hl(), 0x1000);
    assert!(m.registers.get_zero_flag());
    assert!(m.registers.get_half_carry_flag());
    assert!(!m.registers.get_carry_flag());
    m.registers.set_hl(0xFFFF);
    add_hl_bc(&mut m, ());
    assert_eq!(m.registers.get_hl(), 0x0000);
    assert!(m.registers.get_carry_flag());
}

#[test]
fn daa_corrects_bcd_addition() {
    let mut m = machine();
    m.registers.set_a(0x45);
    add_a_d8(&mut m, 0x38);
    assert_eq!(m.registers.get_a(), 0x7D);
    assert!(!m.registers.get_carry_flag());
    assert!(!m.registers.get_half_carry_flag());
    daa(&mut m, ());
    assert_eq!(m.registers.get_a(), 0x83);
    assert!(!m.registers.get_carry_flag());
    assert!(!m.registers.get_zero_flag());
}

#[test]
fn daa_sets_carry_past_ninety_nine() {
    let mut m = machine();
    m.registers.set_a(0x99);
    add_a_d8(&mut m, 0x01);
    daa(&mut m, ());
    assert_eq!(m.registers.get_a(), 0x00);
    assert!(m.registers.get_carry_flag());
    assert!(m.registers.get_zero_flag());
}

#[test]
fn logical_operations_flags() {
    for &(a, b) in &[(0x00u8, 0x00u8), (0xFF, 0x0F), (0xF0, 0x0F), (0x5A, 0xA5)] {
        let mut m = machine();
        m.registers.set_a(a);
        m.registers.set_b(b);
        m.registers.set_carry_flag(true);
        and_a_b(&mut m, ());
        assert_eq!(m.registers.get_a(), a & b);
        assert!(m.registers.get_half_carry_flag() && !m.registers.get_carry_flag());
        assert_eq!(m.registers.get_zero_flag(), a & b == 0);

        m.registers.set_a(a);
        m.registers.set_c(b);
        m.registers.set_half_carry_flag(true);
        m.registers.set_carry_flag(true);
        or_a_c(&mut m, ());
        assert_eq!(m.registers.get_a(), a | b);
        assert!(!m.registers.get_half_carry_flag() && !m.registers.get_carry_flag());
        assert_eq!(m.registers.get_zero_flag(), a | b == 0);
    }
    let mut m = machine();
    m.registers.set_a(0x3C);
    m.registers.set_f(0xF0);
    xor_a_a(&mut m, ());
    assert_eq!(m.registers.get_a(), 0);
    assert_eq!(m.registers.get_f(), 0x80);
}

#[test]
fn cp_leaves_a() {
    let mut m = machine();
    m.registers.set_a(0x3C);
    cp_a_d8(&mut m, 0x3C);
    assert_eq!(m.registers.get_a(), 0x3C);
    assert_eq!(m.registers.get_f(), 0b1100_0000);
    cp_a_d8(&mut m, 0x40);
    assert_eq!(m.registers.get_f(), 0b0101_0000);
}

#[test]
fn rotate_short_forms_clear_zero_full_forms_set_it() {
    let shorts: [fn(&mut Memory, ()); 4] = [rlca, rrca, rla, rra];
    for f in shorts.iter() {
        let mut m = machine();
        m.registers.set_a(0x00);
        m.registers.set_zero_flag(true);
        f(&mut m, ());
        assert_eq!(m.registers.get_a(), 0x00);
        assert!(!m.registers.get_zero_flag());
    }
    let fulls: [fn(&mut Memory, ()); 4] = [rlc_a, rrc_a, lameboy::operations::bits::rl_a, rr_a];
    for f in fulls.iter() {
        let mut m = machine();
        m.registers.set_a(0x00);
        f(&mut m, ());
        assert_eq!(m.registers.get_a(), 0x00);
        assert!(m.registers.get_zero_flag());
    }
}

#[test]
fn rotates_and_shifts_move_bits() {
    let mut m = machine();
    m.registers.set_a(0b1000_0001);
    rlca(&mut m, ());
    assert_eq!(m.registers.get_a(), 0b0000_0011);
    assert!(m.registers.get_carry_flag());
    rra(&mut m, ());
    assert_eq!(m.registers.get_a(), 0b1000_0001);
    assert!(m.registers.get_carry_flag());
    m.registers.set_b(0b1000_0000);
    m.registers.set_carry_flag(false);
    rl_b(&mut m, ());
    assert_eq!(m.registers.get_b(), 0);
    assert!(m.registers.get_zero_flag() && m.registers.get_carry_flag());
    m.registers.set_d(0b1100_0000);
    sla_d(&mut m, ());
    assert_eq!(m.registers.get_d(), 0b1000_0000);
    assert!(m.registers.get_carry_flag());
    m.registers.set_e(0b1000_0011);
    sra_e(&mut m, ());
    assert_eq!(m.registers.get_e(), 0b1100_0001);
    assert!(m.registers.get_carry_flag());
    m.registers.set_h(0b1000_0010);
    srl_h(&mut m, ());
    assert_eq!(m.registers.get_h(), 0b0100_0001);
    assert!(!m.registers.get_carry_flag());
    m.registers.set_a(0xF1);
    m.registers.set_carry_flag(true);
    swap_a(&mut m, ());
    assert_eq!(m.registers.get_a(), 0x1F);
    assert_eq!(m.registers.get_f(), 0x00);
}

#[test]
fn bit_res_set() {
    let mut m = machine();
    m.registers.set_a(0b1000_0000);
    m.registers.set_carry_flag(true);
    bit_7_a(&mut m, ());
    assert!(!m.registers.get_zero_flag());
    assert!(m.registers.get_half_carry_flag() && !m.registers.get_subtraction_flag());
    assert!(m.registers.get_carry_flag());
    m.registers.set_b(0b1111_1110);
    bit_0_b(&mut m, ());
    assert!(m.registers.get_zero_flag());
    assert_eq!(m.registers.get_b(), 0b1111_1110);
    m.registers.set_c(0xFF);
    res_3_c(&mut m, ());
    assert_eq!(m.registers.get_c(), 0xF7);
    m.registers.set_hl(0xD000);
    set_7_hl_addr(&mut m, ());
    assert_eq!(m.read_far_addr(0xD000), 0x80);
}

#[test]
fn ld_hl_increment_stores_then_moves() {
    let mut m = machine();
    m.registers.set_hl(0xC000);
    m.registers.set_a(0x42);
    ld_hli_addr_a(&mut m, ());
    assert_eq!(m.read_far_addr(0xC000), 0x42);
    assert_eq!(m.registers.get_hl(), 0xC001);
}

#[test]
fn ld_hl_decrement_loads_then_moves() {
    let mut m = machine();
    m.registers.set_hl(0xC000);
    m.write_far_addr(0xC000, 0x99);
    ld_a_hld_addr(&mut m, ());
    assert_eq!(m.registers.get_a(), 0x99);
    assert_eq!(m.registers.get_hl(), 0xBFFF);
    ld_b_a(&mut m, ());
    assert_eq!(m.registers.get_b(), 0x99);
}

#[test]
fn near_and_wide_stores() {
    let mut m = machine();
    m.registers.set_a(0x77);
    ldh_a8_addr_a(&mut m, 0x80);
    assert_eq!(m.read_far_addr(0xFF80), 0x77);
    assert_eq!(m.read_near_addr(0x80), 0x77);
    m.registers.sp = 0xBEEF;
    ld_a16_addr_sp(&mut m, 0xC100);
    assert_eq!(m.read_far_addr(0xC100), 0xEF);
    assert_eq!(m.read_far_addr(0xC101), 0xBE);
    assert_eq!(m.read_wide_far_addr(0xC100), 0xBEEF);
}

#[test]
fn ld_hl_sp_offset() {
    let mut m = machine();
    m.registers.sp = 0x1000;
    ld_hl_sp_plus_r8(&mut m, -1);
    assert_eq!(m.registers.get_hl(), 0x0FFF);
    assert!(!m.registers.get_zero_flag());
    assert!(m.registers.get_carry_flag());
}

#[test]
fn push_pop_through_the_registers() {
    let mut m = machine();
    m.registers.set_bc(0x12FF);
    push_bc(&mut m, ());
    assert_eq!(m.registers.sp, 0xFFFD);
    pop_af(&mut m, ());
    assert_eq!(m.registers.sp, 0xFFFF);
    assert_eq!(m.registers.get_af(), 0x12F0);
}

#[test]
fn call_then_ret_restores_pc_and_sp() {
    let mut m = machine();
    m.registers.pc = 0x0153;
    let sp = m.registers.sp;
    call_a16(&mut m, 0x0200);
    assert_eq!(m.registers.pc, 0x0200);
    assert_eq!(m.registers.sp, sp - 2);
    ret(&mut m, ());
    assert_eq!(m.registers.pc, 0x0153);
    assert_eq!(m.registers.sp, sp);
}

#[test]
fn untaken_conditional_branches_change_nothing() {
    let mut m = machine();
    m.registers.pc = 0x0150;
    m.registers.set_zero_flag(true);
    m.registers.set_carry_flag(false);
    let sp = m.registers.sp;
    jp_nz_a16(&mut m, 0x1234);
    jp_c_a16(&mut m, 0x1234);
    call_nz_a16(&mut m, 0x1234);
    ret_c(&mut m, ());
    ret_nz(&mut m, ());
    jr_nz_r8(&mut m, 4);
    assert_eq!(m.registers.pc, 0x0150);
    assert_eq!(m.registers.sp, sp);
}

#[test]
fn taken_conditional_branches_move_pc() {
    let mut m = machine();
    m.registers.pc = 0x0150;
    m.registers.set_zero_flag(true);
    m.registers.set_carry_flag(false);
    let sp = m.registers.sp;
    call_z_a16(&mut m, 0x1234);
    assert_eq!(m.registers.pc, 0x1234);
    assert_eq!(m.registers.sp, sp - 2);
    jr_nc_r8(&mut m, 4);
    assert_eq!(m.registers.pc, 0x1238);
    ret_z(&mut m, ());
    assert_eq!(m.registers.pc, 0x0150);
    assert_eq!(m.registers.sp, sp);
    m.registers.set_zero_flag(false);
    jr_z_r8(&mut m, 10);
    assert_eq!(m.registers.pc, 0x0150);
}

#[test]
fn relative_jump_wraps() {
    let mut m = machine();
    m.registers.pc = 0x0001;
    jr_r8(&mut m, -3);
    assert_eq!(m.registers.pc, 0xFFFE);
    jr_r8(&mut m, 5);
    assert_eq!(m.registers.pc, 0x0003);
}

#[test]
fn reti_and_rst() {
    let mut m = machine();
    m.registers.pc = 0x4000;
    rst_38h(&mut m, ());
    assert_eq!(m.registers.pc, 0x0038);
    assert!(!m.interrupts_enabled);
    reti(&mut m, ());
    assert_eq!(m.registers.pc, 0x4000);
    assert!(m.interrupts_enabled);
}

#[test]
fn unmodelled_instructions_fail_loudly() {
    let mut m = machine();
    assert_eq!(halt(&mut m, ()), Err(ExecutionError::Unimplemented(0x76)));
    assert_eq!(stop(&mut m, 0), Err(ExecutionError::Unimplemented(0x10)));
    assert_eq!(di(&mut m, ()), Err(ExecutionError::Unimplemented(0xF3)));
    assert_eq!(ei(&mut m, ()), Err(ExecutionError::Unimplemented(0xFB)));
    assert_eq!(prefix(&mut m, ()), Err(ExecutionError::Prefix));
    assert_eq!(none(&mut m, 0xD3), Err(ExecutionError::Undefined(0xD3)));
    noop(&mut m, ());
    assert_eq!(m.registers.pc, 0);
}
