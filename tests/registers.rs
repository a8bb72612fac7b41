use lameboy::register::RegisterGroup;
use lameboy::stack::Stack;

#[test]
fn flag_register_keeps_low_nibble_zero() {
    let mut r = RegisterGroup::new();
    r.set_af(0x12FF);
    assert_eq!(r.get_a(), 0x12);
    assert_eq!(r.get_f(), 0xF0);
    assert_eq!(r.get_af(), 0x12F0);
    assert!(r.get_zero_flag() && r.get_subtraction_flag() && r.get_half_carry_flag() && r.get_carry_flag());
    r.set_subtraction_flag(false);
    assert_eq!(r.get_f(), 0xB0);
    r.set_f(0x5A);
    assert_eq!(r.get_f(), 0x50);
    assert!(!r.get_zero_flag() && r.get_subtraction_flag() && !r.get_half_carry_flag() && r.get_carry_flag());
}

#[test]
fn pairs_split_into_halves() {
    let mut r = RegisterGroup::new();
    r.set_bc(0x1234);
    r.set_de(0xABCD);
    r.set_hl(0xC001);
    assert_eq!((r.get_b(), r.get_c()), (0x12, 0x34));
    assert_eq!((r.get_d(), r.get_e()), (0xAB, 0xCD));
    assert_eq!((r.get_h(), r.get_l()), (0xC0, 0x01));
    r.set_l(0xFF);
    assert_eq!(r.get_hl(), 0xC0FF);
}

#[test]
fn push_wide_then_pop_wide_restores_value_and_sp() {
    for &value in &[0x0000u16, 0x1234, 0xFFFF, 0x8001] {
        let mut stack = Stack::new(0xFFFE);
        let mut sp: u16 = 0xFFFE;
        stack.push_wide(&mut sp, value);
        assert_eq!(sp, 0xFFFC);
        assert_eq!(stack.pop_wide(&mut sp), value);
        assert_eq!(sp, 0xFFFE);
    }
}

#[test]
fn push_writes_high_byte_first() {
    let mut stack = Stack::new(0xFFFE);
    let mut sp: u16 = 0xFFFE;
    stack.push_wide(&mut sp, 0xABCD);
    assert_eq!(stack.pop(&mut sp), 0xCD);
    assert_eq!(stack.pop(&mut sp), 0xAB);
    assert_eq!(sp, 0xFFFE);
}
