use lameboy::bits::{
    assign_bit, bit_size, check_half_carry_add, check_half_carry_sub, check_half_carry_wide_add,
    check_half_carry_wide_sub, clear_bit, get_bit, max_bit_index, set_bit, swap,
};

#[test]
fn half_carry_add_fires_on_low_nibble_overflow() {
    assert!(check_half_carry_add(0x0F, 0x01));
    assert!(!check_half_carry_add(0x10, 0x01));
    assert!(check_half_carry_add(0x08, 0x08));
    assert!(!check_half_carry_add(0x07, 0x08));
    assert!(!check_half_carry_add(0xF0, 0xF0));
}

#[test]
fn half_carry_wide_add_fires_at_bit_eleven() {
    assert!(check_half_carry_wide_add(0x0FFF, 0x0001));
    assert!(!check_half_carry_wide_add(0x1000, 0x0001));
    assert!(!check_half_carry_wide_add(0x00FF, 0x0001));
    assert!(check_half_carry_wide_add(0x0800, 0x0800));
}

#[test]
fn half_carry_sub_fires_on_borrow() {
    assert!(check_half_carry_sub(0x10, 0x01));
    assert!(!check_half_carry_sub(0x0F, 0x01));
    assert!(check_half_carry_wide_sub(0x1000, 0x0001));
    assert!(!check_half_carry_wide_sub(0x0FFF, 0x0001));
}

#[test]
fn bit_helpers() {
    assert!(get_bit(0b1000_0000, 7));
    assert!(!get_bit(0b1000_0000, 6));
    assert_eq!(set_bit(0b0000_0001, 3), 0b0000_1001);
    assert_eq!(clear_bit(0b1111_1111, 0), 0b1111_1110);
    assert_eq!(assign_bit(0b0000_0000, 5, true), 0b0010_0000);
    assert_eq!(assign_bit(0b0010_0000, 5, false), 0b0000_0000);
    assert_eq!(swap(0xA5), 0x5A);
    assert_eq!(bit_size(0u8), 8);
    assert_eq!(bit_size(0u16), 16);
    assert_eq!(max_bit_index(0u8), 7);
}
