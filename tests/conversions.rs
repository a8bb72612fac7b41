use lameboy::conversions::{
    offset_to_far_address, pair_to_wide, simple_to_wide, wide_to_pair, wide_to_simple,
};
use lameboy::types::{AddressOffset, Byte, FarAddress, Value, WideValue};

#[test]
fn register_test_wide_to_simple() {
    assert_eq!(wide_to_simple(0b1111_1111_1111_1111), (0b1111_1111, 0b1111_1111));
    assert_eq!(wide_to_simple(0b0000_0000_0000_0000), (0b0000_0000, 0b0000_0000));
    assert_eq!(wide_to_simple(0b1110_1111_1111_0111), (0b1110_1111, 0b1111_0111));
    assert_eq!(wide_to_simple(0b1000_0000_0000_0111), (0b1000_0000, 0b0000_0111));
}

#[test]
fn register_test_simple_to_wide() {
    assert_eq!(simple_to_wide(&(0b1111_1111, 0b1111_1111)), 0b1111_1111_1111_1111);
    assert_eq!(simple_to_wide(&(0b0000_0000, 0b0000_0000)), 0b0000_0000_0000_0000);
    assert_eq!(simple_to_wide(&(0b1111_0000, 0b0000_1111)), 0b1111_0000_0000_1111);
    assert_eq!(simple_to_wide(&(0b1000_0000, 0b0000_0001)), 0b1000_0000_0000_0001);
    assert_eq!(simple_to_wide(&(0b0000_0000, 0b0000_0001)), 0b0000_0000_0000_0001);
}

#[test]
fn conversions_test_wide_to_simple() {
    assert_eq!(wide_to_pair(0b1111_1111_1111_1111), (0b1111_1111, 0b1111_1111));
    assert_eq!(wide_to_pair(0b0000_0000_0000_0000), (0b0000_0000, 0b0000_0000));
    assert_eq!(wide_to_pair(0b1110_1111_1111_0111), (0b1110_1111, 0b1111_0111));
    assert_eq!(wide_to_pair(0b1000_0000_0000_0111), (0b1000_0000, 0b0000_0111));
}

#[test]
fn conversions_test_simple_to_wide() {
    assert_eq!(pair_to_wide(0b1111_1111, 0b1111_1111), 0b1111_1111_1111_1111);
    assert_eq!(pair_to_wide(0b0000_0000, 0b0000_0000), 0b0000_0000_0000_0000);
    assert_eq!(pair_to_wide(0b1111_0000, 0b0000_1111), 0b1111_0000_0000_1111);
    assert_eq!(pair_to_wide(0b1000_0000, 0b0000_0001), 0b1000_0000_0000_0001);
    assert_eq!(pair_to_wide(0b0000_0000, 0b0000_0001), 0b0000_0000_0000_0001);
}

#[test]
fn test_offset_to_far_address() {
    assert_eq!(offset_to_far_address(-1), FarAddress::MAX);
    assert_eq!(offset_to_far_address(1), 1);
    assert_eq!(offset_to_far_address(AddressOffset::MAX), AddressOffset::MAX as FarAddress);
}

#[test]
fn test_type_aliases() {
    assert_eq!(std::mem::size_of::<Value>() * 2, std::mem::size_of::<WideValue>());
    assert_eq!(std::mem::size_of::<Byte>(), std::mem::size_of::<Value>());
}

#[test]
fn offset_to_far_address_wraps_negative_offsets() {
    assert_eq!(offset_to_far_address(-2), 0xFFFE);
    assert_eq!(offset_to_far_address(AddressOffset::MIN), 0xFF80);
    assert_eq!(offset_to_far_address(0), 0);
}
