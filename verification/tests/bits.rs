use dmg_core::bits::{i8_from_u8, u16_to_u8s, u8_get_bit, u8_set_bit, u8s_to_u16};

#[test]
fn word_packing() {
    assert_eq!(u8s_to_u16(0x34, 0x12), 0x1234);
    assert_eq!(u8s_to_u16(0x00, 0x00), 0x0000);
    assert_eq!(u8s_to_u16(0xFF, 0xFF), 0xFFFF);
    assert_eq!(u8s_to_u16(0xFE, 0xFF), 0xFFFE);
}

#[test]
fn word_splitting() {
    assert_eq!(u16_to_u8s(0x1234), (0x34, 0x12));
    assert_eq!(u16_to_u8s(0x0000), (0x00, 0x00));
    assert_eq!(u16_to_u8s(0xFFFF), (0xFF, 0xFF));
}

#[test]
fn word_roundtrip() {
    for &x in &[0u16, 1, 0x00FF, 0x0100, 0x1234, 0xABCD, 0xFFFF] {
        let (lo, hi) = u16_to_u8s(x);
        assert_eq!(u8s_to_u16(lo, hi), x);
    }
}

#[test]
fn get_bit() {
    assert!(u8_get_bit(0b1000_0000, 7));
    assert!(!u8_get_bit(0b0111_1111, 7));
    assert!(u8_get_bit(0b0000_0001, 0));
    assert!(!u8_get_bit(0b0000_0010, 0));
}

#[test]
fn set_bit_isolated() {
    let mut x: u8 = 0b0101_0101;
    u8_set_bit(&mut x, 1, true);
    assert_eq!(x, 0b0101_0111);
    u8_set_bit(&mut x, 0, false);
    assert_eq!(x, 0b0101_0110);
    u8_set_bit(&mut x, 7, true);
    assert_eq!(x, 0b1101_0110);
}

#[test]
fn signed_reinterpretation() {
    assert_eq!(i8_from_u8(0x00), 0);
    assert_eq!(i8_from_u8(0x7F), 127);
    assert_eq!(i8_from_u8(0x80), -128);
    assert_eq!(i8_from_u8(0xFF), -1);
    assert_eq!(i8_from_u8(0xFB), -5);
}
