use nes_core::bitops::BitOps;

#[test]
fn test_is_bit_set() {
    let byte: u8 = 0b0010_1100;
    assert!(byte.is_bit_set(2));
    assert!(!byte.is_bit_set(4));
}

#[test]
fn test_set_bit() {
    let mut byte: u8 = 0b0010_1100;
    byte.set_bit(0);
    byte.set_bit(3);
    assert_eq!(byte, 0b0010_1101);
}

#[test]
fn test_clear_bit() {
    let mut byte: u8 = 0b0010_1100;
    byte.clear_bit(5);
    byte.clear_bit(0);
    assert_eq!(byte, 0b0000_1100);
}

#[test]
fn test_replace_bits() {
    let byte: u16 = 0b00000_00100;
    assert_eq!(byte.replace_bits(0b11111_00000, 0b10010_11111), 0b10010_00100);
}

#[test]
fn test_assign_bit() {
    let mut byte: u8 = 0b0010_1100;
    byte.assign_bit(0, true);
    assert_eq!(byte, 0b0010_1101);
    byte.assign_bit(2, false);
    assert_eq!(byte, 0b0010_1001);
}

#[test]
fn test_replace_bits_keeps_unmasked() {
    let byte: u8 = 0b1010_0110;
    let mask: u8 = 0b0000_1111;
    let replaced = byte.replace_bits(mask, 0b0101_0101);
    assert_eq!(replaced & !mask, byte & !mask);
    assert_eq!(replaced, 0b1010_0101);
}
