use lib::register::{Register8, Register16};

#[test]
fn writing_a_bit_keeps_the_others() {
    let mut reg = Register8::new();
    reg.write(0b1010_0101);
    reg.write_bit(1, true);
    assert_eq!(reg.read(), 0b1010_0111);
    reg.write_bit(7, false);
    assert_eq!(reg.read(), 0b0010_0111);
    for bit in 0..8u8 {
        let expected = (0b0010_0111u8 >> bit) & 1 == 1;
        assert_eq!(reg.read_bit(bit), expected);
    }
}

#[test]
fn set_and_unset_are_idempotent() {
    let mut reg = Register8::new();
    reg.set_bit(0);
    reg.set_bit(0);
    assert_eq!(reg.read(), 0x01);
    reg.unset_bit(0);
    reg.unset_bit(0);
    assert_eq!(reg.read(), 0x00);
}

#[test]
fn decrement_wraps_below_zero() {
    let mut reg = Register8::new();
    reg.decrement();
    assert_eq!(reg.read(), 0xff);
    reg.decrement();
    assert_eq!(reg.read(), 0xfe);
    reg.increment();
    reg.increment();
    assert_eq!(reg.read(), 0x00);
}

#[test]
fn bytes_of_a_16_bit_register() {
    let mut reg = Register16::new();
    reg.write(0xbeef);
    assert_eq!(reg.read_low(), 0xef);
    assert_eq!(reg.read_high(), 0xbe);
    reg.write_low(0x01);
    assert_eq!(reg.read(), 0xbe01);
    reg.write_high(0x02);
    assert_eq!(reg.read(), 0x0201);
    assert_eq!(reg.read_high() as u16 * 256 + reg.read_low() as u16, reg.read());
}

#[test]
fn low_and_high_increments_do_not_carry() {
    let mut reg = Register16::new();
    reg.write(0x12ff);
    reg.increment_low();
    assert_eq!(reg.read(), 0x1200);
    reg.write(0xffff);
    reg.increment_high();
    assert_eq!(reg.read(), 0x00ff);
    reg.increment();
    assert_eq!(reg.read(), 0x0100);
}

#[test]
fn bits_of_a_16_bit_register_count_from_one() {
    let mut reg = Register16::new();
    reg.write(0x1234);
    reg.write_bit(1, true);
    assert_eq!(reg.read(), 0x0001);
    assert!(reg.read_bit(1));
    assert!(!reg.read_bit(2));
    reg.write_bit(16, true);
    assert_eq!(reg.read(), 0x8000);
    assert!(reg.read_bit(16));
    reg.write_bit(16, false);
    assert_eq!(reg.read(), 0x0000);
}

#[test]
fn set_and_unset_on_16_bits_keep_the_others() {
    let mut reg = Register16::new();
    reg.write(0x00f0);
    reg.set_bit(15);
    reg.unset_bit(4);
    assert_eq!(reg.read(), 0x80e0);
}
