use line_follower::logging::u16_decimal_digits;

#[test]
fn decimal_digits_zero_pads() {
    assert_eq!(&u16_decimal_digits(0), b"00000");
    assert_eq!(&u16_decimal_digits(42), b"00042");
    assert_eq!(&u16_decimal_digits(7400), b"07400");
}

#[test]
fn decimal_digits_full_range() {
    assert_eq!(&u16_decimal_digits(65535), b"65535");
    assert_eq!(&u16_decimal_digits(10000), b"10000");
    assert_eq!(&u16_decimal_digits(9999), b"09999");
}
