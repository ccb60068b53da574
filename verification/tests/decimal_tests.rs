use snowflake::decimal::u64_to_decimal;

#[test]
fn zero() {
    assert_eq!(u64_to_decimal(0), b"0".to_vec());
}

#[test]
fn single_digit() {
    assert_eq!(u64_to_decimal(7), b"7".to_vec());
}

#[test]
fn many_digits() {
    assert_eq!(u64_to_decimal(1234567890), b"1234567890".to_vec());
}

#[test]
fn round_number() {
    assert_eq!(u64_to_decimal(1000), b"1000".to_vec());
}

#[test]
fn largest() {
    assert_eq!(u64_to_decimal(u64::MAX), b"18446744073709551615".to_vec());
}
