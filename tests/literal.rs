use wishbone_config::{get_base, parse_u16, parse_u32, ConfigError};

fn failed_digits(r: Result<u32, ConfigError>) -> String {
    match r {
        Err(ConfigError::NumberParseError(d, _)) => d,
        other => panic!("expected a malformed literal, got {:?}", other),
    }
}

#[test]
fn decimal_literals_read_in_base_ten() {
    assert_eq!(parse_u32("0").unwrap(), 0);
    assert_eq!(parse_u32("7").unwrap(), 7);
    assert_eq!(parse_u32("1234").unwrap(), 1234);
    assert_eq!(parse_u32("4294967295").unwrap(), u32::MAX);
    assert_eq!(parse_u16("65535").unwrap(), u16::MAX);
}

#[test]
fn decimal_literal_too_large_fails() {
    assert_eq!(failed_digits(parse_u32("4294967296")), "4294967296");
    assert!(parse_u16("65536").is_err());
}

#[test]
fn hex_and_binary_prefixes() {
    assert_eq!(parse_u32("0x1A").unwrap(), 26);
    assert_eq!(parse_u32("0X1a").unwrap(), 26);
    assert_eq!(parse_u32("0b101").unwrap(), 5);
    assert_eq!(parse_u32("0B11").unwrap(), 3);
    assert_eq!(parse_u32("0xffffffff").unwrap(), u32::MAX);
}

#[test]
fn leading_zero_means_octal() {
    assert_eq!(parse_u32("010").unwrap(), 8);
    assert_eq!(parse_u32("0007").unwrap(), 7);
    assert_eq!(parse_u16("0777").unwrap(), 511);
}

#[test]
fn single_zero_is_decimal_zero() {
    assert_eq!(get_base("0"), ("0", 10));
    assert_eq!(parse_u32("0").unwrap(), 0);
    assert_eq!(parse_u16("0").unwrap(), 0);
}

#[test]
fn only_zeros_is_malformed() {
    assert_eq!(get_base("00"), ("", 8));
    assert_eq!(failed_digits(parse_u32("00")), "");
    assert_eq!(failed_digits(parse_u32("0000")), "");
}

#[test]
fn width_decides_overflow() {
    assert!(matches!(parse_u16("0x10000"), Err(ConfigError::NumberParseError(ref d, _)) if d == "10000"));
    assert_eq!(parse_u32("0x10000").unwrap(), 65536);
    assert_eq!(parse_u16("0xffff").unwrap(), 0xffff);
}

#[test]
fn get_base_splits_prefixes() {
    assert_eq!(get_base("0x1A"), ("1A", 16));
    assert_eq!(get_base("0X1A"), ("1A", 16));
    assert_eq!(get_base("0b10"), ("10", 2));
    assert_eq!(get_base("0B10"), ("10", 2));
    assert_eq!(get_base("0017"), ("17", 8));
    assert_eq!(get_base("123"), ("123", 10));
    assert_eq!(get_base(""), ("", 10));
}

#[test]
fn malformed_digits_are_reported_after_the_prefix() {
    assert_eq!(failed_digits(parse_u32("0x")), "");
    assert_eq!(failed_digits(parse_u32("0xZZ")), "ZZ");
    assert_eq!(failed_digits(parse_u32("0b102")), "102");
    assert_eq!(failed_digits(parse_u32("08")), "8");
    assert_eq!(failed_digits(parse_u32("12a")), "12a");
    assert_eq!(failed_digits(parse_u32("")), "");
    assert_eq!(failed_digits(parse_u32("-1")), "-1");
}

#[test]
fn plus_sign_is_accepted() {
    assert_eq!(parse_u32("+5").unwrap(), 5);
    assert_eq!(parse_u32("0x+1A").unwrap(), 26);
    assert_eq!(failed_digits(parse_u32("+")), "+");
}

#[test]
fn parsing_is_repeatable() {
    for s in ["0x1A", "010", "00", "42", "0b2"] {
        assert_eq!(format!("{:?}", parse_u32(s)), format!("{:?}", parse_u32(s)));
    }
}
