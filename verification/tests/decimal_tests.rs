use launcher_core::decimal::PortParseError;
use launcher_core::decimal::parse_port;
use launcher_core::decimal::u16_to_decimal;

#[test]
fn renders_small_and_large_ports() {
    assert_eq!(u16_to_decimal(0).as_str(), "0");
    assert_eq!(u16_to_decimal(7).as_str(), "7");
    assert_eq!(u16_to_decimal(80).as_str(), "80");
    assert_eq!(u16_to_decimal(8085).as_str(), "8085");
    assert_eq!(u16_to_decimal(65535).as_str(), "65535");
}

#[test]
fn parses_decimal_strings() {
    assert_eq!(parse_port("0"), Ok(0));
    assert_eq!(parse_port("1"), Ok(1));
    assert_eq!(parse_port("8085"), Ok(8085));
    assert_eq!(parse_port("65535"), Ok(65535));
    assert_eq!(parse_port("0080"), Ok(80));
}

#[test]
fn empty_string_is_rejected() {
    assert_eq!(parse_port(""), Err(PortParseError::Empty));
}

#[test]
fn non_digit_characters_are_rejected() {
    assert_eq!(parse_port("80a5"), Err(PortParseError::InvalidDigit));
    assert_eq!(parse_port("-1"), Err(PortParseError::InvalidDigit));
    assert_eq!(parse_port("+80"), Err(PortParseError::InvalidDigit));
    assert_eq!(parse_port("99999x"), Err(PortParseError::InvalidDigit));
}

#[test]
fn oversized_values_are_rejected() {
    assert_eq!(parse_port("65536"), Err(PortParseError::OutOfRange));
    assert_eq!(parse_port("99999999999999999999"), Err(PortParseError::OutOfRange));
}

#[test]
fn port_round_trips_through_its_decimal_string() {
    // The value written to the environment reads back unchanged.
    for port in [0u16, 1, 9, 10, 8085, 8999, 65535] {
        let written = u16_to_decimal(port);
        assert_eq!(parse_port(written.as_str()), Ok(port));
    }
}
