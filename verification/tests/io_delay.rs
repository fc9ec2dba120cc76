use post_clock::check_port_available;
use post_clock::parse_io_delay_type;
use post_clock::Error;

#[test]
fn reserved_sentinel_means_unavailable() {
    assert_eq!(check_port_available(b"0\n"), Ok(false));
    assert_eq!(check_port_available(b"0"), Ok(false));
    assert_eq!(check_port_available(b"00"), Ok(false));
}

#[test]
fn other_values_mean_available() {
    assert_eq!(check_port_available(b"4\n"), Ok(true));
    assert_eq!(check_port_available(b"1"), Ok(true));
    assert_eq!(check_port_available(b"255"), Ok(true));
}

#[test]
fn non_numeric_content_is_a_parse_error() {
    assert_eq!(check_port_available(b"abc"), Err(Error::ConfigParseError));
    assert_eq!(check_port_available(b""), Err(Error::ConfigParseError));
    assert_eq!(check_port_available(b"\n"), Err(Error::ConfigParseError));
    assert_eq!(check_port_available(b"-1"), Err(Error::ConfigParseError));
    assert_eq!(check_port_available(b"4x\n"), Err(Error::ConfigParseError));
}

#[test]
fn out_of_range_value_is_a_parse_error() {
    assert_eq!(check_port_available(b"256"), Err(Error::ConfigParseError));
    assert_eq!(check_port_available(b"999999999999"), Err(Error::ConfigParseError));
}

#[test]
fn parse_returns_the_value() {
    assert_eq!(parse_io_delay_type(b"0\n"), Ok(0));
    assert_eq!(parse_io_delay_type(b"4\n"), Ok(4));
    assert_eq!(parse_io_delay_type(b"255"), Ok(255));
    assert_eq!(parse_io_delay_type(b"37 \t\n"), Ok(37));
    assert_eq!(parse_io_delay_type(b"abc"), Err(Error::ConfigParseError));
}
