use static_web_server::startup::StartupError;
use static_web_server::startup::parse_port;
use static_web_server::startup::startup_port;

#[test]
fn plain_decimal_ports_parse() {
    assert_eq!(parse_port("8080"), Some(8080));
    assert_eq!(parse_port("0"), Some(0));
    assert_eq!(parse_port("1"), Some(1));
    assert_eq!(parse_port("80"), Some(80));
    assert_eq!(parse_port("65535"), Some(65535));
}

#[test]
fn leading_plus_and_zeros_parse() {
    assert_eq!(parse_port("+443"), Some(443));
    assert_eq!(parse_port("+0"), Some(0));
    assert_eq!(parse_port("0008080"), Some(8080));
}

#[test]
fn out_of_range_ports_do_not_parse() {
    assert_eq!(parse_port("65536"), None);
    assert_eq!(parse_port("99999"), None);
    assert_eq!(parse_port("4294967296"), None);
    assert_eq!(parse_port("99999999999999999999999"), None);
}

#[test]
fn malformed_ports_do_not_parse() {
    assert_eq!(parse_port(""), None);
    assert_eq!(parse_port("+"), None);
    assert_eq!(parse_port("abc"), None);
    assert_eq!(parse_port("80a"), None);
    assert_eq!(parse_port("a80"), None);
    assert_eq!(parse_port(" 80"), None);
    assert_eq!(parse_port("80 "), None);
    assert_eq!(parse_port("-1"), None);
    assert_eq!(parse_port("8 080"), None);
    assert_eq!(parse_port("8.0"), None);
    assert_eq!(parse_port("++80"), None);
}

#[test]
fn unset_port_fails_startup() {
    assert_eq!(startup_port(None), Err(StartupError::MissingPort));
}

#[test]
fn non_numeric_port_fails_startup() {
    assert_eq!(startup_port(Some(String::from("not-a-port"))), Err(StartupError::InvalidPort));
    assert_eq!(startup_port(Some(String::from(""))), Err(StartupError::InvalidPort));
    assert_eq!(startup_port(Some(String::from("70000"))), Err(StartupError::InvalidPort));
}

#[test]
fn valid_port_starts_up() {
    assert_eq!(startup_port(Some(String::from("8080"))), Ok(8080));
    assert_eq!(startup_port(Some(String::from("3000"))), Ok(3000));
}
