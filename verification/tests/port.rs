use ghost::is_valid_port;
use ghost::MAX_PORT;

#[test]
fn is_valid_port_for_string() {
    let result = is_valid_port("str");
    assert!(result.is_err());
    assert_eq!(result.unwrap_err(), "invalid digit found in string");
}

#[test]
fn is_valid_port_for_8000() {
    let result = is_valid_port("8000");
    assert!(result.is_ok());
    assert_eq!(result.unwrap(), ());
}

#[test]
fn is_valid_port_for_max_port() {
    let result = is_valid_port(&MAX_PORT.to_string());
    assert!(result.is_err());
    assert_eq!(
        result.unwrap_err(),
        format!("value should be less than {}", MAX_PORT)
    );
}

#[test]
fn is_valid_port_for_empty() {
    let result = is_valid_port("");
    assert!(result.is_err());
    assert_eq!(result.unwrap_err(), "cannot parse integer from empty string");
}

#[test]
fn is_valid_port_for_overflow() {
    let result = is_valid_port("99999");
    assert!(result.is_err());
    assert_eq!(
        result.unwrap_err(),
        "number too large to fit in target type"
    );
}

#[test]
fn is_valid_port_accepts_leading_plus() {
    assert!(is_valid_port("+8000").is_ok());
}

#[test]
fn is_valid_port_rejects_minus() {
    let result = is_valid_port("-1");
    assert_eq!(result.unwrap_err(), "invalid digit found in string");
}
