use retry_rust::error::RetryError;

#[test]
fn new_error_has_code_minus_one() {
    let e = RetryError::new("connection reset");
    assert_eq!(e.code(), -1);
    assert_eq!(e.message(), "connection reset");
    assert_eq!(e.to_string(), "Err code: -1, Err message: connection reset");
}

#[test]
fn custom_error_keeps_code_and_message() {
    let e = RetryError::custom(503, "unavailable");
    assert_eq!(e.code(), 503);
    assert_eq!(e.message(), "unavailable");
    assert_eq!(e.to_string(), "Err code: 503, Err message: unavailable");
}

#[test]
fn error_text_covers_the_range_of_codes() {
    assert_eq!(RetryError::custom(0, "").to_string(), "Err code: 0, Err message: ");
    assert_eq!(
        RetryError::custom(i32::MIN, "x").to_string(),
        "Err code: -2147483648, Err message: x"
    );
    assert_eq!(
        RetryError::custom(i32::MAX, "y").to_string(),
        "Err code: 2147483647, Err message: y"
    );
}
