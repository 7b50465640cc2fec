use linkerd_sweep::timeout::{parse_timeout, parse_timeout_millis, TimeoutError};
use std::time;

#[test]
fn test_parse_timeout_invalid() {
    assert!(parse_timeout("120").is_err());
    assert!(parse_timeout("s").is_err());
    assert!(parse_timeout("foobars").is_err());
    assert!(parse_timeout("18446744073709551615s").is_err())
}

#[test]
fn test_parse_timeout_seconds() {
    assert_eq!(time::Duration::from_secs(0), parse_timeout("0").unwrap());
    assert_eq!(time::Duration::from_secs(0), parse_timeout("0ms").unwrap());
    assert_eq!(time::Duration::from_secs(0), parse_timeout("0s").unwrap());
    assert_eq!(time::Duration::from_secs(0), parse_timeout("0m").unwrap());

    assert_eq!(
        time::Duration::from_secs(120),
        parse_timeout("120s").unwrap()
    );
    assert_eq!(
        time::Duration::from_secs(120),
        parse_timeout("120000ms").unwrap()
    );
    assert_eq!(time::Duration::from_secs(120), parse_timeout("2m").unwrap());
    assert_eq!(
        time::Duration::from_secs(7200),
        parse_timeout("2h").unwrap()
    );
    assert_eq!(
        time::Duration::from_secs(172800),
        parse_timeout("2d").unwrap()
    );
}

#[test]
fn timeout_error_variants() {
    assert_eq!(parse_timeout_millis(""), Err(TimeoutError::MissingMagnitude));
    assert_eq!(parse_timeout_millis("ms"), Err(TimeoutError::MissingMagnitude));
    assert_eq!(parse_timeout_millis("1x2s"), Err(TimeoutError::InvalidMagnitude));
    assert_eq!(parse_timeout_millis("-5s"), Err(TimeoutError::InvalidMagnitude));
    assert_eq!(parse_timeout_millis("99999999999999999999ms"), Err(TimeoutError::InvalidMagnitude));
    assert_eq!(parse_timeout_millis("120"), Err(TimeoutError::InvalidUnit));
    assert_eq!(parse_timeout_millis("5sec"), Err(TimeoutError::InvalidUnit));
    assert_eq!(parse_timeout_millis("5 s"), Err(TimeoutError::InvalidUnit));
    assert_eq!(parse_timeout_millis("18446744073709551615s"), Err(TimeoutError::Overflow));
}

#[test]
fn timeout_exact_millis() {
    assert_eq!(parse_timeout_millis("+5s"), Ok(5000));
    assert_eq!(parse_timeout_millis("007ms"), Ok(7));
    assert_eq!(parse_timeout_millis("3m"), Ok(180_000));
    assert_eq!(parse_timeout_millis("1h"), Ok(3_600_000));
    assert_eq!(parse_timeout_millis("1d"), Ok(86_400_000));
    assert_eq!(parse_timeout_millis("18446744073709551615ms"), Ok(u64::MAX));
    assert_eq!(parse_timeout("1500ms").unwrap(), time::Duration::from_millis(1500));
}
