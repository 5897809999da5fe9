use blog::config::{parse_port, validate_config};
use blog::errors::AppError;

#[test]
fn parse_port_accepts_plain_numbers() {
    assert_eq!(parse_port(b"8080"), Some(8080));
    assert_eq!(parse_port(b"0"), Some(0));
    assert_eq!(parse_port(b"65535"), Some(65535));
    assert_eq!(parse_port(b"00080"), Some(80));
}

#[test]
fn parse_port_rejects_bad_input() {
    assert_eq!(parse_port(b""), None);
    assert_eq!(parse_port(b"65536"), None);
    assert_eq!(parse_port(b"999999999999999999999"), None);
    assert_eq!(parse_port(b"80a0"), None);
    assert_eq!(parse_port(b"-1"), None);
    assert_eq!(parse_port(b" 80"), None);
}

#[test]
fn startup_requires_database_url() {
    let r = validate_config(None, Some(b"8080".to_vec()));
    assert_eq!(r.unwrap_err(), AppError::Config);
}

#[test]
fn startup_requires_numeric_port() {
    let url = Some(String::from("postgres://localhost/blog"));
    assert_eq!(validate_config(url.clone(), None).unwrap_err(), AppError::Config);
    assert_eq!(
        validate_config(url.clone(), Some(b"eighty".to_vec())).unwrap_err(),
        AppError::Config
    );
    assert_eq!(validate_config(url, Some(b"".to_vec())).unwrap_err(), AppError::Config);
}

#[test]
fn startup_succeeds_on_complete_configuration() {
    let cfg = validate_config(
        Some(String::from("postgres://localhost/blog")),
        Some(b"8080".to_vec()),
    )
    .unwrap();
    assert_eq!(cfg.database_url, "postgres://localhost/blog");
    assert_eq!(cfg.port, 8080);
}
