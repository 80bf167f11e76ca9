use postgres_manager::text::{
    bool_to_str, join_comma, mask_key, parse_flag, parse_port, u64_to_dec,
};
use postgres_manager::browser::normalize_endpoint;

#[test]
fn mask_short_secret_is_all_stars() {
    assert_eq!(mask_key("AbCd"), "****");
    assert_eq!(mask_key(""), "");
    assert_eq!(mask_key("12345678"), "********");
}

#[test]
fn mask_long_secret_keeps_ends() {
    assert_eq!(mask_key("ABCD1234EFGH"), "ABCD.....EFGH");
    assert_eq!(mask_key("123456789"), "1234.....6789");
}

#[test]
fn decimal_rendering_is_exact() {
    assert_eq!(u64_to_dec(0), "0");
    assert_eq!(u64_to_dec(7), "7");
    assert_eq!(u64_to_dec(65535), "65535");
    assert_eq!(u64_to_dec(1000000), "1000000");
}

#[test]
fn port_parsing_accepts_decimal_in_range() {
    assert_eq!(parse_port("0"), Some(0));
    assert_eq!(parse_port("8080"), Some(8080));
    assert_eq!(parse_port("65535"), Some(65535));
}

#[test]
fn port_parsing_rejects_bad_input() {
    assert_eq!(parse_port(""), None);
    assert_eq!(parse_port("12x"), None);
    assert_eq!(parse_port("-1"), None);
    assert_eq!(parse_port("65536"), None);
    assert_eq!(parse_port("99999999999"), None);
}

#[test]
fn flag_parsing_is_case_insensitive_true() {
    assert!(parse_flag("true"));
    assert!(parse_flag("TRUE"));
    assert!(parse_flag("True"));
    assert!(parse_flag("tRuE"));
    assert!(!parse_flag("false"));
    assert!(!parse_flag("yes"));
    assert!(!parse_flag(""));
    assert!(!parse_flag("truth"));
}

#[test]
fn flag_rendering_round_trips() {
    assert_eq!(bool_to_str(true), "true");
    assert_eq!(bool_to_str(false), "false");
    assert!(parse_flag(&bool_to_str(true)));
    assert!(!parse_flag(&bool_to_str(false)));
}

#[test]
fn join_with_commas() {
    let names = vec!["alpha".to_string(), "beta".to_string(), "gamma".to_string()];
    assert_eq!(join_comma(&names), "alpha, beta, gamma");
    let one = vec!["solo".to_string()];
    assert_eq!(join_comma(&one), "solo");
    let none: Vec<String> = Vec::new();
    assert_eq!(join_comma(&none), "");
}

#[test]
fn endpoint_normalization_adds_scheme() {
    assert_eq!(normalize_endpoint("minio.local:9000"), "http://minio.local:9000");
    assert_eq!(normalize_endpoint("http://minio.local"), "http://minio.local");
    assert_eq!(normalize_endpoint("https://s3.example.com"), "https://s3.example.com");
}
