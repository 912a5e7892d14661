use endpoint_config::build_test_response;
use endpoint_config::str_eq;
use endpoint_config::u64_to_decimal;

#[test]
fn string_comparison_goes_by_content() {
    assert!(str_eq("api_base_url", "api_base_url"));
    assert!(!str_eq("api_base_url", "api_key"));
    assert!(str_eq("", ""));
    assert!(!str_eq("a", ""));
}

#[test]
fn decimal_formatting_is_exact() {
    assert_eq!(u64_to_decimal(0), "0");
    assert_eq!(u64_to_decimal(7), "7");
    assert_eq!(u64_to_decimal(10), "10");
    assert_eq!(u64_to_decimal(1234567890), "1234567890");
    assert_eq!(u64_to_decimal(u64::MAX), "18446744073709551615");
}

#[test]
fn the_self_check_response_reports_the_inputs_verbatim() {
    let r = build_test_response(
        1700000000,
        Some("http://localhost:4000".to_string()),
        true,
        Some("production".to_string()),
    );
    assert_eq!(r.message, "API route is working via Tauri 2.0");
    assert_eq!(r.timestamp, "1700000000");
    assert_eq!(r.env.api_base_url, Some("http://localhost:4000".to_string()));
    assert!(r.env.has_api_key);
    assert_eq!(r.env.node_env, Some("production".to_string()));
}

#[test]
fn absent_environment_values_stay_absent() {
    let r = build_test_response(0, None, false, None);
    assert_eq!(r.timestamp, "0");
    assert_eq!(r.env.api_base_url, None);
    assert!(!r.env.has_api_key);
    assert_eq!(r.env.node_env, None);
}
