use endpoint_config::bearer_header;
use endpoint_config::ConnectionTestRequest;
use endpoint_config::ProbeFailure;
use endpoint_config::ProbeOutcome;
use endpoint_config::classify_http_response;
use endpoint_config::flatten_outcome;
use endpoint_config::models_endpoint;
use endpoint_config::probe;
use endpoint_config::test_api_connection;

#[test]
fn empty_url_is_rejected_before_any_network_access() {
    let request = ConnectionTestRequest { url: "".to_string(), api_key: "k".to_string() };
    match probe(&request) {
        ProbeOutcome::Failure(ProbeFailure::EmptyUrl) => {}
        _ => panic!("expected EmptyUrl"),
    }
}

#[test]
fn empty_key_is_rejected_before_any_network_access() {
    let request = ConnectionTestRequest {
        url: "http://host".to_string(),
        api_key: "".to_string(),
    };
    match probe(&request) {
        ProbeOutcome::Failure(ProbeFailure::EmptyKey) => {}
        _ => panic!("expected EmptyKey"),
    }
}

#[test]
fn unreachable_host_yields_a_connection_error() {
    // Port 1 on the loopback address is closed; the transport fails fast.
    let request = ConnectionTestRequest {
        url: "http://127.0.0.1:1".to_string(),
        api_key: "k".to_string(),
    };
    match probe(&request) {
        ProbeOutcome::Failure(ProbeFailure::ConnectionError(detail)) => {
            assert!(detail.starts_with("Connection failed: "));
        }
        _ => panic!("expected ConnectionError"),
    }
}

#[test]
fn non_success_status_reports_the_code() {
    match classify_http_response(401, "{\"error\":\"unauthorized\"}".to_string()) {
        ProbeOutcome::Failure(ProbeFailure::NonSuccessStatus(code)) => assert_eq!(code, 401),
        _ => panic!("expected NonSuccessStatus"),
    }
}

#[test]
fn success_status_with_well_formed_body_yields_the_document() {
    match classify_http_response(200, "{\"data\": []}".to_string()) {
        ProbeOutcome::Success(body) => {
            let expected: serde_json::Value = serde_json::from_str("{\"data\": []}").unwrap();
            assert_eq!(body, expected);
        }
        _ => panic!("expected Success"),
    }
}

#[test]
fn success_status_with_malformed_body_is_unparsable() {
    match classify_http_response(200, "not json".to_string()) {
        ProbeOutcome::Failure(ProbeFailure::UnparsableBody(detail)) => {
            assert!(detail.starts_with("Failed to parse response: "));
        }
        _ => panic!("expected UnparsableBody"),
    }
}

#[test]
fn the_authorization_header_uses_the_bearer_scheme() {
    assert_eq!(bearer_header("k"), "Bearer k");
    assert_eq!(bearer_header(""), "Bearer ");
}

#[test]
fn the_probe_target_appends_the_models_path() {
    assert_eq!(models_endpoint("http://localhost:4000"), "http://localhost:4000/models");
    assert_eq!(models_endpoint("x"), "x/models");
}

#[test]
fn test_api_connection_rejects_empty_inputs_as_errors() {
    let no_url = ConnectionTestRequest { url: "".to_string(), api_key: "k".to_string() };
    match test_api_connection(&no_url) {
        Err(e) => assert_eq!(e, "URL is required"),
        Ok(_) => panic!("expected an error for an empty URL"),
    }
    let no_key = ConnectionTestRequest { url: "http://host".to_string(), api_key: "".to_string() };
    match test_api_connection(&no_key) {
        Err(e) => assert_eq!(e, "API key is required"),
        Ok(_) => panic!("expected an error for an empty key"),
    }
}

#[test]
fn test_api_connection_flattens_transport_failures_without_error() {
    let request = ConnectionTestRequest {
        url: "http://127.0.0.1:1".to_string(),
        api_key: "k".to_string(),
    };
    let response = test_api_connection(&request).unwrap();
    assert!(!response.success);
    assert!(response.message.starts_with("Connection failed: "));
    assert!(response.models.is_none());
}

#[test]
fn flatten_reports_the_status_code_in_decimal() {
    let response = flatten_outcome(ProbeOutcome::Failure(ProbeFailure::NonSuccessStatus(404)));
    assert!(!response.success);
    assert_eq!(response.message, "API returned status 404");
    assert!(response.models.is_none());
}

#[test]
fn flatten_reports_success_with_the_payload() {
    let body: serde_json::Value = serde_json::from_str("{\"data\": []}").unwrap();
    let response = flatten_outcome(ProbeOutcome::Success(body.clone()));
    assert!(response.success);
    assert_eq!(response.message, "Connection successful");
    assert_eq!(response.models, Some(body));
}
