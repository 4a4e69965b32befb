use feedback_tool::{
    conclude, payload_from_args, prepare, wire_body, Outcome, SubmitConfig, ACCEPTED_STATUS,
    API_KEY_VARIABLE, AUTHORIZATION_HEADER, BEARER_PREFIX, DEFAULT_ENDPOINT, ENDPOINT_VARIABLE,
    FEEDBACK_PATH, MESSAGE_ACCEPTED, MESSAGE_CLIENT_ERROR, MESSAGE_REJECTED, MESSAGE_UNREACHABLE,
    REQUEST_TIMEOUT_SECS,
};
use serde_json::Value;

const THANKS: &str = "Thank you. Your feedback has been recorded and will be used to improve this server's capabilities.";
const DELIVERY_ISSUE: &str = "Feedback noted (delivery issue, but recorded locally).";
const UNAVAILABLE: &str = "Feedback noted (sidecar unavailable, but your input is appreciated).";
const CLIENT_ERROR: &str = "Feedback noted (HTTP client error).";

fn parse(text: &str) -> Value {
    serde_json::from_str(text).unwrap()
}

fn config(endpoint: &str, key: Option<&str>) -> SubmitConfig {
    SubmitConfig { endpoint_base: endpoint.to_string(), api_key: key.map(|k| k.to_string()) }
}

#[test]
fn status_201_is_thanked() {
    let receipt = conclude(&Outcome::Responded(201));
    assert_eq!(receipt.message, THANKS);
    assert_eq!(receipt.trace, None);
}

#[test]
fn status_500_is_a_delivery_issue_with_one_trace() {
    let receipt = conclude(&Outcome::Responded(500));
    assert_eq!(receipt.message, DELIVERY_ISSUE);
    assert_eq!(receipt.trace, Some("PatchworkMCP sidecar returned 500".to_string()));
}

#[test]
fn other_success_codes_are_delivery_issues() {
    for status in [200u16, 202, 204, 299] {
        let receipt = conclude(&Outcome::Responded(status));
        assert_eq!(receipt.message, DELIVERY_ISSUE);
        assert_eq!(receipt.trace, Some(format!("PatchworkMCP sidecar returned {}", status)));
    }
}

#[test]
fn every_status_but_201_is_a_delivery_issue() {
    for status in 0..=u16::MAX {
        let receipt = conclude(&Outcome::Responded(status));
        if status == 201 {
            assert_eq!(receipt.message, THANKS);
            assert_eq!(receipt.trace, None);
        } else {
            assert_eq!(receipt.message, DELIVERY_ISSUE);
            assert_eq!(receipt.trace, Some(format!("PatchworkMCP sidecar returned {}", status)));
        }
    }
}

#[test]
fn trace_holds_the_status_in_decimal() {
    let trace = |status: u16| conclude(&Outcome::Responded(status)).trace.unwrap();
    assert_eq!(trace(0), "PatchworkMCP sidecar returned 0");
    assert_eq!(trace(7), "PatchworkMCP sidecar returned 7");
    assert_eq!(trace(10), "PatchworkMCP sidecar returned 10");
    assert_eq!(trace(99), "PatchworkMCP sidecar returned 99");
    assert_eq!(trace(100), "PatchworkMCP sidecar returned 100");
    assert_eq!(trace(404), "PatchworkMCP sidecar returned 404");
    assert_eq!(trace(1000), "PatchworkMCP sidecar returned 1000");
    assert_eq!(trace(65535), "PatchworkMCP sidecar returned 65535");
}

#[test]
fn no_response_is_unavailable_with_the_error_traced() {
    let receipt = conclude(&Outcome::Unreachable("operation timed out".to_string()));
    assert_eq!(receipt.message, UNAVAILABLE);
    assert_eq!(
        receipt.trace,
        Some("PatchworkMCP: could not reach sidecar: operation timed out".to_string())
    );
}

#[test]
fn no_response_without_detail_is_still_traced() {
    let receipt = conclude(&Outcome::Unreachable(String::new()));
    assert_eq!(receipt.message, UNAVAILABLE);
    assert_eq!(receipt.trace, Some("PatchworkMCP: could not reach sidecar: ".to_string()));
}

#[test]
fn client_error_is_acknowledged_without_trace() {
    let receipt = conclude(&Outcome::ClientError);
    assert_eq!(receipt.message, CLIENT_ERROR);
    assert_eq!(receipt.trace, None);
}

#[test]
fn message_is_always_one_of_four() {
    let outcomes = [
        Outcome::ClientError,
        Outcome::Responded(201),
        Outcome::Responded(200),
        Outcome::Responded(404),
        Outcome::Responded(503),
        Outcome::Unreachable("connection refused".to_string()),
    ];
    for outcome in outcomes.iter() {
        let message = conclude(outcome).message;
        assert!([THANKS, DELIVERY_ISSUE, UNAVAILABLE, CLIENT_ERROR].contains(&message.as_str()));
    }
}

#[test]
fn constants_are_as_documented() {
    assert_eq!(ENDPOINT_VARIABLE, "FEEDBACK_SIDECAR_URL");
    assert_eq!(API_KEY_VARIABLE, "FEEDBACK_API_KEY");
    assert_eq!(BEARER_PREFIX, "Bearer ");
    assert_eq!(MESSAGE_ACCEPTED, THANKS);
    assert_eq!(MESSAGE_REJECTED, DELIVERY_ISSUE);
    assert_eq!(MESSAGE_UNREACHABLE, UNAVAILABLE);
    assert_eq!(MESSAGE_CLIENT_ERROR, CLIENT_ERROR);
    assert_eq!(DEFAULT_ENDPOINT, "http://localhost:8099");
    assert_eq!(FEEDBACK_PATH, "/api/feedback");
    assert_eq!(AUTHORIZATION_HEADER, "Authorization");
    assert_eq!(REQUEST_TIMEOUT_SECS, 5);
    assert_eq!(ACCEPTED_STATUS, 201);
}

#[test]
fn unset_endpoint_is_the_loopback_default() {
    let config = SubmitConfig::from_settings(None, None);
    assert_eq!(config.endpoint_base, "http://localhost:8099");
    assert_eq!(config.api_key, None);
}

#[test]
fn set_endpoint_is_taken_as_given() {
    let config = SubmitConfig::from_settings(Some("https://collector.example:9000".to_string()), None);
    assert_eq!(config.endpoint_base, "https://collector.example:9000");
    let config = SubmitConfig::from_settings(Some(String::new()), None);
    assert_eq!(config.endpoint_base, "");
}

#[test]
fn empty_key_is_no_key() {
    assert_eq!(SubmitConfig::from_settings(None, Some(String::new())).api_key, None);
    assert_eq!(
        SubmitConfig::from_settings(None, Some("s3cret".to_string())).api_key,
        Some("s3cret".to_string())
    );
    assert_eq!(
        SubmitConfig::from_settings(None, Some(" ".to_string())).api_key,
        Some(" ".to_string())
    );
}

#[test]
fn url_is_base_followed_by_the_feedback_path() {
    let payload = payload_from_args(&parse("{}"), "srv");
    let request = prepare(&payload, &SubmitConfig::from_settings(None, None));
    assert_eq!(request.url, "http://localhost:8099/api/feedback");
    let request = prepare(&payload, &config("http://10.0.0.5:7000", None));
    assert_eq!(request.url, "http://10.0.0.5:7000/api/feedback");
    let request = prepare(&payload, &config("http://host/", None));
    assert_eq!(request.url, "http://host//api/feedback");
    let request = prepare(&payload, &config("", None));
    assert_eq!(request.url, "/api/feedback");
}

#[test]
fn key_is_sent_as_bearer() {
    let payload = payload_from_args(&parse("{}"), "srv");
    let request = prepare(&payload, &config("http://h", Some("s3cret")));
    assert_eq!(request.authorization, Some("Bearer s3cret".to_string()));
    let request = prepare(&payload, &config("http://h", Some("a b")));
    assert_eq!(request.authorization, Some("Bearer a b".to_string()));
}

#[test]
fn no_key_sends_no_authorization() {
    let payload = payload_from_args(&parse("{}"), "srv");
    assert_eq!(prepare(&payload, &config("http://h", None)).authorization, None);
    assert_eq!(prepare(&payload, &config("http://h", Some(""))).authorization, None);
    let from_settings = SubmitConfig::from_settings(None, Some(String::new()));
    assert_eq!(prepare(&payload, &from_settings).authorization, None);
}

#[test]
fn request_times_out_after_five_seconds() {
    let payload = payload_from_args(&parse("{}"), "srv");
    assert_eq!(prepare(&payload, &config("http://h", None)).timeout_secs, 5);
}

#[test]
fn request_body_is_the_wire_form() {
    let payload = payload_from_args(&parse(r#"{"what_i_needed": "x", "tools_available": ["a"]}"#), "srv");
    let request = prepare(&payload, &config("http://h", Some("k")));
    assert_eq!(request.body, wire_body(&payload));
    assert_eq!(request.body["what_i_needed"], Value::from("x"));
}

#[test]
fn end_to_end_missing_tool_report() {
    let args = parse(
        r#"{"what_i_needed": "a log-tail tool", "what_i_tried": "grepped output manually", "gap_type": "missing_tool"}"#,
    );
    let payload = payload_from_args(&args, "my-server");
    let request = prepare(&payload, &SubmitConfig::from_settings(None, None));
    let expected = parse(
        r#"{
            "server_name": "my-server",
            "what_i_needed": "a log-tail tool",
            "what_i_tried": "grepped output manually",
            "gap_type": "missing_tool",
            "suggestion": "",
            "user_goal": "",
            "resolution": "",
            "agent_model": "",
            "session_id": "",
            "tools_available": []
        }"#,
    );
    assert_eq!(request.body, expected);
    assert_eq!(request.body["gap_type"], Value::from("missing_tool"));
    assert_eq!(request.body["suggestion"], Value::from(""));
    assert_eq!(request.body["tools_available"], Value::Array(Vec::new()));
    assert_eq!(request.url, "http://localhost:8099/api/feedback");
    assert_eq!(request.authorization, None);
    let receipt = conclude(&Outcome::Responded(201));
    assert_eq!(receipt.message, THANKS);
}
