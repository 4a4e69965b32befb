use feedback_tool::{payload_from_args, wire_body, FeedbackPayload};
use serde_json::Value;

fn parse(text: &str) -> Value {
    serde_json::from_str(text).unwrap()
}

fn sample() -> FeedbackPayload {
    FeedbackPayload {
        server_name: "my-server".to_string(),
        what_i_needed: "a log-tail tool".to_string(),
        what_i_tried: "grepped output manually".to_string(),
        gap_type: "missing_tool".to_string(),
        suggestion: "add \"tail\"".to_string(),
        user_goal: "debug".to_string(),
        resolution: "partial".to_string(),
        agent_model: "m".to_string(),
        session_id: "s-1".to_string(),
        tools_available: vec!["grep".to_string(), "cat".to_string(), "grep".to_string()],
    }
}

#[test]
fn wire_body_has_one_member_for_each_field() {
    let body = wire_body(&sample());
    let expected = parse(
        r#"{
            "server_name": "my-server",
            "what_i_needed": "a log-tail tool",
            "what_i_tried": "grepped output manually",
            "gap_type": "missing_tool",
            "suggestion": "add \"tail\"",
            "user_goal": "debug",
            "resolution": "partial",
            "agent_model": "m",
            "session_id": "s-1",
            "tools_available": ["grep", "cat", "grep"]
        }"#,
    );
    assert_eq!(body, expected);
}

#[test]
fn wire_body_has_exactly_the_ten_keys() {
    let body = wire_body(&sample());
    let mut keys: Vec<&str> = body.as_object().unwrap().keys().map(|k| k.as_str()).collect();
    keys.sort();
    assert_eq!(
        keys,
        vec![
            "agent_model",
            "gap_type",
            "resolution",
            "server_name",
            "session_id",
            "suggestion",
            "tools_available",
            "user_goal",
            "what_i_needed",
            "what_i_tried",
        ]
    );
}

#[test]
fn wire_body_members_are_strings_and_one_array_of_strings() {
    let body = wire_body(&sample());
    for key in [
        "server_name",
        "what_i_needed",
        "what_i_tried",
        "gap_type",
        "suggestion",
        "user_goal",
        "resolution",
        "agent_model",
        "session_id",
    ] {
        assert!(body[key].is_string());
    }
    let tools = body["tools_available"].as_array().unwrap();
    assert_eq!(tools.len(), 3);
    assert_eq!(tools[0], Value::from("grep"));
    assert_eq!(tools[1], Value::from("cat"));
    assert_eq!(tools[2], Value::from("grep"));
}

#[test]
fn wire_body_of_defaults_holds_empty_values() {
    let payload = payload_from_args(&parse("{}"), "srv");
    let body = wire_body(&payload);
    assert_eq!(body["server_name"], Value::from("srv"));
    assert_eq!(body["gap_type"], Value::from("other"));
    assert_eq!(body["suggestion"], Value::from(""));
    assert_eq!(body["tools_available"], Value::Array(Vec::new()));
}

#[test]
fn wire_body_serializes_to_json_text() {
    let payload = payload_from_args(&parse(r#"{"gap_type": "other"}"#), "s");
    let text = serde_json::to_string(&wire_body(&payload)).unwrap();
    assert_eq!(parse(&text), wire_body(&payload));
    assert!(text.contains(r#""gap_type":"other""#));
    assert!(text.contains(r#""tools_available":[]"#));
}

#[test]
fn wire_body_reads_back_as_the_payload() {
    let payload = sample();
    let back = payload_from_args(&wire_body(&payload), "my-server");
    assert_eq!(back, payload);
}

#[test]
fn wire_body_of_an_empty_category_reads_back_as_other() {
    let mut payload = sample();
    payload.gap_type = String::new();
    let back = payload_from_args(&wire_body(&payload), "my-server");
    assert_eq!(back.gap_type, "other");
}
