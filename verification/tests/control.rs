use procwire_client::control::{
    action_for_method, build_init_message, parse_control_line, ControlAction, InitMessage,
    InitSchema, MethodDef, ResponseType, Schema, PONG_MESSAGE, PROTOCOL_VERSION,
};

#[test]
fn test_build_init_message_format() {
    let mut schema = InitSchema::new();
    schema.add_method("echo", 1, ResponseType::Result);
    schema.add_method("generate", 2, ResponseType::Stream);
    schema.add_event("progress", 3);

    let msg = build_init_message("/tmp/test.sock", &schema);
    let parsed: serde_json::Value = serde_json::from_str(&msg).unwrap();

    assert_eq!(parsed["jsonrpc"], "2.0");
    assert_eq!(parsed["method"], "$init");
    assert_eq!(parsed["params"]["pipe"], "/tmp/test.sock");
    assert_eq!(parsed["params"]["version"], "2.0.0");
}

#[test]
fn test_method_schema() {
    let mut schema = InitSchema::new();
    schema.add_method("echo", 1, ResponseType::Result);

    let msg = build_init_message("/tmp/test.sock", &schema);
    let parsed: serde_json::Value = serde_json::from_str(&msg).unwrap();

    assert_eq!(parsed["params"]["schema"]["methods"]["echo"]["id"], 1);
    assert_eq!(
        parsed["params"]["schema"]["methods"]["echo"]["response"],
        "result"
    );
}

#[test]
fn test_event_schema() {
    let mut schema = InitSchema::new();
    schema.add_event("progress", 5);

    let msg = build_init_message("/tmp/test.sock", &schema);
    let parsed: serde_json::Value = serde_json::from_str(&msg).unwrap();

    assert_eq!(parsed["params"]["schema"]["events"]["progress"]["id"], 5);
}

#[test]
fn test_response_types() {
    let mut schema = InitSchema::new();
    schema.add_method("result_method", 1, ResponseType::Result);
    schema.add_method("stream_method", 2, ResponseType::Stream);
    schema.add_method("ack_method", 3, ResponseType::Ack);
    schema.add_method("none_method", 4, ResponseType::NoResponse);

    let msg = build_init_message("/tmp/test.sock", &schema);
    let parsed: serde_json::Value = serde_json::from_str(&msg).unwrap();

    let methods = &parsed["params"]["schema"]["methods"];
    assert_eq!(methods["result_method"]["response"], "result");
    assert_eq!(methods["stream_method"]["response"], "stream");
    assert_eq!(methods["ack_method"]["response"], "ack");
    assert_eq!(methods["none_method"]["response"], "none");
}

#[test]
fn test_empty_schema() {
    let schema = InitSchema::new();
    assert!(schema.is_empty());

    let msg = build_init_message("/tmp/test.sock", &schema);
    let parsed: serde_json::Value = serde_json::from_str(&msg).unwrap();

    assert!(parsed["params"]["schema"]["methods"]
        .as_object()
        .unwrap()
        .is_empty());
    assert!(parsed["params"]["schema"]["events"]
        .as_object()
        .unwrap()
        .is_empty());
}

#[test]
fn test_schema_get_method() {
    let mut schema = InitSchema::new();
    schema.add_method("echo", 1, ResponseType::Result);

    let method = schema.get_method("echo").unwrap();
    assert_eq!(method.id, 1);
    assert_eq!(method.response, ResponseType::Result);

    assert!(schema.get_method("nonexistent").is_none());
}

#[test]
fn test_schema_get_event() {
    let mut schema = InitSchema::new();
    schema.add_event("progress", 5);

    let event = schema.get_event("progress").unwrap();
    assert_eq!(event.id, 5);

    assert!(schema.get_event("nonexistent").is_none());
}

#[test]
fn test_init_message_exact_text() {
    let mut schema = InitSchema::new();
    schema.add_method("generate", 2, ResponseType::Stream);
    schema.add_method("echo", 1, ResponseType::Result);
    schema.add_event("progress", 3);
    let msg = build_init_message("/tmp/x.sock", &schema);
    assert_eq!(
        msg,
        "{\"jsonrpc\":\"2.0\",\"method\":\"$init\",\"params\":{\"pipe\":\"/tmp/x.sock\",\
         \"schema\":{\"events\":{\"progress\":{\"id\":3}},\"methods\":{\"echo\":{\"id\":1,\
         \"response\":\"result\"},\"generate\":{\"id\":2,\"response\":\"stream\"}}},\
         \"version\":\"2.0.0\"}}"
    );
}

#[test]
fn test_init_message_matches_serde_json() {
    let mut schema = InitSchema::new();
    schema.add_method("z\"quote\\back", 7, ResponseType::Ack);
    schema.add_method("tab\there\u{1}", 8, ResponseType::NoResponse);
    schema.add_method("é-unicode", 9, ResponseType::Result);
    schema.add_event("b", 2);
    schema.add_event("a", 1);
    let pipe = "C:\\pipe\n\"x\"";
    let msg = build_init_message(pipe, &schema);
    let parsed: serde_json::Value = serde_json::from_str(&msg).unwrap();
    assert_eq!(parsed["params"]["pipe"], pipe);
    assert_eq!(parsed["params"]["schema"]["methods"]["z\"quote\\back"]["id"], 7);
    assert_eq!(parsed["params"]["schema"]["methods"]["tab\there\u{1}"]["response"], "none");
    assert_eq!(parsed["params"]["schema"]["methods"]["é-unicode"]["id"], 9);
    // serde_json writes the same value back to the very same text.
    assert_eq!(serde_json::to_string(&parsed).unwrap(), msg);
}

#[test]
fn test_add_method_replaces_definition() {
    let mut schema = InitSchema::new();
    schema.add_method("echo", 1, ResponseType::Result);
    schema.add_method("echo", 4, ResponseType::Stream);
    let m = schema.get_method("echo").unwrap();
    assert_eq!(m.id, 4);
    assert_eq!(m.response, ResponseType::Stream);
    assert_eq!(schema.methods.len(), 1);
    assert!(!schema.is_empty());
}

#[test]
fn test_protocol_version() {
    assert_eq!(PROTOCOL_VERSION, "2.0.0");
}

#[test]
fn test_legacy_init_message() {
    let mut schema = Schema::default();
    schema.methods.insert("echo", MethodDef { id: 1 });
    let msg = InitMessage::new("/tmp/a.sock".to_string(), schema);
    assert_eq!(msg.jsonrpc(), "2.0");
    assert_eq!(msg.method(), "$init");
    assert_eq!(msg.params_ref().pipe_path, "/tmp/a.sock");
    assert_eq!(msg.params_ref().schema.methods.get("echo").unwrap().id, 1);
}

#[test]
fn test_ping_maps_to_pong() {
    let line = r#"{"jsonrpc":"2.0","method":"$ping"}"#;
    assert_eq!(parse_control_line(line), ControlAction::Pong);
}

#[test]
fn test_shutdown_maps_to_shutdown() {
    let line = r#"{"jsonrpc":"2.0","method":"$shutdown","params":{}}"#;
    assert_eq!(parse_control_line(line), ControlAction::Shutdown);
}

#[test]
fn test_trailing_newline_is_tolerated() {
    let line = "{\"jsonrpc\":\"2.0\",\"method\":\"$ping\"}\n";
    assert_eq!(parse_control_line(line), ControlAction::Pong);
}

#[test]
fn test_non_json_line_is_ignored() {
    assert_eq!(
        parse_control_line("hello, this is a log line"),
        ControlAction::Ignore
    );
    assert_eq!(parse_control_line(""), ControlAction::Ignore);
    assert_eq!(parse_control_line("   "), ControlAction::Ignore);
}

#[test]
fn test_unknown_method_is_ignored() {
    let line = r#"{"jsonrpc":"2.0","method":"$something-else"}"#;
    assert_eq!(parse_control_line(line), ControlAction::Ignore);
}

#[test]
fn test_missing_method_is_ignored() {
    let line = r#"{"jsonrpc":"2.0","id":1}"#;
    assert_eq!(parse_control_line(line), ControlAction::Ignore);
}

#[test]
fn test_malformed_json_is_ignored() {
    let line = r#"{"jsonrpc":"2.0","method":"#;
    assert_eq!(parse_control_line(line), ControlAction::Ignore);
}

#[test]
fn test_pong_message_shape() {
    let parsed: serde_json::Value = serde_json::from_str(PONG_MESSAGE).unwrap();
    assert_eq!(parsed["jsonrpc"], "2.0");
    assert_eq!(parsed["method"], "$pong");
}

#[test]
fn test_leading_whitespace_and_non_string_method() {
    assert_eq!(
        parse_control_line("  \t{\"method\":\"$shutdown\"}\r\n"),
        ControlAction::Shutdown
    );
    assert_eq!(parse_control_line("{\"method\":1}"), ControlAction::Ignore);
    assert_eq!(parse_control_line("[\"$ping\"]"), ControlAction::Ignore);
}

#[test]
fn test_action_for_method() {
    assert_eq!(action_for_method(Some("$ping")), ControlAction::Pong);
    assert_eq!(action_for_method(Some("$shutdown")), ControlAction::Shutdown);
    assert_eq!(action_for_method(Some("$pong")), ControlAction::Ignore);
    assert_eq!(action_for_method(None), ControlAction::Ignore);
}

#[test]
fn test_unicode_whitespace_is_trimmed() {
    assert_eq!(
        parse_control_line("\u{3000}{\"method\":\"$ping\"}\u{a0}\u{2028}"),
        ControlAction::Pong
    );
    assert_eq!(
        parse_control_line("\u{200b}{\"method\":\"$ping\"}"),
        ControlAction::Ignore
    );
}
