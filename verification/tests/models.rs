use mcp_manager::models::{LogEvent, McpEvent, ToolInfo, ToolsUpdatedEvent};

fn tool(server: &str, name: &str, description: &str, parameters: &str) -> ToolInfo {
    ToolInfo {
        server_id: server.to_string(),
        tool_name: name.to_string(),
        description: description.to_string(),
        parameters: parameters.to_string(),
    }
}

#[test]
fn log_event_carries_level_message_and_server() {
    let event = McpEvent::log("warn", "disk is full", Some("echo"));
    assert_eq!(event.event_type, "log");
    assert_eq!(
        event.payload,
        "{\"level\":\"warn\",\"message\":\"disk is full\",\"serverId\":\"echo\"}"
    );
}

#[test]
fn log_event_without_server_says_null() {
    let event = McpEvent::log("info", "ready", None);
    assert_eq!(event.payload, "{\"level\":\"info\",\"message\":\"ready\",\"serverId\":null}");
}

#[test]
fn log_event_escapes_its_message() {
    let event = McpEvent::log("info", "said \"stop\"\nthen left", Some("a\\b"));
    assert_eq!(
        event.payload,
        "{\"level\":\"info\",\"message\":\"said \\\"stop\\\"\\nthen left\",\"serverId\":\"a\\\\b\"}"
    );
    let decoded: serde_json::Value = serde_json::from_str(&event.payload).unwrap();
    assert_eq!(decoded["message"], serde_json::Value::from("said \"stop\"\nthen left"));
    assert_eq!(decoded["serverId"], serde_json::Value::from("a\\b"));
}

#[test]
fn info_and_error_fix_the_level() {
    assert_eq!(McpEvent::info("m", Some("s")), McpEvent::log("info", "m", Some("s")));
    assert_eq!(McpEvent::error("m", None), McpEvent::log("error", "m", None));
    assert_eq!(
        McpEvent::error("m", None).payload,
        "{\"level\":\"error\",\"message\":\"m\",\"serverId\":null}"
    );
}

#[test]
fn server_started_and_stopped_name_the_server() {
    let started = McpEvent::server_started("echo");
    assert_eq!(started.event_type, "serverStarted");
    assert_eq!(started.payload, "{\"serverId\":\"echo\"}");
    let stopped = McpEvent::server_stopped("echo \"2\"");
    assert_eq!(stopped.event_type, "serverStopped");
    assert_eq!(stopped.payload, "{\"serverId\":\"echo \\\"2\\\"\"}");
}

#[test]
fn tools_updated_lists_the_tools_in_order() {
    let event = McpEvent::tools_updated(vec![
        tool("echo", "ping", "Answers", "{\"type\":\"object\"}"),
        tool("echo", "pong", "", "{}"),
    ]);
    assert_eq!(event.event_type, "toolsUpdated");
    assert_eq!(
        event.payload,
        "{\"tools\":[{\"serverId\":\"echo\",\"toolName\":\"ping\",\"description\":\"Answers\",\"parameters\":\"{\\\"type\\\":\\\"object\\\"}\"},{\"serverId\":\"echo\",\"toolName\":\"pong\",\"description\":\"\",\"parameters\":\"{}\"}]}"
    );
    let decoded: serde_json::Value = serde_json::from_str(&event.payload).unwrap();
    assert_eq!(decoded["tools"].as_array().unwrap().len(), 2);
    assert_eq!(decoded["tools"][1]["toolName"], serde_json::Value::from("pong"));
}

#[test]
fn tools_updated_without_tools_lists_nothing() {
    let event = McpEvent::tools_updated(Vec::new());
    assert_eq!(event.payload, "{\"tools\":[]}");
}

#[test]
fn payload_structs_encode_themselves() {
    let log = LogEvent { level: "info".to_string(), message: "m".to_string(), server_id: None };
    assert_eq!(
        log.to_json(),
        "{\"level\":\"info\",\"message\":\"m\",\"serverId\":null}"
    );
    let one = tool("s", "t", "d", "p");
    assert_eq!(
        one.to_json(),
        "{\"serverId\":\"s\",\"toolName\":\"t\",\"description\":\"d\",\"parameters\":\"p\"}"
    );
    let update = ToolsUpdatedEvent { tools: vec![one] };
    assert_eq!(
        update.to_json(),
        "{\"tools\":[{\"serverId\":\"s\",\"toolName\":\"t\",\"description\":\"d\",\"parameters\":\"p\"}]}"
    );
}

#[test]
fn a_cloned_tool_equals_its_source() {
    let one = tool("s", "t", "d", "p");
    assert_eq!(one.clone(), one);
}

#[test]
fn log_payload_decodes_to_level_message_and_server_id() {
    let event = McpEvent::log("info", "hi", Some("s1"));
    assert_eq!(event.event_type, "log");
    let decoded: serde_json::Value = serde_json::from_str(&event.payload).unwrap();
    let object = decoded.as_object().unwrap();
    assert_eq!(object.len(), 3);
    assert_eq!(object["level"], serde_json::Value::from("info"));
    assert_eq!(object["message"], serde_json::Value::from("hi"));
    assert_eq!(object["serverId"], serde_json::Value::from("s1"));
}

#[test]
fn event_payloads_are_json_whatever_the_texts() {
    for text in ["", "plain", "quo\"te", "back\\slash", "new\nline", "\u{0}\u{1f}", "ünï✓", "{\"a\":1}"] {
        let log = McpEvent::log(text, text, Some(text));
        let decoded: serde_json::Value = serde_json::from_str(&log.payload).unwrap();
        assert_eq!(decoded["level"], serde_json::Value::from(text));
        assert_eq!(decoded["message"], serde_json::Value::from(text));
        assert_eq!(decoded["serverId"], serde_json::Value::from(text));

        let started = McpEvent::server_started(text);
        let decoded: serde_json::Value = serde_json::from_str(&started.payload).unwrap();
        assert_eq!(decoded["serverId"], serde_json::Value::from(text));

        let updated = McpEvent::tools_updated(vec![tool(text, text, text, text)]);
        let decoded: serde_json::Value = serde_json::from_str(&updated.payload).unwrap();
        assert_eq!(decoded["tools"][0]["serverId"], serde_json::Value::from(text));
        assert_eq!(decoded["tools"][0]["toolName"], serde_json::Value::from(text));
        assert_eq!(decoded["tools"][0]["description"], serde_json::Value::from(text));
        assert_eq!(decoded["tools"][0]["parameters"], serde_json::Value::from(text));
    }
}
