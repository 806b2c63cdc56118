use mcp_manager::json::{frame_array, members, parse, quote, quote_nullable};

#[test]
fn quote_wraps_plain_text_in_quotes() {
    assert_eq!(quote("echo"), "\"echo\"");
    assert_eq!(quote(""), "\"\"");
}

#[test]
fn quote_escapes_quotes_backslashes_and_control_characters() {
    assert_eq!(quote("say \"hi\""), "\"say \\\"hi\\\"\"");
    assert_eq!(quote("a\\b"), "\"a\\\\b\"");
    assert_eq!(quote("line\nnext\ttab"), "\"line\\nnext\\ttab\"");
    assert_eq!(quote("\u{1}"), "\"\\u0001\"");
}

#[test]
fn quote_keeps_text_beyond_ascii() {
    assert_eq!(quote("größe ✓"), "\"größe ✓\"");
}

#[test]
fn quoted_text_reads_back_as_the_same_text() {
    let text = "tab\t \"quoted\" \\ back / slash \u{7f} é";
    let literal = quote(text);
    let read: String = serde_json::from_str(&literal).unwrap();
    assert_eq!(read, text);
}

#[test]
fn quote_nullable_writes_null_for_nothing() {
    assert_eq!(quote_nullable(None), "null");
    assert_eq!(quote_nullable(Some("x")), "\"x\"");
    assert_eq!(quote_nullable(Some("null")), "\"null\"");
}

#[test]
fn frame_array_separates_elements_by_commas() {
    assert_eq!(frame_array(&Vec::new()), "[]");
    assert_eq!(frame_array(&vec!["1".to_string()]), "[1]");
    assert_eq!(
        frame_array(&vec!["1".to_string(), "\"two\"".to_string(), "{}".to_string()]),
        "[1,\"two\",{}]"
    );
}

#[test]
fn parse_accepts_json_documents() {
    assert!(parse("{}").is_ok());
    assert!(parse("{\"a\": [1, 2, {\"b\": null}]}").is_ok());
    assert!(parse("[1, 2]").is_ok());
    assert!(parse("3").is_ok());
    assert!(parse("\"text\"").is_ok());
    assert!(parse("  true ").is_ok());
}

#[test]
fn parse_reads_the_document_that_the_text_holds() {
    let value = parse("{\"name\": \"ping\", \"count\": 2}").unwrap();
    assert_eq!(value["name"], serde_json::Value::from("ping"));
    assert_eq!(value["count"], serde_json::Value::from(2));
}

#[test]
fn parse_rejects_malformed_text_with_a_reason() {
    for text in ["", "{", "{\"a\":}", "[1,]", "{'a': 1}", "nul", "{} {}", "not json"] {
        let outcome = parse(text);
        assert!(outcome.is_err(), "accepted {:?}", text);
        assert!(!outcome.unwrap_err().is_empty());
    }
}

#[test]
fn members_are_given_for_objects_only() {
    let object = parse("{\"a\": 1, \"b\": \"two\"}").unwrap();
    let found = members(&object).unwrap();
    assert_eq!(found.len(), 2);
    assert_eq!(found["a"], serde_json::Value::from(1));
    assert_eq!(found["b"], serde_json::Value::from("two"));
    assert_eq!(members(&parse("{}").unwrap()).unwrap().len(), 0);
    assert!(members(&parse("[1, 2]").unwrap()).is_none());
    assert!(members(&parse("3").unwrap()).is_none());
    assert!(members(&parse("null").unwrap()).is_none());
    assert!(members(&parse("\"{}\"").unwrap()).is_none());
}
