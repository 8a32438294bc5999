use cswitch::claude_config::{
    disable_api_key_helper, enable_api_key_helper, has_api_key_helper, read_settings,
    render_settings,
};
use cswitch::error::CswitchError;
use serde_json::Value;

fn parse(text: &str) -> Value {
    serde_json::from_str(text).unwrap()
}

#[test]
fn enable_adds_helper_and_keeps_fields() {
    let doc = read_settings(Some("{\"foo\": 1}".to_string())).unwrap();
    let enabled = enable_api_key_helper(doc).unwrap();
    assert_eq!(enabled, parse("{\"foo\": 1, \"apiKeyHelper\": \"cswitch emit-key\"}"));
    assert!(has_api_key_helper(&enabled));
    let disabled = disable_api_key_helper(enabled).unwrap();
    assert_eq!(disabled, parse("{\"foo\": 1}"));
    assert!(!has_api_key_helper(&disabled));
}

#[test]
fn enable_replaces_existing_helper() {
    let doc = parse("{\"apiKeyHelper\": \"other\", \"x\": [1, 2]}");
    let enabled = enable_api_key_helper(doc).unwrap();
    assert_eq!(enabled, parse("{\"apiKeyHelper\": \"cswitch emit-key\", \"x\": [1, 2]}"));
}

#[test]
fn disable_without_helper_is_unchanged() {
    let doc = parse("{\"a\": {\"b\": true}}");
    let disabled = disable_api_key_helper(doc).unwrap();
    assert_eq!(disabled, parse("{\"a\": {\"b\": true}}"));
}

#[test]
fn missing_settings_file_is_empty_object() {
    let doc = read_settings(None).unwrap();
    assert_eq!(doc, parse("{}"));
    let enabled = enable_api_key_helper(doc).unwrap();
    assert_eq!(enabled, parse("{\"apiKeyHelper\": \"cswitch emit-key\"}"));
}

#[test]
fn unparsable_settings_fail() {
    let err = read_settings(Some("{not json".to_string())).unwrap_err();
    match err {
        CswitchError::ClaudeSettings(m) => assert!(m.starts_with("parse error: ")),
        other => panic!("unexpected error {:?}", other),
    }
}

#[test]
fn non_object_settings_fail() {
    assert!(matches!(enable_api_key_helper(parse("[1]")), Err(CswitchError::ClaudeSettings(_))));
    assert!(matches!(disable_api_key_helper(parse("3")), Err(CswitchError::ClaudeSettings(_))));
    assert!(!has_api_key_helper(&parse("\"apiKeyHelper\"")));
}

#[test]
fn rendered_settings_parse_back() {
    let doc = parse("{\"foo\": 1, \"bar\": [true, null]}");
    let text = render_settings(&doc).unwrap();
    assert!(text.contains('\n'));
    assert_eq!(parse(&text), doc);
}

#[test]
fn rendering_an_empty_document() {
    assert_eq!(render_settings(&read_settings(None).unwrap()).unwrap(), "{}");
}
