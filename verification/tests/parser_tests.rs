use crawl_agent::parser::ResponseParser;

#[test]
fn parse_safe_click_triple() {
    let (action, value, reason) =
        ResponseParser::parse_safe("action: click, value: 1, reason: product link");
    assert_eq!(action, "click");
    assert_eq!(value, 1);
    assert_eq!(reason, "product link");
}

#[test]
fn parse_safe_garbage_falls_back() {
    let (action, value, reason) = ResponseParser::parse_safe("garbage text");
    assert_eq!(action, "scroll");
    assert_eq!(value, 500);
    assert_eq!(reason, "기본 스크롤 액션");
}

#[test]
fn validate_action_allow_list() {
    assert!(ResponseParser::validate_action("click"));
    assert!(ResponseParser::validate_action("scroll"));
    assert!(ResponseParser::validate_action("extract"));
    assert!(ResponseParser::validate_action("navigate"));
    assert!(ResponseParser::validate_action("wait"));
    assert!(ResponseParser::validate_action("screenshot"));
    assert!(ResponseParser::validate_action("SCROLL"));
    assert!(!ResponseParser::validate_action("unknown"));
    assert!(!ResponseParser::validate_action(""));
    assert!(!ResponseParser::validate_action("fly"));
}

#[test]
fn parse_action_response_defaults() {
    let (action, value, reason) = ResponseParser::parse_action_response("just words").unwrap();
    assert_eq!(action, "unknown");
    assert_eq!(value, 0);
    assert_eq!(reason, "No reason provided");
}

#[test]
fn parse_action_response_order_independent() {
    let (action, value, reason) =
        ResponseParser::parse_action_response("reason: why not, value: 7, action: wait").unwrap();
    assert_eq!(action, "wait");
    assert_eq!(value, 7);
    assert_eq!(reason, "why not");
}

#[test]
fn parse_action_response_bare_integer_is_value() {
    let (action, value, _reason) =
        ResponseParser::parse_action_response("action: scroll, 250").unwrap();
    assert_eq!(action, "scroll");
    assert_eq!(value, 250);
}

#[test]
fn parse_action_response_bare_integer_does_not_override() {
    let (_action, value, _reason) =
        ResponseParser::parse_action_response("value: 3, 250").unwrap();
    assert_eq!(value, 3);
}

#[test]
fn parse_action_response_unparsable_value_stays_default() {
    let (_action, value, _reason) =
        ResponseParser::parse_action_response("action: click, value: much").unwrap();
    assert_eq!(value, 0);
}

#[test]
fn parse_action_response_negative_value() {
    let (_action, value, _reason) =
        ResponseParser::parse_action_response("value: -42").unwrap();
    assert_eq!(value, -42);
}

#[test]
fn parse_json_response_reads_fields() {
    let r = ResponseParser::parse_json_response(
        "{\"action\": \"click\", \"value\": 3, \"reason\": \"buy button\"}",
    )
    .unwrap();
    assert_eq!(r.0, "click");
    assert_eq!(r.1, 3);
    assert_eq!(r.2, "buy button");
}

#[test]
fn parse_json_response_defaults_missing_fields() {
    let r = ResponseParser::parse_json_response("{\"value\": 9}").unwrap();
    assert_eq!(r.0, "unknown");
    assert_eq!(r.1, 9);
    assert_eq!(r.2, "No reason provided");
}

#[test]
fn parse_json_response_rejects_bad_json() {
    assert!(ResponseParser::parse_json_response("{not json").is_err());
}

#[test]
fn parse_auto_detects_json() {
    let r = ResponseParser::parse_auto("  {\"action\": \"wait\", \"value\": 2, \"reason\": \"load\"}  ")
        .unwrap();
    assert_eq!(r.0, "wait");
    assert_eq!(r.1, 2);
    assert_eq!(r.2, "load");
}

#[test]
fn parse_auto_plain_text_path() {
    let r = ResponseParser::parse_auto("action: extract, value: 0, reason: read page").unwrap();
    assert_eq!(r.0, "extract");
    assert_eq!(r.1, 0);
    assert_eq!(r.2, "read page");
}

#[test]
fn parse_safe_invalid_kind_falls_back() {
    let (action, value, reason) =
        ResponseParser::parse_safe("action: fly, value: 1, reason: to the moon");
    assert_eq!(action, "scroll");
    assert_eq!(value, 500);
    assert_eq!(reason, "기본 스크롤 액션");
}

#[test]
fn parse_safe_json_error_falls_back() {
    let (action, value, reason) = ResponseParser::parse_safe("{broken json}");
    assert_eq!(action, "scroll");
    assert_eq!(value, 500);
    assert_eq!(reason, "파싱 실패로 인한 기본 액션");
}
