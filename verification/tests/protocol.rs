use payment_core::errors::DomainError;
use payment_core::protocol::{
    build_close_order_body, build_create_order_body, json_string, parse_order_query_response,
    parse_prepay_id,
};

#[test]
fn test_json_string_matches_serde_json() {
    let samples = [
        "plain",
        "with \"quotes\" and \\backslash\\",
        "line\nbreak\ttab\rcr",
        "control\u{1}char\u{1f}",
        "backspace\u{8}formfeed\u{c}",
        "unicode 测试商品 ¥",
        "",
    ];
    for s in samples {
        let reference = serde_json::to_string(s).unwrap();
        assert_eq!(json_string(s), reference);
    }
}

#[test]
fn test_build_create_order_body_matches_serde_json() {
    let body = build_create_order_body(
        "wx01",
        "1900000001",
        "item \"special\"",
        "T1",
        "https://merchant.example/api/webhooks/wechat",
        1000,
        &Some("oid1".to_string()),
        "127.0.0.1",
    )
    .unwrap();

    let mut amount = serde_json::Map::new();
    amount.insert("currency".to_string(), serde_json::Value::from("CNY"));
    amount.insert("total".to_string(), serde_json::Value::from(1000i64));
    let mut payer = serde_json::Map::new();
    payer.insert("openid".to_string(), serde_json::Value::from("oid1"));
    let mut scene = serde_json::Map::new();
    scene.insert(
        "payer_client_ip".to_string(),
        serde_json::Value::from("127.0.0.1"),
    );
    let mut root = serde_json::Map::new();
    root.insert("appid".to_string(), serde_json::Value::from("wx01"));
    root.insert("mchid".to_string(), serde_json::Value::from("1900000001"));
    root.insert(
        "description".to_string(),
        serde_json::Value::from("item \"special\""),
    );
    root.insert("out_trade_no".to_string(), serde_json::Value::from("T1"));
    root.insert(
        "notify_url".to_string(),
        serde_json::Value::from("https://merchant.example/api/webhooks/wechat"),
    );
    root.insert("amount".to_string(), serde_json::Value::Object(amount));
    root.insert("payer".to_string(), serde_json::Value::Object(payer));
    root.insert("scene_info".to_string(), serde_json::Value::Object(scene));
    let reference = serde_json::Value::Object(root).to_string();

    assert_eq!(body, reference);
}

#[test]
fn test_build_create_order_body_exact() {
    let body = build_create_order_body(
        "wx01",
        "M1",
        "item",
        "T1",
        "https://m.example/hook",
        1,
        &Some("o1".to_string()),
        "10.0.0.1",
    )
    .unwrap();
    assert_eq!(
        body,
        "{\"amount\":{\"currency\":\"CNY\",\"total\":1},\"appid\":\"wx01\",\"description\":\"item\",\"mchid\":\"M1\",\"notify_url\":\"https://m.example/hook\",\"out_trade_no\":\"T1\",\"payer\":{\"openid\":\"o1\"},\"scene_info\":{\"payer_client_ip\":\"10.0.0.1\"}}"
    );
}

#[test]
fn test_build_create_order_body_requires_openid() {
    let r = build_create_order_body(
        "wx01",
        "M1",
        "item",
        "T1",
        "https://m.example/hook",
        1,
        &None,
        "10.0.0.1",
    );
    assert!(matches!(r, Err(DomainError::ValidationError(_))));
}

#[test]
fn test_build_close_order_body() {
    assert_eq!(build_close_order_body("1900000001"), "{\"mchid\":\"1900000001\"}");
}

#[test]
fn test_parse_prepay_id() {
    let resp = parse_prepay_id("{\"prepay_id\":\"pp_42\"}").unwrap();
    assert_eq!(resp.prepay_id, "pp_42");
    let missing = parse_prepay_id("{\"code\":\"PARAM_ERROR\"}");
    assert!(matches!(missing, Err(DomainError::WeChatPayError(_))));
    let malformed = parse_prepay_id("not json");
    assert!(matches!(malformed, Err(DomainError::WeChatPayError(_))));
}

#[test]
fn test_parse_order_query_response() {
    let r = parse_order_query_response(
        "{\"trade_state\":\"SUCCESS\",\"transaction_id\":\"tx9\",\"trade_state_desc\":\"paid\"}",
    );
    assert_eq!(r.trade_state, "SUCCESS");
    assert_eq!(r.transaction_id, Some("tx9".to_string()));
    assert_eq!(r.trade_state_desc, Some("paid".to_string()));

    let unknown = parse_order_query_response("{\"other\":1}");
    assert_eq!(unknown.trade_state, "UNKNOWN");
    assert_eq!(unknown.transaction_id, None);
    assert_eq!(unknown.trade_state_desc, None);
}
