use secret_env::error::SecretError;
use secret_env::fetch::{decode_secret, ProviderReply};
use secret_env::projection::project_keys;
use secret_env::region::resolve_region;

fn body(text: &str) -> serde_json::Value {
    match decode_secret("app/prod", ProviderReply::Answered(Some(text.to_string()))) {
        Ok(v) => v,
        Err(e) => panic!("body did not decode: {:?}", e),
    }
}

const DB_BODY: &str = r#"{"DB_USER":"alice","DB_PASS":"s3cret"}"#;

#[test]
fn projects_requested_keys_in_order() {
    let v = body(DB_BODY);
    let r = project_keys(&v, &["DB_USER", "DB_PASS"]).unwrap();
    assert_eq!(r, vec!["alice".to_string(), "s3cret".to_string()]);
}

#[test]
fn projects_in_request_order_not_body_order() {
    let v = body(DB_BODY);
    let r = project_keys(&v, &["DB_PASS", "DB_USER"]).unwrap();
    assert_eq!(r, vec!["s3cret".to_string(), "alice".to_string()]);
}

#[test]
fn missing_key_is_named() {
    let v = body(DB_BODY);
    match project_keys(&v, &["DB_USER", "MISSING"]) {
        Err(SecretError::MissingKey(k)) => assert_eq!(k, "MISSING"),
        other => panic!("unexpected: {:?}", other),
    }
}

#[test]
fn first_missing_key_is_named() {
    let v = body(DB_BODY);
    match project_keys(&v, &["DB_USER", "A", "B"]) {
        Err(SecretError::MissingKey(k)) => assert_eq!(k, "A"),
        other => panic!("unexpected: {:?}", other),
    }
}

#[test]
fn non_string_value_is_missing() {
    let v = body(r#"{"n":5,"b":true,"o":{"x":"y"},"s":"ok"}"#);
    for key in ["n", "b", "o"] {
        match project_keys(&v, &["s", key]) {
            Err(SecretError::MissingKey(k)) => assert_eq!(k, key),
            other => panic!("unexpected: {:?}", other),
        }
    }
}

#[test]
fn nested_field_names_are_not_top_level() {
    let v = body(r#"{"o":{"x":"y"}}"#);
    match project_keys(&v, &["x"]) {
        Err(SecretError::MissingKey(k)) => assert_eq!(k, "x"),
        other => panic!("unexpected: {:?}", other),
    }
}

#[test]
fn empty_request_gives_empty_result() {
    let v = body(DB_BODY);
    assert_eq!(project_keys(&v, &[]).unwrap(), Vec::<String>::new());
    let arr = body("[1,2,3]");
    assert_eq!(project_keys(&arr, &[]).unwrap(), Vec::<String>::new());
}

#[test]
fn duplicate_keys_repeat_values() {
    let v = body(r#"{"k":"v"}"#);
    let r = project_keys(&v, &["k", "k", "k"]).unwrap();
    assert_eq!(r, vec!["v".to_string(), "v".to_string(), "v".to_string()]);
}

#[test]
fn duplicate_keys_keep_positions() {
    let v = body(r#"{"a":"1","b":"2"}"#);
    let r = project_keys(&v, &["a", "b", "a", "b"]).unwrap();
    assert_eq!(r, vec!["1", "2", "1", "2"]);
}

#[test]
fn non_object_body_rejects_any_key() {
    for text in ["[\"k\"]", "\"k\"", "42", "null", "true"] {
        let v = body(text);
        match project_keys(&v, &["k", "other"]) {
            Err(SecretError::MissingKey(k)) => assert_eq!(k, "k"),
            other => panic!("unexpected for {}: {:?}", text, other),
        }
    }
}

#[test]
fn undecodable_payload_is_decode_error() {
    let r = decode_secret("x", ProviderReply::Answered(Some("not json at all".to_string())));
    assert!(matches!(r, Err(SecretError::Decode(_))));
}

#[test]
fn truncated_payload_is_decode_error() {
    let r = decode_secret("x", ProviderReply::Answered(Some("{\"a\":".to_string())));
    assert!(matches!(r, Err(SecretError::Decode(_))));
}

#[test]
fn answer_without_payload_is_empty_secret() {
    match decode_secret("x", ProviderReply::Answered(None)) {
        Err(SecretError::EmptySecret(name)) => assert_eq!(name, "x"),
        other => panic!("unexpected: {:?}", other),
    }
}

#[test]
fn failed_request_is_transport_error() {
    match decode_secret("x", ProviderReply::Failed("dispatch failure".to_string())) {
        Err(SecretError::Transport(m)) => assert_eq!(m, "dispatch failure"),
        other => panic!("unexpected: {:?}", other),
    }
}

#[test]
fn unloadable_configuration_is_config_error() {
    match decode_secret("x", ProviderReply::ConfigFailed("no credentials".to_string())) {
        Err(SecretError::ConfigLoad(m)) => assert_eq!(m, "no credentials"),
        other => panic!("unexpected: {:?}", other),
    }
}

#[test]
fn decoded_body_is_the_payload() {
    let v = body(DB_BODY);
    let expected: serde_json::Value = serde_json::from_str(DB_BODY).unwrap();
    assert_eq!(v, expected);
    assert_ne!(v, serde_json::Value::String(DB_BODY.to_string()));
}

#[test]
fn fetching_twice_gives_equal_bodies() {
    let first = body(DB_BODY);
    let second = body(DB_BODY);
    assert_eq!(first, second);
}

#[test]
fn ambient_region_wins() {
    assert_eq!(resolve_region(Some("eu-west-1".to_string()), "us-east-1"), "eu-west-1");
}

#[test]
fn default_region_without_ambient() {
    assert_eq!(resolve_region(None, "ap-northeast-1"), "ap-northeast-1");
}
