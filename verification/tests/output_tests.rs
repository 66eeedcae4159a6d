use threads_cli::error::{CliError, ErrorCategory};
use threads_cli::output::{
    error_envelope, human_error_line, human_success_line, is_secret_key, redact_json_value,
    redact_text, success_envelope, JsonValue,
};
use threads_cli::redact::{redact_bearer_tokens, redact_key_value_pair};

fn s(v: &str) -> JsonValue {
    JsonValue::Str(v.to_string())
}

fn obj(fields: Vec<(&str, JsonValue)>) -> JsonValue {
    JsonValue::Object(fields.into_iter().map(|(k, v)| (k.to_string(), v)).collect())
}

fn get<'a>(v: &'a JsonValue, key: &str) -> Option<&'a JsonValue> {
    match v {
        JsonValue::Object(fields) => fields.iter().find(|(k, _)| k == key).map(|(_, v)| v),
        _ => None,
    }
}

fn at<'a>(v: &'a JsonValue, key: &str) -> &'a JsonValue {
    get(v, key).expect("key present")
}

fn index(v: &JsonValue, i: usize) -> &JsonValue {
    match v {
        JsonValue::Array(items) => &items[i],
        _ => panic!("not an array"),
    }
}

fn is_str(v: &JsonValue, expected: &str) -> bool {
    matches!(v, JsonValue::Str(x) if x == expected)
}

#[test]
fn redacts_tokens_in_text() {
    let input = "access_token=abc refresh_token=def Authorization: Bearer xyz";
    let out = redact_text(input);
    assert!(!out.contains("abc"));
    assert!(!out.contains("def"));
    assert!(!out.contains("xyz"));
    assert!(out.contains("[REDACTED]"));
}

#[test]
fn redacts_secret_fields_in_json_values() {
    let value = obj(vec![
        ("access_token", s("a")),
        ("nested", obj(vec![("refresh_token", s("b"))])),
        ("items", JsonValue::Array(vec![obj(vec![("authorization", s("Bearer c"))])])),
    ]);
    let redacted = redact_json_value(&value);
    assert!(is_str(at(&redacted, "access_token"), "[REDACTED]"));
    assert!(is_str(at(at(&redacted, "nested"), "refresh_token"), "[REDACTED]"));
    assert!(is_str(at(index(at(&redacted, "items"), 0), "authorization"), "[REDACTED]"));
}

#[test]
fn json_output_contract_has_stable_fields() {
    let success = success_envelope("doctor check", &obj(vec![("k", s("v"))]));
    assert!(matches!(at(&success, "ok"), JsonValue::Bool(true)));
    assert!(is_str(at(&success, "command"), "doctor check"));
    assert!(is_str(at(at(&success, "data"), "k"), "v"));
    assert!(get(&success, "error").is_none());

    let failure = error_envelope("doctor check", &CliError::new(ErrorCategory::Config, "failed"));
    assert!(matches!(at(&failure, "ok"), JsonValue::Bool(false)));
    assert!(is_str(at(&failure, "command"), "doctor check"));
    assert!(matches!(at(&failure, "data"), JsonValue::Null));
    assert!(is_str(at(at(&failure, "error"), "code"), "CONFIG_ERROR"));
    assert!(is_str(at(at(&failure, "error"), "message"), "failed"));
}

#[test]
fn redact_text_handles_bearer_and_quoted_values() {
    let input = "authorization='Bearer supersecret' access_token=\"tok123\" refresh_token=ref123";
    let out = redact_text(input);
    assert!(!out.contains("supersecret"));
    assert!(!out.contains("tok123"));
    assert!(!out.contains("ref123"));
    assert!(out.contains("[REDACTED]"));
}

#[test]
fn redact_json_value_redacts_nested_secret_keys_case_insensitive() {
    let value = obj(vec![
        ("Access_Token", s("top-secret")),
        ("meta", obj(vec![("Auth_Header", s("Bearer should-hide")), ("safe", s("visible"))])),
    ]);
    let redacted = redact_json_value(&value);
    assert!(is_str(at(&redacted, "Access_Token"), "[REDACTED]"));
    assert!(is_str(at(at(&redacted, "meta"), "Auth_Header"), "[REDACTED]"));
    assert!(is_str(at(at(&redacted, "meta"), "safe"), "visible"));
}

#[test]
fn key_value_redaction_keeps_the_delimiter_and_the_rest() {
    assert_eq!(redact_key_value_pair("a=1&access_token=xyz&b=2", "access_token"), "a=1&access_token=[REDACTED]&b=2");
    assert_eq!(redact_key_value_pair("access_token='q v' tail", "access_token"), "access_token=[REDACTED] tail");
    assert_eq!(redact_key_value_pair("access_token without value", "access_token"), "access_token without value");
}

#[test]
fn bearer_redaction_masks_each_token() {
    assert_eq!(redact_bearer_tokens("Bearer a, Bearer b"), "Bearer [REDACTED], Bearer [REDACTED]");
    assert_eq!(redact_bearer_tokens("no token here"), "no token here");
}

#[test]
fn strings_in_json_are_redacted_too() {
    let value = JsonValue::Array(vec![s("use Bearer abc"), JsonValue::Number("3".to_string())]);
    let redacted = redact_json_value(&value);
    assert!(is_str(index(&redacted, 0), "use Bearer [REDACTED]"));
    assert!(matches!(index(&redacted, 1), JsonValue::Number(n) if n == "3"));
}

#[test]
fn secret_keys_are_recognised_case_insensitively() {
    assert!(is_secret_key("App_Secret"));
    assert!(is_secret_key("auth"));
    assert!(!is_secret_key("author"));
}

#[test]
fn human_lines_are_redacted() {
    assert_eq!(human_success_line("auth status", "ok access_token=zzz"), "auth status: ok access_token=[REDACTED]");
    let err = CliError::new(ErrorCategory::Network, "failed Bearer qqq");
    assert_eq!(human_error_line("post", &err), "post NETWORK_ERROR: failed Bearer [REDACTED]");
}

#[test]
fn redact_text_masks_each_key_and_bearer_and_keeps_plain_text() {
    for key in ["access_token", "refresh_token", "client_secret", "app_secret", "authorization", "auth_header"] {
        assert_eq!(redact_text(&format!("{}=s3cr3t", key)), format!("{}=[REDACTED]", key));
    }
    assert_eq!(redact_text("Bearer s3cr3t"), "Bearer [REDACTED]");
    let plain = "token stays here: user=alice; bearer lower-case is fine";
    assert_eq!(redact_text(plain), plain);
}
