use threads_cli::cli::auth::{
    build_authorize_url, callback_from_pairs, callback_target, compute_expires_at,
    ensure_localhost_callback_host, ensure_logout_confirmed, logout_output, parse_callback_request,
    refresh_token_for, status_output, token_expired, LogoutArgs,
};
use threads_cli::config::{AppConfig, DefaultsConfig, OAuthConfig, StorageConfig, ThreadsConfig};
use threads_cli::output::JsonValue;
use threads_cli::client::OAuthTokenResponse;
use threads_cli::store::statements::SqlValue;
use threads_cli::store::{AccountRow, Store, TokenRow};

fn test_config(base_url: &str) -> AppConfig {
    AppConfig {
        threads: ThreadsConfig {
            app_id: "app-id".to_string(),
            app_secret_file: "/tmp/secret.txt".to_string(),
            redirect_uri: "http://127.0.0.1:8788/callback".to_string(),
            user_id: "user-id".to_string(),
            base_url: base_url.to_string(),
            version: "v1.0".to_string(),
        },
        storage: StorageConfig { database_path: "/tmp/threads.db".to_string() },
        defaults: DefaultsConfig {
            link_mode: "reply".to_string(),
            output: "human".to_string(),
            open_browser: false,
        },
        oauth: OAuthConfig {
            listen_host: "127.0.0.1".to_string(),
            listen_port: 8788,
            state_ttl_seconds: 60,
        },
    }
}

fn field<'a>(v: &'a JsonValue, key: &str) -> &'a JsonValue {
    match v {
        JsonValue::Object(fields) => {
            for (k, value) in fields {
                if k == key {
                    return value;
                }
            }
            panic!("missing key {}", key)
        }
        _ => panic!("not an object"),
    }
}

fn token_row(expires_at: Option<&str>, refresh: Option<&str>) -> TokenRow {
    TokenRow {
        id: 7,
        account_id: 3,
        access_token: "access".to_string(),
        refresh_token: refresh.map(|s| s.to_string()),
        expires_at: expires_at.map(|s| s.to_string()),
        raw_json: "{}".to_string(),
        created_at: "2024-01-01 00:00:00".to_string(),
    }
}

#[test]
fn parse_callback_validates_state() {
    let req = "GET /callback?code=abc&state=expected HTTP/1.1\r\nHost: localhost\r\n\r\n";
    let parsed = parse_callback_request(req, "expected").expect("callback parsed");
    assert_eq!(parsed.code, "abc");

    let err = parse_callback_request(req, "wrong").expect_err("must reject wrong state");
    assert_eq!(err.category.as_code(), "AUTH_ERROR");
    assert_eq!(err.message, "OAuth callback state mismatch");
}

#[test]
fn parse_callback_surfaces_oauth_error() {
    let req = "GET /callback?error=access_denied&state=expected HTTP/1.1\r\nHost: localhost\r\n\r\n";
    let err = parse_callback_request(req, "expected").expect_err("callback should fail");
    assert_eq!(err.category.as_code(), "AUTH_ERROR");
    assert_eq!(err.message, "OAuth authorization failed: access_denied");
}

#[test]
fn parse_callback_rejects_non_get_and_missing_params() {
    let post_req = "POST /callback?code=abc&state=expected HTTP/1.1\r\nHost: localhost\r\n\r\n";
    let err = parse_callback_request(post_req, "expected").expect_err("must reject non-get method");
    assert_eq!(err.category.as_code(), "AUTH_ERROR");
    assert_eq!(err.message, "OAuth callback must be a GET request");

    let missing_code = "GET /callback?state=expected HTTP/1.1\r\nHost: localhost\r\n\r\n";
    let err = parse_callback_request(missing_code, "expected").expect_err("must require code");
    assert_eq!(err.category.as_code(), "AUTH_ERROR");
    assert_eq!(err.message, "OAuth callback missing code");

    let missing_state = "GET /callback?code=abc HTTP/1.1\r\nHost: localhost\r\n\r\n";
    let err = parse_callback_request(missing_state, "expected").expect_err("must require state");
    assert_eq!(err.category.as_code(), "AUTH_ERROR");
    assert_eq!(err.message, "OAuth callback missing state");
}

#[test]
fn parse_callback_rejects_empty_request_and_missing_target() {
    let err = parse_callback_request("", "expected").expect_err("empty request");
    assert_eq!(err.message, "invalid OAuth callback request");
    let err = parse_callback_request("GET\r\n\r\n", "expected").expect_err("no target");
    assert_eq!(err.category.as_code(), "AUTH_ERROR");
    assert_eq!(err.message, "OAuth callback request is missing target path");
    let err = parse_callback_request("\r\nGET /callback?code=a&state=s HTTP/1.1", "s")
        .expect_err("the first line is empty");
    assert_eq!(err.message, "OAuth callback must be a GET request");
}

#[test]
fn parse_callback_decodes_query_values_and_takes_first_pair() {
    let req = "GET /callback?code=a%20b&state=s&code=second HTTP/1.1\r\n\r\n";
    let parsed = parse_callback_request(req, "s").expect("parsed");
    assert_eq!(parsed.code, "a b");
}

#[test]
fn callback_target_is_second_token_of_first_line() {
    let target = callback_target("  GET   /cb?x=1   HTTP/1.1\nHost: h").expect("target");
    assert_eq!(target, "/cb?x=1");
}

#[test]
fn callback_from_pairs_checks_error_code_and_state_in_order() {
    let pairs = vec![
        ("state".to_string(), "other".to_string()),
        ("code".to_string(), "c".to_string()),
    ];
    let err = callback_from_pairs(&pairs, "s").expect_err("state mismatch");
    assert_eq!(err.message, "OAuth callback state mismatch");
    let pairs = vec![
        ("code".to_string(), "c".to_string()),
        ("error".to_string(), "denied".to_string()),
    ];
    let err = callback_from_pairs(&pairs, "s").expect_err("provider error wins");
    assert_eq!(err.message, "OAuth authorization failed: denied");
}

#[test]
fn callback_listener_host_must_be_localhost_only() {
    ensure_localhost_callback_host("127.0.0.1").expect("localhost ip should pass");
    ensure_localhost_callback_host("localhost").expect("localhost name should pass");
    let err = ensure_localhost_callback_host("0.0.0.0").expect_err("must reject wildcard host");
    assert_eq!(err.category.as_code(), "CONFIG_ERROR");
    assert_eq!(
        err.message,
        "oauth.listen_host must be localhost-only (127.0.0.1 or localhost)"
    );
}

#[test]
fn logout_requires_yes_flag() {
    let err = ensure_logout_confirmed(&LogoutArgs { yes: false }).expect_err("logout must require --yes");
    assert_eq!(err.category.as_code(), "VALIDATION_ERROR");
    assert_eq!(err.message, "auth logout requires --yes");
    ensure_logout_confirmed(&LogoutArgs { yes: true }).expect("confirmed logout");
}

#[test]
fn logout_reports_removed_rows() {
    let out = logout_output(2);
    assert_eq!(out.command, "auth logout");
    assert_eq!(out.human, "Removed 2 token row(s).");
    assert!(matches!(field(&out.data, "removed_token_rows"), JsonValue::Number(n) if n == "2"));
}

#[test]
fn authorize_url_carries_client_redirect_scope_and_state() {
    let app = test_config("https://graph.threads.net/");
    let url = build_authorize_url(&app, "st-1").expect("authorize url");
    assert!(url.starts_with("https://graph.threads.net/v1.0/oauth/authorize?"));
    assert!(url.contains("client_id=app-id"));
    assert!(url.contains("redirect_uri=http%3A%2F%2F127.0.0.1%3A8788%2Fcallback"));
    assert!(url.contains("response_type=code"));
    assert!(url.contains("scope=threads_basic%2Cthreads_content_publish"));
    assert!(url.ends_with("state=st-1"));
}

#[test]
fn authorize_url_rejects_invalid_base() {
    let app = test_config("not a url");
    let err = build_authorize_url(&app, "s").expect_err("invalid base");
    assert_eq!(err.category.as_code(), "CONFIG_ERROR");
    assert!(err.message.starts_with("invalid authorize URL base: "));
}

#[test]
fn expiry_is_issue_time_plus_lifetime() {
    assert_eq!(
        compute_expires_at(Some(3600), 1_704_067_200),
        Some("2024-01-01T01:00:00Z".to_string())
    );
    assert_eq!(compute_expires_at(None, 1_704_067_200), None);
    assert_eq!(compute_expires_at(Some(i64::MAX), 1_704_067_200), None);
}

#[test]
fn token_expiry_compares_with_now() {
    let now = 1_704_067_200; // 2024-01-01T00:00:00Z
    assert!(token_expired(Some("2024-01-01T00:00:00Z"), now, 0));
    assert!(token_expired(Some("2023-12-31T23:59:59Z"), now, 0));
    assert!(!token_expired(Some("2024-01-01T00:00:01Z"), now, 0));
    assert!(!token_expired(Some("not a date"), now, 0));
    assert!(!token_expired(None, now, 0));
}

#[test]
fn refresh_needs_stored_refresh_token() {
    let err = refresh_token_for(&None).expect_err("no token");
    assert_eq!(err.message, "no stored token found; run auth login first");
    let err = refresh_token_for(&Some(token_row(None, None))).expect_err("no refresh token");
    assert_eq!(err.category.as_code(), "AUTH_ERROR");
    assert_eq!(err.message, "stored token has no refresh_token; run auth login again");
    let rt = refresh_token_for(&Some(token_row(None, Some("old-refresh")))).expect("refresh token");
    assert_eq!(rt, "old-refresh");
}

#[test]
fn status_reports_usable_expired_and_missing_tokens() {
    let account = AccountRow {
        id: 3,
        threads_user_id: "acct-1".to_string(),
        username: Some("alice".to_string()),
        name: Some("Alice".to_string()),
        created_at: "2024-01-01".to_string(),
    };
    let now = 1_704_067_200;
    let usable = status_output(&Some(token_row(Some("2999-01-01T00:00:00Z"), None)), &Some(account), now, 0);
    assert_eq!(usable.human, "Auth status: authenticated and token is usable.");
    assert!(matches!(field(&usable.data, "usable"), JsonValue::Bool(true)));
    assert!(matches!(field(&usable.data, "account_username"), JsonValue::Str(s) if s == "alice"));

    let expired = status_output(&Some(token_row(Some("2020-01-01T00:00:00Z"), None)), &None, now, 0);
    assert_eq!(
        expired.human,
        "Auth status: token is present but expired; run auth refresh or auth login."
    );
    assert!(matches!(field(&expired.data, "token_expired"), JsonValue::Bool(true)));

    let missing = status_output(&None, &None, now, 0);
    assert_eq!(missing.human, "Auth status: no token found.");
    assert!(matches!(field(&missing.data, "authenticated"), JsonValue::Bool(false)));
    assert!(matches!(field(&missing.data, "token_id"), JsonValue::Null));
}

#[test]
fn token_insert_stamps_issue_time_and_keeps_refresh_token() {
    let store = Store::new("/tmp/threads.db".to_string());
    let token = OAuthTokenResponse {
        access_token: "new-access".to_string(),
        token_type: Some("bearer".to_string()),
        expires_in: Some(3600),
        refresh_token: None,
    };
    let (stmt, expires_at) = threads_cli::cli::auth::token_insert(&store, 4, &token, Some("existing-refresh"), 1_704_067_200, "{}");
    assert_eq!(expires_at.as_deref(), Some("2024-01-01T01:00:00Z"));
    let texts: Vec<Option<String>> = stmt
        .params
        .iter()
        .map(|p| match p {
            SqlValue::Text(s) => Some(s.clone()),
            _ => None,
        })
        .collect();
    assert!(matches!(stmt.params[0], SqlValue::Integer(4)));
    assert_eq!(texts[1].as_deref(), Some("new-access"));
    assert_eq!(texts[2].as_deref(), Some("existing-refresh"));
    assert_eq!(texts[3].as_deref(), Some("2024-01-01T00:00:00Z"));
    assert_eq!(texts[4].as_deref(), Some("2024-01-01T01:00:00Z"));
}
