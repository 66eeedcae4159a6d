use threads_cli::cli::doctor::{
    auth_readiness, collect_failed_checks, is_expired, run, AuthReadiness, DoctorChecks,
    DoctorSubcommand,
};
use threads_cli::cli::DoctorCommand;
use threads_cli::store::TokenRow;

fn checks_all_ok() -> DoctorChecks {
    DoctorChecks {
        config_parse_ok: true,
        config_required_fields_ok: true,
        database_path: "/tmp/db.sqlite".to_string(),
        sqlite_open_ok: true,
        sqlite_migrations_ok: true,
        app_secret_file_accessible: true,
        oauth_localhost_only: true,
        client_base_url: "https://graph.threads.net".to_string(),
        client_api_version: "v1.0".to_string(),
        client_ready: true,
    }
}

fn token(expires_at: Option<&str>) -> TokenRow {
    TokenRow {
        id: 1,
        account_id: 1,
        access_token: "access-token".to_string(),
        refresh_token: Some("refresh-token".to_string()),
        expires_at: expires_at.map(|s| s.to_string()),
        raw_json: "{}".to_string(),
        created_at: "2024-01-01T00:00:00Z".to_string(),
    }
}

#[test]
fn collect_failed_checks_reports_expected_keys() {
    let checks = DoctorChecks {
        config_parse_ok: false,
        config_required_fields_ok: true,
        database_path: "/tmp/db.sqlite".to_string(),
        sqlite_open_ok: false,
        sqlite_migrations_ok: true,
        app_secret_file_accessible: false,
        oauth_localhost_only: true,
        client_base_url: "https://graph.threads.net".to_string(),
        client_api_version: "v1.0".to_string(),
        client_ready: true,
    };
    let auth = AuthReadiness {
        token_present: false,
        account_present: false,
        token_expired: None,
        ready: false,
    };
    let failed = collect_failed_checks(&checks, &auth);
    assert!(failed.contains(&"config_parse".to_string()));
    assert!(failed.contains(&"sqlite_open".to_string()));
    assert!(failed.contains(&"app_secret_file".to_string()));
    assert!(failed.contains(&"auth_readiness".to_string()));
}

#[test]
fn failed_checks_come_in_fixed_order() {
    let mut checks = checks_all_ok();
    checks.oauth_localhost_only = false;
    checks.config_parse_ok = false;
    let auth = AuthReadiness { token_present: true, account_present: true, token_expired: Some(true), ready: false };
    let failed = collect_failed_checks(&checks, &auth);
    assert_eq!(failed, vec!["config_parse".to_string(), "oauth_localhost".to_string(), "auth_readiness".to_string()]);
}

#[test]
fn doctor_fails_without_auth_token() {
    let auth = auth_readiness(&None, false, 1_704_067_200, 0);
    assert!(!auth.ready);
    let command = DoctorCommand { command: DoctorSubcommand::Check };
    let err = run(&command, "/tmp/config.toml", &checks_all_ok(), &auth)
        .err()
        .expect("doctor should fail without auth token");
    assert_eq!(err.category.as_code(), "CONFIG_ERROR");
    assert!(err.message.contains("auth_readiness"));
    assert_eq!(err.message, "doctor checks failed: auth_readiness");
}

#[test]
fn doctor_passes_when_auth_ready_and_localhost_valid() {
    let auth = auth_readiness(&Some(token(Some("2999-01-01T00:00:00Z"))), true, 1_704_067_200, 0);
    assert!(auth.ready);
    assert_eq!(auth.token_expired, Some(false));
    let command = DoctorCommand { command: DoctorSubcommand::Check };
    let out = run(&command, "/tmp/config.toml", &checks_all_ok(), &auth).ok().expect("doctor should pass");
    assert_eq!(out.command, "doctor check");
    assert_eq!(out.human, "doctor check: ok (config=/tmp/config.toml, sqlite=open+migrations, auth_ready=true)");
}

#[test]
fn doctor_fails_with_non_localhost_oauth_host() {
    let mut checks = checks_all_ok();
    checks.oauth_localhost_only = false;
    let auth = auth_readiness(&Some(token(None)), true, 1_704_067_200, 0);
    assert!(auth.ready);
    let command = DoctorCommand { command: DoctorSubcommand::Check };
    let err = run(&command, "/tmp/config.toml", &checks, &auth).err().expect("doctor should fail for non-localhost oauth");
    assert_eq!(err.category.as_code(), "CONFIG_ERROR");
    assert!(err.message.contains("oauth_localhost"));
}

#[test]
fn expired_token_or_missing_account_is_not_ready() {
    let expired = auth_readiness(&Some(token(Some("2000-01-01T00:00:00Z"))), true, 1_704_067_200, 0);
    assert_eq!(expired.token_expired, Some(true));
    assert!(!expired.ready);
    let no_account = auth_readiness(&Some(token(None)), false, 1_704_067_200, 0);
    assert!(!no_account.ready);
    assert!(is_expired("2024-01-01T00:00:00+00:00", 1_704_067_200, 0));
    assert!(!is_expired("garbage", 1_704_067_200, 0));
}
