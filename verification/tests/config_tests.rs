use threads_cli::cli::config::{run, ConfigSubcommand};
use threads_cli::cli::ConfigCommand;
use threads_cli::config::{
    app_secret_from_contents, expansion_outcome, AppConfig, DefaultsConfig, OAuthConfig,
    StorageConfig, ThreadsConfig,
};
use threads_cli::output::JsonValue;

fn config(host: &str) -> AppConfig {
    AppConfig {
        threads: ThreadsConfig {
            app_id: "app-1".to_string(),
            app_secret_file: "/tmp/secret.txt".to_string(),
            redirect_uri: "http://127.0.0.1:8788/callback".to_string(),
            user_id: "user-1".to_string(),
            base_url: "https://graph.threads.net".to_string(),
            version: "v1.0".to_string(),
        },
        storage: StorageConfig { database_path: "/tmp/threads.db".to_string() },
        defaults: DefaultsConfig {
            link_mode: "reply".to_string(),
            output: "human".to_string(),
            open_browser: false,
        },
        oauth: OAuthConfig {
            listen_host: host.to_string(),
            listen_port: 8788,
            state_ttl_seconds: 600,
        },
    }
}

fn field<'a>(v: &'a JsonValue, key: &str) -> &'a JsonValue {
    match v {
        JsonValue::Object(fields) => fields.iter().find(|(k, _)| k == key).map(|(_, v)| v).expect("key"),
        _ => panic!("not an object"),
    }
}

#[test]
fn loads_valid_config() {
    let app = config("127.0.0.1");
    app.validate().expect("valid config");
    assert_eq!(app.threads.app_id, "app-1");
}

#[test]
fn rejects_non_localhost_oauth_host() {
    let err = config("0.0.0.0").validate().expect_err("expected fail");
    assert_eq!(err.category.as_code(), "CONFIG_ERROR");
    assert_eq!(err.message, "oauth.listen_host must be localhost-only (127.0.0.1 or localhost)");
}

#[test]
fn validation_reports_first_broken_rule() {
    let mut app = config("localhost");
    app.threads.app_id = "  ".to_string();
    app.defaults.link_mode = "weird".to_string();
    assert_eq!(app.validate().expect_err("missing").message, "missing required config fields under [threads] or [storage]");
    let mut app = config("localhost");
    app.defaults.link_mode = "weird".to_string();
    assert_eq!(app.validate().expect_err("mode").message, "defaults.link_mode must be one of: reply, attachment");
    let mut app = config("localhost");
    app.defaults.output = "xml".to_string();
    assert_eq!(app.validate().expect_err("output").message, "defaults.output must be one of: human, json");
    let mut app = config("localhost");
    app.oauth.listen_port = 0;
    assert_eq!(app.validate().expect_err("port").message, "oauth.listen_port must be non-zero");
}

#[test]
fn config_show_withholds_the_secret() {
    let app = config("127.0.0.1");
    let out = run(&ConfigCommand { command: ConfigSubcommand::Show }, &app, true);
    assert_eq!(out.human, "Config loaded successfully (sensitive values redacted).");
    let threads = field(field(&out.data, "config"), "threads");
    assert!(matches!(field(threads, "app_secret_present"), JsonValue::Bool(true)));
    assert!(matches!(field(field(field(&out.data, "config"), "oauth"), "listen_port"), JsonValue::Number(n) if n == "8788"));
}

#[test]
fn app_secret_is_trimmed_and_must_not_be_empty() {
    assert_eq!(app_secret_from_contents("/s", "  super-secret\n").expect("secret"), "super-secret");
    let err = app_secret_from_contents("/s", " \n\t").expect_err("empty");
    assert_eq!(err.message, "app secret file /s is empty");
}

#[test]
fn path_expansion_failures_are_config_errors() {
    let err = expansion_outcome("$NOPE/x", Err("variable not found".to_string())).expect_err("fails");
    assert_eq!(err.category.as_code(), "CONFIG_ERROR");
    assert_eq!(err.message, "failed expanding path '$NOPE/x': variable not found");
    assert_eq!(AppConfig::effective_config_path(Some("/etc/threads.toml")).expect("plain path"), "/etc/threads.toml");
}

#[test]
fn path_expansion_fails_for_an_unset_variable() {
    let err = threads_cli::config::expand_path("$THREADS_CLI_SURELY_UNSET_VARIABLE/config.toml")
        .expect_err("unset variable");
    assert_eq!(err.category.as_code(), "CONFIG_ERROR");
    assert!(err.message.starts_with("failed expanding path '$THREADS_CLI_SURELY_UNSET_VARIABLE/config.toml': "));
    let err = threads_cli::store::expand_db_path("$THREADS_CLI_SURELY_UNSET_VARIABLE/threads.db").expect_err("unset variable");
    assert!(err.message.starts_with("failed expanding db path '"));
}
