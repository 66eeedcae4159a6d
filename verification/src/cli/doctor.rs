//! `doctor check`: the readiness checks and their summary.
use vstd::prelude::*;

use crate::cli::auth::{expiry_passed, not_after};
use crate::client::HealthResult;
use crate::config::{config_violation, is_localhost, AppConfig};
use crate::error::{CliError, ErrorCategory};
use crate::output::{
    entry, field_value, has_key, json_str, object_len, str_json, CommandOutput, JsonValue,
};
use crate::store::TokenRow;
use crate::text::{join_strings, join_with, owned, push_str, str_eq, strings_view};
use crate::trusted::{rfc3339_instant, rfc3339_instant_of};

verus! {

pub enum DoctorSubcommand {
    Check,
}

/// The outcome of each check.
pub struct DoctorChecks {
    pub config_parse_ok: bool,
    pub config_required_fields_ok: bool,
    pub database_path: String,
    pub sqlite_open_ok: bool,
    pub sqlite_migrations_ok: bool,
    pub app_secret_file_accessible: bool,
    pub oauth_localhost_only: bool,
    pub client_base_url: String,
    pub client_api_version: String,
    pub client_ready: bool,
}

/// Whether a usable token is stored.
pub struct AuthReadiness {
    pub token_present: bool,
    pub account_present: bool,
    pub token_expired: Option<bool>,
    pub ready: bool,
}

/// What the caller observed by trying: reading the configuration file,
/// opening and migrating the database, reading the app secret.
pub struct DoctorProbes {
    pub config_parse_ok: bool,
    pub sqlite_open_ok: bool,
    pub sqlite_migrations_ok: bool,
    pub app_secret_file_accessible: bool,
}

/// The checks: the probes, the configuration's own validity, the callback
/// host and the client's health.
pub fn doctor_checks(app: &AppConfig, database_path: &str, probes: &DoctorProbes, health: &HealthResult) -> (r: DoctorChecks)
    ensures
        r.config_parse_ok == probes.config_parse_ok,
        r.config_required_fields_ok == (config_violation(*app) is None),
        r.database_path@ == database_path@,
        r.sqlite_open_ok == probes.sqlite_open_ok,
        r.sqlite_migrations_ok == probes.sqlite_migrations_ok,
        r.app_secret_file_accessible == probes.app_secret_file_accessible,
        r.oauth_localhost_only == is_localhost(app.oauth.listen_host@),
        r.client_base_url@ == health.base_url@,
        r.client_api_version@ == health.api_version@,
        r.client_ready == health.http_ready,
{
    let host = app.oauth.listen_host.as_str();
    DoctorChecks {
        config_parse_ok: probes.config_parse_ok,
        config_required_fields_ok: app.validate().is_ok(),
        database_path: owned(database_path),
        sqlite_open_ok: probes.sqlite_open_ok,
        sqlite_migrations_ok: probes.sqlite_migrations_ok,
        app_secret_file_accessible: probes.app_secret_file_accessible,
        oauth_localhost_only: str_eq(host, "127.0.0.1") || str_eq(host, "localhost"),
        client_base_url: health.base_url.clone(),
        client_api_version: health.api_version.clone(),
        client_ready: health.http_ready,
    }
}

/// Whether an expiry has passed at `now` (seconds and nanoseconds since the
/// Unix epoch); an expiry that is not RFC 3339 has not.
pub fn is_expired(expires_at: &str, now_secs: i64, now_nanos: u32) -> (r: bool)
    ensures
        r == expiry_passed(expires_at@, (now_secs as int, now_nanos as int)),
{
    match rfc3339_instant(expires_at) {
        Some((s, n)) => s < now_secs || (s == now_secs && n <= now_nanos),
        None => false,
    }
}

/// Authentication is ready when a token and its account are stored and the
/// token is not known to have expired.
pub fn auth_readiness(token: &Option<TokenRow>, account_present: bool, now_secs: i64, now_nanos: u32) -> (r: AuthReadiness)
    ensures
        r.token_present == token is Some,
        r.account_present == (token is Some && account_present),
        r.token_expired == (match token {
            Some(t) => match t.expires_at {
                Some(v) => Some(expiry_passed(v@, (now_secs as int, now_nanos as int))),
                None => None,
            },
            None => None,
        }),
        r.ready == (r.token_present && r.account_present && r.token_expired != Some(true)),
{
    let token_present = token.is_some();
    let account = token_present && account_present;
    let expired = match token {
        Some(t) => match &t.expires_at {
            Some(v) => Some(is_expired(v.as_str(), now_secs, now_nanos)),
            None => None,
        },
        None => None,
    };
    let not_expired = match expired {
        Some(true) => false,
        _ => true,
    };
    AuthReadiness {
        token_present,
        account_present: account,
        token_expired: expired,
        ready: token_present && account && not_expired,
    }
}

/// The names of the failed checks, in a fixed order.
pub open spec fn failed_names(checks: DoctorChecks, auth: AuthReadiness) -> Seq<Seq<char>> {
    (if checks.config_parse_ok { seq![] } else { seq!["config_parse"@] })
        + (if checks.config_required_fields_ok { seq![] } else { seq!["config_required_fields"@] })
        + (if checks.sqlite_open_ok { seq![] } else { seq!["sqlite_open"@] })
        + (if checks.sqlite_migrations_ok { seq![] } else { seq!["sqlite_migrations"@] })
        + (if checks.app_secret_file_accessible { seq![] } else { seq!["app_secret_file"@] })
        + (if checks.oauth_localhost_only { seq![] } else { seq!["oauth_localhost"@] })
        + (if checks.client_ready { seq![] } else { seq!["client_ready"@] })
        + (if auth.ready { seq![] } else { seq!["auth_readiness"@] })
}

fn push_if_failed(failed: &mut Vec<String>, ok: bool, name: &str)
    ensures
        strings_view(final(failed)@) == strings_view(old(failed)@) + (if ok {
            seq![]
        } else {
            seq![name@]
        }),
{
    if !ok {
        failed.push(owned(name));
    }
    assert(strings_view(failed@) =~= strings_view(old(failed)@) + (if ok {
        seq![]
    } else {
        seq![name@]
    }));
}

/// The failed checks.
pub fn collect_failed_checks(checks: &DoctorChecks, auth: &AuthReadiness) -> (r: Vec<String>)
    ensures
        strings_view(r@) == failed_names(*checks, *auth),
{
    let mut failed: Vec<String> = Vec::new();
    push_if_failed(&mut failed, checks.config_parse_ok, "config_parse");
    push_if_failed(&mut failed, checks.config_required_fields_ok, "config_required_fields");
    push_if_failed(&mut failed, checks.sqlite_open_ok, "sqlite_open");
    push_if_failed(&mut failed, checks.sqlite_migrations_ok, "sqlite_migrations");
    push_if_failed(&mut failed, checks.app_secret_file_accessible, "app_secret_file");
    push_if_failed(&mut failed, checks.oauth_localhost_only, "oauth_localhost");
    push_if_failed(&mut failed, checks.client_ready, "client_ready");
    push_if_failed(&mut failed, auth.ready, "auth_readiness");
    assert(strings_view(failed@) =~= failed_names(*checks, *auth));
    failed
}

fn bool_field(key: &str, b: bool) -> (r: (String, JsonValue))
    ensures
        r.0@ == key@,
        r.1 == JsonValue::Bool(b),
{
    entry(key, JsonValue::Bool(b))
}

/// The checks as data.
pub open spec fn checks_data_ok(d: JsonValue, c: DoctorChecks) -> bool {
    &&& object_len(d) == 10
    &&& has_key(d, 0, "app_secret_file_accessible"@) && field_value(d, 0) == JsonValue::Bool(
        c.app_secret_file_accessible,
    )
    &&& has_key(d, 1, "client_api_version"@) && str_json(field_value(d, 1), c.client_api_version@)
    &&& has_key(d, 2, "client_base_url"@) && str_json(field_value(d, 2), c.client_base_url@)
    &&& has_key(d, 3, "client_ready"@) && field_value(d, 3) == JsonValue::Bool(c.client_ready)
    &&& has_key(d, 4, "config_parse_ok"@) && field_value(d, 4) == JsonValue::Bool(c.config_parse_ok)
    &&& has_key(d, 5, "config_required_fields_ok"@) && field_value(d, 5) == JsonValue::Bool(
        c.config_required_fields_ok,
    )
    &&& has_key(d, 6, "database_path"@) && str_json(field_value(d, 6), c.database_path@)
    &&& has_key(d, 7, "oauth_localhost_only"@) && field_value(d, 7) == JsonValue::Bool(
        c.oauth_localhost_only,
    )
    &&& has_key(d, 8, "sqlite_migrations_ok"@) && field_value(d, 8) == JsonValue::Bool(
        c.sqlite_migrations_ok,
    )
    &&& has_key(d, 9, "sqlite_open_ok"@) && field_value(d, 9) == JsonValue::Bool(c.sqlite_open_ok)
}

fn checks_data(c: &DoctorChecks) -> (d: JsonValue)
    ensures
        checks_data_ok(d, *c),
{
    let mut v: Vec<(String, JsonValue)> = Vec::new();
    v.push(bool_field("app_secret_file_accessible", c.app_secret_file_accessible));
    v.push(entry("client_api_version", json_str(c.client_api_version.as_str())));
    v.push(entry("client_base_url", json_str(c.client_base_url.as_str())));
    v.push(bool_field("client_ready", c.client_ready));
    v.push(bool_field("config_parse_ok", c.config_parse_ok));
    v.push(bool_field("config_required_fields_ok", c.config_required_fields_ok));
    v.push(entry("database_path", json_str(c.database_path.as_str())));
    v.push(bool_field("oauth_localhost_only", c.oauth_localhost_only));
    v.push(bool_field("sqlite_migrations_ok", c.sqlite_migrations_ok));
    v.push(bool_field("sqlite_open_ok", c.sqlite_open_ok));
    JsonValue::Object(v)
}

/// The readiness as data.
pub open spec fn auth_data_ok(d: JsonValue, a: AuthReadiness) -> bool {
    &&& object_len(d) == 4
    &&& has_key(d, 0, "account_present"@) && field_value(d, 0) == JsonValue::Bool(a.account_present)
    &&& has_key(d, 1, "ready"@) && field_value(d, 1) == JsonValue::Bool(a.ready)
    &&& has_key(d, 2, "token_expired"@) && match a.token_expired {
        Some(b) => field_value(d, 2) == JsonValue::Bool(b),
        None => field_value(d, 2) is Null,
    }
    &&& has_key(d, 3, "token_present"@) && field_value(d, 3) == JsonValue::Bool(a.token_present)
}

fn auth_data(a: &AuthReadiness) -> (d: JsonValue)
    ensures
        auth_data_ok(d, *a),
{
    let mut v: Vec<(String, JsonValue)> = Vec::new();
    v.push(bool_field("account_present", a.account_present));
    v.push(bool_field("ready", a.ready));
    let expired = match a.token_expired {
        Some(b) => JsonValue::Bool(b),
        None => JsonValue::Null,
    };
    v.push(entry("token_expired", expired));
    v.push(bool_field("token_present", a.token_present));
    JsonValue::Object(v)
}

/// The human line of a passing check.
pub open spec fn doctor_ok_line(config_path: Seq<char>, auth_ready: bool) -> Seq<char> {
    "doctor check: ok (config="@ + config_path + ", sqlite=open+migrations, auth_ready="@ + (if auth_ready {
        "true"@
    } else {
        "false"@
    }) + ")"@
}

/// `doctor check`: a configuration error naming every failed check, or the
/// report of a passing check.
pub fn run(command: &crate::cli::DoctorCommand, config_path: &str, checks: &DoctorChecks, auth: &AuthReadiness) -> (r: Result<CommandOutput, CliError>)
    ensures
        r is Err <==> failed_names(*checks, *auth).len() > 0,
        r matches Err(e) ==> e.category == ErrorCategory::Config && e.message@ == "doctor checks failed: "@
            + join_with(failed_names(*checks, *auth), ", "@),
        r matches Ok(o) ==> {
            &&& o.command@ == "doctor check"@
            &&& o.human@ == doctor_ok_line(config_path@, auth.ready)
            &&& object_len(o.data) == 4
            &&& has_key(o.data, 0, "auth"@) && auth_data_ok(field_value(o.data, 0), *auth)
            &&& has_key(o.data, 1, "checks"@) && checks_data_ok(field_value(o.data, 1), *checks)
            &&& has_key(o.data, 2, "config_path"@) && str_json(field_value(o.data, 2), config_path@)
            &&& has_key(o.data, 3, "summary"@) && object_len(field_value(o.data, 3)) == 2
                && has_key(field_value(o.data, 3), 0, "failed_checks"@) && field_value(
                field_value(o.data, 3),
                0,
            ) is Array && field_value(field_value(o.data, 3), 0)->Array_0@.len() == 0
                && has_key(field_value(o.data, 3), 1, "ok"@) && field_value(field_value(o.data, 3), 1)
                == JsonValue::Bool(true)
        },
{
    match command.command {
        DoctorSubcommand::Check => {},
    }
    let failed = collect_failed_checks(checks, auth);
    if failed.len() > 0 {
        let mut m = owned("doctor checks failed: ");
        let joined = join_strings(&failed, ", ");
        push_str(&mut m, joined.as_str());
        return Err(CliError { category: ErrorCategory::Config, message: m });
    }
    let mut human = owned("doctor check: ok (config=");
    push_str(&mut human, config_path);
    push_str(&mut human, ", sqlite=open+migrations, auth_ready=");
    push_str(&mut human, if auth.ready { "true" } else { "false" });
    push_str(&mut human, ")");
    let mut summary: Vec<(String, JsonValue)> = Vec::new();
    summary.push(entry("failed_checks", JsonValue::Array(Vec::new())));
    summary.push(bool_field("ok", true));
    let mut v: Vec<(String, JsonValue)> = Vec::new();
    v.push(entry("auth", auth_data(auth)));
    v.push(entry("checks", checks_data(checks)));
    v.push(entry("config_path", json_str(config_path)));
    v.push(entry("summary", JsonValue::Object(summary)));
    Ok(CommandOutput { command: owned("doctor check"), human, data: JsonValue::Object(v) })
}

/// The doctor passes exactly when every check passed and authentication is
/// ready.
pub proof fn law_doctor_passes_iff_all_ok(checks: DoctorChecks, auth: AuthReadiness)
    ensures
        failed_names(checks, auth).len() == 0 <==> (checks.config_parse_ok
            && checks.config_required_fields_ok && checks.sqlite_open_ok && checks.sqlite_migrations_ok
            && checks.app_secret_file_accessible && checks.oauth_localhost_only && checks.client_ready
            && auth.ready),
{
}

} // verus!
