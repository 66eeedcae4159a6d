//! `config show`: the configuration with its secret withheld.
use vstd::prelude::*;

use crate::config::{AppConfig, RedactedConfigView};
use crate::output::{
    entry, field_value, has_key, int_json, json_str, json_u64, object_len, str_json, CommandOutput,
    JsonValue,
};
use crate::text::owned;

verus! {

pub enum ConfigSubcommand {
    Show,
}

/// The displayed configuration as data.
pub open spec fn view_data_ok(j: JsonValue, v: RedactedConfigView) -> bool {
    &&& object_len(j) == 4
    &&& has_key(j, 0, "defaults"@) && {
        let d = field_value(j, 0);
        &&& object_len(d) == 3
        &&& has_key(d, 0, "link_mode"@) && str_json(field_value(d, 0), v.defaults.link_mode@)
        &&& has_key(d, 1, "open_browser"@) && field_value(d, 1) == JsonValue::Bool(
            v.defaults.open_browser,
        )
        &&& has_key(d, 2, "output"@) && str_json(field_value(d, 2), v.defaults.output@)
    }
    &&& has_key(j, 1, "oauth"@) && {
        let o = field_value(j, 1);
        &&& object_len(o) == 3
        &&& has_key(o, 0, "listen_host"@) && str_json(field_value(o, 0), v.oauth.listen_host@)
        &&& has_key(o, 1, "listen_port"@) && int_json(field_value(o, 1), v.oauth.listen_port as int)
        &&& has_key(o, 2, "state_ttl_seconds"@) && int_json(
            field_value(o, 2),
            v.oauth.state_ttl_seconds as int,
        )
    }
    &&& has_key(j, 2, "storage"@) && {
        let s = field_value(j, 2);
        &&& object_len(s) == 1
        &&& has_key(s, 0, "database_path"@) && str_json(field_value(s, 0), v.storage.database_path@)
    }
    &&& has_key(j, 3, "threads"@) && {
        let t = field_value(j, 3);
        &&& object_len(t) == 7
        &&& has_key(t, 0, "app_id"@) && str_json(field_value(t, 0), v.threads.app_id@)
        &&& has_key(t, 1, "app_secret_file"@) && str_json(field_value(t, 1), v.threads.app_secret_file@)
        &&& has_key(t, 2, "app_secret_present"@) && field_value(t, 2) == JsonValue::Bool(
            v.threads.app_secret_present,
        )
        &&& has_key(t, 3, "base_url"@) && str_json(field_value(t, 3), v.threads.base_url@)
        &&& has_key(t, 4, "redirect_uri"@) && str_json(field_value(t, 4), v.threads.redirect_uri@)
        &&& has_key(t, 5, "user_id"@) && str_json(field_value(t, 5), v.threads.user_id@)
        &&& has_key(t, 6, "version"@) && str_json(field_value(t, 6), v.threads.version@)
    }
}

fn view_data(v: &RedactedConfigView) -> (j: JsonValue)
    ensures
        view_data_ok(j, *v),
{
    let mut d: Vec<(String, JsonValue)> = Vec::new();
    d.push(entry("link_mode", json_str(v.defaults.link_mode.as_str())));
    d.push(entry("open_browser", JsonValue::Bool(v.defaults.open_browser)));
    d.push(entry("output", json_str(v.defaults.output.as_str())));
    let mut o: Vec<(String, JsonValue)> = Vec::new();
    o.push(entry("listen_host", json_str(v.oauth.listen_host.as_str())));
    o.push(entry("listen_port", json_u64(v.oauth.listen_port as u64)));
    o.push(entry("state_ttl_seconds", json_u64(v.oauth.state_ttl_seconds)));
    let mut s: Vec<(String, JsonValue)> = Vec::new();
    s.push(entry("database_path", json_str(v.storage.database_path.as_str())));
    let mut t: Vec<(String, JsonValue)> = Vec::new();
    t.push(entry("app_id", json_str(v.threads.app_id.as_str())));
    t.push(entry("app_secret_file", json_str(v.threads.app_secret_file.as_str())));
    t.push(entry("app_secret_present", JsonValue::Bool(v.threads.app_secret_present)));
    t.push(entry("base_url", json_str(v.threads.base_url.as_str())));
    t.push(entry("redirect_uri", json_str(v.threads.redirect_uri.as_str())));
    t.push(entry("user_id", json_str(v.threads.user_id.as_str())));
    t.push(entry("version", json_str(v.threads.version.as_str())));
    let mut j: Vec<(String, JsonValue)> = Vec::new();
    j.push(entry("defaults", JsonValue::Object(d)));
    j.push(entry("oauth", JsonValue::Object(o)));
    j.push(entry("storage", JsonValue::Object(s)));
    j.push(entry("threads", JsonValue::Object(t)));
    JsonValue::Object(j)
}

/// `config show`: the configuration for display; `app_secret_present` tells
/// whether the app secret file exists.
pub fn run(command: &crate::cli::ConfigCommand, app: &AppConfig, app_secret_present: bool) -> (r: CommandOutput)
    ensures
        r.command@ == "config show"@,
        r.human@ == "Config loaded successfully (sensitive values redacted)."@,
        object_len(r.data) == 1,
        has_key(r.data, 0, "config"@),
        exists|v: RedactedConfigView|
            view_data_ok(field_value(r.data, 0), v) && v.threads.app_secret_present == app_secret_present
                && v.threads.app_id@ == app.threads.app_id@ && v.threads.app_secret_file@
                == app.threads.app_secret_file@ && v.threads.redirect_uri@ == app.threads.redirect_uri@
                && v.threads.user_id@ == app.threads.user_id@ && v.threads.base_url@
                == app.threads.base_url@ && v.threads.version@ == app.threads.version@
                && v.storage.database_path@ == app.storage.database_path@ && v.defaults.link_mode@
                == app.defaults.link_mode@ && v.defaults.output@ == app.defaults.output@
                && v.defaults.open_browser == app.defaults.open_browser && v.oauth.listen_host@
                == app.oauth.listen_host@ && v.oauth.listen_port == app.oauth.listen_port
                && v.oauth.state_ttl_seconds == app.oauth.state_ttl_seconds,
{
    match command.command {
        ConfigSubcommand::Show => {},
    }
    let view = app.redacted_for_display(app_secret_present);
    let mut v: Vec<(String, JsonValue)> = Vec::new();
    v.push(entry("config", view_data(&view)));
    let r = CommandOutput {
        command: owned("config show"),
        human: owned("Config loaded successfully (sensitive values redacted)."),
        data: JsonValue::Object(v),
    };
    assert(view_data_ok(field_value(r.data, 0), view));
    r
}

} // verus!
