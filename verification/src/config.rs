//! Application configuration: defaults, validation and the redacted view.
use vstd::prelude::*;

use crate::error::{CliError, ErrorCategory};
use crate::text::{is_blank, owned, push_str, str_eq, trim_is_empty};
use crate::trusted::shell_expand;

verus! {

/// Where the configuration is read from when no path is given.
pub const DEFAULT_CONFIG_PATH: &'static str = "~/.config/threads-cli/config.toml";

pub struct AppConfig {
    pub threads: ThreadsConfig,
    pub storage: StorageConfig,
    pub defaults: DefaultsConfig,
    pub oauth: OAuthConfig,
}

pub struct ThreadsConfig {
    pub app_id: String,
    pub app_secret_file: String,
    pub redirect_uri: String,
    pub user_id: String,
    pub base_url: String,
    pub version: String,
}

pub struct StorageConfig {
    pub database_path: String,
}

pub struct DefaultsConfig {
    pub link_mode: String,
    pub output: String,
    pub open_browser: bool,
}

pub struct OAuthConfig {
    pub listen_host: String,
    pub listen_port: u16,
    pub state_ttl_seconds: u64,
}

/// The configuration as it is shown: the app secret itself never appears,
/// only whether its file exists.
pub struct RedactedConfigView {
    pub threads: RedactedThreadsConfig,
    pub storage: StorageConfig,
    pub defaults: DefaultsConfig,
    pub oauth: OAuthConfig,
}

pub struct RedactedThreadsConfig {
    pub app_id: String,
    pub app_secret_file: String,
    pub app_secret_present: bool,
    pub redirect_uri: String,
    pub user_id: String,
    pub base_url: String,
    pub version: String,
}

pub fn default_base_url() -> (r: String)
    ensures
        r@ == "https://graph.threads.net"@,
{
    owned("https://graph.threads.net")
}

pub fn default_api_version() -> (r: String)
    ensures
        r@ == "v1.0"@,
{
    owned("v1.0")
}

pub fn default_link_mode() -> (r: String)
    ensures
        r@ == "reply"@,
{
    owned("reply")
}

pub fn default_output_mode() -> (r: String)
    ensures
        r@ == "human"@,
{
    owned("human")
}

pub fn default_open_browser() -> (r: bool)
    ensures
        r,
{
    true
}

pub fn default_listen_host() -> (r: String)
    ensures
        r@ == "127.0.0.1"@,
{
    owned("127.0.0.1")
}

pub fn default_listen_port() -> (r: u16)
    ensures
        r == 8788,
{
    8788
}

pub fn default_state_ttl() -> (r: u64)
    ensures
        r == 600,
{
    600
}

/// The callback listener may only bind to the local host.
pub open spec fn is_localhost(host: Seq<char>) -> bool {
    host == "127.0.0.1"@ || host == "localhost"@
}

/// The message of the first rule that a configuration breaks, if any.
pub open spec fn config_violation(c: AppConfig) -> Option<Seq<char>> {
    if is_blank(c.threads.app_id@) || is_blank(c.threads.app_secret_file@) || is_blank(
        c.threads.redirect_uri@,
    ) || is_blank(c.threads.user_id@) || is_blank(c.storage.database_path@) {
        Some("missing required config fields under [threads] or [storage]"@)
    } else if !is_localhost(c.oauth.listen_host@) {
        Some("oauth.listen_host must be localhost-only (127.0.0.1 or localhost)"@)
    } else if !(c.defaults.link_mode@ == "reply"@ || c.defaults.link_mode@ == "attachment"@) {
        Some("defaults.link_mode must be one of: reply, attachment"@)
    } else if !(c.defaults.output@ == "human"@ || c.defaults.output@ == "json"@) {
        Some("defaults.output must be one of: human, json"@)
    } else if c.oauth.listen_port == 0 {
        Some("oauth.listen_port must be non-zero"@)
    } else {
        None
    }
}

/// A configuration is valid exactly when its required fields are filled,
/// its callback listens on 127.0.0.1 or localhost on a non-zero port, its
/// link mode is `reply` or `attachment`, and its output is `human` or `json`.
pub proof fn law_config_valid_exactly(c: AppConfig)
    ensures
        config_violation(c) is None <==> (!is_blank(c.threads.app_id@) && !is_blank(
            c.threads.app_secret_file@,
        ) && !is_blank(c.threads.redirect_uri@) && !is_blank(c.threads.user_id@) && !is_blank(
            c.storage.database_path@,
        ) && (c.oauth.listen_host@ == "127.0.0.1"@ || c.oauth.listen_host@ == "localhost"@) && (
        c.defaults.link_mode@ == "reply"@ || c.defaults.link_mode@ == "attachment"@) && (
        c.defaults.output@ == "human"@ || c.defaults.output@ == "json"@) && c.oauth.listen_port != 0),
{
}

impl AppConfig {
    /// Checks the configuration: it is valid exactly when no rule is broken,
    /// and otherwise the error is a configuration error carrying the message
    /// of the first broken rule.
    pub fn validate(&self) -> (r: Result<(), CliError>)
        ensures
            r is Ok <==> config_violation(*self) is None,
            r matches Err(e) ==> e.category == ErrorCategory::Config && config_violation(*self)
                == Some(e.message@),
            r is Ok <==> (!is_blank(self.threads.app_id@) && !is_blank(self.threads.app_secret_file@)
                && !is_blank(self.threads.redirect_uri@) && !is_blank(self.threads.user_id@)
                && !is_blank(self.storage.database_path@) && (self.oauth.listen_host@ == "127.0.0.1"@
                || self.oauth.listen_host@ == "localhost"@) && (self.defaults.link_mode@ == "reply"@
                || self.defaults.link_mode@ == "attachment"@) && (self.defaults.output@ == "human"@
                || self.defaults.output@ == "json"@) && self.oauth.listen_port != 0),
    {
        proof {
            law_config_valid_exactly(*self);
        }
        if trim_is_empty(self.threads.app_id.as_str()) || trim_is_empty(
            self.threads.app_secret_file.as_str(),
        ) || trim_is_empty(self.threads.redirect_uri.as_str()) || trim_is_empty(
            self.threads.user_id.as_str(),
        ) || trim_is_empty(self.storage.database_path.as_str()) {
            return Err(
                CliError::new(
                    ErrorCategory::Config,
                    "missing required config fields under [threads] or [storage]",
                ),
            );
        }
        if !str_eq(self.oauth.listen_host.as_str(), "127.0.0.1") && !str_eq(
            self.oauth.listen_host.as_str(),
            "localhost",
        ) {
            return Err(
                CliError::new(
                    ErrorCategory::Config,
                    "oauth.listen_host must be localhost-only (127.0.0.1 or localhost)",
                ),
            );
        }
        if !str_eq(self.defaults.link_mode.as_str(), "reply") && !str_eq(
            self.defaults.link_mode.as_str(),
            "attachment",
        ) {
            return Err(
                CliError::new(
                    ErrorCategory::Config,
                    "defaults.link_mode must be one of: reply, attachment",
                ),
            );
        }
        if !str_eq(self.defaults.output.as_str(), "human") && !str_eq(
            self.defaults.output.as_str(),
            "json",
        ) {
            return Err(
                CliError::new(ErrorCategory::Config, "defaults.output must be one of: human, json"),
            );
        }
        if self.oauth.listen_port == 0 {
            return Err(CliError::new(ErrorCategory::Config, "oauth.listen_port must be non-zero"));
        }
        Ok(())
    }

    /// The configuration for display.  `app_secret_present` tells whether the
    /// app secret file exists; everything else is copied.
    pub fn redacted_for_display(&self, app_secret_present: bool) -> (r: RedactedConfigView)
        ensures
            r.threads.app_id@ == self.threads.app_id@,
            r.threads.app_secret_file@ == self.threads.app_secret_file@,
            r.threads.app_secret_present == app_secret_present,
            r.threads.redirect_uri@ == self.threads.redirect_uri@,
            r.threads.user_id@ == self.threads.user_id@,
            r.threads.base_url@ == self.threads.base_url@,
            r.threads.version@ == self.threads.version@,
            r.storage.database_path@ == self.storage.database_path@,
            r.defaults.link_mode@ == self.defaults.link_mode@,
            r.defaults.output@ == self.defaults.output@,
            r.defaults.open_browser == self.defaults.open_browser,
            r.oauth.listen_host@ == self.oauth.listen_host@,
            r.oauth.listen_port == self.oauth.listen_port,
            r.oauth.state_ttl_seconds == self.oauth.state_ttl_seconds,
    {
        RedactedConfigView {
            threads: RedactedThreadsConfig {
                app_id: self.threads.app_id.clone(),
                app_secret_file: self.threads.app_secret_file.clone(),
                app_secret_present,
                redirect_uri: self.threads.redirect_uri.clone(),
                user_id: self.threads.user_id.clone(),
                base_url: self.threads.base_url.clone(),
                version: self.threads.version.clone(),
            },
            storage: StorageConfig { database_path: self.storage.database_path.clone() },
            defaults: DefaultsConfig {
                link_mode: self.defaults.link_mode.clone(),
                output: self.defaults.output.clone(),
                open_browser: self.defaults.open_browser,
            },
            oauth: OAuthConfig {
                listen_host: self.oauth.listen_host.clone(),
                listen_port: self.oauth.listen_port,
                state_ttl_seconds: self.oauth.state_ttl_seconds,
            },
        }
    }

    /// The configuration path, `~` and variables expanded; the default path
    /// when none is given.
    pub fn effective_config_path(input_path: Option<&str>) -> (r: Result<String, CliError>)
        ensures
            r matches Err(e) ==> e.category == ErrorCategory::Config,
            input_path matches Some(p) ==> (!p@.contains('$') && !(p@.len() > 0 && p@[0] == '~')
                ==> r is Ok && r->Ok_0@ == p@),
    {
        let path = match input_path {
            Some(p) => p,
            None => DEFAULT_CONFIG_PATH,
        };
        expand_path(path)
    }
}

/// What becomes of a path expansion: the expanded path, or a configuration
/// error that names the path and the reason.
pub fn expansion_outcome(input: &str, expanded: Result<String, String>) -> (r: Result<String, CliError>)
    ensures
        expanded matches Ok(s) ==> r is Ok && r->Ok_0@ == s@,
        expanded matches Err(reason) ==> r is Err && r->Err_0.category == ErrorCategory::Config
            && r->Err_0.message@ == "failed expanding path '"@ + input@ + "': "@ + reason@,
{
    match expanded {
        Ok(s) => Ok(s),
        Err(reason) => {
            let mut m = owned("failed expanding path '");
            push_str(&mut m, input);
            push_str(&mut m, "': ");
            push_str(&mut m, reason.as_str());
            Err(CliError { category: ErrorCategory::Config, message: m })
        },
    }
}

/// Expands `~` and environment variables in a path.
pub fn expand_path(input: &str) -> (r: Result<String, CliError>)
    ensures
        r matches Err(e) ==> e.category == ErrorCategory::Config,
        (!input@.contains('$') && !(input@.len() > 0 && input@[0] == '~')) ==> r is Ok
            && r->Ok_0@ == input@,
{
    let expanded = shell_expand(input);
    expansion_outcome(input, expanded)
}

/// The app secret from the contents of its file: surrounding white space is
/// dropped, and an empty secret is a configuration error naming the file.
pub fn app_secret_from_contents(path: &str, contents: &str) -> (r: Result<String, CliError>)
    ensures
        r matches Ok(s) ==> s@ == crate::text::trim(contents@) && s@.len() > 0,
        r is Err <==> is_blank(contents@),
        r matches Err(e) ==> e.category == ErrorCategory::Config && e.message@ == "app secret file "@
            + path@ + " is empty"@,
{
    let t = crate::text::trimmed(contents);
    proof {
        crate::text::lemma_trim_empty_iff_blank(contents@);
    }
    if t.as_str().is_empty() {
        let mut m = owned("app secret file ");
        push_str(&mut m, path);
        push_str(&mut m, " is empty");
        return Err(CliError { category: ErrorCategory::Config, message: m });
    }
    Ok(t)
}

fn config_error(prefix: &str, subject: &str, middle: &str, detail: &str) -> (r: CliError)
    ensures
        r.category == ErrorCategory::Config,
        r.message@ == prefix@ + subject@ + middle@ + detail@,
{
    let mut m = owned(prefix);
    push_str(&mut m, subject);
    push_str(&mut m, middle);
    push_str(&mut m, detail);
    CliError { category: ErrorCategory::Config, message: m }
}

/// The error for a configuration file that could not be read.
pub fn config_read_error(path: &str, detail: &str) -> (r: CliError)
    ensures
        r.category == ErrorCategory::Config,
        r.message@ == "failed reading config file "@ + path@ + ": "@ + detail@,
{
    config_error("failed reading config file ", path, ": ", detail)
}

/// The error for a configuration file that is not valid TOML of the
/// expected shape.
pub fn config_syntax_error(detail: &str) -> (r: CliError)
    ensures
        r.category == ErrorCategory::Config,
        r.message@ == "invalid config TOML: "@ + detail@,
{
    let mut m = owned("invalid config TOML: ");
    push_str(&mut m, detail);
    CliError { category: ErrorCategory::Config, message: m }
}

/// The error for an app secret file that could not be read.
pub fn secret_read_error(path: &str, detail: &str) -> (r: CliError)
    ensures
        r.category == ErrorCategory::Config,
        r.message@ == "failed reading app secret file "@ + path@ + ": "@ + detail@,
{
    config_error("failed reading app secret file ", path, ": ", detail)
}

} // verus!
