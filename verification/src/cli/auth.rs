//! Authentication: the OAuth callback, the authorize URL, token expiry and
//! the outputs of the `auth` commands.
use vstd::prelude::*;

use crate::client::{versioned, versioned_path, OAuthTokenResponse};
use crate::config::{is_localhost, AppConfig};
use crate::error::{CliError, ErrorCategory};
use crate::output::{
    entry, field_is, field_value, lemma_field_is_at, has_key, int_json, json_int, json_opt_int, json_opt_str, json_str,
    json_usize, object_len, opt_int_json, opt_json, CommandOutput, JsonValue,
};
use crate::store::statements::{opt_str_view, opt_view, Statement};
use crate::store::{AccountRow, Store, TokenRow};
use crate::text::{chars_of, find_char_exec, find_char_from, is_whitespace_char, is_ws, owned, push_str, str_eq, string_of_range, lemma_find_char_from, dec_int, push_decimal_u64, dec_nat};
use crate::trusted::{pair_views, rfc3339_after, rfc3339_after_of, rfc3339_instant, rfc3339_instant_of, rfc3339_secs, rfc3339_of, url_query_pairs, url_query_pairs_of, url_with_query, url_with_query_of};

verus! {

pub enum AuthSubcommand {
    Login(LoginArgs),
    Refresh,
    Status,
    Logout(LogoutArgs),
}

pub struct LoginArgs {
    pub no_browser: bool,
}

pub struct LogoutArgs {
    pub yes: bool,
}

/// What a valid OAuth callback carries.
#[derive(Debug)]
pub struct CallbackPayload {
    pub code: String,
}

// ---------------------------------------------------------------------------
// The callback listener
// ---------------------------------------------------------------------------

/// The callback listener binds to a loopback name only.
pub fn ensure_localhost_callback_host(host: &str) -> (r: Result<(), CliError>)
    ensures
        r is Ok <==> is_localhost(host@),
        r matches Err(e) ==> e.category == ErrorCategory::Config && e.message@
            == "oauth.listen_host must be localhost-only (127.0.0.1 or localhost)"@,
{
    if str_eq(host, "127.0.0.1") || str_eq(host, "localhost") {
        Ok(())
    } else {
        Err(
            CliError::new(
                ErrorCategory::Config,
                "oauth.listen_host must be localhost-only (127.0.0.1 or localhost)",
            ),
        )
    }
}

// ---------------------------------------------------------------------------
// The callback request
// ---------------------------------------------------------------------------

/// The first line of a text, as `str::lines` yields it: up to the first line
/// feed, without a carriage return just before it; `None` for empty text.
pub open spec fn first_line(s: Seq<char>) -> Option<Seq<char>> {
    if s.len() == 0 {
        None
    } else {
        match find_char_from(s, '\n', 0) {
            Some(k) => Some(
                if k > 0 && s[k - 1] == '\r' {
                    s.subrange(0, k - 1)
                } else {
                    s.subrange(0, k)
                },
            ),
            None => Some(s),
        }
    }
}

/// The first position at or after `i` that is not white space.
pub open spec fn skip_space(s: Seq<char>, i: int) -> int
    decreases s.len() - i,
{
    if i < 0 || i >= s.len() || !is_ws(s[i]) {
        i
    } else {
        skip_space(s, i + 1)
    }
}

/// The first position at or after `i` that is white space (or the end).
pub open spec fn skip_word(s: Seq<char>, i: int) -> int
    decreases s.len() - i,
{
    if i < 0 || i >= s.len() || is_ws(s[i]) {
        i
    } else {
        skip_word(s, i + 1)
    }
}

/// The bounds of the next white-space separated token at or after `i`, as
/// `str::split_whitespace` finds it.
pub open spec fn next_token(s: Seq<char>, i: int) -> Option<(int, int)> {
    let a = skip_space(s, i);
    if a >= s.len() {
        None
    } else {
        Some((a, skip_word(s, a)))
    }
}

proof fn lemma_skip_space(s: Seq<char>, i: int)
    requires
        0 <= i <= s.len(),
    ensures
        i <= skip_space(s, i) <= s.len(),
    decreases s.len() - i,
{
    if i < s.len() && is_ws(s[i]) {
        lemma_skip_space(s, i + 1);
    }
}

proof fn lemma_skip_word(s: Seq<char>, i: int)
    requires
        0 <= i <= s.len(),
    ensures
        i <= skip_word(s, i) <= s.len(),
    decreases s.len() - i,
{
    if i < s.len() && !is_ws(s[i]) {
        lemma_skip_word(s, i + 1);
    }
}

fn skip_space_exec(v: &Vec<char>, from: usize) -> (r: usize)
    requires
        from <= v.len(),
    ensures
        r == skip_space(v@, from as int),
        from <= r <= v.len(),
{
    let mut i = from;
    while i < v.len() && is_whitespace_char(v[i])
        invariant
            from <= i <= v.len(),
            skip_space(v@, from as int) == skip_space(v@, i as int),
        decreases v.len() - i,
    {
        i = i + 1;
    }
    i
}

fn skip_word_exec(v: &Vec<char>, from: usize) -> (r: usize)
    requires
        from <= v.len(),
    ensures
        r == skip_word(v@, from as int),
        from <= r <= v.len(),
{
    let mut i = from;
    while i < v.len() && !is_whitespace_char(v[i])
        invariant
            from <= i <= v.len(),
            skip_word(v@, from as int) == skip_word(v@, i as int),
        decreases v.len() - i,
    {
        i = i + 1;
    }
    i
}

/// The target of a callback request, or the reason it is refused: the
/// request line must start with `GET` and carry a target.
pub open spec fn target_outcome(request: Seq<char>) -> Result<Seq<char>, Seq<char>> {
    match first_line(request) {
        None => Err("invalid OAuth callback request"@),
        Some(line) => match next_token(line, 0) {
            None => Err("OAuth callback must be a GET request"@),
            Some((a, b)) => if line.subrange(a, b) != "GET"@ {
                Err("OAuth callback must be a GET request"@)
            } else {
                match next_token(line, b) {
                    None => Err("OAuth callback request is missing target path"@),
                    Some((c, d)) => Ok(line.subrange(c, d)),
                }
            },
        },
    }
}

/// The value of the first query pair named `key`.
pub open spec fn query_value(pairs: Seq<(Seq<char>, Seq<char>)>, key: Seq<char>) -> Option<Seq<char>>
    decreases pairs.len(),
{
    if pairs.len() == 0 {
        None
    } else if pairs[0].0 == key {
        Some(pairs[0].1)
    } else {
        query_value(pairs.drop_first(), key)
    }
}

/// A key's value is that of the first pair bearing the key; a key that no
/// pair bears has none.
pub proof fn law_query_value_first(pairs: Seq<(Seq<char>, Seq<char>)>, key: Seq<char>)
    ensures
        (forall|k: int| 0 <= k < pairs.len() ==> (#[trigger] pairs[k]).0 != key) ==> query_value(pairs, key)
            is None,
        forall|k: int|
            0 <= k < pairs.len() && (#[trigger] pairs[k]).0 == key && (forall|m: int|
                0 <= m < k ==> pairs[m].0 != key) ==> query_value(pairs, key) == Some(pairs[k].1),
    decreases pairs.len(),
{
    if pairs.len() > 0 {
        let rest = pairs.drop_first();
        law_query_value_first(rest, key);
        assert forall|k: int| 0 <= k < rest.len() implies #[trigger] rest[k] == pairs[k + 1] by {}
        if pairs[0].0 != key {
            assert forall|k: int|
                0 <= k < pairs.len() && (#[trigger] pairs[k]).0 == key && (forall|m: int|
                    0 <= m < k ==> pairs[m].0 != key) implies query_value(pairs, key) == Some(pairs[k].1) by {
                assert(k >= 1);
                assert(rest[k - 1] == pairs[k]);
                assert forall|m: int| 0 <= m < k - 1 implies rest[m].0 != key by {
                    assert(rest[m] == pairs[m + 1]);
                }
            }
            if forall|k: int| 0 <= k < pairs.len() ==> (#[trigger] pairs[k]).0 != key {
                assert forall|k: int| 0 <= k < rest.len() implies (#[trigger] rest[k]).0 != key by {
                    assert(rest[k] == pairs[k + 1]);
                }
            }
        } else {
            assert forall|k: int|
                0 <= k < pairs.len() && (#[trigger] pairs[k]).0 == key && (forall|m: int|
                    0 <= m < k ==> pairs[m].0 != key) implies query_value(pairs, key) == Some(pairs[k].1) by {
                if k > 0 {
                    assert(pairs[0].0 == key);
                }
            }
        }
    }
}

/// The code of a callback with these query pairs, or the reason it is
/// refused: an `error` from the provider, a missing code or state, or a
/// state other than the expected one.
pub open spec fn callback_outcome(pairs: Seq<(Seq<char>, Seq<char>)>, expected_state: Seq<char>) -> Result<Seq<char>, Seq<char>> {
    match query_value(pairs, "error"@) {
        Some(e) => Err("OAuth authorization failed: "@ + e),
        None => match query_value(pairs, "code"@) {
            None => Err("OAuth callback missing code"@),
            Some(code) => match query_value(pairs, "state"@) {
                None => Err("OAuth callback missing state"@),
                Some(state) => if state == expected_state {
                    Ok(code)
                } else {
                    Err("OAuth callback state mismatch"@)
                },
            },
        },
    }
}

/// A callback result agrees with an outcome; every refusal is an
/// authentication error.
pub open spec fn callback_result_is(r: Result<CallbackPayload, CliError>, o: Result<Seq<char>, Seq<char>>) -> bool {
    match o {
        Ok(code) => r is Ok && r->Ok_0.code@ == code,
        Err(m) => r is Err && r->Err_0.category == ErrorCategory::Auth && r->Err_0.message@ == m,
    }
}

fn auth_error(message: &str) -> (r: CliError)
    ensures
        r.category == ErrorCategory::Auth,
        r.message@ == message@,
{
    CliError::new(ErrorCategory::Auth, message)
}

/// The target of the request line of a callback request.
pub fn callback_target(request: &str) -> (r: Result<String, CliError>)
    ensures
        match target_outcome(request@) {
            Ok(t) => r is Ok && r->Ok_0@ == t,
            Err(m) => r is Err && r->Err_0.category == ErrorCategory::Auth && r->Err_0.message@ == m,
        },
{
    let all = chars_of(request);
    if all.len() == 0 {
        return Err(auth_error("invalid OAuth callback request"));
    }
    proof {
        lemma_find_char_from(all@, '\n', 0);
    }
    let end = match find_char_exec(&all, '\n', 0) {
        Some(k) => {
            if k > 0 && all[k - 1] == '\r' {
                k - 1
            } else {
                k
            }
        },
        None => all.len(),
    };
    let line = string_of_range(&all, 0, end);
    let v = chars_of(line.as_str());
    assert(first_line(request@) == Some(v@)) by {
        if find_char_from(all@, '\n', 0) is None {
            assert(all@.subrange(0, all@.len() as int) =~= all@);
        }
    }
    let a = skip_space_exec(&v, 0);
    if a >= v.len() {
        return Err(auth_error("OAuth callback must be a GET request"));
    }
    let b = skip_word_exec(&v, a);
    let method = string_of_range(&v, a, b);
    if !str_eq(method.as_str(), "GET") {
        return Err(auth_error("OAuth callback must be a GET request"));
    }
    let c = skip_space_exec(&v, b);
    if c >= v.len() {
        return Err(auth_error("OAuth callback request is missing target path"));
    }
    let d = skip_word_exec(&v, c);
    Ok(string_of_range(&v, c, d))
}

fn find_query_value(pairs: &Vec<(String, String)>, key: &str) -> (r: Option<String>)
    ensures
        opt_view(r) == query_value(pair_views(pairs@), key@),
{
    let ghost pv = pair_views(pairs@);
    let mut i: usize = 0;
    assert(pv.subrange(0, pv.len() as int) =~= pv);
    while i < pairs.len()
        invariant
            i <= pairs.len(),
            pv == pair_views(pairs@),
            pv.len() == pairs@.len(),
            query_value(pv, key@) == query_value(pv.subrange(i as int, pv.len() as int), key@),
        decreases pairs.len() - i,
    {
        let ghost rest = pv.subrange(i as int, pv.len() as int);
        assert(rest[0] == (pairs@[i as int].0@, pairs@[i as int].1@));
        if str_eq(pairs[i].0.as_str(), key) {
            return Some(pairs[i].1.clone());
        }
        assert(rest.drop_first() =~= pv.subrange(i + 1, pv.len() as int));
        i = i + 1;
    }
    None
}

/// The code of a callback whose query holds `pairs`.
pub fn callback_from_pairs(pairs: &Vec<(String, String)>, expected_state: &str) -> (r: Result<CallbackPayload, CliError>)
    ensures
        callback_result_is(r, callback_outcome(pair_views(pairs@), expected_state@)),
{
    match find_query_value(pairs, "error") {
        Some(e) => {
            let mut m = owned("OAuth authorization failed: ");
            push_str(&mut m, e.as_str());
            return Err(CliError { category: ErrorCategory::Auth, message: m });
        },
        None => {},
    }
    let code = match find_query_value(pairs, "code") {
        Some(c) => c,
        None => {
            return Err(auth_error("OAuth callback missing code"));
        },
    };
    let state = match find_query_value(pairs, "state") {
        Some(s) => s,
        None => {
            return Err(auth_error("OAuth callback missing state"));
        },
    };
    if !str_eq(state.as_str(), expected_state) {
        return Err(auth_error("OAuth callback state mismatch"));
    }
    Ok(CallbackPayload { code })
}

/// Checks a raw callback request: a `GET` whose target, read as a path on
/// `http://localhost`, carries the code and the expected state.
pub fn parse_callback_request(request: &str, expected_state: &str) -> (r: Result<CallbackPayload, CliError>)
    ensures
        match target_outcome(request@) {
            Err(m) => callback_result_is(r, Err(m)),
            Ok(t) => match url_query_pairs_of("http://localhost"@ + t) {
                Err(e) => callback_result_is(r, Err("invalid OAuth callback target: "@ + e)),
                Ok(pairs) => callback_result_is(r, callback_outcome(pairs, expected_state@)),
            },
        },
{
    let target = callback_target(request)?;
    let mut url = owned("http://localhost");
    push_str(&mut url, target.as_str());
    match url_query_pairs(url.as_str()) {
        Ok(pairs) => {
            assert(pair_views(pairs@) =~= url_query_pairs_of(url@)->Ok_0);
            callback_from_pairs(&pairs, expected_state)
        },
        Err(e) => {
            let mut m = owned("invalid OAuth callback target: ");
            push_str(&mut m, e.as_str());
            Err(CliError { category: ErrorCategory::Auth, message: m })
        },
    }
}

// ---------------------------------------------------------------------------
// The authorize URL
// ---------------------------------------------------------------------------

/// The permissions that login asks for.
pub const OAUTH_SCOPES: &'static str = "threads_basic,threads_content_publish,threads_manage_replies,threads_manage_insights,threads_keyword_search";

/// The query of the authorize URL, in order.
pub open spec fn authorize_pairs(app: AppConfig, state: Seq<char>) -> Seq<(Seq<char>, Seq<char>)> {
    seq![
        ("client_id"@, app.threads.app_id@),
        ("redirect_uri"@, app.threads.redirect_uri@),
        ("response_type"@, "code"@),
        ("scope"@, OAUTH_SCOPES@),
        ("state"@, state),
    ]
}

/// The authorize URL asks for the app's id as `client_id`, the configured
/// `redirect_uri`, a `code` response, the login scopes, and the given
/// `state`.
pub proof fn law_authorize_query(app: AppConfig, state: Seq<char>)
    ensures
        query_value(authorize_pairs(app, state), "client_id"@) == Some(app.threads.app_id@),
        query_value(authorize_pairs(app, state), "redirect_uri"@) == Some(app.threads.redirect_uri@),
        query_value(authorize_pairs(app, state), "response_type"@) == Some("code"@),
        query_value(authorize_pairs(app, state), "scope"@) == Some(OAUTH_SCOPES@),
        query_value(authorize_pairs(app, state), "state"@) == Some(state),
{
    reveal_strlit("client_id");
    reveal_strlit("redirect_uri");
    reveal_strlit("response_type");
    reveal_strlit("scope");
    reveal_strlit("state");
    let p = authorize_pairs(app, state);
    let names = seq!["client_id"@, "redirect_uri"@, "response_type"@, "scope"@, "state"@];
    assert forall|i: int| 0 <= i < 5 implies #[trigger] p[i].0 == names[i] by {
        if i == 0 {} else if i == 1 {} else if i == 2 {} else if i == 3 {} else {}
    }
    assert forall|i: int, k: int| 0 <= i < 5 && 0 <= k < 5 && i != k implies names[i] != names[k] by {
        if names[i] == names[k] {
            assert(names[i].len() == names[k].len());
            assert(names[i][0] == names[k][0]);
            assert(names[i][2] == names[k][2]);
        }
    }
    law_query_value_first(p, "client_id"@);
    law_query_value_first(p, "redirect_uri"@);
    law_query_value_first(p, "response_type"@);
    law_query_value_first(p, "scope"@);
    law_query_value_first(p, "state"@);
    assert(p[0].0 == "client_id"@);
    assert(p[1].0 == "redirect_uri"@);
    assert(p[2].0 == "response_type"@);
    assert(p[3].0 == "scope"@);
    assert(p[4].0 == "state"@);
}

/// The provider's authorize URL for a login with this `state`.
pub fn build_authorize_url(app: &AppConfig, state: &str) -> (r: Result<String, CliError>)
    ensures
        match url_with_query_of(
            versioned(app.threads.base_url@, app.threads.version@, "oauth/authorize"@),
            authorize_pairs(*app, state@),
        ) {
            Ok(u) => r is Ok && r->Ok_0@ == u,
            Err(e) => r is Err && r->Err_0.category == ErrorCategory::Config && r->Err_0.message@
                == "invalid authorize URL base: "@ + e,
        },
{
    let base = versioned_path(app.threads.base_url.as_str(), app.threads.version.as_str(), "oauth/authorize");
    let mut pairs: Vec<(String, String)> = Vec::new();
    pairs.push((owned("client_id"), app.threads.app_id.clone()));
    pairs.push((owned("redirect_uri"), app.threads.redirect_uri.clone()));
    pairs.push((owned("response_type"), owned("code")));
    pairs.push((owned("scope"), owned(OAUTH_SCOPES)));
    pairs.push((owned("state"), owned(state)));
    assert(pair_views(pairs@) =~= authorize_pairs(*app, state@));
    match url_with_query(base.as_str(), &pairs) {
        Ok(u) => Ok(u),
        Err(e) => {
            let mut m = owned("invalid authorize URL base: ");
            push_str(&mut m, e.as_str());
            Err(CliError { category: ErrorCategory::Config, message: m })
        },
    }
}

// ---------------------------------------------------------------------------
// Tokens
// ---------------------------------------------------------------------------

/// When a token issued at `issued_secs` expires, for a lifetime of
/// `expires_in` seconds.
pub fn compute_expires_at(expires_in: Option<i64>, issued_secs: i64) -> (r: Option<String>)
    ensures
        expires_in is None ==> r is None,
        expires_in matches Some(n) ==> opt_view(r) == rfc3339_after_of(issued_secs as int, n as int),
{
    match expires_in {
        Some(n) => rfc3339_after(issued_secs, n),
        None => None,
    }
}

/// An instant `(seconds, nanoseconds)` is not later than another.
pub open spec fn not_after(a: (int, int), b: (int, int)) -> bool {
    a.0 < b.0 || (a.0 == b.0 && a.1 <= b.1)
}

/// A stored expiry has passed at `now`; an expiry that is not RFC 3339 never
/// passes.
pub open spec fn expiry_passed(expires_at: Seq<char>, now: (int, int)) -> bool {
    match rfc3339_instant_of(expires_at) {
        Some(t) => not_after(t, now),
        None => false,
    }
}

/// Whether a token with this expiry has expired at `now` (seconds and
/// nanoseconds since the Unix epoch); a token without expiry never does.
pub fn token_expired(expires_at: Option<&str>, now_secs: i64, now_nanos: u32) -> (r: bool)
    ensures
        r == match opt_str_view(expires_at) {
            Some(v) => expiry_passed(v, (now_secs as int, now_nanos as int)),
            None => false,
        },
{
    match expires_at {
        Some(v) => match rfc3339_instant(v) {
            Some((s, n)) => s < now_secs || (s == now_secs && n <= now_nanos),
            None => false,
        },
        None => false,
    }
}

/// Login tries the long-lived exchange only for a token without refresh
/// token.
pub fn wants_long_lived_exchange(token: &OAuthTokenResponse) -> (r: bool)
    ensures
        r == token.refresh_token is None,
{
    token.refresh_token.is_none()
}

/// Login opens a browser when the configuration allows it and the user did
/// not refuse.
pub fn opens_browser(app: &AppConfig, args: &LoginArgs) -> (r: bool)
    ensures
        r == (app.defaults.open_browser && !args.no_browser),
{
    app.defaults.open_browser && !args.no_browser
}

/// The refresh token that a refresh uses: that of the stored token.
pub fn refresh_token_for(existing: &Option<TokenRow>) -> (r: Result<String, CliError>)
    ensures
        existing is None ==> r is Err && r->Err_0.category == ErrorCategory::Auth
            && r->Err_0.message@ == "no stored token found; run auth login first"@,
        existing matches Some(t) ==> match t.refresh_token {
            Some(rt) => r is Ok && r->Ok_0@ == rt@,
            None => r is Err && r->Err_0.category == ErrorCategory::Auth && r->Err_0.message@
                == "stored token has no refresh_token; run auth login again"@,
        },
{
    match existing {
        None => Err(auth_error("no stored token found; run auth login first")),
        Some(t) => match &t.refresh_token {
            Some(rt) => Ok(rt.clone()),
            None => Err(auth_error("stored token has no refresh_token; run auth login again")),
        },
    }
}

/// The refresh token stored with a new token: its own, or else the one it
/// was refreshed with.
pub open spec fn stored_refresh_token(token: OAuthTokenResponse, fallback: Option<Seq<char>>) -> Option<Seq<char>> {
    match token.refresh_token {
        Some(t) => Some(t@),
        None => fallback,
    }
}

/// A refresh token that the API returns with a new token replaces the one
/// stored before; the stored one is kept only when the response has none.
pub proof fn law_refresh_token_rotation(token: OAuthTokenResponse, fallback: Option<Seq<char>>)
    ensures
        token.refresh_token matches Some(t) ==> stored_refresh_token(token, fallback) == Some(t@),
        token.refresh_token is None ==> stored_refresh_token(token, fallback) == fallback,
{
}

/// The statement that stores a token obtained at `now_secs` for an account,
/// and the token's expiry.
pub fn token_insert(
    store: &Store,
    account_id: i64,
    token: &OAuthTokenResponse,
    fallback_refresh_token: Option<&str>,
    now_secs: i64,
    raw_json: &str,
) -> (r: (Statement, Option<String>))
    ensures
        opt_view(r.1) == (match token.expires_in {
            Some(n) => rfc3339_after_of(now_secs as int, n as int),
            None => None,
        }),
        r.0.sql@ == crate::store::statements::INSERT_TOKEN_SQL@,
        crate::store::statements::params_view(r.0.params@) == seq![
            crate::store::statements::SqlParam::Integer(account_id as int),
            crate::store::statements::SqlParam::Text(token.access_token@),
            crate::store::statements::opt_param(stored_refresh_token(*token, opt_str_view(fallback_refresh_token))),
            crate::store::statements::opt_param(rfc3339_of(now_secs as int)),
            crate::store::statements::opt_param(opt_view(r.1)),
            crate::store::statements::SqlParam::Text(raw_json@),
        ],
        token.refresh_token matches Some(t) ==> crate::store::statements::params_view(r.0.params@)[2]
            == crate::store::statements::SqlParam::Text(t@),
        token.refresh_token is None ==> crate::store::statements::params_view(r.0.params@)[2]
            == crate::store::statements::opt_param(opt_str_view(fallback_refresh_token)),
{
    proof {
        law_refresh_token_rotation(*token, opt_str_view(fallback_refresh_token));
    }
    let issued_at = rfc3339_secs(now_secs);
    let expires_at = compute_expires_at(token.expires_in, now_secs);
    let refresh: Option<&str> = match &token.refresh_token {
        Some(t) => Some(t.as_str()),
        None => fallback_refresh_token,
    };
    let issued_ref: Option<&str> = match &issued_at {
        Some(s) => Some(s.as_str()),
        None => None,
    };
    let expires_ref: Option<&str> = match &expires_at {
        Some(s) => Some(s.as_str()),
        None => None,
    };
    let stmt = store.insert_token(account_id, token.access_token.as_str(), refresh, issued_ref, expires_ref, raw_json);
    (stmt, expires_at)
}

// ---------------------------------------------------------------------------
// Outputs
// ---------------------------------------------------------------------------

/// The data of a completed login or refresh.
pub open spec fn lifecycle_data_ok(d: JsonValue, account_id: i64, token_id: i64, expires_at: Option<Seq<char>>) -> bool {
    &&& object_len(d) == 3
    &&& has_key(d, 0, "account_id"@) && int_json(field_value(d, 0), account_id as int)
    &&& has_key(d, 1, "expires_at"@) && opt_json(field_value(d, 1), expires_at)
    &&& has_key(d, 2, "token_id"@) && int_json(field_value(d, 2), token_id as int)
}

fn lifecycle_data(account_id: i64, token_id: i64, expires_at: &Option<String>) -> (d: JsonValue)
    ensures
        lifecycle_data_ok(d, account_id, token_id, opt_view(*expires_at)),
{
    let mut v: Vec<(String, JsonValue)> = Vec::new();
    v.push(entry("account_id", json_int(account_id)));
    v.push(entry("expires_at", json_opt_str(expires_at)));
    v.push(entry("token_id", json_int(token_id)));
    JsonValue::Object(v)
}

/// What a completed login reports.
pub fn login_output(account_id: i64, token_id: i64, expires_at: &Option<String>) -> (r: CommandOutput)
    ensures
        r.command@ == "auth login"@,
        r.human@ == "OAuth login completed and token saved."@,
        lifecycle_data_ok(r.data, account_id, token_id, opt_view(*expires_at)),
{
    CommandOutput {
        command: owned("auth login"),
        human: owned("OAuth login completed and token saved."),
        data: lifecycle_data(account_id, token_id, expires_at),
    }
}

/// What a completed refresh reports.
pub fn refresh_output(account_id: i64, token_id: i64, expires_at: &Option<String>) -> (r: CommandOutput)
    ensures
        r.command@ == "auth refresh"@,
        r.human@ == "Token refresh completed and token saved."@,
        lifecycle_data_ok(r.data, account_id, token_id, opt_view(*expires_at)),
{
    CommandOutput {
        command: owned("auth refresh"),
        human: owned("Token refresh completed and token saved."),
        data: lifecycle_data(account_id, token_id, expires_at),
    }
}

/// A stored token is usable when its account is known and it has not
/// expired.
pub open spec fn token_usable(token: TokenRow, account_present: bool, now: (int, int)) -> bool {
    account_present && !(match token.expires_at {
        Some(v) => expiry_passed(v@, now),
        None => false,
    })
}

/// The human line of `auth status`.
pub open spec fn status_line(token: Option<TokenRow>, account_present: bool, now: (int, int)) -> Seq<char> {
    match token {
        None => "Auth status: no token found."@,
        Some(t) => if token_usable(t, account_present, now) {
            "Auth status: authenticated and token is usable."@
        } else {
            "Auth status: token is present but expired; run auth refresh or auth login."@
        },
    }
}

pub open spec fn opt_bool_json(j: JsonValue, o: Option<bool>) -> bool {
    match o {
        Some(b) => j == JsonValue::Bool(b),
        None => j is Null,
    }
}

/// The data of `auth status`.
pub open spec fn status_data_ok(d: JsonValue, token: Option<TokenRow>, account: Option<AccountRow>, now: (int, int)) -> bool {
    &&& object_len(d) == 9
    &&& has_key(d, 0, "account_id"@) && opt_int_json(field_value(d, 0), match token {
        Some(t) => Some(t.account_id),
        None => None,
    })
    &&& has_key(d, 1, "account_name"@) && opt_json(field_value(d, 1), match (token, account) {
        (Some(_), Some(a)) => opt_view(a.name),
        _ => None,
    })
    &&& has_key(d, 2, "account_username"@) && opt_json(field_value(d, 2), match (token, account) {
        (Some(_), Some(a)) => opt_view(a.username),
        _ => None,
    })
    &&& has_key(d, 3, "authenticated"@) && field_value(d, 3) == JsonValue::Bool(token is Some)
    &&& has_key(d, 4, "expires_at"@) && opt_json(field_value(d, 4), match token {
        Some(t) => opt_view(t.expires_at),
        None => None,
    })
    &&& has_key(d, 5, "token_created_at"@) && opt_json(field_value(d, 5), match token {
        Some(t) => Some(t.created_at@),
        None => None,
    })
    &&& has_key(d, 6, "token_expired"@) && opt_bool_json(field_value(d, 6), match token {
        Some(t) => Some(match t.expires_at {
            Some(v) => expiry_passed(v@, now),
            None => false,
        }),
        None => None,
    })
    &&& has_key(d, 7, "token_id"@) && opt_int_json(field_value(d, 7), match token {
        Some(t) => Some(t.id),
        None => None,
    })
    &&& has_key(d, 8, "usable"@) && field_value(d, 8) == JsonValue::Bool(match token {
        Some(t) => token_usable(t, account is Some, now),
        None => false,
    })
}

/// An expiry has passed exactly when its instant is at or before `now`; an
/// expiry that is not RFC 3339 never passes.
pub proof fn law_expiry_meaning(expires_at: Seq<char>, now: (int, int))
    ensures
        rfc3339_instant_of(expires_at) is None ==> !expiry_passed(expires_at, now),
        rfc3339_instant_of(expires_at) matches Some(t) ==> (expiry_passed(expires_at, now) <==> (t.0
            < now.0 || (t.0 == now.0 && t.1 <= now.1))),
{
}

/// `auth status` reports whether a token is stored, its id and account,
/// whether it expired, and that it is usable exactly when a token and its
/// account are stored and the token has not expired.
pub proof fn law_status_fields(d: JsonValue, token: Option<TokenRow>, account: Option<AccountRow>, now: (int, int))
    requires
        status_data_ok(d, token, account, now),
    ensures
        field_is(d, "account_id"@, |v: JsonValue| opt_int_json(v, match token { Some(t) => Some(t.account_id), None => None })),
        field_is(d, "authenticated"@, |v: JsonValue| v == JsonValue::Bool(token is Some)),
        field_is(d, "token_expired"@, |v: JsonValue| (match token { Some(t) => v == JsonValue::Bool(t.expires_at is Some && expiry_passed(t.expires_at->Some_0@, now)), None => v is Null })),
        field_is(d, "token_id"@, |v: JsonValue| opt_int_json(v, match token { Some(t) => Some(t.id), None => None })),
        field_is(d, "usable"@, |v: JsonValue| v == JsonValue::Bool(token is Some && account is Some && !(token->Some_0.expires_at is Some && expiry_passed(token->Some_0.expires_at->Some_0@, now)))),
{
    reveal_strlit("account_id");
    reveal_strlit("account_name");
    reveal_strlit("account_username");
    reveal_strlit("authenticated");
    reveal_strlit("expires_at");
    reveal_strlit("token_created_at");
    reveal_strlit("token_expired");
    reveal_strlit("token_id");
    reveal_strlit("usable");
    let f = d->Object_0@;
    let names = seq![
        "account_id"@,
        "account_name"@,
        "account_username"@,
        "authenticated"@,
        "expires_at"@,
        "token_created_at"@,
        "token_expired"@,
        "token_id"@,
        "usable"@,
    ];
    assert forall|i: int| 0 <= i < 9 implies #[trigger] f[i].0@ == names[i] by {
        if i == 0 {} else if i == 1 {} else if i == 2 {} else if i == 3 {} else if i == 4 {} else if i == 5 {} else if i == 6 {} else if i == 7 {} else {}
    }
    assert forall|i: int, k: int| 0 <= i < 9 && 0 <= k < 9 && i != k implies names[i] != names[k] by {
        if names[i] == names[k] {
            assert(names[i].len() == names[k].len());
            assert(names[i][0] == names[k][0]);
            assert(names[i][1] == names[k][1]);
            assert(names[i][8] == names[k][8]);
        }
    }
    lemma_field_is_at(d, "account_id"@, 0, |v: JsonValue| opt_int_json(v, match token { Some(t) => Some(t.account_id), None => None }));
    lemma_field_is_at(d, "authenticated"@, 3, |v: JsonValue| v == JsonValue::Bool(token is Some));
    lemma_field_is_at(d, "token_expired"@, 6, |v: JsonValue| (match token { Some(t) => v == JsonValue::Bool(t.expires_at is Some && expiry_passed(t.expires_at->Some_0@, now)), None => v is Null }));
    lemma_field_is_at(d, "token_id"@, 7, |v: JsonValue| opt_int_json(v, match token { Some(t) => Some(t.id), None => None }));
    lemma_field_is_at(d, "usable"@, 8, |v: JsonValue| v == JsonValue::Bool(token is Some && account is Some && !(token->Some_0.expires_at is Some && expiry_passed(token->Some_0.expires_at->Some_0@, now))));
}

/// The human line of `auth status` says the token is usable exactly when a
/// token and its account are stored and the token has not expired, and says
/// no token was found exactly when none is stored.
pub proof fn law_status_line(token: Option<TokenRow>, account_present: bool, now: (int, int))
    ensures
        (status_line(token, account_present, now) == "Auth status: authenticated and token is usable."@)
            <==> (token is Some && account_present && !(token->Some_0.expires_at is Some && expiry_passed(
            token->Some_0.expires_at->Some_0@,
            now,
        ))),
        (status_line(token, account_present, now) == "Auth status: no token found."@) <==> token is None,
{
    reveal_strlit("Auth status: authenticated and token is usable.");
    reveal_strlit("Auth status: no token found.");
    reveal_strlit("Auth status: token is present but expired; run auth refresh or auth login.");
    let usable = "Auth status: authenticated and token is usable."@;
    let none = "Auth status: no token found."@;
    let expired = "Auth status: token is present but expired; run auth refresh or auth login."@;
    assert(usable.len() != none.len());
    assert(usable.len() != expired.len());
    assert(none.len() != expired.len());
}

/// What `auth status` reports for the latest token, the account it belongs
/// to (if it is stored) and the current instant.
pub fn status_output(token: &Option<TokenRow>, account: &Option<AccountRow>, now_secs: i64, now_nanos: u32) -> (r: CommandOutput)
    ensures
        r.command@ == "auth status"@,
        r.human@ == status_line(*token, account is Some, (now_secs as int, now_nanos as int)),
        status_data_ok(r.data, *token, *account, (now_secs as int, now_nanos as int)),
        field_is(r.data, "usable"@, |v: JsonValue| v == JsonValue::Bool(token is Some && account is Some && !(token->Some_0.expires_at is Some && expiry_passed(token->Some_0.expires_at->Some_0@, (now_secs as int, now_nanos as int))))),
        field_is(r.data, "authenticated"@, |v: JsonValue| v == JsonValue::Bool(token is Some)),
{
    let mut v: Vec<(String, JsonValue)> = Vec::new();
    let human;
    match token {
        Some(t) => {
            let expires_ref: Option<&str> = match &t.expires_at {
                Some(s) => Some(s.as_str()),
                None => None,
            };
            let expired = token_expired(expires_ref, now_secs, now_nanos);
            let usable = account.is_some() && !expired;
            v.push(entry("account_id", json_opt_int(Some(t.account_id))));
            match account {
                Some(a) => {
                    v.push(entry("account_name", json_opt_str(&a.name)));
                    v.push(entry("account_username", json_opt_str(&a.username)));
                },
                None => {
                    v.push(entry("account_name", JsonValue::Null));
                    v.push(entry("account_username", JsonValue::Null));
                },
            }
            v.push(entry("authenticated", JsonValue::Bool(true)));
            v.push(entry("expires_at", json_opt_str(&t.expires_at)));
            v.push(entry("token_created_at", json_str(t.created_at.as_str())));
            v.push(entry("token_expired", JsonValue::Bool(expired)));
            v.push(entry("token_id", json_opt_int(Some(t.id))));
            v.push(entry("usable", JsonValue::Bool(usable)));
            human = if usable {
                owned("Auth status: authenticated and token is usable.")
            } else {
                owned("Auth status: token is present but expired; run auth refresh or auth login.")
            };
        },
        None => {
            v.push(entry("account_id", JsonValue::Null));
            v.push(entry("account_name", JsonValue::Null));
            v.push(entry("account_username", JsonValue::Null));
            v.push(entry("authenticated", JsonValue::Bool(false)));
            v.push(entry("expires_at", JsonValue::Null));
            v.push(entry("token_created_at", JsonValue::Null));
            v.push(entry("token_expired", JsonValue::Null));
            v.push(entry("token_id", JsonValue::Null));
            v.push(entry("usable", JsonValue::Bool(false)));
            human = owned("Auth status: no token found.");
        },
    }
    let r = CommandOutput { command: owned("auth status"), human, data: JsonValue::Object(v) };
    proof {
        law_status_fields(r.data, *token, *account, (now_secs as int, now_nanos as int));
    }
    r
}

/// Logout removes the stored tokens only when confirmed.
pub fn ensure_logout_confirmed(args: &LogoutArgs) -> (r: Result<(), CliError>)
    ensures
        r is Ok <==> args.yes,
        r matches Err(e) ==> e.category == ErrorCategory::Validation && e.message@
            == "auth logout requires --yes"@,
{
    if !args.yes {
        return Err(CliError::new(ErrorCategory::Validation, "auth logout requires --yes"));
    }
    Ok(())
}

/// What a logout that removed `removed` token rows reports.
pub fn logout_output(removed: usize) -> (r: CommandOutput)
    ensures
        r.command@ == "auth logout"@,
        r.human@ == "Removed "@ + dec_nat(removed as nat) + " token row(s)."@,
        object_len(r.data) == 1,
        has_key(r.data, 0, "removed_token_rows"@) && int_json(field_value(r.data, 0), removed as int),
{
    let mut human = owned("Removed ");
    push_decimal_u64(&mut human, removed as u64);
    push_str(&mut human, " token row(s).");
    let mut v: Vec<(String, JsonValue)> = Vec::new();
    v.push(entry("removed_token_rows", json_usize(removed)));
    CommandOutput { command: owned("auth logout"), human, data: JsonValue::Object(v) }
}

/// Once a token's expiry has passed it stays passed: an expiry that has
/// passed at `earlier` has passed at every later instant.
pub proof fn law_expiry_stays_passed(expires_at: Seq<char>, earlier: (int, int), later: (int, int))
    requires
        not_after(earlier, later),
        expiry_passed(expires_at, earlier),
    ensures
        expiry_passed(expires_at, later),
{
}

/// A callback is accepted only when the provider reported no error, a code
/// is present and the state is the one that login sent; the code returned
/// is the first one in the query.
pub proof fn law_callback_needs_expected_state(pairs: Seq<(Seq<char>, Seq<char>)>, expected_state: Seq<char>)
    ensures
        callback_outcome(pairs, expected_state) is Ok <==> (query_value(pairs, "error"@) is None
            && query_value(pairs, "code"@) is Some && query_value(pairs, "state"@) == Some(
            expected_state,
        )),
        callback_outcome(pairs, expected_state) matches Ok(code) ==> query_value(pairs, "code"@)
            == Some(code),
{
}

} // verus!
