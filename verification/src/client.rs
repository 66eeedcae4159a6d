//! The Threads API: response shapes, request construction and the mapping
//! of failures to errors.  Sending requests is the caller's part.
use vstd::prelude::*;

use crate::error::{CliError, ErrorCategory};
use crate::text::{decimal_u64, dec_int, dec_nat, is_blank, owned, push_decimal_i64, push_str, trim_is_empty};

verus! {

pub struct HealthResult {
    pub base_url: String,
    pub api_version: String,
    pub http_ready: bool,
}

pub struct OAuthTokenResponse {
    pub access_token: String,
    pub token_type: Option<String>,
    pub expires_in: Option<i64>,
    pub refresh_token: Option<String>,
}

pub struct AccountIdentity {
    pub id: String,
    pub username: Option<String>,
    pub name: Option<String>,
}

pub struct CreateContainerRequest {
    pub text: String,
    pub media_type: String,
    pub reply_to_id: Option<String>,
    pub topic_tag: Option<String>,
    pub link_attachment: Option<String>,
}

pub struct CreateContainerResponse {
    pub id: String,
    pub link_attachment: Option<String>,
}

pub struct PublishContainerResponse {
    pub id: String,
}

pub struct PostDetails {
    pub id: String,
    pub text: Option<String>,
    pub permalink: Option<String>,
    pub timestamp: Option<String>,
    pub username: Option<String>,
    pub shortcode: Option<String>,
}

pub struct PostInsightsResponse {
    pub data: Vec<InsightMetric>,
}

pub struct InsightMetric {
    pub name: String,
    pub title: Option<String>,
    pub description: Option<String>,
    pub values: Vec<InsightValue>,
}

pub struct InsightValue {
    pub value: Option<i64>,
    pub end_time: Option<String>,
}

pub struct RepliesResponse {
    pub data: Vec<ReplyItem>,
    pub paging: Option<Paging>,
}

pub struct ReplyItem {
    pub id: String,
    pub text: Option<String>,
    pub username: Option<String>,
    pub timestamp: Option<String>,
    /// The user id of the reply's author, where the API reports it.
    pub owner_id: Option<String>,
}

pub struct Paging {
    pub cursors: Option<Cursors>,
    pub next: Option<String>,
}

pub struct Cursors {
    pub before: Option<String>,
    pub after: Option<String>,
}

pub struct KeywordSearchResponse {
    pub data: Vec<SearchResultItem>,
    pub paging: Option<Paging>,
}

pub struct SearchResultItem {
    pub id: String,
    pub username: Option<String>,
    pub text: Option<String>,
    pub timestamp: Option<String>,
    pub permalink: Option<String>,
    pub like_count: Option<i64>,
    pub reply_count: Option<i64>,
}

pub struct UserThreadsResponse {
    pub data: Vec<UserThreadItem>,
    pub paging: Option<Paging>,
}

pub struct UserThreadItem {
    pub id: String,
    pub text: Option<String>,
    pub permalink: Option<String>,
    pub timestamp: Option<String>,
    pub username: Option<String>,
}

pub struct UserRepliesResponse {
    pub data: Vec<UserReplyItem>,
    pub paging: Option<Paging>,
}

pub struct UserReplyItem {
    pub id: String,
    pub text: Option<String>,
    pub permalink: Option<String>,
    pub timestamp: Option<String>,
    pub username: Option<String>,
    pub reply_to_id: Option<String>,
}

// ---------------------------------------------------------------------------
// Failures
// ---------------------------------------------------------------------------

/// The error for a request that could not be sent or answered.
pub fn map_network_error(detail: &str, operation: &str) -> (r: CliError)
    ensures
        r.category == ErrorCategory::Network,
        r.message@ == operation@ + " failed: network error: "@ + detail@,
{
    let mut m = owned(operation);
    push_str(&mut m, " failed: network error: ");
    push_str(&mut m, detail);
    CliError { category: ErrorCategory::Network, message: m }
}

/// The category of a failed HTTP response: 401 and 403 are authentication
/// failures, 429 a rate limit, anything else an API error.
pub open spec fn status_category(status: u16) -> ErrorCategory {
    if status == 401 || status == 403 {
        ErrorCategory::Auth
    } else if status == 429 {
        ErrorCategory::RateLimit
    } else {
        ErrorCategory::Api
    }
}

/// A refused credential (401 or 403) is an authentication failure, 429 a
/// rate limit, and every other failure status an API error.
pub proof fn law_status_category(status: u16)
    ensures
        (status == 401 || status == 403) ==> status_category(status) == ErrorCategory::Auth,
        status == 429 ==> status_category(status) == ErrorCategory::RateLimit,
        !(status == 401 || status == 403 || status == 429) ==> status_category(status)
            == ErrorCategory::Api,
{
}

/// What a failed response says about itself, from its error payload: the
/// message (ignored when blank) and the code.
pub open spec fn api_error_detail(api_message: Option<Seq<char>>, api_code: Option<i64>) -> Seq<char> {
    let message = match api_message {
        Some(m) => if is_blank(m) { None } else { Some(m) },
        None => None,
    };
    match (message, api_code) {
        (Some(m), Some(c)) => m + " (code "@ + dec_int(c as int) + ")"@,
        (Some(m), None) => m,
        (None, Some(c)) => "API error code "@ + dec_int(c as int),
        (None, None) => "no API error payload"@,
    }
}

pub open spec fn opt_str_view(o: Option<&str>) -> Option<Seq<char>> {
    match o {
        Some(s) => Some(s@),
        None => None,
    }
}

/// The error for a response with a failure status; `api_message` and
/// `api_code` are the fields of the response's `error` payload, when it has
/// one.
pub fn map_api_error(status: u16, api_message: Option<&str>, api_code: Option<i64>, operation: &str) -> (r: CliError)
    ensures
        r.category == status_category(status),
        (status == 401 || status == 403) ==> r.category == ErrorCategory::Auth,
        status == 429 ==> r.category == ErrorCategory::RateLimit,
        !(status == 401 || status == 403 || status == 429) ==> r.category == ErrorCategory::Api,
        r.message@ == operation@ + " failed: HTTP "@ + dec_nat(status as nat) + ": "@ + api_error_detail(
            opt_str_view(api_message),
            api_code,
        ),
{
    proof {
        law_status_category(status);
    }
    let category = if status == 401 || status == 403 {
        ErrorCategory::Auth
    } else if status == 429 {
        ErrorCategory::RateLimit
    } else {
        ErrorCategory::Api
    };
    let message: Option<&str> = match api_message {
        Some(m) => if trim_is_empty(m) {
            None
        } else {
            Some(m)
        },
        None => None,
    };
    let mut detail = String::new();
    match (message, api_code) {
        (Some(m), Some(c)) => {
            push_str(&mut detail, m);
            push_str(&mut detail, " (code ");
            push_decimal_i64(&mut detail, c);
            push_str(&mut detail, ")");
        },
        (Some(m), None) => {
            push_str(&mut detail, m);
        },
        (None, Some(c)) => {
            push_str(&mut detail, "API error code ");
            push_decimal_i64(&mut detail, c);
        },
        (None, None) => {
            push_str(&mut detail, "no API error payload");
        },
    }
    assert(detail@ == api_error_detail(opt_str_view(api_message), api_code));
    let mut m = owned(operation);
    push_str(&mut m, " failed: HTTP ");
    let code_text = decimal_u64(status as u64);
    push_str(&mut m, code_text.as_str());
    push_str(&mut m, ": ");
    push_str(&mut m, detail.as_str());
    CliError { category, message: m }
}

/// The error for a response body that does not have the expected shape.
pub fn map_parse_error(detail: &str, operation: &str) -> (r: CliError)
    ensures
        r.category == ErrorCategory::Api,
        r.message@ == operation@ + " failed: response parse error: "@ + detail@,
{
    let mut m = owned(operation);
    push_str(&mut m, " failed: response parse error: ");
    push_str(&mut m, detail);
    CliError { category: ErrorCategory::Api, message: m }
}

// ---------------------------------------------------------------------------
// Requests
// ---------------------------------------------------------------------------

#[derive(Debug, Clone, Copy, PartialEq, Eq, Structural)]
pub enum HttpMethod {
    Get,
    Post,
}

/// A request to send: method, URL, query pairs, form body pairs (sent
/// form-encoded when not empty), and the name of the operation for errors.
pub struct HttpRequest {
    pub method: HttpMethod,
    pub url: String,
    pub query: Vec<(String, String)>,
    pub form: Vec<(String, String)>,
    pub operation: String,
}

pub open spec fn pairs_view(v: Seq<(String, String)>) -> Seq<(Seq<char>, Seq<char>)> {
    v.map_values(|p: (String, String)| (p.0@, p.1@))
}

/// `s` with every trailing `c` removed (`trim_end_matches`).
pub open spec fn strip_trailing(s: Seq<char>, c: char) -> Seq<char>
    decreases s.len(),
{
    if s.len() > 0 && s.last() == c {
        strip_trailing(s.drop_last(), c)
    } else {
        s
    }
}

/// `s` with every leading `c` removed (`trim_start_matches`).
pub open spec fn strip_leading(s: Seq<char>, c: char) -> Seq<char>
    decreases s.len(),
{
    if s.len() > 0 && s[0] == c {
        strip_leading(s.drop_first(), c)
    } else {
        s
    }
}

/// `<base>/<version>/<resource>`, with no doubled slash at the joins.
pub open spec fn versioned(base: Seq<char>, version: Seq<char>, resource: Seq<char>) -> Seq<char> {
    strip_trailing(base, '/') + "/"@ + strip_leading(version, '/') + "/"@ + strip_leading(resource, '/')
}

fn strip_trailing_exec(s: &str, c: char) -> (r: String)
    ensures
        r@ == strip_trailing(s@, c),
{
    let v = crate::text::chars_of(s);
    let mut j = v.len();
    assert(v@.subrange(0, j as int) =~= v@);
    while j > 0 && v[j - 1] == c
        invariant
            j <= v.len(),
            strip_trailing(v@, c) == strip_trailing(v@.subrange(0, j as int), c),
        decreases j,
    {
        assert(v@.subrange(0, j as int).drop_last() =~= v@.subrange(0, j - 1));
        j = j - 1;
    }
    crate::text::string_of_range(&v, 0, j)
}

fn strip_leading_exec(s: &str, c: char) -> (r: String)
    ensures
        r@ == strip_leading(s@, c),
{
    let v = crate::text::chars_of(s);
    let mut i: usize = 0;
    assert(v@.subrange(0, v.len() as int) =~= v@);
    while i < v.len() && v[i] == c
        invariant
            i <= v.len(),
            strip_leading(v@, c) == strip_leading(v@.subrange(i as int, v.len() as int), c),
        decreases v.len() - i,
    {
        assert(v@.subrange(i as int, v.len() as int).drop_first() =~= v@.subrange(i + 1, v.len() as int));
        i = i + 1;
    }
    crate::text::string_of_range(&v, i, v.len())
}

/// Joins the API base URL, version and a resource path.
pub fn versioned_path(base_url: &str, api_version: &str, resource: &str) -> (r: String)
    ensures
        r@ == versioned(base_url@, api_version@, resource@),
{
    let mut out = strip_trailing_exec(base_url, '/');
    push_str(&mut out, "/");
    let v = strip_leading_exec(api_version, '/');
    push_str(&mut out, v.as_str());
    push_str(&mut out, "/");
    let res = strip_leading_exec(resource, '/');
    push_str(&mut out, res.as_str());
    out
}

fn pair(k: &str, v: &str) -> (r: (String, String))
    ensures
        r.0@ == k@,
        r.1@ == v@,
{
    (owned(k), owned(v))
}

/// The form fields of a container request, in declaration order; absent
/// optional fields are left out.
pub open spec fn container_form_spec(p: CreateContainerRequest) -> Seq<(Seq<char>, Seq<char>)> {
    let base = seq![("text"@, p.text@), ("media_type"@, p.media_type@)];
    let a = match p.reply_to_id {
        Some(x) => base.push(("reply_to_id"@, x@)),
        None => base,
    };
    let b = match p.topic_tag {
        Some(x) => a.push(("topic_tag"@, x@)),
        None => a,
    };
    match p.link_attachment {
        Some(x) => b.push(("link_attachment"@, x@)),
        None => b,
    }
}

pub fn container_form(p: &CreateContainerRequest) -> (r: Vec<(String, String)>)
    ensures
        pairs_view(r@) == container_form_spec(*p),
{
    let mut v: Vec<(String, String)> = Vec::new();
    v.push(pair("text", p.text.as_str()));
    v.push(pair("media_type", p.media_type.as_str()));
    let ghost s0 = pairs_view(v@);
    assert(s0 =~= seq![("text"@, p.text@), ("media_type"@, p.media_type@)]);
    match &p.reply_to_id {
        Some(x) => { v.push(pair("reply_to_id", x.as_str())); },
        None => {},
    }
    let ghost s1 = pairs_view(v@);
    match &p.topic_tag {
        Some(x) => { v.push(pair("topic_tag", x.as_str())); },
        None => {},
    }
    let ghost s2 = pairs_view(v@);
    match &p.link_attachment {
        Some(x) => { v.push(pair("link_attachment", x.as_str())); },
        None => {},
    }
    assert(pairs_view(v@) =~= container_form_spec(*p));
    v
}

/// The client's view of the API: where it is and who calls it.
pub struct ThreadsClient {
    pub base_url: String,
    pub api_version: String,
    pub user_id: String,
    pub app_id: String,
    pub app_secret: String,
}

impl ThreadsClient {
    /// A client from the configuration and the app secret.
    pub fn from_config(config: &crate::config::AppConfig, app_secret: String) -> (r: ThreadsClient)
        ensures
            r.base_url@ == config.threads.base_url@,
            r.api_version@ == config.threads.version@,
            r.user_id@ == config.threads.user_id@,
            r.app_id@ == config.threads.app_id@,
            r.app_secret@ == app_secret@,
    {
        ThreadsClient {
            base_url: config.threads.base_url.clone(),
            api_version: config.threads.version.clone(),
            user_id: config.threads.user_id.clone(),
            app_id: config.threads.app_id.clone(),
            app_secret,
        }
    }

    pub fn health(&self) -> (r: HealthResult)
        ensures
            r.base_url@ == self.base_url@,
            r.api_version@ == self.api_version@,
            r.http_ready,
    {
        HealthResult { base_url: self.base_url.clone(), api_version: self.api_version.clone(), http_ready: true }
    }

    /// Creates a publish container; the payload travels as a form-encoded
    /// body.
    pub fn create_publish_container(&self, access_token: &str, payload: &CreateContainerRequest) -> (r: HttpRequest)
        ensures
            r.method == HttpMethod::Post,
            r.url@ == versioned(self.base_url@, self.api_version@, "/"@ + self.user_id@ + "/threads"@),
            pairs_view(r.query@) == seq![("access_token"@, access_token@)],
            pairs_view(r.form@) == container_form_spec(*payload),
            r.operation@ == "create publish container"@,
    {
        let mut resource = owned("/");
        push_str(&mut resource, self.user_id.as_str());
        push_str(&mut resource, "/threads");
        let url = versioned_path(self.base_url.as_str(), self.api_version.as_str(), resource.as_str());
        let mut qp: Vec<(String, String)> = Vec::new();
        qp.push(pair("access_token", access_token));
        assert(pairs_view(qp@) =~= seq![("access_token"@, access_token@)]);
        HttpRequest { method: HttpMethod::Post, url, query: qp, form: container_form(payload), operation: owned("create publish container") }
    }

    /// Exchanges an authorization code for a token (form-encoded POST).
    pub fn exchange_oauth_token(&self, code: &str, redirect_uri: &str) -> (r: HttpRequest)
        ensures
            r.method == HttpMethod::Post,
            r.url@ == versioned(self.base_url@, self.api_version@, "/oauth/access_token"@),
            pairs_view(r.query@) == Seq::<(Seq<char>, Seq<char>)>::empty(),
            pairs_view(r.form@) == seq![("client_id"@, self.app_id@), ("client_secret"@, self.app_secret@), ("grant_type"@, "authorization_code"@), ("redirect_uri"@, redirect_uri@), ("code"@, code@)],
            r.operation@ == "oauth token exchange"@,
    {
        let resource = owned("/oauth/access_token");
        let url = versioned_path(self.base_url.as_str(), self.api_version.as_str(), resource.as_str());
        let mut qp: Vec<(String, String)> = Vec::new();
        assert(pairs_view(qp@) =~= Seq::<(Seq<char>, Seq<char>)>::empty());
        let mut form: Vec<(String, String)> = Vec::new();
        form.push(pair("client_id", self.app_id.as_str()));
        form.push(pair("client_secret", self.app_secret.as_str()));
        form.push(pair("grant_type", "authorization_code"));
        form.push(pair("redirect_uri", redirect_uri));
        form.push(pair("code", code));
        assert(pairs_view(form@) =~= seq![("client_id"@, self.app_id@), ("client_secret"@, self.app_secret@), ("grant_type"@, "authorization_code"@), ("redirect_uri"@, redirect_uri@), ("code"@, code@)]);
        
        HttpRequest { method: HttpMethod::Post, url, query: qp, form, operation: owned("oauth token exchange") }
    }

    /// Refreshes a token (form-encoded POST).
    pub fn refresh_oauth_token(&self, refresh_token: &str) -> (r: HttpRequest)
        ensures
            r.method == HttpMethod::Post,
            r.url@ == versioned(self.base_url@, self.api_version@, "/oauth/access_token"@),
            pairs_view(r.query@) == Seq::<(Seq<char>, Seq<char>)>::empty(),
            pairs_view(r.form@) == seq![("client_id"@, self.app_id@), ("client_secret"@, self.app_secret@), ("grant_type"@, "refresh_token"@), ("refresh_token"@, refresh_token@)],
            r.operation@ == "oauth token refresh"@,
    {
        let resource = owned("/oauth/access_token");
        let url = versioned_path(self.base_url.as_str(), self.api_version.as_str(), resource.as_str());
        let mut qp: Vec<(String, String)> = Vec::new();
        assert(pairs_view(qp@) =~= Seq::<(Seq<char>, Seq<char>)>::empty());
        let mut form: Vec<(String, String)> = Vec::new();
        form.push(pair("client_id", self.app_id.as_str()));
        form.push(pair("client_secret", self.app_secret.as_str()));
        form.push(pair("grant_type", "refresh_token"));
        form.push(pair("refresh_token", refresh_token));
        assert(pairs_view(form@) =~= seq![("client_id"@, self.app_id@), ("client_secret"@, self.app_secret@), ("grant_type"@, "refresh_token"@), ("refresh_token"@, refresh_token@)]);
        
        HttpRequest { method: HttpMethod::Post, url, query: qp, form, operation: owned("oauth token refresh") }
    }

    /// Exchanges a short-lived token for a long-lived one.
    pub fn exchange_long_lived_token(&self, access_token: &str) -> (r: HttpRequest)
        ensures
            r.method == HttpMethod::Get,
            r.url@ == versioned(self.base_url@, self.api_version@, "/access_token"@),
            pairs_view(r.query@) == seq![("grant_type"@, "th_exchange_token"@), ("client_secret"@, self.app_secret@), ("access_token"@, access_token@)],
            pairs_view(r.form@) == Seq::<(Seq<char>, Seq<char>)>::empty(),
            r.operation@ == "oauth long-lived token exchange"@,
    {
        let resource = owned("/access_token");
        let url = versioned_path(self.base_url.as_str(), self.api_version.as_str(), resource.as_str());
        let mut qp: Vec<(String, String)> = Vec::new();
        qp.push(pair("grant_type", "th_exchange_token"));
        qp.push(pair("client_secret", self.app_secret.as_str()));
        qp.push(pair("access_token", access_token));
        assert(pairs_view(qp@) =~= seq![("grant_type"@, "th_exchange_token"@), ("client_secret"@, self.app_secret@), ("access_token"@, access_token@)]);
        let mut form: Vec<(String, String)> = Vec::new();
        assert(pairs_view(form@) =~= Seq::<(Seq<char>, Seq<char>)>::empty());
        
        HttpRequest { method: HttpMethod::Get, url, query: qp, form, operation: owned("oauth long-lived token exchange") }
    }

    /// The identity of the account that owns the token.
    pub fn fetch_account_identity(&self, access_token: &str) -> (r: HttpRequest)
        ensures
            r.method == HttpMethod::Get,
            r.url@ == versioned(self.base_url@, self.api_version@, "/me"@),
            pairs_view(r.query@) == seq![("fields"@, "id,username,name"@), ("access_token"@, access_token@)],
            pairs_view(r.form@) == Seq::<(Seq<char>, Seq<char>)>::empty(),
            r.operation@ == "account identity fetch"@,
    {
        let resource = owned("/me");
        let url = versioned_path(self.base_url.as_str(), self.api_version.as_str(), resource.as_str());
        let mut qp: Vec<(String, String)> = Vec::new();
        qp.push(pair("fields", "id,username,name"));
        qp.push(pair("access_token", access_token));
        assert(pairs_view(qp@) =~= seq![("fields"@, "id,username,name"@), ("access_token"@, access_token@)]);
        let mut form: Vec<(String, String)> = Vec::new();
        assert(pairs_view(form@) =~= Seq::<(Seq<char>, Seq<char>)>::empty());
        
        HttpRequest { method: HttpMethod::Get, url, query: qp, form, operation: owned("account identity fetch") }
    }

    /// Publishes a created container.
    pub fn publish_container(&self, access_token: &str, creation_id: &str) -> (r: HttpRequest)
        ensures
            r.method == HttpMethod::Post,
            r.url@ == versioned(self.base_url@, self.api_version@, "/"@ + self.user_id@ + "/threads_publish"@),
            pairs_view(r.query@) == seq![("access_token"@, access_token@), ("creation_id"@, creation_id@)],
            pairs_view(r.form@) == Seq::<(Seq<char>, Seq<char>)>::empty(),
            r.operation@ == "publish container"@,
    {
        let mut resource = owned("/");
        push_str(&mut resource, self.user_id.as_str());
        push_str(&mut resource, "/threads_publish");
        let url = versioned_path(self.base_url.as_str(), self.api_version.as_str(), resource.as_str());
        let mut qp: Vec<(String, String)> = Vec::new();
        qp.push(pair("access_token", access_token));
        qp.push(pair("creation_id", creation_id));
        assert(pairs_view(qp@) =~= seq![("access_token"@, access_token@), ("creation_id"@, creation_id@)]);
        let mut form: Vec<(String, String)> = Vec::new();
        assert(pairs_view(form@) =~= Seq::<(Seq<char>, Seq<char>)>::empty());
        
        HttpRequest { method: HttpMethod::Post, url, query: qp, form, operation: owned("publish container") }
    }

    /// The details of a post.
    pub fn fetch_post_details(&self, access_token: &str, post_id: &str) -> (r: HttpRequest)
        ensures
            r.method == HttpMethod::Get,
            r.url@ == versioned(self.base_url@, self.api_version@, "/"@ + post_id@),
            pairs_view(r.query@) == seq![("fields"@, "id,text,permalink,timestamp,username,shortcode"@), ("access_token"@, access_token@)],
            pairs_view(r.form@) == Seq::<(Seq<char>, Seq<char>)>::empty(),
            r.operation@ == "post details fetch"@,
    {
        let mut resource = owned("/");
        push_str(&mut resource, post_id);
        let url = versioned_path(self.base_url.as_str(), self.api_version.as_str(), resource.as_str());
        let mut qp: Vec<(String, String)> = Vec::new();
        qp.push(pair("fields", "id,text,permalink,timestamp,username,shortcode"));
        qp.push(pair("access_token", access_token));
        assert(pairs_view(qp@) =~= seq![("fields"@, "id,text,permalink,timestamp,username,shortcode"@), ("access_token"@, access_token@)]);
        let mut form: Vec<(String, String)> = Vec::new();
        assert(pairs_view(form@) =~= Seq::<(Seq<char>, Seq<char>)>::empty());
        
        HttpRequest { method: HttpMethod::Get, url, query: qp, form, operation: owned("post details fetch") }
    }

    /// The details of a post with the reduced field set, tried when the full
    /// set is refused.
    pub fn fetch_post_details_reduced(&self, access_token: &str, post_id: &str) -> (r: HttpRequest)
        ensures
            r.method == HttpMethod::Get,
            r.url@ == versioned(self.base_url@, self.api_version@, "/"@ + post_id@),
            pairs_view(r.query@) == seq![("fields"@, "id,text,permalink,timestamp"@), ("access_token"@, access_token@)],
            pairs_view(r.form@) == Seq::<(Seq<char>, Seq<char>)>::empty(),
            r.operation@ == "post details fetch"@,
    {
        let mut resource = owned("/");
        push_str(&mut resource, post_id);
        let url = versioned_path(self.base_url.as_str(), self.api_version.as_str(), resource.as_str());
        let mut qp: Vec<(String, String)> = Vec::new();
        qp.push(pair("fields", "id,text,permalink,timestamp"));
        qp.push(pair("access_token", access_token));
        assert(pairs_view(qp@) =~= seq![("fields"@, "id,text,permalink,timestamp"@), ("access_token"@, access_token@)]);
        let mut form: Vec<(String, String)> = Vec::new();
        assert(pairs_view(form@) =~= Seq::<(Seq<char>, Seq<char>)>::empty());
        HttpRequest { method: HttpMethod::Get, url, query: qp, form, operation: owned("post details fetch") }
    }

    /// The metrics of a post.
    pub fn fetch_post_insights(&self, access_token: &str, post_id: &str) -> (r: HttpRequest)
        ensures
            r.method == HttpMethod::Get,
            r.url@ == versioned(self.base_url@, self.api_version@, "/"@ + post_id@ + "/insights"@),
            pairs_view(r.query@) == seq![("metric"@, "views,likes,replies,reposts,quotes,shares"@), ("access_token"@, access_token@)],
            pairs_view(r.form@) == Seq::<(Seq<char>, Seq<char>)>::empty(),
            r.operation@ == "post insights fetch"@,
    {
        let mut resource = owned("/");
        push_str(&mut resource, post_id);
        push_str(&mut resource, "/insights");
        let url = versioned_path(self.base_url.as_str(), self.api_version.as_str(), resource.as_str());
        let mut qp: Vec<(String, String)> = Vec::new();
        qp.push(pair("metric", "views,likes,replies,reposts,quotes,shares"));
        qp.push(pair("access_token", access_token));
        assert(pairs_view(qp@) =~= seq![("metric"@, "views,likes,replies,reposts,quotes,shares"@), ("access_token"@, access_token@)]);
        let mut form: Vec<(String, String)> = Vec::new();
        assert(pairs_view(form@) =~= Seq::<(Seq<char>, Seq<char>)>::empty());
        
        HttpRequest { method: HttpMethod::Get, url, query: qp, form, operation: owned("post insights fetch") }
    }

    /// Public posts matching a query.
    pub fn keyword_search(&self, access_token: &str, query: &str, search_type: &str) -> (r: HttpRequest)
        ensures
            r.method == HttpMethod::Get,
            r.url@ == versioned(self.base_url@, self.api_version@, "/keyword_search"@),
            pairs_view(r.query@) == seq![("q"@, query@), ("search_type"@, search_type@), ("fields"@, "id,username,text,timestamp,permalink,like_count,reply_count"@), ("access_token"@, access_token@)],
            pairs_view(r.form@) == Seq::<(Seq<char>, Seq<char>)>::empty(),
            r.operation@ == "keyword search"@,
    {
        let resource = owned("/keyword_search");
        let url = versioned_path(self.base_url.as_str(), self.api_version.as_str(), resource.as_str());
        let mut qp: Vec<(String, String)> = Vec::new();
        qp.push(pair("q", query));
        qp.push(pair("search_type", search_type));
        qp.push(pair("fields", "id,username,text,timestamp,permalink,like_count,reply_count"));
        qp.push(pair("access_token", access_token));
        assert(pairs_view(qp@) =~= seq![("q"@, query@), ("search_type"@, search_type@), ("fields"@, "id,username,text,timestamp,permalink,like_count,reply_count"@), ("access_token"@, access_token@)]);
        let mut form: Vec<(String, String)> = Vec::new();
        assert(pairs_view(form@) =~= Seq::<(Seq<char>, Seq<char>)>::empty());
        
        HttpRequest { method: HttpMethod::Get, url, query: qp, form, operation: owned("keyword search") }
    }

    /// A page of replies to a post.
    pub fn fetch_replies(&self, access_token: &str, post_id: &str, limit: Option<u32>, after: Option<&str>) -> (r: HttpRequest)
        ensures
            r.method == HttpMethod::Get,
            r.url@ == versioned(self.base_url@, self.api_version@, "/"@ + post_id@ + "/replies"@),
            pairs_view(r.query@) == seq![("fields"@, "id,text,username,timestamp"@), ("access_token"@, access_token@)] + paging_pairs(limit, opt_str_view(after)),
            pairs_view(r.form@) == Seq::<(Seq<char>, Seq<char>)>::empty(),
            r.operation@ == "post replies fetch"@,
    {
        let mut resource = owned("/");
        push_str(&mut resource, post_id);
        push_str(&mut resource, "/replies");
        let url = versioned_path(self.base_url.as_str(), self.api_version.as_str(), resource.as_str());
        let mut qp: Vec<(String, String)> = Vec::new();
        qp.push(pair("fields", "id,text,username,timestamp"));
        qp.push(pair("access_token", access_token));
        
        let ghost fixed = pairs_view(qp@);
        push_paging(&mut qp, limit, after);
        let mut form: Vec<(String, String)> = Vec::new();
        assert(pairs_view(form@) =~= Seq::<(Seq<char>, Seq<char>)>::empty());
        assert(fixed =~= seq![("fields"@, "id,text,username,timestamp"@), ("access_token"@, access_token@)]);
        HttpRequest { method: HttpMethod::Get, url, query: qp, form, operation: owned("post replies fetch") }
    }

    /// A page of the account's own posts.
    pub fn fetch_own_threads(&self, access_token: &str, limit: Option<u32>, after: Option<&str>) -> (r: HttpRequest)
        ensures
            r.method == HttpMethod::Get,
            r.url@ == versioned(self.base_url@, self.api_version@, "/me/threads"@),
            pairs_view(r.query@) == seq![("fields"@, "id,text,permalink,timestamp,username"@), ("access_token"@, access_token@)] + paging_pairs(limit, opt_str_view(after)),
            pairs_view(r.form@) == Seq::<(Seq<char>, Seq<char>)>::empty(),
            r.operation@ == "own threads fetch"@,
    {
        let resource = owned("/me/threads");
        let url = versioned_path(self.base_url.as_str(), self.api_version.as_str(), resource.as_str());
        let mut qp: Vec<(String, String)> = Vec::new();
        qp.push(pair("fields", "id,text,permalink,timestamp,username"));
        qp.push(pair("access_token", access_token));
        
        let ghost fixed = pairs_view(qp@);
        push_paging(&mut qp, limit, after);
        let mut form: Vec<(String, String)> = Vec::new();
        assert(pairs_view(form@) =~= Seq::<(Seq<char>, Seq<char>)>::empty());
        assert(fixed =~= seq![("fields"@, "id,text,permalink,timestamp,username"@), ("access_token"@, access_token@)]);
        HttpRequest { method: HttpMethod::Get, url, query: qp, form, operation: owned("own threads fetch") }
    }

    /// A page of the account's own replies.
    pub fn fetch_own_replies(&self, access_token: &str, limit: Option<u32>, after: Option<&str>) -> (r: HttpRequest)
        ensures
            r.method == HttpMethod::Get,
            r.url@ == versioned(self.base_url@, self.api_version@, "/me/replies"@),
            pairs_view(r.query@) == seq![("fields"@, "id,text,permalink,timestamp,username,reply_to_id"@), ("access_token"@, access_token@)] + paging_pairs(limit, opt_str_view(after)),
            pairs_view(r.form@) == Seq::<(Seq<char>, Seq<char>)>::empty(),
            r.operation@ == "own replies fetch"@,
    {
        let resource = owned("/me/replies");
        let url = versioned_path(self.base_url.as_str(), self.api_version.as_str(), resource.as_str());
        let mut qp: Vec<(String, String)> = Vec::new();
        qp.push(pair("fields", "id,text,permalink,timestamp,username,reply_to_id"));
        qp.push(pair("access_token", access_token));
        
        let ghost fixed = pairs_view(qp@);
        push_paging(&mut qp, limit, after);
        let mut form: Vec<(String, String)> = Vec::new();
        assert(pairs_view(form@) =~= Seq::<(Seq<char>, Seq<char>)>::empty());
        assert(fixed =~= seq![("fields"@, "id,text,permalink,timestamp,username,reply_to_id"@), ("access_token"@, access_token@)]);
        HttpRequest { method: HttpMethod::Get, url, query: qp, form, operation: owned("own replies fetch") }
    }
}

/// The paging pairs of a list request: `limit` and `after`, each only when
/// given.
pub open spec fn paging_pairs(limit: Option<u32>, after: Option<Seq<char>>) -> Seq<(Seq<char>, Seq<char>)> {
    let a = match limit {
        Some(l) => seq![("limit"@, dec_nat(l as nat))],
        None => Seq::empty(),
    };
    match after {
        Some(x) => a.push(("after"@, x)),
        None => a,
    }
}

fn push_paging(query: &mut Vec<(String, String)>, limit: Option<u32>, after: Option<&str>)
    ensures
        pairs_view(final(query)@) == pairs_view(old(query)@) + paging_pairs(limit, opt_str_view(after)),
{
    let ghost start = pairs_view(query@);
    match limit {
        Some(l) => {
            query.push((owned("limit"), decimal_u64(l as u64)));
        },
        None => {},
    }
    let ghost mid = pairs_view(query@);
    match after {
        Some(a) => {
            query.push(pair("after", a));
        },
        None => {},
    }
    assert(pairs_view(query@) =~= start + paging_pairs(limit, opt_str_view(after)));
}

} // verus!
