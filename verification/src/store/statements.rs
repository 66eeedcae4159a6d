//! The SQL statements behind each store operation.  Executing them is the
//! caller's part; the statement text and its parameters are fixed here.
use vstd::prelude::*;

use crate::store::{PersistPostInput, PublishAttemptInput, Store};
use crate::store::migrations::SCHEMA_SQL;
use crate::text::owned;

verus! {

pub const LIST_ATTEMPTS_SQL: &'static str = "SELECT id, attempt_uuid, kind, status, threads_post_id, error_code, error_message, created_at FROM publish_attempts ORDER BY id DESC LIMIT ?1";

pub const LIST_POSTS_SQL: &'static str = "SELECT id, threads_post_id, parent_threads_post_id, post_url, text, topic_tag, source_url, source_link_mode, kind, published_at, created_at FROM posts ORDER BY id DESC LIMIT ?1";

pub const POST_BY_LOCAL_ID_SQL: &'static str = "SELECT id, threads_post_id, parent_threads_post_id, post_url, text, topic_tag, source_url, source_link_mode, kind, published_at, created_at FROM posts WHERE id = ?1";

pub const POST_BY_THREADS_ID_SQL: &'static str = "SELECT id, threads_post_id, parent_threads_post_id, post_url, text, topic_tag, source_url, source_link_mode, kind, published_at, created_at FROM posts WHERE threads_post_id = ?1";

pub const POSTS_BY_PARENT_SQL: &'static str = "SELECT id, threads_post_id, parent_threads_post_id, post_url, text, topic_tag, source_url, source_link_mode, kind, published_at, created_at FROM posts WHERE parent_threads_post_id = ?1 ORDER BY id DESC LIMIT ?2";

pub const LATEST_TOKEN_SQL: &'static str = "SELECT id, account_id, access_token, refresh_token, expires_at, raw_json, created_at FROM tokens ORDER BY id DESC LIMIT 1";

pub const ACCOUNT_BY_ID_SQL: &'static str = "SELECT id, threads_user_id, username, name, created_at FROM accounts WHERE id = ?1";

pub const UPSERT_ACCOUNT_SQL: &'static str = "INSERT INTO accounts (threads_user_id, username, name) VALUES (?1, ?2, ?3) ON CONFLICT(threads_user_id) DO UPDATE SET username=excluded.username, name=excluded.name, updated_at=CURRENT_TIMESTAMP";

pub const ACCOUNT_ID_SQL: &'static str = "SELECT id FROM accounts WHERE threads_user_id = ?1";

pub const INSERT_TOKEN_SQL: &'static str = "INSERT INTO tokens (account_id, access_token, refresh_token, issued_at, expires_at, raw_json) VALUES (?1, ?2, ?3, ?4, ?5, ?6)";

pub const LATEST_ACCESS_TOKEN_SQL: &'static str = "SELECT access_token FROM tokens ORDER BY id DESC LIMIT 1";

pub const DELETE_TOKENS_SQL: &'static str = "DELETE FROM tokens";

pub const LATEST_INSIGHT_SQL: &'static str = "SELECT threads_post_id, fetched_at, views, likes, replies, reposts, quotes, shares FROM insight_snapshots WHERE threads_post_id = ?1 ORDER BY id DESC LIMIT 1";

pub const LATEST_REPLIES_SQL: &'static str = "SELECT threads_reply_id, parent_threads_post_id, author_username, text, posted_at, created_at FROM replies WHERE parent_threads_post_id = ?1 ORDER BY id DESC LIMIT ?2";

pub const INSERT_INSIGHT_SQL: &'static str = "INSERT INTO insight_snapshots (threads_post_id, views, likes, replies, reposts, quotes, shares, raw_json) VALUES (?1, ?2, ?3, ?4, ?5, ?6, ?7, ?8)";

pub const UPSERT_REPLY_SQL: &'static str = "INSERT INTO replies (threads_reply_id, parent_threads_post_id, author_username, text, posted_at, raw_json) VALUES (?1, ?2, ?3, ?4, ?5, ?6) ON CONFLICT(threads_reply_id) DO UPDATE SET parent_threads_post_id=excluded.parent_threads_post_id, author_username=excluded.author_username, text=excluded.text, posted_at=excluded.posted_at, raw_json=excluded.raw_json";

pub const REPLY_FETCH_STATE_SQL: &'static str = "SELECT threads_post_id, next_cursor, last_fetched_at FROM reply_fetch_state WHERE threads_post_id = ?1";

pub const UPSERT_REPLY_FETCH_STATE_SQL: &'static str = "INSERT INTO reply_fetch_state (threads_post_id, next_cursor, raw_json) VALUES (?1, ?2, ?3) ON CONFLICT(threads_post_id) DO UPDATE SET next_cursor=excluded.next_cursor, last_fetched_at=CURRENT_TIMESTAMP, raw_json=excluded.raw_json";

pub const CREATE_ATTEMPT_SQL: &'static str = "INSERT INTO publish_attempts (attempt_uuid, kind, text, reply_to_id, topic_tag, source_url, source_link_mode, status, request_json) VALUES (?1, ?2, ?3, ?4, ?5, ?6, ?7, 'started', ?8)";

pub const MARK_AMBIGUOUS_SQL: &'static str = "UPDATE publish_attempts SET status='ambiguous', error_code=?2, error_message=?3, response_json=?4, updated_at=CURRENT_TIMESTAMP WHERE id=?1";

pub const MARK_FAILED_SQL: &'static str = "UPDATE publish_attempts SET status='failed', error_code=?2, error_message=?3, updated_at=CURRENT_TIMESTAMP WHERE id=?1";

pub const MARK_FAILED_WITH_RESPONSE_SQL: &'static str = "UPDATE publish_attempts SET status='failed', error_code=?2, error_message=?3, response_json=?4, updated_at=CURRENT_TIMESTAMP WHERE id=?1";

pub const MARK_PUBLISHED_SQL: &'static str = "UPDATE publish_attempts SET status='published', threads_post_id=?2, response_json=?3, updated_at=CURRENT_TIMESTAMP WHERE id=?1";

pub const PERSIST_POST_SQL: &'static str = "INSERT INTO posts (threads_post_id, parent_threads_post_id, post_url, text, topic_tag, source_url, source_link_mode, kind, published_at, raw_json) VALUES (?1, ?2, ?3, ?4, ?5, ?6, ?7, ?8, ?9, ?10)";

pub const DELETE_SEARCH_SQL: &'static str = "DELETE FROM search_results WHERE query = ?1 AND search_type = ?2";

pub const INSERT_SEARCH_SQL: &'static str = "INSERT INTO search_results (query, search_type, threads_post_id, username, text, permalink, timestamp, like_count, reply_count, raw_json) VALUES (?1, ?2, ?3, ?4, ?5, ?6, ?7, ?8, ?9, ?10)";

pub const CACHED_SEARCH_SQL: &'static str = "SELECT threads_post_id, username, text, permalink, timestamp, like_count, reply_count, fetched_at FROM search_results WHERE query = ?1 AND search_type = ?2 ORDER BY id ASC LIMIT ?3";

pub const UPSERT_OWN_THREAD_SQL: &'static str = "INSERT INTO own_threads (threads_post_id, text, permalink, timestamp, username, raw_json) VALUES (?1, ?2, ?3, ?4, ?5, ?6) ON CONFLICT(threads_post_id) DO UPDATE SET text=excluded.text, permalink=excluded.permalink, timestamp=excluded.timestamp, username=excluded.username, raw_json=excluded.raw_json, fetched_at=CURRENT_TIMESTAMP";

pub const LIST_OWN_THREADS_SQL: &'static str = "SELECT threads_post_id, text, permalink, timestamp, username, fetched_at FROM own_threads ORDER BY id DESC LIMIT ?1";

pub const UPSERT_OWN_REPLY_SQL: &'static str = "INSERT INTO own_replies (threads_post_id, reply_to_id, text, permalink, timestamp, username, raw_json) VALUES (?1, ?2, ?3, ?4, ?5, ?6, ?7) ON CONFLICT(threads_post_id) DO UPDATE SET reply_to_id=excluded.reply_to_id, text=excluded.text, permalink=excluded.permalink, timestamp=excluded.timestamp, username=excluded.username, raw_json=excluded.raw_json, fetched_at=CURRENT_TIMESTAMP";

pub const LIST_OWN_REPLIES_SQL: &'static str = "SELECT threads_post_id, reply_to_id, text, permalink, timestamp, username, fetched_at FROM own_replies ORDER BY id DESC LIMIT ?1";

/// A parameter of a statement.
pub enum SqlValue {
    Null,
    Integer(i64),
    Text(String),
}

/// The value of a parameter.
pub enum SqlParam {
    Null,
    Integer(int),
    Text(Seq<char>),
}

impl View for SqlValue {
    type V = SqlParam;

    open spec fn view(&self) -> SqlParam {
        match self {
            SqlValue::Null => SqlParam::Null,
            SqlValue::Integer(i) => SqlParam::Integer(*i as int),
            SqlValue::Text(s) => SqlParam::Text(s@),
        }
    }
}

/// A statement and its positional parameters (`?1`, `?2`, ...).
pub struct Statement {
    pub sql: String,
    pub params: Vec<SqlValue>,
}

pub open spec fn params_view(v: Seq<SqlValue>) -> Seq<SqlParam> {
    v.map_values(|x: SqlValue| x@)
}

pub open spec fn opt_view(o: Option<String>) -> Option<Seq<char>> {
    match o {
        Some(s) => Some(s@),
        None => None,
    }
}

pub open spec fn opt_str_view(o: Option<&str>) -> Option<Seq<char>> {
    match o {
        Some(s) => Some(s@),
        None => None,
    }
}

pub open spec fn opt_text_param(o: Option<&str>) -> SqlParam {
    match o {
        Some(s) => SqlParam::Text(s@),
        None => SqlParam::Null,
    }
}

pub open spec fn opt_text_param_owned(o: Option<String>) -> SqlParam {
    match o {
        Some(s) => SqlParam::Text(s@),
        None => SqlParam::Null,
    }
}

pub open spec fn opt_param(o: Option<Seq<char>>) -> SqlParam {
    match o {
        Some(s) => SqlParam::Text(s),
        None => SqlParam::Null,
    }
}

pub open spec fn opt_int_param(o: Option<i64>) -> SqlParam {
    match o {
        Some(i) => SqlParam::Integer(i as int),
        None => SqlParam::Null,
    }
}

pub fn text_value(s: &str) -> (r: SqlValue)
    ensures
        r@ == SqlParam::Text(s@),
{
    SqlValue::Text(owned(s))
}

pub fn opt_text_value(o: Option<&str>) -> (r: SqlValue)
    ensures
        r@ == opt_text_param(o),
{
    match o {
        Some(s) => SqlValue::Text(owned(s)),
        None => SqlValue::Null,
    }
}

pub fn opt_string_value(o: &Option<String>) -> (r: SqlValue)
    ensures
        r@ == opt_text_param_owned(*o),
{
    match o {
        Some(s) => SqlValue::Text(s.clone()),
        None => SqlValue::Null,
    }
}

pub fn opt_int_value(o: Option<i64>) -> (r: SqlValue)
    ensures
        r@ == opt_int_param(o),
{
    match o {
        Some(i) => SqlValue::Integer(i),
        None => SqlValue::Null,
    }
}

impl Store {
    /// The schema, applied as one batch.
    pub fn run_migrations(&self) -> (r: Statement)
        ensures
            r.sql@ == SCHEMA_SQL@,
            r.params@.len() == 0,
    {
        Statement { sql: owned(SCHEMA_SQL), params: Vec::new() }
    }

    /// The most recent publish attempts first, at most `limit` of them.
    pub fn list_attempts(&self, limit: usize) -> (r: Statement)
        ensures
            r.sql@ == LIST_ATTEMPTS_SQL@,
            params_view(r.params@) == seq![SqlParam::Integer((limit as i64) as int)],
    {
        let mut params: Vec<SqlValue> = Vec::new();
        params.push(SqlValue::Integer(limit as i64));
        let r = Statement { sql: owned(LIST_ATTEMPTS_SQL), params };
        assert(params_view(r.params@) =~= seq![SqlParam::Integer((limit as i64) as int)]);
        r
    }

    /// The most recent local post records first, at most `limit` of them.
    pub fn list_posts(&self, limit: usize) -> (r: Statement)
        ensures
            r.sql@ == LIST_POSTS_SQL@,
            params_view(r.params@) == seq![SqlParam::Integer((limit as i64) as int)],
    {
        let mut params: Vec<SqlValue> = Vec::new();
        params.push(SqlValue::Integer(limit as i64));
        let r = Statement { sql: owned(LIST_POSTS_SQL), params };
        assert(params_view(r.params@) =~= seq![SqlParam::Integer((limit as i64) as int)]);
        r
    }

    /// The local post record with the given local id.
    pub fn get_post_by_local_id(&self, id: i64) -> (r: Statement)
        ensures
            r.sql@ == POST_BY_LOCAL_ID_SQL@,
            params_view(r.params@) == seq![SqlParam::Integer(id as int)],
    {
        let mut params: Vec<SqlValue> = Vec::new();
        params.push(SqlValue::Integer(id));
        let r = Statement { sql: owned(POST_BY_LOCAL_ID_SQL), params };
        assert(params_view(r.params@) =~= seq![SqlParam::Integer(id as int)]);
        r
    }

    /// The local post record of a Threads post.
    pub fn get_post_by_threads_post_id(&self, threads_post_id: &str) -> (r: Statement)
        ensures
            r.sql@ == POST_BY_THREADS_ID_SQL@,
            params_view(r.params@) == seq![SqlParam::Text(threads_post_id@)],
    {
        let mut params: Vec<SqlValue> = Vec::new();
        params.push(text_value(threads_post_id));
        let r = Statement { sql: owned(POST_BY_THREADS_ID_SQL), params };
        assert(params_view(r.params@) =~= seq![SqlParam::Text(threads_post_id@)]);
        r
    }

    /// The most recent local records replying to a post, at most `limit` of them.
    pub fn list_posts_by_parent(&self, parent_threads_post_id: &str, limit: usize) -> (r: Statement)
        ensures
            r.sql@ == POSTS_BY_PARENT_SQL@,
            params_view(r.params@) == seq![SqlParam::Text(parent_threads_post_id@), SqlParam::Integer((limit as i64) as int)],
    {
        let mut params: Vec<SqlValue> = Vec::new();
        params.push(text_value(parent_threads_post_id));
        params.push(SqlValue::Integer(limit as i64));
        let r = Statement { sql: owned(POSTS_BY_PARENT_SQL), params };
        assert(params_view(r.params@) =~= seq![SqlParam::Text(parent_threads_post_id@), SqlParam::Integer((limit as i64) as int)]);
        r
    }

    /// The most recently stored token.
    pub fn latest_token(&self) -> (r: Statement)
        ensures
            r.sql@ == LATEST_TOKEN_SQL@,
            params_view(r.params@) == Seq::<SqlParam>::empty(),
    {
        let mut params: Vec<SqlValue> = Vec::new();
        let r = Statement { sql: owned(LATEST_TOKEN_SQL), params };
        assert(params_view(r.params@) =~= Seq::<SqlParam>::empty());
        r
    }

    /// The account with the given local id.
    pub fn get_account_by_id(&self, id: i64) -> (r: Statement)
        ensures
            r.sql@ == ACCOUNT_BY_ID_SQL@,
            params_view(r.params@) == seq![SqlParam::Integer(id as int)],
    {
        let mut params: Vec<SqlValue> = Vec::new();
        params.push(SqlValue::Integer(id));
        let r = Statement { sql: owned(ACCOUNT_BY_ID_SQL), params };
        assert(params_view(r.params@) =~= seq![SqlParam::Integer(id as int)]);
        r
    }

    /// Stores a token; the new row's id is the insert's row id.
    pub fn insert_token(&self, account_id: i64, access_token: &str, refresh_token: Option<&str>, issued_at: Option<&str>, expires_at: Option<&str>, raw_json: &str) -> (r: Statement)
        ensures
            r.sql@ == INSERT_TOKEN_SQL@,
            params_view(r.params@) == seq![SqlParam::Integer(account_id as int), SqlParam::Text(access_token@), opt_text_param(refresh_token), opt_text_param(issued_at), opt_text_param(expires_at), SqlParam::Text(raw_json@)],
    {
        let mut params: Vec<SqlValue> = Vec::new();
        params.push(SqlValue::Integer(account_id));
        params.push(text_value(access_token));
        params.push(opt_text_value(refresh_token));
        params.push(opt_text_value(issued_at));
        params.push(opt_text_value(expires_at));
        params.push(text_value(raw_json));
        let r = Statement { sql: owned(INSERT_TOKEN_SQL), params };
        assert(params_view(r.params@) =~= seq![SqlParam::Integer(account_id as int), SqlParam::Text(access_token@), opt_text_param(refresh_token), opt_text_param(issued_at), opt_text_param(expires_at), SqlParam::Text(raw_json@)]);
        r
    }

    /// The access token of the most recently stored token.
    pub fn latest_access_token(&self) -> (r: Statement)
        ensures
            r.sql@ == LATEST_ACCESS_TOKEN_SQL@,
            params_view(r.params@) == Seq::<SqlParam>::empty(),
    {
        let mut params: Vec<SqlValue> = Vec::new();
        let r = Statement { sql: owned(LATEST_ACCESS_TOKEN_SQL), params };
        assert(params_view(r.params@) =~= Seq::<SqlParam>::empty());
        r
    }

    /// Removes every stored token; the count of removed rows is the statement's change count.
    pub fn delete_all_tokens(&self) -> (r: Statement)
        ensures
            r.sql@ == DELETE_TOKENS_SQL@,
            params_view(r.params@) == Seq::<SqlParam>::empty(),
    {
        let mut params: Vec<SqlValue> = Vec::new();
        let r = Statement { sql: owned(DELETE_TOKENS_SQL), params };
        assert(params_view(r.params@) =~= Seq::<SqlParam>::empty());
        r
    }

    /// The most recent insight snapshot of a post.
    pub fn latest_insight(&self, post_id: &str) -> (r: Statement)
        ensures
            r.sql@ == LATEST_INSIGHT_SQL@,
            params_view(r.params@) == seq![SqlParam::Text(post_id@)],
    {
        let mut params: Vec<SqlValue> = Vec::new();
        params.push(text_value(post_id));
        let r = Statement { sql: owned(LATEST_INSIGHT_SQL), params };
        assert(params_view(r.params@) =~= seq![SqlParam::Text(post_id@)]);
        r
    }

    /// The most recently stored replies to a post, at most `limit` of them.
    pub fn latest_replies(&self, post_id: &str, limit: usize) -> (r: Statement)
        ensures
            r.sql@ == LATEST_REPLIES_SQL@,
            params_view(r.params@) == seq![SqlParam::Text(post_id@), SqlParam::Integer((limit as i64) as int)],
    {
        let mut params: Vec<SqlValue> = Vec::new();
        params.push(text_value(post_id));
        params.push(SqlValue::Integer(limit as i64));
        let r = Statement { sql: owned(LATEST_REPLIES_SQL), params };
        assert(params_view(r.params@) =~= seq![SqlParam::Text(post_id@), SqlParam::Integer((limit as i64) as int)]);
        r
    }

    /// Stores an insight snapshot of a post.
    pub fn insert_insight_snapshot(&self, post_id: &str, views: Option<i64>, likes: Option<i64>, replies: Option<i64>, reposts: Option<i64>, quotes: Option<i64>, shares: Option<i64>, raw_json: &str) -> (r: Statement)
        ensures
            r.sql@ == INSERT_INSIGHT_SQL@,
            params_view(r.params@) == seq![SqlParam::Text(post_id@), opt_int_param(views), opt_int_param(likes), opt_int_param(replies), opt_int_param(reposts), opt_int_param(quotes), opt_int_param(shares), SqlParam::Text(raw_json@)],
    {
        let mut params: Vec<SqlValue> = Vec::new();
        params.push(text_value(post_id));
        params.push(opt_int_value(views));
        params.push(opt_int_value(likes));
        params.push(opt_int_value(replies));
        params.push(opt_int_value(reposts));
        params.push(opt_int_value(quotes));
        params.push(opt_int_value(shares));
        params.push(text_value(raw_json));
        let r = Statement { sql: owned(INSERT_INSIGHT_SQL), params };
        assert(params_view(r.params@) =~= seq![SqlParam::Text(post_id@), opt_int_param(views), opt_int_param(likes), opt_int_param(replies), opt_int_param(reposts), opt_int_param(quotes), opt_int_param(shares), SqlParam::Text(raw_json@)]);
        r
    }

    /// Stores a reply, replacing the earlier row of the same reply.
    pub fn upsert_reply(&self, threads_reply_id: &str, parent_threads_post_id: &str, author_username: Option<&str>, text: Option<&str>, posted_at: Option<&str>, raw_json: &str) -> (r: Statement)
        ensures
            r.sql@ == UPSERT_REPLY_SQL@,
            params_view(r.params@) == seq![SqlParam::Text(threads_reply_id@), SqlParam::Text(parent_threads_post_id@), opt_text_param(author_username), opt_text_param(text), opt_text_param(posted_at), SqlParam::Text(raw_json@)],
    {
        let mut params: Vec<SqlValue> = Vec::new();
        params.push(text_value(threads_reply_id));
        params.push(text_value(parent_threads_post_id));
        params.push(opt_text_value(author_username));
        params.push(opt_text_value(text));
        params.push(opt_text_value(posted_at));
        params.push(text_value(raw_json));
        let r = Statement { sql: owned(UPSERT_REPLY_SQL), params };
        assert(params_view(r.params@) =~= seq![SqlParam::Text(threads_reply_id@), SqlParam::Text(parent_threads_post_id@), opt_text_param(author_username), opt_text_param(text), opt_text_param(posted_at), SqlParam::Text(raw_json@)]);
        r
    }

    /// The reply paging state of a post.
    pub fn reply_fetch_state(&self, post_id: &str) -> (r: Statement)
        ensures
            r.sql@ == REPLY_FETCH_STATE_SQL@,
            params_view(r.params@) == seq![SqlParam::Text(post_id@)],
    {
        let mut params: Vec<SqlValue> = Vec::new();
        params.push(text_value(post_id));
        let r = Statement { sql: owned(REPLY_FETCH_STATE_SQL), params };
        assert(params_view(r.params@) =~= seq![SqlParam::Text(post_id@)]);
        r
    }

    /// Stores the reply paging state of a post, replacing the earlier one.
    pub fn upsert_reply_fetch_state(&self, post_id: &str, next_cursor: Option<&str>, raw_json: Option<&str>) -> (r: Statement)
        ensures
            r.sql@ == UPSERT_REPLY_FETCH_STATE_SQL@,
            params_view(r.params@) == seq![SqlParam::Text(post_id@), opt_text_param(next_cursor), opt_text_param(raw_json)],
    {
        let mut params: Vec<SqlValue> = Vec::new();
        params.push(text_value(post_id));
        params.push(opt_text_value(next_cursor));
        params.push(opt_text_value(raw_json));
        let r = Statement { sql: owned(UPSERT_REPLY_FETCH_STATE_SQL), params };
        assert(params_view(r.params@) =~= seq![SqlParam::Text(post_id@), opt_text_param(next_cursor), opt_text_param(raw_json)]);
        r
    }

    /// Marks an attempt whose remote outcome is unknown.
    pub fn mark_publish_attempt_ambiguous(&self, id: i64, error_code: &str, error_message: &str, response_json: Option<&str>) -> (r: Statement)
        ensures
            r.sql@ == MARK_AMBIGUOUS_SQL@,
            params_view(r.params@) == seq![SqlParam::Integer(id as int), SqlParam::Text(error_code@), SqlParam::Text(error_message@), opt_text_param(response_json)],
    {
        let mut params: Vec<SqlValue> = Vec::new();
        params.push(SqlValue::Integer(id));
        params.push(text_value(error_code));
        params.push(text_value(error_message));
        params.push(opt_text_value(response_json));
        let r = Statement { sql: owned(MARK_AMBIGUOUS_SQL), params };
        assert(params_view(r.params@) =~= seq![SqlParam::Integer(id as int), SqlParam::Text(error_code@), SqlParam::Text(error_message@), opt_text_param(response_json)]);
        r
    }

    /// Marks an attempt that failed.
    pub fn mark_publish_attempt_failed(&self, id: i64, error_code: &str, error_message: &str) -> (r: Statement)
        ensures
            r.sql@ == MARK_FAILED_SQL@,
            params_view(r.params@) == seq![SqlParam::Integer(id as int), SqlParam::Text(error_code@), SqlParam::Text(error_message@)],
    {
        let mut params: Vec<SqlValue> = Vec::new();
        params.push(SqlValue::Integer(id));
        params.push(text_value(error_code));
        params.push(text_value(error_message));
        let r = Statement { sql: owned(MARK_FAILED_SQL), params };
        assert(params_view(r.params@) =~= seq![SqlParam::Integer(id as int), SqlParam::Text(error_code@), SqlParam::Text(error_message@)]);
        r
    }

    /// Marks an attempt that failed, keeping the failure's details.
    pub fn mark_publish_attempt_failed_with_response(&self, id: i64, error_code: &str, error_message: &str, response_json: &str) -> (r: Statement)
        ensures
            r.sql@ == MARK_FAILED_WITH_RESPONSE_SQL@,
            params_view(r.params@) == seq![SqlParam::Integer(id as int), SqlParam::Text(error_code@), SqlParam::Text(error_message@), SqlParam::Text(response_json@)],
    {
        let mut params: Vec<SqlValue> = Vec::new();
        params.push(SqlValue::Integer(id));
        params.push(text_value(error_code));
        params.push(text_value(error_message));
        params.push(text_value(response_json));
        let r = Statement { sql: owned(MARK_FAILED_WITH_RESPONSE_SQL), params };
        assert(params_view(r.params@) =~= seq![SqlParam::Integer(id as int), SqlParam::Text(error_code@), SqlParam::Text(error_message@), SqlParam::Text(response_json@)]);
        r
    }

    /// Marks an attempt that published the given post.
    pub fn mark_publish_attempt_published(&self, id: i64, threads_post_id: &str, response_json: &str) -> (r: Statement)
        ensures
            r.sql@ == MARK_PUBLISHED_SQL@,
            params_view(r.params@) == seq![SqlParam::Integer(id as int), SqlParam::Text(threads_post_id@), SqlParam::Text(response_json@)],
    {
        let mut params: Vec<SqlValue> = Vec::new();
        params.push(SqlValue::Integer(id));
        params.push(text_value(threads_post_id));
        params.push(text_value(response_json));
        let r = Statement { sql: owned(MARK_PUBLISHED_SQL), params };
        assert(params_view(r.params@) =~= seq![SqlParam::Integer(id as int), SqlParam::Text(threads_post_id@), SqlParam::Text(response_json@)]);
        r
    }

    /// The cached results of a search, in the order they were stored, at most `limit` of them.
    pub fn cached_search_results(&self, query: &str, search_type: &str, limit: usize) -> (r: Statement)
        ensures
            r.sql@ == CACHED_SEARCH_SQL@,
            params_view(r.params@) == seq![SqlParam::Text(query@), SqlParam::Text(search_type@), SqlParam::Integer((limit as i64) as int)],
    {
        let mut params: Vec<SqlValue> = Vec::new();
        params.push(text_value(query));
        params.push(text_value(search_type));
        params.push(SqlValue::Integer(limit as i64));
        let r = Statement { sql: owned(CACHED_SEARCH_SQL), params };
        assert(params_view(r.params@) =~= seq![SqlParam::Text(query@), SqlParam::Text(search_type@), SqlParam::Integer((limit as i64) as int)]);
        r
    }

    /// Stores one of the account's own posts, replacing the earlier row.
    pub fn upsert_own_thread(&self, threads_post_id: &str, text: Option<&str>, permalink: Option<&str>, timestamp: Option<&str>, username: Option<&str>, raw_json: &str) -> (r: Statement)
        ensures
            r.sql@ == UPSERT_OWN_THREAD_SQL@,
            params_view(r.params@) == seq![SqlParam::Text(threads_post_id@), opt_text_param(text), opt_text_param(permalink), opt_text_param(timestamp), opt_text_param(username), SqlParam::Text(raw_json@)],
    {
        let mut params: Vec<SqlValue> = Vec::new();
        params.push(text_value(threads_post_id));
        params.push(opt_text_value(text));
        params.push(opt_text_value(permalink));
        params.push(opt_text_value(timestamp));
        params.push(opt_text_value(username));
        params.push(text_value(raw_json));
        let r = Statement { sql: owned(UPSERT_OWN_THREAD_SQL), params };
        assert(params_view(r.params@) =~= seq![SqlParam::Text(threads_post_id@), opt_text_param(text), opt_text_param(permalink), opt_text_param(timestamp), opt_text_param(username), SqlParam::Text(raw_json@)]);
        r
    }

    /// The account's most recently stored posts, at most `limit` of them.
    pub fn list_own_threads(&self, limit: usize) -> (r: Statement)
        ensures
            r.sql@ == LIST_OWN_THREADS_SQL@,
            params_view(r.params@) == seq![SqlParam::Integer((limit as i64) as int)],
    {
        let mut params: Vec<SqlValue> = Vec::new();
        params.push(SqlValue::Integer(limit as i64));
        let r = Statement { sql: owned(LIST_OWN_THREADS_SQL), params };
        assert(params_view(r.params@) =~= seq![SqlParam::Integer((limit as i64) as int)]);
        r
    }

    /// Stores one of the account's own replies, replacing the earlier row.
    pub fn upsert_own_reply(&self, threads_post_id: &str, reply_to_id: Option<&str>, text: Option<&str>, permalink: Option<&str>, timestamp: Option<&str>, username: Option<&str>, raw_json: &str) -> (r: Statement)
        ensures
            r.sql@ == UPSERT_OWN_REPLY_SQL@,
            params_view(r.params@) == seq![SqlParam::Text(threads_post_id@), opt_text_param(reply_to_id), opt_text_param(text), opt_text_param(permalink), opt_text_param(timestamp), opt_text_param(username), SqlParam::Text(raw_json@)],
    {
        let mut params: Vec<SqlValue> = Vec::new();
        params.push(text_value(threads_post_id));
        params.push(opt_text_value(reply_to_id));
        params.push(opt_text_value(text));
        params.push(opt_text_value(permalink));
        params.push(opt_text_value(timestamp));
        params.push(opt_text_value(username));
        params.push(text_value(raw_json));
        let r = Statement { sql: owned(UPSERT_OWN_REPLY_SQL), params };
        assert(params_view(r.params@) =~= seq![SqlParam::Text(threads_post_id@), opt_text_param(reply_to_id), opt_text_param(text), opt_text_param(permalink), opt_text_param(timestamp), opt_text_param(username), SqlParam::Text(raw_json@)]);
        r
    }

    /// The account's most recently stored replies, at most `limit` of them.
    pub fn list_own_replies(&self, limit: usize) -> (r: Statement)
        ensures
            r.sql@ == LIST_OWN_REPLIES_SQL@,
            params_view(r.params@) == seq![SqlParam::Integer((limit as i64) as int)],
    {
        let mut params: Vec<SqlValue> = Vec::new();
        params.push(SqlValue::Integer(limit as i64));
        let r = Statement { sql: owned(LIST_OWN_REPLIES_SQL), params };
        assert(params_view(r.params@) =~= seq![SqlParam::Integer((limit as i64) as int)]);
        r
    }

    /// Stores an account, updating the names of a known one; the second
    /// statement reads back the account's local id.
    pub fn upsert_account(&self, threads_user_id: &str, username: Option<&str>, name: Option<&str>) -> (r: (Statement, Statement))
        ensures
            r.0.sql@ == UPSERT_ACCOUNT_SQL@,
            params_view(r.0.params@) == seq![SqlParam::Text(threads_user_id@), opt_text_param(username), opt_text_param(name)],
            r.1.sql@ == ACCOUNT_ID_SQL@,
            params_view(r.1.params@) == seq![SqlParam::Text(threads_user_id@)],
    {
        let mut p0: Vec<SqlValue> = Vec::new();
        p0.push(text_value(threads_user_id));
        p0.push(opt_text_value(username));
        p0.push(opt_text_value(name));
        let mut p1: Vec<SqlValue> = Vec::new();
        p1.push(text_value(threads_user_id));
        let r = (Statement { sql: owned(UPSERT_ACCOUNT_SQL), params: p0 }, Statement { sql: owned(ACCOUNT_ID_SQL), params: p1 });
        assert(params_view(r.0.params@) =~= seq![SqlParam::Text(threads_user_id@), opt_text_param(username), opt_text_param(name)]);
        assert(params_view(r.1.params@) =~= seq![SqlParam::Text(threads_user_id@)]);
        r
    }

    /// Records a new publish attempt in state `started`; `attempt_uuid`
    /// identifies it.
    pub fn create_publish_attempt(&self, input: &PublishAttemptInput, attempt_uuid: &str) -> (r: Statement)
        ensures
            r.sql@ == CREATE_ATTEMPT_SQL@,
            params_view(r.params@) == seq![
                SqlParam::Text(attempt_uuid@),
                SqlParam::Text(input.kind@),
                SqlParam::Text(input.text@),
                opt_text_param_owned(input.reply_to_id),
                opt_text_param_owned(input.topic_tag),
                opt_text_param_owned(input.source_url),
                opt_text_param_owned(input.source_link_mode),
                SqlParam::Text(input.request_json@),
            ],
    {
        let mut params: Vec<SqlValue> = Vec::new();
        params.push(text_value(attempt_uuid));
        params.push(text_value(input.kind.as_str()));
        params.push(text_value(input.text.as_str()));
        params.push(opt_string_value(&input.reply_to_id));
        params.push(opt_string_value(&input.topic_tag));
        params.push(opt_string_value(&input.source_url));
        params.push(opt_string_value(&input.source_link_mode));
        params.push(text_value(input.request_json.as_str()));
        let r = Statement { sql: owned(CREATE_ATTEMPT_SQL), params };
        assert(params_view(r.params@) =~= seq![
            SqlParam::Text(attempt_uuid@),
            SqlParam::Text(input.kind@),
            SqlParam::Text(input.text@),
            opt_text_param_owned(input.reply_to_id),
            opt_text_param_owned(input.topic_tag),
            opt_text_param_owned(input.source_url),
            opt_text_param_owned(input.source_link_mode),
            SqlParam::Text(input.request_json@),
        ]);
        r
    }

    /// Stores a published post.
    pub fn persist_post(&self, input: &PersistPostInput) -> (r: Statement)
        ensures
            r.sql@ == PERSIST_POST_SQL@,
            params_view(r.params@) == seq![
                SqlParam::Text(input.threads_post_id@),
                opt_text_param_owned(input.parent_threads_post_id),
                opt_text_param_owned(input.post_url),
                SqlParam::Text(input.text@),
                opt_text_param_owned(input.topic_tag),
                opt_text_param_owned(input.source_url),
                opt_text_param_owned(input.source_link_mode),
                SqlParam::Text(input.kind@),
                opt_text_param_owned(input.published_at),
                SqlParam::Text(input.raw_json@),
            ],
    {
        let mut params: Vec<SqlValue> = Vec::new();
        params.push(text_value(input.threads_post_id.as_str()));
        params.push(opt_string_value(&input.parent_threads_post_id));
        params.push(opt_string_value(&input.post_url));
        params.push(text_value(input.text.as_str()));
        params.push(opt_string_value(&input.topic_tag));
        params.push(opt_string_value(&input.source_url));
        params.push(opt_string_value(&input.source_link_mode));
        params.push(text_value(input.kind.as_str()));
        params.push(opt_string_value(&input.published_at));
        params.push(text_value(input.raw_json.as_str()));
        let r = Statement { sql: owned(PERSIST_POST_SQL), params };
        assert(params_view(r.params@) =~= seq![
            SqlParam::Text(input.threads_post_id@),
            opt_text_param_owned(input.parent_threads_post_id),
            opt_text_param_owned(input.post_url),
            SqlParam::Text(input.text@),
            opt_text_param_owned(input.topic_tag),
            opt_text_param_owned(input.source_url),
            opt_text_param_owned(input.source_link_mode),
            SqlParam::Text(input.kind@),
            opt_text_param_owned(input.published_at),
            SqlParam::Text(input.raw_json@),
        ]);
        r
    }

    /// Replaces the cached results of a search: one statement removes the
    /// earlier results of the same query and type, then one insert per
    /// result, in order.
    pub fn insert_search_results(
        &self,
        query: &str,
        search_type: &str,
        results: &Vec<(String, Option<String>, Option<String>, Option<String>, Option<String>, Option<i64>, Option<i64>, String)>,
    ) -> (r: Vec<Statement>)
        ensures
            r@.len() == results@.len() + 1,
            r@[0].sql@ == DELETE_SEARCH_SQL@,
            params_view(r@[0].params@) == seq![SqlParam::Text(query@), SqlParam::Text(search_type@)],
            forall|i: int| 0 <= i < results@.len() ==> {
                let row = results@[i];
                &&& (#[trigger] r@[i + 1]).sql@ == INSERT_SEARCH_SQL@
                &&& params_view(r@[i + 1].params@) == seq![
                    SqlParam::Text(query@),
                    SqlParam::Text(search_type@),
                    SqlParam::Text(row.0@),
                    opt_text_param_owned(row.1),
                    opt_text_param_owned(row.2),
                    opt_text_param_owned(row.3),
                    opt_text_param_owned(row.4),
                    opt_int_param(row.5),
                    opt_int_param(row.6),
                    SqlParam::Text(row.7@),
                ]
            },
    {
        let mut out: Vec<Statement> = Vec::new();
        let mut p0: Vec<SqlValue> = Vec::new();
        p0.push(text_value(query));
        p0.push(text_value(search_type));
        out.push(Statement { sql: owned(DELETE_SEARCH_SQL), params: p0 });
        assert(params_view(out@[0].params@) =~= seq![SqlParam::Text(query@), SqlParam::Text(search_type@)]);
        let mut i: usize = 0;
        while i < results.len()
            invariant
                i <= results.len(),
                out@.len() == i + 1,
                out@[0].sql@ == DELETE_SEARCH_SQL@,
                params_view(out@[0].params@) == seq![SqlParam::Text(query@), SqlParam::Text(search_type@)],
                forall|j: int| 0 <= j < i ==> {
                    let row = results@[j];
                    &&& (#[trigger] out@[j + 1]).sql@ == INSERT_SEARCH_SQL@
                    &&& params_view(out@[j + 1].params@) == seq![
                        SqlParam::Text(query@),
                        SqlParam::Text(search_type@),
                        SqlParam::Text(row.0@),
                        opt_text_param_owned(row.1),
                        opt_text_param_owned(row.2),
                        opt_text_param_owned(row.3),
                        opt_text_param_owned(row.4),
                        opt_int_param(row.5),
                        opt_int_param(row.6),
                        SqlParam::Text(row.7@),
                    ]
                },
            decreases results.len() - i,
        {
            let row = &results[i];
            let mut params: Vec<SqlValue> = Vec::new();
            params.push(text_value(query));
            params.push(text_value(search_type));
            params.push(text_value(row.0.as_str()));
            params.push(opt_string_value(&row.1));
            params.push(opt_string_value(&row.2));
            params.push(opt_string_value(&row.3));
            params.push(opt_string_value(&row.4));
            params.push(opt_int_value(row.5));
            params.push(opt_int_value(row.6));
            params.push(text_value(row.7.as_str()));
            let st = Statement { sql: owned(INSERT_SEARCH_SQL), params };
            assert(params_view(st.params@) =~= seq![
                SqlParam::Text(query@),
                SqlParam::Text(search_type@),
                SqlParam::Text(row.0@),
                opt_text_param_owned(row.1),
                opt_text_param_owned(row.2),
                opt_text_param_owned(row.3),
                opt_text_param_owned(row.4),
                opt_int_param(row.5),
                opt_int_param(row.6),
                SqlParam::Text(row.7@),
            ]);
            out.push(st);
            i = i + 1;
        }
        out
    }
}

} // verus!
