//! `me threads` and `me replies`: the user's own posts and replies, cached
//! locally.
use vstd::prelude::*;

use crate::client::{UserReplyItem, UserThreadItem};
use crate::error::{CliError, ErrorCategory};
use crate::output::{
    entry, field_is, field_value, lemma_field_is_at, has_key, json_opt_str, json_str, object_len, opt_json, str_json,
    CommandOutput, JsonValue,
};
use crate::store::statements::{opt_param, opt_view, params_view, SqlParam, Statement, UPSERT_OWN_REPLY_SQL, UPSERT_OWN_THREAD_SQL};
use crate::store::{OwnReplyRow, OwnThreadRow, Store};
use crate::text::{
    dec_int, dec_nat, push_decimal_u64, join_strings, join_with, owned, push_decimal_i64, push_str, strings_view, take_chars,
    take_chars_exec,
};

verus! {

pub enum MeSubcommand {
    Threads(MeThreadsArgs),
    Replies(MeRepliesArgs),
}

pub struct MeThreadsArgs {
    pub limit: usize,
    pub refresh: bool,
}

pub struct MeRepliesArgs {
    pub limit: usize,
    pub refresh: bool,
}

/// Listing commands show at least one item.
pub fn validate_limit(limit: usize) -> (r: Result<(), CliError>)
    ensures
        r is Ok <==> limit >= 1,
        r matches Err(e) ==> e.category == ErrorCategory::Validation && e.message@
            == "limit must be >= 1"@,
{
    if limit == 0 {
        return Err(CliError::new(ErrorCategory::Validation, "limit must be >= 1"));
    }
    Ok(())
}

/// Reading one's own activity needs a stored access token.
pub fn require_access_token(token: Option<String>) -> (r: Result<String, CliError>)
    ensures
        token matches Some(t) ==> (r matches Ok(s) && s@ == t@),
        token is None ==> (r matches Err(e) && e.category == ErrorCategory::Auth && e.message@
            == "not authenticated; run auth login first"@),
{
    match token {
        Some(t) => Ok(t),
        None => Err(CliError::new(ErrorCategory::Auth, "not authenticated; run auth login first")),
    }
}

/// Items are fetched when asked to refresh, or when none are stored.
pub fn needs_fetch(refresh: bool, cached_empty: bool) -> (r: bool)
    ensures
        r == (refresh || cached_empty),
{
    refresh || cached_empty
}

fn clone_opt(o: &Option<String>) -> (r: Option<String>)
    ensures
        opt_view(r) == opt_view(*o),
{
    match o {
        Some(s) => Some(s.clone()),
        None => None,
    }
}

pub open spec fn or_text(o: Option<Seq<char>>, default: Seq<char>) -> Seq<char> {
    match o {
        Some(s) => s,
        None => default,
    }
}

fn push_or(out: &mut String, o: &Option<String>, default: &str)
    ensures
        final(out)@ == old(out)@ + or_text(opt_view(*o), default@),
{
    match o {
        Some(s) => push_str(out, s.as_str()),
        None => push_str(out, default),
    }
}

fn preview80(o: &Option<String>) -> (r: String)
    ensures
        r@ == take_chars(or_text(opt_view(*o), Seq::empty()), 80),
{
    match o {
        Some(s) => take_chars_exec(s.as_str(), 80),
        None => String::new(),
    }
}

// ---------------------------------------------------------------------------
// Threads
// ---------------------------------------------------------------------------

/// One of the user's posts as it is shown.
pub struct ThreadItem {
    pub id: String,
    pub text: Option<String>,
    pub permalink: Option<String>,
    pub timestamp: Option<String>,
    pub username: Option<String>,
}

pub open spec fn thread_is_item(t: ThreadItem, i: UserThreadItem) -> bool {
    &&& t.id@ == i.id@
    &&& opt_view(t.text) == opt_view(i.text)
    &&& opt_view(t.permalink) == opt_view(i.permalink)
    &&& opt_view(t.timestamp) == opt_view(i.timestamp)
    &&& opt_view(t.username) == opt_view(i.username)
}

pub open spec fn thread_is_row(t: ThreadItem, r: OwnThreadRow) -> bool {
    &&& t.id@ == r.threads_post_id@
    &&& opt_view(t.text) == opt_view(r.text)
    &&& opt_view(t.permalink) == opt_view(r.permalink)
    &&& opt_view(t.timestamp) == opt_view(r.timestamp)
    &&& opt_view(t.username) == opt_view(r.username)
}

/// The first `limit` posts of a fetched page.
pub fn live_threads(data: &Vec<UserThreadItem>, limit: usize) -> (r: Vec<ThreadItem>)
    ensures
        r@.len() == (if data@.len() <= limit {
            data@.len() as int
        } else {
            limit as int
        }),
        forall|i: int| 0 <= i < r@.len() ==> thread_is_item(#[trigger] r@[i], data@[i]),
{
    let mut out: Vec<ThreadItem> = Vec::new();
    let mut i: usize = 0;
    while i < data.len() && i < limit
        invariant
            i <= data.len(),
            i <= limit,
            out@.len() == i,
            forall|k: int| 0 <= k < i ==> thread_is_item(#[trigger] out@[k], data@[k]),
        decreases data.len() - i,
    {
        let it = &data[i];
        out.push(
            ThreadItem {
                id: it.id.clone(),
                text: clone_opt(&it.text),
                permalink: clone_opt(&it.permalink),
                timestamp: clone_opt(&it.timestamp),
                username: clone_opt(&it.username),
            },
        );
        i = i + 1;
    }
    out
}

/// The stored posts, in order.
pub fn cached_threads(rows: &Vec<OwnThreadRow>) -> (r: Vec<ThreadItem>)
    ensures
        r@.len() == rows@.len(),
        forall|i: int| 0 <= i < r@.len() ==> thread_is_row(#[trigger] r@[i], rows@[i]),
{
    let mut out: Vec<ThreadItem> = Vec::new();
    let mut i: usize = 0;
    while i < rows.len()
        invariant
            i <= rows.len(),
            out@.len() == i,
            forall|k: int| 0 <= k < i ==> thread_is_row(#[trigger] out@[k], rows@[k]),
        decreases rows.len() - i,
    {
        let r = &rows[i];
        out.push(
            ThreadItem {
                id: r.threads_post_id.clone(),
                text: clone_opt(&r.text),
                permalink: clone_opt(&r.permalink),
                timestamp: clone_opt(&r.timestamp),
                username: clone_opt(&r.username),
            },
        );
        i = i + 1;
    }
    out
}

pub open spec fn opt_ref_param(o: Option<String>) -> SqlParam {
    opt_param(opt_view(o))
}

fn opt_ref(o: &Option<String>) -> (r: Option<&str>)
    ensures
        crate::store::statements::opt_text_param(r) == opt_ref_param(*o),
{
    match o {
        Some(s) => Some(s.as_str()),
        None => None,
    }
}

/// The statements that store every fetched post (`raw_jsons[i]` is the
/// text of `data[i]`).
pub fn cache_threads(store: &Store, data: &Vec<UserThreadItem>, raw_jsons: &Vec<String>) -> (r: Vec<Statement>)
    requires
        raw_jsons@.len() == data@.len(),
    ensures
        r@.len() == data@.len(),
        forall|i: int|
            0 <= i < r@.len() ==> (#[trigger] r@[i]).sql@ == UPSERT_OWN_THREAD_SQL@ && params_view(
                r@[i].params@,
            ) == seq![
                SqlParam::Text(data@[i].id@),
                opt_ref_param(data@[i].text),
                opt_ref_param(data@[i].permalink),
                opt_ref_param(data@[i].timestamp),
                opt_ref_param(data@[i].username),
                SqlParam::Text(raw_jsons@[i]@),
            ],
{
    let mut out: Vec<Statement> = Vec::new();
    let mut i: usize = 0;
    while i < data.len()
        invariant
            i <= data.len(),
            raw_jsons@.len() == data@.len(),
            out@.len() == i,
            forall|k: int|
                0 <= k < i ==> (#[trigger] out@[k]).sql@ == UPSERT_OWN_THREAD_SQL@ && params_view(
                    out@[k].params@,
                ) == seq![
                    SqlParam::Text(data@[k].id@),
                    opt_ref_param(data@[k].text),
                    opt_ref_param(data@[k].permalink),
                    opt_ref_param(data@[k].timestamp),
                    opt_ref_param(data@[k].username),
                    SqlParam::Text(raw_jsons@[k]@),
                ],
        decreases data.len() - i,
    {
        let it = &data[i];
        out.push(
            store.upsert_own_thread(
                it.id.as_str(),
                opt_ref(&it.text),
                opt_ref(&it.permalink),
                opt_ref(&it.timestamp),
                opt_ref(&it.username),
                raw_jsons[i].as_str(),
            ),
        );
        i = i + 1;
    }
    out
}

pub open spec fn thread_line(t: ThreadItem) -> Seq<char> {
    "  ["@ + t.id@ + "] "@ + take_chars(or_text(opt_view(t.text), Seq::empty()), 80) + " ("@
        + or_text(opt_view(t.permalink), "no link"@) + ")"@
}

/// The human text of `me threads`.
pub open spec fn threads_text(source: Seq<char>, threads: Seq<ThreadItem>) -> Seq<char> {
    if threads.len() == 0 {
        "No threads found (source="@ + source + ")"@
    } else {
        join_with(
            seq!["Your threads from "@ + source + ": "@ + dec_nat(threads.len()) + " results"@]
                + threads.map_values(|t: ThreadItem| thread_line(t)),
            "\n"@,
        )
    }
}

pub fn format_threads_human(source: &str, threads: &Vec<ThreadItem>) -> (r: String)
    ensures
        r@ == threads_text(source@, threads@),
{
    if threads.len() == 0 {
        let mut out = owned("No threads found (source=");
        push_str(&mut out, source);
        push_str(&mut out, ")");
        return out;
    }
    let mut header = owned("Your threads from ");
    push_str(&mut header, source);
    push_str(&mut header, ": ");
    push_decimal_u64(&mut header, threads.len() as u64);
    push_str(&mut header, " results");
    let ghost h = header@;
    let mut lines: Vec<String> = Vec::new();
    lines.push(header);
    let mut i: usize = 0;
    while i < threads.len()
        invariant
            i <= threads.len(),
            strings_view(lines@) == seq![h] + threads@.subrange(0, i as int).map_values(
                |t: ThreadItem| thread_line(t),
            ),
        decreases threads.len() - i,
    {
        let t = &threads[i];
        let mut line = owned("  [");
        push_str(&mut line, t.id.as_str());
        push_str(&mut line, "] ");
        let p = preview80(&t.text);
        push_str(&mut line, p.as_str());
        push_str(&mut line, " (");
        push_or(&mut line, &t.permalink, "no link");
        push_str(&mut line, ")");
        let ghost before = lines@;
        lines.push(line);
        assert(threads@.subrange(0, i + 1).map_values(|t: ThreadItem| thread_line(t))
            =~= threads@.subrange(0, i as int).map_values(|t: ThreadItem| thread_line(t)).push(
            thread_line(threads@[i as int]),
        ));
        assert(strings_view(lines@) =~= strings_view(before).push(line@));
        i = i + 1;
    }
    assert(threads@.subrange(0, threads@.len() as int) =~= threads@);
    join_strings(&lines, "\n")
}

pub open spec fn thread_data_ok(j: JsonValue, t: ThreadItem) -> bool {
    &&& object_len(j) == 5
    &&& has_key(j, 0, "id"@) && str_json(field_value(j, 0), t.id@)
    &&& has_key(j, 1, "permalink"@) && opt_json(field_value(j, 1), opt_view(t.permalink))
    &&& has_key(j, 2, "text"@) && opt_json(field_value(j, 2), opt_view(t.text))
    &&& has_key(j, 3, "timestamp"@) && opt_json(field_value(j, 3), opt_view(t.timestamp))
    &&& has_key(j, 4, "username"@) && opt_json(field_value(j, 4), opt_view(t.username))
}

/// An own-post record carries each value under its own name.
pub proof fn law_thread_fields(j: JsonValue, t: ThreadItem)
    requires
        thread_data_ok(j, t),
    ensures
        field_is(j, "id"@, |v: JsonValue| str_json(v, t.id@)),
        field_is(j, "permalink"@, |v: JsonValue| opt_json(v, opt_view(t.permalink))),
        field_is(j, "text"@, |v: JsonValue| opt_json(v, opt_view(t.text))),
        field_is(j, "timestamp"@, |v: JsonValue| opt_json(v, opt_view(t.timestamp))),
        field_is(j, "username"@, |v: JsonValue| opt_json(v, opt_view(t.username))),
{
    reveal_strlit("id");
    reveal_strlit("permalink");
    reveal_strlit("text");
    reveal_strlit("timestamp");
    reveal_strlit("username");
    let f = j->Object_0@;
    let names = seq![
        "id"@,
        "permalink"@,
        "text"@,
        "timestamp"@,
        "username"@,
    ];
    assert forall|i: int| 0 <= i < 5 implies #[trigger] f[i].0@ == names[i] by {
        if i == 0 {} else if i == 1 {} else if i == 2 {} else if i == 3 {} else {}
    }
    assert forall|i: int, k: int| 0 <= i < 5 && 0 <= k < 5 && i != k implies names[i] != names[k] by {
        if names[i] == names[k] {
            assert(names[i].len() == names[k].len());
            assert(names[i][0] == names[k][0]);
            assert(names[i][1] == names[k][1]);
        }
    }
    lemma_field_is_at(j, "id"@, 0, |v: JsonValue| str_json(v, t.id@));
    lemma_field_is_at(j, "permalink"@, 1, |v: JsonValue| opt_json(v, opt_view(t.permalink)));
    lemma_field_is_at(j, "text"@, 2, |v: JsonValue| opt_json(v, opt_view(t.text)));
    lemma_field_is_at(j, "timestamp"@, 3, |v: JsonValue| opt_json(v, opt_view(t.timestamp)));
    lemma_field_is_at(j, "username"@, 4, |v: JsonValue| opt_json(v, opt_view(t.username)));
}

/// What `me threads` reports.
pub fn threads_output(live: bool, threads: &Vec<ThreadItem>) -> (r: CommandOutput)
    ensures
        r.command@ == "me threads"@,
        r.human@ == threads_text(if live { "live"@ } else { "cache"@ }, threads@),
        object_len(r.data) == 2,
        has_key(r.data, 0, "source"@) && str_json(
            field_value(r.data, 0),
            if live {
                "live"@
            } else {
                "cache"@
            },
        ),
        has_key(r.data, 1, "threads"@) && field_value(r.data, 1) is Array && field_value(
            r.data,
            1,
        )->Array_0@.len() == threads@.len() && forall|i: int|
            0 <= i < threads@.len() ==> thread_data_ok(
                #[trigger] field_value(r.data, 1)->Array_0@[i],
                threads@[i],
            ),
{
    let source = if live {
        "live"
    } else {
        "cache"
    };
    let human = format_threads_human(source, threads);
    let mut items: Vec<JsonValue> = Vec::new();
    let mut i: usize = 0;
    while i < threads.len()
        invariant
            i <= threads.len(),
            items@.len() == i,
            forall|k: int| 0 <= k < i ==> thread_data_ok(#[trigger] items@[k], threads@[k]),
        decreases threads.len() - i,
    {
        let t = &threads[i];
        let mut v: Vec<(String, JsonValue)> = Vec::new();
        v.push(entry("id", json_str(t.id.as_str())));
        v.push(entry("permalink", json_opt_str(&t.permalink)));
        v.push(entry("text", json_opt_str(&t.text)));
        v.push(entry("timestamp", json_opt_str(&t.timestamp)));
        v.push(entry("username", json_opt_str(&t.username)));
        items.push(JsonValue::Object(v));
        i = i + 1;
    }
    let mut v: Vec<(String, JsonValue)> = Vec::new();
    v.push(entry("source", json_str(source)));
    v.push(entry("threads", JsonValue::Array(items)));
    CommandOutput { command: owned("me threads"), human, data: JsonValue::Object(v) }
}

// ---------------------------------------------------------------------------
// Replies
// ---------------------------------------------------------------------------

/// One of the user's replies as it is shown.
pub struct OwnReplyItem {
    pub id: String,
    pub reply_to_id: Option<String>,
    pub text: Option<String>,
    pub permalink: Option<String>,
    pub timestamp: Option<String>,
    pub username: Option<String>,
}

pub open spec fn reply_is_item(t: OwnReplyItem, i: UserReplyItem) -> bool {
    &&& t.id@ == i.id@
    &&& opt_view(t.reply_to_id) == opt_view(i.reply_to_id)
    &&& opt_view(t.text) == opt_view(i.text)
    &&& opt_view(t.permalink) == opt_view(i.permalink)
    &&& opt_view(t.timestamp) == opt_view(i.timestamp)
    &&& opt_view(t.username) == opt_view(i.username)
}

pub open spec fn reply_is_row(t: OwnReplyItem, r: OwnReplyRow) -> bool {
    &&& t.id@ == r.threads_post_id@
    &&& opt_view(t.reply_to_id) == opt_view(r.reply_to_id)
    &&& opt_view(t.text) == opt_view(r.text)
    &&& opt_view(t.permalink) == opt_view(r.permalink)
    &&& opt_view(t.timestamp) == opt_view(r.timestamp)
    &&& opt_view(t.username) == opt_view(r.username)
}

/// The first `limit` replies of a fetched page.
pub fn live_replies(data: &Vec<UserReplyItem>, limit: usize) -> (r: Vec<OwnReplyItem>)
    ensures
        r@.len() == (if data@.len() <= limit {
            data@.len() as int
        } else {
            limit as int
        }),
        forall|i: int| 0 <= i < r@.len() ==> reply_is_item(#[trigger] r@[i], data@[i]),
{
    let mut out: Vec<OwnReplyItem> = Vec::new();
    let mut i: usize = 0;
    while i < data.len() && i < limit
        invariant
            i <= data.len(),
            i <= limit,
            out@.len() == i,
            forall|k: int| 0 <= k < i ==> reply_is_item(#[trigger] out@[k], data@[k]),
        decreases data.len() - i,
    {
        let it = &data[i];
        out.push(
            OwnReplyItem {
                id: it.id.clone(),
                reply_to_id: clone_opt(&it.reply_to_id),
                text: clone_opt(&it.text),
                permalink: clone_opt(&it.permalink),
                timestamp: clone_opt(&it.timestamp),
                username: clone_opt(&it.username),
            },
        );
        i = i + 1;
    }
    out
}

/// The stored replies, in order.
pub fn cached_replies(rows: &Vec<OwnReplyRow>) -> (r: Vec<OwnReplyItem>)
    ensures
        r@.len() == rows@.len(),
        forall|i: int| 0 <= i < r@.len() ==> reply_is_row(#[trigger] r@[i], rows@[i]),
{
    let mut out: Vec<OwnReplyItem> = Vec::new();
    let mut i: usize = 0;
    while i < rows.len()
        invariant
            i <= rows.len(),
            out@.len() == i,
            forall|k: int| 0 <= k < i ==> reply_is_row(#[trigger] out@[k], rows@[k]),
        decreases rows.len() - i,
    {
        let r = &rows[i];
        out.push(
            OwnReplyItem {
                id: r.threads_post_id.clone(),
                reply_to_id: clone_opt(&r.reply_to_id),
                text: clone_opt(&r.text),
                permalink: clone_opt(&r.permalink),
                timestamp: clone_opt(&r.timestamp),
                username: clone_opt(&r.username),
            },
        );
        i = i + 1;
    }
    out
}

/// The statements that store every fetched reply (`raw_jsons[i]` is the
/// text of `data[i]`).
pub fn cache_replies(store: &Store, data: &Vec<UserReplyItem>, raw_jsons: &Vec<String>) -> (r: Vec<Statement>)
    requires
        raw_jsons@.len() == data@.len(),
    ensures
        r@.len() == data@.len(),
        forall|i: int|
            0 <= i < r@.len() ==> (#[trigger] r@[i]).sql@ == UPSERT_OWN_REPLY_SQL@ && params_view(
                r@[i].params@,
            ) == seq![
                SqlParam::Text(data@[i].id@),
                opt_ref_param(data@[i].reply_to_id),
                opt_ref_param(data@[i].text),
                opt_ref_param(data@[i].permalink),
                opt_ref_param(data@[i].timestamp),
                opt_ref_param(data@[i].username),
                SqlParam::Text(raw_jsons@[i]@),
            ],
{
    let mut out: Vec<Statement> = Vec::new();
    let mut i: usize = 0;
    while i < data.len()
        invariant
            i <= data.len(),
            raw_jsons@.len() == data@.len(),
            out@.len() == i,
            forall|k: int|
                0 <= k < i ==> (#[trigger] out@[k]).sql@ == UPSERT_OWN_REPLY_SQL@ && params_view(
                    out@[k].params@,
                ) == seq![
                    SqlParam::Text(data@[k].id@),
                    opt_ref_param(data@[k].reply_to_id),
                    opt_ref_param(data@[k].text),
                    opt_ref_param(data@[k].permalink),
                    opt_ref_param(data@[k].timestamp),
                    opt_ref_param(data@[k].username),
                    SqlParam::Text(raw_jsons@[k]@),
                ],
        decreases data.len() - i,
    {
        let it = &data[i];
        out.push(
            store.upsert_own_reply(
                it.id.as_str(),
                opt_ref(&it.reply_to_id),
                opt_ref(&it.text),
                opt_ref(&it.permalink),
                opt_ref(&it.timestamp),
                opt_ref(&it.username),
                raw_jsons[i].as_str(),
            ),
        );
        i = i + 1;
    }
    out
}

pub open spec fn own_reply_line(t: OwnReplyItem) -> Seq<char> {
    "  ["@ + t.id@ + "] reply-to="@ + or_text(opt_view(t.reply_to_id), "unknown"@) + " "@
        + take_chars(or_text(opt_view(t.text), Seq::empty()), 80) + " ("@ + or_text(
        opt_view(t.permalink),
        "no link"@,
    ) + ")"@
}

/// The human text of `me replies`.
pub open spec fn replies_text(source: Seq<char>, replies: Seq<OwnReplyItem>) -> Seq<char> {
    if replies.len() == 0 {
        "No replies found (source="@ + source + ")"@
    } else {
        join_with(
            seq!["Your replies from "@ + source + ": "@ + dec_nat(replies.len()) + " results"@]
                + replies.map_values(|t: OwnReplyItem| own_reply_line(t)),
            "\n"@,
        )
    }
}

pub fn format_replies_human(source: &str, replies: &Vec<OwnReplyItem>) -> (r: String)
    ensures
        r@ == replies_text(source@, replies@),
{
    if replies.len() == 0 {
        let mut out = owned("No replies found (source=");
        push_str(&mut out, source);
        push_str(&mut out, ")");
        return out;
    }
    let mut header = owned("Your replies from ");
    push_str(&mut header, source);
    push_str(&mut header, ": ");
    push_decimal_u64(&mut header, replies.len() as u64);
    push_str(&mut header, " results");
    let ghost h = header@;
    let mut lines: Vec<String> = Vec::new();
    lines.push(header);
    let mut i: usize = 0;
    while i < replies.len()
        invariant
            i <= replies.len(),
            strings_view(lines@) == seq![h] + replies@.subrange(0, i as int).map_values(
                |t: OwnReplyItem| own_reply_line(t),
            ),
        decreases replies.len() - i,
    {
        let t = &replies[i];
        let mut line = owned("  [");
        push_str(&mut line, t.id.as_str());
        push_str(&mut line, "] reply-to=");
        push_or(&mut line, &t.reply_to_id, "unknown");
        push_str(&mut line, " ");
        let p = preview80(&t.text);
        push_str(&mut line, p.as_str());
        push_str(&mut line, " (");
        push_or(&mut line, &t.permalink, "no link");
        push_str(&mut line, ")");
        let ghost before = lines@;
        lines.push(line);
        assert(replies@.subrange(0, i + 1).map_values(|t: OwnReplyItem| own_reply_line(t))
            =~= replies@.subrange(0, i as int).map_values(|t: OwnReplyItem| own_reply_line(t)).push(
            own_reply_line(replies@[i as int]),
        ));
        assert(strings_view(lines@) =~= strings_view(before).push(line@));
        i = i + 1;
    }
    assert(replies@.subrange(0, replies@.len() as int) =~= replies@);
    join_strings(&lines, "\n")
}

pub open spec fn own_reply_data_ok(j: JsonValue, t: OwnReplyItem) -> bool {
    &&& object_len(j) == 6
    &&& has_key(j, 0, "id"@) && str_json(field_value(j, 0), t.id@)
    &&& has_key(j, 1, "permalink"@) && opt_json(field_value(j, 1), opt_view(t.permalink))
    &&& has_key(j, 2, "reply_to_id"@) && opt_json(field_value(j, 2), opt_view(t.reply_to_id))
    &&& has_key(j, 3, "text"@) && opt_json(field_value(j, 3), opt_view(t.text))
    &&& has_key(j, 4, "timestamp"@) && opt_json(field_value(j, 4), opt_view(t.timestamp))
    &&& has_key(j, 5, "username"@) && opt_json(field_value(j, 5), opt_view(t.username))
}

/// An own-reply record carries each value under its own name; in
/// particular the post it answers under `reply_to_id`.
pub proof fn law_own_reply_fields(j: JsonValue, t: OwnReplyItem)
    requires
        own_reply_data_ok(j, t),
    ensures
        field_is(j, "id"@, |v: JsonValue| str_json(v, t.id@)),
        field_is(j, "permalink"@, |v: JsonValue| opt_json(v, opt_view(t.permalink))),
        field_is(j, "reply_to_id"@, |v: JsonValue| opt_json(v, opt_view(t.reply_to_id))),
        field_is(j, "text"@, |v: JsonValue| opt_json(v, opt_view(t.text))),
        field_is(j, "timestamp"@, |v: JsonValue| opt_json(v, opt_view(t.timestamp))),
        field_is(j, "username"@, |v: JsonValue| opt_json(v, opt_view(t.username))),
{
    reveal_strlit("id");
    reveal_strlit("permalink");
    reveal_strlit("reply_to_id");
    reveal_strlit("text");
    reveal_strlit("timestamp");
    reveal_strlit("username");
    let f = j->Object_0@;
    let names = seq![
        "id"@,
        "permalink"@,
        "reply_to_id"@,
        "text"@,
        "timestamp"@,
        "username"@,
    ];
    assert forall|i: int| 0 <= i < 6 implies #[trigger] f[i].0@ == names[i] by {
        if i == 0 {} else if i == 1 {} else if i == 2 {} else if i == 3 {} else if i == 4 {} else {}
    }
    assert forall|i: int, k: int| 0 <= i < 6 && 0 <= k < 6 && i != k implies names[i] != names[k] by {
        if names[i] == names[k] {
            assert(names[i].len() == names[k].len());
            assert(names[i][0] == names[k][0]);
            assert(names[i][1] == names[k][1]);
        }
    }
    lemma_field_is_at(j, "id"@, 0, |v: JsonValue| str_json(v, t.id@));
    lemma_field_is_at(j, "permalink"@, 1, |v: JsonValue| opt_json(v, opt_view(t.permalink)));
    lemma_field_is_at(j, "reply_to_id"@, 2, |v: JsonValue| opt_json(v, opt_view(t.reply_to_id)));
    lemma_field_is_at(j, "text"@, 3, |v: JsonValue| opt_json(v, opt_view(t.text)));
    lemma_field_is_at(j, "timestamp"@, 4, |v: JsonValue| opt_json(v, opt_view(t.timestamp)));
    lemma_field_is_at(j, "username"@, 5, |v: JsonValue| opt_json(v, opt_view(t.username)));
}

/// What `me replies` reports.
pub fn replies_output(live: bool, replies: &Vec<OwnReplyItem>) -> (r: CommandOutput)
    ensures
        r.command@ == "me replies"@,
        r.human@ == replies_text(if live { "live"@ } else { "cache"@ }, replies@),
        object_len(r.data) == 2,
        has_key(r.data, 0, "replies"@) && field_value(r.data, 0) is Array && field_value(
            r.data,
            0,
        )->Array_0@.len() == replies@.len() && forall|i: int|
            0 <= i < replies@.len() ==> own_reply_data_ok(
                #[trigger] field_value(r.data, 0)->Array_0@[i],
                replies@[i],
            ),
        has_key(r.data, 1, "source"@) && str_json(
            field_value(r.data, 1),
            if live {
                "live"@
            } else {
                "cache"@
            },
        ),
{
    let source = if live {
        "live"
    } else {
        "cache"
    };
    let human = format_replies_human(source, replies);
    let mut items: Vec<JsonValue> = Vec::new();
    let mut i: usize = 0;
    while i < replies.len()
        invariant
            i <= replies.len(),
            items@.len() == i,
            forall|k: int| 0 <= k < i ==> own_reply_data_ok(#[trigger] items@[k], replies@[k]),
        decreases replies.len() - i,
    {
        let t = &replies[i];
        let mut v: Vec<(String, JsonValue)> = Vec::new();
        v.push(entry("id", json_str(t.id.as_str())));
        v.push(entry("permalink", json_opt_str(&t.permalink)));
        v.push(entry("reply_to_id", json_opt_str(&t.reply_to_id)));
        v.push(entry("text", json_opt_str(&t.text)));
        v.push(entry("timestamp", json_opt_str(&t.timestamp)));
        v.push(entry("username", json_opt_str(&t.username)));
        items.push(JsonValue::Object(v));
        i = i + 1;
    }
    let mut v: Vec<(String, JsonValue)> = Vec::new();
    v.push(entry("replies", JsonValue::Array(items)));
    v.push(entry("source", json_str(source)));
    CommandOutput { command: owned("me replies"), human, data: JsonValue::Object(v) }
}

} // verus!
