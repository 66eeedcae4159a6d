//! `search posts`: keyword search over public posts, cached per query and
//! type.
use vstd::prelude::*;

use crate::cli::me::require_access_token;
use crate::client::SearchResultItem;
use crate::error::{CliError, ErrorCategory};
use crate::output::{
    entry, field_is, field_value, lemma_field_is_at, has_key, json_opt_int, json_opt_str, json_str, object_len, opt_int_json,
    opt_json, str_json, CommandOutput, JsonValue,
};
use crate::store::statements::opt_view;
use crate::store::SearchResultRow;
use crate::text::{
    dec_int, dec_nat, push_decimal_u64, is_blank, join_strings, join_with, owned, push_decimal_i64, push_str, str_eq,
    strings_view, take_chars, take_chars_exec, trim_is_empty,
};
use crate::trusted::{to_uppercase, uppercase_of};

verus! {

pub enum SearchSubcommand {
    Posts(SearchPostsArgs),
}

pub struct SearchPostsArgs {
    pub query: String,
    /// `top` or `recent`, in any case.
    pub search_type: String,
    pub limit: usize,
    pub refresh: bool,
}

/// The search type as the API takes it: the given type upper-cased.
pub open spec fn api_search_type(args: SearchPostsArgs) -> Seq<char> {
    uppercase_of(args.search_type@)
}

/// Checks a search: a query with content, a type of `top` or `recent` (in
/// any case) and a limit of at least one; returns the upper-cased type.
pub fn validate_search_args(args: &SearchPostsArgs) -> (r: Result<String, CliError>)
    ensures
        r is Ok <==> (!is_blank(args.query@) && (api_search_type(*args) == "TOP"@ || api_search_type(
            *args,
        ) == "RECENT"@) && args.limit >= 1),
        r matches Ok(t) ==> t@ == api_search_type(*args),
        r matches Err(e) ==> e.category == ErrorCategory::Validation && e.message@ == (if is_blank(
            args.query@,
        ) {
            "search query must be non-empty"@
        } else if !(api_search_type(*args) == "TOP"@ || api_search_type(*args) == "RECENT"@) {
            "search type must be top or recent"@
        } else {
            "limit must be >= 1"@
        }),
{
    if trim_is_empty(args.query.as_str()) {
        return Err(CliError::new(ErrorCategory::Validation, "search query must be non-empty"));
    }
    let search_type = to_uppercase(args.search_type.as_str());
    if !str_eq(search_type.as_str(), "TOP") && !str_eq(search_type.as_str(), "RECENT") {
        return Err(CliError::new(ErrorCategory::Validation, "search type must be top or recent"));
    }
    if args.limit == 0 {
        return Err(CliError::new(ErrorCategory::Validation, "limit must be >= 1"));
    }
    Ok(search_type)
}

/// A search result as it is shown.
pub struct SearchPostItem {
    pub id: String,
    pub username: Option<String>,
    pub text: Option<String>,
    pub timestamp: Option<String>,
    pub permalink: Option<String>,
    pub like_count: Option<i64>,
    pub reply_count: Option<i64>,
}

pub open spec fn item_is_result(it: SearchPostItem, r: SearchResultItem) -> bool {
    &&& it.id@ == r.id@
    &&& opt_view(it.username) == opt_view(r.username)
    &&& opt_view(it.text) == opt_view(r.text)
    &&& opt_view(it.timestamp) == opt_view(r.timestamp)
    &&& opt_view(it.permalink) == opt_view(r.permalink)
    &&& it.like_count == r.like_count
    &&& it.reply_count == r.reply_count
}

pub open spec fn item_is_row(it: SearchPostItem, r: SearchResultRow) -> bool {
    &&& it.id@ == r.threads_post_id@
    &&& opt_view(it.username) == opt_view(r.username)
    &&& opt_view(it.text) == opt_view(r.text)
    &&& opt_view(it.timestamp) == opt_view(r.timestamp)
    &&& opt_view(it.permalink) == opt_view(r.permalink)
    &&& it.like_count == r.like_count
    &&& it.reply_count == r.reply_count
}

fn clone_opt(o: &Option<String>) -> (r: Option<String>)
    ensures
        opt_view(r) == opt_view(*o),
{
    match o {
        Some(s) => Some(s.clone()),
        None => None,
    }
}

fn item_from_result(r: &SearchResultItem) -> (it: SearchPostItem)
    ensures
        item_is_result(it, *r),
{
    SearchPostItem {
        id: r.id.clone(),
        username: clone_opt(&r.username),
        text: clone_opt(&r.text),
        timestamp: clone_opt(&r.timestamp),
        permalink: clone_opt(&r.permalink),
        like_count: r.like_count,
        reply_count: r.reply_count,
    }
}

fn item_from_row(r: &SearchResultRow) -> (it: SearchPostItem)
    ensures
        item_is_row(it, *r),
{
    SearchPostItem {
        id: r.threads_post_id.clone(),
        username: clone_opt(&r.username),
        text: clone_opt(&r.text),
        timestamp: clone_opt(&r.timestamp),
        permalink: clone_opt(&r.permalink),
        like_count: r.like_count,
        reply_count: r.reply_count,
    }
}

/// The first `limit` results of a fetched page.
pub fn live_items(data: &Vec<SearchResultItem>, limit: usize) -> (r: Vec<SearchPostItem>)
    ensures
        r@.len() == (if data@.len() <= limit {
            data@.len() as int
        } else {
            limit as int
        }),
        forall|i: int| 0 <= i < r@.len() ==> item_is_result(#[trigger] r@[i], data@[i]),
{
    let mut out: Vec<SearchPostItem> = Vec::new();
    let mut i: usize = 0;
    while i < data.len() && i < limit
        invariant
            i <= data.len(),
            i <= limit,
            out@.len() == i,
            forall|k: int| 0 <= k < i ==> item_is_result(#[trigger] out@[k], data@[k]),
        decreases data.len() - i,
    {
        out.push(item_from_result(&data[i]));
        i = i + 1;
    }
    out
}

/// The stored results, in order.
pub fn cached_items(rows: &Vec<SearchResultRow>) -> (r: Vec<SearchPostItem>)
    ensures
        r@.len() == rows@.len(),
        forall|i: int| 0 <= i < r@.len() ==> item_is_row(#[trigger] r@[i], rows@[i]),
{
    let mut out: Vec<SearchPostItem> = Vec::new();
    let mut i: usize = 0;
    while i < rows.len()
        invariant
            i <= rows.len(),
            out@.len() == i,
            forall|k: int| 0 <= k < i ==> item_is_row(#[trigger] out@[k], rows@[k]),
        decreases rows.len() - i,
    {
        out.push(item_from_row(&rows[i]));
        i = i + 1;
    }
    out
}

/// The cache rows of a fetched page: every result, with its text
/// (`raw_jsons[i]` for `data[i]`).
pub fn cache_rows(data: &Vec<SearchResultItem>, raw_jsons: &Vec<String>) -> (r: Vec<(String, Option<String>, Option<String>, Option<String>, Option<String>, Option<i64>, Option<i64>, String)>)
    requires
        raw_jsons@.len() == data@.len(),
    ensures
        r@.len() == data@.len(),
        forall|i: int|
            0 <= i < r@.len() ==> {
                let row = #[trigger] r@[i];
                &&& row.0@ == data@[i].id@
                &&& opt_view(row.1) == opt_view(data@[i].username)
                &&& opt_view(row.2) == opt_view(data@[i].text)
                &&& opt_view(row.3) == opt_view(data@[i].permalink)
                &&& opt_view(row.4) == opt_view(data@[i].timestamp)
                &&& row.5 == data@[i].like_count
                &&& row.6 == data@[i].reply_count
                &&& row.7@ == raw_jsons@[i]@
            },
{
    let mut out: Vec<(String, Option<String>, Option<String>, Option<String>, Option<String>, Option<i64>, Option<i64>, String)> = Vec::new();
    let mut i: usize = 0;
    while i < data.len()
        invariant
            i <= data.len(),
            raw_jsons@.len() == data@.len(),
            out@.len() == i,
            forall|k: int|
                0 <= k < i ==> {
                    let row = #[trigger] out@[k];
                    &&& row.0@ == data@[k].id@
                    &&& opt_view(row.1) == opt_view(data@[k].username)
                    &&& opt_view(row.2) == opt_view(data@[k].text)
                    &&& opt_view(row.3) == opt_view(data@[k].permalink)
                    &&& opt_view(row.4) == opt_view(data@[k].timestamp)
                    &&& row.5 == data@[k].like_count
                    &&& row.6 == data@[k].reply_count
                    &&& row.7@ == raw_jsons@[k]@
                },
        decreases data.len() - i,
    {
        let item = &data[i];
        out.push(
            (
                item.id.clone(),
                clone_opt(&item.username),
                clone_opt(&item.text),
                clone_opt(&item.permalink),
                clone_opt(&item.timestamp),
                item.like_count,
                item.reply_count,
                raw_jsons[i].clone(),
            ),
        );
        i = i + 1;
    }
    out
}

pub open spec fn or_text(o: Option<Seq<char>>, default: Seq<char>) -> Seq<char> {
    match o {
        Some(s) => s,
        None => default,
    }
}

pub open spec fn or_zero(o: Option<i64>) -> int {
    match o {
        Some(n) => n as int,
        None => 0,
    }
}

/// The line of one result: id, author, the text cut to 80 characters, and
/// the counts.
pub open spec fn search_item_line(it: SearchPostItem) -> Seq<char> {
    "  ["@ + it.id@ + "] @"@ + or_text(opt_view(it.username), "unknown"@) + ": "@ + take_chars(
        or_text(opt_view(it.text), Seq::empty()),
        80,
    ) + " (♥"@ + dec_int(or_zero(it.like_count)) + " 💬"@ + dec_int(or_zero(it.reply_count)) + ")"@
}

pub open spec fn search_header(query: Seq<char>, search_type: Seq<char>, source: Seq<char>, n: nat) -> Seq<char> {
    "Search '"@ + query + "' ("@ + search_type + ") from "@ + source + ": "@ + dec_nat(n)
        + " results"@
}

/// The human text of a search: a line saying there is nothing, or a header
/// and a line per result.
pub open spec fn search_text(query: Seq<char>, search_type: Seq<char>, source: Seq<char>, items: Seq<SearchPostItem>) -> Seq<char> {
    if items.len() == 0 {
        "Search '"@ + query + "' ("@ + search_type + "): no results (source="@ + source + ")"@
    } else {
        join_with(
            seq![search_header(query, search_type, source, items.len())] + items.map_values(
                |it: SearchPostItem| search_item_line(it),
            ),
            "\n"@,
        )
    }
}

fn push_or(out: &mut String, o: &Option<String>, default: &str)
    ensures
        final(out)@ == old(out)@ + or_text(opt_view(*o), default@),
{
    match o {
        Some(s) => push_str(out, s.as_str()),
        None => push_str(out, default),
    }
}

fn opt_or_empty(o: &Option<String>) -> (r: String)
    ensures
        r@ == or_text(opt_view(*o), Seq::empty()),
{
    match o {
        Some(s) => s.clone(),
        None => String::new(),
    }
}

fn count_or_zero(o: Option<i64>) -> (r: i64)
    ensures
        r as int == or_zero(o),
{
    match o {
        Some(n) => n,
        None => 0,
    }
}

fn item_line(it: &SearchPostItem) -> (r: String)
    ensures
        r@ == search_item_line(*it),
{
    let mut out = owned("  [");
    push_str(&mut out, it.id.as_str());
    push_str(&mut out, "] @");
    push_or(&mut out, &it.username, "unknown");
    push_str(&mut out, ": ");
    let text = opt_or_empty(&it.text);
    let preview = take_chars_exec(text.as_str(), 80);
    push_str(&mut out, preview.as_str());
    push_str(&mut out, " (♥");
    push_decimal_i64(&mut out, count_or_zero(it.like_count));
    push_str(&mut out, " 💬");
    push_decimal_i64(&mut out, count_or_zero(it.reply_count));
    push_str(&mut out, ")");
    out
}

pub fn format_search_human(query: &str, search_type: &str, source: &str, items: &Vec<SearchPostItem>) -> (r: String)
    ensures
        r@ == search_text(query@, search_type@, source@, items@),
{
    if items.len() == 0 {
        let mut out = owned("Search '");
        push_str(&mut out, query);
        push_str(&mut out, "' (");
        push_str(&mut out, search_type);
        push_str(&mut out, "): no results (source=");
        push_str(&mut out, source);
        push_str(&mut out, ")");
        return out;
    }
    let mut header = owned("Search '");
    push_str(&mut header, query);
    push_str(&mut header, "' (");
    push_str(&mut header, search_type);
    push_str(&mut header, ") from ");
    push_str(&mut header, source);
    push_str(&mut header, ": ");
    push_decimal_u64(&mut header, items.len() as u64);
    push_str(&mut header, " results");
    let ghost h = search_header(query@, search_type@, source@, items@.len());
    assert(header@ == h);
    let mut lines: Vec<String> = Vec::new();
    lines.push(header);
    let mut i: usize = 0;
    while i < items.len()
        invariant
            i <= items.len(),
            strings_view(lines@) == seq![h] + items@.subrange(0, i as int).map_values(
                |it: SearchPostItem| search_item_line(it),
            ),
        decreases items.len() - i,
    {
        let line = item_line(&items[i]);
        let ghost before = lines@;
        lines.push(line);
        assert(items@.subrange(0, i + 1).map_values(|it: SearchPostItem| search_item_line(it))
            =~= items@.subrange(0, i as int).map_values(|it: SearchPostItem| search_item_line(it)).push(
            search_item_line(items@[i as int]),
        ));
        assert(strings_view(lines@) =~= strings_view(before).push(line@));
        i = i + 1;
    }
    assert(items@.subrange(0, items@.len() as int) =~= items@);
    join_strings(&lines, "\n")
}

/// A result as data.
pub open spec fn item_data_ok(j: JsonValue, it: SearchPostItem) -> bool {
    &&& object_len(j) == 7
    &&& has_key(j, 0, "id"@) && str_json(field_value(j, 0), it.id@)
    &&& has_key(j, 1, "like_count"@) && opt_int_json(field_value(j, 1), it.like_count)
    &&& has_key(j, 2, "permalink"@) && opt_json(field_value(j, 2), opt_view(it.permalink))
    &&& has_key(j, 3, "reply_count"@) && opt_int_json(field_value(j, 3), it.reply_count)
    &&& has_key(j, 4, "text"@) && opt_json(field_value(j, 4), opt_view(it.text))
    &&& has_key(j, 5, "timestamp"@) && opt_json(field_value(j, 5), opt_view(it.timestamp))
    &&& has_key(j, 6, "username"@) && opt_json(field_value(j, 6), opt_view(it.username))
}

/// A search result record carries each value under its own name.
pub proof fn law_search_item_fields(j: JsonValue, it: SearchPostItem)
    requires
        item_data_ok(j, it),
    ensures
        field_is(j, "id"@, |v: JsonValue| str_json(v, it.id@)),
        field_is(j, "like_count"@, |v: JsonValue| opt_int_json(v, it.like_count)),
        field_is(j, "permalink"@, |v: JsonValue| opt_json(v, opt_view(it.permalink))),
        field_is(j, "reply_count"@, |v: JsonValue| opt_int_json(v, it.reply_count)),
        field_is(j, "text"@, |v: JsonValue| opt_json(v, opt_view(it.text))),
        field_is(j, "timestamp"@, |v: JsonValue| opt_json(v, opt_view(it.timestamp))),
        field_is(j, "username"@, |v: JsonValue| opt_json(v, opt_view(it.username))),
{
    reveal_strlit("id");
    reveal_strlit("like_count");
    reveal_strlit("permalink");
    reveal_strlit("reply_count");
    reveal_strlit("text");
    reveal_strlit("timestamp");
    reveal_strlit("username");
    let f = j->Object_0@;
    let names = seq![
        "id"@,
        "like_count"@,
        "permalink"@,
        "reply_count"@,
        "text"@,
        "timestamp"@,
        "username"@,
    ];
    assert forall|i: int| 0 <= i < 7 implies #[trigger] f[i].0@ == names[i] by {
        if i == 0 {} else if i == 1 {} else if i == 2 {} else if i == 3 {} else if i == 4 {} else if i == 5 {} else {}
    }
    assert forall|i: int, k: int| 0 <= i < 7 && 0 <= k < 7 && i != k implies names[i] != names[k] by {
        if names[i] == names[k] {
            assert(names[i].len() == names[k].len());
            assert(names[i][0] == names[k][0]);
            assert(names[i][1] == names[k][1]);
        }
    }
    lemma_field_is_at(j, "id"@, 0, |v: JsonValue| str_json(v, it.id@));
    lemma_field_is_at(j, "like_count"@, 1, |v: JsonValue| opt_int_json(v, it.like_count));
    lemma_field_is_at(j, "permalink"@, 2, |v: JsonValue| opt_json(v, opt_view(it.permalink)));
    lemma_field_is_at(j, "reply_count"@, 3, |v: JsonValue| opt_int_json(v, it.reply_count));
    lemma_field_is_at(j, "text"@, 4, |v: JsonValue| opt_json(v, opt_view(it.text)));
    lemma_field_is_at(j, "timestamp"@, 5, |v: JsonValue| opt_json(v, opt_view(it.timestamp)));
    lemma_field_is_at(j, "username"@, 6, |v: JsonValue| opt_json(v, opt_view(it.username)));
}

fn item_data(it: &SearchPostItem) -> (j: JsonValue)
    ensures
        item_data_ok(j, *it),
{
    let mut v: Vec<(String, JsonValue)> = Vec::new();
    v.push(entry("id", json_str(it.id.as_str())));
    v.push(entry("like_count", json_opt_int(it.like_count)));
    v.push(entry("permalink", json_opt_str(&it.permalink)));
    v.push(entry("reply_count", json_opt_int(it.reply_count)));
    v.push(entry("text", json_opt_str(&it.text)));
    v.push(entry("timestamp", json_opt_str(&it.timestamp)));
    v.push(entry("username", json_opt_str(&it.username)));
    JsonValue::Object(v)
}

/// What `search posts` reports.
pub fn search_output(query: &str, search_type: &str, live: bool, items: &Vec<SearchPostItem>) -> (r: CommandOutput)
    ensures
        r.command@ == "search posts"@,
        r.human@ == search_text(query@, search_type@, if live { "live"@ } else { "cache"@ }, items@),
        object_len(r.data) == 4,
        has_key(r.data, 0, "query"@) && str_json(field_value(r.data, 0), query@),
        has_key(r.data, 1, "results"@) && field_value(r.data, 1) is Array && field_value(
            r.data,
            1,
        )->Array_0@.len() == items@.len() && forall|i: int|
            0 <= i < items@.len() ==> item_data_ok(
                #[trigger] field_value(r.data, 1)->Array_0@[i],
                items@[i],
            ),
        has_key(r.data, 2, "search_type"@) && str_json(field_value(r.data, 2), search_type@),
        has_key(r.data, 3, "source"@) && str_json(
            field_value(r.data, 3),
            if live {
                "live"@
            } else {
                "cache"@
            },
        ),
{
    let source = if live {
        "live"
    } else {
        "cache"
    };
    let human = format_search_human(query, search_type, source, items);
    let mut results: Vec<JsonValue> = Vec::new();
    let mut i: usize = 0;
    while i < items.len()
        invariant
            i <= items.len(),
            results@.len() == i,
            forall|k: int| 0 <= k < i ==> item_data_ok(#[trigger] results@[k], items@[k]),
        decreases items.len() - i,
    {
        results.push(item_data(&items[i]));
        i = i + 1;
    }
    let mut v: Vec<(String, JsonValue)> = Vec::new();
    v.push(entry("query", json_str(query)));
    v.push(entry("results", JsonValue::Array(results)));
    v.push(entry("search_type", json_str(search_type)));
    v.push(entry("source", json_str(source)));
    CommandOutput { command: owned("search posts"), human, data: JsonValue::Object(v) }
}

} // verus!
