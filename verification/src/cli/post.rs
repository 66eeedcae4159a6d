//! `post get`, `post insights` and `post replies`: fetching a post, its
//! metrics and its replies, from the API or from what is stored.
use vstd::prelude::*;

use crate::client::{Cursors, InsightMetric, Paging, PostDetails, PostInsightsResponse, ReplyItem};
use crate::error::{CliError, ErrorCategory};
use crate::output::{
    entry, field_is, field_opt_int, field_text, field_value, lemma_field_is_at, lemma_field_opt_int_at,
    lemma_field_text_at, has_key, int_json, json_int, json_opt_int, json_opt_str, json_str,
    json_usize, object_len, opt_int_json, opt_json, str_json, CommandOutput, JsonValue,
};
use crate::store::statements::{opt_view, params_view, SqlParam, Statement};
use crate::store::{InsightRow, PostRow, ReplyRow, Store};
use crate::text::{
    chars_of, dec_int, dec_nat, is_blank, owned, push_decimal_i64, push_decimal_u64, push_str,
    str_eq, strings_view, take_chars, take_chars_exec, trim_is_empty,
};

verus! {

pub enum PostSubcommand {
    Get(GetArgs),
    Insights(InsightsArgs),
    Replies(RepliesArgs),
}

pub struct GetArgs {
    pub id: String,
}

pub struct InsightsArgs {
    pub id: String,
    pub refresh: bool,
}

pub struct RepliesArgs {
    pub id: String,
    pub refresh: bool,
    pub limit: usize,
}

// ---------------------------------------------------------------------------
// Arguments and the token
// ---------------------------------------------------------------------------

/// A post id must hold something besides white space.
pub fn validate_post_id(id: &str) -> (r: Result<(), CliError>)
    ensures
        r is Ok <==> !is_blank(id@),
        r matches Err(e) ==> e.category == ErrorCategory::Validation && e.message@
            == "post id must be non-empty"@,
{
    if trim_is_empty(id) {
        return Err(CliError::new(ErrorCategory::Validation, "post id must be non-empty"));
    }
    Ok(())
}

/// The arguments of `post replies`: a post id, and a limit of at least one.
pub fn validate_replies_args(args: &RepliesArgs) -> (r: Result<(), CliError>)
    ensures
        r is Ok <==> (!is_blank(args.id@) && args.limit >= 1),
        r matches Err(e) ==> e.category == ErrorCategory::Validation && e.message@ == (if is_blank(
            args.id@,
        ) {
            "post id must be non-empty"@
        } else {
            "limit must be >= 1"@
        }),
{
    validate_post_id(args.id.as_str())?;
    if args.limit == 0 {
        return Err(CliError::new(ErrorCategory::Validation, "limit must be >= 1"));
    }
    Ok(())
}

/// Fetching needs a stored access token.
pub fn require_access_token(token: Option<String>) -> (r: Result<String, CliError>)
    ensures
        token matches Some(t) ==> (r matches Ok(s) && s@ == t@),
        token is None ==> (r matches Err(e) && e.category == ErrorCategory::Auth && e.message@
            == "no access token found; run auth login first"@),
{
    match token {
        Some(t) => Ok(t),
        None => Err(CliError::new(ErrorCategory::Auth, "no access token found; run auth login first")),
    }
}

// ---------------------------------------------------------------------------
// Text
// ---------------------------------------------------------------------------

/// At most `max` characters of `value`; a longer value is cut and ends with
/// an ellipsis.
pub open spec fn truncated(value: Seq<char>, max: int) -> Seq<char> {
    if value.len() <= max {
        value
    } else {
        take_chars(value, max).push('…')
    }
}

pub fn truncate(value: &str, max: usize) -> (r: String)
    ensures
        r@ == truncated(value@, max as int),
{
    let v = chars_of(value);
    if v.len() <= max {
        owned(value)
    } else {
        let mut out = take_chars_exec(value, max);
        out.push('…');
        out
    }
}

/// `{:?}` of an optional count: `Some(n)` or `None`.
pub open spec fn debug_opt(o: Option<i64>) -> Seq<char> {
    match o {
        Some(n) => "Some("@ + dec_int(n as int) + ")"@,
        None => "None"@,
    }
}

fn push_debug_opt(out: &mut String, o: Option<i64>)
    ensures
        final(out)@ == old(out)@ + debug_opt(o),
{
    match o {
        Some(n) => {
            push_str(out, "Some(");
            push_decimal_i64(out, n);
            push_str(out, ")");
        },
        None => push_str(out, "None"),
    }
}

// ---------------------------------------------------------------------------
// post get
// ---------------------------------------------------------------------------

/// The line for a fetched post: its id and, when it has text, the text cut
/// to 80 characters.
pub open spec fn post_get_line(id: Seq<char>, text: Option<Seq<char>>) -> Seq<char> {
    "Post "@ + id + " fetched."@ + match text {
        Some(t) => " "@ + truncated(t, 80),
        None => Seq::empty(),
    }
}

pub fn format_post_get_human(id: &str, text: &Option<String>) -> (r: String)
    ensures
        r@ == post_get_line(id@, opt_view(*text)),
{
    let mut out = owned("Post ");
    push_str(&mut out, id);
    push_str(&mut out, " fetched.");
    match text {
        Some(t) => {
            push_str(&mut out, " ");
            let cut = truncate(t.as_str(), 80);
            push_str(&mut out, cut.as_str());
        },
        None => {},
    }
    out
}

/// The data of `post get`.
pub open spec fn post_get_data_ok(
    j: JsonValue,
    accessible: bool,
    id: Seq<char>,
    permalink: Option<Seq<char>>,
    shortcode: Option<Seq<char>>,
    text: Option<Seq<char>>,
    timestamp: Option<Seq<char>>,
    username: Option<Seq<char>>,
) -> bool {
    &&& object_len(j) == 7
    &&& has_key(j, 0, "accessible"@) && field_value(j, 0) == JsonValue::Bool(accessible)
    &&& has_key(j, 1, "id"@) && str_json(field_value(j, 1), id)
    &&& has_key(j, 2, "permalink"@) && opt_json(field_value(j, 2), permalink)
    &&& has_key(j, 3, "shortcode"@) && opt_json(field_value(j, 3), shortcode)
    &&& has_key(j, 4, "text"@) && opt_json(field_value(j, 4), text)
    &&& has_key(j, 5, "timestamp"@) && opt_json(field_value(j, 5), timestamp)
    &&& has_key(j, 6, "username"@) && opt_json(field_value(j, 6), username)
}

/// A failure of the post fetch that means the post is refused to this
/// token (as for a post of another account), rather than unreachable.
pub open spec fn refused(e: CliError) -> bool {
    e.category == ErrorCategory::Auth || e.category == ErrorCategory::Api
}

/// What `post get` reports for the result of one fetch of post `id`: the
/// post; or, when the API or the token refused it, that it is not
/// accessible; any other failure is returned.
pub open spec fn post_get_reports(
    r: Result<CommandOutput, CliError>,
    id: Seq<char>,
    fetched: Result<PostDetails, CliError>,
) -> bool {
    &&& fetched matches Ok(d) ==> (r matches Ok(o) && o.command@ == "post get"@ && o.human@
        == post_get_line(d.id@, opt_view(d.text)) && post_get_data_ok(
        o.data,
        true,
        d.id@,
        opt_view(d.permalink),
        opt_view(d.shortcode),
        opt_view(d.text),
        opt_view(d.timestamp),
        opt_view(d.username),
    ))
    &&& fetched matches Err(e) ==> if refused(e) {
        r matches Ok(o) && o.command@ == "post get"@ && o.human@ == "Post "@ + id
            + " is not accessible: "@ + e.message@ && post_get_data_ok(
            o.data,
            false,
            id,
            None,
            None,
            None,
            None,
            None,
        )
    } else {
        r == Err::<CommandOutput, CliError>(e)
    }
}

/// The `post get` record carries each value under its own name.
pub proof fn law_post_get_fields(
    j: JsonValue,
    accessible: bool,
    id: Seq<char>,
    permalink: Option<Seq<char>>,
    shortcode: Option<Seq<char>>,
    text: Option<Seq<char>>,
    timestamp: Option<Seq<char>>,
    username: Option<Seq<char>>,
)
    requires
        post_get_data_ok(j, accessible, id, permalink, shortcode, text, timestamp, username),
    ensures
        field_is(j, "accessible"@, |v: JsonValue| v == JsonValue::Bool(accessible)),
        field_is(j, "id"@, |v: JsonValue| str_json(v, id)),
        field_is(j, "permalink"@, |v: JsonValue| opt_json(v, permalink)),
        field_is(j, "shortcode"@, |v: JsonValue| opt_json(v, shortcode)),
        field_is(j, "text"@, |v: JsonValue| opt_json(v, text)),
        field_is(j, "timestamp"@, |v: JsonValue| opt_json(v, timestamp)),
        field_is(j, "username"@, |v: JsonValue| opt_json(v, username)),
{
    reveal_strlit("accessible");
    reveal_strlit("id");
    reveal_strlit("permalink");
    reveal_strlit("shortcode");
    reveal_strlit("text");
    reveal_strlit("timestamp");
    reveal_strlit("username");
    let f = j->Object_0@;
    let names = seq![
        "accessible"@,
        "id"@,
        "permalink"@,
        "shortcode"@,
        "text"@,
        "timestamp"@,
        "username"@,
    ];
    assert forall|i: int| 0 <= i < 7 implies #[trigger] f[i].0@ == names[i] by {
        if i == 0 {} else if i == 1 {} else if i == 2 {} else if i == 3 {} else if i == 4 {}
        else if i == 5 {} else {}
    }
    assert forall|i: int, k: int| 0 <= i < 7 && 0 <= k < 7 && i != k implies names[i] != names[k] by {
        if names[i] == names[k] {
            assert(names[i].len() == names[k].len());
            assert(names[i][0] == names[k][0]);
            assert(names[i][1] == names[k][1]);
        }
    }
    lemma_field_is_at(j, "accessible"@, 0, |v: JsonValue| v == JsonValue::Bool(accessible));
    lemma_field_is_at(j, "id"@, 1, |v: JsonValue| str_json(v, id));
    lemma_field_is_at(j, "permalink"@, 2, |v: JsonValue| opt_json(v, permalink));
    lemma_field_is_at(j, "shortcode"@, 3, |v: JsonValue| opt_json(v, shortcode));
    lemma_field_is_at(j, "text"@, 4, |v: JsonValue| opt_json(v, text));
    lemma_field_is_at(j, "timestamp"@, 5, |v: JsonValue| opt_json(v, timestamp));
    lemma_field_is_at(j, "username"@, 6, |v: JsonValue| opt_json(v, username));
}

/// What one fetch gives `post get`: a fetched post is accessible and
/// reported with its own fields; a post refused by the API or the token
/// (an Auth or Api error) is reported, under the asked id, as not
/// accessible with no fields; any other failure comes back unchanged.
pub proof fn law_post_get_outcome(r: Result<CommandOutput, CliError>, id: Seq<char>, fetched: Result<PostDetails, CliError>)
    requires
        post_get_reports(r, id, fetched),
    ensures
        fetched is Ok ==> (r is Ok && field_is(
            r->Ok_0.data,
            "accessible"@,
            |v: JsonValue| v == JsonValue::Bool(true),
        ) && field_is(r->Ok_0.data, "id"@, |v: JsonValue| str_json(v, fetched->Ok_0.id@)) && field_is(
            r->Ok_0.data,
            "text"@,
            |v: JsonValue| opt_json(v, opt_view(fetched->Ok_0.text)),
        ) && field_is(
            r->Ok_0.data,
            "permalink"@,
            |v: JsonValue| opt_json(v, opt_view(fetched->Ok_0.permalink)),
        )),
        (fetched is Err && (fetched->Err_0.category == ErrorCategory::Auth || fetched->Err_0.category
            == ErrorCategory::Api)) ==> (r is Ok && field_is(
            r->Ok_0.data,
            "accessible"@,
            |v: JsonValue| v == JsonValue::Bool(false),
        ) && field_is(r->Ok_0.data, "id"@, |v: JsonValue| str_json(v, id)) && field_is(
            r->Ok_0.data,
            "text"@,
            |v: JsonValue| v is Null,
        ) && field_is(r->Ok_0.data, "permalink"@, |v: JsonValue| v is Null)),
        (fetched is Err && !(fetched->Err_0.category == ErrorCategory::Auth || fetched->Err_0.category
            == ErrorCategory::Api)) ==> r == Err::<CommandOutput, CliError>(fetched->Err_0),
{
    match fetched {
        Ok(d) => {
            let o = r->Ok_0;
            law_post_get_fields(
                o.data,
                true,
                d.id@,
                opt_view(d.permalink),
                opt_view(d.shortcode),
                opt_view(d.text),
                opt_view(d.timestamp),
                opt_view(d.username),
            );
        },
        Err(e) => {
            if e.category == ErrorCategory::Auth || e.category == ErrorCategory::Api {
                let o = r->Ok_0;
                law_post_get_fields(o.data, false, id, None, None, None, None, None);
            }
        },
    }
}

/// What `post get` reports for one fetch result.
pub fn post_get_outcome(id: &str, fetched: Result<PostDetails, CliError>) -> (r: Result<CommandOutput, CliError>)
    ensures
        post_get_reports(r, id@, fetched),
        fetched is Ok ==> (r is Ok && field_is(
            r->Ok_0.data,
            "accessible"@,
            |v: JsonValue| v == JsonValue::Bool(true),
        )),
        (fetched is Err && (fetched->Err_0.category == ErrorCategory::Auth || fetched->Err_0.category
            == ErrorCategory::Api)) ==> (r is Ok && field_is(
            r->Ok_0.data,
            "accessible"@,
            |v: JsonValue| v == JsonValue::Bool(false),
        )),
        (fetched is Err && !(fetched->Err_0.category == ErrorCategory::Auth || fetched->Err_0.category
            == ErrorCategory::Api)) ==> r == Err::<CommandOutput, CliError>(fetched->Err_0),
{
    let ghost fetched0 = fetched;
    match fetched {
        Ok(d) => {
            let human = format_post_get_human(d.id.as_str(), &d.text);
            let mut v: Vec<(String, JsonValue)> = Vec::new();
            v.push(entry("accessible", JsonValue::Bool(true)));
            v.push(entry("id", json_str(d.id.as_str())));
            v.push(entry("permalink", json_opt_str(&d.permalink)));
            v.push(entry("shortcode", json_opt_str(&d.shortcode)));
            v.push(entry("text", json_opt_str(&d.text)));
            v.push(entry("timestamp", json_opt_str(&d.timestamp)));
            v.push(entry("username", json_opt_str(&d.username)));
            let r = Ok(CommandOutput { command: owned("post get"), human, data: JsonValue::Object(v) });
            proof {
                law_post_get_outcome(r, id@, fetched0);
            }
            r
        },
        Err(e) => {
            let refused = match e.category {
                ErrorCategory::Auth | ErrorCategory::Api => true,
                _ => false,
            };
            if !refused {
                return Err(e);
            }
            let mut human = owned("Post ");
            push_str(&mut human, id);
            push_str(&mut human, " is not accessible: ");
            push_str(&mut human, e.message.as_str());
            let mut v: Vec<(String, JsonValue)> = Vec::new();
            v.push(entry("accessible", JsonValue::Bool(false)));
            v.push(entry("id", json_str(id)));
            v.push(entry("permalink", JsonValue::Null));
            v.push(entry("shortcode", JsonValue::Null));
            v.push(entry("text", JsonValue::Null));
            v.push(entry("timestamp", JsonValue::Null));
            v.push(entry("username", JsonValue::Null));
            let r = Ok(CommandOutput { command: owned("post get"), human, data: JsonValue::Object(v) });
            proof {
                law_post_get_outcome(r, id@, fetched0);
            }
            r
        },
    }
}

/// Whether the full fetch was refused, so that the fetch with the reduced
/// field set is to be tried.
pub fn needs_reduced_fetch(full: &Result<PostDetails, CliError>) -> (r: bool)
    ensures
        r <==> (*full matches Err(e) && refused(e)),
{
    match full {
        Ok(_) => false,
        Err(e) => match e.category {
            ErrorCategory::Auth | ErrorCategory::Api => true,
            _ => false,
        },
    }
}

/// What `post get` reports after the full fetch (`full`) and, where that
/// was refused, the fetch with the reduced field set (`reduced`): the post
/// as the fetch that succeeded gives it; when the reduced fetch is refused
/// too, that the post is not accessible, with every field absent; a failure
/// of any other kind is returned.  A reduced result is used only after a
/// refused full fetch; without one, the full result decides.
pub fn post_get_with_fallback(
    id: &str,
    full: Result<PostDetails, CliError>,
    reduced: Option<Result<PostDetails, CliError>>,
) -> (r: Result<CommandOutput, CliError>)
    ensures
        (full matches Err(e) && refused(e) && reduced is Some) ==> post_get_reports(r, id@, reduced->Some_0),
        !(full matches Err(e) && refused(e) && reduced is Some) ==> post_get_reports(r, id@, full),
{
    if needs_reduced_fetch(&full) {
        match reduced {
            Some(res) => post_get_outcome(id, res),
            None => post_get_outcome(id, full),
        }
    } else {
        post_get_outcome(id, full)
    }
}

// ---------------------------------------------------------------------------
// post insights
// ---------------------------------------------------------------------------

/// A snapshot of a post's metrics.
pub struct InsightData {
    pub fetched_at: String,
    pub views: Option<i64>,
    pub likes: Option<i64>,
    pub replies: Option<i64>,
    pub reposts: Option<i64>,
    pub quotes: Option<i64>,
    pub shares: Option<i64>,
}

fn clone_insight(s: &InsightData) -> (r: InsightData)
    ensures
        r == *s,
{
    InsightData {
        fetched_at: s.fetched_at.clone(),
        views: s.views,
        likes: s.likes,
        replies: s.replies,
        reposts: s.reposts,
        quotes: s.quotes,
        shares: s.shares,
    }
}

pub fn to_insight(row: InsightRow) -> (r: InsightData)
    ensures
        r.fetched_at == row.fetched_at,
        r.views == row.views,
        r.likes == row.likes,
        r.replies == row.replies,
        r.reposts == row.reposts,
        r.quotes == row.quotes,
        r.shares == row.shares,
{
    InsightData {
        fetched_at: row.fetched_at,
        views: row.views,
        likes: row.likes,
        replies: row.replies,
        reposts: row.reposts,
        quotes: row.quotes,
        shares: row.shares,
    }
}

/// The value of a metric: the first of its values that is present.
pub open spec fn metric_value(values: Seq<crate::client::InsightValue>) -> Option<i64>
    decreases values.len(),
{
    if values.len() == 0 {
        None
    } else if values[0].value is Some {
        values[0].value
    } else {
        metric_value(values.drop_first())
    }
}

/// The value of the metric named `name`: that of the last metric with that
/// name, `None` when there is none.
pub open spec fn named_metric(metrics: Seq<InsightMetric>, name: Seq<char>) -> Option<i64>
    decreases metrics.len(),
{
    if metrics.len() == 0 {
        None
    } else if metrics.last().name@ == name {
        metric_value(metrics.last().values@)
    } else {
        named_metric(metrics.drop_last(), name)
    }
}

/// A metric's value is its first present value: every value before it is
/// absent, and a metric without any present value has none.
pub proof fn law_metric_value(values: Seq<crate::client::InsightValue>)
    ensures
        metric_value(values) matches Some(x) ==> exists|i: int|
            0 <= i < values.len() && values[i].value == Some(x) && forall|k: int|
                0 <= k < i ==> (#[trigger] values[k]).value is None,
        metric_value(values) is None ==> forall|k: int| 0 <= k < values.len() ==> (#[trigger] values[k]).value is None,
    decreases values.len(),
{
    if values.len() > 0 && values[0].value is None {
        let rest = values.drop_first();
        law_metric_value(rest);
        if metric_value(rest) is Some {
            let i = choose|i: int|
                0 <= i < rest.len() && rest[i].value == metric_value(rest) && forall|k: int|
                    0 <= k < i ==> (#[trigger] rest[k]).value is None;
            assert(values[i + 1] == rest[i]);
            assert forall|k: int| 0 <= k < i + 1 implies (#[trigger] values[k]).value is None by {
                if k > 0 {
                    assert(values[k] == rest[k - 1]);
                }
            }
        } else {
            assert forall|k: int| 0 <= k < values.len() implies (#[trigger] values[k]).value is None by {
                if k > 0 {
                    assert(values[k] == rest[k - 1]);
                }
            }
        }
    } else if values.len() > 0 {
        assert(values[0].value == metric_value(values));
    }
}

/// Each snapshot value comes from the last metric bearing that name; a name
/// that no metric bears gets no value.
pub proof fn law_named_metric(metrics: Seq<InsightMetric>, name: Seq<char>)
    ensures
        (forall|k: int| 0 <= k < metrics.len() ==> (#[trigger] metrics[k]).name@ != name) ==> named_metric(
            metrics,
            name,
        ) is None,
        forall|k: int|
            0 <= k < metrics.len() && (#[trigger] metrics[k]).name@ == name && (forall|m: int|
                k < m < metrics.len() ==> metrics[m].name@ != name) ==> named_metric(metrics, name)
                == metric_value(metrics[k].values@),
    decreases metrics.len(),
{
    if metrics.len() > 0 {
        let init = metrics.drop_last();
        law_named_metric(init, name);
        assert forall|k: int| 0 <= k < init.len() implies #[trigger] init[k] == metrics[k] by {}
        if metrics.last().name@ != name {
            assert forall|k: int|
                0 <= k < metrics.len() && (#[trigger] metrics[k]).name@ == name && (forall|m: int|
                    k < m < metrics.len() ==> metrics[m].name@ != name) implies named_metric(metrics, name)
                == metric_value(metrics[k].values@) by {
                assert(k < metrics.len() - 1);
                assert(init[k] == metrics[k]);
                assert forall|m: int| k < m < init.len() implies init[m].name@ != name by {
                    assert(init[m] == metrics[m]);
                }
            }
        }
    }
}

fn first_value(values: &Vec<crate::client::InsightValue>) -> (r: Option<i64>)
    ensures
        r == metric_value(values@),
{
    let mut i: usize = 0;
    assert(values@.subrange(0, values@.len() as int) =~= values@);
    while i < values.len()
        invariant
            i <= values.len(),
            metric_value(values@) == metric_value(values@.subrange(i as int, values@.len() as int)),
        decreases values.len() - i,
    {
        assert(values@.subrange(i as int, values@.len() as int).drop_first() =~= values@.subrange(
            i + 1,
            values@.len() as int,
        ));
        match values[i].value {
            Some(v) => {
                return Some(v);
            },
            None => {},
        }
        i = i + 1;
    }
    None
}

proof fn lemma_metric_names_distinct()
    ensures
        "views"@ != "likes"@,
        "views"@ != "replies"@,
        "views"@ != "reposts"@,
        "views"@ != "quotes"@,
        "views"@ != "shares"@,
        "likes"@ != "replies"@,
        "likes"@ != "reposts"@,
        "likes"@ != "quotes"@,
        "likes"@ != "shares"@,
        "replies"@ != "reposts"@,
        "replies"@ != "quotes"@,
        "replies"@ != "shares"@,
        "reposts"@ != "quotes"@,
        "reposts"@ != "shares"@,
        "quotes"@ != "shares"@,
{
    reveal_strlit("views");
    reveal_strlit("likes");
    reveal_strlit("replies");
    reveal_strlit("reposts");
    reveal_strlit("quotes");
    reveal_strlit("shares");
    assert("views"@[0] != "likes"@[0]);
    assert("views"@[0] != "replies"@[0]);
    assert("views"@[0] != "reposts"@[0]);
    assert("views"@[0] != "quotes"@[0]);
    assert("views"@[0] != "shares"@[0]);
    assert("likes"@[0] != "replies"@[0]);
    assert("likes"@[0] != "reposts"@[0]);
    assert("likes"@[0] != "quotes"@[0]);
    assert("likes"@[0] != "shares"@[0]);
    assert("replies"@[3] != "reposts"@[3]);
    assert("replies"@[0] != "quotes"@[0]);
    assert("replies"@[0] != "shares"@[0]);
    assert("reposts"@[0] != "quotes"@[0]);
    assert("reposts"@[0] != "shares"@[0]);
    assert("quotes"@[0] != "shares"@[0]);
}

/// The metrics of a response, read at `fetched_at`: each of views, likes,
/// replies, reposts, quotes and shares from the last metric of that name.
pub fn normalize_insights(response: &PostInsightsResponse, fetched_at: String) -> (r: InsightData)
    ensures
        r.fetched_at == fetched_at,
        r.views == named_metric(response.data@, "views"@),
        r.likes == named_metric(response.data@, "likes"@),
        r.replies == named_metric(response.data@, "replies"@),
        r.reposts == named_metric(response.data@, "reposts"@),
        r.quotes == named_metric(response.data@, "quotes"@),
        r.shares == named_metric(response.data@, "shares"@),
{
    let mut data = InsightData {
        fetched_at,
        views: None,
        likes: None,
        replies: None,
        reposts: None,
        quotes: None,
        shares: None,
    };
    let ghost ms = response.data@;
    let mut i: usize = 0;
    while i < response.data.len()
        invariant
            i <= response.data.len(),
            ms == response.data@,
            data.fetched_at == fetched_at,
            data.views == named_metric(ms.subrange(0, i as int), "views"@),
            data.likes == named_metric(ms.subrange(0, i as int), "likes"@),
            data.replies == named_metric(ms.subrange(0, i as int), "replies"@),
            data.reposts == named_metric(ms.subrange(0, i as int), "reposts"@),
            data.quotes == named_metric(ms.subrange(0, i as int), "quotes"@),
            data.shares == named_metric(ms.subrange(0, i as int), "shares"@),
        decreases response.data.len() - i,
    {
        proof {
            lemma_metric_names_distinct();
        }
        let metric = &response.data[i];
        let value = first_value(&metric.values);
        let ghost next = ms.subrange(0, i + 1);
        assert(next.drop_last() =~= ms.subrange(0, i as int));
        assert(next.last() == *metric);
        let name = metric.name.as_str();
        if str_eq(name, "views") {
            data.views = value;
        } else if str_eq(name, "likes") {
            data.likes = value;
        } else if str_eq(name, "replies") {
            data.replies = value;
        } else if str_eq(name, "reposts") {
            data.reposts = value;
        } else if str_eq(name, "quotes") {
            data.quotes = value;
        } else if str_eq(name, "shares") {
            data.shares = value;
        }
        i = i + 1;
    }
    assert(ms.subrange(0, ms.len() as int) =~= ms);
    data
}

/// Insights are fetched when asked to refresh, or when none are stored.
pub fn insights_need_fetch(args: &InsightsArgs, cached: &Option<InsightRow>) -> (r: bool)
    ensures
        r == (args.refresh || cached is None),
{
    args.refresh || cached.is_none()
}

/// The statement that stores a fetched snapshot with the response's text.
pub fn snapshot_statement(store: &Store, post_id: &str, data: &InsightData, raw_json: &str) -> (r: Statement)
    ensures
        r.sql@ == crate::store::statements::INSERT_INSIGHT_SQL@,
        params_view(r.params@) == seq![
            SqlParam::Text(post_id@),
            crate::store::statements::opt_int_param(data.views),
            crate::store::statements::opt_int_param(data.likes),
            crate::store::statements::opt_int_param(data.replies),
            crate::store::statements::opt_int_param(data.reposts),
            crate::store::statements::opt_int_param(data.quotes),
            crate::store::statements::opt_int_param(data.shares),
            SqlParam::Text(raw_json@),
        ],
{
    store.insert_insight_snapshot(
        post_id,
        data.views,
        data.likes,
        data.replies,
        data.reposts,
        data.quotes,
        data.shares,
        raw_json,
    )
}

/// The line for a post's metrics.
pub open spec fn insights_line(post_id: Seq<char>, source: Seq<char>, snapshot: Option<InsightData>) -> Seq<char> {
    match snapshot {
        Some(s) => "Insights "@ + post_id + " from "@ + source + ": views="@ + debug_opt(s.views)
            + " likes="@ + debug_opt(s.likes) + " replies="@ + debug_opt(s.replies),
        None => "Insights "@ + post_id + " from "@ + source + ": no data"@,
    }
}

pub fn format_post_insights_human(post_id: &str, source: &str, snapshot: &Option<InsightData>) -> (r: String)
    ensures
        r@ == insights_line(post_id@, source@, *snapshot),
{
    let mut out = owned("Insights ");
    push_str(&mut out, post_id);
    push_str(&mut out, " from ");
    push_str(&mut out, source);
    match snapshot {
        Some(s) => {
            push_str(&mut out, ": views=");
            push_debug_opt(&mut out, s.views);
            push_str(&mut out, " likes=");
            push_debug_opt(&mut out, s.likes);
            push_str(&mut out, " replies=");
            push_debug_opt(&mut out, s.replies);
        },
        None => push_str(&mut out, ": no data"),
    }
    out
}

/// A snapshot as data.
pub open spec fn snapshot_data_ok(j: JsonValue, s: InsightData) -> bool {
    &&& object_len(j) == 7
    &&& has_key(j, 0, "fetched_at"@) && str_json(field_value(j, 0), s.fetched_at@)
    &&& has_key(j, 1, "likes"@) && opt_int_json(field_value(j, 1), s.likes)
    &&& has_key(j, 2, "quotes"@) && opt_int_json(field_value(j, 2), s.quotes)
    &&& has_key(j, 3, "replies"@) && opt_int_json(field_value(j, 3), s.replies)
    &&& has_key(j, 4, "reposts"@) && opt_int_json(field_value(j, 4), s.reposts)
    &&& has_key(j, 5, "shares"@) && opt_int_json(field_value(j, 5), s.shares)
    &&& has_key(j, 6, "views"@) && opt_int_json(field_value(j, 6), s.views)
}

/// A snapshot record carries each metric under its own name: views under
/// "views", likes under "likes", and so on, none under another's name.
pub proof fn law_snapshot_fields(j: JsonValue, s: InsightData)
    requires
        snapshot_data_ok(j, s),
    ensures
        field_text(j, "fetched_at"@, s.fetched_at@),
        field_opt_int(j, "views"@, s.views),
        field_opt_int(j, "likes"@, s.likes),
        field_opt_int(j, "replies"@, s.replies),
        field_opt_int(j, "reposts"@, s.reposts),
        field_opt_int(j, "quotes"@, s.quotes),
        field_opt_int(j, "shares"@, s.shares),
{
    reveal_strlit("fetched_at");
    reveal_strlit("likes");
    reveal_strlit("quotes");
    reveal_strlit("replies");
    reveal_strlit("reposts");
    reveal_strlit("shares");
    reveal_strlit("views");
    let f = j->Object_0@;
    let names = seq![
        "fetched_at"@,
        "likes"@,
        "quotes"@,
        "replies"@,
        "reposts"@,
        "shares"@,
        "views"@,
    ];
    assert forall|i: int| 0 <= i < 7 implies #[trigger] f[i].0@ == names[i] by {
        if i == 0 {} else if i == 1 {} else if i == 2 {} else if i == 3 {} else if i == 4 {}
        else if i == 5 {} else {}
    }
    assert forall|i: int, k: int| 0 <= i < 7 && 0 <= k < 7 && i != k implies names[i] != names[k] by {
        if names[i] == names[k] {
            assert(names[i].len() == names[k].len());
            assert(names[i][0] == names[k][0]);
            assert(names[i][3] == names[k][3]);
        }
    }
    lemma_field_text_at(j, "fetched_at"@, 0, s.fetched_at@);
    lemma_field_opt_int_at(j, "likes"@, 1, s.likes);
    lemma_field_opt_int_at(j, "quotes"@, 2, s.quotes);
    lemma_field_opt_int_at(j, "replies"@, 3, s.replies);
    lemma_field_opt_int_at(j, "reposts"@, 4, s.reposts);
    lemma_field_opt_int_at(j, "shares"@, 5, s.shares);
    lemma_field_opt_int_at(j, "views"@, 6, s.views);
}

fn snapshot_data(s: &InsightData) -> (j: JsonValue)
    ensures
        snapshot_data_ok(j, *s),
        field_opt_int(j, "views"@, s.views),
        field_opt_int(j, "likes"@, s.likes),
        field_opt_int(j, "replies"@, s.replies),
        field_opt_int(j, "reposts"@, s.reposts),
        field_opt_int(j, "quotes"@, s.quotes),
        field_opt_int(j, "shares"@, s.shares),
{
    let mut v: Vec<(String, JsonValue)> = Vec::new();
    v.push(entry("fetched_at", json_str(s.fetched_at.as_str())));
    v.push(entry("likes", json_opt_int(s.likes)));
    v.push(entry("quotes", json_opt_int(s.quotes)));
    v.push(entry("replies", json_opt_int(s.replies)));
    v.push(entry("reposts", json_opt_int(s.reposts)));
    v.push(entry("shares", json_opt_int(s.shares)));
    v.push(entry("views", json_opt_int(s.views)));
    let j = JsonValue::Object(v);
    proof {
        law_snapshot_fields(j, *s);
    }
    j
}

/// What `post insights` reports: the snapshot and whether it was fetched
/// (`live`) or stored (`cache`).
pub fn insights_output(post_id: &str, live: bool, snapshot: &InsightData) -> (r: CommandOutput)
    ensures
        r.command@ == "post insights"@,
        r.human@ == insights_line(post_id@, if live { "live"@ } else { "cache"@ }, Some(*snapshot)),
        object_len(r.data) == 3,
        has_key(r.data, 0, "post_id"@) && str_json(field_value(r.data, 0), post_id@),
        has_key(r.data, 1, "snapshot"@) && snapshot_data_ok(field_value(r.data, 1), *snapshot),
        field_opt_int(field_value(r.data, 1), "views"@, snapshot.views),
        field_opt_int(field_value(r.data, 1), "likes"@, snapshot.likes),
        field_opt_int(field_value(r.data, 1), "replies"@, snapshot.replies),
        field_opt_int(field_value(r.data, 1), "reposts"@, snapshot.reposts),
        field_opt_int(field_value(r.data, 1), "quotes"@, snapshot.quotes),
        field_opt_int(field_value(r.data, 1), "shares"@, snapshot.shares),
        has_key(r.data, 2, "source"@) && str_json(
            field_value(r.data, 2),
            if live {
                "live"@
            } else {
                "cache"@
            },
        ),
{
    let source = if live {
        "live"
    } else {
        "cache"
    };
    let human = format_post_insights_human(post_id, source, &Some(clone_insight(snapshot)));
    let mut v: Vec<(String, JsonValue)> = Vec::new();
    v.push(entry("post_id", json_str(post_id)));
    v.push(entry("snapshot", snapshot_data(snapshot)));
    v.push(entry("source", json_str(source)));
    CommandOutput { command: owned("post insights"), human, data: JsonValue::Object(v) }
}

// ---------------------------------------------------------------------------
// post replies
// ---------------------------------------------------------------------------

/// The cursor of the next page: `paging.cursors.after`.
pub open spec fn next_cursor_of(paging: Option<Paging>) -> Option<Seq<char>> {
    match paging {
        Some(p) => match p.cursors {
            Some(c) => opt_view(c.after),
            None => None,
        },
        None => None,
    }
}

pub fn extract_next_cursor(paging: &Option<Paging>) -> (r: Option<String>)
    ensures
        opt_view(r) == next_cursor_of(*paging),
        (paging is Some && paging->Some_0.cursors is Some) ==> opt_view(r) == opt_view(
            paging->Some_0.cursors->Some_0.after,
        ),
        (paging is None || paging->Some_0.cursors is None) ==> r is None,
{
    match paging {
        Some(p) => match &p.cursors {
            Some(c) => match &c.after {
                Some(a) => Some(a.clone()),
                None => None,
            },
            None => None,
        },
        None => None,
    }
}

/// Where replies come from: `None` to use what is stored, or a fetch from
/// the given cursor.  A refresh, or an empty store, fetches the first page;
/// otherwise the next page is fetched when a cursor was kept.
pub open spec fn replies_plan(refresh: bool, cached_empty: bool, next_cursor: Option<Seq<char>>) -> Option<Option<Seq<char>>> {
    if refresh || cached_empty {
        Some(None)
    } else {
        match next_cursor {
            Some(c) => Some(Some(c)),
            None => None,
        }
    }
}

/// With a refresh, or with nothing stored, the first page is fetched,
/// whatever cursor was kept; otherwise the next page is fetched exactly when
/// a cursor was kept, from that cursor, and the stored replies are used
/// when none was.
pub proof fn law_replies_plan(refresh: bool, cached_empty: bool, next_cursor: Option<Seq<char>>)
    ensures
        (refresh || cached_empty) ==> replies_plan(refresh, cached_empty, next_cursor) == Some(
            None::<Seq<char>>,
        ),
        (!refresh && !cached_empty && next_cursor is None) ==> replies_plan(
            refresh,
            cached_empty,
            next_cursor,
        ) is None,
        (!refresh && !cached_empty && next_cursor is Some) ==> replies_plan(
            refresh,
            cached_empty,
            next_cursor,
        ) == Some(next_cursor),
{
}

pub fn replies_fetch_cursor(refresh: bool, cached_empty: bool, next_cursor: Option<String>) -> (r: Option<Option<String>>)
    ensures
        match replies_plan(refresh, cached_empty, opt_view(next_cursor)) {
            None => r is None,
            Some(c) => r matches Some(x) && opt_view(x) == c,
        },
        (refresh || cached_empty) ==> r == Some(None::<String>),
        (!refresh && !cached_empty) ==> match next_cursor {
            None => r is None,
            Some(c) => r matches Some(Some(x)) && x@ == c@,
        },
{
    proof {
        law_replies_plan(refresh, cached_empty, opt_view(next_cursor));
    }
    if refresh || cached_empty {
        Some(None)
    } else {
        match next_cursor {
            Some(c) => Some(Some(c)),
            None => None,
        }
    }
}

/// A reply as it is shown.
pub struct ReplyData {
    pub reply_id: String,
    pub author_username: Option<String>,
    pub text: Option<String>,
    pub posted_at: Option<String>,
    pub created_at: String,
}

/// A stored reply, shown.
pub open spec fn from_row_ok(d: ReplyData, r: ReplyRow) -> bool {
    &&& d.reply_id@ == r.threads_reply_id@
    &&& opt_view(d.author_username) == opt_view(r.author_username)
    &&& opt_view(d.text) == opt_view(r.text)
    &&& opt_view(d.posted_at) == opt_view(r.posted_at)
    &&& d.created_at@ == r.created_at@
}

/// A reply published from here, shown from its local record.
pub open spec fn from_post_ok(d: ReplyData, p: PostRow) -> bool {
    &&& d.reply_id@ == p.threads_post_id@
    &&& d.author_username is None
    &&& opt_view(d.text) == Some(p.text@)
    &&& opt_view(d.posted_at) == opt_view(p.published_at)
    &&& d.created_at@ == p.created_at@
}

pub fn to_reply(row: &ReplyRow) -> (d: ReplyData)
    ensures
        from_row_ok(d, *row),
{
    ReplyData {
        reply_id: row.threads_reply_id.clone(),
        author_username: clone_opt(&row.author_username),
        text: clone_opt(&row.text),
        posted_at: clone_opt(&row.posted_at),
        created_at: row.created_at.clone(),
    }
}

pub fn to_reply_from_post(row: &PostRow) -> (d: ReplyData)
    ensures
        from_post_ok(d, *row),
{
    ReplyData {
        reply_id: row.threads_post_id.clone(),
        author_username: None,
        text: Some(row.text.clone()),
        posted_at: clone_opt(&row.published_at),
        created_at: row.created_at.clone(),
    }
}

fn clone_opt(o: &Option<String>) -> (r: Option<String>)
    ensures
        opt_view(r) == opt_view(*o),
{
    match o {
        Some(s) => Some(s.clone()),
        None => None,
    }
}

/// Local records that are replies.
pub open spec fn is_reply_record() -> spec_fn(PostRow) -> bool {
    |p: PostRow| p.kind@ == "reply"@
}

pub open spec fn local_replies(posts: Seq<PostRow>) -> Seq<PostRow> {
    posts.filter(is_reply_record())
}

pub open spec fn local_ids(posts: Seq<PostRow>) -> Seq<Seq<char>> {
    local_replies(posts).map_values(|p: PostRow| p.threads_post_id@)
}

/// Stored replies whose id is not among `ids`.
pub open spec fn not_among(ids: Seq<Seq<char>>) -> spec_fn(ReplyRow) -> bool {
    |r: ReplyRow| !ids.contains(r.threads_reply_id@)
}

pub open spec fn fresh_cached(cached: Seq<ReplyRow>, ids: Seq<Seq<char>>) -> Seq<ReplyRow> {
    cached.filter(not_among(ids))
}

fn contains_id(ids: &Vec<String>, id: &str) -> (r: bool)
    ensures
        r == strings_view(ids@).contains(id@),
{
    let mut i: usize = 0;
    while i < ids.len()
        invariant
            i <= ids.len(),
            forall|k: int| 0 <= k < i ==> ids@[k]@ != id@,
        decreases ids.len() - i,
    {
        if str_eq(ids[i].as_str(), id) {
            assert(strings_view(ids@)[i as int] == id@);
            return true;
        }
        i = i + 1;
    }
    assert(!strings_view(ids@).contains(id@)) by {
        if strings_view(ids@).contains(id@) {
            let k = choose|k: int| 0 <= k < strings_view(ids@).len() && strings_view(ids@)[k] == id@;
            assert(ids@[k]@ == id@);
        }
    }
    false
}

/// Merging loses no reply: every reply published from here (a local record
/// of kind `reply`) is shown, and so is every stored reply whose id is not
/// that of such a record.
pub proof fn law_merged_replies_cover_all(posts: Seq<PostRow>, cached: Seq<ReplyRow>, r: Seq<ReplyData>)
    requires
        r.len() == local_replies(posts).len() + fresh_cached(cached, local_ids(posts)).len(),
        forall|i: int|
            0 <= i < local_replies(posts).len() ==> from_post_ok(#[trigger] r[i], local_replies(posts)[i]),
        forall|i: int|
            0 <= i < fresh_cached(cached, local_ids(posts)).len() ==> from_row_ok(
                #[trigger] r[local_replies(posts).len() + i],
                fresh_cached(cached, local_ids(posts))[i],
            ),
    ensures
        forall|p: int|
            0 <= p < posts.len() && (#[trigger] posts[p]).kind@ == "reply"@ ==> exists|i: int|
                0 <= i < r.len() && r[i].reply_id@ == posts[p].threads_post_id@,
        forall|k: int|
            0 <= k < cached.len() && !(exists|p: int|
                0 <= p < posts.len() && posts[p].kind@ == "reply"@ && posts[p].threads_post_id@
                    == (#[trigger] cached[k]).threads_reply_id@) ==> exists|i: int|
                0 <= i < r.len() && r[i].reply_id@ == cached[k].threads_reply_id@,
{
    let l = local_replies(posts);
    let ids = local_ids(posts);
    let f = fresh_cached(cached, ids);
    assert forall|p: int| 0 <= p < posts.len() && (#[trigger] posts[p]).kind@ == "reply"@ implies exists|i: int|
        0 <= i < r.len() && r[i].reply_id@ == posts[p].threads_post_id@ by {
        posts.lemma_filter_contains(is_reply_record(), p);
        let i = choose|i: int| 0 <= i < l.len() && l[i] == posts[p];
        assert(from_post_ok(r[i], l[i]));
    }
    assert forall|k: int|
        0 <= k < cached.len() && !(exists|p: int|
            0 <= p < posts.len() && posts[p].kind@ == "reply"@ && posts[p].threads_post_id@
                == (#[trigger] cached[k]).threads_reply_id@) implies exists|i: int|
        0 <= i < r.len() && r[i].reply_id@ == cached[k].threads_reply_id@ by {
        if ids.contains(cached[k].threads_reply_id@) {
            let a = choose|a: int| 0 <= a < ids.len() && ids[a] == cached[k].threads_reply_id@;
            assert(ids.len() == l.len());
            assert(ids[a] == l[a].threads_post_id@);
            posts.lemma_filter_pred(is_reply_record(), a);
            assert(l.contains(l[a]));
            posts.lemma_filter_contains_rev(is_reply_record(), l[a]);
            let p = choose|p: int| 0 <= p < posts.len() && posts[p] == l[a];
            assert(posts[p].kind@ == "reply"@ && posts[p].threads_post_id@ == cached[k].threads_reply_id@);
        }
        assert(not_among(ids)(cached[k]));
        cached.lemma_filter_contains(not_among(ids), k);
        let i = choose|i: int| 0 <= i < f.len() && f[i] == cached[k];
        assert(from_row_ok(r[l.len() + i], f[i]));
    }
}

/// The replies shown for a post: first those published from here (local
/// records of kind `reply`), then the stored replies that are not among
/// them, each list in its order.
pub fn merge_replies(posts: &Vec<PostRow>, cached: &Vec<ReplyRow>) -> (r: Vec<ReplyData>)
    ensures
        r@.len() == local_replies(posts@).len() + fresh_cached(cached@, local_ids(posts@)).len(),
        forall|i: int|
            0 <= i < local_replies(posts@).len() ==> from_post_ok(
                #[trigger] r@[i],
                local_replies(posts@)[i],
            ),
        forall|i: int|
            0 <= i < fresh_cached(cached@, local_ids(posts@)).len() ==> from_row_ok(
                #[trigger] r@[local_replies(posts@).len() + i],
                fresh_cached(cached@, local_ids(posts@))[i],
            ),
        forall|i: int, j: int|
            0 <= i < local_replies(posts@).len() <= j < r@.len() ==> #[trigger] r@[i].reply_id@
                != #[trigger] r@[j].reply_id@,
        forall|p: int|
            0 <= p < posts@.len() && (#[trigger] posts@[p]).kind@ == "reply"@ ==> exists|i: int|
                0 <= i < r@.len() && r@[i].reply_id@ == posts@[p].threads_post_id@,
        forall|k: int|
            0 <= k < cached@.len() && !(exists|p: int|
                0 <= p < posts@.len() && posts@[p].kind@ == "reply"@ && posts@[p].threads_post_id@
                    == (#[trigger] cached@[k]).threads_reply_id@) ==> exists|i: int|
                0 <= i < r@.len() && r@[i].reply_id@ == cached@[k].threads_reply_id@,
{
    let mut out: Vec<ReplyData> = Vec::new();
    let mut seen: Vec<String> = Vec::new();
    let mut i: usize = 0;
    proof {
        reveal_strlit("reply");
        assert(posts@.subrange(0, 0) =~= Seq::<PostRow>::empty());
    }
    while i < posts.len()
        invariant
            i <= posts.len(),
            out@.len() == local_replies(posts@.subrange(0, i as int)).len(),
            forall|k: int|
                0 <= k < out@.len() ==> from_post_ok(
                    #[trigger] out@[k],
                    local_replies(posts@.subrange(0, i as int))[k],
                ),
            strings_view(seen@) == local_ids(posts@.subrange(0, i as int)),
        decreases posts.len() - i,
    {
        let ghost prev = posts@.subrange(0, i as int);
        let ghost next = posts@.subrange(0, i + 1);
        assert(next.drop_last() =~= prev);
        assert(next.last() == posts@[i as int]);
        proof {
            reveal(Seq::filter);
        }
        if str_eq(posts[i].kind.as_str(), "reply") {
            let ghost old_seen = seen@;
            out.push(to_reply_from_post(&posts[i]));
            seen.push(posts[i].threads_post_id.clone());
            assert(local_replies(next) =~= local_replies(prev).push(posts@[i as int]));
            assert(strings_view(seen@) =~= strings_view(old_seen).push(posts@[i as int].threads_post_id@));
            assert(local_ids(next) =~= local_ids(prev).push(posts@[i as int].threads_post_id@));
            assert(strings_view(seen@) =~= local_ids(next));
        } else {
            assert(local_replies(next) =~= local_replies(prev));
            assert(strings_view(seen@) =~= local_ids(next));
        }
        i = i + 1;
    }
    assert(posts@.subrange(0, posts@.len() as int) =~= posts@);
    let ghost ids = local_ids(posts@);
    let ghost base = out@.len();
    let mut j: usize = 0;
    assert(cached@.subrange(0, 0) =~= Seq::<ReplyRow>::empty());
    while j < cached.len()
        invariant
            j <= cached.len(),
            strings_view(seen@) == ids,
            base == local_replies(posts@).len(),
            out@.len() == base + fresh_cached(cached@.subrange(0, j as int), ids).len(),
            forall|k: int|
                0 <= k < base ==> from_post_ok(#[trigger] out@[k], local_replies(posts@)[k]),
            forall|k: int|
                0 <= k < fresh_cached(cached@.subrange(0, j as int), ids).len() ==> from_row_ok(
                    #[trigger] out@[base + k],
                    fresh_cached(cached@.subrange(0, j as int), ids)[k],
                ),
        decreases cached.len() - j,
    {
        let ghost prev = cached@.subrange(0, j as int);
        let ghost next = cached@.subrange(0, j + 1);
        assert(next.drop_last() =~= prev);
        assert(next.last() == cached@[j as int]);
        proof {
            reveal(Seq::filter);
        }
        if !contains_id(&seen, cached[j].threads_reply_id.as_str()) {
            out.push(to_reply(&cached[j]));
            assert(fresh_cached(next, ids) =~= fresh_cached(prev, ids).push(cached@[j as int]));
        } else {
            assert(fresh_cached(next, ids) =~= fresh_cached(prev, ids));
        }
        j = j + 1;
    }
    assert(cached@.subrange(0, cached@.len() as int) =~= cached@);
    proof {
        let l = local_replies(posts@);
        let f = fresh_cached(cached@, ids);
        assert forall|a: int, b: int| 0 <= a < l.len() <= b < out@.len() implies #[trigger] out@[a].reply_id@
            != #[trigger] out@[b].reply_id@ by {
            assert(from_post_ok(out@[a], l[a]));
            assert(ids[a] == l[a].threads_post_id@);
            let k = b - base;
            assert(from_row_ok(out@[base + k], f[k]));
            cached@.lemma_filter_pred(not_among(ids), k);
            assert(!ids.contains(f[k].threads_reply_id@));
        }
        law_merged_replies_cover_all(posts@, cached@, out@);
    }
    out
}

/// A reply as data.
pub open spec fn reply_data_ok(j: JsonValue, d: ReplyData) -> bool {
    &&& object_len(j) == 5
    &&& has_key(j, 0, "author_username"@) && opt_json(field_value(j, 0), opt_view(d.author_username))
    &&& has_key(j, 1, "created_at"@) && str_json(field_value(j, 1), d.created_at@)
    &&& has_key(j, 2, "posted_at"@) && opt_json(field_value(j, 2), opt_view(d.posted_at))
    &&& has_key(j, 3, "reply_id"@) && str_json(field_value(j, 3), d.reply_id@)
    &&& has_key(j, 4, "text"@) && opt_json(field_value(j, 4), opt_view(d.text))
}

fn reply_data(d: &ReplyData) -> (j: JsonValue)
    ensures
        reply_data_ok(j, *d),
{
    let mut v: Vec<(String, JsonValue)> = Vec::new();
    v.push(entry("author_username", json_opt_str(&d.author_username)));
    v.push(entry("created_at", json_str(d.created_at.as_str())));
    v.push(entry("posted_at", json_opt_str(&d.posted_at)));
    v.push(entry("reply_id", json_str(d.reply_id.as_str())));
    v.push(entry("text", json_opt_str(&d.text)));
    JsonValue::Object(v)
}

/// The line for the replies of a post.
pub open spec fn replies_line(post_id: Seq<char>, source: Seq<char>, fetched: nat, showing: nat, next_cursor: Option<Seq<char>>) -> Seq<char> {
    "Replies "@ + post_id + " from "@ + source + ": fetched="@ + dec_nat(fetched) + " showing="@
        + dec_nat(showing) + " next_cursor="@ + match next_cursor {
        Some(c) => c,
        None => "none"@,
    }
}

/// What `post replies` reports: the replies shown, how many were fetched,
/// the cursor of the next page, and whether they were fetched (`live`) or
/// stored (`cache`).
pub fn replies_output(
    post_id: &str,
    live: bool,
    fetched_count: usize,
    next_cursor: &Option<String>,
    replies: &Vec<ReplyData>,
) -> (r: CommandOutput)
    ensures
        r.command@ == "post replies"@,
        r.human@ == replies_line(
            post_id@,
            if live {
                "live"@
            } else {
                "cache"@
            },
            fetched_count as nat,
            replies@.len(),
            opt_view(*next_cursor),
        ),
        object_len(r.data) == 5,
        has_key(r.data, 0, "fetched_count"@) && int_json(field_value(r.data, 0), fetched_count as int),
        has_key(r.data, 1, "next_cursor"@) && opt_json(field_value(r.data, 1), opt_view(*next_cursor)),
        has_key(r.data, 2, "post_id"@) && str_json(field_value(r.data, 2), post_id@),
        has_key(r.data, 3, "replies"@) && field_value(r.data, 3) is Array && field_value(
            r.data,
            3,
        )->Array_0@.len() == replies@.len() && forall|i: int|
            0 <= i < replies@.len() ==> reply_data_ok(
                #[trigger] field_value(r.data, 3)->Array_0@[i],
                replies@[i],
            ),
        has_key(r.data, 4, "source"@) && str_json(
            field_value(r.data, 4),
            if live {
                "live"@
            } else {
                "cache"@
            },
        ),
{
    let source = if live {
        "live"
    } else {
        "cache"
    };
    let mut human = owned("Replies ");
    push_str(&mut human, post_id);
    push_str(&mut human, " from ");
    push_str(&mut human, source);
    push_str(&mut human, ": fetched=");
    push_decimal_u64(&mut human, fetched_count as u64);
    push_str(&mut human, " showing=");
    push_decimal_u64(&mut human, replies.len() as u64);
    push_str(&mut human, " next_cursor=");
    match next_cursor {
        Some(c) => push_str(&mut human, c.as_str()),
        None => push_str(&mut human, "none"),
    }
    let mut items: Vec<JsonValue> = Vec::new();
    let mut i: usize = 0;
    while i < replies.len()
        invariant
            i <= replies.len(),
            items@.len() == i,
            forall|k: int| 0 <= k < i ==> reply_data_ok(#[trigger] items@[k], replies@[k]),
        decreases replies.len() - i,
    {
        items.push(reply_data(&replies[i]));
        i = i + 1;
    }
    let mut v: Vec<(String, JsonValue)> = Vec::new();
    v.push(entry("fetched_count", json_usize(fetched_count)));
    v.push(entry("next_cursor", json_opt_str(next_cursor)));
    v.push(entry("post_id", json_str(post_id)));
    v.push(entry("replies", JsonValue::Array(items)));
    v.push(entry("source", json_str(source)));
    CommandOutput { command: owned("post replies"), human, data: JsonValue::Object(v) }
}

/// The statements that store fetched replies of `post_id`, one per reply,
/// each with the text of that reply (`raw_jsons[i]` for `replies[i]`).
pub fn persist_replies(store: &Store, post_id: &str, replies: &Vec<ReplyItem>, raw_jsons: &Vec<String>) -> (r: Vec<Statement>)
    requires
        raw_jsons@.len() == replies@.len(),
    ensures
        r@.len() == replies@.len(),
        forall|i: int|
            0 <= i < replies@.len() ==> (#[trigger] r@[i]).sql@
                == crate::store::statements::UPSERT_REPLY_SQL@ && params_view(r@[i].params@) == seq![
                SqlParam::Text(replies@[i].id@),
                SqlParam::Text(post_id@),
                crate::store::statements::opt_param(opt_view(replies@[i].username)),
                crate::store::statements::opt_param(opt_view(replies@[i].text)),
                crate::store::statements::opt_param(opt_view(replies@[i].timestamp)),
                SqlParam::Text(raw_jsons@[i]@),
            ],
{
    let mut out: Vec<Statement> = Vec::new();
    let mut i: usize = 0;
    while i < replies.len()
        invariant
            i <= replies.len(),
            raw_jsons@.len() == replies@.len(),
            out@.len() == i,
            forall|k: int|
                0 <= k < i ==> (#[trigger] out@[k]).sql@ == crate::store::statements::UPSERT_REPLY_SQL@
                    && params_view(out@[k].params@) == seq![
                    SqlParam::Text(replies@[k].id@),
                    SqlParam::Text(post_id@),
                    crate::store::statements::opt_param(opt_view(replies@[k].username)),
                    crate::store::statements::opt_param(opt_view(replies@[k].text)),
                    crate::store::statements::opt_param(opt_view(replies@[k].timestamp)),
                    SqlParam::Text(raw_jsons@[k]@),
                ],
        decreases replies.len() - i,
    {
        let reply = &replies[i];
        let username: Option<&str> = match &reply.username {
            Some(u) => Some(u.as_str()),
            None => None,
        };
        let text: Option<&str> = match &reply.text {
            Some(t) => Some(t.as_str()),
            None => None,
        };
        let timestamp: Option<&str> = match &reply.timestamp {
            Some(t) => Some(t.as_str()),
            None => None,
        };
        let stmt = store.upsert_reply(
            reply.id.as_str(),
            post_id,
            username,
            text,
            timestamp,
            raw_jsons[i].as_str(),
        );
        out.push(stmt);
        i = i + 1;
    }
    out
}

/// A cut text is never longer than the limit plus the ellipsis, and a text
/// within the limit is kept whole; otherwise it starts with the first `max`
/// characters of the text.
pub proof fn law_truncate_bounded(value: Seq<char>, max: int)
    requires
        0 <= max,
    ensures
        truncated(value, max).len() <= max + 1,
        value.len() <= max ==> truncated(value, max) == value,
        value.len() > max ==> truncated(value, max).subrange(0, max) == value.subrange(0, max)
            && truncated(value, max).last() == '…',
{
    if value.len() > max {
        assert(truncated(value, max).subrange(0, max) =~= value.subrange(0, max));
    }
}

} // verus!
