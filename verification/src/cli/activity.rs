//! `activity replies`: the replies that others left on the user's recent
//! posts, grouped by post.
use vstd::prelude::*;

use crate::client::{ReplyItem, UserThreadItem};
use crate::error::{CliError, ErrorCategory};
use crate::output::{
    entry, field_is, field_value, lemma_field_is_at, has_key, int_json, json_opt_str, json_str, json_usize, object_len,
    opt_json, str_json, CommandOutput, JsonValue,
};
use crate::store::statements::opt_view;
use crate::store::OwnThreadRow;
use crate::text::{
    dec_nat, join_strings, join_with, owned, push_decimal_u64, push_str, str_eq, strings_view,
    take_chars, take_chars_exec,
};

verus! {

pub enum ActivitySubcommand {
    Replies(ActivityRepliesArgs),
}

pub struct ActivityRepliesArgs {
    /// How many of the most recent posts to check.
    pub recent: usize,
    pub refresh: bool,
}

/// At least one post is checked.
pub fn validate_recent(args: &ActivityRepliesArgs) -> (r: Result<(), CliError>)
    ensures
        r is Ok <==> args.recent >= 1,
        r matches Err(e) ==> e.category == ErrorCategory::Validation && e.message@
            == "recent must be >= 1"@,
{
    if args.recent == 0 {
        return Err(CliError::new(ErrorCategory::Validation, "recent must be >= 1"));
    }
    Ok(())
}

fn clone_opt(o: &Option<String>) -> (r: Option<String>)
    ensures
        opt_view(r) == opt_view(*o),
{
    match o {
        Some(s) => Some(s.clone()),
        None => None,
    }
}

/// A stored post, as the API lists it.
pub fn thread_from_row(row: &OwnThreadRow) -> (r: UserThreadItem)
    ensures
        r.id@ == row.threads_post_id@,
        opt_view(r.text) == opt_view(row.text),
        opt_view(r.permalink) == opt_view(row.permalink),
        opt_view(r.timestamp) == opt_view(row.timestamp),
        opt_view(r.username) == opt_view(row.username),
{
    UserThreadItem {
        id: row.threads_post_id.clone(),
        text: clone_opt(&row.text),
        permalink: clone_opt(&row.permalink),
        timestamp: clone_opt(&row.timestamp),
        username: clone_opt(&row.username),
    }
}

/// A reply from someone else, as it is shown.
pub struct ActivityReplyItem {
    pub reply_id: String,
    pub username: Option<String>,
    pub text: Option<String>,
    pub timestamp: Option<String>,
}

/// A post and the replies others left on it.
pub struct PostWithReplies {
    pub post_id: String,
    pub post_text: Option<String>,
    pub replies: Vec<ActivityReplyItem>,
}

pub struct ActivityRepliesData {
    pub source: String,
    pub posts_checked: usize,
    pub total_replies: usize,
    pub posts: Vec<PostWithReplies>,
    /// The posts whose replies could not be fetched, in the order checked.
    pub skipped_posts: Vec<String>,
}

/// A reply that the user did not write: its author's user id is another
/// than the user's own id `own`, or unknown.
pub open spec fn by_others(own: Seq<char>) -> spec_fn(ReplyItem) -> bool {
    |r: ReplyItem| match r.owner_id {
        Some(u) => u@ != own,
        None => true,
    }
}

pub open spec fn item_is_reply(it: ActivityReplyItem, r: ReplyItem) -> bool {
    &&& it.reply_id@ == r.id@
    &&& opt_view(it.username) == opt_view(r.username)
    &&& opt_view(it.text) == opt_view(r.text)
    &&& opt_view(it.timestamp) == opt_view(r.timestamp)
}

/// The replies of a page that others wrote, in order: those whose author's
/// user id is not `own`, the user's own id.
pub fn others_replies(replies: &Vec<ReplyItem>, own: &str) -> (r: Vec<ActivityReplyItem>)
    ensures
        r@.len() == replies@.filter(by_others(own@)).len(),
        forall|i: int|
            0 <= i < r@.len() ==> item_is_reply(#[trigger] r@[i], replies@.filter(by_others(own@))[i]),
        forall|i: int|
            0 <= i < r@.len() ==> opt_view(#[trigger] replies@.filter(by_others(own@))[i].owner_id)
                != Some(own@),
{
    let mut out: Vec<ActivityReplyItem> = Vec::new();
    let mut i: usize = 0;
    assert(replies@.subrange(0, 0) =~= Seq::<ReplyItem>::empty());
    while i < replies.len()
        invariant
            i <= replies.len(),
            out@.len() == replies@.subrange(0, i as int).filter(by_others(own@)).len(),
            forall|k: int|
                0 <= k < out@.len() ==> item_is_reply(
                    #[trigger] out@[k],
                    replies@.subrange(0, i as int).filter(by_others(own@))[k],
                ),
        decreases replies.len() - i,
    {
        let ghost prev = replies@.subrange(0, i as int);
        let ghost next = replies@.subrange(0, i + 1);
        assert(next.drop_last() =~= prev);
        assert(next.last() == replies@[i as int]);
        proof {
            reveal(Seq::filter);
        }
        let r = &replies[i];
        let keep = match &r.owner_id {
            Some(u) => !str_eq(u.as_str(), own),
            None => true,
        };
        if keep {
            out.push(
                ActivityReplyItem {
                    reply_id: r.id.clone(),
                    username: clone_opt(&r.username),
                    text: clone_opt(&r.text),
                    timestamp: clone_opt(&r.timestamp),
                },
            );
            assert(next.filter(by_others(own@)) =~= prev.filter(by_others(own@)).push(replies@[i as int]));
        } else {
            assert(next.filter(by_others(own@)) =~= prev.filter(by_others(own@)));
        }
        i = i + 1;
    }
    assert(replies@.subrange(0, replies@.len() as int) =~= replies@);
    proof {
        assert forall|k: int| 0 <= k < out@.len() implies opt_view(
            #[trigger] replies@.filter(by_others(own@))[k].owner_id,
        ) != Some(own@) by {
            replies@.lemma_filter_pred(by_others(own@), k);
        }
    }
    out
}

/// The posts that are reported: those whose replies could be fetched and
/// that have a reply from someone else, by position among the first `n`.
pub open spec fn kept_posts(pages: Seq<Option<Vec<ReplyItem>>>, own: Seq<char>, n: int) -> Seq<int>
    decreases n,
{
    if n <= 0 {
        Seq::empty()
    } else {
        let prev = kept_posts(pages, own, n - 1);
        match pages[n - 1] {
            Some(p) => if p@.filter(by_others(own)).len() > 0 {
                prev.push(n - 1)
            } else {
                prev
            },
            None => prev,
        }
    }
}

/// The number of replies by others on the first `n` posts whose replies
/// could be fetched.
pub open spec fn others_total(pages: Seq<Option<Vec<ReplyItem>>>, own: Seq<char>, n: int) -> int
    decreases n,
{
    if n <= 0 {
        0
    } else {
        others_total(pages, own, n - 1) + match pages[n - 1] {
            Some(p) => p@.filter(by_others(own)).len() as int,
            None => 0,
        }
    }
}

/// The number of replies on the first `n` pages.
pub open spec fn pages_total(pages: Seq<Option<Vec<ReplyItem>>>, n: int) -> int
    decreases n,
{
    if n <= 0 {
        0
    } else {
        pages_total(pages, n - 1) + match pages[n - 1] {
            Some(p) => p@.len() as int,
            None => 0,
        }
    }
}

proof fn lemma_others_total_bounded(pages: Seq<Option<Vec<ReplyItem>>>, own: Seq<char>, n: int)
    requires
        0 <= n <= pages.len(),
    ensures
        0 <= others_total(pages, own, n) <= pages_total(pages, n),
    decreases n,
{
    if n > 0 {
        lemma_others_total_bounded(pages, own, n - 1);
        match pages[n - 1] {
            Some(p) => {
                p@.lemma_filter_len(by_others(own));
            },
            None => {},
        }
    }
}

proof fn lemma_pages_total_mono(pages: Seq<Option<Vec<ReplyItem>>>, m: int, n: int)
    requires
        0 <= m <= n <= pages.len(),
    ensures
        pages_total(pages, m) <= pages_total(pages, n),
    decreases n - m,
{
    if m < n {
        lemma_pages_total_mono(pages, m, n - 1);
    }
}

/// The ids of the first `n` posts whose replies could not be fetched, in
/// order.
pub open spec fn skipped_ids(threads: Seq<UserThreadItem>, pages: Seq<Option<Vec<ReplyItem>>>, n: int) -> Seq<Seq<char>>
    decreases n,
{
    if n <= 0 {
        Seq::empty()
    } else {
        let prev = skipped_ids(threads, pages, n - 1);
        match pages[n - 1] {
            Some(_) => prev,
            None => prev.push(threads[n - 1].id@),
        }
    }
}

/// The replies that others left on the checked posts (`pages[i]` is what
/// fetching the replies of `threads[i]` gave, `None` when it failed: such a
/// post is skipped and its id reported).  `own` is the user's own id; every
/// post reported has at least one reply whose author's id is another, and
/// none of the user's own replies.
pub fn collect_activity(
    threads: &Vec<UserThreadItem>,
    pages: &Vec<Option<Vec<ReplyItem>>>,
    own: &str,
    source: &str,
) -> (r: ActivityRepliesData)
    requires
        pages@.len() == threads@.len(),
        pages_total(pages@, pages@.len() as int) <= usize::MAX,
    ensures
        r.source@ == source@,
        r.posts_checked == threads@.len(),
        r.total_replies == others_total(pages@, own@, pages@.len() as int),
        strings_view(r.skipped_posts@) == skipped_ids(threads@, pages@, pages@.len() as int),
        r.posts@.len() == kept_posts(pages@, own@, pages@.len() as int).len(),
        forall|k: int|
            0 <= k < r.posts@.len() ==> {
                let i = kept_posts(pages@, own@, pages@.len() as int)[k];
                &&& 0 <= i < threads@.len()
                &&& (#[trigger] r.posts@[k]).post_id@ == threads@[i].id@
                &&& opt_view(r.posts@[k].post_text) == opt_view(threads@[i].text)
                &&& pages@[i] is Some
                &&& r.posts@[k].replies@.len() == pages@[i]->0@.filter(by_others(own@)).len()
                &&& r.posts@[k].replies@.len() > 0
                &&& forall|j: int|
                    0 <= j < r.posts@[k].replies@.len() ==> item_is_reply(
                        #[trigger] r.posts@[k].replies@[j],
                        pages@[i]->0@.filter(by_others(own@))[j],
                    ) && opt_view(pages@[i]->0@.filter(by_others(own@))[j].owner_id) != Some(own@)
            },
{
    let mut posts: Vec<PostWithReplies> = Vec::new();
    let mut skipped: Vec<String> = Vec::new();
    let mut total: usize = 0;
    let mut i: usize = 0;
    while i < threads.len()
        invariant
            i <= threads.len(),
            pages@.len() == threads@.len(),
            pages_total(pages@, pages@.len() as int) <= usize::MAX,
            total == others_total(pages@, own@, i as int),
            strings_view(skipped@) == skipped_ids(threads@, pages@, i as int),
            posts@.len() == kept_posts(pages@, own@, i as int).len(),
            forall|k: int|
                0 <= k < posts@.len() ==> {
                    let x = kept_posts(pages@, own@, i as int)[k];
                    &&& 0 <= x < i
                    &&& (#[trigger] posts@[k]).post_id@ == threads@[x].id@
                    &&& opt_view(posts@[k].post_text) == opt_view(threads@[x].text)
                    &&& pages@[x] is Some
                    &&& posts@[k].replies@.len() == pages@[x]->0@.filter(by_others(own@)).len()
                    &&& posts@[k].replies@.len() > 0
                    &&& forall|j: int|
                        0 <= j < posts@[k].replies@.len() ==> item_is_reply(
                            #[trigger] posts@[k].replies@[j],
                            pages@[x]->0@.filter(by_others(own@))[j],
                        ) && opt_view(pages@[x]->0@.filter(by_others(own@))[j].owner_id) != Some(own@)
                },
        decreases threads.len() - i,
    {
        proof {
            lemma_others_total_bounded(pages@, own@, i + 1);
            lemma_pages_total_mono(pages@, i + 1, pages@.len() as int);
        }
        match &pages[i] {
            Some(page) => {
                let others = others_replies(page, own);
                if others.len() > 0 {
                    let ghost before = posts@;
                    total = total + others.len();
                    posts.push(
                        PostWithReplies {
                            post_id: threads[i].id.clone(),
                            post_text: clone_opt(&threads[i].text),
                            replies: others,
                        },
                    );
                    proof {
                        assert(kept_posts(pages@, own@, i + 1) == kept_posts(pages@, own@, i as int).push(
                            i as int,
                        ));
                        assert forall|k: int| 0 <= k < posts@.len() implies {
                            let x = kept_posts(pages@, own@, i + 1)[k];
                            &&& 0 <= x < i + 1
                            &&& (#[trigger] posts@[k]).post_id@ == threads@[x].id@
                            &&& opt_view(posts@[k].post_text) == opt_view(threads@[x].text)
                            &&& pages@[x] is Some
                            &&& posts@[k].replies@.len() == pages@[x]->0@.filter(by_others(own@)).len()
                            &&& posts@[k].replies@.len() > 0
                            &&& forall|j: int|
                                0 <= j < posts@[k].replies@.len() ==> item_is_reply(
                                    #[trigger] posts@[k].replies@[j],
                                    pages@[x]->0@.filter(by_others(own@))[j],
                                ) && opt_view(pages@[x]->0@.filter(by_others(own@))[j].owner_id) != Some(own@)
                        } by {
                            if k < before.len() {
                                assert(posts@[k] == before[k]);
                            }
                        }
                    }
                } else {
                    assert(kept_posts(pages@, own@, i + 1) == kept_posts(pages@, own@, i as int));
                }
                assert(skipped_ids(threads@, pages@, i + 1) == skipped_ids(threads@, pages@, i as int));
            },
            None => {
                let ghost sv = strings_view(skipped@);
                skipped.push(threads[i].id.clone());
                assert(strings_view(skipped@) =~= sv.push(threads@[i as int].id@));
                assert(kept_posts(pages@, own@, i + 1) == kept_posts(pages@, own@, i as int));
            },
        }
        i = i + 1;
    }
    ActivityRepliesData {
        source: owned(source),
        posts_checked: threads.len(),
        total_replies: total,
        posts,
        skipped_posts: skipped,
    }
}

pub open spec fn or_text(o: Option<Seq<char>>, default: Seq<char>) -> Seq<char> {
    match o {
        Some(s) => s,
        None => default,
    }
}

pub open spec fn post_line(p: PostWithReplies) -> Seq<char> {
    "  Post ["@ + p.post_id@ + "]: "@ + take_chars(or_text(opt_view(p.post_text), Seq::empty()), 60)
}

pub open spec fn reply_line(r: ActivityReplyItem) -> Seq<char> {
    "    @"@ + or_text(opt_view(r.username), "unknown"@) + ": "@ + take_chars(
        or_text(opt_view(r.text), Seq::empty()),
        80,
    )
}

/// The lines of one post: the post, then each reply.
pub open spec fn post_block(p: PostWithReplies) -> Seq<Seq<char>> {
    seq![post_line(p)] + p.replies@.map_values(|r: ActivityReplyItem| reply_line(r))
}

/// The lines of the posts, in order.
pub open spec fn posts_lines(posts: Seq<PostWithReplies>) -> Seq<Seq<char>>
    decreases posts.len(),
{
    if posts.len() == 0 {
        Seq::empty()
    } else {
        posts_lines(posts.drop_last()) + post_block(posts.last())
    }
}

/// The report lines of `activity replies`, before any warning.
pub open spec fn activity_lines(d: ActivityRepliesData) -> Seq<Seq<char>> {
    if d.posts@.len() == 0 {
        seq![
            "No replies from others on your "@ + dec_nat(d.posts_checked as nat) + " most recent posts (source="@
                + d.source@ + ")"@,
        ]
    } else {
        seq![
            "Replies from others ("@ + dec_nat(d.total_replies as nat) + " total across "@
                + dec_nat(d.posts@.len()) + " posts, source="@ + d.source@ + ")"@,
        ] + posts_lines(d.posts@)
    }
}

/// The warning for a post whose replies could not be fetched.
pub open spec fn skipped_warning(post_id: Seq<char>) -> Seq<char> {
    "warning: replies of post "@ + post_id + " could not be fetched"@
}

/// The human text of `activity replies`: the report, then one warning line
/// for each skipped post.
pub open spec fn activity_text(d: ActivityRepliesData) -> Seq<char> {
    join_with(
        activity_lines(d) + strings_view(d.skipped_posts@).map_values(|id: Seq<char>| skipped_warning(id)),
        "\n"@,
    )
}

fn preview(o: &Option<String>, n: usize) -> (r: String)
    ensures
        r@ == take_chars(or_text(opt_view(*o), Seq::empty()), n as int),
{
    match o {
        Some(s) => take_chars_exec(s.as_str(), n),
        None => String::new(),
    }
}

pub fn format_activity_human(d: &ActivityRepliesData) -> (r: String)
    ensures
        r@ == activity_text(*d),
{
    let mut lines: Vec<String> = Vec::new();
    if d.posts.len() == 0 {
        let mut out = owned("No replies from others on your ");
        push_decimal_u64(&mut out, d.posts_checked as u64);
        push_str(&mut out, " most recent posts (source=");
        push_str(&mut out, d.source.as_str());
        push_str(&mut out, ")");
        lines.push(out);
        assert(strings_view(lines@) =~= activity_lines(*d));
    } else {
        let mut header = owned("Replies from others (");
        push_decimal_u64(&mut header, d.total_replies as u64);
        push_str(&mut header, " total across ");
        push_decimal_u64(&mut header, d.posts.len() as u64);
        push_str(&mut header, " posts, source=");
        push_str(&mut header, d.source.as_str());
        push_str(&mut header, ")");
        let ghost h = header@;
        lines.push(header);
        let mut i: usize = 0;
        assert(d.posts@.subrange(0, 0) =~= Seq::<PostWithReplies>::empty());
        assert(strings_view(lines@) =~= seq![h] + posts_lines(d.posts@.subrange(0, 0)));
        while i < d.posts.len()
            invariant
                i <= d.posts.len(),
                strings_view(lines@) == seq![h] + posts_lines(d.posts@.subrange(0, i as int)),
            decreases d.posts.len() - i,
        {
            let p = &d.posts[i];
            let ghost start = strings_view(lines@);
            let mut line = owned("  Post [");
            push_str(&mut line, p.post_id.as_str());
            push_str(&mut line, "]: ");
            let pv = preview(&p.post_text, 60);
            push_str(&mut line, pv.as_str());
            lines.push(line);
            assert(strings_view(lines@) =~= start.push(post_line(*p)));
            let mut j: usize = 0;
            while j < p.replies.len()
                invariant
                    j <= p.replies.len(),
                    strings_view(lines@) == start + seq![post_line(*p)] + p.replies@.subrange(0, j as int).map_values(
                        |r: ActivityReplyItem| reply_line(r),
                    ),
                decreases p.replies.len() - j,
            {
                let r = &p.replies[j];
                let mut rl = owned("    @");
                match &r.username {
                    Some(u) => push_str(&mut rl, u.as_str()),
                    None => push_str(&mut rl, "unknown"),
                }
                push_str(&mut rl, ": ");
                let rv = preview(&r.text, 80);
                push_str(&mut rl, rv.as_str());
                let ghost before = lines@;
                lines.push(rl);
                assert(p.replies@.subrange(0, j + 1).map_values(|r: ActivityReplyItem| reply_line(r))
                    =~= p.replies@.subrange(0, j as int).map_values(|r: ActivityReplyItem| reply_line(r)).push(
                    reply_line(p.replies@[j as int]),
                ));
                assert(strings_view(lines@) =~= strings_view(before).push(rl@));
                j = j + 1;
            }
            assert(p.replies@.subrange(0, p.replies@.len() as int) =~= p.replies@);
            let ghost next = d.posts@.subrange(0, i + 1);
            assert(next.drop_last() =~= d.posts@.subrange(0, i as int));
            assert(next.last() == *p);
            assert(strings_view(lines@) =~= seq![h] + posts_lines(next));
            i = i + 1;
        }
        assert(d.posts@.subrange(0, d.posts@.len() as int) =~= d.posts@);
    }
    let ghost report = strings_view(lines@);
    assert(report == activity_lines(*d));
    let mut k: usize = 0;
    while k < d.skipped_posts.len()
        invariant
            k <= d.skipped_posts.len(),
            strings_view(lines@) == report + strings_view(d.skipped_posts@).subrange(0, k as int).map_values(
                |id: Seq<char>| skipped_warning(id),
            ),
        decreases d.skipped_posts.len() - k,
    {
        let mut w = owned("warning: replies of post ");
        push_str(&mut w, d.skipped_posts[k].as_str());
        push_str(&mut w, " could not be fetched");
        let ghost before = strings_view(lines@);
        lines.push(w);
        assert(strings_view(d.skipped_posts@).subrange(0, k + 1).map_values(|id: Seq<char>| skipped_warning(id))
            =~= strings_view(d.skipped_posts@).subrange(0, k as int).map_values(
            |id: Seq<char>| skipped_warning(id),
        ).push(skipped_warning(d.skipped_posts@[k as int]@)));
        assert(strings_view(lines@) =~= before.push(w@));
        k = k + 1;
    }
    assert(strings_view(d.skipped_posts@).subrange(0, d.skipped_posts@.len() as int) =~= strings_view(
        d.skipped_posts@,
    ));
    join_strings(&lines, "\n")
}

/// A reply by someone else as data.
pub open spec fn reply_item_data_ok(j: JsonValue, r: ActivityReplyItem) -> bool {
    &&& object_len(j) == 4
    &&& has_key(j, 0, "reply_id"@) && str_json(field_value(j, 0), r.reply_id@)
    &&& has_key(j, 1, "text"@) && opt_json(field_value(j, 1), opt_view(r.text))
    &&& has_key(j, 2, "timestamp"@) && opt_json(field_value(j, 2), opt_view(r.timestamp))
    &&& has_key(j, 3, "username"@) && opt_json(field_value(j, 3), opt_view(r.username))
}

/// A post and its replies by others as data.
pub open spec fn post_data_ok(j: JsonValue, p: PostWithReplies) -> bool {
    &&& object_len(j) == 3
    &&& has_key(j, 0, "post_id"@) && str_json(field_value(j, 0), p.post_id@)
    &&& has_key(j, 1, "post_text"@) && opt_json(field_value(j, 1), opt_view(p.post_text))
    &&& has_key(j, 2, "replies"@) && field_value(j, 2) is Array && field_value(j, 2)->Array_0@.len()
        == p.replies@.len() && forall|i: int|
        0 <= i < p.replies@.len() ==> reply_item_data_ok(
            #[trigger] field_value(j, 2)->Array_0@[i],
            p.replies@[i],
        )
}

/// A reply record of `activity replies` carries each value under its own
/// name.
pub proof fn law_activity_reply_fields(j: JsonValue, r: ActivityReplyItem)
    requires
        reply_item_data_ok(j, r),
    ensures
        field_is(j, "reply_id"@, |v: JsonValue| str_json(v, r.reply_id@)),
        field_is(j, "text"@, |v: JsonValue| opt_json(v, opt_view(r.text))),
        field_is(j, "timestamp"@, |v: JsonValue| opt_json(v, opt_view(r.timestamp))),
        field_is(j, "username"@, |v: JsonValue| opt_json(v, opt_view(r.username))),
{
    reveal_strlit("reply_id");
    reveal_strlit("text");
    reveal_strlit("timestamp");
    reveal_strlit("username");
    let f = j->Object_0@;
    let names = seq![
        "reply_id"@,
        "text"@,
        "timestamp"@,
        "username"@,
    ];
    assert forall|i: int| 0 <= i < 4 implies #[trigger] f[i].0@ == names[i] by {
        if i == 0 {} else if i == 1 {} else if i == 2 {} else {}
    }
    assert forall|i: int, k: int| 0 <= i < 4 && 0 <= k < 4 && i != k implies names[i] != names[k] by {
        if names[i] == names[k] {
            assert(names[i].len() == names[k].len());
            assert(names[i][0] == names[k][0]);
            assert(names[i][1] == names[k][1]);
        }
    }
    lemma_field_is_at(j, "reply_id"@, 0, |v: JsonValue| str_json(v, r.reply_id@));
    lemma_field_is_at(j, "text"@, 1, |v: JsonValue| opt_json(v, opt_view(r.text)));
    lemma_field_is_at(j, "timestamp"@, 2, |v: JsonValue| opt_json(v, opt_view(r.timestamp)));
    lemma_field_is_at(j, "username"@, 3, |v: JsonValue| opt_json(v, opt_view(r.username)));
}

fn reply_item_data(r: &ActivityReplyItem) -> (j: JsonValue)
    ensures
        reply_item_data_ok(j, *r),
{
    let mut v: Vec<(String, JsonValue)> = Vec::new();
    v.push(entry("reply_id", json_str(r.reply_id.as_str())));
    v.push(entry("text", json_opt_str(&r.text)));
    v.push(entry("timestamp", json_opt_str(&r.timestamp)));
    v.push(entry("username", json_opt_str(&r.username)));
    JsonValue::Object(v)
}

fn post_data(p: &PostWithReplies) -> (j: JsonValue)
    ensures
        post_data_ok(j, *p),
{
    let mut items: Vec<JsonValue> = Vec::new();
    let mut i: usize = 0;
    while i < p.replies.len()
        invariant
            i <= p.replies.len(),
            items@.len() == i,
            forall|k: int| 0 <= k < i ==> reply_item_data_ok(#[trigger] items@[k], p.replies@[k]),
        decreases p.replies.len() - i,
    {
        items.push(reply_item_data(&p.replies[i]));
        i = i + 1;
    }
    let mut v: Vec<(String, JsonValue)> = Vec::new();
    v.push(entry("post_id", json_str(p.post_id.as_str())));
    v.push(entry("post_text", json_opt_str(&p.post_text)));
    v.push(entry("replies", JsonValue::Array(items)));
    JsonValue::Object(v)
}

/// What `activity replies` reports.
pub fn activity_output(d: &ActivityRepliesData) -> (r: CommandOutput)
    ensures
        r.command@ == "activity replies"@,
        r.human@ == activity_text(*d),
        object_len(r.data) == 5,
        has_key(r.data, 0, "posts"@) && field_value(r.data, 0) is Array && field_value(
            r.data,
            0,
        )->Array_0@.len() == d.posts@.len() && forall|i: int|
            0 <= i < d.posts@.len() ==> post_data_ok(
                #[trigger] field_value(r.data, 0)->Array_0@[i],
                d.posts@[i],
            ),
        has_key(r.data, 1, "posts_checked"@) && int_json(field_value(r.data, 1), d.posts_checked as int),
        has_key(r.data, 2, "skipped_posts"@) && field_value(r.data, 2) is Array && field_value(
            r.data,
            2,
        )->Array_0@.len() == d.skipped_posts@.len() && forall|i: int|
            0 <= i < d.skipped_posts@.len() ==> str_json(
                #[trigger] field_value(r.data, 2)->Array_0@[i],
                d.skipped_posts@[i]@,
            ),
        has_key(r.data, 3, "source"@) && str_json(field_value(r.data, 3), d.source@),
        has_key(r.data, 4, "total_replies"@) && int_json(field_value(r.data, 4), d.total_replies as int),
{
    let human = format_activity_human(d);
    let mut posts: Vec<JsonValue> = Vec::new();
    let mut i: usize = 0;
    while i < d.posts.len()
        invariant
            i <= d.posts.len(),
            posts@.len() == i,
            forall|k: int| 0 <= k < i ==> post_data_ok(#[trigger] posts@[k], d.posts@[k]),
        decreases d.posts.len() - i,
    {
        posts.push(post_data(&d.posts[i]));
        i = i + 1;
    }
    let mut skipped: Vec<JsonValue> = Vec::new();
    let mut k: usize = 0;
    while k < d.skipped_posts.len()
        invariant
            k <= d.skipped_posts.len(),
            skipped@.len() == k,
            forall|m: int| 0 <= m < k ==> str_json(#[trigger] skipped@[m], d.skipped_posts@[m]@),
        decreases d.skipped_posts.len() - k,
    {
        skipped.push(json_str(d.skipped_posts[k].as_str()));
        k = k + 1;
    }
    let mut v: Vec<(String, JsonValue)> = Vec::new();
    v.push(entry("posts", JsonValue::Array(posts)));
    v.push(entry("posts_checked", json_usize(d.posts_checked)));
    v.push(entry("skipped_posts", JsonValue::Array(skipped)));
    v.push(entry("source", json_str(d.source.as_str())));
    v.push(entry("total_replies", json_usize(d.total_replies)));
    CommandOutput { command: owned("activity replies"), human, data: JsonValue::Object(v) }
}

} // verus!
