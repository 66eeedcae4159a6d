use threads_cli::cli::activity::{
    activity_output, collect_activity, format_activity_human, others_replies, validate_recent,
    ActivityRepliesArgs,
};
use threads_cli::cli::me::{
    format_replies_human, format_threads_human, live_threads, needs_fetch, validate_limit,
    OwnReplyItem, ThreadItem,
};
use threads_cli::cli::search::{
    cached_items, format_search_human, live_items, validate_search_args, SearchPostItem,
    SearchPostsArgs,
};
use threads_cli::client::{ReplyItem, SearchResultItem, UserThreadItem};
use threads_cli::store::SearchResultRow;

fn reply(id: &str, user: Option<&str>, text: &str) -> ReplyItem {
    ReplyItem {
        id: id.to_string(),
        text: Some(text.to_string()),
        username: user.map(|u| u.to_string()),
        timestamp: None,
        owner_id: user.map(|u| format!("id-{}", u)),
    }
}

fn thread(id: &str, text: &str) -> UserThreadItem {
    UserThreadItem {
        id: id.to_string(),
        text: Some(text.to_string()),
        permalink: None,
        timestamp: None,
        username: Some("me".to_string()),
    }
}

fn search_args(query: &str, kind: &str, limit: usize) -> SearchPostsArgs {
    SearchPostsArgs { query: query.to_string(), search_type: kind.to_string(), limit, refresh: false }
}

#[test]
fn search_arguments_are_checked_and_type_upper_cased() {
    assert_eq!(validate_search_args(&search_args("AI", "top", 10)).expect("valid"), "TOP");
    assert_eq!(validate_search_args(&search_args("AI", "Recent", 10)).expect("valid"), "RECENT");
    assert_eq!(validate_search_args(&search_args("  ", "top", 10)).expect_err("query").message, "search query must be non-empty");
    assert_eq!(validate_search_args(&search_args("AI", "new", 10)).expect_err("type").message, "search type must be top or recent");
    assert_eq!(validate_search_args(&search_args("AI", "top", 0)).expect_err("limit").message, "limit must be >= 1");
}

#[test]
fn search_results_are_limited_and_formatted() {
    let data = vec![
        SearchResultItem {
            id: "123".to_string(),
            username: Some("alice".to_string()),
            text: Some("hello AI".to_string()),
            timestamp: None,
            permalink: None,
            like_count: Some(5),
            reply_count: Some(2),
        },
        SearchResultItem {
            id: "124".to_string(),
            username: None,
            text: None,
            timestamp: None,
            permalink: None,
            like_count: None,
            reply_count: None,
        },
    ];
    let items = live_items(&data, 5);
    assert_eq!(items.len(), 2);
    assert_eq!(live_items(&data, 1).len(), 1);
    let text = format_search_human("AI", "TOP", "live", &items);
    assert_eq!(text, "Search 'AI' (TOP) from live: 2 results\n  [123] @alice: hello AI (♥5 💬2)\n  [124] @unknown:  (♥0 💬0)");
    assert_eq!(format_search_human("AI", "TOP", "cache", &Vec::<SearchPostItem>::new()), "Search 'AI' (TOP): no results (source=cache)");
    let rows = vec![SearchResultRow {
        threads_post_id: "9".to_string(),
        username: None,
        text: Some("t".to_string()),
        permalink: None,
        timestamp: None,
        like_count: Some(1),
        reply_count: None,
        fetched_at: "now".to_string(),
    }];
    assert_eq!(cached_items(&rows)[0].id, "9");
}

#[test]
fn own_threads_and_replies_are_formatted() {
    assert!(validate_limit(0).is_err());
    assert!(needs_fetch(false, true));
    assert!(!needs_fetch(false, false));
    let threads = live_threads(&vec![thread("456", "my post"), thread("457", "other")], 1);
    assert_eq!(threads.len(), 1);
    assert_eq!(format_threads_human("live", &threads), "Your threads from live: 1 results\n  [456] my post (no link)");
    assert_eq!(format_threads_human("cache", &Vec::<ThreadItem>::new()), "No threads found (source=cache)");
    let replies = vec![OwnReplyItem {
        id: "789".to_string(),
        reply_to_id: Some("456".to_string()),
        text: Some("my reply".to_string()),
        permalink: Some("https://threads.net/@me/post/789".to_string()),
        timestamp: None,
        username: Some("me".to_string()),
    }];
    assert_eq!(format_replies_human("live", &replies), "Your replies from live: 1 results\n  [789] reply-to=456 my reply (https://threads.net/@me/post/789)");
    assert_eq!(format_replies_human("live", &vec![]), "No replies found (source=live)");
}

#[test]
fn activity_leaves_out_own_replies_and_failed_posts() {
    assert_eq!(validate_recent(&ActivityRepliesArgs { recent: 0, refresh: false }).expect_err("zero").message, "recent must be >= 1");
    let others = others_replies(&vec![reply("r1", Some("me"), "mine"), reply("r2", Some("bob"), "hi"), reply("r3", None, "anon")], "id-me");
    let ids: Vec<&str> = others.iter().map(|r| r.reply_id.as_str()).collect();
    assert_eq!(ids, vec!["r2", "r3"]);

    let threads = vec![thread("p1", "first"), thread("p2", "second"), thread("p3", "third")];
    let pages = vec![
        Some(vec![reply("r1", Some("me"), "mine")]),
        None,
        Some(vec![reply("r2", Some("bob"), "hello there"), reply("r3", Some("me"), "thanks")]),
    ];
    let data = collect_activity(&threads, &pages, "id-me", "live");
    assert_eq!(data.posts_checked, 3);
    assert_eq!(data.total_replies, 1);
    assert_eq!(data.posts.len(), 1);
    assert_eq!(data.posts[0].post_id, "p3");
    assert_eq!(data.skipped_posts, vec!["p2".to_string()]);
    assert_eq!(
        format_activity_human(&data),
        "Replies from others (1 total across 1 posts, source=live)\n  Post [p3]: third\n    @bob: hello there\nwarning: replies of post p2 could not be fetched"
    );
    let none = collect_activity(&threads, &vec![None, None, None], "id-me", "cache");
    assert_eq!(
        format_activity_human(&none),
        "No replies from others on your 3 most recent posts (source=cache)\nwarning: replies of post p1 could not be fetched\nwarning: replies of post p2 could not be fetched\nwarning: replies of post p3 could not be fetched"
    );
    assert_eq!(activity_output(&none).command, "activity replies");
    let quiet = collect_activity(&threads, &vec![Some(vec![]), Some(vec![]), Some(vec![])], "id-me", "cache");
    assert_eq!(format_activity_human(&quiet), "No replies from others on your 3 most recent posts (source=cache)");
}

#[test]
fn activity_matches_own_replies_by_user_id_not_by_name() {
    let mut same_name_other_user = reply("r4", Some("me"), "namesake");
    same_name_other_user.owner_id = Some("id-someone-else".to_string());
    let mut renamed_self = reply("r5", Some("old-name"), "mine");
    renamed_self.owner_id = Some("id-me".to_string());
    let others = others_replies(&vec![same_name_other_user, renamed_self], "id-me");
    let ids: Vec<&str> = others.iter().map(|r| r.reply_id.as_str()).collect();
    assert_eq!(ids, vec!["r4"]);
}
