use threads_cli::cli::post::{
    extract_next_cursor, format_post_get_human, format_post_insights_human, insights_need_fetch,
    merge_replies, needs_reduced_fetch, normalize_insights, post_get_outcome, post_get_with_fallback, replies_fetch_cursor, replies_output,
    require_access_token, truncate, validate_replies_args, InsightData, InsightsArgs, RepliesArgs,
};
use threads_cli::client::{Cursors, InsightMetric, InsightValue, Paging, PostDetails, PostInsightsResponse};
use threads_cli::error::{CliError, ErrorCategory};
use threads_cli::store::{InsightRow, PostRow, ReplyRow};

fn metric(name: &str, values: Vec<Option<i64>>) -> InsightMetric {
    InsightMetric {
        name: name.to_string(),
        title: None,
        description: None,
        values: values.into_iter().map(|v| InsightValue { value: v, end_time: None }).collect(),
    }
}

fn post_row(id: &str, kind: &str) -> PostRow {
    PostRow {
        id: 1,
        threads_post_id: id.to_string(),
        parent_threads_post_id: Some("parent".to_string()),
        post_url: None,
        text: format!("text of {}", id),
        topic_tag: None,
        source_url: None,
        source_link_mode: None,
        kind: kind.to_string(),
        published_at: Some("2024-01-02".to_string()),
        created_at: "2024-01-02 00:00:00".to_string(),
    }
}

fn reply_row(id: &str) -> ReplyRow {
    ReplyRow {
        threads_reply_id: id.to_string(),
        parent_threads_post_id: "parent".to_string(),
        author_username: Some("bob".to_string()),
        text: Some("cached text".to_string()),
        posted_at: Some("2024-01-01T00:00:00Z".to_string()),
        created_at: "2024-01-01 00:00:00".to_string(),
    }
}

#[test]
fn normalize_insights_maps_expected_metrics() {
    let response = PostInsightsResponse {
        data: vec![metric("views", vec![Some(42)]), metric("likes", vec![Some(5)])],
    };
    let normalized = normalize_insights(&response, "2024-01-01T00:00:00+00:00".to_string());
    assert_eq!(normalized.views, Some(42));
    assert_eq!(normalized.likes, Some(5));
    assert_eq!(normalized.replies, None);
}

#[test]
fn normalize_insights_takes_first_present_value_and_last_metric() {
    let response = PostInsightsResponse {
        data: vec![
            metric("views", vec![None, Some(7), Some(9)]),
            metric("shares", vec![Some(1)]),
            metric("views", vec![Some(11)]),
            metric("unknown", vec![Some(99)]),
        ],
    };
    let normalized = normalize_insights(&response, "t".to_string());
    assert_eq!(normalized.views, Some(11));
    assert_eq!(normalized.shares, Some(1));
    assert_eq!(normalized.quotes, None);
    assert_eq!(normalized.fetched_at, "t");
}

#[test]
fn extract_next_cursor_prefers_cursors_after() {
    let paging = Paging {
        cursors: Some(Cursors {
            before: Some("b".to_string()),
            after: Some("a".to_string()),
        }),
        next: Some("https://example.test".to_string()),
    };
    assert_eq!(extract_next_cursor(&Some(paging)), Some("a".to_string()));
    assert_eq!(extract_next_cursor(&None), None);
}

#[test]
fn truncate_short_and_long_text() {
    assert_eq!(truncate("abc", 5), "abc");
    assert_eq!(truncate("abcdef", 3), "abc…");
}

#[test]
fn truncate_counts_characters_not_bytes() {
    assert_eq!(truncate("héllo", 5), "héllo");
    assert_eq!(truncate("héllo!", 2), "hé…");
}

#[test]
fn replies_rejects_zero_limit() {
    let err = validate_replies_args(&RepliesArgs { id: "post_1".to_string(), refresh: false, limit: 0 })
        .expect_err("limit=0 must fail");
    assert_eq!(err.category.as_code(), "VALIDATION_ERROR");
    assert_eq!(err.message, "limit must be >= 1");
    let err = validate_replies_args(&RepliesArgs { id: "  ".to_string(), refresh: false, limit: 0 })
        .expect_err("blank id must fail first");
    assert_eq!(err.message, "post id must be non-empty");
}

#[test]
fn access_token_is_required() {
    let err = require_access_token(None).expect_err("no token");
    assert_eq!(err.category.as_code(), "AUTH_ERROR");
    assert_eq!(err.message, "no access token found; run auth login first");
    assert_eq!(require_access_token(Some("t".to_string())).expect("token"), "t");
}

#[test]
fn insights_uses_cache_without_refresh() {
    let cached = Some(InsightRow {
        fetched_at: "2024-01-01".to_string(),
        views: Some(50),
        likes: Some(7),
        replies: Some(2),
        reposts: Some(0),
        quotes: Some(0),
        shares: Some(0),
    });
    assert!(!insights_need_fetch(&InsightsArgs { id: "post_1".to_string(), refresh: false }, &cached));
    assert!(insights_need_fetch(&InsightsArgs { id: "post_1".to_string(), refresh: true }, &cached));
    assert!(insights_need_fetch(&InsightsArgs { id: "post_1".to_string(), refresh: false }, &None));
}

#[test]
fn insights_line_shows_debug_counts() {
    let snapshot = InsightData {
        fetched_at: "t".to_string(),
        views: Some(101),
        likes: None,
        replies: Some(-1),
        reposts: None,
        quotes: None,
        shares: None,
    };
    assert_eq!(
        format_post_insights_human("post_9", "live", &Some(snapshot)),
        "Insights post_9 from live: views=Some(101) likes=None replies=Some(-1)"
    );
    assert_eq!(format_post_insights_human("p", "cache", &None), "Insights p from cache: no data");
}

#[test]
fn replies_without_refresh_uses_cache_when_no_next_cursor() {
    assert_eq!(replies_fetch_cursor(false, false, None), None);
    assert_eq!(replies_fetch_cursor(false, false, Some("c".to_string())), Some(Some("c".to_string())));
    assert_eq!(replies_fetch_cursor(false, true, Some("c".to_string())), Some(None));
    assert_eq!(replies_fetch_cursor(true, false, Some("c".to_string())), Some(None));
}

#[test]
fn merged_replies_put_local_replies_first_without_duplicates() {
    let posts = vec![post_row("r1", "reply"), post_row("p1", "post"), post_row("r2", "reply")];
    let cached = vec![reply_row("r2"), reply_row("c1"), reply_row("c1")];
    let merged = merge_replies(&posts, &cached);
    let ids: Vec<&str> = merged.iter().map(|r| r.reply_id.as_str()).collect();
    assert_eq!(ids, vec!["r1", "r2", "c1", "c1"]);
    assert_eq!(merged[0].author_username, None);
    assert_eq!(merged[0].text.as_deref(), Some("text of r1"));
    assert_eq!(merged[2].author_username.as_deref(), Some("bob"));
}

#[test]
fn replies_line_reports_counts_and_cursor() {
    let posts = vec![post_row("r1", "reply")];
    let merged = merge_replies(&posts, &vec![]);
    let out = replies_output("post_1", true, 3, &Some("cursor_next".to_string()), &merged);
    assert_eq!(out.human, "Replies post_1 from live: fetched=3 showing=1 next_cursor=cursor_next");
    let out = replies_output("post_1", false, 0, &None, &vec![]);
    assert_eq!(out.human, "Replies post_1 from cache: fetched=0 showing=0 next_cursor=none");
}

#[test]
fn post_get_reports_fetched_and_inaccessible_posts() {
    let details = PostDetails {
        id: "p1".to_string(),
        text: Some("x".repeat(100)),
        permalink: None,
        timestamp: None,
        username: None,
        shortcode: None,
    };
    let out = post_get_outcome("p1", Ok(details)).ok().expect("fetched");
    assert_eq!(out.human, format!("Post p1 fetched. {}…", "x".repeat(80)));
    let out = post_get_outcome("p2", Err(CliError::new(ErrorCategory::Api, "forbidden"))).ok().expect("inaccessible");
    assert_eq!(out.human, "Post p2 is not accessible: forbidden");
    let err = post_get_outcome("p3", Err(CliError::new(ErrorCategory::Network, "down"))).err().expect("network");
    assert_eq!(err.category.as_code(), "NETWORK_ERROR");
    assert_eq!(format_post_get_human("p4", &None), "Post p4 fetched.");
}

fn reduced_details(id: &str) -> PostDetails {
    PostDetails {
        id: id.to_string(),
        text: Some("hello".to_string()),
        permalink: Some("https://threads.net/p".to_string()),
        timestamp: None,
        username: None,
        shortcode: None,
    }
}

#[test]
fn post_get_falls_back_to_reduced_fields_when_refused() {
    let refused: Result<PostDetails, CliError> = Err(CliError::new(ErrorCategory::Auth, "forbidden"));
    assert!(needs_reduced_fetch(&refused));
    let out = post_get_with_fallback("p5", refused, Some(Ok(reduced_details("p5"))))
        .ok()
        .expect("reduced fetch succeeded");
    assert_eq!(out.human, "Post p5 fetched. hello");
    let data = format!("{:?}", out.data);
    assert!(data.contains("Bool(true)"));
    assert!(data.contains("https://threads.net/p"));
}

#[test]
fn post_get_reports_inaccessible_when_both_fetches_are_refused() {
    let full: Result<PostDetails, CliError> = Err(CliError::new(ErrorCategory::Api, "forbidden"));
    let reduced = Err(CliError::new(ErrorCategory::Api, "still forbidden"));
    let out = post_get_with_fallback("p6", full, Some(reduced)).ok().expect("inaccessible");
    assert_eq!(out.human, "Post p6 is not accessible: still forbidden");
    assert!(format!("{:?}", out.data).contains("Bool(false)"));
}

#[test]
fn post_get_returns_other_failures_of_either_fetch() {
    let full: Result<PostDetails, CliError> = Err(CliError::new(ErrorCategory::Network, "down"));
    assert!(!needs_reduced_fetch(&full));
    let err = post_get_with_fallback("p7", full, None).err().expect("network");
    assert_eq!(err.category.as_code(), "NETWORK_ERROR");
    let full: Result<PostDetails, CliError> = Err(CliError::new(ErrorCategory::Auth, "forbidden"));
    let reduced = Err(CliError::new(ErrorCategory::RateLimit, "slow down"));
    let err = post_get_with_fallback("p8", full, Some(reduced)).err().expect("rate limited");
    assert_eq!(err.category.as_code(), "RATE_LIMIT_ERROR");
    let ok: Result<PostDetails, CliError> = Ok(reduced_details("p9"));
    assert!(!needs_reduced_fetch(&ok));
}
