use threads_cli::cli::publish::{
    attempt_input, build_ambiguous_publish_error, ensure_attachment_supported,
    is_ambiguous_publish_error, permalink_target, post_published_output, prepare,
    reply_published_output, result_path_text, validate_post_args, AttemptMark, PostArgs,
    PublishAction, PublishEvent, PublishFlow, PublishKind, PublishStage, PublishSubcommand,
    ReplyArgs,
};
use threads_cli::cli::PublishCommand;
use threads_cli::store::AttemptRow;
use threads_cli::client::{CreateContainerResponse, PublishContainerResponse};
use threads_cli::error::{CliError, ErrorCategory};
use threads_cli::output::JsonValue;

fn created(id: &str) -> PublishEvent {
    PublishEvent::Created(CreateContainerResponse { id: id.to_string(), link_attachment: None })
}

fn published(id: &str) -> PublishEvent {
    PublishEvent::Published(PublishContainerResponse { id: id.to_string() })
}

fn post_kind(link: Option<&str>, mode: &str) -> PublishKind {
    PublishKind::Post {
        text: "hello".to_string(),
        topic_tag: Some("demo".to_string()),
        source_url: link.map(|s| s.to_string()),
        link_mode: mode.to_string(),
    }
}

fn field<'a>(v: &'a JsonValue, key: &str) -> &'a JsonValue {
    match v {
        JsonValue::Object(fields) => fields.iter().find(|(k, _)| k == key).map(|(_, v)| v).expect("key"),
        _ => panic!("not an object"),
    }
}

fn is_str(v: &JsonValue, expected: &str) -> bool {
    matches!(v, JsonValue::Str(x) if x == expected)
}

fn start(kind: PublishKind) -> PublishFlow {
    let flow = PublishFlow::new(42, kind);
    let (flow, action) = flow.step(PublishEvent::TokenLoaded(true));
    assert!(matches!(action, PublishAction::InitClient));
    flow
}

#[test]
fn post_rejects_unknown_link_mode() {
    let args = PostArgs {
        text: "hello".to_string(),
        tag: None,
        link: Some("https://example.com".to_string()),
        link_mode: "unknown".to_string(),
    };
    let err = validate_post_args(&args).expect_err("publish post should reject unknown link mode");
    assert_eq!(err.category.as_code(), "VALIDATION_ERROR");
    assert_eq!(err.message, "link-mode must be reply or attachment");
}

#[test]
fn post_accepts_attachment_mode_and_records_attempt_metadata() {
    let args = PostArgs {
        text: "hello from attachment mode".to_string(),
        tag: Some("demo".to_string()),
        link: Some("https://example.com/source".to_string()),
        link_mode: "attachment".to_string(),
    };
    validate_post_args(&args).expect("attachment mode is accepted");
    let (kind, request) = prepare(PublishCommand { command: PublishSubcommand::Post(args) })
        .ok()
        .expect("attachment mode is accepted");
    assert!(is_str(field(&request, "link_mode"), "attachment"));
    assert!(is_str(field(&request, "link"), "https://example.com/source"));
    let input = attempt_input(&kind, "{}".to_string());
    assert_eq!(input.kind, "post");
    assert_eq!(input.source_link_mode.as_deref(), Some("attachment"));
    assert_eq!(input.source_url.as_deref(), Some("https://example.com/source"));

    let flow = PublishFlow::new(1, post_kind(Some("https://example.com/source"), "attachment"));
    let (flow, action) = flow.step(PublishEvent::TokenLoaded(false));
    match action {
        PublishAction::MarkAttempt(AttemptMark::Failed { code, message }) => {
            assert_eq!(code, "AUTH_ERROR");
            assert_eq!(message, "not authenticated; run auth login first");
        }
        _ => panic!("the attempt is marked failed"),
    }
    let (_, action) = flow.step(PublishEvent::Marked);
    match action {
        PublishAction::Finish(Err(err)) => assert_eq!(err.category.as_code(), "AUTH_ERROR"),
        _ => panic!("the run ends with the error"),
    }
}

#[test]
fn post_reply_mode_publishes_source_link_reply_and_persists_both() {
    let flow = start(post_kind(Some("https://example.com/source"), "reply"));
    let (flow, action) = flow.step(PublishEvent::ClientReady);
    match &action {
        PublishAction::CreateContainer(req) => {
            assert_eq!(req.text, "hello");
            assert_eq!(req.topic_tag.as_deref(), Some("demo"));
            assert_eq!(req.link_attachment, None);
        }
        _ => panic!("creates the main container"),
    }
    let (flow, action) = flow.step(created("create_main"));
    assert!(matches!(&action, PublishAction::PublishContainer(id) if id == "create_main"));
    let (flow, action) = flow.step(published("post_main"));
    match &action {
        PublishAction::CreateContainer(req) => {
            assert_eq!(req.text, "https://example.com/source");
            assert_eq!(req.reply_to_id.as_deref(), Some("post_main"));
        }
        _ => panic!("creates the source-link reply"),
    }
    let (flow, action) = flow.step(created("create_source"));
    assert!(matches!(&action, PublishAction::PublishContainer(id) if id == "create_source"));
    let (flow, action) = flow.step(published("post_source"));
    match &action {
        PublishAction::PersistPost(input, record) => {
            assert_eq!(input.threads_post_id, "post_source");
            assert_eq!(input.parent_threads_post_id.as_deref(), Some("post_main"));
            assert_eq!(input.kind, "reply");
            assert_eq!(input.source_link_mode.as_deref(), Some("reply"));
            assert_eq!(input.source_url.as_deref(), Some("https://example.com/source"));
            assert!(matches!(field(record, "is_source_link_reply"), JsonValue::Bool(true)));
        }
        _ => panic!("stores the source-link reply"),
    }
    let (flow, action) = flow.step(PublishEvent::Persisted);
    match &action {
        PublishAction::PersistPost(input, record) => {
            assert_eq!(input.threads_post_id, "post_main");
            assert_eq!(input.parent_threads_post_id, None);
            assert_eq!(input.kind, "post");
            assert_eq!(input.source_link_mode.as_deref(), Some("reply"));
            assert!(is_str(field(record, "mode"), "reply"));
            assert!(is_str(field(record, "result_path"), "reply-chained"));
            assert!(is_str(field(field(record, "publish_container"), "id"), "post_main"));
            assert!(is_str(field(field(field(record, "source_reply"), "publish_container"), "id"), "post_source"));
        }
        _ => panic!("stores the post"),
    }
    let (flow, action) = flow.step(PublishEvent::Persisted);
    assert!(matches!(&action, PublishAction::MarkAttempt(AttemptMark::Published { threads_post_id, .. }) if threads_post_id == "post_main"));
    let (flow, action) = flow.step(PublishEvent::Marked);
    match action {
        PublishAction::Finish(Ok(Some(summary))) => assert_eq!(summary, "mode=reply path=reply-chained"),
        _ => panic!("the run ends with the path taken"),
    }
    assert!(matches!(flow.stage, PublishStage::Done));
}

#[test]
fn post_attachment_mode_fails_if_unsupported_and_records_clear_failure() {
    let flow = start(post_kind(Some("https://example.com/source"), "attachment"));
    let (flow, action) = flow.step(PublishEvent::ClientReady);
    match &action {
        PublishAction::CreateContainer(req) => {
            assert_eq!(req.link_attachment.as_deref(), Some("https://example.com/source"));
        }
        _ => panic!("creates the main container"),
    }
    let (flow, action) = flow.step(created("create_main"));
    match &action {
        PublishAction::MarkAttempt(AttemptMark::FailedWithResponse { code, message, record }) => {
            assert_eq!(code, "API_ERROR");
            assert_eq!(message, "attachment mode requested but API payload/response does not support link_attachment");
            assert!(is_str(field(record, "mode"), "attachment"));
            assert!(is_str(field(record, "result_path"), "main-post-attachment"));
        }
        _ => panic!("the attempt is marked failed with its record"),
    }
    let (_, action) = flow.step(PublishEvent::Marked);
    match action {
        PublishAction::Finish(Err(err)) => {
            assert_eq!(err.category.as_code(), "API_ERROR");
            assert_eq!(err.message, "attachment mode requested but API payload/response does not support link_attachment");
        }
        _ => panic!("the run ends with the error"),
    }
}

#[test]
fn post_reply_network_failure_marks_attempt_ambiguous_with_recovery_guidance() {
    let flow = start(PublishKind::Reply { reply_to: "parent_1".to_string(), text: "hello reply".to_string() });
    let (flow, _) = flow.step(PublishEvent::ClientReady);
    let (flow, _) = flow.step(created("create_main"));
    let failure = CliError::new(ErrorCategory::Network, "publish container failed: network error: connection closed");
    let (flow, action) = flow.step(PublishEvent::RemoteFailed(failure));
    match &action {
        PublishAction::MarkAttempt(AttemptMark::Ambiguous { code, message, details }) => {
            assert_eq!(code, "NETWORK_ERROR");
            assert!(message.contains("publish container failed: network error"));
            assert!(details.is_some());
        }
        _ => panic!("the attempt is marked ambiguous"),
    }
    let (_, action) = flow.step(PublishEvent::Marked);
    match action {
        PublishAction::Finish(Err(err)) => {
            assert_eq!(err.category.as_code(), "AMBIGUOUS_PUBLISH_ERROR");
            assert!(err.message.contains("Recovery: inspect via `threads-cli attempts list --limit 20`"));
        }
        _ => panic!("the run ends with the ambiguous error"),
    }
}

#[test]
fn reply_publish_uses_form_encoded_container_request() {
    let flow = start(PublishKind::Reply { reply_to: "parent_1".to_string(), text: "reply-body".to_string() });
    let (_, action) = flow.step(PublishEvent::ClientReady);
    match action {
        PublishAction::CreateContainer(req) => {
            let form = threads_cli::client::container_form(&req);
            assert!(form.contains(&("text".to_string(), "reply-body".to_string())));
            assert!(form.contains(&("media_type".to_string(), "TEXT".to_string())));
            assert!(form.contains(&("reply_to_id".to_string(), "parent_1".to_string())));
            assert!(!form.iter().any(|(k, _)| k == "topic_tag" || k == "link_attachment"));
        }
        _ => panic!("creates the reply container"),
    }
}

#[test]
fn post_publish_uses_form_encoded_container_request_and_omits_optional_fields() {
    let flow = start(PublishKind::Post {
        text: "post-body".to_string(),
        topic_tag: None,
        source_url: None,
        link_mode: "reply".to_string(),
    });
    let (_, action) = flow.step(PublishEvent::ClientReady);
    match action {
        PublishAction::CreateContainer(req) => {
            let form = threads_cli::client::container_form(&req);
            assert_eq!(form, vec![("text".to_string(), "post-body".to_string()), ("media_type".to_string(), "TEXT".to_string())]);
        }
        _ => panic!("creates the post container"),
    }
}

#[test]
fn a_failed_local_store_after_publish_is_ambiguous() {
    let flow = start(PublishKind::Reply { reply_to: "p".to_string(), text: "t".to_string() });
    let (flow, _) = flow.step(PublishEvent::ClientReady);
    let (flow, _) = flow.step(created("c1"));
    let (flow, _) = flow.step(published("r1"));
    let (flow, action) = flow.step(PublishEvent::StoreFailed(CliError::new(ErrorCategory::Database, "disk full")));
    match &action {
        PublishAction::MarkAttempt(AttemptMark::Ambiguous { code, message, .. }) => {
            assert_eq!(code, "DATABASE_ERROR");
            assert_eq!(message, "disk full");
        }
        _ => panic!("marked ambiguous"),
    }
    let (_, action) = flow.step(PublishEvent::Marked);
    match action {
        PublishAction::Finish(Err(err)) => {
            assert_eq!(err.category.as_code(), "AMBIGUOUS_PUBLISH_ERROR");
            assert!(err.message.starts_with("publish completed remotely but failed to persist local post: disk full Recovery:"));
            assert!(err.message.ends_with("(attempt_id=42)."));
        }
        _ => panic!("ends ambiguous"),
    }
}

#[test]
fn permanent_remote_failures_are_marked_failed_and_returned_as_is() {
    let flow = start(post_kind(None, "reply"));
    let (flow, _) = flow.step(PublishEvent::ClientReady);
    let (flow, action) = flow.step(PublishEvent::RemoteFailed(CliError::new(ErrorCategory::Auth, "create failed: HTTP 401: bad token")));
    assert!(matches!(&action, PublishAction::MarkAttempt(AttemptMark::Failed { code, .. }) if code == "AUTH_ERROR"));
    let (_, action) = flow.step(PublishEvent::Marked);
    assert!(matches!(action, PublishAction::Finish(Err(ref e)) if e.message == "create failed: HTTP 401: bad token"));
}

#[test]
fn ambiguity_and_attachment_rules() {
    assert!(is_ambiguous_publish_error(&CliError::new(ErrorCategory::RateLimit, "slow down")));
    assert!(is_ambiguous_publish_error(&CliError::new(ErrorCategory::Api, "x failed: HTTP 502: bad gateway")));
    assert!(!is_ambiguous_publish_error(&CliError::new(ErrorCategory::Api, "x failed: HTTP 400: bad")));
    assert!(ensure_attachment_supported("attachment", &Some("u".to_string())).is_err());
    assert!(ensure_attachment_supported("attachment", &None).is_ok());
    assert!(ensure_attachment_supported("reply", &Some("u".to_string())).is_ok());
    let err = build_ambiguous_publish_error(-3, "lost");
    assert_eq!(err.message, "lost Recovery: inspect via `threads-cli attempts list --limit 20` and avoid re-posting blindly; confirm remotely before retrying (attempt_id=-3).");
    assert_eq!(result_path_text("reply", false), "mode=reply path=single-post");
    assert_eq!(result_path_text("attachment", true), "mode=attachment path=main-post-attachment");
}

#[test]
fn reply_arguments_are_checked_in_order() {
    let err = prepare(PublishCommand {
        command: PublishSubcommand::Reply(ReplyArgs { reply_to: " ".to_string(), text: "".to_string() }),
    })
    .err()
    .expect("blank reply target");
    assert_eq!(err.message, "reply-to post id must be non-empty");
    let err = prepare(PublishCommand {
        command: PublishSubcommand::Reply(ReplyArgs { reply_to: "p".to_string(), text: " ".to_string() }),
    })
    .err()
    .expect("blank text");
    assert_eq!(err.message, "text must be non-empty");
    let (kind, _) = prepare(PublishCommand {
        command: PublishSubcommand::Reply(ReplyArgs { reply_to: "p".to_string(), text: "t".to_string() }),
    })
    .ok()
    .expect("valid reply");
    let input = attempt_input(&kind, "{\"reply_to\":\"p\"}".to_string());
    assert_eq!(input.kind, "reply");
    assert_eq!(input.reply_to_id.as_deref(), Some("p"));
    assert_eq!(input.source_link_mode, None);
}

#[test]
fn post_arguments_report_the_first_broken_rule() {
    let args = PostArgs { text: "hi".to_string(), tag: Some("bad tag!".to_string()), link: Some("ftp://x".to_string()), link_mode: "nope".to_string() };
    assert_eq!(validate_post_args(&args).expect_err("tag").message, "tag contains unsupported characters");
    let args = PostArgs { text: "hi".to_string(), tag: None, link: Some("ftp://x".to_string()), link_mode: "nope".to_string() };
    assert_eq!(validate_post_args(&args).expect_err("link").message, "source link must use http or https");
}

#[test]
fn publish_outputs_report_path_and_permalink() {
    let out = post_published_output(5, "uuid-5", "mode=reply path=single-post");
    assert_eq!(out.human, "Post published (mode=reply path=single-post).");
    let out = reply_published_output(6, "uuid-6", &Some("https://threads.net/p/1".to_string()));
    assert_eq!(out.human, "Reply published. https://threads.net/p/1");
    assert!(is_str(field(&out.data, "permalink"), "https://threads.net/p/1"));
    let out = reply_published_output(6, "uuid-6", &None);
    assert_eq!(out.human, "Reply published.");
    match &out.data {
        JsonValue::Object(fields) => assert!(!fields.iter().any(|(k, _)| k == "permalink")),
        _ => panic!("object"),
    }
}

#[test]
fn permalink_comes_from_the_latest_attempt() {
    let row = AttemptRow {
        id: 9,
        attempt_uuid: "u".to_string(),
        kind: "reply".to_string(),
        status: "published".to_string(),
        threads_post_id: Some("thr_9".to_string()),
        error_code: None,
        error_message: None,
        created_at: "now".to_string(),
    };
    assert_eq!(permalink_target(&vec![row]), Some("thr_9".to_string()));
    assert_eq!(permalink_target(&vec![]), None);
}
