//! Publishing posts and replies.
//!
//! A publish runs as a state machine: each event that the caller reports
//! (a stored token found, a container created, a row written, ...) yields
//! the next action to perform.  Every attempt is recorded before anything is
//! sent; once a remote call fails, the attempt is marked and the run ends:
//! nothing is sent twice.
use vstd::prelude::*;

use crate::client::{CreateContainerRequest, CreateContainerResponse, PublishContainerResponse};
use crate::error::{CliError, ErrorCategory};
use crate::output::{entry, field_value, has_key, int_json, json_int, json_opt_str, json_str, object_len, opt_json, str_json, CommandOutput, JsonValue};
use crate::store::{error_is_transient, error_transient, PersistPostInput, PublishAttemptInput};
use crate::store::statements::opt_view;
use crate::text::{dec_int, owned, push_decimal_i64, push_str, str_eq};
use crate::cli::validation;

verus! {

pub enum PublishSubcommand {
    Post(PostArgs),
    Reply(ReplyArgs),
}

pub struct PostArgs {
    pub text: String,
    pub tag: Option<String>,
    pub link: Option<String>,
    pub link_mode: String,
}

pub struct ReplyArgs {
    pub reply_to: String,
    pub text: String,
}

// ---------------------------------------------------------------------------
// Failures
// ---------------------------------------------------------------------------

/// A failed remote call leaves the outcome unknown when the request may have
/// reached the server: network and rate-limit errors, and 5xx API errors.
pub open spec fn is_ambiguous(category: ErrorCategory, message: Seq<char>) -> bool {
    error_transient(category, message)
}

pub fn is_ambiguous_publish_error(err: &CliError) -> (r: bool)
    ensures
        r == is_ambiguous(err.category, err.message@),
{
    error_is_transient(err)
}

/// The guidance attached to an ambiguous outcome.
pub open spec fn recovery_text(attempt_id: i64, detail: Seq<char>) -> Seq<char> {
    detail
        + " Recovery: inspect via `threads-cli attempts list --limit 20` and avoid re-posting blindly; confirm remotely before retrying (attempt_id="@
        + dec_int(attempt_id as int) + ")."@
}

/// The error reported for a publish whose outcome is unknown.
pub fn build_ambiguous_publish_error(attempt_id: i64, detail: &str) -> (r: CliError)
    ensures
        r.category == ErrorCategory::AmbiguousPublish,
        r.message@ == recovery_text(attempt_id, detail@),
{
    let mut m = owned(detail);
    push_str(
        &mut m,
        " Recovery: inspect via `threads-cli attempts list --limit 20` and avoid re-posting blindly; confirm remotely before retrying (attempt_id=",
    );
    push_decimal_i64(&mut m, attempt_id);
    push_str(&mut m, ").");
    CliError { category: ErrorCategory::AmbiguousPublish, message: m }
}

/// Attachment mode with a link is refused: the API does not support link
/// attachments.
pub fn ensure_attachment_supported(link_mode: &str, source_url: &Option<String>) -> (r: Result<(), CliError>)
    ensures
        r is Err <==> (link_mode@ == "attachment"@ && source_url is Some),
        r matches Err(e) ==> e.category == ErrorCategory::Api && e.message@
            == "attachment mode requested but API payload/response does not support link_attachment"@,
{
    if str_eq(link_mode, "attachment") && source_url.is_some() {
        return Err(
            CliError::new(
                ErrorCategory::Api,
                "attachment mode requested but API payload/response does not support link_attachment",
            ),
        );
    }
    Ok(())
}

// ---------------------------------------------------------------------------
// Validation and requests
// ---------------------------------------------------------------------------

/// The message of the first rule that the arguments of a post break, if
/// any: the text, then the tag, then the link are checked, and the link mode
/// must be `reply` or `attachment`.
pub open spec fn post_args_violation(args: PostArgs) -> Option<Seq<char>> {
    if crate::text::is_blank(args.text@) {
        Some("text must be non-empty"@)
    } else if args.tag is Some && validation::tag_violation(args.tag->0@) is Some {
        validation::tag_violation(args.tag->0@)
    } else if args.link is Some && validation::link_violation(args.link->0@) is Some {
        validation::link_violation(args.link->0@)
    } else if !(args.link_mode@ == "reply"@ || args.link_mode@ == "attachment"@) {
        Some("link-mode must be reply or attachment"@)
    } else {
        None
    }
}

/// The message of the first rule that the arguments of a reply break, if
/// any: the post replied to, then the text.
pub open spec fn reply_args_violation(args: ReplyArgs) -> Option<Seq<char>> {
    if crate::text::is_blank(args.reply_to@) {
        Some("reply-to post id must be non-empty"@)
    } else if crate::text::is_blank(args.text@) {
        Some("text must be non-empty"@)
    } else {
        None
    }
}

/// Checks the arguments of a post.
pub fn validate_post_args(args: &PostArgs) -> (r: Result<(), CliError>)
    ensures
        r is Ok <==> post_args_violation(*args) is None,
        r matches Err(e) ==> e.category == ErrorCategory::Validation && post_args_violation(*args)
            == Some(e.message@),
{
    validation::validate_post_text(args.text.as_str())?;
    match &args.tag {
        Some(tag) => {
            validation::validate_topic_tag(tag.as_str())?;
        },
        None => {},
    }
    match &args.link {
        Some(url) => {
            validation::validate_source_url(url.as_str())?;
        },
        None => {},
    }
    if !str_eq(args.link_mode.as_str(), "reply") && !str_eq(args.link_mode.as_str(), "attachment") {
        return Err(CliError::new(ErrorCategory::Validation, "link-mode must be reply or attachment"));
    }
    Ok(())
}

fn clone_opt(o: &Option<String>) -> (r: Option<String>)
    ensures
        opt_view(r) == opt_view(*o),
{
    match o {
        Some(s) => Some(s.clone()),
        None => None,
    }
}

/// The request record of a post: its text, tag, link and link mode.
pub open spec fn post_request_ok(j: JsonValue, args: PostArgs) -> bool {
    &&& object_len(j) == 4
    &&& has_key(j, 0, "text"@) && str_json(field_value(j, 0), args.text@)
    &&& has_key(j, 1, "tag"@) && opt_json(field_value(j, 1), opt_view(args.tag))
    &&& has_key(j, 2, "link"@) && opt_json(field_value(j, 2), opt_view(args.link))
    &&& has_key(j, 3, "link_mode"@) && str_json(field_value(j, 3), args.link_mode@)
}

/// The request record of a reply: the post replied to and the text.
pub open spec fn reply_request_ok(j: JsonValue, args: ReplyArgs) -> bool {
    &&& object_len(j) == 2
    &&& has_key(j, 0, "reply_to"@) && str_json(field_value(j, 0), args.reply_to@)
    &&& has_key(j, 1, "text"@) && str_json(field_value(j, 1), args.text@)
}

pub fn post_request_json(args: &PostArgs) -> (r: JsonValue)
    ensures
        post_request_ok(r, *args),
{
    let mut v: Vec<(String, JsonValue)> = Vec::new();
    v.push(entry("text", json_str(args.text.as_str())));
    v.push(entry("tag", json_opt_str(&args.tag)));
    v.push(entry("link", json_opt_str(&args.link)));
    v.push(entry("link_mode", json_str(args.link_mode.as_str())));
    JsonValue::Object(v)
}

pub fn reply_request_json(args: &ReplyArgs) -> (r: JsonValue)
    ensures
        reply_request_ok(r, *args),
{
    let mut v: Vec<(String, JsonValue)> = Vec::new();
    v.push(entry("reply_to", json_str(args.reply_to.as_str())));
    v.push(entry("text", json_str(args.text.as_str())));
    JsonValue::Object(v)
}

/// The container of a post: a text post carrying the tag, and the link as an
/// attachment only in attachment mode.
pub fn main_container_request(text: &str, topic_tag: &Option<String>, source_url: &Option<String>, link_mode: &str) -> (r: CreateContainerRequest)
    ensures
        r.text@ == text@,
        r.media_type@ == "TEXT"@,
        r.reply_to_id is None,
        opt_view(r.topic_tag) == opt_view(*topic_tag),
        opt_view(r.link_attachment) == (if link_mode@ == "attachment"@ {
            opt_view(*source_url)
        } else {
            None
        }),
{
    CreateContainerRequest {
        text: owned(text),
        media_type: owned("TEXT"),
        reply_to_id: None,
        topic_tag: clone_opt(topic_tag),
        link_attachment: if str_eq(link_mode, "attachment") {
            clone_opt(source_url)
        } else {
            None
        },
    }
}

/// A text container replying to `parent_id`.
pub fn reply_container_request(text: &str, parent_id: &str) -> (r: CreateContainerRequest)
    ensures
        r.text@ == text@,
        r.media_type@ == "TEXT"@,
        r.reply_to_id matches Some(x) && x@ == parent_id@,
        r.topic_tag is None,
        r.link_attachment is None,
{
    CreateContainerRequest {
        text: owned(text),
        media_type: owned("TEXT"),
        reply_to_id: Some(owned(parent_id)),
        topic_tag: None,
        link_attachment: None,
    }
}

/// What the result of a post reports: the mode and the path taken.
pub open spec fn result_path_spec(link_mode: Seq<char>, has_source: bool) -> Seq<char> {
    if has_source {
        if link_mode == "reply"@ {
            "mode=reply path=reply-chained"@
        } else {
            "mode=attachment path=main-post-attachment"@
        }
    } else {
        "mode="@ + link_mode + " path=single-post"@
    }
}

pub fn result_path_text(link_mode: &str, has_source: bool) -> (r: String)
    ensures
        r@ == result_path_spec(link_mode@, has_source),
{
    if has_source {
        if str_eq(link_mode, "reply") {
            owned("mode=reply path=reply-chained")
        } else {
            owned("mode=attachment path=main-post-attachment")
        }
    } else {
        let mut s = owned("mode=");
        push_str(&mut s, link_mode);
        push_str(&mut s, " path=single-post");
        s
    }
}

// ---------------------------------------------------------------------------
// Preparing a publish, and its outcome
// ---------------------------------------------------------------------------

/// Checks the arguments of a reply.
pub fn validate_reply_args(args: &ReplyArgs) -> (r: Result<(), CliError>)
    ensures
        r is Ok <==> reply_args_violation(*args) is None,
        r matches Err(e) ==> e.category == ErrorCategory::Validation && reply_args_violation(*args)
            == Some(e.message@),
{
    validation::validate_reply_to(args.reply_to.as_str())?;
    validation::validate_post_text(args.text.as_str())?;
    Ok(())
}

/// What a publish command asks for: the publish, once its arguments are
/// checked, and the record of the request.
pub fn prepare(command: crate::cli::PublishCommand) -> (r: Result<(PublishKind, JsonValue), CliError>)
    ensures
        command.command matches PublishSubcommand::Post(a) ==> match post_args_violation(a) {
            Some(m) => r matches Err(e) && e.category == ErrorCategory::Validation && e.message@ == m,
            None => r matches Ok(p) && p.0 == PublishKind::Post {
                text: a.text,
                topic_tag: a.tag,
                source_url: a.link,
                link_mode: a.link_mode,
            } && post_request_ok(p.1, a),
        },
        command.command matches PublishSubcommand::Reply(a) ==> match reply_args_violation(a) {
            Some(m) => r matches Err(e) && e.category == ErrorCategory::Validation && e.message@ == m,
            None => r matches Ok(p) && p.0 == PublishKind::Reply { reply_to: a.reply_to, text: a.text }
                && reply_request_ok(p.1, a),
        },
{
    match command.command {
        PublishSubcommand::Post(args) => {
            validate_post_args(&args)?;
            let request = post_request_json(&args);
            Ok(
                (
                    PublishKind::Post {
                        text: args.text,
                        topic_tag: args.tag,
                        source_url: args.link,
                        link_mode: args.link_mode,
                    },
                    request,
                ),
            )
        },
        PublishSubcommand::Reply(args) => {
            validate_reply_args(&args)?;
            let request = reply_request_json(&args);
            Ok((PublishKind::Reply { reply_to: args.reply_to, text: args.text }, request))
        },
    }
}

/// The attempt recorded before a publish, with the text of its request.
pub fn attempt_input(kind: &PublishKind, request_json: String) -> (r: PublishAttemptInput)
    ensures
        r.request_json == request_json,
        *kind matches PublishKind::Post { text, topic_tag, source_url, link_mode } ==> {
            &&& r.kind@ == "post"@
            &&& r.text@ == text@
            &&& r.reply_to_id is None
            &&& opt_view(r.topic_tag) == opt_view(topic_tag)
            &&& opt_view(r.source_url) == opt_view(source_url)
            &&& opt_view(r.source_link_mode) == Some(link_mode@)
        },
        *kind matches PublishKind::Reply { reply_to, text } ==> {
            &&& r.kind@ == "reply"@
            &&& r.text@ == text@
            &&& opt_view(r.reply_to_id) == Some(reply_to@)
            &&& r.topic_tag is None
            &&& r.source_url is None
            &&& r.source_link_mode is None
        },
{
    match kind {
        PublishKind::Post { text, topic_tag, source_url, link_mode } => PublishAttemptInput {
            kind: owned("post"),
            text: text.clone(),
            reply_to_id: None,
            topic_tag: clone_opt(topic_tag),
            source_url: clone_opt(source_url),
            source_link_mode: Some(link_mode.clone()),
            request_json,
        },
        PublishKind::Reply { reply_to, text } => PublishAttemptInput {
            kind: owned("reply"),
            text: text.clone(),
            reply_to_id: Some(reply_to.clone()),
            topic_tag: None,
            source_url: None,
            source_link_mode: None,
            request_json,
        },
    }
}

/// The post whose permalink a published reply reports: that of the latest
/// attempt (the first of the listing), if it has one.
pub fn permalink_target(latest_attempts: &Vec<crate::store::AttemptRow>) -> (r: Option<String>)
    ensures
        latest_attempts@.len() == 0 ==> r is None,
        latest_attempts@.len() > 0 ==> opt_view(r) == opt_view(latest_attempts@[0].threads_post_id),
{
    if latest_attempts.len() == 0 {
        return None;
    }
    clone_opt(&latest_attempts[0].threads_post_id)
}

/// The data of a completed publish.
pub open spec fn publish_data_ok(d: JsonValue, attempt_id: i64, attempt_uuid: Seq<char>, note: Seq<char>, permalink: Option<Seq<char>>) -> bool {
    &&& object_len(d) == (if permalink is Some { 5int } else { 4int })
    &&& has_key(d, 0, "attempt_id"@) && int_json(field_value(d, 0), attempt_id as int)
    &&& has_key(d, 1, "attempt_uuid"@) && str_json(field_value(d, 1), attempt_uuid)
    &&& has_key(d, 2, "implemented"@) && field_value(d, 2) == JsonValue::Bool(true)
    &&& has_key(d, 3, "note"@) && str_json(field_value(d, 3), note)
    &&& permalink is Some ==> has_key(d, 4, "permalink"@) && str_json(field_value(d, 4), permalink->0)
}

fn publish_data(attempt_id: i64, attempt_uuid: &str, note: &str, permalink: &Option<String>) -> (d: JsonValue)
    ensures
        publish_data_ok(d, attempt_id, attempt_uuid@, note@, opt_view(*permalink)),
{
    let mut v: Vec<(String, JsonValue)> = Vec::new();
    v.push(entry("attempt_id", json_int(attempt_id)));
    v.push(entry("attempt_uuid", json_str(attempt_uuid)));
    v.push(entry("implemented", JsonValue::Bool(true)));
    v.push(entry("note", json_str(note)));
    match permalink {
        Some(p) => v.push(entry("permalink", json_str(p.as_str()))),
        None => {},
    }
    JsonValue::Object(v)
}

/// What a published post reports: the path it took.
pub fn post_published_output(attempt_id: i64, attempt_uuid: &str, result_path: &str) -> (r: CommandOutput)
    ensures
        r.command@ == "publish post"@,
        r.human@ == "Post published ("@ + result_path@ + ")."@,
        publish_data_ok(
            r.data,
            attempt_id,
            attempt_uuid@,
            "Publish request completed ("@ + result_path@ + ")."@,
            None,
        ),
{
    let mut human = owned("Post published (");
    push_str(&mut human, result_path);
    push_str(&mut human, ").");
    let mut note = owned("Publish request completed (");
    push_str(&mut note, result_path);
    push_str(&mut note, ").");
    CommandOutput {
        command: owned("publish post"),
        human,
        data: publish_data(attempt_id, attempt_uuid, note.as_str(), &None),
    }
}

/// What a published reply reports, with its permalink when it could be
/// fetched.
pub fn reply_published_output(attempt_id: i64, attempt_uuid: &str, permalink: &Option<String>) -> (r: CommandOutput)
    ensures
        r.command@ == "publish reply"@,
        r.human@ == match opt_view(*permalink) {
            Some(url) => "Reply published. "@ + url,
            None => "Reply published."@,
        },
        publish_data_ok(
            r.data,
            attempt_id,
            attempt_uuid@,
            "Reply publish request completed."@,
            opt_view(*permalink),
        ),
{
    let human = match permalink {
        Some(url) => {
            let mut h = owned("Reply published. ");
            push_str(&mut h, url.as_str());
            h
        },
        None => owned("Reply published."),
    };
    CommandOutput {
        command: owned("publish reply"),
        human,
        data: publish_data(attempt_id, attempt_uuid, "Reply publish request completed.", permalink),
    }
}

// ---------------------------------------------------------------------------
// Records of a publish
// ---------------------------------------------------------------------------

/// The record of a created container: its id and link attachment.
pub open spec fn create_json_ok(c: CreateContainerResponse, j: JsonValue) -> bool {
    &&& j is Object
    &&& j->Object_0@.len() == 2
    &&& j->Object_0@[0].0@ == "id"@ && str_json(j->Object_0@[0].1, c.id@)
    &&& j->Object_0@[1].0@ == "link_attachment"@ && opt_json(
        j->Object_0@[1].1,
        opt_view(c.link_attachment),
    )
}

/// The record of a published container: its id.
pub open spec fn publish_json_ok(p: PublishContainerResponse, j: JsonValue) -> bool {
    &&& j is Object
    &&& j->Object_0@.len() == 1
    &&& j->Object_0@[0].0@ == "id"@ && str_json(j->Object_0@[0].1, p.id@)
}

/// The record of a pair of calls: `create_container` and `publish_container`
/// from index `at` on.
pub open spec fn calls_json_ok(
    c: CreateContainerResponse,
    p: PublishContainerResponse,
    f: Seq<(String, JsonValue)>,
    at: int,
) -> bool {
    &&& f[at].0@ == "create_container"@ && create_json_ok(c, f[at].1)
    &&& f[at + 1].0@ == "publish_container"@ && publish_json_ok(p, f[at + 1].1)
}

/// The record of the calls of a source-link reply.
pub open spec fn source_json_ok(
    source: Option<(CreateContainerResponse, PublishContainerResponse)>,
    j: JsonValue,
) -> bool {
    match source {
        Some((sc, sp)) => j is Object && j->Object_0@.len() == 2 && calls_json_ok(
            sc,
            sp,
            j->Object_0@,
            0,
        ),
        None => true,
    }
}

/// The record of a completed publish.  A reply records its two calls; a post
/// records its mode, the path taken, its two calls and, when the source link
/// was chained as a reply, the calls of that reply under `source_reply`.
pub open spec fn publish_record_ok(
    kind: PublishKind,
    mc: CreateContainerResponse,
    mp: PublishContainerResponse,
    source: Option<(CreateContainerResponse, PublishContainerResponse)>,
    j: JsonValue,
) -> bool {
    &&& j is Object
    &&& match kind {
        PublishKind::Reply { .. } => j->Object_0@.len() == 2 && calls_json_ok(
            mc,
            mp,
            j->Object_0@,
            0,
        ),
        PublishKind::Post { link_mode, .. } => {
            let f = j->Object_0@;
            &&& f.len() == (if source is Some {
                5int
            } else {
                4int
            })
            &&& f[0].0@ == "mode"@ && str_json(f[0].1, link_mode@)
            &&& f[1].0@ == "result_path"@ && str_json(
                f[1].1,
                if source is Some {
                    "reply-chained"@
                } else {
                    "single-post"@
                },
            )
            &&& calls_json_ok(mc, mp, f, 2)
            &&& source is Some ==> (f[4].0@ == "source_reply"@ && source_json_ok(source, f[4].1))
        },
    }
}

/// The record of a source-link reply.
pub open spec fn source_record_ok(
    parent_id: Seq<char>,
    sc: CreateContainerResponse,
    sp: PublishContainerResponse,
    j: JsonValue,
) -> bool {
    &&& j is Object
    &&& j->Object_0@.len() == 6
    &&& j->Object_0@[0].0@ == "mode"@ && str_json(j->Object_0@[0].1, "reply"@)
    &&& j->Object_0@[1].0@ == "result_path"@ && str_json(j->Object_0@[1].1, "reply-chained"@)
    &&& j->Object_0@[2].0@ == "is_source_link_reply"@ && j->Object_0@[2].1 == JsonValue::Bool(true)
    &&& j->Object_0@[3].0@ == "source_parent_threads_post_id"@ && str_json(
        j->Object_0@[3].1,
        parent_id,
    )
    &&& calls_json_ok(sc, sp, j->Object_0@, 4)
}

fn create_json(c: &CreateContainerResponse) -> (j: JsonValue)
    ensures
        create_json_ok(*c, j),
{
    let mut v: Vec<(String, JsonValue)> = Vec::new();
    v.push(entry("id", json_str(c.id.as_str())));
    v.push(entry("link_attachment", json_opt_str(&c.link_attachment)));
    JsonValue::Object(v)
}

fn publish_json(p: &PublishContainerResponse) -> (j: JsonValue)
    ensures
        publish_json_ok(*p, j),
{
    let mut v: Vec<(String, JsonValue)> = Vec::new();
    v.push(entry("id", json_str(p.id.as_str())));
    JsonValue::Object(v)
}

fn push_calls(v: &mut Vec<(String, JsonValue)>, c: &CreateContainerResponse, p: &PublishContainerResponse)
    ensures
        final(v)@.len() == old(v)@.len() + 2,
        forall|i: int| 0 <= i < old(v)@.len() ==> final(v)@[i] == old(v)@[i],
        calls_json_ok(*c, *p, final(v)@, old(v)@.len() as int),
{
    v.push(entry("create_container", create_json(c)));
    v.push(entry("publish_container", publish_json(p)));
}

fn publish_record(
    kind: &PublishKind,
    mc: &CreateContainerResponse,
    mp: &PublishContainerResponse,
    source: &Option<(CreateContainerResponse, PublishContainerResponse)>,
) -> (j: JsonValue)
    ensures
        publish_record_ok(*kind, *mc, *mp, *source, j),
{
    let mut v: Vec<(String, JsonValue)> = Vec::new();
    match kind {
        PublishKind::Reply { .. } => {
            push_calls(&mut v, mc, mp);
        },
        PublishKind::Post { link_mode, .. } => {
            v.push(entry("mode", json_str(link_mode.as_str())));
            let path = match source {
                Some(_) => "reply-chained",
                None => "single-post",
            };
            v.push(entry("result_path", json_str(path)));
            push_calls(&mut v, mc, mp);
            match source {
                Some((sc, sp)) => {
                    let mut inner: Vec<(String, JsonValue)> = Vec::new();
                    push_calls(&mut inner, sc, sp);
                    v.push(entry("source_reply", JsonValue::Object(inner)));
                },
                None => {},
            }
        },
    }
    JsonValue::Object(v)
}

fn source_record(parent_id: &str, sc: &CreateContainerResponse, sp: &PublishContainerResponse) -> (j: JsonValue)
    ensures
        source_record_ok(parent_id@, *sc, *sp, j),
{
    let mut v: Vec<(String, JsonValue)> = Vec::new();
    v.push(entry("mode", json_str("reply")));
    v.push(entry("result_path", json_str("reply-chained")));
    v.push(entry("is_source_link_reply", JsonValue::Bool(true)));
    v.push(entry("source_parent_threads_post_id", json_str(parent_id)));
    push_calls(&mut v, sc, sp);
    JsonValue::Object(v)
}

/// The record of a failed remote call: for a post its mode and the path it
/// was taking, then the error's code and message.
pub open spec fn failure_record_ok(kind: PublishKind, category: ErrorCategory, message: Seq<char>, j: JsonValue) -> bool {
    &&& j is Object
    &&& {
        let f = j->Object_0@;
        match kind {
            PublishKind::Reply { .. } => {
                &&& f.len() == 2
                &&& f[0].0@ == "error_code"@ && str_json(f[0].1, category.code())
                &&& f[1].0@ == "error_message"@ && str_json(f[1].1, message)
            },
            PublishKind::Post { link_mode, .. } => {
                &&& f.len() == 4
                &&& f[0].0@ == "mode"@ && str_json(f[0].1, link_mode@)
                &&& f[1].0@ == "result_path"@ && str_json(
                    f[1].1,
                    if link_mode@ == "reply"@ {
                        "reply-chained"@
                    } else {
                        "main-post-attachment"@
                    },
                )
                &&& f[2].0@ == "error_code"@ && str_json(f[2].1, category.code())
                &&& f[3].0@ == "error_message"@ && str_json(f[3].1, message)
            },
        }
    }
}

fn failure_record(kind: &PublishKind, err: &CliError) -> (j: JsonValue)
    ensures
        failure_record_ok(*kind, err.category, err.message@, j),
{
    let mut v: Vec<(String, JsonValue)> = Vec::new();
    match kind {
        PublishKind::Post { link_mode, .. } => {
            v.push(entry("mode", json_str(link_mode.as_str())));
            let path = if str_eq(link_mode.as_str(), "reply") {
                "reply-chained"
            } else {
                "main-post-attachment"
            };
            v.push(entry("result_path", json_str(path)));
        },
        PublishKind::Reply { .. } => {},
    }
    v.push(entry("error_code", json_str(err.category.as_code())));
    v.push(entry("error_message", json_str(err.message.as_str())));
    JsonValue::Object(v)
}

// ---------------------------------------------------------------------------
// The publish machine
// ---------------------------------------------------------------------------

/// What is published.
pub enum PublishKind {
    /// A reply to an existing post.
    Reply { reply_to: String, text: String },
    /// A post, optionally with a source link given as a chained reply or as
    /// an attachment.
    Post { text: String, topic_tag: Option<String>, source_url: Option<String>, link_mode: String },
}

/// How an attempt is recorded.
pub enum AttemptMark {
    /// Failed before anything could have been published.
    Failed { code: String, message: String },
    /// Failed, with the record of the failure.
    FailedWithResponse { code: String, message: String, record: JsonValue },
    /// The outcome is unknown: the post may exist remotely.
    Ambiguous { code: String, message: String, details: Option<JsonValue> },
    /// Published as `threads_post_id`.
    Published { threads_post_id: String, response: JsonValue },
}

/// Where a publish stands.
pub enum PublishStage {
    /// Waiting for the stored token.
    LoadToken,
    /// Waiting for the client to be set up.
    InitClient,
    /// Waiting for the main container to be created.
    CreateMain,
    /// Waiting for the main container to be published.
    PublishMain { main_create: CreateContainerResponse },
    /// Waiting for the container of the source-link reply to be created.
    CreateSource { main_create: CreateContainerResponse, main_publish: PublishContainerResponse },
    /// Waiting for the source-link reply to be published.
    PublishSource {
        main_create: CreateContainerResponse,
        main_publish: PublishContainerResponse,
        source_create: CreateContainerResponse,
    },
    /// Waiting for the source-link reply to be stored.
    PersistSource {
        main_create: CreateContainerResponse,
        main_publish: PublishContainerResponse,
        source_create: CreateContainerResponse,
        source_publish: PublishContainerResponse,
    },
    /// Waiting for the published post to be stored.
    PersistMain {
        main_create: CreateContainerResponse,
        main_publish: PublishContainerResponse,
        source: Option<(CreateContainerResponse, PublishContainerResponse)>,
    },
    /// Waiting for the attempt to be marked; then the run ends with `outcome`
    /// (for a post, a summary of the path taken).
    Marking { outcome: Result<Option<String>, CliError> },
    /// Finished.
    Done,
}

pub struct PublishFlow {
    pub attempt_id: i64,
    pub kind: PublishKind,
    pub stage: PublishStage,
}

/// What the caller reports.
pub enum PublishEvent {
    /// Whether a stored token was found.
    TokenLoaded(bool),
    ClientReady,
    ClientFailed(CliError),
    Created(CreateContainerResponse),
    Published(PublishContainerResponse),
    RemoteFailed(CliError),
    Persisted,
    Marked,
    StoreFailed(CliError),
}

/// What the caller does next.
pub enum PublishAction {
    InitClient,
    CreateContainer(CreateContainerRequest),
    PublishContainer(String),
    /// Store a published post; the caller sets its `raw_json` to the text of
    /// the record.
    PersistPost(PersistPostInput, JsonValue),
    MarkAttempt(AttemptMark),
    Finish(Result<Option<String>, CliError>),
}

/// The stages in which a remote call is outstanding.
pub open spec fn remote_stage(s: PublishStage) -> bool {
    ||| s is CreateMain
    ||| s is PublishMain
    ||| s is CreateSource
    ||| s is PublishSource
}

/// The events that a stage waits for.
pub open spec fn accepts(s: PublishStage, e: PublishEvent) -> bool {
    match s {
        PublishStage::LoadToken => e is TokenLoaded || e is StoreFailed,
        PublishStage::InitClient => e is ClientReady || e is ClientFailed,
        PublishStage::CreateMain => e is Created || e is RemoteFailed,
        PublishStage::CreateSource { .. } => e is Created || e is RemoteFailed,
        PublishStage::PublishMain { .. } => e is Published || e is RemoteFailed,
        PublishStage::PublishSource { .. } => e is Published || e is RemoteFailed,
        PublishStage::PersistSource { .. } => e is Persisted || e is StoreFailed,
        PublishStage::PersistMain { .. } => e is Persisted || e is StoreFailed,
        PublishStage::Marking { .. } => e is Marked || e is StoreFailed,
        PublishStage::Done => false,
    }
}

/// Actions that send something to the remote service.
pub open spec fn sends(a: PublishAction) -> bool {
    a is CreateContainer || a is PublishContainer
}

pub open spec fn kind_is_attachment(kind: PublishKind) -> bool {
    kind matches PublishKind::Post { link_mode, .. } && link_mode@ == "attachment"@
}

/// A post whose link is refused once its container exists.
pub open spec fn attachment_refused(kind: PublishKind) -> bool {
    kind matches PublishKind::Post { link_mode, source_url, .. } && link_mode@ == "attachment"@
        && source_url is Some
}

/// A post whose source link is published as a reply to it.
pub open spec fn chains_source(kind: PublishKind) -> bool {
    kind matches PublishKind::Post { link_mode, source_url, .. } && link_mode@ == "reply"@
        && source_url is Some
}

/// The error that refuses a link attachment.
pub open spec fn attachment_error_message() -> Seq<char> {
    "attachment mode requested but API payload/response does not support link_attachment"@
}

/// The error returned after a failed remote call.
pub open spec fn failure_outcome(attempt_id: i64, category: ErrorCategory, message: Seq<char>) -> (ErrorCategory, Seq<char>) {
    if is_ambiguous(category, message) {
        (ErrorCategory::AmbiguousPublish, recovery_text(attempt_id, message))
    } else {
        (category, message)
    }
}

/// The record of an attempt after a failed remote call: failed with its
/// record when an attachment was refused by the API, ambiguous with its
/// record when the outcome is unknown, failed otherwise.
pub open spec fn failure_mark_ok(kind: PublishKind, category: ErrorCategory, message: Seq<char>, m: AttemptMark) -> bool {
    if kind_is_attachment(kind) && category == ErrorCategory::Api {
        m matches AttemptMark::FailedWithResponse { code, message: msg, record } && code@
            == category.code() && msg@ == message && failure_record_ok(kind, category, message, record)
    } else if is_ambiguous(category, message) {
        m matches AttemptMark::Ambiguous { code, message: msg, details } && code@ == category.code()
            && msg@ == message && details is Some && failure_record_ok(
            kind,
            category,
            message,
            details->0,
        )
    } else {
        m matches AttemptMark::Failed { code, message: msg } && code@ == category.code() && msg@
            == message
    }
}

/// After a failed remote call the attempt is marked and the run then ends
/// with the error of `failure_outcome`.
pub open spec fn remote_failure(attempt_id: i64, kind: PublishKind, category: ErrorCategory, message: Seq<char>, next: PublishStage, a: PublishAction) -> bool {
    &&& a matches PublishAction::MarkAttempt(m) && failure_mark_ok(kind, category, message, m)
    &&& next matches PublishStage::Marking { outcome } && outcome matches Err(x) && (
    x.category, x.message@) == failure_outcome(attempt_id, category, message)
}

/// A failure before any remote call: the attempt is marked failed and the
/// run then ends with that error.
pub open spec fn local_failure(category: ErrorCategory, message: Seq<char>, next: PublishStage, a: PublishAction) -> bool {
    &&& a matches PublishAction::MarkAttempt(m) && m matches AttemptMark::Failed { code, message: msg }
        && code@ == category.code() && msg@ == message
    &&& next matches PublishStage::Marking { outcome } && outcome matches Err(x)
        && x.category == category && x.message@ == message
}

/// A failure to store a published post: the attempt is marked ambiguous with
/// the record of the publish, and the run then ends with an ambiguous error
/// that carries the recovery guidance.
pub open spec fn persist_failure(attempt_id: i64, prefix: Seq<char>, message: Seq<char>, record: JsonValue, next: PublishStage, a: PublishAction) -> bool {
    &&& a matches PublishAction::MarkAttempt(m) && m matches AttemptMark::Ambiguous {
        code,
        message: msg,
        details,
    } && code@ == "DATABASE_ERROR"@ && msg@ == message && details == Some(record)
    &&& next matches PublishStage::Marking { outcome } && outcome matches Err(x)
        && x.category == ErrorCategory::AmbiguousPublish && x.message@ == recovery_text(
        attempt_id,
        prefix + message,
    )
}

/// The container that a publish starts with.
pub open spec fn main_request_ok(kind: PublishKind, r: CreateContainerRequest) -> bool {
    &&& r.media_type@ == "TEXT"@
    &&& match kind {
        PublishKind::Reply { reply_to, text } => {
            &&& r.text@ == text@
            &&& opt_view(r.reply_to_id) == Some(reply_to@)
            &&& r.topic_tag is None
            &&& r.link_attachment is None
        },
        PublishKind::Post { text, topic_tag, source_url, link_mode } => {
            &&& r.text@ == text@
            &&& r.reply_to_id is None
            &&& opt_view(r.topic_tag) == opt_view(topic_tag)
            &&& opt_view(r.link_attachment) == (if link_mode@ == "attachment"@ {
                opt_view(source_url)
            } else {
                None
            })
        },
    }
}

/// The container of a source-link reply: the link as text, replying to the
/// post.
pub open spec fn source_request_ok(kind: PublishKind, parent_id: Seq<char>, r: CreateContainerRequest) -> bool {
    &&& kind matches PublishKind::Post { source_url, .. } && opt_view(source_url) == Some(r.text@)
    &&& r.media_type@ == "TEXT"@
    &&& opt_view(r.reply_to_id) == Some(parent_id)
    &&& r.topic_tag is None
    &&& r.link_attachment is None
}

/// The stored row of a published post or reply.
pub open spec fn main_post_ok(kind: PublishKind, id: Seq<char>, r: PersistPostInput) -> bool {
    &&& r.threads_post_id@ == id
    &&& r.post_url is None
    &&& r.published_at is None
    &&& match kind {
        PublishKind::Reply { reply_to, text } => {
            &&& r.kind@ == "reply"@
            &&& r.text@ == text@
            &&& opt_view(r.parent_threads_post_id) == Some(reply_to@)
            &&& r.topic_tag is None
            &&& r.source_url is None
            &&& r.source_link_mode is None
        },
        PublishKind::Post { text, topic_tag, source_url, link_mode } => {
            &&& r.kind@ == "post"@
            &&& r.text@ == text@
            &&& r.parent_threads_post_id is None
            &&& opt_view(r.topic_tag) == opt_view(topic_tag)
            &&& opt_view(r.source_url) == opt_view(source_url)
            &&& opt_view(r.source_link_mode) == Some(link_mode@)
        },
    }
}

/// The stored row of a source-link reply: the link as text and as source,
/// replying to the post.
pub open spec fn source_post_ok(kind: PublishKind, id: Seq<char>, parent_id: Seq<char>, r: PersistPostInput) -> bool {
    &&& kind matches PublishKind::Post { source_url, link_mode, .. } && opt_view(source_url) == Some(
        r.text@,
    ) && opt_view(r.source_link_mode) == Some(link_mode@)
    &&& r.threads_post_id@ == id
    &&& opt_view(r.parent_threads_post_id) == Some(parent_id)
    &&& r.post_url is None
    &&& r.topic_tag is None
    &&& opt_view(r.source_url) == Some(r.text@)
    &&& r.kind@ == "reply"@
    &&& r.published_at is None
}

/// What a completed run reports: for a post, the path taken.
pub open spec fn success_summary(kind: PublishKind) -> Option<Seq<char>> {
    match kind {
        PublishKind::Reply { .. } => None,
        PublishKind::Post { source_url, link_mode, .. } => Some(
            result_path_spec(link_mode@, source_url is Some),
        ),
    }
}

/// The stages that only a post with a chained source link reaches.
pub open spec fn flow_wf(f: PublishFlow) -> bool {
    &&& (f.stage is CreateSource || f.stage is PublishSource || f.stage is PersistSource)
        ==> chains_source(f.kind)
    &&& f.stage matches PublishStage::PersistMain { source, .. } ==> (source is Some
        ==> chains_source(f.kind))
}

fn failure_mark(kind: &PublishKind, err: &CliError) -> (m: AttemptMark)
    ensures
        failure_mark_ok(*kind, err.category, err.message@, m),
{
    let attachment = match kind {
        PublishKind::Post { link_mode, .. } => str_eq(link_mode.as_str(), "attachment"),
        PublishKind::Reply { .. } => false,
    };
    let code = owned(err.category.as_code());
    let message = err.message.clone();
    let api = match err.category {
        ErrorCategory::Api => true,
        _ => false,
    };
    if attachment && api {
        AttemptMark::FailedWithResponse { code, message, record: failure_record(kind, err) }
    } else if is_ambiguous_publish_error(err) {
        AttemptMark::Ambiguous { code, message, details: Some(failure_record(kind, err)) }
    } else {
        AttemptMark::Failed { code, message }
    }
}

fn fail_remote(attempt_id: i64, kind: &PublishKind, err: CliError) -> (r: (PublishStage, PublishAction))
    ensures
        remote_failure(attempt_id, *kind, err.category, err.message@, r.0, r.1),
{
    let mark = failure_mark(kind, &err);
    let returned = if is_ambiguous_publish_error(&err) {
        build_ambiguous_publish_error(attempt_id, err.message.as_str())
    } else {
        err
    };
    (PublishStage::Marking { outcome: Err(returned) }, PublishAction::MarkAttempt(mark))
}

fn fail_local(err: CliError) -> (r: (PublishStage, PublishAction))
    ensures
        local_failure(err.category, err.message@, r.0, r.1),
{
    let mark = AttemptMark::Failed { code: owned(err.category.as_code()), message: err.message.clone() };
    (PublishStage::Marking { outcome: Err(err) }, PublishAction::MarkAttempt(mark))
}

fn fail_persist(attempt_id: i64, prefix: &str, err: CliError, record: JsonValue) -> (r: (PublishStage, PublishAction))
    ensures
        persist_failure(attempt_id, prefix@, err.message@, record, r.0, r.1),
{
    let mut detail = owned(prefix);
    push_str(&mut detail, err.message.as_str());
    let returned = build_ambiguous_publish_error(attempt_id, detail.as_str());
    let mark = AttemptMark::Ambiguous {
        code: owned(ErrorCategory::Database.as_code()),
        message: err.message,
        details: Some(record),
    };
    (PublishStage::Marking { outcome: Err(returned) }, PublishAction::MarkAttempt(mark))
}

/// The first container of a publish.
fn main_request(kind: &PublishKind) -> (r: CreateContainerRequest)
    ensures
        main_request_ok(*kind, r),
{
    match kind {
        PublishKind::Reply { reply_to, text } => reply_container_request(text.as_str(), reply_to.as_str()),
        PublishKind::Post { text, topic_tag, source_url, link_mode } => main_container_request(
            text.as_str(),
            topic_tag,
            source_url,
            link_mode.as_str(),
        ),
    }
}

/// The source link to chain as a reply, if the post has one in reply mode.
fn chained_source(kind: &PublishKind) -> (r: Option<String>)
    ensures
        r is Some <==> chains_source(*kind),
        r matches Some(u) ==> (*kind matches PublishKind::Post { source_url, .. } && opt_view(
            source_url,
        ) == Some(u@)),
{
    match kind {
        PublishKind::Post { source_url, link_mode, .. } => {
            if str_eq(link_mode.as_str(), "reply") {
                clone_opt(source_url)
            } else {
                None
            }
        },
        PublishKind::Reply { .. } => None,
    }
}

fn refuses_attachment(kind: &PublishKind) -> (r: bool)
    ensures
        r == attachment_refused(*kind),
{
    match kind {
        PublishKind::Post { source_url, link_mode, .. } => {
            ensure_attachment_supported(link_mode.as_str(), source_url).is_err()
        },
        PublishKind::Reply { .. } => false,
    }
}

/// The stored row of a published post or reply; its raw record is set by the
/// caller.
fn main_post_input(kind: &PublishKind, threads_post_id: &str) -> (r: PersistPostInput)
    ensures
        main_post_ok(*kind, threads_post_id@, r),
{
    match kind {
        PublishKind::Reply { reply_to, text } => PersistPostInput {
            threads_post_id: owned(threads_post_id),
            parent_threads_post_id: Some(reply_to.clone()),
            post_url: None,
            text: text.clone(),
            topic_tag: None,
            source_url: None,
            source_link_mode: None,
            kind: owned("reply"),
            published_at: None,
            raw_json: String::new(),
        },
        PublishKind::Post { text, topic_tag, source_url, link_mode } => PersistPostInput {
            threads_post_id: owned(threads_post_id),
            parent_threads_post_id: None,
            post_url: None,
            text: text.clone(),
            topic_tag: clone_opt(topic_tag),
            source_url: clone_opt(source_url),
            source_link_mode: Some(link_mode.clone()),
            kind: owned("post"),
            published_at: None,
            raw_json: String::new(),
        },
    }
}

/// The stored row of the source-link reply `id` to the post `parent_id`.
fn source_post_input(kind: &PublishKind, id: &str, parent_id: &str) -> (r: PersistPostInput)
    requires
        chains_source(*kind),
    ensures
        source_post_ok(*kind, id@, parent_id@, r),
{
    let url = chained_source(kind);
    let link_mode = match kind {
        PublishKind::Post { link_mode, .. } => link_mode.clone(),
        PublishKind::Reply { .. } => String::new(),
    };
    let text = match url {
        Some(u) => u,
        None => String::new(),
    };
    PersistPostInput {
        threads_post_id: owned(id),
        parent_threads_post_id: Some(owned(parent_id)),
        post_url: None,
        text: text.clone(),
        topic_tag: None,
        source_url: Some(text),
        source_link_mode: Some(link_mode),
        kind: owned("reply"),
        published_at: None,
        raw_json: String::new(),
    }
}

fn success_value(kind: &PublishKind) -> (r: Option<String>)
    ensures
        opt_view(r) == success_summary(*kind),
{
    match kind {
        PublishKind::Reply { .. } => None,
        PublishKind::Post { source_url, link_mode, .. } => Some(
            result_path_text(link_mode.as_str(), source_url.is_some()),
        ),
    }
}

/// One step of a publish: from `f`, on `event`, to `g` with action `a`.
/// A run waits for the stored token, sets up the client, creates and
/// publishes the main container (and, for a post whose source link is
/// chained, the container of the source-link reply), stores what was
/// published, marks the attempt, and finishes.  Any failure marks the
/// attempt and finishes; once a remote call has failed nothing more is sent.
pub open spec fn step_ok(f: PublishFlow, event: PublishEvent, g: PublishFlow, a: PublishAction) -> bool {
    &&& (g.attempt_id == f.attempt_id)
    &&& (g.kind == f.kind)
    &&& (f.stage is LoadToken ==> (event matches PublishEvent::TokenLoaded(found) ==> if found {
            g.stage is InitClient && a is InitClient
        } else {
            local_failure(
                ErrorCategory::Auth,
                "not authenticated; run auth login first"@,
                g.stage,
                a,
            )
        }))
    &&& (f.stage is InitClient ==> (event is ClientReady ==> (g.stage is CreateMain
            && a is CreateContainer && main_request_ok(f.kind, a->CreateContainer_0))))
    &&& (f.stage is InitClient ==> (event matches PublishEvent::ClientFailed(e)
            ==> local_failure(e.category, e.message@, g.stage, a)))
    &&& (remote_stage(f.stage) ==> (event matches PublishEvent::RemoteFailed(e)
            ==> remote_failure(f.attempt_id, f.kind, e.category, e.message@, g.stage, a)))
    &&& (f.stage is CreateMain ==> (event matches PublishEvent::Created(c) ==> if attachment_refused(
            f.kind,
        ) {
            remote_failure(
                f.attempt_id,
                f.kind,
                ErrorCategory::Api,
                attachment_error_message(),
                g.stage,
                a,
            )
        } else {
            &&& g.stage == PublishStage::PublishMain { main_create: c }
            &&& a is PublishContainer && a->PublishContainer_0@ == c.id@
        }))
    &&& (f.stage matches PublishStage::PublishMain { main_create } ==> (event matches PublishEvent::Published(
            p,
        ) ==> if chains_source(f.kind) {
            &&& g.stage == PublishStage::CreateSource { main_create, main_publish: p }
            &&& a is CreateContainer && source_request_ok(f.kind, p.id@, a->CreateContainer_0)
        } else {
            &&& g.stage == PublishStage::PersistMain { main_create, main_publish: p, source: None }
            &&& a is PersistPost && main_post_ok(f.kind, p.id@, a->PersistPost_0)
                && publish_record_ok(f.kind, main_create, p, None, a->PersistPost_1)
        }))
    &&& (f.stage matches PublishStage::CreateSource { main_create, main_publish } ==> (
        event matches PublishEvent::Created(sc) ==> {
            &&& g.stage == PublishStage::PublishSource {
                main_create,
                main_publish,
                source_create: sc,
            }
            &&& a is PublishContainer && a->PublishContainer_0@ == sc.id@
        }))
    &&& (f.stage matches PublishStage::PublishSource { main_create, main_publish, source_create }
            ==> (event matches PublishEvent::Published(sp) ==> {
            &&& g.stage == PublishStage::PersistSource {
                main_create,
                main_publish,
                source_create,
                source_publish: sp,
            }
            &&& a is PersistPost && source_post_ok(
                f.kind,
                sp.id@,
                main_publish.id@,
                a->PersistPost_0,
            ) && source_record_ok(main_publish.id@, source_create, sp, a->PersistPost_1)
        }))
    &&& (f.stage matches PublishStage::PersistSource {
            main_create,
            main_publish,
            source_create,
            source_publish,
        } ==> {
            &&& event is Persisted ==> {
                &&& g.stage == PublishStage::PersistMain {
                    main_create,
                    main_publish,
                    source: Some((source_create, source_publish)),
                }
                &&& a is PersistPost && main_post_ok(f.kind, main_publish.id@, a->PersistPost_0)
                    && publish_record_ok(
                    f.kind,
                    main_create,
                    main_publish,
                    Some((source_create, source_publish)),
                    a->PersistPost_1,
                )
            }
            &&& event matches PublishEvent::StoreFailed(e) ==> (exists|record: JsonValue|
                publish_record_ok(
                    f.kind,
                    main_create,
                    main_publish,
                    Some((source_create, source_publish)),
                    record,
                ) && persist_failure(
                    f.attempt_id,
                    "publish completed remotely but failed to persist source link reply: "@,
                    e.message@,
                    record,
                    g.stage,
                    a,
                ))
        })
    &&& (f.stage matches PublishStage::PersistMain { main_create, main_publish, source } ==> {
            &&& event is Persisted ==> {
                &&& a matches PublishAction::MarkAttempt(m) && m matches AttemptMark::Published {
                    threads_post_id,
                    response,
                } && threads_post_id@ == main_publish.id@ && publish_record_ok(
                    f.kind,
                    main_create,
                    main_publish,
                    source,
                    response,
                )
                &&& g.stage matches PublishStage::Marking { outcome } && outcome matches Ok(
                    summary,
                ) && opt_view(summary) == success_summary(f.kind)
            }
            &&& event matches PublishEvent::StoreFailed(e) ==> (exists|record: JsonValue|
                publish_record_ok(f.kind, main_create, main_publish, source, record)
                    && persist_failure(
                    f.attempt_id,
                    "publish completed remotely but failed to persist local post: "@,
                    e.message@,
                    record,
                    g.stage,
                    a,
                ))
        })
    &&& (f.stage matches PublishStage::Marking { outcome } ==> {
            &&& event is Marked ==> a == PublishAction::Finish(outcome)
            &&& event matches PublishEvent::StoreFailed(e) ==> a == PublishAction::Finish(Err(e))
            &&& g.stage is Done
        })
    &&& (f.stage is LoadToken ==> (event matches PublishEvent::StoreFailed(e) ==> a
            == PublishAction::Finish(Err(e)) && g.stage is Done))
    &&& (event is RemoteFailed ==> !sends(a) && g.stage is Marking)
    &&& (f.stage is Marking ==> a is Finish)
}

impl PublishFlow {
    /// A publish for a recorded attempt; it starts by loading the token.
    pub fn new(attempt_id: i64, kind: PublishKind) -> (r: PublishFlow)
        ensures
            r.attempt_id == attempt_id,
            r.kind == kind,
            r.stage is LoadToken,
            flow_wf(r),
    {
        PublishFlow { attempt_id, kind, stage: PublishStage::LoadToken }
    }
    /// The next action after `event`.  Once a remote call has failed, the
    /// attempt is marked and the run ends: nothing more is sent.
    pub fn step(self, event: PublishEvent) -> (r: (PublishFlow, PublishAction))
        requires
            flow_wf(self),
            accepts(self.stage, event),
        ensures
            flow_wf(r.0),
            step_ok(self, event, r.0, r.1),
    {
        let PublishFlow { attempt_id, kind, stage } = self;
        let (next, action) = match stage {
            PublishStage::LoadToken => match event {
                PublishEvent::TokenLoaded(found) => {
                    if found {
                        (PublishStage::InitClient, PublishAction::InitClient)
                    } else {
                        fail_local(
                            CliError::new(ErrorCategory::Auth, "not authenticated; run auth login first"),
                        )
                    }
                },
                PublishEvent::StoreFailed(e) => (PublishStage::Done, PublishAction::Finish(Err(e))),
                _ => (PublishStage::Done, PublishAction::InitClient),
            },
            PublishStage::InitClient => match event {
                PublishEvent::ClientReady => (
                    PublishStage::CreateMain,
                    PublishAction::CreateContainer(main_request(&kind)),
                ),
                PublishEvent::ClientFailed(e) => fail_local(e),
                _ => (PublishStage::Done, PublishAction::InitClient),
            },
            PublishStage::CreateMain => match event {
                PublishEvent::Created(c) => {
                    if refuses_attachment(&kind) {
                        fail_remote(
                            attempt_id,
                            &kind,
                            CliError::new(
                                ErrorCategory::Api,
                                "attachment mode requested but API payload/response does not support link_attachment",
                            ),
                        )
                    } else {
                        let id = c.id.clone();
                        (PublishStage::PublishMain { main_create: c }, PublishAction::PublishContainer(id))
                    }
                },
                PublishEvent::RemoteFailed(e) => fail_remote(attempt_id, &kind, e),
                _ => (PublishStage::Done, PublishAction::InitClient),
            },
            PublishStage::PublishMain { main_create } => match event {
                PublishEvent::Published(p) => {
                    match chained_source(&kind) {
                        Some(url) => {
                            let req = reply_container_request(url.as_str(), p.id.as_str());
                            (
                                PublishStage::CreateSource { main_create, main_publish: p },
                                PublishAction::CreateContainer(req),
                            )
                        },
                        None => {
                            let input = main_post_input(&kind, p.id.as_str());
                            let record = publish_record(&kind, &main_create, &p, &None);
                            (
                                PublishStage::PersistMain { main_create, main_publish: p, source: None },
                                PublishAction::PersistPost(input, record),
                            )
                        },
                    }
                },
                PublishEvent::RemoteFailed(e) => fail_remote(attempt_id, &kind, e),
                _ => (PublishStage::Done, PublishAction::InitClient),
            },
            PublishStage::CreateSource { main_create, main_publish } => match event {
                PublishEvent::Created(sc) => {
                    let id = sc.id.clone();
                    (
                        PublishStage::PublishSource { main_create, main_publish, source_create: sc },
                        PublishAction::PublishContainer(id),
                    )
                },
                PublishEvent::RemoteFailed(e) => fail_remote(attempt_id, &kind, e),
                _ => (PublishStage::Done, PublishAction::InitClient),
            },
            PublishStage::PublishSource { main_create, main_publish, source_create } => match event {
                PublishEvent::Published(sp) => {
                    let input = source_post_input(&kind, sp.id.as_str(), main_publish.id.as_str());
                    let record = source_record(main_publish.id.as_str(), &source_create, &sp);
                    (
                        PublishStage::PersistSource {
                            main_create,
                            main_publish,
                            source_create,
                            source_publish: sp,
                        },
                        PublishAction::PersistPost(input, record),
                    )
                },
                PublishEvent::RemoteFailed(e) => fail_remote(attempt_id, &kind, e),
                _ => (PublishStage::Done, PublishAction::InitClient),
            },
            PublishStage::PersistSource { main_create, main_publish, source_create, source_publish } => {
                let source = Some((source_create, source_publish));
                let record = publish_record(&kind, &main_create, &main_publish, &source);
                match event {
                    PublishEvent::Persisted => {
                        let input = main_post_input(&kind, main_publish.id.as_str());
                        (
                            PublishStage::PersistMain { main_create, main_publish, source },
                            PublishAction::PersistPost(input, record),
                        )
                    },
                    PublishEvent::StoreFailed(e) => fail_persist(
                        attempt_id,
                        "publish completed remotely but failed to persist source link reply: ",
                        e,
                        record,
                    ),
                    _ => (PublishStage::Done, PublishAction::InitClient),
                }
            },
            PublishStage::PersistMain { main_create, main_publish, source } => {
                let record = publish_record(&kind, &main_create, &main_publish, &source);
                match event {
                    PublishEvent::Persisted => {
                        let mark = AttemptMark::Published {
                            threads_post_id: main_publish.id.clone(),
                            response: record,
                        };
                        (
                            PublishStage::Marking { outcome: Ok(success_value(&kind)) },
                            PublishAction::MarkAttempt(mark),
                        )
                    },
                    PublishEvent::StoreFailed(e) => fail_persist(
                        attempt_id,
                        "publish completed remotely but failed to persist local post: ",
                        e,
                        record,
                    ),
                    _ => (PublishStage::Done, PublishAction::InitClient),
                }
            },
            PublishStage::Marking { outcome } => match event {
                PublishEvent::Marked => (PublishStage::Done, PublishAction::Finish(outcome)),
                PublishEvent::StoreFailed(e) => (PublishStage::Done, PublishAction::Finish(Err(e))),
                _ => (PublishStage::Done, PublishAction::InitClient),
            },
            PublishStage::Done => (PublishStage::Done, PublishAction::InitClient),
        };
        (PublishFlow { attempt_id, kind, stage: next }, action)
    }
}

/// A run of the publish machine: `flows[i]` steps on `events[i]` to
/// `flows[i + 1]`, performing `actions[i]`.
pub open spec fn is_run(flows: Seq<PublishFlow>, events: Seq<PublishEvent>, actions: Seq<PublishAction>) -> bool {
    &&& flows.len() == events.len() + 1
    &&& actions.len() == events.len()
    &&& forall|i: int|
        0 <= i < events.len() ==> accepts(flows[i].stage, #[trigger] events[i]) && step_ok(
            flows[i],
            events[i],
            flows[i + 1],
            actions[i],
        )
}

/// Once a remote call has failed, nothing more is sent: the attempt is
/// marked, the run finishes, and nothing follows.
pub proof fn law_nothing_sent_after_remote_failure(
    flows: Seq<PublishFlow>,
    events: Seq<PublishEvent>,
    actions: Seq<PublishAction>,
    k: int,
)
    requires
        is_run(flows, events, actions),
        0 <= k < events.len(),
        events[k] is RemoteFailed,
    ensures
        actions.len() <= k + 2,
        forall|j: int| k <= j < actions.len() ==> !sends(#[trigger] actions[j]),
        actions[k] is MarkAttempt,
        k + 1 < actions.len() ==> actions[k + 1] is Finish,
{
    assert(accepts(flows[k].stage, events[k]) && step_ok(flows[k], events[k], flows[k + 1], actions[k]));
    assert(remote_stage(flows[k].stage));
    assert(flows[k + 1].stage is Marking);
    if k + 1 < events.len() {
        assert(accepts(flows[k + 1].stage, events[k + 1]) && step_ok(
            flows[k + 1],
            events[k + 1],
            flows[k + 2],
            actions[k + 1],
        ));
        assert(flows[k + 2].stage is Done);
        if k + 2 < events.len() {
            assert(accepts(flows[k + 2].stage, events[k + 2]));
        }
    }
}

/// The stages that a post whose link attachment is refused can reach.
pub open spec fn refused_attachment_stage(s: PublishStage) -> bool {
    ||| s is LoadToken
    ||| s is InitClient
    ||| s is CreateMain
    ||| s is Marking
    ||| s is Done
}

/// A post in attachment mode with a link is never published: its run
/// creates the main container at most, and then fails.
pub proof fn law_refused_attachment_never_published(
    flows: Seq<PublishFlow>,
    events: Seq<PublishEvent>,
    actions: Seq<PublishAction>,
)
    requires
        is_run(flows, events, actions),
        flows[0].stage is LoadToken,
        attachment_refused(flows[0].kind),
    ensures
        forall|j: int| 0 <= j < actions.len() ==> !(#[trigger] actions[j] is PublishContainer),
        forall|j: int| 0 <= j < actions.len() ==> !(#[trigger] actions[j] is PersistPost),
{
    assert forall|j: int| 0 <= j < actions.len() implies !(#[trigger] actions[j] is PublishContainer)
        && !(actions[j] is PersistPost) by {
        lemma_refused_attachment_stages(flows, events, actions, j);
        assert(accepts(flows[j].stage, events[j]) && step_ok(flows[j], events[j], flows[j + 1], actions[j]));
    }
}

proof fn lemma_refused_attachment_stages(
    flows: Seq<PublishFlow>,
    events: Seq<PublishEvent>,
    actions: Seq<PublishAction>,
    j: int,
)
    requires
        is_run(flows, events, actions),
        flows[0].stage is LoadToken,
        attachment_refused(flows[0].kind),
        0 <= j <= events.len(),
    ensures
        refused_attachment_stage(flows[j].stage),
        flows[j].kind == flows[0].kind,
    decreases j,
{
    if j > 0 {
        lemma_refused_attachment_stages(flows, events, actions, j - 1);
        assert(accepts(flows[j - 1].stage, events[j - 1]) && step_ok(
            flows[j - 1],
            events[j - 1],
            flows[j],
            actions[j - 1],
        ));
    }
}

/// A failed remote call whose outcome is unknown is recorded as ambiguous
/// (or, for a refused attachment, as failed with its record), and once that
/// is recorded the run ends with an ambiguous-publish error that carries the
/// failure's message and the recovery guidance.
pub proof fn law_ambiguous_failure_surfaces_recovery(
    flows: Seq<PublishFlow>,
    events: Seq<PublishEvent>,
    actions: Seq<PublishAction>,
    k: int,
)
    requires
        is_run(flows, events, actions),
        0 <= k < events.len(),
        events[k] matches PublishEvent::RemoteFailed(e) && is_ambiguous(e.category, e.message@),
    ensures
        actions[k] matches PublishAction::MarkAttempt(m) && (m is Ambiguous || (m is FailedWithResponse
            && kind_is_attachment(flows[0].kind))),
        k + 1 < events.len() && events[k + 1] is Marked ==> (actions[k + 1] matches PublishAction::Finish(
            outcome,
        ) && outcome matches Err(x) && x.category == ErrorCategory::AmbiguousPublish && x.message@
            == recovery_text(flows[0].attempt_id, events[k]->RemoteFailed_0.message@)),
{
    lemma_run_keeps_attempt(flows, events, actions, k);
    assert(accepts(flows[k].stage, events[k]) && step_ok(flows[k], events[k], flows[k + 1], actions[k]));
    if k + 1 < events.len() {
        assert(accepts(flows[k + 1].stage, events[k + 1]) && step_ok(
            flows[k + 1],
            events[k + 1],
            flows[k + 2],
            actions[k + 1],
        ));
    }
}

proof fn lemma_run_keeps_attempt(
    flows: Seq<PublishFlow>,
    events: Seq<PublishEvent>,
    actions: Seq<PublishAction>,
    j: int,
)
    requires
        is_run(flows, events, actions),
        0 <= j <= events.len(),
    ensures
        flows[j].kind == flows[0].kind,
        flows[j].attempt_id == flows[0].attempt_id,
    decreases j,
{
    if j > 0 {
        lemma_run_keeps_attempt(flows, events, actions, j - 1);
        assert(accepts(flows[j - 1].stage, events[j - 1]) && step_ok(
            flows[j - 1],
            events[j - 1],
            flows[j],
            actions[j - 1],
        ));
    }
}

} // verus!
