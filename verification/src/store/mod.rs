//! Local operational state: the stored rows, the statements that read and
//! write them, and the retry policy for remote calls.
use vstd::prelude::*;

use crate::error::{CliError, ErrorCategory};
use crate::text::{chars_of, find_exec, find_from, lemma_find_from, matches_at, owned};

pub mod migrations;
pub mod statements;

verus! {

/// The local database, identified by the path of its file.
pub struct Store {
    db_path: String,
}

impl Store {
    /// The path of the database file.
    pub closed spec fn path(self) -> Seq<char> {
        self.db_path@
    }

    /// A store over the database file at `db_path`.
    pub fn new(db_path: String) -> (r: Store)
        ensures
            r.path() == db_path@,
    {
        Store { db_path }
    }

    pub fn db_path(&self) -> (r: &str)
        ensures
            r@ == self.path(),
    {
        self.db_path.as_str()
    }
}

pub struct AttemptRow {
    pub id: i64,
    pub attempt_uuid: String,
    pub kind: String,
    pub status: String,
    pub threads_post_id: Option<String>,
    pub error_code: Option<String>,
    pub error_message: Option<String>,
    pub created_at: String,
}

pub struct PublishAttemptInput {
    pub kind: String,
    pub text: String,
    pub reply_to_id: Option<String>,
    pub topic_tag: Option<String>,
    pub source_url: Option<String>,
    pub source_link_mode: Option<String>,
    pub request_json: String,
}

pub struct TokenRow {
    pub id: i64,
    pub account_id: i64,
    pub access_token: String,
    pub refresh_token: Option<String>,
    pub expires_at: Option<String>,
    pub raw_json: String,
    pub created_at: String,
}

pub struct AccountRow {
    pub id: i64,
    pub threads_user_id: String,
    pub username: Option<String>,
    pub name: Option<String>,
    pub created_at: String,
}

pub struct PostRow {
    pub id: i64,
    pub threads_post_id: String,
    pub parent_threads_post_id: Option<String>,
    pub post_url: Option<String>,
    pub text: String,
    pub topic_tag: Option<String>,
    pub source_url: Option<String>,
    pub source_link_mode: Option<String>,
    pub kind: String,
    pub published_at: Option<String>,
    pub created_at: String,
}

pub struct PersistPostInput {
    pub threads_post_id: String,
    pub parent_threads_post_id: Option<String>,
    pub post_url: Option<String>,
    pub text: String,
    pub topic_tag: Option<String>,
    pub source_url: Option<String>,
    pub source_link_mode: Option<String>,
    pub kind: String,
    pub published_at: Option<String>,
    pub raw_json: String,
}

pub struct InsightRow {
    pub fetched_at: String,
    pub views: Option<i64>,
    pub likes: Option<i64>,
    pub replies: Option<i64>,
    pub reposts: Option<i64>,
    pub quotes: Option<i64>,
    pub shares: Option<i64>,
}

pub struct ReplyRow {
    pub threads_reply_id: String,
    pub parent_threads_post_id: String,
    pub author_username: Option<String>,
    pub text: Option<String>,
    pub posted_at: Option<String>,
    pub created_at: String,
}

pub struct ReplyFetchStateRow {
    pub threads_post_id: String,
    pub next_cursor: Option<String>,
    pub last_fetched_at: String,
}

pub struct SearchResultRow {
    pub threads_post_id: String,
    pub username: Option<String>,
    pub text: Option<String>,
    pub permalink: Option<String>,
    pub timestamp: Option<String>,
    pub like_count: Option<i64>,
    pub reply_count: Option<i64>,
    pub fetched_at: String,
}

pub struct OwnThreadRow {
    pub threads_post_id: String,
    pub text: Option<String>,
    pub permalink: Option<String>,
    pub timestamp: Option<String>,
    pub username: Option<String>,
    pub fetched_at: String,
}

pub struct OwnReplyRow {
    pub threads_post_id: String,
    pub reply_to_id: Option<String>,
    pub text: Option<String>,
    pub permalink: Option<String>,
    pub timestamp: Option<String>,
    pub username: Option<String>,
    pub fetched_at: String,
}

// ---------------------------------------------------------------------------
// Retrying remote calls
// ---------------------------------------------------------------------------

/// How often and how patiently a failed remote call is tried again.
pub struct RetryPolicy {
    pub max_retries: u32,
    pub base_delay_ms: u64,
}

/// The kind of remote call being retried.
#[derive(Debug, Clone, Copy, PartialEq, Eq, Structural)]
pub enum RetryOperation {
    SafeRead,
    TokenRefresh,
    UnsafePublish,
}

/// Where a sequence of attempts stands: how many retries were made so far.
pub struct RetryState {
    pub attempt: u32,
}

/// What to do after a failed attempt.
pub enum RetryStep {
    /// Return the error to the caller.
    GiveUp,
    /// Wait `delay_ms` milliseconds, then try again from state `next`.
    RetryAfter { delay_ms: u64, next: RetryState },
}

/// Only reads and token refreshes are safe to repeat.
pub open spec fn operation_retryable(op: RetryOperation) -> bool {
    op == RetryOperation::SafeRead || op == RetryOperation::TokenRefresh
}

/// The text of a server-side (5xx) HTTP failure.
pub open spec fn http5_marker() -> Seq<char> {
    seq!['H', 'T', 'T', 'P', ' ', '5']
}

/// Transient failures: network and rate-limit errors, and API errors from a
/// 5xx response.
pub open spec fn error_transient(category: ErrorCategory, message: Seq<char>) -> bool {
    category == ErrorCategory::Network || category == ErrorCategory::RateLimit || (category
        == ErrorCategory::Api && exists|i: int| matches_at(message, http5_marker(), i))
}

pub open spec fn pow2(k: nat) -> nat
    decreases k,
{
    if k == 0 {
        1
    } else {
        2 * pow2((k - 1) as nat)
    }
}

pub open spec fn saturate(x: nat) -> nat {
    if x > u64::MAX {
        u64::MAX as nat
    } else {
        x
    }
}

/// `base.saturating_mul(2u64.saturating_pow(attempt))`.
pub open spec fn backoff_delay(base: u64, attempt: u32) -> nat {
    saturate(base as nat * saturate(pow2(attempt as nat)))
}

/// Reads and token refreshes may be repeated and a publish may not; network
/// and rate-limit failures are transient, and validation, authentication,
/// configuration and database failures never are.
pub proof fn law_retry_kinds(category: ErrorCategory, message: Seq<char>)
    ensures
        operation_retryable(RetryOperation::SafeRead),
        operation_retryable(RetryOperation::TokenRefresh),
        !operation_retryable(RetryOperation::UnsafePublish),
        (category == ErrorCategory::Network || category == ErrorCategory::RateLimit) ==> error_transient(
            category,
            message,
        ),
        !(category == ErrorCategory::Network || category == ErrorCategory::RateLimit || category
            == ErrorCategory::Api) ==> !error_transient(category, message),
{
}

/// The first retry waits the base delay, and each further retry twice the
/// one before, as long as the wait fits in 64 bits.
pub proof fn law_backoff_doubles(base: u64, attempt: u32)
    ensures
        backoff_delay(base, 0) == base,
        attempt < u32::MAX && base as nat * pow2(attempt as nat + 1) <= u64::MAX ==> backoff_delay(
            base,
            (attempt + 1) as u32,
        ) == 2 * backoff_delay(base, attempt),
{
    assert(pow2(0) == 1);
    assert(base as nat * 1 == base as nat);
    if base == 0 {
        assert(0 * saturate(pow2(attempt as nat)) == 0);
        assert(0 * saturate(pow2(attempt as nat + 1)) == 0);
    } else if attempt < u32::MAX && base as nat * pow2(attempt as nat + 1) <= u64::MAX {
        lemma_pow2_mono(attempt as nat);
        let p = pow2(attempt as nat);
        assert(pow2(attempt as nat + 1) == 2 * p);
        assert(base as nat * (2 * p) == 2 * (base as nat * p)) by (nonlinear_arith);
        assert(base as nat * p <= base as nat * (2 * p)) by (nonlinear_arith)
            requires
                p >= 1,
        ;
        assert(p <= 2 * p);
        assert(2 * p <= u64::MAX) by (nonlinear_arith)
            requires
                base as nat * (2 * p) <= u64::MAX,
                base >= 1,
        ;
    }
}

pub fn error_is_transient(err: &CliError) -> (r: bool)
    ensures
        r == error_transient(err.category, err.message@),
{
    match err.category {
        ErrorCategory::Network | ErrorCategory::RateLimit => true,
        ErrorCategory::Api => {
            let m = chars_of(err.message.as_str());
            let needle = vec!['H', 'T', 'T', 'P', ' ', '5'];
            assert(needle@ =~= http5_marker());
            proof {
                lemma_find_from(m@, needle@, 0);
            }
            find_exec(&m, &needle, 0).is_some()
        },
        _ => false,
    }
}

proof fn lemma_pow2_mono(k: nat)
    ensures
        pow2(k) >= 1,
        pow2(k + 1) == 2 * pow2(k),
    decreases k,
{
    if k > 0 {
        lemma_pow2_mono((k - 1) as nat);
    }
}

fn saturating_pow2(k: u32) -> (r: u64)
    ensures
        r == saturate(pow2(k as nat)),
{
    let mut p: u64 = 1;
    let mut i: u32 = 0;
    while i < k
        invariant
            i <= k,
            p == saturate(pow2(i as nat)),
        decreases k - i,
    {
        proof {
            lemma_pow2_mono(i as nat);
        }
        p = match p.checked_mul(2) {
            Some(q) => q,
            None => u64::MAX,
        };
        i = i + 1;
    }
    p
}

/// The decision after a failed attempt.  A retry happens only for a
/// repeatable operation, a transient error and a retry budget not yet spent;
/// the wait doubles with each retry, saturating at `u64::MAX`.
pub fn retry_step(policy: &RetryPolicy, operation: RetryOperation, state: &RetryState, err: &CliError) -> (r: RetryStep)
    ensures
        r is GiveUp <==> (!operation_retryable(operation) || !error_transient(
            err.category,
            err.message@,
        ) || state.attempt >= policy.max_retries),
        r matches RetryStep::RetryAfter { delay_ms, next } ==> delay_ms == backoff_delay(
            policy.base_delay_ms,
            state.attempt,
        ) && next.attempt == state.attempt + 1,
        operation == RetryOperation::UnsafePublish ==> r is GiveUp,
        state.attempt >= policy.max_retries ==> r is GiveUp,
        !(err.category == ErrorCategory::Network || err.category == ErrorCategory::RateLimit
            || err.category == ErrorCategory::Api) ==> r is GiveUp,
        (operation != RetryOperation::UnsafePublish && (err.category == ErrorCategory::Network
            || err.category == ErrorCategory::RateLimit) && state.attempt < policy.max_retries) ==> r is RetryAfter,
        (r is RetryAfter && state.attempt == 0) ==> r->delay_ms == policy.base_delay_ms,
{
    proof {
        law_retry_kinds(err.category, err.message@);
        law_backoff_doubles(policy.base_delay_ms, state.attempt);
    }
    let op_ok = match operation {
        RetryOperation::SafeRead | RetryOperation::TokenRefresh => true,
        RetryOperation::UnsafePublish => false,
    };
    if !op_ok || !error_is_transient(err) || state.attempt >= policy.max_retries {
        return RetryStep::GiveUp;
    }
    let p = saturating_pow2(state.attempt);
    let delay_ms = match policy.base_delay_ms.checked_mul(p) {
        Some(d) => d,
        None => u64::MAX,
    };
    RetryStep::RetryAfter { delay_ms, next: RetryState { attempt: state.attempt + 1 } }
}

/// The number of calls made by a run of attempts that fail with the given
/// errors in turn until the policy gives up (or the errors run out).
pub open spec fn calls_made(
    policy: RetryPolicy,
    operation: RetryOperation,
    attempt: nat,
    errors: Seq<(ErrorCategory, Seq<char>)>,
) -> nat
    decreases errors.len(),
{
    if errors.len() == 0 {
        0
    } else if !operation_retryable(operation) || !error_transient(errors[0].0, errors[0].1)
        || attempt >= policy.max_retries {
        1
    } else {
        1 + calls_made(policy, operation, attempt + 1, errors.drop_first())
    }
}

/// Retries are bounded: a run that starts afresh makes at most
/// `max_retries + 1` calls, whatever errors come back.
pub proof fn law_retries_bounded(
    policy: RetryPolicy,
    operation: RetryOperation,
    errors: Seq<(ErrorCategory, Seq<char>)>,
)
    ensures
        calls_made(policy, operation, 0, errors) <= policy.max_retries + 1,
{
    lemma_calls_made(policy, operation, 0, errors);
}

proof fn lemma_calls_made(
    policy: RetryPolicy,
    operation: RetryOperation,
    attempt: nat,
    errors: Seq<(ErrorCategory, Seq<char>)>,
)
    requires
        attempt <= policy.max_retries,
    ensures
        calls_made(policy, operation, attempt, errors) <= policy.max_retries + 1 - attempt,
    decreases errors.len(),
{
    if errors.len() > 0 && operation_retryable(operation) && error_transient(errors[0].0, errors[0].1)
        && attempt < policy.max_retries {
        lemma_calls_made(policy, operation, attempt + 1, errors.drop_first());
    }
}

/// A publish is never repeated: for an unsafe operation every failure ends
/// the run after one call.
pub proof fn law_unsafe_publish_not_retried(
    policy: RetryPolicy,
    errors: Seq<(ErrorCategory, Seq<char>)>,
)
    requires
        errors.len() > 0,
    ensures
        calls_made(policy, RetryOperation::UnsafePublish, 0, errors) == 1,
{
}

/// Errors that are not transient (validation, authentication, configuration,
/// database and other failures) are never retried.
pub proof fn law_permanent_errors_not_retried(
    policy: RetryPolicy,
    operation: RetryOperation,
    errors: Seq<(ErrorCategory, Seq<char>)>,
)
    requires
        errors.len() > 0,
        !error_transient(errors[0].0, errors[0].1),
    ensures
        calls_made(policy, operation, 0, errors) == 1,
{
}

// ---------------------------------------------------------------------------
// The database file
// ---------------------------------------------------------------------------

fn database_error(prefix: &str, subject: &str, detail: &str) -> (r: CliError)
    ensures
        r.category == ErrorCategory::Database,
        r.message@ == prefix@ + subject@ + detail@,
{
    let mut m = owned(prefix);
    crate::text::push_str(&mut m, subject);
    crate::text::push_str(&mut m, detail);
    CliError { category: ErrorCategory::Database, message: m }
}

/// The error for a failed database operation.
pub fn map_db_error(detail: &str) -> (r: CliError)
    ensures
        r.category == ErrorCategory::Database,
        r.message@ == "database error: "@ + detail@,
{
    let mut m = owned("database error: ");
    crate::text::push_str(&mut m, detail);
    CliError { category: ErrorCategory::Database, message: m }
}

/// The error for a database directory that could not be created.
pub fn db_directory_error(dir: &str, detail: &str) -> (r: CliError)
    ensures
        r.category == ErrorCategory::Database,
        r.message@ == "failed creating db directory "@ + dir@ + ": "@ + detail@,
{
    let mut d = owned(": ");
    crate::text::push_str(&mut d, detail);
    database_error("failed creating db directory ", dir, d.as_str())
}

/// The error for a database file that could not be opened.
pub fn db_open_error(path: &str, detail: &str) -> (r: CliError)
    ensures
        r.category == ErrorCategory::Database,
        r.message@ == "failed opening sqlite db "@ + path@ + ": "@ + detail@,
{
    let mut d = owned(": ");
    crate::text::push_str(&mut d, detail);
    database_error("failed opening sqlite db ", path, d.as_str())
}

/// The database path with `~` and variables expanded.
pub fn expand_db_path(path: &str) -> (r: Result<String, CliError>)
    ensures
        r matches Err(e) ==> e.category == ErrorCategory::Config,
        (!path@.contains('$') && !(path@.len() > 0 && path@[0] == '~')) ==> r is Ok && r->Ok_0@
            == path@,
{
    match crate::trusted::shell_expand(path) {
        Ok(s) => Ok(s),
        Err(reason) => {
            let mut m = owned("failed expanding db path '");
            crate::text::push_str(&mut m, path);
            crate::text::push_str(&mut m, "': ");
            crate::text::push_str(&mut m, reason.as_str());
            Err(CliError { category: ErrorCategory::Config, message: m })
        },
    }
}

} // verus!
