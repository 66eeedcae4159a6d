//! Validation of user input for publishing.
use vstd::prelude::*;

use crate::error::{CliError, ErrorCategory};
use crate::text::{chars_of, is_ascii_alnum, is_blank, trim, trim_bounds, trim_is_empty, str_eq};
use crate::trusted::{url_scheme, url_scheme_of};

verus! {

/// Post text must contain something other than white space.
pub fn validate_post_text(text: &str) -> (r: Result<(), CliError>)
    ensures
        r is Err <==> is_blank(text@),
        r matches Err(e) ==> e.category == ErrorCategory::Validation && e.message@
            == "text must be non-empty"@,
{
    if trim_is_empty(text) {
        return Err(CliError::new(ErrorCategory::Validation, "text must be non-empty"));
    }
    Ok(())
}

/// The post replied to must be named by something other than white space.
pub fn validate_reply_to(reply_to: &str) -> (r: Result<(), CliError>)
    ensures
        r is Err <==> is_blank(reply_to@),
        r matches Err(e) ==> e.category == ErrorCategory::Validation && e.message@
            == "reply-to post id must be non-empty"@,
{
    if trim_is_empty(reply_to) {
        return Err(CliError::new(ErrorCategory::Validation, "reply-to post id must be non-empty"));
    }
    Ok(())
}

/// Characters allowed in a topic tag.
pub open spec fn is_tag_char(c: char) -> bool {
    is_ascii_alnum(c) || c == '_' || c == '-'
}

/// The message of the first rule that a topic tag breaks, if any; the tag is
/// judged with surrounding white space removed.
pub open spec fn tag_violation(tag: Seq<char>) -> Option<Seq<char>> {
    let v = trim(tag);
    if v.len() == 0 {
        Some("tag must be non-empty"@)
    } else if v.len() > 50 {
        Some("tag must be <= 50 characters"@)
    } else if exists|i: int| 0 <= i < v.len() && !is_tag_char(#[trigger] v[i]) {
        Some("tag contains unsupported characters"@)
    } else {
        None
    }
}

/// A tag is accepted exactly when, with surrounding white space removed, it
/// has 1 to 50 characters, each an ASCII letter or digit, `_` or `-`.
pub proof fn law_tag_accepted_exactly(tag: Seq<char>)
    ensures
        tag_violation(tag) is None <==> (0 < trim(tag).len() <= 50 && forall|i: int|
            0 <= i < trim(tag).len() ==> {
                let c = #[trigger] trim(tag)[i];
                ('0' <= c && c <= '9') || ('a' <= c && c <= 'z') || ('A' <= c && c <= 'Z') || c == '_'
                    || c == '-'
            }),
{
}

/// A link is accepted exactly when `url::Url::parse` finds a scheme and that
/// scheme is `http` or `https`.
pub proof fn law_link_accepted_exactly(url: Seq<char>)
    ensures
        link_violation(url) is None <==> (url_scheme_of(url) is Some && (url_scheme_of(url)->Some_0
            == "http"@ || url_scheme_of(url)->Some_0 == "https"@)),
{
}

/// A topic tag: 1 to 50 characters once trimmed, each an ASCII letter or
/// digit, `_` or `-`.
pub fn validate_topic_tag(tag: &str) -> (r: Result<(), CliError>)
    ensures
        r is Ok <==> tag_violation(tag@) is None,
        r is Ok <==> (0 < trim(tag@).len() <= 50 && forall|i: int|
            0 <= i < trim(tag@).len() ==> {
                let c = #[trigger] trim(tag@)[i];
                ('0' <= c && c <= '9') || ('a' <= c && c <= 'z') || ('A' <= c && c <= 'Z') || c == '_'
                    || c == '-'
            }),
        r matches Err(e) ==> e.category == ErrorCategory::Validation && tag_violation(tag@) == Some(
            e.message@,
        ),
{
    proof {
        law_tag_accepted_exactly(tag@);
    }
    let v = chars_of(tag);
    let (a, b) = trim_bounds(&v);
    let ghost t = v@.subrange(a as int, b as int);
    if a == b {
        return Err(CliError::new(ErrorCategory::Validation, "tag must be non-empty"));
    }
    if b - a > 50 {
        return Err(CliError::new(ErrorCategory::Validation, "tag must be <= 50 characters"));
    }
    let mut i = a;
    while i < b
        invariant
            a <= i <= b <= v.len(),
            t == v@.subrange(a as int, b as int),
            v@ == tag@,
            t == trim(tag@),
            0 < t.len() <= 50,
            forall|j: int| 0 <= j < i - a ==> is_tag_char(#[trigger] t[j]),
        decreases b - i,
    {
        let c = v[i];
        if !((('0' <= c && c <= '9') || ('a' <= c && c <= 'z') || ('A' <= c && c <= 'Z')) || c
            == '_' || c == '-') {
            assert(t[i - a] == c);
            assert(!is_tag_char(t[i - a]));
            return Err(CliError::new(ErrorCategory::Validation, "tag contains unsupported characters"));
        }
        i = i + 1;
    }
    Ok(())
}

/// The message of the rule that a source link breaks, if any.
pub open spec fn link_violation(url: Seq<char>) -> Option<Seq<char>> {
    match url_scheme_of(url) {
        None => Some("source link must be a valid absolute URL"@),
        Some(s) => if s == "http"@ || s == "https"@ {
            None
        } else {
            Some("source link must use http or https"@)
        },
    }
}

/// A source link: an absolute URL, as `url::Url::parse` judges, whose scheme
/// is `http` or `https`.
pub fn validate_source_url(url: &str) -> (r: Result<(), CliError>)
    ensures
        r is Ok <==> link_violation(url@) is None,
        r is Ok <==> (url_scheme_of(url@) is Some && (url_scheme_of(url@)->Some_0 == "http"@
            || url_scheme_of(url@)->Some_0 == "https"@)),
        r matches Err(e) ==> e.category == ErrorCategory::Validation && link_violation(url@) == Some(
            e.message@,
        ),
{
    proof {
        law_link_accepted_exactly(url@);
    }
    match url_scheme(url) {
        None => Err(CliError::new(ErrorCategory::Validation, "source link must be a valid absolute URL")),
        Some(scheme) => {
            if !str_eq(scheme.as_str(), "http") && !str_eq(scheme.as_str(), "https") {
                return Err(CliError::new(ErrorCategory::Validation, "source link must use http or https"));
            }
            Ok(())
        },
    }
}

} // verus!
