//! Calls into outside crates and into parts of std without a
//! specification in vstd.  Each item states what the library relies on.
use vstd::prelude::*;

verus! {

/// The scheme that `url::Url::parse` finds in `input`, or `None` when the
/// input is not a valid absolute URL.  A function of the input alone.
pub uninterp spec fn url_scheme_of(input: Seq<char>) -> Option<Seq<char>>;

/// Calls `url::Url::parse(input)` and returns `Url::scheme()` of the result.
/// The contract names the result and claims nothing more of it.
#[verifier::external_body]
pub(crate) fn url_scheme(input: &str) -> (r: Option<String>)
    ensures
        r matches Some(s) ==> url_scheme_of(input@) == Some(s@),
        r is None ==> url_scheme_of(input@) is None,
{
    url::Url::parse(input).ok().map(|u| u.scheme().to_string())
}

/// The decoded query pairs that `url::Url::parse(input)` followed by
/// `Url::query_pairs()` yield, in order, or the text of the parse error.
pub uninterp spec fn url_query_pairs_of(input: Seq<char>) -> Result<
    Seq<(Seq<char>, Seq<char>)>,
    Seq<char>,
>;

/// Calls `url::Url::parse(input)` and collects `Url::query_pairs()` as owned
/// strings; on a parse error returns the error's text.  The contract names
/// the result and claims nothing more of it.
#[verifier::external_body]
pub(crate) fn url_query_pairs(input: &str) -> (r: Result<Vec<(String, String)>, String>)
    ensures
        r matches Ok(v) ==> url_query_pairs_of(input@) matches Ok(p) && p.len() == v@.len()
            && forall|i: int| 0 <= i < p.len() ==> (#[trigger] p[i]).0 == v@[i].0@ && p[i].1
                == v@[i].1@,
        r matches Err(e) ==> url_query_pairs_of(input@) is Err && url_query_pairs_of(input@)->Err_0 == e@,
{
    match url::Url::parse(input) {
        Ok(u) => Ok(u.query_pairs().map(|(k, v)| (k.into_owned(), v.into_owned())).collect()),
        Err(e) => Err(e.to_string()),
    }
}

/// The views of a list of string pairs.
pub open spec fn pair_views(pairs: Seq<(String, String)>) -> Seq<(Seq<char>, Seq<char>)> {
    pairs.map_values(|p: (String, String)| (p.0@, p.1@))
}

/// The serialization of `url::Url::parse(base)` after appending the pairs,
/// in order, with `form_urlencoded::Serializer::extend_pairs` (through
/// `Url::query_pairs_mut`), or the text of the parse error.
pub uninterp spec fn url_with_query_of(
    base: Seq<char>,
    pairs: Seq<(Seq<char>, Seq<char>)>,
) -> Result<Seq<char>, Seq<char>>;

/// Parses `base` with `url::Url::parse`, appends the pairs in order with
/// `query_pairs_mut().extend_pairs`, and returns `Url::as_str()`; on a parse
/// error returns the error's text.  The contract names the result.
#[verifier::external_body]
pub(crate) fn url_with_query(base: &str, pairs: &Vec<(String, String)>) -> (r: Result<String, String>)
    ensures
        r matches Ok(s) ==> url_with_query_of(base@, pair_views(pairs@)) is Ok && url_with_query_of(base@, pair_views(pairs@))->Ok_0 == s@,
        r matches Err(e) ==> url_with_query_of(base@, pair_views(pairs@)) is Err && url_with_query_of(base@, pair_views(pairs@))->Err_0 == e@,
{
    match url::Url::parse(base) {
        Ok(mut u) => {
            u.query_pairs_mut().extend_pairs(pairs.iter());
            Ok(u.as_str().to_string())
        },
        Err(e) => Err(e.to_string()),
    }
}

/// Calls `shellexpand::full(input)`, which expands `~` and environment
/// variables; on failure returns the error's text.  The result depends on
/// the environment; the source shows that an input with no `$` that does not
/// start with `~` is returned unchanged, and that is all the contract says.
#[verifier::external_body]
pub(crate) fn shell_expand(input: &str) -> (r: Result<String, String>)
    ensures
        (!input@.contains('$') && !(input@.len() > 0 && input@[0] == '~')) ==> (r is Ok && r->Ok_0@ == input@),
{
    match shellexpand::full(input) {
        Ok(s) => Ok(s.into_owned()),
        Err(e) => Err(e.to_string()),
    }
}

/// The instant that `chrono::DateTime::parse_from_rfc3339(s)` denotes, as
/// whole seconds since the Unix epoch and the nanoseconds within that
/// second, or `None` when `s` is not RFC 3339.
pub uninterp spec fn rfc3339_instant_of(s: Seq<char>) -> Option<(int, int)>;

/// Calls `chrono::DateTime::parse_from_rfc3339(s)` and returns
/// `(timestamp(), timestamp_subsec_nanos())`.  The contract names the result
/// and claims nothing more of it.
#[verifier::external_body]
pub(crate) fn rfc3339_instant(s: &str) -> (r: Option<(i64, u32)>)
    ensures
        r matches Some(t) ==> rfc3339_instant_of(s@) == Some((t.0 as int, t.1 as int)),
        r is None ==> rfc3339_instant_of(s@) is None,
{
    chrono::DateTime::parse_from_rfc3339(s).ok().map(|dt| (dt.timestamp(), dt.timestamp_subsec_nanos()))
}

/// The RFC 3339 text, with whole seconds and a `Z` suffix, of the instant
/// `secs` seconds after the Unix epoch, or `None` when chrono cannot
/// represent that instant.
pub uninterp spec fn rfc3339_of(secs: int) -> Option<Seq<char>>;

/// Calls `chrono::DateTime::from_timestamp(secs, 0)` and formats the result
/// with `to_rfc3339_opts(SecondsFormat::Secs, true)`.  The contract names the
/// result.
#[verifier::external_body]
pub(crate) fn rfc3339_secs(secs: i64) -> (r: Option<String>)
    ensures
        r matches Some(s) ==> rfc3339_of(secs as int) == Some(s@),
        r is None ==> rfc3339_of(secs as int) is None,
{
    chrono::DateTime::from_timestamp(secs, 0).map(|dt| dt.to_rfc3339_opts(chrono::SecondsFormat::Secs, true))
}

/// The RFC 3339 text, with whole seconds and a `Z` suffix, of the instant
/// `delta` seconds after the instant `secs` seconds after the Unix epoch, or
/// `None` when chrono cannot represent the delta or either instant.
pub uninterp spec fn rfc3339_after_of(secs: int, delta: int) -> Option<Seq<char>>;

/// Adds `chrono::TimeDelta::try_seconds(delta)` to
/// `chrono::DateTime::from_timestamp(secs, 0)` with `checked_add_signed` and
/// formats the sum with `to_rfc3339_opts(SecondsFormat::Secs, true)`.  The
/// contract names the result.
#[verifier::external_body]
pub(crate) fn rfc3339_after(secs: i64, delta: i64) -> (r: Option<String>)
    ensures
        r matches Some(s) ==> rfc3339_after_of(secs as int, delta as int) == Some(s@),
        r is None ==> rfc3339_after_of(secs as int, delta as int) is None,
{
    let start = chrono::DateTime::from_timestamp(secs, 0)?;
    let sum = start.checked_add_signed(chrono::TimeDelta::try_seconds(delta)?)?;
    Some(sum.to_rfc3339_opts(chrono::SecondsFormat::Secs, true))
}

/// The result of `str::to_uppercase`, Unicode upper-casing.
pub uninterp spec fn uppercase_of(s: Seq<char>) -> Seq<char>;

/// Calls `str::to_uppercase(s)`.  The contract names the result.
#[verifier::external_body]
pub(crate) fn to_uppercase(s: &str) -> (r: String)
    ensures
        r@ == uppercase_of(s@),
{
    s.to_uppercase()
}

} // verus!
