//! Redaction of secret values in free text.
//!
//! Two passes exist: `key=value` pairs for a fixed list of secret keys, and
//! `Bearer <token>` credentials.  Each pass is specified by a recursive
//! function over the input, and the laws at the end of the file state what a
//! pass guarantees about its output.
use vstd::prelude::*;

use crate::text::{
    chars_of, find_char_exec, find_char_from, find_exec, find_from, lemma_find_char_from,
    lemma_find_from, matches_at, push_range,
};

verus! {

/// The text that replaces a secret value.
pub open spec fn marker() -> Seq<char> {
    seq!['[', 'R', 'E', 'D', 'A', 'C', 'T', 'E', 'D', ']']
}

/// The prefix of an HTTP bearer credential.
pub open spec fn bearer_needle() -> Seq<char> {
    seq!['B', 'e', 'a', 'r', 'e', 'r', ' ']
}

/// Characters that end an unquoted `key=value` value.
pub open spec fn is_value_delim(c: char) -> bool {
    c == '&' || c == ' ' || c == ',' || c == '"' || c == '\''
}

/// Characters that end a bearer token.
pub open spec fn is_bearer_delim(c: char) -> bool {
    c == ' ' || c == ',' || c == '"' || c == '\''
}

/// The first position at or after `i` holding a value delimiter.
pub open spec fn find_value_delim(s: Seq<char>, i: int) -> Option<int>
    decreases s.len() - i,
{
    if i < 0 || i >= s.len() {
        None
    } else if is_value_delim(s[i]) {
        Some(i)
    } else {
        find_value_delim(s, i + 1)
    }
}

/// The first position at or after `i` holding a bearer-token delimiter.
pub open spec fn find_bearer_delim(s: Seq<char>, i: int) -> Option<int>
    decreases s.len() - i,
{
    if i < 0 || i >= s.len() {
        None
    } else if is_bearer_delim(s[i]) {
        Some(i)
    } else {
        find_bearer_delim(s, i + 1)
    }
}

pub proof fn lemma_find_value_delim(s: Seq<char>, i: int)
    requires
        0 <= i,
    ensures
        find_value_delim(s, i) matches Some(k) ==> i <= k < s.len(),
    decreases s.len() - i,
{
    if i < s.len() && !is_value_delim(s[i]) {
        lemma_find_value_delim(s, i + 1);
    }
}

pub proof fn lemma_find_bearer_delim(s: Seq<char>, i: int)
    requires
        0 <= i,
    ensures
        find_bearer_delim(s, i) matches Some(k) ==> i <= k < s.len(),
    decreases s.len() - i,
{
    if i < s.len() && !is_bearer_delim(s[i]) {
        lemma_find_bearer_delim(s, i + 1);
    }
}

/// End (exclusive) of the value that starts at position `r`: a quoted value
/// runs through its closing quote (or to the end when unclosed), an unquoted
/// one up to the next delimiter.
pub open spec fn value_end(s: Seq<char>, r: int) -> int {
    if 0 <= r < s.len() && (s[r] == '"' || s[r] == '\'') {
        match find_char_from(s, s[r], r + 1) {
            Some(j) => j + 1,
            None => s.len() as int,
        }
    } else {
        match find_value_delim(s, r) {
            Some(j) => j,
            None => s.len() as int,
        }
    }
}

pub proof fn lemma_value_end(s: Seq<char>, r: int)
    requires
        0 <= r <= s.len(),
    ensures
        r <= value_end(s, r) <= s.len(),
{
    lemma_find_value_delim(s, r);
    if r < s.len() {
        lemma_find_char_from(s, s[r], r + 1);
    }
}

/// End (exclusive) of a bearer token that starts at `a`.
pub open spec fn token_end(s: Seq<char>, a: int) -> int {
    match find_bearer_delim(s, a) {
        Some(j) => j,
        None => s.len() as int,
    }
}

/// `key=value` redaction of `s[p..]`: at the first occurrence of `key`, the
/// text up to and including the next `=` is kept, the value after it is
/// replaced by the marker, and redaction continues after the value.  When no
/// `=` follows the key, the rest of the text is kept as it is.
pub open spec fn redact_kv_from(s: Seq<char>, key: Seq<char>, p: int) -> Seq<char>
    decreases s.len() - p,
{
    if key.len() == 0 || p < 0 || p > s.len() {
        s.subrange(p, s.len() as int)
    } else {
        match find_from(s, key, p) {
            None => s.subrange(p, s.len() as int),
            Some(idx) => match find_char_from(s, '=', idx + key.len()) {
                None => s.subrange(p, s.len() as int),
                Some(eq) => {
                    proof {
                        lemma_find_from(s, key, p);
                        lemma_find_char_from(s, '=', idx + key.len());
                        lemma_value_end(s, eq + 1);
                    }
                    s.subrange(p, eq + 1) + marker() + redact_kv_from(s, key, value_end(s, eq + 1))
                },
            },
        }
    }
}

/// `key=value` redaction of a whole text.
pub open spec fn redact_kv(s: Seq<char>, key: Seq<char>) -> Seq<char> {
    redact_kv_from(s, key, 0)
}

/// Bearer redaction of `s[p..]`: every `Bearer ` keeps its prefix and has the
/// token after it replaced by the marker.
pub open spec fn redact_bearer_from(s: Seq<char>, p: int) -> Seq<char>
    decreases s.len() - p,
{
    if p < 0 || p > s.len() {
        s.subrange(p, s.len() as int)
    } else {
        match find_from(s, bearer_needle(), p) {
            None => s.subrange(p, s.len() as int),
            Some(idx) => {
                proof {
                    lemma_find_from(s, bearer_needle(), p);
                    lemma_find_bearer_delim(s, idx + 7);
                }
                s.subrange(p, idx + 7) + marker() + redact_bearer_from(s, token_end(s, idx + 7))
            },
        }
    }
}

/// Bearer redaction of a whole text.
pub open spec fn redact_bearer(s: Seq<char>) -> Seq<char> {
    redact_bearer_from(s, 0)
}

/// The redaction applied to every human-readable text: the `key=value` pass
/// for each secret key in turn, then the bearer pass.
pub open spec fn redact_text_spec(s: Seq<char>) -> Seq<char> {
    redact_bearer(
        redact_kv(
            redact_kv(
                redact_kv(
                    redact_kv(
                        redact_kv(redact_kv(s, "access_token"@), "refresh_token"@),
                        "client_secret"@,
                    ),
                    "app_secret"@,
                ),
                "authorization"@,
            ),
            "auth_header"@,
        ),
    )
}

fn value_delim_exec(c: char) -> (r: bool)
    ensures
        r == is_value_delim(c),
{
    c == '&' || c == ' ' || c == ',' || c == '"' || c == '\''
}

fn bearer_delim_exec(c: char) -> (r: bool)
    ensures
        r == is_bearer_delim(c),
{
    c == ' ' || c == ',' || c == '"' || c == '\''
}

fn value_end_exec(s: &Vec<char>, r: usize) -> (e: usize)
    requires
        r <= s.len(),
    ensures
        e == value_end(s@, r as int),
{
    if r < s.len() && (s[r] == '"' || s[r] == '\'') {
        match find_char_exec(s, s[r], r + 1) {
            Some(j) => {
                proof {
                    lemma_find_char_from(s@, s@[r as int], r + 1);
                }
                j + 1
            },
            None => s.len(),
        }
    } else {
        let mut i = r;
        while i < s.len()
            invariant
                r <= i <= s.len(),
                !(r < s.len() && (s@[r as int] == '"' || s@[r as int] == '\'')),
                find_value_delim(s@, r as int) == find_value_delim(s@, i as int),
            decreases s.len() - i,
        {
            if value_delim_exec(s[i]) {
                assert(find_value_delim(s@, i as int) == Some(i as int));
                return i;
            }
            i = i + 1;
        }
        s.len()
    }
}

fn token_end_exec(s: &Vec<char>, a: usize) -> (e: usize)
    requires
        a <= s.len(),
    ensures
        e == token_end(s@, a as int),
{
    let mut i = a;
    while i < s.len()
        invariant
            a <= i <= s.len(),
            find_bearer_delim(s@, a as int) == find_bearer_delim(s@, i as int),
        decreases s.len() - i,
    {
        if bearer_delim_exec(s[i]) {
            return i;
        }
        i = i + 1;
    }
    s.len()
}

fn push_marker(out: &mut String)
    ensures
        final(out)@ == old(out)@ + marker(),
{
    proof {
        reveal_strlit("[REDACTED]");
    }
    out.append("[REDACTED]");
}

/// Replaces the value of every `key=value` pair in `input`.
pub fn redact_key_value_pair(input: &str, key: &str) -> (r: String)
    requires
        key@.len() > 0,
    ensures
        r@ == redact_kv(input@, key@),
{
    let s = chars_of(input);
    let k = chars_of(key);
    let mut out = String::new();
    let mut p: usize = 0;
    loop
        invariant_except_break
            p <= s.len(),
            k@.len() > 0,
            redact_kv_from(s@, k@, 0) == out@ + redact_kv_from(s@, k@, p as int),
        ensures
            out@ == redact_kv_from(s@, k@, 0),
        decreases s.len() - p,
    {
        match find_exec(&s, &k, p) {
            None => {
                push_range(&mut out, &s, p, s.len());
                break ;
            },
            Some(idx) => {
                proof {
                    lemma_find_from(s@, k@, p as int);
                }
                match find_char_exec(&s, '=', idx + k.len()) {
                    None => {
                        push_range(&mut out, &s, p, s.len());
                        break ;
                    },
                    Some(eq) => {
                        proof {
                            lemma_find_char_from(s@, '=', idx + k.len());
                            lemma_value_end(s@, eq + 1);
                        }
                        let ghost before = out@;
                        push_range(&mut out, &s, p, eq + 1);
                        push_marker(&mut out);
                        let e = value_end_exec(&s, eq + 1);
                        assert(redact_kv_from(s@, k@, p as int) == s@.subrange(p as int, eq + 1)
                            + marker() + redact_kv_from(s@, k@, e as int));
                        assert(out@ + redact_kv_from(s@, k@, e as int) =~= before
                            + redact_kv_from(s@, k@, p as int));
                        p = e;
                    },
                }
            },
        }
    }
    out
}

/// Replaces every bearer token in `input`.
pub fn redact_bearer_tokens(input: &str) -> (r: String)
    ensures
        r@ == redact_bearer(input@),
{
    let s = chars_of(input);
    let needle = vec!['B', 'e', 'a', 'r', 'e', 'r', ' '];
    assert(needle@ =~= bearer_needle());
    let mut out = String::new();
    let mut p: usize = 0;
    loop
        invariant_except_break
            p <= s.len(),
            needle@ == bearer_needle(),
            redact_bearer_from(s@, 0) == out@ + redact_bearer_from(s@, p as int),
        ensures
            out@ == redact_bearer_from(s@, 0),
        decreases s.len() - p,
    {
        match find_exec(&s, &needle, p) {
            None => {
                push_range(&mut out, &s, p, s.len());
                break ;
            },
            Some(idx) => {
                proof {
                    lemma_find_from(s@, bearer_needle(), p as int);
                    lemma_find_bearer_delim(s@, idx + 7);
                }
                let ghost before = out@;
                push_range(&mut out, &s, p, idx + 7);
                push_marker(&mut out);
                let e = token_end_exec(&s, idx + 7);
                assert(out@ + redact_bearer_from(s@, e as int) =~= before + redact_bearer_from(
                    s@,
                    p as int,
                ));
                p = e;
            },
        }
    }
    out
}

/// Redacts secrets in a human-readable text.
pub fn redact_text(input: &str) -> (r: String)
    ensures
        r@ == redact_text_spec(input@),
{
    proof {
        reveal_strlit("access_token");
        reveal_strlit("refresh_token");
        reveal_strlit("client_secret");
        reveal_strlit("app_secret");
        reveal_strlit("authorization");
        reveal_strlit("auth_header");
    }
    let out = redact_key_value_pair(input, "access_token");
    let out = redact_key_value_pair(out.as_str(), "refresh_token");
    let out = redact_key_value_pair(out.as_str(), "client_secret");
    let out = redact_key_value_pair(out.as_str(), "app_secret");
    let out = redact_key_value_pair(out.as_str(), "authorization");
    let out = redact_key_value_pair(out.as_str(), "auth_header");
    redact_bearer_tokens(out.as_str())
}

// ---------------------------------------------------------------------------
// Laws
// ---------------------------------------------------------------------------

proof fn lemma_match_chars(t: Seq<char>, pat: Seq<char>, i: int, k: int)
    requires
        matches_at(t, pat, i),
        0 <= k < pat.len(),
    ensures
        t[i + k] == pat[k],
{
    assert(t.subrange(i, i + pat.len())[k] == pat[k]);
}

proof fn lemma_match_prefix(x: Seq<char>, y: Seq<char>, pat: Seq<char>, j: int)
    requires
        0 <= j,
        j + pat.len() <= x.len(),
    ensures
        matches_at(x + y, pat, j) == matches_at(x, pat, j),
{
    assert((x + y).subrange(j, j + pat.len()) =~= x.subrange(j, j + pat.len()));
}

proof fn lemma_match_suffix(x: Seq<char>, y: Seq<char>, pat: Seq<char>, j: int)
    requires
        x.len() <= j,
    ensures
        matches_at(x + y, pat, j) == matches_at(y, pat, j - x.len()),
{
    if j + pat.len() <= x.len() + y.len() {
        assert((x + y).subrange(j, j + pat.len()) =~= y.subrange(
            j - x.len(),
            j - x.len() + pat.len(),
        ));
    }
}

proof fn lemma_match_subrange(s: Seq<char>, lo: int, hi: int, pat: Seq<char>, j: int)
    requires
        0 <= lo <= hi <= s.len(),
        0 <= j,
        j + pat.len() <= hi - lo,
    ensures
        matches_at(s.subrange(lo, hi), pat, j) == matches_at(s, pat, lo + j),
{
    assert(s.subrange(lo, hi).subrange(j, j + pat.len()) =~= s.subrange(
        lo + j,
        lo + j + pat.len(),
    ));
}

proof fn lemma_bearer_from(s: Seq<char>, p: int)
    requires
        0 <= p <= s.len(),
    ensures
        forall|i: int|
            matches_at(redact_bearer_from(s, p), bearer_needle(), i) ==> matches_at(
                redact_bearer_from(s, p),
                marker(),
                i + 7,
            ),
    decreases s.len() - p,
{
    let needle = bearer_needle();
    let out = redact_bearer_from(s, p);
    lemma_find_from(s, needle, p);
    match find_from(s, needle, p) {
        None => {
            assert forall|i: int| matches_at(out, needle, i) implies matches_at(out, marker(), i + 7) by {
                lemma_match_subrange(s, p, s.len() as int, needle, i);
            }
        },
        Some(idx) => {
            let a = idx + 7;
            lemma_find_bearer_delim(s, a);
            let e = token_end(s, a);
            lemma_bearer_from(s, e);
            let pre = s.subrange(p, a);
            let rest = redact_bearer_from(s, e);
            let big = pre + marker();
            assert(out == big + rest);
            let len = pre.len() as int;
            assert forall|i: int| matches_at(out, needle, i) implies matches_at(out, marker(), i + 7) by {
                if i + 7 <= len {
                    lemma_match_prefix(big, rest, needle, i);
                    lemma_match_prefix(pre, marker(), needle, i);
                    lemma_match_subrange(s, p, a, needle, i);
                    assert(p + i == idx);
                    lemma_match_prefix(big, rest, marker(), len);
                    lemma_match_suffix(pre, marker(), marker(), len);
                    assert(marker().subrange(0, 10) =~= marker());
                } else if i < len {
                    lemma_match_chars(out, needle, i, len - i);
                    assert(out[len] == '[');
                } else if i < len + 10 {
                    lemma_match_chars(out, needle, i, 0);
                    assert(out[i] == marker()[i - len]);
                } else {
                    lemma_match_suffix(big, rest, needle, i);
                    lemma_match_suffix(big, rest, marker(), i + 7);
                }
            }
        },
    }
}

/// Every `Bearer ` left in bearer-redacted text is immediately followed by
/// the marker: no bearer token survives.
pub proof fn law_bearer_tokens_masked(s: Seq<char>)
    ensures
        forall|i: int|
            matches_at(redact_bearer(s), bearer_needle(), i) ==> matches_at(
                redact_bearer(s),
                marker(),
                i + 7,
            ),
{
    lemma_bearer_from(s, 0);
}

/// The bearer guarantee holds of the full text redaction, whose last pass is
/// the bearer pass.
pub proof fn law_redact_text_masks_bearer_tokens(s: Seq<char>)
    ensures
        forall|i: int|
            matches_at(redact_text_spec(s), bearer_needle(), i) ==> matches_at(
                redact_text_spec(s),
                marker(),
                i + 7,
            ),
{
    let inner = redact_kv(
        redact_kv(
            redact_kv(
                redact_kv(redact_kv(redact_kv(s, "access_token"@), "refresh_token"@), "client_secret"@),
                "app_secret"@,
            ),
            "authorization"@,
        ),
        "auth_header"@,
    );
    lemma_bearer_from(inner, 0);
}

/// A key for which the `key=value` pass gives its guarantee: non-empty, with
/// no proper prefix equal to a suffix (two occurrences cannot overlap), and
/// made of characters other than `=` and those of the marker.
pub open spec fn is_plain_key(key: Seq<char>) -> bool {
    &&& key.len() > 0
    &&& forall|d: int|
        0 < d < key.len() ==> key.subrange(d, key.len() as int) != key.subrange(
            0,
            key.len() - d,
        )
    &&& forall|j: int| 0 <= j < key.len() ==> key[j] != '=' && !marker().contains(key[j])
}

pub open spec fn key_eq(key: Seq<char>) -> Seq<char> {
    key.push('=')
}

proof fn lemma_key_eq_match(t: Seq<char>, key: Seq<char>, i: int)
    requires
        matches_at(t, key_eq(key), i),
    ensures
        matches_at(t, key, i),
        t[i + key.len()] == '=',
{
    lemma_match_chars(t, key_eq(key), i, key.len() as int);
    assert(t.subrange(i, i + key.len()) =~= t.subrange(i, i + key.len() + 1).subrange(
        0,
        key.len() as int,
    ));
    assert(key_eq(key).subrange(0, key.len() as int) =~= key);
}

proof fn lemma_no_overlap(s: Seq<char>, key: Seq<char>, idx: int, q: int)
    requires
        is_plain_key(key),
        matches_at(s, key, idx),
        matches_at(s, key, q),
        idx < q,
    ensures
        q >= idx + key.len(),
{
    if q >= idx + key.len() {
        return;
    }
    let d = q - idx;
    let k = key.len() as int;
    assert(key.subrange(d, k) =~= s.subrange(idx + d, idx + k)) by {
        assert forall|j: int| 0 <= j < k - d implies #[trigger] key.subrange(d, k)[j] == s.subrange(
            idx + d,
            idx + k,
        )[j] by {
            lemma_match_chars(s, key, idx, d + j);
        }
    }
    assert(key.subrange(0, k - d) =~= s.subrange(q, q + k - d)) by {
        assert forall|j: int| 0 <= j < k - d implies #[trigger] key.subrange(0, k - d)[j] == s.subrange(
            q,
            q + k - d,
        )[j] by {
            lemma_match_chars(s, key, q, j);
        }
    }
}

proof fn lemma_kv_from(s: Seq<char>, key: Seq<char>, p: int)
    requires
        0 <= p <= s.len(),
        is_plain_key(key),
    ensures
        forall|i: int|
            matches_at(redact_kv_from(s, key, p), key_eq(key), i) ==> matches_at(
                redact_kv_from(s, key, p),
                marker(),
                i + key.len() + 1,
            ),
    decreases s.len() - p,
{
    let pat = key_eq(key);
    let k = key.len() as int;
    let out = redact_kv_from(s, key, p);
    lemma_find_from(s, key, p);
    match find_from(s, key, p) {
        None => {
            assert forall|i: int| matches_at(out, pat, i) implies matches_at(out, marker(), i + k + 1) by {
                lemma_match_subrange(s, p, s.len() as int, pat, i);
                lemma_key_eq_match(s, key, p + i);
            }
        },
        Some(idx) => {
            lemma_find_char_from(s, '=', idx + k);
            match find_char_from(s, '=', idx + k) {
                None => {
                    assert forall|i: int| matches_at(out, pat, i) implies matches_at(
                        out,
                        marker(),
                        i + k + 1,
                    ) by {
                        lemma_match_subrange(s, p, s.len() as int, pat, i);
                        lemma_key_eq_match(s, key, p + i);
                        let q = p + i;
                        if q < idx + k && q != idx {
                            lemma_no_overlap(s, key, idx, q);
                        }
                    }
                },
                Some(eq) => {
                    lemma_value_end(s, eq + 1);
                    let e = value_end(s, eq + 1);
                    lemma_kv_from(s, key, e);
                    let pre = s.subrange(p, eq + 1);
                    let rest = redact_kv_from(s, key, e);
                    let big = pre + marker();
                    assert(out == big + rest);
                    let len = pre.len() as int;
                    assert forall|i: int| matches_at(out, pat, i) implies matches_at(
                        out,
                        marker(),
                        i + k + 1,
                    ) by {
                        if i + k + 1 <= len {
                            lemma_match_prefix(big, rest, pat, i);
                            lemma_match_prefix(pre, marker(), pat, i);
                            lemma_match_subrange(s, p, eq + 1, pat, i);
                            lemma_key_eq_match(s, key, p + i);
                            let q = p + i;
                            if idx < q && q < idx + k {
                                lemma_no_overlap(s, key, idx, q);
                            }
                            assert(q + k == eq);
                            lemma_match_prefix(big, rest, marker(), len);
                            lemma_match_suffix(pre, marker(), marker(), len);
                            assert(marker().subrange(0, 10) =~= marker());
                        } else if i < len {
                            lemma_match_chars(out, pat, i, len - i);
                            assert(out[len] == '[');
                            if len - i < k {
                                assert(pat[len - i] == key[len - i]);
                                assert(marker()[0] == '[');
                                assert(marker().contains(key[len - i]));
                            }
                        } else if i < len + 10 {
                            lemma_match_chars(out, pat, i, 0);
                            assert(out[i] == marker()[i - len]);
                            assert(pat[0] == key[0]);
                            assert(marker().contains(key[0]));
                        } else {
                            lemma_match_suffix(big, rest, pat, i);
                            lemma_match_suffix(big, rest, marker(), i + k + 1);
                        }
                    }
                },
            }
        },
    }
}

/// For a plain key, every `key=` left in `key=value`-redacted text is
/// immediately followed by the marker: no value of that key survives.
pub proof fn law_key_values_masked(s: Seq<char>, key: Seq<char>)
    requires
        is_plain_key(key),
    ensures
        forall|i: int|
            matches_at(redact_kv(s, key), key_eq(key), i) ==> matches_at(
                redact_kv(s, key),
                marker(),
                i + key.len() + 1,
            ),
{
    lemma_kv_from(s, key, 0);
}

/// Text in which the key does not occur is left unchanged by the
/// `key=value` pass.
pub proof fn law_kv_keeps_text_without_key(s: Seq<char>, key: Seq<char>)
    requires
        key.len() > 0,
        forall|i: int| !matches_at(s, key, i),
    ensures
        redact_kv(s, key) == s,
{
    lemma_find_from(s, key, 0);
    assert(s.subrange(0, s.len() as int) =~= s);
}

/// Text without `Bearer ` is left unchanged by the bearer pass.
pub proof fn law_bearer_keeps_text_without_bearer(s: Seq<char>)
    requires
        forall|i: int| !matches_at(s, bearer_needle(), i),
    ensures
        redact_bearer(s) == s,
{
    lemma_find_from(s, bearer_needle(), 0);
    assert(s.subrange(0, s.len() as int) =~= s);
}


// ---------------------------------------------------------------------------
// The whole text redaction
// ---------------------------------------------------------------------------

/// The keys whose values the text redaction replaces, in the order of its
/// passes.
pub open spec fn secret_keys() -> Seq<Seq<char>> {
    seq![
        "access_token"@,
        "refresh_token"@,
        "client_secret"@,
        "app_secret"@,
        "authorization"@,
        "auth_header"@,
    ]
}

/// The `key=value` passes for the first `m` secret keys, in order.
pub open spec fn redact_keys_upto(s: Seq<char>, m: int) -> Seq<char>
    decreases m,
{
    if m <= 0 {
        s
    } else {
        redact_kv(redact_keys_upto(s, m - 1), secret_keys()[m - 1])
    }
}

/// Whether `c` occurs among the first `n` characters of `s`.
pub open spec fn has_char(s: Seq<char>, c: char, n: int) -> bool
    decreases n,
{
    if n <= 0 {
        false
    } else {
        s[n - 1] == c || has_char(s, c, n - 1)
    }
}

proof fn lemma_has_char(s: Seq<char>, c: char, n: int, j: int)
    requires
        0 <= j < n <= s.len(),
        s[j] == c,
    ensures
        has_char(s, c, n),
    decreases n,
{
    if j < n - 1 {
        lemma_has_char(s, c, n - 1, j);
    }
}

/// A pattern holding a character that the text lacks does not occur in it.
proof fn lemma_absent_char(t: Seq<char>, pat: Seq<char>, c: char, k: int)
    requires
        0 <= k < pat.len(),
        pat[k] == c,
        !has_char(t, c, t.len() as int),
    ensures
        forall|i: int| !matches_at(t, pat, i),
{
    assert forall|i: int| !matches_at(t, pat, i) by {
        if matches_at(t, pat, i) {
            lemma_match_chars(t, pat, i, k);
            lemma_has_char(t, c, t.len() as int, i + k);
        }
    }
}

/// A pattern longer than the text does not occur in it.
proof fn lemma_too_long(t: Seq<char>, pat: Seq<char>)
    requires
        pat.len() > t.len(),
    ensures
        forall|i: int| !matches_at(t, pat, i),
{
}

/// A pattern that occurs in neither part, and lacks a character found on
/// either side of the seam, does not occur in the concatenation.
proof fn lemma_no_match_concat(x: Seq<char>, y: Seq<char>, pat: Seq<char>, c: char)
    requires
        x.len() > 0,
        y.len() > 0,
        x.last() == c || y[0] == c,
        !has_char(pat, c, pat.len() as int),
        forall|i: int| !matches_at(x, pat, i),
        forall|i: int| !matches_at(y, pat, i),
    ensures
        forall|i: int| !matches_at(x + y, pat, i),
{
    assert forall|i: int| !matches_at(x + y, pat, i) by {
        if matches_at(x + y, pat, i) {
            if i + pat.len() <= x.len() {
                lemma_match_prefix(x, y, pat, i);
            } else if i >= x.len() {
                lemma_match_suffix(x, y, pat, i);
            } else {
                lemma_match_chars(x + y, pat, i, x.len() - 1 - i);
                lemma_match_chars(x + y, pat, i, x.len() - i);
                if x.last() == c {
                    lemma_has_char(pat, c, pat.len() as int, x.len() - 1 - i);
                } else {
                    lemma_has_char(pat, c, pat.len() as int, x.len() - i);
                }
            }
        }
    }
}

proof fn lemma_no_value_delim(s: Seq<char>, i: int)
    requires
        0 <= i,
        forall|j: int| i <= j < s.len() ==> !is_value_delim(s[j]),
    ensures
        find_value_delim(s, i) is None,
    decreases s.len() - i,
{
    if i < s.len() {
        lemma_no_value_delim(s, i + 1);
    }
}

proof fn lemma_no_bearer_delim(s: Seq<char>, i: int)
    requires
        0 <= i,
        forall|j: int| i <= j < s.len() ==> !is_bearer_delim(s[j]),
    ensures
        find_bearer_delim(s, i) is None,
    decreases s.len() - i,
{
    if i < s.len() {
        lemma_no_bearer_delim(s, i + 1);
    }
}

proof fn lemma_text_spec_passes(s: Seq<char>)
    ensures
        redact_text_spec(s) == redact_bearer(redact_keys_upto(s, 6)),
{
    reveal_with_fuel(redact_keys_upto, 7);
}

/// What the passes for keys `lo..m` leave of a text that holds none of them.
proof fn lemma_upto(s: Seq<char>, t: Seq<char>, lo: int, m: int)
    requires
        0 <= lo <= m <= 6,
        redact_keys_upto(s, lo) == t,
        forall|j: int, i: int|
            #![trigger matches_at(t, secret_keys()[j], i)]
            lo <= j < m ==> !matches_at(t, secret_keys()[j], i),
    ensures
        redact_keys_upto(s, m) == t,
    decreases m,
{
    if m > lo {
        lemma_upto(s, t, lo, m - 1);
        let j = m - 1;
        let key = secret_keys()[j];
        lemma_key_shape(j);
        assert forall|i: int| !matches_at(t, key, i) by {
            assert(!matches_at(t, secret_keys()[j], i));
        }
        law_kv_keeps_text_without_key(t, key);
    }
}

/// The shape of each secret key: at least ten characters, lower-case first,
/// with no `=`, space or `B`, and a first character that the marker lacks.
proof fn lemma_key_shape(n: int)
    requires
        0 <= n < 6,
    ensures
        secret_keys()[n].len() >= 10,
        !has_char(secret_keys()[n], '=', secret_keys()[n].len() as int),
        !has_char(secret_keys()[n], ' ', secret_keys()[n].len() as int),
        !has_char(secret_keys()[n], 'B', secret_keys()[n].len() as int),
        !has_char(marker(), secret_keys()[n][0], 10),
{
    reveal_strlit("access_token");
    reveal_strlit("refresh_token");
    reveal_strlit("client_secret");
    reveal_strlit("app_secret");
    reveal_strlit("authorization");
    reveal_strlit("auth_header");
    reveal_with_fuel(has_char, 14);
}

proof fn lemma_apart_in_access_token(b: int)
    requires
        0 <= b < 6,
        b != 0,
    ensures
        forall|i: int| !matches_at(secret_keys()[0], secret_keys()[b], i),
{
    reveal_strlit("access_token");
    reveal_strlit("refresh_token");
    reveal_strlit("client_secret");
    reveal_strlit("app_secret");
    reveal_strlit("authorization");
    reveal_strlit("auth_header");
    reveal_with_fuel(has_char, 14);
    if b == 1 {
        lemma_absent_char(secret_keys()[0], secret_keys()[1], 'r', 0);
    } else if b == 2 {
        lemma_absent_char(secret_keys()[0], secret_keys()[2], 'l', 1);
    } else if b == 3 {
        lemma_absent_char(secret_keys()[0], secret_keys()[3], 'p', 1);
    } else if b == 4 {
        lemma_absent_char(secret_keys()[0], secret_keys()[4], 'u', 1);
    } else if b == 5 {
        lemma_absent_char(secret_keys()[0], secret_keys()[5], 'u', 1);
    }
}

proof fn lemma_apart_in_refresh_token(b: int)
    requires
        0 <= b < 6,
        b != 1,
    ensures
        forall|i: int| !matches_at(secret_keys()[1], secret_keys()[b], i),
{
    reveal_strlit("refresh_token");
    reveal_strlit("access_token");
    reveal_strlit("client_secret");
    reveal_strlit("app_secret");
    reveal_strlit("authorization");
    reveal_strlit("auth_header");
    reveal_with_fuel(has_char, 14);
    if b == 0 {
        lemma_absent_char(secret_keys()[1], secret_keys()[0], 'a', 0);
    } else if b == 2 {
        lemma_absent_char(secret_keys()[1], secret_keys()[2], 'c', 0);
    } else if b == 3 {
        lemma_absent_char(secret_keys()[1], secret_keys()[3], 'a', 0);
    } else if b == 4 {
        lemma_absent_char(secret_keys()[1], secret_keys()[4], 'a', 0);
    } else if b == 5 {
        lemma_absent_char(secret_keys()[1], secret_keys()[5], 'a', 0);
    }
}

proof fn lemma_apart_in_client_secret(b: int)
    requires
        0 <= b < 6,
        b != 2,
    ensures
        forall|i: int| !matches_at(secret_keys()[2], secret_keys()[b], i),
{
    reveal_strlit("client_secret");
    reveal_strlit("access_token");
    reveal_strlit("refresh_token");
    reveal_strlit("app_secret");
    reveal_strlit("authorization");
    reveal_strlit("auth_header");
    reveal_with_fuel(has_char, 14);
    if b == 0 {
        lemma_absent_char(secret_keys()[2], secret_keys()[0], 'a', 0);
    } else if b == 1 {
        lemma_absent_char(secret_keys()[2], secret_keys()[1], 'f', 2);
    } else if b == 3 {
        lemma_absent_char(secret_keys()[2], secret_keys()[3], 'a', 0);
    } else if b == 4 {
        lemma_absent_char(secret_keys()[2], secret_keys()[4], 'a', 0);
    } else if b == 5 {
        lemma_absent_char(secret_keys()[2], secret_keys()[5], 'a', 0);
    }
}

proof fn lemma_apart_in_app_secret(b: int)
    requires
        0 <= b < 6,
        b != 3,
    ensures
        forall|i: int| !matches_at(secret_keys()[3], secret_keys()[b], i),
{
    reveal_strlit("app_secret");
    reveal_strlit("access_token");
    reveal_strlit("refresh_token");
    reveal_strlit("client_secret");
    reveal_strlit("authorization");
    reveal_strlit("auth_header");
    reveal_with_fuel(has_char, 14);
    if b == 0 {
        lemma_absent_char(secret_keys()[3], secret_keys()[0], 'o', 8);
    } else if b == 1 {
        lemma_absent_char(secret_keys()[3], secret_keys()[1], 'f', 2);
    } else if b == 2 {
        lemma_absent_char(secret_keys()[3], secret_keys()[2], 'l', 1);
    } else if b == 4 {
        lemma_absent_char(secret_keys()[3], secret_keys()[4], 'u', 1);
    } else if b == 5 {
        lemma_absent_char(secret_keys()[3], secret_keys()[5], 'u', 1);
    }
}

proof fn lemma_apart_in_authorization(b: int)
    requires
        0 <= b < 6,
        b != 4,
    ensures
        forall|i: int| !matches_at(secret_keys()[4], secret_keys()[b], i),
{
    reveal_strlit("authorization");
    reveal_strlit("access_token");
    reveal_strlit("refresh_token");
    reveal_strlit("client_secret");
    reveal_strlit("app_secret");
    reveal_strlit("auth_header");
    reveal_with_fuel(has_char, 14);
    if b == 0 {
        lemma_absent_char(secret_keys()[4], secret_keys()[0], 'c', 1);
    } else if b == 1 {
        lemma_absent_char(secret_keys()[4], secret_keys()[1], 'e', 1);
    } else if b == 2 {
        lemma_absent_char(secret_keys()[4], secret_keys()[2], 'c', 0);
    } else if b == 3 {
        lemma_absent_char(secret_keys()[4], secret_keys()[3], 'p', 1);
    } else if b == 5 {
        lemma_absent_char(secret_keys()[4], secret_keys()[5], '_', 4);
    }
}

proof fn lemma_apart_in_auth_header(b: int)
    requires
        0 <= b < 6,
        b != 5,
    ensures
        forall|i: int| !matches_at(secret_keys()[5], secret_keys()[b], i),
{
    reveal_strlit("auth_header");
    reveal_strlit("access_token");
    reveal_strlit("refresh_token");
    reveal_strlit("client_secret");
    reveal_strlit("app_secret");
    reveal_strlit("authorization");
    reveal_with_fuel(has_char, 14);
    if b == 0 {
        lemma_absent_char(secret_keys()[5], secret_keys()[0], 'c', 1);
    } else if b == 1 {
        lemma_absent_char(secret_keys()[5], secret_keys()[1], 'f', 2);
    } else if b == 2 {
        lemma_absent_char(secret_keys()[5], secret_keys()[2], 'c', 0);
    } else if b == 3 {
        lemma_absent_char(secret_keys()[5], secret_keys()[3], 'p', 1);
    } else if b == 4 {
        lemma_absent_char(secret_keys()[5], secret_keys()[4], 'o', 4);
    }
}

/// Two different secret keys: neither occurs in the other.
proof fn lemma_keys_apart(a: int, b: int)
    requires
        0 <= a < 6,
        0 <= b < 6,
        a != b,
    ensures
        forall|i: int| !matches_at(secret_keys()[a], secret_keys()[b], i),
{
    if a == 0 {
        lemma_apart_in_access_token(b);
    } else if a == 1 {
        lemma_apart_in_refresh_token(b);
    } else if a == 2 {
        lemma_apart_in_client_secret(b);
    } else if a == 3 {
        lemma_apart_in_app_secret(b);
    } else if a == 4 {
        lemma_apart_in_authorization(b);
    } else if a == 5 {
        lemma_apart_in_auth_header(b);
    }
}

proof fn lemma_kv_leading_pair(key: Seq<char>, v: Seq<char>)
    requires
        key.len() > 0,
        v.len() > 0,
        forall|j: int| 0 <= j < v.len() ==> !is_value_delim(#[trigger] v[j]),
    ensures
        redact_kv(key + seq!['='] + v, key) == key + seq!['='] + marker(),
{
    let x = key + seq!['='];
    let s = x + v;
    let e = key.len() as int;
    assert(s.subrange(0, e) =~= key);
    assert(find_from(s, key, 0) == Some(0int));
    assert(s[e] == '=');
    assert(find_char_from(s, '=', e) == Some(e));
    assert forall|j: int| e + 1 <= j < s.len() implies !is_value_delim(s[j]) by {
        assert(s[j] == v[j - x.len()]);
    }
    lemma_no_value_delim(s, e + 1);
    assert(s[e + 1] == v[0]);
    assert(value_end(s, e + 1) == s.len());
    assert(redact_kv_from(s, key, s.len() as int) =~= Seq::<char>::empty());
    assert(s.subrange(0, e + 1) =~= x);
}

/// A value that the redaction laws speak of: non-empty, free of the
/// characters that end a value, and holding no secret key and no `Bearer `.
pub open spec fn plain_value(v: Seq<char>) -> bool {
    &&& v.len() > 0
    &&& forall|j: int| 0 <= j < v.len() ==> !is_value_delim(#[trigger] v[j])
    &&& forall|n: int, i: int|
        #![trigger matches_at(v, secret_keys()[n], i)]
        0 <= n < 6 ==> !matches_at(v, secret_keys()[n], i)
    &&& forall|i: int| !matches_at(v, bearer_needle(), i)
}

/// Text that holds none of the secret keys and no `Bearer ` comes back from
/// the text redaction unchanged.
pub proof fn law_redact_text_keeps_plain_text(s: Seq<char>)
    requires
        forall|n: int, i: int|
            #![trigger matches_at(s, secret_keys()[n], i)]
            0 <= n < 6 ==> !matches_at(s, secret_keys()[n], i),
        forall|i: int| !matches_at(s, bearer_needle(), i),
    ensures
        redact_text_spec(s) == s,
{
    lemma_upto(s, s, 0, 6);
    lemma_text_spec_passes(s);
    law_bearer_keeps_text_without_bearer(s);
}

/// `K=v`, for a secret key `K` and a plain value `v`, comes back from the
/// text redaction as `K=[REDACTED]`.
pub proof fn law_redact_text_masks_key_value(n: int, v: Seq<char>)
    requires
        0 <= n < 6,
        plain_value(v),
    ensures
        redact_text_spec(secret_keys()[n] + seq!['='] + v) == secret_keys()[n] + seq!['='] + marker(),
{
    let k = secret_keys()[n];
    let x = k + seq!['='];
    let s = x + v;
    let t = x + marker();
    lemma_key_shape(n);
    assert forall|j: int, i: int| 0 <= j < 6 && j != n implies !matches_at(x, secret_keys()[j], i) by {
        lemma_key_shape(j);
        lemma_keys_apart(n, j);
        lemma_too_long(seq!['='], secret_keys()[j]);
        lemma_no_match_concat(k, seq!['='], secret_keys()[j], '=');
    }
    assert forall|j: int, i: int|
        #![trigger matches_at(s, secret_keys()[j], i)]
        0 <= j < 6 && j != n implies !matches_at(s, secret_keys()[j], i) by {
        lemma_key_shape(j);
        assert forall|i2: int| !matches_at(x, secret_keys()[j], i2) by {
            assert(!matches_at(x, secret_keys()[j], i2));
        }
        assert forall|i2: int| !matches_at(v, secret_keys()[j], i2) by {
            assert(!matches_at(v, secret_keys()[j], i2));
        }
        lemma_no_match_concat(x, v, secret_keys()[j], '=');
    }
    assert forall|j: int, i: int|
        #![trigger matches_at(t, secret_keys()[j], i)]
        0 <= j < 6 && j != n implies !matches_at(t, secret_keys()[j], i) by {
        lemma_key_shape(j);
        assert forall|i2: int| !matches_at(x, secret_keys()[j], i2) by {
            assert(!matches_at(x, secret_keys()[j], i2));
        }
        lemma_absent_char(marker(), secret_keys()[j], secret_keys()[j][0], 0);
        lemma_no_match_concat(x, marker(), secret_keys()[j], '=');
    }
    lemma_upto(s, s, 0, n);
    lemma_kv_leading_pair(k, v);
    assert(redact_keys_upto(s, n + 1) == t);
    lemma_upto(s, t, n + 1, 6);
    lemma_text_spec_passes(s);
    reveal_with_fuel(has_char, 11);
    lemma_absent_char(k, bearer_needle(), 'B', 0);
    lemma_too_long(seq!['='], bearer_needle());
    lemma_no_match_concat(k, seq!['='], bearer_needle(), '=');
    lemma_absent_char(marker(), bearer_needle(), 'B', 0);
    lemma_no_match_concat(x, marker(), bearer_needle(), '=');
    law_bearer_keeps_text_without_bearer(t);
}

/// `Bearer v`, for a plain value `v`, comes back from the text redaction as
/// `Bearer [REDACTED]`.
pub proof fn law_redact_text_masks_bearer_value(v: Seq<char>)
    requires
        plain_value(v),
    ensures
        redact_text_spec(bearer_needle() + v) == bearer_needle() + marker(),
{
    let s = bearer_needle() + v;
    assert forall|j: int, i: int|
        #![trigger matches_at(s, secret_keys()[j], i)]
        0 <= j < 6 implies !matches_at(s, secret_keys()[j], i) by {
        lemma_key_shape(j);
        lemma_too_long(bearer_needle(), secret_keys()[j]);
        assert forall|i2: int| !matches_at(v, secret_keys()[j], i2) by {
            assert(!matches_at(v, secret_keys()[j], i2));
        }
        lemma_no_match_concat(bearer_needle(), v, secret_keys()[j], ' ');
    }
    lemma_upto(s, s, 0, 6);
    lemma_text_spec_passes(s);
    assert(s.subrange(0, 7) =~= bearer_needle());
    assert(find_from(s, bearer_needle(), 0) == Some(0int));
    assert forall|j: int| 7 <= j < s.len() implies !is_bearer_delim(s[j]) by {
        assert(s[j] == v[j - 7]);
        assert(!is_value_delim(v[j - 7]));
    }
    lemma_no_bearer_delim(s, 7);
    assert(token_end(s, 7) == s.len());
    assert(redact_bearer_from(s, s.len() as int) =~= Seq::<char>::empty());
}

} // verus!
