//! Output envelopes and redaction of structured data.
use vstd::prelude::*;

use crate::error::CliError;
pub use crate::redact::redact_text;
use crate::redact::{marker, redact_text_spec};
use crate::text::{ascii_lower_seq, ascii_lowercase, chars_eq, dec_int, decimal_i64, decimal_u64, owned, push_str};

verus! {

/// How results are presented.
#[derive(Debug, Clone, Copy, PartialEq, Eq, Structural)]
pub enum OutputMode {
    Human,
    Json,
}

/// A JSON document as the library reads it.  Numbers are kept as their
/// textual form, which the library never inspects.
#[derive(Debug)]
pub enum JsonValue {
    Null,
    Bool(bool),
    Number(String),
    Str(String),
    Array(Vec<JsonValue>),
    Object(Vec<(String, JsonValue)>),
}

/// Keys whose values are secrets, compared after ASCII lower-casing.
pub open spec fn is_secret_key_spec(key: Seq<char>) -> bool {
    let k = ascii_lower_seq(key);
    ||| k == "access_token"@
    ||| k == "refresh_token"@
    ||| k == "app_secret"@
    ||| k == "client_secret"@
    ||| k == "authorization"@
    ||| k == "auth_header"@
    ||| k == "auth"@
}

/// A key is secret exactly when, ASCII lower-cased, it is one of
/// `access_token`, `refresh_token`, `app_secret`, `client_secret`,
/// `authorization`, `auth_header` or `auth`.
pub proof fn law_secret_key_names(key: Seq<char>)
    ensures
        is_secret_key_spec(key) <==> {
            let k = ascii_lower_seq(key);
            k == "access_token"@ || k == "refresh_token"@ || k == "app_secret"@ || k
                == "client_secret"@ || k == "authorization"@ || k == "auth_header"@ || k == "auth"@
        },
{
}

/// Redacted data keeps no secret: wherever the input object has a secret
/// key, the output has the same key with the marker as its value; other keys
/// keep their place and name.
pub proof fn law_secret_values_masked(a: JsonValue, b: JsonValue)
    requires
        json_redacted(a, b),
        a is Object,
    ensures
        b is Object,
        b->Object_0@.len() == a->Object_0@.len(),
        forall|i: int|
            0 <= i < a->Object_0@.len() ==> (#[trigger] b->Object_0@[i]).0@ == a->Object_0@[i].0@,
        forall|i: int|
            0 <= i < a->Object_0@.len() && is_secret_key_spec(a->Object_0@[i].0@) ==> {
                let v = (#[trigger] b->Object_0@[i]).1;
                v is Str && v->Str_0@ == marker()
            },
{
    assert forall|i: int| 0 <= i < a->Object_0@.len() implies (#[trigger] b->Object_0@[i]).0@
        == a->Object_0@[i].0@ by {
        let (k, v) = a->Object_0@[i];
        let (k2, v2) = b->Object_0@[i];
    }
}

pub fn is_secret_key(key: &str) -> (r: bool)
    ensures
        r == is_secret_key_spec(key@),
        r <==> {
            let k = ascii_lower_seq(key@);
            k == "access_token"@ || k == "refresh_token"@ || k == "app_secret"@ || k
                == "client_secret"@ || k == "authorization"@ || k == "auth_header"@ || k == "auth"@
        },
{
    proof {
        law_secret_key_names(key@);
    }
    let k = ascii_lowercase(key);
    let names = [
        "access_token",
        "refresh_token",
        "app_secret",
        "client_secret",
        "authorization",
        "auth_header",
        "auth",
    ];
    let mut i: usize = 0;
    while i < 7
        invariant
            i <= 7,
            k@ == ascii_lower_seq(key@),
            names@ == seq![
                "access_token",
                "refresh_token",
                "app_secret",
                "client_secret",
                "authorization",
                "auth_header",
                "auth",
            ],
            forall|j: int| 0 <= j < i ==> k@ != (#[trigger] names@[j])@,
        decreases 7 - i,
    {
        let candidate = crate::text::chars_of(names[i]);
        if chars_eq(&k, &candidate) {
            return true;
        }
        i = i + 1;
    }
    assert(k@ != names@[0]@ && k@ != names@[1]@ && k@ != names@[2]@ && k@ != names@[3]@ && k@
        != names@[4]@ && k@ != names@[5]@ && k@ != names@[6]@);
    false
}

/// `b` is the redaction of `a`: string values are redacted as text, the
/// value of every secret key is replaced by the marker, and the structure is
/// kept.
pub open spec fn json_redacted(a: JsonValue, b: JsonValue) -> bool
    decreases a,
{
    match a {
        JsonValue::Null => b is Null,
        JsonValue::Bool(x) => b == JsonValue::Bool(x),
        JsonValue::Number(x) => b is Number && b->Number_0@ == x@,
        JsonValue::Str(x) => b is Str && b->Str_0@ == redact_text_spec(x@),
        JsonValue::Array(xs) => b is Array && b->Array_0@.len() == xs@.len() && forall|i: int|
            0 <= i < xs@.len() ==> json_redacted(xs@[i], #[trigger] b->Array_0@[i]),
        JsonValue::Object(xs) => b is Object && b->Object_0@.len() == xs@.len() && forall|i: int|
            0 <= i < xs@.len() ==> {
                let (k, v) = xs@[i];
                let (k2, v2) = #[trigger] b->Object_0@[i];
                &&& k2@ == k@
                &&& if is_secret_key_spec(k@) {
                    v2 is Str && v2->Str_0@ == marker()
                } else {
                    json_redacted(v, v2)
                }
            },
    }
}

/// The redaction of structured data: string values are redacted as text,
/// the values of secret keys are replaced by the marker.
#[verifier::loop_isolation(false)]
pub fn redact_json_value(v: &JsonValue) -> (r: JsonValue)
    ensures
        json_redacted(*v, r),
    decreases v,
{
    match v {
        JsonValue::Null => JsonValue::Null,
        JsonValue::Bool(b) => JsonValue::Bool(*b),
        JsonValue::Number(n) => JsonValue::Number(n.clone()),
        JsonValue::Str(t) => JsonValue::Str(redact_text(t.as_str())),
        JsonValue::Array(items) => {
            let mut out: Vec<JsonValue> = Vec::new();
            let mut i: usize = 0;
            while i < items.len()
                invariant
                    i <= items.len(),
                    out@.len() == i,
                    forall|j: int| 0 <= j < i ==> json_redacted(items@[j], #[trigger] out@[j]),
                decreases items.len() - i,
            {
                proof {
                    assert(decreases_to!(*v => items@[i as int]));
                }
                let r = redact_json_value(&items[i]);
                out.push(r);
                i = i + 1;
            }
            JsonValue::Array(out)
        },
        JsonValue::Object(entries) => {
            let mut out: Vec<(String, JsonValue)> = Vec::new();
            let mut i: usize = 0;
            while i < entries.len()
                invariant
                    i <= entries.len(),
                    out@.len() == i,
                    forall|j: int|
                        0 <= j < i ==> {
                            let (k, v) = entries@[j];
                            let (k2, v2) = #[trigger] out@[j];
                            &&& k2@ == k@
                            &&& if is_secret_key_spec(k@) {
                                v2 is Str && v2->Str_0@ == marker()
                            } else {
                                json_redacted(v, v2)
                            }
                        },
                decreases entries.len() - i,
            {
                let key = entries[i].0.clone();
                let value = if is_secret_key(key.as_str()) {
                    proof {
                        reveal_strlit("[REDACTED]");
                    }
                    JsonValue::Str(owned("[REDACTED]"))
                } else {
                    proof {
                        assert(decreases_to!(*v => entries@[i as int].1));
                    }
                    redact_json_value(&entries[i].1)
                };
                out.push((key, value));
                i = i + 1;
            }
            JsonValue::Object(out)
        },
    }
}

/// The JSON envelope of a successful command.
pub open spec fn is_success_envelope(r: JsonValue, command: Seq<char>, data: JsonValue) -> bool {
    &&& r is Object
    &&& r->Object_0@.len() == 3
    &&& r->Object_0@[0].0@ == "ok"@ && r->Object_0@[0].1 == JsonValue::Bool(true)
    &&& r->Object_0@[1].0@ == "command"@ && r->Object_0@[1].1 is Str
        && r->Object_0@[1].1->Str_0@ == command
    &&& r->Object_0@[2].0@ == "data"@ && json_redacted(data, r->Object_0@[2].1)
}

/// The JSON envelope of a failed command.
pub open spec fn is_error_envelope(r: JsonValue, command: Seq<char>, err: CliError) -> bool {
    &&& r is Object
    &&& r->Object_0@.len() == 4
    &&& r->Object_0@[0].0@ == "ok"@ && r->Object_0@[0].1 == JsonValue::Bool(false)
    &&& r->Object_0@[1].0@ == "command"@ && r->Object_0@[1].1 is Str
        && r->Object_0@[1].1->Str_0@ == command
    &&& r->Object_0@[2].0@ == "data"@ && r->Object_0@[2].1 is Null
    &&& r->Object_0@[3].0@ == "error"@ && r->Object_0@[3].1 is Object && {
        let body = r->Object_0@[3].1->Object_0@;
        &&& body.len() == 2
        &&& body[0].0@ == "code"@ && body[0].1 is Str && body[0].1->Str_0@ == err.category.code()
        &&& body[1].0@ == "message"@ && body[1].1 is Str && body[1].1->Str_0@ == redact_text_spec(
            err.message@,
        )
    }
}

/// The names of an envelope's fields, in order.
pub open spec fn envelope_names() -> Seq<Seq<char>> {
    seq!["ok"@, "command"@, "data"@, "error"@]
}

/// The names of the envelope's fields are distinct.
proof fn lemma_envelope_names()
    ensures
        forall|i: int, k: int|
            0 <= i < 4 && 0 <= k < 4 && i != k ==> #[trigger] envelope_names()[i] != #[trigger] envelope_names()[k],
        "code"@ != "message"@,
{
    reveal_strlit("ok");
    reveal_strlit("command");
    reveal_strlit("data");
    reveal_strlit("error");
    reveal_strlit("code");
    reveal_strlit("message");
    let names = seq!["ok"@, "command"@, "data"@, "error"@];
    assert forall|i: int, k: int| 0 <= i < 4 && 0 <= k < 4 && i != k implies names[i] != names[k] by {
        if names[i] == names[k] {
            assert(names[i].len() == names[k].len());
            assert(names[i][0] == names[k][0]);
        }
    }
    assert("code"@.len() != "message"@.len());
}

/// A success envelope says `ok: true` and carries the command and the
/// redacted data.
pub proof fn law_success_envelope(r: JsonValue, command: Seq<char>, data: JsonValue)
    requires
        is_success_envelope(r, command, data),
    ensures
        field_is(r, "ok"@, |v: JsonValue| v == JsonValue::Bool(true)),
        field_is(r, "command"@, |v: JsonValue| str_json(v, command)),
        field_is(r, "data"@, |v: JsonValue| json_redacted(data, v)),
{
    lemma_envelope_names();
    let names = envelope_names();
    let f = r->Object_0@;
    assert forall|i: int| 0 <= i < 3 implies #[trigger] f[i].0@ == names[i] by {
        if i == 0 {} else if i == 1 {} else {}
    }
    lemma_field_is_at(r, "ok"@, 0, |v: JsonValue| v == JsonValue::Bool(true));
    lemma_field_is_at(r, "command"@, 1, |v: JsonValue| str_json(v, command));
    lemma_field_is_at(r, "data"@, 2, |v: JsonValue| json_redacted(data, v));
}

/// An error envelope says `ok: false`, carries no data, and gives the
/// error's code and its redacted message.
pub proof fn law_error_envelope(e: JsonValue, command: Seq<char>, err: CliError)
    requires
        is_error_envelope(e, command, err),
    ensures
        field_is(e, "ok"@, |v: JsonValue| v == JsonValue::Bool(false)),
        field_is(e, "command"@, |v: JsonValue| str_json(v, command)),
        field_is(e, "data"@, |v: JsonValue| v is Null),
        field_is(
            e,
            "error"@,
            |v: JsonValue|
                field_is(v, "code"@, |c: JsonValue| str_json(c, err.category.code())) && field_is(
                    v,
                    "message"@,
                    |m: JsonValue| str_json(m, redact_text_spec(err.message@)),
                ),
        ),
{
    lemma_envelope_names();
    let names = envelope_names();
    let g = e->Object_0@;
    assert forall|i: int| 0 <= i < 4 implies #[trigger] g[i].0@ == names[i] by {
        if i == 0 {} else if i == 1 {} else if i == 2 {} else {}
    }
    let body = g[3].1;
    lemma_field_is_at(body, "code"@, 0, |c: JsonValue| str_json(c, err.category.code()));
    lemma_field_is_at(body, "message"@, 1, |m: JsonValue| str_json(m, redact_text_spec(err.message@)));
    lemma_field_is_at(e, "ok"@, 0, |v: JsonValue| v == JsonValue::Bool(false));
    lemma_field_is_at(e, "command"@, 1, |v: JsonValue| str_json(v, command));
    lemma_field_is_at(e, "data"@, 2, |v: JsonValue| v is Null);
    lemma_field_is_at(
        e,
        "error"@,
        3,
        |v: JsonValue|
            field_is(v, "code"@, |c: JsonValue| str_json(c, err.category.code())) && field_is(
                v,
                "message"@,
                |m: JsonValue| str_json(m, redact_text_spec(err.message@)),
            ),
    );
}

pub fn success_envelope(command: &str, data: &JsonValue) -> (r: JsonValue)
    ensures
        is_success_envelope(r, command@, *data),
{
    let mut fields: Vec<(String, JsonValue)> = Vec::new();
    fields.push((owned("ok"), JsonValue::Bool(true)));
    fields.push((owned("command"), JsonValue::Str(owned(command))));
    fields.push((owned("data"), redact_json_value(data)));
    JsonValue::Object(fields)
}

pub fn error_envelope(command: &str, err: &CliError) -> (r: JsonValue)
    ensures
        is_error_envelope(r, command@, *err),
{
    let mut body: Vec<(String, JsonValue)> = Vec::new();
    body.push((owned("code"), JsonValue::Str(owned(err.category.as_code()))));
    body.push((owned("message"), JsonValue::Str(redact_text(err.message.as_str()))));
    let mut fields: Vec<(String, JsonValue)> = Vec::new();
    fields.push((owned("ok"), JsonValue::Bool(false)));
    fields.push((owned("command"), JsonValue::Str(owned(command))));
    fields.push((owned("data"), JsonValue::Null));
    fields.push((owned("error"), JsonValue::Object(body)));
    JsonValue::Object(fields)
}

/// The human-readable line of a successful command: `<command>: <text>`,
/// with secrets redacted from the text.
pub fn human_success_line(command: &str, human_text: &str) -> (r: String)
    ensures
        r@ == command@ + ": "@ + redact_text_spec(human_text@),
{
    let mut out = owned(command);
    push_str(&mut out, ": ");
    let red = redact_text(human_text);
    push_str(&mut out, red.as_str());
    out
}

/// The human-readable line of a failed command:
/// `<command> <CODE>: <message>`, with secrets redacted from the message.
pub fn human_error_line(command: &str, err: &CliError) -> (r: String)
    ensures
        r@ == command@ + " "@ + err.category.code() + ": "@ + redact_text_spec(err.message@),
{
    let mut out = owned(command);
    push_str(&mut out, " ");
    push_str(&mut out, err.category.as_code());
    push_str(&mut out, ": ");
    let red = redact_text(err.message.as_str());
    push_str(&mut out, red.as_str());
    out
}

// ---------------------------------------------------------------------------
// Building documents
// ---------------------------------------------------------------------------

/// What a command reports on success: its name, a line for people and the
/// data for machines.
pub struct CommandOutput {
    pub command: String,
    pub human: String,
    pub data: JsonValue,
}

pub open spec fn str_json(j: JsonValue, s: Seq<char>) -> bool {
    j is Str && j->Str_0@ == s
}

pub open spec fn opt_json(j: JsonValue, o: Option<Seq<char>>) -> bool {
    match o {
        Some(s) => str_json(j, s),
        None => j is Null,
    }
}

pub open spec fn int_json(j: JsonValue, n: int) -> bool {
    j is Number && j->Number_0@ == dec_int(n)
}

pub open spec fn opt_int_json(j: JsonValue, o: Option<i64>) -> bool {
    match o {
        Some(n) => int_json(j, n as int),
        None => j is Null,
    }
}

/// Field `i` of object `j` is named `key`.
pub open spec fn has_key(j: JsonValue, i: int, key: Seq<char>) -> bool {
    j is Object && 0 <= i < j->Object_0@.len() && j->Object_0@[i].0@ == key
}

/// The value of field `i` of object `j`.
pub open spec fn field_value(j: JsonValue, i: int) -> JsonValue {
    j->Object_0@[i].1
}

/// Object `j` has a field named `key`, and every field of that name holds
/// the text `s`.
pub open spec fn field_text(j: JsonValue, key: Seq<char>, s: Seq<char>) -> bool {
    &&& j is Object
    &&& exists|i: int| 0 <= i < j->Object_0@.len() && #[trigger] j->Object_0@[i].0@ == key
    &&& forall|i: int|
        0 <= i < j->Object_0@.len() && #[trigger] j->Object_0@[i].0@ == key ==> str_json(
            j->Object_0@[i].1,
            s,
        )
}

/// Object `j` has a field named `key`, and every field of that name holds
/// the optional count `o` (`null` when absent).
pub open spec fn field_opt_int(j: JsonValue, key: Seq<char>, o: Option<i64>) -> bool {
    &&& j is Object
    &&& exists|i: int| 0 <= i < j->Object_0@.len() && #[trigger] j->Object_0@[i].0@ == key
    &&& forall|i: int|
        0 <= i < j->Object_0@.len() && #[trigger] j->Object_0@[i].0@ == key ==> opt_int_json(
            j->Object_0@[i].1,
            o,
        )
}

/// A field found at a known position, whose name no other field bears.
pub proof fn lemma_field_text_at(j: JsonValue, key: Seq<char>, idx: int, s: Seq<char>)
    requires
        j is Object,
        0 <= idx < j->Object_0@.len(),
        j->Object_0@[idx].0@ == key,
        str_json(j->Object_0@[idx].1, s),
        forall|i: int| 0 <= i < j->Object_0@.len() && i != idx ==> #[trigger] j->Object_0@[i].0@ != key,
    ensures
        field_text(j, key, s),
{
}

/// A count field found at a known position, whose name no other field bears.
pub proof fn lemma_field_opt_int_at(j: JsonValue, key: Seq<char>, idx: int, o: Option<i64>)
    requires
        j is Object,
        0 <= idx < j->Object_0@.len(),
        j->Object_0@[idx].0@ == key,
        opt_int_json(j->Object_0@[idx].1, o),
        forall|i: int| 0 <= i < j->Object_0@.len() && i != idx ==> #[trigger] j->Object_0@[i].0@ != key,
    ensures
        field_opt_int(j, key, o),
{
}

/// Object `j` has a field named `key`, and every field of that name holds
/// a value that meets `p`.
pub open spec fn field_is(j: JsonValue, key: Seq<char>, p: spec_fn(JsonValue) -> bool) -> bool {
    &&& j is Object
    &&& exists|i: int| 0 <= i < j->Object_0@.len() && #[trigger] j->Object_0@[i].0@ == key
    &&& forall|i: int|
        0 <= i < j->Object_0@.len() && #[trigger] j->Object_0@[i].0@ == key ==> p(j->Object_0@[i].1)
}

/// A field found at a known position, whose name no other field bears.
pub proof fn lemma_field_is_at(j: JsonValue, key: Seq<char>, idx: int, p: spec_fn(JsonValue) -> bool)
    requires
        j is Object,
        0 <= idx < j->Object_0@.len(),
        j->Object_0@[idx].0@ == key,
        p(j->Object_0@[idx].1),
        forall|i: int| 0 <= i < j->Object_0@.len() && i != idx ==> #[trigger] j->Object_0@[i].0@ != key,
    ensures
        field_is(j, key, p),
{
}

pub open spec fn object_len(j: JsonValue) -> int {
    j->Object_0@.len() as int
}

pub fn json_str(s: &str) -> (r: JsonValue)
    ensures
        str_json(r, s@),
{
    JsonValue::Str(owned(s))
}

pub fn json_opt_str(o: &Option<String>) -> (r: JsonValue)
    ensures
        o is None ==> r is Null,
        o matches Some(s) ==> str_json(r, s@),
{
    match o {
        Some(s) => JsonValue::Str(s.clone()),
        None => JsonValue::Null,
    }
}

pub fn json_int(n: i64) -> (r: JsonValue)
    ensures
        int_json(r, n as int),
{
    JsonValue::Number(decimal_i64(n))
}

pub fn json_usize(n: usize) -> (r: JsonValue)
    ensures
        int_json(r, n as int),
{
    JsonValue::Number(decimal_u64(n as u64))
}

pub fn json_u64(n: u64) -> (r: JsonValue)
    ensures
        int_json(r, n as int),
{
    JsonValue::Number(decimal_u64(n))
}

pub fn json_opt_int(o: Option<i64>) -> (r: JsonValue)
    ensures
        opt_int_json(r, o),
{
    match o {
        Some(n) => json_int(n),
        None => JsonValue::Null,
    }
}

pub fn entry(key: &str, value: JsonValue) -> (r: (String, JsonValue))
    ensures
        r.0@ == key@,
        r.1 == value,
{
    (owned(key), value)
}

} // verus!
