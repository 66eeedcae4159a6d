//! `attempts list`: the recorded publish attempts.
use vstd::prelude::*;

use crate::output::{
    entry, field_text, lemma_field_text_at, field_value, has_key, int_json, json_int, json_opt_str, json_str, object_len,
    opt_json, str_json, CommandOutput, JsonValue,
};
use crate::store::statements::{opt_view, params_view, SqlParam, Statement, LIST_ATTEMPTS_SQL};
use crate::store::{AttemptRow, Store};
use crate::text::owned;

verus! {

pub enum AttemptsSubcommand {
    List(ListArgs),
}

pub struct ListArgs {
    pub limit: usize,
}

/// An attempt as data.
pub open spec fn attempt_data_ok(j: JsonValue, row: AttemptRow) -> bool {
    &&& object_len(j) == 8
    &&& has_key(j, 0, "attempt_uuid"@) && str_json(field_value(j, 0), row.attempt_uuid@)
    &&& has_key(j, 1, "created_at"@) && str_json(field_value(j, 1), row.created_at@)
    &&& has_key(j, 2, "error_code"@) && opt_json(field_value(j, 2), opt_view(row.error_code))
    &&& has_key(j, 3, "error_message"@) && opt_json(field_value(j, 3), opt_view(row.error_message))
    &&& has_key(j, 4, "id"@) && int_json(field_value(j, 4), row.id as int)
    &&& has_key(j, 5, "kind"@) && str_json(field_value(j, 5), row.kind@)
    &&& has_key(j, 6, "status"@) && str_json(field_value(j, 6), row.status@)
    &&& has_key(j, 7, "threads_post_id"@) && opt_json(field_value(j, 7), opt_view(row.threads_post_id))
}

/// An attempt record carries, under each name, its row's column of that
/// name: in particular its status under "status" and its kind under "kind",
/// so that attempts of one kind and different outcomes stay apart.
pub proof fn law_attempt_record_fields(j: JsonValue, row: AttemptRow)
    requires
        attempt_data_ok(j, row),
    ensures
        field_text(j, "status"@, row.status@),
        field_text(j, "kind"@, row.kind@),
        field_text(j, "attempt_uuid"@, row.attempt_uuid@),
        field_text(j, "created_at"@, row.created_at@),
{
    reveal_strlit("attempt_uuid");
    reveal_strlit("created_at");
    reveal_strlit("error_code");
    reveal_strlit("error_message");
    reveal_strlit("id");
    reveal_strlit("kind");
    reveal_strlit("status");
    reveal_strlit("threads_post_id");
    let f = j->Object_0@;
    let names = seq![
        "attempt_uuid"@,
        "created_at"@,
        "error_code"@,
        "error_message"@,
        "id"@,
        "kind"@,
        "status"@,
        "threads_post_id"@,
    ];
    assert forall|i: int| 0 <= i < 8 implies #[trigger] f[i].0@ == names[i] by {
        if i == 0 {} else if i == 1 {} else if i == 2 {} else if i == 3 {} else if i == 4 {}
        else if i == 5 {} else if i == 6 {} else {}
    }
    assert forall|i: int, k: int| 0 <= i < 8 && 0 <= k < 8 && i != k implies names[i] != names[k] by {
        if names[i] == names[k] {
            assert(names[i].len() == names[k].len());
            assert(names[i][0] == names[k][0]);
            assert(names[i][1] == names[k][1]);
        }
    }
    lemma_field_text_at(j, "attempt_uuid"@, 0, row.attempt_uuid@);
    lemma_field_text_at(j, "created_at"@, 1, row.created_at@);
    lemma_field_text_at(j, "kind"@, 5, row.kind@);
    lemma_field_text_at(j, "status"@, 6, row.status@);
}

fn attempt_data(row: &AttemptRow) -> (j: JsonValue)
    ensures
        attempt_data_ok(j, *row),
        field_text(j, "status"@, row.status@),
        field_text(j, "kind"@, row.kind@),
{
    let mut v: Vec<(String, JsonValue)> = Vec::new();
    v.push(entry("attempt_uuid", json_str(row.attempt_uuid.as_str())));
    v.push(entry("created_at", json_str(row.created_at.as_str())));
    v.push(entry("error_code", json_opt_str(&row.error_code)));
    v.push(entry("error_message", json_opt_str(&row.error_message)));
    v.push(entry("id", json_int(row.id)));
    v.push(entry("kind", json_str(row.kind.as_str())));
    v.push(entry("status", json_str(row.status.as_str())));
    v.push(entry("threads_post_id", json_opt_str(&row.threads_post_id)));
    let j = JsonValue::Object(v);
    proof {
        law_attempt_record_fields(j, *row);
    }
    j
}

/// The query the listing reads its rows with.
pub fn query(command: &crate::cli::AttemptsCommand, store: &Store) -> (r: Statement)
    ensures
        command.command matches AttemptsSubcommand::List(a) ==> r.sql@ == LIST_ATTEMPTS_SQL@
            && params_view(r.params@) == seq![SqlParam::Integer((a.limit as i64) as int)],
{
    match &command.command {
        AttemptsSubcommand::List(args) => store.list_attempts(args.limit),
    }
}

/// The listing of the attempts that the query returned, in order.
pub fn run(command: &crate::cli::AttemptsCommand, rows: &Vec<AttemptRow>) -> (r: CommandOutput)
    ensures
        r.command@ == "attempts list"@,
        r.human@ == "Listed publish attempts."@,
        object_len(r.data) == 1,
        has_key(r.data, 0, "attempts"@),
        field_value(r.data, 0) is Array,
        field_value(r.data, 0)->Array_0@.len() == rows@.len(),
        forall|i: int|
            0 <= i < rows@.len() ==> attempt_data_ok(#[trigger] field_value(r.data, 0)->Array_0@[i], rows@[i]),
        forall|i: int|
            0 <= i < rows@.len() ==> field_text(#[trigger] field_value(r.data, 0)->Array_0@[i], "status"@, rows@[i].status@)
                && field_text(field_value(r.data, 0)->Array_0@[i], "kind"@, rows@[i].kind@),
{
    match &command.command {
        AttemptsSubcommand::List(_) => {},
    }
    let mut items: Vec<JsonValue> = Vec::new();
    let mut i: usize = 0;
    while i < rows.len()
        invariant
            i <= rows.len(),
            items@.len() == i,
            forall|k: int| 0 <= k < i ==> attempt_data_ok(#[trigger] items@[k], rows@[k]),
            forall|k: int|
                0 <= k < i ==> field_text(#[trigger] items@[k], "status"@, rows@[k].status@) && field_text(
                    items@[k],
                    "kind"@,
                    rows@[k].kind@,
                ),
        decreases rows.len() - i,
    {
        items.push(attempt_data(&rows[i]));
        i = i + 1;
    }
    let mut v: Vec<(String, JsonValue)> = Vec::new();
    v.push(entry("attempts", JsonValue::Array(items)));
    CommandOutput {
        command: owned("attempts list"),
        human: owned("Listed publish attempts."),
        data: JsonValue::Object(v),
    }
}

} // verus!
