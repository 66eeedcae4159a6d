//! `log list` and `log get`: the local records of published posts.
use vstd::prelude::*;

use crate::error::{CliError, ErrorCategory};
use crate::output::{
    entry, field_is, field_value, lemma_field_is_at, has_key, int_json, json_int, json_opt_str, json_str, object_len, opt_json,
    str_json, CommandOutput, JsonValue,
};
use crate::store::statements::{opt_view, params_view, SqlParam, Statement, LIST_POSTS_SQL, POST_BY_LOCAL_ID_SQL};
use crate::store::{PostRow, Store};
use crate::text::{dec_int, owned, push_decimal_i64, push_str};

verus! {

pub enum LogSubcommand {
    List(ListArgs),
    Get(GetArgs),
}

pub struct ListArgs {
    pub limit: usize,
}

pub struct GetArgs {
    pub id: i64,
}

/// A local record as data: every column of the row, the local id as
/// `local_id`.
pub open spec fn log_record_ok(j: JsonValue, row: PostRow) -> bool {
    &&& object_len(j) == 11
    &&& has_key(j, 0, "created_at"@) && str_json(field_value(j, 0), row.created_at@)
    &&& has_key(j, 1, "kind"@) && str_json(field_value(j, 1), row.kind@)
    &&& has_key(j, 2, "local_id"@) && int_json(field_value(j, 2), row.id as int)
    &&& has_key(j, 3, "parent_threads_post_id"@) && opt_json(
        field_value(j, 3),
        opt_view(row.parent_threads_post_id),
    )
    &&& has_key(j, 4, "post_url"@) && opt_json(field_value(j, 4), opt_view(row.post_url))
    &&& has_key(j, 5, "published_at"@) && opt_json(field_value(j, 5), opt_view(row.published_at))
    &&& has_key(j, 6, "source_link_mode"@) && opt_json(
        field_value(j, 6),
        opt_view(row.source_link_mode),
    )
    &&& has_key(j, 7, "source_url"@) && opt_json(field_value(j, 7), opt_view(row.source_url))
    &&& has_key(j, 8, "text"@) && str_json(field_value(j, 8), row.text@)
    &&& has_key(j, 9, "threads_post_id"@) && str_json(field_value(j, 9), row.threads_post_id@)
    &&& has_key(j, 10, "topic_tag"@) && opt_json(field_value(j, 10), opt_view(row.topic_tag))
}

/// A local record carries each column of its row under the column's own
/// name (the local id under `local_id`).
pub proof fn law_log_record_fields(j: JsonValue, row: PostRow)
    requires
        log_record_ok(j, row),
    ensures
        field_is(j, "created_at"@, |v: JsonValue| str_json(v, row.created_at@)),
        field_is(j, "kind"@, |v: JsonValue| str_json(v, row.kind@)),
        field_is(j, "local_id"@, |v: JsonValue| int_json(v, row.id as int)),
        field_is(j, "parent_threads_post_id"@, |v: JsonValue| opt_json(v, opt_view(row.parent_threads_post_id))),
        field_is(j, "post_url"@, |v: JsonValue| opt_json(v, opt_view(row.post_url))),
        field_is(j, "published_at"@, |v: JsonValue| opt_json(v, opt_view(row.published_at))),
        field_is(j, "source_link_mode"@, |v: JsonValue| opt_json(v, opt_view(row.source_link_mode))),
        field_is(j, "source_url"@, |v: JsonValue| opt_json(v, opt_view(row.source_url))),
        field_is(j, "text"@, |v: JsonValue| str_json(v, row.text@)),
        field_is(j, "threads_post_id"@, |v: JsonValue| str_json(v, row.threads_post_id@)),
        field_is(j, "topic_tag"@, |v: JsonValue| opt_json(v, opt_view(row.topic_tag))),
{
    reveal_strlit("created_at");
    reveal_strlit("kind");
    reveal_strlit("local_id");
    reveal_strlit("parent_threads_post_id");
    reveal_strlit("post_url");
    reveal_strlit("published_at");
    reveal_strlit("source_link_mode");
    reveal_strlit("source_url");
    reveal_strlit("text");
    reveal_strlit("threads_post_id");
    reveal_strlit("topic_tag");
    let f = j->Object_0@;
    let names = seq![
        "created_at"@,
        "kind"@,
        "local_id"@,
        "parent_threads_post_id"@,
        "post_url"@,
        "published_at"@,
        "source_link_mode"@,
        "source_url"@,
        "text"@,
        "threads_post_id"@,
        "topic_tag"@,
    ];
    assert forall|i: int| 0 <= i < 11 implies #[trigger] f[i].0@ == names[i] by {
        if i == 0 {} else if i == 1 {} else if i == 2 {} else if i == 3 {} else if i == 4 {} else if i == 5 {} else if i == 6 {} else if i == 7 {} else if i == 8 {} else if i == 9 {} else {}
    }
    assert forall|i: int, k: int| 0 <= i < 11 && 0 <= k < 11 && i != k implies names[i] != names[k] by {
        if names[i] == names[k] {
            assert(names[i].len() == names[k].len());
            assert(names[i][0] == names[k][0]);
            assert(names[i][1] == names[k][1]);
        }
    }
    lemma_field_is_at(j, "created_at"@, 0, |v: JsonValue| str_json(v, row.created_at@));
    lemma_field_is_at(j, "kind"@, 1, |v: JsonValue| str_json(v, row.kind@));
    lemma_field_is_at(j, "local_id"@, 2, |v: JsonValue| int_json(v, row.id as int));
    lemma_field_is_at(j, "parent_threads_post_id"@, 3, |v: JsonValue| opt_json(v, opt_view(row.parent_threads_post_id)));
    lemma_field_is_at(j, "post_url"@, 4, |v: JsonValue| opt_json(v, opt_view(row.post_url)));
    lemma_field_is_at(j, "published_at"@, 5, |v: JsonValue| opt_json(v, opt_view(row.published_at)));
    lemma_field_is_at(j, "source_link_mode"@, 6, |v: JsonValue| opt_json(v, opt_view(row.source_link_mode)));
    lemma_field_is_at(j, "source_url"@, 7, |v: JsonValue| opt_json(v, opt_view(row.source_url)));
    lemma_field_is_at(j, "text"@, 8, |v: JsonValue| str_json(v, row.text@));
    lemma_field_is_at(j, "threads_post_id"@, 9, |v: JsonValue| str_json(v, row.threads_post_id@));
    lemma_field_is_at(j, "topic_tag"@, 10, |v: JsonValue| opt_json(v, opt_view(row.topic_tag)));
}

pub fn to_log_record(row: &PostRow) -> (j: JsonValue)
    ensures
        log_record_ok(j, *row),
        field_is(j, "kind"@, |v: JsonValue| str_json(v, row.kind@)),
        field_is(j, "text"@, |v: JsonValue| str_json(v, row.text@)),
        field_is(j, "threads_post_id"@, |v: JsonValue| str_json(v, row.threads_post_id@)),
        field_is(j, "local_id"@, |v: JsonValue| int_json(v, row.id as int)),
{
    let mut v: Vec<(String, JsonValue)> = Vec::new();
    v.push(entry("created_at", json_str(row.created_at.as_str())));
    v.push(entry("kind", json_str(row.kind.as_str())));
    v.push(entry("local_id", json_int(row.id)));
    v.push(entry("parent_threads_post_id", json_opt_str(&row.parent_threads_post_id)));
    v.push(entry("post_url", json_opt_str(&row.post_url)));
    v.push(entry("published_at", json_opt_str(&row.published_at)));
    v.push(entry("source_link_mode", json_opt_str(&row.source_link_mode)));
    v.push(entry("source_url", json_opt_str(&row.source_url)));
    v.push(entry("text", json_str(row.text.as_str())));
    v.push(entry("threads_post_id", json_str(row.threads_post_id.as_str())));
    v.push(entry("topic_tag", json_opt_str(&row.topic_tag)));
    let j = JsonValue::Object(v);
    proof {
        law_log_record_fields(j, *row);
    }
    j
}

/// The query a log command reads its rows with.
pub fn query(command: &crate::cli::LogCommand, store: &Store) -> (r: Statement)
    ensures
        command.command matches LogSubcommand::List(a) ==> r.sql@ == LIST_POSTS_SQL@ && params_view(
            r.params@,
        ) == seq![SqlParam::Integer((a.limit as i64) as int)],
        command.command matches LogSubcommand::Get(a) ==> r.sql@ == POST_BY_LOCAL_ID_SQL@
            && params_view(r.params@) == seq![SqlParam::Integer(a.id as int)],
{
    match &command.command {
        LogSubcommand::List(args) => store.list_posts(args.limit),
        LogSubcommand::Get(args) => store.get_post_by_local_id(args.id),
    }
}

/// A log command over the rows its query returned: a listing of them, or the
/// record asked for, which must exist.
pub fn run(command: &crate::cli::LogCommand, rows: &Vec<PostRow>) -> (r: Result<CommandOutput, CliError>)
    ensures
        command.command is List ==> (r matches Ok(o) && o.command@ == "log list"@ && o.human@
            == "Listed local post records."@ && object_len(o.data) == 1 && has_key(
            o.data,
            0,
            "records"@,
        ) && field_value(o.data, 0) is Array && field_value(o.data, 0)->Array_0@.len()
            == rows@.len() && forall|i: int|
            0 <= i < rows@.len() ==> log_record_ok(
                #[trigger] field_value(o.data, 0)->Array_0@[i],
                rows@[i],
            )),
        command.command matches LogSubcommand::Get(a) ==> {
            &&& r is Err <==> rows@.len() == 0
            &&& r matches Err(e) ==> e.category == ErrorCategory::Validation && e.message@
                == "no local log record found for id="@ + dec_int(a.id as int)
            &&& r matches Ok(o) ==> o.command@ == "log get"@ && o.human@
                == "Retrieved local post record id="@ + dec_int(a.id as int) && object_len(o.data)
                == 1 && has_key(o.data, 0, "record"@) && log_record_ok(field_value(o.data, 0), rows@[0])
        },
{
    match &command.command {
        LogSubcommand::List(_) => {
            let mut records: Vec<JsonValue> = Vec::new();
            let mut i: usize = 0;
            while i < rows.len()
                invariant
                    i <= rows.len(),
                    records@.len() == i,
                    forall|k: int| 0 <= k < i ==> log_record_ok(#[trigger] records@[k], rows@[k]),
                decreases rows.len() - i,
            {
                records.push(to_log_record(&rows[i]));
                i = i + 1;
            }
            let mut v: Vec<(String, JsonValue)> = Vec::new();
            v.push(entry("records", JsonValue::Array(records)));
            Ok(
                CommandOutput {
                    command: owned("log list"),
                    human: owned("Listed local post records."),
                    data: JsonValue::Object(v),
                },
            )
        },
        LogSubcommand::Get(args) => {
            if rows.len() == 0 {
                let mut m = owned("no local log record found for id=");
                push_decimal_i64(&mut m, args.id);
                return Err(CliError { category: ErrorCategory::Validation, message: m });
            }
            let mut human = owned("Retrieved local post record id=");
            push_decimal_i64(&mut human, args.id);
            let mut v: Vec<(String, JsonValue)> = Vec::new();
            v.push(entry("record", to_log_record(&rows[0])));
            Ok(CommandOutput { command: owned("log get"), human, data: JsonValue::Object(v) })
        },
    }
}

} // verus!
