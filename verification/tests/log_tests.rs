use threads_cli::cli::attempts::{run as attempts_run, AttemptsSubcommand, ListArgs as AttemptsListArgs};
use threads_cli::cli::log::{run, GetArgs, ListArgs, LogSubcommand};
use threads_cli::cli::{command_name, AttemptsCommand, Command, DoctorCommand, LogCommand};
use threads_cli::cli::doctor::DoctorSubcommand;
use threads_cli::output::JsonValue;
use threads_cli::store::{AttemptRow, PostRow};

fn row(id: i64) -> PostRow {
    PostRow {
        id,
        threads_post_id: format!("thr_{}", id),
        parent_threads_post_id: None,
        post_url: None,
        text: "hello".to_string(),
        topic_tag: Some("demo".to_string()),
        source_url: None,
        source_link_mode: Some("reply".to_string()),
        kind: "post".to_string(),
        published_at: None,
        created_at: "2024-01-01 00:00:00".to_string(),
    }
}

#[test]
fn log_get_requires_an_existing_record() {
    let command = LogCommand { command: LogSubcommand::Get(GetArgs { id: 12 }) };
    let err = run(&command, &vec![]).err().expect("missing record");
    assert_eq!(err.category.as_code(), "VALIDATION_ERROR");
    assert_eq!(err.message, "no local log record found for id=12");
    let out = run(&command, &vec![row(12)]).ok().expect("record");
    assert_eq!(out.human, "Retrieved local post record id=12");
}

#[test]
fn log_list_shows_every_row() {
    let command = LogCommand { command: LogSubcommand::List(ListArgs { limit: 20 }) };
    let out = run(&command, &vec![row(1), row(2)]).ok().expect("list");
    assert_eq!(out.human, "Listed local post records.");
    match &out.data {
        JsonValue::Object(fields) => match &fields[0].1 {
            JsonValue::Array(items) => assert_eq!(items.len(), 2),
            _ => panic!("records array"),
        },
        _ => panic!("object"),
    }
}

#[test]
fn attempts_list_shows_every_row() {
    let command = AttemptsCommand { command: AttemptsSubcommand::List(AttemptsListArgs { limit: 5 }) };
    let rows = vec![AttemptRow {
        id: 1,
        attempt_uuid: "u-1".to_string(),
        kind: "post".to_string(),
        status: "ambiguous".to_string(),
        threads_post_id: None,
        error_code: Some("NETWORK_ERROR".to_string()),
        error_message: Some("request timed out after publish".to_string()),
        created_at: "2024-01-01".to_string(),
    }];
    let out = attempts_run(&command, &rows);
    assert_eq!(out.command, "attempts list");
    assert_eq!(out.human, "Listed publish attempts.");
}

#[test]
fn commands_report_under_their_names() {
    assert_eq!(command_name(&Command::Doctor(DoctorCommand { command: DoctorSubcommand::Check })), "doctor");
    assert_eq!(command_name(&Command::Log(LogCommand { command: LogSubcommand::List(ListArgs { limit: 1 }) })), "log");
}
