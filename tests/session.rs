use std::time::Duration;

use dbmiru::error::{
    classify_connection_error, summarize_failure, worker_start_failure, ConnectFailure,
    ConnectionError, ServerError,
};
use dbmiru::protocol::{
    announce, closed_reason, outcome_event, split_command, AdapterCall, DbCommand, DbEvent,
    Pending, Reply,
};
use dbmiru::render::Datum;
use dbmiru::result::{collect_columns, collect_names, convert_rows, query_result, Cell, QueryResult};
use dbmiru::sql::ROW_LIMIT;
use dbmiru::worker::{Worker, WorkerAction, WorkerInput};

fn rows(n: usize) -> Vec<Vec<Cell>> {
    (0..n).map(|i| vec![Ok(Some(Datum::Int8(i as i64)))]).collect()
}

fn empty_result() -> QueryResult {
    query_result(vec!["n".to_string()], &rows(1), ROW_LIMIT, Duration::from_millis(1))
}

#[test]
fn execute_over_limit_is_truncated() {
    let r = query_result(vec!["n".to_string()], &rows(1001), 1000, Duration::from_millis(3));
    assert_eq!(r.row_count, 1001);
    assert_eq!(r.rows.len(), 1000);
    assert!(r.truncated);
    assert_eq!(r.rows[999], vec!["999".to_string()]);
    assert_eq!(r.columns, vec!["n".to_string()]);
    assert_eq!(r.duration, Duration::from_millis(3));
}

#[test]
fn execute_at_limit_is_not_truncated() {
    let r = query_result(vec!["n".to_string()], &rows(1000), 1000, Duration::from_millis(3));
    assert_eq!(r.row_count, 1000);
    assert_eq!(r.rows.len(), 1000);
    assert!(!r.truncated);
}

#[test]
fn empty_result_has_no_rows() {
    let r = query_result(Vec::new(), &Vec::new(), 1000, Duration::ZERO);
    assert_eq!(r.row_count, 0);
    assert!(r.rows.is_empty());
    assert!(!r.truncated);
}

#[test]
fn convert_rows_renders_each_cell() {
    let data: Vec<Vec<Cell>> = vec![
        vec![Ok(Some(Datum::Text("a".to_string()))), Ok(None), Err(())],
        vec![Ok(Some(Datum::Bool(true))), Ok(Some(Datum::Unsupported)), Ok(Some(Datum::Int2(-1)))],
    ];
    let out = convert_rows(&data, 10);
    assert_eq!(out, vec![vec!["a", "NULL", "<err>"], vec!["true", "<unsupported>", "-1"]]);
    assert_eq!(convert_rows(&data, 1).len(), 1);
}

#[test]
fn schema_names_keep_catalog_order_and_skip_failures() {
    let names = vec![Ok("audit".to_string()), Err(()), Ok("public".to_string())];
    assert_eq!(collect_names(&names), vec!["audit".to_string(), "public".to_string()]);
}

#[test]
fn columns_skip_rows_that_fail_to_decode() {
    let rows = vec![
        (Ok("id".to_string()), Ok("integer".to_string())),
        (Ok("broken".to_string()), Err(())),
        (Ok("name".to_string()), Ok("text".to_string())),
    ];
    let cols = collect_columns(&rows);
    assert_eq!(cols.len(), 2);
    assert_eq!(cols[0].name, "id");
    assert_eq!(cols[0].data_type, "integer");
    assert_eq!(cols[1].name, "name");
    assert_eq!(cols[1].data_type, "text");
}

fn transport(detail: &str) -> ConnectFailure {
    ConnectFailure { server: None, detail: detail.to_string() }
}

fn server(code: &str, message: &str) -> ConnectFailure {
    ConnectFailure {
        server: Some(ServerError { code: code.to_string(), message: message.to_string() }),
        detail: format!("db error: FATAL: {message}"),
    }
}

#[test]
fn wrong_password_is_classified() {
    let e = classify_connection_error(server("28P01", "password authentication failed for user \"x\""));
    assert_eq!(e.user_message, "Password authentication failed");
    assert_eq!(e.detail, "db error: FATAL: password authentication failed for user \"x\"");
}

#[test]
fn unknown_user_and_database_are_classified() {
    let e = classify_connection_error(server("28000", "role \"x\" does not exist"));
    assert_eq!(e.user_message, "User does not exist or lacks permission");
    let e = classify_connection_error(server("3D000", "database \"y\" does not exist"));
    assert_eq!(e.user_message, "Database does not exist");
}

#[test]
fn other_server_error_shows_server_message() {
    let e = classify_connection_error(server("53300", "too many connections"));
    assert_eq!(e.user_message, "too many connections");
}

#[test]
fn refused_connection_is_classified_regardless_of_case() {
    let e = classify_connection_error(transport("error connecting to server: Connection Refused (os error 111)"));
    assert!(e.user_message.contains("connection refused"));
    assert_eq!(e.detail, "error connecting to server: Connection Refused (os error 111)");
}

#[test]
fn timeout_and_generic_failures_are_classified() {
    let e = classify_connection_error(transport("TIMEOUT while connecting"));
    assert_eq!(e.user_message, "Connection timed out.");
    let e = classify_connection_error(transport("no route"));
    assert_eq!(e.user_message, "Failed to connect to the database.");
}

#[test]
fn summarize_failure_uses_given_lowercase_text() {
    let e = summarize_failure(transport("whatever"), "connection refused");
    assert_eq!(e.user_message, "Unable to reach the database host (connection refused).");
    assert_eq!(e.detail, "whatever");
}

#[test]
fn worker_start_failure_message() {
    let e = worker_start_failure("no reactor".to_string());
    assert_eq!(e.user_message, "Failed to connect to database worker.");
    assert_eq!(e.detail, "no reactor");
    let e = ConnectionError::new("a".to_string(), "b".to_string());
    assert_eq!((e.user_message.as_str(), e.detail.as_str()), ("a", "b"));
}

fn metadata_message(e: Option<DbEvent<()>>) -> String {
    match e {
        Some(DbEvent::MetadataFailed(m)) => m,
        _ => panic!("expected a metadata failure"),
    }
}

#[test]
fn metadata_failures_name_the_operation() {
    let m = metadata_message(outcome_event(Pending::Schemas, Reply::Failed("boom".into())));
    assert_eq!(m, "Failed to load schemas: boom");
    let m = metadata_message(outcome_event(
        Pending::Tables { schema: "s".into() },
        Reply::Failed("boom".into()),
    ));
    assert_eq!(m, "Failed to load tables: boom");
    let m = metadata_message(outcome_event(
        Pending::Columns { schema: "s".into(), table: "t".into() },
        Reply::Failed("boom".into()),
    ));
    assert_eq!(m, "Failed to load columns: boom");
    let m = metadata_message(outcome_event(
        Pending::Preview { schema: "s".into(), table: "t".into() },
        Reply::Failed("boom".into()),
    ));
    assert_eq!(m, "Failed to preview table: boom");
}

#[test]
fn query_failure_keeps_raw_message() {
    match outcome_event::<()>(Pending::Query, Reply::Failed("syntax error".into())) {
        Some(DbEvent::QueryFailed(m)) => assert_eq!(m, "syntax error"),
        _ => panic!("expected a query failure"),
    }
}

#[test]
fn mismatched_reply_has_no_event() {
    assert!(outcome_event::<()>(Pending::Query, Reply::Names(Vec::new())).is_none());
}

#[test]
fn intentional_disconnect_has_no_reason() {
    assert_eq!(closed_reason(true, Err("connection reset".into())), None);
    assert_eq!(closed_reason(true, Ok(())), None);
}

#[test]
fn unexpected_close_carries_reason() {
    assert_eq!(
        closed_reason(false, Err("connection reset by peer".into())),
        Some("connection reset by peer".to_string())
    );
    assert_eq!(closed_reason(false, Ok(())), None);
}

#[test]
fn announce_reports_connected_only_with_handle() {
    assert!(matches!(announce(Some(7u8)), Some(DbEvent::Connected(7))));
    assert!(announce::<u8>(None).is_none());
}

fn connected_worker() -> Worker {
    let mut w = Worker::new();
    let s = w.step::<()>(WorkerInput::SchedulerStarted);
    assert!(matches!(s.action, WorkerAction::Connect));
    let s = w.step::<()>(WorkerInput::ConnectSucceeded { monitored: true });
    assert!(matches!(s.action, WorkerAction::DeliverHandshake));
    let s = w.step::<()>(WorkerInput::HandshakeDelivered);
    assert!(s.emit.is_none());
    assert!(matches!(s.action, WorkerAction::AwaitCommand { start_monitor: true }));
    w
}

#[test]
fn failed_connect_emits_one_failure_and_exits() {
    let mut w = Worker::new();
    w.step::<()>(WorkerInput::SchedulerStarted);
    let err = ConnectionError::new("Password authentication failed".into(), "d".into());
    let s = w.step::<()>(WorkerInput::ConnectFailed(err));
    assert!(matches!(s.emit, Some(DbEvent::ConnectionFailed(ref e)) if e.user_message == "Password authentication failed"));
    assert!(matches!(s.action, WorkerAction::Exit));
    assert!(w.is_terminated());
    let s = w.step::<()>(WorkerInput::HandshakeDelivered);
    assert!(s.emit.is_none());
}

#[test]
fn scheduler_failure_emits_connection_failed() {
    let mut w = Worker::new();
    let s = w.step::<()>(WorkerInput::SchedulerFailed("io".into()));
    assert!(matches!(s.emit, Some(DbEvent::ConnectionFailed(ref e)) if e.detail == "io"));
    assert!(w.is_terminated());
}

#[test]
fn tables_event_comes_before_columns_event() {
    let mut w = connected_worker();
    let mut events: Vec<DbEvent<()>> = Vec::new();
    let commands = vec![
        DbCommand::FetchTables { schema: "public".into() },
        DbCommand::FetchColumns { schema: "public".into(), table: "orders".into() },
    ];
    let replies = vec![Reply::Names(vec!["orders".into()]), Reply::Columns(Vec::new())];
    for (c, r) in commands.into_iter().zip(replies) {
        let s = w.step::<()>(WorkerInput::CommandReceived(c));
        assert!(matches!(s.action, WorkerAction::Call(_)));
        let s = w.step::<()>(WorkerInput::CallFinished(r));
        events.extend(s.emit);
    }
    assert_eq!(events.len(), 2);
    assert!(matches!(&events[0], DbEvent::TablesLoaded { schema, tables } if schema == "public" && tables == &vec!["orders".to_string()]));
    assert!(matches!(&events[1], DbEvent::ColumnsLoaded { schema, table, .. } if schema == "public" && table == "orders"));
}

#[test]
fn failed_command_is_not_fatal() {
    let mut w = connected_worker();
    w.step::<()>(WorkerInput::CommandReceived(DbCommand::execute("select 1/0".into())));
    let s = w.step::<()>(WorkerInput::CallFinished(Reply::Failed("division by zero".into())));
    assert!(matches!(s.emit, Some(DbEvent::QueryFailed(_))));
    let s = w.step::<()>(WorkerInput::CommandReceived(DbCommand::FetchSchemas));
    assert!(matches!(s.action, WorkerAction::Call(AdapterCall::FetchSchemas)));
    let s = w.step::<()>(WorkerInput::CallFinished(Reply::Rows(empty_result())));
    assert!(s.emit.is_none());
    let s = w.step::<()>(WorkerInput::CallFinished(Reply::Names(vec!["audit".into(), "public".into()])));
    assert!(matches!(s.emit, Some(DbEvent::SchemasLoaded(ref n)) if n == &vec!["audit".to_string(), "public".to_string()]));
}

#[test]
fn execute_command_uses_row_limit() {
    assert!(matches!(DbCommand::execute("select 1".into()), DbCommand::Execute { limit: 1000, .. }));
}

#[test]
fn disconnect_stops_command_processing() {
    let mut w = connected_worker();
    let s = w.step::<()>(WorkerInput::CommandReceived(DbCommand::Disconnect));
    assert!(matches!(s.action, WorkerAction::Disconnect));
    let s = w.step::<()>(WorkerInput::CommandReceived(DbCommand::FetchSchemas));
    assert!(s.emit.is_none());
    assert!(matches!(s.action, WorkerAction::Disconnect));
    let s = w.step::<()>(WorkerInput::DisconnectFinished);
    assert!(matches!(s.action, WorkerAction::Exit));
    assert!(w.is_terminated());
    let s = w.step::<()>(WorkerInput::CommandReceived(DbCommand::FetchSchemas));
    assert!(s.emit.is_none());
    assert!(matches!(s.action, WorkerAction::Exit));
}

#[test]
fn closed_queue_tears_down() {
    let mut w = connected_worker();
    let s = w.step::<()>(WorkerInput::QueueClosed);
    assert!(matches!(s.action, WorkerAction::Disconnect));
}

#[test]
fn rejected_handshake_disconnects_without_event() {
    let mut w = Worker::new();
    w.step::<()>(WorkerInput::SchedulerStarted);
    w.step::<()>(WorkerInput::ConnectSucceeded { monitored: false });
    let s = w.step::<()>(WorkerInput::HandshakeRejected);
    assert!(s.emit.is_none());
    assert!(matches!(s.action, WorkerAction::Disconnect));
}

#[test]
fn split_command_keeps_names_for_the_answer() {
    match split_command(DbCommand::PreviewTable { schema: "s".into(), table: "t".into(), limit: 5 }) {
        Some((AdapterCall::PreviewTable { schema, table, limit }, Pending::Preview { schema: ps, table: pt })) => {
            assert_eq!((schema.as_str(), table.as_str(), limit), ("s", "t", 5));
            assert_eq!((ps.as_str(), pt.as_str()), ("s", "t"));
        }
        _ => panic!("expected a preview call"),
    }
    assert!(split_command(DbCommand::Disconnect).is_none());
}
