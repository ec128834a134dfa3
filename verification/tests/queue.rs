use routbox::queue::postgres::sql::{
    ADD_CONSTRAINT_SQL, CREATE_INDEX_SQL, CREATE_TABLE_SQL, DROP_CONSTRAINT_SQL, INSERT_EVENT_SQL,
    NOTIFY_SQL,
};
use routbox::queue::postgres::rust_postgres::INSERT_QUERY;
use routbox::queue::postgres::{create_queue_migration, SqlValue, NOTIFY_CHANNEL};
use routbox::{
    Driver, Error, Execution, PgDieselAsyncOutboxQueue, PgDieselOutboxQueue, PgOutboxQueue,
    PgTokioOutboxQueue, SqlxPgOutboxQueue, Step,
};
use serde_json::Value;
use uuid::Uuid;

/// Runs `run` as a driver would, reporting `results` in turn for the steps it
/// hands out. Returns how many steps were handed out and the outcome.
fn drive(mut run: Execution, results: Vec<Result<(), String>>) -> (usize, Option<Result<(), Error>>) {
    let mut results = results.into_iter();
    let mut performed = 0;
    while run.next_step().is_some() {
        match results.next() {
            Some(result) => {
                performed += 1;
                run.record(result);
            }
            None => break,
        }
    }
    (performed, run.into_outcome())
}

fn json(text: &str) -> Value {
    serde_json::from_str(text).unwrap()
}

fn text_value(value: &SqlValue) -> &str {
    match value {
        SqlValue::Text(s) => s.as_str(),
        other => panic!("expected a text value, found {:?}", other),
    }
}

#[test]
fn test_setup_queue_is_idempotent_blocking() {
    let queue = PgDieselOutboxQueue;

    let first = queue.setup_queue();
    match first.next_step() {
        Some(Step::Batch(script)) => assert_eq!(*script, create_queue_migration()),
        other => panic!("First setup failed: {:?}", other),
    }
    let setup_result1 = drive(first, vec![Ok(())]).1;
    assert_eq!(setup_result1, Some(Ok(())), "First setup failed: {:?}", setup_result1);

    let second = queue.setup_queue();
    let setup_result2 = drive(second, vec![Ok(())]).1;
    assert_eq!(setup_result2, Some(Ok(())), "Second setup failed unexpectedly: {:?}", setup_result2);

    let migration = create_queue_migration();
    assert!(migration.contains("CREATE TABLE IF NOT EXISTS outbox_queue"), "Table check failed after setup: {:?}", migration);
}

#[test]
fn test_append_event_success_blocking() {
    let queue = PgDieselOutboxQueue;
    let event_id = Uuid::now_v7();
    let aggregate_id = Uuid::now_v7();
    let event_type = "BlockingEvent";
    let payload = json(r#"{ "source": "blocking", "value": 42 }"#);

    let run = queue.append(event_id.as_u128(), Ok(payload.clone()), aggregate_id.as_u128(), event_type);
    assert_eq!(run.driver(), Driver::Diesel);
    match run.next_step() {
        Some(Step::Insert(row)) => {
            assert_eq!(row.id, event_id.as_u128());
            assert_eq!(row.aggregate_id, aggregate_id.as_u128());
            assert_eq!(row.event_type, event_type);
            assert_eq!(row.payload, payload);
            assert_eq!(row.payload["value"], 42);
        }
        other => panic!("Expected 1 event, found {:?}", other),
    }
    let (performed, outcome) = drive(run, vec![Ok(())]);
    assert_eq!(performed, 1, "Expected 1 event, found {}", performed);
    assert_eq!(outcome, Some(Ok(())));

    // The insert names only id, aggregate_id, event_type and payload; the
    // table's defaults give the rest of the row.
    let migration = create_queue_migration();
    assert!(migration.contains("status              text NOT NULL DEFAULT 'PENDING'"));
    assert!(migration.contains("processing_attempts integer NOT NULL DEFAULT 0"));
    assert!(migration.contains("last_error          text NULL"));
    assert!(
        migration.contains("created_at          timestamptz NOT NULL DEFAULT NOW()")
            && migration.contains("updated_at          timestamptz NOT NULL DEFAULT NOW()"),
        "created_at should be equal to updated_at on initial insert"
    );
}

#[test]
fn blocking_append_reports_insert_failure_as_diesel_error() {
    let queue = PgDieselOutboxQueue;
    let run = queue.append(1, Ok(json("{}")), 2, "E");
    let (performed, outcome) = drive(run, vec![Err("duplicate key".to_string())]);
    assert_eq!(performed, 1);
    assert_eq!(outcome, Some(Err(Error::DieselError("duplicate key".to_string()))));
}

#[test]
fn append_with_unserializable_payload_fails_without_driver_work() {
    let message = "key must be a string".to_string();
    let runs = vec![
        PgDieselOutboxQueue.append(1, Err(message.clone()), 2, "E"),
        PgDieselAsyncOutboxQueue.append(1, Err(message.clone()), 2, "E"),
        PgTokioOutboxQueue.append(1, Err(message.clone()), 2, "E"),
        SqlxPgOutboxQueue.append(1, Err(message.clone()), 2, "E"),
    ];
    for run in runs {
        assert!(run.is_finished());
        assert!(run.next_step().is_none());
        assert_eq!(run.into_outcome(), Some(Err(Error::SerializationError(message.clone()))));
    }
}

#[test]
fn diesel_async_append_inserts_then_notifies_the_event_id() {
    let event_id = Uuid::now_v7();
    let payload = json(r#"{"data": "sample_value", "count": 123}"#);
    let mut run = PgDieselAsyncOutboxQueue.append(event_id.as_u128(), Ok(payload.clone()), 9, "TestEventOccurred");
    assert_eq!(run.driver(), Driver::Diesel);
    match run.next_step() {
        Some(Step::Insert(row)) => {
            assert_eq!(row.id, event_id.as_u128());
            assert_eq!(row.aggregate_id, 9);
            assert_eq!(row.event_type, "TestEventOccurred");
            assert_eq!(row.payload, payload);
        }
        other => panic!("expected the insert, found {:?}", other),
    }
    run.record(Ok(()));
    match run.next_step() {
        Some(Step::Execute(sql, values)) => {
            assert_eq!(sql, NOTIFY_SQL);
            assert_eq!(values.len(), 2);
            assert_eq!(text_value(&values[0]), NOTIFY_CHANNEL);
            assert_eq!(text_value(&values[1]), event_id.to_string());
        }
        other => panic!("expected the notification, found {:?}", other),
    }
    run.record(Ok(()));
    assert_eq!(run.into_outcome(), Some(Ok(())));
}

#[test]
fn diesel_async_notify_failure_is_a_diesel_error() {
    let run = PgDieselAsyncOutboxQueue.append(3, Ok(json("null")), 4, "E");
    let (performed, outcome) = drive(run, vec![Ok(()), Err("notify failed".to_string()), Ok(())]);
    assert_eq!(performed, 2);
    assert_eq!(outcome, Some(Err(Error::DieselError("notify failed".to_string()))));
}

#[test]
fn tokio_append_binds_the_event_in_column_order() {
    let event_id = Uuid::now_v7();
    let aggregate_id = Uuid::now_v7();
    let payload = json(r#"{"source": "tokio-pg-jiff-ts", "value": 102}"#);
    let run = PgTokioOutboxQueue.append(event_id.as_u128(), Ok(payload.clone()), aggregate_id.as_u128(), "TokioJiffTimestampEvent");
    assert_eq!(run.driver(), Driver::TokioPostgres);
    match run.next_step() {
        Some(Step::Execute(sql, values)) => {
            assert_eq!(sql, INSERT_EVENT_SQL);
            assert_eq!(values.len(), 4);
            assert!(matches!(values[0], SqlValue::Uuid(id) if id == event_id.as_u128()));
            assert!(matches!(values[1], SqlValue::Uuid(id) if id == aggregate_id.as_u128()));
            assert_eq!(text_value(&values[2]), "TokioJiffTimestampEvent");
            assert!(matches!(&values[3], SqlValue::Json(v) if *v == payload));
        }
        other => panic!("expected the insert, found {:?}", other),
    }
    let (performed, outcome) = drive(run, vec![Ok(()), Ok(())]);
    assert_eq!(performed, 1);
    assert_eq!(outcome, Some(Ok(())));
}

#[test]
fn tokio_failures_are_tokio_postgres_errors() {
    let run = PgTokioOutboxQueue.append(1, Ok(json("1")), 2, "E");
    assert_eq!(drive(run, vec![Err("closed".to_string())]).1, Some(Err(Error::TokioPostgresError("closed".to_string()))));
    let setup = PgTokioOutboxQueue.setup_queue();
    assert!(matches!(setup.next_step(), Some(Step::Batch(script)) if *script == create_queue_migration()));
    assert_eq!(drive(setup, vec![Err("denied".to_string())]).1, Some(Err(Error::TokioPostgresError("denied".to_string()))));
}

#[test]
fn sqlx_append_inserts_and_notifies() {
    let event_id = Uuid::now_v7();
    let payload = json(r#"{"trigger": "notify-commit"}"#);
    let mut run = SqlxPgOutboxQueue.append(event_id.as_u128(), Ok(payload), 77, "EventToNotifySqlxCommit");
    assert_eq!(run.driver(), Driver::Sqlx);
    assert!(matches!(run.next_step(), Some(Step::Execute(sql, values)) if sql == INSERT_EVENT_SQL && values.len() == 4));
    run.record(Ok(()));
    match run.next_step() {
        Some(Step::Execute(sql, values)) => {
            assert_eq!(sql, NOTIFY_SQL);
            assert_eq!(text_value(&values[0]), NOTIFY_CHANNEL, "Notification channel mismatch");
            assert_eq!(text_value(&values[1]), event_id.to_string(), "Notification payload mismatch");
        }
        other => panic!("Listener did not receive a notification within timeout: {:?}", other),
    }
    run.record(Ok(()));
    assert_eq!(run.into_outcome(), Some(Ok(())));
}

#[test]
fn sqlx_setup_runs_the_four_statements_in_order_and_stops_at_a_failure() {
    let mut run = SqlxPgOutboxQueue.setup_queue();
    let expected = [CREATE_TABLE_SQL, CREATE_INDEX_SQL, DROP_CONSTRAINT_SQL, ADD_CONSTRAINT_SQL];
    for sql in expected {
        match run.next_step() {
            Some(Step::Execute(s, values)) => {
                assert_eq!(s, sql);
                assert!(values.is_empty());
            }
            other => panic!("expected {:?}, found {:?}", sql, other),
        }
        run.record(Ok(()));
    }
    assert_eq!(run.into_outcome(), Some(Ok(())));

    let failing = SqlxPgOutboxQueue.setup_queue();
    let (performed, outcome) = drive(failing, vec![Ok(()), Ok(()), Err("lock timeout".to_string()), Ok(())]);
    assert_eq!(performed, 3);
    assert_eq!(outcome, Some(Err(Error::SqlxError("lock timeout".to_string()))));
}

#[test]
fn prepared_append_prepares_before_serializing() {
    let run = PgOutboxQueue.append(1, Err("bad payload".to_string()), 2, "E");
    assert!(matches!(run.next_step(), Some(Step::Prepare(sql)) if sql == INSERT_QUERY));
    assert_eq!(drive(run, vec![Err("syntax error".to_string())]).1, Some(Err(Error::TokioPostgresError("syntax error".to_string()))));

    let run = PgOutboxQueue.append(1, Err("bad payload".to_string()), 2, "E");
    assert_eq!(drive(run, vec![Ok(())]), (1, Some(Err(Error::SerializationError("bad payload".to_string())))));

    let mut run = PgOutboxQueue.append(5, Ok(json("true")), 6, "Named");
    run.record(Ok(()));
    match run.next_step() {
        Some(Step::ExecutePrepared(values)) => {
            assert!(matches!(values[0], SqlValue::Uuid(5)));
            assert!(matches!(values[1], SqlValue::Uuid(6)));
            assert!(matches!(&values[2], SqlValue::Json(Value::Bool(true))));
            assert_eq!(text_value(&values[3]), "Named");
        }
        other => panic!("expected the prepared insert, found {:?}", other),
    }
    run.record(Ok(()));
    assert_eq!(run.into_outcome(), Some(Ok(())));
}

#[test]
fn finished_runs_ignore_further_results() {
    let mut run = PgDieselOutboxQueue.append(1, Ok(json("0")), 2, "E");
    run.record(Err("first".to_string()));
    run.record(Ok(()));
    run.record(Err("second".to_string()));
    assert!(run.next_step().is_none());
    assert_eq!(run.into_outcome(), Some(Err(Error::DieselError("first".to_string()))));
}

#[test]
fn a_run_without_steps_succeeds_at_once_and_fail_steps_end_it() {
    let empty = Execution::new(Driver::Sqlx, Vec::new());
    assert!(empty.is_finished());
    assert_eq!(empty.into_outcome(), Some(Ok(())));

    let mut run = Execution::new(Driver::Diesel, vec![Step::Batch("SELECT 1".to_string()), Step::Fail(Error::AppendError), Step::Batch("SELECT 2".to_string())]);
    assert!(!run.is_finished());
    run.record(Ok(()));
    assert!(run.next_step().is_none());
    assert_eq!(run.into_outcome(), Some(Err(Error::AppendError)));
}

#[test]
fn migration_is_the_setup_statements_each_ended() {
    let expected = format!(
        "{};\n{};\n{};\n{};\n",
        CREATE_TABLE_SQL, CREATE_INDEX_SQL, DROP_CONSTRAINT_SQL, ADD_CONSTRAINT_SQL
    );
    assert_eq!(create_queue_migration(), expected);
    assert!(create_queue_migration().contains("status              text NOT NULL DEFAULT 'PENDING'"));
    assert!(create_queue_migration().contains("idx_outbox_queue_polling ON outbox_queue (status, updated_at)"));
    assert_eq!(NOTIFY_CHANNEL, "routbox_notify");
}
