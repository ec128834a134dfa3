//! The `sqlx` queue: an append runs the SQL insert of the event in the
//! caller's transaction and announces its id on the notification channel.

use vstd::prelude::*;
use crate::errors::Error;
use crate::ids::{hyphenated, lemma_hyphenated_injective};
use crate::queue::postgres::sql::{INSERT_EVENT_SQL, NOTIFY_CHANNEL, NOTIFY_SQL};
use crate::queue::postgres::execution::{Driver, Execution, ExecutionView};
use crate::queue::postgres::sql::{
    queue_migration, script, setup_statements, ADD_CONSTRAINT_SQL, CREATE_INDEX_SQL, CREATE_TABLE_SQL, DROP_CONSTRAINT_SQL,
};
use crate::queue::postgres::statement::{
    insert_sql_step, insert_statement, notify_statement, notify_step, serialization_failed,
    serialization_failure, values_view, SqlValue, SqlValueView, Step, StepView,
};

verus! {

/// The queue for `sqlx` PostgreSQL connections. It holds no state.
#[derive(Debug, Default, Clone, Copy)]
pub struct SqlxPgOutboxQueue;

/// The steps of an append: the SQL insert of the event, then the
/// notification of its id; or, where the payload could not be serialized,
/// that failure.
pub open spec fn sqlx_append_steps(
    event_id: u128,
    payload: Result<serde_json::Value, String>,
    aggregate_id: u128,
    event_type: Seq<char>,
) -> Seq<StepView> {
    match payload {
        Ok(value) => seq![insert_sql_step(event_id, aggregate_id, event_type, value), notify_step(event_id)],
        Err(message) => seq![serialization_failure(message)],
    }
}

/// The steps of the setup: each setup statement on its own, without
/// parameters, in order (`sqlx` runs one statement at a time).
pub open spec fn sqlx_setup_steps() -> Seq<StepView> {
    setup_statements().map_values(|sql: Seq<char>| StepView::Execute(sql, Seq::empty()))
}

/// A statement that binds no parameter.
fn statement_without_values(sql: &str) -> (step: Step)
    ensures
        step@ == StepView::Execute(sql@, Seq::empty()),
{
    let values: Vec<SqlValue> = Vec::new();
    assert(values_view(values@) =~= Seq::<SqlValueView>::empty());
    Step::Execute(sql.to_owned(), values)
}

/// The SQL text of a step that runs a statement.
pub open spec fn statement_text(step: StepView) -> Seq<char> {
    match step {
        StepView::Execute(sql, _) => sql,
        StepView::Batch(sql) => sql,
        StepView::Prepare(sql) => sql,
        _ => Seq::empty(),
    }
}

/// The `sqlx` setup runs, one at a time and in the same order, exactly the
/// statements that the migration script runs as one batch, so every queue's
/// setup creates the same table, index and check.
pub proof fn law_sqlx_setup_runs_the_migration()
    ensures
        script(sqlx_setup_steps().map_values(|s: StepView| statement_text(s))) == queue_migration(),
{
    assert(sqlx_setup_steps().map_values(|s: StepView| statement_text(s)) =~= setup_statements());
}

/// A sqlx append of a serialized payload first runs the SQL insert whose
/// parameters are, in order, the event id (the row's id), the aggregate id,
/// the event type and the payload; once that succeeds, it announces on
/// `NOTIFY_CHANNEL` the hyphenated form of the event id, the id of the row
/// just inserted, and never the aggregate id when the two differ. Once the
/// announcement succeeds, the append succeeds.
pub proof fn law_sqlx_append_inserts_then_announces_the_event(
    event_id: u128,
    aggregate_id: u128,
    event_type: Seq<char>,
    payload: serde_json::Value,
)
    ensures
        ({
            let run = ExecutionView::start(Driver::Sqlx, sqlx_append_steps(event_id, Ok(payload), aggregate_id, event_type));
            &&& run.pending() == Some(StepView::Execute(INSERT_EVENT_SQL@, seq![SqlValueView::Uuid(event_id), SqlValueView::Uuid(aggregate_id), SqlValueView::Text(event_type), SqlValueView::Json(payload)]))
            &&& run.after(Ok(())).pending() == Some(StepView::Execute(NOTIFY_SQL@, seq![SqlValueView::Text(NOTIFY_CHANNEL@), SqlValueView::Text(hyphenated(event_id))]))
            &&& event_id != aggregate_id ==> run.after(Ok(())).pending() != Some(StepView::Execute(NOTIFY_SQL@, seq![SqlValueView::Text(NOTIFY_CHANNEL@), SqlValueView::Text(hyphenated(aggregate_id))]))
            &&& run.after(Ok(())).after(Ok(())).outcome == Some(Ok::<(), Error>(()))
        }),
{
    if event_id != aggregate_id {
        lemma_hyphenated_injective(event_id, aggregate_id);
    }
}

impl SqlxPgOutboxQueue {
    /// Sets up the `outbox_queue` table, its polling index and its status
    /// check, running the statements of the migration script one by one; each
    /// statement is idempotent.
    ///
    /// Prefer the application's migration tool. The run fails with
    /// `SqlxError` at the first statement that fails.
    pub fn setup_queue(&self) -> (run: Execution)
        ensures
            run@ == ExecutionView::start(Driver::Sqlx, sqlx_setup_steps()),
            run@.driver == Driver::Sqlx,
            run@.steps == seq![
                StepView::Execute(CREATE_TABLE_SQL@, Seq::empty()),
                StepView::Execute(CREATE_INDEX_SQL@, Seq::empty()),
                StepView::Execute(DROP_CONSTRAINT_SQL@, Seq::empty()),
                StepView::Execute(ADD_CONSTRAINT_SQL@, Seq::empty()),
            ],
            run@.next == 0,
            run@.outcome is None,
    {
        let mut steps: Vec<Step> = Vec::new();
        steps.push(statement_without_values(CREATE_TABLE_SQL));
        steps.push(statement_without_values(CREATE_INDEX_SQL));
        steps.push(statement_without_values(DROP_CONSTRAINT_SQL));
        steps.push(statement_without_values(ADD_CONSTRAINT_SQL));
        assert(steps@.map_values(|s: Step| s@) =~= sqlx_setup_steps());
        Execution::new(Driver::Sqlx, steps)
    }

    /// Appends an event within the caller's transaction and notifies
    /// listeners of the notification channel of its id.
    ///
    /// `payload` is the event payload serialized to JSON, or the message of
    /// the serialization error. The run fails with `SerializationError` when
    /// the payload could not be serialized, and with `SqlxError` when the
    /// insert or the notification fails.
    pub fn append(
        &self,
        event_id: u128,
        payload: Result<serde_json::Value, String>,
        aggregate_id: u128,
        event_type: &str,
    ) -> (run: Execution)
        ensures
            run@ == ExecutionView::start(
                Driver::Sqlx,
                sqlx_append_steps(event_id, payload, aggregate_id, event_type@),
            ),
            run@.driver == Driver::Sqlx,
            match payload {
                Ok(v) => {
                    &&& run@.steps == seq![
                    StepView::Execute(INSERT_EVENT_SQL@, seq![SqlValueView::Uuid(event_id), SqlValueView::Uuid(aggregate_id), SqlValueView::Text(event_type@), SqlValueView::Json(v)]),
                    StepView::Execute(NOTIFY_SQL@, seq![SqlValueView::Text(NOTIFY_CHANNEL@), SqlValueView::Text(hyphenated(event_id))]),
                ]
                    &&& run@.next == 0
                    &&& run@.outcome is None
                },
                Err(m) => run@.outcome == Some(Err::<(), Error>(Error::SerializationError(m))),
            },
    {
        let ghost expected = sqlx_append_steps(event_id, payload, aggregate_id, event_type@);
        let mut steps: Vec<Step> = Vec::new();
        match payload {
            Ok(value) => {
                steps.push(insert_statement(event_id, aggregate_id, event_type, value));
                steps.push(notify_statement(event_id));
            },
            Err(message) => steps.push(serialization_failed(message)),
        }
        assert(steps@.map_values(|s: Step| s@) =~= expected);
        Execution::new(Driver::Sqlx, steps)
    }
}

} // verus!
