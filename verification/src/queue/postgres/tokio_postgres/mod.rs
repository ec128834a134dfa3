//! The `tokio-postgres` queue: an append runs the SQL insert of the event in
//! the caller's transaction.

use vstd::prelude::*;
use crate::errors::Error;
use crate::queue::postgres::sql::INSERT_EVENT_SQL;
use crate::queue::postgres::statement::SqlValueView;
use crate::queue::postgres::execution::{Driver, Execution, ExecutionView};
use crate::queue::postgres::sql::{
    create_queue_migration, queue_migration, ADD_CONSTRAINT_SQL, CREATE_INDEX_SQL, CREATE_TABLE_SQL,
    DROP_CONSTRAINT_SQL, STATEMENT_END,
};
use crate::queue::postgres::statement::{
    insert_sql_step, insert_statement, serialization_failed, serialization_failure, Step, StepView,
};

verus! {

/// The queue for `tokio-postgres` transactions. It holds no state.
#[derive(Debug, Default, Clone, Copy)]
pub struct PgTokioOutboxQueue;

/// The steps of an append: the SQL insert of the event, or, where the payload
/// could not be serialized, that failure.
pub open spec fn tokio_append_steps(
    event_id: u128,
    payload: Result<serde_json::Value, String>,
    aggregate_id: u128,
    event_type: Seq<char>,
) -> Seq<StepView> {
    match payload {
        Ok(value) => seq![insert_sql_step(event_id, aggregate_id, event_type, value)],
        Err(message) => seq![serialization_failure(message)],
    }
}

/// A tokio-postgres append of a serialized payload gives the driver one
/// step: the SQL insert whose parameters are, in order, the event id (the
/// row's id), the aggregate id, the event type and the payload. Once that
/// insert succeeds, the append succeeds.
pub proof fn law_tokio_append_inserts_the_event_row(
    event_id: u128,
    aggregate_id: u128,
    event_type: Seq<char>,
    payload: serde_json::Value,
)
    ensures
        ({
            let run = ExecutionView::start(Driver::TokioPostgres, tokio_append_steps(event_id, Ok(payload), aggregate_id, event_type));
            &&& run.pending() == Some(StepView::Execute(INSERT_EVENT_SQL@, seq![SqlValueView::Uuid(event_id), SqlValueView::Uuid(aggregate_id), SqlValueView::Text(event_type), SqlValueView::Json(payload)]))
            &&& run.after(Ok(())).outcome == Some(Ok::<(), Error>(()))
        }),
{
}

impl PgTokioOutboxQueue {
    /// Appends an event within the caller's transaction.
    ///
    /// `payload` is the event payload serialized to JSON, or the message of
    /// the serialization error. The run fails with `SerializationError` when
    /// the payload could not be serialized, and with `TokioPostgresError`
    /// when the insert fails.
    pub fn append(
        &self,
        event_id: u128,
        payload: Result<serde_json::Value, String>,
        aggregate_id: u128,
        event_type: &str,
    ) -> (run: Execution)
        ensures
            run@ == ExecutionView::start(
                Driver::TokioPostgres,
                tokio_append_steps(event_id, payload, aggregate_id, event_type@),
            ),
            run@.driver == Driver::TokioPostgres,
            match payload {
                Ok(v) => {
                    &&& run@.steps == seq![
                    StepView::Execute(INSERT_EVENT_SQL@, seq![SqlValueView::Uuid(event_id), SqlValueView::Uuid(aggregate_id), SqlValueView::Text(event_type@), SqlValueView::Json(v)]),
                ]
                    &&& run@.next == 0
                    &&& run@.outcome is None
                },
                Err(m) => run@.outcome == Some(Err::<(), Error>(Error::SerializationError(m))),
            },
    {
        let ghost expected = tokio_append_steps(event_id, payload, aggregate_id, event_type@);
        let mut steps: Vec<Step> = Vec::new();
        match payload {
            Ok(value) => steps.push(insert_statement(event_id, aggregate_id, event_type, value)),
            Err(message) => steps.push(serialization_failed(message)),
        }
        assert(steps@.map_values(|s: Step| s@) =~= expected);
        Execution::new(Driver::TokioPostgres, steps)
    }

    /// Sets up the `outbox_queue` table, its polling index and its status
    /// check by running the migration script as one batch, on a client or a
    /// transaction; the script is idempotent.
    ///
    /// Prefer the application's migration tool. The run fails with
    /// `TokioPostgresError` when the script fails.
    pub fn setup_queue(&self) -> (run: Execution)
        ensures
            run@ == ExecutionView::start(Driver::TokioPostgres, seq![StepView::Batch(queue_migration())]),
            run@.driver == Driver::TokioPostgres,
            run@.steps == seq![StepView::Batch(
                CREATE_TABLE_SQL@ + STATEMENT_END@ + CREATE_INDEX_SQL@ + STATEMENT_END@
                    + DROP_CONSTRAINT_SQL@ + STATEMENT_END@ + ADD_CONSTRAINT_SQL@ + STATEMENT_END@,
            )],
            run@.next == 0,
            run@.outcome is None,
    {
        let mut steps: Vec<Step> = Vec::new();
        steps.push(Step::Batch(create_queue_migration()));
        assert(steps@.map_values(|s: Step| s@) =~= seq![StepView::Batch(queue_migration())]);
        Execution::new(Driver::TokioPostgres, steps)
    }
}

} // verus!
