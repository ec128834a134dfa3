//! The blocking `diesel` queue: an append inserts the event's row in the
//! caller's transaction.

use vstd::prelude::*;
use crate::errors::Error;
use crate::queue::postgres::statement::NewEventView;
use crate::queue::postgres::execution::{Driver, Execution, ExecutionView};
use crate::queue::postgres::sql::{
    create_queue_migration, queue_migration, ADD_CONSTRAINT_SQL, CREATE_INDEX_SQL, CREATE_TABLE_SQL,
    DROP_CONSTRAINT_SQL, STATEMENT_END,
};
use crate::queue::postgres::statement::{
    insert_row, insert_row_step, serialization_failed, serialization_failure, Step, StepView,
};

pub use crate::queue::postgres::statement::NewEvent;

verus! {

/// The queue for blocking `diesel` connections. It holds no state: the
/// driver runs its steps on the connection or transaction it is given.
#[derive(Debug, Default, Clone, Copy)]
pub struct PgDieselOutboxQueue;

/// The steps of an append: the insert of the event's row, or, where the
/// payload could not be serialized, that failure.
pub open spec fn diesel_append_steps(
    event_id: u128,
    payload: Result<serde_json::Value, String>,
    aggregate_id: u128,
    event_type: Seq<char>,
) -> Seq<StepView> {
    match payload {
        Ok(value) => seq![insert_row_step(event_id, aggregate_id, event_type, value)],
        Err(message) => seq![serialization_failure(message)],
    }
}

/// A diesel append of a serialized payload gives the driver one step: the
/// insert of the row whose id is the event id, whose aggregate_id is the
/// aggregate id, and whose event type and payload are the given ones. Once
/// that insert succeeds, the append succeeds.
pub proof fn law_diesel_append_inserts_the_event_row(
    event_id: u128,
    aggregate_id: u128,
    event_type: Seq<char>,
    payload: serde_json::Value,
)
    ensures
        ({
            let run = ExecutionView::start(Driver::Diesel, diesel_append_steps(event_id, Ok(payload), aggregate_id, event_type));
            &&& run.pending() == Some(StepView::Insert(NewEventView { id: event_id, aggregate_id, event_type, payload }))
            &&& run.after(Ok(())).outcome == Some(Ok::<(), Error>(()))
        }),
{
}

impl PgDieselOutboxQueue {
    /// Appends an event within the caller's transaction.
    ///
    /// `payload` is the event payload serialized to JSON, or the message of
    /// the serialization error. The run fails with `SerializationError` when
    /// the payload could not be serialized, and with `DieselError` when the
    /// insert fails.
    pub fn append(
        &self,
        event_id: u128,
        payload: Result<serde_json::Value, String>,
        aggregate_id: u128,
        event_type: &str,
    ) -> (run: Execution)
        ensures
            run@ == ExecutionView::start(
                Driver::Diesel,
                diesel_append_steps(event_id, payload, aggregate_id, event_type@),
            ),
            run@.driver == Driver::Diesel,
            match payload {
                Ok(v) => {
                    &&& run@.steps == seq![
                    StepView::Insert(NewEventView { id: event_id, aggregate_id, event_type: event_type@, payload: v }),
                ]
                    &&& run@.next == 0
                    &&& run@.outcome is None
                },
                Err(m) => run@.outcome == Some(Err::<(), Error>(Error::SerializationError(m))),
            },
    {
        let ghost expected = diesel_append_steps(event_id, payload, aggregate_id, event_type@);
        let mut steps: Vec<Step> = Vec::new();
        match payload {
            Ok(value) => steps.push(insert_row(event_id, aggregate_id, event_type, value)),
            Err(message) => steps.push(serialization_failed(message)),
        }
        assert(steps@.map_values(|s: Step| s@) =~= expected);
        Execution::new(Driver::Diesel, steps)
    }

    /// Sets up the `outbox_queue` table, its polling index and its status
    /// check by running the migration script as one batch.
    ///
    /// Prefer running the script from the application's migration tool; do
    /// not call this where such a tool manages the schema. The run fails with
    /// `DieselError` when the script fails.
    pub fn setup_queue(&self) -> (run: Execution)
        ensures
            run@ == ExecutionView::start(Driver::Diesel, seq![StepView::Batch(queue_migration())]),
            run@.driver == Driver::Diesel,
            run@.steps == seq![StepView::Batch(
                CREATE_TABLE_SQL@ + STATEMENT_END@ + CREATE_INDEX_SQL@ + STATEMENT_END@
                    + DROP_CONSTRAINT_SQL@ + STATEMENT_END@ + ADD_CONSTRAINT_SQL@ + STATEMENT_END@,
            )],
            run@.next == 0,
            run@.outcome is None,
    {
        let mut steps: Vec<Step> = Vec::new();
        steps.push(Step::Batch(create_queue_migration()));
        assert(steps@.map_values(|s: Step| s@) =~= seq![StepView::Batch(queue_migration())]);
        Execution::new(Driver::Diesel, steps)
    }
}

} // verus!
