//! The `diesel-async` queue: an append inserts the event's row in the
//! caller's transaction and announces its id on the notification channel.

use vstd::prelude::*;
use crate::errors::Error;
use crate::ids::{hyphenated, lemma_hyphenated_injective};
use crate::queue::postgres::sql::{NOTIFY_CHANNEL, NOTIFY_SQL};
use crate::queue::postgres::statement::{NewEventView, SqlValueView};
use crate::queue::postgres::execution::{Driver, Execution, ExecutionView};
use crate::queue::postgres::sql::{
    create_queue_migration, queue_migration, ADD_CONSTRAINT_SQL, CREATE_INDEX_SQL, CREATE_TABLE_SQL,
    DROP_CONSTRAINT_SQL, STATEMENT_END,
};
use crate::queue::postgres::statement::{
    insert_row, insert_row_step, notify_statement, notify_step, serialization_failed,
    serialization_failure, Step, StepView,
};

pub use crate::queue::postgres::statement::NewEvent;

verus! {

/// The queue for `diesel-async` connections. It holds no state: the driver
/// runs its steps on the transaction it is given.
#[derive(Debug, Default, Clone, Copy)]
pub struct PgDieselAsyncOutboxQueue;

/// The steps of an append: the insert of the event's row, then the
/// notification of its id; or, where the payload could not be serialized,
/// that failure.
pub open spec fn diesel_async_append_steps(
    event_id: u128,
    payload: Result<serde_json::Value, String>,
    aggregate_id: u128,
    event_type: Seq<char>,
) -> Seq<StepView> {
    match payload {
        Ok(value) => seq![insert_row_step(event_id, aggregate_id, event_type, value), notify_step(event_id)],
        Err(message) => seq![serialization_failure(message)],
    }
}

/// A diesel-async append of a serialized payload first inserts the row whose
/// id is the event id and whose aggregate_id is the aggregate id, with the
/// given event type and payload; once that succeeds, it announces on
/// `NOTIFY_CHANNEL` the hyphenated form of the event id, the id of the row
/// just inserted, and never the aggregate id when the two differ. Once the
/// announcement succeeds, the append succeeds.
pub proof fn law_diesel_async_append_inserts_then_announces_the_event(
    event_id: u128,
    aggregate_id: u128,
    event_type: Seq<char>,
    payload: serde_json::Value,
)
    ensures
        ({
            let run = ExecutionView::start(Driver::Diesel, diesel_async_append_steps(event_id, Ok(payload), aggregate_id, event_type));
            &&& run.pending() == Some(StepView::Insert(NewEventView { id: event_id, aggregate_id, event_type, payload }))
            &&& run.after(Ok(())).pending() == Some(StepView::Execute(NOTIFY_SQL@, seq![SqlValueView::Text(NOTIFY_CHANNEL@), SqlValueView::Text(hyphenated(event_id))]))
            &&& event_id != aggregate_id ==> run.after(Ok(())).pending() != Some(StepView::Execute(NOTIFY_SQL@, seq![SqlValueView::Text(NOTIFY_CHANNEL@), SqlValueView::Text(hyphenated(aggregate_id))]))
            &&& run.after(Ok(())).after(Ok(())).outcome == Some(Ok::<(), Error>(()))
        }),
{
    if event_id != aggregate_id {
        lemma_hyphenated_injective(event_id, aggregate_id);
    }
}

impl PgDieselAsyncOutboxQueue {
    /// Appends an event within the caller's transaction and notifies
    /// listeners of the notification channel of its id.
    ///
    /// `payload` is the event payload serialized to JSON, or the message of
    /// the serialization error. The run fails with `SerializationError` when
    /// the payload could not be serialized, and with `DieselError` when the
    /// insert or the notification fails.
    pub fn append(
        &self,
        event_id: u128,
        payload: Result<serde_json::Value, String>,
        aggregate_id: u128,
        event_type: &str,
    ) -> (run: Execution)
        ensures
            run@ == ExecutionView::start(
                Driver::Diesel,
                diesel_async_append_steps(event_id, payload, aggregate_id, event_type@),
            ),
            run@.driver == Driver::Diesel,
            match payload {
                Ok(v) => {
                    &&& run@.steps == seq![
                    StepView::Insert(NewEventView { id: event_id, aggregate_id, event_type: event_type@, payload: v }),
                    StepView::Execute(NOTIFY_SQL@, seq![SqlValueView::Text(NOTIFY_CHANNEL@), SqlValueView::Text(hyphenated(event_id))]),
                ]
                    &&& run@.next == 0
                    &&& run@.outcome is None
                },
                Err(m) => run@.outcome == Some(Err::<(), Error>(Error::SerializationError(m))),
            },
    {
        let ghost expected = diesel_async_append_steps(event_id, payload, aggregate_id, event_type@);
        let mut steps: Vec<Step> = Vec::new();
        match payload {
            Ok(value) => {
                steps.push(insert_row(event_id, aggregate_id, event_type, value));
                steps.push(notify_statement(event_id));
            },
            Err(message) => steps.push(serialization_failed(message)),
        }
        assert(steps@.map_values(|s: Step| s@) =~= expected);
        Execution::new(Driver::Diesel, steps)
    }

    /// Sets up the `outbox_queue` table, its polling index and its status
    /// check by running the migration script as one batch; the script is
    /// idempotent.
    ///
    /// Meant for development, tests and simple setups; in production prefer
    /// the application's migration tool. The run fails with `DieselError`
    /// when the script fails.
    pub fn setup_queue(&self) -> (run: Execution)
        ensures
            run@ == ExecutionView::start(Driver::Diesel, seq![StepView::Batch(queue_migration())]),
            run@.driver == Driver::Diesel,
            run@.steps == seq![StepView::Batch(
                CREATE_TABLE_SQL@ + STATEMENT_END@ + CREATE_INDEX_SQL@ + STATEMENT_END@
                    + DROP_CONSTRAINT_SQL@ + STATEMENT_END@ + ADD_CONSTRAINT_SQL@ + STATEMENT_END@,
            )],
            run@.next == 0,
            run@.outcome is None,
    {
        let mut steps: Vec<Step> = Vec::new();
        steps.push(Step::Batch(create_queue_migration()));
        assert(steps@.map_values(|s: Step| s@) =~= seq![StepView::Batch(queue_migration())]);
        Execution::new(Driver::Diesel, steps)
    }
}

} // verus!
