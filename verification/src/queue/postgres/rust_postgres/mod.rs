//! The prepared-statement `tokio-postgres` queue: an append prepares its
//! insert, then runs it with the event's values.

use vstd::prelude::*;
use crate::errors::Error;
use crate::queue::postgres::execution::{Driver, Execution, ExecutionView};
use crate::queue::postgres::statement::{
    serialization_failed, serialization_failure, values_view, SqlValue, SqlValueView, Step, StepView,
};

verus! {

/// The insert that this queue prepares.
pub const INSERT_QUERY: &'static str = "INSERT INTO outbox_queue (id, aggregate_id, payload, event_type) VALUES ($1), ($2), ($3), ($4)";

/// The queue for `tokio-postgres` transactions that prepares its insert. It
/// holds no state.
#[derive(Debug, Default, Clone, Copy)]
pub struct PgOutboxQueue;

/// The values bound to [`INSERT_QUERY`]: id, aggregate id, payload, event name.
pub open spec fn prepared_params(id: u128, aggregate_id: u128, payload: serde_json::Value, event_name: Seq<char>) -> Seq<SqlValueView> {
    seq![
        SqlValueView::Uuid(id),
        SqlValueView::Uuid(aggregate_id),
        SqlValueView::Json(payload),
        SqlValueView::Text(event_name),
    ]
}

/// The steps of an append: prepare [`INSERT_QUERY`], then run it with the
/// event's values; the payload's serialization, which comes between the two,
/// ends the run in its place where it failed.
pub open spec fn prepared_append_steps(
    event_id: u128,
    payload: Result<serde_json::Value, String>,
    aggregate_id: u128,
    event_name: Seq<char>,
) -> Seq<StepView> {
    match payload {
        Ok(value) => seq![
            StepView::Prepare(INSERT_QUERY@),
            StepView::ExecutePrepared(prepared_params(event_id, aggregate_id, value, event_name)),
        ],
        Err(message) => seq![StepView::Prepare(INSERT_QUERY@), serialization_failure(message)],
    }
}

/// A prepared append of a serialized payload first prepares `INSERT_QUERY`;
/// once that succeeds, it runs it with, in order, the event id, the
/// aggregate id, the payload and the event name, whatever the order of the
/// two ids. Once that succeeds, the append succeeds.
pub proof fn law_prepared_append_binds_the_event_in_order(
    event_id: u128,
    aggregate_id: u128,
    event_name: Seq<char>,
    payload: serde_json::Value,
)
    ensures
        ({
            let run = ExecutionView::start(Driver::TokioPostgres, prepared_append_steps(event_id, Ok(payload), aggregate_id, event_name));
            &&& run.pending() == Some(StepView::Prepare(INSERT_QUERY@))
            &&& run.after(Ok(())).pending() == Some(StepView::ExecutePrepared(seq![
                SqlValueView::Uuid(event_id),
                SqlValueView::Uuid(aggregate_id),
                SqlValueView::Json(payload),
                SqlValueView::Text(event_name),
            ]))
            &&& run.after(Ok(())).after(Ok(())).outcome == Some(Ok::<(), Error>(()))
        }),
{
}

impl PgOutboxQueue {
    /// Appends an event within the caller's transaction.
    ///
    /// `payload` is the event payload serialized to JSON, or the message of
    /// the serialization error. The run fails with `TokioPostgresError` when
    /// preparing or running the insert fails, and with `SerializationError`
    /// when the insert was prepared but the payload could not be serialized.
    pub fn append(
        &self,
        event_id: u128,
        payload: Result<serde_json::Value, String>,
        aggregate_id: u128,
        event_name: &str,
    ) -> (run: Execution)
        ensures
            run@ == ExecutionView::start(
                Driver::TokioPostgres,
                prepared_append_steps(event_id, payload, aggregate_id, event_name@),
            ),
            run@.driver == Driver::TokioPostgres,
            match payload {
                Ok(v) => {
                    &&& run@.steps == seq![
                    StepView::Prepare(INSERT_QUERY@),
                    StepView::ExecutePrepared(seq![SqlValueView::Uuid(event_id), SqlValueView::Uuid(aggregate_id), SqlValueView::Json(v), SqlValueView::Text(event_name@)]),
                ]
                    &&& run@.next == 0
                    &&& run@.outcome is None
                },
                Err(m) => run@.steps == seq![StepView::Prepare(INSERT_QUERY@), StepView::Fail(Error::SerializationError(m))] && run@.next == 0 && run@.outcome is None,
            },
    {
        let ghost expected = prepared_append_steps(event_id, payload, aggregate_id, event_name@);
        let mut steps: Vec<Step> = Vec::new();
        steps.push(Step::Prepare(INSERT_QUERY.to_owned()));
        match payload {
            Ok(value) => {
                let mut values: Vec<SqlValue> = Vec::new();
                values.push(SqlValue::Uuid(event_id));
                values.push(SqlValue::Uuid(aggregate_id));
                values.push(SqlValue::Json(value));
                values.push(SqlValue::Text(event_name.to_owned()));
                assert(values_view(values@) =~= prepared_params(event_id, aggregate_id, value, event_name@));
                steps.push(Step::ExecutePrepared(values));
            },
            Err(message) => steps.push(serialization_failed(message)),
        }
        assert(steps@.map_values(|s: Step| s@) =~= expected);
        Execution::new(Driver::TokioPostgres, steps)
    }
}

} // verus!
