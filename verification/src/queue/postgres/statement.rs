//! The units of work that a queue hands to a database driver.

use vstd::prelude::*;
use crate::errors::Error;
use crate::ids::{hyphenated, id_to_string};
use super::sql::{INSERT_EVENT_SQL, NOTIFY_CHANNEL, NOTIFY_SQL};

verus! {

/// A JSON document, as `serde_json` holds it; the library only carries it.
#[verifier::external_type_specification]
#[verifier::external_body]
pub struct ExJsonValue(serde_json::Value);

/// A value bound to a parameter of a SQL statement.
#[derive(Debug)]
pub enum SqlValue {
    /// A `uuid` parameter, by its 128-bit value.
    Uuid(u128),
    /// A `text` parameter.
    Text(String),
    /// A `jsonb` parameter.
    Json(serde_json::Value),
}

/// What a [`SqlValue`] binds.
pub enum SqlValueView {
    Uuid(u128),
    Text(Seq<char>),
    Json(serde_json::Value),
}

impl View for SqlValue {
    type V = SqlValueView;

    open spec fn view(&self) -> SqlValueView {
        match self {
            SqlValue::Uuid(id) => SqlValueView::Uuid(*id),
            SqlValue::Text(s) => SqlValueView::Text(s@),
            SqlValue::Json(v) => SqlValueView::Json(*v),
        }
    }
}

/// The columns of a new row of `outbox_queue` that the queue fills in; the
/// table's defaults fill in the others (status, timestamps, attempts, error).
#[derive(Debug)]
pub struct NewEvent {
    pub id: u128,
    pub aggregate_id: u128,
    pub event_type: String,
    pub payload: serde_json::Value,
}

/// What a [`NewEvent`] inserts.
pub struct NewEventView {
    pub id: u128,
    pub aggregate_id: u128,
    pub event_type: Seq<char>,
    pub payload: serde_json::Value,
}

impl View for NewEvent {
    type V = NewEventView;

    open spec fn view(&self) -> NewEventView {
        NewEventView {
            id: self.id,
            aggregate_id: self.aggregate_id,
            event_type: self.event_type@,
            payload: self.payload,
        }
    }
}

/// One unit of work for a database driver.
#[derive(Debug)]
pub enum Step {
    /// Run a script of several statements at once (`batch_execute`).
    Batch(String),
    /// Run one statement with its parameters bound in order.
    Execute(String, Vec<SqlValue>),
    /// Prepare a statement for the next [`Step::ExecutePrepared`].
    Prepare(String),
    /// Run the statement prepared by the previous step with these parameters.
    ExecutePrepared(Vec<SqlValue>),
    /// Insert one row into `outbox_queue` through the driver's query builder.
    Insert(NewEvent),
    /// End the run with this error, without any work by the driver.
    Fail(Error),
}

/// What a [`Step`] asks of the driver.
pub enum StepView {
    Batch(Seq<char>),
    Execute(Seq<char>, Seq<SqlValueView>),
    Prepare(Seq<char>),
    ExecutePrepared(Seq<SqlValueView>),
    Insert(NewEventView),
    Fail(Error),
}

/// The views of a sequence of parameters.
pub open spec fn values_view(values: Seq<SqlValue>) -> Seq<SqlValueView> {
    values.map_values(|v: SqlValue| v@)
}

impl View for Step {
    type V = StepView;

    open spec fn view(&self) -> StepView {
        match self {
            Step::Batch(s) => StepView::Batch(s@),
            Step::Execute(s, params) => StepView::Execute(s@, values_view(params@)),
            Step::Prepare(s) => StepView::Prepare(s@),
            Step::ExecutePrepared(params) => StepView::ExecutePrepared(values_view(params@)),
            Step::Insert(row) => StepView::Insert(row@),
            Step::Fail(e) => StepView::Fail(*e),
        }
    }
}

/// The row that an append inserts through a query builder.
pub open spec fn insert_row_step(id: u128, aggregate_id: u128, event_type: Seq<char>, payload: serde_json::Value) -> StepView {
    StepView::Insert(NewEventView { id, aggregate_id, event_type, payload })
}

/// The parameters of [`INSERT_EVENT_SQL`]: id, aggregate id, event type, payload.
pub open spec fn insert_params(id: u128, aggregate_id: u128, event_type: Seq<char>, payload: serde_json::Value) -> Seq<SqlValueView> {
    seq![
        SqlValueView::Uuid(id),
        SqlValueView::Uuid(aggregate_id),
        SqlValueView::Text(event_type),
        SqlValueView::Json(payload),
    ]
}

/// The SQL insert of an event, with its parameters bound.
pub open spec fn insert_sql_step(id: u128, aggregate_id: u128, event_type: Seq<char>, payload: serde_json::Value) -> StepView {
    StepView::Execute(INSERT_EVENT_SQL@, insert_params(id, aggregate_id, event_type, payload))
}

/// The notification on [`NOTIFY_CHANNEL`] whose payload is the event id in
/// its hyphenated form.
pub open spec fn notify_step(id: u128) -> StepView {
    StepView::Execute(
        NOTIFY_SQL@,
        seq![SqlValueView::Text(NOTIFY_CHANNEL@), SqlValueView::Text(hyphenated(id))],
    )
}

/// The failure that ends an append whose payload could not be serialized.
pub open spec fn serialization_failure(message: String) -> StepView {
    StepView::Fail(Error::SerializationError(message))
}

/// The insert of a new event through the driver's query builder.
pub fn insert_row(id: u128, aggregate_id: u128, event_type: &str, payload: serde_json::Value) -> (step: Step)
    ensures
        step@ == insert_row_step(id, aggregate_id, event_type@, payload),
{
    Step::Insert(NewEvent { id, aggregate_id, event_type: event_type.to_owned(), payload })
}

/// The parameters of [`INSERT_EVENT_SQL`] for an event.
pub fn insert_values(id: u128, aggregate_id: u128, event_type: &str, payload: serde_json::Value) -> (values: Vec<SqlValue>)
    ensures
        values_view(values@) == insert_params(id, aggregate_id, event_type@, payload),
{
    let mut values: Vec<SqlValue> = Vec::new();
    values.push(SqlValue::Uuid(id));
    values.push(SqlValue::Uuid(aggregate_id));
    values.push(SqlValue::Text(event_type.to_owned()));
    values.push(SqlValue::Json(payload));
    assert(values_view(values@) =~= insert_params(id, aggregate_id, event_type@, payload));
    values
}

/// The SQL insert of an event.
pub fn insert_statement(id: u128, aggregate_id: u128, event_type: &str, payload: serde_json::Value) -> (step: Step)
    ensures
        step@ == insert_sql_step(id, aggregate_id, event_type@, payload),
{
    Step::Execute(INSERT_EVENT_SQL.to_owned(), insert_values(id, aggregate_id, event_type, payload))
}

/// The notification that announces the event `id` on [`NOTIFY_CHANNEL`].
pub fn notify_statement(id: u128) -> (step: Step)
    ensures
        step@ == notify_step(id),
{
    let mut values: Vec<SqlValue> = Vec::new();
    values.push(SqlValue::Text(NOTIFY_CHANNEL.to_owned()));
    values.push(SqlValue::Text(id_to_string(id)));
    assert(values_view(values@) =~= seq![
        SqlValueView::Text(NOTIFY_CHANNEL@),
        SqlValueView::Text(hyphenated(id)),
    ]);
    Step::Execute(NOTIFY_SQL.to_owned(), values)
}

/// The failure of an append whose payload could not be serialized.
pub fn serialization_failed(message: String) -> (step: Step)
    ensures
        step@ == serialization_failure(message),
{
    Step::Fail(Error::SerializationError(message))
}

} // verus!
