//! PostgreSQL queues: the statements that set up the `outbox_queue` table and
//! append events to it, and the driver-independent run of those statements.

pub mod execution;
pub mod sql;
pub mod statement;

pub use execution::{Driver, Execution, ExecutionView};
pub use sql::{create_queue_migration, NOTIFY_CHANNEL};
pub use statement::{NewEvent, NewEventView, SqlValue, SqlValueView, Step, StepView};
pub mod diesel;
pub mod diesel_async;
pub mod rust_postgres;
pub mod sqlx;
pub mod tokio_postgres;
