//! Transactional outbox: the rows and statements that put an event into the
//! `outbox_queue` table, the order in which a driver runs them and how their
//! failures are reported, and the records that relay events to Kafka.

pub mod errors;
pub mod ids;
pub mod queue;
pub mod relay;

pub use errors::Error;
pub use queue::postgres::diesel::PgDieselOutboxQueue;
pub use queue::postgres::diesel_async::PgDieselAsyncOutboxQueue;
pub use queue::postgres::rust_postgres::PgOutboxQueue;
pub use queue::postgres::sqlx::SqlxPgOutboxQueue;
pub use queue::postgres::tokio_postgres::PgTokioOutboxQueue;
pub use queue::postgres::{Driver, Execution, Step};
pub use relay::kafka::{KafkaOutboxRelay, KafkaRecord};
