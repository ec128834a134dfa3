//! The outbox queue: events appended to the `outbox_queue` table in the same
//! transaction as the business change they describe.

pub mod postgres;
