//! Relays: what is sent to a message broker for each event taken from the
//! outbox.

pub mod kafka;
