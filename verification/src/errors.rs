use vstd::prelude::*;

verus! {

/// Errors reported by the outbox queue and its relays.
///
/// The variants that stand for a failure of an outside library carry that
/// failure's message.
#[derive(Debug, PartialEq, Eq)]
#[non_exhaustive]
pub enum Error {
    /// Failed to append to the outbox queue.
    AppendError,
    /// Failed to publish an item.
    PublishError,
    /// A `tokio-postgres` call failed.
    TokioPostgresError(String),
    /// The event payload could not be serialized to JSON.
    SerializationError(String),
    /// A `diesel` call failed.
    DieselError(String),
    /// Setting up the queue failed.
    SetupQueueError(String),
    /// A `sqlx` call failed.
    SqlxError(String),
    /// The Kafka producer failed.
    KafkaError(String),
}

/// The description of an error, as the error reports itself.
pub open spec fn error_message(e: Error) -> Seq<char> {
    match e {
        Error::AppendError => "Failed to append to the outbox queue"@,
        Error::PublishError => "Failed to publish item"@,
        Error::TokioPostgresError(_) => "Failed to write item to the queue"@,
        Error::SerializationError(_) => "Failed to serialize event payload"@,
        Error::DieselError(_) => "Failed to write item to the queue"@,
        Error::SetupQueueError(_) => "Failed to setup queue"@,
        Error::SqlxError(_) => "Failed to write item to the queue"@,
        Error::KafkaError(_) => "Kafka error"@,
    }
}

impl Error {
    /// The error's description, the text its `Display` shows.
    pub fn message(&self) -> (text: String)
        ensures
            text@ == error_message(*self),
    {
        let text: &str = match self {
            Error::AppendError => "Failed to append to the outbox queue",
            Error::PublishError => "Failed to publish item",
            Error::TokioPostgresError(_) => "Failed to write item to the queue",
            Error::SerializationError(_) => "Failed to serialize event payload",
            Error::DieselError(_) => "Failed to write item to the queue",
            Error::SetupQueueError(_) => "Failed to setup queue",
            Error::SqlxError(_) => "Failed to write item to the queue",
            Error::KafkaError(_) => "Kafka error",
        };
        text.to_owned()
    }
}

impl Clone for Error {
    fn clone(&self) -> (copy: Self)
        ensures
            copy == *self,
    {
        match self {
            Error::AppendError => Error::AppendError,
            Error::PublishError => Error::PublishError,
            Error::TokioPostgresError(m) => Error::TokioPostgresError(m.clone()),
            Error::SerializationError(m) => Error::SerializationError(m.clone()),
            Error::DieselError(m) => Error::DieselError(m.clone()),
            Error::SetupQueueError(m) => Error::SetupQueueError(m.clone()),
            Error::SqlxError(m) => Error::SqlxError(m.clone()),
            Error::KafkaError(m) => Error::KafkaError(m.clone()),
        }
    }
}

} // verus!
