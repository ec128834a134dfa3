//! The Kafka relay: each message becomes a record on the relay's topic, keyed
//! by a fresh version 7 UUID, whose payload is the message's JSON text.

use vstd::prelude::*;
use crate::errors::Error;
use crate::ids::{id_key, id_to_bytes, is_v7, lemma_id_key_injective, V7Source};

verus! {

/// A record for the Kafka producer.
#[derive(Debug)]
pub struct KafkaRecord {
    /// The topic to publish on.
    pub topic: String,
    /// The record key: the sixteen bytes of a UUID.
    pub key: [u8; 16],
    /// The message, as JSON text.
    pub payload: String,
    /// How long, in seconds, the producer may wait for room in its queue.
    pub queue_timeout_secs: u64,
}

/// The relay's state: its topic and the id behind the last key it drew (0
/// before the first).
pub struct KafkaOutboxRelayView {
    pub topic: Seq<char>,
    pub last_key_id: u128,
}

/// The Kafka relay's part that decides what is sent: the topic, and the
/// source of record keys. The producer that sends is the caller's.
pub struct KafkaOutboxRelay {
    topic: String,
    keys: V7Source,
}

impl View for KafkaOutboxRelay {
    type V = KafkaOutboxRelayView;

    closed spec fn view(&self) -> KafkaOutboxRelayView {
        KafkaOutboxRelayView { topic: self.topic@, last_key_id: self.keys@ }
    }
}

/// Each successful send draws a key id greater than the one before, so the
/// keys of any two sends of one relay differ: a later send's key is not an
/// earlier send's key.
pub proof fn law_later_sends_have_other_keys(earlier_key_id: u128, later_key_id: u128)
    requires
        earlier_key_id < later_key_id,
    ensures
        id_key(earlier_key_id) != id_key(later_key_id),
{
    lemma_id_key_injective(earlier_key_id, later_key_id);
}

impl KafkaOutboxRelay {
    /// A relay that publishes on `topic` and has drawn no key yet.
    pub fn new(topic: String) -> (relay: KafkaOutboxRelay)
        ensures
            relay@.topic == topic@,
            relay@.last_key_id == 0,
    {
        KafkaOutboxRelay { topic, keys: V7Source::new() }
    }

    /// The topic that the relay publishes on.
    pub fn topic(&self) -> (topic: &str)
        ensures
            topic@ == self@.topic,
    {
        self.topic.as_str()
    }

    /// The record that sends a message: `message` is the message serialized
    /// to JSON text, or the message of the serialization error.
    ///
    /// A serialization error gives `SerializationError` and draws no key.
    /// Otherwise the record goes to the relay's topic, carries the JSON text,
    /// lets the producer wait for no time when its queue is full, and is keyed
    /// by the bytes of a fresh version 7 UUID, greater than every key id the
    /// relay drew before.
    pub fn prepare_send(&mut self, message: Result<String, String>) -> (record: Result<KafkaRecord, Error>)
        ensures
            final(self)@.topic == old(self)@.topic,
            match message {
                Err(m) => {
                    &&& record == Err::<KafkaRecord, Error>(Error::SerializationError(m))
                    &&& final(self)@ == old(self)@
                },
                Ok(text) => record matches Ok(r) && {
                    &&& r.topic@ == old(self)@.topic
                    &&& r.payload == text
                    &&& r.queue_timeout_secs == 0
                    &&& is_v7(final(self)@.last_key_id)
                    &&& final(self)@.last_key_id > old(self)@.last_key_id
                    &&& r.key@ == id_key(final(self)@.last_key_id)
                },
            },
    {
        match message {
            Err(m) => Err(Error::SerializationError(m)),
            Ok(text) => {
                let id = self.keys.next_id();
                let key = id_to_bytes(id);
                assert(key@ =~= id_key(id));
                Ok(KafkaRecord { topic: self.topic.clone(), key, payload: text, queue_timeout_secs: 0 })
            },
        }
    }

    /// The result of a send, given the producer's delivery result: a failed
    /// delivery gives `KafkaError` with the producer's message.
    pub fn delivery_result(delivery: Result<(), String>) -> (sent: Result<(), Error>)
        ensures
            match delivery {
                Ok(_) => sent is Ok,
                Err(m) => sent == Err::<(), Error>(Error::KafkaError(m)),
            },
    {
        match delivery {
            Ok(()) => Ok(()),
            Err(m) => Err(Error::KafkaError(m)),
        }
    }

    /// Connecting needs no work: the producer connects on its own.
    pub fn connect() -> (connected: Result<(), Error>)
        ensures
            connected is Ok,
    {
        Ok(())
    }
}

} // verus!
