use routbox::ids::{id_to_bytes, id_to_string, V7Source};
use routbox::{Error, KafkaOutboxRelay};
use uuid::Uuid;

#[test]
fn prepared_record_carries_topic_payload_and_a_v7_key() {
    let mut relay = KafkaOutboxRelay::new("orders".to_string());
    assert_eq!(relay.topic(), "orders");
    let record = relay.prepare_send(Ok(r#"{"id":1}"#.to_string())).unwrap();
    assert_eq!(record.topic, "orders");
    assert_eq!(record.payload, r#"{"id":1}"#);
    assert_eq!(record.queue_timeout_secs, 0);
    let key = Uuid::from_bytes(record.key);
    assert_eq!(key.get_version_num(), 7);
    assert_eq!(key.get_variant(), uuid::Variant::RFC4122);
}

#[test]
fn each_record_gets_its_own_key() {
    let mut relay = KafkaOutboxRelay::new("t".to_string());
    let a = relay.prepare_send(Ok("1".to_string())).unwrap();
    let b = relay.prepare_send(Ok("1".to_string())).unwrap();
    assert_ne!(a.key, b.key);
    assert!(Uuid::from_bytes(b.key) > Uuid::from_bytes(a.key));
    let c = relay.prepare_send(Ok("2".to_string())).unwrap();
    assert!(Uuid::from_bytes(c.key) > Uuid::from_bytes(b.key));
}

#[test]
fn serialization_and_delivery_failures() {
    let mut relay = KafkaOutboxRelay::new("t".to_string());
    assert_eq!(relay.prepare_send(Err("recursion".to_string())).unwrap_err(), Error::SerializationError("recursion".to_string()));
    assert_eq!(KafkaOutboxRelay::delivery_result(Err("broker down".to_string())), Err(Error::KafkaError("broker down".to_string())));
    assert_eq!(KafkaOutboxRelay::delivery_result(Ok(())), Ok(()));
    assert_eq!(KafkaOutboxRelay::connect(), Ok(()));
}

#[test]
fn ids_match_the_uuid_forms() {
    let v = 0xa1a2a3a4b1b2c1c2d1d2d3d4d5d6d7d8u128;
    assert_eq!(id_to_string(v), "a1a2a3a4-b1b2-c1c2-d1d2-d3d4d5d6d7d8");
    assert_eq!(id_to_bytes(v), [0xa1, 0xa2, 0xa3, 0xa4, 0xb1, 0xb2, 0xc1, 0xc2, 0xd1, 0xd2, 0xd3, 0xd4, 0xd5, 0xd6, 0xd7, 0xd8]);
    assert_eq!(id_to_string(0), "00000000-0000-0000-0000-000000000000");
    let mut source = V7Source::new();
    let fresh = source.next_id();
    assert_eq!((fresh >> 76) & 0xf, 7);
    assert_eq!((fresh >> 62) & 0x3, 2);
    let later = source.next_id();
    assert!(later > fresh);
}

#[test]
fn error_messages() {
    assert_eq!(Error::AppendError.message(), "Failed to append to the outbox queue");
    assert_eq!(Error::PublishError.message(), "Failed to publish item");
    assert_eq!(Error::TokioPostgresError("x".to_string()).message(), "Failed to write item to the queue");
    assert_eq!(Error::SerializationError("x".to_string()).message(), "Failed to serialize event payload");
    assert_eq!(Error::DieselError("x".to_string()).message(), "Failed to write item to the queue");
    assert_eq!(Error::SetupQueueError("x".to_string()).message(), "Failed to setup queue");
    assert_eq!(Error::SqlxError("x".to_string()).message(), "Failed to write item to the queue");
    assert_eq!(Error::KafkaError("x".to_string()).message(), "Kafka error");
    assert_eq!(Error::KafkaError("x".to_string()).clone(), Error::KafkaError("x".to_string()));
}
