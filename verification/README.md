# routbox

A transactional outbox for PostgreSQL with a Kafka relay.

- `src/` is the verified library: the `outbox_queue` DDL and migration, the
  steps each queue (`diesel`, `diesel-async`, `tokio-postgres`, prepared
  `tokio-postgres`, `sqlx`) hands to its database driver to set up the table or
  append an event, the run of those steps (in order, ending at the first
  failure with the driver's error), the records of the Kafka relay, and the
  UUID helpers that the steps and records use.
- `app/` holds the drivers: the `OutboxQueue` and `OutboxRelay` traits, the
  code that performs each step on a `diesel`, `diesel-async`,
  `tokio-postgres` or `sqlx` connection, and the `rdkafka` producer.
- `tests/` runs the library on concrete events and driver results.
