//! The SQL text of the queue: the table, its polling index and status check,
//! the insert of an event and the notification that announces it.

use vstd::prelude::*;

verus! {

/// The channel on which an append announces the new event's id.
pub const NOTIFY_CHANNEL: &'static str = "routbox_notify";

/// Creates the `outbox_queue` table if it does not exist yet.
pub const CREATE_TABLE_SQL: &'static str = "
CREATE TABLE IF NOT EXISTS outbox_queue (
    id                  uuid NOT NULL PRIMARY KEY,
    aggregate_id        uuid NOT NULL,
    event_type          text NOT NULL,
    payload             jsonb NOT NULL,
    status              text NOT NULL DEFAULT 'PENDING',
    created_at          timestamptz NOT NULL DEFAULT NOW(),
    updated_at          timestamptz NOT NULL DEFAULT NOW(),
    processing_attempts integer NOT NULL DEFAULT 0,
    last_error          text NULL
)";

/// Creates the polling index on `(status, updated_at)` if it does not exist yet.
pub const CREATE_INDEX_SQL: &'static str = "
CREATE INDEX IF NOT EXISTS idx_outbox_queue_polling ON outbox_queue (status, updated_at)";

/// Drops the status check, if there is one, so that it can be added again.
pub const DROP_CONSTRAINT_SQL: &'static str = "
ALTER TABLE outbox_queue DROP CONSTRAINT IF EXISTS status_check";

/// Restricts `status` to the four states of an outbox event.
pub const ADD_CONSTRAINT_SQL: &'static str = "
ALTER TABLE outbox_queue ADD CONSTRAINT status_check CHECK (status IN ('PENDING', 'PROCESSING', 'SENT', 'FAILED'))";

/// Inserts the four columns that an append fills in, bound in the order
/// id, aggregate id, event type, payload.
pub const INSERT_EVENT_SQL: &'static str = "INSERT INTO outbox_queue (id, aggregate_id, event_type, payload) VALUES ($1, $2, $3, $4)";

/// Sends a notification on channel `$1` with payload `$2`.
pub const NOTIFY_SQL: &'static str = "SELECT pg_notify($1, $2)";

/// What ends each statement of the migration script.
pub const STATEMENT_END: &'static str = ";\n";

/// The statements of the queue's setup, in the order in which they run.
pub open spec fn setup_statements() -> Seq<Seq<char>> {
    seq![CREATE_TABLE_SQL@, CREATE_INDEX_SQL@, DROP_CONSTRAINT_SQL@, ADD_CONSTRAINT_SQL@]
}

/// A script that runs each of `statements` in turn, each ended by `;`.
pub open spec fn script(statements: Seq<Seq<char>>) -> Seq<char>
    decreases statements.len(),
{
    if statements.len() == 0 {
        Seq::empty()
    } else {
        script(statements.drop_last()) + statements.last() + STATEMENT_END@
    }
}

/// The migration script: the setup statements as one batch.
pub open spec fn queue_migration() -> Seq<char> {
    script(setup_statements())
}

/// The complete, idempotent DDL for the `outbox_queue` table: the table, its
/// polling index on `(status, updated_at)` and its status check, each created
/// only where it does not exist yet.
///
/// It can be run by hand or from an application's migration tool; the
/// `setup_queue` helpers of the queues run the same statements.
pub fn create_queue_migration() -> (migration: String)
    ensures
        migration@ == queue_migration(),
        migration@ == CREATE_TABLE_SQL@ + STATEMENT_END@ + CREATE_INDEX_SQL@ + STATEMENT_END@
            + DROP_CONSTRAINT_SQL@ + STATEMENT_END@ + ADD_CONSTRAINT_SQL@ + STATEMENT_END@,
{
    let mut migration = String::new();
    migration.append(CREATE_TABLE_SQL);
    migration.append(STATEMENT_END);
    migration.append(CREATE_INDEX_SQL);
    migration.append(STATEMENT_END);
    migration.append(DROP_CONSTRAINT_SQL);
    migration.append(STATEMENT_END);
    migration.append(ADD_CONSTRAINT_SQL);
    migration.append(STATEMENT_END);
    proof {
        let s = setup_statements();
        assert(s.drop_last().drop_last().drop_last().drop_last() =~= Seq::<Seq<char>>::empty());
        assert(s.drop_last().drop_last().drop_last() =~= seq![CREATE_TABLE_SQL@]);
        assert(s.drop_last().drop_last() =~= seq![CREATE_TABLE_SQL@, CREATE_INDEX_SQL@]);
        assert(s.drop_last() =~= seq![CREATE_TABLE_SQL@, CREATE_INDEX_SQL@, DROP_CONSTRAINT_SQL@]);
        reveal_with_fuel(script, 5);
        assert(migration@ =~= queue_migration());
    }
    migration
}

} // verus!
