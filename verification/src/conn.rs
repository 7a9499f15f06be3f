//! The storage handle: how the single-connection pool is opened, what it
//! checks before it leases its connection, and the schema it maintains.

use vstd::prelude::*;

verus! {

/// Why the store could not be opened or its connection not be leased.
#[derive(Clone, Copy, Debug, PartialEq, Eq, Structural)]
pub enum StorageError {
    /// Another process holds the store. Fatal at startup.
    ResourceLocked,
    /// The connection was still inside a transaction after every check.
    Busy,
}

/// What reports a store that another process holds.
pub const RESOURCE_LOCKED: &'static str = "Database is locked by another process.";

/// What reports a connection that stayed inside a transaction.
pub const BUSY: &'static str = "Failed to acquire connection after retries";

impl StorageError {
    /// The text that reports the error.
    pub fn message(&self) -> (r: &'static str)
        ensures
            r@ == match *self {
                StorageError::ResourceLocked => RESOURCE_LOCKED@,
                StorageError::Busy => BUSY@,
            },
    {
        match self {
            StorageError::ResourceLocked => RESOURCE_LOCKED,
            StorageError::Busy => BUSY,
        }
    }
}

/// What one check of a connection decides.
#[derive(Clone, Copy, Debug, PartialEq, Eq, Structural)]
pub enum AcquireStep {
    /// The connection is outside any transaction: lease it.
    Accept,
    /// Still inside a transaction, and checks are left: look again.
    Retry,
    /// Still inside a transaction after the last check: refuse the lease.
    Reject,
}

/// The check that runs each time the pool leases its connection: the
/// connection must be outside any transaction within `retries` looks.
#[derive(Clone, Copy, Debug, PartialEq, Eq, Structural)]
pub struct RetryConnectionCustomizer {
    pub retries: i32,
}

#[verifier::external_type_specification]
#[verifier::external_body]
pub struct ExConnection(rusqlite::Connection);

/// Calls `rusqlite::Connection::is_autocommit`. The answer depends on the
/// state of the connection, so nothing is claimed of it.
#[verifier::external_body]
fn is_autocommit(conn: &rusqlite::Connection) -> (r: bool)
{
    conn.is_autocommit()
}

impl RetryConnectionCustomizer {
    /// What the check numbered `check` (from 1) decides, given whether it
    /// found the connection in autocommit mode.
    pub open spec fn decides(self, check: int, autocommit: bool) -> AcquireStep {
        if autocommit {
            AcquireStep::Accept
        } else if check < self.retries {
            AcquireStep::Retry
        } else {
            AcquireStep::Reject
        }
    }

    /// Decides what follows the check numbered `check` (from 1).
    pub fn after_check(&self, check: i32, autocommit: bool) -> (r: AcquireStep)
        ensures
            r == self.decides(check as int, autocommit),
    {
        if autocommit {
            AcquireStep::Accept
        } else if check < self.retries {
            AcquireStep::Retry
        } else {
            AcquireStep::Reject
        }
    }

    /// Checks a connection that is about to be leased. Without any retry
    /// the lease is refused unseen; a refusal is always `Busy`.
    pub fn on_acquire(&self, conn: &rusqlite::Connection) -> (r: Result<(), StorageError>)
        ensures
            self.retries <= 0 ==> r is Err,
            r is Err ==> r == Err::<(), StorageError>(StorageError::Busy),
    {
        let mut check: i32 = 0;
        while check < self.retries
            invariant
                0 <= check,
            decreases self.retries - check,
        {
            check = check + 1;
            match self.after_check(check, is_autocommit(conn)) {
                AcquireStep::Accept => { return Ok(()); },
                AcquireStep::Retry => {},
                AcquireStep::Reject => { return Err(StorageError::Busy); },
            }
        }
        Err(StorageError::Busy)
    }
}

/// How many connections the pool holds: one, so that writers queue for the
/// lease instead of writing side by side.
pub const POOL_SIZE: u32 = 1;

/// How long, in seconds, a caller waits for the lease before it fails.
pub const LEASE_TIMEOUT_SECS: u64 = 5;

/// How many times a connection is checked before its lease is refused.
pub const ACQUIRE_RETRIES: i32 = 3;

/// How the pool is to be built.
#[derive(Clone, Copy, Debug, PartialEq, Eq, Structural)]
pub struct PoolSettings {
    pub max_size: u32,
    pub connection_timeout_secs: u64,
    pub customizer: RetryConnectionCustomizer,
}

/// Decides how the store is opened, given whether the probe found it locked
/// by another process: a locked store is refused before anything else is
/// done, else the pool is built with one connection, a lease timeout of
/// five seconds and three checks per lease.
pub fn create_pool(database_is_locked: bool) -> (r: Result<PoolSettings, StorageError>)
    ensures
        r == if database_is_locked {
            Err::<PoolSettings, StorageError>(StorageError::ResourceLocked)
        } else {
            Ok::<PoolSettings, StorageError>(
                PoolSettings {
                    max_size: POOL_SIZE,
                    connection_timeout_secs: LEASE_TIMEOUT_SECS,
                    customizer: RetryConnectionCustomizer { retries: ACQUIRE_RETRIES },
                },
            )
        },
{
    if database_is_locked {
        return Err(StorageError::ResourceLocked);
    }
    Ok(
        PoolSettings {
            max_size: POOL_SIZE,
            connection_timeout_secs: LEASE_TIMEOUT_SECS,
            customizer: RetryConnectionCustomizer { retries: ACQUIRE_RETRIES },
        },
    )
}

/// The audit log: every inbound message as received.
pub const MESSAGES_TABLE: &'static str =
    "CREATE TABLE IF NOT EXISTS messages (\n            id INTEGER PRIMARY KEY,\n            topic TEXT NOT NULL,\n            payload TEXT NOT NULL,\n            received_at TIMESTAMP DEFAULT CURRENT_TIMESTAMP\n        )";

/// The validated readings.
pub const SENSOR_DATA_TABLE: &'static str =
    "CREATE TABLE IF NOT EXISTS sensor_data (\n            id INTEGER PRIMARY KEY,\n            temperature DECIMAL(4,2) NOT NULL,\n            humidity INTEGER NOT NULL,\n            linkquality INTEGER NOT NULL,\n            device_id TEXT NOT NULL,\n            received_at TIMESTAMP DEFAULT CURRENT_TIMESTAMP\n        )";

/// The topics that the status page reports on.
pub const TOPIC_CONFIGURATION_TABLE: &'static str =
    "CREATE TABLE IF NOT EXISTS topic_configuration (\n        id INTEGER PRIMARY KEY,\n        topic_name TEXT NOT NULL,\n        status_type TEXT NOT NULL\n    )";

/// How a statement begins that creates a table only where it is absent.
pub const CREATE_IF_ABSENT: &'static str = "CREATE TABLE IF NOT EXISTS ";

/// The statements that set up the schema, in the order in which they run:
/// the audit log, the readings, the topic configuration. Each creates its
/// table only where it is absent, so running them again changes nothing.
pub fn setup_database() -> (r: Vec<&'static str>)
    ensures
        r@ == seq![MESSAGES_TABLE, SENSOR_DATA_TABLE, TOPIC_CONFIGURATION_TABLE],
        forall|i: int| 0 <= i < r.len() ==> CREATE_IF_ABSENT@.is_prefix_of(#[trigger] r[i]@),
{
    let mut statements: Vec<&'static str> = Vec::new();
    statements.push(MESSAGES_TABLE);
    statements.push(SENSOR_DATA_TABLE);
    statements.push(TOPIC_CONFIGURATION_TABLE);
    proof {
        reveal_strlit("CREATE TABLE IF NOT EXISTS ");
        reveal_strlit(
            "CREATE TABLE IF NOT EXISTS messages (\n            id INTEGER PRIMARY KEY,\n            topic TEXT NOT NULL,\n            payload TEXT NOT NULL,\n            received_at TIMESTAMP DEFAULT CURRENT_TIMESTAMP\n        )",
        );
        reveal_strlit(
            "CREATE TABLE IF NOT EXISTS sensor_data (\n            id INTEGER PRIMARY KEY,\n            temperature DECIMAL(4,2) NOT NULL,\n            humidity INTEGER NOT NULL,\n            linkquality INTEGER NOT NULL,\n            device_id TEXT NOT NULL,\n            received_at TIMESTAMP DEFAULT CURRENT_TIMESTAMP\n        )",
        );
        reveal_strlit(
            "CREATE TABLE IF NOT EXISTS topic_configuration (\n        id INTEGER PRIMARY KEY,\n        topic_name TEXT NOT NULL,\n        status_type TEXT NOT NULL\n    )",
        );
        assert(CREATE_IF_ABSENT@.is_prefix_of(MESSAGES_TABLE@));
        assert(CREATE_IF_ABSENT@.is_prefix_of(SENSOR_DATA_TABLE@));
        assert(CREATE_IF_ABSENT@.is_prefix_of(TOPIC_CONFIGURATION_TABLE@));
    }
    statements
}

} // verus!
