//! The storage engine: one durable table of unique keys, each holding one value.
//!
//! The statements below run against the database elsewhere; here they are
//! given their meaning over `Table`, and the laws of the engine are proved
//! over that meaning.
use vstd::prelude::*;

use crate::models::{KeyValue, LoadValueRequest, SaveValueRequest};

verus! {

/// Creates the table, and does nothing where it already exists.
pub const CREATE_TABLE_SQL: &'static str =
    "CREATE TABLE IF NOT EXISTS key_values (key TEXT PRIMARY KEY, value TEXT NOT NULL);";

/// Inserts a record, or overwrites the value of the record with the same key.
pub const UPSERT_SQL: &'static str =
    "INSERT INTO key_values (key, value) VALUES (?1, ?2) ON CONFLICT(key) DO UPDATE SET value=excluded.value;";

/// Reads the record with exactly the given key.
pub const SELECT_SQL: &'static str = "SELECT key, value FROM key_values WHERE key = ?1;";

/// The contents of the table: at most one value for each key.
pub type Table = Map<Seq<char>, Seq<char>>;

/// The table once the schema is in place. `None` stands for a store that has
/// no table yet; an existing table is kept as it is.
pub open spec fn with_schema(store: Option<Table>) -> Table {
    match store {
        Some(t) => t,
        None => Map::empty(),
    }
}

/// The value stored under `key`, if any.
pub open spec fn lookup(t: Table, key: Seq<char>) -> Option<Seq<char>> {
    if t.contains_key(key) {
        Some(t[key])
    } else {
        None
    }
}

/// The ways a storage operation fails, each with the underlying detail.
pub enum StoreError {
    /// The backing store cannot be opened or created.
    Connection(String),
    /// The schema cannot be established.
    Migration(String),
    /// A write did not commit.
    Write(String),
    /// A read failed.
    Read(String),
}

impl StoreError {
    /// What went wrong, in words.
    pub open spec fn context(self) -> Seq<char> {
        match self {
            StoreError::Connection(_) => "Failed to connect to the database: "@,
            StoreError::Migration(_) => "Failed to migrate the database: "@,
            StoreError::Write(_) => "Failed to save the key-value pair: "@,
            StoreError::Read(_) => "Failed to load the key-value pair: "@,
        }
    }

    /// The underlying detail.
    pub open spec fn detail(self) -> Seq<char> {
        match self {
            StoreError::Connection(d) => d@,
            StoreError::Migration(d) => d@,
            StoreError::Write(d) => d@,
            StoreError::Read(d) => d@,
        }
    }

    /// Whether the error stops the process at startup.
    pub fn is_fatal(&self) -> (r: bool)
        ensures
            r == (self is Connection || self is Migration),
    {
        match self {
            StoreError::Connection(_) | StoreError::Migration(_) => true,
            _ => false,
        }
    }

    /// The diagnostic line for the server's log: the context, then the detail.
    pub fn describe(&self) -> (r: String)
        ensures
            r@ == self.context() + self.detail(),
    {
        let (context, detail) = match self {
            StoreError::Connection(d) => ("Failed to connect to the database: ", d),
            StoreError::Migration(d) => ("Failed to migrate the database: ", d),
            StoreError::Write(d) => ("Failed to save the key-value pair: ", d),
            StoreError::Read(d) => ("Failed to load the key-value pair: ", d),
        };
        String::from_str(context).concat(detail.as_str())
    }
}

/// The address of the database file at `path`.
pub fn database_url(path: &str) -> (r: String)
    ensures
        r@ == "sqlite:"@ + path@,
{
    String::from_str("sqlite:").concat(path)
}

/// The value of the record that a lookup found, if it found one.
pub fn value_of(record: Option<KeyValue>) -> (r: Option<String>)
    ensures
        r == (match record {
            Some(kv) => Some(kv.value),
            None => None,
        }),
{
    match record {
        Some(kv) => Some(kv.value),
        None => None,
    }
}

/// One statement against the table, with its arguments.
pub enum StorageCall {
    Upsert { key: String, value: String },
    Lookup { key: String },
}

impl StorageCall {
    /// The table after the statement has run against `t`.
    pub open spec fn applied(self, t: Table) -> Table {
        match self {
            StorageCall::Upsert { key, value } => t.insert(key@, value@),
            StorageCall::Lookup { .. } => t,
        }
    }

    /// What the statement answers when it runs against `t`.
    pub open spec fn answer(self, t: Table) -> Option<Seq<char>> {
        match self {
            StorageCall::Upsert { .. } => None,
            StorageCall::Lookup { key } => lookup(t, key@),
        }
    }

    /// The upsert that stores a save request.
    pub open spec fn upsert_of(req: SaveValueRequest) -> StorageCall {
        StorageCall::Upsert { key: req.key, value: req.value }
    }

    /// The lookup that answers a load request.
    pub open spec fn lookup_of(req: LoadValueRequest) -> StorageCall {
        StorageCall::Lookup { key: req.key }
    }

    /// The SQL text that the statement runs.
    pub fn statement(&self) -> (r: &'static str)
        ensures
            r@ == (match self {
                StorageCall::Upsert { .. } => UPSERT_SQL@,
                StorageCall::Lookup { .. } => SELECT_SQL@,
            }),
    {
        match self {
            StorageCall::Upsert { .. } => UPSERT_SQL,
            StorageCall::Lookup { .. } => SELECT_SQL,
        }
    }
}

/// Setting up the schema twice leaves the same table as setting it up once,
/// and setting it up over an existing table keeps that table's records.
pub proof fn lemma_schema_idempotent(store: Option<Table>)
    ensures
        with_schema(Some(with_schema(store))) == with_schema(store),
        store is Some ==> with_schema(store) == store->0,
{
}

/// A save followed by a load of the same key answers the saved value.
pub proof fn lemma_round_trip(t: Table, save: SaveValueRequest, load: LoadValueRequest)
    requires
        load.key@ == save.key@,
    ensures
        StorageCall::lookup_of(load).answer(StorageCall::upsert_of(save).applied(t)) == Some(
            save.value@,
        ),
{
}

/// Two saves of one key leave a single record, holding the second value.
pub proof fn lemma_overwrite(
    t: Table,
    first: SaveValueRequest,
    second: SaveValueRequest,
    load: LoadValueRequest,
)
    requires
        second.key@ == first.key@,
        load.key@ == first.key@,
    ensures
        ({
            let after = StorageCall::upsert_of(second).applied(
                StorageCall::upsert_of(first).applied(t),
            );
            &&& StorageCall::lookup_of(load).answer(after) == Some(second.value@)
            &&& after.dom() == StorageCall::upsert_of(first).applied(t).dom()
        }),
{
    let once = StorageCall::upsert_of(first).applied(t);
    let after = StorageCall::upsert_of(second).applied(once);
    assert(after.dom() =~= once.dom());
}

/// A load on a freshly set up store finds nothing, whatever the key.
pub proof fn lemma_fresh_store_is_empty(load: LoadValueRequest)
    ensures
        StorageCall::lookup_of(load).answer(with_schema(None)) == None::<Seq<char>>,
{
}

/// Two saves of one key, run in either order, leave one of the two values,
/// whole: the value of whichever ran last.
pub proof fn lemma_serial_saves_same_key(
    t: Table,
    a: SaveValueRequest,
    b: SaveValueRequest,
    load: LoadValueRequest,
)
    requires
        b.key@ == a.key@,
        load.key@ == a.key@,
    ensures
        StorageCall::lookup_of(load).answer(
            StorageCall::upsert_of(b).applied(StorageCall::upsert_of(a).applied(t)),
        ) == Some(b.value@),
        StorageCall::lookup_of(load).answer(
            StorageCall::upsert_of(a).applied(StorageCall::upsert_of(b).applied(t)),
        ) == Some(a.value@),
{
}

/// Saves of two distinct keys do not interfere: either order gives the same
/// table, and each key answers its own value.
pub proof fn lemma_distinct_keys(
    t: Table,
    p: SaveValueRequest,
    q: SaveValueRequest,
    load_p: LoadValueRequest,
    load_q: LoadValueRequest,
)
    requires
        p.key@ != q.key@,
        load_p.key@ == p.key@,
        load_q.key@ == q.key@,
    ensures
        ({
            let pq = StorageCall::upsert_of(q).applied(StorageCall::upsert_of(p).applied(t));
            let qp = StorageCall::upsert_of(p).applied(StorageCall::upsert_of(q).applied(t));
            &&& pq == qp
            &&& StorageCall::lookup_of(load_p).answer(pq) == Some(p.value@)
            &&& StorageCall::lookup_of(load_q).answer(pq) == Some(q.value@)
        }),
{
    let pq = StorageCall::upsert_of(q).applied(StorageCall::upsert_of(p).applied(t));
    let qp = StorageCall::upsert_of(p).applied(StorageCall::upsert_of(q).applied(t));
    assert(pq =~= qp);
}

} // verus!
