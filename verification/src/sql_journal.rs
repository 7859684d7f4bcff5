//! The store's calls into SQLite, each of which adds what it did to a
//! journal. The journal's record is private to this module: only a call
//! that was made can add to it.

use vstd::prelude::*;
use rusqlite::types::Value;
use rusqlite::{Connection, Transaction};

verus! {

/// `rusqlite::Connection`, an open SQLite database, held opaque.
#[verifier::external_type_specification]
#[verifier::external_body]
pub struct ExConnection(rusqlite::Connection);

/// `rusqlite::Transaction`, a transaction in progress, held opaque.
#[verifier::external_type_specification]
#[verifier::external_body]
pub struct ExTransaction<'conn>(rusqlite::Transaction<'conn>);

/// `rusqlite::Error`, held opaque.
#[verifier::external_type_specification]
#[verifier::external_body]
pub struct ExSqlError(rusqlite::Error);

/// `rusqlite::types::Value`, one SQL value; its variants are read as they
/// are declared, so that rows can be taken apart in verified code.
#[verifier::external_type_specification]
pub struct ExSqlValue(rusqlite::types::Value);

/// `std::path::PathBuf`, a file system path, held opaque.
#[verifier::external_type_specification]
#[verifier::external_body]
pub struct ExPathBuf(std::path::PathBuf);

/// An SQL value as a plain value.
pub enum SqlView {
    Null,
    Integer(i64),
    Real,
    Text(Seq<char>),
    Blob(Seq<u8>),
}

/// The plain value of an SQL value.
pub open spec fn sql_view(v: Value) -> SqlView {
    match v {
        Value::Null => SqlView::Null,
        Value::Integer(i) => SqlView::Integer(i),
        Value::Real(_) => SqlView::Real,
        Value::Text(t) => SqlView::Text(t@),
        Value::Blob(b) => SqlView::Blob(b@),
    }
}

/// The plain values of a row, or of the parameters of a statement.
pub open spec fn values_view(values: Seq<Value>) -> Seq<SqlView> {
    values.map_values(|v: Value| sql_view(v))
}

/// The plain values of a query's rows.
pub open spec fn rows_view(rows: Seq<Vec<Value>>) -> Seq<Seq<SqlView>> {
    rows.map_values(|r: Vec<Value>| values_view(r@))
}

/// One call into SQLite that succeeded: setting the busy timeout (in
/// seconds), running a batch of statements, beginning an IMMEDIATE
/// transaction, a query with its parameters and the rows it gave, a
/// statement with its parameters, or a commit.
pub enum StoreStep {
    BusyTimeout(u64),
    Batch(Seq<char>),
    Begin,
    Query(Seq<char>, Seq<SqlView>, Seq<Seq<SqlView>>),
    Execute(Seq<char>, Seq<SqlView>),
    Commit,
}

/// The record of the calls into SQLite that succeeded, in order. Only the
/// functions of this module that make those calls add to it.
pub struct Journal {
    steps: Ghost<Seq<StoreStep>>,
}

impl Journal {
    /// The calls recorded so far.
    pub closed spec fn steps(&self) -> Seq<StoreStep> {
        self.steps@
    }

    /// A journal that has recorded nothing.
    pub(crate) fn new() -> (res: Journal)
        ensures
            res.steps() == Seq::<StoreStep>::empty(),
    {
        Journal { steps: Ghost(Seq::empty()) }
    }
}

/// Opens (or creates) the SQLite database at `path` with
/// `rusqlite::Connection::open`. Nothing is promised of the outcome: it
/// depends on the file system.
#[verifier::external_body]
pub(crate) fn open_connection(path: &std::path::PathBuf) -> (res: Result<Connection, rusqlite::Error>) {
    Connection::open(path)
}

/// Sets how long `rusqlite::Connection::busy_timeout` lets statements wait
/// for a lock, in whole seconds, and records it where it succeeds. That
/// function panics on a timeout of more than `i32::MAX` milliseconds, which
/// the `requires` rules out.
#[verifier::external_body]
pub(crate) fn set_busy_timeout(conn: &Connection, secs: u64, journal: &mut Journal) -> (res: Result<
    (),
    rusqlite::Error,
>)
    requires
        secs * 1000 <= i32::MAX,
    ensures
        res is Ok ==> final(journal).steps() == old(journal).steps().push(StoreStep::BusyTimeout(secs)),
        res is Err ==> final(journal).steps() == old(journal).steps(),
{
    conn.busy_timeout(std::time::Duration::from_secs(secs))
}

/// Runs a batch of SQL statements with
/// `rusqlite::Connection::execute_batch`, and records it where it
/// succeeds; whether it does depends on the database.
#[verifier::external_body]
pub(crate) fn execute_batch(conn: &Connection, sql: &str, journal: &mut Journal) -> (res: Result<
    (),
    rusqlite::Error,
>)
    ensures
        res is Ok ==> final(journal).steps() == old(journal).steps().push(StoreStep::Batch(sql@)),
        res is Err ==> final(journal).steps() == old(journal).steps(),
{
    conn.execute_batch(sql)
}

/// Starts an IMMEDIATE transaction with
/// `rusqlite::Connection::transaction_with_behavior`, and records it where
/// it succeeds. Dropping the transaction without committing it rolls it
/// back.
#[verifier::external_body]
pub(crate) fn begin_immediate<'c>(conn: &'c mut Connection, journal: &mut Journal) -> (res: Result<
    Transaction<'c>,
    rusqlite::Error,
>)
    ensures
        res is Ok ==> final(journal).steps() == old(journal).steps().push(StoreStep::Begin),
        res is Err ==> final(journal).steps() == old(journal).steps(),
{
    conn.transaction_with_behavior(rusqlite::TransactionBehavior::Immediate)
}

/// Commits a transaction with `rusqlite::Transaction::commit`, and records
/// it where it succeeds.
#[verifier::external_body]
pub(crate) fn commit(tx: Transaction<'_>, journal: &mut Journal) -> (res: Result<(), rusqlite::Error>)
    ensures
        res is Ok ==> final(journal).steps() == old(journal).steps().push(StoreStep::Commit),
        res is Err ==> final(journal).steps() == old(journal).steps(),
{
    tx.commit()
}

/// The connection a transaction runs on (`Transaction`'s `Deref`).
#[verifier::external_body]
pub(crate) fn transaction_connection<'a>(tx: &'a Transaction<'_>) -> (res: &'a Connection) {
    tx
}

/// Runs one SQL statement with positional parameters through
/// `rusqlite::Connection::execute`, giving the number of rows it changed,
/// and records the statement and its parameters where it succeeds.
#[verifier::external_body]
pub(crate) fn execute(conn: &Connection, sql: &str, params: Vec<Value>, journal: &mut Journal) -> (res:
    Result<usize, rusqlite::Error>)
    ensures
        res is Ok ==> final(journal).steps() == old(journal).steps().push(
            StoreStep::Execute(sql@, values_view(params@)),
        ),
        res is Err ==> final(journal).steps() == old(journal).steps(),
{
    conn.execute(sql, rusqlite::params_from_iter(params))
}

/// Runs one SQL query with positional parameters through
/// `rusqlite::Connection::prepare`, `rusqlite::Statement::query` and
/// `rusqlite::Row::get`, giving each row as the values of its columns, in
/// the order in which SQLite returns them, and records the query, its
/// parameters and those rows where it succeeds. What the rows hold depends
/// on the database and is not stated.
#[verifier::external_body]
pub(crate) fn query_rows(conn: &Connection, sql: &str, params: Vec<Value>, journal: &mut Journal) -> (res:
    Result<Vec<Vec<Value>>, rusqlite::Error>)
    ensures
        res matches Ok(rows) ==> final(journal).steps() == old(journal).steps().push(
            StoreStep::Query(sql@, values_view(params@), rows_view(rows@)),
        ),
        res is Err ==> final(journal).steps() == old(journal).steps(),
{
    let mut stmt = conn.prepare(sql)?;
    let width = stmt.column_count();
    let mut rows = stmt.query(rusqlite::params_from_iter(params))?;
    let mut out = Vec::new();
    while let Some(row) = rows.next()? {
        let mut values = Vec::new();
        for i in 0..width {
            values.push(row.get::<usize, Value>(i)?);
        }
        out.push(values);
    }
    Ok(out)
}

} // verus!
