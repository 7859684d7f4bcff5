use vstd::prelude::*;
use vstd::string::*;
use crate::labels::{is_safe_label, safe_label};
use crate::ledger_laws::law_reserve_within_capacity;
use crate::ledger::{
    granted_lease, slots_total,
    release_from, release_spec, reserve_spec, valid_reservation, reservation_is_valid, live_at,
    live_leases, lease_views, Decision, DecisionView, Lease, LeaseView, LedgerView,
    ResourceLedger,
};
use rusqlite::types::Value;
use rusqlite::Connection;
use crate::sql_journal::{
    begin_immediate, commit, execute, execute_batch, open_connection, query_rows, rows_view,
    set_busy_timeout, sql_view, transaction_connection, values_view, Journal, SqlView, StoreStep,
};

verus! {

/// Why a durable capacity operation could not complete.
#[derive(Debug)]
pub enum StoreError {
    /// SQLite refused or failed a statement.
    Database(rusqlite::Error),
    /// A stored row does not hold the values that its columns should.
    MalformedRow,
    /// A row that the operation reads is not there.
    MissingRow,
}

/// The tables and the index that the durable capacity store keeps.
pub const SCHEMA_SQL: &'static str = "PRAGMA journal_mode=WAL; PRAGMA synchronous=FULL;
     CREATE TABLE IF NOT EXISTS resources (name TEXT PRIMARY KEY, slots INTEGER NOT NULL CHECK(slots > 0), generation INTEGER NOT NULL DEFAULT 0);
     CREATE TABLE IF NOT EXISTS leases (owner TEXT NOT NULL, resource TEXT NOT NULL, slots INTEGER NOT NULL, generation INTEGER NOT NULL, created_ms INTEGER NOT NULL, expires_ms INTEGER NOT NULL, active INTEGER NOT NULL, PRIMARY KEY(owner, resource, generation));
     CREATE INDEX IF NOT EXISTS active_leases ON leases(resource, active, expires_ms);";

/// Seconds that a statement waits for another connection's lock.
pub const BUSY_TIMEOUT_SECS: u64 = 5;

/// Reads the row of a resource: its capacity and its last generation.
pub const RESOURCE_ROW_SQL: &'static str = "SELECT slots, generation FROM resources WHERE name=?1";

/// Reads the capacity of a resource.
pub const RESOURCE_SLOTS_SQL: &'static str = "SELECT slots FROM resources WHERE name=?1";

/// Registers a resource, unless it is registered already.
pub const INSERT_RESOURCE_SQL: &'static str = "INSERT OR IGNORE INTO resources(name, slots) VALUES (?1, ?2)";

/// Reads the active leases of a resource, in generation order.
pub const ACTIVE_LEASES_SQL: &'static str = "SELECT owner, resource, slots, generation, created_ms, expires_ms FROM leases WHERE resource=?1 AND active=1 ORDER BY generation";

/// Retires the active leases of a resource that have expired.
pub const EXPIRE_LEASES_SQL: &'static str = "UPDATE leases SET active=0 WHERE resource=?1 AND active=1 AND expires_ms<=?2";

/// Records the last generation of a resource.
pub const SET_GENERATION_SQL: &'static str = "UPDATE resources SET generation=?2 WHERE name=?1";

/// Stores a granted lease as active.
pub const INSERT_LEASE_SQL: &'static str = "INSERT INTO leases(owner,resource,slots,generation,created_ms,expires_ms,active) VALUES (?1,?2,?3,?4,?5,?6,1)";

/// Retires a released lease.
pub const RELEASE_LEASE_SQL: &'static str = "UPDATE leases SET active=0 WHERE owner=?1 AND resource=?2 AND generation=?3";

/// Turns a database error into the store's own.
fn db<T>(r: Result<T, rusqlite::Error>) -> (res: Result<T, StoreError>)
    ensures
        r matches Ok(v) ==> res matches Ok(w) && w == v,
        r is Err ==> res matches Err(StoreError::Database(_)),
{
    match r {
        Ok(v) => Ok(v),
        Err(e) => Err(StoreError::Database(e)),
    }
}

/// The text in column `i` of a row.
fn text_at(row: &Vec<Value>, i: usize) -> (res: Result<String, StoreError>)
    ensures
        res matches Ok(t) ==> i < row@.len() && sql_view(row@[i as int]) == SqlView::Text(t@),
        res is Err ==> (res matches Err(StoreError::MalformedRow)) && !(i < row@.len() && sql_view(
            row@[i as int],
        ) is Text),
{
    if i >= row.len() {
        return Err(StoreError::MalformedRow);
    }
    match &row[i] {
        Value::Text(t) => Ok(t.clone()),
        _ => Err(StoreError::MalformedRow),
    }
}

/// The integer in column `i` of a row.
fn int_at(row: &Vec<Value>, i: usize) -> (res: Result<i64, StoreError>)
    ensures
        res matches Ok(v) ==> i < row@.len() && sql_view(row@[i as int]) == SqlView::Integer(v),
        res is Err ==> (res matches Err(StoreError::MalformedRow)) && !(i < row@.len() && sql_view(
            row@[i as int],
        ) is Integer),
{
    if i >= row.len() {
        return Err(StoreError::MalformedRow);
    }
    match &row[i] {
        Value::Integer(v) => Ok(*v),
        _ => Err(StoreError::MalformedRow),
    }
}

/// The integer in column `i` of a row, where it fits in a `u32`.
fn u32_at(row: &Vec<Value>, i: usize) -> (res: Result<u32, StoreError>)
    ensures
        res matches Ok(v) ==> i < row@.len() && sql_view(row@[i as int]) == SqlView::Integer(
            v as i64,
        ),
        res is Err ==> (res matches Err(StoreError::MalformedRow)) && !(i < row@.len() && (sql_view(
            row@[i as int],
        ) matches SqlView::Integer(n) && 0 <= n <= u32::MAX)),
{
    let v = int_at(row, i)?;
    if v < 0 || v > u32::MAX as i64 {
        return Err(StoreError::MalformedRow);
    }
    Ok(v as u32)
}

/// The lease that a row of `leases` holds, its columns being owner,
/// resource, slots, generation, created_ms and expires_ms: two texts and
/// four integers, the slots within a `u32`. Any other row holds none.
pub open spec fn lease_of_row(row: Seq<SqlView>) -> Option<LeaseView> {
    if row.len() >= 6 {
        match (row[0], row[1], row[2], row[3], row[4], row[5]) {
            (
                SqlView::Text(owner),
                SqlView::Text(resource),
                SqlView::Integer(slots),
                SqlView::Integer(generation),
                SqlView::Integer(created_ms),
                SqlView::Integer(expires_ms),
            ) => if 0 <= slots <= u32::MAX {
                Some(
                    LeaseView {
                        owner,
                        resource,
                        slots: slots as u32,
                        generation,
                        created_ms,
                        expires_ms,
                    },
                )
            } else {
                None
            },
            _ => None,
        }
    } else {
        None
    }
}

/// The leases that rows of `leases` hold, in row order, where every row
/// holds one.
pub open spec fn leases_of_rows(rows: Seq<Seq<SqlView>>) -> Option<Seq<LeaseView>>
    decreases rows.len(),
{
    if rows.len() == 0 {
        Some(Seq::empty())
    } else {
        match (leases_of_rows(rows.drop_last()), lease_of_row(rows.last())) {
            (Some(s), Some(l)) => Some(s.push(l)),
            _ => None,
        }
    }
}

/// The capacity and the last generation that a row of `resources` holds:
/// an integer within a `u32`, then an integer.
pub open spec fn resource_of_row(row: Seq<SqlView>) -> Option<(u32, i64)> {
    if row.len() >= 2 {
        match (row[0], row[1]) {
            (SqlView::Integer(slots), SqlView::Integer(generation)) => if 0 <= slots <= u32::MAX {
                Some((slots as u32, generation))
            } else {
                None
            },
            _ => None,
        }
    } else {
        None
    }
}

/// The capacity that a row of `resources` holds: an integer within a
/// `u32`.
pub open spec fn slots_of_row(row: Seq<SqlView>) -> Option<u32> {
    if row.len() >= 1 {
        match row[0] {
            SqlView::Integer(slots) => if 0 <= slots <= u32::MAX {
                Some(slots as u32)
            } else {
                None
            },
            _ => None,
        }
    } else {
        None
    }
}

/// The lease that a row of `leases` holds (see `lease_of_row`); a row that
/// holds none is malformed.
fn parse_lease(row: &Vec<Value>) -> (res: Result<Lease, StoreError>)
    ensures
        match res {
            Ok(l) => lease_of_row(values_view(row@)) == Some(l@),
            Err(e) => lease_of_row(values_view(row@)) is None && e is MalformedRow,
        },
{
    let ghost rv = values_view(row@);
    let owner = text_at(row, 0)?;
    let resource = text_at(row, 1)?;
    let slots = u32_at(row, 2)?;
    let generation = int_at(row, 3)?;
    let created_ms = int_at(row, 4)?;
    let expires_ms = int_at(row, 5)?;
    Ok(Lease { owner, resource, slots, generation, created_ms, expires_ms })
}

/// The leases that rows of `leases` hold (see `leases_of_rows`); rows of
/// which one holds no lease are malformed.
pub fn leases_from_rows(rows: &Vec<Vec<Value>>) -> (res: Result<Vec<Lease>, StoreError>)
    ensures
        match res {
            Ok(v) => leases_of_rows(rows_view(rows@)) == Some(lease_views(v@)),
            Err(e) => leases_of_rows(rows_view(rows@)) is None && e is MalformedRow,
        },
{
    let ghost all = rows_view(rows@);
    let mut leases: Vec<Lease> = Vec::new();
    let mut i: usize = 0;
    while i < rows.len()
        invariant
            0 <= i <= rows@.len(),
            all == rows_view(rows@),
            leases_of_rows(all.take(i as int)) == Some(lease_views(leases@)),
        decreases rows@.len() - i,
    {
        assert(all.take(i + 1).drop_last() =~= all.take(i as int));
        assert(all.take(i + 1).last() == values_view(rows@[i as int]@));
        match parse_lease(&rows[i]) {
            Ok(lease) => {
                let ghost before = leases@;
                leases.push(lease);
                assert(lease_views(leases@) =~= lease_views(before).push(leases@.last()@));
            },
            Err(e) => {
                proof {
                    lemma_leases_of_rows_prefix_none(all, i + 1);
                }
                return Err(e);
            },
        }
        i = i + 1;
    }
    assert(all.take(rows@.len() as int) =~= all);
    Ok(leases)
}

/// Rows of which a prefix holds a row without a lease hold no leases.
proof fn lemma_leases_of_rows_prefix_none(rows: Seq<Seq<SqlView>>, n: int)
    requires
        0 <= n <= rows.len(),
        leases_of_rows(rows.take(n)) is None,
    ensures
        leases_of_rows(rows) is None,
    decreases rows.len() - n,
{
    if n < rows.len() {
        assert(rows.take(n + 1).drop_last() =~= rows.take(n));
        lemma_leases_of_rows_prefix_none(rows, n + 1);
    } else {
        assert(rows.take(n) =~= rows);
    }
}

/// The statements that follow a reservation decision on `resource`: the
/// expired leases are retired, and a granted lease is stored together with
/// its generation; then the transaction is committed.
pub open spec fn reserve_writes(resource: Seq<char>, now_ms: i64, decision: DecisionView) -> Seq<
    StoreStep,
> {
    seq![
        StoreStep::Execute(
            EXPIRE_LEASES_SQL@,
            seq![SqlView::Text(resource), SqlView::Integer(now_ms)],
        ),
    ] + match decision {
        DecisionView::Granted(l) => seq![
            StoreStep::Execute(
                SET_GENERATION_SQL@,
                seq![SqlView::Text(resource), SqlView::Integer(l.generation)],
            ),
            StoreStep::Execute(
                INSERT_LEASE_SQL@,
                seq![
                    SqlView::Text(l.owner),
                    SqlView::Text(l.resource),
                    SqlView::Integer(l.slots as i64),
                    SqlView::Integer(l.generation),
                    SqlView::Integer(l.created_ms),
                    SqlView::Integer(l.expires_ms),
                ],
            ),
        ],
        _ => Seq::<StoreStep>::empty(),
    } + seq![StoreStep::Commit]
}

/// Whether a step is the query `sql` with the resource name as its one
/// parameter.
pub open spec fn reads(step: StoreStep, sql: Seq<char>, resource: Seq<char>) -> bool {
    match step {
        StoreStep::Query(s, p, _) => s == sql && p == seq![SqlView::Text(resource)],
        _ => false,
    }
}

/// The rows that a query step gave.
pub open spec fn rows_of(step: StoreStep) -> Seq<Seq<SqlView>> {
    match step {
        StoreStep::Query(_, _, rows) => rows,
        _ => Seq::empty(),
    }
}


/// The calls recorded after `before`, where `before` is a prefix of
/// `after`.
pub open spec fn steps_since(before: Seq<StoreStep>, after: Seq<StoreStep>) -> Seq<StoreStep> {
    after.skip(before.len() as int)
}

/// Whether `after` is `before` with one more step, which is the query `sql`
/// on the resource name.
pub open spec fn read_once(before: Seq<StoreStep>, after: Seq<StoreStep>, sql: Seq<char>, resource: Seq<char>) -> bool {
    &&& after == before.push(after.last())
    &&& reads(after.last(), sql, resource)
}

/// Reads the active leases stored for `resource`, in generation order (see
/// `ACTIVE_LEASES_SQL`), recording the query in `journal`. It fails only
/// when the database does, which records nothing, or when a row that the
/// query gave holds no lease.
fn load_active_leases(conn: &Connection, resource: &str, journal: &mut Journal) -> (res: Result<
    Vec<Lease>,
    StoreError,
>)
    ensures
        match res {
            Ok(v) => read_once(old(journal).steps(), final(journal).steps(), ACTIVE_LEASES_SQL@, resource@)
                && leases_of_rows(rows_of(final(journal).steps().last())) == Some(lease_views(v@)),
            Err(StoreError::MalformedRow) => read_once(
                old(journal).steps(),
                final(journal).steps(),
                ACTIVE_LEASES_SQL@,
                resource@,
            ) && leases_of_rows(rows_of(final(journal).steps().last())) is None,
            Err(StoreError::Database(_)) => final(journal).steps() == old(journal).steps(),
            Err(StoreError::MissingRow) => false,
        },
{
    let params = vec![Value::Text(resource.to_owned())];
    assert(values_view(params@) =~= seq![SqlView::Text(resource@)]);
    let rows = db(query_rows(conn, ACTIVE_LEASES_SQL, params, journal))?;
    let leases = leases_from_rows(&rows)?;
    Ok(leases)
}

/// What a valid reservation on the store does with SQLite, call by call,
/// and what it answers. It begins a transaction and reads the resource's
/// row; where there is none it answers `unknown_resource`, writes nothing
/// and commits nothing. Otherwise it reads the active leases, decides as
/// `reserve_spec` says on the ledger that the two reads give (see
/// `ledger_read`), runs the statements of `reserve_writes` and commits.
pub open spec fn reserve_record(
    owner: &str,
    resource: &str,
    slots: u32,
    now_ms: i64,
    ttl_ms: i64,
    steps: Seq<StoreStep>,
    decision: DecisionView,
) -> bool {
    &&& steps.len() >= 2
    &&& steps[0] == StoreStep::Begin
    &&& reads(steps[1], RESOURCE_ROW_SQL@, resource@)
    &&& if rows_of(steps[1]).len() == 0 {
        steps.len() == 2 && decision == DecisionView::Refused("unknown_resource"@)
    } else {
        &&& steps.len() >= 3
        &&& resource_of_row(rows_of(steps[1])[0]) is Some
        &&& reads(steps[2], ACTIVE_LEASES_SQL@, resource@)
        &&& leases_of_rows(rows_of(steps[2])) is Some
        &&& decision == reserve_spec(ledger_read(steps), owner, resource, slots, now_ms, ttl_ms).0
        &&& steps.subrange(3, steps.len() as int) == reserve_writes(resource@, now_ms, decision)
    }
}

/// How a valid reservation on the store fails on what it read: it began a
/// transaction and read the resource's row, which holds no capacity and
/// generation (see `resource_of_row`); or, the row holding them, it read the
/// active leases, and a row of those holds no lease.
pub open spec fn reserve_malformed(resource: &str, steps: Seq<StoreStep>) -> bool {
    &&& steps.len() >= 2
    &&& steps[0] == StoreStep::Begin
    &&& reads(steps[1], RESOURCE_ROW_SQL@, resource@)
    &&& rows_of(steps[1]).len() > 0
    &&& if resource_of_row(rows_of(steps[1])[0]) is None {
        steps.len() == 2
    } else {
        &&& steps.len() == 3
        &&& reads(steps[2], ACTIVE_LEASES_SQL@, resource@)
        &&& leases_of_rows(rows_of(steps[2])) is None
    }
}

/// The statements that follow a release decision: the released lease is
/// retired, and the transaction is committed.
pub open spec fn release_writes(owner: Seq<char>, resource: Seq<char>, generation: i64, released: bool) -> Seq<
    StoreStep,
> {
    if released {
        seq![
            StoreStep::Execute(
                RELEASE_LEASE_SQL@,
                seq![SqlView::Text(owner), SqlView::Text(resource), SqlView::Integer(generation)],
            ),
            StoreStep::Commit,
        ]
    } else {
        seq![StoreStep::Commit]
    }
}

/// What releasing on the store does with SQLite, call by call, and what
/// it answers: it begins a transaction, reads the active leases of
/// `resource`, answers as `release_spec` says of them, retires the lease
/// where it is released, and commits.
pub open spec fn release_record(
    owner: &str,
    resource: &str,
    generation: i64,
    now_ms: i64,
    steps: Seq<StoreStep>,
    answer: Seq<char>,
) -> bool {
    &&& steps.len() >= 2
    &&& steps[0] == StoreStep::Begin
    &&& reads(steps[1], ACTIVE_LEASES_SQL@, resource@)
    &&& leases_of_rows(rows_of(steps[1])) is Some
    &&& {
        let active = leases_of_rows(rows_of(steps[1]))->0;
        let (a, left) = release_spec(active, owner@, generation, now_ms);
        &&& answer == a
        &&& steps.subrange(2, steps.len() as int) == release_writes(
            owner@,
            resource@,
            generation,
            left.len() < active.len(),
        )
    }
}

/// How releasing on the store fails on what it read: it began a
/// transaction and read the active leases of `resource`, and a row of those
/// holds no lease.
pub open spec fn release_malformed(resource: &str, steps: Seq<StoreStep>) -> bool {
    &&& steps.len() == 2
    &&& steps[0] == StoreStep::Begin
    &&& reads(steps[1], ACTIVE_LEASES_SQL@, resource@)
    &&& leases_of_rows(rows_of(steps[1])) is None
}

/// The calls with which registering a resource begins: a transaction, the
/// insert of the resource unless it is there, and the read of its stored
/// capacity.
pub open spec fn configure_reads(resource: &str, slots: u32, steps: Seq<StoreStep>) -> bool {
    &&& steps.len() >= 3
    &&& steps[0] == StoreStep::Begin
    &&& steps[1] == StoreStep::Execute(
        INSERT_RESOURCE_SQL@,
        seq![SqlView::Text(resource@), SqlView::Integer(slots as i64)],
    )
    &&& reads(steps[2], RESOURCE_SLOTS_SQL@, resource@)
}

/// What registering a resource does with SQLite, call by call, and what it
/// answers: after `configure_reads`, it commits and tells whether the
/// stored capacity is `slots`.
pub open spec fn configure_record(resource: &str, slots: u32, steps: Seq<StoreStep>, answer: bool) -> bool {
    &&& configure_reads(resource, slots, steps)
    &&& steps.len() == 4
    &&& rows_of(steps[2]).len() > 0
    &&& slots_of_row(rows_of(steps[2])[0]) is Some
    &&& answer == (slots_of_row(rows_of(steps[2])[0])->0 == slots)
    &&& steps[3] == StoreStep::Commit
}

/// How registering a resource fails on what it read, after
/// `configure_reads`: the read gave no row (`missing`), or its row holds no
/// capacity.
pub open spec fn configure_unread(resource: &str, slots: u32, steps: Seq<StoreStep>, missing: bool) -> bool {
    &&& configure_reads(resource, slots, steps)
    &&& steps.len() == 3
    &&& if missing {
        rows_of(steps[2]).len() == 0
    } else {
        rows_of(steps[2]).len() > 0 && slots_of_row(rows_of(steps[2])[0]) is None
    }
}

/// What listing the live leases does with SQLite, and what it gives: it
/// reads the active leases of `resource` and keeps those live at `now_ms`.
pub open spec fn active_record(resource: &str, now_ms: i64, steps: Seq<StoreStep>, live: Seq<LeaseView>) -> bool {
    &&& steps.len() == 1
    &&& reads(steps[0], ACTIVE_LEASES_SQL@, resource@)
    &&& leases_of_rows(rows_of(steps[0])) is Some
    &&& live == live_leases(leases_of_rows(rows_of(steps[0]))->0, now_ms)
}

/// The ledger that a reservation on the store reads: the capacity and
/// generation of the resource row, and the leases of the active rows.
pub open spec fn ledger_read(steps: Seq<StoreStep>) -> LedgerView {
    let (capacity, generation) = resource_of_row(rows_of(steps[1])[0])->0;
    LedgerView { capacity, generation, active: leases_of_rows(rows_of(steps[2]))->0 }
}

/// A grant on the store fits in the capacity that it read: the slots of
/// the leases it read that are still live, with the new lease, are within
/// the stored capacity. The new lease takes the generation after the stored
/// one, which is what the store then records; the lease it stores is the
/// one it grants, and it commits.
pub proof fn law_store_grant_fits(
    owner: &str,
    resource: &str,
    slots: u32,
    now_ms: i64,
    ttl_ms: i64,
    steps: Seq<StoreStep>,
    lease: LeaseView,
)
    requires
        reserve_record(owner, resource, slots, now_ms, ttl_ms, steps, DecisionView::Granted(lease)),
    ensures
        rows_of(steps[1]).len() > 0,
        slots_total(live_leases(ledger_read(steps).active, now_ms)) + slots <= ledger_read(
            steps,
        ).capacity,
        lease.generation == ledger_read(steps).generation + 1,
        lease.slots == slots && lease.owner == owner@ && lease.resource == resource@,
        lease.created_ms == now_ms && lease.expires_ms == now_ms + ttl_ms,
        steps[4] == StoreStep::Execute(
            SET_GENERATION_SQL@,
            seq![SqlView::Text(resource@), SqlView::Integer(lease.generation)],
        ),
        steps[5] == StoreStep::Execute(
            INSERT_LEASE_SQL@,
            seq![
                SqlView::Text(owner@),
                SqlView::Text(resource@),
                SqlView::Integer(slots as i64),
                SqlView::Integer(lease.generation),
                SqlView::Integer(now_ms),
                SqlView::Integer(lease.expires_ms),
            ],
        ),
        steps.len() == 7 && steps[6] == StoreStep::Commit,
{
    reveal_strlit("unknown_resource");
    let l = ledger_read(steps);
    law_reserve_within_capacity(l, owner, resource, slots, now_ms, ttl_ms);
    let live = live_leases(l.active, now_ms);
    let g = granted_lease(l, owner, resource, slots, now_ms, ttl_ms);
    assert(live.push(g).drop_last() =~= live);
    let w = reserve_writes(resource@, now_ms, DecisionView::Granted(lease));
    assert(w.len() == 4);
    assert(steps.subrange(3, steps.len() as int) == w);
    assert(steps.len() == 7);
    assert(steps[4] == w[1]);
    assert(steps[5] == w[2]);
    assert(steps[6] == w[3]);
}

/// A capacity ledger kept in a SQLite database, so that its resources and
/// leases outlive the process and are shared by every connection to the
/// same file. Each operation runs in one IMMEDIATE transaction and decides
/// with the verified rules of `ResourceLedger` and `release_from`.
pub struct DurableCapacity {
    connection: Connection,
    journal: Journal,
}

impl DurableCapacity {
    /// The calls into SQLite that this store has made and that succeeded,
    /// in order, as its journal recorded them.
    pub closed spec fn history(&self) -> Seq<StoreStep> {
        self.journal.steps()
    }

    /// Opens the store at `path`, sets the busy timeout to
    /// `BUSY_TIMEOUT_SECS` seconds and runs `SCHEMA_SQL`, which creates the
    /// tables where they are missing. Whether it succeeds depends on the
    /// file system; it fails only with the database's own error.
    pub fn open(path: &std::path::PathBuf) -> (res: Result<Self, StoreError>)
        ensures
            res matches Ok(s) ==> s.history() == seq![
                StoreStep::BusyTimeout(BUSY_TIMEOUT_SECS),
                StoreStep::Batch(SCHEMA_SQL@),
            ],
            res matches Err(e) ==> e is Database,
    {
        let connection = db(open_connection(path))?;
        let mut journal = Journal::new();
        db(set_busy_timeout(&connection, BUSY_TIMEOUT_SECS, &mut journal))?;
        db(execute_batch(&connection, SCHEMA_SQL, &mut journal))?;
        assert(journal.steps() =~= seq![
            StoreStep::BusyTimeout(BUSY_TIMEOUT_SECS),
            StoreStep::Batch(SCHEMA_SQL@),
        ]);
        Ok(DurableCapacity { connection, journal })
    }

    /// Registers `resource` with `slots` slots, where it is not registered
    /// yet, and tells whether the stored capacity is `slots` (see
    /// `configure_record`). A resource whose name is not a safe label, or
    /// zero slots, gives `false` and touches nothing. It fails when the
    /// database does, or when the stored capacity cannot be read (see
    /// `configure_unread`).
    pub fn configure(&mut self, resource: &str, slots: u32) -> (res: Result<bool, StoreError>)
        ensures
            old(self).history().is_prefix_of(final(self).history()),
            !(is_safe_label(resource.spec_bytes()) && slots != 0) ==> (res matches Ok(false))
                && final(self).history() == old(self).history(),
            is_safe_label(resource.spec_bytes()) && slots != 0 ==> match res {
                Ok(b) => configure_record(
                    resource,
                    slots,
                    steps_since(old(self).history(), final(self).history()),
                    b,
                ),
                Err(StoreError::MissingRow) => configure_unread(
                    resource,
                    slots,
                    steps_since(old(self).history(), final(self).history()),
                    true,
                ),
                Err(StoreError::MalformedRow) => configure_unread(
                    resource,
                    slots,
                    steps_since(old(self).history(), final(self).history()),
                    false,
                ),
                Err(StoreError::Database(_)) => true,
            },
    {
        if !safe_label(resource) || slots == 0 {
            assert(self.history().is_prefix_of(self.history()));
            return Ok(false);
        }
        let ghost start = self.journal.steps();
        let tx = db(begin_immediate(&mut self.connection, &mut self.journal))?;
        let conn = transaction_connection(&tx);
        let params = vec![Value::Text(resource.to_owned()), Value::Integer(slots as i64)];
        assert(values_view(params@) =~= seq![
            SqlView::Text(resource@),
            SqlView::Integer(slots as i64),
        ]);
        db(execute(conn, INSERT_RESOURCE_SQL, params, &mut self.journal))?;
        let params = vec![Value::Text(resource.to_owned())];
        assert(values_view(params@) =~= seq![SqlView::Text(resource@)]);
        let rows = db(query_rows(conn, RESOURCE_SLOTS_SQL, params, &mut self.journal))?;
        let ghost read = self.journal.steps();
        assert(read.take(start.len() as int) =~= start);
        assert(steps_since(start, read) =~= seq![
            StoreStep::Begin,
            read[start.len() + 1int],
            read[start.len() + 2int],
        ]);
        if rows.len() == 0 {
            return Err(StoreError::MissingRow);
        }
        assert(rows_view(rows@)[0] == values_view(rows@[0]@));
        let existing = u32_at(&rows[0], 0)?;
        db(commit(tx, &mut self.journal))?;
        let ghost done = self.journal.steps();
        assert(done.take(start.len() as int) =~= start);
        assert(steps_since(start, done) =~= steps_since(start, read).push(StoreStep::Commit));
        let answer = existing == slots;
        Ok(answer)
    }

    /// Decides a reservation of `slots` slots of `resource` for `owner`, from
    /// `now_ms` for `ttl_ms` milliseconds. A malformed request (see
    /// `valid_reservation`) is refused before the database is read and
    /// touches nothing; otherwise the store reads, decides and writes as
    /// `reserve_record` says. It fails when the database does, or when a row
    /// that it read is malformed (see `reserve_malformed`).
    pub fn reserve(
        &mut self,
        owner: &str,
        resource: &str,
        slots: u32,
        now_ms: i64,
        ttl_ms: i64,
    ) -> (res: Result<Decision, StoreError>)
        ensures
            old(self).history().is_prefix_of(final(self).history()),
            !valid_reservation(owner, resource, slots, now_ms, ttl_ms) ==> (res matches Ok(d) && d@
                == DecisionView::Refused("invalid_request"@)) && final(self).history() == old(
                self,
            ).history(),
            valid_reservation(owner, resource, slots, now_ms, ttl_ms) ==> match res {
                Ok(d) => reserve_record(
                    owner,
                    resource,
                    slots,
                    now_ms,
                    ttl_ms,
                    steps_since(old(self).history(), final(self).history()),
                    d@,
                ),
                Err(StoreError::MalformedRow) => reserve_malformed(
                    resource,
                    steps_since(old(self).history(), final(self).history()),
                ),
                Err(StoreError::MissingRow) => false,
                Err(StoreError::Database(_)) => true,
            },
    {
        proof {
            reveal_strlit("invalid_request");
        }
        if !reservation_is_valid(owner, resource, slots, now_ms, ttl_ms) {
            assert(self.history().is_prefix_of(self.history()));
            return Ok(Decision::Refused("invalid_request"));
        }
        let ghost start = self.journal.steps();
        let tx = db(begin_immediate(&mut self.connection, &mut self.journal))?;
        let conn = transaction_connection(&tx);
        let params = vec![Value::Text(resource.to_owned())];
        assert(values_view(params@) =~= seq![SqlView::Text(resource@)]);
        let rows = db(query_rows(conn, RESOURCE_ROW_SQL, params, &mut self.journal))?;
        let ghost read = self.journal.steps();
        assert(read.take(start.len() as int) =~= start);
        assert(steps_since(start, read) =~= seq![StoreStep::Begin, read[start.len() + 1int]]);
        if rows.len() == 0 {
            return Ok(Decision::Refused("unknown_resource"));
        }
        assert(rows_view(rows@)[0] == values_view(rows@[0]@));
        let capacity = u32_at(&rows[0], 0)?;
        let generation = int_at(&rows[0], 1)?;
        let loaded = load_active_leases(conn, resource, &mut self.journal);
        let ghost read_all = self.journal.steps();
        assert(read_all.take(start.len() as int) =~= start);
        assert((loaded is Ok || (loaded matches Err(StoreError::MalformedRow))) ==> steps_since(
            start,
            read_all,
        ) =~= steps_since(start, read).push(read_all.last()));
        let active = loaded?;
        let mut ledger = ResourceLedger { capacity, generation, active };
        let ghost before = ledger@;
        assert(before == ledger_read(steps_since(start, read_all)));
        let decision = ledger.reserve(owner, resource, slots, now_ms, ttl_ms);
        let params = vec![Value::Text(resource.to_owned()), Value::Integer(now_ms)];
        assert(values_view(params@) =~= seq![SqlView::Text(resource@), SqlView::Integer(now_ms)]);
        db(execute(conn, EXPIRE_LEASES_SQL, params, &mut self.journal))?;
        match &decision {
            Decision::Granted(lease) => {
                let params = vec![
                    Value::Text(resource.to_owned()),
                    Value::Integer(lease.generation),
                ];
                assert(values_view(params@) =~= seq![
                    SqlView::Text(resource@),
                    SqlView::Integer(lease.generation),
                ]);
                db(execute(conn, SET_GENERATION_SQL, params, &mut self.journal))?;
                let params = vec![
                    Value::Text(lease.owner.clone()),
                    Value::Text(lease.resource.clone()),
                    Value::Integer(lease.slots as i64),
                    Value::Integer(lease.generation),
                    Value::Integer(lease.created_ms),
                    Value::Integer(lease.expires_ms),
                ];
                assert(values_view(params@) =~= seq![
                    SqlView::Text(lease.owner@),
                    SqlView::Text(lease.resource@),
                    SqlView::Integer(lease.slots as i64),
                    SqlView::Integer(lease.generation),
                    SqlView::Integer(lease.created_ms),
                    SqlView::Integer(lease.expires_ms),
                ]);
                db(execute(conn, INSERT_LEASE_SQL, params, &mut self.journal))?;
            },
            _ => {},
        }
        db(commit(tx, &mut self.journal))?;
        let ghost done = self.journal.steps();
        assert(done.take(start.len() as int) =~= start);
        assert(done.subrange(0, read_all.len() as int) =~= read_all);
        assert(steps_since(start, done).subrange(3, steps_since(start, done).len() as int)
            =~= reserve_writes(resource@, now_ms, decision@));
        Ok(decision)
    }

    /// Releases the lease that `owner` holds on `resource` at `generation`,
    /// reading, deciding and writing as `release_record` says. It fails when
    /// the database does, or when a row that it read holds no lease (see
    /// `release_malformed`).
    pub fn release(&mut self, owner: &str, resource: &str, generation: i64, now_ms: i64) -> (res:
        Result<&'static str, StoreError>)
        ensures
            old(self).history().is_prefix_of(final(self).history()),
            match res {
                Ok(a) => release_record(
                    owner,
                    resource,
                    generation,
                    now_ms,
                    steps_since(old(self).history(), final(self).history()),
                    a@,
                ),
                Err(StoreError::MalformedRow) => release_malformed(
                    resource,
                    steps_since(old(self).history(), final(self).history()),
                ),
                Err(StoreError::MissingRow) => false,
                Err(StoreError::Database(_)) => true,
            },
    {
        let ghost start = self.journal.steps();
        let tx = db(begin_immediate(&mut self.connection, &mut self.journal))?;
        let conn = transaction_connection(&tx);
        let loaded = load_active_leases(conn, resource, &mut self.journal);
        let ghost read = self.journal.steps();
        assert(read.take(start.len() as int) =~= start);
        assert((loaded is Ok || (loaded matches Err(StoreError::MalformedRow))) ==> steps_since(
            start,
            read,
        ) =~= seq![StoreStep::Begin, read.last()]);
        let mut active = loaded?;
        let ghost before = lease_views(active@);
        let count = active.len();
        let answer = release_from(&mut active, owner, generation, now_ms);
        let ghost released = active.len() < count;
        assert(released == (lease_views(active@).len() < before.len()));
        if active.len() < count {
            let params = vec![
                Value::Text(owner.to_owned()),
                Value::Text(resource.to_owned()),
                Value::Integer(generation),
            ];
            assert(values_view(params@) =~= seq![
                SqlView::Text(owner@),
                SqlView::Text(resource@),
                SqlView::Integer(generation),
            ]);
            db(execute(conn, RELEASE_LEASE_SQL, params, &mut self.journal))?;
        }
        db(commit(tx, &mut self.journal))?;
        let ghost done = self.journal.steps();
        assert(done.take(start.len() as int) =~= start);
        assert(done.subrange(0, read.len() as int) =~= read);
        assert(steps_since(start, done).subrange(2, steps_since(start, done).len() as int)
            =~= release_writes(owner@, resource@, generation, released));
        Ok(answer)
    }

    /// The leases of `resource` that are active and live at `now_ms`, in
    /// generation order, read as `active_record` says. It fails when the
    /// database does, or when a row that it read holds no lease.
    pub fn active(&mut self, resource: &str, now_ms: i64) -> (res: Result<Vec<Lease>, StoreError>)
        ensures
            old(self).history().is_prefix_of(final(self).history()),
            match res {
                Ok(v) => active_record(
                    resource,
                    now_ms,
                    steps_since(old(self).history(), final(self).history()),
                    lease_views(v@),
                ),
                Err(StoreError::MalformedRow) => {
                    let steps = steps_since(old(self).history(), final(self).history());
                    &&& steps.len() == 1
                    &&& reads(steps[0], ACTIVE_LEASES_SQL@, resource@)
                    &&& leases_of_rows(rows_of(steps[0])) is None
                },
                Err(StoreError::MissingRow) => false,
                Err(StoreError::Database(_)) => true,
            },
    {
        let ghost start = self.journal.steps();
        let loaded = load_active_leases(&self.connection, resource, &mut self.journal);
        let ghost read = self.journal.steps();
        assert(read.take(start.len() as int) =~= start);
        assert((loaded is Ok || (loaded matches Err(StoreError::MalformedRow))) ==> steps_since(
            start,
            read,
        ) =~= seq![read.last()]);
        let leases = loaded?;
        let live = live_at(&leases, now_ms);
        Ok(live)
    }
}

} // verus!
