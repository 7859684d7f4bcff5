# orchestrator

The control-plane logic of an agent orchestrator, written in Verus with its
contracts proved.

- `scheduling`: where a job runs (`decide_capacity_action`), when idle remote
  workers are powered off (`decide_idle_action`), and the one-line text of a
  decision (`describe_decision`).
- `messaging`: topics, workflow states and message envelopes; an in-memory
  broker behind the `MessageProducer` / `MessageConsumer` traits; retry and
  dead-letter routing of failed deliveries (`next_delivery_attempt`).
- `messaging_laws`: what delivery and draining promise across calls.
- `ledger`: capacity leases of one resource (`ResourceLedger::reserve`,
  `release_from`), stated by `reserve_spec` and `release_spec`.
- `ledger_laws`: capacity is never exceeded, generations only grow, a replay
  gives the same lease back, releases answer as they should, and an owner
  never holds two active leases.
- `sql_journal`: the calls into SQLite through `rusqlite`. Each call that
  succeeds adds itself to a ghost journal (the statement, its parameters,
  the rows it gave, a begin or a commit); nothing else can add to it.
- `durable_capacity`: the ledger kept in SQLite, each operation in one
  IMMEDIATE transaction. The contracts say, over the journal, which calls
  each operation makes, and how it decides from the rows it read. What
  SQLite gives back for those calls is not stated: it depends on the
  database file and on the other connections to it.
- `review`: the review exchange (`review`), with its request encoding, its
  response reading through `serde_json` (with repeated keys refused), and
  its retry policy, stated over the record of exchanges that a transport
  may keep.
- `config`, `labels`, `text`: settings from environment variables, safe
  labels, decimal text and `u32` parsing.

`app/main.rs` is the program that reads the environment and prints the
settings and sample decisions.
