//! Persistence and time-ordering core of a blockchain validator.
//!
//! The crate has two halves.  The storage half models an append-only,
//! slot-indexed ledger kept in a log-structured column store: it fixes the
//! byte layout of every column key, the wire format of the per-slot records,
//! the per-column configuration handed to the storage engine, and the
//! retention rule that background compaction applies.  The sequencing half is
//! a proof-of-history sequencer: a hash-chain state machine whose ticks and
//! event-mixed entries give a verifiable ordering independent of wall clocks.
//!
//! Everything that decides or computes lives here with a contract.  The
//! storage engine itself, sockets and process bootstrap are external
//! collaborators driven from unverified glue outside this crate.

pub mod cli;
pub mod codec;
pub mod columns;
pub mod hashing;
pub mod keys;
pub mod meta;
pub mod metrics;
pub mod net;
pub mod options;
pub mod poh;
pub mod retention;
pub mod slot_stats;
pub mod store;
