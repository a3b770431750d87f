//! A WAL frame-freshness tracker.
//!
//! A replication client that syncs a WAL-mode database must decide whether
//! the remote store is behind by comparing the number of frames committed to
//! the local write-ahead log against the last frame confirmed durable
//! remotely. Each connection, however, only holds a private, lazily refreshed
//! snapshot of the WAL index header: the snapshot is reloaded when a read
//! transaction starts, never as a side effect of opening the connection or of
//! writes made by other connections. A connection that never reads therefore
//! reports a stale frame count forever, and a sync loop driven by that count
//! silently stops pushing.
//!
//! This crate models that subsystem and proves the tracker correct: a count
//! used for a push decision always comes from an explicit refresh, a failed
//! refresh surfaces an error instead of a stale value, and the cached count
//! is available only as a diagnostic.

pub mod laws;
pub mod oracle;
pub mod sync;
pub mod wal;
