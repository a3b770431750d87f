//! Per-connection frame-count oracle.
//!
//! Each open connection keeps a private snapshot of the WAL index header.
//! The snapshot is reloaded only by an explicit refresh (the start of a read
//! transaction), never by merely opening the connection and never by writes
//! made on other connections. The oracle makes that staleness explicit: the
//! cached count is a diagnostic, and a freshness-sensitive count is obtained
//! only through a refresh.

use vstd::prelude::*;

use crate::wal::WalState;

verus! {

/// Whether this connection's snapshot has been reloaded from the shared WAL
/// index since the connection was opened or since it last went stale.
#[derive(Clone, Copy, Debug, PartialEq, Eq, Structural)]
pub enum Freshness {
    /// The snapshot may be arbitrarily far behind the shared WAL file.
    Stale,
    /// The snapshot was current as of this connection's last refresh; any
    /// later commit by another connection makes it stale again.
    Refreshed,
}

/// Errors surfaced by the oracle. None is retried here: retry policy belongs
/// to the replication layer consuming the counts.
#[derive(Clone, Copy, Debug, PartialEq, Eq, Structural)]
pub enum OracleError {
    /// The connection handle is invalid or already closed.
    ConnectionError,
    /// The refresh read itself failed (I/O error, lock failure, corrupt or
    /// missing WAL): freshness is unknown and no count is returned.
    RefreshFailed,
    /// A write statement did not complete.
    WriteFailed,
}

/// A frame count obtained from an explicit refresh. Push decisions take this
/// type, never a raw cached count: holding a `FrameCount` is the evidence
/// that a refresh produced the value.
#[derive(Clone, Copy, Debug, PartialEq, Eq, Structural)]
pub struct FrameCount {
    /// The number of valid WAL frames observed by the refresh.
    pub value: u32,
}

/// What the engine reported for a forced refresh read: the frame count it
/// returned, or a failure of the read itself.
#[derive(Clone, Copy, Debug, PartialEq, Eq, Structural)]
pub enum ReadOutcome {
    /// The refresh read completed and the engine reported this many frames.
    Count(u32),
    /// The refresh read failed before a count could be taken.
    IoError,
}

/// What the engine reported for a write statement issued on this connection:
/// the frame count after the commit, or a failure.
#[derive(Clone, Copy, Debug, PartialEq, Eq, Structural)]
pub enum WriteOutcome {
    /// The write committed and the engine reported this many frames.
    Committed(u32),
    /// The write statement did not complete.
    Failed,
}

/// One connection to a WAL-mode database, tracked by the oracle: an open
/// flag and the connection's private snapshot of the WAL index header.
#[derive(Clone, Copy, Debug, PartialEq, Eq, Structural)]
pub struct Connection {
    /// Whether the handle is still usable.
    pub is_open: bool,
    /// Frame count as of this connection's last read of the WAL index
    /// header; zero if it has never read it.
    pub snapshot_frames: u32,
    /// Generation of the WAL file as of that same last read.
    pub snapshot_generation: u32,
    /// Whether the snapshot is known to have been reloaded; only an explicit
    /// refresh on this very connection sets it to `Refreshed`.
    pub freshness: Freshness,
}

impl Connection {
    /// The state of a connection immediately after it is opened: open, with
    /// an absent (all-zero) header snapshot that no read has filled yet.
    pub open spec fn spec_opened() -> Connection {
        Connection {
            is_open: true,
            snapshot_frames: 0,
            snapshot_generation: 0,
            freshness: Freshness::Stale,
        }
    }

    /// The snapshot agrees with the shared WAL file: same frame count, same
    /// generation. Every commit by another connection breaks this again.
    pub open spec fn snapshot_current(self, wal: WalState) -> bool {
        self.snapshot_frames == wal.frame_count && self.snapshot_generation == wal.generation
    }

    /// The connection state after a refresh against the shared WAL file:
    /// an open connection reloads its snapshot from the file; a closed one
    /// is untouched.
    pub open spec fn spec_refresh_state(self, wal: WalState) -> Connection {
        if self.is_open {
            Connection {
                is_open: true,
                snapshot_frames: wal.frame_count,
                snapshot_generation: wal.generation,
                freshness: Freshness::Refreshed,
            }
        } else {
            self
        }
    }

    /// What a refresh against the shared WAL file returns: the file's true
    /// current frame count, or `ConnectionError` on a closed handle.
    pub open spec fn spec_refresh_result(self, wal: WalState) -> Result<FrameCount, OracleError> {
        if self.is_open {
            Ok(FrameCount { value: wal.frame_count })
        } else {
            Err(OracleError::ConnectionError)
        }
    }

    /// The connection state after applying what the engine reported for a
    /// refresh read: a reported count becomes the new snapshot; a failed
    /// read leaves the snapshot in place but marks it stale, so nothing
    /// downstream mistakes it for fresh.
    pub open spec fn spec_apply_refresh_state(self, outcome: ReadOutcome) -> Connection {
        if self.is_open {
            match outcome {
                ReadOutcome::Count(n) => Connection {
                    is_open: true,
                    snapshot_frames: n,
                    snapshot_generation: self.snapshot_generation,
                    freshness: Freshness::Refreshed,
                },
                ReadOutcome::IoError => Connection {
                    is_open: true,
                    snapshot_frames: self.snapshot_frames,
                    snapshot_generation: self.snapshot_generation,
                    freshness: Freshness::Stale,
                },
            }
        } else {
            self
        }
    }

    /// What applying a refresh read outcome returns: the reported count, or
    /// `RefreshFailed` for a failed read — never a fallback to the cached
    /// snapshot — or `ConnectionError` on a closed handle.
    pub open spec fn spec_apply_refresh_result(self, outcome: ReadOutcome) -> Result<
        FrameCount,
        OracleError,
    > {
        if self.is_open {
            match outcome {
                ReadOutcome::Count(n) => Ok(FrameCount { value: n }),
                ReadOutcome::IoError => Err(OracleError::RefreshFailed),
            }
        } else {
            Err(OracleError::ConnectionError)
        }
    }

    /// The connection state after applying what the engine reported for a
    /// write on this connection: a commit leaves the writer holding the
    /// current header, a failed write leaves the snapshot stale.
    pub open spec fn spec_apply_write_state(self, outcome: WriteOutcome) -> Connection {
        if self.is_open {
            match outcome {
                WriteOutcome::Committed(n) => Connection {
                    is_open: true,
                    snapshot_frames: n,
                    snapshot_generation: self.snapshot_generation,
                    freshness: Freshness::Refreshed,
                },
                WriteOutcome::Failed => Connection {
                    is_open: true,
                    snapshot_frames: self.snapshot_frames,
                    snapshot_generation: self.snapshot_generation,
                    freshness: Freshness::Stale,
                },
            }
        } else {
            self
        }
    }

    /// What applying a write outcome returns: success, `WriteFailed` for a
    /// write that did not complete, or `ConnectionError` on a closed handle.
    pub open spec fn spec_apply_write_result(self, outcome: WriteOutcome) -> Result<
        (),
        OracleError,
    > {
        if self.is_open {
            match outcome {
                WriteOutcome::Committed(_) => Ok(()),
                WriteOutcome::Failed => Err(OracleError::WriteFailed),
            }
        } else {
            Err(OracleError::ConnectionError)
        }
    }

    /// Open a new connection. The WAL index header is not read at open time:
    /// the snapshot starts absent and stale, whatever the WAL file holds.
    pub fn new() -> (c: Connection)
        ensures
            c == Connection::spec_opened(),
    {
        Connection {
            is_open: true,
            snapshot_frames: 0,
            snapshot_generation: 0,
            freshness: Freshness::Stale,
        }
    }

    /// The frame count from whatever snapshot this connection currently
    /// holds, without forcing a refresh. Diagnostic and telemetry use only:
    /// it may be arbitrarily stale, so it is returned as a bare integer, not
    /// as a `FrameCount`, and must never drive a push decision.
    pub fn cached_count(&self) -> (r: u32)
        ensures
            r == self.snapshot_frames,
    {
        self.snapshot_frames
    }

    /// Reload this connection's snapshot from the shared WAL file, then
    /// return the frame count. The returned count is the file's true current
    /// count, never one computed from a snapshot older than the last commit.
    pub fn refresh_and_count(&mut self, wal: &WalState) -> (r: Result<FrameCount, OracleError>)
        ensures
            *final(self) == old(self).spec_refresh_state(*wal),
            r == old(self).spec_refresh_result(*wal),
    {
        if self.is_open {
            self.snapshot_frames = wal.frame_count;
            self.snapshot_generation = wal.generation;
            self.freshness = Freshness::Refreshed;
            Ok(FrameCount { value: self.snapshot_frames })
        } else {
            Err(OracleError::ConnectionError)
        }
    }

    /// Commit `frames` new frames through this connection: the shared WAL
    /// grows, and the writer itself ends holding the current header (a
    /// writer reads the index header in order to write). Other connections'
    /// snapshots are untouched and thereby go stale.
    pub fn commit(&mut self, wal: &mut WalState, frames: u32) -> (r: Result<(), OracleError>)
        requires
            old(self).is_open ==> old(wal).frame_count + frames <= u32::MAX,
        ensures
            old(self).is_open ==> {
                &&& r == Ok::<(), OracleError>(())
                &&& *final(wal) == old(wal).spec_committed(frames)
                &&& *final(self) == old(self).spec_refresh_state(*final(wal))
            },
            !old(self).is_open ==> {
                &&& r == Err::<(), OracleError>(OracleError::ConnectionError)
                &&& *final(wal) == *old(wal)
                &&& *final(self) == *old(self)
            },
    {
        if self.is_open {
            wal.commit(frames);
            self.snapshot_frames = wal.frame_count;
            self.snapshot_generation = wal.generation;
            self.freshness = Freshness::Refreshed;
            Ok(())
        } else {
            Err(OracleError::ConnectionError)
        }
    }

    /// Apply what the engine reported for a forced refresh read on this
    /// connection. A reported count becomes the new snapshot and is returned
    /// as a `FrameCount`; a failed read surfaces `RefreshFailed` and marks
    /// the snapshot stale — the cached value is never returned in its place.
    pub fn apply_refresh_outcome(&mut self, outcome: ReadOutcome) -> (r: Result<
        FrameCount,
        OracleError,
    >)
        ensures
            *final(self) == old(self).spec_apply_refresh_state(outcome),
            r == old(self).spec_apply_refresh_result(outcome),
    {
        if self.is_open {
            match outcome {
                ReadOutcome::Count(n) => {
                    self.snapshot_frames = n;
                    self.freshness = Freshness::Refreshed;
                    Ok(FrameCount { value: n })
                },
                ReadOutcome::IoError => {
                    self.freshness = Freshness::Stale;
                    Err(OracleError::RefreshFailed)
                },
            }
        } else {
            Err(OracleError::ConnectionError)
        }
    }

    /// Apply what the engine reported for a write statement issued on this
    /// connection. A commit leaves the writer holding the engine's reported
    /// count; a write that did not complete surfaces `WriteFailed` and
    /// leaves the snapshot stale.
    pub fn apply_write_outcome(&mut self, outcome: WriteOutcome) -> (r: Result<(), OracleError>)
        ensures
            *final(self) == old(self).spec_apply_write_state(outcome),
            r == old(self).spec_apply_write_result(outcome),
    {
        if self.is_open {
            match outcome {
                WriteOutcome::Committed(n) => {
                    self.snapshot_frames = n;
                    self.freshness = Freshness::Refreshed;
                    Ok(())
                },
                WriteOutcome::Failed => {
                    self.freshness = Freshness::Stale;
                    Err(OracleError::WriteFailed)
                },
            }
        } else {
            Err(OracleError::ConnectionError)
        }
    }

    /// Close the connection. The snapshot is discarded with it: a closed
    /// handle can never again produce a count.
    pub fn close(&mut self)
        ensures
            *final(self) == (Connection { is_open: false, ..*old(self) }),
    {
        self.is_open = false;
    }
}

} // verus!
