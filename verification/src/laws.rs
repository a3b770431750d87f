//! The guarantees of the tracker, stated and proved over the model.

use vstd::prelude::*;

use crate::oracle::Connection;
use crate::wal::WalState;

verus! {

/// Immediately after opening, a connection's cached count is the count as of
/// its last read of the WAL index header — it has never read it, so zero —
/// and not the WAL file's true current count: whenever the file holds any
/// frames at all, the cached count understates it.
pub proof fn lemma_cached_count_after_open(wal: WalState)
    ensures
        Connection::spec_opened().snapshot_frames == 0,
        wal.frame_count > 0 ==> Connection::spec_opened().snapshot_frames != wal.frame_count,
{
}

/// However many commits other connections have made, a refresh on an open
/// connection succeeds and returns a count at least as large as the frames
/// committed to the WAL file at the moment the refresh began: a refreshed
/// count never understates.
pub proof fn lemma_refresh_never_understates(c: Connection, wal: WalState)
    requires
        c.is_open,
    ensures
        c.spec_refresh_result(wal) is Ok,
        c.spec_refresh_result(wal) matches Ok(count) ==> count.value >= wal.frame_count,
{
}

/// Refreshing is idempotent: with no intervening writes, a second refresh
/// returns the same value as the first and leaves the connection in the same
/// state.
pub proof fn lemma_refresh_idempotent(c: Connection, wal: WalState)
    ensures
        c.spec_refresh_state(wal).spec_refresh_result(wal) == c.spec_refresh_result(wal),
        c.spec_refresh_state(wal).spec_refresh_state(wal) == c.spec_refresh_state(wal),
{
}

/// Successive refreshes on one connection never see the count go backward,
/// as long as the WAL file has only grown in between. The one documented
/// exception is a checkpoint reset, which starts a new generation; it is
/// excluded here by requiring the generation unchanged.
pub proof fn lemma_refresh_monotonic(c: Connection, w0: WalState, w1: WalState)
    requires
        c.is_open,
        w1.generation == w0.generation,
        w1.frame_count >= w0.frame_count,
    ensures
        c.spec_refresh_state(w0).spec_refresh_result(w1) is Ok,
        c.spec_refresh_result(w0) matches Ok(first)
            ==> (c.spec_refresh_state(w0).spec_refresh_result(w1) matches Ok(second)
            ==> second.value >= first.value),
{
}

/// A commit leaves the generation alone and never shrinks the frame count:
/// any sequence of commits between two refreshes satisfies the hypotheses of
/// the monotonicity law above.
pub proof fn lemma_commit_only_grows(w: WalState, frames: u32)
    requires
        w.frame_count + frames <= u32::MAX,
    ensures
        w.spec_committed(frames).generation == w.generation,
        w.spec_committed(frames).frame_count >= w.frame_count,
{
}

/// Every commit of at least one frame invalidates the snapshot of every
/// connection whose snapshot was current, and only that connection's own
/// refresh makes it current again.
pub proof fn lemma_commit_invalidates_snapshot(c: Connection, w: WalState, frames: u32)
    requires
        c.is_open,
        c.snapshot_current(w),
        0 < frames,
        w.frame_count + frames <= u32::MAX,
    ensures
        !c.snapshot_current(w.spec_committed(frames)),
        c.spec_refresh_state(w.spec_committed(frames)).snapshot_current(w.spec_committed(frames)),
{
}

} // verus!
