//! The push decision of the replication layer.
//!
//! The replication layer pushes when the local WAL holds frames beyond
//! `durable_frame_num`, the last frame confirmed durable on the remote
//! store. The decision must be driven by a freshly refreshed count: a
//! connection that compares its cached count instead can sit at a stale
//! zero forever and never push.

use vstd::prelude::*;

use crate::oracle::Connection;
use crate::oracle::FrameCount;
use crate::oracle::OracleError;
use crate::oracle::ReadOutcome;
use crate::wal::WalState;

verus! {

/// Is the remote behind, so that a push is needed? True exactly when the
/// observed frame count exceeds the last remotely durable frame. Takes a
/// `FrameCount` — evidence of an explicit refresh — never a raw cached
/// count.
pub fn is_ahead_of_remote(count: &FrameCount, durable_frame_num: u32) -> (r: bool)
    ensures
        r == (count.value > durable_frame_num),
{
    count.value > durable_frame_num
}

/// What the push decision against the shared WAL file yields: the ground
/// truth comparison for an open connection, `ConnectionError` otherwise.
pub open spec fn spec_should_push(c: Connection, wal: WalState, durable_frame_num: u32) -> Result<
    bool,
    OracleError,
> {
    if c.is_open {
        Ok(wal.frame_count > durable_frame_num)
    } else {
        Err(OracleError::ConnectionError)
    }
}

/// Decide whether to push, the correct way: refresh this connection's
/// snapshot first, then compare. The answer matches ground truth — the WAL
/// file's true current frame count against `durable_frame_num` — however
/// stale the connection's snapshot was beforehand.
pub fn should_push(conn: &mut Connection, wal: &WalState, durable_frame_num: u32) -> (r: Result<
    bool,
    OracleError,
>)
    ensures
        *final(conn) == old(conn).spec_refresh_state(*wal),
        r == spec_should_push(*old(conn), *wal, durable_frame_num),
{
    match conn.refresh_and_count(wal) {
        Ok(count) => Ok(is_ahead_of_remote(&count, durable_frame_num)),
        Err(e) => Err(e),
    }
}

/// What the push decision yields once the engine's refresh read outcome is
/// in: the comparison on a reported count, the error otherwise — a failed
/// refresh means freshness unknown, and no decision is taken.
pub open spec fn spec_push_decision(
    c: Connection,
    outcome: ReadOutcome,
    durable_frame_num: u32,
) -> Result<bool, OracleError> {
    match c.spec_apply_refresh_result(outcome) {
        Ok(count) => Ok(count.value > durable_frame_num),
        Err(e) => Err(e),
    }
}

/// Decide whether to push against a live engine: apply the outcome of the
/// forced refresh read, then compare the fresh count. On `RefreshFailed`
/// the error is surfaced and no comparison is made — the cached count is
/// never consulted as a fallback.
pub fn push_decision(conn: &mut Connection, outcome: ReadOutcome, durable_frame_num: u32) -> (r:
    Result<bool, OracleError>)
    ensures
        *final(conn) == old(conn).spec_apply_refresh_state(outcome),
        r == spec_push_decision(*old(conn), outcome, durable_frame_num),
{
    match conn.apply_refresh_outcome(outcome) {
        Ok(count) => Ok(is_ahead_of_remote(&count, durable_frame_num)),
        Err(e) => Err(e),
    }
}

} // verus!
