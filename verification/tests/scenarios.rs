//! The stale-count bug and its fix, replayed against the model.

use wal_fresh::oracle::Connection;
use wal_fresh::oracle::FrameCount;
use wal_fresh::oracle::OracleError;
use wal_fresh::oracle::ReadOutcome;
use wal_fresh::sync::is_ahead_of_remote;
use wal_fresh::sync::push_decision;
use wal_fresh::sync::should_push;
use wal_fresh::wal::WalState;

#[test]
fn stale_sync_connection_reproduction() {
    // A writer creates a WAL-mode table and commits two insert transactions.
    let mut wal = WalState::new();
    let mut writer = Connection::new();
    writer.commit(&mut wal, 2).unwrap(); // table creation
    writer.commit(&mut wal, 1).unwrap(); // first insert
    writer.commit(&mut wal, 1).unwrap(); // second insert
    let writer_frames = writer.cached_count();
    assert!(writer_frames > 0);

    // A second, freshly opened connection reads its cached count before any
    // read transaction: stale zero.
    let mut sync_conn = Connection::new();
    let sync_frames = sync_conn.cached_count();
    assert_eq!(sync_frames, 0);
    assert!(writer_frames > 0 && sync_frames == 0);

    // One trivial read reloads the header: the refreshed count now equals
    // the writer's.
    let refreshed = sync_conn.refresh_and_count(&wal).unwrap();
    assert_eq!(refreshed.value, writer_frames);
}

#[test]
fn freshness_decision_scenario() {
    let mut wal = WalState::new();
    let mut writer = Connection::new();
    writer.commit(&mut wal, 3).unwrap();

    let durable_frame_num: u32 = 0;
    let mut sync_conn = Connection::new();

    // The naive path compares the stale cached count: 0 > 0 is false, so it
    // would skip the push even though real data is unsynced.
    let stale = FrameCount {
        value: sync_conn.cached_count(),
    };
    assert!(!is_ahead_of_remote(&stale, durable_frame_num));

    // The correct path refreshes first and matches ground truth: push.
    assert_eq!(should_push(&mut sync_conn, &wal, durable_frame_num), Ok(true));
}

#[test]
fn push_decision_on_live_engine_outcomes() {
    let mut sync_conn = Connection::new();

    // The engine's refresh read reported 5 frames; nothing durable yet.
    assert_eq!(
        push_decision(&mut sync_conn, ReadOutcome::Count(5), 0),
        Ok(true)
    );
    // Everything already durable: no push.
    assert_eq!(
        push_decision(&mut sync_conn, ReadOutcome::Count(5), 5),
        Ok(false)
    );
    // A failed refresh read yields no decision at all, not a fallback to
    // the cached count.
    assert_eq!(
        push_decision(&mut sync_conn, ReadOutcome::IoError, 0),
        Err(OracleError::RefreshFailed)
    );

    sync_conn.close();
    assert_eq!(
        push_decision(&mut sync_conn, ReadOutcome::Count(5), 0),
        Err(OracleError::ConnectionError)
    );
}

#[test]
fn is_ahead_of_remote_boundary() {
    let count = FrameCount { value: 3 };
    assert!(is_ahead_of_remote(&count, 2));
    assert!(!is_ahead_of_remote(&count, 3));
    assert!(!is_ahead_of_remote(&count, 4));
}
