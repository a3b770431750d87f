//! Ground truth for a shared write-ahead-log file.

use vstd::prelude::*;

verus! {

/// The true state of the WAL file shared by every connection to one
/// database: how many committed frames it currently holds, and a generation
/// counter bumped by every checkpoint reset (frame numbering restarts inside
/// a new generation).
#[derive(Clone, Copy, Debug, PartialEq, Eq, Structural)]
pub struct WalState {
    /// Number of valid committed frames currently in the WAL file.
    pub frame_count: u32,
    /// Bumped each time a checkpoint folds the WAL back into the main
    /// database file and resets frame numbering.
    pub generation: u32,
}

impl WalState {
    /// The WAL file after a writer has committed `frames` more frames.
    pub open spec fn spec_committed(self, frames: u32) -> WalState {
        WalState {
            frame_count: (self.frame_count + frames) as u32,
            generation: self.generation,
        }
    }

    /// The WAL file after a checkpoint reset.
    pub open spec fn spec_checkpointed(self) -> WalState {
        WalState {
            frame_count: 0,
            generation: (self.generation + 1) as u32,
        }
    }

    /// A freshly created, empty WAL file.
    pub fn new() -> (w: WalState)
        ensures
            w.frame_count == 0,
            w.generation == 0,
    {
        WalState { frame_count: 0, generation: 0 }
    }

    /// A writer commits `frames` more frames to the log. The generation is
    /// untouched: only a checkpoint resets numbering.
    pub fn commit(&mut self, frames: u32)
        requires
            old(self).frame_count + frames <= u32::MAX,
        ensures
            *final(self) == old(self).spec_committed(frames),
    {
        self.frame_count = self.frame_count + frames;
    }

    /// A checkpoint folds the frames into the main database file and resets
    /// frame numbering for a new generation.
    pub fn checkpoint_reset(&mut self)
        requires
            old(self).generation < u32::MAX,
        ensures
            *final(self) == old(self).spec_checkpointed(),
    {
        self.frame_count = 0;
        self.generation = self.generation + 1;
    }
}

} // verus!
