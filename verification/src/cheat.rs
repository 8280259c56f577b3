//! Per-frame orchestrator state.
//!
//! The host's frame hook ticks the state cache, lets feature renderers run
//! only while the cache is valid, and records how long the frame took. The
//! hook itself lives with the host; only the state it keeps is here.

use vstd::prelude::*;

verus! {

/// State the frame driver carries between frames.
pub struct Cheat {
    /// Duration of the last completed frame, in microseconds.
    pub last_frame_time: u64,
}

impl Cheat {
    /// Records the measured duration of the frame that just completed.
    pub fn record_frame_time(&mut self, elapsed: u64)
        ensures
            final(self).last_frame_time == elapsed,
    {
        self.last_frame_time = elapsed;
    }
}

impl Default for Cheat {
    fn default() -> (c: Self)
        ensures
            c.last_frame_time == 0,
    {
        Cheat { last_frame_time: 0 }
    }
}

} // verus!
