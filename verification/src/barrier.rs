//! The start barrier: a single-fire release signal that holds every
//! executor motionless until the coordinator releases them all at one
//! instant.
//!
//! The embedding application fans the release out to the executor tasks
//! over a watch channel; this type is what the coordinator keeps, and it
//! makes the release single-fire and retained: once released, the barrier
//! stays released, so an executor that subscribes late still observes the
//! release.

use vstd::prelude::*;

verus! {

/// The coordinator's single-fire release signal.
pub struct StartBarrier {
    released: bool,
    release_time: u64,
}

impl StartBarrier {
    /// Whether the barrier has been released.
    pub closed spec fn spec_released(&self) -> bool {
        self.released
    }

    /// The instant of the release, in milliseconds.
    pub closed spec fn spec_release_time(&self) -> u64 {
        self.release_time
    }

    /// A new barrier holds everything: nothing has been released.
    pub fn new() -> (b: StartBarrier)
        ensures
            !b.spec_released(),
    {
        StartBarrier { released: false, release_time: 0 }
    }

    /// Releases the barrier, exactly once, keeping the release instant.
    pub fn release(&mut self, now: u64)
        requires
            !old(self).spec_released(),
        ensures
            final(self).spec_released(),
            final(self).spec_release_time() == now,
    {
        self.released = true;
        self.release_time = now;
    }

    /// Whether the barrier has been released. The signal is retained:
    /// nothing ever clears it, so a late subscriber observes it too.
    pub fn is_released(&self) -> (r: bool)
        ensures
            r == self.spec_released(),
    {
        self.released
    }

    /// The release instant.
    pub fn release_time(&self) -> (t: u64)
        requires
            self.spec_released(),
        ensures
            t == self.spec_release_time(),
    {
        self.release_time
    }
}

} // verus!
