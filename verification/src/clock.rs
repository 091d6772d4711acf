//! The millisecond clock that the timer interrupt advances.

use vstd::prelude::*;

verus! {

/// A millisecond counter with one writer, the periodic timer interrupt, and
/// any number of readers. It wraps around at the width of `u32`.
#[derive(Copy, Clone, Debug, PartialEq, Eq, Structural)]
pub struct Clock {
    pub elapsed_ms: u32,
}

/// The time from `earlier` to `later` on a clock that wraps around.
pub open spec fn elapsed_between(earlier: u32, later: u32) -> u32 {
    later.wrapping_sub(earlier)
}

impl Clock {
    /// A clock at zero.
    pub fn new() -> (clock: Clock)
        ensures
            clock.elapsed_ms == 0,
    {
        Clock { elapsed_ms: 0 }
    }

    /// Counts one millisecond; after `u32::MAX` comes zero.
    pub fn tick(&mut self)
        ensures
            final(self).elapsed_ms == old(self).elapsed_ms.wrapping_add(1),
            elapsed_between(old(self).elapsed_ms, final(self).elapsed_ms) == 1,
    {
        self.elapsed_ms = self.elapsed_ms.wrapping_add(1);
    }

    /// The milliseconds counted so far.
    pub fn millis(&self) -> (now: u32)
        ensures
            now == self.elapsed_ms,
    {
        self.elapsed_ms
    }
}

} // verus!
