use vstd::prelude::*;

verus! {

/// Diagnostics for the background camera: a periodic frame log.
#[derive(Clone, Copy, Debug, PartialEq, Eq, Structural)]
pub struct DebugPlugin;

/// Frames between two frame-count log lines.
pub const LOG_INTERVAL: u32 = 60;

/// Counts rendered frames, for diagnostics only.
#[derive(Clone, Copy, Debug, PartialEq, Eq, Structural)]
pub struct FrameCounter {
    pub count: u32,
}

impl Default for FrameCounter {
    fn default() -> (r: Self)
        ensures
            r.count == 0,
    {
        FrameCounter { count: 0 }
    }
}

impl FrameCounter {
    /// Counts one more frame; true when the new count is a multiple of the
    /// log interval, that is when this frame should be logged.
    pub fn tick(&mut self) -> (r: bool)
        requires
            old(self).count < u32::MAX,
        ensures
            final(self).count == old(self).count + 1,
            r == (final(self).count % LOG_INTERVAL == 0),
    {
        self.count = self.count + 1;
        self.count % LOG_INTERVAL == 0
    }
}

} // verus!
