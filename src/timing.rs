use vstd::prelude::*;

verus! {

/// Frame time before any frame was measured: one second.
pub const INITIAL_FRAME_MICROS: u64 = 1_000_000;

/// Frames per second shown for a frame time in microseconds. A time that
/// rounds to zero microseconds counts as one, so the estimate never divides
/// by zero.
pub open spec fn fps_of(frame_micros: nat) -> nat {
    if frame_micros == 0 {
        1_000_000
    } else {
        1_000_000nat / frame_micros
    }
}

/// Wall-clock time of the last recorded frame, for display only.
#[derive(Clone, Copy, Debug, PartialEq, Eq, Structural)]
pub struct FrameTiming {
    pub last_frame_micros: u64,
}

impl FrameTiming {
    pub fn new() -> (r: FrameTiming)
        ensures
            r.last_frame_micros == INITIAL_FRAME_MICROS,
    {
        FrameTiming { last_frame_micros: INITIAL_FRAME_MICROS }
    }

    /// Stores the duration of the frame just recorded.
    pub fn record(&mut self, micros: u64)
        ensures
            final(self).last_frame_micros == micros,
    {
        self.last_frame_micros = micros;
    }

    /// Whole milliseconds of the last frame.
    pub fn millis(&self) -> (r: u64)
        ensures
            r == self.last_frame_micros / 1000,
    {
        self.last_frame_micros / 1000
    }

    /// Frames-per-second estimate of the last frame.
    pub fn fps(&self) -> (r: u64)
        ensures
            r == fps_of(self.last_frame_micros as nat),
    {
        if self.last_frame_micros == 0 {
            1_000_000
        } else {
            1_000_000 / self.last_frame_micros
        }
    }
}

} // verus!
