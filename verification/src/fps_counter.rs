//! A frames-per-second counter over an injected millisecond clock: frames
//! are counted until more than a second has passed, then the count becomes
//! the reported rate and a new second begins.

use vstd::prelude::*;

verus! {

/// Counts the frames seen in the current second; `fps` is the count of the
/// last whole second.
pub struct FpsCounter {
    pub last_frame_time_ms: u64,
    pub frame_count: u32,
    pub fps: u32,
}

/// The frame count after one more frame, held at the counter's ceiling
/// rather than wrapping.
pub open spec fn counted(frame_count: u32) -> int {
    if frame_count == u32::MAX {
        u32::MAX as int
    } else {
        frame_count + 1
    }
}

impl FpsCounter {
    /// Starts a counter at the given time with nothing counted yet.
    pub fn new(now_ms: u64) -> (c: FpsCounter)
        ensures
            c.last_frame_time_ms == now_ms,
            c.frame_count == 0,
            c.fps == 0,
    {
        FpsCounter {
            last_frame_time_ms: now_ms,
            frame_count: 0,
            fps: 0,
        }
    }

    /// The frame count of the last whole second.
    pub fn fps(&self) -> (f: u32)
        ensures
            f == self.fps,
    {
        self.fps
    }

    /// Counts one frame at the given time. Once more than a second has
    /// passed since the last rollover, the count becomes the reported rate
    /// and the window restarts at `now_ms`.
    pub fn tick(&mut self, now_ms: u64)
        ensures
            ({
                let fc = counted(old(self).frame_count);
                if now_ms > old(self).last_frame_time_ms + 1000 {
                    &&& final(self).fps == fc
                    &&& final(self).frame_count == 0
                    &&& final(self).last_frame_time_ms == now_ms
                } else {
                    &&& final(self).fps == old(self).fps
                    &&& final(self).frame_count == fc
                    &&& final(self).last_frame_time_ms == old(self).last_frame_time_ms
                }
            }),
    {
        self.frame_count = if self.frame_count == u32::MAX {
            u32::MAX
        } else {
            self.frame_count + 1
        };
        if now_ms > self.last_frame_time_ms
            && now_ms - self.last_frame_time_ms > 1000 {
            self.fps = self.frame_count;
            self.frame_count = 0;
            self.last_frame_time_ms = now_ms;
        }
    }
}

} // verus!
