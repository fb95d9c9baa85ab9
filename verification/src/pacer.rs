//! Frame pacer: keeps the main loop at a fixed wall-clock interval.
//!
//! The pacer itself never reads a clock or sleeps. The caller reads a
//! monotonic clock, hands timestamps in as nanoseconds, and performs the
//! sleep that `end` asks for.

use vstd::prelude::*;

verus! {

/// Nanoseconds in the default frame interval: one sixtieth of a second,
/// rounded to the nearest nanosecond.
pub const TARGET_FRAME_NS: u64 = 16_666_667;

/// Measures each loop iteration and says how long to sleep so that
/// successive iterations are about one target interval apart.
pub struct MainSleeper {
    /// Expected time between loop iterations, in nanoseconds.
    pub target: u64,
    /// Duration recorded for the last iteration, in nanoseconds: the true
    /// elapsed time when the iteration ran late, the target otherwise.
    pub passed: u64,
    /// Timestamp recorded at the beginning of the current iteration.
    pub time0: u64,
}

impl MainSleeper {
    /// A pacer aimed at sixty iterations per second.
    pub fn default() -> (r: Self)
        ensures
            r.target == TARGET_FRAME_NS,
            r.passed == TARGET_FRAME_NS,
            r.time0 == 0,
    {
        Self { target: TARGET_FRAME_NS, passed: TARGET_FRAME_NS, time0: 0 }
    }

    /// Records the timestamp at which the current iteration began.
    pub fn begin(&mut self, now_ns: u64)
        ensures
            final(self).time0 == now_ns,
            final(self).target == old(self).target,
            final(self).passed == old(self).passed,
    {
        self.time0 = now_ns;
    }

    /// Ends the iteration. Given the current timestamp, records how long the
    /// iteration took and returns how long the caller must sleep to hit the
    /// target interval: an early iteration (elapsed < target) asks for the
    /// remainder and records the target itself; a late one asks for no sleep
    /// and records the true elapsed time. A timestamp older than `begin`'s is
    /// treated as zero elapsed time, as a monotonic clock never produces one.
    pub fn end(&mut self, now_ns: u64) -> (sleep_ns: u64)
        ensures
            final(self).target == old(self).target,
            final(self).time0 == old(self).time0,
            ({
                let elapsed: u64 = if now_ns >= old(self).time0 {
                    (now_ns - old(self).time0) as u64
                } else {
                    0u64
                };
                if elapsed < old(self).target {
                    final(self).passed == old(self).target
                        && sleep_ns == old(self).target - elapsed
                } else {
                    final(self).passed == elapsed && sleep_ns == 0
                }
            }),
    {
        let elapsed: u64 = if now_ns >= self.time0 { now_ns - self.time0 } else { 0 };
        if elapsed < self.target {
            let sleep_ns: u64 = self.target - elapsed;
            self.passed = self.target;
            sleep_ns
        } else {
            self.passed = elapsed;
            0
        }
    }
}

} // verus!
