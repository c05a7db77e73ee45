//! Session statistics: independent counters and point-in-time snapshots.

use vstd::prelude::*;
use crate::clock::{elapsed_nanos_since, monotonic_now, wall_clock_now};

verus! {

/// A point-in-time snapshot of a session's counters and timing. A
/// snapshot is only eventually consistent across fields: each counter is
/// read independently.
#[derive(Debug, Clone)]
pub struct SessionStats {
    /// Events the callback received.
    pub events_received: u64,
    /// Events queued for the consumer.
    pub events_processed: u64,
    /// Events dropped because the channel was full.
    pub events_lost: u64,
    /// Buffers the backend reported lost.
    pub buffers_lost: u64,
    /// Buffers the backend read.
    pub buffers_read: u64,
    /// Configured buffer size in KB.
    pub buffer_size_kb: u32,
    /// Configured buffer count.
    pub buffers_allocated: u32,
    /// Wall-clock start time (Unix seconds), derived at snapshot time by
    /// subtracting the elapsed time from the current wall clock.
    pub start_time: i64,
    /// Time since the tracker was created, in nanoseconds.
    pub duration_nanos: u64,
}

impl Default for SessionStats {
    /// All counters zero, with the conventional 64 KB buffer size.
    fn default() -> (s: Self)
        ensures
            s.events_received == 0,
            s.events_processed == 0,
            s.events_lost == 0,
            s.buffers_lost == 0,
            s.buffers_read == 0,
            s.buffer_size_kb == 64,
            s.buffers_allocated == 0,
            s.start_time == 0,
            s.duration_nanos == 0,
    {
        SessionStats {
            events_received: 0,
            events_processed: 0,
            events_lost: 0,
            buffers_lost: 0,
            buffers_read: 0,
            buffer_size_kb: 64,
            buffers_allocated: 0,
            start_time: 0,
            duration_nanos: 0,
        }
    }
}

impl SessionStats {
    /// Whether any events or buffers were lost.
    pub fn has_loss(&self) -> (r: bool)
        ensures
            r == (self.events_lost > 0 || self.buffers_lost > 0),
    {
        self.events_lost > 0 || self.buffers_lost > 0
    }

    /// Lost events as a whole-number percentage of all events offered
    /// (received plus lost), rounded down; zero when nothing was offered.
    pub fn loss_percentage(&self) -> (r: u64)
        ensures
            self.events_received + self.events_lost == 0 ==> r == 0,
            self.events_received + self.events_lost > 0 ==> r == self.events_lost * 100 / (
            self.events_received + self.events_lost),
    {
        let received = self.events_received as u128;
        let lost = self.events_lost as u128;
        if received + lost == 0 {
            0
        } else {
            let pct: u128 = lost * 100 / (received + lost);
            proof {
                assert(lost * 100 / (received + lost) <= 100) by (nonlinear_arith)
                    requires
                        received + lost > 0,
                        lost <= received + lost,
                {
                }
            }
            pct as u64
        }
    }
}

/// The next value of a counter that wraps at the 64-bit boundary.
pub open spec fn bumped(c: u64) -> u64 {
    if c < u64::MAX {
        (c + 1) as u64
    } else {
        0
    }
}

/// The value of a counter after adding `n`, wrapping at the 64-bit
/// boundary.
pub open spec fn bumped_by(c: u64, n: u64) -> u64 {
    if c + n <= u64::MAX {
        (c + n) as u64
    } else {
        (c + n - 0x1_0000_0000_0000_0000) as u64
    }
}

/// Counters for one session, plus the monotonic instant the tracker was
/// created at. One tracker exists per session; the callback path bumps
/// the event counters and snapshots read them.
#[derive(Debug)]
pub struct StatsTracker {
    /// Events the callback received.
    pub events_received: u64,
    /// Events queued for the consumer.
    pub events_processed: u64,
    /// Events dropped because the channel was full.
    pub events_lost: u64,
    /// Buffers the backend reported lost.
    pub buffers_lost: u64,
    /// Buffers the backend read.
    pub buffers_read: u64,
    /// When the tracker was created (monotonic clock).
    pub start_time: std::time::Instant,
    /// Configured buffer size in KB.
    pub buffer_size_kb: u32,
    /// Configured buffer count.
    pub buffers_allocated: u32,
}

impl StatsTracker {
    /// A fresh tracker: counters zero, started now.
    pub fn new(buffer_size_kb: u32, buffers_allocated: u32) -> (t: Self)
        ensures
            t.events_received == 0,
            t.events_processed == 0,
            t.events_lost == 0,
            t.buffers_lost == 0,
            t.buffers_read == 0,
            t.buffer_size_kb == buffer_size_kb,
            t.buffers_allocated == buffers_allocated,
    {
        StatsTracker {
            events_received: 0,
            events_processed: 0,
            events_lost: 0,
            buffers_lost: 0,
            buffers_read: 0,
            start_time: monotonic_now(),
            buffer_size_kb,
            buffers_allocated,
        }
    }

    /// Count one received event.
    pub fn record_event_received(&mut self)
        ensures
            *final(self) == (StatsTracker {
                events_received: bumped(old(self).events_received),
                ..*old(self)
            }),
    {
        self.events_received = self.events_received.wrapping_add(1);
    }

    /// Count one event handed to the consumer.
    pub fn record_event_processed(&mut self)
        ensures
            *final(self) == (StatsTracker {
                events_processed: bumped(old(self).events_processed),
                ..*old(self)
            }),
    {
        self.events_processed = self.events_processed.wrapping_add(1);
    }

    /// Count `count` dropped events.
    pub fn record_events_lost(&mut self, count: u64)
        ensures
            *final(self) == (StatsTracker {
                events_lost: bumped_by(old(self).events_lost, count),
                ..*old(self)
            }),
    {
        self.events_lost = self.events_lost.wrapping_add(count);
    }

    /// Count `count` lost buffers.
    pub fn record_buffers_lost(&mut self, count: u64)
        ensures
            *final(self) == (StatsTracker {
                buffers_lost: bumped_by(old(self).buffers_lost, count),
                ..*old(self)
            }),
    {
        self.buffers_lost = self.buffers_lost.wrapping_add(count);
    }

    /// Count one buffer read.
    pub fn record_buffer_read(&mut self)
        ensures
            *final(self) == (StatsTracker {
                buffers_read: bumped(old(self).buffers_read),
                ..*old(self)
            }),
    {
        self.buffers_read = self.buffers_read.wrapping_add(1);
    }

    /// A snapshot of the counters and timing. The elapsed time comes from
    /// the monotonic clock; the wall-clock start time is derived by
    /// subtracting the elapsed seconds from the current wall clock (zero
    /// when that would go below zero or not fit).
    pub fn snapshot(&self) -> (s: SessionStats)
        ensures
            s.events_received == self.events_received,
            s.events_processed == self.events_processed,
            s.events_lost == self.events_lost,
            s.buffers_lost == self.buffers_lost,
            s.buffers_read == self.buffers_read,
            s.buffer_size_kb == self.buffer_size_kb,
            s.buffers_allocated == self.buffers_allocated,
            s.start_time >= 0,
    {
        let duration_nanos = elapsed_nanos_since(&self.start_time);
        let elapsed_secs: u64 = duration_nanos / 1_000_000_000;
        let now = wall_clock_now();
        let start_time: i64 = if now.0 >= elapsed_secs && now.0 - elapsed_secs <= i64::MAX as u64 {
            (now.0 - elapsed_secs) as i64
        } else {
            0
        };
        SessionStats {
            events_received: self.events_received,
            events_processed: self.events_processed,
            events_lost: self.events_lost,
            buffers_lost: self.buffers_lost,
            buffers_read: self.buffers_read,
            buffer_size_kb: self.buffer_size_kb,
            buffers_allocated: self.buffers_allocated,
            start_time,
            duration_nanos,
        }
    }

    /// Zero every counter; the start time is kept, so elapsed time keeps
    /// accumulating from when the tracker was created.
    pub fn reset(&mut self)
        ensures
            *final(self) == (StatsTracker {
                events_received: 0,
                events_processed: 0,
                events_lost: 0,
                buffers_lost: 0,
                buffers_read: 0,
                ..*old(self)
            }),
    {
        self.events_received = 0;
        self.events_processed = 0;
        self.events_lost = 0;
        self.buffers_lost = 0;
        self.buffers_read = 0;
    }
}

impl Default for StatsTracker {
    /// The conventional tracker: 64 KB buffers, 64 of them.
    fn default() -> (t: Self)
        ensures
            t.events_received == 0,
            t.events_processed == 0,
            t.events_lost == 0,
            t.buffers_lost == 0,
            t.buffers_read == 0,
            t.buffer_size_kb == 64,
            t.buffers_allocated == 64,
    {
        StatsTracker::new(64, 64)
    }
}

} // verus!
