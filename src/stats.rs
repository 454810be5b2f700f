//! Counters of the broker's traffic and the per-interval summary built from them.
use vstd::prelude::*;

verus! {

/// Which side of the queue a connection serves.
#[derive(Clone, Copy, Debug, PartialEq, Eq, Structural)]
pub enum ConnKind {
    Producer,
    Consumer,
}

/// Traffic counters (monotonic) and connection gauges.
#[derive(Clone, Copy, Debug, PartialEq, Eq, Structural)]
pub struct Stats {
    /// Frames accepted from producers and queued.
    pub posted_msgs: u64,
    pub posted_bytes: u64,
    /// Frames written to a consumer.
    pub collected_msgs: u64,
    pub collected_bytes: u64,
    /// Frames taken from the queue whose write to the consumer failed.
    pub dropped_msgs: u64,
    pub dropped_bytes: u64,
    /// Connections now open, by role.
    pub active_producers: usize,
    pub active_consumers: usize,
}

/// `cur - prev` on counters that wrap at 2^64.
pub open spec fn counter_delta(cur: u64, prev: u64) -> int {
    if cur >= prev {
        cur - prev
    } else {
        cur - prev + 0x1_0000_0000_0000_0000
    }
}

fn delta(cur: u64, prev: u64) -> (r: u64)
    ensures
        r == counter_delta(cur, prev),
{
    if cur >= prev {
        cur - prev
    } else {
        cur.wrapping_sub(prev)
    }
}

/// Every counter and gauge at zero.
pub open spec fn zero_stats() -> Stats {
    Stats {
        posted_msgs: 0,
        posted_bytes: 0,
        collected_msgs: 0,
        collected_bytes: 0,
        dropped_msgs: 0,
        dropped_bytes: 0,
        active_producers: 0,
        active_consumers: 0,
    }
}

impl Stats {
    /// All counters and gauges at zero.
    pub fn new() -> (r: Stats)
        ensures
            r == zero_stats(),
    {
        Stats {
            posted_msgs: 0,
            posted_bytes: 0,
            collected_msgs: 0,
            collected_bytes: 0,
            dropped_msgs: 0,
            dropped_bytes: 0,
            active_producers: 0,
            active_consumers: 0,
        }
    }

    /// The traffic since the snapshot `prev`: each counter less its value in
    /// `prev`; the gauges are this snapshot's own.
    pub fn delta_since(&self, prev: &Stats) -> (r: Stats)
        ensures
            r.posted_msgs == counter_delta(self.posted_msgs, prev.posted_msgs),
            r.posted_bytes == counter_delta(self.posted_bytes, prev.posted_bytes),
            r.collected_msgs == counter_delta(self.collected_msgs, prev.collected_msgs),
            r.collected_bytes == counter_delta(self.collected_bytes, prev.collected_bytes),
            r.dropped_msgs == counter_delta(self.dropped_msgs, prev.dropped_msgs),
            r.dropped_bytes == counter_delta(self.dropped_bytes, prev.dropped_bytes),
            r.active_producers == self.active_producers,
            r.active_consumers == self.active_consumers,
    {
        Stats {
            posted_msgs: delta(self.posted_msgs, prev.posted_msgs),
            posted_bytes: delta(self.posted_bytes, prev.posted_bytes),
            collected_msgs: delta(self.collected_msgs, prev.collected_msgs),
            collected_bytes: delta(self.collected_bytes, prev.collected_bytes),
            dropped_msgs: delta(self.dropped_msgs, prev.dropped_msgs),
            dropped_bytes: delta(self.dropped_bytes, prev.dropped_bytes),
            active_producers: self.active_producers,
            active_consumers: self.active_consumers,
        }
    }
}

/// One line of the periodic summary: the traffic of the last interval, the
/// queue depth, the open connections and the running totals.
#[derive(Clone, Copy, Debug, PartialEq, Eq, Structural)]
pub struct Report {
    /// Counters over the last interval; its gauges are the current ones.
    pub interval: Stats,
    /// Counters since start.
    pub totals: Stats,
    pub depth: usize,
}

/// Builds the summary of each interval from successive snapshots.
pub struct Reporter {
    last: Stats,
}

impl Reporter {
    pub closed spec fn last(&self) -> Stats {
        self.last
    }

    /// A reporter whose first interval counts from zero.
    pub fn new() -> (r: Reporter)
        ensures
            r.last() == zero_stats(),
    {
        Reporter { last: Stats::new() }
    }

    /// The summary for the interval that ends with snapshot `now` at queue
    /// depth `depth`; `now` becomes the start of the next interval.
    pub fn report(&mut self, now: Stats, depth: usize) -> (r: Report)
        ensures
            r.interval.posted_msgs == counter_delta(now.posted_msgs, old(self).last().posted_msgs),
            r.interval.posted_bytes == counter_delta(
                now.posted_bytes,
                old(self).last().posted_bytes,
            ),
            r.interval.collected_msgs == counter_delta(
                now.collected_msgs,
                old(self).last().collected_msgs,
            ),
            r.interval.collected_bytes == counter_delta(
                now.collected_bytes,
                old(self).last().collected_bytes,
            ),
            r.interval.dropped_msgs == counter_delta(
                now.dropped_msgs,
                old(self).last().dropped_msgs,
            ),
            r.interval.dropped_bytes == counter_delta(
                now.dropped_bytes,
                old(self).last().dropped_bytes,
            ),
            r.interval.active_producers == now.active_producers,
            r.interval.active_consumers == now.active_consumers,
            r.totals == now,
            r.depth == depth,
            final(self).last() == now,
    {
        let interval = now.delta_since(&self.last);
        self.last = now;
        Report { interval, totals: now, depth }
    }
}

} // verus!
