//! The broker's shared state: the frame queue together with its accounting.
use vstd::prelude::*;
use crate::queue::{FrameQueue, step};
use crate::stats::{ConnKind, Stats, zero_stats};

verus! {

/// Total payload bytes of the frames in `q`.
pub open spec fn queued_bytes(q: Seq<Vec<u8>>) -> nat
    decreases q.len(),
{
    if q.len() == 0 {
        0
    } else {
        q[0]@.len() + queued_bytes(q.drop_first())
    }
}

pub proof fn lemma_queued_bytes_push(q: Seq<Vec<u8>>, f: Vec<u8>)
    ensures
        queued_bytes(q.push(f)) == queued_bytes(q) + f@.len(),
    decreases q.len(),
{
    if q.len() > 0 {
        lemma_queued_bytes_push(q.drop_first(), f);
        assert(q.push(f).drop_first() =~= q.drop_first().push(f));
        assert(q.push(f)[0] == q[0]);
    } else {
        assert(q.push(f).drop_first() =~= Seq::<Vec<u8>>::empty());
        assert(queued_bytes(q.push(f).drop_first()) == 0);
        assert(q.push(f)[0] == f);
    }
}

/// The queue, the counters, and the frames taken from the queue whose
/// delivery is not yet settled ("in flight").
pub struct Broker {
    queue: FrameQueue,
    stats: Stats,
    in_flight_msgs: u64,
    in_flight_bytes: u64,
}

impl Broker {
    /// The frames queued, head first.
    pub closed spec fn frames(&self) -> Seq<Vec<u8>> {
        self.queue@
    }

    pub closed spec fn cap(&self) -> nat {
        self.queue.cap()
    }

    pub closed spec fn counters(&self) -> Stats {
        self.stats
    }

    /// Frames taken and not yet settled, and their bytes.
    pub closed spec fn in_flight(&self) -> (nat, nat) {
        (self.in_flight_msgs as nat, self.in_flight_bytes as nat)
    }

    /// Never over capacity, and every posted frame (and byte) is in exactly one
    /// place: collected, dropped, queued or in flight.
    pub open spec fn wf(&self) -> bool {
        &&& self.frames().len() <= self.cap()
        &&& self.counters().posted_msgs == self.counters().collected_msgs
            + self.counters().dropped_msgs + self.frames().len() + self.in_flight().0
        &&& self.counters().posted_bytes == self.counters().collected_bytes
            + self.counters().dropped_bytes + queued_bytes(self.frames()) + self.in_flight().1
    }

    /// An empty broker whose queue holds at most `capacity` frames.
    pub fn new(capacity: usize) -> (r: Broker)
        ensures
            r.wf(),
            r.frames() == Seq::<Vec<u8>>::empty(),
            r.cap() == capacity,
            r.counters() == zero_stats(),
            r.in_flight() == (0nat, 0nat),
    {
        Broker {
            queue: FrameQueue::new(capacity),
            stats: Stats::new(),
            in_flight_msgs: 0,
            in_flight_bytes: 0,
        }
    }

    /// A snapshot of the counters and gauges.
    pub fn stats(&self) -> (r: Stats)
        ensures
            r == self.counters(),
    {
        self.stats
    }

    pub fn depth(&self) -> (r: usize)
        ensures
            r == self.frames().len(),
    {
        self.queue.depth()
    }

    pub fn capacity(&self) -> (r: usize)
        ensures
            r == self.cap(),
    {
        self.queue.capacity()
    }

    pub fn is_full(&self) -> (r: bool)
        ensures
            r == (self.frames().len() >= self.cap()),
    {
        self.queue.is_full()
    }

    pub fn is_empty(&self) -> (r: bool)
        ensures
            r == (self.frames().len() == 0),
    {
        self.queue.is_empty()
    }

    /// Whether the posted counters can count one more frame of `len` bytes.
    pub fn can_count(&self, len: usize) -> (r: bool)
        ensures
            r == (self.counters().posted_msgs < u64::MAX && self.counters().posted_bytes + len
                <= u64::MAX),
    {
        self.stats.posted_msgs < u64::MAX && len as u64 <= u64::MAX - self.stats.posted_bytes
    }

    /// Whether a frame of `len` bytes can be settled: some frame is in flight,
    /// with at least that many bytes.
    pub fn can_settle(&self, len: usize) -> (r: bool)
        ensures
            r == (self.in_flight().0 >= 1 && self.in_flight().1 >= len),
    {
        self.in_flight_msgs >= 1 && len as u64 <= self.in_flight_bytes
    }

    /// A producer's frame: queued at the tail and counted as posted if the
    /// queue has room; handed back with nothing changed if it is full.
    pub fn post(&mut self, frame: Vec<u8>) -> (r: Result<(), Vec<u8>>)
        requires
            old(self).wf(),
            old(self).counters().posted_msgs < u64::MAX,
            old(self).counters().posted_bytes + frame@.len() <= u64::MAX,
        ensures
            final(self).wf(),
            final(self).cap() == old(self).cap(),
            final(self).in_flight() == old(self).in_flight(),
            final(self).frames() == step(old(self).frames(), old(self).cap(), Some(frame)).0,
            old(self).frames().len() < old(self).cap() ==> {
                &&& r is Ok
                &&& final(self).frames() == old(self).frames().push(frame)
                &&& final(self).counters() == (Stats {
                    posted_msgs: (old(self).counters().posted_msgs + 1) as u64,
                    posted_bytes: (old(self).counters().posted_bytes + frame@.len()) as u64,
                    ..old(self).counters()
                })
            },
            old(self).frames().len() >= old(self).cap() ==> {
                &&& r == Err::<(), Vec<u8>>(frame)
                &&& final(self).frames() == old(self).frames()
                &&& final(self).counters() == old(self).counters()
            },
    {
        let len = frame.len();
        let ghost f = frame;
        let r = self.queue.try_push(frame);
        if r.is_ok() {
            proof {
                lemma_queued_bytes_push(old(self).frames(), f);
            }
            self.stats.posted_msgs = self.stats.posted_msgs + 1;
            self.stats.posted_bytes = self.stats.posted_bytes + len as u64;
        }
        r
    }

    /// Takes the head frame for a consumer; it is then in flight until
    /// `settle` says whether it reached the consumer. `None` on an empty queue.
    pub fn take(&mut self) -> (r: Option<Vec<u8>>)
        requires
            old(self).wf(),
        ensures
            final(self).wf(),
            final(self).cap() == old(self).cap(),
            final(self).counters() == old(self).counters(),
            (final(self).frames(), r) == step(old(self).frames(), old(self).cap(), None),
            old(self).frames().len() > 0 ==> {
                &&& r == Some(old(self).frames()[0])
                &&& final(self).frames() == old(self).frames().drop_first()
                &&& final(self).in_flight() == (old(self).in_flight().0 + 1, old(self).in_flight().1
                    + old(self).frames()[0]@.len())
            },
            old(self).frames().len() == 0 ==> {
                &&& r is None
                &&& final(self).frames() == old(self).frames()
                &&& final(self).in_flight() == old(self).in_flight()
            },
    {
        let r = self.queue.try_pop();
        match r {
            Some(f) => {
                self.in_flight_msgs = self.in_flight_msgs + 1;
                self.in_flight_bytes = self.in_flight_bytes + f.len() as u64;
                Some(f)
            },
            None => None,
        }
    }

    /// Settles one frame of `len` bytes taken with `take`: counted as collected
    /// if it was written to its consumer, as dropped if the write failed. A
    /// dropped frame is gone: it is not queued again.
    pub fn settle(&mut self, len: usize, delivered: bool)
        requires
            old(self).wf(),
            old(self).in_flight().0 >= 1,
            old(self).in_flight().1 >= len,
        ensures
            final(self).wf(),
            final(self).cap() == old(self).cap(),
            final(self).frames() == old(self).frames(),
            final(self).in_flight() == (
                (old(self).in_flight().0 - 1) as nat,
                (old(self).in_flight().1 - len) as nat,
            ),
            delivered ==> final(self).counters() == (Stats {
                collected_msgs: (old(self).counters().collected_msgs + 1) as u64,
                collected_bytes: (old(self).counters().collected_bytes + len) as u64,
                ..old(self).counters()
            }),
            !delivered ==> final(self).counters() == (Stats {
                dropped_msgs: (old(self).counters().dropped_msgs + 1) as u64,
                dropped_bytes: (old(self).counters().dropped_bytes + len) as u64,
                ..old(self).counters()
            }),
    {
        self.in_flight_msgs = self.in_flight_msgs - 1;
        self.in_flight_bytes = self.in_flight_bytes - len as u64;
        if delivered {
            self.stats.collected_msgs = self.stats.collected_msgs + 1;
            self.stats.collected_bytes = self.stats.collected_bytes + len as u64;
        } else {
            self.stats.dropped_msgs = self.stats.dropped_msgs + 1;
            self.stats.dropped_bytes = self.stats.dropped_bytes + len as u64;
        }
    }

    /// Whether one more connection of `kind` can be counted.
    pub fn can_open(&self, kind: ConnKind) -> (r: bool)
        ensures
            r == match kind {
                ConnKind::Producer => self.counters().active_producers < usize::MAX,
                ConnKind::Consumer => self.counters().active_consumers < usize::MAX,
            },
    {
        match kind {
            ConnKind::Producer => self.stats.active_producers < usize::MAX,
            ConnKind::Consumer => self.stats.active_consumers < usize::MAX,
        }
    }

    /// Counts a connection of `kind` as open.
    pub fn open_connection(&mut self, kind: ConnKind)
        requires
            old(self).wf(),
            kind == ConnKind::Producer ==> old(self).counters().active_producers < usize::MAX,
            kind == ConnKind::Consumer ==> old(self).counters().active_consumers < usize::MAX,
        ensures
            final(self).wf(),
            final(self).cap() == old(self).cap(),
            final(self).frames() == old(self).frames(),
            final(self).in_flight() == old(self).in_flight(),
            kind == ConnKind::Producer ==> final(self).counters() == (Stats {
                active_producers: (old(self).counters().active_producers + 1) as usize,
                ..old(self).counters()
            }),
            kind == ConnKind::Consumer ==> final(self).counters() == (Stats {
                active_consumers: (old(self).counters().active_consumers + 1) as usize,
                ..old(self).counters()
            }),
    {
        match kind {
            ConnKind::Producer => {
                self.stats.active_producers = self.stats.active_producers + 1;
            },
            ConnKind::Consumer => {
                self.stats.active_consumers = self.stats.active_consumers + 1;
            },
        }
    }

    /// Counts a connection of `kind` as closed.
    pub fn close_connection(&mut self, kind: ConnKind)
        requires
            old(self).wf(),
            kind == ConnKind::Producer ==> old(self).counters().active_producers > 0,
            kind == ConnKind::Consumer ==> old(self).counters().active_consumers > 0,
        ensures
            final(self).wf(),
            final(self).cap() == old(self).cap(),
            final(self).frames() == old(self).frames(),
            final(self).in_flight() == old(self).in_flight(),
            kind == ConnKind::Producer ==> final(self).counters() == (Stats {
                active_producers: (old(self).counters().active_producers - 1) as usize,
                ..old(self).counters()
            }),
            kind == ConnKind::Consumer ==> final(self).counters() == (Stats {
                active_consumers: (old(self).counters().active_consumers - 1) as usize,
                ..old(self).counters()
            }),
    {
        match kind {
            ConnKind::Producer => {
                self.stats.active_producers = self.stats.active_producers - 1;
            },
            ConnKind::Consumer => {
                self.stats.active_consumers = self.stats.active_consumers - 1;
            },
        }
    }
}

/// When no frame is in flight, every frame ever posted has been collected,
/// dropped, or is still queued, and the same holds of their bytes.
pub proof fn lemma_conservation(b: &Broker)
    requires
        b.wf(),
        b.in_flight() == (0nat, 0nat),
    ensures
        b.counters().posted_msgs == b.counters().collected_msgs + b.counters().dropped_msgs
            + b.frames().len(),
        b.counters().posted_bytes == b.counters().collected_bytes + b.counters().dropped_bytes
            + queued_bytes(b.frames()),
        b.frames().len() <= b.cap(),
{
}

} // verus!
