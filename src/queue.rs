//! The bounded FIFO of frames that sits between producers and consumers.
use std::collections::VecDeque;
use vstd::prelude::*;

verus! {

/// A first-in, first-out queue of frames that never holds more than its capacity.
pub struct FrameQueue {
    frames: VecDeque<Vec<u8>>,
    capacity: usize,
}

/// One attempt on a queue holding `q` with capacity `cap`: `Some(f)` offers
/// `f` at the tail, `None` asks for the head. Gives the queue afterwards and
/// the frame handed out, if any. An offer to a full queue and a request to an
/// empty one leave the queue as it is.
pub open spec fn step(q: Seq<Vec<u8>>, cap: nat, op: Option<Vec<u8>>) -> (Seq<Vec<u8>>, Option<
    Vec<u8>,
>) {
    match op {
        Some(f) => if q.len() < cap {
            (q.push(f), None)
        } else {
            (q, None)
        },
        None => if q.len() > 0 {
            (q.drop_first(), Some(q[0]))
        } else {
            (q, None)
        },
    }
}

/// Runs the attempts `ops` in order from a queue holding `q`. Gives the queue
/// afterwards, the frames it took in (in order) and the frames it handed out
/// (in order).
pub open spec fn run(q: Seq<Vec<u8>>, cap: nat, ops: Seq<Option<Vec<u8>>>) -> (
    Seq<Vec<u8>>,
    Seq<Vec<u8>>,
    Seq<Vec<u8>>,
)
    decreases ops.len(),
{
    if ops.len() == 0 {
        (q, Seq::empty(), Seq::empty())
    } else {
        let (q0, taken, given) = run(q, cap, ops.drop_last());
        let op = ops.last();
        let (q1, out) = step(q0, cap, op);
        let taken1 = if op is Some && q0.len() < cap {
            taken.push(op->Some_0)
        } else {
            taken
        };
        let given1 = match out {
            Some(f) => given.push(f),
            None => given,
        };
        (q1, taken1, given1)
    }
}

/// Whatever sequence of offers and requests a queue sees, it never holds more
/// than its capacity, and the frames it hands out followed by those still in
/// it are exactly the frames it held at the start followed by those it took
/// in: frames leave in the order they came, none is handed out twice and none
/// is lost.
pub proof fn lemma_queue_run(q: Seq<Vec<u8>>, cap: nat, ops: Seq<Option<Vec<u8>>>)
    requires
        q.len() <= cap,
    ensures
        run(q, cap, ops).0.len() <= cap,
        run(q, cap, ops).2 + run(q, cap, ops).0 == q + run(q, cap, ops).1,
    decreases ops.len(),
{
    if ops.len() > 0 {
        lemma_queue_run(q, cap, ops.drop_last());
        let (q0, taken, given) = run(q, cap, ops.drop_last());
        let op = ops.last();
        match op {
            Some(f) => {
                if q0.len() < cap {
                    assert(given + q0.push(f) =~= (given + q0).push(f));
                    assert(q + taken.push(f) =~= (q + taken).push(f));
                }
            },
            None => {
                if q0.len() > 0 {
                    assert(given.push(q0[0]) + q0.drop_first() =~= given + q0);
                }
            },
        }
    }
}

impl View for FrameQueue {
    type V = Seq<Vec<u8>>;

    closed spec fn view(&self) -> Seq<Vec<u8>> {
        self.frames@
    }
}

impl FrameQueue {
    /// The most frames the queue may hold.
    pub closed spec fn cap(&self) -> nat {
        self.capacity as nat
    }

    pub open spec fn wf(&self) -> bool {
        self@.len() <= self.cap()
    }

    /// An empty queue that holds at most `capacity` frames.
    pub fn new(capacity: usize) -> (r: FrameQueue)
        ensures
            r.wf(),
            r@ == Seq::<Vec<u8>>::empty(),
            r.cap() == capacity,
    {
        FrameQueue { frames: VecDeque::new(), capacity }
    }

    pub fn capacity(&self) -> (r: usize)
        ensures
            r == self.cap(),
    {
        self.capacity
    }

    /// The number of frames queued.
    pub fn depth(&self) -> (r: usize)
        ensures
            r == self@.len(),
    {
        self.frames.len()
    }

    pub fn is_full(&self) -> (r: bool)
        ensures
            r == (self@.len() >= self.cap()),
    {
        self.frames.len() >= self.capacity
    }

    pub fn is_empty(&self) -> (r: bool)
        ensures
            r == (self@.len() == 0),
    {
        self.frames.len() == 0
    }

    /// Appends `frame` at the tail if there is room; on a full queue hands the
    /// frame back and changes nothing.
    pub fn try_push(&mut self, frame: Vec<u8>) -> (r: Result<(), Vec<u8>>)
        requires
            old(self).wf(),
        ensures
            final(self).wf(),
            final(self).cap() == old(self).cap(),
            final(self)@ == step(old(self)@, old(self).cap(), Some(frame)).0,
            old(self)@.len() < old(self).cap() ==> r is Ok && final(self)@ == old(self)@.push(
                frame,
            ),
            old(self)@.len() >= old(self).cap() ==> r == Err::<(), Vec<u8>>(frame) && final(self)@
                == old(self)@,
    {
        if self.frames.len() >= self.capacity {
            return Err(frame);
        }
        self.frames.push_back(frame);
        Ok(())
    }

    /// Removes and returns the head frame; `None` on an empty queue.
    pub fn try_pop(&mut self) -> (r: Option<Vec<u8>>)
        requires
            old(self).wf(),
        ensures
            final(self).wf(),
            final(self).cap() == old(self).cap(),
            (final(self)@, r) == step(old(self)@, old(self).cap(), None),
            old(self)@.len() > 0 ==> r == Some(old(self)@[0]) && final(self)@
                == old(self)@.drop_first(),
            old(self)@.len() == 0 ==> r is None && final(self)@ == old(self)@,
    {
        let r = self.frames.pop_front();
        proof {
            if old(self)@.len() > 0 {
                assert(self.frames@ =~= old(self)@.drop_first());
            }
        }
        r
    }
}

} // verus!
