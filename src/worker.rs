//! The decisions of the per-connection workers once a session is authenticated.
use vstd::prelude::*;
use std::io::ErrorKind;
use crate::broker::Broker;
use crate::frame::FrameError;
use crate::stats::Stats;

verus! {

/// std's `io::ErrorKind`, declared with its variants visible, so that verified
/// code can tell the kinds of a failed write apart.
#[verifier::external_type_specification]
pub struct ExErrorKind(ErrorKind);

/// The write errors that mean the consumer went away, which ends its worker
/// normally.
pub open spec fn is_departure(kind: ErrorKind) -> bool {
    kind == ErrorKind::BrokenPipe || kind == ErrorKind::ConnectionReset || kind
        == ErrorKind::UnexpectedEof
}

/// Whether a failed write of kind `kind` means that the peer went away.
pub fn peer_gone(kind: ErrorKind) -> (r: bool)
    ensures
        r == is_departure(kind),
{
    match kind {
        ErrorKind::BrokenPipe | ErrorKind::ConnectionReset | ErrorKind::UnexpectedEof => true,
        _ => false,
    }
}

/// What a producer's worker does after one attempt to read a frame.
#[derive(Debug, PartialEq, Eq)]
pub enum ProducerNext {
    /// Post this frame to the queue, waiting while it is full, then read on.
    Post(Vec<u8>),
    /// The producer closed its connection at a frame boundary: stop, without error.
    Done,
    /// Stop with this error.
    Failed(FrameError),
}

/// The producer worker's decision on what reading one frame gave.
pub fn after_read(read: Result<Option<Vec<u8>>, FrameError>) -> (r: ProducerNext)
    ensures
        r == match read {
            Ok(Some(f)) => ProducerNext::Post(f),
            Ok(None) => ProducerNext::Done,
            Err(e) => ProducerNext::Failed(e),
        },
{
    match read {
        Ok(Some(f)) => ProducerNext::Post(f),
        Ok(None) => ProducerNext::Done,
        Err(e) => ProducerNext::Failed(e),
    }
}

/// What a consumer's worker does after writing one frame.
#[derive(Debug, PartialEq, Eq)]
pub enum ConsumerNext {
    /// The frame was delivered: take the next one.
    Continue,
    /// The consumer went away: stop, without error.
    Done,
    /// Stop with this error.
    Failed(ErrorKind),
}

/// Settles a frame of `len` bytes that was taken for a consumer, given how
/// the write to it went, and says what the worker does next. A failed write
/// drops the frame: it is counted as dropped once, and not queued again.
pub fn after_write(b: &mut Broker, len: usize, written: Result<(), ErrorKind>) -> (r: ConsumerNext)
    requires
        old(b).wf(),
        old(b).in_flight().0 >= 1,
        old(b).in_flight().1 >= len,
    ensures
        final(b).wf(),
        final(b).cap() == old(b).cap(),
        final(b).frames() == old(b).frames(),
        final(b).in_flight() == (
            (old(b).in_flight().0 - 1) as nat,
            (old(b).in_flight().1 - len) as nat,
        ),
        written is Ok ==> r == ConsumerNext::Continue && final(b).counters() == (Stats {
            collected_msgs: (old(b).counters().collected_msgs + 1) as u64,
            collected_bytes: (old(b).counters().collected_bytes + len) as u64,
            ..old(b).counters()
        }),
        written is Err ==> final(b).counters() == (Stats {
            dropped_msgs: (old(b).counters().dropped_msgs + 1) as u64,
            dropped_bytes: (old(b).counters().dropped_bytes + len) as u64,
            ..old(b).counters()
        }),
        written matches Err(k) ==> r == if is_departure(k) {
            ConsumerNext::Done
        } else {
            ConsumerNext::Failed(k)
        },
{
    match written {
        Ok(()) => {
            b.settle(len, true);
            ConsumerNext::Continue
        },
        Err(k) => {
            b.settle(len, false);
            if peer_gone(k) {
                ConsumerNext::Done
            } else {
                ConsumerNext::Failed(k)
            }
        },
    }
}

} // verus!
