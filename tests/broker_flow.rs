use std::io::ErrorKind;

use qpipe::{
    after_read, after_write, read_frame, write_frame, Broker, ConnKind, ConsumerNext, FrameError,
    FrameQueue, ProducerNext, Reporter, MAX_FRAME_SIZE,
};

/// Takes one frame and writes it into a consumer's byte stream.
fn deliver(b: &mut Broker, sink: &mut Vec<u8>) -> Vec<u8> {
    let f = b.take().unwrap();
    write_frame(sink, &f).unwrap();
    assert_eq!(after_write(b, f.len(), Ok(())), ConsumerNext::Continue);
    f
}

#[test]
fn happy_path_round_trip() {
    let mut b = Broker::new(10);
    let mut wire = Vec::new();
    write_frame(&mut wire, b"hello world").unwrap();
    let mut pos = 0usize;
    match after_read(read_frame(&wire, &mut pos)) {
        ProducerNext::Post(f) => assert!(b.post(f).is_ok()),
        other => panic!("unexpected {:?}", other),
    }
    let mut sink = Vec::new();
    deliver(&mut b, &mut sink);
    let mut rpos = 0usize;
    assert_eq!(read_frame(&sink, &mut rpos), Ok(Some(b"hello world".to_vec())));
    let s = b.stats();
    assert_eq!((s.posted_msgs, s.collected_msgs, s.dropped_msgs), (1, 1, 0));
    assert_eq!((s.posted_bytes, s.collected_bytes), (11, 11));
}

#[test]
fn fan_out_is_one_of_n() {
    let mut b = Broker::new(1000);
    let input: Vec<Vec<u8>> = (0..100u32).map(|i| format!("{:04}", i).into_bytes()).collect();
    for f in &input {
        assert!(b.post(f.clone()).is_ok());
    }
    let (mut a, mut c) = (Vec::new(), Vec::new());
    let mut turn = 0u32;
    while !b.is_empty() {
        let f = b.take().unwrap();
        assert_eq!(after_write(&mut b, f.len(), Ok(())), ConsumerNext::Continue);
        if turn % 3 == 0 { a.push(f) } else { c.push(f) }
        turn += 1;
    }
    for f in &a {
        assert!(!c.contains(f));
    }
    let mut all: Vec<Vec<u8>> = a.iter().chain(c.iter()).cloned().collect();
    all.sort();
    assert_eq!(all, input);
    assert_eq!(b.stats().collected_msgs, 100);
}

#[test]
fn backpressure_holds_third_frame() {
    let mut b = Broker::new(2);
    assert!(b.post(vec![1]).is_ok());
    assert!(b.post(vec![2]).is_ok());
    assert!(b.is_full());
    assert_eq!(b.post(vec![3]), Err(vec![3]));
    assert_eq!(b.stats().posted_msgs, 2);
    let mut sink = Vec::new();
    assert_eq!(deliver(&mut b, &mut sink), vec![1]);
    assert!(b.post(vec![3]).is_ok());
    assert_eq!(b.depth(), 2);
}

#[test]
fn consumer_death_drops_one() {
    let mut b = Broker::new(10);
    for f in [b"A".to_vec(), b"BB".to_vec(), b"C".to_vec()] {
        assert!(b.post(f).is_ok());
    }
    let mut sink = Vec::new();
    assert_eq!(deliver(&mut b, &mut sink), b"A".to_vec());
    let f = b.take().unwrap();
    assert_eq!(f, b"BB".to_vec());
    assert_eq!(after_write(&mut b, f.len(), Err(ErrorKind::BrokenPipe)), ConsumerNext::Done);
    let s = b.stats();
    assert_eq!((s.dropped_msgs, s.dropped_bytes), (1, 2));
    let mut other = Vec::new();
    assert_eq!(deliver(&mut b, &mut other), b"C".to_vec());
    assert!(b.is_empty());
}

#[test]
fn other_write_errors_fail_the_worker() {
    let mut b = Broker::new(1);
    assert!(b.post(vec![5, 5, 5]).is_ok());
    let f = b.take().unwrap();
    assert_eq!(
        after_write(&mut b, f.len(), Err(ErrorKind::PermissionDenied)),
        ConsumerNext::Failed(ErrorKind::PermissionDenied)
    );
    assert_eq!(b.stats().dropped_bytes, 3);
    let mut b2 = Broker::new(1);
    assert!(b2.post(vec![1]).is_ok());
    let f = b2.take().unwrap();
    assert_eq!(after_write(&mut b2, f.len(), Err(ErrorKind::ConnectionReset)), ConsumerNext::Done);
    assert!(b2.post(vec![2]).is_ok());
    let f = b2.take().unwrap();
    assert_eq!(after_write(&mut b2, f.len(), Err(ErrorKind::UnexpectedEof)), ConsumerNext::Done);
}

#[test]
fn oversize_frame_leaves_broker_unchanged() {
    let b = Broker::new(4);
    let mut wire = vec![1u8, 0, 0, 1];
    wire.extend(std::iter::repeat(0u8).take(16));
    let mut pos = 0usize;
    let next = after_read(read_frame(&wire, &mut pos));
    assert_eq!(next, ProducerNext::Failed(FrameError::LengthTooLarge));
    assert_eq!(b.depth(), 0);
    assert_eq!(b.stats().posted_msgs, 0);
    assert!(MAX_FRAME_SIZE + 1 == 0x0100_0001);
}

#[test]
fn clean_close_ends_producer() {
    let mut pos = 0usize;
    assert_eq!(after_read(read_frame(&[], &mut pos)), ProducerNext::Done);
}

#[test]
fn queue_capacity_and_fifo() {
    let mut q = FrameQueue::new(3);
    assert_eq!(q.capacity(), 3);
    for i in 0..5u8 {
        let r = q.try_push(vec![i]);
        assert_eq!(r.is_ok(), i < 3);
        assert!(q.depth() <= 3);
    }
    assert_eq!(q.try_pop(), Some(vec![0]));
    assert!(q.try_push(vec![9]).is_ok());
    assert_eq!(q.try_pop(), Some(vec![1]));
    assert_eq!(q.try_pop(), Some(vec![2]));
    assert_eq!(q.try_pop(), Some(vec![9]));
    assert_eq!(q.try_pop(), None);
    assert!(q.is_empty());
}

#[test]
fn zero_capacity_queue_is_always_full() {
    let mut q = FrameQueue::new(0);
    assert!(q.is_full());
    assert_eq!(q.try_push(vec![1]), Err(vec![1]));
}

#[test]
fn conservation_at_quiescence() {
    let mut b = Broker::new(3);
    for i in 0..3u8 {
        assert!(b.post(vec![i; (i + 1) as usize]).is_ok());
    }
    let f = b.take().unwrap();
    b.settle(f.len(), true);
    let f = b.take().unwrap();
    b.settle(f.len(), false);
    let s = b.stats();
    assert_eq!(s.posted_msgs, s.collected_msgs + s.dropped_msgs + b.depth() as u64);
    assert_eq!(s.posted_bytes, 6);
    assert_eq!(s.collected_bytes + s.dropped_bytes + 3, 6);
}

#[test]
fn connection_gauges() {
    let mut b = Broker::new(1);
    assert!(b.can_open(ConnKind::Producer));
    b.open_connection(ConnKind::Producer);
    b.open_connection(ConnKind::Consumer);
    b.open_connection(ConnKind::Consumer);
    assert_eq!((b.stats().active_producers, b.stats().active_consumers), (1, 2));
    b.close_connection(ConnKind::Consumer);
    b.close_connection(ConnKind::Producer);
    assert_eq!((b.stats().active_producers, b.stats().active_consumers), (0, 1));
}

#[test]
fn settle_and_count_guards() {
    let mut b = Broker::new(2);
    assert!(!b.can_settle(0));
    assert!(b.can_count(100));
    assert!(b.post(vec![1, 2, 3]).is_ok());
    let _ = b.take().unwrap();
    assert!(b.can_settle(3));
    assert!(!b.can_settle(4));
}

#[test]
fn reporter_counts_per_interval() {
    let mut b = Broker::new(10);
    let mut rep = Reporter::new();
    assert!(b.post(vec![0; 10]).is_ok());
    assert!(b.post(vec![0; 5]).is_ok());
    let r1 = rep.report(b.stats(), b.depth());
    assert_eq!((r1.interval.posted_msgs, r1.interval.posted_bytes, r1.depth), (2, 15, 2));
    let f = b.take().unwrap();
    b.settle(f.len(), true);
    let r2 = rep.report(b.stats(), b.depth());
    assert_eq!((r2.interval.posted_msgs, r2.interval.collected_msgs, r2.interval.collected_bytes), (0, 1, 10));
    assert_eq!((r2.totals.posted_msgs, r2.totals.collected_msgs, r2.depth), (2, 1, 1));
}

#[test]
fn delta_wraps_like_the_counters() {
    let mut prev = qpipe::Stats::new();
    prev.posted_msgs = u64::MAX;
    let mut now = qpipe::Stats::new();
    now.posted_msgs = 1;
    now.collected_msgs = 4;
    let d = now.delta_since(&prev);
    assert_eq!((d.posted_msgs, d.collected_msgs), (2, 4));
}
