use baad_core::writer::{channel, Buffer, Closed, Idle, Message, Worker, WorkerEvent};

fn data(bytes: &[u8]) -> WorkerEvent {
    WorkerEvent::Received(Message::Data(bytes.to_vec()))
}

#[test]
fn buffer_holds_until_threshold() {
    let mut b = Buffer::new(8);
    assert!(b.push(b"abc".to_vec()).is_empty());
    assert!(b.push(b"de".to_vec()).is_empty());
    assert_eq!(b.push(b"fgh".to_vec()), b"abcdefgh".to_vec());
    assert!(b.flush().is_empty());
}

#[test]
fn buffer_flush_takes_everything() {
    let mut b = Buffer::new(100);
    b.push(b"xy".to_vec());
    assert_eq!(b.flush(), b"xy".to_vec());
    assert!(b.flush().is_empty());
}

#[test]
fn oversized_write_flushes_at_once() {
    let mut w = Worker::new(4);
    assert!(w.handle(data(b"ab")).is_empty());
    assert_eq!(w.handle(data(b"cdefg")), b"abcdefg".to_vec());
    assert!(w.handle(WorkerEvent::Tick).is_empty());
}

#[test]
fn write_of_exactly_capacity_flushes() {
    let mut w = Worker::new(3);
    assert_eq!(w.handle(data(b"abc")), b"abc".to_vec());
}

#[test]
fn flush_of_empty_buffer_writes_nothing() {
    let (mut handle, guard, rx) = channel(4);
    assert_eq!(handle.enqueue_flush(), Ok(()));
    let mut w = Worker::new(8192);
    assert!(w.drain(&rx, 10).is_empty());
    assert!(!w.is_finished());
    drop(guard);
}

#[test]
fn tick_flushes_buffer() {
    let mut w = Worker::new(8192);
    assert!(w.handle(data(b"tick")).is_empty());
    assert_eq!(w.handle(WorkerEvent::Tick), b"tick".to_vec());
    assert!(w.handle(WorkerEvent::Tick).is_empty());
}

#[test]
fn single_producer_order_is_kept() {
    let (mut handle, guard, rx) = channel(16);
    let mut expected = Vec::new();
    for i in 0..10u8 {
        let chunk = vec![b'a' + i; (i as usize) + 1];
        expected.extend_from_slice(&chunk);
        assert_eq!(handle.enqueue_data(chunk), Ok(()));
    }
    drop(guard);
    let mut w = Worker::new(7);
    let out = w.drain(&rx, 100);
    assert_eq!(out, expected);
    assert!(w.is_finished());
}

#[test]
fn guard_drop_writes_buffered_bytes_once() {
    let (mut handle, guard, rx) = channel(8);
    let mut w = Worker::new(8192);
    handle.enqueue_data(b"first ".to_vec()).unwrap();
    handle.enqueue_data(b"second".to_vec()).unwrap();
    let early = w.drain(&rx, 100);
    assert!(early.is_empty());
    drop(guard);
    let out = w.drain(&rx, 100);
    assert_eq!(out, b"first second".to_vec());
    assert!(w.is_finished());
    assert!(w.drain(&rx, 100).is_empty());
    assert!(w.handle(WorkerEvent::Tick).is_empty());
}

#[test]
fn full_channel_refuses_without_blocking() {
    let (mut handle, guard, rx) = channel(2);
    assert_eq!(handle.enqueue_data(b"1".to_vec()), Ok(()));
    assert_eq!(handle.enqueue_data(b"2".to_vec()), Ok(()));
    let started = std::time::Instant::now();
    assert_eq!(handle.enqueue_data(b"3".to_vec()), Err(Closed));
    assert_eq!(handle.enqueue_flush(), Err(Closed));
    assert!(started.elapsed() < std::time::Duration::from_millis(500));
    let mut w = Worker::new(8192);
    w.drain(&rx, 100);
    drop(guard);
}

#[test]
fn closed_channel_refuses() {
    let (mut handle, guard, rx) = channel(2);
    drop(rx);
    assert_eq!(handle.enqueue_data(b"x".to_vec()), Err(Closed));
    drop(guard);
}

#[test]
fn all_senders_gone_ends_worker_with_flush() {
    let (mut handle, guard, rx) = channel(4);
    handle.enqueue_data(b"tail".to_vec()).unwrap();
    let mut w = Worker::new(8192);
    assert!(w.drain(&rx, 100).is_empty());
    std::mem::forget(guard);
    drop(handle);
    assert!(!w.is_finished());
    let out = w.handle(WorkerEvent::Disconnected);
    assert_eq!(out, b"tail".to_vec());
    assert!(w.is_finished());
}

#[test]
fn duplicate_handles_share_the_channel() {
    let (mut a, guard, rx) = channel(4);
    let mut b = a.clone();
    a.enqueue_data(b"a".to_vec()).unwrap();
    b.enqueue_data(b"b".to_vec()).unwrap();
    drop(guard);
    let mut w = Worker::new(8192);
    assert_eq!(w.drain(&rx, 100), b"ab".to_vec());
}

#[test]
fn drain_stops_at_limit() {
    let (mut handle, guard, rx) = channel(8);
    for _ in 0..4 {
        handle.enqueue_data(b"z".to_vec()).unwrap();
    }
    let mut w = Worker::new(2);
    assert_eq!(w.drain(&rx, 3), b"zz".to_vec());
    assert_eq!(w.drain(&rx, 1), b"zz".to_vec());
    drop(guard);
    assert_eq!(w.drain(&rx, 5), Vec::<u8>::new());
    assert!(w.is_finished());
}

#[test]
fn on_receive_steps_by_result() {
    let mut w = Worker::new(4);
    let (out, stop) = w.on_receive(Err(Idle::Empty));
    assert!(out.is_empty() && stop);
    let (out, stop) = w.on_receive(Ok(Message::Data(b"abc".to_vec())));
    assert!(out.is_empty() && !stop);
    let (out, stop) = w.on_receive(Ok(Message::Data(b"de".to_vec())));
    assert_eq!(out, b"abcde".to_vec());
    assert!(!stop);
    w.on_receive(Ok(Message::Data(b"f".to_vec())));
    let (out, stop) = w.on_receive(Err(Idle::Disconnected));
    assert_eq!(out, b"f".to_vec());
    assert!(stop && w.is_finished());
}
