use tcpproxy::{Outcome, PipeBuf, Progress};

#[test]
fn new_buffer_is_empty() {
    let b = PipeBuf::new(3, 4, 65536);
    assert!(b.is_empty());
    assert!(!b.is_full());
    assert_eq!(b.buffered(), 0);
    assert_eq!(b.capacity(), 65536);
    assert_eq!(b.room(), 65536);
    assert_eq!(b.read_fd(), 3);
    assert_eq!(b.write_fd(), 4);
}

#[test]
fn splice_in_adds_and_continues_while_room() {
    let mut b = PipeBuf::new(3, 4, 10);
    assert_eq!(b.splice_in(Outcome::Moved(4)), Progress::Continue);
    assert_eq!(b.buffered(), 4);
    assert_eq!(b.room(), 6);
    assert!(!b.is_empty());
}

#[test]
fn splice_in_stops_when_full() {
    let mut b = PipeBuf::new(3, 4, 10);
    assert_eq!(b.splice_in(Outcome::Moved(10)), Progress::Stop);
    assert!(b.is_full());
    assert_eq!(b.room(), 0);
}

#[test]
fn splice_in_zero_length_read_ends_stream() {
    let mut b = PipeBuf::new(3, 4, 10);
    assert_eq!(b.splice_in(Outcome::Moved(3)), Progress::Continue);
    assert_eq!(b.splice_in(Outcome::Moved(0)), Progress::End);
    assert_eq!(b.buffered(), 3);
}

#[test]
fn splice_in_would_block_stops_without_change() {
    let mut b = PipeBuf::new(3, 4, 10);
    assert_eq!(b.splice_in(Outcome::WouldBlock), Progress::Stop);
    assert_eq!(b.buffered(), 0);
}

#[test]
fn splice_in_failure_is_fatal() {
    let mut b = PipeBuf::new(3, 4, 10);
    assert_eq!(b.splice_in(Outcome::Failed(104)), Progress::Fail(104));
    assert_eq!(b.buffered(), 0);
}

#[test]
fn splice_out_takes_off_until_empty() {
    let mut b = PipeBuf::new(3, 4, 10);
    b.splice_in(Outcome::Moved(7));
    assert_eq!(b.splice_out(Outcome::Moved(5)), Progress::Continue);
    assert_eq!(b.buffered(), 2);
    assert_eq!(b.splice_out(Outcome::Moved(2)), Progress::Stop);
    assert!(b.is_empty());
}

#[test]
fn splice_out_would_block_and_failure() {
    let mut b = PipeBuf::new(3, 4, 10);
    b.splice_in(Outcome::Moved(7));
    assert_eq!(b.splice_out(Outcome::WouldBlock), Progress::Stop);
    assert_eq!(b.buffered(), 7);
    // A call that moved nothing while bytes remain does not end the loop.
    assert_eq!(b.splice_out(Outcome::Moved(0)), Progress::Continue);
    assert_eq!(b.buffered(), 7);
    assert_eq!(b.splice_out(Outcome::Failed(32)), Progress::Fail(32));
    assert_eq!(b.buffered(), 7);
}

#[test]
fn buffered_stays_within_capacity_over_interleaving() {
    let mut b = PipeBuf::new(3, 4, 8);
    let mut total_in: usize = 0;
    let mut total_out: usize = 0;
    let script: [(bool, usize); 8] = [
        (true, 5),
        (false, 2),
        (true, 5),
        (false, 8),
        (true, 1),
        (true, 7),
        (false, 3),
        (false, 5),
    ];
    for (fill, n) in script {
        if fill {
            let n = n.min(b.room());
            b.splice_in(Outcome::Moved(n));
            total_in += n;
        } else {
            let n = n.min(b.buffered());
            b.splice_out(Outcome::Moved(n));
            total_out += n;
        }
        assert!(b.buffered() <= b.capacity());
        assert_eq!(total_in, total_out + b.buffered());
    }
    assert_eq!(total_in, 18);
    assert!(b.is_empty());
}
