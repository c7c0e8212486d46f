use duplex_split::buffer::DuplexBuffer;
use duplex_split::cell::SharedCell;
use duplex_split::split::{split, ReadHalf, WriteHalf};
use duplex_split::stream::{IoError, Readiness};

#[test]
fn split_write_then_read_round_trip() {
    let (mut rh, mut wh) = split(DuplexBuffer::new(4));
    assert_eq!(wh.try_write(&[1u8, 2, 3]), Ok(3));
    let mut buf = vec![0u8; 3];
    assert_eq!(rh.try_read(&mut buf), Ok(3));
    assert_eq!(buf, vec![1u8, 2, 3]);
}

#[test]
fn alternating_halves_keep_order() {
    let (mut rh, mut wh) = split(DuplexBuffer::new(2));
    let message = [4u8, 8, 15, 16, 23, 42];
    let mut seen: Vec<u8> = Vec::new();
    let mut sent: usize = 0;
    while seen.len() < message.len() {
        match wh.try_write(&message[sent..]) {
            Ok(n) => sent += n,
            Err(IoError::WouldBlock) => {}
            Err(e) => panic!("unexpected write error {:?}", e),
        }
        let mut buf = vec![0u8; 2];
        match rh.try_read(&mut buf) {
            Ok(n) => seen.extend(buf[..n].iter().copied()),
            Err(IoError::WouldBlock) => {}
            Err(e) => panic!("unexpected read error {:?}", e),
        }
    }
    assert_eq!(seen, message.to_vec());
}

#[test]
fn sequential_acquisitions_never_deadlock() {
    let (mut rh, mut wh) = split(DuplexBuffer::new(4));
    assert_eq!(wh.try_write(&[1u8]), Ok(1));
    assert_eq!(wh.try_write(&[2u8]), Ok(1));
    let mut buf = vec![0u8; 1];
    assert_eq!(rh.try_read(&mut buf), Ok(1));
    assert_eq!(buf, vec![1u8]);
    assert_eq!(rh.try_read(&mut buf), Ok(1));
    assert_eq!(buf, vec![2u8]);
}

#[test]
fn dropping_write_half_leaves_read_half_working() {
    let (mut rh, mut wh) = split(DuplexBuffer::new(4));
    assert_eq!(wh.try_write(&[9u8]), Ok(1));
    drop(wh);
    let mut buf = vec![0u8; 1];
    assert_eq!(rh.try_read(&mut buf), Ok(1));
    assert_eq!(buf, vec![9u8]);
    assert_eq!(rh.poll_readable(), Readiness::NotReady);
}

#[test]
fn dropping_read_half_leaves_write_half_working() {
    let (rh, mut wh) = split(DuplexBuffer::new(4));
    drop(rh);
    assert_eq!(wh.try_write(&[1u8, 2]), Ok(2));
    assert_eq!(wh.try_flush(), Ok(()));
    assert_eq!(wh.poll_writable(), Readiness::Ready);
}

#[test]
fn contention_reports_would_block_and_loses_nothing() {
    let mut q = DuplexBuffer::new(4);
    assert_eq!(q.write(&[5u8]), Ok(1));
    let (ours, theirs) = SharedCell::new(q);
    let mut rh = ReadHalf::new(theirs);
    let held = ours.try_take().expect("the cell starts full");
    let mut buf = vec![0u8; 1];
    assert_eq!(rh.try_read(&mut buf), Err(IoError::WouldBlock));
    assert_eq!(buf, vec![0u8]);
    assert_eq!(rh.poll_readable(), Readiness::NotReady);
    ours.store(held);
    assert_eq!(rh.try_read(&mut buf), Ok(1));
    assert_eq!(buf, vec![5u8]);
}

#[test]
fn contention_turns_every_write_operation_away() {
    let (ours, theirs) = SharedCell::new(DuplexBuffer::new(4));
    let mut wh = WriteHalf::new(theirs);
    let held = ours.try_take().expect("the cell starts full");
    assert_eq!(wh.try_write(&[1u8]), Err(IoError::WouldBlock));
    assert_eq!(wh.try_flush(), Err(IoError::WouldBlock));
    assert_eq!(wh.poll_writable(), Readiness::NotReady);
    ours.store(held);
    assert_eq!(wh.try_write(&[1u8]), Ok(1));
}

#[test]
fn cell_grants_the_value_to_one_handle_at_a_time() {
    let (a, b) = SharedCell::new(DuplexBuffer::new(1));
    let held = a.try_take();
    assert!(held.is_some());
    assert!(b.try_take().is_none());
    assert!(a.try_take().is_none());
    b.store(held.unwrap());
    assert!(a.try_take().is_some());
}

#[test]
fn polls_through_the_halves_follow_the_stream() {
    let (mut rh, mut wh) = split(DuplexBuffer::new(1));
    assert_eq!(rh.poll_readable(), Readiness::NotReady);
    assert_eq!(wh.poll_writable(), Readiness::Ready);
    assert_eq!(wh.try_write(&[3u8]), Ok(1));
    assert_eq!(rh.poll_readable(), Readiness::Ready);
    assert_eq!(wh.poll_writable(), Readiness::NotReady);
}
