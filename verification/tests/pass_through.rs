use duplex_split::cell::SharedCell;
use duplex_split::split::{ReadHalf, WriteHalf};
use duplex_split::stream::{IoError, ReadStream, Readiness, WriteStream};

/// A stream that turns every operation away with its own error codes, to show
/// that the halves hand a stream's answers through untouched.
struct SourStream;

impl ReadStream for SourStream {
    fn readable(&self) -> vstd::seq::Seq<u8> {
        unreachable!()
    }

    fn read_ready(&self) -> bool {
        unreachable!()
    }

    fn read(&mut self, _buf: &mut Vec<u8>) -> Result<usize, IoError> {
        Err(IoError::Other(41))
    }

    fn poll_read(&mut self) -> Readiness {
        Readiness::NotReady
    }
}

impl WriteStream for SourStream {
    fn accepted(&self) -> vstd::seq::Seq<u8> {
        unreachable!()
    }

    fn write_ready(&self) -> bool {
        unreachable!()
    }

    fn flushed(&self) -> bool {
        unreachable!()
    }

    fn write(&mut self, _buf: &[u8]) -> Result<usize, IoError> {
        Err(IoError::Other(42))
    }

    fn flush(&mut self) -> Result<(), IoError> {
        Err(IoError::Other(43))
    }

    fn poll_write(&mut self) -> Readiness {
        Readiness::NotReady
    }
}

#[test]
fn stream_errors_pass_through_unchanged() {
    let (a, b) = SharedCell::new(SourStream);
    let mut rh = ReadHalf::new(a);
    let mut wh = WriteHalf::new(b);
    let mut buf = vec![0u8; 4];
    assert_eq!(rh.try_read(&mut buf), Err(IoError::Other(41)));
    assert_eq!(buf, vec![0u8; 4]);
    assert_eq!(wh.try_write(&[1u8]), Err(IoError::Other(42)));
    assert_eq!(wh.try_flush(), Err(IoError::Other(43)));
    assert_eq!(rh.poll_readable(), Readiness::NotReady);
    assert_eq!(wh.poll_writable(), Readiness::NotReady);
}
