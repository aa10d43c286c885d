//! Tests of the owned-descriptor wrapper and pipe creation.

use amio::{dup, pipe};

#[test]
fn pipe_read_write_and_would_block() {
    let (rd, wr) = pipe().unwrap();
    // The two ends are distinct descriptors.
    assert_ne!(rd.as_raw_fd(), wr.as_raw_fd());

    // Nothing buffered yet: the non-blocking read reports the expected
    // "nothing available" outcome, not a failure.
    let mut buf = vec![0u8; 8];
    assert_eq!(rd.try_read(&mut buf).unwrap(), None);

    assert_eq!(wr.try_write(&[5, 6]).unwrap(), Some(2));
    assert_eq!(rd.try_read(&mut buf).unwrap(), Some(2));
    assert_eq!(&buf[..2], &[5, 6]);
    // The buffer keeps its length, only its front was filled, and the
    // bytes beyond the count are untouched.
    assert_eq!(buf.len(), 8);
    assert_eq!(&buf[2..], &[0, 0, 0, 0, 0, 0]);

    assert_eq!(rd.try_read(&mut buf).unwrap(), None);
}

#[test]
fn dup_of_a_pipe_end_reads_the_same_stream() {
    let (rd, wr) = pipe().unwrap();
    let rd2 = dup(&rd).unwrap();
    assert_ne!(rd.as_raw_fd(), rd2.as_raw_fd());

    wr.try_write(&[9]).unwrap();
    let mut buf = vec![0u8; 4];
    assert_eq!(rd2.try_read(&mut buf).unwrap(), Some(1));
    assert_eq!(buf[0], 9);
    // The byte was consumed through the duplicate: the original end now
    // sees an empty pipe.
    assert_eq!(rd.try_read(&mut buf).unwrap(), None);
}
