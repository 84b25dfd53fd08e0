use wasi_io::buffer::ByteBuffer;
use wasi_io::error::WriteError;
use wasi_io::sink::BoundedSink;

#[test]
fn write_within_capacity_commits_all_bytes() {
    let mut sink = BoundedSink::new(ByteBuffer::new(), 8);
    let r = sink.write(&vec![1u8, 2, 3]);
    assert_eq!(r, Ok(3));
    assert_eq!(sink.contents_ref().as_slice(), &[1u8, 2, 3]);
    assert_eq!(sink.len(), 3);
    assert_eq!(sink.remaining(), 5);
}

#[test]
fn two_writes_fill_to_capacity_then_fail() {
    // Writes of 3 then 2 bytes into capacity 5: both succeed, in order.
    let mut sink = BoundedSink::new(ByteBuffer::new(), 5);
    assert_eq!(sink.write(&vec![10u8, 11, 12]), Ok(3));
    assert_eq!(sink.write(&vec![13u8, 14]), Ok(2));
    assert_eq!(sink.contents_ref().as_slice(), &[10u8, 11, 12, 13, 14]);
    // A subsequent one-byte write fails: the sink is full.
    let r = sink.write(&vec![15u8]);
    assert_eq!(
        r,
        Err(WriteError::CapacityExceeded { attempted: 1, remaining: 0 })
    );
    assert_eq!(sink.contents_ref().as_slice(), &[10u8, 11, 12, 13, 14]);
}

#[test]
fn overrunning_write_commits_nothing() {
    // Writing a then b succeeds iff a + b <= capacity; on failure the
    // contents still hold exactly the first chunk.
    let mut sink = BoundedSink::new(ByteBuffer::new(), 4);
    assert_eq!(sink.write(&vec![1u8, 2]), Ok(2));
    let r = sink.write(&vec![3u8, 4, 5]);
    assert_eq!(
        r,
        Err(WriteError::CapacityExceeded { attempted: 3, remaining: 2 })
    );
    assert_eq!(sink.contents_ref().as_slice(), &[1u8, 2]);
    assert_eq!(sink.len(), 2);
}

#[test]
fn frozen_buffer_rejects_writes_distinctly() {
    let mut sink = BoundedSink::new(ByteBuffer::new(), 8);
    assert_eq!(sink.write(&vec![5u8, 6]), Ok(2));
    sink.freeze();
    let r = sink.write(&vec![7u8]);
    assert_eq!(r, Err(WriteError::BufferImmutable));
    assert_eq!(sink.contents_ref().as_slice(), &[5u8, 6]);
}

#[test]
fn buffer_pre_loaded_counts_against_capacity() {
    let buf = ByteBuffer::from_bytes(vec![9u8, 9]);
    let mut sink = BoundedSink::new(buf, 3);
    assert_eq!(sink.remaining(), 1);
    assert_eq!(
        sink.write(&vec![1u8, 2]),
        Err(WriteError::CapacityExceeded { attempted: 2, remaining: 1 })
    );
    assert_eq!(sink.write(&vec![1u8]), Ok(1));
    assert_eq!(sink.contents_ref().as_slice(), &[9u8, 9, 1]);
}

#[test]
fn released_buffer_holds_exactly_what_was_written() {
    let mut sink = BoundedSink::new(ByteBuffer::new(), 16);
    assert_eq!(sink.write(&vec![1u8]), Ok(1));
    assert_eq!(sink.write(&vec![2u8, 3]), Ok(2));
    let buf = sink.into_buffer();
    assert_eq!(buf.contents().as_slice(), &[1u8, 2, 3]);
    assert!(!buf.is_frozen());
}

#[test]
fn zero_capacity_sink_rejects_any_byte() {
    let mut sink = BoundedSink::new(ByteBuffer::new(), 0);
    assert_eq!(
        sink.write(&vec![1u8]),
        Err(WriteError::CapacityExceeded { attempted: 1, remaining: 0 })
    );
    assert_eq!(sink.write(&Vec::new()), Ok(0));
    assert_eq!(sink.len(), 0);
}
