use vstd::prelude::*;
use crate::buffer::ByteBuffer;
use crate::error::WriteError;

verus! {

/// The outcome of one bounded write, stated over the sink's model: the
/// contents, capacity and frozen flag before the write, and the bytes
/// offered. Every implementation-visible effect of `BoundedSink::write`
/// is this function of the state alone, which is what makes a sink-backed
/// stream reproducible.
pub open spec fn spec_sink_write(
    contents: Seq<u8>,
    capacity: nat,
    frozen: bool,
    data: Seq<u8>,
) -> (Result<int, WriteError>, Seq<u8>) {
    if frozen {
        (Err(WriteError::BufferImmutable), contents)
    } else if contents.len() + data.len() > capacity {
        (
            Err(
                WriteError::CapacityExceeded {
                    attempted: data.len() as usize,
                    remaining: (capacity - contents.len()) as usize,
                },
            ),
            contents,
        )
    } else {
        (Ok(data.len() as int), contents + data)
    }
}

/// A writable stream backend over a host-shared byte buffer with a hard
/// capacity, in bytes. A write that would pass the capacity, or that meets
/// a frozen buffer, fails whole: the buffer is never left partially written
/// and never grows past the agreed bound.
pub struct BoundedSink {
    buffer: ByteBuffer,
    capacity: usize,
}

impl BoundedSink {
    /// The bytes committed so far, in write order.
    pub closed spec fn contents(&self) -> Seq<u8> {
        self.buffer.data()
    }

    /// The hard bound on the total number of bytes.
    pub closed spec fn cap(&self) -> nat {
        self.capacity as nat
    }

    /// Whether the target buffer currently refuses mutation.
    pub closed spec fn frozen(&self) -> bool {
        self.buffer.frozen()
    }

    /// The committed bytes never pass the capacity.
    pub open spec fn wf(&self) -> bool {
        self.contents().len() <= self.cap()
    }

    /// Wraps `buffer` with the hard bound `capacity`. Construction never
    /// fails; only later writes can. The buffer may not already stand past
    /// the bound, since the bound is authoritative for its readers.
    pub fn new(buffer: ByteBuffer, capacity: usize) -> (s: BoundedSink)
        requires
            buffer.data().len() <= capacity,
        ensures
            s.wf(),
            s.contents() == buffer.data(),
            s.cap() == capacity,
            s.frozen() == buffer.frozen(),
    {
        BoundedSink { buffer, capacity }
    }

    pub fn capacity(&self) -> (c: usize)
        ensures
            c == self.cap(),
    {
        self.capacity
    }

    pub fn len(&self) -> (n: usize)
        ensures
            n == self.contents().len(),
    {
        self.buffer.len()
    }

    /// The room still left before the bound.
    pub fn remaining(&self) -> (r: usize)
        requires
            self.wf(),
        ensures
            r == self.cap() - self.contents().len(),
    {
        self.capacity - self.buffer.len()
    }

    /// The host's read-only view of the captured bytes.
    pub fn contents_ref(&self) -> (r: &Vec<u8>)
        ensures
            r@ == self.contents(),
    {
        self.buffer.contents()
    }

    /// Freezes the target buffer: later writes fail with a distinct error
    /// instead of mutating bytes the host now relies on.
    pub fn freeze(&mut self)
        ensures
            final(self).contents() == old(self).contents(),
            final(self).cap() == old(self).cap(),
            final(self).frozen(),
    {
        self.buffer.freeze();
    }

    /// Releases the buffer back to the host, with everything written so far.
    pub fn into_buffer(self) -> (b: ByteBuffer)
        ensures
            b.data() == self.contents(),
            b.frozen() == self.frozen(),
    {
        self.buffer
    }

    /// Appends `data` whole, or commits nothing: a frozen buffer fails with
    /// `BufferImmutable`; a write past the remaining room fails with
    /// `CapacityExceeded`, carrying the attempted length and the room left.
    pub fn write(&mut self, data: &Vec<u8>) -> (r: Result<usize, WriteError>)
        requires
            old(self).wf(),
        ensures
            final(self).wf(),
            final(self).cap() == old(self).cap(),
            final(self).frozen() == old(self).frozen(),
            ({
                let (sr, sc) = spec_sink_write(
                    old(self).contents(),
                    old(self).cap(),
                    old(self).frozen(),
                    data@,
                );
                &&& final(self).contents() == sc
                &&& match r {
                    Ok(n) => sr == Ok::<int, WriteError>(n as int),
                    Err(e) => sr == Err::<int, WriteError>(e),
                }
            }),
    {
        if self.buffer.is_frozen() {
            return Err(WriteError::BufferImmutable);
        }
        let room: usize = self.capacity - self.buffer.len();
        if data.len() > room {
            return Err(
                WriteError::CapacityExceeded { attempted: data.len(), remaining: room },
            );
        }
        self.buffer.append(data);
        Ok(data.len())
    }
}

} // verus!
