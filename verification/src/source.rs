use vstd::prelude::*;

verus! {

/// The outcome of one sequential read of at most `max` bytes from a source
/// holding `data` with its cursor at `cursor`: the bytes handed out and the
/// new cursor. Reading at the end hands out nothing, again and again: end of
/// stream, not an error.
pub open spec fn spec_source_read(data: Seq<u8>, cursor: nat, max: nat) -> (Seq<u8>, nat) {
    let end = if cursor + max <= data.len() {
        cursor + max
    } else {
        data.len()
    };
    (data.subrange(cursor as int, end as int), end)
}

/// A readable stream backend over an owned copy of a byte sequence. Reads
/// are sequential and consume the sequence exactly once; past the end they
/// signal end of stream by handing out no bytes.
pub struct MemorySource {
    data: Vec<u8>,
    cursor: usize,
}

impl MemorySource {
    /// The full byte sequence the source was loaded with.
    pub closed spec fn data(&self) -> Seq<u8> {
        self.data@
    }

    /// How many bytes have been consumed so far.
    pub closed spec fn cursor(&self) -> nat {
        self.cursor as nat
    }

    /// The cursor never passes the end of the data.
    pub open spec fn wf(&self) -> bool {
        self.cursor() <= self.data().len()
    }

    /// A source pre-loaded with `content`, not yet read. Construction
    /// always succeeds.
    pub fn from_bytes(content: Vec<u8>) -> (s: MemorySource)
        ensures
            s.wf(),
            s.data() == content@,
            s.cursor() == 0,
    {
        MemorySource { data: content, cursor: 0 }
    }

    pub fn is_exhausted(&self) -> (b: bool)
        ensures
            b == (self.cursor() == self.data().len()),
    {
        self.cursor == self.data.len()
    }

    /// The bytes not yet consumed, copied out without moving the cursor.
    pub fn unread(&self) -> (out: Vec<u8>)
        requires
            self.wf(),
        ensures
            out@ == self.data().subrange(self.cursor() as int, self.data().len() as int),
    {
        let mut out: Vec<u8> = Vec::new();
        let mut i: usize = self.cursor;
        while i < self.data.len()
            invariant
                self.cursor <= i <= self.data@.len(),
                out@ == self.data@.subrange(self.cursor as int, i as int),
            decreases self.data@.len() - i,
        {
            out.push(self.data[i]);
            assert(out@ =~= self.data@.subrange(self.cursor as int, i as int + 1));
            i = i + 1;
        }
        out
    }

    /// Hands out the next `max` bytes at most, moving the cursor past them.
    /// At the end of the data it hands out nothing.
    pub fn read(&mut self, max: usize) -> (out: Vec<u8>)
        requires
            old(self).wf(),
        ensures
            final(self).wf(),
            final(self).data() == old(self).data(),
            ({
                let (sb, sc) = spec_source_read(old(self).data(), old(self).cursor(), max as nat);
                &&& out@ == sb
                &&& final(self).cursor() == sc
            }),
    {
        let end: usize = if max <= self.data.len() - self.cursor {
            self.cursor + max
        } else {
            self.data.len()
        };
        let mut out: Vec<u8> = Vec::new();
        let mut i: usize = self.cursor;
        while i < end
            invariant
                self.cursor <= i <= end,
                end <= self.data@.len(),
                out@ == self.data@.subrange(self.cursor as int, i as int),
            decreases end - i,
        {
            out.push(self.data[i]);
            assert(out@ =~= self.data@.subrange(self.cursor as int, i as int + 1));
            i = i + 1;
        }
        self.cursor = end;
        out
    }
}

} // verus!
