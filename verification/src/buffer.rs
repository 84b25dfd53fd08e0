use vstd::prelude::*;

verus! {

/// An append-only byte buffer that a bounded sink writes into and that the
/// host may inspect afterwards. The host can freeze it; a frozen buffer
/// refuses any further append, so a sink built over it fails loudly instead
/// of mutating bytes the host believed fixed.
pub struct ByteBuffer {
    bytes: Vec<u8>,
    frozen: bool,
}

impl ByteBuffer {
    /// The bytes held so far, in the order they were appended.
    pub closed spec fn data(&self) -> Seq<u8> {
        self.bytes@
    }

    /// Whether the buffer currently refuses mutation.
    pub closed spec fn frozen(&self) -> bool {
        self.frozen
    }

    /// A fresh, empty, mutable buffer.
    pub fn new() -> (b: ByteBuffer)
        ensures
            b.data() == Seq::<u8>::empty(),
            !b.frozen(),
    {
        ByteBuffer { bytes: Vec::new(), frozen: false }
    }

    /// A mutable buffer pre-loaded with `bytes`.
    pub fn from_bytes(bytes: Vec<u8>) -> (b: ByteBuffer)
        ensures
            b.data() == bytes@,
            !b.frozen(),
    {
        ByteBuffer { bytes, frozen: false }
    }

    /// Marks the buffer immutable; its bytes are unchanged.
    pub fn freeze(&mut self)
        ensures
            final(self).data() == old(self).data(),
            final(self).frozen(),
    {
        self.frozen = true;
    }

    pub fn len(&self) -> (n: usize)
        ensures
            n == self.data().len(),
    {
        self.bytes.len()
    }

    pub fn is_frozen(&self) -> (b: bool)
        ensures
            b == self.frozen(),
    {
        self.frozen
    }

    /// The host's read-only view of the bytes captured so far.
    pub fn contents(&self) -> (r: &Vec<u8>)
        ensures
            r@ == self.data(),
    {
        &self.bytes
    }

    /// Appends every byte of `more`, in order. Only a mutable buffer may
    /// be appended to; the bounded sink checks that before calling.
    pub(crate) fn append(&mut self, more: &Vec<u8>)
        requires
            !old(self).frozen(),
        ensures
            final(self).data() == old(self).data() + more@,
            !final(self).frozen(),
    {
        let mut i: usize = 0;
        while i < more.len()
            invariant
                i <= more@.len(),
                self.bytes@ == old(self).bytes@ + more@.subrange(0, i as int),
                self.frozen == old(self).frozen,
            decreases more@.len() - i,
        {
            self.bytes.push(more[i]);
            assert(self.bytes@ == old(self).bytes@ + more@.subrange(0, i as int + 1)) by {
                assert(more@.subrange(0, i as int).push(more@[i as int]) =~= more@.subrange(
                    0,
                    i as int + 1,
                ));
            }
            i = i + 1;
        }
        assert(more@.subrange(0, more@.len() as int) =~= more@);
    }
}

} // verus!
