use vstd::prelude::*;

verus! {

/// Append-only accumulator of the compressed units that a session emits, in
/// emission order.
#[derive(Debug, Clone)]
pub struct OutputStream {
    bytes: Vec<u8>,
}

impl View for OutputStream {
    type V = Seq<u8>;

    closed spec fn view(&self) -> Seq<u8> {
        self.bytes@
    }
}

impl OutputStream {
    /// An empty stream.
    pub fn new() -> (r: OutputStream)
        ensures
            r@ == Seq::<u8>::empty(),
    {
        OutputStream { bytes: Vec::new() }
    }

    /// Copies `unit` to the end of the stream.
    pub fn append(&mut self, unit: &[u8])
        ensures
            final(self)@ == old(self)@ + unit@,
    {
        let mut i: usize = 0;
        while i < unit.len()
            invariant
                i <= unit@.len(),
                self@ == old(self)@ + unit@.subrange(0, i as int),
            decreases unit@.len() - i,
        {
            self.bytes.push(unit[i]);
            i += 1;
            assert(unit@.subrange(0, i as int) == unit@.subrange(0, i - 1 as int).push(unit@[i - 1]));
        }
        assert(unit@.subrange(0, unit@.len() as int) == unit@);
    }

    /// Number of bytes collected so far.
    pub fn len(&self) -> (r: usize)
        ensures
            r == self@.len(),
    {
        self.bytes.len()
    }

    /// The collected bytes.
    pub fn into_bytes(self) -> (r: Vec<u8>)
        ensures
            r@ == self@,
    {
        self.bytes
    }
}

} // verus!
