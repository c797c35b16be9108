//! The fuzz test case: an owned, ordered sequence of bytes.

use vstd::prelude::*;

verus! {

/// A fuzz test case. Owned exclusively by whichever component currently
/// holds it; mutation always produces a fresh `Input`, never an alias.
pub struct Input {
    bytes: Vec<u8>,
}

impl View for Input {
    type V = Seq<u8>;

    closed spec fn view(&self) -> Seq<u8> {
        self.bytes@
    }
}

/// Copy a byte vector into fresh storage.
pub fn copy_bytes(v: &Vec<u8>) -> (r: Vec<u8>)
    ensures
        r@ == v@,
{
    let mut out: Vec<u8> = Vec::new();
    let mut i: usize = 0;
    while i < v.len()
        invariant
            i <= v.len(),
            out@ == v@.take(i as int),
        decreases v.len() - i,
    {
        out.push(v[i]);
        assert(v@.take(i as int).push(v@[i as int]) =~= v@.take(i + 1));
        i = i + 1;
    }
    assert(out@ =~= v@);
    out
}

impl Input {
    /// The empty input.
    pub fn new() -> (r: Input)
        ensures
            r@ == Seq::<u8>::empty(),
    {
        Input { bytes: Vec::new() }
    }

    /// Wrap an owned byte vector as an input.
    pub fn from_bytes(bytes: Vec<u8>) -> (r: Input)
        ensures
            r@ == bytes@,
    {
        Input { bytes }
    }

    /// Number of bytes.
    pub fn len(&self) -> (n: usize)
        ensures
            n == self@.len(),
    {
        self.bytes.len()
    }

    /// Borrow the underlying bytes.
    pub fn as_bytes(&self) -> (r: &Vec<u8>)
        ensures
            r@ == self@,
    {
        &self.bytes
    }

    /// Surrender the underlying bytes.
    pub fn into_bytes(self) -> (r: Vec<u8>)
        ensures
            r@ == self@,
    {
        self.bytes
    }

    /// A byte-identical copy in fresh storage.
    pub fn duplicate(&self) -> (r: Input)
        ensures
            r@ == self@,
    {
        Input { bytes: copy_bytes(&self.bytes) }
    }
}

} // verus!
