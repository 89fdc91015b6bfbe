//! Bounded sequence views over paired (pointer, length) native arguments.
//!
//! A native parameter that is a pointer immediately followed by a length is
//! marshaled into one bounded view over the pointed-at elements; the length
//! argument is consumed by the pairing and does not appear on its own.  The
//! view models a borrowed native region: its length is fixed for the whole
//! call, so a handler can read and overwrite elements but can neither grow
//! nor shrink what the native caller owns.

use vstd::prelude::*;

verus! {

/// The view constructed from a (pointer, length) pair: exactly the bytes of
/// the region, in order.
pub open spec fn spec_view_of_pair(bytes: Seq<u8>) -> Seq<u8> {
    bytes
}

/// The (region, length) pair a view is written back to at call exit.
pub open spec fn spec_pair_of_view(bytes: Seq<u8>) -> (Seq<u8>, int) {
    (bytes, bytes.len() as int)
}

/// A bounded read-write view over one native byte region.  The field stays
/// private so that every way of changing the view keeps its length.
pub struct ByteView {
    bytes: Vec<u8>,
}

impl View for ByteView {
    type V = Seq<u8>;

    closed spec fn view(&self) -> Seq<u8> {
        self.bytes@
    }
}

impl ByteView {
    /// Entry marshaling for a paired (pointer, length) argument.  The
    /// region carries exactly `len` bytes; the zero-length pair yields the
    /// empty view.  There is no failure path: every pair marshals.
    pub fn from_pair(bytes: Vec<u8>, len: usize) -> (v: ByteView)
        requires
            len == bytes@.len(),
        ensures
            v@ == spec_view_of_pair(bytes@),
            v@.len() == len,
    {
        ByteView { bytes }
    }

    /// Exit marshaling: the view handed back as the (region, length) pair
    /// the native caller provided, byte for byte.
    pub fn into_pair(self) -> (r: (Vec<u8>, usize))
        ensures
            (r.0@, r.1 as int) == spec_pair_of_view(self@),
    {
        let len = self.bytes.len();
        (self.bytes, len)
    }

    /// The fixed number of bytes in the region.
    pub fn len(&self) -> (n: usize)
        ensures
            n == self@.len(),
    {
        self.bytes.len()
    }

    /// Reads one byte of the region.
    pub fn read(&self, i: usize) -> (b: u8)
        requires
            i < self@.len(),
        ensures
            b == self@[i as int],
    {
        self.bytes[i]
    }

    /// Overwrites one byte of the region; the length cannot change.
    pub fn write(&mut self, i: usize, b: u8)
        requires
            i < old(self)@.len(),
        ensures
            final(self)@ == old(self)@.update(i as int, b),
            final(self)@.len() == old(self)@.len(),
    {
        self.bytes[i] = b;
    }

    /// Reads the whole region, for callers that consume it at once.
    pub fn as_bytes(&self) -> (r: &Vec<u8>)
        ensures
            r@ == self@,
    {
        &self.bytes
    }
}

/// Marshaling a (pointer, length) pair into a view and back reproduces the
/// original region exactly, at every size; the zero-length pair becomes the
/// empty view rather than a failure.
pub proof fn lemma_pair_round_trip(bytes: Seq<u8>)
    ensures
        spec_pair_of_view(spec_view_of_pair(bytes)) == (bytes, bytes.len() as int),
        bytes.len() == 0 ==> spec_view_of_pair(bytes) == Seq::<u8>::empty(),
{
    assert(bytes.len() == 0 ==> bytes =~= Seq::<u8>::empty());
}

} // verus!
