//! A byte buffer that changes size on use with a C function.

use vstd::prelude::*;

verus! {

/// The byte run resized to exactly `n` bytes: truncated, or zero-padded at
/// the end.
pub open spec fn pad_bytes(bytes: Seq<u8>, n: int) -> Seq<u8> {
    if n <= bytes.len() {
        bytes.take(n)
    } else {
        bytes + Seq::new((n - bytes.len()) as nat, |i: int| 0u8)
    }
}

/// A buffer meant to be resized for each call into a C function that fills
/// it: the caller asks for room for `count` values of some `T`, hands the
/// storage out, and reads the result back element-wise.
pub struct DynBuffer {
    inner: Vec<u8>,
}

impl DynBuffer {
    /// The spec-level contents of the buffer, as raw bytes.
    pub closed spec fn spec_bytes(&self) -> Seq<u8> {
        self.inner@
    }

    /// A new empty buffer.
    pub fn new() -> (r: Self)
        ensures
            r.spec_bytes() == Seq::<u8>::empty(),
    {
        DynBuffer { inner: Vec::new() }
    }

    /// A new empty buffer with room reserved, for one that must take
    /// several different sizes in turn.
    pub fn with_capacity(capacity: usize) -> (r: Self)
        ensures
            r.spec_bytes() == Seq::<u8>::empty(),
    {
        DynBuffer { inner: Vec::with_capacity(capacity) }
    }

    /// The number of whole `T` values the buffer holds.
    pub fn len<T>(&self) -> (n: usize)
        requires
            vstd::layout::size_of::<T>() > 0,
        ensures
            n == self.spec_bytes().len() as int / vstd::layout::size_of::<T>() as int,
    {
        self.inner.len() / core::mem::size_of::<T>()
    }

    /// Resizes the storage to hold exactly `count` values of `T` — the kept
    /// prefix unchanged, any extension zero — and hands it out for a C
    /// function to fill.
    pub fn as_dyn_ptr<T>(&mut self, count: usize) -> (storage: &mut [u8])
        requires
            vstd::layout::size_of::<T>() * count <= usize::MAX,
        ensures
            storage@ == pad_bytes(
                old(self).spec_bytes(),
                vstd::layout::size_of::<T>() * count as int,
            ),
            final(self).spec_bytes() == final(storage)@,
    {
        let size = core::mem::size_of::<T>() * count;
        let ghost before = self.inner@;
        self.inner.resize(size, 0);
        proof {
            assert(self.inner@ =~= pad_bytes(before, size as int));
        }
        self.inner.as_mut_slice()
    }
}

} // verus!
