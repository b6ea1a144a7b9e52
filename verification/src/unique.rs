//! A single-owner address, in the spirit of C++'s `unique_ptr`.

use core::marker::PhantomData;
use vstd::prelude::*;

verus! {

/// The address of a heap value of `T` that has exactly one owner. The
/// address is carried as a plain integer, with zero as the null sentinel;
/// the embedding program, which alone dereferences it, releases the value
/// when the owner goes out of scope.
pub struct UniquePtr<T>(pub usize, pub PhantomData<T>);

impl<T> UniquePtr<T> {
    /// True exactly of the null sentinel.
    #[inline]
    pub fn is_null(&self) -> (b: bool)
        ensures
            b == (self.0 == 0),
    {
        self.0 == 0
    }
}

} // verus!
