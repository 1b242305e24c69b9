//! Arrays of a fixed size, as the backing store of the containers.

use vstd::prelude::*;

verus! {

/// Trait for fixed size arrays.
pub trait Array: Sized {
    /// The array's element type
    type Item;

    /// The number of elements of an array of this type.
    spec fn spec_capacity() -> usize;

    /// The elements of the array.
    spec fn elements(&self) -> Seq<Self::Item>;

    /// The number of elements of an array of this type.
    fn capacity() -> (c: usize)
        ensures
            c == Self::spec_capacity(),
    ;

    /// The array as a slice.
    fn as_slice(&self) -> (s: &[Self::Item])
        ensures
            s@ == self.elements(),
            s@.len() == Self::spec_capacity(),
    ;
}

impl<T, const N: usize> Array for [T; N] {
    type Item = T;

    open spec fn spec_capacity() -> usize {
        N
    }

    open spec fn elements(&self) -> Seq<T> {
        self@
    }

    fn capacity() -> (c: usize) {
        N
    }

    fn as_slice(&self) -> (s: &[T]) {
        vstd::array::array_as_slice(self)
    }
}

} // verus!
