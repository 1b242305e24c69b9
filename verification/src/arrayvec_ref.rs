//! A mutable reference to a vector, with the vector's growing functions.

use crate::errors::CapacityError;
use crate::vec::ArrayVec;
use vstd::pervasive::runtime_assert;
use vstd::prelude::*;

verus! {

/// A mutable reference to an `ArrayVec`, for code that appends to a vector
/// that it does not own.
pub struct ArrayVecRefMut<'a, T, const CAP: usize> {
    vec: &'a mut ArrayVec<T, CAP>,
}

impl<'a, T, const CAP: usize> ArrayVecRefMut<'a, T, CAP> {
    /// The elements of the vector referred to.
    pub closed spec fn view(&self) -> Seq<T> {
        (*self.vec)@
    }

    /// A reference to `vec`.
    pub fn new(vec: &'a mut ArrayVec<T, CAP>) -> (r: Self)
        ensures
            r.view() == old(vec)@,
    {
        ArrayVecRefMut { vec }
    }

    /// The capacity of the vector.
    pub fn capacity(&self) -> (c: usize)
        ensures
            c == CAP,
    {
        CAP
    }

    /// The number of elements of the vector.
    pub fn len(&self) -> (n: usize)
        ensures
            n == self.view().len(),
            n <= CAP,
    {
        self.vec.len()
    }

    /// Whether the vector is full.
    pub fn is_full(&self) -> (b: bool)
        ensures
            b == (self.view().len() == CAP),
    {
        self.vec.len() == self.capacity()
    }

    /// How many more elements the vector can take.
    pub fn remaining_capacity(&self) -> (n: usize)
        ensures
            n == CAP - self.view().len(),
    {
        self.capacity() - self.vec.len()
    }

    /// Appends `element` to the vector, which must have room.
    pub fn push(&mut self, element: T)
        requires
            old(self).view().len() < CAP,
        ensures
            final(self).view() == old(self).view().push(element),
    {
        runtime_assert(!self.is_full());
        let pushed = self.try_push(element);
    }

    /// Appends `element` to the vector if it has room; if not, the vector
    /// stays as it is and `element` comes back in the error.
    pub fn try_push(&mut self, element: T) -> (r: Result<(), CapacityError<T>>)
        ensures
            old(self).view().len() < CAP ==> r is Ok && final(self).view() == old(
                self,
            ).view().push(element),
            old(self).view().len() >= CAP ==> {
                &&& r is Err
                &&& r->Err_0@ == element
                &&& final(self).view() == old(self).view()
            },
    {
        self.vec.try_push(element)
    }
}

} // verus!
