//! A vector with a fixed capacity that is itself `Copy`.

use crate::errors::CapacityError;
use crate::errors::PubCrateNew;
use crate::misc::range_end;
use crate::misc::range_start;
use crate::misc::RangeArgument;
use crate::raw::retained;
use crate::raw::Drain;
use crate::raw::RawArrayVec;
use vstd::pervasive::runtime_assert;
use vstd::prelude::*;
use crate::order::lex_order;
use core::cmp::Ordering;
use vstd::std_specs::cmp::PartialEqSpec;
use vstd::std_specs::cmp::PartialOrdSpec;
use vstd::std_specs::cmp::PartialOrdSpecImpl;
use vstd::std_specs::cmp::PartialEqSpecImpl;
use vstd::std_specs::iter::IteratorSpec;

verus! {

/// A vector with a fixed capacity that implements `Copy`.
///
/// The `ArrayVecCopy` is a vector backed by a fixed size array. It keeps
/// track of the number of initialized elements. The `ArrayVecCopy<T, CAP>` is
/// parameterized by `T` for the element type and `CAP` for the maximum
/// capacity.
///
/// An operation that finds no room changes nothing: the functions whose
/// names begin with `try_` return the rejected element in an error, and the
/// others must not be called on a vector without room.
#[derive(Debug)]
pub struct ArrayVecCopy<T: Copy, const CAP: usize> {
    inner: RawArrayVec<T, CAP>,
}

impl<T: Copy, const CAP: usize> Clone for ArrayVecCopy<T, CAP> {
    fn clone(&self) -> (r: Self)
        ensures
            r == *self,
    {
        *self
    }
}

impl<T: Copy, const CAP: usize> Copy for ArrayVecCopy<T, CAP> {

}

impl<T: PartialEq + Copy, const CAP: usize> PartialEq for ArrayVecCopy<T, CAP> {
    /// Two vectors are equal if they have the same length and equal
    /// elements at each index.
    fn eq(&self, other: &Self) -> (r: bool) {
        self.inner.eq(&other.inner)
    }
}

impl<T: PartialEq + Copy, const CAP: usize> PartialEqSpecImpl for ArrayVecCopy<T, CAP> {
    open spec fn obeys_eq_spec() -> bool {
        T::obeys_eq_spec()
    }

    open spec fn eq_spec(&self, other: &Self) -> bool {
        &&& self@.len() == other@.len()
        &&& forall|i: int| 0 <= i < self@.len() ==> #[trigger] self@[i].eq_spec(&other@[i])
    }
}

impl<T: Eq + Copy, const CAP: usize> Eq for ArrayVecCopy<T, CAP> {

}

impl<T: PartialOrd + Copy, const CAP: usize> PartialOrd for ArrayVecCopy<T, CAP> {
    /// Vectors are ordered as their elements are, position by position;
    /// where one vector is the beginning of the other, it comes first.
    fn partial_cmp(&self, other: &Self) -> (r: Option<Ordering>) {
        self.inner.partial_cmp(&other.inner)
    }
}

impl<T: PartialOrd + Copy, const CAP: usize> PartialOrdSpecImpl for ArrayVecCopy<T, CAP> {
    open spec fn obeys_partial_cmp_spec() -> bool {
        T::obeys_partial_cmp_spec()
    }

    open spec fn partial_cmp_spec(&self, other: &Self) -> Option<Ordering> {
        lex_order(self@, other@)
    }
}

impl<T: Copy, const CAP: usize> Default for ArrayVecCopy<T, CAP> {
    /// Return an empty array
    fn default() -> (r: Self)
        ensures
            r@ == Seq::<T>::empty(),
    {
        ArrayVecCopy::new()
    }
}

impl<T: Copy, const CAP: usize> View for ArrayVecCopy<T, CAP> {
    type V = Seq<T>;

    /// The elements of the vector, in order.
    closed spec fn view(&self) -> Seq<T> {
        self.inner@
    }
}

impl<T: Copy, const CAP: usize> ArrayVecCopy<T, CAP> {
    /// Whatever was done to a vector, its length lies between 0 and `CAP`.
    pub proof fn lemma_len_bounded(&self)
        ensures
            0 <= self@.len() <= CAP,
    {
        self.inner.lemma_len_bounded();
    }

    /// Create a new empty `ArrayVecCopy`.
    pub fn new() -> (r: Self)
        ensures
            r@ == Seq::<T>::empty(),
    {
        ArrayVecCopy { inner: RawArrayVec::new() }
    }

    /// Create a new empty `ArrayVecCopy`, for use as the start of a chain of
    /// `const_push` calls.
    pub fn new_const() -> (r: Self)
        ensures
            r@ == Seq::<T>::empty(),
    {
        Self::new()
    }

    /// Create a full `ArrayVecCopy` from an array.
    pub fn from(array: [T; CAP]) -> (r: Self)
        ensures
            r@ == array@,
    {
        ArrayVecCopy { inner: RawArrayVec::from(array) }
    }

    /// The vector with `element` appended. The vector must have room.
    pub fn const_push(self, element: T) -> (r: Self)
        requires
            self@.len() < CAP,
        ensures
            r@ == self@.push(element),
    {
        runtime_assert(!self.is_full());
        self.const_push_unchecked(element)
    }

    /// The vector with `element` appended, or `element` in an error if the
    /// vector has no room.
    pub fn const_try_push(self, element: T) -> (r: Result<Self, CapacityError<T>>)
        ensures
            self@.len() < CAP ==> r is Ok && r->Ok_0@ == self@.push(element),
            self@.len() >= CAP ==> r is Err && r->Err_0@ == element,
    {
        if self.len() < CAP {
            Ok(self.const_push_unchecked(element))
        } else {
            Err(CapacityError::new(element))
        }
    }

    /// The vector with `element` appended, for a caller who knows that there
    /// is room.
    pub fn const_push_unchecked(self, element: T) -> (r: Self)
        requires
            self@.len() < CAP,
        ensures
            r@ == self@.push(element),
    {
        let mut this = self;
        this.push_unchecked(element);
        this
    }

    /// Return the number of elements in the `ArrayVecCopy`.
    pub fn len(&self) -> (n: usize)
        ensures
            n == self@.len(),
            n <= CAP,
    {
        self.inner.len()
    }

    /// Returns whether the `ArrayVecCopy` is empty.
    pub fn is_empty(&self) -> (b: bool)
        ensures
            b == (self@.len() == 0),
    {
        self.len() == 0
    }

    /// Return the capacity of the `ArrayVecCopy`.
    pub fn capacity(&self) -> (c: usize)
        ensures
            c == CAP,
    {
        CAP
    }

    /// Return true if the `ArrayVecCopy` is completely filled to its
    /// capacity, false otherwise.
    pub fn is_full(&self) -> (b: bool)
        ensures
            b == (self@.len() == CAP),
    {
        self.len() == self.capacity()
    }

    /// Returns the capacity left in the `ArrayVecCopy`.
    pub fn remaining_capacity(&self) -> (n: usize)
        ensures
            n == CAP - self@.len(),
    {
        self.capacity() - self.len()
    }

    /// The element at `index`.
    pub fn get(&self, index: usize) -> (r: &T)
        requires
            index < self@.len(),
        ensures
            *r == self@[index as int],
    {
        self.inner.get(index)
    }

    /// Mutable access to the element at `index`.
    pub fn get_mut(&mut self, index: usize) -> (r: &mut T)
        requires
            index < old(self)@.len(),
        ensures
            *r == old(self)@[index as int],
            final(self)@ == old(self)@.update(index as int, *final(r)),
    {
        self.inner.get_mut(index)
    }

    /// Push `element` to the end of the vector, which must have room.
    pub fn push(&mut self, element: T)
        requires
            old(self)@.len() < CAP,
        ensures
            final(self)@ == old(self)@.push(element),
    {
        runtime_assert(!self.is_full());
        self.push_unchecked(element)
    }

    /// Push `element` to the end of the vector.
    ///
    /// Return `Ok` if the push succeeds, or return an error if the vector
    /// is full: the vector is then unchanged and the error holds `element`.
    pub fn try_push(&mut self, element: T) -> (r: Result<(), CapacityError<T>>)
        ensures
            old(self)@.len() < CAP ==> r is Ok && final(self)@ == old(self)@.push(element),
            old(self)@.len() >= CAP ==> r is Err && r->Err_0@ == element && final(self)@ == old(
                self,
            )@,
    {
        self.inner.push(element)
    }

    /// Push `element` to the end of the vector without checking the
    /// capacity, for a caller who knows that there is room.
    pub fn push_unchecked(&mut self, element: T)
        requires
            old(self)@.len() < CAP,
        ensures
            final(self)@ == old(self)@.push(element),
    {
        let pushed = self.inner.push(element);
    }

    /// Remove the last element in the vector and return it.
    ///
    /// Return `Some(` *element* `)` if the vector is non-empty, else `None`.
    pub fn pop(&mut self) -> (r: Option<T>)
        ensures
            old(self)@.len() == 0 ==> r is None && final(self)@ == old(self)@,
            old(self)@.len() > 0 ==> r == Some(old(self)@.last()) && final(self)@ == old(
                self,
            )@.drop_last(),
    {
        self.inner.pop()
    }

    /// Insert `element` at position `index`, which must not be beyond the
    /// length, into a vector that has room.
    ///
    /// Shift up all elements after `index`.
    pub fn insert(&mut self, index: usize, element: T)
        requires
            index <= old(self)@.len(),
            old(self)@.len() < CAP,
        ensures
            final(self)@ == old(self)@.insert(index as int, element),
    {
        runtime_assert(index <= self.len() && !self.is_full());
        self.inner.insert_unchecked(index, element)
    }

    /// Insert `element` at position `index`, which must not be beyond the
    /// length.
    ///
    /// Shift up all elements after `index`. A full vector is left as it is,
    /// and the error holds `element`.
    pub fn try_insert(&mut self, index: usize, element: T) -> (r: Result<(), CapacityError<T>>)
        requires
            index <= old(self)@.len(),
        ensures
            old(self)@.len() < CAP ==> r is Ok && final(self)@ == old(self)@.insert(
                index as int,
                element,
            ),
            old(self)@.len() >= CAP ==> r is Err && r->Err_0@ == element && final(self)@ == old(
                self,
            )@,
    {
        self.inner.try_insert(index, element)
    }

    /// Remove the element at `index`, which must be below the length, and
    /// shift down the following elements.
    pub fn remove(&mut self, index: usize) -> (r: T)
        requires
            index < old(self)@.len(),
        ensures
            r == old(self)@[index as int],
            final(self)@ == old(self)@.remove(index as int),
    {
        runtime_assert(index < self.len());
        self.inner.remove_unchecked(index)
    }

    /// Remove the element at `index` and shift down the following elements.
    ///
    /// Return `Some(` *element* `)` if the index is in bounds, else `None`.
    pub fn pop_at(&mut self, index: usize) -> (r: Option<T>)
        ensures
            index < old(self)@.len() ==> r == Some(old(self)@[index as int]) && final(self)@
                == old(self)@.remove(index as int),
            index >= old(self)@.len() ==> r is None && final(self)@ == old(self)@,
    {
        self.inner.remove(index)
    }

    /// Remove the element at `index`, which must be below the length, and
    /// swap the last element into its place.
    pub fn swap_remove(&mut self, index: usize) -> (r: T)
        requires
            index < old(self)@.len(),
        ensures
            r == old(self)@[index as int],
            final(self)@ == old(self)@.update(index as int, old(self)@.last()).drop_last(),
    {
        runtime_assert(index < self.len());
        self.inner.swap_remove(index).unwrap()
    }

    /// Remove the element at `index` and swap the last element into its
    /// place.
    ///
    /// Return `Some(` *element* `)` if the index is in bounds, else `None`.
    pub fn swap_pop(&mut self, index: usize) -> (r: Option<T>)
        ensures
            index < old(self)@.len() ==> r == Some(old(self)@[index as int]) && final(self)@
                == old(self)@.update(index as int, old(self)@.last()).drop_last(),
            index >= old(self)@.len() ==> r is None && final(self)@ == old(self)@,
    {
        self.inner.swap_remove(index)
    }

    /// Shortens the vector, keeping the first `new_len` elements and
    /// dropping the rest. A vector that is not longer stays as it is.
    pub fn truncate(&mut self, new_len: usize)
        ensures
            new_len < old(self)@.len() ==> final(self)@ == old(self)@.take(new_len as int),
            new_len >= old(self)@.len() ==> final(self)@ == old(self)@,
    {
        self.inner.truncate(new_len)
    }

    /// Remove all elements in the vector.
    pub fn clear(&mut self)
        ensures
            final(self)@ == Seq::<T>::empty(),
    {
        self.inner.clear()
    }

    /// Retains only the elements specified by the predicate.
    ///
    /// In other words, remove all elements `e` such that `f(&mut e)` returns
    /// false. This method operates in place and preserves the order of the
    /// retained elements.
    pub fn retain<F: FnMut(&mut T) -> bool>(&mut self, f: F)
        requires
            forall|e: &mut T| call_requires(f, (e,)),
        ensures
            exists|vals: Seq<T>, keep: Seq<bool>|
                {
                    &&& vals.len() == old(self)@.len()
                    &&& keep.len() == old(self)@.len()
                    &&& forall|i: int|
                        #![trigger keep[i]]
                        0 <= i < keep.len() && keep[i] ==> exists|e: &mut T|
                            *e == old(self)@[i] && *final(e) == vals[i] && #[trigger] call_ensures(
                                f,
                                (e,),
                                true,
                            )
                    &&& forall|i: int|
                        #![trigger keep[i]]
                        0 <= i < keep.len() && !keep[i] ==> exists|e: &mut T|
                            *e == old(self)@[i] && *final(e) == vals[i] && #[trigger] call_ensures(
                                f,
                                (e,),
                                false,
                            )
                    &&& final(self)@ == retained(vals, keep)
                },
    {
        self.inner.retain(f)
    }

    /// The elements from `start` up to, but not including, `end`, removed
    /// from the vector.
    pub fn drain_range(&mut self, start: usize, end: usize) -> (r: Drain<T, CAP>)
        requires
            start <= end <= old(self)@.len(),
        ensures
            r@ == old(self)@.subrange(start as int, end as int),
            final(self)@ == old(self)@.subrange(0, start as int) + old(self)@.subrange(
                end as int,
                old(self)@.len() as int,
            ),
    {
        self.inner.drain_range(start, end)
    }

    /// Create a draining iterator that removes the specified range in the
    /// vector and yields the removed items from start to end. The element
    /// range is removed even if the iterator is not consumed until the end.
    pub fn drain<R: RangeArgument>(&mut self, range: R) -> (r: Drain<T, CAP>)
        requires
            0 <= range_start(&range) <= range_end(&range, old(self)@.len() as int) <= old(
                self,
            )@.len(),
        ensures
            r@ == old(self)@.subrange(
                range_start(&range),
                range_end(&range, old(self)@.len() as int),
            ),
            final(self)@ == old(self)@.subrange(0, range_start(&range)) + old(self)@.subrange(
                range_end(&range, old(self)@.len() as int),
                old(self)@.len() as int,
            ),
    {
        self.inner.drain(range)
    }

    /// Return the inner fixed size array, if it is full to its capacity.
    ///
    /// Return an `Ok` value with the array if length equals capacity,
    /// return an `Err` with self otherwise.
    pub fn into_inner(self) -> (r: Result<[T; CAP], Self>)
        ensures
            self@.len() == CAP ==> r is Ok && r->Ok_0@ == self@,
            self@.len() < CAP ==> r is Err && r->Err_0@ == self@,
    {
        proof {
            self.inner.lemma_len_bounded();
        }
        match self.inner.into_inner() {
            Ok(array) => Ok(array),
            Err(inner) => Err(ArrayVecCopy { inner }),
        }
    }

    /// Returns the vector's contents and leaves the vector empty.
    pub fn take(&mut self) -> (r: Self)
        ensures
            r@ == old(self)@,
            final(self)@ == Seq::<T>::empty(),
    {
        let r = *self;
        self.clear();
        r
    }

    /// Dispose of `self`.
    pub fn dispose(self) {
    }

    /// Iterate the `ArrayVecCopy` with each element by value.
    pub fn into_iter(self) -> (r: IntoIter<T, CAP>)
        ensures
            r@ == self@,
    {
        IntoIter { v: self.inner.into_drain() }
    }

    /// Extend the `ArrayVecCopy` with all that `iter` gives, which must not
    /// be more than there is room for.
    pub fn extend<I: Iterator<Item = T>>(&mut self, iter: &mut I)
        requires
            (*old(iter)).obeys_prophetic_iter_laws(),
            (*old(iter)).remaining().len() <= CAP - old(self)@.len(),
        ensures
            final(self)@ == old(self)@ + (*old(iter)).remaining(),
            (*final(iter)).remaining() == Seq::<T>::empty(),
    {
        self.inner.extend_from_iter(iter);
        // One more element than fits is the caller's mistake.
        let surplus = iter.next();
        runtime_assert(surplus.is_none());
    }

    /// Create an `ArrayVecCopy` from all that `iter` gives, which must not
    /// be more than `CAP` elements.
    pub fn from_iter<I: Iterator<Item = T>>(iter: &mut I) -> (r: Self)
        requires
            (*old(iter)).obeys_prophetic_iter_laws(),
            (*old(iter)).remaining().len() <= CAP,
        ensures
            r@ == (*old(iter)).remaining(),
            (*final(iter)).remaining() == Seq::<T>::empty(),
    {
        let mut array = Self::new();
        array.extend(iter);
        assert(Seq::<T>::empty() + (*old(iter)).remaining() =~= (*old(iter)).remaining());
        array
    }

    /// Copy all elements from the slice and append to the `ArrayVecCopy`,
    /// if they all fit; if they do not, nothing changes.
    pub fn try_extend_from_slice(&mut self, other: &[T]) -> (r: Result<(), CapacityError<()>>)
        ensures
            other@.len() <= CAP - old(self)@.len() ==> r is Ok && final(self)@ == old(self)@
                + other@,
            other@.len() > CAP - old(self)@.len() ==> r is Err && final(self)@ == old(self)@,
    {
        self.inner.try_extend_from_slice(other)
    }

    /// Copy all elements from the slice, which must fit, and append to the
    /// `ArrayVecCopy`.
    pub fn extend_from_slice(&mut self, other: &[T])
        requires
            other@.len() <= CAP - old(self)@.len(),
        ensures
            final(self)@ == old(self)@ + other@,
    {
        runtime_assert(other.len() <= self.remaining_capacity());
        self.inner.extend_from_slice(other)
    }

    /// An `ArrayVecCopy` with copies of the elements of `slice`, or an error
    /// if they are more than `CAP`.
    pub fn try_from(slice: &[T]) -> (r: Result<Self, CapacityError<()>>)
        ensures
            slice@.len() <= CAP ==> r is Ok && r->Ok_0@ == slice@,
            slice@.len() > CAP ==> r is Err,
    {
        let mut array = Self::new();
        match array.try_extend_from_slice(slice) {
            Ok(_) => {
                assert(Seq::<T>::empty() + slice@ =~= slice@);
                Ok(array)
            },
            Err(e) => Err(e),
        }
    }

    /// Makes `self` hold copies of the elements of `rhs`.
    pub fn clone_from(&mut self, rhs: &Self)
        ensures
            final(self)@ == rhs@,
    {
        self.inner.clone_from(&rhs.inner)
    }

    /// The elements, copied into a `Vec`.
    pub fn to_vec(&self) -> (r: Vec<T>)
        ensures
            r@ == self@,
    {
        let mut r = Vec::new();
        let mut i: usize = 0;
        while i < self.len()
            invariant
                i <= self@.len(),
                r@ == self@.take(i as int),
            decreases self@.len() - i,
        {
            r.push(*self.get(i));
            assert(self@.take(i + 1) =~= self@.take(i as int).push(self@[i as int]));
            i = i + 1;
        }
        assert(self@.take(self@.len() as int) =~= self@);
        r
    }

    /// All `CAP` slots of the backing buffer, live or not.
    pub closed spec fn slots(&self) -> Seq<Option<T>> {
        self.inner.slots()
    }

    /// The backing buffer has `CAP` slots.
    pub proof fn lemma_slots_len(&self)
        ensures
            self.slots().len() == CAP,
    {
        self.inner.lemma_slots_len();
    }

    /// Set the vector's length without dropping or moving out elements.
    ///
    /// Lowering the length is always possible: the elements cut off stay in
    /// their slots, out of reach. Raising it needs every slot that becomes
    /// live to hold a value.
    pub fn set_len(&mut self, length: usize)
        requires
            length <= CAP,
            forall|i: int|
                old(self)@.len() <= i < length ==> (#[trigger] old(self).slots()[i]) is Some,
        ensures
            final(self).slots() == old(self).slots(),
            final(self)@.len() == length,
            forall|i: int|
                0 <= i < length ==> Some(#[trigger] final(self)@[i]) == old(self).slots()[i],
            forall|i: int|
                0 <= i < old(self)@.len() ==> (#[trigger] old(self).slots()[i]) == Some(
                    old(self)@[i],
                ),
            length <= old(self)@.len() ==> final(self)@ == old(self)@.take(length as int),
    {
        assert forall|i: int| self@.len() <= i < length implies (
        #[trigger] self.inner.slots()[i]) is Some by {
            assert(self.slots()[i] is Some);
        }
        self.inner.set_len(length)
    }
}

impl<const CAP: usize> ArrayVecCopy<u8, CAP> {
    /// `Write` appends written data to the end of the vector: as many
    /// bytes of `data` as fit, from its start. Returns their number.
    pub fn write(&mut self, data: &[u8]) -> (written: usize)
        ensures
            written == if data@.len() <= CAP - old(self)@.len() {
                data@.len() as int
            } else {
                CAP - old(self)@.len()
            },
            final(self)@ == old(self)@ + data@.take(written as int),
    {
        self.inner.write(data)
    }
}

/// By-value iterator for `ArrayVecCopy`.
#[derive(Debug)]
pub struct IntoIter<T: Copy, const CAP: usize> {
    v: Drain<T, CAP>,
}

impl<T: Copy, const CAP: usize> View for IntoIter<T, CAP> {
    type V = Seq<T>;

    /// The elements not yet handed out, in order.
    closed spec fn view(&self) -> Seq<T> {
        self.v@
    }
}

impl<T: Copy, const CAP: usize> IntoIter<T, CAP> {
    /// Hands out the first of the remaining elements.
    pub fn next(&mut self) -> (r: Option<T>)
        ensures
            old(self)@.len() == 0 ==> r is None && final(self)@ == old(self)@,
            old(self)@.len() > 0 ==> r == Some(old(self)@.first()) && final(self)@ == old(
                self,
            )@.drop_first(),
    {
        self.v.next()
    }

    /// Hands out the last of the remaining elements.
    pub fn next_back(&mut self) -> (r: Option<T>)
        ensures
            old(self)@.len() == 0 ==> r is None && final(self)@ == old(self)@,
            old(self)@.len() > 0 ==> r == Some(old(self)@.last()) && final(self)@ == old(
                self,
            )@.drop_last(),
    {
        self.v.next_back()
    }

    /// The bounds on what is left: both are the exact number.
    pub fn size_hint(&self) -> (r: (usize, Option<usize>))
        ensures
            r.0 == self@.len(),
            r.1 == Some(r.0),
    {
        self.v.size_hint()
    }
}

} // verus!
