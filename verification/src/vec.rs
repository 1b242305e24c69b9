//! A vector with a fixed capacity.

use crate::misc::range_end;
use crate::misc::range_start;
use crate::misc::RangeArgument;
use crate::raw::retained;
use crate::raw::Drain;
use crate::raw::RawArrayVec;
use vstd::prelude::*;
use crate::order::lex_order;
use core::cmp::Ordering;
use vstd::std_specs::cmp::PartialEqSpec;
use vstd::std_specs::cmp::PartialOrdSpec;
use vstd::std_specs::cmp::PartialOrdSpecImpl;
use vstd::std_specs::cmp::PartialEqSpecImpl;
use vstd::std_specs::iter::IteratorSpec;

verus! {

/// A vector with a fixed capacity.
///
/// The `ArrayVec` is a vector backed by a fixed size array. It keeps track of
/// the number of initialized elements, which never exceeds `CAP`.
///
/// Where an operation finds no room, it hands back the element that is left
/// over: `push` the one it was given, `insert` the one that it shifted out
/// at the end. The functions whose names begin with `try_` leave a full
/// vector untouched instead.
#[derive(Debug)]
pub struct ArrayVec<T, const CAP: usize> {
    inner: RawArrayVec<T, CAP>,
}

impl<T: PartialEq, const CAP: usize> PartialEq for ArrayVec<T, CAP> {
    /// Two vectors are equal if they have the same length and equal
    /// elements at each index.
    fn eq(&self, other: &Self) -> (r: bool) {
        self.inner.eq(&other.inner)
    }
}

impl<T: PartialEq, const CAP: usize> PartialEqSpecImpl for ArrayVec<T, CAP> {
    open spec fn obeys_eq_spec() -> bool {
        T::obeys_eq_spec()
    }

    open spec fn eq_spec(&self, other: &Self) -> bool {
        &&& self@.len() == other@.len()
        &&& forall|i: int| 0 <= i < self@.len() ==> #[trigger] self@[i].eq_spec(&other@[i])
    }
}

impl<T: Eq, const CAP: usize> Eq for ArrayVec<T, CAP> {

}

impl<T: Clone, const CAP: usize> Clone for ArrayVec<T, CAP> {
    /// A vector of clones of the elements, in the same order.
    fn clone(&self) -> (r: Self)
        ensures
            r@.len() == self@.len(),
            forall|i: int| 0 <= i < self@.len() ==> cloned(self@[i], #[trigger] r@[i]),
    {
        let mut r = ArrayVec::new();
        let mut i: usize = 0;
        while i < self.len()
            invariant
                i <= self@.len(),
                r@.len() == i,
                forall|j: int| 0 <= j < i ==> cloned(self@[j], #[trigger] r@[j]),
            decreases self@.len() - i,
        {
            let pushed = r.push(self.get(i).clone());
            i = i + 1;
        }
        r
    }
}

impl<T: PartialOrd, const CAP: usize> PartialOrd for ArrayVec<T, CAP> {
    /// Vectors are ordered as their elements are, position by position;
    /// where one vector is the beginning of the other, it comes first.
    fn partial_cmp(&self, other: &Self) -> (r: Option<Ordering>) {
        self.inner.partial_cmp(&other.inner)
    }
}

impl<T: PartialOrd, const CAP: usize> PartialOrdSpecImpl for ArrayVec<T, CAP> {
    open spec fn obeys_partial_cmp_spec() -> bool {
        T::obeys_partial_cmp_spec()
    }

    open spec fn partial_cmp_spec(&self, other: &Self) -> Option<Ordering> {
        lex_order(self@, other@)
    }
}

impl<T, const CAP: usize> Default for ArrayVec<T, CAP> {
    /// An empty vector.
    fn default() -> (r: Self)
        ensures
            r@ == Seq::<T>::empty(),
    {
        ArrayVec::new()
    }
}

impl<T, const CAP: usize> View for ArrayVec<T, CAP> {
    type V = Seq<T>;

    /// The elements of the vector, in order.
    closed spec fn view(&self) -> Seq<T> {
        self.inner@
    }
}

impl<T, const CAP: usize> ArrayVec<T, CAP> {
    /// Whatever was done to a vector, its length lies between 0 and `CAP`.
    pub proof fn lemma_len_bounded(&self)
        ensures
            0 <= self@.len() <= CAP,
    {
        self.inner.lemma_len_bounded();
    }

    /// Create a new empty `ArrayVec`.
    pub fn new() -> (r: ArrayVec<T, CAP>)
        ensures
            r@ == Seq::<T>::empty(),
    {
        ArrayVec { inner: RawArrayVec::new() }
    }

    /// Create a full `ArrayVec` from an array.
    pub fn from(array: [T; CAP]) -> (r: ArrayVec<T, CAP>)
        ensures
            r@ == array@,
    {
        ArrayVec { inner: RawArrayVec::from(array) }
    }

    /// Return the number of elements in the `ArrayVec`.
    pub fn len(&self) -> (n: usize)
        ensures
            n == self@.len(),
            n <= CAP,
    {
        self.inner.len()
    }

    /// Return the capacity of the `ArrayVec`.
    pub fn capacity(&self) -> (c: usize)
        ensures
            c == CAP,
    {
        self.inner.capacity()
    }

    /// Return if the `ArrayVec` is completely filled.
    pub fn is_full(&self) -> (b: bool)
        ensures
            b == (self@.len() == CAP),
    {
        self.inner.is_full()
    }

    /// Return if the `ArrayVec` holds no element.
    pub fn is_empty(&self) -> (b: bool)
        ensures
            b == (self@.len() == 0),
    {
        self.inner.is_empty()
    }

    /// Return how many more elements fit.
    pub fn remaining_capacity(&self) -> (n: usize)
        ensures
            n == CAP - self@.len(),
    {
        self.inner.remaining_capacity()
    }

    /// The element at `index`.
    pub fn get(&self, index: usize) -> (r: &T)
        requires
            index < self@.len(),
        ensures
            *r == self@[index as int],
    {
        self.inner.get(index)
    }

    /// Mutable access to the element at `index`.
    pub fn get_mut(&mut self, index: usize) -> (r: &mut T)
        requires
            index < old(self)@.len(),
        ensures
            *r == old(self)@[index as int],
            final(self)@ == old(self)@.update(index as int, *final(r)),
    {
        self.inner.get_mut(index)
    }

    /// Push `element` to the end of the vector.
    ///
    /// Return `None` if the push succeeds, or return `Some(` *element* `)`
    /// if the vector is full.
    pub fn push(&mut self, element: T) -> (r: Option<T>)
        ensures
            old(self)@.len() < CAP ==> r is None && final(self)@ == old(self)@.push(element),
            old(self)@.len() >= CAP ==> r == Some(element) && final(self)@ == old(self)@,
    {
        match self.inner.push(element) {
            Ok(_) => None,
            Err(e) => Some(e.element()),
        }
    }

    /// Push `element` to the end of the vector if there is room; a full
    /// vector stays as it is and the rejected element comes back in the error.
    pub fn try_push(&mut self, element: T) -> (r: Result<(), crate::errors::CapacityError<T>>)
        ensures
            old(self)@.len() < CAP ==> r is Ok && final(self)@ == old(self)@.push(element),
            old(self)@.len() >= CAP ==> r is Err && r->Err_0@ == element && final(self)@ == old(
                self,
            )@,
    {
        self.inner.push(element)
    }

    /// Insert `element` in position `index`.
    ///
    /// Shift up all elements after `index`. If any is pushed out, it is
    /// returned: in a full vector that is the last element. An `index` beyond
    /// the length, or one that is the capacity, has `element` itself
    /// returned, and the vector stays as it is.
    ///
    /// Return `None` if no element is shifted out.
    pub fn insert(&mut self, index: usize, element: T) -> (r: Option<T>)
        ensures
            index <= old(self)@.len() < CAP ==> r is None && final(self)@ == old(self)@.insert(
                index as int,
                element,
            ),
            index < CAP && old(self)@.len() == CAP ==> {
                &&& r == Some(old(self)@.last())
                &&& final(self)@ == old(self)@.drop_last().insert(index as int, element)
            },
            index > old(self)@.len() || index == CAP ==> r == Some(element) && final(self)@
                == old(self)@,
    {
        proof {
            self.inner.lemma_len_bounded();
        }
        if index > self.len() {
            return Some(element);
        }
        match self.inner.insert(index, element) {
            Ok(_) => None,
            Err(e) => Some(e.element()),
        }
    }

    /// Remove the last element in the vector.
    ///
    /// Return `Some(` *element* `)` if the vector is non-empty, else `None`.
    pub fn pop(&mut self) -> (r: Option<T>)
        ensures
            old(self)@.len() == 0 ==> r is None && final(self)@ == old(self)@,
            old(self)@.len() > 0 ==> r == Some(old(self)@.last()) && final(self)@ == old(
                self,
            )@.drop_last(),
    {
        self.inner.pop()
    }

    /// Remove the element at `index` and swap the last element into its place.
    ///
    /// Return `Some(` *element* `)` if the index is in bounds, else `None`.
    pub fn swap_remove(&mut self, index: usize) -> (r: Option<T>)
        ensures
            index < old(self)@.len() ==> r == Some(old(self)@[index as int]) && final(self)@
                == old(self)@.update(index as int, old(self)@.last()).drop_last(),
            index >= old(self)@.len() ==> r is None && final(self)@ == old(self)@,
    {
        self.inner.swap_remove(index)
    }

    /// Remove the element at `index` and shift down the following elements.
    ///
    /// Return `Some(` *element* `)` if the index is in bounds, else `None`.
    pub fn remove(&mut self, index: usize) -> (r: Option<T>)
        ensures
            index < old(self)@.len() ==> r == Some(old(self)@[index as int]) && final(self)@
                == old(self)@.remove(index as int),
            index >= old(self)@.len() ==> r is None && final(self)@ == old(self)@,
    {
        self.inner.remove(index)
    }

    /// Shorten the vector to `new_len` elements, dropping the others. A
    /// vector that is not longer stays as it is.
    pub fn truncate(&mut self, new_len: usize)
        ensures
            new_len < old(self)@.len() ==> final(self)@ == old(self)@.take(new_len as int),
            new_len >= old(self)@.len() ==> final(self)@ == old(self)@,
    {
        self.inner.truncate(new_len)
    }

    /// Remove all elements in the vector.
    pub fn clear(&mut self)
        ensures
            final(self)@ == Seq::<T>::empty(),
    {
        self.inner.clear()
    }

    /// Retains only the elements specified by the predicate.
    ///
    /// In other words, remove all elements `e` such that `f(&mut e)` returns
    /// false. This method operates in place and preserves the order of the
    /// retained elements.
    pub fn retain<F: FnMut(&mut T) -> bool>(&mut self, f: F)
        requires
            forall|e: &mut T| call_requires(f, (e,)),
        ensures
            exists|vals: Seq<T>, keep: Seq<bool>|
                {
                    &&& vals.len() == old(self)@.len()
                    &&& keep.len() == old(self)@.len()
                    &&& forall|i: int|
                        #![trigger keep[i]]
                        0 <= i < keep.len() && keep[i] ==> exists|e: &mut T|
                            *e == old(self)@[i] && *final(e) == vals[i] && #[trigger] call_ensures(
                                f,
                                (e,),
                                true,
                            )
                    &&& forall|i: int|
                        #![trigger keep[i]]
                        0 <= i < keep.len() && !keep[i] ==> exists|e: &mut T|
                            *e == old(self)@[i] && *final(e) == vals[i] && #[trigger] call_ensures(
                                f,
                                (e,),
                                false,
                            )
                    &&& final(self)@ == retained(vals, keep)
                },
    {
        self.inner.retain(f)
    }

    /// All `CAP` slots of the backing buffer, live or not.
    pub closed spec fn slots(&self) -> Seq<Option<T>> {
        self.inner.slots()
    }

    /// The backing buffer has `CAP` slots.
    pub proof fn lemma_slots_len(&self)
        ensures
            self.slots().len() == CAP,
    {
        self.inner.lemma_slots_len();
    }

    /// Set the vector's length without dropping or moving out elements.
    ///
    /// Lowering the length is always possible: the elements cut off stay in
    /// their slots, out of reach. Raising it needs every slot that becomes
    /// live to hold a value.
    pub fn set_len(&mut self, length: usize)
        requires
            length <= CAP,
            forall|i: int|
                old(self)@.len() <= i < length ==> (#[trigger] old(self).slots()[i]) is Some,
        ensures
            final(self).slots() == old(self).slots(),
            final(self)@.len() == length,
            forall|i: int|
                0 <= i < length ==> Some(#[trigger] final(self)@[i]) == old(self).slots()[i],
            forall|i: int|
                0 <= i < old(self)@.len() ==> (#[trigger] old(self).slots()[i]) == Some(
                    old(self)@[i],
                ),
            length <= old(self)@.len() ==> final(self)@ == old(self)@.take(length as int),
    {
        assert forall|i: int| self@.len() <= i < length implies (
        #[trigger] self.inner.slots()[i]) is Some by {
            assert(self.slots()[i] is Some);
        }
        self.inner.set_len(length)
    }

    /// Makes `self` hold clones of the elements of `rhs`, in their order.
    pub fn clone_from(&mut self, rhs: &Self) where T: Clone
        ensures
            final(self)@.len() == rhs@.len(),
            forall|i: int| 0 <= i < rhs@.len() ==> cloned(rhs@[i], #[trigger] final(self)@[i]),
    {
        self.clear();
        let mut i: usize = 0;
        while i < rhs.len()
            invariant
                i <= rhs@.len(),
                self@.len() == i,
                forall|j: int| 0 <= j < i ==> cloned(rhs@[j], #[trigger] self@[j]),
            decreases rhs@.len() - i,
        {
            proof {
                rhs.lemma_len_bounded();
            }
            let pushed = self.push(rhs.get(i).clone());
            i = i + 1;
        }
    }

    /// Create a draining iterator that removes the specified range in the
    /// vector and yields the removed items from start to end. The element
    /// range is removed even if the iterator is not consumed until the end.
    pub fn drain<R: RangeArgument>(&mut self, range: R) -> (r: Drain<T, CAP>)
        requires
            0 <= range_start(&range) <= range_end(&range, old(self)@.len() as int) <= old(
                self,
            )@.len(),
        ensures
            r@ == old(self)@.subrange(
                range_start(&range),
                range_end(&range, old(self)@.len() as int),
            ),
            final(self)@ == old(self)@.subrange(0, range_start(&range)) + old(self)@.subrange(
                range_end(&range, old(self)@.len() as int),
                old(self)@.len() as int,
            ),
    {
        self.inner.drain(range)
    }

    /// Return the inner fixed size array, if it is full to its capacity.
    ///
    /// Return an `Ok` value with the array if length equals capacity,
    /// return an `Err` with self otherwise.
    pub fn into_inner(self) -> (r: Result<[T; CAP], Self>)
        ensures
            self@.len() == CAP ==> r is Ok && r->Ok_0@ == self@,
            self@.len() < CAP ==> r is Err && r->Err_0@ == self@,
    {
        proof {
            self.inner.lemma_len_bounded();
        }
        match self.inner.into_inner() {
            Ok(array) => Ok(array),
            Err(inner) => Err(ArrayVec { inner }),
        }
    }

    /// Clones of the elements, in a `Vec`.
    pub fn to_vec(&self) -> (r: Vec<T>) where T: Clone
        ensures
            r@.len() == self@.len(),
            forall|i: int| 0 <= i < self@.len() ==> cloned(self@[i], #[trigger] r@[i]),
    {
        let mut r = Vec::new();
        let mut i: usize = 0;
        while i < self.len()
            invariant
                i <= self@.len(),
                r@.len() == i,
                forall|j: int| 0 <= j < i ==> cloned(self@[j], #[trigger] r@[j]),
            decreases self@.len() - i,
        {
            r.push(self.get(i).clone());
            i = i + 1;
        }
        r
    }

    /// Dispose of `self`: every element is dropped, once.
    pub fn dispose(self) {
        let mut this = self;
        this.clear();
    }

    /// Iterate the `ArrayVec` with each element by value.
    ///
    /// The vector is consumed by this operation.
    pub fn into_iter(self) -> (r: IntoIter<T, CAP>)
        ensures
            r@ == self@,
    {
        IntoIter { v: self.inner.into_drain() }
    }

    /// Extend the `ArrayVec` with an iterator.
    ///
    /// Does not extract more items than there is space for. No error
    /// occurs if there are more iterator elements.
    pub fn extend<I: Iterator<Item = T>>(&mut self, iter: &mut I)
        ensures
            old(self)@.len() <= final(self)@.len(),
            final(self)@.take(old(self)@.len() as int) == old(self)@,
            (*old(iter)).obeys_prophetic_iter_laws() ==> {
                let room = CAP - old(self)@.len();
                let offered = (*old(iter)).remaining();
                let taken = if offered.len() <= room {
                    offered.len() as int
                } else {
                    room
                };
                &&& final(self)@ == old(self)@ + offered.take(taken)
                &&& (*final(iter)).remaining() == offered.skip(taken)
            },
    {
        self.inner.extend(iter)
    }

    /// Create an `ArrayVec` from an iterator.
    ///
    /// Does not extract more items than there is space for. No error
    /// occurs if there are more iterator elements.
    pub fn from_iter<I: Iterator<Item = T>>(iter: &mut I) -> (r: Self)
        ensures
            (*old(iter)).obeys_prophetic_iter_laws() ==> {
                let offered = (*old(iter)).remaining();
                let taken = if offered.len() <= CAP {
                    offered.len() as int
                } else {
                    CAP as int
                };
                &&& r@ == offered.take(taken)
                &&& (*final(iter)).remaining() == offered.skip(taken)
            },
    {
        let mut array = ArrayVec::new();
        array.extend(iter);
        assert(Seq::<T>::empty() + (*old(iter)).remaining().take(CAP as int)
            =~= (*old(iter)).remaining().take(CAP as int));
        assert(Seq::<T>::empty() + (*old(iter)).remaining().take(
            (*old(iter)).remaining().len() as int,
        ) =~= (*old(iter)).remaining().take((*old(iter)).remaining().len() as int));
        array
    }
}

/// By-value iterator for `ArrayVec`.
#[derive(Debug)]
pub struct IntoIter<T, const CAP: usize> {
    v: Drain<T, CAP>,
}

impl<T, const CAP: usize> View for IntoIter<T, CAP> {
    type V = Seq<T>;

    /// The elements not yet handed out, in order.
    closed spec fn view(&self) -> Seq<T> {
        self.v@
    }
}

impl<T, const CAP: usize> IntoIter<T, CAP> {
    /// Hands out the first of the remaining elements.
    pub fn next(&mut self) -> (r: Option<T>)
        ensures
            old(self)@.len() == 0 ==> r is None && final(self)@ == old(self)@,
            old(self)@.len() > 0 ==> r == Some(old(self)@.first()) && final(self)@ == old(
                self,
            )@.drop_first(),
    {
        self.v.next()
    }

    /// Hands out the last of the remaining elements.
    pub fn next_back(&mut self) -> (r: Option<T>)
        ensures
            old(self)@.len() == 0 ==> r is None && final(self)@ == old(self)@,
            old(self)@.len() > 0 ==> r == Some(old(self)@.last()) && final(self)@ == old(
                self,
            )@.drop_last(),
    {
        self.v.next_back()
    }

    /// The bounds on what is left: both are the exact number.
    pub fn size_hint(&self) -> (r: (usize, Option<usize>))
        ensures
            r.0 == self@.len(),
            r.1 == Some(r.0),
    {
        self.v.size_hint()
    }
}

} // verus!
