//! The vector proper: a slot buffer together with the number of live slots.

use crate::errors::CapacityError;
use crate::errors::PubCrateNew;
use crate::maybe_uninit::MaybeUninit;
use crate::misc::range_end;
use crate::misc::range_start;
use crate::misc::RangeArgument;
use vstd::pervasive::runtime_assert;
use vstd::prelude::*;
use vstd::std_specs::cmp::PartialEqSpec;
use vstd::std_specs::cmp::PartialEqSpecImpl;
use vstd::std_specs::iter::IteratorSpec;

verus! {

broadcast use crate::maybe_uninit::MaybeUninit::lemma_len;

/// A vector of at most `CAP` elements, stored in a buffer of `CAP` slots.
///
/// The first `len` slots are live: each of them holds an element. What the
/// other slots hold is of no concern to the vector: it never reads them, and
/// overwrites them when it grows.
#[derive(Debug)]
pub struct RawArrayVec<T, const CAP: usize> {
    xs: MaybeUninit<T, CAP>,
    len: usize,
}

impl<T: Copy, const CAP: usize> Clone for RawArrayVec<T, CAP> {
    fn clone(&self) -> (r: Self)
        ensures
            r == *self,
    {
        *self
    }
}

impl<T: Copy, const CAP: usize> Copy for RawArrayVec<T, CAP> {

}

impl<T: PartialEq, const CAP: usize> PartialEq for RawArrayVec<T, CAP> {
    /// Two vectors are equal if they have the same length and equal
    /// elements at each index. What lies beyond the length plays no part.
    fn eq(&self, other: &Self) -> (r: bool) {
        let len = self.len();
        if len != other.len() {
            return false;
        }
        let mut i: usize = 0;
        while i < len
            invariant
                i <= len,
                len == self@.len(),
                len == other@.len(),
                T::obeys_eq_spec() ==> forall|j: int|
                    0 <= j < i ==> #[trigger] self@[j].eq_spec(&other@[j]),
            decreases len - i,
        {
            if !self.get(i).eq(other.get(i)) {
                return false;
            }
            i = i + 1;
        }
        true
    }
}

impl<T: PartialEq, const CAP: usize> PartialEqSpecImpl for RawArrayVec<T, CAP> {
    open spec fn obeys_eq_spec() -> bool {
        T::obeys_eq_spec()
    }

    open spec fn eq_spec(&self, other: &Self) -> bool {
        &&& self@.len() == other@.len()
        &&& forall|i: int| 0 <= i < self@.len() ==> #[trigger] self@[i].eq_spec(&other@[i])
    }
}

impl<T: Eq, const CAP: usize> Eq for RawArrayVec<T, CAP> {

}

impl<T, const CAP: usize> Default for RawArrayVec<T, CAP> {
    /// An empty vector.
    fn default() -> (r: Self)
        ensures
            r@ == Seq::<T>::empty(),
    {
        RawArrayVec::new()
    }
}

impl<T, const CAP: usize> View for RawArrayVec<T, CAP> {
    type V = Seq<T>;

    /// The elements of the vector, in order: the values in the live slots.
    closed spec fn view(&self) -> Seq<T> {
        let live = if self.len <= CAP {
            self.len
        } else {
            CAP
        };
        Seq::new(live as nat, |i: int| self.xs@[i]->0)
    }
}

impl<T, const CAP: usize> RawArrayVec<T, CAP> {
    /// The length never exceeds the capacity, and every slot below the
    /// length holds a value.
    #[verifier::type_invariant]
    spec fn inv(&self) -> bool {
        &&& self.len <= CAP
        &&& forall|i: int| 0 <= i < self.len ==> (#[trigger] self.xs@[i]) is Some
    }

    /// All `CAP` slots of the buffer, live or not.
    pub closed spec fn slots(&self) -> Seq<Option<T>> {
        self.xs@
    }

    /// The buffer has `CAP` slots.
    pub proof fn lemma_slots_len(&self)
        ensures
            self.slots().len() == CAP,
    {
        self.xs.lemma_len();
    }

    /// Whatever was done to a vector, its length lies between 0 and `CAP`.
    pub proof fn lemma_len_bounded(&self)
        ensures
            0 <= self@.len() <= CAP,
    {
    }

    /// An empty vector.
    pub fn new() -> (r: Self)
        ensures
            r@ == Seq::<T>::empty(),
    {
        let r = RawArrayVec { xs: MaybeUninit::uninitialized(), len: 0 };
        assert(r@ =~= Seq::<T>::empty());
        r
    }

    /// A full vector with the elements of `array`.
    pub fn from(array: [T; CAP]) -> (r: Self)
        ensures
            r@ == array@,
    {
        let r = RawArrayVec { xs: MaybeUninit::from(array), len: CAP };
        assert(r@ =~= array@);
        r
    }

    /// The number of elements.
    pub fn len(&self) -> (n: usize)
        ensures
            n == self@.len(),
            n <= CAP,
    {
        proof {
            use_type_invariant(self);
        }
        self.len
    }

    /// The number of elements that the vector can hold.
    pub fn capacity(&self) -> (c: usize)
        ensures
            c == CAP,
    {
        CAP
    }

    /// Whether the vector holds as many elements as it can.
    pub fn is_full(&self) -> (b: bool)
        ensures
            b == (self@.len() == CAP),
    {
        self.len() == self.capacity()
    }

    /// Whether the vector holds no element.
    pub fn is_empty(&self) -> (b: bool)
        ensures
            b == (self@.len() == 0),
    {
        self.len() == 0
    }

    /// How many more elements fit.
    pub fn remaining_capacity(&self) -> (n: usize)
        ensures
            n == CAP - self@.len(),
    {
        self.capacity() - self.len()
    }

    /// The element at `index`.
    pub fn get(&self, index: usize) -> (r: &T)
        requires
            index < self@.len(),
        ensures
            *r == self@[index as int],
    {
        proof {
            use_type_invariant(self);
        }
        runtime_assert(index < self.len);
        self.xs.get(index)
    }

    /// Appends `element` unless the vector is full; a full vector is left
    /// as it is and the element comes back in the error.
    pub fn push(&mut self, element: T) -> (r: Result<(), CapacityError<T>>)
        ensures
            old(self)@.len() < CAP ==> r is Ok && final(self)@ == old(self)@.push(element),
            old(self)@.len() >= CAP ==> r is Err && r->Err_0@ == element && final(self)@ == old(
                self,
            )@,
    {
        proof {
            use_type_invariant(&*self);
        }
        if self.len < CAP {
            let len = self.len;
            self.xs.write(len, element);
            self.len = len + 1;
            assert(self@ =~= old(self)@.push(element));
            Ok(())
        } else {
            Err(CapacityError::new(element))
        }
    }

    /// Removes the last element and returns it, or `None` if the vector is
    /// empty. The length is lowered before the element is moved out.
    pub fn pop(&mut self) -> (r: Option<T>)
        ensures
            old(self)@.len() == 0 ==> r is None && final(self)@ == old(self)@,
            old(self)@.len() > 0 ==> r == Some(old(self)@.last()) && final(self)@ == old(
                self,
            )@.drop_last(),
    {
        proof {
            use_type_invariant(&*self);
        }
        if self.len == 0 {
            return None;
        }
        let new_len = self.len - 1;
        self.len = new_len;
        let r = self.xs.take(new_len);
        assert(self@ =~= old(self)@.drop_last());
        r
    }

    /// Mutable access to the element at `index`.
    pub fn get_mut(&mut self, index: usize) -> (r: &mut T)
        requires
            index < old(self)@.len(),
        ensures
            *r == old(self)@[index as int],
            final(self)@ == old(self)@.update(index as int, *final(r)),
    {
        proof {
            use_type_invariant(&*self);
        }
        runtime_assert(index < self.len);
        let ghost before = self.xs@;
        let r = self.xs.get_mut(index);
        proof {
            let after = before.update(index as int, Some(*final(r)));
            let live = old(self).len as nat;
            assert(Seq::new(live, |i: int| after[i]->0) =~= old(self)@.update(
                index as int,
                *final(r),
            ));
        }
        r
    }

    /// Sets the length to `length` without touching any slot.
    ///
    /// Lowering the length is always possible: the elements cut off stay in
    /// their slots, out of reach. Raising it needs every slot that becomes
    /// live to hold a value.
    pub fn set_len(&mut self, length: usize)
        requires
            length <= CAP,
            forall|i: int|
                old(self)@.len() <= i < length ==> (#[trigger] old(self).slots()[i]) is Some,
        ensures
            final(self).slots() == old(self).slots(),
            final(self)@.len() == length,
            forall|i: int|
                0 <= i < length ==> Some(#[trigger] final(self)@[i]) == old(self).slots()[i],
            forall|i: int|
                0 <= i < old(self)@.len() ==> (#[trigger] old(self).slots()[i]) == Some(
                    old(self)@[i],
                ),
            length <= old(self)@.len() ==> final(self)@ == old(self)@.take(length as int),
    {
        proof {
            use_type_invariant(&*self);
        }
        runtime_assert(length <= CAP);
        assert forall|i: int| 0 <= i < length implies (#[trigger] self.xs@[i]) is Some by {
            if i >= old(self)@.len() {
                assert(old(self).slots()[i] is Some);
            }
        }
        self.len = length;
        assert(length <= old(self)@.len() ==> self@ =~= old(self)@.take(length as int));
    }

    /// Shortens the vector to `new_len` elements and drops the others, in
    /// index order. A vector that is not longer than `new_len` is left as it
    /// is.
    pub fn truncate(&mut self, new_len: usize)
        ensures
            new_len < old(self)@.len() ==> final(self)@ == old(self)@.take(new_len as int),
            new_len >= old(self)@.len() ==> final(self)@ == old(self)@,
    {
        proof {
            use_type_invariant(&*self);
        }
        let len = self.len;
        if new_len < len {
            self.len = new_len;
            assert(self@ =~= old(self)@.take(new_len as int));
            let mut i = new_len;
            while i < len
                invariant
                    new_len <= i <= len <= CAP,
                    self.len == new_len,
                    forall|j: int| 0 <= j < new_len ==> (#[trigger] self.xs@[j]) is Some,
                    forall|j: int| 0 <= j < new_len ==> self.xs@[j] == old(self).xs@[j],
                decreases len - i,
            {
                let _dropped = self.xs.take(i);
                i = i + 1;
            }
            assert(self@ =~= old(self)@.take(new_len as int));
        }
    }

    /// Removes all elements.
    pub fn clear(&mut self)
        ensures
            final(self)@ == Seq::<T>::empty(),
    {
        self.truncate(0);
        assert(self@ =~= Seq::<T>::empty()) by {
            self.lemma_len_bounded();
        }
    }

    /// Puts `element` at `index` of a vector that has room, moving the
    /// elements from `index` on one slot up.
    pub fn insert_unchecked(&mut self, index: usize, element: T)
        requires
            index <= old(self)@.len(),
            old(self)@.len() < CAP,
        ensures
            final(self)@ == old(self)@.insert(index as int, element),
    {
        proof {
            use_type_invariant(&*self);
        }
        let len = self.len;
        let ghost before = self.xs@;
        // The tail is hidden while it is on the move.
        self.len = index;
        let mut i = len;
        while i > index
            invariant
                index <= i <= len < CAP,
                self.len == index,
                before.len() == CAP,
                forall|j: int| 0 <= j < len ==> (#[trigger] before[j]) is Some,
                forall|j: int| 0 <= j < i ==> (#[trigger] self.xs@[j]) == before[j],
                forall|j: int| i < j <= len ==> (#[trigger] self.xs@[j]) == before[j - 1],
            decreases i,
        {
            self.xs.move_slot(i - 1, i);
            i = i - 1;
        }
        self.xs.write(index, element);
        self.len = len + 1;
        assert(self@ =~= old(self)@.insert(index as int, element));
    }

    /// Puts `element` at `index` and moves the elements from `index` on one
    /// slot up. In a full vector the last element has no slot to move to: it
    /// is shifted out and comes back in the error. At `index == CAP` there is
    /// no slot for `element` itself, which then comes back unused.
    pub fn insert(&mut self, index: usize, element: T) -> (r: Result<(), CapacityError<T>>)
        requires
            index <= old(self)@.len(),
        ensures
            old(self)@.len() < CAP ==> r is Ok && final(self)@ == old(self)@.insert(
                index as int,
                element,
            ),
            old(self)@.len() == CAP && index < CAP ==> r is Err && r->Err_0@ == old(self)@.last()
                && final(self)@ == old(self)@.drop_last().insert(index as int, element),
            index == CAP ==> r is Err && r->Err_0@ == element && final(self)@ == old(self)@,
    {
        proof {
            use_type_invariant(&*self);
        }
        runtime_assert(index <= self.len);
        if index == self.capacity() {
            return Err(CapacityError::new(element));
        }
        if self.len() == self.capacity() {
            let last = self.pop();
            self.insert_unchecked(index, element);
            Err(CapacityError::new(last.unwrap()))
        } else {
            self.insert_unchecked(index, element);
            Ok(())
        }
    }

    /// Puts `element` at `index` if the vector has room and moves the
    /// elements from `index` on one slot up. A full vector is left as it is,
    /// and `element` comes back in the error.
    pub fn try_insert(&mut self, index: usize, element: T) -> (r: Result<(), CapacityError<T>>)
        requires
            index <= old(self)@.len(),
        ensures
            old(self)@.len() < CAP ==> r is Ok && final(self)@ == old(self)@.insert(
                index as int,
                element,
            ),
            old(self)@.len() >= CAP ==> r is Err && r->Err_0@ == element && final(self)@ == old(
                self,
            )@,
    {
        runtime_assert(index <= self.len());
        if self.len() == self.capacity() {
            Err(CapacityError::new(element))
        } else {
            self.insert_unchecked(index, element);
            Ok(())
        }
    }

    /// Takes the element at `index` out and moves the elements after it one
    /// slot down.
    pub fn remove_unchecked(&mut self, index: usize) -> (r: T)
        requires
            index < old(self)@.len(),
        ensures
            r == old(self)@[index as int],
            final(self)@ == old(self)@.remove(index as int),
    {
        proof {
            use_type_invariant(&*self);
        }
        let len = self.len;
        let ghost before = self.xs@;
        self.len = index;
        let r = self.xs.take(index);
        let mut i = index + 1;
        while i < len
            invariant
                index < i <= len <= CAP,
                self.len == index,
                before.len() == CAP,
                forall|j: int| 0 <= j < len ==> (#[trigger] before[j]) is Some,
                forall|j: int| 0 <= j < index ==> (#[trigger] self.xs@[j]) == before[j],
                forall|j: int| index <= j < i - 1 ==> (#[trigger] self.xs@[j]) == before[j + 1],
                forall|j: int| i <= j < len ==> (#[trigger] self.xs@[j]) == before[j],
            decreases len - i,
        {
            self.xs.move_slot(i, i - 1);
            i = i + 1;
        }
        self.len = len - 1;
        assert(self@ =~= old(self)@.remove(index as int));
        r.unwrap()
    }

    /// Removes the element at `index` and moves the elements after it one
    /// slot down. `None`, and nothing changes, if `index` is not below the
    /// length.
    pub fn remove(&mut self, index: usize) -> (r: Option<T>)
        ensures
            index < old(self)@.len() ==> r == Some(old(self)@[index as int]) && final(self)@
                == old(self)@.remove(index as int),
            index >= old(self)@.len() ==> r is None && final(self)@ == old(self)@,
    {
        if index >= self.len() {
            None
        } else {
            Some(self.remove_unchecked(index))
        }
    }

    /// Removes the element at `index` and puts the last element in its
    /// place. `None`, and nothing changes, if `index` is not below the length.
    pub fn swap_remove(&mut self, index: usize) -> (r: Option<T>)
        ensures
            index < old(self)@.len() ==> r == Some(old(self)@[index as int]) && final(self)@
                == old(self)@.update(index as int, old(self)@.last()).drop_last(),
            index >= old(self)@.len() ==> r is None && final(self)@ == old(self)@,
    {
        proof {
            use_type_invariant(&*self);
        }
        let len = self.len();
        if index >= len {
            return None;
        }
        self.xs.swap(index, len - 1);
        assert(self@ =~= old(self)@.update(index as int, old(self)@.last()).update(
            len - 1,
            old(self)@[index as int],
        ));
        self.pop()
    }

    /// Takes the vector apart: lets go of the elements, each dropped once.
    pub fn dispose(self) {
    }

    /// The backing array, if the vector is full; else the vector itself,
    /// unchanged.
    pub fn into_inner(self) -> (r: Result<[T; CAP], Self>)
        ensures
            self@.len() == CAP ==> r is Ok && r->Ok_0@ == self@,
            self@.len() < CAP ==> r is Err && r->Err_0@ == self@,
    {
        proof {
            use_type_invariant(&self);
        }
        if self.len < CAP {
            Err(self)
        } else {
            let array = self.xs.into_array();
            assert(array@ =~= self@);
            Ok(array)
        }
    }

    /// Removes the elements from `start` up to, but not including, `end`,
    /// closes the gap, and hands the removed elements out in a `Drain`.
    ///
    /// The length is lowered to `start` before the first element moves, and
    /// raised again only when the tail is back in place. What the vector
    /// holds afterwards does not depend on what is done with the `Drain`.
    pub fn drain_range(&mut self, start: usize, end: usize) -> (r: Drain<T, CAP>)
        requires
            start <= end <= old(self)@.len(),
        ensures
            r@ == old(self)@.subrange(start as int, end as int),
            final(self)@ == old(self)@.subrange(0, start as int) + old(self)@.subrange(
                end as int,
                old(self)@.len() as int,
            ),
    {
        proof {
            use_type_invariant(&*self);
        }
        runtime_assert(start <= end && end <= self.len);
        let len = self.len;
        let gap = end - start;
        let ghost before = self.xs@;
        self.len = start;
        let mut out = MaybeUninit::<T, CAP>::uninitialized();
        let mut i = start;
        while i < end
            invariant
                start <= i <= end <= len <= CAP,
                self.len == start,
                before.len() == CAP,
                forall|j: int| 0 <= j < len ==> (#[trigger] before[j]) is Some,
                forall|j: int| 0 <= j < start ==> (#[trigger] self.xs@[j]) == before[j],
                forall|j: int| i <= j < len ==> (#[trigger] self.xs@[j]) == before[j],
                forall|j: int| 0 <= j < i - start ==> (#[trigger] out@[j]) == before[j + start],
            decreases end - i,
        {
            let v = self.xs.take(i);
            out.write(i - start, v.unwrap());
            i = i + 1;
        }
        if gap > 0 {
            let mut k = end;
            while k < len
                invariant
                    start < end <= k <= len <= CAP,
                    gap == end - start,
                    self.len == start,
                    before.len() == CAP,
                    forall|j: int| 0 <= j < len ==> (#[trigger] before[j]) is Some,
                    forall|j: int| 0 <= j < start ==> (#[trigger] self.xs@[j]) == before[j],
                    forall|j: int| start <= j < k - gap ==> (#[trigger] self.xs@[j]) == before[j + gap],
                    forall|j: int| k <= j < len ==> (#[trigger] self.xs@[j]) == before[j],
                    forall|j: int| 0 <= j < gap ==> (#[trigger] out@[j]) == before[j + start],
                decreases len - k,
            {
                self.xs.move_slot(k, k - gap);
                k = k + 1;
            }
        }
        self.len = len - gap;
        let r = Drain { xs: out, front: 0, back: gap };
        assert(r@ =~= old(self)@.subrange(start as int, end as int));
        assert(self@ =~= old(self)@.subrange(0, start as int) + old(self)@.subrange(
            end as int,
            old(self)@.len() as int,
        ));
        r
    }

    /// Removes the elements that `range` covers, closes the gap, and hands
    /// the removed elements out in a `Drain`. A range without a start begins
    /// at 0, one without an end stops at the length.
    pub fn drain<R: RangeArgument>(&mut self, range: R) -> (r: Drain<T, CAP>)
        requires
            0 <= range_start(&range) <= range_end(&range, old(self)@.len() as int) <= old(
                self,
            )@.len(),
        ensures
            r@ == old(self)@.subrange(
                range_start(&range),
                range_end(&range, old(self)@.len() as int),
            ),
            final(self)@ == old(self)@.subrange(0, range_start(&range)) + old(self)@.subrange(
                range_end(&range, old(self)@.len() as int),
                old(self)@.len() as int,
            ),
    {
        let len = self.len();
        let start = match range.start() {
            Some(start) => start,
            None => 0,
        };
        let end = match range.end() {
            Some(end) => end,
            None => len,
        };
        self.drain_range(start, end)
    }

    /// Hands all elements out in a `Drain`.
    pub fn into_drain(self) -> (r: Drain<T, CAP>)
        ensures
            r@ == self@,
    {
        proof {
            use_type_invariant(&self);
        }
        let r = Drain { xs: self.xs, front: 0, back: self.len };
        assert(r@ =~= self@);
        r
    }

    /// Keeps the elements for which `f` answers `true`, in their order, and
    /// drops each of the others as soon as `f` has answered `false` for it.
    ///
    /// `f` sees every element once, in index order, and may change it. While
    /// `f` runs, the vector holds just the elements kept so far.
    pub fn retain<F: FnMut(&mut T) -> bool>(&mut self, mut f: F)
        requires
            forall|e: &mut T| call_requires(f, (e,)),
        ensures
            exists|vals: Seq<T>, keep: Seq<bool>|
                {
                    &&& vals.len() == old(self)@.len()
                    &&& keep.len() == old(self)@.len()
                    &&& forall|i: int|
                        #![trigger keep[i]]
                        0 <= i < keep.len() && keep[i] ==> exists|e: &mut T|
                            *e == old(self)@[i] && *final(e) == vals[i] && #[trigger] call_ensures(
                                f,
                                (e,),
                                true,
                            )
                    &&& forall|i: int|
                        #![trigger keep[i]]
                        0 <= i < keep.len() && !keep[i] ==> exists|e: &mut T|
                            *e == old(self)@[i] && *final(e) == vals[i] && #[trigger] call_ensures(
                                f,
                                (e,),
                                false,
                            )
                    &&& final(self)@ == retained(vals, keep)
                },
    {
        proof {
            use_type_invariant(&*self);
        }
        let len = self.len;
        let ghost before = self.xs@;
        let ghost mut vals = Seq::<T>::empty();
        let ghost mut keep = Seq::<bool>::empty();
        // The calls leave `f` what it was.
        let ghost same = f;
        self.len = 0;
        let mut kept: usize = 0;
        let mut i: usize = 0;
        assert(Seq::new(0, |j: int| self.xs@[j]->0) =~= retained(vals, keep));
        while i < len
            invariant
                kept <= i <= len <= CAP,
                self.len == kept,
                f == same,
                before == old(self).xs@,
                old(self).len == len,
                before.len() == CAP,
                forall|e: &mut T| call_requires(f, (e,)),
                forall|j: int| 0 <= j < len ==> (#[trigger] before[j]) is Some,
                forall|j: int| i <= j < len ==> (#[trigger] self.xs@[j]) == before[j],
                forall|j: int| 0 <= j < kept ==> (#[trigger] self.xs@[j]) is Some,
                vals.len() == i,
                keep.len() == i,
                forall|j: int|
                    #![trigger keep[j]]
                    0 <= j < i && keep[j] ==> exists|e: &mut T|
                        *e == old(self)@[j] && *final(e) == vals[j] && #[trigger] call_ensures(
                            f,
                            (e,),
                            true,
                        ),
                forall|j: int|
                    #![trigger keep[j]]
                    0 <= j < i && !keep[j] ==> exists|e: &mut T|
                        *e == old(self)@[j] && *final(e) == vals[j] && #[trigger] call_ensures(
                            f,
                            (e,),
                            false,
                        ),
                Seq::new(kept as nat, |j: int| self.xs@[j]->0) == retained(vals, keep),
            decreases len - i,
        {
            let mut element = self.xs.take(i).unwrap();
            let ghost seen = element;
            let answer = f(&mut element);
            proof {
                lemma_retained_push(vals, keep, element, answer);
                assert(seen == old(self)@[i as int]);
                assert(exists|e: &mut T|
                    *e == seen && *final(e) == element && #[trigger] call_ensures(f, (e,), answer));
                let ghost earlier = vals;
                let ghost answers = keep;
                vals = vals.push(element);
                keep = keep.push(answer);
                assert forall|j: int| 0 <= j < i implies vals[j] == earlier[j] && #[trigger] keep[j]
                    == answers[j] by {}
            }
            if answer {
                let ghost prefix = Seq::new(kept as nat, |j: int| self.xs@[j]->0);
                self.xs.write(kept, element);
                kept = kept + 1;
                self.len = kept;
                assert(Seq::new(kept as nat, |j: int| self.xs@[j]->0) =~= prefix.push(element));
            } else {
                assert(Seq::new(kept as nat, |j: int| self.xs@[j]->0) =~= retained(vals, keep));
            }
            i = i + 1;
        }
        assert(self@ =~= retained(vals, keep));
        assert(vals.len() == old(self)@.len());
    }
}

impl<T, const CAP: usize> RawArrayVec<T, CAP> {
    /// Appends elements from `iter` until the vector is full or `iter` has
    /// no more. No element is taken from `iter` that the vector has no room
    /// for.
    pub fn extend<I: Iterator<Item = T>>(&mut self, iter: &mut I)
        ensures
            old(self)@.len() <= final(self)@.len(),
            final(self)@.take(old(self)@.len() as int) == old(self)@,
            (*final(iter)).obeys_prophetic_iter_laws() == (*old(iter)).obeys_prophetic_iter_laws(),
            (*old(iter)).obeys_prophetic_iter_laws() ==> {
                let room = CAP - old(self)@.len();
                let offered = (*old(iter)).remaining();
                let taken = if offered.len() <= room {
                    offered.len() as int
                } else {
                    room
                };
                &&& final(self)@ == old(self)@ + offered.take(taken)
                &&& (*final(iter)).remaining() == offered.skip(taken)
            },
    {
        proof {
            use_type_invariant(&*self);
        }
        let ghost mut taken: int = 0;
        assert(self@ =~= old(self)@ + (*old(iter)).remaining().take(0));
        assert((*iter).remaining() =~= (*old(iter)).remaining().skip(0));
        while self.len() < CAP
            invariant
                0 <= taken,
                self@.len() == old(self)@.len() + taken,
                self@.take(old(self)@.len() as int) == old(self)@,
                (*iter).obeys_prophetic_iter_laws() == (*old(iter)).obeys_prophetic_iter_laws(),
                (*old(iter)).obeys_prophetic_iter_laws() ==> {
                    &&& taken <= (*old(iter)).remaining().len()
                    &&& self@ == old(self)@ + (*old(iter)).remaining().take(taken)
                    &&& (*iter).remaining() == (*old(iter)).remaining().skip(taken)
                },
            ensures
                0 <= taken,
                (*iter).obeys_prophetic_iter_laws() == (*old(iter)).obeys_prophetic_iter_laws(),
                self@.len() == old(self)@.len() + taken,
                self@.take(old(self)@.len() as int) == old(self)@,
                (*old(iter)).obeys_prophetic_iter_laws() ==> {
                    &&& taken <= (*old(iter)).remaining().len()
                    &&& self@ == old(self)@ + (*old(iter)).remaining().take(taken)
                    &&& (*iter).remaining() == (*old(iter)).remaining().skip(taken)
                    &&& (self@.len() == CAP || taken == (*old(iter)).remaining().len())
                },
            decreases CAP - self@.len(),
        {
            let ghost so_far = self@;
            let ghost left = (*iter).remaining();
            match iter.next() {
                Some(element) => {
                    let pushed = self.push(element);
                    proof {
                        assert(self@.take(old(self)@.len() as int) =~= so_far.take(
                            old(self)@.len() as int,
                        ));
                        if (*old(iter)).obeys_prophetic_iter_laws() {
                            let offered = (*old(iter)).remaining();
                            assert(left.len() > 0);
                            assert(offered.take(taken + 1) =~= offered.take(taken).push(
                                offered[taken],
                            ));
                            assert(left[0] == offered[taken]);
                            assert(self@ =~= old(self)@ + offered.take(taken + 1));
                            assert(left.drop_first() =~= offered.skip(taken + 1));
                        }
                        taken = taken + 1;
                    }
                },
                None => {
                    proof {
                        if (*old(iter)).obeys_prophetic_iter_laws() {
                            assert(left.len() == 0);
                        }
                    }
                    break ;
                },
            }
        }
    }

    /// Appends all that `iter` has to give. It must not be more than the
    /// vector has room for.
    pub fn extend_from_iter<I: Iterator<Item = T>>(&mut self, iter: &mut I)
        requires
            (*old(iter)).obeys_prophetic_iter_laws(),
            (*old(iter)).remaining().len() <= CAP - old(self)@.len(),
        ensures
            final(self)@ == old(self)@ + (*old(iter)).remaining(),
            (*final(iter)).remaining() == Seq::<T>::empty(),
            (*final(iter)).obeys_prophetic_iter_laws(),
    {
        self.extend(iter);
        proof {
            let offered = (*old(iter)).remaining();
            assert(offered.take(offered.len() as int) =~= offered);
            assert(offered.skip(offered.len() as int) =~= Seq::<T>::empty());
        }
    }
}

impl<T: Copy, const CAP: usize> RawArrayVec<T, CAP> {
    /// Appends copies of the elements of `other` if all of them fit. If they
    /// do not, nothing changes.
    pub fn try_extend_from_slice(&mut self, other: &[T]) -> (r: Result<(), CapacityError<()>>)
        ensures
            other@.len() <= CAP - old(self)@.len() ==> r is Ok && final(self)@ == old(self)@
                + other@,
            other@.len() > CAP - old(self)@.len() ==> r is Err && final(self)@ == old(self)@,
    {
        if self.remaining_capacity() < other.len() {
            return Err(CapacityError::new(()));
        }
        let mut i: usize = 0;
        assert(self@ =~= old(self)@ + other@.take(0));
        while i < other.len()
            invariant
                i <= other@.len(),
                other@.len() <= CAP - old(self)@.len(),
                self@ == old(self)@ + other@.take(i as int),
            decreases other@.len() - i,
        {
            let pushed = self.push(other[i]);
            assert(other@.take(i + 1) =~= other@.take(i as int).push(other@[i as int]));
            assert(self@ =~= old(self)@ + other@.take(i + 1));
            i = i + 1;
        }
        assert(other@.take(other@.len() as int) =~= other@);
        Ok(())
    }

    /// Appends copies of the elements of `other`, which must fit.
    pub fn extend_from_slice(&mut self, other: &[T])
        requires
            other@.len() <= CAP - old(self)@.len(),
        ensures
            final(self)@ == old(self)@ + other@,
    {
        let done = self.try_extend_from_slice(other);
    }

    /// Makes the vector hold copies of the elements of `rhs`: what the two
    /// have in common by position is overwritten, what is too much is
    /// removed, what is missing is appended.
    pub fn clone_from(&mut self, rhs: &Self)
        ensures
            final(self)@ == rhs@,
    {
        let prefix = if self.len() < rhs.len() {
            self.len()
        } else {
            rhs.len()
        };
        let mut i: usize = 0;
        while i < prefix
            invariant
                i <= prefix,
                prefix <= self@.len(),
                prefix <= rhs@.len(),
                self@.len() == old(self)@.len(),
                forall|j: int| 0 <= j < i ==> self@[j] == rhs@[j],
            decreases prefix - i,
        {
            let place = self.get_mut(i);
            *place = *rhs.get(i);
            i = i + 1;
        }
        if prefix < self.len() {
            self.truncate(prefix);
            assert(self@ =~= rhs@);
        } else {
            let mut k = self.len();
            while k < rhs.len()
                invariant
                    prefix <= k <= rhs@.len(),
                    self@.len() == k,
                    forall|j: int| 0 <= j < k ==> self@[j] == rhs@[j],
                decreases rhs@.len() - k,
            {
                proof {
                    rhs.lemma_len_bounded();
                }
                let pushed = self.push(*rhs.get(k));
                k = k + 1;
            }
            assert(self@ =~= rhs@);
        }
    }
}

impl<const CAP: usize> RawArrayVec<u8, CAP> {
    /// Appends as many of the bytes of `data` as fit, from its start, and
    /// says how many that were.
    pub fn write(&mut self, data: &[u8]) -> (written: usize)
        ensures
            written == if data@.len() <= CAP - old(self)@.len() {
                data@.len() as int
            } else {
                CAP - old(self)@.len()
            },
            final(self)@ == old(self)@ + data@.take(written as int),
    {
        let room = self.remaining_capacity();
        let count = if data.len() <= room {
            data.len()
        } else {
            room
        };
        let mut i: usize = 0;
        assert(self@ =~= old(self)@ + data@.take(0));
        while i < count
            invariant
                i <= count <= data@.len(),
                count <= CAP - old(self)@.len(),
                self@ == old(self)@ + data@.take(i as int),
            decreases count - i,
        {
            let pushed = self.push(data[i]);
            assert(data@.take(i + 1) =~= data@.take(i as int).push(data@[i as int]));
            assert(self@ =~= old(self)@ + data@.take(i + 1));
            i = i + 1;
        }
        count
    }
}

/// Inserting an element at an index and then removing the element at that
/// index gives back the sequence that was there before, and the element.
pub proof fn lemma_insert_then_remove<T>(s: Seq<T>, index: int, element: T)
    requires
        0 <= index <= s.len(),
    ensures
        s.insert(index, element)[index] == element,
        s.insert(index, element).remove(index) == s,
{
    assert(s.insert(index, element).remove(index) =~= s);
}

/// Draining a range splits a sequence into three parts without losing or
/// doubling an element: what stays in front, what is drained, and what moves
/// down behind. The front and the tail together are what the vector keeps,
/// whatever is done with the drained part.
pub proof fn lemma_drain_partition<T>(s: Seq<T>, start: int, end: int)
    requires
        0 <= start <= end <= s.len(),
    ensures
        s.subrange(0, start) + s.subrange(start, end) + s.subrange(end, s.len() as int) == s,
        (s.subrange(0, start) + s.subrange(end, s.len() as int)).len() == s.len() - (end
            - start),
{
    assert(s.subrange(0, start) + s.subrange(start, end) + s.subrange(end, s.len() as int)
        =~= s);
}

/// A sequence that takes exactly as many elements more as a vector of
/// capacity `cap` has room for fills it; one element more does not fit.
pub proof fn lemma_exact_fit<T>(s: Seq<T>, more: Seq<T>, cap: int)
    requires
        s.len() <= cap,
        more.len() == cap - s.len(),
    ensures
        (s + more).len() == cap,
        forall|one: T| (#[trigger] more.push(one)).len() > cap - s.len(),
{
}

/// The elements `vals[i]` with `keep[i]`, in their order.
pub open spec fn retained<T>(vals: Seq<T>, keep: Seq<bool>) -> Seq<T>
    decreases vals.len(),
{
    if vals.len() == 0 || keep.len() != vals.len() {
        Seq::empty()
    } else if keep.last() {
        retained(vals.drop_last(), keep.drop_last()).push(vals.last())
    } else {
        retained(vals.drop_last(), keep.drop_last())
    }
}

/// One more element, kept or not, adds itself or nothing to what is retained.
pub proof fn lemma_retained_push<T>(vals: Seq<T>, keep: Seq<bool>, v: T, k: bool)
    requires
        vals.len() == keep.len(),
    ensures
        retained(vals.push(v), keep.push(k)) == if k {
            retained(vals, keep).push(v)
        } else {
            retained(vals, keep)
        },
{
    assert(vals.push(v).drop_last() =~= vals);
    assert(keep.push(k).drop_last() =~= keep);
}

/// The elements removed from a vector by `drain_range`, to be taken out from
/// either end.
#[derive(Debug)]
pub struct Drain<T, const CAP: usize> {
    xs: MaybeUninit<T, CAP>,
    front: usize,
    back: usize,
}

impl<T, const CAP: usize> View for Drain<T, CAP> {
    type V = Seq<T>;

    /// The elements not yet taken out, in the order that they had in the
    /// vector.
    closed spec fn view(&self) -> Seq<T> {
        if self.front <= self.back <= CAP {
            Seq::new((self.back - self.front) as nat, |i: int| self.xs@[self.front + i]->0)
        } else {
            Seq::empty()
        }
    }
}

impl<T, const CAP: usize> Drain<T, CAP> {
    #[verifier::type_invariant]
    spec fn inv(&self) -> bool {
        &&& self.front <= self.back <= CAP
        &&& forall|i: int| self.front <= i < self.back ==> (#[trigger] self.xs@[i]) is Some
    }

    /// The number of elements not yet taken out.
    pub fn len(&self) -> (n: usize)
        ensures
            n == self@.len(),
    {
        proof {
            use_type_invariant(self);
        }
        self.back - self.front
    }

    /// The bounds on what is left: both are the exact number.
    pub fn size_hint(&self) -> (r: (usize, Option<usize>))
        ensures
            r.0 == self@.len(),
            r.1 == Some(r.0),
    {
        let n = self.len();
        (n, Some(n))
    }

    /// Takes the first of the remaining elements out.
    pub fn next(&mut self) -> (r: Option<T>)
        ensures
            old(self)@.len() == 0 ==> r is None && final(self)@ == old(self)@,
            old(self)@.len() > 0 ==> r == Some(old(self)@.first()) && final(self)@ == old(
                self,
            )@.drop_first(),
    {
        proof {
            use_type_invariant(&*self);
        }
        if self.front == self.back {
            return None;
        }
        let at = self.front;
        self.front = at + 1;
        let r = self.xs.take(at);
        assert(self@ =~= old(self)@.drop_first());
        r
    }

    /// Takes the last of the remaining elements out.
    pub fn next_back(&mut self) -> (r: Option<T>)
        ensures
            old(self)@.len() == 0 ==> r is None && final(self)@ == old(self)@,
            old(self)@.len() > 0 ==> r == Some(old(self)@.last()) && final(self)@ == old(
                self,
            )@.drop_last(),
    {
        proof {
            use_type_invariant(&*self);
        }
        if self.front == self.back {
            return None;
        }
        let at = self.back - 1;
        self.back = at;
        let r = self.xs.take(at);
        assert(self@ =~= old(self)@.drop_last());
        r
    }
}

} // verus!
