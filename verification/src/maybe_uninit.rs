//! A fixed block of element slots, each of which may or may not hold a value.
//!
//! The buffer itself knows nothing about a length: it only records, slot by
//! slot, whether a value is present. The containers built on top of it keep
//! the length and state, as their invariant, which slots are live.

use vstd::prelude::*;

verus! {

/// `core::array::from_fn` builds an array by calling `f` once for each index,
/// in increasing order; element `i` is what the call `f(i)` returned.
pub assume_specification<T, const N: usize, F: FnMut(usize) -> T>[ core::array::from_fn ](
    f: F,
) -> (r: [T; N])
    requires
        forall|i: usize| i < N ==> call_requires(f, (i,)),
    ensures
        forall|i: int| 0 <= i < N ==> call_ensures(f, (i as usize,), #[trigger] r@[i]),
;

/// `<[T; N]>::map` applies `f` to each element by value and returns the array
/// of results, of the same size and in the same order.
pub assume_specification<A, const N: usize, F: FnMut(A) -> U, U>[ <[A; N]>::map ](
    a: [A; N],
    f: F,
) -> (r: [U; N])
    requires
        forall|i: int| 0 <= i < N ==> call_requires(f, (#[trigger] a@[i],)),
    ensures
        forall|i: int| 0 <= i < N ==> call_ensures(f, (a@[i],), #[trigger] r@[i]),
;

/// `CAP` slots of storage for values of type `T`.
///
/// A slot is either empty or holds one value. Creating the buffer fills no
/// slot, and the buffer never looks at a slot on its own account.
#[derive(Debug)]
pub struct MaybeUninit<T, const CAP: usize> {
    slots: [Option<T>; CAP],
}

impl<T: Copy, const CAP: usize> Clone for MaybeUninit<T, CAP> {
    fn clone(&self) -> (r: Self)
        ensures
            r == *self,
    {
        *self
    }
}

impl<T: Copy, const CAP: usize> Copy for MaybeUninit<T, CAP> {

}

impl<T, const CAP: usize> View for MaybeUninit<T, CAP> {
    type V = Seq<Option<T>>;

    /// The slots in order: `None` for an empty slot, `Some(v)` for a slot
    /// holding `v`. The sequence always has `CAP` entries.
    closed spec fn view(&self) -> Seq<Option<T>> {
        self.slots@
    }
}

impl<T, const CAP: usize> MaybeUninit<T, CAP> {
    /// The buffer always has exactly `CAP` slots.
    pub broadcast proof fn lemma_len(&self)
        ensures
            #[trigger] self@.len() == CAP,
    {
    }

    /// A buffer in which every slot is empty.
    pub fn uninitialized() -> (r: Self)
        ensures
            r@ == Seq::new(CAP as nat, |i: int| None::<T>),
    {
        let empty = |_i: usize| -> (o: Option<T>)
            ensures
                o is None,
        {
            None
        };
        let slots = core::array::from_fn(empty);
        let r = MaybeUninit { slots };
        assert(r@ =~= Seq::new(CAP as nat, |i: int| None::<T>));
        r
    }

    /// A buffer in which slot `i` holds `array[i]`.
    pub fn from(array: [T; CAP]) -> (r: Self)
        ensures
            r@ == array@.map_values(|v: T| Some(v)),
    {
        let fill = |v: T| -> (o: Option<T>)
            ensures
                o == Some(v),
        {
            Some(v)
        };
        let slots = array.map(fill);
        let r = MaybeUninit { slots };
        assert(r@ =~= array@.map_values(|v: T| Some(v)));
        r
    }

    /// The number of slots.
    pub fn capacity(&self) -> (c: usize)
        ensures
            c == CAP,
    {
        CAP
    }

    /// Whether slot `index` holds a value.
    pub fn is_init(&self, index: usize) -> (b: bool)
        requires
            index < CAP,
        ensures
            b == (self@[index as int] is Some),
    {
        self.slots[index].is_some()
    }

    /// Puts `value` into slot `index`. A value that was there before is dropped.
    pub fn write(&mut self, index: usize, value: T)
        requires
            index < CAP,
        ensures
            final(self)@ == old(self)@.update(index as int, Some(value)),
        no_unwind
    {
        self.slots[index] = Some(value);
    }

    /// Moves the content of slot `index` out and leaves the slot empty.
    pub fn take(&mut self, index: usize) -> (r: Option<T>)
        requires
            index < CAP,
        ensures
            r == old(self)@[index as int],
            final(self)@ == old(self)@.update(index as int, None),
        no_unwind
    {
        let mut content = None;
        core::mem::swap(&mut self.slots[index], &mut content);
        content
    }

    /// The value in slot `index`, which must hold one.
    pub fn get(&self, index: usize) -> (r: &T)
        requires
            index < CAP,
            self@[index as int] is Some,
        ensures
            *r == self@[index as int]->0,
    {
        self.slots[index].as_ref().unwrap()
    }

    /// Mutable access to the value in slot `index`, which must hold one. The
    /// slot holds whatever the caller leaves behind the reference.
    pub fn get_mut(&mut self, index: usize) -> (r: &mut T)
        requires
            index < CAP,
            old(self)@[index as int] is Some,
        ensures
            *r == old(self)@[index as int]->0,
            final(self)@ == old(self)@.update(index as int, Some(*final(r))),
        no_unwind
    {
        match &mut self.slots[index] {
            Some(value) => value,
            None => vstd::pervasive::unreached(),
        }
    }

    /// Exchanges the contents of slots `a` and `b`.
    pub fn swap(&mut self, a: usize, b: usize)
        requires
            a < CAP,
            b < CAP,
        ensures
            final(self)@ == old(self)@.update(a as int, old(self)@[b as int]).update(
                b as int,
                old(self)@[a as int],
            ),
        no_unwind
    {
        let x = self.take(a);
        let y = self.take(b);
        self.slots[a] = y;
        self.slots[b] = x;
        assert(self@ =~= old(self)@.update(a as int, old(self)@[b as int]).update(
            b as int,
            old(self)@[a as int],
        ));
    }

    /// Moves the content of slot `src` into slot `dst` and leaves `src` empty.
    /// A value that was in `dst` before is dropped.
    pub fn move_slot(&mut self, src: usize, dst: usize)
        requires
            src < CAP,
            dst < CAP,
            src != dst,
        ensures
            final(self)@ == old(self)@.update(dst as int, old(self)@[src as int]).update(
                src as int,
                None,
            ),
        no_unwind
    {
        let x = self.take(src);
        self.slots[dst] = x;
        assert(self@ =~= old(self)@.update(dst as int, old(self)@[src as int]).update(
            src as int,
            None,
        ));
    }

    /// Turns a buffer in which every slot holds a value into the array of
    /// those values.
    pub fn into_array(self) -> (r: [T; CAP])
        requires
            forall|i: int| 0 <= i < CAP ==> (#[trigger] self@[i]) is Some,
        ensures
            r@ == self@.map_values(|o: Option<T>| o->0),
    {
        let unwrap = |o: Option<T>| -> (v: T)
            requires
                o is Some,
            ensures
                v == o->0,
        {
            o.unwrap()
        };
        assert forall|i: int| 0 <= i < CAP implies (#[trigger] self.slots@[i]) is Some by {
            assert(self@[i] is Some);
        }
        let r = self.slots.map(unwrap);
        assert(r@ =~= self@.map_values(|o: Option<T>| o->0));
        r
    }
}

} // verus!
