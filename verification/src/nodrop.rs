//! A wrapper that keeps a value from being dropped.

use core::mem::ManuallyDrop;
use vstd::prelude::*;

verus! {

/// `<ManuallyDrop<T> as DerefMut>::deref_mut` gives mutable access to the
/// value inside the wrapper: the wrapper holds what the caller leaves behind
/// the reference.
#[verifier::external_body]
fn manually_drop_mut<T>(m: &mut ManuallyDrop<T>) -> (r: &mut T)
    ensures
        *r == old(m)@,
        final(m)@ == *final(r),
{
    core::ops::DerefMut::deref_mut(m)
}

/// A type holding **T** that will not call its destructor on drop.
pub struct NoDrop<T>(ManuallyDrop<T>);

impl<T> View for NoDrop<T> {
    type V = T;

    /// The value held.
    closed spec fn view(&self) -> T {
        self.0@
    }
}

impl<T> NoDrop<T> {
    /// Create a new **NoDrop**.
    pub fn new(value: T) -> (r: NoDrop<T>)
        ensures
            r@ == value,
    {
        NoDrop(ManuallyDrop::new(value))
    }

    /// Extract the inner value.
    ///
    /// Once extracted, the value can of course drop again.
    pub fn into_inner(self) -> (r: T)
        ensures
            r == self@,
    {
        ManuallyDrop::into_inner(self.0)
    }

    /// Shared access to the value held.
    pub fn get(&self) -> (r: &T)
        ensures
            *r == self@,
    {
        let inner: &T = &self.0;
        inner
    }

    /// Mutable access to the value held.
    pub fn get_mut(&mut self) -> (r: &mut T)
        ensures
            *r == old(self)@,
            final(self)@ == *final(r),
    {
        manually_drop_mut(&mut self.0)
    }
}

} // verus!
