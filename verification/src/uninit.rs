//! A value behind a tag that says it is there.

use vstd::prelude::*;

verus! {

/// A value of type `T` behind a tag. The tag has one state only: the value
/// is there.
pub enum Uninit<T> {
    Alive(T),
}

/// Wraps `value`.
pub fn new<T>(value: T) -> (r: Uninit<T>)
    ensures
        r == Uninit::Alive(value),
{
    Uninit::Alive(value)
}

impl<T> Uninit<T> {
    /// Shared access to the value held.
    pub fn get(&self) -> (r: &T)
        ensures
            *self == Uninit::Alive(*r),
    {
        match self {
            Uninit::Alive(inner) => inner,
        }
    }

    /// Mutable access to the value held.
    pub fn get_mut(&mut self) -> (r: &mut T)
        ensures
            *old(self) == Uninit::Alive(*r),
            *final(self) == Uninit::Alive(*final(r)),
    {
        match self {
            Uninit::Alive(inner) => inner,
        }
    }
}

} // verus!
