//! The errors that the containers report.

use vstd::prelude::*;

verus! {

/// Construction of an error value from what it carries.
pub trait PubCrateNew<T>: Sized {
    /// What the error value carries.
    spec fn carried(&self) -> T;

    /// An error value that carries `elt`.
    fn new(elt: T) -> (r: Self)
        ensures
            r.carried() == elt,
    ;
}

/// Error value indicating insufficient capacity. It carries the element
/// that did not fit, so that the caller gets it back.
#[derive(Clone, Copy, Debug, PartialEq, Eq, PartialOrd, Ord)]
pub struct CapacityError<T> {
    element: T,
}

impl<T> View for CapacityError<T> {
    type V = T;

    /// The element that did not fit.
    closed spec fn view(&self) -> T {
        self.element
    }
}

impl<T> PubCrateNew<T> for CapacityError<T> {
    open spec fn carried(&self) -> T {
        self@
    }

    fn new(element: T) -> (r: CapacityError<T>) {
        CapacityError { element }
    }
}

impl<T> CapacityError<T> {
    /// Extract the overflowing element.
    pub fn element(self) -> (r: T)
        ensures
            r == self@,
    {
        self.element
    }

    /// Convert into a `CapacityError` that does not carry an element.
    pub fn simplify(self) -> (r: CapacityError<()>)
        ensures
            r@ == (),
    {
        CapacityError { element: () }
    }

    /// The message that goes with this error.
    pub fn description(&self) -> (r: &'static str)
        ensures
            r@ == "insufficient capacity"@,
    {
        "insufficient capacity"
    }
}

/// Error value indicating that an index was not below the length.
#[derive(Clone, Copy, Debug)]
pub struct OutOfBoundsError {
    _priv: (),
}

impl PubCrateNew<()> for OutOfBoundsError {
    open spec fn carried(&self) -> () {
        ()
    }

    fn new(_elt: ()) -> (r: Self) {
        OutOfBoundsError { _priv: () }
    }
}

impl OutOfBoundsError {
    /// The message that goes with this error.
    pub fn description(&self) -> (r: &'static str)
        ensures
            r@ == "remove index is out of bounds"@,
    {
        "remove index is out of bounds"
    }
}

} // verus!
