//! Ranges of indices, as the draining functions take them.

use core::ops::Range;
use core::ops::RangeFrom;
use core::ops::RangeFull;
use core::ops::RangeTo;
use vstd::prelude::*;

verus! {

/// `core::ops::RangeFrom`, the type of `a..`: its one field is `start`.
#[verifier::external_type_specification]
#[verifier::reject_recursive_types(Idx)]
pub struct ExRangeFrom<Idx>(RangeFrom<Idx>);

/// `core::ops::RangeTo`, the type of `..b`: its one field is `end`.
#[verifier::external_type_specification]
#[verifier::reject_recursive_types(Idx)]
pub struct ExRangeTo<Idx>(RangeTo<Idx>);

/// `core::ops::RangeFull`, the type of `..`: it has no field.
#[verifier::external_type_specification]
pub struct ExRangeFull(RangeFull);

/// **RangeArgument** is implemented by Rust's built-in range types, produced
/// by range syntax like `..`, `a..`, `..b` or `c..d`.
pub trait RangeArgument {
    /// Start index (inclusive), if the range has one.
    spec fn spec_start(&self) -> Option<usize>;

    /// End index (exclusive), if the range has one.
    spec fn spec_end(&self) -> Option<usize>;

    /// Start index (inclusive), if the range has one.
    fn start(&self) -> (r: Option<usize>)
        ensures
            r == self.spec_start(),
    ;

    /// End index (exclusive), if the range has one.
    fn end(&self) -> (r: Option<usize>)
        ensures
            r == self.spec_end(),
    ;
}

impl RangeArgument for RangeFull {
    open spec fn spec_start(&self) -> Option<usize> {
        None
    }

    open spec fn spec_end(&self) -> Option<usize> {
        None
    }

    fn start(&self) -> (r: Option<usize>) {
        None
    }

    fn end(&self) -> (r: Option<usize>) {
        None
    }
}

impl RangeArgument for RangeFrom<usize> {
    open spec fn spec_start(&self) -> Option<usize> {
        Some(self.start)
    }

    open spec fn spec_end(&self) -> Option<usize> {
        None
    }

    fn start(&self) -> (r: Option<usize>) {
        Some(self.start)
    }

    fn end(&self) -> (r: Option<usize>) {
        None
    }
}

impl RangeArgument for RangeTo<usize> {
    open spec fn spec_start(&self) -> Option<usize> {
        None
    }

    open spec fn spec_end(&self) -> Option<usize> {
        Some(self.end)
    }

    fn start(&self) -> (r: Option<usize>) {
        None
    }

    fn end(&self) -> (r: Option<usize>) {
        Some(self.end)
    }
}

impl RangeArgument for Range<usize> {
    open spec fn spec_start(&self) -> Option<usize> {
        Some(self.start)
    }

    open spec fn spec_end(&self) -> Option<usize> {
        Some(self.end)
    }

    fn start(&self) -> (r: Option<usize>) {
        Some(self.start)
    }

    fn end(&self) -> (r: Option<usize>) {
        Some(self.end)
    }
}

/// The first index of `range` in a sequence of `len` elements.
pub open spec fn range_start<R: RangeArgument>(range: &R) -> int {
    match range.spec_start() {
        Some(start) => start as int,
        None => 0,
    }
}

/// The index after the last one of `range` in a sequence of `len` elements.
pub open spec fn range_end<R: RangeArgument>(range: &R, len: int) -> int {
    match range.spec_end() {
        Some(end) => end as int,
        None => len,
    }
}

} // verus!
