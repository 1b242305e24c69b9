//! Conversion of range values into index ranges, unchecked and checked.

use core::ops::Range;
use core::ops::RangeFrom;
use core::ops::RangeFull;
use core::ops::RangeTo;
use vstd::prelude::*;

verus! {

/// A range that includes its end.
#[derive(Copy, Clone)]
pub struct InclusiveRange<T> {
    pub start: T,
    pub end: T,
}

/// A range value that can be turned into the index range it stands for in a
/// sequence of a given length, whether or not it lies within it.
pub trait IntoIndexRange: Sized {
    /// The index range that `self` stands for in a sequence of `len` elements.
    spec fn spec_index_range(self, len: usize) -> Range<usize>;

    /// The index range that `self` stands for in a sequence of `len` elements.
    fn into_index_range(self, len: usize) -> (r: Range<usize>)
        ensures
            r == self.spec_index_range(len),
    ;
}

/// A range value that can be turned into an index range known to lie within
/// a sequence of a given length.
pub trait IntoCheckedRange: Sized {
    /// `Ok` of the index range, if it lies within `len` elements and its
    /// start is not beyond its end; else `Err` of the larger of its bounds.
    spec fn spec_checked_range(self, len: usize) -> Result<Range<usize>, usize>;

    /// The index range, checked against `len`. A range that comes back as
    /// `Ok` has `start <= end <= len`.
    fn into_checked_range(self, len: usize) -> (r: Result<Range<usize>, usize>)
        ensures
            r == self.spec_checked_range(len),
            r is Ok ==> r->Ok_0.start <= r->Ok_0.end <= len,
    ;
}

/// The larger of two indices.
pub open spec fn spec_max(a: usize, b: usize) -> usize {
    if a >= b {
        a
    } else {
        b
    }
}

/// The larger of two indices.
pub fn max(a: usize, b: usize) -> (r: usize)
    ensures
        r == spec_max(a, b),
{
    if a >= b {
        a
    } else {
        b
    }
}

impl IntoIndexRange for RangeFull {
    open spec fn spec_index_range(self, len: usize) -> Range<usize> {
        0..len
    }

    fn into_index_range(self, len: usize) -> (r: Range<usize>) {
        0..len
    }
}

impl IntoIndexRange for RangeFrom<usize> {
    open spec fn spec_index_range(self, len: usize) -> Range<usize> {
        self.start..len
    }

    fn into_index_range(self, len: usize) -> (r: Range<usize>) {
        self.start..len
    }
}

impl IntoIndexRange for RangeTo<usize> {
    open spec fn spec_index_range(self, len: usize) -> Range<usize> {
        0..self.end
    }

    fn into_index_range(self, _len: usize) -> (r: Range<usize>) {
        0..self.end
    }
}

impl IntoIndexRange for Range<usize> {
    open spec fn spec_index_range(self, len: usize) -> Range<usize> {
        self
    }

    fn into_index_range(self, _len: usize) -> (r: Range<usize>) {
        self
    }
}

impl IntoIndexRange for InclusiveRange<usize> {
    /// An end of `usize::MAX` cannot be stepped over: the range then stops
    /// short of it.
    open spec fn spec_index_range(self, len: usize) -> Range<usize> {
        self.start..(if self.end == usize::MAX {
            usize::MAX
        } else {
            (self.end + 1) as usize
        })
    }

    fn into_index_range(self, _len: usize) -> (r: Range<usize>) {
        self.start..self.end.saturating_add(1)
    }
}

impl crate::misc::RangeArgument for InclusiveRange<usize> {
    open spec fn spec_start(&self) -> Option<usize> {
        Some(self.start)
    }

    /// The index after `end`; an end of `usize::MAX` has none and stands
    /// for itself.
    open spec fn spec_end(&self) -> Option<usize> {
        Some(
            if self.end == usize::MAX {
                usize::MAX
            } else {
                (self.end + 1) as usize
            },
        )
    }

    fn start(&self) -> (r: Option<usize>) {
        Some(self.start)
    }

    fn end(&self) -> (r: Option<usize>) {
        Some(self.end.saturating_add(1))
    }
}

impl IntoCheckedRange for RangeFull {
    open spec fn spec_checked_range(self, len: usize) -> Result<Range<usize>, usize> {
        Ok(0..len)
    }

    fn into_checked_range(self, len: usize) -> (r: Result<Range<usize>, usize>) {
        Ok(0..len)
    }
}

impl IntoCheckedRange for RangeFrom<usize> {
    open spec fn spec_checked_range(self, len: usize) -> Result<Range<usize>, usize> {
        if self.start <= len {
            Ok(self.start..len)
        } else {
            Err(self.start)
        }
    }

    fn into_checked_range(self, len: usize) -> (r: Result<Range<usize>, usize>) {
        if self.start <= len {
            Ok(self.start..len)
        } else {
            Err(self.start)
        }
    }
}

impl IntoCheckedRange for RangeTo<usize> {
    open spec fn spec_checked_range(self, len: usize) -> Result<Range<usize>, usize> {
        if self.end <= len {
            Ok(0..self.end)
        } else {
            Err(self.end)
        }
    }

    fn into_checked_range(self, len: usize) -> (r: Result<Range<usize>, usize>) {
        if self.end <= len {
            Ok(0..self.end)
        } else {
            Err(self.end)
        }
    }
}

impl IntoCheckedRange for Range<usize> {
    open spec fn spec_checked_range(self, len: usize) -> Result<Range<usize>, usize> {
        if self.start <= self.end && self.end <= len {
            Ok(self.start..self.end)
        } else {
            Err(spec_max(self.start, self.end))
        }
    }

    fn into_checked_range(self, len: usize) -> (r: Result<Range<usize>, usize>) {
        if self.start <= self.end && self.end <= len {
            Ok(self.start..self.end)
        } else {
            Err(max(self.start, self.end))
        }
    }
}

impl IntoCheckedRange for InclusiveRange<usize> {
    open spec fn spec_checked_range(self, len: usize) -> Result<Range<usize>, usize> {
        if self.start <= self.end && self.end < len {
            Ok(self.start..((self.end + 1) as usize))
        } else {
            Err(spec_max(self.start, self.end))
        }
    }

    fn into_checked_range(self, len: usize) -> (r: Result<Range<usize>, usize>) {
        if self.start <= self.end && self.end < len {
            Ok(self.start..self.end + 1)
        } else {
            Err(max(self.start, self.end))
        }
    }
}

} // verus!
