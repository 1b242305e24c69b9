//! The order of vectors: that of their elements, position by position, and
//! then that of their lengths.

use crate::raw::RawArrayVec;
use core::cmp::Ordering;
use vstd::prelude::*;
use vstd::std_specs::cmp::PartialOrdSpec;
use vstd::std_specs::cmp::PartialOrdSpecImpl;

verus! {

/// The elements of `s` from position `i` on.
pub open spec fn rest<T>(s: Seq<T>, i: usize) -> Seq<T> {
    s.skip(i as int)
}

/// The element of `s` at position `i`.
pub open spec fn item<T>(s: Seq<T>, i: usize) -> T {
    s[i as int]
}

/// What is left from position `i` on begins with the element at `i` and
/// goes on with what is left from the next position on.
pub proof fn lemma_rest_step<T>(s: Seq<T>, i: usize, next: usize)
    requires
        i < s.len(),
        next == i + 1,
    ensures
        rest(s, i).len() > 0,
        rest(s, i)[0] == item(s, i),
        rest(s, i).drop_first() == rest(s, next),
        rest(s, 0) == s,
{
    assert(rest(s, i).drop_first() =~= rest(s, next));
    assert(rest(s, 0) =~= s);
}

/// What is left from position `i` on has the length of `s` less `i`.
pub proof fn lemma_rest_len<T>(s: Seq<T>, i: usize)
    requires
        i <= s.len(),
    ensures
        rest(s, i).len() == s.len() - i,
        rest(s, 0) == s,
{
    assert(rest(s, 0) =~= s);
}

/// The lexicographic order of two sequences: the order of the first pair of
/// elements at the same position that are not equal; where there is no such
/// pair, the shorter sequence comes first.
pub open spec fn lex_order<T: PartialOrd>(a: Seq<T>, b: Seq<T>) -> Option<Ordering>
    decreases a.len(),
{
    if a.len() == 0 && b.len() == 0 {
        Some(Ordering::Equal)
    } else if a.len() == 0 {
        Some(Ordering::Less)
    } else if b.len() == 0 {
        Some(Ordering::Greater)
    } else {
        match a[0].partial_cmp_spec(&b[0]) {
            Some(Ordering::Equal) => lex_order(a.drop_first(), b.drop_first()),
            other => other,
        }
    }
}

/// Compares two vectors in lexicographic order.
pub fn compare<T: PartialOrd, const CAP: usize>(
    a: &RawArrayVec<T, CAP>,
    b: &RawArrayVec<T, CAP>,
) -> (r: Option<Ordering>)
    ensures
        T::obeys_partial_cmp_spec() ==> r == lex_order(a@, b@),
{
    let shorter = if a.len() < b.len() {
        a.len()
    } else {
        b.len()
    };
    let mut i: usize = 0;
    proof {
        lemma_rest_len(a@, 0);
        lemma_rest_len(b@, 0);
    }
    while i < shorter
        invariant
            i <= shorter,
            shorter <= a@.len(),
            shorter <= b@.len(),
            shorter == a@.len() || shorter == b@.len(),
            T::obeys_partial_cmp_spec() ==> lex_order(a@, b@) == lex_order(
                rest(a@, i),
                rest(b@, i),
            ),
        decreases shorter - i,
    {
        let order = a.get(i).partial_cmp(b.get(i));
        let next = i + 1;
        proof {
            lemma_rest_step(a@, i, next);
            lemma_rest_step(b@, i, next);
        }
        match order {
            Some(Ordering::Equal) => {},
            _ => {
                return order;
            },
        }
        i = next;
    }
    proof {
        lemma_rest_len(a@, i);
        lemma_rest_len(b@, i);
    }
    if a.len() < b.len() {
        Some(Ordering::Less)
    } else if a.len() > b.len() {
        Some(Ordering::Greater)
    } else {
        Some(Ordering::Equal)
    }
}

/// Compares two slices of bytes in lexicographic order.
pub fn compare_bytes(a: &[u8], b: &[u8]) -> (r: Option<Ordering>)
    ensures
        r == lex_order(a@, b@),
{
    let shorter = if a.len() < b.len() {
        a.len()
    } else {
        b.len()
    };
    let mut i: usize = 0;
    proof {
        lemma_rest_len(a@, 0);
        lemma_rest_len(b@, 0);
    }
    while i < shorter
        invariant
            i <= shorter,
            shorter <= a@.len(),
            shorter <= b@.len(),
            shorter == a@.len() || shorter == b@.len(),
            lex_order(a@, b@) == lex_order(rest(a@, i), rest(b@, i)),
        decreases shorter - i,
    {
        let order = a[i].partial_cmp(&b[i]);
        let next = i + 1;
        proof {
            lemma_rest_step(a@, i, next);
            lemma_rest_step(b@, i, next);
        }
        match order {
            Some(Ordering::Equal) => {},
            _ => {
                return order;
            },
        }
        i = next;
    }
    proof {
        lemma_rest_len(a@, i);
        lemma_rest_len(b@, i);
    }
    if a.len() < b.len() {
        Some(Ordering::Less)
    } else if a.len() > b.len() {
        Some(Ordering::Greater)
    } else {
        Some(Ordering::Equal)
    }
}

impl<T: PartialOrd, const CAP: usize> PartialOrd for RawArrayVec<T, CAP> {
    /// Vectors are ordered as their elements are, position by position;
    /// where one vector is the beginning of the other, it comes first.
    fn partial_cmp(&self, other: &Self) -> (r: Option<Ordering>) {
        compare(self, other)
    }
}

impl<T: PartialOrd, const CAP: usize> PartialOrdSpecImpl for RawArrayVec<T, CAP> {
    open spec fn obeys_partial_cmp_spec() -> bool {
        T::obeys_partial_cmp_spec()
    }

    open spec fn partial_cmp_spec(&self, other: &Self) -> Option<Ordering> {
        lex_order(self@, other@)
    }
}

} // verus!
