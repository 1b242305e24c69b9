//! A string with a fixed capacity.

use crate::errors::CapacityError;
use crate::errors::PubCrateNew;
use crate::len_type::check_cap_fits_in_len_type;
use crate::len_type::spec_cap_fits_in_len_type;
use crate::len_type::DefaultLenType;
use crate::len_type::LenUint;
use crate::utf8::encode_utf8;
use crate::utf8::len_utf8;
use crate::utf8::lemma_encoding_concat;
use crate::utf8::lemma_encoding_nul;
use crate::utf8::lemma_encoding_single;
use crate::utf8::spec_len_utf8;
use core::str::Utf8Error;
use vstd::pervasive::runtime_assert;
use vstd::pervasive::unreached;
use vstd::prelude::*;
use vstd::slice::slice_subrange;
use crate::order::compare_bytes;
use crate::order::lex_order;
use core::cmp::Ordering;
use vstd::std_specs::cmp::PartialEqSpecImpl;
use vstd::std_specs::cmp::PartialOrdSpecImpl;
use vstd::std_specs::iter::IteratorSpec;
use vstd::string::StringSliceAdditionalSpecFns;
use vstd::utf8::decode_utf8;
use vstd::utf8::encode_scalar;
use vstd::utf8::encode_utf8 as encoding;
use vstd::utf8::is_char_boundary;
use vstd::utf8::valid_utf8;

verus! {

broadcast use {
    vstd::utf8::encode_utf8_valid_utf8,
    vstd::utf8::encode_utf8_decode_utf8,
    vstd::utf8::decode_utf8_encode_utf8,
};

/// `core::str::Utf8Error`: what `core::str::from_utf8` returns for bytes
/// that are not UTF-8. Nothing is said of what it holds.
#[verifier::external_type_specification]
#[verifier::external_body]
pub struct ExUtf8Error(Utf8Error);

/// `core::str::from_utf8` checks whether `v` is valid UTF-8. If it is, the
/// result is the string slice over those same bytes; if it is not, the
/// result is an error.
pub assume_specification<'a>[ core::str::from_utf8 ](v: &'a [u8]) -> (r: Result<
    &'a str,
    Utf8Error,
>)
    ensures
        valid_utf8(v@) ==> r is Ok && r->Ok_0.spec_bytes() == v@,
        !valid_utf8(v@) ==> r is Err,
;

/// `<core::str::Chars as DoubleEndedIterator>::next_back` hands out the last
/// of the characters that the iterator has left and keeps the others, or
/// hands out `None` if it has none left.
pub assume_specification<'a>[ <core::str::Chars<'a> as core::iter::DoubleEndedIterator>::next_back ](
    chars: &mut core::str::Chars<'a>,
) -> (ret: Option<char>)
    ensures
        (*old(chars)).remaining().len() > 0 ==> ret == Some((*old(chars)).remaining().last())
            && (*final(chars)).remaining() == (*old(chars)).remaining().drop_last(),
        (*old(chars)).remaining().len() == 0 ==> ret is None && (*final(chars)).remaining() == (
        *old(chars)).remaining(),
;

/// `zeroize::Zeroize::zeroize` on an array of bytes overwrites every byte
/// of the array with zero. It does not fail.
#[verifier::external_body]
fn zeroize_bytes<const CAP: usize>(xs: &mut [u8; CAP])
    ensures
        final(xs)@ == Seq::new(CAP as nat, |i: int| 0u8),
    no_unwind
{
    zeroize::Zeroize::zeroize(xs)
}

/// A string with a fixed capacity.
///
/// The `ArrayString` is a string backed by a fixed size array. It keeps track
/// of its length, and is parameterized by `CAP` for the maximum capacity, in
/// bytes. The length is kept in a value of `LenType`, which must be able to
/// hold `CAP`.
///
/// The first `len` bytes of the array are always valid UTF-8.
#[derive(Debug)]
pub struct ArrayString<const CAP: usize, LenType: LenUint = DefaultLenType<CAP>> {
    len: LenType,
    xs: [u8; CAP],
}

impl<const CAP: usize, LenType: LenUint> Clone for ArrayString<CAP, LenType> {
    fn clone(&self) -> (r: Self)
        ensures
            r == *self,
    {
        *self
    }
}

impl<const CAP: usize, LenType: LenUint> Copy for ArrayString<CAP, LenType> {

}

impl<const CAP: usize, LenType: LenUint> PartialEq for ArrayString<CAP, LenType> {
    /// Whether the two strings have the same bytes, and so the same
    /// characters.
    fn eq(&self, rhs: &Self) -> (b: bool) {
        proof {
            use_type_invariant(self);
            use_type_invariant(rhs);
            assert(encoding(self@) == self.spec_bytes());
            assert(encoding(rhs@) == rhs.spec_bytes());
        }
        let len = self.len();
        if len != rhs.len() {
            return false;
        }
        let mut i: usize = 0;
        while i < len
            invariant
                i <= len <= CAP,
                self.spec_bytes().len() == len,
                rhs.spec_bytes().len() == len,
                self.spec_bytes() == self.xs@.take(len as int),
                rhs.spec_bytes() == rhs.xs@.take(len as int),
                encoding(self@) == self.spec_bytes(),
                encoding(rhs@) == rhs.spec_bytes(),
                forall|j: int| 0 <= j < i ==> self.xs@[j] == rhs.xs@[j],
            decreases len - i,
        {
            if self.xs[i] != rhs.xs[i] {
                assert(self.spec_bytes()[i as int] != rhs.spec_bytes()[i as int]);
                return false;
            }
            i = i + 1;
        }
        assert(self.spec_bytes() =~= rhs.spec_bytes());
        true
    }
}

impl<const CAP: usize, LenType: LenUint> PartialEqSpecImpl for ArrayString<CAP, LenType> {
    open spec fn obeys_eq_spec() -> bool {
        true
    }

    open spec fn eq_spec(&self, rhs: &Self) -> bool {
        self@ == rhs@
    }
}

impl<const CAP: usize, LenType: LenUint> Eq for ArrayString<CAP, LenType> {

}

impl<const CAP: usize, LenType: LenUint> PartialOrd for ArrayString<CAP, LenType> {
    /// Strings are ordered as their bytes are, position by position; where
    /// one string is the beginning of the other, it comes first.
    fn partial_cmp(&self, rhs: &Self) -> (r: Option<Ordering>) {
        compare_bytes(self.as_bytes(), rhs.as_bytes())
    }
}

impl<const CAP: usize, LenType: LenUint> PartialOrdSpecImpl for ArrayString<CAP, LenType> {
    open spec fn obeys_partial_cmp_spec() -> bool {
        true
    }

    open spec fn partial_cmp_spec(&self, rhs: &Self) -> Option<Ordering> {
        lex_order(self.spec_bytes(), rhs.spec_bytes())
    }
}

impl<const CAP: usize, LenType: LenUint> View for ArrayString<CAP, LenType> {
    type V = Seq<char>;

    /// The characters of the string.
    closed spec fn view(&self) -> Seq<char> {
        decode_utf8(self.spec_bytes())
    }
}

impl<const CAP: usize, LenType: LenUint> ArrayString<CAP, LenType> {
    /// The length fits the capacity, the capacity fits the length type, and
    /// the bytes below the length are UTF-8.
    #[verifier::type_invariant]
    spec fn inv(&self) -> bool {
        &&& self.len.spec_to_usize() <= CAP
        &&& CAP <= LenType::spec_max()
        &&& valid_utf8(self.xs@.take(self.len.spec_to_usize() as int))
    }

    /// The bytes of the string: the UTF-8 encoding of its characters.
    pub closed spec fn spec_bytes(&self) -> Seq<u8> {
        let live = if self.len.spec_to_usize() <= CAP {
            self.len.spec_to_usize()
        } else {
            CAP
        };
        self.xs@.take(live as int)
    }

    /// All `CAP` bytes of the backing array, those beyond the length too.
    pub closed spec fn buffer(&self) -> Seq<u8> {
        self.xs@
    }

    /// Whatever was done to a string, it has between 0 and `CAP` bytes.
    pub proof fn lemma_len_bounded(&self)
        ensures
            0 <= self.spec_bytes().len() <= CAP,
    {
    }

    /// Create a new empty `ArrayString`.
    ///
    /// The capacity must fit the length type.
    pub fn new() -> (r: Self)
        requires
            spec_cap_fits_in_len_type::<LenType, CAP>(),
        ensures
            r@ == Seq::<char>::empty(),
            r.spec_bytes() == Seq::<u8>::empty(),
    {
        runtime_assert(check_cap_fits_in_len_type::<LenType, CAP>());
        let xs = [0u8;CAP];
        assert(xs@.take(0) =~= Seq::<u8>::empty());
        let r = ArrayString { len: LenType::zero(), xs };
        assert(r@ =~= Seq::<char>::empty());
        r
    }

    /// Create a new empty `ArrayString`, as `new` does.
    pub fn new_const() -> (r: Self)
        requires
            spec_cap_fits_in_len_type::<LenType, CAP>(),
        ensures
            r@ == Seq::<char>::empty(),
            r.spec_bytes() == Seq::<u8>::empty(),
    {
        Self::new()
    }

    /// Return the length of the string, in bytes.
    pub fn len(&self) -> (n: usize)
        ensures
            n == self.spec_bytes().len(),
            n == encoding(self@).len(),
            n <= CAP,
    {
        proof {
            use_type_invariant(self);
        }
        self.len.to_usize()
    }

    /// Returns whether the string is empty.
    pub fn is_empty(&self) -> (b: bool)
        ensures
            b == (self.spec_bytes().len() == 0),
            b == (self@.len() == 0),
    {
        proof {
            use_type_invariant(self);
            if self.spec_bytes().len() > 0 && self@.len() == 0 {
                assert(encoding(self@) =~= Seq::<u8>::empty());
            }
        }
        self.len() == 0
    }

    /// Create a new `ArrayString` from a `str`.
    ///
    /// **Errors** if the backing array is not large enough to fit the string.
    pub fn from<'a>(s: &'a str) -> (r: Result<Self, CapacityError<&'a str>>)
        requires
            spec_cap_fits_in_len_type::<LenType, CAP>(),
        ensures
            s.spec_bytes().len() <= CAP ==> r is Ok && r->Ok_0@ == s@,
            s.spec_bytes().len() > CAP ==> r is Err && r->Err_0@ == s,
    {
        let mut arraystr = Self::new();
        match arraystr.try_push_str(s) {
            Ok(_) => {
                assert(Seq::<char>::empty() + s@ =~= s@);
                Ok(arraystr)
            },
            Err(e) => Err(e),
        }
    }

    /// Create a new `ArrayString` from a byte string that fills the
    /// capacity.
    ///
    /// **Errors** if the byte string is not valid UTF-8.
    pub fn from_byte_string(b: &[u8; CAP]) -> (r: Result<Self, Utf8Error>)
        requires
            spec_cap_fits_in_len_type::<LenType, CAP>(),
        ensures
            valid_utf8(b@) ==> r is Ok && r->Ok_0.spec_bytes() == b@,
            !valid_utf8(b@) ==> r is Err,
    {
        runtime_assert(check_cap_fits_in_len_type::<LenType, CAP>());
        match core::str::from_utf8(b.as_slice()) {
            Ok(_) => {
                assert(b@.take(CAP as int) =~= b@);
                Ok(ArrayString { len: LenType::from_usize(CAP), xs: *b })
            },
            Err(e) => Err(e),
        }
    }

    /// Create a new `ArrayString` value fully filled with ASCII NULL
    /// characters (`\0`). Useful to be used as a buffer to collect external
    /// data or as a buffer for intermediate processing.
    pub fn zero_filled() -> (r: Self)
        requires
            spec_cap_fits_in_len_type::<LenType, CAP>(),
        ensures
            r@ == Seq::new(CAP as nat, |i: int| '\0'),
            r.spec_bytes() == Seq::new(CAP as nat, |i: int| 0u8),
    {
        runtime_assert(check_cap_fits_in_len_type::<LenType, CAP>());
        let xs = [0u8;CAP];
        proof {
            lemma_encoding_nul(CAP as nat);
            assert(xs@.take(CAP as int) =~= Seq::new(CAP as nat, |i: int| 0u8));
        }
        let r = ArrayString { len: LenType::from_usize(CAP), xs };
        assert(r.spec_bytes() =~= Seq::new(CAP as nat, |i: int| 0u8));
        r
    }

    /// Create a new `ArrayString` from a `str`, with an error that carries
    /// nothing.
    pub fn from_str(s: &str) -> (r: Result<Self, CapacityError<()>>)
        requires
            spec_cap_fits_in_len_type::<LenType, CAP>(),
        ensures
            s.spec_bytes().len() <= CAP ==> r is Ok && r->Ok_0@ == s@,
            s.spec_bytes().len() > CAP ==> r is Err,
    {
        match Self::from(s) {
            Ok(string) => Ok(string),
            Err(e) => Err(e.simplify()),
        }
    }

    /// Return the capacity of the `ArrayString`, in bytes.
    pub fn capacity(&self) -> (c: usize)
        ensures
            c == CAP,
    {
        CAP
    }

    /// Return if the `ArrayString` is completely filled.
    pub fn is_full(&self) -> (b: bool)
        ensures
            b == (self.spec_bytes().len() == CAP),
    {
        self.len() == self.capacity()
    }

    /// Returns the capacity left in the `ArrayString`, in bytes.
    pub fn remaining_capacity(&self) -> (n: usize)
        ensures
            n == CAP - self.spec_bytes().len(),
    {
        self.capacity() - self.len()
    }

    /// Adds the given char to the end of the string, which must have room
    /// for its encoding.
    pub fn push(&mut self, c: char)
        requires
            spec_len_utf8(c) <= CAP - old(self).spec_bytes().len(),
        ensures
            final(self)@ == old(self)@.push(c),
            final(self).spec_bytes() == old(self).spec_bytes() + encode_scalar(c as u32),
    {
        runtime_assert(len_utf8(c) <= self.remaining_capacity());
        let pushed = self.try_push(c);
    }

    /// Adds the given char to the end of the string.
    ///
    /// Returns `Ok` if the push succeeds.
    ///
    /// **Errors** if the backing array is not large enough to fit the
    /// additional char; the string is then unchanged.
    pub fn try_push(&mut self, c: char) -> (r: Result<(), CapacityError<char>>)
        ensures
            spec_len_utf8(c) <= CAP - old(self).spec_bytes().len() ==> {
                &&& r is Ok
                &&& final(self)@ == old(self)@.push(c)
                &&& final(self).spec_bytes() == old(self).spec_bytes() + encode_scalar(c as u32)
            },
            spec_len_utf8(c) > CAP - old(self).spec_bytes().len() ==> {
                &&& r is Err
                &&& r->Err_0@ == c
                &&& final(self)@ == old(self)@
                &&& final(self).spec_bytes() == old(self).spec_bytes()
            },
    {
        proof {
            use_type_invariant(&*self);
        }
        let len = self.len();
        let ghost before = self.spec_bytes();
        match encode_utf8(c, &mut self.xs, len) {
            Ok(n) => {
                proof {
                    let code = encode_scalar(c as u32);
                    assert(self.xs@.take(len + n) =~= before + code);
                    lemma_encoding_single(c);
                    vstd::utf8::valid_utf8_concat(before, code);
                    lemma_encoding_concat(old(self)@, seq![c]);
                    assert(old(self)@ + seq![c] =~= old(self)@.push(c));
                }
                self.len = LenType::from_usize(len + n);
                Ok(())
            },
            Err(_) => Err(CapacityError::new(c)),
        }
    }

    /// Adds the given string slice to the end of the string, which must have
    /// room for it.
    pub fn push_str(&mut self, s: &str)
        requires
            s.spec_bytes().len() <= CAP - old(self).spec_bytes().len(),
        ensures
            final(self)@ == old(self)@ + s@,
            final(self).spec_bytes() == old(self).spec_bytes() + s.spec_bytes(),
    {
        runtime_assert(s.len() <= self.remaining_capacity());
        let pushed = self.try_push_str(s);
    }

    /// Adds the given string slice to the end of the string.
    ///
    /// Returns `Ok` if the push succeeds.
    ///
    /// **Errors** if the backing array is not large enough to fit the
    /// string; the string is then unchanged and the error holds `s`.
    pub fn try_push_str<'a>(&mut self, s: &'a str) -> (r: Result<(), CapacityError<&'a str>>)
        ensures
            s.spec_bytes().len() <= CAP - old(self).spec_bytes().len() ==> {
                &&& r is Ok
                &&& final(self)@ == old(self)@ + s@
                &&& final(self).spec_bytes() == old(self).spec_bytes() + s.spec_bytes()
            },
            s.spec_bytes().len() > CAP - old(self).spec_bytes().len() ==> {
                &&& r is Err
                &&& r->Err_0@ == s
                &&& final(self)@ == old(self)@
                &&& final(self).spec_bytes() == old(self).spec_bytes()
            },
    {
        proof {
            use_type_invariant(&*self);
        }
        let len = self.len();
        let bytes = s.as_bytes();
        if bytes.len() > CAP - len {
            return Err(CapacityError::new(s));
        }
        let ghost before = self.spec_bytes();
        let mut i: usize = 0;
        while i < bytes.len()
            invariant
                i <= bytes@.len(),
                len + bytes@.len() <= CAP <= LenType::spec_max(),
                self.len == old(self).len,
                self.len.spec_to_usize() == len,
                valid_utf8(before),
                self.xs@.take(len as int) == before,
                forall|j: int| 0 <= j < i ==> self.xs@[len + j] == bytes@[j],
            decreases bytes@.len() - i,
        {
            assert(self.xs@.update(len + i, bytes@[i as int]).take(len as int) =~= self.xs@.take(
                len as int,
            ));
            self.xs[len + i] = bytes[i];
            i = i + 1;
        }
        proof {
            assert(self.xs@.take(len + bytes@.len()) =~= before + bytes@);
            vstd::utf8::valid_utf8_concat(before, bytes@);
            lemma_encoding_concat(old(self)@, s@);
        }
        self.len = LenType::from_usize(len + bytes.len());
        Ok(())
    }

    /// Removes the last character from the string and returns it.
    ///
    /// Returns `None` if this `ArrayString` is empty.
    pub fn pop(&mut self) -> (r: Option<char>)
        ensures
            old(self)@.len() == 0 ==> r is None && final(self)@ == old(self)@,
            old(self)@.len() > 0 ==> r == Some(old(self)@.last()) && final(self)@ == old(
                self,
            )@.drop_last(),
    {
        proof {
            use_type_invariant(&*self);
        }
        let last = {
            let s = self.as_str();
            let mut chars = s.chars();
            chars.next_back()
        };
        match last {
            None => None,
            Some(ch) => {
                let width = len_utf8(ch);
                proof {
                    let rest = old(self)@.drop_last();
                    assert(old(self)@ =~= rest + seq![ch]);
                    lemma_encoding_concat(rest, seq![ch]);
                    lemma_encoding_single(ch);
                    assert(self.spec_bytes().take(encoding(rest).len() as int) =~= encoding(rest));
                    assert(self.xs@.take(encoding(rest).len() as int) =~= encoding(rest));
                }
                let new_len = self.len() - width;
                self.len = LenType::from_usize(new_len);
                Some(ch)
            },
        }
    }

    /// Shortens this `ArrayString` to the specified length, in bytes.
    ///
    /// If `new_len` is greater than the string's current length, this has no
    /// effect. Else `new_len` must lie on a `char` boundary.
    pub fn truncate(&mut self, new_len: usize)
        requires
            new_len <= old(self).spec_bytes().len() ==> is_char_boundary(
                old(self).spec_bytes(),
                new_len as int,
            ),
        ensures
            new_len <= old(self).spec_bytes().len() ==> final(self).spec_bytes() == old(
                self,
            ).spec_bytes().take(new_len as int),
            new_len > old(self).spec_bytes().len() ==> final(self).spec_bytes() == old(
                self,
            ).spec_bytes(),
            final(self)@ == decode_utf8(final(self).spec_bytes()),
    {
        proof {
            use_type_invariant(&*self);
        }
        if new_len <= self.len() {
            runtime_assert(self.as_str().is_char_boundary(new_len));
            proof {
                vstd::utf8::valid_utf8_split(self.spec_bytes(), new_len as int);
                assert(self.xs@.take(new_len as int) =~= self.spec_bytes().subrange(
                    0,
                    new_len as int,
                ));
            }
            self.len = LenType::from_usize(new_len);
            assert(self.spec_bytes() =~= old(self).spec_bytes().take(new_len as int));
        }
    }

    /// Removes a `char` from this `ArrayString` at a byte position and
    /// returns it.
    ///
    /// `idx` must be smaller than the `ArrayString`'s length, and lie on a
    /// `char` boundary.
    pub fn remove(&mut self, idx: usize) -> (r: char)
        requires
            idx < old(self).spec_bytes().len(),
            is_char_boundary(old(self).spec_bytes(), idx as int),
        ensures
            r == decode_utf8(old(self).spec_bytes().skip(idx as int)).first(),
            final(self).spec_bytes() == old(self).spec_bytes().take(idx as int) + old(
                self,
            ).spec_bytes().skip(idx + spec_len_utf8(r)),
            final(self)@ == decode_utf8(old(self).spec_bytes().take(idx as int)) + decode_utf8(
                old(self).spec_bytes().skip(idx as int),
            ).drop_first(),
    {
        proof {
            use_type_invariant(&*self);
        }
        let len = self.len();
        let ghost before = self.spec_bytes();
        let ghost head = before.take(idx as int);
        let ghost tail = before.skip(idx as int);
        let ch = {
            let s = self.as_str();
            runtime_assert(idx < s.len() && s.is_char_boundary(idx));
            let (_front, back) = s.split_at(idx);
            proof {
                assert(back.spec_bytes() =~= tail);
                if back@.len() == 0 {
                    assert(encoding(back@) =~= Seq::<u8>::empty());
                }
            }
            let mut chars = back.chars();
            match chars.next() {
                Some(ch) => ch,
                None => unreached(),
            }
        };
        let width = len_utf8(ch);
        let next = idx + width;
        proof {
            vstd::utf8::valid_utf8_split(before, idx as int);
            assert(before.subrange(0, idx as int) =~= head);
            assert(before.subrange(idx as int, before.len() as int) =~= tail);
            let rest = decode_utf8(tail).drop_first();
            assert(decode_utf8(tail) =~= seq![ch] + rest);
            lemma_encoding_concat(seq![ch], rest);
            lemma_encoding_single(ch);
            assert(tail == encode_scalar(ch as u32) + encoding(rest));
            assert(tail.skip(width as int) =~= encoding(rest));
            assert(before.skip(next as int) =~= tail.skip(width as int));
            vstd::utf8::valid_utf8_concat(head, encoding(rest));
            lemma_encoding_concat(decode_utf8(head), rest);
            assert(self.xs@.take(idx as int) =~= head);
        }
        // The tail is hidden while it moves down.
        self.len = LenType::from_usize(idx);
        let mut i = next;
        while i < len
            invariant
                idx < next <= i <= len <= CAP <= LenType::spec_max(),
                next == idx + width,
                self.len.spec_to_usize() == idx,
                valid_utf8(head),
                before.len() == len,
                head == before.take(idx as int),
                self.xs@.take(idx as int) == head,
                forall|j: int| next <= j < i ==> self.xs@[j - width] == before[j],
                forall|j: int| i <= j < len ==> self.xs@[j] == before[j],
            decreases len - i,
        {
            let byte = self.xs[i];
            assert(self.xs@.update(i - width, byte).take(idx as int) =~= self.xs@.take(
                idx as int,
            ));
            self.xs[i - width] = byte;
            i = i + 1;
        }
        assert(self.xs@.take(len - width) =~= head + before.skip(next as int));
        self.len = LenType::from_usize(len - width);
        assert(self.spec_bytes() =~= head + before.skip(next as int));
        ch
    }

    /// Make the string empty.
    pub fn clear(&mut self)
        ensures
            final(self)@ == Seq::<char>::empty(),
            final(self).spec_bytes() == Seq::<u8>::empty(),
            final(self).buffer() == old(self).buffer(),
    {
        proof {
            use_type_invariant(&*self);
            assert(self.xs@.take(0) =~= Seq::<u8>::empty());
        }
        self.len = LenType::zero();
        assert(self.spec_bytes() =~= Seq::<u8>::empty());
    }

    /// Set the string's length, in bytes, without touching any byte.
    ///
    /// The bytes that the new length covers must be UTF-8.
    pub fn set_len(&mut self, length: usize)
        requires
            length <= CAP,
            valid_utf8(old(self).buffer().take(length as int)),
        ensures
            final(self).buffer() == old(self).buffer(),
            final(self).spec_bytes() == old(self).buffer().take(length as int),
            final(self)@ == decode_utf8(old(self).buffer().take(length as int)),
    {
        proof {
            use_type_invariant(&*self);
        }
        runtime_assert(length <= CAP);
        self.len = LenType::from_usize(length);
    }

    /// Makes the string empty and overwrites the whole backing array with
    /// zero bytes, so that nothing of the old content is left in it.
    pub fn zeroize(&mut self)
        ensures
            final(self)@ == Seq::<char>::empty(),
            final(self).spec_bytes() == Seq::<u8>::empty(),
            final(self).buffer() == Seq::new(CAP as nat, |i: int| 0u8),
    {
        // There are no elements to drop.
        self.clear();
        proof {
            use_type_invariant(&*self);
            assert(Seq::new(CAP as nat, |i: int| 0u8).take(0) =~= Seq::<u8>::empty());
        }
        // Zeroize the backing array.
        zeroize_bytes(&mut self.xs);
        assert(self.spec_bytes() =~= Seq::<u8>::empty());
    }

    /// Return a string slice of the whole `ArrayString`.
    pub fn as_str(&self) -> (s: &str)
        ensures
            s@ == self@,
            s.spec_bytes() == self.spec_bytes(),
    {
        proof {
            use_type_invariant(self);
        }
        let bytes = slice_subrange(self.xs.as_slice(), 0, self.len.to_usize());
        assert(bytes@ =~= self.spec_bytes());
        match core::str::from_utf8(bytes) {
            Ok(s) => s,
            Err(_) => unreached(),
        }
    }

    /// The bytes of the string. They are valid UTF-8, whatever was done to the
    /// string before.
    pub fn as_bytes(&self) -> (bytes: &[u8])
        ensures
            bytes@ == self.spec_bytes(),
            valid_utf8(bytes@),
            bytes@ == encoding(self@),
    {
        proof {
            use_type_invariant(self);
        }
        let bytes = slice_subrange(self.xs.as_slice(), 0, self.len.to_usize());
        assert(bytes@ =~= self.spec_bytes());
        bytes
    }
}

} // verus!
