//! The integer types that a length can be stored in, and the choice of one
//! of them from a capacity.

use vstd::prelude::*;

verus! {

/// Marks the integer types that may serve as a length type. It has no use
/// beyond that.
pub trait Sealed {

}

/// An unsigned integer type in which a container stores its length.
///
/// A container of capacity `CAP` needs `CAP <= MAX` of its length type:
/// every length from 0 to `CAP` then goes into the type and comes out of it
/// unchanged.
pub trait LenUint: Copy + Sealed {
    /// The largest length that the type can hold, as far as it fits `usize`.
    spec fn spec_max() -> usize;

    /// The length that a value of the type stands for.
    spec fn spec_to_usize(self) -> usize;

    /// The largest length that the type can hold.
    fn max() -> (r: usize)
        ensures
            r == Self::spec_max(),
    ;

    /// The length 0.
    fn zero() -> (r: Self)
        ensures
            r.spec_to_usize() == 0,
    ;

    /// The value that stands for the length `n`.
    fn from_usize(n: usize) -> (r: Self)
        requires
            n <= Self::spec_max(),
        ensures
            r.spec_to_usize() == n,
    ;

    /// The length that `self` stands for.
    fn to_usize(self) -> (r: usize)
        ensures
            r == self.spec_to_usize(),
            r <= Self::spec_max(),
    ;
}

impl Sealed for u8 {

}

impl LenUint for u8 {
    open spec fn spec_max() -> usize {
        0xff
    }

    open spec fn spec_to_usize(self) -> usize {
        self as usize
    }

    fn max() -> (r: usize) {
        0xff
    }

    fn zero() -> (r: Self) {
        0
    }

    fn from_usize(n: usize) -> (r: Self) {
        n as u8
    }

    fn to_usize(self) -> (r: usize) {
        self as usize
    }
}

impl Sealed for u16 {

}

impl LenUint for u16 {
    open spec fn spec_max() -> usize {
        0xffff
    }

    open spec fn spec_to_usize(self) -> usize {
        self as usize
    }

    fn max() -> (r: usize) {
        0xffff
    }

    fn zero() -> (r: Self) {
        0
    }

    fn from_usize(n: usize) -> (r: Self) {
        n as u16
    }

    fn to_usize(self) -> (r: usize) {
        self as usize
    }
}

impl Sealed for u32 {

}

impl LenUint for u32 {
    open spec fn spec_max() -> usize {
        0xffff_ffff
    }

    open spec fn spec_to_usize(self) -> usize {
        self as usize
    }

    fn max() -> (r: usize) {
        0xffff_ffff
    }

    fn zero() -> (r: Self) {
        0
    }

    fn from_usize(n: usize) -> (r: Self) {
        n as u32
    }

    fn to_usize(self) -> (r: usize) {
        self as usize
    }
}

impl Sealed for usize {

}

impl LenUint for usize {
    open spec fn spec_max() -> usize {
        usize::MAX
    }

    open spec fn spec_to_usize(self) -> usize {
        self
    }

    fn max() -> (r: usize) {
        usize::MAX
    }

    fn zero() -> (r: Self) {
        0
    }

    fn from_usize(n: usize) -> (r: Self) {
        n
    }

    fn to_usize(self) -> (r: usize) {
        self
    }
}

/// Whether a container of capacity `CAP` can keep its length in `L`.
pub open spec fn spec_cap_fits_in_len_type<L: LenUint, const CAP: usize>() -> bool {
    CAP <= L::spec_max()
}

/// Whether a container of capacity `CAP` can keep its length in `L`.
pub fn check_cap_fits_in_len_type<L: LenUint, const CAP: usize>() -> (r: bool)
    ensures
        r == spec_cap_fits_in_len_type::<L, CAP>(),
{
    CAP <= L::max()
}

/// A capacity, as a type: the types of this family choose the default
/// length type of a container.
pub struct CapToLenType<const CONST: usize> {}

/// The length type that a capacity chooses: the narrowest one that holds it.
pub trait CapToDefaultLenType {
    /// The length type.
    type T: LenUint;
}

impl CapToDefaultLenType for CapToLenType<0> {
    type T = u8;
}

impl CapToDefaultLenType for CapToLenType<1> {
    type T = u8;
}

impl CapToDefaultLenType for CapToLenType<2> {
    type T = u8;
}

impl CapToDefaultLenType for CapToLenType<3> {
    type T = u8;
}

impl CapToDefaultLenType for CapToLenType<4> {
    type T = u8;
}

impl CapToDefaultLenType for CapToLenType<5> {
    type T = u8;
}

impl CapToDefaultLenType for CapToLenType<6> {
    type T = u8;
}

impl CapToDefaultLenType for CapToLenType<7> {
    type T = u8;
}

impl CapToDefaultLenType for CapToLenType<8> {
    type T = u8;
}

impl CapToDefaultLenType for CapToLenType<9> {
    type T = u8;
}

impl CapToDefaultLenType for CapToLenType<10> {
    type T = u8;
}

impl CapToDefaultLenType for CapToLenType<11> {
    type T = u8;
}

impl CapToDefaultLenType for CapToLenType<12> {
    type T = u8;
}

impl CapToDefaultLenType for CapToLenType<13> {
    type T = u8;
}

impl CapToDefaultLenType for CapToLenType<14> {
    type T = u8;
}

impl CapToDefaultLenType for CapToLenType<15> {
    type T = u8;
}

impl CapToDefaultLenType for CapToLenType<16> {
    type T = u8;
}

impl CapToDefaultLenType for CapToLenType<32> {
    type T = u8;
}

impl CapToDefaultLenType for CapToLenType<64> {
    type T = u8;
}

impl CapToDefaultLenType for CapToLenType<100> {
    type T = u8;
}

impl CapToDefaultLenType for CapToLenType<128> {
    type T = u8;
}

impl CapToDefaultLenType for CapToLenType<200> {
    type T = u8;
}

impl CapToDefaultLenType for CapToLenType<255> {
    type T = u8;
}

impl CapToDefaultLenType for CapToLenType<256> {
    type T = u16;
}

impl CapToDefaultLenType for CapToLenType<500> {
    type T = u16;
}

impl CapToDefaultLenType for CapToLenType<512> {
    type T = u16;
}

impl CapToDefaultLenType for CapToLenType<1000> {
    type T = u16;
}

impl CapToDefaultLenType for CapToLenType<1024> {
    type T = u16;
}

impl CapToDefaultLenType for CapToLenType<2048> {
    type T = u16;
}

impl CapToDefaultLenType for CapToLenType<4096> {
    type T = u16;
}

impl CapToDefaultLenType for CapToLenType<8192> {
    type T = u16;
}

impl CapToDefaultLenType for CapToLenType<16384> {
    type T = u16;
}

impl CapToDefaultLenType for CapToLenType<32768> {
    type T = u16;
}

impl CapToDefaultLenType for CapToLenType<65535> {
    type T = u16;
}

impl CapToDefaultLenType for CapToLenType<65536> {
    type T = u32;
}

impl CapToDefaultLenType for CapToLenType<1000000> {
    type T = u32;
}

impl CapToDefaultLenType for CapToLenType<4294967295> {
    type T = u32;
}

/// The default length type of a container of capacity `CAP`.
pub type DefaultLenType<const CAP: usize> = <CapToLenType<CAP> as CapToDefaultLenType>::T;

} // verus!
