//! Vectors and strings that store their contents inline, in a buffer whose
//! capacity is fixed by the type.
//!
//! - [`ArrayVec`] is a vector of at most `CAP` elements. Where there is no
//!   room it hands back the element that is left over.
//! - [`arrayvec_copy::ArrayVecCopy`] is such a vector for `Copy` elements,
//!   itself `Copy`. Where there is no room it changes nothing.
//! - [`ArrayString`] is a string of at most `CAP` bytes of UTF-8.
//!
//! All of them are built on [`raw::RawArrayVec`], a length together with a
//! buffer of `CAP` slots ([`maybe_uninit::MaybeUninit`]), of which the first
//! `length` are live. A slot records whether it holds a value, so no slot is
//! ever read that holds none, and every element is dropped once.
//!
//! Every function states what it does as a contract over the sequence of
//! elements (or characters) that a container stands for, and is proved to
//! keep it. Where a function must not be called on some input, its
//! `requires` says so; called from unverified code on such an input, it
//! panics.

pub mod array;
pub mod array_string;
pub mod arrayvec_copy;
pub mod arrayvec_ref;
pub mod errors;
pub mod len_type;
pub mod maybe_uninit;
pub mod misc;
pub mod nodrop;
pub mod order;
pub mod range;
pub mod raw;
pub mod uninit;
pub mod utf8;
pub mod vec;

pub use crate::array::Array;
pub use crate::array_string::ArrayString;
pub use crate::errors::CapacityError;
pub use crate::misc::RangeArgument;
pub use crate::raw::Drain;
pub use crate::vec::ArrayVec;
pub use crate::vec::IntoIter;
