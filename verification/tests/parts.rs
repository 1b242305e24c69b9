use arrayvec::array::Array;
use arrayvec::arrayvec_ref::ArrayVecRefMut;
use arrayvec::errors::CapacityError;
use arrayvec::errors::OutOfBoundsError;
use arrayvec::errors::PubCrateNew;
use arrayvec::len_type::check_cap_fits_in_len_type;
use arrayvec::len_type::LenUint;
use arrayvec::maybe_uninit::MaybeUninit;
use arrayvec::misc::RangeArgument;
use arrayvec::range::max;
use arrayvec::range::InclusiveRange;
use arrayvec::range::IntoCheckedRange;
use arrayvec::range::IntoIndexRange;
use arrayvec::raw::RawArrayVec;
use arrayvec::vec::ArrayVec;

#[test]
fn capacity_error_carries_the_element() {
    let e: CapacityError<u8> = CapacityError::new(7);
    assert_eq!(e.description(), "insufficient capacity");
    assert_eq!(e.element(), 7);
    let f: CapacityError<&str> = CapacityError::new("x");
    assert_eq!(f.simplify().element(), ());
    let o = OutOfBoundsError::new(());
    assert_eq!(o.description(), "remove index is out of bounds");
}

#[test]
fn len_types_convert_both_ways() {
    assert_eq!(<u8 as LenUint>::max(), 255);
    assert_eq!(<u16 as LenUint>::max(), 65535);
    assert_eq!(<u32 as LenUint>::max(), 4294967295);
    assert_eq!(<usize as LenUint>::max(), usize::MAX);
    assert_eq!(<u8 as LenUint>::zero(), 0);
    assert_eq!(<u8 as LenUint>::from_usize(200).to_usize(), 200);
    assert_eq!(<u16 as LenUint>::from_usize(40000).to_usize(), 40000);
    assert_eq!(<u32 as LenUint>::from_usize(70000).to_usize(), 70000);
    assert!(check_cap_fits_in_len_type::<u8, 255>());
    assert!(!check_cap_fits_in_len_type::<u8, 256>());
    assert!(check_cap_fits_in_len_type::<u16, 256>());
}

#[test]
fn range_arguments() {
    assert_eq!((..).start(), None);
    assert_eq!(RangeArgument::end(&(..)), None);
    assert_eq!((2..).start(), Some(2));
    assert_eq!(RangeArgument::end(&(2..)), None);
    assert_eq!((..5).start(), None);
    assert_eq!(RangeArgument::end(&(..5)), Some(5));
    assert_eq!(RangeArgument::start(&(2..5)), Some(2));
    assert_eq!(RangeArgument::end(&(2..5)), Some(5));
    let r = InclusiveRange { start: 2usize, end: 5usize };
    assert_eq!(r.start(), Some(2));
    assert_eq!(RangeArgument::end(&r), Some(6));
    let top = InclusiveRange { start: 0usize, end: usize::MAX };
    assert_eq!(RangeArgument::end(&top), Some(usize::MAX));
}

#[test]
fn index_ranges() {
    assert_eq!((..).into_index_range(7), 0..7);
    assert_eq!((3..).into_index_range(7), 3..7);
    assert_eq!((..9).into_index_range(7), 0..9);
    assert_eq!((2..4).into_index_range(7), 2..4);
    assert_eq!(InclusiveRange { start: 2usize, end: 4usize }.into_index_range(7), 2..5);
    assert_eq!(
        InclusiveRange { start: 2usize, end: usize::MAX }.into_index_range(7),
        2..usize::MAX
    );
}

#[test]
fn checked_ranges() {
    assert_eq!((..).into_checked_range(7), Ok(0..7));
    assert_eq!((3..).into_checked_range(7), Ok(3..7));
    assert_eq!((8..).into_checked_range(7), Err(8));
    assert_eq!((..7).into_checked_range(7), Ok(0..7));
    assert_eq!((..9).into_checked_range(7), Err(9));
    assert_eq!((2..4).into_checked_range(7), Ok(2..4));
    assert_eq!((4..2).into_checked_range(7), Err(4));
    assert_eq!((2..8).into_checked_range(7), Err(8));
    assert_eq!(InclusiveRange { start: 2usize, end: 6usize }.into_checked_range(7), Ok(2..7));
    assert_eq!(InclusiveRange { start: 2usize, end: 7usize }.into_checked_range(7), Err(7));
    assert_eq!(InclusiveRange { start: 5usize, end: 3usize }.into_checked_range(7), Err(5));
    assert_eq!(max(3, 9), 9);
    assert_eq!(max(9, 3), 9);
}

#[test]
fn slot_buffer() {
    let mut b: MaybeUninit<String, 3> = MaybeUninit::uninitialized();
    assert_eq!(b.capacity(), 3);
    assert!(!b.is_init(0));
    b.write(0, String::from("a"));
    b.write(2, String::from("c"));
    assert!(b.is_init(0) && !b.is_init(1) && b.is_init(2));
    b.move_slot(0, 1);
    assert!(!b.is_init(0));
    assert_eq!(b.get(1), "a");
    b.swap(1, 2);
    assert_eq!(b.get(1), "c");
    assert_eq!(b.get(2), "a");
    b.get_mut(2).push('!');
    assert_eq!(b.take(2), Some(String::from("a!")));
    assert_eq!(b.take(2), None);
    b.write(0, String::from("x"));
    b.write(2, String::from("z"));
    assert_eq!(b.into_array(), [String::from("x"), String::from("c"), String::from("z")]);
    let full = MaybeUninit::from([1, 2]);
    assert_eq!(*full.get(0), 1);
    assert_eq!(*full.get(1), 2);
}

#[test]
fn raw_vector_basics() {
    let mut v: RawArrayVec<u32, 2> = RawArrayVec::new();
    assert!(v.is_empty());
    assert!(v.push(1).is_ok());
    assert!(v.push(2).is_ok());
    assert!(v.is_full());
    assert_eq!(v.push(3).unwrap_err().element(), 3);
    assert_eq!(v.insert(0, 9).unwrap_err().element(), 2);
    assert_eq!((*v.get(0), *v.get(1)), (9, 1));
    assert_eq!(v.insert(2, 5).unwrap_err().element(), 5);
    assert_eq!(v.try_insert(1, 5).unwrap_err().element(), 5);
    assert_eq!(v.pop(), Some(1));
    assert_eq!(v.len(), 1);
    assert_eq!(v.remaining_capacity(), 1);
    assert!(v.try_insert(0, 4).is_ok());
    assert_eq!((*v.get(0), *v.get(1)), (4, 9));
}

#[test]
fn raw_vector_set_len_hides_and_shows() {
    let mut v = RawArrayVec::from([1, 2, 3, 4]);
    v.set_len(1);
    assert_eq!(v.len(), 1);
    v.set_len(3);
    assert_eq!(v.len(), 3);
    assert_eq!(*v.get(2), 3);
}

#[test]
fn raw_vector_retain_changes_and_filters() {
    let mut v = RawArrayVec::from([0usize, 1, 2, 3, 4, 5, 6, 7]);
    v.retain(|elt: &mut usize| {
        *elt /= 2;
        *elt % 2 == 0
    });
    assert_eq!(v.len(), 4);
    assert_eq!(*v.get(0), 0);
    assert_eq!(*v.get(1), 0);
    assert_eq!(*v.get(2), 2);
    assert_eq!(*v.get(3), 2);
}

#[test]
fn raw_vector_write_and_clone_from() {
    let mut v: RawArrayVec<u8, 4> = RawArrayVec::new();
    assert_eq!(v.write(&[1, 2, 3]), 3);
    assert_eq!(v.write(&[4, 5, 6]), 1);
    assert_eq!(v.write(&[7]), 0);
    let mut w: RawArrayVec<u8, 4> = RawArrayVec::new();
    w.clone_from(&v);
    assert!(w == v);
    assert_eq!(w.remove(0), Some(1));
    assert_eq!(w.remove(3), None);
    assert!(w != v);
    w.extend_from_slice(&[9]);
    assert_eq!((*w.get(0), *w.get(3)), (2, 9));
    w.dispose();
}

#[test]
fn vector_reference_pushes_through() {
    let mut v: ArrayVec<u8, 2> = ArrayVec::new();
    {
        let mut r = ArrayVecRefMut::new(&mut v);
        assert_eq!(r.capacity(), 2);
        assert_eq!(r.remaining_capacity(), 2);
        r.push(1);
        assert_eq!(r.len(), 1);
        assert!(r.try_push(2).is_ok());
        assert!(r.is_full());
        assert_eq!(r.try_push(3).unwrap_err().element(), 3);
    }
    assert_eq!(v.to_vec(), vec![1, 2]);
}

#[test]
fn arrays_know_their_capacity() {
    assert_eq!(<[u8; 7] as Array>::capacity(), 7);
    let a = [1, 2, 3];
    assert_eq!(Array::as_slice(&a), &[1, 2, 3]);
}
