use arrayvec::arrayvec_copy::ArrayVecCopy;
use arrayvec::errors::CapacityError;
use arrayvec::range::InclusiveRange;

#[test]
fn tests_copy_test_simple() {
    let mut vec: ArrayVecCopy<usize, 3> = ArrayVecCopy::new();

    vec.push(4);
    vec.push(10);
    vec.push(11);

    let real_vec: Vec<usize> = vec![4, 10, 11];

    for (i, vec_elt) in real_vec.iter().enumerate() {
        assert_eq!(vec.get(i), vec_elt);
    }

    assert_eq!(vec.to_vec(), real_vec);
}

#[test]
fn test_capacity_left() {
    let mut vec: ArrayVecCopy<usize, 4> = ArrayVecCopy::new();
    assert_eq!(vec.remaining_capacity(), 4);
    vec.push(1);
    assert_eq!(vec.remaining_capacity(), 3);
    vec.push(2);
    assert_eq!(vec.remaining_capacity(), 2);
    vec.push(3);
    assert_eq!(vec.remaining_capacity(), 1);
    vec.push(4);
    assert_eq!(vec.remaining_capacity(), 0);
}

#[test]
fn test_extend_from_slice() {
    let mut vec: ArrayVecCopy<usize, 10> = ArrayVecCopy::new();

    vec.try_extend_from_slice(&[1, 2, 3]).unwrap();
    assert_eq!(vec.len(), 3);
    assert_eq!(vec.to_vec(), vec![1, 2, 3]);
    assert_eq!(vec.pop(), Some(3));
    assert_eq!(vec.to_vec(), vec![1, 2]);
}

#[test]
fn test_extend_from_slice_error() {
    let mut vec: ArrayVecCopy<usize, 10> = ArrayVecCopy::new();

    vec.try_extend_from_slice(&[1, 2, 3]).unwrap();
    let res = vec.try_extend_from_slice(&[0; 8]);
    assert!(matches!(res, Err(_)));

    let mut vec: ArrayVecCopy<usize, 0> = ArrayVecCopy::new();
    let res = vec.try_extend_from_slice(&[0; 1]);
    assert!(matches!(res, Err(_)));
}

#[test]
fn test_try_from_slice_error() {
    let res: Result<ArrayVecCopy<_, 2>, _> = ArrayVecCopy::try_from(&[1, 2, 3] as &[_]);
    assert!(matches!(res, Err(_)));
}

#[test]
fn tests_copy_test_u16_index() {
    const N: usize = 4096;
    let mut vec: ArrayVecCopy<_, N> = ArrayVecCopy::new();
    for _ in 0..N {
        assert!(vec.try_push(1u8).is_ok());
    }
    assert!(vec.try_push(0).is_err());
    assert_eq!(vec.len(), N);
}

#[test]
fn tests_copy_test_iter() {
    let mut iter = ArrayVecCopy::from([1, 2, 3]).into_iter();
    assert_eq!(iter.size_hint(), (3, Some(3)));
    assert_eq!(iter.next_back(), Some(3));
    assert_eq!(iter.next(), Some(1));
    assert_eq!(iter.next_back(), Some(2));
    assert_eq!(iter.size_hint(), (0, Some(0)));
    assert_eq!(iter.next_back(), None);
}

#[test]
fn tests_copy_test_extend() {
    let mut range = 0..10;

    let mut array: ArrayVecCopy<_, 5> = ArrayVecCopy::from_iter(&mut range.by_ref().take(5));
    assert_eq!(array.to_vec(), vec![0, 1, 2, 3, 4]);
    assert_eq!(range.next(), Some(5));

    array.extend(&mut range.by_ref().take(0));
    assert_eq!(range.next(), Some(6));

    let mut array: ArrayVecCopy<_, 10> = ArrayVecCopy::from_iter(&mut (0..3));
    assert_eq!(array.to_vec(), vec![0, 1, 2]);
    array.extend(&mut (3..5));
    assert_eq!(array.to_vec(), vec![0, 1, 2, 3, 4]);
}

#[should_panic]
#[test]
fn test_extend_capacity_panic_1() {
    let mut range = 0..10;

    let _: ArrayVecCopy<_, 5> = ArrayVecCopy::from_iter(&mut range.by_ref());
}

#[should_panic]
#[test]
fn test_extend_capacity_panic_2() {
    let mut range = 0..10;

    let mut array: ArrayVecCopy<_, 5> = ArrayVecCopy::from_iter(&mut range.by_ref().take(5));
    assert_eq!(array.to_vec(), vec![0, 1, 2, 3, 4]);
    assert_eq!(range.next(), Some(5));
    array.extend(&mut range.by_ref().take(1));
}

#[test]
fn tests_copy_test_is_send_sync() {
    let data = ArrayVecCopy::<u8, 5>::new();
    let _ = &data as &dyn Send;
    let _ = &data as &dyn Sync;
}

#[test]
fn test_still_works_with_option_arrayvec() {
    type RefArray = ArrayVecCopy<&'static i32, 2>;
    let array = Some(RefArray::new());
    assert!(array.is_some());
    println!("{:?}", array);
}

#[test]
fn tests_copy_test_drain() {
    let mut v = ArrayVecCopy::from([0; 8]);
    v.pop();
    v.drain(0..7);
    assert_eq!(v.to_vec(), vec![]);

    v.extend(&mut (0..8));
    v.drain(1..4);
    assert_eq!(v.to_vec(), vec![0, 4, 5, 6, 7]);
    let mut drained = v.drain(1..4);
    let u: ArrayVecCopy<_, 3> = ArrayVecCopy::from_iter(
        &mut std::iter::from_fn(|| drained.next_back()),
    );
    assert_eq!(u.to_vec(), vec![6, 5, 4]);
    assert_eq!(v.to_vec(), vec![0, 7]);
    v.drain(..);
    assert_eq!(v.to_vec(), vec![]);
}

#[test]
fn test_drain_range_inclusive() {
    let mut v = ArrayVecCopy::from([0; 8]);
    v.drain(InclusiveRange { start: 0, end: 7 });
    assert_eq!(v.to_vec(), vec![]);

    v.extend(&mut (0..8));
    v.drain(InclusiveRange { start: 1, end: 4 });
    assert_eq!(v.to_vec(), vec![0, 5, 6, 7]);
    let mut drained = v.drain(InclusiveRange { start: 1, end: 2 });
    let u: ArrayVecCopy<_, 3> = ArrayVecCopy::from_iter(
        &mut std::iter::from_fn(|| drained.next_back()),
    );
    assert_eq!(u.to_vec(), vec![6, 5]);
    assert_eq!(v.to_vec(), vec![0, 7]);
    v.drain(..);
    assert_eq!(v.to_vec(), vec![]);
}

#[test]
#[should_panic]
fn test_drain_range_inclusive_oob() {
    let mut v = ArrayVecCopy::from([0; 0]);
    v.drain(InclusiveRange { start: 0, end: 0 });
}

#[test]
fn test_retain() {
    let mut v = ArrayVecCopy::from([0; 8]);
    for i in 0..v.len() {
        *v.get_mut(i) = i;
    }
    v.retain(|_| true);
    assert_eq!(v.to_vec(), vec![0, 1, 2, 3, 4, 5, 6, 7]);
    v.retain(|elt| {
        *elt /= 2;
        *elt % 2 == 0
    });
    assert_eq!(v.to_vec(), vec![0, 0, 2, 2]);
    v.retain(|_| false);
    assert_eq!(v.to_vec(), vec![]);
}

#[test]
#[should_panic]
fn tests_copy_test_drain_oob() {
    let mut v = ArrayVecCopy::from([0; 8]);
    v.pop();
    v.drain(0..8);
}

#[test]
fn tests_copy_test_insert() {
    let mut v = ArrayVecCopy::from([]);
    assert!(matches!(v.try_push(1), Err(_)));

    let mut v = ArrayVecCopy::<_, 3>::new();
    v.insert(0, 0);
    v.insert(1, 1);
    assert_eq!(v.to_vec(), vec![0, 1]);
    v.insert(2, 2);
    assert_eq!(v.to_vec(), vec![0, 1, 2]);

    let ret2 = v.try_insert(1, 9);
    assert_eq!(v.to_vec(), vec![0, 1, 2]);
    assert!(matches!(ret2, Err(_)));

    let mut v = ArrayVecCopy::from([2]);
    assert!(matches!(v.try_insert(0, 1), Err(CapacityError { .. })));
    assert!(matches!(v.try_insert(1, 1), Err(CapacityError { .. })));
}

#[test]
fn test_into_inner_1() {
    let mut v = ArrayVecCopy::from([1, 2]);
    v.pop();
    let u = v.clone();
    assert_eq!(v.into_inner(), Err(u));
}

#[test]
fn test_into_inner_2() {
    let mut v = ArrayVecCopy::<char, 4>::new();
    v.push('a');
    v.push('b');
    v.push('c');
    v.push('d');
    assert_eq!(v.into_inner().unwrap(), ['a', 'b', 'c', 'd']);
}

#[test]
fn test_into_inner_3() {
    let mut v = ArrayVecCopy::<i32, 4>::new();
    v.extend(&mut (1..=4));
    assert_eq!(v.into_inner().unwrap(), [1, 2, 3, 4]);
}

#[test]
fn test_take() {
    let mut v1 = ArrayVecCopy::<i32, 4>::new();
    v1.extend(&mut (1..=4));
    let v2 = v1.take();
    assert!(v1.into_inner().is_err());
    assert_eq!(v2.into_inner().unwrap(), [1, 2, 3, 4]);
}

#[test]
fn test_write() {
    let mut v = ArrayVecCopy::<_, 8>::new();
    assert_eq!(v.write(b"\x01\x02\x03"), 3);
    assert_eq!(v.to_vec(), vec![1, 2, 3]);
    let r = v.write(&[9; 16]);
    assert_eq!(r, 5);
    assert_eq!(v.to_vec(), vec![1, 2, 3, 9, 9, 9, 9, 9]);
}

#[test]
fn array_clone_from() {
    let mut v = ArrayVecCopy::<usize, 4>::new();
    v.push(1);
    v.push(5);
    v.push(6);
    let reference = v.to_vec();
    let mut u = ArrayVecCopy::<usize, 4>::new();
    u.clone_from(&v);
    assert_eq!(u.to_vec(), reference);

    let mut t = ArrayVecCopy::<usize, 4>::new();
    t.push(97);
    t.push(0);
    t.push(5);
    t.push(2);
    t.clone_from(&v);
    assert_eq!(t.to_vec(), reference);
    t.clear();
    t.clone_from(&v);
    assert_eq!(t.to_vec(), reference);
}

#[test]
fn test_insert_at_length() {
    let mut v = ArrayVecCopy::<_, 8>::new();
    let result1 = v.try_insert(0, "a");
    let result2 = v.try_insert(1, "b");
    assert!(result1.is_ok() && result2.is_ok());
    assert_eq!(v.to_vec(), vec!["a", "b"]);
}

#[should_panic]
#[test]
fn test_insert_out_of_bounds() {
    let mut v = ArrayVecCopy::<_, 8>::new();
    let _ = v.try_insert(1, "test");
}

#[test]
fn test_pop_at() {
    let mut v = ArrayVecCopy::<&'static str, 4>::new();
    v.push("a");
    v.push("b");
    v.push("c");
    v.push("d");

    assert_eq!(v.pop_at(4), None);
    assert_eq!(v.pop_at(1), Some("b"));
    assert_eq!(v.pop_at(1), Some("c"));
    assert_eq!(v.pop_at(2), None);
    assert_eq!(v.to_vec(), vec!["a", "d"]);
}

#[test]
fn test_sizes() {
    let v = ArrayVecCopy::from([0u8; 1 << 16]);
    assert_eq!(vec![0u8; v.len()], v.to_vec());
}

#[test]
fn test_sizes_33_128() {
    ArrayVecCopy::from([0u8; 52]);
    ArrayVecCopy::from([0u8; 127]);
}

#[test]
fn test_sizes_129_255() {
    ArrayVecCopy::from([0u8; 237]);
    ArrayVecCopy::from([0u8; 255]);
}

#[derive(Copy, Clone, PartialEq, Debug)]
struct Z; // Zero sized type

#[test]
fn test_extend_zst() {
    let mut range = 0..10;

    let mut array: ArrayVecCopy<_, 5> = ArrayVecCopy::from_iter(
        &mut range.by_ref().take(5).map(|_| Z),
    );
    assert_eq!(array.to_vec(), vec![Z; 5]);
    assert_eq!(range.next(), Some(5));

    array.extend(&mut range.by_ref().take(0).map(|_| Z));
    assert_eq!(range.next(), Some(6));

    let mut array: ArrayVecCopy<_, 10> = ArrayVecCopy::from_iter(&mut (0..3).map(|_| Z));
    assert_eq!(array.to_vec(), vec![Z; 3]);
    array.extend(&mut (3..5).map(|_| Z));
    assert_eq!(array.to_vec(), vec![Z; 5]);
    assert_eq!(array.len(), 5);
}

#[test]
fn test_arrayvec_const_constructible() {
    let of_u8: ArrayVecCopy<u8, 10> = ArrayVecCopy::new_const();

    let mut var = of_u8;
    assert!(var.is_empty());
    assert_eq!(var, ArrayVecCopy::new());
    var.push(3);
    assert_eq!(var.to_vec(), [3]);
}

#[test]
fn extend_exactly_to_capacity() {
    let mut v = ArrayVecCopy::<u32, 6>::new();
    v.push(1);
    v.push(2);
    let room = v.remaining_capacity();
    assert_eq!(room, 4);
    v.extend(&mut (10..14));
    assert!(v.is_full());
    assert_eq!(v.to_vec(), vec![1, 2, 10, 11, 12, 13]);
}

#[test]
fn try_extend_from_slice_fails_without_change() {
    let mut v = ArrayVecCopy::<u32, 4>::new();
    v.push(7);
    assert!(v.try_extend_from_slice(&[1, 2, 3, 4]).is_err());
    assert_eq!(v.to_vec(), vec![7]);
    assert!(v.try_extend_from_slice(&[1, 2, 3]).is_ok());
    assert!(v.is_full());
    assert_eq!(v.to_vec(), vec![7, 1, 2, 3]);
}

#[test]
fn remove_and_swap_remove() {
    let mut v = ArrayVecCopy::from([1, 2, 3, 4]);
    assert_eq!(v.remove(1), 2);
    assert_eq!(v.to_vec(), vec![1, 3, 4]);
    assert_eq!(v.swap_remove(0), 1);
    assert_eq!(v.to_vec(), vec![4, 3]);
    assert_eq!(v.swap_pop(5), None);
    assert_eq!(v.swap_pop(1), Some(3));
    assert_eq!(v.to_vec(), vec![4]);
}

#[test]
fn const_push_chain() {
    let v = ArrayVecCopy::<u8, 3>::new_const().const_push(1).const_push(2);
    assert_eq!(v.to_vec(), vec![1, 2]);
    let w = v.const_try_push(3).unwrap();
    assert!(w.is_full());
    let e = w.const_try_push(4).unwrap_err();
    assert_eq!(e.element(), 4);
    assert_eq!(e.simplify().element(), ());
}

#[test]
fn set_len_cuts_the_tail_off() {
    let mut v = ArrayVecCopy::from([1, 2, 3, 4]);
    v.set_len(2);
    assert_eq!(v.to_vec(), vec![1, 2]);
    v.truncate(1);
    assert_eq!(v.to_vec(), vec![1]);
}

#[test]
fn drain_range_by_indices() {
    let mut v = ArrayVecCopy::from([0, 1, 2, 3, 4, 5, 6, 7]);
    let mut d = v.drain_range(1, 4);
    assert_eq!(d.len(), 3);
    assert_eq!(d.size_hint(), (3, Some(3)));
    assert_eq!(d.next(), Some(1));
    assert_eq!(d.next_back(), Some(3));
    assert_eq!(d.next(), Some(2));
    assert_eq!(d.next(), None);
    assert_eq!(v.to_vec(), vec![0, 4, 5, 6, 7]);
    let mut e = v.drain(2..);
    assert_eq!(e.next(), Some(5));
    assert_eq!(v.to_vec(), vec![0, 4]);
    let mut f = v.drain(..1);
    assert_eq!(f.next(), Some(0));
    assert_eq!(v.to_vec(), vec![4]);
}

#[test]
fn set_len_brings_hidden_elements_back() {
    let mut v = ArrayVecCopy::from([1, 2, 3, 4]);
    v.set_len(1);
    assert_eq!(v.to_vec(), vec![1]);
    v.set_len(3);
    assert_eq!(v.to_vec(), vec![1, 2, 3]);
}

#[test]
fn vectors_are_ordered_like_slices() {
    let a = ArrayVecCopy::<u32, 4>::try_from(&[1, 2, 3][..]).unwrap();
    let b = ArrayVecCopy::<u32, 4>::try_from(&[1, 2, 4][..]).unwrap();
    let c = ArrayVecCopy::<u32, 4>::try_from(&[1, 2][..]).unwrap();
    let e = ArrayVecCopy::<u32, 4>::default();
    assert!(a < b);
    assert!(c < a);
    assert!(e < c);
    assert!(b > a);
    assert_eq!(a.partial_cmp(&a), Some(std::cmp::Ordering::Equal));
    assert_eq!(a.partial_cmp(&c), Some(std::cmp::Ordering::Greater));
    assert_eq!([1u32, 2, 3][..].partial_cmp(&[1u32, 2][..]), a.partial_cmp(&c));
    let x = ArrayVecCopy::<f64, 2>::try_from(&[f64::NAN][..]).unwrap();
    assert_eq!(x.partial_cmp(&x), None);
    assert!(x != x);
}

#[test]
fn equality_ignores_what_lies_beyond_the_length() {
    let mut a = ArrayVecCopy::from([1, 2, 9]);
    let mut b = ArrayVecCopy::from([1, 2, 7]);
    assert!(a != b);
    a.pop();
    b.pop();
    assert!(a == b);
    b.pop();
    assert!(a != b);
}

#[test]
fn allow_max_capacity_arrayvec_type() {
    // this type is allowed to be used (but can't be constructed)
    let _v: ArrayVecCopy<(), { usize::MAX }>;
}
