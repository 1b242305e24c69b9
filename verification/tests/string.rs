use arrayvec::array_string::ArrayString;
use arrayvec::utf8::encode_utf8;
use arrayvec::utf8::len_utf8;

#[test]
fn string_from_and_push_str() {
    let mut s = ArrayString::<9>::from("foo").unwrap();
    s.push_str("-bar");
    assert_eq!(s.as_str(), "foo-bar");
    assert_eq!(s.len(), 7);
    assert_eq!(s.remaining_capacity(), 2);
}

#[test]
fn string_push_without_room_changes_nothing() {
    let mut s = ArrayString::<9>::from("foo-bar").unwrap();
    assert_eq!(s.remaining_capacity(), 2);
    let e = s.try_push('\u{20ac}').unwrap_err();
    assert_eq!(e.element(), '\u{20ac}');
    assert_eq!(s.as_str(), "foo-bar");
    assert_eq!(s.len(), 7);
    assert!(s.try_push('\u{e9}').is_ok());
    assert_eq!(s.as_str(), "foo-bar\u{e9}");
    assert!(s.is_full());
}

#[test]
fn string_new_is_empty() {
    let mut string = ArrayString::<16>::new();
    assert!(string.is_empty());
    string.push_str("foo");
    assert_eq!(string.as_str(), "foo");
    assert_eq!(string.capacity(), 16);
    assert!(!string.is_empty());
    let other = ArrayString::<16>::new_const();
    assert_eq!(other.len(), 0);
}

#[test]
fn string_from_too_long() {
    let r = ArrayString::<3>::from("food");
    assert_eq!(r.unwrap_err().element(), "food");
    let string = ArrayString::<3>::from("foo").unwrap();
    assert_eq!(string.as_str(), "foo");
    assert_eq!(string.len(), 3);
    assert_eq!(string.capacity(), 3);
    assert!(string.is_full());
}

#[test]
fn string_try_push() {
    let mut string = ArrayString::<2>::new();
    string.try_push('a').unwrap();
    string.try_push('b').unwrap();
    let overflow = string.try_push('c');
    assert_eq!(string.as_str(), "ab");
    assert_eq!(overflow.unwrap_err().element(), 'c');
}

#[test]
fn string_try_push_str() {
    let mut string = ArrayString::<2>::new();
    string.try_push_str("a").unwrap();
    let overflow1 = string.try_push_str("bc");
    string.try_push_str("d").unwrap();
    let overflow2 = string.try_push_str("ef");
    assert_eq!(string.as_str(), "ad");
    assert_eq!(overflow1.unwrap_err().element(), "bc");
    assert_eq!(overflow2.unwrap_err().element(), "ef");
}

#[test]
fn string_push_chars_of_every_width() {
    let mut s = ArrayString::<10>::new();
    s.push('a');
    s.push('\u{e9}');
    s.push('\u{20ac}');
    s.push('\u{1f600}');
    assert_eq!(s.as_str(), "a\u{e9}\u{20ac}\u{1f600}");
    assert_eq!(s.len(), 10);
    assert!(s.is_full());
}

#[test]
fn string_pop() {
    let mut s = ArrayString::<8>::from("fo\u{20ac}o").unwrap();
    assert_eq!(s.pop(), Some('o'));
    assert_eq!(s.pop(), Some('\u{20ac}'));
    assert_eq!(s.len(), 2);
    assert_eq!(s.pop(), Some('o'));
    assert_eq!(s.pop(), Some('f'));
    assert_eq!(s.pop(), None);
    assert!(s.is_empty());
}

#[test]
fn string_truncate() {
    let mut string = ArrayString::<6>::from("foobar").unwrap();
    string.truncate(3);
    assert_eq!(string.as_str(), "foo");
    string.truncate(4);
    assert_eq!(string.as_str(), "foo");
    string.truncate(0);
    assert_eq!(string.as_str(), "");
}

#[test]
fn string_remove() {
    let mut s = ArrayString::<3>::from("foo").unwrap();
    assert_eq!(s.remove(0), 'f');
    assert_eq!(s.remove(1), 'o');
    assert_eq!(s.remove(0), 'o');
    assert!(s.is_empty());

    let mut t = ArrayString::<8>::from("a\u{20ac}bc").unwrap();
    assert_eq!(t.remove(1), '\u{20ac}');
    assert_eq!(t.as_str(), "abc");
    assert_eq!(t.len(), 3);
}

#[test]
fn string_clear_and_set_len() {
    let mut s = ArrayString::<6>::from("foobar").unwrap();
    s.clear();
    assert_eq!(s.as_str(), "");
    s.set_len(3);
    assert_eq!(s.as_str(), "foo");
}

#[test]
fn string_zeroize_wipes_the_buffer() {
    let mut string = ArrayString::<6>::from("foobar").unwrap();
    string.zeroize();
    assert_eq!(string.len(), 0);
    string.set_len(string.capacity());
    assert_eq!(string.as_str(), "\0\0\0\0\0\0");
}

#[test]
fn string_from_byte_string() {
    let string = ArrayString::<11>::from_byte_string(b"hello world").unwrap();
    assert_eq!(string.as_str(), "hello world");
    assert_eq!(string.len(), 11);
    assert!(ArrayString::<2>::from_byte_string(&[0xff, 0xfe]).is_err());
    assert!(ArrayString::<2>::from_byte_string(&[0xc3, 0xa9]).is_ok());
}

#[test]
fn string_eq_compares_contents() {
    let a = ArrayString::<8>::from("abc").unwrap();
    let mut b = ArrayString::<8>::from("abcd").unwrap();
    assert!(!a.eq(&b));
    b.pop();
    assert!(a.eq(&b));
    let c = a.clone();
    assert!(c.eq(&a));
}

#[test]
fn string_with_explicit_length_type() {
    let mut s = ArrayString::<300, u16>::new();
    for _ in 0..30 {
        s.push_str("0123456789");
    }
    assert_eq!(s.len(), 300);
    assert!(s.is_full());
    assert!(s.try_push('x').is_err());
    let mut t = ArrayString::<5, usize>::new();
    t.push_str("hello");
    assert_eq!(t.as_str(), "hello");
}

#[test]
fn encode_utf8_exact_bytes() {
    let mut buf = [0u8; 6];
    assert_eq!(encode_utf8('a', &mut buf, 0).unwrap(), 1);
    assert_eq!(buf, [0x61, 0, 0, 0, 0, 0]);
    assert_eq!(encode_utf8('\u{e9}', &mut buf, 1).unwrap(), 2);
    assert_eq!(buf, [0x61, 0xc3, 0xa9, 0, 0, 0]);
    assert_eq!(encode_utf8('\u{20ac}', &mut buf, 3).unwrap(), 3);
    assert_eq!(buf, [0x61, 0xc3, 0xa9, 0xe2, 0x82, 0xac]);
    assert!(encode_utf8('a', &mut buf, 6).is_err());
    assert!(encode_utf8('\u{1f600}', &mut buf, 3).is_err());
    assert_eq!(buf, [0x61, 0xc3, 0xa9, 0xe2, 0x82, 0xac]);
    assert_eq!(encode_utf8('\u{1f600}', &mut buf, 2).unwrap(), 4);
    assert_eq!(buf, [0x61, 0xc3, 0xf0, 0x9f, 0x98, 0x80]);
}

#[test]
fn len_utf8_agrees_with_std() {
    for c in ['\0', 'a', '\u{7f}', '\u{80}', '\u{7ff}', '\u{800}', '\u{ffff}', '\u{10000}', '\u{10ffff}'] {
        assert_eq!(len_utf8(c), c.len_utf8());
        let mut buf = [0u8; 4];
        let n = encode_utf8(c, &mut buf, 0).unwrap();
        let mut expected = [0u8; 4];
        let s = c.encode_utf8(&mut expected);
        assert_eq!(n, s.len());
        assert_eq!(buf, expected);
    }
}

#[test]
fn string_zero_filled() {
    let string = ArrayString::<16>::zero_filled();
    assert_eq!(string.len(), 16);
    assert_eq!(string.as_bytes(), &[0u8; 16]);
    assert!(string.is_full());
}

#[test]
fn string_from_str_drops_the_rejected_string() {
    let s = ArrayString::<4>::from_str("abcd").unwrap();
    assert_eq!(s.as_bytes(), b"abcd");
    assert_eq!(ArrayString::<4>::from_str("abcde").unwrap_err().element(), ());
}

#[test]
fn string_equality_operator() {
    let a = ArrayString::<8>::from("abc").unwrap();
    let mut b = ArrayString::<8>::from("abd").unwrap();
    assert!(a != b);
    b.pop();
    b.push('c');
    assert!(a == b);
}

#[test]
fn strings_are_ordered_by_their_bytes() {
    let a = ArrayString::<8>::from("abc").unwrap();
    let b = ArrayString::<8>::from("abd").unwrap();
    let c = ArrayString::<8>::from("ab").unwrap();
    let d = ArrayString::<8>::from("\u{e9}").unwrap();
    assert!(a < b);
    assert!(c < a);
    assert!(b < d);
    assert_eq!(a.partial_cmp(&a), Some(std::cmp::Ordering::Equal));
    assert_eq!(a.partial_cmp(&c), "abc".partial_cmp("ab"));
    assert_eq!(d.partial_cmp(&b), "\u{e9}".partial_cmp("abd"));
}
