use arrayvec::nodrop::NoDrop;
use arrayvec::uninit;
use std::cell::Cell;

struct Bump<'a>(&'a Cell<i32>);

impl<'a> Drop for Bump<'a> {
    fn drop(&mut self) {
        let n = self.0.get();
        self.0.set(n + 1);
    }
}

#[test]
fn lib_test_drop() {
    let flag = &Cell::new(0);

    {
        let _ = NoDrop::new([Bump(flag), Bump(flag)]);
    }
    assert_eq!(flag.get(), 0);

    // test something with the nullable pointer optimization
    flag.set(0);

    {
        let mut array = NoDrop::new(Vec::new());
        array.get_mut().push(vec![Bump(flag)]);
        array.get_mut().push(vec![Bump(flag), Bump(flag)]);
        array.get_mut().push(vec![]);
        array.get_mut().push(vec![Bump(flag)]);
        drop(array.get_mut().pop());
        assert_eq!(flag.get(), 1);
        drop(array.get_mut().pop());
        assert_eq!(flag.get(), 1);
        drop(array.get_mut().pop());
        assert_eq!(flag.get(), 3);
    }

    // last one didn't drop.
    assert_eq!(flag.get(), 3);

    flag.set(0);
    {
        let array = NoDrop::new(Bump(flag));
        array.into_inner();
        assert_eq!(flag.get(), 1);
    }
    assert_eq!(flag.get(), 1);
}

#[test]
fn nodrop_gives_access_to_its_value() {
    let mut held = NoDrop::new(7u32);
    assert_eq!(*held.get(), 7);
    *held.get_mut() += 1;
    assert_eq!(held.into_inner(), 8);
}

#[test]
fn uninit_holds_its_value() {
    let mut u = uninit::new(String::from("x"));
    assert_eq!(u.get(), "x");
    u.get_mut().push('y');
    assert_eq!(u.get(), "xy");
}
