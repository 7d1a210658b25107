use atri_plugin::abi::managed::{Destructor, Duplicator, Managed, ManagedCloneable, Store};

#[derive(Debug, Clone)]
struct Test {
    a: i32,
    b: usize,
    c: Option<Box<(Test, Test)>>,
}

impl PartialEq for Test {
    fn eq(&self, other: &Self) -> bool {
        if self.a != other.a {
            return false;
        }
        if self.b != other.b {
            return false;
        }

        self.c == other.c
    }
}

fn sample() -> Test {
    Test {
        a: 233,
        b: 114514,
        c: Some(Box::new((
            Test {
                a: 23114,
                b: 114514,
                c: None,
            },
            Test {
                a: 114514,
                b: 2333,
                c: None,
            },
        ))),
    }
}

#[test]
fn managed_value() {
    let test = sample();
    let test0 = test.clone();
    let mut store = Store::new();
    let managed = Managed::from_value(test, &mut store);
    let test: Test = managed.into_value(&mut store);

    assert_eq!(test, test0);
}

#[test]
fn wrapped_value_gets_a_fresh_address() {
    let mut store: Store<u64> = Store::new();
    let a = Managed::from_value(10, &mut store);
    let b = Managed::from_value(20, &mut store);
    assert_eq!(a.pointer, 1);
    assert_eq!(b.pointer, 2);
    assert_eq!(a.as_ptr(), 1);
    assert_eq!(a.as_mut_ptr(), 1);
    assert_eq!(a.drop, Destructor::Release);
    assert!(!a.is_null());
    assert_eq!(*store.get(1), 10);
    assert_eq!(*store.get(2), 20);
    assert_eq!(b.into_value(&mut store), 20);
    assert_eq!(a.into_value(&mut store), 10);
}

#[test]
fn destructor_runs_exactly_once() {
    let mut store: Store<String> = Store::new();
    let m = Managed::from_value(String::from("x"), &mut store);
    let p = m.pointer;
    assert!(store.is_live(p));
    assert_eq!(store.drop_count(p), 0);
    m.destroy(&mut store);
    assert!(!store.is_live(p));
    assert_eq!(store.drop_count(p), 1);
    let other = Managed::from_value(String::from("y"), &mut store);
    assert_ne!(other.pointer, p);
    other.destroy(&mut store);
    assert_eq!(store.drop_count(p), 1);
}

#[test]
fn unwrap_suppresses_the_destructor() {
    let mut store: Store<String> = Store::new();
    let m = Managed::from_value(String::from("kept"), &mut store);
    let p = m.pointer;
    let s = m.into_value(&mut store);
    assert_eq!(s, "kept");
    assert!(!store.is_live(p));
    assert_eq!(store.drop_count(p), 0);
}

#[test]
fn boxed_value() {
    let mut store: Store<i32> = Store::new();
    let m = Managed::from_box(Box::new(-4), &mut store);
    assert_eq!(m.into_value(&mut store), -4);
}

#[test]
fn null_and_static_values_have_no_destructor() {
    let mut store: Store<u8> = Store::new();
    let live = Managed::from_value(1, &mut store);
    let n = Managed::null();
    assert!(n.is_null());
    assert_eq!(n.pointer, 0);
    assert_eq!(n.drop, Destructor::Noop);
    n.destroy(&mut store);
    let s = Managed::from_static(0x4000);
    assert_eq!(s.pointer, 0x4000);
    assert_eq!(s.drop, Destructor::Noop);
    s.destroy(&mut store);
    assert!(store.is_live(live.pointer));
    assert_eq!(store.drop_count(live.pointer), 0);
}

#[test]
fn duplicate_is_equal_and_independent() {
    let mut store: Store<Test> = Store::new();
    let first = ManagedCloneable::from_value(sample(), &mut store);
    assert_eq!(first.clone, Duplicator::Cloning);
    let copy = first.duplicate(&mut store);
    assert_ne!(copy.value.pointer, first.value.pointer);
    assert_eq!(store.get(copy.value.pointer), store.get(first.value.pointer));
    let copy_at = copy.value.pointer;
    Managed::from(copy).destroy(&mut store);
    assert!(!store.is_live(copy_at));
    assert!(store.is_live(first.value.pointer));
    assert_eq!(*store.get(first.value.pointer), sample());

    let second = first.duplicate(&mut store);
    let first_at = first.value.pointer;
    Managed::from(first).destroy(&mut store);
    assert!(!store.is_live(first_at));
    assert_eq!(second.into_value(&mut store), sample());
}

#[test]
fn null_duplicates_to_null() {
    let mut store: Store<u8> = Store::new();
    let n = ManagedCloneable::null();
    let d = n.duplicate(&mut store);
    assert_eq!(d.value.pointer, 0);
    assert_eq!(d.clone, Duplicator::Null);
    assert!(store.has_room());
    let e = n.clone(&|_p| -> ManagedCloneable { panic!("nil is not handed to the other side") });
    assert_eq!(e.value.pointer, 0);
}

#[test]
fn foreign_value_duplicates_through_the_other_side() {
    let foreign = ManagedCloneable {
        value: Managed { pointer: 0x10, drop: Destructor::Foreign(0xd0) },
        clone: Duplicator::Foreign(0xc0),
    };
    let copy = foreign.clone(&|p| ManagedCloneable {
        value: Managed { pointer: p + 1, drop: Destructor::Foreign(0xd0) },
        clone: Duplicator::Foreign(0xc0),
    });
    assert_eq!(copy.value.pointer, 0x11);
    let plain = Managed::from(copy);
    assert_eq!(plain.pointer, 0x11);
    assert_eq!(plain.drop, Destructor::Foreign(0xd0));
    assert_eq!((*foreign).pointer, 0x10);
}
