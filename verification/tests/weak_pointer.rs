use archery::SharedPointer;
use archery::Store;
use archery::WeakArcK;
use archery::WeakPointer;
use archery::WeakRcK;

#[test]
fn test_new() {
    let mut store: Store<i32> = Store::new();
    let weak: WeakPointer<i32, WeakRcK> = WeakPointer::new();
    assert_eq!(weak.strong_count(&store), 0);
    assert_eq!(weak.weak_count(&store), 0);
    assert!(weak.upgrade(&mut store).is_none());
}

#[test]
fn test_new_arc_kind() {
    let mut store: Store<i32> = Store::new();
    let weak: WeakPointer<i32, WeakArcK> = WeakPointer::new();
    assert_eq!(weak.strong_count(&store), 0);
    assert_eq!(weak.weak_count(&store), 0);
    assert!(weak.upgrade(&mut store).is_none());
}

#[test]
fn test_empty_weak_clone_stays_empty() {
    let mut store: Store<i32> = Store::new();
    let weak: WeakPointer<i32, WeakRcK> = WeakPointer::new();
    let weak2 = weak.clone(&mut store);
    assert_eq!(weak2.strong_count(&store), 0);
    assert_eq!(weak2.weak_count(&store), 0);
    assert!(weak2.upgrade(&mut store).is_none());
    assert_eq!(weak2.as_ptr(), None);
    weak2.drop(&mut store);
    weak.drop(&mut store);
}

#[test]
fn test_empty_weak_pointers_compare_equal() {
    let a: WeakPointer<i32, WeakRcK> = WeakPointer::new();
    let b: WeakPointer<i32, WeakRcK> = WeakPointer::new();
    let c: WeakPointer<i32, WeakArcK> = WeakPointer::new();
    assert!(WeakPointer::ptr_eq(&a, &a));
    assert!(WeakPointer::ptr_eq(&a, &b));
    assert!(WeakPointer::ptr_eq(&a, &c));
}

#[test]
fn test_weak_ptr_eq_tracks_allocation() {
    let mut store: Store<u8> = Store::new();
    let a: SharedPointer<u8, archery::RcK> = SharedPointer::new(&mut store, 1);
    let b: SharedPointer<u8, archery::RcK> = SharedPointer::new(&mut store, 1);
    let wa = a.downgrade(&mut store);
    let wa2 = a.downgrade(&mut store);
    let wb = b.downgrade(&mut store);
    let empty: WeakPointer<u8, WeakRcK> = WeakPointer::new();

    assert!(WeakPointer::ptr_eq(&wa, &wa));
    assert!(WeakPointer::ptr_eq(&wa, &wa2));
    assert!(WeakPointer::ptr_eq(&wa2, &wa));
    assert!(!WeakPointer::ptr_eq(&wa, &wb));
    assert!(!WeakPointer::ptr_eq(&wa, &empty));

    assert_eq!(wa.as_ptr(), Some(a.as_ptr()));
    assert_eq!(wb.as_ptr(), Some(b.as_ptr()));

    assert!(WeakPointer::ptr_eq_shared(&wa, &a));
    assert!(!WeakPointer::ptr_eq_shared(&wa, &b));
    assert!(!WeakPointer::ptr_eq_shared(&empty, &a));

    wa.drop(&mut store);
    wa2.drop(&mut store);
    wb.drop(&mut store);
    a.drop(&mut store);
    b.drop(&mut store);
}

#[test]
fn test_weak_count_reads_zero_after_release() {
    let mut store: Store<i32> = Store::new();
    let a: SharedPointer<i32, archery::RcK> = SharedPointer::new(&mut store, 7);
    let w = a.downgrade(&mut store);
    assert_eq!(w.strong_count(&store), 1);
    assert_eq!(w.weak_count(&store), 1);
    a.drop(&mut store);
    assert_eq!(w.strong_count(&store), 0);
    assert_eq!(w.weak_count(&store), 0);
    w.drop(&mut store);
}
