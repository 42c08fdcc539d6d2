use std::cell::Cell;
use std::rc::Rc;

use archery::ArcK;
use archery::RcK;
use archery::SharedPointer;
use archery::Store;
use archery::WeakPointer;
use archery::WeakRcK;

struct Counted {
    hits: Rc<Cell<u32>>,
}

impl Drop for Counted {
    fn drop(&mut self) {
        self.hits.set(self.hits.get() + 1);
    }
}

#[test]
fn test_new_shared() {
    let mut store: Store<i32> = Store::new();
    let a: SharedPointer<i32, RcK> = SharedPointer::new(&mut store, 42);
    assert_eq!(a.strong_count(&store), 1);
    assert_eq!(a.weak_count(&store), 0);
    assert_eq!(*a.deref(&store), 42);
    a.drop(&mut store);
}

#[test]
fn test_new_shared_arc_kind() {
    let mut store: Store<i32> = Store::new();
    let a: SharedPointer<i32, ArcK> = SharedPointer::new(&mut store, 42);
    assert_eq!(a.strong_count(&store), 1);
    assert_eq!(a.weak_count(&store), 0);
    assert_eq!(*a.deref(&store), 42);
    a.drop(&mut store);
}

#[test]
fn test_clone_moves_strong_count_only() {
    let mut store: Store<i32> = Store::new();
    let a: SharedPointer<i32, RcK> = SharedPointer::new(&mut store, 5);
    let b = a.clone(&mut store);
    assert_eq!(a.strong_count(&store), 2);
    assert_eq!(a.weak_count(&store), 0);
    assert_eq!(*b.deref(&store), 5);
    b.drop(&mut store);
    assert_eq!(a.strong_count(&store), 1);
    assert_eq!(a.weak_count(&store), 0);
    a.drop(&mut store);
}

#[test]
fn test_downgrade_moves_weak_count_only() {
    let mut store: Store<i32> = Store::new();
    let a: SharedPointer<i32, RcK> = SharedPointer::new(&mut store, 5);
    let w = a.downgrade(&mut store);
    assert_eq!(a.strong_count(&store), 1);
    assert_eq!(a.weak_count(&store), 1);
    assert_eq!(w.strong_count(&store), 1);
    assert_eq!(w.weak_count(&store), 1);
    w.drop(&mut store);
    assert_eq!(a.weak_count(&store), 0);
    a.drop(&mut store);
}

#[test]
fn test_upgrade_increments_strong_count() {
    let mut store: Store<i32> = Store::new();
    let a: SharedPointer<i32, RcK> = SharedPointer::new(&mut store, 9);
    let w = a.downgrade(&mut store);
    let up = w.upgrade(&mut store);
    assert!(up.is_some());
    let up = up.unwrap();
    assert_eq!(a.strong_count(&store), 2);
    assert_eq!(*up.deref(&store), 9);
    up.drop(&mut store);
    a.drop(&mut store);
    assert!(w.upgrade(&mut store).is_none());
    w.drop(&mut store);
}

#[test]
fn test_shared_ptr_eq() {
    let mut store: Store<i32> = Store::new();
    let a: SharedPointer<i32, RcK> = SharedPointer::new(&mut store, 1);
    let b = a.clone(&mut store);
    let c: SharedPointer<i32, RcK> = SharedPointer::new(&mut store, 1);
    assert!(SharedPointer::ptr_eq(&a, &a));
    assert!(SharedPointer::ptr_eq(&a, &b));
    assert!(SharedPointer::ptr_eq(&b, &a));
    assert!(!SharedPointer::ptr_eq(&a, &c));
    a.drop(&mut store);
    b.drop(&mut store);
    c.drop(&mut store);
}

#[test]
fn test_destructor_runs_exactly_once() {
    let hits = Rc::new(Cell::new(0));
    let mut store: Store<Counted> = Store::new();
    let a: SharedPointer<Counted, RcK> = SharedPointer::new(
        &mut store,
        Counted { hits: Rc::clone(&hits) },
    );
    let b = a.clone(&mut store);
    let w = a.downgrade(&mut store);
    a.drop(&mut store);
    assert_eq!(hits.get(), 0);
    b.drop(&mut store);
    assert_eq!(hits.get(), 1);
    assert!(w.upgrade(&mut store).is_none());
    assert_eq!(hits.get(), 1);
    w.drop(&mut store);
    assert_eq!(hits.get(), 1);
}

#[test]
fn test_try_unwrap_unique() {
    let mut store: Store<i32> = Store::new();
    let a: SharedPointer<i32, RcK> = SharedPointer::new(&mut store, 11);
    match a.try_unwrap(&mut store) {
        Ok(v) => assert_eq!(v, 11),
        Err(_) => panic!("uniquely owned value must be handed out"),
    }
}

#[test]
fn test_try_unwrap_keeps_value_alive_not_destroyed() {
    let hits = Rc::new(Cell::new(0));
    let mut store: Store<Counted> = Store::new();
    let a: SharedPointer<Counted, RcK> = SharedPointer::new(
        &mut store,
        Counted { hits: Rc::clone(&hits) },
    );
    let owned = a.try_unwrap(&mut store);
    assert!(owned.is_ok());
    assert_eq!(hits.get(), 0);
    drop(owned);
    assert_eq!(hits.get(), 1);
}

#[test]
fn test_try_unwrap_shared_fails_and_leaves_counts() {
    let mut store: Store<i32> = Store::new();
    let a: SharedPointer<i32, RcK> = SharedPointer::new(&mut store, 11);
    let b = a.clone(&mut store);
    let a = match a.try_unwrap(&mut store) {
        Ok(_) => panic!("a shared value must stay in place"),
        Err(p) => p,
    };
    assert_eq!(a.strong_count(&store), 2);
    assert_eq!(a.weak_count(&store), 0);
    b.drop(&mut store);

    let w = a.downgrade(&mut store);
    let a = match a.try_unwrap(&mut store) {
        Ok(_) => panic!("a weakly referenced value must stay in place"),
        Err(p) => p,
    };
    assert_eq!(a.strong_count(&store), 1);
    assert_eq!(a.weak_count(&store), 1);
    w.drop(&mut store);
    a.drop(&mut store);
}

#[test]
fn test_get_mut_only_when_unique() {
    let mut store: Store<i32> = Store::new();
    let a: SharedPointer<i32, RcK> = SharedPointer::new(&mut store, 3);
    match a.get_mut(&mut store) {
        Some(m) => *m = 4,
        None => panic!("a unique value must be mutable"),
    }
    assert_eq!(*a.deref(&store), 4);

    let b = a.clone(&mut store);
    assert!(a.get_mut(&mut store).is_none());
    b.drop(&mut store);

    let w = a.downgrade(&mut store);
    assert!(a.get_mut(&mut store).is_none());
    w.drop(&mut store);

    match a.get_mut(&mut store) {
        Some(m) => *m = 5,
        None => panic!("uniqueness must come back once the others are gone"),
    }
    assert_eq!(*a.deref(&store), 5);
    a.drop(&mut store);
}

#[test]
fn test_end_to_end() {
    let mut store: Store<i32> = Store::new();
    let a: SharedPointer<i32, RcK> = SharedPointer::new(&mut store, 42);
    let w: WeakPointer<i32, WeakRcK> = a.downgrade(&mut store);
    let a2 = a.clone(&mut store);
    a.drop(&mut store);
    let up = w.upgrade(&mut store);
    assert!(up.is_some());
    let up = up.unwrap();
    assert_eq!(up.strong_count(&store), 2);
    assert_eq!(*up.deref(&store), 42);
    up.drop(&mut store);
    a2.drop(&mut store);
    assert!(w.upgrade(&mut store).is_none());
    w.drop(&mut store);
}
