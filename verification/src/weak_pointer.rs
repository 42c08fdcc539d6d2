//! The user-facing weak pointer, generic over element type and counting
//! strategy.
//!
//! A `WeakPointer<T, P>` owns exactly one weak reference — or none at all,
//! for the fresh empty pointer — and never keeps its target alive.  Its
//! `upgrade` succeeds exactly when some strong pointer to the same
//! allocation is still alive at the instant of the call.

use vstd::prelude::*;

pub mod kind;

verus! {

use core::marker::PhantomData;

use crate::shared_pointer::SharedPointer;
use crate::shared_pointer::kind::SharedPointerKind;
use crate::store::SlotModel;
use crate::store::Store;
use crate::store::same_allocation;
use crate::weak_pointer::kind::WeakPointerKind;

/// A weak, kind-polymorphic reference-counted pointer into a [`Store<T>`].
pub struct WeakPointer<T, P>
    where P: WeakPointerKind,
{
    ptr: P,
    _phantom_t: PhantomData<T>,
}

impl<T, P> WeakPointer<T, P>
    where P: WeakPointerKind,
{
    /// The slot this pointer weakly references; `None` for the empty
    /// pointer, which dangles.
    pub closed spec fn target(&self) -> Option<usize> {
        self.ptr.target()
    }

    /// Whatever this pointer references lies within `store`.
    pub open spec fn valid(&self, store: Store<T>) -> bool {
        match self.target() {
            Some(i) => i < store@.len(),
            None => true,
        }
    }

    /// What `strong_count` reads: the strong count of the target, 0 for the
    /// empty pointer.
    pub open spec fn spec_strong_count(&self, store: Store<T>) -> nat {
        match self.target() {
            Some(i) => store@[i as int].strong,
            None => 0,
        }
    }

    /// What `weak_count` reads: the weak count of the target while strong
    /// references remain, 0 once the value is gone and for the empty
    /// pointer.
    pub open spec fn spec_weak_count(&self, store: Store<T>) -> nat {
        match self.target() {
            Some(i) => if store@[i as int].strong > 0 {
                store@[i as int].weak
            } else {
                0
            },
            None => 0,
        }
    }

    /// Wraps an erased weak handle that already owns its weak reference.
    pub fn new_from_inner(ptr: P) -> (w: WeakPointer<T, P>)
        ensures
            w.target() == ptr.target(),
    {
        WeakPointer { ptr, _phantom_t: PhantomData }
    }

    /// The fresh empty weak pointer: it references no allocation, reads both
    /// counts as 0, and never upgrades.
    pub fn new() -> (w: WeakPointer<T, P>)
        ensures
            w.target() is None,
    {
        WeakPointer::new_from_inner(P::new())
    }

    /// Reads the strong count behind this pointer: 0 for the empty pointer.
    pub fn strong_count(&self, store: &Store<T>) -> (n: usize)
        requires
            self.valid(*store),
        ensures
            n == self.spec_strong_count(*store),
    {
        match self.ptr.target_slot() {
            Some(i) => store.strong_count(i),
            None => 0,
        }
    }

    /// Reads the weak count behind this pointer: 0 for the empty pointer,
    /// and 0 once no strong reference is left.
    pub fn weak_count(&self, store: &Store<T>) -> (n: usize)
        requires
            self.valid(*store),
        ensures
            n == self.spec_weak_count(*store),
    {
        match self.ptr.target_slot() {
            Some(i) => {
                if store.strong_count(i) > 0 {
                    store.weak_count(i)
                } else {
                    0
                }
            },
            None => 0,
        }
    }

    /// Whether two weak pointers — of the same or of different strategies
    /// over one store — refer to the same allocation; two empty pointers,
    /// both dangling, also compare equal.
    pub fn ptr_eq<PO>(this: &WeakPointer<T, P>, other: &WeakPointer<T, PO>) -> (r: bool)
        where PO: WeakPointerKind,
        ensures
            r == same_allocation(this.target(), other.target()),
    {
        match (this.ptr.target_slot(), other.ptr.target_slot()) {
            (Some(a), Some(b)) => a == b,
            (None, None) => true,
            _ => false,
        }
    }

    /// Whether this weak pointer and a strong pointer — of any strategy
    /// over one store — refer to the same allocation; the empty weak
    /// pointer dangles and never matches a strong pointer.
    pub fn ptr_eq_shared<PO>(this: &WeakPointer<T, P>, other: &SharedPointer<T, PO>) -> (r: bool)
        where PO: SharedPointerKind,
        ensures
            r == same_allocation(this.target(), other.target()),
    {
        match this.ptr.target_slot() {
            Some(a) => a == other.as_ptr(),
            None => false,
        }
    }

    /// Attempts to turn this weak reference into a strong one.  It succeeds
    /// exactly when strong references remain at the instant of the call —
    /// the check and the increment happen under one `&mut` borrow of the
    /// store — and on success the strong count goes up by exactly 1.
    pub fn upgrade(&self, store: &mut Store<T>) -> (r: Option<
        SharedPointer<T, <P as WeakPointerKind>::SharedPtr>,
    >)
        requires
            old(store).wf(),
            self.valid(*old(store)),
            self.target() matches Some(i) ==> old(store)@[i as int].strong < usize::MAX,
        ensures
            final(store).wf(),
            r is Some <==> self.spec_strong_count(*old(store)) > 0,
            match r {
                Some(s) => {
                    &&& Some(s.slot()) == self.target()
                    &&& s.valid(*final(store))
                    &&& final(store)@ == old(store)@.update(
                        s.slot() as int,
                        SlotModel {
                            strong: old(store)@[s.slot() as int].strong + 1,
                            ..old(store)@[s.slot() as int]
                        },
                    )
                },
                None => *final(store) == *old(store),
            },
    {
        match self.ptr.target_slot() {
            Some(i) => {
                if store.try_upgrade(i) {
                    Some(SharedPointer::new_from_inner(
                        <P::SharedPtr as SharedPointerKind>::new_from_slot(i),
                    ))
                } else {
                    None
                }
            },
            None => None,
        }
    }

    /// A second weak pointer to the same target: for a non-empty pointer
    /// the weak count goes up by exactly 1, and cloning the empty pointer
    /// touches no count at all.
    pub fn clone(&self, store: &mut Store<T>) -> (w: WeakPointer<T, P>)
        requires
            old(store).wf(),
            self.valid(*old(store)),
            self.target() matches Some(i) ==> old(store)@[i as int].weak < usize::MAX,
        ensures
            final(store).wf(),
            w.target() == self.target(),
            match self.target() {
                Some(i) => final(store)@ == old(store)@.update(
                    i as int,
                    SlotModel { weak: old(store)@[i as int].weak + 1, ..old(store)@[i as int] },
                ),
                None => *final(store) == *old(store),
            },
    {
        match self.ptr.target_slot() {
            Some(i) => {
                store.incr_weak(i);
                WeakPointer::new_from_inner(P::new_from_slot(i))
            },
            None => WeakPointer::new_from_inner(P::new()),
        }
    }

    /// Gives this weak reference back: for a non-empty pointer the weak
    /// count goes down by exactly 1; dropping the empty pointer touches no
    /// count at all.
    pub fn drop(self, store: &mut Store<T>)
        requires
            old(store).wf(),
            self.valid(*old(store)),
            self.target() matches Some(i) ==> old(store)@[i as int].weak > 0,
        ensures
            final(store).wf(),
            match self.target() {
                Some(i) => final(store)@ == old(store)@.update(
                    i as int,
                    SlotModel {
                        weak: (old(store)@[i as int].weak - 1) as nat,
                        ..old(store)@[i as int]
                    },
                ),
                None => *final(store) == *old(store),
            },
    {
        match self.ptr.target_slot() {
            Some(i) => store.decr_weak(i),
            None => (),
        }
    }

    /// The raw identity of the referenced allocation: its slot number, or
    /// `None` for the empty pointer, whose handle dangles.
    pub fn as_ptr(&self) -> (a: Option<usize>)
        ensures
            a == self.target(),
    {
        self.ptr.target_slot()
    }
}

/// A freshly constructed empty weak pointer reads strong count 0 and weak
/// count 0 against any store — and so, by the contract of `upgrade`, it can
/// never upgrade.
pub proof fn lemma_empty_weak_reads_zero<T, P>(w: WeakPointer<T, P>, store: Store<T>)
    where P: WeakPointerKind,
    requires
        w.target() is None,
    ensures
        w.spec_strong_count(store) == 0,
        w.spec_weak_count(store) == 0,
{
}

/// Once the last strong reference to a slot is gone its payload is gone too
/// — the destructor ran at that very drop — and every weak pointer to the
/// slot reads strong count 0 from then on, so by the contract of `upgrade`
/// it returns `None` thereafter.
pub proof fn lemma_released_never_upgrades<T, P>(w: WeakPointer<T, P>, store: Store<T>, i: usize)
    where P: WeakPointerKind,
    requires
        store.wf(),
        w.target() == Some(i),
        i < store@.len(),
        store@[i as int].strong == 0,
    ensures
        store@[i as int].value is None,
        w.spec_strong_count(store) == 0,
{
}

} // verus!
