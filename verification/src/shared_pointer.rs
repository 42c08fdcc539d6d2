//! The user-facing strong pointer, generic over element type and counting
//! strategy.
//!
//! A `SharedPointer<T, P>` owns exactly one strong reference into a
//! [`Store<T>`]: the erased handle of its counted box, routed through the
//! [`SharedPointerKind`] capability.  While such a pointer exists its slot
//! stays live, so dereferencing always succeeds; the payload's destructor
//! runs exactly once, inside the store, when the last strong reference is
//! dropped.

use vstd::prelude::*;

pub mod kind;

verus! {

use core::marker::PhantomData;

use crate::shared_pointer::kind::SharedPointerKind;
use crate::store::SlotModel;
use crate::store::Store;
use crate::store::same_allocation;
use crate::weak_pointer::WeakPointer;
use crate::weak_pointer::kind::WeakPointerKind;

/// A strong, kind-polymorphic reference-counted pointer into a [`Store<T>`].
pub struct SharedPointer<T, P>
    where P: SharedPointerKind,
{
    ptr: P,
    _phantom_t: PhantomData<T>,
}

impl<T, P> SharedPointer<T, P>
    where P: SharedPointerKind,
{
    /// The slot of the counted box this pointer owns a strong reference to.
    pub closed spec fn slot(&self) -> usize {
        self.ptr.slot()
    }

    /// The allocation identity compared by `ptr_eq`: a strong pointer never
    /// dangles.
    pub open spec fn target(&self) -> Option<usize> {
        Some(self.slot())
    }

    /// The pointer refers to a live slot of `store`.
    pub open spec fn valid(&self, store: Store<T>) -> bool {
        &&& self.slot() < store@.len()
        &&& store@[self.slot() as int].strong > 0
    }

    /// Wraps an erased handle that already owns one strong reference.
    pub fn new_from_inner(ptr: P) -> (s: SharedPointer<T, P>)
        ensures
            s.slot() == ptr.slot(),
    {
        SharedPointer { ptr, _phantom_t: PhantomData }
    }

    /// Allocates a fresh counted box holding `value`: its strong count is 1
    /// and its weak count 0, and the new pointer dereferences to `value`.
    pub fn new(store: &mut Store<T>, value: T) -> (s: SharedPointer<T, P>)
        requires
            old(store).wf(),
            old(store)@.len() < usize::MAX,
        ensures
            final(store).wf(),
            s.slot() == old(store)@.len(),
            s.valid(*final(store)),
            final(store)@ == old(store)@.push(
                SlotModel { value: Some(value), strong: 1nat, weak: 0nat },
            ),
    {
        let idx = store.allocate(value);
        SharedPointer::new_from_inner(P::new_from_slot(idx))
    }

    /// Borrows the value: always possible, since a live strong pointer keeps
    /// its slot alive.
    pub fn deref<'a>(&self, store: &'a Store<T>) -> (r: &'a T)
        requires
            store.wf(),
            self.valid(*store),
        ensures
            store@[self.slot() as int].value == Some(*r),
    {
        store.value(self.ptr.slot_index())
    }

    /// Reads the strong count of this pointer's allocation.
    pub fn strong_count(&self, store: &Store<T>) -> (n: usize)
        requires
            self.valid(*store),
        ensures
            n == store@[self.slot() as int].strong,
    {
        store.strong_count(self.ptr.slot_index())
    }

    /// Reads the weak count of this pointer's allocation.
    pub fn weak_count(&self, store: &Store<T>) -> (n: usize)
        requires
            self.valid(*store),
        ensures
            n == store@[self.slot() as int].weak,
    {
        store.weak_count(self.ptr.slot_index())
    }

    /// A second strong pointer to the same allocation: the strong count goes
    /// up by exactly 1 and everything else — the weak count included — stays
    /// as it was.
    pub fn clone(&self, store: &mut Store<T>) -> (s: SharedPointer<T, P>)
        requires
            old(store).wf(),
            self.valid(*old(store)),
            old(store)@[self.slot() as int].strong < usize::MAX,
        ensures
            final(store).wf(),
            s.slot() == self.slot(),
            s.valid(*final(store)),
            final(store)@ == old(store)@.update(
                self.slot() as int,
                SlotModel {
                    strong: old(store)@[self.slot() as int].strong + 1,
                    ..old(store)@[self.slot() as int]
                },
            ),
    {
        let idx = self.ptr.slot_index();
        store.incr_strong(idx);
        SharedPointer::new_from_inner(P::new_from_slot(idx))
    }

    /// A weak pointer to this allocation: the weak count goes up by exactly
    /// 1 and the strong count stays as it was.
    pub fn downgrade(&self, store: &mut Store<T>) -> (w: WeakPointer<T, P::WeakPtr>)
        where P::WeakPtr: WeakPointerKind,
        requires
            old(store).wf(),
            self.valid(*old(store)),
            old(store)@[self.slot() as int].weak < usize::MAX,
        ensures
            final(store).wf(),
            w.target() == Some(self.slot()),
            final(store)@ == old(store)@.update(
                self.slot() as int,
                SlotModel {
                    weak: old(store)@[self.slot() as int].weak + 1,
                    ..old(store)@[self.slot() as int]
                },
            ),
    {
        let idx = self.ptr.slot_index();
        store.incr_weak(idx);
        WeakPointer::new_from_inner(<P::WeakPtr as WeakPointerKind>::new_from_slot(idx))
    }

    /// Whether two strong pointers — of the same or of different strategies
    /// over one store — refer to the same allocation.
    pub fn ptr_eq<PO>(this: &SharedPointer<T, P>, other: &SharedPointer<T, PO>) -> (r: bool)
        where PO: SharedPointerKind,
        ensures
            r == same_allocation(this.target(), other.target()),
    {
        this.ptr.slot_index() == other.ptr.slot_index()
    }

    /// A mutable borrow of the value, handed out exactly when this is the
    /// only reference of any kind: strong count 1 and weak count 0.
    pub fn get_mut<'a>(&self, store: &'a mut Store<T>) -> (r: Option<&'a mut T>)
        requires
            old(store).wf(),
            self.valid(*old(store)),
        ensures
            final(store).wf(),
            r is Some <==> (old(store)@[self.slot() as int].strong == 1
                && old(store)@[self.slot() as int].weak == 0),
            match r {
                Some(m) => {
                    &&& old(store)@[self.slot() as int].value == Some(*m)
                    &&& final(store)@ == old(store)@.update(
                        self.slot() as int,
                        SlotModel { value: Some(*final(m)), ..old(store)@[self.slot() as int] },
                    )
                },
                None => *final(store) == *old(store),
            },
    {
        store.get_mut(self.ptr.slot_index())
    }

    /// Consumes this pointer; hands the value out exactly when it was the
    /// only reference of any kind — strong count 1 and weak count 0 — and
    /// otherwise gives the pointer back with every count unchanged.
    pub fn try_unwrap(self, store: &mut Store<T>) -> (r: Result<T, SharedPointer<T, P>>)
        requires
            old(store).wf(),
            self.valid(*old(store)),
        ensures
            final(store).wf(),
            r is Ok <==> (old(store)@[self.slot() as int].strong == 1
                && old(store)@[self.slot() as int].weak == 0),
            match r {
                Ok(v) => {
                    &&& old(store)@[self.slot() as int].value == Some(v)
                    &&& final(store)@ == old(store)@.update(
                        self.slot() as int,
                        SlotModel { value: None, strong: 0nat, weak: 0nat },
                    )
                },
                Err(p) => {
                    &&& p.slot() == self.slot()
                    &&& *final(store) == *old(store)
                },
            },
    {
        let idx = self.ptr.slot_index();
        match store.take_if_unique(idx) {
            Some(v) => Ok(v),
            None => Err(self),
        }
    }

    /// Gives this strong reference back: the strong count goes down by
    /// exactly 1, and when it was the last one the payload is destroyed —
    /// exactly once, in the store.  The weak count stays as it was.
    pub fn drop(self, store: &mut Store<T>)
        requires
            old(store).wf(),
            self.valid(*old(store)),
        ensures
            final(store).wf(),
            final(store)@ == old(store)@.update(
                self.slot() as int,
                SlotModel {
                    value: if old(store)@[self.slot() as int].strong == 1 {
                        None
                    } else {
                        old(store)@[self.slot() as int].value
                    },
                    strong: (old(store)@[self.slot() as int].strong - 1) as nat,
                    weak: old(store)@[self.slot() as int].weak,
                },
            ),
    {
        store.decr_strong(self.ptr.slot_index());
    }

    /// The raw identity of this pointer's allocation: its slot number.
    pub fn as_ptr(&self) -> (a: usize)
        ensures
            a == self.slot(),
    {
        self.ptr.slot_index()
    }
}

} // verus!
