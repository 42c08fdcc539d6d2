//! The arena of counted boxes.
//!
//! Every allocation managed by this crate lives in one slot of a [`Store`]:
//! the payload together with its strong and weak reference counts.  The
//! pointer types only carry slot numbers and route every operation through
//! the store, which is where the counting rules are enforced and proved.

use vstd::prelude::*;

verus! {

/// The mathematical state of one slot: the payload, present exactly while
/// strong references remain, and the two reference counts.
pub ghost struct SlotModel<T> {
    pub value: Option<T>,
    pub strong: nat,
    pub weak: nat,
}

/// The allocation identity that every `ptr_eq` compares: a handle either
/// names a slot or dangles (`None`, the empty weak handle), and two handles
/// denote the same allocation exactly when these agree.
pub open spec fn same_allocation(a: Option<usize>, b: Option<usize>) -> bool {
    a == b
}

/// Pointer identity is reflexive: every pointer shares its allocation with
/// itself.
pub proof fn lemma_same_allocation_reflexive(a: Option<usize>)
    ensures
        same_allocation(a, a),
{
}

/// Pointer identity is symmetric: `ptr_eq` answers the same in either order.
pub proof fn lemma_same_allocation_symmetric(a: Option<usize>, b: Option<usize>)
    ensures
        same_allocation(a, b) == same_allocation(b, a),
{
}

/// Pointer identity is transitive, so `ptr_eq` partitions the pointers over
/// one store by allocation.
pub proof fn lemma_same_allocation_transitive(a: Option<usize>, b: Option<usize>, c: Option<usize>)
    requires
        same_allocation(a, b),
        same_allocation(b, c),
    ensures
        same_allocation(a, c),
{
}

struct Slot<T> {
    value: Option<T>,
    strong: usize,
    weak: usize,
}

/// An arena of reference-counted slots.  A slot is allocated with strong
/// count 1; clones and downgrades move the counts up and down, and when the
/// last strong reference goes the payload is destroyed in place, exactly
/// once.  Slot numbers are never reused, so a slot number identifies one
/// allocation for the whole life of the store.
pub struct Store<T> {
    slots: Vec<Slot<T>>,
}

impl<T> View for Store<T> {
    type V = Seq<SlotModel<T>>;

    closed spec fn view(&self) -> Seq<SlotModel<T>> {
        Seq::new(
            self.slots@.len(),
            |i: int| SlotModel {
                value: self.slots@[i].value,
                strong: self.slots@[i].strong as nat,
                weak: self.slots@[i].weak as nat,
            },
        )
    }
}

impl<T> Store<T> {
    /// A slot's payload is present exactly while strong references remain.
    pub open spec fn wf(self) -> bool {
        forall|i: int|
            0 <= i < self@.len() ==> ((#[trigger] self@[i]).strong > 0 <==> self@[i].value is Some)
    }

    /// A store with no allocations yet.
    pub fn new() -> (s: Store<T>)
        ensures
            s@ == Seq::<SlotModel<T>>::empty(),
            s.wf(),
    {
        let s = Store { slots: Vec::new() };
        proof {
            assert(s@ =~= Seq::<SlotModel<T>>::empty());
        }
        s
    }

    /// Allocates a fresh counted box holding `value`: strong count 1, weak
    /// count 0.  Returns the new box's slot number.
    pub fn allocate(&mut self, value: T) -> (idx: usize)
        requires
            old(self).wf(),
            old(self)@.len() < usize::MAX,
        ensures
            idx == old(self)@.len(),
            final(self)@ == old(self)@.push(
                SlotModel { value: Some(value), strong: 1nat, weak: 0nat },
            ),
            final(self).wf(),
    {
        let idx = self.slots.len();
        self.slots.push(Slot { value: Some(value), strong: 1, weak: 0 });
        proof {
            assert(self@ =~= old(self)@.push(
                SlotModel { value: Some(value), strong: 1nat, weak: 0nat },
            ));
        }
        idx
    }

    /// Reads the strong count of a slot.
    pub fn strong_count(&self, idx: usize) -> (n: usize)
        requires
            idx < self@.len(),
        ensures
            n == self@[idx as int].strong,
    {
        self.slots[idx].strong
    }

    /// Reads the weak count of a slot.
    pub fn weak_count(&self, idx: usize) -> (n: usize)
        requires
            idx < self@.len(),
        ensures
            n == self@[idx as int].weak,
    {
        self.slots[idx].weak
    }

    /// Borrows the payload of a live slot.
    pub fn value(&self, idx: usize) -> (r: &T)
        requires
            self.wf(),
            idx < self@.len(),
            self@[idx as int].strong > 0,
        ensures
            self@[idx as int].value == Some(*r),
    {
        match &self.slots[idx].value {
            Some(v) => v,
            None => vstd::pervasive::unreached(),
        }
    }

    /// One more strong reference to a live slot.
    pub fn incr_strong(&mut self, idx: usize)
        requires
            old(self).wf(),
            idx < old(self)@.len(),
            old(self)@[idx as int].strong > 0,
            old(self)@[idx as int].strong < usize::MAX,
        ensures
            final(self)@ == old(self)@.update(
                idx as int,
                SlotModel {
                    strong: old(self)@[idx as int].strong + 1,
                    ..old(self)@[idx as int]
                },
            ),
            final(self).wf(),
    {
        self.slots[idx].strong = self.slots[idx].strong + 1;
        proof {
            assert(self@ =~= old(self)@.update(
                idx as int,
                SlotModel {
                    strong: old(self)@[idx as int].strong + 1,
                    ..old(self)@[idx as int]
                },
            ));
        }
    }

    /// One strong reference gone.  When it was the last one the payload is
    /// destroyed in place — its destructor runs here, exactly once, and the
    /// slot can never hold it again.
    pub fn decr_strong(&mut self, idx: usize)
        requires
            old(self).wf(),
            idx < old(self)@.len(),
            old(self)@[idx as int].strong > 0,
        ensures
            final(self)@ == old(self)@.update(
                idx as int,
                SlotModel {
                    value: if old(self)@[idx as int].strong == 1 {
                        None
                    } else {
                        old(self)@[idx as int].value
                    },
                    strong: (old(self)@[idx as int].strong - 1) as nat,
                    weak: old(self)@[idx as int].weak,
                },
            ),
            final(self).wf(),
    {
        let s = self.slots[idx].strong;
        if s == 1 {
            self.slots[idx].value = None;
        }
        self.slots[idx].strong = s - 1;
        proof {
            assert(self@ =~= old(self)@.update(
                idx as int,
                SlotModel {
                    value: if old(self)@[idx as int].strong == 1 {
                        None
                    } else {
                        old(self)@[idx as int].value
                    },
                    strong: (old(self)@[idx as int].strong - 1) as nat,
                    weak: old(self)@[idx as int].weak,
                },
            ));
        }
    }

    /// One more weak reference to a slot.
    pub fn incr_weak(&mut self, idx: usize)
        requires
            old(self).wf(),
            idx < old(self)@.len(),
            old(self)@[idx as int].weak < usize::MAX,
        ensures
            final(self)@ == old(self)@.update(
                idx as int,
                SlotModel { weak: old(self)@[idx as int].weak + 1, ..old(self)@[idx as int] },
            ),
            final(self).wf(),
    {
        self.slots[idx].weak = self.slots[idx].weak + 1;
        proof {
            assert(self@ =~= old(self)@.update(
                idx as int,
                SlotModel { weak: old(self)@[idx as int].weak + 1, ..old(self)@[idx as int] },
            ));
        }
    }

    /// One weak reference gone.
    pub fn decr_weak(&mut self, idx: usize)
        requires
            old(self).wf(),
            idx < old(self)@.len(),
            old(self)@[idx as int].weak > 0,
        ensures
            final(self)@ == old(self)@.update(
                idx as int,
                SlotModel {
                    weak: (old(self)@[idx as int].weak - 1) as nat,
                    ..old(self)@[idx as int]
                },
            ),
            final(self).wf(),
    {
        self.slots[idx].weak = self.slots[idx].weak - 1;
        proof {
            assert(self@ =~= old(self)@.update(
                idx as int,
                SlotModel {
                    weak: (old(self)@[idx as int].weak - 1) as nat,
                    ..old(self)@[idx as int]
                },
            ));
        }
    }

    /// The check-and-increment behind `upgrade`: succeeds, taking one more
    /// strong reference, exactly when strong references remain.  The check
    /// and the increment happen under one `&mut` borrow, so no release can
    /// come between them.
    pub fn try_upgrade(&mut self, idx: usize) -> (ok: bool)
        requires
            old(self).wf(),
            idx < old(self)@.len(),
            old(self)@[idx as int].strong < usize::MAX,
        ensures
            ok <==> old(self)@[idx as int].strong > 0,
            ok ==> final(self)@ == old(self)@.update(
                idx as int,
                SlotModel {
                    strong: old(self)@[idx as int].strong + 1,
                    ..old(self)@[idx as int]
                },
            ),
            !ok ==> *final(self) == *old(self),
            final(self).wf(),
    {
        let s = self.slots[idx].strong;
        if s > 0 {
            self.slots[idx].strong = s + 1;
            proof {
                assert(self@ =~= old(self)@.update(
                    idx as int,
                    SlotModel {
                        strong: old(self)@[idx as int].strong + 1,
                        ..old(self)@[idx as int]
                    },
                ));
            }
            true
        } else {
            false
        }
    }

    /// The move behind `try_unwrap`: hands the payload out, leaving the slot
    /// released, exactly when the caller's reference is the only one —
    /// strong count 1 and weak count 0.  Otherwise nothing changes.
    pub fn take_if_unique(&mut self, idx: usize) -> (r: Option<T>)
        requires
            old(self).wf(),
            idx < old(self)@.len(),
            old(self)@[idx as int].strong > 0,
        ensures
            r is Some <==> (old(self)@[idx as int].strong == 1 && old(self)@[idx as int].weak
                == 0),
            r is Some ==> old(self)@[idx as int].value == r,
            r is Some ==> final(self)@ == old(self)@.update(
                idx as int,
                SlotModel { value: None, strong: 0nat, weak: 0nat },
            ),
            r is None ==> *final(self) == *old(self),
            final(self).wf(),
    {
        let strong = self.slots[idx].strong;
        let weak = self.slots[idx].weak;
        if strong == 1 && weak == 0 {
            let taken = self.slots[idx].value.take();
            self.slots[idx].strong = 0;
            proof {
                assert(self@ =~= old(self)@.update(
                    idx as int,
                    SlotModel { value: None, strong: 0nat, weak: 0nat },
                ));
            }
            taken
        } else {
            None
        }
    }

    /// The view behind `get_mut`: a mutable borrow of the payload, handed
    /// out exactly when the caller's reference is the only one — strong
    /// count 1 and weak count 0.
    pub fn get_mut(&mut self, idx: usize) -> (r: Option<&mut T>)
        requires
            old(self).wf(),
            idx < old(self)@.len(),
            old(self)@[idx as int].strong > 0,
        ensures
            r is Some <==> (old(self)@[idx as int].strong == 1 && old(self)@[idx as int].weak
                == 0),
            match r {
                Some(m) => {
                    &&& old(self)@[idx as int].value == Some(*m)
                    &&& final(self)@ =~= old(self)@.update(
                        idx as int,
                        SlotModel { value: Some(*final(m)), ..old(self)@[idx as int] },
                    )
                },
                None => *final(self) == *old(self),
            },
            final(self).wf(),
    {
        let strong = self.slots[idx].strong;
        let weak = self.slots[idx].weak;
        if strong == 1 && weak == 0 {
            match &mut self.slots[idx].value {
                Some(m) => Some(m),
                None => vstd::pervasive::unreached(),
            }
        } else {
            None
        }
    }
}

} // verus!
