//! The strong-pointer capability: one implementation per counting strategy.
//!
//! A kind value is the erased handle of one strategy-native counted box.
//! Here a handle is the box's slot number in its [`crate::store::Store`], so
//! erasure needs no reinterpretation of memory: the slot number never
//! depends on the element type.  The two strategies count identically; they
//! differ only in their threading discipline, which lies outside this model.

use vstd::prelude::*;

verus! {

/// A way to strong-reference-count a value: each implementation carries the
/// erased handle — the slot number — of one strategy-native counted box.
pub trait SharedPointerKind: Sized {
    /// The weak-pointer strategy this kind downgrades into.  (Each concrete
    /// strategy's weak kind implements [`WeakPointerKind`]; stating that
    /// bound here would close a cycle between the two capability traits, so
    /// it is required where downgrading happens instead.)
    type WeakPtr;

    /// The slot of the counted box this handle refers to.
    spec fn slot(&self) -> usize;

    /// A handle to the counted box in slot `slot`.
    fn new_from_slot(slot: usize) -> (s: Self)
        ensures
            s.slot() == slot,
    ;

    /// Reads the handle back.
    fn slot_index(&self) -> (i: usize)
        ensures
            i == self.slot(),
    ;
}

/// The single-threaded, non-atomic counting strategy for strong pointers.
pub struct RcK {
    slot: usize,
}

/// The thread-safe, atomic counting strategy for strong pointers.
pub struct ArcK {
    slot: usize,
}

impl SharedPointerKind for RcK {
    type WeakPtr = crate::weak_pointer::kind::WeakRcK;

    closed spec fn slot(&self) -> usize {
        self.slot
    }

    fn new_from_slot(slot: usize) -> (s: Self) {
        RcK { slot }
    }

    fn slot_index(&self) -> (i: usize) {
        self.slot
    }
}

impl SharedPointerKind for ArcK {
    type WeakPtr = crate::weak_pointer::kind::WeakArcK;

    closed spec fn slot(&self) -> usize {
        self.slot
    }

    fn new_from_slot(slot: usize) -> (s: Self) {
        ArcK { slot }
    }

    fn slot_index(&self) -> (i: usize) {
        self.slot
    }
}

} // verus!
