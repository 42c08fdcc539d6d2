//! The weak-pointer capability: one implementation per counting strategy,
//! mirroring [`crate::shared_pointer::kind`].
//!
//! A weak handle either names the slot of a counted box, or is the fresh
//! empty handle, which dangles and can never be upgraded.

use vstd::prelude::*;

verus! {

use crate::shared_pointer::kind::SharedPointerKind;

/// A way to weak-reference an erased value: each implementation carries
/// either the slot number of one strategy-native counted box, or nothing.
pub trait WeakPointerKind: Sized {
    /// The strong-pointer strategy this kind upgrades into.
    type SharedPtr: SharedPointerKind;

    /// The slot this handle refers to; `None` for the empty handle.
    spec fn target(&self) -> Option<usize>;

    /// The empty handle: it never held a value and never upgrades.
    fn new() -> (s: Self)
        ensures
            s.target() is None,
    ;

    /// A handle to the counted box in slot `slot`.
    fn new_from_slot(slot: usize) -> (s: Self)
        ensures
            s.target() == Some(slot),
    ;

    /// Reads the handle back.
    fn target_slot(&self) -> (t: Option<usize>)
        ensures
            t == self.target(),
    ;
}

/// The single-threaded, non-atomic counting strategy for weak pointers.
pub struct WeakRcK {
    target: Option<usize>,
}

/// The thread-safe, atomic counting strategy for weak pointers.
pub struct WeakArcK {
    target: Option<usize>,
}

impl WeakPointerKind for WeakRcK {
    type SharedPtr = crate::shared_pointer::kind::RcK;

    closed spec fn target(&self) -> Option<usize> {
        self.target
    }

    fn new() -> (s: Self) {
        WeakRcK { target: None }
    }

    fn new_from_slot(slot: usize) -> (s: Self) {
        WeakRcK { target: Some(slot) }
    }

    fn target_slot(&self) -> (t: Option<usize>) {
        self.target
    }
}

impl WeakPointerKind for WeakArcK {
    type SharedPtr = crate::shared_pointer::kind::ArcK;

    closed spec fn target(&self) -> Option<usize> {
        self.target
    }

    fn new() -> (s: Self) {
        WeakArcK { target: None }
    }

    fn new_from_slot(slot: usize) -> (s: Self) {
        WeakArcK { target: Some(slot) }
    }

    fn target_slot(&self) -> (t: Option<usize>) {
        self.target
    }
}

} // verus!
