//! Reference-counted pointers that are polymorphic over the counting strategy.
//!
//! Generic code is written once against the shared / weak capability traits
//! and instantiated later with a concrete strategy.  The counted boxes
//! themselves live in an explicit, verified [`Store`] arena; a pointer's
//! erased handle is the slot of its box, so no unchecked reinterpretation of
//! memory is ever needed and every counting rule is proved.

pub mod shared_pointer;
pub mod store;
pub mod weak_pointer;

pub use crate::shared_pointer::SharedPointer;
pub use crate::shared_pointer::kind::ArcK;
pub use crate::shared_pointer::kind::RcK;
pub use crate::shared_pointer::kind::SharedPointerKind;
pub use crate::store::SlotModel;
pub use crate::store::Store;
pub use crate::store::same_allocation;
pub use crate::weak_pointer::WeakPointer;
pub use crate::weak_pointer::kind::WeakArcK;
pub use crate::weak_pointer::kind::WeakPointerKind;
pub use crate::weak_pointer::kind::WeakRcK;
