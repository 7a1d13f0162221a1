//! Reference-counted owning handles over an explicit memory arena.
//!
//! Every allocation lives in a [`Heap`], addressed by a positive integer;
//! address `0` is the null address. Handles ([`UniquePointer`],
//! [`SmartPointer`]) are small values that name an address together with
//! their own bookkeeping flags, and every operation that touches memory takes
//! the heap explicitly. Shared reference counts live in [`Counters`] cells
//! reached through [`RefCounter`] handles, so that every copy of a counter
//! handle observes one mutable integer.
pub mod traits;
pub mod refcounter;
pub mod memory;
pub mod unique_pointer;
pub mod smart_pointer;

pub use traits::Pointee;
pub use refcounter::{Counters, RefCounter};
pub use memory::{Heap, HeapModel, PointerError};
pub use unique_pointer::{OwnerModel, UniquePointer};
pub use smart_pointer::{AliasModel, SmartPointer};

