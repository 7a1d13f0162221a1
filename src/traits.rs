use vstd::prelude::*;

verus! {

/// Types that a handle can point at.
///
/// Every type with a `Debug` representation qualifies, so that diagnostics
/// can always show the referent.
pub trait Pointee: std::fmt::Debug {}

impl<T: std::fmt::Debug> Pointee for T {}

} // verus!
