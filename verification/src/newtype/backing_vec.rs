use vstd::prelude::*;

verus! {

/// Marker that closes [`BackingVec`](super::BackingVec) to types outside this crate.
pub trait Sealed {

}

} // verus!
