//! Attributes of a firmware volume as reported by the volume protocol.

use vstd::prelude::*;

pub mod raw;

verus! {

/// The attribute word of the firmware volume protocol.
pub type EfiFvAttributes = u64;

} // verus!
