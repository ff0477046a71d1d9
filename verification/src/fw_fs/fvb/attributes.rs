//! Attributes of a firmware volume block, as found in the volume header.

use vstd::prelude::*;

pub mod raw;

verus! {

/// The attribute word of a firmware volume header.
pub type EfiFvbAttributes2 = u32;

} // verus!
