//! Attributes of a file as reported by the firmware volume protocol.

use vstd::prelude::*;

pub mod raw;

verus! {

/// The attribute word that the volume protocol reports for a file.
pub type EfiFvFileAttributes = u32;

} // verus!
