//! Bits of the file attribute word.

use vstd::prelude::*;

verus! {

/// The field that holds the base-two logarithm of the data alignment.
pub const ALIGNMENT: u32 = 0x0000_001F;

/// The file must stay at its position in the volume.
pub const FIXED: u32 = 0x0000_0100;

pub const MEMORY_MAPPED: u32 = 0x0000_0200;

} // verus!
