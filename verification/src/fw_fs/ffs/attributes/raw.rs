//! Bits of the attribute byte of a file header.

use vstd::prelude::*;

verus! {

/// The header is the extended one, with a 64-bit size.
pub const LARGE_FILE: u8 = 0x01;

/// Selects the upper half of the alignment table.
pub const DATA_ALIGNMENT_2: u8 = 0x02;

/// The file must stay at its position in the volume.
pub const FIXED: u8 = 0x04;

/// The three-bit alignment code.
pub const DATA_ALIGNMENT: u8 = 0x38;

pub const CHECKSUM: u8 = 0x40;

} // verus!
