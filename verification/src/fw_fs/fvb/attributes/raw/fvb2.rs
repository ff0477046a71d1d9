//! Bits of the volume header's attribute word.

use vstd::prelude::*;

verus! {

pub const READ_DISABLED_CAP: u32 = 0x0000_0001;

pub const READ_ENABLED_CAP: u32 = 0x0000_0002;

pub const READ_STATUS: u32 = 0x0000_0004;

pub const WRITE_DISABLED_CAP: u32 = 0x0000_0008;

pub const WRITE_ENABLED_CAP: u32 = 0x0000_0010;

pub const WRITE_STATUS: u32 = 0x0000_0020;

pub const LOCK_CAP: u32 = 0x0000_0040;

pub const LOCK_STATUS: u32 = 0x0000_0080;

pub const STICKY_WRITE: u32 = 0x0000_0200;

pub const MEMORY_MAPPED: u32 = 0x0000_0400;

/// Set when an erased byte reads as `0xFF`, clear when it reads as `0x00`.
pub const ERASE_POLARITY: u32 = 0x0000_0800;

pub const READ_LOCK_CAP: u32 = 0x0000_1000;

pub const READ_LOCK_STATUS: u32 = 0x0000_2000;

pub const WRITE_LOCK_CAP: u32 = 0x0000_4000;

pub const WRITE_LOCK_STATUS: u32 = 0x0000_8000;

pub const ALIGNMENT: u32 = 0x001F_0000;

pub const WEAK_ALIGNMENT: u32 = 0x8000_0000;

} // verus!
