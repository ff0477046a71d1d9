//! Bits of the firmware volume protocol's attribute word.

use vstd::prelude::*;

verus! {

pub const READ_DISABLE_CAP: u64 = 0x0000_0000_0000_0001;

pub const READ_ENABLE_CAP: u64 = 0x0000_0000_0000_0002;

pub const READ_STATUS: u64 = 0x0000_0000_0000_0004;

pub const WRITE_DISABLE_CAP: u64 = 0x0000_0000_0000_0008;

pub const WRITE_ENABLE_CAP: u64 = 0x0000_0000_0000_0010;

pub const WRITE_STATUS: u64 = 0x0000_0000_0000_0020;

pub const LOCK_CAP: u64 = 0x0000_0000_0000_0040;

pub const LOCK_STATUS: u64 = 0x0000_0000_0000_0080;

pub const WRITE_POLICY_RELIABLE: u64 = 0x0000_0000_0000_0100;

pub const READ_LOCK_CAP: u64 = 0x0000_0000_0000_1000;

pub const READ_LOCK_STATUS: u64 = 0x0000_0000_0000_2000;

pub const WRITE_LOCK_CAP: u64 = 0x0000_0000_0000_4000;

pub const WRITE_LOCK_STATUS: u64 = 0x0000_0000_0000_8000;

pub const ALIGNMENT: u64 = 0x0000_0000_001F_0000;

} // verus!
