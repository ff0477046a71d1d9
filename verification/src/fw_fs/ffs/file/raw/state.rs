//! Bits of the state byte of a file header.

use vstd::prelude::*;

verus! {

pub const HEADER_CONSTRUCTION: u8 = 0x01;

pub const HEADER_VALID: u8 = 0x02;

pub const DATA_VALID: u8 = 0x04;

pub const MARKED_FOR_UPDATE: u8 = 0x08;

pub const DELETED: u8 = 0x10;

pub const HEADER_INVALID: u8 = 0x20;

} // verus!
