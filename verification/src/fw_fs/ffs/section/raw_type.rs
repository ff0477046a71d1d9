//! Values of the type byte of a section header.

use vstd::prelude::*;

pub mod encapsulated;

verus! {

pub const ALL: u8 = 0x00;

pub const PE32: u8 = 0x10;

pub const PIC: u8 = 0x11;

pub const TE: u8 = 0x12;

pub const DXE_DEPEX: u8 = 0x13;

pub const VERSION: u8 = 0x14;

pub const USER_INTERFACE: u8 = 0x15;

pub const COMPATIBILITY16: u8 = 0x16;

pub const FIRMWARE_VOLUME_IMAGE: u8 = 0x17;

pub const FREEFORM_SUBTYPE_GUID: u8 = 0x18;

pub const RAW: u8 = 0x19;

pub const PEI_DEPEX: u8 = 0x1B;

pub const MM_DEPEX: u8 = 0x1C;

} // verus!
