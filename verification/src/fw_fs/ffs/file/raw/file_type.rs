//! Values of the type byte of a file header.

use vstd::prelude::*;

verus! {

pub const ALL: u8 = 0x00;

pub const RAW: u8 = 0x01;

pub const FREEFORM: u8 = 0x02;

pub const SECURITY_CORE: u8 = 0x03;

pub const PEI_CORE: u8 = 0x04;

pub const DXE_CORE: u8 = 0x05;

pub const PEIM: u8 = 0x06;

pub const DRIVER: u8 = 0x07;

pub const COMBINED_PEIM_DRIVER: u8 = 0x08;

pub const APPLICATION: u8 = 0x09;

pub const MM: u8 = 0x0A;

pub const FIRMWARE_VOLUME_IMAGE: u8 = 0x0B;

pub const COMBINED_MM_DXE: u8 = 0x0C;

pub const MM_CORE: u8 = 0x0D;

pub const MM_STANDALONE: u8 = 0x0E;

pub const MM_CORE_STANDALONE: u8 = 0x0F;

pub const OEM_MIN: u8 = 0xC0;

pub const OEM_MAX: u8 = 0xDF;

pub const DEBUG_MIN: u8 = 0xE0;

pub const DEBUG_MAX: u8 = 0xEF;

pub const FFS_MIN: u8 = 0xF0;

pub const FFS_MAX: u8 = 0xFF;

pub const FFS_PAD: u8 = 0xF0;

} // verus!
