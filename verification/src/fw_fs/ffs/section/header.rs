//! The headers of a section: the common header in its two forms, and the
//! typed blocks that follow it for some section types.

use crate::efi::Guid;
use vstd::prelude::*;

verus! {

/// Length of the common header with a 24-bit size.
pub const COMMON_HEADER_STANDARD_SIZE: usize = 4;

/// Length of the common header with a 32-bit size behind the type byte.
pub const COMMON_HEADER_EXTENDED_SIZE: usize = 8;

/// Length of the block that follows the common header of a compressed
/// section.
pub const COMPRESSION_SIZE: usize = 5;

/// Length of the block that follows the common header of a GUID-defined
/// section.
pub const GUID_DEFINED_SIZE: usize = 20;

/// Length of the block that follows the common header of a version section.
pub const VERSION_SIZE: usize = 2;

/// Length of the block that follows the common header of a free-form
/// section.
pub const FREEFORM_SUBTYPE_GUID_SIZE: usize = 16;

/// What follows the common header of a compressed section.
#[derive(Debug, Clone, Copy, PartialEq, Eq, Structural)]
pub struct Compression {
    pub uncompressed_length: u32,
    pub compression_type: u8,
}

/// What follows the common header of a GUID-defined section. The data
/// offset counts from the first byte of the section.
#[derive(Debug, Clone, Copy)]
pub struct GuidDefined {
    pub section_definition_guid: Guid,
    pub data_offset: u16,
    pub attributes: u16,
}

/// What follows the common header of a version section; the version string
/// is the section's content.
#[derive(Debug, Clone, Copy, PartialEq, Eq, Structural)]
pub struct Version {
    pub build_number: u16,
}

/// What follows the common header of a free-form section.
#[derive(Debug, Clone, Copy)]
pub struct FreeformSubtypeGuid {
    pub sub_type_guid: Guid,
}

} // verus!
