//! GUIDs that name the file system of a firmware volume.

use crate::efi::Guid;
use vstd::prelude::*;

verus! {

/// The bytes of the GUID that names the file system whose files are at most
/// 16 MiB long.
pub const EFI_FIRMWARE_FILE_SYSTEM2_GUID_BYTES: [u8; 16] = [
    0x78, 0xe5, 0x8c, 0x8c, 0x3d, 0x8a, 0x1c, 0x4f, 0x99, 0x35, 0x89, 0x61, 0x85, 0xc3, 0x2d, 0xd3,
];

/// The bytes of the GUID that names the file system that also admits files
/// with a 64-bit size.
pub const EFI_FIRMWARE_FILE_SYSTEM3_GUID_BYTES: [u8; 16] = [
    0x7a, 0xc0, 0x73, 0x54, 0xcb, 0x3d, 0xca, 0x4d, 0xbd, 0x6f, 0x1e, 0x96, 0x89, 0xe7, 0x34, 0x9a,
];

/// The GUID `8c8ce578-8a3d-4f1c-9935-896185c32dd3`.
pub fn efi_firmware_file_system2_guid() -> (guid: Guid)
    ensures
        guid@ == EFI_FIRMWARE_FILE_SYSTEM2_GUID_BYTES@,
{
    Guid::from_bytes(&EFI_FIRMWARE_FILE_SYSTEM2_GUID_BYTES)
}

/// The GUID `5473c07a-3dcb-4dca-bd6f-1e9689e7349a`.
pub fn efi_firmware_file_system3_guid() -> (guid: Guid)
    ensures
        guid@ == EFI_FIRMWARE_FILE_SYSTEM3_GUID_BYTES@,
{
    Guid::from_bytes(&EFI_FIRMWARE_FILE_SYSTEM3_GUID_BYTES)
}

} // verus!
