//! File types and the fixed sizes of a file header.

use crate::fw_fs::ffs::file::raw::file_type as raw_type;
use vstd::prelude::*;

pub mod raw;

verus! {

/// Length of the standard file header.
pub const HEADER_SIZE: usize = 24;

/// Length of the extended file header, which ends with a 64-bit size.
pub const HEADER2_SIZE: usize = 32;

/// What a file holds, as its type byte tells.
#[derive(Debug, Copy, Clone, PartialEq, Eq, Structural)]
pub enum Type {
    All,
    Raw,
    FreeForm,
    SecurityCore,
    PeiCore,
    DxeCore,
    Peim,
    Driver,
    CombinedPeimDriver,
    Application,
    Mm,
    FirmwareVolumeImage,
    CombinedMmDxe,
    MmCore,
    MmStandalone,
    MmCoreStandalone,
    OemMin,
    OemMax,
    DebugMin,
    DebugMax,
    FfsPad,
    FfsUnknown,
    FfsMax,
}

/// The type that a type byte stands for. Every byte of the OEM range maps
/// to `OemMin`, every byte of the debug range to `DebugMin`; the pad byte
/// maps to `FfsPad` and the rest of the file system's own range to
/// `FfsUnknown`. The byte zero and the bytes between the named types and
/// the OEM range stand for no type.
pub open spec fn type_of_raw(raw: u8) -> Option<Type> {
    if raw == raw_type::RAW {
        Some(Type::Raw)
    } else if raw == raw_type::FREEFORM {
        Some(Type::FreeForm)
    } else if raw == raw_type::SECURITY_CORE {
        Some(Type::SecurityCore)
    } else if raw == raw_type::PEI_CORE {
        Some(Type::PeiCore)
    } else if raw == raw_type::DXE_CORE {
        Some(Type::DxeCore)
    } else if raw == raw_type::PEIM {
        Some(Type::Peim)
    } else if raw == raw_type::DRIVER {
        Some(Type::Driver)
    } else if raw == raw_type::COMBINED_PEIM_DRIVER {
        Some(Type::CombinedPeimDriver)
    } else if raw == raw_type::APPLICATION {
        Some(Type::Application)
    } else if raw == raw_type::MM {
        Some(Type::Mm)
    } else if raw == raw_type::FIRMWARE_VOLUME_IMAGE {
        Some(Type::FirmwareVolumeImage)
    } else if raw == raw_type::COMBINED_MM_DXE {
        Some(Type::CombinedMmDxe)
    } else if raw == raw_type::MM_CORE {
        Some(Type::MmCore)
    } else if raw == raw_type::MM_STANDALONE {
        Some(Type::MmStandalone)
    } else if raw == raw_type::MM_CORE_STANDALONE {
        Some(Type::MmCoreStandalone)
    } else if raw_type::OEM_MIN <= raw <= raw_type::OEM_MAX {
        Some(Type::OemMin)
    } else if raw_type::DEBUG_MIN <= raw <= raw_type::DEBUG_MAX {
        Some(Type::DebugMin)
    } else if raw == raw_type::FFS_PAD {
        Some(Type::FfsPad)
    } else if raw_type::FFS_MIN <= raw <= raw_type::FFS_MAX {
        Some(Type::FfsUnknown)
    } else {
        None
    }
}

} // verus!
