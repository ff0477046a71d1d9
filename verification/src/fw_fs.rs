//! Firmware storage: volumes, files and sections.

pub mod bytes;
pub mod ffs;
pub mod fv;
pub mod fvb;

pub use fv::FirmwareVolume;
