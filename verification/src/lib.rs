//! Parsing of UEFI Platform Initialization firmware images.
//!
//! A firmware volume is a byte buffer holding a header, a block map and a list
//! of files; a file holds a list of sections, and an encapsulation section can
//! be unpacked into further sections. Every view handed out by this crate has
//! been validated against the buffer it points into, and the contracts state
//! each result as a function of the bytes.

pub mod address_helper;
pub mod boot_mode;
pub mod efi;
pub mod fw_fs;
pub mod serializable;

pub use boot_mode::Mode as BootMode;
