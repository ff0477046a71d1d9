//! Firmware volume block definitions.

pub mod attributes;
