//! Attributes of a file, as found in the file header.

pub mod raw;
