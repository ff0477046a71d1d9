//! Raw values of the type and state bytes of a file header.

pub mod file_type;
pub mod state;
