//! Raw values of the file attribute word.

pub mod attribute;
