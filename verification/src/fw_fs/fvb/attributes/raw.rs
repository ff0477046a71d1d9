//! Raw bit values of the attribute words.

pub mod fvb2;
