//! Mirror model of a DNS message, with verified field-by-field translation
//! to and from the canonical model of the hickory-proto library.

pub mod canonical;
pub mod codes;
pub mod mirror;
pub mod wire;
