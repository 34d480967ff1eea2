//! A read-only registry of physical constants: validated records, lookup by a
//! normalized name, enumeration in dataset order, and a plain-text rendering.

pub mod constant;
pub mod normalize;
pub mod registry;
pub mod presentation;
pub mod laws;
