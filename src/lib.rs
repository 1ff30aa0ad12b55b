//! A registry of WebAssembly modules, keyed by a hash of their bytes: loading,
//! calling exported functions with host integers, and listing what is loaded.

pub mod engine;
pub mod fibonacci;
pub mod introspect;
pub mod invoke;
pub mod marshal;
pub mod registry;
