//! Bookkeeping for backward-compatibility fixtures of a homomorphic-encryption
//! library: where fixtures live, what each one describes, and how the
//! manifest that lists them is assembled and read back.

pub mod paths;
pub mod format;
pub mod outcome;
pub mod params;
pub mod metadata;
pub mod manifest;
pub mod compat;
pub mod versions;
