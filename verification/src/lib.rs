//! Canonical packing, ABI encoding and digest pipeline for smart-contract
//! module audit records.
//!
//! The crate turns a typed description of a module's security attributes
//! (global safety flags, per-module-type classifications, external-dependency
//! flags) into a byte-exact, versioned binary record whose Keccak-256 digest
//! is what gets cryptographically signed.  Bit-layout stability, round-trip
//! correctness and digest determinism are proved.

pub mod abi;
pub mod digest;
pub mod hexstr;
pub mod laws;
pub mod pack;
pub mod paths;
pub mod record;
pub mod types;
