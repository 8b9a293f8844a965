//! Offline materialization of a Cargo-style dependency cache from a CycloneDX
//! software bill of materials.
//!
//! The crate rebuilds, from SBOM metadata alone, the on-disk layout that the
//! toolchain would have produced by network fetches: the registry archive
//! cache, extracted sources, the binary index cache, and bare-plus-checkout
//! git directories.  Filesystem and subprocess work is described as explicit
//! actions; the decision logic that sequences those actions is verified here,
//! while a thin unverified driver performs them.

pub mod actions;
pub mod container;
pub mod crypto;
pub mod errors;
pub mod gitdep;
pub mod index_cache;
pub mod index_path;
pub mod layout;
pub mod orchestrator;
pub mod registry;
pub mod sbom;
pub mod siphash;
pub mod suffix;
