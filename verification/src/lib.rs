//! Verified core of a crate-downloading pipeline: package-spec parsing,
//! version resolution against a registry snapshot, cache probing, integrity
//! verification, and path-safe archive extraction planning.

pub mod cache;
pub mod crate_name;
pub mod integrity;
pub mod package_id_spec;
pub mod pipeline;
pub mod resolve;
pub mod unpack;
pub mod versions;
