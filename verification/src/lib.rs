//! A registry of metadata records ("metalogs") keyed by decentralized
//! identifiers (DIDs), with ownership, transfer, unique names bought for a
//! fee, license codes and storage locations.
pub mod store;
pub mod types;
pub mod spec;
pub mod module;
pub mod laws;
pub mod consistency;
