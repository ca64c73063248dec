//! Hostname canonicalization and DNS configuration planning for a
//! ZeroTier-backed name server.
pub mod config;
pub mod dns_name;
pub mod domain;
pub mod error;
pub mod hostname;
pub mod sync;
pub mod text;
