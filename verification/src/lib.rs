//! Verified core of a User-Managed Access (UMA) 2.0 protection API:
//! decentralized access-token verification, resource registration,
//! permission-ticket issuance and token introspection over a verified
//! key-value store abstraction.

pub mod discovery;
pub mod errors;
pub mod federation;
pub mod grants;
pub mod ids;
pub mod introspection;
pub mod oidc;
pub mod permission;
pub mod registration;
pub mod request;
pub mod storage;
