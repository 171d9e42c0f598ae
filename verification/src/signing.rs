//! Signing policy and the signing pass.

pub mod context;
pub mod signer;
pub mod signer_settings;
