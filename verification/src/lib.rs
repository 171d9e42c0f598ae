//! Identity and entitlements resolution for re-signing iOS application
//! bundles: loading a signing identity from PEM material, reading the
//! entitlements a binary or a provisioning profile already carries, and
//! planning the signing pass over a bundle's nested binaries.

pub mod bytes;
pub mod certificate;
pub mod der;
pub mod errors;
pub mod i18n;
pub mod macho;
pub mod outline;
pub mod provision;
pub mod signing;
pub mod text;
