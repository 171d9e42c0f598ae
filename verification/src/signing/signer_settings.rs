//! The policy a signing session is run under.

use vstd::prelude::*;

verus! {

/// How nested app extensions obtain their provisioning material.
#[derive(Debug, Clone, Copy, PartialEq, Eq, Structural)]
pub enum SignerMode {
    /// Every nested bundle is signed with entitlements and a profile of its own.
    Default,
    /// Nested app extensions reuse the main application's profile and
    /// entitlements unchanged.
    Zsign,
}

/// What a signing session is asked to do.
#[derive(Debug, Clone)]
pub struct SignerSettings {
    /// Sign only the outermost bundle and take nested content as already signed.
    pub sign_shallow: bool,
    pub sign_mode: SignerMode,
    pub custom_name: Option<String>,
    pub custom_identifier: Option<String>,
    pub custom_version: Option<String>,
    pub custom_build_version: Option<String>,
    pub support_file_sharing: Option<bool>,
    pub support_older_versions: Option<bool>,
    pub support_more_devices: Option<bool>,
}

impl SignerSettings {
    /// No override is set, nested content is signed too, and every nested
    /// bundle gets provisioning material of its own.
    pub open spec fn is_default(&self) -> bool {
        &&& !self.sign_shallow
        &&& self.sign_mode == SignerMode::Default
        &&& self.custom_name is None
        &&& self.custom_identifier is None
        &&& self.custom_version is None
        &&& self.custom_build_version is None
        &&& self.support_file_sharing is None
        &&& self.support_older_versions is None
        &&& self.support_more_devices is None
    }
}

impl Default for SignerSettings {
    fn default() -> (r: Self)
        ensures
            r.is_default(),
    {
        Self {
            sign_shallow: false,
            sign_mode: SignerMode::Default,
            custom_name: None,
            custom_identifier: None,
            custom_version: None,
            custom_build_version: None,
            support_file_sharing: None,
            support_older_versions: None,
            support_more_devices: None,
        }
    }
}

} // verus!
