use plume_core::signing::signer_settings::{SignerMode, SignerSettings};

#[test]
fn default_settings_set_no_override() {
    let settings = SignerSettings::default();
    assert!(!settings.sign_shallow);
    assert_eq!(settings.sign_mode, SignerMode::Default);
    assert_eq!(settings.custom_name, None);
    assert_eq!(settings.custom_identifier, None);
    assert_eq!(settings.custom_version, None);
    assert_eq!(settings.custom_build_version, None);
    assert_eq!(settings.support_file_sharing, None);
    assert_eq!(settings.support_older_versions, None);
    assert_eq!(settings.support_more_devices, None);
}
