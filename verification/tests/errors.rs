use plume_core::errors::{Error, TargetFailure};

#[test]
fn failures_are_described_in_words() {
    assert_eq!(Error::Io("denied".to_string()).describe(), "I/O error: denied");
    assert_eq!(
        Error::PemParse("malformedframing".to_string()).describe(),
        "Certificate PEM error: malformedframing"
    );
    assert_eq!(
        Error::CertificateDecode("bad tag".to_string()).describe(),
        "X509 certificate error: bad tag"
    );
    assert_eq!(Error::KeyDecode("short".to_string()).describe(), "Private key error: short");
    assert_eq!(Error::MachOParse("bad magic".to_string()).describe(), "Mach-O error: bad magic");
    assert_eq!(Error::ProfileNotFound.describe(), "Provisioning profile not found");
    assert_eq!(
        Error::MalformedProfile("no Entitlements dictionary".to_string()).describe(),
        "Entitlements not found: no Entitlements dictionary"
    );
    assert_eq!(Error::MissingCertificate.describe(), "Missing certificate PEM data");
    assert_eq!(Error::Io(String::new()).describe(), "I/O error: ");
}

#[test]
fn target_failures_name_the_target() {
    let failed = |cause: TargetFailure| Error::TargetSign { target: "App/a.appex".to_string(), cause };
    assert_eq!(
        failed(TargetFailure::OutOfOrder).describe(),
        "Signing failed for App/a.appex: it is nested inside a bundle that was listed before it"
    );
    assert_eq!(
        failed(TargetFailure::EntitlementsMissing).describe(),
        "Signing failed for App/a.appex: it has no entitlements"
    );
    assert_eq!(
        failed(TargetFailure::Signing("disk full".to_string())).describe(),
        "Signing failed for App/a.appex: disk full"
    );
    assert_eq!(TargetFailure::Signing("x".to_string()).describe(), "x");
}
