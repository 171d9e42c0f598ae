use apple_codesign::SigningSettings;
use plume_core::certificate::{
    block_action, block_notes, label_chain, warnings_for, BlockAction, BlockNote, Certificate,
    KeyEncoding, PemBlock, Warning,
};
use plume_core::der::read_tlv;
use plume_core::errors::Error;
use x509_certificate::{
    CapturedX509Certificate, EcdsaCurve, InMemorySigningKeyPair, KeyAlgorithm, Sign,
    X509CertificateBuilder,
};

const EC_PARAMETERS: &str =
    "-----BEGIN EC PARAMETERS-----\nBggqhkjOPQMBBw==\n-----END EC PARAMETERS-----\n";

fn certificate(common_name: Option<&str>) -> CapturedX509Certificate {
    let mut builder = X509CertificateBuilder::default();
    if let Some(name) = common_name {
        builder.subject().append_common_name_utf8_string(name).unwrap();
    }
    builder.subject().append_organization_utf8_string("Plume").unwrap();
    let (certificate, _) = builder
        .create_with_random_keypair(KeyAlgorithm::Ecdsa(EcdsaCurve::Secp256r1))
        .unwrap();
    certificate
}

fn pkcs8_key(algorithm: KeyAlgorithm) -> Vec<u8> {
    InMemorySigningKeyPair::generate_random(algorithm)
        .unwrap()
        .to_pkcs8_one_asymmetric_key_der()
        .to_vec()
}

fn ecdsa_key() -> Vec<u8> {
    pkcs8_key(KeyAlgorithm::Ecdsa(EcdsaCurve::Secp256r1))
}

fn rsa_key() -> Vec<u8> {
    let wrapped = x509_certificate::testutil::rsa_private_key().to_pkcs8_one_asymmetric_key_der();
    let outer = read_tlv(&wrapped, 0).unwrap();
    let version = read_tlv(&wrapped, outer.start).unwrap();
    let algorithm = read_tlv(&wrapped, version.start + version.len).unwrap();
    let key = read_tlv(&wrapped, algorithm.start + algorithm.len).unwrap();
    wrapped[key.start..key.start + key.len].to_vec()
}

fn block(tag: &str, contents: &[u8]) -> String {
    pem::encode(&pem::Pem::new(tag, contents.to_vec()))
}

fn certificate_block(certificate: &CapturedX509Certificate) -> String {
    block("CERTIFICATE", certificate.constructed_data())
}

fn file(parts: &[&str]) -> Result<Vec<u8>, String> {
    Ok(parts.concat().into_bytes())
}

fn held_certificate(identity: &Certificate) -> Vec<u8> {
    identity.cert.as_ref().unwrap().constructed_data().to_vec()
}

fn expect_error(result: Result<Certificate, Error>) -> Error {
    match result {
        Ok(_) => panic!("the identity loaded"),
        Err(error) => error,
    }
}

fn identity_of(certificate: &CapturedX509Certificate) -> Certificate {
    let text = [certificate_block(certificate), block("PRIVATE KEY", &ecdsa_key())].concat();
    Certificate::new(Some(vec![Ok(text.into_bytes())])).unwrap()
}

#[test]
fn one_certificate_and_one_key_populate_both() {
    let certificate = certificate(Some("Plume Test A"));
    let key = ecdsa_key();
    let identity = Certificate::new(Some(vec![file(&[
        &certificate_block(&certificate),
        &block("PRIVATE KEY", &key),
    ])]))
    .unwrap();
    assert_eq!(held_certificate(&identity), certificate.constructed_data());
    let held = identity.key.as_ref().unwrap();
    assert_eq!(held.encoding(), KeyEncoding::Pkcs8);
    assert_eq!(held.der(), &key);
    let decoded = apple_codesign::cryptography::InMemoryPrivateKey::from_pkcs8_der(&key).unwrap();
    assert_eq!(held.signer().public_key_data(), decoded.public_key_data());
}

#[test]
fn second_certificate_wins() {
    let first = certificate(Some("Plume Test A"));
    let second = certificate(Some("Plume Test B"));
    assert_ne!(first.constructed_data(), second.constructed_data());
    let identity = Certificate::new(Some(vec![file(&[
        &certificate_block(&first),
        &certificate_block(&second),
    ])]))
    .unwrap();
    assert_eq!(held_certificate(&identity), second.constructed_data());
    assert!(identity.key.is_none());
    let swapped = Certificate::new(Some(vec![file(&[
        &certificate_block(&second),
        &block("PRIVATE KEY", &ecdsa_key()),
        &certificate_block(&first),
    ])]))
    .unwrap();
    assert_eq!(held_certificate(&swapped), first.constructed_data());
}

#[test]
fn unrecognized_tag_is_ignored() {
    let certificate = certificate(Some("Plume Test A"));
    let key = rsa_key();
    let identity = Certificate::new(Some(vec![file(&[
        &certificate_block(&certificate),
        EC_PARAMETERS,
        &block("RSA PRIVATE KEY", &key),
    ])]))
    .unwrap();
    assert_eq!(held_certificate(&identity), certificate.constructed_data());
    let held = identity.key.as_ref().unwrap();
    assert_eq!(held.encoding(), KeyEncoding::Pkcs1);
    assert_eq!(held.der(), &key);
}

#[test]
fn last_key_wins_across_files() {
    let certificate = certificate(Some("Plume Test B"));
    let identity = Certificate::new(Some(vec![
        file(&[&block("PRIVATE KEY", &ecdsa_key())]),
        file(&[&certificate_block(&certificate)]),
        file(&[&block("RSA PRIVATE KEY", &rsa_key())]),
    ]))
    .unwrap();
    assert_eq!(held_certificate(&identity), certificate.constructed_data());
    assert_eq!(identity.key.as_ref().unwrap().encoding(), KeyEncoding::Pkcs1);
    let ed25519 = pkcs8_key(KeyAlgorithm::Ed25519);
    let other = Certificate::new(Some(vec![file(&[
        &block("RSA PRIVATE KEY", &rsa_key()),
        &block("PRIVATE KEY", &ed25519),
    ])]))
    .unwrap();
    assert_eq!(other.key.as_ref().unwrap().encoding(), KeyEncoding::Pkcs8);
    assert_eq!(other.key.as_ref().unwrap().der(), &ed25519);
}

#[test]
fn no_files_and_no_blocks_give_an_empty_identity() {
    let none = Certificate::new(None).unwrap();
    assert!(none.cert.is_none() && none.key.is_none());
    let empty = Certificate::new(Some(vec![])).unwrap();
    assert!(empty.cert.is_none() && empty.key.is_none());
    let blank = Certificate::new(Some(vec![file(&["no pem here\n"])])).unwrap();
    assert!(blank.cert.is_none() && blank.key.is_none());
}

#[test]
fn unreadable_file_is_an_io_error() {
    let error = expect_error(Certificate::new(Some(vec![
        file(&[&certificate_block(&certificate(None))]),
        Err("permission denied".to_string()),
    ])));
    assert_eq!(error, Error::Io("permission denied".to_string()));
}

#[test]
fn malformed_pem_is_a_pem_error() {
    let text = "-----BEGIN CERTIFICATE-----\nAAAA\n-----END PRIVATE KEY-----\n";
    let error = expect_error(Certificate::new(Some(vec![file(&[text])])));
    assert!(matches!(error, Error::PemParse(_)));
    let bad_base64 = "-----BEGIN CERTIFICATE-----\n!!!!\n-----END CERTIFICATE-----\n";
    let error = expect_error(Certificate::new(Some(vec![file(&[bad_base64])])));
    assert!(matches!(error, Error::PemParse(_)));
}

#[test]
fn undecodable_blocks_are_fatal() {
    let bad_certificate = block("CERTIFICATE", &[1, 2, 3, 4]);
    let error = expect_error(Certificate::new(Some(vec![file(&[&bad_certificate])])));
    assert!(matches!(error, Error::CertificateDecode(_)));
    let bad_key = block("PRIVATE KEY", &[1, 2, 3, 4]);
    let error = expect_error(Certificate::new(Some(vec![file(&[
        &certificate_block(&certificate(None)),
        &bad_key,
    ])])));
    assert!(matches!(error, Error::KeyDecode(_)));
    let bad_rsa = block("RSA PRIVATE KEY", &ecdsa_key());
    let error = expect_error(Certificate::new(Some(vec![file(&[&bad_rsa])])));
    assert!(matches!(error, Error::KeyDecode(_)));
    let wrong_encoding = block("PRIVATE KEY", &rsa_key());
    let error = expect_error(Certificate::new(Some(vec![file(&[&wrong_encoding])])));
    assert!(matches!(error, Error::KeyDecode(_)));
}

#[test]
fn short_ed25519_key_is_refused() {
    let without_seed = [
        0x30, 0x0c, 0x02, 0x01, 0x00, 0x30, 0x05, 0x06, 0x03, 0x2b, 0x65, 0x70, 0x04, 0x00,
    ];
    let text = block("PRIVATE KEY", &without_seed);
    let error = expect_error(Certificate::new(Some(vec![file(&[&text])])));
    assert_eq!(error, Error::KeyDecode("Ed25519 private key is too short".to_string()));
    let one_byte = [
        0x30, 0x0d, 0x02, 0x01, 0x00, 0x30, 0x05, 0x06, 0x03, 0x2b, 0x65, 0x70, 0x04, 0x01, 0x04,
    ];
    let text = block("PRIVATE KEY", &one_byte);
    let error = expect_error(Certificate::new(Some(vec![file(&[&text])])));
    assert_eq!(error, Error::KeyDecode("Ed25519 private key is too short".to_string()));
}

#[test]
fn first_failure_stops_the_load() {
    let bad_certificate = block("CERTIFICATE", &[9, 9, 9]);
    let error = expect_error(Certificate::new(Some(vec![
        file(&[&bad_certificate]),
        Err("never read".to_string()),
    ])));
    assert!(matches!(error, Error::CertificateDecode(_)));
}

#[test]
fn failing_block_leaves_earlier_blocks_in_place() {
    let first = certificate(Some("Plume Test A"));
    let second = certificate(Some("Plume Test B"));
    let mut identity = Certificate::new(None).unwrap();
    let bad_key = block("RSA PRIVATE KEY", &[0]);
    let result = identity.resolve_certificate_from_path(&file(&[
        &certificate_block(&first),
        &bad_key,
        &certificate_block(&second),
    ]));
    assert!(matches!(result, Err(Error::KeyDecode(_))));
    assert_eq!(held_certificate(&identity), first.constructed_data());
    assert!(identity.key.is_none());
    let result = identity.resolve_certificate_from_path(&Err("gone".to_string()));
    assert_eq!(result, Err(Error::Io("gone".to_string())));
    assert_eq!(held_certificate(&identity), first.constructed_data());
}

#[test]
fn single_blocks_apply_by_tag() {
    let certificate = certificate(Some("Plume Test B"));
    let mut identity = Certificate::new(None).unwrap();
    let other = PemBlock { tag: "certificate".to_string(), contents: vec![1, 2, 3] };
    assert_eq!(identity.apply_block(&other), Ok(()));
    assert!(identity.cert.is_none() && identity.key.is_none());
    let held =
        PemBlock { tag: "CERTIFICATE".to_string(), contents: certificate.constructed_data().to_vec() };
    assert_eq!(identity.apply_block(&held), Ok(()));
    assert_eq!(held_certificate(&identity), certificate.constructed_data());
    let key = PemBlock { tag: "RSA PRIVATE KEY".to_string(), contents: rsa_key() };
    assert_eq!(identity.apply_block(&key), Ok(()));
    assert_eq!(identity.key.as_ref().unwrap().encoding(), KeyEncoding::Pkcs1);
    assert_eq!(identity.apply_block(&other), Ok(()));
    assert_eq!(identity.key.as_ref().unwrap().encoding(), KeyEncoding::Pkcs1);
    assert_eq!(held_certificate(&identity), certificate.constructed_data());
}

#[test]
fn valid_identity_attaches_without_warning() {
    let certificate = certificate(Some("Plume Test A"));
    let identity = identity_of(&certificate);
    let mut settings = SigningSettings::default();
    let now = certificate.validity_not_before().timestamp() + 60;
    let report = identity.load_into_signing_settings(&mut settings, now).unwrap();
    assert!(report.warnings.is_empty());
    assert!(report.chained.is_empty());
    let (_, attached) = settings.signing_key().unwrap();
    assert_eq!(attached.constructed_data(), certificate.constructed_data());
}

#[test]
fn expired_certificate_attaches_with_a_warning() {
    let certificate = certificate(Some("Plume Test Expired"));
    let not_after = certificate.validity_not_after().timestamp();
    let identity = identity_of(&certificate);
    let mut settings = SigningSettings::default();
    let report =
        identity.load_into_signing_settings(&mut settings, not_after + 86_400).unwrap();
    assert_eq!(report.warnings, vec![Warning::CertificateExpired { not_after }]);
    let (_, attached) = settings.signing_key().unwrap();
    assert_eq!(attached.constructed_data(), certificate.constructed_data());
}

#[test]
fn validity_window_includes_both_ends() {
    let certificate = certificate(Some("Plume Test A"));
    let not_before = certificate.validity_not_before().timestamp();
    let not_after = certificate.validity_not_after().timestamp();
    assert_eq!(not_after - not_before, 3600);
    let identity = identity_of(&certificate);
    let expired = vec![Warning::CertificateExpired { not_after }];
    let mut settings = SigningSettings::default();
    let first = identity.load_into_signing_settings(&mut settings, not_before).unwrap();
    assert!(first.warnings.is_empty());
    let last = identity.load_into_signing_settings(&mut settings, not_after).unwrap();
    assert!(last.warnings.is_empty());
    let early = identity.load_into_signing_settings(&mut settings, not_before - 1).unwrap();
    assert_eq!(early.warnings, expired);
    let late = identity.load_into_signing_settings(&mut settings, not_after + 1).unwrap();
    assert_eq!(late.warnings, expired);
}

#[test]
fn incomplete_identity_is_not_attached() {
    let only_certificate = Certificate::new(Some(vec![file(&[&certificate_block(
        &certificate(None),
    )])]))
    .unwrap();
    let mut settings = SigningSettings::default();
    let result = only_certificate.load_into_signing_settings(&mut settings, 1_800_000_000);
    assert!(matches!(result, Err(Error::MissingCertificate)));
    assert!(settings.signing_key().is_none());
    let only_key =
        Certificate::new(Some(vec![file(&[&block("PRIVATE KEY", &ecdsa_key())])])).unwrap();
    let result = only_key.load_into_signing_settings(&mut settings, 1_800_000_000);
    assert!(matches!(result, Err(Error::MissingCertificate)));
    assert!(settings.signing_key().is_none());
}

#[test]
fn warnings_follow_the_window() {
    assert_eq!(warnings_for(10, 20, 15), vec![]);
    assert_eq!(warnings_for(10, 20, 10), vec![]);
    assert_eq!(warnings_for(10, 20, 20), vec![]);
    assert_eq!(warnings_for(10, 20, 21), vec![Warning::CertificateExpired { not_after: 20 }]);
    assert_eq!(warnings_for(10, 20, 9), vec![Warning::CertificateExpired { not_after: 20 }]);
    assert_eq!(warnings_for(20, 10, 15), vec![Warning::CertificateExpired { not_after: 10 }]);
}

#[test]
fn nameless_ca_is_reported_as_default() {
    let labels = label_chain(&vec![certificate(Some("Plume Test B")), certificate(None)]);
    assert_eq!(labels, vec!["Plume Test B".to_string(), "default".to_string()]);
    assert_eq!(label_chain(&vec![]), Vec::<String>::new());
}

#[test]
fn blocks_are_reported_with_what_is_done_with_them() {
    let text = [
        certificate_block(&certificate(None)),
        EC_PARAMETERS.to_string(),
        block("RSA PRIVATE KEY", &[0]),
        block("PRIVATE KEY", &[1]),
    ]
    .concat();
    let note = |tag: &str, action: BlockAction| BlockNote { tag: tag.to_string(), action };
    assert_eq!(
        block_notes(text.as_bytes()),
        Ok(vec![
            note("CERTIFICATE", BlockAction::AddCertificate),
            note("EC PARAMETERS", BlockAction::Ignore),
            note("RSA PRIVATE KEY", BlockAction::AddRsaPrivateKey),
            note("PRIVATE KEY", BlockAction::AddPrivateKey),
        ])
    );
    assert_eq!(block_notes(b"nothing"), Ok(vec![]));
    let malformed = "-----BEGIN A-----\nAAAA\n-----END B-----\n";
    assert!(matches!(block_notes(malformed.as_bytes()), Err(Error::PemParse(_))));
    let lower = PemBlock { tag: "certificate".to_string(), contents: vec![] };
    assert_eq!(block_action(&lower), BlockAction::Ignore);
}
