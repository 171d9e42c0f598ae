//! The signing context: the settings a code signer works under, and the
//! identity attached to them.

use crate::certificate::certificate_der;
use vstd::prelude::*;

verus! {

/// `apple_codesign::SigningSettings`, the settings of a signing operation.
/// It borrows the private key it signs with.
#[verifier::external_type_specification]
#[verifier::external_body]
pub struct ExSigningSettings<'key>(apple_codesign::SigningSettings<'key>);

/// `apple_codesign::UnifiedSigner`, a code signer bound to its settings.
#[verifier::external_type_specification]
#[verifier::external_body]
pub struct ExUnifiedSigner<'key>(apple_codesign::UnifiedSigner<'key>);

/// What this library sets in a signing context.
pub struct ContextView {
    /// The private key that signs, if a signing key is set.
    pub key: Option<apple_codesign::cryptography::InMemoryPrivateKey>,
    /// The bytes of the signing certificate, if a signing key is set.
    pub identity: Option<Seq<u8>>,
    /// The team identifier that signatures carry, if one is set.
    pub team_id: Option<Seq<char>>,
    /// The bytes of each certificate added to the certificate chain, in
    /// the order they were added.
    pub chain: Seq<Seq<u8>>,
    /// Nested content is taken as already signed.
    pub shallow: bool,
    /// The extra rules for notarization are in force.
    pub for_notarization: bool,
}

/// The signing key with its certificate, the team identifier, the
/// certificate chain, the shallow flag and the notarization flag that
/// settings hold.
pub uninterp spec fn settings_view(settings: apple_codesign::SigningSettings<'_>) -> ContextView;

/// The signing key with its certificate, the team identifier, the
/// certificate chain, the shallow flag and the notarization flag of the
/// settings that a signer is bound to.
pub uninterp spec fn signer_view(signer: apple_codesign::UnifiedSigner<'_>) -> ContextView;

/// The Apple CA certificates that complete the chain of a signing
/// certificate up to an Apple root, the certificate itself left out; a
/// certificate without such a chain has none.
pub uninterp spec fn apple_ca_chain(certificate: Seq<u8>) -> Seq<Seq<u8>>;

/// The team identifier that an Apple-signed certificate carries; a
/// certificate that is not signed by Apple, or carries none, has none.
pub uninterp spec fn certificate_team_id(certificate: Seq<u8>) -> Option<Seq<char>>;

/// The common name in the subject of a certificate, if it has a readable
/// one.
pub uninterp spec fn common_name_of(certificate: Seq<u8>) -> Option<Seq<char>>;

/// The time from which a certificate is valid, in seconds since the epoch.
pub uninterp spec fn certificate_not_before(certificate: Seq<u8>) -> i64;

/// The time until which a certificate is valid, in seconds since the epoch.
pub uninterp spec fn certificate_not_after(certificate: Seq<u8>) -> i64;

/// The context of fresh settings: no signing key, no team identifier, no
/// certificate chain, nested content is signed, notarization rules are off.
pub open spec fn fresh_context() -> ContextView {
    ContextView {
        key: None,
        identity: None,
        team_id: None,
        chain: Seq::empty(),
        shallow: false,
        for_notarization: false,
    }
}

/// The bytes of each certificate of a list.
pub open spec fn certificates_der(certificates: Seq<x509_certificate::CapturedX509Certificate>) -> Seq<
    Seq<u8>,
> {
    Seq::new(certificates.len(), |i: int| certificate_der(certificates[i]))
}

/// The bytes of each certificate that was added to a chain; none where
/// nothing was added.
pub open spec fn added_chain(
    added: Option<Vec<x509_certificate::CapturedX509Certificate>>,
) -> Seq<Seq<u8>> {
    match added {
        Some(certificates) => certificates_der(certificates@),
        None => Seq::empty(),
    }
}

/// `SigningSettings::default`: settings without a signing key, without a
/// team identifier and without a certificate chain, with the shallow flag
/// and the notarization flag off.
#[verifier::external_body]
pub(crate) fn new_signing_settings<'key>() -> (r: apple_codesign::SigningSettings<'key>)
    ensures
        settings_view(r) == fresh_context(),
{
    apple_codesign::SigningSettings::default()
}

/// `SigningSettings::set_signing_key`: the key and its certificate become
/// the signing key; the team identifier, the chain and the two flags stay.
#[verifier::external_body]
pub(crate) fn set_signing_key<'key>(
    settings: &mut apple_codesign::SigningSettings<'key>,
    key: &'key apple_codesign::cryptography::InMemoryPrivateKey,
    certificate: x509_certificate::CapturedX509Certificate,
)
    ensures
        settings_view(*final(settings)) == (ContextView {
            key: Some(*key),
            identity: Some(certificate_der(certificate)),
            team_id: settings_view(*old(settings)).team_id,
            chain: settings_view(*old(settings)).chain,
            shallow: settings_view(*old(settings)).shallow,
            for_notarization: settings_view(*old(settings)).for_notarization,
        }),
{
    settings.set_signing_key(key, certificate)
}

/// `SigningSettings::chain_apple_certificates`: adds the Apple CA
/// certificates that complete the chain of the signing certificate to the
/// certificate chain, and hands them out; it hands out nothing where the
/// settings have no signing key or the certificate has no such chain. The
/// signing key, the team identifier and the two flags stay.
#[verifier::external_body]
pub(crate) fn chain_apple_certificates(settings: &mut apple_codesign::SigningSettings<'_>) -> (r:
    Option<Vec<x509_certificate::CapturedX509Certificate>>)
    ensures
        added_chain(r) == match settings_view(*old(settings)).identity {
            Some(certificate) => apple_ca_chain(certificate),
            None => Seq::<Seq<u8>>::empty(),
        },
        settings_view(*final(settings)) == (ContextView {
            key: settings_view(*old(settings)).key,
            identity: settings_view(*old(settings)).identity,
            team_id: settings_view(*old(settings)).team_id,
            chain: settings_view(*old(settings)).chain + added_chain(r),
            shallow: settings_view(*old(settings)).shallow,
            for_notarization: settings_view(*old(settings)).for_notarization,
        }),
{
    settings.chain_apple_certificates()
}

/// `X509Certificate::subject_common_name`: the common name in the subject
/// of a certificate, if it has a readable one.
#[verifier::external_body]
pub(crate) fn subject_common_name(certificate: &x509_certificate::CapturedX509Certificate) -> (r:
    Option<String>)
    ensures
        match r {
            Some(name) => common_name_of(certificate_der(*certificate)) == Some(name@),
            None => common_name_of(certificate_der(*certificate)) is None,
        },
{
    certificate.subject_common_name()
}

/// `SigningSettings::set_team_id_from_signing_certificate`: takes the team
/// identifier over from a signing certificate that is signed by Apple and
/// carries one; otherwise the team identifier stays. The signing key, the
/// chain and the two flags stay.
#[verifier::external_body]
pub(crate) fn set_team_id_from_signing_certificate(
    settings: &mut apple_codesign::SigningSettings<'_>,
)
    ensures
        settings_view(*final(settings)) == (ContextView {
            key: settings_view(*old(settings)).key,
            identity: settings_view(*old(settings)).identity,
            team_id: match settings_view(*old(settings)).identity {
                Some(certificate) => match certificate_team_id(certificate) {
                    Some(team_id) => Some(team_id),
                    None => settings_view(*old(settings)).team_id,
                },
                None => settings_view(*old(settings)).team_id,
            },
            chain: settings_view(*old(settings)).chain,
            shallow: settings_view(*old(settings)).shallow,
            for_notarization: settings_view(*old(settings)).for_notarization,
        }),
{
    settings.set_team_id_from_signing_certificate();
}

/// `SigningSettings::set_shallow`: sets the shallow flag; the signing key,
/// the team identifier, the chain and the notarization flag stay.
#[verifier::external_body]
pub(crate) fn set_shallow(settings: &mut apple_codesign::SigningSettings<'_>, shallow: bool)
    ensures
        settings_view(*final(settings)) == (ContextView {
            key: settings_view(*old(settings)).key,
            identity: settings_view(*old(settings)).identity,
            team_id: settings_view(*old(settings)).team_id,
            chain: settings_view(*old(settings)).chain,
            shallow: shallow,
            for_notarization: settings_view(*old(settings)).for_notarization,
        }),
{
    settings.set_shallow(shallow)
}

/// `SigningSettings::set_for_notarization`: sets the notarization flag;
/// the signing key, the team identifier, the chain and the shallow flag
/// stay.
#[verifier::external_body]
pub(crate) fn set_for_notarization(
    settings: &mut apple_codesign::SigningSettings<'_>,
    for_notarization: bool,
)
    ensures
        settings_view(*final(settings)) == (ContextView {
            key: settings_view(*old(settings)).key,
            identity: settings_view(*old(settings)).identity,
            team_id: settings_view(*old(settings)).team_id,
            chain: settings_view(*old(settings)).chain,
            shallow: settings_view(*old(settings)).shallow,
            for_notarization: for_notarization,
        }),
{
    settings.set_for_notarization(for_notarization)
}

/// `UnifiedSigner::new`: a signer bound to the settings it is given.
#[verifier::external_body]
pub(crate) fn new_unified_signer<'key>(settings: apple_codesign::SigningSettings<'key>) -> (r:
    apple_codesign::UnifiedSigner<'key>)
    ensures
        signer_view(r) == settings_view(settings),
{
    apple_codesign::UnifiedSigner::new(settings)
}

/// `X509Certificate::validity_not_before`, in seconds since the epoch.
#[verifier::external_body]
pub(crate) fn validity_not_before(certificate: &x509_certificate::CapturedX509Certificate) -> (r:
    i64)
    ensures
        r == certificate_not_before(certificate_der(*certificate)),
{
    certificate.validity_not_before().timestamp()
}

/// `X509Certificate::validity_not_after`, in seconds since the epoch.
#[verifier::external_body]
pub(crate) fn validity_not_after(certificate: &x509_certificate::CapturedX509Certificate) -> (r:
    i64)
    ensures
        r == certificate_not_after(certificate_der(*certificate)),
{
    certificate.validity_not_after().timestamp()
}

/// `Clone::clone` of signing settings gives equal settings.
pub assume_specification<'key>[ <apple_codesign::SigningSettings<'key> as Clone>::clone ](
    settings: &apple_codesign::SigningSettings<'key>,
) -> (r: apple_codesign::SigningSettings<'key>)
    ensures
        r == *settings,
;

/// `Clone::clone` of a parsed certificate gives an equal certificate.
pub assume_specification[ <x509_certificate::CapturedX509Certificate as Clone>::clone ](
    certificate: &x509_certificate::CapturedX509Certificate,
) -> (r: x509_certificate::CapturedX509Certificate)
    ensures
        r == *certificate,
;

/// `PrivateKey::finish` for a key held in memory: there is nothing to
/// release, and it succeeds.
#[verifier::external_body]
pub(crate) fn finish_key(key: &apple_codesign::cryptography::InMemoryPrivateKey) -> (r: Result<
    (),
    String,
>)
    ensures
        r is Ok,
{
    apple_codesign::cryptography::PrivateKey::finish(key).map_err(|e| e.to_string())
}

} // verus!
