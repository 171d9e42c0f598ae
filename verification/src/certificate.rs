//! The signing identity: a certificate and its private key, loaded from PEM
//! material.
//!
//! Every file may hold any number of PEM blocks. A `CERTIFICATE` block
//! replaces the certificate, a `PRIVATE KEY` or `RSA PRIVATE KEY` block
//! replaces the key, and a block with any other tag is passed over. The
//! last block of each kind is the one that stays.

use crate::der::{is_short_ed25519_key, pkcs8_short_ed25519};
use crate::errors::{Error, ErrorView};
use crate::signing::context::{
    apple_ca_chain, certificate_not_after, certificate_not_before, certificates_der,
    chain_apple_certificates, common_name_of, set_signing_key, settings_view,
    subject_common_name, validity_not_after, validity_not_before, ContextView,
};
use crate::text::same_text;
use vstd::prelude::*;

verus! {

/// `x509_certificate::CapturedX509Certificate`, a parsed X.509 certificate
/// that keeps the bytes it was parsed from.
#[verifier::external_type_specification]
#[verifier::external_body]
pub struct ExCapturedX509Certificate(x509_certificate::CapturedX509Certificate);

/// `apple_codesign::cryptography::InMemoryPrivateKey`, a private key ready
/// to sign.
#[verifier::external_type_specification]
#[verifier::external_body]
pub struct ExInMemoryPrivateKey(apple_codesign::cryptography::InMemoryPrivateKey);

/// One block of PEM material: the tag between `BEGIN` and the dashes, and
/// the bytes its base64 text decodes to.
#[derive(Debug, Clone, PartialEq, Eq)]
pub struct PemBlock {
    pub tag: String,
    pub contents: Vec<u8>,
}

impl View for PemBlock {
    type V = (Seq<char>, Seq<u8>);

    open spec fn view(&self) -> (Seq<char>, Seq<u8>) {
        (self.tag@, self.contents@)
    }
}

/// The blocks of a list, each as its tag and its contents.
pub open spec fn blocks_view(blocks: Seq<PemBlock>) -> Seq<(Seq<char>, Seq<u8>)> {
    Seq::new(blocks.len(), |i: int| blocks[i]@)
}

/// What parsing a byte string as PEM material gives: its blocks in the
/// order they stand in, or the parser's message.
pub uninterp spec fn pem_blocks(data: Seq<u8>) -> Result<Seq<(Seq<char>, Seq<u8>)>, Seq<char>>;

/// Why a byte string is no DER-encoded X.509 certificate: the decoder's
/// message, or nothing where it is one.
pub uninterp spec fn x509_decode_failure(der: Seq<u8>) -> Option<Seq<char>>;

/// The bytes a parsed certificate was constructed from.
pub uninterp spec fn certificate_der(certificate: x509_certificate::CapturedX509Certificate) -> Seq<
    u8,
>;

/// Why a byte string is no PKCS#8 private key: the decoder's message, or
/// nothing where it is one.
pub uninterp spec fn pkcs8_decode_failure(der: Seq<u8>) -> Option<Seq<char>>;

/// Why a byte string is no PKCS#1 RSA private key: the decoder's message,
/// or nothing where it is one.
pub uninterp spec fn pkcs1_decode_failure(der: Seq<u8>) -> Option<Seq<char>>;

/// The key that a PKCS#8 private key decodes to.
pub uninterp spec fn pkcs8_key(der: Seq<u8>) -> apple_codesign::cryptography::InMemoryPrivateKey;

/// The key that a PKCS#1 RSA private key decodes to.
pub uninterp spec fn pkcs1_key(der: Seq<u8>) -> apple_codesign::cryptography::InMemoryPrivateKey;

/// `pem::parse_many`. The outcome depends on the bytes alone: it is
/// `pem_blocks` of them, each block handed out as its tag and contents,
/// the error as its message.
#[verifier::external_body]
fn parse_pem_blocks(data: &[u8]) -> (r: Result<Vec<PemBlock>, String>)
    ensures
        match r {
            Ok(blocks) => pem_blocks(data@) == Ok::<Seq<(Seq<char>, Seq<u8>)>, Seq<char>>(
                blocks_view(blocks@),
            ),
            Err(message) => pem_blocks(data@) == Err::<Seq<(Seq<char>, Seq<u8>)>, Seq<char>>(
                message@,
            ),
        },
{
    match pem::parse_many(data) {
        Ok(blocks) => Ok(
            blocks.into_iter().map(
                |b| PemBlock { tag: b.tag().to_string(), contents: b.into_contents() },
            ).collect(),
        ),
        Err(e) => Err(e.to_string()),
    }
}

/// `CapturedX509Certificate::from_der`. It succeeds exactly on the byte
/// strings that decode, the certificate keeps the bytes it was given, and
/// the error is handed out as its message.
#[verifier::external_body]
fn decode_certificate(der: &[u8]) -> (r: Result<x509_certificate::CapturedX509Certificate, String>)
    ensures
        match r {
            Ok(certificate) => x509_decode_failure(der@) is None && certificate_der(certificate)
                == der@,
            Err(message) => x509_decode_failure(der@) == Some(message@),
        },
{
    x509_certificate::CapturedX509Certificate::from_der(der).map_err(|e| e.to_string())
}

/// `InMemoryPrivateKey::from_pkcs8_der`. It succeeds exactly on the byte
/// strings that decode, the key depends on the bytes alone, and the error
/// is handed out as its message. An Ed25519
/// key without room for a seed is kept away from it: the decoder reads
/// past the end of such a key.
#[verifier::external_body]
fn decode_pkcs8_key(der: &[u8]) -> (r: Result<
    apple_codesign::cryptography::InMemoryPrivateKey,
    String,
>)
    requires
        !pkcs8_short_ed25519(der@),
    ensures
        match r {
            Ok(key) => pkcs8_decode_failure(der@) is None && key == pkcs8_key(der@),
            Err(message) => pkcs8_decode_failure(der@) == Some(message@),
        },
{
    apple_codesign::cryptography::InMemoryPrivateKey::from_pkcs8_der(der).map_err(
        |e| e.to_string(),
    )
}

/// `InMemoryPrivateKey::from_pkcs1_der`. It succeeds exactly on the byte
/// strings that decode, the key depends on the bytes alone, and the error
/// is handed out as its message.
#[verifier::external_body]
fn decode_pkcs1_key(der: &[u8]) -> (r: Result<
    apple_codesign::cryptography::InMemoryPrivateKey,
    String,
>)
    ensures
        match r {
            Ok(key) => pkcs1_decode_failure(der@) is None && key == pkcs1_key(der@),
            Err(message) => pkcs1_decode_failure(der@) == Some(message@),
        },
{
    apple_codesign::cryptography::InMemoryPrivateKey::from_pkcs1_der(der).map_err(
        |e| e.to_string(),
    )
}

/// The encoding a private key was loaded from.
#[derive(Debug, Clone, Copy, PartialEq, Eq, Structural)]
pub enum KeyEncoding {
    /// PKCS#8, from a `PRIVATE KEY` block.
    Pkcs8,
    /// PKCS#1, from an `RSA PRIVATE KEY` block.
    Pkcs1,
}

/// A private key: the encoding and the bytes it was loaded from, and the
/// key that signs, which is what those bytes decode to.
pub struct PrivateKey {
    encoding: KeyEncoding,
    der: Vec<u8>,
    key: apple_codesign::cryptography::InMemoryPrivateKey,
}

/// A private key with its bytes as a sequence.
pub struct PrivateKeyView {
    pub encoding: KeyEncoding,
    pub der: Seq<u8>,
    pub key: apple_codesign::cryptography::InMemoryPrivateKey,
}

/// The key that bytes in an encoding decode to.
pub open spec fn decoded_key(encoding: KeyEncoding, der: Seq<u8>) -> apple_codesign::cryptography::InMemoryPrivateKey {
    match encoding {
        KeyEncoding::Pkcs8 => pkcs8_key(der),
        KeyEncoding::Pkcs1 => pkcs1_key(der),
    }
}

/// The private key that bytes in an encoding stand for.
pub open spec fn key_view(encoding: KeyEncoding, der: Seq<u8>) -> PrivateKeyView {
    PrivateKeyView { encoding, der, key: decoded_key(encoding, der) }
}

impl View for PrivateKey {
    type V = PrivateKeyView;

    closed spec fn view(&self) -> PrivateKeyView {
        PrivateKeyView { encoding: self.encoding, der: self.der@, key: self.key }
    }
}

impl PrivateKey {
    #[verifier::type_invariant]
    spec fn key_is_decoded(self) -> bool {
        self.key == decoded_key(self.encoding, self.der@)
    }

    /// The encoding the key was loaded from.
    pub fn encoding(&self) -> (r: KeyEncoding)
        ensures
            r == self@.encoding,
    {
        self.encoding
    }

    /// The key that signs, whatever encoding it came in: what the bytes
    /// the key was loaded from decode to.
    pub fn signer(&self) -> (r: &apple_codesign::cryptography::InMemoryPrivateKey)
        ensures
            *r == self@.key,
            self@ == key_view(self@.encoding, self@.der),
    {
        proof {
            use_type_invariant(self);
        }
        &self.key
    }

    /// The encoded bytes the key was loaded from.
    pub fn der(&self) -> (r: &Vec<u8>)
        ensures
            r@ == self@.der,
    {
        &self.der
    }
}

/// A signing identity. Either part may be absent; signing with the
/// identity needs both.
pub struct Certificate {
    pub cert: Option<x509_certificate::CapturedX509Certificate>,
    pub key: Option<PrivateKey>,
}

/// A signing identity as the bytes its parts were loaded from.
pub struct IdentityView {
    pub cert: Option<Seq<u8>>,
    pub key: Option<PrivateKeyView>,
}

impl View for Certificate {
    type V = IdentityView;

    open spec fn view(&self) -> IdentityView {
        IdentityView {
            cert: match self.cert {
                Some(certificate) => Some(certificate_der(certificate)),
                None => None,
            },
            key: match self.key {
                Some(key) => Some(key@),
                None => None,
            },
        }
    }
}

/// The identity with neither part.
pub open spec fn no_identity() -> IdentityView {
    IdentityView { cert: None, key: None }
}

/// The message for an Ed25519 key without room for a seed.
pub open spec fn short_key_message() -> Seq<char> {
    "Ed25519 private key is too short"@
}

/// What one block does to an identity: a block of a known tag replaces the
/// part it names or fails to decode, a block of any other tag changes
/// nothing.
pub open spec fn block_outcome(identity: IdentityView, block: (Seq<char>, Seq<u8>)) -> Result<
    IdentityView,
    ErrorView,
> {
    let (tag, contents) = block;
    if tag == "CERTIFICATE"@ {
        match x509_decode_failure(contents) {
            None => Ok(IdentityView { cert: Some(contents), key: identity.key }),
            Some(message) => Err(ErrorView::CertificateDecode(message)),
        }
    } else if tag == "PRIVATE KEY"@ {
        if pkcs8_short_ed25519(contents) {
            Err(ErrorView::KeyDecode(short_key_message()))
        } else {
            match pkcs8_decode_failure(contents) {
                None => Ok(
                    IdentityView {
                        cert: identity.cert,
                        key: Some(key_view(KeyEncoding::Pkcs8, contents)),
                    },
                ),
                Some(message) => Err(ErrorView::KeyDecode(message)),
            }
        }
    } else if tag == "RSA PRIVATE KEY"@ {
        match pkcs1_decode_failure(contents) {
            None => Ok(
                IdentityView {
                    cert: identity.cert,
                    key: Some(key_view(KeyEncoding::Pkcs1, contents)),
                },
            ),
            Some(message) => Err(ErrorView::KeyDecode(message)),
        }
    } else {
        Ok(identity)
    }
}

/// The identity reached after the first `count` blocks, and the failure
/// that stopped the blocks before the last of them, if one did. Blocks
/// after a failure change nothing.
pub open spec fn blocks_outcome(
    identity: IdentityView,
    blocks: Seq<(Seq<char>, Seq<u8>)>,
    count: nat,
) -> (IdentityView, Option<ErrorView>)
    decreases count,
{
    if count == 0 {
        (identity, None)
    } else {
        let (reached, stopped) = blocks_outcome(identity, blocks, (count - 1) as nat);
        match stopped {
            Some(_) => (reached, stopped),
            None => match block_outcome(reached, blocks[count - 1]) {
                Ok(next) => (next, None),
                Err(error) => (reached, Some(error)),
            },
        }
    }
}

/// What one file does to an identity, given what reading it gave: the
/// read's message where it could not be read, its bytes otherwise.
pub open spec fn file_outcome(identity: IdentityView, file: Result<Seq<u8>, Seq<char>>) -> (
    IdentityView,
    Option<ErrorView>,
) {
    match file {
        Err(message) => (identity, Some(ErrorView::Io(message))),
        Ok(data) => match pem_blocks(data) {
            Err(message) => (identity, Some(ErrorView::PemParse(message))),
            Ok(blocks) => blocks_outcome(identity, blocks, blocks.len()),
        },
    }
}

/// The identity reached after the first `count` files, and the failure
/// that stopped the files before the last of them, if one did.
pub open spec fn files_outcome(
    identity: IdentityView,
    files: Seq<Result<Seq<u8>, Seq<char>>>,
    count: nat,
) -> (IdentityView, Option<ErrorView>)
    decreases count,
{
    if count == 0 {
        (identity, None)
    } else {
        let (reached, stopped) = files_outcome(identity, files, (count - 1) as nat);
        match stopped {
            Some(_) => (reached, stopped),
            None => file_outcome(reached, files[count - 1]),
        }
    }
}

/// What reading one file gave, with its bytes and its text as sequences.
pub open spec fn read_view(file: Result<Vec<u8>, String>) -> Result<Seq<u8>, Seq<char>> {
    match file {
        Ok(data) => Ok(data@),
        Err(message) => Err(message@),
    }
}

/// What reading each file of a list gave.
pub open spec fn reads_view(files: Seq<Result<Vec<u8>, String>>) -> Seq<
    Result<Seq<u8>, Seq<char>>,
> {
    Seq::new(files.len(), |i: int| read_view(files[i]))
}

/// What loading an identity gives for what reading its files gave; no list
/// of files is an empty list.
pub open spec fn load_outcome(files: Option<Seq<Result<Vec<u8>, String>>>) -> (
    IdentityView,
    Option<ErrorView>,
) {
    match files {
        None => (no_identity(), None),
        Some(list) => files_outcome(no_identity(), reads_view(list), list.len()),
    }
}

/// What reading each file of an optional list gave.
pub open spec fn optional_reads(files: Option<Vec<Result<Vec<u8>, String>>>) -> Option<
    Seq<Result<Vec<u8>, String>>,
> {
    match files {
        None => None,
        Some(list) => Some(list@),
    }
}

impl Certificate {
    /// Loads an identity from what reading each PEM file gave, the files
    /// in the order they were named in.
    pub fn new(paths: Option<Vec<Result<Vec<u8>, String>>>) -> (r: Result<Self, Error>)
        ensures
            match r {
                Ok(identity) => load_outcome(optional_reads(paths)) == (
                    identity@,
                    None::<ErrorView>,
                ),
                Err(error) => load_outcome(optional_reads(paths)).1 == Some(error@),
            },
    {
        let mut identity = Certificate { cert: None, key: None };
        if let Some(files) = paths {
            let mut i: usize = 0;
            while i < files.len()
                invariant
                    optional_reads(paths) == Some(files@),
                    i <= files@.len(),
                    files_outcome(no_identity(), reads_view(files@), i as nat) == (
                        identity@,
                        None::<ErrorView>,
                    ),
                decreases files@.len() - i,
            {
                match identity.resolve_certificate_from_path(&files[i]) {
                    Ok(()) => {},
                    Err(error) => {
                        proof {
                            assert(files_outcome(
                                no_identity(),
                                reads_view(files@),
                                (i + 1) as nat,
                            ).1 == Some(error@));
                            lemma_files_stay_stopped(
                                no_identity(),
                                reads_view(files@),
                                (i + 1) as nat,
                                files@.len() as nat,
                            );
                        }
                        return Err(error);
                    },
                }
                i += 1;
            }
        }
        Ok(identity)
    }

    /// Takes in the blocks of one PEM file, given what reading it gave.
    /// After a failure the identity is as the blocks before the failing one
    /// left it. A file that could not be read, one that is no PEM
    /// material, and one none of whose blocks names a part of an identity
    /// leave the identity as it was.
    pub fn resolve_certificate_from_path(&mut self, path: &Result<Vec<u8>, String>) -> (r: Result<
        (),
        Error,
    >)
        ensures
            final(self)@ == file_outcome(old(self)@, read_view(*path)).0,
            match r {
                Ok(()) => file_outcome(old(self)@, read_view(*path)).1 is None,
                Err(error) => file_outcome(old(self)@, read_view(*path)).1 == Some(error@),
            },
            file_names_no_part(read_view(*path)) ==> *final(self) == *old(self),
    {
        let data = match path {
            Ok(data) => data,
            Err(message) => return Err(Error::Io(message.clone())),
        };
        let blocks = match parse_pem_blocks(data.as_slice()) {
            Ok(blocks) => blocks,
            Err(message) => return Err(Error::PemParse(message)),
        };
        let mut i: usize = 0;
        while i < blocks.len()
            invariant
                read_view(*path) == Ok::<Seq<u8>, Seq<char>>(data@),
                pem_blocks(data@) == Ok::<Seq<(Seq<char>, Seq<u8>)>, Seq<char>>(
                    blocks_view(blocks@),
                ),
                i <= blocks@.len(),
                (forall|j: int| 0 <= j < i ==> !names_a_part(#[trigger] blocks_view(blocks@)[j]))
                    ==> *self == *old(self),
                blocks_outcome(old(self)@, blocks_view(blocks@), i as nat) == (
                    self@,
                    None::<ErrorView>,
                ),
            decreases blocks@.len() - i,
        {
            match self.apply_block(&blocks[i]) {
                Ok(()) => {},
                Err(error) => {
                    proof {
                        assert(blocks_outcome(
                            old(self)@,
                            blocks_view(blocks@),
                            (i + 1) as nat,
                        ) == (self@, Some(error@)));
                        lemma_blocks_stay_stopped(
                            old(self)@,
                            blocks_view(blocks@),
                            (i + 1) as nat,
                            blocks@.len() as nat,
                        );
                    }
                    return Err(error);
                },
            }
            i += 1;
        }
        Ok(())
    }

    /// Takes in one block: replaces the part its tag names, or leaves the
    /// identity as it is where the tag names none or the block fails to
    /// decode. The part the tag does not name stays in any case.
    pub fn apply_block(&mut self, block: &PemBlock) -> (r: Result<(), Error>)
        ensures
            match r {
                Ok(()) => block_outcome(old(self)@, block@) == Ok::<IdentityView, ErrorView>(
                    final(self)@,
                ),
                Err(error) => block_outcome(old(self)@, block@) == Err::<IdentityView, ErrorView>(
                    error@,
                ) && *final(self) == *old(self),
            },
            !names_a_part(block@) ==> *final(self) == *old(self),
            !is_certificate_block(block@) ==> final(self).cert == old(self).cert,
            !is_key_block(block@) ==> final(self).key == old(self).key,
    {
        proof {
            lemma_tags_differ();
        }
        let tag = block.tag.as_str();
        if same_text(tag, "CERTIFICATE") {
            match decode_certificate(block.contents.as_slice()) {
                Ok(certificate) => {
                    self.cert = Some(certificate);
                    Ok(())
                },
                Err(message) => Err(Error::CertificateDecode(message)),
            }
        } else if same_text(tag, "PRIVATE KEY") {
            if is_short_ed25519_key(block.contents.as_slice()) {
                return Err(Error::KeyDecode("Ed25519 private key is too short".to_owned()));
            }
            match decode_pkcs8_key(block.contents.as_slice()) {
                Ok(key) => {
                    self.key = Some(
                        PrivateKey {
                            encoding: KeyEncoding::Pkcs8,
                            der: block.contents.clone(),
                            key,
                        },
                    );
                    Ok(())
                },
                Err(message) => Err(Error::KeyDecode(message)),
            }
        } else if same_text(tag, "RSA PRIVATE KEY") {
            match decode_pkcs1_key(block.contents.as_slice()) {
                Ok(key) => {
                    self.key = Some(
                        PrivateKey {
                            encoding: KeyEncoding::Pkcs1,
                            der: block.contents.clone(),
                            key,
                        },
                    );
                    Ok(())
                },
                Err(message) => Err(Error::KeyDecode(message)),
            }
        } else {
            Ok(())
        }
    }
}

/// Something worth telling the user that does not stop signing.
#[derive(Debug, Clone, Copy, PartialEq, Eq, Structural)]
pub enum Warning {
    /// The signing certificate is not valid at the time of signing; it
    /// stops being valid at `not_after`, in seconds since the epoch.
    /// Signatures made with it may not be accepted.
    CertificateExpired { not_after: i64 },
}

/// What attaching an identity to a signing context has to report.
#[derive(Debug, Clone)]
pub struct AttachReport {
    /// Warnings that do not stop signing.
    pub warnings: Vec<Warning>,
    /// The name of each Apple CA certificate that was added to complete
    /// the chain of the signing certificate.
    pub chained: Vec<String>,
}

/// A certificate is valid at a time that lies inside its validity window,
/// both ends included.
pub open spec fn valid_at(certificate: Seq<u8>, now: i64) -> bool {
    certificate_not_before(certificate) <= now <= certificate_not_after(certificate)
}

/// The warnings that signing with a certificate at a time gives: one for
/// a certificate that is not valid then, none otherwise.
pub open spec fn expiry_warnings(certificate: Seq<u8>, now: i64) -> Seq<Warning> {
    if valid_at(certificate, now) {
        Seq::empty()
    } else {
        seq![Warning::CertificateExpired { not_after: certificate_not_after(certificate) }]
    }
}

/// The name under which a CA certificate is reported: its common name, or
/// `default` where it has none.
pub open spec fn chain_label(name: Option<Seq<char>>) -> Seq<char> {
    match name {
        Some(name) => name,
        None => "default"@,
    }
}

/// The names under which the CA certificates of a chain are reported.
pub open spec fn chain_labels(chain: Seq<Seq<u8>>) -> Seq<Seq<char>> {
    Seq::new(chain.len(), |i: int| chain_label(common_name_of(chain[i])))
}

/// The texts of a list of strings.
pub open spec fn strings_view(texts: Seq<String>) -> Seq<Seq<char>> {
    Seq::new(texts.len(), |i: int| texts[i]@)
}

/// The warnings for a certificate whose validity window is known.
pub fn warnings_for(not_before: i64, not_after: i64, now: i64) -> (r: Vec<Warning>)
    ensures
        r@ == if not_before <= now <= not_after {
            Seq::<Warning>::empty()
        } else {
            seq![Warning::CertificateExpired { not_after }]
        },
{
    let mut warnings: Vec<Warning> = Vec::new();
    if !(not_before <= now && now <= not_after) {
        warnings.push(Warning::CertificateExpired { not_after });
    }
    warnings
}

/// The names under which the CA certificates of a chain are reported.
pub fn label_chain(chain: &Vec<x509_certificate::CapturedX509Certificate>) -> (r: Vec<String>)
    ensures
        strings_view(r@) == chain_labels(certificates_der(chain@)),
{
    let mut labels: Vec<String> = Vec::new();
    let mut i: usize = 0;
    while i < chain.len()
        invariant
            i <= chain@.len(),
            labels@.len() == i,
            forall|j: int|
                0 <= j < i ==> (#[trigger] labels@[j])@ == chain_label(
                    common_name_of(certificate_der(chain@[j])),
                ),
        decreases chain@.len() - i,
    {
        let label = match subject_common_name(&chain[i]) {
            Some(name) => name,
            None => "default".to_owned(),
        };
        labels.push(label);
        i += 1;
    }
    labels
}

impl Certificate {
    /// Whether both the certificate and its key are there.
    pub open spec fn complete(&self) -> bool {
        self.cert is Some && self.key is Some
    }

    /// Attaches the identity to a signing context and completes the
    /// certificate chain from the built-in Apple CA certificates. An
    /// identity without certificate or without key is refused and the
    /// context stays untouched. A certificate that is not valid at `now`,
    /// in seconds since the epoch, gives a warning and is attached all the
    /// same.
    pub fn load_into_signing_settings<'a>(
        &'a self,
        settings: &mut apple_codesign::SigningSettings<'a>,
        now: i64,
    ) -> (r: Result<AttachReport, Error>)
        ensures
            match r {
                Ok(report) => {
                    &&& self.complete()
                    &&& settings_view(*final(settings)) == (ContextView {
                        key: Some(self@.key->0.key),
                        identity: self@.cert,
                        team_id: settings_view(*old(settings)).team_id,
                        chain: settings_view(*old(settings)).chain + apple_ca_chain(
                            self@.cert->0,
                        ),
                        shallow: settings_view(*old(settings)).shallow,
                        for_notarization: settings_view(*old(settings)).for_notarization,
                    })
                    &&& report.warnings@ == expiry_warnings(self@.cert->0, now)
                    &&& strings_view(report.chained@) == chain_labels(
                        apple_ca_chain(self@.cert->0),
                    )
                },
                Err(error) => {
                    &&& !self.complete()
                    &&& error@ == ErrorView::MissingCertificate
                    &&& *final(settings) == *old(settings)
                },
            },
    {
        let certificate = match &self.cert {
            Some(certificate) => certificate,
            None => return Err(Error::MissingCertificate),
        };
        let key = match &self.key {
            Some(key) => key,
            None => return Err(Error::MissingCertificate),
        };
        let warnings = warnings_for(
            validity_not_before(certificate),
            validity_not_after(certificate),
            now,
        );
        set_signing_key(settings, key.signer(), certificate.clone());
        let chained = match chain_apple_certificates(settings) {
            Some(added) => label_chain(&added),
            None => Vec::new(),
        };
        Ok(AttachReport { warnings, chained })
    }
}

/// Once a block has failed, taking more blocks into account changes
/// neither the identity reached nor the failure.
pub proof fn lemma_blocks_stay_stopped(
    identity: IdentityView,
    blocks: Seq<(Seq<char>, Seq<u8>)>,
    at: nat,
    count: nat,
)
    requires
        at <= count,
        blocks_outcome(identity, blocks, at).1 is Some,
    ensures
        blocks_outcome(identity, blocks, count) == blocks_outcome(identity, blocks, at),
    decreases count,
{
    if at < count {
        lemma_blocks_stay_stopped(identity, blocks, at, (count - 1) as nat);
    }
}

/// Once a file has failed, taking more files into account changes neither
/// the identity reached nor the failure.
pub proof fn lemma_files_stay_stopped(
    identity: IdentityView,
    files: Seq<Result<Seq<u8>, Seq<char>>>,
    at: nat,
    count: nat,
)
    requires
        at <= count,
        files_outcome(identity, files, at).1 is Some,
    ensures
        files_outcome(identity, files, count) == files_outcome(identity, files, at),
    decreases count,
{
    if at < count {
        lemma_files_stay_stopped(identity, files, at, (count - 1) as nat);
    }
}

/// The block replaces the certificate.
pub open spec fn is_certificate_block(block: (Seq<char>, Seq<u8>)) -> bool {
    block.0 == "CERTIFICATE"@
}

/// The block replaces the private key.
pub open spec fn is_key_block(block: (Seq<char>, Seq<u8>)) -> bool {
    block.0 == "PRIVATE KEY"@ || block.0 == "RSA PRIVATE KEY"@
}

/// The block names a part of an identity: the certificate or the key.
pub open spec fn names_a_part(block: (Seq<char>, Seq<u8>)) -> bool {
    is_certificate_block(block) || is_key_block(block)
}

/// The file gives an identity nothing: it could not be read, it is no PEM
/// material, or none of its blocks names a part of an identity.
pub open spec fn file_names_no_part(file: Result<Seq<u8>, Seq<char>>) -> bool {
    match file {
        Err(_) => true,
        Ok(data) => match pem_blocks(data) {
            Err(_) => true,
            Ok(blocks) => forall|i: int|
                0 <= i < blocks.len() ==> !names_a_part(#[trigger] blocks[i]),
        },
    }
}

/// What is done with a block, by its tag.
#[derive(Debug, Clone, Copy, PartialEq, Eq, Structural)]
pub enum BlockAction {
    /// The block replaces the certificate.
    AddCertificate,
    /// The block replaces the key with a PKCS#8 key.
    AddPrivateKey,
    /// The block replaces the key with a PKCS#1 RSA key.
    AddRsaPrivateKey,
    /// The block is passed over.
    Ignore,
}

/// One block of a file, and what is done with it.
#[derive(Debug, Clone, PartialEq, Eq)]
pub struct BlockNote {
    pub tag: String,
    pub action: BlockAction,
}

/// What is done with a block of a tag.
pub open spec fn action_of(tag: Seq<char>) -> BlockAction {
    if tag == "CERTIFICATE"@ {
        BlockAction::AddCertificate
    } else if tag == "PRIVATE KEY"@ {
        BlockAction::AddPrivateKey
    } else if tag == "RSA PRIVATE KEY"@ {
        BlockAction::AddRsaPrivateKey
    } else {
        BlockAction::Ignore
    }
}

/// What is done with a block.
pub fn block_action(block: &PemBlock) -> (r: BlockAction)
    ensures
        r == action_of(block@.0),
{
    let tag = block.tag.as_str();
    if same_text(tag, "CERTIFICATE") {
        BlockAction::AddCertificate
    } else if same_text(tag, "PRIVATE KEY") {
        BlockAction::AddPrivateKey
    } else if same_text(tag, "RSA PRIVATE KEY") {
        BlockAction::AddRsaPrivateKey
    } else {
        BlockAction::Ignore
    }
}

/// What is done with each block of a PEM file, in the order of the
/// blocks; a file that is no PEM material has no blocks to report.
pub fn block_notes(data: &[u8]) -> (r: Result<Vec<BlockNote>, Error>)
    ensures
        match pem_blocks(data@) {
            Ok(blocks) => r matches Ok(notes) && notes@.len() == blocks.len() && forall|i: int|
                0 <= i < blocks.len() ==> (#[trigger] notes@[i]).tag@ == blocks[i].0
                    && notes@[i].action == action_of(blocks[i].0),
            Err(message) => r matches Err(error) && error@ == ErrorView::PemParse(message),
        },
{
    let blocks = match parse_pem_blocks(data) {
        Ok(blocks) => blocks,
        Err(message) => return Err(Error::PemParse(message)),
    };
    let mut notes: Vec<BlockNote> = Vec::new();
    let mut i: usize = 0;
    while i < blocks.len()
        invariant
            i <= blocks@.len(),
            notes@.len() == i,
            forall|j: int|
                0 <= j < i ==> (#[trigger] notes@[j]).tag@ == blocks@[j]@.0 && notes@[j].action
                    == action_of(blocks@[j]@.0),
        decreases blocks@.len() - i,
    {
        let action = block_action(&blocks[i]);
        notes.push(BlockNote { tag: blocks[i].tag.clone(), action });
        i += 1;
    }
    Ok(notes)
}

/// The block loads: it names no part of an identity, or it decodes as the
/// part it names.
pub open spec fn block_accepted(block: (Seq<char>, Seq<u8>)) -> bool {
    block_outcome(no_identity(), block) is Ok
}

/// The key a key block stands for.
pub open spec fn key_of_block(block: (Seq<char>, Seq<u8>)) -> PrivateKeyView {
    if block.0 == "PRIVATE KEY"@ {
        key_view(KeyEncoding::Pkcs8, block.1)
    } else {
        key_view(KeyEncoding::Pkcs1, block.1)
    }
}

/// The certificate that stays after the first `count` blocks: that of the
/// last `CERTIFICATE` block among them, or the one held before.
pub open spec fn last_certificate(
    held: Option<Seq<u8>>,
    blocks: Seq<(Seq<char>, Seq<u8>)>,
    count: nat,
) -> Option<Seq<u8>>
    decreases count,
{
    if count == 0 {
        held
    } else if is_certificate_block(blocks[count - 1]) {
        Some(blocks[count - 1].1)
    } else {
        last_certificate(held, blocks, (count - 1) as nat)
    }
}

/// The key that stays after the first `count` blocks: that of the last key
/// block among them, or the one held before.
pub open spec fn last_key(
    held: Option<PrivateKeyView>,
    blocks: Seq<(Seq<char>, Seq<u8>)>,
    count: nat,
) -> Option<PrivateKeyView>
    decreases count,
{
    if count == 0 {
        held
    } else if is_key_block(blocks[count - 1]) {
        Some(key_of_block(blocks[count - 1]))
    } else {
        last_key(held, blocks, (count - 1) as nat)
    }
}

/// The three tags that name a part of an identity differ from each other.
pub proof fn lemma_tags_differ()
    ensures
        "CERTIFICATE"@ != "PRIVATE KEY"@,
        "CERTIFICATE"@ != "RSA PRIVATE KEY"@,
        "PRIVATE KEY"@ != "RSA PRIVATE KEY"@,
{
    reveal_strlit("CERTIFICATE");
    reveal_strlit("PRIVATE KEY");
    reveal_strlit("RSA PRIVATE KEY");
    assert("CERTIFICATE"@[0] != "PRIVATE KEY"@[0]);
    assert("CERTIFICATE"@[0] != "RSA PRIVATE KEY"@[0]);
    assert("PRIVATE KEY"@[0] != "RSA PRIVATE KEY"@[0]);
}

/// Where every block among the first `count` loads, no failure stops them,
/// and each part of the identity is that of the last block that names it.
pub proof fn lemma_last_block_wins(
    identity: IdentityView,
    blocks: Seq<(Seq<char>, Seq<u8>)>,
    count: nat,
)
    requires
        count <= blocks.len(),
        forall|i: int| 0 <= i < count ==> block_accepted(#[trigger] blocks[i]),
    ensures
        blocks_outcome(identity, blocks, count) == (
            IdentityView {
                cert: last_certificate(identity.cert, blocks, count),
                key: last_key(identity.key, blocks, count),
            },
            None::<ErrorView>,
        ),
    decreases count,
{
    lemma_tags_differ();
    if count > 0 {
        lemma_last_block_wins(identity, blocks, (count - 1) as nat);
    }
}

/// With no `CERTIFICATE` block from `from` on, the certificate that stays
/// is the one that stayed before `from`.
pub proof fn lemma_last_certificate_skips(
    held: Option<Seq<u8>>,
    blocks: Seq<(Seq<char>, Seq<u8>)>,
    from: nat,
    count: nat,
)
    requires
        from <= count <= blocks.len(),
        forall|i: int| from <= i < count ==> !is_certificate_block(#[trigger] blocks[i]),
    ensures
        last_certificate(held, blocks, count) == last_certificate(held, blocks, from),
    decreases count,
{
    if from < count {
        lemma_last_certificate_skips(held, blocks, from, (count - 1) as nat);
    }
}

/// With no key block from `from` on, the key that stays is the one that
/// stayed before `from`.
pub proof fn lemma_last_key_skips(
    held: Option<PrivateKeyView>,
    blocks: Seq<(Seq<char>, Seq<u8>)>,
    from: nat,
    count: nat,
)
    requires
        from <= count <= blocks.len(),
        forall|i: int| from <= i < count ==> !is_key_block(#[trigger] blocks[i]),
    ensures
        last_key(held, blocks, count) == last_key(held, blocks, from),
    decreases count,
{
    if from < count {
        lemma_last_key_skips(held, blocks, from, (count - 1) as nat);
    }
}

/// A file whose blocks all load, with exactly one `CERTIFICATE` block and
/// exactly one key block among them, loads without failure to an identity
/// that holds both: the certificate of the one block and the key of the
/// other.
pub proof fn law_one_certificate_and_one_key_populate_both(
    data: Seq<u8>,
    blocks: Seq<(Seq<char>, Seq<u8>)>,
    certificate_at: int,
    key_at: int,
)
    requires
        pem_blocks(data) == Ok::<Seq<(Seq<char>, Seq<u8>)>, Seq<char>>(blocks),
        forall|i: int| 0 <= i < blocks.len() ==> block_accepted(#[trigger] blocks[i]),
        0 <= certificate_at < blocks.len(),
        0 <= key_at < blocks.len(),
        forall|i: int|
            0 <= i < blocks.len() ==> (is_certificate_block(#[trigger] blocks[i]) <==> i
                == certificate_at),
        forall|i: int|
            0 <= i < blocks.len() ==> (is_key_block(#[trigger] blocks[i]) <==> i == key_at),
    ensures
        file_outcome(no_identity(), Ok(data)) == (
            IdentityView {
                cert: Some(blocks[certificate_at].1),
                key: Some(key_of_block(blocks[key_at])),
            },
            None::<ErrorView>,
        ),
{
    let count = blocks.len();
    lemma_last_block_wins(no_identity(), blocks, count);
    lemma_last_certificate_skips(None, blocks, (certificate_at + 1) as nat, count);
    lemma_last_key_skips(None, blocks, (key_at + 1) as nat, count);
}

/// A file whose blocks all load, with two `CERTIFICATE` blocks among them
/// and no third, loads to an identity that holds the second of the two.
pub proof fn law_second_certificate_wins(
    data: Seq<u8>,
    blocks: Seq<(Seq<char>, Seq<u8>)>,
    first: int,
    second: int,
)
    requires
        pem_blocks(data) == Ok::<Seq<(Seq<char>, Seq<u8>)>, Seq<char>>(blocks),
        forall|i: int| 0 <= i < blocks.len() ==> block_accepted(#[trigger] blocks[i]),
        0 <= first < second < blocks.len(),
        forall|i: int|
            0 <= i < blocks.len() ==> (is_certificate_block(#[trigger] blocks[i]) <==> (i == first
                || i == second)),
    ensures
        file_outcome(no_identity(), Ok(data)).1 is None,
        file_outcome(no_identity(), Ok(data)).0.cert == Some(blocks[second].1),
{
    let count = blocks.len();
    lemma_last_block_wins(no_identity(), blocks, count);
    lemma_last_certificate_skips(None, blocks, (second + 1) as nat, count);
}

} // verus!
