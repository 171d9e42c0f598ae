//! The failures the library reports.

use vstd::prelude::*;
use vstd::string::StringExecFns;

verus! {

/// Why signing a target failed.
#[derive(Debug, Clone, PartialEq, Eq)]
pub enum TargetFailure {
    /// The target is nested inside a bundle that stands before it in the list.
    OutOfOrder,
    /// The target has to carry entitlements and none were resolved for it.
    EntitlementsMissing,
    /// The code-signing operation itself failed, with its message.
    Signing(String),
}

/// A failure of the library.
#[derive(Debug, Clone, PartialEq, Eq)]
pub enum Error {
    /// A file could not be read; holds the message of the read.
    Io(String),
    /// PEM material is malformed.
    PemParse(String),
    /// A `CERTIFICATE` block does not hold a DER-encoded X.509 certificate.
    CertificateDecode(String),
    /// A private-key block does not hold a key in the encoding its tag names.
    KeyDecode(String),
    /// A binary is not a well-formed Mach-O container.
    MachOParse(String),
    /// No file stands at a provisioning profile's path.
    ProfileNotFound,
    /// A provisioning profile holds no usable entitlements.
    MalformedProfile(String),
    /// Signing with an identity was asked for, and the certificate or its
    /// private key is absent.
    MissingCertificate,
    /// Signing one target failed; the pass stops there.
    TargetSign { target: String, cause: TargetFailure },
}

/// A `TargetFailure` with its texts as sequences of characters.
pub enum TargetFailureView {
    OutOfOrder,
    EntitlementsMissing,
    Signing(Seq<char>),
}

/// An `Error` with its texts as sequences of characters.
pub enum ErrorView {
    Io(Seq<char>),
    PemParse(Seq<char>),
    CertificateDecode(Seq<char>),
    KeyDecode(Seq<char>),
    MachOParse(Seq<char>),
    ProfileNotFound,
    MalformedProfile(Seq<char>),
    MissingCertificate,
    TargetSign { target: Seq<char>, cause: TargetFailureView },
}

impl View for TargetFailure {
    type V = TargetFailureView;

    open spec fn view(&self) -> TargetFailureView {
        match self {
            TargetFailure::OutOfOrder => TargetFailureView::OutOfOrder,
            TargetFailure::EntitlementsMissing => TargetFailureView::EntitlementsMissing,
            TargetFailure::Signing(message) => TargetFailureView::Signing(message@),
        }
    }
}

impl View for Error {
    type V = ErrorView;

    open spec fn view(&self) -> ErrorView {
        match self {
            Error::Io(message) => ErrorView::Io(message@),
            Error::PemParse(message) => ErrorView::PemParse(message@),
            Error::CertificateDecode(message) => ErrorView::CertificateDecode(message@),
            Error::KeyDecode(message) => ErrorView::KeyDecode(message@),
            Error::MachOParse(message) => ErrorView::MachOParse(message@),
            Error::ProfileNotFound => ErrorView::ProfileNotFound,
            Error::MalformedProfile(message) => ErrorView::MalformedProfile(message@),
            Error::MissingCertificate => ErrorView::MissingCertificate,
            Error::TargetSign { target, cause } => ErrorView::TargetSign {
                target: target@,
                cause: cause@,
            },
        }
    }
}

/// A text followed by another.
fn joined(head: &str, tail: &str) -> (r: String)
    ensures
        r@ == head@ + tail@,
{
    let mut text = head.to_owned();
    text.append(tail);
    text
}

impl TargetFailure {
    /// The failure in words.
    pub open spec fn description(self) -> Seq<char> {
        match self {
            TargetFailure::OutOfOrder => "it is nested inside a bundle that was listed before it"@,
            TargetFailure::EntitlementsMissing => "it has no entitlements"@,
            TargetFailure::Signing(message) => message@,
        }
    }

    /// The failure in words.
    pub fn describe(&self) -> (r: String)
        ensures
            r@ == self.description(),
    {
        match self {
            TargetFailure::OutOfOrder => {
                "it is nested inside a bundle that was listed before it".to_owned()
            },
            TargetFailure::EntitlementsMissing => "it has no entitlements".to_owned(),
            TargetFailure::Signing(message) => message.clone(),
        }
    }
}

impl Error {
    /// The failure in words: what failed, then the message it came with.
    pub open spec fn description(self) -> Seq<char> {
        match self {
            Error::Io(message) => "I/O error: "@ + message@,
            Error::PemParse(message) => "Certificate PEM error: "@ + message@,
            Error::CertificateDecode(message) => "X509 certificate error: "@ + message@,
            Error::KeyDecode(message) => "Private key error: "@ + message@,
            Error::MachOParse(message) => "Mach-O error: "@ + message@,
            Error::ProfileNotFound => "Provisioning profile not found"@,
            Error::MalformedProfile(message) => "Entitlements not found: "@ + message@,
            Error::MissingCertificate => "Missing certificate PEM data"@,
            Error::TargetSign { target, cause } => "Signing failed for "@ + target@ + ": "@
                + cause.description(),
        }
    }

    /// The failure in words.
    pub fn describe(&self) -> (r: String)
        ensures
            r@ == self.description(),
    {
        match self {
            Error::Io(message) => joined("I/O error: ", message.as_str()),
            Error::PemParse(message) => joined("Certificate PEM error: ", message.as_str()),
            Error::CertificateDecode(message) => joined(
                "X509 certificate error: ",
                message.as_str(),
            ),
            Error::KeyDecode(message) => joined("Private key error: ", message.as_str()),
            Error::MachOParse(message) => joined("Mach-O error: ", message.as_str()),
            Error::ProfileNotFound => "Provisioning profile not found".to_owned(),
            Error::MalformedProfile(message) => joined(
                "Entitlements not found: ",
                message.as_str(),
            ),
            Error::MissingCertificate => "Missing certificate PEM data".to_owned(),
            Error::TargetSign { target, cause } => {
                let subject = joined("Signing failed for ", target.as_str());
                let opening = joined(subject.as_str(), ": ");
                let reason = cause.describe();
                joined(opening.as_str(), reason.as_str())
            },
        }
    }
}

} // verus!
