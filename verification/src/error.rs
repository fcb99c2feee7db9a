//! The failures that the trust store reports to its callers.

use openssl::error::ErrorStack;
use vstd::prelude::*;

verus! {

/// Why an operation of the trust store failed.
#[derive(Debug)]
pub enum Error {
    /// The cryptographic backend rejected its input: the container is not a
    /// well-formed CMS structure, or its signature does not hold over its
    /// own content.
    OpenSsl(ErrorStack),
    /// The container is longer than the cryptographic backend can take.
    ContainerTooLarge,
    /// The container carries PEM encryption headers, which no signed
    /// container has.
    EncryptedContainer,
    /// No trusted issuer stands behind the certificate, or no signer of a
    /// container passed every check, or the trust anchors are not loaded yet.
    UnknownIssuerCert,
    /// The certificate is trusted, but the time asked about lies outside its
    /// validity window.
    InvalidTime,
    /// The signature over a trust list does not match its content.
    InvalidSignature,
    /// The signer of a trust list is not accepted by the policy in force.
    UntrustedSigner,
}

impl Error {
    /// A short description for logs.
    pub fn message(&self) -> (text: &'static str)
        ensures
            text@ == self.spec_message(),
    {
        match self {
            Error::OpenSsl(_) => "cryptographic backend rejected the input",
            Error::ContainerTooLarge => "container is too large",
            Error::EncryptedContainer => "container carries encryption headers",
            Error::UnknownIssuerCert => "unknown issuer certificate",
            Error::InvalidTime => "certificate is not valid at the given time",
            Error::InvalidSignature => "trust list signature does not match",
            Error::UntrustedSigner => "trust list signer is not trusted",
        }
    }

    /// The text of [`Error::message`].
    pub open spec fn spec_message(&self) -> Seq<char> {
        match self {
            Error::OpenSsl(_) => "cryptographic backend rejected the input"@,
            Error::ContainerTooLarge => "container is too large"@,
            Error::EncryptedContainer => "container carries encryption headers"@,
            Error::UnknownIssuerCert => "unknown issuer certificate"@,
            Error::InvalidTime => "certificate is not valid at the given time"@,
            Error::InvalidSignature => "trust list signature does not match"@,
            Error::UntrustedSigner => "trust list signer is not trusted"@,
        }
    }
}

} // verus!
