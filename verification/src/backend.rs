//! The calls into OpenSSL that the trust store relies on. Nothing in this
//! file is proved: each contract states what the library assumes of the
//! function it names.

use openssl::asn1::Asn1Time;
use openssl::cms::{CMSOptions, CmsContentInfo};
use openssl::ec::EcKey;
use openssl::error::ErrorStack;
use openssl::pkey::Private;
use openssl::x509::store::{X509Store, X509StoreBuilder};
use openssl::x509::X509;
use crate::pem::names_encryption;
use vstd::prelude::*;
use vstd::string::StringSliceAdditionalSpecFns;

verus! {

/// `openssl::error::ErrorStack`, carried through as an opaque value.
#[verifier::external_type_specification]
#[verifier::external_body]
pub struct ExErrorStack(ErrorStack);

/// `openssl::cms::CmsContentInfo`, a parsed CMS container, carried through
/// as an opaque value.
#[verifier::external_type_specification]
#[verifier::external_body]
pub struct ExCmsContentInfo(CmsContentInfo);

/// `openssl::x509::X509`, a decoded certificate, carried through as an
/// opaque value.
#[verifier::external_type_specification]
#[verifier::external_body]
pub struct ExX509(X509);

/// `openssl::x509::store::X509Store`, a set of certificates for chain
/// verification, carried through as an opaque value.
#[verifier::external_type_specification]
#[verifier::external_body]
pub struct ExX509Store(X509Store);

/// `openssl::ec::EcKey`, an elliptic-curve key, carried through as an
/// opaque value.
#[verifier::external_type_specification]
#[verifier::external_body]
#[verifier::reject_recursive_types(T)]
pub struct ExEcKey<T>(EcKey<T>);

/// `openssl::pkey::Private`, the tag of a key that has its private part.
#[verifier::external_type_specification]
#[verifier::external_body]
pub struct ExPrivate(Private);

/// Whether the certificate encoded by `cert` carries a signature that
/// verifies under the public key of the certificate encoded by `issuer`.
/// False where either encoding is not an X.509 certificate.
pub uninterp spec fn x509_signed_by(cert: Seq<u8>, issuer: Seq<u8>) -> bool;

/// `X509Ref::verify` on the two certificates, decoded with `X509::from_der`,
/// under the key that `X509Ref::public_key` gives for `issuer`. Assumed: the
/// verdict depends on the two encodings alone. An encoding that does not
/// decode, and a signature that cannot be checked, count as not signed.
#[verifier::external_body]
pub(crate) fn signed_by(cert: &Vec<u8>, issuer: &Vec<u8>) -> (signed: bool)
    ensures
        signed == x509_signed_by(cert@, issuer@),
{
    let decoded = (X509::from_der(cert), X509::from_der(issuer));
    match decoded {
        (Ok(cert), Ok(issuer)) => match issuer.public_key() {
            Ok(key) => cert.verify(&key).unwrap_or(false),
            Err(_) => false,
        },
        _ => false,
    }
}

/// The validity window of the certificate encoded by `cert`: its first and
/// its last moment, each as whole days and remaining seconds since the Unix
/// epoch. `None` where the encoding is not an X.509 certificate.
pub uninterp spec fn x509_validity(cert: Seq<u8>) -> Option<((int, int), (int, int))>;

/// `Asn1TimeRef::diff` from the Unix epoch, which `Asn1Time::from_unix`
/// gives, to `X509Ref::not_before` and to `X509Ref::not_after` of the
/// certificate that `X509::from_der` decodes. Assumed: the outcome depends
/// on the encoding alone.
#[verifier::external_body]
pub(crate) fn validity(cert: &Vec<u8>) -> (window: Result<((i32, i32), (i32, i32)), ErrorStack>)
    ensures
        match window {
            Ok(window) => x509_validity(cert@) == Some(
                (
                    (window.0.0 as int, window.0.1 as int),
                    (window.1.0 as int, window.1.1 as int),
                ),
            ),
            Err(_) => x509_validity(cert@) is None,
        },
{
    let cert = X509::from_der(cert)?;
    let epoch = Asn1Time::from_unix(0)?;
    let first = epoch.diff(cert.not_before())?;
    let last = epoch.diff(cert.not_after())?;
    Ok(((first.days, first.secs), (last.days, last.secs)))
}

/// `X509StoreBuilder::new` and `X509StoreBuilder::build`: a store that
/// holds no certificate. Nothing is assumed of the outcome.
#[verifier::external_body]
pub(crate) fn empty_store() -> (store: Result<X509Store, ErrorStack>) {
    Ok(X509StoreBuilder::new()?.build())
}

/// Whether `container` is the PEM encoding of a CMS structure.
pub uninterp spec fn pem_holds_cms(container: Seq<char>) -> bool;

/// `CmsContentInfo::from_pem` on the bytes of `pem`. It panics on more
/// bytes than a C `int` counts, and on a text with encryption headers it
/// asks the terminal for a pass phrase: both are left out. Assumed: whether
/// any other text decodes depends on the text alone.
#[verifier::external_body]
pub(crate) fn read_container(pem: &str) -> (parsed: Result<CmsContentInfo, ErrorStack>)
    requires
        pem.spec_bytes().len() <= i32::MAX,
        !names_encryption(pem.spec_bytes()),
    ensures
        parsed is Ok <==> pem_holds_cms(pem@),
{
    CmsContentInfo::from_pem(pem.as_bytes())
}

/// The content that the CMS structure with the PEM encoding `container`
/// embeds, where every signature of the structure holds over that content;
/// `None` where a signature does not hold or `container` encodes no CMS
/// structure.
pub uninterp spec fn cms_signed_content(container: Seq<char>) -> Option<Seq<u8>>;

/// `CmsContentInfo::verify` on what `CmsContentInfo::from_pem` decodes from
/// `pem`, without certificates or detached data and with
/// `CMSOptions::NOVERIFY`: the signatures are checked against the content
/// that the container embeds, no certificate chain is, so that `store` is
/// handed over and never looked into. The same texts are left out as for
/// [`read_container`]. Assumed: the outcome depends on the text alone.
#[verifier::external_body]
pub(crate) fn signed_content(pem: &str, store: &X509Store) -> (content: Result<
    Vec<u8>,
    ErrorStack,
>)
    requires
        pem.spec_bytes().len() <= i32::MAX,
        !names_encryption(pem.spec_bytes()),
    ensures
        match content {
            Ok(bytes) => cms_signed_content(pem@) == Some(bytes@),
            Err(_) => cms_signed_content(pem@) is None,
        },
{
    let mut cms = CmsContentInfo::from_pem(pem.as_bytes())?;
    let mut data = Vec::new();
    cms.verify(None, Some(&**store), None, Some(&mut data), CMSOptions::NOVERIFY)?;
    Ok(data)
}

} // verus!
