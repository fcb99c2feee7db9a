//! The trust store: the gateway's own key and certificate, the slots of the
//! refreshed resources, and the verification of signed containers against
//! the trust anchors that are current.

use crate::backend::{
    cms_signed_content, empty_store, pem_holds_cms, read_container, signed_content,
};
use crate::cert::CertificateView;
use crate::cms::{authoritative_time, conclude, signers_view, SignerInfo, SignerInfoView};
use crate::error::Error;
use crate::pem::{frame_within, framed, has_encryption_header, names_encryption};
use crate::puk_token::PukToken;
use crate::registry::{certs_of, CertList, OcspList};
use crate::slot::Slot;
use crate::refresh::{Pause, Round, Schedule};
use crate::tsl::{ServiceKind, SignerPolicy, TrustListDocument, Tsl, TslView};
use openssl::ec::EcKey;
use openssl::pkey::Private;
use openssl::x509::store::X509Store;
use openssl::x509::X509;
use std::sync::Arc;
use vstd::prelude::*;
use vstd::utf8::encode_utf8;

verus! {

/// The state of the trust store. The key and the certificate are fixed
/// when it is built; each slot is empty until its first value is published.
pub struct PkiStore {
    enc_key: Arc<EcKey<Private>>,
    enc_cert: Arc<X509>,
    tsl: Slot<Tsl>,
    bnetza: Slot<Tsl>,
    puk_token: Slot<PukToken>,
    cert_list: CertList,
    ocsp_list: OcspList,
    ocsp_vau: Slot<Vec<u8>>,
    dummy_store: Arc<X509Store>,
}

/// The mathematical value of a [`PkiStore`].
pub struct PkiStoreView {
    pub enc_key: EcKey<Private>,
    pub enc_cert: X509,
    pub tsl: Option<TslView>,
    pub bnetza: Option<TslView>,
    pub puk_token: Option<PukToken>,
    pub cert_list: Option<Seq<CertificateView>>,
    pub ocsp_list: Option<Seq<CertificateView>>,
    pub ocsp_vau: Option<Seq<u8>>,
}

impl View for PkiStore {
    type V = PkiStoreView;

    closed spec fn view(&self) -> PkiStoreView {
        PkiStoreView {
            enc_key: *self.enc_key,
            enc_cert: *self.enc_cert,
            tsl: match self.tsl@ {
                Some(tsl) => Some(tsl@),
                None => None,
            },
            bnetza: match self.bnetza@ {
                Some(tsl) => Some(tsl@),
                None => None,
            },
            puk_token: self.puk_token@,
            cert_list: self.cert_list@,
            ocsp_list: self.ocsp_list@,
            ocsp_vau: match self.ocsp_vau@ {
                Some(response) => Some(response@),
                None => None,
            },
        }
    }
}

/// The longest container, in bytes, that the backend takes.
pub const MAX_CONTAINER_BYTES: usize = 0x7fff_ffff;

/// What [`PkiStore::verify_cms`] returns for the input `pem` and these
/// signers under these anchors.
///
/// The input is framed first. A framed container of more than
/// [`MAX_CONTAINER_BYTES`] bytes is `ContainerTooLarge`; one with the
/// marker of encryption headers is `EncryptedContainer`; one that is no CMS
/// structure is the backend's error; one that is, while no anchors are
/// loaded, is `UnknownIssuerCert`. With anchors loaded, a container whose
/// signatures do not hold over its content is the backend's error; any
/// other yields its content with the authoritative signing time, or
/// `UnknownIssuerCert` where no signer counts.
pub open spec fn verification_allows(
    pem: Seq<char>,
    anchors: Option<TslView>,
    signers: Seq<SignerInfoView>,
    check_profession: bool,
    outcome: Result<(Vec<u8>, i64), Error>,
) -> bool {
    let container = framed(pem);
    if encode_utf8(container).len() > MAX_CONTAINER_BYTES {
        outcome matches Err(Error::ContainerTooLarge)
    } else if names_encryption(encode_utf8(container)) {
        outcome matches Err(Error::EncryptedContainer)
    } else if !pem_holds_cms(container) {
        outcome matches Err(Error::OpenSsl(_))
    } else {
        match anchors {
            None => outcome matches Err(Error::UnknownIssuerCert),
            Some(current) => match cms_signed_content(container) {
                None => outcome matches Err(Error::OpenSsl(_)),
                Some(bytes) => match authoritative_time(signers, current, check_profession) {
                    Some(time) => outcome matches Ok(verified) && verified.0@ == bytes
                        && verified.1 == time,
                    None => outcome matches Err(Error::UnknownIssuerCert),
                },
            },
        }
    }
}

impl Clone for PkiStore {
    /// A second handle on the state as it is now: the key, the certificate
    /// and every published value are shared, not copied.
    fn clone(&self) -> (copy: PkiStore)
        ensures
            copy@ == self@,
    {
        PkiStore {
            enc_key: Arc::clone(&self.enc_key),
            enc_cert: Arc::clone(&self.enc_cert),
            tsl: self.tsl.clone(),
            bnetza: self.bnetza.clone(),
            puk_token: self.puk_token.clone(),
            cert_list: self.cert_list.clone(),
            ocsp_list: self.ocsp_list.clone(),
            ocsp_vau: self.ocsp_vau.clone(),
            dummy_store: Arc::clone(&self.dummy_store),
        }
    }
}

impl PkiStore {
    /// A store that owns `enc_key` and `enc_cert` and has nothing loaded.
    /// It fails with the backend's error where the backend cannot build the
    /// empty verification store that the signature check is handed.
    pub fn new(enc_key: EcKey<Private>, enc_cert: X509) -> (built: Result<PkiStore, Error>)
        ensures
            match built {
                Ok(store) => {
                    &&& store@.enc_key == enc_key
                    &&& store@.enc_cert == enc_cert
                    &&& store@.tsl is None
                    &&& store@.bnetza is None
                    &&& store@.puk_token is None
                    &&& store@.cert_list is None
                    &&& store@.ocsp_list is None
                    &&& store@.ocsp_vau is None
                },
                Err(error) => error is OpenSsl,
            },
    {
        let dummy_store = match empty_store() {
            Ok(store) => store,
            Err(stack) => return Err(Error::OpenSsl(stack)),
        };
        Ok(PkiStore {
            enc_key: Arc::new(enc_key),
            enc_cert: Arc::new(enc_cert),
            tsl: Slot::empty(),
            bnetza: Slot::empty(),
            puk_token: Slot::empty(),
            cert_list: CertList::new(),
            ocsp_list: OcspList::new(),
            ocsp_vau: Slot::empty(),
            dummy_store: Arc::new(dummy_store),
        })
    }

    /// The gateway's own encryption key.
    pub fn enc_key(&self) -> (key: &EcKey<Private>)
        ensures
            *key == self@.enc_key,
    {
        &self.enc_key
    }

    /// The gateway's own encryption certificate.
    pub fn enc_cert(&self) -> (cert: &X509)
        ensures
            *cert == self@.enc_cert,
    {
        &self.enc_cert
    }

    /// A snapshot of the identity provider's key material.
    pub fn puk_token(&self) -> (snapshot: Option<Arc<PukToken>>)
        ensures
            match snapshot {
                Some(token) => self@.puk_token == Some(*token),
                None => self@.puk_token is None,
            },
    {
        self.puk_token.load()
    }

    /// A snapshot of the primary trust list.
    pub fn tsl(&self) -> (snapshot: Option<Arc<Tsl>>)
        ensures
            match snapshot {
                Some(tsl) => self@.tsl == Some(tsl@),
                None => self@.tsl is None,
            },
    {
        self.tsl.load()
    }

    /// A snapshot of the secondary trust list, against which signed
    /// containers are verified.
    pub fn bnetza(&self) -> (snapshot: Option<Arc<Tsl>>)
        ensures
            match snapshot {
                Some(tsl) => self@.bnetza == Some(tsl@),
                None => self@.bnetza is None,
            },
    {
        self.bnetza.load()
    }

    /// A snapshot of the OCSP response for the gateway's own certificate.
    pub fn ocsp_vau(&self) -> (snapshot: Option<Arc<Vec<u8>>>)
        ensures
            match snapshot {
                Some(response) => self@.ocsp_vau == Some(response@),
                None => self@.ocsp_vau is None,
            },
    {
        self.ocsp_vau.load()
    }

    /// The registry of certificate authorities.
    pub fn cert_list(&self) -> (list: &CertList)
        ensures
            list@ == self@.cert_list,
    {
        &self.cert_list
    }

    /// The registry of OCSP responders.
    pub fn ocsp_list(&self) -> (list: &OcspList)
        ensures
            list@ == self@.ocsp_list,
    {
        &self.ocsp_list
    }

    /// Settles one round of the loop that refreshes the primary trust list.
    /// A list whose signature matched and whose signer the policy accepts
    /// replaces the current one; after any failure the store is as before.
    pub fn settle_tsl(
        &mut self,
        schedule: &Schedule,
        fetched: Option<TrustListDocument>,
        policy: &SignerPolicy,
    ) -> (pause: Pause)
        ensures
            match fetched {
                Some(document) if document.acceptable(policy) => {
                    &&& final(self)@ == (PkiStoreView { tsl: Some(document.listed()), ..old(self)@ })
                    &&& pause == schedule.after_success()
                },
                _ => final(self)@ == old(self)@ && pause == schedule.after_failure(),
            },
    {
        schedule.settle_trust_list(&mut self.tsl, fetched, policy)
    }

    /// Settles one round of the loop that refreshes the secondary trust
    /// list, as [`PkiStore::settle_tsl`] does for the primary one.
    pub fn settle_bnetza(
        &mut self,
        schedule: &Schedule,
        fetched: Option<TrustListDocument>,
        policy: &SignerPolicy,
    ) -> (pause: Pause)
        ensures
            match fetched {
                Some(document) if document.acceptable(policy) => {
                    &&& final(self)@ == (PkiStoreView { bnetza: Some(document.listed()), ..old(self)@ })
                    &&& pause == schedule.after_success()
                },
                _ => final(self)@ == old(self)@ && pause == schedule.after_failure(),
            },
    {
        schedule.settle_trust_list(&mut self.bnetza, fetched, policy)
    }

    /// Settles one round of the loop that refreshes the identity provider's
    /// key material: new material replaces the current one, a failure
    /// leaves it in place.
    pub fn settle_puk_token(&mut self, schedule: &Schedule, round: Round<PukToken>) -> (pause: Pause)
        ensures
            match round {
                Round::Verified(token) => {
                    &&& final(self)@ == (PkiStoreView { puk_token: Some(token), ..old(self)@ })
                    &&& pause == schedule.after_success()
                },
                _ => final(self)@ == old(self)@ && pause == schedule.after_failure(),
            },
    {
        schedule.settle(&mut self.puk_token, round)
    }

    /// Settles one round of the loop that refreshes the OCSP response for
    /// the gateway's own certificate.
    pub fn settle_ocsp_vau(&mut self, schedule: &Schedule, round: Round<Vec<u8>>) -> (pause: Pause)
        ensures
            match round {
                Round::Verified(response) => {
                    &&& final(self)@ == (PkiStoreView { ocsp_vau: Some(response@), ..old(self)@ })
                    &&& pause == schedule.after_success()
                },
                _ => final(self)@ == old(self)@ && pause == schedule.after_failure(),
            },
    {
        schedule.settle(&mut self.ocsp_vau, round)
    }

    /// Computes the registry of certificate authorities anew from the
    /// primary trust list that is current. While no list is loaded the
    /// registry stays as it is.
    pub fn recompute_cert_list(&mut self)
        ensures
            final(self)@ == (PkiStoreView {
                cert_list: match old(self)@.tsl {
                    Some(tsl) => Some(certs_of(tsl.items, ServiceKind::CertificateAuthority)),
                    None => old(self)@.cert_list,
                },
                ..old(self)@
            }),
    {
        match self.tsl.load() {
            Some(tsl) => self.cert_list.recompute(&tsl),
            None => {},
        }
    }

    /// Computes the registry of OCSP responders anew from the primary trust
    /// list that is current. While no list is loaded the registry stays as
    /// it is.
    pub fn recompute_ocsp_list(&mut self)
        ensures
            final(self)@ == (PkiStoreView {
                ocsp_list: match old(self)@.tsl {
                    Some(tsl) => Some(certs_of(tsl.items, ServiceKind::OcspResponder)),
                    None => old(self)@.ocsp_list,
                },
                ..old(self)@
            }),
    {
        match self.tsl.load() {
            Some(tsl) => self.ocsp_list.recompute(&tsl),
            None => {},
        }
    }

    /// Verifies a signed container against the secondary trust list.
    ///
    /// `pem` is the container, with or without its PEM framing, and
    /// `signers` are its signer-infos in their order. The container is
    /// framed and must parse, the anchors must be loaded, the backend checks
    /// the signatures over the embedded content, and the signers are held
    /// against the anchors, each at its own signing time. The result is the
    /// embedded content and the latest signing time of a signer that
    /// counts. The backend decodes the text twice: once to tell input that
    /// is no container from anchors that are missing, and once for the
    /// signatures.
    pub fn verify_cms(&self, pem: &str, signers: &Vec<SignerInfo>, check_profession: bool) -> (outcome:
        Result<(Vec<u8>, i64), Error>)
        ensures
            verification_allows(
                pem@,
                self@.bnetza,
                signers_view(signers@),
                check_profession,
                outcome,
            ),
    {
        let container = match frame_within(pem, MAX_CONTAINER_BYTES) {
            Some(container) => container,
            None => return Err(Error::ContainerTooLarge),
        };
        if has_encryption_header(container.as_str()) {
            return Err(Error::EncryptedContainer);
        }
        if let Err(stack) = read_container(container.as_str()) {
            return Err(Error::OpenSsl(stack));
        }
        let anchors = match self.bnetza.load() {
            Some(anchors) => anchors,
            None => return Err(Error::UnknownIssuerCert),
        };
        let content = signed_content(container.as_str(), &self.dummy_store);
        conclude(&anchors, content, signers, check_profession)
    }
}

} // verus!
