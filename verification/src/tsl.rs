//! The trust anchor set: the entities that a signed trust list vouches for,
//! and the check of a certificate against them at a given time.

use crate::backend::{signed_by, x509_signed_by};
use crate::cert::{Certificate, CertificateView};
use crate::error::Error;
use vstd::prelude::*;

verus! {

/// The role that a trust list declares for one of its entities.
#[derive(Debug, Clone, Copy, PartialEq, Eq, Structural)]
pub enum ServiceKind {
    /// A certificate authority that issues end-entity certificates.
    CertificateAuthority,
    /// A responder that answers certificate status requests.
    OcspResponder,
    /// Any other service.
    Other,
}

/// One trusted entity of a trust list: a certificate and what the list
/// declares about it.
#[derive(Debug)]
pub struct Item {
    /// The key under which the list groups the entity with others, such as
    /// the identifier of its issuer or service.
    pub key: String,
    /// The certificate of the entity.
    pub cert: Certificate,
    /// The declared role of the entity.
    pub service: ServiceKind,
    /// The revocation status: `None` where the list does not track it,
    /// `Some(true)` where the entity is revoked.
    pub revoked: Option<bool>,
}

/// The mathematical value of an [`Item`].
pub struct ItemView {
    pub key: Seq<char>,
    pub cert: CertificateView,
    pub service: ServiceKind,
    pub revoked: Option<bool>,
}

impl ItemView {
    /// The entity may be relied on: it is not known to be revoked.
    pub open spec fn usable(self) -> bool {
        self.revoked != Some(true)
    }

    /// The entity is usable, and `cert` is its own certificate or carries a
    /// signature that its key verifies.
    pub open spec fn vouches_for(self, cert: CertificateView) -> bool {
        self.usable() && (self.cert.der == cert.der || x509_signed_by(cert.der, self.cert.der))
    }
}

impl View for Item {
    type V = ItemView;

    open spec fn view(&self) -> ItemView {
        ItemView { key: self.key@, cert: self.cert@, service: self.service, revoked: self.revoked }
    }
}

impl Clone for Item {
    fn clone(&self) -> (copy: Item)
        ensures
            copy@ == self@,
    {
        Item {
            key: self.key.clone(),
            cert: self.cert.clone(),
            service: self.service,
            revoked: self.revoked,
        }
    }
}

impl Item {
    /// Whether the entity is not known to be revoked.
    pub fn is_usable(&self) -> (usable: bool)
        ensures
            usable == self@.usable(),
    {
        match self.revoked {
            Some(revoked) => !revoked,
            None => true,
        }
    }

    /// Whether the entity is usable, and `cert` is its own certificate or
    /// carries a signature that its key verifies.
    pub fn vouches_for(&self, cert: &Certificate) -> (vouches: bool)
        ensures
            vouches == self@.vouches_for(cert@),
    {
        self.is_usable() && (same_bytes(self.cert.der(), cert.der()) || signed_by(
            cert.der(),
            self.cert.der(),
        ))
    }
}

/// Which entities of a trust list are asked for.
#[derive(Debug)]
pub enum Selection {
    /// Every entity.
    All,
    /// The entities that are declared as this kind of service.
    Service(ServiceKind),
    /// The entities that the list groups under this key.
    Key(String),
}

impl Selection {
    /// The selection takes `item`.
    pub open spec fn admits(&self, item: ItemView) -> bool {
        match self {
            Selection::All => true,
            Selection::Service(kind) => item.service == *kind,
            Selection::Key(key) => item.key == key@,
        }
    }

    /// The test that the selection takes an entity.
    pub open spec fn test(&self) -> spec_fn(ItemView) -> bool {
        |item: ItemView| self.admits(item)
    }

    /// Whether the selection takes `item`.
    pub fn is_admitted(&self, item: &Item) -> (admitted: bool)
        ensures
            admitted == self.admits(item@),
    {
        match self {
            Selection::All => true,
            Selection::Service(kind) => item.service == *kind,
            Selection::Key(key) => item.key == *key,
        }
    }
}

/// The certificate of an entity.
pub open spec fn cert_of() -> spec_fn(ItemView) -> CertificateView {
    |item: ItemView| item.cert
}

/// The certificates of the entities of `items` that `selection` takes, in
/// the order of the list.
pub open spec fn selected(items: Seq<ItemView>, selection: &Selection) -> Seq<CertificateView> {
    items.filter(selection.test()).map_values(cert_of())
}

/// The values of a sequence of items, in order.
pub open spec fn items_view(items: Seq<Item>) -> Seq<ItemView> {
    items.map_values(|item: Item| item@)
}

/// The values of a sequence of certificates, in order.
pub open spec fn certs_view(certs: Seq<Certificate>) -> Seq<CertificateView> {
    certs.map_values(|cert: Certificate| cert@)
}

/// Some entity of `items` vouches for `cert`.
pub open spec fn some_vouches(items: Seq<ItemView>, cert: CertificateView) -> bool {
    exists|i: int| 0 <= i < items.len() && (#[trigger] items[i]).vouches_for(cert)
}

/// The time against which the validity window of a certificate is held.
#[derive(Debug, Clone, Copy, PartialEq, Eq, Structural)]
pub enum TimeCheck {
    /// The validity window is not looked at.
    Unchecked,
    /// The window must include this time, in seconds since the Unix epoch.
    Time(i64),
}

impl TimeCheck {
    /// The check lets `cert` pass.
    pub open spec fn admits(self, cert: CertificateView) -> bool {
        match self {
            TimeCheck::Unchecked => true,
            TimeCheck::Time(time) => cert.valid_at(time as int),
        }
    }

    /// Whether the check lets `cert` pass.
    pub fn is_admitted(self, cert: &Certificate) -> (admitted: bool)
        ensures
            admitted == self.admits(cert@),
    {
        match self {
            TimeCheck::Unchecked => true,
            TimeCheck::Time(time) => cert.is_valid_at(time),
        }
    }
}

/// Who may sign a trust list.
#[derive(Debug)]
pub enum SignerPolicy {
    /// Every signer is accepted.
    AcceptAny,
    /// The signer's certificate must be signed by one of these roots.
    IssuedBy(Vec<Certificate>),
}

impl SignerPolicy {
    /// The policy accepts `signer` as the signer of a trust list.
    pub open spec fn accepts(&self, signer: CertificateView) -> bool {
        match self {
            SignerPolicy::AcceptAny => true,
            SignerPolicy::IssuedBy(roots) => exists|i: int|
                0 <= i < roots@.len() && x509_signed_by(signer.der, (#[trigger] roots@[i])@.der),
        }
    }

    /// Whether the policy accepts `signer` as the signer of a trust list.
    pub fn is_accepted(&self, signer: &Certificate) -> (accepted: bool)
        ensures
            accepted == self.accepts(signer@),
    {
        match self {
            SignerPolicy::AcceptAny => true,
            SignerPolicy::IssuedBy(roots) => {
                let mut i: usize = 0;
                while i < roots.len()
                    invariant
                        i <= roots.len(),
                        *self == SignerPolicy::IssuedBy(*roots),
                        forall|j: int|
                            0 <= j < i ==> !x509_signed_by(
                                signer@.der,
                                (#[trigger] roots@[j])@.der,
                            ),
                    decreases roots.len() - i,
                {
                    if signed_by(signer.der(), roots[i].der()) {
                        assert(x509_signed_by(signer@.der, roots@[i as int]@.der));
                        return true;
                    }
                    i += 1;
                }
                false
            },
        }
    }
}

/// A trust list as read from its document, before anything is decided.
#[derive(Debug)]
pub struct TrustListDocument {
    /// The raw document.
    pub xml: String,
    /// The content hash that came with the document, if any.
    pub sha2: Option<String>,
    /// The entities that the document lists, in its order.
    pub records: Vec<Item>,
    /// The certificate whose key the document's signature names.
    pub signer: Certificate,
    /// Whether the signature, recomputed over the canonicalized content,
    /// matched under the signer's key.
    pub signature_matches: bool,
}

impl TrustListDocument {
    /// The document may be relied on under `policy`: its signature matched
    /// and the policy accepts its signer.
    pub open spec fn acceptable(&self, policy: &SignerPolicy) -> bool {
        self.signature_matches && policy.accepts(self.signer@)
    }

    /// The trust list that the document stands for.
    pub open spec fn listed(&self) -> TslView {
        TslView {
            xml: self.xml@,
            sha2: match self.sha2 {
                Some(hash) => Some(hash@),
                None => None,
            },
            items: items_view(self.records@),
        }
    }
}

/// A verified trust list. It is never changed after it was built; a newer
/// list replaces it as a whole.
#[derive(Debug)]
pub struct Tsl {
    xml: String,
    sha2: Option<String>,
    items: Vec<Item>,
}

/// The mathematical value of a [`Tsl`].
pub struct TslView {
    pub xml: Seq<char>,
    pub sha2: Option<Seq<char>>,
    pub items: Seq<ItemView>,
}

impl TslView {
    /// Some entity of the list vouches for `cert`.
    pub open spec fn trusts(self, cert: CertificateView) -> bool {
        some_vouches(self.items, cert)
    }

    /// `cert` passes [`Tsl::verify_cert`] under `check`.
    pub open spec fn verifies(self, cert: CertificateView, check: TimeCheck) -> bool {
        self.trusts(cert) && check.admits(cert)
    }
}

impl View for Tsl {
    type V = TslView;

    closed spec fn view(&self) -> TslView {
        TslView {
            xml: self.xml@,
            sha2: match self.sha2 {
                Some(hash) => Some(hash@),
                None => None,
            },
            items: items_view(self.items@),
        }
    }
}

impl Tsl {
    /// Accepts a trust list whose signature matched and whose signer the
    /// policy accepts, and keeps its entities in the document's order. A
    /// signature that did not match is reported before the signer is
    /// looked at.
    pub fn parse_and_verify(document: TrustListDocument, policy: &SignerPolicy) -> (verified: Result<
        Tsl,
        Error,
    >)
        ensures
            verified is Ok <==> document.acceptable(policy),
            verified matches Ok(tsl) ==> tsl@ == document.listed(),
            !document.signature_matches ==> verified matches Err(Error::InvalidSignature),
            document.signature_matches && !policy.accepts(document.signer@) ==> verified matches Err(
                Error::UntrustedSigner,
            ),
    {
        if !document.signature_matches {
            return Err(Error::InvalidSignature);
        }
        if !policy.is_accepted(&document.signer) {
            return Err(Error::UntrustedSigner);
        }
        Ok(Tsl { xml: document.xml, sha2: document.sha2, items: document.records })
    }

    /// The raw document that the list was read from.
    pub fn xml(&self) -> (xml: &String)
        ensures
            xml@ == self@.xml,
    {
        &self.xml
    }

    /// The content hash that came with the document, if any.
    pub fn sha2(&self) -> (sha2: &Option<String>)
        ensures
            self@.sha2 == match *sha2 {
                Some(hash) => Some(hash@),
                None => None,
            },
    {
        &self.sha2
    }

    /// The entities of the list, in the order of its document.
    pub fn items(&self) -> (items: &Vec<Item>)
        ensures
            items_view(items@) == self@.items,
    {
        &self.items
    }

    /// The certificates of the entities that `selection` takes, in the
    /// order of the document: all of them as the ordered stack of the list,
    /// those of one service, or those that are grouped under one key.
    pub fn select(&self, selection: &Selection) -> (certs: Vec<Certificate>)
        ensures
            certs_view(certs@) == selected(self@.items, selection),
    {
        let ghost all = self@.items;
        let mut certs: Vec<Certificate> = Vec::new();
        let mut i: usize = 0;
        proof {
            reveal(Seq::filter);
            assert(selected(all.take(0), selection) =~= certs_view(certs@));
        }
        while i < self.items.len()
            invariant
                i <= self.items.len(),
                all == self@.items,
                certs_view(certs@) == selected(all.take(i as int), selection),
            decreases self.items.len() - i,
        {
            let item = &self.items[i];
            let ghost before = certs@;
            let taken = selection.is_admitted(item);
            if taken {
                certs.push(item.cert.clone());
            }
            proof {
                let seen = all.take(i as int);
                assert(all[i as int] == item@);
                seen.lemma_filter_push(all[i as int], selection.test());
                assert(all.take(i + 1) =~= seen.push(all[i as int]));
                if taken {
                    assert(certs_view(certs@) =~= certs_view(before).push(item.cert@));
                    assert(seen.filter(selection.test()).push(all[i as int]).map_values(cert_of())
                        =~= seen.filter(selection.test()).map_values(cert_of()).push(item.cert@));
                }
            }
            i += 1;
        }
        proof {
            assert(all.take(all.len() as int) =~= all);
        }
        certs
    }

    /// The number of entities in the list.
    pub fn len(&self) -> (len: usize)
        ensures
            len == self@.items.len(),
    {
        self.items.len()
    }

    /// The entity at position `index` of the list, `None` past its end.
    pub fn item(&self, index: usize) -> (item: Option<&Item>)
        ensures
            match item {
                Some(found) => index < self@.items.len() && found@ == self@.items[index as int],
                None => index >= self@.items.len(),
            },
    {
        if index < self.items.len() {
            Some(&self.items[index])
        } else {
            None
        }
    }

    /// The position of the first entity whose certificate has the encoding
    /// `der`, `None` where the list holds no such entity.
    pub fn position(&self, der: &Vec<u8>) -> (position: Option<usize>)
        ensures
            match position {
                Some(at) => {
                    &&& at < self@.items.len()
                    &&& self@.items[at as int].cert.der == der@
                    &&& forall|j: int| 0 <= j < at ==> (#[trigger] self@.items[j]).cert.der != der@
                },
                None => forall|j: int|
                    0 <= j < self@.items.len() ==> (#[trigger] self@.items[j]).cert.der != der@,
            },
    {
        let mut i: usize = 0;
        while i < self.items.len()
            invariant
                i <= self.items.len(),
                forall|j: int| 0 <= j < i ==> (#[trigger] self@.items[j]).cert.der != der@,
            decreases self.items.len() - i,
        {
            if same_bytes(self.items[i].cert.der(), der) {
                return Some(i);
            }
            i += 1;
        }
        None
    }

    /// Checks `cert` against the list: some usable entity of the list must
    /// have signed it, and `check` must admit the validity window that its
    /// encoding declares. The outcome depends on the list, the certificate
    /// and the time alone.
    pub fn verify_cert(&self, cert: &Certificate, check: TimeCheck) -> (verdict: Result<(), Error>)
        ensures
            cert@.genuine(),
            verdict is Ok <==> self@.verifies(cert@, check),
            !self@.trusts(cert@) ==> verdict matches Err(Error::UnknownIssuerCert),
            self@.trusts(cert@) && !check.admits(cert@) ==> verdict matches Err(Error::InvalidTime),
    {
        proof {
            use_type_invariant(cert);
        }
        let mut i: usize = 0;
        while i < self.items.len()
            invariant
                i <= self.items.len(),
                cert@.genuine(),
                forall|j: int| 0 <= j < i ==> !(#[trigger] self@.items[j]).vouches_for(cert@),
            decreases self.items.len() - i,
        {
            if self.items[i].vouches_for(cert) {
                assert(self@.items[i as int].vouches_for(cert@));
                if check.is_admitted(cert) {
                    return Ok(());
                } else {
                    return Err(Error::InvalidTime);
                }
            }
            i += 1;
        }
        Err(Error::UnknownIssuerCert)
    }
}

/// Every entity that a document lists is found in the trust list that
/// stands for it, at the position that it has in the document.
pub proof fn lemma_listed_entities_are_kept(document: TrustListDocument, index: int)
    requires
        0 <= index < document.records@.len(),
    ensures
        document.listed().items.len() == document.records@.len(),
        document.listed().items[index] == document.records@[index]@,
{
}

/// The ordered stack of a list holds the certificates that its document
/// lists, each once per entry and in the document's order, and no other.
pub proof fn lemma_stack_holds_what_is_listed(items: Seq<ItemView>)
    ensures
        selected(items, &Selection::All) == items.map_values(cert_of()),
    decreases items.len(),
{
    let every = Selection::All;
    reveal(Seq::filter);
    if items.len() == 0 {
        assert(selected(items, &every) =~= items.map_values(cert_of()));
    } else {
        let front = items.drop_last();
        lemma_stack_holds_what_is_listed(front);
        assert(every.test()(items.last()));
        assert(items.filter(every.test()) == front.filter(every.test()).push(items.last()));
        assert(selected(items, &every) =~= selected(front, &every).push(items.last().cert));
        assert(items.map_values(cert_of()) =~= front.map_values(cert_of()).push(items.last().cert));
    }
}

/// Every entity of a list that is not revoked is trusted by the list, and
/// its certificate passes at every time within its validity window. An
/// entity that is revoked vouches for nothing, itself included.
pub proof fn lemma_listed_entity_verifies(list: TslView, index: int, time: i64)
    requires
        0 <= index < list.items.len(),
        list.items[index].usable(),
    ensures
        list.trusts(list.items[index].cert),
        list.items[index].cert.valid_at(time as int) ==> list.verifies(
            list.items[index].cert,
            TimeCheck::Time(time),
        ),
{
    assert(list.items[index].vouches_for(list.items[index].cert));
}

/// A certificate that the list trusts passes at every time within its
/// validity window and fails at every time outside of it, whatever was
/// asked before: the verdict depends on the list, the certificate and the
/// time alone.
pub proof fn lemma_verdict_follows_window(list: TslView, cert: CertificateView, time: i64)
    ensures
        list.verifies(cert, TimeCheck::Time(time)) <==> list.trusts(cert) && cert.not_before <= time
            <= cert.not_after,
        list.verifies(cert, TimeCheck::Unchecked) <==> list.trusts(cert),
{
}

/// Whether two byte strings are equal.
pub fn same_bytes(left: &Vec<u8>, right: &Vec<u8>) -> (same: bool)
    ensures
        same == (left@ == right@),
{
    if left.len() != right.len() {
        return false;
    }
    let mut i: usize = 0;
    while i < left.len()
        invariant
            i <= left.len(),
            left.len() == right.len(),
            forall|j: int| 0 <= j < i ==> left@[j] == right@[j],
        decreases left.len() - i,
    {
        if left[i] != right[i] {
            return false;
        }
        i += 1;
    }
    assert(left@ =~= right@);
    true
}

} // verus!
