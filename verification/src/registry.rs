//! The registries derived from the trust list: the certificates of its
//! certificate authorities and of its OCSP responders. A registry is
//! computed anew from the list that is current when it is asked to.

use crate::cert::{Certificate, CertificateView};
use crate::slot::Slot;
use crate::tsl::{certs_view, selected, ItemView, Selection, ServiceKind, Tsl};
use std::sync::Arc;
use vstd::prelude::*;

verus! {

/// The certificates of the entities of `items` that are declared as `kind`,
/// in the order of the list.
pub open spec fn certs_of(items: Seq<ItemView>, kind: ServiceKind) -> Seq<CertificateView> {
    selected(items, &Selection::Service(kind))
}

/// Collects the certificates of the entities of `source` that are declared
/// as `kind`, in the order of the list.
pub fn collect_certs(source: &Tsl, kind: ServiceKind) -> (certs: Vec<Certificate>)
    ensures
        certs_view(certs@) == certs_of(source@.items, kind),
{
    source.select(&Selection::Service(kind))
}

/// The certificates of the certificate authorities of the current trust
/// list.
#[derive(Debug)]
pub struct CertList {
    derived: Slot<Vec<Certificate>>,
}

impl View for CertList {
    type V = Option<Seq<CertificateView>>;

    closed spec fn view(&self) -> Option<Seq<CertificateView>> {
        match self.derived@ {
            Some(certs) => Some(certs_view(certs@)),
            None => None,
        }
    }
}

impl Clone for CertList {
    /// A second handle on the registry as it is now.
    fn clone(&self) -> (copy: CertList)
        ensures
            copy@ == self@,
    {
        CertList { derived: self.derived.clone() }
    }
}

impl CertList {
    /// A registry that was not computed yet.
    pub fn new() -> (list: CertList)
        ensures
            list@ is None,
    {
        CertList { derived: Slot::empty() }
    }

    /// A snapshot of the registry, `None` while it was never computed.
    pub fn load(&self) -> (snapshot: Option<Arc<Vec<Certificate>>>)
        ensures
            match snapshot {
                Some(certs) => self@ == Some(certs_view(certs@)),
                None => self@ is None,
            },
    {
        self.derived.load()
    }

    /// Computes the registry anew from `source` and publishes it.
    pub fn recompute(&mut self, source: &Tsl)
        ensures
            final(self)@ == Some(certs_of(source@.items, ServiceKind::CertificateAuthority)),
    {
        let certs = collect_certs(source, ServiceKind::CertificateAuthority);
        self.derived.publish(Arc::new(certs));
    }
}

/// The certificates of the OCSP responders of the current trust list.
#[derive(Debug)]
pub struct OcspList {
    derived: Slot<Vec<Certificate>>,
}

impl View for OcspList {
    type V = Option<Seq<CertificateView>>;

    closed spec fn view(&self) -> Option<Seq<CertificateView>> {
        match self.derived@ {
            Some(certs) => Some(certs_view(certs@)),
            None => None,
        }
    }
}

impl Clone for OcspList {
    /// A second handle on the registry as it is now.
    fn clone(&self) -> (copy: OcspList)
        ensures
            copy@ == self@,
    {
        OcspList { derived: self.derived.clone() }
    }
}

impl OcspList {
    /// A registry that was not computed yet.
    pub fn new() -> (list: OcspList)
        ensures
            list@ is None,
    {
        OcspList { derived: Slot::empty() }
    }

    /// A snapshot of the registry, `None` while it was never computed.
    pub fn load(&self) -> (snapshot: Option<Arc<Vec<Certificate>>>)
        ensures
            match snapshot {
                Some(certs) => self@ == Some(certs_view(certs@)),
                None => self@ is None,
            },
    {
        self.derived.load()
    }

    /// Computes the registry anew from `source` and publishes it.
    pub fn recompute(&mut self, source: &Tsl)
        ensures
            final(self)@ == Some(certs_of(source@.items, ServiceKind::OcspResponder)),
    {
        let certs = collect_certs(source, ServiceKind::OcspResponder);
        self.derived.publish(Arc::new(certs));
    }
}

} // verus!
