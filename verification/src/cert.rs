//! Certificates as the trust decisions read them: the encoding, the validity
//! window and the professions that the admission extension declares.

use crate::backend::{validity, x509_validity};
use crate::error::Error;
use vstd::prelude::*;

verus! {

/// A profession that the admission extension of a certificate can declare.
#[derive(Debug, Clone, Copy, PartialEq, Eq, Structural)]
pub enum Profession {
    /// Physician.
    Arzt,
    /// Dentist.
    Zahnarzt,
    /// Any other profession.
    Other,
}

impl Profession {
    /// The professions that may sign a prescription: physicians and dentists.
    pub open spec fn may_prescribe(self) -> bool {
        self == Profession::Arzt || self == Profession::Zahnarzt
    }

    /// Whether this profession may sign a prescription.
    pub fn is_prescriber(self) -> (accepted: bool)
        ensures
            accepted == self.may_prescribe(),
    {
        match self {
            Profession::Arzt => true,
            Profession::Zahnarzt => true,
            Profession::Other => false,
        }
    }
}

/// Whether some profession in `professions` may sign a prescription.
pub open spec fn any_prescriber(professions: Seq<Profession>) -> bool {
    exists|i: int| 0 <= i < professions.len() && (#[trigger] professions[i]).may_prescribe()
}

/// A certificate, reduced to what the trust store decides on. It is built
/// from its encoding alone, so its validity window is always the one that
/// the encoding declares.
#[derive(Debug)]
pub struct Certificate {
    der: Vec<u8>,
    not_before: i64,
    not_after: i64,
    admission: Option<Vec<Profession>>,
}

/// The mathematical value of a [`Certificate`].
pub struct CertificateView {
    /// The DER encoding of the certificate.
    pub der: Seq<u8>,
    /// First second of the validity window, in seconds since the Unix epoch.
    pub not_before: int,
    /// Last second of the validity window, in seconds since the Unix epoch.
    pub not_after: int,
    /// The professions of the admission extension; `None` where the
    /// certificate has no such extension or it does not decode.
    pub admission: Option<Seq<Profession>>,
}

/// The seconds since the Unix epoch that `days` whole days and `seconds`
/// more stand for.
pub open spec fn seconds_since_epoch(days: int, seconds: int) -> int {
    days * 86_400 + seconds
}

/// The certificate that the encoding `der` stands for, with `admission` as
/// its professions; `None` where `der` encodes no certificate.
pub open spec fn decoded(der: Seq<u8>, admission: Option<Seq<Profession>>) -> Option<
    CertificateView,
> {
    match x509_validity(der) {
        Some(window) => Some(
            CertificateView {
                der,
                not_before: seconds_since_epoch(window.0.0, window.0.1),
                not_after: seconds_since_epoch(window.1.0, window.1.1),
                admission,
            },
        ),
        None => None,
    }
}

impl CertificateView {
    /// The validity window is the one that the encoding declares.
    pub open spec fn genuine(self) -> bool {
        decoded(self.der, self.admission) == Some(self)
    }

    /// `time` lies within the validity window, both ends included.
    pub open spec fn valid_at(self, time: int) -> bool {
        self.not_before <= time <= self.not_after
    }

    /// The admission extension is present and names a physician or dentist.
    pub open spec fn authorized(self) -> bool {
        match self.admission {
            Some(professions) => any_prescriber(professions),
            None => false,
        }
    }
}

impl View for Certificate {
    type V = CertificateView;

    closed spec fn view(&self) -> CertificateView {
        CertificateView {
            der: self.der@,
            not_before: self.not_before as int,
            not_after: self.not_after as int,
            admission: match self.admission {
                Some(professions) => Some(professions@),
                None => None,
            },
        }
    }
}

impl Clone for Certificate {
    fn clone(&self) -> (copy: Certificate)
        ensures
            copy@ == self@,
    {
        let admission = match &self.admission {
            Some(professions) => Some(professions.clone()),
            None => None,
        };
        let der = self.der.clone();
        proof {
            use_type_invariant(self);
            assert(der@ =~= self.der@);
            if self.admission is Some {
                assert(admission.unwrap()@ =~= self.admission.unwrap()@);
            }
        }
        Certificate { der, not_before: self.not_before, not_after: self.not_after, admission }
    }
}

impl Certificate {
    /// Holds of every certificate: its window is the one that its encoding
    /// declares.
    #[verifier::type_invariant]
    pub open spec fn window_is_declared(&self) -> bool {
        self@.genuine()
    }

    /// Reads the validity window from the encoding `der` and takes
    /// `admission` as the professions that its admission extension
    /// declares. An encoding that is no certificate is the backend's error.
    pub fn from_der(der: Vec<u8>, admission: Option<Vec<Profession>>) -> (cert: Result<
        Certificate,
        Error,
    >)
        ensures
            match cert {
                Ok(cert) => cert@.genuine() && cert@.der == der@ && cert@.admission == match admission {
                    Some(professions) => Some(professions@),
                    None => None,
                },
                Err(error) => x509_validity(der@) is None && error is OpenSsl,
            },
    {
        let window = match validity(&der) {
            Ok(window) => window,
            Err(stack) => return Err(Error::OpenSsl(stack)),
        };
        let ((first_days, first_seconds), (last_days, last_seconds)) = window;
        let not_before: i64 = (first_days as i64) * 86_400 + (first_seconds as i64);
        let not_after: i64 = (last_days as i64) * 86_400 + (last_seconds as i64);
        Ok(Certificate { der, not_before, not_after, admission })
    }

    /// The DER encoding of the certificate.
    pub fn der(&self) -> (der: &Vec<u8>)
        ensures
            der@ == self@.der,
    {
        &self.der
    }

    /// First second of the validity window, in seconds since the Unix
    /// epoch, as the encoding declares it.
    pub fn not_before(&self) -> (time: i64)
        ensures
            time == self@.not_before,
            self@.genuine(),
    {
        proof {
            use_type_invariant(self);
        }
        self.not_before
    }

    /// Last second of the validity window, in seconds since the Unix epoch,
    /// as the encoding declares it.
    pub fn not_after(&self) -> (time: i64)
        ensures
            time == self@.not_after,
            self@.genuine(),
    {
        proof {
            use_type_invariant(self);
        }
        self.not_after
    }

    /// The professions of the admission extension; `None` where the
    /// certificate has no such extension or it does not decode.
    pub fn admission(&self) -> (admission: &Option<Vec<Profession>>)
        ensures
            self@.admission == match *admission {
                Some(professions) => Some(professions@),
                None => None,
            },
    {
        &self.admission
    }

    /// Whether `time` lies within the validity window that the encoding of
    /// the certificate declares.
    pub fn is_valid_at(&self, time: i64) -> (valid: bool)
        ensures
            valid == self@.valid_at(time as int),
            self@.genuine(),
    {
        proof {
            use_type_invariant(self);
        }
        self.not_before <= time && time <= self.not_after
    }

    /// Whether the certificate declares a profession that may sign a
    /// prescription. An absent or undecodable extension authorizes nothing.
    pub fn is_authorized(&self) -> (authorized: bool)
        ensures
            authorized == self@.authorized(),
    {
        match &self.admission {
            None => false,
            Some(professions) => {
                let mut i: usize = 0;
                while i < professions.len()
                    invariant
                        i <= professions.len(),
                        self@.admission == Some(professions@),
                        forall|j: int| 0 <= j < i ==> !(#[trigger] professions@[j]).may_prescribe(),
                    decreases professions.len() - i,
                {
                    if professions[i].is_prescriber() {
                        assert(professions@[i as int].may_prescribe());
                        return true;
                    }
                    i += 1;
                }
                false
            },
        }
    }
}

} // verus!
