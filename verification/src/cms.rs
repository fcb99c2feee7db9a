//! The signers of a CMS container: which of them are trusted at their own
//! signing time, and whose signing time stands for the container.

use crate::cert::{Certificate, CertificateView};
use crate::error::Error;
use crate::tsl::{TimeCheck, Tsl, TslView};
use openssl::error::ErrorStack;
use vstd::prelude::*;

verus! {

/// One signer-info of a container, reduced to what the trust store decides
/// on.
#[derive(Debug)]
pub struct SignerInfo {
    /// The certificate of the signer; `None` where the container does not
    /// resolve it.
    pub signer: Option<Certificate>,
    /// The signing time that the signer declares, in seconds since the Unix
    /// epoch; `None` where it declares none.
    pub signing_time: Option<i64>,
}

/// The mathematical value of a [`SignerInfo`].
pub struct SignerInfoView {
    pub signer: Option<CertificateView>,
    pub signing_time: Option<int>,
}

impl View for SignerInfo {
    type V = SignerInfoView;

    open spec fn view(&self) -> SignerInfoView {
        SignerInfoView {
            signer: match self.signer {
                Some(cert) => Some(cert@),
                None => None,
            },
            signing_time: match self.signing_time {
                Some(time) => Some(time as int),
                None => None,
            },
        }
    }
}

impl SignerInfoView {
    /// The signer counts: its certificate is resolved, it declares a signing
    /// time, the anchors trust the certificate, the signing time lies in the
    /// certificate's validity window and, where `check_profession` is set,
    /// the certificate names a physician or dentist.
    pub open spec fn passes(self, anchors: TslView, check_profession: bool) -> bool {
        &&& self.signer is Some
        &&& self.signing_time is Some
        &&& anchors.trusts(self.signer.unwrap())
        &&& self.signer.unwrap().valid_at(self.signing_time.unwrap())
        &&& check_profession ==> self.signer.unwrap().authorized()
    }
}

impl SignerInfo {
    /// The signing time of the signer where it counts towards the signing
    /// time of its container, `None` where it does not. The certificate is
    /// held against the anchors at the signing time that the signer
    /// declares, never at the time of the call.
    pub fn counted_time(&self, anchors: &Tsl, check_profession: bool) -> (counted: Option<i64>)
        ensures
            match counted {
                Some(time) => self@.passes(anchors@, check_profession) && self@.signing_time
                    == Some(time as int),
                None => !self@.passes(anchors@, check_profession),
            },
    {
        let cert = match &self.signer {
            Some(cert) => cert,
            None => return None,
        };
        let time = match self.signing_time {
            Some(time) => time,
            None => return None,
        };
        if anchors.verify_cert(cert, TimeCheck::Time(time)).is_err() {
            return None;
        }
        if check_profession && !cert.is_authorized() {
            return None;
        }
        Some(time)
    }

    /// Whether the signer counts towards the signing time of its container.
    pub fn passes(&self, anchors: &Tsl, check_profession: bool) -> (passes: bool)
        ensures
            passes == self@.passes(anchors@, check_profession),
    {
        self.counted_time(anchors, check_profession).is_some()
    }
}

/// The values of a sequence of signer-infos, in order.
pub open spec fn signers_view(signers: Seq<SignerInfo>) -> Seq<SignerInfoView> {
    signers.map_values(|signer: SignerInfo| signer@)
}

/// No signer of `signers` counts.
pub open spec fn none_passes(
    signers: Seq<SignerInfoView>,
    anchors: TslView,
    check_profession: bool,
) -> bool {
    forall|j: int| 0 <= j < signers.len() ==> !(#[trigger] signers[j]).passes(anchors, check_profession)
}

/// The signer at position `at` stands for the container: it counts, no
/// signer that counts declares a later signing time, and every signer
/// before it that counts declares an earlier one.
pub open spec fn is_selected(
    signers: Seq<SignerInfoView>,
    anchors: TslView,
    check_profession: bool,
    at: int,
) -> bool {
    &&& 0 <= at < signers.len()
    &&& signers[at].passes(anchors, check_profession)
    &&& forall|j: int|
        0 <= j < signers.len() && (#[trigger] signers[j]).passes(anchors, check_profession)
            ==> signers[j].signing_time.unwrap() <= signers[at].signing_time.unwrap()
    &&& forall|j: int|
        0 <= j < at && (#[trigger] signers[j]).passes(anchors, check_profession)
            ==> signers[j].signing_time.unwrap() < signers[at].signing_time.unwrap()
}

/// The signing time that stands for a container with these signers: the
/// latest that a signer that counts declares, `None` where none counts.
pub open spec fn authoritative_time(
    signers: Seq<SignerInfoView>,
    anchors: TslView,
    check_profession: bool,
) -> Option<int> {
    if none_passes(signers, anchors, check_profession) {
        None
    } else {
        let at = choose|at: int| is_selected(signers, anchors, check_profession, at);
        Some(signers[at].signing_time.unwrap())
    }
}

/// At most one signer stands for a container.
pub proof fn lemma_selected_is_unique(
    signers: Seq<SignerInfoView>,
    anchors: TslView,
    check_profession: bool,
    first: int,
    second: int,
)
    requires
        is_selected(signers, anchors, check_profession, first),
        is_selected(signers, anchors, check_profession, second),
    ensures
        first == second,
{
    if first < second {
        assert(signers[first].passes(anchors, check_profession));
    } else if second < first {
        assert(signers[second].passes(anchors, check_profession));
    }
}

/// Where a signer stands for the container, its signing time is the
/// authoritative one, and no signer that counts declares a later one.
pub proof fn lemma_selected_time_is_latest(
    signers: Seq<SignerInfoView>,
    anchors: TslView,
    check_profession: bool,
    at: int,
)
    requires
        is_selected(signers, anchors, check_profession, at),
    ensures
        authoritative_time(signers, anchors, check_profession) == signers[at].signing_time,
        forall|j: int|
            0 <= j < signers.len() && (#[trigger] signers[j]).passes(anchors, check_profession)
                ==> signers[j].signing_time.unwrap() <= signers[at].signing_time.unwrap(),
{
    assert(signers[at].passes(anchors, check_profession));
    let chosen = choose|c: int| is_selected(signers, anchors, check_profession, c);
    lemma_selected_is_unique(signers, anchors, check_profession, at, chosen);
}

/// Of two signers that both count, the later signing time is the
/// authoritative one, in whichever order the container lists them.
pub proof fn lemma_latest_of_two_wins(
    first: SignerInfoView,
    second: SignerInfoView,
    anchors: TslView,
    check_profession: bool,
)
    requires
        first.passes(anchors, check_profession),
        second.passes(anchors, check_profession),
    ensures
        authoritative_time(seq![first, second], anchors, check_profession) == Some(
            if first.signing_time.unwrap() < second.signing_time.unwrap() {
                second.signing_time.unwrap()
            } else {
                first.signing_time.unwrap()
            },
        ),
{
    let signers = seq![first, second];
    let at: int = if first.signing_time.unwrap() < second.signing_time.unwrap() {
        1
    } else {
        0
    };
    assert(signers[0] == first && signers[1] == second);
    assert(is_selected(signers, anchors, check_profession, at));
    lemma_selected_time_is_latest(signers, anchors, check_profession, at);
}

/// A container whose signers the anchors do not trust has no authoritative
/// signing time, however well it is signed.
pub proof fn lemma_untrusted_signers_do_not_count(
    signers: Seq<SignerInfoView>,
    anchors: TslView,
    check_profession: bool,
)
    requires
        forall|j: int|
            0 <= j < signers.len() && (#[trigger] signers[j]).signer is Some ==> !anchors.trusts(
                signers[j].signer.unwrap(),
            ),
    ensures
        authoritative_time(signers, anchors, check_profession) is None,
{
    assert(none_passes(signers, anchors, check_profession));
}

/// Where authorization is asked for, a signer whose certificate declares no
/// profession that may prescribe does not count, though its chain and its
/// signing time are in order; a container with no other signer has no
/// authoritative signing time.
pub proof fn lemma_unauthorized_signer_is_excluded(signer: SignerInfoView, anchors: TslView)
    requires
        signer.signer is Some ==> !signer.signer.unwrap().authorized(),
    ensures
        !signer.passes(anchors, true),
        authoritative_time(seq![signer], anchors, true) is None,
{
    let signers = seq![signer];
    assert forall|j: int| 0 <= j < signers.len() implies !(#[trigger] signers[j]).passes(
        anchors,
        true,
    ) by {
        assert(signers[j] == signer);
    }
}

/// Picks the signer that stands for the container: among the signers that
/// count, the first of those that declare the latest signing time. A signer
/// that does not count is passed over and fails nothing.
pub fn select_signer(anchors: &Tsl, signers: &Vec<SignerInfo>, check_profession: bool) -> (selected:
    Option<usize>)
    ensures
        match selected {
            Some(at) => is_selected(signers_view(signers@), anchors@, check_profession, at as int),
            None => none_passes(signers_view(signers@), anchors@, check_profession),
        },
{
    let ghost all = signers_view(signers@);
    let mut best: Option<(usize, i64)> = None;
    let mut i: usize = 0;
    while i < signers.len()
        invariant
            i <= signers.len(),
            all == signers_view(signers@),
            match best {
                Some((at, time)) => {
                    &&& at < i
                    &&& all[at as int].passes(anchors@, check_profession)
                    &&& all[at as int].signing_time == Some(time as int)
                    &&& forall|j: int|
                        0 <= j < i && (#[trigger] all[j]).passes(anchors@, check_profession)
                            ==> all[j].signing_time.unwrap() <= time
                    &&& forall|j: int|
                        0 <= j < at && (#[trigger] all[j]).passes(anchors@, check_profession)
                            ==> all[j].signing_time.unwrap() < time
                },
                None => forall|j: int|
                    0 <= j < i ==> !(#[trigger] all[j]).passes(anchors@, check_profession),
            },
        decreases signers.len() - i,
    {
        let signer = &signers[i];
        assert(all[i as int] == signer@);
        if let Some(time) = signer.counted_time(anchors, check_profession) {
            best = match best {
                Some((at, latest)) if latest >= time => Some((at, latest)),
                _ => Some((i, time)),
            };
        }
        i += 1;
    }
    match best {
        Some((at, _)) => Some(at),
        None => None,
    }
}

/// The signing time that stands for a container with these signers.
pub fn latest_signing_time(anchors: &Tsl, signers: &Vec<SignerInfo>, check_profession: bool) -> (time:
    Option<i64>)
    ensures
        match time {
            Some(time) => authoritative_time(signers_view(signers@), anchors@, check_profession)
                == Some(time as int),
            None => authoritative_time(signers_view(signers@), anchors@, check_profession) is None,
        },
{
    let ghost all = signers_view(signers@);
    match select_signer(anchors, signers, check_profession) {
        Some(at) => {
            proof {
                assert(all[at as int].passes(anchors@, check_profession));
                let chosen = choose|c: int| is_selected(all, anchors@, check_profession, c);
                lemma_selected_is_unique(all, anchors@, check_profession, at as int, chosen);
                assert(all[at as int] == signers@[at as int]@);
            }
            signers[at].signing_time
        },
        None => None,
    }
}

/// What the verification of a container comes to, once the backend has
/// checked its signatures and handed out its content: the backend's error
/// where that failed; else the content with the authoritative signing time;
/// and `UnknownIssuerCert` where no signer counts.
pub open spec fn conclusion(
    content: Result<Seq<u8>, ErrorStack>,
    signers: Seq<SignerInfoView>,
    anchors: TslView,
    check_profession: bool,
    outcome: Result<(Vec<u8>, i64), Error>,
) -> bool {
    match content {
        Err(stack) => outcome matches Err(Error::OpenSsl(reported)) && reported == stack,
        Ok(bytes) => match authoritative_time(signers, anchors, check_profession) {
            Some(time) => outcome matches Ok(verified) && verified.0@ == bytes && verified.1 == time,
            None => outcome matches Err(Error::UnknownIssuerCert),
        },
    }
}

/// Concludes the verification of a container from the outcome of the
/// backend's signature check and the container's signers.
pub fn conclude(
    anchors: &Tsl,
    content: Result<Vec<u8>, ErrorStack>,
    signers: &Vec<SignerInfo>,
    check_profession: bool,
) -> (outcome: Result<(Vec<u8>, i64), Error>)
    ensures
        conclusion(
            match content {
                Ok(bytes) => Ok(bytes@),
                Err(stack) => Err(stack),
            },
            signers_view(signers@),
            anchors@,
            check_profession,
            outcome,
        ),
{
    let bytes = match content {
        Ok(bytes) => bytes,
        Err(stack) => return Err(Error::OpenSsl(stack)),
    };
    match latest_signing_time(anchors, signers, check_profession) {
        Some(time) => Ok((bytes, time)),
        None => Err(Error::UnknownIssuerCert),
    }
}

} // verus!
