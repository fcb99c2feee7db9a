use openssl::asn1::Asn1Time;
use openssl::bn::BigNum;
use openssl::ec::{EcGroup, EcKey};
use openssl::hash::MessageDigest;
use openssl::nid::Nid;
use openssl::pkey::{PKey, Private};
use openssl::x509::{X509NameBuilder, X509};
use pki_store::cert::Certificate;
use pki_store::puk_token::PukToken;
use pki_store::refresh::{Pause, Round, Schedule};
use pki_store::registry::{collect_certs, CertList, OcspList};
use pki_store::slot::Slot;
use pki_store::store::{PkiStore, MAX_CONTAINER_BYTES};
use pki_store::tsl::{Item, ServiceKind, SignerPolicy, TrustListDocument, Tsl};
use std::sync::Arc;

const LISTS: Schedule = Schedule {
    interval: 600,
    backoff: 15,
    feeds_registry: true,
};

const KEYS: Schedule = Schedule {
    interval: 60,
    backoff: 5,
    feeds_registry: false,
};

fn gateway_key() -> EcKey<Private> {
    let group = EcGroup::from_curve_name(Nid::X9_62_PRIME256V1).unwrap();
    EcKey::generate(&group).unwrap()
}

fn gateway_cert() -> X509 {
    self_signed("gateway", 0)
}

fn self_signed(common_name: &str, not_before: i64) -> X509 {
    let key = PKey::from_ec_key(gateway_key()).unwrap();
    let mut name = X509NameBuilder::new().unwrap();
    name.append_entry_by_text("CN", common_name).unwrap();
    let name = name.build();
    let mut builder = X509::builder().unwrap();
    builder.set_version(2).unwrap();
    let serial = BigNum::from_u32(3).unwrap().to_asn1_integer().unwrap();
    builder.set_serial_number(&serial).unwrap();
    builder.set_subject_name(&name).unwrap();
    builder.set_issuer_name(&name).unwrap();
    builder.set_pubkey(&key).unwrap();
    builder
        .set_not_before(&Asn1Time::from_unix(not_before).unwrap())
        .unwrap();
    builder
        .set_not_after(&Asn1Time::from_unix(2_000_000_000).unwrap())
        .unwrap();
    builder.sign(&key, MessageDigest::sha256()).unwrap();
    builder.build()
}

fn marked(tag: u8) -> Certificate {
    let cert = self_signed("entity", i64::from(tag));
    Certificate::from_der(cert.to_der().unwrap(), None).unwrap()
}

fn entity(tag: u8, service: ServiceKind) -> Item {
    Item {
        key: String::from("issuer"),
        cert: marked(tag),
        service,
        revoked: None,
    }
}

fn listing(xml: &str, records: Vec<Item>, signature_matches: bool) -> TrustListDocument {
    TrustListDocument {
        xml: String::from(xml),
        sha2: None,
        records,
        signer: marked(0),
        signature_matches,
    }
}

fn mixed() -> Vec<Item> {
    vec![
        entity(1, ServiceKind::CertificateAuthority),
        entity(2, ServiceKind::OcspResponder),
        entity(3, ServiceKind::Other),
        entity(4, ServiceKind::CertificateAuthority),
        entity(5, ServiceKind::OcspResponder),
        entity(6, ServiceKind::OcspResponder),
    ]
}

fn tags(certs: &[Certificate]) -> Vec<i64> {
    certs.iter().map(|cert| cert.not_before()).collect()
}

#[test]
fn a_slot_is_empty_until_a_value_is_published() {
    let mut slot: Slot<u32> = Slot::empty();
    assert!(!slot.is_loaded());
    assert!(slot.load().is_none());
    slot.publish(Arc::new(5));
    assert!(slot.is_loaded());
    assert_eq!(*slot.load().unwrap(), 5);
}

#[test]
fn a_snapshot_outlives_what_is_published_after_it() {
    let mut slot: Slot<String> = Slot::empty();
    let nothing = slot.load();
    slot.publish(Arc::new(String::from("first")));
    let first = slot.load().unwrap();
    slot.publish(Arc::new(String::from("second")));
    let second = slot.load().unwrap();

    assert!(nothing.is_none());
    assert_eq!(first.as_str(), "first");
    assert_eq!(second.as_str(), "second");
    assert_eq!(slot.load().unwrap().as_str(), "second");
}

#[test]
fn a_second_handle_shares_the_value_and_not_the_slot() {
    let mut slot: Slot<u32> = Slot::empty();
    slot.publish(Arc::new(1));
    let copy = slot.clone();
    slot.publish(Arc::new(2));
    assert_eq!(*copy.load().unwrap(), 1);
    assert_eq!(*slot.load().unwrap(), 2);
}

#[test]
fn a_verified_round_publishes_and_a_failed_round_retains() {
    let mut slot: Slot<u32> = Slot::empty();

    let pause = LISTS.settle(&mut slot, Round::FetchFailed);
    assert_eq!(pause, Pause { seconds: 15, notify: false });
    assert!(slot.load().is_none());

    let pause = LISTS.settle(&mut slot, Round::Verified(7));
    assert_eq!(pause, Pause { seconds: 600, notify: true });
    assert_eq!(*slot.load().unwrap(), 7);

    let pause = LISTS.settle(&mut slot, Round::FetchFailed);
    assert_eq!(pause, Pause { seconds: 15, notify: false });
    assert_eq!(*slot.load().unwrap(), 7);

    let pause = LISTS.settle(&mut slot, Round::Rejected);
    assert_eq!(pause, Pause { seconds: 15, notify: false });
    assert_eq!(*slot.load().unwrap(), 7);

    let pause = KEYS.settle(&mut slot, Round::Verified(8));
    assert_eq!(pause, Pause { seconds: 60, notify: false });
    assert_eq!(*slot.load().unwrap(), 8);

    assert_eq!(LISTS.success_pause(), Pause { seconds: 600, notify: true });
    assert_eq!(LISTS.failure_pause(), Pause { seconds: 15, notify: false });
}

#[test]
fn a_trust_list_round_publishes_only_what_verifies() {
    let mut slot: Slot<Tsl> = Slot::empty();
    let accept = SignerPolicy::AcceptAny;

    let pause = LISTS.settle_trust_list(&mut slot, None, &accept);
    assert_eq!(pause, LISTS.failure_pause());
    assert!(slot.load().is_none());

    let pause = LISTS.settle_trust_list(&mut slot, Some(listing("a", mixed(), true)), &accept);
    assert_eq!(pause, LISTS.success_pause());
    assert_eq!(slot.load().unwrap().xml(), "a");
    assert_eq!(slot.load().unwrap().len(), 6);

    let pause = LISTS.settle_trust_list(&mut slot, Some(listing("b", Vec::new(), false)), &accept);
    assert_eq!(pause, LISTS.failure_pause());
    assert_eq!(slot.load().unwrap().xml(), "a");

    let nobody = SignerPolicy::IssuedBy(Vec::new());
    let pause = LISTS.settle_trust_list(&mut slot, Some(listing("c", Vec::new(), true)), &nobody);
    assert_eq!(pause, LISTS.failure_pause());
    assert_eq!(slot.load().unwrap().xml(), "a");

    let pause = LISTS.settle_trust_list(&mut slot, None, &accept);
    assert_eq!(pause, LISTS.failure_pause());
    assert_eq!(slot.load().unwrap().xml(), "a");

    let pause = LISTS.settle_trust_list(&mut slot, Some(listing("d", Vec::new(), true)), &accept);
    assert_eq!(pause, LISTS.success_pause());
    assert_eq!(slot.load().unwrap().xml(), "d");
    assert_eq!(slot.load().unwrap().len(), 0);
}

#[test]
fn a_registry_holds_the_entities_of_its_kind_in_order() {
    let list = Tsl::parse_and_verify(listing("a", mixed(), true), &SignerPolicy::AcceptAny).unwrap();
    assert_eq!(tags(&collect_certs(&list, ServiceKind::CertificateAuthority)), vec![1, 4]);
    assert_eq!(tags(&collect_certs(&list, ServiceKind::OcspResponder)), vec![2, 5, 6]);
    assert_eq!(tags(&collect_certs(&list, ServiceKind::Other)), vec![3]);

    let empty = Tsl::parse_and_verify(listing("b", Vec::new(), true), &SignerPolicy::AcceptAny).unwrap();
    assert!(collect_certs(&empty, ServiceKind::CertificateAuthority).is_empty());

    let mut authorities = CertList::new();
    assert!(authorities.load().is_none());
    authorities.recompute(&list);
    assert_eq!(tags(&authorities.load().unwrap()), vec![1, 4]);
    let earlier = authorities.clone();
    authorities.recompute(&empty);
    assert!(authorities.load().unwrap().is_empty());
    assert_eq!(tags(&earlier.load().unwrap()), vec![1, 4]);

    let mut responders = OcspList::new();
    assert!(responders.load().is_none());
    responders.recompute(&list);
    assert_eq!(tags(&responders.load().unwrap()), vec![2, 5, 6]);
    let earlier = responders.clone();
    responders.recompute(&empty);
    assert!(responders.load().unwrap().is_empty());
    assert_eq!(tags(&earlier.load().unwrap()), vec![2, 5, 6]);
}

#[test]
fn a_new_store_owns_its_key_and_has_nothing_loaded() {
    let key = gateway_key();
    let cert = gateway_cert();
    let key_der = key.private_key_to_der().unwrap();
    let cert_der = cert.to_der().unwrap();
    let store = PkiStore::new(key, cert).unwrap();

    assert_eq!(store.enc_key().private_key_to_der().unwrap(), key_der);
    assert_eq!(store.enc_cert().to_der().unwrap(), cert_der);
    assert!(store.tsl().is_none());
    assert!(store.bnetza().is_none());
    assert!(store.puk_token().is_none());
    assert!(store.ocsp_vau().is_none());
    assert!(store.cert_list().load().is_none());
    assert!(store.ocsp_list().load().is_none());
}

#[test]
fn the_primary_and_the_secondary_list_are_slots_of_their_own() {
    let mut store = PkiStore::new(gateway_key(), gateway_cert()).unwrap();
    let accept = SignerPolicy::AcceptAny;

    let pause = store.settle_tsl(&LISTS, Some(listing("primary", mixed(), true)), &accept);
    assert_eq!(pause, LISTS.success_pause());
    assert_eq!(store.tsl().unwrap().xml(), "primary");
    assert!(store.bnetza().is_none());

    let pause = store.settle_bnetza(&LISTS, Some(listing("secondary", Vec::new(), true)), &accept);
    assert_eq!(pause, LISTS.success_pause());
    assert_eq!(store.tsl().unwrap().xml(), "primary");
    assert_eq!(store.bnetza().unwrap().xml(), "secondary");

    let pause = store.settle_tsl(&LISTS, None, &accept);
    assert_eq!(pause, LISTS.failure_pause());
    let pause = store.settle_bnetza(&LISTS, Some(listing("forged", Vec::new(), false)), &accept);
    assert_eq!(pause, LISTS.failure_pause());
    assert_eq!(store.tsl().unwrap().xml(), "primary");
    assert_eq!(store.bnetza().unwrap().xml(), "secondary");
}

#[test]
fn the_registries_follow_the_primary_list_when_they_are_recomputed() {
    let mut store = PkiStore::new(gateway_key(), gateway_cert()).unwrap();
    let accept = SignerPolicy::AcceptAny;

    store.recompute_cert_list();
    store.recompute_ocsp_list();
    assert!(store.cert_list().load().is_none());
    assert!(store.ocsp_list().load().is_none());

    store.settle_bnetza(&LISTS, Some(listing("secondary", mixed(), true)), &accept);
    store.recompute_cert_list();
    assert!(store.cert_list().load().is_none());

    store.settle_tsl(&LISTS, Some(listing("primary", mixed(), true)), &accept);
    assert!(store.cert_list().load().is_none());
    store.recompute_cert_list();
    assert_eq!(tags(&store.cert_list().load().unwrap()), vec![1, 4]);
    assert!(store.ocsp_list().load().is_none());
    store.recompute_ocsp_list();
    assert_eq!(tags(&store.ocsp_list().load().unwrap()), vec![2, 5, 6]);

    store.settle_tsl(&LISTS, None, &accept);
    store.recompute_cert_list();
    assert_eq!(tags(&store.cert_list().load().unwrap()), vec![1, 4]);

    let smaller = vec![entity(9, ServiceKind::CertificateAuthority)];
    store.settle_tsl(&LISTS, Some(listing("newer", smaller, true)), &accept);
    assert_eq!(tags(&store.cert_list().load().unwrap()), vec![1, 4]);
    store.recompute_cert_list();
    store.recompute_ocsp_list();
    assert_eq!(tags(&store.cert_list().load().unwrap()), vec![9]);
    assert!(store.ocsp_list().load().unwrap().is_empty());
}

#[test]
fn key_material_and_ocsp_response_stay_in_place_after_a_failure() {
    let mut store = PkiStore::new(gateway_key(), gateway_cert()).unwrap();
    let token = |tag: u8| PukToken {
        cert: marked(tag),
        public_keys: vec![vec![tag, tag]],
    };

    assert_eq!(store.settle_puk_token(&KEYS, Round::FetchFailed), KEYS.failure_pause());
    assert!(store.puk_token().is_none());
    assert_eq!(store.settle_puk_token(&KEYS, Round::Verified(token(1))), KEYS.success_pause());
    assert_eq!(store.puk_token().unwrap().public_keys, vec![vec![1, 1]]);
    assert_eq!(store.settle_puk_token(&KEYS, Round::Rejected), KEYS.failure_pause());
    assert_eq!(store.settle_puk_token(&KEYS, Round::FetchFailed), KEYS.failure_pause());
    assert_eq!(store.puk_token().unwrap().public_keys, vec![vec![1, 1]]);
    assert_eq!(store.settle_puk_token(&KEYS, Round::Verified(token(2))), KEYS.success_pause());
    assert_eq!(store.puk_token().unwrap().cert.not_before(), 2);

    assert_eq!(store.settle_ocsp_vau(&KEYS, Round::Verified(vec![7, 8])), KEYS.success_pause());
    assert_eq!(*store.ocsp_vau().unwrap(), vec![7, 8]);
    assert_eq!(store.settle_ocsp_vau(&KEYS, Round::FetchFailed), KEYS.failure_pause());
    assert_eq!(*store.ocsp_vau().unwrap(), vec![7, 8]);
    assert!(store.tsl().is_none());
    assert!(store.bnetza().is_none());
}

#[test]
fn a_second_handle_on_the_store_keeps_the_state_it_was_taken_from() {
    let mut store = PkiStore::new(gateway_key(), gateway_cert()).unwrap();
    let accept = SignerPolicy::AcceptAny;
    store.settle_bnetza(&LISTS, Some(listing("first", Vec::new(), true)), &accept);
    let reader = store.clone();
    store.settle_bnetza(&LISTS, Some(listing("second", Vec::new(), true)), &accept);

    assert_eq!(reader.bnetza().unwrap().xml(), "first");
    assert_eq!(store.bnetza().unwrap().xml(), "second");
    assert_eq!(
        reader.enc_cert().to_der().unwrap(),
        store.enc_cert().to_der().unwrap()
    );
}

#[test]
fn the_backend_takes_containers_up_to_the_range_of_a_c_int() {
    assert_eq!(MAX_CONTAINER_BYTES, 2_147_483_647);
}
