//! Finding serving certificates whose authority was replaced.

use odoo_operator::webhook_cert_repair::{
    authority_key_id, check_once, find_authority, find_subject, is_mismatch, leaf_is_orphaned,
    subject_key_id, CertExtension, RepairDecision,
};
use rcgen::{
    BasicConstraints, CertificateParams, DistinguishedName, DnType, IsCa, Issuer, KeyPair,
};
use x509_parser::certificate::X509Certificate;
use x509_parser::pem::parse_x509_pem;
use x509_parser::prelude::FromDer;

fn ca_params() -> CertificateParams {
    let mut params = CertificateParams::new(Vec::<String>::new()).unwrap();
    let mut dn = DistinguishedName::new();
    dn.push(DnType::CommonName, "odoo-operator-webhook-ca");
    params.distinguished_name = dn;
    params.is_ca = IsCa::Ca(BasicConstraints::Unconstrained);
    params
}

/// Two authorities with one subject and different keys, and a leaf that the
/// first of them signed.
fn certificates() -> (Vec<u8>, Vec<u8>, Vec<u8>) {
    let key_a = KeyPair::generate().unwrap();
    let key_b = KeyPair::generate().unwrap();
    let ca_a = ca_params().self_signed(&key_a).unwrap().pem().into_bytes();
    let ca_b = ca_params().self_signed(&key_b).unwrap().pem().into_bytes();
    let issuer = Issuer::new(ca_params(), key_a);
    let mut leaf = CertificateParams::new(vec!["webhook.example.com".to_string()]).unwrap();
    leaf.use_authority_key_identifier_extension = true;
    let leaf_key = KeyPair::generate().unwrap();
    let signed = leaf.signed_by(&leaf_key, &issuer).unwrap().pem().into_bytes();
    (ca_a, ca_b, signed)
}

fn secret(key: &str, value: &[u8]) -> Vec<(String, Vec<u8>)> {
    vec![("other".to_string(), vec![0]), (key.to_string(), value.to_vec())]
}

#[test]
fn matching_pair_is_not_orphaned() {
    let (ca_a, _, leaf) = certificates();
    assert!(!leaf_is_orphaned(&ca_a, &leaf));
}

#[test]
fn leaf_signed_by_a_different_ca_is_orphaned() {
    let (_, ca_b, leaf) = certificates();
    assert!(leaf_is_orphaned(&ca_b, &leaf));
}

#[test]
fn identical_subjects_do_not_mask_the_mismatch() {
    let (ca_a, ca_b, leaf) = certificates();
    let (_, a) = parse_x509_pem(&ca_a).unwrap();
    let (_, a) = X509Certificate::from_der(&a.contents).unwrap();
    let (_, b) = parse_x509_pem(&ca_b).unwrap();
    let (_, b) = X509Certificate::from_der(&b.contents).unwrap();
    assert_eq!(a.subject().to_string(), b.subject().to_string());
    assert!(leaf_is_orphaned(&ca_b, &leaf));
}

#[test]
fn unparseable_input_is_treated_as_healthy() {
    let (ca_a, _, leaf) = certificates();
    assert!(!leaf_is_orphaned(b"not a certificate", &leaf));
    assert!(!leaf_is_orphaned(&ca_a, b"not a certificate"));
}

#[test]
fn broken_contents_are_treated_as_healthy() {
    let (ca_a, _, leaf) = certificates();
    let broken = b"-----BEGIN CERTIFICATE-----\nAAAA\n-----END CERTIFICATE-----\n";
    assert!(!leaf_is_orphaned(broken, &leaf));
    assert!(!leaf_is_orphaned(&ca_a, broken));
    assert_eq!(subject_key_id(broken), None);
    assert_eq!(authority_key_id(broken), None);
}

#[test]
fn key_identifiers_are_read_from_the_extensions() {
    let (ca_a, ca_b, leaf) = certificates();
    let a = subject_key_id(&ca_a).unwrap();
    assert_eq!(a.len(), 20);
    assert_ne!(subject_key_id(&ca_b), Some(a.clone()));
    assert_eq!(authority_key_id(&leaf), Some(a));
}

#[test]
fn the_first_extension_of_a_kind_counts() {
    let found = vec![
        CertExtension::Other,
        CertExtension::AuthorityKeyIdentifier(None),
        CertExtension::SubjectKeyIdentifier(vec![1]),
        CertExtension::SubjectKeyIdentifier(vec![2]),
        CertExtension::AuthorityKeyIdentifier(Some(vec![3])),
        CertExtension::AuthorityKeyIdentifier(Some(vec![4])),
    ];
    assert_eq!(find_subject(&found), Some(vec![1]));
    assert_eq!(find_authority(&found), Some(vec![3]));
    assert_eq!(find_subject(&vec![]), None);
    assert_eq!(find_authority(&vec![CertExtension::Other]), None);
}

#[test]
fn only_two_different_identifiers_are_a_mismatch() {
    assert!(is_mismatch(&Some(vec![1]), &Some(vec![2])));
    assert!(!is_mismatch(&Some(vec![1]), &Some(vec![1])));
    assert!(!is_mismatch(&None, &Some(vec![1])));
    assert!(!is_mismatch(&Some(vec![1]), &None));
    assert!(!is_mismatch(&None, &None));
}

#[test]
fn secrets_are_judged_by_their_certificates() {
    let (ca_a, ca_b, leaf) = certificates();
    let leaf_secret = secret("tls.crt", &leaf);
    let healthy = check_once(&secret("tls.crt", &ca_a), &leaf_secret);
    assert!(matches!(healthy, RepairDecision::Healthy));
    let orphaned = check_once(&secret("tls.crt", &ca_b), &leaf_secret);
    assert!(matches!(orphaned, RepairDecision::DeleteLeaf));
    let unreadable = check_once(&secret("ca.crt", &ca_b), &leaf_secret);
    assert!(matches!(unreadable, RepairDecision::Skip));
    let empty = check_once(&secret("tls.crt", &ca_b), &vec![]);
    assert!(matches!(empty, RepairDecision::Skip));
}
