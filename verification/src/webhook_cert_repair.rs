//! Repairing a serving certificate that no longer chains to the published CA.
//!
//! The certificate authority and the serving certificate are renewed separately,
//! so the serving certificate can outlive the key that signed it.  Key
//! identifiers tell: the authority key identifier of the serving certificate has
//! to be the subject key identifier of the authority.  Subjects do not tell, for
//! a renewed authority keeps its name.

use vstd::prelude::*;
use x509_parser::prelude::FromDer;

use crate::secret_data::{bytes_of, bytes_under};

verus! {

/// Bytes that may be missing.
pub open spec fn opt_bytes(o: Option<Vec<u8>>) -> Option<Seq<u8>> {
    match o {
        Some(b) => Some(b@),
        None => None,
    }
}

// ── Certificates ─────────────────────────────────────────────────────────────

/// An extension of a certificate, as far as it is read.
#[derive(Clone, Debug)]
pub enum CertExtension {
    SubjectKeyIdentifier(Vec<u8>),
    AuthorityKeyIdentifier(Option<Vec<u8>>),
    Other,
}

/// The view of an extension.
pub enum CertExtensionView {
    SubjectKeyIdentifier(Seq<u8>),
    AuthorityKeyIdentifier(Option<Seq<u8>>),
    Other,
}

impl View for CertExtension {
    type V = CertExtensionView;

    open spec fn view(&self) -> CertExtensionView {
        match self {
            CertExtension::SubjectKeyIdentifier(k) => CertExtensionView::SubjectKeyIdentifier(k@),
            CertExtension::AuthorityKeyIdentifier(k) => CertExtensionView::AuthorityKeyIdentifier(
                opt_bytes(*k),
            ),
            CertExtension::Other => CertExtensionView::Other,
        }
    }
}

/// The views of a list of extensions.
pub open spec fn extension_views(v: Seq<CertExtension>) -> Seq<CertExtensionView> {
    v.map_values(|e: CertExtension| e@)
}

/// The view of an optional list of extensions.
pub open spec fn extension_list(o: Option<Vec<CertExtension>>) -> Option<Seq<CertExtensionView>> {
    match o {
        Some(v) => Some(extension_views(v@)),
        None => None,
    }
}

/// What the first block of a PEM file holds, if there is one.
pub uninterp spec fn pem_block(bytes: Seq<u8>) -> Option<Seq<u8>>;

/// Reads the first block of a PEM file with `x509_parser::pem::parse_x509_pem`.
///
/// The contract only claims that the outcome is determined by the bytes.
#[verifier::external_body]
fn pem_contents(bytes: &[u8]) -> (r: Option<Vec<u8>>)
    ensures
        opt_bytes(r) == pem_block(bytes@),
{
    match x509_parser::pem::parse_x509_pem(bytes) {
        Ok((_, pem)) => Some(pem.contents),
        Err(_) => None,
    }
}

/// The extensions of a DER certificate, in their order, if it is one.
pub uninterp spec fn der_extensions(der: Seq<u8>) -> Option<Seq<CertExtensionView>>;

/// Reads the extensions of a certificate with
/// `x509_parser::certificate::X509Certificate::from_der`.
///
/// The contract only claims that the outcome is determined by the bytes.
#[verifier::external_body]
fn certificate_extensions(der: &[u8]) -> (r: Option<Vec<CertExtension>>)
    ensures
        extension_list(r) == der_extensions(der@),
{
    let (_, cert) = x509_parser::certificate::X509Certificate::from_der(der).ok()?;
    let converted = cert.extensions().iter().map(|e| match e.parsed_extension() {
        x509_parser::extensions::ParsedExtension::SubjectKeyIdentifier(k) => {
            CertExtension::SubjectKeyIdentifier(k.0.to_vec())
        },
        x509_parser::extensions::ParsedExtension::AuthorityKeyIdentifier(a) => {
            CertExtension::AuthorityKeyIdentifier(a.key_identifier.as_ref().map(|k| k.0.to_vec()))
        },
        _ => CertExtension::Other,
    });
    Some(converted.collect())
}

/// The extensions of a PEM certificate.
pub open spec fn pem_extensions(bytes: Seq<u8>) -> Option<Seq<CertExtensionView>> {
    match pem_block(bytes) {
        Some(der) => der_extensions(der),
        None => None,
    }
}

fn read_extensions(bytes: &[u8]) -> (r: Option<Vec<CertExtension>>)
    ensures
        extension_list(r) == pem_extensions(bytes@),
{
    match pem_contents(bytes) {
        Some(der) => certificate_extensions(der.as_slice()),
        None => None,
    }
}

// ── Key identifiers ──────────────────────────────────────────────────────────

/// The first subject key identifier in a list of extensions.
pub open spec fn subject_in(v: Seq<CertExtensionView>) -> Option<Seq<u8>>
    decreases v.len(),
{
    if v.len() == 0 {
        None
    } else {
        match v[0] {
            CertExtensionView::SubjectKeyIdentifier(k) => Some(k),
            _ => subject_in(v.skip(1)),
        }
    }
}

/// The first authority key identifier in a list of extensions that names a key.
pub open spec fn authority_in(v: Seq<CertExtensionView>) -> Option<Seq<u8>>
    decreases v.len(),
{
    if v.len() == 0 {
        None
    } else {
        match v[0] {
            CertExtensionView::AuthorityKeyIdentifier(Some(k)) => Some(k),
            _ => authority_in(v.skip(1)),
        }
    }
}

fn copy_bytes(b: &Vec<u8>) -> (r: Vec<u8>)
    ensures
        r@ == b@,
{
    let mut out: Vec<u8> = Vec::new();
    let mut i: usize = 0;
    while i < b.len()
        invariant
            i <= b.len(),
            out@ == b@.take(i as int),
        decreases b.len() - i,
    {
        out.push(b[i]);
        i += 1;
    }
    assert(b@.take(i as int) =~= b@);
    out
}

/// The first subject key identifier in a list of extensions.
pub fn find_subject(v: &Vec<CertExtension>) -> (r: Option<Vec<u8>>)
    ensures
        opt_bytes(r) == subject_in(extension_views(v@)),
{
    let ghost all = extension_views(v@);
    let mut i: usize = 0;
    assert(all.skip(0) =~= all);
    while i < v.len()
        invariant
            i <= v.len(),
            all == extension_views(v@),
            subject_in(all) == subject_in(all.skip(i as int)),
        decreases v.len() - i,
    {
        assert(all.skip(i as int)[0] == v@[i as int]@);
        if let CertExtension::SubjectKeyIdentifier(k) = &v[i] {
            return Some(copy_bytes(k));
        }
        assert(all.skip(i as int).skip(1) =~= all.skip(i + 1));
        i += 1;
    }
    None
}

/// The first authority key identifier in a list of extensions that names a key.
pub fn find_authority(v: &Vec<CertExtension>) -> (r: Option<Vec<u8>>)
    ensures
        opt_bytes(r) == authority_in(extension_views(v@)),
{
    let ghost all = extension_views(v@);
    let mut i: usize = 0;
    assert(all.skip(0) =~= all);
    while i < v.len()
        invariant
            i <= v.len(),
            all == extension_views(v@),
            authority_in(all) == authority_in(all.skip(i as int)),
        decreases v.len() - i,
    {
        assert(all.skip(i as int)[0] == v@[i as int]@);
        if let CertExtension::AuthorityKeyIdentifier(Some(k)) = &v[i] {
            return Some(copy_bytes(k));
        }
        assert(all.skip(i as int).skip(1) =~= all.skip(i + 1));
        i += 1;
    }
    None
}

/// The subject key identifier of a PEM certificate.
pub open spec fn subject_key(bytes: Seq<u8>) -> Option<Seq<u8>> {
    match pem_extensions(bytes) {
        Some(v) => subject_in(v),
        None => None,
    }
}

/// The authority key identifier of a PEM certificate.
pub open spec fn authority_key(bytes: Seq<u8>) -> Option<Seq<u8>> {
    match pem_extensions(bytes) {
        Some(v) => authority_in(v),
        None => None,
    }
}

/// The subject key identifier of a certificate authority, if it carries one.
pub fn subject_key_id(pem_bytes: &[u8]) -> (r: Option<Vec<u8>>)
    ensures
        opt_bytes(r) == subject_key(pem_bytes@),
{
    match read_extensions(pem_bytes) {
        Some(v) => find_subject(&v),
        None => None,
    }
}

/// The authority key identifier of a certificate, if it carries one.
pub fn authority_key_id(pem_bytes: &[u8]) -> (r: Option<Vec<u8>>)
    ensures
        opt_bytes(r) == authority_key(pem_bytes@),
{
    match read_extensions(pem_bytes) {
        Some(v) => find_authority(&v),
        None => None,
    }
}

/// Whether two key identifiers tell that the one did not sign the other: both are
/// known and they differ.
pub open spec fn keys_differ(subject: Option<Seq<u8>>, authority: Option<Seq<u8>>) -> bool {
    subject is Some && authority is Some && subject != authority
}

/// Whether two key identifiers tell that the one did not sign the other.
pub fn is_mismatch(subject: &Option<Vec<u8>>, authority: &Option<Vec<u8>>) -> (r: bool)
    ensures
        r == keys_differ(opt_bytes(*subject), opt_bytes(*authority)),
{
    match subject {
        Some(s) => match authority {
            Some(a) => !crate::tls::same_bytes(s, a),
            None => false,
        },
        None => false,
    }
}

/// Whether a serving certificate was signed by something other than the
/// authority.  Where that is not clear the certificate is taken to be fine.
pub fn leaf_is_orphaned(ca_pem: &[u8], leaf_pem: &[u8]) -> (r: bool)
    ensures
        r == keys_differ(subject_key(ca_pem@), authority_key(leaf_pem@)),
{
    is_mismatch(&subject_key_id(ca_pem), &authority_key_id(leaf_pem))
}

// ── Repair ───────────────────────────────────────────────────────────────────

/// What comes of a check.
#[derive(Clone, Copy, Debug, PartialEq, Eq, Structural)]
pub enum RepairDecision {
    /// A certificate is missing: nothing is done.
    Skip,
    /// The serving certificate chains to the authority.
    Healthy,
    /// The Secret of the serving certificate is deleted, so that a new one is
    /// issued.
    DeleteLeaf,
}

/// Checks the Secret of the authority against that of the serving certificate.
pub fn check_once(ca: &Vec<(String, Vec<u8>)>, leaf: &Vec<(String, Vec<u8>)>) -> (r: RepairDecision)
    ensures
        r == match (bytes_under(ca@, "tls.crt"@), bytes_under(leaf@, "tls.crt"@)) {
            (Some(c), Some(l)) => if keys_differ(subject_key(c), authority_key(l)) {
                RepairDecision::DeleteLeaf
            } else {
                RepairDecision::Healthy
            },
            _ => RepairDecision::Skip,
        },
{
    let ca_pem = match bytes_of(ca, "tls.crt") {
        Some(b) => b,
        None => return RepairDecision::Skip,
    };
    let leaf_pem = match bytes_of(leaf, "tls.crt") {
        Some(b) => b,
        None => return RepairDecision::Skip,
    };
    if leaf_is_orphaned(ca_pem.as_slice(), leaf_pem.as_slice()) {
        RepairDecision::DeleteLeaf
    } else {
        RepairDecision::Healthy
    }
}

/// Nothing is deleted on account of a certificate that cannot be read or that
/// carries no key identifier.
pub proof fn law_doubt_favours_the_certificate(ca: Seq<u8>, leaf: Seq<u8>)
    requires
        pem_extensions(ca) is None || pem_extensions(leaf) is None || subject_key(ca) is None
            || authority_key(leaf) is None,
    ensures
        !keys_differ(subject_key(ca), authority_key(leaf)),
{
}

/// A certificate that names the key of the authority is never deleted.
pub proof fn law_matching_pair_is_kept(ca: Seq<u8>, leaf: Seq<u8>)
    requires
        subject_key(ca) == authority_key(leaf),
    ensures
        !keys_differ(subject_key(ca), authority_key(leaf)),
{
}

/// A serving certificate is deleted exactly if both certificates are there, both carry
/// their identifiers, and the one names another key than the other has.
pub proof fn law_orphans_are_deleted(
    ca: &Vec<(String, Vec<u8>)>,
    leaf: &Vec<(String, Vec<u8>)>,
    r: RepairDecision,
)
    requires
        call_ensures(check_once, (ca, leaf), r),
    ensures
        ({
            let c = bytes_under(ca@, "tls.crt"@);
            let l = bytes_under(leaf@, "tls.crt"@);
            &&& r == RepairDecision::Skip <==> c is None || l is None
            &&& r == RepairDecision::DeleteLeaf <==> c is Some && l is Some && (subject_key(c->0)
                matches Some(s) && (authority_key(l->0) matches Some(a) && s != a))
        }),
{
}

/// The identifier of a certificate is the first one of its kind among its extensions, and
/// there is none where no extension is one.
pub proof fn law_the_first_identifier_counts(
    v: &Vec<CertExtension>,
    subject: Option<Vec<u8>>,
    authority: Option<Vec<u8>>,
    i: int,
)
    requires
        call_ensures(find_subject, (v,), subject),
        call_ensures(find_authority, (v,), authority),
    ensures
        0 <= i < v@.len() && v@[i] is SubjectKeyIdentifier && (forall|j: int|
            0 <= j < i ==> !(#[trigger] v@[j] is SubjectKeyIdentifier)) ==> (subject matches Some(
            k,
        ) && k@ == v@[i]->SubjectKeyIdentifier_0@),
        (forall|j: int| 0 <= j < v@.len() ==> !(#[trigger] v@[j] is SubjectKeyIdentifier))
            ==> subject is None,
        0 <= i < v@.len() && names_a_key(v@[i]) && (forall|j: int|
            0 <= j < i ==> !names_a_key(#[trigger] v@[j])) ==> (authority matches Some(k) && k@
            == v@[i]->AuthorityKeyIdentifier_0->0@),
        (forall|j: int| 0 <= j < v@.len() ==> !names_a_key(#[trigger] v@[j]))
            ==> authority is None,
{
    let all = extension_views(v@);
    assert(all.len() == v@.len());
    if 0 <= i < v@.len() && v@[i] is SubjectKeyIdentifier && (forall|j: int|
        0 <= j < i ==> !(#[trigger] v@[j] is SubjectKeyIdentifier)) {
        assert forall|j: int| 0 <= j < i implies !(#[trigger] all[j] is SubjectKeyIdentifier) by {
            assert(all[j] == v@[j]@);
        }
        assert(all[i] == v@[i]@);
        lemma_subject_at(all, i);
    }
    if forall|j: int| 0 <= j < v@.len() ==> !(#[trigger] v@[j] is SubjectKeyIdentifier) {
        assert forall|j: int| 0 <= j < all.len() implies !(#[trigger] all[j]
            is SubjectKeyIdentifier) by {
            assert(all[j] == v@[j]@);
        }
        lemma_no_subject(all);
    }
    if 0 <= i < v@.len() && names_a_key(v@[i]) && (forall|j: int|
        0 <= j < i ==> !names_a_key(#[trigger] v@[j])) {
        assert forall|j: int| 0 <= j < i implies !view_names_a_key(#[trigger] all[j]) by {
            assert(all[j] == v@[j]@);
        }
        assert(all[i] == v@[i]@);
        lemma_authority_at(all, i);
    }
    if forall|j: int| 0 <= j < v@.len() ==> !names_a_key(#[trigger] v@[j]) {
        assert forall|j: int| 0 <= j < all.len() implies !view_names_a_key(#[trigger] all[j]) by {
            assert(all[j] == v@[j]@);
        }
        lemma_no_authority(all);
    }
}

/// Whether an extension names the key of an authority.
pub open spec fn names_a_key(e: CertExtension) -> bool {
    e matches CertExtension::AuthorityKeyIdentifier(k) && k is Some
}

spec fn view_names_a_key(e: CertExtensionView) -> bool {
    e matches CertExtensionView::AuthorityKeyIdentifier(k) && k is Some
}

proof fn lemma_subject_at(v: Seq<CertExtensionView>, i: int)
    requires
        0 <= i < v.len(),
        v[i] is SubjectKeyIdentifier,
        forall|j: int| 0 <= j < i ==> !(#[trigger] v[j] is SubjectKeyIdentifier),
    ensures
        subject_in(v) == Some(v[i]->SubjectKeyIdentifier_0),
    decreases v.len(),
{
    if i > 0 {
        let rest = v.skip(1);
        assert(!(v[0] is SubjectKeyIdentifier));
        assert(rest[i - 1] == v[i]);
        assert forall|j: int| 0 <= j < i - 1 implies !(#[trigger] rest[j]
            is SubjectKeyIdentifier) by {
            assert(rest[j] == v[j + 1]);
        }
        lemma_subject_at(rest, i - 1);
    }
}

proof fn lemma_no_subject(v: Seq<CertExtensionView>)
    requires
        forall|j: int| 0 <= j < v.len() ==> !(#[trigger] v[j] is SubjectKeyIdentifier),
    ensures
        subject_in(v) is None,
    decreases v.len(),
{
    if v.len() > 0 {
        let rest = v.skip(1);
        assert(!(v[0] is SubjectKeyIdentifier));
        assert forall|j: int| 0 <= j < rest.len() implies !(#[trigger] rest[j]
            is SubjectKeyIdentifier) by {
            assert(rest[j] == v[j + 1]);
        }
        lemma_no_subject(rest);
    }
}

proof fn lemma_authority_at(v: Seq<CertExtensionView>, i: int)
    requires
        0 <= i < v.len(),
        view_names_a_key(v[i]),
        forall|j: int| 0 <= j < i ==> !view_names_a_key(#[trigger] v[j]),
    ensures
        authority_in(v) == Some(v[i]->AuthorityKeyIdentifier_0->0),
    decreases v.len(),
{
    if i > 0 {
        let rest = v.skip(1);
        assert(!view_names_a_key(v[0]));
        assert(rest[i - 1] == v[i]);
        assert forall|j: int| 0 <= j < i - 1 implies !view_names_a_key(#[trigger] rest[j]) by {
            assert(rest[j] == v[j + 1]);
        }
        lemma_authority_at(rest, i - 1);
    }
}

proof fn lemma_no_authority(v: Seq<CertExtensionView>)
    requires
        forall|j: int| 0 <= j < v.len() ==> !view_names_a_key(#[trigger] v[j]),
    ensures
        authority_in(v) is None,
    decreases v.len(),
{
    if v.len() > 0 {
        let rest = v.skip(1);
        assert(!view_names_a_key(v[0]));
        assert forall|j: int| 0 <= j < rest.len() implies !view_names_a_key(#[trigger] rest[j]) by {
            assert(rest[j] == v[j + 1]);
        }
        lemma_no_authority(rest);
    }
}

/// Two identifiers are at odds exactly if both are known and they are not the same; a leaf is
/// an orphan exactly if its authority is not the subject of the other certificate.
pub proof fn law_known_identifiers_are_compared(
    subject: &Option<Vec<u8>>,
    authority: &Option<Vec<u8>>,
    r: bool,
    ca: &[u8],
    leaf: &[u8],
    of_ca: Option<Vec<u8>>,
    of_leaf: Option<Vec<u8>>,
    orphan: bool,
)
    requires
        call_ensures(is_mismatch, (subject, authority), r),
        call_ensures(subject_key_id, (ca,), of_ca),
        call_ensures(authority_key_id, (leaf,), of_leaf),
        call_ensures(leaf_is_orphaned, (ca, leaf), orphan),
    ensures
        r <==> (*subject matches Some(s) && (*authority matches Some(a) && s@ != a@)),
        orphan <==> (of_ca matches Some(s) && (of_leaf matches Some(a) && s@ != a@)),
{
    if let Some(s) = of_ca {
        assert(subject_key(ca@) == Some(s@));
    }
    if let Some(a) = of_leaf {
        assert(authority_key(leaf@) == Some(a@));
    }
}

} // verus!
