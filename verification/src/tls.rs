//! The serving certificate of the admission webhook: when it is usable, and when
//! a rotated one takes its place.

use vstd::prelude::*;

use crate::helpers::{sha256, sha256_digest};
use crate::text::concat2;

verus! {

// ── PEM files ────────────────────────────────────────────────────────────────

/// The byte strings of a list.
pub open spec fn byte_seqs(v: Seq<Vec<u8>>) -> Seq<Seq<u8>> {
    v.map_values(|b: Vec<u8>| b@)
}

/// The certificates in a PEM file, or what is wrong with it.
pub uninterp spec fn pem_chain(bytes: Seq<u8>) -> Result<Seq<Seq<u8>>, Seq<char>>;

/// A file without certificates.
pub open spec fn no_certificates() -> Result<Seq<Seq<u8>>, Seq<char>> {
    Ok(Seq::empty())
}

/// Reads the certificates of a PEM file with `rustls_pemfile::certs`, up to the
/// first error.
///
/// The outcome is claimed to be determined by the bytes, and an empty file to
/// hold no certificate.  How PEM is read is left open.
#[verifier::external_body]
fn read_chain(pem: &[u8]) -> (r: Result<Vec<Vec<u8>>, String>)
    ensures
        chain_view(r) == pem_chain(pem@),
        pem@.len() == 0 ==> chain_view(r) == no_certificates(),
{
    let mut reader = pem;
    rustls_pemfile::certs(&mut reader)
        .map(|c| c.map(|d| d.to_vec()).map_err(|e| e.to_string()))
        .collect()
}

/// How a private key is encoded.
#[derive(Clone, Copy, Debug, PartialEq, Eq, Structural)]
pub enum KeyForm {
    Pkcs1,
    Sec1,
    Pkcs8,
}

/// A private key.
#[derive(Clone, Debug)]
pub struct PrivateKey {
    pub form: KeyForm,
    pub der: Vec<u8>,
}

/// The view of a private key.
pub struct PrivateKeyView {
    pub form: KeyForm,
    pub der: Seq<u8>,
}

impl View for PrivateKey {
    type V = PrivateKeyView;

    open spec fn view(&self) -> PrivateKeyView {
        PrivateKeyView { form: self.form, der: self.der@ }
    }
}

/// The first private key in a PEM file, if there is one, or what is wrong with
/// the file.
pub uninterp spec fn pem_key(bytes: Seq<u8>) -> Result<Option<PrivateKeyView>, Seq<char>>;

/// The view of an optional key.
pub open spec fn opt_key(o: Option<PrivateKey>) -> Option<PrivateKeyView> {
    match o {
        Some(k) => Some(k@),
        None => None,
    }
}

/// A file without keys.
pub open spec fn no_keys() -> Result<Option<PrivateKeyView>, Seq<char>> {
    Ok(None)
}

/// Reads the first private key of a PEM file with `rustls_pemfile::private_key`.
///
/// The outcome is claimed to be determined by the bytes, and an empty file to
/// hold no key.  How PEM is read is left open.  The function knows the three forms
/// of keys and no other one.
#[verifier::external_body]
fn read_key(pem: &[u8]) -> (r: Result<Option<PrivateKey>, String>)
    ensures
        key_view(r) == pem_key(pem@),
        pem@.len() == 0 ==> key_view(r) == no_keys(),
{
    let mut reader = pem;
    let key = rustls_pemfile::private_key(&mut reader).map_err(|e| e.to_string())?;
    Ok(key.and_then(|k| {
        let form = match k {
            rustls::pki_types::PrivateKeyDer::Pkcs1(_) => KeyForm::Pkcs1,
            rustls::pki_types::PrivateKeyDer::Sec1(_) => KeyForm::Sec1,
            rustls::pki_types::PrivateKeyDer::Pkcs8(_) => KeyForm::Pkcs8,
            _ => return None,
        };
        Some(PrivateKey { form, der: k.secret_der().to_vec() })
    }))
}

/// Whether a private key can sign, where random numbers can be had.
pub uninterp spec fn can_sign(form: KeyForm, der: Seq<u8>) -> bool;

/// Looks whether a private key can sign, with
/// `rustls::crypto::ring::sign::any_supported_type`.
///
/// A key that passes is claimed to be one that can sign, which its form and its
/// bytes determine.  A PKCS#1 key that can sign is claimed to pass.  A key of
/// another form may be an elliptic-curve key: for one of those random numbers are
/// drawn from the system once the key is judged, and the look fails where there
/// are none.
#[verifier::external_body]
fn check_key(key: &PrivateKey) -> (r: Result<(), String>)
    ensures
        r is Ok ==> can_sign(key.form, key.der@),
        key.form == KeyForm::Pkcs1 && can_sign(key.form, key.der@) ==> r is Ok,
{
    let der = key.der.clone();
    let key = match key.form {
        KeyForm::Pkcs1 => rustls::pki_types::PrivateKeyDer::Pkcs1(der.into()),
        KeyForm::Sec1 => rustls::pki_types::PrivateKeyDer::Sec1(der.into()),
        KeyForm::Pkcs8 => rustls::pki_types::PrivateKeyDer::Pkcs8(der.into()),
    };
    match rustls::crypto::ring::sign::any_supported_type(&key) {
        Ok(_) => Ok(()),
        Err(e) => Err(e.to_string()),
    }
}

// ── Loading ──────────────────────────────────────────────────────────────────

/// A certificate chain with its key, and a digest of the files that they were
/// read from.
#[derive(Clone, Debug)]
pub struct LoadedCert {
    pub chain: Vec<Vec<u8>>,
    pub key: PrivateKey,
    pub fingerprint: Vec<u8>,
}

/// Why a certificate cannot be used.
#[derive(Clone, Debug)]
pub enum TlsError {
    /// The certificate file is malformed.
    Chain { cause: String },
    /// The certificate file holds no certificate.
    NoCertificate,
    /// The key file is malformed.
    Key { cause: String },
    /// The key file holds no key.
    NoKey,
    /// The key cannot sign.
    UnsupportedKey { cause: String },
}

impl TlsError {
    /// The error in words.
    pub open spec fn text(self, cert_path: Seq<char>, key_path: Seq<char>) -> Seq<char> {
        match self {
            TlsError::Chain { .. } => "parsing webhook certificate chain"@,
            TlsError::NoCertificate => "no certificates found in "@ + cert_path,
            TlsError::Key { .. } => "parsing webhook private key"@,
            TlsError::NoKey => "no private key found in "@ + key_path,
            TlsError::UnsupportedKey { .. } => "unsupported webhook private key type"@,
        }
    }

    /// The error in words.
    pub fn message(&self, cert_path: &str, key_path: &str) -> (r: String)
        ensures
            r@ == self.text(cert_path@, key_path@),
    {
        match self {
            TlsError::Chain { .. } => "parsing webhook certificate chain".to_owned(),
            TlsError::NoCertificate => concat2("no certificates found in ", cert_path),
            TlsError::Key { .. } => "parsing webhook private key".to_owned(),
            TlsError::NoKey => concat2("no private key found in ", key_path),
            TlsError::UnsupportedKey { .. } => "unsupported webhook private key type".to_owned(),
        }
    }
}

/// The digest of a certificate file and a key file.
pub open spec fn fingerprint_of(cert_pem: Seq<u8>, key_pem: Seq<u8>) -> Seq<u8> {
    sha256_digest(cert_pem + key_pem)
}

/// Whether a certificate was loaded as it should, given what the two files hold
/// and what is wrong with the key, if anything.
pub open spec fn is_loaded(
    r: Result<LoadedCert, TlsError>,
    chain: Result<Seq<Seq<u8>>, Seq<char>>,
    key: Result<Option<PrivateKeyView>, Seq<char>>,
    fault: Option<Seq<char>>,
    fingerprint: Seq<u8>,
) -> bool {
    match chain {
        Err(e) => r matches Err(x) && (x matches TlsError::Chain { cause } && cause@ == e),
        Ok(certs) => if certs.len() == 0 {
            r matches Err(x) && x is NoCertificate
        } else {
            match key {
                Err(e) => r matches Err(x) && (x matches TlsError::Key { cause } && cause@ == e),
                Ok(None) => r matches Err(x) && x is NoKey,
                Ok(Some(k)) => match fault {
                    Some(e) => r matches Err(x) && (x matches TlsError::UnsupportedKey { cause }
                        && cause@ == e),
                    None => {
                        &&& r matches Ok(l)
                        &&& byte_seqs(l.chain@) == certs
                        &&& l.key@ == k
                        &&& l.fingerprint@ == fingerprint
                    },
                },
            }
        },
    }
}

/// The result of a read, by its bytes.
pub open spec fn chain_view(chain: Result<Vec<Vec<u8>>, String>) -> Result<
    Seq<Seq<u8>>,
    Seq<char>,
> {
    match chain {
        Ok(v) => Ok(byte_seqs(v@)),
        Err(e) => Err(e@),
    }
}

/// The result of a read, by its bytes.
pub open spec fn key_view(key: Result<Option<PrivateKey>, String>) -> Result<
    Option<PrivateKeyView>,
    Seq<char>,
> {
    match key {
        Ok(k) => Ok(opt_key(k)),
        Err(e) => Err(e@),
    }
}

/// What is wrong with a key, if anything.
pub open spec fn fault_view(support: Result<(), String>) -> Option<Seq<char>> {
    match support {
        Ok(_) => None,
        Err(e) => Some(e@),
    }
}

/// Puts a certificate together from what the two files hold: there has to be a
/// certificate and a key that can sign.
pub fn assemble(
    chain: Result<Vec<Vec<u8>>, String>,
    key: Result<Option<PrivateKey>, String>,
    support: Result<(), String>,
    fingerprint: Vec<u8>,
) -> (r: Result<LoadedCert, TlsError>)
    ensures
        is_loaded(r, chain_view(chain), key_view(key), fault_view(support), fingerprint@),
{
    let chain = match chain {
        Ok(v) => v,
        Err(e) => return Err(TlsError::Chain { cause: e }),
    };
    if chain.len() == 0 {
        return Err(TlsError::NoCertificate);
    }
    match key {
        Err(e) => Err(TlsError::Key { cause: e }),
        Ok(None) => Err(TlsError::NoKey),
        Ok(Some(key)) => match support {
            Err(e) => Err(TlsError::UnsupportedKey { cause: e }),
            Ok(_) => Ok(LoadedCert { chain, key, fingerprint }),
        },
    }
}

/// Whether what was found wrong with a key, if anything, agrees with what the key
/// is: a key without a fault can sign, and a PKCS#1 key with one cannot.
pub open spec fn is_verdict(
    fault: Option<Seq<char>>,
    key: Result<Option<PrivateKeyView>, Seq<char>>,
) -> bool {
    match key {
        Ok(Some(k)) => {
            &&& fault is None ==> can_sign(k.form, k.der)
            &&& k.form == KeyForm::Pkcs1 && can_sign(k.form, k.der) ==> fault is None
        },
        _ => true,
    }
}

/// Whether a certificate was loaded as it should from the contents of its two
/// files, neither of which may be empty.
pub open spec fn is_load(
    r: Result<LoadedCert, TlsError>,
    cert_pem: Seq<u8>,
    key_pem: Seq<u8>,
) -> bool {
    &&& exists|fault: Option<Seq<char>>|
        is_verdict(fault, pem_key(key_pem)) && #[trigger] is_loaded(
            r,
            pem_chain(cert_pem),
            pem_key(key_pem),
            fault,
            fingerprint_of(cert_pem, key_pem),
        )
    &&& cert_pem.len() == 0 ==> (r matches Err(x) && x is NoCertificate)
    &&& key_pem.len() == 0 ==> r is Err
}

/// Loads a certificate from the contents of its two files.  Whether the key can
/// sign is found out on the way.
pub fn load_certificate(cert_pem: &Vec<u8>, key_pem: &Vec<u8>) -> (r: Result<LoadedCert, TlsError>)
    ensures
        is_load(r, cert_pem@, key_pem@),
        cert_pem@.len() == 0 ==> (r matches Err(x) && x is NoCertificate),
        key_pem@.len() == 0 ==> r is Err,
        r matches Ok(l) ==> l.fingerprint@.len() == 32,
        r matches Ok(l) ==> pem_key(key_pem@) == Ok::<Option<PrivateKeyView>, Seq<char>>(
            Some(l.key@),
        ) && can_sign(l.key.form, l.key.der@),
{
    let chain = read_chain(cert_pem.as_slice());
    let key = read_key(key_pem.as_slice());
    let support: Result<(), String> = match &key {
        Ok(Some(k)) => check_key(k),
        _ => Ok(()),
    };
    let mut both: Vec<u8> = Vec::new();
    let mut i: usize = 0;
    while i < cert_pem.len()
        invariant
            i <= cert_pem.len(),
            both@ == cert_pem@.take(i as int),
        decreases cert_pem.len() - i,
    {
        both.push(cert_pem[i]);
        i += 1;
    }
    assert(cert_pem@.take(i as int) =~= cert_pem@);
    let mut j: usize = 0;
    while j < key_pem.len()
        invariant
            j <= key_pem.len(),
            both@ == cert_pem@ + key_pem@.take(j as int),
        decreases key_pem.len() - j,
    {
        both.push(key_pem[j]);
        j += 1;
    }
    assert(key_pem@.take(j as int) =~= key_pem@);
    let fingerprint = sha256(both.as_slice());
    let ghost c = chain;
    assert(c matches Ok(v) ==> byte_seqs(v@).len() == v@.len());
    let ghost fault = fault_view(support);
    assert(is_verdict(fault, pem_key(key_pem@)));
    let r = assemble(chain, key, support, fingerprint);
    assert(is_loaded(
        r,
        pem_chain(cert_pem@),
        pem_key(key_pem@),
        fault,
        fingerprint_of(cert_pem@, key_pem@),
    ));
    r
}

// ── Reloading ────────────────────────────────────────────────────────────────

/// What comes of looking at the files again.
#[derive(Clone, Copy, Debug, PartialEq, Eq, Structural)]
pub enum PollOutcome {
    /// The files changed: the new certificate takes the place of the old one.
    Swap,
    /// The files are the same.
    Unchanged,
    /// The files cannot be used: the old certificate stays.
    KeepAfterError,
}

/// Whether two byte strings are equal.
pub fn same_bytes(a: &Vec<u8>, b: &Vec<u8>) -> (r: bool)
    ensures
        r == (a@ == b@),
{
    if a.len() != b.len() {
        return false;
    }
    let mut i: usize = 0;
    while i < a.len()
        invariant
            i <= a.len(),
            a.len() == b.len(),
            a@.take(i as int) == b@.take(i as int),
        decreases a.len() - i,
    {
        if a[i] != b[i] {
            assert(a@[i as int] != b@[i as int]);
            return false;
        }
        proof {
            assert(a@.take(i + 1) =~= a@.take(i as int).push(a@[i as int]));
            assert(b@.take(i + 1) =~= b@.take(i as int).push(b@[i as int]));
        }
        i += 1;
    }
    assert(a@.take(i as int) =~= a@);
    assert(b@.take(i as int) =~= b@);
    true
}

/// What comes of looking at the files again, given the fingerprint of the
/// certificate that is served.
pub open spec fn poll_outcome(
    current: Seq<u8>,
    loaded: Result<LoadedCert, TlsError>,
) -> PollOutcome {
    match loaded {
        Ok(l) => if l.fingerprint@ != current {
            PollOutcome::Swap
        } else {
            PollOutcome::Unchanged
        },
        Err(_) => PollOutcome::KeepAfterError,
    }
}

/// What comes of looking at the files again.
pub fn poll(current: &Vec<u8>, loaded: &Result<LoadedCert, TlsError>) -> (r: PollOutcome)
    ensures
        r == poll_outcome(current@, *loaded),
{
    match loaded {
        Ok(l) => if same_bytes(&l.fingerprint, current) {
            PollOutcome::Unchanged
        } else {
            PollOutcome::Swap
        },
        Err(_) => PollOutcome::KeepAfterError,
    }
}

/// Unchanged files never swap the certificate: two loads of the same bytes have
/// the same fingerprint.
pub proof fn law_unchanged_files_are_not_reloaded(
    cert_pem: Seq<u8>,
    key_pem: Seq<u8>,
    first: LoadedCert,
    again: Result<LoadedCert, TlsError>,
)
    requires
        is_load(Ok(first), cert_pem, key_pem),
        is_load(again, cert_pem, key_pem),
    ensures
        poll_outcome(first.fingerprint@, again) != PollOutcome::Swap,
        again is Ok ==> poll_outcome(first.fingerprint@, again) == PollOutcome::Unchanged,
{
}

/// A key that cannot sign is never loaded, and a PKCS#1 key that can is, next to a
/// certificate.
pub proof fn law_only_signing_keys_are_loaded(
    cert_pem: Seq<u8>,
    key_pem: Seq<u8>,
    key: PrivateKeyView,
    r: Result<LoadedCert, TlsError>,
)
    requires
        is_load(r, cert_pem, key_pem),
        pem_chain(cert_pem) matches Ok(certs) && certs.len() > 0,
        pem_key(key_pem) == Ok::<Option<PrivateKeyView>, Seq<char>>(Some(key)),
    ensures
        !can_sign(key.form, key.der) ==> (r matches Err(x) && x is UnsupportedKey),
        key.form == KeyForm::Pkcs1 && can_sign(key.form, key.der) ==> r is Ok,
{
}

/// What two loads say of their files.  Files without a certificate, without a key
/// or with a key that cannot sign do not load, and neither does an empty file.  What
/// loads has a certificate, and its fingerprint is the digest of both files: the same
/// for unchanged files, and another one exactly if the digest is another one.
pub proof fn law_fingerprints_follow_the_files(
    cert1: Seq<u8>,
    key1: Seq<u8>,
    first: Result<LoadedCert, TlsError>,
    cert2: Seq<u8>,
    key2: Seq<u8>,
    second: Result<LoadedCert, TlsError>,
)
    requires
        is_load(first, cert1, key1),
        is_load(second, cert2, key2),
    ensures
        cert1.len() == 0 || key1.len() == 0 ==> first is Err,
        (pem_chain(cert1) matches Ok(certs) ==> certs.len() == 0) ==> first is Err,
        (pem_key(key1) matches Ok(Some(k)) ==> !can_sign(k.form, k.der)) ==> first is Err,
        first matches Ok(a) ==> a.chain@.len() > 0 && a.fingerprint@ == sha256_digest(
            cert1 + key1,
        ),
        first is Ok && second is Ok ==> {
            let a = first->Ok_0.fingerprint@;
            let b = second->Ok_0.fingerprint@;
            &&& cert1 == cert2 && key1 == key2 ==> a == b
            &&& a == b <==> sha256_digest(cert1 + key1) == sha256_digest(cert2 + key2)
        },
{
    if first is Ok {
        assert(byte_seqs(first->Ok_0.chain@).len() == first->Ok_0.chain@.len());
    }
}

/// A load that fails never takes the served certificate away.
pub proof fn law_errors_keep_the_certificate(current: Seq<u8>, error: TlsError)
    ensures
        poll_outcome(current, Err(error)) != PollOutcome::Swap,
{
}

/// A certificate is swapped exactly if the files load and have another fingerprint than
/// the one that is served; files that do not load change nothing.
pub proof fn law_certificates_are_swapped_when_they_change(
    current: &Vec<u8>,
    loaded: &Result<LoadedCert, TlsError>,
    r: PollOutcome,
)
    requires
        call_ensures(poll, (current, loaded), r),
    ensures
        r == PollOutcome::Swap <==> (*loaded matches Ok(l) && l.fingerprint@ != current@),
        r == PollOutcome::Unchanged <==> (*loaded matches Ok(l) && l.fingerprint@ == current@),
        r == PollOutcome::KeepAfterError <==> *loaded is Err,
{
}

/// A certificate is put together exactly from a chain that holds one, a key, and no fault
/// of the key, and holds what they are; else the first thing that is missing is told.
pub proof fn law_certificates_need_all_their_parts(
    chain: Result<Vec<Vec<u8>>, String>,
    key: Result<Option<PrivateKey>, String>,
    support: Result<(), String>,
    fingerprint: Vec<u8>,
    r: Result<LoadedCert, TlsError>,
)
    requires
        call_ensures(assemble, (chain, key, support, fingerprint), r),
    ensures
        r is Ok <==> (chain matches Ok(c) && c@.len() > 0) && (key matches Ok(k) && k is Some)
            && support is Ok,
        r matches Ok(l) ==> byte_seqs(l.chain@) == byte_seqs(chain->Ok_0@) && l.key@
            == key->Ok_0->0@ && l.fingerprint@ == fingerprint@,
        r matches Err(e) ==> {
            &&& e is Chain <==> chain is Err
            &&& e is NoCertificate <==> (chain matches Ok(c) && c@.len() == 0)
            &&& e is Key <==> (chain matches Ok(c) && c@.len() > 0) && key is Err
            &&& e is NoKey <==> (chain matches Ok(c) && c@.len() > 0) && (key matches Ok(k) && k
                is None)
        },
{
    if let Ok(c) = chain {
        assert(byte_seqs(c@).len() == c@.len());
    }
}

/// An error is told in words, with the file that it is about.
pub proof fn law_errors_are_put_in_words(
    error: &TlsError,
    cert_path: &str,
    key_path: &str,
    r: String,
)
    requires
        call_ensures(TlsError::message, (error, cert_path, key_path), r),
    ensures
        *error is NoCertificate ==> r@ == "no certificates found in "@ + cert_path@,
        *error is NoKey ==> r@ == "no private key found in "@ + key_path@,
        *error is Chain ==> r@ == "parsing webhook certificate chain"@,
        *error is Key ==> r@ == "parsing webhook private key"@,
        *error is UnsupportedKey ==> r@ == "unsupported webhook private key type"@,
{
}

/// A certificate is loaded from its two files: the chain of the one, the key of the other,
/// and the digest of both; a key that cannot sign is refused, and so is a file that holds
/// nothing of use.
pub proof fn law_certificates_are_loaded_from_their_files(
    cert_pem: &Vec<u8>,
    key_pem: &Vec<u8>,
    r: Result<LoadedCert, TlsError>,
)
    requires
        call_ensures(load_certificate, (cert_pem, key_pem), r),
    ensures
        r matches Ok(l) ==> {
            &&& l.fingerprint@ == sha256_digest(cert_pem@ + key_pem@)
            &&& l.chain@.len() > 0
            &&& pem_chain(cert_pem@) matches Ok(certs) && certs == byte_seqs(l.chain@)
            &&& pem_key(key_pem@) matches Ok(Some(k)) && k == l.key@ && can_sign(k.form, k.der)
        },
        pem_chain(cert_pem@) matches Err(e) ==> (r matches Err(TlsError::Chain { cause })
            && cause@ == e),
        pem_chain(cert_pem@) matches Ok(certs) ==> certs.len() > 0 ==> {
            &&& pem_key(key_pem@) matches Err(e) ==> (r matches Err(TlsError::Key { cause })
                && cause@ == e)
            &&& pem_key(key_pem@) matches Ok(None) ==> (r matches Err(x) && x is NoKey)
            &&& pem_key(key_pem@) matches Ok(Some(k)) ==> k.form == KeyForm::Pkcs1 && can_sign(
                k.form,
                k.der,
            ) ==> r is Ok
        },
{
    if let Ok(l) = r {
        assert(byte_seqs(l.chain@).len() == l.chain@.len());
    }
}

} // verus!
