//! Certificates, certified keys and trust stores: how they are built from
//! PEM, read through their handles, and given up.
use std::sync::Arc;
use vstd::prelude::*;

use crate::engine::{
    accepted_anchors, engine_pem_certs, engine_suite_count, engine_suite_id, engine_suite_ids,
    root_store_add_pem_file, root_store_anchors, trust_anchor_of, Anchor,
};
use crate::error::rustls_result;
use crate::pem::{
    is_supported_signing_key, pem_certs, pem_pkcs8_private_keys, pem_rsa_private_keys, read_certs,
    read_pkcs8_private_keys, read_rsa_private_keys,
};
use crate::rslice::{opt_bytes, rustls_slice_bytes};

verus! {

/// An X.509 certificate, held as its DER encoding.
pub struct rustls_certificate {
    der: Vec<u8>,
}

impl View for rustls_certificate {
    type V = Seq<u8>;

    closed spec fn view(&self) -> Seq<u8> {
        self.der@
    }
}

impl DeepView for rustls_certificate {
    type V = Seq<u8>;

    open spec fn deep_view(&self) -> Seq<u8> {
        self@
    }
}

impl rustls_certificate {
    /// The certificate with the encoding `der`.
    pub fn new(der: Vec<u8>) -> (r: Self)
        ensures
            r@ == der@,
    {
        rustls_certificate { der }
    }

    /// The DER encoding of the certificate.
    pub fn as_der(&self) -> (r: &[u8])
        ensures
            r@ == self@,
    {
        self.der.as_slice()
    }
}

/// The chain of certificates to present in a handshake, leaf first, with the
/// private key of the leaf and an optional OCSP response. A handle to it is
/// shared: the object lives until its last holder lets go.
///
/// The chain of a certified key is never empty. The key is held as its DER
/// encoding; a key that is built from PEM is one that the engine accepted
/// as a key to sign with.
pub struct rustls_certified_key {
    cert: Vec<rustls_certificate>,
    key: Vec<u8>,
    ocsp: Option<Vec<u8>>,
}

impl rustls_certified_key {
    #[verifier::type_invariant]
    spec fn has_leaf(&self) -> bool {
        self.cert.len() > 0
    }

    /// The certificates of the chain, leaf first, each as its DER encoding.
    pub closed spec fn chain(&self) -> Seq<Seq<u8>> {
        self.cert.deep_view()
    }

    /// The DER encoding of the private key.
    pub closed spec fn private_key(&self) -> Seq<u8> {
        self.key@
    }

    /// The OCSP response that is stapled to the chain, if there is one.
    pub closed spec fn ocsp(&self) -> Option<Seq<u8>> {
        match self.ocsp {
            Some(response) => Some(response@),
            None => None,
        }
    }

    /// The number of certificates in the chain, which is at least one.
    pub fn chain_len(&self) -> (n: usize)
        ensures
            n == self.chain().len(),
            n > 0,
    {
        proof {
            use_type_invariant(self);
        }
        self.cert.len()
    }

    /// The DER encoding of the private key.
    pub fn private_key_der(&self) -> (r: &[u8])
        ensures
            r@ == self.private_key(),
    {
        self.key.as_slice()
    }

    /// The stapled OCSP response, if there is one.
    pub fn ocsp_response(&self) -> (r: Option<&[u8]>)
        ensures
            opt_bytes(r) == self.ocsp(),
    {
        match &self.ocsp {
            Some(o) => Some(o.as_slice()),
            None => None,
        }
    }
}

/// The key that a parsed PEM file offers: the last of its keys. A file that
/// could not be read is a parse error; a file without keys offers none.
pub open spec fn spec_last_private_key(parsed: Option<Seq<Seq<u8>>>) -> Result<
    Option<Seq<u8>>,
    rustls_result,
> {
    match parsed {
        None => Err(rustls_result::PrivateKeyParseError),
        Some(keys) => if keys.len() == 0 {
            Ok(None)
        } else {
            Ok(Some(keys.last()))
        },
    }
}

/// The private key that the PEM bytes `pem` offer: the last PKCS#8 key, or
/// where there is none the last PKCS#1 key. It is an error if either reading
/// fails, or if there is no key of either form.
pub open spec fn spec_found_private_key(pem: Seq<u8>) -> Result<Seq<u8>, rustls_result> {
    match spec_last_private_key(pem_pkcs8_private_keys(pem)) {
        Err(e) => Err(e),
        Ok(Some(key)) => Ok(key),
        Ok(None) => match spec_last_private_key(pem_rsa_private_keys(pem)) {
            Err(e) => Err(e),
            Ok(Some(key)) => Ok(key),
            Ok(None) => Err(rustls_result::PrivateKeyParseError),
        },
    }
}

/// A key is taken only if the engine accepts it as a key to sign with.
pub open spec fn spec_accept_private_key(key: Seq<u8>, accepted: bool) -> Result<Seq<u8>, rustls_result> {
    if accepted {
        Ok(key)
    } else {
        Err(rustls_result::PrivateKeyParseError)
    }
}

/// The private key that is taken from the PEM bytes `pem`, where `accepted`
/// is what the engine says of the key that the bytes offer: that key if the
/// engine accepts it. The engine is not asked where no key is found.
pub open spec fn spec_private_key(pem: Seq<u8>, accepted: bool) -> Result<Seq<u8>, rustls_result> {
    match spec_found_private_key(pem) {
        Err(e) => Err(e),
        Ok(key) => spec_accept_private_key(key, accepted),
    }
}

/// Whether `r` is the key or the error `expected`.
pub open spec fn spec_is_key(r: Result<Vec<u8>, rustls_result>, expected: Result<Seq<u8>, rustls_result>) -> bool {
    match expected {
        Ok(key) => r matches Ok(k) && k@ == key,
        Err(e) => r matches Err(x) && x == e,
    }
}

/// The chain that parsed certificates give: the certificates as they are.
/// Certificates that could not be read, and a file without certificates, are
/// a parse error.
pub open spec fn spec_chain(parsed: Option<Seq<Seq<u8>>>) -> Result<Seq<Seq<u8>>, rustls_result> {
    match parsed {
        None => Err(rustls_result::CertificateParseError),
        Some(certs) => if certs.len() == 0 {
            Err(rustls_result::CertificateParseError)
        } else {
            Ok(certs)
        },
    }
}

/// What building a certified key from two nullable PEM buffers gives, where
/// `accepted` is what the engine says of the key that is found: the chain and
/// the key, or the status that says what was wrong. A null buffer is found
/// first, then a bad key, then a bad chain.
pub open spec fn spec_certified_key_build(
    cert_chain: Option<Seq<u8>>,
    private_key: Option<Seq<u8>>,
    accepted: bool,
) -> Result<(Seq<Seq<u8>>, Seq<u8>), rustls_result> {
    if cert_chain is None || private_key is None {
        Err(rustls_result::NullParameter)
    } else {
        match spec_private_key(private_key->0, accepted) {
            Err(e) => Err(e),
            Ok(key) => match spec_chain(pem_certs(cert_chain->0)) {
                Err(e) => Err(e),
                Ok(chain) => Ok((chain, key)),
            },
        }
    }
}

/// Whether `r` is the certified key with the chain and the private key of
/// `expected` and no OCSP response, or the error of `expected`.
pub open spec fn spec_is_built(
    r: Result<rustls_certified_key, rustls_result>,
    expected: Result<(Seq<Seq<u8>>, Seq<u8>), rustls_result>,
) -> bool {
    match expected {
        Ok((chain, key)) => r matches Ok(k) && k.chain() == chain && k.private_key() == key
            && k.ocsp() is None,
        Err(e) => r matches Err(x) && x == e,
    }
}

/// Takes the key that a parsed PEM file offers: the last one.
pub fn last_private_key(parsed: Option<Vec<Vec<u8>>>) -> (r: Result<Option<Vec<u8>>, rustls_result>)
    ensures
        match spec_last_private_key(parsed.deep_view()) {
            Ok(Some(key)) => r matches Ok(Some(k)) && k@ == key,
            Ok(None) => r matches Ok(None),
            Err(e) => r matches Err(x) && x == e,
        },
{
    match parsed {
        None => Err(rustls_result::PrivateKeyParseError),
        Some(mut keys) => {
            let ghost all = keys.deep_view();
            let last = keys.pop();
            proof {
                if all.len() > 0 {
                    assert(last->0@ =~= all.last());
                }
            }
            Ok(last)
        },
    }
}

/// Bundles parsed certificates with a private key. The chain is the
/// certificates in their order, and no OCSP response is stapled. Fails with
/// `CertificateParseError` if the certificates could not be read or there is
/// none.
pub fn certified_key_from_chain(
    parsed: Option<Vec<Vec<u8>>>,
    key: Vec<u8>,
) -> (r: Result<rustls_certified_key, rustls_result>)
    ensures
        match spec_chain(parsed.deep_view()) {
            Ok(chain) => r matches Ok(k) && k.chain() == chain && k.private_key() == key@
                && k.ocsp() is None,
            Err(e) => r matches Err(x) && x == e,
        },
{
    match parsed {
        None => Err(rustls_result::CertificateParseError),
        Some(certs) => {
            if certs.len() == 0 {
                return Err(rustls_result::CertificateParseError);
            }
            let ghost all = certs.deep_view();
            let mut chain: Vec<rustls_certificate> = Vec::new();
            let mut certs = certs;
            let n: usize = certs.len();
            let mut i: usize = 0;
            while i < n
                invariant
                    n == all.len(),
                    i <= n,
                    certs.len() == n,
                    chain.len() == i,
                    forall|j: int| 0 <= j < i ==> chain[j]@ == all[j],
                    forall|j: int| i <= j < n ==> certs[j]@ == all[j],
                decreases n - i,
            {
                let mut der: Vec<u8> = Vec::new();
                std::mem::swap(&mut der, &mut certs[i]);
                chain.push(rustls_certificate::new(der));
                i += 1;
            }
            assert(chain.deep_view() =~= all);
            Ok(rustls_certified_key { cert: chain, key, ocsp: None })
        },
    }
}

/// Finds the private key that the PEM bytes `pem` offer: the last PKCS#8
/// key, or where there is none the last PKCS#1 key.
pub fn found_private_key(pem: &[u8]) -> (r: Result<Vec<u8>, rustls_result>)
    ensures
        spec_is_key(r, spec_found_private_key(pem@)),
{
    match last_private_key(read_pkcs8_private_keys(pem)) {
        Err(e) => Err(e),
        Ok(Some(key)) => Ok(key),
        Ok(None) => match last_private_key(read_rsa_private_keys(pem)) {
            Err(e) => Err(e),
            Ok(Some(key)) => Ok(key),
            Ok(None) => Err(rustls_result::PrivateKeyParseError),
        },
    }
}

/// Takes or refuses `key` by what the engine said of it: the key is handed
/// back if the engine accepted it as a key to sign with, and is a
/// `PrivateKeyParseError` if not.
pub fn accept_private_key(key: Vec<u8>, accepted: bool) -> (r: Result<Vec<u8>, rustls_result>)
    ensures
        spec_is_key(r, spec_accept_private_key(key@, accepted)),
{
    if accepted {
        Ok(key)
    } else {
        Err(rustls_result::PrivateKeyParseError)
    }
}

/// Reads the private key from the PEM bytes `pem`: a PKCS#8 key if there is
/// one, else a PKCS#1 key, and only a key that the engine accepts as a key
/// to sign with.
///
/// Where the bytes offer no key the result is `PrivateKeyParseError`. Where
/// they offer one, the engine decides: the result is that key, or
/// `PrivateKeyParseError`.
pub fn private_key_from_pem(pem: &[u8]) -> (r: Result<Vec<u8>, rustls_result>)
    ensures
        exists|accepted: bool| spec_is_key(r, #[trigger] spec_private_key(pem@, accepted)),
{
    match found_private_key(pem) {
        Err(e) => {
            assert(spec_is_key(Err::<Vec<u8>, rustls_result>(e), spec_private_key(pem@, true)));
            Err(e)
        },
        Ok(key) => {
            let accepted: bool = is_supported_signing_key(&key);
            let taken = accept_private_key(key, accepted);
            assert(spec_is_key(taken, spec_private_key(pem@, accepted)));
            taken
        },
    }
}

/// Builds a certified key from a PEM certificate chain, leaf first, and a PEM
/// private key in PKCS#8 or PKCS#1 form.
///
/// A null buffer, and nothing else, gives `NullParameter`. A key that cannot
/// be read or is missing gives `PrivateKeyParseError`, and so does a key
/// that the engine does not accept as a key to sign with. A chain that
/// cannot be read or holds no certificate gives `CertificateParseError`.
/// Otherwise the key is built: with the key that was found, the certificates
/// in the order of the file, and no OCSP response.
pub fn certified_key_build(
    cert_chain: Option<&[u8]>,
    private_key: Option<&[u8]>,
) -> (r: Result<rustls_certified_key, rustls_result>)
    ensures
        exists|accepted: bool|
            spec_is_built(
                r,
                #[trigger] spec_certified_key_build(opt_bytes(cert_chain), opt_bytes(private_key), accepted),
            ),
{
    let cert_chain: &[u8] = match cert_chain {
        Some(c) => c,
        None => {
            let r = Err(rustls_result::NullParameter);
            assert(spec_is_built(r, spec_certified_key_build(None, opt_bytes(private_key), true)));
            return r;
        },
    };
    let private_key: &[u8] = match private_key {
        Some(p) => p,
        None => {
            let r = Err(rustls_result::NullParameter);
            assert(spec_is_built(r, spec_certified_key_build(Some(cert_chain@), None, true)));
            return r;
        },
    };
    let found = private_key_from_pem(private_key);
    let ghost accepted: bool = choose|accepted: bool| spec_is_key(found, spec_private_key(private_key@, accepted));
    let key: Vec<u8> = match found {
        Ok(k) => k,
        Err(e) => {
            let r = Err(e);
            assert(spec_is_built(
                r,
                spec_certified_key_build(Some(cert_chain@), Some(private_key@), accepted),
            ));
            return r;
        },
    };
    let r = certified_key_from_chain(read_certs(cert_chain), key);
    assert(spec_is_built(r, spec_certified_key_build(Some(cert_chain@), Some(private_key@), accepted)));
    r
}

/// What `rustls_certified_key_build` answers, where `accepted` is what the
/// engine says of the key that is found: `NullParameter` where there is
/// nowhere to put the key, else the outcome of the build.
pub open spec fn spec_certified_key_build_status(
    cert_chain: Option<Seq<u8>>,
    private_key: Option<Seq<u8>>,
    has_out: bool,
    accepted: bool,
) -> rustls_result {
    if !has_out {
        rustls_result::NullParameter
    } else {
        match spec_certified_key_build(cert_chain, private_key, accepted) {
            Ok(_) => rustls_result::Success,
            Err(e) => e,
        }
    }
}

/// Builds a certified key from a PEM certificate chain, leaf first, and a PEM
/// private key in PKCS#8 or PKCS#1 form, and stores a new handle to it in
/// `certified_key_out`.
///
/// The status is that of the build, or `NullParameter` if the output is
/// null. The handle is written on success only: on any failure the output is
/// left as it was. The caller gives the handle up with
/// `rustls_certified_key_free`.
pub fn rustls_certified_key_build(
    cert_chain: Option<&[u8]>,
    private_key: Option<&[u8]>,
    certified_key_out: Option<&mut Option<Arc<rustls_certified_key>>>,
) -> (r: rustls_result)
    ensures
        exists|accepted: bool|
            {
                &&& r == #[trigger] spec_certified_key_build_status(
                    opt_bytes(cert_chain),
                    opt_bytes(private_key),
                    certified_key_out is Some,
                    accepted,
                )
                &&& certified_key_out matches Some(out) ==> match spec_certified_key_build(
                    opt_bytes(cert_chain),
                    opt_bytes(private_key),
                    accepted,
                ) {
                    Ok((chain, key)) => *final(out) matches Some(k) && k.chain() == chain
                        && k.private_key() == key && k.ocsp() is None,
                    Err(_) => *final(out) == *out,
                }
            },
{
    let certified_key_out = match certified_key_out {
        Some(c) => c,
        None => {
            assert(rustls_result::NullParameter == spec_certified_key_build_status(
                opt_bytes(cert_chain),
                opt_bytes(private_key),
                false,
                true,
            ));
            return rustls_result::NullParameter;
        },
    };
    let built = certified_key_build(cert_chain, private_key);
    let ghost accepted: bool = choose|accepted: bool|
        spec_is_built(
            built,
            spec_certified_key_build(opt_bytes(cert_chain), opt_bytes(private_key), accepted),
        );
    let certified_key = match built {
        Ok(key) => key,
        Err(rr) => {
            assert(rr == spec_certified_key_build_status(
                opt_bytes(cert_chain),
                opt_bytes(private_key),
                true,
                accepted,
            ));
            return rr;
        },
    };
    *certified_key_out = Some(Arc::new(certified_key));
    assert(rustls_result::Success == spec_certified_key_build_status(
        opt_bytes(cert_chain),
        opt_bytes(private_key),
        true,
        accepted,
    ));
    rustls_result::Success
}

/// The certificate at position `i` of the chain of `key`: position 0 is the
/// leaf, the others follow in the order of the chain. There is none for a
/// null handle or a position past the end.
pub open spec fn spec_certificate_at(key: Option<&rustls_certified_key>, i: usize) -> Option<Seq<u8>> {
    match key {
        None => None,
        Some(k) => if i < k.chain().len() {
            Some(k.chain()[i as int])
        } else {
            None
        },
    }
}

/// Returns the certificate at position `i` of the chain of `key`, or nothing
/// for a null handle or a position past the end of the chain. The certificate
/// is lent for as long as the key is.
pub fn rustls_certified_key_get_certificate(
    key: Option<&rustls_certified_key>,
    i: usize,
) -> (r: Option<&rustls_certificate>)
    ensures
        match spec_certificate_at(key, i) {
            Some(der) => r matches Some(c) && c@ == der,
            None => r is None,
        },
{
    let certified_key: &rustls_certified_key = match key {
        Some(c) => c,
        None => return None,
    };
    if i < certified_key.cert.len() {
        Some(&certified_key.cert[i])
    } else {
        None
    }
}

/// The OCSP response that a clone is given: none where the caller passes
/// null, the bytes of the range where it passes one. A range without data is
/// refused.
pub open spec fn spec_ocsp_argument(ocsp_response: Option<&rustls_slice_bytes>) -> Result<
    Option<Seq<u8>>,
    rustls_result,
> {
    match ocsp_response {
        None => Ok(None),
        Some(range) => match range.bytes() {
            None => Err(rustls_result::NullParameter),
            Some(bytes) => Ok(Some(bytes)),
        },
    }
}

/// What `rustls_certified_key_clone_with_ocsp` answers: `NullParameter` for a
/// null output, a null key or an OCSP range without data, success otherwise.
pub open spec fn spec_clone_with_ocsp_status(
    key: Option<&rustls_certified_key>,
    ocsp_response: Option<&rustls_slice_bytes>,
    has_out: bool,
) -> rustls_result {
    if !has_out || key is None || spec_ocsp_argument(ocsp_response) is Err {
        rustls_result::NullParameter
    } else {
        rustls_result::Success
    }
}

/// Makes a copy of `key` that staples the OCSP response `ocsp_response`, or
/// none if that is null, and stores a handle to the copy in
/// `cloned_key_out`.
///
/// The copy is a new object with the chain and the private key of `key`; the
/// key itself is not changed, whoever else holds it. The handle is written on
/// success only.
pub fn rustls_certified_key_clone_with_ocsp(
    key: Option<&rustls_certified_key>,
    ocsp_response: Option<&rustls_slice_bytes>,
    cloned_key_out: Option<&mut Option<Arc<rustls_certified_key>>>,
) -> (r: rustls_result)
    ensures
        r == spec_clone_with_ocsp_status(key, ocsp_response, cloned_key_out is Some),
        cloned_key_out matches Some(out) ==> if r == rustls_result::Success {
            *final(out) matches Some(k) && k.chain() == key->0.chain() && k.private_key()
                == key->0.private_key() && Ok::<Option<Seq<u8>>, rustls_result>(k.ocsp())
                == spec_ocsp_argument(ocsp_response)
        } else {
            *final(out) == *out
        },
{
    let cloned_key_out = match cloned_key_out {
        Some(c) => c,
        None => return rustls_result::NullParameter,
    };
    let certified_key: &rustls_certified_key = match key {
        Some(c) => c,
        None => return rustls_result::NullParameter,
    };
    let ocsp: Option<Vec<u8>> = match ocsp_response {
        Some(range) => match range.data {
            Some(bytes) => Some(copy_bytes(bytes)),
            None => return rustls_result::NullParameter,
        },
        None => None,
    };
    proof {
        use_type_invariant(certified_key);
    }
    let new_key = rustls_certified_key {
        cert: copy_chain(&certified_key.cert),
        key: copy_bytes(certified_key.key.as_slice()),
        ocsp,
    };
    *cloned_key_out = Some(Arc::new(new_key));
    rustls_result::Success
}

/// Gives up one handle to a certified key. The key itself lives on while
/// another handle, or the engine, still holds it. Null is accepted.
pub fn rustls_certified_key_free(key: Option<Arc<rustls_certified_key>>) {
    match key {
        Some(handle) => {
            let _ = handle;
        },
        None => {},
    }
}

/// A new vector with the bytes of `bytes`.
fn copy_bytes(bytes: &[u8]) -> (r: Vec<u8>)
    ensures
        r@ == bytes@,
{
    let mut out: Vec<u8> = Vec::new();
    let mut i: usize = 0;
    while i < bytes.len()
        invariant
            i <= bytes.len(),
            out@ == bytes@.subrange(0, i as int),
        decreases bytes.len() - i,
    {
        out.push(bytes[i]);
        i += 1;
        assert(bytes@.subrange(0, i as int) =~= bytes@.subrange(0, i - 1).push(bytes@[i - 1]));
    }
    assert(bytes@.subrange(0, i as int) =~= bytes@);
    out
}

/// A new chain with copies of the certificates of `chain`.
fn copy_chain(chain: &Vec<rustls_certificate>) -> (r: Vec<rustls_certificate>)
    ensures
        r.len() == chain.len(),
        r.deep_view() == chain.deep_view(),
{
    let mut out: Vec<rustls_certificate> = Vec::new();
    let mut i: usize = 0;
    while i < chain.len()
        invariant
            i <= chain.len(),
            out.len() == i,
            forall|j: int| 0 <= j < i ==> out[j]@ == chain[j]@,
        decreases chain.len() - i,
    {
        out.push(rustls_certificate::new(copy_bytes(chain[i].as_der())));
        i += 1;
    }
    assert(out.deep_view() =~= chain.deep_view());
    out
}

/// A trust store that is being put together. It is owned by one holder, who
/// adds certificates to it and then turns it into a `rustls_root_cert_store`.
pub struct rustls_root_cert_store_builder {
    store: rustls::RootCertStore,
}

/// A finished trust store. It is never changed again, and a handle to it is
/// shared: the store lives until its last holder lets go.
pub struct rustls_root_cert_store {
    store: rustls::RootCertStore,
}

impl rustls_root_cert_store_builder {
    /// The trust anchors that were added so far, in the order of adding.
    pub closed spec fn anchors(&self) -> Seq<Anchor> {
        root_store_anchors(self.store)
    }
}

impl rustls_root_cert_store {
    /// The trust anchors of the store.
    pub closed spec fn anchors(&self) -> Seq<Anchor> {
        root_store_anchors(self.store)
    }

    /// The store in the form in which the engine takes it.
    pub fn as_engine_store(&self) -> (r: &rustls::RootCertStore)
        ensures
            root_store_anchors(*r) == self.anchors(),
    {
        &self.store
    }
}

/// Creates a trust store builder that holds no anchor yet. The caller owns
/// it, and ends it with `rustls_root_cert_store_builder_build` or
/// `rustls_root_cert_store_builder_free`.
pub fn rustls_root_cert_store_builder_new() -> (r: Box<rustls_root_cert_store_builder>)
    ensures
        r.anchors() == Seq::<Anchor>::empty(),
{
    let store = rustls::RootCertStore::empty();
    Box::new(rustls_root_cert_store_builder { store })
}

/// The status of adding certificates once the engine has gone through them:
/// `added` were taken as trust anchors and `rejected` were not, or the PEM
/// could not be read at all.
///
/// A PEM that cannot be read is always a `CertificateParseError`. In strict
/// mode so is a call in which a certificate was rejected or none was added.
pub open spec fn spec_add_pem_status(outcome: Result<(usize, usize), ()>, strict: bool) -> rustls_result {
    match outcome {
        Err(_) => rustls_result::CertificateParseError,
        Ok((added, rejected)) => if strict && (rejected > 0 || added == 0) {
            rustls_result::CertificateParseError
        } else {
            rustls_result::Success
        },
    }
}

/// What the engine reports of the PEM bytes `pem`: how many of its
/// certificates can serve as trust anchors and how many cannot, or that the
/// PEM cannot be read.
pub open spec fn spec_add_pem_outcome(pem: Seq<u8>) -> Result<(usize, usize), ()> {
    match engine_pem_certs(pem) {
        None => Err(()),
        Some(ders) => Ok(
            (
                accepted_anchors(ders).len() as usize,
                (ders.len() - accepted_anchors(ders).len()) as usize,
            ),
        ),
    }
}

/// The anchors that the PEM bytes `pem` add to a store: those of its
/// certificates that can serve as trust anchors, and none if the PEM cannot
/// be read.
pub open spec fn spec_added_anchors(pem: Seq<u8>) -> Seq<Anchor> {
    match engine_pem_certs(pem) {
        None => Seq::<Anchor>::empty(),
        Some(ders) => accepted_anchors(ders),
    }
}

/// Gives the status of adding certificates from what the engine reported.
pub fn add_pem_status(outcome: Result<(usize, usize), ()>, strict: bool) -> (r: rustls_result)
    ensures
        r == spec_add_pem_status(outcome, strict),
{
    match outcome {
        Ok((added, rejected)) => {
            if strict && (rejected > 0 || added == 0) {
                return rustls_result::CertificateParseError;
            }
        },
        Err(_) => return rustls_result::CertificateParseError,
    }
    rustls_result::Success
}

/// Adds the certificates of the PEM bytes `pem` to the builder.
///
/// Every certificate that can serve as a trust anchor is added, in the order
/// of the file, whatever the status: a failure in strict mode does not take
/// back what this call or an earlier one added. Without `strict`,
/// certificates that cannot serve are passed over in silence. With `strict`,
/// one such certificate, or a call that adds nothing, gives
/// `CertificateParseError`. A PEM that cannot be read gives
/// `CertificateParseError` and adds nothing. A null buffer or a null builder
/// gives `NullParameter` and adds nothing.
pub fn rustls_root_cert_store_builder_add_pem(
    builder: Option<&mut rustls_root_cert_store_builder>,
    pem: Option<&[u8]>,
    strict: bool,
) -> (r: rustls_result)
    ensures
        pem is None || builder is None ==> r == rustls_result::NullParameter,
        pem is Some && builder is Some ==> r == spec_add_pem_status(
            spec_add_pem_outcome(pem->0@),
            strict,
        ),
        builder matches Some(b) ==> final(b).anchors() == if pem is Some {
            b.anchors() + spec_added_anchors(pem->0@)
        } else {
            b.anchors()
        },
{
    let certs_pem: &[u8] = match pem {
        Some(p) => p,
        None => return rustls_result::NullParameter,
    };
    let store: &mut rustls_root_cert_store_builder = match builder {
        Some(b) => b,
        None => return rustls_result::NullParameter,
    };
    let outcome = root_store_add_pem_file(&mut store.store, certs_pem);
    add_pem_status(outcome, strict)
}

/// Turns a builder into a finished, read-only trust store with the same
/// anchors, and returns a handle to it. The builder is used up. A null
/// builder gives no store.
pub fn rustls_root_cert_store_builder_build(
    builder: Option<Box<rustls_root_cert_store_builder>>,
) -> (r: Option<Arc<rustls_root_cert_store>>)
    ensures
        match builder {
            None => r is None,
            Some(b) => r matches Some(store) && store.anchors() == b.anchors(),
        },
{
    match builder {
        None => None,
        Some(b) => {
            let b: rustls_root_cert_store_builder = *b;
            Some(Arc::new(rustls_root_cert_store { store: b.store }))
        },
    }
}

/// Gives up a builder without building a store from it. Null is accepted.
pub fn rustls_root_cert_store_builder_free(builder: Option<Box<rustls_root_cert_store_builder>>) {
    match builder {
        Some(owned) => {
            let _ = owned;
        },
        None => {},
    }
}

/// Gives up one handle to a trust store. The store itself lives on while
/// another handle, or the engine, still holds it. Null is accepted.
pub fn rustls_root_cert_store_free(store: Option<Arc<rustls_root_cert_store>>) {
    match store {
        Some(handle) => {
            let _ = handle;
        },
        None => {},
    }
}

/// A cipher suite that the engine supports, named by its number in the IANA
/// registry of TLS cipher suites.
#[derive(Clone, Copy, Debug)]
pub struct rustls_supported_ciphersuite {
    suite: u16,
}

/// Whether the engine supports the cipher suite with the number `suite`.
pub open spec fn is_supported_suite(suite: u16) -> bool {
    engine_suite_ids().contains(suite)
}

impl rustls_supported_ciphersuite {
    #[verifier::type_invariant]
    spec fn is_listed(&self) -> bool {
        is_supported_suite(self.suite)
    }

    /// The number of the suite.
    pub closed spec fn number(&self) -> u16 {
        self.suite
    }
}

/// Returns the number of the cipher suite, with the two bytes of its
/// registry entry read in network order. A null handle gives 0.
pub fn rustls_supported_ciphersuite_get_suite(
    supported_ciphersuite: Option<&rustls_supported_ciphersuite>,
) -> (r: u16)
    ensures
        match supported_ciphersuite {
            None => r == 0,
            Some(cs) => r == cs.number() && is_supported_suite(r),
        },
{
    match supported_ciphersuite {
        None => 0,
        Some(cs) => {
            proof {
                use_type_invariant(cs);
            }
            cs.suite
        },
    }
}

/// Returns the length of the engine's list of supported cipher suites.
pub fn rustls_all_ciphersuites_len() -> (n: usize)
    ensures
        n == engine_suite_ids().len(),
{
    engine_suite_count()
}

/// Returns the cipher suite at position `i` of the engine's list of
/// supported cipher suites, and nothing for a position past its end.
pub fn rustls_all_ciphersuites_get_entry(i: usize) -> (r: Option<rustls_supported_ciphersuite>)
    ensures
        match r {
            Some(cs) => i < engine_suite_ids().len() && cs.number() == engine_suite_ids()[i as int],
            None => i >= engine_suite_ids().len(),
        },
{
    if i < engine_suite_count() {
        let suite = engine_suite_id(i);
        Some(rustls_supported_ciphersuite { suite })
    } else {
        None
    }
}

/// A PEM chain with at least one certificate and a PEM that offers a key
/// build a certified key if the engine accepts the key, and fail with
/// `PrivateKeyParseError` if it does not. The key that is built serves the
/// certificates of the chain: position `i` gives the certificate at position
/// `i` of the file, the leaf at position 0, and a position past the end
/// gives nothing.
pub proof fn lemma_certified_key_round_trip(
    cert_chain: Seq<u8>,
    private_key: Seq<u8>,
    key: &rustls_certified_key,
    i: usize,
)
    requires
        pem_certs(cert_chain) matches Some(certs) && certs.len() > 0,
        spec_found_private_key(private_key) is Ok,
        spec_certified_key_build(Some(cert_chain), Some(private_key), true) matches Ok((chain, _))
            ==> key.chain() == chain,
    ensures
        spec_certified_key_build_status(Some(cert_chain), Some(private_key), true, true)
            == rustls_result::Success,
        spec_certified_key_build_status(Some(cert_chain), Some(private_key), true, false)
            == rustls_result::PrivateKeyParseError,
        spec_certified_key_build(Some(cert_chain), Some(private_key), true) == Ok::<
            (Seq<Seq<u8>>, Seq<u8>),
            rustls_result,
        >((pem_certs(cert_chain)->0, spec_found_private_key(private_key)->Ok_0)),
        spec_certificate_at(Some(key), i) == if i < pem_certs(cert_chain)->0.len() {
            Some(pem_certs(cert_chain)->0[i as int])
        } else {
            None
        },
{
}

/// What the engine says of a key matters only where a key is found: a null
/// buffer is `NullParameter`, and a PEM that offers no key is
/// `PrivateKeyParseError`, whatever the engine would say.
pub proof fn lemma_build_fails_without_the_engine(
    cert_chain: Option<Seq<u8>>,
    private_key: Option<Seq<u8>>,
    accepted: bool,
)
    ensures
        spec_certified_key_build(cert_chain, private_key, accepted) == Err::<
            (Seq<Seq<u8>>, Seq<u8>),
            rustls_result,
        >(rustls_result::NullParameter) <==> cert_chain is None || private_key is None,
        cert_chain is Some && private_key is Some && spec_found_private_key(private_key->0) is Err
            ==> spec_certified_key_build(cert_chain, private_key, accepted) == Err::<
            (Seq<Seq<u8>>, Seq<u8>),
            rustls_result,
        >(rustls_result::PrivateKeyParseError),
{
}

/// Loading without `strict` fails only where the PEM cannot be read. Loading
/// with `strict` succeeds only where loading without it does, and exactly
/// where at least one certificate was added and none was rejected. Either
/// way the status is success or `CertificateParseError`.
pub proof fn lemma_strict_and_lenient_status(outcome: Result<(usize, usize), ()>)
    ensures
        spec_add_pem_status(outcome, false) == rustls_result::Success <==> outcome is Ok,
        spec_add_pem_status(outcome, true) == rustls_result::Success ==> spec_add_pem_status(
            outcome,
            false,
        ) == rustls_result::Success,
        spec_add_pem_status(outcome, true) == rustls_result::Success <==> (outcome matches Ok(
            (added, rejected),
        ) && added > 0 && rejected == 0),
        forall|strict: bool|
            spec_add_pem_status(outcome, strict) == rustls_result::Success || #[trigger] spec_add_pem_status(
                outcome,
                strict,
            ) == rustls_result::CertificateParseError,
{
}

/// A PEM with one certificate that can serve as a trust anchor and one that
/// cannot is refused with `strict` and accepted without it, and in both cases
/// adds the anchor of the one that can serve.
pub proof fn lemma_one_valid_and_one_corrupted(pem: Seq<u8>, valid: Seq<u8>, corrupted: Seq<u8>)
    requires
        engine_pem_certs(pem) == Some(seq![valid, corrupted]) || engine_pem_certs(pem) == Some(
            seq![corrupted, valid],
        ),
        trust_anchor_of(valid) is Some,
        trust_anchor_of(corrupted) is None,
    ensures
        spec_add_pem_status(spec_add_pem_outcome(pem), true) == rustls_result::CertificateParseError,
        spec_add_pem_status(spec_add_pem_outcome(pem), false) == rustls_result::Success,
        spec_added_anchors(pem) == seq![trust_anchor_of(valid)->0],
{
    let ders = engine_pem_certs(pem)->0;
    let candidates = ders.map_values(|der: Seq<u8>| trust_anchor_of(der));
    let is_anchor = |a: Option<Anchor>| a is Some;
    reveal_with_fuel(Seq::filter, 3);
    assert(candidates.drop_last().drop_last() =~= Seq::<Option<Anchor>>::empty());
    assert(candidates.filter(is_anchor) =~= seq![trust_anchor_of(valid)]);
    assert(accepted_anchors(ders) =~= seq![trust_anchor_of(valid)->0]);
}

} // verus!
