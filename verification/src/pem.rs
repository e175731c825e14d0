//! PEM sections and private keys, as the outside parsers read them.
//!
//! Nothing in this file is proved: each function here makes one call into an
//! outside crate. Where what the call returns is settled by its arguments,
//! the contract names it.
use vstd::prelude::*;

verus! {

/// The certificates that `rustls_pemfile::certs` extracts from `pem`: the
/// decoded contents of its `CERTIFICATE` sections, in order of appearance.
/// `None` where that function returns an error, as it does for a section
/// without end and for contents that are not base64.
pub uninterp spec fn pem_certs(pem: Seq<u8>) -> Option<Seq<Seq<u8>>>;

/// The keys that `rustls_pemfile::pkcs8_private_keys` extracts from `pem`:
/// the decoded contents of its `PRIVATE KEY` sections, in order. `None` where
/// that function returns an error.
pub uninterp spec fn pem_pkcs8_private_keys(pem: Seq<u8>) -> Option<Seq<Seq<u8>>>;

/// The keys that `rustls_pemfile::rsa_private_keys` extracts from `pem`: the
/// decoded contents of its `RSA PRIVATE KEY` sections, in order. `None` where
/// that function returns an error.
pub uninterp spec fn pem_rsa_private_keys(pem: Seq<u8>) -> Option<Seq<Seq<u8>>>;

/// Calls `rustls_pemfile::certs` on the bytes of `pem`. The result is what
/// that function returns, with its error turned into `None`.
#[verifier::external_body]
pub(crate) fn read_certs(pem: &[u8]) -> (r: Option<Vec<Vec<u8>>>)
    ensures
        r.deep_view() == pem_certs(pem@),
{
    let mut reader = pem;
    rustls_pemfile::certs(&mut reader).ok()
}

/// Calls `rustls_pemfile::pkcs8_private_keys` on the bytes of `pem`. The
/// result is what that function returns, with its error turned into `None`.
#[verifier::external_body]
pub(crate) fn read_pkcs8_private_keys(pem: &[u8]) -> (r: Option<Vec<Vec<u8>>>)
    ensures
        r.deep_view() == pem_pkcs8_private_keys(pem@),
{
    let mut reader = pem;
    rustls_pemfile::pkcs8_private_keys(&mut reader).ok()
}

/// Calls `rustls_pemfile::rsa_private_keys` on the bytes of `pem`. The result
/// is what that function returns, with its error turned into `None`.
#[verifier::external_body]
pub(crate) fn read_rsa_private_keys(pem: &[u8]) -> (r: Option<Vec<Vec<u8>>>)
    ensures
        r.deep_view() == pem_rsa_private_keys(pem@),
{
    let mut reader = pem;
    rustls_pemfile::rsa_private_keys(&mut reader).ok()
}

/// Calls `rustls::sign::any_supported_type` on `der` and says whether it
/// returned a signing key.
///
/// Nothing is claimed of the answer. The engine takes an RSA key in PKCS#1
/// or PKCS#8 form and an ECDSA or Ed25519 key in PKCS#8 form; for an ECDSA
/// key it also draws on the random source of the system, and refuses the key
/// if that fails. So the answer is not settled by the bytes of the key alone.
#[verifier::external_body]
pub(crate) fn is_supported_signing_key(der: &Vec<u8>) -> bool {
    rustls::sign::any_supported_type(&rustls::PrivateKey(der.clone())).is_ok()
}

} // verus!
