//! The TLS engine, as this library sees it: the outside types that it holds
//! and the calls that it makes into them.
//!
//! Nothing in this file is proved. Each function hands one call on to the
//! engine, or turns a value of the engine into plain data, and its contract
//! says what the source of the engine shows of that.
use rustls::internal::msgs::codec::Codec;
use rustls::TLSError;
use vstd::prelude::*;
use vstd::string::StringSliceAdditionalSpecFns;

use crate::error::{rustls_io_result, EngineError};
use crate::io::{CallbackReader, CallbackWriter};

verus! {

/// A trust anchor as the engine's store holds it: the subject, the public key
/// information and the optional name constraints of a root certificate.
pub type Anchor = (Seq<u8>, Seq<u8>, Option<Seq<u8>>);

#[verifier::external_type_specification]
#[verifier::external_body]
pub struct ExRootCertStore(rustls::RootCertStore);

/// The trust anchors that a `rustls::RootCertStore` holds, in the order of
/// its list of roots.
pub uninterp spec fn root_store_anchors(store: rustls::RootCertStore) -> Seq<Anchor>;

/// The certificates that the engine's own PEM reader,
/// `rustls::internal::pemfile::certs`, extracts from `pem`: the decoded
/// contents of its certificate sections, in order. `None` where that
/// function returns an error, as it does for contents that are not base64.
pub uninterp spec fn engine_pem_certs(pem: Seq<u8>) -> Option<Seq<Seq<u8>>>;

/// The trust anchor that `webpki::trust_anchor_util::cert_der_as_trust_anchor`
/// takes from the certificate `der`, or `None` where it refuses the
/// certificate.
pub uninterp spec fn trust_anchor_of(der: Seq<u8>) -> Option<Anchor>;

/// The anchors of those certificates among `ders` that can serve as a trust
/// anchor, in the order of `ders`.
pub open spec fn accepted_anchors(ders: Seq<Seq<u8>>) -> Seq<Anchor> {
    ders.map_values(|der: Seq<u8>| trust_anchor_of(der)).filter(|a: Option<Anchor>| a is Some).map_values(
        |a: Option<Anchor>| a->0,
    )
}

/// `rustls::RootCertStore::empty` returns a store without anchors.
pub assume_specification[ rustls::RootCertStore::empty ]() -> (store: rustls::RootCertStore)
    ensures
        root_store_anchors(store) == Seq::<Anchor>::empty(),
;

/// Calls `rustls::RootCertStore::add_pem_file` on the bytes of `pem`.
///
/// That method first extracts the certificates with the engine's PEM reader
/// and fails, before it touches the store, if the reader fails. Otherwise it
/// goes through the certificates in order, appends the anchor of each one
/// that can serve as a trust anchor, and returns how many it appended and how
/// many it passed over.
#[verifier::external_body]
pub(crate) fn root_store_add_pem_file(
    store: &mut rustls::RootCertStore,
    pem: &[u8],
) -> (r: Result<(usize, usize), ()>)
    ensures
        match engine_pem_certs(pem@) {
            None => r is Err && root_store_anchors(*final(store)) == root_store_anchors(*old(store)),
            Some(ders) => r matches Ok((added, rejected)) && added == accepted_anchors(ders).len()
                && added + rejected == ders.len() && root_store_anchors(*final(store))
                == root_store_anchors(*old(store)) + accepted_anchors(ders) && (rejected == 0
                <==> forall|i: int| 0 <= i < ders.len() ==> trust_anchor_of(#[trigger] ders[i]) is Some),
        },
{
    let mut reader = pem;
    store.add_pem_file(&mut reader)
}

/// The numbers of the cipher suites in `rustls::ALL_CIPHERSUITES`, in the
/// order of that list: the three TLS 1.3 suites, then the six TLS 1.2 suites.
pub open spec fn engine_suite_ids() -> Seq<u16> {
    seq![
        0x1303u16,
        0x1302u16,
        0x1301u16,
        0xcca9u16,
        0xcca8u16,
        0xc02cu16,
        0xc02bu16,
        0xc030u16,
        0xc02fu16,
    ]
}

/// The name under which the engine prints the cipher suite with the number
/// `id`: the `Debug` form of `rustls::CipherSuite`, as ASCII bytes.
pub uninterp spec fn engine_suite_name(id: u16) -> Seq<u8>;

/// The identifier of the signature scheme with the number `id` in
/// `rustls::SignatureScheme`, as ASCII bytes, for the schemes that the
/// engine has an identifier for. It is the name under which the engine
/// prints the scheme: the `Debug` form of a variant is its identifier.
pub open spec fn engine_scheme_identifier(id: u16) -> Option<Seq<u8>> {
    match id {
        0x0201 => Some("RSA_PKCS1_SHA1".spec_bytes()),
        0x0203 => Some("ECDSA_SHA1_Legacy".spec_bytes()),
        0x0401 => Some("RSA_PKCS1_SHA256".spec_bytes()),
        0x0403 => Some("ECDSA_NISTP256_SHA256".spec_bytes()),
        0x0501 => Some("RSA_PKCS1_SHA384".spec_bytes()),
        0x0503 => Some("ECDSA_NISTP384_SHA384".spec_bytes()),
        0x0601 => Some("RSA_PKCS1_SHA512".spec_bytes()),
        0x0603 => Some("ECDSA_NISTP521_SHA512".spec_bytes()),
        0x0804 => Some("RSA_PSS_SHA256".spec_bytes()),
        0x0805 => Some("RSA_PSS_SHA384".spec_bytes()),
        0x0806 => Some("RSA_PSS_SHA512".spec_bytes()),
        0x0807 => Some("ED25519".spec_bytes()),
        0x0808 => Some("ED448".spec_bytes()),
        _ => None,
    }
}

/// The length of `rustls::ALL_CIPHERSUITES`.
#[verifier::external_body]
pub(crate) fn engine_suite_count() -> (n: usize)
    ensures
        n == engine_suite_ids().len(),
{
    rustls::ALL_CIPHERSUITES.len()
}

/// The number of the cipher suite at position `i` of
/// `rustls::ALL_CIPHERSUITES`.
#[verifier::external_body]
pub(crate) fn engine_suite_id(i: usize) -> (id: u16)
    requires
        i < engine_suite_ids().len(),
    ensures
        id == engine_suite_ids()[i as int],
{
    rustls::ALL_CIPHERSUITES[i].suite.get_u16()
}

/// Formats the `rustls::CipherSuite` with the number `id` with `{:?}`.
#[verifier::external_body]
pub(crate) fn engine_suite_debug_name(id: u16) -> (name: Vec<u8>)
    ensures
        name@ == engine_suite_name(id),
{
    let suite = rustls::CipherSuite::read_bytes(&id.to_be_bytes());
    format!("{:?}", suite.unwrap_or(rustls::CipherSuite::Unknown(id))).into_bytes()
}

/// Formats the `rustls::SignatureScheme` with the number `id` with `{:?}`,
/// for a scheme that the engine has an identifier for.
#[verifier::external_body]
pub(crate) fn engine_scheme_debug_name(id: u16) -> (name: Vec<u8>)
    requires
        engine_scheme_identifier(id) is Some,
    ensures
        Some(name@) == engine_scheme_identifier(id),
{
    let scheme = rustls::SignatureScheme::read_bytes(&id.to_be_bytes());
    format!("{:?}", scheme.unwrap_or(rustls::SignatureScheme::Unknown(id))).into_bytes()
}

#[verifier::external_type_specification]
#[verifier::external_body]
pub struct ExClientSession(rustls::ClientSession);

#[verifier::external_type_specification]
#[verifier::external_body]
pub struct ExServerSession(rustls::ServerSession);

#[verifier::external_type_specification]
#[verifier::external_body]
pub struct ExTLSError(rustls::TLSError);

/// Tells the variants of `rustls::TLSError` apart. An alert is given with
/// the number of its description; an error of `webpki` or of `sct` with its
/// position in the declaration of that error type, counted from 0.
#[verifier::external_body]
pub(crate) fn engine_error(e: &TLSError) -> EngineError {
    match e {
        TLSError::InappropriateMessage { .. } => EngineError::InappropriateMessage,
        TLSError::InappropriateHandshakeMessage { .. } => EngineError::InappropriateHandshakeMessage,
        TLSError::CorruptMessage => EngineError::CorruptMessage, TLSError::DecryptError => EngineError::DecryptError,
        TLSError::CorruptMessagePayload(_) => EngineError::CorruptMessagePayload,
        TLSError::NoCertificatesPresented => EngineError::NoCertificatesPresented,
        TLSError::PeerIncompatibleError(_) => EngineError::PeerIncompatibleError,
        TLSError::PeerMisbehavedError(_) => EngineError::PeerMisbehavedError,
        TLSError::AlertReceived(alert) => EngineError::AlertReceived(alert.get_u8()),
        TLSError::WebPKIError(w) => EngineError::WebPKIError(*w as u8), TLSError::InvalidSCT(s) => EngineError::InvalidSCT(*s as u8),
        TLSError::General(_) => EngineError::General, TLSError::HandshakeNotComplete => EngineError::HandshakeNotComplete,
        TLSError::FailedToGetCurrentTime => EngineError::FailedToGetCurrentTime,
        TLSError::PeerSentOversizedRecord => EngineError::PeerSentOversizedRecord,
        TLSError::NoApplicationProtocol => EngineError::NoApplicationProtocol,
    }
}

/// Calls `rustls::Session::read_tls` with `reader`. The session reads from
/// the reader and keeps what it read for `process_new_packets`.
#[verifier::external_body]
pub(crate) fn session_read_tls<S: rustls::Session, F: Fn(usize, usize) -> (rustls_io_result, Vec<u8>)>(
    session: &mut S,
    reader: &mut CallbackReader<F>,
) -> Result<usize, std::io::Error> {
    session.read_tls(reader)
}

/// Calls `rustls::Session::write_tls` with `writer`. The session hands
/// pending TLS bytes to the writer.
#[verifier::external_body]
pub(crate) fn session_write_tls<S: rustls::Session, F: Fn(usize, &[u8]) -> (rustls_io_result, usize)>(
    session: &mut S,
    writer: &mut CallbackWriter<F>,
) -> Result<usize, std::io::Error> {
    session.write_tls(writer)
}

/// Calls `rustls::Session::process_new_packets`.
#[verifier::external_body]
pub(crate) fn session_process_new_packets<S: rustls::Session>(
    session: &mut S,
) -> Result<(), TLSError> {
    session.process_new_packets()
}

/// Calls `rustls::Session::wants_read`.
#[verifier::external_body]
pub(crate) fn session_wants_read<S: rustls::Session>(session: &S) -> bool {
    session.wants_read()
}

/// Calls `rustls::Session::wants_write`.
#[verifier::external_body]
pub(crate) fn session_wants_write<S: rustls::Session>(session: &S) -> bool {
    session.wants_write()
}

/// Calls `rustls::Session::is_handshaking`.
#[verifier::external_body]
pub(crate) fn session_is_handshaking<S: rustls::Session>(session: &S) -> bool {
    session.is_handshaking()
}

/// Calls `rustls::Session::set_buffer_limit`.
#[verifier::external_body]
pub(crate) fn session_set_buffer_limit<S: rustls::Session>(session: &mut S, limit: usize) {
    session.set_buffer_limit(limit)
}

/// Calls `rustls::Session::send_close_notify`.
#[verifier::external_body]
pub(crate) fn session_send_close_notify<S: rustls::Session>(session: &mut S) {
    session.send_close_notify()
}

/// Calls `rustls::Session::get_peer_certificates` and gives each certificate
/// as its DER encoding.
#[verifier::external_body]
pub(crate) fn session_peer_certificates<S: rustls::Session>(session: &S) -> Option<Vec<Vec<u8>>> {
    session.get_peer_certificates().map(|certs| certs.into_iter().map(|c| c.0).collect())
}

/// Calls `rustls::Session::get_alpn_protocol` and copies the protocol name.
#[verifier::external_body]
pub(crate) fn session_alpn_protocol<S: rustls::Session>(session: &S) -> Option<Vec<u8>> {
    session.get_alpn_protocol().map(|p| p.to_vec())
}

/// Calls `rustls::Session::get_protocol_version` and gives the version as
/// its number.
#[verifier::external_body]
pub(crate) fn session_protocol_version<S: rustls::Session>(session: &S) -> Option<u16> {
    session.get_protocol_version().map(|v| v.get_u16())
}

/// Calls `rustls::Session::get_negotiated_ciphersuite` and gives the suite
/// as its number.
#[verifier::external_body]
pub(crate) fn session_negotiated_ciphersuite<S: rustls::Session>(session: &S) -> Option<u16> {
    session.get_negotiated_ciphersuite().map(|cs| cs.suite.get_u16())
}

/// Calls the `std::io::Write::write` of a client session, which takes
/// plaintext to send. It always succeeds, and takes no more bytes than `buf`
/// holds.
#[verifier::external_body]
pub(crate) fn client_session_write(
    session: &mut rustls::ClientSession,
    buf: &[u8],
) -> (r: Result<usize, std::io::Error>)
    ensures
        r is Ok,
        r matches Ok(n) ==> n <= buf@.len(),
{
    std::io::Write::write(session, buf)
}

/// Calls the `std::io::Write::write` of a server session, which takes
/// plaintext to send. It always succeeds, and takes no more bytes than `buf`
/// holds.
#[verifier::external_body]
pub(crate) fn server_session_write(
    session: &mut rustls::ServerSession,
    buf: &[u8],
) -> (r: Result<usize, std::io::Error>)
    ensures
        r is Ok,
        r matches Ok(n) ==> n <= buf@.len(),
{
    std::io::Write::write(session, buf)
}

/// Calls the `std::io::Read::read` of the session, which gives out received
/// plaintext. By the contract of that trait, the session stores no more
/// bytes than `buf` has room for.
#[verifier::external_body]
pub(crate) fn session_read<S: rustls::Session>(
    session: &mut S,
    buf: &mut [u8],
) -> (r: Result<usize, std::io::Error>)
    ensures
        final(buf)@.len() == old(buf)@.len(),
        r matches Ok(n) ==> n <= old(buf)@.len(),
{
    session.read(buf)
}

} // verus!
