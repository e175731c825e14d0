//! Connections: one TLS session of the engine, client or server, with the
//! context that its owner attached to it.
use vstd::prelude::*;
use vstd::string::StringSliceAdditionalSpecFns;

use crate::cipher::{is_supported_suite, rustls_certificate, rustls_supported_ciphersuite};
use crate::engine::{
    client_session_write, engine_error, server_session_write, session_alpn_protocol,
    session_is_handshaking, session_negotiated_ciphersuite, session_peer_certificates,
    session_process_new_packets, session_protocol_version, session_read, session_read_tls,
    session_send_close_notify, session_set_buffer_limit, session_wants_read, session_wants_write,
    session_write_tls,
};
use crate::enums::rustls_supported_ciphersuite_from_u16;
use crate::error::{map_error, rustls_io_result, rustls_result, spec_map_error, EngineError};
use crate::io::{is_read_callback, is_write_callback, CallbackReader, CallbackWriter};
use crate::os::{einval, eio, error_message, io_error_code, is_connection_aborted};
use crate::rslice::opt_bytes;
use crate::userdata::{spec_drop_result, Userdata, UserdataError};

verus! {

/// The session of a connection: that of a client or that of a server.
pub enum Inner {
    Client(rustls::ClientSession),
    Server(rustls::ServerSession),
}

/// A connection. Its handle is exclusive: one holder owns the connection,
/// uses it from one thread at a time, and ends it with
/// `rustls_connection_free`.
///
/// The connection remembers what the handshake settled and what callers ask
/// for by reference, the certificates of the peer and the application
/// protocol, so that it can lend them for as long as it lives.
pub struct rustls_connection {
    conn: Inner,
    userdata: usize,
    peer_certs: Option<Vec<rustls_certificate>>,
    alpn: Option<Vec<u8>>,
}

impl rustls_connection {
    /// The session of the connection.
    pub closed spec fn session(&self) -> Inner {
        self.conn
    }

    /// The context that the owner attached to the connection.
    pub closed spec fn userdata(&self) -> usize {
        self.userdata
    }

    /// The chain of certificates that the peer presented, as far as the
    /// connection has learnt of one: the certificate of the peer first.
    pub closed spec fn peer_certificates(&self) -> Option<Seq<Seq<u8>>> {
        match self.peer_certs {
            Some(chain) => Some(chain.deep_view()),
            None => None,
        }
    }

    /// The application protocol that was agreed with the peer, as far as the
    /// connection has learnt of one.
    pub closed spec fn alpn_protocol(&self) -> Option<Seq<u8>> {
        match self.alpn {
            Some(protocol) => Some(protocol@),
            None => None,
        }
    }

    /// Whether this connection has the context of `before`, and remembers of
    /// the peer what `before` does.
    pub open spec fn has_record_of(&self, before: &Self) -> bool {
        &&& self.userdata() == before.userdata()
        &&& self.peer_certificates() == before.peer_certificates()
        &&& self.alpn_protocol() == before.alpn_protocol()
    }

    /// A connection around the client session `session`, with a null
    /// context.
    pub fn from_client(session: rustls::ClientSession) -> (r: Self)
        ensures
            r.session() == Inner::Client(session),
            r.userdata() == 0,
            r.peer_certificates() is None,
            r.alpn_protocol() is None,
    {
        rustls_connection { conn: Inner::Client(session), userdata: 0, peer_certs: None, alpn: None }
    }

    /// A connection around the server session `session`, with a null
    /// context.
    pub fn from_server(session: rustls::ServerSession) -> (r: Self)
        ensures
            r.session() == Inner::Server(session),
            r.userdata() == 0,
            r.peer_certificates() is None,
            r.alpn_protocol() is None,
    {
        rustls_connection { conn: Inner::Server(session), userdata: 0, peer_certs: None, alpn: None }
    }

    /// The context that the owner attached to the connection.
    pub fn get_userdata(&self) -> (r: usize)
        ensures
            r == self.userdata(),
    {
        self.userdata
    }
}

/// Attaches the context `userdata` to the connection. It is what the
/// callbacks that the connection leads to are given. A null connection is
/// left alone.
pub fn rustls_connection_set_userdata(conn: Option<&mut rustls_connection>, userdata: usize)
    ensures
        conn matches Some(c) ==> final(c).userdata() == userdata && final(c).session() == c.session()
            && final(c).peer_certificates() == c.peer_certificates() && final(c).alpn_protocol()
            == c.alpn_protocol(),
{
    match conn {
        Some(c) => {
            c.userdata = userdata;
        },
        None => {},
    }
}

/// Whether the status `status` and the stored count `after` are what a
/// transfer comes to, where the engine reports `transfer` and the output
/// held `before`.
///
/// A transfer that went well has the status 0 and stores the number of bytes
/// moved. A failed transfer has the error number that the failure carries,
/// which is that of the callback if the callback failed, and leaves the
/// output alone. A failure without an error number counts as a general I/O
/// error, which is not zero.
pub open spec fn spec_is_transfer(
    transfer: Result<usize, Option<i32>>,
    status: rustls_io_result,
    before: usize,
    after: usize,
) -> bool {
    match transfer {
        Ok(n) => status == rustls_io_result(0) && after == n,
        Err(Some(code)) => status == rustls_io_result(code) && after == before,
        Err(None) => status.0 != 0 && after == before,
    }
}

/// Ends a transfer between the connection and the network: stores the number
/// of bytes moved in `out_n` if the transfer went well, and returns the
/// status. `out_n` is written on success only.
pub fn store_transfer(transfer: Result<usize, Option<i32>>, out_n: &mut usize) -> (r: rustls_io_result)
    ensures
        spec_is_transfer(transfer, r, *old(out_n), *final(out_n)),
{
    match transfer {
        Ok(n) => {
            *out_n = n;
            rustls_io_result(0)
        },
        Err(Some(code)) => rustls_io_result(code),
        Err(None) => rustls_io_result(eio()),
    }
}

/// The status with which a transfer refuses a null parameter. It is not
/// zero.
fn null_io_status() -> (r: rustls_io_result)
    ensures
        r.0 != 0,
{
    rustls_io_result(einval())
}

/// What the engine reports of a transfer, as plain data: the number of
/// bytes moved as it is, and of a failure the error number that it carries,
/// if it carries one.
pub open spec fn spec_transfer_error(result: Result<usize, std::io::Error>) -> Result<usize, Option<i32>> {
    match result {
        Ok(n) => Ok(n),
        Err(e) => Err(io_error_code(e)),
    }
}

/// Turns what the engine reports of a transfer into plain data.
fn transfer_error(result: Result<usize, std::io::Error>) -> (r: Result<usize, Option<i32>>)
    ensures
        r == spec_transfer_error(result),
{
    match result {
        Ok(n) => Ok(n),
        Err(e) => Err(e.raw_os_error()),
    }
}

/// Lets the connection read TLS bytes from the network, through `callback`,
/// into its buffers. The callback is called with `userdata` as its context,
/// and with a capacity that it need not use up.
///
/// Returns 0 and stores the number of bytes read in `out_n`, or returns the
/// error number of the failure. `out_n` is written on success only. A null
/// connection, output or callback is refused with an error number before the
/// callback is called.
pub fn rustls_connection_read_tls<F: Fn(usize, usize) -> (rustls_io_result, Vec<u8>)>(
    conn: Option<&mut rustls_connection>,
    callback: Option<F>,
    userdata: usize,
    out_n: Option<&mut usize>,
) -> (r: rustls_io_result)
    requires
        callback matches Some(f) ==> is_read_callback(f),
    ensures
        conn is None || out_n is None || callback is None ==> r.0 != 0,
        out_n matches Some(n) ==> if conn is None || callback is None {
            *final(n) == *n
        } else {
            exists|transfer: Result<usize, Option<i32>>| #[trigger] spec_is_transfer(transfer, r, *n, *final(n))
        },
        conn matches Some(c) ==> final(c).has_record_of(c),
{
    let conn: &mut rustls_connection = match conn {
        Some(c) => c,
        None => return null_io_status(),
    };
    let out_n: &mut usize = match out_n {
        Some(n) => n,
        None => return null_io_status(),
    };
    let callback: F = match callback {
        Some(cb) => cb,
        None => return null_io_status(),
    };
    let mut reader = CallbackReader::new(callback, userdata);
    let result = match &mut conn.conn {
        Inner::Client(c) => session_read_tls(c, &mut reader),
        Inner::Server(s) => session_read_tls(s, &mut reader),
    };
    store_transfer(transfer_error(result), out_n)
}

/// Lets the connection write pending TLS bytes to the network, through
/// `callback`. The callback is called with `userdata` as its context, and
/// need not take all the bytes that it is given.
///
/// Returns 0 and stores the number of bytes written in `out_n`, or returns
/// the error number of the failure. `out_n` is written on success only. A
/// null connection, output or callback is refused with an error number before
/// the callback is called.
pub fn rustls_connection_write_tls<F: Fn(usize, &[u8]) -> (rustls_io_result, usize)>(
    conn: Option<&mut rustls_connection>,
    callback: Option<F>,
    userdata: usize,
    out_n: Option<&mut usize>,
) -> (r: rustls_io_result)
    requires
        callback matches Some(f) ==> is_write_callback(f),
    ensures
        conn is None || out_n is None || callback is None ==> r.0 != 0,
        out_n matches Some(n) ==> if conn is None || callback is None {
            *final(n) == *n
        } else {
            exists|transfer: Result<usize, Option<i32>>| #[trigger] spec_is_transfer(transfer, r, *n, *final(n))
        },
        conn matches Some(c) ==> final(c).has_record_of(c),
{
    let conn: &mut rustls_connection = match conn {
        Some(c) => c,
        None => return null_io_status(),
    };
    let out_n: &mut usize = match out_n {
        Some(n) => n,
        None => return null_io_status(),
    };
    let callback: F = match callback {
        Some(cb) => cb,
        None => return null_io_status(),
    };
    let mut writer = CallbackWriter::new(callback, userdata);
    let result = match &mut conn.conn {
        Inner::Client(c) => session_write_tls(c, &mut writer),
        Inner::Server(s) => session_write_tls(s, &mut writer),
    };
    store_transfer(transfer_error(result), out_n)
}

/// The status of processing buffered records, from what the engine reports
/// and from what dropping the context found.
///
/// A stack of contexts that is out of step is an internal failure and
/// outweighs everything else: its status is `Panic`. It is not a failure to
/// go on after. A context that leaked would be handed to a later call that
/// has nothing to do with it, so a caller that finds the stack out of step is
/// to end the process and not hand the status on. Otherwise success is
/// success, and an error of the engine has the code that stands for it.
pub open spec fn spec_process_status(
    engine: Result<(), EngineError>,
    dropped: Result<(), UserdataError>,
) -> rustls_result {
    match dropped {
        Err(_) => rustls_result::Panic,
        Ok(_) => match engine {
            Ok(_) => rustls_result::Success,
            Err(e) => spec_map_error(e),
        },
    }
}

/// Gives the status of processing buffered records. Where `dropped` is an
/// error the status is `Panic`, and the caller is to end the process.
pub fn process_status(
    engine: Result<(), EngineError>,
    dropped: Result<(), UserdataError>,
) -> (r: rustls_result)
    ensures
        r == spec_process_status(engine, dropped),
{
    let result = match engine {
        Ok(_) => rustls_result::Success,
        Err(e) => map_error(e),
    };
    match dropped {
        Ok(_) => result,
        Err(_) => rustls_result::Panic,
    }
}

/// Whether the connection `after` still knows of the peer what the
/// connection `before` knew: certificates and an application protocol, once
/// learnt, are not forgotten and not replaced.
pub open spec fn spec_keeps_what_was_learnt(before: &rustls_connection, after: &rustls_connection) -> bool {
    &&& before.peer_certificates() is Some ==> after.peer_certificates() == before.peer_certificates()
    &&& before.alpn_protocol() is Some ==> after.alpn_protocol() == before.alpn_protocol()
}

/// What a connection knows of a thing that the handshake settles once,
/// after it was told what the engine reports: what it knew before, if it knew
/// anything, and else what it was told.
pub open spec fn spec_recorded<T>(known: Option<T>, reported: Option<T>) -> Option<T> {
    if known is Some {
        known
    } else {
        reported
    }
}

/// Records what the engine reports of the peer: the chain of certificates
/// that the peer presented, each as its DER encoding, and the application
/// protocol that was agreed. What the connection knows already is kept, and
/// what it does not know yet is taken from the report. The session and the
/// context of the connection are not changed.
pub fn record_peer(conn: &mut rustls_connection, chain: Option<Vec<Vec<u8>>>, protocol: Option<Vec<u8>>)
    ensures
        final(conn).userdata() == old(conn).userdata(),
        final(conn).session() == old(conn).session(),
        final(conn).peer_certificates() == spec_recorded(old(conn).peer_certificates(), chain.deep_view()),
        final(conn).alpn_protocol() == spec_recorded(
            old(conn).alpn_protocol(),
            match protocol {
                Some(p) => Some(p@),
                None => None,
            },
        ),
{
    if conn.peer_certs.is_none() {
        conn.peer_certs = certificates_of(chain);
    }
    if conn.alpn.is_none() {
        conn.alpn = protocol;
    }
}

/// Lets the engine process the TLS records that the connection has read,
/// and records what they settle of the certificates of the peer and of the
/// application protocol. The context of the connection is to be at the top
/// of the stack of contexts for the time of the call.
///
/// The result is what the engine reports: success, or its error as plain
/// data. The context of the connection is not changed. What the connection
/// knew of the peer before, it still knows; what it did not know, it takes
/// from the engine.
pub fn process_new_packets(conn: &mut rustls_connection) -> (r: Result<(), EngineError>)
    ensures
        final(conn).userdata() == old(conn).userdata(),
        spec_keeps_what_was_learnt(old(conn), final(conn)),
{
    let processed = match &mut conn.conn {
        Inner::Client(c) => session_process_new_packets(c),
        Inner::Server(s) => session_process_new_packets(s),
    };
    let chain: Option<Vec<Vec<u8>>> = if conn.peer_certs.is_none() {
        match &conn.conn {
            Inner::Client(c) => session_peer_certificates(c),
            Inner::Server(s) => session_peer_certificates(s),
        }
    } else {
        None
    };
    let protocol: Option<Vec<u8>> = if conn.alpn.is_none() {
        match &conn.conn {
            Inner::Client(c) => session_alpn_protocol(c),
            Inner::Server(s) => session_alpn_protocol(s),
        }
    } else {
        None
    };
    record_peer(conn, chain, protocol);
    match processed {
        Ok(_) => Ok(()),
        Err(e) => Err(engine_error(&e)),
    }
}

/// Lets the connection process the TLS records that it has read. What the
/// records settle of the certificates of the peer and of the application
/// protocol is remembered from then on.
///
/// The context of the connection is pushed on `userdata` for the time of the
/// processing and dropped afterwards, whether the engine succeeds or fails,
/// so that the stack is left as it was found. Returns success, or the code
/// that stands for the error of the engine. A null connection gives
/// `NullParameter` and leaves the stack alone.
pub fn rustls_connection_process_new_packets(
    conn: Option<&mut rustls_connection>,
    userdata: &mut Userdata,
) -> (r: rustls_result)
    ensures
        final(userdata)@ == old(userdata)@,
        conn is None ==> r == rustls_result::NullParameter,
        conn is Some ==> exists|engine: Result<(), EngineError>|
            r == #[trigger] spec_process_status(engine, Ok::<(), UserdataError>(())),
        conn matches Some(c) ==> final(c).userdata() == c.userdata() && spec_keeps_what_was_learnt(
            c,
            final(c),
        ),
{
    let conn: &mut rustls_connection = match conn {
        Some(c) => c,
        None => return rustls_result::NullParameter,
    };
    let guard = userdata.userdata_push(conn.userdata);
    let engine = process_new_packets(conn);
    let dropped = userdata.try_drop(guard);
    proof {
        assert(old(userdata)@.push(conn.userdata).drop_last() =~= old(userdata)@);
        assert(dropped == spec_drop_result(old(userdata)@.push(conn.userdata), conn.userdata));
    }
    process_status(engine, dropped)
}

/// Says whether the connection wants to read more TLS bytes from the
/// network. A null connection wants nothing.
pub fn rustls_connection_wants_read(conn: Option<&rustls_connection>) -> (r: bool)
    ensures
        conn is None ==> !r,
{
    match conn {
        None => false,
        Some(conn) => match &conn.conn {
            Inner::Client(c) => session_wants_read(c),
            Inner::Server(s) => session_wants_read(s),
        },
    }
}

/// Says whether the connection has TLS bytes to write to the network. A
/// null connection has none.
pub fn rustls_connection_wants_write(conn: Option<&rustls_connection>) -> (r: bool)
    ensures
        conn is None ==> !r,
{
    match conn {
        None => false,
        Some(conn) => match &conn.conn {
            Inner::Client(c) => session_wants_write(c),
            Inner::Server(s) => session_wants_write(s),
        },
    }
}

/// Says whether the handshake of the connection is still under way. A null
/// connection has none.
pub fn rustls_connection_is_handshaking(conn: Option<&rustls_connection>) -> (r: bool)
    ensures
        conn is None ==> !r,
{
    match conn {
        None => false,
        Some(conn) => match &conn.conn {
            Inner::Client(c) => session_is_handshaking(c),
            Inner::Server(s) => session_is_handshaking(s),
        },
    }
}

/// Limits the buffers in which the connection keeps plaintext that is not
/// yet sent and TLS records that are not yet written, to `n` bytes. The
/// limit can be set at any time. A null connection is left alone.
pub fn rustls_connection_set_buffer_limit(conn: Option<&mut rustls_connection>, n: usize)
    ensures
        conn matches Some(c) ==> final(c).has_record_of(c),
{
    match conn {
        None => {},
        Some(conn) => match &mut conn.conn {
            Inner::Client(c) => session_set_buffer_limit(c, n),
            Inner::Server(s) => session_set_buffer_limit(s, n),
        },
    }
}

/// Queues a close-notify alert, which the next write to the network sends.
/// A null connection is left alone.
pub fn rustls_connection_send_close_notify(conn: Option<&mut rustls_connection>)
    ensures
        conn matches Some(c) ==> final(c).has_record_of(c),
{
    match conn {
        None => {},
        Some(conn) => match &mut conn.conn {
            Inner::Client(c) => session_send_close_notify(c),
            Inner::Server(s) => session_send_close_notify(s),
        },
    }
}

/// The certificate at position `i` of the chain that a peer presented:
/// position 0 is the certificate of the peer itself. There is none where the
/// peer presented no chain, and none past the end of the chain.
pub open spec fn spec_certificate_of(certs: Option<Seq<Seq<u8>>>, i: usize) -> Option<Seq<u8>> {
    match certs {
        Some(chain) => if i < chain.len() {
            Some(chain[i as int])
        } else {
            None
        },
        None => None,
    }
}

/// Turns the chain that the engine reports, each certificate as its DER
/// encoding, into certificates in the same order.
pub fn certificates_of(chain: Option<Vec<Vec<u8>>>) -> (r: Option<Vec<rustls_certificate>>)
    ensures
        match chain {
            Some(ders) => r matches Some(certs) && certs.deep_view() == ders.deep_view(),
            None => r is None,
        },
{
    match chain {
        None => None,
        Some(mut ders) => {
            let ghost all = ders.deep_view();
            let n: usize = ders.len();
            let mut certs: Vec<rustls_certificate> = Vec::new();
            let mut i: usize = 0;
            while i < n
                invariant
                    n == all.len(),
                    i <= n,
                    ders.len() == n,
                    certs.len() == i,
                    forall|j: int| 0 <= j < i ==> certs[j]@ == all[j],
                    forall|j: int| i <= j < n ==> ders[j]@ == all[j],
                decreases n - i,
            {
                let mut der: Vec<u8> = Vec::new();
                std::mem::swap(&mut der, &mut ders[i]);
                certs.push(rustls_certificate::new(der));
                i += 1;
            }
            assert(certs.deep_view() =~= all);
            Some(certs)
        },
    }
}

/// Returns the certificate at position `i` of the chain that the peer
/// presented: position 0 is the certificate of the peer itself, the others
/// follow in the order of the chain. Returns nothing for a null connection,
/// for a peer that presented no chain, and for a position past the end. The
/// certificate is lent for as long as the connection is.
pub fn rustls_connection_get_peer_certificate(
    conn: Option<&rustls_connection>,
    i: usize,
) -> (r: Option<&rustls_certificate>)
    ensures
        match conn {
            None => r is None,
            Some(c) => match spec_certificate_of(c.peer_certificates(), i) {
                Some(der) => r matches Some(cert) && cert@ == der,
                None => r is None,
            },
        },
{
    let conn: &rustls_connection = match conn {
        Some(c) => c,
        None => return None,
    };
    match &conn.peer_certs {
        Some(v) => if i < v.len() {
            Some(&v[i])
        } else {
            None
        },
        None => None,
    }
}

/// Stores the application protocol that was agreed with the peer in
/// `protocol_out`, and its length in `protocol_out_len`. While the handshake
/// is under way, and where no protocol was agreed, it stores nothing and 0.
/// The name is lent for as long as the connection is. If the connection or
/// an output is null, nothing is written.
pub fn rustls_connection_get_alpn_protocol<'a>(
    conn: Option<&'a rustls_connection>,
    protocol_out: Option<&mut Option<&'a [u8]>>,
    protocol_out_len: Option<&mut usize>,
)
    ensures
        protocol_out matches Some(out) ==> if conn is Some && protocol_out_len is Some {
            opt_bytes(*final(out)) == conn->0.alpn_protocol()
        } else {
            *final(out) == *out
        },
        protocol_out_len matches Some(len) ==> *final(len) == if conn is Some && protocol_out is Some {
            match conn->0.alpn_protocol() {
                Some(p) => p.len() as usize,
                None => 0,
            }
        } else {
            *len
        },
{
    let conn: &rustls_connection = match conn {
        Some(c) => c,
        None => return ,
    };
    let protocol_out: &mut Option<&'a [u8]> = match protocol_out {
        Some(p) => p,
        None => return ,
    };
    let protocol_out_len: &mut usize = match protocol_out_len {
        Some(l) => l,
        None => return ,
    };
    match &conn.alpn {
        Some(p) => {
            *protocol_out = Some(p.as_slice());
            *protocol_out_len = p.len();
        },
        None => {
            *protocol_out = None;
            *protocol_out_len = 0;
        },
    }
}

/// The number under which a protocol version is reported: its number on the
/// wire, or 0 where no version was agreed yet.
pub fn protocol_version_number(version: Option<u16>) -> (r: u16)
    ensures
        r == match version {
            Some(v) => v,
            None => 0,
        },
{
    match version {
        Some(p) => p,
        _ => 0,
    }
}

/// Returns the number of the protocol version that was agreed with the
/// peer, or 0 before the handshake has settled it. A null connection gives
/// 0.
pub fn rustls_connection_get_protocol_version(conn: Option<&rustls_connection>) -> (r: u16)
    ensures
        conn is None ==> r == 0,
{
    let conn: &rustls_connection = match conn {
        Some(c) => c,
        None => return 0,
    };
    let version = match &conn.conn {
        Inner::Client(c) => session_protocol_version(c),
        Inner::Server(s) => session_protocol_version(s),
    };
    protocol_version_number(version)
}

/// The cipher suite of the engine's list that has the number `suite`, if a
/// suite was agreed and is on the list.
pub fn negotiated_ciphersuite(suite: Option<u16>) -> (r: Option<rustls_supported_ciphersuite>)
    ensures
        match r {
            Some(cs) => suite == Some(cs.number()) && is_supported_suite(cs.number()),
            None => suite matches Some(id) ==> !is_supported_suite(id),
        },
{
    match suite {
        Some(id) => rustls_supported_ciphersuite_from_u16(id),
        None => None,
    }
}

/// Returns the cipher suite that was agreed with the peer, and nothing
/// until one is agreed. A null connection gives nothing.
pub fn rustls_connection_get_negotiated_ciphersuite(
    conn: Option<&rustls_connection>,
) -> (r: Option<rustls_supported_ciphersuite>)
    ensures
        conn is None ==> r is None,
        r matches Some(cs) ==> is_supported_suite(cs.number()),
{
    let conn: &rustls_connection = match conn {
        Some(c) => c,
        None => return None,
    };
    let suite = match &conn.conn {
        Inner::Client(c) => session_negotiated_ciphersuite(c),
        Inner::Server(s) => session_negotiated_ciphersuite(s),
    };
    negotiated_ciphersuite(suite)
}

/// Whether the status `status` and the stored count `after` are what moving
/// plaintext into or out of the connection comes to, where the engine
/// reports `moved` and the output held `before`. A failure tells whether it
/// is the clean end of the session.
///
/// Success stores the number of bytes moved. A close-notify alert from the
/// peer is the expected end of a session and has a status of its own; every
/// other failure is an I/O error. A failure leaves the output alone.
pub open spec fn spec_is_moved(moved: Result<usize, bool>, status: rustls_result, before: usize, after: usize) -> bool {
    match moved {
        Ok(n) => status == rustls_result::Success && after == n,
        Err(close_notify) => after == before && status == if close_notify {
            rustls_result::AlertCloseNotify
        } else {
            rustls_result::Io
        },
    }
}

/// Ends a move of plaintext into or out of the connection: stores the number
/// of bytes moved in `out_n` on success, and returns the status. `out_n` is
/// written on success only.
pub fn store_plaintext(moved: Result<usize, bool>, out_n: &mut usize) -> (r: rustls_result)
    ensures
        spec_is_moved(moved, r, *old(out_n), *final(out_n)),
{
    match moved {
        Ok(n) => {
            *out_n = n;
            rustls_result::Success
        },
        Err(true) => rustls_result::AlertCloseNotify,
        Err(false) => rustls_result::Io,
    }
}

/// Whether `needle` stands in `haystack` at the offset `at`.
pub open spec fn spec_occurs_at(haystack: Seq<u8>, needle: Seq<u8>, at: int) -> bool {
    &&& 0 <= at
    &&& at + needle.len() <= haystack.len()
    &&& forall|k: int| 0 <= k < needle.len() ==> haystack[at + k] == needle[k]
}

/// Whether `needle` stands somewhere in `haystack`.
pub open spec fn spec_contains(haystack: Seq<u8>, needle: Seq<u8>) -> bool {
    exists|at: int| spec_occurs_at(haystack, needle, at)
}

/// Says whether `needle` stands in `haystack` at the offset `at`.
fn occurs_at(haystack: &[u8], needle: &[u8], at: usize) -> (r: bool)
    requires
        at + needle@.len() <= haystack@.len(),
    ensures
        r == spec_occurs_at(haystack@, needle@, at as int),
{
    let n: usize = haystack.len();
    let mut k: usize = 0;
    while k < needle.len()
        invariant
            k <= needle@.len(),
            n == haystack@.len(),
            at + needle@.len() <= n,
            forall|j: int| 0 <= j < k ==> haystack@[at + j] == needle@[j],
        decreases needle.len() - k,
    {
        if haystack[at + k] != needle[k] {
            return false;
        }
        k += 1;
    }
    true
}

/// Says whether `needle` stands somewhere in `haystack`.
pub fn contains_bytes(haystack: &[u8], needle: &[u8]) -> (r: bool)
    ensures
        r == spec_contains(haystack@, needle@),
{
    if needle.len() > haystack.len() {
        assert forall|at: int| !spec_occurs_at(haystack@, needle@, at) by {}
        return false;
    }
    let last: usize = haystack.len() - needle.len();
    let mut at: usize = 0;
    loop
        invariant
            at <= last,
            last == haystack@.len() - needle@.len(),
            forall|j: int| 0 <= j < at ==> !spec_occurs_at(haystack@, needle@, j),
        decreases last - at,
    {
        if occurs_at(haystack, needle, at) {
            return true;
        }
        if at == last {
            assert forall|j: int| !spec_occurs_at(haystack@, needle@, j) by {}
            return false;
        }
        at += 1;
    }
}

/// Whether an error of the engine's plaintext reader tells that the peer
/// closed the session with a close-notify alert: the error is an aborted
/// connection, and its message names the alert.
pub open spec fn spec_is_close_notify(connection_aborted: bool, message: Seq<u8>) -> bool {
    connection_aborted && spec_contains(message, "CloseNotify".spec_bytes())
}

/// Says whether an error tells that the peer closed the session with a
/// close-notify alert, from the kind of the error and its message.
pub fn is_close_notify(connection_aborted: bool, message: &[u8]) -> (r: bool)
    ensures
        r == spec_is_close_notify(connection_aborted, message@),
{
    connection_aborted && contains_bytes(message, "CloseNotify".as_bytes())
}

/// Takes up to `buf.len()` bytes of plaintext from `buf` into the
/// connection, to be sent to the peer by later writes to the network.
///
/// Returns success and stores the number of bytes taken in `out_n`, which
/// may be less than was offered. The engine takes plaintext without fail, so
/// a null connection, buffer or output, which gives `NullParameter`, is all
/// that keeps the call from success. `out_n` is written on success only.
pub fn rustls_connection_write(
    conn: Option<&mut rustls_connection>,
    buf: Option<&[u8]>,
    out_n: Option<&mut usize>,
) -> (r: rustls_result)
    ensures
        r == if conn is None || buf is None || out_n is None {
            rustls_result::NullParameter
        } else {
            rustls_result::Success
        },
        out_n matches Some(n) ==> if r == rustls_result::Success {
            buf matches Some(b) && *final(n) <= b@.len()
        } else {
            *final(n) == *n
        },
        conn matches Some(c) ==> final(c).has_record_of(c),
{
    let conn: &mut rustls_connection = match conn {
        Some(c) => c,
        None => return rustls_result::NullParameter,
    };
    let write_buf: &[u8] = match buf {
        Some(b) => b,
        None => return rustls_result::NullParameter,
    };
    let out_n: &mut usize = match out_n {
        Some(n) => n,
        None => return rustls_result::NullParameter,
    };
    let written = match &mut conn.conn {
        Inner::Client(c) => client_session_write(c, write_buf),
        Inner::Server(s) => server_session_write(s, write_buf),
    };
    let moved: Result<usize, bool> = match written {
        Ok(n) => Ok(n),
        Err(_) => Err(false),
    };
    store_plaintext(moved, out_n)
}

/// Gives out up to `buf.len()` bytes of received plaintext into `buf`.
///
/// Returns success and stores the number of bytes read in `out_n`. Success
/// with 0 bytes means that all plaintext that is there was read; more may
/// come after further reads from the network. A peer that closed the
/// session with a close-notify alert gives `AlertCloseNotify`, any other
/// failure `Io`. A null connection, buffer or output gives `NullParameter`.
/// `out_n` is written on success only.
pub fn rustls_connection_read(
    conn: Option<&mut rustls_connection>,
    buf: Option<&mut [u8]>,
    out_n: Option<&mut usize>,
) -> (r: rustls_result)
    ensures
        conn is None || buf is None || out_n is None ==> r == rustls_result::NullParameter,
        conn is Some && buf is Some && out_n is Some ==> r == rustls_result::Success || r
            == rustls_result::Io || r == rustls_result::AlertCloseNotify,
        out_n matches Some(n) ==> if conn is None || buf is None {
            *final(n) == *n
        } else {
            exists|moved: Result<usize, bool>|
                #[trigger] spec_is_moved(moved, r, *n, *final(n)) && (moved matches Ok(m) ==> m
                    <= buf->0@.len())
        },
        buf matches Some(b) ==> final(b)@.len() == b@.len() && (conn is None || out_n is None
            ==> final(b)@ == b@),
        conn matches Some(c) ==> final(c).has_record_of(c),
{
    let conn: &mut rustls_connection = match conn {
        Some(c) => c,
        None => return rustls_result::NullParameter,
    };
    let read_buf: &mut [u8] = match buf {
        Some(b) => b,
        None => return rustls_result::NullParameter,
    };
    let out_n: &mut usize = match out_n {
        Some(n) => n,
        None => return rustls_result::NullParameter,
    };
    let read = match &mut conn.conn {
        Inner::Client(c) => session_read(c, read_buf),
        Inner::Server(s) => session_read(s, read_buf),
    };
    let moved: Result<usize, bool> = match read {
        Ok(n) => Ok(n),
        Err(e) => Err(is_close_notify(is_connection_aborted(&e), error_message(&e).as_slice())),
    };
    store_plaintext(moved, out_n)
}

/// Ends a connection and everything that it owns. Null is accepted.
pub fn rustls_connection_free(conn: Option<Box<rustls_connection>>) {
    match conn {
        Some(owned) => {
            let _ = owned;
        },
        None => {},
    }
}

} // verus!
