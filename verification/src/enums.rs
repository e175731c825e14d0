//! The numbers and names of protocol versions, cipher suites and signature
//! schemes.
use vstd::prelude::*;
use vstd::string::StringSliceAdditionalSpecFns;

use crate::cipher::{
    is_supported_suite, rustls_all_ciphersuites_get_entry, rustls_all_ciphersuites_len,
    rustls_supported_ciphersuite, rustls_supported_ciphersuite_get_suite,
};
use crate::engine::{
    engine_scheme_debug_name, engine_scheme_identifier, engine_suite_debug_name, engine_suite_name,
    engine_suite_ids,
};
use crate::error::rustls_result;
use crate::rslice::{has_no_nul, rustls_str};
pub use crate::suites::rustls_cipersuite;

verus! {

/// Copies `name` to the start of `buf` if there is room for it.
pub fn copy_name(name: &[u8], buf: &mut [u8]) -> (copied: bool)
    ensures
        copied == (name@.len() < old(buf)@.len()),
        final(buf)@.len() == old(buf)@.len(),
        copied ==> final(buf)@ == name@ + old(buf)@.skip(name@.len() as int),
        !copied ==> final(buf)@ == old(buf)@,
{
    if name.len() >= buf.len() {
        return false;
    }
    let mut i: usize = 0;
    while i < name.len()
        invariant
            i <= name.len(),
            name@.len() < buf@.len(),
            buf@.len() == old(buf)@.len(),
            buf@ == name@.subrange(0, i as int) + old(buf)@.skip(i as int),
        decreases name.len() - i,
    {
        buf[i] = name[i];
        i += 1;
    }
    true
}

/// The versions of the protocol, each with its number on the wire.
#[derive(Clone, Copy, Debug, PartialEq, Eq, Structural)]
pub enum rustls_protocol_version {
    /// 0x0200
    SSLv2,
    /// 0x0300
    SSLv3,
    /// 0x0301
    TLSv1_0,
    /// 0x0302
    TLSv1_1,
    /// 0x0303
    TLSv1_2,
    /// 0x0304
    TLSv1_3,
}

impl rustls_protocol_version {
    /// The number of the version on the wire.
    pub open spec fn spec_get_u16(self) -> u16 {
        match self {
            rustls_protocol_version::SSLv2 => 0x0200,
            rustls_protocol_version::SSLv3 => 0x0300,
            rustls_protocol_version::TLSv1_0 => 0x0301,
            rustls_protocol_version::TLSv1_1 => 0x0302,
            rustls_protocol_version::TLSv1_2 => 0x0303,
            rustls_protocol_version::TLSv1_3 => 0x0304,
        }
    }

    /// Returns the number of the version on the wire.
    pub fn get_u16(self) -> (r: u16)
        ensures
            r == self.spec_get_u16(),
    {
        match self {
            rustls_protocol_version::SSLv2 => 0x0200,
            rustls_protocol_version::SSLv3 => 0x0300,
            rustls_protocol_version::TLSv1_0 => 0x0301,
            rustls_protocol_version::TLSv1_1 => 0x0302,
            rustls_protocol_version::TLSv1_2 => 0x0303,
            rustls_protocol_version::TLSv1_3 => 0x0304,
        }
    }
}

/// The version with the number `version_num`, if there is one.
pub open spec fn spec_protocol_version_from_u16(version_num: u16) -> Option<rustls_protocol_version> {
    match version_num {
        0x0200 => Some(rustls_protocol_version::SSLv2),
        0x0300 => Some(rustls_protocol_version::SSLv3),
        0x0301 => Some(rustls_protocol_version::TLSv1_0),
        0x0302 => Some(rustls_protocol_version::TLSv1_1),
        0x0303 => Some(rustls_protocol_version::TLSv1_2),
        0x0304 => Some(rustls_protocol_version::TLSv1_3),
        _ => None,
    }
}

/// Returns the version with the number `version_num`, if there is one.
pub fn rustls_protocol_version_from_u16(version_num: u16) -> (r: Option<rustls_protocol_version>)
    ensures
        r == spec_protocol_version_from_u16(version_num),
{
    match version_num {
        0x0200 => Some(rustls_protocol_version::SSLv2),
        0x0300 => Some(rustls_protocol_version::SSLv3),
        0x0301 => Some(rustls_protocol_version::TLSv1_0),
        0x0302 => Some(rustls_protocol_version::TLSv1_1),
        0x0303 => Some(rustls_protocol_version::TLSv1_2),
        0x0304 => Some(rustls_protocol_version::TLSv1_3),
        _ => None,
    }
}

/// A version is found again by its number, and a number finds no version
/// but the one that has it.
pub proof fn lemma_protocol_version_round_trip(version: rustls_protocol_version, version_num: u16)
    ensures
        spec_protocol_version_from_u16(version.spec_get_u16()) == Some(version),
        spec_protocol_version_from_u16(version_num) == Some(version) <==> version.spec_get_u16()
            == version_num,
{
}

/// Looks the number `cipher_num` up in the engine's list of supported cipher
/// suites, in the order of the list.
pub fn rustls_supported_ciphersuite_from_u16(
    cipher_num: u16,
) -> (r: Option<rustls_supported_ciphersuite>)
    ensures
        match r {
            Some(cs) => cs.number() == cipher_num && is_supported_suite(cipher_num),
            None => !is_supported_suite(cipher_num),
        },
{
    let n: usize = rustls_all_ciphersuites_len();
    let mut i: usize = 0;
    while i < n
        invariant
            n == engine_suite_ids().len(),
            i <= n,
            forall|j: int| 0 <= j < i ==> engine_suite_ids()[j] != cipher_num,
        decreases n - i,
    {
        match rustls_all_ciphersuites_get_entry(i) {
            Some(supported) => {
                if rustls_supported_ciphersuite_get_suite(Some(&supported)) == cipher_num {
                    return Some(supported);
                }
            },
            None => {},
        }
        i += 1;
    }
    None
}

/// The names by which the cipher suites are commonly known, for the suites
/// that have one.
pub open spec fn spec_known_name(id: u16) -> Option<Seq<u8>> {
    match id {
        0xc02b => Some("ECDHE-ECDSA-AES128-GCM-SHA256".spec_bytes()),
        0x1301 => Some("TLS_AES_128_GCM_SHA256".spec_bytes()),
        0xcca8 => Some("ECDHE-RSA-CHACHA20-POLY1305".spec_bytes()),
        0xc02c => Some("ECDHE-ECDSA-AES256-GCM-SHA384".spec_bytes()),
        0x1302 => Some("TLS_AES_256_GCM_SHA384".spec_bytes()),
        0xc02f => Some("ECDHE-RSA-AES128-GCM-SHA256".spec_bytes()),
        0xc030 => Some("ECDHE-RSA-AES256-GCM-SHA384".spec_bytes()),
        0xcca9 => Some("ECDHE-ECDSA-CHACHA20-POLY1305".spec_bytes()),
        0x1303 => Some("TLS_CHACHA20_POLY1305_SHA256".spec_bytes()),
        _ => None,
    }
}

/// The name of a supported cipher suite: its common name if it has one, else
/// the name under which the engine prints it.
pub open spec fn spec_suite_name(id: u16) -> Seq<u8> {
    match spec_known_name(id) {
        Some(name) => name,
        None => engine_suite_name(id),
    }
}

/// The ASCII digit for `nibble` in lower-case hexadecimal.
pub open spec fn spec_hex_digit(nibble: int) -> u8 {
    if nibble < 10 {
        (48 + nibble) as u8
    } else {
        (87 + nibble) as u8
    }
}

/// The name for a number that stands for nothing known: `Unknown(0x` and
/// `)` around the number in four lower-case hexadecimal digits.
pub open spec fn spec_unknown_name(value: u16) -> Seq<u8> {
    "Unknown(0x".spec_bytes() + seq![
        spec_hex_digit(value as int / 4096),
        spec_hex_digit(value as int / 256 % 16),
        spec_hex_digit(value as int / 16 % 16),
        spec_hex_digit(value as int % 16),
    ] + ")".spec_bytes()
}

/// The name of the cipher suite with the number `suite`.
pub open spec fn spec_ciphersuite_name(suite: u16) -> Seq<u8> {
    if is_supported_suite(suite) {
        spec_suite_name(suite)
    } else {
        spec_unknown_name(suite)
    }
}

/// The signature schemes that have a name, in the order in which they are
/// looked up.
pub open spec fn spec_all_signature_schemes() -> Seq<u16> {
    seq![
        0x0201u16,
        0x0203u16,
        0x0401u16,
        0x0403u16,
        0x0501u16,
        0x0503u16,
        0x0601u16,
        0x0603u16,
        0x0804u16,
        0x0805u16,
        0x0806u16,
        0x0807u16,
        0x0808u16,
    ]
}

/// The name of the signature scheme with the number `scheme`: the name under
/// which the engine prints it if it is one of the known schemes.
pub open spec fn spec_signature_scheme_name(scheme: u16) -> Seq<u8> {
    match engine_scheme_identifier(scheme) {
        Some(name) => name,
        None => spec_unknown_name(scheme),
    }
}

/// The schemes that have a name are those that the engine has an identifier
/// for.
pub proof fn lemma_known_schemes_have_identifiers(scheme: u16)
    ensures
        spec_all_signature_schemes().contains(scheme) <==> engine_scheme_identifier(scheme) is Some,
{
    let all = spec_all_signature_schemes();
    if engine_scheme_identifier(scheme) is Some {
        assert(exists|i: int| 0 <= i < all.len() && all[i] == scheme) by {
            assert(all[0] == 0x0201 && all[1] == 0x0203 && all[2] == 0x0401 && all[3] == 0x0403);
            assert(all[4] == 0x0501 && all[5] == 0x0503 && all[6] == 0x0601 && all[7] == 0x0603);
            assert(all[8] == 0x0804 && all[9] == 0x0805 && all[10] == 0x0806);
            assert(all[11] == 0x0807 && all[12] == 0x0808);
        }
    }
}

fn known_name(id: u16) -> (r: Option<&'static str>)
    ensures
        match spec_known_name(id) {
            Some(name) => r matches Some(s) && s.spec_bytes() == name,
            None => r is None,
        },
{
    match id {
        0xc02b => Some("ECDHE-ECDSA-AES128-GCM-SHA256"),
        0x1301 => Some("TLS_AES_128_GCM_SHA256"),
        0xcca8 => Some("ECDHE-RSA-CHACHA20-POLY1305"),
        0xc02c => Some("ECDHE-ECDSA-AES256-GCM-SHA384"),
        0x1302 => Some("TLS_AES_256_GCM_SHA384"),
        0xc02f => Some("ECDHE-RSA-AES128-GCM-SHA256"),
        0xc030 => Some("ECDHE-RSA-AES256-GCM-SHA384"),
        0xcca9 => Some("ECDHE-ECDSA-CHACHA20-POLY1305"),
        0x1303 => Some("TLS_CHACHA20_POLY1305_SHA256"),
        _ => None,
    }
}

/// Appends the bytes of `tail` to `out`.
fn append_bytes(out: &mut Vec<u8>, tail: &[u8])
    ensures
        final(out)@ == old(out)@ + tail@,
{
    let mut i: usize = 0;
    while i < tail.len()
        invariant
            i <= tail.len(),
            out@ == old(out)@ + tail@.subrange(0, i as int),
        decreases tail.len() - i,
    {
        out.push(tail[i]);
        i += 1;
    }
    assert(tail@.subrange(0, i as int) =~= tail@);
}

fn hex_digit(nibble: u16) -> (r: u8)
    requires
        nibble < 16,
    ensures
        r == spec_hex_digit(nibble as int),
{
    if nibble < 10 {
        (48 + nibble) as u8
    } else {
        (87 + nibble) as u8
    }
}

/// Gives the name of a supported cipher suite: its common name if it has
/// one, else the name under which the engine prints it.
pub fn ciphersuite_get_name(cipher: &rustls_supported_ciphersuite) -> (name: Vec<u8>)
    ensures
        name@ == spec_suite_name(cipher.number()),
{
    let id: u16 = rustls_supported_ciphersuite_get_suite(Some(cipher));
    match known_name(id) {
        Some(wellknown) => {
            let mut name: Vec<u8> = Vec::new();
            append_bytes(&mut name, wellknown.as_bytes());
            name
        },
        None => engine_suite_debug_name(id),
    }
}

/// Gives the name for a number that stands for nothing known.
pub fn unknown_name(value: u16) -> (name: Vec<u8>)
    ensures
        name@ == spec_unknown_name(value),
{
    let mut name: Vec<u8> = Vec::new();
    append_bytes(&mut name, "Unknown(0x".as_bytes());
    name.push(hex_digit(value / 4096));
    name.push(hex_digit(value / 256 % 16));
    name.push(hex_digit(value / 16 % 16));
    name.push(hex_digit(value % 16));
    append_bytes(&mut name, ")".as_bytes());
    name
}

/// What handing a name out through a caller's buffer gives, where neither
/// the buffer nor the length output is null: the name is copied whole if the
/// buffer is longer than the name, and refused with `InsufficientSize` if it
/// is not.
pub open spec fn spec_store_name_status(name: Seq<u8>, room: nat) -> rustls_result {
    if name.len() < room {
        rustls_result::Success
    } else {
        rustls_result::InsufficientSize
    }
}

/// Hands `name` out through the caller's buffer `buf` and stores the number
/// of bytes copied in `out_n`.
///
/// With a null `out_n` nothing is written. Otherwise `out_n` is set: to the
/// length of the name if the name was copied, and to 0 if the buffer is null
/// or not longer than the name. The buffer is written only if the whole name
/// fits; the name is not followed by a NUL.
pub fn store_name(
    name: &[u8],
    buf: Option<&mut [u8]>,
    out_n: Option<&mut usize>,
) -> (r: rustls_result)
    ensures
        r == if out_n is None || buf is None {
            rustls_result::NullParameter
        } else {
            spec_store_name_status(name@, buf->0@.len())
        },
        out_n matches Some(n) ==> *final(n) == if r == rustls_result::Success {
            name@.len()
        } else {
            0
        },
        buf matches Some(b) ==> final(b)@ == if r == rustls_result::Success {
            name@ + b@.skip(name@.len() as int)
        } else {
            b@
        },
{
    let out_n: &mut usize = match out_n {
        Some(n) => n,
        None => return rustls_result::NullParameter,
    };
    *out_n = 0;
    let write_buf: &mut [u8] = match buf {
        Some(b) => b,
        None => return rustls_result::NullParameter,
    };
    if !copy_name(name, write_buf) {
        return rustls_result::InsufficientSize;
    }
    *out_n = name.len();
    rustls_result::Success
}

/// Writes the name of the cipher suite with the number `suite` to `buf`, and
/// the length of the name to `out_n`.
///
/// A suite that the engine supports has its common name, or the name under
/// which the engine prints it; any other number gets a name that shows the
/// number in hexadecimal. A null `out_n` or `buf` gives `NullParameter`; a
/// buffer that is not longer than the name gives `InsufficientSize`, with
/// nothing copied and a length of 0.
pub fn rustls_ciphersuite_get_name(
    suite: u16,
    buf: Option<&mut [u8]>,
    out_n: Option<&mut usize>,
) -> (r: rustls_result)
    ensures
        r == if out_n is None || buf is None {
            rustls_result::NullParameter
        } else {
            spec_store_name_status(spec_ciphersuite_name(suite), buf->0@.len())
        },
        out_n matches Some(n) ==> *final(n) == if r == rustls_result::Success {
            spec_ciphersuite_name(suite).len()
        } else {
            0
        },
        buf matches Some(b) ==> final(b)@ == if r == rustls_result::Success {
            spec_ciphersuite_name(suite) + b@.skip(spec_ciphersuite_name(suite).len() as int)
        } else {
            b@
        },
{
    let name: Vec<u8> = match rustls_supported_ciphersuite_from_u16(suite) {
        Some(s) => ciphersuite_get_name(&s),
        None => unknown_name(suite),
    };
    store_name(name.as_slice(), buf, out_n)
}

/// Returns the numbers of the signature schemes that have a name.
pub fn all_signature_schemes() -> (r: Vec<u16>)
    ensures
        r@ == spec_all_signature_schemes(),
{
    let r: Vec<u16> = vec![
        0x0201u16,
        0x0203u16,
        0x0401u16,
        0x0403u16,
        0x0501u16,
        0x0503u16,
        0x0601u16,
        0x0603u16,
        0x0804u16,
        0x0805u16,
        0x0806u16,
        0x0807u16,
        0x0808u16,
    ];
    assert(r@ =~= spec_all_signature_schemes());
    r
}

/// Gives the name of the signature scheme with the number `scheme`.
pub fn signature_scheme_get_name(scheme: u16) -> (name: Vec<u8>)
    ensures
        name@ == spec_signature_scheme_name(scheme),
{
    let schemes: Vec<u16> = all_signature_schemes();
    let mut i: usize = 0;
    while i < schemes.len()
        invariant
            i <= schemes.len(),
            schemes@ == spec_all_signature_schemes(),
            forall|j: int| 0 <= j < i ==> schemes@[j] != scheme,
        decreases schemes.len() - i,
    {
        if schemes[i] == scheme {
            proof {
                lemma_known_schemes_have_identifiers(scheme);
            }
            return engine_scheme_debug_name(scheme);
        }
        i += 1;
    }
    proof {
        lemma_known_schemes_have_identifiers(scheme);
    }
    unknown_name(scheme)
}

/// Writes the name of the signature scheme with the number `scheme` to
/// `buf`, and the length of the name to `out_n`.
///
/// A known scheme has the name under which the engine prints it; any other
/// number gets a name that shows the number in hexadecimal. A null `out_n`
/// or `buf` gives `NullParameter`; a buffer that is not longer than the name
/// gives `InsufficientSize`, with nothing copied and a length of 0.
pub fn rustls_signature_scheme_get_name(
    scheme: u16,
    buf: Option<&mut [u8]>,
    out_n: Option<&mut usize>,
) -> (r: rustls_result)
    ensures
        r == if out_n is None || buf is None {
            rustls_result::NullParameter
        } else {
            spec_store_name_status(spec_signature_scheme_name(scheme), buf->0@.len())
        },
        out_n matches Some(n) ==> *final(n) == if r == rustls_result::Success {
            spec_signature_scheme_name(scheme).len()
        } else {
            0
        },
        buf matches Some(b) ==> final(b)@ == if r == rustls_result::Success {
            spec_signature_scheme_name(scheme) + b@.skip(spec_signature_scheme_name(scheme).len() as int)
        } else {
            b@
        },
{
    let name: Vec<u8> = signature_scheme_get_name(scheme);
    store_name(name.as_slice(), buf, out_n)
}

/// Whether `entries` lists the first `n` supported cipher suites, each with
/// its number and its name, in the order of the engine's list.
pub open spec fn are_suite_entries(entries: Seq<(u16, Vec<u8>)>, n: int) -> bool {
    &&& entries.len() == n
    &&& forall|i: int|
        0 <= i < n ==> (#[trigger] entries[i]).0 == engine_suite_ids()[i] && entries[i].1@
            == spec_suite_name(engine_suite_ids()[i])
}

/// Lists the supported cipher suites, each with its number and its name, in
/// the order of the engine's list.
pub fn supported_ciphersuite_entries() -> (entries: Vec<(u16, Vec<u8>)>)
    ensures
        are_suite_entries(entries@, engine_suite_ids().len() as int),
{
    let n: usize = rustls_all_ciphersuites_len();
    let mut entries: Vec<(u16, Vec<u8>)> = Vec::new();
    let mut i: usize = 0;
    while i < n
        invariant
            n == engine_suite_ids().len(),
            i <= n,
            are_suite_entries(entries@, i as int),
        decreases n - i,
    {
        match rustls_all_ciphersuites_get_entry(i) {
            Some(cipher) => {
                let name: Vec<u8> = ciphersuite_get_name(&cipher);
                entries.push((rustls_supported_ciphersuite_get_suite(Some(&cipher)), name));
            },
            None => {},
        }
        i += 1;
    }
    entries
}

/// A string of ASCII characters other than NUL has no NUL among its bytes.
proof fn lemma_ascii_name_has_no_nul(name: &str)
    requires
        forall|i: int| 0 <= i < name@.len() ==> '\u{1}' <= #[trigger] name@[i] <= '\u{7f}',
    ensures
        has_no_nul(name.spec_bytes()),
{
    vstd::utf8::is_ascii_chars_encode_utf8(name@);
    assert forall|i: int| 0 <= i < name.spec_bytes().len() implies name.spec_bytes()[i] != 0 by {
        assert(name@[i] as u8 == name.spec_bytes()[i]);
    }
}

/// The name of every supported cipher suite can be lent as a string: none of
/// the names holds a NUL.
pub proof fn lemma_suite_names_have_no_nul(i: int)
    requires
        0 <= i < engine_suite_ids().len(),
    ensures
        has_no_nul(spec_suite_name(engine_suite_ids()[i])),
{
    reveal_strlit("ECDHE-ECDSA-AES128-GCM-SHA256");
    reveal_strlit("TLS_AES_128_GCM_SHA256");
    reveal_strlit("ECDHE-RSA-CHACHA20-POLY1305");
    reveal_strlit("ECDHE-ECDSA-AES256-GCM-SHA384");
    reveal_strlit("TLS_AES_256_GCM_SHA384");
    reveal_strlit("ECDHE-RSA-AES128-GCM-SHA256");
    reveal_strlit("ECDHE-RSA-AES256-GCM-SHA384");
    reveal_strlit("ECDHE-ECDSA-CHACHA20-POLY1305");
    reveal_strlit("TLS_CHACHA20_POLY1305_SHA256");
    lemma_ascii_name_has_no_nul("ECDHE-ECDSA-AES128-GCM-SHA256");
    lemma_ascii_name_has_no_nul("TLS_AES_128_GCM_SHA256");
    lemma_ascii_name_has_no_nul("ECDHE-RSA-CHACHA20-POLY1305");
    lemma_ascii_name_has_no_nul("ECDHE-ECDSA-AES256-GCM-SHA384");
    lemma_ascii_name_has_no_nul("TLS_AES_256_GCM_SHA384");
    lemma_ascii_name_has_no_nul("ECDHE-RSA-AES128-GCM-SHA256");
    lemma_ascii_name_has_no_nul("ECDHE-RSA-AES256-GCM-SHA384");
    lemma_ascii_name_has_no_nul("ECDHE-ECDSA-CHACHA20-POLY1305");
    lemma_ascii_name_has_no_nul("TLS_CHACHA20_POLY1305_SHA256");
}

/// Whether `callback` was called for the suite at position `i` of the
/// engine's list, with `userdata`, the number of the suite and its name.
pub open spec fn spec_was_called_for<F: Fn(usize, u16, &rustls_str)>(callback: F, userdata: usize, i: int) -> bool {
    exists|name: &rustls_str|
        name.bytes() == spec_suite_name(engine_suite_ids()[i]) && #[trigger] call_ensures(
            callback,
            (userdata, engine_suite_ids()[i], name),
            (),
        )
}

/// Calls `callback` once for each supported cipher suite, in the order of
/// the engine's list, with `userdata`, the number of the suite and its name.
/// The name is lent for the time of the call only.
///
/// A null callback is not called.
pub fn rustls_supported_ciphersuite_iter<F: Fn(usize, u16, &rustls_str)>(callback: Option<F>, userdata: usize)
    requires
        callback matches Some(f) ==> forall|u: usize, id: u16, name: &rustls_str|
            call_requires(f, (u, id, name)),
    ensures
        callback matches Some(f) ==> forall|i: int|
            0 <= i < engine_suite_ids().len() ==> #[trigger] spec_was_called_for(f, userdata, i),
{
    let cb: F = match callback {
        Some(cb) => cb,
        None => return ,
    };
    let entries: Vec<(u16, Vec<u8>)> = supported_ciphersuite_entries();
    let mut i: usize = 0;
    while i < entries.len()
        invariant
            i <= entries.len(),
            callback == Some(cb),
            are_suite_entries(entries@, engine_suite_ids().len() as int),
            forall|u: usize, id: u16, name: &rustls_str| call_requires(cb, (u, id, name)),
            forall|k: int| 0 <= k < i ==> #[trigger] spec_was_called_for(cb, userdata, k),
        decreases entries.len() - i,
    {
        assert(has_no_nul(entries@[i as int].1@)) by {
            lemma_suite_names_have_no_nul(i as int);
        }
        match rustls_str::try_from(entries[i].1.as_slice()) {
            Some(rs) => {
                cb(userdata, entries[i].0, &rs);
                assert(call_ensures(cb, (userdata, engine_suite_ids()[i as int], &rs), ()));
                assert(spec_was_called_for(cb, userdata, i as int));
            },
            None => return ,
        }
        i += 1;
    }
}

} // verus!
