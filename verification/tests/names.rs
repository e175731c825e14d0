use std::cell::RefCell;

use crustls::cipher::{
    rustls_all_ciphersuites_get_entry, rustls_all_ciphersuites_len, rustls_supported_ciphersuite_get_suite,
};
use crustls::enums::{
    all_signature_schemes, ciphersuite_get_name, copy_name, rustls_cipersuite, rustls_ciphersuite_get_name,
    rustls_protocol_version, rustls_protocol_version_from_u16, rustls_signature_scheme_get_name,
    rustls_supported_ciphersuite_from_u16, rustls_supported_ciphersuite_iter, signature_scheme_get_name,
    store_name, supported_ciphersuite_entries, unknown_name,
};
use crustls::error::rustls_result;
use crustls::rslice::rustls_str;

const SUITES: [(u16, &str); 9] = [
    (0x1303, "TLS_CHACHA20_POLY1305_SHA256"),
    (0x1302, "TLS_AES_256_GCM_SHA384"),
    (0x1301, "TLS_AES_128_GCM_SHA256"),
    (0xcca9, "ECDHE-ECDSA-CHACHA20-POLY1305"),
    (0xcca8, "ECDHE-RSA-CHACHA20-POLY1305"),
    (0xc02c, "ECDHE-ECDSA-AES256-GCM-SHA384"),
    (0xc02b, "ECDHE-ECDSA-AES128-GCM-SHA256"),
    (0xc030, "ECDHE-RSA-AES256-GCM-SHA384"),
    (0xc02f, "ECDHE-RSA-AES128-GCM-SHA256"),
];

const SCHEMES: [(u16, &str); 13] = [
    (0x0201, "RSA_PKCS1_SHA1"),
    (0x0203, "ECDSA_SHA1_Legacy"),
    (0x0401, "RSA_PKCS1_SHA256"),
    (0x0403, "ECDSA_NISTP256_SHA256"),
    (0x0501, "RSA_PKCS1_SHA384"),
    (0x0503, "ECDSA_NISTP384_SHA384"),
    (0x0601, "RSA_PKCS1_SHA512"),
    (0x0603, "ECDSA_NISTP521_SHA512"),
    (0x0804, "RSA_PSS_SHA256"),
    (0x0805, "RSA_PSS_SHA384"),
    (0x0806, "RSA_PSS_SHA512"),
    (0x0807, "ED25519"),
    (0x0808, "ED448"),
];

fn suite_name(suite: u16, room: usize) -> (rustls_result, usize, Vec<u8>) {
    let mut buf = vec![0xaau8; room];
    let mut n: usize = 77;
    let status = rustls_ciphersuite_get_name(suite, Some(&mut buf), Some(&mut n));
    (status, n, buf)
}

fn scheme_name(scheme: u16, room: usize) -> (rustls_result, usize, Vec<u8>) {
    let mut buf = vec![0xaau8; room];
    let mut n: usize = 77;
    let status = rustls_signature_scheme_get_name(scheme, Some(&mut buf), Some(&mut n));
    (status, n, buf)
}

#[test]
fn registry_lists_the_nine_suites_of_the_engine_in_order() {
    assert_eq!(rustls_all_ciphersuites_len(), 9);
    assert_eq!(rustls_all_ciphersuites_len(), rustls::ALL_CIPHERSUITES.len());
    for (i, (id, _)) in SUITES.iter().enumerate() {
        let entry = rustls_all_ciphersuites_get_entry(i).expect("an entry");
        assert_eq!(rustls_supported_ciphersuite_get_suite(Some(&entry)), *id);
        assert_eq!(rustls::ALL_CIPHERSUITES[i].suite.get_u16(), *id);
    }
}

#[test]
fn registry_has_no_entry_past_its_end() {
    assert!(rustls_all_ciphersuites_get_entry(9).is_none());
    assert!(rustls_all_ciphersuites_get_entry(10).is_none());
    assert!(rustls_all_ciphersuites_get_entry(usize::MAX).is_none());
}

#[test]
fn suite_of_null_handle_is_zero() {
    assert_eq!(rustls_supported_ciphersuite_get_suite(None), 0);
}

#[test]
fn supported_suite_is_found_by_its_number() {
    for (id, _) in SUITES.iter() {
        let found = rustls_supported_ciphersuite_from_u16(*id).expect("a supported suite");
        assert_eq!(rustls_supported_ciphersuite_get_suite(Some(&found)), *id);
    }
    assert!(rustls_supported_ciphersuite_from_u16(0x0000).is_none());
    assert!(rustls_supported_ciphersuite_from_u16(0x002f).is_none());
    assert!(rustls_supported_ciphersuite_from_u16(0x1304).is_none());
    assert!(rustls_supported_ciphersuite_from_u16(0xffff).is_none());
}

#[test]
fn supported_suites_have_their_common_names() {
    for (id, name) in SUITES.iter() {
        let suite = rustls_supported_ciphersuite_from_u16(*id).unwrap();
        assert_eq!(ciphersuite_get_name(&suite), name.as_bytes());
        let (status, n, buf) = suite_name(*id, 64);
        assert_eq!(status, rustls_result::Success);
        assert_eq!(n, name.len());
        assert_eq!(&buf[..n], name.as_bytes());
        assert!(buf[n..].iter().all(|b| *b == 0xaa));
    }
}

#[test]
fn unknown_suite_is_named_by_its_number_in_hex() {
    let (status, n, buf) = suite_name(0x0001, 64);
    assert_eq!(status, rustls_result::Success);
    assert_eq!(&buf[..n], b"Unknown(0x0001)");
    let (_, n, buf) = suite_name(0xfefe, 64);
    assert_eq!(&buf[..n], b"Unknown(0xfefe)");
    let (_, n, buf) = suite_name(0x0000, 64);
    assert_eq!(&buf[..n], b"Unknown(0x0000)");
    let (_, n, buf) = suite_name(0xffff, 64);
    assert_eq!(&buf[..n], b"Unknown(0xffff)");
    let (_, n, buf) = suite_name(0x0a9c, 64);
    assert_eq!(&buf[..n], b"Unknown(0x0a9c)");
}

#[test]
fn unknown_name_matches_the_formatting_of_the_standard_library() {
    for value in [0u16, 1, 9, 10, 15, 16, 255, 256, 0x1234, 0xabcd, 0xfff0, u16::MAX] {
        assert_eq!(unknown_name(value), format!("Unknown({:#06x})", value).into_bytes());
    }
}

#[test]
fn known_schemes_have_the_names_of_the_engine() {
    assert_eq!(all_signature_schemes(), SCHEMES.iter().map(|(id, _)| *id).collect::<Vec<u16>>());
    for (id, name) in SCHEMES.iter() {
        assert_eq!(signature_scheme_get_name(*id), name.as_bytes());
        let (status, n, buf) = scheme_name(*id, 64);
        assert_eq!(status, rustls_result::Success);
        assert_eq!(n, name.len());
        assert_eq!(&buf[..n], name.as_bytes());
        assert!(buf[n..].iter().all(|b| *b == 0xaa));
    }
}

#[test]
fn unknown_scheme_is_named_by_its_number_in_hex() {
    let (status, n, buf) = scheme_name(0x0202, 64);
    assert_eq!(status, rustls_result::Success);
    assert_eq!(&buf[..n], b"Unknown(0x0202)");
    let (_, n, buf) = scheme_name(0x0000, 64);
    assert_eq!(&buf[..n], b"Unknown(0x0000)");
    let (_, n, buf) = scheme_name(0x0809, 64);
    assert_eq!(&buf[..n], b"Unknown(0x0809)");
}

#[test]
fn name_needs_a_buffer_longer_than_itself() {
    let name = "TLS_AES_128_GCM_SHA256";
    let (status, n, buf) = suite_name(0x1301, name.len() + 1);
    assert_eq!(status, rustls_result::Success);
    assert_eq!(n, name.len());
    assert_eq!(&buf[..n], name.as_bytes());
    assert_eq!(buf[n], 0xaa);
    let (status, n, buf) = suite_name(0x1301, name.len());
    assert_eq!(status, rustls_result::InsufficientSize);
    assert_eq!(n, 0);
    assert!(buf.iter().all(|b| *b == 0xaa));
    let (status, n, _) = suite_name(0x1301, 1);
    assert_eq!(status, rustls_result::InsufficientSize);
    assert_eq!(n, 0);
    let (status, n, _) = suite_name(0x1301, 0);
    assert_eq!(status, rustls_result::InsufficientSize);
    assert_eq!(n, 0);
    let (status, n, buf) = scheme_name(0x0807, 7);
    assert_eq!(status, rustls_result::InsufficientSize);
    assert_eq!(n, 0);
    assert!(buf.iter().all(|b| *b == 0xaa));
    let (status, n, _) = scheme_name(0x0807, 8);
    assert_eq!(status, rustls_result::Success);
    assert_eq!(n, 7);
}

#[test]
fn names_reject_null_parameters() {
    let mut buf = [0xaau8; 64];
    let mut n: usize = 77;
    assert_eq!(rustls_ciphersuite_get_name(0x1301, Some(&mut buf), None), rustls_result::NullParameter);
    assert!(buf.iter().all(|b| *b == 0xaa));
    assert_eq!(rustls_ciphersuite_get_name(0x1301, None, Some(&mut n)), rustls_result::NullParameter);
    assert_eq!(n, 0);
    assert_eq!(rustls_ciphersuite_get_name(0x1301, None, None), rustls_result::NullParameter);
    n = 77;
    assert_eq!(rustls_signature_scheme_get_name(0x0807, Some(&mut buf), None), rustls_result::NullParameter);
    assert!(buf.iter().all(|b| *b == 0xaa));
    assert_eq!(rustls_signature_scheme_get_name(0x0807, None, Some(&mut n)), rustls_result::NullParameter);
    assert_eq!(n, 0);
    assert_eq!(rustls_signature_scheme_get_name(0x0807, None, None), rustls_result::NullParameter);
}

#[test]
fn store_name_copies_the_whole_name_or_nothing() {
    let mut buf = [1u8, 2, 3, 4];
    let mut n: usize = 9;
    assert_eq!(store_name(b"abc", Some(&mut buf), Some(&mut n)), rustls_result::Success);
    assert_eq!(buf, [b'a', b'b', b'c', 4]);
    assert_eq!(n, 3);
    let mut buf = [1u8, 2, 3];
    assert_eq!(store_name(b"abc", Some(&mut buf), Some(&mut n)), rustls_result::InsufficientSize);
    assert_eq!(buf, [1, 2, 3]);
    assert_eq!(n, 0);
    let mut buf = [1u8];
    assert_eq!(store_name(b"", Some(&mut buf), Some(&mut n)), rustls_result::Success);
    assert_eq!(buf, [1]);
    assert_eq!(n, 0);
    let mut buf = [0u8; 0];
    n = 9;
    assert_eq!(store_name(b"", Some(&mut buf), Some(&mut n)), rustls_result::InsufficientSize);
    assert_eq!(n, 0);
    assert!(copy_name(b"xy", &mut [0u8; 3]));
    assert!(!copy_name(b"xy", &mut [0u8; 2]));
}

#[test]
fn entries_list_every_suite_with_its_name() {
    let entries = supported_ciphersuite_entries();
    let expected: Vec<(u16, Vec<u8>)> =
        SUITES.iter().map(|(id, name)| (*id, name.as_bytes().to_vec())).collect();
    assert_eq!(entries, expected);
}

#[test]
fn iteration_visits_every_suite_in_order() {
    let seen: RefCell<Vec<(usize, u16, Vec<u8>)>> = RefCell::new(Vec::new());
    let callback = |userdata: usize, id: u16, name: &rustls_str| {
        seen.borrow_mut().push((userdata, id, name.as_bytes().to_vec()));
    };
    rustls_supported_ciphersuite_iter(Some(callback), 4711);
    let expected: Vec<(usize, u16, Vec<u8>)> =
        SUITES.iter().map(|(id, name)| (4711usize, *id, name.as_bytes().to_vec())).collect();
    assert_eq!(*seen.borrow(), expected);
}

#[test]
fn iteration_with_null_callback_does_nothing() {
    let callback: Option<fn(usize, u16, &rustls_str)> = None;
    rustls_supported_ciphersuite_iter(callback, 0);
}

#[test]
fn borrowed_string_holds_no_nul() {
    assert!(rustls_str::try_from(b"TLS_AES_128_GCM_SHA256").is_some());
    assert_eq!(rustls_str::try_from(b"abc").unwrap().as_bytes(), b"abc");
    assert!(rustls_str::try_from(b"").is_some());
    assert!(rustls_str::try_from(b"ab\0cd").is_none());
    assert!(rustls_str::try_from(b"\0").is_none());
    assert!(rustls_str::try_from(b"abc\0").is_none());
}

#[test]
fn protocol_versions_have_their_wire_numbers() {
    let versions = [
        (rustls_protocol_version::SSLv2, 0x0200u16),
        (rustls_protocol_version::SSLv3, 0x0300),
        (rustls_protocol_version::TLSv1_0, 0x0301),
        (rustls_protocol_version::TLSv1_1, 0x0302),
        (rustls_protocol_version::TLSv1_2, 0x0303),
        (rustls_protocol_version::TLSv1_3, 0x0304),
    ];
    for (version, number) in versions {
        assert_eq!(version.get_u16(), number);
        assert_eq!(rustls_protocol_version_from_u16(number), Some(version));
    }
    assert_eq!(rustls_protocol_version_from_u16(0), None);
    assert_eq!(rustls_protocol_version_from_u16(0x0305), None);
    assert_eq!(rustls_protocol_version_from_u16(0x02ff), None);
    assert_eq!(rustls_protocol_version_from_u16(0xffff), None);
}

#[test]
fn registry_of_cipher_suites_has_the_iana_numbers() {
    assert_eq!(rustls_cipersuite::TLS_NULL_WITH_NULL_NULL.get_u16(), 0x0000);
    assert_eq!(rustls_cipersuite::TLS_RSA_WITH_AES_128_CBC_SHA.get_u16(), 0x002f);
    assert_eq!(rustls_cipersuite::TLS_EMPTY_RENEGOTIATION_INFO_SCSV.get_u16(), 0x00ff);
    assert_eq!(rustls_cipersuite::TLS13_AES_128_GCM_SHA256.get_u16(), 0x1301);
    assert_eq!(rustls_cipersuite::TLS13_AES_128_CCM_8_SHA256.get_u16(), 0x1305);
    assert_eq!(rustls_cipersuite::TLS_ECDHE_RSA_WITH_AES_128_GCM_SHA256.get_u16(), 0xc02f);
    assert_eq!(rustls_cipersuite::TLS_ECDHE_RSA_WITH_CHACHA20_POLY1305_SHA256.get_u16(), 0xcca8);
    assert_eq!(rustls_cipersuite::SSL_RSA_FIPS_WITH_3DES_EDE_CBC_SHA.get_u16(), 0xfeff);
}
