use std::sync::Arc;

use crustls::cipher::{
    add_pem_status, rustls_root_cert_store, rustls_root_cert_store_builder_add_pem,
    rustls_root_cert_store_builder_build, rustls_root_cert_store_builder_free,
    rustls_root_cert_store_builder_new, rustls_root_cert_store_free,
};
use crustls::error::rustls_result;

const CA_CERT: &str = "\
    3082031c30820204a003020102021442dcca395354b70d499d273192995b58967d7641300d06092a864886f70d01010b\
    050030263112301006035504030c095465737420526f6f743110300e060355040a0c074578616d706c65301e170d3236\
    313032383032323533395a170d3435313232373032323533395a30263112301006035504030c095465737420526f6f74\
    3110300e060355040a0c074578616d706c6530820122300d06092a864886f70d01010105000382010f003082010a0282\
    010100aee4988fe0989291bb6ba915291129ed166a6cbc042469b087f8fbc778106f70f0570fb808cac3b77f39baecf2\
    3fcd3b638cf5c898a4f415811d1110db6e7bfb4f647323ff1f464e4598a7175da6982c4aed22b84807e3e85855fa5110\
    f7f57719cf034e56d2e4938c1e8524dfae6e624449eb09a772ec32539b65a4fe8ac562c22f9f589328e4829588efecfb\
    b4c4a9148e1779d9392df4cc5e2e11f454ee33debe5ed65577d7e3d0b073afccb8f8fd3ff2ab8b6e78e71bcda5d86b09\
    9fd61be1a63bfb4d91465e4ade4b639f0b8d7d3e1b160ed88cbbffe40e45affd7667ca43ede171a797e6ed99fb092010\
    ae2599893280720b2d2d5a9511fe8a396d35d50203010001a3423040300f0603551d130101ff040530030101ff300e06\
    03551d0f0101ff040403020106301d0603551d0e04160414e37f64849f9f46d797fe9f7df3578d2b4d5652d4300d0609\
    2a864886f70d01010b050003820101002fee84f37a91877becc40b6888da0ab34903572e334e39d2a819d8b90caaeab1\
    f38b24a5256defd973b576d3696142f373eeeac1af8e28c62e67d17101197466eec677ebedc206c9e84066b9a0f4d204\
    ac9154a853947fedd79d45638cb3d1ec5ddfeea4f868351b61e082332f8b7cd11150d5f052da39daaeac382804934a8f\
    d183f974351900ac4ef2cdb1a634b5f7bdf75481c6792742f2b39eaeaacb80728cf7ba8a9b19a1a9dec18c55e1406d1e\
    4138a18001e007ef9f72c99b115dc69c1852731ed0fcbca29ffb6519815db2e7349cac0f447abb04146fc664b5612476\
    678a3ac638121e6f493fa18042880c15a0af65f626dfd478a3c51bb3451ccb9c\
";

const EE_CERT: &str = "\
    308203673082024fa00302010202145a4e73e7058737d9e65629882f18c010e85a1e1d300d06092a864886f70d01010b\
    050030263112301006035504030c095465737420526f6f743110300e060355040a0c074578616d706c65301e170d3236\
    313032383032323534305a170d3435313232373032323534305a30263112301006035504030c096c6f63616c686f7374\
    3110300e060355040a0c074578616d706c6530820122300d06092a864886f70d01010105000382010f003082010a0282\
    010100d07a214fb966aa58a8c7e32534e04d50e03f3a5ce0063b5c2d079f2b1c4e704efcced673a814dd4cf8e1ffbe36\
    7e627db071f6968c0e79c32ef9aedb3d0204b0accdabcc9ff3c453656733c4dd6fb44b1aef5e0fc93c1c5e8947fa5231\
    c3fd0c5b0966f31ff05f58809fa187317d6ced4cfbea19e0438217dd011fe13153f255e58993fcf3b6cc9b696130adc1\
    8081d6cc3aeab5a33bc5ac631a03caed28d8b6ca04f1b4559fc44c48f5b143cf8f5cd524336f7a5573c01389437179a1\
    641cb46f6c12dddad931c2c6cd211c74a2cecf8240c2707391535d7b621a0434a2cab19211c655d699d9111e8fee9c0a\
    5d0a8156e6f35190e88b5f2e48f392f554b89b0203010001a3818c308189300c0603551d130101ff04023000300e0603\
    551d0f0101ff0404030205a030130603551d25040c300a06082b0601050507030130140603551d11040d300b82096c6f\
    63616c686f7374301d0603551d0e04160414f75465e44b8aefcec4363e5a163d81ca5bdd3c6d301f0603551d23041830\
    168014e37f64849f9f46d797fe9f7df3578d2b4d5652d4300d06092a864886f70d01010b0500038201010004dbf2e85d\
    64841766f335837030bf1c6e4ace6de57ad2982a51927e820f887f444ee3affbc12e830f04006274748ac275b5b67d7c\
    650069e85dbd279f450a25b430c4c6e84e5ceb8ba1612691c5327a4ab17316131939742e1ef34d049be002b704d62f33\
    472bae0b7777bc3ae1f18b139b3447fc4e43777a8a4934bd632ade2be579e306319654162f27058aab323dc6cd6eb5b5\
    a9339256bd84e85dbefd089d9ae531f4f30e47c6fabf15e65b67d3e88f0d5bd67420f5642dc3a326dc161bf7c14424c6\
    be6e3c753761b4d1616b436f7a17c24ef236369c46a3d76a2a12461139df06d42dff184b7fd8168e587489fc03ea1c50\
    64e710ec0aecbf9076a55c\
";

fn hex(text: &str) -> Vec<u8> {
    let digits: Vec<u8> = text.bytes().map(|c| (c as char).to_digit(16).unwrap() as u8).collect();
    digits.chunks(2).map(|pair| pair[0] * 16 + pair[1]).collect()
}

fn base64(data: &[u8]) -> String {
    let alphabet = b"ABCDEFGHIJKLMNOPQRSTUVWXYZabcdefghijklmnopqrstuvwxyz0123456789+/";
    let mut out = String::new();
    for chunk in data.chunks(3) {
        let b = [chunk[0], *chunk.get(1).unwrap_or(&0), *chunk.get(2).unwrap_or(&0)];
        let n = ((b[0] as u32) << 16) | ((b[1] as u32) << 8) | (b[2] as u32);
        out.push(alphabet[(n >> 18) as usize & 63] as char);
        out.push(alphabet[(n >> 12) as usize & 63] as char);
        out.push(if chunk.len() > 1 { alphabet[(n >> 6) as usize & 63] as char } else { '=' });
        out.push(if chunk.len() > 2 { alphabet[n as usize & 63] as char } else { '=' });
    }
    out
}

fn pem(label: &str, der: &[u8]) -> Vec<u8> {
    let mut text = format!("-----BEGIN {}-----\n", label);
    let encoded = base64(der);
    for line in encoded.as_bytes().chunks(64) {
        text.push_str(std::str::from_utf8(line).unwrap());
        text.push('\n');
    }
    text.push_str(&format!("-----END {}-----\n", label));
    text.into_bytes()
}

fn corrupted_certificate() -> Vec<u8> {
    let der = hex(CA_CERT);
    pem("CERTIFICATE", &der[..der.len() / 2])
}

fn one_valid_and_one_corrupted() -> Vec<u8> {
    let mut blob = pem("CERTIFICATE", &hex(CA_CERT));
    blob.extend_from_slice(&corrupted_certificate());
    blob
}

fn subjects(store: &rustls_root_cert_store) -> Vec<Vec<u8>> {
    store.as_engine_store().get_subjects().into_iter().map(|name| name.0).collect()
}

fn holds(haystack: &[u8], needle: &[u8]) -> bool {
    haystack.windows(needle.len()).any(|window| window == needle)
}

#[test]
fn new_builder_builds_an_empty_store() {
    let builder = rustls_root_cert_store_builder_new();
    let store = rustls_root_cert_store_builder_build(Some(builder)).expect("a store");
    assert_eq!(store.as_engine_store().len(), 0);
    assert!(store.as_engine_store().is_empty());
    rustls_root_cert_store_free(Some(store));
}

#[test]
fn lenient_loading_skips_the_corrupted_certificate() {
    let mut builder = rustls_root_cert_store_builder_new();
    let blob = one_valid_and_one_corrupted();
    let status = rustls_root_cert_store_builder_add_pem(Some(&mut *builder), Some(&blob), false);
    assert_eq!(status, rustls_result::Success);
    let store = rustls_root_cert_store_builder_build(Some(builder)).unwrap();
    assert_eq!(store.as_engine_store().len(), 1);
    let names = subjects(&store);
    assert_eq!(names.len(), 1);
    assert!(holds(&names[0], b"Test Root"));
}

#[test]
fn strict_loading_reports_the_corrupted_certificate() {
    let mut builder = rustls_root_cert_store_builder_new();
    let blob = one_valid_and_one_corrupted();
    let status = rustls_root_cert_store_builder_add_pem(Some(&mut *builder), Some(&blob), true);
    assert_eq!(status, rustls_result::CertificateParseError);
}

#[test]
fn strict_failure_does_not_take_back_what_was_added() {
    let mut builder = rustls_root_cert_store_builder_new();
    let valid = pem("CERTIFICATE", &hex(CA_CERT));
    assert_eq!(
        rustls_root_cert_store_builder_add_pem(Some(&mut *builder), Some(&valid), true),
        rustls_result::Success
    );
    let blob = one_valid_and_one_corrupted();
    assert_eq!(
        rustls_root_cert_store_builder_add_pem(Some(&mut *builder), Some(&blob), true),
        rustls_result::CertificateParseError
    );
    let store = rustls_root_cert_store_builder_build(Some(builder)).unwrap();
    assert_eq!(store.as_engine_store().len(), 2);
}

#[test]
fn strict_loading_accepts_valid_certificates() {
    let mut builder = rustls_root_cert_store_builder_new();
    let mut blob = pem("CERTIFICATE", &hex(CA_CERT));
    blob.extend_from_slice(&pem("CERTIFICATE", &hex(EE_CERT)));
    let status = rustls_root_cert_store_builder_add_pem(Some(&mut *builder), Some(&blob), true);
    assert_eq!(status, rustls_result::Success);
    let store = rustls_root_cert_store_builder_build(Some(builder)).unwrap();
    let names = subjects(&store);
    assert_eq!(names.len(), 2);
    assert!(holds(&names[0], b"Test Root"));
    assert!(holds(&names[1], b"localhost"));
}

#[test]
fn strict_loading_wants_at_least_one_certificate() {
    let mut builder = rustls_root_cert_store_builder_new();
    assert_eq!(
        rustls_root_cert_store_builder_add_pem(Some(&mut *builder), Some(b"nothing here\n"), true),
        rustls_result::CertificateParseError
    );
    assert_eq!(
        rustls_root_cert_store_builder_add_pem(Some(&mut *builder), Some(b""), true),
        rustls_result::CertificateParseError
    );
    assert_eq!(
        rustls_root_cert_store_builder_add_pem(Some(&mut *builder), Some(b"nothing here\n"), false),
        rustls_result::Success
    );
    assert_eq!(
        rustls_root_cert_store_builder_add_pem(Some(&mut *builder), Some(b""), false),
        rustls_result::Success
    );
    let store = rustls_root_cert_store_builder_build(Some(builder)).unwrap();
    assert_eq!(store.as_engine_store().len(), 0);
}

#[test]
fn lenient_loading_of_only_corrupted_certificates_succeeds() {
    let mut builder = rustls_root_cert_store_builder_new();
    let blob = corrupted_certificate();
    assert_eq!(
        rustls_root_cert_store_builder_add_pem(Some(&mut *builder), Some(&blob), false),
        rustls_result::Success
    );
    assert_eq!(
        rustls_root_cert_store_builder_add_pem(Some(&mut *builder), Some(&blob), true),
        rustls_result::CertificateParseError
    );
    let store = rustls_root_cert_store_builder_build(Some(builder)).unwrap();
    assert_eq!(store.as_engine_store().len(), 0);
}

#[test]
fn unreadable_pem_fails_and_adds_nothing() {
    let mut builder = rustls_root_cert_store_builder_new();
    let mut blob = pem("CERTIFICATE", &hex(CA_CERT));
    blob.extend_from_slice(b"-----BEGIN CERTIFICATE-----\n!!!! not base64 !!!!\n-----END CERTIFICATE-----\n");
    assert_eq!(
        rustls_root_cert_store_builder_add_pem(Some(&mut *builder), Some(&blob), false),
        rustls_result::CertificateParseError
    );
    assert_eq!(
        rustls_root_cert_store_builder_add_pem(Some(&mut *builder), Some(&blob), true),
        rustls_result::CertificateParseError
    );
    let store = rustls_root_cert_store_builder_build(Some(builder)).unwrap();
    assert_eq!(store.as_engine_store().len(), 0);
}

#[test]
fn repeated_calls_add_in_order() {
    let mut builder = rustls_root_cert_store_builder_new();
    let first = pem("CERTIFICATE", &hex(EE_CERT));
    let second = pem("CERTIFICATE", &hex(CA_CERT));
    assert_eq!(
        rustls_root_cert_store_builder_add_pem(Some(&mut *builder), Some(&first), true),
        rustls_result::Success
    );
    assert_eq!(
        rustls_root_cert_store_builder_add_pem(Some(&mut *builder), Some(&second), true),
        rustls_result::Success
    );
    let store = rustls_root_cert_store_builder_build(Some(builder)).unwrap();
    let names = subjects(&store);
    assert_eq!(names.len(), 2);
    assert!(holds(&names[0], b"localhost"));
    assert!(holds(&names[1], b"Test Root"));
}

#[test]
fn add_pem_rejects_null_parameters() {
    let mut builder = rustls_root_cert_store_builder_new();
    let valid = pem("CERTIFICATE", &hex(CA_CERT));
    assert_eq!(
        rustls_root_cert_store_builder_add_pem(Some(&mut *builder), None, false),
        rustls_result::NullParameter
    );
    assert_eq!(
        rustls_root_cert_store_builder_add_pem(None, Some(&valid), false),
        rustls_result::NullParameter
    );
    assert_eq!(rustls_root_cert_store_builder_add_pem(None, None, true), rustls_result::NullParameter);
    let store = rustls_root_cert_store_builder_build(Some(builder)).unwrap();
    assert_eq!(store.as_engine_store().len(), 0);
}

#[test]
fn add_pem_status_follows_the_counts() {
    assert_eq!(add_pem_status(Ok((1, 0)), true), rustls_result::Success);
    assert_eq!(add_pem_status(Ok((1, 0)), false), rustls_result::Success);
    assert_eq!(add_pem_status(Ok((1, 1)), true), rustls_result::CertificateParseError);
    assert_eq!(add_pem_status(Ok((1, 1)), false), rustls_result::Success);
    assert_eq!(add_pem_status(Ok((0, 0)), true), rustls_result::CertificateParseError);
    assert_eq!(add_pem_status(Ok((0, 0)), false), rustls_result::Success);
    assert_eq!(add_pem_status(Ok((0, 3)), true), rustls_result::CertificateParseError);
    assert_eq!(add_pem_status(Ok((0, 3)), false), rustls_result::Success);
    assert_eq!(add_pem_status(Err(()), true), rustls_result::CertificateParseError);
    assert_eq!(add_pem_status(Err(()), false), rustls_result::CertificateParseError);
}

#[test]
fn build_of_null_builder_is_null() {
    assert!(rustls_root_cert_store_builder_build(None).is_none());
}

#[test]
fn built_store_is_shared_until_the_last_handle_goes() {
    let mut builder = rustls_root_cert_store_builder_new();
    let valid = pem("CERTIFICATE", &hex(CA_CERT));
    rustls_root_cert_store_builder_add_pem(Some(&mut *builder), Some(&valid), true);
    let store = rustls_root_cert_store_builder_build(Some(builder)).unwrap();
    let watch = Arc::downgrade(&store);
    let held_by_engine = Arc::clone(&store);
    rustls_root_cert_store_free(Some(store));
    assert_eq!(held_by_engine.as_engine_store().len(), 1);
    rustls_root_cert_store_free(Some(held_by_engine));
    assert!(watch.upgrade().is_none());
}

#[test]
fn builder_and_store_free_accept_null() {
    rustls_root_cert_store_builder_free(None);
    rustls_root_cert_store_free(None);
    let builder = rustls_root_cert_store_builder_new();
    rustls_root_cert_store_builder_free(Some(builder));
}
