use std::cell::RefCell;
use std::sync::Arc;

use crustls::cipher::{
    rustls_root_cert_store_builder_add_pem, rustls_root_cert_store_builder_build,
    rustls_root_cert_store_builder_new, rustls_supported_ciphersuite_get_suite,
};
use crustls::connection::{
    certificates_of, contains_bytes, is_close_notify, negotiated_ciphersuite, process_new_packets,
    process_status, record_peer, store_plaintext, store_transfer,
    protocol_version_number,
    rustls_connection, rustls_connection_free, rustls_connection_get_alpn_protocol,
    rustls_connection_get_negotiated_ciphersuite, rustls_connection_get_peer_certificate,
    rustls_connection_get_protocol_version, rustls_connection_is_handshaking,
    rustls_connection_process_new_packets, rustls_connection_read, rustls_connection_read_tls,
    rustls_connection_send_close_notify, rustls_connection_set_buffer_limit,
    rustls_connection_set_userdata, rustls_connection_wants_read, rustls_connection_wants_write,
    rustls_connection_write, rustls_connection_write_tls,
};
use crustls::error::{rustls_io_result, rustls_result, EngineError};
use crustls::userdata::{Userdata, UserdataError};

const CA_CERT: &str = "\
    3082031c30820204a003020102021442dcca395354b70d499d273192995b58967d7641300d06092a864886f70d01010b\
    050030263112301006035504030c095465737420526f6f743110300e060355040a0c074578616d706c65301e170d3236\
    313032383032323533395a170d3435313232373032323533395a30263112301006035504030c095465737420526f6f74\
    3110300e060355040a0c074578616d706c6530820122300d06092a864886f70d01010105000382010f003082010a0282\
    010100aee4988fe0989291bb6ba915291129ed166a6cbc042469b087f8fbc778106f70f0570fb808cac3b77f39baecf2\
    3fcd3b638cf5c898a4f415811d1110db6e7bfb4f647323ff1f464e4598a7175da6982c4aed22b84807e3e85855fa5110\
    f7f57719cf034e56d2e4938c1e8524dfae6e624449eb09a772ec32539b65a4fe8ac562c22f9f589328e4829588efecfb\
    b4c4a9148e1779d9392df4cc5e2e11f454ee33debe5ed65577d7e3d0b073afccb8f8fd3ff2ab8b6e78e71bcda5d86b09\
    9fd61be1a63bfb4d91465e4ade4b639f0b8d7d3e1b160ed88cbbffe40e45affd7667ca43ede171a797e6ed99fb092010\
    ae2599893280720b2d2d5a9511fe8a396d35d50203010001a3423040300f0603551d130101ff040530030101ff300e06\
    03551d0f0101ff040403020106301d0603551d0e04160414e37f64849f9f46d797fe9f7df3578d2b4d5652d4300d0609\
    2a864886f70d01010b050003820101002fee84f37a91877becc40b6888da0ab34903572e334e39d2a819d8b90caaeab1\
    f38b24a5256defd973b576d3696142f373eeeac1af8e28c62e67d17101197466eec677ebedc206c9e84066b9a0f4d204\
    ac9154a853947fedd79d45638cb3d1ec5ddfeea4f868351b61e082332f8b7cd11150d5f052da39daaeac382804934a8f\
    d183f974351900ac4ef2cdb1a634b5f7bdf75481c6792742f2b39eaeaacb80728cf7ba8a9b19a1a9dec18c55e1406d1e\
    4138a18001e007ef9f72c99b115dc69c1852731ed0fcbca29ffb6519815db2e7349cac0f447abb04146fc664b5612476\
    678a3ac638121e6f493fa18042880c15a0af65f626dfd478a3c51bb3451ccb9c\
";

const EE_CERT: &str = "\
    308203673082024fa00302010202145a4e73e7058737d9e65629882f18c010e85a1e1d300d06092a864886f70d01010b\
    050030263112301006035504030c095465737420526f6f743110300e060355040a0c074578616d706c65301e170d3236\
    313032383032323534305a170d3435313232373032323534305a30263112301006035504030c096c6f63616c686f7374\
    3110300e060355040a0c074578616d706c6530820122300d06092a864886f70d01010105000382010f003082010a0282\
    010100d07a214fb966aa58a8c7e32534e04d50e03f3a5ce0063b5c2d079f2b1c4e704efcced673a814dd4cf8e1ffbe36\
    7e627db071f6968c0e79c32ef9aedb3d0204b0accdabcc9ff3c453656733c4dd6fb44b1aef5e0fc93c1c5e8947fa5231\
    c3fd0c5b0966f31ff05f58809fa187317d6ced4cfbea19e0438217dd011fe13153f255e58993fcf3b6cc9b696130adc1\
    8081d6cc3aeab5a33bc5ac631a03caed28d8b6ca04f1b4559fc44c48f5b143cf8f5cd524336f7a5573c01389437179a1\
    641cb46f6c12dddad931c2c6cd211c74a2cecf8240c2707391535d7b621a0434a2cab19211c655d699d9111e8fee9c0a\
    5d0a8156e6f35190e88b5f2e48f392f554b89b0203010001a3818c308189300c0603551d130101ff04023000300e0603\
    551d0f0101ff0404030205a030130603551d25040c300a06082b0601050507030130140603551d11040d300b82096c6f\
    63616c686f7374301d0603551d0e04160414f75465e44b8aefcec4363e5a163d81ca5bdd3c6d301f0603551d23041830\
    168014e37f64849f9f46d797fe9f7df3578d2b4d5652d4300d06092a864886f70d01010b0500038201010004dbf2e85d\
    64841766f335837030bf1c6e4ace6de57ad2982a51927e820f887f444ee3affbc12e830f04006274748ac275b5b67d7c\
    650069e85dbd279f450a25b430c4c6e84e5ceb8ba1612691c5327a4ab17316131939742e1ef34d049be002b704d62f33\
    472bae0b7777bc3ae1f18b139b3447fc4e43777a8a4934bd632ade2be579e306319654162f27058aab323dc6cd6eb5b5\
    a9339256bd84e85dbefd089d9ae531f4f30e47c6fabf15e65b67d3e88f0d5bd67420f5642dc3a326dc161bf7c14424c6\
    be6e3c753761b4d1616b436f7a17c24ef236369c46a3d76a2a12461139df06d42dff184b7fd8168e587489fc03ea1c50\
    64e710ec0aecbf9076a55c\
";

const EE_KEY_PKCS8: &str = "\
    308204bd020100300d06092a864886f70d0101010500048204a7308204a30201000282010100d07a214fb966aa58a8c7\
    e32534e04d50e03f3a5ce0063b5c2d079f2b1c4e704efcced673a814dd4cf8e1ffbe367e627db071f6968c0e79c32ef9\
    aedb3d0204b0accdabcc9ff3c453656733c4dd6fb44b1aef5e0fc93c1c5e8947fa5231c3fd0c5b0966f31ff05f58809f\
    a187317d6ced4cfbea19e0438217dd011fe13153f255e58993fcf3b6cc9b696130adc18081d6cc3aeab5a33bc5ac631a\
    03caed28d8b6ca04f1b4559fc44c48f5b143cf8f5cd524336f7a5573c01389437179a1641cb46f6c12dddad931c2c6cd\
    211c74a2cecf8240c2707391535d7b621a0434a2cab19211c655d699d9111e8fee9c0a5d0a8156e6f35190e88b5f2e48\
    f392f554b89b0203010001028201000ebeae2c76eeda5a47bc1b7971658bdf27b0512203afd38c8fcf8efd959489d9bf\
    8474bcdc91aa020fab791fdfb79a3c7feca91f531ef960e3100f5c556c4a523b0030ee7341af3f7057caa98d063b1f01\
    8d7c7e6aeeca3fabd92d00000844957cbad8b52fc51bac71f93ebe9f7fdaaf9abd7ce2ce082b7cee2fd492fd9ef3efe8\
    3ff1d453d63d9c154ee4d7b4deb18d2afba4d016bce612561765299f44d5d7d1f5802495c1cac9ab91e1d477518313a9\
    bb92cd31a42b4b3ffd921dbfdc50e05d6763d8e2c8f0061361b5854739dd595ce5cbc357fb0228b2987ea2198d400526\
    8ddc4f70d110f93db78cc3b5522d631505876fef10ef8688047b0d254b370102818100e750ae027a4302ecd147db6fa2\
    683aedea51c9448ae30343c662fa256b30f75616e95230eb85883078b6a362b5f8ec321cd7a9f1c99f5333988e394b29\
    ebff75cd1807d44246b3d811bb0666ec3f40ed9912ecae6f2e63d542109ffc3851ce46a0359894bf9d8fa1d59e8790e9\
    09e7a9729966d573dcc2eb0428070952de767102818100e6b988de5366a12b79018821929742746dd6f031190b158421\
    2b9754d945a058ef2b3c83e24882589ccc0e25b2a9bf9dd0864a7bd74efbb557b2e4d8330c16b64a3d5a1c67c7f9c61c\
    a6287643c65c7bcf99576b08a1784bf5bd64c4a3b849f5c29810eb39113829fd2b256225272808187e85e8b60cd53545\
    b5a74198a21dcb0281801ce911868fbf565b40e0e9452f98355d4cff01d7c6400f456643329e80a23317986f7aed5052\
    752e11b849fd695efe2e593a7f2c101610b10f2d1f6e0c84497e70aec333bd40d6f3776bd7a5ff7afc6375d14eb19285\
    cac679a658488ec572b1930e7fce7f9072c6384bc307d2888162c546f4fa52abd1d4cbc530f3f25e89910281810093d0\
    155169d8fc341fa7cd90c49b4725d420b96c9b00b0de1f6a0fdf79fad34966a02a7acb836c8e5c959612acad7767216a\
    8759638ce4513f480ab83fabe4f91002d2321482d71006d6a4616ff62ad5df1ffc13444a3e095bfbe40cde5e78738c21\
    63e56e800b9d4ae65362d72e88c4f6fc47c9d8a7cc07ff0aeb8668c4a39502818027c87c6f9d2c9c40ae8f99411e29a3\
    fa5583b216350d55a0f5b43cc84ccd833db1b7e6d99052b693c24b1b81149e77186cf9159ce2fb2a146f58e5798dccd8\
    b0ea55f30d82acb4b78498a0f899f715cb901c37c6121646d7b6c92bf082c821a82bd6c4539cba9bb1eaf346945b19fb\
    5adee43ab9b302cd04e2670c04f392aa35\
";

fn hex(text: &str) -> Vec<u8> {
    let digits: Vec<u8> = text.bytes().map(|c| (c as char).to_digit(16).unwrap() as u8).collect();
    digits.chunks(2).map(|pair| pair[0] * 16 + pair[1]).collect()
}

fn base64(data: &[u8]) -> String {
    let alphabet = b"ABCDEFGHIJKLMNOPQRSTUVWXYZabcdefghijklmnopqrstuvwxyz0123456789+/";
    let mut out = String::new();
    for chunk in data.chunks(3) {
        let b = [chunk[0], *chunk.get(1).unwrap_or(&0), *chunk.get(2).unwrap_or(&0)];
        let n = ((b[0] as u32) << 16) | ((b[1] as u32) << 8) | (b[2] as u32);
        out.push(alphabet[(n >> 18) as usize & 63] as char);
        out.push(alphabet[(n >> 12) as usize & 63] as char);
        out.push(if chunk.len() > 1 { alphabet[(n >> 6) as usize & 63] as char } else { '=' });
        out.push(if chunk.len() > 2 { alphabet[n as usize & 63] as char } else { '=' });
    }
    out
}

fn pem(label: &str, der: &[u8]) -> Vec<u8> {
    let mut text = format!("-----BEGIN {}-----\n", label);
    let encoded = base64(der);
    for line in encoded.as_bytes().chunks(64) {
        text.push_str(std::str::from_utf8(line).unwrap());
        text.push('\n');
    }
    text.push_str(&format!("-----END {}-----\n", label));
    text.into_bytes()
}

const OK: rustls_io_result = rustls_io_result(0);

type Pipe = RefCell<Vec<u8>>;

fn client() -> rustls_connection {
    let mut builder = rustls_root_cert_store_builder_new();
    let roots = pem("CERTIFICATE", &hex(CA_CERT));
    assert_eq!(
        rustls_root_cert_store_builder_add_pem(Some(&mut *builder), Some(&roots), true),
        rustls_result::Success
    );
    let store = rustls_root_cert_store_builder_build(Some(builder)).unwrap();
    let mut config = rustls::ClientConfig::new();
    config.root_store = store.as_engine_store().clone();
    config.alpn_protocols = vec![b"h2".to_vec(), b"http/1.1".to_vec()];
    let name = webpki::DNSNameRef::try_from_ascii_str("localhost").unwrap();
    rustls_connection::from_client(rustls::ClientSession::new(&Arc::new(config), name))
}

fn server() -> rustls_connection {
    let mut config = rustls::ServerConfig::new(rustls::NoClientAuth::new());
    config
        .set_single_cert(vec![rustls::Certificate(hex(EE_CERT))], rustls::PrivateKey(hex(EE_KEY_PKCS8)))
        .unwrap();
    config.alpn_protocols = vec![b"http/1.1".to_vec()];
    rustls_connection::from_server(rustls::ServerSession::new(&Arc::new(config)))
}

fn send(conn: &mut rustls_connection, pipe: &Pipe) -> usize {
    let mut total = 0;
    while rustls_connection_wants_write(Some(&*conn)) {
        let mut n: usize = 0;
        let status = rustls_connection_write_tls(
            Some(&mut *conn),
            Some(|userdata: usize, buf: &[u8]| {
                assert_eq!(userdata, 0x51);
                pipe.borrow_mut().extend_from_slice(buf);
                (OK, buf.len())
            }),
            0x51,
            Some(&mut n),
        );
        assert_eq!(status, OK);
        total += n;
    }
    total
}

fn receive(conn: &mut rustls_connection, pipe: &Pipe, stack: &mut Userdata) -> rustls_result {
    while !pipe.borrow().is_empty() {
        let mut n: usize = 0;
        let status = rustls_connection_read_tls(
            Some(&mut *conn),
            Some(|userdata: usize, capacity: usize| {
                assert_eq!(userdata, 0x52);
                let mut pending = pipe.borrow_mut();
                let take = capacity.min(pending.len());
                (OK, pending.drain(..take).collect::<Vec<u8>>())
            }),
            0x52,
            Some(&mut n),
        );
        assert_eq!(status, OK);
        assert!(n > 0);
        let status = rustls_connection_process_new_packets(Some(&mut *conn), stack);
        assert_eq!(stack.depth(), 0);
        if status != rustls_result::Success {
            return status;
        }
    }
    rustls_result::Success
}

fn handshake(client: &mut rustls_connection, server: &mut rustls_connection, stack: &mut Userdata) {
    let to_server: Pipe = RefCell::new(Vec::new());
    let to_client: Pipe = RefCell::new(Vec::new());
    let mut rounds = 0;
    while rustls_connection_is_handshaking(Some(&*client)) || rustls_connection_is_handshaking(Some(&*server)) {
        send(client, &to_server);
        assert_eq!(receive(server, &to_server, stack), rustls_result::Success);
        send(server, &to_client);
        assert_eq!(receive(client, &to_client, stack), rustls_result::Success);
        rounds += 1;
        assert!(rounds < 10, "the handshake does not finish");
    }
}

fn transfer(from: &mut rustls_connection, to: &mut rustls_connection, stack: &mut Userdata) -> rustls_result {
    let pipe: Pipe = RefCell::new(Vec::new());
    send(from, &pipe);
    receive(to, &pipe, stack)
}

#[test]
fn handshake_completes_through_the_callbacks() {
    let mut client = client();
    let mut server = server();
    let mut stack = Userdata::new();
    assert!(rustls_connection_is_handshaking(Some(&client)));
    assert!(rustls_connection_is_handshaking(Some(&server)));
    assert!(rustls_connection_wants_write(Some(&client)));
    assert!(!rustls_connection_wants_write(Some(&server)));
    assert!(rustls_connection_wants_read(Some(&server)));
    handshake(&mut client, &mut server, &mut stack);
    assert!(!rustls_connection_is_handshaking(Some(&client)));
    assert!(!rustls_connection_is_handshaking(Some(&server)));
    assert_eq!(stack.depth(), 0);
}

#[test]
fn plaintext_crosses_the_connection_both_ways() {
    let mut client = client();
    let mut server = server();
    let mut stack = Userdata::new();
    handshake(&mut client, &mut server, &mut stack);
    let mut n: usize = 0;
    assert_eq!(rustls_connection_write(Some(&mut client), Some(b"hello server"), Some(&mut n)), rustls_result::Success);
    assert_eq!(n, 12);
    assert_eq!(transfer(&mut client, &mut server, &mut stack), rustls_result::Success);
    let mut buf = [0u8; 64];
    assert_eq!(rustls_connection_read(Some(&mut server), Some(&mut buf), Some(&mut n)), rustls_result::Success);
    assert_eq!(&buf[..n], b"hello server");
    assert_eq!(rustls_connection_write(Some(&mut server), Some(b"hello client"), Some(&mut n)), rustls_result::Success);
    assert_eq!(n, 12);
    assert_eq!(transfer(&mut server, &mut client, &mut stack), rustls_result::Success);
    let mut small = [0u8; 5];
    assert_eq!(rustls_connection_read(Some(&mut client), Some(&mut small), Some(&mut n)), rustls_result::Success);
    assert_eq!(n, 5);
    assert_eq!(&small, b"hello");
    assert_eq!(rustls_connection_read(Some(&mut client), Some(&mut buf), Some(&mut n)), rustls_result::Success);
    assert_eq!(&buf[..n], b" client");
}

#[test]
fn read_with_nothing_pending_is_a_success_with_no_bytes() {
    let mut client = client();
    let mut server = server();
    let mut stack = Userdata::new();
    handshake(&mut client, &mut server, &mut stack);
    let mut buf = [0u8; 16];
    let mut n: usize = 99;
    assert_eq!(rustls_connection_read(Some(&mut server), Some(&mut buf), Some(&mut n)), rustls_result::Success);
    assert_eq!(n, 0);
}

#[test]
fn close_notify_has_a_status_of_its_own() {
    let mut client = client();
    let mut server = server();
    let mut stack = Userdata::new();
    handshake(&mut client, &mut server, &mut stack);
    let mut n: usize = 0;
    assert_eq!(rustls_connection_write(Some(&mut client), Some(b"bye"), Some(&mut n)), rustls_result::Success);
    rustls_connection_send_close_notify(Some(&mut client));
    assert_eq!(transfer(&mut client, &mut server, &mut stack), rustls_result::Success);
    let mut buf = [0u8; 16];
    assert_eq!(rustls_connection_read(Some(&mut server), Some(&mut buf), Some(&mut n)), rustls_result::Success);
    assert_eq!(&buf[..n], b"bye");
    n = 99;
    assert_eq!(
        rustls_connection_read(Some(&mut server), Some(&mut buf), Some(&mut n)),
        rustls_result::AlertCloseNotify
    );
    assert_eq!(n, 99);
}

#[test]
fn agreed_parameters_are_reported_after_the_handshake() {
    let mut client = client();
    let mut server = server();
    let mut stack = Userdata::new();
    assert_eq!(rustls_connection_get_protocol_version(Some(&client)), 0);
    assert!(rustls_connection_get_negotiated_ciphersuite(Some(&server)).is_none());
    assert!(rustls_connection_get_peer_certificate(Some(&client), 0).is_none());
    {
        let mut protocol: Option<&[u8]> = Some(b"x");
        let mut len: usize = 99;
        rustls_connection_get_alpn_protocol(Some(&client), Some(&mut protocol), Some(&mut len));
        assert_eq!(protocol, None);
        assert_eq!(len, 0);
    }
    handshake(&mut client, &mut server, &mut stack);
    let mut protocol: Option<&[u8]> = None;
    let mut len: usize = 99;
    assert_eq!(rustls_connection_get_protocol_version(Some(&client)), 0x0304);
    assert_eq!(rustls_connection_get_protocol_version(Some(&server)), 0x0304);
    let suite = rustls_connection_get_negotiated_ciphersuite(Some(&client)).expect("a suite");
    let number = rustls_supported_ciphersuite_get_suite(Some(&suite));
    assert!([0x1301u16, 0x1302, 0x1303].contains(&number));
    let same = rustls_connection_get_negotiated_ciphersuite(Some(&server)).expect("a suite");
    assert_eq!(rustls_supported_ciphersuite_get_suite(Some(&same)), number);
    rustls_connection_get_alpn_protocol(Some(&client), Some(&mut protocol), Some(&mut len));
    assert_eq!(protocol, Some(&b"http/1.1"[..]));
    assert_eq!(len, 8);
    rustls_connection_get_alpn_protocol(Some(&server), Some(&mut protocol), Some(&mut len));
    assert_eq!(protocol, Some(&b"http/1.1"[..]));
    let leaf = rustls_connection_get_peer_certificate(Some(&client), 0).expect("the certificate of the server");
    assert_eq!(leaf.as_der(), &hex(EE_CERT)[..]);
    assert!(rustls_connection_get_peer_certificate(Some(&client), 1).is_none());
    assert!(rustls_connection_get_peer_certificate(Some(&server), 0).is_none());
}

#[test]
fn read_callback_without_bytes_does_not_end_the_stream() {
    let mut client = client();
    let mut server = server();
    let mut stack = Userdata::new();
    let to_server: Pipe = RefCell::new(Vec::new());
    let mut n: usize = 99;
    let status = rustls_connection_read_tls(
        Some(&mut server),
        Some(|_userdata: usize, _capacity: usize| (OK, Vec::<u8>::new())),
        0,
        Some(&mut n),
    );
    assert_eq!(status, OK);
    assert_eq!(n, 0);
    assert_eq!(rustls_connection_process_new_packets(Some(&mut server), &mut stack), rustls_result::Success);
    assert!(rustls_connection_is_handshaking(Some(&server)));
    assert!(send(&mut client, &to_server) > 0);
    assert_eq!(receive(&mut server, &to_server, &mut stack), rustls_result::Success);
    assert!(rustls_connection_wants_write(Some(&server)));
    handshake(&mut client, &mut server, &mut stack);
    assert!(!rustls_connection_is_handshaking(Some(&server)));
}

#[test]
fn short_writes_are_resumed_at_the_right_byte() {
    let mut client = client();
    let mut server = server();
    let mut stack = Userdata::new();
    let to_server: Pipe = RefCell::new(Vec::new());
    let mut calls = 0;
    while rustls_connection_wants_write(Some(&client)) {
        let mut n: usize = 0;
        let status = rustls_connection_write_tls(
            Some(&mut client),
            Some(|_userdata: usize, buf: &[u8]| {
                let take = buf.len().min(7);
                to_server.borrow_mut().extend_from_slice(&buf[..take]);
                (OK, take)
            }),
            0,
            Some(&mut n),
        );
        assert_eq!(status, OK);
        assert!(n <= 7);
        calls += 1;
    }
    assert!(calls > 1);
    assert_eq!(receive(&mut server, &to_server, &mut stack), rustls_result::Success);
    handshake(&mut client, &mut server, &mut stack);
    assert!(!rustls_connection_is_handshaking(Some(&client)));
}

#[test]
fn callback_errors_pass_through_unchanged() {
    let mut client = client();
    let mut n: usize = 99;
    let status = rustls_connection_write_tls(
        Some(&mut client),
        Some(|_userdata: usize, _buf: &[u8]| (rustls_io_result(32), 0usize)),
        0,
        Some(&mut n),
    );
    assert_eq!(status, rustls_io_result(32));
    assert_eq!(n, 99);
    let status = rustls_connection_read_tls(
        Some(&mut client),
        Some(|_userdata: usize, _capacity: usize| (rustls_io_result(11), Vec::<u8>::new())),
        0,
        Some(&mut n),
    );
    assert_eq!(status, rustls_io_result(11));
    assert_eq!(n, 99);
    assert!(rustls_connection_wants_write(Some(&client)));
}

#[test]
fn stored_transfer_keeps_the_error_number() {
    let mut n: usize = 99;
    assert_eq!(store_transfer(Ok(17), &mut n), OK);
    assert_eq!(n, 17);
    assert_eq!(store_transfer(Ok(0), &mut n), OK);
    assert_eq!(n, 0);
    n = 99;
    assert_eq!(store_transfer(Err(Some(11)), &mut n), rustls_io_result(11));
    assert_eq!(n, 99);
    assert_eq!(store_transfer(Err(Some(-7)), &mut n), rustls_io_result(-7));
    assert_eq!(n, 99);
    assert_eq!(store_transfer(Err(None), &mut n), rustls_io_result(libc::EIO));
    assert_eq!(n, 99);
    assert_eq!(store_transfer(Err(Some(0)), &mut n), OK);
    assert_eq!(n, 99);
}

#[test]
fn peer_is_recorded_once_and_kept() {
    let mut client = client();
    record_peer(&mut client, None, None);
    assert!(rustls_connection_get_peer_certificate(Some(&client), 0).is_none());
    let mut protocol: Option<&[u8]> = Some(b"x");
    let mut len: usize = 99;
    rustls_connection_get_alpn_protocol(Some(&client), Some(&mut protocol), Some(&mut len));
    assert_eq!((protocol, len), (None, 0));
    rustls_connection_set_userdata(Some(&mut client), 0x77);
    record_peer(&mut client, Some(vec![vec![1u8, 2u8], vec![3u8]]), None);
    assert_eq!(rustls_connection_get_peer_certificate(Some(&client), 0).unwrap().as_der(), &[1u8, 2u8][..]);
    assert_eq!(rustls_connection_get_peer_certificate(Some(&client), 1).unwrap().as_der(), &[3u8][..]);
    assert!(rustls_connection_get_peer_certificate(Some(&client), 2).is_none());
    record_peer(&mut client, Some(vec![vec![9u8]]), Some(b"h2".to_vec()));
    assert_eq!(rustls_connection_get_peer_certificate(Some(&client), 0).unwrap().as_der(), &[1u8, 2u8][..]);
    assert!(rustls_connection_get_peer_certificate(Some(&client), 2).is_none());
    let mut protocol: Option<&[u8]> = None;
    rustls_connection_get_alpn_protocol(Some(&client), Some(&mut protocol), Some(&mut len));
    assert_eq!((protocol, len), (Some(&b"h2"[..]), 2));
    record_peer(&mut client, None, Some(b"http/1.1".to_vec()));
    let mut protocol: Option<&[u8]> = None;
    rustls_connection_get_alpn_protocol(Some(&client), Some(&mut protocol), Some(&mut len));
    assert_eq!((protocol, len), (Some(&b"h2"[..]), 2));
    assert_eq!(rustls_connection_get_peer_certificate(Some(&client), 1).unwrap().as_der(), &[3u8][..]);
    assert_eq!(client.get_userdata(), 0x77);
    assert!(rustls_connection_is_handshaking(Some(&client)));
}

#[test]
fn garbage_from_the_network_is_a_protocol_error() {
    let mut server = server();
    let mut stack = Userdata::new();
    let pipe: Pipe = RefCell::new(vec![0x16, 0x03, 0x03, 0x00, 0x04, 0x01, 0x00, 0x00, 0x00]);
    let status = receive(&mut server, &pipe, &mut stack);
    assert_eq!(status, rustls_result::CorruptMessagePayload);
    assert_eq!(stack.depth(), 0);
    let mut server = self::server();
    let pipe: Pipe = RefCell::new(vec![0xff, 0x03, 0x03, 0x00, 0x01, 0x00]);
    assert_eq!(receive(&mut server, &pipe, &mut stack), rustls_result::CorruptMessage);
    assert_eq!(stack.depth(), 0);
}

#[test]
fn certificate_of_unknown_issuer_is_reported_as_such() {
    let mut config = rustls::ClientConfig::new();
    config.alpn_protocols = vec![b"http/1.1".to_vec()];
    let name = webpki::DNSNameRef::try_from_ascii_str("localhost").unwrap();
    let mut client = rustls_connection::from_client(rustls::ClientSession::new(&Arc::new(config), name));
    let mut server = server();
    let mut stack = Userdata::new();
    let to_server: Pipe = RefCell::new(Vec::new());
    let to_client: Pipe = RefCell::new(Vec::new());
    send(&mut client, &to_server);
    assert_eq!(receive(&mut server, &to_server, &mut stack), rustls_result::Success);
    send(&mut server, &to_client);
    assert_eq!(receive(&mut client, &to_client, &mut stack), rustls_result::CertUnknownIssuer);
    send(&mut client, &to_server);
    assert_eq!(receive(&mut server, &to_server, &mut stack), rustls_result::AlertBadCertificate);
    assert_eq!(stack.depth(), 0);
}

#[test]
fn certificate_for_another_name_is_reported_as_such() {
    let mut builder = rustls_root_cert_store_builder_new();
    let roots = pem("CERTIFICATE", &hex(CA_CERT));
    rustls_root_cert_store_builder_add_pem(Some(&mut *builder), Some(&roots), true);
    let store = rustls_root_cert_store_builder_build(Some(builder)).unwrap();
    let mut config = rustls::ClientConfig::new();
    config.root_store = store.as_engine_store().clone();
    let name = webpki::DNSNameRef::try_from_ascii_str("example.com").unwrap();
    let mut client = rustls_connection::from_client(rustls::ClientSession::new(&Arc::new(config), name));
    let mut server = server();
    let mut stack = Userdata::new();
    let to_server: Pipe = RefCell::new(Vec::new());
    let to_client: Pipe = RefCell::new(Vec::new());
    send(&mut client, &to_server);
    assert_eq!(receive(&mut server, &to_server, &mut stack), rustls_result::Success);
    send(&mut server, &to_client);
    assert_eq!(receive(&mut client, &to_client, &mut stack), rustls_result::CertNotValidForName);
}

#[test]
fn alert_from_the_peer_has_the_code_of_the_alert() {
    let mut client = client();
    let mut stack = Userdata::new();
    let pipe: Pipe = RefCell::new(vec![0x15, 0x03, 0x03, 0x00, 0x02, 0x02, 0x28]);
    assert_eq!(receive(&mut client, &pipe, &mut stack), rustls_result::AlertHandshakeFailure);
    let mut client = self::client();
    let pipe: Pipe = RefCell::new(vec![0x15, 0x03, 0x03, 0x00, 0x02, 0x02, 0x46]);
    assert_eq!(receive(&mut client, &pipe, &mut stack), rustls_result::AlertProtocolVersion);
    assert_eq!(stack.depth(), 0);
}

#[test]
fn engine_step_reports_errors_as_plain_data() {
    let mut client = client();
    assert_eq!(process_new_packets(&mut client), Ok(()));
    let feed = |conn: &mut rustls_connection, bytes: Vec<u8>| {
        let pending: Pipe = RefCell::new(bytes);
        let mut n: usize = 0;
        let status = rustls_connection_read_tls(
            Some(conn),
            Some(|_userdata: usize, capacity: usize| {
                let mut pending = pending.borrow_mut();
                let take = capacity.min(pending.len());
                (OK, pending.drain(..take).collect::<Vec<u8>>())
            }),
            0,
            Some(&mut n),
        );
        assert_eq!(status, OK);
    };
    feed(&mut client, vec![0x15, 0x03, 0x03, 0x00, 0x02, 0x02, 0x28]);
    assert_eq!(process_new_packets(&mut client), Err(EngineError::AlertReceived(0x28)));
    let mut server = server();
    feed(&mut server, vec![0xff, 0x03, 0x03, 0x00, 0x01, 0x00]);
    assert_eq!(process_new_packets(&mut server), Err(EngineError::CorruptMessage));
}

#[test]
fn processing_keeps_the_stack_of_an_outer_operation() {
    let mut client = client();
    let mut stack = Userdata::new();
    let outer = stack.userdata_push(0xabc);
    rustls_connection_set_userdata(Some(&mut client), 0xdef);
    assert_eq!(rustls_connection_process_new_packets(Some(&mut client), &mut stack), rustls_result::Success);
    assert_eq!(stack.depth(), 1);
    assert_eq!(stack.userdata_get(), Some(0xabc));
    assert_eq!(stack.try_drop(outer), Ok(()));
}

#[test]
fn stack_out_of_step_is_an_internal_failure() {
    assert_eq!(process_status(Ok(()), Err(UserdataError::WrongData)), rustls_result::Panic);
    assert_eq!(process_status(Ok(()), Err(UserdataError::EmptyStack)), rustls_result::Panic);
    assert_eq!(
        process_status(Err(EngineError::DecryptError), Err(UserdataError::WrongData)),
        rustls_result::Panic
    );
    assert_eq!(process_status(Ok(()), Ok(())), rustls_result::Success);
    assert_eq!(process_status(Err(EngineError::DecryptError), Ok(())), rustls_result::DecryptError);
    assert_eq!(
        process_status(Err(EngineError::AlertReceived(0)), Ok(())),
        rustls_result::AlertCloseNotify
    );
}

#[test]
fn failure_in_one_operation_leaves_later_ones_intact() {
    let mut broken = server();
    let mut stack = Userdata::new();
    let pipe: Pipe = RefCell::new(vec![0xff, 0x03, 0x03, 0x00, 0x01, 0x00]);
    assert_eq!(receive(&mut broken, &pipe, &mut stack), rustls_result::CorruptMessage);
    assert_eq!(stack.depth(), 0);
    let mut client = client();
    let mut server = server();
    handshake(&mut client, &mut server, &mut stack);
    assert!(!rustls_connection_is_handshaking(Some(&client)));
    assert_eq!(rustls_connection_get_protocol_version(Some(&broken)), 0);
    assert!(!rustls_connection_is_handshaking(Some(&server)));
}

#[test]
fn userdata_is_kept_on_the_connection() {
    let mut client = client();
    assert_eq!(client.get_userdata(), 0);
    rustls_connection_set_userdata(Some(&mut client), 0x1234);
    assert_eq!(client.get_userdata(), 0x1234);
    rustls_connection_set_buffer_limit(Some(&mut client), 4096);
    rustls_connection_send_close_notify(Some(&mut client));
    assert_eq!(client.get_userdata(), 0x1234);
    rustls_connection_set_userdata(None, 1);
}

#[test]
fn buffer_limit_bounds_what_plaintext_is_taken() {
    let mut client = client();
    rustls_connection_set_buffer_limit(Some(&mut client), 10);
    let mut n: usize = 0;
    assert_eq!(
        rustls_connection_write(Some(&mut client), Some(b"0123456789abcdef"), Some(&mut n)),
        rustls_result::Success
    );
    assert_eq!(n, 10);
    assert_eq!(rustls_connection_write(Some(&mut client), Some(b"more"), Some(&mut n)), rustls_result::Success);
    assert_eq!(n, 0);
}

#[test]
fn transfers_reject_null_parameters() {
    let mut client = client();
    let mut n: usize = 99;
    let read = |_userdata: usize, _capacity: usize| -> (rustls_io_result, Vec<u8>) { panic!("not to be called") };
    let write = |_userdata: usize, _buf: &[u8]| -> (rustls_io_result, usize) { panic!("not to be called") };
    assert_eq!(rustls_connection_read_tls(None, Some(read), 0, Some(&mut n)), rustls_io_result(libc::EINVAL));
    assert_eq!(rustls_connection_read_tls(Some(&mut client), Some(read), 0, None), rustls_io_result(libc::EINVAL));
    let none: Option<fn(usize, usize) -> (rustls_io_result, Vec<u8>)> = None;
    assert_eq!(rustls_connection_read_tls(Some(&mut client), none, 0, Some(&mut n)), rustls_io_result(libc::EINVAL));
    assert_eq!(rustls_connection_write_tls(None, Some(write), 0, Some(&mut n)), rustls_io_result(libc::EINVAL));
    assert_eq!(rustls_connection_write_tls(Some(&mut client), Some(write), 0, None), rustls_io_result(libc::EINVAL));
    let none: Option<fn(usize, &[u8]) -> (rustls_io_result, usize)> = None;
    assert_eq!(rustls_connection_write_tls(Some(&mut client), none, 0, Some(&mut n)), rustls_io_result(libc::EINVAL));
    assert_eq!(n, 99);
    assert!(rustls_connection_wants_write(Some(&client)));
}

#[test]
fn operations_reject_a_null_connection() {
    let mut stack = Userdata::new();
    let outer = stack.userdata_push(5);
    assert_eq!(rustls_connection_process_new_packets(None, &mut stack), rustls_result::NullParameter);
    assert_eq!(stack.depth(), 1);
    assert_eq!(stack.try_drop(outer), Ok(()));
    assert!(!rustls_connection_wants_read(None));
    assert!(!rustls_connection_wants_write(None));
    assert!(!rustls_connection_is_handshaking(None));
    rustls_connection_set_buffer_limit(None, 1);
    rustls_connection_send_close_notify(None);
    assert!(rustls_connection_get_peer_certificate(None, 0).is_none());
    assert_eq!(rustls_connection_get_protocol_version(None), 0);
    assert!(rustls_connection_get_negotiated_ciphersuite(None).is_none());
    rustls_connection_free(None);
}

#[test]
fn plaintext_operations_reject_null_parameters() {
    let mut client = client();
    let mut n: usize = 99;
    let mut buf = [0xaau8; 8];
    assert_eq!(rustls_connection_write(None, Some(b"x"), Some(&mut n)), rustls_result::NullParameter);
    assert_eq!(rustls_connection_write(Some(&mut client), None, Some(&mut n)), rustls_result::NullParameter);
    assert_eq!(rustls_connection_write(Some(&mut client), Some(b"x"), None), rustls_result::NullParameter);
    assert_eq!(rustls_connection_read(None, Some(&mut buf), Some(&mut n)), rustls_result::NullParameter);
    assert_eq!(rustls_connection_read(Some(&mut client), None, Some(&mut n)), rustls_result::NullParameter);
    assert_eq!(rustls_connection_read(Some(&mut client), Some(&mut buf), None), rustls_result::NullParameter);
    assert_eq!(n, 99);
    assert_eq!(buf, [0xaa; 8]);
}

#[test]
fn alpn_query_writes_nothing_where_a_parameter_is_null() {
    let client = client();
    let mut protocol: Option<&[u8]> = Some(b"xy");
    let mut len: usize = 99;
    rustls_connection_get_alpn_protocol(None, Some(&mut protocol), Some(&mut len));
    rustls_connection_get_alpn_protocol(Some(&client), None, Some(&mut len));
    rustls_connection_get_alpn_protocol(Some(&client), Some(&mut protocol), None);
    assert_eq!(protocol, Some(&b"xy"[..]));
    assert_eq!(len, 99);
}

#[test]
fn helpers_turn_what_the_engine_reports_into_plain_answers() {
    let mut n: usize = 99;
    assert_eq!(store_plaintext(Ok(3), &mut n), rustls_result::Success);
    assert_eq!(n, 3);
    assert_eq!(store_plaintext(Ok(0), &mut n), rustls_result::Success);
    assert_eq!(n, 0);
    n = 99;
    assert_eq!(store_plaintext(Err(true), &mut n), rustls_result::AlertCloseNotify);
    assert_eq!(n, 99);
    assert_eq!(store_plaintext(Err(false), &mut n), rustls_result::Io);
    assert_eq!(n, 99);
    assert_eq!(protocol_version_number(Some(0x0303)), 0x0303);
    assert_eq!(protocol_version_number(None), 0);
    assert_eq!(
        negotiated_ciphersuite(Some(0xc02f)).map(|s| rustls_supported_ciphersuite_get_suite(Some(&s))),
        Some(0xc02f)
    );
    assert!(negotiated_ciphersuite(Some(0x002f)).is_none());
    assert!(negotiated_ciphersuite(None).is_none());
    let certs = certificates_of(Some(vec![vec![1u8], vec![], vec![2u8, 3u8]])).expect("certificates");
    assert_eq!(certs.len(), 3);
    assert_eq!(certs[0].as_der(), &[1u8][..]);
    assert_eq!(certs[1].as_der(), &[0u8; 0][..]);
    assert_eq!(certs[2].as_der(), &[2u8, 3u8][..]);
    assert!(certificates_of(None).is_none());
    assert_eq!(certificates_of(Some(vec![])).map(|c| c.len()), Some(0));
}

#[test]
fn close_notify_is_told_from_other_failures() {
    assert!(is_close_notify(true, b"CloseNotify alert received"));
    assert!(is_close_notify(true, b"CloseNotify"));
    assert!(is_close_notify(true, b"peer sent CloseNotify"));
    assert!(!is_close_notify(false, b"CloseNotify alert received"));
    assert!(!is_close_notify(true, b"connection reset"));
    assert!(!is_close_notify(true, b"closenotify"));
    assert!(!is_close_notify(true, b"CloseNotif"));
    assert!(!is_close_notify(true, b""));
    assert!(!is_close_notify(false, b""));
}

#[test]
fn byte_search_finds_the_needle_wherever_it_stands() {
    assert!(contains_bytes(b"abcabd", b"abd"));
    assert!(contains_bytes(b"abcabd", b"abc"));
    assert!(contains_bytes(b"abcabd", b"cab"));
    assert!(contains_bytes(b"abcabd", b"abcabd"));
    assert!(contains_bytes(b"abcabd", b""));
    assert!(contains_bytes(b"", b""));
    assert!(contains_bytes(b"aab", b"ab"));
    assert!(!contains_bytes(b"abcabd", b"abcabda"));
    assert!(!contains_bytes(b"abcabd", b"abe"));
    assert!(!contains_bytes(b"abcabd", b"dab"));
    assert!(!contains_bytes(b"", b"a"));
    assert!(!contains_bytes(b"ab", b"ba"));
}

#[test]
fn connection_is_freed_with_its_session() {
    let mut client = client();
    let mut server = server();
    let mut stack = Userdata::new();
    handshake(&mut client, &mut server, &mut stack);
    rustls_connection_free(Some(Box::new(client)));
    rustls_connection_free(Some(Box::new(server)));
}
