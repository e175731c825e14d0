use crustls::error::{
    alert_result, cert_error_result, map_error, rustls_io_result, rustls_result, sct_error_result, EngineError,
};
use rustls::internal::msgs::codec::Codec;
use rustls::internal::msgs::enums::AlertDescription;

const KINDS: [EngineError; 13] = [
    EngineError::InappropriateMessage,
    EngineError::InappropriateHandshakeMessage,
    EngineError::CorruptMessage,
    EngineError::CorruptMessagePayload,
    EngineError::NoCertificatesPresented,
    EngineError::DecryptError,
    EngineError::PeerIncompatibleError,
    EngineError::PeerMisbehavedError,
    EngineError::General,
    EngineError::FailedToGetCurrentTime,
    EngineError::HandshakeNotComplete,
    EngineError::PeerSentOversizedRecord,
    EngineError::NoApplicationProtocol,
];

const BOUNDARY_CODES: [rustls_result; 7] = [
    rustls_result::Success,
    rustls_result::Io,
    rustls_result::NullParameter,
    rustls_result::Panic,
    rustls_result::CertificateParseError,
    rustls_result::PrivateKeyParseError,
    rustls_result::InsufficientSize,
];

#[test]
fn close_notify_alert_has_its_own_status() {
    assert_eq!(map_error(EngineError::AlertReceived(0)), rustls_result::AlertCloseNotify);
    assert_eq!(alert_result(0), rustls_result::AlertCloseNotify);
    for code in 1..=255u8 {
        assert_ne!(alert_result(code), rustls_result::AlertCloseNotify);
    }
    for kind in KINDS {
        assert_ne!(map_error(kind), rustls_result::AlertCloseNotify);
    }
}

#[test]
fn each_kind_of_engine_error_has_the_code_of_its_name() {
    for kind in KINDS {
        assert_eq!(format!("{:?}", map_error(kind)), format!("{:?}", kind));
    }
    assert_eq!(map_error(EngineError::DecryptError), rustls_result::DecryptError);
    assert_eq!(map_error(EngineError::General), rustls_result::General);
}

#[test]
fn each_certificate_failure_has_the_code_of_its_name() {
    let failures = [
        (webpki::Error::BadDER, "CertBadDER"),
        (webpki::Error::BadDERTime, "CertBadDERTime"),
        (webpki::Error::CAUsedAsEndEntity, "CertCAUsedAsEndEntity"),
        (webpki::Error::CertExpired, "CertExpired"),
        (webpki::Error::CertNotValidForName, "CertNotValidForName"),
        (webpki::Error::CertNotValidYet, "CertNotValidYet"),
        (webpki::Error::EndEntityUsedAsCA, "CertEndEntityUsedAsCA"),
        (webpki::Error::ExtensionValueInvalid, "CertExtensionValueInvalid"),
        (webpki::Error::InvalidCertValidity, "CertInvalidCertValidity"),
        (webpki::Error::InvalidSignatureForPublicKey, "CertInvalidSignatureForPublicKey"),
        (webpki::Error::NameConstraintViolation, "CertNameConstraintViolation"),
        (webpki::Error::PathLenConstraintViolated, "CertPathLenConstraintViolated"),
        (webpki::Error::SignatureAlgorithmMismatch, "CertSignatureAlgorithmMismatch"),
        (webpki::Error::RequiredEKUNotFound, "CertRequiredEKUNotFound"),
        (webpki::Error::UnknownIssuer, "CertUnknownIssuer"),
        (webpki::Error::UnsupportedCertVersion, "CertUnsupportedCertVersion"),
        (webpki::Error::UnsupportedCriticalExtension, "CertUnsupportedCriticalExtension"),
        (
            webpki::Error::UnsupportedSignatureAlgorithmForPublicKey,
            "CertUnsupportedSignatureAlgorithmForPublicKey",
        ),
        (webpki::Error::UnsupportedSignatureAlgorithm, "CertUnsupportedSignatureAlgorithm"),
    ];
    for (i, (failure, name)) in failures.iter().enumerate() {
        assert_eq!(*failure as u8 as usize, i);
        assert_eq!(format!("{:?}", cert_error_result(*failure as u8)), *name);
        assert_eq!(map_error(EngineError::WebPKIError(*failure as u8)), cert_error_result(*failure as u8));
    }
    assert_eq!(cert_error_result(14), rustls_result::CertUnknownIssuer);
    assert_eq!(cert_error_result(19), rustls_result::WebPKIError);
    assert_eq!(cert_error_result(255), rustls_result::WebPKIError);
}

#[test]
fn each_timestamp_failure_has_a_code_of_its_own() {
    assert_eq!(sct_error_result(0), rustls_result::CertSCTMalformed);
    assert_eq!(sct_error_result(1), rustls_result::CertSCTInvalidSignature);
    assert_eq!(sct_error_result(2), rustls_result::CertSCTTimestampInFuture);
    assert_eq!(sct_error_result(3), rustls_result::CertSCTUnsupportedVersion);
    assert_eq!(sct_error_result(4), rustls_result::CertSCTUnknownLog);
    assert_eq!(sct_error_result(5), rustls_result::InvalidSCT);
    assert_eq!(sct_error_result(255), rustls_result::InvalidSCT);
    for ordinal in 0..=255u8 {
        assert_eq!(map_error(EngineError::InvalidSCT(ordinal)), sct_error_result(ordinal));
    }
}

#[test]
fn each_alert_has_the_code_of_its_description() {
    for code in 0..=255u8 {
        let description = AlertDescription::read_bytes(&[code]).unwrap();
        let expected = match description {
            AlertDescription::Unknown(_) => "AlertUnknown".to_string(),
            known => format!("Alert{:?}", known),
        };
        assert_eq!(format!("{:?}", alert_result(code)), expected);
        assert_eq!(map_error(EngineError::AlertReceived(code)), alert_result(code));
    }
    assert_eq!(alert_result(0x28), rustls_result::AlertHandshakeFailure);
    assert_eq!(alert_result(0x2a), rustls_result::AlertBadCertificate);
    assert_eq!(alert_result(0x78), rustls_result::AlertNoApplicationProtocol);
    assert_eq!(alert_result(0x01), rustls_result::AlertUnknown);
    assert_eq!(alert_result(0xff), rustls_result::AlertUnknown);
}

#[test]
fn engine_errors_never_look_like_boundary_failures() {
    for code in BOUNDARY_CODES {
        for kind in KINDS {
            assert_ne!(map_error(kind), code);
        }
        for number in 0..=255u8 {
            assert_ne!(alert_result(number), code);
            assert_ne!(cert_error_result(number), code);
            assert_ne!(sct_error_result(number), code);
        }
    }
}

#[test]
fn different_engine_errors_have_different_codes() {
    let mut codes: Vec<rustls_result> = KINDS.iter().map(|kind| map_error(*kind)).collect();
    for number in 0..=255u8 {
        if alert_result(number) != rustls_result::AlertUnknown {
            codes.push(alert_result(number));
        }
        if number < 19 {
            codes.push(cert_error_result(number));
        }
        if number < 5 {
            codes.push(sct_error_result(number));
        }
    }
    assert_eq!(codes.len(), 13 + 34 + 19 + 5);
    for i in 0..codes.len() {
        for j in 0..i {
            assert_ne!(codes[i], codes[j]);
        }
    }
}

#[test]
fn io_status_is_a_plain_number() {
    assert_eq!(rustls_io_result(0).0, 0);
    assert_eq!(rustls_io_result(11), rustls_io_result(11));
    assert_ne!(rustls_io_result(11), rustls_io_result(0));
}
