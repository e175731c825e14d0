use vstd::prelude::*;

verus! {

/// The status that every fallible operation of the boundary returns.
///
/// The first seven codes are the boundary's own. The others stand for the
/// errors of the TLS engine: one code for each kind of error, one for each
/// way in which a certificate or a certificate timestamp can fail, and one
/// for each alert that a peer can send.
#[allow(non_camel_case_types)]
#[derive(Clone, Copy, Debug, PartialEq, Eq, Structural)]
pub enum rustls_result {
    /// The operation succeeded.
    Success,
    /// A network callback or the engine's plaintext buffer reported a failure.
    Io,
    /// A handle, a buffer or an output parameter was null.
    NullParameter,
    /// An internal failure was caught at the boundary.
    Panic,
    /// A certificate could not be parsed, or none was found where one is needed.
    CertificateParseError,
    /// No private key could be parsed, or the key is of no supported kind.
    PrivateKeyParseError,
    /// The caller's buffer cannot hold the result.
    InsufficientSize,
    /// A message of an unexpected content type arrived.
    InappropriateMessage,
    /// A handshake message of an unexpected type arrived.
    InappropriateHandshakeMessage,
    /// A message could not be decoded.
    CorruptMessage,
    /// The payload of a message could not be decoded.
    CorruptMessagePayload,
    /// The peer presented no certificate.
    NoCertificatesPresented,
    /// A record could not be decrypted.
    DecryptError,
    /// The peer cannot agree on parameters with this side.
    PeerIncompatibleError,
    /// The peer broke the protocol.
    PeerMisbehavedError,
    /// Certificate validation failed in a way that has no code of its own.
    WebPKIError,
    /// A signed certificate timestamp was invalid in a way that has no code of its own.
    InvalidSCT,
    /// An error with no more specific code.
    General,
    /// The current time could not be read.
    FailedToGetCurrentTime,
    /// The operation needs a finished handshake.
    HandshakeNotComplete,
    /// The peer sent a record over the size limit.
    PeerSentOversizedRecord,
    /// No application protocol could be agreed.
    NoApplicationProtocol,
    /// Certificate validation failed with `BadDER`.
    CertBadDER,
    /// Certificate validation failed with `BadDERTime`.
    CertBadDERTime,
    /// Certificate validation failed with `CAUsedAsEndEntity`.
    CertCAUsedAsEndEntity,
    /// Certificate validation failed with `CertExpired`.
    CertExpired,
    /// Certificate validation failed with `CertNotValidForName`.
    CertNotValidForName,
    /// Certificate validation failed with `CertNotValidYet`.
    CertNotValidYet,
    /// Certificate validation failed with `EndEntityUsedAsCA`.
    CertEndEntityUsedAsCA,
    /// Certificate validation failed with `ExtensionValueInvalid`.
    CertExtensionValueInvalid,
    /// Certificate validation failed with `InvalidCertValidity`.
    CertInvalidCertValidity,
    /// Certificate validation failed with `InvalidSignatureForPublicKey`.
    CertInvalidSignatureForPublicKey,
    /// Certificate validation failed with `NameConstraintViolation`.
    CertNameConstraintViolation,
    /// Certificate validation failed with `PathLenConstraintViolated`.
    CertPathLenConstraintViolated,
    /// Certificate validation failed with `SignatureAlgorithmMismatch`.
    CertSignatureAlgorithmMismatch,
    /// Certificate validation failed with `RequiredEKUNotFound`.
    CertRequiredEKUNotFound,
    /// Certificate validation failed with `UnknownIssuer`.
    CertUnknownIssuer,
    /// Certificate validation failed with `UnsupportedCertVersion`.
    CertUnsupportedCertVersion,
    /// Certificate validation failed with `UnsupportedCriticalExtension`.
    CertUnsupportedCriticalExtension,
    /// Certificate validation failed with `UnsupportedSignatureAlgorithmForPublicKey`.
    CertUnsupportedSignatureAlgorithmForPublicKey,
    /// Certificate validation failed with `UnsupportedSignatureAlgorithm`.
    CertUnsupportedSignatureAlgorithm,
    /// A signed certificate timestamp failed with `MalformedSCT`.
    CertSCTMalformed,
    /// A signed certificate timestamp failed with `InvalidSignature`.
    CertSCTInvalidSignature,
    /// A signed certificate timestamp failed with `TimestampInFuture`.
    CertSCTTimestampInFuture,
    /// A signed certificate timestamp failed with `UnsupportedSCTVersion`.
    CertSCTUnsupportedVersion,
    /// A signed certificate timestamp failed with `UnknownLog`.
    CertSCTUnknownLog,
    /// The peer sent the alert `CloseNotify` (0x00).
    AlertCloseNotify,
    /// The peer sent the alert `UnexpectedMessage` (0x0a).
    AlertUnexpectedMessage,
    /// The peer sent the alert `BadRecordMac` (0x14).
    AlertBadRecordMac,
    /// The peer sent the alert `DecryptionFailed` (0x15).
    AlertDecryptionFailed,
    /// The peer sent the alert `RecordOverflow` (0x16).
    AlertRecordOverflow,
    /// The peer sent the alert `DecompressionFailure` (0x1e).
    AlertDecompressionFailure,
    /// The peer sent the alert `HandshakeFailure` (0x28).
    AlertHandshakeFailure,
    /// The peer sent the alert `NoCertificate` (0x29).
    AlertNoCertificate,
    /// The peer sent the alert `BadCertificate` (0x2a).
    AlertBadCertificate,
    /// The peer sent the alert `UnsupportedCertificate` (0x2b).
    AlertUnsupportedCertificate,
    /// The peer sent the alert `CertificateRevoked` (0x2c).
    AlertCertificateRevoked,
    /// The peer sent the alert `CertificateExpired` (0x2d).
    AlertCertificateExpired,
    /// The peer sent the alert `CertificateUnknown` (0x2e).
    AlertCertificateUnknown,
    /// The peer sent the alert `IllegalParameter` (0x2f).
    AlertIllegalParameter,
    /// The peer sent the alert `UnknownCA` (0x30).
    AlertUnknownCA,
    /// The peer sent the alert `AccessDenied` (0x31).
    AlertAccessDenied,
    /// The peer sent the alert `DecodeError` (0x32).
    AlertDecodeError,
    /// The peer sent the alert `DecryptError` (0x33).
    AlertDecryptError,
    /// The peer sent the alert `ExportRestriction` (0x3c).
    AlertExportRestriction,
    /// The peer sent the alert `ProtocolVersion` (0x46).
    AlertProtocolVersion,
    /// The peer sent the alert `InsufficientSecurity` (0x47).
    AlertInsufficientSecurity,
    /// The peer sent the alert `InternalError` (0x50).
    AlertInternalError,
    /// The peer sent the alert `InappropriateFallback` (0x56).
    AlertInappropriateFallback,
    /// The peer sent the alert `UserCanceled` (0x5a).
    AlertUserCanceled,
    /// The peer sent the alert `NoRenegotiation` (0x64).
    AlertNoRenegotiation,
    /// The peer sent the alert `MissingExtension` (0x6d).
    AlertMissingExtension,
    /// The peer sent the alert `UnsupportedExtension` (0x6e).
    AlertUnsupportedExtension,
    /// The peer sent the alert `CertificateUnobtainable` (0x6f).
    AlertCertificateUnobtainable,
    /// The peer sent the alert `UnrecognisedName` (0x70).
    AlertUnrecognisedName,
    /// The peer sent the alert `BadCertificateStatusResponse` (0x71).
    AlertBadCertificateStatusResponse,
    /// The peer sent the alert `BadCertificateHashValue` (0x72).
    AlertBadCertificateHashValue,
    /// The peer sent the alert `UnknownPSKIdentity` (0x73).
    AlertUnknownPSKIdentity,
    /// The peer sent the alert `CertificateRequired` (0x74).
    AlertCertificateRequired,
    /// The peer sent the alert `NoApplicationProtocol` (0x78).
    AlertNoApplicationProtocol,
    /// The peer sent an alert that the engine does not know.
    AlertUnknown,
}

/// The status of a network callback: zero for success, otherwise an error
/// number of the operating system.
#[allow(non_camel_case_types)]
#[derive(Clone, Copy, Debug, PartialEq, Eq, Structural)]
pub struct rustls_io_result(pub i32);

/// An error of the TLS engine, as plain data: its kind; for an alert the
/// number of its description; for a failure of certificate validation or of a
/// certificate timestamp the position of the failure in the engine's list of
/// such failures, counted from 0.
#[derive(Clone, Copy, Debug, PartialEq, Eq, Structural)]
pub enum EngineError {
    InappropriateMessage,
    InappropriateHandshakeMessage,
    CorruptMessage,
    CorruptMessagePayload,
    NoCertificatesPresented,
    DecryptError,
    PeerIncompatibleError,
    PeerMisbehavedError,
    /// An alert from the peer, with the number of its description.
    AlertReceived(u8),
    /// A failure of certificate validation, with its position in the list
    /// of the errors of `webpki`.
    WebPKIError(u8),
    /// A failure of a signed certificate timestamp, with its position in
    /// the list of the errors of `sct`.
    InvalidSCT(u8),
    General,
    FailedToGetCurrentTime,
    HandshakeNotComplete,
    PeerSentOversizedRecord,
    NoApplicationProtocol,
}

impl rustls_result {
    /// The codes that the boundary itself produces: success, and the failures
    /// that are found before or without the engine.
    pub open spec fn is_boundary_code(self) -> bool {
        self == rustls_result::Success || self == rustls_result::Io || self == rustls_result::NullParameter
            || self == rustls_result::Panic || self == rustls_result::CertificateParseError
            || self == rustls_result::PrivateKeyParseError || self == rustls_result::InsufficientSize
    }
}

/// The alert numbers that have a status code of their own.
pub open spec fn is_known_alert(code: u8) -> bool {
    code == 0x00
        || code == 0x0a
        || code == 0x14
        || code == 0x15
        || code == 0x16
        || code == 0x1e
        || code == 0x28
        || code == 0x29
        || code == 0x2a
        || code == 0x2b
        || code == 0x2c
        || code == 0x2d
        || code == 0x2e
        || code == 0x2f
        || code == 0x30
        || code == 0x31
        || code == 0x32
        || code == 0x33
        || code == 0x3c
        || code == 0x46
        || code == 0x47
        || code == 0x50
        || code == 0x56
        || code == 0x5a
        || code == 0x64
        || code == 0x6d
        || code == 0x6e
        || code == 0x6f
        || code == 0x70
        || code == 0x71
        || code == 0x72
        || code == 0x73
        || code == 0x74
        || code == 0x78
}

/// The status code for an alert with the description number `code`.
pub open spec fn spec_alert_result(code: u8) -> rustls_result {
    match code {
        0x00 => rustls_result::AlertCloseNotify,
        0x0a => rustls_result::AlertUnexpectedMessage,
        0x14 => rustls_result::AlertBadRecordMac,
        0x15 => rustls_result::AlertDecryptionFailed,
        0x16 => rustls_result::AlertRecordOverflow,
        0x1e => rustls_result::AlertDecompressionFailure,
        0x28 => rustls_result::AlertHandshakeFailure,
        0x29 => rustls_result::AlertNoCertificate,
        0x2a => rustls_result::AlertBadCertificate,
        0x2b => rustls_result::AlertUnsupportedCertificate,
        0x2c => rustls_result::AlertCertificateRevoked,
        0x2d => rustls_result::AlertCertificateExpired,
        0x2e => rustls_result::AlertCertificateUnknown,
        0x2f => rustls_result::AlertIllegalParameter,
        0x30 => rustls_result::AlertUnknownCA,
        0x31 => rustls_result::AlertAccessDenied,
        0x32 => rustls_result::AlertDecodeError,
        0x33 => rustls_result::AlertDecryptError,
        0x3c => rustls_result::AlertExportRestriction,
        0x46 => rustls_result::AlertProtocolVersion,
        0x47 => rustls_result::AlertInsufficientSecurity,
        0x50 => rustls_result::AlertInternalError,
        0x56 => rustls_result::AlertInappropriateFallback,
        0x5a => rustls_result::AlertUserCanceled,
        0x64 => rustls_result::AlertNoRenegotiation,
        0x6d => rustls_result::AlertMissingExtension,
        0x6e => rustls_result::AlertUnsupportedExtension,
        0x6f => rustls_result::AlertCertificateUnobtainable,
        0x70 => rustls_result::AlertUnrecognisedName,
        0x71 => rustls_result::AlertBadCertificateStatusResponse,
        0x72 => rustls_result::AlertBadCertificateHashValue,
        0x73 => rustls_result::AlertUnknownPSKIdentity,
        0x74 => rustls_result::AlertCertificateRequired,
        0x78 => rustls_result::AlertNoApplicationProtocol,
        _ => rustls_result::AlertUnknown,
    }
}

/// The number of failures of certificate validation that have a status
/// code of their own.
pub open spec fn known_cert_errors() -> int {
    19
}

/// The number of failures of a certificate timestamp that have a status
/// code of their own.
pub open spec fn known_sct_errors() -> int {
    5
}

/// The status code for the failure of certificate validation at position
/// `ordinal` of the engine's list.
pub open spec fn spec_cert_error_result(ordinal: u8) -> rustls_result {
    match ordinal {
        0 => rustls_result::CertBadDER,
        1 => rustls_result::CertBadDERTime,
        2 => rustls_result::CertCAUsedAsEndEntity,
        3 => rustls_result::CertExpired,
        4 => rustls_result::CertNotValidForName,
        5 => rustls_result::CertNotValidYet,
        6 => rustls_result::CertEndEntityUsedAsCA,
        7 => rustls_result::CertExtensionValueInvalid,
        8 => rustls_result::CertInvalidCertValidity,
        9 => rustls_result::CertInvalidSignatureForPublicKey,
        10 => rustls_result::CertNameConstraintViolation,
        11 => rustls_result::CertPathLenConstraintViolated,
        12 => rustls_result::CertSignatureAlgorithmMismatch,
        13 => rustls_result::CertRequiredEKUNotFound,
        14 => rustls_result::CertUnknownIssuer,
        15 => rustls_result::CertUnsupportedCertVersion,
        16 => rustls_result::CertUnsupportedCriticalExtension,
        17 => rustls_result::CertUnsupportedSignatureAlgorithmForPublicKey,
        18 => rustls_result::CertUnsupportedSignatureAlgorithm,
        _ => rustls_result::WebPKIError,
    }
}

/// The status code for the failure of a certificate timestamp at position
/// `ordinal` of the engine's list.
pub open spec fn spec_sct_error_result(ordinal: u8) -> rustls_result {
    match ordinal {
        0 => rustls_result::CertSCTMalformed,
        1 => rustls_result::CertSCTInvalidSignature,
        2 => rustls_result::CertSCTTimestampInFuture,
        3 => rustls_result::CertSCTUnsupportedVersion,
        4 => rustls_result::CertSCTUnknownLog,
        _ => rustls_result::InvalidSCT,
    }
}

/// The status code for each error of the engine.
pub open spec fn spec_map_error(e: EngineError) -> rustls_result {
    match e {
        EngineError::InappropriateMessage => rustls_result::InappropriateMessage,
        EngineError::InappropriateHandshakeMessage => rustls_result::InappropriateHandshakeMessage,
        EngineError::CorruptMessage => rustls_result::CorruptMessage,
        EngineError::CorruptMessagePayload => rustls_result::CorruptMessagePayload,
        EngineError::NoCertificatesPresented => rustls_result::NoCertificatesPresented,
        EngineError::DecryptError => rustls_result::DecryptError,
        EngineError::PeerIncompatibleError => rustls_result::PeerIncompatibleError,
        EngineError::PeerMisbehavedError => rustls_result::PeerMisbehavedError,
        EngineError::AlertReceived(code) => spec_alert_result(code),
        EngineError::WebPKIError(ordinal) => spec_cert_error_result(ordinal),
        EngineError::InvalidSCT(ordinal) => spec_sct_error_result(ordinal),
        EngineError::General => rustls_result::General,
        EngineError::FailedToGetCurrentTime => rustls_result::FailedToGetCurrentTime,
        EngineError::HandshakeNotComplete => rustls_result::HandshakeNotComplete,
        EngineError::PeerSentOversizedRecord => rustls_result::PeerSentOversizedRecord,
        EngineError::NoApplicationProtocol => rustls_result::NoApplicationProtocol,
    }
}

/// Gives the status code for an alert with the description number `code`.
pub fn alert_result(code: u8) -> (r: rustls_result)
    ensures
        r == spec_alert_result(code),
{
    match code {
        0x00 => rustls_result::AlertCloseNotify,
        0x0a => rustls_result::AlertUnexpectedMessage,
        0x14 => rustls_result::AlertBadRecordMac,
        0x15 => rustls_result::AlertDecryptionFailed,
        0x16 => rustls_result::AlertRecordOverflow,
        0x1e => rustls_result::AlertDecompressionFailure,
        0x28 => rustls_result::AlertHandshakeFailure,
        0x29 => rustls_result::AlertNoCertificate,
        0x2a => rustls_result::AlertBadCertificate,
        0x2b => rustls_result::AlertUnsupportedCertificate,
        0x2c => rustls_result::AlertCertificateRevoked,
        0x2d => rustls_result::AlertCertificateExpired,
        0x2e => rustls_result::AlertCertificateUnknown,
        0x2f => rustls_result::AlertIllegalParameter,
        0x30 => rustls_result::AlertUnknownCA,
        0x31 => rustls_result::AlertAccessDenied,
        0x32 => rustls_result::AlertDecodeError,
        0x33 => rustls_result::AlertDecryptError,
        0x3c => rustls_result::AlertExportRestriction,
        0x46 => rustls_result::AlertProtocolVersion,
        0x47 => rustls_result::AlertInsufficientSecurity,
        0x50 => rustls_result::AlertInternalError,
        0x56 => rustls_result::AlertInappropriateFallback,
        0x5a => rustls_result::AlertUserCanceled,
        0x64 => rustls_result::AlertNoRenegotiation,
        0x6d => rustls_result::AlertMissingExtension,
        0x6e => rustls_result::AlertUnsupportedExtension,
        0x6f => rustls_result::AlertCertificateUnobtainable,
        0x70 => rustls_result::AlertUnrecognisedName,
        0x71 => rustls_result::AlertBadCertificateStatusResponse,
        0x72 => rustls_result::AlertBadCertificateHashValue,
        0x73 => rustls_result::AlertUnknownPSKIdentity,
        0x74 => rustls_result::AlertCertificateRequired,
        0x78 => rustls_result::AlertNoApplicationProtocol,
        _ => rustls_result::AlertUnknown,
    }
}

/// Gives the status code for the failure of certificate validation at
/// position `ordinal` of the engine's list.
pub fn cert_error_result(ordinal: u8) -> (r: rustls_result)
    ensures
        r == spec_cert_error_result(ordinal),
{
    match ordinal {
        0 => rustls_result::CertBadDER,
        1 => rustls_result::CertBadDERTime,
        2 => rustls_result::CertCAUsedAsEndEntity,
        3 => rustls_result::CertExpired,
        4 => rustls_result::CertNotValidForName,
        5 => rustls_result::CertNotValidYet,
        6 => rustls_result::CertEndEntityUsedAsCA,
        7 => rustls_result::CertExtensionValueInvalid,
        8 => rustls_result::CertInvalidCertValidity,
        9 => rustls_result::CertInvalidSignatureForPublicKey,
        10 => rustls_result::CertNameConstraintViolation,
        11 => rustls_result::CertPathLenConstraintViolated,
        12 => rustls_result::CertSignatureAlgorithmMismatch,
        13 => rustls_result::CertRequiredEKUNotFound,
        14 => rustls_result::CertUnknownIssuer,
        15 => rustls_result::CertUnsupportedCertVersion,
        16 => rustls_result::CertUnsupportedCriticalExtension,
        17 => rustls_result::CertUnsupportedSignatureAlgorithmForPublicKey,
        18 => rustls_result::CertUnsupportedSignatureAlgorithm,
        _ => rustls_result::WebPKIError,
    }
}

/// Gives the status code for the failure of a certificate timestamp at
/// position `ordinal` of the engine's list.
pub fn sct_error_result(ordinal: u8) -> (r: rustls_result)
    ensures
        r == spec_sct_error_result(ordinal),
{
    match ordinal {
        0 => rustls_result::CertSCTMalformed,
        1 => rustls_result::CertSCTInvalidSignature,
        2 => rustls_result::CertSCTTimestampInFuture,
        3 => rustls_result::CertSCTUnsupportedVersion,
        4 => rustls_result::CertSCTUnknownLog,
        _ => rustls_result::InvalidSCT,
    }
}

/// Turns an error of the engine into the status code that stands for it.
pub fn map_error(e: EngineError) -> (r: rustls_result)
    ensures
        r == spec_map_error(e),
{
    match e {
        EngineError::InappropriateMessage => rustls_result::InappropriateMessage,
        EngineError::InappropriateHandshakeMessage => rustls_result::InappropriateHandshakeMessage,
        EngineError::CorruptMessage => rustls_result::CorruptMessage,
        EngineError::CorruptMessagePayload => rustls_result::CorruptMessagePayload,
        EngineError::NoCertificatesPresented => rustls_result::NoCertificatesPresented,
        EngineError::DecryptError => rustls_result::DecryptError,
        EngineError::PeerIncompatibleError => rustls_result::PeerIncompatibleError,
        EngineError::PeerMisbehavedError => rustls_result::PeerMisbehavedError,
        EngineError::AlertReceived(code) => alert_result(code),
        EngineError::WebPKIError(ordinal) => cert_error_result(ordinal),
        EngineError::InvalidSCT(ordinal) => sct_error_result(ordinal),
        EngineError::General => rustls_result::General,
        EngineError::FailedToGetCurrentTime => rustls_result::FailedToGetCurrentTime,
        EngineError::HandshakeNotComplete => rustls_result::HandshakeNotComplete,
        EngineError::PeerSentOversizedRecord => rustls_result::PeerSentOversizedRecord,
        EngineError::NoApplicationProtocol => rustls_result::NoApplicationProtocol,
    }
}

/// No error of the engine is reported under a code of the boundary's own, so
/// a caller can tell a protocol failure from a null parameter, a parse
/// failure, an I/O failure or a caught internal failure.
pub proof fn lemma_engine_codes_are_distinct(e: EngineError)
    ensures
        !spec_map_error(e).is_boundary_code(),
{
}

/// The close-notify code is given for the close-notify alert and for nothing
/// else.
pub proof fn lemma_close_notify_is_special(e: EngineError)
    ensures
        spec_map_error(e) == rustls_result::AlertCloseNotify <==> e == EngineError::AlertReceived(0),
{
}

/// Whether the error has a status code of its own: every error has, but
/// for an alert, a failure of certificate validation or a failure of a
/// certificate timestamp that the engine's lists do not hold.
pub open spec fn has_own_code(e: EngineError) -> bool {
    match e {
        EngineError::AlertReceived(code) => is_known_alert(code),
        EngineError::WebPKIError(ordinal) => ordinal < known_cert_errors(),
        EngineError::InvalidSCT(ordinal) => ordinal < known_sct_errors(),
        _ => true,
    }
}

/// Two alerts get the same status code only if they are the same alert, or
/// neither has a code of its own.
pub proof fn lemma_alert_codes_one_to_one(x: u8, y: u8)
    requires
        spec_alert_result(x) == spec_alert_result(y),
    ensures
        x == y || (!is_known_alert(x) && !is_known_alert(y)),
{
}

/// Two failures of certificate validation get the same status code only if
/// they are the same failure, or neither has a code of its own.
pub proof fn lemma_cert_codes_one_to_one(x: u8, y: u8)
    requires
        spec_cert_error_result(x) == spec_cert_error_result(y),
    ensures
        x == y || (x >= known_cert_errors() && y >= known_cert_errors()),
{
}

/// Two failures of a certificate timestamp get the same status code only if
/// they are the same failure, or neither has a code of its own.
pub proof fn lemma_sct_codes_one_to_one(x: u8, y: u8)
    requires
        spec_sct_error_result(x) == spec_sct_error_result(y),
    ensures
        x == y || (x >= known_sct_errors() && y >= known_sct_errors()),
{
}

/// Two errors of the engine get the same status code only if they are the
/// same error, or neither has a code of its own.
pub proof fn lemma_map_error_one_to_one(a: EngineError, b: EngineError)
    requires
        spec_map_error(a) == spec_map_error(b),
    ensures
        a == b || (!has_own_code(a) && !has_own_code(b)),
{
    match (a, b) {
        (EngineError::AlertReceived(x), EngineError::AlertReceived(y)) => {
            lemma_alert_codes_one_to_one(x, y);
        },
        (EngineError::WebPKIError(x), EngineError::WebPKIError(y)) => {
            lemma_cert_codes_one_to_one(x, y);
        },
        (EngineError::InvalidSCT(x), EngineError::InvalidSCT(y)) => {
            lemma_sct_codes_one_to_one(x, y);
        },
        (EngineError::AlertReceived(x), _) => {
            assert(spec_map_error(b) != spec_alert_result(x));
        },
        (_, EngineError::AlertReceived(y)) => {
            assert(spec_map_error(a) != spec_alert_result(y));
        },
        (EngineError::WebPKIError(x), _) => {
            assert(spec_map_error(b) != spec_cert_error_result(x));
        },
        (_, EngineError::WebPKIError(y)) => {
            assert(spec_map_error(a) != spec_cert_error_result(y));
        },
        _ => {},
    }
}

} // verus!
