//! The registry of TLS cipher suites.
use vstd::prelude::*;

verus! {

/// The cipher suites of the IANA registry of TLS parameters, as it stood when
/// this list was made. The list says nothing on support: the engine supports
/// a few of these suites, and a peer may offer a suite that is not listed.
#[allow(non_camel_case_types)]
#[derive(Clone, Copy, Debug, PartialEq, Eq, Structural)]
pub enum rustls_cipersuite {
    /// 0x0000
    TLS_NULL_WITH_NULL_NULL,
    /// 0x0001
    TLS_RSA_WITH_NULL_MD5,
    /// 0x0002
    TLS_RSA_WITH_NULL_SHA,
    /// 0x0003
    TLS_RSA_EXPORT_WITH_RC4_40_MD5,
    /// 0x0004
    TLS_RSA_WITH_RC4_128_MD5,
    /// 0x0005
    TLS_RSA_WITH_RC4_128_SHA,
    /// 0x0006
    TLS_RSA_EXPORT_WITH_RC2_CBC_40_MD5,
    /// 0x0007
    TLS_RSA_WITH_IDEA_CBC_SHA,
    /// 0x0008
    TLS_RSA_EXPORT_WITH_DES40_CBC_SHA,
    /// 0x0009
    TLS_RSA_WITH_DES_CBC_SHA,
    /// 0x000a
    TLS_RSA_WITH_3DES_EDE_CBC_SHA,
    /// 0x000b
    TLS_DH_DSS_EXPORT_WITH_DES40_CBC_SHA,
    /// 0x000c
    TLS_DH_DSS_WITH_DES_CBC_SHA,
    /// 0x000d
    TLS_DH_DSS_WITH_3DES_EDE_CBC_SHA,
    /// 0x000e
    TLS_DH_RSA_EXPORT_WITH_DES40_CBC_SHA,
    /// 0x000f
    TLS_DH_RSA_WITH_DES_CBC_SHA,
    /// 0x0010
    TLS_DH_RSA_WITH_3DES_EDE_CBC_SHA,
    /// 0x0011
    TLS_DHE_DSS_EXPORT_WITH_DES40_CBC_SHA,
    /// 0x0012
    TLS_DHE_DSS_WITH_DES_CBC_SHA,
    /// 0x0013
    TLS_DHE_DSS_WITH_3DES_EDE_CBC_SHA,
    /// 0x0014
    TLS_DHE_RSA_EXPORT_WITH_DES40_CBC_SHA,
    /// 0x0015
    TLS_DHE_RSA_WITH_DES_CBC_SHA,
    /// 0x0016
    TLS_DHE_RSA_WITH_3DES_EDE_CBC_SHA,
    /// 0x0017
    TLS_DH_anon_EXPORT_WITH_RC4_40_MD5,
    /// 0x0018
    TLS_DH_anon_WITH_RC4_128_MD5,
    /// 0x0019
    TLS_DH_anon_EXPORT_WITH_DES40_CBC_SHA,
    /// 0x001a
    TLS_DH_anon_WITH_DES_CBC_SHA,
    /// 0x001b
    TLS_DH_anon_WITH_3DES_EDE_CBC_SHA,
    /// 0x001c
    SSL_FORTEZZA_KEA_WITH_NULL_SHA,
    /// 0x001d
    SSL_FORTEZZA_KEA_WITH_FORTEZZA_CBC_SHA,
    /// 0x001e
    TLS_KRB5_WITH_DES_CBC_SHA_or_SSL_FORTEZZA_KEA_WITH_RC4_128_SHA,
    /// 0x001f
    TLS_KRB5_WITH_3DES_EDE_CBC_SHA,
    /// 0x0020
    TLS_KRB5_WITH_RC4_128_SHA,
    /// 0x0021
    TLS_KRB5_WITH_IDEA_CBC_SHA,
    /// 0x0022
    TLS_KRB5_WITH_DES_CBC_MD5,
    /// 0x0023
    TLS_KRB5_WITH_3DES_EDE_CBC_MD5,
    /// 0x0024
    TLS_KRB5_WITH_RC4_128_MD5,
    /// 0x0025
    TLS_KRB5_WITH_IDEA_CBC_MD5,
    /// 0x0026
    TLS_KRB5_EXPORT_WITH_DES_CBC_40_SHA,
    /// 0x0027
    TLS_KRB5_EXPORT_WITH_RC2_CBC_40_SHA,
    /// 0x0028
    TLS_KRB5_EXPORT_WITH_RC4_40_SHA,
    /// 0x0029
    TLS_KRB5_EXPORT_WITH_DES_CBC_40_MD5,
    /// 0x002a
    TLS_KRB5_EXPORT_WITH_RC2_CBC_40_MD5,
    /// 0x002b
    TLS_KRB5_EXPORT_WITH_RC4_40_MD5,
    /// 0x002c
    TLS_PSK_WITH_NULL_SHA,
    /// 0x002d
    TLS_DHE_PSK_WITH_NULL_SHA,
    /// 0x002e
    TLS_RSA_PSK_WITH_NULL_SHA,
    /// 0x002f
    TLS_RSA_WITH_AES_128_CBC_SHA,
    /// 0x0030
    TLS_DH_DSS_WITH_AES_128_CBC_SHA,
    /// 0x0031
    TLS_DH_RSA_WITH_AES_128_CBC_SHA,
    /// 0x0032
    TLS_DHE_DSS_WITH_AES_128_CBC_SHA,
    /// 0x0033
    TLS_DHE_RSA_WITH_AES_128_CBC_SHA,
    /// 0x0034
    TLS_DH_anon_WITH_AES_128_CBC_SHA,
    /// 0x0035
    TLS_RSA_WITH_AES_256_CBC_SHA,
    /// 0x0036
    TLS_DH_DSS_WITH_AES_256_CBC_SHA,
    /// 0x0037
    TLS_DH_RSA_WITH_AES_256_CBC_SHA,
    /// 0x0038
    TLS_DHE_DSS_WITH_AES_256_CBC_SHA,
    /// 0x0039
    TLS_DHE_RSA_WITH_AES_256_CBC_SHA,
    /// 0x003a
    TLS_DH_anon_WITH_AES_256_CBC_SHA,
    /// 0x003b
    TLS_RSA_WITH_NULL_SHA256,
    /// 0x003c
    TLS_RSA_WITH_AES_128_CBC_SHA256,
    /// 0x003d
    TLS_RSA_WITH_AES_256_CBC_SHA256,
    /// 0x003e
    TLS_DH_DSS_WITH_AES_128_CBC_SHA256,
    /// 0x003f
    TLS_DH_RSA_WITH_AES_128_CBC_SHA256,
    /// 0x0040
    TLS_DHE_DSS_WITH_AES_128_CBC_SHA256,
    /// 0x0041
    TLS_RSA_WITH_CAMELLIA_128_CBC_SHA,
    /// 0x0042
    TLS_DH_DSS_WITH_CAMELLIA_128_CBC_SHA,
    /// 0x0043
    TLS_DH_RSA_WITH_CAMELLIA_128_CBC_SHA,
    /// 0x0044
    TLS_DHE_DSS_WITH_CAMELLIA_128_CBC_SHA,
    /// 0x0045
    TLS_DHE_RSA_WITH_CAMELLIA_128_CBC_SHA,
    /// 0x0046
    TLS_DH_anon_WITH_CAMELLIA_128_CBC_SHA,
    /// 0x0047
    TLS_ECDH_ECDSA_WITH_NULL_SHA_draft,
    /// 0x0048
    TLS_ECDH_ECDSA_WITH_RC4_128_SHA_draft,
    /// 0x0049
    TLS_ECDH_ECDSA_WITH_DES_CBC_SHA_draft,
    /// 0x004a
    TLS_ECDH_ECDSA_WITH_3DES_EDE_CBC_SHA_draft,
    /// 0x004b
    TLS_ECDH_ECDSA_WITH_AES_128_CBC_SHA_draft,
    /// 0x004c
    TLS_ECDH_ECDSA_WITH_AES_256_CBC_SHA_draft,
    /// 0x004d
    TLS_ECDH_ECNRA_WITH_DES_CBC_SHA_draft,
    /// 0x004e
    TLS_ECDH_ECNRA_WITH_3DES_EDE_CBC_SHA_draft,
    /// 0x004f
    TLS_ECMQV_ECDSA_NULL_SHA_draft,
    /// 0x0050
    TLS_ECMQV_ECDSA_WITH_RC4_128_SHA_draft,
    /// 0x0051
    TLS_ECMQV_ECDSA_WITH_DES_CBC_SHA_draft,
    /// 0x0052
    TLS_ECMQV_ECDSA_WITH_3DES_EDE_CBC_SHA_draft,
    /// 0x0053
    TLS_ECMQV_ECNRA_NULL_SHA_draft,
    /// 0x0054
    TLS_ECMQV_ECNRA_WITH_RC4_128_SHA_draft,
    /// 0x0055
    TLS_ECMQV_ECNRA_WITH_DES_CBC_SHA_draft,
    /// 0x0056
    TLS_ECMQV_ECNRA_WITH_3DES_EDE_CBC_SHA_draft,
    /// 0x0057
    TLS_ECDH_anon_NULL_WITH_SHA_draft,
    /// 0x0058
    TLS_ECDH_anon_WITH_RC4_128_SHA_draft,
    /// 0x0059
    TLS_ECDH_anon_WITH_DES_CBC_SHA_draft,
    /// 0x005a
    TLS_ECDH_anon_WITH_3DES_EDE_CBC_SHA_draft,
    /// 0x005b
    TLS_ECDH_anon_EXPORT_WITH_DES40_CBC_SHA_draft,
    /// 0x005c
    TLS_ECDH_anon_EXPORT_WITH_RC4_40_SHA_draft,
    /// 0x0060
    TLS_RSA_EXPORT1024_WITH_RC4_56_MD5,
    /// 0x0061
    TLS_RSA_EXPORT1024_WITH_RC2_CBC_56_MD5,
    /// 0x0062
    TLS_RSA_EXPORT1024_WITH_DES_CBC_SHA,
    /// 0x0063
    TLS_DHE_DSS_EXPORT1024_WITH_DES_CBC_SHA,
    /// 0x0064
    TLS_RSA_EXPORT1024_WITH_RC4_56_SHA,
    /// 0x0065
    TLS_DHE_DSS_EXPORT1024_WITH_RC4_56_SHA,
    /// 0x0066
    TLS_DHE_DSS_WITH_RC4_128_SHA,
    /// 0x0067
    TLS_DHE_RSA_WITH_AES_128_CBC_SHA256,
    /// 0x0068
    TLS_DH_DSS_WITH_AES_256_CBC_SHA256,
    /// 0x0069
    TLS_DH_RSA_WITH_AES_256_CBC_SHA256,
    /// 0x006a
    TLS_DHE_DSS_WITH_AES_256_CBC_SHA256,
    /// 0x006b
    TLS_DHE_RSA_WITH_AES_256_CBC_SHA256,
    /// 0x006c
    TLS_DH_anon_WITH_AES_128_CBC_SHA256,
    /// 0x006d
    TLS_DH_anon_WITH_AES_256_CBC_SHA256,
    /// 0x0072
    TLS_DHE_DSS_WITH_3DES_EDE_CBC_RMD,
    /// 0x0073
    TLS_DHE_DSS_WITH_AES_128_CBC_RMD,
    /// 0x0074
    TLS_DHE_DSS_WITH_AES_256_CBC_RMD,
    /// 0x0077
    TLS_DHE_RSA_WITH_3DES_EDE_CBC_RMD,
    /// 0x0078
    TLS_DHE_RSA_WITH_AES_128_CBC_RMD,
    /// 0x0079
    TLS_DHE_RSA_WITH_AES_256_CBC_RMD,
    /// 0x007c
    TLS_RSA_WITH_3DES_EDE_CBC_RMD,
    /// 0x007d
    TLS_RSA_WITH_AES_128_CBC_RMD,
    /// 0x007e
    TLS_RSA_WITH_AES_256_CBC_RMD,
    /// 0x0080
    TLS_GOSTR341094_WITH_28147_CNT_IMIT,
    /// 0x0081
    TLS_GOSTR341001_WITH_28147_CNT_IMIT,
    /// 0x0082
    TLS_GOSTR341094_WITH_NULL_GOSTR3411,
    /// 0x0083
    TLS_GOSTR341001_WITH_NULL_GOSTR3411,
    /// 0x0084
    TLS_RSA_WITH_CAMELLIA_256_CBC_SHA,
    /// 0x0085
    TLS_DH_DSS_WITH_CAMELLIA_256_CBC_SHA,
    /// 0x0086
    TLS_DH_RSA_WITH_CAMELLIA_256_CBC_SHA,
    /// 0x0087
    TLS_DHE_DSS_WITH_CAMELLIA_256_CBC_SHA,
    /// 0x0088
    TLS_DHE_RSA_WITH_CAMELLIA_256_CBC_SHA,
    /// 0x0089
    TLS_DH_anon_WITH_CAMELLIA_256_CBC_SHA,
    /// 0x008a
    TLS_PSK_WITH_RC4_128_SHA,
    /// 0x008b
    TLS_PSK_WITH_3DES_EDE_CBC_SHA,
    /// 0x008c
    TLS_PSK_WITH_AES_128_CBC_SHA,
    /// 0x008d
    TLS_PSK_WITH_AES_256_CBC_SHA,
    /// 0x008e
    TLS_DHE_PSK_WITH_RC4_128_SHA,
    /// 0x008f
    TLS_DHE_PSK_WITH_3DES_EDE_CBC_SHA,
    /// 0x0090
    TLS_DHE_PSK_WITH_AES_128_CBC_SHA,
    /// 0x0091
    TLS_DHE_PSK_WITH_AES_256_CBC_SHA,
    /// 0x0092
    TLS_RSA_PSK_WITH_RC4_128_SHA,
    /// 0x0093
    TLS_RSA_PSK_WITH_3DES_EDE_CBC_SHA,
    /// 0x0094
    TLS_RSA_PSK_WITH_AES_128_CBC_SHA,
    /// 0x0095
    TLS_RSA_PSK_WITH_AES_256_CBC_SHA,
    /// 0x0096
    TLS_RSA_WITH_SEED_CBC_SHA,
    /// 0x0097
    TLS_DH_DSS_WITH_SEED_CBC_SHA,
    /// 0x0098
    TLS_DH_RSA_WITH_SEED_CBC_SHA,
    /// 0x0099
    TLS_DHE_DSS_WITH_SEED_CBC_SHA,
    /// 0x009a
    TLS_DHE_RSA_WITH_SEED_CBC_SHA,
    /// 0x009b
    TLS_DH_anon_WITH_SEED_CBC_SHA,
    /// 0x009c
    TLS_RSA_WITH_AES_128_GCM_SHA256,
    /// 0x009d
    TLS_RSA_WITH_AES_256_GCM_SHA384,
    /// 0x009e
    TLS_DHE_RSA_WITH_AES_128_GCM_SHA256,
    /// 0x009f
    TLS_DHE_RSA_WITH_AES_256_GCM_SHA384,
    /// 0x00a0
    TLS_DH_RSA_WITH_AES_128_GCM_SHA256,
    /// 0x00a1
    TLS_DH_RSA_WITH_AES_256_GCM_SHA384,
    /// 0x00a2
    TLS_DHE_DSS_WITH_AES_128_GCM_SHA256,
    /// 0x00a3
    TLS_DHE_DSS_WITH_AES_256_GCM_SHA384,
    /// 0x00a4
    TLS_DH_DSS_WITH_AES_128_GCM_SHA256,
    /// 0x00a5
    TLS_DH_DSS_WITH_AES_256_GCM_SHA384,
    /// 0x00a6
    TLS_DH_anon_WITH_AES_128_GCM_SHA256,
    /// 0x00a7
    TLS_DH_anon_WITH_AES_256_GCM_SHA384,
    /// 0x00a8
    TLS_PSK_WITH_AES_128_GCM_SHA256,
    /// 0x00a9
    TLS_PSK_WITH_AES_256_GCM_SHA384,
    /// 0x00aa
    TLS_DHE_PSK_WITH_AES_128_GCM_SHA256,
    /// 0x00ab
    TLS_DHE_PSK_WITH_AES_256_GCM_SHA384,
    /// 0x00ac
    TLS_RSA_PSK_WITH_AES_128_GCM_SHA256,
    /// 0x00ad
    TLS_RSA_PSK_WITH_AES_256_GCM_SHA384,
    /// 0x00ae
    TLS_PSK_WITH_AES_128_CBC_SHA256,
    /// 0x00af
    TLS_PSK_WITH_AES_256_CBC_SHA384,
    /// 0x00b0
    TLS_PSK_WITH_NULL_SHA256,
    /// 0x00b1
    TLS_PSK_WITH_NULL_SHA384,
    /// 0x00b2
    TLS_DHE_PSK_WITH_AES_128_CBC_SHA256,
    /// 0x00b3
    TLS_DHE_PSK_WITH_AES_256_CBC_SHA384,
    /// 0x00b4
    TLS_DHE_PSK_WITH_NULL_SHA256,
    /// 0x00b5
    TLS_DHE_PSK_WITH_NULL_SHA384,
    /// 0x00b6
    TLS_RSA_PSK_WITH_AES_128_CBC_SHA256,
    /// 0x00b7
    TLS_RSA_PSK_WITH_AES_256_CBC_SHA384,
    /// 0x00b8
    TLS_RSA_PSK_WITH_NULL_SHA256,
    /// 0x00b9
    TLS_RSA_PSK_WITH_NULL_SHA384,
    /// 0x00ba
    TLS_RSA_WITH_CAMELLIA_128_CBC_SHA256,
    /// 0x00bb
    TLS_DH_DSS_WITH_CAMELLIA_128_CBC_SHA256,
    /// 0x00bc
    TLS_DH_RSA_WITH_CAMELLIA_128_CBC_SHA256,
    /// 0x00bd
    TLS_DHE_DSS_WITH_CAMELLIA_128_CBC_SHA256,
    /// 0x00be
    TLS_DHE_RSA_WITH_CAMELLIA_128_CBC_SHA256,
    /// 0x00bf
    TLS_DH_anon_WITH_CAMELLIA_128_CBC_SHA256,
    /// 0x00c0
    TLS_RSA_WITH_CAMELLIA_256_CBC_SHA256,
    /// 0x00c1
    TLS_DH_DSS_WITH_CAMELLIA_256_CBC_SHA256,
    /// 0x00c2
    TLS_DH_RSA_WITH_CAMELLIA_256_CBC_SHA256,
    /// 0x00c3
    TLS_DHE_DSS_WITH_CAMELLIA_256_CBC_SHA256,
    /// 0x00c4
    TLS_DHE_RSA_WITH_CAMELLIA_256_CBC_SHA256,
    /// 0x00c5
    TLS_DH_anon_WITH_CAMELLIA_256_CBC_SHA256,
    /// 0x00ff
    TLS_EMPTY_RENEGOTIATION_INFO_SCSV,
    /// 0x1301
    TLS13_AES_128_GCM_SHA256,
    /// 0x1302
    TLS13_AES_256_GCM_SHA384,
    /// 0x1303
    TLS13_CHACHA20_POLY1305_SHA256,
    /// 0x1304
    TLS13_AES_128_CCM_SHA256,
    /// 0x1305
    TLS13_AES_128_CCM_8_SHA256,
    /// 0xc001
    TLS_ECDH_ECDSA_WITH_NULL_SHA,
    /// 0xc002
    TLS_ECDH_ECDSA_WITH_RC4_128_SHA,
    /// 0xc003
    TLS_ECDH_ECDSA_WITH_3DES_EDE_CBC_SHA,
    /// 0xc004
    TLS_ECDH_ECDSA_WITH_AES_128_CBC_SHA,
    /// 0xc005
    TLS_ECDH_ECDSA_WITH_AES_256_CBC_SHA,
    /// 0xc006
    TLS_ECDHE_ECDSA_WITH_NULL_SHA,
    /// 0xc007
    TLS_ECDHE_ECDSA_WITH_RC4_128_SHA,
    /// 0xc008
    TLS_ECDHE_ECDSA_WITH_3DES_EDE_CBC_SHA,
    /// 0xc009
    TLS_ECDHE_ECDSA_WITH_AES_128_CBC_SHA,
    /// 0xc00a
    TLS_ECDHE_ECDSA_WITH_AES_256_CBC_SHA,
    /// 0xc00b
    TLS_ECDH_RSA_WITH_NULL_SHA,
    /// 0xc00c
    TLS_ECDH_RSA_WITH_RC4_128_SHA,
    /// 0xc00d
    TLS_ECDH_RSA_WITH_3DES_EDE_CBC_SHA,
    /// 0xc00e
    TLS_ECDH_RSA_WITH_AES_128_CBC_SHA,
    /// 0xc00f
    TLS_ECDH_RSA_WITH_AES_256_CBC_SHA,
    /// 0xc010
    TLS_ECDHE_RSA_WITH_NULL_SHA,
    /// 0xc011
    TLS_ECDHE_RSA_WITH_RC4_128_SHA,
    /// 0xc012
    TLS_ECDHE_RSA_WITH_3DES_EDE_CBC_SHA,
    /// 0xc013
    TLS_ECDHE_RSA_WITH_AES_128_CBC_SHA,
    /// 0xc014
    TLS_ECDHE_RSA_WITH_AES_256_CBC_SHA,
    /// 0xc015
    TLS_ECDH_anon_WITH_NULL_SHA,
    /// 0xc016
    TLS_ECDH_anon_WITH_RC4_128_SHA,
    /// 0xc017
    TLS_ECDH_anon_WITH_3DES_EDE_CBC_SHA,
    /// 0xc018
    TLS_ECDH_anon_WITH_AES_128_CBC_SHA,
    /// 0xc019
    TLS_ECDH_anon_WITH_AES_256_CBC_SHA,
    /// 0xc01a
    TLS_SRP_SHA_WITH_3DES_EDE_CBC_SHA,
    /// 0xc01b
    TLS_SRP_SHA_RSA_WITH_3DES_EDE_CBC_SHA,
    /// 0xc01c
    TLS_SRP_SHA_DSS_WITH_3DES_EDE_CBC_SHA,
    /// 0xc01d
    TLS_SRP_SHA_WITH_AES_128_CBC_SHA,
    /// 0xc01e
    TLS_SRP_SHA_RSA_WITH_AES_128_CBC_SHA,
    /// 0xc01f
    TLS_SRP_SHA_DSS_WITH_AES_128_CBC_SHA,
    /// 0xc020
    TLS_SRP_SHA_WITH_AES_256_CBC_SHA,
    /// 0xc021
    TLS_SRP_SHA_RSA_WITH_AES_256_CBC_SHA,
    /// 0xc022
    TLS_SRP_SHA_DSS_WITH_AES_256_CBC_SHA,
    /// 0xc023
    TLS_ECDHE_ECDSA_WITH_AES_128_CBC_SHA256,
    /// 0xc024
    TLS_ECDHE_ECDSA_WITH_AES_256_CBC_SHA384,
    /// 0xc025
    TLS_ECDH_ECDSA_WITH_AES_128_CBC_SHA256,
    /// 0xc026
    TLS_ECDH_ECDSA_WITH_AES_256_CBC_SHA384,
    /// 0xc027
    TLS_ECDHE_RSA_WITH_AES_128_CBC_SHA256,
    /// 0xc028
    TLS_ECDHE_RSA_WITH_AES_256_CBC_SHA384,
    /// 0xc029
    TLS_ECDH_RSA_WITH_AES_128_CBC_SHA256,
    /// 0xc02a
    TLS_ECDH_RSA_WITH_AES_256_CBC_SHA384,
    /// 0xc02b
    TLS_ECDHE_ECDSA_WITH_AES_128_GCM_SHA256,
    /// 0xc02c
    TLS_ECDHE_ECDSA_WITH_AES_256_GCM_SHA384,
    /// 0xc02d
    TLS_ECDH_ECDSA_WITH_AES_128_GCM_SHA256,
    /// 0xc02e
    TLS_ECDH_ECDSA_WITH_AES_256_GCM_SHA384,
    /// 0xc02f
    TLS_ECDHE_RSA_WITH_AES_128_GCM_SHA256,
    /// 0xc030
    TLS_ECDHE_RSA_WITH_AES_256_GCM_SHA384,
    /// 0xc031
    TLS_ECDH_RSA_WITH_AES_128_GCM_SHA256,
    /// 0xc032
    TLS_ECDH_RSA_WITH_AES_256_GCM_SHA384,
    /// 0xc033
    TLS_ECDHE_PSK_WITH_RC4_128_SHA,
    /// 0xc034
    TLS_ECDHE_PSK_WITH_3DES_EDE_CBC_SHA,
    /// 0xc035
    TLS_ECDHE_PSK_WITH_AES_128_CBC_SHA,
    /// 0xc036
    TLS_ECDHE_PSK_WITH_AES_256_CBC_SHA,
    /// 0xc037
    TLS_ECDHE_PSK_WITH_AES_128_CBC_SHA256,
    /// 0xc038
    TLS_ECDHE_PSK_WITH_AES_256_CBC_SHA384,
    /// 0xc039
    TLS_ECDHE_PSK_WITH_NULL_SHA,
    /// 0xc03a
    TLS_ECDHE_PSK_WITH_NULL_SHA256,
    /// 0xc03b
    TLS_ECDHE_PSK_WITH_NULL_SHA384,
    /// 0xc03c
    TLS_RSA_WITH_ARIA_128_CBC_SHA256,
    /// 0xc03d
    TLS_RSA_WITH_ARIA_256_CBC_SHA384,
    /// 0xc03e
    TLS_DH_DSS_WITH_ARIA_128_CBC_SHA256,
    /// 0xc03f
    TLS_DH_DSS_WITH_ARIA_256_CBC_SHA384,
    /// 0xc040
    TLS_DH_RSA_WITH_ARIA_128_CBC_SHA256,
    /// 0xc041
    TLS_DH_RSA_WITH_ARIA_256_CBC_SHA384,
    /// 0xc042
    TLS_DHE_DSS_WITH_ARIA_128_CBC_SHA256,
    /// 0xc043
    TLS_DHE_DSS_WITH_ARIA_256_CBC_SHA384,
    /// 0xc044
    TLS_DHE_RSA_WITH_ARIA_128_CBC_SHA256,
    /// 0xc045
    TLS_DHE_RSA_WITH_ARIA_256_CBC_SHA384,
    /// 0xc046
    TLS_DH_anon_WITH_ARIA_128_CBC_SHA256,
    /// 0xc047
    TLS_DH_anon_WITH_ARIA_256_CBC_SHA384,
    /// 0xc048
    TLS_ECDHE_ECDSA_WITH_ARIA_128_CBC_SHA256,
    /// 0xc049
    TLS_ECDHE_ECDSA_WITH_ARIA_256_CBC_SHA384,
    /// 0xc04a
    TLS_ECDH_ECDSA_WITH_ARIA_128_CBC_SHA256,
    /// 0xc04b
    TLS_ECDH_ECDSA_WITH_ARIA_256_CBC_SHA384,
    /// 0xc04c
    TLS_ECDHE_RSA_WITH_ARIA_128_CBC_SHA256,
    /// 0xc04d
    TLS_ECDHE_RSA_WITH_ARIA_256_CBC_SHA384,
    /// 0xc04e
    TLS_ECDH_RSA_WITH_ARIA_128_CBC_SHA256,
    /// 0xc04f
    TLS_ECDH_RSA_WITH_ARIA_256_CBC_SHA384,
    /// 0xc050
    TLS_RSA_WITH_ARIA_128_GCM_SHA256,
    /// 0xc051
    TLS_RSA_WITH_ARIA_256_GCM_SHA384,
    /// 0xc052
    TLS_DHE_RSA_WITH_ARIA_128_GCM_SHA256,
    /// 0xc053
    TLS_DHE_RSA_WITH_ARIA_256_GCM_SHA384,
    /// 0xc054
    TLS_DH_RSA_WITH_ARIA_128_GCM_SHA256,
    /// 0xc055
    TLS_DH_RSA_WITH_ARIA_256_GCM_SHA384,
    /// 0xc056
    TLS_DHE_DSS_WITH_ARIA_128_GCM_SHA256,
    /// 0xc057
    TLS_DHE_DSS_WITH_ARIA_256_GCM_SHA384,
    /// 0xc058
    TLS_DH_DSS_WITH_ARIA_128_GCM_SHA256,
    /// 0xc059
    TLS_DH_DSS_WITH_ARIA_256_GCM_SHA384,
    /// 0xc05a
    TLS_DH_anon_WITH_ARIA_128_GCM_SHA256,
    /// 0xc05b
    TLS_DH_anon_WITH_ARIA_256_GCM_SHA384,
    /// 0xc05c
    TLS_ECDHE_ECDSA_WITH_ARIA_128_GCM_SHA256,
    /// 0xc05d
    TLS_ECDHE_ECDSA_WITH_ARIA_256_GCM_SHA384,
    /// 0xc05e
    TLS_ECDH_ECDSA_WITH_ARIA_128_GCM_SHA256,
    /// 0xc05f
    TLS_ECDH_ECDSA_WITH_ARIA_256_GCM_SHA384,
    /// 0xc060
    TLS_ECDHE_RSA_WITH_ARIA_128_GCM_SHA256,
    /// 0xc061
    TLS_ECDHE_RSA_WITH_ARIA_256_GCM_SHA384,
    /// 0xc062
    TLS_ECDH_RSA_WITH_ARIA_128_GCM_SHA256,
    /// 0xc063
    TLS_ECDH_RSA_WITH_ARIA_256_GCM_SHA384,
    /// 0xc064
    TLS_PSK_WITH_ARIA_128_CBC_SHA256,
    /// 0xc065
    TLS_PSK_WITH_ARIA_256_CBC_SHA384,
    /// 0xc066
    TLS_DHE_PSK_WITH_ARIA_128_CBC_SHA256,
    /// 0xc067
    TLS_DHE_PSK_WITH_ARIA_256_CBC_SHA384,
    /// 0xc068
    TLS_RSA_PSK_WITH_ARIA_128_CBC_SHA256,
    /// 0xc069
    TLS_RSA_PSK_WITH_ARIA_256_CBC_SHA384,
    /// 0xc06a
    TLS_PSK_WITH_ARIA_128_GCM_SHA256,
    /// 0xc06b
    TLS_PSK_WITH_ARIA_256_GCM_SHA384,
    /// 0xc06c
    TLS_DHE_PSK_WITH_ARIA_128_GCM_SHA256,
    /// 0xc06d
    TLS_DHE_PSK_WITH_ARIA_256_GCM_SHA384,
    /// 0xc06e
    TLS_RSA_PSK_WITH_ARIA_128_GCM_SHA256,
    /// 0xc06f
    TLS_RSA_PSK_WITH_ARIA_256_GCM_SHA384,
    /// 0xc070
    TLS_ECDHE_PSK_WITH_ARIA_128_CBC_SHA256,
    /// 0xc071
    TLS_ECDHE_PSK_WITH_ARIA_256_CBC_SHA384,
    /// 0xc072
    TLS_ECDHE_ECDSA_WITH_CAMELLIA_128_CBC_SHA256,
    /// 0xc073
    TLS_ECDHE_ECDSA_WITH_CAMELLIA_256_CBC_SHA384,
    /// 0xc074
    TLS_ECDH_ECDSA_WITH_CAMELLIA_128_CBC_SHA256,
    /// 0xc075
    TLS_ECDH_ECDSA_WITH_CAMELLIA_256_CBC_SHA384,
    /// 0xc076
    TLS_ECDHE_RSA_WITH_CAMELLIA_128_CBC_SHA256,
    /// 0xc077
    TLS_ECDHE_RSA_WITH_CAMELLIA_256_CBC_SHA384,
    /// 0xc078
    TLS_ECDH_RSA_WITH_CAMELLIA_128_CBC_SHA256,
    /// 0xc079
    TLS_ECDH_RSA_WITH_CAMELLIA_256_CBC_SHA384,
    /// 0xc07a
    TLS_RSA_WITH_CAMELLIA_128_GCM_SHA256,
    /// 0xc07b
    TLS_RSA_WITH_CAMELLIA_256_GCM_SHA384,
    /// 0xc07c
    TLS_DHE_RSA_WITH_CAMELLIA_128_GCM_SHA256,
    /// 0xc07d
    TLS_DHE_RSA_WITH_CAMELLIA_256_GCM_SHA384,
    /// 0xc07e
    TLS_DH_RSA_WITH_CAMELLIA_128_GCM_SHA256,
    /// 0xc07f
    TLS_DH_RSA_WITH_CAMELLIA_256_GCM_SHA384,
    /// 0xc080
    TLS_DHE_DSS_WITH_CAMELLIA_128_GCM_SHA256,
    /// 0xc081
    TLS_DHE_DSS_WITH_CAMELLIA_256_GCM_SHA384,
    /// 0xc082
    TLS_DH_DSS_WITH_CAMELLIA_128_GCM_SHA256,
    /// 0xc083
    TLS_DH_DSS_WITH_CAMELLIA_256_GCM_SHA384,
    /// 0xc084
    TLS_DH_anon_WITH_CAMELLIA_128_GCM_SHA256,
    /// 0xc085
    TLS_DH_anon_WITH_CAMELLIA_256_GCM_SHA384,
    /// 0xc086
    TLS_ECDHE_ECDSA_WITH_CAMELLIA_128_GCM_SHA256,
    /// 0xc087
    TLS_ECDHE_ECDSA_WITH_CAMELLIA_256_GCM_SHA384,
    /// 0xc088
    TLS_ECDH_ECDSA_WITH_CAMELLIA_128_GCM_SHA256,
    /// 0xc089
    TLS_ECDH_ECDSA_WITH_CAMELLIA_256_GCM_SHA384,
    /// 0xc08a
    TLS_ECDHE_RSA_WITH_CAMELLIA_128_GCM_SHA256,
    /// 0xc08b
    TLS_ECDHE_RSA_WITH_CAMELLIA_256_GCM_SHA384,
    /// 0xc08c
    TLS_ECDH_RSA_WITH_CAMELLIA_128_GCM_SHA256,
    /// 0xc08d
    TLS_ECDH_RSA_WITH_CAMELLIA_256_GCM_SHA384,
    /// 0xc08e
    TLS_PSK_WITH_CAMELLIA_128_GCM_SHA256,
    /// 0xc08f
    TLS_PSK_WITH_CAMELLIA_256_GCM_SHA384,
    /// 0xc090
    TLS_DHE_PSK_WITH_CAMELLIA_128_GCM_SHA256,
    /// 0xc091
    TLS_DHE_PSK_WITH_CAMELLIA_256_GCM_SHA384,
    /// 0xc092
    TLS_RSA_PSK_WITH_CAMELLIA_128_GCM_SHA256,
    /// 0xc093
    TLS_RSA_PSK_WITH_CAMELLIA_256_GCM_SHA384,
    /// 0xc094
    TLS_PSK_WITH_CAMELLIA_128_CBC_SHA256,
    /// 0xc095
    TLS_PSK_WITH_CAMELLIA_256_CBC_SHA384,
    /// 0xc096
    TLS_DHE_PSK_WITH_CAMELLIA_128_CBC_SHA256,
    /// 0xc097
    TLS_DHE_PSK_WITH_CAMELLIA_256_CBC_SHA384,
    /// 0xc098
    TLS_RSA_PSK_WITH_CAMELLIA_128_CBC_SHA256,
    /// 0xc099
    TLS_RSA_PSK_WITH_CAMELLIA_256_CBC_SHA384,
    /// 0xc09a
    TLS_ECDHE_PSK_WITH_CAMELLIA_128_CBC_SHA256,
    /// 0xc09b
    TLS_ECDHE_PSK_WITH_CAMELLIA_256_CBC_SHA384,
    /// 0xc09c
    TLS_RSA_WITH_AES_128_CCM,
    /// 0xc09d
    TLS_RSA_WITH_AES_256_CCM,
    /// 0xc09e
    TLS_DHE_RSA_WITH_AES_128_CCM,
    /// 0xc09f
    TLS_DHE_RSA_WITH_AES_256_CCM,
    /// 0xc0a0
    TLS_RSA_WITH_AES_128_CCM_8,
    /// 0xc0a1
    TLS_RSA_WITH_AES_256_CCM_8,
    /// 0xc0a2
    TLS_DHE_RSA_WITH_AES_128_CCM_8,
    /// 0xc0a3
    TLS_DHE_RSA_WITH_AES_256_CCM_8,
    /// 0xc0a4
    TLS_PSK_WITH_AES_128_CCM,
    /// 0xc0a5
    TLS_PSK_WITH_AES_256_CCM,
    /// 0xc0a6
    TLS_DHE_PSK_WITH_AES_128_CCM,
    /// 0xc0a7
    TLS_DHE_PSK_WITH_AES_256_CCM,
    /// 0xc0a8
    TLS_PSK_WITH_AES_128_CCM_8,
    /// 0xc0a9
    TLS_PSK_WITH_AES_256_CCM_8,
    /// 0xc0aa
    TLS_PSK_DHE_WITH_AES_128_CCM_8,
    /// 0xc0ab
    TLS_PSK_DHE_WITH_AES_256_CCM_8,
    /// 0xcca8
    TLS_ECDHE_RSA_WITH_CHACHA20_POLY1305_SHA256,
    /// 0xcca9
    TLS_ECDHE_ECDSA_WITH_CHACHA20_POLY1305_SHA256,
    /// 0xccaa
    TLS_DHE_RSA_WITH_CHACHA20_POLY1305_SHA256,
    /// 0xccab
    TLS_PSK_WITH_CHACHA20_POLY1305_SHA256,
    /// 0xccac
    TLS_ECDHE_PSK_WITH_CHACHA20_POLY1305_SHA256,
    /// 0xccad
    TLS_DHE_PSK_WITH_CHACHA20_POLY1305_SHA256,
    /// 0xccae
    TLS_RSA_PSK_WITH_CHACHA20_POLY1305_SHA256,
    /// 0xfefe
    SSL_RSA_FIPS_WITH_DES_CBC_SHA,
    /// 0xfeff
    SSL_RSA_FIPS_WITH_3DES_EDE_CBC_SHA,
}

impl rustls_cipersuite {
    /// The number of the suite: the two bytes of its registry entry, read in
    /// network order.
    pub open spec fn spec_get_u16(self) -> u16 {
        match self {
            rustls_cipersuite::TLS_NULL_WITH_NULL_NULL => 0x0000,
            rustls_cipersuite::TLS_RSA_WITH_NULL_MD5 => 0x0001,
            rustls_cipersuite::TLS_RSA_WITH_NULL_SHA => 0x0002,
            rustls_cipersuite::TLS_RSA_EXPORT_WITH_RC4_40_MD5 => 0x0003,
            rustls_cipersuite::TLS_RSA_WITH_RC4_128_MD5 => 0x0004,
            rustls_cipersuite::TLS_RSA_WITH_RC4_128_SHA => 0x0005,
            rustls_cipersuite::TLS_RSA_EXPORT_WITH_RC2_CBC_40_MD5 => 0x0006,
            rustls_cipersuite::TLS_RSA_WITH_IDEA_CBC_SHA => 0x0007,
            rustls_cipersuite::TLS_RSA_EXPORT_WITH_DES40_CBC_SHA => 0x0008,
            rustls_cipersuite::TLS_RSA_WITH_DES_CBC_SHA => 0x0009,
            rustls_cipersuite::TLS_RSA_WITH_3DES_EDE_CBC_SHA => 0x000a,
            rustls_cipersuite::TLS_DH_DSS_EXPORT_WITH_DES40_CBC_SHA => 0x000b,
            rustls_cipersuite::TLS_DH_DSS_WITH_DES_CBC_SHA => 0x000c,
            rustls_cipersuite::TLS_DH_DSS_WITH_3DES_EDE_CBC_SHA => 0x000d,
            rustls_cipersuite::TLS_DH_RSA_EXPORT_WITH_DES40_CBC_SHA => 0x000e,
            rustls_cipersuite::TLS_DH_RSA_WITH_DES_CBC_SHA => 0x000f,
            rustls_cipersuite::TLS_DH_RSA_WITH_3DES_EDE_CBC_SHA => 0x0010,
            rustls_cipersuite::TLS_DHE_DSS_EXPORT_WITH_DES40_CBC_SHA => 0x0011,
            rustls_cipersuite::TLS_DHE_DSS_WITH_DES_CBC_SHA => 0x0012,
            rustls_cipersuite::TLS_DHE_DSS_WITH_3DES_EDE_CBC_SHA => 0x0013,
            rustls_cipersuite::TLS_DHE_RSA_EXPORT_WITH_DES40_CBC_SHA => 0x0014,
            rustls_cipersuite::TLS_DHE_RSA_WITH_DES_CBC_SHA => 0x0015,
            rustls_cipersuite::TLS_DHE_RSA_WITH_3DES_EDE_CBC_SHA => 0x0016,
            rustls_cipersuite::TLS_DH_anon_EXPORT_WITH_RC4_40_MD5 => 0x0017,
            rustls_cipersuite::TLS_DH_anon_WITH_RC4_128_MD5 => 0x0018,
            rustls_cipersuite::TLS_DH_anon_EXPORT_WITH_DES40_CBC_SHA => 0x0019,
            rustls_cipersuite::TLS_DH_anon_WITH_DES_CBC_SHA => 0x001a,
            rustls_cipersuite::TLS_DH_anon_WITH_3DES_EDE_CBC_SHA => 0x001b,
            rustls_cipersuite::SSL_FORTEZZA_KEA_WITH_NULL_SHA => 0x001c,
            rustls_cipersuite::SSL_FORTEZZA_KEA_WITH_FORTEZZA_CBC_SHA => 0x001d,
            rustls_cipersuite::TLS_KRB5_WITH_DES_CBC_SHA_or_SSL_FORTEZZA_KEA_WITH_RC4_128_SHA => 0x001e,
            rustls_cipersuite::TLS_KRB5_WITH_3DES_EDE_CBC_SHA => 0x001f,
            rustls_cipersuite::TLS_KRB5_WITH_RC4_128_SHA => 0x0020,
            rustls_cipersuite::TLS_KRB5_WITH_IDEA_CBC_SHA => 0x0021,
            rustls_cipersuite::TLS_KRB5_WITH_DES_CBC_MD5 => 0x0022,
            rustls_cipersuite::TLS_KRB5_WITH_3DES_EDE_CBC_MD5 => 0x0023,
            rustls_cipersuite::TLS_KRB5_WITH_RC4_128_MD5 => 0x0024,
            rustls_cipersuite::TLS_KRB5_WITH_IDEA_CBC_MD5 => 0x0025,
            rustls_cipersuite::TLS_KRB5_EXPORT_WITH_DES_CBC_40_SHA => 0x0026,
            rustls_cipersuite::TLS_KRB5_EXPORT_WITH_RC2_CBC_40_SHA => 0x0027,
            rustls_cipersuite::TLS_KRB5_EXPORT_WITH_RC4_40_SHA => 0x0028,
            rustls_cipersuite::TLS_KRB5_EXPORT_WITH_DES_CBC_40_MD5 => 0x0029,
            rustls_cipersuite::TLS_KRB5_EXPORT_WITH_RC2_CBC_40_MD5 => 0x002a,
            rustls_cipersuite::TLS_KRB5_EXPORT_WITH_RC4_40_MD5 => 0x002b,
            rustls_cipersuite::TLS_PSK_WITH_NULL_SHA => 0x002c,
            rustls_cipersuite::TLS_DHE_PSK_WITH_NULL_SHA => 0x002d,
            rustls_cipersuite::TLS_RSA_PSK_WITH_NULL_SHA => 0x002e,
            rustls_cipersuite::TLS_RSA_WITH_AES_128_CBC_SHA => 0x002f,
            rustls_cipersuite::TLS_DH_DSS_WITH_AES_128_CBC_SHA => 0x0030,
            rustls_cipersuite::TLS_DH_RSA_WITH_AES_128_CBC_SHA => 0x0031,
            rustls_cipersuite::TLS_DHE_DSS_WITH_AES_128_CBC_SHA => 0x0032,
            rustls_cipersuite::TLS_DHE_RSA_WITH_AES_128_CBC_SHA => 0x0033,
            rustls_cipersuite::TLS_DH_anon_WITH_AES_128_CBC_SHA => 0x0034,
            rustls_cipersuite::TLS_RSA_WITH_AES_256_CBC_SHA => 0x0035,
            rustls_cipersuite::TLS_DH_DSS_WITH_AES_256_CBC_SHA => 0x0036,
            rustls_cipersuite::TLS_DH_RSA_WITH_AES_256_CBC_SHA => 0x0037,
            rustls_cipersuite::TLS_DHE_DSS_WITH_AES_256_CBC_SHA => 0x0038,
            rustls_cipersuite::TLS_DHE_RSA_WITH_AES_256_CBC_SHA => 0x0039,
            rustls_cipersuite::TLS_DH_anon_WITH_AES_256_CBC_SHA => 0x003a,
            rustls_cipersuite::TLS_RSA_WITH_NULL_SHA256 => 0x003b,
            rustls_cipersuite::TLS_RSA_WITH_AES_128_CBC_SHA256 => 0x003c,
            rustls_cipersuite::TLS_RSA_WITH_AES_256_CBC_SHA256 => 0x003d,
            rustls_cipersuite::TLS_DH_DSS_WITH_AES_128_CBC_SHA256 => 0x003e,
            rustls_cipersuite::TLS_DH_RSA_WITH_AES_128_CBC_SHA256 => 0x003f,
            rustls_cipersuite::TLS_DHE_DSS_WITH_AES_128_CBC_SHA256 => 0x0040,
            rustls_cipersuite::TLS_RSA_WITH_CAMELLIA_128_CBC_SHA => 0x0041,
            rustls_cipersuite::TLS_DH_DSS_WITH_CAMELLIA_128_CBC_SHA => 0x0042,
            rustls_cipersuite::TLS_DH_RSA_WITH_CAMELLIA_128_CBC_SHA => 0x0043,
            rustls_cipersuite::TLS_DHE_DSS_WITH_CAMELLIA_128_CBC_SHA => 0x0044,
            rustls_cipersuite::TLS_DHE_RSA_WITH_CAMELLIA_128_CBC_SHA => 0x0045,
            rustls_cipersuite::TLS_DH_anon_WITH_CAMELLIA_128_CBC_SHA => 0x0046,
            rustls_cipersuite::TLS_ECDH_ECDSA_WITH_NULL_SHA_draft => 0x0047,
            rustls_cipersuite::TLS_ECDH_ECDSA_WITH_RC4_128_SHA_draft => 0x0048,
            rustls_cipersuite::TLS_ECDH_ECDSA_WITH_DES_CBC_SHA_draft => 0x0049,
            rustls_cipersuite::TLS_ECDH_ECDSA_WITH_3DES_EDE_CBC_SHA_draft => 0x004a,
            rustls_cipersuite::TLS_ECDH_ECDSA_WITH_AES_128_CBC_SHA_draft => 0x004b,
            rustls_cipersuite::TLS_ECDH_ECDSA_WITH_AES_256_CBC_SHA_draft => 0x004c,
            rustls_cipersuite::TLS_ECDH_ECNRA_WITH_DES_CBC_SHA_draft => 0x004d,
            rustls_cipersuite::TLS_ECDH_ECNRA_WITH_3DES_EDE_CBC_SHA_draft => 0x004e,
            rustls_cipersuite::TLS_ECMQV_ECDSA_NULL_SHA_draft => 0x004f,
            rustls_cipersuite::TLS_ECMQV_ECDSA_WITH_RC4_128_SHA_draft => 0x0050,
            rustls_cipersuite::TLS_ECMQV_ECDSA_WITH_DES_CBC_SHA_draft => 0x0051,
            rustls_cipersuite::TLS_ECMQV_ECDSA_WITH_3DES_EDE_CBC_SHA_draft => 0x0052,
            rustls_cipersuite::TLS_ECMQV_ECNRA_NULL_SHA_draft => 0x0053,
            rustls_cipersuite::TLS_ECMQV_ECNRA_WITH_RC4_128_SHA_draft => 0x0054,
            rustls_cipersuite::TLS_ECMQV_ECNRA_WITH_DES_CBC_SHA_draft => 0x0055,
            rustls_cipersuite::TLS_ECMQV_ECNRA_WITH_3DES_EDE_CBC_SHA_draft => 0x0056,
            rustls_cipersuite::TLS_ECDH_anon_NULL_WITH_SHA_draft => 0x0057,
            rustls_cipersuite::TLS_ECDH_anon_WITH_RC4_128_SHA_draft => 0x0058,
            rustls_cipersuite::TLS_ECDH_anon_WITH_DES_CBC_SHA_draft => 0x0059,
            rustls_cipersuite::TLS_ECDH_anon_WITH_3DES_EDE_CBC_SHA_draft => 0x005a,
            rustls_cipersuite::TLS_ECDH_anon_EXPORT_WITH_DES40_CBC_SHA_draft => 0x005b,
            rustls_cipersuite::TLS_ECDH_anon_EXPORT_WITH_RC4_40_SHA_draft => 0x005c,
            rustls_cipersuite::TLS_RSA_EXPORT1024_WITH_RC4_56_MD5 => 0x0060,
            rustls_cipersuite::TLS_RSA_EXPORT1024_WITH_RC2_CBC_56_MD5 => 0x0061,
            rustls_cipersuite::TLS_RSA_EXPORT1024_WITH_DES_CBC_SHA => 0x0062,
            rustls_cipersuite::TLS_DHE_DSS_EXPORT1024_WITH_DES_CBC_SHA => 0x0063,
            rustls_cipersuite::TLS_RSA_EXPORT1024_WITH_RC4_56_SHA => 0x0064,
            rustls_cipersuite::TLS_DHE_DSS_EXPORT1024_WITH_RC4_56_SHA => 0x0065,
            rustls_cipersuite::TLS_DHE_DSS_WITH_RC4_128_SHA => 0x0066,
            rustls_cipersuite::TLS_DHE_RSA_WITH_AES_128_CBC_SHA256 => 0x0067,
            rustls_cipersuite::TLS_DH_DSS_WITH_AES_256_CBC_SHA256 => 0x0068,
            rustls_cipersuite::TLS_DH_RSA_WITH_AES_256_CBC_SHA256 => 0x0069,
            rustls_cipersuite::TLS_DHE_DSS_WITH_AES_256_CBC_SHA256 => 0x006a,
            rustls_cipersuite::TLS_DHE_RSA_WITH_AES_256_CBC_SHA256 => 0x006b,
            rustls_cipersuite::TLS_DH_anon_WITH_AES_128_CBC_SHA256 => 0x006c,
            rustls_cipersuite::TLS_DH_anon_WITH_AES_256_CBC_SHA256 => 0x006d,
            rustls_cipersuite::TLS_DHE_DSS_WITH_3DES_EDE_CBC_RMD => 0x0072,
            rustls_cipersuite::TLS_DHE_DSS_WITH_AES_128_CBC_RMD => 0x0073,
            rustls_cipersuite::TLS_DHE_DSS_WITH_AES_256_CBC_RMD => 0x0074,
            rustls_cipersuite::TLS_DHE_RSA_WITH_3DES_EDE_CBC_RMD => 0x0077,
            rustls_cipersuite::TLS_DHE_RSA_WITH_AES_128_CBC_RMD => 0x0078,
            rustls_cipersuite::TLS_DHE_RSA_WITH_AES_256_CBC_RMD => 0x0079,
            rustls_cipersuite::TLS_RSA_WITH_3DES_EDE_CBC_RMD => 0x007c,
            rustls_cipersuite::TLS_RSA_WITH_AES_128_CBC_RMD => 0x007d,
            rustls_cipersuite::TLS_RSA_WITH_AES_256_CBC_RMD => 0x007e,
            rustls_cipersuite::TLS_GOSTR341094_WITH_28147_CNT_IMIT => 0x0080,
            rustls_cipersuite::TLS_GOSTR341001_WITH_28147_CNT_IMIT => 0x0081,
            rustls_cipersuite::TLS_GOSTR341094_WITH_NULL_GOSTR3411 => 0x0082,
            rustls_cipersuite::TLS_GOSTR341001_WITH_NULL_GOSTR3411 => 0x0083,
            rustls_cipersuite::TLS_RSA_WITH_CAMELLIA_256_CBC_SHA => 0x0084,
            rustls_cipersuite::TLS_DH_DSS_WITH_CAMELLIA_256_CBC_SHA => 0x0085,
            rustls_cipersuite::TLS_DH_RSA_WITH_CAMELLIA_256_CBC_SHA => 0x0086,
            rustls_cipersuite::TLS_DHE_DSS_WITH_CAMELLIA_256_CBC_SHA => 0x0087,
            rustls_cipersuite::TLS_DHE_RSA_WITH_CAMELLIA_256_CBC_SHA => 0x0088,
            rustls_cipersuite::TLS_DH_anon_WITH_CAMELLIA_256_CBC_SHA => 0x0089,
            rustls_cipersuite::TLS_PSK_WITH_RC4_128_SHA => 0x008a,
            rustls_cipersuite::TLS_PSK_WITH_3DES_EDE_CBC_SHA => 0x008b,
            rustls_cipersuite::TLS_PSK_WITH_AES_128_CBC_SHA => 0x008c,
            rustls_cipersuite::TLS_PSK_WITH_AES_256_CBC_SHA => 0x008d,
            rustls_cipersuite::TLS_DHE_PSK_WITH_RC4_128_SHA => 0x008e,
            rustls_cipersuite::TLS_DHE_PSK_WITH_3DES_EDE_CBC_SHA => 0x008f,
            rustls_cipersuite::TLS_DHE_PSK_WITH_AES_128_CBC_SHA => 0x0090,
            rustls_cipersuite::TLS_DHE_PSK_WITH_AES_256_CBC_SHA => 0x0091,
            rustls_cipersuite::TLS_RSA_PSK_WITH_RC4_128_SHA => 0x0092,
            rustls_cipersuite::TLS_RSA_PSK_WITH_3DES_EDE_CBC_SHA => 0x0093,
            rustls_cipersuite::TLS_RSA_PSK_WITH_AES_128_CBC_SHA => 0x0094,
            rustls_cipersuite::TLS_RSA_PSK_WITH_AES_256_CBC_SHA => 0x0095,
            rustls_cipersuite::TLS_RSA_WITH_SEED_CBC_SHA => 0x0096,
            rustls_cipersuite::TLS_DH_DSS_WITH_SEED_CBC_SHA => 0x0097,
            rustls_cipersuite::TLS_DH_RSA_WITH_SEED_CBC_SHA => 0x0098,
            rustls_cipersuite::TLS_DHE_DSS_WITH_SEED_CBC_SHA => 0x0099,
            rustls_cipersuite::TLS_DHE_RSA_WITH_SEED_CBC_SHA => 0x009a,
            rustls_cipersuite::TLS_DH_anon_WITH_SEED_CBC_SHA => 0x009b,
            rustls_cipersuite::TLS_RSA_WITH_AES_128_GCM_SHA256 => 0x009c,
            rustls_cipersuite::TLS_RSA_WITH_AES_256_GCM_SHA384 => 0x009d,
            rustls_cipersuite::TLS_DHE_RSA_WITH_AES_128_GCM_SHA256 => 0x009e,
            rustls_cipersuite::TLS_DHE_RSA_WITH_AES_256_GCM_SHA384 => 0x009f,
            rustls_cipersuite::TLS_DH_RSA_WITH_AES_128_GCM_SHA256 => 0x00a0,
            rustls_cipersuite::TLS_DH_RSA_WITH_AES_256_GCM_SHA384 => 0x00a1,
            rustls_cipersuite::TLS_DHE_DSS_WITH_AES_128_GCM_SHA256 => 0x00a2,
            rustls_cipersuite::TLS_DHE_DSS_WITH_AES_256_GCM_SHA384 => 0x00a3,
            rustls_cipersuite::TLS_DH_DSS_WITH_AES_128_GCM_SHA256 => 0x00a4,
            rustls_cipersuite::TLS_DH_DSS_WITH_AES_256_GCM_SHA384 => 0x00a5,
            rustls_cipersuite::TLS_DH_anon_WITH_AES_128_GCM_SHA256 => 0x00a6,
            rustls_cipersuite::TLS_DH_anon_WITH_AES_256_GCM_SHA384 => 0x00a7,
            rustls_cipersuite::TLS_PSK_WITH_AES_128_GCM_SHA256 => 0x00a8,
            rustls_cipersuite::TLS_PSK_WITH_AES_256_GCM_SHA384 => 0x00a9,
            rustls_cipersuite::TLS_DHE_PSK_WITH_AES_128_GCM_SHA256 => 0x00aa,
            rustls_cipersuite::TLS_DHE_PSK_WITH_AES_256_GCM_SHA384 => 0x00ab,
            rustls_cipersuite::TLS_RSA_PSK_WITH_AES_128_GCM_SHA256 => 0x00ac,
            rustls_cipersuite::TLS_RSA_PSK_WITH_AES_256_GCM_SHA384 => 0x00ad,
            rustls_cipersuite::TLS_PSK_WITH_AES_128_CBC_SHA256 => 0x00ae,
            rustls_cipersuite::TLS_PSK_WITH_AES_256_CBC_SHA384 => 0x00af,
            rustls_cipersuite::TLS_PSK_WITH_NULL_SHA256 => 0x00b0,
            rustls_cipersuite::TLS_PSK_WITH_NULL_SHA384 => 0x00b1,
            rustls_cipersuite::TLS_DHE_PSK_WITH_AES_128_CBC_SHA256 => 0x00b2,
            rustls_cipersuite::TLS_DHE_PSK_WITH_AES_256_CBC_SHA384 => 0x00b3,
            rustls_cipersuite::TLS_DHE_PSK_WITH_NULL_SHA256 => 0x00b4,
            rustls_cipersuite::TLS_DHE_PSK_WITH_NULL_SHA384 => 0x00b5,
            rustls_cipersuite::TLS_RSA_PSK_WITH_AES_128_CBC_SHA256 => 0x00b6,
            rustls_cipersuite::TLS_RSA_PSK_WITH_AES_256_CBC_SHA384 => 0x00b7,
            rustls_cipersuite::TLS_RSA_PSK_WITH_NULL_SHA256 => 0x00b8,
            rustls_cipersuite::TLS_RSA_PSK_WITH_NULL_SHA384 => 0x00b9,
            rustls_cipersuite::TLS_RSA_WITH_CAMELLIA_128_CBC_SHA256 => 0x00ba,
            rustls_cipersuite::TLS_DH_DSS_WITH_CAMELLIA_128_CBC_SHA256 => 0x00bb,
            rustls_cipersuite::TLS_DH_RSA_WITH_CAMELLIA_128_CBC_SHA256 => 0x00bc,
            rustls_cipersuite::TLS_DHE_DSS_WITH_CAMELLIA_128_CBC_SHA256 => 0x00bd,
            rustls_cipersuite::TLS_DHE_RSA_WITH_CAMELLIA_128_CBC_SHA256 => 0x00be,
            rustls_cipersuite::TLS_DH_anon_WITH_CAMELLIA_128_CBC_SHA256 => 0x00bf,
            rustls_cipersuite::TLS_RSA_WITH_CAMELLIA_256_CBC_SHA256 => 0x00c0,
            rustls_cipersuite::TLS_DH_DSS_WITH_CAMELLIA_256_CBC_SHA256 => 0x00c1,
            rustls_cipersuite::TLS_DH_RSA_WITH_CAMELLIA_256_CBC_SHA256 => 0x00c2,
            rustls_cipersuite::TLS_DHE_DSS_WITH_CAMELLIA_256_CBC_SHA256 => 0x00c3,
            rustls_cipersuite::TLS_DHE_RSA_WITH_CAMELLIA_256_CBC_SHA256 => 0x00c4,
            rustls_cipersuite::TLS_DH_anon_WITH_CAMELLIA_256_CBC_SHA256 => 0x00c5,
            rustls_cipersuite::TLS_EMPTY_RENEGOTIATION_INFO_SCSV => 0x00ff,
            rustls_cipersuite::TLS13_AES_128_GCM_SHA256 => 0x1301,
            rustls_cipersuite::TLS13_AES_256_GCM_SHA384 => 0x1302,
            rustls_cipersuite::TLS13_CHACHA20_POLY1305_SHA256 => 0x1303,
            rustls_cipersuite::TLS13_AES_128_CCM_SHA256 => 0x1304,
            rustls_cipersuite::TLS13_AES_128_CCM_8_SHA256 => 0x1305,
            rustls_cipersuite::TLS_ECDH_ECDSA_WITH_NULL_SHA => 0xc001,
            rustls_cipersuite::TLS_ECDH_ECDSA_WITH_RC4_128_SHA => 0xc002,
            rustls_cipersuite::TLS_ECDH_ECDSA_WITH_3DES_EDE_CBC_SHA => 0xc003,
            rustls_cipersuite::TLS_ECDH_ECDSA_WITH_AES_128_CBC_SHA => 0xc004,
            rustls_cipersuite::TLS_ECDH_ECDSA_WITH_AES_256_CBC_SHA => 0xc005,
            rustls_cipersuite::TLS_ECDHE_ECDSA_WITH_NULL_SHA => 0xc006,
            rustls_cipersuite::TLS_ECDHE_ECDSA_WITH_RC4_128_SHA => 0xc007,
            rustls_cipersuite::TLS_ECDHE_ECDSA_WITH_3DES_EDE_CBC_SHA => 0xc008,
            rustls_cipersuite::TLS_ECDHE_ECDSA_WITH_AES_128_CBC_SHA => 0xc009,
            rustls_cipersuite::TLS_ECDHE_ECDSA_WITH_AES_256_CBC_SHA => 0xc00a,
            rustls_cipersuite::TLS_ECDH_RSA_WITH_NULL_SHA => 0xc00b,
            rustls_cipersuite::TLS_ECDH_RSA_WITH_RC4_128_SHA => 0xc00c,
            rustls_cipersuite::TLS_ECDH_RSA_WITH_3DES_EDE_CBC_SHA => 0xc00d,
            rustls_cipersuite::TLS_ECDH_RSA_WITH_AES_128_CBC_SHA => 0xc00e,
            rustls_cipersuite::TLS_ECDH_RSA_WITH_AES_256_CBC_SHA => 0xc00f,
            rustls_cipersuite::TLS_ECDHE_RSA_WITH_NULL_SHA => 0xc010,
            rustls_cipersuite::TLS_ECDHE_RSA_WITH_RC4_128_SHA => 0xc011,
            rustls_cipersuite::TLS_ECDHE_RSA_WITH_3DES_EDE_CBC_SHA => 0xc012,
            rustls_cipersuite::TLS_ECDHE_RSA_WITH_AES_128_CBC_SHA => 0xc013,
            rustls_cipersuite::TLS_ECDHE_RSA_WITH_AES_256_CBC_SHA => 0xc014,
            rustls_cipersuite::TLS_ECDH_anon_WITH_NULL_SHA => 0xc015,
            rustls_cipersuite::TLS_ECDH_anon_WITH_RC4_128_SHA => 0xc016,
            rustls_cipersuite::TLS_ECDH_anon_WITH_3DES_EDE_CBC_SHA => 0xc017,
            rustls_cipersuite::TLS_ECDH_anon_WITH_AES_128_CBC_SHA => 0xc018,
            rustls_cipersuite::TLS_ECDH_anon_WITH_AES_256_CBC_SHA => 0xc019,
            rustls_cipersuite::TLS_SRP_SHA_WITH_3DES_EDE_CBC_SHA => 0xc01a,
            rustls_cipersuite::TLS_SRP_SHA_RSA_WITH_3DES_EDE_CBC_SHA => 0xc01b,
            rustls_cipersuite::TLS_SRP_SHA_DSS_WITH_3DES_EDE_CBC_SHA => 0xc01c,
            rustls_cipersuite::TLS_SRP_SHA_WITH_AES_128_CBC_SHA => 0xc01d,
            rustls_cipersuite::TLS_SRP_SHA_RSA_WITH_AES_128_CBC_SHA => 0xc01e,
            rustls_cipersuite::TLS_SRP_SHA_DSS_WITH_AES_128_CBC_SHA => 0xc01f,
            rustls_cipersuite::TLS_SRP_SHA_WITH_AES_256_CBC_SHA => 0xc020,
            rustls_cipersuite::TLS_SRP_SHA_RSA_WITH_AES_256_CBC_SHA => 0xc021,
            rustls_cipersuite::TLS_SRP_SHA_DSS_WITH_AES_256_CBC_SHA => 0xc022,
            rustls_cipersuite::TLS_ECDHE_ECDSA_WITH_AES_128_CBC_SHA256 => 0xc023,
            rustls_cipersuite::TLS_ECDHE_ECDSA_WITH_AES_256_CBC_SHA384 => 0xc024,
            rustls_cipersuite::TLS_ECDH_ECDSA_WITH_AES_128_CBC_SHA256 => 0xc025,
            rustls_cipersuite::TLS_ECDH_ECDSA_WITH_AES_256_CBC_SHA384 => 0xc026,
            rustls_cipersuite::TLS_ECDHE_RSA_WITH_AES_128_CBC_SHA256 => 0xc027,
            rustls_cipersuite::TLS_ECDHE_RSA_WITH_AES_256_CBC_SHA384 => 0xc028,
            rustls_cipersuite::TLS_ECDH_RSA_WITH_AES_128_CBC_SHA256 => 0xc029,
            rustls_cipersuite::TLS_ECDH_RSA_WITH_AES_256_CBC_SHA384 => 0xc02a,
            rustls_cipersuite::TLS_ECDHE_ECDSA_WITH_AES_128_GCM_SHA256 => 0xc02b,
            rustls_cipersuite::TLS_ECDHE_ECDSA_WITH_AES_256_GCM_SHA384 => 0xc02c,
            rustls_cipersuite::TLS_ECDH_ECDSA_WITH_AES_128_GCM_SHA256 => 0xc02d,
            rustls_cipersuite::TLS_ECDH_ECDSA_WITH_AES_256_GCM_SHA384 => 0xc02e,
            rustls_cipersuite::TLS_ECDHE_RSA_WITH_AES_128_GCM_SHA256 => 0xc02f,
            rustls_cipersuite::TLS_ECDHE_RSA_WITH_AES_256_GCM_SHA384 => 0xc030,
            rustls_cipersuite::TLS_ECDH_RSA_WITH_AES_128_GCM_SHA256 => 0xc031,
            rustls_cipersuite::TLS_ECDH_RSA_WITH_AES_256_GCM_SHA384 => 0xc032,
            rustls_cipersuite::TLS_ECDHE_PSK_WITH_RC4_128_SHA => 0xc033,
            rustls_cipersuite::TLS_ECDHE_PSK_WITH_3DES_EDE_CBC_SHA => 0xc034,
            rustls_cipersuite::TLS_ECDHE_PSK_WITH_AES_128_CBC_SHA => 0xc035,
            rustls_cipersuite::TLS_ECDHE_PSK_WITH_AES_256_CBC_SHA => 0xc036,
            rustls_cipersuite::TLS_ECDHE_PSK_WITH_AES_128_CBC_SHA256 => 0xc037,
            rustls_cipersuite::TLS_ECDHE_PSK_WITH_AES_256_CBC_SHA384 => 0xc038,
            rustls_cipersuite::TLS_ECDHE_PSK_WITH_NULL_SHA => 0xc039,
            rustls_cipersuite::TLS_ECDHE_PSK_WITH_NULL_SHA256 => 0xc03a,
            rustls_cipersuite::TLS_ECDHE_PSK_WITH_NULL_SHA384 => 0xc03b,
            rustls_cipersuite::TLS_RSA_WITH_ARIA_128_CBC_SHA256 => 0xc03c,
            rustls_cipersuite::TLS_RSA_WITH_ARIA_256_CBC_SHA384 => 0xc03d,
            rustls_cipersuite::TLS_DH_DSS_WITH_ARIA_128_CBC_SHA256 => 0xc03e,
            rustls_cipersuite::TLS_DH_DSS_WITH_ARIA_256_CBC_SHA384 => 0xc03f,
            rustls_cipersuite::TLS_DH_RSA_WITH_ARIA_128_CBC_SHA256 => 0xc040,
            rustls_cipersuite::TLS_DH_RSA_WITH_ARIA_256_CBC_SHA384 => 0xc041,
            rustls_cipersuite::TLS_DHE_DSS_WITH_ARIA_128_CBC_SHA256 => 0xc042,
            rustls_cipersuite::TLS_DHE_DSS_WITH_ARIA_256_CBC_SHA384 => 0xc043,
            rustls_cipersuite::TLS_DHE_RSA_WITH_ARIA_128_CBC_SHA256 => 0xc044,
            rustls_cipersuite::TLS_DHE_RSA_WITH_ARIA_256_CBC_SHA384 => 0xc045,
            rustls_cipersuite::TLS_DH_anon_WITH_ARIA_128_CBC_SHA256 => 0xc046,
            rustls_cipersuite::TLS_DH_anon_WITH_ARIA_256_CBC_SHA384 => 0xc047,
            rustls_cipersuite::TLS_ECDHE_ECDSA_WITH_ARIA_128_CBC_SHA256 => 0xc048,
            rustls_cipersuite::TLS_ECDHE_ECDSA_WITH_ARIA_256_CBC_SHA384 => 0xc049,
            rustls_cipersuite::TLS_ECDH_ECDSA_WITH_ARIA_128_CBC_SHA256 => 0xc04a,
            rustls_cipersuite::TLS_ECDH_ECDSA_WITH_ARIA_256_CBC_SHA384 => 0xc04b,
            rustls_cipersuite::TLS_ECDHE_RSA_WITH_ARIA_128_CBC_SHA256 => 0xc04c,
            rustls_cipersuite::TLS_ECDHE_RSA_WITH_ARIA_256_CBC_SHA384 => 0xc04d,
            rustls_cipersuite::TLS_ECDH_RSA_WITH_ARIA_128_CBC_SHA256 => 0xc04e,
            rustls_cipersuite::TLS_ECDH_RSA_WITH_ARIA_256_CBC_SHA384 => 0xc04f,
            rustls_cipersuite::TLS_RSA_WITH_ARIA_128_GCM_SHA256 => 0xc050,
            rustls_cipersuite::TLS_RSA_WITH_ARIA_256_GCM_SHA384 => 0xc051,
            rustls_cipersuite::TLS_DHE_RSA_WITH_ARIA_128_GCM_SHA256 => 0xc052,
            rustls_cipersuite::TLS_DHE_RSA_WITH_ARIA_256_GCM_SHA384 => 0xc053,
            rustls_cipersuite::TLS_DH_RSA_WITH_ARIA_128_GCM_SHA256 => 0xc054,
            rustls_cipersuite::TLS_DH_RSA_WITH_ARIA_256_GCM_SHA384 => 0xc055,
            rustls_cipersuite::TLS_DHE_DSS_WITH_ARIA_128_GCM_SHA256 => 0xc056,
            rustls_cipersuite::TLS_DHE_DSS_WITH_ARIA_256_GCM_SHA384 => 0xc057,
            rustls_cipersuite::TLS_DH_DSS_WITH_ARIA_128_GCM_SHA256 => 0xc058,
            rustls_cipersuite::TLS_DH_DSS_WITH_ARIA_256_GCM_SHA384 => 0xc059,
            rustls_cipersuite::TLS_DH_anon_WITH_ARIA_128_GCM_SHA256 => 0xc05a,
            rustls_cipersuite::TLS_DH_anon_WITH_ARIA_256_GCM_SHA384 => 0xc05b,
            rustls_cipersuite::TLS_ECDHE_ECDSA_WITH_ARIA_128_GCM_SHA256 => 0xc05c,
            rustls_cipersuite::TLS_ECDHE_ECDSA_WITH_ARIA_256_GCM_SHA384 => 0xc05d,
            rustls_cipersuite::TLS_ECDH_ECDSA_WITH_ARIA_128_GCM_SHA256 => 0xc05e,
            rustls_cipersuite::TLS_ECDH_ECDSA_WITH_ARIA_256_GCM_SHA384 => 0xc05f,
            rustls_cipersuite::TLS_ECDHE_RSA_WITH_ARIA_128_GCM_SHA256 => 0xc060,
            rustls_cipersuite::TLS_ECDHE_RSA_WITH_ARIA_256_GCM_SHA384 => 0xc061,
            rustls_cipersuite::TLS_ECDH_RSA_WITH_ARIA_128_GCM_SHA256 => 0xc062,
            rustls_cipersuite::TLS_ECDH_RSA_WITH_ARIA_256_GCM_SHA384 => 0xc063,
            rustls_cipersuite::TLS_PSK_WITH_ARIA_128_CBC_SHA256 => 0xc064,
            rustls_cipersuite::TLS_PSK_WITH_ARIA_256_CBC_SHA384 => 0xc065,
            rustls_cipersuite::TLS_DHE_PSK_WITH_ARIA_128_CBC_SHA256 => 0xc066,
            rustls_cipersuite::TLS_DHE_PSK_WITH_ARIA_256_CBC_SHA384 => 0xc067,
            rustls_cipersuite::TLS_RSA_PSK_WITH_ARIA_128_CBC_SHA256 => 0xc068,
            rustls_cipersuite::TLS_RSA_PSK_WITH_ARIA_256_CBC_SHA384 => 0xc069,
            rustls_cipersuite::TLS_PSK_WITH_ARIA_128_GCM_SHA256 => 0xc06a,
            rustls_cipersuite::TLS_PSK_WITH_ARIA_256_GCM_SHA384 => 0xc06b,
            rustls_cipersuite::TLS_DHE_PSK_WITH_ARIA_128_GCM_SHA256 => 0xc06c,
            rustls_cipersuite::TLS_DHE_PSK_WITH_ARIA_256_GCM_SHA384 => 0xc06d,
            rustls_cipersuite::TLS_RSA_PSK_WITH_ARIA_128_GCM_SHA256 => 0xc06e,
            rustls_cipersuite::TLS_RSA_PSK_WITH_ARIA_256_GCM_SHA384 => 0xc06f,
            rustls_cipersuite::TLS_ECDHE_PSK_WITH_ARIA_128_CBC_SHA256 => 0xc070,
            rustls_cipersuite::TLS_ECDHE_PSK_WITH_ARIA_256_CBC_SHA384 => 0xc071,
            rustls_cipersuite::TLS_ECDHE_ECDSA_WITH_CAMELLIA_128_CBC_SHA256 => 0xc072,
            rustls_cipersuite::TLS_ECDHE_ECDSA_WITH_CAMELLIA_256_CBC_SHA384 => 0xc073,
            rustls_cipersuite::TLS_ECDH_ECDSA_WITH_CAMELLIA_128_CBC_SHA256 => 0xc074,
            rustls_cipersuite::TLS_ECDH_ECDSA_WITH_CAMELLIA_256_CBC_SHA384 => 0xc075,
            rustls_cipersuite::TLS_ECDHE_RSA_WITH_CAMELLIA_128_CBC_SHA256 => 0xc076,
            rustls_cipersuite::TLS_ECDHE_RSA_WITH_CAMELLIA_256_CBC_SHA384 => 0xc077,
            rustls_cipersuite::TLS_ECDH_RSA_WITH_CAMELLIA_128_CBC_SHA256 => 0xc078,
            rustls_cipersuite::TLS_ECDH_RSA_WITH_CAMELLIA_256_CBC_SHA384 => 0xc079,
            rustls_cipersuite::TLS_RSA_WITH_CAMELLIA_128_GCM_SHA256 => 0xc07a,
            rustls_cipersuite::TLS_RSA_WITH_CAMELLIA_256_GCM_SHA384 => 0xc07b,
            rustls_cipersuite::TLS_DHE_RSA_WITH_CAMELLIA_128_GCM_SHA256 => 0xc07c,
            rustls_cipersuite::TLS_DHE_RSA_WITH_CAMELLIA_256_GCM_SHA384 => 0xc07d,
            rustls_cipersuite::TLS_DH_RSA_WITH_CAMELLIA_128_GCM_SHA256 => 0xc07e,
            rustls_cipersuite::TLS_DH_RSA_WITH_CAMELLIA_256_GCM_SHA384 => 0xc07f,
            rustls_cipersuite::TLS_DHE_DSS_WITH_CAMELLIA_128_GCM_SHA256 => 0xc080,
            rustls_cipersuite::TLS_DHE_DSS_WITH_CAMELLIA_256_GCM_SHA384 => 0xc081,
            rustls_cipersuite::TLS_DH_DSS_WITH_CAMELLIA_128_GCM_SHA256 => 0xc082,
            rustls_cipersuite::TLS_DH_DSS_WITH_CAMELLIA_256_GCM_SHA384 => 0xc083,
            rustls_cipersuite::TLS_DH_anon_WITH_CAMELLIA_128_GCM_SHA256 => 0xc084,
            rustls_cipersuite::TLS_DH_anon_WITH_CAMELLIA_256_GCM_SHA384 => 0xc085,
            rustls_cipersuite::TLS_ECDHE_ECDSA_WITH_CAMELLIA_128_GCM_SHA256 => 0xc086,
            rustls_cipersuite::TLS_ECDHE_ECDSA_WITH_CAMELLIA_256_GCM_SHA384 => 0xc087,
            rustls_cipersuite::TLS_ECDH_ECDSA_WITH_CAMELLIA_128_GCM_SHA256 => 0xc088,
            rustls_cipersuite::TLS_ECDH_ECDSA_WITH_CAMELLIA_256_GCM_SHA384 => 0xc089,
            rustls_cipersuite::TLS_ECDHE_RSA_WITH_CAMELLIA_128_GCM_SHA256 => 0xc08a,
            rustls_cipersuite::TLS_ECDHE_RSA_WITH_CAMELLIA_256_GCM_SHA384 => 0xc08b,
            rustls_cipersuite::TLS_ECDH_RSA_WITH_CAMELLIA_128_GCM_SHA256 => 0xc08c,
            rustls_cipersuite::TLS_ECDH_RSA_WITH_CAMELLIA_256_GCM_SHA384 => 0xc08d,
            rustls_cipersuite::TLS_PSK_WITH_CAMELLIA_128_GCM_SHA256 => 0xc08e,
            rustls_cipersuite::TLS_PSK_WITH_CAMELLIA_256_GCM_SHA384 => 0xc08f,
            rustls_cipersuite::TLS_DHE_PSK_WITH_CAMELLIA_128_GCM_SHA256 => 0xc090,
            rustls_cipersuite::TLS_DHE_PSK_WITH_CAMELLIA_256_GCM_SHA384 => 0xc091,
            rustls_cipersuite::TLS_RSA_PSK_WITH_CAMELLIA_128_GCM_SHA256 => 0xc092,
            rustls_cipersuite::TLS_RSA_PSK_WITH_CAMELLIA_256_GCM_SHA384 => 0xc093,
            rustls_cipersuite::TLS_PSK_WITH_CAMELLIA_128_CBC_SHA256 => 0xc094,
            rustls_cipersuite::TLS_PSK_WITH_CAMELLIA_256_CBC_SHA384 => 0xc095,
            rustls_cipersuite::TLS_DHE_PSK_WITH_CAMELLIA_128_CBC_SHA256 => 0xc096,
            rustls_cipersuite::TLS_DHE_PSK_WITH_CAMELLIA_256_CBC_SHA384 => 0xc097,
            rustls_cipersuite::TLS_RSA_PSK_WITH_CAMELLIA_128_CBC_SHA256 => 0xc098,
            rustls_cipersuite::TLS_RSA_PSK_WITH_CAMELLIA_256_CBC_SHA384 => 0xc099,
            rustls_cipersuite::TLS_ECDHE_PSK_WITH_CAMELLIA_128_CBC_SHA256 => 0xc09a,
            rustls_cipersuite::TLS_ECDHE_PSK_WITH_CAMELLIA_256_CBC_SHA384 => 0xc09b,
            rustls_cipersuite::TLS_RSA_WITH_AES_128_CCM => 0xc09c,
            rustls_cipersuite::TLS_RSA_WITH_AES_256_CCM => 0xc09d,
            rustls_cipersuite::TLS_DHE_RSA_WITH_AES_128_CCM => 0xc09e,
            rustls_cipersuite::TLS_DHE_RSA_WITH_AES_256_CCM => 0xc09f,
            rustls_cipersuite::TLS_RSA_WITH_AES_128_CCM_8 => 0xc0a0,
            rustls_cipersuite::TLS_RSA_WITH_AES_256_CCM_8 => 0xc0a1,
            rustls_cipersuite::TLS_DHE_RSA_WITH_AES_128_CCM_8 => 0xc0a2,
            rustls_cipersuite::TLS_DHE_RSA_WITH_AES_256_CCM_8 => 0xc0a3,
            rustls_cipersuite::TLS_PSK_WITH_AES_128_CCM => 0xc0a4,
            rustls_cipersuite::TLS_PSK_WITH_AES_256_CCM => 0xc0a5,
            rustls_cipersuite::TLS_DHE_PSK_WITH_AES_128_CCM => 0xc0a6,
            rustls_cipersuite::TLS_DHE_PSK_WITH_AES_256_CCM => 0xc0a7,
            rustls_cipersuite::TLS_PSK_WITH_AES_128_CCM_8 => 0xc0a8,
            rustls_cipersuite::TLS_PSK_WITH_AES_256_CCM_8 => 0xc0a9,
            rustls_cipersuite::TLS_PSK_DHE_WITH_AES_128_CCM_8 => 0xc0aa,
            rustls_cipersuite::TLS_PSK_DHE_WITH_AES_256_CCM_8 => 0xc0ab,
            rustls_cipersuite::TLS_ECDHE_RSA_WITH_CHACHA20_POLY1305_SHA256 => 0xcca8,
            rustls_cipersuite::TLS_ECDHE_ECDSA_WITH_CHACHA20_POLY1305_SHA256 => 0xcca9,
            rustls_cipersuite::TLS_DHE_RSA_WITH_CHACHA20_POLY1305_SHA256 => 0xccaa,
            rustls_cipersuite::TLS_PSK_WITH_CHACHA20_POLY1305_SHA256 => 0xccab,
            rustls_cipersuite::TLS_ECDHE_PSK_WITH_CHACHA20_POLY1305_SHA256 => 0xccac,
            rustls_cipersuite::TLS_DHE_PSK_WITH_CHACHA20_POLY1305_SHA256 => 0xccad,
            rustls_cipersuite::TLS_RSA_PSK_WITH_CHACHA20_POLY1305_SHA256 => 0xccae,
            rustls_cipersuite::SSL_RSA_FIPS_WITH_DES_CBC_SHA => 0xfefe,
            rustls_cipersuite::SSL_RSA_FIPS_WITH_3DES_EDE_CBC_SHA => 0xfeff,
        }
    }

    /// Returns the number of the suite.
    pub fn get_u16(self) -> (r: u16)
        ensures
            r == self.spec_get_u16(),
    {
        match self {
            rustls_cipersuite::TLS_NULL_WITH_NULL_NULL => 0x0000,
            rustls_cipersuite::TLS_RSA_WITH_NULL_MD5 => 0x0001,
            rustls_cipersuite::TLS_RSA_WITH_NULL_SHA => 0x0002,
            rustls_cipersuite::TLS_RSA_EXPORT_WITH_RC4_40_MD5 => 0x0003,
            rustls_cipersuite::TLS_RSA_WITH_RC4_128_MD5 => 0x0004,
            rustls_cipersuite::TLS_RSA_WITH_RC4_128_SHA => 0x0005,
            rustls_cipersuite::TLS_RSA_EXPORT_WITH_RC2_CBC_40_MD5 => 0x0006,
            rustls_cipersuite::TLS_RSA_WITH_IDEA_CBC_SHA => 0x0007,
            rustls_cipersuite::TLS_RSA_EXPORT_WITH_DES40_CBC_SHA => 0x0008,
            rustls_cipersuite::TLS_RSA_WITH_DES_CBC_SHA => 0x0009,
            rustls_cipersuite::TLS_RSA_WITH_3DES_EDE_CBC_SHA => 0x000a,
            rustls_cipersuite::TLS_DH_DSS_EXPORT_WITH_DES40_CBC_SHA => 0x000b,
            rustls_cipersuite::TLS_DH_DSS_WITH_DES_CBC_SHA => 0x000c,
            rustls_cipersuite::TLS_DH_DSS_WITH_3DES_EDE_CBC_SHA => 0x000d,
            rustls_cipersuite::TLS_DH_RSA_EXPORT_WITH_DES40_CBC_SHA => 0x000e,
            rustls_cipersuite::TLS_DH_RSA_WITH_DES_CBC_SHA => 0x000f,
            rustls_cipersuite::TLS_DH_RSA_WITH_3DES_EDE_CBC_SHA => 0x0010,
            rustls_cipersuite::TLS_DHE_DSS_EXPORT_WITH_DES40_CBC_SHA => 0x0011,
            rustls_cipersuite::TLS_DHE_DSS_WITH_DES_CBC_SHA => 0x0012,
            rustls_cipersuite::TLS_DHE_DSS_WITH_3DES_EDE_CBC_SHA => 0x0013,
            rustls_cipersuite::TLS_DHE_RSA_EXPORT_WITH_DES40_CBC_SHA => 0x0014,
            rustls_cipersuite::TLS_DHE_RSA_WITH_DES_CBC_SHA => 0x0015,
            rustls_cipersuite::TLS_DHE_RSA_WITH_3DES_EDE_CBC_SHA => 0x0016,
            rustls_cipersuite::TLS_DH_anon_EXPORT_WITH_RC4_40_MD5 => 0x0017,
            rustls_cipersuite::TLS_DH_anon_WITH_RC4_128_MD5 => 0x0018,
            rustls_cipersuite::TLS_DH_anon_EXPORT_WITH_DES40_CBC_SHA => 0x0019,
            rustls_cipersuite::TLS_DH_anon_WITH_DES_CBC_SHA => 0x001a,
            rustls_cipersuite::TLS_DH_anon_WITH_3DES_EDE_CBC_SHA => 0x001b,
            rustls_cipersuite::SSL_FORTEZZA_KEA_WITH_NULL_SHA => 0x001c,
            rustls_cipersuite::SSL_FORTEZZA_KEA_WITH_FORTEZZA_CBC_SHA => 0x001d,
            rustls_cipersuite::TLS_KRB5_WITH_DES_CBC_SHA_or_SSL_FORTEZZA_KEA_WITH_RC4_128_SHA => 0x001e,
            rustls_cipersuite::TLS_KRB5_WITH_3DES_EDE_CBC_SHA => 0x001f,
            rustls_cipersuite::TLS_KRB5_WITH_RC4_128_SHA => 0x0020,
            rustls_cipersuite::TLS_KRB5_WITH_IDEA_CBC_SHA => 0x0021,
            rustls_cipersuite::TLS_KRB5_WITH_DES_CBC_MD5 => 0x0022,
            rustls_cipersuite::TLS_KRB5_WITH_3DES_EDE_CBC_MD5 => 0x0023,
            rustls_cipersuite::TLS_KRB5_WITH_RC4_128_MD5 => 0x0024,
            rustls_cipersuite::TLS_KRB5_WITH_IDEA_CBC_MD5 => 0x0025,
            rustls_cipersuite::TLS_KRB5_EXPORT_WITH_DES_CBC_40_SHA => 0x0026,
            rustls_cipersuite::TLS_KRB5_EXPORT_WITH_RC2_CBC_40_SHA => 0x0027,
            rustls_cipersuite::TLS_KRB5_EXPORT_WITH_RC4_40_SHA => 0x0028,
            rustls_cipersuite::TLS_KRB5_EXPORT_WITH_DES_CBC_40_MD5 => 0x0029,
            rustls_cipersuite::TLS_KRB5_EXPORT_WITH_RC2_CBC_40_MD5 => 0x002a,
            rustls_cipersuite::TLS_KRB5_EXPORT_WITH_RC4_40_MD5 => 0x002b,
            rustls_cipersuite::TLS_PSK_WITH_NULL_SHA => 0x002c,
            rustls_cipersuite::TLS_DHE_PSK_WITH_NULL_SHA => 0x002d,
            rustls_cipersuite::TLS_RSA_PSK_WITH_NULL_SHA => 0x002e,
            rustls_cipersuite::TLS_RSA_WITH_AES_128_CBC_SHA => 0x002f,
            rustls_cipersuite::TLS_DH_DSS_WITH_AES_128_CBC_SHA => 0x0030,
            rustls_cipersuite::TLS_DH_RSA_WITH_AES_128_CBC_SHA => 0x0031,
            rustls_cipersuite::TLS_DHE_DSS_WITH_AES_128_CBC_SHA => 0x0032,
            rustls_cipersuite::TLS_DHE_RSA_WITH_AES_128_CBC_SHA => 0x0033,
            rustls_cipersuite::TLS_DH_anon_WITH_AES_128_CBC_SHA => 0x0034,
            rustls_cipersuite::TLS_RSA_WITH_AES_256_CBC_SHA => 0x0035,
            rustls_cipersuite::TLS_DH_DSS_WITH_AES_256_CBC_SHA => 0x0036,
            rustls_cipersuite::TLS_DH_RSA_WITH_AES_256_CBC_SHA => 0x0037,
            rustls_cipersuite::TLS_DHE_DSS_WITH_AES_256_CBC_SHA => 0x0038,
            rustls_cipersuite::TLS_DHE_RSA_WITH_AES_256_CBC_SHA => 0x0039,
            rustls_cipersuite::TLS_DH_anon_WITH_AES_256_CBC_SHA => 0x003a,
            rustls_cipersuite::TLS_RSA_WITH_NULL_SHA256 => 0x003b,
            rustls_cipersuite::TLS_RSA_WITH_AES_128_CBC_SHA256 => 0x003c,
            rustls_cipersuite::TLS_RSA_WITH_AES_256_CBC_SHA256 => 0x003d,
            rustls_cipersuite::TLS_DH_DSS_WITH_AES_128_CBC_SHA256 => 0x003e,
            rustls_cipersuite::TLS_DH_RSA_WITH_AES_128_CBC_SHA256 => 0x003f,
            rustls_cipersuite::TLS_DHE_DSS_WITH_AES_128_CBC_SHA256 => 0x0040,
            rustls_cipersuite::TLS_RSA_WITH_CAMELLIA_128_CBC_SHA => 0x0041,
            rustls_cipersuite::TLS_DH_DSS_WITH_CAMELLIA_128_CBC_SHA => 0x0042,
            rustls_cipersuite::TLS_DH_RSA_WITH_CAMELLIA_128_CBC_SHA => 0x0043,
            rustls_cipersuite::TLS_DHE_DSS_WITH_CAMELLIA_128_CBC_SHA => 0x0044,
            rustls_cipersuite::TLS_DHE_RSA_WITH_CAMELLIA_128_CBC_SHA => 0x0045,
            rustls_cipersuite::TLS_DH_anon_WITH_CAMELLIA_128_CBC_SHA => 0x0046,
            rustls_cipersuite::TLS_ECDH_ECDSA_WITH_NULL_SHA_draft => 0x0047,
            rustls_cipersuite::TLS_ECDH_ECDSA_WITH_RC4_128_SHA_draft => 0x0048,
            rustls_cipersuite::TLS_ECDH_ECDSA_WITH_DES_CBC_SHA_draft => 0x0049,
            rustls_cipersuite::TLS_ECDH_ECDSA_WITH_3DES_EDE_CBC_SHA_draft => 0x004a,
            rustls_cipersuite::TLS_ECDH_ECDSA_WITH_AES_128_CBC_SHA_draft => 0x004b,
            rustls_cipersuite::TLS_ECDH_ECDSA_WITH_AES_256_CBC_SHA_draft => 0x004c,
            rustls_cipersuite::TLS_ECDH_ECNRA_WITH_DES_CBC_SHA_draft => 0x004d,
            rustls_cipersuite::TLS_ECDH_ECNRA_WITH_3DES_EDE_CBC_SHA_draft => 0x004e,
            rustls_cipersuite::TLS_ECMQV_ECDSA_NULL_SHA_draft => 0x004f,
            rustls_cipersuite::TLS_ECMQV_ECDSA_WITH_RC4_128_SHA_draft => 0x0050,
            rustls_cipersuite::TLS_ECMQV_ECDSA_WITH_DES_CBC_SHA_draft => 0x0051,
            rustls_cipersuite::TLS_ECMQV_ECDSA_WITH_3DES_EDE_CBC_SHA_draft => 0x0052,
            rustls_cipersuite::TLS_ECMQV_ECNRA_NULL_SHA_draft => 0x0053,
            rustls_cipersuite::TLS_ECMQV_ECNRA_WITH_RC4_128_SHA_draft => 0x0054,
            rustls_cipersuite::TLS_ECMQV_ECNRA_WITH_DES_CBC_SHA_draft => 0x0055,
            rustls_cipersuite::TLS_ECMQV_ECNRA_WITH_3DES_EDE_CBC_SHA_draft => 0x0056,
            rustls_cipersuite::TLS_ECDH_anon_NULL_WITH_SHA_draft => 0x0057,
            rustls_cipersuite::TLS_ECDH_anon_WITH_RC4_128_SHA_draft => 0x0058,
            rustls_cipersuite::TLS_ECDH_anon_WITH_DES_CBC_SHA_draft => 0x0059,
            rustls_cipersuite::TLS_ECDH_anon_WITH_3DES_EDE_CBC_SHA_draft => 0x005a,
            rustls_cipersuite::TLS_ECDH_anon_EXPORT_WITH_DES40_CBC_SHA_draft => 0x005b,
            rustls_cipersuite::TLS_ECDH_anon_EXPORT_WITH_RC4_40_SHA_draft => 0x005c,
            rustls_cipersuite::TLS_RSA_EXPORT1024_WITH_RC4_56_MD5 => 0x0060,
            rustls_cipersuite::TLS_RSA_EXPORT1024_WITH_RC2_CBC_56_MD5 => 0x0061,
            rustls_cipersuite::TLS_RSA_EXPORT1024_WITH_DES_CBC_SHA => 0x0062,
            rustls_cipersuite::TLS_DHE_DSS_EXPORT1024_WITH_DES_CBC_SHA => 0x0063,
            rustls_cipersuite::TLS_RSA_EXPORT1024_WITH_RC4_56_SHA => 0x0064,
            rustls_cipersuite::TLS_DHE_DSS_EXPORT1024_WITH_RC4_56_SHA => 0x0065,
            rustls_cipersuite::TLS_DHE_DSS_WITH_RC4_128_SHA => 0x0066,
            rustls_cipersuite::TLS_DHE_RSA_WITH_AES_128_CBC_SHA256 => 0x0067,
            rustls_cipersuite::TLS_DH_DSS_WITH_AES_256_CBC_SHA256 => 0x0068,
            rustls_cipersuite::TLS_DH_RSA_WITH_AES_256_CBC_SHA256 => 0x0069,
            rustls_cipersuite::TLS_DHE_DSS_WITH_AES_256_CBC_SHA256 => 0x006a,
            rustls_cipersuite::TLS_DHE_RSA_WITH_AES_256_CBC_SHA256 => 0x006b,
            rustls_cipersuite::TLS_DH_anon_WITH_AES_128_CBC_SHA256 => 0x006c,
            rustls_cipersuite::TLS_DH_anon_WITH_AES_256_CBC_SHA256 => 0x006d,
            rustls_cipersuite::TLS_DHE_DSS_WITH_3DES_EDE_CBC_RMD => 0x0072,
            rustls_cipersuite::TLS_DHE_DSS_WITH_AES_128_CBC_RMD => 0x0073,
            rustls_cipersuite::TLS_DHE_DSS_WITH_AES_256_CBC_RMD => 0x0074,
            rustls_cipersuite::TLS_DHE_RSA_WITH_3DES_EDE_CBC_RMD => 0x0077,
            rustls_cipersuite::TLS_DHE_RSA_WITH_AES_128_CBC_RMD => 0x0078,
            rustls_cipersuite::TLS_DHE_RSA_WITH_AES_256_CBC_RMD => 0x0079,
            rustls_cipersuite::TLS_RSA_WITH_3DES_EDE_CBC_RMD => 0x007c,
            rustls_cipersuite::TLS_RSA_WITH_AES_128_CBC_RMD => 0x007d,
            rustls_cipersuite::TLS_RSA_WITH_AES_256_CBC_RMD => 0x007e,
            rustls_cipersuite::TLS_GOSTR341094_WITH_28147_CNT_IMIT => 0x0080,
            rustls_cipersuite::TLS_GOSTR341001_WITH_28147_CNT_IMIT => 0x0081,
            rustls_cipersuite::TLS_GOSTR341094_WITH_NULL_GOSTR3411 => 0x0082,
            rustls_cipersuite::TLS_GOSTR341001_WITH_NULL_GOSTR3411 => 0x0083,
            rustls_cipersuite::TLS_RSA_WITH_CAMELLIA_256_CBC_SHA => 0x0084,
            rustls_cipersuite::TLS_DH_DSS_WITH_CAMELLIA_256_CBC_SHA => 0x0085,
            rustls_cipersuite::TLS_DH_RSA_WITH_CAMELLIA_256_CBC_SHA => 0x0086,
            rustls_cipersuite::TLS_DHE_DSS_WITH_CAMELLIA_256_CBC_SHA => 0x0087,
            rustls_cipersuite::TLS_DHE_RSA_WITH_CAMELLIA_256_CBC_SHA => 0x0088,
            rustls_cipersuite::TLS_DH_anon_WITH_CAMELLIA_256_CBC_SHA => 0x0089,
            rustls_cipersuite::TLS_PSK_WITH_RC4_128_SHA => 0x008a,
            rustls_cipersuite::TLS_PSK_WITH_3DES_EDE_CBC_SHA => 0x008b,
            rustls_cipersuite::TLS_PSK_WITH_AES_128_CBC_SHA => 0x008c,
            rustls_cipersuite::TLS_PSK_WITH_AES_256_CBC_SHA => 0x008d,
            rustls_cipersuite::TLS_DHE_PSK_WITH_RC4_128_SHA => 0x008e,
            rustls_cipersuite::TLS_DHE_PSK_WITH_3DES_EDE_CBC_SHA => 0x008f,
            rustls_cipersuite::TLS_DHE_PSK_WITH_AES_128_CBC_SHA => 0x0090,
            rustls_cipersuite::TLS_DHE_PSK_WITH_AES_256_CBC_SHA => 0x0091,
            rustls_cipersuite::TLS_RSA_PSK_WITH_RC4_128_SHA => 0x0092,
            rustls_cipersuite::TLS_RSA_PSK_WITH_3DES_EDE_CBC_SHA => 0x0093,
            rustls_cipersuite::TLS_RSA_PSK_WITH_AES_128_CBC_SHA => 0x0094,
            rustls_cipersuite::TLS_RSA_PSK_WITH_AES_256_CBC_SHA => 0x0095,
            rustls_cipersuite::TLS_RSA_WITH_SEED_CBC_SHA => 0x0096,
            rustls_cipersuite::TLS_DH_DSS_WITH_SEED_CBC_SHA => 0x0097,
            rustls_cipersuite::TLS_DH_RSA_WITH_SEED_CBC_SHA => 0x0098,
            rustls_cipersuite::TLS_DHE_DSS_WITH_SEED_CBC_SHA => 0x0099,
            rustls_cipersuite::TLS_DHE_RSA_WITH_SEED_CBC_SHA => 0x009a,
            rustls_cipersuite::TLS_DH_anon_WITH_SEED_CBC_SHA => 0x009b,
            rustls_cipersuite::TLS_RSA_WITH_AES_128_GCM_SHA256 => 0x009c,
            rustls_cipersuite::TLS_RSA_WITH_AES_256_GCM_SHA384 => 0x009d,
            rustls_cipersuite::TLS_DHE_RSA_WITH_AES_128_GCM_SHA256 => 0x009e,
            rustls_cipersuite::TLS_DHE_RSA_WITH_AES_256_GCM_SHA384 => 0x009f,
            rustls_cipersuite::TLS_DH_RSA_WITH_AES_128_GCM_SHA256 => 0x00a0,
            rustls_cipersuite::TLS_DH_RSA_WITH_AES_256_GCM_SHA384 => 0x00a1,
            rustls_cipersuite::TLS_DHE_DSS_WITH_AES_128_GCM_SHA256 => 0x00a2,
            rustls_cipersuite::TLS_DHE_DSS_WITH_AES_256_GCM_SHA384 => 0x00a3,
            rustls_cipersuite::TLS_DH_DSS_WITH_AES_128_GCM_SHA256 => 0x00a4,
            rustls_cipersuite::TLS_DH_DSS_WITH_AES_256_GCM_SHA384 => 0x00a5,
            rustls_cipersuite::TLS_DH_anon_WITH_AES_128_GCM_SHA256 => 0x00a6,
            rustls_cipersuite::TLS_DH_anon_WITH_AES_256_GCM_SHA384 => 0x00a7,
            rustls_cipersuite::TLS_PSK_WITH_AES_128_GCM_SHA256 => 0x00a8,
            rustls_cipersuite::TLS_PSK_WITH_AES_256_GCM_SHA384 => 0x00a9,
            rustls_cipersuite::TLS_DHE_PSK_WITH_AES_128_GCM_SHA256 => 0x00aa,
            rustls_cipersuite::TLS_DHE_PSK_WITH_AES_256_GCM_SHA384 => 0x00ab,
            rustls_cipersuite::TLS_RSA_PSK_WITH_AES_128_GCM_SHA256 => 0x00ac,
            rustls_cipersuite::TLS_RSA_PSK_WITH_AES_256_GCM_SHA384 => 0x00ad,
            rustls_cipersuite::TLS_PSK_WITH_AES_128_CBC_SHA256 => 0x00ae,
            rustls_cipersuite::TLS_PSK_WITH_AES_256_CBC_SHA384 => 0x00af,
            rustls_cipersuite::TLS_PSK_WITH_NULL_SHA256 => 0x00b0,
            rustls_cipersuite::TLS_PSK_WITH_NULL_SHA384 => 0x00b1,
            rustls_cipersuite::TLS_DHE_PSK_WITH_AES_128_CBC_SHA256 => 0x00b2,
            rustls_cipersuite::TLS_DHE_PSK_WITH_AES_256_CBC_SHA384 => 0x00b3,
            rustls_cipersuite::TLS_DHE_PSK_WITH_NULL_SHA256 => 0x00b4,
            rustls_cipersuite::TLS_DHE_PSK_WITH_NULL_SHA384 => 0x00b5,
            rustls_cipersuite::TLS_RSA_PSK_WITH_AES_128_CBC_SHA256 => 0x00b6,
            rustls_cipersuite::TLS_RSA_PSK_WITH_AES_256_CBC_SHA384 => 0x00b7,
            rustls_cipersuite::TLS_RSA_PSK_WITH_NULL_SHA256 => 0x00b8,
            rustls_cipersuite::TLS_RSA_PSK_WITH_NULL_SHA384 => 0x00b9,
            rustls_cipersuite::TLS_RSA_WITH_CAMELLIA_128_CBC_SHA256 => 0x00ba,
            rustls_cipersuite::TLS_DH_DSS_WITH_CAMELLIA_128_CBC_SHA256 => 0x00bb,
            rustls_cipersuite::TLS_DH_RSA_WITH_CAMELLIA_128_CBC_SHA256 => 0x00bc,
            rustls_cipersuite::TLS_DHE_DSS_WITH_CAMELLIA_128_CBC_SHA256 => 0x00bd,
            rustls_cipersuite::TLS_DHE_RSA_WITH_CAMELLIA_128_CBC_SHA256 => 0x00be,
            rustls_cipersuite::TLS_DH_anon_WITH_CAMELLIA_128_CBC_SHA256 => 0x00bf,
            rustls_cipersuite::TLS_RSA_WITH_CAMELLIA_256_CBC_SHA256 => 0x00c0,
            rustls_cipersuite::TLS_DH_DSS_WITH_CAMELLIA_256_CBC_SHA256 => 0x00c1,
            rustls_cipersuite::TLS_DH_RSA_WITH_CAMELLIA_256_CBC_SHA256 => 0x00c2,
            rustls_cipersuite::TLS_DHE_DSS_WITH_CAMELLIA_256_CBC_SHA256 => 0x00c3,
            rustls_cipersuite::TLS_DHE_RSA_WITH_CAMELLIA_256_CBC_SHA256 => 0x00c4,
            rustls_cipersuite::TLS_DH_anon_WITH_CAMELLIA_256_CBC_SHA256 => 0x00c5,
            rustls_cipersuite::TLS_EMPTY_RENEGOTIATION_INFO_SCSV => 0x00ff,
            rustls_cipersuite::TLS13_AES_128_GCM_SHA256 => 0x1301,
            rustls_cipersuite::TLS13_AES_256_GCM_SHA384 => 0x1302,
            rustls_cipersuite::TLS13_CHACHA20_POLY1305_SHA256 => 0x1303,
            rustls_cipersuite::TLS13_AES_128_CCM_SHA256 => 0x1304,
            rustls_cipersuite::TLS13_AES_128_CCM_8_SHA256 => 0x1305,
            rustls_cipersuite::TLS_ECDH_ECDSA_WITH_NULL_SHA => 0xc001,
            rustls_cipersuite::TLS_ECDH_ECDSA_WITH_RC4_128_SHA => 0xc002,
            rustls_cipersuite::TLS_ECDH_ECDSA_WITH_3DES_EDE_CBC_SHA => 0xc003,
            rustls_cipersuite::TLS_ECDH_ECDSA_WITH_AES_128_CBC_SHA => 0xc004,
            rustls_cipersuite::TLS_ECDH_ECDSA_WITH_AES_256_CBC_SHA => 0xc005,
            rustls_cipersuite::TLS_ECDHE_ECDSA_WITH_NULL_SHA => 0xc006,
            rustls_cipersuite::TLS_ECDHE_ECDSA_WITH_RC4_128_SHA => 0xc007,
            rustls_cipersuite::TLS_ECDHE_ECDSA_WITH_3DES_EDE_CBC_SHA => 0xc008,
            rustls_cipersuite::TLS_ECDHE_ECDSA_WITH_AES_128_CBC_SHA => 0xc009,
            rustls_cipersuite::TLS_ECDHE_ECDSA_WITH_AES_256_CBC_SHA => 0xc00a,
            rustls_cipersuite::TLS_ECDH_RSA_WITH_NULL_SHA => 0xc00b,
            rustls_cipersuite::TLS_ECDH_RSA_WITH_RC4_128_SHA => 0xc00c,
            rustls_cipersuite::TLS_ECDH_RSA_WITH_3DES_EDE_CBC_SHA => 0xc00d,
            rustls_cipersuite::TLS_ECDH_RSA_WITH_AES_128_CBC_SHA => 0xc00e,
            rustls_cipersuite::TLS_ECDH_RSA_WITH_AES_256_CBC_SHA => 0xc00f,
            rustls_cipersuite::TLS_ECDHE_RSA_WITH_NULL_SHA => 0xc010,
            rustls_cipersuite::TLS_ECDHE_RSA_WITH_RC4_128_SHA => 0xc011,
            rustls_cipersuite::TLS_ECDHE_RSA_WITH_3DES_EDE_CBC_SHA => 0xc012,
            rustls_cipersuite::TLS_ECDHE_RSA_WITH_AES_128_CBC_SHA => 0xc013,
            rustls_cipersuite::TLS_ECDHE_RSA_WITH_AES_256_CBC_SHA => 0xc014,
            rustls_cipersuite::TLS_ECDH_anon_WITH_NULL_SHA => 0xc015,
            rustls_cipersuite::TLS_ECDH_anon_WITH_RC4_128_SHA => 0xc016,
            rustls_cipersuite::TLS_ECDH_anon_WITH_3DES_EDE_CBC_SHA => 0xc017,
            rustls_cipersuite::TLS_ECDH_anon_WITH_AES_128_CBC_SHA => 0xc018,
            rustls_cipersuite::TLS_ECDH_anon_WITH_AES_256_CBC_SHA => 0xc019,
            rustls_cipersuite::TLS_SRP_SHA_WITH_3DES_EDE_CBC_SHA => 0xc01a,
            rustls_cipersuite::TLS_SRP_SHA_RSA_WITH_3DES_EDE_CBC_SHA => 0xc01b,
            rustls_cipersuite::TLS_SRP_SHA_DSS_WITH_3DES_EDE_CBC_SHA => 0xc01c,
            rustls_cipersuite::TLS_SRP_SHA_WITH_AES_128_CBC_SHA => 0xc01d,
            rustls_cipersuite::TLS_SRP_SHA_RSA_WITH_AES_128_CBC_SHA => 0xc01e,
            rustls_cipersuite::TLS_SRP_SHA_DSS_WITH_AES_128_CBC_SHA => 0xc01f,
            rustls_cipersuite::TLS_SRP_SHA_WITH_AES_256_CBC_SHA => 0xc020,
            rustls_cipersuite::TLS_SRP_SHA_RSA_WITH_AES_256_CBC_SHA => 0xc021,
            rustls_cipersuite::TLS_SRP_SHA_DSS_WITH_AES_256_CBC_SHA => 0xc022,
            rustls_cipersuite::TLS_ECDHE_ECDSA_WITH_AES_128_CBC_SHA256 => 0xc023,
            rustls_cipersuite::TLS_ECDHE_ECDSA_WITH_AES_256_CBC_SHA384 => 0xc024,
            rustls_cipersuite::TLS_ECDH_ECDSA_WITH_AES_128_CBC_SHA256 => 0xc025,
            rustls_cipersuite::TLS_ECDH_ECDSA_WITH_AES_256_CBC_SHA384 => 0xc026,
            rustls_cipersuite::TLS_ECDHE_RSA_WITH_AES_128_CBC_SHA256 => 0xc027,
            rustls_cipersuite::TLS_ECDHE_RSA_WITH_AES_256_CBC_SHA384 => 0xc028,
            rustls_cipersuite::TLS_ECDH_RSA_WITH_AES_128_CBC_SHA256 => 0xc029,
            rustls_cipersuite::TLS_ECDH_RSA_WITH_AES_256_CBC_SHA384 => 0xc02a,
            rustls_cipersuite::TLS_ECDHE_ECDSA_WITH_AES_128_GCM_SHA256 => 0xc02b,
            rustls_cipersuite::TLS_ECDHE_ECDSA_WITH_AES_256_GCM_SHA384 => 0xc02c,
            rustls_cipersuite::TLS_ECDH_ECDSA_WITH_AES_128_GCM_SHA256 => 0xc02d,
            rustls_cipersuite::TLS_ECDH_ECDSA_WITH_AES_256_GCM_SHA384 => 0xc02e,
            rustls_cipersuite::TLS_ECDHE_RSA_WITH_AES_128_GCM_SHA256 => 0xc02f,
            rustls_cipersuite::TLS_ECDHE_RSA_WITH_AES_256_GCM_SHA384 => 0xc030,
            rustls_cipersuite::TLS_ECDH_RSA_WITH_AES_128_GCM_SHA256 => 0xc031,
            rustls_cipersuite::TLS_ECDH_RSA_WITH_AES_256_GCM_SHA384 => 0xc032,
            rustls_cipersuite::TLS_ECDHE_PSK_WITH_RC4_128_SHA => 0xc033,
            rustls_cipersuite::TLS_ECDHE_PSK_WITH_3DES_EDE_CBC_SHA => 0xc034,
            rustls_cipersuite::TLS_ECDHE_PSK_WITH_AES_128_CBC_SHA => 0xc035,
            rustls_cipersuite::TLS_ECDHE_PSK_WITH_AES_256_CBC_SHA => 0xc036,
            rustls_cipersuite::TLS_ECDHE_PSK_WITH_AES_128_CBC_SHA256 => 0xc037,
            rustls_cipersuite::TLS_ECDHE_PSK_WITH_AES_256_CBC_SHA384 => 0xc038,
            rustls_cipersuite::TLS_ECDHE_PSK_WITH_NULL_SHA => 0xc039,
            rustls_cipersuite::TLS_ECDHE_PSK_WITH_NULL_SHA256 => 0xc03a,
            rustls_cipersuite::TLS_ECDHE_PSK_WITH_NULL_SHA384 => 0xc03b,
            rustls_cipersuite::TLS_RSA_WITH_ARIA_128_CBC_SHA256 => 0xc03c,
            rustls_cipersuite::TLS_RSA_WITH_ARIA_256_CBC_SHA384 => 0xc03d,
            rustls_cipersuite::TLS_DH_DSS_WITH_ARIA_128_CBC_SHA256 => 0xc03e,
            rustls_cipersuite::TLS_DH_DSS_WITH_ARIA_256_CBC_SHA384 => 0xc03f,
            rustls_cipersuite::TLS_DH_RSA_WITH_ARIA_128_CBC_SHA256 => 0xc040,
            rustls_cipersuite::TLS_DH_RSA_WITH_ARIA_256_CBC_SHA384 => 0xc041,
            rustls_cipersuite::TLS_DHE_DSS_WITH_ARIA_128_CBC_SHA256 => 0xc042,
            rustls_cipersuite::TLS_DHE_DSS_WITH_ARIA_256_CBC_SHA384 => 0xc043,
            rustls_cipersuite::TLS_DHE_RSA_WITH_ARIA_128_CBC_SHA256 => 0xc044,
            rustls_cipersuite::TLS_DHE_RSA_WITH_ARIA_256_CBC_SHA384 => 0xc045,
            rustls_cipersuite::TLS_DH_anon_WITH_ARIA_128_CBC_SHA256 => 0xc046,
            rustls_cipersuite::TLS_DH_anon_WITH_ARIA_256_CBC_SHA384 => 0xc047,
            rustls_cipersuite::TLS_ECDHE_ECDSA_WITH_ARIA_128_CBC_SHA256 => 0xc048,
            rustls_cipersuite::TLS_ECDHE_ECDSA_WITH_ARIA_256_CBC_SHA384 => 0xc049,
            rustls_cipersuite::TLS_ECDH_ECDSA_WITH_ARIA_128_CBC_SHA256 => 0xc04a,
            rustls_cipersuite::TLS_ECDH_ECDSA_WITH_ARIA_256_CBC_SHA384 => 0xc04b,
            rustls_cipersuite::TLS_ECDHE_RSA_WITH_ARIA_128_CBC_SHA256 => 0xc04c,
            rustls_cipersuite::TLS_ECDHE_RSA_WITH_ARIA_256_CBC_SHA384 => 0xc04d,
            rustls_cipersuite::TLS_ECDH_RSA_WITH_ARIA_128_CBC_SHA256 => 0xc04e,
            rustls_cipersuite::TLS_ECDH_RSA_WITH_ARIA_256_CBC_SHA384 => 0xc04f,
            rustls_cipersuite::TLS_RSA_WITH_ARIA_128_GCM_SHA256 => 0xc050,
            rustls_cipersuite::TLS_RSA_WITH_ARIA_256_GCM_SHA384 => 0xc051,
            rustls_cipersuite::TLS_DHE_RSA_WITH_ARIA_128_GCM_SHA256 => 0xc052,
            rustls_cipersuite::TLS_DHE_RSA_WITH_ARIA_256_GCM_SHA384 => 0xc053,
            rustls_cipersuite::TLS_DH_RSA_WITH_ARIA_128_GCM_SHA256 => 0xc054,
            rustls_cipersuite::TLS_DH_RSA_WITH_ARIA_256_GCM_SHA384 => 0xc055,
            rustls_cipersuite::TLS_DHE_DSS_WITH_ARIA_128_GCM_SHA256 => 0xc056,
            rustls_cipersuite::TLS_DHE_DSS_WITH_ARIA_256_GCM_SHA384 => 0xc057,
            rustls_cipersuite::TLS_DH_DSS_WITH_ARIA_128_GCM_SHA256 => 0xc058,
            rustls_cipersuite::TLS_DH_DSS_WITH_ARIA_256_GCM_SHA384 => 0xc059,
            rustls_cipersuite::TLS_DH_anon_WITH_ARIA_128_GCM_SHA256 => 0xc05a,
            rustls_cipersuite::TLS_DH_anon_WITH_ARIA_256_GCM_SHA384 => 0xc05b,
            rustls_cipersuite::TLS_ECDHE_ECDSA_WITH_ARIA_128_GCM_SHA256 => 0xc05c,
            rustls_cipersuite::TLS_ECDHE_ECDSA_WITH_ARIA_256_GCM_SHA384 => 0xc05d,
            rustls_cipersuite::TLS_ECDH_ECDSA_WITH_ARIA_128_GCM_SHA256 => 0xc05e,
            rustls_cipersuite::TLS_ECDH_ECDSA_WITH_ARIA_256_GCM_SHA384 => 0xc05f,
            rustls_cipersuite::TLS_ECDHE_RSA_WITH_ARIA_128_GCM_SHA256 => 0xc060,
            rustls_cipersuite::TLS_ECDHE_RSA_WITH_ARIA_256_GCM_SHA384 => 0xc061,
            rustls_cipersuite::TLS_ECDH_RSA_WITH_ARIA_128_GCM_SHA256 => 0xc062,
            rustls_cipersuite::TLS_ECDH_RSA_WITH_ARIA_256_GCM_SHA384 => 0xc063,
            rustls_cipersuite::TLS_PSK_WITH_ARIA_128_CBC_SHA256 => 0xc064,
            rustls_cipersuite::TLS_PSK_WITH_ARIA_256_CBC_SHA384 => 0xc065,
            rustls_cipersuite::TLS_DHE_PSK_WITH_ARIA_128_CBC_SHA256 => 0xc066,
            rustls_cipersuite::TLS_DHE_PSK_WITH_ARIA_256_CBC_SHA384 => 0xc067,
            rustls_cipersuite::TLS_RSA_PSK_WITH_ARIA_128_CBC_SHA256 => 0xc068,
            rustls_cipersuite::TLS_RSA_PSK_WITH_ARIA_256_CBC_SHA384 => 0xc069,
            rustls_cipersuite::TLS_PSK_WITH_ARIA_128_GCM_SHA256 => 0xc06a,
            rustls_cipersuite::TLS_PSK_WITH_ARIA_256_GCM_SHA384 => 0xc06b,
            rustls_cipersuite::TLS_DHE_PSK_WITH_ARIA_128_GCM_SHA256 => 0xc06c,
            rustls_cipersuite::TLS_DHE_PSK_WITH_ARIA_256_GCM_SHA384 => 0xc06d,
            rustls_cipersuite::TLS_RSA_PSK_WITH_ARIA_128_GCM_SHA256 => 0xc06e,
            rustls_cipersuite::TLS_RSA_PSK_WITH_ARIA_256_GCM_SHA384 => 0xc06f,
            rustls_cipersuite::TLS_ECDHE_PSK_WITH_ARIA_128_CBC_SHA256 => 0xc070,
            rustls_cipersuite::TLS_ECDHE_PSK_WITH_ARIA_256_CBC_SHA384 => 0xc071,
            rustls_cipersuite::TLS_ECDHE_ECDSA_WITH_CAMELLIA_128_CBC_SHA256 => 0xc072,
            rustls_cipersuite::TLS_ECDHE_ECDSA_WITH_CAMELLIA_256_CBC_SHA384 => 0xc073,
            rustls_cipersuite::TLS_ECDH_ECDSA_WITH_CAMELLIA_128_CBC_SHA256 => 0xc074,
            rustls_cipersuite::TLS_ECDH_ECDSA_WITH_CAMELLIA_256_CBC_SHA384 => 0xc075,
            rustls_cipersuite::TLS_ECDHE_RSA_WITH_CAMELLIA_128_CBC_SHA256 => 0xc076,
            rustls_cipersuite::TLS_ECDHE_RSA_WITH_CAMELLIA_256_CBC_SHA384 => 0xc077,
            rustls_cipersuite::TLS_ECDH_RSA_WITH_CAMELLIA_128_CBC_SHA256 => 0xc078,
            rustls_cipersuite::TLS_ECDH_RSA_WITH_CAMELLIA_256_CBC_SHA384 => 0xc079,
            rustls_cipersuite::TLS_RSA_WITH_CAMELLIA_128_GCM_SHA256 => 0xc07a,
            rustls_cipersuite::TLS_RSA_WITH_CAMELLIA_256_GCM_SHA384 => 0xc07b,
            rustls_cipersuite::TLS_DHE_RSA_WITH_CAMELLIA_128_GCM_SHA256 => 0xc07c,
            rustls_cipersuite::TLS_DHE_RSA_WITH_CAMELLIA_256_GCM_SHA384 => 0xc07d,
            rustls_cipersuite::TLS_DH_RSA_WITH_CAMELLIA_128_GCM_SHA256 => 0xc07e,
            rustls_cipersuite::TLS_DH_RSA_WITH_CAMELLIA_256_GCM_SHA384 => 0xc07f,
            rustls_cipersuite::TLS_DHE_DSS_WITH_CAMELLIA_128_GCM_SHA256 => 0xc080,
            rustls_cipersuite::TLS_DHE_DSS_WITH_CAMELLIA_256_GCM_SHA384 => 0xc081,
            rustls_cipersuite::TLS_DH_DSS_WITH_CAMELLIA_128_GCM_SHA256 => 0xc082,
            rustls_cipersuite::TLS_DH_DSS_WITH_CAMELLIA_256_GCM_SHA384 => 0xc083,
            rustls_cipersuite::TLS_DH_anon_WITH_CAMELLIA_128_GCM_SHA256 => 0xc084,
            rustls_cipersuite::TLS_DH_anon_WITH_CAMELLIA_256_GCM_SHA384 => 0xc085,
            rustls_cipersuite::TLS_ECDHE_ECDSA_WITH_CAMELLIA_128_GCM_SHA256 => 0xc086,
            rustls_cipersuite::TLS_ECDHE_ECDSA_WITH_CAMELLIA_256_GCM_SHA384 => 0xc087,
            rustls_cipersuite::TLS_ECDH_ECDSA_WITH_CAMELLIA_128_GCM_SHA256 => 0xc088,
            rustls_cipersuite::TLS_ECDH_ECDSA_WITH_CAMELLIA_256_GCM_SHA384 => 0xc089,
            rustls_cipersuite::TLS_ECDHE_RSA_WITH_CAMELLIA_128_GCM_SHA256 => 0xc08a,
            rustls_cipersuite::TLS_ECDHE_RSA_WITH_CAMELLIA_256_GCM_SHA384 => 0xc08b,
            rustls_cipersuite::TLS_ECDH_RSA_WITH_CAMELLIA_128_GCM_SHA256 => 0xc08c,
            rustls_cipersuite::TLS_ECDH_RSA_WITH_CAMELLIA_256_GCM_SHA384 => 0xc08d,
            rustls_cipersuite::TLS_PSK_WITH_CAMELLIA_128_GCM_SHA256 => 0xc08e,
            rustls_cipersuite::TLS_PSK_WITH_CAMELLIA_256_GCM_SHA384 => 0xc08f,
            rustls_cipersuite::TLS_DHE_PSK_WITH_CAMELLIA_128_GCM_SHA256 => 0xc090,
            rustls_cipersuite::TLS_DHE_PSK_WITH_CAMELLIA_256_GCM_SHA384 => 0xc091,
            rustls_cipersuite::TLS_RSA_PSK_WITH_CAMELLIA_128_GCM_SHA256 => 0xc092,
            rustls_cipersuite::TLS_RSA_PSK_WITH_CAMELLIA_256_GCM_SHA384 => 0xc093,
            rustls_cipersuite::TLS_PSK_WITH_CAMELLIA_128_CBC_SHA256 => 0xc094,
            rustls_cipersuite::TLS_PSK_WITH_CAMELLIA_256_CBC_SHA384 => 0xc095,
            rustls_cipersuite::TLS_DHE_PSK_WITH_CAMELLIA_128_CBC_SHA256 => 0xc096,
            rustls_cipersuite::TLS_DHE_PSK_WITH_CAMELLIA_256_CBC_SHA384 => 0xc097,
            rustls_cipersuite::TLS_RSA_PSK_WITH_CAMELLIA_128_CBC_SHA256 => 0xc098,
            rustls_cipersuite::TLS_RSA_PSK_WITH_CAMELLIA_256_CBC_SHA384 => 0xc099,
            rustls_cipersuite::TLS_ECDHE_PSK_WITH_CAMELLIA_128_CBC_SHA256 => 0xc09a,
            rustls_cipersuite::TLS_ECDHE_PSK_WITH_CAMELLIA_256_CBC_SHA384 => 0xc09b,
            rustls_cipersuite::TLS_RSA_WITH_AES_128_CCM => 0xc09c,
            rustls_cipersuite::TLS_RSA_WITH_AES_256_CCM => 0xc09d,
            rustls_cipersuite::TLS_DHE_RSA_WITH_AES_128_CCM => 0xc09e,
            rustls_cipersuite::TLS_DHE_RSA_WITH_AES_256_CCM => 0xc09f,
            rustls_cipersuite::TLS_RSA_WITH_AES_128_CCM_8 => 0xc0a0,
            rustls_cipersuite::TLS_RSA_WITH_AES_256_CCM_8 => 0xc0a1,
            rustls_cipersuite::TLS_DHE_RSA_WITH_AES_128_CCM_8 => 0xc0a2,
            rustls_cipersuite::TLS_DHE_RSA_WITH_AES_256_CCM_8 => 0xc0a3,
            rustls_cipersuite::TLS_PSK_WITH_AES_128_CCM => 0xc0a4,
            rustls_cipersuite::TLS_PSK_WITH_AES_256_CCM => 0xc0a5,
            rustls_cipersuite::TLS_DHE_PSK_WITH_AES_128_CCM => 0xc0a6,
            rustls_cipersuite::TLS_DHE_PSK_WITH_AES_256_CCM => 0xc0a7,
            rustls_cipersuite::TLS_PSK_WITH_AES_128_CCM_8 => 0xc0a8,
            rustls_cipersuite::TLS_PSK_WITH_AES_256_CCM_8 => 0xc0a9,
            rustls_cipersuite::TLS_PSK_DHE_WITH_AES_128_CCM_8 => 0xc0aa,
            rustls_cipersuite::TLS_PSK_DHE_WITH_AES_256_CCM_8 => 0xc0ab,
            rustls_cipersuite::TLS_ECDHE_RSA_WITH_CHACHA20_POLY1305_SHA256 => 0xcca8,
            rustls_cipersuite::TLS_ECDHE_ECDSA_WITH_CHACHA20_POLY1305_SHA256 => 0xcca9,
            rustls_cipersuite::TLS_DHE_RSA_WITH_CHACHA20_POLY1305_SHA256 => 0xccaa,
            rustls_cipersuite::TLS_PSK_WITH_CHACHA20_POLY1305_SHA256 => 0xccab,
            rustls_cipersuite::TLS_ECDHE_PSK_WITH_CHACHA20_POLY1305_SHA256 => 0xccac,
            rustls_cipersuite::TLS_DHE_PSK_WITH_CHACHA20_POLY1305_SHA256 => 0xccad,
            rustls_cipersuite::TLS_RSA_PSK_WITH_CHACHA20_POLY1305_SHA256 => 0xccae,
            rustls_cipersuite::SSL_RSA_FIPS_WITH_DES_CBC_SHA => 0xfefe,
            rustls_cipersuite::SSL_RSA_FIPS_WITH_3DES_EDE_CBC_SHA => 0xfeff,
        }
    }
}

/// A suite of the registry is told by its number: two suites with one number
/// are the same suite.
pub proof fn lemma_cipher_suite_number_is_unique(a: rustls_cipersuite, b: rustls_cipersuite)
    requires
        a.spec_get_u16() == b.spec_get_u16(),
    ensures
        a == b,
{
}

} // verus!
