use genny::config::TlsConfig;
use genny::tls::{check_outcome, get_priv_key_from_pem, get_pub_cert_chain_from_pem, CertCheck, TlsError, TlsMaterial};

const KEY_A_DER: &[u8] = &[
    0x30, 0x81, 0x87, 0x02, 0x01, 0x00, 0x30, 0x13, 0x06, 0x07, 0x2a, 0x86,
    0x48, 0xce, 0x3d, 0x02, 0x01, 0x06, 0x08, 0x2a, 0x86, 0x48, 0xce, 0x3d,
    0x03, 0x01, 0x07, 0x04, 0x6d, 0x30, 0x6b, 0x02, 0x01, 0x01, 0x04, 0x20,
    0x5a, 0x3f, 0x86, 0x68, 0x7c, 0x39, 0x22, 0x90, 0xbf, 0xb6, 0x4a, 0xf2,
    0x3e, 0x7c, 0x24, 0xbc, 0x77, 0x8e, 0xc7, 0xb9, 0x6d, 0x96, 0xe4, 0xfc,
    0x41, 0x03, 0xb5, 0x24, 0xb3, 0x5e, 0x93, 0xac, 0xa1, 0x44, 0x03, 0x42,
    0x00, 0x04, 0xf4, 0xf1, 0xca, 0x7f, 0x97, 0xc5, 0x88, 0x49, 0x5e, 0x1b,
    0x3d, 0x00, 0xd3, 0xdc, 0x6f, 0x4c, 0x40, 0x7a, 0x10, 0xda, 0x4c, 0x69,
    0x19, 0xe9, 0xe2, 0xdd, 0xbc, 0x37, 0x0e, 0x9a, 0x18, 0x28, 0x6e, 0x87,
    0x7a, 0xf0, 0x3d, 0xd9, 0xae, 0xdf, 0x30, 0x77, 0xfe, 0x52, 0x7c, 0xfb,
    0x51, 0xa8, 0x0c, 0xf1, 0xf2, 0x0c, 0xbd, 0x30, 0x5b, 0xe0, 0x29, 0xb9,
    0xce, 0x56, 0x3d, 0x41, 0x76, 0x23,
];

const KEY_B_DER: &[u8] = &[
    0x30, 0x81, 0x87, 0x02, 0x01, 0x00, 0x30, 0x13, 0x06, 0x07, 0x2a, 0x86,
    0x48, 0xce, 0x3d, 0x02, 0x01, 0x06, 0x08, 0x2a, 0x86, 0x48, 0xce, 0x3d,
    0x03, 0x01, 0x07, 0x04, 0x6d, 0x30, 0x6b, 0x02, 0x01, 0x01, 0x04, 0x20,
    0x85, 0x20, 0xc0, 0xfb, 0x96, 0x03, 0xc4, 0x65, 0xff, 0x90, 0xf0, 0xfd,
    0x83, 0x31, 0x06, 0x48, 0x79, 0x1d, 0xa3, 0xdc, 0x4b, 0xc4, 0x3a, 0x0d,
    0x00, 0x80, 0xd2, 0x00, 0x75, 0x45, 0xdc, 0x96, 0xa1, 0x44, 0x03, 0x42,
    0x00, 0x04, 0x46, 0x00, 0xe5, 0x2b, 0xd8, 0xaa, 0x1d, 0x33, 0x32, 0x62,
    0xcc, 0x35, 0x12, 0xf1, 0x77, 0x20, 0xda, 0xde, 0x38, 0x32, 0x65, 0xd4,
    0xce, 0x06, 0xc9, 0x05, 0x9d, 0x71, 0xc6, 0xbc, 0xee, 0x7e, 0xbd, 0x3f,
    0xe6, 0x86, 0x2d, 0x25, 0x58, 0x17, 0xe2, 0xa8, 0x4f, 0xfb, 0xe5, 0xd9,
    0x22, 0x8a, 0xe7, 0x81, 0xc1, 0x8c, 0x12, 0x4d, 0x24, 0x0c, 0x6a, 0x47,
    0x1c, 0x82, 0x8b, 0x8d, 0x21, 0xbc,
];

fn base64(data: &[u8]) -> String {
    let table = b"ABCDEFGHIJKLMNOPQRSTUVWXYZabcdefghijklmnopqrstuvwxyz0123456789+/";
    let mut out = String::new();
    for chunk in data.chunks(3) {
        let b = [chunk[0], *chunk.get(1).unwrap_or(&0), *chunk.get(2).unwrap_or(&0)];
        let n = (u32::from(b[0]) << 16) | (u32::from(b[1]) << 8) | u32::from(b[2]);
        for i in 0..4 {
            if i <= chunk.len() {
                out.push(table[((n >> (18 - 6 * i)) & 63) as usize] as char);
            } else {
                out.push('=');
            }
        }
    }
    out
}

/// PEM text of a PKCS#8 key given as DER.
fn key_pem(der: &[u8]) -> String {
    let label = format!("{} {}", "PRIVATE", "KEY");
    let body = base64(der);
    let mut pem = format!("-----BEGIN {label}-----\n");
    for line in body.as_bytes().chunks(64) {
        pem.push_str(std::str::from_utf8(line).unwrap());
        pem.push('\n');
    }
    pem.push_str(&format!("-----END {label}-----\n"));
    pem
}

const CERT_A: &str = "-----BEGIN CERTIFICATE-----
MIIBfzCCASWgAwIBAgIURMciyN5uF6gViv2OYSVUQy3O8TQwCgYIKoZIzj0EAwIw
FDESMBAGA1UEAwwJbG9jYWxob3N0MCAXDTI2MTAxOTEyNDgzMFoYDzIxMjYwOTI1
MTI0ODMwWjAUMRIwEAYDVQQDDAlsb2NhbGhvc3QwWTATBgcqhkjOPQIBBggqhkjO
PQMBBwNCAAT08cp/l8WISV4bPQDT3G9MQHoQ2kxpGeni3bw3DpoYKG6HevA92a7f
MHf+Unz7UagM8fIMvTBb4Cm5zlY9QXYjo1MwUTAdBgNVHQ4EFgQUOuyezZI07MD2
ZOCRbLCFOfcl1JEwHwYDVR0jBBgwFoAUOuyezZI07MD2ZOCRbLCFOfcl1JEwDwYD
VR0TAQH/BAUwAwEB/zAKBggqhkjOPQQDAgNIADBFAiEA7mnri7D5gPRM5YEoxPO+
9cV768A/twIldGBkRzKTaNsCIC0C7rQlHTt4FY1lBR+MDTdN+DINvNEwI//mcDgW
kXcQ
-----END CERTIFICATE-----
";

const CERT_B: &str = "-----BEGIN CERTIFICATE-----
MIIBfzCCASWgAwIBAgIUIOZI8d/CgXOlPjoyGOXhsX6TFewwCgYIKoZIzj0EAwIw
FDESMBAGA1UEAwwJbG9jYWxob3N0MCAXDTI2MTAxOTEyNDgzMFoYDzIxMjYwOTI1
MTI0ODMwWjAUMRIwEAYDVQQDDAlsb2NhbGhvc3QwWTATBgcqhkjOPQIBBggqhkjO
PQMBBwNCAARGAOUr2KodMzJizDUS8Xcg2t44MmXUzgbJBZ1xxrzufr0/5oYtJVgX
4qhP++XZIorngcGMEk0kDGpHHIKLjSG8o1MwUTAdBgNVHQ4EFgQUfS5bbfkzigTz
rB/DOVCMtxwCirMwHwYDVR0jBBgwFoAUfS5bbfkzigTzrB/DOVCMtxwCirMwDwYD
VR0TAQH/BAUwAwEB/zAKBggqhkjOPQQDAgNIADBFAiAg2Y0NgnQsO7JjDNuLt+1V
vUMjZ7S4IwnnOl9iUUYkeAIhAPOz0RGKmgujdPWFhjgDVdjxW4/6IWF46jpgEucj
vg/m
-----END CERTIFICATE-----
";

fn load_err(key: &str, cert: &str) -> TlsError {
    match TlsMaterial::load(key.as_bytes(), cert.as_bytes()) {
        Ok(_) => panic!("material was accepted"),
        Err(e) => e,
    }
}

#[test]
fn matching_pair_loads() {
    assert!(TlsMaterial::load(key_pem(KEY_A_DER).as_bytes(), CERT_A.as_bytes()).is_ok());
    assert!(TlsMaterial::load(key_pem(KEY_B_DER).as_bytes(), CERT_B.as_bytes()).is_ok());
}

#[test]
fn mismatched_pair_is_refused() {
    assert_eq!(load_err(&key_pem(KEY_A_DER), CERT_B), TlsError::KeyCertMismatch);
    assert_eq!(load_err(&key_pem(KEY_B_DER), CERT_A), TlsError::KeyCertMismatch);
}

#[test]
fn key_without_pem_section_is_invalid() {
    assert_eq!(load_err("not a key", CERT_A), TlsError::InvalidKey);
    assert_eq!(load_err(CERT_A, CERT_A), TlsError::InvalidKey);
}

#[test]
fn certificate_that_does_not_parse_is_invalid() {
    let bad = "-----BEGIN CERTIFICATE-----\nAAAA\n-----END CERTIFICATE-----\n";
    assert_eq!(load_err(&key_pem(KEY_A_DER), bad), TlsError::InvalidCertificate);
    assert_eq!(load_err(&key_pem(KEY_A_DER), ""), TlsError::InvalidCertificate);
}

#[test]
fn private_key_pem_gives_der() {
    let pem = key_pem(KEY_A_DER);
    let der = get_priv_key_from_pem(pem.as_bytes()).unwrap();
    assert_eq!(der, KEY_A_DER.to_vec());
    assert_ne!(der, pem.as_bytes().to_vec());
    assert_eq!(get_priv_key_from_pem(b"nothing"), Err(TlsError::InvalidKey));
}

#[test]
fn certificate_pem_gives_der_chain() {
    let both = format!("{}{}", CERT_A, CERT_B);
    let chain = get_pub_cert_chain_from_pem(both.as_bytes()).unwrap();
    assert_eq!(chain.len(), 2);
    assert_eq!(chain[0][0], 0x30);
    assert_ne!(chain[0], chain[1]);
    assert_eq!(get_pub_cert_chain_from_pem(b"").unwrap().len(), 0);
}

#[test]
fn config_with_missing_part_is_incomplete() {
    let key = get_priv_key_from_pem(key_pem(KEY_A_DER).as_bytes()).unwrap();
    let only_key = TlsConfig { tls_priv_key: Some(key), tls_pub_cert: None };
    assert_eq!(TlsMaterial::try_from_config(only_key).err(), Some(TlsError::Incomplete));
    let none = TlsConfig { tls_priv_key: None, tls_pub_cert: None };
    assert_eq!(TlsMaterial::try_from_config(none).err(), Some(TlsError::Incomplete));
}

#[test]
fn config_from_der_is_judged_by_rustls() {
    let key = get_priv_key_from_pem(key_pem(KEY_A_DER).as_bytes()).unwrap();
    let chain = get_pub_cert_chain_from_pem(CERT_A.as_bytes()).unwrap();
    let ok = TlsConfig { tls_priv_key: Some(key.clone()), tls_pub_cert: Some(chain) };
    assert!(TlsMaterial::try_from_config(ok).is_ok());
    let empty = TlsConfig { tls_priv_key: Some(key), tls_pub_cert: Some(vec![]) };
    assert_eq!(TlsMaterial::try_from_config(empty).err(), Some(TlsError::InvalidCertificate));
    let junk_key = TlsConfig {
        tls_priv_key: Some(vec![1, 2, 3]),
        tls_pub_cert: Some(get_pub_cert_chain_from_pem(CERT_A.as_bytes()).unwrap()),
    };
    assert_eq!(TlsMaterial::try_from_config(junk_key).err(), Some(TlsError::InvalidKey));
}

#[test]
fn outcome_of_each_check() {
    assert_eq!(check_outcome(CertCheck::Accepted), Ok(()));
    assert_eq!(check_outcome(CertCheck::KeyRejected), Err(TlsError::InvalidKey));
    assert_eq!(check_outcome(CertCheck::ChainRejected), Err(TlsError::InvalidCertificate));
    assert_eq!(check_outcome(CertCheck::Mismatch), Err(TlsError::KeyCertMismatch));
}
