use plane::proxy::cert_pair::{CertPairError, CertificatePair};

/// A self-signed certificate for `test.example.com`, valid for 30 days, as DER.
const CERT_DER: [u8; 398] = [
    0x30, 0x82, 0x01, 0x8a, 0x30, 0x82, 0x01, 0x31, 0xa0, 0x03, 0x02, 0x01, 0x02, 0x02, 0x14, 0x10,
    0xc0, 0x28, 0x9a, 0x44, 0xc9, 0x4a, 0x12, 0x11, 0xb5, 0x3b, 0xeb, 0x76, 0x9c, 0xf6, 0x86, 0x89,
    0x50, 0x11, 0x83, 0x30, 0x0a, 0x06, 0x08, 0x2a, 0x86, 0x48, 0xce, 0x3d, 0x04, 0x03, 0x02, 0x30,
    0x1b, 0x31, 0x19, 0x30, 0x17, 0x06, 0x03, 0x55, 0x04, 0x03, 0x0c, 0x10, 0x74, 0x65, 0x73, 0x74,
    0x2e, 0x65, 0x78, 0x61, 0x6d, 0x70, 0x6c, 0x65, 0x2e, 0x63, 0x6f, 0x6d, 0x30, 0x1e, 0x17, 0x0d,
    0x32, 0x36, 0x31, 0x31, 0x31, 0x37, 0x30, 0x35, 0x34, 0x31, 0x31, 0x37, 0x5a, 0x17, 0x0d, 0x32,
    0x36, 0x31, 0x32, 0x31, 0x37, 0x30, 0x35, 0x34, 0x31, 0x31, 0x37, 0x5a, 0x30, 0x1b, 0x31, 0x19,
    0x30, 0x17, 0x06, 0x03, 0x55, 0x04, 0x03, 0x0c, 0x10, 0x74, 0x65, 0x73, 0x74, 0x2e, 0x65, 0x78,
    0x61, 0x6d, 0x70, 0x6c, 0x65, 0x2e, 0x63, 0x6f, 0x6d, 0x30, 0x59, 0x30, 0x13, 0x06, 0x07, 0x2a,
    0x86, 0x48, 0xce, 0x3d, 0x02, 0x01, 0x06, 0x08, 0x2a, 0x86, 0x48, 0xce, 0x3d, 0x03, 0x01, 0x07,
    0x03, 0x42, 0x00, 0x04, 0x1c, 0x52, 0x05, 0xdb, 0x1d, 0x3c, 0x05, 0x29, 0x74, 0xa0, 0xbb, 0xe6,
    0x8a, 0xc4, 0xbe, 0x45, 0xde, 0x6a, 0x59, 0x4c, 0xae, 0xc9, 0x27, 0xdb, 0xe9, 0xe4, 0x67, 0x6a,
    0xaf, 0xb0, 0x45, 0x08, 0xf8, 0x0a, 0x30, 0x5a, 0xeb, 0x37, 0xb6, 0x03, 0xcc, 0xe8, 0xf5, 0xe1,
    0xa0, 0x65, 0xe4, 0x66, 0x64, 0x62, 0x56, 0x93, 0x4e, 0x14, 0xab, 0xad, 0xa6, 0xc9, 0xed, 0x64,
    0xa5, 0x10, 0x8e, 0x4b, 0xa3, 0x53, 0x30, 0x51, 0x30, 0x1d, 0x06, 0x03, 0x55, 0x1d, 0x0e, 0x04,
    0x16, 0x04, 0x14, 0x72, 0x2c, 0xb3, 0x9f, 0x08, 0x35, 0x4f, 0xd1, 0x4c, 0x16, 0x0f, 0x15, 0x25,
    0x1d, 0x66, 0x92, 0x5e, 0x8b, 0x07, 0xd8, 0x30, 0x1f, 0x06, 0x03, 0x55, 0x1d, 0x23, 0x04, 0x18,
    0x30, 0x16, 0x80, 0x14, 0x72, 0x2c, 0xb3, 0x9f, 0x08, 0x35, 0x4f, 0xd1, 0x4c, 0x16, 0x0f, 0x15,
    0x25, 0x1d, 0x66, 0x92, 0x5e, 0x8b, 0x07, 0xd8, 0x30, 0x0f, 0x06, 0x03, 0x55, 0x1d, 0x13, 0x01,
    0x01, 0xff, 0x04, 0x05, 0x30, 0x03, 0x01, 0x01, 0xff, 0x30, 0x0a, 0x06, 0x08, 0x2a, 0x86, 0x48,
    0xce, 0x3d, 0x04, 0x03, 0x02, 0x03, 0x47, 0x00, 0x30, 0x44, 0x02, 0x20, 0x64, 0xb1, 0x8f, 0xee,
    0x8d, 0xaa, 0xb6, 0x19, 0x0e, 0xc5, 0x47, 0x2f, 0xf5, 0xfd, 0xef, 0x95, 0xf1, 0xe1, 0x20, 0x51,
    0x8e, 0x53, 0x6d, 0x97, 0x15, 0x36, 0x35, 0xc5, 0x46, 0xb7, 0xfc, 0xb0, 0x02, 0x20, 0x4d, 0xf6,
    0x4f, 0x02, 0xa1, 0x03, 0xa4, 0x02, 0xda, 0x4d, 0x98, 0x38, 0xc4, 0x12, 0xb7, 0x20, 0x2b, 0x53,
    0xb7, 0x01, 0x6f, 0x93, 0x7b, 0xa0, 0x2b, 0x67, 0x66, 0x7f, 0x57, 0xc3, 0x79, 0xdd,
];

/// A certificate whose subject has an organization but no common name, as DER.
const CERT_WITHOUT_CN_DER: [u8; 392] = [
    0x30, 0x82, 0x01, 0x84, 0x30, 0x82, 0x01, 0x29, 0xa0, 0x03, 0x02, 0x01, 0x02, 0x02, 0x14, 0x49,
    0xd4, 0x65, 0xa8, 0x19, 0xe6, 0xd6, 0xa4, 0x89, 0x09, 0xfc, 0xe6, 0x35, 0x19, 0xd2, 0x35, 0x87,
    0x7f, 0x8d, 0xc7, 0x30, 0x0a, 0x06, 0x08, 0x2a, 0x86, 0x48, 0xce, 0x3d, 0x04, 0x03, 0x02, 0x30,
    0x17, 0x31, 0x15, 0x30, 0x13, 0x06, 0x03, 0x55, 0x04, 0x0a, 0x0c, 0x0c, 0x4e, 0x6f, 0x43, 0x6f,
    0x6d, 0x6d, 0x6f, 0x6e, 0x4e, 0x61, 0x6d, 0x65, 0x30, 0x1e, 0x17, 0x0d, 0x32, 0x36, 0x31, 0x31,
    0x31, 0x37, 0x30, 0x35, 0x34, 0x31, 0x31, 0x37, 0x5a, 0x17, 0x0d, 0x32, 0x36, 0x31, 0x32, 0x31,
    0x37, 0x30, 0x35, 0x34, 0x31, 0x31, 0x37, 0x5a, 0x30, 0x17, 0x31, 0x15, 0x30, 0x13, 0x06, 0x03,
    0x55, 0x04, 0x0a, 0x0c, 0x0c, 0x4e, 0x6f, 0x43, 0x6f, 0x6d, 0x6d, 0x6f, 0x6e, 0x4e, 0x61, 0x6d,
    0x65, 0x30, 0x59, 0x30, 0x13, 0x06, 0x07, 0x2a, 0x86, 0x48, 0xce, 0x3d, 0x02, 0x01, 0x06, 0x08,
    0x2a, 0x86, 0x48, 0xce, 0x3d, 0x03, 0x01, 0x07, 0x03, 0x42, 0x00, 0x04, 0x88, 0x58, 0x93, 0x6e,
    0x0c, 0xf0, 0x93, 0x09, 0x9a, 0x59, 0x9e, 0x27, 0x6a, 0x92, 0xe7, 0xa0, 0x45, 0x30, 0x97, 0xf2,
    0x03, 0x27, 0x27, 0xe3, 0x09, 0xb5, 0x34, 0x07, 0xf3, 0x9c, 0x34, 0x27, 0xfc, 0x17, 0x77, 0xad,
    0x4c, 0x8e, 0xb6, 0xee, 0x64, 0x4d, 0x05, 0xc9, 0xa9, 0xb8, 0x0f, 0x91, 0xa8, 0x0b, 0xd3, 0xf6,
    0xcd, 0x46, 0xba, 0x93, 0x45, 0x31, 0xc4, 0x89, 0x55, 0x73, 0x21, 0x64, 0xa3, 0x53, 0x30, 0x51,
    0x30, 0x1d, 0x06, 0x03, 0x55, 0x1d, 0x0e, 0x04, 0x16, 0x04, 0x14, 0x4c, 0xf4, 0xe0, 0x6d, 0x21,
    0xf7, 0x87, 0xa8, 0x49, 0xf8, 0x12, 0x5d, 0x9e, 0x8b, 0x2b, 0x4f, 0x65, 0xf6, 0xcd, 0x50, 0x30,
    0x1f, 0x06, 0x03, 0x55, 0x1d, 0x23, 0x04, 0x18, 0x30, 0x16, 0x80, 0x14, 0x4c, 0xf4, 0xe0, 0x6d,
    0x21, 0xf7, 0x87, 0xa8, 0x49, 0xf8, 0x12, 0x5d, 0x9e, 0x8b, 0x2b, 0x4f, 0x65, 0xf6, 0xcd, 0x50,
    0x30, 0x0f, 0x06, 0x03, 0x55, 0x1d, 0x13, 0x01, 0x01, 0xff, 0x04, 0x05, 0x30, 0x03, 0x01, 0x01,
    0xff, 0x30, 0x0a, 0x06, 0x08, 0x2a, 0x86, 0x48, 0xce, 0x3d, 0x04, 0x03, 0x02, 0x03, 0x49, 0x00,
    0x30, 0x46, 0x02, 0x21, 0x00, 0xcd, 0xca, 0xdf, 0xc9, 0x8a, 0xfc, 0x15, 0x81, 0x3f, 0x54, 0x03,
    0x2c, 0x7f, 0xc4, 0xc0, 0x45, 0xdb, 0xf7, 0x84, 0x17, 0x08, 0x8d, 0x17, 0xdd, 0xcc, 0x4b, 0xd2,
    0x88, 0x23, 0xba, 0xda, 0xab, 0x02, 0x21, 0x00, 0xf2, 0xbc, 0x4e, 0x60, 0xd4, 0x6b, 0x5d, 0x1d,
    0x10, 0x39, 0x3c, 0x87, 0xa8, 0xdc, 0x71, 0xbd, 0x01, 0x1b, 0x82, 0x66, 0xa8, 0xca, 0x23, 0x62,
    0xe2, 0x0b, 0x0d, 0x54, 0xe9, 0xb0, 0xa3, 0x8a,
];

/// Key bytes: the pair keeps them as they are and does not look inside.
const KEY_DER: [u8; 4] = [1, 2, 3, 4];

#[test]
fn cert_pair_reads_common_name_and_validity() {
    let pair = CertificatePair::from_raw_ders(&KEY_DER, &[CERT_DER.to_vec()]).unwrap();
    assert_eq!(pair.common_name, "test.example.com");
    assert_eq!(pair.validity_start, 1794894077);
    assert_eq!(pair.validity_end, 1797486077);
    assert_eq!(pair.validity_end - pair.validity_start, 30 * 86400);
    assert_eq!(pair.cert_ders, vec![CERT_DER.to_vec()]);
    assert_eq!(pair.private_key_der, KEY_DER.to_vec());
}

#[test]
fn cert_pair_pem_round_trip() {
    let pair = CertificatePair::from_raw_ders(&KEY_DER, &[CERT_DER.to_vec()]).unwrap();
    let (cert, key) = pair.to_pems();
    assert!(cert.starts_with("-----BEGIN CERTIFICATE-----\r\n"));
    assert!(key.starts_with(&format!("-----BEGIN {}-----\r\n", ["PRIVATE", "KEY"].join(" "))));
    let again = CertificatePair::from_pems(&cert, &key).unwrap();
    assert_eq!(again.cert_ders, pair.cert_ders);
    assert_eq!(again.private_key_der, KEY_DER.to_vec());
    assert_eq!(again.common_name, "test.example.com");
    assert_eq!(again.validity_end, pair.validity_end);
}

#[test]
fn cert_pair_errors() {
    let (cert_pem, key_pem) = CertificatePair::from_raw_ders(&KEY_DER, &[CERT_DER.to_vec()]).unwrap().to_pems();
    assert_eq!(
        CertificatePair::from_raw_ders(&KEY_DER, &[CERT_WITHOUT_CN_DER.to_vec()]).unwrap_err(),
        CertPairError::NoCommonName
    );
    assert_eq!(CertificatePair::from_pems("", &key_pem).unwrap_err(), CertPairError::NoCertificate);
    assert_eq!(CertificatePair::from_pems(&cert_pem, "").unwrap_err(), CertPairError::NoPrivateKey);
    assert_eq!(CertificatePair::from_raw_ders(&KEY_DER, &[]).unwrap_err(), CertPairError::NoCertificate);
    let err = CertificatePair::from_raw_ders(&KEY_DER, &[vec![1, 2, 3]]).unwrap_err();
    assert!(matches!(err, CertPairError::InvalidCertificate(_)));
    assert_eq!(CertPairError::NoCertificate.to_string(), "Error getting first cert.");
    assert_eq!(CertPairError::NoCommonName.to_string(), "No common name found");
    assert_eq!(CertPairError::NoPrivateKey.to_string(), "No private key found.");
}
