use tropic01_hal::cert::Cert;

/// A self-signed Ed25519 certificate for `C=DE, CN=www.example.com`.
const ED25519_CERT_HEX: &str = "308201083081bb021477e5f4c03488a1226cf5cd45f3cdf04991f81543300506032b65703027310b30090603550406130244453118301606035504030c0f7777772e6578616d706c652e636f6d301e170d3231303732373132333731345a170d3233303632373132333731345a3027310b30090603550406130244453118301606035504030c0f7777772e6578616d706c652e636f6d302a300506032b65700321003ea405d2ef19f5e0abf33e4df54ee51d0544793d98e2672537f4ffcaf860984c300506032b657003410020db7ae6fac288e959f46acab2d72c480d55bc0f27573252683fe801aa9e83d223c3b48c1793706bde0dc4aa3671c88383b1e41a6e528bd6bc02a626ea8dd502";

fn der() -> Vec<u8> {
    (0..ED25519_CERT_HEX.len() / 2)
        .map(|i| u8::from_str_radix(&ED25519_CERT_HEX[2 * i..2 * i + 2], 16).unwrap())
        .collect()
}

#[test]
fn cert_from_der_keeps_the_first_len_bytes() {
    let mut bytes = der();
    let len = bytes.len();
    bytes.extend_from_slice(&[0xFF; 8]);
    let cert = Cert::from_der(&bytes, len).expect("parses");
    assert_eq!(cert.len, len);
    assert_eq!(cert.der, der());
}

#[test]
fn cert_serial_and_subject() {
    let bytes = der();
    let cert = Cert::from_der(&bytes, bytes.len()).unwrap();
    assert_eq!(cert.serial_hex(), "77e5f4c03488a1226cf5cd45f3cdf04991f81543");
    assert_eq!(cert.subject(), "C=DE, CN=www.example.com");
}

#[test]
fn cert_hex_is_the_der_in_lowercase() {
    let bytes = der();
    let cert = Cert::from_der(&bytes, bytes.len()).unwrap();
    assert_eq!(cert.to_hex(), ED25519_CERT_HEX);
}

#[test]
fn cert_pem_wraps_base64_of_the_der() {
    let cert = Cert { der: vec![1, 2, 3, 4], len: 3 };
    assert_eq!(cert.to_pem(), "-----BEGIN CERTIFICATE-----\r\nAQID\r\n-----END CERTIFICATE-----\r\n");
}

#[test]
fn cert_refuses_bytes_that_are_no_certificate() {
    let r = Cert::from_der(b"DEVICE_CERT_PLACEHOLDER", 23);
    assert_eq!(r.unwrap_err(), "Failed to parse DER");
    let bytes = der();
    assert!(Cert::from_der(&bytes, bytes.len() - 1).is_err());
}
