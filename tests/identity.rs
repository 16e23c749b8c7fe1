use rust_ssl_proxy::{bundle_path, load_certified_key, parse_bundle, LoadError, ResolveSSL};


/// Standard base64 with padding, for writing PEM sections in the tests.
fn base64(data: &[u8]) -> String {
    let table = b"ABCDEFGHIJKLMNOPQRSTUVWXYZabcdefghijklmnopqrstuvwxyz0123456789+/";
    let mut out = String::new();
    for chunk in data.chunks(3) {
        let b = [chunk[0], *chunk.get(1).unwrap_or(&0), *chunk.get(2).unwrap_or(&0)];
        let n = ((b[0] as u32) << 16) | ((b[1] as u32) << 8) | (b[2] as u32);
        for i in 0..4 {
            if i <= chunk.len() {
                out.push(table[((n >> (18 - 6 * i)) & 63) as usize] as char);
            } else {
                out.push('=');
            }
        }
    }
    out
}

/// A PEM section of the given label holding `der`.
fn pem_section(label: &str, der: &[u8]) -> String {
    format!("-----BEGIN {}-----\n{}\n-----END {}-----\n", label, base64(der), label)
}

/// A PKCS#8 Ed25519 private key whose seed is the bytes 1 to 32.
fn ed25519_der() -> Vec<u8> {
    let mut der = vec![0x30, 0x2e, 0x02, 0x01, 0x00, 0x30, 0x05, 0x06, 0x03, 0x2b, 0x65, 0x70, 0x04, 0x22, 0x04, 0x20];
    der.extend(1u8..=32);
    der
}

fn ed25519_key() -> String {
    pem_section(&["PRIVATE", "KEY"].join(" "), &ed25519_der())
}

fn leaf() -> String {
    pem_section("CERTIFICATE", &[0x30, 0x03, 0x02, 0x01, 0x01])
}

fn second_cert() -> String {
    pem_section("CERTIFICATE", &[0x30, 0x03, 0x02, 0x01, 0x02])
}

fn junk_key() -> String {
    pem_section(&["PRIVATE", "KEY"].join(" "), &[1, 2, 3, 4])
}

fn bundle(parts: &[&str]) -> Vec<u8> {
    parts.concat().into_bytes()
}

#[test]
fn test_resolvessl_get() {
    // setup test cert pathing
    let domain = "1.ssl-jhardy.com";

    let resolver = ResolveSSL::new();
    assert_eq!(bundle_path(domain), "certs/ssl/1.ssl-jhardy.com.both.pem");

    // save cert to cache
    let cert = load_certified_key(&bundle(&[&leaf(), &ed25519_key()])).unwrap();
    assert_eq!(cert.chain().len(), 1);
    assert_eq!(cert.certified().cert.len(), 1);
    assert!(resolver.cache.get(domain).is_none());
}

#[test]
fn bundle_path_follows_naming_convention() {
    assert_eq!(bundle_path("example.test"), "certs/ssl/example.test.both.pem");
    assert_eq!(bundle_path(""), "certs/ssl/.both.pem");
}

#[test]
fn parse_bundle_splits_chain_and_key() {
    let b = parse_bundle(&bundle(&[&leaf(), &second_cert(), &ed25519_key(), &junk_key()])).unwrap();
    assert_eq!(b.chain, vec![vec![0x30, 0x03, 0x02, 0x01, 0x01], vec![0x30, 0x03, 0x02, 0x01, 0x02]]);
    assert_eq!(b.key.len(), 48);
    assert_eq!(&b.key[..16], &[0x30, 0x2e, 0x02, 0x01, 0x00, 0x30, 0x05, 0x06, 0x03, 0x2b, 0x65, 0x70, 0x04, 0x22, 0x04, 0x20]);
    assert_eq!(b.key[16], 1);
}

#[test]
fn parse_bundle_key_before_certs() {
    let b = parse_bundle(&bundle(&[&ed25519_key(), &leaf()])).unwrap();
    assert_eq!(b.chain, vec![vec![0x30, 0x03, 0x02, 0x01, 0x01]]);
    assert_eq!(b.key.len(), 48);
}

#[test]
fn parse_bundle_without_key() {
    assert!(matches!(parse_bundle(&bundle(&[&leaf()])), Err(LoadError::NoKey)));
    assert!(matches!(parse_bundle(b""), Err(LoadError::NoKey)));
}

#[test]
fn parse_bundle_malformed_section() {
    let text = pem_section("CERTIFICATE", &[0x30, 0x03, 0x02, 0x01, 0x01]);
    let unterminated = &text[..text.find("-----END").unwrap()];
    assert!(matches!(parse_bundle(unterminated.as_bytes()), Err(LoadError::InvalidCert)));
}

#[test]
fn load_certified_key_keeps_chain_order() {
    let k = load_certified_key(&bundle(&[&leaf(), &second_cert(), &ed25519_key()])).unwrap();
    let expected = vec![vec![0x30, 0x03, 0x02, 0x01, 0x01], vec![0x30, 0x03, 0x02, 0x01, 0x02]];
    assert_eq!(k.chain(), &expected);
    let presented: Vec<Vec<u8>> = k.certified().cert.iter().map(|c| c.0.clone()).collect();
    assert_eq!(presented, expected);
}

#[test]
fn load_certified_key_unsupported_key() {
    assert!(matches!(
        load_certified_key(&bundle(&[&leaf(), &junk_key()])),
        Err(LoadError::UnsupportedKey)
    ));
}

#[test]
fn load_certified_key_errors_pass_through() {
    assert!(matches!(load_certified_key(&bundle(&[&leaf()])), Err(LoadError::NoKey)));
    assert!(matches!(
        load_certified_key(format!("-----BEGIN {}-----\nAQID", ["PRIVATE", "KEY"].join(" ")).as_bytes()),
        Err(LoadError::InvalidCert)
    ));
}
