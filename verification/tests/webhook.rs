use bankbot::webhook::{constant_time_eq, hex_decode_bytes, hmac_sha256_tag, verify_signature};

fn to_hex(bytes: &[u8]) -> String {
    let digits = b"0123456789abcdef";
    let mut out = String::new();
    for b in bytes {
        out.push(digits[(b >> 4) as usize] as char);
        out.push(digits[(b & 0x0f) as usize] as char);
    }
    out
}

fn reference_tag(key: &[u8], msg: &[u8]) -> Vec<u8> {
    // Computed independently of the library's wrapper, straight on the
    // crates it relies on.
    let mut mac = <hmac::Hmac<sha2::Sha256> as hmac::KeyInit>::new_from_slice(key).unwrap();
    hmac::Mac::update(&mut mac, msg);
    hmac::Mac::finalize(mac).into_bytes().to_vec()
}

#[test]
fn valid_signature_accepted() {
    let secret = b"webhook-secret";
    let body = b"{\"action\":\"created\"}";
    let tag = reference_tag(secret, body);
    let header = format!("sha256={}", to_hex(&tag));
    assert!(verify_signature(secret, body, &header));
}

#[test]
fn tampered_signature_rejected() {
    let secret = b"webhook-secret";
    let body = b"{\"action\":\"created\"}";
    let mut tag = reference_tag(secret, body);
    tag[0] ^= 1;
    let header = format!("sha256={}", to_hex(&tag));
    assert!(!verify_signature(secret, body, &header));
}

#[test]
fn tampered_body_rejected() {
    let secret = b"webhook-secret";
    let tag = reference_tag(secret, b"original body");
    let header = format!("sha256={}", to_hex(&tag));
    assert!(!verify_signature(secret, b"replaced body", &header));
}

#[test]
fn malformed_headers_rejected() {
    let secret = b"s";
    let body = b"b";
    assert!(!verify_signature(secret, body, ""));
    assert!(!verify_signature(secret, body, "sha1=00"));
    assert!(!verify_signature(secret, body, "sha256=xyz"));
    assert!(!verify_signature(secret, body, "sha256=0"));
}

#[test]
fn wrapper_tag_matches_reference() {
    let secret = b"k";
    let body = b"m";
    assert_eq!(hmac_sha256_tag(secret, body), reference_tag(secret, body));
    assert_eq!(hmac_sha256_tag(secret, body).len(), 32);
}

#[test]
fn hex_decoding() {
    assert_eq!(hex_decode_bytes("00ff10"), Some(vec![0x00, 0xff, 0x10]));
    assert_eq!(hex_decode_bytes("DEADbeef"), Some(vec![0xde, 0xad, 0xbe, 0xef]));
    assert_eq!(hex_decode_bytes(""), Some(vec![]));
    assert_eq!(hex_decode_bytes("0"), None);
    assert_eq!(hex_decode_bytes("0g"), None);
}

#[test]
fn constant_time_comparison() {
    assert!(constant_time_eq(b"same", b"same"));
    assert!(!constant_time_eq(b"same", b"sane"));
    assert!(!constant_time_eq(b"short", b"longer"));
    assert!(constant_time_eq(b"", b""));
}
