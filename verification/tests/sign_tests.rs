use hmac::{KeyInit, Mac};

use cerebrum::model::timestamp_string;
use cerebrum::sign::sign_query;
use cerebrum::text::{format_fixed, to_ascii_lowercase, to_ascii_uppercase, u64_string};

/// Hex-encode independently of the library.
fn reference_hex(bytes: &[u8]) -> String {
    let mut out = String::new();
    for b in bytes {
        out.push(char::from_digit((b >> 4) as u32, 16).unwrap());
        out.push(char::from_digit((b & 0x0f) as u32, 16).unwrap());
    }
    out
}

#[test]
fn signatures_match_a_direct_mac_computation() {
    let secret = b"test-secret";
    let query = "symbol=ETHUSDT&side=BUY&quantity=0.001";
    let timestamp = 1_693_207_680_000u64;

    let signed = sign_query(secret, query, timestamp);

    let payload = format!("{query}&timestamp={timestamp}");
    let mut mac = <hmac::Hmac<sha2::Sha256> as KeyInit>::new_from_slice(secret).unwrap();
    mac.update(payload.as_bytes());
    let expected = reference_hex(&mac.finalize().into_bytes());

    assert_eq!(signed, format!("{payload}&signature={expected}"));
}

#[test]
fn signatures_are_deterministic_across_runs() {
    let one = sign_query(b"k", "a=1&b=2", 42);
    let two = sign_query(b"k", "a=1&b=2", 42);
    assert_eq!(one, two);

    let other_key = sign_query(b"k2", "a=1&b=2", 42);
    assert_ne!(one, other_key);
}

#[test]
fn empty_queries_sign_the_bare_timestamp() {
    let signed = sign_query(b"k", "", 7);
    assert!(signed.starts_with("timestamp=7&signature="));
}

#[test]
fn case_mapping_touches_only_ascii_letters() {
    assert_eq!(to_ascii_lowercase("BtC-42_usd"), "btc-42_usd");
    assert_eq!(to_ascii_uppercase("BtC-42_usd"), "BTC-42_USD");
}

#[test]
fn decimal_renderings_are_exact() {
    assert_eq!(u64_string(0), "0");
    assert_eq!(u64_string(1_693_207_680_000), "1693207680000");
    assert_eq!(timestamp_string(1_566_818_724_722), "1566818724722");

    assert_eq!(format_fixed(100_000, 8), "0.001");
    assert_eq!(format_fixed(0, 2), "0");
    assert_eq!(format_fixed(12_345, 2), "123.45");
    assert_eq!(format_fixed(1_200, 2), "12");
    assert_eq!(format_fixed(12_030, 3), "12.03");
    assert_eq!(format_fixed(42, 0), "42");
}
