use protest::signing::{sign_bybit, sign_okx};

#[test]
fn okx_signature_is_base64_of_hmac_sha256() {
    assert_eq!(
        sign_okx("secret", "1700000000GET/users/self/verify"),
        "lhmJXK08fk9SI1ZwFXKFRrPtzfbNOwC+D1xMJJ/1KZg="
    );
    assert_eq!(
        sign_okx("key", "The quick brown fox jumps over the lazy dog"),
        "97yD9DBThCSxMpjmqm+xQ+9NWaFJRhdZl0edvC0aPNg="
    );
    assert_eq!(sign_okx("", "").len(), 44);
}

#[test]
fn bybit_signature_is_lowercase_hex_of_hmac_sha256() {
    assert_eq!(
        sign_bybit("secret", "GET/realtime1700000005000"),
        "870a92b7592554e69a02b26e07d3cd0f25689e17ef588149eaf04b9c1358a6fa"
    );
    assert_eq!(
        sign_bybit("key", "The quick brown fox jumps over the lazy dog"),
        "f7bc83f430538424b13298e6aa6fb143ef4d59a14946175997479dbc2d1a3cd8"
    );
    let long_key = "k".repeat(200);
    let s = sign_bybit(&long_key, "payload");
    assert_eq!(s.len(), 64);
    assert!(s.chars().all(|c| c.is_ascii_digit() || ('a'..='f').contains(&c)));
}
