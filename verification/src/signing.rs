//! Request signatures: HMAC-SHA256 over the secret, rendered in Base64 for
//! OKX and in lowercase hexadecimal for Bybit.
use vstd::prelude::*;
use vstd::string::*;

use base64::Engine;
use hmac::Mac;

verus! {

/// The HMAC-SHA256 tag of `msg` under `key` (RFC 2104 over SHA-256).
pub uninterp spec fn hmac_sha256_tag(key: Seq<u8>, msg: Seq<u8>) -> Seq<u8>;

/// The character of value `v` (below 64) in the standard Base64 alphabet.
pub open spec fn base64_char(v: nat) -> char {
    if v < 26 {
        (65 + v) as char
    } else if v < 52 {
        (97 + (v - 26)) as char
    } else if v < 62 {
        (48 + (v - 52)) as char
    } else if v == 62 {
        '+'
    } else {
        '/'
    }
}

/// Standard Base64 (RFC 4648, section 4) with `'='` padding.
pub open spec fn base64_standard(d: Seq<u8>) -> Seq<char>
    decreases d.len(),
{
    if d.len() == 0 {
        Seq::empty()
    } else if d.len() == 1 {
        seq![base64_char(d[0] as nat / 4), base64_char((d[0] as nat % 4) * 16), '=', '=']
    } else if d.len() == 2 {
        seq![
            base64_char(d[0] as nat / 4),
            base64_char((d[0] as nat % 4) * 16 + d[1] as nat / 16),
            base64_char((d[1] as nat % 16) * 4),
            '=',
        ]
    } else {
        seq![
            base64_char(d[0] as nat / 4),
            base64_char((d[0] as nat % 4) * 16 + d[1] as nat / 16),
            base64_char((d[1] as nat % 16) * 4 + d[2] as nat / 64),
            base64_char(d[2] as nat % 64),
        ] + base64_standard(d.skip(3))
    }
}

/// The lowercase hexadecimal digit of value `v` (below 16).
pub open spec fn hex_char(v: nat) -> char {
    if v < 10 {
        (48 + v) as char
    } else {
        (87 + v) as char
    }
}

/// Two lowercase hexadecimal digits per byte, high nibble first.
pub open spec fn hex_lower(d: Seq<u8>) -> Seq<char>
    decreases d.len(),
{
    if d.len() == 0 {
        Seq::empty()
    } else {
        seq![hex_char(d[0] as nat / 16), hex_char(d[0] as nat % 16)] + hex_lower(d.drop_first())
    }
}

/// The signature OKX expects: Base64 of the HMAC-SHA256 tag.
pub open spec fn okx_signature(secret: Seq<u8>, prehash: Seq<u8>) -> Seq<char> {
    base64_standard(hmac_sha256_tag(secret, prehash))
}

/// The signature Bybit expects: lowercase hex of the HMAC-SHA256 tag.
pub open spec fn bybit_signature(secret: Seq<u8>, payload: Seq<u8>) -> Seq<char> {
    hex_lower(hmac_sha256_tag(secret, payload))
}

/// Computes HMAC-SHA256 with `hmac::Hmac<sha2::Sha256>`: `new_from_slice`,
/// `update`, then `finalize().into_bytes()`.
///
/// Trusted: the tag is named by `hmac_sha256_tag` and is 32 bytes long
/// (SHA-256's output size). `new_from_slice` of `hmac` 0.12.1 accepts keys of
/// any length (longer keys are hashed first), so the `expect` never fires.
#[verifier::external_body]
fn hmac_sha256(key: &[u8], msg: &[u8]) -> (tag: Vec<u8>)
    ensures
        tag@ == hmac_sha256_tag(key@, msg@),
        tag@.len() == 32,
{
    let mut mac = hmac::Hmac::<sha2::Sha256>::new_from_slice(key)
        .expect("HMAC takes keys of any length");
    mac.update(msg);
    mac.finalize().into_bytes().to_vec()
}

/// Calls `base64::engine::general_purpose::STANDARD.encode`.
///
/// Trusted: the result is the padded standard-alphabet Base64 encoding.
#[verifier::external_body]
fn base64_encode(data: &[u8]) -> (s: String)
    ensures
        s@ == base64_standard(data@),
{
    base64::engine::general_purpose::STANDARD.encode(data)
}

/// Calls `hex::encode`.
///
/// Trusted: the result is two lowercase hexadecimal digits per byte.
#[verifier::external_body]
fn hex_encode(data: &[u8]) -> (s: String)
    ensures
        s@ == hex_lower(data@),
{
    hex::encode(data)
}

/// Base64 of HMAC-SHA256(`secret`, `prehash`), the OKX login signature.
pub fn sign_okx(secret: &str, prehash: &str) -> (s: String)
    ensures
        s@ == okx_signature(secret.spec_bytes(), prehash.spec_bytes()),
        s@.len() == 44,
{
    let tag = hmac_sha256(secret.as_bytes(), prehash.as_bytes());
    proof {
        lemma_base64_len(tag@);
    }
    base64_encode(tag.as_slice())
}

/// Lowercase hex of HMAC-SHA256(`secret`, `payload`), the Bybit signature.
pub fn sign_bybit(secret: &str, payload: &str) -> (s: String)
    ensures
        s@ == bybit_signature(secret.spec_bytes(), payload.spec_bytes()),
        s@.len() == 64,
{
    let tag = hmac_sha256(secret.as_bytes(), payload.as_bytes());
    proof {
        lemma_hex_len(tag@);
    }
    hex_encode(tag.as_slice())
}

// ---------------------------------------------------------------------------
// shape of the encodings

pub proof fn lemma_base64_len(d: Seq<u8>)
    ensures
        base64_standard(d).len() == 4 * ((d.len() + 2) / 3),
    decreases d.len(),
{
    if d.len() > 2 {
        lemma_base64_len(d.skip(3));
    }
}

pub proof fn lemma_hex_len(d: Seq<u8>)
    ensures
        hex_lower(d).len() == 2 * d.len(),
    decreases d.len(),
{
    if d.len() > 0 {
        lemma_hex_len(d.drop_first());
    }
}

} // verus!
