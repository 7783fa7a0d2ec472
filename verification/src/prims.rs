//! Trusted boundary to the outside cryptography and encoding crates.
//!
//! Every function here is a thin wrapper whose body makes one outside call;
//! its contract is believed, not proved. Where the outside result takes pages
//! to describe (a cipher, a hash, a key, a signature) it is given a name below
//! and the contracts only tie the result to that name and to the few facts the
//! crate's source or documentation states plainly; the text encodings and
//! their decoders are written out as spec functions.
use vstd::prelude::*;
use vstd::utf8::*;
use vstd::arithmetic::power2::pow2;

use aes_gcm::aead::{Aead, KeyInit};
use base64::Engine as _;
use hmac::Mac as _;
use rand::TryRngCore as _;
use p256::ecdsa::signature::Signer as _;
use sha2::Digest as _;

verus! {

// ── names for outside results ───────────────────────────────────────────────

/// Ciphertext‖tag that AES-256-GCM produces for `plaintext` under `key`/`nonce`, no AAD.
pub uninterp spec fn aes_gcm_seal(key: Seq<u8>, nonce: Seq<u8>, plaintext: Seq<u8>) -> Seq<u8>;

/// What AES-256-GCM decryption gives for `ciphertext` under `key`/`nonce`, no AAD.
pub uninterp spec fn aes_gcm_open(key: Seq<u8>, nonce: Seq<u8>, ciphertext: Seq<u8>) -> Option<
    Seq<u8>,
>;

/// HMAC-SHA-256 tag of `msg` under `key`.
pub uninterp spec fn hmac_sha256(key: Seq<u8>, msg: Seq<u8>) -> Seq<u8>;

/// SHA-256 digest of `data`.
pub uninterp spec fn sha256(data: Seq<u8>) -> Seq<u8>;

/// HKDF-SHA-256 (no salt) expanded to 32 bytes with the given `info`.
pub uninterp spec fn hkdf_sha256_32(ikm: Seq<u8>, info: Seq<u8>) -> Seq<u8>;






/// P-256 key pair `(private scalar bytes, SEC1 compressed public key)` for a scalar.
pub uninterp spec fn p256_keypair(scalar: Seq<u8>) -> (Seq<u8>, Seq<u8>);

/// DER-encoded deterministic (RFC 6979) ECDSA-P256-SHA256 signature.
pub uninterp spec fn p256_sign_der(private_key: Seq<u8>, payload: Seq<u8>) -> Seq<u8>;

/// Raw low-S `r‖s` (64 bytes) deterministic ECDSA-P256-SHA256 signature.
pub uninterp spec fn p256_sign_raw(private_key: Seq<u8>, payload: Seq<u8>) -> Seq<u8>;

// ── plain facts ─────────────────────────────────────────────────────────────

/// Largest plaintext AES-GCM accepts (2^36 bytes).
pub open spec fn aes_gcm_p_max() -> nat {
    0x10_0000_0000nat
}

/// A character of the URL-safe base64 alphabet.
pub open spec fn is_b64url_char(c: char) -> bool {
    ('A' <= c <= 'Z') || ('a' <= c <= 'z') || ('0' <= c <= '9') || c == '-' || c == '_'
}

/// A character of the lower-case base32 alphabet.
pub open spec fn is_base32_lower_char(c: char) -> bool {
    ('a' <= c <= 'z') || ('2' <= c <= '7')
}

/// Big-endian value of a byte string.
pub open spec fn be_nat(b: Seq<u8>) -> nat
    decreases b.len(),
{
    if b.len() == 0 {
        0
    } else {
        be_nat(b.drop_last()) * 256 + b.last() as nat
    }
}

/// Order of the P-256 group; valid private scalars lie strictly between 0 and it.
pub open spec fn p256_order() -> nat {
    0xffffffff00000000ffffffffffffffffbce6faada7179e84f3b9cac2fc632551nat
}

/// A 32-byte string that P-256 accepts as a private scalar.
pub open spec fn p256_scalar_ok(b: Seq<u8>) -> bool {
    b.len() == 32 && 0 < be_nat(b) < p256_order()
}

// ── encodings, written out ──────────────────────────────────────────────────

/// Bit `k` of `b`, each byte read most significant bit first; 0 past the end.
pub open spec fn bit_at(b: Seq<u8>, k: int) -> nat {
    if 0 <= k < 8 * b.len() {
        ((b[k / 8] as nat) / pow2((7 - k % 8) as nat)) % 2
    } else {
        0
    }
}

/// The `w`-bit big-endian number read from `b` at bit `start`, with zero bits
/// past the end.
pub open spec fn bits_value(b: Seq<u8>, start: int, w: nat) -> nat
    decreases w,
{
    if w == 0 {
        0
    } else {
        bits_value(b, start, (w - 1) as nat) * 2 + bit_at(b, start + w - 1)
    }
}

/// The base64 character of a 6-bit value, in the URL-safe alphabet (`-`, `_`)
/// or the standard one (`+`, `/`).
pub open spec fn b64_char(v: nat, url_safe: bool) -> char {
    if v < 26 {
        (65 + v) as char
    } else if v < 52 {
        (97 + v - 26) as char
    } else if v < 62 {
        (48 + v - 52) as char
    } else if v == 62 {
        if url_safe { '-' } else { '+' }
    } else {
        if url_safe { '_' } else { '/' }
    }
}

/// URL-safe, unpadded base64 text of `bytes` (RFC 4648 §5): one character per
/// 6 bits, the last group filled with zero bits.
pub open spec fn b64url(bytes: Seq<u8>) -> Seq<char> {
    Seq::new(((4 * bytes.len() + 2) / 3) as nat, |i: int| b64_char(bits_value(bytes, 6 * i, 6), true))
}

/// Padded standard-alphabet base64 text of `bytes` (RFC 4648 §4): the same
/// groups, then `=` up to a multiple of four characters.
pub open spec fn b64std(bytes: Seq<u8>) -> Seq<char> {
    Seq::new(
        (4 * ((bytes.len() + 2) / 3)) as nat,
        |i: int|
            if i < (4 * bytes.len() + 2) / 3 {
                b64_char(bits_value(bytes, 6 * i, 6), false)
            } else {
                '='
            },
    )
}

/// Bytes decoded from URL-safe unpadded base64 text. The decoder is
/// canonical (no padding, no stray trailing bits), so it accepts exactly the
/// encodings of byte strings and gives back the bytes encoded.
pub open spec fn b64url_decode(text: Seq<char>) -> Option<Seq<u8>> {
    if exists|b: Seq<u8>| #[trigger] b64url(b) == text {
        Some(choose|b: Seq<u8>| #[trigger] b64url(b) == text)
    } else {
        None
    }
}

/// Bytes decoded from padded standard-alphabet base64 text; canonical in the
/// same way (padding required exactly where the encoder writes it).
pub open spec fn b64std_decode(text: Seq<char>) -> Option<Seq<u8>> {
    if exists|b: Seq<u8>| #[trigger] b64std(b) == text {
        Some(choose|b: Seq<u8>| #[trigger] b64std(b) == text)
    } else {
        None
    }
}

/// The lower-case base32 character of a 5-bit value.
pub open spec fn b32_char(v: nat) -> char {
    if v < 26 {
        (97 + v) as char
    } else {
        (50 + v - 26) as char
    }
}

/// Lower-case RFC 4648 base32 text of `bytes`, without padding: one character
/// per 5 bits, the last group filled with zero bits.
pub open spec fn base32_lower(bytes: Seq<u8>) -> Seq<char> {
    Seq::new(((8 * bytes.len() + 4) / 5) as nat, |i: int| b32_char(bits_value(bytes, 5 * i, 5)))
}

/// The Bitcoin base58 alphabet.
pub open spec fn b58_alphabet() -> Seq<char> {
    seq![
        '1', '2', '3', '4', '5', '6', '7', '8', '9', 'A', 'B', 'C', 'D', 'E', 'F', 'G', 'H', 'J',
        'K', 'L', 'M', 'N', 'P', 'Q', 'R', 'S', 'T', 'U', 'V', 'W', 'X', 'Y', 'Z', 'a', 'b', 'c',
        'd', 'e', 'f', 'g', 'h', 'i', 'j', 'k', 'm', 'n', 'o', 'p', 'q', 'r', 's', 't', 'u', 'v',
        'w', 'x', 'y', 'z',
    ]
}

/// The base58 digits of `n`, most significant first, none for zero.
pub open spec fn b58_digits(n: nat) -> Seq<char>
    decreases n,
{
    if n == 0 {
        Seq::empty()
    } else {
        b58_digits(n / 58) + seq![b58_alphabet()[(n % 58) as int]]
    }
}

/// The number of zero bytes `b` starts with.
pub open spec fn leading_zeros(b: Seq<u8>) -> nat
    decreases b.len(),
{
    if b.len() > 0 && b[0] == 0 {
        1 + leading_zeros(b.subrange(1, b.len() as int))
    } else {
        0
    }
}

/// Bitcoin-alphabet base58 text of `bytes`: one `1` per leading zero byte,
/// then the base58 digits of the bytes' big-endian value.
pub open spec fn base58(bytes: Seq<u8>) -> Seq<char> {
    Seq::new(leading_zeros(bytes), |i: int| '1') + b58_digits(be_nat(bytes))
}

// ── std ─────────────────────────────────────────────────────────────────────

/// `String::from_utf8`: succeeds exactly on valid UTF-8 and then holds the
/// decoded characters.
#[verifier::external_body]
pub fn utf8_to_string(bytes: Vec<u8>) -> (r: Option<String>)
    ensures
        r is Some <==> valid_utf8(bytes@),
        r matches Some(s) ==> s@ == decode_utf8(bytes@),
{
    String::from_utf8(bytes).ok()
}

/// `SystemTime::now()` as whole seconds since the Unix epoch (0 if the clock
/// reads before the epoch). Nothing is promised of the value.
#[verifier::external_body]
pub fn now_unix_seconds() -> u64 {
    std::time::SystemTime::now().duration_since(std::time::UNIX_EPOCH).map(|d| d.as_secs()).unwrap_or(0)
}

// ── aes-gcm ─────────────────────────────────────────────────────────────────

/// `Aes256Gcm::encrypt` with no AAD. The crate refuses plaintexts longer than
/// 2^36 bytes and otherwise returns the ciphertext followed by the 16-byte tag.
#[verifier::external_body]
pub fn aes256gcm_encrypt(key: &[u8; 32], nonce: &[u8; 12], plaintext: &[u8]) -> (r: Option<Vec<u8>>)
    ensures
        r is Some <==> plaintext@.len() <= aes_gcm_p_max(),
        r matches Some(c) ==> c@ == aes_gcm_seal(key@, nonce@, plaintext@),
        r matches Some(c) ==> c@.len() == plaintext@.len() + 16,
{
    let cipher = aes_gcm::Aes256Gcm::new(key.into());
    cipher.encrypt(aes_gcm::Nonce::from_slice(nonce), plaintext).ok()
}

/// `Aes256Gcm::decrypt` with no AAD: authenticated decryption. It gives back
/// exactly the plaintext that encryption under the same key and nonce sealed.
/// Nothing is said of ciphertexts sealed under another key (the crate rejects
/// them unless the tag happens to verify).
#[verifier::external_body]
pub fn aes256gcm_decrypt(key: &[u8; 32], nonce: &[u8; 12], ciphertext: &[u8]) -> (r: Option<Vec<u8>>)
    ensures
        r matches Some(p) ==> aes_gcm_open(key@, nonce@, ciphertext@) == Some(p@),
        r is None ==> aes_gcm_open(key@, nonce@, ciphertext@) is None,
        r is None ==> forall|p: Seq<u8>|
            #![trigger aes_gcm_seal(key@, nonce@, p)]
            ciphertext@ != aes_gcm_seal(key@, nonce@, p) || p.len() > aes_gcm_p_max(),
        r matches Some(q) ==> forall|p: Seq<u8>|
            #![trigger aes_gcm_seal(key@, nonce@, p)]
            ciphertext@ == aes_gcm_seal(key@, nonce@, p) && p.len() <= aes_gcm_p_max() ==> q@ == p,
{
    let cipher = aes_gcm::Aes256Gcm::new(key.into());
    cipher.decrypt(aes_gcm::Nonce::from_slice(nonce), ciphertext).ok()
}

// ── randomness (nothing is promised of the bytes) ───────────────────────────

/// Twelve bytes from the thread RNG (`rand::Rng::random`).
#[verifier::external_body]
pub fn random_12() -> [u8; 12] {
    rand::Rng::random(&mut rand::rng())
}

/// Sixteen bytes from the OS RNG.
#[verifier::external_body]
pub fn os_random_16() -> [u8; 16] {
    let mut b = [0u8; 16];
    rand::RngCore::fill_bytes(&mut rand::rngs::OsRng.unwrap_err(), &mut b);
    b
}

/// Twenty-four bytes from the OS RNG.
#[verifier::external_body]
pub fn os_random_24() -> [u8; 24] {
    let mut b = [0u8; 24];
    rand::RngCore::fill_bytes(&mut rand::rngs::OsRng.unwrap_err(), &mut b);
    b
}

/// Thirty-two bytes from the thread RNG (`rand::Rng::random`).
#[verifier::external_body]
pub fn random_32() -> [u8; 32] {
    rand::Rng::random(&mut rand::rng())
}

/// Sixty-four bytes from the OS RNG.
#[verifier::external_body]
pub fn os_random_64() -> [u8; 64] {
    let mut b = [0u8; 64];
    rand::RngCore::fill_bytes(&mut rand::rngs::OsRng.unwrap_err(), &mut b);
    b
}

// ── hashes and MACs ─────────────────────────────────────────────────────────

/// `Hmac<Sha256>` over `msg`; HMAC accepts keys of any length and its tag is 32 bytes.
#[verifier::external_body]
pub fn hmac_sha256_tag(key: &[u8], msg: &[u8]) -> (r: Vec<u8>)
    ensures
        r@ == hmac_sha256(key@, msg@),
        r@.len() == 32,
{
    let mut mac = <hmac::Hmac<sha2::Sha256> as hmac::Mac>::new_from_slice(key).unwrap();
    mac.update(msg);
    mac.finalize().into_bytes().to_vec()
}

/// `Sha256::digest`; the digest is 32 bytes.
#[verifier::external_body]
pub fn sha256_digest(data: &[u8]) -> (r: Vec<u8>)
    ensures
        r@ == sha256(data@),
        r@.len() == 32,
{
    sha2::Sha256::digest(data).to_vec()
}

/// `Hkdf::<Sha256>::new(None, ikm).expand(info, 32 bytes)`; a 32-byte output
/// is always within HKDF-SHA-256's limit.
#[verifier::external_body]
pub fn hkdf_sha256_expand_32(ikm: &[u8], info: &[u8]) -> (r: [u8; 32])
    ensures
        r@ == hkdf_sha256_32(ikm@, info@),
{
    let hk = hkdf::Hkdf::<sha2::Sha256>::new(None, ikm);
    let mut out = [0u8; 32];
    hk.expand(info, &mut out).unwrap();
    out
}

// ── encodings ───────────────────────────────────────────────────────────────

/// `URL_SAFE_NO_PAD.encode`: four characters per three bytes, rounded up and
/// unpadded; every character is from the URL-safe alphabet, and decoding the
/// text gives the bytes back.
#[verifier::external_body]
pub fn b64url_encode(bytes: &[u8]) -> (r: String)
    ensures
        r@ == b64url(bytes@),
        r@.len() == (4 * bytes@.len() + 2) / 3,
        b64url_decode(r@) == Some(bytes@),
        forall|i: int| 0 <= i < r@.len() ==> is_b64url_char(#[trigger] r@[i]),
{
    base64::engine::general_purpose::URL_SAFE_NO_PAD.encode(bytes)
}

/// `STANDARD.encode` (padded standard alphabet).
#[verifier::external_body]
pub fn b64std_encode(bytes: &[u8]) -> (r: String)
    ensures
        r@ == b64std(bytes@),
{
    base64::engine::general_purpose::STANDARD.encode(bytes)
}

/// `STANDARD.decode`; on failure, the error's rendered message.
#[verifier::external_body]
pub fn b64std_decode_str(text: &str) -> (r: Result<Vec<u8>, String>)
    ensures
        r matches Ok(b) ==> b64std_decode(text@) == Some(b@),
        r is Err ==> b64std_decode(text@) is None,
{
    base64::engine::general_purpose::STANDARD.decode(text).map_err(|e| e.to_string())
}

/// `URL_SAFE_NO_PAD.decode`: decoding the encoding of some bytes gives them back.
#[verifier::external_body]
pub fn b64url_decode_str(text: &str) -> (r: Option<Vec<u8>>)
    ensures
        r matches Some(b) ==> b64url_decode(text@) == Some(b@),
        r is None ==> b64url_decode(text@) is None,
        r is None ==> forall|x: Seq<u8>| #![trigger b64url(x)] text@ != b64url(x),
        r matches Some(b) ==> forall|x: Seq<u8>| #![trigger b64url(x)] text@ == b64url(x) ==> b@ == x,
{
    base64::engine::general_purpose::URL_SAFE_NO_PAD.decode(text.as_bytes()).ok()
}

/// `base32::encode(Rfc4648Lower { padding: false }, ..)`: 8 characters per 5
/// bytes, rounded up, all from the lower-case alphabet.
#[verifier::external_body]
pub fn base32_lower_encode(bytes: &[u8]) -> (r: String)
    ensures
        r@ == base32_lower(bytes@),
        r@.len() == (bytes@.len() * 8 + 4) / 5,
        forall|i: int| 0 <= i < r@.len() ==> is_base32_lower_char(#[trigger] r@[i]),
{
    base32::encode(base32::Alphabet::Rfc4648Lower { padding: false }, bytes)
}

/// `bs58::encode(..).into_string()`.
#[verifier::external_body]
pub fn base58_encode(bytes: &[u8]) -> (r: String)
    ensures
        r@ == base58(bytes@),
{
    bs58::encode(bytes).into_string()
}

// ── P-256 ───────────────────────────────────────────────────────────────────

/// `Scalar::reduce_bytes` on the seed (its big-endian value, less the group
/// order when not below it: the value mod the order, as the value is below
/// twice the order), then `NonZeroScalar::new` and the key pair of that
/// scalar. `None` exactly when the reduced scalar is zero.
#[verifier::external_body]
pub fn p256_keypair_from_reduced(seed: &[u8; 32]) -> (r: Option<(Vec<u8>, Vec<u8>)>)
    ensures
        r is Some <==> be_nat(seed@) % p256_order() != 0,
        r matches Some(kp) ==> kp.0@.len() == 32 && be_nat(kp.0@) == be_nat(seed@) % p256_order()
            && (kp.0@, kp.1@) == p256_keypair(kp.0@),
{
    let s = <p256::Scalar as p256::elliptic_curve::ops::Reduce<p256::U256>>::reduce_bytes(seed.into());
    let nz = Option::<p256::NonZeroScalar>::from(p256::NonZeroScalar::new(s))?;
    let sk = p256::ecdsa::SigningKey::from(nz);
    Some((sk.to_bytes().to_vec(), sk.verifying_key().to_encoded_point(true).as_bytes().to_vec()))
}

/// `SigningKey::random(&mut OsRng)`, then `to_bytes` and the compressed SEC1
/// verifying key. The key is random; what holds of every outcome is that it is
/// a nonzero scalar below the order (the crate draws a `NonZeroScalar`), and
/// that the pair is the one that scalar's bytes give.
#[verifier::external_body]
pub fn p256_random_keypair() -> (r: (Vec<u8>, Vec<u8>))
    ensures
        p256_scalar_ok(r.0@),
        (r.0@, r.1@) == p256_keypair(r.0@),
{
    let sk = p256::ecdsa::SigningKey::random(&mut p256::elliptic_curve::rand_core::OsRng);
    (sk.to_bytes().to_vec(), sk.verifying_key().to_encoded_point(true).as_bytes().to_vec())
}

/// `SigningKey::from_bytes` then `sign` and `to_der`; fails exactly when the
/// 32 key bytes are not a valid scalar.
#[verifier::external_body]
pub fn p256_sign_der_bytes(private_key: &[u8], payload: &[u8]) -> (r: Option<Vec<u8>>)
    requires
        private_key@.len() == 32,
    ensures
        r is Some <==> p256_scalar_ok(private_key@),
        r matches Some(s) ==> s@ == p256_sign_der(private_key@, payload@),
{
    let sk = p256::ecdsa::SigningKey::from_bytes(private_key.into()).ok()?;
    let sig: p256::ecdsa::Signature = sk.sign(payload);
    Some(sig.to_der().as_bytes().to_vec())
}

/// `SigningKey::from_bytes`, `sign`, low-S normalisation and `to_bytes`
/// (raw `r‖s`, 64 bytes); fails exactly when the key is not a valid scalar.
#[verifier::external_body]
pub fn p256_sign_raw_bytes(private_key: &[u8], payload: &[u8]) -> (r: Option<Vec<u8>>)
    requires
        private_key@.len() == 32,
    ensures
        r is Some <==> p256_scalar_ok(private_key@),
        r matches Some(s) ==> s@ == p256_sign_raw(private_key@, payload@),
        r matches Some(s) ==> s@.len() == 64,
{
    let sk = p256::ecdsa::SigningKey::from_bytes(private_key.into()).ok()?;
    let sig: p256::ecdsa::Signature = sk.sign(payload);
    Some(sig.normalize_s().unwrap_or(sig).to_bytes().to_vec())
}

} // verus!
