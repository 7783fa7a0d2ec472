//! Attachment blob framing: encrypt-then-MAC with a 64-byte key
//! (`aes_key(32) ‖ hmac_key(32)`), stored as
//! `IV(16) ‖ AES-256-CBC ciphertext ‖ HMAC-SHA-256(IV ‖ ciphertext)`, bound by
//! the SHA-256 digest of the whole blob.
//!
//! The plaintext is zero-padded up to a size bucket before encryption so the
//! stored length reveals only the bucket; the true length travels beside the
//! pointer and the recipient trims after decrypting. The block cipher itself
//! runs outside this module: opening checks the digest and the MAC first and
//! hands back the IV and ciphertext to decrypt.
use vstd::prelude::*;

use crate::prims::{hmac_sha256, hmac_sha256_tag, os_random_16, os_random_64, sha256, sha256_digest};

verus! {

/// Length of an attachment key: AES-256 key (32) ‖ HMAC-SHA-256 key (32).
pub const KEY_LEN: usize = 64;
/// AES-CBC initialization vector length.
pub const IV_LEN: usize = 16;
/// HMAC-SHA-256 tag length.
pub const MAC_LEN: usize = 32;
/// SHA-256 digest length.
pub const DIGEST_LEN: usize = 32;
/// The smallest bucket; smaller attachments all pad up to it.
pub const MIN_BUCKET: usize = 541;

const AES_KEY_LEN: usize = 32;
/// AES block length; a ciphertext holds at least one block.
pub const AES_BLOCK_LEN: usize = 16;

/// Errors of attachment encryption and decryption.
#[derive(Debug, Clone, PartialEq, Eq)]
pub enum AttachmentError {
    /// The key was not 64 bytes.
    InvalidKey,
    /// The blob was shorter than `IV ‖ one AES block ‖ MAC`.
    MalformedBlob,
    /// The blob's SHA-256 did not match the pointer's digest.
    DigestMismatch,
    /// The HMAC tag did not verify.
    MacMismatch,
    /// The declared unpadded length exceeds the recovered plaintext.
    BadLength,
    /// The block cipher rejected the input.
    Cipher(String),
}

/// An encrypted attachment ready to upload, with the digest for its pointer.
pub struct EncryptedAttachment {
    /// `IV ‖ ciphertext ‖ MAC`, the exact uploaded bytes.
    pub blob: Vec<u8>,
    /// `SHA-256(blob)`.
    pub digest: Vec<u8>,
}

/// A fresh 64-byte attachment key from the OS RNG; one key per attachment.
pub fn generate_key() -> (r: [u8; 64]) {
    os_random_64()
}

/// A fresh 16-byte IV from the OS RNG.
pub fn generate_iv() -> (r: [u8; 16]) {
    os_random_16()
}

/// Splits a 64-byte key into its AES half and its HMAC half.
pub fn split_key(key: &[u8]) -> (r: Result<(&[u8], &[u8]), AttachmentError>)
    ensures
        r is Ok <==> key@.len() == KEY_LEN,
        r matches Ok((a, h)) ==> a@ == key@.subrange(0, 32) && h@ == key@.subrange(32, 64),
        r matches Err(e) ==> e is InvalidKey,
{
    if key.len() != KEY_LEN {
        return Err(AttachmentError::InvalidKey);
    }
    let (a, h) = key.split_at(AES_KEY_LEN);
    Ok((a, h))
}

/// Byte-string equality that inspects every byte whatever the outcome, so
/// its time does not reveal where a MAC or digest first differs.
pub fn constant_time_eq(a: &[u8], b: &[u8]) -> (r: bool)
    ensures
        r == (a@ == b@),
{
    if a.len() != b.len() {
        return false;
    }
    let mut diff: u8 = 0;
    let mut i: usize = 0;
    while i < a.len()
        invariant
            0 <= i <= a@.len(),
            a@.len() == b@.len(),
            (diff == 0) == (forall|j: int| 0 <= j < i ==> a@[j] == b@[j]),
        decreases a@.len() - i,
    {
        let x = a[i];
        let y = b[i];
        let d = diff;
        assert(((d | (x ^ y)) == 0u8) == (d == 0u8 && x == y)) by (bit_vector);
        diff = diff | (x ^ y);
        i = i + 1;
    }
    proof {
        if diff == 0 {
            assert(a@ =~= b@);
        }
    }
    diff == 0
}

/// The bucket an attachment of `unpadded` bytes pads to, given the geometric
/// bucket computed for it: never below the minimum bucket and never below the
/// input, so padding never truncates.
pub fn bucket_size(unpadded: usize, geometric_bucket: usize) -> (r: usize)
    ensures
        r == (if unpadded <= MIN_BUCKET {
            MIN_BUCKET
        } else if geometric_bucket >= unpadded {
            geometric_bucket
        } else {
            unpadded
        }),
        r >= unpadded,
        r >= MIN_BUCKET,
{
    if unpadded <= MIN_BUCKET {
        MIN_BUCKET
    } else if geometric_bucket >= unpadded {
        geometric_bucket
    } else {
        unpadded
    }
}

/// `plaintext` resized to `target` bytes: extended with zeros, or cut short
/// when it is longer.
pub open spec fn padded(plaintext: Seq<u8>, target: nat) -> Seq<u8> {
    Seq::new(target, |i: int| if i < plaintext.len() { plaintext[i] } else { 0u8 })
}

/// Pads `plaintext` with zero bytes to `target` bytes.
pub fn pad_plaintext(plaintext: &[u8], target: usize) -> (r: Vec<u8>)
    ensures
        r@ == padded(plaintext@, target as nat),
{
    let mut out: Vec<u8> = Vec::new();
    let mut i: usize = 0;
    while i < target
        invariant
            0 <= i <= target,
            out@.len() == i,
            forall|j: int| 0 <= j < i ==> out@[j] == (if j < plaintext@.len() { plaintext@[j] } else { 0u8 }),
        decreases target - i,
    {
        if i < plaintext.len() {
            out.push(plaintext[i]);
        } else {
            out.push(0u8);
        }
        i = i + 1;
    }
    proof {
        assert(out@ =~= padded(plaintext@, target as nat));
    }
    out
}

/// The stored blob of a ciphertext: `iv ‖ ciphertext ‖ HMAC(hmac_key, iv ‖ ciphertext)`.
pub open spec fn sealed_blob(iv: Seq<u8>, ciphertext: Seq<u8>, hmac_key: Seq<u8>) -> Seq<u8> {
    iv + ciphertext + hmac_sha256(hmac_key, iv + ciphertext)
}

/// Frames an encrypted attachment: the IV, the ciphertext and the MAC over
/// both, with the digest of the whole.
pub fn seal_attachment(iv: &[u8], ciphertext: &[u8], hmac_key: &[u8]) -> (r: EncryptedAttachment)
    requires
        iv@.len() + ciphertext@.len() + MAC_LEN <= usize::MAX,
    ensures
        r.blob@ == sealed_blob(iv@, ciphertext@, hmac_key@),
        r.digest@ == sha256(r.blob@),
{
    let mut signed: Vec<u8> = crate::bytes::copy_all(iv);
    crate::bytes::append_bytes(&mut signed, ciphertext);
    let tag = hmac_sha256_tag(hmac_key, signed.as_slice());
    let mut blob = signed;
    crate::bytes::append_bytes(&mut blob, tag.as_slice());
    let digest = sha256_digest(blob.as_slice());
    EncryptedAttachment { blob, digest }
}

/// Checks a downloaded blob before decryption and hands back its
/// `(iv, ciphertext)`: the key must be 64 bytes, the blob at least
/// `IV ‖ one block ‖ MAC`, its SHA-256 must equal `digest` (checked before
/// anything else touches the bytes) and its MAC must verify under the HMAC
/// half of the key.
pub fn open_attachment<'a>(blob: &'a [u8], key: &[u8], digest: &[u8]) -> (r: Result<(&'a [u8], &'a [u8]), AttachmentError>)
    ensures
        key@.len() != KEY_LEN ==> r == Err::<(&[u8], &[u8]), AttachmentError>(AttachmentError::InvalidKey),
        key@.len() == KEY_LEN && blob@.len() < IV_LEN + AES_BLOCK_LEN + MAC_LEN ==> r == Err::<(&[u8], &[u8]), AttachmentError>(AttachmentError::MalformedBlob),
        key@.len() == KEY_LEN && blob@.len() >= IV_LEN + AES_BLOCK_LEN + MAC_LEN && sha256(blob@) != digest@
            ==> r == Err::<(&[u8], &[u8]), AttachmentError>(AttachmentError::DigestMismatch),
        key@.len() == KEY_LEN && blob@.len() >= IV_LEN + AES_BLOCK_LEN + MAC_LEN && sha256(blob@) == digest@ ==> {
            let body = blob@.subrange(0, blob@.len() - MAC_LEN);
            let tag = blob@.subrange(blob@.len() - MAC_LEN, blob@.len() as int);
            if hmac_sha256(key@.subrange(32, 64), body) == tag {
                r matches Ok((iv, ct)) && iv@ == blob@.subrange(0, IV_LEN as int)
                    && ct@ == blob@.subrange(IV_LEN as int, blob@.len() - MAC_LEN)
            } else {
                r == Err::<(&[u8], &[u8]), AttachmentError>(AttachmentError::MacMismatch)
            }
        },
{
    let (_aes_key, hmac_key) = split_key(key)?;
    if blob.len() < IV_LEN + AES_BLOCK_LEN + MAC_LEN {
        return Err(AttachmentError::MalformedBlob);
    }
    let actual = sha256_digest(blob);
    if !constant_time_eq(actual.as_slice(), digest) {
        return Err(AttachmentError::DigestMismatch);
    }
    let (iv, rest) = blob.split_at(IV_LEN);
    let (ciphertext, tag) = rest.split_at(rest.len() - MAC_LEN);
    let (body, _t) = blob.split_at(blob.len() - MAC_LEN);
    let expected = hmac_sha256_tag(hmac_key, body);
    proof {
        assert(tag@ =~= blob@.subrange(blob@.len() - MAC_LEN, blob@.len() as int));
        assert(ciphertext@ =~= blob@.subrange(IV_LEN as int, blob@.len() - MAC_LEN));
    }
    if !constant_time_eq(expected.as_slice(), tag) {
        return Err(AttachmentError::MacMismatch);
    }
    Ok((iv, ciphertext))
}

/// The decrypted, still padded plaintext cut back to its declared length;
/// fails when the declared length exceeds what was recovered.
pub fn trim_plaintext(padded_plaintext: &[u8], plaintext_len: usize) -> (r: Result<Vec<u8>, AttachmentError>)
    ensures
        r is Ok <==> plaintext_len <= padded_plaintext@.len(),
        r matches Ok(p) ==> p@ == padded_plaintext@.subrange(0, plaintext_len as int),
        r matches Err(e) ==> e is BadLength,
{
    if plaintext_len > padded_plaintext.len() {
        return Err(AttachmentError::BadLength);
    }
    Ok(crate::bytes::copy_range(padded_plaintext, 0, plaintext_len))
}

/// Opening what was sealed recovers the IV and the ciphertext: a blob framed
/// by `seal_attachment` under the HMAC half of a 64-byte key, with a
/// ciphertext of at least one block, passes the digest and MAC checks.
pub proof fn law_open_undoes_seal(iv: Seq<u8>, ciphertext: Seq<u8>, key: Seq<u8>)
    requires
        key.len() == KEY_LEN,
        iv.len() == IV_LEN,
        ciphertext.len() >= AES_BLOCK_LEN,
        hmac_sha256(key.subrange(32, 64), iv + ciphertext).len() == MAC_LEN,
    ensures
        ({
            let blob = sealed_blob(iv, ciphertext, key.subrange(32, 64));
            &&& blob.len() >= IV_LEN + AES_BLOCK_LEN + MAC_LEN
            &&& blob.subrange(0, blob.len() - MAC_LEN) == iv + ciphertext
            &&& hmac_sha256(key.subrange(32, 64), blob.subrange(0, blob.len() - MAC_LEN))
                == blob.subrange(blob.len() - MAC_LEN, blob.len() as int)
            &&& blob.subrange(0, IV_LEN as int) == iv
            &&& blob.subrange(IV_LEN as int, blob.len() - MAC_LEN) == ciphertext
        }),
{
    let hk = key.subrange(32, 64);
    let blob = sealed_blob(iv, ciphertext, hk);
    let tag = hmac_sha256(hk, iv + ciphertext);
    assert(blob.subrange(0, blob.len() - MAC_LEN) =~= iv + ciphertext);
    assert(blob.subrange(blob.len() - MAC_LEN, blob.len() as int) =~= tag);
    assert(blob.subrange(0, IV_LEN as int) =~= iv);
    assert(blob.subrange(IV_LEN as int, blob.len() - MAC_LEN) =~= ciphertext);
}

} // verus!
