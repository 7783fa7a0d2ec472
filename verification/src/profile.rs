//! The encrypted profile blob: the profile's JSON sealed with AES-256-GCM
//! under the 32-byte profile key, as `nonce(12) ‖ ciphertext ‖ tag(16)`.
//! Only contacts who hold the profile key can open it.
use vstd::prelude::*;

use crate::error::{protocol, AppError};
use crate::prims::{aes256gcm_decrypt, aes256gcm_encrypt, aes_gcm_open, aes_gcm_p_max, aes_gcm_seal, random_12, random_32};

verus! {

/// AES-GCM nonce length.
pub const NONCE_LEN: usize = 12;
/// Profile keys are 32 bytes (AES-256).
pub const PROFILE_KEY_LEN: usize = 32;

/// The profile's plaintext fields.
pub struct ProfilePlaintext {
    pub display_name: String,
    /// Avatar version, bumped on every avatar change; absent when no avatar is set.
    pub avatar_version: Option<u32>,
    /// base64 SHA-256 of the avatar ciphertext, checked before decryption.
    pub avatar_digest: Option<String>,
}

/// A fresh random profile key.
pub fn generate_profile_key() -> (r: [u8; 32]) {
    random_32()
}

/// A sealed profile: the nonce followed by the AES-GCM sealing of the JSON.
pub open spec fn sealed_profile(key: Seq<u8>, nonce: Seq<u8>, json: Seq<u8>) -> Seq<u8> {
    nonce + aes_gcm_seal(key, nonce, json)
}

/// Seals the profile JSON under the profile key with a fresh random nonce;
/// fails exactly when the cipher refuses the input (longer than 2^36 bytes).
pub fn encrypt_profile_json(json: &[u8], profile_key: &[u8; 32]) -> (r: Result<Vec<u8>, AppError>)
    ensures
        r is Ok <==> json@.len() <= aes_gcm_p_max(),
        r matches Ok(blob) ==> exists|nonce: Seq<u8>|
            nonce.len() == NONCE_LEN && blob@ == sealed_profile(profile_key@, nonce, json@),
        r matches Err(e) ==> e is Protocol,
{
    let nonce = random_12();
    let ct = match aes256gcm_encrypt(profile_key, &nonce, json) {
        Some(c) => c,
        None => return Err(protocol("profile encryption failed")),
    };
    let mut blob: Vec<u8> = crate::bytes::copy_all(&nonce);
    crate::bytes::append_bytes(&mut blob, ct.as_slice());
    proof {
        assert(blob@ =~= sealed_profile(profile_key@, nonce@, json@));
    }
    Ok(blob)
}

/// Opens a profile blob and returns the JSON: it must be at least
/// `nonce ‖ tag` long and authenticate under the profile key. Opening what
/// [`encrypt_profile_json`] sealed under the same key gives back the JSON.
pub fn decrypt_profile_json(blob: &[u8], profile_key: &[u8; 32]) -> (r: Result<Vec<u8>, AppError>)
    ensures
        r is Ok <==> (blob@.len() >= NONCE_LEN + 16 && aes_gcm_open(
            profile_key@,
            blob@.subrange(0, 12),
            blob@.subrange(12, blob@.len() as int),
        ) is Some),
        r matches Ok(json) ==> aes_gcm_open(profile_key@, blob@.subrange(0, 12), blob@.subrange(12, blob@.len() as int))
            == Some(json@),
        r matches Err(e) ==> e is Protocol,
        forall|nonce: Seq<u8>, json: Seq<u8>|
            #![trigger sealed_profile(profile_key@, nonce, json)]
            nonce.len() == NONCE_LEN && json.len() <= aes_gcm_p_max() && blob@.len() >= NONCE_LEN + 16
                && blob@ == sealed_profile(profile_key@, nonce, json) ==> (r matches Ok(b) && b@ == json),
{
    if blob.len() < NONCE_LEN + 16 {
        return Err(protocol("profile blob too short"));
    }
    let nb = crate::bytes::copy_range(blob, 0, 12);
    let nonce: [u8; 12] = [nb[0], nb[1], nb[2], nb[3], nb[4], nb[5], nb[6], nb[7], nb[8], nb[9], nb[10], nb[11]];
    assert(nonce@ =~= blob@.subrange(0, 12));
    let ct = crate::bytes::copy_range(blob, 12, blob.len());
    proof {
        assert forall|n: Seq<u8>, json: Seq<u8>|
            #![trigger sealed_profile(profile_key@, n, json)]
            n.len() == NONCE_LEN && blob@ == sealed_profile(profile_key@, n, json) implies nonce@ == n
            && ct@ == aes_gcm_seal(profile_key@, n, json) by {
            let s = sealed_profile(profile_key@, n, json);
            assert(s.subrange(0, 12) =~= n);
            assert(s.subrange(12, s.len() as int) =~= aes_gcm_seal(profile_key@, n, json));
        }
    }
    match aes256gcm_decrypt(profile_key, &nonce, ct.as_slice()) {
        Some(json) => Ok(json),
        None => Err(protocol("profile decryption failed (wrong key?)")),
    }
}

/// Whether a profile key that arrived with a message calls for fetching the
/// sender's profile: it has the profile-key length and differs from the key
/// cached for the sender (or none is cached).
pub fn profile_key_needs_fetch(profile_key: &[u8], cached: Option<&[u8]>) -> (r: bool)
    ensures
        r == (profile_key@.len() == PROFILE_KEY_LEN && match cached {
            Some(c) => c@ != profile_key@,
            None => true,
        }),
{
    if profile_key.len() != PROFILE_KEY_LEN {
        return false;
    }
    match cached {
        Some(c) => !crate::bytes::bytes_eq(c, profile_key),
        None => true,
    }
}

} // verus!
