use actnet::attachments::{
    bucket_size, constant_time_eq, generate_iv, generate_key, open_attachment, pad_plaintext, seal_attachment,
    split_key, trim_plaintext, AttachmentError, IV_LEN, MAC_LEN, MIN_BUCKET,
};
use actnet::ephemeral::EphemeralKeyPair;
use actnet::profile::{decrypt_profile_json, encrypt_profile_json, generate_profile_key, profile_key_needs_fetch, PROFILE_KEY_LEN};
use hmac::{Hmac, Mac};
use sha2::{Digest, Sha256};

#[test]
fn profile_round_trip() {
    let key = generate_profile_key();
    let json = br#"{"display_name":"Alice"}"#.to_vec();
    let blob = encrypt_profile_json(&json, &key).unwrap();
    assert_eq!(blob.len(), 12 + json.len() + 16);
    assert_eq!(decrypt_profile_json(&blob, &key).unwrap(), json);
}

#[test]
fn profile_wrong_key_fails() {
    let key = generate_profile_key();
    let other = generate_profile_key();
    let blob = encrypt_profile_json(br#"{"display_name":"Alice"}"#, &key).unwrap();
    assert!(decrypt_profile_json(&blob, &other).is_err());
    assert!(decrypt_profile_json(&[0u8; 27], &key).is_err());
    assert_eq!(PROFILE_KEY_LEN, 32);
}

fn sealed(ciphertext: &[u8], key: &[u8; 64]) -> actnet::attachments::EncryptedAttachment {
    let iv = generate_iv();
    seal_attachment(&iv, ciphertext, &key[32..])
}

#[test]
fn attachment_frame_is_iv_ciphertext_mac_with_digest() {
    let key = generate_key();
    let iv = [7u8; 16];
    let ct = [1u8; 32];
    let enc = seal_attachment(&iv, &ct, &key[32..]);
    assert_eq!(enc.blob.len(), IV_LEN + 32 + MAC_LEN);
    let mut mac = <Hmac<Sha256> as Mac>::new_from_slice(&key[32..]).unwrap();
    mac.update(&iv);
    mac.update(&ct);
    assert_eq!(&enc.blob[IV_LEN + 32..], mac.finalize().into_bytes().as_slice());
    assert_eq!(enc.digest, Sha256::digest(&enc.blob).to_vec());
    let (iv2, ct2) = open_attachment(&enc.blob, &key, &enc.digest).unwrap();
    assert_eq!((iv2, ct2), (&iv[..], &ct[..]));
}

#[test]
fn digest_mismatch_rejected_before_decrypt() {
    let key = generate_key();
    let enc = sealed(&[9u8; 16], &key);
    let mut bad_digest = enc.digest.clone();
    bad_digest[0] ^= 0xff;
    assert!(matches!(open_attachment(&enc.blob, &key, &bad_digest), Err(AttachmentError::DigestMismatch)));
}

#[test]
fn tampered_ciphertext_rejected() {
    let key = generate_key();
    let enc = sealed(&[9u8; 16], &key);
    let mut blob = enc.blob.clone();
    blob[IV_LEN + 1] ^= 0x01;
    // Recompute the digest to reach the MAC check.
    let digest = Sha256::digest(&blob).to_vec();
    assert!(matches!(open_attachment(&blob, &key, &digest), Err(AttachmentError::MacMismatch)));
}

#[test]
fn wrong_key_length_rejected() {
    assert!(matches!(split_key(&[0u8; 32]), Err(AttachmentError::InvalidKey)));
    assert!(matches!(open_attachment(&[0u8; 64], &[0u8; 32], &[]), Err(AttachmentError::InvalidKey)));
    let key = [1u8; 64];
    let (a, h) = split_key(&key).unwrap();
    assert_eq!((a.len(), h.len()), (32, 32));
}

#[test]
fn short_blob_is_malformed() {
    let key = generate_key();
    let blob = [0u8; IV_LEN + 16 + MAC_LEN - 1];
    assert!(matches!(open_attachment(&blob, &key, &[]), Err(AttachmentError::MalformedBlob)));
}

#[test]
fn padding_and_trimming() {
    assert_eq!(bucket_size(0, 0), MIN_BUCKET);
    assert_eq!(bucket_size(541, 0), 541);
    assert_eq!(bucket_size(542, 560), 560);
    // A rounded bucket below the input never truncates.
    assert_eq!(bucket_size(1000, 999), 1000);
    let p = pad_plaintext(b"abc", 6);
    assert_eq!(p, vec![b'a', b'b', b'c', 0, 0, 0]);
    assert_eq!(pad_plaintext(b"abcdef", 2), b"ab".to_vec());
    assert_eq!(trim_plaintext(&p, 3).unwrap(), b"abc".to_vec());
    assert!(matches!(trim_plaintext(&p, 7), Err(AttachmentError::BadLength)));
}

#[test]
fn constant_time_comparison() {
    assert!(constant_time_eq(b"abc", b"abc"));
    assert!(!constant_time_eq(b"abc", b"abd"));
    assert!(!constant_time_eq(b"abc", b"ab"));
    assert!(constant_time_eq(b"", b""));
}

#[test]
fn round_trips_through_private_bytes() {
    let kp = EphemeralKeyPair::from_serialized(&[1u8; 32], &[5u8; 33]);
    let restored = EphemeralKeyPair::from_serialized(&kp.private_bytes(), &kp.public_bytes());
    assert_eq!(restored.public_bytes(), kp.public_bytes());
    assert_eq!(restored.private_bytes(), vec![1u8; 32]);
}

#[test]
fn inbound_profile_key_fetches_only_when_new_and_well_formed() {
    let key = [7u8; PROFILE_KEY_LEN];
    let other = [8u8; PROFILE_KEY_LEN];
    assert!(profile_key_needs_fetch(&key, None));
    assert!(profile_key_needs_fetch(&key, Some(&other[..])));
    assert!(!profile_key_needs_fetch(&key, Some(&key[..])));
    assert!(!profile_key_needs_fetch(&key[..16], None));
    assert!(!profile_key_needs_fetch(&[], Some(&other[..])));
}
