use actnet::recovery::{
    build_recovery_blob, decrypt_recovery_blob, derive_recovery_keys_from_prf, derive_rotation_key_from_seed,
    encrypt_recovery_blob, generate_rotation_key, sign_with_rotation_key,
    validate_recovery_blob, GroupBlobEntry, RecoveredGroup, RecoveryBlob, ServerEntry, RECOVERY_BLOB_VERSION,
};
use p256::ecdsa::{signature::Verifier, Signature, SigningKey, VerifyingKey};

#[test]
fn server_urls_are_interned() {
    // Three groups, two distinct homeservers, and an account server that
    // overlaps one of them: exactly 2 entries in `servers`, not 4.
    let blob = build_recovery_blob(
        b"id",
        &["https://hs-a".into()],
        &[],
        "",
        &[
            GroupBlobEntry { master_key: vec![1u8; 32], hosting_server_url: "https://hs-a".into() },
            GroupBlobEntry { master_key: vec![2u8; 32], hosting_server_url: "https://hs-b".into() },
            GroupBlobEntry { master_key: vec![3u8; 32], hosting_server_url: "https://hs-a".into() },
        ],
        &[],
    );
    let urls: Vec<&str> = blob.servers.iter().map(|s| s.url.as_str()).collect();
    assert_eq!(urls, vec!["https://hs-a", "https://hs-b"]);
    assert_eq!(blob.groups[0].server_index, 0);
    assert_eq!(blob.groups[1].server_index, 1);
    assert_eq!(blob.groups[2].server_index, 0);
}

#[test]
fn round_trip_recovery_blob() {
    let key = [42u8; 32];
    let plaintext = build_recovery_blob(
        b"fake-identity-keypair",
        &["https://server1.example".into(), "https://server2.example".into()],
        &[7u8; 32],
        "Sam",
        &[GroupBlobEntry { master_key: vec![1u8; 32], hosting_server_url: "https://server1.example".into() }],
        &[9u8; 32],
    );
    assert_eq!(plaintext.identity_keypair, b"fake-identity-keypair");
    assert_eq!(plaintext.profile_key, vec![7u8; 32]);
    assert_eq!(plaintext.display_name, "Sam");
    assert_eq!(plaintext.groups.len(), 1);
    // The group's server is already an account server, so its index is 0.
    assert_eq!(plaintext.groups[0].server_index, 0);
    assert_eq!(plaintext.groups[0].master_key, vec![1u8; 32]);
    assert_eq!(plaintext.storage_key, vec![9u8; 32]);
    assert!(validate_recovery_blob(&plaintext).is_ok());

    // The envelope gives back the encoded body it sealed.
    let body = b"encoded recovery blob body".to_vec();
    let blob = encrypt_recovery_blob(&body, &key).unwrap();
    assert_eq!(decrypt_recovery_blob(&blob, &key).unwrap(), body);
}

#[test]
fn out_of_range_server_index_rejected() {
    let bad = RecoveryBlob {
        identity_keypair: b"id".to_vec(),
        servers: vec![ServerEntry { url: "https://hs".into() }],
        profile_key: vec![],
        display_name: String::new(),
        groups: vec![RecoveredGroup { master_key: vec![1u8; 32], server_index: 99 }],
        storage_key: vec![],
    };
    assert!(validate_recovery_blob(&bad).is_err());
}

#[test]
fn recovery_wrong_version_rejected() {
    let key = [42u8; 32];
    let mut blob = encrypt_recovery_blob(b"body", &key).unwrap();
    blob[0] = 0xFF;
    assert!(decrypt_recovery_blob(&blob, &key).is_err());
    blob[0] = 3; // the older JSON version
    assert!(decrypt_recovery_blob(&blob, &key).is_err());
}

#[test]
fn encoded_blob_starts_with_version_byte() {
    let key = [42u8; 32];
    let blob = encrypt_recovery_blob(b"body", &key).unwrap();
    assert_eq!(blob[0], RECOVERY_BLOB_VERSION);
    assert_eq!(blob.len(), 1 + 12 + 4 + 16);
}

#[test]
fn recovery_wrong_key_fails() {
    let blob = encrypt_recovery_blob(b"body", &[42u8; 32]).unwrap();
    assert!(decrypt_recovery_blob(&blob, &[99u8; 32]).is_err());
}

#[test]
fn short_recovery_blob_rejected() {
    assert!(decrypt_recovery_blob(&[RECOVERY_BLOB_VERSION; 28], &[1u8; 32]).is_err());
}

#[test]
fn random_rotation_key_round_trip() {
    let (private_key, _public_key) = generate_rotation_key();
    let payload = b"replace:did:plc:test:1:2:nonce123";
    let sig = sign_with_rotation_key(&private_key, payload).unwrap();
    assert!(!sig.is_empty());
    let signing_key = SigningKey::from_bytes((&private_key[..]).into()).unwrap();
    let verifying_key = VerifyingKey::from(&signing_key);
    let signature = Signature::from_der(&sig).unwrap();
    verifying_key.verify(payload, &signature).unwrap();
}

#[test]
fn prf_derivation_is_deterministic() {
    let prf = [7u8; 32];
    let (rot_seed_1, blob_key_1) = derive_recovery_keys_from_prf(&prf);
    let (rot_seed_2, blob_key_2) = derive_recovery_keys_from_prf(&prf);
    assert_eq!(rot_seed_1, rot_seed_2);
    assert_eq!(blob_key_1, blob_key_2);
    // The labels give distinct outputs.
    assert_ne!(rot_seed_1, blob_key_1);
}

#[test]
fn derived_rotation_key_signs_and_verifies() {
    let (seed, _blob_key) = derive_recovery_keys_from_prf(&[42u8; 32]);
    let (priv1, pub1) = derive_rotation_key_from_seed(&seed);
    let (priv2, pub2) = derive_rotation_key_from_seed(&seed);
    assert_eq!(priv1, priv2, "derivation is deterministic");
    assert_eq!(pub1, pub2);

    let payload = b"test-payload";
    let sig = sign_with_rotation_key(&priv1, payload).unwrap();
    let signing_key = SigningKey::from_bytes((&priv1[..]).into()).unwrap();
    let verifying_key = VerifyingKey::from(&signing_key);
    let signature = Signature::from_der(&sig).unwrap();
    verifying_key.verify(payload, &signature).unwrap();
}

#[test]
fn different_prf_gives_different_rotation_key() {
    let (seed_a, _) = derive_recovery_keys_from_prf(&[1u8; 32]);
    let (seed_b, _) = derive_recovery_keys_from_prf(&[2u8; 32]);
    let (priv_a, _) = derive_rotation_key_from_seed(&seed_a);
    let (priv_b, _) = derive_rotation_key_from_seed(&seed_b);
    assert_ne!(priv_a, priv_b);
}

#[test]
fn rotation_seeds_reduce_mod_the_group_order() {
    let order: [u8; 32] = [
        0xff, 0xff, 0xff, 0xff, 0x00, 0x00, 0x00, 0x00, 0xff, 0xff, 0xff, 0xff, 0xff, 0xff, 0xff, 0xff,
        0xbc, 0xe6, 0xfa, 0xad, 0xa7, 0x17, 0x9e, 0x84, 0xf3, 0xb9, 0xca, 0xc2, 0xfc, 0x63, 0x25, 0x51,
    ];
    let mut one = [0u8; 32];
    one[31] = 1;
    let key_one = derive_rotation_key_from_seed(&one);
    assert_eq!(key_one.0, one.to_vec());
    // One past the order reduces to one.
    let mut order_plus_one = order;
    order_plus_one[31] = 0x52;
    assert_eq!(derive_rotation_key_from_seed(&order_plus_one), key_one);
    // Zero and the order itself reduce to zero, and are retried as seed + 1.
    assert_eq!(derive_rotation_key_from_seed(&[0u8; 32]), key_one);
    assert_eq!(derive_rotation_key_from_seed(&order), key_one);
    // A seed below the order is its own scalar.
    let mut below = order;
    below[31] = 0x50;
    assert_eq!(derive_rotation_key_from_seed(&below).0, below.to_vec());
    // The largest seed reduces to 2^256 - 1 - order.
    let top = derive_rotation_key_from_seed(&[0xffu8; 32]);
    let reduced: [u8; 32] = [
        0x00, 0x00, 0x00, 0x00, 0xff, 0xff, 0xff, 0xff, 0x00, 0x00, 0x00, 0x00, 0x00, 0x00, 0x00, 0x00,
        0x43, 0x19, 0x05, 0x52, 0x58, 0xe8, 0x61, 0x7b, 0x0c, 0x46, 0x35, 0x3d, 0x03, 0x9c, 0xda, 0xae,
    ];
    assert_eq!(top.0, reduced.to_vec());
    assert!(sign_with_rotation_key(&[0u8; 32], b"x").is_err());
}

#[test]
fn random_rotation_key_is_the_pair_its_scalar_gives() {
    let (private_key, public_key) = generate_rotation_key();
    assert_eq!(private_key.len(), 32);
    assert_eq!(public_key.len(), 33);
    let seed: [u8; 32] = private_key.clone().try_into().unwrap();
    assert_eq!(derive_rotation_key_from_seed(&seed), (private_key, public_key));
}
