use actnet::error::AppError;
use actnet::provisioning::{derive_shared_key, open_bundle, seal_bundle, PairingCode, PROVISIONING_BUNDLE_VERSION};
use hkdf::Hkdf;
use sha2::Sha256;

fn sample_bundle() -> Vec<u8> {
    b"encoded provisioning bundle: identity, rotation key, storage key, did".to_vec()
}

#[test]
fn bundle_round_trip() {
    let key = [42u8; 32];
    let b = sample_bundle();
    let sealed = seal_bundle(&b, &key).unwrap();
    assert_eq!(sealed[0], PROVISIONING_BUNDLE_VERSION);
    assert_eq!(open_bundle(&sealed, &key).unwrap(), b);
}

#[test]
fn provisioning_wrong_key_fails() {
    let sealed = seal_bundle(&sample_bundle(), &[1u8; 32]).unwrap();
    assert!(open_bundle(&sealed, &[2u8; 32]).is_err());
}

#[test]
fn tamper_fails() {
    let key = [42u8; 32];
    let mut sealed = seal_bundle(&sample_bundle(), &key).unwrap();
    let last = sealed.len() - 1;
    sealed[last] ^= 0x01;
    assert!(open_bundle(&sealed, &key).is_err());
}

#[test]
fn provisioning_wrong_version_rejected() {
    let key = [42u8; 32];
    let mut sealed = seal_bundle(&sample_bundle(), &key).unwrap();
    sealed[0] = 0xFF;
    assert!(matches!(open_bundle(&sealed, &key), Err(AppError::Provisioning(_))));
    assert!(open_bundle(&[PROVISIONING_BUNDLE_VERSION; 28], &key).is_err());
}

#[test]
fn shared_key_is_hkdf_of_the_secret() {
    let secret = [3u8; 32];
    let hk = Hkdf::<Sha256>::new(None, &secret);
    let mut expected = [0u8; 32];
    hk.expand(b"actnet-provisioning-v1", &mut expected).unwrap();
    assert_eq!(derive_shared_key(&secret), expected);
    assert_ne!(derive_shared_key(&[4u8; 32]), expected);
}

#[test]
fn pairing_code_round_trip() {
    let pc = PairingCode {
        mailbox_url: "https://av.theavalanche.net".into(),
        session_id: "01J9X-session-uuid".into(),
        ephemeral_pub: vec![5u8; 33],
    };
    let s = pc.encode();
    assert!(s.starts_with("av1."));
    assert_eq!(PairingCode::decode(&s).unwrap(), pc);
    // Tolerates surrounding whitespace (pasted codes).
    assert_eq!(PairingCode::decode(&format!("  {s}\n")).unwrap(), pc);
}

#[test]
fn pairing_code_rejects_garbage() {
    assert!(PairingCode::decode("").is_err());
    assert!(PairingCode::decode("av1.only.two").is_err());
    assert!(PairingCode::decode("av2.a.b.c").is_err());
    assert!(PairingCode::decode("av1.!!!.b.c").is_err());
    // Invalid UTF-8 in the mailbox url.
    assert!(PairingCode::decode("av1.__8.YQ.YQ").is_err());
}

#[test]
fn pairing_code_with_empty_fields_round_trips() {
    let pc = PairingCode { mailbox_url: String::new(), session_id: "é".into(), ephemeral_pub: vec![] };
    let s = pc.encode();
    assert!(s.ends_with('.'));
    assert_eq!(PairingCode::decode(&s).unwrap(), pc);
}
