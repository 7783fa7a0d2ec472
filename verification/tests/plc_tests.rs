use actnet::plc::{
    build_genesis_op, build_identity_update_op, derive_did, did_key_ed25519, did_key_p256,
    extract_homeserver_endpoint, plc_op_cid, sign_op_bytes, submission_decision, with_signature, DocService,
    SubmitOutcome,
};
use actnet::recovery::generate_rotation_key;
use base64::Engine;
use p256::ecdsa::{signature::Verifier, Signature, SigningKey, VerifyingKey};

fn service(t: Option<&str>, e: Option<&str>) -> DocService {
    DocService { service_type: t.map(String::from), service_endpoint: e.map(String::from) }
}

/// Stand-in DAG-CBOR bytes for an operation (the serde encoding is outside the library).
fn stand_in_cbor(fields: &[&str]) -> Vec<u8> {
    let mut v = Vec::new();
    for f in fields {
        v.extend_from_slice(f.as_bytes());
        v.push(0);
    }
    v
}

#[test]
fn extract_homeserver_endpoint_finds_avalanche_service() {
    let services = vec![
        service(Some("OtherService"), Some("https://nope")),
        service(Some("AvalancheHomeserver"), Some("https://hs.example")),
    ];
    assert_eq!(extract_homeserver_endpoint(Some(&services)).as_deref(), Some("https://hs.example"));
}

#[test]
fn extract_homeserver_endpoint_missing_returns_none() {
    assert_eq!(extract_homeserver_endpoint(Some(&vec![])), None);
    assert_eq!(extract_homeserver_endpoint(None), None);
    // The first homeserver entry decides, even without an endpoint.
    let services = vec![service(Some("AvalancheHomeserver"), None), service(Some("AvalancheHomeserver"), Some("https://x"))];
    assert_eq!(extract_homeserver_endpoint(Some(&services)), None);
}

#[test]
fn did_key_p256_encoding() {
    let (_, pub_key) = generate_rotation_key();
    let did_key = did_key_p256(&pub_key);
    assert!(did_key.starts_with("did:key:z"));
    assert!(did_key.len() > 50);
    let mut expected = vec![0x80u8, 0x24];
    expected.extend_from_slice(&pub_key);
    assert_eq!(did_key, format!("did:key:z{}", bs58::encode(&expected).into_string()));
}

#[test]
fn did_key_ed25519_encoding() {
    let pub_key = [42u8; 32];
    let did_key = did_key_ed25519(&pub_key);
    assert!(did_key.starts_with("did:key:z"));
    // The libsignal form with its 0x05 type byte encodes to the same key.
    let mut typed = vec![0x05u8];
    typed.extend_from_slice(&pub_key);
    assert_eq!(did_key_ed25519(&typed), did_key);
}

#[test]
fn genesis_op_round_trip() {
    let (priv_key, pub_key) = generate_rotation_key();
    let op = build_genesis_op(&pub_key, "https://example.com");
    assert_eq!(op.op_type, "plc_operation");
    assert!(op.prev.is_none());
    assert!(op.sig.is_none());
    assert_eq!(op.rotation_keys.len(), 1);
    assert!(op.verification_methods.is_empty());
    assert_eq!(op.services[0].0, "avalanche_homeserver");
    assert_eq!(op.services[0].1.service_type, "AvalancheHomeserver");
    assert_eq!(op.services[0].1.endpoint, "https://example.com");

    let unsigned = stand_in_cbor(&[&op.rotation_keys[0], "https://example.com"]);
    let sig = sign_op_bytes(&unsigned, &priv_key).unwrap();
    let signed = with_signature(op, sig.clone());
    assert_eq!(signed.sig.as_deref(), Some(sig.as_str()));

    let signed_cbor = stand_in_cbor(&[&signed.rotation_keys[0], "https://example.com", &sig]);
    let did = derive_did(&signed_cbor);
    assert!(did.starts_with("did:plc:"));
    assert_eq!(did.len(), "did:plc:".len() + 24);
    assert_eq!(did, derive_did(&signed_cbor));
}

#[test]
fn signature_is_valid() {
    let (priv_key, pub_key) = generate_rotation_key();
    let op = build_genesis_op(&pub_key, "https://example.com");
    let unsigned = stand_in_cbor(&[&op.rotation_keys[0]]);
    let sig = sign_op_bytes(&unsigned, &priv_key).unwrap();
    let sig_bytes = base64::engine::general_purpose::URL_SAFE_NO_PAD.decode(&sig).unwrap();
    assert_eq!(sig_bytes.len(), 64);
    let signature = Signature::from_bytes((&sig_bytes[..]).into()).unwrap();
    let signing_key = SigningKey::from_bytes((&priv_key[..]).into()).unwrap();
    let verifying_key = VerifyingKey::from(&signing_key);
    verifying_key.verify(&unsigned, &signature).unwrap();
    assert!(signature.normalize_s().is_none(), "signature is low-S");
}

#[test]
fn identity_update_op_chains_to_genesis() {
    let (_priv_key, pub_key) = generate_rotation_key();
    let identity_key = [9u8; 32];
    let server = "https://example.com";
    let genesis = build_genesis_op(&pub_key, server);
    let cid = plc_op_cid(&stand_in_cbor(&[&genesis.rotation_keys[0], server, "sig"]));
    let update = build_identity_update_op(&pub_key, &identity_key, server, &cid);
    assert_eq!(update.prev.as_deref(), Some(cid.as_str()));
    assert!(cid.starts_with("bafyrei"), "expected CIDv1 prefix, got {cid}");
    assert_eq!(cid.len(), 59);
    assert_eq!(update.verification_methods.len(), 1);
    assert_eq!(update.verification_methods[0].0, "avalanche");
    assert_eq!(update.verification_methods[0].1, did_key_ed25519(&identity_key));
    assert_eq!(update.rotation_keys, genesis.rotation_keys);
    assert_eq!(update.services.len(), 1);
}

#[test]
fn did_is_deterministic_from_rotation_and_server() {
    let seed = [7u8; 32];
    let (priv_key, pub_key) = actnet::recovery::derive_rotation_key_from_seed(&seed);
    let server = "https://example.com";
    let did_of = || {
        let op = build_genesis_op(&pub_key, server);
        let unsigned = stand_in_cbor(&[&op.rotation_keys[0], server]);
        let sig = sign_op_bytes(&unsigned, &priv_key).unwrap();
        derive_did(&stand_in_cbor(&[&op.rotation_keys[0], server, &sig]))
    };
    assert_eq!(did_of(), did_of(), "DID must be deterministic for recovery");
}

#[test]
fn submission_is_idempotent_and_refuses_conflicts() {
    let log = vec![b"op0".to_vec(), b"op1".to_vec()];
    assert_eq!(submission_decision(None, b"op0", 0).unwrap(), SubmitOutcome::Submitted);
    assert_eq!(submission_decision(Some(&log), b"op0", 0).unwrap(), SubmitOutcome::AlreadyApplied);
    assert!(submission_decision(Some(&log), b"other", 1).is_err());
    assert_eq!(submission_decision(Some(&log), b"op2", 2).unwrap(), SubmitOutcome::Submitted);
    assert!(submission_decision(Some(&log), b"op4", 4).is_err());
}

#[test]
fn invalid_rotation_key_cannot_sign() {
    assert!(sign_op_bytes(b"x", &[0u8; 32]).is_err());
}
