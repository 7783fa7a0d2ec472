use actnet::storage_sync::{
    decode_group, encode_group, open, record_id, seal, ContactAdapter, ContactProfile, ContactProfileAdapter,
    ContactRecord, ConvSettingsAdapter, ConvSettingsRecord, GroupKeyAdapter, GroupKeyRecord, SyncRegistry, SyncTriggerSpec,
    Timestamp, RECORD_VERSION, TYPE_CONTACT, TYPE_CONTACT_PROFILE, TYPE_CONV_SETTINGS, TYPE_GROUP_KEY,
};

#[test]
fn group_payload_round_trips() {
    let enc = encode_group(&[5u8; 32], "https://hs.example");
    let (mk, url) = decode_group(&enc).unwrap();
    assert_eq!(mk, [5u8; 32]);
    assert_eq!(url, "https://hs.example");
}

#[test]
fn contact_payload_round_trips() {
    let r = ContactRecord {
        did: "did:plc:x".into(),
        is_curated: true,
        last_interaction_at: 1_700_000_000_000,
        is_blocked: true,
    };
    let bytes = ContactAdapter::encode(&r);
    assert_eq!(bytes.len(), 10);
    let back = ContactAdapter::decode("did:plc:x", &bytes).unwrap();
    assert_eq!(back.did, "did:plc:x"); // the logical key, not the payload
    assert!(back.is_curated);
    assert_eq!(back.last_interaction_at, 1_700_000_000_000);
    assert!(back.is_blocked);

    // A legacy 9-byte payload (before the block byte) reads as unblocked.
    let legacy = &bytes[..9];
    let old = ContactAdapter::decode("did:plc:x", legacy).unwrap();
    assert!(!old.is_blocked, "legacy record decodes to unblocked");
    assert!(old.is_curated);
}

#[test]
fn conv_settings_round_trips_some_and_none() {
    let some = ConvSettingsRecord { conversation_id: "c1".into(), expiry_secs: Some(86_400) };
    let b = ConvSettingsAdapter::encode(&some);
    assert_eq!(b.len(), 4);
    assert_eq!(ConvSettingsAdapter::decode("c1", &b).unwrap().expiry_secs, Some(86_400));
    // No timer encodes empty, distinct from a tombstone.
    let none = ConvSettingsRecord { conversation_id: "c1".into(), expiry_secs: None };
    let b2 = ConvSettingsAdapter::encode(&none);
    assert!(b2.is_empty());
    assert_eq!(ConvSettingsAdapter::decode("c1", &b2).unwrap().expiry_secs, None);
    // A malformed (neither 0 nor 4 bytes) payload is rejected.
    assert!(ConvSettingsAdapter::decode("c1", &[1, 2, 3]).is_err());
}

#[test]
fn record_id_is_deterministic_and_scoped() {
    let key = [1u8; 32];
    let base = record_id(&key, TYPE_GROUP_KEY, "g1");
    assert_eq!(base.len(), 16);
    assert_eq!(base, record_id(&key, TYPE_GROUP_KEY, "g1"));
    assert_ne!(base, record_id(&key, TYPE_GROUP_KEY, "g2"));
    assert_ne!(base, record_id(&key, TYPE_GROUP_KEY + 1, "g1"));
    assert_ne!(base, record_id(&[2u8; 32], TYPE_GROUP_KEY, "g1"));
}

#[test]
fn seal_open_round_trips_tag_key_and_payload() {
    let key = [9u8; 32];
    let blob = seal(&key, TYPE_GROUP_KEY, "group-xyz", b"payload-bytes").unwrap();
    let (tag, lk, payload) = open(&key, &blob).unwrap();
    assert_eq!(tag, TYPE_GROUP_KEY);
    assert_eq!(lk, "group-xyz");
    assert_eq!(payload, b"payload-bytes");
    assert_eq!(blob[0], RECORD_VERSION);
}

#[test]
fn tombstone_header_round_trips_with_empty_payload() {
    let key = [9u8; 32];
    let blob = seal(&key, TYPE_GROUP_KEY, "gone", b"").unwrap();
    let (tag, lk, payload) = open(&key, &blob).unwrap();
    assert_eq!(tag, TYPE_GROUP_KEY);
    assert_eq!(lk, "gone");
    assert!(payload.is_empty());
}

#[test]
fn open_rejects_bad_version_tamper_and_wrong_key() {
    let key = [9u8; 32];
    let blob = seal(&key, TYPE_GROUP_KEY, "g", b"x").unwrap();

    let mut bad_version = blob.clone();
    bad_version[0] = 0xFF;
    assert!(open(&key, &bad_version).is_err());

    let mut tampered = blob.clone();
    let last = tampered.len() - 1;
    tampered[last] ^= 0x01;
    assert!(open(&key, &tampered).is_err(), "GCM must reject a flipped byte");

    assert!(open(&[8u8; 32], &blob).is_err(), "wrong key must fail");
}

#[test]
fn contact_profile_round_trips() {
    let p = ContactProfile {
        did: "did:plc:y".into(),
        display_name: "Alice 👋".into(),
        profile_key: vec![9u8; 32],
        fetched_at: Timestamp(42),
    };
    let b = ContactProfileAdapter::encode(&p);
    let back = ContactProfileAdapter::decode("did:plc:y", &b).unwrap();
    assert_eq!(back.did, "did:plc:y");
    assert_eq!(back.display_name, "Alice 👋");
    assert_eq!(back.profile_key, vec![9u8; 32]);
    assert_eq!(back.fetched_at.as_millis(), 42);
}

#[test]
fn default_registry_has_four_distinct_types_and_triggers() {
    let reg = SyncRegistry::default_registry();
    for tag in [TYPE_GROUP_KEY, TYPE_CONTACT, TYPE_CONV_SETTINGS, TYPE_CONTACT_PROFILE] {
        assert!(reg.get(tag).is_some(), "missing adapter for tag {tag}");
    }
    let specs = reg.trigger_specs();
    assert_eq!(specs.len(), 4);
    let tables: std::collections::HashSet<String> = specs.iter().map(|s| s.table.clone()).collect();
    assert_eq!(tables.len(), 4, "each synced type watches a distinct table");
}

#[test]
fn group_key_record_round_trips_and_short_payload_fails() {
    let rec = GroupKeyRecord { master_key: [3u8; 32], hosting_server_url: "https://x".into() };
    let b = GroupKeyAdapter::encode(&rec);
    let back = GroupKeyAdapter::decode("g", &b).unwrap();
    assert_eq!(back.master_key, [3u8; 32]);
    assert_eq!(back.hosting_server_url, "https://x");
    assert!(decode_group(&[1u8; 31]).is_err());
}

#[test]
fn registry_lookup_gives_the_entry_registered_under_the_tag() {
    let mut reg = SyncRegistry::new();
    reg.add(SyncTriggerSpec::new("groups", "group_id", TYPE_GROUP_KEY));
    reg.add(SyncTriggerSpec::new("contacts", "did", TYPE_CONTACT));
    let g = reg.get(TYPE_GROUP_KEY).unwrap();
    assert_eq!((g.table.as_str(), g.key_column.as_str(), g.type_tag), ("groups", "group_id", TYPE_GROUP_KEY));
    let c = reg.get(TYPE_CONTACT).unwrap();
    assert_eq!((c.table.as_str(), c.key_column.as_str()), ("contacts", "did"));
    assert!(reg.get(TYPE_CONV_SETTINGS).is_none());
    let specs = SyncRegistry::default_registry().trigger_specs();
    let cols: Vec<(&str, &str)> = specs.iter().map(|s| (s.table.as_str(), s.key_column.as_str())).collect();
    assert_eq!(
        cols,
        vec![
            ("groups", "group_id"),
            ("contacts", "did"),
            ("conversation_settings", "conversation_id"),
            ("contact_profiles", "did")
        ]
    );
}
