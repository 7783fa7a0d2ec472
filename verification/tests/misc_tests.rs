use actnet::connection::{backoff_after_connection, backoff_after_wait, receive_step, reconnecting_state, subscription_set, ConnectionState, StreamAction, StreamEvent};
use actnet::ffi::AdminEvent;
use actnet::credentials::RedemptionTime;
use actnet::error::{AppError, AppErrorFfi, CryptoError, NetError};
use actnet::net_types::{
    decode_b64, reauthenticate_and_retry, recovery_bundle, storage_pull_page, storage_pull_path, storage_push_result,
    wire_writes, RawFetchResponse, RawInboundMessage, RawKyberPreKey, RawOneTimePreKey, RawPreKeyBundleResponse,
    RawSignedPreKey, RawStorageApplied, RawStorageConflict, RawStorageItem,
};
use actnet::prekeys::{kyber_records, one_time_records, one_time_upload, refill_count, refill_ids, GeneratedOneTimePreKey, OneTimePreKey};
use actnet::storage_sync::StorageWrite;
use actnet::text::{hex, i64_to_decimal, trim_str, u64_to_decimal};

#[test]
fn redemption_times() {
    assert!(RedemptionTime::from_unix_seconds(86_400 * 2).is_day_aligned());
    assert!(!RedemptionTime::from_unix_seconds(86_400 * 2 + 1).is_day_aligned());
    assert_eq!(RedemptionTime::from_unix_seconds(7).0, 7);
}

#[test]
fn text_helpers() {
    assert_eq!(hex(&[0x00, 0x0f, 0xab, 0xff]), "000fabff");
    assert_eq!(hex(&[]), "");
    assert_eq!(u64_to_decimal(0), "0");
    assert_eq!(u64_to_decimal(1234567890), "1234567890");
    assert_eq!(i64_to_decimal(-42), "-42");
    assert_eq!(i64_to_decimal(i64::MIN), i64::MIN.to_string());
    assert_eq!(trim_str("\u{3000} a b \t"), "a b");
}

#[test]
fn backoff_doubles_caps_and_resets() {
    assert_eq!(backoff_after_wait(1, false), 2);
    assert_eq!(backoff_after_wait(16, false), 30);
    assert_eq!(backoff_after_wait(30, false), 30);
    assert_eq!(backoff_after_wait(8, true), 1);
    assert_eq!(backoff_after_connection(8, 5000), 1);
    assert_eq!(backoff_after_connection(8, 4999), 8);
    assert_eq!(reconnecting_state(1000, 500), ConnectionState::Reconnecting { next_attempt_at_ms: 1500 });
}

#[test]
fn subscription_set_lists_every_pseudonym() {
    assert_eq!(subscription_set(&vec![None, None]), None);
    assert_eq!(subscription_set(&vec![]), None);
    assert_eq!(subscription_set(&vec![Some(vec![1]), None, Some(vec![2])]), Some(vec![vec![1], vec![2]]));
}

#[test]
fn prekey_refill() {
    assert_eq!(refill_count(10), None);
    assert_eq!(refill_count(9), Some(11));
    assert_eq!(refill_count(0), Some(20));
    assert_eq!(refill_ids(100, 3), vec![100, 101, 102]);
    let keys = vec![GeneratedOneTimePreKey { wire: OneTimePreKey { id: 7, public_key: vec![1] }, record: vec![2] }];
    assert_eq!(one_time_upload(&keys), vec![(7, vec![1])]);
    assert_eq!(one_time_records(&keys), vec![(7, vec![2])]);
    assert!(kyber_records(&vec![]).is_empty());
}

#[test]
fn base64_fields_decode() {
    assert_eq!(decode_b64("aGk=").unwrap(), b"hi".to_vec());
    assert!(matches!(decode_b64("a"), Err(NetError::Base64(_))));
    let raw = RawPreKeyBundleResponse {
        identity_key: "AQ==".into(),
        registration_id: 5,
        signed_prekey: RawSignedPreKey { id: 1, public_key: "Ag==".into(), signature: "Aw==".into() },
        one_time_prekey: Some(RawOneTimePreKey { id: 2, public_key: "BA==".into() }),
        kyber_prekey: RawKyberPreKey { id: 3, public_key: "BQ==".into(), signature: "Bg==".into() },
    };
    let b = raw.decode().unwrap();
    assert_eq!(b.identity_key, vec![1]);
    assert_eq!(b.one_time_prekey, Some((2, vec![4])));
    assert_eq!((b.kyber_prekey_public, b.kyber_prekey_signature), (vec![5], vec![6]));
    let bad = RawPreKeyBundleResponse {
        identity_key: "AQ==".into(),
        registration_id: 5,
        signed_prekey: RawSignedPreKey { id: 1, public_key: "Ag==".into(), signature: "Aw==".into() },
        one_time_prekey: Some(RawOneTimePreKey { id: 2, public_key: "%%".into() }),
        kyber_prekey: RawKyberPreKey { id: 3, public_key: "BQ==".into(), signature: "Bg==".into() },
    };
    assert!(bad.decode().is_err());
    let fetched = RawFetchResponse {
        messages: vec![RawInboundMessage {
            id: 9,
            ciphertext: "AAE=".into(),
            message_kind: 1,
            enqueued_at: "t".into(),
            sender_did: Some("did:x".into()),
            sender_device_id: Some(2),
        }],
    };
    let msgs = fetched.decode().unwrap();
    assert_eq!((msgs[0].id, msgs[0].ciphertext.clone()), (9, vec![0, 1]));
    let rb = recovery_bundle("AAE=", vec![1, 2]).unwrap();
    assert_eq!((rb.blob, rb.device_ids), (vec![0, 1], vec![1, 2]));
}

#[test]
fn storage_wire_records() {
    assert_eq!(storage_pull_path(5, 500), "/v1/storage/items?since=5&limit=500");
    let page = storage_pull_page(
        vec![RawStorageItem { record_id: "AQ==".into(), version: 2, seq: 3, deleted: false, ciphertext: "Ag==".into() }],
        3,
        false,
    )
    .unwrap();
    assert_eq!((page.items[0].record_id.clone(), page.items[0].ciphertext.clone()), (vec![1], vec![2]));
    assert_eq!((page.next_cursor, page.has_more), (3, false));
    let w = wire_writes(&vec![StorageWrite { record_id: vec![1], expected_version: 0, deleted: true, ciphertext: vec![] }]);
    assert_eq!((w[0].record_id.as_str(), w[0].ciphertext.as_str(), w[0].deleted), ("AQ==", "", true));
    let res = storage_push_result(
        &vec![RawStorageApplied { record_id: "AQ==".into(), version: 4, seq: 8 }],
        &vec![RawStorageConflict { record_id: "Ag==".into(), current_version: 6 }],
    )
    .unwrap();
    assert_eq!((res.applied[0].record_id.clone(), res.applied[0].seq), (vec![1], 8));
    assert_eq!((res.conflicts[0].record_id.clone(), res.conflicts[0].current_version), (vec![2], 6));
    assert!(storage_push_result(&vec![RawStorageApplied { record_id: "*".into(), version: 1, seq: 1 }], &vec![]).is_err());
    assert!(reauthenticate_and_retry(401));
    assert!(!reauthenticate_and_retry(403));
}

#[test]
fn errors_flatten_for_foreign_callers() {
    let e = AppErrorFfi::from_app_error(AppError::Net(NetError::Server(404, "nope".into())));
    assert_eq!(e, AppErrorFfi::Net { reason: "server returned 404: nope".into() });
    assert_eq!(
        AppErrorFfi::from_app_error(AppError::Provisioning("x".into())),
        AppErrorFfi::Protocol { reason: "x".into() }
    );
    assert_eq!(AppErrorFfi::from_app_error(AppError::NoAccount), AppErrorFfi::NoAccount);
    let c = AppErrorFfi::from_app_error(AppError::Crypto(CryptoError::InvalidKey));
    assert!(matches!(c, AppErrorFfi::Crypto { .. }));
}

#[test]
fn failed_direct_delivery_is_acked_but_not_processed() {
    let s = receive_step(StreamEvent::Direct { ack_token: 77, decrypted: false });
    assert_eq!(s.len(), 1);
    assert!(matches!(s[0], StreamAction::AckDirect(77)));
    let ok = receive_step(StreamEvent::Direct { ack_token: 78, decrypted: true });
    assert_eq!(ok.len(), 2);
    assert!(matches!(ok[0], StreamAction::AckDirect(78)), "acknowledged first");
    assert!(matches!(ok[1], StreamAction::Process), "processed after the ack");
}

#[test]
fn group_delivery_is_acked_on_the_group_channel() {
    let s = receive_step(StreamEvent::Group { ack_token: 9, decrypted: false });
    assert_eq!(s.len(), 1);
    assert!(matches!(s[0], StreamAction::AckGroup(9)));
    let ok = receive_step(StreamEvent::Group { ack_token: 10, decrypted: true });
    assert_eq!(ok.len(), 2);
    assert!(matches!(ok[0], StreamAction::AckGroup(10)));
    assert!(matches!(ok[1], StreamAction::Process));
}

#[test]
fn stream_end_stops_and_nudges_trigger_their_work() {
    assert!(matches!(receive_step(StreamEvent::Closed)[..], [StreamAction::Stop]));
    assert!(matches!(receive_step(StreamEvent::GroupsChanged)[..], [StreamAction::Resubscribe]));
    assert!(matches!(receive_step(StreamEvent::PrekeyLow)[..], [StreamAction::Replenish]));
    assert!(matches!(receive_step(StreamEvent::StorageChanged)[..], [StreamAction::SyncStorage]));
    let s = receive_step(StreamEvent::AccountJoined { did: "did:plc:new".to_string(), joined_at_ms: 5 });
    assert_eq!(s.len(), 1);
    match &s[0] {
        StreamAction::Surface(AdminEvent::AccountJoined { did, joined_at_ms }) => {
            assert_eq!(did, "did:plc:new");
            assert_eq!(*joined_at_ms, 5);
        }
        _ => panic!("no admin event"),
    }
}
