use actnet::error::NetError;
use actnet::messaging::{
    claimed_sent_at, classify_net_error, delete_applies, delete_event, delivery_receipt, dm_conversation_id,
    edit_event, fetch_allowed, group_context_message, inbound_conversation_id, message_kind_code, must_refresh,
    plan_text, reaction_event, receipt_status, receipt_updates, sender_key_message, session_is_stale, timer_expiry,
    ContentBody, FetchOutcome, IncomingEvent, SenderGate, RECEIPT_DELIVERY, RECEIPT_READ,
};
use actnet::messaging::{poll_ack_ids, poll_route, push_route, PollRoute, PushRoute};

#[test]
fn sender_gate_passes_for_curated_or_bot_only() {
    let g = |is_curated, is_blocked, is_bot| SenderGate { is_curated, is_blocked, is_bot };
    // Curated human delivers normally.
    assert!(g(true, false, false).passes());
    // Homeserver-known bot is let through even when un-curated.
    assert!(g(false, false, true).passes());
    // Un-curated human is a request, not a pass.
    assert!(!g(false, false, false).passes());
    // Blocked is the caller's check; a curated+blocked row still passes.
    assert!(g(true, true, false).passes());
}

#[test]
fn fetch_outcome_codes_round_trip_and_unknown_is_other() {
    for o in [
        FetchOutcome::Success,
        FetchOutcome::Network,
        FetchOutcome::NotAuthorized,
        FetchOutcome::NotFound,
        FetchOutcome::RateLimited,
        FetchOutcome::Other,
    ] {
        assert_eq!(FetchOutcome::from_code(o.code()), o);
    }
    assert_eq!(FetchOutcome::Success.code(), 0);
    assert_eq!(FetchOutcome::Other.code(), 5);
    assert_eq!(FetchOutcome::from_code(42), FetchOutcome::Other);
    assert_eq!(FetchOutcome::from_code(-1), FetchOutcome::Other);
}

#[test]
fn fetch_outcome_windows() {
    assert_eq!(FetchOutcome::Success.skip_window_ms(), 300_000);
    assert_eq!(FetchOutcome::Network.skip_window_ms(), 60_000);
    assert_eq!(FetchOutcome::NotAuthorized.skip_window_ms(), 1_800_000);
    assert_eq!(FetchOutcome::NotFound.skip_window_ms(), 21_600_000);
    assert_eq!(FetchOutcome::RateLimited.skip_window_ms(), 300_000);
    assert_eq!(FetchOutcome::Other.skip_window_ms(), 1_800_000);
}

#[test]
fn net_errors_map_to_throttle_outcomes() {
    assert_eq!(classify_net_error(&NetError::Server(401, String::new())), FetchOutcome::NotAuthorized);
    assert_eq!(classify_net_error(&NetError::Server(403, String::new())), FetchOutcome::NotAuthorized);
    assert_eq!(classify_net_error(&NetError::Server(404, String::new())), FetchOutcome::NotFound);
    assert_eq!(classify_net_error(&NetError::Server(429, String::new())), FetchOutcome::RateLimited);
    assert_eq!(classify_net_error(&NetError::Server(500, String::new())), FetchOutcome::Other);
    assert_eq!(classify_net_error(&NetError::Http("down".into())), FetchOutcome::Network);
    assert_eq!(classify_net_error(&NetError::WebSocket("closed".into())), FetchOutcome::Network);
    assert_eq!(classify_net_error(&NetError::Base64("bad".into())), FetchOutcome::Other);
}

#[test]
fn fetch_throttle_honours_the_last_outcome_window() {
    assert!(fetch_allowed(None, 0));
    // NotFound: six hours.
    assert!(!fetch_allowed(Some((1_000, 3)), 1_000 + 21_599_999));
    assert!(fetch_allowed(Some((1_000, 3)), 1_000 + 21_600_000));
    // Network: one minute.
    assert!(!fetch_allowed(Some((0, 1)), 59_999));
    assert!(fetch_allowed(Some((0, 1)), 60_000));
    // An unknown code throttles like `Other`.
    assert!(!fetch_allowed(Some((0, 99)), 1_799_999));
}

#[test]
fn conversation_ids() {
    assert_eq!(dm_conversation_id("did:a", "did:b"), "dm-did:a-did:b");
    assert_eq!(inbound_conversation_id(None, "did:a", "did:b"), "dm-did:a-did:b");
    assert_eq!(inbound_conversation_id(Some("gid"), "did:a", "did:b"), "group-gid");
}

#[test]
fn receipts_set_delivered_or_read() {
    assert_eq!(receipt_status(RECEIPT_READ), 3);
    assert_eq!(receipt_status(RECEIPT_DELIVERY), 2);
    assert_eq!(receipt_status(7), 2);
    let ups = receipt_updates("dm-a-b", RECEIPT_READ, &vec![10, 20]);
    assert_eq!(ups.len(), 2);
    assert_eq!(ups[0].conversation_id, "dm-a-b");
    assert_eq!(ups[0].sent_at_ms, 10);
    assert_eq!(ups[1].sent_at_ms, 20);
    assert!(ups.iter().all(|u| u.delivery_status == 3));
    assert!(receipt_updates("c", RECEIPT_DELIVERY, &vec![]).is_empty());
}

#[test]
fn text_plans_follow_the_gate() {
    let gate = |is_curated, is_blocked, is_bot| SenderGate { is_curated, is_blocked, is_bot };
    // Blocked direct sender: dropped, no receipt.
    let p = plan_text(false, &gate(true, true, false), Some(5));
    assert!(!p.deliver && !p.mark_request && p.receipt_for.is_none());
    assert!(!p.touch_contact, "a blocked sender's contact is not bumped");
    // Un-curated human: delivered as a request, acknowledged.
    let p = plan_text(false, &gate(false, false, false), Some(5));
    assert!(p.deliver && p.mark_request && p.touch_contact);
    assert_eq!(p.receipt_for, Some(5));
    // Curated: delivered normally.
    let p = plan_text(false, &gate(true, false, false), None);
    assert!(p.deliver && !p.mark_request && p.receipt_for.is_none());
    // Group text: always delivered, never acknowledged, never a request.
    let p = plan_text(true, &gate(false, true, false), Some(5));
    assert!(p.deliver && !p.mark_request && p.receipt_for.is_none());
    assert!(p.touch_contact, "group co-member traffic bumps the contact");
}

#[test]
fn envelope_fields() {
    assert_eq!(claimed_sent_at(0), None);
    assert_eq!(claimed_sent_at(1234), Some(1234));
    assert_eq!(timer_expiry(0), None);
    assert_eq!(timer_expiry(3600), Some(3600));
    assert_eq!(message_kind_code(true), 0);
    assert_eq!(message_kind_code(false), 1);
    let r = delivery_receipt(99, &[1, 2]);
    assert_eq!(r.timestamp_ms, 0);
    assert_eq!(r.profile_key, vec![1, 2]);
    match r.body {
        Some(ContentBody::Receipt { receipt_type, timestamps }) => {
            assert_eq!(receipt_type, RECEIPT_DELIVERY);
            assert_eq!(timestamps, vec![99]);
        }
        _ => panic!("expected a receipt"),
    }
}

#[test]
fn invite_and_sender_key_messages() {
    let m = group_context_message(&[7u8; 32], "https://hs", "did:a", 55, &[3u8; 32]);
    assert_eq!(m.timestamp_ms, 55);
    match m.body {
        Some(ContentBody::GroupContext { group_master_key, hosting_server_url, inviter_did, invited_at_ms, invite_link_password }) => {
            assert_eq!(group_master_key, vec![7u8; 32]);
            assert_eq!(hosting_server_url, "https://hs");
            assert_eq!(inviter_did, "did:a");
            assert_eq!(invited_at_ms, 55);
            assert!(invite_link_password.is_empty());
        }
        _ => panic!("expected a group context"),
    }
    let s = sender_key_message(b"gid", &[1u8; 16], b"skdm", 9);
    assert!(s.profile_key.is_empty());
    match s.body {
        Some(ContentBody::SenderKeyDistribution { group_id, distribution_id, skdm }) => {
            assert_eq!(group_id, b"gid".to_vec());
            assert_eq!(distribution_id, vec![1u8; 16]);
            assert_eq!(skdm, b"skdm".to_vec());
        }
        _ => panic!("expected a sender key distribution"),
    }
}

#[test]
fn deletes_are_honoured_only_for_the_author() {
    assert!(delete_applies(true, "did:a", "did:a"));
    assert!(!delete_applies(true, "did:a", "did:b"));
    assert!(!delete_applies(false, "did:a", "did:a"));
    match delete_event("c", "did:a", 7) {
        IncomingEvent::MessageDeleted { conversation_id, author_did, sent_at_ms } => {
            assert_eq!(conversation_id, "c");
            assert_eq!(author_did, "did:a");
            assert_eq!(sent_at_ms, 7);
        }
        _ => panic!("expected a delete"),
    }
}

#[test]
fn edit_and_reaction_events() {
    match edit_event("c", "did:a", 7, "new", 9) {
        IncomingEvent::MessageEdited { conversation_id, author_did, sent_at_ms, new_body, edited_at_ms } => {
            assert_eq!((conversation_id.as_str(), author_did.as_str(), sent_at_ms), ("c", "did:a", 7));
            assert_eq!((new_body.as_str(), edited_at_ms), ("new", 9));
        }
        _ => panic!("expected an edit"),
    }
    match reaction_event("c", "did:a", 7, "did:b", "👍", true) {
        IncomingEvent::ReactionUpdated { target_author, target_sent_at_ms, reactor_did, emoji, removed, .. } => {
            assert_eq!(target_author, "did:a");
            assert_eq!(target_sent_at_ms, 7);
            assert_eq!(reactor_did, "did:b");
            assert_eq!(emoji, "👍");
            assert!(removed);
        }
        _ => panic!("expected a reaction"),
    }
}

#[test]
fn session_refresh_decisions() {
    assert!(session_is_stale(Some(1), 2));
    assert!(!session_is_stale(Some(2), 2));
    assert!(!session_is_stale(None, 2));
    assert!(must_refresh(3, &[1, 3]));
    assert!(!must_refresh(2, &[1, 3]));
    assert!(!must_refresh(2, &[]));
}

#[test]
fn polling_routes_by_body_kind() {
    let open = SenderGate { is_curated: true, is_blocked: false, is_bot: false };
    let blocked = SenderGate { is_curated: true, is_blocked: true, is_bot: false };
    let text = ContentBody::Text { body: "hi".to_string() };
    assert_eq!(poll_route(Some(&text), &open), PollRoute::ReturnText);
    assert_eq!(poll_route(Some(&text), &blocked), PollRoute::DropBlocked);
    assert_eq!(poll_route(None, &blocked), PollRoute::ReturnRaw);
    let receipt = ContentBody::Receipt { receipt_type: RECEIPT_READ, timestamps: vec![1] };
    assert_eq!(poll_route(Some(&receipt), &open), PollRoute::ApplyReceipt);
    let timer = ContentBody::TimerChange { expiry_secs: 30 };
    assert_eq!(poll_route(Some(&timer), &open), PollRoute::SaveTimer);
    let gm = ContentBody::GroupMessage { group_id: vec![1], ciphertext: vec![2] };
    assert_eq!(poll_route(Some(&gm), &blocked), PollRoute::OpenGroupMessage);
}

#[test]
fn push_routes_by_body_kind() {
    assert_eq!(push_route(None), PushRoute::EmitRaw);
    let text = ContentBody::Text { body: "hi".to_string() };
    assert_eq!(push_route(Some(&text)), PushRoute::PlanText);
    let edit = ContentBody::Edit { target_sent_at: 3, new_body: "x".to_string() };
    assert_eq!(push_route(Some(&edit)), PushRoute::ApplyEdit);
    let skdm = ContentBody::SenderKeyDistribution { group_id: vec![], distribution_id: vec![], skdm: vec![] };
    assert_eq!(push_route(Some(&skdm)), PushRoute::InstallSenderKey);
}

#[test]
fn poll_acks_every_id_only_when_all_decrypted() {
    let ids = vec![4, 5, 6];
    assert_eq!(poll_ack_ids(&ids, true), Some(vec![4, 5, 6]));
    assert_eq!(poll_ack_ids(&ids, false), None);
    assert_eq!(poll_ack_ids(&Vec::new(), true), None);
}
