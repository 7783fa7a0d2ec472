use actnet::connection::ConnectionState;
use actnet::ffi::{AdminEvent, ProjectInfoFfi};
use actnet::group_events::{GroupEventKind, GroupMetadataEvent};
use actnet::groups::{GroupMember, GroupPending, GroupSummary, JoinResult};
use actnet::messaging::{DeliveryStatusUpdate, IncomingEvent, MessageTarget};
use actnet::node::{
    AdminEventJs, ConnectionStateJs, DeliveryStatusUpdateJs, GroupSummaryJs, IncomingEventJs, JoinResultJs,
    MessageTargetJs, ProjectInfoJs,
};

#[test]
fn connection_states_round_trip_through_names() {
    for s in [
        ConnectionState::Disconnected,
        ConnectionState::Connecting,
        ConnectionState::Connected,
        ConnectionState::Reconnecting { next_attempt_at_ms: 77 },
    ] {
        assert_eq!(ConnectionStateJs::from_state(s).into_ffi().unwrap(), s);
    }
    let js = ConnectionStateJs::from_state(ConnectionState::Reconnecting { next_attempt_at_ms: 5 });
    assert_eq!((js.state.as_str(), js.next_attempt_at_ms), ("reconnecting", Some(5)));
    let odd = ConnectionStateJs { state: "reconnecting".into(), next_attempt_at_ms: None };
    assert_eq!(odd.into_ffi().unwrap(), ConnectionState::Reconnecting { next_attempt_at_ms: 0 });
    let bad = ConnectionStateJs { state: "asleep".into(), next_attempt_at_ms: None };
    assert_eq!(bad.into_ffi().unwrap_err(), "unknown connection state: asleep");
}

#[test]
fn message_targets() {
    let dm = MessageTargetJs { kind: "dm".into(), recipient_did: Some("did:a".into()), group_id: None };
    assert!(matches!(dm.into_ffi(), Ok(MessageTarget::Dm { recipient_did }) if recipient_did == "did:a"));
    let g = MessageTargetJs { kind: "group".into(), recipient_did: None, group_id: Some("g".into()) };
    assert!(matches!(g.into_ffi(), Ok(MessageTarget::Group { group_id }) if group_id == "g"));
    let missing = MessageTargetJs { kind: "dm".into(), recipient_did: None, group_id: None };
    assert!(matches!(missing.into_ffi(), Err(m) if m == "dm target requires recipientDid"));
    let other = MessageTargetJs { kind: "broadcast".into(), recipient_did: None, group_id: None };
    assert!(matches!(other.into_ffi(), Err(m) if m == "unknown message target kind: broadcast"));
}

#[test]
fn events_carry_their_kind_and_payload() {
    let ev = IncomingEventJs::from_event(IncomingEvent::ReceiptUpdate {
        update: DeliveryStatusUpdate { conversation_id: "c".into(), sent_at_ms: 3, delivery_status: 2 },
    });
    assert_eq!(ev.kind, "receipt");
    assert_eq!(ev.receipt.as_ref().unwrap().delivery_status, 2);
    assert!(ev.message.is_none() && ev.group_invite.is_none() && ev.group_metadata.is_none());
    let ev = IncomingEventJs::from_event(IncomingEvent::StorageSynced);
    assert_eq!(ev.kind, "storageSynced");
    let ev = IncomingEventJs::from_event(IncomingEvent::GroupMetadataChanged {
        event: GroupMetadataEvent {
            group_id: "g".into(),
            revision: 2,
            kind: GroupEventKind::MemberLeft,
            actor_did: "a".into(),
            target_did: "t".into(),
            target_emi: "e".into(),
            occurred_at_ms: 1,
            expiry_seconds: 0,
            new_title: String::new(),
            summary: "s".into(),
        },
    });
    assert_eq!(ev.kind, "groupMetadataChanged");
    assert_eq!(ev.group_metadata.unwrap().kind, "memberLeft");
    let ev = IncomingEventJs::from_event(IncomingEvent::GroupInvite {
        group_id: "g".into(),
        hosting_server_url: "u".into(),
        inviter_did: "i".into(),
    });
    assert_eq!(ev.group_invite.unwrap().inviter_did, "i");
    let a = AdminEventJs::from_event(AdminEvent::AccountJoined { did: "d".into(), joined_at_ms: 4 });
    assert_eq!(a.kind, "accountJoined");
    assert_eq!(a.account_joined.unwrap().joined_at_ms, 4);
}

#[test]
fn records_convert() {
    let p = ProjectInfoJs::from(ProjectInfoFfi { name: "n".into(), url: "u".into(), description: "d".into() });
    assert_eq!((p.name.as_str(), p.url.as_str(), p.description.as_str()), ("n", "u", "d"));
    let u = DeliveryStatusUpdateJs::from(DeliveryStatusUpdate { conversation_id: "c".into(), sent_at_ms: 1, delivery_status: 3 });
    assert_eq!(u.delivery_status, 3u32);
    assert_eq!(JoinResultJs::from(JoinResult::Pending), JoinResultJs::Pending);
    let s = GroupSummaryJs::from_summary(GroupSummary {
        group_id: "g".into(),
        master_key: vec![1],
        revision: 4,
        title: "t".into(),
        description: String::new(),
        expiry_seconds: 9,
        members: vec![GroupMember { did: "d".into(), encrypted_member_id: "e".into(), role: 1, joined_at_ms: 2 }],
        pending_invites: vec![GroupPending { encrypted_member_id: "p".into(), timestamp_ms: 3 }],
        pending_approvals: vec![],
    });
    assert_eq!(s.members[0].role, 1i32);
    assert_eq!(s.pending_invites[0].timestamp_ms, 3);
    assert_eq!((s.revision, s.expiry_seconds), (4, 9));
}
