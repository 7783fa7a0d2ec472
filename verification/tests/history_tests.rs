use actnet::group_events::GroupEventKind;
use actnet::group_history::{
    blank_state, change_actor, find_state, history_timeline, settle_group_messages, HistoryEntry,
    OpenedGroupMessage, QueuedOutcome,
};
use actnet::groups::{b64, GroupState, PendingInvite, Role, ROLE_MEMBER};
use actnet::net_groups::{GroupActionsWire, InviteMemberWire};

const ALICE: &str = "did:plc:alice";
const BOB: &str = "did:plc:bob";

/// Stand-in encrypted member id of `did`.
fn emi_bytes(did: &str) -> Vec<u8> {
    let mut v = b"emi:".to_vec();
    v.extend_from_slice(did.as_bytes());
    v
}

fn emi(did: &str) -> String {
    b64(&emi_bytes(did))
}

fn state_by(actor: &str) -> GroupState {
    let mut s = blank_state();
    s.last_change_actor_did = actor.to_string();
    s
}

fn invite_bob() -> GroupActionsWire {
    let mut a = GroupActionsWire::default();
    a.invite_members = vec![InviteMemberWire { encrypted_member_id: emi(BOB), role: ROLE_MEMBER }];
    a
}

fn retitle() -> GroupActionsWire {
    let mut a = GroupActionsWire::default();
    a.modify_title = Some(b64(b"x"));
    a
}

#[test]
fn history_replays_rows_in_order_and_skips_undecodable_ones() {
    let mut after_invite = state_by(ALICE);
    after_invite.pending_invites = vec![PendingInvite {
        encrypted_member_id: emi_bytes(BOB),
        role: Role::Member,
        inviter_did: ALICE.to_string(),
        invited_at_ms: 500,
        invited_did: BOB.to_string(),
    }];
    let mut after_title = state_by(BOB);
    after_title.title = "Picnic".to_string();
    // A stale copy of revision 2 recorded first is overwritten by the later one.
    let states = vec![
        (1, blank_state()),
        (2, state_by("did:plc:stale")),
        (2, after_invite),
        (3, after_title),
        (4, state_by(ALICE)),
    ];
    assert_eq!(change_actor(&states, 1), ALICE);
    assert_eq!(change_actor(&states, 2), BOB);
    let entries = vec![
        HistoryEntry { revision: 1, actions: Some(invite_bob()), actor_emi_b64: emi(ALICE) },
        HistoryEntry { revision: 2, actions: Some(retitle()), actor_emi_b64: emi(BOB) },
        HistoryEntry { revision: 3, actions: None, actor_emi_b64: emi(ALICE) },
    ];
    let evs = history_timeline("g", &entries, &states, 9_000);
    assert_eq!(evs.len(), 2);
    assert_eq!(evs[0].kind, GroupEventKind::MemberInvited);
    assert_eq!(evs[0].revision, 2);
    assert_eq!(evs[0].actor_did, ALICE);
    assert_eq!(evs[0].target_did, BOB);
    assert_eq!(evs[0].occurred_at_ms, 500);
    assert_eq!(evs[1].kind, GroupEventKind::TitleChanged);
    assert_eq!(evs[1].revision, 3);
    assert_eq!(evs[1].actor_did, BOB);
    assert_eq!(evs[1].new_title, "Picnic");
    assert_eq!(evs[1].group_id, "g");
}

#[test]
fn history_row_without_recorded_states_reads_blank_state() {
    let entries = vec![HistoryEntry { revision: 7, actions: Some(retitle()), actor_emi_b64: emi(ALICE) }];
    let evs = history_timeline("g", &entries, &Vec::new(), 42);
    assert_eq!(evs.len(), 1);
    assert_eq!(evs[0].kind, GroupEventKind::TitleChanged);
    assert_eq!(evs[0].revision, 8);
    assert_eq!(evs[0].actor_did, "");
    assert_eq!(evs[0].new_title, "");
    assert_eq!(evs[0].occurred_at_ms, 42);
}

#[test]
fn empty_history_gives_no_entries() {
    let evs = history_timeline("g", &Vec::new(), &Vec::new(), 1);
    assert!(evs.is_empty());
}

#[test]
fn find_state_picks_the_last_recording() {
    let states = vec![(5, blank_state()), (6, blank_state()), (5, state_by(BOB))];
    assert_eq!(find_state(&states, 5), Some(2));
    assert_eq!(find_state(&states, 6), Some(1));
    assert_eq!(find_state(&states, 7), None);
    assert_eq!(change_actor(&states, 4), BOB);
    assert_eq!(change_actor(&states, 6), "");
}

#[test]
fn every_queued_group_message_is_acked_and_opened_ones_delivered() {
    let outcomes = vec![
        QueuedOutcome {
            message_id: 11,
            opened: Some(OpenedGroupMessage { sender_did: ALICE.to_string(), sender_device_id: 1, plaintext: b"hi".to_vec() }),
        },
        QueuedOutcome { message_id: 12, opened: None },
        QueuedOutcome {
            message_id: 13,
            opened: Some(OpenedGroupMessage { sender_did: BOB.to_string(), sender_device_id: 2, plaintext: b"yo".to_vec() }),
        },
    ];
    let (delivered, acked) = settle_group_messages("grp", &outcomes);
    assert_eq!(acked, vec![11, 12, 13]);
    assert_eq!(delivered.len(), 2);
    assert_eq!(delivered[0].message_id, 11);
    assert_eq!(delivered[0].group_id_b64, "grp");
    assert_eq!(delivered[0].sender_did, ALICE);
    assert_eq!(delivered[0].plaintext, b"hi".to_vec());
    assert_eq!(delivered[1].message_id, 13);
    assert_eq!(delivered[1].sender_device_id, 2);
}

#[test]
fn nothing_queued_settles_to_nothing() {
    let (delivered, acked) = settle_group_messages("grp", &Vec::new());
    assert!(delivered.is_empty());
    assert!(acked.is_empty());
}

#[test]
fn url_safe_encoding_is_four_characters_per_three_bytes() {
    assert_eq!(b64(b""), "");
    assert_eq!(b64(b"a").len(), 2);
    assert_eq!(b64(b"ab").len(), 3);
    assert_eq!(b64(b"abc").len(), 4);
    assert_eq!(b64(&[0xfb, 0xff]), "-_8");
}
