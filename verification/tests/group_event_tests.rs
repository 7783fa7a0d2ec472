use actnet::group_events::{derive_change_events, ChangeContext, GroupEventKind, GroupMetadataEvent};
use actnet::groups::{b64, GroupState, Member, PendingApproval, PendingInvite, Role, ROLE_ADMIN, ROLE_MEMBER};
use actnet::net_groups::{GroupActionsWire, InviteMemberWire, JoinViaLinkWire, PromoteSelfWire, RoleAssignmentWire};

const ALICE: &str = "did:plc:alice";
const BOB: &str = "did:plc:bob";
const CAROL: &str = "did:plc:carol";

/// Stand-in encrypted member id of `did` (the group-key encryption is outside the library).
fn emi_bytes(did: &str) -> Vec<u8> {
    let mut v = b"emi:".to_vec();
    v.extend_from_slice(did.as_bytes());
    v
}

fn emi(did: &str) -> String {
    b64(&emi_bytes(did))
}

fn empty_state() -> GroupState {
    GroupState {
        group_id: Vec::new(),
        created_at_ms: 0,
        creator_did: String::new(),
        revision: 0,
        last_change_actor_did: String::new(),
        title: String::new(),
        description: String::new(),
        expiry_seconds: 0,
        members: Vec::new(),
        pending_invites: Vec::new(),
        pending_approvals: Vec::new(),
        policy: None,
    }
}

fn member(did: &str, joined_at_ms: i64) -> Member {
    Member {
        did: did.to_string(),
        encrypted_member_id: emi_bytes(did),
        role: Role::Member,
        joined_at_ms,
        profile_key: Vec::new(),
    }
}

fn pending_invite(did: &str, invited_at_ms: i64) -> PendingInvite {
    PendingInvite {
        encrypted_member_id: emi_bytes(did),
        role: Role::Member,
        inviter_did: ALICE.to_string(),
        invited_at_ms,
        invited_did: did.to_string(),
    }
}

fn pending_approval(did: &str, requested_at_ms: i64) -> PendingApproval {
    PendingApproval { encrypted_member_id: emi_bytes(did), requested_at_ms }
}

fn derive(actions: GroupActionsWire, actor: &str, pre: GroupState, post: GroupState) -> Vec<GroupMetadataEvent> {
    let actor_emi = emi(actor);
    derive_change_events(
        &ChangeContext {
            group_id_b64: "group-b64",
            new_revision: 5,
            actor_did: actor,
            actor_emi_b64: &actor_emi,
            pre: &pre,
            post: &post,
            now_ms: 1_000,
        },
        &actions,
    )
}

fn promote() -> GroupActionsWire {
    let mut a = GroupActionsWire::default();
    a.promote_pending_members =
        Some(PromoteSelfWire { encrypted_profile_key: b64(b""), group_push_pseudonym: b64(b"x") });
    a
}

#[test]
fn actor_is_read_from_post_state() {
    let mut post = empty_state();
    post.members = vec![member(BOB, 1234)];
    post.last_change_actor_did = BOB.to_string();
    // The caller takes the actor from the post-state's stamp.
    let actor = post.last_change_actor_did.clone();
    let evs = derive(promote(), &actor, empty_state(), post);
    assert_eq!(evs[0].kind, GroupEventKind::MemberJoined);
    assert_eq!(evs[0].actor_did, BOB);
}

#[test]
fn invite_attributes_actor_and_target() {
    let mut actions = GroupActionsWire::default();
    actions.invite_members = vec![InviteMemberWire { encrypted_member_id: emi(BOB), role: ROLE_MEMBER }];
    let mut post = empty_state();
    post.pending_invites = vec![pending_invite(BOB, 7_777)];
    let evs = derive(actions, ALICE, empty_state(), post);
    assert_eq!(evs.len(), 1);
    assert_eq!(evs[0].kind, GroupEventKind::MemberInvited);
    assert_eq!(evs[0].actor_did, ALICE);
    // Resolved from the stamped invited DID, not just the id.
    assert_eq!(evs[0].target_did, BOB);
    assert_eq!(evs[0].target_emi, emi(BOB));
    assert_eq!(evs[0].occurred_at_ms, 7_777);
    assert!(evs[0].summary.contains("invited"));
}

#[test]
fn join_attributed_from_membership_diff_without_actor_stamp() {
    let mut pre = empty_state();
    pre.members = vec![member(ALICE, 1)];
    let mut post = empty_state();
    post.members = vec![member(ALICE, 1), member(BOB, 2)];
    let evs = derive(promote(), "", pre, post);
    assert_eq!(evs[0].kind, GroupEventKind::MemberJoined);
    assert_eq!(evs[0].actor_did, BOB, "joiner resolved from the diff");
    assert!(evs[0].summary.contains(BOB));
}

#[test]
fn promote_renders_as_join() {
    let mut post = empty_state();
    post.members = vec![member(BOB, 1234)];
    let evs = derive(promote(), BOB, empty_state(), post);
    assert_eq!(evs.len(), 1);
    assert_eq!(evs[0].kind, GroupEventKind::MemberJoined);
    assert_eq!(evs[0].actor_did, BOB);
    assert_eq!(evs[0].occurred_at_ms, 1234);
}

#[test]
fn join_via_link_open_vs_request() {
    let actions = || {
        let mut a = GroupActionsWire::default();
        a.join_via_link = Some(JoinViaLinkWire {
            encrypted_profile_key: b64(b""),
            group_push_pseudonym: b64(b"x"),
            invite_link_password: b64(b""),
        });
        a
    };
    let pre = || {
        let mut s = empty_state();
        s.members = vec![member(ALICE, 1)];
        s
    };
    let mut post_member = empty_state();
    post_member.members = vec![member(ALICE, 1), member(CAROL, 11)];
    let evs = derive(actions(), CAROL, pre(), post_member);
    assert_eq!(evs[0].kind, GroupEventKind::MemberJoinedViaLink);
    assert_eq!(evs[0].actor_did, CAROL);

    let mut post_pending = empty_state();
    post_pending.members = vec![member(ALICE, 1)];
    post_pending.pending_approvals = vec![pending_approval(CAROL, 22)];
    let evs = derive(actions(), CAROL, pre(), post_pending);
    assert_eq!(evs[0].kind, GroupEventKind::MemberRequestedToJoin);
    assert_eq!(evs[0].occurred_at_ms, 22);
}

#[test]
fn remove_distinguishes_left_from_kicked() {
    let pre = || {
        let mut s = empty_state();
        s.members = vec![member(ALICE, 1), member(BOB, 2)];
        s
    };
    let mut kick = GroupActionsWire::default();
    kick.remove_members = vec![emi(BOB)];
    let evs = derive(kick, ALICE, pre(), empty_state());
    assert_eq!(evs[0].kind, GroupEventKind::MemberRemoved);
    assert_eq!(evs[0].target_did, BOB);
    assert!(evs[0].summary.contains("removed"));

    let mut leave = GroupActionsWire::default();
    leave.remove_members = vec![emi(BOB)];
    let evs = derive(leave, BOB, pre(), empty_state());
    assert_eq!(evs[0].kind, GroupEventKind::MemberLeft);
    assert_eq!(evs[0].actor_did, BOB);
    assert!(evs[0].summary.contains("left"));
}

#[test]
fn expiry_change_names_the_duration() {
    let mut actions = GroupActionsWire::default();
    actions.modify_expiry = Some(b64(b"x"));
    let mut post = empty_state();
    post.expiry_seconds = 2_419_200;
    let evs = derive(actions, ALICE, empty_state(), post);
    assert_eq!(evs[0].kind, GroupEventKind::ExpiryChanged);
    assert_eq!(evs[0].expiry_seconds, 2_419_200);
    assert!(evs[0].summary.contains("4 weeks"), "{}", evs[0].summary);

    let mut off_actions = GroupActionsWire::default();
    off_actions.modify_expiry = Some(b64(b"x"));
    let off = derive(off_actions, ALICE, empty_state(), empty_state());
    assert_eq!(off[0].expiry_seconds, 0);
    assert!(off[0].summary.contains("turned off"), "{}", off[0].summary);
}

#[test]
fn title_change_names_the_new_title() {
    let mut actions = GroupActionsWire::default();
    actions.modify_title = Some(b64(b"x"));
    let mut post = empty_state();
    post.title = "March Logistics".to_string();
    let evs = derive(actions, ALICE, empty_state(), post);
    assert_eq!(evs[0].kind, GroupEventKind::TitleChanged);
    assert_eq!(evs[0].new_title, "March Logistics");
    assert!(evs[0].summary.contains("'March Logistics'"), "{}", evs[0].summary);
}

#[test]
fn role_change_to_admin() {
    let mut actions = GroupActionsWire::default();
    actions.modify_member_role = vec![RoleAssignmentWire { encrypted_member_id: emi(BOB), role: ROLE_ADMIN }];
    let mut post = empty_state();
    post.members = vec![member(BOB, 1)];
    let evs = derive(actions, ALICE, empty_state(), post);
    assert_eq!(evs[0].kind, GroupEventKind::RoleChangedToAdmin);
    assert_eq!(evs[0].target_did, BOB);
}

#[test]
fn missing_change_meta_yields_unattributed_entry() {
    let mut actions = GroupActionsWire::default();
    actions.remove_members = vec![emi(BOB)];
    let mut pre = empty_state();
    pre.members = vec![member(BOB, 2)];
    let evs = derive(actions, "", pre, empty_state());
    assert_eq!(evs[0].kind, GroupEventKind::MemberRemoved);
    assert_eq!(evs[0].actor_did, "");
    assert!(evs[0].summary.starts_with("Someone"));
}
