use actnet::error::{AppError, NetError};
use actnet::group_actions::{
    accept_invite_change, approve_join_request_change, cancel_join_request_change, change_role_change,
    decline_invite_change, deny_join_request_change, founder_state, group_title, invite_member_change,
    is_group_member, join_via_link_change, leave_group_change, member_emis, other_member_dids,
    recipient_endorsements, remove_member_change, retain_without, retry_submission, set_expiry_change,
    set_title_change, stamp_change, submit_change_request, summary_from_state,
};
use actnet::group_events::{
    group_conversation_id, group_event_id, group_event_kind_name, group_event_row, kind_code, GroupEventKind,
    GroupMetadataEvent,
};
use actnet::groups::{
    b64, b64d, day_aligned, distribution_id_for, fresh_pseudonym, policy_row_from_wire, policy_wire_from_row,
    proto_policy_from_row, role_from_i16, role_to_i16, GroupState, JoinPolicy, Member, PendingApproval,
    PendingInvite, PolicyRow, Role, ROLE_ADMIN, ROLE_MEMBER,
};
use actnet::net_groups::{join_landed_as_member, GroupActionsWire};
use sha2::{Digest, Sha256};

fn empty_state() -> GroupState {
    GroupState {
        group_id: b"gid".to_vec(),
        created_at_ms: 1,
        creator_did: "did:a".into(),
        revision: 3,
        last_change_actor_did: String::new(),
        title: "T".into(),
        description: "D".into(),
        expiry_seconds: 0,
        members: Vec::new(),
        pending_invites: Vec::new(),
        pending_approvals: Vec::new(),
        policy: None,
    }
}

fn member(did: &str, id: u8) -> Member {
    Member { did: did.into(), encrypted_member_id: vec![id], role: Role::Member, joined_at_ms: id as i64, profile_key: vec![] }
}

fn invite(id: u8, role: Role) -> PendingInvite {
    PendingInvite { encrypted_member_id: vec![id], role, inviter_did: "did:a".into(), invited_at_ms: 5, invited_did: String::new() }
}

fn approval(id: u8) -> PendingApproval {
    PendingApproval { encrypted_member_id: vec![id], requested_at_ms: id as i64 }
}

fn only(w: &GroupActionsWire) -> usize {
    [
        !w.invite_members.is_empty(),
        w.promote_pending_members.is_some(),
        w.decline_invite.is_some(),
        !w.remove_members.is_empty(),
        !w.modify_member_role.is_empty(),
        w.join_via_link.is_some(),
        w.cancel_join_request.is_some(),
        w.leave.is_some(),
        !w.approve_join_request.is_empty(),
        !w.deny_join_request.is_empty(),
        w.modify_policy.is_some(),
        w.modify_title.is_some(),
        w.modify_description.is_some(),
        w.modify_expiry.is_some(),
    ]
    .iter()
    .filter(|x| **x)
    .count()
}

#[test]
fn invite_then_decline_restores_the_pending_list() {
    let mut s = empty_state();
    s.pending_invites.push(invite(9, Role::Member));
    let w = invite_member_change(&mut s, &[7], ROLE_ADMIN, "did:a", 42, "did:b");
    assert_eq!(only(&w), 1);
    assert_eq!(w.invite_members[0].encrypted_member_id, b64(&[7]));
    assert_eq!(w.invite_members[0].role, ROLE_ADMIN);
    assert_eq!(s.pending_invites.len(), 2);
    let p = &s.pending_invites[1];
    assert_eq!((p.encrypted_member_id.clone(), p.role, p.invited_at_ms), (vec![7], Role::Admin, 42));
    assert_eq!((p.inviter_did.as_str(), p.invited_did.as_str()), ("did:a", "did:b"));

    let w = decline_invite_change(&mut s, &[7]);
    assert_eq!(only(&w), 1);
    assert_eq!(w.decline_invite, Some(b64(&[7])));
    assert_eq!(s.pending_invites.len(), 1);
    assert_eq!(s.pending_invites[0].encrypted_member_id, vec![9]);
}

#[test]
fn accept_moves_the_invitee_to_members_at_the_invited_role() {
    let mut s = empty_state();
    s.pending_invites = vec![invite(1, Role::Member), invite(7, Role::Admin), invite(7, Role::Member)];
    let w = accept_invite_change(&mut s, &[7], "did:b", 99, &[4u8; 32], b"pseud");
    assert_eq!(only(&w), 1);
    let p = w.promote_pending_members.unwrap();
    assert_eq!(p.encrypted_profile_key, b64(&[4u8; 32]));
    assert_eq!(p.group_push_pseudonym, b64(b"pseud"));
    assert_eq!(s.pending_invites.len(), 1);
    assert_eq!(s.pending_invites[0].encrypted_member_id, vec![1]);
    let m = s.members.last().unwrap();
    assert_eq!((m.did.as_str(), m.role, m.joined_at_ms), ("did:b", Role::Admin, 99));
    assert_eq!(m.profile_key, vec![4u8; 32]);

    // Without an invite the joiner is an ordinary member.
    let mut s = empty_state();
    accept_invite_change(&mut s, &[3], "did:c", 1, &[], b"p");
    assert_eq!(s.members[0].role, Role::Member);
}

#[test]
fn join_via_link_carries_key_pseudonym_and_password() {
    let w = join_via_link_change(b"pk", b"ps", b"pw");
    assert_eq!(only(&w), 1);
    let j = w.join_via_link.unwrap();
    assert_eq!((j.encrypted_profile_key, j.group_push_pseudonym, j.invite_link_password), (b64(b"pk"), b64(b"ps"), b64(b"pw")));
}

#[test]
fn approvals_cancel_deny_and_approve() {
    let mut s = empty_state();
    s.pending_approvals = vec![approval(1), approval(2), approval(3)];
    let w = cancel_join_request_change(&mut s, &[1]);
    assert_eq!(w.cancel_join_request, Some(b64(&[1])));
    let w = deny_join_request_change(&mut s, &[2]);
    assert_eq!(w.deny_join_request, vec![b64(&[2])]);
    let w = approve_join_request_change(&mut s, &[3], 77);
    assert_eq!(w.approve_join_request, vec![b64(&[3])]);
    assert!(s.pending_approvals.is_empty());
    let m = &s.members[0];
    assert_eq!((m.did.as_str(), m.encrypted_member_id.clone(), m.role, m.joined_at_ms), ("", vec![3], Role::Member, 77));
    assert!(m.profile_key.is_empty());
}

#[test]
fn remove_and_leave_clear_every_list_and_keep_the_rest_in_order() {
    let mut s = empty_state();
    s.members = vec![member("did:a", 1), member("did:b", 2), member("did:c", 3), member("did:b2", 2)];
    s.pending_invites = vec![invite(2, Role::Member), invite(4, Role::Member)];
    s.pending_approvals = vec![approval(2)];
    let w = remove_member_change(&mut s, &[2]);
    assert_eq!(w.remove_members, vec![b64(&[2])]);
    let dids: Vec<&str> = s.members.iter().map(|m| m.did.as_str()).collect();
    assert_eq!(dids, vec!["did:a", "did:c"]);
    assert_eq!(s.pending_invites.len(), 1);
    assert!(s.pending_approvals.is_empty());
    // Removing again changes nothing.
    remove_member_change(&mut s, &[2]);
    assert_eq!(s.members.len(), 2);

    let w = leave_group_change(&mut s, &[1]);
    assert_eq!(w.leave, Some(b64(&[1])));
    assert_eq!(s.members.len(), 1);
    assert_eq!(s.title, "T");
}

#[test]
fn retain_without_keeps_order() {
    let mut v = vec![member("a", 1), member("b", 2), member("c", 1), member("d", 3)];
    retain_without(&mut v, &[1]);
    let dids: Vec<&str> = v.iter().map(|m| m.did.as_str()).collect();
    assert_eq!(dids, vec!["b", "d"]);
}

#[test]
fn role_change_touches_only_matching_members() {
    let mut s = empty_state();
    s.members = vec![member("did:a", 1), member("did:b", 2)];
    let w = change_role_change(&mut s, &[2], ROLE_ADMIN);
    assert_eq!(w.modify_member_role[0].encrypted_member_id, b64(&[2]));
    assert_eq!(w.modify_member_role[0].role, ROLE_ADMIN);
    assert_eq!(s.members[0].role, Role::Member);
    assert_eq!(s.members[1].role, Role::Admin);
    change_role_change(&mut s, &[2], 7);
    assert_eq!(s.members[1].role, Role::Member);
}

#[test]
fn titles_are_trimmed_and_must_not_be_empty() {
    assert_eq!(group_title("  Book club \n").unwrap(), "Book club");
    assert!(matches!(group_title(" \t\n"), Err(AppError::Protocol(_))));
    assert!(matches!(group_title(""), Err(AppError::Protocol(_))));
    let mut s = empty_state();
    let w = set_title_change(&mut s, "Book club", b"ct");
    assert_eq!(s.title, "Book club");
    assert_eq!(w.modify_title, Some(b64(b"ct")));
    let w = set_expiry_change(&mut s, 3600, b"e");
    assert_eq!(s.expiry_seconds, 3600);
    assert_eq!(w.modify_expiry, Some(b64(b"e")));
    assert_eq!(only(&w), 1);
}

#[test]
fn stamping_and_submission() {
    let mut s = empty_state();
    stamp_change(&mut s, "did:me", 41);
    assert_eq!(s.last_change_actor_did, "did:me");
    assert_eq!(s.revision, 42);
    let req = submit_change_request(41, b"state", GroupActionsWire::default());
    assert_eq!(req.revision, 42);
    assert_eq!(req.new_encrypted_state, b64(b"state"));
    assert!(retry_submission(0, &NetError::Server(409, "stale".into())));
    assert!(!retry_submission(1, &NetError::Server(409, "stale".into())));
    assert!(!retry_submission(0, &NetError::Server(500, String::new())));
    assert!(!retry_submission(0, &NetError::Http("x".into())));
}

#[test]
fn membership_and_recipients() {
    let mut s = empty_state();
    s.members = vec![member("did:me", 1), member("", 2), member("did:b", 3), member("did:c", 4)];
    assert!(is_group_member(&s, "did:b"));
    assert!(!is_group_member(&s, "did:x"));
    assert_eq!(other_member_dids(&s, "did:me"), vec!["did:b".to_string(), "did:c".to_string()]);
    assert_eq!(member_emis(&s), vec![vec![1], vec![2], vec![3], vec![4]]);
    let endorsements = vec![b"e1".to_vec(), b"e2".to_vec(), b"e3".to_vec(), b"e4".to_vec()];
    assert_eq!(recipient_endorsements(&s.members, &endorsements, "did:me"), vec![b"e3".to_vec(), b"e4".to_vec()]);
}

#[test]
fn summaries_show_the_roster() {
    let mut s = empty_state();
    s.members = vec![member("did:a", 1)];
    s.members[0].role = Role::Admin;
    s.pending_invites = vec![invite(2, Role::Member)];
    s.pending_approvals = vec![approval(3)];
    let sum = summary_from_state("gid", &[9u8; 32], 12, &s);
    assert_eq!((sum.group_id.as_str(), sum.revision, sum.title.as_str()), ("gid", 12, "T"));
    assert_eq!(sum.members[0].role, ROLE_ADMIN);
    assert_eq!(sum.members[0].encrypted_member_id, b64(&[1]));
    assert_eq!(sum.pending_invites[0].timestamp_ms, 5);
    assert_eq!(sum.pending_approvals[0].timestamp_ms, 3);
}

#[test]
fn founders_state_and_policies() {
    let row = PolicyRow {
        invite_members_role: ROLE_ADMIN,
        remove_members_role: ROLE_ADMIN,
        modify_title_role: ROLE_MEMBER,
        modify_description_role: ROLE_ADMIN,
        modify_expiry_role: 5,
        join_policy: 2,
        invite_link_password: Some(vec![1, 2, 3]),
        announcement_only: true,
    };
    let s = founder_state(b"gid", "did:f", &[8], 100, "T", "D", 60, &[1u8; 32], &row);
    assert_eq!((s.revision, s.created_at_ms, s.members.len()), (0, 100, 1));
    assert_eq!(s.members[0].role, Role::Admin);
    assert!(s.last_change_actor_did.is_empty());
    let p = s.policy.unwrap();
    assert_eq!(p.join_policy, JoinPolicy::OpenLink);
    assert_eq!(p.modify_title_role, Role::Member);
    assert_eq!(p.modify_expiry_role, Role::Member);
    assert_eq!(p.invite_link_password, vec![1, 2, 3]);

    let wire = policy_wire_from_row(&row);
    assert_eq!(wire.invite_link_password, Some(b64(&[1, 2, 3])));
    let back = policy_row_from_wire(&wire).unwrap();
    assert_eq!(back.invite_link_password, Some(vec![1, 2, 3]));
    assert_eq!(back.join_policy, 2);
    let mut bad = wire;
    bad.invite_link_password = Some("!!!".into());
    assert!(policy_row_from_wire(&bad).is_err());
    let none = PolicyRow { invite_link_password: None, ..row };
    assert!(proto_policy_from_row(&none).invite_link_password.is_empty());
}

#[test]
fn roles_and_base64() {
    assert_eq!(role_from_i16(1), Role::Admin);
    assert_eq!(role_from_i16(0), Role::Member);
    assert_eq!(role_from_i16(-3), Role::Member);
    assert_eq!(role_to_i16(Role::Admin), 1);
    assert_eq!(role_to_i16(Role::Member), 0);
    assert_eq!(b64(b"hi?"), "aGk_");
    assert_eq!(b64d("aGk_").unwrap(), b"hi?".to_vec());
    assert!(b64d("a").is_err());
    assert_eq!(join_landed_as_member(Some("member")), Some(true));
    assert_eq!(join_landed_as_member(Some("pending")), Some(false));
    assert_eq!(join_landed_as_member(None), None);
}

#[test]
fn days_and_distribution_ids() {
    assert_eq!(day_aligned(86_400 * 3 + 5), 86_400 * 3);
    assert_eq!(day_aligned(0), 0);
    let mut h = Sha256::new();
    h.update(b"actnet-sk-distribution-id-v1");
    h.update([5u8; 32]);
    let d = h.finalize();
    assert_eq!(distribution_id_for(&[5u8; 32]).to_vec(), d[..16].to_vec());
    assert_eq!(fresh_pseudonym().len(), 24);
}

#[test]
fn event_rows_have_deterministic_ids() {
    let ev = GroupMetadataEvent {
        group_id: "gid".into(),
        revision: 7,
        kind: GroupEventKind::MemberInvited,
        actor_did: "did:a".into(),
        target_did: "did:b".into(),
        target_emi: "emi".into(),
        occurred_at_ms: 123,
        expiry_seconds: 0,
        new_title: String::new(),
        summary: "did:a invited did:b".into(),
    };
    assert_eq!(group_event_id(&ev), "grpevt-gid-7-4-emi");
    assert_eq!(group_conversation_id("gid"), "group-gid");
    let row = group_event_row(&ev);
    assert_eq!(row.id, "grpevt-gid-7-4-emi");
    assert_eq!(row.conversation_id, "group-gid");
    assert_eq!((row.sent_at_ms, row.read_at_ms, row.delivery_status, row.kind), (123, 123, 1, 4));
    let neg = GroupMetadataEvent { revision: -2, ..ev };
    assert_eq!(group_event_id(&neg), "grpevt-gid--2-4-emi");
    assert_eq!(kind_code(GroupEventKind::PolicyChanged), 16);
    assert_eq!(group_event_kind_name(GroupEventKind::MemberJoinedViaLink), "memberJoinedViaLink");
}
