//! The optimistic state change each group action makes to the cached group
//! state, and the wire actions it submits.
//!
//! Every action function takes the state before the change and the ids it
//! needs (the caller encrypts member ids under the group key), edits the state
//! in place and returns the actions to submit. The roster lists are edited by
//! removing entries in place, so every entry kept is the very entry that was
//! there, in its old order.
use vstd::prelude::*;

use crate::groups::{
    b64, policy_matches_row, proto_policy_from_row, role_from_i16, role_to_i16, GroupMember, GroupPending, GroupState,
    GroupSummary, Member, PendingApproval, PendingInvite, PolicyRow, Role, ROLE_ADMIN, ROLE_MEMBER,
};
use crate::net_groups::{
    GroupActionsWire, InviteMemberWire, JoinViaLinkWire, PromoteSelfWire, RoleAssignmentWire,
};
use crate::error::{AppError, NetError};
use crate::net_groups::SubmitChangeRequest;
use crate::prims::b64url;
use crate::text::{str_eq, string_views, trim, trim_str};
use vstd::string::*;

verus! {

broadcast use vstd::seq_lib::group_filter_ensures;

// ── roster entries keyed by encrypted member id ────────────────────────────

/// A roster entry, identified by its encrypted member id.
pub trait RosterEntry: Sized {
    /// The entry's encrypted member id.
    spec fn member_id(&self) -> Seq<u8>;

    /// The entry's encrypted member id bytes.
    fn member_id_bytes(&self) -> (r: &[u8])
        ensures
            r@ == self.member_id(),
    ;
}

impl RosterEntry for Member {
    open spec fn member_id(&self) -> Seq<u8> {
        self.encrypted_member_id@
    }

    fn member_id_bytes(&self) -> (r: &[u8]) {
        self.encrypted_member_id.as_slice()
    }
}

impl RosterEntry for PendingInvite {
    open spec fn member_id(&self) -> Seq<u8> {
        self.encrypted_member_id@
    }

    fn member_id_bytes(&self) -> (r: &[u8]) {
        self.encrypted_member_id.as_slice()
    }
}

impl RosterEntry for PendingApproval {
    open spec fn member_id(&self) -> Seq<u8> {
        self.encrypted_member_id@
    }

    fn member_id_bytes(&self) -> (r: &[u8]) {
        self.encrypted_member_id.as_slice()
    }
}

/// The entries of `s` whose id is not `emi`, in their order.
pub open spec fn without_id<T: RosterEntry>(s: Seq<T>, emi: Seq<u8>) -> Seq<T> {
    s.filter(id_is_not::<T>(emi))
}

/// The test that an entry's id is not `emi`.
pub open spec fn id_is_not<T: RosterEntry>(emi: Seq<u8>) -> spec_fn(T) -> bool {
    |x: T| x.member_id() != emi
}

/// Whether some entry of `s` carries `emi`.
pub open spec fn holds_id<T: RosterEntry>(s: Seq<T>, emi: Seq<u8>) -> bool {
    exists|i: int| 0 <= i < s.len() && #[trigger] s[i].member_id() == emi
}

proof fn lemma_filter_push<T>(s: Seq<T>, x: T, pred: spec_fn(T) -> bool)
    ensures
        s.push(x).filter(pred) == (if pred(x) {
            s.filter(pred).push(x)
        } else {
            s.filter(pred)
        }),
{
    reveal(Seq::filter);
    assert(s.push(x).drop_last() =~= s);
}

/// Removes, in place, every entry whose id is `emi`; the others keep their order.
pub fn retain_without<T: RosterEntry>(v: &mut Vec<T>, emi: &[u8])
    ensures
        final(v)@ == without_id(old(v)@, emi@),
{
    let ghost orig = v@;
    let n0 = v.len();
    assert(orig.len() == n0);
    let ghost pred = id_is_not::<T>(emi@);
    let mut i: usize = 0;
    let mut k: usize = 0;
    while i < v.len()
        invariant
            0 <= i <= v.len(),
            i <= k <= orig.len(),
            orig.len() <= usize::MAX,
            v@ == orig.subrange(0, k as int).filter(pred) + orig.subrange(k as int, orig.len() as int),
            i as int == orig.subrange(0, k as int).filter(pred).len(),
            pred == id_is_not::<T>(emi@),
        decreases v.len() - i,
    {
        proof {
            assert(v@.len() == i + (orig.len() - k));
            assert(orig.subrange(0, k + 1) =~= orig.subrange(0, k as int).push(orig[k as int]));
            lemma_filter_push(orig.subrange(0, k as int), orig[k as int], pred);
            assert(v@[i as int] == orig[k as int]);
        }
        let same = crate::bytes::bytes_eq(v[i].member_id_bytes(), emi);
        if same {
            let _gone = v.remove(i);
            proof {
                assert(v@ =~= orig.subrange(0, k + 1).filter(pred) + orig.subrange(k + 1, orig.len() as int));
            }
        } else {
            proof {
                assert(v@ =~= orig.subrange(0, k + 1).filter(pred) + orig.subrange(k + 1, orig.len() as int));
            }
            i = i + 1;
        }
        k = k + 1;
    }
    proof {
        assert(orig.subrange(0, orig.len() as int) =~= orig);
        assert(orig.subrange(orig.len() as int, orig.len() as int) =~= Seq::<T>::empty());
        assert(v@ =~= orig.filter(pred));
    }
}

/// After removing `emi`, no entry carries it, and every other entry stays.
pub proof fn lemma_without_id<T: RosterEntry>(s: Seq<T>, emi: Seq<u8>)
    ensures
        !holds_id(without_id(s, emi), emi),
        forall|i: int|
            0 <= i < s.len() && s[i].member_id() != emi ==> without_id(s, emi).contains(#[trigger] s[i]),
        forall|x: T| #[trigger] without_id(s, emi).contains(x) ==> s.contains(x),
        !holds_id(s, emi) ==> without_id(s, emi) == s,
        without_id(s, emi).len() <= s.len(),
    decreases s.len(),
{
    let pred = id_is_not::<T>(emi);
    reveal(Seq::filter);
    if s.len() > 0 {
        lemma_without_id(s.drop_last(), emi);
        assert(s.drop_last().push(s.last()) =~= s);
        lemma_filter_push(s.drop_last(), s.last(), pred);
        assert forall|x: T| #[trigger] without_id(s, emi).contains(x) implies s.contains(x) by {
            if without_id(s.drop_last(), emi).contains(x) {
                assert(s.drop_last().contains(x));
                let j = choose|j: int| 0 <= j < s.drop_last().len() && s.drop_last()[j] == x;
                assert(s[j] == x);
            } else {
                assert(x == s.last());
                assert(s[s.len() - 1] == x);
            }
        }
        if !holds_id(s, emi) {
            assert forall|i: int| 0 <= i < s.drop_last().len() implies s.drop_last()[i].member_id() != emi by {
                assert(s[i] == s.drop_last()[i]);
            }
            assert(s[s.len() - 1].member_id() != emi);
        }
    } else {
        assert(without_id(s, emi) =~= s);
    }
}


// ── the shape of a submitted change ─────────────────────────────────────────

/// The fields of a change's action set.
pub enum ActionField {
    InviteMembers,
    PromotePendingMembers,
    DeclineInvite,
    RemoveMembers,
    ModifyMemberRole,
    JoinViaLink,
    CancelJoinRequest,
    Leave,
    ApproveJoinRequest,
    DenyJoinRequest,
    ModifyPolicy,
    ModifyTitle,
    ModifyDescription,
    ModifyExpiry,
}

/// Every field of `w` other than `f` is empty.
pub open spec fn empty_except(w: GroupActionsWire, f: ActionField) -> bool {
    &&& (f != ActionField::InviteMembers ==> w.invite_members@.len() == 0)
    &&& (f != ActionField::PromotePendingMembers ==> w.promote_pending_members is None)
    &&& (f != ActionField::DeclineInvite ==> w.decline_invite is None)
    &&& (f != ActionField::RemoveMembers ==> w.remove_members@.len() == 0)
    &&& (f != ActionField::ModifyMemberRole ==> w.modify_member_role@.len() == 0)
    &&& (f != ActionField::JoinViaLink ==> w.join_via_link is None)
    &&& (f != ActionField::CancelJoinRequest ==> w.cancel_join_request is None)
    &&& (f != ActionField::Leave ==> w.leave is None)
    &&& (f != ActionField::ApproveJoinRequest ==> w.approve_join_request@.len() == 0)
    &&& (f != ActionField::DenyJoinRequest ==> w.deny_join_request@.len() == 0)
    &&& (f != ActionField::ModifyPolicy ==> w.modify_policy is None)
    &&& (f != ActionField::ModifyTitle ==> w.modify_title is None)
    &&& (f != ActionField::ModifyDescription ==> w.modify_description is None)
    &&& (f != ActionField::ModifyExpiry ==> w.modify_expiry is None)
}

/// `b` keeps `a`'s identity, revision stamp, title, description, timer and policy.
pub open spec fn same_settings(a: GroupState, b: GroupState) -> bool {
    &&& b.group_id == a.group_id
    &&& b.created_at_ms == a.created_at_ms
    &&& b.creator_did == a.creator_did
    &&& b.revision == a.revision
    &&& b.last_change_actor_did == a.last_change_actor_did
    &&& b.title == a.title
    &&& b.description == a.description
    &&& b.expiry_seconds == a.expiry_seconds
    &&& b.policy == a.policy
}

/// `b` keeps `a`'s three roster lists.
pub open spec fn same_roster(a: GroupState, b: GroupState) -> bool {
    &&& b.members == a.members
    &&& b.pending_invites == a.pending_invites
    &&& b.pending_approvals == a.pending_approvals
}

/// A single-entry list of one base64 id.
fn one_id(emi: &[u8]) -> (r: Vec<String>)
    ensures
        r@.len() == 1,
        r@[0]@ == b64url(emi@),
{
    let mut v: Vec<String> = Vec::new();
    v.push(b64(emi));
    v
}

// ── invite / accept / decline ───────────────────────────────────────────────

/// Invites the member whose encrypted id is `emi` (the id of `recipient_did`)
/// at `role`: the invite is appended to the pending invites, stamped with the
/// inviter and the time.
pub fn invite_member_change(
    state: &mut GroupState,
    emi: &[u8],
    role: i16,
    inviter_did: &str,
    invited_at_ms: i64,
    recipient_did: &str,
) -> (w: GroupActionsWire)
    ensures
        same_settings(*old(state), *final(state)),
        final(state).members == old(state).members,
        final(state).pending_approvals == old(state).pending_approvals,
        final(state).pending_invites@.len() == old(state).pending_invites@.len() + 1,
        final(state).pending_invites@.drop_last() == old(state).pending_invites@,
        final(state).pending_invites@.last().encrypted_member_id@ == emi@,
        final(state).pending_invites@.last().role == (if role == ROLE_ADMIN { Role::Admin } else { Role::Member }),
        final(state).pending_invites@.last().inviter_did@ == inviter_did@,
        final(state).pending_invites@.last().invited_at_ms == invited_at_ms,
        final(state).pending_invites@.last().invited_did@ == recipient_did@,
        empty_except(w, ActionField::InviteMembers),
        w.invite_members@.len() == 1,
        w.invite_members@[0].encrypted_member_id@ == b64url(emi@),
        w.invite_members@[0].role == role,
{
    state.pending_invites.push(PendingInvite {
        encrypted_member_id: crate::bytes::copy_all(emi),
        role: role_from_i16(role),
        inviter_did: String::from_str(inviter_did),
        invited_at_ms,
        invited_did: String::from_str(recipient_did),
    });
    proof {
        assert(state.pending_invites@.drop_last() =~= old(state).pending_invites@);
    }
    let mut w = GroupActionsWire::default();
    w.invite_members.push(InviteMemberWire { encrypted_member_id: b64(emi), role });
    w
}

/// Role of the first pending invite at or after `i` that carries `emi`;
/// `Member` when none does.
pub open spec fn invite_role_from(s: Seq<PendingInvite>, emi: Seq<u8>, i: int) -> Role
    decreases s.len() - i,
{
    if i < 0 || i >= s.len() {
        Role::Member
    } else if s[i].encrypted_member_id@ == emi {
        s[i].role
    } else {
        invite_role_from(s, emi, i + 1)
    }
}

/// The role an invitee was invited at: that of the first pending invite
/// carrying their id, else `Member`.
pub open spec fn invited_role(s: Seq<PendingInvite>, emi: Seq<u8>) -> Role {
    invite_role_from(s, emi, 0)
}

fn find_invited_role(invites: &Vec<PendingInvite>, emi: &[u8]) -> (r: Role)
    ensures
        r == invited_role(invites@, emi@),
{
    let mut i: usize = 0;
    while i < invites.len()
        invariant
            0 <= i <= invites@.len(),
            invite_role_from(invites@, emi@, 0) == invite_role_from(invites@, emi@, i as int),
        decreases invites@.len() - i,
    {
        if crate::bytes::bytes_eq(invites[i].encrypted_member_id.as_slice(), emi) {
            return invites[i].role;
        }
        i = i + 1;
    }
    Role::Member
}

/// The invitee whose id is `self_emi` accepts: their invite leaves the pending
/// list and they are appended to the members at the role they were invited
/// at, with their profile key; the change promotes them, carrying their
/// profile key and push pseudonym in base64.
pub fn accept_invite_change(
    state: &mut GroupState,
    self_emi: &[u8],
    did: &str,
    joined_at_ms: i64,
    profile_key: &[u8],
    push_pseudonym: &[u8],
) -> (w: GroupActionsWire)
    ensures
        same_settings(*old(state), *final(state)),
        final(state).pending_approvals == old(state).pending_approvals,
        final(state).pending_invites@ == without_id(old(state).pending_invites@, self_emi@),
        final(state).members@.len() == old(state).members@.len() + 1,
        final(state).members@.drop_last() == old(state).members@,
        final(state).members@.last().did@ == did@,
        final(state).members@.last().encrypted_member_id@ == self_emi@,
        final(state).members@.last().role == invited_role(old(state).pending_invites@, self_emi@),
        final(state).members@.last().joined_at_ms == joined_at_ms,
        final(state).members@.last().profile_key@ == profile_key@,
        empty_except(w, ActionField::PromotePendingMembers),
        w.promote_pending_members matches Some(p) && p.encrypted_profile_key@ == b64url(profile_key@)
            && p.group_push_pseudonym@ == b64url(push_pseudonym@),
{
    let role = find_invited_role(&state.pending_invites, self_emi);
    retain_without(&mut state.pending_invites, self_emi);
    state.members.push(Member {
        did: String::from_str(did),
        encrypted_member_id: crate::bytes::copy_all(self_emi),
        role,
        joined_at_ms,
        profile_key: crate::bytes::copy_all(profile_key),
    });
    proof {
        assert(state.members@.drop_last() =~= old(state).members@);
    }
    let mut w = GroupActionsWire::default();
    w.promote_pending_members = Some(PromoteSelfWire {
        encrypted_profile_key: b64(profile_key),
        group_push_pseudonym: b64(push_pseudonym),
    });
    w
}

/// The invitee whose id is `self_emi` declines: their invite leaves the
/// pending list.
pub fn decline_invite_change(state: &mut GroupState, self_emi: &[u8]) -> (w: GroupActionsWire)
    ensures
        same_settings(*old(state), *final(state)),
        final(state).members == old(state).members,
        final(state).pending_approvals == old(state).pending_approvals,
        final(state).pending_invites@ == without_id(old(state).pending_invites@, self_emi@),
        empty_except(w, ActionField::DeclineInvite),
        w.decline_invite matches Some(s) && s@ == b64url(self_emi@),
{
    retain_without(&mut state.pending_invites, self_emi);
    let mut w = GroupActionsWire::default();
    w.decline_invite = Some(b64(self_emi));
    w
}

// ── join via link ──────────────────────────────────────────────────────────

/// A join through an invite link: it leaves the cached state alone (the
/// server decides where the joiner lands) and carries the joiner's profile
/// key, push pseudonym and the link password, each in base64.
pub fn join_via_link_change(
    profile_key: &[u8],
    push_pseudonym: &[u8],
    password: &[u8],
) -> (w: GroupActionsWire)
    ensures
        empty_except(w, ActionField::JoinViaLink),
        w.join_via_link matches Some(j) && j.encrypted_profile_key@ == b64url(profile_key@)
            && j.group_push_pseudonym@ == b64url(push_pseudonym@)
            && j.invite_link_password@ == b64url(password@),
{
    let mut w = GroupActionsWire::default();
    w.join_via_link = Some(JoinViaLinkWire {
        encrypted_profile_key: b64(profile_key),
        group_push_pseudonym: b64(push_pseudonym),
        invite_link_password: b64(password),
    });
    w
}

/// The link joiner whose id is `self_emi` withdraws their request: it leaves
/// the approval queue.
pub fn cancel_join_request_change(state: &mut GroupState, self_emi: &[u8]) -> (w: GroupActionsWire)
    ensures
        same_settings(*old(state), *final(state)),
        final(state).members == old(state).members,
        final(state).pending_invites == old(state).pending_invites,
        final(state).pending_approvals@ == without_id(old(state).pending_approvals@, self_emi@),
        empty_except(w, ActionField::CancelJoinRequest),
        w.cancel_join_request matches Some(s) && s@ == b64url(self_emi@),
{
    retain_without(&mut state.pending_approvals, self_emi);
    let mut w = GroupActionsWire::default();
    w.cancel_join_request = Some(b64(self_emi));
    w
}


// ── admin-class actions ─────────────────────────────────────────────────────

/// An admin approves the link joiner whose id is `emi`: the request leaves the
/// approval queue and the joiner is appended to the members as an ordinary
/// member with no known DID or profile key yet.
pub fn approve_join_request_change(state: &mut GroupState, emi: &[u8], joined_at_ms: i64) -> (w: GroupActionsWire)
    ensures
        same_settings(*old(state), *final(state)),
        final(state).pending_invites == old(state).pending_invites,
        final(state).pending_approvals@ == without_id(old(state).pending_approvals@, emi@),
        final(state).members@.len() == old(state).members@.len() + 1,
        final(state).members@.drop_last() == old(state).members@,
        final(state).members@.last().did@.len() == 0,
        final(state).members@.last().encrypted_member_id@ == emi@,
        final(state).members@.last().role == Role::Member,
        final(state).members@.last().joined_at_ms == joined_at_ms,
        final(state).members@.last().profile_key@.len() == 0,
        empty_except(w, ActionField::ApproveJoinRequest),
        w.approve_join_request@.len() == 1,
        w.approve_join_request@[0]@ == b64url(emi@),
{
    retain_without(&mut state.pending_approvals, emi);
    state.members.push(Member {
        did: String::new(),
        encrypted_member_id: crate::bytes::copy_all(emi),
        role: Role::Member,
        joined_at_ms,
        profile_key: Vec::new(),
    });
    proof {
        assert(state.members@.drop_last() =~= old(state).members@);
    }
    let mut w = GroupActionsWire::default();
    w.approve_join_request = one_id(emi);
    w
}

/// An admin denies the link joiner whose id is `emi`: the request leaves the
/// approval queue.
pub fn deny_join_request_change(state: &mut GroupState, emi: &[u8]) -> (w: GroupActionsWire)
    ensures
        same_settings(*old(state), *final(state)),
        final(state).members == old(state).members,
        final(state).pending_invites == old(state).pending_invites,
        final(state).pending_approvals@ == without_id(old(state).pending_approvals@, emi@),
        empty_except(w, ActionField::DenyJoinRequest),
        w.deny_join_request@.len() == 1,
        w.deny_join_request@[0]@ == b64url(emi@),
{
    retain_without(&mut state.pending_approvals, emi);
    let mut w = GroupActionsWire::default();
    w.deny_join_request = one_id(emi);
    w
}

/// Drops `emi` from all three roster lists.
fn drop_from_roster(state: &mut GroupState, emi: &[u8])
    ensures
        same_settings(*old(state), *final(state)),
        final(state).members@ == without_id(old(state).members@, emi@),
        final(state).pending_invites@ == without_id(old(state).pending_invites@, emi@),
        final(state).pending_approvals@ == without_id(old(state).pending_approvals@, emi@),
        !holds_id(final(state).members@, emi@),
        !holds_id(final(state).pending_invites@, emi@),
        !holds_id(final(state).pending_approvals@, emi@),
{
    retain_without(&mut state.members, emi);
    retain_without(&mut state.pending_invites, emi);
    retain_without(&mut state.pending_approvals, emi);
    proof {
        lemma_without_id(old(state).members@, emi@);
        lemma_without_id(old(state).pending_invites@, emi@);
        lemma_without_id(old(state).pending_approvals@, emi@);
    }
}

/// An admin removes whoever carries `emi`: a member, a pending invitee or a
/// link joiner awaiting approval.
pub fn remove_member_change(state: &mut GroupState, emi: &[u8]) -> (w: GroupActionsWire)
    ensures
        same_settings(*old(state), *final(state)),
        final(state).members@ == without_id(old(state).members@, emi@),
        final(state).pending_invites@ == without_id(old(state).pending_invites@, emi@),
        final(state).pending_approvals@ == without_id(old(state).pending_approvals@, emi@),
        !holds_id(final(state).members@, emi@),
        !holds_id(final(state).pending_invites@, emi@),
        !holds_id(final(state).pending_approvals@, emi@),
        empty_except(w, ActionField::RemoveMembers),
        w.remove_members@.len() == 1,
        w.remove_members@[0]@ == b64url(emi@),
{
    drop_from_roster(state, emi);
    let mut w = GroupActionsWire::default();
    w.remove_members = one_id(emi);
    w
}

/// The actor whose id is `self_emi` leaves: they drop out of every roster
/// list, and the change names their own id.
pub fn leave_group_change(state: &mut GroupState, self_emi: &[u8]) -> (w: GroupActionsWire)
    ensures
        same_settings(*old(state), *final(state)),
        final(state).members@ == without_id(old(state).members@, self_emi@),
        final(state).pending_invites@ == without_id(old(state).pending_invites@, self_emi@),
        final(state).pending_approvals@ == without_id(old(state).pending_approvals@, self_emi@),
        !holds_id(final(state).members@, self_emi@),
        !holds_id(final(state).pending_invites@, self_emi@),
        !holds_id(final(state).pending_approvals@, self_emi@),
        empty_except(w, ActionField::Leave),
        w.leave matches Some(s) && s@ == b64url(self_emi@),
{
    drop_from_roster(state, self_emi);
    let mut w = GroupActionsWire::default();
    w.leave = Some(b64(self_emi));
    w
}

/// `m` with its role replaced.
pub open spec fn with_role(m: Member, role: Role) -> Member {
    Member { role, ..m }
}

/// The members after giving every one carrying `emi` the role `role`.
pub open spec fn roles_set(ms: Seq<Member>, emi: Seq<u8>, role: Role) -> Seq<Member> {
    ms.map_values(|m: Member| if m.encrypted_member_id@ == emi { with_role(m, role) } else { m })
}

/// An admin sets the role of the member carrying `emi`: every member entry
/// with that id takes the new role, all else stays.
pub fn change_role_change(state: &mut GroupState, emi: &[u8], new_role: i16) -> (w: GroupActionsWire)
    ensures
        same_settings(*old(state), *final(state)),
        final(state).pending_invites == old(state).pending_invites,
        final(state).pending_approvals == old(state).pending_approvals,
        final(state).members@ == roles_set(old(state).members@, emi@, (if new_role == ROLE_ADMIN { Role::Admin } else { Role::Member })),
        empty_except(w, ActionField::ModifyMemberRole),
        w.modify_member_role@.len() == 1,
        w.modify_member_role@[0].encrypted_member_id@ == b64url(emi@),
        w.modify_member_role@[0].role == new_role,
{
    let role = role_from_i16(new_role);
    let ghost target = roles_set(old(state).members@, emi@, role);
    let mut i: usize = 0;
    while i < state.members.len()
        invariant
            0 <= i <= state.members@.len(),
            state.members@.len() == old(state).members@.len(),
            target.len() == old(state).members@.len(),
            target == roles_set(old(state).members@, emi@, role),
            forall|j: int| 0 <= j < i ==> state.members@[j] == target[j],
            forall|j: int| i <= j < state.members@.len() ==> state.members@[j] == old(state).members@[j],
            same_settings(*old(state), *state),
            state.pending_invites == old(state).pending_invites,
            state.pending_approvals == old(state).pending_approvals,
        decreases state.members@.len() - i,
    {
        if crate::bytes::bytes_eq(state.members[i].encrypted_member_id.as_slice(), emi) {
            let mut m = state.members.remove(i);
            m.role = role;
            state.members.insert(i, m);
        }
        i = i + 1;
    }
    proof {
        assert(state.members@ =~= target);
    }
    let mut w = GroupActionsWire::default();
    w.modify_member_role.push(RoleAssignmentWire { encrypted_member_id: b64(emi), role: new_role });
    w
}


// ── settings ────────────────────────────────────────────────────────────────

/// A new group name as entered: trimmed of surrounding whitespace; an empty
/// name is refused.
pub fn group_title(new_title: &str) -> (r: Result<String, AppError>)
    ensures
        r is Ok <==> trim(new_title@).len() > 0,
        r matches Ok(t) ==> t@ == trim(new_title@),
        r matches Err(e) ==> e is Protocol,
{
    let t = trim_str(new_title);
    if t.unicode_len() == 0 {
        return Err(crate::error::protocol("group name cannot be empty"));
    }
    Ok(String::from_str(t))
}

/// Renames the group to `title`; `encrypted_title` is the new title as
/// encrypted under the group key, which travels in base64 so the server sees
/// only that the title changed.
pub fn set_title_change(state: &mut GroupState, title: &str, encrypted_title: &[u8]) -> (w: GroupActionsWire)
    ensures
        same_roster(*old(state), *final(state)),
        final(state).title@ == title@,
        final(state).group_id == old(state).group_id,
        final(state).created_at_ms == old(state).created_at_ms,
        final(state).creator_did == old(state).creator_did,
        final(state).revision == old(state).revision,
        final(state).last_change_actor_did == old(state).last_change_actor_did,
        final(state).description == old(state).description,
        final(state).expiry_seconds == old(state).expiry_seconds,
        final(state).policy == old(state).policy,
        empty_except(w, ActionField::ModifyTitle),
        w.modify_title matches Some(s) && s@ == b64url(encrypted_title@),
{
    state.title = String::from_str(title);
    let mut w = GroupActionsWire::default();
    w.modify_title = Some(b64(encrypted_title));
    w
}

/// Sets the disappearing-message timer; `encrypted_expiry` is the new value as
/// encrypted under the group key, which travels in base64.
pub fn set_expiry_change(state: &mut GroupState, expiry_seconds: u32, encrypted_expiry: &[u8]) -> (w: GroupActionsWire)
    ensures
        same_roster(*old(state), *final(state)),
        final(state).expiry_seconds == expiry_seconds,
        final(state).group_id == old(state).group_id,
        final(state).created_at_ms == old(state).created_at_ms,
        final(state).creator_did == old(state).creator_did,
        final(state).revision == old(state).revision,
        final(state).last_change_actor_did == old(state).last_change_actor_did,
        final(state).title == old(state).title,
        final(state).description == old(state).description,
        final(state).policy == old(state).policy,
        empty_except(w, ActionField::ModifyExpiry),
        w.modify_expiry matches Some(s) && s@ == b64url(encrypted_expiry@),
{
    state.expiry_seconds = expiry_seconds;
    let mut w = GroupActionsWire::default();
    w.modify_expiry = Some(b64(encrypted_expiry));
    w
}

// ── submission ──────────────────────────────────────────────────────────────

/// Stamps a changed state before it is encrypted and submitted: the submitter
/// is recorded as the change's actor and the revision moves one past the
/// cached one.
pub fn stamp_change(state: &mut GroupState, actor_did: &str, cached_revision: i64)
    requires
        cached_revision != -1,
    ensures
        same_roster(*old(state), *final(state)),
        final(state).last_change_actor_did@ == actor_did@,
        final(state).revision == (cached_revision as u64) + 1,
        final(state).group_id == old(state).group_id,
        final(state).created_at_ms == old(state).created_at_ms,
        final(state).creator_did == old(state).creator_did,
        final(state).title == old(state).title,
        final(state).description == old(state).description,
        final(state).expiry_seconds == old(state).expiry_seconds,
        final(state).policy == old(state).policy,
{
    state.last_change_actor_did = String::from_str(actor_did);
    let r = cached_revision as u64;
    assert(r != u64::MAX) by (bit_vector)
        requires
            r == cached_revision as u64,
            cached_revision != -1,
    ;
    state.revision = r + 1;
}

/// The submission of a change made on top of the cached revision: it names
/// the next revision and carries the encrypted new state in base64.
pub fn submit_change_request(
    cached_revision: i64,
    new_encrypted_state: &[u8],
    actions: GroupActionsWire,
) -> (r: SubmitChangeRequest)
    requires
        cached_revision < i64::MAX,
    ensures
        r.revision == cached_revision + 1,
        r.new_encrypted_state@ == b64url(new_encrypted_state@),
        r.actions == actions,
{
    SubmitChangeRequest {
        revision: cached_revision + 1,
        new_encrypted_state: b64(new_encrypted_state),
        actions,
    }
}

/// Whether a failed submission is retried: once, when the server refused a
/// stale revision (HTTP 409), after refreshing the cached state.
pub fn retry_submission(attempt: u32, err: &NetError) -> (r: bool)
    ensures
        r == (attempt == 0 && (match *err {
            NetError::Server(status, _) => status == 409,
            _ => false,
        })),
{
    match err {
        NetError::Server(status, _) => attempt == 0 && *status == 409,
        _ => false,
    }
}

// ── reading the roster ──────────────────────────────────────────────────────

/// Whether some member of the state has the DID `did`.
pub open spec fn has_member_did(ms: Seq<Member>, did: Seq<char>) -> bool {
    exists|j: int| 0 <= j < ms.len() && #[trigger] ms[j].did@ == did
}

/// Whether `did` is among the members of the cached state.
pub fn is_group_member(state: &GroupState, did: &str) -> (r: bool)
    ensures
        r == has_member_did(state.members@, did@),
{
    let mut i: usize = 0;
    while i < state.members.len()
        invariant
            0 <= i <= state.members@.len(),
            forall|j: int| 0 <= j < i ==> #[trigger] state.members@[j].did@ != did@,
        decreases state.members@.len() - i,
    {
        if str_eq(state.members[i].did.as_str(), did) {
            return true;
        }
        i = i + 1;
    }
    false
}

/// DIDs of the members that can be addressed, in roster order: every member
/// with a known (non-empty) DID other than `excluding`.
pub open spec fn other_dids(ms: Seq<Member>, excluding: Seq<char>) -> Seq<Seq<char>>
    decreases ms.len(),
{
    if ms.len() == 0 {
        Seq::empty()
    } else {
        let rest = other_dids(ms.drop_last(), excluding);
        let d = ms.last().did@;
        if d.len() > 0 && d != excluding {
            rest.push(d)
        } else {
            rest
        }
    }
}


/// DIDs of every member with a known DID other than `excluding_did`, in
/// roster order: the recipients of a group send.
pub fn other_member_dids(state: &GroupState, excluding_did: &str) -> (r: Vec<String>)
    ensures
        string_views(r@) == other_dids(state.members@, excluding_did@),
{
    let mut out: Vec<String> = Vec::new();
    let mut i: usize = 0;
    while i < state.members.len()
        invariant
            0 <= i <= state.members@.len(),
            string_views(out@) == other_dids(state.members@.subrange(0, i as int), excluding_did@),
        decreases state.members@.len() - i,
    {
        let d = state.members[i].did.as_str();
        proof {
            assert(state.members@.subrange(0, i + 1).drop_last() =~= state.members@.subrange(0, i as int));
        }
        if d.unicode_len() > 0 && !str_eq(d, excluding_did) {
            let ghost prev = out@;
            out.push(String::from_str(d));
            proof {
                assert(string_views(out@) =~= string_views(prev).push(d@));
            }
        }
        i = i + 1;
    }
    proof {
        assert(state.members@.subrange(0, state.members@.len() as int) =~= state.members@);
    }
    out
}


// ── summaries ───────────────────────────────────────────────────────────────

/// The stored code of a role.
pub open spec fn role_code(role: Role) -> i16 {
    match role {
        Role::Admin => ROLE_ADMIN,
        Role::Member => ROLE_MEMBER,
    }
}

/// `g` shows the member `m`.
pub open spec fn shows_member(g: GroupMember, m: Member) -> bool {
    &&& g.did@ == m.did@
    &&& g.encrypted_member_id@ == b64url(m.encrypted_member_id@)
    &&& g.role == role_code(m.role)
    &&& g.joined_at_ms == m.joined_at_ms
}

/// `g` shows a pending entry with id `emi` at time `ts`.
pub open spec fn shows_pending(g: GroupPending, emi: Seq<u8>, ts: i64) -> bool {
    &&& g.encrypted_member_id@ == b64url(emi)
    &&& g.timestamp_ms == ts
}

fn shown_members(ms: &Vec<Member>) -> (r: Vec<GroupMember>)
    ensures
        r@.len() == ms@.len(),
        forall|i: int| 0 <= i < ms@.len() ==> shows_member(#[trigger] r@[i], ms@[i]),
{
    let mut out: Vec<GroupMember> = Vec::new();
    let mut i: usize = 0;
    while i < ms.len()
        invariant
            0 <= i <= ms@.len(),
            out@.len() == i,
            forall|j: int| 0 <= j < i ==> shows_member(#[trigger] out@[j], ms@[j]),
        decreases ms@.len() - i,
    {
        let m = &ms[i];
        out.push(GroupMember {
            did: String::from_str(m.did.as_str()),
            encrypted_member_id: b64(m.encrypted_member_id.as_slice()),
            role: role_to_i16(m.role),
            joined_at_ms: m.joined_at_ms,
        });
        i = i + 1;
    }
    out
}

fn shown_invites(ps: &Vec<PendingInvite>) -> (r: Vec<GroupPending>)
    ensures
        r@.len() == ps@.len(),
        forall|i: int|
            0 <= i < ps@.len() ==> shows_pending(
                #[trigger] r@[i],
                ps@[i].encrypted_member_id@,
                ps@[i].invited_at_ms,
            ),
{
    let mut out: Vec<GroupPending> = Vec::new();
    let mut i: usize = 0;
    while i < ps.len()
        invariant
            0 <= i <= ps@.len(),
            out@.len() == i,
            forall|j: int|
                0 <= j < i ==> shows_pending(
                    #[trigger] out@[j],
                    ps@[j].encrypted_member_id@,
                    ps@[j].invited_at_ms,
                ),
        decreases ps@.len() - i,
    {
        out.push(GroupPending {
            encrypted_member_id: b64(ps[i].encrypted_member_id.as_slice()),
            timestamp_ms: ps[i].invited_at_ms,
        });
        i = i + 1;
    }
    out
}

fn shown_approvals(ps: &Vec<PendingApproval>) -> (r: Vec<GroupPending>)
    ensures
        r@.len() == ps@.len(),
        forall|i: int|
            0 <= i < ps@.len() ==> shows_pending(
                #[trigger] r@[i],
                ps@[i].encrypted_member_id@,
                ps@[i].requested_at_ms,
            ),
{
    let mut out: Vec<GroupPending> = Vec::new();
    let mut i: usize = 0;
    while i < ps.len()
        invariant
            0 <= i <= ps@.len(),
            out@.len() == i,
            forall|j: int|
                0 <= j < i ==> shows_pending(
                    #[trigger] out@[j],
                    ps@[j].encrypted_member_id@,
                    ps@[j].requested_at_ms,
                ),
        decreases ps@.len() - i,
    {
        out.push(GroupPending {
            encrypted_member_id: b64(ps[i].encrypted_member_id.as_slice()),
            timestamp_ms: ps[i].requested_at_ms,
        });
        i = i + 1;
    }
    out
}

/// The UI summary of a group: its stored id, master key and revision, and the
/// title, description, timer and roster of its decrypted state, ids in base64.
pub fn summary_from_state(
    group_id: &str,
    master_key: &[u8],
    revision: i64,
    state: &GroupState,
) -> (r: GroupSummary)
    ensures
        r.group_id@ == group_id@,
        r.master_key@ == master_key@,
        r.revision == revision,
        r.title@ == state.title@,
        r.description@ == state.description@,
        r.expiry_seconds == state.expiry_seconds,
        r.members@.len() == state.members@.len(),
        forall|i: int| 0 <= i < state.members@.len() ==> shows_member(#[trigger] r.members@[i], state.members@[i]),
        r.pending_invites@.len() == state.pending_invites@.len(),
        forall|i: int|
            0 <= i < state.pending_invites@.len() ==> shows_pending(
                #[trigger] r.pending_invites@[i],
                state.pending_invites@[i].encrypted_member_id@,
                state.pending_invites@[i].invited_at_ms,
            ),
        r.pending_approvals@.len() == state.pending_approvals@.len(),
        forall|i: int|
            0 <= i < state.pending_approvals@.len() ==> shows_pending(
                #[trigger] r.pending_approvals@[i],
                state.pending_approvals@[i].encrypted_member_id@,
                state.pending_approvals@[i].requested_at_ms,
            ),
{
    GroupSummary {
        group_id: String::from_str(group_id),
        master_key: crate::bytes::copy_all(master_key),
        revision,
        title: String::from_str(state.title.as_str()),
        description: String::from_str(state.description.as_str()),
        expiry_seconds: state.expiry_seconds,
        members: shown_members(&state.members),
        pending_invites: shown_invites(&state.pending_invites),
        pending_approvals: shown_approvals(&state.pending_approvals),
    }
}

// ── creation ────────────────────────────────────────────────────────────────

/// The first state of a new group: revision 0 with no prior actor, the founder
/// its only member, as admin, with their profile key; nobody pending; the
/// given policy.
pub fn founder_state(
    group_id: &[u8],
    founder_did: &str,
    founder_emi: &[u8],
    now_ms: i64,
    title: &str,
    description: &str,
    expiry_seconds: u32,
    founder_profile_key: &[u8],
    policy: &PolicyRow,
) -> (r: GroupState)
    ensures
        r.group_id@ == group_id@,
        r.created_at_ms == now_ms,
        r.creator_did@ == founder_did@,
        r.revision == 0,
        r.last_change_actor_did@.len() == 0,
        r.title@ == title@,
        r.description@ == description@,
        r.expiry_seconds == expiry_seconds,
        r.members@.len() == 1,
        r.members@[0].did@ == founder_did@,
        r.members@[0].encrypted_member_id@ == founder_emi@,
        r.members@[0].role == Role::Admin,
        r.members@[0].joined_at_ms == now_ms,
        r.members@[0].profile_key@ == founder_profile_key@,
        r.pending_invites@.len() == 0,
        r.pending_approvals@.len() == 0,
        r.policy matches Some(p) && policy_matches_row(p, *policy),
{
    let mut members: Vec<Member> = Vec::new();
    members.push(Member {
        did: String::from_str(founder_did),
        encrypted_member_id: crate::bytes::copy_all(founder_emi),
        role: Role::Admin,
        joined_at_ms: now_ms,
        profile_key: crate::bytes::copy_all(founder_profile_key),
    });
    GroupState {
        group_id: crate::bytes::copy_all(group_id),
        created_at_ms: now_ms,
        creator_did: String::from_str(founder_did),
        revision: 0,
        last_change_actor_did: String::new(),
        title: String::from_str(title),
        description: String::from_str(description),
        expiry_seconds,
        members,
        pending_invites: Vec::new(),
        pending_approvals: Vec::new(),
        policy: Some(proto_policy_from_row(policy)),
    }
}


// ── laws ────────────────────────────────────────────────────────────────────

/// Declining an invite undoes it: when no pending invite carried `emi`, an
/// invite of `emi` followed by that invitee's decline leaves the pending
/// invites as they were.
pub proof fn law_decline_undoes_invite(
    before: Seq<PendingInvite>,
    invited: Seq<PendingInvite>,
    emi: Seq<u8>,
)
    requires
        !holds_id(before, emi),
        invited.len() == before.len() + 1,
        invited.drop_last() == before,
        invited.last().encrypted_member_id@ == emi,
    ensures
        without_id(invited, emi) == before,
{
    lemma_without_id(before, emi);
    assert(before.push(invited.last()) =~= invited);
    lemma_filter_push(before, invited.last(), id_is_not::<PendingInvite>(emi));
}

/// Removing an id twice is removing it once.
pub proof fn law_removal_idempotent<T: RosterEntry>(s: Seq<T>, emi: Seq<u8>)
    ensures
        without_id(without_id(s, emi), emi) == without_id(s, emi),
{
    lemma_without_id(s, emi);
    lemma_without_id(without_id(s, emi), emi);
}

/// After an id is removed no entry carries it, every entry with another id
/// stays, and nothing new appears.
pub proof fn law_removal_exact<T: RosterEntry>(s: Seq<T>, emi: Seq<u8>)
    ensures
        !holds_id(without_id(s, emi), emi),
        forall|i: int|
            0 <= i < s.len() && s[i].member_id() != emi ==> without_id(s, emi).contains(#[trigger] s[i]),
        forall|x: T| #[trigger] without_id(s, emi).contains(x) ==> s.contains(x),
{
    lemma_without_id(s, emi);
}

/// Changing a role keeps every member and their id, DID, join time and
/// profile key; only the role of the members carrying `emi` changes.
pub proof fn law_role_change_keeps_roster(ms: Seq<Member>, emi: Seq<u8>, role: Role)
    ensures
        roles_set(ms, emi, role).len() == ms.len(),
        forall|i: int|
            0 <= i < ms.len() ==> {
                let n = #[trigger] roles_set(ms, emi, role)[i];
                &&& n.did == ms[i].did
                &&& n.encrypted_member_id == ms[i].encrypted_member_id
                &&& n.joined_at_ms == ms[i].joined_at_ms
                &&& n.profile_key == ms[i].profile_key
                &&& n.role == (if ms[i].encrypted_member_id@ == emi { role } else { ms[i].role })
            },
{
}


// ── group send ──────────────────────────────────────────────────────────────

/// Whether a member can be sent to: its DID is known and is not the sender's.
pub open spec fn addressable(m: Member, sender: Seq<char>) -> bool {
    m.did@.len() > 0 && m.did@ != sender
}

/// The encrypted member ids of every member, in roster order; the set the
/// server's endorsements are issued over.
pub fn member_emis(state: &GroupState) -> (r: Vec<Vec<u8>>)
    ensures
        r@.len() == state.members@.len(),
        forall|i: int| 0 <= i < r@.len() ==> (#[trigger] r@[i])@ == state.members@[i].encrypted_member_id@,
{
    let mut out: Vec<Vec<u8>> = Vec::new();
    let mut i: usize = 0;
    while i < state.members.len()
        invariant
            0 <= i <= state.members@.len(),
            out@.len() == i,
            forall|j: int| 0 <= j < i ==> (#[trigger] out@[j])@ == state.members@[j].encrypted_member_id@,
        decreases state.members@.len() - i,
    {
        out.push(crate::bytes::copy_all(state.members[i].encrypted_member_id.as_slice()));
        i = i + 1;
    }
    out
}

/// The endorsements among the first `n` roster positions that belong to
/// addressable members, in order.
pub open spec fn select_upto(ms: Seq<Member>, es: Seq<Seq<u8>>, sender: Seq<char>, n: int) -> Seq<Seq<u8>>
    decreases n,
{
    if n <= 0 {
        Seq::empty()
    } else {
        let rest = select_upto(ms, es, sender, n - 1);
        if addressable(ms[n - 1], sender) {
            rest.push(es[n - 1])
        } else {
            rest
        }
    }
}

/// Pairs the endorsements, issued in roster order, with the members and
/// keeps those of the addressable members: the set the send token covers.
pub open spec fn recipient_selection(ms: Seq<Member>, es: Seq<Seq<u8>>, sender: Seq<char>) -> Seq<Seq<u8>> {
    select_upto(ms, es, sender, if ms.len() < es.len() { ms.len() as int } else { es.len() as int })
}

/// The endorsements of the addressable members, from endorsements aligned
/// with the roster.
pub fn recipient_endorsements(members: &Vec<Member>, endorsements: &Vec<Vec<u8>>, sender_did: &str) -> (r: Vec<Vec<u8>>)
    ensures
        r@.map_values(|b: Vec<u8>| b@) == recipient_selection(members@, endorsements@.map_values(|b: Vec<u8>| b@), sender_did@),
{
    let ghost es = endorsements@.map_values(|b: Vec<u8>| b@);
    let n = if members.len() < endorsements.len() { members.len() } else { endorsements.len() };
    let mut out: Vec<Vec<u8>> = Vec::new();
    let mut i: usize = 0;
    while i < n
        invariant
            0 <= i <= n,
            n <= members@.len(),
            n <= endorsements@.len(),
            es == endorsements@.map_values(|b: Vec<u8>| b@),
            out@.map_values(|b: Vec<u8>| b@) == select_upto(members@, es, sender_did@, i as int),
        decreases n - i,
    {
        let d = members[i].did.as_str();
        if d.unicode_len() > 0 && !str_eq(d, sender_did) {
            let ghost before = out@;
            out.push(crate::bytes::copy_all(endorsements[i].as_slice()));
            proof {
                assert(out@.map_values(|b: Vec<u8>| b@) =~= before.map_values(|b: Vec<u8>| b@).push(es[i as int]));
            }
        }
        i = i + 1;
    }
    out
}

proof fn lemma_selection_counts(ms: Seq<Member>, es: Seq<Seq<u8>>, sender: Seq<char>, n: int)
    requires
        0 <= n <= ms.len(),
    ensures
        select_upto(ms, es, sender, n).len() == other_dids(ms.subrange(0, n), sender).len(),
    decreases n,
{
    if n > 0 {
        lemma_selection_counts(ms, es, sender, n - 1);
        assert(ms.subrange(0, n).drop_last() =~= ms.subrange(0, n - 1));
    } else {
        assert(ms.subrange(0, 0).len() == 0);
    }
}

/// The send token covers exactly the fan-out: with one endorsement per
/// member, as many endorsements are kept as there are recipient DIDs.
pub proof fn law_token_matches_fanout(ms: Seq<Member>, es: Seq<Seq<u8>>, sender: Seq<char>)
    requires
        es.len() == ms.len(),
    ensures
        recipient_selection(ms, es, sender).len() == other_dids(ms, sender).len(),
{
    lemma_selection_counts(ms, es, sender, ms.len() as int);
    assert(ms.subrange(0, ms.len() as int) =~= ms);
}


/// Leaving ends membership: when every member entry with DID `did` carries
/// the id `emi`, no member with that DID is left once `emi` is removed.
pub proof fn law_leave_ends_membership(members: Seq<Member>, emi: Seq<u8>, did: Seq<char>)
    requires
        forall|i: int| 0 <= i < members.len() && #[trigger] members[i].did@ == did ==> members[i].encrypted_member_id@ == emi,
    ensures
        !has_member_did(without_id(members, emi), did),
{
    lemma_without_id(members, emi);
    let kept = without_id(members, emi);
    if has_member_did(kept, did) {
        let j = choose|j: int| 0 <= j < kept.len() && #[trigger] kept[j].did@ == did;
        assert(kept.contains(kept[j]));
        assert(members.contains(kept[j]));
        let i = choose|i: int| 0 <= i < members.len() && members[i] == kept[j];
        assert(members[i].did@ == did);
        assert(kept[j].member_id() != emi) by {
            assert(!holds_id(kept, emi));
        }
    }
}

/// Accepting makes one a member: after the accept, the roster holds a member
/// with the accepting DID.
pub proof fn law_accept_makes_member(before: Seq<Member>, after: Seq<Member>, did: Seq<char>)
    requires
        after.len() == before.len() + 1,
        after.last().did@ == did,
    ensures
        has_member_did(after, did),
{
    assert(after[after.len() - 1].did@ == did);
}

} // verus!
