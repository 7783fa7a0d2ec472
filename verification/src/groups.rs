//! Group state model, the optimistic state changes each group action makes,
//! and the derivation of timeline entries from a group change.
//!
//! Encrypted member ids travel as URL-safe base64 of their serialized bytes;
//! the group-key cryptography that produces them is the caller's, so every
//! function here takes the ids it needs as arguments.
use vstd::prelude::*;
use vstd::string::*;

use crate::net_groups::{
    GroupActionsWire, GroupPolicyWire, InviteMemberWire, JoinViaLinkWire, PromoteSelfWire,
    RoleAssignmentWire,
};
use crate::prims::{b64url, b64url_decode, b64url_decode_str, b64url_encode};
use crate::text::{join2, join3, join4};

verus! {

/// Seconds per day; redemption times are day-aligned.
pub const DAY: u64 = 86_400;

pub const ROLE_MEMBER: i16 = 0;
pub const ROLE_ADMIN: i16 = 1;
pub const JOIN_POLICY_CLOSED: i16 = 0;
pub const JOIN_POLICY_REQUEST_TO_JOIN: i16 = 1;
pub const JOIN_POLICY_OPEN_LINK: i16 = 2;

// ── state model ─────────────────────────────────────────────────────────────

/// A member's role in a group.
#[derive(Clone, Copy, PartialEq, Eq, Debug, Structural)]
pub enum Role {
    Member,
    Admin,
}

/// Who may join a group and how.
#[derive(Clone, Copy, PartialEq, Eq, Debug, Structural)]
pub enum JoinPolicy {
    Closed,
    RequestToJoin,
    OpenLink,
}

/// The access policy carried inside the encrypted group state.
pub struct Policy {
    pub invite_members_role: Role,
    pub remove_members_role: Role,
    pub modify_title_role: Role,
    pub modify_description_role: Role,
    pub modify_expiry_role: Role,
    pub join_policy: JoinPolicy,
    pub invite_link_password: Vec<u8>,
    pub announcement_only: bool,
}

/// A full member of the group.
pub struct Member {
    pub did: String,
    pub encrypted_member_id: Vec<u8>,
    pub role: Role,
    pub joined_at_ms: i64,
    pub profile_key: Vec<u8>,
}

/// An invitee who has not accepted yet.
pub struct PendingInvite {
    pub encrypted_member_id: Vec<u8>,
    pub role: Role,
    pub inviter_did: String,
    pub invited_at_ms: i64,
    pub invited_did: String,
}

/// A link joiner awaiting approval.
pub struct PendingApproval {
    pub encrypted_member_id: Vec<u8>,
    pub requested_at_ms: i64,
}

/// The decrypted group state.
pub struct GroupState {
    pub group_id: Vec<u8>,
    pub created_at_ms: i64,
    pub creator_did: String,
    pub revision: u64,
    pub last_change_actor_did: String,
    pub title: String,
    pub description: String,
    pub expiry_seconds: u32,
    pub members: Vec<Member>,
    pub pending_invites: Vec<PendingInvite>,
    pub pending_approvals: Vec<PendingApproval>,
    pub policy: Option<Policy>,
}

/// The access policy as cached locally.
pub struct PolicyRow {
    pub invite_members_role: i16,
    pub remove_members_role: i16,
    pub modify_title_role: i16,
    pub modify_description_role: i16,
    pub modify_expiry_role: i16,
    pub join_policy: i16,
    pub invite_link_password: Option<Vec<u8>>,
    pub announcement_only: bool,
}

/// Summary of a group's decrypted state, returned to the UI.
pub struct GroupSummary {
    pub group_id: String,
    pub master_key: Vec<u8>,
    pub revision: i64,
    pub title: String,
    pub description: String,
    pub expiry_seconds: u32,
    pub members: Vec<GroupMember>,
    pub pending_invites: Vec<GroupPending>,
    pub pending_approvals: Vec<GroupPending>,
}

/// A member as shown to the UI.
pub struct GroupMember {
    pub did: String,
    pub encrypted_member_id: String,
    pub role: i16,
    pub joined_at_ms: i64,
}

/// A pending invite or request as shown to the UI.
pub struct GroupPending {
    pub encrypted_member_id: String,
    pub timestamp_ms: i64,
}

/// Result of joining through a link.
#[derive(Clone, Copy, PartialEq, Eq, Debug, Structural)]
pub enum JoinResult {
    /// Placed directly among the members.
    Member,
    /// Placed in the approval queue.
    Pending,
}

/// A freshly created group.
pub struct CreatedGroup {
    pub group_id: String,
    pub master_key: Vec<u8>,
}

/// A group message as delivered.
pub struct ReceivedGroupMessage {
    pub message_id: i64,
    pub group_id_b64: String,
    pub sender_did: String,
    pub sender_device_id: u32,
    pub plaintext: Vec<u8>,
}

// ── small conversions ───────────────────────────────────────────────────────

/// URL-safe unpadded base64.
pub fn b64(bytes: &[u8]) -> (r: String)
    ensures
        r@ == b64url(bytes@),
{
    b64url_encode(bytes)
}

/// Decodes URL-safe unpadded base64.
pub fn b64d(s: &str) -> (r: Result<Vec<u8>, crate::error::AppError>)
    ensures
        r is Ok <==> b64url_decode(s@) is Some,
        r matches Ok(b) ==> b64url_decode(s@) == Some(b@),
        r matches Err(e) ==> e is Protocol,
{
    match b64url_decode_str(s) {
        Some(b) => Ok(b),
        None => Err(crate::error::protocol("base64 decode failed")),
    }
}

/// `1` is admin; every other value is an ordinary member.
pub fn role_from_i16(role: i16) -> (r: Role)
    ensures
        r == (if role == ROLE_ADMIN {
            Role::Admin
        } else {
            Role::Member
        }),
{
    if role == ROLE_ADMIN {
        Role::Admin
    } else {
        Role::Member
    }
}

/// The stored code of a role.
pub fn role_to_i16(role: Role) -> (r: i16)
    ensures
        r == (match role {
            Role::Admin => ROLE_ADMIN,
            Role::Member => ROLE_MEMBER,
        }),
{
    match role {
        Role::Admin => ROLE_ADMIN,
        Role::Member => ROLE_MEMBER,
    }
}

/// Converting a role to its code and back is the identity.
pub proof fn lemma_role_round_trip(role: Role)
    ensures
        (if (match role {
            Role::Admin => ROLE_ADMIN,
            Role::Member => ROLE_MEMBER,
        }) == ROLE_ADMIN {
            Role::Admin
        } else {
            Role::Member
        }) == role,
{
}

/// The join-policy code as stored: open link, request to join, else closed.
pub fn join_policy_from_i16(p: i16) -> (r: JoinPolicy)
    ensures
        r == (if p == JOIN_POLICY_OPEN_LINK {
            JoinPolicy::OpenLink
        } else if p == JOIN_POLICY_REQUEST_TO_JOIN {
            JoinPolicy::RequestToJoin
        } else {
            JoinPolicy::Closed
        }),
{
    if p == JOIN_POLICY_OPEN_LINK {
        JoinPolicy::OpenLink
    } else if p == JOIN_POLICY_REQUEST_TO_JOIN {
        JoinPolicy::RequestToJoin
    } else {
        JoinPolicy::Closed
    }
}

/// A byte-for-byte copy.
fn copy_bytes(b: &Vec<u8>) -> (r: Vec<u8>)
    ensures
        r@ == b@,
{
    crate::bytes::copy_all(b.as_slice())
}

/// The wire policy of a cached policy row; the link password travels in base64.
pub fn policy_wire_from_row(p: &PolicyRow) -> (r: GroupPolicyWire)
    ensures
        r.invite_members_role == p.invite_members_role,
        r.remove_members_role == p.remove_members_role,
        r.modify_title_role == p.modify_title_role,
        r.modify_description_role == p.modify_description_role,
        r.modify_expiry_role == p.modify_expiry_role,
        r.join_policy == p.join_policy,
        r.announcement_only == p.announcement_only,
        match p.invite_link_password {
            Some(pw) => r.invite_link_password matches Some(s) && s@ == b64url(pw@),
            None => r.invite_link_password is None,
        },
{
    GroupPolicyWire {
        invite_members_role: p.invite_members_role,
        remove_members_role: p.remove_members_role,
        modify_title_role: p.modify_title_role,
        modify_description_role: p.modify_description_role,
        modify_expiry_role: p.modify_expiry_role,
        join_policy: p.join_policy,
        invite_link_password: match &p.invite_link_password {
            Some(pw) => Some(b64(pw.as_slice())),
            None => None,
        },
        announcement_only: p.announcement_only,
    }
}

/// The cached policy row of a wire policy; fails when the link password is
/// not valid base64.
pub fn policy_row_from_wire(policy: &GroupPolicyWire) -> (r: Result<PolicyRow, crate::error::AppError>)
    ensures
        r is Ok <==> (match policy.invite_link_password {
            Some(s) => b64url_decode(s@) is Some,
            None => true,
        }),
        r matches Ok(p) ==> {
            &&& p.invite_members_role == policy.invite_members_role
            &&& p.remove_members_role == policy.remove_members_role
            &&& p.modify_title_role == policy.modify_title_role
            &&& p.modify_description_role == policy.modify_description_role
            &&& p.modify_expiry_role == policy.modify_expiry_role
            &&& p.join_policy == policy.join_policy
            &&& p.announcement_only == policy.announcement_only
            &&& match policy.invite_link_password {
                Some(s) => p.invite_link_password matches Some(b) && b64url_decode(s@) == Some(b@),
                None => p.invite_link_password is None,
            }
        },
        r matches Err(e) ==> e is Protocol,
{
    let pw = match &policy.invite_link_password {
        Some(s) => Some(b64d(s.as_str())?),
        None => None,
    };
    Ok(PolicyRow {
        invite_members_role: policy.invite_members_role,
        remove_members_role: policy.remove_members_role,
        modify_title_role: policy.modify_title_role,
        modify_description_role: policy.modify_description_role,
        modify_expiry_role: policy.modify_expiry_role,
        join_policy: policy.join_policy,
        invite_link_password: pw,
        announcement_only: policy.announcement_only,
    })
}

/// The role a stored role code stands for: `1` is admin, anything else member.
pub open spec fn role_of_code(code: i16) -> Role {
    if code == ROLE_ADMIN {
        Role::Admin
    } else {
        Role::Member
    }
}

/// `p` is the state policy of the cached row `row` (a missing link password
/// is empty).
pub open spec fn policy_matches_row(p: Policy, row: PolicyRow) -> bool {
    &&& p.invite_members_role == role_of_code(row.invite_members_role)
    &&& p.remove_members_role == role_of_code(row.remove_members_role)
    &&& p.modify_title_role == role_of_code(row.modify_title_role)
    &&& p.modify_description_role == role_of_code(row.modify_description_role)
    &&& p.modify_expiry_role == role_of_code(row.modify_expiry_role)
    &&& p.join_policy == (if row.join_policy == JOIN_POLICY_OPEN_LINK {
        JoinPolicy::OpenLink
    } else if row.join_policy == JOIN_POLICY_REQUEST_TO_JOIN {
        JoinPolicy::RequestToJoin
    } else {
        JoinPolicy::Closed
    })
    &&& p.invite_link_password@ == (match row.invite_link_password {
        Some(pw) => pw@,
        None => Seq::empty(),
    })
    &&& p.announcement_only == row.announcement_only
}

/// The state policy of a cached policy row (a missing password becomes empty).
pub fn proto_policy_from_row(p: &PolicyRow) -> (r: Policy)
    ensures
        policy_matches_row(r, *p),
{
    Policy {
        invite_members_role: role_from_i16(p.invite_members_role),
        remove_members_role: role_from_i16(p.remove_members_role),
        modify_title_role: role_from_i16(p.modify_title_role),
        modify_description_role: role_from_i16(p.modify_description_role),
        modify_expiry_role: role_from_i16(p.modify_expiry_role),
        join_policy: join_policy_from_i16(p.join_policy),
        invite_link_password: match &p.invite_link_password {
            Some(pw) => copy_bytes(pw),
            None => Vec::new(),
        },
        announcement_only: p.announcement_only,
    }
}

/// Today's start in unix seconds, given the current time.
pub open spec fn day_start(now: u64) -> u64 {
    (now - now % (DAY as u64)) as u64
}

/// The start of the day containing `now` (unix seconds).
pub fn day_aligned(now: u64) -> (r: u64)
    ensures
        r == day_start(now),
        r % DAY == 0,
        r <= now < r + DAY,
{
    now - (now % DAY)
}

/// The start of today in unix seconds, by the system clock.
pub fn day_aligned_now() -> (r: u64)
    ensures
        r % DAY == 0,
{
    day_aligned(crate::prims::now_unix_seconds())
}


/// Domain prefix of the sender-key distribution id.
pub open spec fn distribution_domain() -> Seq<u8> {
    seq![
        97u8, 99, 116, 110, 101, 116, 45, 115, 107, 45, 100, 105, 115, 116, 114, 105, 98, 117, 116, 105,
        111, 110, 45, 105, 100, 45, 118, 49,
    ]
}

/// The 16 bytes of a group's sender-key distribution id: the first half of
/// `SHA-256("actnet-sk-distribution-id-v1" ‖ master key)`. Every member
/// derives the same id, so none has to be negotiated.
pub fn distribution_id_for(master_key: &[u8; 32]) -> (r: [u8; 16])
    ensures
        r@ == crate::prims::sha256(distribution_domain() + master_key@).subrange(0, 16),
{
    let mut input: Vec<u8> = vec![
        97u8, 99, 116, 110, 101, 116, 45, 115, 107, 45, 100, 105, 115, 116, 114, 105, 98, 117, 116, 105,
        111, 110, 45, 105, 100, 45, 118, 49,
    ];
    proof {
        assert(input@ =~= distribution_domain());
    }
    crate::bytes::append_bytes(&mut input, master_key);
    let digest = crate::prims::sha256_digest(input.as_slice());
    let mut out = [0u8; 16];
    let mut i: usize = 0;
    while i < 16
        invariant
            i <= 16,
            digest@.len() == 32,
            out@.len() == 16,
            forall|j: int| 0 <= j < i ==> out@[j] == digest@[j],
        decreases 16 - i,
    {
        out[i] = digest[i];
        i = i + 1;
    }
    proof {
        assert(out@ =~= digest@.subrange(0, 16));
    }
    out
}

/// A fresh 24-byte group push pseudonym from the OS RNG.
pub fn fresh_pseudonym() -> (r: Vec<u8>)
    ensures
        r@.len() == 24,
{
    let b = crate::prims::os_random_24();
    crate::bytes::copy_all(&b)
}

} // verus!
