//! Request and response records of the `/v1/groups` endpoints. Base64 fields
//! are URL-safe without padding.
use vstd::prelude::*;

verus! {

/// The server's zkgroup public params and sender-cert trust root.
pub struct GroupServerParams {
    pub version: i32,
    pub params: Vec<u8>,
    pub sender_cert_trust_root: Vec<u8>,
}

/// A day's group credential as issued, with its sender certificate.
pub struct IssuedGroupCredential {
    pub bytes: Vec<u8>,
    pub redemption_time: u64,
    pub sender_cert: Vec<u8>,
    pub sender_cert_expires_at_unix_millis: u64,
}

/// The server's endorsement response for a group send.
pub struct GroupEndorsements {
    pub response: Vec<u8>,
    pub expiration_unix_seconds: u64,
}

/// A sealed-sender group send.
pub struct GroupSendRequest {
    pub envelope: Vec<u8>,
    pub token: Vec<u8>,
    pub recipients: Vec<GroupSendRecipient>,
    pub expiry_secs: Option<i64>,
}

/// One recipient of a group send.
pub struct GroupSendRecipient {
    pub service_id_fixed_width: Vec<u8>,
    pub encrypted_member_id: Vec<u8>,
}

/// A queued group message as fetched.
pub struct QueuedGroupMessage {
    pub id: i64,
    pub ciphertext: Vec<u8>,
    pub enqueued_at: String,
}

/// Group creation request.
pub struct CreateGroupRequest {
    pub group_public_params: Vec<u8>,
    pub encrypted_state: Vec<u8>,
    pub founder_encrypted_member_id: Vec<u8>,
    pub founder_group_push_pseudonym: Vec<u8>,
    pub policy: GroupPolicyWire,
}

/// Group creation response; `group_id` is base64.
pub struct CreateGroupResponse {
    pub group_id: String,
    pub revision: i64,
}

/// A group's access policy as sent over the wire.
pub struct GroupPolicyWire {
    pub invite_members_role: i16,
    pub remove_members_role: i16,
    pub modify_title_role: i16,
    pub modify_description_role: i16,
    pub modify_expiry_role: i16,
    pub join_policy: i16,
    /// Optional invite-link password, base64.
    pub invite_link_password: Option<String>,
    pub announcement_only: bool,
}

/// A group's current encrypted state.
pub struct GetGroupResponse {
    pub revision: i64,
    pub encrypted_state: Vec<u8>,
    pub group_public_params: Vec<u8>,
    pub policy: GroupPolicyWire,
}

/// One history row: the state before `actions` were applied at `revision`.
pub struct GroupChange {
    pub revision: i64,
    pub encrypted_state: Vec<u8>,
    /// JSON-encoded actions blob.
    pub actions: Vec<u8>,
}

/// The changes since a revision.
pub struct ChangesResponse {
    pub changes: Vec<GroupChange>,
    pub current_revision: i64,
}

/// A change submission.
pub struct SubmitChangeRequest {
    pub revision: i64,
    pub new_encrypted_state: String,
    pub actions: GroupActionsWire,
}

/// The actions of one group change.
pub struct GroupActionsWire {
    pub invite_members: Vec<InviteMemberWire>,
    pub promote_pending_members: Option<PromoteSelfWire>,
    pub decline_invite: Option<String>,
    pub remove_members: Vec<String>,
    pub modify_member_role: Vec<RoleAssignmentWire>,
    pub join_via_link: Option<JoinViaLinkWire>,
    pub cancel_join_request: Option<String>,
    /// The actor leaves, naming their own encrypted member id.
    pub leave: Option<String>,
    pub approve_join_request: Vec<String>,
    pub deny_join_request: Vec<String>,
    pub modify_policy: Option<GroupPolicyWire>,
    pub modify_title: Option<String>,
    pub modify_description: Option<String>,
    pub modify_expiry: Option<String>,
}

impl Default for GroupActionsWire {
    /// A change with no actions.
    fn default() -> (r: Self)
        ensures
            r.invite_members@.len() == 0,
            r.promote_pending_members is None,
            r.decline_invite is None,
            r.remove_members@.len() == 0,
            r.modify_member_role@.len() == 0,
            r.join_via_link is None,
            r.cancel_join_request is None,
            r.leave is None,
            r.approve_join_request@.len() == 0,
            r.deny_join_request@.len() == 0,
            r.modify_policy is None,
            r.modify_title is None,
            r.modify_description is None,
            r.modify_expiry is None,
    {
        GroupActionsWire {
            invite_members: Vec::new(),
            promote_pending_members: None,
            decline_invite: None,
            remove_members: Vec::new(),
            modify_member_role: Vec::new(),
            join_via_link: None,
            cancel_join_request: None,
            leave: None,
            approve_join_request: Vec::new(),
            deny_join_request: Vec::new(),
            modify_policy: None,
            modify_title: None,
            modify_description: None,
            modify_expiry: None,
        }
    }
}

/// An invitation of a member at a role.
pub struct InviteMemberWire {
    pub encrypted_member_id: String,
    pub role: i16,
}

/// A pending invitee accepting.
pub struct PromoteSelfWire {
    pub encrypted_profile_key: String,
    pub group_push_pseudonym: String,
}

/// A role change.
pub struct RoleAssignmentWire {
    pub encrypted_member_id: String,
    pub role: i16,
}

/// A join through an invite link.
pub struct JoinViaLinkWire {
    pub encrypted_profile_key: String,
    pub group_push_pseudonym: String,
    pub invite_link_password: String,
}

/// The outcome of a change submission.
pub struct SubmitChangeResponse {
    pub revision: i64,
    /// `Some(true)`: joined as a member; `Some(false)`: awaiting approval;
    /// `None`: the change was no join.
    pub join_landed_as_member: Option<bool>,
}

/// Reads the server's `join_result` field of a change submission: absent for
/// a change that was no join, `"member"` when the joiner landed as a member,
/// anything else when it awaits approval.
pub fn join_landed_as_member(join_result: Option<&str>) -> (r: Option<bool>)
    ensures
        r == (match join_result {
            Some(s) => Some(s@ == "member"@),
            None => None,
        }),
{
    match join_result {
        Some(s) => Some(crate::text::str_eq(s, "member")),
        None => None,
    }
}

} // verus!
