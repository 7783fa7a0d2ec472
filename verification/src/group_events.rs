//! Timeline entries derived from a group change: which members joined, left,
//! were invited, removed or promoted, and which settings changed, each with an
//! English one-line summary.
use vstd::prelude::*;
use vstd::string::*;

use crate::groups::{GroupState, Member, PendingApproval, PendingInvite, ROLE_ADMIN};
use crate::net_groups::GroupActionsWire;
use crate::prims::{b64url, b64url_encode};
use crate::text::{decimal, i64_to_decimal, join2, join3, join4, signed_decimal, str_eq, u64_to_decimal};

verus! {

/// Kind of a derived timeline entry. Append-only: its code is persisted.
#[derive(Clone, Copy, PartialEq, Eq, Debug, Structural)]
pub enum GroupEventKind {
    MemberJoined,
    MemberJoinedViaLink,
    MemberRequestedToJoin,
    MemberInvited,
    MemberLeft,
    MemberRemoved,
    JoinRequestApproved,
    JoinRequestDenied,
    InviteDeclined,
    JoinRequestCancelled,
    RoleChangedToAdmin,
    RoleChangedToMember,
    TitleChanged,
    DescriptionChanged,
    ExpiryChanged,
    PolicyChanged,
}

/// Persisted code of a kind; `0` stays "normal chat message".
pub open spec fn spec_kind_code(kind: GroupEventKind) -> i64 {
    match kind {
        GroupEventKind::MemberJoined => 1,
        GroupEventKind::MemberJoinedViaLink => 2,
        GroupEventKind::MemberRequestedToJoin => 3,
        GroupEventKind::MemberInvited => 4,
        GroupEventKind::MemberLeft => 5,
        GroupEventKind::MemberRemoved => 6,
        GroupEventKind::JoinRequestApproved => 7,
        GroupEventKind::JoinRequestDenied => 8,
        GroupEventKind::InviteDeclined => 9,
        GroupEventKind::JoinRequestCancelled => 10,
        GroupEventKind::RoleChangedToAdmin => 11,
        GroupEventKind::RoleChangedToMember => 12,
        GroupEventKind::TitleChanged => 13,
        GroupEventKind::DescriptionChanged => 14,
        GroupEventKind::ExpiryChanged => 15,
        GroupEventKind::PolicyChanged => 16,
    }
}

/// Stable numeric code of a kind, persisted in the message history.
pub fn kind_code(kind: GroupEventKind) -> (r: i64)
    ensures
        r == spec_kind_code(kind),
        1 <= r <= 16,
{
    match kind {
        GroupEventKind::MemberJoined => 1,
        GroupEventKind::MemberJoinedViaLink => 2,
        GroupEventKind::MemberRequestedToJoin => 3,
        GroupEventKind::MemberInvited => 4,
        GroupEventKind::MemberLeft => 5,
        GroupEventKind::MemberRemoved => 6,
        GroupEventKind::JoinRequestApproved => 7,
        GroupEventKind::JoinRequestDenied => 8,
        GroupEventKind::InviteDeclined => 9,
        GroupEventKind::JoinRequestCancelled => 10,
        GroupEventKind::RoleChangedToAdmin => 11,
        GroupEventKind::RoleChangedToMember => 12,
        GroupEventKind::TitleChanged => 13,
        GroupEventKind::DescriptionChanged => 14,
        GroupEventKind::ExpiryChanged => 15,
        GroupEventKind::PolicyChanged => 16,
    }
}

/// Distinct kinds have distinct codes, so a code names its kind.
pub proof fn lemma_kind_code_injective(a: GroupEventKind, b: GroupEventKind)
    ensures
        spec_kind_code(a) == spec_kind_code(b) ==> a == b,
{
}

/// camelCase name of a kind.
pub open spec fn kind_name(kind: GroupEventKind) -> Seq<char> {
    match kind {
        GroupEventKind::MemberJoined => "memberJoined"@,
        GroupEventKind::MemberJoinedViaLink => "memberJoinedViaLink"@,
        GroupEventKind::MemberRequestedToJoin => "memberRequestedToJoin"@,
        GroupEventKind::MemberInvited => "memberInvited"@,
        GroupEventKind::MemberLeft => "memberLeft"@,
        GroupEventKind::MemberRemoved => "memberRemoved"@,
        GroupEventKind::JoinRequestApproved => "joinRequestApproved"@,
        GroupEventKind::JoinRequestDenied => "joinRequestDenied"@,
        GroupEventKind::InviteDeclined => "inviteDeclined"@,
        GroupEventKind::JoinRequestCancelled => "joinRequestCancelled"@,
        GroupEventKind::RoleChangedToAdmin => "roleChangedToAdmin"@,
        GroupEventKind::RoleChangedToMember => "roleChangedToMember"@,
        GroupEventKind::TitleChanged => "titleChanged"@,
        GroupEventKind::DescriptionChanged => "descriptionChanged"@,
        GroupEventKind::ExpiryChanged => "expiryChanged"@,
        GroupEventKind::PolicyChanged => "policyChanged"@,
    }
}

/// camelCase name of a kind, as the JavaScript bindings expose it.
pub fn group_event_kind_name(kind: GroupEventKind) -> (r: &'static str)
    ensures
        r@ == kind_name(kind),
{
    match kind {
        GroupEventKind::MemberJoined => "memberJoined",
        GroupEventKind::MemberJoinedViaLink => "memberJoinedViaLink",
        GroupEventKind::MemberRequestedToJoin => "memberRequestedToJoin",
        GroupEventKind::MemberInvited => "memberInvited",
        GroupEventKind::MemberLeft => "memberLeft",
        GroupEventKind::MemberRemoved => "memberRemoved",
        GroupEventKind::JoinRequestApproved => "joinRequestApproved",
        GroupEventKind::JoinRequestDenied => "joinRequestDenied",
        GroupEventKind::InviteDeclined => "inviteDeclined",
        GroupEventKind::JoinRequestCancelled => "joinRequestCancelled",
        GroupEventKind::RoleChangedToAdmin => "roleChangedToAdmin",
        GroupEventKind::RoleChangedToMember => "roleChangedToMember",
        GroupEventKind::TitleChanged => "titleChanged",
        GroupEventKind::DescriptionChanged => "descriptionChanged",
        GroupEventKind::ExpiryChanged => "expiryChanged",
        GroupEventKind::PolicyChanged => "policyChanged",
    }
}

/// One derived timeline entry.
pub struct GroupMetadataEvent {
    /// base64 group id.
    pub group_id: String,
    /// The revision the change produced.
    pub revision: i64,
    pub kind: GroupEventKind,
    /// DID of the member who made the change; empty when unknown.
    pub actor_did: String,
    /// DID of the member the change is about, when known.
    pub target_did: String,
    /// base64 encrypted member id of the target, when the action names one.
    pub target_emi: String,
    /// Best-effort time of the change.
    pub occurred_at_ms: i64,
    /// For an expiry change, the new timer in seconds (`0` = off).
    pub expiry_seconds: u32,
    /// For a title change, the new title.
    pub new_title: String,
    /// English one-liner using DIDs.
    pub summary: String,
}

/// The value of a timeline entry.
pub struct EventSpec {
    pub group_id: Seq<char>,
    pub revision: i64,
    pub kind: GroupEventKind,
    pub actor_did: Seq<char>,
    pub target_did: Seq<char>,
    pub target_emi: Seq<char>,
    pub occurred_at_ms: i64,
    pub expiry_seconds: u32,
    pub new_title: Seq<char>,
    pub summary: Seq<char>,
}

/// The value of an entry.
pub open spec fn event_view(e: GroupMetadataEvent) -> EventSpec {
    EventSpec {
        group_id: e.group_id@,
        revision: e.revision,
        kind: e.kind,
        actor_did: e.actor_did@,
        target_did: e.target_did@,
        target_emi: e.target_emi@,
        occurred_at_ms: e.occurred_at_ms,
        expiry_seconds: e.expiry_seconds,
        new_title: e.new_title@,
        summary: e.summary@,
    }
}

/// The values of a list of entries.
pub open spec fn events_view(s: Seq<GroupMetadataEvent>) -> Seq<EventSpec> {
    s.map_values(|e: GroupMetadataEvent| event_view(e))
}

// ── lookups by encrypted member id ──────────────────────────────────────────

/// `i` is the first position of `k` in `keys`.
pub open spec fn is_first<T>(keys: Seq<T>, k: T, i: int) -> bool {
    &&& 0 <= i < keys.len()
    &&& keys[i] == k
    &&& forall|j: int| 0 <= j < i ==> keys[j] != k
}

/// The first position of `k` in `keys`, if it occurs.
pub open spec fn first_index<T>(keys: Seq<T>, k: T) -> Option<int> {
    if exists|i: int| is_first(keys, k, i) {
        Some(choose|i: int| is_first(keys, k, i))
    } else {
        None
    }
}

/// The first position found is the one given.
pub proof fn lemma_first_index<T>(keys: Seq<T>, k: T, i: int)
    requires
        is_first(keys, k, i),
    ensures
        first_index(keys, k) == Some(i),
{
    let w = choose|w: int| is_first(keys, k, w);
    assert(is_first(keys, k, w));
    if w < i {
        assert(keys[w] != k);
    }
    if w > i {
        assert(keys[i] != k);
    }
}

proof fn lemma_first_index_none<T>(keys: Seq<T>, k: T)
    requires
        forall|j: int| 0 <= j < keys.len() ==> keys[j] != k,
    ensures
        first_index(keys, k) is None,
{
}

/// base64 ids of the members.
pub open spec fn member_keys(ms: Seq<Member>) -> Seq<Seq<char>> {
    ms.map_values(|m: Member| b64url(m.encrypted_member_id@))
}

/// base64 ids of the pending invites.
pub open spec fn invite_keys(ps: Seq<PendingInvite>) -> Seq<Seq<char>> {
    ps.map_values(|p: PendingInvite| b64url(p.encrypted_member_id@))
}

/// base64 ids of the pending approvals.
pub open spec fn approval_keys(ps: Seq<PendingApproval>) -> Seq<Seq<char>> {
    ps.map_values(|p: PendingApproval| b64url(p.encrypted_member_id@))
}

/// DID of the first member carrying `emi`, or empty.
pub open spec fn emi_to_did(state: GroupState, emi: Seq<char>) -> Seq<char> {
    match first_index(member_keys(state.members@), emi) {
        Some(i) => state.members@[i].did@,
        None => Seq::empty(),
    }
}

/// Stamped DID of the first pending invitee carrying `emi`, or empty.
pub open spec fn pending_invited_did(state: GroupState, emi: Seq<char>) -> Seq<char> {
    match first_index(invite_keys(state.pending_invites@), emi) {
        Some(i) => state.pending_invites@[i].invited_did@,
        None => Seq::empty(),
    }
}

/// Join time of the first member carrying `emi`.
pub open spec fn member_joined_at(state: GroupState, emi: Seq<char>) -> Option<i64> {
    match first_index(member_keys(state.members@), emi) {
        Some(i) => Some(state.members@[i].joined_at_ms),
        None => None,
    }
}

/// Invite time of the first pending invitee carrying `emi`.
pub open spec fn pending_invited_at(state: GroupState, emi: Seq<char>) -> Option<i64> {
    match first_index(invite_keys(state.pending_invites@), emi) {
        Some(i) => Some(state.pending_invites@[i].invited_at_ms),
        None => None,
    }
}

/// Request time of the first pending approval carrying `emi`.
pub open spec fn pending_requested_at(state: GroupState, emi: Seq<char>) -> Option<i64> {
    match first_index(approval_keys(state.pending_approvals@), emi) {
        Some(i) => Some(state.pending_approvals@[i].requested_at_ms),
        None => None,
    }
}

/// Position of the first member of `post` whose id is not among `pre`'s.
pub open spec fn is_first_new(pre: Seq<Member>, post: Seq<Member>, i: int) -> bool {
    &&& 0 <= i < post.len()
    &&& !has_emi(pre, post[i].encrypted_member_id@)
    &&& forall|j: int| 0 <= j < i ==> has_emi(pre, post[j].encrypted_member_id@)
}

/// Whether some member carries these id bytes.
pub open spec fn has_emi(ms: Seq<Member>, emi: Seq<u8>) -> bool {
    exists|j: int| 0 <= j < ms.len() && ms[j].encrypted_member_id@ == emi
}

/// The member `post` has and `pre` lacks (the one a join added), as `(did, base64 id)`.
pub open spec fn newly_added_member(pre: GroupState, post: GroupState) -> Option<(Seq<char>, Seq<char>)> {
    if exists|i: int| is_first_new(pre.members@, post.members@, i) {
        let i = choose|i: int| is_first_new(pre.members@, post.members@, i);
        Some((post.members@[i].did@, b64url(post.members@[i].encrypted_member_id@)))
    } else {
        None
    }
}

/// DID of the first member carrying `emi`, or empty.
pub fn lookup_member_did(state: &GroupState, emi: &str) -> (r: String)
    ensures
        r@ == emi_to_did(*state, emi@),
{
    let mut i: usize = 0;
    while i < state.members.len()
        invariant
            i <= state.members@.len(),
            forall|j: int| 0 <= j < i ==> member_keys(state.members@)[j] != emi@,
        decreases state.members@.len() - i,
    {
        let k = b64url_encode(state.members[i].encrypted_member_id.as_slice());
        if str_eq(k.as_str(), emi) {
            proof { lemma_first_index(member_keys(state.members@), emi@, i as int); }
            return state.members[i].did.clone();
        }
        i = i + 1;
    }
    proof { lemma_first_index_none(member_keys(state.members@), emi@); }
    String::new()
}

/// Join time of the first member carrying `emi`.
pub fn lookup_member_joined_at(state: &GroupState, emi: &str) -> (r: Option<i64>)
    ensures
        r == member_joined_at(*state, emi@),
{
    let mut i: usize = 0;
    while i < state.members.len()
        invariant
            i <= state.members@.len(),
            forall|j: int| 0 <= j < i ==> member_keys(state.members@)[j] != emi@,
        decreases state.members@.len() - i,
    {
        let k = b64url_encode(state.members[i].encrypted_member_id.as_slice());
        if str_eq(k.as_str(), emi) {
            proof { lemma_first_index(member_keys(state.members@), emi@, i as int); }
            return Some(state.members[i].joined_at_ms);
        }
        i = i + 1;
    }
    proof { lemma_first_index_none(member_keys(state.members@), emi@); }
    None
}

/// Stamped DID and invite time of the first pending invitee carrying `emi`.
pub fn lookup_pending_invite(state: &GroupState, emi: &str) -> (r: (String, Option<i64>))
    ensures
        r.0@ == pending_invited_did(*state, emi@),
        r.1 == pending_invited_at(*state, emi@),
{
    let mut i: usize = 0;
    while i < state.pending_invites.len()
        invariant
            i <= state.pending_invites@.len(),
            forall|j: int| 0 <= j < i ==> invite_keys(state.pending_invites@)[j] != emi@,
        decreases state.pending_invites@.len() - i,
    {
        let k = b64url_encode(state.pending_invites[i].encrypted_member_id.as_slice());
        if str_eq(k.as_str(), emi) {
            proof { lemma_first_index(invite_keys(state.pending_invites@), emi@, i as int); }
            return (state.pending_invites[i].invited_did.clone(), Some(state.pending_invites[i].invited_at_ms));
        }
        i = i + 1;
    }
    proof { lemma_first_index_none(invite_keys(state.pending_invites@), emi@); }
    (String::new(), None)
}

/// Request time of the first pending approval carrying `emi`.
pub fn lookup_pending_requested_at(state: &GroupState, emi: &str) -> (r: Option<i64>)
    ensures
        r == pending_requested_at(*state, emi@),
{
    let mut i: usize = 0;
    while i < state.pending_approvals.len()
        invariant
            i <= state.pending_approvals@.len(),
            forall|j: int| 0 <= j < i ==> approval_keys(state.pending_approvals@)[j] != emi@,
        decreases state.pending_approvals@.len() - i,
    {
        let k = b64url_encode(state.pending_approvals[i].encrypted_member_id.as_slice());
        if str_eq(k.as_str(), emi) {
            proof { lemma_first_index(approval_keys(state.pending_approvals@), emi@, i as int); }
            return Some(state.pending_approvals[i].requested_at_ms);
        }
        i = i + 1;
    }
    proof { lemma_first_index_none(approval_keys(state.pending_approvals@), emi@); }
    None
}

/// Whether some member carries these id bytes.
fn contains_emi(ms: &Vec<Member>, emi: &Vec<u8>) -> (r: bool)
    ensures
        r == has_emi(ms@, emi@),
{
    let mut i: usize = 0;
    while i < ms.len()
        invariant
            i <= ms@.len(),
            forall|j: int| 0 <= j < i ==> ms@[j].encrypted_member_id@ != emi@,
        decreases ms@.len() - i,
    {
        if crate::bytes::bytes_eq(ms[i].encrypted_member_id.as_slice(), emi.as_slice()) {
            return true;
        }
        i = i + 1;
    }
    false
}

/// The member `post` has and `pre` lacks, as `(did, base64 id)`.
pub fn find_newly_added_member(pre: &GroupState, post: &GroupState) -> (r: Option<(String, String)>)
    ensures
        match r {
            Some(p) => newly_added_member(*pre, *post) == Some((p.0@, p.1@)),
            None => newly_added_member(*pre, *post) is None,
        },
{
    let mut i: usize = 0;
    while i < post.members.len()
        invariant
            i <= post.members@.len(),
            forall|j: int| 0 <= j < i ==> has_emi(pre.members@, post.members@[j].encrypted_member_id@),
        decreases post.members@.len() - i,
    {
        if !contains_emi(&pre.members, &post.members[i].encrypted_member_id) {
            proof {
                let w = choose|w: int| is_first_new(pre.members@, post.members@, w);
                assert(is_first_new(pre.members@, post.members@, i as int));
                if w < i {
                    assert(has_emi(pre.members@, post.members@[w].encrypted_member_id@));
                }
                if w > i {
                    assert(has_emi(pre.members@, post.members@[i as int].encrypted_member_id@));
                }
            }
            let d = post.members[i].did.clone();
            let e = b64url_encode(post.members[i].encrypted_member_id.as_slice());
            return Some((d, e));
        }
        i = i + 1;
    }
    None
}

// ── labels ──────────────────────────────────────────────────────────────────

/// The actor's DID, or "Someone" when it is unknown.
pub open spec fn label(actor: Seq<char>) -> Seq<char> {
    if actor.len() == 0 {
        "Someone"@
    } else {
        actor
    }
}

/// `did`, or `fallback` when it is unknown.
pub open spec fn who(did: Seq<char>, fallback: Seq<char>) -> Seq<char> {
    if did.len() == 0 {
        fallback
    } else {
        did
    }
}

/// The actor's DID, or "Someone" when it is unknown.
pub fn actor_label<'a>(actor_did: &'a str) -> (r: &'a str)
    ensures
        r@ == label(actor_did@),
{
    if actor_did.is_empty() {
        "Someone"
    } else {
        actor_did
    }
}

/// `did`, or `fallback` when it is unknown.
pub fn who_or<'a>(did: &'a str, fallback: &'a str) -> (r: &'a str)
    ensures
        r@ == who(did@, fallback@),
{
    if did.is_empty() {
        fallback
    } else {
        did
    }
}

/// Human label of a disappearing-message timer: the canonical picker options
/// by name, anything else as a count of seconds.
pub open spec fn expiry_label_text(seconds: u32) -> Seq<char> {
    if seconds == 0 {
        "off"@
    } else if seconds == 30 {
        "30 seconds"@
    } else if seconds == 300 {
        "5 minutes"@
    } else if seconds == 3600 {
        "1 hour"@
    } else if seconds == 28800 {
        "8 hours"@
    } else if seconds == 86400 {
        "1 day"@
    } else if seconds == 604800 {
        "1 week"@
    } else if seconds == 2419200 {
        "4 weeks"@
    } else {
        decimal(seconds as nat) + " seconds"@
    }
}

/// Human label of a disappearing-message timer.
pub fn expiry_label(seconds: u32) -> (r: String)
    ensures
        r@ == expiry_label_text(seconds),
{
    if seconds == 0 {
        String::from_str("off")
    } else if seconds == 30 {
        String::from_str("30 seconds")
    } else if seconds == 300 {
        String::from_str("5 minutes")
    } else if seconds == 3600 {
        String::from_str("1 hour")
    } else if seconds == 28800 {
        String::from_str("8 hours")
    } else if seconds == 86400 {
        String::from_str("1 day")
    } else if seconds == 604800 {
        String::from_str("1 week")
    } else if seconds == 2419200 {
        String::from_str("4 weeks")
    } else {
        let d = u64_to_decimal(seconds as u64);
        d.concat(" seconds")
    }
}

// ── derivation ──────────────────────────────────────────────────────────────

/// Inputs of one change's derivation. `pre` is the state before the change
/// (it still holds removed members), `post` the state after (it holds added
/// members); `actor_emi_b64` is the base64 encrypted member id of `actor_did`
/// under the group key (ignored when the actor is unknown).
pub struct ChangeContext<'a> {
    pub group_id_b64: &'a str,
    pub new_revision: i64,
    pub actor_did: &'a str,
    pub actor_emi_b64: &'a str,
    pub pre: &'a GroupState,
    pub post: &'a GroupState,
    pub now_ms: i64,
}

/// The values a derivation works from.
pub struct Ctx {
    pub group_id: Seq<char>,
    pub rev: i64,
    pub actor: Seq<char>,
    pub actor_emi: Seq<char>,
    pub pre: GroupState,
    pub post: GroupState,
    pub now: i64,
}

/// The values of a context; the actor's id counts as empty when the actor is unknown.
pub open spec fn ctx_of(c: ChangeContext) -> Ctx {
    Ctx {
        group_id: c.group_id_b64@,
        rev: c.new_revision,
        actor: c.actor_did@,
        actor_emi: if c.actor_did@.len() == 0 {
            Seq::empty()
        } else {
            c.actor_emi_b64@
        },
        pre: *c.pre,
        post: *c.post,
        now: c.now_ms,
    }
}

/// `t`, or `now` when it is unknown.
pub open spec fn or_now(t: Option<i64>, now: i64) -> i64 {
    match t {
        Some(x) => x,
        None => now,
    }
}

/// An entry attributed to the change's actor.
pub open spec fn mk(c: Ctx, kind: GroupEventKind, target_did: Seq<char>, target_emi: Seq<char>, ts: i64, summary: Seq<char>) -> EventSpec {
    EventSpec {
        group_id: c.group_id,
        revision: c.rev,
        kind,
        actor_did: c.actor,
        target_did,
        target_emi,
        occurred_at_ms: ts,
        expiry_seconds: 0,
        new_title: Seq::empty(),
        summary,
    }
}

/// An entry for a self-action, where actor and target are the same member.
pub open spec fn mk_self(c: Ctx, kind: GroupEventKind, did: Seq<char>, emi: Seq<char>, ts: i64, summary: Seq<char>) -> EventSpec {
    EventSpec {
        group_id: c.group_id,
        revision: c.rev,
        kind,
        actor_did: did,
        target_did: did,
        target_emi: emi,
        occurred_at_ms: ts,
        expiry_seconds: 0,
        new_title: Seq::empty(),
        summary,
    }
}

/// The DID behind `emi`, from the post-state, else the pre-state.
pub open spec fn resolve(c: Ctx, emi: Seq<char>) -> Seq<char> {
    let d = emi_to_did(c.post, emi);
    if d.len() == 0 {
        emi_to_did(c.pre, emi)
    } else {
        d
    }
}

/// The member a join added, read from the membership diff; unknown when the
/// pre-state has no members (a decode gap would make everyone look new).
pub open spec fn joiner(c: Ctx) -> Option<(Seq<char>, Seq<char>)> {
    if c.pre.members@.len() == 0 {
        None
    } else {
        newly_added_member(c.pre, c.post)
    }
}

/// The entry for one invitation.
pub open spec fn invite_event(c: Ctx, emi: Seq<char>) -> EventSpec {
    let d = pending_invited_did(c.post, emi);
    let tdid = if d.len() == 0 {
        resolve(c, emi)
    } else {
        d
    };
    mk(
        c,
        GroupEventKind::MemberInvited,
        tdid,
        emi,
        or_now(pending_invited_at(c.post, emi), c.now),
        label(c.actor) + " invited "@ + who(tdid, "a new member"@),
    )
}

/// The entry for an approved join request.
pub open spec fn approve_event(c: Ctx, emi: Seq<char>) -> EventSpec {
    let tdid = emi_to_did(c.post, emi);
    mk(
        c,
        GroupEventKind::JoinRequestApproved,
        tdid,
        emi,
        or_now(member_joined_at(c.post, emi), c.now),
        label(c.actor) + " approved "@ + who(tdid, "a member"@) + "'s join request"@,
    )
}

/// The entry for a denied join request.
pub open spec fn deny_event(c: Ctx, emi: Seq<char>) -> EventSpec {
    mk(c, GroupEventKind::JoinRequestDenied, Seq::empty(), emi, c.now, label(c.actor) + " declined a join request"@)
}

/// The entry for a removal: the actor removing themselves left.
pub open spec fn remove_event(c: Ctx, emi: Seq<char>) -> EventSpec {
    if c.actor_emi.len() > 0 && emi == c.actor_emi {
        mk(c, GroupEventKind::MemberLeft, c.actor, emi, c.now, label(c.actor) + " left the group"@)
    } else {
        let tdid = emi_to_did(c.pre, emi);
        mk(c, GroupEventKind::MemberRemoved, tdid, emi, c.now, label(c.actor) + " removed "@ + who(tdid, "a member"@))
    }
}

/// The entry for a role change.
pub open spec fn role_event(c: Ctx, emi: Seq<char>, role: i16) -> EventSpec {
    let tdid = resolve(c, emi);
    if role == ROLE_ADMIN {
        mk(c, GroupEventKind::RoleChangedToAdmin, tdid, emi, c.now, label(c.actor) + " made "@ + who(tdid, "a member"@) + " an admin"@)
    } else {
        mk(c, GroupEventKind::RoleChangedToMember, tdid, emi, c.now, label(c.actor) + " removed admin from "@ + who(tdid, "a member"@))
    }
}

/// The entry (if any) for an accepted invitation.
pub open spec fn promote_events(c: Ctx, a: GroupActionsWire) -> Seq<EventSpec> {
    if a.promote_pending_members is Some {
        let (jd, je) = match joiner(c) {
            Some(p) => p,
            None => (c.actor, c.actor_emi),
        };
        seq![mk_self(c, GroupEventKind::MemberJoined, jd, je, or_now(member_joined_at(c.post, je), c.now), label(jd) + " joined the group"@)]
    } else {
        Seq::empty()
    }
}

/// The entry (if any) for a link join: joined, or requested to join.
pub open spec fn link_events(c: Ctx, a: GroupActionsWire) -> Seq<EventSpec> {
    if a.join_via_link is Some {
        match joiner(c) {
            Some((jd, je)) => seq![mk_self(c, GroupEventKind::MemberJoinedViaLink, jd, je, or_now(member_joined_at(c.post, je), c.now), label(jd) + " joined via invite link"@)],
            None => seq![mk(c, GroupEventKind::MemberRequestedToJoin, c.actor, c.actor_emi, or_now(pending_requested_at(c.post, c.actor_emi), c.now), label(c.actor) + " requested to join"@)],
        }
    } else {
        Seq::empty()
    }
}

/// The entries for the actor's own single-id actions: declining, cancelling, leaving.
pub open spec fn self_events(c: Ctx, a: GroupActionsWire) -> Seq<EventSpec> {
    (match a.decline_invite {
        Some(emi) => seq![mk(c, GroupEventKind::InviteDeclined, c.actor, emi@, c.now, label(c.actor) + " declined the invitation"@)],
        None => Seq::empty(),
    }) + (match a.cancel_join_request {
        Some(emi) => seq![mk(c, GroupEventKind::JoinRequestCancelled, c.actor, emi@, c.now, label(c.actor) + " cancelled their join request"@)],
        None => Seq::empty(),
    }) + (match a.leave {
        Some(emi) => seq![mk(c, GroupEventKind::MemberLeft, c.actor, emi@, c.now, label(c.actor) + " left the group"@)],
        None => Seq::empty(),
    })
}

/// The entries for setting changes: title, description, timer, policy.
pub open spec fn settings_events(c: Ctx, a: GroupActionsWire) -> Seq<EventSpec> {
    (if a.modify_title is Some {
        let summary = if c.post.title@.len() == 0 {
            label(c.actor) + " changed the group name"@
        } else {
            label(c.actor) + " changed the group name to '"@ + c.post.title@ + "'"@
        };
        seq![EventSpec { new_title: c.post.title@, ..mk(c, GroupEventKind::TitleChanged, Seq::empty(), Seq::empty(), c.now, summary) }]
    } else {
        Seq::empty()
    }) + (if a.modify_description is Some {
        seq![mk(c, GroupEventKind::DescriptionChanged, Seq::empty(), Seq::empty(), c.now, label(c.actor) + " changed the group description"@)]
    } else {
        Seq::empty()
    }) + (if a.modify_expiry is Some {
        let s = c.post.expiry_seconds;
        let summary = if s == 0 {
            label(c.actor) + " turned off disappearing messages"@
        } else {
            label(c.actor) + " set disappearing messages to "@ + expiry_label_text(s)
        };
        seq![EventSpec { expiry_seconds: s, ..mk(c, GroupEventKind::ExpiryChanged, Seq::empty(), Seq::empty(), c.now, summary) }]
    } else {
        Seq::empty()
    }) + (if a.modify_policy is Some {
        seq![mk(c, GroupEventKind::PolicyChanged, Seq::empty(), Seq::empty(), c.now, label(c.actor) + " changed the group settings"@)]
    } else {
        Seq::empty()
    })
}

/// The change carries role assignments and nothing else.
pub open spec fn only_role_changes(a: GroupActionsWire) -> bool {
    &&& a.invite_members@.len() == 0
    &&& a.promote_pending_members is None
    &&& a.decline_invite is None
    &&& a.remove_members@.len() == 0
    &&& a.join_via_link is None
    &&& a.cancel_join_request is None
    &&& a.leave is None
    &&& a.approve_join_request@.len() == 0
    &&& a.deny_join_request@.len() == 0
    &&& a.modify_policy is None
    &&& a.modify_title is None
    &&& a.modify_description is None
    &&& a.modify_expiry is None
}

/// The change carries removals and nothing else.
pub open spec fn only_removals(a: GroupActionsWire) -> bool {
    &&& a.invite_members@.len() == 0
    &&& a.promote_pending_members is None
    &&& a.decline_invite is None
    &&& a.modify_member_role@.len() == 0
    &&& a.join_via_link is None
    &&& a.cancel_join_request is None
    &&& a.leave is None
    &&& a.approve_join_request@.len() == 0
    &&& a.deny_join_request@.len() == 0
    &&& a.modify_policy is None
    &&& a.modify_title is None
    &&& a.modify_description is None
    &&& a.modify_expiry is None
}

/// Every entry one change yields, in order: invitations, an accepted
/// invitation, a link join, the actor's own decline/cancel/leave, approvals,
/// denials, removals, role changes, then title, description, timer and policy.
pub open spec fn change_events(c: Ctx, a: GroupActionsWire) -> Seq<EventSpec> {
    a.invite_members@.map_values(|inv: crate::net_groups::InviteMemberWire| invite_event(c, inv.encrypted_member_id@))
        + promote_events(c, a) + link_events(c, a) + self_events(c, a)
        + a.approve_join_request@.map_values(|e: String| approve_event(c, e@))
        + a.deny_join_request@.map_values(|e: String| deny_event(c, e@))
        + a.remove_members@.map_values(|e: String| remove_event(c, e@))
        + a.modify_member_role@.map_values(|ra: crate::net_groups::RoleAssignmentWire| role_event(c, ra.encrypted_member_id@, ra.role))
        + settings_events(c, a)
}


// ── executable derivation ───────────────────────────────────────────────────

/// Builds one entry.
fn make_event(
    c: &ChangeContext,
    kind: GroupEventKind,
    actor_did: &str,
    target_did: &str,
    target_emi: &str,
    occurred_at_ms: i64,
    summary: String,
) -> (r: GroupMetadataEvent)
    ensures
        event_view(r) == (EventSpec {
            group_id: c.group_id_b64@,
            revision: c.new_revision,
            kind,
            actor_did: actor_did@,
            target_did: target_did@,
            target_emi: target_emi@,
            occurred_at_ms,
            expiry_seconds: 0,
            new_title: Seq::empty(),
            summary: summary@,
        }),
{
    GroupMetadataEvent {
        group_id: String::from_str(c.group_id_b64),
        revision: c.new_revision,
        kind,
        actor_did: String::from_str(actor_did),
        target_did: String::from_str(target_did),
        target_emi: String::from_str(target_emi),
        occurred_at_ms,
        expiry_seconds: 0,
        new_title: String::new(),
        summary,
    }
}

/// The DID behind `emi`, from the post-state, else the pre-state.
fn resolve_did(c: &ChangeContext, emi: &str) -> (r: String)
    ensures
        r@ == resolve(ctx_of(*c), emi@),
{
    let d = lookup_member_did(c.post, emi);
    if d.as_str().is_empty() {
        lookup_member_did(c.pre, emi)
    } else {
        d
    }
}

/// `t`, or `now` when unknown.
fn or_now_exec(t: Option<i64>, now: i64) -> (r: i64)
    ensures
        r == or_now(t, now),
{
    match t {
        Some(x) => x,
        None => now,
    }
}

fn push_invites(c: &ChangeContext, invs: &Vec<crate::net_groups::InviteMemberWire>, out: &mut Vec<GroupMetadataEvent>)
    ensures
        events_view(final(out)@) == events_view(old(out)@) + invs@.map_values(
            |inv: crate::net_groups::InviteMemberWire| invite_event(ctx_of(*c), inv.encrypted_member_id@),
        ),
{
    let ghost seg = invs@.map_values(
        |inv: crate::net_groups::InviteMemberWire| invite_event(ctx_of(*c), inv.encrypted_member_id@),
    );
    let ghost start = events_view(out@);
    let mut i: usize = 0;
    while i < invs.len()
        invariant
            i <= invs@.len(),
            seg == invs@.map_values(
                |inv: crate::net_groups::InviteMemberWire| invite_event(ctx_of(*c), inv.encrypted_member_id@),
            ),
            events_view(out@) == start + seg.subrange(0, i as int),
        decreases invs@.len() - i,
    {
        let emi = invs[i].encrypted_member_id.as_str();
        let (d, at) = lookup_pending_invite(c.post, emi);
        let tdid = if d.as_str().is_empty() {
            resolve_did(c, emi)
        } else {
            d
        };
        let ts = or_now_exec(at, c.now_ms);
        let summary = join3(actor_label(c.actor_did), " invited ", who_or(tdid.as_str(), "a new member"));
        let ev = make_event(c, GroupEventKind::MemberInvited, c.actor_did, tdid.as_str(), emi, ts, summary);
        let ghost before = out@;
        out.push(ev);
        assert(events_view(out@) =~= events_view(before).push(event_view(ev)));
        assert(seg.subrange(0, i + 1) =~= seg.subrange(0, i as int).push(seg[i as int]));
        i = i + 1;
    }
    assert(seg.subrange(0, invs@.len() as int) =~= seg);
}

fn push_approvals(c: &ChangeContext, emis: &Vec<String>, out: &mut Vec<GroupMetadataEvent>)
    ensures
        events_view(final(out)@) == events_view(old(out)@) + emis@.map_values(|e: String| approve_event(ctx_of(*c), e@)),
{
    let ghost seg = emis@.map_values(|e: String| approve_event(ctx_of(*c), e@));
    let ghost start = events_view(out@);
    let mut i: usize = 0;
    while i < emis.len()
        invariant
            i <= emis@.len(),
            seg == emis@.map_values(|e: String| approve_event(ctx_of(*c), e@)),
            events_view(out@) == start + seg.subrange(0, i as int),
        decreases emis@.len() - i,
    {
        let emi = emis[i].as_str();
        let tdid = lookup_member_did(c.post, emi);
        let ts = or_now_exec(lookup_member_joined_at(c.post, emi), c.now_ms);
        let summary = join4(actor_label(c.actor_did), " approved ", who_or(tdid.as_str(), "a member"), "'s join request");
        let ev = make_event(c, GroupEventKind::JoinRequestApproved, c.actor_did, tdid.as_str(), emi, ts, summary);
        let ghost before = out@;
        out.push(ev);
        assert(events_view(out@) =~= events_view(before).push(event_view(ev)));
        assert(seg.subrange(0, i + 1) =~= seg.subrange(0, i as int).push(seg[i as int]));
        i = i + 1;
    }
    assert(seg.subrange(0, emis@.len() as int) =~= seg);
}

fn push_denials(c: &ChangeContext, emis: &Vec<String>, out: &mut Vec<GroupMetadataEvent>)
    ensures
        events_view(final(out)@) == events_view(old(out)@) + emis@.map_values(|e: String| deny_event(ctx_of(*c), e@)),
{
    let ghost seg = emis@.map_values(|e: String| deny_event(ctx_of(*c), e@));
    let ghost start = events_view(out@);
    let mut i: usize = 0;
    while i < emis.len()
        invariant
            i <= emis@.len(),
            seg == emis@.map_values(|e: String| deny_event(ctx_of(*c), e@)),
            events_view(out@) == start + seg.subrange(0, i as int),
        decreases emis@.len() - i,
    {
        let emi = emis[i].as_str();
        let summary = join2(actor_label(c.actor_did), " declined a join request");
        let none = String::new();
        let ev = make_event(c, GroupEventKind::JoinRequestDenied, c.actor_did, none.as_str(), emi, c.now_ms, summary);
        let ghost before = out@;
        out.push(ev);
        assert(events_view(out@) =~= events_view(before).push(event_view(ev)));
        assert(seg.subrange(0, i + 1) =~= seg.subrange(0, i as int).push(seg[i as int]));
        i = i + 1;
    }
    assert(seg.subrange(0, emis@.len() as int) =~= seg);
}

fn push_removals(c: &ChangeContext, actor_emi: &str, emis: &Vec<String>, out: &mut Vec<GroupMetadataEvent>)
    requires
        actor_emi@ == ctx_of(*c).actor_emi,
    ensures
        events_view(final(out)@) == events_view(old(out)@) + emis@.map_values(|e: String| remove_event(ctx_of(*c), e@)),
{
    let ghost seg = emis@.map_values(|e: String| remove_event(ctx_of(*c), e@));
    let ghost start = events_view(out@);
    let mut i: usize = 0;
    while i < emis.len()
        invariant
            i <= emis@.len(),
            actor_emi@ == ctx_of(*c).actor_emi,
            seg == emis@.map_values(|e: String| remove_event(ctx_of(*c), e@)),
            events_view(out@) == start + seg.subrange(0, i as int),
        decreases emis@.len() - i,
    {
        let emi = emis[i].as_str();
        let ev = if !actor_emi.is_empty() && str_eq(emi, actor_emi) {
            let summary = join2(actor_label(c.actor_did), " left the group");
            make_event(c, GroupEventKind::MemberLeft, c.actor_did, c.actor_did, emi, c.now_ms, summary)
        } else {
            let tdid = lookup_member_did(c.pre, emi);
            let summary = join3(actor_label(c.actor_did), " removed ", who_or(tdid.as_str(), "a member"));
            make_event(c, GroupEventKind::MemberRemoved, c.actor_did, tdid.as_str(), emi, c.now_ms, summary)
        };
        let ghost before = out@;
        out.push(ev);
        assert(events_view(out@) =~= events_view(before).push(event_view(ev)));
        assert(seg.subrange(0, i + 1) =~= seg.subrange(0, i as int).push(seg[i as int]));
        i = i + 1;
    }
    assert(seg.subrange(0, emis@.len() as int) =~= seg);
}

fn push_roles(c: &ChangeContext, ras: &Vec<crate::net_groups::RoleAssignmentWire>, out: &mut Vec<GroupMetadataEvent>)
    ensures
        events_view(final(out)@) == events_view(old(out)@) + ras@.map_values(
            |ra: crate::net_groups::RoleAssignmentWire| role_event(ctx_of(*c), ra.encrypted_member_id@, ra.role),
        ),
{
    let ghost seg = ras@.map_values(
        |ra: crate::net_groups::RoleAssignmentWire| role_event(ctx_of(*c), ra.encrypted_member_id@, ra.role),
    );
    let ghost start = events_view(out@);
    let mut i: usize = 0;
    while i < ras.len()
        invariant
            i <= ras@.len(),
            seg == ras@.map_values(
                |ra: crate::net_groups::RoleAssignmentWire| role_event(ctx_of(*c), ra.encrypted_member_id@, ra.role),
            ),
            events_view(out@) == start + seg.subrange(0, i as int),
        decreases ras@.len() - i,
    {
        let emi = ras[i].encrypted_member_id.as_str();
        let tdid = resolve_did(c, emi);
        let ev = if ras[i].role == ROLE_ADMIN {
            let summary = join4(actor_label(c.actor_did), " made ", who_or(tdid.as_str(), "a member"), " an admin");
            make_event(c, GroupEventKind::RoleChangedToAdmin, c.actor_did, tdid.as_str(), emi, c.now_ms, summary)
        } else {
            let summary = join3(actor_label(c.actor_did), " removed admin from ", who_or(tdid.as_str(), "a member"));
            make_event(c, GroupEventKind::RoleChangedToMember, c.actor_did, tdid.as_str(), emi, c.now_ms, summary)
        };
        let ghost before = out@;
        out.push(ev);
        assert(events_view(out@) =~= events_view(before).push(event_view(ev)));
        assert(seg.subrange(0, i + 1) =~= seg.subrange(0, i as int).push(seg[i as int]));
        i = i + 1;
    }
    assert(seg.subrange(0, ras@.len() as int) =~= seg);
}

/// Appends one entry.
fn push_one(out: &mut Vec<GroupMetadataEvent>, ev: GroupMetadataEvent)
    ensures
        events_view(final(out)@) == events_view(old(out)@) + seq![event_view(ev)],
{
    let ghost before = out@;
    out.push(ev);
    assert(events_view(out@) =~= events_view(before) + seq![event_view(ev)]);
}

fn push_promote_and_link(c: &ChangeContext, actor_emi: &str, a: &GroupActionsWire, out: &mut Vec<GroupMetadataEvent>)
    requires
        actor_emi@ == ctx_of(*c).actor_emi,
    ensures
        events_view(final(out)@) == events_view(old(out)@) + promote_events(ctx_of(*c), *a) + link_events(ctx_of(*c), *a),
{
    let ghost cx = ctx_of(*c);
    let ghost start = events_view(out@);
    let joiner_found: Option<(String, String)> = if c.pre.members.len() == 0 {
        None
    } else {
        find_newly_added_member(c.pre, c.post)
    };
    assert(match joiner_found {
        Some(p) => joiner(cx) == Some((p.0@, p.1@)),
        None => joiner(cx) is None,
    });
    if a.promote_pending_members.is_some() {
        let (jd, je) = match &joiner_found {
            Some(p) => (p.0.clone(), p.1.clone()),
            None => (String::from_str(c.actor_did), String::from_str(actor_emi)),
        };
        let ts = or_now_exec(lookup_member_joined_at(c.post, je.as_str()), c.now_ms);
        let summary = join2(actor_label(jd.as_str()), " joined the group");
        let ev = make_event(c, GroupEventKind::MemberJoined, jd.as_str(), jd.as_str(), je.as_str(), ts, summary);
        push_one(out, ev);
    }
    assert(events_view(out@) == start + promote_events(cx, *a));
    if a.join_via_link.is_some() {
        match &joiner_found {
            Some(p) => {
                let ts = or_now_exec(lookup_member_joined_at(c.post, p.1.as_str()), c.now_ms);
                let summary = join2(actor_label(p.0.as_str()), " joined via invite link");
                let ev = make_event(c, GroupEventKind::MemberJoinedViaLink, p.0.as_str(), p.0.as_str(), p.1.as_str(), ts, summary);
                push_one(out, ev);
            },
            None => {
                let ts = or_now_exec(lookup_pending_requested_at(c.post, actor_emi), c.now_ms);
                let summary = join2(actor_label(c.actor_did), " requested to join");
                let ev = make_event(c, GroupEventKind::MemberRequestedToJoin, c.actor_did, c.actor_did, actor_emi, ts, summary);
                push_one(out, ev);
            },
        }
    }
    assert(events_view(out@) =~= start + promote_events(cx, *a) + link_events(cx, *a));
}

fn push_self_actions(c: &ChangeContext, a: &GroupActionsWire, out: &mut Vec<GroupMetadataEvent>)
    ensures
        events_view(final(out)@) == events_view(old(out)@) + self_events(ctx_of(*c), *a),
{
    let ghost cx = ctx_of(*c);
    let ghost start = events_view(out@);
    if let Some(emi) = &a.decline_invite {
        let summary = join2(actor_label(c.actor_did), " declined the invitation");
        let ev = make_event(c, GroupEventKind::InviteDeclined, c.actor_did, c.actor_did, emi.as_str(), c.now_ms, summary);
        push_one(out, ev);
    }
    let ghost mid1 = events_view(out@);
    if let Some(emi) = &a.cancel_join_request {
        let summary = join2(actor_label(c.actor_did), " cancelled their join request");
        let ev = make_event(c, GroupEventKind::JoinRequestCancelled, c.actor_did, c.actor_did, emi.as_str(), c.now_ms, summary);
        push_one(out, ev);
    }
    let ghost mid2 = events_view(out@);
    if let Some(emi) = &a.leave {
        let summary = join2(actor_label(c.actor_did), " left the group");
        let ev = make_event(c, GroupEventKind::MemberLeft, c.actor_did, c.actor_did, emi.as_str(), c.now_ms, summary);
        push_one(out, ev);
    }
    assert(events_view(out@) =~= start + self_events(cx, *a));
}

fn push_settings(c: &ChangeContext, a: &GroupActionsWire, out: &mut Vec<GroupMetadataEvent>)
    ensures
        events_view(final(out)@) == events_view(old(out)@) + settings_events(ctx_of(*c), *a),
{
    let ghost cx = ctx_of(*c);
    let ghost start = events_view(out@);
    if a.modify_title.is_some() {
        let title = c.post.title.as_str();
        let summary = if title.is_empty() {
            join2(actor_label(c.actor_did), " changed the group name")
        } else {
            join4(actor_label(c.actor_did), " changed the group name to '", title, "'")
        };
        let none = String::new();
        let mut ev = make_event(c, GroupEventKind::TitleChanged, c.actor_did, none.as_str(), none.as_str(), c.now_ms, summary);
        ev.new_title = c.post.title.clone();
        push_one(out, ev);
    }
    let ghost m1 = events_view(out@);
    if a.modify_description.is_some() {
        let summary = join2(actor_label(c.actor_did), " changed the group description");
        let none = String::new();
        let ev = make_event(c, GroupEventKind::DescriptionChanged, c.actor_did, none.as_str(), none.as_str(), c.now_ms, summary);
        push_one(out, ev);
    }
    let ghost m2 = events_view(out@);
    if a.modify_expiry.is_some() {
        let seconds = c.post.expiry_seconds;
        let summary = if seconds == 0 {
            join2(actor_label(c.actor_did), " turned off disappearing messages")
        } else {
            let l = expiry_label(seconds);
            join3(actor_label(c.actor_did), " set disappearing messages to ", l.as_str())
        };
        let none = String::new();
        let mut ev = make_event(c, GroupEventKind::ExpiryChanged, c.actor_did, none.as_str(), none.as_str(), c.now_ms, summary);
        ev.expiry_seconds = seconds;
        push_one(out, ev);
    }
    let ghost m3 = events_view(out@);
    if a.modify_policy.is_some() {
        let summary = join2(actor_label(c.actor_did), " changed the group settings");
        let none = String::new();
        let ev = make_event(c, GroupEventKind::PolicyChanged, c.actor_did, none.as_str(), none.as_str(), c.now_ms, summary);
        push_one(out, ev);
    }
    assert(events_view(out@) =~= start + settings_events(cx, *a));
}

/// Reconstructs the timeline entries of a single change.
pub fn derive_change_events(ctx: &ChangeContext, actions: &GroupActionsWire) -> (r: Vec<GroupMetadataEvent>)
    ensures
        events_view(r@) == change_events(ctx_of(*ctx), *actions),
{
    let actor_emi = if ctx.actor_did.is_empty() {
        String::new()
    } else {
        String::from_str(ctx.actor_emi_b64)
    };
    let mut out: Vec<GroupMetadataEvent> = Vec::new();
    assert(events_view(out@) =~= Seq::<EventSpec>::empty());
    push_invites(ctx, &actions.invite_members, &mut out);
    push_promote_and_link(ctx, actor_emi.as_str(), actions, &mut out);
    push_self_actions(ctx, actions, &mut out);
    push_approvals(ctx, &actions.approve_join_request, &mut out);
    push_denials(ctx, &actions.deny_join_request, &mut out);
    push_removals(ctx, actor_emi.as_str(), &actions.remove_members, &mut out);
    push_roles(ctx, &actions.modify_member_role, &mut out);
    push_settings(ctx, actions, &mut out);
    assert(events_view(out@) =~= change_events(ctx_of(*ctx), *actions));
    out
}


// ── laws ────────────────────────────────────────────────────────────────────

/// A change of roles yields one entry per assignment, in order, attributed to
/// the actor and naming the assigned id. Assigning the admin role (1) is a
/// promotion, "<actor> made <target> an admin"; any other role is a
/// demotion, "<actor> removed admin from <target>".
pub proof fn law_role_change_entries(c: Ctx, a: GroupActionsWire)
    requires
        only_role_changes(a),
    ensures
        change_events(c, a).len() == a.modify_member_role@.len(),
        forall|i: int|
            0 <= i < a.modify_member_role@.len() ==> {
                &&& (#[trigger] change_events(c, a)[i]).target_emi == a.modify_member_role@[i].encrypted_member_id@
                &&& change_events(c, a)[i].actor_did == c.actor
                &&& (a.modify_member_role@[i].role == 1i16 ==> change_events(c, a)[i].kind
                    == GroupEventKind::RoleChangedToAdmin && change_events(c, a)[i].summary == label(c.actor)
                    + " made "@ + who(change_events(c, a)[i].target_did, "a member"@) + " an admin"@)
                &&& (a.modify_member_role@[i].role != 1i16 ==> change_events(c, a)[i].kind
                    == GroupEventKind::RoleChangedToMember && change_events(c, a)[i].summary == label(c.actor)
                    + " removed admin from "@ + who(change_events(c, a)[i].target_did, "a member"@))
            },
{
    let roles = a.modify_member_role@.map_values(
        |ra: crate::net_groups::RoleAssignmentWire| role_event(c, ra.encrypted_member_id@, ra.role),
    );
    assert(self_events(c, a) =~= Seq::<EventSpec>::empty());
    assert(settings_events(c, a) =~= Seq::<EventSpec>::empty());
    assert(change_events(c, a) =~= roles);
}

/// A change of removals yields one entry per removed id, in order; an id
/// other than the actor's own is a removal naming the DID that the state
/// before the change holds for it, "<actor> removed <target>".
pub proof fn law_removal_entries(c: Ctx, a: GroupActionsWire)
    requires
        only_removals(a),
    ensures
        change_events(c, a).len() == a.remove_members@.len(),
        forall|i: int|
            0 <= i < a.remove_members@.len() && !(c.actor_emi.len() > 0 && a.remove_members@[i]@ == c.actor_emi)
                ==> {
                &&& (#[trigger] change_events(c, a)[i]).kind == GroupEventKind::MemberRemoved
                &&& change_events(c, a)[i].target_emi == a.remove_members@[i]@
                &&& change_events(c, a)[i].target_did == emi_to_did(c.pre, a.remove_members@[i]@)
                &&& change_events(c, a)[i].summary == label(c.actor) + " removed "@ + who(
                    emi_to_did(c.pre, a.remove_members@[i]@),
                    "a member"@,
                )
            },
{
    let rems = a.remove_members@.map_values(|e: String| remove_event(c, e@));
    assert(self_events(c, a) =~= Seq::<EventSpec>::empty());
    assert(settings_events(c, a) =~= Seq::<EventSpec>::empty());
    assert(change_events(c, a) =~= rems);
}

// ── persistence ─────────────────────────────────────────────────────────────

/// The conversation a group's timeline lives in: `group-` and the group id.
pub fn group_conversation_id(group_id: &str) -> (r: String)
    ensures
        r@ == "group-"@ + group_id@,
{
    join2("group-", group_id)
}

/// The deterministic id of a persisted timeline entry,
/// `grpevt-{group}-{revision}-{kind code}-{target id}`, so that deriving the
/// same change twice stores one row.
pub open spec fn event_row_id(ev: GroupMetadataEvent) -> Seq<char> {
    "grpevt-"@ + ev.group_id@ + "-"@ + signed_decimal(ev.revision as int) + "-"@ + signed_decimal(
        spec_kind_code(ev.kind) as int,
    ) + "-"@ + ev.target_emi@
}

/// The id a timeline entry is stored under.
pub fn group_event_id(ev: &GroupMetadataEvent) -> (r: String)
    ensures
        r@ == event_row_id(*ev),
{
    let rev = i64_to_decimal(ev.revision);
    let code = i64_to_decimal(kind_code(ev.kind));
    let a = join4("grpevt-", ev.group_id.as_str(), "-", rev.as_str());
    let b = join4("-", code.as_str(), "-", ev.target_emi.as_str());
    let r = join2(a.as_str(), b.as_str());
    proof {
        assert(r@ =~= event_row_id(*ev));
    }
    r
}

/// A timeline entry as a message-history row: a read system row from the
/// actor, sent and read at the change's time, never expiring.
pub struct GroupEventRow {
    pub id: String,
    pub conversation_id: String,
    pub sender_did: String,
    pub body: String,
    pub sent_at_ms: i64,
    pub read_at_ms: i64,
    pub delivery_status: i64,
    pub edit_count: i64,
    pub kind: i64,
    pub expire_timer_secs: i64,
}

/// The history row a timeline entry is persisted as.
pub fn group_event_row(ev: &GroupMetadataEvent) -> (r: GroupEventRow)
    ensures
        r.id@ == event_row_id(*ev),
        r.conversation_id@ == "group-"@ + ev.group_id@,
        r.sender_did@ == ev.actor_did@,
        r.body@ == ev.summary@,
        r.sent_at_ms == ev.occurred_at_ms,
        r.read_at_ms == ev.occurred_at_ms,
        r.delivery_status == 1,
        r.edit_count == 0,
        r.kind == spec_kind_code(ev.kind),
        r.expire_timer_secs == 0,
{
    GroupEventRow {
        id: group_event_id(ev),
        conversation_id: group_conversation_id(ev.group_id.as_str()),
        sender_did: String::from_str(ev.actor_did.as_str()),
        body: String::from_str(ev.summary.as_str()),
        sent_at_ms: ev.occurred_at_ms,
        read_at_ms: ev.occurred_at_ms,
        delivery_status: 1,
        edit_count: 0,
        kind: kind_code(ev.kind),
        expire_timer_secs: 0,
    }
}

} // verus!
