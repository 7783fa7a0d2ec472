//! Plain records of the JavaScript binding and their conversions from and to
//! the library's records. Kinds travel as camelCase strings.
use vstd::prelude::*;
use vstd::string::*;

use crate::connection::ConnectionState;
use crate::ffi::{
    AccountInfoFfi, AdminEvent, ContactRowFfi, ConversationSummaryFfi, InviteInfo, ProjectInfoFfi,
    StoredMessageFfi,
};
use crate::group_events::{group_event_kind_name, kind_name};
use crate::groups::{CreatedGroup, GroupMember, GroupPending, GroupSummary, JoinResult};
use crate::messaging::{DecryptedMessage, DeliveryStatusUpdate, IncomingEvent, MessageTarget};
use crate::text::{join2, str_eq};
use vstd::std_specs::convert::FromSpec;
use vstd::std_specs::convert::FromSpecImpl;

verus! {

/// A project, for JavaScript.
pub struct ProjectInfoJs {
    pub name: String,
    pub url: String,
    pub description: String,
}

impl From<ProjectInfoFfi> for ProjectInfoJs {
    fn from(p: ProjectInfoFfi) -> (r: Self) {
        ProjectInfoJs { name: p.name, url: p.url, description: p.description }
    }
}

impl FromSpecImpl<ProjectInfoFfi> for ProjectInfoJs {
    open spec fn obeys_from_spec() -> bool {
        true
    }

    open spec fn from_spec(p: ProjectInfoFfi) -> Self {
        ProjectInfoJs { name: p.name, url: p.url, description: p.description }
    }
}

/// A decrypted inbound message, for JavaScript.
pub struct DecryptedMessageJs {
    pub server_id: i64,
    pub sender_did: String,
    pub sender_device_id: u32,
    pub plaintext: Vec<u8>,
    pub sent_at_ms: Option<i64>,
    pub group_id: Option<String>,
    /// The sender's profile key from the envelope, if any.
    pub profile_key: Option<Vec<u8>>,
    /// Whether the message-request rule treats the message as a request.
    pub is_request: bool,
}

impl From<DecryptedMessage> for DecryptedMessageJs {
    fn from(m: DecryptedMessage) -> (r: Self) {
        DecryptedMessageJs {
            server_id: m.server_id,
            sender_did: m.sender_did,
            sender_device_id: m.sender_device_id,
            plaintext: m.plaintext,
            sent_at_ms: m.sent_at_ms,
            group_id: m.group_id,
            profile_key: m.profile_key,
            is_request: m.is_request,
        }
    }
}

impl FromSpecImpl<DecryptedMessage> for DecryptedMessageJs {
    open spec fn obeys_from_spec() -> bool {
        true
    }

    open spec fn from_spec(m: DecryptedMessage) -> Self {
        DecryptedMessageJs {
            server_id: m.server_id,
            sender_did: m.sender_did,
            sender_device_id: m.sender_device_id,
            plaintext: m.plaintext,
            sent_at_ms: m.sent_at_ms,
            group_id: m.group_id,
            profile_key: m.profile_key,
            is_request: m.is_request,
        }
    }
}

/// A stored message, for JavaScript.
pub struct StoredMessageJs {
    pub id: String,
    pub conversation_id: String,
    pub sender_did: String,
    pub body: String,
    pub sent_at_ms: i64,
    pub edited_at_ms: Option<i64>,
    pub read_at_ms: Option<i64>,
    pub delivery_status: u32,
    /// `0` for a chat message; above zero a system timeline entry.
    pub kind: i64,
    /// JSON details of a system row.
    pub metadata: Option<String>,
}

impl From<StoredMessageFfi> for StoredMessageJs {
    fn from(m: StoredMessageFfi) -> (r: Self) {
        StoredMessageJs {
            id: m.id,
            conversation_id: m.conversation_id,
            sender_did: m.sender_did,
            body: m.body,
            sent_at_ms: m.sent_at_ms,
            edited_at_ms: m.edited_at_ms,
            read_at_ms: m.read_at_ms,
            delivery_status: m.delivery_status as u32,
            kind: m.kind,
            metadata: m.metadata,
        }
    }
}

impl FromSpecImpl<StoredMessageFfi> for StoredMessageJs {
    open spec fn obeys_from_spec() -> bool {
        true
    }

    open spec fn from_spec(m: StoredMessageFfi) -> Self {
        StoredMessageJs {
            id: m.id,
            conversation_id: m.conversation_id,
            sender_did: m.sender_did,
            body: m.body,
            sent_at_ms: m.sent_at_ms,
            edited_at_ms: m.edited_at_ms,
            read_at_ms: m.read_at_ms,
            delivery_status: m.delivery_status as u32,
            kind: m.kind,
            metadata: m.metadata,
        }
    }
}

/// A message saved from JavaScript is an ordinary chat message: no edits, not
/// deleted, no system kind or metadata, no disappearing timer; its status
/// keeps its low byte.
impl From<StoredMessageJs> for StoredMessageFfi {
    fn from(m: StoredMessageJs) -> (r: Self) {
        StoredMessageFfi {
            id: m.id,
            conversation_id: m.conversation_id,
            sender_did: m.sender_did,
            body: m.body,
            sent_at_ms: m.sent_at_ms,
            edited_at_ms: m.edited_at_ms,
            read_at_ms: m.read_at_ms,
            delivery_status: m.delivery_status as u8,
            edit_count: 0,
            deleted: false,
            kind: 0,
            metadata: None,
            expire_timer_secs: 0,
            expire_at_ms: None,
        }
    }
}

impl FromSpecImpl<StoredMessageJs> for StoredMessageFfi {
    open spec fn obeys_from_spec() -> bool {
        true
    }

    open spec fn from_spec(m: StoredMessageJs) -> Self {
        StoredMessageFfi {
            id: m.id,
            conversation_id: m.conversation_id,
            sender_did: m.sender_did,
            body: m.body,
            sent_at_ms: m.sent_at_ms,
            edited_at_ms: m.edited_at_ms,
            read_at_ms: m.read_at_ms,
            delivery_status: m.delivery_status as u8,
            edit_count: 0,
            deleted: false,
            kind: 0,
            metadata: None,
            expire_timer_secs: 0,
            expire_at_ms: None,
        }
    }
}

/// A conversation with its latest message, for JavaScript.
pub struct ConversationSummaryJs {
    pub conversation_id: String,
    pub last_message: Option<StoredMessageJs>,
}

impl From<ConversationSummaryFfi> for ConversationSummaryJs {
    fn from(c: ConversationSummaryFfi) -> (r: Self) {
        ConversationSummaryJs {
            conversation_id: c.conversation_id,
            last_message: match c.last_message {
                Some(m) => Some(StoredMessageJs::from(m)),
                None => None,
            },
        }
    }
}

impl FromSpecImpl<ConversationSummaryFfi> for ConversationSummaryJs {
    open spec fn obeys_from_spec() -> bool {
        true
    }

    open spec fn from_spec(c: ConversationSummaryFfi) -> Self {
        ConversationSummaryJs {
            conversation_id: c.conversation_id,
            last_message: match c.last_message {
                Some(m) => Some(<StoredMessageJs as FromSpec<StoredMessageFfi>>::from_spec(m)),
                None => None,
            },
        }
    }
}

/// A delivery-status change, for JavaScript.
pub struct DeliveryStatusUpdateJs {
    pub conversation_id: String,
    pub sent_at_ms: i64,
    pub delivery_status: u32,
}

impl From<DeliveryStatusUpdate> for DeliveryStatusUpdateJs {
    fn from(u: DeliveryStatusUpdate) -> (r: Self) {
        DeliveryStatusUpdateJs {
            conversation_id: u.conversation_id,
            sent_at_ms: u.sent_at_ms,
            delivery_status: u.delivery_status as u32,
        }
    }
}

impl FromSpecImpl<DeliveryStatusUpdate> for DeliveryStatusUpdateJs {
    open spec fn obeys_from_spec() -> bool {
        true
    }

    open spec fn from_spec(u: DeliveryStatusUpdate) -> Self {
        DeliveryStatusUpdateJs {
            conversation_id: u.conversation_id,
            sent_at_ms: u.sent_at_ms,
            delivery_status: u.delivery_status as u32,
        }
    }
}

/// A freshly created group, for JavaScript.
pub struct CreatedGroupJs {
    pub group_id: String,
    pub master_key: Vec<u8>,
}

impl From<CreatedGroup> for CreatedGroupJs {
    fn from(g: CreatedGroup) -> (r: Self) {
        CreatedGroupJs { group_id: g.group_id, master_key: g.master_key }
    }
}

impl FromSpecImpl<CreatedGroup> for CreatedGroupJs {
    open spec fn obeys_from_spec() -> bool {
        true
    }

    open spec fn from_spec(g: CreatedGroup) -> Self {
        CreatedGroupJs { group_id: g.group_id, master_key: g.master_key }
    }
}

/// A group member, for JavaScript; role `0` is member, `1` admin.
pub struct GroupMemberJs {
    pub did: String,
    pub encrypted_member_id: String,
    pub role: i32,
    pub joined_at_ms: i64,
}

impl From<GroupMember> for GroupMemberJs {
    fn from(m: GroupMember) -> (r: Self) {
        GroupMemberJs {
            did: m.did,
            encrypted_member_id: m.encrypted_member_id,
            role: m.role as i32,
            joined_at_ms: m.joined_at_ms,
        }
    }
}

impl FromSpecImpl<GroupMember> for GroupMemberJs {
    open spec fn obeys_from_spec() -> bool {
        true
    }

    open spec fn from_spec(m: GroupMember) -> Self {
        GroupMemberJs {
            did: m.did,
            encrypted_member_id: m.encrypted_member_id,
            role: m.role as i32,
            joined_at_ms: m.joined_at_ms,
        }
    }
}

/// A pending invite or request, for JavaScript.
pub struct GroupPendingJs {
    pub encrypted_member_id: String,
    pub timestamp_ms: i64,
}

impl From<GroupPending> for GroupPendingJs {
    fn from(p: GroupPending) -> (r: Self) {
        GroupPendingJs { encrypted_member_id: p.encrypted_member_id, timestamp_ms: p.timestamp_ms }
    }
}

impl FromSpecImpl<GroupPending> for GroupPendingJs {
    open spec fn obeys_from_spec() -> bool {
        true
    }

    open spec fn from_spec(p: GroupPending) -> Self {
        GroupPendingJs { encrypted_member_id: p.encrypted_member_id, timestamp_ms: p.timestamp_ms }
    }
}

/// A group summary, for JavaScript.
pub struct GroupSummaryJs {
    pub group_id: String,
    pub master_key: Vec<u8>,
    pub revision: i64,
    pub title: String,
    pub description: String,
    pub expiry_seconds: u32,
    pub members: Vec<GroupMemberJs>,
    pub pending_invites: Vec<GroupPendingJs>,
    pub pending_approvals: Vec<GroupPendingJs>,
}

fn pending_js(v: Vec<GroupPending>) -> (r: Vec<GroupPendingJs>)
    ensures
        r@.len() == v@.len(),
        forall|i: int| 0 <= i < v@.len() ==> #[trigger] r@[i] == <GroupPendingJs as FromSpec<GroupPending>>::from_spec(v@[i]),
{
    let mut v = v;
    let ghost orig = v@;
    let mut out: Vec<GroupPendingJs> = Vec::new();
    let mut k: usize = 0;
    let n = v.len();
    while k < n
        invariant
            k <= n,
            n == orig.len(),
            out@.len() == k,
            v@ == orig.subrange(k as int, n as int),
            forall|i: int| 0 <= i < k ==> #[trigger] out@[i] == <GroupPendingJs as FromSpec<GroupPending>>::from_spec(orig[i]),
        decreases n - k,
    {
        let p = v.remove(0);
        out.push(GroupPendingJs::from(p));
        proof {
            assert(v@ =~= orig.subrange(k + 1, n as int));
        }
        k = k + 1;
    }
    out
}

impl GroupSummaryJs {
    /// The JavaScript record of a group summary; the roster entries convert
    /// one by one, in order.
    pub fn from_summary(s: GroupSummary) -> (r: GroupSummaryJs)
        ensures
            r.group_id == s.group_id,
            r.master_key == s.master_key,
            r.revision == s.revision,
            r.title == s.title,
            r.description == s.description,
            r.expiry_seconds == s.expiry_seconds,
            r.members@.len() == s.members@.len(),
            forall|i: int| 0 <= i < s.members@.len() ==> #[trigger] r.members@[i] == <GroupMemberJs as FromSpec<GroupMember>>::from_spec(s.members@[i]),
            r.pending_invites@.len() == s.pending_invites@.len(),
            forall|i: int| 0 <= i < s.pending_invites@.len() ==> #[trigger] r.pending_invites@[i] == <GroupPendingJs as FromSpec<GroupPending>>::from_spec(s.pending_invites@[i]),
            r.pending_approvals@.len() == s.pending_approvals@.len(),
            forall|i: int| 0 <= i < s.pending_approvals@.len() ==> #[trigger] r.pending_approvals@[i] == <GroupPendingJs as FromSpec<GroupPending>>::from_spec(s.pending_approvals@[i]),
    {
        let GroupSummary {
            group_id,
            master_key,
            revision,
            title,
            description,
            expiry_seconds,
            members,
            pending_invites,
            pending_approvals,
        } = s;
        let mut members = members;
        let ghost orig = members@;
        let mut out: Vec<GroupMemberJs> = Vec::new();
        let n = members.len();
        let mut k: usize = 0;
        while k < n
            invariant
                k <= n,
                n == orig.len(),
                out@.len() == k,
                members@ == orig.subrange(k as int, n as int),
                forall|i: int| 0 <= i < k ==> #[trigger] out@[i] == <GroupMemberJs as FromSpec<GroupMember>>::from_spec(orig[i]),
            decreases n - k,
        {
            let m = members.remove(0);
            out.push(GroupMemberJs::from(m));
            proof {
                assert(members@ =~= orig.subrange(k + 1, n as int));
            }
            k = k + 1;
        }
        GroupSummaryJs {
            group_id,
            master_key,
            revision,
            title,
            description,
            expiry_seconds,
            members: out,
            pending_invites: pending_js(pending_invites),
            pending_approvals: pending_js(pending_approvals),
        }
    }
}

/// A contact row, for JavaScript.
pub struct ContactRowJs {
    pub did: String,
    pub display_name: String,
    pub is_curated: bool,
    pub last_interaction_at_ms: i64,
}

impl From<ContactRowFfi> for ContactRowJs {
    fn from(c: ContactRowFfi) -> (r: Self) {
        ContactRowJs {
            did: c.did,
            display_name: c.display_name,
            is_curated: c.is_curated,
            last_interaction_at_ms: c.last_interaction_at_ms,
        }
    }
}

impl FromSpecImpl<ContactRowFfi> for ContactRowJs {
    open spec fn obeys_from_spec() -> bool {
        true
    }

    open spec fn from_spec(c: ContactRowFfi) -> Self {
        ContactRowJs {
            did: c.did,
            display_name: c.display_name,
            is_curated: c.is_curated,
            last_interaction_at_ms: c.last_interaction_at_ms,
        }
    }
}

/// Account facts, for JavaScript.
pub struct AccountInfoJs {
    pub did: String,
    pub display_name: Option<String>,
    pub is_bot: bool,
}

impl From<AccountInfoFfi> for AccountInfoJs {
    fn from(a: AccountInfoFfi) -> (r: Self) {
        AccountInfoJs { did: a.did, display_name: a.display_name, is_bot: a.is_bot }
    }
}

impl FromSpecImpl<AccountInfoFfi> for AccountInfoJs {
    open spec fn obeys_from_spec() -> bool {
        true
    }

    open spec fn from_spec(a: AccountInfoFfi) -> Self {
        AccountInfoJs { did: a.did, display_name: a.display_name, is_bot: a.is_bot }
    }
}

/// An invite link's target, for JavaScript.
pub struct InviteInfoJs {
    pub server_url: String,
    pub server_name: String,
    pub inviter_did: Option<String>,
    pub post_onboarding_redirect: Option<String>,
    pub inviter_display_name: Option<String>,
    pub inviter_profile_key: Option<Vec<u8>>,
}

impl From<InviteInfo> for InviteInfoJs {
    fn from(i: InviteInfo) -> (r: Self) {
        InviteInfoJs {
            server_url: i.server_url,
            server_name: i.server_name,
            inviter_did: i.inviter_did,
            post_onboarding_redirect: i.post_onboarding_redirect,
            inviter_display_name: i.inviter_display_name,
            inviter_profile_key: i.inviter_profile_key,
        }
    }
}

impl FromSpecImpl<InviteInfo> for InviteInfoJs {
    open spec fn obeys_from_spec() -> bool {
        true
    }

    open spec fn from_spec(i: InviteInfo) -> Self {
        InviteInfoJs {
            server_url: i.server_url,
            server_name: i.server_name,
            inviter_did: i.inviter_did,
            post_onboarding_redirect: i.post_onboarding_redirect,
            inviter_display_name: i.inviter_display_name,
            inviter_profile_key: i.inviter_profile_key,
        }
    }
}

/// Connection liveness, for JavaScript: `state` is `disconnected`,
/// `connecting`, `connected` or `reconnecting`; `next_attempt_at_ms` is set
/// only when reconnecting.
pub struct ConnectionStateJs {
    pub state: String,
    pub next_attempt_at_ms: Option<i64>,
}

/// The state name of a connection state.
pub open spec fn state_name(s: ConnectionState) -> Seq<char> {
    match s {
        ConnectionState::Disconnected => "disconnected"@,
        ConnectionState::Connecting => "connecting"@,
        ConnectionState::Connected => "connected"@,
        ConnectionState::Reconnecting { .. } => "reconnecting"@,
    }
}

/// The connection state a state name stands for (a reconnecting state
/// without a time is due at `0`); `None` for an unknown name.
pub open spec fn state_of_name(name: Seq<char>, next_attempt_at_ms: Option<i64>) -> Option<ConnectionState> {
    if name == "disconnected"@ {
        Some(ConnectionState::Disconnected)
    } else if name == "connecting"@ {
        Some(ConnectionState::Connecting)
    } else if name == "connected"@ {
        Some(ConnectionState::Connected)
    } else if name == "reconnecting"@ {
        Some(
            ConnectionState::Reconnecting {
                next_attempt_at_ms: match next_attempt_at_ms {
                    Some(t) => t,
                    None => 0,
                },
            },
        )
    } else {
        None
    }
}

/// The next-attempt time a connection state carries.
pub open spec fn next_attempt_of(s: ConnectionState) -> Option<i64> {
    match s {
        ConnectionState::Reconnecting { next_attempt_at_ms } => Some(next_attempt_at_ms),
        _ => None,
    }
}

/// A connection state survives the trip through its JavaScript record.
pub proof fn law_connection_state_round_trip(s: ConnectionState)
    ensures
        state_of_name(state_name(s), next_attempt_of(s)) == Some(s),
{
    reveal_strlit("disconnected");
    reveal_strlit("connecting");
    reveal_strlit("connected");
    reveal_strlit("reconnecting");
    assert("disconnected"@.len() == 12 && "connecting"@.len() == 10 && "connected"@.len() == 9
        && "reconnecting"@.len() == 12);
    assert("disconnected"@[0] != "reconnecting"@[0]);
}

impl ConnectionStateJs {
    /// The JavaScript record of a connection state.
    pub fn from_state(s: ConnectionState) -> (r: ConnectionStateJs)
        ensures
            r.state@ == state_name(s),
            r.next_attempt_at_ms == next_attempt_of(s),
    {
        match s {
            ConnectionState::Disconnected => ConnectionStateJs {
                state: String::from_str("disconnected"),
                next_attempt_at_ms: None,
            },
            ConnectionState::Connecting => ConnectionStateJs {
                state: String::from_str("connecting"),
                next_attempt_at_ms: None,
            },
            ConnectionState::Connected => ConnectionStateJs {
                state: String::from_str("connected"),
                next_attempt_at_ms: None,
            },
            ConnectionState::Reconnecting { next_attempt_at_ms } => ConnectionStateJs {
                state: String::from_str("reconnecting"),
                next_attempt_at_ms: Some(next_attempt_at_ms),
            },
        }
    }

    /// The connection state a JavaScript record names; a reconnecting record
    /// without a time is due at `0`. Fails on an unknown state name, with
    /// the message `unknown connection state: {name}`.
    pub fn into_ffi(self) -> (r: Result<ConnectionState, String>)
        ensures
            match state_of_name(self.state@, self.next_attempt_at_ms) {
                Some(st) => r == Ok::<ConnectionState, String>(st),
                None => r matches Err(m) && m@ == "unknown connection state: "@ + self.state@,
            },
    {
        let s = self.state.as_str();
        proof {
            reveal_strlit("disconnected");
            reveal_strlit("connecting");
            reveal_strlit("connected");
            reveal_strlit("reconnecting");
            assert("disconnected"@.len() == 12 && "connecting"@.len() == 10 && "connected"@.len() == 9
                && "reconnecting"@.len() == 12);
            assert("disconnected"@[0] != "reconnecting"@[0]);
        }
        if str_eq(s, "disconnected") {
            Ok(ConnectionState::Disconnected)
        } else if str_eq(s, "connecting") {
            Ok(ConnectionState::Connecting)
        } else if str_eq(s, "connected") {
            Ok(ConnectionState::Connected)
        } else if str_eq(s, "reconnecting") {
            Ok(
                ConnectionState::Reconnecting {
                    next_attempt_at_ms: match self.next_attempt_at_ms {
                        Some(t) => t,
                        None => 0,
                    },
                },
            )
        } else {
            Err(join2("unknown connection state: ", s))
        }
    }
}

/// Where a send is directed, for JavaScript: `kind` is `dm` (with
/// `recipient_did`) or `group` (with `group_id`).
pub struct MessageTargetJs {
    pub kind: String,
    pub recipient_did: Option<String>,
    pub group_id: Option<String>,
}

impl MessageTargetJs {
    /// The target a JavaScript record names. Fails on an unknown kind, or a
    /// known kind without its id.
    pub fn into_ffi(self) -> (r: Result<MessageTarget, String>)
        ensures
            self.kind@ == "dm"@ ==> match self.recipient_did {
                Some(d) => r matches Ok(MessageTarget::Dm { recipient_did }) && recipient_did == d,
                None => r matches Err(m) && m@ == "dm target requires recipientDid"@,
            },
            self.kind@ == "group"@ ==> match self.group_id {
                Some(g) => r matches Ok(MessageTarget::Group { group_id }) && group_id == g,
                None => r matches Err(m) && m@ == "group target requires groupId"@,
            },
            self.kind@ != "dm"@ && self.kind@ != "group"@ ==> (r matches Err(m) && m@
                == "unknown message target kind: "@ + self.kind@),
    {
        let MessageTargetJs { kind, recipient_did, group_id } = self;
        proof {
            reveal_strlit("dm");
            reveal_strlit("group");
            assert("dm"@.len() != "group"@.len());
        }
        if str_eq(kind.as_str(), "dm") {
            match recipient_did {
                Some(d) => Ok(MessageTarget::Dm { recipient_did: d }),
                None => Err(String::from_str("dm target requires recipientDid")),
            }
        } else if str_eq(kind.as_str(), "group") {
            match group_id {
                Some(g) => Ok(MessageTarget::Group { group_id: g }),
                None => Err(String::from_str("group target requires groupId")),
            }
        } else {
            Err(join2("unknown message target kind: ", kind.as_str()))
        }
    }
}

/// A group change, for JavaScript.
pub struct GroupMetadataChangedJs {
    pub group_id: String,
    pub revision: i64,
    /// camelCase kind name.
    pub kind: String,
    pub actor_did: String,
    pub target_did: String,
    pub target_emi: String,
    pub occurred_at_ms: i64,
    pub summary: String,
}

/// A received group invite, for JavaScript.
pub struct GroupInviteJs {
    pub group_id: String,
    pub hosting_server_url: String,
    pub inviter_did: String,
}

/// A newly registered account, for JavaScript.
pub struct AccountJoinedJs {
    pub did: String,
    pub joined_at_ms: i64,
}

/// One event, for JavaScript: `kind` names it and at most one payload is set.
pub struct IncomingEventJs {
    pub kind: String,
    pub message: Option<DecryptedMessageJs>,
    pub receipt: Option<DeliveryStatusUpdateJs>,
    pub group_invite: Option<GroupInviteJs>,
    pub group_metadata: Option<GroupMetadataChangedJs>,
}

/// The kind name of an event.
pub open spec fn event_kind_name(e: IncomingEvent) -> Seq<char> {
    match e {
        IncomingEvent::Message { .. } => "message"@,
        IncomingEvent::ReceiptUpdate { .. } => "receipt"@,
        IncomingEvent::GroupInvite { .. } => "groupInvite"@,
        IncomingEvent::MessageEdited { .. } => "messageEdited"@,
        IncomingEvent::MessageDeleted { .. } => "messageDeleted"@,
        IncomingEvent::ReactionUpdated { .. } => "reactionUpdated"@,
        IncomingEvent::StorageSynced => "storageSynced"@,
        IncomingEvent::GroupMetadataChanged { .. } => "groupMetadataChanged"@,
        IncomingEvent::MessagesExpired => "messagesExpired"@,
    }
}

fn bare_event(kind: &str) -> (r: IncomingEventJs)
    ensures
        r.kind@ == kind@,
        r.message is None,
        r.receipt is None,
        r.group_invite is None,
        r.group_metadata is None,
{
    IncomingEventJs {
        kind: String::from_str(kind),
        message: None,
        receipt: None,
        group_invite: None,
        group_metadata: None,
    }
}

impl IncomingEventJs {
    /// The JavaScript record of an event: a message, receipt, invite or group
    /// change carries its payload; edits, deletes, reactions, storage syncs
    /// and expiries travel as their kind alone.
    pub fn from_event(e: IncomingEvent) -> (r: IncomingEventJs)
        ensures
            r.kind@ == event_kind_name(e),
            r.message == (match e {
                IncomingEvent::Message { msg } => Some(<DecryptedMessageJs as FromSpec<DecryptedMessage>>::from_spec(msg)),
                _ => None::<DecryptedMessageJs>,
            }),
            r.receipt == (match e {
                IncomingEvent::ReceiptUpdate { update } => Some(<DeliveryStatusUpdateJs as FromSpec<DeliveryStatusUpdate>>::from_spec(update)),
                _ => None::<DeliveryStatusUpdateJs>,
            }),
            e matches IncomingEvent::GroupInvite { group_id, hosting_server_url, inviter_did } ==> (r.group_invite
                matches Some(g) && g.group_id == group_id && g.hosting_server_url == hosting_server_url
                && g.inviter_did == inviter_did),
            !(e is GroupInvite) ==> r.group_invite is None,
            e matches IncomingEvent::GroupMetadataChanged { event } ==> (r.group_metadata matches Some(g)
                && g.group_id == event.group_id && g.revision == event.revision && g.kind@ == kind_name(event.kind)
                && g.actor_did == event.actor_did && g.target_did == event.target_did && g.target_emi
                == event.target_emi && g.occurred_at_ms == event.occurred_at_ms && g.summary == event.summary),
            !(e is GroupMetadataChanged) ==> r.group_metadata is None,
    {
        match e {
            IncomingEvent::Message { msg } => IncomingEventJs {
                kind: String::from_str("message"),
                message: Some(DecryptedMessageJs::from(msg)),
                receipt: None,
                group_invite: None,
                group_metadata: None,
            },
            IncomingEvent::ReceiptUpdate { update } => IncomingEventJs {
                kind: String::from_str("receipt"),
                message: None,
                receipt: Some(DeliveryStatusUpdateJs::from(update)),
                group_invite: None,
                group_metadata: None,
            },
            IncomingEvent::GroupInvite { group_id, hosting_server_url, inviter_did } => IncomingEventJs {
                kind: String::from_str("groupInvite"),
                message: None,
                receipt: None,
                group_invite: Some(GroupInviteJs { group_id, hosting_server_url, inviter_did }),
                group_metadata: None,
            },
            IncomingEvent::MessageEdited { .. } => bare_event("messageEdited"),
            IncomingEvent::MessageDeleted { .. } => bare_event("messageDeleted"),
            IncomingEvent::ReactionUpdated { .. } => bare_event("reactionUpdated"),
            IncomingEvent::StorageSynced => bare_event("storageSynced"),
            IncomingEvent::GroupMetadataChanged { event } => {
                let kind = String::from_str(group_event_kind_name(event.kind));
                IncomingEventJs {
                    kind: String::from_str("groupMetadataChanged"),
                    message: None,
                    receipt: None,
                    group_invite: None,
                    group_metadata: Some(
                        GroupMetadataChangedJs {
                            group_id: event.group_id,
                            revision: event.revision,
                            kind,
                            actor_did: event.actor_did,
                            target_did: event.target_did,
                            target_emi: event.target_emi,
                            occurred_at_ms: event.occurred_at_ms,
                            summary: event.summary,
                        },
                    ),
                }
            },
            IncomingEvent::MessagesExpired => bare_event("messagesExpired"),
        }
    }
}

/// An administrator event, for JavaScript; `kind` is `accountJoined`.
pub struct AdminEventJs {
    pub kind: String,
    pub account_joined: Option<AccountJoinedJs>,
}

impl AdminEventJs {
    /// The JavaScript record of an administrator event.
    pub fn from_event(e: AdminEvent) -> (r: AdminEventJs)
        ensures
            r.kind@ == "accountJoined"@,
            match e {
                AdminEvent::AccountJoined { did, joined_at_ms } => r.account_joined matches Some(a) && a.did
                    == did && a.joined_at_ms == joined_at_ms,
            },
    {
        match e {
            AdminEvent::AccountJoined { did, joined_at_ms } => AdminEventJs {
                kind: String::from_str("accountJoined"),
                account_joined: Some(AccountJoinedJs { did, joined_at_ms }),
            },
        }
    }
}

/// Result of joining through a link, for JavaScript.
#[derive(Clone, Copy, Debug, PartialEq, Eq, Structural)]
pub enum JoinResultJs {
    Member,
    Pending,
}

impl From<JoinResult> for JoinResultJs {
    fn from(r: JoinResult) -> (out: Self) {
        match r {
            JoinResult::Member => JoinResultJs::Member,
            JoinResult::Pending => JoinResultJs::Pending,
        }
    }
}

impl FromSpecImpl<JoinResult> for JoinResultJs {
    open spec fn obeys_from_spec() -> bool {
        true
    }

    open spec fn from_spec(r: JoinResult) -> Self {
        match r {
            JoinResult::Member => JoinResultJs::Member,
            JoinResult::Pending => JoinResultJs::Pending,
        }
    }
}

} // verus!
