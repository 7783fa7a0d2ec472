//! Decisions of the direct-message receive and send paths: the name-fetch
//! throttle, the message-request rule, and what each kind of inbound content
//! does to the store and the event stream.
use vstd::prelude::*;
use vstd::string::*;

use crate::error::NetError;
use crate::group_events::GroupMetadataEvent;
use crate::text::{join2, join4, str_eq};

verus! {

// ── name-fetch throttle ─────────────────────────────────────────────────────

/// Outcome of a server name-fetch attempt, the key of the fetch throttle. Its
/// code is persisted: keep the codes stable.
#[derive(Clone, Copy, Debug, PartialEq, Eq, Structural)]
pub enum FetchOutcome {
    Success,
    Network,
    NotAuthorized,
    NotFound,
    RateLimited,
    Other,
}

/// The persisted code of an outcome.
pub open spec fn outcome_code(o: FetchOutcome) -> i64 {
    match o {
        FetchOutcome::Success => 0,
        FetchOutcome::Network => 1,
        FetchOutcome::NotAuthorized => 2,
        FetchOutcome::NotFound => 3,
        FetchOutcome::RateLimited => 4,
        FetchOutcome::Other => 5,
    }
}

/// The outcome a persisted code stands for; unknown codes read as `Other`.
pub open spec fn outcome_of_code(c: i64) -> FetchOutcome {
    if c == 0 {
        FetchOutcome::Success
    } else if c == 1 {
        FetchOutcome::Network
    } else if c == 2 {
        FetchOutcome::NotAuthorized
    } else if c == 3 {
        FetchOutcome::NotFound
    } else if c == 4 {
        FetchOutcome::RateLimited
    } else {
        FetchOutcome::Other
    }
}

/// Minimum time after an outcome before the next attempt, in milliseconds.
pub open spec fn outcome_window_ms(o: FetchOutcome) -> i64 {
    match o {
        FetchOutcome::Success => 300_000,
        FetchOutcome::Network => 60_000,
        FetchOutcome::NotAuthorized => 1_800_000,
        FetchOutcome::NotFound => 21_600_000,
        FetchOutcome::RateLimited => 300_000,
        FetchOutcome::Other => 1_800_000,
    }
}

impl FetchOutcome {
    /// The persisted code.
    pub fn code(self) -> (r: i64)
        ensures
            r == outcome_code(self),
    {
        match self {
            FetchOutcome::Success => 0,
            FetchOutcome::Network => 1,
            FetchOutcome::NotAuthorized => 2,
            FetchOutcome::NotFound => 3,
            FetchOutcome::RateLimited => 4,
            FetchOutcome::Other => 5,
        }
    }

    /// The outcome of a persisted code; unknown codes read as `Other`.
    pub fn from_code(c: i64) -> (r: FetchOutcome)
        ensures
            r == outcome_of_code(c),
    {
        match c {
            0 => FetchOutcome::Success,
            1 => FetchOutcome::Network,
            2 => FetchOutcome::NotAuthorized,
            3 => FetchOutcome::NotFound,
            4 => FetchOutcome::RateLimited,
            _ => FetchOutcome::Other,
        }
    }

    /// Minimum time before another attempt is allowed, in milliseconds.
    pub fn skip_window_ms(self) -> (r: i64)
        ensures
            r == outcome_window_ms(self),
    {
        match self {
            FetchOutcome::Success => 5 * 60 * 1000,
            FetchOutcome::Network => 60 * 1000,
            FetchOutcome::NotAuthorized => 30 * 60 * 1000,
            FetchOutcome::NotFound => 6 * 60 * 60 * 1000,
            FetchOutcome::RateLimited => 5 * 60 * 1000,
            FetchOutcome::Other => 30 * 60 * 1000,
        }
    }
}

/// A persisted outcome reads back as itself.
pub proof fn law_outcome_code_round_trip(o: FetchOutcome)
    ensures
        outcome_of_code(outcome_code(o)) == o,
{
}

/// The throttle outcome of a network failure: 401/403 not authorized, 404 not
/// found, 429 rate limited, another status other, a transport failure network.
pub fn classify_net_error(e: &NetError) -> (r: FetchOutcome)
    ensures
        r == (match *e {
            NetError::Server(status, _) => if status == 401 || status == 403 {
                FetchOutcome::NotAuthorized
            } else if status == 404 {
                FetchOutcome::NotFound
            } else if status == 429 {
                FetchOutcome::RateLimited
            } else {
                FetchOutcome::Other
            },
            NetError::Http(_) => FetchOutcome::Network,
            NetError::WebSocket(_) => FetchOutcome::Network,
            _ => FetchOutcome::Other,
        }),
{
    match e {
        NetError::Server(status, _) => {
            if *status == 401 || *status == 403 {
                FetchOutcome::NotAuthorized
            } else if *status == 404 {
                FetchOutcome::NotFound
            } else if *status == 429 {
                FetchOutcome::RateLimited
            } else {
                FetchOutcome::Other
            }
        },
        NetError::Http(_) => FetchOutcome::Network,
        NetError::WebSocket(_) => FetchOutcome::Network,
        _ => FetchOutcome::Other,
    }
}

/// Whether a name fetch is allowed at `now_ms`, given the last attempt's time
/// and outcome code: always when there was none (or the throttle could not be
/// read), else once the outcome's window has passed.
pub fn fetch_allowed(last: Option<(i64, i64)>, now_ms: i64) -> (r: bool)
    requires
        last matches Some((t, _)) ==> i64::MIN <= now_ms - t <= i64::MAX,
    ensures
        r == (match last {
            Some((t, c)) => now_ms - t >= outcome_window_ms(outcome_of_code(c)),
            None => true,
        }),
{
    match last {
        Some((t, c)) => now_ms - t >= FetchOutcome::from_code(c).skip_window_ms(),
        None => true,
    }
}

// ── message-request rule ────────────────────────────────────────────────────

/// Message-request decision for an inbound direct-message sender.
pub struct SenderGate {
    pub is_curated: bool,
    pub is_blocked: bool,
    pub is_bot: bool,
}

impl SenderGate {
    /// Whether the message delivers as a normal conversation rather than a
    /// request: the sender is curated or a homeserver-known bot. Blocking is
    /// the caller's separate check.
    pub fn passes(&self) -> (r: bool)
        ensures
            r == (self.is_curated || self.is_bot),
    {
        self.is_curated || self.is_bot
    }
}


// ── inbound content ─────────────────────────────────────────────────────────

/// Receipt type code of a delivery receipt.
pub const RECEIPT_DELIVERY: i32 = 0;
/// Receipt type code of a read receipt.
pub const RECEIPT_READ: i32 = 1;
/// Stored delivery status of a message the peer received.
pub const STATUS_DELIVERED: u8 = 2;
/// Stored delivery status of a message the peer read.
pub const STATUS_READ: u8 = 3;

/// The body of a content envelope.
pub enum ContentBody {
    Text { body: String },
    Receipt { receipt_type: i32, timestamps: Vec<u64> },
    GroupContext {
        group_master_key: Vec<u8>,
        hosting_server_url: String,
        inviter_did: String,
        invited_at_ms: i64,
        invite_link_password: Vec<u8>,
    },
    SenderKeyDistribution { group_id: Vec<u8>, distribution_id: Vec<u8>, skdm: Vec<u8> },
    GroupMessage { group_id: Vec<u8>, ciphertext: Vec<u8> },
    TimerChange { expiry_secs: u32 },
    Edit { target_sent_at: u64, new_body: String },
    Delete { for_everyone: bool, target_author: String, target_sent_at: u64 },
    Reaction { target_author: String, target_sent_at: u64, emoji: String, remove: bool },
}

/// The content envelope every message rides in.
pub struct ContentMessage {
    pub body: Option<ContentBody>,
    pub timestamp_ms: u64,
    /// The sender's profile key; empty when not shared.
    pub profile_key: Vec<u8>,
    /// Disappearing-message timer of the content, in seconds (`0` = off).
    pub expire_timer_secs: u32,
}

/// A decrypted inbound message.
pub struct DecryptedMessage {
    pub server_id: i64,
    pub sender_did: String,
    pub sender_device_id: u32,
    pub plaintext: Vec<u8>,
    pub sent_at_ms: Option<i64>,
    pub group_id: Option<String>,
    pub profile_key: Option<Vec<u8>>,
    pub is_request: bool,
}

/// A delivery-status change of one sent message.
pub struct DeliveryStatusUpdate {
    pub conversation_id: String,
    pub sent_at_ms: i64,
    pub delivery_status: u8,
}

/// Where a send is directed.
pub enum MessageTarget {
    Dm { recipient_did: String },
    Group { group_id: String },
}

/// An event for the application.
pub enum IncomingEvent {
    Message { msg: DecryptedMessage },
    ReceiptUpdate { update: DeliveryStatusUpdate },
    GroupInvite { group_id: String, hosting_server_url: String, inviter_did: String },
    MessageEdited {
        conversation_id: String,
        author_did: String,
        sent_at_ms: i64,
        new_body: String,
        edited_at_ms: i64,
    },
    MessageDeleted { conversation_id: String, author_did: String, sent_at_ms: i64 },
    ReactionUpdated {
        conversation_id: String,
        target_author: String,
        target_sent_at_ms: i64,
        reactor_did: String,
        emoji: String,
        removed: bool,
    },
    StorageSynced,
    GroupMetadataChanged { event: GroupMetadataEvent },
    MessagesExpired,
}

/// The direct-message conversation of `self_did` with `peer_did`:
/// `dm-{self}-{peer}`.
pub fn dm_conversation_id(self_did: &str, peer_did: &str) -> (r: String)
    ensures
        r@ == "dm-"@ + self_did@ + "-"@ + peer_did@,
{
    join4("dm-", self_did, "-", peer_did)
}

/// The conversation inbound content belongs to: the group's thread for a
/// group delivery, else the direct conversation with the sender.
pub fn inbound_conversation_id(group_id: Option<&str>, self_did: &str, sender_did: &str) -> (r: String)
    ensures
        r@ == (match group_id {
            Some(g) => "group-"@ + g@,
            None => "dm-"@ + self_did@ + "-"@ + sender_did@,
        }),
{
    match group_id {
        Some(g) => join2("group-", g),
        None => dm_conversation_id(self_did, sender_did),
    }
}

/// The stored status a receipt sets: read for a read receipt, else delivered.
pub fn receipt_status(receipt_type: i32) -> (r: u8)
    ensures
        r == (if receipt_type == RECEIPT_READ { STATUS_READ } else { STATUS_DELIVERED }),
{
    if receipt_type == RECEIPT_READ {
        STATUS_READ
    } else {
        STATUS_DELIVERED
    }
}

/// The status updates a receipt produces in `conversation_id`: one per
/// acknowledged timestamp, in order.
pub fn receipt_updates(conversation_id: &str, receipt_type: i32, timestamps: &Vec<u64>) -> (r: Vec<DeliveryStatusUpdate>)
    ensures
        r@.len() == timestamps@.len(),
        forall|i: int|
            0 <= i < r@.len() ==> {
                &&& (#[trigger] r@[i]).conversation_id@ == conversation_id@
                &&& r@[i].sent_at_ms == timestamps@[i] as i64
                &&& r@[i].delivery_status == (if receipt_type == RECEIPT_READ {
                    STATUS_READ
                } else {
                    STATUS_DELIVERED
                })
            },
{
    let status = receipt_status(receipt_type);
    let mut out: Vec<DeliveryStatusUpdate> = Vec::new();
    let mut i: usize = 0;
    while i < timestamps.len()
        invariant
            0 <= i <= timestamps@.len(),
            out@.len() == i,
            status == (if receipt_type == RECEIPT_READ { STATUS_READ } else { STATUS_DELIVERED }),
            forall|j: int|
                0 <= j < i ==> {
                    &&& (#[trigger] out@[j]).conversation_id@ == conversation_id@
                    &&& out@[j].sent_at_ms == timestamps@[j] as i64
                    &&& out@[j].delivery_status == status
                },
        decreases timestamps@.len() - i,
    {
        out.push(DeliveryStatusUpdate {
            conversation_id: String::from_str(conversation_id),
            sent_at_ms: timestamps[i] as i64,
            delivery_status: status,
        });
        i = i + 1;
    }
    out
}

/// The send time an envelope claims: its timestamp when set (non-zero).
pub fn claimed_sent_at(timestamp_ms: u64) -> (r: Option<i64>)
    ensures
        r == (if timestamp_ms > 0 { Some(timestamp_ms as i64) } else { None }),
{
    if timestamp_ms > 0 {
        Some(timestamp_ms as i64)
    } else {
        None
    }
}

/// What an inbound text does.
pub struct TextPlan {
    /// Whether it reaches the application; a blocked direct sender's text is
    /// dropped (it was decrypted only to advance the ratchet).
    pub deliver: bool,
    /// Whether the sender's contact gets a (non-curating) recency bump.
    pub touch_contact: bool,
    /// Whether the sender is flagged as a pending message request.
    pub mark_request: bool,
    /// The send time to acknowledge with a delivery receipt, if any.
    pub receipt_for: Option<i64>,
}

/// The plan for an inbound text: group text always delivers and is never
/// acknowledged; direct text from a blocked sender is dropped without touching
/// the sender's contact, from a sender who does not pass the rule it is
/// flagged a request, and a delivered direct text that claims a send time is
/// acknowledged. Every delivered text bumps its sender's contact.
pub fn plan_text(in_group: bool, gate: &SenderGate, sent_at: Option<i64>) -> (r: TextPlan)
    ensures
        r.deliver == (in_group || !gate.is_blocked),
        r.touch_contact == (in_group || !gate.is_blocked),
        r.mark_request == (!in_group && !gate.is_blocked && !(gate.is_curated || gate.is_bot)),
        r.receipt_for == (if !in_group && !gate.is_blocked { sent_at } else { None }),
{
    if in_group {
        TextPlan { deliver: true, touch_contact: true, mark_request: false, receipt_for: None }
    } else if gate.is_blocked {
        TextPlan { deliver: false, touch_contact: false, mark_request: false, receipt_for: None }
    } else {
        TextPlan { deliver: true, touch_contact: true, mark_request: !gate.passes(), receipt_for: sent_at }
    }
}

/// The delivery receipt acknowledging a message sent at `sent_at`, carrying
/// our profile key.
pub fn delivery_receipt(sent_at: i64, profile_key: &[u8]) -> (r: ContentMessage)
    ensures
        r.body matches Some(ContentBody::Receipt { receipt_type, timestamps }) && receipt_type
            == RECEIPT_DELIVERY && timestamps@ == seq![sent_at as u64],
        r.timestamp_ms == 0,
        r.profile_key@ == profile_key@,
        r.expire_timer_secs == 0,
{
    let mut ts: Vec<u64> = Vec::new();
    ts.push(sent_at as u64);
    ContentMessage {
        body: Some(ContentBody::Receipt { receipt_type: RECEIPT_DELIVERY, timestamps: ts }),
        timestamp_ms: 0,
        profile_key: crate::bytes::copy_all(profile_key),
        expire_timer_secs: 0,
    }
}

// ── the push path ───────────────────────────────────────────────────────────

/// What the live (push) path does with one decrypted message.
#[derive(Clone, Copy, Debug, PartialEq, Eq, Structural)]
pub enum PushRoute {
    /// Record the receipt's statuses and emit one update per timestamp (see
    /// [`receipt_updates`]).
    EmitReceiptUpdates,
    /// Handle the text as [`plan_text`] says.
    PlanText,
    /// Store the group's master key, join it, and emit a group invitation;
    /// no message is emitted.
    JoinGroup,
    /// Install the sender's group key; nothing is emitted.
    InstallSenderKey,
    /// Open the group message; when it opens, bump the sender's contact and
    /// emit it.
    OpenGroupMessage,
    /// Save the conversation's timer; nothing is emitted.
    SaveTimer,
    /// Apply the edit and emit the event it gives, if any.
    ApplyEdit,
    /// Apply the deletion and emit the event it gives, if any.
    ApplyDelete,
    /// Apply the reaction and emit the event it gives, if any.
    ApplyReaction,
    /// Emit the plaintext as it came: no body, or no content envelope.
    EmitRaw,
}

/// The route of a body (`None`: no body, or no envelope) on the push path.
pub open spec fn push_route_of(body: Option<ContentBody>) -> PushRoute {
    match body {
        None => PushRoute::EmitRaw,
        Some(ContentBody::Receipt { .. }) => PushRoute::EmitReceiptUpdates,
        Some(ContentBody::Text { .. }) => PushRoute::PlanText,
        Some(ContentBody::GroupContext { .. }) => PushRoute::JoinGroup,
        Some(ContentBody::SenderKeyDistribution { .. }) => PushRoute::InstallSenderKey,
        Some(ContentBody::GroupMessage { .. }) => PushRoute::OpenGroupMessage,
        Some(ContentBody::TimerChange { .. }) => PushRoute::SaveTimer,
        Some(ContentBody::Edit { .. }) => PushRoute::ApplyEdit,
        Some(ContentBody::Delete { .. }) => PushRoute::ApplyDelete,
        Some(ContentBody::Reaction { .. }) => PushRoute::ApplyReaction,
    }
}

/// Routes one decrypted message on the push path by the kind of its body.
pub fn push_route(body: Option<&ContentBody>) -> (r: PushRoute)
    ensures
        r == push_route_of(
            match body {
                Some(b) => Some(*b),
                None => None,
            },
        ),
{
    match body {
        None => PushRoute::EmitRaw,
        Some(ContentBody::Receipt { .. }) => PushRoute::EmitReceiptUpdates,
        Some(ContentBody::Text { .. }) => PushRoute::PlanText,
        Some(ContentBody::GroupContext { .. }) => PushRoute::JoinGroup,
        Some(ContentBody::SenderKeyDistribution { .. }) => PushRoute::InstallSenderKey,
        Some(ContentBody::GroupMessage { .. }) => PushRoute::OpenGroupMessage,
        Some(ContentBody::TimerChange { .. }) => PushRoute::SaveTimer,
        Some(ContentBody::Edit { .. }) => PushRoute::ApplyEdit,
        Some(ContentBody::Delete { .. }) => PushRoute::ApplyDelete,
        Some(ContentBody::Reaction { .. }) => PushRoute::ApplyReaction,
    }
}

/// On the push path a message is surfaced raw only when it has no body (or is
/// no envelope); every kind of body has its own route: a reaction is applied,
/// an edit applied, a deletion applied, a text planned, a receipt recorded, a
/// group context joined, a sender key installed, a group message opened and a
/// timer saved.
pub proof fn law_push_routes(body: Option<ContentBody>)
    ensures
        (push_route_of(body) == PushRoute::EmitRaw) <==> body is None,
        body matches Some(ContentBody::Reaction { .. }) ==> push_route_of(body) == PushRoute::ApplyReaction,
        body matches Some(ContentBody::Edit { .. }) ==> push_route_of(body) == PushRoute::ApplyEdit,
        body matches Some(ContentBody::Delete { .. }) ==> push_route_of(body) == PushRoute::ApplyDelete,
        body matches Some(ContentBody::Text { .. }) ==> push_route_of(body) == PushRoute::PlanText,
        body matches Some(ContentBody::Receipt { .. }) ==> push_route_of(body) == PushRoute::EmitReceiptUpdates,
        body matches Some(ContentBody::GroupContext { .. }) ==> push_route_of(body) == PushRoute::JoinGroup,
        body matches Some(ContentBody::SenderKeyDistribution { .. }) ==> push_route_of(body)
            == PushRoute::InstallSenderKey,
        body matches Some(ContentBody::GroupMessage { .. }) ==> push_route_of(body) == PushRoute::OpenGroupMessage,
        body matches Some(ContentBody::TimerChange { .. }) ==> push_route_of(body) == PushRoute::SaveTimer,
{
}

// ── the polling path ────────────────────────────────────────────────────────

/// What the polling path does with one decrypted direct message.
#[derive(Clone, Copy, Debug, PartialEq, Eq, Structural)]
pub enum PollRoute {
    /// Record the receipt's delivery statuses; nothing is returned.
    ApplyReceipt,
    /// Return the text, after the sender-gate bookkeeping (see [`plan_text`]).
    ReturnText,
    /// Drop the text: the sender is blocked.
    DropBlocked,
    /// Store the group's master key and return the message as it came.
    StoreGroupAndReturn,
    /// Install the sender's group key; nothing is returned.
    InstallSenderKey,
    /// Open the group message under the sender's key; returned when it opens.
    OpenGroupMessage,
    /// Save the conversation's timer; nothing is returned.
    SaveTimer,
    /// Apply the edit to the stored message; nothing is returned.
    ApplyEdit,
    /// Apply the deletion; nothing is returned.
    ApplyDelete,
    /// Apply the reaction; nothing is returned.
    ApplyReaction,
    /// Return the plaintext as it came: the envelope has no body, or the
    /// plaintext is no content envelope at all.
    ReturnRaw,
}

/// The route of a body (`None`: no body, or no envelope) on the polling path.
pub open spec fn poll_route_of(body: Option<ContentBody>, sender_blocked: bool) -> PollRoute {
    match body {
        None => PollRoute::ReturnRaw,
        Some(ContentBody::Receipt { .. }) => PollRoute::ApplyReceipt,
        Some(ContentBody::Text { .. }) => if sender_blocked {
            PollRoute::DropBlocked
        } else {
            PollRoute::ReturnText
        },
        Some(ContentBody::GroupContext { .. }) => PollRoute::StoreGroupAndReturn,
        Some(ContentBody::SenderKeyDistribution { .. }) => PollRoute::InstallSenderKey,
        Some(ContentBody::GroupMessage { .. }) => PollRoute::OpenGroupMessage,
        Some(ContentBody::TimerChange { .. }) => PollRoute::SaveTimer,
        Some(ContentBody::Edit { .. }) => PollRoute::ApplyEdit,
        Some(ContentBody::Delete { .. }) => PollRoute::ApplyDelete,
        Some(ContentBody::Reaction { .. }) => PollRoute::ApplyReaction,
    }
}

/// Whether a route hands a message back to the caller (a group message only
/// when it opens).
pub open spec fn route_returns(route: PollRoute) -> bool {
    route == PollRoute::ReturnText || route == PollRoute::StoreGroupAndReturn
        || route == PollRoute::OpenGroupMessage || route == PollRoute::ReturnRaw
}

/// On the polling path the plaintext comes back raw only when there is no
/// body (or no envelope); a text comes back exactly when its sender is not
/// blocked; the control messages are consumed, each by its own route; and a
/// group invitation or group message is handed back.
pub proof fn law_poll_routes(body: Option<ContentBody>, blocked: bool)
    ensures
        (poll_route_of(body, blocked) == PollRoute::ReturnRaw) <==> body is None,
        body matches Some(ContentBody::Text { .. }) ==> (poll_route_of(body, blocked) == (if blocked {
            PollRoute::DropBlocked
        } else {
            PollRoute::ReturnText
        })),
        body matches Some(ContentBody::Reaction { .. }) ==> poll_route_of(body, blocked) == PollRoute::ApplyReaction,
        body matches Some(ContentBody::Edit { .. }) ==> poll_route_of(body, blocked) == PollRoute::ApplyEdit,
        body matches Some(ContentBody::Delete { .. }) ==> poll_route_of(body, blocked) == PollRoute::ApplyDelete,
        body matches Some(ContentBody::Receipt { .. }) ==> poll_route_of(body, blocked) == PollRoute::ApplyReceipt,
        body matches Some(ContentBody::TimerChange { .. }) ==> poll_route_of(body, blocked) == PollRoute::SaveTimer,
        body matches Some(ContentBody::SenderKeyDistribution { .. }) ==> poll_route_of(body, blocked)
            == PollRoute::InstallSenderKey,
        body matches Some(ContentBody::GroupContext { .. }) ==> poll_route_of(body, blocked)
            == PollRoute::StoreGroupAndReturn,
        body matches Some(ContentBody::GroupMessage { .. }) ==> poll_route_of(body, blocked)
            == PollRoute::OpenGroupMessage,
        route_returns(poll_route_of(body, blocked)) <==> (body is None || body matches Some(
            ContentBody::GroupContext { .. },
        ) || body matches Some(ContentBody::GroupMessage { .. }) || (body matches Some(ContentBody::Text { .. })
            && !blocked)),
{
}

/// Routes one decrypted direct message on the polling path: text from a
/// blocked sender is dropped, other text, group invitations, group messages
/// and anything that is no content envelope come back to the caller, and the
/// control messages are consumed.
pub fn poll_route(body: Option<&ContentBody>, gate: &SenderGate) -> (r: PollRoute)
    ensures
        r == poll_route_of(
            match body {
                Some(b) => Some(*b),
                None => None,
            },
            gate.is_blocked,
        ),
{
    match body {
        None => PollRoute::ReturnRaw,
        Some(ContentBody::Receipt { .. }) => PollRoute::ApplyReceipt,
        Some(ContentBody::Text { .. }) => if gate.is_blocked {
            PollRoute::DropBlocked
        } else {
            PollRoute::ReturnText
        },
        Some(ContentBody::GroupContext { .. }) => PollRoute::StoreGroupAndReturn,
        Some(ContentBody::SenderKeyDistribution { .. }) => PollRoute::InstallSenderKey,
        Some(ContentBody::GroupMessage { .. }) => PollRoute::OpenGroupMessage,
        Some(ContentBody::TimerChange { .. }) => PollRoute::SaveTimer,
        Some(ContentBody::Edit { .. }) => PollRoute::ApplyEdit,
        Some(ContentBody::Delete { .. }) => PollRoute::ApplyDelete,
        Some(ContentBody::Reaction { .. }) => PollRoute::ApplyReaction,
    }
}

/// The ids to acknowledge after a poll: all fetched ids, in order, once every
/// fetched message decrypted; none when one failed to decrypt (the poll
/// stops there, and the server delivers them again) or nothing was fetched.
pub fn poll_ack_ids(ids: &Vec<i64>, all_decrypted: bool) -> (r: Option<Vec<i64>>)
    ensures
        r is Some <==> (all_decrypted && ids@.len() > 0),
        r matches Some(v) ==> v@ == ids@,
{
    if !all_decrypted || ids.len() == 0 {
        return None;
    }
    let mut v: Vec<i64> = Vec::new();
    let mut i: usize = 0;
    while i < ids.len()
        invariant
            i <= ids@.len(),
            v@ == ids@.subrange(0, i as int),
        decreases ids@.len() - i,
    {
        v.push(ids[i]);
        assert(v@ =~= ids@.subrange(0, i + 1));
        i = i + 1;
    }
    assert(ids@.subrange(0, ids@.len() as int) =~= ids@);
    Some(v)
}

/// The disappearing-message timer a timer change sets: off for zero.
pub fn timer_expiry(expiry_secs: u32) -> (r: Option<u32>)
    ensures
        r == (if expiry_secs > 0 { Some(expiry_secs) } else { None }),
{
    if expiry_secs > 0 {
        Some(expiry_secs)
    } else {
        None
    }
}

/// Whether an inbound delete is honoured: only a delete for everyone, and
/// only when its authenticated sender wrote the target message.
pub fn delete_applies(for_everyone: bool, target_author: &str, sender_did: &str) -> (r: bool)
    ensures
        r == (for_everyone && target_author@ == sender_did@),
{
    for_everyone && str_eq(target_author, sender_did)
}

/// The event of an applied edit of the sender's message sent at
/// `target_sent_at`; `op_sent_at` is the edit's own time.
pub fn edit_event(conversation_id: &str, sender_did: &str, target_sent_at: u64, new_body: &str, op_sent_at: u64) -> (r: IncomingEvent)
    ensures
        r matches IncomingEvent::MessageEdited { conversation_id: c, author_did: a, sent_at_ms: s, new_body: b, edited_at_ms: e }
            && c@ == conversation_id@ && a@ == sender_did@ && s == target_sent_at as i64 && b@ == new_body@ && e == op_sent_at as i64,
{
    IncomingEvent::MessageEdited {
        conversation_id: String::from_str(conversation_id),
        author_did: String::from_str(sender_did),
        sent_at_ms: target_sent_at as i64,
        new_body: String::from_str(new_body),
        edited_at_ms: op_sent_at as i64,
    }
}

/// The event of an applied delete of `target_author`'s message.
pub fn delete_event(conversation_id: &str, target_author: &str, target_sent_at: u64) -> (r: IncomingEvent)
    ensures
        r matches IncomingEvent::MessageDeleted { conversation_id: c, author_did: a, sent_at_ms: s }
            && c@ == conversation_id@ && a@ == target_author@ && s == target_sent_at as i64,
{
    IncomingEvent::MessageDeleted {
        conversation_id: String::from_str(conversation_id),
        author_did: String::from_str(target_author),
        sent_at_ms: target_sent_at as i64,
    }
}

/// The event of an applied reaction by `reactor_did` on `target_author`'s
/// message.
pub fn reaction_event(
    conversation_id: &str,
    target_author: &str,
    target_sent_at: u64,
    reactor_did: &str,
    emoji: &str,
    removed: bool,
) -> (r: IncomingEvent)
    ensures
        r matches IncomingEvent::ReactionUpdated { conversation_id: c, target_author: a, target_sent_at_ms: s, reactor_did: d, emoji: e, removed: x }
            && c@ == conversation_id@ && a@ == target_author@ && s == target_sent_at as i64 && d@ == reactor_did@ && e@ == emoji@ && x == removed,
{
    IncomingEvent::ReactionUpdated {
        conversation_id: String::from_str(conversation_id),
        target_author: String::from_str(target_author),
        target_sent_at_ms: target_sent_at as i64,
        reactor_did: String::from_str(reactor_did),
        emoji: String::from_str(emoji),
        removed,
    }
}

// ── sending ─────────────────────────────────────────────────────────────────

/// The invite a group member sends a new member: the group's master key and
/// hosting server, who invited and when, with our profile key.
pub fn group_context_message(
    master_key: &[u8],
    hosting_server_url: &str,
    inviter_did: &str,
    now_ms: i64,
    profile_key: &[u8],
) -> (r: ContentMessage)
    ensures
        r.body matches Some(ContentBody::GroupContext { group_master_key, hosting_server_url: url, inviter_did: inviter, invited_at_ms, invite_link_password })
            && group_master_key@ == master_key@ && url@ == hosting_server_url@ && inviter@ == inviter_did@
            && invited_at_ms == now_ms && invite_link_password@.len() == 0,
        r.timestamp_ms == now_ms as u64,
        r.profile_key@ == profile_key@,
        r.expire_timer_secs == 0,
{
    ContentMessage {
        body: Some(
            ContentBody::GroupContext {
                group_master_key: crate::bytes::copy_all(master_key),
                hosting_server_url: String::from_str(hosting_server_url),
                inviter_did: String::from_str(inviter_did),
                invited_at_ms: now_ms,
                invite_link_password: Vec::new(),
            },
        ),
        timestamp_ms: now_ms as u64,
        profile_key: crate::bytes::copy_all(profile_key),
        expire_timer_secs: 0,
    }
}

/// The message shipping our sender key for a group, with no profile key.
pub fn sender_key_message(group_id: &[u8], distribution_id: &[u8], skdm: &[u8], now_ms: i64) -> (r: ContentMessage)
    ensures
        r.body matches Some(ContentBody::SenderKeyDistribution { group_id: g, distribution_id: d, skdm: k })
            && g@ == group_id@ && d@ == distribution_id@ && k@ == skdm@,
        r.timestamp_ms == now_ms as u64,
        r.profile_key@.len() == 0,
        r.expire_timer_secs == 0,
{
    ContentMessage {
        body: Some(
            ContentBody::SenderKeyDistribution {
                group_id: crate::bytes::copy_all(group_id),
                distribution_id: crate::bytes::copy_all(distribution_id),
                skdm: crate::bytes::copy_all(skdm),
            },
        ),
        timestamp_ms: now_ms as u64,
        profile_key: Vec::new(),
        expire_timer_secs: 0,
    }
}

/// Wire code of a ratchet message kind: `0` for a prekey message, `1` for a
/// whisper message.
pub fn message_kind_code(is_prekey: bool) -> (r: i32)
    ensures
        r == (if is_prekey { 0i32 } else { 1i32 }),
{
    if is_prekey {
        0
    } else {
        1
    }
}

/// Whether a device's session must be rebuilt before a group send: we hold
/// one whose registration id differs from the server's.
pub fn session_is_stale(current_registration: Option<u32>, server_registration: u32) -> (r: bool)
    ensures
        r == (current_registration matches Some(reg) && reg != server_registration),
{
    match current_registration {
        Some(reg) => reg != server_registration,
        None => false,
    }
}

/// Whether `device_id` is among the devices the server reported stale.
pub fn must_refresh(device_id: i32, stale_ids: &[i32]) -> (r: bool)
    ensures
        r == stale_ids@.contains(device_id),
{
    let mut i: usize = 0;
    while i < stale_ids.len()
        invariant
            0 <= i <= stale_ids@.len(),
            forall|j: int| 0 <= j < i ==> stale_ids@[j] != device_id,
        decreases stale_ids@.len() - i,
    {
        if stale_ids[i] == device_id {
            return true;
        }
        i = i + 1;
    }
    false
}


// ── surfaced messages ───────────────────────────────────────────────────────

/// An inbound text as surfaced: the text's UTF-8 becomes the plaintext and
/// its claimed send time is recorded; all else is kept.
pub fn text_message(decrypted: DecryptedMessage, body: &str, sent_at: Option<i64>) -> (r: DecryptedMessage)
    ensures
        r.plaintext@ == vstd::utf8::encode_utf8(body@),
        r.sent_at_ms == sent_at,
        r.server_id == decrypted.server_id,
        r.sender_did == decrypted.sender_did,
        r.sender_device_id == decrypted.sender_device_id,
        r.group_id == decrypted.group_id,
        r.profile_key == decrypted.profile_key,
        r.is_request == decrypted.is_request,
{
    DecryptedMessage {
        plaintext: crate::bytes::copy_all(body.as_bytes()),
        sent_at_ms: sent_at,
        ..decrypted
    }
}

/// A decrypted group message as surfaced: its plaintext replaces the
/// envelope's and it is tagged with the group's base64 id.
pub fn group_message(decrypted: DecryptedMessage, plaintext: Vec<u8>, group_id: &[u8]) -> (r: DecryptedMessage)
    ensures
        r.plaintext == plaintext,
        r.group_id matches Some(g) && g@ == crate::prims::b64url(group_id@),
        r.server_id == decrypted.server_id,
        r.sender_did == decrypted.sender_did,
        r.sender_device_id == decrypted.sender_device_id,
        r.sent_at_ms == decrypted.sent_at_ms,
        r.profile_key == decrypted.profile_key,
        r.is_request == decrypted.is_request,
{
    DecryptedMessage { plaintext, group_id: Some(crate::groups::b64(group_id)), ..decrypted }
}

} // verus!
