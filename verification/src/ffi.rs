//! Flat records handed to foreign callers.
use vstd::prelude::*;

verus! {

/// A project installed on the homeserver.
pub struct ProjectInfoFfi {
    pub name: String,
    pub url: String,
    pub description: String,
}

/// A stored chat message or system timeline row.
pub struct StoredMessageFfi {
    pub id: String,
    pub conversation_id: String,
    pub sender_did: String,
    pub body: String,
    pub sent_at_ms: i64,
    pub edited_at_ms: Option<i64>,
    pub read_at_ms: Option<i64>,
    pub delivery_status: u8,
    pub edit_count: u32,
    pub deleted: bool,
    /// `0` for a chat message; above zero a system timeline entry.
    pub kind: i64,
    /// JSON details of a system row.
    pub metadata: Option<String>,
    pub expire_timer_secs: u32,
    pub expire_at_ms: Option<i64>,
}

/// A conversation with its latest message.
pub struct ConversationSummaryFfi {
    pub conversation_id: String,
    pub last_message: Option<StoredMessageFfi>,
}

/// A contact row.
pub struct ContactRowFfi {
    pub did: String,
    pub display_name: String,
    pub is_curated: bool,
    pub last_interaction_at_ms: i64,
}

/// What the homeserver says of an account.
pub struct AccountInfoFfi {
    pub did: String,
    pub display_name: Option<String>,
    pub is_bot: bool,
}

/// What an invite link resolves to.
pub struct InviteInfo {
    pub server_url: String,
    pub server_name: String,
    pub inviter_did: Option<String>,
    pub post_onboarding_redirect: Option<String>,
    pub inviter_display_name: Option<String>,
    pub inviter_profile_key: Option<Vec<u8>>,
}

/// An event for administrators.
pub enum AdminEvent {
    /// A new account registered on the homeserver.
    AccountJoined { did: String, joined_at_ms: i64 },
}

} // verus!
