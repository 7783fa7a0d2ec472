//! Replaying a group's change history into timeline entries, and settling a
//! batch of queued group messages.
use vstd::prelude::*;
use vstd::string::*;

use crate::group_events::{
    change_events, ctx_of, derive_change_events, emi_to_did, events_view, is_first, label,
    law_removal_entries, lemma_first_index, member_keys, only_removals, who, ChangeContext, Ctx,
    EventSpec, GroupEventKind, GroupMetadataEvent,
};
use crate::groups::{GroupState, ReceivedGroupMessage};
use crate::net_groups::GroupActionsWire;

verus! {

// ── change history ──────────────────────────────────────────────────────────

/// One decoded row of a group's change history. The row holds the state at
/// `revision`; its actions lead to `revision + 1`.
pub struct HistoryEntry {
    pub revision: i64,
    /// The row's actions; `None` where they could not be decoded.
    pub actions: Option<GroupActionsWire>,
    /// base64 encrypted member id, under the group key, of the actor that the
    /// state at `revision + 1` names (see [`change_actor`]).
    pub actor_emi_b64: String,
}

/// Position of the state recorded last for `rev`, as a map that each later
/// insertion overwrites would hold it.
pub open spec fn state_index(states: Seq<(i64, GroupState)>, rev: int) -> Option<int>
    decreases states.len(),
{
    if states.len() == 0 {
        None
    } else if states.last().0 == rev {
        Some(states.len() - 1)
    } else {
        state_index(states.drop_last(), rev)
    }
}

/// A found position is in range and holds `rev`.
pub proof fn lemma_state_index(states: Seq<(i64, GroupState)>, rev: int)
    ensures
        match state_index(states, rev) {
            Some(i) => 0 <= i < states.len() && states[i].0 == rev,
            None => forall|j: int| 0 <= j < states.len() ==> states[j].0 != rev,
        },
    decreases states.len(),
{
    if states.len() > 0 {
        lemma_state_index(states.drop_last(), rev);
        if states.last().0 != rev {
            assert forall|j: int| 0 <= j < states.len() - 1 implies #[trigger] states[j].0 == states.drop_last()[j].0 by {}
        }
    }
}

/// The state recorded for `rev`, or `blank` where none is.
pub open spec fn state_or(states: Seq<(i64, GroupState)>, rev: int, blank: GroupState) -> GroupState {
    match state_index(states, rev) {
        Some(i) => states[i].1,
        None => blank,
    }
}

/// The state holds nothing.
pub open spec fn is_blank_state(s: GroupState) -> bool {
    &&& s.group_id@.len() == 0
    &&& s.created_at_ms == 0
    &&& s.creator_did@.len() == 0
    &&& s.revision == 0
    &&& s.last_change_actor_did@.len() == 0
    &&& s.title@.len() == 0
    &&& s.description@.len() == 0
    &&& s.expiry_seconds == 0
    &&& s.members@.len() == 0
    &&& s.pending_invites@.len() == 0
    &&& s.pending_approvals@.len() == 0
    &&& s.policy is None
}

/// The derivation context of one history row: the state before it, the state
/// after it, and the actor that the state after it names.
pub open spec fn entry_ctx(
    group_id: Seq<char>,
    e: HistoryEntry,
    states: Seq<(i64, GroupState)>,
    blank: GroupState,
    now: i64,
) -> Ctx {
    let post = state_or(states, e.revision + 1, blank);
    let actor = post.last_change_actor_did@;
    Ctx {
        group_id,
        rev: (e.revision + 1) as i64,
        actor,
        actor_emi: if actor.len() == 0 {
            Seq::empty()
        } else {
            e.actor_emi_b64@
        },
        pre: state_or(states, e.revision as int, blank),
        post,
        now,
    }
}

/// The timeline of a history: each decodable row's entries, in row order.
pub open spec fn history_events(
    group_id: Seq<char>,
    entries: Seq<HistoryEntry>,
    states: Seq<(i64, GroupState)>,
    blank: GroupState,
    now: i64,
) -> Seq<EventSpec>
    decreases entries.len(),
{
    if entries.len() == 0 {
        Seq::empty()
    } else {
        let earlier = history_events(group_id, entries.drop_last(), states, blank, now);
        match entries.last().actions {
            Some(a) => earlier + change_events(entry_ctx(group_id, entries.last(), states, blank, now), a),
            None => earlier,
        }
    }
}

/// A state that holds nothing.
pub fn blank_state() -> (r: GroupState)
    ensures
        is_blank_state(r),
{
    GroupState {
        group_id: Vec::new(),
        created_at_ms: 0,
        creator_did: String::new(),
        revision: 0,
        last_change_actor_did: String::new(),
        title: String::new(),
        description: String::new(),
        expiry_seconds: 0,
        members: Vec::new(),
        pending_invites: Vec::new(),
        pending_approvals: Vec::new(),
        policy: None,
    }
}

/// Position of the state recorded last for `rev`.
pub fn find_state(states: &Vec<(i64, GroupState)>, rev: i64) -> (r: Option<usize>)
    ensures
        r matches Some(i) ==> state_index(states@, rev as int) == Some(i as int),
        r is None ==> state_index(states@, rev as int) is None,
{
    let mut i: usize = states.len();
    assert(states@.take(i as int) =~= states@);
    while i > 0
        invariant
            i <= states.len(),
            state_index(states@, rev as int) == state_index(states@.take(i as int), rev as int),
        decreases i,
    {
        let ghost t = states@.take(i as int);
        assert(t.drop_last() =~= states@.take(i - 1));
        assert(t.last() == states@[i - 1]);
        if states[i - 1].0 == rev {
            return Some(i - 1);
        }
        i = i - 1;
    }
    assert(states@.take(0) =~= Seq::<(i64, GroupState)>::empty());
    None
}

/// The actor that the state after a row at `revision` names; empty where no
/// state is recorded for `revision + 1`.
pub fn change_actor(states: &Vec<(i64, GroupState)>, revision: i64) -> (r: String)
    requires
        revision < i64::MAX,
    ensures
        r@ == (match state_index(states@, revision + 1) {
            Some(i) => states@[i].1.last_change_actor_did@,
            None => Seq::<char>::empty(),
        }),
{
    proof {
        lemma_state_index(states@, revision + 1);
    }
    match find_state(states, revision + 1) {
        Some(i) => states[i].1.last_change_actor_did.clone(),
        None => String::new(),
    }
}

/// Replays a group's change history into timeline entries. `states` lists the
/// decrypted states by revision in the order they were recorded (a later one
/// for the same revision wins); a row whose state before or after is missing
/// is read against a blank state, and a row whose actions could not be
/// decoded gives no entry.
pub fn history_timeline(
    group_id_b64: &str,
    entries: &Vec<HistoryEntry>,
    states: &Vec<(i64, GroupState)>,
    now_ms: i64,
) -> (r: Vec<GroupMetadataEvent>)
    requires
        forall|i: int| 0 <= i < entries@.len() ==> #[trigger] entries@[i].revision < i64::MAX,
    ensures
        exists|blank: GroupState|
            #[trigger] is_blank_state(blank) && events_view(r@) == history_events(
                group_id_b64@,
                entries@,
                states@,
                blank,
                now_ms,
            ),
{
    let blank = blank_state();
    let mut out: Vec<GroupMetadataEvent> = Vec::new();
    let mut k: usize = 0;
    assert(entries@.take(0) =~= Seq::<HistoryEntry>::empty());
    while k < entries.len()
        invariant
            k <= entries.len(),
            is_blank_state(blank),
            forall|i: int| 0 <= i < entries@.len() ==> #[trigger] entries@[i].revision < i64::MAX,
            events_view(out@) == history_events(group_id_b64@, entries@.take(k as int), states@, blank, now_ms),
        decreases entries.len() - k,
    {
        let e = &entries[k];
        let ghost before = events_view(out@);
        let ghost upto = entries@.take(k + 1);
        assert(upto.drop_last() =~= entries@.take(k as int));
        assert(upto.last() == entries@[k as int]);
        assert(e.revision < i64::MAX);
        match &e.actions {
            None => {},
            Some(a) => {
                proof {
                    lemma_state_index(states@, e.revision as int);
                    lemma_state_index(states@, e.revision + 1);
                }
                let pre_at = find_state(states, e.revision);
                let post_at = find_state(states, e.revision + 1);
                let pre: &GroupState = match pre_at {
                    Some(i) => &states[i].1,
                    None => &blank,
                };
                let post: &GroupState = match post_at {
                    Some(i) => &states[i].1,
                    None => &blank,
                };
                let ctx = ChangeContext {
                    group_id_b64,
                    new_revision: e.revision + 1,
                    actor_did: post.last_change_actor_did.as_str(),
                    actor_emi_b64: e.actor_emi_b64.as_str(),
                    pre,
                    post,
                    now_ms,
                };
                assert(ctx_of(ctx) == entry_ctx(group_id_b64@, *e, states@, blank, now_ms));
                let mut evs = derive_change_events(&ctx, a);
                let ghost got = events_view(evs@);
                let ghost out_before = out@;
                out.append(&mut evs);
                assert(events_view(out@) =~= events_view(out_before) + got);
            },
        }
        k = k + 1;
    }
    assert(entries@.take(entries@.len() as int) =~= entries@);
    assert(is_blank_state(blank));
    out
}

/// Replaying a row that removes a member reads the member's DID from the
/// state recorded for the row's own revision, the state before the change,
/// even when the state after it no longer holds the member: the entry is a
/// removal by the actor the later state names, of that DID.
pub proof fn law_history_removal_names_removed_member(
    group_id: Seq<char>,
    e: HistoryEntry,
    before: GroupState,
    after: GroupState,
    blank: GroupState,
    now: i64,
    j: int,
)
    requires
        e.revision < i64::MAX,
        e.actions is Some,
        only_removals(e.actions.unwrap()),
        e.actions.unwrap().remove_members@.len() == 1,
        is_first(member_keys(before.members@), e.actions.unwrap().remove_members@[0]@, j),
        e.actor_emi_b64@ != e.actions.unwrap().remove_members@[0]@,
    ensures
        ({
            let evs = history_events(
                group_id,
                seq![e],
                seq![(e.revision, before), ((e.revision + 1) as i64, after)],
                blank,
                now,
            );
            &&& evs.len() == 1
            &&& evs[0].kind == GroupEventKind::MemberRemoved
            &&& evs[0].revision == e.revision + 1
            &&& evs[0].actor_did == after.last_change_actor_did@
            &&& evs[0].target_did == before.members@[j].did@
            &&& evs[0].summary == label(after.last_change_actor_did@) + " removed "@ + who(
                before.members@[j].did@,
                "a member"@,
            )
        }),
{
    let a = e.actions.unwrap();
    let states = seq![(e.revision, before), ((e.revision + 1) as i64, after)];
    assert(states.drop_last() =~= seq![(e.revision, before)]);
    assert(states.drop_last().drop_last() =~= Seq::<(i64, GroupState)>::empty());
    assert(state_index(states, e.revision + 1) == Some(1int));
    assert(state_index(states.drop_last(), e.revision as int) == Some(0int));
    assert(state_index(states, e.revision as int) == Some(0int));
    let c = entry_ctx(group_id, e, states, blank, now);
    assert(c.pre == before);
    assert(c.post == after);
    let entries = seq![e];
    assert(entries.drop_last() =~= Seq::<HistoryEntry>::empty());
    assert(entries.last() == e);
    assert(history_events(group_id, entries, states, blank, now) == change_events(c, a)) by {
        assert(e.actions == Some(a));
        assert(history_events(group_id, entries.drop_last(), states, blank, now) == Seq::<EventSpec>::empty());
        assert(Seq::<EventSpec>::empty() + change_events(c, a) =~= change_events(c, a));
    }
    law_removal_entries(c, a);
    lemma_first_index(member_keys(before.members@), a.remove_members@[0]@, j);
    assert(emi_to_did(before, a.remove_members@[0]@) == before.members@[j].did@);
}

// ── queued group messages ───────────────────────────────────────────────────

/// A queued group message once its envelope was opened.
pub struct OpenedGroupMessage {
    pub sender_did: String,
    pub sender_device_id: u32,
    pub plaintext: Vec<u8>,
}

/// What became of one queued group message: `None` where its envelope, its
/// sender certificate or its group decryption failed.
pub struct QueuedOutcome {
    pub message_id: i64,
    pub opened: Option<OpenedGroupMessage>,
}

/// The value of a delivered group message.
pub struct ReceivedView {
    pub message_id: i64,
    pub group_id: Seq<char>,
    pub sender_did: Seq<char>,
    pub sender_device_id: u32,
    pub plaintext: Seq<u8>,
}

/// The value of a delivered message.
pub open spec fn received_view(m: ReceivedGroupMessage) -> ReceivedView {
    ReceivedView {
        message_id: m.message_id,
        group_id: m.group_id_b64@,
        sender_did: m.sender_did@,
        sender_device_id: m.sender_device_id,
        plaintext: m.plaintext@,
    }
}

/// The values of delivered messages.
pub open spec fn received_views(s: Seq<ReceivedGroupMessage>) -> Seq<ReceivedView> {
    s.map_values(|m: ReceivedGroupMessage| received_view(m))
}

/// The messages that opened, in queue order, as delivered for `group_id`.
pub open spec fn opened_messages(group_id: Seq<char>, outs: Seq<QueuedOutcome>) -> Seq<ReceivedView>
    decreases outs.len(),
{
    if outs.len() == 0 {
        Seq::empty()
    } else {
        let earlier = opened_messages(group_id, outs.drop_last());
        match outs.last().opened {
            Some(o) => earlier.push(
                ReceivedView {
                    message_id: outs.last().message_id,
                    group_id,
                    sender_did: o.sender_did@,
                    sender_device_id: o.sender_device_id,
                    plaintext: o.plaintext@,
                },
            ),
            None => earlier,
        }
    }
}

/// The ids of queued messages, in queue order.
pub open spec fn outcome_ids(outs: Seq<QueuedOutcome>) -> Seq<i64> {
    outs.map_values(|o: QueuedOutcome| o.message_id)
}

/// Settles a batch of queued group messages: the messages that opened are
/// delivered in queue order, and every message is acknowledged, whether it
/// opened or not, so that none is served again.
pub fn settle_group_messages(group_id_b64: &str, outcomes: &Vec<QueuedOutcome>) -> (r: (
    Vec<ReceivedGroupMessage>,
    Vec<i64>,
))
    ensures
        received_views(r.0@) == opened_messages(group_id_b64@, outcomes@),
        r.1@ == outcome_ids(outcomes@),
{
    let mut delivered: Vec<ReceivedGroupMessage> = Vec::new();
    let mut acked: Vec<i64> = Vec::new();
    let mut k: usize = 0;
    while k < outcomes.len()
        invariant
            k <= outcomes.len(),
            received_views(delivered@) == opened_messages(group_id_b64@, outcomes@.take(k as int)),
            acked@ == outcome_ids(outcomes@.take(k as int)),
        decreases outcomes.len() - k,
    {
        let o = &outcomes[k];
        let ghost upto = outcomes@.take(k + 1);
        assert(upto.drop_last() =~= outcomes@.take(k as int));
        assert(upto.last() == outcomes@[k as int]);
        let ghost before = delivered@;
        match &o.opened {
            Some(m) => {
                let msg = ReceivedGroupMessage {
                    message_id: o.message_id,
                    group_id_b64: String::from_str(group_id_b64),
                    sender_did: m.sender_did.clone(),
                    sender_device_id: m.sender_device_id,
                    plaintext: m.plaintext.clone(),
                };
                delivered.push(msg);
                assert(received_views(delivered@) =~= received_views(before).push(received_view(msg)));
            },
            None => {},
        }
        acked.push(o.message_id);
        assert(acked@ =~= outcome_ids(upto));
        k = k + 1;
    }
    assert(outcomes@.take(outcomes@.len() as int) =~= outcomes@);
    (delivered, acked)
}

/// Every queued message of a batch is acknowledged, and no more than that.
pub proof fn law_every_queued_message_acked(group_id: Seq<char>, outs: Seq<QueuedOutcome>)
    ensures
        outcome_ids(outs).len() == outs.len(),
        forall|i: int| 0 <= i < outs.len() ==> #[trigger] outcome_ids(outs)[i] == outs[i].message_id,
        opened_messages(group_id, outs).len() <= outs.len(),
    decreases outs.len(),
{
    if outs.len() > 0 {
        law_every_queued_message_acked(group_id, outs.drop_last());
    }
}

} // verus!
