//! Decisions of the background connection loop: the connection state shown
//! to the application, the reconnect backoff, and the group push
//! subscription set.
use vstd::prelude::*;

use crate::ffi::AdminEvent;

verus! {

/// Connection liveness as shown to the application.
#[derive(Clone, Copy, Debug, PartialEq, Eq, Structural)]
pub enum ConnectionState {
    Disconnected,
    Connecting,
    Connected,
    /// Waiting to retry; the next attempt is due at this time.
    Reconnecting { next_attempt_at_ms: i64 },
}

/// First and reset backoff, in seconds.
pub const BACKOFF_MIN_SECS: u64 = 1;
/// Largest backoff, in seconds.
pub const BACKOFF_MAX_SECS: u64 = 30;
/// A connection that lived at least this long counts as usable and resets
/// the backoff; one that dropped sooner does not.
pub const USABLE_CONNECTION_MS: u64 = 5000;

/// The backoff after a connection ended: reset when the connection lived long
/// enough to be usable, else kept (so a flapping server is not retried in a
/// tight loop).
pub fn backoff_after_connection(backoff_secs: u64, lived_ms: u64) -> (r: u64)
    ensures
        r == (if lived_ms >= USABLE_CONNECTION_MS { BACKOFF_MIN_SECS } else { backoff_secs }),
{
    if lived_ms >= USABLE_CONNECTION_MS {
        BACKOFF_MIN_SECS
    } else {
        backoff_secs
    }
}

/// The backoff after waiting it out: doubled up to the cap when the wait ran
/// its course, reset when a reconnect signal cut it short.
pub fn backoff_after_wait(backoff_secs: u64, woken_early: bool) -> (r: u64)
    requires
        backoff_secs <= BACKOFF_MAX_SECS,
    ensures
        r == (if woken_early {
            BACKOFF_MIN_SECS
        } else if backoff_secs * 2 < BACKOFF_MAX_SECS {
            (backoff_secs * 2) as u64
        } else {
            BACKOFF_MAX_SECS
        }),
{
    if woken_early {
        BACKOFF_MIN_SECS
    } else if backoff_secs * 2 < BACKOFF_MAX_SECS {
        backoff_secs * 2
    } else {
        BACKOFF_MAX_SECS
    }
}

/// The state published while waiting `sleep_ms` from `now_ms`.
pub fn reconnecting_state(now_ms: i64, sleep_ms: u64) -> (r: ConnectionState)
    requires
        sleep_ms <= i64::MAX,
        now_ms + sleep_ms <= i64::MAX,
    ensures
        r == (ConnectionState::Reconnecting { next_attempt_at_ms: (now_ms + sleep_ms) as i64 }),
{
    ConnectionState::Reconnecting { next_attempt_at_ms: now_ms + sleep_ms as i64 }
}

/// The backoff stays between one and thirty seconds whatever happens: every
/// step of the loop maps that range into itself.
pub proof fn law_backoff_bounded(backoff_secs: u64, lived_ms: u64, woken_early: bool)
    requires
        BACKOFF_MIN_SECS <= backoff_secs <= BACKOFF_MAX_SECS,
    ensures
        ({
            let after = if lived_ms >= USABLE_CONNECTION_MS { BACKOFF_MIN_SECS } else { backoff_secs };
            let next = if woken_early {
                BACKOFF_MIN_SECS
            } else if after * 2 < BACKOFF_MAX_SECS {
                (after * 2) as u64
            } else {
                BACKOFF_MAX_SECS
            };
            BACKOFF_MIN_SECS <= next <= BACKOFF_MAX_SECS
        }),
{
}

/// The push pseudonyms to subscribe a live connection to: every group's
/// pseudonym, in the order of the groups (groups without one are skipped);
/// `None` when there is none, so nothing is sent. The server replaces the
/// connection's whole subscription with the list, so it is always complete.
pub fn subscription_set(pseudonyms: &Vec<Option<Vec<u8>>>) -> (r: Option<Vec<Vec<u8>>>)
    ensures
        r is None <==> forall|i: int| 0 <= i < pseudonyms@.len() ==> (#[trigger] pseudonyms@[i]) is None,
        r matches Some(v) ==> v@.map_values(|b: Vec<u8>| b@) == present_pseudonyms(pseudonyms@),
{
    let mut out: Vec<Vec<u8>> = Vec::new();
    let mut i: usize = 0;
    while i < pseudonyms.len()
        invariant
            0 <= i <= pseudonyms@.len(),
            out@.map_values(|b: Vec<u8>| b@) == present_pseudonyms(pseudonyms@.subrange(0, i as int)),
            out@.len() == 0 <==> forall|j: int| 0 <= j < i ==> (#[trigger] pseudonyms@[j]) is None,
        decreases pseudonyms@.len() - i,
    {
        proof {
            assert(pseudonyms@.subrange(0, i + 1).drop_last() =~= pseudonyms@.subrange(0, i as int));
        }
        match &pseudonyms[i] {
            Some(p) => {
                let ghost before = out@;
                out.push(crate::bytes::copy_all(p.as_slice()));
                proof {
                    assert(out@.map_values(|b: Vec<u8>| b@) =~= before.map_values(|b: Vec<u8>| b@).push(p@));
                }
            },
            None => {},
        }
        i = i + 1;
    }
    proof {
        assert(pseudonyms@.subrange(0, pseudonyms@.len() as int) =~= pseudonyms@);
    }
    if out.len() == 0 {
        None
    } else {
        Some(out)
    }
}

// ── the receive loop ────────────────────────────────────────────────────────

/// What a live connection handed over next.
pub enum StreamEvent {
    /// The set of groups changed while connected.
    GroupsChanged,
    /// A 1:1 delivery and whether it decrypted.
    Direct { ack_token: u64, decrypted: bool },
    /// The homeserver announced a new account.
    AccountJoined { did: String, joined_at_ms: i64 },
    /// The server reported a pre-key pool running low.
    PrekeyLow,
    /// Durable storage changed on another device of the account.
    StorageChanged,
    /// A group delivery and whether it opened.
    Group { ack_token: u64, decrypted: bool },
    /// One of the connection's streams ended or failed.
    Closed,
}

/// One thing the loop does, in the order the loop does them.
pub enum StreamAction {
    /// Send the whole pseudonym subscription again.
    Resubscribe,
    /// Acknowledge a 1:1 delivery with this token.
    AckDirect(u64),
    /// Acknowledge a group delivery with this token.
    AckGroup(u64),
    /// Hand the decrypted content to the content pipeline.
    Process,
    /// Surface this on the admin queue.
    Surface(AdminEvent),
    /// Top up the pre-key pools.
    Replenish,
    /// Pull storage changes now.
    SyncStorage,
    /// Leave the loop: the connection is gone.
    Stop,
}

/// The value of an action.
pub enum ActionView {
    Resubscribe,
    AckDirect(u64),
    AckGroup(u64),
    Process,
    Surface { did: Seq<char>, joined_at_ms: i64 },
    Replenish,
    SyncStorage,
    Stop,
}

/// The value of `a`.
pub open spec fn action_view(a: StreamAction) -> ActionView {
    match a {
        StreamAction::Resubscribe => ActionView::Resubscribe,
        StreamAction::AckDirect(t) => ActionView::AckDirect(t),
        StreamAction::AckGroup(t) => ActionView::AckGroup(t),
        StreamAction::Process => ActionView::Process,
        StreamAction::Surface(AdminEvent::AccountJoined { did, joined_at_ms }) => ActionView::Surface {
            did: did@,
            joined_at_ms,
        },
        StreamAction::Replenish => ActionView::Replenish,
        StreamAction::SyncStorage => ActionView::SyncStorage,
        StreamAction::Stop => ActionView::Stop,
    }
}

/// The values of a list of actions.
pub open spec fn action_views(s: Seq<StreamAction>) -> Seq<ActionView> {
    s.map_values(|a: StreamAction| action_view(a))
}

/// What the receive loop does with `ev`, in order. A delivery is acknowledged
/// first, whether or not it decrypted (one that did not is unrecoverable for
/// this session, and the server would push it again); only one that decrypted
/// then goes on to the content pipeline. The end of any stream ends the loop.
pub open spec fn receive_plan(ev: StreamEvent) -> Seq<ActionView> {
    match ev {
        StreamEvent::GroupsChanged => seq![ActionView::Resubscribe],
        StreamEvent::Direct { ack_token, decrypted } => if decrypted {
            seq![ActionView::AckDirect(ack_token), ActionView::Process]
        } else {
            seq![ActionView::AckDirect(ack_token)]
        },
        StreamEvent::AccountJoined { did, joined_at_ms } => seq![
            ActionView::Surface { did: did@, joined_at_ms },
        ],
        StreamEvent::PrekeyLow => seq![ActionView::Replenish],
        StreamEvent::StorageChanged => seq![ActionView::SyncStorage],
        StreamEvent::Group { ack_token, decrypted } => if decrypted {
            seq![ActionView::AckGroup(ack_token), ActionView::Process]
        } else {
            seq![ActionView::AckGroup(ack_token)]
        },
        StreamEvent::Closed => seq![ActionView::Stop],
    }
}

/// The receive loop's decision on one event: the actions to perform, in order.
pub fn receive_step(ev: StreamEvent) -> (r: Vec<StreamAction>)
    ensures
        action_views(r@) == receive_plan(ev),
{
    let mut out: Vec<StreamAction> = Vec::new();
    match ev {
        StreamEvent::GroupsChanged => {
            out.push(StreamAction::Resubscribe);
        },
        StreamEvent::Direct { ack_token, decrypted } => {
            out.push(StreamAction::AckDirect(ack_token));
            if decrypted {
                out.push(StreamAction::Process);
            }
        },
        StreamEvent::AccountJoined { did, joined_at_ms } => {
            out.push(StreamAction::Surface(AdminEvent::AccountJoined { did, joined_at_ms }));
        },
        StreamEvent::PrekeyLow => {
            out.push(StreamAction::Replenish);
        },
        StreamEvent::StorageChanged => {
            out.push(StreamAction::SyncStorage);
        },
        StreamEvent::Group { ack_token, decrypted } => {
            out.push(StreamAction::AckGroup(ack_token));
            if decrypted {
                out.push(StreamAction::Process);
            }
        },
        StreamEvent::Closed => {
            out.push(StreamAction::Stop);
        },
    }
    assert(action_views(out@) =~= receive_plan(ev));
    out
}

/// Every delivery is acknowledged exactly once and first, whether or not it
/// decrypted; the loop goes on after it; its content reaches the pipeline
/// only when it decrypted, and then only after the acknowledgement.
pub proof fn law_every_delivery_acked(ev: StreamEvent)
    requires
        ev is Direct || ev is Group,
    ensures
        receive_plan(ev).len() >= 1,
        receive_plan(ev)[0] == (match ev {
            StreamEvent::Direct { ack_token, .. } => ActionView::AckDirect(ack_token),
            StreamEvent::Group { ack_token, .. } => ActionView::AckGroup(ack_token),
            _ => ActionView::Stop,
        }),
        forall|i: int| 1 <= i < receive_plan(ev).len() ==> receive_plan(ev)[i] == ActionView::Process,
        !receive_plan(ev).contains(ActionView::Stop),
        receive_plan(ev).contains(ActionView::Process) <==> (match ev {
            StreamEvent::Direct { decrypted, .. } => decrypted,
            StreamEvent::Group { decrypted, .. } => decrypted,
            _ => false,
        }),
{
    let p = receive_plan(ev);
    if p.contains(ActionView::Stop) {
        let k = choose|k: int| 0 <= k < p.len() && p[k] == ActionView::Stop;
        assert(p[k] == ActionView::Stop);
    }
    match ev {
        StreamEvent::Direct { decrypted, .. } => {
            if decrypted { assert(p[1] == ActionView::Process); }
            if p.contains(ActionView::Process) {
                let k = choose|k: int| 0 <= k < p.len() && p[k] == ActionView::Process;
                assert(p[k] == ActionView::Process);
            }
        },
        StreamEvent::Group { decrypted, .. } => {
            if decrypted { assert(p[1] == ActionView::Process); }
            if p.contains(ActionView::Process) {
                let k = choose|k: int| 0 <= k < p.len() && p[k] == ActionView::Process;
                assert(p[k] == ActionView::Process);
            }
        },
        _ => {},
    }
}

/// The pseudonyms present, in order.
pub open spec fn present_pseudonyms(ps: Seq<Option<Vec<u8>>>) -> Seq<Seq<u8>>
    decreases ps.len(),
{
    if ps.len() == 0 {
        Seq::empty()
    } else {
        let rest = present_pseudonyms(ps.drop_last());
        match ps.last() {
            Some(p) => rest.push(p@),
            None => rest,
        }
    }
}

} // verus!
