use vstd::prelude::*;

pub mod attachments;
pub mod bytes;
pub mod connection;
pub mod credentials;
pub mod ephemeral;
pub mod error;
pub mod ffi;
pub mod group_events;
pub mod group_history;
pub mod group_actions;
pub mod groups;
pub mod messaging;
pub mod net_groups;
pub mod net_types;
pub mod node;
pub mod plc;
pub mod prekeys;
pub mod prims;
pub mod profile;
pub mod provisioning;
pub mod recovery;
pub mod sealed_sender;
pub mod storage_sync;
pub mod text;

verus! {
} // verus!
