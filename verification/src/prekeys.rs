//! Prekey wire records and the refill of the one-time prekey pools.
//!
//! The server consumes one one-time prekey per first-contact session; when it
//! reports a pool below the threshold, the pool is topped back up to the
//! registration count with freshly allocated, never reused ids.
use vstd::prelude::*;

verus! {

/// A signed EC prekey in wire format.
pub struct SignedPreKey {
    pub id: u32,
    pub public_key: Vec<u8>,
    pub signature: Vec<u8>,
}

/// A one-time EC prekey in wire format.
pub struct OneTimePreKey {
    pub id: u32,
    pub public_key: Vec<u8>,
}

/// A signed Kyber (post-quantum) prekey in wire format.
pub struct KyberPreKey {
    pub id: u32,
    pub public_key: Vec<u8>,
    pub signature: Vec<u8>,
}

/// What a device publishes on registration or prekey refresh.
pub struct LocalKeyBundle {
    pub identity_key: Vec<u8>,
    pub signed_prekey: SignedPreKey,
    pub one_time_prekeys: Vec<OneTimePreKey>,
    pub kyber_prekey: KyberPreKey,
}

/// What is fetched to start a session with another device.
pub struct RecipientKeyBundle {
    pub identity_key: Vec<u8>,
    pub registration_id: u32,
    pub device_id: u32,
    pub signed_prekey: SignedPreKey,
    /// Absent when the recipient's one-time pool was empty.
    pub one_time_prekey: Option<OneTimePreKey>,
    pub kyber_prekey: KyberPreKey,
}

/// A generated signed EC prekey with its serialized record for the store.
pub struct GeneratedSignedPreKey {
    pub wire: SignedPreKey,
    pub record: Vec<u8>,
}

/// A generated one-time EC prekey with its serialized record for the store.
pub struct GeneratedOneTimePreKey {
    pub wire: OneTimePreKey,
    pub record: Vec<u8>,
}

/// A generated signed Kyber prekey with its serialized record for the store.
pub struct GeneratedKyberPreKey {
    pub wire: KyberPreKey,
    pub record: Vec<u8>,
}

/// A pool is refilled once the server reports it below this many keys.
pub const LOW_THRESHOLD: i64 = 10;
/// A low pool is brought back up to this many keys, the registration count.
pub const REFILL_TARGET: i64 = 20;

/// How many keys to add to a pool the server reports holding `remaining`:
/// none unless it is below the threshold, else enough to reach the target.
pub fn refill_count(remaining: i64) -> (r: Option<u32>)
    requires
        REFILL_TARGET - remaining <= i64::MAX,
    ensures
        r == (if remaining < LOW_THRESHOLD {
            Some((REFILL_TARGET - remaining) as u32)
        } else {
            None
        }),
{
    if remaining < LOW_THRESHOLD {
        Some((REFILL_TARGET - remaining) as u32)
    } else {
        None
    }
}

/// The `count` consecutive ids starting at `start` that a refill allocates.
pub fn refill_ids(start: u32, count: u32) -> (r: Vec<u32>)
    requires
        start + count <= u32::MAX,
    ensures
        r@.len() == count,
        forall|i: int| 0 <= i < count ==> r@[i] == start + i,
{
    let mut out: Vec<u32> = Vec::new();
    let mut i: u32 = 0;
    while i < count
        invariant
            i <= count,
            start + count <= u32::MAX,
            out@.len() == i,
            forall|j: int| 0 <= j < i ==> out@[j] == start + j,
        decreases count - i,
    {
        out.push(start + i);
        i = i + 1;
    }
    out
}

/// The upload entries `(id, public key)` of generated one-time EC prekeys, in
/// order; ids travel as `i32`.
pub fn one_time_upload(keys: &Vec<GeneratedOneTimePreKey>) -> (r: Vec<(i32, Vec<u8>)>)
    ensures
        r@.len() == keys@.len(),
        forall|i: int|
            0 <= i < keys@.len() ==> (#[trigger] r@[i]).0 == keys@[i].wire.id as i32
                && r@[i].1@ == keys@[i].wire.public_key@,
{
    let mut out: Vec<(i32, Vec<u8>)> = Vec::new();
    let mut i: usize = 0;
    while i < keys.len()
        invariant
            0 <= i <= keys@.len(),
            out@.len() == i,
            forall|j: int|
                0 <= j < i ==> (#[trigger] out@[j]).0 == keys@[j].wire.id as i32
                    && out@[j].1@ == keys@[j].wire.public_key@,
        decreases keys@.len() - i,
    {
        let k = &keys[i];
        out.push((k.wire.id as i32, crate::bytes::copy_all(k.wire.public_key.as_slice())));
        i = i + 1;
    }
    out
}

/// The upload entries `(id, public key, signature)` of generated Kyber
/// prekeys, in order; ids travel as `i32`.
pub fn kyber_upload(keys: &Vec<GeneratedKyberPreKey>) -> (r: Vec<(i32, Vec<u8>, Vec<u8>)>)
    ensures
        r@.len() == keys@.len(),
        forall|i: int|
            0 <= i < keys@.len() ==> (#[trigger] r@[i]).0 == keys@[i].wire.id as i32
                && r@[i].1@ == keys@[i].wire.public_key@ && r@[i].2@ == keys@[i].wire.signature@,
{
    let mut out: Vec<(i32, Vec<u8>, Vec<u8>)> = Vec::new();
    let mut i: usize = 0;
    while i < keys.len()
        invariant
            0 <= i <= keys@.len(),
            out@.len() == i,
            forall|j: int|
                0 <= j < i ==> (#[trigger] out@[j]).0 == keys@[j].wire.id as i32
                    && out@[j].1@ == keys@[j].wire.public_key@ && out@[j].2@ == keys@[j].wire.signature@,
        decreases keys@.len() - i,
    {
        let k = &keys[i];
        out.push(
            (
                k.wire.id as i32,
                crate::bytes::copy_all(k.wire.public_key.as_slice()),
                crate::bytes::copy_all(k.wire.signature.as_slice()),
            ),
        );
        i = i + 1;
    }
    out
}

/// The records `(id, serialized record)` the store keeps for generated
/// one-time EC prekeys, in order.
pub fn one_time_records(keys: &Vec<GeneratedOneTimePreKey>) -> (r: Vec<(u32, Vec<u8>)>)
    ensures
        r@.len() == keys@.len(),
        forall|i: int|
            0 <= i < keys@.len() ==> (#[trigger] r@[i]).0 == keys@[i].wire.id && r@[i].1@
                == keys@[i].record@,
{
    let mut out: Vec<(u32, Vec<u8>)> = Vec::new();
    let mut i: usize = 0;
    while i < keys.len()
        invariant
            0 <= i <= keys@.len(),
            out@.len() == i,
            forall|j: int|
                0 <= j < i ==> (#[trigger] out@[j]).0 == keys@[j].wire.id && out@[j].1@
                    == keys@[j].record@,
        decreases keys@.len() - i,
    {
        out.push((keys[i].wire.id, crate::bytes::copy_all(keys[i].record.as_slice())));
        i = i + 1;
    }
    out
}

/// The records `(id, serialized record)` the store keeps for generated Kyber
/// prekeys, in order.
pub fn kyber_records(keys: &Vec<GeneratedKyberPreKey>) -> (r: Vec<(u32, Vec<u8>)>)
    ensures
        r@.len() == keys@.len(),
        forall|i: int|
            0 <= i < keys@.len() ==> (#[trigger] r@[i]).0 == keys@[i].wire.id && r@[i].1@
                == keys@[i].record@,
{
    let mut out: Vec<(u32, Vec<u8>)> = Vec::new();
    let mut i: usize = 0;
    while i < keys.len()
        invariant
            0 <= i <= keys@.len(),
            out@.len() == i,
            forall|j: int|
                0 <= j < i ==> (#[trigger] out@[j]).0 == keys@[j].wire.id && out@[j].1@
                    == keys@[j].record@,
        decreases keys@.len() - i,
    {
        out.push((keys[i].wire.id, crate::bytes::copy_all(keys[i].record.as_slice())));
        i = i + 1;
    }
    out
}

/// A refill never leaves a low pool short: after adding `refill_count`
/// keys a pool holds the target, and a pool at or above the threshold is
/// left alone.
pub proof fn law_refill_reaches_target(remaining: i64)
    requires
        0 <= remaining,
    ensures
        remaining < LOW_THRESHOLD ==> remaining + (REFILL_TARGET - remaining) as u32 == REFILL_TARGET,
{
}

} // verus!
