//! Storage-service sync: record framing, the per-type payload codecs, the
//! adapter registry, and the per-record decisions of the pull/push engine.
//!
//! - `record_id = HMAC-SHA256(storage_key, u16_be(TYPE_TAG) ‖ logical_key)[..16]`
//! - sealed record: `version(1) ‖ nonce(12) ‖ AES-256-GCM(storage_key, plaintext)`
//!   with `plaintext = u16_be(TYPE_TAG) ‖ u16_be(key_len) ‖ logical_key ‖ payload`.
//!
//! The engine's I/O (store reads and writes, the HTTP pull/push) is driven by
//! the caller; each decision it takes per record is a function here.
use vstd::prelude::*;
use vstd::string::*;
use vstd::utf8::*;

use crate::bytes::{
    append_bytes, copy_range, i64_be, i64_from_be, lemma_i64_round_trip, lemma_u16_round_trip,
    lemma_u32_round_trip, push_i64_be, push_u16_be, push_u32_be, read_i64_be, read_u16_be,
    read_u32_be, u16_be, u16_from_be, u32_be, u32_from_be,
};
use crate::error::{protocol, AppError};
use crate::prims::{
    aes256gcm_decrypt, aes256gcm_encrypt, aes_gcm_open, aes_gcm_p_max, aes_gcm_seal, hmac_sha256,
    hmac_sha256_tag, random_12, utf8_to_string,
};

verus! {

broadcast use vstd::utf8::encode_utf8_decode_utf8, vstd::utf8::encode_utf8_valid_utf8;

/// Version byte of the sealed record envelope.
pub const RECORD_VERSION: u8 = 1;
/// AES-GCM nonce length.
pub const NONCE_LEN: usize = 12;
/// Page size of a delta pull.
pub const PULL_LIMIT: i64 = 500;

/// Tag of synced group master keys.
pub const TYPE_GROUP_KEY: u16 = 1;
/// Tag of synced contacts.
pub const TYPE_CONTACT: u16 = 2;
/// Tag of synced per-conversation settings.
pub const TYPE_CONV_SETTINGS: u16 = 3;
/// Tag of synced contact profiles.
pub const TYPE_CONTACT_PROFILE: u16 = 4;

// ── record framing ──────────────────────────────────────────────────────────

/// Bytes the record id is computed over.
pub open spec fn record_id_message(type_tag: u16, logical_key: Seq<char>) -> Seq<u8> {
    u16_be(type_tag) + encode_utf8(logical_key)
}

/// The 16-byte record id of `(type_tag, logical_key)` under `storage_key`.
pub open spec fn spec_record_id(storage_key: Seq<u8>, type_tag: u16, logical_key: Seq<char>) -> Seq<
    u8,
> {
    hmac_sha256(storage_key, record_id_message(type_tag, logical_key)).subrange(0, 16)
}

/// `record_id = HMAC-SHA256(storage_key, u16_be(tag) ‖ logical_key)[..16]`.
pub fn record_id(storage_key: &[u8; 32], type_tag: u16, logical_key: &str) -> (r: Vec<u8>)
    ensures
        r@ == spec_record_id(storage_key@, type_tag, logical_key@),
        r@.len() == 16,
{
    let mut msg: Vec<u8> = Vec::new();
    push_u16_be(&mut msg, type_tag);
    append_bytes(&mut msg, logical_key.as_bytes());
    assert(msg@ =~= record_id_message(type_tag, logical_key@));
    let tag = hmac_sha256_tag(storage_key.as_slice(), msg.as_slice());
    copy_range(tag.as_slice(), 0, 16)
}

/// The authenticated plaintext of a sealed record.
pub open spec fn record_plaintext(type_tag: u16, logical_key: Seq<char>, payload: Seq<u8>) -> Seq<
    u8,
> {
    u16_be(type_tag) + u16_be(encode_utf8(logical_key).len() as u16) + encode_utf8(logical_key)
        + payload
}

/// Whether a record can be sealed: its key fits the 16-bit length field and
/// the plaintext is within AES-GCM's limit.
pub open spec fn sealable(logical_key: Seq<char>, payload: Seq<u8>) -> bool {
    &&& encode_utf8(logical_key).len() <= 0xffff
    &&& 4 + encode_utf8(logical_key).len() + payload.len() <= aes_gcm_p_max()
}

/// The envelope bytes for a record sealed under `nonce`.
pub open spec fn sealed_record(
    storage_key: Seq<u8>,
    nonce: Seq<u8>,
    type_tag: u16,
    logical_key: Seq<char>,
    payload: Seq<u8>,
) -> Seq<u8> {
    seq![RECORD_VERSION] + nonce + aes_gcm_seal(
        storage_key,
        nonce,
        record_plaintext(type_tag, logical_key, payload),
    )
}

/// Reads `(type_tag, logical_key, payload)` back out of a decrypted plaintext.
pub open spec fn parse_record_plaintext(pt: Seq<u8>) -> Option<(u16, Seq<char>, Seq<u8>)> {
    if pt.len() < 4 {
        None
    } else {
        let key_len = u16_from_be(pt[2], pt[3]) as int;
        if pt.len() < 4 + key_len {
            None
        } else {
            let kb = pt.subrange(4, 4 + key_len);
            if !valid_utf8(kb) {
                None
            } else {
                Some((u16_from_be(pt[0], pt[1]), decode_utf8(kb), pt.subrange(4 + key_len, pt.len() as int)))
            }
        }
    }
}

/// What opening `blob` under `storage_key` yields, if anything.
pub open spec fn open_record(storage_key: Seq<u8>, blob: Seq<u8>) -> Option<(u16, Seq<char>, Seq<u8>)> {
    if blob.len() < 1 + 12 + 16 || blob[0] != RECORD_VERSION {
        None
    } else {
        match aes_gcm_open(storage_key, blob.subrange(1, 13), blob.subrange(13, blob.len() as int)) {
            None => None,
            Some(pt) => parse_record_plaintext(pt),
        }
    }
}

/// Parsing a framed plaintext gives back what was framed.
pub proof fn lemma_parse_record_plaintext(type_tag: u16, logical_key: Seq<char>, payload: Seq<u8>)
    requires
        encode_utf8(logical_key).len() <= 0xffff,
    ensures
        parse_record_plaintext(record_plaintext(type_tag, logical_key, payload)) == Some(
            (type_tag, logical_key, payload),
        ),
{
    let kb = encode_utf8(logical_key);
    let n = kb.len() as u16;
    let pt = record_plaintext(type_tag, logical_key, payload);
    lemma_u16_round_trip(type_tag);
    lemma_u16_round_trip(n);
    assert(pt[0] == u16_be(type_tag)[0]);
    assert(pt[1] == u16_be(type_tag)[1]);
    assert(pt[2] == u16_be(n)[0]);
    assert(pt[3] == u16_be(n)[1]);
    assert(n as int == kb.len());
    assert(pt.subrange(4, 4 + kb.len() as int) =~= kb);
    assert(pt.subrange(4 + kb.len() as int, pt.len() as int) =~= payload);
}

/// Seals a record into the envelope under a fresh random nonce. `payload` is
/// empty for a tombstone.
pub fn seal(storage_key: &[u8; 32], type_tag: u16, logical_key: &str, payload: &[u8]) -> (r: Result<
    Vec<u8>,
    AppError,
>)
    ensures
        r is Ok <==> sealable(logical_key@, payload@),
        r matches Err(e) ==> e is Protocol,
        r matches Ok(b) ==> b@.len() >= 1 + 12 + 16 && b@ == sealed_record(
            storage_key@,
            b@.subrange(1, 13),
            type_tag,
            logical_key@,
            payload@,
        ),
{
    let key_bytes = logical_key.as_bytes();
    if key_bytes.len() > 0xffff {
        return Err(protocol("storage logical_key too long"));
    }
    let mut plaintext: Vec<u8> = Vec::new();
    push_u16_be(&mut plaintext, type_tag);
    push_u16_be(&mut plaintext, key_bytes.len() as u16);
    append_bytes(&mut plaintext, key_bytes);
    append_bytes(&mut plaintext, payload);
    assert(plaintext@ =~= record_plaintext(type_tag, logical_key@, payload@));

    let nonce = random_12();
    let ciphertext = match aes256gcm_encrypt(storage_key, &nonce, plaintext.as_slice()) {
        Some(c) => c,
        None => return Err(protocol("storage record encryption failed")),
    };
    let mut out: Vec<u8> = Vec::new();
    out.push(RECORD_VERSION);
    append_bytes(&mut out, nonce.as_slice());
    append_bytes(&mut out, ciphertext.as_slice());
    assert(out@.subrange(1, 13) =~= nonce@);
    assert(out@ =~= sealed_record(storage_key@, nonce@, type_tag, logical_key@, payload@));
    Ok(out)
}

/// Opens a sealed record, recovering `(type_tag, logical_key, payload)`.
/// Opening what [`seal`] produced under the same key gives back what was sealed.
pub fn open(storage_key: &[u8; 32], blob: &[u8]) -> (r: Result<(u16, String, Vec<u8>), AppError>)
    ensures
        r is Ok <==> open_record(storage_key@, blob@) is Some,
        r matches Ok(t) ==> open_record(storage_key@, blob@) == Some((t.0, t.1@, t.2@)),
        r matches Err(e) ==> e is Protocol,
        forall|nonce: Seq<u8>, tag: u16, key: Seq<char>, payload: Seq<u8>|
            #![trigger sealed_record(storage_key@, nonce, tag, key, payload)]
            nonce.len() == 12 && sealable(key, payload) && blob@.len() >= 1 + 12 + 16 && blob@
                == sealed_record(storage_key@, nonce, tag, key, payload) ==> (r matches Ok(t) && t.0 == tag && t.1@ == key && t.2@ == payload),
{
    if blob.len() < 1 + NONCE_LEN + 16 {
        return Err(protocol("storage record too short"));
    }
    if blob[0] != RECORD_VERSION {
        return Err(protocol("unsupported storage record version"));
    }
    let nonce_bytes = copy_range(blob, 1, 13);
    let nonce: [u8; 12] = [
        nonce_bytes[0],
        nonce_bytes[1],
        nonce_bytes[2],
        nonce_bytes[3],
        nonce_bytes[4],
        nonce_bytes[5],
        nonce_bytes[6],
        nonce_bytes[7],
        nonce_bytes[8],
        nonce_bytes[9],
        nonce_bytes[10],
        nonce_bytes[11],
    ];
    assert(nonce@ =~= blob@.subrange(1, 13));
    let ct = copy_range(blob, 13, blob.len());
    proof {
        assert forall|n: Seq<u8>, tag: u16, key: Seq<char>, payload: Seq<u8>|
            #![trigger sealed_record(storage_key@, n, tag, key, payload)]
            n.len() == 12 && sealable(key, payload) && blob@ == sealed_record(
                storage_key@,
                n,
                tag,
                key,
                payload,
            ) implies nonce@ == n && ct@ == aes_gcm_seal(
            storage_key@,
            n,
            record_plaintext(tag, key, payload),
        ) by {
            let s = sealed_record(storage_key@, n, tag, key, payload);
            assert(s.subrange(1, 13) =~= n);
            assert(s.subrange(13, s.len() as int) =~= aes_gcm_seal(
                storage_key@,
                n,
                record_plaintext(tag, key, payload),
            ));
        }
    }
    let pt = match aes256gcm_decrypt(storage_key, &nonce, ct.as_slice()) {
        Some(p) => p,
        None => return Err(protocol("storage record decryption failed")),
    };
    proof {
        assert forall|n: Seq<u8>, tag: u16, key: Seq<char>, payload: Seq<u8>|
            #![trigger sealed_record(storage_key@, n, tag, key, payload)]
            n.len() == 12 && sealable(key, payload) && blob@ == sealed_record(
                storage_key@,
                n,
                tag,
                key,
                payload,
            ) implies parse_record_plaintext(pt@) == Some((tag, key, payload)) by {
            assert(record_plaintext(tag, key, payload).len() == 4 + encode_utf8(key).len()
                + payload.len());
            assert(pt@ == record_plaintext(tag, key, payload));
            lemma_parse_record_plaintext(tag, key, payload);
        }
    }
    if pt.len() < 4 {
        return Err(protocol("storage record plaintext too short"));
    }
    let type_tag = read_u16_be(pt.as_slice(), 0);
    let key_len = read_u16_be(pt.as_slice(), 2) as usize;
    if pt.len() < 4 + key_len {
        return Err(protocol("storage record key length out of range"));
    }
    let key_bytes = copy_range(pt.as_slice(), 4, 4 + key_len);
    let logical_key = match utf8_to_string(key_bytes) {
        Some(s) => s,
        None => return Err(protocol("storage record logical_key not utf8")),
    };
    let payload = copy_range(pt.as_slice(), 4 + key_len, pt.len());
    Ok((type_tag, logical_key, payload))
}


// ── group-key adapter (tag 1) ───────────────────────────────────────────────

/// Syncs group master keys. `logical_key` is the group id; the payload is
/// `master_key(32) ‖ utf8(hosting_server_url)`.
pub struct GroupKeyAdapter;

/// One synced group master key.
pub struct GroupKeyRecord {
    pub master_key: [u8; 32],
    pub hosting_server_url: String,
}

/// Group-key payload bytes.
pub open spec fn group_payload(master_key: Seq<u8>, hosting_server_url: Seq<char>) -> Seq<u8> {
    master_key + encode_utf8(hosting_server_url)
}

/// `master_key ‖ utf8(hosting_server_url)`.
pub fn encode_group(master_key: &[u8], hosting_server_url: &str) -> (r: Vec<u8>)
    ensures
        r@ == group_payload(master_key@, hosting_server_url@),
{
    let mut v: Vec<u8> = Vec::new();
    append_bytes(&mut v, master_key);
    append_bytes(&mut v, hosting_server_url.as_bytes());
    v
}

/// Splits a group-key payload: 32 key bytes, then a UTF-8 url.
pub fn decode_group(bytes: &[u8]) -> (r: Result<([u8; 32], String), AppError>)
    ensures
        r is Ok <==> bytes@.len() >= 32 && valid_utf8(bytes@.subrange(32, bytes@.len() as int)),
        r matches Ok(p) ==> p.0@ == bytes@.subrange(0, 32) && p.1@ == decode_utf8(
            bytes@.subrange(32, bytes@.len() as int),
        ),
        r matches Err(e) ==> e is Protocol,
{
    if bytes.len() < 32 {
        return Err(protocol("group-key record too short"));
    }
    let mk = crate::bytes::array32_from(bytes, 0);
    let url = match utf8_to_string(copy_range(bytes, 32, bytes.len())) {
        Some(u) => u,
        None => return Err(protocol("group-key hosting url not utf8")),
    };
    Ok((mk, url))
}

/// Decoding a group-key payload gives back the key and url it was built from.
pub proof fn lemma_group_payload_round_trip(master_key: Seq<u8>, hosting_server_url: Seq<char>)
    requires
        master_key.len() == 32,
    ensures
        ({
            let b = group_payload(master_key, hosting_server_url);
            &&& b.len() >= 32
            &&& b.subrange(0, 32) == master_key
            &&& valid_utf8(b.subrange(32, b.len() as int))
            &&& decode_utf8(b.subrange(32, b.len() as int)) == hosting_server_url
        }),
{
    let b = group_payload(master_key, hosting_server_url);
    assert(b.subrange(0, 32) =~= master_key);
    assert(b.subrange(32, b.len() as int) =~= encode_utf8(hosting_server_url));
}

impl GroupKeyAdapter {
    /// Serializes the payload (the logical key travels separately).
    pub fn encode(record: &GroupKeyRecord) -> (r: Vec<u8>)
        ensures
            r@ == group_payload(record.master_key@, record.hosting_server_url@),
    {
        encode_group(record.master_key.as_slice(), record.hosting_server_url.as_str())
    }

    /// Rebuilds a record from its payload.
    pub fn decode(logical_key: &str, bytes: &[u8]) -> (r: Result<GroupKeyRecord, AppError>)
        ensures
            r is Ok <==> bytes@.len() >= 32 && valid_utf8(bytes@.subrange(32, bytes@.len() as int)),
            r matches Ok(g) ==> g.master_key@ == bytes@.subrange(0, 32) && g.hosting_server_url@
                == decode_utf8(bytes@.subrange(32, bytes@.len() as int)),
            r matches Err(e) ==> e is Protocol,
    {
        let (master_key, hosting_server_url) = decode_group(bytes)?;
        Ok(GroupKeyRecord { master_key, hosting_server_url })
    }
}

// ── contact adapter (tag 2) ─────────────────────────────────────────────────

/// Syncs the curated/blocked contacts list. `logical_key` is the DID; the
/// payload is `is_curated(1) ‖ last_interaction_at(i64 BE) ‖ is_blocked(1)`,
/// the last byte optional on decode (older 9-byte payloads read as unblocked).
pub struct ContactAdapter;

/// One synced contact.
pub struct ContactRecord {
    pub did: String,
    pub is_curated: bool,
    pub last_interaction_at: i64,
    pub is_blocked: bool,
}

/// Contact payload bytes.
pub open spec fn contact_payload(is_curated: bool, last_interaction_at: i64, is_blocked: bool) -> Seq<
    u8,
> {
    seq![if is_curated { 1u8 } else { 0u8 }] + i64_be(last_interaction_at) + seq![
        if is_blocked { 1u8 } else { 0u8 },
    ]
}

impl ContactAdapter {
    /// Serializes the payload (the DID travels as the logical key).
    pub fn encode(record: &ContactRecord) -> (r: Vec<u8>)
        ensures
            r@ == contact_payload(record.is_curated, record.last_interaction_at, record.is_blocked),
            r@.len() == 10,
    {
        let mut v: Vec<u8> = Vec::new();
        v.push(if record.is_curated { 1u8 } else { 0u8 });
        push_i64_be(&mut v, record.last_interaction_at);
        v.push(if record.is_blocked { 1u8 } else { 0u8 });
        assert(v@ =~= contact_payload(record.is_curated, record.last_interaction_at, record.is_blocked));
        v
    }

    /// Rebuilds a contact: the DID is the logical key.
    pub fn decode(logical_key: &str, bytes: &[u8]) -> (r: Result<ContactRecord, AppError>)
        ensures
            r is Ok <==> bytes@.len() >= 9,
            r matches Ok(c) ==> c.did@ == logical_key@ && c.is_curated == (bytes@[0] != 0)
                && c.last_interaction_at == i64_from_be(bytes@.subrange(1, 9)) && c.is_blocked == (
            bytes@.len() > 9 && bytes@[9] != 0),
            r matches Err(e) ==> e is Protocol,
    {
        if bytes.len() < 9 {
            return Err(protocol("contact record too short"));
        }
        let is_curated = bytes[0] != 0;
        let last_interaction_at = read_i64_be(bytes, 1);
        let is_blocked = bytes.len() > 9 && bytes[9] != 0;
        Ok(ContactRecord { did: String::from_str(logical_key), is_curated, last_interaction_at, is_blocked })
    }
}

/// Decoding an encoded contact gives back every field.
pub proof fn lemma_contact_payload_round_trip(is_curated: bool, last_interaction_at: i64, is_blocked: bool)
    ensures
        ({
            let b = contact_payload(is_curated, last_interaction_at, is_blocked);
            &&& b.len() == 10
            &&& (b[0] != 0) == is_curated
            &&& i64_from_be(b.subrange(1, 9)) == last_interaction_at
            &&& (b[9] != 0) == is_blocked
        }),
{
    let b = contact_payload(is_curated, last_interaction_at, is_blocked);
    assert(b.subrange(1, 9) =~= i64_be(last_interaction_at));
    lemma_i64_round_trip(last_interaction_at);
}

// ── conversation-settings adapter (tag 3) ───────────────────────────────────

/// Syncs per-conversation expiry timers. The payload is the timer as 4 bytes
/// big-endian when set, empty when there is none.
pub struct ConvSettingsAdapter;

/// One synced conversation setting.
pub struct ConvSettingsRecord {
    pub conversation_id: String,
    pub expiry_secs: Option<u32>,
}

/// Conversation-settings payload bytes.
pub open spec fn conv_settings_payload(expiry_secs: Option<u32>) -> Seq<u8> {
    match expiry_secs {
        Some(v) => u32_be(v),
        None => Seq::empty(),
    }
}

impl ConvSettingsAdapter {
    /// Serializes the timer.
    pub fn encode(record: &ConvSettingsRecord) -> (r: Vec<u8>)
        ensures
            r@ == conv_settings_payload(record.expiry_secs),
    {
        let mut v: Vec<u8> = Vec::new();
        match record.expiry_secs {
            Some(x) => push_u32_be(&mut v, x),
            None => {},
        }
        assert(v@ =~= conv_settings_payload(record.expiry_secs));
        v
    }

    /// Rebuilds a setting; only an empty or 4-byte payload is well formed.
    pub fn decode(logical_key: &str, bytes: &[u8]) -> (r: Result<ConvSettingsRecord, AppError>)
        ensures
            r is Ok <==> (bytes@.len() == 0 || bytes@.len() == 4),
            r matches Ok(c) ==> c.conversation_id@ == logical_key@ && c.expiry_secs == (if bytes@.len()
                == 0 {
                None
            } else {
                Some(u32_from_be(bytes@[0], bytes@[1], bytes@[2], bytes@[3]))
            }),
            r matches Err(e) ==> e is Protocol,
    {
        let expiry_secs = if bytes.len() == 0 {
            None
        } else if bytes.len() == 4 {
            Some(read_u32_be(bytes, 0))
        } else {
            return Err(protocol("conv-settings record malformed"));
        };
        Ok(ConvSettingsRecord { conversation_id: String::from_str(logical_key), expiry_secs })
    }
}

/// Decoding an encoded timer gives it back, and `None` stays distinct from any timer.
pub proof fn lemma_conv_settings_round_trip(expiry_secs: Option<u32>)
    ensures
        ({
            let b = conv_settings_payload(expiry_secs);
            &&& b.len() == 0 || b.len() == 4
            &&& (if b.len() == 0 {
                None
            } else {
                Some(u32_from_be(b[0], b[1], b[2], b[3]))
            }) == expiry_secs
        }),
{
    match expiry_secs {
        Some(v) => lemma_u32_round_trip(v),
        None => {},
    }
}

// ── contact-profile adapter (tag 4) ─────────────────────────────────────────

/// Milliseconds since the Unix epoch.
#[derive(Clone, Copy, PartialEq, Eq, Debug, Structural)]
pub struct Timestamp(pub i64);

impl Timestamp {
    /// The timestamp in milliseconds.
    pub fn as_millis(self) -> (r: i64)
        ensures
            r == self.0,
    {
        self.0
    }
}

/// A cached contact profile.
pub struct ContactProfile {
    pub did: String,
    pub display_name: String,
    pub profile_key: Vec<u8>,
    pub fetched_at: Timestamp,
}

/// Syncs cached contact profiles. The payload is
/// `fetched_at(i64 BE) ‖ key_len(u16 BE) ‖ profile_key ‖ utf8(display_name)`.
pub struct ContactProfileAdapter;

/// Contact-profile payload bytes (the key length is written as its low 16 bits).
pub open spec fn contact_profile_payload(fetched_at: i64, profile_key: Seq<u8>, display_name: Seq<char>) -> Seq<
    u8,
> {
    i64_be(fetched_at) + u16_be(profile_key.len() as u16) + profile_key + encode_utf8(display_name)
}

/// What a contact-profile payload decodes to, if it is well formed.
pub open spec fn parse_contact_profile(bytes: Seq<u8>) -> Option<(i64, Seq<u8>, Seq<char>)> {
    if bytes.len() < 10 {
        None
    } else {
        let key_len = u16_from_be(bytes[8], bytes[9]) as int;
        if bytes.len() < 10 + key_len {
            None
        } else {
            let nb = bytes.subrange(10 + key_len, bytes.len() as int);
            if !valid_utf8(nb) {
                None
            } else {
                Some((i64_from_be(bytes.subrange(0, 8)), bytes.subrange(10, 10 + key_len), decode_utf8(nb)))
            }
        }
    }
}

impl ContactProfileAdapter {
    /// Serializes the payload (the DID travels as the logical key).
    pub fn encode(record: &ContactProfile) -> (r: Vec<u8>)
        ensures
            r@ == contact_profile_payload(record.fetched_at.0, record.profile_key@, record.display_name@),
    {
        let key = record.profile_key.as_slice();
        let mut v: Vec<u8> = Vec::new();
        push_i64_be(&mut v, record.fetched_at.as_millis());
        push_u16_be(&mut v, key.len() as u16);
        append_bytes(&mut v, key);
        append_bytes(&mut v, record.display_name.as_str().as_bytes());
        v
    }

    /// Rebuilds a profile: the DID is the logical key.
    pub fn decode(logical_key: &str, bytes: &[u8]) -> (r: Result<ContactProfile, AppError>)
        ensures
            r is Ok <==> parse_contact_profile(bytes@) is Some,
            r matches Ok(p) ==> p.did@ == logical_key@ && parse_contact_profile(bytes@) == Some(
                (p.fetched_at.0, p.profile_key@, p.display_name@),
            ),
            r matches Err(e) ==> e is Protocol,
    {
        if bytes.len() < 10 {
            return Err(protocol("contact-profile record too short"));
        }
        let fetched_at = read_i64_be(bytes, 0);
        let key_len = read_u16_be(bytes, 8) as usize;
        if bytes.len() < 10 + key_len {
            return Err(protocol("contact-profile key_len out of range"));
        }
        let profile_key = copy_range(bytes, 10, 10 + key_len);
        let display_name = match utf8_to_string(copy_range(bytes, 10 + key_len, bytes.len())) {
            Some(n) => n,
            None => return Err(protocol("contact-profile name not utf8")),
        };
        Ok(ContactProfile {
            did: String::from_str(logical_key),
            display_name,
            profile_key,
            fetched_at: Timestamp(fetched_at),
        })
    }
}

/// Decoding an encoded profile gives back its fields, as long as the profile
/// key fits the 16-bit length field (a longer key is written truncated and does
/// not round-trip).
pub proof fn lemma_contact_profile_round_trip(fetched_at: i64, profile_key: Seq<u8>, display_name: Seq<char>)
    requires
        profile_key.len() <= 0xffff,
    ensures
        parse_contact_profile(contact_profile_payload(fetched_at, profile_key, display_name)) == Some(
            (fetched_at, profile_key, display_name),
        ),
{
    let b = contact_profile_payload(fetched_at, profile_key, display_name);
    let n = profile_key.len() as u16;
    lemma_u16_round_trip(n);
    lemma_i64_round_trip(fetched_at);
    assert(b[8] == u16_be(n)[0]);
    assert(b[9] == u16_be(n)[1]);
    assert(b.subrange(0, 8) =~= i64_be(fetched_at));
    assert(b.subrange(10, 10 + profile_key.len() as int) =~= profile_key);
    assert(b.subrange(10 + profile_key.len() as int, b.len() as int) =~= encode_utf8(display_name));
}


// ── adapters & registry ─────────────────────────────────────────────────────

/// The dirty-tracking trigger a synced type needs: its domain table, the
/// table's natural-key column, and its tag.
pub struct SyncTriggerSpec {
    pub table: String,
    pub key_column: String,
    pub type_tag: u16,
}

impl SyncTriggerSpec {
    /// Builds a trigger spec.
    pub fn new(table: &str, key_column: &str, type_tag: u16) -> (r: SyncTriggerSpec)
        ensures
            r.table@ == table@,
            r.key_column@ == key_column@,
            r.type_tag == type_tag,
    {
        SyncTriggerSpec { table: String::from_str(table), key_column: String::from_str(key_column), type_tag }
    }

    /// A field-by-field copy.
    pub fn duplicate(&self) -> (r: SyncTriggerSpec)
        ensures
            r.table@ == self.table@,
            r.key_column@ == self.key_column@,
            r.type_tag == self.type_tag,
    {
        SyncTriggerSpec { table: self.table.clone(), key_column: self.key_column.clone(), type_tag: self.type_tag }
    }
}

impl GroupKeyAdapter {
    /// Tag 1.
    pub fn type_tag(&self) -> (r: u16)
        ensures
            r == TYPE_GROUP_KEY,
    {
        TYPE_GROUP_KEY
    }

    /// Watches `groups.group_id`.
    pub fn trigger_spec(&self) -> (r: SyncTriggerSpec)
        ensures
            r.table@ == "groups"@,
            r.key_column@ == "group_id"@,
            r.type_tag == TYPE_GROUP_KEY,
    {
        SyncTriggerSpec::new("groups", "group_id", TYPE_GROUP_KEY)
    }
}

impl ContactAdapter {
    /// Tag 2.
    pub fn type_tag(&self) -> (r: u16)
        ensures
            r == TYPE_CONTACT,
    {
        TYPE_CONTACT
    }

    /// Watches `contacts.did`.
    pub fn trigger_spec(&self) -> (r: SyncTriggerSpec)
        ensures
            r.table@ == "contacts"@,
            r.key_column@ == "did"@,
            r.type_tag == TYPE_CONTACT,
    {
        SyncTriggerSpec::new("contacts", "did", TYPE_CONTACT)
    }
}

impl ConvSettingsAdapter {
    /// Tag 3.
    pub fn type_tag(&self) -> (r: u16)
        ensures
            r == TYPE_CONV_SETTINGS,
    {
        TYPE_CONV_SETTINGS
    }

    /// Watches `conversation_settings.conversation_id`.
    pub fn trigger_spec(&self) -> (r: SyncTriggerSpec)
        ensures
            r.table@ == "conversation_settings"@,
            r.key_column@ == "conversation_id"@,
            r.type_tag == TYPE_CONV_SETTINGS,
    {
        SyncTriggerSpec::new("conversation_settings", "conversation_id", TYPE_CONV_SETTINGS)
    }
}

impl ContactProfileAdapter {
    /// Tag 4.
    pub fn type_tag(&self) -> (r: u16)
        ensures
            r == TYPE_CONTACT_PROFILE,
    {
        TYPE_CONTACT_PROFILE
    }

    /// Watches `contact_profiles.did`.
    pub fn trigger_spec(&self) -> (r: SyncTriggerSpec)
        ensures
            r.table@ == "contact_profiles"@,
            r.key_column@ == "did"@,
            r.type_tag == TYPE_CONTACT_PROFILE,
    {
        SyncTriggerSpec::new("contact_profiles", "did", TYPE_CONTACT_PROFILE)
    }
}

/// The value of a trigger spec.
pub struct TriggerView {
    pub table: Seq<char>,
    pub key_column: Seq<char>,
    pub type_tag: u16,
}

/// The value of `a`.
pub open spec fn trigger_view(a: SyncTriggerSpec) -> TriggerView {
    TriggerView { table: a.table@, key_column: a.key_column@, type_tag: a.type_tag }
}

/// The first entry registered under `tag`, if any.
pub open spec fn lookup(entries: Seq<TriggerView>, tag: u16) -> Option<TriggerView>
    decreases entries.len(),
{
    if entries.len() == 0 {
        None
    } else if entries[0].type_tag == tag {
        Some(entries[0])
    } else {
        lookup(entries.subrange(1, entries.len() as int), tag)
    }
}

/// The set of synced types the client knows, keyed by tag. No tag occurs twice.
pub struct SyncRegistry {
    adapters: Vec<SyncTriggerSpec>,
}

/// Whether `tags` holds no value twice.
pub open spec fn distinct_tags(tags: Seq<u16>) -> bool {
    forall|i: int, j: int| 0 <= i < j < tags.len() ==> tags[i] != tags[j]
}

impl SyncRegistry {
    /// The registered tags, in registration order.
    pub closed spec fn tags(&self) -> Seq<u16> {
        self.adapters@.map_values(|a: SyncTriggerSpec| a.type_tag)
    }

    /// The registered tables, in registration order.
    pub closed spec fn tables(&self) -> Seq<Seq<char>> {
        self.adapters@.map_values(|a: SyncTriggerSpec| a.table@)
    }

    /// The registered entries, in registration order.
    pub closed spec fn entries(&self) -> Seq<TriggerView> {
        self.adapters@.map_values(|a: SyncTriggerSpec| trigger_view(a))
    }

    /// The entries' tags and tables are what `tags` and `tables` list.
    pub proof fn lemma_entries(&self)
        ensures
            self.entries().len() == self.tags().len(),
            self.entries().len() == self.tables().len(),
            forall|i: int| 0 <= i < self.entries().len() ==> (#[trigger] self.entries()[i]).type_tag == self.tags()[i]
                && self.entries()[i].table == self.tables()[i],
    {
    }

    /// Registered tags are distinct.
    pub open spec fn wf(&self) -> bool {
        distinct_tags(self.tags())
    }

    /// An empty registry.
    pub fn new() -> (r: SyncRegistry)
        ensures
            r.wf(),
            r.tags() == Seq::<u16>::empty(),
            r.tables() == Seq::<Seq<char>>::empty(),
            r.entries() == Seq::<TriggerView>::empty(),
    {
        let r = SyncRegistry { adapters: Vec::new() };
        assert(r.tags() =~= Seq::<u16>::empty());
        assert(r.tables() =~= Seq::<Seq<char>>::empty());
        assert(r.entries() =~= Seq::<TriggerView>::empty());
        r
    }

    /// Whether `type_tag` is registered.
    pub fn contains(&self, type_tag: u16) -> (b: bool)
        ensures
            b == self.tags().contains(type_tag),
    {
        let mut i: usize = 0;
        while i < self.adapters.len()
            invariant
                i <= self.adapters@.len(),
                forall|j: int| 0 <= j < i ==> self.adapters@[j].type_tag != type_tag,
            decreases self.adapters@.len() - i,
        {
            if self.adapters[i].type_tag == type_tag {
                assert(self.tags()[i as int] == type_tag);
                return true;
            }
            i = i + 1;
        }
        proof {
            if self.tags().contains(type_tag) {
                let k = choose|k: int| 0 <= k < self.tags().len() && self.tags()[k] == type_tag;
                assert(self.adapters@[k].type_tag == type_tag);
            }
        }
        false
    }

    /// Registers a type. A tag may be registered only once: reusing one would
    /// alias two types onto one record-id space.
    pub fn add(&mut self, adapter: SyncTriggerSpec)
        requires
            old(self).wf(),
            !old(self).tags().contains(adapter.type_tag),
        ensures
            final(self).wf(),
            final(self).tags() == old(self).tags().push(adapter.type_tag),
            final(self).tables() == old(self).tables().push(adapter.table@),
            final(self).entries() == old(self).entries().push(trigger_view(adapter)),
    {
        let ghost t = adapter.type_tag;
        let ghost tb = adapter.table@;
        let ghost v = trigger_view(adapter);
        self.adapters.push(adapter);
        assert(self.tags() =~= old(self).tags().push(t));
        assert(self.tables() =~= old(self).tables().push(tb));
        assert(self.entries() =~= old(self).entries().push(v));
    }

    /// The registered type with `type_tag`, if any.
    pub fn get(&self, type_tag: u16) -> (r: Option<&SyncTriggerSpec>)
        ensures
            r is Some <==> self.tags().contains(type_tag),
            r is None <==> lookup(self.entries(), type_tag) is None,
            r matches Some(a) ==> a.type_tag == type_tag && lookup(self.entries(), type_tag) == Some(
                trigger_view(*a),
            ),
    {
        let ghost es = self.entries();
        let mut i: usize = 0;
        assert(es.subrange(0, es.len() as int) =~= es);
        while i < self.adapters.len()
            invariant
                i <= self.adapters@.len(),
                es == self.entries(),
                es.len() == self.adapters@.len(),
                forall|j: int| 0 <= j < i ==> self.adapters@[j].type_tag != type_tag,
                lookup(es, type_tag) == lookup(es.subrange(i as int, es.len() as int), type_tag),
            decreases self.adapters@.len() - i,
        {
            let ghost rest = es.subrange(i as int, es.len() as int);
            assert(rest[0] == trigger_view(self.adapters@[i as int]));
            assert(rest.subrange(1, rest.len() as int) =~= es.subrange(i + 1, es.len() as int));
            if self.adapters[i].type_tag == type_tag {
                assert(self.tags()[i as int] == type_tag);
                return Some(&self.adapters[i]);
            }
            i = i + 1;
        }
        assert(es.subrange(i as int, es.len() as int).len() == 0);
        proof {
            if self.tags().contains(type_tag) {
                let k = choose|k: int| 0 <= k < self.tags().len() && self.tags()[k] == type_tag;
                assert(self.adapters@[k].type_tag == type_tag);
            }
        }
        None
    }

    /// The trigger specs of every registered type, in registration order.
    pub fn trigger_specs(&self) -> (r: Vec<SyncTriggerSpec>)
        ensures
            r@.len() == self.tags().len(),
            forall|i: int| 0 <= i < r@.len() ==> #[trigger] r@[i].type_tag == self.tags()[i]
                && r@[i].table@ == self.tables()[i],
            r@.map_values(|a: SyncTriggerSpec| trigger_view(a)) == self.entries(),
    {
        let mut r: Vec<SyncTriggerSpec> = Vec::new();
        let mut i: usize = 0;
        while i < self.adapters.len()
            invariant
                i <= self.adapters@.len(),
                r@.len() == i,
                forall|j: int| 0 <= j < i ==> #[trigger] r@[j].type_tag == self.adapters@[j].type_tag
                    && r@[j].table@ == self.adapters@[j].table@
                    && r@[j].key_column@ == self.adapters@[j].key_column@,
            decreases self.adapters@.len() - i,
        {
            r.push(self.adapters[i].duplicate());
            i = i + 1;
        }
        assert(r@.map_values(|a: SyncTriggerSpec| trigger_view(a)) =~= self.entries());
        r
    }

    /// Every synced type the client currently knows: group keys, contacts,
    /// conversation settings and contact profiles.
    pub fn default_registry() -> (r: SyncRegistry)
        ensures
            r.wf(),
            r.tags() == seq![TYPE_GROUP_KEY, TYPE_CONTACT, TYPE_CONV_SETTINGS, TYPE_CONTACT_PROFILE],
            r.tables() == seq!["groups"@, "contacts"@, "conversation_settings"@, "contact_profiles"@],
            r.entries() == seq![
                TriggerView { table: "groups"@, key_column: "group_id"@, type_tag: TYPE_GROUP_KEY },
                TriggerView { table: "contacts"@, key_column: "did"@, type_tag: TYPE_CONTACT },
                TriggerView { table: "conversation_settings"@, key_column: "conversation_id"@, type_tag: TYPE_CONV_SETTINGS },
                TriggerView { table: "contact_profiles"@, key_column: "did"@, type_tag: TYPE_CONTACT_PROFILE },
            ],
    {
        let mut reg = SyncRegistry::new();
        reg.add(GroupKeyAdapter.trigger_spec());
        reg.add(ContactAdapter.trigger_spec());
        reg.add(ConvSettingsAdapter.trigger_spec());
        reg.add(ContactProfileAdapter.trigger_spec());
        assert(reg.tags() =~= seq![TYPE_GROUP_KEY, TYPE_CONTACT, TYPE_CONV_SETTINGS, TYPE_CONTACT_PROFILE]);
        assert(reg.tables() =~= seq!["groups"@, "contacts"@, "conversation_settings"@, "contact_profiles"@]);
        assert(reg.entries() =~= seq![
            TriggerView { table: "groups"@, key_column: "group_id"@, type_tag: TYPE_GROUP_KEY },
            TriggerView { table: "contacts"@, key_column: "did"@, type_tag: TYPE_CONTACT },
            TriggerView { table: "conversation_settings"@, key_column: "conversation_id"@, type_tag: TYPE_CONV_SETTINGS },
            TriggerView { table: "contact_profiles"@, key_column: "did"@, type_tag: TYPE_CONTACT_PROFILE },
        ]);
        reg
    }
}

/// Looking a tag up after registering a new entry under it gives that entry,
/// and every tag registered before resolves as it did.
pub proof fn law_lookup_after_add(entries: Seq<TriggerView>, e: TriggerView, tag: u16)
    requires
        forall|i: int| 0 <= i < entries.len() ==> (#[trigger] entries[i]).type_tag != e.type_tag,
    ensures
        lookup(entries.push(e), e.type_tag) == Some(e),
        tag != e.type_tag ==> lookup(entries.push(e), tag) == lookup(entries, tag),
    decreases entries.len(),
{
    let pushed = entries.push(e);
    if entries.len() > 0 {
        let rest = entries.subrange(1, entries.len() as int);
        assert(pushed.subrange(1, pushed.len() as int) =~= rest.push(e));
        assert(pushed[0] == entries[0]);
        law_lookup_after_add(rest, e, tag);
    } else {
        assert(pushed[0] == e);
        assert(pushed.subrange(1, pushed.len() as int) =~= Seq::<TriggerView>::empty());
        assert(lookup(Seq::<TriggerView>::empty(), tag) is None);
    }
}

/// Registering an adapter under a new tag keeps the tags distinct; looking
/// that tag up afterwards gives the adapter just added, and every other tag
/// resolves as it did before.
pub proof fn law_add_then_get(before: SyncRegistry, after: SyncRegistry, adapter: SyncTriggerSpec, tag: u16)
    requires
        before.wf(),
        !before.tags().contains(adapter.type_tag),
        after.tags() == before.tags().push(adapter.type_tag),
        after.entries() == before.entries().push(trigger_view(adapter)),
    ensures
        after.wf(),
        lookup(after.entries(), adapter.type_tag) == Some(trigger_view(adapter)),
        tag != adapter.type_tag ==> lookup(after.entries(), tag) == lookup(before.entries(), tag),
{
    before.lemma_entries();
    assert forall|i: int| 0 <= i < before.entries().len() implies (#[trigger] before.entries()[i]).type_tag
        != adapter.type_tag by {
        assert(before.tags()[i] == before.entries()[i].type_tag);
        if before.tags()[i] == adapter.type_tag {
            assert(before.tags().contains(adapter.type_tag));
        }
    }
    law_lookup_after_add(before.entries(), trigger_view(adapter), tag);
    assert forall|i: int, j: int| 0 <= i < j < after.tags().len() implies after.tags()[i] != after.tags()[j] by {
        if j == before.tags().len() {
            assert(after.tags()[j] == adapter.type_tag);
            assert(after.tags()[i] == before.tags()[i]);
            if before.tags()[i] == adapter.type_tag {
                assert(before.tags().contains(adapter.type_tag));
            }
        }
    }
}

/// The default registry knows four types, under four distinct tags, each
/// watching its own table.
pub proof fn lemma_default_registry_distinct()
    ensures
        distinct_tags(seq![TYPE_GROUP_KEY, TYPE_CONTACT, TYPE_CONV_SETTINGS, TYPE_CONTACT_PROFILE]),
        "groups"@ != "contacts"@,
        "groups"@ != "conversation_settings"@,
        "groups"@ != "contact_profiles"@,
        "contacts"@ != "conversation_settings"@,
        "contacts"@ != "contact_profiles"@,
        "conversation_settings"@ != "contact_profiles"@,
{
    reveal_strlit("groups");
    reveal_strlit("contacts");
    reveal_strlit("conversation_settings");
    reveal_strlit("contact_profiles");
    assert("groups"@.len() != "contacts"@.len());
    assert("groups"@.len() != "conversation_settings"@.len());
    assert("groups"@.len() != "contact_profiles"@.len());
    assert("contacts"@.len() != "conversation_settings"@.len());
    assert("contacts"@.len() != "contact_profiles"@.len());
    assert("conversation_settings"@.len() != "contact_profiles"@.len());
}

// ── engine decisions ────────────────────────────────────────────────────────

/// One record of a pull page as the server returns it.
pub struct StoragePullItem {
    pub record_id: Vec<u8>,
    pub version: i64,
    pub deleted: bool,
    pub ciphertext: Vec<u8>,
}

/// One record write of a push.
pub struct StorageWrite {
    pub record_id: Vec<u8>,
    pub expected_version: i64,
    pub deleted: bool,
    pub ciphertext: Vec<u8>,
}

/// A row the store marked dirty.
pub struct DirtyRecord {
    pub type_tag: u16,
    pub logical_key: String,
    pub version: i64,
    pub deleted: bool,
}

/// What a pulled record turned out to be once opened and checked.
pub enum PulledRecord {
    /// It did not open under the storage key; it is skipped.
    Undecryptable,
    /// Its sealed `(tag, key)` does not give the record id it was served under; skipped.
    IdMismatch,
    /// It opened and its id checks out.
    Opened { type_tag: u16, logical_key: String, payload: Vec<u8> },
}

/// Opens a pulled record and checks that the server-returned record id equals
/// the one derived from the recovered `(tag, key)`.
pub fn classify_pulled(storage_key: &[u8; 32], item: &StoragePullItem) -> (r: PulledRecord)
    ensures
        match open_record(storage_key@, item.ciphertext@) {
            None => r is Undecryptable,
            Some(t) => if spec_record_id(storage_key@, t.0, t.1) != item.record_id@ {
                r is IdMismatch
            } else {
                r matches PulledRecord::Opened { type_tag, logical_key, payload } && type_tag == t.0
                    && logical_key@ == t.1 && payload@ == t.2
            },
        },
{
    match open(storage_key, item.ciphertext.as_slice()) {
        Err(_) => PulledRecord::Undecryptable,
        Ok((tag, logical_key, payload)) => {
            let rid = record_id(storage_key, tag, logical_key.as_str());
            if !crate::bytes::bytes_eq(rid.as_slice(), item.record_id.as_slice()) {
                PulledRecord::IdMismatch
            } else {
                PulledRecord::Opened { type_tag: tag, logical_key, payload }
            }
        },
    }
}

/// What to do with an opened pulled record.
pub enum PullAction {
    /// Already held at this or a newer version (last writer wins).
    Skip,
    /// Hand it to the type's adapter: `None` applies a tombstone.
    Apply { payload: Option<Vec<u8>> },
    /// Unknown to this build: remember the version only.
    RecordVersionOnly,
}

/// Last-writer-wins and dispatch: a record at or below the local version is
/// skipped; otherwise a known type is applied (a tombstone when `deleted`) and
/// an unknown one only has its version recorded.
pub fn pull_action(registry: &SyncRegistry, type_tag: u16, version: i64, local_version: i64, deleted: bool, payload: Vec<u8>) -> (r: PullAction)
    ensures
        version <= local_version ==> r is Skip,
        version > local_version && registry.tags().contains(type_tag) ==> (r matches PullAction::Apply { payload: p } && (if deleted {
            p is None
        } else {
            p matches Some(b) && b@ == payload@
        })),
        version > local_version && !registry.tags().contains(type_tag) ==> r is RecordVersionOnly,
{
    if version <= local_version {
        return PullAction::Skip;
    }
    if registry.contains(type_tag) {
        if deleted {
            PullAction::Apply { payload: None }
        } else {
            PullAction::Apply { payload: Some(payload) }
        }
    } else {
        PullAction::RecordVersionOnly
    }
}

/// Where the payload of a dirty row comes from.
pub enum PushSource {
    /// Marked deleted: push a tombstone.
    Tombstone,
    /// Read the live row through its adapter.
    ReadRow,
    /// Unknown tag: not pushed.
    Skip,
}

/// Chooses the payload source of a dirty row.
pub fn push_source(registry: &SyncRegistry, dirty: &DirtyRecord) -> (r: PushSource)
    ensures
        dirty.deleted ==> r is Tombstone,
        !dirty.deleted && registry.tags().contains(dirty.type_tag) ==> r is ReadRow,
        !dirty.deleted && !registry.tags().contains(dirty.type_tag) ==> r is Skip,
{
    if dirty.deleted {
        PushSource::Tombstone
    } else if registry.contains(dirty.type_tag) {
        PushSource::ReadRow
    } else {
        PushSource::Skip
    }
}

/// Builds the write for a dirty row: `row` is the serialized live row, or
/// `None` for a tombstone (also when the row vanished). The write is keyed by
/// the record id and expects the row's last known version.
pub fn build_write(storage_key: &[u8; 32], dirty: &DirtyRecord, row: Option<Vec<u8>>) -> (r: Result<StorageWrite, AppError>)
    ensures
        r is Ok <==> sealable(
            dirty.logical_key@,
            match row {
                Some(p) => p@,
                None => Seq::empty(),
            },
        ),
        r matches Ok(w) ==> {
            &&& w.record_id@ == spec_record_id(storage_key@, dirty.type_tag, dirty.logical_key@)
            &&& w.expected_version == dirty.version
            &&& w.deleted == row is None
            &&& w.ciphertext@.len() >= 1 + 12 + 16
            &&& w.ciphertext@ == sealed_record(
                storage_key@,
                w.ciphertext@.subrange(1, 13),
                dirty.type_tag,
                dirty.logical_key@,
                match row {
                    Some(p) => p@,
                    None => Seq::empty(),
                },
            )
        },
        r matches Err(e) ==> e is Protocol,
{
    let (deleted, payload) = match row {
        Some(p) => (false, p),
        None => (true, Vec::new()),
    };
    let rid = record_id(storage_key, dirty.type_tag, dirty.logical_key.as_str());
    let ciphertext = seal(storage_key, dirty.type_tag, dirty.logical_key.as_str(), payload.as_slice())?;
    Ok(StorageWrite { record_id: rid, expected_version: dirty.version, deleted, ciphertext })
}

/// Index of the first pushed record whose id is `rid`, mapping a server
/// "applied" result back to its row.
pub fn find_pushed(pushed: &Vec<(Vec<u8>, u16, String)>, rid: &[u8]) -> (r: Option<usize>)
    ensures
        r matches Some(i) ==> i < pushed@.len() && pushed@[i as int].0@ == rid@ && forall|j: int|
            0 <= j < i ==> pushed@[j].0@ != rid@,
        r is None ==> forall|j: int| 0 <= j < pushed@.len() ==> pushed@[j].0@ != rid@,
{
    let mut i: usize = 0;
    while i < pushed.len()
        invariant
            i <= pushed@.len(),
            forall|j: int| 0 <= j < i ==> pushed@[j].0@ != rid@,
        decreases pushed@.len() - i,
    {
        if crate::bytes::bytes_eq(pushed[i].0.as_slice(), rid) {
            return Some(i);
        }
        i = i + 1;
    }
    None
}

} // verus!
