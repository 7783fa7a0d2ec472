//! Records of the homeserver API and the decoding of their base64 fields.
//! Binary fields travel as padded standard base64; the raw records hold them
//! as received, the decoded ones as bytes.
use vstd::prelude::*;

use crate::error::NetError;
use crate::prims::{b64std, b64std_decode, b64std_decode_str, b64std_encode};
use crate::storage_sync::StorageWrite;

verus! {

/// Decodes one base64 field.
pub fn decode_b64(s: &str) -> (r: Result<Vec<u8>, NetError>)
    ensures
        r is Ok <==> b64std_decode(s@) is Some,
        r matches Ok(b) ==> b64std_decode(s@) == Some(b@),
        r matches Err(e) ==> e is Base64,
{
    match b64std_decode_str(s) {
        Ok(b) => Ok(b),
        Err(m) => Err(NetError::Base64(m)),
    }
}

/// Whether a base64 field decodes to `b`.
pub open spec fn decodes_to(text: Seq<char>, b: Seq<u8>) -> bool {
    b64std_decode(text) == Some(b)
}

/// Whether a base64 field decodes.
pub open spec fn decodes(text: Seq<char>) -> bool {
    b64std_decode(text) is Some
}

// ── prekey bundles ──────────────────────────────────────────────────────────

/// A prekey bundle, decoded.
pub struct PreKeyBundleResponse {
    pub identity_key: Vec<u8>,
    pub registration_id: i32,
    pub signed_prekey_id: i32,
    pub signed_prekey_public: Vec<u8>,
    pub signed_prekey_signature: Vec<u8>,
    pub one_time_prekey: Option<(i32, Vec<u8>)>,
    pub kyber_prekey_id: i32,
    pub kyber_prekey_public: Vec<u8>,
    pub kyber_prekey_signature: Vec<u8>,
}

/// A signed prekey as received.
pub struct RawSignedPreKey {
    pub id: i32,
    pub public_key: String,
    pub signature: String,
}

/// A one-time prekey as received.
pub struct RawOneTimePreKey {
    pub id: i32,
    pub public_key: String,
}

/// A Kyber prekey as received.
pub struct RawKyberPreKey {
    pub id: i32,
    pub public_key: String,
    pub signature: String,
}

/// A prekey bundle as received.
pub struct RawPreKeyBundleResponse {
    pub identity_key: String,
    pub registration_id: i32,
    pub signed_prekey: RawSignedPreKey,
    pub one_time_prekey: Option<RawOneTimePreKey>,
    pub kyber_prekey: RawKyberPreKey,
}

impl RawPreKeyBundleResponse {
    /// Whether every base64 field of the bundle decodes.
    pub open spec fn all_decode(&self) -> bool {
        &&& decodes(self.identity_key@)
        &&& decodes(self.signed_prekey.public_key@)
        &&& decodes(self.signed_prekey.signature@)
        &&& (self.one_time_prekey matches Some(k) ==> decodes(k.public_key@))
        &&& decodes(self.kyber_prekey.public_key@)
        &&& decodes(self.kyber_prekey.signature@)
    }

    /// The decoded bundle; fails when a base64 field is malformed.
    pub fn decode(self) -> (r: Result<PreKeyBundleResponse, NetError>)
        ensures
            r is Ok <==> self.all_decode(),
            r matches Ok(b) ==> {
                &&& decodes_to(self.identity_key@, b.identity_key@)
                &&& b.registration_id == self.registration_id
                &&& b.signed_prekey_id == self.signed_prekey.id
                &&& decodes_to(self.signed_prekey.public_key@, b.signed_prekey_public@)
                &&& decodes_to(self.signed_prekey.signature@, b.signed_prekey_signature@)
                &&& match self.one_time_prekey {
                    Some(k) => b.one_time_prekey matches Some((id, pk)) && id == k.id && decodes_to(
                        k.public_key@,
                        pk@,
                    ),
                    None => b.one_time_prekey is None,
                }
                &&& b.kyber_prekey_id == self.kyber_prekey.id
                &&& decodes_to(self.kyber_prekey.public_key@, b.kyber_prekey_public@)
                &&& decodes_to(self.kyber_prekey.signature@, b.kyber_prekey_signature@)
            },
            r matches Err(e) ==> e is Base64,
    {
        let identity_key = decode_b64(self.identity_key.as_str())?;
        let signed_prekey_public = decode_b64(self.signed_prekey.public_key.as_str())?;
        let signed_prekey_signature = decode_b64(self.signed_prekey.signature.as_str())?;
        let one_time_prekey = match &self.one_time_prekey {
            Some(k) => Some((k.id, decode_b64(k.public_key.as_str())?)),
            None => None,
        };
        let kyber_prekey_public = decode_b64(self.kyber_prekey.public_key.as_str())?;
        let kyber_prekey_signature = decode_b64(self.kyber_prekey.signature.as_str())?;
        Ok(PreKeyBundleResponse {
            identity_key,
            registration_id: self.registration_id,
            signed_prekey_id: self.signed_prekey.id,
            signed_prekey_public,
            signed_prekey_signature,
            one_time_prekey,
            kyber_prekey_id: self.kyber_prekey.id,
            kyber_prekey_public,
            kyber_prekey_signature,
        })
    }
}

/// How many one-time prekeys the server still holds.
pub struct PrekeyStatusResponse {
    pub one_time_remaining: i64,
    pub kyber_remaining: i64,
}

// ── messages ────────────────────────────────────────────────────────────────

/// A message to send.
pub struct OutboundMessage {
    pub recipient_did: String,
    pub recipient_device_id: i32,
    pub destination_registration_id: i32,
    pub ciphertext: Vec<u8>,
    pub message_kind: i16,
    /// Per-message expiry in seconds; `None` for the server default.
    pub expiry_secs: Option<i64>,
}

/// A received message, decoded.
pub struct InboundMessage {
    pub id: i64,
    pub ciphertext: Vec<u8>,
    pub message_kind: i16,
    pub enqueued_at: String,
    pub sender_did: Option<String>,
    pub sender_device_id: Option<i32>,
}

/// A received message as it arrives.
pub struct RawInboundMessage {
    pub id: i64,
    pub ciphertext: String,
    pub message_kind: i16,
    pub enqueued_at: String,
    pub sender_did: Option<String>,
    pub sender_device_id: Option<i32>,
}

/// A fetch response as it arrives.
pub struct RawFetchResponse {
    pub messages: Vec<RawInboundMessage>,
}

impl RawFetchResponse {
    /// The decoded messages, in order; fails when a ciphertext is malformed.
    pub fn decode(self) -> (r: Result<Vec<InboundMessage>, NetError>)
        ensures
            r is Ok <==> forall|i: int|
                0 <= i < self.messages@.len() ==> decodes(#[trigger] self.messages@[i].ciphertext@),
            r matches Ok(v) ==> v@.len() == self.messages@.len() && forall|i: int|
                0 <= i < v@.len() ==> {
                    let m = #[trigger] self.messages@[i];
                    &&& v@[i].id == m.id
                    &&& decodes_to(m.ciphertext@, v@[i].ciphertext@)
                    &&& v@[i].message_kind == m.message_kind
                    &&& v@[i].enqueued_at == m.enqueued_at
                    &&& v@[i].sender_did == m.sender_did
                    &&& v@[i].sender_device_id == m.sender_device_id
                },
            r matches Err(e) ==> e is Base64,
    {
        let mut messages = self.messages;
        let ghost orig = messages@;
        let n = messages.len();
        let mut out: Vec<InboundMessage> = Vec::new();
        let mut k: usize = 0;
        while k < n
            invariant
                k <= n,
                n == orig.len(),
                orig == self.messages@,
                messages@ == orig.subrange(k as int, n as int),
                out@.len() == k,
                forall|i: int| 0 <= i < k ==> decodes(#[trigger] orig[i].ciphertext@),
                forall|i: int|
                    0 <= i < k ==> {
                        let m = #[trigger] orig[i];
                        &&& out@[i].id == m.id
                        &&& decodes_to(m.ciphertext@, out@[i].ciphertext@)
                        &&& out@[i].message_kind == m.message_kind
                        &&& out@[i].enqueued_at == m.enqueued_at
                        &&& out@[i].sender_did == m.sender_did
                        &&& out@[i].sender_device_id == m.sender_device_id
                    },
            decreases n - k,
        {
            let m = messages.remove(0);
            proof {
                assert(m == orig[k as int]);
                assert(messages@ =~= orig.subrange(k + 1, n as int));
            }
            let ciphertext = match decode_b64(m.ciphertext.as_str()) {
                Ok(c) => c,
                Err(e) => {
                    assert(!decodes(orig[k as int].ciphertext@));
                    return Err(e);
                },
            };
            out.push(
                InboundMessage {
                    id: m.id,
                    ciphertext,
                    message_kind: m.message_kind,
                    enqueued_at: m.enqueued_at,
                    sender_did: m.sender_did,
                    sender_device_id: m.sender_device_id,
                },
            );
            k = k + 1;
        }
        Ok(out)
    }
}

// ── other responses ─────────────────────────────────────────────────────────

/// What validating an invite token tells.
pub struct InviteValidationResponse {
    pub server_name: String,
    pub post_onboarding_redirect: Option<String>,
}

/// A project installed on the homeserver.
pub struct ProjectInfo {
    pub name: String,
    pub url: String,
    pub description: String,
}

/// A project token.
pub struct ProjectTokenResponse {
    pub token: String,
    pub expires_at: String,
}

/// A recovery blob with the account's active devices.
pub struct RecoveryBundle {
    pub blob: Vec<u8>,
    pub device_ids: Vec<i32>,
}

/// The decoded recovery response: the blob and the active device ids.
pub fn recovery_bundle(recovery_blob: &str, device_ids: Vec<i32>) -> (r: Result<RecoveryBundle, NetError>)
    ensures
        r is Ok <==> decodes(recovery_blob@),
        r matches Ok(b) ==> decodes_to(recovery_blob@, b.blob@) && b.device_ids == device_ids,
        r matches Err(e) ==> e is Base64,
{
    let blob = decode_b64(recovery_blob)?;
    Ok(RecoveryBundle { blob, device_ids })
}

/// A device-replacement request.
pub struct ReplaceDeviceRequest {
    pub did: String,
    pub old_device_id: i32,
    pub new_device_id: i32,
    pub new_identity_key: Vec<u8>,
    pub new_registration_id: i32,
    pub nonce: String,
    pub rotation_key_signature: Vec<u8>,
    pub rotation_key: Vec<u8>,
    pub signed_prekey_id: i32,
    pub signed_prekey_public: Vec<u8>,
    pub signed_prekey_signature: Vec<u8>,
    pub one_time_prekeys: Vec<(i32, Vec<u8>)>,
    pub kyber_prekey_id: i32,
    pub kyber_prekey_public: Vec<u8>,
    pub kyber_prekey_signature: Vec<u8>,
    pub recovery_blob: Option<Vec<u8>>,
}

/// A device-replacement response.
pub struct ReplaceDeviceResponse {
    pub session_token: String,
    pub expires_at: String,
}

// ── storage service ─────────────────────────────────────────────────────────

/// One pulled record, decoded.
pub struct StorageItem {
    pub record_id: Vec<u8>,
    pub version: i64,
    pub seq: i64,
    pub deleted: bool,
    pub ciphertext: Vec<u8>,
}

/// One pulled record as it arrives.
pub struct RawStorageItem {
    pub record_id: String,
    pub version: i64,
    pub seq: i64,
    pub deleted: bool,
    pub ciphertext: String,
}

/// A page of pulled records and the cursor to resume from.
pub struct StoragePullPage {
    pub items: Vec<StorageItem>,
    pub next_cursor: i64,
    pub has_more: bool,
}

/// The path of a delta pull: records with a sequence number above `since`,
/// at most `limit` of them.
pub fn storage_pull_path(since: i64, limit: i64) -> (r: String)
    ensures
        r@ == "/v1/storage/items?since="@ + crate::text::signed_decimal(since as int) + "&limit="@
            + crate::text::signed_decimal(limit as int),
{
    let s = crate::text::i64_to_decimal(since);
    let l = crate::text::i64_to_decimal(limit);
    crate::text::join4("/v1/storage/items?since=", s.as_str(), "&limit=", l.as_str())
}

/// The decoded pull page; fails when a record id or ciphertext is malformed.
pub fn storage_pull_page(raw: Vec<RawStorageItem>, next_cursor: i64, has_more: bool) -> (r: Result<StoragePullPage, NetError>)
    ensures
        r is Ok <==> forall|i: int|
            0 <= i < raw@.len() ==> decodes((#[trigger] raw@[i]).record_id@) && decodes(raw@[i].ciphertext@),
        r matches Ok(p) ==> p.next_cursor == next_cursor && p.has_more == has_more && p.items@.len()
            == raw@.len() && forall|i: int|
            0 <= i < raw@.len() ==> {
                let it = #[trigger] raw@[i];
                &&& decodes_to(it.record_id@, p.items@[i].record_id@)
                &&& p.items@[i].version == it.version
                &&& p.items@[i].seq == it.seq
                &&& p.items@[i].deleted == it.deleted
                &&& decodes_to(it.ciphertext@, p.items@[i].ciphertext@)
            },
        r matches Err(e) ==> e is Base64,
{
    let mut out: Vec<StorageItem> = Vec::new();
    let mut k: usize = 0;
    while k < raw.len()
        invariant
            k <= raw@.len(),
            out@.len() == k,
            forall|i: int| 0 <= i < k ==> decodes((#[trigger] raw@[i]).record_id@) && decodes(raw@[i].ciphertext@),
            forall|i: int|
                0 <= i < k ==> {
                    let it = #[trigger] raw@[i];
                    &&& decodes_to(it.record_id@, out@[i].record_id@)
                    &&& out@[i].version == it.version
                    &&& out@[i].seq == it.seq
                    &&& out@[i].deleted == it.deleted
                    &&& decodes_to(it.ciphertext@, out@[i].ciphertext@)
                },
        decreases raw@.len() - k,
    {
        let it = &raw[k];
        let record_id = decode_b64(it.record_id.as_str())?;
        let ciphertext = decode_b64(it.ciphertext.as_str())?;
        out.push(StorageItem { record_id, version: it.version, seq: it.seq, deleted: it.deleted, ciphertext });
        k = k + 1;
    }
    Ok(StoragePullPage { items: out, next_cursor, has_more })
}

/// A write as sent: record id and ciphertext in base64.
pub struct WireStorageWrite {
    pub record_id: String,
    pub expected_version: i64,
    pub deleted: bool,
    pub ciphertext: String,
}

/// The writes of a push as sent, in order.
pub fn wire_writes(writes: &Vec<StorageWrite>) -> (r: Vec<WireStorageWrite>)
    ensures
        r@.len() == writes@.len(),
        forall|i: int|
            0 <= i < writes@.len() ==> {
                let w = #[trigger] writes@[i];
                &&& r@[i].record_id@ == b64std(w.record_id@)
                &&& r@[i].expected_version == w.expected_version
                &&& r@[i].deleted == w.deleted
                &&& r@[i].ciphertext@ == b64std(w.ciphertext@)
            },
{
    let mut out: Vec<WireStorageWrite> = Vec::new();
    let mut k: usize = 0;
    while k < writes.len()
        invariant
            k <= writes@.len(),
            out@.len() == k,
            forall|i: int|
                0 <= i < k ==> {
                    let w = #[trigger] writes@[i];
                    &&& out@[i].record_id@ == b64std(w.record_id@)
                    &&& out@[i].expected_version == w.expected_version
                    &&& out@[i].deleted == w.deleted
                    &&& out@[i].ciphertext@ == b64std(w.ciphertext@)
                },
        decreases writes@.len() - k,
    {
        let w = &writes[k];
        out.push(
            WireStorageWrite {
                record_id: b64std_encode(w.record_id.as_slice()),
                expected_version: w.expected_version,
                deleted: w.deleted,
                ciphertext: b64std_encode(w.ciphertext.as_slice()),
            },
        );
        k = k + 1;
    }
    out
}

/// A write the server accepted, with its new version and sequence number.
pub struct StorageApplied {
    pub record_id: Vec<u8>,
    pub version: i64,
    pub seq: i64,
}

/// A write the server refused on its version check.
pub struct StorageConflict {
    pub record_id: Vec<u8>,
    pub current_version: i64,
}

/// The outcome of a push.
pub struct StoragePushResult {
    pub applied: Vec<StorageApplied>,
    pub conflicts: Vec<StorageConflict>,
}

/// An accepted write as it arrives.
pub struct RawStorageApplied {
    pub record_id: String,
    pub version: i64,
    pub seq: i64,
}

/// A refused write as it arrives.
pub struct RawStorageConflict {
    pub record_id: String,
    pub current_version: i64,
}

/// The decoded push outcome; fails when a record id is malformed.
pub fn storage_push_result(applied: &Vec<RawStorageApplied>, conflicts: &Vec<RawStorageConflict>) -> (r: Result<StoragePushResult, NetError>)
    ensures
        r is Ok <==> (forall|i: int| 0 <= i < applied@.len() ==> decodes((#[trigger] applied@[i]).record_id@))
            && (forall|i: int| 0 <= i < conflicts@.len() ==> decodes((#[trigger] conflicts@[i]).record_id@)),
        r matches Ok(p) ==> {
            &&& p.applied@.len() == applied@.len()
            &&& forall|i: int|
                0 <= i < applied@.len() ==> decodes_to((#[trigger] applied@[i]).record_id@, p.applied@[i].record_id@)
                    && p.applied@[i].version == applied@[i].version && p.applied@[i].seq == applied@[i].seq
            &&& p.conflicts@.len() == conflicts@.len()
            &&& forall|i: int|
                0 <= i < conflicts@.len() ==> decodes_to((#[trigger] conflicts@[i]).record_id@, p.conflicts@[i].record_id@)
                    && p.conflicts@[i].current_version == conflicts@[i].current_version
        },
        r matches Err(e) ==> e is Base64,
{
    let mut out_a: Vec<StorageApplied> = Vec::new();
    let mut k: usize = 0;
    while k < applied.len()
        invariant
            k <= applied@.len(),
            out_a@.len() == k,
            forall|i: int| 0 <= i < k ==> decodes((#[trigger] applied@[i]).record_id@),
            forall|i: int|
                0 <= i < k ==> decodes_to((#[trigger] applied@[i]).record_id@, out_a@[i].record_id@)
                    && out_a@[i].version == applied@[i].version && out_a@[i].seq == applied@[i].seq,
        decreases applied@.len() - k,
    {
        let record_id = decode_b64(applied[k].record_id.as_str())?;
        out_a.push(StorageApplied { record_id, version: applied[k].version, seq: applied[k].seq });
        k = k + 1;
    }
    let mut out_c: Vec<StorageConflict> = Vec::new();
    let mut j: usize = 0;
    while j < conflicts.len()
        invariant
            j <= conflicts@.len(),
            out_c@.len() == j,
            forall|i: int| 0 <= i < applied@.len() ==> decodes((#[trigger] applied@[i]).record_id@),
            forall|i: int| 0 <= i < j ==> decodes((#[trigger] conflicts@[i]).record_id@),
            forall|i: int|
                0 <= i < j ==> decodes_to((#[trigger] conflicts@[i]).record_id@, out_c@[i].record_id@)
                    && out_c@[i].current_version == conflicts@[i].current_version,
        decreases conflicts@.len() - j,
    {
        let record_id = decode_b64(conflicts[j].record_id.as_str())?;
        out_c.push(StorageConflict { record_id, current_version: conflicts[j].current_version });
        j = j + 1;
    }
    Ok(StoragePushResult { applied: out_a, conflicts: out_c })
}

/// A reserved attachment upload slot: where and how to upload the
/// ciphertext, and the URL to embed in the message pointer.
pub struct AttachmentUploadSlot {
    pub attachment_id: String,
    pub upload_url: String,
    pub upload_method: String,
    /// Headers to replay on the upload request.
    pub upload_headers: Vec<(String, String)>,
    pub download_url: String,
    pub expires_at_ms: i64,
}

/// Whether an authenticated request is retried: once, after re-authenticating,
/// when the server rejected the token (HTTP 401).
pub fn reauthenticate_and_retry(status: u16) -> (r: bool)
    ensures
        r == (status == 401),
{
    status == 401
}

} // verus!
