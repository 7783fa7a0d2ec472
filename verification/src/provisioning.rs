//! The device-linking channel: the key both devices derive from their
//! ephemeral agreement, the sealed provisioning bundle, and the pairing code
//! shown as a QR code or pasted text.
//!
//! Sealed bundle: `version(1) ‖ nonce(12) ‖ AES-256-GCM(bundle ‖ tag)`.
//! Pairing code: `av1.` followed by the base64url (no padding) of the mailbox
//! origin, the mailbox session id and the shower's ephemeral public key,
//! separated by `.`.
use vstd::prelude::*;
use vstd::string::*;

use crate::error::{provisioning, AppError};
use crate::prims::{
    aes256gcm_decrypt, aes256gcm_encrypt, aes_gcm_open, aes_gcm_p_max, aes_gcm_seal, b64url, b64url_decode,
    b64url_decode_str, b64url_encode, hkdf_sha256_32, hkdf_sha256_expand_32, is_b64url_char, random_12,
    utf8_to_string,
};
use crate::text::{
    all_whitespace, is_unicode_whitespace, join4, lemma_trim_padded, lemma_split_head, lemma_split_whole, lemma_trim_clean, split_on,
    split_str, str_eq, trim, trim_str,
};
use vstd::utf8::*;

verus! {

broadcast use vstd::utf8::encode_utf8_decode_utf8, vstd::utf8::encode_utf8_valid_utf8;

/// AES-GCM nonce length.
pub const NONCE_LEN: usize = 12;

/// Sealed-bundle format version.
pub const PROVISIONING_BUNDLE_VERSION: u8 = 1;

/// Mailbox server used only when a device without a server shows the code.
pub const DEFAULT_MAILBOX_SERVER: &'static str = "https://av.theavalanche.net";

/// Mailbox slot the scanning device posts its ephemeral public key to.
pub const SLOT_HANDSHAKE: &'static str = "handshake";
/// Mailbox slot the existing device posts the sealed bundle to.
pub const SLOT_BUNDLE: &'static str = "bundle";

/// HKDF label of the provisioning key.
pub open spec fn provisioning_label() -> Seq<u8> {
    seq![
        97u8, 99, 116, 110, 101, 116, 45, 112, 114, 111, 118, 105, 115, 105, 111, 110, 105, 110, 103,
        45, 118, 49,
    ]
}

fn provisioning_label_bytes() -> (r: Vec<u8>)
    ensures
        r@ == provisioning_label(),
{
    let r: Vec<u8> = vec![
        97u8, 99, 116, 110, 101, 116, 45, 112, 114, 111, 118, 105, 115, 105, 111, 110, 105, 110, 103,
        45, 118, 49,
    ];
    proof {
        assert(r@ =~= provisioning_label());
    }
    r
}

/// The AES-256 key of a link, from the raw X25519 shared secret:
/// HKDF-SHA-256 with no salt and the label `actnet-provisioning-v1`.
pub fn derive_shared_key(ecdh_secret: &[u8; 32]) -> (r: [u8; 32])
    ensures
        r@ == hkdf_sha256_32(ecdh_secret@, provisioning_label()),
{
    let label = provisioning_label_bytes();
    hkdf_sha256_expand_32(ecdh_secret, label.as_slice())
}

/// A sealed bundle: version, nonce, and the AES-GCM sealing of the encoded
/// bundle under the link key.
pub open spec fn sealed_bundle(key: Seq<u8>, nonce: Seq<u8>, body: Seq<u8>) -> Seq<u8> {
    seq![PROVISIONING_BUNDLE_VERSION] + nonce + aes_gcm_seal(key, nonce, body)
}

/// Seals the encoded provisioning bundle `body` under the link key with a
/// fresh random nonce; fails exactly when the cipher refuses the input
/// (longer than 2^36 bytes).
pub fn seal_bundle(body: &[u8], shared_key: &[u8; 32]) -> (r: Result<Vec<u8>, AppError>)
    ensures
        r is Ok <==> body@.len() <= aes_gcm_p_max(),
        r matches Ok(blob) ==> exists|nonce: Seq<u8>|
            nonce.len() == NONCE_LEN && blob@ == sealed_bundle(shared_key@, nonce, body@),
        r matches Err(e) ==> e is Provisioning,
{
    let nonce = random_12();
    let ct = match aes256gcm_encrypt(shared_key, &nonce, body) {
        Some(c) => c,
        None => return Err(provisioning("bundle encryption failed")),
    };
    let mut blob: Vec<u8> = Vec::new();
    blob.push(PROVISIONING_BUNDLE_VERSION);
    crate::bytes::append_bytes(&mut blob, &nonce);
    crate::bytes::append_bytes(&mut blob, ct.as_slice());
    proof {
        assert(blob@ =~= sealed_bundle(shared_key@, nonce@, body@));
    }
    Ok(blob)
}

/// Opens a sealed bundle and returns the encoded bundle: it must be at least
/// `version ‖ nonce ‖ tag` long, carry the supported version, and
/// authenticate under the link key. Opening what [`seal_bundle`] sealed
/// under the same key gives back the bundle.
pub fn open_bundle(blob: &[u8], shared_key: &[u8; 32]) -> (r: Result<Vec<u8>, AppError>)
    ensures
        r is Ok <==> (blob@.len() >= 1 + NONCE_LEN + 16 && blob@[0] == PROVISIONING_BUNDLE_VERSION
            && aes_gcm_open(shared_key@, blob@.subrange(1, 13), blob@.subrange(13, blob@.len() as int)) is Some),
        r matches Ok(body) ==> aes_gcm_open(shared_key@, blob@.subrange(1, 13), blob@.subrange(13, blob@.len() as int))
            == Some(body@),
        r matches Err(e) ==> e is Provisioning,
        forall|nonce: Seq<u8>, body: Seq<u8>|
            #![trigger sealed_bundle(shared_key@, nonce, body)]
            nonce.len() == NONCE_LEN && body.len() <= aes_gcm_p_max() && blob@.len() >= 1 + NONCE_LEN + 16
                && blob@ == sealed_bundle(shared_key@, nonce, body) ==> (r matches Ok(b) && b@ == body),
{
    if blob.len() < 1 + NONCE_LEN + 16 {
        return Err(provisioning("provisioning bundle too short"));
    }
    if blob[0] != PROVISIONING_BUNDLE_VERSION {
        return Err(provisioning("unsupported provisioning bundle version"));
    }
    let nb = crate::bytes::copy_range(blob, 1, 13);
    let nonce: [u8; 12] = [nb[0], nb[1], nb[2], nb[3], nb[4], nb[5], nb[6], nb[7], nb[8], nb[9], nb[10], nb[11]];
    assert(nonce@ =~= blob@.subrange(1, 13));
    let ct = crate::bytes::copy_range(blob, 13, blob.len());
    proof {
        assert forall|n: Seq<u8>, body: Seq<u8>|
            #![trigger sealed_bundle(shared_key@, n, body)]
            n.len() == NONCE_LEN && blob@ == sealed_bundle(shared_key@, n, body) implies nonce@ == n
            && ct@ == aes_gcm_seal(shared_key@, n, body) by {
            let s = sealed_bundle(shared_key@, n, body);
            assert(s.subrange(1, 13) =~= n);
            assert(s.subrange(13, s.len() as int) =~= aes_gcm_seal(shared_key@, n, body));
        }
    }
    match aes256gcm_decrypt(shared_key, &nonce, ct.as_slice()) {
        Some(body) => Ok(body),
        None => Err(provisioning("bundle decryption failed (wrong key?)")),
    }
}

// ── pairing code ────────────────────────────────────────────────────────────

/// The out-of-band pairing payload carried by the QR or pasted code.
#[derive(Debug, Clone, PartialEq, Eq)]
pub struct PairingCode {
    /// Origin of the server hosting the mailbox (no trailing slash).
    pub mailbox_url: String,
    /// Mailbox session id allocated by that server.
    pub session_id: String,
    /// The shower's serialized ephemeral public key.
    pub ephemeral_pub: Vec<u8>,
}

/// The canonical pairing text of a code.
pub open spec fn pairing_text(url: Seq<char>, session: Seq<char>, public_key: Seq<u8>) -> Seq<char> {
    "av1"@ + seq!['.'] + b64url(encode_utf8(url)) + seq!['.'] + b64url(encode_utf8(session))
        + seq!['.'] + b64url(public_key)
}

/// The fields a pairing text names: after trimming surrounding whitespace it
/// must be exactly four `.`-separated pieces, the first `av1`, the others
/// base64url, the first two of them UTF-8.
pub open spec fn pairing_fields(s: Seq<char>) -> Option<(Seq<char>, Seq<char>, Seq<u8>)> {
    let parts = split_on(trim(s), '.');
    if parts.len() != 4 || parts[0] != "av1"@ {
        None
    } else {
        match (b64url_decode(parts[1]), b64url_decode(parts[2]), b64url_decode(parts[3])) {
            (Some(u), Some(sid), Some(pk)) => if valid_utf8(u) && valid_utf8(sid) {
                Some((decode_utf8(u), decode_utf8(sid), pk))
            } else {
                None
            },
            _ => None,
        }
    }
}

proof fn lemma_no_dot(s: Seq<char>)
    requires
        forall|i: int| 0 <= i < s.len() ==> is_b64url_char(#[trigger] s[i]),
    ensures
        !s.contains('.'),
{
    if s.contains('.') {
        let i = choose|i: int| 0 <= i < s.len() && s[i] == '.';
        assert(is_b64url_char(s[i]));
    }
}

impl PairingCode {
    /// The canonical pairing text, `av1.<url>.<session>.<key>`; decoding it,
    /// even with whitespace pasted around it, gives this code back.
    pub fn encode(&self) -> (r: String)
        ensures
            r@ == pairing_text(self.mailbox_url@, self.session_id@, self.ephemeral_pub@),
            pairing_fields(r@) == Some((self.mailbox_url@, self.session_id@, self.ephemeral_pub@)),
            forall|w1: Seq<char>, w2: Seq<char>|
                all_whitespace(w1) && all_whitespace(w2) ==> #[trigger] pairing_fields(w1 + r@ + w2)
                    == Some((self.mailbox_url@, self.session_id@, self.ephemeral_pub@)),
    {
        let url = b64url_encode(self.mailbox_url.as_str().as_bytes());
        let session = b64url_encode(self.session_id.as_str().as_bytes());
        let key = b64url_encode(self.ephemeral_pub.as_slice());
        let head = join4("av1", ".", url.as_str(), ".");
        let r = join4(head.as_str(), session.as_str(), ".", key.as_str());
        proof {
            reveal_strlit("av1");
            reveal_strlit(".");
            let t = r@;
            assert(t =~= pairing_text(self.mailbox_url@, self.session_id@, self.ephemeral_pub@));
            lemma_no_dot(url@);
            lemma_no_dot(session@);
            lemma_no_dot(key@);
            assert(!"av1"@.contains('.')) by {
                if "av1"@.contains('.') {
                    let i = choose|i: int| 0 <= i < 3 && "av1"@[i] == '.';
                }
            }
            let rest3 = key@;
            let rest2 = session@ + seq!['.'] + rest3;
            let rest1 = url@ + seq!['.'] + rest2;
            assert(t =~= "av1"@ + seq!['.'] + rest1);
            lemma_split_head("av1"@, rest1, '.');
            lemma_split_head(url@, rest2, '.');
            lemma_split_head(session@, rest3, '.');
            lemma_split_whole(rest3, '.');
            assert(t[0] == 'a');
            assert(!is_unicode_whitespace(t[t.len() - 1])) by {
                if rest3.len() > 0 {
                    assert(t[t.len() - 1] == rest3[rest3.len() - 1]);
                    assert(is_b64url_char(rest3[rest3.len() - 1]));
                } else {
                    assert(t[t.len() - 1] == '.');
                }
            }
            lemma_trim_clean(t);
            assert(split_on(trim(t), '.') =~= seq!["av1"@, url@, session@, key@]);
            assert forall|w1: Seq<char>, w2: Seq<char>|
                all_whitespace(w1) && all_whitespace(w2) implies #[trigger] pairing_fields(w1 + t + w2)
                == pairing_fields(t) by {
                lemma_trim_padded(w1, t, w2);
            }
        }
        r
    }

    /// Parses a pairing text, ignoring surrounding whitespace. Refuses a wrong
    /// prefix, a wrong number of pieces, and pieces that are not base64url
    /// (or, for the first two, not UTF-8).
    pub fn decode(s: &str) -> (r: Result<PairingCode, AppError>)
        ensures
            r is Ok <==> pairing_fields(s@) is Some,
            r matches Ok(pc) ==> pairing_fields(s@) == Some((pc.mailbox_url@, pc.session_id@, pc.ephemeral_pub@)),
            r matches Err(e) ==> e is Provisioning,
    {
        let t = trim_str(s);
        let parts = split_str(t, '.');
        proof {
            reveal_strlit("av1");
        }
        if parts.len() != 4 || !str_eq(parts[0], "av1") {
            proof {
                if parts@.len() == 4 {
                    assert(parts@.map_values(|p: &str| p@)[0] == parts@[0]@);
                }
            }
            return Err(provisioning("invalid pairing code"));
        }
        proof {
            assert(parts@.map_values(|p: &str| p@)[1] == parts@[1]@);
            assert(parts@.map_values(|p: &str| p@)[2] == parts@[2]@);
            assert(parts@.map_values(|p: &str| p@)[3] == parts@[3]@);
        }
        let url_bytes = match b64url_decode_str(parts[1]) {
            Some(b) => b,
            None => return Err(provisioning("invalid pairing code (mailbox_url)")),
        };
        let mailbox_url = match utf8_to_string(url_bytes) {
            Some(u) => u,
            None => return Err(provisioning("invalid pairing code (mailbox_url utf8)")),
        };
        let session_bytes = match b64url_decode_str(parts[2]) {
            Some(b) => b,
            None => return Err(provisioning("invalid pairing code (session_id)")),
        };
        let session_id = match utf8_to_string(session_bytes) {
            Some(u) => u,
            None => return Err(provisioning("invalid pairing code (session_id utf8)")),
        };
        let ephemeral_pub = match b64url_decode_str(parts[3]) {
            Some(b) => b,
            None => return Err(provisioning("invalid pairing code (ephemeral_pub)")),
        };
        Ok(PairingCode { mailbox_url, session_id, ephemeral_pub })
    }
}


/// A link handshake in progress, held between the pairing-code step and the
/// bundle step, on either device.
pub struct LinkHandshake {
    /// This device's ephemeral key pair.
    pub ephemeral: crate::ephemeral::EphemeralKeyPair,
    /// Mailbox origin both devices rendezvous through.
    pub mailbox_url: String,
    /// Mailbox session id.
    pub session_id: String,
    /// The peer's ephemeral public key: known when we scanned the peer's code,
    /// absent when we showed ours (it then arrives in the handshake slot).
    pub peer_pub: Option<Vec<u8>>,
}

} // verus!
