//! Recovery blob: building it from account state, its encrypted envelope, the
//! passkey-PRF key split, and the P-256 rotation key.
//!
//! Envelope: `version(1) ‖ nonce(12) ‖ AES-256-GCM(RecoveryBlob proto ‖ tag)`.
//! The protobuf body is produced and parsed by the caller; this module frames,
//! seals, opens and validates it.
use vstd::prelude::*;
use vstd::string::*;

use crate::bytes::{append_bytes, copy_all, copy_range};
use crate::error::{protocol, AppError};
use crate::text::string_views;
use crate::prims::{
    aes256gcm_decrypt, aes256gcm_encrypt, aes_gcm_open, aes_gcm_p_max, aes_gcm_seal,
    be_nat, hkdf_sha256_32, hkdf_sha256_expand_32, p256_keypair, p256_keypair_from_reduced,
    p256_order, p256_random_keypair, p256_scalar_ok, p256_sign_der, p256_sign_der_bytes, random_12,
};

verus! {

/// AES-GCM nonce length.
pub const NONCE_LEN: usize = 12;

/// Current recovery-blob wire-format version (protobuf, interned servers).
pub const RECOVERY_BLOB_VERSION: u8 = 4;

/// One homeserver of the interned server table.
pub struct ServerEntry {
    pub url: String,
}

/// A group the recovering device rejoins: its master key and the index of its
/// homeserver in the server table.
pub struct RecoveredGroup {
    pub master_key: Vec<u8>,
    pub server_index: u32,
}

/// The decrypted recovery blob.
pub struct RecoveryBlob {
    pub identity_keypair: Vec<u8>,
    pub servers: Vec<ServerEntry>,
    pub profile_key: Vec<u8>,
    pub display_name: String,
    pub groups: Vec<RecoveredGroup>,
    pub storage_key: Vec<u8>,
}

/// A single group's worth of input to the blob builder.
pub struct GroupBlobEntry {
    pub master_key: Vec<u8>,
    pub hosting_server_url: String,
}

// ── envelope ────────────────────────────────────────────────────────────────

/// The envelope bytes for a body sealed under `nonce`.
pub open spec fn sealed_blob(key: Seq<u8>, nonce: Seq<u8>, body: Seq<u8>) -> Seq<u8> {
    seq![RECOVERY_BLOB_VERSION] + nonce + aes_gcm_seal(key, nonce, body)
}

/// The body an envelope opens to under `key`, if any.
pub open spec fn open_blob(key: Seq<u8>, blob: Seq<u8>) -> Option<Seq<u8>> {
    if blob.len() < 1 + 12 + 16 || blob[0] != RECOVERY_BLOB_VERSION {
        None
    } else {
        aes_gcm_open(key, blob.subrange(1, 13), blob.subrange(13, blob.len() as int))
    }
}

/// Seals an encoded blob body under the 32-byte key with a fresh nonce.
pub fn encrypt_recovery_blob(body: &[u8], symmetric_key: &[u8; 32]) -> (r: Result<Vec<u8>, AppError>)
    ensures
        r is Ok <==> body@.len() <= aes_gcm_p_max(),
        r matches Ok(b) ==> b@.len() >= 1 + 12 + 16 && b@ == sealed_blob(
            symmetric_key@,
            b@.subrange(1, 13),
            body@,
        ),
        r matches Err(e) ==> e is Protocol,
{
    let nonce = random_12();
    let ct = match aes256gcm_encrypt(symmetric_key, &nonce, body) {
        Some(c) => c,
        None => return Err(protocol("recovery blob encryption failed")),
    };
    let mut blob: Vec<u8> = Vec::new();
    blob.push(RECOVERY_BLOB_VERSION);
    append_bytes(&mut blob, nonce.as_slice());
    append_bytes(&mut blob, ct.as_slice());
    assert(blob@.subrange(1, 13) =~= nonce@);
    assert(blob@ =~= sealed_blob(symmetric_key@, nonce@, body@));
    Ok(blob)
}

/// Opens an envelope, giving back the encoded body. Opening what
/// [`encrypt_recovery_blob`] sealed under the same key gives back the body.
pub fn decrypt_recovery_blob(blob: &[u8], symmetric_key: &[u8; 32]) -> (r: Result<Vec<u8>, AppError>)
    ensures
        r is Ok <==> open_blob(symmetric_key@, blob@) is Some,
        r matches Ok(b) ==> open_blob(symmetric_key@, blob@) == Some(b@),
        r matches Err(e) ==> e is Protocol,
        forall|nonce: Seq<u8>, body: Seq<u8>|
            #![trigger sealed_blob(symmetric_key@, nonce, body)]
            nonce.len() == 12 && body.len() <= aes_gcm_p_max() && blob@.len() >= 1 + 12 + 16
                && blob@ == sealed_blob(symmetric_key@, nonce, body) ==> (r matches Ok(b) && b@
                == body),
{
    if blob.len() < 1 + NONCE_LEN + 16 {
        return Err(protocol("recovery blob too short"));
    }
    if blob[0] != RECOVERY_BLOB_VERSION {
        return Err(protocol("unsupported recovery blob version"));
    }
    let nb = copy_range(blob, 1, 13);
    let nonce: [u8; 12] = [nb[0], nb[1], nb[2], nb[3], nb[4], nb[5], nb[6], nb[7], nb[8], nb[9], nb[10], nb[11]];
    assert(nonce@ =~= blob@.subrange(1, 13));
    let ct = copy_range(blob, 13, blob.len());
    proof {
        assert forall|n: Seq<u8>, body: Seq<u8>|
            #![trigger sealed_blob(symmetric_key@, n, body)]
            n.len() == 12 && blob@ == sealed_blob(symmetric_key@, n, body) implies nonce@ == n
            && ct@ == aes_gcm_seal(symmetric_key@, n, body) by {
            let s = sealed_blob(symmetric_key@, n, body);
            assert(s.subrange(1, 13) =~= n);
            assert(s.subrange(13, s.len() as int) =~= aes_gcm_seal(symmetric_key@, n, body));
        }
    }
    match aes256gcm_decrypt(symmetric_key, &nonce, ct.as_slice()) {
        Some(p) => Ok(p),
        None => Err(protocol("recovery blob decryption failed (wrong key?)")),
    }
}

/// Every group's server index points inside the server table.
pub open spec fn indices_in_range(blob: &RecoveryBlob) -> bool {
    forall|i: int| 0 <= i < blob.groups@.len() ==> (#[trigger] blob.groups@[i]).server_index
        < blob.servers@.len()
}

/// Refuses a parsed blob with a dangling group server index, so callers may
/// index the server table freely.
pub fn validate_recovery_blob(blob: &RecoveryBlob) -> (r: Result<(), AppError>)
    ensures
        r is Ok <==> indices_in_range(blob),
        r matches Err(e) ==> e is Protocol,
{
    let n = blob.servers.len();
    let mut i: usize = 0;
    while i < blob.groups.len()
        invariant
            n == blob.servers@.len(),
            i <= blob.groups@.len(),
            forall|j: int| 0 <= j < i ==> (#[trigger] blob.groups@[j]).server_index < n,
        decreases blob.groups@.len() - i,
    {
        if blob.groups[i].server_index as usize >= n {
            return Err(protocol("recovery blob group server_index out of range"));
        }
        i = i + 1;
    }
    Ok(())
}

// ── building the blob ───────────────────────────────────────────────────────

/// The distinct urls of `urls`, in first-seen order.
pub open spec fn interned(urls: Seq<Seq<char>>) -> Seq<Seq<char>>
    decreases urls.len(),
{
    if urls.len() == 0 {
        Seq::empty()
    } else {
        let d = interned(urls.drop_last());
        if d.contains(urls.last()) {
            d
        } else {
            d.push(urls.last())
        }
    }
}

/// Interning keeps every url, adds nothing else, and never repeats one.
pub proof fn lemma_interned(urls: Seq<Seq<char>>)
    ensures
        forall|i: int, j: int|
            0 <= i < j < interned(urls).len() ==> interned(urls)[i] != interned(urls)[j],
        forall|u: Seq<char>| urls.contains(u) <==> interned(urls).contains(u),
        interned(urls).len() <= urls.len(),
        urls.len() > 0 ==> interned(urls).len() > 0 && interned(urls)[0] == urls[0],
    decreases urls.len(),
{
    if urls.len() > 0 {
        let p = urls.drop_last();
        let d = interned(p);
        let last = urls.last();
        lemma_interned(p);
        assert forall|u: Seq<char>| urls.contains(u) implies interned(urls).contains(u) by {
            let k = choose|k: int| 0 <= k < urls.len() && urls[k] == u;
            if k < urls.len() - 1 {
                assert(p[k] == u);
                assert(p.contains(u));
                assert(d.contains(u));
                let m = choose|m: int| 0 <= m < d.len() && d[m] == u;
                if !d.contains(last) {
                    assert(d.push(last)[m] == u);
                }
            } else {
                if !d.contains(last) {
                    assert(d.push(last)[d.len() as int] == u);
                }
            }
        }
        assert forall|u: Seq<char>| interned(urls).contains(u) implies urls.contains(u) by {
            let m = choose|m: int| 0 <= m < interned(urls).len() && interned(urls)[m] == u;
            if m < d.len() {
                assert(d[m] == u);
                assert(d.contains(u));
                assert(p.contains(u));
                let k = choose|k: int| 0 <= k < p.len() && p[k] == u;
                assert(urls[k] == u);
            } else {
                assert(u == last);
                assert(urls[urls.len() - 1] == u);
            }
        }
        if p.len() > 0 {
            assert(p[0] == urls[0]);
        } else {
            assert(d =~= Seq::<Seq<char>>::empty());
        }
    }
}

/// The urls of a server table.
pub open spec fn server_urls(servers: Seq<ServerEntry>) -> Seq<Seq<char>> {
    servers.map_values(|s: ServerEntry| s.url@)
}

/// The hosting urls of the blob's group inputs.
pub open spec fn group_urls(groups: Seq<GroupBlobEntry>) -> Seq<Seq<char>> {
    groups.map_values(|g: GroupBlobEntry| g.hosting_server_url@)
}


/// Index of `url` in `servers`, adding it at the end when it is new.
fn intern(servers: &mut Vec<ServerEntry>, url: &str) -> (r: u32)
    requires
        old(servers)@.len() < u32::MAX,
    ensures
        final(servers)@.len() <= old(servers)@.len() + 1,
        server_urls(final(servers)@) == (if server_urls(old(servers)@).contains(url@) {
            server_urls(old(servers)@)
        } else {
            server_urls(old(servers)@).push(url@)
        }),
        final(servers)@.len() >= old(servers)@.len(),
        forall|j: int| 0 <= j < old(servers)@.len() ==> #[trigger] final(servers)@[j].url@ == old(servers)@[j].url@,
        r < final(servers)@.len(),
        final(servers)@[r as int].url@ == url@,
        forall|j: int| 0 <= j < r ==> final(servers)@[j].url@ != url@,
{
    let mut i: usize = 0;
    while i < servers.len()
        invariant
            i <= servers@.len(),
            servers@ == old(servers)@,
            old(servers)@.len() < u32::MAX,
            forall|j: int| 0 <= j < i ==> servers@[j].url@ != url@,
        decreases servers@.len() - i,
    {
        if crate::text::str_eq(servers[i].url.as_str(), url) {
            assert(servers@[i as int].url@ == url@);
            assert(server_urls(servers@)[i as int] == url@);
            assert(i < u32::MAX);
            return i as u32;
        }
        i = i + 1;
    }
    proof {
        if server_urls(old(servers)@).contains(url@) {
            let k = choose|k: int| 0 <= k < server_urls(old(servers)@).len() && server_urls(old(servers)@)[k] == url@;
            assert(old(servers)@[k].url@ == url@);
        }
    }
    servers.push(ServerEntry { url: String::from_str(url) });
    assert(server_urls(servers@) =~= server_urls(old(servers)@).push(url@));
    (servers.len() - 1) as u32
}

/// Builds a recovery blob from the current account state, interning the
/// homeserver urls of `account_servers` and of every group into one table.
/// `account_servers[0]` lands at `servers[0]`; later urls are added in
/// first-seen order, and each group points at its url's entry.
pub fn build_recovery_blob(
    identity_keypair_bytes: &[u8],
    account_servers: &[String],
    profile_key: &[u8],
    display_name: &str,
    groups: &[GroupBlobEntry],
    storage_key: &[u8],
) -> (r: RecoveryBlob)
    requires
        account_servers@.len() + groups@.len() < u32::MAX,
    ensures
        r.identity_keypair@ == identity_keypair_bytes@,
        r.profile_key@ == profile_key@,
        r.display_name@ == display_name@,
        r.storage_key@ == storage_key@,
        server_urls(r.servers@) == interned(string_views(account_servers@) + group_urls(groups@)),
        r.groups@.len() == groups@.len(),
        forall|i: int|
            0 <= i < groups@.len() ==> {
                &&& (#[trigger] r.groups@[i]).master_key@ == groups@[i].master_key@
                &&& r.groups@[i].server_index < r.servers@.len()
                &&& r.servers@[r.groups@[i].server_index as int].url@ == groups@[i].hosting_server_url@
            },
{
    let mut servers: Vec<ServerEntry> = Vec::new();
    let ghost all = string_views(account_servers@) + group_urls(groups@);
    let mut i: usize = 0;
    while i < account_servers.len()
        invariant
            i <= account_servers@.len(),
            account_servers@.len() + groups@.len() < u32::MAX,
            all == string_views(account_servers@) + group_urls(groups@),
            server_urls(servers@) == interned(all.subrange(0, i as int)),
            servers@.len() <= i,
        decreases account_servers@.len() - i,
    {
        let _ = intern(&mut servers, account_servers[i].as_str());
        assert(all.subrange(0, i + 1).drop_last() =~= all.subrange(0, i as int));
        assert(all.subrange(0, i + 1).last() == account_servers@[i as int]@);
        i = i + 1;
    }
    let n = account_servers.len();
    let mut recovered: Vec<RecoveredGroup> = Vec::new();
    let mut k: usize = 0;
    while k < groups.len()
        invariant
            n == account_servers@.len(),
            k <= groups@.len(),
            n + groups@.len() < u32::MAX,
            all == string_views(account_servers@) + group_urls(groups@),
            server_urls(servers@) == interned(all.subrange(0, n + k)),
            servers@.len() <= n + k,
            recovered@.len() == k,
            forall|j: int|
                0 <= j < k ==> {
                    &&& (#[trigger] recovered@[j]).master_key@ == groups@[j].master_key@
                    &&& recovered@[j].server_index < servers@.len()
                    &&& servers@[recovered@[j].server_index as int].url@ == groups@[j].hosting_server_url@
                },
        decreases groups@.len() - k,
    {
        let ghost before = servers@;
        let idx = intern(&mut servers, groups[k].hosting_server_url.as_str());
        proof {
            assert(all.subrange(0, n + k + 1).drop_last() =~= all.subrange(0, n + k));
            assert(all.subrange(0, n + k + 1).last() == groups@[k as int].hosting_server_url@);
        }
        recovered.push(RecoveredGroup { master_key: copy_all(groups[k].master_key.as_slice()), server_index: idx });
        proof {
            assert forall|j: int| 0 <= j < k + 1 implies {
                &&& (#[trigger] recovered@[j]).master_key@ == groups@[j].master_key@
                &&& recovered@[j].server_index < servers@.len()
                &&& servers@[recovered@[j].server_index as int].url@ == groups@[j].hosting_server_url@
            } by {
                if j < k {
                    let si = recovered@[j].server_index as int;
                    assert(si < before.len());
                    assert(servers@[si].url@ == before[si].url@);
                }
            }
        }
        k = k + 1;
    }
    assert(all.subrange(0, n + groups@.len()) =~= all);
    RecoveryBlob {
        identity_keypair: copy_all(identity_keypair_bytes),
        servers,
        profile_key: copy_all(profile_key),
        display_name: String::from_str(display_name),
        groups: recovered,
        storage_key: copy_all(storage_key),
    }
}

// ── keys ────────────────────────────────────────────────────────────────────

/// HKDF label of the rotation-key seed.
pub open spec fn label_rotation() -> Seq<u8> {
    seq![97u8, 99, 116, 110, 101, 116, 45, 114, 111, 116, 97, 116, 105, 111, 110, 45, 118, 49]
}

/// HKDF label of the blob-encryption key.
pub open spec fn label_blob() -> Seq<u8> {
    seq![97u8, 99, 116, 110, 101, 116, 45, 98, 108, 111, 98, 45, 118, 49]
}

/// Splits the passkey PRF output into `(rotation_seed, blob_key)`, each the
/// HKDF-SHA-256 expansion of the PRF under its own label
/// (`actnet-rotation-v1`, `actnet-blob-v1`).
pub fn derive_recovery_keys_from_prf(prf_output: &[u8]) -> (r: ([u8; 32], [u8; 32]))
    ensures
        r.0@ == hkdf_sha256_32(prf_output@, label_rotation()),
        r.1@ == hkdf_sha256_32(prf_output@, label_blob()),
        // "actnet-rotation-v1"
        r.0@ == hkdf_sha256_32(
            prf_output@,
            seq![97u8, 99, 116, 110, 101, 116, 45, 114, 111, 116, 97, 116, 105, 111, 110, 45, 118, 49],
        ),
        // "actnet-blob-v1"
        r.1@ == hkdf_sha256_32(prf_output@, seq![97u8, 99, 116, 110, 101, 116, 45, 98, 108, 111, 98, 45, 118, 49]),
{
    let rot: [u8; 18] = [97u8, 99, 116, 110, 101, 116, 45, 114, 111, 116, 97, 116, 105, 111, 110, 45, 118, 49];
    let blob: [u8; 14] = [97u8, 99, 116, 110, 101, 116, 45, 98, 108, 111, 98, 45, 118, 49];
    assert(rot@ =~= label_rotation());
    assert(blob@ =~= label_blob());
    let rotation_seed = hkdf_sha256_expand_32(prf_output, rot.as_slice());
    let blob_key = hkdf_sha256_expand_32(prf_output, blob.as_slice());
    proof {
        law_recovery_key_labels();
    }
    (rotation_seed, blob_key)
}

/// The rotation seed is expanded under the ASCII bytes of
/// `actnet-rotation-v1` and the blob key under those of `actnet-blob-v1`:
/// two different labels, so the two keys come from distinct expansions.
pub proof fn law_recovery_key_labels()
    ensures
        label_rotation() == seq![97u8, 99, 116, 110, 101, 116, 45, 114, 111, 116, 97, 116, 105, 111, 110, 45, 118, 49],
        label_blob() == seq![97u8, 99, 116, 110, 101, 116, 45, 98, 108, 111, 98, 45, 118, 49],
        label_rotation() != label_blob(),
        label_rotation().len() == 18,
        label_blob().len() == 14,
{
    assert(label_rotation().len() != label_blob().len());
}

/// The scalar a rotation seed gives: the seed's big-endian value reduced mod
/// the group order, or, in the vanishingly rare case that this is zero, the
/// reduction of the seed plus one, which is 1.
pub open spec fn rotation_scalar(seed: Seq<u8>) -> nat {
    if be_nat(seed) % p256_order() != 0 {
        be_nat(seed) % p256_order()
    } else {
        1
    }
}

/// A run of zero bytes has value zero.
proof fn lemma_be_nat_zeros(b: Seq<u8>)
    requires
        forall|i: int| 0 <= i < b.len() ==> b[i] == 0u8,
    ensures
        be_nat(b) == 0,
    decreases b.len(),
{
    if b.len() > 0 {
        lemma_be_nat_zeros(b.drop_last());
    }
}

/// Deterministically derives the P-256 rotation key pair
/// `(private scalar bytes, compressed public key)` from a 32-byte seed: the
/// seed is reduced mod the group order to a scalar in `[1, n-1]`; a seed that
/// reduces to zero is retried once as the seed plus one.
pub fn derive_rotation_key_from_seed(seed: &[u8; 32]) -> (r: (Vec<u8>, Vec<u8>))
    ensures
        r.0@.len() == 32,
        be_nat(r.0@) == rotation_scalar(seed@),
        (r.0@, r.1@) == p256_keypair(r.0@),
{
    match p256_keypair_from_reduced(seed) {
        Some(kp) => kp,
        None => {
            let one: [u8; 32] = [0u8, 0, 0, 0, 0, 0, 0, 0, 0, 0, 0, 0, 0, 0, 0, 0, 0, 0, 0, 0, 0, 0, 0, 0, 0, 0, 0, 0, 0, 0, 0, 1];
            proof {
                lemma_be_nat_zeros(one@.drop_last());
                assert(be_nat(one@) == 1);
            }
            match p256_keypair_from_reduced(&one) {
                Some(kp) => kp,
                None => {
                    assert(false);
                    (Vec::new(), Vec::new())
                },
            }
        },
    }
}

/// A random P-256 rotation key `(private scalar bytes, compressed public
/// key)`, for accounts that skip passkey creation. The private key is a valid
/// 32-byte scalar and the public key is the one it gives.
pub fn generate_rotation_key() -> (r: (Vec<u8>, Vec<u8>))
    ensures
        r.0@.len() == 32,
        p256_scalar_ok(r.0@),
        (r.0@, r.1@) == p256_keypair(r.0@),
        be_nat(r.0@) == rotation_scalar(r.0@),
{
    let kp = p256_random_keypair();
    proof {
        vstd::arithmetic::div_mod::lemma_small_mod(be_nat(kp.0@), p256_order());
    }
    kp
}

/// DER-encoded ECDSA signature of `payload` with a 32-byte rotation key.
pub fn sign_with_rotation_key(private_key_bytes: &[u8], payload: &[u8]) -> (r: Result<Vec<u8>, AppError>)
    requires
        private_key_bytes@.len() == 32,
    ensures
        r is Ok <==> p256_scalar_ok(private_key_bytes@),
        r matches Ok(s) ==> s@ == p256_sign_der(private_key_bytes@, payload@),
        r matches Err(e) ==> e is Protocol,
{
    match p256_sign_der_bytes(private_key_bytes, payload) {
        Some(s) => Ok(s),
        None => Err(protocol("invalid rotation key")),
    }
}

} // verus!
