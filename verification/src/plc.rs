//! `did:plc` operations: `did:key` encodings, the genesis and identity-update
//! operations, signatures, content ids, DID derivation, the idempotent
//! submission decision, and reading the homeserver out of a DID document.
//!
//! The DAG-CBOR encoding of an operation is the caller's (it is a serde
//! encoding of the operation record); the functions here take those bytes.
use vstd::prelude::*;
use vstd::string::*;

use crate::error::{protocol, AppError};
use crate::prims::{
    b64url, b64url_encode, base32_lower, base32_lower_encode, base58, base58_encode, p256_scalar_ok,
    p256_sign_raw, p256_sign_raw_bytes, sha256, sha256_digest,
};
use crate::text::{join2, str_eq};

verus! {

/// The public PLC directory.
pub const PLC_DIRECTORY_URL: &'static str = "https://plc.directory";

/// The service id under which the homeserver is listed.
pub const HOMESERVER_SERVICE_ID: &'static str = "avalanche_homeserver";
/// The service type of the homeserver.
pub const HOMESERVER_SERVICE_TYPE: &'static str = "AvalancheHomeserver";
/// The verification-method id of the device identity key.
pub const IDENTITY_METHOD_ID: &'static str = "avalanche";
/// The operation type of every operation built here.
pub const PLC_OPERATION_TYPE: &'static str = "plc_operation";

/// `did:key` prefix bytes of a compressed P-256 key (varint 0x1200).
pub open spec fn multicodec_p256() -> Seq<u8> {
    seq![0x80u8, 0x24u8]
}

/// `did:key` prefix bytes of an Ed25519 key (varint 0xed).
pub open spec fn multicodec_ed25519() -> Seq<u8> {
    seq![0xedu8, 0x01u8]
}

fn prefixed(p0: u8, p1: u8, key: &[u8]) -> (r: Vec<u8>)
    ensures
        r@ == seq![p0, p1] + key@,
{
    let mut bytes: Vec<u8> = Vec::new();
    bytes.push(p0);
    bytes.push(p1);
    crate::bytes::append_bytes(&mut bytes, key);
    proof {
        assert(bytes@ =~= seq![p0, p1] + key@);
    }
    bytes
}

/// `did:key:z` followed by the base58 of the multicodec-prefixed key.
pub open spec fn did_key(prefix: Seq<u8>, key: Seq<u8>) -> Seq<char> {
    "did:key:z"@ + base58(prefix + key)
}

/// The `did:key` of a compressed P-256 public key.
pub fn did_key_p256(compressed_pub: &[u8]) -> (r: String)
    ensures
        r@ == did_key(multicodec_p256(), compressed_pub@),
{
    let bytes = prefixed(0x80, 0x24, compressed_pub);
    let enc = base58_encode(bytes.as_slice());
    join2("did:key:z", enc.as_str())
}

/// The raw Ed25519 key of a serialized one: a 33-byte key with the `0x05`
/// type byte loses it, anything else is taken as raw.
pub open spec fn raw_ed25519(key: Seq<u8>) -> Seq<u8> {
    if key.len() == 33 && key[0] == 0x05 {
        key.subrange(1, 33)
    } else {
        key
    }
}

/// The `did:key` of an Ed25519 public key, raw or with the `0x05` type byte.
pub fn did_key_ed25519(pub_key: &[u8]) -> (r: String)
    ensures
        r@ == did_key(multicodec_ed25519(), raw_ed25519(pub_key@)),
{
    let raw: &[u8] = if pub_key.len() == 33 && pub_key[0] == 0x05 {
        let (_t, rest) = pub_key.split_at(1);
        rest
    } else {
        pub_key
    };
    let bytes = prefixed(0xed, 0x01, raw);
    let enc = base58_encode(bytes.as_slice());
    join2("did:key:z", enc.as_str())
}

/// A service listed in an operation.
pub struct PlcService {
    pub service_type: String,
    pub endpoint: String,
}

/// A PLC operation (genesis or update). The verification methods and
/// services are maps, held as `(key, value)` entries with no key twice (see
/// [`PlcOperation::wf`]); their encoding orders the keys.
pub struct PlcOperation {
    pub op_type: String,
    pub rotation_keys: Vec<String>,
    pub verification_methods: Vec<(String, String)>,
    pub also_known_as: Vec<String>,
    pub services: Vec<(String, PlcService)>,
    pub prev: Option<String>,
    pub sig: Option<String>,
}

/// No key occurs twice among `keys`.
pub open spec fn keys_distinct(keys: Seq<Seq<char>>) -> bool {
    forall|i: int, j: int| 0 <= i < j < keys.len() ==> keys[i] != keys[j]
}

impl PlcOperation {
    /// The keys of the verification-method map.
    pub open spec fn method_keys(&self) -> Seq<Seq<char>> {
        self.verification_methods@.map_values(|e: (String, String)| e.0@)
    }

    /// The keys of the service map.
    pub open spec fn service_keys(&self) -> Seq<Seq<char>> {
        self.services@.map_values(|e: (String, PlcService)| e.0@)
    }

    /// Both maps hold each key once.
    pub open spec fn wf(&self) -> bool {
        keys_distinct(self.method_keys()) && keys_distinct(self.service_keys())
    }
}

/// The homeserver service entry of an operation.
fn homeserver_services(server_url: &str) -> (r: Vec<(String, PlcService)>)
    ensures
        r@.len() == 1,
        r@[0].0@ == HOMESERVER_SERVICE_ID@,
        r@[0].1.service_type@ == HOMESERVER_SERVICE_TYPE@,
        r@[0].1.endpoint@ == server_url@,
{
    let mut services: Vec<(String, PlcService)> = Vec::new();
    services.push(
        (
            String::from_str(HOMESERVER_SERVICE_ID),
            PlcService {
                service_type: String::from_str(HOMESERVER_SERVICE_TYPE),
                endpoint: String::from_str(server_url),
            },
        ),
    );
    services
}

/// The unsigned genesis operation: the rotation key as the only rotation
/// key, the homeserver as the only service, no verification method, no
/// previous operation. The DID it yields depends only on the rotation key
/// and the server.
pub fn build_genesis_op(rotation_key_pub: &[u8], server_url: &str) -> (r: PlcOperation)
    ensures
        r.op_type@ == PLC_OPERATION_TYPE@,
        r.rotation_keys@.len() == 1,
        r.rotation_keys@[0]@ == did_key(multicodec_p256(), rotation_key_pub@),
        r.verification_methods@.len() == 0,
        r.also_known_as@.len() == 0,
        r.services@.len() == 1,
        r.services@[0].0@ == HOMESERVER_SERVICE_ID@,
        r.services@[0].1.service_type@ == HOMESERVER_SERVICE_TYPE@,
        r.services@[0].1.endpoint@ == server_url@,
        r.prev is None,
        r.sig is None,
        r.wf(),
{
    let mut rotation_keys: Vec<String> = Vec::new();
    rotation_keys.push(did_key_p256(rotation_key_pub));
    PlcOperation {
        op_type: String::from_str(PLC_OPERATION_TYPE),
        rotation_keys,
        verification_methods: Vec::new(),
        also_known_as: Vec::new(),
        services: homeserver_services(server_url),
        prev: None,
        sig: None,
    }
}

/// The unsigned update that adds the device identity key as the `avalanche`
/// verification method, chained to the operation with content id
/// `prev_cid`; rotation key and service carry over from the genesis.
pub fn build_identity_update_op(
    rotation_key_pub: &[u8],
    identity_key_pub: &[u8],
    server_url: &str,
    prev_cid: &str,
) -> (r: PlcOperation)
    ensures
        r.op_type@ == PLC_OPERATION_TYPE@,
        r.rotation_keys@.len() == 1,
        r.rotation_keys@[0]@ == did_key(multicodec_p256(), rotation_key_pub@),
        r.verification_methods@.len() == 1,
        r.verification_methods@[0].0@ == IDENTITY_METHOD_ID@,
        r.verification_methods@[0].1@ == did_key(multicodec_ed25519(), raw_ed25519(identity_key_pub@)),
        r.also_known_as@.len() == 0,
        r.services@.len() == 1,
        r.services@[0].0@ == HOMESERVER_SERVICE_ID@,
        r.services@[0].1.service_type@ == HOMESERVER_SERVICE_TYPE@,
        r.services@[0].1.endpoint@ == server_url@,
        r.prev matches Some(p) && p@ == prev_cid@,
        r.sig is None,
        r.wf(),
{
    let mut rotation_keys: Vec<String> = Vec::new();
    rotation_keys.push(did_key_p256(rotation_key_pub));
    let mut verification_methods: Vec<(String, String)> = Vec::new();
    verification_methods.push((String::from_str(IDENTITY_METHOD_ID), did_key_ed25519(identity_key_pub)));
    PlcOperation {
        op_type: String::from_str(PLC_OPERATION_TYPE),
        rotation_keys,
        verification_methods,
        also_known_as: Vec::new(),
        services: homeserver_services(server_url),
        prev: Some(String::from_str(prev_cid)),
        sig: None,
    }
}

/// The CIDv1 prefix: version 1, dag-cbor codec, sha2-256 multihash of 32 bytes.
pub open spec fn cid_prefix() -> Seq<u8> {
    seq![0x01u8, 0x71u8, 0x12u8, 0x20u8]
}

/// The content id of an operation with DAG-CBOR encoding `cbor`: `b` and the
/// lower-case base32 (no padding) of the CIDv1 bytes.
pub open spec fn op_cid(cbor: Seq<u8>) -> Seq<char> {
    "b"@ + base32_lower(cid_prefix() + sha256(cbor))
}

/// The content id of the operation encoded as `cbor`, used as the next
/// operation's `prev`; it is 59 characters long.
pub fn plc_op_cid(cbor: &[u8]) -> (r: String)
    ensures
        r@ == op_cid(cbor@),
        r@.len() == 59,
{
    let hash = sha256_digest(cbor);
    let mut cid: Vec<u8> = Vec::new();
    cid.push(0x01);
    cid.push(0x71);
    cid.push(0x12);
    cid.push(0x20);
    crate::bytes::append_bytes(&mut cid, hash.as_slice());
    proof {
        assert(cid@ =~= cid_prefix() + sha256(cbor@));
    }
    let encoded = base32_lower_encode(cid.as_slice());
    proof {
        reveal_strlit("b");
    }
    join2("b", encoded.as_str())
}

/// The DID of a signed genesis operation encoded as `cbor`: `did:plc:` and
/// the first 24 characters of the lower-case base32 of its SHA-256.
pub open spec fn plc_did(cbor: Seq<u8>) -> Seq<char> {
    "did:plc:"@ + base32_lower(sha256(cbor)).subrange(0, 24)
}

/// The DID of the signed genesis operation encoded as `cbor`.
pub fn derive_did(cbor: &[u8]) -> (r: String)
    ensures
        r@ == plc_did(cbor@),
        r@.len() == 32,
        r@.subrange(0, 8) == "did:plc:"@,
        forall|i: int| 0 <= i < 24 ==> #[trigger] r@[8 + i] == base32_lower(sha256(cbor@))[i],
{
    let hash = sha256_digest(cbor);
    let encoded = base32_lower_encode(hash.as_slice());
    let head = encoded.as_str().substring_char(0, 24);
    proof {
        reveal_strlit("did:plc:");
        law_did_is_hash_prefix(cbor@);
    }
    join2("did:plc:", head)
}

/// A `did:plc` DID is `did:plc:` followed by exactly the first 24 characters
/// of the lower-case base32 of the SHA-256 of the signed genesis operation:
/// a prefix of that encoding, 32 characters in all.
pub proof fn law_did_is_hash_prefix(cbor: Seq<u8>)
    requires
        sha256(cbor).len() == 32,
    ensures
        plc_did(cbor).len() == 32,
        plc_did(cbor).subrange(0, 8) == "did:plc:"@,
        forall|i: int| 0 <= i < 24 ==> #[trigger] plc_did(cbor)[8 + i] == base32_lower(sha256(cbor))[i],
        base32_lower(sha256(cbor)).subrange(0, 24) == plc_did(cbor).subrange(8, 32),
{
    reveal_strlit("did:plc:");
    let enc = base32_lower(sha256(cbor));
    assert(enc.len() == 52);
    assert(plc_did(cbor).subrange(0, 8) =~= "did:plc:"@);
    assert(enc.subrange(0, 24) =~= plc_did(cbor).subrange(8, 32));
}

/// The signature field of an operation: base64url of the low-S raw `r‖s`
/// P-256 signature over the unsigned operation's encoding `unsigned_cbor`.
/// Fails when the 32 key bytes are not a valid P-256 scalar.
pub fn sign_op_bytes(unsigned_cbor: &[u8], rotation_key_private: &[u8]) -> (r: Result<String, AppError>)
    requires
        rotation_key_private@.len() == 32,
    ensures
        r is Ok <==> p256_scalar_ok(rotation_key_private@),
        r matches Ok(s) ==> s@ == b64url(p256_sign_raw(rotation_key_private@, unsigned_cbor@)),
        r matches Err(e) ==> e is Protocol,
{
    match p256_sign_raw_bytes(rotation_key_private, unsigned_cbor) {
        Some(sig) => Ok(b64url_encode(sig.as_slice())),
        None => Err(protocol("invalid rotation key")),
    }
}

/// `op` with its signature set to `sig`.
pub fn with_signature(op: PlcOperation, sig: String) -> (r: PlcOperation)
    ensures
        r.op_type == op.op_type,
        r.rotation_keys == op.rotation_keys,
        r.verification_methods == op.verification_methods,
        r.also_known_as == op.also_known_as,
        r.services == op.services,
        r.prev == op.prev,
        r.sig == Some(sig),
        op.wf() ==> r.wf(),
{
    PlcOperation { sig: Some(sig), ..op }
}

/// What an idempotent submission does.
#[derive(Clone, Copy, Debug, PartialEq, Eq, Structural)]
pub enum SubmitOutcome {
    /// The operation was posted and accepted.
    Submitted,
    /// The operation already stood at its index, byte for byte; nothing was posted.
    AlreadyApplied,
}

/// Whether to post an operation expected at `expected_index` of a DID's
/// log, given the DAG-CBOR encodings of the operations already logged (none
/// when the log could not be read): skip it when the identical operation is
/// already there; refuse when another operation holds its index or when
/// posting would leave a gap; otherwise post it.
pub fn submission_decision(
    existing_log: Option<&Vec<Vec<u8>>>,
    signed_cbor: &[u8],
    expected_index: usize,
) -> (r: Result<SubmitOutcome, AppError>)
    ensures
        match existing_log {
            None => r == Ok::<SubmitOutcome, AppError>(SubmitOutcome::Submitted),
            Some(log) => if expected_index < log@.len() {
                if log@[expected_index as int]@ == signed_cbor@ {
                    r == Ok::<SubmitOutcome, AppError>(SubmitOutcome::AlreadyApplied)
                } else {
                    r matches Err(e) && e is Protocol
                }
            } else if log@.len() < expected_index {
                r matches Err(e) && e is Protocol
            } else {
                r == Ok::<SubmitOutcome, AppError>(SubmitOutcome::Submitted)
            },
        },
{
    match existing_log {
        None => Ok(SubmitOutcome::Submitted),
        Some(log) => {
            if expected_index < log.len() {
                if crate::bytes::bytes_eq(log[expected_index].as_slice(), signed_cbor) {
                    Ok(SubmitOutcome::AlreadyApplied)
                } else {
                    Err(protocol("this passkey is already registered: another operation holds that index; use recovery"))
                }
            } else if log.len() < expected_index {
                Err(protocol("would leave a gap in the operation log"))
            } else {
                Ok(SubmitOutcome::Submitted)
            }
        },
    }
}

/// A service entry of a resolved DID document, as far as it is read: its
/// `type` and `serviceEndpoint` when they are strings.
pub struct DocService {
    pub service_type: Option<String>,
    pub service_endpoint: Option<String>,
}

/// Whether a service is of the homeserver type.
pub open spec fn is_homeserver(s: DocService) -> bool {
    s.service_type matches Some(t) && t@ == HOMESERVER_SERVICE_TYPE@
}

/// Index of the first entry whose type is the homeserver type.
pub open spec fn first_homeserver(services: Seq<DocService>) -> Option<int> {
    if exists|i: int| 0 <= i < services.len() && #[trigger] is_homeserver(services[i]) {
        Some(
            choose|i: int|
                0 <= i < services.len() && #[trigger] is_homeserver(services[i]) && forall|j: int|
                    0 <= j < i ==> !is_homeserver(#[trigger] services[j]),
        )
    } else {
        None
    }
}

/// The homeserver endpoint of a resolved DID document whose `service` array
/// is `services` (`None` when the document has no such array): the endpoint
/// of the first service of the homeserver type, if that service has one.
pub fn extract_homeserver_endpoint(services: Option<&Vec<DocService>>) -> (r: Option<String>)
    ensures
        match services {
            None => r is None,
            Some(s) => match first_homeserver(s@) {
                None => r is None,
                Some(i) => match s@[i].service_endpoint {
                    None => r is None,
                    Some(e) => r matches Some(x) && x@ == e@,
                },
            },
        },
{
    let s = match services {
        Some(s) => s,
        None => return None,
    };
    let mut i: usize = 0;
    while i < s.len()
        invariant
            0 <= i <= s@.len(),
            services == Some(s),
            forall|j: int| 0 <= j < i ==> !is_homeserver(#[trigger] s@[j]),
        decreases s@.len() - i,
    {
        let is_hs = match &s[i].service_type {
            Some(t) => str_eq(t.as_str(), HOMESERVER_SERVICE_TYPE),
            None => false,
        };
        if is_hs {
            proof {
                assert(is_homeserver(s@[i as int]));
                let k = choose|k: int|
                    0 <= k < s@.len() && #[trigger] is_homeserver(s@[k]) && forall|j: int|
                        0 <= j < k ==> !is_homeserver(#[trigger] s@[j]);
                assert(k == i) by {
                    if k > i {
                        assert(!is_homeserver(s@[i as int]));
                    }
                }
                assert(first_homeserver(s@) == Some(i as int));
            }
            let ep = match &s[i].service_endpoint {
                Some(e) => Some(String::from_str(e.as_str())),
                None => None,
            };
            return ep;
        }
        i = i + 1;
    }
    None
}

} // verus!
