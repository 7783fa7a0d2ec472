//! Records of the sealed-sender group path: the per-recipient fan-out of a
//! multi-recipient envelope, and an opened envelope.
use vstd::prelude::*;

verus! {

/// One recipient's share of a multi-recipient sealed-sender envelope.
pub struct RecipientFanout {
    /// The recipient's service id in 17-byte fixed-width form.
    pub service_id_fixed_width: [u8; 17],
    /// `(device id, registration id)` of each of the recipient's devices.
    pub devices: Vec<(u32, u16)>,
    /// The exact bytes to deliver to this recipient.
    pub received_message: Vec<u8>,
}

/// An opened sealed-sender envelope.
pub struct DecryptedEnvelope {
    /// The serialized sender certificate, still to be validated.
    pub sender_cert_bytes: Vec<u8>,
    /// The inner sender-key ciphertext.
    pub contents: Vec<u8>,
    /// The group id the sender set, if any.
    pub group_id: Option<Vec<u8>>,
}

} // verus!
