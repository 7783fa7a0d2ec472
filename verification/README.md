# actnet

The client core of an end-to-end encrypted messenger for organizers: 1:1 and
group messaging, encrypted attachments and profiles, device provisioning,
cross-device storage sync, account recovery and PLC identity operations.

The library is written in Verus. Each public function states in `requires` /
`ensures` what it computes, and Verus proves it. Cryptographic primitives and
encodings come from their crates (`aes-gcm`, `hmac`, `hkdf`, `sha2`, `p256`,
`base64`, `base32`, `bs58`, `rand`), reached through the small trusted
wrappers in `src/prims.rs`, whose contracts say what those crates compute.

## Layout

- `src/` — the verified library.
  - `prims.rs`: the trusted wrappers over the outside crates.
  - `bytes.rs`, `text.rs`: big-endian framing, decimal and hex rendering,
    splitting and trimming.
  - `profile.rs`, `provisioning.rs`, `recovery.rs`, `storage_sync.rs`,
    `ephemeral.rs`: sealed formats and their round trips.
  - `attachments.rs`: the attachment frame (`IV ‖ ciphertext ‖ MAC`), its
    padding buckets and the digest and MAC checks; the AES-CBC step itself is
    not part of the library.
  - `groups.rs`, `group_actions.rs`, `group_events.rs`, `group_history.rs`:
    group state, the change requests each group operation submits, the
    timeline derived from each change, and the replay of a change history.
  - `messaging.rs`, `connection.rs`, `prekeys.rs`, `sealed_sender.rs`: the
    decisions of the receive pipeline, the connection loop and pre-key
    replenishment.
  - `plc.rs`: PLC operations, CIDs and DIDs.
  - `net_types.rs`, `net_groups.rs`: the server's wire records and their
    decoding.
  - `ffi.rs`, `node.rs`: the records handed to the mobile and Node bindings.
- `tests/` — tests on concrete values.
- `app/` — what Verus does not take: serde and JSON shapes, DAG-CBOR, the
  floating-point padding curve and the error display.
