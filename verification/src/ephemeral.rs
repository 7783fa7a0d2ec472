//! Throwaway Curve25519 key pairs for one-shot key agreement, held as their
//! serialized halves so they can live in a foreign handle across calls. The
//! curve arithmetic (generation, recomputing the public half, agreement) is
//! the caller's; this type keeps the bytes.
use vstd::prelude::*;

verus! {

/// An ephemeral key pair as serialized public and private bytes.
pub struct EphemeralKeyPair {
    private: Vec<u8>,
    public: Vec<u8>,
}

impl EphemeralKeyPair {
    /// The serialized private half.
    pub closed spec fn private_view(&self) -> Seq<u8> {
        self.private@
    }

    /// The serialized public half.
    pub closed spec fn public_view(&self) -> Seq<u8> {
        self.public@
    }

    /// Holds a key pair given its serialized private and public halves.
    pub fn from_serialized(private: &[u8], public: &[u8]) -> (r: EphemeralKeyPair)
        ensures
            r.private_view() == private@,
            r.public_view() == public@,
    {
        EphemeralKeyPair {
            private: crate::bytes::copy_all(private),
            public: crate::bytes::copy_all(public),
        }
    }

    /// A copy of the serialized public half, to embed in a pairing code and
    /// post to the peer.
    pub fn public_bytes(&self) -> (r: Vec<u8>)
        ensures
            r@ == self.public_view(),
    {
        crate::bytes::copy_all(self.public.as_slice())
    }

    /// A copy of the serialized private half, only for persisting in a handle
    /// so a later call can restore the pair.
    pub fn private_bytes(&self) -> (r: Vec<u8>)
        ensures
            r@ == self.private_view(),
    {
        crate::bytes::copy_all(self.private.as_slice())
    }
}

} // verus!
