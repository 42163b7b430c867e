//! Static key pairs for the suite's Diffie-Hellman function.

use vstd::prelude::*;
use crate::engine;
use crate::error::{classify, NoiseError};
use crate::pattern::DH_LEN;
use crate::session::SUITE_NAME;

verus! {

/// A Curve25519 key pair: the private scalar and its public point.
pub struct Keypair {
    private: Vec<u8>,
    public: Vec<u8>,
}

impl Keypair {
    /// Well-formed: both halves are as wide as the DH function demands.
    pub open spec fn wf(&self) -> bool {
        self.private_view().len() == DH_LEN && self.public_view().len() == DH_LEN
    }

    /// The private scalar's bytes.
    pub closed spec fn private_view(&self) -> Seq<u8> {
        self.private@
    }

    /// The public point's bytes.
    pub closed spec fn public_view(&self) -> Seq<u8> {
        self.public@
    }

    /// Draws a fresh key pair from the engine's random source.
    pub fn generate() -> (r: Result<Keypair, NoiseError>)
        ensures
            r matches Ok(k) && k.wf(),
    {
        match engine::generate_keypair(SUITE_NAME) {
            Ok((private, public)) => Ok(Keypair { private, public }),
            Err(e) => Err(classify(engine::failure_of(e))),
        }
    }

    /// The private scalar.
    pub fn private_key(&self) -> (r: &[u8])
        ensures
            r@ == self.private_view(),
    {
        self.private.as_slice()
    }

    /// The public point, which may be sent to the peer.
    pub fn public_key(&self) -> (r: &[u8])
        ensures
            r@ == self.public_view(),
    {
        self.public.as_slice()
    }
}

} // verus!
