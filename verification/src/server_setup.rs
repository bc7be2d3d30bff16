//! What the server keeps for as long as it runs.

use crate::keypair::KeyPair;
use vstd::prelude::*;

verus! {

/// The long-term state of a server: the seed of its OPRF keys, its own key
/// pair, and a second key pair that stands in for the client's key whenever
/// a login names an account that does not exist. The second pair is chosen
/// once, when the server is set up, and stays the same for every such login.
#[derive(Debug, PartialEq, Eq, Hash)]
pub struct ServerSetup {
    oprf_seed: Vec<u8>,
    keypair: KeyPair,
    fake_keypair: KeyPair,
}

impl ServerSetup {
    /// The bytes of the public key of the stand-in key pair.
    pub closed spec fn fake_public_key(&self) -> Seq<u8> {
        self.fake_keypair.public_key()
    }

    /// The bytes of the public key of the server's own key pair.
    pub closed spec fn public_key(&self) -> Seq<u8> {
        self.keypair.public_key()
    }

    /// The seed of the OPRF keys.
    pub closed spec fn seed(&self) -> Seq<u8> {
        self.oprf_seed@
    }

    /// Puts the state of a server together.
    pub fn new(oprf_seed: Vec<u8>, keypair: KeyPair, fake_keypair: KeyPair) -> (setup: ServerSetup)
        ensures
            setup.seed() == oprf_seed@,
            setup.public_key() == keypair.public_key(),
            setup.fake_public_key() == fake_keypair.public_key(),
    {
        ServerSetup { oprf_seed, keypair, fake_keypair }
    }

    /// The seed of the OPRF keys.
    pub fn oprf_seed(&self) -> (seed: &[u8])
        ensures
            seed@ == self.seed(),
    {
        self.oprf_seed.as_slice()
    }

    /// The server's own key pair.
    pub fn keypair(&self) -> (pair: &KeyPair)
        ensures
            pair.public_key() == self.public_key(),
    {
        &self.keypair
    }

    /// The stand-in key pair.
    pub fn fake_keypair(&self) -> (pair: &KeyPair)
        ensures
            pair.public_key() == self.fake_public_key(),
    {
        &self.fake_keypair
    }
}

} // verus!
