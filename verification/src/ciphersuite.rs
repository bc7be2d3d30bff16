//! The lengths that a ciphersuite fixes.
//!
//! No length travels on the wire: the two sides agree on a ciphersuite
//! beforehand, and every message is laid out and read with the lengths of
//! that one suite.

use vstd::prelude::*;

verus! {

/// The number of bytes of the nonce that masks the response to a login.
pub const NONCE_LEN: usize = 32;

/// The lengths that depend on the hash function, the envelope and the key
/// exchange of a ciphersuite. The group is the same in every suite; its two
/// lengths are `ELEM_LEN` and `PK_LEN`.
#[derive(Clone, Copy, Debug, PartialEq, Eq, Hash)]
pub struct CipherSuite {
    /// The output length of the hash function, which is the length of a
    /// masking key.
    pub hash_len: u16,
    /// The length of a sealed envelope.
    pub envelope_len: u16,
    /// The length of the first message of the key exchange.
    pub ke1_len: u16,
    /// The length of the second message of the key exchange.
    pub ke2_len: u16,
    /// The length of the third message of the key exchange.
    pub ke3_len: u16,
}

} // verus!
