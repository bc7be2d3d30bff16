//! The sealed envelope, as far as the message layer knows it: a blob of a
//! length that the ciphersuite fixes.

use crate::ciphersuite::CipherSuite;
use crate::errors::{check_slice_size, size_error, ProtocolError};
use vstd::prelude::*;
use vstd::slice::slice_to_vec;

verus! {

/// `n` zero bytes.
pub open spec fn zeros(n: nat) -> Seq<u8> {
    Seq::new(n, |i: int| 0u8)
}

/// A vector of `n` zero bytes.
pub fn zero_bytes(n: usize) -> (bytes: Vec<u8>)
    ensures
        bytes@ == zeros(n as nat),
{
    let mut bytes: Vec<u8> = Vec::new();
    while bytes.len() < n
        invariant
            bytes@.len() <= n,
            bytes@ == zeros(bytes@.len()),
        decreases n - bytes@.len(),
    {
        bytes.push(0u8);
    }
    bytes
}

/// What reading an envelope from `input` gives: the envelope, which is its
/// bytes, where `input` has the envelope's length, and a size error
/// otherwise.
pub open spec fn parse_envelope(cs: CipherSuite, input: Seq<u8>) -> Result<
    Seq<u8>,
    ProtocolError,
> {
    if input.len() != cs.envelope_len {
        Err(size_error("envelope", cs.envelope_len as int, input.len() as int))
    } else {
        Ok(input)
    }
}

/// A sealed envelope. Its view is its serialized form.
#[derive(Debug, PartialEq, Eq, Hash)]
pub struct Envelope {
    bytes: Vec<u8>,
}

impl View for Envelope {
    type V = Seq<u8>;

    closed spec fn view(&self) -> Seq<u8> {
        self.bytes@
    }
}

impl Clone for Envelope {
    fn clone(&self) -> (copy: Self)
        ensures
            copy@ == self@,
    {
        Envelope { bytes: slice_to_vec(self.bytes.as_slice()) }
    }
}

impl Envelope {
    /// The length of every envelope of the ciphersuite.
    pub fn len(cs: &CipherSuite) -> (n: usize)
        ensures
            n == cs.envelope_len,
    {
        cs.envelope_len as usize
    }

    /// The envelope that stands in where there is none to give: it has the
    /// length of a real one and holds zero bytes.
    pub fn dummy(cs: &CipherSuite) -> (envelope: Envelope)
        ensures
            envelope@ == zeros(cs.envelope_len as nat),
    {
        Envelope { bytes: zero_bytes(Envelope::len(cs)) }
    }

    /// The serialized form of the envelope.
    pub fn serialize(&self) -> (bytes: Vec<u8>)
        ensures
            bytes@ == self@,
    {
        slice_to_vec(self.bytes.as_slice())
    }

    /// Reads an envelope from exactly as many bytes as the ciphersuite gives
    /// an envelope.
    pub fn deserialize(input: &[u8], cs: &CipherSuite) -> (r: Result<Envelope, ProtocolError>)
        ensures
            match r {
                Ok(envelope) => parse_envelope(*cs, input@) == Ok::<Seq<u8>, ProtocolError>(
                    envelope@,
                ),
                Err(e) => parse_envelope(*cs, input@) == Err::<Seq<u8>, ProtocolError>(e),
            },
    {
        let checked = check_slice_size(input, Envelope::len(cs), "envelope")?;
        Ok(Envelope { bytes: slice_to_vec(checked) })
    }
}

} // verus!
