//! The three messages of the key exchange, as far as the message layer knows
//! them: blobs of lengths that the ciphersuite fixes. Each decoder accepts
//! its own length and no other.

use crate::ciphersuite::CipherSuite;
use crate::errors::{check_slice_size, size_error, ProtocolError};
use vstd::prelude::*;
use vstd::slice::slice_to_vec;

verus! {

/// What reading a first key-exchange message from `input` gives.
pub open spec fn parse_ke1(cs: CipherSuite, input: Seq<u8>) -> Result<Seq<u8>, ProtocolError> {
    if input.len() != cs.ke1_len {
        Err(size_error("ke1_message", cs.ke1_len as int, input.len() as int))
    } else {
        Ok(input)
    }
}

/// What reading a second key-exchange message from `input` gives.
pub open spec fn parse_ke2(cs: CipherSuite, input: Seq<u8>) -> Result<Seq<u8>, ProtocolError> {
    if input.len() != cs.ke2_len {
        Err(size_error("ke2_message", cs.ke2_len as int, input.len() as int))
    } else {
        Ok(input)
    }
}

/// What reading a third key-exchange message from `input` gives.
pub open spec fn parse_ke3(cs: CipherSuite, input: Seq<u8>) -> Result<Seq<u8>, ProtocolError> {
    if input.len() != cs.ke3_len {
        Err(size_error("ke3_message", cs.ke3_len as int, input.len() as int))
    } else {
        Ok(input)
    }
}

/// The length of the second message of the key exchange.
pub fn ke2_message_size(cs: &CipherSuite) -> (n: usize)
    ensures
        n == cs.ke2_len,
{
    cs.ke2_len as usize
}

/// The first message of the key exchange, sent with a login request.
#[derive(Debug, PartialEq, Eq, Hash)]
pub struct KE1Message {
    bytes: Vec<u8>,
}

/// The second message of the key exchange, sent with the answer to a login
/// request.
#[derive(Debug, PartialEq, Eq, Hash)]
pub struct KE2Message {
    bytes: Vec<u8>,
}

/// The third message of the key exchange, which ends a login.
#[derive(Debug, PartialEq, Eq, Hash)]
pub struct KE3Message {
    bytes: Vec<u8>,
}

impl View for KE1Message {
    type V = Seq<u8>;

    closed spec fn view(&self) -> Seq<u8> {
        self.bytes@
    }
}

impl View for KE2Message {
    type V = Seq<u8>;

    closed spec fn view(&self) -> Seq<u8> {
        self.bytes@
    }
}

impl View for KE3Message {
    type V = Seq<u8>;

    closed spec fn view(&self) -> Seq<u8> {
        self.bytes@
    }
}

impl Clone for KE1Message {
    fn clone(&self) -> (copy: Self)
        ensures
            copy@ == self@,
    {
        KE1Message { bytes: slice_to_vec(self.bytes.as_slice()) }
    }
}

impl Clone for KE2Message {
    fn clone(&self) -> (copy: Self)
        ensures
            copy@ == self@,
    {
        KE2Message { bytes: slice_to_vec(self.bytes.as_slice()) }
    }
}

impl Clone for KE3Message {
    fn clone(&self) -> (copy: Self)
        ensures
            copy@ == self@,
    {
        KE3Message { bytes: slice_to_vec(self.bytes.as_slice()) }
    }
}

impl KE1Message {
    /// Reads the message from exactly `ke1_len` bytes.
    pub fn from_bytes(input: &[u8], cs: &CipherSuite) -> (r: Result<KE1Message, ProtocolError>)
        ensures
            match r {
                Ok(message) => parse_ke1(*cs, input@) == Ok::<Seq<u8>, ProtocolError>(message@),
                Err(e) => parse_ke1(*cs, input@) == Err::<Seq<u8>, ProtocolError>(e),
            },
    {
        let checked = check_slice_size(input, cs.ke1_len as usize, "ke1_message")?;
        Ok(KE1Message { bytes: slice_to_vec(checked) })
    }

    /// The bytes of the message.
    pub fn to_bytes(&self) -> (bytes: Vec<u8>)
        ensures
            bytes@ == self@,
    {
        slice_to_vec(self.bytes.as_slice())
    }
}

impl KE2Message {
    /// Reads the message from exactly `ke2_len` bytes.
    pub fn from_bytes(input: &[u8], cs: &CipherSuite) -> (r: Result<KE2Message, ProtocolError>)
        ensures
            match r {
                Ok(message) => parse_ke2(*cs, input@) == Ok::<Seq<u8>, ProtocolError>(message@),
                Err(e) => parse_ke2(*cs, input@) == Err::<Seq<u8>, ProtocolError>(e),
            },
    {
        let checked = check_slice_size(input, ke2_message_size(cs), "ke2_message")?;
        Ok(KE2Message { bytes: slice_to_vec(checked) })
    }

    /// The bytes of the message.
    pub fn to_bytes(&self) -> (bytes: Vec<u8>)
        ensures
            bytes@ == self@,
    {
        slice_to_vec(self.bytes.as_slice())
    }
}

impl KE3Message {
    /// Reads the message from exactly `ke3_len` bytes.
    pub fn from_bytes(input: &[u8], cs: &CipherSuite) -> (r: Result<KE3Message, ProtocolError>)
        ensures
            match r {
                Ok(message) => parse_ke3(*cs, input@) == Ok::<Seq<u8>, ProtocolError>(message@),
                Err(e) => parse_ke3(*cs, input@) == Err::<Seq<u8>, ProtocolError>(e),
            },
    {
        let checked = check_slice_size(input, cs.ke3_len as usize, "ke3_message")?;
        Ok(KE3Message { bytes: slice_to_vec(checked) })
    }

    /// The bytes of the message.
    pub fn to_bytes(&self) -> (bytes: Vec<u8>)
        ensures
            bytes@ == self@,
    {
        slice_to_vec(self.bytes.as_slice())
    }
}

} // verus!
