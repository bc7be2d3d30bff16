//! Public keys and key pairs of the key-exchange group.

use crate::errors::{check_slice_size, size_error, ProtocolError};
use crate::group::{element_decoding, GroupElement};
use vstd::prelude::*;
use vstd::slice::slice_to_vec;

verus! {

/// The number of bytes that encode a public key.
pub const PK_LEN: usize = 32;

/// `bytes` are a public key that passes the check: they encode an element of
/// the group, and not its identity.
pub open spec fn is_valid_public_key(bytes: Seq<u8>) -> bool {
    bytes.len() == PK_LEN && element_decoding(bytes) == Some(false)
}

/// What reading a public key from `input` and checking it gives.
pub open spec fn parse_public_key(input: Seq<u8>) -> Result<Seq<u8>, ProtocolError> {
    if input.len() != PK_LEN {
        Err(size_error("key_bytes", PK_LEN as int, input.len() as int))
    } else if element_decoding(input) != Some(false) {
        Err(ProtocolError::PointError)
    } else {
        Ok(input)
    }
}

/// A public key, as its `PK_LEN` bytes. A value of this type has the right
/// length and nothing more: `KeyPair::check_public_key` tells whether it is
/// a key that may be used.
#[derive(Debug, PartialEq, Eq, Hash)]
pub struct PublicKey {
    bytes: Vec<u8>,
}

impl View for PublicKey {
    type V = Seq<u8>;

    closed spec fn view(&self) -> Seq<u8> {
        self.bytes@
    }
}

impl Clone for PublicKey {
    fn clone(&self) -> (copy: Self)
        ensures
            copy@ == self@,
    {
        proof {
            use_type_invariant(self);
        }
        PublicKey { bytes: slice_to_vec(self.bytes.as_slice()) }
    }
}

impl PublicKey {
    #[verifier::type_invariant]
    spec fn inv(self) -> bool {
        self.bytes@.len() == PK_LEN
    }

    /// Reads a key from exactly `PK_LEN` bytes, without checking it.
    pub fn from_bytes(input: &[u8]) -> (r: Result<PublicKey, ProtocolError>)
        ensures
            match r {
                Ok(key) => input@.len() == PK_LEN && key@ == input@,
                Err(e) => input@.len() != PK_LEN && e == size_error(
                    "key_bytes",
                    PK_LEN as int,
                    input@.len() as int,
                ),
            },
    {
        let checked = check_slice_size(input, PK_LEN, "key_bytes")?;
        Ok(PublicKey { bytes: slice_to_vec(checked) })
    }

    /// The bytes of the key.
    pub fn to_vec(&self) -> (bytes: Vec<u8>)
        ensures
            bytes@ == self@,
            bytes@.len() == PK_LEN,
    {
        proof {
            use_type_invariant(self);
        }
        slice_to_vec(self.bytes.as_slice())
    }

    /// The bytes of the key, borrowed.
    pub fn as_bytes(&self) -> (bytes: &[u8])
        ensures
            bytes@ == self@,
            bytes@.len() == PK_LEN,
    {
        proof {
            use_type_invariant(self);
        }
        self.bytes.as_slice()
    }
}

/// A public key that passed the check, with its secret key. The secret key
/// is carried as bytes and never read here.
#[derive(Debug, PartialEq, Eq, Hash)]
pub struct KeyPair {
    pk: PublicKey,
    sk: Vec<u8>,
}

impl Clone for KeyPair {
    fn clone(&self) -> (copy: Self)
        ensures
            copy.public_key() == self.public_key(),
            copy.secret_key() == self.secret_key(),
    {
        proof {
            use_type_invariant(self);
        }
        KeyPair { pk: self.pk.clone(), sk: slice_to_vec(self.sk.as_slice()) }
    }
}

impl KeyPair {
    #[verifier::type_invariant]
    spec fn inv(self) -> bool {
        is_valid_public_key(self.pk@)
    }

    /// The bytes of the public key.
    pub closed spec fn public_key(&self) -> Seq<u8> {
        self.pk@
    }

    /// The bytes of the secret key.
    pub closed spec fn secret_key(&self) -> Seq<u8> {
        self.sk@
    }

    /// Checks a key that came from outside: it must encode an element of the
    /// group other than the identity.
    pub fn check_public_key(key: PublicKey) -> (r: Result<PublicKey, ProtocolError>)
        ensures
            match r {
                Ok(checked) => is_valid_public_key(key@) && checked@ == key@,
                Err(e) => !is_valid_public_key(key@) && e == ProtocolError::PointError,
            },
    {
        let decoded = GroupElement::deserialize(key.as_bytes());
        match decoded {
            Ok(point) => {
                if point.is_identity() {
                    Err(ProtocolError::PointError)
                } else {
                    assert(element_decoding(key@) == Some(false));
                    Ok(key)
                }
            },
            Err(_) => Err(ProtocolError::PointError),
        }
    }

    /// Joins a public key to its secret key. The public key is checked; that
    /// the two belong together is left to the caller.
    pub fn from_parts(public: PublicKey, secret: Vec<u8>) -> (r: Result<KeyPair, ProtocolError>)
        ensures
            match r {
                Ok(pair) => is_valid_public_key(public@) && pair.public_key() == public@
                    && pair.secret_key() == secret@,
                Err(e) => !is_valid_public_key(public@) && e == ProtocolError::PointError,
            },
    {
        let pk = KeyPair::check_public_key(public)?;
        Ok(KeyPair { pk, sk: secret })
    }

    /// The public key of the pair.
    pub fn public(&self) -> (key: &PublicKey)
        ensures
            key@ == self.public_key(),
            is_valid_public_key(key@),
    {
        proof {
            use_type_invariant(self);
        }
        &self.pk
    }

    /// The secret key of the pair.
    pub fn private(&self) -> (key: &[u8])
        ensures
            key@ == self.secret_key(),
    {
        self.sk.as_slice()
    }
}

} // verus!
