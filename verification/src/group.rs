//! Elements of the prime-order group, held by their wire encoding.
//!
//! The group is ristretto255. Whether 32 bytes encode one of its elements,
//! and whether that element is the identity, is decided by the `voprf` crate;
//! everything else here is verified.

use crate::errors::{check_slice_size, size_error, ProtocolError};
use curve25519_dalek::ristretto::RistrettoPoint;
use generic_array::GenericArray;
use voprf::group::Group;
use vstd::prelude::*;
use vstd::slice::slice_to_vec;

verus! {

/// The number of bytes that encode a group element.
pub const ELEM_LEN: usize = 32;

/// What the group makes of `bytes`, as `decode_element` finds it out: `None`
/// where they encode no element, `Some(true)` where they encode the
/// identity, `Some(false)` where they encode any other element.
pub uninterp spec fn element_decoding(bytes: Seq<u8>) -> Option<bool>;

/// Decodes 32 bytes with `voprf::group::Group::from_element_slice_unchecked`
/// of `RistrettoPoint`, which accepts the canonical encodings of ristretto255
/// and, unlike `from_element_slice`, that of the identity too; then asks
/// `Group::is_identity` of the point. Nothing of how the group decodes is
/// stated here: the contract claims only that the outcome depends on the
/// bytes alone, and gives it the name `element_decoding`. Other lengths are
/// left out because `GenericArray::from_slice` panics on them.
#[verifier::external_body]
#[allow(deprecated)]
fn decode_element(bytes: &[u8]) -> (r: Option<bool>)
    requires
        bytes@.len() == ELEM_LEN,
    ensures
        r == element_decoding(bytes@),
{
    match RistrettoPoint::from_element_slice_unchecked(GenericArray::from_slice(bytes)) {
        Ok(point) => Some(point.is_identity()),
        Err(_) => None,
    }
}

/// `bytes` are the encoding of a group element.
pub open spec fn is_element(bytes: Seq<u8>) -> bool {
    bytes.len() == ELEM_LEN && element_decoding(bytes) is Some
}

/// `bytes` are the encoding of the identity of the group.
pub open spec fn is_identity_element(bytes: Seq<u8>) -> bool {
    bytes.len() == ELEM_LEN && element_decoding(bytes) == Some(true)
}

/// What decoding a group element from `input` gives: the element, which is
/// its encoding, or the reason for refusing it.
pub open spec fn parse_element(input: Seq<u8>) -> Result<Seq<u8>, ProtocolError> {
    if input.len() != ELEM_LEN {
        Err(size_error("group_element", ELEM_LEN as int, input.len() as int))
    } else if element_decoding(input) is None {
        Err(ProtocolError::PointError)
    } else {
        Ok(input)
    }
}

/// An element of the group: a blinded element or an evaluation element of
/// the OPRF. Its view is its encoding, and every value holds a valid one.
#[derive(Debug, PartialEq, Eq, Hash)]
pub struct GroupElement {
    bytes: Vec<u8>,
    identity: bool,
}

impl View for GroupElement {
    type V = Seq<u8>;

    closed spec fn view(&self) -> Seq<u8> {
        self.bytes@
    }
}

impl Clone for GroupElement {
    fn clone(&self) -> (copy: Self)
        ensures
            copy@ == self@,
    {
        proof {
            use_type_invariant(self);
        }
        GroupElement { bytes: slice_to_vec(self.bytes.as_slice()), identity: self.identity }
    }
}

impl GroupElement {
    #[verifier::type_invariant]
    spec fn inv(self) -> bool {
        is_element(self.bytes@) && self.identity == is_identity_element(self.bytes@)
    }

    /// Decodes an element from exactly `ELEM_LEN` bytes. The identity is an
    /// element like any other here: who must refuse it asks `is_identity`.
    pub fn deserialize(input: &[u8]) -> (r: Result<GroupElement, ProtocolError>)
        ensures
            match r {
                Ok(element) => parse_element(input@) == Ok::<Seq<u8>, ProtocolError>(element@),
                Err(e) => parse_element(input@) == Err::<Seq<u8>, ProtocolError>(e),
            },
    {
        let checked = check_slice_size(input, ELEM_LEN, "group_element")?;
        match decode_element(checked) {
            Some(identity) => Ok(GroupElement { bytes: slice_to_vec(checked), identity }),
            None => Err(ProtocolError::PointError),
        }
    }

    /// The encoding of the element.
    pub fn serialize(&self) -> (bytes: Vec<u8>)
        ensures
            bytes@ == self@,
            is_element(self@),
    {
        proof {
            use_type_invariant(self);
        }
        slice_to_vec(self.bytes.as_slice())
    }

    /// The encoding of the element, borrowed.
    pub fn as_bytes(&self) -> (bytes: &[u8])
        ensures
            bytes@ == self@,
            is_element(self@),
    {
        proof {
            use_type_invariant(self);
        }
        self.bytes.as_slice()
    }

    /// Whether the element is the identity of the group.
    pub fn is_identity(&self) -> (b: bool)
        ensures
            b == is_identity_element(self@),
    {
        proof {
            use_type_invariant(self);
        }
        self.identity
    }
}

} // verus!
