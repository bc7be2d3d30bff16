//! The errors of the message layer and the two length checks that raise the
//! first of them.

use vstd::prelude::*;

verus! {

/// Why a message was refused.
#[derive(Clone, Copy, Debug, PartialEq, Eq, Hash)]
pub enum ProtocolError {
    /// A buffer has the wrong length. `name` tells which buffer, `len` the
    /// length that was asked for (exactly or at least), `actual_len` the
    /// length that was found.
    SizeError { name: &'static str, len: usize, actual_len: usize },
    /// An element of the OPRF group is the identity of the group.
    IdentityGroupElementError,
    /// The bytes encode no element of the group, or a point that is not
    /// acceptable as a public key.
    PointError,
}

/// The size error for a buffer called `name` that holds `actual_len` bytes
/// where `len` were asked for.
pub open spec fn size_error(name: &'static str, len: int, actual_len: int) -> ProtocolError {
    ProtocolError::SizeError { name, len: len as usize, actual_len: actual_len as usize }
}

/// Accepts `slice` when it holds exactly `expected_len` bytes.
pub fn check_slice_size<'a>(slice: &'a [u8], expected_len: usize, arg_name: &'static str) -> (r:
    Result<&'a [u8], ProtocolError>)
    ensures
        slice@.len() == expected_len ==> r == Ok::<&[u8], ProtocolError>(slice),
        slice@.len() != expected_len ==> r == Err::<&[u8], ProtocolError>(
            size_error(arg_name, expected_len as int, slice@.len() as int),
        ),
{
    if slice.len() != expected_len {
        return Err(
            ProtocolError::SizeError { name: arg_name, len: expected_len, actual_len: slice.len() },
        );
    }
    Ok(slice)
}

/// Accepts `slice` when it holds `expected_len` bytes or more.
pub fn check_slice_size_atleast<'a>(
    slice: &'a [u8],
    expected_len: usize,
    arg_name: &'static str,
) -> (r: Result<&'a [u8], ProtocolError>)
    ensures
        slice@.len() >= expected_len ==> r == Ok::<&[u8], ProtocolError>(slice),
        slice@.len() < expected_len ==> r == Err::<&[u8], ProtocolError>(
            size_error(arg_name, expected_len as int, slice@.len() as int),
        ),
{
    if slice.len() < expected_len {
        return Err(
            ProtocolError::SizeError { name: arg_name, len: expected_len, actual_len: slice.len() },
        );
    }
    Ok(slice)
}

} // verus!
