//! Random bytes from a generator that the caller supplies.

use rand::{CryptoRng, RngCore};
use vstd::prelude::*;

verus! {

/// Calls `rand::RngCore::try_fill_bytes` on the whole of `buf`. By its
/// documentation the call either fills the buffer entirely with new data or
/// reports that the generator failed; the result is `true` in the first case.
/// Which bytes come is left open, as it must be: the contract says only that
/// the buffer keeps its length.
#[verifier::external_body]
pub(crate) fn try_fill_random<R: RngCore + CryptoRng>(rng: &mut R, buf: &mut Vec<u8>) -> (filled:
    bool)
    ensures
        final(buf)@.len() == old(buf)@.len(),
{
    rng.try_fill_bytes(buf.as_mut_slice()).is_ok()
}

} // verus!
