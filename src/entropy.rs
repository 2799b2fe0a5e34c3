//! Randomness from the operating system, reported as absent rather than
//! aborting when the source is unavailable.

use vstd::prelude::*;
use rand::RngCore;

verus! {

/// Relies on rand's OsRng::try_fill_bytes: `n` bytes from the operating
/// system's generator, or `None` when it could not supply them.
#[verifier::external_body]
pub(crate) fn os_random_bytes(n: usize) -> (r: Option<Vec<u8>>)
    ensures
        r matches Some(b) ==> b@.len() == n,
{
    let mut b = vec![0u8; n];
    match rand::rngs::OsRng.try_fill_bytes(&mut b) {
        Ok(()) => Some(b),
        Err(_) => None,
    }
}

} // verus!
