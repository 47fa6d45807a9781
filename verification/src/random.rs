//! Random values, drawn from the `rand` crate's generators.

use rand::Rng;
use rand::TryRngCore;
use vstd::prelude::*;

verus! {

/// `TryRngCore::try_fill_bytes` on `OsRng`: 32 bytes from the operating
/// system's generator, or `None` where it reports an error.
#[verifier::external_body]
pub(crate) fn os_random_32() -> (r: Option<Vec<u8>>)
    ensures
        r matches Some(v) ==> v@.len() == 32,
{
    let mut bytes = [0u8; 32];
    match rand::rngs::OsRng.try_fill_bytes(&mut bytes) {
        Ok(()) => Some(bytes.to_vec()),
        Err(_) => None,
    }
}

/// `Rng::random` on the thread's generator: 8 random bytes.
#[verifier::external_body]
pub(crate) fn random_8() -> (r: Vec<u8>)
    ensures
        r@.len() == 8,
{
    rand::rng().random::<[u8; 8]>().to_vec()
}

/// `Rng::random_range` on the thread's generator, over `0..=bound`: a number
/// that is at most `bound`.
#[verifier::external_body]
pub(crate) fn random_up_to(bound: u64) -> (r: u64)
    ensures
        r <= bound,
{
    rand::rng().random_range(0..=bound)
}

} // verus!
