//! The source of random bytes.

use rand::Rng;
use vstd::prelude::*;

verus! {

/// Draws one byte from the `rand` crate's thread-local generator, by
/// `rand::rng()` and `Rng::random::<u8>()`.
///
/// Trusted, not proved. Nothing is claimed of the byte: two calls may differ,
/// and any of the 256 values may come. `rand::rng()` panics if the operating
/// system gives the generator no seed.
#[verifier::external_body]
pub(crate) fn random_byte() -> u8 {
    let mut rng = rand::rng();
    rng.random::<u8>()
}

} // verus!
