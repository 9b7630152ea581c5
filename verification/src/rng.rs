//! The crate's one source of randomness: the process-wide pseudo-random
//! generator of the `rand` crate, taken on trust.

use vstd::prelude::*;

verus! {

/// Relies on `rand::random`: a fresh pseudo-random value from a
/// thread-local, entropy-seeded generator. Nothing is promised of the
/// result; every caller must be correct for every outcome.
pub assume_specification<T>[ rand::random::<T> ]() -> (r: T)
    where
        rand::distributions::Standard: rand::distributions::Distribution<T>,
;

} // verus!
