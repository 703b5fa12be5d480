//! Deterministic seed generation and the seeded pseudo-random generator.
//!
//! The seed is derived from the caller's address, the current block time
//! and a configured entropy string through a cryptographic hash, so the
//! same request context always reproduces the same seed. The seeded
//! generator is consumed through narrow wrappers that promise only the
//! sampling range.

use rand::rngs::SmallRng;
use rand::Rng;
use rand::SeedableRng;
use sha2::Digest;
use sha2::Sha256;
use vstd::prelude::*;

verus! {

#[verifier::external_type_specification]
#[verifier::external_body]
pub struct ExSmallRng(SmallRng);

/// The seed derived from a sender, a block time and an entropy string. The
/// SHA-256 digest underneath is a function of those three values alone, so
/// the seed is reproducible; nothing further is assumed of its value.
pub uninterp spec fn seed_of(sender: Seq<char>, block_time: u64, entropy: Seq<char>) -> u64;

/// Derives the 64-bit seed for a request: the first eight bytes of the
/// SHA-256 digest of the sender's address, the big-endian block time and
/// the entropy string, in that order.
///
/// Relies on sha2's `Sha256`: the digest depends on the fed bytes alone,
/// so equal inputs always yield the equal seed named by [`seed_of`].
#[verifier::external_body]
pub fn generate_seed(sender: &str, block_time: u64, entropy: &str) -> (r: u64)
    ensures
        r == seed_of(sender@, block_time, entropy@),
{
    let mut hasher = Sha256::new();
    hasher.update(sender.as_bytes());
    hasher.update(&block_time.to_be_bytes());
    hasher.update(entropy.as_bytes());
    let hash = hasher.finalize();
    u64::from_be_bytes(hash[0..8].try_into().unwrap())
}

/// Builds the small pseudo-random generator for a request from a seed.
///
/// Relies on rand's `SeedableRng::seed_from_u64` for `SmallRng`; nothing
/// is assumed of the generator's state.
#[verifier::external_body]
pub fn rng_from_seed(seed: u64) -> SmallRng {
    SmallRng::seed_from_u64(seed)
}

/// Samples a value in `low..=high` from the generator.
///
/// Relies on rand's `Rng::gen_range`, which panics on an empty range and
/// otherwise returns a value within the given inclusive range.
#[verifier::external_body]
pub fn gen_range_u16(rng: &mut SmallRng, low: u16, high: u16) -> (r: u16)
    requires
        low <= high,
    ensures
        low <= r <= high,
{
    rng.gen_range(low..=high)
}

} // verus!
