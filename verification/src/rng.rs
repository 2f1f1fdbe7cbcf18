//! A deterministic, seedable pseudo-random source.
//!
//! Instance data must be reproducible, so randomness is injected as an
//! explicit source value rather than drawn from an ambient generator.
//! The source is a counter-with-mixer generator: every draw advances the
//! state by a fixed odd constant and hashes it through two
//! multiply-xorshift rounds. Both steps are plain integer arithmetic, so
//! the whole draw sequence is a function of the seed alone.

use vstd::prelude::*;

verus! {

/// The state advance: one fixed odd increment per draw.
pub open spec fn next_state(s: u64) -> u64 {
    s.wrapping_add(0x9E3779B97F4A7C15)
}

/// The output mixer applied to a state value. Opaque: callers treat a
/// draw as an arbitrary function of the state.
#[verifier::opaque]
pub open spec fn mix(z: u64) -> u64 {
    let z1 = (z ^ (z >> 30)).wrapping_mul(0xBF58476D1CE4E5B9);
    let z2 = (z1 ^ (z1 >> 27)).wrapping_mul(0x94D049BB133111EB);
    z2 ^ (z2 >> 31)
}

/// The state after `n` draws from a source seeded with `seed`.
pub open spec fn state_after(seed: u64, n: nat) -> u64
    decreases n,
{
    if n == 0 {
        seed
    } else {
        next_state(state_after(seed, (n - 1) as nat))
    }
}

/// The value of draw number `n` (counting from zero) from a source seeded
/// with `seed`.
pub open spec fn draw_at(seed: u64, n: nat) -> u64 {
    mix(state_after(seed, n + 1))
}

/// A seedable random source. Draws are a function of the seed alone:
/// two sources built from the same seed yield the same sequence.
#[derive(Clone, Copy, Debug, PartialEq, Eq, Structural)]
pub struct RandomSource {
    pub state: u64,
}

impl RandomSource {
    pub fn from_seed(seed: u64) -> (r: Self)
        ensures
            r.state == seed,
    {
        RandomSource { state: seed }
    }

    /// Advance the state and return the mixed draw.
    pub fn next_u64(&mut self) -> (r: u64)
        ensures
            final(self).state == next_state(old(self).state),
            r == mix(final(self).state),
    {
        proof {
            reveal(crate::rng::mix);
        }
        self.state = self.state.wrapping_add(0x9E3779B97F4A7C15);
        let z = self.state;
        let z1 = (z ^ (z >> 30)).wrapping_mul(0xBF58476D1CE4E5B9);
        let z2 = (z1 ^ (z1 >> 27)).wrapping_mul(0x94D049BB133111EB);
        z2 ^ (z2 >> 31)
    }
}

} // verus!
