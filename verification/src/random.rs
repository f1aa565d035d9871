//! Random number generation services, backed by the PCG algorithm
//! of the `rand_pcg` crate.
//!
//! The engine value is opaque, so its 128-bit state is named abstractly:
//! `pcg_state` gives the state an engine holds, and every draw is a
//! mathematical function of that state and the bounds. Two generators
//! seeded alike therefore hold equal states and return the same values to
//! the same requests; a generator made with
//! [`RandomNumberGenerator::new`] starts from entropy, and nothing is
//! promised of its state.
use vstd::prelude::*;
use rand::Rng;
use rand::SeedableRng;

verus! {

/// The engine state that a `Pcg64Mcg` value holds, named abstractly.
pub uninterp spec fn pcg_state(rng: rand_pcg::Pcg64Mcg) -> int;

/// The engine state that `Mcg128Xsl64::seed_from_u64` derives from a seed.
pub uninterp spec fn pcg_seed_state(seed: u64) -> int;

/// The state and value that one bounded draw yields: `.0` is the engine
/// state after the draw, `.1` the value drawn.
pub uninterp spec fn pcg_draw(state: int, low: u32, high: u32) -> (int, u32);

#[verifier::external_type_specification]
#[verifier::external_body]
pub struct ExPcg64Mcg(rand_pcg::Mcg128Xsl64);

/// Relies on `SeedableRng::seed_from_u64` (rand_core) on `Pcg64Mcg`: the
/// engine state it returns is derived from the seed alone, so generators
/// seeded alike hold equal states.
#[verifier::external_body]
fn pcg_from_seed(seed: u64) -> (r: rand_pcg::Pcg64Mcg)
    ensures
        pcg_state(r) == pcg_seed_state(seed),
{
    rand_pcg::Pcg64Mcg::seed_from_u64(seed)
}

/// Relies on `SeedableRng::from_entropy` (rand_core), which fills the
/// engine state from the operating system; nothing is promised of it.
#[verifier::external_body]
fn pcg_from_entropy() -> (r: rand_pcg::Pcg64Mcg) {
    rand_pcg::Pcg64Mcg::from_entropy()
}

/// `RandomNumberGenerator` holds random number generation state, and offers
/// random number generation services to your program. It uses the
/// [PCG](https://crates.io/crates/rand_pcg) algorithm.
pub struct RandomNumberGenerator {
    rng: rand_pcg::Pcg64Mcg,
}

impl RandomNumberGenerator {
    /// The abstract engine state of this generator.
    pub closed spec fn model(&self) -> int {
        pcg_state(self.rng)
    }

    /// Creates a default `RandomNumberGenerator`, with a randomly
    /// selected starting seed: nothing is known of its state.
    pub fn new() -> Self {
        RandomNumberGenerator { rng: pcg_from_entropy() }
    }

    /// Creates a new `RandomNumberGenerator` with a user-specified random
    /// seed. It will produce the same results each time (given the same
    /// requests).
    pub fn seeded(seed: u64) -> (r: Self)
        ensures
            r.model() == pcg_seed_state(seed),
    {
        RandomNumberGenerator { rng: pcg_from_seed(seed) }
    }

    /// Relies on `Rng::gen_range` over `low..=high` on `Pcg64Mcg`: the
    /// result lies in the bounds (rand panics only on an empty range), and
    /// the new engine state and the result are derived from the prior state
    /// and the bounds alone, which `pcg_draw` names.
    #[verifier::external_body]
    fn draw(&mut self, low: u32, high: u32) -> (r: u32)
        requires
            low <= high,
        ensures
            low <= r <= high,
            final(self).model() == pcg_draw(old(self).model(), low, high).0,
            r == pcg_draw(old(self).model(), low, high).1,
    {
        self.rng.gen_range(low..=high)
    }

    /// Generates a random number within the given inclusive bounds.
    pub fn range_inclusive(&mut self, low: u32, high: u32) -> (r: u32)
        requires
            low <= high,
        ensures
            low <= r <= high,
            final(self).model() == pcg_draw(old(self).model(), low, high).0,
            r == pcg_draw(old(self).model(), low, high).1,
    {
        self.draw(low, high)
    }

    /// Generates a random number within the specified range.
    pub fn range(&mut self, range: core::ops::Range<u32>) -> (r: u32)
        requires
            range.start < range.end,
        ensures
            range.start <= r < range.end,
            final(self).model() == pcg_draw(
                old(self).model(),
                range.start,
                (range.end - 1) as u32,
            ).0,
            r == pcg_draw(old(self).model(), range.start, (range.end - 1) as u32).1,
    {
        self.draw(range.start, range.end - 1)
    }

    /// Generates a new random number of the requested type.
    ///
    /// Relies on `Rng::gen` with the `Standard` distribution of rand, whose
    /// implementations return without fail for every sampled type; nothing
    /// is promised of the value, and nothing is known of the engine state
    /// afterwards.
    #[verifier::external_body]
    pub fn next<T>(&mut self) -> (r: T) where
        rand::distributions::Standard: rand::distributions::Distribution<T>,
    {
        self.rng.gen()
    }
}

impl Default for RandomNumberGenerator {
    fn default() -> Self {
        Self::new()
    }
}

/// `RandomPlugin` marks the random number generation service for a host
/// application: the host inserts a [`RandomNumberGenerator`] as shared
/// state when the plugin is added.
pub struct RandomPlugin;

} // verus!
