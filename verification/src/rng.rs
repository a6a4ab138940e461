//! The shared-seed deterministic generator of grid coordinates. Both peers
//! build one from the same 64-bit seed and draw from it in the same order,
//! so fruit placement stays identical on both simulations without any
//! per-placement network traffic.

use vstd::prelude::*;
use rand::rngs::StdRng;
use rand::Rng;
use rand::SeedableRng;
use crate::config::GRID_SIZE;

verus! {

#[verifier::external_type_specification]
#[verifier::external_body]
pub struct ExStdRng(StdRng);

/// The coordinate, in [0, GRID_SIZE), that a generator seeded with `seed`
/// returns on the draw made after `draws` earlier draws. Every draw a
/// generator of this module makes is such a grid-coordinate draw, so the
/// count alone locates a draw in the sequence.
pub uninterp spec fn grid_sample(seed: u64, draws: nat) -> int;

/// A generator of grid coordinates built from the shared session seed.
/// Ghost state records the seed and the number of draws made, so contracts
/// can name each sampled value.
pub struct GridRng {
    rng: StdRng,
    seed: Ghost<u64>,
    draws: Ghost<nat>,
}

/// Relies on rand::SeedableRng::seed_from_u64 to derive the generator's
/// state from the 64-bit seed.
#[verifier::external_body]
fn seed_std_rng(seed: u64) -> StdRng {
    StdRng::seed_from_u64(seed)
}

impl GridRng {
    /// The seed this generator was built from.
    pub closed spec fn spec_seed(self) -> u64 {
        self.seed@
    }

    /// How many coordinates this generator has drawn so far.
    pub closed spec fn spec_draws(self) -> nat {
        self.draws@
    }

    /// Builds a fresh generator from `seed`, with no draws made yet.
    pub fn new(seed: u64) -> (r: GridRng)
        ensures
            r.spec_seed() == seed,
            r.spec_draws() == 0,
    {
        GridRng { rng: seed_std_rng(seed), seed: Ghost(seed), draws: Ghost(0nat) }
    }

    /// Draws the next grid coordinate.
    ///
    /// Relies on rand::Rng::gen_range over the non-empty range
    /// 0..GRID_SIZE returning a value of that range (and so not panicking),
    /// and on rand::rngs::StdRng — the ChaCha12 generator — being
    /// deterministic: what a seeded instance returns is a function of the
    /// seed it was built from and of the draws already made, the same in
    /// every process and on every machine.
    #[verifier::external_body]
    pub(crate) fn next_coord(&mut self) -> (r: i32)
        ensures
            0 <= r < GRID_SIZE,
            r == grid_sample(old(self).spec_seed(), old(self).spec_draws()),
            final(self).spec_seed() == old(self).spec_seed(),
            final(self).spec_draws() == old(self).spec_draws() + 1,
    {
        self.rng.gen_range(0..GRID_SIZE)
    }
}

/// Two generators built from the same seed that have made the same number
/// of draws return the same coordinate on every later draw: peers that
/// stay in lockstep sample identical position sequences.
pub proof fn lemma_rng_deterministic(a: GridRng, b: GridRng, ahead: nat)
    requires
        a.spec_seed() == b.spec_seed(),
        a.spec_draws() == b.spec_draws(),
    ensures
        grid_sample(a.spec_seed(), (a.spec_draws() + ahead) as nat) == grid_sample(
            b.spec_seed(),
            (b.spec_draws() + ahead) as nat,
        ),
{
}

} // verus!
