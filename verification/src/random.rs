//! A deterministic seeded generator of candidate comic identifiers, backed by
//! a ChaCha stream cipher generator from an outside crate.
//!
//! The generator is created once per selection and advanced on every draw, so
//! repeated draws within one selection walk one stream instead of re-deriving
//! the same value.

use vstd::prelude::*;
use rand::Rng;
use rand::SeedableRng;

verus! {

#[verifier::external_type_specification]
#[verifier::external_body]
pub struct ExChaCha8Rng(rand_chacha::ChaCha8Rng);

/// Draw number `i` (counting from zero) of the stream that a ChaCha8
/// generator seeded with `seed` yields when every draw asks for a value in
/// the closed range `[1, max]`.  The stream cipher and the seeding procedure
/// are documented as deterministic and portable, so this is a function of
/// `seed`, `max` and `i` alone, the same in every process and on every
/// machine.
pub uninterp spec fn chacha_draw(seed: u64, max: u32, i: nat) -> u32;

/// Relies on `rand_chacha::ChaCha8Rng` with `SeedableRng::seed_from_u64`:
/// building the generator is a deterministic function of the seed value and
/// does not fail.  The generator value is opaque here; `SeededRng` ties it
/// back to the seed it came from.
#[verifier::external_body]
fn chacha_from_seed(seed: u64) -> rand_chacha::ChaCha8Rng {
    rand_chacha::ChaCha8Rng::seed_from_u64(seed)
}

/// A ChaCha8 generator together with the seed it was built from, the fixed
/// range bound it draws with, and how many draws it has produced.
///
/// The fields are private: the only way to obtain one is `new`, so the
/// generator inside always is the one that `seed` and `drawn` describe.
pub struct SeededRng {
    inner: rand_chacha::ChaCha8Rng,
    bound_v: u32,
    seed_g: Ghost<u64>,
    drawn_g: Ghost<nat>,
}

impl SeededRng {
    /// The seed this generator was created from.
    pub closed spec fn seed(self) -> u64 {
        self.seed_g@
    }

    /// The inclusive upper bound of every draw; at least 1.
    pub closed spec fn bound(self) -> u32 {
        self.bound_v
    }

    /// How many draws have been produced so far.
    pub closed spec fn drawn(self) -> nat {
        self.drawn_g@
    }

    /// A fresh generator for `seed` that will draw in `[1, max]`.
    pub(crate) fn new(seed: u64, max: u32) -> (g: SeededRng)
        requires
            max >= 1,
        ensures
            g.seed() == seed,
            g.bound() == max,
            g.drawn() == 0,
    {
        SeededRng {
            inner: chacha_from_seed(seed),
            bound_v: max,
            seed_g: Ghost(seed),
            drawn_g: Ghost(0nat),
        }
    }

    /// Relies on `rand::Rng::gen_range` over the inclusive range
    /// `1..=bound`: it returns a value within that range (and panics only on
    /// an empty range, which `bound >= 1` rules out), advancing the
    /// generator state; the value drawn is a deterministic function of the
    /// generator state, hence of the seed, the bound and the number of draws
    /// so far.
    #[verifier::external_body]
    pub(crate) fn draw(&mut self) -> (r: u32)
        requires
            old(self).bound() >= 1,
        ensures
            final(self).bound() == old(self).bound(),
            final(self).seed() == old(self).seed(),
            final(self).drawn() == old(self).drawn() + 1,
            1 <= r <= old(self).bound(),
            r == chacha_draw(old(self).seed(), old(self).bound(), old(self).drawn()),
    {
        self.inner.gen_range(1..=self.bound_v)
    }
}

} // verus!
