//! A deterministic stream of pseudo-random draws.
//!
//! The stream is backed by `oorandom::Rand32`, a PCG-32 generator.  The
//! generator is a pure state machine: seeding it fixes its whole output
//! sequence, so the draw at each position of the stream is a function of the
//! seed and that position alone.  That function is named `draw_of` here and
//! left uninterpreted; everything the library proves about randomized
//! generation is stated over it.

use vstd::prelude::*;
use oorandom::Rand32;

verus! {

/// `oorandom::Rand32`: an opaque PCG-32 generator state.
#[verifier::external_type_specification]
#[verifier::external_body]
pub struct ExRand32(Rand32);

/// The value that the `idx`-th call of `oorandom::Rand32::rand_u32` returns
/// on a generator made by `oorandom::Rand32::new(seed)`.  PCG-32 is a pure
/// integer state machine, so this depends on `seed` and `idx` alone.
pub uninterp spec fn draw_of(seed: u64, idx: nat) -> u32;

/// The unit draw at a stream position: the raw draw with its low eight bits
/// dropped, a 24-bit numerator `m` standing for the fraction `m / 2^24` in
/// `[0, 1)`.  This is exactly the fraction that `oorandom::Rand32::rand_float`
/// returns: it keeps the top 24 bits of a raw draw and scales them by `2^-24`,
/// both steps exact in single precision.
pub open spec fn unit_draw(seed: u64, idx: nat) -> u32 {
    draw_of(seed, idx) >> 8
}

/// A unit draw is a 24-bit value.
pub proof fn lemma_unit_draw_bound(seed: u64, idx: nat)
    ensures
        unit_draw(seed, idx) < 0x100_0000,
{
    let d = draw_of(seed, idx);
    assert(d >> 8 < 0x100_0000u32) by (bit_vector);
}

/// A pseudo-random stream with a known seed, counting the draws it has
/// handed out, so that each draw is pinned to `draw_of(seed, position)`.
pub(crate) struct Stream {
    rng: Rand32,
    seed: Ghost<u64>,
    taken: Ghost<nat>,
}

impl Stream {
    /// The seed this stream was made with.
    pub(crate) closed spec fn seed(&self) -> u64 {
        self.seed@
    }

    /// How many raw draws have been taken so far.
    pub(crate) closed spec fn taken(&self) -> nat {
        self.taken@
    }

    /// Relies on `oorandom::Rand32::new`: seeds a fresh PCG-32 generator
    /// whose draw sequence is fixed by `seed`.
    #[verifier::external_body]
    pub(crate) fn new(seed: u64) -> (s: Stream)
        ensures
            s.seed() == seed,
            s.taken() == 0,
    {
        Stream { rng: Rand32::new(seed), seed: Ghost(seed), taken: Ghost(0nat) }
    }

    /// Relies on `oorandom::Rand32::rand_u32`: one PCG-32 step, a pure
    /// function of the generator state, so the draw at this position of the
    /// stream is `draw_of` of the seed and the position.
    #[verifier::external_body]
    pub(crate) fn next_raw(&mut self) -> (r: u32)
        ensures
            final(self).seed() == old(self).seed(),
            final(self).taken() == old(self).taken() + 1,
            r == draw_of(old(self).seed(), old(self).taken()),
    {
        self.rng.rand_u32()
    }

    /// The next unit draw: the 24-bit fraction numerator that
    /// `oorandom::Rand32::rand_float` would turn into a float in `[0, 1)`.
    pub(crate) fn next_unit(&mut self) -> (m: u32)
        ensures
            final(self).seed() == old(self).seed(),
            final(self).taken() == old(self).taken() + 1,
            m == unit_draw(old(self).seed(), old(self).taken()),
            m < 0x100_0000,
    {
        let d = self.next_raw();
        proof {
            lemma_unit_draw_bound(self.seed(), (self.taken() - 1) as nat);
        }
        d >> 8
    }
}

} // verus!
