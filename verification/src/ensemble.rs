//! Randomized generation of a peak ensemble.
//!
//! `random_peaks` draws, for each of `n` peaks, five unit draws from one
//! seeded stream — center, amplitude, width, steepness, and a class draw —
//! and classifies the peak into one of four equally likely classes by
//! quartering the class draw's unit interval.  Every numeric field of the
//! result is the raw 24-bit unit draw `m`, standing for the fraction
//! `m / 2^24` in `[0, 1)`; scaling the fractions into parameter ranges is
//! single-precision arithmetic and is left to the evaluation layer.
//!
//! The contract pins the whole result to a spec function of the count and
//! the seed alone, so generation is deterministic by construction.

use vstd::prelude::*;
use crate::rng::{unit_draw, Stream};

verus! {

/// Which analytic shape a generated peak uses.
#[derive(Clone, Copy, PartialEq, Eq, Structural, Debug)]
pub enum ShapeKind {
    Gauss,
    Lorentz,
}

/// One quarter of the unit-draw range (`0.25` as a fraction over `2^24`).
pub const QUARTER_UNIT: u32 = 0x40_0000;

/// Half of the unit-draw range.
pub const HALF_UNIT: u32 = 0x80_0000;

/// Three quarters of the unit-draw range.
pub const THREE_QUARTER_UNIT: u32 = 0xC0_0000;

/// One generated peak, described by its raw unit draws: each numeric field
/// is a 24-bit value `m` standing for the fraction `m / 2^24` in `[0, 1)`
/// of that parameter's range — `center` of the channel axis, `amplitude` of
/// `[100, 1100)`, `width` of `[1, 26)`, and `steepness` of `[0, 0.1)`.
#[derive(Clone, Copy, PartialEq, Eq, Structural, Debug)]
pub struct PeakDraw {
    pub shape: ShapeKind,
    pub skew_left: bool,
    pub center: u32,
    pub amplitude: u32,
    pub width: u32,
    pub steepness: u32,
}

/// The shape the class draw `f` selects: the lower half of the unit interval
/// gives the bell curve, the upper half the heavy-tailed curve.  The class
/// cut points are exact in single precision (quarters of `2^24`), so
/// comparing the raw draw is the same comparison the fraction would make.
pub open spec fn drawn_shape(f: u32) -> ShapeKind {
    if f < HALF_UNIT {
        ShapeKind::Gauss
    } else {
        ShapeKind::Lorentz
    }
}

/// Whether the class draw `f` selects a left skew: the first quarter of each
/// half does.
pub open spec fn drawn_skew_left(f: u32) -> bool {
    f < QUARTER_UNIT || (HALF_UNIT <= f && f < THREE_QUARTER_UNIT)
}

/// The `i`-th peak that a generation run with this seed describes: its five
/// unit draws are consecutive positions of the seeded stream, and the class
/// draw (the fifth) picks shape and skew direction.
pub open spec fn ensemble_peak(seed: u64, i: nat) -> PeakDraw {
    PeakDraw {
        shape: drawn_shape(unit_draw(seed, 5 * i + 4)),
        skew_left: drawn_skew_left(unit_draw(seed, 5 * i + 4)),
        center: unit_draw(seed, 5 * i),
        amplitude: unit_draw(seed, 5 * i + 1),
        width: unit_draw(seed, 5 * i + 2),
        steepness: unit_draw(seed, 5 * i + 3),
    }
}

/// Generates `n` random peak descriptions from `seed`, in draw order.
///
/// Deterministic: the result is a function of `n` and `seed` alone, and a
/// count of zero yields the empty ensemble.
pub fn random_peaks(n: usize, seed: u64) -> (peaks: Vec<PeakDraw>)
    ensures
        peaks@.len() == n as int,
        forall|i: int| 0 <= i < n as int ==> peaks@[i] == ensemble_peak(seed, i as nat),
{
    let mut peaks: Vec<PeakDraw> = Vec::new();
    let mut s = Stream::new(seed);
    let mut i: usize = 0;
    while i < n
        invariant
            s.seed() == seed,
            s.taken() == 5 * (i as nat),
            i <= n,
            peaks@.len() == i as int,
            forall|j: int| 0 <= j < i as int ==> peaks@[j] == ensemble_peak(seed, j as nat),
        decreases n - i,
    {
        let center = s.next_unit();
        let amplitude = s.next_unit();
        let width = s.next_unit();
        let steepness = s.next_unit();
        let f = s.next_unit();
        let shape = if f < HALF_UNIT {
            ShapeKind::Gauss
        } else {
            ShapeKind::Lorentz
        };
        let skew_left = f < QUARTER_UNIT || (HALF_UNIT <= f && f < THREE_QUARTER_UNIT);
        peaks.push(PeakDraw { shape, skew_left, center, amplitude, width, steepness });
        i = i + 1;
    }
    peaks
}

/// Law: generation is deterministic — two runs described by the same count
/// and seed hold bit-identical draws, peak for peak.
pub proof fn lemma_ensemble_deterministic(a: Seq<PeakDraw>, b: Seq<PeakDraw>, n: int, seed: u64)
    requires
        a.len() == n,
        forall|i: int| 0 <= i < n ==> a[i] == ensemble_peak(seed, i as nat),
        b.len() == n,
        forall|i: int| 0 <= i < n ==> b[i] == ensemble_peak(seed, i as nat),
    ensures
        a == b,
{
    assert(a =~= b);
}

} // verus!
