//! Noise sequences and the synthesizer's per-channel decisions.
//!
//! `pseudo_normal` approximates a standard normal sample by summing twelve
//! independent unit draws and subtracting six.  Each unit draw is an exact
//! 24-bit fraction `m / 2^24`, so the sum is computed here exactly, as an
//! integer numerator over `2^24`: a result `v` stands for the noise value
//! `v / 2^24`, which lies in `[-6, 6)`.  Dividing the numerator out is
//! single-precision work and is left to the evaluation layer.

use vstd::prelude::*;
use crate::rng::{lemma_unit_draw_bound, unit_draw, Stream};

verus! {

/// One, in the fixed-point scale of the unit draws (`2^24`).
pub const UNIT_ONE: i64 = 0x100_0000;

/// Six, in the fixed-point scale of the unit draws: the half-width of the
/// support of the summed-uniform approximation.
pub const SIX_UNITS: i64 = 0x600_0000;

/// The sum of the unit draws at `count` consecutive stream positions
/// starting at `start`.
pub open spec fn unit_sum(seed: u64, start: nat, count: nat) -> int
    decreases count,
{
    if count == 0 {
        0
    } else {
        unit_sum(seed, start, (count - 1) as nat) + unit_draw(
            seed,
            (start + count - 1) as nat,
        )
    }
}

/// A sum of `count` unit draws is at most `count` times the greatest draw.
pub proof fn lemma_unit_sum_bounds(seed: u64, start: nat, count: nat)
    ensures
        0 <= unit_sum(seed, start, count),
        unit_sum(seed, start, count) <= count * 0xFF_FFFF,
    decreases count,
{
    if count > 0 {
        lemma_unit_sum_bounds(seed, start, (count - 1) as nat);
        lemma_unit_draw_bound(seed, (start + count - 1) as nat);
        assert((count - 1) * 0xFF_FFFF + 0xFF_FFFF == count * 0xFF_FFFF) by (nonlinear_arith);
    }
}

/// The `k`-th value of a seeded pseudo-normal sequence, in the fixed-point
/// scale: twelve consecutive unit draws summed, less six.
pub open spec fn normal_value(seed: u64, k: nat) -> int {
    unit_sum(seed, 12 * k, 12) - 0x600_0000
}

/// A pseudo-normal noise sequence of length `n`, drawn from `seed`, in the
/// fixed-point scale of the unit draws: each value stands for itself divided
/// by `2^24`.
///
/// Each value sums twelve unit draws and subtracts six (mean zero, support
/// within six either side), and the whole sequence is a function of `n` and
/// `seed` alone.
pub fn pseudo_normal_seeded(n: usize, seed: u64) -> (xs: Vec<i64>)
    ensures
        xs@.len() == n as int,
        forall|k: int| 0 <= k < n as int ==> xs@[k] == normal_value(seed, k as nat),
        forall|k: int| 0 <= k < n as int ==> -0x600_0000 <= #[trigger] xs@[k] < 0x600_0000,
{
    let mut xs: Vec<i64> = Vec::new();
    let mut s = Stream::new(seed);
    let mut k: usize = 0;
    while k < n
        invariant
            s.seed() == seed,
            s.taken() == 12 * (k as nat),
            k <= n,
            xs@.len() == k as int,
            forall|j: int| 0 <= j < k as int ==> xs@[j] == normal_value(seed, j as nat),
        decreases n - k,
    {
        let mut sum: u32 = 0;
        let mut j: usize = 0;
        while j < 12
            invariant
                s.seed() == seed,
                s.taken() == 12 * (k as nat) + j as nat,
                j <= 12,
                sum == unit_sum(seed, 12 * (k as nat), j as nat),
                sum <= j * 0xFF_FFFF,
            decreases 12 - j,
        {
            let m = s.next_unit();
            sum = sum + m;
            j = j + 1;
        }
        xs.push(sum as i64 - 0x600_0000);
        proof {
            lemma_unit_sum_bounds(seed, 12 * (k as nat), 12);
        }
        k = k + 1;
    }
    proof {
        assert forall|k: int| 0 <= k < n as int implies -0x600_0000 <= #[trigger] xs@[k]
            < 0x600_0000 by {
            lemma_unit_sum_bounds(seed, (12 * k) as nat, 12);
        }
    }
    xs
}

/// A uniform sequence of length `n`: each value is a 24-bit unit draw `m`
/// standing for the fraction `m / 2^24` in `[0, 1)`.  Seeded by `seed` when
/// one is given, else by the clock; a seeded sequence is a function of the
/// seed alone.
pub fn uniform(n: usize, seed: Option<u64>) -> (ms: Vec<u32>)
    ensures
        ms@.len() == n as int,
        forall|k: int| 0 <= k < n as int ==> #[trigger] ms@[k] < 0x100_0000,
        match seed {
            Some(s) => forall|k: int|
                0 <= k < n as int ==> #[trigger] ms@[k] == unit_draw(s, k as nat),
            None => true,
        },
{
    let sd = match seed {
        Some(s) => s,
        None => time_ns(),
    };
    let mut ms: Vec<u32> = Vec::new();
    let mut s = Stream::new(sd);
    let mut k: usize = 0;
    while k < n
        invariant
            s.seed() == sd,
            s.taken() == k as nat,
            k <= n,
            ms@.len() == k as int,
            forall|j: int| 0 <= j < k as int ==> #[trigger] ms@[j] == unit_draw(sd, j as nat),
            forall|j: int| 0 <= j < k as int ==> #[trigger] ms@[j] < 0x100_0000,
        decreases n - k,
    {
        let m = s.next_unit();
        ms.push(m);
        k = k + 1;
    }
    ms
}

/// A pseudo-normal noise sequence of length `n`: seeded by `seed` when one
/// is given, else by the clock, so that successive frames draw fresh noise.
pub fn pseudo_normal(n: usize, seed: Option<u64>) -> (xs: Vec<i64>)
    ensures
        xs@.len() == n as int,
        forall|k: int| 0 <= k < n as int ==> -0x600_0000 <= #[trigger] xs@[k] < 0x600_0000,
        match seed {
            Some(s) => forall|k: int|
                0 <= k < n as int ==> #[trigger] xs@[k] == normal_value(s, k as nat),
            None => true,
        },
{
    let sd = match seed {
        Some(s) => s,
        None => time_ns(),
    };
    pseudo_normal_seeded(n, sd)
}

/// Relies on `std::time::SystemTime::now` and
/// `std::time::SystemTime::duration_since`: the nanoseconds from the Unix
/// epoch to the clock's present reading, or nothing on a clock set before
/// the epoch.  Nothing is promised of the value: the clock is no function of
/// the call's arguments.
#[verifier::external_body]
fn nanos_since_epoch() -> Option<u128> {
    match std::time::SystemTime::now().duration_since(std::time::UNIX_EPOCH) {
        Ok(d) => Some(d.as_nanos()),
        Err(_) => None,
    }
}

/// A clock-derived seed: the nanoseconds since the Unix epoch, truncated to
/// 64 bits, or zero on a clock set before the epoch.  The value is whatever
/// the clock reads — no two calls need agree.
pub fn time_ns() -> u64 {
    match nanos_since_epoch() {
        Some(n) => #[verifier::truncate] (n as u64),
        None => 0,
    }
}

/// The greatest unit draw whose fraction does not exceed the reading of
/// `0.99` in single precision (which rounds up to `16609444 / 2^24`): a
/// channel whose uniform draw lies strictly above this cut receives an
/// exaggerated outlier value in place of its computed one.
pub const OUTLIER_CUT: u32 = 16609444;

/// Whether a per-channel unit draw marks the channel as a sparse outlier:
/// exactly when the draw's fraction exceeds the single-precision reading of
/// the `0.99` cut.
pub fn is_outlier_draw(m: u32) -> (r: bool)
    ensures
        r == (m > OUTLIER_CUT),
{
    m > OUTLIER_CUT
}

} // verus!
