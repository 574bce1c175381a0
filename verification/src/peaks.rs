//! Peak functions and their composition into a pipeline.
//!
//! A peak function maps an axis position and a running offset to the pair of
//! that position and a new offset.  Its numeric parameters travel through the
//! pipeline as opaque 32-bit words: the library never does arithmetic on
//! them.  An evaluation kernel — any function on `(Peak, position, offset)`
//! pairs — is handed to the fold and gives the words their meaning; the
//! reference kernel reads each word as an IEEE single-precision bit pattern
//! and computes the analytic shapes.
//!
//! The fold itself is what this module verifies: the pipeline hands the
//! running pair through its peaks strictly left to right, the batched mode
//! folds every axis position through the same relation as the scalar mode,
//! and an empty pipeline returns its input unchanged.

use vstd::prelude::*;

verus! {

/// A symmetric bell curve: centered at `x0`, scaled by `a`, with width `s`.
#[derive(Clone, Copy, PartialEq, Eq, Structural, Debug)]
pub struct Gauss {
    pub x0: u32,
    pub a: u32,
    pub s: u32,
}

impl Gauss {
    pub fn new(x0: u32, a: u32, s: u32) -> (g: Gauss)
        ensures
            g == (Gauss { x0, a, s }),
    {
        Gauss { x0, a, s }
    }

    /// The axis position of the peak's maximum.
    pub fn center(&self) -> (c: u32)
        ensures
            c == self.x0,
    {
        self.x0
    }
}

/// A heavy-tailed curve: centered at `x0`, scaled by `a`, with width `s`.
#[derive(Clone, Copy, PartialEq, Eq, Structural, Debug)]
pub struct Lorentz {
    pub x0: u32,
    pub a: u32,
    pub s: u32,
}

impl Lorentz {
    pub fn new(x0: u32, a: u32, s: u32) -> (l: Lorentz)
        ensures
            l == (Lorentz { x0, a, s }),
    {
        Lorentz { x0, a, s }
    }

    /// The axis position of the peak's maximum.
    pub fn center(&self) -> (c: u32)
        ensures
            c == self.x0,
    {
        self.x0
    }
}

/// One of the two analytic shapes.
#[derive(Clone, Copy, PartialEq, Eq, Structural, Debug)]
pub enum Shape {
    Gauss(Gauss),
    Lorentz(Lorentz),
}

impl Shape {
    /// The center parameter of the underlying shape.
    pub open spec fn spec_center(self) -> u32 {
        match self {
            Shape::Gauss(g) => g.x0,
            Shape::Lorentz(l) => l.x0,
        }
    }

    pub fn center(&self) -> (c: u32)
        ensures
            c == self.spec_center(),
    {
        match self {
            Shape::Gauss(g) => g.center(),
            Shape::Lorentz(l) => l.center(),
        }
    }
}

/// A skewed peak: an inner shape whose contribution is modulated by a
/// sigmoid of steepness `k` centered on the inner shape's center; `skew_left`
/// mirrors the sigmoid.  The wrapper does not alter the inner shape's
/// identity: its center is the inner center.
#[derive(Clone, Copy, PartialEq, Eq, Structural, Debug)]
pub struct Skew {
    pub p: Shape,
    pub k: u32,
    pub skew_left: bool,
}

impl Skew {
    /// A left-skewed wrapping of `p` (the sigmoid is mirrored).
    pub fn left(p: Shape, k: u32) -> (w: Skew)
        ensures
            w == (Skew { p, k, skew_left: true }),
    {
        Skew { p, k, skew_left: true }
    }

    /// A right-skewed wrapping of `p`.
    pub fn right(p: Shape, k: u32) -> (w: Skew)
        ensures
            w == (Skew { p, k, skew_left: false }),
    {
        Skew { p, k, skew_left: false }
    }

    /// Delegates to the inner shape.
    pub fn center(&self) -> (c: u32)
        ensures
            c == self.p.spec_center(),
    {
        self.p.center()
    }
}

/// A peak function: a bare shape, or a shape under a skew transform.
#[derive(Clone, Copy, PartialEq, Eq, Structural, Debug)]
pub enum Peak {
    Plain(Shape),
    Skewed(Skew),
}

impl Peak {
    /// The center parameter, through any skew wrapper.
    pub open spec fn spec_center(self) -> u32 {
        match self {
            Peak::Plain(p) => p.spec_center(),
            Peak::Skewed(w) => w.p.spec_center(),
        }
    }

    pub fn center(&self) -> (c: u32)
        ensures
            c == self.spec_center(),
    {
        match self {
            Peak::Plain(p) => p.center(),
            Peak::Skewed(w) => w.center(),
        }
    }

    /// Evaluates this peak at position `x` on top of offset `y0`, from three
    /// injected single-precision primitives: `shape` turns an analytic shape,
    /// a position and an offset into the offset plus the shape's value;
    /// `sigmoid` turns steepness, position, center and direction into the
    /// skew mask; `mask_add` combines a contribution, a mask and an offset
    /// into offset plus masked contribution.
    ///
    /// The contract pins the composition: the position passes through
    /// unchanged; a bare shape is one `shape` call on the running offset; a
    /// skewed peak evaluates its inner shape in isolation — on the all-zero
    /// word, which is the single-precision zero — masks it by a sigmoid that
    /// sees only steepness, position, the inner center and the direction,
    /// and adds the running offset once.
    pub fn apply<S: Fn(Shape, u32, u32) -> u32, G: Fn(u32, u32, u32, bool) -> u32, M: Fn(
        u32,
        u32,
        u32,
    ) -> u32>(&self, shape: &S, sigmoid: &G, mask_add: &M, x: u32, y0: u32) -> (r: (u32, u32))
        requires
            forall|p: Shape, a: u32, b: u32| #[trigger] call_requires(*shape, (p, a, b)),
            forall|k: u32, a: u32, c: u32, d: bool| #[trigger] call_requires(*sigmoid, (k, a, c, d)),
            forall|y: u32, m: u32, b: u32| #[trigger] call_requires(*mask_add, (y, m, b)),
        ensures
            r.0 == x,
            match *self {
                Peak::Plain(p) => call_ensures(*shape, (p, x, y0), r.1),
                Peak::Skewed(w) => exists|y: u32, m: u32|
                    {
                        &&& #[trigger] call_ensures(*shape, (w.p, x, 0u32), y)
                        &&& #[trigger] call_ensures(
                            *sigmoid,
                            (w.k, x, w.p.spec_center(), w.skew_left),
                            m,
                        )
                        &&& call_ensures(*mask_add, (y, m, y0), r.1)
                    },
            },
    {
        match self {
            Peak::Plain(p) => (x, (*shape)(*p, x, y0)),
            Peak::Skewed(w) => {
                let y = (*shape)(w.p, x, 0);
                let m = (*sigmoid)(w.k, x, w.p.center(), w.skew_left);
                (x, (*mask_add)(y, m, y0))
            },
        }
    }
}

/// Holds when `trace` records a left-to-right fold of the kernel `f` over
/// `peaks` from the pair `from` to the pair `to`: the trace starts at `from`,
/// ends at `to`, and each peak in order turns one entry into the next.
pub open spec fn chained<F: Fn(Peak, u32, u32) -> (u32, u32)>(
    f: F,
    peaks: Seq<Peak>,
    from: (u32, u32),
    trace: Seq<(u32, u32)>,
    to: (u32, u32),
) -> bool {
    &&& trace.len() == peaks.len() + 1
    &&& trace[0] == from
    &&& trace[peaks.len() as int] == to
    &&& forall|i: int|
        0 <= i < peaks.len() ==> call_ensures(
            f,
            (peaks[i], trace[i].0, trace[i].1),
            #[trigger] trace[i + 1],
        )
}

/// Holds when `to` is a possible result of folding the kernel `f` over
/// `peaks` left to right, starting from the pair `from`: the first peak
/// consumes `from` and each later peak consumes what the one before it
/// produced.
pub open spec fn folds<F: Fn(Peak, u32, u32) -> (u32, u32)>(
    f: F,
    peaks: Seq<Peak>,
    from: (u32, u32),
    to: (u32, u32),
) -> bool {
    exists|trace: Seq<(u32, u32)>| chained(f, peaks, from, trace, to)
}

/// Law: an empty pipeline hands the starting pair back unchanged, whatever
/// the kernel is.
pub proof fn lemma_empty_fold_identity<F: Fn(Peak, u32, u32) -> (u32, u32)>(
    f: F,
    from: (u32, u32),
    to: (u32, u32),
)
    requires
        folds(f, Seq::<Peak>::empty(), from, to),
    ensures
        to == from,
{
    let trace = choose|trace: Seq<(u32, u32)>|
        chained(f, Seq::<Peak>::empty(), from, trace, to);
    assert(trace[0] == from);
}

/// Two traces of the same fold agree entry by entry when the kernel computes
/// a function of its arguments.
proof fn lemma_traces_agree<F: Fn(Peak, u32, u32) -> (u32, u32)>(
    f: F,
    peaks: Seq<Peak>,
    from: (u32, u32),
    t1: Seq<(u32, u32)>,
    t2: Seq<(u32, u32)>,
    to1: (u32, u32),
    to2: (u32, u32),
    i: int,
)
    requires
        forall|p: Peak, a: u32, b: u32, o1: (u32, u32), o2: (u32, u32)|
            call_ensures(f, (p, a, b), o1) && call_ensures(f, (p, a, b), o2) ==> o1 == o2,
        chained(f, peaks, from, t1, to1),
        chained(f, peaks, from, t2, to2),
        0 <= i <= peaks.len(),
    ensures
        t1[i] == t2[i],
    decreases i,
{
    if i > 0 {
        lemma_traces_agree(f, peaks, from, t1, t2, to1, to2, i - 1);
        assert(call_ensures(f, (peaks[i - 1], t1[i - 1].0, t1[i - 1].1), t1[(i - 1) + 1]));
        assert(call_ensures(f, (peaks[i - 1], t2[i - 1].0, t2[i - 1].1), t2[(i - 1) + 1]));
    }
}

/// Law: for a kernel that computes a function of its arguments, the fold of
/// a pipeline has exactly one result — so any two evaluations of the same
/// pipeline from the same starting pair agree, and in particular the scalar
/// and the batched mode return the same value at every index.
pub proof fn lemma_fold_deterministic<F: Fn(Peak, u32, u32) -> (u32, u32)>(
    f: F,
    peaks: Seq<Peak>,
    from: (u32, u32),
    to1: (u32, u32),
    to2: (u32, u32),
)
    requires
        forall|p: Peak, a: u32, b: u32, o1: (u32, u32), o2: (u32, u32)|
            call_ensures(f, (p, a, b), o1) && call_ensures(f, (p, a, b), o2) ==> o1 == o2,
        folds(f, peaks, from, to1),
        folds(f, peaks, from, to2),
    ensures
        to1 == to2,
{
    let t1 = choose|trace: Seq<(u32, u32)>| chained(f, peaks, from, trace, to1);
    let t2 = choose|trace: Seq<(u32, u32)>| chained(f, peaks, from, trace, to2);
    lemma_traces_agree(f, peaks, from, t1, t2, to1, to2, peaks.len() as int);
}

/// The running offset after combining, in order, each peak's isolated
/// contribution at position `x` onto `y`: the accumulation
/// `plus(.. plus(plus(y, c(peaks[0], x)), c(peaks[1], x)) .., c(peaks[n-1], x))`.
pub open spec fn summed(
    plus: spec_fn(u32, u32) -> u32,
    c: spec_fn(Peak, u32) -> u32,
    peaks: Seq<Peak>,
    x: u32,
    y: u32,
) -> u32
    decreases peaks.len(),
{
    if peaks.len() == 0 {
        y
    } else {
        summed(plus, c, peaks.skip(1), x, plus(y, c(peaks[0], x)))
    }
}

/// Law: composing peaks is additive superposition, not nested composition.
/// For any kernel that hands the position through unchanged and combines a
/// per-peak contribution — a function of the peak and the position alone —
/// onto the running offset, folding a pipeline from `(x, y0)` returns `x`
/// and the accumulation of every peak's isolated contribution onto `y0`, in
/// pipeline order.
pub proof fn lemma_fold_is_superposition<F: Fn(Peak, u32, u32) -> (u32, u32)>(
    f: F,
    plus: spec_fn(u32, u32) -> u32,
    c: spec_fn(Peak, u32) -> u32,
    peaks: Seq<Peak>,
    x: u32,
    y0: u32,
    r: (u32, u32),
)
    requires
        forall|p: Peak, a: u32, b: u32, out: (u32, u32)|
            call_ensures(f, (p, a, b), out) ==> out == (a, plus(b, c(p, a))),
        folds(f, peaks, (x, y0), r),
    ensures
        r == (x, summed(plus, c, peaks, x, y0)),
    decreases peaks.len(),
{
    let trace = choose|trace: Seq<(u32, u32)>| chained(f, peaks, (x, y0), trace, r);
    if peaks.len() == 0 {
        assert(r == trace[0]);
    } else {
        let i0: int = 0;
        assert(call_ensures(f, (peaks[0], trace[0].0, trace[0].1), trace[i0 + 1]));
        let mid = (x, plus(y0, c(peaks[0], x)));
        assert(trace[1] == mid);
        let tail = trace.skip(1);
        assert(chained(f, peaks.skip(1), mid, tail, r)) by {
            assert(tail.len() == peaks.skip(1).len() + 1);
            assert(tail[0] == mid);
            assert(tail[peaks.skip(1).len() as int] == trace[peaks.len() as int]);
            assert forall|i: int| 0 <= i < peaks.skip(1).len() implies call_ensures(
                f,
                (peaks.skip(1)[i], tail[i].0, tail[i].1),
                #[trigger] tail[i + 1],
            ) by {
                assert(call_ensures(f, (peaks[i + 1], trace[i + 1].0, trace[i + 1].1), trace[(i + 1)
                    + 1]));
            }
        }
        lemma_fold_is_superposition(f, plus, c, peaks.skip(1), x, mid.1, r);
    }
}

/// An ordered pipeline of peak functions, folded over an axis to accumulate
/// a signal.  Composition is additive superposition: each peak adds its own
/// contribution to the running offset that the fold carries through.
#[derive(Debug)]
pub struct Pipeline {
    pub peaks: Vec<Peak>,
}

impl View for Pipeline {
    type V = Seq<Peak>;

    open spec fn view(&self) -> Seq<Peak> {
        self.peaks@
    }
}

impl Pipeline {
    /// An empty pipeline.
    pub fn new() -> (pl: Pipeline)
        ensures
            pl@ == Seq::<Peak>::empty(),
    {
        Pipeline { peaks: Vec::new() }
    }

    /// Appends one peak function; order is significant.
    pub fn push(&mut self, p: Peak)
        ensures
            final(self)@ == old(self)@.push(p),
    {
        self.peaks.push(p);
    }

    pub fn len(&self) -> (n: usize)
        ensures
            n == self@.len(),
    {
        self.peaks.len()
    }

    pub fn peak_at(&self, i: usize) -> (p: Peak)
        requires
            i < self@.len(),
        ensures
            p == self@[i as int],
    {
        self.peaks[i]
    }

    /// Scalar mode: folds the pipeline once over one `(position, offset)`
    /// pair, handing the running pair to each peak in order through the
    /// kernel `f`.  An empty pipeline returns the pair unchanged.
    pub fn apply<F: Fn(Peak, u32, u32) -> (u32, u32)>(&self, f: &F, x: u32, y0: u32) -> (r: (
        u32,
        u32,
    ))
        requires
            forall|p: Peak, a: u32, b: u32| #[trigger] call_requires(*f, (p, a, b)),
        ensures
            folds(*f, self@, (x, y0), r),
            self@.len() == 0 ==> r == (x, y0),
    {
        let mut cx = x;
        let mut cy = y0;
        let ghost mut trace = seq![(x, y0)];
        let mut i: usize = 0;
        while i < self.peaks.len()
            invariant
                forall|p: Peak, a: u32, b: u32| #[trigger] call_requires(*f, (p, a, b)),
                i <= self.peaks.len(),
                trace.len() == i + 1,
                trace[0] == (x, y0),
                trace[i as int] == (cx, cy),
                forall|j: int|
                    0 <= j < i as int ==> call_ensures(
                        *f,
                        (self.peaks@[j], trace[j].0, trace[j].1),
                        #[trigger] trace[j + 1],
                    ),
            decreases self.peaks.len() - i,
        {
            let p = self.peaks[i];
            let (nx, ny) = (*f)(p, cx, cy);
            proof {
                trace = trace.push((nx, ny));
            }
            cx = nx;
            cy = ny;
            i = i + 1;
        }
        proof {
            assert(chained(*f, self@, (x, y0), trace, (cx, cy)));
        }
        (cx, cy)
    }

    /// Batched mode: folds every `(position, offset)` pair of a whole axis
    /// through the same relation as the scalar mode, elementwise, so the two
    /// modes agree at every index for any kernel that computes a function of
    /// its arguments.
    pub fn apply_batch<F: Fn(Peak, u32, u32) -> (u32, u32)>(
        &self,
        f: &F,
        xs: &Vec<u32>,
        y0s: &Vec<u32>,
    ) -> (r: (Vec<u32>, Vec<u32>))
        requires
            forall|p: Peak, a: u32, b: u32| #[trigger] call_requires(*f, (p, a, b)),
            xs@.len() == y0s@.len(),
        ensures
            r.0@.len() == xs@.len(),
            r.1@.len() == xs@.len(),
            forall|i: int|
                0 <= i < xs@.len() ==> folds(
                    *f,
                    self@,
                    (xs@[i], y0s@[i]),
                    (#[trigger] r.0@[i], r.1@[i]),
                ),
    {
        let mut out_x: Vec<u32> = Vec::new();
        let mut out_y: Vec<u32> = Vec::new();
        let mut i: usize = 0;
        while i < xs.len()
            invariant
                forall|p: Peak, a: u32, b: u32| #[trigger] call_requires(*f, (p, a, b)),
                xs@.len() == y0s@.len(),
                i <= xs@.len(),
                out_x@.len() == i,
                out_y@.len() == i,
                forall|j: int|
                    0 <= j < i ==> folds(
                        *f,
                        self@,
                        (xs@[j], y0s@[j]),
                        (#[trigger] out_x@[j], out_y@[j]),
                    ),
            decreases xs@.len() - i,
        {
            let (rx, ry) = self.apply(f, xs[i], y0s[i]);
            out_x.push(rx);
            out_y.push(ry);
            i = i + 1;
        }
        (out_x, out_y)
    }
}

} // verus!
