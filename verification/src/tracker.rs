//! The orientation tracker: exponential smoothing of the normalized
//! acceleration stream and a threshold classification of the smoothed
//! vector.
//!
//! The smoothing factor alpha is a rational `alpha_num / alpha_den` fixed at
//! construction, with `0 < alpha_num < alpha_den`. Each update moves every
//! smoothed component toward the sample by the alpha fraction of the gap,
//! rounded toward zero, so the smoothed vector never overshoots the sample.
//! The tracker's whole state is the smoothed vector: it is a filter, not a
//! state machine with named modes.

use vstd::arithmetic::div_mod::lemma_basic_div;
use vstd::arithmetic::div_mod::lemma_div_is_ordered;
use vstd::arithmetic::div_mod::lemma_div_multiples_vanish;
use vstd::arithmetic::div_mod::lemma_div_pos_is_pos;
use vstd::arithmetic::div_mod::lemma_fundamental_div_mod;
use vstd::prelude::*;

use crate::vector::COMPONENT_BOUND;
use crate::vector::NormalizedVector;
use crate::vector::abs;
use crate::vector::bounded;

verus! {

/// The discrete orientation read off the smoothed vector: which axis
/// dominates and with which sign, or `Indeterminate` when the dominant
/// component stays below the gravity threshold.
#[derive(Clone, Copy, Debug, PartialEq, Eq, Structural)]
pub enum Orientation {
    /// Gravity along positive z: the board lies face up.
    FaceUp,
    /// Gravity along negative z: the board lies face down.
    FaceDown,
    /// Tilted so the positive x edge points down.
    EdgePosX,
    /// Tilted so the negative x edge points down.
    EdgeNegX,
    /// Tilted so the positive y edge points down.
    EdgePosY,
    /// Tilted so the negative y edge points down.
    EdgeNegY,
    /// No component reaches the threshold: near free fall or a detached
    /// sensor; the tracker refuses to guess.
    Indeterminate,
}

/// One smoothing move: the alpha fraction of the gap `delta`, rounded
/// toward zero.
pub open spec fn smooth_step(num: int, den: int, delta: int) -> int {
    if delta >= 0 {
        (num * delta) / den
    } else {
        -((num * (-delta)) / den)
    }
}

/// The smoothed component after `steps` updates from `start` under the
/// constant input `target`.
pub open spec fn smooth_iter(start: int, target: int, num: int, den: int, steps: nat) -> int
    decreases steps,
{
    if steps == 0 {
        start
    } else {
        let prev = smooth_iter(start, target, num, den, (steps - 1) as nat);
        prev + smooth_step(num, den, target - prev)
    }
}

/// The classification of a smoothed vector: the dominant axis is the first
/// of x, y, z whose magnitude is at least the other two; below the
/// threshold the orientation is indeterminate, otherwise the dominant
/// component's sign picks the variant, zero counting as positive.
pub open spec fn classify_spec(x: int, y: int, z: int, threshold: int) -> Orientation {
    let ax = abs(x);
    let ay = abs(y);
    let az = abs(z);
    if ax >= ay && ax >= az {
        if ax < threshold {
            Orientation::Indeterminate
        } else if x >= 0 {
            Orientation::EdgePosX
        } else {
            Orientation::EdgeNegX
        }
    } else if ay >= az {
        if ay < threshold {
            Orientation::Indeterminate
        } else if y >= 0 {
            Orientation::EdgePosY
        } else {
            Orientation::EdgeNegY
        }
    } else {
        if az < threshold {
            Orientation::Indeterminate
        } else if z >= 0 {
            Orientation::FaceUp
        } else {
            Orientation::FaceDown
        }
    }
}

/// Bounds of one smoothing move: it never overshoots the gap, it makes
/// progress while the gap is at least `den / num`, and it stops exactly
/// when the remaining gap is below that quantum.
pub proof fn lemma_step_bounds(num: int, den: int, delta: int)
    requires
        0 < num < den,
    ensures
        delta >= 0 ==> 0 <= smooth_step(num, den, delta) <= delta,
        delta < 0 ==> delta <= smooth_step(num, den, delta) <= 0,
        abs(delta) * num >= den ==> abs(smooth_step(num, den, delta)) >= 1,
        abs(delta) * num < den ==> smooth_step(num, den, delta) == 0,
{
    let mag = abs(delta);
    let q = (num * mag) / den;
    assert(0 <= num * mag && num * mag <= den * mag && mag * num == num * mag)
        by (nonlinear_arith)
        requires
            0 < num < den,
            0 <= mag,
    ;
    lemma_div_pos_is_pos(num * mag, den);
    lemma_div_is_ordered(num * mag, den * mag, den);
    lemma_div_multiples_vanish(mag, den);
    assert(q <= mag);
    if mag * num >= den {
        lemma_fundamental_div_mod(num * mag, den);
        if q == 0 {
            assert(num * mag == den * 0 + num * mag % den);
            assert(num * mag < den);
        }
        assert(q >= 1);
    }
    if mag * num < den {
        lemma_basic_div(num * mag, den);
    }
}

/// Law: smoothing a constant input converges. For any smoothing factor
/// `num / den` with `0 < num < den`, after at least `|target - start|`
/// updates under the constant input `target`, the smoothed component is
/// within `den / num` of the target — equivalently, the remaining gap times
/// `num` is below `den`.
pub proof fn lemma_constant_input_convergence(
    start: int,
    target: int,
    num: int,
    den: int,
    steps: nat,
)
    requires
        0 < num < den,
        steps >= abs(target - start),
    ensures
        abs(target - smooth_iter(start, target, num, den, steps)) * num < den,
{
    lemma_convergence_invariant(start, target, num, den, steps);
    let dist = abs(target - smooth_iter(start, target, num, den, steps));
    if !(dist * num < den) {
        assert(dist <= abs(target - start) - steps);
        assert(dist == 0);
        assert(dist * num == 0) by (nonlinear_arith)
            requires
                dist == 0,
        ;
    }
}

/// The invariant behind convergence: after `steps` updates the gap is
/// either already below the `den / num` quantum, or it has shrunk by at
/// least one unit per update.
proof fn lemma_convergence_invariant(start: int, target: int, num: int, den: int, steps: nat)
    requires
        0 < num < den,
    ensures
        abs(target - smooth_iter(start, target, num, den, steps)) * num < den || abs(
            target - smooth_iter(start, target, num, den, steps),
        ) <= abs(target - start) - steps,
    decreases steps,
{
    if steps > 0 {
        lemma_convergence_invariant(start, target, num, den, (steps - 1) as nat);
        let prev = smooth_iter(start, target, num, den, (steps - 1) as nat);
        let delta = target - prev;
        lemma_step_bounds(num, den, delta);
        let cur = smooth_iter(start, target, num, den, steps);
        assert(cur == prev + smooth_step(num, den, delta));
        if abs(delta) * num < den {
            assert(cur == prev);
        } else {
            assert(abs(target - cur) <= abs(delta) - 1);
        }
    }
}

/// The orientation tracker: the smoothed vector, the smoothing factor, and
/// the gravity threshold for classification. Fixed at construction; only
/// the smoothed vector changes over the tracker's lifetime.
pub struct Tracker {
    /// The retained smoothed estimate, in units of `1/32767` g.
    pub smoothed: NormalizedVector,
    /// Numerator of the smoothing factor alpha.
    pub alpha_num: u32,
    /// Denominator of the smoothing factor alpha.
    pub alpha_den: u32,
    /// Magnitude, in units of `1/32767` g, the dominant smoothed component
    /// must reach before the tracker commits to an orientation.
    pub threshold: i32,
}

impl Tracker {
    /// Well-formedness: alpha lies strictly between zero and one, the
    /// threshold is positive, and the smoothed vector stays within the
    /// representable component bound.
    pub open spec fn wf(self) -> bool {
        &&& 0 < self.alpha_num < self.alpha_den
        &&& 0 < self.threshold
        &&& bounded(self.smoothed)
    }

    /// A fresh tracker with the given smoothing factor and threshold,
    /// starting from the zero vector. Independent of every other tracker:
    /// its whole state is here.
    pub fn new(alpha_num: u32, alpha_den: u32, threshold: i32) -> (tracker: Tracker)
        requires
            0 < alpha_num < alpha_den,
            0 < threshold,
        ensures
            tracker.wf(),
            tracker.smoothed == (NormalizedVector { x: 0, y: 0, z: 0 }),
            tracker.alpha_num == alpha_num,
            tracker.alpha_den == alpha_den,
            tracker.threshold == threshold,
    {
        Tracker {
            smoothed: NormalizedVector { x: 0, y: 0, z: 0 },
            alpha_num,
            alpha_den,
            threshold,
        }
    }

    /// Feed one sample: move every smoothed component toward the sample by
    /// the alpha fraction of the gap, then classify the new smoothed
    /// vector. Never fails; an all-zero sample is accepted and classifies
    /// as indeterminate.
    pub fn update(&mut self, sample: &NormalizedVector) -> (orientation: Orientation)
        requires
            old(self).wf(),
            bounded(*sample),
        ensures
            final(self).wf(),
            final(self).alpha_num == old(self).alpha_num,
            final(self).alpha_den == old(self).alpha_den,
            final(self).threshold == old(self).threshold,
            final(self).smoothed.x == old(self).smoothed.x + smooth_step(
                old(self).alpha_num as int,
                old(self).alpha_den as int,
                sample.x - old(self).smoothed.x,
            ),
            final(self).smoothed.y == old(self).smoothed.y + smooth_step(
                old(self).alpha_num as int,
                old(self).alpha_den as int,
                sample.y - old(self).smoothed.y,
            ),
            final(self).smoothed.z == old(self).smoothed.z + smooth_step(
                old(self).alpha_num as int,
                old(self).alpha_den as int,
                sample.z - old(self).smoothed.z,
            ),
            orientation == classify_spec(
                final(self).smoothed.x as int,
                final(self).smoothed.y as int,
                final(self).smoothed.z as int,
                old(self).threshold as int,
            ),
    {
        let x = step_toward(self.smoothed.x, sample.x, self.alpha_num, self.alpha_den);
        let y = step_toward(self.smoothed.y, sample.y, self.alpha_num, self.alpha_den);
        let z = step_toward(self.smoothed.z, sample.z, self.alpha_num, self.alpha_den);
        self.smoothed = NormalizedVector { x, y, z };
        classify(x, y, z, self.threshold)
    }

    /// The classification of the current smoothed vector, without feeding
    /// a sample; what `update` last returned.
    pub fn orientation(&self) -> (orientation: Orientation)
        requires
            self.wf(),
        ensures
            orientation == classify_spec(
                self.smoothed.x as int,
                self.smoothed.y as int,
                self.smoothed.z as int,
                self.threshold as int,
            ),
    {
        classify(self.smoothed.x, self.smoothed.y, self.smoothed.z, self.threshold)
    }
}

/// One exec smoothing move for a single component.
fn step_toward(current: i32, target: i32, num: u32, den: u32) -> (next: i32)
    requires
        0 < num < den,
        abs(current as int) <= COMPONENT_BOUND,
        abs(target as int) <= COMPONENT_BOUND,
    ensures
        next == current + smooth_step(num as int, den as int, target - current),
        abs(next as int) <= COMPONENT_BOUND,
{
    proof {
        lemma_step_bounds(num as int, den as int, target - current);
    }
    let delta: i64 = target as i64 - current as i64;
    let mag: u64 = if delta >= 0 {
        delta as u64
    } else {
        (-delta) as u64
    };
    assert(num as u64 * mag <= 0xFFFF_FFFFu64 * 0x10_0000u64) by (nonlinear_arith)
        requires
            num <= 0xFFFF_FFFFu64,
            mag <= 0x10_0000u64,
    ;
    let q: u64 = (num as u64 * mag) / (den as u64);
    let next_wide: i64 = if delta >= 0 {
        current as i64 + q as i64
    } else {
        current as i64 - q as i64
    };
    next_wide as i32
}

/// Exec classification, mirroring `classify_spec`.
fn classify(x: i32, y: i32, z: i32, threshold: i32) -> (orientation: Orientation)
    requires
        abs(x as int) <= COMPONENT_BOUND,
        abs(y as int) <= COMPONENT_BOUND,
        abs(z as int) <= COMPONENT_BOUND,
    ensures
        orientation == classify_spec(x as int, y as int, z as int, threshold as int),
{
    let ax: i32 = if x >= 0 {
        x
    } else {
        -x
    };
    let ay: i32 = if y >= 0 {
        y
    } else {
        -y
    };
    let az: i32 = if z >= 0 {
        z
    } else {
        -z
    };
    if ax >= ay && ax >= az {
        if ax < threshold {
            Orientation::Indeterminate
        } else if x >= 0 {
            Orientation::EdgePosX
        } else {
            Orientation::EdgeNegX
        }
    } else if ay >= az {
        if ay < threshold {
            Orientation::Indeterminate
        } else if y >= 0 {
            Orientation::EdgePosY
        } else {
            Orientation::EdgeNegY
        }
    } else {
        if az < threshold {
            Orientation::Indeterminate
        } else if z >= 0 {
            Orientation::FaceUp
        } else {
            Orientation::FaceDown
        }
    }
}

} // verus!
