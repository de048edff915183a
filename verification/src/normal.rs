//! Positions along a parameter's range, on a fixed grid of steps.

use vstd::prelude::*;

verus! {

/// The number of steps in the whole range: `FULL_SCALE` steps stand for 1.
pub const FULL_SCALE: u32 = 1_000_000_000;

/// The step of the range that is nearest to `x`: `x` itself where it lies
/// in the range, else the bound on its side.
pub open spec fn clamp_steps(x: int) -> int {
    if x < 0 {
        0
    } else if x > FULL_SCALE {
        FULL_SCALE as int
    } else {
        x
    }
}

/// How far along its range a parameter is, in steps of `1 / FULL_SCALE`.
#[derive(Clone, Copy, Debug, PartialEq, Eq, Structural)]
pub struct NormalizedValue {
    steps: u32,
}

impl View for NormalizedValue {
    type V = int;

    closed spec fn view(&self) -> int {
        self.steps as int
    }
}

impl NormalizedValue {
    /// The value lies in the range. Every value does.
    #[verifier::type_invariant]
    pub open spec fn wf(&self) -> bool {
        0 <= self@ <= FULL_SCALE
    }

    /// The value at `x` steps, or at the nearer bound where `x` is out of
    /// range.
    pub fn new(x: i64) -> (r: Self)
        ensures
            r.wf(),
            r@ == clamp_steps(x as int),
    {
        if x < 0 {
            NormalizedValue { steps: 0 }
        } else if x > FULL_SCALE as i64 {
            NormalizedValue { steps: FULL_SCALE }
        } else {
            NormalizedValue { steps: x as u32 }
        }
    }

    /// The lower bound of the range.
    pub fn min() -> (r: Self)
        ensures
            r.wf(),
            r@ == 0,
    {
        NormalizedValue { steps: 0 }
    }

    /// The upper bound of the range.
    pub fn max() -> (r: Self)
        ensures
            r.wf(),
            r@ == FULL_SCALE,
    {
        NormalizedValue { steps: FULL_SCALE }
    }

    /// The middle of the range.
    pub fn center() -> (r: Self)
        ensures
            r.wf(),
            r@ == FULL_SCALE / 2,
    {
        NormalizedValue { steps: FULL_SCALE / 2 }
    }

    /// The number of steps from the lower bound.
    pub fn steps(&self) -> (r: u32)
        ensures
            r == self@,
            self.wf(),
    {
        proof {
            use_type_invariant(self);
        }
        self.steps
    }
}

/// The value nearest to `x` steps: `x` where `0 <= x <= FULL_SCALE`, else
/// the nearer bound.
pub fn clamp(x: i64) -> (r: NormalizedValue)
    ensures
        r.wf(),
        r@ == clamp_steps(x as int),
        x < 0 ==> r@ == 0,
        x > FULL_SCALE ==> r@ == FULL_SCALE,
        0 <= x <= FULL_SCALE ==> r@ == x,
{
    NormalizedValue::new(x)
}

/// Two values at the same step are the same value.
pub proof fn lemma_same_steps(a: NormalizedValue, b: NormalizedValue)
    requires
        a@ == b@,
    ensures
        a == b,
{
}

/// Clamping lands in the range, keeps what is in range, and sends
/// everything below the range to 0 and everything above it to `FULL_SCALE`.
pub proof fn lemma_clamp_steps(x: int)
    ensures
        0 <= clamp_steps(x) <= FULL_SCALE,
        0 <= x <= FULL_SCALE ==> clamp_steps(x) == x,
        x < 0 ==> clamp_steps(x) == 0,
        x > FULL_SCALE ==> clamp_steps(x) == FULL_SCALE,
        clamp_steps(clamp_steps(x)) == clamp_steps(x),
{
}

/// Clamping keeps the order of what it clamps.
pub proof fn lemma_clamp_steps_monotone(x: int, y: int)
    requires
        x <= y,
    ensures
        clamp_steps(x) <= clamp_steps(y),
{
}

/// A parameter's current value together with the value it goes back to
/// when it is reset.
#[derive(Clone, Copy, Debug)]
pub struct NormalParam {
    pub value: NormalizedValue,
    pub default: NormalizedValue,
}

impl NormalParam {
    /// Both values lie in the range.
    pub open spec fn wf(&self) -> bool {
        self.value.wf() && self.default.wf()
    }
}

} // verus!
