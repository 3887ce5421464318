//! The decisions of the Marsaglia–Tsang sampler for Gamma(α, β).
//!
//! The sampler alternates draws and arithmetic with tests on their results.
//! The caller draws and computes; after each step it reports what it learnt
//! as a `SampleEvent`, and `next_action` says what to do next. With
//! `a = α` (or `a = α + 1` after a boost), `d = a − 1/3` and `c = 1/√(9d)`:
//! a standard normal `x` is drawn until `v = 1 + c·x` is positive; then `v` is
//! cubed, `x` squared and a uniform `u` drawn; the draw is accepted when
//! `u < 1 − 0.0331·x²` or, failing that, when `ln u < x/2 + d·(1 − v − ln v)`,
//! and otherwise a new normal is drawn. An accepted draw yields
//! `boost · d · v / β`, where `boost` is `u₀^(1/α)` for a boosted shape and `1`
//! otherwise.

use vstd::prelude::*;
use crate::binary64::{less, lt, ONE, POS_ZERO};

verus! {

/// What the caller has just done, with the values that the next decision reads.
#[derive(Debug, Clone, Copy, PartialEq, Eq, Structural)]
pub enum SampleEvent {
    /// A draw for shape `shape` begins.
    Started { shape: u64 },
    /// The uniform `u₀` of the boost `u₀^(1/α)` was drawn, and `a` set to `α + 1`.
    BoostDrawn,
    /// A standard normal `x` was drawn and `v = 1 + c·x` computed.
    NormalDrawn { v: u64 },
    /// `v` was cubed, `x` squared, a uniform `u` drawn and the squeeze
    /// `1 − 0.0331·x²` computed.
    UniformDrawn { u: u64, squeeze: u64 },
    /// `ln u` and the bound `x/2 + d·(1 − v − ln v)` were computed.
    LogsComputed { ln_u: u64, bound: u64 },
}

/// What the caller does next.
#[derive(Debug, Clone, Copy, PartialEq, Eq, Structural)]
pub enum SampleAction {
    /// Draw the uniform of the boost; the shape is below one.
    DrawBoost,
    /// Draw a standard normal.
    DrawNormal,
    /// Cube `v`, square `x`, draw a uniform and compute the squeeze.
    DrawUniform,
    /// Compute `ln u` and the acceptance bound.
    ComputeLogs,
    /// Accept: the variate is `boost · d · v / β`.
    Accept,
}

pub open spec fn next_action_of(event: SampleEvent) -> SampleAction {
    match event {
        SampleEvent::Started { shape } => if less(shape, ONE) {
            SampleAction::DrawBoost
        } else {
            SampleAction::DrawNormal
        },
        SampleEvent::BoostDrawn => SampleAction::DrawNormal,
        SampleEvent::NormalDrawn { v } => if less(POS_ZERO, v) {
            SampleAction::DrawUniform
        } else {
            SampleAction::DrawNormal
        },
        SampleEvent::UniformDrawn { u, squeeze } => if less(u, squeeze) {
            SampleAction::Accept
        } else {
            SampleAction::ComputeLogs
        },
        SampleEvent::LogsComputed { ln_u, bound } => if less(ln_u, bound) {
            SampleAction::Accept
        } else {
            SampleAction::DrawNormal
        },
    }
}

/// The sampler's next step after `event`.
pub fn next_action(event: SampleEvent) -> (r: SampleAction)
    ensures
        r == next_action_of(event),
{
    match event {
        SampleEvent::Started { shape } => if lt(shape, ONE) {
            SampleAction::DrawBoost
        } else {
            SampleAction::DrawNormal
        },
        SampleEvent::BoostDrawn => SampleAction::DrawNormal,
        SampleEvent::NormalDrawn { v } => if lt(POS_ZERO, v) {
            SampleAction::DrawUniform
        } else {
            SampleAction::DrawNormal
        },
        SampleEvent::UniformDrawn { u, squeeze } => if lt(u, squeeze) {
            SampleAction::Accept
        } else {
            SampleAction::ComputeLogs
        },
        SampleEvent::LogsComputed { ln_u, bound } => if lt(ln_u, bound) {
            SampleAction::Accept
        } else {
            SampleAction::DrawNormal
        },
    }
}

} // verus!
