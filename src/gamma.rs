//! The Gamma distribution with shape α and rate β.
//!
//! Parameters and query points are binary64 values held as their encodings
//! (see `binary64`). The distribution validates its parameters once, at
//! construction, and for each query point decides which closed form or
//! special function gives the density, the log-density and the distribution
//! function there.

use vstd::prelude::*;
use crate::binary64::{
    infinite, is_infinite, is_nan, le, less, less_eq, lt, nan, ulps_eq, within_ulps,
    DEFAULT_MAX_ULPS, ONE, POS_INFINITY, POS_ZERO, SIGN_MASK,
};

verus! {

/// `160.0`: above this shape the density is taken through its logarithm.
pub const LOG_PATH_SHAPE: u64 = 0x4064_0000_0000_0000;

#[derive(Debug, Clone, Copy, PartialEq, Eq, Structural)]
pub enum StatsError {
    /// A parameter is NaN, zero or negative.
    BadParams,
}

/// How the distribution function is obtained at a point.
#[derive(Debug, Clone, Copy, PartialEq, Eq, Structural)]
pub enum CdfRule {
    /// The value is `0`.
    Zero,
    /// The value is `1`.
    One,
    /// The value is the regularized lower incomplete gamma `P(α, x·β)`.
    RegularizedGamma,
}

/// How the density is obtained at a point.
#[derive(Debug, Clone, Copy, PartialEq, Eq, Structural)]
pub enum PdfRule {
    /// The value is `0`.
    Zero,
    /// The exponential case `β·e^(−β·x)`.
    Exponential,
    /// `e` raised to the log-density at the same point.
    FromLog,
    /// The direct formula `β^α · x^(α−1) · e^(−β·x) / Γ(α)`.
    Direct,
}

/// How the log-density is obtained at a point.
#[derive(Debug, Clone, Copy, PartialEq, Eq, Structural)]
pub enum LnPdfRule {
    /// The value is `−∞`.
    NegInfinity,
    /// The exponential case `ln β − β·x`.
    Exponential,
    /// The direct formula `α·ln β + (α−1)·ln x − β·x − ln Γ(α)`.
    Direct,
}

/// A Gamma distribution. Both parameters are positive and not NaN; they may
/// be `+∞`.
#[derive(Debug, Clone, Copy, PartialEq, Eq, Structural)]
pub struct Gamma {
    shape: u64,
    rate: u64,
}

/// The parameters that `Gamma::new` accepts: neither is NaN, and neither is
/// at most zero.
pub open spec fn valid_params(shape: u64, rate: u64) -> bool {
    &&& !nan(shape)
    &&& !nan(rate)
    &&& !less_eq(shape, POS_ZERO)
    &&& !less_eq(rate, POS_ZERO)
}

/// The distribution function's rule, in order of priority.
pub open spec fn cdf_rule_of(shape: u64, rate: u64, x: u64) -> CdfRule {
    if less_eq(x, POS_ZERO) {
        CdfRule::Zero
    } else if within_ulps(x, shape, DEFAULT_MAX_ULPS as nat) && infinite(rate) {
        CdfRule::One
    } else if infinite(rate) {
        CdfRule::Zero
    } else if infinite(x) {
        CdfRule::One
    } else {
        CdfRule::RegularizedGamma
    }
}

/// The density's rule, in order of priority.
pub open spec fn pdf_rule_of(shape: u64, x: u64) -> PdfRule {
    if less(x, POS_ZERO) {
        PdfRule::Zero
    } else if within_ulps(shape, ONE, DEFAULT_MAX_ULPS as nat) {
        PdfRule::Exponential
    } else if less(LOG_PATH_SHAPE, shape) {
        PdfRule::FromLog
    } else if infinite(x) {
        PdfRule::Zero
    } else {
        PdfRule::Direct
    }
}

/// The log-density's rule, in order of priority.
pub open spec fn ln_pdf_rule_of(shape: u64, x: u64) -> LnPdfRule {
    if less(x, POS_ZERO) {
        LnPdfRule::NegInfinity
    } else if within_ulps(shape, ONE, DEFAULT_MAX_ULPS as nat) {
        LnPdfRule::Exponential
    } else if infinite(x) {
        LnPdfRule::NegInfinity
    } else {
        LnPdfRule::Direct
    }
}

impl Gamma {
    /// The encoding of the shape α.
    pub closed spec fn spec_shape(self) -> u64 {
        self.shape
    }

    /// The encoding of the rate β.
    pub closed spec fn spec_rate(self) -> u64 {
        self.rate
    }

    pub open spec fn wf(self) -> bool {
        valid_params(self.spec_shape(), self.spec_rate())
    }

    /// Builds the distribution from the encodings of its shape and rate.
    pub fn new(shape: u64, rate: u64) -> (r: Result<Gamma, StatsError>)
        ensures
            r is Ok <==> valid_params(shape, rate),
            r matches Ok(g) ==> g.spec_shape() == shape && g.spec_rate() == rate && g.wf(),
            r matches Err(e) ==> e == StatsError::BadParams,
    {
        if is_nan(shape) || is_nan(rate) {
            Err(StatsError::BadParams)
        } else if le(shape, POS_ZERO) || le(rate, POS_ZERO) {
            Err(StatsError::BadParams)
        } else {
            Ok(Gamma { shape, rate })
        }
    }

    pub fn shape(&self) -> (r: u64)
        ensures
            r == self.spec_shape(),
    {
        self.shape
    }

    pub fn rate(&self) -> (r: u64)
        ensures
            r == self.spec_rate(),
    {
        self.rate
    }

    /// The least point of the support: `0.0`.
    pub fn min(&self) -> (r: u64)
        ensures
            r == POS_ZERO,
    {
        POS_ZERO
    }

    /// The greatest point of the support: `+∞`.
    pub fn max(&self) -> (r: u64)
        ensures
            r == POS_INFINITY,
    {
        POS_INFINITY
    }

    pub open spec fn spec_cdf_rule(self, x: u64) -> CdfRule {
        cdf_rule_of(self.spec_shape(), self.spec_rate(), x)
    }

    pub open spec fn spec_pdf_rule(self, x: u64) -> PdfRule {
        pdf_rule_of(self.spec_shape(), x)
    }

    pub open spec fn spec_ln_pdf_rule(self, x: u64) -> LnPdfRule {
        ln_pdf_rule_of(self.spec_shape(), x)
    }

    /// How the distribution function is obtained at `x`.
    pub fn cdf_rule(&self, x: u64) -> (r: CdfRule)
        ensures
            r == self.spec_cdf_rule(x),
    {
        if le(x, POS_ZERO) {
            CdfRule::Zero
        } else if ulps_eq(x, self.shape, DEFAULT_MAX_ULPS) && is_infinite(self.rate) {
            CdfRule::One
        } else if is_infinite(self.rate) {
            CdfRule::Zero
        } else if is_infinite(x) {
            CdfRule::One
        } else {
            CdfRule::RegularizedGamma
        }
    }

    /// How the density is obtained at `x`.
    pub fn pdf_rule(&self, x: u64) -> (r: PdfRule)
        ensures
            r == self.spec_pdf_rule(x),
    {
        if lt(x, POS_ZERO) {
            PdfRule::Zero
        } else if ulps_eq(self.shape, ONE, DEFAULT_MAX_ULPS) {
            PdfRule::Exponential
        } else if lt(LOG_PATH_SHAPE, self.shape) {
            PdfRule::FromLog
        } else if is_infinite(x) {
            PdfRule::Zero
        } else {
            PdfRule::Direct
        }
    }

    /// How the log-density is obtained at `x`.
    pub fn ln_pdf_rule(&self, x: u64) -> (r: LnPdfRule)
        ensures
            r == self.spec_ln_pdf_rule(x),
    {
        if lt(x, POS_ZERO) {
            LnPdfRule::NegInfinity
        } else if ulps_eq(self.shape, ONE, DEFAULT_MAX_ULPS) {
            LnPdfRule::Exponential
        } else if is_infinite(x) {
            LnPdfRule::NegInfinity
        } else {
            LnPdfRule::Direct
        }
    }
}

/// Orders the distribution function's rules as the values they give are
/// ordered: `0`, then `P(α, x·β)`, then `1`.
pub open spec fn cdf_rule_rank(r: CdfRule) -> int {
    match r {
        CdfRule::Zero => 0,
        CdfRule::RegularizedGamma => 1,
        CdfRule::One => 2,
    }
}

/// The distribution function is `0` at `+0` and at `−0`.
pub proof fn lemma_cdf_zero_at_origin(g: Gamma)
    ensures
        g.spec_cdf_rule(POS_ZERO) == CdfRule::Zero,
        g.spec_cdf_rule(SIGN_MASK) == CdfRule::Zero,
{
}

/// With a finite rate the distribution function is `1` at `+∞`.
pub proof fn lemma_cdf_one_at_infinity(g: Gamma)
    requires
        g.wf(),
        !infinite(g.spec_rate()),
    ensures
        g.spec_cdf_rule(POS_INFINITY) == CdfRule::One,
{
}

/// With a finite rate, moving the point up never moves the distribution
/// function to an earlier rule: the points at or below zero give `0`, the
/// finite positive points give `P(α, x·β)`, and `+∞` gives `1`.
pub proof fn lemma_cdf_rule_monotone(g: Gamma, x: u64, y: u64)
    requires
        g.wf(),
        !infinite(g.spec_rate()),
        less_eq(x, y),
    ensures
        cdf_rule_rank(g.spec_cdf_rule(x)) <= cdf_rule_rank(g.spec_cdf_rule(y)),
{
}

/// Below zero the density is `0` and the log-density is `−∞`.
pub proof fn lemma_density_vanishes_below_support(g: Gamma, x: u64)
    requires
        less(x, POS_ZERO),
    ensures
        g.spec_pdf_rule(x) == PdfRule::Zero,
        g.spec_ln_pdf_rule(x) == LnPdfRule::NegInfinity,
{
}

/// With an infinite rate the distribution is a point mass at the shape: the
/// distribution function is `1` at the shape itself.
pub proof fn lemma_point_mass_at_shape(g: Gamma)
    requires
        g.wf(),
        infinite(g.spec_rate()),
    ensures
        g.spec_cdf_rule(g.spec_shape()) == CdfRule::One,
{
}

/// With an infinite rate the distribution function is `0` at every point
/// that is not within the near-equality tolerance of the shape.
pub proof fn lemma_point_mass_elsewhere(g: Gamma, x: u64)
    requires
        g.wf(),
        infinite(g.spec_rate()),
        !within_ulps(x, g.spec_shape(), DEFAULT_MAX_ULPS as nat),
    ensures
        g.spec_cdf_rule(x) == CdfRule::Zero,
{
}

/// With an infinite rate the density at the shape comes from one of its
/// formulas, never from the constant `0`; on an infinite rate those formulas
/// meet an indeterminate form.
pub proof fn lemma_point_mass_density_at_shape(g: Gamma)
    requires
        g.wf(),
        infinite(g.spec_rate()),
    ensures
        g.spec_pdf_rule(g.spec_shape()) != PdfRule::Zero,
{
}

} // verus!
