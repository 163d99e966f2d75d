use vstd::prelude::*;

use crate::error::Error;

verus! {

/// Where the normalized coordinate `x` stands relative to the integration
/// shift point `zeta`, as the caller's tolerance tests classified it.
/// `Unordered` covers coordinates that compare with `zeta` in none of the
/// three ways (an ill-defined value); the density is taken as zero there.
#[derive(Clone, Copy, Debug, PartialEq, Eq, Structural)]
pub enum ZetaRelation {
    /// within the `zeta` tolerance of `zeta`.
    Near,
    /// strictly greater than `zeta`.
    Above,
    /// strictly less than `zeta`.
    Below,
    /// none of the above.
    Unordered,
}

/// The five analytic/numeric regimes of the density evaluator, plus the
/// zero fallback for an unordered coordinate.
#[derive(Clone, Copy, Debug, PartialEq, Eq, Structural)]
pub enum DensityCase {
    /// `alpha` near 2: closed-form Gaussian density.
    Gaussian,
    /// `alpha` near 1, `beta` away from 0: adaptive integration of the
    /// skewed integrand over `(-pi/2, pi/2)`.
    OneSkewedIntegral,
    /// `alpha` near 1, `beta` near 0: closed-form Cauchy density.
    Cauchy,
    /// `alpha` away from 1 and 2, `x` near `zeta`: closed form through
    /// the Gamma function.
    AtZeta,
    /// `alpha` away from 1 and 2, `x` above `zeta`: adaptive integration
    /// over `(-eps, pi/2)`.
    AboveZetaIntegral,
    /// `alpha` away from 1 and 2, `x` below `zeta`: evaluate at the
    /// reflected arguments `(-x, -beta)` instead.
    Reflect,
    /// `alpha` away from 1 and 2, `x` unordered with `zeta`: the density
    /// is taken as zero.
    Vanishing,
}

/// The regime of the density evaluator, given the tolerance
/// classifications of `alpha`, `beta`, and of the normalized coordinate
/// against `zeta`. The branches are tried in this order: `alpha` near 2
/// first, then `alpha` near 1 split on `beta`, then the position against
/// `zeta`.
pub open spec fn density_case_spec(
    alpha_near_two: bool,
    alpha_near_one: bool,
    beta_near_zero: bool,
    x_vs_zeta: ZetaRelation,
) -> DensityCase {
    if alpha_near_two {
        DensityCase::Gaussian
    } else if alpha_near_one && !beta_near_zero {
        DensityCase::OneSkewedIntegral
    } else if alpha_near_one {
        DensityCase::Cauchy
    } else {
        match x_vs_zeta {
            ZetaRelation::Near => DensityCase::AtZeta,
            ZetaRelation::Above => DensityCase::AboveZetaIntegral,
            ZetaRelation::Below => DensityCase::Reflect,
            ZetaRelation::Unordered => DensityCase::Vanishing,
        }
    }
}

/// Select the density regime; see [`density_case_spec`].
pub fn density_case(
    alpha_near_two: bool,
    alpha_near_one: bool,
    beta_near_zero: bool,
    x_vs_zeta: ZetaRelation,
) -> (r: DensityCase)
    ensures
        r == density_case_spec(alpha_near_two, alpha_near_one, beta_near_zero, x_vs_zeta),
{
    if alpha_near_two {
        DensityCase::Gaussian
    } else if alpha_near_one && !beta_near_zero {
        DensityCase::OneSkewedIntegral
    } else if alpha_near_one {
        DensityCase::Cauchy
    } else {
        match x_vs_zeta {
            ZetaRelation::Near => DensityCase::AtZeta,
            ZetaRelation::Above => DensityCase::AboveZetaIntegral,
            ZetaRelation::Below => DensityCase::Reflect,
            ZetaRelation::Unordered => DensityCase::Vanishing,
        }
    }
}

/// How the coordinate's position against `zeta` transforms under the
/// reflection `x -> -x`, `beta -> -beta`: negating both `x` and `beta`
/// negates `zeta = -beta * tan(pi * alpha / 2)` as well, so a coordinate
/// strictly below `zeta` lands strictly above the reflected `zeta`, and
/// conversely; distances are preserved, so nearness is, too.
pub open spec fn reflected_relation(rel: ZetaRelation) -> ZetaRelation {
    match rel {
        ZetaRelation::Near => ZetaRelation::Near,
        ZetaRelation::Above => ZetaRelation::Below,
        ZetaRelation::Below => ZetaRelation::Above,
        ZetaRelation::Unordered => ZetaRelation::Unordered,
    }
}

/// The symmetry-reduction branch of the density evaluator terminates
/// after exactly one reflection: whenever the selected regime asks for
/// the reflected arguments `(-x, -beta)`, the regime selected for those
/// arguments is the `x` above `zeta` integral, never a second reflection.
/// (`alpha` is unchanged by the reflection, and `beta`'s distance from 0
/// is, too, so the two tolerance classifications carry over.)
pub proof fn lemma_reflection_terminates(
    alpha_near_two: bool,
    alpha_near_one: bool,
    beta_near_zero: bool,
    x_vs_zeta: ZetaRelation,
)
    requires
        density_case_spec(alpha_near_two, alpha_near_one, beta_near_zero, x_vs_zeta)
            == DensityCase::Reflect,
    ensures
        density_case_spec(
            alpha_near_two,
            alpha_near_one,
            beta_near_zero,
            reflected_relation(x_vs_zeta),
        ) == DensityCase::AboveZetaIntegral,
{
}

/// The branches of the Chambers-Mallows-Stuck sampler.
#[derive(Clone, Copy, Debug, PartialEq, Eq, Structural)]
pub enum SampleCase {
    /// `beta` near 0, `alpha` near 1: standard Cauchy shortcut.
    SymmetricCauchy,
    /// `beta` near 0, `alpha` near 2: Box-Muller-equivalent Gaussian
    /// shortcut.
    SymmetricGaussian,
    /// `beta` near 0, `alpha` away from 1 and 2: the symmetric transform.
    SymmetricGeneral,
    /// `beta` away from 0, `alpha` near 1: the skewed `alpha = 1`
    /// transform.
    SkewedOne,
    /// `beta` away from 0, `alpha` away from 1: the general skewed
    /// transform.
    SkewedGeneral,
}

/// Whether a sampler branch consumes a standard-exponential deviate in
/// addition to the uniform one. Only the symmetric Cauchy shortcut does
/// not: it returns after the uniform draw, a deliberate choice that fixes
/// the draw order observably for deterministic random streams.
pub open spec fn consumes_exponential(c: SampleCase) -> bool {
    c != SampleCase::SymmetricCauchy
}

/// The branch the sampler takes, given the tolerance classifications of
/// `beta` against 0 and of `alpha` against 1 and 2. The symmetric path
/// decides `alpha` near 1 before drawing the exponential deviate; every
/// other branch draws it.
pub fn sample_case(beta_near_zero: bool, alpha_near_one: bool, alpha_near_two: bool) -> (r:
    SampleCase)
    ensures
        beta_near_zero && alpha_near_one ==> r == SampleCase::SymmetricCauchy,
        beta_near_zero && !alpha_near_one && alpha_near_two ==> r == SampleCase::SymmetricGaussian,
        beta_near_zero && !alpha_near_one && !alpha_near_two ==> r == SampleCase::SymmetricGeneral,
        !beta_near_zero && alpha_near_one ==> r == SampleCase::SkewedOne,
        !beta_near_zero && !alpha_near_one ==> r == SampleCase::SkewedGeneral,
        consumes_exponential(r) <==> !(beta_near_zero && alpha_near_one),
{
    if beta_near_zero {
        if alpha_near_one {
            SampleCase::SymmetricCauchy
        } else if alpha_near_two {
            SampleCase::SymmetricGaussian
        } else {
            SampleCase::SymmetricGeneral
        }
    } else {
        if alpha_near_one {
            SampleCase::SkewedOne
        } else {
            SampleCase::SkewedGeneral
        }
    }
}

/// The two closed forms of the continuity correction that links the
/// standard location `mu` and Nolan's `mu_0`:
/// `mu_0 = mu + beta * sigma * correction`, and inversely
/// `mu = mu_0 - beta * sigma * correction`.
#[derive(Clone, Copy, Debug, PartialEq, Eq, Structural)]
pub enum LocationCorrection {
    /// `alpha` near 1: `correction = 2 * ln(sigma) / pi` (the removable
    /// discontinuity of the tangent form).
    Logarithmic,
    /// `alpha` away from 1: `correction = tan(pi * alpha / 2)`.
    Tangent,
}

/// The correction form both constructors use, decided by the same
/// tolerance classification of `alpha` against 1: deriving `mu_0` from
/// `mu` and deriving `mu` from `mu_0` switch branches together, so the
/// two parameterizations stay inverse to one another across the
/// `alpha` near 1 boundary.
pub fn location_correction(alpha_near_one: bool) -> (r: LocationCorrection)
    ensures
        r == LocationCorrection::Logarithmic <==> alpha_near_one,
        r == LocationCorrection::Tangent <==> !alpha_near_one,
{
    if alpha_near_one {
        LocationCorrection::Logarithmic
    } else {
        LocationCorrection::Tangent
    }
}

/// Validate the shape parameters at construction: `alpha` must lie in
/// (0, 2] and `beta` in [-1, 1]. The caller performs the two range tests
/// on its scalars and passes their outcomes; the offending value is
/// carried in the error. `alpha` is checked first, as both constructors
/// check it first.
pub fn validate_shape<T: Copy, E: Copy>(
    alpha: T,
    beta: T,
    alpha_in_range: bool,
    beta_in_range: bool,
) -> (r: Option<Error<T, E>>)
    ensures
        r is None <==> (alpha_in_range && beta_in_range),
        !alpha_in_range ==> (r matches Some(Error::AlphaError { alpha: va }) && va == alpha),
        alpha_in_range && !beta_in_range ==> (r matches Some(Error::BetaError { beta: vb }) && vb
            == beta),
{
    if !alpha_in_range {
        Some(Error::AlphaError { alpha })
    } else if !beta_in_range {
        Some(Error::BetaError { beta })
    } else {
        None
    }
}

} // verus!
