use alpha_stable::bisect::Sign;
use alpha_stable::error::Error;
use alpha_stable::integrator::Integrator;
use alpha_stable::numerical_result::NumericalResult;

use gkquad::single::Integrator as GKQIntegrator;
use gkquad::Tolerance;

fn sign_of(v: f64) -> Sign {
    if v == 0.0 {
        Sign::Zero
    } else if v > 0.0 {
        Sign::Positive
    } else {
        Sign::Negative
    }
}

fn cmp_f64(p: f64, q: f64) -> Sign {
    if p == q {
        Sign::Zero
    } else if p > q {
        Sign::Positive
    } else {
        Sign::Negative
    }
}

fn mid_f64(p: f64, q: f64) -> f64 {
    0.5 * (p + q)
}

fn half_f64(p: f64, q: f64) -> f64 {
    0.5 * (q - p)
}

fn lt_f64(d: f64, eps: f64) -> bool {
    d < eps
}

fn sum_f64(p: f64, q: f64) -> f64 {
    p + q
}

// The real external quadrature service: gkquad on a Gaussian bump.
fn gauss_quad(lo: f64, hi: f64, eps: f64) -> NumericalResult<f64, gkquad::RuntimeError> {
    let g = |x: f64| (-x * x).exp();
    let mut integrator = GKQIntegrator::new(g).tolerance(Tolerance::Relative(eps));
    let result = integrator.run(lo..hi);
    match result.estimate() {
        Ok(v) => NumericalResult::new(v, 0.0, None),
        Err(e) => NumericalResult::new(0.0, 0.0, Some(e)),
    }
}

#[test]
fn test_integrate_gaussian_bump() {
    // The integrand exp(-x^2) peaks where its derivative -2x exp(-x^2)
    // changes sign, at 0; the integral over [-1, 1] is sqrt(pi)*erf(1).
    let integrator: Integrator<f64> = Integrator::new(1e-10, 1e-10, 50, false);
    let result: Result<f64, Error<f64, gkquad::RuntimeError>> = integrator.integrate(
        &|theta: f64| sign_of(-theta),
        &cmp_f64,
        &mid_f64,
        &half_f64,
        &lt_f64,
        &gauss_quad,
        &sum_f64,
        -1.0,
        1.0,
        0.0,
    );
    let value = result.unwrap();
    assert!((value - 1.4936482656248540).abs() < 1e-8);
}

#[test]
fn test_integrate_degenerate_interval_fails() {
    let integrator: Integrator<f64> = Integrator::new(1e-10, 1e-10, 50, false);
    let result: Result<f64, Error<f64, gkquad::RuntimeError>> = integrator.integrate(
        &|theta: f64| sign_of(-theta),
        &cmp_f64,
        &mid_f64,
        &half_f64,
        &lt_f64,
        &gauss_quad,
        &sum_f64,
        2.0,
        2.0,
        0.0,
    );
    assert!(matches!(
        result,
        Err(Error::BisectionRangeError { a, b }) if a == 2.0 && b == 2.0
    ));
}

#[test]
fn test_integrate_non_bracketing_derivative_fails() {
    // A derivative that never changes sign over the interval: the peak
    // search cannot bracket, and the strict policy surfaces the failure.
    let integrator: Integrator<f64> = Integrator::new(1e-10, 1e-10, 50, false);
    let result: Result<f64, Error<f64, u8>> = integrator.integrate(
        &|_theta: f64| Sign::Positive,
        &cmp_f64,
        &mid_f64,
        &half_f64,
        &lt_f64,
        &|_lo: f64, _hi: f64, _eps: f64| NumericalResult::new(1.0, 0.0, None),
        &sum_f64,
        -1.0,
        1.0,
        0.0,
    );
    assert!(matches!(result, Err(Error::BisectionRangeError { .. })));
}

#[test]
fn test_integrate_iteration_limit_fails() {
    // One iteration at a tolerance far below the bracket width cannot
    // converge on the peak at 0.3.
    let integrator: Integrator<f64> = Integrator::new(1e-10, 1e-15, 1, false);
    let result: Result<f64, Error<f64, u8>> = integrator.integrate(
        &|theta: f64| sign_of(0.3 - theta),
        &cmp_f64,
        &mid_f64,
        &half_f64,
        &lt_f64,
        &|_lo: f64, _hi: f64, _eps: f64| NumericalResult::new(1.0, 0.0, None),
        &sum_f64,
        -1.0,
        1.0,
        0.0,
    );
    assert!(matches!(
        result,
        Err(Error::BisectionIterationsExceededError { n_max: 1 })
    ));
}

#[test]
fn test_integrate_quadrature_failure_left_has_priority() {
    // A simulated quadrature service that fails on the left sub-interval
    // with one failure and on the right with another: the left failure is
    // the one wrapped and surfaced.
    let integrator: Integrator<f64> = Integrator::new(1e-10, 1e-10, 50, false);
    let quad = |lo: f64, _hi: f64, _eps: f64| -> NumericalResult<f64, u8> {
        if lo == -1.0 {
            NumericalResult::new(0.0, 0.0, Some(7u8))
        } else {
            NumericalResult::new(0.0, 0.0, Some(8u8))
        }
    };
    let result: Result<f64, Error<f64, u8>> = integrator.integrate(
        &|theta: f64| sign_of(-theta),
        &cmp_f64,
        &mid_f64,
        &half_f64,
        &lt_f64,
        &quad,
        &sum_f64,
        -1.0,
        1.0,
        0.0,
    );
    assert!(matches!(result, Err(Error::GkQuad { source: 7 })));
}

#[test]
fn test_integrate_quadrature_failure_right_only() {
    let integrator: Integrator<f64> = Integrator::new(1e-10, 1e-10, 50, false);
    let quad = |lo: f64, _hi: f64, _eps: f64| -> NumericalResult<f64, u8> {
        if lo == -1.0 {
            NumericalResult::new(2.0, 0.0, None)
        } else {
            NumericalResult::new(0.0, 0.0, Some(8u8))
        }
    };
    let result: Result<f64, Error<f64, u8>> = integrator.integrate(
        &|theta: f64| sign_of(-theta),
        &cmp_f64,
        &mid_f64,
        &half_f64,
        &lt_f64,
        &quad,
        &sum_f64,
        -1.0,
        1.0,
        0.0,
    );
    assert!(matches!(result, Err(Error::GkQuad { source: 8 })));
}

#[test]
fn test_integrate_best_effort_swallows_failures() {
    // Best-effort mode: both the peak search and the quadrature fail, and
    // the unchecked estimates are summed regardless.
    let integrator: Integrator<f64> = Integrator::new(1e-10, 1e-10, 50, true);
    let quad =
        |_lo: f64, _hi: f64, _eps: f64| -> NumericalResult<f64, u8> {
            NumericalResult::new(2.5, 0.0, Some(8u8))
        };
    let result: Result<f64, Error<f64, u8>> = integrator.integrate(
        &|_theta: f64| Sign::Positive,
        &cmp_f64,
        &mid_f64,
        &half_f64,
        &lt_f64,
        &quad,
        &sum_f64,
        -1.0,
        1.0,
        0.0,
    );
    assert_eq!(result.unwrap(), 5.0);
}
