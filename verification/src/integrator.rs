use vstd::prelude::*;

use crate::bisect::{
    always_sign, bisect, bisect_bracket_rejected, bisect_converged, bracket_attested,
    cmp_never_zero, midpoint_attested, midpoints_always_zero, Sign,
};
use crate::error::Error;
use crate::numerical_result::NumericalResult;

verus! {

/// Holds when `v` is a value the summing closure `sum` may return for
/// some pair of sub-integral estimates.
pub open spec fn sum_attested<T, FA>(sum: FA, v: T) -> bool where FA: Fn(T, T) -> T {
    exists|i1: T, i2: T| #[trigger] call_ensures(sum, (i1, i2), v)
}

/// Holds when no result the quadrature closure `quad` can return, on any
/// sub-interval and tolerance, records a failure - the service always
/// converges.
pub open spec fn quad_never_fails<T, E, FQ>(quad: FQ) -> bool where
    T: Copy,
    E: Copy,
    FQ: Fn(T, T, T) -> NumericalResult<T, E>,
{
    forall|lo: T, hi: T, e: T, q: NumericalResult<T, E>|
        #[trigger] call_ensures(quad, (lo, hi, e), q) ==> q.spec_error() is None
}

/// Configuration of the adaptive integrator:
/// - `eps_quad` - relative convergence tolerance handed to the external
///   quadrature service.
/// - `eps_bisect` - absolute convergence tolerance of the bisection used
///   to find the peak of the integrand.
/// - `limit_bisect` - maximum number of bisection iterations.
/// - `continue_on_err` - if set, integration will not fail even if the
///   bisection or the quadrature does: their unchecked, possibly
///   non-converged estimates are summed regardless. An explicit opt-in
///   escape hatch, never the default.
#[derive(Clone, Copy, Debug)]
pub struct Integrator<T> {
    eps_quad: T,
    eps_bisect: T,
    limit_bisect: u64,
    continue_on_err: bool,
}

impl<T: Copy> Integrator<T> {
    pub closed spec fn spec_eps_quad(&self) -> T {
        self.eps_quad
    }

    pub closed spec fn spec_eps_bisect(&self) -> T {
        self.eps_bisect
    }

    pub closed spec fn spec_limit_bisect(&self) -> u64 {
        self.limit_bisect
    }

    pub closed spec fn spec_continue_on_err(&self) -> bool {
        self.continue_on_err
    }

    pub fn new(eps_quad: T, eps_bisect: T, limit_bisect: u64, continue_on_err: bool) -> (r: Self)
        ensures
            r.spec_eps_quad() == eps_quad,
            r.spec_eps_bisect() == eps_bisect,
            r.spec_limit_bisect() == limit_bisect,
            r.spec_continue_on_err() == continue_on_err,
    {
        Integrator { eps_quad, eps_bisect, limit_bisect, continue_on_err }
    }

    /// Integrate over `[a, b]` by locating the peak `m` of the integrand
    /// with the bisection root locator applied to the derivative sign
    /// `f`, then running the external quadrature service `quad`
    /// independently on `[a, m]` and `[m, b]` and summing the two
    /// estimates with `sum`.
    ///
    /// `cmp`, `mid`, `half` and `lt` supply the scalar arithmetic of the
    /// root locator, as in [`bisect`]; `quad(lo, hi, eps_quad)` returns
    /// the service's estimate over `[lo, hi]` at relative tolerance
    /// `eps_quad`, with its failure, if any, recorded in the result.
    ///
    /// Under the strict policy any bisection failure and any quadrature
    /// failure surfaces as a typed error and no partial result is
    /// returned: a quadrature failure is wrapped in `GkQuad` with the
    /// left sub-interval's failure taking priority, and when the peak
    /// search must converge and the service cannot fail, `Ok` is owed.
    /// Under the best-effort policy (`continue_on_err`) the call always
    /// returns `Ok`, and the value is the sum of the two sub-interval
    /// estimates the service handed back, converged or not.
    #[verifier::rlimit(60)]
    pub fn integrate<E, FS, FC, FM, FH, FL, FQ, FA>(
        &self,
        f: &FS,
        cmp: &FC,
        mid: &FM,
        half: &FH,
        lt: &FL,
        quad: &FQ,
        sum: &FA,
        a: T,
        b: T,
        zero: T,
    ) -> (r: Result<T, Error<T, E>>) where
        E: Copy,
        FS: Fn(T) -> Sign,
        FC: Fn(T, T) -> Sign,
        FM: Fn(T, T) -> T,
        FH: Fn(T, T) -> T,
        FL: Fn(T, T) -> bool,
        FQ: Fn(T, T, T) -> NumericalResult<T, E>,
        FA: Fn(T, T) -> T,

        requires
            call_requires(*cmp, (a, b)),
            forall|x: T| #[trigger] call_requires(*f, (x,)),
            forall|p: T, q: T| #[trigger] call_requires(*mid, (p, q)),
            forall|p: T, q: T| #[trigger] call_requires(*half, (p, q)),
            forall|p: T, q: T| #[trigger] call_requires(*lt, (p, q)),
            forall|p: T, q: T, e: T| #[trigger] call_requires(*quad, (p, q, e)),
            forall|p: T, q: T| #[trigger] call_requires(*sum, (p, q)),
        ensures
            self.spec_continue_on_err() ==> r is Ok,
            r matches Err(e) ==> (e matches Error::BisectionRangeError { .. } || e matches Error::BisectionIterationsExceededError { .. }
                || e matches Error::GkQuad { .. }),
            r matches Err(Error::BisectionRangeError { a: ea, b: eb })
                ==> bisect_bracket_rejected(*f, *cmp, a, b, ea, eb),
            r matches Err(Error::BisectionRangeError { a: ea, b: eb }) ==> ((ea == a && eb == b)
                || (ea == b && eb == a && call_ensures(*cmp, (a, b), Sign::Positive))),
            r matches Err(Error::BisectionIterationsExceededError { n_max: m }) ==> m
                == self.spec_limit_bisect(),
            r matches Err(Error::BisectionIterationsExceededError { .. }) ==> exists|lo: T, hi: T|
                #[trigger] bracket_attested(*f, lo, hi),
            r matches Err(Error::GkQuad { source }) ==> exists|
                m: T,
                d: T,
                q1: NumericalResult<T, E>,
                q2: NumericalResult<T, E>,
            |
                #![trigger bisect_converged(*f, *mid, *half, *lt, self.spec_eps_bisect(), m, d), call_ensures(*quad, (a, m, self.spec_eps_quad()), q1), call_ensures(*quad, (m, b, self.spec_eps_quad()), q2)]
                bisect_converged(*f, *mid, *half, *lt, self.spec_eps_bisect(), m, d)
                    && call_ensures(*quad, (a, m, self.spec_eps_quad()), q1) && call_ensures(
                    *quad,
                    (m, b, self.spec_eps_quad()),
                    q2,
                ) && (q1.spec_error() == Some(source) || (q1.spec_error() is None
                    && q2.spec_error() == Some(source))),
            r matches Ok(v) ==> sum_attested(*sum, v),
            self.spec_continue_on_err() ==> (r matches Ok(v) ==> exists|
                m: T,
                q1: NumericalResult<T, E>,
                q2: NumericalResult<T, E>,
            |
                #![trigger call_ensures(*quad, (a, m, self.spec_eps_quad()), q1), call_ensures(*quad, (m, b, self.spec_eps_quad()), q2)]
                (m == zero || midpoint_attested(*mid, m)) && call_ensures(
                    *quad,
                    (a, m, self.spec_eps_quad()),
                    q1,
                ) && call_ensures(*quad, (m, b, self.spec_eps_quad()), q2) && call_ensures(
                    *sum,
                    (q1.spec_estimate(), q2.spec_estimate()),
                    v,
                )),
            forall|sa: Sign, sb: Sign|
                (self.spec_limit_bisect() >= 1 && sa != sb && cmp_never_zero(*cmp, a, b)
                    && #[trigger] always_sign(*f, a, sa) && #[trigger] always_sign(*f, b, sb)
                    && midpoints_always_zero(*f, *mid, a, b) && midpoints_always_zero(
                    *f,
                    *mid,
                    b,
                    a,
                )) ==> (r is Ok || r matches Err(Error::GkQuad { .. })),
            forall|sa: Sign, sb: Sign|
                (self.spec_limit_bisect() >= 1 && sa != sb && cmp_never_zero(*cmp, a, b)
                    && #[trigger] always_sign(*f, a, sa) && #[trigger] always_sign(*f, b, sb)
                    && midpoints_always_zero(*f, *mid, a, b) && midpoints_always_zero(
                    *f,
                    *mid,
                    b,
                    a,
                ) && quad_never_fails(*quad)) ==> r is Ok,
            !self.spec_continue_on_err() && (forall|s: Sign| #[trigger]
                call_ensures(*cmp, (a, b), s) ==> s == Sign::Zero) ==> r matches Err(
                Error::BisectionRangeError { .. },
            ),
            forall|s: Sign|
                (!self.spec_continue_on_err() && #[trigger] always_sign(*f, a, s) && always_sign(
                    *f,
                    b,
                    s,
                )) ==> r matches Err(Error::BisectionRangeError { .. }),
            !self.spec_continue_on_err() ==> (r matches Ok(v) ==> exists|
                m: T,
                d: T,
                q1: NumericalResult<T, E>,
                q2: NumericalResult<T, E>,
            |
                #![trigger bisect_converged(*f, *mid, *half, *lt, self.spec_eps_bisect(), m, d), call_ensures(*quad, (a, m, self.spec_eps_quad()), q1), call_ensures(*quad, (m, b, self.spec_eps_quad()), q2)]
                bisect_converged(*f, *mid, *half, *lt, self.spec_eps_bisect(), m, d)
                    && call_ensures(*quad, (a, m, self.spec_eps_quad()), q1) && q1.spec_error()
                    is None && call_ensures(*quad, (m, b, self.spec_eps_quad()), q2)
                    && q2.spec_error() is None && call_ensures(
                    *sum,
                    (q1.spec_estimate(), q2.spec_estimate()),
                    v,
                )),
    {
        if self.continue_on_err {
            let peak: NumericalResult<T, Error<T, E>> = bisect(f, cmp, mid, half, lt, a, b, self.eps_bisect, zero, self.limit_bisect);
            let m = peak.estimate_unchecked();
            proof {
                if peak.spec_error() is None {
                    assert(midpoint_attested(*mid, m));
                }
                assert(m == zero || midpoint_attested(*mid, m));
            }
            let q_1 = quad(a, m, self.eps_quad);
            let q_2 = quad(m, b, self.eps_quad);
            let i_1 = q_1.estimate_unchecked();
            let i_2 = q_2.estimate_unchecked();
            let v = sum(i_1, i_2);
            proof {
                assert(call_ensures(*sum, (i_1, i_2), v));
                assert(sum_attested(*sum, v));
                assert(call_ensures(*quad, (a, m, self.spec_eps_quad()), q_1));
                assert(call_ensures(*quad, (m, b, self.spec_eps_quad()), q_2));
                assert(call_ensures(*sum, (q_1.spec_estimate(), q_2.spec_estimate()), v));
            }
            Ok(v)
        } else {
            let peak = bisect(f, cmp, mid, half, lt, a, b, self.eps_bisect, zero, self.limit_bisect);
            let m = match peak.estimate() {
                Ok(m) => m,
                Err(e) => {
                    return Err(e);
                },
            };
            proof {
                assert(bisect_converged(
                    *f,
                    *mid,
                    *half,
                    *lt,
                    self.spec_eps_bisect(),
                    m,
                    peak.spec_delta(),
                ));
            }
            let q_1 = quad(a, m, self.eps_quad);
            let q_2 = quad(m, b, self.eps_quad);
            match (q_1.estimate(), q_2.estimate()) {
                (Ok(i_1), Ok(i_2)) => {
                    let v = sum(i_1, i_2);
                    proof {
                        assert(q_1.spec_error() is None && q_2.spec_error() is None);
                        assert(call_ensures(*sum, (i_1, i_2), v));
                        assert(sum_attested(*sum, v));
                        assert(call_ensures(*quad, (a, m, self.spec_eps_quad()), q_1));
                        assert(call_ensures(*quad, (m, b, self.spec_eps_quad()), q_2));
                    }
                    Ok(v)
                },
                (Ok(_), Err(e)) => {
                    proof {
                        assert(q_2.spec_error() == Some(e));
                    }
                    Err(Error::GkQuad { source: e })
                },
                (Err(e), Ok(_)) => {
                    proof {
                        assert(q_1.spec_error() == Some(e));
                    }
                    Err(Error::GkQuad { source: e })
                },
                (Err(e), Err(_)) => {
                    proof {
                        assert(q_1.spec_error() == Some(e));
                    }
                    Err(Error::GkQuad { source: e })
                },
            }
        }
    }
}

} // verus!
