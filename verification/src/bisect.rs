use vstd::prelude::*;

use crate::error::Error;
use crate::numerical_result::NumericalResult;

verus! {

/// The sign of a scalar, as the root locator consumes it. The locator never
/// looks at function values themselves, only at their classification.
#[derive(Clone, Copy, Debug, PartialEq, Eq, Structural)]
pub enum Sign {
    Negative,
    Zero,
    Positive,
}

/// Holds when `x` with half-width `d` is a point the bisection loop may
/// report as converged: `x` is the midpoint of some bracket `[lo, hi]`
/// whose endpoints were classified with differing signs, `d` is that
/// bracket's half-width, and either `f` classified `x` itself as an exact
/// zero or the half-width passed the tolerance test `lt(d, eps)`.
pub open spec fn bisect_converged<T, FS, FM, FH, FL>(
    f: FS,
    mid: FM,
    half: FH,
    lt: FL,
    eps: T,
    x: T,
    d: T,
) -> bool where
    FS: Fn(T) -> Sign,
    FM: Fn(T, T) -> T,
    FH: Fn(T, T) -> T,
    FL: Fn(T, T) -> bool,
{
    exists|lo: T, hi: T, slo: Sign, shi: Sign|
        #![trigger call_ensures(f, (lo,), slo), call_ensures(f, (hi,), shi)]
        call_ensures(mid, (lo, hi), x) && call_ensures(half, (lo, hi), d) && call_ensures(
            f,
            (lo,),
            slo,
        ) && call_ensures(f, (hi,), shi) && slo != shi && (call_ensures(f, (x,), Sign::Zero)
            || call_ensures(lt, (d, eps), true))
}

/// Holds when the bracket `[ea, eb]` reported by a `BisectionRangeError`
/// was rightly rejected for the search interval `[a, b]`: either the
/// interval was degenerate under `cmp`, or `f` classified both reported
/// endpoints (the interval's own endpoints, possibly swapped into
/// ascending order) with the same sign.
pub open spec fn bisect_bracket_rejected<T, FS, FC>(
    f: FS,
    cmp: FC,
    a: T,
    b: T,
    ea: T,
    eb: T,
) -> bool where FS: Fn(T) -> Sign, FC: Fn(T, T) -> Sign {
    (ea == a && eb == b && call_ensures(cmp, (a, b), Sign::Zero)) || (exists|s: Sign|
        #![trigger call_ensures(f, (ea,), s), call_ensures(f, (eb,), s)]
        call_ensures(f, (ea,), s) && call_ensures(f, (eb,), s) && ((ea == a && eb == b) || (ea == b
            && eb == a)))
}

/// Holds when every sign the classifier `f` can return for the point `x`
/// is `s` - that is, `f` classifies `x` deterministically as `s`.
pub open spec fn always_sign<T, FS>(f: FS, x: T, s: Sign) -> bool where FS: Fn(T) -> Sign {
    forall|r: Sign| #[trigger] call_ensures(f, (x,), r) ==> r == s
}

/// Holds when `f` classified the endpoints `lo` and `hi` with differing
/// signs: the pair genuinely bracketed a sign change.
pub open spec fn bracket_attested<T, FS>(f: FS, lo: T, hi: T) -> bool where FS: Fn(T) -> Sign {
    exists|slo: Sign, shi: Sign|
        #![trigger call_ensures(f, (lo,), slo), call_ensures(f, (hi,), shi)]
        call_ensures(f, (lo,), slo) && call_ensures(f, (hi,), shi) && slo != shi
}

/// Holds when `x` is a value the midpoint closure `mid` may have produced
/// for some pair of endpoints.
pub open spec fn midpoint_attested<T, FM>(mid: FM, x: T) -> bool where FM: Fn(T, T) -> T {
    exists|p: T, q: T| #[trigger] call_ensures(mid, (p, q), x)
}

/// Holds when `d` is a value the half-width closure `half` may have
/// produced for some pair of endpoints.
pub open spec fn halfwidth_attested<T, FH>(half: FH, d: T) -> bool where FH: Fn(T, T) -> T {
    exists|p: T, q: T| #[trigger] call_ensures(half, (p, q), d)
}

/// Holds when no outcome the comparison closure `cmp` can produce for
/// `(a, b)` is `Zero` - the pair is deterministically non-degenerate.
pub open spec fn cmp_never_zero<T, FC>(cmp: FC, a: T, b: T) -> bool where FC: Fn(T, T) -> Sign {
    forall|s: Sign| #[trigger] call_ensures(cmp, (a, b), s) ==> s != Sign::Zero
}

/// Holds when every midpoint `mid` can produce for the oriented pair
/// `(lo, hi)` is a point the classifier `f` always marks as an exact
/// zero.
pub open spec fn midpoints_always_zero<T, FS, FM>(f: FS, mid: FM, lo: T, hi: T) -> bool where
    FS: Fn(T) -> Sign,
    FM: Fn(T, T) -> T,
{
    forall|m: T| #[trigger] call_ensures(mid, (lo, hi), m) ==> always_sign(f, m, Sign::Zero)
}

// Holds when some midpoint of the oriented pair `(lo, hi)` was produced
// and classified as something other than an exact zero: the record the
// loop keeps of its first probe, which refutes `midpoints_always_zero`
// once the first iteration fails to finish.
spec fn probed_nonzero<T, FS, FM>(f: FS, mid: FM, lo: T, hi: T) -> bool where
    FS: Fn(T) -> Sign,
    FM: Fn(T, T) -> T,
{
    exists|m: T, s: Sign|
        #![trigger call_ensures(mid, (lo, hi), m), call_ensures(f, (m,), s)]
        call_ensures(mid, (lo, hi), m) && call_ensures(f, (m,), s) && s != Sign::Zero
}

/// Plain bisection over an abstract scalar `T`.
///
/// The caller supplies the arithmetic: `f` classifies the sign of the
/// function under search at a point, `cmp` compares two scalars (`Zero`
/// for equal, `Positive` when the first is the greater), `mid` forms a
/// midpoint, `half` a half-width, and `lt(d, eps)` tests the half-width
/// against the absolute tolerance `eps`. `zero` is the placeholder
/// estimate reported when no bracket was ever formed.
///
/// A degenerate range (`a == b` under `cmp`) and a non-bracketing range
/// (equal signs at both endpoints, reported in ascending order with the
/// zero placeholders stored) fail with `BisectionRangeError`; a bracket
/// that survives `n_max` iterations without converging fails with
/// `BisectionIterationsExceededError`, carrying the best midpoint found
/// as a non-authoritative estimate and a half-width as its bound. Both
/// failures are also owed: deterministically degenerate or same-sign
/// inputs must fail, and conversely, when the closures deterministically
/// order the pair, give the endpoints differing signs, and classify
/// every midpoint of the pair as an exact zero, one iteration suffices
/// and success is owed.
#[verifier::loop_isolation(false)]
pub fn bisect<T, E, FS, FC, FM, FH, FL>(
    f: &FS,
    cmp: &FC,
    mid: &FM,
    half: &FH,
    lt: &FL,
    a: T,
    b: T,
    eps: T,
    zero: T,
    n_max: u64,
) -> (r: NumericalResult<T, Error<T, E>>) where
    T: Copy,
    E: Copy,
    FS: Fn(T) -> Sign,
    FC: Fn(T, T) -> Sign,
    FM: Fn(T, T) -> T,
    FH: Fn(T, T) -> T,
    FL: Fn(T, T) -> bool,

    requires
        call_requires(*cmp, (a, b)),
        forall|x: T| #[trigger] call_requires(*f, (x,)),
        forall|p: T, q: T| #[trigger] call_requires(*mid, (p, q)),
        forall|p: T, q: T| #[trigger] call_requires(*half, (p, q)),
        forall|p: T, q: T| #[trigger] call_requires(*lt, (p, q)),
    ensures
        r.spec_error() is None ==> bisect_converged(
            *f,
            *mid,
            *half,
            *lt,
            eps,
            r.spec_estimate(),
            r.spec_delta(),
        ),
        r.spec_error() matches Some(e) ==> (e matches Error::BisectionRangeError { .. }
            || e matches Error::BisectionIterationsExceededError { .. }),
        r.spec_error() matches Some(Error::BisectionRangeError { a: ea, b: eb })
            ==> bisect_bracket_rejected(*f, *cmp, a, b, ea, eb),
        r.spec_error() matches Some(Error::BisectionRangeError { a: ea, b: eb }) ==> (
        r.spec_estimate() == zero && r.spec_delta() == zero && ((ea == a && eb == b) || (ea == b
            && eb == a && call_ensures(*cmp, (a, b), Sign::Positive)))),
        r.spec_error() matches Some(Error::BisectionIterationsExceededError { n_max: m }) ==> m
            == n_max,
        r.spec_error() matches Some(Error::BisectionIterationsExceededError { .. }) ==> ((exists|
            lo: T,
            hi: T,
        |
            #[trigger] bracket_attested(*f, lo, hi)) && (r.spec_estimate() == zero
            || midpoint_attested(*mid, r.spec_estimate())) && halfwidth_attested(
            *half,
            r.spec_delta(),
        )),
        (forall|s: Sign| #[trigger] call_ensures(*cmp, (a, b), s) ==> s == Sign::Zero)
            ==> r.spec_error() matches Some(Error::BisectionRangeError { .. }),
        forall|s: Sign|
            (#[trigger] always_sign(*f, a, s) && always_sign(*f, b, s)) ==> r.spec_error() matches Some(
                Error::BisectionRangeError { .. },
            ),
        forall|sa: Sign, sb: Sign|
            (n_max >= 1 && sa != sb && cmp_never_zero(*cmp, a, b) && #[trigger] always_sign(
                *f,
                a,
                sa,
            ) && #[trigger] always_sign(*f, b, sb) && midpoints_always_zero(*f, *mid, a, b)
                && midpoints_always_zero(*f, *mid, b, a)) ==> r.spec_error() is None,
{
    let ord = cmp(a, b);
    if ord == Sign::Zero {
        return NumericalResult::new(zero, zero, Some(Error::BisectionRangeError { a, b }));
    }
    let mut lo = a;
    let mut hi = b;
    if ord == Sign::Positive {
        lo = b;
        hi = a;
    }
    let mut x = zero;
    let mut slo = f(lo);
    let shi = f(hi);
    if slo == shi {
        proof {
            assert(call_ensures(*f, (lo,), slo) && call_ensures(*f, (hi,), slo));
            assert(bisect_bracket_rejected(*f, *cmp, a, b, lo, hi));
        }
        return NumericalResult::new(zero, zero, Some(Error::BisectionRangeError { a: lo, b: hi }));
    }
    let ghost mut ghost_shi: Sign = shi;
    let ghost lo0 = lo;
    let ghost hi0 = hi;
    let mut i: u64 = 0;
    while i < n_max
        invariant
            i <= n_max,
            call_ensures(*f, (lo,), slo),
            call_ensures(*f, (hi,), ghost_shi),
            slo != ghost_shi,
            x == zero || midpoint_attested(*mid, x),
            i == 0 ==> lo == lo0 && hi == hi0,
            i >= 1 ==> probed_nonzero(*f, *mid, lo0, hi0),
        decreases n_max - i,
    {
        let m = mid(lo, hi);
        x = m;
        let sx = f(x);
        let h = half(lo, hi);
        if sx == Sign::Zero || lt(h, eps) {
            return NumericalResult::new(x, h, None);
        }
        proof {
            if i == 0 {
                assert(call_ensures(*mid, (lo0, hi0), m) && call_ensures(*f, (m,), sx) && sx
                    != Sign::Zero);
                assert(probed_nonzero(*f, *mid, lo0, hi0));
            }
        }
        if sx == slo {
            lo = x;
            slo = sx;
        } else {
            hi = x;
            proof {
                ghost_shi = sx;
            }
        }
        i = i + 1;
    }
    let h = half(lo, hi);
    proof {
        assert(bracket_attested(*f, lo, hi));
        assert(halfwidth_attested(*half, h));
        // the first probe refutes a hypothetical all-midpoints-zero pair
        assert(n_max >= 1 ==> probed_nonzero(*f, *mid, lo0, hi0));
        assert((lo0 == a && hi0 == b) || (lo0 == b && hi0 == a));
    }
    NumericalResult::new(x, h, Some(Error::BisectionIterationsExceededError { n_max }))
}

} // verus!
