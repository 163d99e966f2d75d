use vstd::prelude::*;

verus! {

/// The failure taxonomy of the engine.
///
/// `T` is the scalar type the caller computes with; `E` is the failure type
/// of the external quadrature service, carried verbatim through `GkQuad`.
/// Construction failures hold the offending value, bracket failures the
/// offending endpoints, so that callers can report them.
#[derive(Clone, Copy, Debug)]
pub enum Error<T, E> {
    /// `alpha` lay outside the allowed range (0, 2] at construction.
    AlphaError { alpha: T },
    /// `beta` lay outside the allowed range [-1, 1] at construction.
    BetaError { beta: T },
    /// The initial bisection bracket was degenerate or did not straddle a
    /// sign change.
    BisectionRangeError { a: T, b: T },
    /// Bisection did not converge within the configured iteration cap.
    BisectionIterationsExceededError { n_max: u64 },
    /// The external quadrature service reported a failure of its own.
    GkQuad { source: E },
}

} // verus!
