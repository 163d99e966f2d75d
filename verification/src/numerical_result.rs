use vstd::prelude::*;

verus! {

/// The outcome of a numerical routine: an estimate, an error bound, and an
/// optional typed failure.
///
/// When `error` is present, `estimate` and `delta` are best-effort values
/// that must not be treated as converged: `estimate()` and `delta()` force
/// the caller to branch on the failure, while the `_unchecked` accessors
/// skip that check and are reserved for the integrator's explicit
/// best-effort mode.
#[derive(Clone, Copy, Debug)]
pub struct NumericalResult<T, E> {
    estimate: T,
    delta: T,
    error: Option<E>,
}

impl<T: Copy, E: Copy> NumericalResult<T, E> {
    /// The stored estimate, whether or not a failure was recorded.
    pub closed spec fn spec_estimate(&self) -> T {
        self.estimate
    }

    /// The stored error bound, whether or not a failure was recorded.
    pub closed spec fn spec_delta(&self) -> T {
        self.delta
    }

    /// The recorded failure, if any.
    pub closed spec fn spec_error(&self) -> Option<E> {
        self.error
    }

    pub fn new(estimate: T, delta: T, error: Option<E>) -> (r: Self)
        ensures
            r.spec_estimate() == estimate,
            r.spec_delta() == delta,
            r.spec_error() == error,
    {
        NumericalResult { estimate, delta, error }
    }

    /// Whether a failure was recorded.
    pub fn has_err(&self) -> (r: bool)
        ensures
            r == (self.spec_error() is Some),
    {
        !self.error.is_none()
    }

    /// The estimate, or the recorded failure if there is one.
    pub fn estimate(&self) -> (r: Result<T, E>)
        ensures
            self.spec_error() is None ==> r == Result::<T, E>::Ok(self.spec_estimate()),
            self.spec_error() matches Some(e) ==> r == Result::<T, E>::Err(e),
    {
        match self.error {
            Some(error) => Err(error),
            None => Ok(self.estimate),
        }
    }

    /// The error bound, or the recorded failure if there is one.
    pub fn delta(&self) -> (r: Result<T, E>)
        ensures
            self.spec_error() is None ==> r == Result::<T, E>::Ok(self.spec_delta()),
            self.spec_error() matches Some(e) ==> r == Result::<T, E>::Err(e),
    {
        match self.error {
            Some(error) => Err(error),
            None => Ok(self.delta),
        }
    }

    /// The estimate without checking for a recorded failure: a deliberate
    /// escape hatch, never the default path.
    pub fn estimate_unchecked(&self) -> (r: T)
        ensures
            r == self.spec_estimate(),
    {
        self.estimate
    }

    /// The error bound without checking for a recorded failure.
    pub fn delta_unchecked(&self) -> (r: T)
        ensures
            r == self.spec_delta(),
    {
        self.delta
    }
}

} // verus!
