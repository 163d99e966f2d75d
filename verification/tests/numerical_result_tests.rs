use alpha_stable::error::Error;
use alpha_stable::numerical_result::NumericalResult;

#[test]
fn test_success_result_accessors() {
    let r: NumericalResult<f64, Error<f64, u8>> = NumericalResult::new(1.5, 0.25, None);
    assert!(!r.has_err());
    assert_eq!(r.estimate().unwrap(), 1.5);
    assert_eq!(r.delta().unwrap(), 0.25);
    assert_eq!(r.estimate_unchecked(), 1.5);
    assert_eq!(r.delta_unchecked(), 0.25);
}

#[test]
fn test_failed_result_forces_branching() {
    let r: NumericalResult<f64, Error<f64, u8>> =
        NumericalResult::new(1.5, 0.25, Some(Error::BisectionIterationsExceededError { n_max: 9 }));
    assert!(r.has_err());
    assert!(matches!(
        r.estimate(),
        Err(Error::BisectionIterationsExceededError { n_max: 9 })
    ));
    assert!(matches!(
        r.delta(),
        Err(Error::BisectionIterationsExceededError { n_max: 9 })
    ));
    // The unchecked accessors bypass the failure check and hand out the
    // best-effort values.
    assert_eq!(r.estimate_unchecked(), 1.5);
    assert_eq!(r.delta_unchecked(), 0.25);
}
