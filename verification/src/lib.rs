//! Evaluation of and sampling from alpha-stable probability distributions.
//!
//! The crate verifies the control structure of the numerical engine: the
//! bisection root locator, the peak-splitting adaptive integrator with its
//! strict and best-effort error policies, the case analysis of the density
//! evaluator and of the Chambers-Mallows-Stuck sampler, and the parameter
//! validation. All of it is stated and proved over an abstract scalar `T`;
//! the floating-point formulas themselves, which the verifier does not
//! accept, are supplied by the (unverified) caller through closures over
//! that scalar.
//!
//! Distributions are specified in one of two forms:
//! - Standard form: `S_alpha(sigma, beta, mu)`.
//! - Nolan's form: `S^0_alpha(sigma, beta, mu_0)`.

pub mod alpha_stable;
pub mod bisect;
pub mod error;
pub mod integrator;
pub mod numerical_result;

pub use error::Error;
pub use integrator::Integrator;
pub use numerical_result::NumericalResult;
