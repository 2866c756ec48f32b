//! Polynomial evaluation by Horner's method.
//!
//! A polynomial is given as an ordered sequence of coefficients, from the
//! coefficient of the highest power down to the constant term, together with a
//! point at which to evaluate it.  The evaluators reduce the sequence with
//! nested fused multiply-accumulate steps, never computing a power of the
//! point on its own.
//!
//! Three entry points differ only in how they treat an empty coefficient
//! sequence: `try_eval_polynomial` rejects it, `eval_any_rank_polynomial`
//! reads it as the identically-zero polynomial, and
//! `eval_known_rank_polynomial` fixes the coefficient count in the type.

mod eval;
mod scalar;

pub use eval::eval_any_rank_polynomial;
pub use eval::eval_known_rank_polynomial;
pub use eval::horner_reduce;
pub use eval::try_eval_polynomial;
pub use eval::EvalError;
pub use eval::coeffs_as_int;
pub use eval::eval_steps_in_range;
pub use eval::horner_eval;
pub use eval::lemma_all_zero_coefficients;
pub use eval::lemma_constant_polynomial;
pub use eval::lemma_strict_agrees_with_lenient;
pub use eval::lenient_eval_spec;
pub use eval::strict_eval_spec;
pub use scalar::mul_add_in_range;
pub use scalar::HornerScalar;
