//! The Horner reduction kernel and the three evaluation entry points.
//!
//! Convention, used uniformly: coefficients are ordered from the coefficient
//! of the highest power down to the constant term, and the reduction peels
//! them from the front.  A sequence of length `n >= 1` encodes a polynomial of
//! degree at most `n - 1`; the empty sequence is rejected by the strict entry
//! point and read as the identically-zero polynomial by the lenient ones.

use vstd::prelude::*;

use crate::scalar::mul_add_in_range;
use crate::scalar::HornerScalar;

verus! {

/// The one failure the strict evaluator knows: an empty coefficient sequence,
/// which cannot represent any polynomial under the strict convention.
#[derive(Clone, Copy, Debug, PartialEq, Eq, Structural)]
pub enum EvalError {
    CardinalityTooLow,
}

/// The value of the polynomial with coefficients `coeffs` (highest power
/// first) at the point `x`, as nested multiply-add steps:
/// `(((c0) * x + c1) * x + c2) * x + ... + c_{n-1}`.  The empty sequence is
/// the identically-zero polynomial.
pub open spec fn horner_eval(x: int, coeffs: Seq<int>) -> int
    decreases coeffs.len(),
{
    if coeffs.len() == 0 {
        0
    } else {
        horner_eval(x, coeffs.drop_last()) * x + coeffs.last()
    }
}

/// What the lenient evaluator returns: the Horner value, with the empty
/// sequence read as the zero polynomial.
pub open spec fn lenient_eval_spec(x: int, coeffs: Seq<int>) -> int {
    horner_eval(x, coeffs)
}

/// What the strict evaluator returns: the Horner value, with the empty
/// sequence rejected.
pub open spec fn strict_eval_spec(x: int, coeffs: Seq<int>) -> Result<int, EvalError> {
    if coeffs.len() == 0 {
        Err(EvalError::CardinalityTooLow)
    } else {
        Ok(horner_eval(x, coeffs))
    }
}

/// A coefficient sequence read as the mathematical integers it stands for.
pub open spec fn coeffs_as_int<T: HornerScalar>(s: Seq<T>) -> Seq<int> {
    s.map_values(|c: T| c.as_int())
}

/// Every multiply-accumulate step of the reduction stays within the
/// representable range of `T`: for each proper prefix, the running value
/// times `x`, and that product plus the next coefficient, both fit.
pub open spec fn eval_steps_in_range<T: HornerScalar>(x: int, coeffs: Seq<int>) -> bool {
    forall|i: int|
        1 <= i < coeffs.len() ==> mul_add_in_range::<T>(
            horner_eval(x, #[trigger] coeffs.take(i)),
            x,
            coeffs[i],
        )
}

/// Extending a prefix by one coefficient is one multiply-add step.
proof fn lemma_horner_take_step(x: int, coeffs: Seq<int>, i: int)
    requires
        0 <= i < coeffs.len(),
    ensures
        horner_eval(x, coeffs.take(i + 1)) == horner_eval(x, coeffs.take(i)) * x + coeffs[i],
{
    assert(coeffs.take(i + 1).drop_last() =~= coeffs.take(i));
    assert(coeffs.take(i + 1).last() == coeffs[i]);
}

/// Strict and lenient evaluation agree exactly on every non-empty
/// coefficient sequence.
pub proof fn lemma_strict_agrees_with_lenient(x: int, coeffs: Seq<int>)
    requires
        coeffs.len() >= 1,
    ensures
        strict_eval_spec(x, coeffs) == Result::<int, EvalError>::Ok(lenient_eval_spec(x, coeffs)),
{
}

/// An all-zero coefficient sequence of any length evaluates to zero at every
/// point; in particular the empty sequence, `[0]` and `[0, 0, 0]` agree.
pub proof fn lemma_all_zero_coefficients(x: int, coeffs: Seq<int>)
    requires
        forall|i: int| 0 <= i < coeffs.len() ==> #[trigger] coeffs[i] == 0,
    ensures
        lenient_eval_spec(x, coeffs) == 0,
    decreases coeffs.len(),
{
    if coeffs.len() > 0 {
        assert(forall|i: int|
            0 <= i < coeffs.drop_last().len() ==> #[trigger] coeffs.drop_last()[i] == 0);
        lemma_all_zero_coefficients(x, coeffs.drop_last());
        assert(coeffs.last() == 0);
    }
}

/// A single-coefficient polynomial is constant: it evaluates to its one
/// coefficient at every point.
pub proof fn lemma_constant_polynomial(x: int, k: int)
    ensures
        lenient_eval_spec(x, seq![k]) == k,
{
    assert(seq![k].drop_last() =~= Seq::<int>::empty());
    assert(seq![k].last() == k);
    assert(horner_eval(x, Seq::<int>::empty()) == 0);
}

/// The Horner reduction kernel, over a non-empty coefficient slice.
///
/// Seeds the running value with the leading coefficient and folds the rest in
/// with one fused multiply-accumulate step each.  The second component counts
/// those steps: exactly one fewer than there are coefficients, never more —
/// the cost bound that sets Horner's method apart from power-sum evaluation.
pub fn horner_reduce<T: HornerScalar>(x: T, coefficients: &[T]) -> (res: (T, Ghost<int>))
    requires
        coefficients@.len() >= 1,
        eval_steps_in_range::<T>(x.as_int(), coeffs_as_int(coefficients@)),
    ensures
        res.0.as_int() == horner_eval(x.as_int(), coeffs_as_int(coefficients@)),
        res.1@ == coefficients@.len() - 1,
{
    let ghost gx: int = x.as_int();
    let ghost gc: Seq<int> = coeffs_as_int(coefficients@);
    let mut val: T = coefficients[0];
    let ghost mut steps: int = 0;
    proof {
        assert(gc.take(1).drop_last() =~= Seq::<int>::empty());
        assert(gc.take(1).last() == gc[0]);
        assert(horner_eval(gx, Seq::<int>::empty()) == 0);
        assert(gc[0] == coefficients@[0].as_int());
    }
    let n: usize = coefficients.len();
    let mut i: usize = 1;
    while i < n
        invariant
            1 <= i <= n,
            n == coefficients@.len(),
            gx == x.as_int(),
            gc == coeffs_as_int(coefficients@),
            eval_steps_in_range::<T>(gx, gc),
            val.as_int() == horner_eval(gx, gc.take(i as int)),
            steps == i - 1,
        decreases n - i,
    {
        let k: T = coefficients[i];
        proof {
            assert(mul_add_in_range::<T>(horner_eval(gx, gc.take(i as int)), gx, gc[i as int]));
            assert(gc[i as int] == coefficients@[i as int].as_int());
            lemma_horner_take_step(gx, gc, i as int);
        }
        val = val.mul_add(x, k);
        proof {
            steps = steps + 1;
        }
        i = i + 1;
    }
    proof {
        assert(gc.take(n as int) =~= gc);
    }
    (val, Ghost(steps))
}

/// Evaluate a polynomial of any rank at `x` by Horner's method; the empty
/// coefficient sequence is read as the identically-zero polynomial, so this
/// entry point never fails.
pub fn eval_any_rank_polynomial<T: HornerScalar>(x: T, coefficients: &[T]) -> (r: T)
    requires
        eval_steps_in_range::<T>(x.as_int(), coeffs_as_int(coefficients@)),
    ensures
        r.as_int() == lenient_eval_spec(x.as_int(), coeffs_as_int(coefficients@)),
        coefficients@.len() == 0 ==> r.as_int() == 0,
{
    if coefficients.len() == 0 {
        T::zero_value()
    } else {
        let res: (T, Ghost<int>) = horner_reduce(x, coefficients);
        res.0
    }
}

/// Evaluate a polynomial at `x` by Horner's method, rejecting the empty
/// coefficient sequence: with no coefficients there is no convention for
/// which polynomial is meant, and `CardinalityTooLow` says so.
pub fn try_eval_polynomial<T: HornerScalar>(x: T, coefficients: &[T]) -> (r: Result<T, EvalError>)
    requires
        eval_steps_in_range::<T>(x.as_int(), coeffs_as_int(coefficients@)),
    ensures
        (match strict_eval_spec(x.as_int(), coeffs_as_int(coefficients@)) {
            Ok(v) => r matches Ok(u) && u.as_int() == v,
            Err(e) => r == Result::<T, EvalError>::Err(e),
        }),
{
    if coefficients.len() == 0 {
        Err(EvalError::CardinalityTooLow)
    } else {
        let res: (T, Ghost<int>) = horner_reduce(x, coefficients);
        Ok(res.0)
    }
}

/// Evaluate a polynomial whose rank is fixed at compile time, with the same
/// meaning as `eval_any_rank_polynomial` on the same coefficients: the fixed
/// count is an API convenience, not a semantic variant.
pub fn eval_known_rank_polynomial<T: HornerScalar, const N: usize>(
    x: T,
    coefficients: &[T; N],
) -> (r: T)
    requires
        eval_steps_in_range::<T>(x.as_int(), coeffs_as_int(coefficients@)),
    ensures
        r.as_int() == lenient_eval_spec(x.as_int(), coeffs_as_int(coefficients@)),
{
    eval_any_rank_polynomial(x, coefficients.as_slice())
}

} // verus!
