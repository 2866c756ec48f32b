use horner::eval_any_rank_polynomial;
use horner::eval_known_rank_polynomial;
use horner::horner_reduce;
use horner::try_eval_polynomial;
use horner::EvalError;

#[test]
fn quadratic_at_five() {
    // 72x^2 + 81x + 99 at x = 5, against the traditional power-sum form.
    let coefficients: [i32; 3] = [72, 81, 99];
    let traditional: i32 = 72 * 5_i32.pow(2) + 81 * 5 + 99;
    assert_eq!(eval_any_rank_polynomial(5, &coefficients[..]), traditional);
    assert_eq!(eval_any_rank_polynomial(5, &coefficients[..]), 2304);
}

#[test]
fn degree_zero_at_nine_thousand() {
    // The constant "polynomial" 42 has the same value everywhere.
    assert_eq!(eval_any_rank_polynomial(9000, &[42][..]), 42);
}

#[test]
fn sparse_ninth_degree_at_ninety_nine() {
    // 23x^9 + 27x^7 - 5x^5 at x = 99 needs more than 64 bits.
    let coefficients: [i128; 10] = [23, 0, 27, 0, -5, 0, 0, 0, 0, 0];
    let traditional: i128 = 23 * 99_i128.pow(9) + 27 * 99_i128.pow(7) - 5 * 99_i128.pow(5);
    assert_eq!(eval_any_rank_polynomial(99_i128, &coefficients[..]), traditional);
}

#[test]
fn lenient_empty_is_zero() {
    let coefficients: [i32; 0] = [];
    assert_eq!(eval_any_rank_polynomial(222, &coefficients[..]), 0);
}

#[test]
fn known_rank_linear_root() {
    // x + 4 at x = -4.
    assert_eq!(eval_known_rank_polynomial(-4, &[1, 4]), 0);
}

#[test]
fn strict_rejects_empty() {
    let coefficients: [i64; 0] = [];
    assert_eq!(
        try_eval_polynomial(7_i64, &coefficients[..]),
        Err(EvalError::CardinalityTooLow)
    );
    assert_eq!(
        try_eval_polynomial(-3_i64, &coefficients[..]),
        Err(EvalError::CardinalityTooLow)
    );
}

#[test]
fn strict_agrees_with_lenient_when_non_empty() {
    let cases: [(i64, [i64; 3]); 4] = [
        (0, [1, 2, 3]),
        (-7, [5, 0, -11]),
        (13, [-2, 9, 4]),
        (1, [100, -100, 1]),
    ];
    for (x, coefficients) in cases {
        assert_eq!(
            try_eval_polynomial(x, &coefficients[..]),
            Ok(eval_any_rank_polynomial(x, &coefficients[..]))
        );
    }
}

#[test]
fn all_zero_sequences_agree() {
    for x in [-9_i64, 0, 1, 50] {
        let empty: [i64; 0] = [];
        let one: [i64; 1] = [0];
        let three: [i64; 3] = [0, 0, 0];
        assert_eq!(eval_any_rank_polynomial(x, &empty[..]), 0);
        assert_eq!(eval_any_rank_polynomial(x, &one[..]), 0);
        assert_eq!(eval_any_rank_polynomial(x, &three[..]), 0);
    }
}

#[test]
fn degree_zero_is_constant() {
    for x in [-1000_i32, -1, 0, 1, 1000] {
        for k in [-17_i32, 0, 3, 250] {
            assert_eq!(eval_any_rank_polynomial(x, &[k][..]), k);
        }
    }
}

#[test]
fn known_rank_agrees_with_any_rank() {
    let coefficients: [i64; 4] = [3, -1, 0, 7];
    for x in [-20_i64, -1, 0, 2, 31] {
        assert_eq!(
            eval_known_rank_polynomial(x, &coefficients),
            eval_any_rank_polynomial(x, &coefficients[..])
        );
    }
    let empty: [i64; 0] = [];
    assert_eq!(
        eval_known_rank_polynomial(5, &empty),
        eval_any_rank_polynomial(5, &empty[..])
    );
}

#[test]
fn kernel_matches_lenient_on_non_empty_input() {
    let coefficients: [i32; 3] = [2, -3, 4];
    let (value, _steps) = horner_reduce(10, &coefficients[..]);
    assert_eq!(value, 2 * 100 - 3 * 10 + 4);
    assert_eq!(value, eval_any_rank_polynomial(10, &coefficients[..]));
}

#[test]
fn unsigned_coefficients() {
    // 3x^2 + 5x + 7 at x = 11 over u64.
    let coefficients: [u64; 3] = [3, 5, 7];
    assert_eq!(eval_any_rank_polynomial(11_u64, &coefficients[..]), 425);
    assert_eq!(
        try_eval_polynomial(11_u64, &coefficients[..]),
        Ok(425_u64)
    );
}

#[test]
fn narrow_types() {
    // 2x + 3 at x = 4 fits in i8 and in u8.
    assert_eq!(eval_any_rank_polynomial(4_i8, &[2, 3][..]), 11);
    assert_eq!(eval_any_rank_polynomial(4_u8, &[2, 3][..]), 11);
    // x - 1 at x = -100 over i16.
    assert_eq!(eval_any_rank_polynomial(-100_i16, &[1, -1][..]), -101);
    // x^2 over u128 at a point beyond u64.
    let big: u128 = 1 << 60;
    assert_eq!(
        eval_any_rank_polynomial(big, &[1, 0, 0][..]),
        big * big
    );
}
