//! The capability a coefficient type must offer: a zero value and a fused
//! multiply-accumulate step, each specified against the value's reading as a
//! mathematical integer.

use vstd::prelude::*;

verus! {

/// Both machine-range conditions a fused multiply-accumulate step
/// `acc * x + k` needs: the intermediate product and the final sum lie within
/// the representable range of `T`.
pub open spec fn mul_add_in_range<T: HornerScalar>(acc: int, x: int, k: int) -> bool {
    &&& T::min_val() <= acc * x <= T::max_val()
    &&& T::min_val() <= acc * x + k <= T::max_val()
}

/// A scalar that can serve as an evaluation point and as a coefficient.
///
/// `as_int` reads a value as the mathematical integer it stands for, and the
/// two executable operations promise their exact integer meaning: `zero_value`
/// is the additive identity and `mul_add` is one fused multiply-accumulate
/// step.  No multiplicative identity is asked for.
pub trait HornerScalar: Sized + Copy {
    /// The mathematical integer this value stands for.
    spec fn as_int(self) -> int;

    /// The smallest integer the type can hold.
    spec fn min_val() -> int;

    /// The largest integer the type can hold.
    spec fn max_val() -> int;

    /// Every value of the type lies between `min_val` and `max_val`.
    proof fn lemma_in_range(self)
        ensures
            Self::min_val() <= self.as_int() <= Self::max_val(),
    ;

    /// The additive identity.
    fn zero_value() -> (r: Self)
        ensures
            r.as_int() == 0,
    ;

    /// One fused multiply-accumulate step: `self * x + k`.
    fn mul_add(self, x: Self, k: Self) -> (r: Self)
        requires
            Self::min_val() <= self.as_int() * x.as_int() <= Self::max_val(),
            Self::min_val() <= self.as_int() * x.as_int() + k.as_int() <= Self::max_val(),
        ensures
            r.as_int() == self.as_int() * x.as_int() + k.as_int(),
    ;
}

impl HornerScalar for i64 {
    open spec fn as_int(self) -> int {
        self as int
    }

    open spec fn min_val() -> int {
        i64::MIN as int
    }

    open spec fn max_val() -> int {
        i64::MAX as int
    }

    proof fn lemma_in_range(self) {
    }

    fn zero_value() -> (r: Self) {
        0i64
    }

    fn mul_add(self, x: Self, k: Self) -> (r: Self) {
        self * x + k
    }
}

impl HornerScalar for i8 {
    open spec fn as_int(self) -> int {
        self as int
    }

    open spec fn min_val() -> int {
        i8::MIN as int
    }

    open spec fn max_val() -> int {
        i8::MAX as int
    }

    proof fn lemma_in_range(self) {
    }

    fn zero_value() -> (r: Self) {
        0i8
    }

    fn mul_add(self, x: Self, k: Self) -> (r: Self) {
        self * x + k
    }
}

impl HornerScalar for i16 {
    open spec fn as_int(self) -> int {
        self as int
    }

    open spec fn min_val() -> int {
        i16::MIN as int
    }

    open spec fn max_val() -> int {
        i16::MAX as int
    }

    proof fn lemma_in_range(self) {
    }

    fn zero_value() -> (r: Self) {
        0i16
    }

    fn mul_add(self, x: Self, k: Self) -> (r: Self) {
        self * x + k
    }
}

impl HornerScalar for i32 {
    open spec fn as_int(self) -> int {
        self as int
    }

    open spec fn min_val() -> int {
        i32::MIN as int
    }

    open spec fn max_val() -> int {
        i32::MAX as int
    }

    proof fn lemma_in_range(self) {
    }

    fn zero_value() -> (r: Self) {
        0i32
    }

    fn mul_add(self, x: Self, k: Self) -> (r: Self) {
        self * x + k
    }
}

impl HornerScalar for i128 {
    open spec fn as_int(self) -> int {
        self as int
    }

    open spec fn min_val() -> int {
        i128::MIN as int
    }

    open spec fn max_val() -> int {
        i128::MAX as int
    }

    proof fn lemma_in_range(self) {
    }

    fn zero_value() -> (r: Self) {
        0i128
    }

    fn mul_add(self, x: Self, k: Self) -> (r: Self) {
        self * x + k
    }
}

impl HornerScalar for u8 {
    open spec fn as_int(self) -> int {
        self as int
    }

    open spec fn min_val() -> int {
        u8::MIN as int
    }

    open spec fn max_val() -> int {
        u8::MAX as int
    }

    proof fn lemma_in_range(self) {
    }

    fn zero_value() -> (r: Self) {
        0u8
    }

    fn mul_add(self, x: Self, k: Self) -> (r: Self) {
        self * x + k
    }
}

impl HornerScalar for u16 {
    open spec fn as_int(self) -> int {
        self as int
    }

    open spec fn min_val() -> int {
        u16::MIN as int
    }

    open spec fn max_val() -> int {
        u16::MAX as int
    }

    proof fn lemma_in_range(self) {
    }

    fn zero_value() -> (r: Self) {
        0u16
    }

    fn mul_add(self, x: Self, k: Self) -> (r: Self) {
        self * x + k
    }
}

impl HornerScalar for u32 {
    open spec fn as_int(self) -> int {
        self as int
    }

    open spec fn min_val() -> int {
        u32::MIN as int
    }

    open spec fn max_val() -> int {
        u32::MAX as int
    }

    proof fn lemma_in_range(self) {
    }

    fn zero_value() -> (r: Self) {
        0u32
    }

    fn mul_add(self, x: Self, k: Self) -> (r: Self) {
        self * x + k
    }
}

impl HornerScalar for u64 {
    open spec fn as_int(self) -> int {
        self as int
    }

    open spec fn min_val() -> int {
        u64::MIN as int
    }

    open spec fn max_val() -> int {
        u64::MAX as int
    }

    proof fn lemma_in_range(self) {
    }

    fn zero_value() -> (r: Self) {
        0u64
    }

    fn mul_add(self, x: Self, k: Self) -> (r: Self) {
        self * x + k
    }
}

impl HornerScalar for u128 {
    open spec fn as_int(self) -> int {
        self as int
    }

    open spec fn min_val() -> int {
        u128::MIN as int
    }

    open spec fn max_val() -> int {
        u128::MAX as int
    }

    proof fn lemma_in_range(self) {
    }

    fn zero_value() -> (r: Self) {
        0u128
    }

    fn mul_add(self, x: Self, k: Self) -> (r: Self) {
        self * x + k
    }
}

} // verus!
