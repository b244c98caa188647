use vstd::prelude::*;
use crate::scalar::{obeys_zero_laws, Scalar};

verus! {

/// The whole number of 64 bits that is nearest to `value`.
pub open spec fn saturated(value: int) -> i64 {
    if value < i64::MIN {
        i64::MIN
    } else if value > i64::MAX {
        i64::MAX
    } else {
        value as i64
    }
}

/// The quotient of `a` by a `b` other than zero, rounded toward zero.
pub open spec fn quotient_toward_zero(a: int, b: int) -> int {
    if a == 0 {
        0
    } else if a > 0 && b > 0 {
        a / b
    } else if a < 0 && b < 0 {
        (a * -1) / (b * -1)
    } else if a < 0 {
        ((a * -1) / b) * -1
    } else {
        (a / (b * -1)) * -1
    }
}

/// The end of the range on the side of `a`: what a division of `a` by zero
/// saturates to.
pub open spec fn limit_toward(a: int) -> i64 {
    if a > 0 {
        i64::MAX
    } else if a < 0 {
        i64::MIN
    } else {
        0
    }
}

/// Whole numbers of 64 bits as scalars, exact as long as a result fits. A
/// result past either end of the range saturates at that end, a quotient is
/// rounded toward zero, and a division by zero saturates on the side of the
/// dividend.
impl Scalar for i64 {
    open spec fn from_int_spec(value: i128) -> i64 {
        saturated(value as int)
    }

    open spec fn add_spec(self, rhs: i64) -> i64 {
        saturated(self + rhs)
    }

    open spec fn sub_spec(self, rhs: i64) -> i64 {
        saturated(self - rhs)
    }

    open spec fn mul_spec(self, rhs: i64) -> i64 {
        saturated(self * rhs)
    }

    open spec fn div_spec(self, rhs: i64) -> i64 {
        if rhs == 0 {
            limit_toward(self as int)
        } else {
            saturated(quotient_toward_zero(self as int, rhs as int))
        }
    }

    fn from_int(value: i128) -> (r: i64) {
        if value < i64::MIN as i128 {
            i64::MIN
        } else if value > i64::MAX as i128 {
            i64::MAX
        } else {
            value as i64
        }
    }

    fn add(self, rhs: i64) -> (r: i64) {
        match self.checked_add(rhs) {
            Some(sum) => sum,
            None => if rhs > 0 {
                i64::MAX
            } else {
                i64::MIN
            },
        }
    }

    fn sub(self, rhs: i64) -> (r: i64) {
        match self.checked_sub(rhs) {
            Some(difference) => difference,
            None => if rhs < 0 {
                i64::MAX
            } else {
                i64::MIN
            },
        }
    }

    fn mul(self, rhs: i64) -> (r: i64) {
        match self.checked_mul(rhs) {
            Some(product) => product,
            None => {
                proof {
                    lemma_product_sign(self as int, rhs as int);
                }
                if (self > 0) == (rhs > 0) {
                    i64::MAX
                } else {
                    i64::MIN
                }
            },
        }
    }

    fn div(self, rhs: i64) -> (r: i64) {
        match self.checked_div(rhs) {
            Some(quotient) => quotient,
            None => if rhs != 0 || self > 0 {
                i64::MAX
            } else if self < 0 {
                i64::MIN
            } else {
                0
            },
        }
    }
}

/// A product of two numbers of one sign is positive, and one of two numbers
/// of different signs is negative.
proof fn lemma_product_sign(a: int, b: int)
    ensures
        a > 0 && b > 0 ==> a * b > 0,
        a < 0 && b < 0 ==> a * b > 0,
        a > 0 && b < 0 ==> a * b < 0,
        a < 0 && b > 0 ==> a * b < 0,
        a == 0 || b == 0 ==> a * b == 0,
{
    assert(a > 0 && b > 0 ==> a * b > 0) by (nonlinear_arith);
    assert(a < 0 && b < 0 ==> a * b > 0) by (nonlinear_arith);
    assert(a > 0 && b < 0 ==> a * b < 0) by (nonlinear_arith);
    assert(a < 0 && b > 0 ==> a * b < 0) by (nonlinear_arith);
    assert(a == 0 || b == 0 ==> a * b == 0) by (nonlinear_arith);
}

/// Whole numbers obey the laws of zero.
pub proof fn lemma_whole_numbers_obey_zero_laws()
    ensures
        obeys_zero_laws::<i64>(),
{
    assert forall|a: i64| #[trigger] 0i64.mul_spec(a) == 0i64 by {
        lemma_product_sign(0, a as int);
    }
    assert forall|a: i64| #[trigger] a.mul_spec(0i64) == 0i64 by {
        lemma_product_sign(a as int, 0);
    }
}

} // verus!
