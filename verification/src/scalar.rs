pub mod whole;

use vstd::prelude::*;

verus! {

/// The numbers that the optimizer computes with.
///
/// Every operation is total and is a function of its operands: the executable
/// method returns exactly what the specification function of the same name
/// denotes. Nothing else is asked of an implementor, so a type whose
/// arithmetic rounds (IEEE doubles, say) qualifies as well as an exact one.
/// The algebraic facts that some theorems need are stated apart, in
/// [`obeys_zero_laws`].
pub trait Scalar: Sized + Copy {
    /// The scalar that stands for the whole number `value`.
    spec fn from_int_spec(value: i128) -> Self;

    /// `self + rhs`.
    spec fn add_spec(self, rhs: Self) -> Self;

    /// `self - rhs`.
    spec fn sub_spec(self, rhs: Self) -> Self;

    /// `self * rhs`.
    spec fn mul_spec(self, rhs: Self) -> Self;

    /// `self / rhs`.
    spec fn div_spec(self, rhs: Self) -> Self;

    fn from_int(value: i128) -> (r: Self)
        ensures
            r == Self::from_int_spec(value),
    ;

    fn add(self, rhs: Self) -> (r: Self)
        ensures
            r == self.add_spec(rhs),
    ;

    fn sub(self, rhs: Self) -> (r: Self)
        ensures
            r == self.sub_spec(rhs),
    ;

    fn mul(self, rhs: Self) -> (r: Self)
        ensures
            r == self.mul_spec(rhs),
    ;

    fn div(self, rhs: Self) -> (r: Self)
        ensures
            r == self.div_spec(rhs),
    ;
}

/// The scalar zero.
pub open spec fn zero<S: Scalar>() -> S {
    S::from_int_spec(0)
}

/// The scalar one.
pub open spec fn one<S: Scalar>() -> S {
    S::from_int_spec(1)
}

/// The square of `a`.
pub open spec fn square<S: Scalar>(a: S) -> S {
    a.mul_spec(a)
}

/// What zero does in a ring, as far as the theorems on exact fits need it:
/// a number minus itself is zero, a product with zero is zero, zero plus zero
/// is zero, and zero divided by a positive count is zero.
pub open spec fn obeys_zero_laws<S: Scalar>() -> bool {
    &&& forall|a: S| #[trigger] a.sub_spec(a) == zero::<S>()
    &&& forall|a: S| #[trigger] zero::<S>().mul_spec(a) == zero::<S>()
    &&& forall|a: S| #[trigger] a.mul_spec(zero::<S>()) == zero::<S>()
    &&& zero::<S>().add_spec(zero::<S>()) == zero::<S>()
    &&& forall|n: i128| n > 0 ==> zero::<S>().div_spec(#[trigger] S::from_int_spec(n)) == zero::<S>()
}

} // verus!
