use vstd::prelude::*;
use crate::linalg::{dot, dot_product, sum_from, sum_range};
use crate::optimization::traits::ParametricFunction;
use crate::scalar::{one, zero, Scalar};
use super::function_parameters::{check_size, DimensionMismatch, FunctionParameters, mismatch_of};

verus! {

/// The input with the constant one in front of it, so that one dot product
/// with the parameters adds the intercept to the weighted sum.
pub open spec fn augmented<S: Scalar>(input: Seq<S>) -> Seq<S> {
    seq![one::<S>()] + input
}

/// An affine function of `input_size` variables: an intercept, kept as
/// parameter 0, and one weight for each variable.
pub struct LinearFunction<S: Scalar> {
    input_size: usize,
    parameters: FunctionParameters<S>,
}

impl<S: Scalar> LinearFunction<S> {
    #[verifier::type_invariant]
    spec fn well_formed(&self) -> bool {
        self.parameters@.len() == self.input_size + 1
    }

    /// Puts the constant one in front of `input`.
    pub fn add_y_intercept(input: &Vec<S>) -> (r: Vec<S>)
        ensures
            r@ == augmented(input@),
    {
        let mut input_with_intercept: Vec<S> = Vec::new();
        input_with_intercept.push(S::from_int(1));
        let mut i: usize = 0;
        while i < input.len()
            invariant
                i <= input.len(),
                input_with_intercept@ == augmented(input@.take(i as int)),
            decreases input.len() - i,
        {
            input_with_intercept.push(input[i]);
            assert(input@.take(i + 1) == input@.take(i as int).push(input@[i as int]));
            i += 1;
        }
        assert(input@.take(i as int) == input@);
        input_with_intercept
    }

    /// Says whether an input of `size` components fits this function, and if
    /// not, reports both sizes.
    pub fn input_mismatch(&self, size: usize) -> (r: Option<DimensionMismatch>)
        ensures
            r == mismatch_of(size, self.input_size() as usize),
    {
        check_size(size, self.input_size)
    }
}

impl<S: Scalar> ParametricFunction for LinearFunction<S> {
    type Value = S;

    closed spec fn input_size(&self) -> nat {
        self.input_size as nat
    }

    closed spec fn parameters_spec(&self) -> Seq<S> {
        self.parameters@
    }

    open spec fn initial_parameters(input_size: nat) -> Seq<S> {
        Seq::new(input_size + 1, |i: int| zero::<S>())
    }

    open spec fn value(input_size: nat, parameters: Seq<S>, input: Seq<S>) -> S {
        dot(parameters, augmented(input))
    }

    open spec fn slope(input_size: nat, parameters: Seq<S>, input: Seq<S>) -> S {
        sum_range(parameters, 1, parameters.len() as int)
    }

    open spec fn gradients(input_size: nat, parameters: Seq<S>, input: Seq<S>) -> Seq<S> {
        augmented(input)
    }

    /// The affine function of `input_size` variables whose intercept and
    /// weights are all zero.
    fn new(input_size: usize) -> (r: Self) {
        let mut zeros: Vec<S> = Vec::with_capacity(input_size + 1);
        let mut i: usize = 0;
        while i < input_size + 1
            invariant
                input_size < usize::MAX,
                i <= input_size + 1,
                zeros@.len() == i,
                forall|j: int| 0 <= j < i ==> zeros@[j] == zero::<S>(),
            decreases input_size + 1 - i,
        {
            zeros.push(S::from_int(0));
            i += 1;
        }
        assert(zeros@ =~= Self::initial_parameters(input_size as nat));
        LinearFunction { input_size, parameters: FunctionParameters::new(zeros) }
    }

    /// The intercept, then the weights: one parameter more than the function
    /// has variables.
    fn parameters(&self) -> (r: &Vec<S>)
        ensures
            r@.len() == self.input_size() + 1,
    {
        proof {
            use_type_invariant(self);
        }
        self.parameters.vector()
    }

    /// Replaces intercept and weights by as many new ones.
    fn set_parameters(&mut self, new_parameters: Vec<S>) {
        proof {
            use_type_invariant(&*self);
        }
        self.parameters.set_vector(new_parameters)
    }

    /// The intercept plus the sum of each weight times its variable: the dot
    /// product of the parameters with the augmented input.
    fn f(&self, input: &Vec<S>) -> (r: S) {
        proof {
            use_type_invariant(self);
        }
        dot_product(self.parameters.vector(), &Self::add_y_intercept(input))
    }

    /// The sum of the weights, without the intercept: what the value gains
    /// when every variable grows by one.
    fn df(&self, input: &Vec<S>) -> (r: S) {
        sum_from(self.parameters.vector(), 1)
    }

    /// The gradients are the augmented input, whatever the parameters are.
    fn parameter_gradients(&self, input: &Vec<S>) -> (r: Vec<S>)
        ensures
            r@ == augmented(input@),
    {
        proof {
            use_type_invariant(self);
        }
        Self::add_y_intercept(input)
    }
}

} // verus!
