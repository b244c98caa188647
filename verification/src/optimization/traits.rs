use vstd::prelude::*;
use crate::scalar::Scalar;

verus! {

/// A scalar function of an input vector that a vector of parameters steers.
///
/// Such a function is known by its input size and its parameters: what it
/// returns at an input is a function of these three alone.
pub trait ParametricFunction: Sized {
    /// The numbers that the function takes and returns.
    type Value: Scalar;

    /// The number of components of every input.
    spec fn input_size(&self) -> nat;

    /// The current parameters.
    spec fn parameters_spec(&self) -> Seq<Self::Value>;

    /// The parameters of a function of this kind that was just made.
    spec fn initial_parameters(input_size: nat) -> Seq<Self::Value>;

    /// The value at `input` of the function with these parameters.
    spec fn value(input_size: nat, parameters: Seq<Self::Value>, input: Seq<Self::Value>) -> Self::Value;

    /// The derivative at `input` of the function with these parameters.
    spec fn slope(input_size: nat, parameters: Seq<Self::Value>, input: Seq<Self::Value>) -> Self::Value;

    /// The partial derivatives of the value at `input` by each parameter.
    spec fn gradients(input_size: nat, parameters: Seq<Self::Value>, input: Seq<Self::Value>) -> Seq<Self::Value>;

    fn new(input_size: usize) -> (r: Self)
        requires
            input_size < usize::MAX,
        ensures
            r.input_size() == input_size,
            r.parameters_spec() == Self::initial_parameters(input_size as nat),
    ;

    fn parameters(&self) -> (r: &Vec<Self::Value>)
        ensures
            r@ == self.parameters_spec(),
    ;

    fn set_parameters(&mut self, new_parameters: Vec<Self::Value>)
        requires
            new_parameters@.len() == old(self).parameters_spec().len(),
        ensures
            final(self).parameters_spec() == new_parameters@,
            final(self).input_size() == old(self).input_size(),
    ;

    fn f(&self, input: &Vec<Self::Value>) -> (r: Self::Value)
        requires
            input@.len() == self.input_size(),
        ensures
            r == Self::value(self.input_size(), self.parameters_spec(), input@),
    ;

    fn df(&self, input: &Vec<Self::Value>) -> (r: Self::Value)
        requires
            input@.len() == self.input_size(),
        ensures
            r == Self::slope(self.input_size(), self.parameters_spec(), input@),
    ;

    fn parameter_gradients(&self, input: &Vec<Self::Value>) -> (r: Vec<Self::Value>)
        requires
            input@.len() == self.input_size(),
        ensures
            r@ == Self::gradients(self.input_size(), self.parameters_spec(), input@),
            r@.len() == self.parameters_spec().len(),
    ;
}

} // verus!
