use vstd::prelude::*;
use crate::optimization::gradient_descent::steps_of;
use crate::optimization::least_squares::{fit_trace, fits, fitted_parameters, least_squares_fit, samples};
use crate::optimization::traits::ParametricFunction;
use crate::optimization::types::LinearFunction;
use crate::scalar::Scalar;
use crate::traits::Model;

verus! {

/// Linear regression by least squares: an affine function that is fitted to
/// a labeled dataset by gradient descent, and then predicts.
pub struct LinearRegressionModel<S: Scalar> {
    learning_rate: S,
    max_iterations: u32,
    linear_function: Option<LinearFunction<S>>,
}

impl<S: Scalar> LinearRegressionModel<S> {
    /// The step size of the gradient descent.
    pub closed spec fn learning_rate(&self) -> S {
        self.learning_rate
    }

    /// The bound of the iteration counter of the gradient descent.
    pub closed spec fn max_iterations(&self) -> u32 {
        self.max_iterations
    }

    /// The model has been fitted.
    pub closed spec fn is_fitted(&self) -> bool {
        self.linear_function is Some
    }

    /// The input size of the fitted function.
    pub closed spec fn input_size(&self) -> nat
        recommends
            self.is_fitted(),
    {
        self.linear_function->0.input_size()
    }

    /// The parameters of the fitted function.
    pub closed spec fn parameters(&self) -> Seq<S>
        recommends
            self.is_fitted(),
    {
        self.linear_function->0.parameters_spec()
    }

    /// The input size that a dataset calls for: that of its first sample, and
    /// zero where it has none.
    pub open spec fn input_size_of(data: Seq<(Seq<S>, S)>) -> nat {
        if data.len() == 0 {
            0
        } else {
            data[0].0.len()
        }
    }

    /// The fitted function, if the model has been fitted.
    pub fn linear_function(&self) -> (r: Option<&LinearFunction<S>>)
        ensures
            r is Some <==> self.is_fitted(),
            r is Some ==> r->0.input_size() == self.input_size() && r->0.parameters_spec()
                == self.parameters(),
    {
        match &self.linear_function {
            Some(function) => Some(function),
            None => None,
        }
    }

    /// The model is what `before` becomes by learning from `data`. Rate and
    /// iterations stay. A dataset that is empty or whose inputs have no
    /// components teaches nothing. Any other fits an affine function of the
    /// input size of the first sample by least squares, starting from
    /// parameters that are all zero.
    pub open spec fn is_fit_of(&self, before: &Self, data: Seq<(Seq<S>, S)>) -> bool {
        &&& self.learning_rate() == before.learning_rate()
        &&& self.max_iterations() == before.max_iterations()
        &&& Self::input_size_of(data) == 0 ==> *self == *before
        &&& Self::input_size_of(data) > 0 ==> {
            &&& self.is_fitted()
            &&& self.input_size() == Self::input_size_of(data)
            &&& self.parameters() == fitted_parameters::<LinearFunction<S>>(
                Self::input_size_of(data),
                LinearFunction::<S>::initial_parameters(Self::input_size_of(data)),
                data,
                before.learning_rate(),
                steps_of(before.max_iterations()),
            )
        }
    }

    /// The errors that learning from `data` records: none where the dataset
    /// teaches nothing, else the trace of the least-squares fit.
    pub open spec fn trace_of(&self, data: Seq<(Seq<S>, S)>) -> Seq<S> {
        if Self::input_size_of(data) == 0 {
            Seq::empty()
        } else {
            fit_trace::<LinearFunction<S>>(
                Self::input_size_of(data),
                LinearFunction::<S>::initial_parameters(Self::input_size_of(data)),
                data,
                self.learning_rate(),
                steps_of(self.max_iterations()),
            )
        }
    }

    /// Learns from a labeled dataset, as `fit_supervised_dataset` does, and
    /// returns the error before each step of the fit.
    pub fn fit(&mut self, dataset: &Vec<(Vec<S>, S)>) -> (errors: Vec<S>)
        requires
            old(self).accepts_supervised(dataset),
        ensures
            final(self).is_fit_of(old(self), samples(dataset)),
            errors@ == old(self).trace_of(samples(dataset)),
    {
        let input_size: usize = if dataset.len() == 0 {
            0
        } else {
            dataset[0].0.len()
        };
        assert(input_size == Self::input_size_of(samples(dataset)));
        if input_size > 0 {
            let mut function = LinearFunction::new(input_size);
            let errors = least_squares_fit(&mut function, dataset, self.learning_rate, self.max_iterations);
            self.linear_function = Some(function);
            errors
        } else {
            Vec::new()
        }
    }

    pub fn new(learning_rate: S, max_iterations: u32) -> (r: LinearRegressionModel<S>)
        ensures
            r.learning_rate() == learning_rate,
            r.max_iterations() == max_iterations,
            !r.is_fitted(),
    {
        LinearRegressionModel { learning_rate, max_iterations, linear_function: None }
    }
}

impl<S: Scalar> Model<Vec<S>, S> for LinearRegressionModel<S> {
    /// Where the fit takes a step, every input of the dataset has the size
    /// of the first.
    open spec fn accepts_supervised(&self, dataset: &Vec<(Vec<S>, S)>) -> bool {
        &&& self.max_iterations() > 1 ==> fits(samples(dataset), Self::input_size_of(samples(dataset)))
        &&& Self::input_size_of(samples(dataset)) < usize::MAX
    }

    /// Linear regression learns from labeled data only.
    open spec fn accepts_unsupervised(&self, dataset: &Vec<Vec<S>>) -> bool {
        false
    }

    /// The model has been fitted, and the input has the size of the inputs
    /// that it was fitted to.
    open spec fn predicts(&self, data: &Vec<S>) -> bool {
        self.is_fitted() && data@.len() == self.input_size()
    }

    open spec fn prediction(&self, data: &Vec<S>) -> S {
        LinearFunction::<S>::value(self.input_size(), self.parameters(), data@)
    }

    fn fit_supervised_dataset(&mut self, dataset: &Vec<(Vec<S>, S)>)
        ensures
            final(self).is_fit_of(old(self), samples(dataset)),
    {
        self.fit(dataset);
    }

    fn fit_unsupervied_dataset(&mut self, dataset: &Vec<Vec<S>>) {
    }

    fn predict(&self, data: &Vec<S>) -> (r: S) {
        match &self.linear_function {
            Some(function) => function.f(data),
            None => unreached(),
        }
    }
}

} // verus!
