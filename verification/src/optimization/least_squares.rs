use vstd::prelude::*;
use crate::linalg::descend;
use crate::optimization::gradient_descent::{gradient_descent_fit, is_descent, is_step, steps_of};
use crate::optimization::traits::ParametricFunction;
use crate::optimization::types::function_parameters::DimensionMismatch;
use crate::scalar::{obeys_zero_laws, square, zero, Scalar};

verus! {

/// A labeled dataset as mathematics sees it: each sample is an input and its
/// label.
pub open spec fn samples<S>(dataset: &Vec<(Vec<S>, S)>) -> Seq<(Seq<S>, S)> {
    dataset@.map_values(|sample: (Vec<S>, S)| (sample.0@, sample.1))
}

/// Every input of the dataset has `input_size` components.
pub open spec fn fits<S>(data: Seq<(Seq<S>, S)>, input_size: nat) -> bool {
    forall|i: int| 0 <= i < data.len() ==> (#[trigger] data[i]).0.len() == input_size
}

/// Looks for the first sample whose input has another size than
/// `input_size`, and reports both sizes. There is none exactly where the
/// dataset fits.
pub fn dataset_mismatch<S>(dataset: &Vec<(Vec<S>, S)>, input_size: usize) -> (r: Option<DimensionMismatch>)
    ensures
        r is None <==> fits(samples(dataset), input_size as nat),
        r is Some ==> exists|i: int|
            {
                &&& 0 <= i < dataset@.len()
                &&& fits(samples(dataset).take(i), input_size as nat)
                &&& (#[trigger] samples(dataset)[i]).0.len() != input_size
                &&& r == Some(
                    (DimensionMismatch { actual: samples(dataset)[i].0.len() as usize, expected: input_size }),
                )
            },
{
    let mut i: usize = 0;
    while i < dataset.len()
        invariant
            i <= dataset.len(),
            fits(samples(dataset).take(i as int), input_size as nat),
        decreases dataset.len() - i,
    {
        let actual = dataset[i].0.len();
        assert(samples(dataset)[i as int].0 == dataset@[i as int].0@);
        if actual != input_size {
            return Some(DimensionMismatch { actual, expected: input_size });
        }
        assert forall|j: int| 0 <= j < i + 1 implies (#[trigger] samples(dataset).take(i + 1)[j]).0.len()
            == input_size by {
            if j < i {
                assert(samples(dataset).take(i as int)[j] == samples(dataset)[j]);
            }
        }
        i += 1;
    }
    assert(samples(dataset).take(i as int) == samples(dataset));
    None
}

/// The signed residual `label - f(input)` of the function with these
/// parameters.
pub open spec fn residual<F: ParametricFunction>(
    input_size: nat,
    parameters: Seq<F::Value>,
    input: Seq<F::Value>,
    label: F::Value,
) -> F::Value {
    label.sub_spec(F::value(input_size, parameters, input))
}

/// The squared error `(label - f(input))^2`.
pub open spec fn squared_error<F: ParametricFunction>(
    input_size: nat,
    parameters: Seq<F::Value>,
    input: Seq<F::Value>,
    label: F::Value,
) -> F::Value {
    square(residual::<F>(input_size, parameters, input, label))
}

/// The squared errors of the first `count` samples, added up from zero in
/// the order of the samples.
pub open spec fn squared_error_sum<F: ParametricFunction>(
    input_size: nat,
    parameters: Seq<F::Value>,
    data: Seq<(Seq<F::Value>, F::Value)>,
    count: nat,
) -> F::Value
    decreases count,
{
    if count == 0 {
        zero::<F::Value>()
    } else {
        squared_error_sum::<F>(input_size, parameters, data, (count - 1) as nat).add_spec(
            squared_error::<F>(input_size, parameters, data[count - 1].0, data[count - 1].1),
        )
    }
}

/// The mean of the squared errors over the dataset: their sum divided by the
/// number of samples.
pub open spec fn mean_squared_error<F: ParametricFunction>(
    input_size: nat,
    parameters: Seq<F::Value>,
    data: Seq<(Seq<F::Value>, F::Value)>,
) -> F::Value {
    squared_error_sum::<F>(input_size, parameters, data, data.len()).div_spec(
        F::Value::from_int_spec(data.len() as i128),
    )
}

/// The factor `-2 / n` that the derivative of a mean of `n` squares carries.
pub open spec fn gradient_factor<S: Scalar>(n: nat) -> S {
    S::from_int_spec(-2i128).div_spec(S::from_int_spec(n as i128))
}

/// What one sample adds to component `j` of the gradient:
/// `(-2 / n) * (residual * d f / d parameter_j)`.
pub open spec fn gradient_term<F: ParametricFunction>(
    input_size: nat,
    parameters: Seq<F::Value>,
    data: Seq<(Seq<F::Value>, F::Value)>,
    sample: int,
    j: int,
) -> F::Value {
    gradient_factor::<F::Value>(data.len()).mul_spec(
        residual::<F>(input_size, parameters, data[sample].0, data[sample].1).mul_spec(
            F::gradients(input_size, parameters, data[sample].0)[j],
        ),
    )
}

/// The gradient of the mean squared error by the parameters, as far as the
/// first `count` samples make it up: for each parameter the terms of these
/// samples, added up from zero in the order of the samples.
pub open spec fn error_gradients_prefix<F: ParametricFunction>(
    input_size: nat,
    parameters: Seq<F::Value>,
    data: Seq<(Seq<F::Value>, F::Value)>,
    count: nat,
) -> Seq<F::Value>
    decreases count,
{
    if count == 0 {
        Seq::new(parameters.len(), |j: int| zero::<F::Value>())
    } else {
        let before = error_gradients_prefix::<F>(input_size, parameters, data, (count - 1) as nat);
        Seq::new(
            parameters.len(),
            |j: int| before[j].add_spec(gradient_term::<F>(input_size, parameters, data, count - 1, j)),
        )
    }
}

/// The gradient of the mean squared error over the whole dataset.
pub open spec fn error_gradients<F: ParametricFunction>(
    input_size: nat,
    parameters: Seq<F::Value>,
    data: Seq<(Seq<F::Value>, F::Value)>,
) -> Seq<F::Value> {
    error_gradients_prefix::<F>(input_size, parameters, data, data.len())
}

/// The squared error of `function` at one sample.
pub fn compute_error<F: ParametricFunction>(function: &F, input: &Vec<F::Value>, y: F::Value) -> (r: F::Value)
    requires
        input@.len() == function.input_size(),
    ensures
        r == squared_error::<F>(function.input_size(), function.parameters_spec(), input@, y),
{
    let difference = y.sub(function.f(input));
    difference.mul(difference)
}

/// The mean squared error of `function` over a dataset that is not empty.
pub fn compute_error_average<F: ParametricFunction>(function: &F, dataset: &Vec<(Vec<F::Value>, F::Value)>) -> (r: F::Value)
    requires
        dataset@.len() > 0,
        fits(samples(dataset), function.input_size()),
    ensures
        r == mean_squared_error::<F>(function.input_size(), function.parameters_spec(), samples(dataset)),
{
    let n = F::Value::from_int(dataset.len() as i128);
    let mut errors_sum = F::Value::from_int(0);
    let mut i: usize = 0;
    while i < dataset.len()
        invariant
            i <= dataset.len(),
            fits(samples(dataset), function.input_size()),
            errors_sum == squared_error_sum::<F>(
                function.input_size(),
                function.parameters_spec(),
                samples(dataset),
                i as nat,
            ),
        decreases dataset.len() - i,
    {
        let sample = &dataset[i];
        assert(samples(dataset)[i as int] == (sample.0@, sample.1));
        errors_sum = errors_sum.add(compute_error(function, &sample.0, sample.1));
        i += 1;
    }
    errors_sum.div(n)
}

/// The gradient of the mean squared error of `function` over a dataset, one
/// component for each parameter.
pub fn compute_error_gradients<F: ParametricFunction>(function: &F, dataset: &Vec<(Vec<F::Value>, F::Value)>) -> (r: Vec<F::Value>)
    requires
        fits(samples(dataset), function.input_size()),
    ensures
        r@ == error_gradients::<F>(function.input_size(), function.parameters_spec(), samples(dataset)),
        r@.len() == function.parameters_spec().len(),
{
    let ghost input_size = function.input_size();
    let ghost parameters = function.parameters_spec();
    let ghost data = samples(dataset);
    let count = function.parameters().len();
    let mut gradients: Vec<F::Value> = Vec::new();
    let mut j: usize = 0;
    while j < count
        invariant
            j <= count,
            gradients@.len() == j,
            forall|k: int| 0 <= k < j ==> gradients@[k] == zero::<F::Value>(),
        decreases count - j,
    {
        gradients.push(F::Value::from_int(0));
        j += 1;
    }
    assert(gradients@ =~= error_gradients_prefix::<F>(input_size, parameters, data, 0));
    let mut i: usize = 0;
    while i < dataset.len()
        invariant
            i <= dataset.len(),
            count == parameters.len(),
            input_size == function.input_size(),
            parameters == function.parameters_spec(),
            data == samples(dataset),
            fits(data, input_size),
            gradients@ == error_gradients_prefix::<F>(input_size, parameters, data, i as nat),
        decreases dataset.len() - i,
    {
        let sample = &dataset[i];
        assert(data[i as int] == (sample.0@, sample.1));
        let factor = F::Value::from_int(-2).div(F::Value::from_int(dataset.len() as i128));
        let error = sample.1.sub(function.f(&sample.0));
        let parameter_gradients = function.parameter_gradients(&sample.0);
        let ghost before = gradients@;
        let mut next: Vec<F::Value> = Vec::new();
        let mut j: usize = 0;
        while j < count
            invariant
                j <= count,
                count == parameters.len(),
                gradients@ == before,
                before.len() == count,
                parameter_gradients@.len() == count,
                next@.len() == j,
                forall|k: int| 0 <= k < j ==> next@[k] == before[k].add_spec(
                    factor.mul_spec(error.mul_spec(parameter_gradients@[k])),
                ),
            decreases count - j,
        {
            next.push(gradients[j].add(factor.mul(error.mul(parameter_gradients[j]))));
            j += 1;
        }
        assert(next@ =~= error_gradients_prefix::<F>(input_size, parameters, data, (i + 1) as nat));
        gradients = next;
        i += 1;
    }
    gradients
}

/// Every label of the dataset is the value of the function at its input.
pub open spec fn is_exact<F: ParametricFunction>(
    input_size: nat,
    parameters: Seq<F::Value>,
    data: Seq<(Seq<F::Value>, F::Value)>,
) -> bool {
    forall|i: int| 0 <= i < data.len() ==> (#[trigger] data[i]).1 == F::value(input_size, parameters, data[i].0)
}

/// Where every label is the value of the function at its input, the mean
/// squared error is zero.
pub proof fn lemma_exact_fit_has_no_error<F: ParametricFunction>(
    input_size: nat,
    parameters: Seq<F::Value>,
    data: Seq<(Seq<F::Value>, F::Value)>,
)
    requires
        obeys_zero_laws::<F::Value>(),
        0 < data.len() <= usize::MAX,
        is_exact::<F>(input_size, parameters, data),
    ensures
        mean_squared_error::<F>(input_size, parameters, data) == zero::<F::Value>(),
{
    lemma_exact_fit_sums_to_zero::<F>(input_size, parameters, data, data.len());
}

/// Where every label is the value of the function at its input, the squared
/// errors of any number of samples add up to zero.
proof fn lemma_exact_fit_sums_to_zero<F: ParametricFunction>(
    input_size: nat,
    parameters: Seq<F::Value>,
    data: Seq<(Seq<F::Value>, F::Value)>,
    count: nat,
)
    requires
        obeys_zero_laws::<F::Value>(),
        count <= data.len(),
        is_exact::<F>(input_size, parameters, data),
    ensures
        squared_error_sum::<F>(input_size, parameters, data, count) == zero::<F::Value>(),
    decreases count,
{
    if count > 0 {
        lemma_exact_fit_sums_to_zero::<F>(input_size, parameters, data, (count - 1) as nat);
        let sample = data[count - 1];
        assert(residual::<F>(input_size, parameters, sample.0, sample.1) == zero::<F::Value>());
    }
}

/// Where every label is the value of the function at its input, every
/// component of the gradient of the mean squared error is zero.
pub proof fn lemma_exact_fit_has_no_gradient<F: ParametricFunction>(
    input_size: nat,
    parameters: Seq<F::Value>,
    data: Seq<(Seq<F::Value>, F::Value)>,
)
    requires
        obeys_zero_laws::<F::Value>(),
        is_exact::<F>(input_size, parameters, data),
    ensures
        error_gradients::<F>(input_size, parameters, data) == Seq::new(
            parameters.len(),
            |j: int| zero::<F::Value>(),
        ),
{
    lemma_exact_fit_keeps_gradient_zero::<F>(input_size, parameters, data, data.len());
}

/// Where every label is the value of the function at its input, the gradient
/// that any number of samples make up is zero in every component.
proof fn lemma_exact_fit_keeps_gradient_zero<F: ParametricFunction>(
    input_size: nat,
    parameters: Seq<F::Value>,
    data: Seq<(Seq<F::Value>, F::Value)>,
    count: nat,
)
    requires
        obeys_zero_laws::<F::Value>(),
        count <= data.len(),
        is_exact::<F>(input_size, parameters, data),
    ensures
        error_gradients_prefix::<F>(input_size, parameters, data, count) == Seq::new(
            parameters.len(),
            |j: int| zero::<F::Value>(),
        ),
    decreases count,
{
    let zeros = Seq::new(parameters.len(), |j: int| zero::<F::Value>());
    if count > 0 {
        lemma_exact_fit_keeps_gradient_zero::<F>(input_size, parameters, data, (count - 1) as nat);
        let sample = data[count - 1];
        assert(residual::<F>(input_size, parameters, sample.0, sample.1) == zero::<F::Value>());
        assert forall|j: int| 0 <= j < parameters.len() implies #[trigger] gradient_term::<F>(
            input_size,
            parameters,
            data,
            count - 1,
            j,
        ) == zero::<F::Value>() by {}
    }
    assert(error_gradients_prefix::<F>(input_size, parameters, data, count) =~= zeros);
}

/// The parameters after `steps` steps of gradient descent on the mean squared
/// error: each step replaces the parameters by
/// `parameters - gradients * learning_rate`, with the gradients taken at the
/// parameters that it replaces.
pub open spec fn fitted_parameters<F: ParametricFunction>(
    input_size: nat,
    parameters: Seq<F::Value>,
    data: Seq<(Seq<F::Value>, F::Value)>,
    learning_rate: F::Value,
    steps: nat,
) -> Seq<F::Value>
    decreases steps,
{
    if steps == 0 {
        parameters
    } else {
        let before = fitted_parameters::<F>(input_size, parameters, data, learning_rate, (steps - 1) as nat);
        descend(before, error_gradients::<F>(input_size, before, data), learning_rate)
    }
}

/// The errors that `steps` steps of gradient descent record: entry `i` is the
/// mean squared error at the parameters that step `i` starts from.
pub open spec fn fit_trace<F: ParametricFunction>(
    input_size: nat,
    parameters: Seq<F::Value>,
    data: Seq<(Seq<F::Value>, F::Value)>,
    learning_rate: F::Value,
    steps: nat,
) -> Seq<F::Value> {
    Seq::new(
        steps,
        |i: int|
            mean_squared_error::<F>(
                input_size,
                fitted_parameters::<F>(input_size, parameters, data, learning_rate, i as nat),
                data,
            ),
    )
}

/// A run of the driver whose error is the mean squared error and whose
/// gradients are those of that error ends at the fitted parameters and leaves
/// the trace of the fit.
pub proof fn lemma_descent_is_fit<F, E, G>(
    start: F,
    end: F,
    dataset: &Vec<(Vec<F::Value>, F::Value)>,
    compute_error_average: &E,
    compute_error_gradients: &G,
    learning_rate: F::Value,
    trace: Seq<F::Value>,
) where
    F: ParametricFunction,
    E: Fn(&F, &Vec<(Vec<F::Value>, F::Value)>) -> F::Value,
    G: Fn(&F, &Vec<(Vec<F::Value>, F::Value)>) -> Vec<F::Value>,

    requires
        is_descent(start, end, dataset, compute_error_average, compute_error_gradients, learning_rate, trace),
        forall|f: F, error: F::Value| #[trigger]
            compute_error_average.ensures((&f, dataset), error) ==> error == mean_squared_error::<F>(
                f.input_size(),
                f.parameters_spec(),
                samples(dataset),
            ),
        forall|f: F, gradients: Vec<F::Value>| #[trigger]
            compute_error_gradients.ensures((&f, dataset), gradients) ==> gradients@ == error_gradients::<F>(
                f.input_size(),
                f.parameters_spec(),
                samples(dataset),
            ),
    ensures
        end.input_size() == start.input_size(),
        end.parameters_spec() == fitted_parameters::<F>(
            start.input_size(),
            start.parameters_spec(),
            samples(dataset),
            learning_rate,
            trace.len(),
        ),
        trace == fit_trace::<F>(
            start.input_size(),
            start.parameters_spec(),
            samples(dataset),
            learning_rate,
            trace.len(),
        ),
    decreases trace.len(),
{
    let input_size = start.input_size();
    let parameters = start.parameters_spec();
    let data = samples(dataset);
    if trace.len() == 0 {
        assert(trace =~= fit_trace::<F>(input_size, parameters, data, learning_rate, 0));
    } else {
        let middle = choose|middle: F|
            is_descent(
                start,
                middle,
                dataset,
                compute_error_average,
                compute_error_gradients,
                learning_rate,
                trace.drop_last(),
            ) && #[trigger] is_step(
                middle,
                end,
                dataset,
                compute_error_average,
                compute_error_gradients,
                learning_rate,
                trace.last(),
            );
        lemma_descent_is_fit(
            start,
            middle,
            dataset,
            compute_error_average,
            compute_error_gradients,
            learning_rate,
            trace.drop_last(),
        );
        let shorter = trace.drop_last();
        let fit = fit_trace::<F>(input_size, parameters, data, learning_rate, trace.len());
        assert(compute_error_average.ensures((&middle, dataset), trace.last()));
        assert(trace.last() == fit[trace.len() - 1]);
        assert forall|i: int| 0 <= i < trace.len() implies trace[i] == fit[i] by {
            if i < shorter.len() {
                assert(trace[i] == shorter[i]);
            }
        }
        assert(trace =~= fit);
    }
}

/// Fits `function` to the dataset by gradient descent on the mean squared
/// error, and returns the error before each step.
pub fn least_squares_fit<F: ParametricFunction>(
    function: &mut F,
    dataset: &Vec<(Vec<F::Value>, F::Value)>,
    learning_rate: F::Value,
    max_iterations: u32,
) -> (errors: Vec<F::Value>)
    requires
        max_iterations > 1 ==> dataset@.len() > 0 && fits(samples(dataset), old(function).input_size()),
    ensures
        errors@.len() == steps_of(max_iterations),
        final(function).input_size() == old(function).input_size(),
        final(function).parameters_spec() == fitted_parameters::<F>(
            old(function).input_size(),
            old(function).parameters_spec(),
            samples(dataset),
            learning_rate,
            steps_of(max_iterations),
        ),
        errors@ == fit_trace::<F>(
            old(function).input_size(),
            old(function).parameters_spec(),
            samples(dataset),
            learning_rate,
            steps_of(max_iterations),
        ),
{
    let ghost start = *function;
    let errors = gradient_descent_fit(
        dataset,
        function,
        &compute_error_average,
        &compute_error_gradients,
        learning_rate,
        max_iterations,
    );
    proof {
        lemma_descent_is_fit(
            start,
            *function,
            dataset,
            &compute_error_average::<F>,
            &compute_error_gradients::<F>,
            learning_rate,
            errors@,
        );
    }
    errors
}

} // verus!
