use vstd::prelude::*;
use crate::linalg::{descend, descend_step};
use crate::optimization::traits::ParametricFunction;

verus! {

/// The number of update steps that a run of `max_iterations` performs: the
/// counter runs from 1 and stops short of `max_iterations`.
pub open spec fn steps_of(max_iterations: u32) -> nat {
    if max_iterations == 0 {
        0
    } else {
        (max_iterations - 1) as nat
    }
}

/// Two functions of one kind that take inputs of one size and have equally
/// many parameters.
pub open spec fn same_shape<F: ParametricFunction>(a: F, b: F) -> bool {
    &&& a.input_size() == b.input_size()
    &&& a.parameters_spec().len() == b.parameters_spec().len()
}

/// One iteration leads from `before` to `after` and records `recorded`: the
/// error and the gradients were both taken at `before`, and the parameters of
/// `after` are those of `before` minus the gradients times the rate.
pub open spec fn is_step<F, E, G>(
    before: F,
    after: F,
    dataset: &Vec<(Vec<F::Value>, F::Value)>,
    compute_error_average: &E,
    compute_error_gradients: &G,
    learning_rate: F::Value,
    recorded: F::Value,
) -> bool where
    F: ParametricFunction,
    E: Fn(&F, &Vec<(Vec<F::Value>, F::Value)>) -> F::Value,
    G: Fn(&F, &Vec<(Vec<F::Value>, F::Value)>) -> Vec<F::Value>,
 {
    exists|gradients: Vec<F::Value>|
        {
            &&& #[trigger] compute_error_gradients.ensures((&before, dataset), gradients)
            &&& compute_error_average.ensures((&before, dataset), recorded)
            &&& after.input_size() == before.input_size()
            &&& after.parameters_spec() == descend(before.parameters_spec(), gradients@, learning_rate)
        }
}

/// A run leads from `start` to `end` and leaves `trace`: one iteration for
/// each entry of the trace, in order, each starting where the one before it
/// ended.
pub open spec fn is_descent<F, E, G>(
    start: F,
    end: F,
    dataset: &Vec<(Vec<F::Value>, F::Value)>,
    compute_error_average: &E,
    compute_error_gradients: &G,
    learning_rate: F::Value,
    trace: Seq<F::Value>,
) -> bool where
    F: ParametricFunction,
    E: Fn(&F, &Vec<(Vec<F::Value>, F::Value)>) -> F::Value,
    G: Fn(&F, &Vec<(Vec<F::Value>, F::Value)>) -> Vec<F::Value>,

    decreases trace.len(),
{
    if trace.len() == 0 {
        end == start
    } else {
        exists|middle: F|
            {
                &&& is_descent(
                    start,
                    middle,
                    dataset,
                    compute_error_average,
                    compute_error_gradients,
                    learning_rate,
                    trace.drop_last(),
                )
                &&& #[trigger] is_step(
                    middle,
                    end,
                    dataset,
                    compute_error_average,
                    compute_error_gradients,
                    learning_rate,
                    trace.last(),
                )
            }
    }
}

/// A run that is followed by one more iteration is a run, and its trace is
/// the first run's trace with the error that the iteration recorded at its
/// end.
pub proof fn lemma_descent_goes_on<F, E, G>(
    start: F,
    middle: F,
    end: F,
    dataset: &Vec<(Vec<F::Value>, F::Value)>,
    compute_error_average: &E,
    compute_error_gradients: &G,
    learning_rate: F::Value,
    trace: Seq<F::Value>,
    recorded: F::Value,
) where
    F: ParametricFunction,
    E: Fn(&F, &Vec<(Vec<F::Value>, F::Value)>) -> F::Value,
    G: Fn(&F, &Vec<(Vec<F::Value>, F::Value)>) -> Vec<F::Value>,

    requires
        is_descent(
            start,
            middle,
            dataset,
            compute_error_average,
            compute_error_gradients,
            learning_rate,
            trace,
        ),
        is_step(
            middle,
            end,
            dataset,
            compute_error_average,
            compute_error_gradients,
            learning_rate,
            recorded,
        ),
    ensures
        is_descent(
            start,
            end,
            dataset,
            compute_error_average,
            compute_error_gradients,
            learning_rate,
            trace.push(recorded),
        ),
{
    let longer = trace.push(recorded);
    assert(longer.drop_last() == trace);
    assert(longer.last() == recorded);
}

/// Runs gradient descent for a fixed number of iterations.
///
/// Each iteration takes the gradients at the current parameters, records the
/// error at the current parameters, and then replaces the parameters by
/// `parameters - gradients * learning_rate`. There is no test for
/// convergence: the run ends when the counter, which starts at 1, reaches
/// `max_iterations`. The result is the recorded errors in order.
pub fn gradient_descent_fit<F, E, G>(
    dataset: &Vec<(Vec<F::Value>, F::Value)>,
    parametric_function: &mut F,
    compute_error_average: &E,
    compute_error_gradients: &G,
    learning_rate: F::Value,
    max_iterations: u32,
) -> (errors: Vec<F::Value>) where
    F: ParametricFunction,
    E: Fn(&F, &Vec<(Vec<F::Value>, F::Value)>) -> F::Value,
    G: Fn(&F, &Vec<(Vec<F::Value>, F::Value)>) -> Vec<F::Value>,

    requires
        max_iterations > 1 ==> forall|g: F| #[trigger]
            same_shape(g, *old(parametric_function)) ==> compute_error_average.requires((&g, dataset))
                && compute_error_gradients.requires((&g, dataset)),
        max_iterations > 1 ==> forall|g: F, gradients: Vec<F::Value>|
            same_shape(g, *old(parametric_function)) && #[trigger] compute_error_gradients.ensures(
                (&g, dataset),
                gradients,
            ) ==> gradients@.len() == g.parameters_spec().len(),
    ensures
        errors@.len() == steps_of(max_iterations),
        same_shape(*final(parametric_function), *old(parametric_function)),
        is_descent(
            *old(parametric_function),
            *final(parametric_function),
            dataset,
            compute_error_average,
            compute_error_gradients,
            learning_rate,
            errors@,
        ),
{
    let ghost start = *parametric_function;
    let mut errors: Vec<F::Value> = Vec::new();
    let mut iteration: u32 = 1;
    while iteration < max_iterations
        invariant
            1 <= iteration,
            max_iterations == 0 ==> iteration == 1,
            max_iterations > 0 ==> iteration <= max_iterations,
            errors@.len() == iteration - 1,
            same_shape(*parametric_function, start),
            max_iterations > 1 ==> forall|g: F| #[trigger]
                same_shape(g, start) ==> compute_error_average.requires((&g, dataset))
                    && compute_error_gradients.requires((&g, dataset)),
            max_iterations > 1 ==> forall|g: F, gradients: Vec<F::Value>|
                same_shape(g, start) && #[trigger] compute_error_gradients.ensures((&g, dataset), gradients)
                    ==> gradients@.len() == g.parameters_spec().len(),
            is_descent(
                start,
                *parametric_function,
                dataset,
                compute_error_average,
                compute_error_gradients,
                learning_rate,
                errors@,
            ),
        decreases max_iterations - iteration,
    {
        let ghost before = *parametric_function;
        let ghost recorded = errors@;
        let gradients = compute_error_gradients(parametric_function, dataset);
        let new_parameters = descend_step(parametric_function.parameters(), &gradients, learning_rate);
        let error = compute_error_average(parametric_function, dataset);
        errors.push(error);
        parametric_function.set_parameters(new_parameters);
        proof {
            assert(is_step(
                before,
                *parametric_function,
                dataset,
                compute_error_average,
                compute_error_gradients,
                learning_rate,
                error,
            ));
            lemma_descent_goes_on(
                start,
                before,
                *parametric_function,
                dataset,
                compute_error_average,
                compute_error_gradients,
                learning_rate,
                recorded,
                error,
            );
            assert(errors@ == recorded.push(error));
        }
        iteration += 1;
    }
    errors
}

} // verus!
