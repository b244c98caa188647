use omoikane::optimization::{DimensionMismatch, LinearFunction, ParametricFunction};
use omoikane::Scalar;

#[derive(Clone, Copy, Debug, PartialEq)]
struct Real(f64);

impl Scalar for Real {
    fn from_int_spec(value: i128) -> Self {
        Real(value as f64)
    }

    fn add_spec(self, rhs: Self) -> Self {
        Real(self.0 + rhs.0)
    }

    fn sub_spec(self, rhs: Self) -> Self {
        Real(self.0 - rhs.0)
    }

    fn mul_spec(self, rhs: Self) -> Self {
        Real(self.0 * rhs.0)
    }

    fn div_spec(self, rhs: Self) -> Self {
        Real(self.0 / rhs.0)
    }

    fn from_int(value: i128) -> Self {
        Real(value as f64)
    }

    fn add(self, rhs: Self) -> Self {
        Real(self.0 + rhs.0)
    }

    fn sub(self, rhs: Self) -> Self {
        Real(self.0 - rhs.0)
    }

    fn mul(self, rhs: Self) -> Self {
        Real(self.0 * rhs.0)
    }

    fn div(self, rhs: Self) -> Self {
        Real(self.0 / rhs.0)
    }
}

fn vector(values: &[f64]) -> Vec<Real> {
    values.iter().map(|value| Real(*value)).collect()
}

fn test_function(function: &LinearFunction<Real>, input: Vec<Real>, y: f64, dx: f64, parameter_gradients: Vec<Real>) {
    assert_eq!(function.f(&input), Real(y));
    assert_eq!(function.df(&input), Real(dx));
    assert_eq!(function.parameter_gradients(&input), parameter_gradients);
}

#[test]
fn add_y_intercept_adds_constant_1_in_front_of_input_vector() {
    assert_eq!(LinearFunction::add_y_intercept(&vector(&[])), vector(&[1.0]));
    assert_eq!(LinearFunction::add_y_intercept(&vector(&[1.0])), vector(&[1.0, 1.0]));
    assert_eq!(LinearFunction::add_y_intercept(&vector(&[2.0])), vector(&[1.0, 2.0]));
    assert_eq!(LinearFunction::add_y_intercept(&vector(&[3.0])), vector(&[1.0, 3.0]));
    assert_eq!(LinearFunction::add_y_intercept(&vector(&[3.0, 1.0, 2.0])), vector(&[1.0, 3.0, 1.0, 2.0]));
}

#[test]
fn parameters_update() {
    let mut function: LinearFunction<Real> = LinearFunction::new(3);

    assert_eq!(*function.parameters(), vector(&[0.0, 0.0, 0.0, 0.0]));
    function.set_parameters(vector(&[0.0, 3.0, 2.0, 1.0]));
    assert_eq!(*function.parameters(), vector(&[0.0, 3.0, 2.0, 1.0]));
}

#[test]
fn function_without_input_variables() {
    let mut function = LinearFunction::new(0);

    //  f(x) = 3
    // df(x) = 0
    function.set_parameters(vector(&[3.0]));

    test_function(&function, vector(&[]), 3.0, 0.0, vector(&[1.0]))
}

#[test]
fn function_without_y_intercept() {
    let mut function = LinearFunction::new(1);

    //  f(x) = 1x
    // df(x) = 1
    function.set_parameters(vector(&[0.0, 1.0]));

    test_function(&function, vector(&[0.0]), 0.0, 1.0, vector(&[1.0, 0.0]));
    test_function(&function, vector(&[1.0]), 1.0, 1.0, vector(&[1.0, 1.0]));
    test_function(&function, vector(&[2.0]), 2.0, 1.0, vector(&[1.0, 2.0]));
    test_function(&function, vector(&[3.0]), 3.0, 1.0, vector(&[1.0, 3.0]));
}

#[test]
fn function_with_parameter_set_to_0() {
    let mut function0 = LinearFunction::new(1);
    let mut function1 = LinearFunction::new(1);

    //  f(x) = 0 + 0x
    // df(x) = 0
    function0.set_parameters(vector(&[0.0, 0.0]));

    test_function(&function0, vector(&[0.0]), 0.0, 0.0, vector(&[1.0, 0.0]));
    test_function(&function0, vector(&[1.0]), 0.0, 0.0, vector(&[1.0, 1.0]));
    test_function(&function0, vector(&[2.0]), 0.0, 0.0, vector(&[1.0, 2.0]));
    test_function(&function0, vector(&[3.0]), 0.0, 0.0, vector(&[1.0, 3.0]));

    //  f(x) = 1 + 0x
    // df(x) = 0
    function1.set_parameters(vector(&[1.0, 0.0]));

    test_function(&function1, vector(&[0.0]), 1.0, 0.0, vector(&[1.0, 0.0]));
    test_function(&function1, vector(&[1.0]), 1.0, 0.0, vector(&[1.0, 1.0]));
    test_function(&function1, vector(&[2.0]), 1.0, 0.0, vector(&[1.0, 2.0]));
    test_function(&function1, vector(&[3.0]), 1.0, 0.0, vector(&[1.0, 3.0]));
}

#[test]
fn function_with_one_input_variable() {
    let mut function = LinearFunction::new(1);

    //  f(x) = 1 + 2x
    // df(x) = 2
    function.set_parameters(vector(&[1.0, 2.0]));

    test_function(&function, vector(&[0.0]), 1.0, 2.0, vector(&[1.0, 0.0]));
    test_function(&function, vector(&[1.0]), 3.0, 2.0, vector(&[1.0, 1.0]));
    test_function(&function, vector(&[2.0]), 5.0, 2.0, vector(&[1.0, 2.0]));
    test_function(&function, vector(&[3.0]), 7.0, 2.0, vector(&[1.0, 3.0]));
}

#[test]
fn function_with_two_input_variables() {
    let mut function = LinearFunction::new(2);

    //  f(x, y) = 1 + 2x + y
    // df(x, y) = 3
    function.set_parameters(vector(&[1.0, 2.0, 1.0]));

    test_function(&function, vector(&[0.0, 3.0]), 4.0, 3.0, vector(&[1.0, 0.0, 3.0]));
    test_function(&function, vector(&[1.0, 2.0]), 5.0, 3.0, vector(&[1.0, 1.0, 2.0]));
    test_function(&function, vector(&[2.0, 1.0]), 6.0, 3.0, vector(&[1.0, 2.0, 1.0]));
    test_function(&function, vector(&[3.0, 0.0]), 7.0, 3.0, vector(&[1.0, 3.0, 0.0]));
}

#[test]
fn function_with_three_input_variables() {
    let mut function = LinearFunction::new(3);

    //  f(x, y, z) = 1 + 3x + 2y + z
    // df(x, y, z) = 6
    function.set_parameters(vector(&[1.0, 3.0, 2.0, 1.0]));

    test_function(&function, vector(&[0.0, 3.0, 1.0]), 8.0, 6.0, vector(&[1.0, 0.0, 3.0, 1.0]));
    test_function(&function, vector(&[1.0, 2.0, 0.0]), 8.0, 6.0, vector(&[1.0, 1.0, 2.0, 0.0]));
    test_function(&function, vector(&[2.0, 1.0, 3.0]), 12.0, 6.0, vector(&[1.0, 2.0, 1.0, 3.0]));
    test_function(&function, vector(&[3.0, 0.0, 2.0]), 12.0, 6.0, vector(&[1.0, 3.0, 0.0, 2.0]));
}

#[test]
fn new_function_has_one_zero_for_the_intercept_and_one_for_each_variable() {
    let function: LinearFunction<Real> = LinearFunction::new(0);
    assert_eq!(*function.parameters(), vector(&[0.0]));

    let function: LinearFunction<Real> = LinearFunction::new(5);
    assert_eq!(*function.parameters(), vector(&[0.0, 0.0, 0.0, 0.0, 0.0, 0.0]));
}

#[test]
fn parameter_gradients_do_not_depend_on_the_parameters() {
    let mut function = LinearFunction::new(2);
    let input = vector(&[-4.5, 0.25]);

    assert_eq!(function.parameter_gradients(&input), vector(&[1.0, -4.5, 0.25]));
    function.set_parameters(vector(&[9.0, -8.0, 7.5]));
    assert_eq!(function.parameter_gradients(&input), vector(&[1.0, -4.5, 0.25]));
}

#[test]
fn df_leaves_the_intercept_out() {
    let mut function = LinearFunction::new(2);

    function.set_parameters(vector(&[100.0, 0.5, 0.25]));
    assert_eq!(function.df(&vector(&[3.0, 4.0])), Real(0.75));
}

#[test]
fn f_adds_the_products_in_the_order_of_the_parameters() {
    let mut function = LinearFunction::new(2);

    // ((0 + 1e16 * 1) + 1 * 1) + (-1e16) * 1: the single 1 is lost in the
    // first sum.
    function.set_parameters(vector(&[1e16, 1.0, -1e16]));
    assert_eq!(function.f(&vector(&[1.0, 1.0])), Real(0.0));
}

#[test]
fn input_mismatch_accepts_the_declared_size() {
    let function: LinearFunction<Real> = LinearFunction::new(2);

    assert_eq!(function.input_mismatch(2), None);
}

#[test]
fn input_mismatch_reports_both_sizes_without_enough_input_variables() {
    let function: LinearFunction<Real> = LinearFunction::new(2);

    assert_eq!(function.input_mismatch(1), Some(DimensionMismatch { actual: 1, expected: 2 }));
}

#[test]
fn input_mismatch_reports_both_sizes_with_too_many_input_variables() {
    let function: LinearFunction<Real> = LinearFunction::new(2);

    assert_eq!(function.input_mismatch(3), Some(DimensionMismatch { actual: 3, expected: 2 }));
}
