use omoikane::optimization::ParametricFunction;
use omoikane::regression::LinearRegressionModel;
use omoikane::{Model, Scalar};

#[derive(Clone, Copy, Debug, PartialEq)]
struct Real(f64);

impl Scalar for Real {
    fn from_int_spec(value: i128) -> Self {
        Real(value as f64)
    }

    fn add_spec(self, rhs: Self) -> Self {
        Real(self.0 + rhs.0)
    }

    fn sub_spec(self, rhs: Self) -> Self {
        Real(self.0 - rhs.0)
    }

    fn mul_spec(self, rhs: Self) -> Self {
        Real(self.0 * rhs.0)
    }

    fn div_spec(self, rhs: Self) -> Self {
        Real(self.0 / rhs.0)
    }

    fn from_int(value: i128) -> Self {
        Real(value as f64)
    }

    fn add(self, rhs: Self) -> Self {
        Real(self.0 + rhs.0)
    }

    fn sub(self, rhs: Self) -> Self {
        Real(self.0 - rhs.0)
    }

    fn mul(self, rhs: Self) -> Self {
        Real(self.0 * rhs.0)
    }

    fn div(self, rhs: Self) -> Self {
        Real(self.0 / rhs.0)
    }
}

fn vector(values: &[f64]) -> Vec<Real> {
    values.iter().map(|value| Real(*value)).collect()
}

fn dataset(samples: &[(f64, f64)]) -> Vec<(Vec<Real>, Real)> {
    samples.iter().map(|(x, y)| (vector(&[*x]), Real(*y))).collect()
}

#[test]
fn model_fits_the_line_through_the_samples() {
    let mut model = LinearRegressionModel::new(Real(0.01), 20000);

    model.fit_supervised_dataset(&dataset(&[
        (1.0, 2.0),
        (2.0, 4.0),
        (3.0, 6.0),
        (4.0, 8.0),
        (5.0, 10.0),
        (6.0, 12.0),
    ]));

    assert!((model.predict(&vector(&[1.5])).0 - 3.0).abs() < 1e-9);
    assert!((model.predict(&vector(&[-2.0])).0 + 4.0).abs() < 1e-9);
}

#[test]
fn model_starts_from_parameters_of_zero() {
    let mut model = LinearRegressionModel::new(Real(0.25), 3);

    model.fit_supervised_dataset(&dataset(&[(1.0, 2.0), (2.0, 4.0)]));

    // Two steps from [0, 0] lead to [0.375, 0.75].
    assert_eq!(model.predict(&vector(&[0.0])), Real(0.375));
    assert_eq!(model.predict(&vector(&[2.0])), Real(1.875));
}

#[test]
fn model_with_one_iteration_predicts_zero() {
    let mut model = LinearRegressionModel::new(Real(0.25), 1);

    model.fit_supervised_dataset(&dataset(&[(1.0, 2.0), (2.0, 4.0)]));

    assert_eq!(model.predict(&vector(&[7.0])), Real(0.0));
}

#[test]
fn model_takes_the_input_size_from_the_first_sample() {
    let mut model = LinearRegressionModel::new(Real(0.5), 2);

    model.fit_supervised_dataset(&vec![(vector(&[1.0, 0.0, 0.0]), Real(1.0))]);

    // One step from zero: the gradients are -2 * [1, 1, 0, 0].
    assert_eq!(model.predict(&vector(&[0.0, 0.0, 0.0])), Real(1.0));
    assert_eq!(model.predict(&vector(&[1.0, 5.0, 5.0])), Real(2.0));
}

#[test]
fn model_keeps_an_earlier_fit_when_the_dataset_is_empty() {
    let mut model = LinearRegressionModel::new(Real(0.25), 3);

    model.fit_supervised_dataset(&dataset(&[(1.0, 2.0), (2.0, 4.0)]));
    model.fit_supervised_dataset(&dataset(&[]));

    assert_eq!(model.predict(&vector(&[0.0])), Real(0.375));
}

#[test]
fn model_keeps_an_earlier_fit_when_the_inputs_are_empty() {
    let mut model = LinearRegressionModel::new(Real(0.25), 3);

    model.fit_supervised_dataset(&dataset(&[(1.0, 2.0), (2.0, 4.0)]));
    model.fit_supervised_dataset(&vec![(vector(&[]), Real(9.0))]);

    assert_eq!(model.predict(&vector(&[0.0])), Real(0.375));
}

#[test]
fn model_is_not_fitted_when_it_is_made() {
    let model = LinearRegressionModel::new(Real(0.25), 3);

    assert!(model.linear_function().is_none());
}

#[test]
fn model_holds_the_fitted_function() {
    let mut model = LinearRegressionModel::new(Real(0.25), 3);

    model.fit_supervised_dataset(&dataset(&[(1.0, 2.0), (2.0, 4.0)]));

    let function = model.linear_function().unwrap();
    assert_eq!(*function.parameters(), vector(&[0.375, 0.75]));
    assert_eq!(function.input_mismatch(1), None);
}

#[test]
fn fit_returns_the_error_before_each_step() {
    let mut model = LinearRegressionModel::new(Real(0.25), 3);

    let errors = model.fit(&dataset(&[(1.0, 2.0), (2.0, 4.0)]));

    assert_eq!(errors, vector(&[10.0, 5.125]));
    assert_eq!(model.predict(&vector(&[0.0])), Real(0.375));
}

#[test]
fn fit_returns_no_error_where_the_dataset_teaches_nothing() {
    let mut model = LinearRegressionModel::new(Real(0.25), 3);

    assert_eq!(model.fit(&dataset(&[])), vector(&[]));
    assert_eq!(model.fit(&vec![(vector(&[]), Real(9.0))]), vector(&[]));
    assert!(model.linear_function().is_none());
}
