use approx::RelativeEq;
use omoikane::optimization::{least_squares_fit, LinearFunction, ParametricFunction};
use omoikane::Scalar;

#[derive(Clone, Copy, Debug, PartialEq)]
struct Real(f64);

impl Scalar for Real {
    fn from_int_spec(value: i128) -> Self {
        Real(value as f64)
    }

    fn add_spec(self, rhs: Self) -> Self {
        Real(self.0 + rhs.0)
    }

    fn sub_spec(self, rhs: Self) -> Self {
        Real(self.0 - rhs.0)
    }

    fn mul_spec(self, rhs: Self) -> Self {
        Real(self.0 * rhs.0)
    }

    fn div_spec(self, rhs: Self) -> Self {
        Real(self.0 / rhs.0)
    }

    fn from_int(value: i128) -> Self {
        Real(value as f64)
    }

    fn add(self, rhs: Self) -> Self {
        Real(self.0 + rhs.0)
    }

    fn sub(self, rhs: Self) -> Self {
        Real(self.0 - rhs.0)
    }

    fn mul(self, rhs: Self) -> Self {
        Real(self.0 * rhs.0)
    }

    fn div(self, rhs: Self) -> Self {
        Real(self.0 / rhs.0)
    }
}

/// The Norris dataset of the NIST statistical reference datasets for linear
/// regression: 36 observations, each an input `x` and its response `y`.
const NORRIS: [(f64, f64); 36] = [
    (0.2, 0.1),
    (337.4, 338.8),
    (118.2, 118.1),
    (884.6, 888.0),
    (10.1, 9.2),
    (226.5, 228.1),
    (666.3, 668.5),
    (996.3, 998.5),
    (448.6, 449.1),
    (777.0, 778.9),
    (558.2, 559.2),
    (0.4, 0.3),
    (0.6, 0.1),
    (775.5, 778.1),
    (666.9, 668.8),
    (338.0, 339.3),
    (447.5, 448.9),
    (11.6, 10.8),
    (556.0, 557.7),
    (228.1, 228.3),
    (995.8, 998.0),
    (887.6, 888.8),
    (120.2, 119.6),
    (0.3, 0.3),
    (0.3, 0.6),
    (556.8, 557.6),
    (339.1, 339.3),
    (887.2, 888.0),
    (999.0, 998.5),
    (779.0, 778.9),
    (11.1, 10.2),
    (118.3, 117.6),
    (229.2, 228.9),
    (669.1, 668.4),
    (448.9, 449.2),
    (0.5, 0.2),
];

fn norris() -> Vec<(Vec<Real>, Real)> {
    NORRIS.iter().map(|(x, y)| (vec![Real(*x)], Real(*y))).collect()
}

#[test]
fn least_squares_fit_linear_function_on_norris_dataset() {
    let mut function = LinearFunction::new(1);

    least_squares_fit(&mut function, &norris(), Real(0.000001), 200000);

    let ref parameters = function.parameters();

    assert_eq!(2, parameters.len());
    assert!(function.parameters()[0].0.relative_eq(&-0.262323073774029, 0.232818234301152, f64::EPSILON));
    assert!(function.parameters()[1].0.relative_eq(&1.00211681802045, 0.00429796848199937, f64::EPSILON));
}
