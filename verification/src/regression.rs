mod linear_regression;
pub use self::linear_regression::LinearRegressionModel;
