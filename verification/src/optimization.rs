pub mod traits;
pub use self::traits::ParametricFunction;

pub mod types;
pub use self::types::DimensionMismatch;
pub use self::types::FunctionParameters;
pub use self::types::LinearFunction;

pub mod least_squares;
pub use self::least_squares::least_squares_fit;

pub mod gradient_descent;
pub use self::gradient_descent::gradient_descent_fit;
