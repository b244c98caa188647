pub mod function_parameters;
pub use self::function_parameters::DimensionMismatch;
pub use self::function_parameters::FunctionParameters;

pub mod linear_function;
pub use self::linear_function::LinearFunction;
