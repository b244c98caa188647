pub mod linalg;
pub mod optimization;
pub mod regression;
pub mod scalar;

mod traits;
pub use scalar::Scalar;
pub use traits::Model;
