//! Generic vectors and column-major matrices whose elements live in shared,
//! copy-on-write cells, with element-wise arithmetic, dot products and matrix
//! products whose results are stated and proved over sequence models.

pub mod bit;
pub mod error;
pub mod laws;
pub mod matrix;
pub mod sample;
pub mod scalar;
pub mod vector;
pub mod zero_one;

pub use bit::Bit;
pub use error::MatrixError;
pub use matrix::Matrix;
pub use sample::Sample;
pub use scalar::Scalar;
pub use vector::Vector;
pub use zero_one::{One, Zero};
