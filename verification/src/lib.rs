//! Small dense matrices and vectors, sized at compile time ([`Mat`]) or at
//! run time ([`dynamic::Matrix`]), with their arithmetic, transposition,
//! factoring, inversion and rank, and the transforms of computer graphics.
//!
//! Every matrix stores its elements by columns and has a [`Grid`] as its
//! mathematical value. The contracts of all operations are stated over
//! grids, and so are the algebraic laws in [`laws`], [`factor_laws`] and
//! [`inverse_laws`].

pub mod algebra;
pub mod approx;
pub mod convert;
pub mod dynamic;
pub mod elimination;
pub mod factor_laws;
pub mod graphics;
pub mod grid;
pub mod inverse_laws;
pub mod inversion;
pub mod laws;
pub mod mat;
pub mod math;
pub mod ops;
pub mod solve;
pub mod sums;
pub mod swizzle;
pub mod text;
pub mod traits;
pub mod types;
pub mod uniform;
pub mod utils;
pub mod vector;

pub use grid::Grid;
pub use mat::Mat;
pub use traits::Float;
pub use traits::UnitOne;
pub use traits::Zero;
pub use types::Mat2;
pub use types::Mat2x3;
pub use types::Mat2x4;
pub use types::Mat3;
pub use types::Mat3x2;
pub use types::Mat3x4;
pub use types::Mat4;
pub use types::Mat4x2;
pub use types::Mat4x3;
pub use types::Vec;
pub use types::Vec2;
pub use types::Vec3;
pub use types::Vec4;
pub use uniform::SetUniform;
pub use utils::degree;
pub use utils::radian;
