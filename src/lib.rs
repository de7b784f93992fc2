//! Coordinate transformation between geodetic datums by gridded correction
//! parameters, in exact fixed-point arithmetic.
//!
//! Parameters are counted in units of 1e-5 arcsecond and 1e-5 metre, the
//! precision in which they are published; points are counted in units of
//! 1e-9 arcsecond and 1e-9 metre.
pub mod builder;
pub mod error;
pub mod format;
pub mod interpolation;
pub mod mesh;
pub mod point;
pub mod theorems;
pub mod transformer;

pub use error::Error;
pub use mesh::MeshUnit;
pub use point::{Parameter, Point};
pub use transformer::Transformer;
pub use builder::TransformerBuilder;
pub use format::Format;
