//! Vectors of two, three and four components, unit vectors, rays and areas.

pub mod area;
pub mod normalized;
pub mod ray;
pub mod vector;

pub use area::VectorArea;
pub use normalized::Normalized;
pub use ray::Ray;
pub use vector::{cross_value, length, squared_length, unit, Vec2, Vec3, Vec4, Vector};
