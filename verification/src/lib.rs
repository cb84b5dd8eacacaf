//! A Monte-Carlo path tracer.
//!
//! Rays are cast from a [`Camera`], met with the [`Shape`]s of a scene, and
//! sent on by the [`Material`] of the surface that they meet, for as long as
//! the budget of bounces lasts ([`Raytracer`]). [`render_image`] traces
//! several paths through every pixel, row by row and the rows in parallel,
//! and puts the averages together in an [`Image`].
//!
//! Everything is generic over the number type of the coordinates and colour
//! channels, a [`Component`]: the library fixes the order of the operations,
//! the decisions taken on their results and the place of every pixel, and
//! states its contracts over the named results of the component's
//! operations. What holds of the geometry where the numbers compute exactly
//! is proved in [`geometry`].

pub mod camera;
pub mod color;
pub mod component;
pub mod exact;
pub mod fixed;
pub mod geometry;
pub mod image;
pub mod material;
mod random;
pub mod rendering;
pub mod scene;
pub mod shape;
pub mod tracing;
pub mod vectors;

pub use camera::{Camera, Simple3DCamera};
pub use color::Color;
pub use component::Component;
pub use fixed::Fixed;
pub use image::{Image, PngError};
pub use material::{Behavior, DiffuseMaterial, FlatColorMaterial, Material, MirrorMaterial};
pub use rendering::{render_image, render_pixel, render_row};
pub use scene::{MaterialShape, Scene, SceneElement, VecScene};
pub use shape::{Circle, Hit, Hypersphere, Intersection, NSphere, Shape, Sphere};
pub use tracing::{Raytracer, TracingOptions};
pub use vectors::{Normalized, Ray, Vec2, Vec3, Vec4, Vector, VectorArea};
