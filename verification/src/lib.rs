//! A software 3D rasterizer: posed triangle meshes and a camera go in, a 2D
//! raster image comes out, through a perspective pipeline of model, view and
//! projection transforms, homogeneous clipping, perspective division, viewport
//! mapping and a depth-buffered triangle fill.
//!
//! All geometry is carried in a fixed-point scalar (an `i64` counting
//! 1/65536ths of a unit), so every arithmetic step has an exact, stated
//! meaning; conversion from floating point, windowing and the frame loop live
//! outside this crate.

pub mod ccamera;
pub mod cclip;
pub mod cmath;
pub mod cmatrix;
pub mod cmodel;
pub mod cmodel_instance;
pub mod craster;
pub mod cren;
pub mod ctransform;
pub mod fixed;
pub mod triangle;
pub mod window;
