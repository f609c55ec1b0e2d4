//! Camera model, camera controller and host-side decision logic for a small
//! windowed 3D renderer.
//!
//! All geometry is carried in fixed-point coordinates: an `i64` holds a value
//! in units of `1 / 65536`, so the arithmetic below is exact integer
//! arithmetic and every operation states precisely which rounded value it
//! returns.  The surrounding application converts to the GPU's native number
//! format only at the upload boundary.

pub mod camera;
pub mod controller;
pub mod events;
pub mod fixed;
pub mod host;
pub mod mat4;
pub mod trig;
pub mod vec3;
