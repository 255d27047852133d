//! An orbit-camera controller and a screen-space triangle picker.
//!
//! All quantities are fixed-point integers: one unit is one millionth
//! (`fixed::SCALE`) of a radian, a second, a world unit, a pixel or a
//! normalized-device-coordinate unit, as each field says.

pub mod fixed;
pub mod input;
pub mod camera;
pub mod geometry;
pub mod picking;
