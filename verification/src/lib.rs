//! The discrete core of a small ray tracer.
//!
//! Every real number that the kernel handles is carried as a [`scalar::Scalar`]:
//! the bit pattern of an IEEE 754 binary64 value. The crate holds what can be
//! decided on those patterns without rounding: how values are laid out in
//! points, vectors and matrices, how two values compare, which intersection is
//! visible, which shading terms apply, and where a pixel lives in a canvas.
//! Rounded arithmetic (sums, products, quotients, roots and the like) is the
//! caller's part; each function here that depends on such a result takes it as
//! an argument.
pub mod canvas;
pub mod color;
pub mod intersection;
pub mod material;
pub mod matrix;
pub mod ray;
pub mod scalar;
pub mod sphere;
pub mod transform;
pub mod vector;
