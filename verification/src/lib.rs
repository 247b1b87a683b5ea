//! Core resource model and precomputation planning for a physically-based
//! renderer: binary accessor decoding, exact numeric conversions, asset
//! import decisions, node-transform decomposition, cubemap geometry, and
//! the pass plans for image-based-lighting precomputation.
//!
//! Everything here is plain data and integer arithmetic with verified
//! contracts. Scalar fields that feed the GPU as 32-bit floats are carried
//! as their IEEE-754 bit patterns (`u32`); the surrounding application
//! converts at the GPU boundary and performs the floating-point and
//! device work that cannot be verified here.

use vstd::prelude::*;

pub mod accessor;
pub mod floatbits;
pub mod gpu;
pub mod import;
pub mod light;
pub mod material;
pub mod mesh;
pub mod model;
pub mod primitive;
pub mod rational;
pub mod skybox;
pub mod store;
pub mod transform;
pub mod vertex;

verus! {

} // verus!
