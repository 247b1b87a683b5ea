//! Decomposition of a scene-node transform into the uniform internal
//! representation: a translation, a rotation source, and a separate
//! non-uniform scale vector.
//!
//! Scalars are IEEE-754 single-precision bit patterns. The decomposition
//! decided here is purely structural, so it is exact; turning a rotation
//! source into an actual rotation (quaternion extraction from a matrix,
//! axis-angle conversion) is floating-point work left to the caller.

use vstd::prelude::*;
use crate::floatbits::F32_ONE_BITS;

verus! {

/// Both IEEE-754 single-precision zeros, `+0.0` and `-0.0`.
pub open spec fn is_f32_zero_bits(b: u32) -> bool {
    b == 0u32 || b == 0x8000_0000u32
}

/// Exec mirror of [`is_f32_zero_bits`].
pub fn f32_bits_is_zero(b: u32) -> (r: bool)
    ensures
        r == is_f32_zero_bits(b),
{
    b == 0 || b == 0x8000_0000
}

/// A node transform as a glTF document states it: either a raw column-major
/// 4x4 matrix, or already split into translation, rotation quaternion
/// (x, y, z, w) and scale.
#[derive(Debug)]
pub enum NodeTransform {
    Matrix { matrix: [[u32; 4]; 4] },
    Decomposed { translation: [u32; 3], rotation: [u32; 4], scale: [u32; 3] },
}

/// Where the rotation of a decomposed transform comes from.
///
/// `Identity` is decided exactly: a quaternion whose vector part is all
/// zero bits has no rotation axis, and rebuilding an isometry from a zero
/// axis-angle vector yields the identity rotation exactly, so no
/// floating-point step is needed for it.
#[derive(Debug)]
pub enum RotationSource {
    /// The identity rotation.
    Identity,
    /// A unit quaternion, as (x, y, z, w) bit patterns; the caller converts
    /// it through its axis-angle form.
    Quaternion { xyzw: [u32; 4] },
    /// The nine entries handed row-by-row to a 3x3 matrix constructor, from
    /// which the caller extracts the nearest unit quaternion. Entry `[i][j]`
    /// is the source matrix's column `i`, component `j`.
    Matrix { rows: [[u32; 3]; 3] },
}

/// A rigid transform: a translation and a rotation quaternion (x, y, z, w),
/// all components `f32` bit patterns. No scale or shear.
#[derive(Clone, Copy, PartialEq, Eq, Debug)]
pub struct Isometry {
    pub translation: [u32; 3],
    pub rotation_xyzw: [u32; 4],
}

/// A decomposed node transform: the pieces a mesh stores.
#[derive(Debug)]
pub struct TransformParts {
    pub translation: [u32; 3],
    pub rotation: RotationSource,
    pub scaling: [u32; 3],
}

/// What decomposing a node transform yields.
///
/// For the matrix form, the translation is the fourth column's first three
/// components, the rotation source is the upper-left 3x3 block, and the
/// scale is fixed to (1, 1, 1): any non-uniform scale embedded in the
/// matrix is dropped, not corrected.
///
/// For the decomposed form, translation and scale are taken verbatim; a
/// rotation quaternion with an all-zero vector part becomes the identity
/// rotation, any other quaternion is passed through for axis-angle
/// conversion.
pub open spec fn decomposition_of(t: NodeTransform, r: TransformParts) -> bool {
    match t {
        NodeTransform::Matrix { matrix } => {
            &&& r.translation == [matrix[3][0], matrix[3][1], matrix[3][2]]
            &&& r.rotation == (RotationSource::Matrix {
                rows: [
                    [matrix[0][0], matrix[0][1], matrix[0][2]],
                    [matrix[1][0], matrix[1][1], matrix[1][2]],
                    [matrix[2][0], matrix[2][1], matrix[2][2]],
                ],
            })
            &&& r.scaling == [F32_ONE_BITS, F32_ONE_BITS, F32_ONE_BITS]
        },
        NodeTransform::Decomposed { translation, rotation, scale } => {
            &&& r.translation == translation
            &&& r.scaling == scale
            &&& {
                if is_f32_zero_bits(rotation[0]) && is_f32_zero_bits(rotation[1])
                    && is_f32_zero_bits(rotation[2]) {
                    r.rotation == RotationSource::Identity
                } else {
                    r.rotation == (RotationSource::Quaternion { xyzw: rotation })
                }
            }
        },
    }
}

/// Splits a node transform into translation, rotation source and scale,
/// exactly as [`decomposition_of`] states.
pub fn decompose_transform(t: &NodeTransform) -> (r: TransformParts)
    ensures
        decomposition_of(*t, r),
{
    match t {
        NodeTransform::Matrix { matrix } => TransformParts {
            translation: [matrix[3][0], matrix[3][1], matrix[3][2]],
            rotation: RotationSource::Matrix {
                rows: [
                    [matrix[0][0], matrix[0][1], matrix[0][2]],
                    [matrix[1][0], matrix[1][1], matrix[1][2]],
                    [matrix[2][0], matrix[2][1], matrix[2][2]],
                ],
            },
            scaling: [F32_ONE_BITS, F32_ONE_BITS, F32_ONE_BITS],
        },
        NodeTransform::Decomposed { translation, rotation, scale } => {
            let rotation_source = if f32_bits_is_zero(rotation[0])
                && f32_bits_is_zero(rotation[1]) && f32_bits_is_zero(rotation[2]) {
                RotationSource::Identity
            } else {
                RotationSource::Quaternion { xyzw: *rotation }
            };
            TransformParts {
                translation: *translation,
                rotation: rotation_source,
                scaling: *scale,
            }
        },
    }
}

/// Decomposing any matrix-form transform yields the unit scale vector:
/// non-uniform scale embedded in a matrix is dropped by design, whatever
/// the matrix holds.
pub proof fn lemma_matrix_form_drops_scale(t: NodeTransform, r: TransformParts)
    requires
        t is Matrix,
        decomposition_of(t, r),
    ensures
        r.scaling == [F32_ONE_BITS, F32_ONE_BITS, F32_ONE_BITS],
{
}

} // verus!
