//! Opaque handles for device-resident resources. The application owns the
//! graphics context; it uploads data the library built, and hands back one
//! of these identifiers for each resource so the resource graph can refer
//! to it.

use vstd::prelude::*;

verus! {

/// Handle of a device vertex or index buffer.
pub type BufferId = u32;

/// Handle of a device 2D texture.
pub type TextureId = u32;

/// Handle of a device cubemap texture.
pub type CubemapId = u32;

} // verus!
