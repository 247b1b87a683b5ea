//! A primitive: one indexed triangle list with a material reference and
//! the GPU buffer handles derived from its two lists.

use vstd::prelude::*;
use crate::gpu::BufferId;
use crate::vertex::Vertex;

verus! {

/// Created once at import and immutable thereafter. `material_index`
/// addresses the owning model's material list; `vbo` and `ibo` are the
/// opaque handles of the GPU buffers the caller built from `vertices` and
/// `indices`.
pub struct Primitive {
    pub vertices: Vec<Vertex>,
    pub indices: Vec<u32>,
    pub material_index: usize,
    pub vbo: BufferId,
    pub ibo: BufferId,
}

impl Primitive {
    pub fn new(
        vertices: Vec<Vertex>,
        indices: Vec<u32>,
        material_index: usize,
        vbo: BufferId,
        ibo: BufferId,
    ) -> (r: Primitive)
        ensures
            r.vertices == vertices,
            r.indices == indices,
            r.material_index == material_index,
            r.vbo == vbo,
            r.ibo == ibo,
    {
        Primitive { vertices, indices, material_index, vbo, ibo }
    }
}

} // verus!
