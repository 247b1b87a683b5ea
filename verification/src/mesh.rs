//! Meshes: a list of primitives with a base isometry, the per-tick updated
//! isometry, and a separate non-uniform scale vector.

use vstd::prelude::*;
use crate::primitive::Primitive;
use crate::transform::Isometry;

verus! {

/// `updated_isometry` is the only field mutated after import: the physics
/// sync step overwrites it once per tick with the base isometry composed
/// with the body pose. It starts out equal to `base_isometry`.
pub struct Mesh {
    pub primitives: Vec<Primitive>,
    pub base_isometry: Isometry,
    pub updated_isometry: Isometry,
    pub scaling: [u32; 3],
}

impl Mesh {
    pub fn new(primitives: Vec<Primitive>, base_isometry: Isometry, scaling: [u32; 3]) -> (r:
        Mesh)
        ensures
            r.primitives == primitives,
            r.base_isometry == base_isometry,
            r.updated_isometry == base_isometry,
            r.scaling == scaling,
    {
        Mesh { primitives, base_isometry, updated_isometry: base_isometry, scaling }
    }

    pub fn base_isometry(&self) -> (r: Isometry)
        ensures
            r == self.base_isometry,
    {
        self.base_isometry
    }

    /// Overwrites the updated isometry and touches nothing else.
    pub fn update_isometry(&mut self, new_isometry: Isometry)
        ensures
            final(self).updated_isometry == new_isometry,
            final(self).base_isometry == old(self).base_isometry,
            final(self).primitives == old(self).primitives,
            final(self).scaling == old(self).scaling,
    {
        self.updated_isometry = new_isometry;
    }
}

} // verus!
