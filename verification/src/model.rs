//! Models and the opaque handles under which the scene store owns them.

use vstd::prelude::*;
use crate::material::Material;
use crate::mesh::Mesh;
use crate::primitive::Primitive;
use crate::vertex::Vertex;

verus! {

/// A loaded asset: meshes plus the materials their primitives index into.
pub struct Model {
    pub meshes: Vec<Mesh>,
    pub materials: Vec<Material>,
}

impl Model {
    pub fn new(meshes: Vec<Mesh>, materials: Vec<Material>) -> (r: Model)
        ensures
            r.meshes == meshes,
            r.materials == materials,
    {
        Model { meshes, materials }
    }
}

/// An opaque, stable index into the scene store's model list. The store is
/// append-only, so a handle stays valid for the store's lifetime.
pub struct ModelHandle {
    index: usize,
}

/// A handle's view is the position in the store it stands for; being an
/// index, it is never negative.
impl View for ModelHandle {
    type V = usize;

    closed spec fn view(&self) -> usize {
        self.index
    }
}

impl ModelHandle {
    pub fn new(index: usize) -> (r: ModelHandle)
        ensures
            r@ == index,
    {
        ModelHandle { index }
    }

    pub fn index(&self) -> (r: usize)
        ensures
            r == self@,
    {
        self.index
    }
}

/// The vertex positions of one primitive, in vertex order.
pub open spec fn prim_positions(p: Primitive) -> Seq<[u32; 3]> {
    p.vertices@.map_values(|v: Vertex| v.position)
}

/// The vertex positions of a primitive list, concatenated in order.
pub open spec fn prims_positions(prims: Seq<Primitive>) -> Seq<[u32; 3]>
    decreases prims.len(),
{
    if prims.len() == 0 {
        Seq::empty()
    } else {
        prims_positions(prims.drop_last()) + prim_positions(prims.last())
    }
}

/// The vertex positions of a mesh list, concatenated in order.
pub open spec fn meshes_positions(ms: Seq<Mesh>) -> Seq<[u32; 3]>
    decreases ms.len(),
{
    if ms.len() == 0 {
        Seq::empty()
    } else {
        meshes_positions(ms.drop_last()) + prims_positions(ms.last().primitives@)
    }
}

/// How many vertices the first `j` primitives of a mesh hold: the index
/// offset its primitive `j` is shifted by. The offset starts over with
/// each mesh.
pub open spec fn prim_offset(prims: Seq<Primitive>, j: int) -> int
    decreases j,
{
    if j <= 0 {
        0
    } else {
        prim_offset(prims, j - 1) + prims[j - 1].vertices@.len()
    }
}

/// One primitive's triangles: its index list grouped in threes, each
/// index shifted by the primitive's offset.
pub open spec fn prim_triangles(p: Primitive, offset: int) -> Seq<[u32; 3]> {
    Seq::new(
        (p.indices@.len() / 3) as nat,
        |t: int|
            [
                (p.indices@[3 * t] + offset) as u32,
                (p.indices@[3 * t + 1] + offset) as u32,
                (p.indices@[3 * t + 2] + offset) as u32,
            ],
    )
}

/// The triangles of a primitive list, each primitive at its offset.
pub open spec fn prims_triangles(prims: Seq<Primitive>) -> Seq<[u32; 3]>
    decreases prims.len(),
{
    if prims.len() == 0 {
        Seq::empty()
    } else {
        prims_triangles(prims.drop_last()) + prim_triangles(
            prims.last(),
            prim_offset(prims, prims.len() - 1),
        )
    }
}

/// The triangles of a mesh list, concatenated in order.
pub open spec fn meshes_triangles(ms: Seq<Mesh>) -> Seq<[u32; 3]>
    decreases ms.len(),
{
    if ms.len() == 0 {
        Seq::empty()
    } else {
        meshes_triangles(ms.drop_last()) + prims_triangles(ms.last().primitives@)
    }
}

/// No shifted index and no offset leaves the machine range.
pub open spec fn prims_offsets_fit(prims: Seq<Primitive>) -> bool {
    &&& prim_offset(prims, prims.len() as int) <= usize::MAX
    &&& forall|j: int, k: int|
        0 <= j < prims.len() && 0 <= k < prims[j].indices@.len() ==> #[trigger] prims[j].indices@[k]
            + prim_offset(prims, j) <= u32::MAX
}

/// The offset only grows along the primitive list.
proof fn lemma_prim_offset_monotone(prims: Seq<Primitive>, j: int)
    requires
        0 <= j <= prims.len(),
    ensures
        prim_offset(prims, j) <= prim_offset(prims, prims.len() as int),
        prim_offset(prims, j) >= 0,
    decreases prims.len() - j,
{
    if j < prims.len() {
        lemma_prim_offset_monotone(prims, j + 1);
    }
    if j > 0 {
        lemma_prim_offset_nonneg(prims, j);
    }
}

proof fn lemma_prim_offset_nonneg(prims: Seq<Primitive>, j: int)
    ensures
        prim_offset(prims, j) >= 0,
    decreases j,
{
    if j > 0 {
        lemma_prim_offset_nonneg(prims, j - 1);
    }
}

impl Model {
    /// Flattens the model into one vertex-position list and one shifted
    /// triangle list, the form a static collision trimesh is built from.
    /// Positions accumulate across all meshes; each mesh's indices are
    /// shifted by the vertex count of the primitives before them in that
    /// mesh alone.
    pub fn trimesh_data(&self) -> (r: (Vec<[u32; 3]>, Vec<[u32; 3]>))
        requires
            forall|mi: int|
                0 <= mi < self.meshes@.len() ==> prims_offsets_fit(
                    (#[trigger] self.meshes@[mi]).primitives@,
                ),
        ensures
            r.0@ =~= meshes_positions(self.meshes@),
            r.1@ =~= meshes_triangles(self.meshes@),
    {
        let mut points: Vec<[u32; 3]> = Vec::new();
        let mut triangles: Vec<[u32; 3]> = Vec::new();
        let mut mi: usize = 0;
        while mi < self.meshes.len()
            invariant
                mi <= self.meshes@.len(),
                forall|m: int|
                    0 <= m < self.meshes@.len() ==> prims_offsets_fit(
                        (#[trigger] self.meshes@[m]).primitives@,
                    ),
                points@ =~= meshes_positions(self.meshes@.take(mi as int)),
                triangles@ =~= meshes_triangles(self.meshes@.take(mi as int)),
            decreases self.meshes@.len() - mi,
        {
            let mesh = &self.meshes[mi];
            let mut offset: usize = 0;
            let mut j: usize = 0;
            while j < mesh.primitives.len()
                invariant
                    j <= mesh.primitives@.len(),
                    prims_offsets_fit(mesh.primitives@),
                    offset == prim_offset(mesh.primitives@, j as int),
                    points@ =~= meshes_positions(self.meshes@.take(mi as int)) + prims_positions(
                        mesh.primitives@.take(j as int),
                    ),
                    triangles@ =~= meshes_triangles(self.meshes@.take(mi as int))
                        + prims_triangles(mesh.primitives@.take(j as int)),
                decreases mesh.primitives@.len() - j,
            {
                let prim = &mesh.primitives[j];
                proof {
                    lemma_prim_offset_monotone(mesh.primitives@, j + 1);
                    assert(mesh.primitives@.take(j + 1).drop_last() =~= mesh.primitives@.take(
                        j as int,
                    ));
                    assert(mesh.primitives@.take(j + 1).last() == mesh.primitives@[j as int]);
                }
                // The offset this primitive's indices are shifted by is the
                // same whether computed on the prefix or the whole list.
                proof {
                    lemma_prim_offset_prefix(mesh.primitives@, j as int + 1, j as int);
                }
                let mut v: usize = 0;
                while v < prim.vertices.len()
                    invariant
                        v <= prim.vertices@.len(),
                        prim == &mesh.primitives@[j as int],
                        points@ =~= meshes_positions(self.meshes@.take(mi as int))
                            + prims_positions(mesh.primitives@.take(j as int)) + prim_positions(
                            *prim,
                        ).take(v as int),
                    decreases prim.vertices@.len() - v,
                {
                    points.push(prim.vertices[v].position);
                    proof {
                        assert(prim_positions(*prim).take(v + 1) =~= prim_positions(*prim).take(
                            v as int,
                        ).push(prim.vertices@[v as int].position));
                    }
                    v = v + 1;
                }
                let tri_count: usize = prim.indices.len() / 3;
                proof {
                    vstd::arithmetic::div_mod::lemma_fundamental_div_mod(
                        prim.indices@.len() as int,
                        3,
                    );
                    vstd::arithmetic::div_mod::lemma_mod_bound(prim.indices@.len() as int, 3);
                }
                let ilen: usize = prim.indices.len();
                let mut t: usize = 0;
                while t < tri_count
                    invariant
                        t <= tri_count,
                        tri_count == prim.indices@.len() / 3,
                        3 * tri_count <= ilen,
                        ilen == prim.indices@.len(),
                        prim == &mesh.primitives@[j as int],
                        prims_offsets_fit(mesh.primitives@),
                        j < mesh.primitives@.len(),
                        offset == prim_offset(mesh.primitives@, j as int),
                        triangles@ =~= meshes_triangles(self.meshes@.take(mi as int))
                            + prims_triangles(mesh.primitives@.take(j as int)) + prim_triangles(
                            *prim,
                            offset as int,
                        ).take(t as int),
                    decreases tri_count - t,
                {
                    let a = prim.indices[3 * t];
                    let b = prim.indices[3 * t + 1];
                    let c = prim.indices[3 * t + 2];
                    proof {
                        lemma_prim_offset_nonneg(mesh.primitives@, j as int);
                    }
                    let tri = [a + offset as u32, b + offset as u32, c + offset as u32];
                    triangles.push(tri);
                    proof {
                        assert(prim_triangles(*prim, offset as int).take(t + 1) =~= prim_triangles(
                            *prim,
                            offset as int,
                        ).take(t as int).push(
                            prim_triangles(*prim, offset as int)[t as int],
                        ));
                    }
                    t = t + 1;
                }
                proof {
                    assert(prim_positions(*prim).take(prim.vertices@.len() as int) =~= prim_positions(
                        *prim,
                    ));
                    assert(prim_triangles(*prim, offset as int).take(tri_count as int)
                        =~= prim_triangles(*prim, offset as int));
                    assert(prims_positions(mesh.primitives@.take(j + 1)) =~= prims_positions(
                        mesh.primitives@.take(j as int),
                    ) + prim_positions(mesh.primitives@[j as int]));
                    assert(prims_triangles(mesh.primitives@.take(j + 1)) =~= prims_triangles(
                        mesh.primitives@.take(j as int),
                    ) + prim_triangles(
                        mesh.primitives@[j as int],
                        prim_offset(mesh.primitives@.take(j + 1), j as int),
                    ));
                }
                offset = offset + prim.vertices.len();
                j = j + 1;
            }
            proof {
                assert(mesh.primitives@.take(mesh.primitives@.len() as int) =~= mesh.primitives@);
                assert(self.meshes@.take(mi + 1).drop_last() =~= self.meshes@.take(mi as int));
                assert(self.meshes@.take(mi + 1).last() == self.meshes@[mi as int]);
            }
            mi = mi + 1;
        }
        proof {
            assert(self.meshes@.take(self.meshes@.len() as int) =~= self.meshes@);
        }
        (points, triangles)
    }
}

/// A prefix of at least `j + 1` entries fixes the offset of primitive
/// `j`.
proof fn lemma_prim_offset_prefix(prims: Seq<Primitive>, m: int, j: int)
    requires
        0 <= j <= m <= prims.len(),
    ensures
        prim_offset(prims.take(m), j) == prim_offset(prims, j),
    decreases j,
{
    if j > 0 {
        lemma_prim_offset_prefix(prims, m, j - 1);
    }
}

} // verus!
