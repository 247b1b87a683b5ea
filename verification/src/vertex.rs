//! Vertices as the GPU receives them, and the assembly steps that build a
//! primitive's vertex list out of the decoded attribute arrays.
//!
//! Attribute scalars are IEEE-754 single-precision bit patterns.

use vstd::prelude::*;
use crate::rational::Rat;
use crate::rational::rat_wf;

verus! {

/// One vertex: position, texture coordinate, normal and tangent, each
/// component an `f32` bit pattern.
#[derive(Clone, Copy, PartialEq, Eq, Debug)]
pub struct Vertex {
    pub position: [u32; 3],
    pub texture_coord: [u32; 2],
    pub normal: [u32; 3],
    pub tangent: [u32; 3],
}

impl Vertex {
    pub fn new(
        position: [u32; 3],
        texture_coord: [u32; 2],
        normal: [u32; 3],
        tangent: [u32; 3],
    ) -> (r: Vertex)
        ensures
            r == (Vertex { position, texture_coord, normal, tangent }),
    {
        Vertex { position, texture_coord, normal, tangent }
    }

    pub fn position(&self) -> (r: [u32; 3])
        ensures
            r == self.position,
    {
        self.position
    }
}

/// The three positions and three texture coordinates of one triangle, in
/// index-buffer order: what the tangent reconstruction consumes.
#[derive(Clone, Copy, PartialEq, Eq, Debug)]
pub struct TangentInput {
    pub positions: [[u32; 3]; 3],
    pub texture_coords: [[u32; 2]; 3],
}

/// Groups an index buffer into consecutive triples, one per triangle.
/// Indices past the last full triple are ignored.
pub fn triangle_index_triples(indices: &Vec<u32>) -> (r: Vec<[u32; 3]>)
    ensures
        r@.len() == indices@.len() / 3,
        forall|i: int| 0 <= i < r@.len() ==> r@[i] == [
            indices@[3 * i],
            indices@[3 * i + 1],
            indices@[3 * i + 2],
        ],
{
    let len: usize = indices.len();
    let count: usize = len / 3;
    proof {
        vstd::arithmetic::div_mod::lemma_fundamental_div_mod(len as int, 3);
        vstd::arithmetic::div_mod::lemma_mod_bound(len as int, 3);
    }
    let mut r: Vec<[u32; 3]> = Vec::new();
    let mut i: usize = 0;
    while i < count
        invariant
            i <= count,
            count == indices@.len() / 3,
            3 * count <= len,
            len == indices@.len(),
            r@.len() == i,
            forall|k: int| 0 <= k < i ==> r@[k] == [
                indices@[3 * k],
                indices@[3 * k + 1],
                indices@[3 * k + 2],
            ],
        decreases count - i,
    {
        r.push([indices[3 * i], indices[3 * i + 1], indices[3 * i + 2]]);
        i = i + 1;
    }
    r
}

/// Gathers, for each triangle of the index buffer, the three indexed
/// positions and texture coordinates that feed the tangent reconstruction.
///
/// Every index of a full triple must address both attribute arrays.
pub fn tangent_triangle_inputs(
    indices: &Vec<u32>,
    positions: &Vec<[u32; 3]>,
    texture_coords: &Vec<[u32; 2]>,
) -> (r: Vec<TangentInput>)
    requires
        forall|k: int| 0 <= k < 3 * (indices@.len() / 3) ==> {
            &&& indices@[k] < positions@.len()
            &&& indices@[k] < texture_coords@.len()
        },
    ensures
        r@.len() == indices@.len() / 3,
        forall|i: int| 0 <= i < r@.len() ==> r@[i] == (TangentInput {
            positions: [
                positions@[indices@[3 * i] as int],
                positions@[indices@[3 * i + 1] as int],
                positions@[indices@[3 * i + 2] as int],
            ],
            texture_coords: [
                texture_coords@[indices@[3 * i] as int],
                texture_coords@[indices@[3 * i + 1] as int],
                texture_coords@[indices@[3 * i + 2] as int],
            ],
        }),
{
    let len: usize = indices.len();
    let count: usize = len / 3;
    proof {
        vstd::arithmetic::div_mod::lemma_fundamental_div_mod(len as int, 3);
        vstd::arithmetic::div_mod::lemma_mod_bound(len as int, 3);
    }
    let mut r: Vec<TangentInput> = Vec::new();
    let mut i: usize = 0;
    while i < count
        invariant
            i <= count,
            count == indices@.len() / 3,
            3 * count <= len,
            len == indices@.len(),
            forall|k: int| 0 <= k < 3 * count ==> {
                &&& indices@[k] < positions@.len()
                &&& indices@[k] < texture_coords@.len()
            },
            r@.len() == i,
            forall|k: int| 0 <= k < i ==> r@[k] == (TangentInput {
                positions: [
                    positions@[indices@[3 * k] as int],
                    positions@[indices@[3 * k + 1] as int],
                    positions@[indices@[3 * k + 2] as int],
                ],
                texture_coords: [
                    texture_coords@[indices@[3 * k] as int],
                    texture_coords@[indices@[3 * k + 1] as int],
                    texture_coords@[indices@[3 * k + 2] as int],
                ],
            }),
        decreases count - i,
    {
        let i1 = indices[3 * i] as usize;
        let i2 = indices[3 * i + 1] as usize;
        let i3 = indices[3 * i + 2] as usize;
        r.push(TangentInput {
            positions: [positions[i1], positions[i2], positions[i3]],
            texture_coords: [texture_coords[i1], texture_coords[i2], texture_coords[i3]],
        });
        i = i + 1;
    }
    r
}

/// Assembles the vertex list of a primitive. Vertex `i` takes position,
/// texture coordinate and normal `i`, and the tangent of triangle `i / 3`:
/// tangents are indexed by the vertex's place in the list, which matches
/// triangle membership only for vertex lists laid out in strict
/// triangle-major order.
pub fn build_vertices(
    positions: &Vec<[u32; 3]>,
    texture_coords: &Vec<[u32; 2]>,
    normals: &Vec<[u32; 3]>,
    tangents: &Vec<[u32; 3]>,
) -> (r: Vec<Vertex>)
    requires
        texture_coords@.len() == positions@.len(),
        normals@.len() == positions@.len(),
        positions@.len() <= 3 * tangents@.len(),
    ensures
        r@.len() == positions@.len(),
        forall|i: int| 0 <= i < r@.len() ==> r@[i] == (Vertex {
            position: positions@[i],
            texture_coord: texture_coords@[i],
            normal: normals@[i],
            tangent: tangents@[i / 3],
        }),
{
    let mut r: Vec<Vertex> = Vec::new();
    let mut i: usize = 0;
    while i < positions.len()
        invariant
            i <= positions@.len(),
            texture_coords@.len() == positions@.len(),
            normals@.len() == positions@.len(),
            positions@.len() <= 3 * tangents@.len(),
            r@.len() == i,
            forall|k: int| 0 <= k < i ==> r@[k] == (Vertex {
                position: positions@[k],
                texture_coord: texture_coords@[k],
                normal: normals@[k],
                tangent: tangents@[k / 3],
            }),
        decreases positions@.len() - i,
    {
        r.push(Vertex {
            position: positions[i],
            texture_coord: texture_coords[i],
            normal: normals[i],
            tangent: tangents[i / 3],
        });
        i = i + 1;
    }
    r
}

/// A nonnegative factor times a factor bounded in magnitude stays within
/// the product of the bounds.
proof fn lemma_abs_mul_bound(a: int, b: int, bound_a: int, bound_b: int)
    requires
        0 <= a <= bound_a,
        -bound_b <= b <= bound_b,
        0 <= bound_b,
    ensures
        -(bound_a * bound_b) <= a * b <= bound_a * bound_b,
{
    if b >= 0 {
        vstd::arithmetic::mul::lemma_mul_upper_bound(a, bound_a, b, bound_b);
        vstd::arithmetic::mul::lemma_mul_nonnegative(a, b);
        vstd::arithmetic::mul::lemma_mul_nonnegative(bound_a, bound_b);
    } else {
        vstd::arithmetic::mul::lemma_mul_upper_bound(a, bound_a, -b, bound_b);
        vstd::arithmetic::mul::lemma_mul_unary_negation(a, b);
        vstd::arithmetic::mul::lemma_mul_nonnegative(a, -b);
        vstd::arithmetic::mul::lemma_mul_nonnegative(bound_a, bound_b);
    }
}

/// A positive factor never turns a nonzero factor into zero.
proof fn lemma_pos_times_nonzero(a: int, b: int)
    requires
        a > 0,
        b != 0,
    ensures
        a * b != 0,
{
    if b > 0 {
        vstd::arithmetic::mul::lemma_mul_strictly_positive(a, b);
    } else {
        vstd::arithmetic::mul::lemma_mul_strictly_positive(a, -b);
        vstd::arithmetic::mul::lemma_mul_unary_negation(a, b);
    }
}

/// The determinant of the UV-gradient system: `du1 * dv2 - du2 * dv1`
/// over the numerators of the three texture coordinates.
pub open spec fn uv_det(uv1: [i64; 2], uv2: [i64; 2], uv3: [i64; 2]) -> int {
    (uv2[0] - uv1[0]) * (uv3[1] - uv1[1]) - (uv3[0] - uv1[0]) * (uv2[1] - uv1[1])
}

/// The numerator of tangent component `k`:
/// `dv2 * e1[k] - dv1 * e2[k]`, scaled by the texture denominator so it
/// stands over the denominator `pos_den * uv_det`.
pub open spec fn tangent_num(
    p1: [i64; 3],
    p2: [i64; 3],
    p3: [i64; 3],
    uv1: [i64; 2],
    uv2: [i64; 2],
    uv3: [i64; 2],
    uv_den: int,
    k: int,
) -> int {
    uv_den * ((uv3[1] - uv1[1]) * (p2[k] - p1[k]) - (uv2[1] - uv1[1]) * (p3[k] - p1[k]))
}

/// Reconstructs a triangle's tangent from its three positions and
/// texture coordinates, in exact rational arithmetic: positions share
/// the denominator `pos_den`, texture coordinates the denominator
/// `uv_den`, and each result component equals
/// `tangent_num / (pos_den * uv_det)` exactly. No normalization is
/// applied. A triangle with a zero UV determinant is degenerate and is
/// excluded: the reciprocal of its determinant does not exist.
pub fn calculate_tangent(
    p1: [i64; 3],
    p2: [i64; 3],
    p3: [i64; 3],
    pos_den: i64,
    uv1: [i64; 2],
    uv2: [i64; 2],
    uv3: [i64; 2],
    uv_den: i64,
) -> (r: [Rat; 3])
    requires
        0 < pos_den <= 0x4000_0000,
        0 < uv_den <= 0x4000_0000,
        forall|k: int| 0 <= k < 3 ==> -0x4000_0000 <= #[trigger] p1[k] <= 0x4000_0000,
        forall|k: int| 0 <= k < 3 ==> -0x4000_0000 <= #[trigger] p2[k] <= 0x4000_0000,
        forall|k: int| 0 <= k < 3 ==> -0x4000_0000 <= #[trigger] p3[k] <= 0x4000_0000,
        forall|k: int| 0 <= k < 2 ==> -0x4000_0000 <= #[trigger] uv1[k] <= 0x4000_0000,
        forall|k: int| 0 <= k < 2 ==> -0x4000_0000 <= #[trigger] uv2[k] <= 0x4000_0000,
        forall|k: int| 0 <= k < 2 ==> -0x4000_0000 <= #[trigger] uv3[k] <= 0x4000_0000,
        uv_det(uv1, uv2, uv3) != 0,
    ensures
        forall|k: int|
            0 <= k < 3 ==> {
                &&& rat_wf(#[trigger] r[k])
                &&& r[k].num * (pos_den * uv_det(uv1, uv2, uv3)) == tangent_num(
                    p1,
                    p2,
                    p3,
                    uv1,
                    uv2,
                    uv3,
                    uv_den as int,
                    k,
                ) * r[k].den
            },
{
    let du1: i128 = uv2[0] as i128 - uv1[0] as i128;
    let dv1: i128 = uv2[1] as i128 - uv1[1] as i128;
    let du2: i128 = uv3[0] as i128 - uv1[0] as i128;
    let dv2: i128 = uv3[1] as i128 - uv1[1] as i128;
    proof {
        assert(du1 * dv2 <= 0x4000_0000_0000_0000_0 && du1 * dv2 >= -0x4000_0000_0000_0000_0)
            by (nonlinear_arith)
            requires
                -0x8000_0000 <= du1 <= 0x8000_0000,
                -0x8000_0000 <= dv2 <= 0x8000_0000,
        ;
        assert(du2 * dv1 <= 0x4000_0000_0000_0000_0 && du2 * dv1 >= -0x4000_0000_0000_0000_0)
            by (nonlinear_arith)
            requires
                -0x8000_0000 <= du2 <= 0x8000_0000,
                -0x8000_0000 <= dv1 <= 0x8000_0000,
        ;
    }
    let det: i128 = du1 * dv2 - du2 * dv1;
    proof {
        lemma_abs_mul_bound(pos_den as int, det as int, 0x4000_0000, 0x8000_0000_0000_0000_0);
        lemma_pos_times_nonzero(pos_den as int, det as int);
        assert(0x4000_0000 * 0x8000_0000_0000_0000_0 == 0x2_0000_0000_0000_0000_0000_0000int);
    }
    let den: i128 = pos_den as i128 * det;
    let e1 = [
        p2[0] as i128 - p1[0] as i128,
        p2[1] as i128 - p1[1] as i128,
        p2[2] as i128 - p1[2] as i128,
    ];
    let e2 = [
        p3[0] as i128 - p1[0] as i128,
        p3[1] as i128 - p1[1] as i128,
        p3[2] as i128 - p1[2] as i128,
    ];
    let mut out: [Rat; 3] = [Rat { num: 0, den: 1 }, Rat { num: 0, den: 1 }, Rat {
        num: 0,
        den: 1,
    }];
    let mut k: usize = 0;
    while k < 3
        invariant
            k <= 3,
            -0x8000_0000 <= dv1 <= 0x8000_0000,
            -0x8000_0000 <= dv2 <= 0x8000_0000,
            forall|j: int| 0 <= j < 3 ==> -0x8000_0000 <= #[trigger] e1[j] <= 0x8000_0000,
            forall|j: int| 0 <= j < 3 ==> -0x8000_0000 <= #[trigger] e2[j] <= 0x8000_0000,
            forall|j: int| 0 <= j < 3 ==> e1[j] == p2[j] - p1[j],
            forall|j: int| 0 <= j < 3 ==> e2[j] == p3[j] - p1[j],
            dv1 == uv2[1] - uv1[1],
            dv2 == uv3[1] - uv1[1],
            det == uv_det(uv1, uv2, uv3),
            den == pos_den as i128 * det,
            -0x2_0000_0000_0000_0000_0000_0000 <= den <= 0x2_0000_0000_0000_0000_0000_0000,
            den != 0,
            0 < pos_den <= 0x4000_0000,
            0 < uv_den <= 0x4000_0000,
            forall|j: int|
                0 <= j < k ==> {
                    &&& rat_wf(#[trigger] out[j])
                    &&& out[j].num * (pos_den * uv_det(uv1, uv2, uv3)) == tangent_num(
                        p1,
                        p2,
                        p3,
                        uv1,
                        uv2,
                        uv3,
                        uv_den as int,
                        j,
                    ) * out[j].den
                },
        decreases 3 - k,
    {
        proof {
            assert(dv2 * e1[k as int] <= 0x4000_0000_0000_0000_0 && dv2 * e1[k as int]
                >= -0x4000_0000_0000_0000_0 && dv1 * e2[k as int] <= 0x4000_0000_0000_0000_0
                && dv1 * e2[k as int] >= -0x4000_0000_0000_0000_0) by (nonlinear_arith)
                requires
                    -0x8000_0000 <= dv1 <= 0x8000_0000,
                    -0x8000_0000 <= dv2 <= 0x8000_0000,
                    -0x8000_0000 <= e1[k as int] <= 0x8000_0000,
                    -0x8000_0000 <= e2[k as int] <= 0x8000_0000,
            ;
        }
        let cross: i128 = dv2 * e1[k] - dv1 * e2[k];
        proof {
            lemma_abs_mul_bound(
                uv_den as int,
                cross as int,
                0x4000_0000,
                0x8000_0000_0000_0000_0,
            );
            assert(0x4000_0000 * 0x8000_0000_0000_0000_0 == 0x2_0000_0000_0000_0000_0000_0000int);
        }
        let num: i128 = uv_den as i128 * cross;
        let entry = if den < 0 {
            Rat { num: -num, den: -den }
        } else {
            Rat { num, den }
        };
        proof {
            if den < 0 {
                vstd::arithmetic::mul::lemma_mul_unary_negation(num as int, den as int);
                vstd::arithmetic::mul::lemma_mul_unary_negation(
                    tangent_num(p1, p2, p3, uv1, uv2, uv3, uv_den as int, k as int),
                    den as int,
                );
            }
        }
        out[k] = entry;
        k = k + 1;
    }
    out
}

/// Tangent determinism: for fixed non-degenerate inputs, the
/// reconstruction relation pins every component as a rational. Any two
/// results that satisfy [`calculate_tangent`]'s contract for the same
/// inputs are equal as rationals, componentwise — so two calls on
/// identical arguments agree.
pub proof fn lemma_tangent_deterministic(
    p1: [i64; 3],
    p2: [i64; 3],
    p3: [i64; 3],
    pos_den: i64,
    uv1: [i64; 2],
    uv2: [i64; 2],
    uv3: [i64; 2],
    uv_den: i64,
    r1: [Rat; 3],
    r2: [Rat; 3],
)
    requires
        pos_den > 0,
        uv_det(uv1, uv2, uv3) != 0,
        forall|k: int|
            0 <= k < 3 ==> rat_wf(#[trigger] r1[k]) && r1[k].num * (pos_den * uv_det(
                uv1,
                uv2,
                uv3,
            )) == tangent_num(p1, p2, p3, uv1, uv2, uv3, uv_den as int, k) * r1[k].den,
        forall|k: int|
            0 <= k < 3 ==> rat_wf(#[trigger] r2[k]) && r2[k].num * (pos_den * uv_det(
                uv1,
                uv2,
                uv3,
            )) == tangent_num(p1, p2, p3, uv1, uv2, uv3, uv_den as int, k) * r2[k].den,
    ensures
        forall|k: int| 0 <= k < 3 ==> crate::rational::rat_eq(#[trigger] r1[k], r2[k]),
{
    let d_all = pos_den * uv_det(uv1, uv2, uv3);
    lemma_pos_times_nonzero(pos_den as int, uv_det(uv1, uv2, uv3));
    assert forall|k: int| 0 <= k < 3 implies crate::rational::rat_eq(#[trigger] r1[k], r2[k]) by {
        let n = tangent_num(p1, p2, p3, uv1, uv2, uv3, uv_den as int, k);
        let a = r1[k].num as int;
        let b = r1[k].den as int;
        let c = r2[k].num as int;
        let e = r2[k].den as int;
        // Multiply each relation by the other result's denominator and
        // reassociate so the shared factor stands on the outside.
        assert((a * d_all) * e == (n * b) * e);
        assert((c * d_all) * b == (n * e) * b);
        vstd::arithmetic::mul::lemma_mul_is_associative(a, d_all, e);
        vstd::arithmetic::mul::lemma_mul_is_commutative(d_all, e);
        vstd::arithmetic::mul::lemma_mul_is_associative(a, e, d_all);
        vstd::arithmetic::mul::lemma_mul_is_associative(c, d_all, b);
        vstd::arithmetic::mul::lemma_mul_is_commutative(d_all, b);
        vstd::arithmetic::mul::lemma_mul_is_associative(c, b, d_all);
        vstd::arithmetic::mul::lemma_mul_is_associative(n, b, e);
        vstd::arithmetic::mul::lemma_mul_is_associative(n, e, b);
        vstd::arithmetic::mul::lemma_mul_is_commutative(b, e);
        assert((a * e) * d_all == (c * b) * d_all);
        vstd::arithmetic::mul::lemma_mul_is_commutative(a * e, d_all);
        vstd::arithmetic::mul::lemma_mul_is_commutative(c * b, d_all);
        vstd::arithmetic::mul::lemma_mul_equality_converse(d_all, a * e, c * b);
    }
}

} // verus!
