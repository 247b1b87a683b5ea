//! The cubemap geometry kit and the image-based-lighting precomputation
//! plans.
//!
//! Cube corners and face bases are exact integer data here; the
//! application turns a face basis into a look-at matrix and a projection
//! spec into a perspective matrix, and runs the planned passes on the
//! device in plan order.

use vstd::prelude::*;
use vstd::arithmetic::power2::pow2;
use vstd::arithmetic::power2::lemma_pow2_adds;
use vstd::arithmetic::power2::lemma_pow2_strictly_increases;
use vstd::arithmetic::power2::lemma2_to64;
use crate::gpu::BufferId;
use crate::gpu::CubemapId;
use crate::gpu::TextureId;

verus! {

/// One corner of the unit cube, in whole units.
#[derive(Clone, Copy, PartialEq, Eq, Debug)]
pub struct SkyboxVertex {
    pub position: [i8; 3],
}

/// One corner of the full-screen textured quad.
#[derive(Clone, Copy, PartialEq, Eq, Debug)]
pub struct QuadVertex {
    pub position: [i8; 3],
    pub texture_coord: [i8; 2],
}

/// The eight corners of the unit cube, in the order the index list
/// expects.
pub open spec fn cube_vertices_spec() -> Seq<[i8; 3]> {
    seq![
        [1i8, 1i8, 1i8],
        [-1i8, 1i8, 1i8],
        [1i8, -1i8, 1i8],
        [1i8, 1i8, -1i8],
        [-1i8, -1i8, 1i8],
        [-1i8, 1i8, -1i8],
        [1i8, -1i8, -1i8],
        [-1i8, -1i8, -1i8],
    ]
}

/// The 36 indices: 12 triangles, two per cube face, wound for rendering
/// from the cube's center.
pub open spec fn cube_indices_spec() -> Seq<u32> {
    seq![
        1u32, 3u32, 0u32,
        3u32, 1u32, 5u32,
        4u32, 5u32, 1u32,
        5u32, 4u32, 7u32,
        2u32, 7u32, 4u32,
        7u32, 2u32, 6u32,
        0u32, 6u32, 2u32,
        6u32, 0u32, 3u32,
        1u32, 2u32, 4u32,
        2u32, 1u32, 0u32,
        5u32, 6u32, 3u32,
        6u32, 5u32, 7u32,
    ]
}

/// The cube's corner list, ready for upload.
pub fn make_cube_vertices() -> (r: Vec<SkyboxVertex>)
    ensures
        r@.len() == 8,
        forall|i: int| 0 <= i < 8 ==> (#[trigger] r@[i]).position == cube_vertices_spec()[i],
{
    let mut r: Vec<SkyboxVertex> = Vec::new();
    r.push(SkyboxVertex { position: [1, 1, 1] });
    r.push(SkyboxVertex { position: [-1, 1, 1] });
    r.push(SkyboxVertex { position: [1, -1, 1] });
    r.push(SkyboxVertex { position: [1, 1, -1] });
    r.push(SkyboxVertex { position: [-1, -1, 1] });
    r.push(SkyboxVertex { position: [-1, 1, -1] });
    r.push(SkyboxVertex { position: [1, -1, -1] });
    r.push(SkyboxVertex { position: [-1, -1, -1] });
    r
}

/// The cube's index list, ready for upload.
pub fn make_cube_indices() -> (r: Vec<u32>)
    ensures
        r@ =~= cube_indices_spec(),
{
    let mut r: Vec<u32> = Vec::new();
    r.push(1);
    r.push(3);
    r.push(0);
    r.push(3);
    r.push(1);
    r.push(5);
    r.push(4);
    r.push(5);
    r.push(1);
    r.push(5);
    r.push(4);
    r.push(7);
    r.push(2);
    r.push(7);
    r.push(4);
    r.push(7);
    r.push(2);
    r.push(6);
    r.push(0);
    r.push(6);
    r.push(2);
    r.push(6);
    r.push(0);
    r.push(3);
    r.push(1);
    r.push(2);
    r.push(4);
    r.push(2);
    r.push(1);
    r.push(0);
    r.push(5);
    r.push(6);
    r.push(3);
    r.push(6);
    r.push(5);
    r.push(7);
    r
}

/// The full-screen quad's corners: positions and texture coordinates in
/// whole units.
pub fn texture_quad_vertices() -> (r: Vec<QuadVertex>)
    ensures
        r@ =~= seq![
            QuadVertex { position: [-1i8, -1i8, 1i8], texture_coord: [0i8, 0i8] },
            QuadVertex { position: [1i8, -1i8, 1i8], texture_coord: [1i8, 0i8] },
            QuadVertex { position: [-1i8, 1i8, 1i8], texture_coord: [0i8, 1i8] },
            QuadVertex { position: [1i8, 1i8, 1i8], texture_coord: [1i8, 1i8] },
        ],
{
    let mut r: Vec<QuadVertex> = Vec::new();
    r.push(QuadVertex { position: [-1, -1, 1], texture_coord: [0, 0] });
    r.push(QuadVertex { position: [1, -1, 1], texture_coord: [1, 0] });
    r.push(QuadVertex { position: [-1, 1, 1], texture_coord: [0, 1] });
    r.push(QuadVertex { position: [1, 1, 1], texture_coord: [1, 1] });
    r
}

/// The quad's two triangles.
pub fn texture_quad_indices() -> (r: Vec<u32>)
    ensures
        r@ =~= seq![0u32, 1u32, 2u32, 2u32, 1u32, 3u32],
{
    let mut r: Vec<u32> = Vec::new();
    r.push(0);
    r.push(1);
    r.push(2);
    r.push(2);
    r.push(1);
    r.push(3);
    r
}

/// One cubemap face's camera: a look-at from the origin toward `target`
/// with `up` for the camera's up direction, in whole units.
#[derive(Clone, Copy, PartialEq, Eq, Debug)]
pub struct FaceBasis {
    pub target: [i8; 3],
    pub up: [i8; 3],
}

/// The six face cameras in layer order: +X, -X, +Y, -Y, +Z, -Z. The
/// Y faces take a Z-derived up vector, every other face a -Y up vector,
/// so no camera's up is parallel to its view direction.
pub open spec fn face_bases_spec() -> Seq<FaceBasis> {
    seq![
        FaceBasis { target: [1i8, 0i8, 0i8], up: [0i8, -1i8, 0i8] },
        FaceBasis { target: [-1i8, 0i8, 0i8], up: [0i8, -1i8, 0i8] },
        FaceBasis { target: [0i8, 1i8, 0i8], up: [0i8, 0i8, 1i8] },
        FaceBasis { target: [0i8, -1i8, 0i8], up: [0i8, 0i8, -1i8] },
        FaceBasis { target: [0i8, 0i8, 1i8], up: [0i8, -1i8, 0i8] },
        FaceBasis { target: [0i8, 0i8, -1i8], up: [0i8, -1i8, 0i8] },
    ]
}

/// The six face cameras, ready to turn into view matrices.
pub fn cubemap_face_bases() -> (r: Vec<FaceBasis>)
    ensures
        r@ =~= face_bases_spec(),
{
    let mut r: Vec<FaceBasis> = Vec::new();
    r.push(FaceBasis { target: [1, 0, 0], up: [0, -1, 0] });
    r.push(FaceBasis { target: [-1, 0, 0], up: [0, -1, 0] });
    r.push(FaceBasis { target: [0, 1, 0], up: [0, 0, 1] });
    r.push(FaceBasis { target: [0, -1, 0], up: [0, 0, -1] });
    r.push(FaceBasis { target: [0, 0, 1], up: [0, -1, 0] });
    r.push(FaceBasis { target: [0, 0, -1], up: [0, -1, 0] });
    r
}

/// The dot product of two integer 3-vectors.
pub open spec fn dot3(a: [i8; 3], b: [i8; 3]) -> int {
    a[0] * b[0] + a[1] * b[1] + a[2] * b[2]
}

/// Face coverage: the six cameras point at six pairwise distinct
/// directions — every signed axis exactly once — and each camera's up
/// vector is nonzero and perpendicular to its view direction, so the six
/// rendered faces tile the whole cube with no face repeated or skipped.
pub proof fn lemma_face_coverage()
    ensures
        face_bases_spec().len() == 6,
        forall|i: int, j: int|
            0 <= i < j < 6 ==> face_bases_spec()[i].target != face_bases_spec()[j].target,
        forall|i: int|
            0 <= i < 6 ==> dot3(
                (#[trigger] face_bases_spec()[i]).target,
                face_bases_spec()[i].up,
            ) == 0,
        forall|i: int|
            0 <= i < 6 ==> (#[trigger] face_bases_spec()[i]).up != [0i8, 0i8, 0i8],
{
    assert forall|i: int, j: int|
        0 <= i < j < 6 implies face_bases_spec()[i].target != face_bases_spec()[j].target by {
        let s = face_bases_spec();
        assert(s[0].target[0] == 1 && s[1].target[0] == -1 && s[2].target[0] == 0);
    }
    assert forall|i: int|
        0 <= i < 6 implies dot3((#[trigger] face_bases_spec()[i]).target, face_bases_spec()[i].up)
        == 0 by {
        let s = face_bases_spec();
        if i == 0 {
            assert(dot3(s[0].target, s[0].up) == 0);
        } else if i == 1 {
            assert(dot3(s[1].target, s[1].up) == 0);
        } else if i == 2 {
            assert(dot3(s[2].target, s[2].up) == 0);
        } else if i == 3 {
            assert(dot3(s[3].target, s[3].up) == 0);
        } else if i == 4 {
            assert(dot3(s[4].target, s[4].up) == 0);
        } else {
            assert(dot3(s[5].target, s[5].up) == 0);
        }
    }
}

/// Which axis (0, 1, 2) and sign each consecutive pair of cube triangles
/// lies on, in index-list order.
pub open spec fn cube_face_axis(pair: int) -> (int, i8) {
    seq![(1int, 1i8), (0int, -1i8), (1int, -1i8), (0int, 1i8), (2int, 1i8), (2int, -1i8)][pair]
}

/// Corner `k` of triangle `t` lies on the face the triangle's pair is
/// assigned to: its coordinate along the face's axis is the face's sign.
pub open spec fn triangle_on_its_face(t: int, k: int) -> bool {
    let (axis, sign) = cube_face_axis(t / 2);
    cube_vertices_spec()[cube_indices_spec()[3 * t + k] as int][axis] == sign
}

/// Every cube triangle lies flat on one cube face — all three of its
/// corners share the face's fixed coordinate — and consecutive triangle
/// pairs tile the six faces once each: two triangles per face, no face
/// repeated or skipped.
pub proof fn lemma_cube_triangles_tile_faces()
    ensures
        cube_indices_spec().len() == 36,
        forall|t: int, k: int| 0 <= t < 12 && 0 <= k < 3 ==> #[trigger] triangle_on_its_face(t, k),
        forall|p: int, q: int| 0 <= p < q < 6 ==> cube_face_axis(p) != cube_face_axis(q),
{
    assert forall|t: int, k: int|
        0 <= t < 12 && 0 <= k < 3 implies #[trigger] triangle_on_its_face(t, k) by {
        let idx = cube_indices_spec();
        let vs = cube_vertices_spec();
        assert(0 <= 3 * t + k < 36);
        assert(idx[3 * t + k] < 8);
        assert(triangle_on_its_face(t, k));
    }
}

/// The one projection every face pass shares: square aspect, a
/// quarter-turn field of view, and fixed near and far planes in
/// hundredths. Using this single projection for all six faces is what
/// makes each face's render cover exactly one cube face with no seams.
#[derive(Clone, Copy, PartialEq, Eq, Structural, Debug)]
pub struct ProjectionSpec {
    pub aspect_num: u32,
    pub aspect_den: u32,
    pub fov_degrees: u32,
    pub near_hundredths: u32,
    pub far_hundredths: u32,
}

/// The shared cubemap projection: aspect 1, 90 degrees, near 0.1,
/// far 10.
pub fn cubemap_projection() -> (r: ProjectionSpec)
    ensures
        r == (ProjectionSpec {
            aspect_num: 1u32,
            aspect_den: 1u32,
            fov_degrees: 90u32,
            near_hundredths: 10u32,
            far_hundredths: 1000u32,
        }),
{
    ProjectionSpec {
        aspect_num: 1,
        aspect_den: 1,
        fov_degrees: 90,
        near_hundredths: 10,
        far_hundredths: 1000,
    }
}

/// One cubemap-face render pass: which face, at what target resolution.
#[derive(Clone, Copy, PartialEq, Eq, Debug)]
pub struct FacePass {
    pub face: usize,
    pub width: u32,
    pub height: u32,
}

/// The environment-to-cubemap stage: six fixed-resolution passes, one
/// per face in layer order, then mipmap generation on the result.
pub struct HdrToCubemapPlan {
    pub passes: Vec<FacePass>,
    pub cubemap_size: u32,
    pub generate_mipmaps: bool,
}

/// The resolution every environment face pass renders at.
pub const HDR_FACE_SIZE: u32 = 2048;

/// The small resolution irradiance convolution renders at: the integral
/// is low-frequency and needs no more.
pub const IRRADIANCE_FACE_SIZE: u32 = 32;

/// How many mip levels the prefiltered specular cubemap holds.
pub const PREFILTERED_MIP_COUNT: u32 = 7;

/// The default edge length of the BRDF integration lookup texture.
pub const BRDF_LUT_SIZE: u32 = 512;

/// Plans the environment-to-cubemap stage.
pub fn hdr_to_cubemap_plan() -> (r: HdrToCubemapPlan)
    ensures
        r.passes@.len() == 6,
        forall|i: int|
            0 <= i < 6 ==> #[trigger] r.passes@[i] == (FacePass {
                face: i as usize,
                width: HDR_FACE_SIZE,
                height: HDR_FACE_SIZE,
            }),
        r.cubemap_size == HDR_FACE_SIZE,
        r.generate_mipmaps,
{
    let mut passes: Vec<FacePass> = Vec::new();
    let mut i: usize = 0;
    while i < 6
        invariant
            i <= 6,
            passes@.len() == i,
            forall|k: int|
                0 <= k < i ==> #[trigger] passes@[k] == (FacePass {
                    face: k as usize,
                    width: HDR_FACE_SIZE,
                    height: HDR_FACE_SIZE,
                }),
        decreases 6 - i,
    {
        passes.push(FacePass { face: i, width: HDR_FACE_SIZE, height: HDR_FACE_SIZE });
        i = i + 1;
    }
    HdrToCubemapPlan { passes, cubemap_size: HDR_FACE_SIZE, generate_mipmaps: true }
}

/// The irradiance stage: six small passes, each upscale-blitted into its
/// full-resolution destination face, then mipmap generation.
pub struct IrradiancePlan {
    pub passes: Vec<FacePass>,
    pub blit_width: u32,
    pub blit_height: u32,
    pub generate_mipmaps: bool,
}

/// Plans the irradiance convolution stage.
pub fn irradiance_plan() -> (r: IrradiancePlan)
    ensures
        r.passes@.len() == 6,
        forall|i: int|
            0 <= i < 6 ==> #[trigger] r.passes@[i] == (FacePass {
                face: i as usize,
                width: IRRADIANCE_FACE_SIZE,
                height: IRRADIANCE_FACE_SIZE,
            }),
        r.blit_width == HDR_FACE_SIZE,
        r.blit_height == HDR_FACE_SIZE,
        r.generate_mipmaps,
{
    let mut passes: Vec<FacePass> = Vec::new();
    let mut i: usize = 0;
    while i < 6
        invariant
            i <= 6,
            passes@.len() == i,
            forall|k: int|
                0 <= k < i ==> #[trigger] passes@[k] == (FacePass {
                    face: k as usize,
                    width: IRRADIANCE_FACE_SIZE,
                    height: IRRADIANCE_FACE_SIZE,
                }),
        decreases 6 - i,
    {
        passes.push(
            FacePass { face: i, width: IRRADIANCE_FACE_SIZE, height: IRRADIANCE_FACE_SIZE },
        );
        i = i + 1;
    }
    IrradiancePlan {
        passes,
        blit_width: HDR_FACE_SIZE,
        blit_height: HDR_FACE_SIZE,
        generate_mipmaps: true,
    }
}

/// One prefiltered-specular mip level: rendered for all six faces
/// directly into that level at its own resolution, with roughness
/// `roughness_num / roughness_den`. No mipmap generation follows this
/// stage: every level is written explicitly.
#[derive(Clone, Copy, PartialEq, Eq, Debug)]
pub struct PrefilterMip {
    pub mip_level: u32,
    pub width: u32,
    pub roughness_num: u32,
    pub roughness_den: u32,
}

/// The planned prefilter stage for `mip_count` levels: level `m` renders
/// at `2^(mip_count - 1 - m)` texels per edge with roughness
/// `m / (mip_count - 1)`.
pub open spec fn prefilter_plan_shape(s: Seq<PrefilterMip>, mip_count: int) -> bool {
    &&& s.len() == mip_count
    &&& forall|m: int|
        0 <= m < mip_count ==> #[trigger] s[m] == (PrefilterMip {
            mip_level: m as u32,
            width: pow2((mip_count - 1 - m) as nat) as u32,
            roughness_num: m as u32,
            roughness_den: (mip_count - 1) as u32,
        })
}

/// Plans the specular prefiltering stage.
pub fn prefilter_plan(mip_count: u32) -> (r: Vec<PrefilterMip>)
    requires
        2 <= mip_count <= 32,
    ensures
        prefilter_plan_shape(r@, mip_count as int),
{
    let mut r: Vec<PrefilterMip> = Vec::new();
    let mut m: u32 = 0;
    while m < mip_count
        invariant
            m <= mip_count,
            2 <= mip_count <= 32,
            r@.len() == m,
            forall|k: int|
                0 <= k < m ==> #[trigger] r@[k] == (PrefilterMip {
                    mip_level: k as u32,
                    width: pow2((mip_count - 1 - k) as nat) as u32,
                    roughness_num: k as u32,
                    roughness_den: (mip_count - 1) as u32,
                }),
        decreases mip_count - m,
    {
        proof {
            lemma2_to64();
            if ((mip_count - 1 - m) as nat) < 31 {
                lemma_pow2_strictly_increases((mip_count - 1 - m) as nat, 31);
            }
        }
        let width: u32 = crate::floatbits::pow2_u64((mip_count - 1 - m) as u64) as u32;
        r.push(
            PrefilterMip { mip_level: m, width, roughness_num: m, roughness_den: mip_count - 1 },
        );
        m = m + 1;
    }
    r
}

/// Roughness grows strictly with the mip level, from an exact mirror to
/// the maximal blur, while the resolution halves: level 0 has roughness
/// zero, the last level roughness one, and each level's edge is twice
/// the next level's.
pub proof fn lemma_prefilter_roughness_monotone(s: Seq<PrefilterMip>, mip_count: int)
    requires
        2 <= mip_count <= 32,
        prefilter_plan_shape(s, mip_count),
    ensures
        s[0].roughness_num == 0,
        s[mip_count - 1].roughness_num == s[mip_count - 1].roughness_den,
        forall|a: int, b: int|
            0 <= a < b < mip_count ==> s[a].roughness_num < s[b].roughness_num && s[a].roughness_den
                == s[b].roughness_den,
        forall|m: int| 0 <= m < mip_count - 1 ==> (#[trigger] s[m]).width == 2 * s[m + 1].width,
{
    assert forall|m: int| 0 <= m < mip_count - 1 implies (#[trigger] s[m]).width == 2 * s[
        m + 1].width by {
        lemma_pow2_adds((mip_count - 2 - m) as nat, 1);
        lemma2_to64();
    }
}

/// The full-screen pass that bakes the BRDF integration lookup texture.
#[derive(Clone, Copy, PartialEq, Eq, Debug)]
pub struct QuadPass {
    pub width: u32,
    pub height: u32,
}

/// Plans the BRDF integration pass at the given target size.
pub fn brdf_integration_pass(dimensions: (u32, u32)) -> (r: QuadPass)
    ensures
        r.width == dimensions.0,
        r.height == dimensions.1,
{
    QuadPass { width: dimensions.0, height: dimensions.1 }
}

/// The whole precomputation, in the order the stages must run: the
/// environment is first turned into a cubemap (later stages sample its
/// finished mips), then convolved into the irradiance cubemap, then
/// prefiltered per roughness level, and finally the BRDF lookup texture
/// is baked in one pass that needs no cubemap at all.
pub struct IblPlan {
    pub hdr: HdrToCubemapPlan,
    pub irradiance: IrradiancePlan,
    pub prefilter: Vec<PrefilterMip>,
    pub brdf: QuadPass,
}

/// Plans all four stages with the fixed mip count and lookup size.
pub fn ibl_plan() -> (r: IblPlan)
    ensures
        r.hdr.passes@.len() == 6,
        r.hdr.cubemap_size == HDR_FACE_SIZE,
        r.hdr.generate_mipmaps,
        r.irradiance.passes@.len() == 6,
        r.irradiance.generate_mipmaps,
        prefilter_plan_shape(r.prefilter@, PREFILTERED_MIP_COUNT as int),
        r.brdf.width == BRDF_LUT_SIZE,
        r.brdf.height == BRDF_LUT_SIZE,
{
    IblPlan {
        hdr: hdr_to_cubemap_plan(),
        irradiance: irradiance_plan(),
        prefilter: prefilter_plan(PREFILTERED_MIP_COUNT),
        brdf: brdf_integration_pass((BRDF_LUT_SIZE, BRDF_LUT_SIZE)),
    }
}

/// The finished IBL bundle: the environment cubemap, its two derived
/// cubemaps, the BRDF lookup texture, and the unit-cube buffers used to
/// draw the sky, all as device handles.
pub struct Skybox {
    pub cubemap: CubemapId,
    pub irradiance_map: CubemapId,
    pub prefiltered_map: CubemapId,
    pub brdf_integration: TextureId,
    pub vbo: BufferId,
    pub ibo: BufferId,
}

impl Skybox {
    pub fn new(
        cubemap: CubemapId,
        irradiance_map: CubemapId,
        prefiltered_map: CubemapId,
        brdf_integration: TextureId,
        vbo: BufferId,
        ibo: BufferId,
    ) -> (r: Skybox)
        ensures
            r == (Skybox { cubemap, irradiance_map, prefiltered_map, brdf_integration, vbo, ibo }),
    {
        Skybox { cubemap, irradiance_map, prefiltered_map, brdf_integration, vbo, ibo }
    }

    /// The diffuse-IBL cubemap's handle.
    pub fn irradiance_map(&self) -> (r: CubemapId)
        ensures
            r == self.irradiance_map,
    {
        self.irradiance_map
    }

    /// The roughness-prefiltered specular cubemap's handle.
    pub fn prefiltered_map(&self) -> (r: CubemapId)
        ensures
            r == self.prefiltered_map,
    {
        self.prefiltered_map
    }

    /// The BRDF integration lookup texture's handle.
    pub fn brdf_integration(&self) -> (r: TextureId)
        ensures
            r == self.brdf_integration,
    {
        self.brdf_integration
    }
}

} // verus!
