use pbr_core::accessor::effective_stride;
use pbr_core::skybox::{
    brdf_integration_pass, cubemap_face_bases, hdr_to_cubemap_plan, irradiance_plan,
    make_cube_indices, make_cube_vertices, prefilter_plan, texture_quad_indices,
    texture_quad_vertices, Skybox, BRDF_LUT_SIZE, HDR_FACE_SIZE, IRRADIANCE_FACE_SIZE,
    PREFILTERED_MIP_COUNT,
};
use pbr_core::skybox::cubemap_projection;
use pbr_core::skybox::ibl_plan;

#[test]
fn cube_geometry_is_well_formed() {
    let vertices = make_cube_vertices();
    let indices = make_cube_indices();
    assert_eq!(vertices.len(), 8);
    assert_eq!(indices.len(), 36);
    for i in &indices {
        assert!((*i as usize) < vertices.len());
    }
    // All eight corners are distinct and each is used by some triangle.
    for a in 0..8 {
        for b in (a + 1)..8 {
            assert_ne!(vertices[a].position, vertices[b].position);
        }
        assert!(indices.contains(&(a as u32)));
    }
}

#[test]
fn cube_triangles_cover_each_face_twice() {
    let vertices = make_cube_vertices();
    let indices = make_cube_indices();
    // Count, for each of the six faces, the triangles whose three corners
    // all lie on it.
    let faces: [(usize, i8); 6] = [(0, 1), (0, -1), (1, 1), (1, -1), (2, 1), (2, -1)];
    let mut counts = [0usize; 6];
    for t in 0..12 {
        let corners: Vec<[i8; 3]> = (0..3)
            .map(|k| vertices[indices[3 * t + k] as usize].position)
            .collect();
        for (f, (axis, sign)) in faces.iter().enumerate() {
            if corners.iter().all(|c| c[*axis] == *sign) {
                counts[f] += 1;
            }
        }
    }
    assert_eq!(counts, [2; 6]);
}

#[test]
fn face_bases_cover_all_six_directions() {
    let bases = cubemap_face_bases();
    assert_eq!(bases.len(), 6);
    let expected_targets: [[i8; 3]; 6] = [
        [1, 0, 0],
        [-1, 0, 0],
        [0, 1, 0],
        [0, -1, 0],
        [0, 0, 1],
        [0, 0, -1],
    ];
    for (b, t) in bases.iter().zip(expected_targets.iter()) {
        assert_eq!(b.target, *t);
        // The up vector is perpendicular to the view direction and nonzero.
        let dot: i32 = (0..3).map(|k| b.target[k] as i32 * b.up[k] as i32).sum();
        assert_eq!(dot, 0);
        assert_ne!(b.up, [0, 0, 0]);
    }
    // The Y faces use a Z-derived up vector, the others -Y.
    assert_eq!(bases[2].up, [0, 0, 1]);
    assert_eq!(bases[3].up, [0, 0, -1]);
    for i in [0usize, 1, 4, 5] {
        assert_eq!(bases[i].up, [0, -1, 0]);
    }
}

#[test]
fn quad_geometry_has_two_triangles() {
    let vertices = texture_quad_vertices();
    let indices = texture_quad_indices();
    assert_eq!(vertices.len(), 4);
    assert_eq!(indices, vec![0, 1, 2, 2, 1, 3]);
    for v in &vertices {
        assert_eq!(v.position[2], 1);
        assert!(v.position[0] == -1 || v.position[0] == 1);
        assert!(v.texture_coord[0] == 0 || v.texture_coord[0] == 1);
    }
}

#[test]
fn hdr_stage_renders_each_face_at_full_size() {
    let plan = hdr_to_cubemap_plan();
    assert_eq!(plan.passes.len(), 6);
    for (i, p) in plan.passes.iter().enumerate() {
        assert_eq!(p.face, i);
        assert_eq!((p.width, p.height), (HDR_FACE_SIZE, HDR_FACE_SIZE));
    }
    assert_eq!(plan.cubemap_size, 2048);
    assert!(plan.generate_mipmaps);
}

#[test]
fn irradiance_stage_renders_small_and_upscales() {
    let plan = irradiance_plan();
    assert_eq!(plan.passes.len(), 6);
    for (i, p) in plan.passes.iter().enumerate() {
        assert_eq!(p.face, i);
        assert_eq!((p.width, p.height), (IRRADIANCE_FACE_SIZE, IRRADIANCE_FACE_SIZE));
    }
    assert_eq!((plan.blit_width, plan.blit_height), (2048, 2048));
    assert!(plan.generate_mipmaps);
}

#[test]
fn prefilter_stage_walks_roughness_up_and_resolution_down() {
    let plan = prefilter_plan(PREFILTERED_MIP_COUNT);
    assert_eq!(plan.len(), 7);
    let widths: Vec<u32> = plan.iter().map(|m| m.width).collect();
    assert_eq!(widths, vec![64, 32, 16, 8, 4, 2, 1]);
    // Mip 0 is the exact mirror, the last mip the maximal blur, strictly
    // increasing in between.
    assert_eq!(plan[0].roughness_num, 0);
    assert_eq!(plan[6].roughness_num, plan[6].roughness_den);
    for m in 0..7 {
        assert_eq!(plan[m].mip_level, m as u32);
        assert_eq!(plan[m].roughness_den, 6);
        if m > 0 {
            assert!(plan[m].roughness_num > plan[m - 1].roughness_num);
            assert_eq!(plan[m - 1].width, 2 * plan[m].width);
        }
        // The roughness f32 the device receives reproduces m / (count-1).
        let roughness = plan[m].roughness_num as f32 / plan[m].roughness_den as f32;
        assert_eq!(roughness, m as f32 / 6.0);
    }
}

#[test]
fn brdf_pass_takes_the_requested_size() {
    let pass = brdf_integration_pass((BRDF_LUT_SIZE, BRDF_LUT_SIZE));
    assert_eq!((pass.width, pass.height), (512, 512));
}

#[test]
fn skybox_keeps_its_handles() {
    let sky = Skybox::new(1, 2, 3, 4, 5, 6);
    assert_eq!(sky.irradiance_map(), 2);
    assert_eq!(sky.prefiltered_map(), 3);
    assert_eq!(sky.brdf_integration(), 4);
    assert_eq!((sky.cubemap, sky.vbo, sky.ibo), (1, 5, 6));
}

#[test]
fn shared_projection_is_square_quarter_turn() {
    let p = cubemap_projection();
    assert_eq!(p.aspect_num, p.aspect_den);
    assert_eq!(p.fov_degrees, 90);
    assert_eq!(p.near_hundredths as f32 / 100.0, 0.1);
    assert_eq!(p.far_hundredths as f32 / 100.0, 10.0);
}

#[test]
fn stride_defaults_to_the_element_size() {
    assert_eq!(effective_stride(Some(24), 12), 24);
    assert_eq!(effective_stride(None, 12), 12);
}

#[test]
fn whole_precomputation_plans_all_four_stages() {
    let plan = ibl_plan();
    assert_eq!(plan.hdr.passes.len(), 6);
    assert!(plan.hdr.generate_mipmaps);
    assert_eq!(plan.irradiance.passes.len(), 6);
    assert!(plan.irradiance.generate_mipmaps);
    assert_eq!(plan.prefilter.len(), PREFILTERED_MIP_COUNT as usize);
    assert_eq!((plan.brdf.width, plan.brdf.height), (512, 512));
}
