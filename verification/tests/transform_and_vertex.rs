use pbr_core::floatbits::F32_ONE_BITS;
use pbr_core::light::{light_uniform_arrays, Light, MAX_LIGHT_COUNT};
use pbr_core::rational::{wrap_uv, Rat};
use pbr_core::transform::{decompose_transform, NodeTransform, RotationSource};
use pbr_core::vertex::{
    build_vertices, calculate_tangent, tangent_triangle_inputs, triangle_index_triples, Vertex,
};

fn bits(v: f32) -> u32 {
    v.to_bits()
}

#[test]
fn matrix_form_drops_embedded_scale() {
    // A column-major matrix with a non-uniform scale baked in.
    let matrix = [
        [bits(2.0), 0, 0, 0],
        [0, bits(3.0), 0, 0],
        [0, 0, bits(0.5), 0],
        [bits(4.0), bits(5.0), bits(6.0), bits(1.0)],
    ];
    let parts = decompose_transform(&NodeTransform::Matrix { matrix });
    assert_eq!(parts.scaling, [F32_ONE_BITS; 3]);
    assert_eq!(parts.translation, [bits(4.0), bits(5.0), bits(6.0)]);
    match parts.rotation {
        RotationSource::Matrix { rows } => {
            assert_eq!(rows[0], [bits(2.0), 0, 0]);
            assert_eq!(rows[1], [0, bits(3.0), 0]);
            assert_eq!(rows[2], [0, 0, bits(0.5)]);
        }
        _ => panic!("matrix form must keep its rotation block"),
    }
}

#[test]
fn decomposed_identity_rotation_is_pure_translation() {
    let parts = decompose_transform(&NodeTransform::Decomposed {
        translation: [bits(1.0), bits(2.0), bits(3.0)],
        rotation: [bits(0.0), bits(0.0), bits(0.0), bits(1.0)],
        scale: [F32_ONE_BITS; 3],
    });
    assert_eq!(parts.translation, [bits(1.0), bits(2.0), bits(3.0)]);
    assert_eq!(parts.scaling, [F32_ONE_BITS; 3]);
    assert!(matches!(parts.rotation, RotationSource::Identity));
}

#[test]
fn decomposed_negative_zero_vector_part_is_identity() {
    let parts = decompose_transform(&NodeTransform::Decomposed {
        translation: [0; 3],
        rotation: [bits(-0.0), bits(0.0), bits(-0.0), bits(1.0)],
        scale: [F32_ONE_BITS; 3],
    });
    assert!(matches!(parts.rotation, RotationSource::Identity));
}

#[test]
fn decomposed_real_rotation_passes_through() {
    let q = [bits(0.0), bits(0.7071), bits(0.0), bits(0.7071)];
    let parts = decompose_transform(&NodeTransform::Decomposed {
        translation: [0; 3],
        rotation: q,
        scale: [bits(2.0), bits(2.0), bits(2.0)],
    });
    assert_eq!(parts.scaling, [bits(2.0); 3]);
    match parts.rotation {
        RotationSource::Quaternion { xyzw } => assert_eq!(xyzw, q),
        _ => panic!("a rotating quaternion must pass through"),
    }
}

#[test]
fn wrap_rule_matches_float_rule() {
    // The float form of the wraparound rule, as the render path applies it.
    fn wrap_f32(u: f32) -> f32 {
        if u > 1.0 {
            u - u.floor()
        } else if u < 0.0 {
            1.0 - (u.abs() - u.abs().floor())
        } else {
            u
        }
    }
    // Quarters are exact in both arithmetics.
    for num in [-9i128, -8, -5, -4, -1, 0, 1, 3, 4, 5, 8, 11, 100] {
        let r = wrap_uv(Rat { num, den: 4 });
        let expected = wrap_f32(num as f32 / 4.0);
        assert_eq!(r.den, 4);
        assert_eq!(r.num as f32 / 4.0, expected, "u = {num}/4");
    }
}

#[test]
fn wrap_twice_is_wrap_once() {
    for num in [-1000i128, -7, -4, -1, 0, 2, 3, 4, 5, 9, 1000] {
        let once = wrap_uv(Rat { num, den: 4 });
        let twice = wrap_uv(once);
        assert_eq!(once, twice, "u = {num}/4");
        assert!(0 <= once.num && once.num <= once.den);
    }
    // The rule's fixed points at one: u == 1 and negative whole numbers
    // come out as exactly one, not inside [0, 1).
    assert_eq!(wrap_uv(Rat { num: 4, den: 4 }).num, 4);
    assert_eq!(wrap_uv(Rat { num: -8, den: 4 }).num, 4);
}

#[test]
fn tangent_determinism_on_unit_triangle() {
    // p1=(0,0,0), p2=(1,0,0), p3=(0,1,0); uv1=(0,0), uv2=(1,0), uv3=(0,1).
    let t = calculate_tangent(
        [0, 0, 0],
        [1, 0, 0],
        [0, 1, 0],
        1,
        [0, 0],
        [1, 0],
        [0, 1],
        1,
    );
    // Exactly (1, 0, 0).
    assert_eq!(t[0].num, t[0].den);
    assert_eq!(t[1].num, 0);
    assert_eq!(t[2].num, 0);
    for c in t {
        assert!(c.den > 0);
    }
}

#[test]
fn tangent_matches_float_formula() {
    // A skewed triangle with quarter-unit coordinates; compare against
    // the f32 evaluation of the same formula.
    let t = calculate_tangent(
        [0, 0, 0],
        [4, 2, 0],
        [1, 3, 2],
        4,
        [1, 1],
        [3, 1],
        [1, 2],
        4,
    );
    let (p1, p2, p3) = ([0.0f32, 0.0, 0.0], [1.0f32, 0.5, 0.0], [0.25f32, 0.75, 0.5]);
    let (uv1, uv2, uv3) = ([0.25f32, 0.25], [0.75f32, 0.25], [0.25f32, 0.5]);
    let e1 = [p2[0] - p1[0], p2[1] - p1[1], p2[2] - p1[2]];
    let e2 = [p3[0] - p1[0], p3[1] - p1[1], p3[2] - p1[2]];
    let (du1, dv1) = (uv2[0] - uv1[0], uv2[1] - uv1[1]);
    let (du2, dv2) = (uv3[0] - uv1[0], uv3[1] - uv1[1]);
    let inv = 1.0 / (du1 * dv2 - du2 * dv1);
    for k in 0..3 {
        let expected = inv * (dv2 * e1[k] - dv1 * e2[k]);
        assert_eq!(t[k].num as f32 / t[k].den as f32, expected, "component {k}");
    }
}

#[test]
fn triples_group_in_index_order() {
    let indices: Vec<u32> = vec![0, 1, 2, 2, 1, 3, 7, 8];
    let triples = triangle_index_triples(&indices);
    assert_eq!(triples, vec![[0, 1, 2], [2, 1, 3]]);
}

#[test]
fn tangent_inputs_gather_indexed_corners() {
    let indices: Vec<u32> = vec![2, 0, 1];
    let positions: Vec<[u32; 3]> = vec![[1, 1, 1], [2, 2, 2], [3, 3, 3]];
    let uvs: Vec<[u32; 2]> = vec![[10, 10], [20, 20], [30, 30]];
    let inputs = tangent_triangle_inputs(&indices, &positions, &uvs);
    assert_eq!(inputs.len(), 1);
    assert_eq!(inputs[0].positions, [[3, 3, 3], [1, 1, 1], [2, 2, 2]]);
    assert_eq!(inputs[0].texture_coords, [[30, 30], [10, 10], [20, 20]]);
}

#[test]
fn vertices_take_their_triangles_tangent() {
    let positions: Vec<[u32; 3]> = (0..6).map(|i| [i, i, i]).collect();
    let uvs: Vec<[u32; 2]> = (0..6).map(|i| [i, i]).collect();
    let normals: Vec<[u32; 3]> = (0..6).map(|i| [i, 0, 0]).collect();
    let tangents: Vec<[u32; 3]> = vec![[100, 0, 0], [200, 0, 0]];
    let vertices = build_vertices(&positions, &uvs, &normals, &tangents);
    assert_eq!(vertices.len(), 6);
    for (i, v) in vertices.iter().enumerate() {
        let expected = Vertex {
            position: positions[i],
            texture_coord: uvs[i],
            normal: normals[i],
            tangent: tangents[i / 3],
        };
        assert_eq!(*v, expected);
    }
}

#[test]
fn light_arrays_pad_with_sentinel() {
    let lights = vec![
        Light::new([bits(1.0), bits(2.0), bits(3.0)], None),
        Light::new([0, 0, 0], Some([bits(0.5), bits(0.5), bits(0.5)])),
    ];
    assert_eq!(lights[0].colour, [F32_ONE_BITS; 3]);
    let (positions, colours) = light_uniform_arrays(&lights);
    assert_eq!(positions.len(), MAX_LIGHT_COUNT);
    assert_eq!(colours.len(), MAX_LIGHT_COUNT);
    assert_eq!(positions[0], [bits(1.0), bits(2.0), bits(3.0)]);
    assert_eq!(colours[1], [bits(0.5); 3]);
    let sentinel = [f32::MAX.to_bits(); 3];
    for i in 2..MAX_LIGHT_COUNT {
        assert_eq!(positions[i], sentinel);
        assert_eq!(colours[i], sentinel);
    }
    assert_eq!(Light::default(), Light { position: sentinel, colour: sentinel });
}

#[test]
fn wrap_leaves_unit_interval_alone() {
    for num in [0i128, 1, 2, 3, 4] {
        let r = wrap_uv(Rat { num, den: 4 });
        assert_eq!(r, Rat { num, den: 4 });
    }
}

#[test]
fn tangent_with_reversed_uv_orientation_keeps_positive_denominator() {
    // Swapping the two texture axes flips the determinant's sign; the
    // result is normalized back to a positive denominator and matches
    // the float formula.
    let t = calculate_tangent(
        [0, 0, 0],
        [1, 0, 0],
        [0, 1, 0],
        1,
        [0, 0],
        [0, 1],
        [1, 0],
    1,
    );
    for c in &t {
        assert!(c.den > 0);
    }
    // Here dv2 = 0 and dv1 = 1 with determinant -1: the tangent is
    // (-1) * (-e2) = e2 = (0, 1, 0).
    assert_eq!(t[0].num, 0);
    assert_eq!(t[1].num, t[1].den);
    assert_eq!(t[2].num, 0);
}
