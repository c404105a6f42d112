use shell_tex::mesh::{gen_cam_shells, shell_input_fits, PrimitiveType};
use shell_tex::rat::Rat;

/// Cross-multiplied equality of two rationals.
fn rat_value_eq(a: Rat, b: Rat) -> bool {
    (a.num as i128) * (b.den as i128) == (b.num as i128) * (a.den as i128)
}

/// Cross-multiplied `<=` of two rationals with positive denominators.
fn rat_value_le(a: Rat, b: Rat) -> bool {
    (a.num as i128) * (b.den as i128) <= (b.num as i128) * (a.den as i128)
}

#[test]
fn grid_counts_match_lattice() {
    let meshes = gen_cam_shells(&vec![(2, 3)], 2);
    assert_eq!(meshes.len(), 1);
    let m = &meshes[0];
    assert_eq!(m.vertices.len(), 3 * 4);
    assert_eq!(m.indices.len(), 2 * 3 * 6);
    assert!(m.indices.len() % 3 == 0);
    for &ix in m.indices.iter() {
        assert!((ix as usize) < m.vertices.len());
    }
    assert_eq!(m.primitive_type, PrimitiveType::TrianglesList);
}

#[test]
fn degenerate_resolution_yields_empty_triangulation() {
    let meshes = gen_cam_shells(&vec![(0, 5)], 1);
    assert_eq!(meshes.len(), 1);
    let m = &meshes[0];
    assert_eq!(m.vertices.len(), 1 * 6);
    assert_eq!(m.indices.len(), 0);
}

#[test]
fn zero_by_zero_resolution_is_a_single_point() {
    let meshes = gen_cam_shells(&vec![(0, 0)], 1);
    assert_eq!(meshes[0].vertices.len(), 1);
    assert_eq!(meshes[0].indices.len(), 0);
}

#[test]
fn vertex_positions_span_unit_square() {
    let meshes = gen_cam_shells(&vec![(2, 2)], 2);
    let m = &meshes[0];
    // row-major lattice; x = 2*col/2 - 1, y = 2*row/2 - 1
    assert_eq!(m.vertices[0].x, Rat { num: -2, den: 2 });
    assert_eq!(m.vertices[0].y, Rat { num: -2, den: 2 });
    assert_eq!(m.vertices[1].x, Rat { num: 0, den: 2 });
    assert_eq!(m.vertices[2].x, Rat { num: 2, den: 2 });
    assert_eq!(m.vertices[6].y, Rat { num: 2, den: 2 });
    assert_eq!(m.vertices[8].x, Rat { num: 2, den: 2 });
    assert_eq!(m.vertices[8].y, Rat { num: 2, den: 2 });
}

#[test]
fn index_pattern_matches_two_triangles_per_cell() {
    let meshes = gen_cam_shells(&vec![(1, 1)], 1);
    // stride 2; cell at lattice index 0: triangles (3,0,2) and (0,3,1)
    assert_eq!(meshes[0].indices, vec![3, 0, 2, 0, 3, 1]);
}

#[test]
fn single_shell_sits_on_near_plane() {
    let meshes = gen_cam_shells(&vec![(4, 4)], 7);
    for v in meshes[0].vertices.iter() {
        assert_eq!(v.z, Rat { num: 1, den: 100 });
    }
}

#[test]
fn shell_depths_follow_power_law() {
    // three shells, exponent 2: p = (k/2)^2, z = 1/100 + p
    let meshes = gen_cam_shells(&vec![(1, 1), (1, 1), (1, 1)], 2);
    assert_eq!(meshes.len(), 3);
    assert_eq!(meshes[0].vertices[0].z, Rat { num: 4, den: 400 });
    assert_eq!(meshes[1].vertices[0].z, Rat { num: 104, den: 400 });
    assert_eq!(meshes[2].vertices[0].z, Rat { num: 404, den: 400 });
    // endpoints: near and near + 1
    assert!(rat_value_eq(meshes[0].vertices[0].z, Rat { num: 1, den: 100 }));
    assert!(rat_value_eq(meshes[2].vertices[0].z, Rat { num: 101, den: 100 }));
}

#[test]
fn shell_depths_monotone_sample() {
    let res = vec![(1, 1); 5];
    let meshes = gen_cam_shells(&res, 3);
    for k in 1..meshes.len() {
        assert!(rat_value_le(
            meshes[k - 1].vertices[0].z,
            meshes[k].vertices[0].z
        ));
    }
    // all within [near, near + 1]
    for m in meshes.iter() {
        assert!(rat_value_le(Rat { num: 1, den: 100 }, m.vertices[0].z));
        assert!(rat_value_le(m.vertices[0].z, Rat { num: 101, den: 100 }));
    }
}

#[test]
fn exponent_zero_places_all_shells_at_far_edge() {
    // 0^0 == 1, so even the first shell lands at near + 1
    let meshes = gen_cam_shells(&vec![(1, 1), (1, 1), (1, 1)], 0);
    for m in meshes.iter() {
        assert!(rat_value_eq(m.vertices[0].z, Rat { num: 101, den: 100 }));
    }
}

#[test]
fn preserves_input_order() {
    let meshes = gen_cam_shells(&vec![(1, 2), (3, 1), (2, 2)], 1);
    assert_eq!(meshes[0].vertices.len(), 2 * 3);
    assert_eq!(meshes[1].vertices.len(), 4 * 2);
    assert_eq!(meshes[2].vertices.len(), 3 * 3);
    assert_eq!(meshes[0].indices.len(), 1 * 2 * 6);
    assert_eq!(meshes[1].indices.len(), 3 * 1 * 6);
    assert_eq!(meshes[2].indices.len(), 2 * 2 * 6);
}

#[test]
fn empty_resolution_list_yields_no_meshes() {
    let meshes = gen_cam_shells(&vec![], 2);
    assert_eq!(meshes.len(), 0);
}

#[test]
fn shell_input_check_accepts_ordinary_stacks() {
    assert!(shell_input_fits(&vec![(32, 32); 16], 2));
    assert!(shell_input_fits(&vec![(0, 5)], 1));
    assert!(shell_input_fits(&vec![], 7));
    // a single shell never evaluates the power law
    assert!(shell_input_fits(&vec![(4, 4)], -3));
    assert!(shell_input_fits(&vec![(4, 4)], i32::MAX));
}

#[test]
fn shell_input_check_rejects_overflowing_stacks() {
    // a lattice too large for 32-bit indices
    assert!(!shell_input_fits(&vec![(u32::MAX as usize, 1)], 1));
    // a negative exponent cannot place two or more shells
    assert!(!shell_input_fits(&vec![(1, 1), (1, 1)], -1));
    // depth denominators beyond exact 64-bit range
    assert!(!shell_input_fits(&vec![(1, 1); 3], 63));
    // and the largest exponent that still fits for base 2: 2^56 * 101 < 2^63
    assert!(shell_input_fits(&vec![(1, 1); 3], 56));
    assert!(!shell_input_fits(&vec![(1, 1); 3], 57));
}
