use bgfx::cube::{case_index, edge_flags, pack_color, triangulate, triangulate_case};

#[test]
fn case_index_sets_one_bit_per_corner() {
    assert_eq!(case_index(&[false; 8]), 0);
    assert_eq!(case_index(&[true; 8]), 255);
    assert_eq!(case_index(&[true, false, false, false, false, false, false, false]), 1);
    assert_eq!(case_index(&[false, false, false, false, false, false, false, true]), 128);
    assert_eq!(case_index(&[true, false, true, true, true, true, false, false]), 61);
}

#[test]
fn edge_flags_match_crossed_edges() {
    assert_eq!(edge_flags(0), 0x000);
    assert_eq!(edge_flags(1), 0x109);
    assert_eq!(edge_flags(61), 0xea3);
    assert_eq!(edge_flags(255), 0x000);
}

#[test]
fn uniform_cells_emit_nothing() {
    assert!(triangulate_case(0).is_empty());
    assert!(triangulate_case(255).is_empty());
    assert!(triangulate(&[false; 8]).is_empty());
    assert!(triangulate(&[true; 8]).is_empty());
}

#[test]
fn single_corner_emits_one_triangle() {
    assert_eq!(triangulate_case(1), vec![0, 8, 3]);
    assert_eq!(triangulate(&[true, false, false, false, false, false, false, false]), vec![0, 8, 3]);
}

#[test]
fn five_triangle_case_in_table_order() {
    assert_eq!(
        triangulate_case(61),
        vec![5, 7, 0, 5, 0, 9, 7, 11, 0, 1, 0, 10, 11, 10, 0]
    );
}

#[test]
fn every_case_emits_whole_distinct_triangles() {
    for case in 0..=255u8 {
        let edges = triangulate_case(case);
        assert_eq!(edges.len() % 3, 0);
        assert!(edges.len() <= 15);
        let mask = edge_flags(case);
        for tri in edges.chunks(3) {
            assert!(tri[0] != tri[1] && tri[0] != tri[2] && tri[1] != tri[2]);
        }
        for e in 0..12u8 {
            let crossed = mask & (1 << e) != 0;
            assert_eq!(crossed, edges.contains(&e));
        }
    }
}

#[test]
fn color_is_packed_abgr_with_opaque_alpha() {
    assert_eq!(pack_color(0x11, 0x22, 0x33), 0xff33_2211);
    assert_eq!(pack_color(0, 0, 0), 0xff00_0000);
    assert_eq!(pack_color(255, 255, 255), 0xffff_ffff);
}
