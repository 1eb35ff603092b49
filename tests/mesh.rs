use bgfx::mesh::{cell_corners, mesh_plan, CellEdge, CORNER_OFFSET};
use bgfx::tables::EDGE_END;

fn one_cell_lattice() -> Vec<bool> {
    // Corners 0, 2, 3, 4 and 5 of the single cell below the threshold: case index 61.
    vec![false, false, true, true, true, true, true, false]
}

#[test]
fn cell_corners_follow_corner_offsets() {
    assert_eq!(cell_corners(2, 0, 0, 0), [6, 7, 3, 2, 4, 5, 1, 0]);
    assert_eq!(cell_corners(4, 1, 2, 0), [29, 30, 14, 13, 25, 26, 10, 9]);
}

#[test]
fn budget_of_twelve_stops_before_a_fifteen_vertex_cell() {
    assert!(mesh_plan(&one_cell_lattice(), 2, 12).is_empty());
}

#[test]
fn budget_with_room_emits_the_whole_cell() {
    let out = mesh_plan(&one_cell_lattice(), 2, 1000);
    let edges: Vec<u8> = out.iter().map(|v| v.edge).collect();
    assert_eq!(edges, vec![5, 7, 0, 5, 0, 9, 7, 11, 0, 1, 0, 10, 11, 10, 0]);
    assert!(out.iter().all(|v| v.x == 0 && v.y == 0 && v.z == 0));
}

#[test]
fn cell_that_does_not_fit_is_not_written() {
    assert!(mesh_plan(&one_cell_lattice(), 2, 13).is_empty());
    assert!(mesh_plan(&one_cell_lattice(), 2, 14).is_empty());
    assert_eq!(mesh_plan(&one_cell_lattice(), 2, 15).len(), 15);
}

#[test]
fn walk_ends_at_the_first_cell_that_does_not_fit() {
    // The first cell of a side-3 lattice has case index 61 (fifteen vertices).
    let mut below = vec![false; 27];
    for p in [12, 4, 3, 9, 10] {
        below[p] = true;
    }
    let all = mesh_plan(&below, 3, 10_000);
    assert!(all.len() > 15);
    assert!(all[..15].iter().all(|v| v.x == 0 && v.y == 0 && v.z == 0));
    // Later cells would fit in fourteen, but the walk has ended.
    assert!(mesh_plan(&below, 3, 14).is_empty());
    let some = mesh_plan(&below, 3, 16);
    assert_eq!(some.len(), 15);
    for cap in 0..200 {
        assert!(mesh_plan(&below, 3, cap).len() <= cap);
    }
}

#[test]
fn empty_and_tiny_lattices_emit_nothing() {
    assert!(mesh_plan(&vec![], 0, 100).is_empty());
    assert!(mesh_plan(&vec![true], 1, 100).is_empty());
    assert!(mesh_plan(&vec![false; 27], 3, 100).is_empty());
}

fn point(d: usize, x: usize, y: usize, z: usize) -> usize {
    (z * d + y) * d + x
}

fn edge_points(d: usize, v: &CellEdge) -> (usize, usize) {
    let e = v.edge as usize;
    let a = CORNER_OFFSET[e % 8];
    let b = CORNER_OFFSET[EDGE_END[e] as usize];
    (
        point(d, v.x + a[0], v.y + a[1], v.z + a[2]),
        point(d, v.x + b[0], v.y + b[1], v.z + b[2]),
    )
}

#[test]
fn single_point_inside_gives_closed_surface() {
    let d = 3;
    let mut below = vec![false; 27];
    let center = point(d, 1, 1, 1);
    below[center] = true;
    let out = mesh_plan(&below, d, 10_000);
    // Eight cells, one triangle each.
    assert_eq!(out.len(), 24);
    // Every lattice edge from the centre is crossed and shared by four cells;
    // each of those cells emits a vertex on it.
    for (nx, ny, nz) in [(0, 1, 1), (2, 1, 1), (1, 0, 1), (1, 2, 1), (1, 1, 0), (1, 1, 2)] {
        let other = point(d, nx, ny, nz);
        let mut cells: Vec<(usize, usize, usize)> = out
            .iter()
            .filter(|v| {
                let (a, b) = edge_points(d, v);
                (a == center && b == other) || (a == other && b == center)
            })
            .map(|v| (v.x, v.y, v.z))
            .collect();
        cells.sort();
        cells.dedup();
        assert_eq!(cells.len(), 4);
    }
    // Every vertex lies on an edge from the centre.
    for v in &out {
        let (a, b) = edge_points(d, v);
        assert!(a == center || b == center);
    }
}

#[test]
fn two_runs_give_identical_output() {
    let d = 6;
    let below: Vec<bool> = (0..d * d * d).map(|i| (i * 7919) % 5 < 2).collect();
    let first = mesh_plan(&below, d, 300);
    let second = mesh_plan(&below, d, 300);
    assert_eq!(first, second);
    assert!(first.len() <= 300);
    assert_eq!(first.len() % 3, 0);
}
