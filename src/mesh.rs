//! The walk over all cells of a cubic lattice, in z, y, x order, that lists
//! where each vertex of the iso-surface mesh is emitted, under a vertex budget.
use vstd::prelude::*;
use crate::cube::{lemma_case_bits, triangulate};
use crate::tables::{case_of, corner_below, edge_crossed, edge_end, edge_start, lemma_tri_edges, tri_edges};

verus! {

/// One emitted vertex: the crossing point on edge `edge` of the cell whose
/// lowest corner is lattice point (`x`, `y`, `z`).
#[derive(Clone, Copy, PartialEq, Eq, Debug, Structural)]
pub struct CellEdge {
    pub x: usize,
    pub y: usize,
    pub z: usize,
    pub edge: u8,
}

/// The offset (x, y, z) of each cell corner from the cell's lowest corner.
pub const CORNER_OFFSET: [[usize; 3]; 8] = [
    [0, 1, 1],
    [1, 1, 1],
    [1, 1, 0],
    [0, 1, 0],
    [0, 0, 1],
    [1, 0, 1],
    [1, 0, 0],
    [0, 0, 0],
];

/// The index of lattice point (`x`, `y`, `z`) in a lattice of side `d`, stored z-major.
pub open spec fn point_index(d: int, x: int, y: int, z: int) -> int {
    (z * d + y) * d + x
}

/// The lattice index of corner `i` of the cell at (`x`, `y`, `z`).
pub open spec fn corner_point(d: int, x: int, y: int, z: int, i: int) -> int {
    point_index(
        d,
        x + CORNER_OFFSET@[i]@[0],
        y + CORNER_OFFSET@[i]@[1],
        z + CORNER_OFFSET@[i]@[2],
    )
}

/// The below-threshold flags of the eight corners of a cell.
pub open spec fn cell_flags(below: Seq<bool>, d: int, x: int, y: int, z: int) -> Seq<bool> {
    Seq::new(8, |i: int| below[corner_point(d, x, y, z, i)])
}

/// The case index of the cell at (`x`, `y`, `z`).
pub open spec fn cell_case(below: Seq<bool>, d: int, x: int, y: int, z: int) -> int {
    case_of(cell_flags(below, d, x, y, z))
}

/// The vertices that one cell emits, in order.
pub open spec fn cell_output(below: Seq<bool>, d: int, x: int, y: int, z: int) -> Seq<CellEdge> {
    tri_edges(cell_case(below, d, x, y, z)).map_values(
        |e: u8| CellEdge { x: x as usize, y: y as usize, z: z as usize, edge: e },
    )
}

/// The budget check made before each loop level: stop once `written + 12 >= capacity`.
pub open spec fn budget_spent(written: int, capacity: int) -> bool {
    written + 12 >= capacity
}

/// Whether the walk has stopped: a cell's vertices did not fit in the
/// budget, or the budget check holds.
pub open spec fn halted(out: Seq<CellEdge>, full: bool, cap: int) -> bool {
    full || budget_spent(out.len() as int, cap)
}

/// Cells `x..d-1` of row `y` of layer `z`, appended to `out`. The flag of the
/// result says that a cell did not fit in the budget, which ends the walk
/// before that cell is written.
pub open spec fn walk_x(
    below: Seq<bool>,
    d: int,
    cap: int,
    out: Seq<CellEdge>,
    full: bool,
    z: int,
    y: int,
    x: int,
) -> (Seq<CellEdge>, bool)
    decreases d - x,
{
    if x >= d - 1 || halted(out, full, cap) {
        (out, full)
    } else if out.len() + cell_output(below, d, x, y, z).len() > cap {
        (out, true)
    } else {
        walk_x(below, d, cap, out + cell_output(below, d, x, y, z), false, z, y, x + 1)
    }
}

/// Rows `y..d-1` of layer `z`, appended to `out`.
pub open spec fn walk_y(below: Seq<bool>, d: int, cap: int, out: Seq<CellEdge>, full: bool, z: int, y: int) -> (
    Seq<CellEdge>,
    bool,
)
    decreases d - y,
{
    if y >= d - 1 || halted(out, full, cap) {
        (out, full)
    } else {
        let row = walk_x(below, d, cap, out, full, z, y, 0);
        walk_y(below, d, cap, row.0, row.1, z, y + 1)
    }
}

/// Layers `z..d-1`, appended to `out`.
pub open spec fn walk_z(below: Seq<bool>, d: int, cap: int, out: Seq<CellEdge>, full: bool, z: int) -> (
    Seq<CellEdge>,
    bool,
)
    decreases d - z,
{
    if z >= d - 1 || halted(out, full, cap) {
        (out, full)
    } else {
        let layer = walk_y(below, d, cap, out, full, z, 0);
        walk_z(below, d, cap, layer.0, layer.1, z + 1)
    }
}

/// The vertices emitted for a whole lattice of side `d` under budget `cap`.
pub open spec fn mesh_plan_spec(below: Seq<bool>, d: int, cap: int) -> Seq<CellEdge> {
    walk_z(below, d, cap, Seq::empty(), false, 0).0
}

/// Cells `x..d-1` of row `y` of layer `z` appended to `out`, with no budget.
pub open spec fn all_x(below: Seq<bool>, d: int, out: Seq<CellEdge>, z: int, y: int, x: int) -> Seq<CellEdge>
    decreases d - x,
{
    if x >= d - 1 {
        out
    } else {
        all_x(below, d, out + cell_output(below, d, x, y, z), z, y, x + 1)
    }
}

/// Rows `y..d-1` of layer `z` appended to `out`, with no budget.
pub open spec fn all_y(below: Seq<bool>, d: int, out: Seq<CellEdge>, z: int, y: int) -> Seq<CellEdge>
    decreases d - y,
{
    if y >= d - 1 {
        out
    } else {
        all_y(below, d, all_x(below, d, out, z, y, 0), z, y + 1)
    }
}

/// Layers `z..d-1` appended to `out`, with no budget.
pub open spec fn all_z(below: Seq<bool>, d: int, out: Seq<CellEdge>, z: int) -> Seq<CellEdge>
    decreases d - z,
{
    if z >= d - 1 {
        out
    } else {
        all_z(below, d, all_y(below, d, out, z, 0), z + 1)
    }
}

/// The vertices of every cell of the lattice, in walk order.
pub open spec fn mesh_all(below: Seq<bool>, d: int) -> Seq<CellEdge> {
    all_z(below, d, Seq::empty(), 0)
}

/// An emitted vertex names a cell of the lattice and an edge of it that the surface crosses.
pub open spec fn on_crossed_edge(below: Seq<bool>, d: int, v: CellEdge) -> bool {
    &&& v.x + 1 < d
    &&& v.y + 1 < d
    &&& v.z + 1 < d
    &&& v.edge < 12
    &&& edge_crossed(cell_case(below, d, v.x as int, v.y as int, v.z as int), v.edge as int)
}

/// What every prefix of the walk keeps: whole triangles, no more vertices
/// than the budget, and each vertex on a crossed edge.
pub open spec fn within_budget(below: Seq<bool>, d: int, out: Seq<CellEdge>, cap: int) -> bool {
    &&& out.len() % 3 == 0
    &&& out.len() <= cap
    &&& forall|k: int| 0 <= k < out.len() ==> #[trigger] on_crossed_edge(below, d, out[k])
}

proof fn lemma_cell_output(below: Seq<bool>, d: int, x: int, y: int, z: int)
    requires
        0 <= x < d - 1,
        0 <= y < d - 1,
        0 <= z < d - 1,
        d <= usize::MAX,
    ensures
        cell_output(below, d, x, y, z).len() == tri_edges(cell_case(below, d, x, y, z)).len(),
        cell_output(below, d, x, y, z).len() % 3 == 0,
        cell_output(below, d, x, y, z).len() <= 15,
        forall|k: int| 0 <= k < cell_output(below, d, x, y, z).len()
            ==> #[trigger] on_crossed_edge(below, d, cell_output(below, d, x, y, z)[k]),
{
    lemma_case_bits(cell_flags(below, d, x, y, z));
    lemma_tri_edges(cell_case(below, d, x, y, z));
    let s = tri_edges(cell_case(below, d, x, y, z));
    assert forall|k: int| 0 <= k < cell_output(below, d, x, y, z).len()
        implies #[trigger] on_crossed_edge(below, d, cell_output(below, d, x, y, z)[k]) by {
        assert(s[k] < 12 && edge_crossed(cell_case(below, d, x, y, z), s[k] as int));
    }
}

proof fn lemma_append_within(below: Seq<bool>, d: int, out: Seq<CellEdge>, cap: int, x: int, y: int, z: int)
    requires
        within_budget(below, d, out, cap),
        out.len() + cell_output(below, d, x, y, z).len() <= cap,
        0 <= x < d - 1,
        0 <= y < d - 1,
        0 <= z < d - 1,
        d <= usize::MAX,
    ensures
        within_budget(below, d, out + cell_output(below, d, x, y, z), cap),
{
    lemma_cell_output(below, d, x, y, z);
    let cell = cell_output(below, d, x, y, z);
    let next = out + cell;
    assert forall|k: int| 0 <= k < next.len() implies #[trigger] on_crossed_edge(below, d, next[k]) by {
        if k < out.len() {
            assert(next[k] == out[k]);
        } else {
            assert(next[k] == cell[k - out.len()]);
        }
    }
}

proof fn lemma_walk_x(below: Seq<bool>, d: int, cap: int, out: Seq<CellEdge>, full: bool, z: int, y: int, x: int)
    requires
        within_budget(below, d, out, cap),
        0 <= x,
        0 <= y < d - 1,
        0 <= z < d - 1,
        d <= usize::MAX,
    ensures
        within_budget(below, d, walk_x(below, d, cap, out, full, z, y, x).0, cap),
    decreases d - x,
{
    if !(x >= d - 1 || halted(out, full, cap)) && out.len() + cell_output(below, d, x, y, z).len() <= cap {
        lemma_append_within(below, d, out, cap, x, y, z);
        lemma_walk_x(below, d, cap, out + cell_output(below, d, x, y, z), false, z, y, x + 1);
    }
}

proof fn lemma_walk_y(below: Seq<bool>, d: int, cap: int, out: Seq<CellEdge>, full: bool, z: int, y: int)
    requires
        within_budget(below, d, out, cap),
        0 <= y,
        0 <= z < d - 1,
        d <= usize::MAX,
    ensures
        within_budget(below, d, walk_y(below, d, cap, out, full, z, y).0, cap),
    decreases d - y,
{
    if !(y >= d - 1 || halted(out, full, cap)) {
        let row = walk_x(below, d, cap, out, full, z, y, 0);
        lemma_walk_x(below, d, cap, out, full, z, y, 0);
        lemma_walk_y(below, d, cap, row.0, row.1, z, y + 1);
    }
}

proof fn lemma_walk_z(below: Seq<bool>, d: int, cap: int, out: Seq<CellEdge>, full: bool, z: int)
    requires
        within_budget(below, d, out, cap),
        0 <= z,
        d <= usize::MAX,
    ensures
        within_budget(below, d, walk_z(below, d, cap, out, full, z).0, cap),
    decreases d - z,
{
    if !(z >= d - 1 || halted(out, full, cap)) {
        let layer = walk_y(below, d, cap, out, full, z, 0);
        lemma_walk_y(below, d, cap, out, full, z, 0);
        lemma_walk_z(below, d, cap, layer.0, layer.1, z + 1);
    }
}

/// The whole walk emits whole triangles, each vertex on a crossed edge of a
/// lattice cell, and never more vertices than the budget; with a budget of
/// twelve or less it emits nothing.
pub proof fn lemma_mesh_plan_budget(below: Seq<bool>, d: int, cap: int)
    requires
        cap >= 0,
        d <= usize::MAX,
    ensures
        mesh_plan_spec(below, d, cap).len() % 3 == 0,
        mesh_plan_spec(below, d, cap).len() <= cap,
        cap <= 12 ==> mesh_plan_spec(below, d, cap).len() == 0,
        forall|k: int| 0 <= k < mesh_plan_spec(below, d, cap).len()
            ==> #[trigger] on_crossed_edge(below, d, mesh_plan_spec(below, d, cap)[k]),
{
    lemma_walk_z(below, d, cap, Seq::empty(), false, 0);
}

/// `s` begins with `p`.
pub open spec fn starts_with(s: Seq<CellEdge>, p: Seq<CellEdge>) -> bool {
    p.len() <= s.len() && forall|i: int| 0 <= i < p.len() ==> #[trigger] s[i] == p[i]
}

proof fn lemma_all_x_prefix(below: Seq<bool>, d: int, out: Seq<CellEdge>, z: int, y: int, x: int)
    ensures
        starts_with(all_x(below, d, out, z, y, x), out),
    decreases d - x,
{
    if x < d - 1 {
        let next = out + cell_output(below, d, x, y, z);
        lemma_all_x_prefix(below, d, next, z, y, x + 1);
        assert forall|i: int| 0 <= i < out.len() implies #[trigger] all_x(below, d, out, z, y, x)[i] == out[i] by {
            assert(next[i] == out[i]);
        }
    }
}

proof fn lemma_all_y_prefix(below: Seq<bool>, d: int, out: Seq<CellEdge>, z: int, y: int)
    ensures
        starts_with(all_y(below, d, out, z, y), out),
    decreases d - y,
{
    if y < d - 1 {
        let next = all_x(below, d, out, z, y, 0);
        lemma_all_x_prefix(below, d, out, z, y, 0);
        lemma_all_y_prefix(below, d, next, z, y + 1);
        assert forall|i: int| 0 <= i < out.len() implies #[trigger] all_y(below, d, out, z, y)[i] == out[i] by {
            assert(next[i] == out[i]);
        }
    }
}

proof fn lemma_all_z_prefix(below: Seq<bool>, d: int, out: Seq<CellEdge>, z: int)
    ensures
        starts_with(all_z(below, d, out, z), out),
    decreases d - z,
{
    if z < d - 1 {
        let next = all_y(below, d, out, z, 0);
        lemma_all_y_prefix(below, d, out, z, 0);
        lemma_all_z_prefix(below, d, next, z + 1);
        assert forall|i: int| 0 <= i < out.len() implies #[trigger] all_z(below, d, out, z)[i] == out[i] by {
            assert(next[i] == out[i]);
        }
    }
}

proof fn lemma_walk_x_all(below: Seq<bool>, d: int, cap: int, out: Seq<CellEdge>, z: int, y: int, x: int)
    requires
        all_x(below, d, out, z, y, x).len() + 15 <= cap,
    ensures
        walk_x(below, d, cap, out, false, z, y, x) == (all_x(below, d, out, z, y, x), false),
    decreases d - x,
{
    lemma_all_x_prefix(below, d, out, z, y, x);
    if x < d - 1 {
        let next = out + cell_output(below, d, x, y, z);
        lemma_all_x_prefix(below, d, next, z, y, x + 1);
        lemma_walk_x_all(below, d, cap, next, z, y, x + 1);
    }
}

proof fn lemma_walk_y_all(below: Seq<bool>, d: int, cap: int, out: Seq<CellEdge>, z: int, y: int)
    requires
        all_y(below, d, out, z, y).len() + 15 <= cap,
    ensures
        walk_y(below, d, cap, out, false, z, y) == (all_y(below, d, out, z, y), false),
    decreases d - y,
{
    lemma_all_y_prefix(below, d, out, z, y);
    if y < d - 1 {
        let next = all_x(below, d, out, z, y, 0);
        lemma_all_y_prefix(below, d, next, z, y + 1);
        lemma_walk_x_all(below, d, cap, out, z, y, 0);
        lemma_walk_y_all(below, d, cap, next, z, y + 1);
    }
}

proof fn lemma_walk_z_all(below: Seq<bool>, d: int, cap: int, out: Seq<CellEdge>, z: int)
    requires
        all_z(below, d, out, z).len() + 15 <= cap,
    ensures
        walk_z(below, d, cap, out, false, z) == (all_z(below, d, out, z), false),
    decreases d - z,
{
    lemma_all_z_prefix(below, d, out, z);
    if z < d - 1 {
        let next = all_y(below, d, out, z, 0);
        lemma_all_z_prefix(below, d, next, z + 1);
        lemma_walk_y_all(below, d, cap, out, z, 0);
        lemma_walk_z_all(below, d, cap, next, z + 1);
    }
}

/// Where the budget leaves room for every cell, the walk emits every cell's
/// vertices, in order.
pub proof fn lemma_mesh_plan_complete(below: Seq<bool>, d: int, cap: int)
    requires
        mesh_all(below, d).len() + 15 <= cap,
    ensures
        mesh_plan_spec(below, d, cap) == mesh_all(below, d),
{
    lemma_walk_z_all(below, d, cap, Seq::empty(), 0);
}

proof fn lemma_all_x_has(below: Seq<bool>, d: int, out: Seq<CellEdge>, z: int, y: int, x: int, cx: int, j: int) -> (k: int)
    requires
        x <= cx < d - 1,
        0 <= j < cell_output(below, d, cx, y, z).len(),
    ensures
        0 <= k < all_x(below, d, out, z, y, x).len(),
        all_x(below, d, out, z, y, x)[k] == cell_output(below, d, cx, y, z)[j],
    decreases d - x,
{
    let next = out + cell_output(below, d, x, y, z);
    if cx == x {
        lemma_all_x_prefix(below, d, next, z, y, x + 1);
        assert(next[out.len() + j] == cell_output(below, d, cx, y, z)[j]);
        out.len() + j
    } else {
        lemma_all_x_has(below, d, next, z, y, x + 1, cx, j)
    }
}

proof fn lemma_all_y_has(below: Seq<bool>, d: int, out: Seq<CellEdge>, z: int, y: int, cy: int, cx: int, j: int) -> (k: int)
    requires
        y <= cy < d - 1,
        0 <= cx < d - 1,
        0 <= j < cell_output(below, d, cx, cy, z).len(),
    ensures
        0 <= k < all_y(below, d, out, z, y).len(),
        all_y(below, d, out, z, y)[k] == cell_output(below, d, cx, cy, z)[j],
    decreases d - y,
{
    let next = all_x(below, d, out, z, y, 0);
    if cy == y {
        let k = lemma_all_x_has(below, d, out, z, y, 0, cx, j);
        lemma_all_y_prefix(below, d, next, z, y + 1);
        assert(all_y(below, d, next, z, y + 1)[k] == next[k]);
        k
    } else {
        lemma_all_y_has(below, d, next, z, y + 1, cy, cx, j)
    }
}

proof fn lemma_all_z_has(below: Seq<bool>, d: int, out: Seq<CellEdge>, z: int, cz: int, cy: int, cx: int, j: int) -> (k: int)
    requires
        z <= cz < d - 1,
        0 <= cy < d - 1,
        0 <= cx < d - 1,
        0 <= j < cell_output(below, d, cx, cy, cz).len(),
    ensures
        0 <= k < all_z(below, d, out, z).len(),
        all_z(below, d, out, z)[k] == cell_output(below, d, cx, cy, cz)[j],
    decreases d - z,
{
    let next = all_y(below, d, out, z, 0);
    if cz == z {
        let k = lemma_all_y_has(below, d, out, z, 0, cy, cx, j);
        lemma_all_z_prefix(below, d, next, z + 1);
        assert(all_z(below, d, next, z + 1)[k] == next[k]);
        k
    } else {
        lemma_all_z_has(below, d, next, z + 1, cz, cy, cx, j)
    }
}

proof fn lemma_point_in_lattice(d: int, x: int, y: int, z: int)
    requires
        0 <= x < d,
        0 <= y < d,
        0 <= z < d,
    ensures
        0 <= point_index(d, x, y, z) < d * d * d,
        point_index(d, x, y, z) == z * (d * d) + y * d + x,
{
    assert(0 <= (z * d + y) * d + x < d * d * d) by (nonlinear_arith)
        requires
            0 <= x < d,
            0 <= y < d,
            0 <= z < d,
    ;
    assert((z * d + y) * d + x == z * (d * d) + y * d + x) by (nonlinear_arith);
}

proof fn lemma_point_shift(d: int, x: int, y: int, z: int, dx: int, dy: int, dz: int)
    ensures
        point_index(d, x + dx, y + dy, z + dz) == point_index(d, x, y, z) + dz * (d * d) + dy * d + dx,
{
    assert(((z + dz) * d + (y + dy)) * d + (x + dx) == ((z * d + y) * d + x) + dz * (d * d) + dy * d + dx)
        by (nonlinear_arith);
}

/// The lattice indices of the eight corners of the cell at (`x`, `y`, `z`).
pub fn cell_corners(dims: usize, x: usize, y: usize, z: usize) -> (r: [usize; 8])
    requires
        x + 1 < dims,
        y + 1 < dims,
        z + 1 < dims,
        dims * dims * dims <= usize::MAX,
    ensures
        forall|i: int| 0 <= i < 8 ==> #[trigger] r@[i] == corner_point(dims as int, x as int, y as int, z as int, i),
        forall|i: int| 0 <= i < 8 ==> #[trigger] r@[i] < dims * dims * dims,
{
    let ghost d = dims as int;
    proof {
        lemma_point_in_lattice(d, x as int, y as int, z as int);
        lemma_point_in_lattice(d, x + 1, y + 1, z + 1);
        assert(0 <= d * d <= d * d * d) by (nonlinear_arith)
            requires
                d >= 1,
        ;
    }
    proof {
        assert(0 <= z * d + y < d * d && (z * d + y) * d <= (z * d + y) * d + x < d * d * d)
            by (nonlinear_arith)
            requires
                0 <= x < d,
                0 <= y < d,
                0 <= z < d,
        ;
    }
    let ypitch = dims;
    let zpitch = dims * dims;
    let base = (z * dims + y) * dims + x;
    proof {
        lemma_point_in_lattice(d, x + 1, y as int, z as int);
        lemma_point_in_lattice(d, x as int, y + 1, z as int);
        lemma_point_in_lattice(d, x as int, y as int, z + 1);
        lemma_point_in_lattice(d, x + 1, y + 1, z as int);
        lemma_point_in_lattice(d, x + 1, y as int, z + 1);
        lemma_point_in_lattice(d, x as int, y + 1, z + 1);
        lemma_point_shift(d, x as int, y as int, z as int, 1, 1, 1);
        lemma_point_shift(d, x as int, y as int, z as int, 1, 1, 0);
        lemma_point_shift(d, x as int, y as int, z as int, 1, 0, 1);
        lemma_point_shift(d, x as int, y as int, z as int, 0, 1, 1);
        lemma_point_shift(d, x as int, y as int, z as int, 1, 0, 0);
        lemma_point_shift(d, x as int, y as int, z as int, 0, 1, 0);
        lemma_point_shift(d, x as int, y as int, z as int, 0, 0, 1);
        lemma_point_shift(d, x as int, y as int, z as int, 0, 0, 0);
    }
    [
        base + zpitch + ypitch,
        base + zpitch + ypitch + 1,
        base + ypitch + 1,
        base + ypitch,
        base + zpitch,
        base + zpitch + 1,
        base + 1,
        base,
    ]
}

/// Whether the budget check stops the walk: `written + 12 >= capacity`.
fn budget_check(written: usize, capacity: usize) -> (r: bool)
    ensures
        r == budget_spent(written as int, capacity as int),
{
    written >= capacity || capacity - written <= 12
}

/// Lists, cell by cell in z, y, x order, the edges on which the mesh of a
/// lattice emits its vertices. `below[i]` says whether the field at lattice
/// point `i` lies below the iso-threshold. Before each loop level the walk
/// stops once `written + 12 >= capacity`, and it stops before a cell whose
/// vertices would not fit, so it never emits more than `capacity` vertices.
pub fn mesh_plan(below: &Vec<bool>, dims: usize, capacity: usize) -> (r: Vec<CellEdge>)
    requires
        below.len() == dims * dims * dims,
    ensures
        r@ == mesh_plan_spec(below@, dims as int, capacity as int),
        r.len() % 3 == 0,
        r.len() <= capacity,
        capacity <= 12 ==> r.len() == 0,
        forall|k: int| 0 <= k < r.len() ==> #[trigger] on_crossed_edge(below@, dims as int, r@[k]),
        mesh_all(below@, dims as int).len() + 15 <= capacity ==> r@ == mesh_all(below@, dims as int),
{
    proof {
        lemma_mesh_plan_budget(below@, dims as int, capacity as int);
        if mesh_all(below@, dims as int).len() + 15 <= capacity {
            lemma_mesh_plan_complete(below@, dims as int, capacity as int);
        }
    }
    let mut out: Vec<CellEdge> = Vec::new();
    if dims < 2 {
        return out;
    }
    let m = dims - 1;
    let ghost b = below@;
    let ghost d = dims as int;
    let ghost cap = capacity as int;
    let mut full = false;
    let mut z: usize = 0;
    while z < m
        invariant
            b == below@,
            below.len() == dims * dims * dims,
            m == dims - 1,
            d == dims,
            cap == capacity,
            z <= m,
            walk_z(b, d, cap, out@, full, z as int) == walk_z(b, d, cap, Seq::empty(), false, 0),
        ensures
            out@ == mesh_plan_spec(b, d, cap),
        decreases m - z,
    {
        if full || budget_check(out.len(), capacity) {
            break;
        }
        let ghost out_z = out@;
        let mut y: usize = 0;
        while y < m
            invariant
                b == below@,
                below.len() == dims * dims * dims,
                m == dims - 1,
                d == dims,
                cap == capacity,
                z < m,
                y <= m,
                walk_y(b, d, cap, out@, full, z as int, y as int) == walk_y(b, d, cap, out_z, false, z as int, 0),
            ensures
                (out@, full) == walk_y(b, d, cap, out_z, false, z as int, 0),
            decreases m - y,
        {
            if full || budget_check(out.len(), capacity) {
                break;
            }
            let ghost out_y = out@;
            let mut x: usize = 0;
            while x < m
                invariant
                    b == below@,
                    below.len() == dims * dims * dims,
                    m == dims - 1,
                    d == dims,
                    cap == capacity,
                    z < m,
                    y < m,
                    x <= m,
                    walk_x(b, d, cap, out@, full, z as int, y as int, x as int)
                        == walk_x(b, d, cap, out_y, false, z as int, y as int, 0),
                ensures
                    (out@, full) == walk_x(b, d, cap, out_y, false, z as int, y as int, 0),
                decreases m - x,
            {
                if full || budget_check(out.len(), capacity) {
                    break;
                }
                let corners = cell_corners(dims, x, y, z);
                let flags: [bool; 8] = [
                    below[corners[0]],
                    below[corners[1]],
                    below[corners[2]],
                    below[corners[3]],
                    below[corners[4]],
                    below[corners[5]],
                    below[corners[6]],
                    below[corners[7]],
                ];
                proof {
                    assert(flags@ =~= cell_flags(b, d, x as int, y as int, z as int));
                }
                let edges = triangulate(&flags);
                let ghost cell = cell_output(b, d, x as int, y as int, z as int);
                if edges.len() > capacity - out.len() {
                    full = true;
                    break;
                }
                let ghost before = out@;
                let mut j: usize = 0;
                while j < edges.len()
                    invariant
                        j <= edges.len(),
                        edges@ == tri_edges(cell_case(b, d, x as int, y as int, z as int)),
                        cell == cell_output(b, d, x as int, y as int, z as int),
                        out@ == before + cell.take(j as int),
                    decreases edges.len() - j,
                {
                    out.push(CellEdge { x, y, z, edge: edges[j] });
                    j = j + 1;
                    proof {
                        assert(out@ =~= before + cell.take(j as int));
                    }
                }
                proof {
                    assert(cell.take(j as int) =~= cell);
                }
                x = x + 1;
            }
            y = y + 1;
        }
        z = z + 1;
    }
    out
}

/// Whether cell edge `e` of the cell at (`x`, `y`, `z`) is crossed depends only
/// on the flags of its two lattice endpoints.
pub proof fn lemma_cell_edge_crossed(below: Seq<bool>, d: int, x: int, y: int, z: int, e: int)
    requires
        0 <= e < 12,
    ensures
        0 <= cell_case(below, d, x, y, z) < 256,
        edge_crossed(cell_case(below, d, x, y, z), e) == (below[corner_point(d, x, y, z, edge_start(e))]
            != below[corner_point(d, x, y, z, edge_end(e))]),
{
    let flags = cell_flags(below, d, x, y, z);
    lemma_case_bits(flags);
    assert(0 <= edge_end(e) < 8);
    assert(corner_below(case_of(flags), edge_start(e)) == flags[edge_start(e)]);
    assert(corner_below(case_of(flags), edge_end(e)) == flags[edge_end(e)]);
}

/// The mesh is closed: when two cells share a lattice edge, the surface
/// crosses it for both or for neither, and when it crosses it, both cells
/// emit a vertex on it.
pub proof fn lemma_shared_edge(
    below: Seq<bool>,
    d: int,
    x1: int,
    y1: int,
    z1: int,
    e1: int,
    x2: int,
    y2: int,
    z2: int,
    e2: int,
)
    requires
        0 <= e1 < 12,
        0 <= e2 < 12,
        ({
            let a1 = corner_point(d, x1, y1, z1, edge_start(e1));
            let b1 = corner_point(d, x1, y1, z1, edge_end(e1));
            let a2 = corner_point(d, x2, y2, z2, edge_start(e2));
            let b2 = corner_point(d, x2, y2, z2, edge_end(e2));
            (a1 == a2 && b1 == b2) || (a1 == b2 && b1 == a2)
        }),
    ensures
        edge_crossed(cell_case(below, d, x1, y1, z1), e1) == edge_crossed(cell_case(below, d, x2, y2, z2), e2),
        edge_crossed(cell_case(below, d, x1, y1, z1), e1) ==> tri_edges(cell_case(below, d, x1, y1, z1)).contains(e1 as u8)
            && tri_edges(cell_case(below, d, x2, y2, z2)).contains(e2 as u8),
{
    lemma_cell_edge_crossed(below, d, x1, y1, z1, e1);
    lemma_cell_edge_crossed(below, d, x2, y2, z2, e2);
    lemma_tri_edges(cell_case(below, d, x1, y1, z1));
    lemma_tri_edges(cell_case(below, d, x2, y2, z2));
}

/// The walk has no hidden input: two runs on the same flags, side and budget
/// emit the same vertices in the same order.
pub proof fn lemma_mesh_plan_deterministic(
    below: Seq<bool>,
    d: int,
    cap: int,
    first: Seq<CellEdge>,
    second: Seq<CellEdge>,
)
    requires
        first == mesh_plan_spec(below, d, cap),
        second == mesh_plan_spec(below, d, cap),
    ensures
        first == second,
{
}


/// The mesh is closed: where the budget leaves room for every cell, a lattice
/// edge that two cells share and that the surface crosses carries a vertex in
/// the output of both cells.
pub proof fn lemma_closed_surface(
    below: Seq<bool>,
    d: int,
    cap: int,
    x1: int,
    y1: int,
    z1: int,
    e1: int,
    x2: int,
    y2: int,
    z2: int,
    e2: int,
)
    requires
        0 <= x1 < d - 1 && 0 <= y1 < d - 1 && 0 <= z1 < d - 1,
        0 <= x2 < d - 1 && 0 <= y2 < d - 1 && 0 <= z2 < d - 1,
        d <= usize::MAX,
        0 <= e1 < 12,
        0 <= e2 < 12,
        ({
            let a1 = corner_point(d, x1, y1, z1, edge_start(e1));
            let b1 = corner_point(d, x1, y1, z1, edge_end(e1));
            let a2 = corner_point(d, x2, y2, z2, edge_start(e2));
            let b2 = corner_point(d, x2, y2, z2, edge_end(e2));
            (a1 == a2 && b1 == b2) || (a1 == b2 && b1 == a2)
        }),
        edge_crossed(cell_case(below, d, x1, y1, z1), e1),
        mesh_all(below, d).len() + 15 <= cap,
    ensures
        mesh_plan_spec(below, d, cap).contains(
            CellEdge { x: x1 as usize, y: y1 as usize, z: z1 as usize, edge: e1 as u8 },
        ),
        mesh_plan_spec(below, d, cap).contains(
            CellEdge { x: x2 as usize, y: y2 as usize, z: z2 as usize, edge: e2 as u8 },
        ),
{
    lemma_shared_edge(below, d, x1, y1, z1, e1, x2, y2, z2, e2);
    lemma_mesh_plan_complete(below, d, cap);
    lemma_cell_in_mesh(below, d, x1, y1, z1, e1);
    lemma_cell_in_mesh(below, d, x2, y2, z2, e2);
}

proof fn lemma_cell_in_mesh(below: Seq<bool>, d: int, x: int, y: int, z: int, e: int)
    requires
        0 <= x < d - 1 && 0 <= y < d - 1 && 0 <= z < d - 1,
        0 <= e < 12,
        tri_edges(cell_case(below, d, x, y, z)).contains(e as u8),
    ensures
        mesh_all(below, d).contains(CellEdge { x: x as usize, y: y as usize, z: z as usize, edge: e as u8 }),
{
    let s = tri_edges(cell_case(below, d, x, y, z));
    let j = choose|j: int| 0 <= j < s.len() && s[j] == e as u8;
    let k = lemma_all_z_has(below, d, Seq::empty(), 0, z, y, x, j);
    assert(mesh_all(below, d)[k] == CellEdge { x: x as usize, y: y as usize, z: z as usize, edge: e as u8 });
}

} // verus!
