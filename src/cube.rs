//! Case analysis and triangulation order of one lattice cell.
use vstd::prelude::*;
use crate::tables::{
    bit_of, case_from, case_of, corner_below, distinct_triangle, edge_crossed, lemma_digit_place,
    lemma_edge_mask, lemma_tri_edges, lemma_tri_len, tri_edges, tri_entry, tri_len, DIGIT_PLACE,
    EDGE_TABLE, LIST_END, TRIANGLE_TABLE,
};

verus! {

/// One more than the largest case index built from the flags `i..8`.
pub open spec fn case_bound(i: int) -> int {
    if i >= 8 { 1 } else if i == 7 { 2 } else if i == 6 { 4 } else if i == 5 { 8 }
    else if i == 4 { 16 } else if i == 3 { 32 } else if i == 2 { 64 } else if i == 1 { 128 }
    else { 256 }
}

proof fn lemma_case_from_bound(below: Seq<bool>, i: int)
    requires
        0 <= i <= 8,
    ensures
        0 <= case_from(below, i) < case_bound(i),
    decreases 8 - i,
{
    if i < 8 {
        lemma_case_from_bound(below, i + 1);
    }
}

proof fn lemma_bit_halve(v: int, i: int)
    requires
        v >= 0,
        1 <= i < 8,
    ensures
        bit_of(v, i) == bit_of(v / 2, i - 1),
{
    assert(v / 4 == (v / 2) / 2);
    assert(v / 8 == (v / 2) / 4);
    assert(v / 16 == (v / 2) / 8);
    assert(v / 32 == (v / 2) / 16);
    assert(v / 64 == (v / 2) / 32);
    assert(v / 128 == (v / 2) / 64);
}

proof fn lemma_case_from_bits(below: Seq<bool>, k: int, i: int)
    requires
        0 <= k <= i < 8,
    ensures
        bit_of(case_from(below, k), i - k) == below[i],
    decreases i - k,
{
    lemma_case_from_bound(below, k);
    lemma_case_from_bound(below, k + 1);
    let v = case_from(below, k);
    let rest = case_from(below, k + 1);
    assert(v == (if below[k] { 1int } else { 0int }) + 2 * rest);
    assert(v % 2 == (if below[k] { 1int } else { 0int }));
    if k < i {
        assert(v / 2 == rest);
        lemma_bit_halve(v, i - k);
        lemma_case_from_bits(below, k + 1, i);
    }
}

/// Bit `i` of a case index is the flag of corner `i`.
pub proof fn lemma_case_bits(below: Seq<bool>)
    ensures
        0 <= case_of(below) < 256,
        forall|i: int| 0 <= i < 8 ==> #[trigger] corner_below(case_of(below), i) == below[i],
{
    lemma_case_from_bound(below, 0);
    assert forall|i: int| 0 <= i < 8 implies #[trigger] corner_below(case_of(below), i) == below[i] by {
        lemma_case_from_bits(below, 0, i);
    }
}

/// The case index of a cell: bit `i` is set when corner `i` is below the threshold.
pub fn case_index(below: &[bool; 8]) -> (r: u8)
    ensures
        r as int == case_of(below@),
        forall|i: int| 0 <= i < 8 ==> #[trigger] corner_below(r as int, i) == below@[i],
{
    let mut c: u8 = 0;
    let mut i: usize = 8;
    while i > 0
        invariant
            i <= 8,
            c as int == case_from(below@, i as int),
        decreases i,
    {
        proof {
            lemma_case_from_bound(below@, i as int);
        }
        i = i - 1;
        let flag: u8 = if below[i] { 1 } else { 0 };
        c = 2 * c + flag;
    }
    proof {
        lemma_case_bits(below@);
    }
    c
}

/// The edges crossed in a case, as a mask with bit `e` for edge `e`.
pub fn edge_flags(case: u8) -> (r: u16)
    ensures
        r == EDGE_TABLE@[case as int],
        r < 4096,
        forall|e: int| 0 <= e < 12 ==> #[trigger] bit_of(r as int, e) == edge_crossed(case as int, e),
        r == 0 <==> tri_edges(case as int).len() == 0,
{
    proof {
        lemma_edge_mask(case as int);
    }
    EDGE_TABLE[case as usize]
}

/// The edges on which the vertices of a case are emitted, in order; each
/// three in a row form one triangle, wound as the table gives them.
pub fn triangulate_case(case: u8) -> (r: Vec<u8>)
    ensures
        r@ == tri_edges(case as int),
        r.len() % 3 == 0,
        r.len() <= 15,
        forall|j: int| 0 <= j < r.len() ==> #[trigger] r@[j] < 12 && edge_crossed(case as int, r@[j] as int),
        forall|e: int| 0 <= e < 12 && edge_crossed(case as int, e) ==> r@.contains(e as u8),
        forall|t: int| 0 <= t && 3 * t + 2 < r.len() ==> #[trigger] distinct_triangle(r@, t),
{
    proof {
        lemma_tri_edges(case as int);
        lemma_tri_len(case as int);
    }
    let flags = edge_flags(case);
    if flags == 0 {
        return Vec::new();
    }
    let word = TRIANGLE_TABLE[case as usize];
    let mut edges: Vec<u8> = Vec::new();
    let mut j: usize = 0;
    while j < 15
        invariant
            j <= tri_len(case as int),
            word == TRIANGLE_TABLE@[case as int],
            edges@ == tri_edges(case as int).take(j as int),
            0 <= tri_len(case as int) <= 15,
            forall|k: int| 0 <= k < tri_len(case as int) ==> tri_entry(case as int, k) != LIST_END,
            tri_len(case as int) < 15 ==> tri_entry(case as int, tri_len(case as int)) == LIST_END,
        ensures
            j == tri_len(case as int),
            edges@ == tri_edges(case as int).take(j as int),
        decreases 15 - j,
    {
        proof {
            lemma_digit_place(case as int, j as int);
        }
        let digit = (word / DIGIT_PLACE[j]) % 16;
        if digit == LIST_END {
            break;
        }
        edges.push(digit as u8);
        j = j + 1;
        proof {
            assert(edges@ =~= tri_edges(case as int).take(j as int));
        }
    }
    proof {
        assert(edges@ =~= tri_edges(case as int));
    }
    edges
}

/// The edge list for eight corner flags: `triangulate_case` of their case index.
pub fn triangulate(below: &[bool; 8]) -> (r: Vec<u8>)
    ensures
        r@ == tri_edges(case_of(below@)),
{
    triangulate_case(case_index(below))
}

/// A colour packed as `0xAABBGGRR` with the alpha byte forced to `0xff`.
pub fn pack_color(red: u8, green: u8, blue: u8) -> (r: u32)
    ensures
        r == 0xff00_0000 + blue * 0x1_0000 + green * 0x100 + red,
{
    0xff00_0000u32 + (blue as u32) * 0x1_0000 + (green as u32) * 0x100 + red as u32
}

/// A cell whose corners all lie on one side of the threshold emits no vertex.
pub proof fn lemma_uniform_cell_is_empty(case: int)
    requires
        case == 0 || case == 255,
    ensures
        tri_edges(case).len() == 0,
{
    lemma_tri_edges(case);
    if tri_edges(case).len() > 0 {
        let e = tri_edges(case)[0] as int;
        assert(edge_crossed(case, e));
        assert(0 <= e % 8 < 8);
        assert(false);
    }
}

} // verus!
