//! The two lookup tables of cell triangulation, and what they are proved to hold.
//!
//! A cell has eight corners and twelve edges; edge `e` runs from corner `e % 8`
//! to corner `EDGE_END[e]`. The case index of a cell has bit `i` set when the
//! field at corner `i` is below the iso-threshold.
use vstd::prelude::*;

verus! {

/// For each case index, the edges that the iso-surface crosses (bit `e` for edge `e`).
pub const EDGE_TABLE: [u16; 256] = [
    0x000, 0x109, 0x203, 0x30a, 0x406, 0x50f, 0x605, 0x70c,
    0x80c, 0x905, 0xa0f, 0xb06, 0xc0a, 0xd03, 0xe09, 0xf00,
    0x190, 0x099, 0x393, 0x29a, 0x596, 0x49f, 0x795, 0x69c,
    0x99c, 0x895, 0xb9f, 0xa96, 0xd9a, 0xc93, 0xf99, 0xe90,
    0x230, 0x339, 0x033, 0x13a, 0x636, 0x73f, 0x435, 0x53c,
    0xa3c, 0xb35, 0x83f, 0x936, 0xe3a, 0xf33, 0xc39, 0xd30,
    0x3a0, 0x2a9, 0x1a3, 0x0aa, 0x7a6, 0x6af, 0x5a5, 0x4ac,
    0xbac, 0xaa5, 0x9af, 0x8a6, 0xfaa, 0xea3, 0xda9, 0xca0,
    0x460, 0x569, 0x663, 0x76a, 0x066, 0x16f, 0x265, 0x36c,
    0xc6c, 0xd65, 0xe6f, 0xf66, 0x86a, 0x963, 0xa69, 0xb60,
    0x5f0, 0x4f9, 0x7f3, 0x6fa, 0x1f6, 0x0ff, 0x3f5, 0x2fc,
    0xdfc, 0xcf5, 0xfff, 0xef6, 0x9fa, 0x8f3, 0xbf9, 0xaf0,
    0x650, 0x759, 0x453, 0x55a, 0x256, 0x35f, 0x055, 0x15c,
    0xe5c, 0xf55, 0xc5f, 0xd56, 0xa5a, 0xb53, 0x859, 0x950,
    0x7c0, 0x6c9, 0x5c3, 0x4ca, 0x3c6, 0x2cf, 0x1c5, 0x0cc,
    0xfcc, 0xec5, 0xdcf, 0xcc6, 0xbca, 0xac3, 0x9c9, 0x8c0,
    0x8c0, 0x9c9, 0xac3, 0xbca, 0xcc6, 0xdcf, 0xec5, 0xfcc,
    0x0cc, 0x1c5, 0x2cf, 0x3c6, 0x4ca, 0x5c3, 0x6c9, 0x7c0,
    0x950, 0x859, 0xb53, 0xa5a, 0xd56, 0xc5f, 0xf55, 0xe5c,
    0x15c, 0x055, 0x35f, 0x256, 0x55a, 0x453, 0x759, 0x650,
    0xaf0, 0xbf9, 0x8f3, 0x9fa, 0xef6, 0xfff, 0xcf5, 0xdfc,
    0x2fc, 0x3f5, 0x0ff, 0x1f6, 0x6fa, 0x7f3, 0x4f9, 0x5f0,
    0xb60, 0xa69, 0x963, 0x86a, 0xf66, 0xe6f, 0xd65, 0xc6c,
    0x36c, 0x265, 0x16f, 0x066, 0x76a, 0x663, 0x569, 0x460,
    0xca0, 0xda9, 0xea3, 0xfaa, 0x8a6, 0x9af, 0xaa5, 0xbac,
    0x4ac, 0x5a5, 0x6af, 0x7a6, 0x0aa, 0x1a3, 0x2a9, 0x3a0,
    0xd30, 0xc39, 0xf33, 0xe3a, 0x936, 0x83f, 0xb35, 0xa3c,
    0x53c, 0x435, 0x73f, 0x636, 0x13a, 0x033, 0x339, 0x230,
    0xe90, 0xf99, 0xc93, 0xd9a, 0xa96, 0xb9f, 0x895, 0x99c,
    0x69c, 0x795, 0x49f, 0x596, 0x29a, 0x393, 0x099, 0x190,
    0xf00, 0xe09, 0xd03, 0xc0a, 0xb06, 0xa0f, 0x905, 0x80c,
    0x70c, 0x605, 0x50f, 0x406, 0x30a, 0x203, 0x109, 0x000,
];


/// For each case index, the edges whose crossing points form the triangles of
/// that case, in emission order. One hexadecimal digit per edge, read from the
/// most significant of fifteen digits; the digit `f` ends the list. The
/// underscores separate triangles.
pub const TRIANGLE_TABLE: [u64; 256] = [
    0xfff_fff_fff_fff_fff, 0x083_fff_fff_fff_fff, 0x019_fff_fff_fff_fff, 0x183_981_fff_fff_fff,
    0x12a_fff_fff_fff_fff, 0x083_12a_fff_fff_fff, 0x92a_029_fff_fff_fff, 0x283_2a8_a98_fff_fff,
    0x3b2_fff_fff_fff_fff, 0x0b2_8b0_fff_fff_fff, 0x190_23b_fff_fff_fff, 0x1b2_19b_98b_fff_fff,
    0x3a1_ba3_fff_fff_fff, 0x0a1_08a_8ba_fff_fff, 0x390_3b9_ba9_fff_fff, 0x98a_a8b_fff_fff_fff,
    0x478_fff_fff_fff_fff, 0x430_734_fff_fff_fff, 0x019_847_fff_fff_fff, 0x419_471_731_fff_fff,
    0x12a_847_fff_fff_fff, 0x347_304_12a_fff_fff, 0x92a_902_847_fff_fff, 0x2a9_297_273_794_fff,
    0x847_3b2_fff_fff_fff, 0xb47_b24_204_fff_fff, 0x901_847_23b_fff_fff, 0x47b_94b_9b2_921_fff,
    0x3a1_3ba_784_fff_fff, 0x1ba_14b_104_7b4_fff, 0x478_90b_9ba_b03_fff, 0x47b_4b9_9ba_fff_fff,
    0x954_fff_fff_fff_fff, 0x954_083_fff_fff_fff, 0x054_150_fff_fff_fff, 0x854_835_315_fff_fff,
    0x12a_954_fff_fff_fff, 0x308_12a_495_fff_fff, 0x52a_542_402_fff_fff, 0x2a5_325_354_348_fff,
    0x954_23b_fff_fff_fff, 0x0b2_08b_495_fff_fff, 0x054_015_23b_fff_fff, 0x215_258_28b_485_fff,
    0xa3b_a13_954_fff_fff, 0x495_081_8a1_8ba_fff, 0x540_50b_5ba_b03_fff, 0x548_58a_a8b_fff_fff,
    0x978_579_fff_fff_fff, 0x930_953_573_fff_fff, 0x078_017_157_fff_fff, 0x153_357_fff_fff_fff,
    0x978_957_a12_fff_fff, 0xa12_950_530_573_fff, 0x802_825_857_a52_fff, 0x2a5_253_357_fff_fff,
    0x795_789_3b2_fff_fff, 0x957_972_920_27b_fff, 0x23b_018_178_157_fff, 0xb21_b17_715_fff_fff,
    0x958_857_a13_a3b_fff, 0x570_509_7b0_10a_ba0, 0xba0_b03_a50_807_570, 0xba5_7b5_fff_fff_fff,
    0xa65_fff_fff_fff_fff, 0x083_5a6_fff_fff_fff, 0x901_5a6_fff_fff_fff, 0x183_198_5a6_fff_fff,
    0x165_261_fff_fff_fff, 0x165_126_308_fff_fff, 0x965_906_026_fff_fff, 0x598_582_526_328_fff,
    0x23b_a65_fff_fff_fff, 0xb08_b20_a65_fff_fff, 0x019_23b_5a6_fff_fff, 0x5a6_192_9b2_98b_fff,
    0x63b_653_513_fff_fff, 0x08b_0b5_051_5b6_fff, 0x3b6_036_065_059_fff, 0x659_69b_b98_fff_fff,
    0x5a6_478_fff_fff_fff, 0x430_473_65a_fff_fff, 0x190_5a6_847_fff_fff, 0xa65_197_173_794_fff,
    0x612_651_478_fff_fff, 0x125_526_304_347_fff, 0x847_905_065_026_fff, 0x739_794_329_596_269,
    0x3b2_784_a65_fff_fff, 0x5a6_472_420_27b_fff, 0x019_478_23b_5a6_fff, 0x921_9b2_94b_7b4_5a6,
    0x847_3b5_351_5b6_fff, 0x51b_5b6_10b_7b4_04b, 0x059_065_036_b63_847, 0x659_69b_479_7b9_fff,
    0xa49_64a_fff_fff_fff, 0x4a6_49a_083_fff_fff, 0xa01_a60_640_fff_fff, 0x831_816_864_61a_fff,
    0x149_124_264_fff_fff, 0x308_129_249_264_fff, 0x024_426_fff_fff_fff, 0x832_824_426_fff_fff,
    0xa49_a64_b23_fff_fff, 0x082_28b_49a_4a6_fff, 0x3b2_016_064_61a_fff, 0x641_61a_481_21b_8b1,
    0x964_936_913_b63_fff, 0x8b1_810_b61_914_641, 0x3b6_360_064_fff_fff, 0x648_b68_fff_fff_fff,
    0x7a6_78a_89a_fff_fff, 0x073_0a7_09a_67a_fff, 0xa67_1a7_178_180_fff, 0xa67_a71_173_fff_fff,
    0x126_168_189_867_fff, 0x269_291_679_093_739, 0x780_706_602_fff_fff, 0x732_672_fff_fff_fff,
    0x23b_a68_a89_867_fff, 0x207_27b_097_67a_9a7, 0x180_178_1a7_67a_23b, 0xb21_b17_a61_671_fff,
    0x896_867_916_b63_136, 0x091_b67_fff_fff_fff, 0x780_706_3b0_b60_fff, 0x7b6_fff_fff_fff_fff,
    0x76b_fff_fff_fff_fff, 0x308_b76_fff_fff_fff, 0x019_b76_fff_fff_fff, 0x819_831_b76_fff_fff,
    0xa12_6b7_fff_fff_fff, 0x12a_308_6b7_fff_fff, 0x290_2a9_6b7_fff_fff, 0x6b7_2a3_a83_a98_fff,
    0x723_627_fff_fff_fff, 0x708_760_620_fff_fff, 0x276_237_019_fff_fff, 0x162_186_198_876_fff,
    0xa76_a17_137_fff_fff, 0xa76_17a_187_108_fff, 0x037_07a_0a9_6a7_fff, 0x76a_7a8_8a9_fff_fff,
    0x684_b86_fff_fff_fff, 0x36b_306_046_fff_fff, 0x86b_846_901_fff_fff, 0x946_963_931_b36_fff,
    0x684_6b8_2a1_fff_fff, 0x12a_30b_06b_046_fff, 0x4b8_46b_029_2a9_fff, 0xa93_a32_943_b36_463,
    0x823_842_462_fff_fff, 0x042_462_fff_fff_fff, 0x190_234_246_438_fff, 0x194_142_246_fff_fff,
    0x813_861_846_6a1_fff, 0xa10_a06_604_fff_fff, 0x463_438_6a3_039_a93, 0xa94_6a4_fff_fff_fff,
    0x495_76b_fff_fff_fff, 0x083_495_b76_fff_fff, 0x501_540_76b_fff_fff, 0xb76_834_354_315_fff,
    0x954_a12_76b_fff_fff, 0x6b7_12a_083_495_fff, 0x76b_54a_42a_402_fff, 0x348_354_325_a52_b76,
    0x723_762_549_fff_fff, 0x954_086_062_687_fff, 0x362_376_150_540_fff, 0x628_687_218_485_158,
    0x954_a16_176_137_fff, 0x16a_176_107_870_954, 0x40a_4a5_03a_6a7_37a, 0x76a_7a8_54a_48a_fff,
    0x695_6b9_b89_fff_fff, 0x36b_063_056_095_fff, 0x0b8_05b_015_56b_fff, 0x6b3_635_531_fff_fff,
    0x12a_95b_9b8_b56_fff, 0x0b3_06b_096_569_12a, 0xb85_b56_805_a52_025, 0x6b3_635_2a3_a53_fff,
    0x589_528_562_382_fff, 0x956_960_062_fff_fff, 0x158_180_568_382_628, 0x156_216_fff_fff_fff,
    0x136_16a_386_569_896, 0xa10_a06_950_560_fff, 0x038_56a_fff_fff_fff, 0xa56_fff_fff_fff_fff,
    0xb5a_75b_fff_fff_fff, 0xb5a_b75_830_fff_fff, 0x5b7_5ab_190_fff_fff, 0xa75_ab7_981_831_fff,
    0xb12_b71_751_fff_fff, 0x083_127_175_72b_fff, 0x975_927_902_2b7_fff, 0x752_72b_592_328_982,
    0x25a_235_375_fff_fff, 0x820_852_875_a25_fff, 0x901_5a3_537_3a2_fff, 0x982_921_872_a25_752,
    0x135_375_fff_fff_fff, 0x087_071_175_fff_fff, 0x903_935_537_fff_fff, 0x987_597_fff_fff_fff,
    0x584_5a8_ab8_fff_fff, 0x504_5b0_5ab_b30_fff, 0x019_84a_8ab_a45_fff, 0xab4_a45_b34_941_314,
    0x251_285_2b8_458_fff, 0x04b_0b3_45b_2b1_51b, 0x025_059_2b5_458_b85, 0x945_2b3_fff_fff_fff,
    0x25a_352_345_384_fff, 0x5a2_524_420_fff_fff, 0x3a2_35a_385_458_019, 0x5a2_524_192_942_fff,
    0x845_853_351_fff_fff, 0x045_105_fff_fff_fff, 0x845_853_905_035_fff, 0x945_fff_fff_fff_fff,
    0x4b7_49b_9ab_fff_fff, 0x083_497_9b7_9ab_fff, 0x1ab_1b4_140_74b_fff, 0x314_348_1a4_74b_ab4,
    0x4b7_9b4_92b_912_fff, 0x974_9b7_91b_2b1_083, 0xb74_b42_240_fff_fff, 0xb74_b42_834_324_fff,
    0x29a_279_237_749_fff, 0x9a7_974_a27_870_207, 0x37a_3a2_74a_1a0_40a, 0x1a2_874_fff_fff_fff,
    0x491_417_713_fff_fff, 0x491_417_081_871_fff, 0x403_743_fff_fff_fff, 0x487_fff_fff_fff_fff,
    0x9a8_ab8_fff_fff_fff, 0x309_39b_b9a_fff_fff, 0x01a_0a8_8ab_fff_fff, 0x31a_b3a_fff_fff_fff,
    0x12b_1b9_9b8_fff_fff, 0x309_39b_129_2b9_fff, 0x02b_80b_fff_fff_fff, 0x32b_fff_fff_fff_fff,
    0x238_28a_a89_fff_fff, 0x9a2_092_fff_fff_fff, 0x238_28a_018_1a8_fff, 0x1a2_fff_fff_fff_fff,
    0x138_918_fff_fff_fff, 0x091_fff_fff_fff_fff, 0x038_fff_fff_fff_fff, 0xfff_fff_fff_fff_fff,
];

/// The corner at which each edge ends; edge `e` starts at corner `e % 8`.
pub const EDGE_END: [u8; 12] = [1, 2, 3, 0, 5, 6, 7, 4, 4, 5, 6, 7];

/// The digit that ends an edge list in `TRIANGLE_TABLE`.
pub const LIST_END: u64 = 15;

/// Bit `i` of `v`, for the bit positions of a case index and an edge mask.
pub open spec fn bit_of(v: int, i: int) -> bool {
    if i == 0 { (v / 0x1) % 2 == 1 }
    else if i == 1 { (v / 0x2) % 2 == 1 }
    else if i == 2 { (v / 0x4) % 2 == 1 }
    else if i == 3 { (v / 0x8) % 2 == 1 }
    else if i == 4 { (v / 0x10) % 2 == 1 }
    else if i == 5 { (v / 0x20) % 2 == 1 }
    else if i == 6 { (v / 0x40) % 2 == 1 }
    else if i == 7 { (v / 0x80) % 2 == 1 }
    else if i == 8 { (v / 0x100) % 2 == 1 }
    else if i == 9 { (v / 0x200) % 2 == 1 }
    else if i == 10 { (v / 0x400) % 2 == 1 }
    else { (v / 0x800) % 2 == 1 }
}

/// Hexadecimal digit `i` of `v`, counted from the least significant.
pub open spec fn nibble_of(v: int, i: int) -> int {
    if i == 0 { (v / 0x1) % 16 }
    else if i == 1 { (v / 0x10) % 16 }
    else if i == 2 { (v / 0x100) % 16 }
    else if i == 3 { (v / 0x1000) % 16 }
    else if i == 4 { (v / 0x10000) % 16 }
    else if i == 5 { (v / 0x100000) % 16 }
    else if i == 6 { (v / 0x1000000) % 16 }
    else if i == 7 { (v / 0x10000000) % 16 }
    else if i == 8 { (v / 0x100000000) % 16 }
    else if i == 9 { (v / 0x1000000000) % 16 }
    else if i == 10 { (v / 0x10000000000) % 16 }
    else if i == 11 { (v / 0x100000000000) % 16 }
    else if i == 12 { (v / 0x1000000000000) % 16 }
    else if i == 13 { (v / 0x10000000000000) % 16 }
    else { (v / 0x100000000000000) % 16 }
}

/// The case index of eight corner flags, flag `i` giving bit `i`.
pub open spec fn case_from(below: Seq<bool>, i: int) -> int
    decreases 8 - i,
{
    if i >= 8 {
        0
    } else {
        (if below[i] { 1int } else { 0int }) + 2 * case_from(below, i + 1)
    }
}

/// The case index of a cell whose corner `i` is below the threshold when `below[i]`.
pub open spec fn case_of(below: Seq<bool>) -> int {
    case_from(below, 0)
}

/// Whether corner `i` is below the threshold in the given case.
pub open spec fn corner_below(case: int, i: int) -> bool {
    bit_of(case, i)
}

/// The corner at which edge `e` starts.
pub open spec fn edge_start(e: int) -> int {
    e % 8
}

/// The corner at which edge `e` ends.
pub open spec fn edge_end(e: int) -> int {
    EDGE_END@[e] as int
}

/// The surface crosses edge `e` exactly when its two corners lie on different sides.
pub open spec fn edge_crossed(case: int, e: int) -> bool {
    corner_below(case, edge_start(e)) != corner_below(case, edge_end(e))
}

/// Entry `j` of the edge list of a case.
pub open spec fn tri_entry(case: int, j: int) -> int {
    nibble_of(TRIANGLE_TABLE@[case] as int, 14 - j)
}

/// The position of the first list end at or after `j`, or fifteen.
pub open spec fn end_from(case: int, j: int) -> int
    decreases 15 - j,
{
    if j >= 15 || tri_entry(case, j) == 15 {
        j
    } else {
        end_from(case, j + 1)
    }
}

/// The number of entries in the edge list of a case.
pub open spec fn tri_len(case: int) -> int {
    end_from(case, 0)
}

/// The edges of a case in emission order; each three in a row form one triangle.
pub open spec fn tri_edges(case: int) -> Seq<u8> {
    Seq::new(tri_len(case) as nat, |j: int| tri_entry(case, j) as u8)
}

/// The first `n` entries of a case name crossed edges, and each whole
/// triangle among them uses three different edges.
pub open spec fn entries_ok(case: int, n: int) -> bool
    decreases n,
{
    if n <= 0 {
        true
    } else {
        let e = tri_entry(case, n - 1);
        &&& e < 12
        &&& edge_crossed(case, e)
        &&& ((n - 1) % 3 == 2 ==> e != tri_entry(case, n - 2) && e != tri_entry(case, n - 3)
            && tri_entry(case, n - 2) != tri_entry(case, n - 3))
        &&& entries_ok(case, n - 1)
    }
}

/// Edge `e` is among the first `n` entries of a case.
pub open spec fn appears(case: int, n: int, e: int) -> bool
    decreases n,
{
    if n <= 0 {
        false
    } else {
        tri_entry(case, n - 1) == e || appears(case, n - 1, e)
    }
}

/// For each edge below `m`: the edge mask has its bit exactly when the edge
/// is crossed, and a crossed edge appears in the edge list.
pub open spec fn covered(case: int, m: int) -> bool
    decreases m,
{
    if m <= 0 {
        true
    } else {
        &&& bit_of(EDGE_TABLE@[case] as int, m - 1) == edge_crossed(case, m - 1)
        &&& (edge_crossed(case, m - 1) ==> appears(case, tri_len(case), m - 1))
        &&& covered(case, m - 1)
    }
}

/// What the two tables promise for one case.
pub open spec fn row_ok(case: int) -> bool {
    let n = tri_len(case);
    &&& n % 3 == 0
    &&& EDGE_TABLE@[case] < 4096
    &&& (EDGE_TABLE@[case] == 0 <==> n == 0)
    &&& entries_ok(case, n)
    &&& covered(case, 12)
}

/// `row_ok` holds for every case in `lo..hi`.
pub open spec fn rows_ok(lo: int, hi: int) -> bool
    decreases hi - lo,
{
    if hi <= lo {
        true
    } else {
        row_ok(lo) && rows_ok(lo + 1, hi)
    }
}

// The rows are checked sixteen at a time: the solver evaluates every
// definition above on the literal table entries.
proof fn lemma_rows_0()
    ensures
        rows_ok(0, 16),
{
    reveal_with_fuel(rows_ok, 17);
    reveal_with_fuel(end_from, 16);
    reveal_with_fuel(entries_ok, 16);
    reveal_with_fuel(appears, 16);
    reveal_with_fuel(covered, 13);
}

proof fn lemma_rows_1()
    ensures
        rows_ok(16, 32),
{
    reveal_with_fuel(rows_ok, 17);
    reveal_with_fuel(end_from, 16);
    reveal_with_fuel(entries_ok, 16);
    reveal_with_fuel(appears, 16);
    reveal_with_fuel(covered, 13);
}

proof fn lemma_rows_2()
    ensures
        rows_ok(32, 48),
{
    reveal_with_fuel(rows_ok, 17);
    reveal_with_fuel(end_from, 16);
    reveal_with_fuel(entries_ok, 16);
    reveal_with_fuel(appears, 16);
    reveal_with_fuel(covered, 13);
}

proof fn lemma_rows_3()
    ensures
        rows_ok(48, 64),
{
    reveal_with_fuel(rows_ok, 17);
    reveal_with_fuel(end_from, 16);
    reveal_with_fuel(entries_ok, 16);
    reveal_with_fuel(appears, 16);
    reveal_with_fuel(covered, 13);
}

proof fn lemma_rows_4()
    ensures
        rows_ok(64, 80),
{
    reveal_with_fuel(rows_ok, 17);
    reveal_with_fuel(end_from, 16);
    reveal_with_fuel(entries_ok, 16);
    reveal_with_fuel(appears, 16);
    reveal_with_fuel(covered, 13);
}

proof fn lemma_rows_5()
    ensures
        rows_ok(80, 96),
{
    reveal_with_fuel(rows_ok, 17);
    reveal_with_fuel(end_from, 16);
    reveal_with_fuel(entries_ok, 16);
    reveal_with_fuel(appears, 16);
    reveal_with_fuel(covered, 13);
}

proof fn lemma_rows_6()
    ensures
        rows_ok(96, 112),
{
    reveal_with_fuel(rows_ok, 17);
    reveal_with_fuel(end_from, 16);
    reveal_with_fuel(entries_ok, 16);
    reveal_with_fuel(appears, 16);
    reveal_with_fuel(covered, 13);
}

proof fn lemma_rows_7()
    ensures
        rows_ok(112, 128),
{
    reveal_with_fuel(rows_ok, 17);
    reveal_with_fuel(end_from, 16);
    reveal_with_fuel(entries_ok, 16);
    reveal_with_fuel(appears, 16);
    reveal_with_fuel(covered, 13);
}

proof fn lemma_rows_8()
    ensures
        rows_ok(128, 144),
{
    reveal_with_fuel(rows_ok, 17);
    reveal_with_fuel(end_from, 16);
    reveal_with_fuel(entries_ok, 16);
    reveal_with_fuel(appears, 16);
    reveal_with_fuel(covered, 13);
}

proof fn lemma_rows_9()
    ensures
        rows_ok(144, 160),
{
    reveal_with_fuel(rows_ok, 17);
    reveal_with_fuel(end_from, 16);
    reveal_with_fuel(entries_ok, 16);
    reveal_with_fuel(appears, 16);
    reveal_with_fuel(covered, 13);
}

proof fn lemma_rows_10()
    ensures
        rows_ok(160, 176),
{
    reveal_with_fuel(rows_ok, 17);
    reveal_with_fuel(end_from, 16);
    reveal_with_fuel(entries_ok, 16);
    reveal_with_fuel(appears, 16);
    reveal_with_fuel(covered, 13);
}

proof fn lemma_rows_11()
    ensures
        rows_ok(176, 192),
{
    reveal_with_fuel(rows_ok, 17);
    reveal_with_fuel(end_from, 16);
    reveal_with_fuel(entries_ok, 16);
    reveal_with_fuel(appears, 16);
    reveal_with_fuel(covered, 13);
}

proof fn lemma_rows_12()
    ensures
        rows_ok(192, 208),
{
    reveal_with_fuel(rows_ok, 17);
    reveal_with_fuel(end_from, 16);
    reveal_with_fuel(entries_ok, 16);
    reveal_with_fuel(appears, 16);
    reveal_with_fuel(covered, 13);
}

proof fn lemma_rows_13()
    ensures
        rows_ok(208, 224),
{
    reveal_with_fuel(rows_ok, 17);
    reveal_with_fuel(end_from, 16);
    reveal_with_fuel(entries_ok, 16);
    reveal_with_fuel(appears, 16);
    reveal_with_fuel(covered, 13);
}

proof fn lemma_rows_14()
    ensures
        rows_ok(224, 240),
{
    reveal_with_fuel(rows_ok, 17);
    reveal_with_fuel(end_from, 16);
    reveal_with_fuel(entries_ok, 16);
    reveal_with_fuel(appears, 16);
    reveal_with_fuel(covered, 13);
}

proof fn lemma_rows_15()
    ensures
        rows_ok(240, 256),
{
    reveal_with_fuel(rows_ok, 17);
    reveal_with_fuel(end_from, 16);
    reveal_with_fuel(entries_ok, 16);
    reveal_with_fuel(appears, 16);
    reveal_with_fuel(covered, 13);
}

proof fn lemma_rows_split(lo: int, hi: int, c: int)
    requires
        rows_ok(lo, hi),
        lo <= c < hi,
    ensures
        row_ok(c),
    decreases hi - lo,
{
    if lo < c {
        lemma_rows_split(lo + 1, hi, c);
    }
}

/// Every case index gets a well-formed row from both tables.
pub proof fn lemma_table_rows(c: int)
    requires
        0 <= c < 256,
    ensures
        row_ok(c),
{
    let b = c / 16;
    if b == 0 { lemma_rows_0(); } else if b == 1 { lemma_rows_1(); }
    else if b == 2 { lemma_rows_2(); } else if b == 3 { lemma_rows_3(); }
    else if b == 4 { lemma_rows_4(); } else if b == 5 { lemma_rows_5(); }
    else if b == 6 { lemma_rows_6(); } else if b == 7 { lemma_rows_7(); }
    else if b == 8 { lemma_rows_8(); } else if b == 9 { lemma_rows_9(); }
    else if b == 10 { lemma_rows_10(); } else if b == 11 { lemma_rows_11(); }
    else if b == 12 { lemma_rows_12(); } else if b == 13 { lemma_rows_13(); }
    else if b == 14 { lemma_rows_14(); } else { lemma_rows_15(); }
    lemma_rows_split(16 * b, 16 * b + 16, c);
}

/// Position values of the fifteen digits of a packed edge list, first entry first.
pub const DIGIT_PLACE: [u64; 15] = [
    0x100_0000_0000_0000, 0x10_0000_0000_0000, 0x1_0000_0000_0000, 0x1000_0000_0000,
    0x100_0000_0000, 0x10_0000_0000, 0x1_0000_0000, 0x1000_0000, 0x100_0000, 0x10_0000,
    0x1_0000, 0x1000, 0x100, 0x10, 0x1,
];

/// Triangle `t` of an edge list uses three different edges.
pub open spec fn distinct_triangle(s: Seq<u8>, t: int) -> bool {
    s[3 * t] != s[3 * t + 1] && s[3 * t] != s[3 * t + 2] && s[3 * t + 1] != s[3 * t + 2]
}

/// Entry `j` of a packed edge list is the digit at `DIGIT_PLACE[j]`.
pub proof fn lemma_digit_place(c: int, j: int)
    requires
        0 <= c < 256,
        0 <= j < 15,
    ensures
        DIGIT_PLACE@[j] > 0,
        tri_entry(c, j) == (TRIANGLE_TABLE@[c] as int / DIGIT_PLACE@[j] as int) % 16,
        0 <= tri_entry(c, j) < 16,
{
}

proof fn lemma_end_from(c: int, j: int)
    requires
        0 <= j <= 15,
    ensures
        j <= end_from(c, j) <= 15,
        forall|k: int| j <= k < end_from(c, j) ==> tri_entry(c, k) != LIST_END,
        end_from(c, j) < 15 ==> tri_entry(c, end_from(c, j)) == LIST_END,
    decreases 15 - j,
{
    if j < 15 && tri_entry(c, j) != LIST_END {
        lemma_end_from(c, j + 1);
    }
}

/// `tri_len` is the position of the first list end, or fifteen if there is none.
pub proof fn lemma_tri_len(c: int)
    ensures
        0 <= tri_len(c) <= 15,
        forall|k: int| 0 <= k < tri_len(c) ==> tri_entry(c, k) != LIST_END,
        tri_len(c) < 15 ==> tri_entry(c, tri_len(c)) == LIST_END,
{
    lemma_end_from(c, 0);
}

proof fn lemma_entries(c: int, n: int, j: int)
    requires
        entries_ok(c, n),
        0 <= j < n,
    ensures
        tri_entry(c, j) < 12,
        edge_crossed(c, tri_entry(c, j)),
        j % 3 == 2 ==> tri_entry(c, j) != tri_entry(c, j - 1) && tri_entry(c, j) != tri_entry(c, j - 2)
            && tri_entry(c, j - 1) != tri_entry(c, j - 2),
    decreases n,
{
    if j < n - 1 {
        lemma_entries(c, n - 1, j);
    }
}

proof fn lemma_appears(c: int, n: int, e: int) -> (j: int)
    requires
        appears(c, n, e),
    ensures
        0 <= j < n,
        tri_entry(c, j) == e,
    decreases n,
{
    if tri_entry(c, n - 1) == e {
        n - 1
    } else {
        lemma_appears(c, n - 1, e)
    }
}

proof fn lemma_covered(c: int, m: int, e: int)
    requires
        covered(c, m),
        0 <= e < m,
    ensures
        bit_of(EDGE_TABLE@[c] as int, e) == edge_crossed(c, e),
        edge_crossed(c, e) ==> appears(c, tri_len(c), e),
    decreases m,
{
    if e < m - 1 {
        lemma_covered(c, m - 1, e);
    }
}

/// The edge mask of a case has bit `e` set exactly when the surface crosses edge `e`,
/// and it is zero exactly when the case emits no triangle.
pub proof fn lemma_edge_mask(c: int)
    requires
        0 <= c < 256,
    ensures
        EDGE_TABLE@[c] < 4096,
        EDGE_TABLE@[c] == 0 <==> tri_edges(c).len() == 0,
        forall|e: int| 0 <= e < 12 ==> #[trigger] bit_of(EDGE_TABLE@[c] as int, e) == edge_crossed(c, e),
{
    lemma_table_rows(c);
    lemma_tri_len(c);
    assert forall|e: int| 0 <= e < 12 implies #[trigger] bit_of(EDGE_TABLE@[c] as int, e) == edge_crossed(c, e) by {
        lemma_covered(c, 12, e);
    }
}

/// Each case lists whole triangles, at most five, on edges that the surface
/// crosses; every crossed edge is used, and no triangle repeats an edge.
pub proof fn lemma_tri_edges(c: int)
    requires
        0 <= c < 256,
    ensures
        tri_edges(c).len() % 3 == 0,
        tri_edges(c).len() <= 15,
        forall|j: int| 0 <= j < tri_edges(c).len() ==> #[trigger] tri_edges(c)[j] < 12
            && edge_crossed(c, tri_edges(c)[j] as int),
        forall|e: int| 0 <= e < 12 && edge_crossed(c, e) ==> tri_edges(c).contains(e as u8),
        forall|t: int| 0 <= t && 3 * t + 2 < tri_edges(c).len() ==> #[trigger] distinct_triangle(tri_edges(c), t),
{
    lemma_table_rows(c);
    lemma_tri_len(c);
    let n = tri_len(c);
    let s = tri_edges(c);
    assert forall|j: int| 0 <= j < n implies #[trigger] s[j] as int == tri_entry(c, j) by {
        lemma_digit_place(c, j);
    }
    assert forall|j: int| 0 <= j < s.len() implies #[trigger] s[j] < 12 && edge_crossed(c, s[j] as int) by {
        lemma_entries(c, n, j);
    }
    assert forall|e: int| 0 <= e < 12 && edge_crossed(c, e) implies s.contains(e as u8) by {
        lemma_covered(c, 12, e);
        let j = lemma_appears(c, n, e);
        assert(s[j] == e as u8);
    }
    assert forall|t: int| 0 <= t && 3 * t + 2 < s.len() implies #[trigger] distinct_triangle(s, t) by {
        lemma_entries(c, n, 3 * t + 2);
        assert(s[3 * t] as int == tri_entry(c, 3 * t));
        assert(s[3 * t + 1] as int == tri_entry(c, 3 * t + 1));
        assert(s[3 * t + 2] as int == tri_entry(c, 3 * t + 2));
    }
}

} // verus!
