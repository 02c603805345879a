//! The lookup tables of the marching cubes algorithm, and the facts that make them
//! fit together: which edges a corner configuration crosses, and which of those edges
//! each triangle of the configuration is spanned by.
//!
//! A cube's corners are numbered 0 to 7 and its edges 0 to 11. A corner configuration
//! is a byte whose bit `c` is set when corner `c` lies below the iso level.
use vstd::prelude::*;

verus! {

/// `2^k` for the bit positions used by the tables.
#[verifier::inline]
pub open spec fn bit_weight(k: u8) -> int {
    match k {
        0 => 1,
        1 => 2,
        2 => 4,
        3 => 8,
        4 => 16,
        5 => 32,
        6 => 64,
        7 => 128,
        8 => 256,
        9 => 512,
        10 => 1024,
        11 => 2048,
        12 => 4096,
        13 => 8192,
        14 => 16384,
        15 => 32768,
        _ => 65536,
    }
}

/// Bit `k` of the non-negative number `x`.
#[verifier::inline]
pub open spec fn bit_of(x: int, k: u8) -> bool {
    (x / bit_weight(k)) % 2 == 1
}

/// Whether bit `edge` of the edge mask `mask` is set, that is, whether the mask marks
/// edge `edge` as crossed by the surface.
#[verifier::opaque]
pub open spec fn edge_crossed(mask: u16, edge: u8) -> bool {
    bit_of(mask as int, edge)
}

/// Whether corner `corner` is flagged in the corner configuration `index`.
#[verifier::opaque]
pub open spec fn corner_set(index: u8, corner: u8) -> bool {
    bit_of(index as int, corner)
}

/// The two corners that edge `edge` of the cube joins.
pub open spec fn edge_corner_pair(edge: u8) -> (u8, u8) {
    match edge {
        0 => (0, 1),
        1 => (1, 2),
        2 => (2, 3),
        3 => (3, 0),
        4 => (4, 5),
        5 => (5, 6),
        6 => (6, 7),
        7 => (7, 4),
        8 => (0, 4),
        9 => (1, 5),
        10 => (2, 6),
        11 => (3, 7),
        _ => (0, 0),
    }
}

/// Executable form of [`edge_corner_pair`].
pub fn edge_endpoints(edge: u8) -> (pair: (usize, usize))
    requires
        edge < 12,
    ensures
        pair.0 == edge_corner_pair(edge).0,
        pair.1 == edge_corner_pair(edge).1,
        pair.0 < 8,
        pair.1 < 8,
{
    match edge {
        0 => (0, 1),
        1 => (1, 2),
        2 => (2, 3),
        3 => (3, 0),
        4 => (4, 5),
        5 => (5, 6),
        6 => (6, 7),
        7 => (7, 4),
        8 => (0, 4),
        9 => (1, 5),
        10 => (2, 6),
        _ => (3, 7),
    }
}

/// The edges crossed by the iso surface for each corner configuration, one bit per edge.
#[verifier::opaque]
pub open spec fn edge_table(index: u8) -> u16 {
    match index {
        0 => 0x0,
        1 => 0x109,
        2 => 0x203,
        3 => 0x30a,
        4 => 0x406,
        5 => 0x50f,
        6 => 0x605,
        7 => 0x70c,
        8 => 0x80c,
        9 => 0x905,
        10 => 0xa0f,
        11 => 0xb06,
        12 => 0xc0a,
        13 => 0xd03,
        14 => 0xe09,
        15 => 0xf00,
        16 => 0x190,
        17 => 0x99,
        18 => 0x393,
        19 => 0x29a,
        20 => 0x596,
        21 => 0x49f,
        22 => 0x795,
        23 => 0x69c,
        24 => 0x99c,
        25 => 0x895,
        26 => 0xb9f,
        27 => 0xa96,
        28 => 0xd9a,
        29 => 0xc93,
        30 => 0xf99,
        31 => 0xe90,
        32 => 0x230,
        33 => 0x339,
        34 => 0x33,
        35 => 0x13a,
        36 => 0x636,
        37 => 0x73f,
        38 => 0x435,
        39 => 0x53c,
        40 => 0xa3c,
        41 => 0xb35,
        42 => 0x83f,
        43 => 0x936,
        44 => 0xe3a,
        45 => 0xf33,
        46 => 0xc39,
        47 => 0xd30,
        48 => 0x3a0,
        49 => 0x2a9,
        50 => 0x1a3,
        51 => 0xaa,
        52 => 0x7a6,
        53 => 0x6af,
        54 => 0x5a5,
        55 => 0x4ac,
        56 => 0xbac,
        57 => 0xaa5,
        58 => 0x9af,
        59 => 0x8a6,
        60 => 0xfaa,
        61 => 0xea3,
        62 => 0xda9,
        63 => 0xca0,
        64 => 0x460,
        65 => 0x569,
        66 => 0x663,
        67 => 0x76a,
        68 => 0x66,
        69 => 0x16f,
        70 => 0x265,
        71 => 0x36c,
        72 => 0xc6c,
        73 => 0xd65,
        74 => 0xe6f,
        75 => 0xf66,
        76 => 0x86a,
        77 => 0x963,
        78 => 0xa69,
        79 => 0xb60,
        80 => 0x5f0,
        81 => 0x4f9,
        82 => 0x7f3,
        83 => 0x6fa,
        84 => 0x1f6,
        85 => 0xff,
        86 => 0x3f5,
        87 => 0x2fc,
        88 => 0xdfc,
        89 => 0xcf5,
        90 => 0xfff,
        91 => 0xef6,
        92 => 0x9fa,
        93 => 0x8f3,
        94 => 0xbf9,
        95 => 0xaf0,
        96 => 0x650,
        97 => 0x759,
        98 => 0x453,
        99 => 0x55a,
        100 => 0x256,
        101 => 0x35f,
        102 => 0x55,
        103 => 0x15c,
        104 => 0xe5c,
        105 => 0xf55,
        106 => 0xc5f,
        107 => 0xd56,
        108 => 0xa5a,
        109 => 0xb53,
        110 => 0x859,
        111 => 0x950,
        112 => 0x7c0,
        113 => 0x6c9,
        114 => 0x5c3,
        115 => 0x4ca,
        116 => 0x3c6,
        117 => 0x2cf,
        118 => 0x1c5,
        119 => 0xcc,
        120 => 0xfcc,
        121 => 0xec5,
        122 => 0xdcf,
        123 => 0xcc6,
        124 => 0xbca,
        125 => 0xac3,
        126 => 0x9c9,
        127 => 0x8c0,
        128 => 0x8c0,
        129 => 0x9c9,
        130 => 0xac3,
        131 => 0xbca,
        132 => 0xcc6,
        133 => 0xdcf,
        134 => 0xec5,
        135 => 0xfcc,
        136 => 0xcc,
        137 => 0x1c5,
        138 => 0x2cf,
        139 => 0x3c6,
        140 => 0x4ca,
        141 => 0x5c3,
        142 => 0x6c9,
        143 => 0x7c0,
        144 => 0x950,
        145 => 0x859,
        146 => 0xb53,
        147 => 0xa5a,
        148 => 0xd56,
        149 => 0xc5f,
        150 => 0xf55,
        151 => 0xe5c,
        152 => 0x15c,
        153 => 0x55,
        154 => 0x35f,
        155 => 0x256,
        156 => 0x55a,
        157 => 0x453,
        158 => 0x759,
        159 => 0x650,
        160 => 0xaf0,
        161 => 0xbf9,
        162 => 0x8f3,
        163 => 0x9fa,
        164 => 0xef6,
        165 => 0xfff,
        166 => 0xcf5,
        167 => 0xdfc,
        168 => 0x2fc,
        169 => 0x3f5,
        170 => 0xff,
        171 => 0x1f6,
        172 => 0x6fa,
        173 => 0x7f3,
        174 => 0x4f9,
        175 => 0x5f0,
        176 => 0xb60,
        177 => 0xa69,
        178 => 0x963,
        179 => 0x86a,
        180 => 0xf66,
        181 => 0xe6f,
        182 => 0xd65,
        183 => 0xc6c,
        184 => 0x36c,
        185 => 0x265,
        186 => 0x16f,
        187 => 0x66,
        188 => 0x76a,
        189 => 0x663,
        190 => 0x569,
        191 => 0x460,
        192 => 0xca0,
        193 => 0xda9,
        194 => 0xea3,
        195 => 0xfaa,
        196 => 0x8a6,
        197 => 0x9af,
        198 => 0xaa5,
        199 => 0xbac,
        200 => 0x4ac,
        201 => 0x5a5,
        202 => 0x6af,
        203 => 0x7a6,
        204 => 0xaa,
        205 => 0x1a3,
        206 => 0x2a9,
        207 => 0x3a0,
        208 => 0xd30,
        209 => 0xc39,
        210 => 0xf33,
        211 => 0xe3a,
        212 => 0x936,
        213 => 0x83f,
        214 => 0xb35,
        215 => 0xa3c,
        216 => 0x53c,
        217 => 0x435,
        218 => 0x73f,
        219 => 0x636,
        220 => 0x13a,
        221 => 0x33,
        222 => 0x339,
        223 => 0x230,
        224 => 0xe90,
        225 => 0xf99,
        226 => 0xc93,
        227 => 0xd9a,
        228 => 0xa96,
        229 => 0xb9f,
        230 => 0x895,
        231 => 0x99c,
        232 => 0x69c,
        233 => 0x795,
        234 => 0x49f,
        235 => 0x596,
        236 => 0x29a,
        237 => 0x393,
        238 => 0x99,
        239 => 0x190,
        240 => 0xf00,
        241 => 0xe09,
        242 => 0xd03,
        243 => 0xc0a,
        244 => 0xb06,
        245 => 0xa0f,
        246 => 0x905,
        247 => 0x80c,
        248 => 0x70c,
        249 => 0x605,
        250 => 0x50f,
        251 => 0x406,
        252 => 0x30a,
        253 => 0x203,
        254 => 0x109,
        255 => 0x0,
    }
}

/// Executable form of [`edge_table`].
pub fn edge_lookup(index: u8) -> (mask: u16)
    ensures
        mask == edge_table(index),
{
    proof {
        reveal(edge_table);
    }
    match index {
        0 => 0x0,
        1 => 0x109,
        2 => 0x203,
        3 => 0x30a,
        4 => 0x406,
        5 => 0x50f,
        6 => 0x605,
        7 => 0x70c,
        8 => 0x80c,
        9 => 0x905,
        10 => 0xa0f,
        11 => 0xb06,
        12 => 0xc0a,
        13 => 0xd03,
        14 => 0xe09,
        15 => 0xf00,
        16 => 0x190,
        17 => 0x99,
        18 => 0x393,
        19 => 0x29a,
        20 => 0x596,
        21 => 0x49f,
        22 => 0x795,
        23 => 0x69c,
        24 => 0x99c,
        25 => 0x895,
        26 => 0xb9f,
        27 => 0xa96,
        28 => 0xd9a,
        29 => 0xc93,
        30 => 0xf99,
        31 => 0xe90,
        32 => 0x230,
        33 => 0x339,
        34 => 0x33,
        35 => 0x13a,
        36 => 0x636,
        37 => 0x73f,
        38 => 0x435,
        39 => 0x53c,
        40 => 0xa3c,
        41 => 0xb35,
        42 => 0x83f,
        43 => 0x936,
        44 => 0xe3a,
        45 => 0xf33,
        46 => 0xc39,
        47 => 0xd30,
        48 => 0x3a0,
        49 => 0x2a9,
        50 => 0x1a3,
        51 => 0xaa,
        52 => 0x7a6,
        53 => 0x6af,
        54 => 0x5a5,
        55 => 0x4ac,
        56 => 0xbac,
        57 => 0xaa5,
        58 => 0x9af,
        59 => 0x8a6,
        60 => 0xfaa,
        61 => 0xea3,
        62 => 0xda9,
        63 => 0xca0,
        64 => 0x460,
        65 => 0x569,
        66 => 0x663,
        67 => 0x76a,
        68 => 0x66,
        69 => 0x16f,
        70 => 0x265,
        71 => 0x36c,
        72 => 0xc6c,
        73 => 0xd65,
        74 => 0xe6f,
        75 => 0xf66,
        76 => 0x86a,
        77 => 0x963,
        78 => 0xa69,
        79 => 0xb60,
        80 => 0x5f0,
        81 => 0x4f9,
        82 => 0x7f3,
        83 => 0x6fa,
        84 => 0x1f6,
        85 => 0xff,
        86 => 0x3f5,
        87 => 0x2fc,
        88 => 0xdfc,
        89 => 0xcf5,
        90 => 0xfff,
        91 => 0xef6,
        92 => 0x9fa,
        93 => 0x8f3,
        94 => 0xbf9,
        95 => 0xaf0,
        96 => 0x650,
        97 => 0x759,
        98 => 0x453,
        99 => 0x55a,
        100 => 0x256,
        101 => 0x35f,
        102 => 0x55,
        103 => 0x15c,
        104 => 0xe5c,
        105 => 0xf55,
        106 => 0xc5f,
        107 => 0xd56,
        108 => 0xa5a,
        109 => 0xb53,
        110 => 0x859,
        111 => 0x950,
        112 => 0x7c0,
        113 => 0x6c9,
        114 => 0x5c3,
        115 => 0x4ca,
        116 => 0x3c6,
        117 => 0x2cf,
        118 => 0x1c5,
        119 => 0xcc,
        120 => 0xfcc,
        121 => 0xec5,
        122 => 0xdcf,
        123 => 0xcc6,
        124 => 0xbca,
        125 => 0xac3,
        126 => 0x9c9,
        127 => 0x8c0,
        128 => 0x8c0,
        129 => 0x9c9,
        130 => 0xac3,
        131 => 0xbca,
        132 => 0xcc6,
        133 => 0xdcf,
        134 => 0xec5,
        135 => 0xfcc,
        136 => 0xcc,
        137 => 0x1c5,
        138 => 0x2cf,
        139 => 0x3c6,
        140 => 0x4ca,
        141 => 0x5c3,
        142 => 0x6c9,
        143 => 0x7c0,
        144 => 0x950,
        145 => 0x859,
        146 => 0xb53,
        147 => 0xa5a,
        148 => 0xd56,
        149 => 0xc5f,
        150 => 0xf55,
        151 => 0xe5c,
        152 => 0x15c,
        153 => 0x55,
        154 => 0x35f,
        155 => 0x256,
        156 => 0x55a,
        157 => 0x453,
        158 => 0x759,
        159 => 0x650,
        160 => 0xaf0,
        161 => 0xbf9,
        162 => 0x8f3,
        163 => 0x9fa,
        164 => 0xef6,
        165 => 0xfff,
        166 => 0xcf5,
        167 => 0xdfc,
        168 => 0x2fc,
        169 => 0x3f5,
        170 => 0xff,
        171 => 0x1f6,
        172 => 0x6fa,
        173 => 0x7f3,
        174 => 0x4f9,
        175 => 0x5f0,
        176 => 0xb60,
        177 => 0xa69,
        178 => 0x963,
        179 => 0x86a,
        180 => 0xf66,
        181 => 0xe6f,
        182 => 0xd65,
        183 => 0xc6c,
        184 => 0x36c,
        185 => 0x265,
        186 => 0x16f,
        187 => 0x66,
        188 => 0x76a,
        189 => 0x663,
        190 => 0x569,
        191 => 0x460,
        192 => 0xca0,
        193 => 0xda9,
        194 => 0xea3,
        195 => 0xfaa,
        196 => 0x8a6,
        197 => 0x9af,
        198 => 0xaa5,
        199 => 0xbac,
        200 => 0x4ac,
        201 => 0x5a5,
        202 => 0x6af,
        203 => 0x7a6,
        204 => 0xaa,
        205 => 0x1a3,
        206 => 0x2a9,
        207 => 0x3a0,
        208 => 0xd30,
        209 => 0xc39,
        210 => 0xf33,
        211 => 0xe3a,
        212 => 0x936,
        213 => 0x83f,
        214 => 0xb35,
        215 => 0xa3c,
        216 => 0x53c,
        217 => 0x435,
        218 => 0x73f,
        219 => 0x636,
        220 => 0x13a,
        221 => 0x33,
        222 => 0x339,
        223 => 0x230,
        224 => 0xe90,
        225 => 0xf99,
        226 => 0xc93,
        227 => 0xd9a,
        228 => 0xa96,
        229 => 0xb9f,
        230 => 0x895,
        231 => 0x99c,
        232 => 0x69c,
        233 => 0x795,
        234 => 0x49f,
        235 => 0x596,
        236 => 0x29a,
        237 => 0x393,
        238 => 0x99,
        239 => 0x190,
        240 => 0xf00,
        241 => 0xe09,
        242 => 0xd03,
        243 => 0xc0a,
        244 => 0xb06,
        245 => 0xa0f,
        246 => 0x905,
        247 => 0x80c,
        248 => 0x70c,
        249 => 0x605,
        250 => 0x50f,
        251 => 0x406,
        252 => 0x30a,
        253 => 0x203,
        254 => 0x109,
        255 => 0x0,
    }
}

/// For each corner configuration, the triangles of the surface inside the cube, as
/// consecutive triples of edge numbers; each triangle has its vertices on those edges.
#[verifier::opaque]
pub open spec fn triangulation_table(index: u8) -> Seq<u8> {
    match index {
        0 => seq![],
        1 => seq![0, 8, 3],
        2 => seq![0, 1, 9],
        3 => seq![1, 8, 3, 9, 8, 1],
        4 => seq![1, 2, 10],
        5 => seq![0, 8, 3, 1, 2, 10],
        6 => seq![9, 2, 10, 0, 2, 9],
        7 => seq![2, 8, 3, 2, 10, 8, 10, 9, 8],
        8 => seq![3, 11, 2],
        9 => seq![0, 11, 2, 8, 11, 0],
        10 => seq![1, 9, 0, 2, 3, 11],
        11 => seq![1, 11, 2, 1, 9, 11, 9, 8, 11],
        12 => seq![3, 10, 1, 11, 10, 3],
        13 => seq![0, 10, 1, 0, 8, 10, 8, 11, 10],
        14 => seq![3, 9, 0, 3, 11, 9, 11, 10, 9],
        15 => seq![9, 8, 10, 10, 8, 11],
        16 => seq![4, 7, 8],
        17 => seq![4, 3, 0, 7, 3, 4],
        18 => seq![0, 1, 9, 8, 4, 7],
        19 => seq![4, 1, 9, 4, 7, 1, 7, 3, 1],
        20 => seq![1, 2, 10, 8, 4, 7],
        21 => seq![3, 4, 7, 3, 0, 4, 1, 2, 10],
        22 => seq![9, 2, 10, 9, 0, 2, 8, 4, 7],
        23 => seq![2, 10, 9, 2, 9, 7, 2, 7, 3, 7, 9, 4],
        24 => seq![8, 4, 7, 3, 11, 2],
        25 => seq![11, 4, 7, 11, 2, 4, 2, 0, 4],
        26 => seq![9, 0, 1, 8, 4, 7, 2, 3, 11],
        27 => seq![4, 7, 11, 9, 4, 11, 9, 11, 2, 9, 2, 1],
        28 => seq![3, 10, 1, 3, 11, 10, 7, 8, 4],
        29 => seq![1, 11, 10, 1, 4, 11, 1, 0, 4, 7, 11, 4],
        30 => seq![4, 7, 8, 9, 0, 11, 9, 11, 10, 11, 0, 3],
        31 => seq![4, 7, 11, 4, 11, 9, 9, 11, 10],
        32 => seq![9, 5, 4],
        33 => seq![9, 5, 4, 0, 8, 3],
        34 => seq![0, 5, 4, 1, 5, 0],
        35 => seq![8, 5, 4, 8, 3, 5, 3, 1, 5],
        36 => seq![1, 2, 10, 9, 5, 4],
        37 => seq![3, 0, 8, 1, 2, 10, 4, 9, 5],
        38 => seq![5, 2, 10, 5, 4, 2, 4, 0, 2],
        39 => seq![2, 10, 5, 3, 2, 5, 3, 5, 4, 3, 4, 8],
        40 => seq![9, 5, 4, 2, 3, 11],
        41 => seq![0, 11, 2, 0, 8, 11, 4, 9, 5],
        42 => seq![0, 5, 4, 0, 1, 5, 2, 3, 11],
        43 => seq![2, 1, 5, 2, 5, 8, 2, 8, 11, 4, 8, 5],
        44 => seq![10, 3, 11, 10, 1, 3, 9, 5, 4],
        45 => seq![4, 9, 5, 0, 8, 1, 8, 10, 1, 8, 11, 10],
        46 => seq![5, 4, 0, 5, 0, 11, 5, 11, 10, 11, 0, 3],
        47 => seq![5, 4, 8, 5, 8, 10, 10, 8, 11],
        48 => seq![9, 7, 8, 5, 7, 9],
        49 => seq![9, 3, 0, 9, 5, 3, 5, 7, 3],
        50 => seq![0, 7, 8, 0, 1, 7, 1, 5, 7],
        51 => seq![1, 5, 3, 3, 5, 7],
        52 => seq![9, 7, 8, 9, 5, 7, 10, 1, 2],
        53 => seq![10, 1, 2, 9, 5, 0, 5, 3, 0, 5, 7, 3],
        54 => seq![8, 0, 2, 8, 2, 5, 8, 5, 7, 10, 5, 2],
        55 => seq![2, 10, 5, 2, 5, 3, 3, 5, 7],
        56 => seq![7, 9, 5, 7, 8, 9, 3, 11, 2],
        57 => seq![9, 5, 7, 9, 7, 2, 9, 2, 0, 2, 7, 11],
        58 => seq![2, 3, 11, 0, 1, 8, 1, 7, 8, 1, 5, 7],
        59 => seq![11, 2, 1, 11, 1, 7, 7, 1, 5],
        60 => seq![9, 5, 8, 8, 5, 7, 10, 1, 3, 10, 3, 11],
        61 => seq![5, 7, 0, 5, 0, 9, 7, 11, 0, 1, 0, 10, 11, 10, 0],
        62 => seq![11, 10, 0, 11, 0, 3, 10, 5, 0, 8, 0, 7, 5, 7, 0],
        63 => seq![11, 10, 5, 7, 11, 5],
        64 => seq![10, 6, 5],
        65 => seq![0, 8, 3, 5, 10, 6],
        66 => seq![9, 0, 1, 5, 10, 6],
        67 => seq![1, 8, 3, 1, 9, 8, 5, 10, 6],
        68 => seq![1, 6, 5, 2, 6, 1],
        69 => seq![1, 6, 5, 1, 2, 6, 3, 0, 8],
        70 => seq![9, 6, 5, 9, 0, 6, 0, 2, 6],
        71 => seq![5, 9, 8, 5, 8, 2, 5, 2, 6, 3, 2, 8],
        72 => seq![2, 3, 11, 10, 6, 5],
        73 => seq![11, 0, 8, 11, 2, 0, 10, 6, 5],
        74 => seq![0, 1, 9, 2, 3, 11, 5, 10, 6],
        75 => seq![5, 10, 6, 1, 9, 2, 9, 11, 2, 9, 8, 11],
        76 => seq![6, 3, 11, 6, 5, 3, 5, 1, 3],
        77 => seq![0, 8, 11, 0, 11, 5, 0, 5, 1, 5, 11, 6],
        78 => seq![3, 11, 6, 0, 3, 6, 0, 6, 5, 0, 5, 9],
        79 => seq![6, 5, 9, 6, 9, 11, 11, 9, 8],
        80 => seq![5, 10, 6, 4, 7, 8],
        81 => seq![4, 3, 0, 4, 7, 3, 6, 5, 10],
        82 => seq![1, 9, 0, 5, 10, 6, 8, 4, 7],
        83 => seq![10, 6, 5, 1, 9, 7, 1, 7, 3, 7, 9, 4],
        84 => seq![6, 1, 2, 6, 5, 1, 4, 7, 8],
        85 => seq![1, 2, 5, 5, 2, 6, 3, 0, 4, 3, 4, 7],
        86 => seq![8, 4, 7, 9, 0, 5, 0, 6, 5, 0, 2, 6],
        87 => seq![7, 3, 9, 7, 9, 4, 3, 2, 9, 5, 9, 6, 2, 6, 9],
        88 => seq![3, 11, 2, 7, 8, 4, 10, 6, 5],
        89 => seq![5, 10, 6, 4, 7, 2, 4, 2, 0, 2, 7, 11],
        90 => seq![0, 1, 9, 4, 7, 8, 2, 3, 11, 5, 10, 6],
        91 => seq![9, 2, 1, 9, 11, 2, 9, 4, 11, 7, 11, 4, 5, 10, 6],
        92 => seq![8, 4, 7, 3, 11, 5, 3, 5, 1, 5, 11, 6],
        93 => seq![5, 1, 11, 5, 11, 6, 1, 0, 11, 7, 11, 4, 0, 4, 11],
        94 => seq![0, 5, 9, 0, 6, 5, 0, 3, 6, 11, 6, 3, 8, 4, 7],
        95 => seq![6, 5, 9, 6, 9, 11, 4, 7, 9, 7, 11, 9],
        96 => seq![10, 4, 9, 6, 4, 10],
        97 => seq![4, 10, 6, 4, 9, 10, 0, 8, 3],
        98 => seq![10, 0, 1, 10, 6, 0, 6, 4, 0],
        99 => seq![8, 3, 1, 8, 1, 6, 8, 6, 4, 6, 1, 10],
        100 => seq![1, 4, 9, 1, 2, 4, 2, 6, 4],
        101 => seq![3, 0, 8, 1, 2, 9, 2, 4, 9, 2, 6, 4],
        102 => seq![0, 2, 4, 4, 2, 6],
        103 => seq![8, 3, 2, 8, 2, 4, 4, 2, 6],
        104 => seq![10, 4, 9, 10, 6, 4, 11, 2, 3],
        105 => seq![0, 8, 2, 2, 8, 11, 4, 9, 10, 4, 10, 6],
        106 => seq![3, 11, 2, 0, 1, 6, 0, 6, 4, 6, 1, 10],
        107 => seq![6, 4, 1, 6, 1, 10, 4, 8, 1, 2, 1, 11, 8, 11, 1],
        108 => seq![9, 6, 4, 9, 3, 6, 9, 1, 3, 11, 6, 3],
        109 => seq![8, 11, 1, 8, 1, 0, 11, 6, 1, 9, 1, 4, 6, 4, 1],
        110 => seq![3, 11, 6, 3, 6, 0, 0, 6, 4],
        111 => seq![6, 4, 8, 11, 6, 8],
        112 => seq![7, 10, 6, 7, 8, 10, 8, 9, 10],
        113 => seq![0, 7, 3, 0, 10, 7, 0, 9, 10, 6, 7, 10],
        114 => seq![10, 6, 7, 1, 10, 7, 1, 7, 8, 1, 8, 0],
        115 => seq![10, 6, 7, 10, 7, 1, 1, 7, 3],
        116 => seq![1, 2, 6, 1, 6, 8, 1, 8, 9, 8, 6, 7],
        117 => seq![2, 6, 9, 2, 9, 1, 6, 7, 9, 0, 9, 3, 7, 3, 9],
        118 => seq![7, 8, 0, 7, 0, 6, 6, 0, 2],
        119 => seq![7, 3, 2, 6, 7, 2],
        120 => seq![2, 3, 11, 10, 6, 8, 10, 8, 9, 8, 6, 7],
        121 => seq![2, 0, 7, 2, 7, 11, 0, 9, 7, 6, 7, 10, 9, 10, 7],
        122 => seq![1, 8, 0, 1, 7, 8, 1, 10, 7, 6, 7, 10, 2, 3, 11],
        123 => seq![11, 2, 1, 11, 1, 7, 10, 6, 1, 6, 7, 1],
        124 => seq![8, 9, 6, 8, 6, 7, 9, 1, 6, 11, 6, 3, 1, 3, 6],
        125 => seq![0, 9, 1, 11, 6, 7],
        126 => seq![7, 8, 0, 7, 0, 6, 3, 11, 0, 11, 6, 0],
        127 => seq![7, 11, 6],
        128 => seq![7, 6, 11],
        129 => seq![3, 0, 8, 11, 7, 6],
        130 => seq![0, 1, 9, 11, 7, 6],
        131 => seq![8, 1, 9, 8, 3, 1, 11, 7, 6],
        132 => seq![10, 1, 2, 6, 11, 7],
        133 => seq![1, 2, 10, 3, 0, 8, 6, 11, 7],
        134 => seq![2, 9, 0, 2, 10, 9, 6, 11, 7],
        135 => seq![6, 11, 7, 2, 10, 3, 10, 8, 3, 10, 9, 8],
        136 => seq![7, 2, 3, 6, 2, 7],
        137 => seq![7, 0, 8, 7, 6, 0, 6, 2, 0],
        138 => seq![2, 7, 6, 2, 3, 7, 0, 1, 9],
        139 => seq![1, 6, 2, 1, 8, 6, 1, 9, 8, 8, 7, 6],
        140 => seq![10, 7, 6, 10, 1, 7, 1, 3, 7],
        141 => seq![10, 7, 6, 1, 7, 10, 1, 8, 7, 1, 0, 8],
        142 => seq![0, 3, 7, 0, 7, 10, 0, 10, 9, 6, 10, 7],
        143 => seq![7, 6, 10, 7, 10, 8, 8, 10, 9],
        144 => seq![6, 8, 4, 11, 8, 6],
        145 => seq![3, 6, 11, 3, 0, 6, 0, 4, 6],
        146 => seq![8, 6, 11, 8, 4, 6, 9, 0, 1],
        147 => seq![9, 4, 6, 9, 6, 3, 9, 3, 1, 11, 3, 6],
        148 => seq![6, 8, 4, 6, 11, 8, 2, 10, 1],
        149 => seq![1, 2, 10, 3, 0, 11, 0, 6, 11, 0, 4, 6],
        150 => seq![4, 11, 8, 4, 6, 11, 0, 2, 9, 2, 10, 9],
        151 => seq![10, 9, 3, 10, 3, 2, 9, 4, 3, 11, 3, 6, 4, 6, 3],
        152 => seq![8, 2, 3, 8, 4, 2, 4, 6, 2],
        153 => seq![0, 4, 2, 4, 6, 2],
        154 => seq![1, 9, 0, 2, 3, 4, 2, 4, 6, 4, 3, 8],
        155 => seq![1, 9, 4, 1, 4, 2, 2, 4, 6],
        156 => seq![8, 1, 3, 8, 6, 1, 8, 4, 6, 6, 10, 1],
        157 => seq![10, 1, 0, 10, 0, 6, 6, 0, 4],
        158 => seq![4, 6, 3, 4, 3, 8, 6, 10, 3, 0, 3, 9, 10, 9, 3],
        159 => seq![10, 9, 4, 6, 10, 4],
        160 => seq![4, 9, 5, 7, 6, 11],
        161 => seq![0, 8, 3, 4, 9, 5, 11, 7, 6],
        162 => seq![5, 0, 1, 5, 4, 0, 7, 6, 11],
        163 => seq![11, 7, 6, 8, 3, 4, 3, 5, 4, 3, 1, 5],
        164 => seq![9, 5, 4, 10, 1, 2, 7, 6, 11],
        165 => seq![6, 11, 7, 1, 2, 10, 0, 8, 3, 4, 9, 5],
        166 => seq![7, 6, 11, 5, 4, 10, 4, 2, 10, 4, 0, 2],
        167 => seq![3, 4, 8, 3, 5, 4, 3, 2, 5, 10, 5, 2, 11, 7, 6],
        168 => seq![7, 2, 3, 7, 6, 2, 5, 4, 9],
        169 => seq![9, 5, 4, 0, 8, 6, 0, 6, 2, 6, 8, 7],
        170 => seq![3, 6, 2, 3, 7, 6, 1, 5, 0, 5, 4, 0],
        171 => seq![6, 2, 8, 6, 8, 7, 2, 1, 8, 4, 8, 5, 1, 5, 8],
        172 => seq![9, 5, 4, 10, 1, 6, 1, 7, 6, 1, 3, 7],
        173 => seq![1, 6, 10, 1, 7, 6, 1, 0, 7, 8, 7, 0, 9, 5, 4],
        174 => seq![4, 0, 10, 4, 10, 5, 0, 3, 10, 6, 10, 7, 3, 7, 10],
        175 => seq![7, 6, 10, 7, 10, 8, 5, 4, 10, 4, 8, 10],
        176 => seq![6, 9, 5, 6, 11, 9, 11, 8, 9],
        177 => seq![3, 6, 11, 0, 6, 3, 0, 5, 6, 0, 9, 5],
        178 => seq![0, 11, 8, 0, 5, 11, 0, 1, 5, 5, 6, 11],
        179 => seq![6, 11, 3, 6, 3, 5, 5, 3, 1],
        180 => seq![1, 2, 10, 9, 5, 11, 9, 11, 8, 11, 5, 6],
        181 => seq![0, 11, 3, 0, 6, 11, 0, 9, 6, 5, 6, 9, 1, 2, 10],
        182 => seq![11, 8, 5, 11, 5, 6, 8, 0, 5, 10, 5, 2, 0, 2, 5],
        183 => seq![6, 11, 3, 6, 3, 5, 2, 10, 3, 10, 5, 3],
        184 => seq![5, 8, 9, 5, 2, 8, 5, 6, 2, 3, 8, 2],
        185 => seq![9, 5, 6, 9, 6, 0, 0, 6, 2],
        186 => seq![1, 5, 8, 1, 8, 0, 5, 6, 8, 3, 8, 2, 6, 2, 8],
        187 => seq![1, 5, 6, 2, 1, 6],
        188 => seq![1, 3, 6, 1, 6, 10, 3, 8, 6, 5, 6, 9, 8, 9, 6],
        189 => seq![10, 1, 0, 10, 0, 6, 9, 5, 0, 5, 6, 0],
        190 => seq![0, 3, 8, 5, 6, 10],
        191 => seq![10, 5, 6],
        192 => seq![11, 5, 10, 7, 5, 11],
        193 => seq![11, 5, 10, 11, 7, 5, 8, 3, 0],
        194 => seq![5, 11, 7, 5, 10, 11, 1, 9, 0],
        195 => seq![10, 7, 5, 10, 11, 7, 9, 8, 1, 8, 3, 1],
        196 => seq![11, 1, 2, 11, 7, 1, 7, 5, 1],
        197 => seq![0, 8, 3, 1, 2, 7, 1, 7, 5, 7, 2, 11],
        198 => seq![9, 7, 5, 9, 2, 7, 9, 0, 2, 2, 11, 7],
        199 => seq![7, 5, 2, 7, 2, 11, 5, 9, 2, 3, 2, 8, 9, 8, 2],
        200 => seq![2, 5, 10, 2, 3, 5, 3, 7, 5],
        201 => seq![8, 2, 0, 8, 5, 2, 8, 7, 5, 10, 2, 5],
        202 => seq![9, 0, 1, 5, 10, 3, 5, 3, 7, 3, 10, 2],
        203 => seq![9, 8, 2, 9, 2, 1, 8, 7, 2, 10, 2, 5, 7, 5, 2],
        204 => seq![1, 3, 5, 3, 7, 5],
        205 => seq![0, 8, 7, 0, 7, 1, 1, 7, 5],
        206 => seq![9, 0, 3, 9, 3, 5, 5, 3, 7],
        207 => seq![9, 8, 7, 5, 9, 7],
        208 => seq![5, 8, 4, 5, 10, 8, 10, 11, 8],
        209 => seq![5, 0, 4, 5, 11, 0, 5, 10, 11, 11, 3, 0],
        210 => seq![0, 1, 9, 8, 4, 10, 8, 10, 11, 10, 4, 5],
        211 => seq![10, 11, 4, 10, 4, 5, 11, 3, 4, 9, 4, 1, 3, 1, 4],
        212 => seq![2, 5, 1, 2, 8, 5, 2, 11, 8, 4, 5, 8],
        213 => seq![0, 4, 11, 0, 11, 3, 4, 5, 11, 2, 11, 1, 5, 1, 11],
        214 => seq![0, 2, 5, 0, 5, 9, 2, 11, 5, 4, 5, 8, 11, 8, 5],
        215 => seq![9, 4, 5, 2, 11, 3],
        216 => seq![2, 5, 10, 3, 5, 2, 3, 4, 5, 3, 8, 4],
        217 => seq![5, 10, 2, 5, 2, 4, 4, 2, 0],
        218 => seq![3, 10, 2, 3, 5, 10, 3, 8, 5, 4, 5, 8, 0, 1, 9],
        219 => seq![5, 10, 2, 5, 2, 4, 1, 9, 2, 9, 4, 2],
        220 => seq![8, 4, 5, 8, 5, 3, 3, 5, 1],
        221 => seq![0, 4, 5, 1, 0, 5],
        222 => seq![8, 4, 5, 8, 5, 3, 9, 0, 5, 0, 3, 5],
        223 => seq![9, 4, 5],
        224 => seq![4, 11, 7, 4, 9, 11, 9, 10, 11],
        225 => seq![0, 8, 3, 4, 9, 7, 9, 11, 7, 9, 10, 11],
        226 => seq![1, 10, 11, 1, 11, 4, 1, 4, 0, 7, 4, 11],
        227 => seq![3, 1, 4, 3, 4, 8, 1, 10, 4, 7, 4, 11, 10, 11, 4],
        228 => seq![4, 11, 7, 9, 11, 4, 9, 2, 11, 9, 1, 2],
        229 => seq![9, 7, 4, 9, 11, 7, 9, 1, 11, 2, 11, 1, 0, 8, 3],
        230 => seq![11, 7, 4, 11, 4, 2, 2, 4, 0],
        231 => seq![11, 7, 4, 11, 4, 2, 8, 3, 4, 3, 2, 4],
        232 => seq![2, 9, 10, 2, 7, 9, 2, 3, 7, 7, 4, 9],
        233 => seq![9, 10, 7, 9, 7, 4, 10, 2, 7, 8, 7, 0, 2, 0, 7],
        234 => seq![3, 7, 10, 3, 10, 2, 7, 4, 10, 1, 10, 0, 4, 0, 10],
        235 => seq![1, 10, 2, 8, 7, 4],
        236 => seq![4, 9, 1, 4, 1, 7, 7, 1, 3],
        237 => seq![4, 9, 1, 4, 1, 7, 0, 8, 1, 8, 7, 1],
        238 => seq![4, 0, 3, 7, 4, 3],
        239 => seq![4, 8, 7],
        240 => seq![9, 10, 8, 10, 11, 8],
        241 => seq![3, 0, 9, 3, 9, 11, 11, 9, 10],
        242 => seq![0, 1, 10, 0, 10, 8, 8, 10, 11],
        243 => seq![3, 1, 10, 11, 3, 10],
        244 => seq![1, 2, 11, 1, 11, 9, 9, 11, 8],
        245 => seq![3, 0, 9, 3, 9, 11, 1, 2, 9, 2, 11, 9],
        246 => seq![0, 2, 11, 8, 0, 11],
        247 => seq![3, 2, 11],
        248 => seq![2, 3, 8, 2, 8, 10, 10, 8, 9],
        249 => seq![9, 10, 2, 0, 9, 2],
        250 => seq![2, 3, 8, 2, 8, 10, 0, 1, 8, 1, 10, 8],
        251 => seq![1, 10, 2],
        252 => seq![1, 3, 8, 9, 1, 8],
        253 => seq![0, 9, 1],
        254 => seq![0, 3, 8],
        255 => seq![],
    }
}

/// Executable form of [`triangulation_table`].
pub fn triangulation_lookup(index: u8) -> (edges: &'static [u8])
    ensures
        edges@ == triangulation_table(index),
{
    proof {
        reveal(triangulation_table);
    }
    match index {
        0 => &[],
        1 => &[0, 8, 3],
        2 => &[0, 1, 9],
        3 => &[1, 8, 3, 9, 8, 1],
        4 => &[1, 2, 10],
        5 => &[0, 8, 3, 1, 2, 10],
        6 => &[9, 2, 10, 0, 2, 9],
        7 => &[2, 8, 3, 2, 10, 8, 10, 9, 8],
        8 => &[3, 11, 2],
        9 => &[0, 11, 2, 8, 11, 0],
        10 => &[1, 9, 0, 2, 3, 11],
        11 => &[1, 11, 2, 1, 9, 11, 9, 8, 11],
        12 => &[3, 10, 1, 11, 10, 3],
        13 => &[0, 10, 1, 0, 8, 10, 8, 11, 10],
        14 => &[3, 9, 0, 3, 11, 9, 11, 10, 9],
        15 => &[9, 8, 10, 10, 8, 11],
        16 => &[4, 7, 8],
        17 => &[4, 3, 0, 7, 3, 4],
        18 => &[0, 1, 9, 8, 4, 7],
        19 => &[4, 1, 9, 4, 7, 1, 7, 3, 1],
        20 => &[1, 2, 10, 8, 4, 7],
        21 => &[3, 4, 7, 3, 0, 4, 1, 2, 10],
        22 => &[9, 2, 10, 9, 0, 2, 8, 4, 7],
        23 => &[2, 10, 9, 2, 9, 7, 2, 7, 3, 7, 9, 4],
        24 => &[8, 4, 7, 3, 11, 2],
        25 => &[11, 4, 7, 11, 2, 4, 2, 0, 4],
        26 => &[9, 0, 1, 8, 4, 7, 2, 3, 11],
        27 => &[4, 7, 11, 9, 4, 11, 9, 11, 2, 9, 2, 1],
        28 => &[3, 10, 1, 3, 11, 10, 7, 8, 4],
        29 => &[1, 11, 10, 1, 4, 11, 1, 0, 4, 7, 11, 4],
        30 => &[4, 7, 8, 9, 0, 11, 9, 11, 10, 11, 0, 3],
        31 => &[4, 7, 11, 4, 11, 9, 9, 11, 10],
        32 => &[9, 5, 4],
        33 => &[9, 5, 4, 0, 8, 3],
        34 => &[0, 5, 4, 1, 5, 0],
        35 => &[8, 5, 4, 8, 3, 5, 3, 1, 5],
        36 => &[1, 2, 10, 9, 5, 4],
        37 => &[3, 0, 8, 1, 2, 10, 4, 9, 5],
        38 => &[5, 2, 10, 5, 4, 2, 4, 0, 2],
        39 => &[2, 10, 5, 3, 2, 5, 3, 5, 4, 3, 4, 8],
        40 => &[9, 5, 4, 2, 3, 11],
        41 => &[0, 11, 2, 0, 8, 11, 4, 9, 5],
        42 => &[0, 5, 4, 0, 1, 5, 2, 3, 11],
        43 => &[2, 1, 5, 2, 5, 8, 2, 8, 11, 4, 8, 5],
        44 => &[10, 3, 11, 10, 1, 3, 9, 5, 4],
        45 => &[4, 9, 5, 0, 8, 1, 8, 10, 1, 8, 11, 10],
        46 => &[5, 4, 0, 5, 0, 11, 5, 11, 10, 11, 0, 3],
        47 => &[5, 4, 8, 5, 8, 10, 10, 8, 11],
        48 => &[9, 7, 8, 5, 7, 9],
        49 => &[9, 3, 0, 9, 5, 3, 5, 7, 3],
        50 => &[0, 7, 8, 0, 1, 7, 1, 5, 7],
        51 => &[1, 5, 3, 3, 5, 7],
        52 => &[9, 7, 8, 9, 5, 7, 10, 1, 2],
        53 => &[10, 1, 2, 9, 5, 0, 5, 3, 0, 5, 7, 3],
        54 => &[8, 0, 2, 8, 2, 5, 8, 5, 7, 10, 5, 2],
        55 => &[2, 10, 5, 2, 5, 3, 3, 5, 7],
        56 => &[7, 9, 5, 7, 8, 9, 3, 11, 2],
        57 => &[9, 5, 7, 9, 7, 2, 9, 2, 0, 2, 7, 11],
        58 => &[2, 3, 11, 0, 1, 8, 1, 7, 8, 1, 5, 7],
        59 => &[11, 2, 1, 11, 1, 7, 7, 1, 5],
        60 => &[9, 5, 8, 8, 5, 7, 10, 1, 3, 10, 3, 11],
        61 => &[5, 7, 0, 5, 0, 9, 7, 11, 0, 1, 0, 10, 11, 10, 0],
        62 => &[11, 10, 0, 11, 0, 3, 10, 5, 0, 8, 0, 7, 5, 7, 0],
        63 => &[11, 10, 5, 7, 11, 5],
        64 => &[10, 6, 5],
        65 => &[0, 8, 3, 5, 10, 6],
        66 => &[9, 0, 1, 5, 10, 6],
        67 => &[1, 8, 3, 1, 9, 8, 5, 10, 6],
        68 => &[1, 6, 5, 2, 6, 1],
        69 => &[1, 6, 5, 1, 2, 6, 3, 0, 8],
        70 => &[9, 6, 5, 9, 0, 6, 0, 2, 6],
        71 => &[5, 9, 8, 5, 8, 2, 5, 2, 6, 3, 2, 8],
        72 => &[2, 3, 11, 10, 6, 5],
        73 => &[11, 0, 8, 11, 2, 0, 10, 6, 5],
        74 => &[0, 1, 9, 2, 3, 11, 5, 10, 6],
        75 => &[5, 10, 6, 1, 9, 2, 9, 11, 2, 9, 8, 11],
        76 => &[6, 3, 11, 6, 5, 3, 5, 1, 3],
        77 => &[0, 8, 11, 0, 11, 5, 0, 5, 1, 5, 11, 6],
        78 => &[3, 11, 6, 0, 3, 6, 0, 6, 5, 0, 5, 9],
        79 => &[6, 5, 9, 6, 9, 11, 11, 9, 8],
        80 => &[5, 10, 6, 4, 7, 8],
        81 => &[4, 3, 0, 4, 7, 3, 6, 5, 10],
        82 => &[1, 9, 0, 5, 10, 6, 8, 4, 7],
        83 => &[10, 6, 5, 1, 9, 7, 1, 7, 3, 7, 9, 4],
        84 => &[6, 1, 2, 6, 5, 1, 4, 7, 8],
        85 => &[1, 2, 5, 5, 2, 6, 3, 0, 4, 3, 4, 7],
        86 => &[8, 4, 7, 9, 0, 5, 0, 6, 5, 0, 2, 6],
        87 => &[7, 3, 9, 7, 9, 4, 3, 2, 9, 5, 9, 6, 2, 6, 9],
        88 => &[3, 11, 2, 7, 8, 4, 10, 6, 5],
        89 => &[5, 10, 6, 4, 7, 2, 4, 2, 0, 2, 7, 11],
        90 => &[0, 1, 9, 4, 7, 8, 2, 3, 11, 5, 10, 6],
        91 => &[9, 2, 1, 9, 11, 2, 9, 4, 11, 7, 11, 4, 5, 10, 6],
        92 => &[8, 4, 7, 3, 11, 5, 3, 5, 1, 5, 11, 6],
        93 => &[5, 1, 11, 5, 11, 6, 1, 0, 11, 7, 11, 4, 0, 4, 11],
        94 => &[0, 5, 9, 0, 6, 5, 0, 3, 6, 11, 6, 3, 8, 4, 7],
        95 => &[6, 5, 9, 6, 9, 11, 4, 7, 9, 7, 11, 9],
        96 => &[10, 4, 9, 6, 4, 10],
        97 => &[4, 10, 6, 4, 9, 10, 0, 8, 3],
        98 => &[10, 0, 1, 10, 6, 0, 6, 4, 0],
        99 => &[8, 3, 1, 8, 1, 6, 8, 6, 4, 6, 1, 10],
        100 => &[1, 4, 9, 1, 2, 4, 2, 6, 4],
        101 => &[3, 0, 8, 1, 2, 9, 2, 4, 9, 2, 6, 4],
        102 => &[0, 2, 4, 4, 2, 6],
        103 => &[8, 3, 2, 8, 2, 4, 4, 2, 6],
        104 => &[10, 4, 9, 10, 6, 4, 11, 2, 3],
        105 => &[0, 8, 2, 2, 8, 11, 4, 9, 10, 4, 10, 6],
        106 => &[3, 11, 2, 0, 1, 6, 0, 6, 4, 6, 1, 10],
        107 => &[6, 4, 1, 6, 1, 10, 4, 8, 1, 2, 1, 11, 8, 11, 1],
        108 => &[9, 6, 4, 9, 3, 6, 9, 1, 3, 11, 6, 3],
        109 => &[8, 11, 1, 8, 1, 0, 11, 6, 1, 9, 1, 4, 6, 4, 1],
        110 => &[3, 11, 6, 3, 6, 0, 0, 6, 4],
        111 => &[6, 4, 8, 11, 6, 8],
        112 => &[7, 10, 6, 7, 8, 10, 8, 9, 10],
        113 => &[0, 7, 3, 0, 10, 7, 0, 9, 10, 6, 7, 10],
        114 => &[10, 6, 7, 1, 10, 7, 1, 7, 8, 1, 8, 0],
        115 => &[10, 6, 7, 10, 7, 1, 1, 7, 3],
        116 => &[1, 2, 6, 1, 6, 8, 1, 8, 9, 8, 6, 7],
        117 => &[2, 6, 9, 2, 9, 1, 6, 7, 9, 0, 9, 3, 7, 3, 9],
        118 => &[7, 8, 0, 7, 0, 6, 6, 0, 2],
        119 => &[7, 3, 2, 6, 7, 2],
        120 => &[2, 3, 11, 10, 6, 8, 10, 8, 9, 8, 6, 7],
        121 => &[2, 0, 7, 2, 7, 11, 0, 9, 7, 6, 7, 10, 9, 10, 7],
        122 => &[1, 8, 0, 1, 7, 8, 1, 10, 7, 6, 7, 10, 2, 3, 11],
        123 => &[11, 2, 1, 11, 1, 7, 10, 6, 1, 6, 7, 1],
        124 => &[8, 9, 6, 8, 6, 7, 9, 1, 6, 11, 6, 3, 1, 3, 6],
        125 => &[0, 9, 1, 11, 6, 7],
        126 => &[7, 8, 0, 7, 0, 6, 3, 11, 0, 11, 6, 0],
        127 => &[7, 11, 6],
        128 => &[7, 6, 11],
        129 => &[3, 0, 8, 11, 7, 6],
        130 => &[0, 1, 9, 11, 7, 6],
        131 => &[8, 1, 9, 8, 3, 1, 11, 7, 6],
        132 => &[10, 1, 2, 6, 11, 7],
        133 => &[1, 2, 10, 3, 0, 8, 6, 11, 7],
        134 => &[2, 9, 0, 2, 10, 9, 6, 11, 7],
        135 => &[6, 11, 7, 2, 10, 3, 10, 8, 3, 10, 9, 8],
        136 => &[7, 2, 3, 6, 2, 7],
        137 => &[7, 0, 8, 7, 6, 0, 6, 2, 0],
        138 => &[2, 7, 6, 2, 3, 7, 0, 1, 9],
        139 => &[1, 6, 2, 1, 8, 6, 1, 9, 8, 8, 7, 6],
        140 => &[10, 7, 6, 10, 1, 7, 1, 3, 7],
        141 => &[10, 7, 6, 1, 7, 10, 1, 8, 7, 1, 0, 8],
        142 => &[0, 3, 7, 0, 7, 10, 0, 10, 9, 6, 10, 7],
        143 => &[7, 6, 10, 7, 10, 8, 8, 10, 9],
        144 => &[6, 8, 4, 11, 8, 6],
        145 => &[3, 6, 11, 3, 0, 6, 0, 4, 6],
        146 => &[8, 6, 11, 8, 4, 6, 9, 0, 1],
        147 => &[9, 4, 6, 9, 6, 3, 9, 3, 1, 11, 3, 6],
        148 => &[6, 8, 4, 6, 11, 8, 2, 10, 1],
        149 => &[1, 2, 10, 3, 0, 11, 0, 6, 11, 0, 4, 6],
        150 => &[4, 11, 8, 4, 6, 11, 0, 2, 9, 2, 10, 9],
        151 => &[10, 9, 3, 10, 3, 2, 9, 4, 3, 11, 3, 6, 4, 6, 3],
        152 => &[8, 2, 3, 8, 4, 2, 4, 6, 2],
        153 => &[0, 4, 2, 4, 6, 2],
        154 => &[1, 9, 0, 2, 3, 4, 2, 4, 6, 4, 3, 8],
        155 => &[1, 9, 4, 1, 4, 2, 2, 4, 6],
        156 => &[8, 1, 3, 8, 6, 1, 8, 4, 6, 6, 10, 1],
        157 => &[10, 1, 0, 10, 0, 6, 6, 0, 4],
        158 => &[4, 6, 3, 4, 3, 8, 6, 10, 3, 0, 3, 9, 10, 9, 3],
        159 => &[10, 9, 4, 6, 10, 4],
        160 => &[4, 9, 5, 7, 6, 11],
        161 => &[0, 8, 3, 4, 9, 5, 11, 7, 6],
        162 => &[5, 0, 1, 5, 4, 0, 7, 6, 11],
        163 => &[11, 7, 6, 8, 3, 4, 3, 5, 4, 3, 1, 5],
        164 => &[9, 5, 4, 10, 1, 2, 7, 6, 11],
        165 => &[6, 11, 7, 1, 2, 10, 0, 8, 3, 4, 9, 5],
        166 => &[7, 6, 11, 5, 4, 10, 4, 2, 10, 4, 0, 2],
        167 => &[3, 4, 8, 3, 5, 4, 3, 2, 5, 10, 5, 2, 11, 7, 6],
        168 => &[7, 2, 3, 7, 6, 2, 5, 4, 9],
        169 => &[9, 5, 4, 0, 8, 6, 0, 6, 2, 6, 8, 7],
        170 => &[3, 6, 2, 3, 7, 6, 1, 5, 0, 5, 4, 0],
        171 => &[6, 2, 8, 6, 8, 7, 2, 1, 8, 4, 8, 5, 1, 5, 8],
        172 => &[9, 5, 4, 10, 1, 6, 1, 7, 6, 1, 3, 7],
        173 => &[1, 6, 10, 1, 7, 6, 1, 0, 7, 8, 7, 0, 9, 5, 4],
        174 => &[4, 0, 10, 4, 10, 5, 0, 3, 10, 6, 10, 7, 3, 7, 10],
        175 => &[7, 6, 10, 7, 10, 8, 5, 4, 10, 4, 8, 10],
        176 => &[6, 9, 5, 6, 11, 9, 11, 8, 9],
        177 => &[3, 6, 11, 0, 6, 3, 0, 5, 6, 0, 9, 5],
        178 => &[0, 11, 8, 0, 5, 11, 0, 1, 5, 5, 6, 11],
        179 => &[6, 11, 3, 6, 3, 5, 5, 3, 1],
        180 => &[1, 2, 10, 9, 5, 11, 9, 11, 8, 11, 5, 6],
        181 => &[0, 11, 3, 0, 6, 11, 0, 9, 6, 5, 6, 9, 1, 2, 10],
        182 => &[11, 8, 5, 11, 5, 6, 8, 0, 5, 10, 5, 2, 0, 2, 5],
        183 => &[6, 11, 3, 6, 3, 5, 2, 10, 3, 10, 5, 3],
        184 => &[5, 8, 9, 5, 2, 8, 5, 6, 2, 3, 8, 2],
        185 => &[9, 5, 6, 9, 6, 0, 0, 6, 2],
        186 => &[1, 5, 8, 1, 8, 0, 5, 6, 8, 3, 8, 2, 6, 2, 8],
        187 => &[1, 5, 6, 2, 1, 6],
        188 => &[1, 3, 6, 1, 6, 10, 3, 8, 6, 5, 6, 9, 8, 9, 6],
        189 => &[10, 1, 0, 10, 0, 6, 9, 5, 0, 5, 6, 0],
        190 => &[0, 3, 8, 5, 6, 10],
        191 => &[10, 5, 6],
        192 => &[11, 5, 10, 7, 5, 11],
        193 => &[11, 5, 10, 11, 7, 5, 8, 3, 0],
        194 => &[5, 11, 7, 5, 10, 11, 1, 9, 0],
        195 => &[10, 7, 5, 10, 11, 7, 9, 8, 1, 8, 3, 1],
        196 => &[11, 1, 2, 11, 7, 1, 7, 5, 1],
        197 => &[0, 8, 3, 1, 2, 7, 1, 7, 5, 7, 2, 11],
        198 => &[9, 7, 5, 9, 2, 7, 9, 0, 2, 2, 11, 7],
        199 => &[7, 5, 2, 7, 2, 11, 5, 9, 2, 3, 2, 8, 9, 8, 2],
        200 => &[2, 5, 10, 2, 3, 5, 3, 7, 5],
        201 => &[8, 2, 0, 8, 5, 2, 8, 7, 5, 10, 2, 5],
        202 => &[9, 0, 1, 5, 10, 3, 5, 3, 7, 3, 10, 2],
        203 => &[9, 8, 2, 9, 2, 1, 8, 7, 2, 10, 2, 5, 7, 5, 2],
        204 => &[1, 3, 5, 3, 7, 5],
        205 => &[0, 8, 7, 0, 7, 1, 1, 7, 5],
        206 => &[9, 0, 3, 9, 3, 5, 5, 3, 7],
        207 => &[9, 8, 7, 5, 9, 7],
        208 => &[5, 8, 4, 5, 10, 8, 10, 11, 8],
        209 => &[5, 0, 4, 5, 11, 0, 5, 10, 11, 11, 3, 0],
        210 => &[0, 1, 9, 8, 4, 10, 8, 10, 11, 10, 4, 5],
        211 => &[10, 11, 4, 10, 4, 5, 11, 3, 4, 9, 4, 1, 3, 1, 4],
        212 => &[2, 5, 1, 2, 8, 5, 2, 11, 8, 4, 5, 8],
        213 => &[0, 4, 11, 0, 11, 3, 4, 5, 11, 2, 11, 1, 5, 1, 11],
        214 => &[0, 2, 5, 0, 5, 9, 2, 11, 5, 4, 5, 8, 11, 8, 5],
        215 => &[9, 4, 5, 2, 11, 3],
        216 => &[2, 5, 10, 3, 5, 2, 3, 4, 5, 3, 8, 4],
        217 => &[5, 10, 2, 5, 2, 4, 4, 2, 0],
        218 => &[3, 10, 2, 3, 5, 10, 3, 8, 5, 4, 5, 8, 0, 1, 9],
        219 => &[5, 10, 2, 5, 2, 4, 1, 9, 2, 9, 4, 2],
        220 => &[8, 4, 5, 8, 5, 3, 3, 5, 1],
        221 => &[0, 4, 5, 1, 0, 5],
        222 => &[8, 4, 5, 8, 5, 3, 9, 0, 5, 0, 3, 5],
        223 => &[9, 4, 5],
        224 => &[4, 11, 7, 4, 9, 11, 9, 10, 11],
        225 => &[0, 8, 3, 4, 9, 7, 9, 11, 7, 9, 10, 11],
        226 => &[1, 10, 11, 1, 11, 4, 1, 4, 0, 7, 4, 11],
        227 => &[3, 1, 4, 3, 4, 8, 1, 10, 4, 7, 4, 11, 10, 11, 4],
        228 => &[4, 11, 7, 9, 11, 4, 9, 2, 11, 9, 1, 2],
        229 => &[9, 7, 4, 9, 11, 7, 9, 1, 11, 2, 11, 1, 0, 8, 3],
        230 => &[11, 7, 4, 11, 4, 2, 2, 4, 0],
        231 => &[11, 7, 4, 11, 4, 2, 8, 3, 4, 3, 2, 4],
        232 => &[2, 9, 10, 2, 7, 9, 2, 3, 7, 7, 4, 9],
        233 => &[9, 10, 7, 9, 7, 4, 10, 2, 7, 8, 7, 0, 2, 0, 7],
        234 => &[3, 7, 10, 3, 10, 2, 7, 4, 10, 1, 10, 0, 4, 0, 10],
        235 => &[1, 10, 2, 8, 7, 4],
        236 => &[4, 9, 1, 4, 1, 7, 7, 1, 3],
        237 => &[4, 9, 1, 4, 1, 7, 0, 8, 1, 8, 7, 1],
        238 => &[4, 0, 3, 7, 4, 3],
        239 => &[4, 8, 7],
        240 => &[9, 10, 8, 10, 11, 8],
        241 => &[3, 0, 9, 3, 9, 11, 11, 9, 10],
        242 => &[0, 1, 10, 0, 10, 8, 8, 10, 11],
        243 => &[3, 1, 10, 11, 3, 10],
        244 => &[1, 2, 11, 1, 11, 9, 9, 11, 8],
        245 => &[3, 0, 9, 3, 9, 11, 1, 2, 9, 2, 11, 9],
        246 => &[0, 2, 11, 8, 0, 11],
        247 => &[3, 2, 11],
        248 => &[2, 3, 8, 2, 8, 10, 10, 8, 9],
        249 => &[9, 10, 2, 0, 9, 2],
        250 => &[2, 3, 8, 2, 8, 10, 0, 1, 8, 1, 10, 8],
        251 => &[1, 10, 2],
        252 => &[1, 3, 8, 9, 1, 8],
        253 => &[0, 9, 1],
        254 => &[0, 3, 8],
        255 => &[],
    }
}

/// Edge `edge` is marked in the edge table for `index` exactly when one of its corners
/// lies below the iso level and the other does not.
#[verifier::inline]
pub open spec fn edge_law_at(index: u8, edge: u8) -> bool {
    edge_crossed(edge_table(index), edge) == (corner_set(index, edge_corner_pair(edge).0)
        != corner_set(index, edge_corner_pair(edge).1))
}

#[verifier::inline]
spec fn edge_law(index: u8) -> bool {
    &&& edge_law_at(index, 0)
    &&& edge_law_at(index, 1)
    &&& edge_law_at(index, 2)
    &&& edge_law_at(index, 3)
    &&& edge_law_at(index, 4)
    &&& edge_law_at(index, 5)
    &&& edge_law_at(index, 6)
    &&& edge_law_at(index, 7)
    &&& edge_law_at(index, 8)
    &&& edge_law_at(index, 9)
    &&& edge_law_at(index, 10)
    &&& edge_law_at(index, 11)
}

/// The triangle list for `index` is whole triangles, at most five of them, empty exactly
/// when no edge is crossed, and uses only edges that the edge table marks.
pub open spec fn triangulation_law(index: u8) -> bool {
    let t = triangulation_table(index);
    &&& t.len() % 3 == 0
    &&& t.len() <= 15
    &&& (t.len() == 0 <==> edge_table(index) == 0)
    &&& forall|j: int| 0 <= j < t.len() ==> #[trigger] t[j] < 12 && edge_crossed(edge_table(index), t[j])
}

/// Both tables are checked entry by entry, in blocks of sixteen configurations.
#[verifier::inline]
spec fn table_laws(index: u8) -> bool {
    &&& edge_law(index)
    &&& triangulation_law(index)
    &&& edge_table(index) == edge_table((255 - index) as u8)
}

proof fn lemma_table_block_0(index: u8)
    requires
        0 <= index < 16,
    ensures
        table_laws(index),
{
    reveal(edge_table);
    reveal(triangulation_table);
    reveal(edge_crossed);
    reveal(corner_set);
    if index == 0 {
        assert(table_laws(0));
    } else if index == 1 {
        assert(table_laws(1));
    } else if index == 2 {
        assert(table_laws(2));
    } else if index == 3 {
        assert(table_laws(3));
    } else if index == 4 {
        assert(table_laws(4));
    } else if index == 5 {
        assert(table_laws(5));
    } else if index == 6 {
        assert(table_laws(6));
    } else if index == 7 {
        assert(table_laws(7));
    } else if index == 8 {
        assert(table_laws(8));
    } else if index == 9 {
        assert(table_laws(9));
    } else if index == 10 {
        assert(table_laws(10));
    } else if index == 11 {
        assert(table_laws(11));
    } else if index == 12 {
        assert(table_laws(12));
    } else if index == 13 {
        assert(table_laws(13));
    } else if index == 14 {
        assert(table_laws(14));
    } else {
        assert(table_laws(15));
    }
}

proof fn lemma_table_block_1(index: u8)
    requires
        16 <= index < 32,
    ensures
        table_laws(index),
{
    reveal(edge_table);
    reveal(triangulation_table);
    reveal(edge_crossed);
    reveal(corner_set);
    if index == 16 {
        assert(table_laws(16));
    } else if index == 17 {
        assert(table_laws(17));
    } else if index == 18 {
        assert(table_laws(18));
    } else if index == 19 {
        assert(table_laws(19));
    } else if index == 20 {
        assert(table_laws(20));
    } else if index == 21 {
        assert(table_laws(21));
    } else if index == 22 {
        assert(table_laws(22));
    } else if index == 23 {
        assert(table_laws(23));
    } else if index == 24 {
        assert(table_laws(24));
    } else if index == 25 {
        assert(table_laws(25));
    } else if index == 26 {
        assert(table_laws(26));
    } else if index == 27 {
        assert(table_laws(27));
    } else if index == 28 {
        assert(table_laws(28));
    } else if index == 29 {
        assert(table_laws(29));
    } else if index == 30 {
        assert(table_laws(30));
    } else {
        assert(table_laws(31));
    }
}

proof fn lemma_table_block_2(index: u8)
    requires
        32 <= index < 48,
    ensures
        table_laws(index),
{
    reveal(edge_table);
    reveal(triangulation_table);
    reveal(edge_crossed);
    reveal(corner_set);
    if index == 32 {
        assert(table_laws(32));
    } else if index == 33 {
        assert(table_laws(33));
    } else if index == 34 {
        assert(table_laws(34));
    } else if index == 35 {
        assert(table_laws(35));
    } else if index == 36 {
        assert(table_laws(36));
    } else if index == 37 {
        assert(table_laws(37));
    } else if index == 38 {
        assert(table_laws(38));
    } else if index == 39 {
        assert(table_laws(39));
    } else if index == 40 {
        assert(table_laws(40));
    } else if index == 41 {
        assert(table_laws(41));
    } else if index == 42 {
        assert(table_laws(42));
    } else if index == 43 {
        assert(table_laws(43));
    } else if index == 44 {
        assert(table_laws(44));
    } else if index == 45 {
        assert(table_laws(45));
    } else if index == 46 {
        assert(table_laws(46));
    } else {
        assert(table_laws(47));
    }
}

proof fn lemma_table_block_3(index: u8)
    requires
        48 <= index < 64,
    ensures
        table_laws(index),
{
    reveal(edge_table);
    reveal(triangulation_table);
    reveal(edge_crossed);
    reveal(corner_set);
    if index == 48 {
        assert(table_laws(48));
    } else if index == 49 {
        assert(table_laws(49));
    } else if index == 50 {
        assert(table_laws(50));
    } else if index == 51 {
        assert(table_laws(51));
    } else if index == 52 {
        assert(table_laws(52));
    } else if index == 53 {
        assert(table_laws(53));
    } else if index == 54 {
        assert(table_laws(54));
    } else if index == 55 {
        assert(table_laws(55));
    } else if index == 56 {
        assert(table_laws(56));
    } else if index == 57 {
        assert(table_laws(57));
    } else if index == 58 {
        assert(table_laws(58));
    } else if index == 59 {
        assert(table_laws(59));
    } else if index == 60 {
        assert(table_laws(60));
    } else if index == 61 {
        assert(table_laws(61));
    } else if index == 62 {
        assert(table_laws(62));
    } else {
        assert(table_laws(63));
    }
}

proof fn lemma_table_block_4(index: u8)
    requires
        64 <= index < 80,
    ensures
        table_laws(index),
{
    reveal(edge_table);
    reveal(triangulation_table);
    reveal(edge_crossed);
    reveal(corner_set);
    if index == 64 {
        assert(table_laws(64));
    } else if index == 65 {
        assert(table_laws(65));
    } else if index == 66 {
        assert(table_laws(66));
    } else if index == 67 {
        assert(table_laws(67));
    } else if index == 68 {
        assert(table_laws(68));
    } else if index == 69 {
        assert(table_laws(69));
    } else if index == 70 {
        assert(table_laws(70));
    } else if index == 71 {
        assert(table_laws(71));
    } else if index == 72 {
        assert(table_laws(72));
    } else if index == 73 {
        assert(table_laws(73));
    } else if index == 74 {
        assert(table_laws(74));
    } else if index == 75 {
        assert(table_laws(75));
    } else if index == 76 {
        assert(table_laws(76));
    } else if index == 77 {
        assert(table_laws(77));
    } else if index == 78 {
        assert(table_laws(78));
    } else {
        assert(table_laws(79));
    }
}

proof fn lemma_table_block_5(index: u8)
    requires
        80 <= index < 96,
    ensures
        table_laws(index),
{
    reveal(edge_table);
    reveal(triangulation_table);
    reveal(edge_crossed);
    reveal(corner_set);
    if index == 80 {
        assert(table_laws(80));
    } else if index == 81 {
        assert(table_laws(81));
    } else if index == 82 {
        assert(table_laws(82));
    } else if index == 83 {
        assert(table_laws(83));
    } else if index == 84 {
        assert(table_laws(84));
    } else if index == 85 {
        assert(table_laws(85));
    } else if index == 86 {
        assert(table_laws(86));
    } else if index == 87 {
        assert(table_laws(87));
    } else if index == 88 {
        assert(table_laws(88));
    } else if index == 89 {
        assert(table_laws(89));
    } else if index == 90 {
        assert(table_laws(90));
    } else if index == 91 {
        assert(table_laws(91));
    } else if index == 92 {
        assert(table_laws(92));
    } else if index == 93 {
        assert(table_laws(93));
    } else if index == 94 {
        assert(table_laws(94));
    } else {
        assert(table_laws(95));
    }
}

proof fn lemma_table_block_6(index: u8)
    requires
        96 <= index < 112,
    ensures
        table_laws(index),
{
    reveal(edge_table);
    reveal(triangulation_table);
    reveal(edge_crossed);
    reveal(corner_set);
    if index == 96 {
        assert(table_laws(96));
    } else if index == 97 {
        assert(table_laws(97));
    } else if index == 98 {
        assert(table_laws(98));
    } else if index == 99 {
        assert(table_laws(99));
    } else if index == 100 {
        assert(table_laws(100));
    } else if index == 101 {
        assert(table_laws(101));
    } else if index == 102 {
        assert(table_laws(102));
    } else if index == 103 {
        assert(table_laws(103));
    } else if index == 104 {
        assert(table_laws(104));
    } else if index == 105 {
        assert(table_laws(105));
    } else if index == 106 {
        assert(table_laws(106));
    } else if index == 107 {
        assert(table_laws(107));
    } else if index == 108 {
        assert(table_laws(108));
    } else if index == 109 {
        assert(table_laws(109));
    } else if index == 110 {
        assert(table_laws(110));
    } else {
        assert(table_laws(111));
    }
}

proof fn lemma_table_block_7(index: u8)
    requires
        112 <= index < 128,
    ensures
        table_laws(index),
{
    reveal(edge_table);
    reveal(triangulation_table);
    reveal(edge_crossed);
    reveal(corner_set);
    if index == 112 {
        assert(table_laws(112));
    } else if index == 113 {
        assert(table_laws(113));
    } else if index == 114 {
        assert(table_laws(114));
    } else if index == 115 {
        assert(table_laws(115));
    } else if index == 116 {
        assert(table_laws(116));
    } else if index == 117 {
        assert(table_laws(117));
    } else if index == 118 {
        assert(table_laws(118));
    } else if index == 119 {
        assert(table_laws(119));
    } else if index == 120 {
        assert(table_laws(120));
    } else if index == 121 {
        assert(table_laws(121));
    } else if index == 122 {
        assert(table_laws(122));
    } else if index == 123 {
        assert(table_laws(123));
    } else if index == 124 {
        assert(table_laws(124));
    } else if index == 125 {
        assert(table_laws(125));
    } else if index == 126 {
        assert(table_laws(126));
    } else {
        assert(table_laws(127));
    }
}

proof fn lemma_table_block_8(index: u8)
    requires
        128 <= index < 144,
    ensures
        table_laws(index),
{
    reveal(edge_table);
    reveal(triangulation_table);
    reveal(edge_crossed);
    reveal(corner_set);
    if index == 128 {
        assert(table_laws(128));
    } else if index == 129 {
        assert(table_laws(129));
    } else if index == 130 {
        assert(table_laws(130));
    } else if index == 131 {
        assert(table_laws(131));
    } else if index == 132 {
        assert(table_laws(132));
    } else if index == 133 {
        assert(table_laws(133));
    } else if index == 134 {
        assert(table_laws(134));
    } else if index == 135 {
        assert(table_laws(135));
    } else if index == 136 {
        assert(table_laws(136));
    } else if index == 137 {
        assert(table_laws(137));
    } else if index == 138 {
        assert(table_laws(138));
    } else if index == 139 {
        assert(table_laws(139));
    } else if index == 140 {
        assert(table_laws(140));
    } else if index == 141 {
        assert(table_laws(141));
    } else if index == 142 {
        assert(table_laws(142));
    } else {
        assert(table_laws(143));
    }
}

proof fn lemma_table_block_9(index: u8)
    requires
        144 <= index < 160,
    ensures
        table_laws(index),
{
    reveal(edge_table);
    reveal(triangulation_table);
    reveal(edge_crossed);
    reveal(corner_set);
    if index == 144 {
        assert(table_laws(144));
    } else if index == 145 {
        assert(table_laws(145));
    } else if index == 146 {
        assert(table_laws(146));
    } else if index == 147 {
        assert(table_laws(147));
    } else if index == 148 {
        assert(table_laws(148));
    } else if index == 149 {
        assert(table_laws(149));
    } else if index == 150 {
        assert(table_laws(150));
    } else if index == 151 {
        assert(table_laws(151));
    } else if index == 152 {
        assert(table_laws(152));
    } else if index == 153 {
        assert(table_laws(153));
    } else if index == 154 {
        assert(table_laws(154));
    } else if index == 155 {
        assert(table_laws(155));
    } else if index == 156 {
        assert(table_laws(156));
    } else if index == 157 {
        assert(table_laws(157));
    } else if index == 158 {
        assert(table_laws(158));
    } else {
        assert(table_laws(159));
    }
}

proof fn lemma_table_block_10(index: u8)
    requires
        160 <= index < 176,
    ensures
        table_laws(index),
{
    reveal(edge_table);
    reveal(triangulation_table);
    reveal(edge_crossed);
    reveal(corner_set);
    if index == 160 {
        assert(table_laws(160));
    } else if index == 161 {
        assert(table_laws(161));
    } else if index == 162 {
        assert(table_laws(162));
    } else if index == 163 {
        assert(table_laws(163));
    } else if index == 164 {
        assert(table_laws(164));
    } else if index == 165 {
        assert(table_laws(165));
    } else if index == 166 {
        assert(table_laws(166));
    } else if index == 167 {
        assert(table_laws(167));
    } else if index == 168 {
        assert(table_laws(168));
    } else if index == 169 {
        assert(table_laws(169));
    } else if index == 170 {
        assert(table_laws(170));
    } else if index == 171 {
        assert(table_laws(171));
    } else if index == 172 {
        assert(table_laws(172));
    } else if index == 173 {
        assert(table_laws(173));
    } else if index == 174 {
        assert(table_laws(174));
    } else {
        assert(table_laws(175));
    }
}

proof fn lemma_table_block_11(index: u8)
    requires
        176 <= index < 192,
    ensures
        table_laws(index),
{
    reveal(edge_table);
    reveal(triangulation_table);
    reveal(edge_crossed);
    reveal(corner_set);
    if index == 176 {
        assert(table_laws(176));
    } else if index == 177 {
        assert(table_laws(177));
    } else if index == 178 {
        assert(table_laws(178));
    } else if index == 179 {
        assert(table_laws(179));
    } else if index == 180 {
        assert(table_laws(180));
    } else if index == 181 {
        assert(table_laws(181));
    } else if index == 182 {
        assert(table_laws(182));
    } else if index == 183 {
        assert(table_laws(183));
    } else if index == 184 {
        assert(table_laws(184));
    } else if index == 185 {
        assert(table_laws(185));
    } else if index == 186 {
        assert(table_laws(186));
    } else if index == 187 {
        assert(table_laws(187));
    } else if index == 188 {
        assert(table_laws(188));
    } else if index == 189 {
        assert(table_laws(189));
    } else if index == 190 {
        assert(table_laws(190));
    } else {
        assert(table_laws(191));
    }
}

proof fn lemma_table_block_12(index: u8)
    requires
        192 <= index < 208,
    ensures
        table_laws(index),
{
    reveal(edge_table);
    reveal(triangulation_table);
    reveal(edge_crossed);
    reveal(corner_set);
    if index == 192 {
        assert(table_laws(192));
    } else if index == 193 {
        assert(table_laws(193));
    } else if index == 194 {
        assert(table_laws(194));
    } else if index == 195 {
        assert(table_laws(195));
    } else if index == 196 {
        assert(table_laws(196));
    } else if index == 197 {
        assert(table_laws(197));
    } else if index == 198 {
        assert(table_laws(198));
    } else if index == 199 {
        assert(table_laws(199));
    } else if index == 200 {
        assert(table_laws(200));
    } else if index == 201 {
        assert(table_laws(201));
    } else if index == 202 {
        assert(table_laws(202));
    } else if index == 203 {
        assert(table_laws(203));
    } else if index == 204 {
        assert(table_laws(204));
    } else if index == 205 {
        assert(table_laws(205));
    } else if index == 206 {
        assert(table_laws(206));
    } else {
        assert(table_laws(207));
    }
}

proof fn lemma_table_block_13(index: u8)
    requires
        208 <= index < 224,
    ensures
        table_laws(index),
{
    reveal(edge_table);
    reveal(triangulation_table);
    reveal(edge_crossed);
    reveal(corner_set);
    if index == 208 {
        assert(table_laws(208));
    } else if index == 209 {
        assert(table_laws(209));
    } else if index == 210 {
        assert(table_laws(210));
    } else if index == 211 {
        assert(table_laws(211));
    } else if index == 212 {
        assert(table_laws(212));
    } else if index == 213 {
        assert(table_laws(213));
    } else if index == 214 {
        assert(table_laws(214));
    } else if index == 215 {
        assert(table_laws(215));
    } else if index == 216 {
        assert(table_laws(216));
    } else if index == 217 {
        assert(table_laws(217));
    } else if index == 218 {
        assert(table_laws(218));
    } else if index == 219 {
        assert(table_laws(219));
    } else if index == 220 {
        assert(table_laws(220));
    } else if index == 221 {
        assert(table_laws(221));
    } else if index == 222 {
        assert(table_laws(222));
    } else {
        assert(table_laws(223));
    }
}

proof fn lemma_table_block_14(index: u8)
    requires
        224 <= index < 240,
    ensures
        table_laws(index),
{
    reveal(edge_table);
    reveal(triangulation_table);
    reveal(edge_crossed);
    reveal(corner_set);
    if index == 224 {
        assert(table_laws(224));
    } else if index == 225 {
        assert(table_laws(225));
    } else if index == 226 {
        assert(table_laws(226));
    } else if index == 227 {
        assert(table_laws(227));
    } else if index == 228 {
        assert(table_laws(228));
    } else if index == 229 {
        assert(table_laws(229));
    } else if index == 230 {
        assert(table_laws(230));
    } else if index == 231 {
        assert(table_laws(231));
    } else if index == 232 {
        assert(table_laws(232));
    } else if index == 233 {
        assert(table_laws(233));
    } else if index == 234 {
        assert(table_laws(234));
    } else if index == 235 {
        assert(table_laws(235));
    } else if index == 236 {
        assert(table_laws(236));
    } else if index == 237 {
        assert(table_laws(237));
    } else if index == 238 {
        assert(table_laws(238));
    } else {
        assert(table_laws(239));
    }
}

proof fn lemma_table_block_15(index: u8)
    requires
        240 <= index < 256,
    ensures
        table_laws(index),
{
    reveal(edge_table);
    reveal(triangulation_table);
    reveal(edge_crossed);
    reveal(corner_set);
    if index == 240 {
        assert(table_laws(240));
    } else if index == 241 {
        assert(table_laws(241));
    } else if index == 242 {
        assert(table_laws(242));
    } else if index == 243 {
        assert(table_laws(243));
    } else if index == 244 {
        assert(table_laws(244));
    } else if index == 245 {
        assert(table_laws(245));
    } else if index == 246 {
        assert(table_laws(246));
    } else if index == 247 {
        assert(table_laws(247));
    } else if index == 248 {
        assert(table_laws(248));
    } else if index == 249 {
        assert(table_laws(249));
    } else if index == 250 {
        assert(table_laws(250));
    } else if index == 251 {
        assert(table_laws(251));
    } else if index == 252 {
        assert(table_laws(252));
    } else if index == 253 {
        assert(table_laws(253));
    } else if index == 254 {
        assert(table_laws(254));
    } else {
        assert(table_laws(255));
    }
}

proof fn lemma_table_laws(index: u8)
    ensures
        table_laws(index),
{
    if index < 16 {
        lemma_table_block_0(index);
    } else if index < 32 {
        lemma_table_block_1(index);
    } else if index < 48 {
        lemma_table_block_2(index);
    } else if index < 64 {
        lemma_table_block_3(index);
    } else if index < 80 {
        lemma_table_block_4(index);
    } else if index < 96 {
        lemma_table_block_5(index);
    } else if index < 112 {
        lemma_table_block_6(index);
    } else if index < 128 {
        lemma_table_block_7(index);
    } else if index < 144 {
        lemma_table_block_8(index);
    } else if index < 160 {
        lemma_table_block_9(index);
    } else if index < 176 {
        lemma_table_block_10(index);
    } else if index < 192 {
        lemma_table_block_11(index);
    } else if index < 208 {
        lemma_table_block_12(index);
    } else if index < 224 {
        lemma_table_block_13(index);
    } else if index < 240 {
        lemma_table_block_14(index);
    } else {
        lemma_table_block_15(index);
    }
}

/// Whether some vertex of the triangle list `t` lies on edge `edge`.
pub open spec fn uses_edge(t: Seq<u8>, edge: u8) -> bool {
    exists|j: int| 0 <= j < t.len() && t[j] == edge
}

/// Whether the three vertices of triangle `m` of the list `t` lie on three different edges.
pub open spec fn triangle_edges_distinct(t: Seq<u8>, m: int) -> bool {
    t[3 * m] != t[3 * m + 1] && t[3 * m] != t[3 * m + 2] && t[3 * m + 1] != t[3 * m + 2]
}

#[verifier::inline]
spec fn covers_at(index: u8, edge: u8) -> bool {
    edge_crossed(edge_table(index), edge) ==> uses_edge(triangulation_table(index), edge)
}

/// Every crossed edge carries a vertex, and no triangle has two vertices on one edge.
#[verifier::inline]
spec fn coverage_laws(index: u8) -> bool {
    &&& covers_at(index, 0)
    &&& covers_at(index, 1)
    &&& covers_at(index, 2)
    &&& covers_at(index, 3)
    &&& covers_at(index, 4)
    &&& covers_at(index, 5)
    &&& covers_at(index, 6)
    &&& covers_at(index, 7)
    &&& covers_at(index, 8)
    &&& covers_at(index, 9)
    &&& covers_at(index, 10)
    &&& covers_at(index, 11)
    &&& forall|m: int|
        0 <= m < triangulation_table(index).len() / 3 ==> #[trigger] triangle_edges_distinct(
            triangulation_table(index),
            m,
        )
}

proof fn lemma_coverage_block_0(index: u8)
    requires
        0 <= index < 16,
    ensures
        coverage_laws(index),
{
    reveal(edge_table);
    reveal(triangulation_table);
    reveal(edge_crossed);
    if index == 0 {
        assert(coverage_laws(0));
    } else if index == 1 {
        let t = triangulation_table(1);
        assert(t[0] == 0 && t[2] == 3 && t[1] == 8);
        assert(coverage_laws(1));
    } else if index == 2 {
        let t = triangulation_table(2);
        assert(t[0] == 0 && t[1] == 1 && t[2] == 9);
        assert(coverage_laws(2));
    } else if index == 3 {
        let t = triangulation_table(3);
        assert(t[0] == 1 && t[2] == 3 && t[1] == 8 && t[3] == 9);
        assert(coverage_laws(3));
    } else if index == 4 {
        let t = triangulation_table(4);
        assert(t[0] == 1 && t[1] == 2 && t[2] == 10);
        assert(coverage_laws(4));
    } else if index == 5 {
        let t = triangulation_table(5);
        assert(t[0] == 0 && t[3] == 1 && t[4] == 2 && t[2] == 3 && t[1] == 8 && t[5] == 10);
        assert(coverage_laws(5));
    } else if index == 6 {
        let t = triangulation_table(6);
        assert(t[3] == 0 && t[1] == 2 && t[0] == 9 && t[2] == 10);
        assert(coverage_laws(6));
    } else if index == 7 {
        let t = triangulation_table(7);
        assert(t[0] == 2 && t[2] == 3 && t[1] == 8 && t[7] == 9 && t[4] == 10);
        assert(coverage_laws(7));
    } else if index == 8 {
        let t = triangulation_table(8);
        assert(t[2] == 2 && t[0] == 3 && t[1] == 11);
        assert(coverage_laws(8));
    } else if index == 9 {
        let t = triangulation_table(9);
        assert(t[0] == 0 && t[2] == 2 && t[3] == 8 && t[1] == 11);
        assert(coverage_laws(9));
    } else if index == 10 {
        let t = triangulation_table(10);
        assert(t[2] == 0 && t[0] == 1 && t[3] == 2 && t[4] == 3 && t[1] == 9 && t[5] == 11);
        assert(coverage_laws(10));
    } else if index == 11 {
        let t = triangulation_table(11);
        assert(t[0] == 1 && t[2] == 2 && t[7] == 8 && t[4] == 9 && t[1] == 11);
        assert(coverage_laws(11));
    } else if index == 12 {
        let t = triangulation_table(12);
        assert(t[2] == 1 && t[0] == 3 && t[1] == 10 && t[3] == 11);
        assert(coverage_laws(12));
    } else if index == 13 {
        let t = triangulation_table(13);
        assert(t[0] == 0 && t[2] == 1 && t[4] == 8 && t[1] == 10 && t[7] == 11);
        assert(coverage_laws(13));
    } else if index == 14 {
        let t = triangulation_table(14);
        assert(t[2] == 0 && t[0] == 3 && t[1] == 9 && t[7] == 10 && t[4] == 11);
        assert(coverage_laws(14));
    } else {
        let t = triangulation_table(15);
        assert(t[1] == 8 && t[0] == 9 && t[2] == 10 && t[5] == 11);
        assert(coverage_laws(15));
    }
}

proof fn lemma_coverage_block_1(index: u8)
    requires
        16 <= index < 32,
    ensures
        coverage_laws(index),
{
    reveal(edge_table);
    reveal(triangulation_table);
    reveal(edge_crossed);
    if index == 16 {
        let t = triangulation_table(16);
        assert(t[0] == 4 && t[1] == 7 && t[2] == 8);
        assert(coverage_laws(16));
    } else if index == 17 {
        let t = triangulation_table(17);
        assert(t[2] == 0 && t[1] == 3 && t[0] == 4 && t[3] == 7);
        assert(coverage_laws(17));
    } else if index == 18 {
        let t = triangulation_table(18);
        assert(t[0] == 0 && t[1] == 1 && t[4] == 4 && t[5] == 7 && t[3] == 8 && t[2] == 9);
        assert(coverage_laws(18));
    } else if index == 19 {
        let t = triangulation_table(19);
        assert(t[1] == 1 && t[7] == 3 && t[0] == 4 && t[4] == 7 && t[2] == 9);
        assert(coverage_laws(19));
    } else if index == 20 {
        let t = triangulation_table(20);
        assert(t[0] == 1 && t[1] == 2 && t[4] == 4 && t[5] == 7 && t[3] == 8 && t[2] == 10);
        assert(coverage_laws(20));
    } else if index == 21 {
        let t = triangulation_table(21);
        assert(t[4] == 0 && t[6] == 1 && t[7] == 2 && t[0] == 3 && t[1] == 4 && t[2] == 7 && t[8] == 10);
        assert(coverage_laws(21));
    } else if index == 22 {
        let t = triangulation_table(22);
        assert(t[4] == 0 && t[1] == 2 && t[7] == 4 && t[8] == 7 && t[6] == 8 && t[0] == 9 && t[2] == 10);
        assert(coverage_laws(22));
    } else if index == 23 {
        let t = triangulation_table(23);
        assert(t[0] == 2 && t[8] == 3 && t[11] == 4 && t[5] == 7 && t[2] == 9 && t[1] == 10);
        assert(coverage_laws(23));
    } else if index == 24 {
        let t = triangulation_table(24);
        assert(t[5] == 2 && t[3] == 3 && t[1] == 4 && t[2] == 7 && t[0] == 8 && t[4] == 11);
        assert(coverage_laws(24));
    } else if index == 25 {
        let t = triangulation_table(25);
        assert(t[7] == 0 && t[4] == 2 && t[1] == 4 && t[2] == 7 && t[0] == 11);
        assert(coverage_laws(25));
    } else if index == 26 {
        let t = triangulation_table(26);
        assert(t[1] == 0 && t[2] == 1 && t[6] == 2 && t[7] == 3 && t[4] == 4 && t[5] == 7 && t[3] == 8 && t[0] == 9 && t[8] == 11);
        assert(coverage_laws(26));
    } else if index == 27 {
        let t = triangulation_table(27);
        assert(t[11] == 1 && t[8] == 2 && t[0] == 4 && t[1] == 7 && t[3] == 9 && t[2] == 11);
        assert(coverage_laws(27));
    } else if index == 28 {
        let t = triangulation_table(28);
        assert(t[2] == 1 && t[0] == 3 && t[8] == 4 && t[6] == 7 && t[7] == 8 && t[1] == 10 && t[4] == 11);
        assert(coverage_laws(28));
    } else if index == 29 {
        let t = triangulation_table(29);
        assert(t[7] == 0 && t[0] == 1 && t[4] == 4 && t[9] == 7 && t[2] == 10 && t[1] == 11);
        assert(coverage_laws(29));
    } else if index == 30 {
        let t = triangulation_table(30);
        assert(t[4] == 0 && t[11] == 3 && t[0] == 4 && t[1] == 7 && t[2] == 8 && t[3] == 9 && t[8] == 10 && t[5] == 11);
        assert(coverage_laws(30));
    } else {
        let t = triangulation_table(31);
        assert(t[0] == 4 && t[1] == 7 && t[5] == 9 && t[8] == 10 && t[2] == 11);
        assert(coverage_laws(31));
    }
}

proof fn lemma_coverage_block_2(index: u8)
    requires
        32 <= index < 48,
    ensures
        coverage_laws(index),
{
    reveal(edge_table);
    reveal(triangulation_table);
    reveal(edge_crossed);
    if index == 32 {
        let t = triangulation_table(32);
        assert(t[2] == 4 && t[1] == 5 && t[0] == 9);
        assert(coverage_laws(32));
    } else if index == 33 {
        let t = triangulation_table(33);
        assert(t[3] == 0 && t[5] == 3 && t[2] == 4 && t[1] == 5 && t[4] == 8 && t[0] == 9);
        assert(coverage_laws(33));
    } else if index == 34 {
        let t = triangulation_table(34);
        assert(t[0] == 0 && t[3] == 1 && t[2] == 4 && t[1] == 5);
        assert(coverage_laws(34));
    } else if index == 35 {
        let t = triangulation_table(35);
        assert(t[7] == 1 && t[4] == 3 && t[2] == 4 && t[1] == 5 && t[0] == 8);
        assert(coverage_laws(35));
    } else if index == 36 {
        let t = triangulation_table(36);
        assert(t[0] == 1 && t[1] == 2 && t[5] == 4 && t[4] == 5 && t[3] == 9 && t[2] == 10);
        assert(coverage_laws(36));
    } else if index == 37 {
        let t = triangulation_table(37);
        assert(t[1] == 0 && t[3] == 1 && t[4] == 2 && t[0] == 3 && t[6] == 4 && t[8] == 5 && t[2] == 8 && t[7] == 9 && t[5] == 10);
        assert(coverage_laws(37));
    } else if index == 38 {
        let t = triangulation_table(38);
        assert(t[7] == 0 && t[1] == 2 && t[4] == 4 && t[0] == 5 && t[2] == 10);
        assert(coverage_laws(38));
    } else if index == 39 {
        let t = triangulation_table(39);
        assert(t[0] == 2 && t[3] == 3 && t[8] == 4 && t[2] == 5 && t[11] == 8 && t[1] == 10);
        assert(coverage_laws(39));
    } else if index == 40 {
        let t = triangulation_table(40);
        assert(t[3] == 2 && t[4] == 3 && t[2] == 4 && t[1] == 5 && t[0] == 9 && t[5] == 11);
        assert(coverage_laws(40));
    } else if index == 41 {
        let t = triangulation_table(41);
        assert(t[0] == 0 && t[2] == 2 && t[6] == 4 && t[8] == 5 && t[4] == 8 && t[7] == 9 && t[1] == 11);
        assert(coverage_laws(41));
    } else if index == 42 {
        let t = triangulation_table(42);
        assert(t[0] == 0 && t[4] == 1 && t[6] == 2 && t[7] == 3 && t[2] == 4 && t[1] == 5 && t[8] == 11);
        assert(coverage_laws(42));
    } else if index == 43 {
        let t = triangulation_table(43);
        assert(t[1] == 1 && t[0] == 2 && t[9] == 4 && t[2] == 5 && t[5] == 8 && t[8] == 11);
        assert(coverage_laws(43));
    } else if index == 44 {
        let t = triangulation_table(44);
        assert(t[4] == 1 && t[1] == 3 && t[8] == 4 && t[7] == 5 && t[6] == 9 && t[0] == 10 && t[2] == 11);
        assert(coverage_laws(44));
    } else if index == 45 {
        let t = triangulation_table(45);
        assert(t[3] == 0 && t[5] == 1 && t[0] == 4 && t[2] == 5 && t[4] == 8 && t[1] == 9 && t[7] == 10 && t[10] == 11);
        assert(coverage_laws(45));
    } else if index == 46 {
        let t = triangulation_table(46);
        assert(t[2] == 0 && t[11] == 3 && t[1] == 4 && t[0] == 5 && t[8] == 10 && t[5] == 11);
        assert(coverage_laws(46));
    } else {
        let t = triangulation_table(47);
        assert(t[1] == 4 && t[0] == 5 && t[2] == 8 && t[5] == 10 && t[8] == 11);
        assert(coverage_laws(47));
    }
}

proof fn lemma_coverage_block_3(index: u8)
    requires
        48 <= index < 64,
    ensures
        coverage_laws(index),
{
    reveal(edge_table);
    reveal(triangulation_table);
    reveal(edge_crossed);
    if index == 48 {
        let t = triangulation_table(48);
        assert(t[3] == 5 && t[1] == 7 && t[2] == 8 && t[0] == 9);
        assert(coverage_laws(48));
    } else if index == 49 {
        let t = triangulation_table(49);
        assert(t[2] == 0 && t[1] == 3 && t[4] == 5 && t[7] == 7 && t[0] == 9);
        assert(coverage_laws(49));
    } else if index == 50 {
        let t = triangulation_table(50);
        assert(t[0] == 0 && t[4] == 1 && t[7] == 5 && t[1] == 7 && t[2] == 8);
        assert(coverage_laws(50));
    } else if index == 51 {
        let t = triangulation_table(51);
        assert(t[0] == 1 && t[2] == 3 && t[1] == 5 && t[5] == 7);
        assert(coverage_laws(51));
    } else if index == 52 {
        let t = triangulation_table(52);
        assert(t[7] == 1 && t[8] == 2 && t[4] == 5 && t[1] == 7 && t[2] == 8 && t[0] == 9 && t[6] == 10);
        assert(coverage_laws(52));
    } else if index == 53 {
        let t = triangulation_table(53);
        assert(t[5] == 0 && t[1] == 1 && t[2] == 2 && t[7] == 3 && t[4] == 5 && t[10] == 7 && t[3] == 9 && t[0] == 10);
        assert(coverage_laws(53));
    } else if index == 54 {
        let t = triangulation_table(54);
        assert(t[1] == 0 && t[2] == 2 && t[5] == 5 && t[8] == 7 && t[0] == 8 && t[9] == 10);
        assert(coverage_laws(54));
    } else if index == 55 {
        let t = triangulation_table(55);
        assert(t[0] == 2 && t[5] == 3 && t[2] == 5 && t[8] == 7 && t[1] == 10);
        assert(coverage_laws(55));
    } else if index == 56 {
        let t = triangulation_table(56);
        assert(t[8] == 2 && t[6] == 3 && t[2] == 5 && t[0] == 7 && t[4] == 8 && t[1] == 9 && t[7] == 11);
        assert(coverage_laws(56));
    } else if index == 57 {
        let t = triangulation_table(57);
        assert(t[8] == 0 && t[5] == 2 && t[1] == 5 && t[2] == 7 && t[0] == 9 && t[11] == 11);
        assert(coverage_laws(57));
    } else if index == 58 {
        let t = triangulation_table(58);
        assert(t[3] == 0 && t[4] == 1 && t[0] == 2 && t[1] == 3 && t[10] == 5 && t[7] == 7 && t[5] == 8 && t[2] == 11);
        assert(coverage_laws(58));
    } else if index == 59 {
        let t = triangulation_table(59);
        assert(t[2] == 1 && t[1] == 2 && t[8] == 5 && t[5] == 7 && t[0] == 11);
        assert(coverage_laws(59));
    } else if index == 60 {
        let t = triangulation_table(60);
        assert(t[7] == 1 && t[8] == 3 && t[1] == 5 && t[5] == 7 && t[2] == 8 && t[0] == 9 && t[6] == 10 && t[11] == 11);
        assert(coverage_laws(60));
    } else if index == 61 {
        let t = triangulation_table(61);
        assert(t[2] == 0 && t[9] == 1 && t[0] == 5 && t[1] == 7 && t[5] == 9 && t[11] == 10 && t[7] == 11);
        assert(coverage_laws(61));
    } else if index == 62 {
        let t = triangulation_table(62);
        assert(t[2] == 0 && t[5] == 3 && t[7] == 5 && t[11] == 7 && t[9] == 8 && t[1] == 10 && t[0] == 11);
        assert(coverage_laws(62));
    } else {
        let t = triangulation_table(63);
        assert(t[2] == 5 && t[3] == 7 && t[1] == 10 && t[0] == 11);
        assert(coverage_laws(63));
    }
}

proof fn lemma_coverage_block_4(index: u8)
    requires
        64 <= index < 80,
    ensures
        coverage_laws(index),
{
    reveal(edge_table);
    reveal(triangulation_table);
    reveal(edge_crossed);
    if index == 64 {
        let t = triangulation_table(64);
        assert(t[2] == 5 && t[1] == 6 && t[0] == 10);
        assert(coverage_laws(64));
    } else if index == 65 {
        let t = triangulation_table(65);
        assert(t[0] == 0 && t[2] == 3 && t[3] == 5 && t[5] == 6 && t[1] == 8 && t[4] == 10);
        assert(coverage_laws(65));
    } else if index == 66 {
        let t = triangulation_table(66);
        assert(t[1] == 0 && t[2] == 1 && t[3] == 5 && t[5] == 6 && t[0] == 9 && t[4] == 10);
        assert(coverage_laws(66));
    } else if index == 67 {
        let t = triangulation_table(67);
        assert(t[0] == 1 && t[2] == 3 && t[6] == 5 && t[8] == 6 && t[1] == 8 && t[4] == 9 && t[7] == 10);
        assert(coverage_laws(67));
    } else if index == 68 {
        let t = triangulation_table(68);
        assert(t[0] == 1 && t[3] == 2 && t[2] == 5 && t[1] == 6);
        assert(coverage_laws(68));
    } else if index == 69 {
        let t = triangulation_table(69);
        assert(t[7] == 0 && t[0] == 1 && t[4] == 2 && t[6] == 3 && t[2] == 5 && t[1] == 6 && t[8] == 8);
        assert(coverage_laws(69));
    } else if index == 70 {
        let t = triangulation_table(70);
        assert(t[4] == 0 && t[7] == 2 && t[2] == 5 && t[1] == 6 && t[0] == 9);
        assert(coverage_laws(70));
    } else if index == 71 {
        let t = triangulation_table(71);
        assert(t[5] == 2 && t[9] == 3 && t[0] == 5 && t[8] == 6 && t[2] == 8 && t[1] == 9);
        assert(coverage_laws(71));
    } else if index == 72 {
        let t = triangulation_table(72);
        assert(t[0] == 2 && t[1] == 3 && t[5] == 5 && t[4] == 6 && t[3] == 10 && t[2] == 11);
        assert(coverage_laws(72));
    } else if index == 73 {
        let t = triangulation_table(73);
        assert(t[1] == 0 && t[4] == 2 && t[8] == 5 && t[7] == 6 && t[2] == 8 && t[6] == 10 && t[0] == 11);
        assert(coverage_laws(73));
    } else if index == 74 {
        let t = triangulation_table(74);
        assert(t[0] == 0 && t[1] == 1 && t[3] == 2 && t[4] == 3 && t[6] == 5 && t[8] == 6 && t[2] == 9 && t[7] == 10 && t[5] == 11);
        assert(coverage_laws(74));
    } else if index == 75 {
        let t = triangulation_table(75);
        assert(t[3] == 1 && t[5] == 2 && t[0] == 5 && t[2] == 6 && t[10] == 8 && t[4] == 9 && t[1] == 10 && t[7] == 11);
        assert(coverage_laws(75));
    } else if index == 76 {
        let t = triangulation_table(76);
        assert(t[7] == 1 && t[1] == 3 && t[4] == 5 && t[0] == 6 && t[2] == 11);
        assert(coverage_laws(76));
    } else if index == 77 {
        let t = triangulation_table(77);
        assert(t[0] == 0 && t[8] == 1 && t[5] == 5 && t[11] == 6 && t[1] == 8 && t[2] == 11);
        assert(coverage_laws(77));
    } else if index == 78 {
        let t = triangulation_table(78);
        assert(t[3] == 0 && t[0] == 3 && t[8] == 5 && t[2] == 6 && t[11] == 9 && t[1] == 11);
        assert(coverage_laws(78));
    } else {
        let t = triangulation_table(79);
        assert(t[1] == 5 && t[0] == 6 && t[8] == 8 && t[2] == 9 && t[5] == 11);
        assert(coverage_laws(79));
    }
}

proof fn lemma_coverage_block_5(index: u8)
    requires
        80 <= index < 96,
    ensures
        coverage_laws(index),
{
    reveal(edge_table);
    reveal(triangulation_table);
    reveal(edge_crossed);
    if index == 80 {
        let t = triangulation_table(80);
        assert(t[3] == 4 && t[0] == 5 && t[2] == 6 && t[4] == 7 && t[5] == 8 && t[1] == 10);
        assert(coverage_laws(80));
    } else if index == 81 {
        let t = triangulation_table(81);
        assert(t[2] == 0 && t[1] == 3 && t[0] == 4 && t[7] == 5 && t[6] == 6 && t[4] == 7 && t[8] == 10);
        assert(coverage_laws(81));
    } else if index == 82 {
        let t = triangulation_table(82);
        assert(t[2] == 0 && t[0] == 1 && t[7] == 4 && t[3] == 5 && t[5] == 6 && t[8] == 7 && t[6] == 8 && t[1] == 9 && t[4] == 10);
        assert(coverage_laws(82));
    } else if index == 83 {
        let t = triangulation_table(83);
        assert(t[3] == 1 && t[8] == 3 && t[11] == 4 && t[2] == 5 && t[1] == 6 && t[5] == 7 && t[4] == 9 && t[0] == 10);
        assert(coverage_laws(83));
    } else if index == 84 {
        let t = triangulation_table(84);
        assert(t[1] == 1 && t[2] == 2 && t[6] == 4 && t[4] == 5 && t[0] == 6 && t[7] == 7 && t[8] == 8);
        assert(coverage_laws(84));
    } else if index == 85 {
        let t = triangulation_table(85);
        assert(t[7] == 0 && t[0] == 1 && t[1] == 2 && t[6] == 3 && t[8] == 4 && t[2] == 5 && t[5] == 6 && t[11] == 7);
        assert(coverage_laws(85));
    } else if index == 86 {
        let t = triangulation_table(86);
        assert(t[4] == 0 && t[10] == 2 && t[1] == 4 && t[5] == 5 && t[7] == 6 && t[2] == 7 && t[0] == 8 && t[3] == 9);
        assert(coverage_laws(86));
    } else if index == 87 {
        let t = triangulation_table(87);
        assert(t[7] == 2 && t[1] == 3 && t[5] == 4 && t[9] == 5 && t[11] == 6 && t[0] == 7 && t[2] == 9);
        assert(coverage_laws(87));
    } else if index == 88 {
        let t = triangulation_table(88);
        assert(t[2] == 2 && t[0] == 3 && t[5] == 4 && t[8] == 5 && t[7] == 6 && t[3] == 7 && t[4] == 8 && t[6] == 10 && t[1] == 11);
        assert(coverage_laws(88));
    } else if index == 89 {
        let t = triangulation_table(89);
        assert(t[8] == 0 && t[5] == 2 && t[3] == 4 && t[0] == 5 && t[2] == 6 && t[4] == 7 && t[1] == 10 && t[11] == 11);
        assert(coverage_laws(89));
    } else if index == 90 {
        let t = triangulation_table(90);
        assert(t[0] == 0 && t[1] == 1 && t[6] == 2 && t[7] == 3 && t[3] == 4 && t[9] == 5 && t[11] == 6 && t[4] == 7 && t[5] == 8 && t[2] == 9 && t[10] == 10 && t[8] == 11);
        assert(coverage_laws(90));
    } else if index == 91 {
        let t = triangulation_table(91);
        assert(t[2] == 1 && t[1] == 2 && t[7] == 4 && t[12] == 5 && t[14] == 6 && t[9] == 7 && t[0] == 9 && t[13] == 10 && t[4] == 11);
        assert(coverage_laws(91));
    } else if index == 92 {
        let t = triangulation_table(92);
        assert(t[8] == 1 && t[3] == 3 && t[1] == 4 && t[5] == 5 && t[11] == 6 && t[2] == 7 && t[0] == 8 && t[4] == 11);
        assert(coverage_laws(92));
    } else if index == 93 {
        let t = triangulation_table(93);
        assert(t[7] == 0 && t[1] == 1 && t[11] == 4 && t[0] == 5 && t[5] == 6 && t[9] == 7 && t[2] == 11);
        assert(coverage_laws(93));
    } else if index == 94 {
        let t = triangulation_table(94);
        assert(t[0] == 0 && t[7] == 3 && t[13] == 4 && t[1] == 5 && t[4] == 6 && t[14] == 7 && t[12] == 8 && t[2] == 9 && t[9] == 11);
        assert(coverage_laws(94));
    } else {
        let t = triangulation_table(95);
        assert(t[6] == 4 && t[1] == 5 && t[0] == 6 && t[7] == 7 && t[2] == 9 && t[5] == 11);
        assert(coverage_laws(95));
    }
}

proof fn lemma_coverage_block_6(index: u8)
    requires
        96 <= index < 112,
    ensures
        coverage_laws(index),
{
    reveal(edge_table);
    reveal(triangulation_table);
    reveal(edge_crossed);
    if index == 96 {
        let t = triangulation_table(96);
        assert(t[1] == 4 && t[3] == 6 && t[2] == 9 && t[0] == 10);
        assert(coverage_laws(96));
    } else if index == 97 {
        let t = triangulation_table(97);
        assert(t[6] == 0 && t[8] == 3 && t[0] == 4 && t[2] == 6 && t[7] == 8 && t[4] == 9 && t[1] == 10);
        assert(coverage_laws(97));
    } else if index == 98 {
        let t = triangulation_table(98);
        assert(t[1] == 0 && t[2] == 1 && t[7] == 4 && t[4] == 6 && t[0] == 10);
        assert(coverage_laws(98));
    } else if index == 99 {
        let t = triangulation_table(99);
        assert(t[2] == 1 && t[1] == 3 && t[8] == 4 && t[5] == 6 && t[0] == 8 && t[11] == 10);
        assert(coverage_laws(99));
    } else if index == 100 {
        let t = triangulation_table(100);
        assert(t[0] == 1 && t[4] == 2 && t[1] == 4 && t[7] == 6 && t[2] == 9);
        assert(coverage_laws(100));
    } else if index == 101 {
        let t = triangulation_table(101);
        assert(t[1] == 0 && t[3] == 1 && t[4] == 2 && t[0] == 3 && t[7] == 4 && t[10] == 6 && t[2] == 8 && t[5] == 9);
        assert(coverage_laws(101));
    } else if index == 102 {
        let t = triangulation_table(102);
        assert(t[0] == 0 && t[1] == 2 && t[2] == 4 && t[5] == 6);
        assert(coverage_laws(102));
    } else if index == 103 {
        let t = triangulation_table(103);
        assert(t[2] == 2 && t[1] == 3 && t[5] == 4 && t[8] == 6 && t[0] == 8);
        assert(coverage_laws(103));
    } else if index == 104 {
        let t = triangulation_table(104);
        assert(t[7] == 2 && t[8] == 3 && t[1] == 4 && t[4] == 6 && t[2] == 9 && t[0] == 10 && t[6] == 11);
        assert(coverage_laws(104));
    } else if index == 105 {
        let t = triangulation_table(105);
        assert(t[0] == 0 && t[2] == 2 && t[6] == 4 && t[11] == 6 && t[1] == 8 && t[7] == 9 && t[8] == 10 && t[5] == 11);
        assert(coverage_laws(105));
    } else if index == 106 {
        let t = triangulation_table(106);
        assert(t[3] == 0 && t[4] == 1 && t[2] == 2 && t[0] == 3 && t[8] == 4 && t[5] == 6 && t[11] == 10 && t[1] == 11);
        assert(coverage_laws(106));
    } else if index == 107 {
        let t = triangulation_table(107);
        assert(t[2] == 1 && t[9] == 2 && t[1] == 4 && t[0] == 6 && t[7] == 8 && t[5] == 10 && t[11] == 11);
        assert(coverage_laws(107));
    } else if index == 108 {
        let t = triangulation_table(108);
        assert(t[7] == 1 && t[4] == 3 && t[2] == 4 && t[1] == 6 && t[0] == 9 && t[9] == 11);
        assert(coverage_laws(108));
    } else if index == 109 {
        let t = triangulation_table(109);
        assert(t[5] == 0 && t[2] == 1 && t[11] == 4 && t[7] == 6 && t[0] == 8 && t[9] == 9 && t[1] == 11);
        assert(coverage_laws(109));
    } else if index == 110 {
        let t = triangulation_table(110);
        assert(t[5] == 0 && t[0] == 3 && t[8] == 4 && t[2] == 6 && t[1] == 11);
        assert(coverage_laws(110));
    } else {
        let t = triangulation_table(111);
        assert(t[1] == 4 && t[0] == 6 && t[2] == 8 && t[3] == 11);
        assert(coverage_laws(111));
    }
}

proof fn lemma_coverage_block_7(index: u8)
    requires
        112 <= index < 128,
    ensures
        coverage_laws(index),
{
    reveal(edge_table);
    reveal(triangulation_table);
    reveal(edge_crossed);
    if index == 112 {
        let t = triangulation_table(112);
        assert(t[2] == 6 && t[0] == 7 && t[4] == 8 && t[7] == 9 && t[1] == 10);
        assert(coverage_laws(112));
    } else if index == 113 {
        let t = triangulation_table(113);
        assert(t[0] == 0 && t[2] == 3 && t[9] == 6 && t[1] == 7 && t[7] == 9 && t[4] == 10);
        assert(coverage_laws(113));
    } else if index == 114 {
        let t = triangulation_table(114);
        assert(t[11] == 0 && t[3] == 1 && t[1] == 6 && t[2] == 7 && t[8] == 8 && t[0] == 10);
        assert(coverage_laws(114));
    } else if index == 115 {
        let t = triangulation_table(115);
        assert(t[5] == 1 && t[8] == 3 && t[1] == 6 && t[2] == 7 && t[0] == 10);
        assert(coverage_laws(115));
    } else if index == 116 {
        let t = triangulation_table(116);
        assert(t[0] == 1 && t[1] == 2 && t[2] == 6 && t[11] == 7 && t[5] == 8 && t[8] == 9);
        assert(coverage_laws(116));
    } else if index == 117 {
        let t = triangulation_table(117);
        assert(t[9] == 0 && t[5] == 1 && t[0] == 2 && t[11] == 3 && t[1] == 6 && t[7] == 7 && t[2] == 9);
        assert(coverage_laws(117));
    } else if index == 118 {
        let t = triangulation_table(118);
        assert(t[2] == 0 && t[8] == 2 && t[5] == 6 && t[0] == 7 && t[1] == 8);
        assert(coverage_laws(118));
    } else if index == 119 {
        let t = triangulation_table(119);
        assert(t[2] == 2 && t[1] == 3 && t[3] == 6 && t[0] == 7);
        assert(coverage_laws(119));
    } else if index == 120 {
        let t = triangulation_table(120);
        assert(t[0] == 2 && t[1] == 3 && t[4] == 6 && t[11] == 7 && t[5] == 8 && t[8] == 9 && t[3] == 10 && t[2] == 11);
        assert(coverage_laws(120));
    } else if index == 121 {
        let t = triangulation_table(121);
        assert(t[1] == 0 && t[0] == 2 && t[9] == 6 && t[2] == 7 && t[7] == 9 && t[11] == 10 && t[5] == 11);
        assert(coverage_laws(121));
    } else if index == 122 {
        let t = triangulation_table(122);
        assert(t[2] == 0 && t[0] == 1 && t[12] == 2 && t[13] == 3 && t[9] == 6 && t[4] == 7 && t[1] == 8 && t[7] == 10 && t[14] == 11);
        assert(coverage_laws(122));
    } else if index == 123 {
        let t = triangulation_table(123);
        assert(t[2] == 1 && t[1] == 2 && t[7] == 6 && t[5] == 7 && t[6] == 10 && t[0] == 11);
        assert(coverage_laws(123));
    } else if index == 124 {
        let t = triangulation_table(124);
        assert(t[7] == 1 && t[11] == 3 && t[2] == 6 && t[5] == 7 && t[0] == 8 && t[1] == 9 && t[9] == 11);
        assert(coverage_laws(124));
    } else if index == 125 {
        let t = triangulation_table(125);
        assert(t[0] == 0 && t[2] == 1 && t[4] == 6 && t[5] == 7 && t[1] == 9 && t[3] == 11);
        assert(coverage_laws(125));
    } else if index == 126 {
        let t = triangulation_table(126);
        assert(t[2] == 0 && t[6] == 3 && t[5] == 6 && t[0] == 7 && t[1] == 8 && t[7] == 11);
        assert(coverage_laws(126));
    } else {
        let t = triangulation_table(127);
        assert(t[2] == 6 && t[0] == 7 && t[1] == 11);
        assert(coverage_laws(127));
    }
}

proof fn lemma_coverage_block_8(index: u8)
    requires
        128 <= index < 144,
    ensures
        coverage_laws(index),
{
    reveal(edge_table);
    reveal(triangulation_table);
    reveal(edge_crossed);
    if index == 128 {
        let t = triangulation_table(128);
        assert(t[1] == 6 && t[0] == 7 && t[2] == 11);
        assert(coverage_laws(128));
    } else if index == 129 {
        let t = triangulation_table(129);
        assert(t[1] == 0 && t[0] == 3 && t[5] == 6 && t[4] == 7 && t[2] == 8 && t[3] == 11);
        assert(coverage_laws(129));
    } else if index == 130 {
        let t = triangulation_table(130);
        assert(t[0] == 0 && t[1] == 1 && t[5] == 6 && t[4] == 7 && t[2] == 9 && t[3] == 11);
        assert(coverage_laws(130));
    } else if index == 131 {
        let t = triangulation_table(131);
        assert(t[1] == 1 && t[4] == 3 && t[8] == 6 && t[7] == 7 && t[0] == 8 && t[2] == 9 && t[6] == 11);
        assert(coverage_laws(131));
    } else if index == 132 {
        let t = triangulation_table(132);
        assert(t[1] == 1 && t[2] == 2 && t[3] == 6 && t[5] == 7 && t[0] == 10 && t[4] == 11);
        assert(coverage_laws(132));
    } else if index == 133 {
        let t = triangulation_table(133);
        assert(t[4] == 0 && t[0] == 1 && t[1] == 2 && t[3] == 3 && t[6] == 6 && t[8] == 7 && t[5] == 8 && t[2] == 10 && t[7] == 11);
        assert(coverage_laws(133));
    } else if index == 134 {
        let t = triangulation_table(134);
        assert(t[2] == 0 && t[0] == 2 && t[6] == 6 && t[8] == 7 && t[1] == 9 && t[4] == 10 && t[7] == 11);
        assert(coverage_laws(134));
    } else if index == 135 {
        let t = triangulation_table(135);
        assert(t[3] == 2 && t[5] == 3 && t[0] == 6 && t[2] == 7 && t[7] == 8 && t[10] == 9 && t[4] == 10 && t[1] == 11);
        assert(coverage_laws(135));
    } else if index == 136 {
        let t = triangulation_table(136);
        assert(t[1] == 2 && t[2] == 3 && t[3] == 6 && t[0] == 7);
        assert(coverage_laws(136));
    } else if index == 137 {
        let t = triangulation_table(137);
        assert(t[1] == 0 && t[7] == 2 && t[4] == 6 && t[0] == 7 && t[2] == 8);
        assert(coverage_laws(137));
    } else if index == 138 {
        let t = triangulation_table(138);
        assert(t[6] == 0 && t[7] == 1 && t[0] == 2 && t[4] == 3 && t[2] == 6 && t[1] == 7 && t[8] == 9);
        assert(coverage_laws(138));
    } else if index == 139 {
        let t = triangulation_table(139);
        assert(t[0] == 1 && t[2] == 2 && t[1] == 6 && t[10] == 7 && t[4] == 8 && t[7] == 9);
        assert(coverage_laws(139));
    } else if index == 140 {
        let t = triangulation_table(140);
        assert(t[4] == 1 && t[7] == 3 && t[2] == 6 && t[1] == 7 && t[0] == 10);
        assert(coverage_laws(140));
    } else if index == 141 {
        let t = triangulation_table(141);
        assert(t[10] == 0 && t[3] == 1 && t[2] == 6 && t[1] == 7 && t[7] == 8 && t[0] == 10);
        assert(coverage_laws(141));
    } else if index == 142 {
        let t = triangulation_table(142);
        assert(t[0] == 0 && t[1] == 3 && t[9] == 6 && t[2] == 7 && t[8] == 9 && t[5] == 10);
        assert(coverage_laws(142));
    } else {
        let t = triangulation_table(143);
        assert(t[1] == 6 && t[0] == 7 && t[5] == 8 && t[8] == 9 && t[2] == 10);
        assert(coverage_laws(143));
    }
}

proof fn lemma_coverage_block_9(index: u8)
    requires
        144 <= index < 160,
    ensures
        coverage_laws(index),
{
    reveal(edge_table);
    reveal(triangulation_table);
    reveal(edge_crossed);
    if index == 144 {
        let t = triangulation_table(144);
        assert(t[2] == 4 && t[0] == 6 && t[1] == 8 && t[3] == 11);
        assert(coverage_laws(144));
    } else if index == 145 {
        let t = triangulation_table(145);
        assert(t[4] == 0 && t[0] == 3 && t[7] == 4 && t[1] == 6 && t[2] == 11);
        assert(coverage_laws(145));
    } else if index == 146 {
        let t = triangulation_table(146);
        assert(t[7] == 0 && t[8] == 1 && t[4] == 4 && t[1] == 6 && t[0] == 8 && t[6] == 9 && t[2] == 11);
        assert(coverage_laws(146));
    } else if index == 147 {
        let t = triangulation_table(147);
        assert(t[8] == 1 && t[5] == 3 && t[1] == 4 && t[2] == 6 && t[0] == 9 && t[9] == 11);
        assert(coverage_laws(147));
    } else if index == 148 {
        let t = triangulation_table(148);
        assert(t[8] == 1 && t[6] == 2 && t[2] == 4 && t[0] == 6 && t[1] == 8 && t[7] == 10 && t[4] == 11);
        assert(coverage_laws(148));
    } else if index == 149 {
        let t = triangulation_table(149);
        assert(t[4] == 0 && t[0] == 1 && t[1] == 2 && t[3] == 3 && t[10] == 4 && t[7] == 6 && t[2] == 10 && t[5] == 11);
        assert(coverage_laws(149));
    } else if index == 150 {
        let t = triangulation_table(150);
        assert(t[6] == 0 && t[7] == 2 && t[0] == 4 && t[4] == 6 && t[2] == 8 && t[8] == 9 && t[10] == 10 && t[1] == 11);
        assert(coverage_laws(150));
    } else if index == 151 {
        let t = triangulation_table(151);
        assert(t[5] == 2 && t[2] == 3 && t[7] == 4 && t[11] == 6 && t[1] == 9 && t[0] == 10 && t[9] == 11);
        assert(coverage_laws(151));
    } else if index == 152 {
        let t = triangulation_table(152);
        assert(t[1] == 2 && t[2] == 3 && t[4] == 4 && t[7] == 6 && t[0] == 8);
        assert(coverage_laws(152));
    } else if index == 153 {
        let t = triangulation_table(153);
        assert(t[0] == 0 && t[2] == 2 && t[1] == 4 && t[4] == 6);
        assert(coverage_laws(153));
    } else if index == 154 {
        let t = triangulation_table(154);
        assert(t[2] == 0 && t[0] == 1 && t[3] == 2 && t[4] == 3 && t[5] == 4 && t[8] == 6 && t[11] == 8 && t[1] == 9);
        assert(coverage_laws(154));
    } else if index == 155 {
        let t = triangulation_table(155);
        assert(t[0] == 1 && t[5] == 2 && t[2] == 4 && t[8] == 6 && t[1] == 9);
        assert(coverage_laws(155));
    } else if index == 156 {
        let t = triangulation_table(156);
        assert(t[1] == 1 && t[2] == 3 && t[7] == 4 && t[4] == 6 && t[0] == 8 && t[10] == 10);
        assert(coverage_laws(156));
    } else if index == 157 {
        let t = triangulation_table(157);
        assert(t[2] == 0 && t[1] == 1 && t[8] == 4 && t[5] == 6 && t[0] == 10);
        assert(coverage_laws(157));
    } else if index == 158 {
        let t = triangulation_table(158);
        assert(t[9] == 0 && t[2] == 3 && t[0] == 4 && t[1] == 6 && t[5] == 8 && t[11] == 9 && t[7] == 10);
        assert(coverage_laws(158));
    } else {
        let t = triangulation_table(159);
        assert(t[2] == 4 && t[3] == 6 && t[1] == 9 && t[0] == 10);
        assert(coverage_laws(159));
    }
}

proof fn lemma_coverage_block_10(index: u8)
    requires
        160 <= index < 176,
    ensures
        coverage_laws(index),
{
    reveal(edge_table);
    reveal(triangulation_table);
    reveal(edge_crossed);
    if index == 160 {
        let t = triangulation_table(160);
        assert(t[0] == 4 && t[2] == 5 && t[4] == 6 && t[3] == 7 && t[1] == 9 && t[5] == 11);
        assert(coverage_laws(160));
    } else if index == 161 {
        let t = triangulation_table(161);
        assert(t[0] == 0 && t[2] == 3 && t[3] == 4 && t[5] == 5 && t[8] == 6 && t[7] == 7 && t[1] == 8 && t[4] == 9 && t[6] == 11);
        assert(coverage_laws(161));
    } else if index == 162 {
        let t = triangulation_table(162);
        assert(t[1] == 0 && t[2] == 1 && t[4] == 4 && t[0] == 5 && t[7] == 6 && t[6] == 7 && t[8] == 11);
        assert(coverage_laws(162));
    } else if index == 163 {
        let t = triangulation_table(163);
        assert(t[10] == 1 && t[4] == 3 && t[5] == 4 && t[7] == 5 && t[2] == 6 && t[1] == 7 && t[3] == 8 && t[0] == 11);
        assert(coverage_laws(163));
    } else if index == 164 {
        let t = triangulation_table(164);
        assert(t[4] == 1 && t[5] == 2 && t[2] == 4 && t[1] == 5 && t[7] == 6 && t[6] == 7 && t[0] == 9 && t[3] == 10 && t[8] == 11);
        assert(coverage_laws(164));
    } else if index == 165 {
        let t = triangulation_table(165);
        assert(t[6] == 0 && t[3] == 1 && t[4] == 2 && t[8] == 3 && t[9] == 4 && t[11] == 5 && t[0] == 6 && t[2] == 7 && t[7] == 8 && t[10] == 9 && t[5] == 10 && t[1] == 11);
        assert(coverage_laws(165));
    } else if index == 166 {
        let t = triangulation_table(166);
        assert(t[10] == 0 && t[7] == 2 && t[4] == 4 && t[3] == 5 && t[1] == 6 && t[0] == 7 && t[5] == 10 && t[2] == 11);
        assert(coverage_laws(166));
    } else if index == 167 {
        let t = triangulation_table(167);
        assert(t[7] == 2 && t[0] == 3 && t[1] == 4 && t[4] == 5 && t[14] == 6 && t[13] == 7 && t[2] == 8 && t[9] == 10 && t[12] == 11);
        assert(coverage_laws(167));
    } else if index == 168 {
        let t = triangulation_table(168);
        assert(t[1] == 2 && t[2] == 3 && t[7] == 4 && t[6] == 5 && t[4] == 6 && t[0] == 7 && t[8] == 9);
        assert(coverage_laws(168));
    } else if index == 169 {
        let t = triangulation_table(169);
        assert(t[3] == 0 && t[8] == 2 && t[2] == 4 && t[1] == 5 && t[5] == 6 && t[11] == 7 && t[4] == 8 && t[0] == 9);
        assert(coverage_laws(169));
    } else if index == 170 {
        let t = triangulation_table(170);
        assert(t[8] == 0 && t[6] == 1 && t[2] == 2 && t[0] == 3 && t[10] == 4 && t[7] == 5 && t[1] == 6 && t[4] == 7);
        assert(coverage_laws(170));
    } else if index == 171 {
        let t = triangulation_table(171);
        assert(t[7] == 1 && t[1] == 2 && t[9] == 4 && t[11] == 5 && t[0] == 6 && t[5] == 7 && t[2] == 8);
        assert(coverage_laws(171));
    } else if index == 172 {
        let t = triangulation_table(172);
        assert(t[4] == 1 && t[10] == 3 && t[2] == 4 && t[1] == 5 && t[5] == 6 && t[7] == 7 && t[0] == 9 && t[3] == 10);
        assert(coverage_laws(172));
    } else if index == 173 {
        let t = triangulation_table(173);
        assert(t[7] == 0 && t[0] == 1 && t[14] == 4 && t[13] == 5 && t[1] == 6 && t[4] == 7 && t[9] == 8 && t[12] == 9 && t[2] == 10);
        assert(coverage_laws(173));
    } else if index == 174 {
        let t = triangulation_table(174);
        assert(t[1] == 0 && t[7] == 3 && t[0] == 4 && t[5] == 5 && t[9] == 6 && t[11] == 7 && t[2] == 10);
        assert(coverage_laws(174));
    } else {
        let t = triangulation_table(175);
        assert(t[7] == 4 && t[6] == 5 && t[1] == 6 && t[0] == 7 && t[5] == 8 && t[2] == 10);
        assert(coverage_laws(175));
    }
}

proof fn lemma_coverage_block_11(index: u8)
    requires
        176 <= index < 192,
    ensures
        coverage_laws(index),
{
    reveal(edge_table);
    reveal(triangulation_table);
    reveal(edge_crossed);
    if index == 176 {
        let t = triangulation_table(176);
        assert(t[2] == 5 && t[0] == 6 && t[7] == 8 && t[1] == 9 && t[4] == 11);
        assert(coverage_laws(176));
    } else if index == 177 {
        let t = triangulation_table(177);
        assert(t[3] == 0 && t[0] == 3 && t[7] == 5 && t[1] == 6 && t[10] == 9 && t[2] == 11);
        assert(coverage_laws(177));
    } else if index == 178 {
        let t = triangulation_table(178);
        assert(t[0] == 0 && t[7] == 1 && t[4] == 5 && t[10] == 6 && t[2] == 8 && t[1] == 11);
        assert(coverage_laws(178));
    } else if index == 179 {
        let t = triangulation_table(179);
        assert(t[8] == 1 && t[2] == 3 && t[5] == 5 && t[0] == 6 && t[1] == 11);
        assert(coverage_laws(179));
    } else if index == 180 {
        let t = triangulation_table(180);
        assert(t[0] == 1 && t[1] == 2 && t[4] == 5 && t[11] == 6 && t[8] == 8 && t[3] == 9 && t[2] == 10 && t[5] == 11);
        assert(coverage_laws(180));
    } else if index == 181 {
        let t = triangulation_table(181);
        assert(t[0] == 0 && t[12] == 1 && t[13] == 2 && t[2] == 3 && t[9] == 5 && t[4] == 6 && t[7] == 9 && t[14] == 10 && t[1] == 11);
        assert(coverage_laws(181));
    } else if index == 182 {
        let t = triangulation_table(182);
        assert(t[7] == 0 && t[11] == 2 && t[2] == 5 && t[5] == 6 && t[1] == 8 && t[9] == 10 && t[0] == 11);
        assert(coverage_laws(182));
    } else if index == 183 {
        let t = triangulation_table(183);
        assert(t[6] == 2 && t[2] == 3 && t[5] == 5 && t[0] == 6 && t[7] == 10 && t[1] == 11);
        assert(coverage_laws(183));
    } else if index == 184 {
        let t = triangulation_table(184);
        assert(t[4] == 2 && t[9] == 3 && t[0] == 5 && t[7] == 6 && t[1] == 8 && t[2] == 9);
        assert(coverage_laws(184));
    } else if index == 185 {
        let t = triangulation_table(185);
        assert(t[5] == 0 && t[8] == 2 && t[1] == 5 && t[2] == 6 && t[0] == 9);
        assert(coverage_laws(185));
    } else if index == 186 {
        let t = triangulation_table(186);
        assert(t[5] == 0 && t[0] == 1 && t[11] == 2 && t[9] == 3 && t[1] == 5 && t[7] == 6 && t[2] == 8);
        assert(coverage_laws(186));
    } else if index == 187 {
        let t = triangulation_table(187);
        assert(t[0] == 1 && t[3] == 2 && t[1] == 5 && t[2] == 6);
        assert(coverage_laws(187));
    } else if index == 188 {
        let t = triangulation_table(188);
        assert(t[0] == 1 && t[1] == 3 && t[9] == 5 && t[2] == 6 && t[7] == 8 && t[11] == 9 && t[5] == 10);
        assert(coverage_laws(188));
    } else if index == 189 {
        let t = triangulation_table(189);
        assert(t[2] == 0 && t[1] == 1 && t[7] == 5 && t[5] == 6 && t[6] == 9 && t[0] == 10);
        assert(coverage_laws(189));
    } else if index == 190 {
        let t = triangulation_table(190);
        assert(t[0] == 0 && t[1] == 3 && t[3] == 5 && t[4] == 6 && t[2] == 8 && t[5] == 10);
        assert(coverage_laws(190));
    } else {
        let t = triangulation_table(191);
        assert(t[1] == 5 && t[2] == 6 && t[0] == 10);
        assert(coverage_laws(191));
    }
}

proof fn lemma_coverage_block_12(index: u8)
    requires
        192 <= index < 208,
    ensures
        coverage_laws(index),
{
    reveal(edge_table);
    reveal(triangulation_table);
    reveal(edge_crossed);
    if index == 192 {
        let t = triangulation_table(192);
        assert(t[1] == 5 && t[3] == 7 && t[2] == 10 && t[0] == 11);
        assert(coverage_laws(192));
    } else if index == 193 {
        let t = triangulation_table(193);
        assert(t[8] == 0 && t[7] == 3 && t[1] == 5 && t[4] == 7 && t[6] == 8 && t[2] == 10 && t[0] == 11);
        assert(coverage_laws(193));
    } else if index == 194 {
        let t = triangulation_table(194);
        assert(t[8] == 0 && t[6] == 1 && t[0] == 5 && t[2] == 7 && t[7] == 9 && t[4] == 10 && t[1] == 11);
        assert(coverage_laws(194));
    } else if index == 195 {
        let t = triangulation_table(195);
        assert(t[8] == 1 && t[10] == 3 && t[2] == 5 && t[1] == 7 && t[7] == 8 && t[6] == 9 && t[0] == 10 && t[4] == 11);
        assert(coverage_laws(195));
    } else if index == 196 {
        let t = triangulation_table(196);
        assert(t[1] == 1 && t[2] == 2 && t[7] == 5 && t[4] == 7 && t[0] == 11);
        assert(coverage_laws(196));
    } else if index == 197 {
        let t = triangulation_table(197);
        assert(t[0] == 0 && t[3] == 1 && t[4] == 2 && t[2] == 3 && t[8] == 5 && t[5] == 7 && t[1] == 8 && t[11] == 11);
        assert(coverage_laws(197));
    } else if index == 198 {
        let t = triangulation_table(198);
        assert(t[7] == 0 && t[4] == 2 && t[2] == 5 && t[1] == 7 && t[0] == 9 && t[10] == 11);
        assert(coverage_laws(198));
    } else if index == 199 {
        let t = triangulation_table(199);
        assert(t[2] == 2 && t[9] == 3 && t[1] == 5 && t[0] == 7 && t[11] == 8 && t[7] == 9 && t[5] == 11);
        assert(coverage_laws(199));
    } else if index == 200 {
        let t = triangulation_table(200);
        assert(t[0] == 2 && t[4] == 3 && t[1] == 5 && t[7] == 7 && t[2] == 10);
        assert(coverage_laws(200));
    } else if index == 201 {
        let t = triangulation_table(201);
        assert(t[2] == 0 && t[1] == 2 && t[4] == 5 && t[7] == 7 && t[0] == 8 && t[9] == 10);
        assert(coverage_laws(201));
    } else if index == 202 {
        let t = triangulation_table(202);
        assert(t[1] == 0 && t[2] == 1 && t[11] == 2 && t[5] == 3 && t[3] == 5 && t[8] == 7 && t[0] == 9 && t[4] == 10);
        assert(coverage_laws(202));
    } else if index == 203 {
        let t = triangulation_table(203);
        assert(t[5] == 1 && t[2] == 2 && t[11] == 5 && t[7] == 7 && t[1] == 8 && t[0] == 9 && t[9] == 10);
        assert(coverage_laws(203));
    } else if index == 204 {
        let t = triangulation_table(204);
        assert(t[0] == 1 && t[1] == 3 && t[2] == 5 && t[4] == 7);
        assert(coverage_laws(204));
    } else if index == 205 {
        let t = triangulation_table(205);
        assert(t[0] == 0 && t[5] == 1 && t[8] == 5 && t[2] == 7 && t[1] == 8);
        assert(coverage_laws(205));
    } else if index == 206 {
        let t = triangulation_table(206);
        assert(t[1] == 0 && t[2] == 3 && t[5] == 5 && t[8] == 7 && t[0] == 9);
        assert(coverage_laws(206));
    } else {
        let t = triangulation_table(207);
        assert(t[3] == 5 && t[2] == 7 && t[1] == 8 && t[0] == 9);
        assert(coverage_laws(207));
    }
}

proof fn lemma_coverage_block_13(index: u8)
    requires
        208 <= index < 224,
    ensures
        coverage_laws(index),
{
    reveal(edge_table);
    reveal(triangulation_table);
    reveal(edge_crossed);
    if index == 208 {
        let t = triangulation_table(208);
        assert(t[2] == 4 && t[0] == 5 && t[1] == 8 && t[4] == 10 && t[7] == 11);
        assert(coverage_laws(208));
    } else if index == 209 {
        let t = triangulation_table(209);
        assert(t[1] == 0 && t[10] == 3 && t[2] == 4 && t[0] == 5 && t[7] == 10 && t[4] == 11);
        assert(coverage_laws(209));
    } else if index == 210 {
        let t = triangulation_table(210);
        assert(t[0] == 0 && t[1] == 1 && t[4] == 4 && t[11] == 5 && t[3] == 8 && t[2] == 9 && t[5] == 10 && t[8] == 11);
        assert(coverage_laws(210));
    } else if index == 211 {
        let t = triangulation_table(211);
        assert(t[11] == 1 && t[7] == 3 && t[2] == 4 && t[5] == 5 && t[9] == 9 && t[0] == 10 && t[1] == 11);
        assert(coverage_laws(211));
    } else if index == 212 {
        let t = triangulation_table(212);
        assert(t[2] == 1 && t[0] == 2 && t[9] == 4 && t[1] == 5 && t[4] == 8 && t[7] == 11);
        assert(coverage_laws(212));
    } else if index == 213 {
        let t = triangulation_table(213);
        assert(t[0] == 0 && t[11] == 1 && t[9] == 2 && t[5] == 3 && t[1] == 4 && t[7] == 5 && t[2] == 11);
        assert(coverage_laws(213));
    } else if index == 214 {
        let t = triangulation_table(214);
        assert(t[0] == 0 && t[1] == 2 && t[9] == 4 && t[2] == 5 && t[11] == 8 && t[5] == 9 && t[7] == 11);
        assert(coverage_laws(214));
    } else if index == 215 {
        let t = triangulation_table(215);
        assert(t[3] == 2 && t[5] == 3 && t[1] == 4 && t[2] == 5 && t[0] == 9 && t[4] == 11);
        assert(coverage_laws(215));
    } else if index == 216 {
        let t = triangulation_table(216);
        assert(t[0] == 2 && t[3] == 3 && t[7] == 4 && t[1] == 5 && t[10] == 8 && t[2] == 10);
        assert(coverage_laws(216));
    } else if index == 217 {
        let t = triangulation_table(217);
        assert(t[8] == 0 && t[2] == 2 && t[5] == 4 && t[0] == 5 && t[1] == 10);
        assert(coverage_laws(217));
    } else if index == 218 {
        let t = triangulation_table(218);
        assert(t[12] == 0 && t[13] == 1 && t[2] == 2 && t[0] == 3 && t[9] == 4 && t[4] == 5 && t[7] == 8 && t[14] == 9 && t[1] == 10);
        assert(coverage_laws(218));
    } else if index == 219 {
        let t = triangulation_table(219);
        assert(t[6] == 1 && t[2] == 2 && t[5] == 4 && t[0] == 5 && t[7] == 9 && t[1] == 10);
        assert(coverage_laws(219));
    } else if index == 220 {
        let t = triangulation_table(220);
        assert(t[8] == 1 && t[5] == 3 && t[1] == 4 && t[2] == 5 && t[0] == 8);
        assert(coverage_laws(220));
    } else if index == 221 {
        let t = triangulation_table(221);
        assert(t[0] == 0 && t[3] == 1 && t[1] == 4 && t[2] == 5);
        assert(coverage_laws(221));
    } else if index == 222 {
        let t = triangulation_table(222);
        assert(t[7] == 0 && t[5] == 3 && t[1] == 4 && t[2] == 5 && t[0] == 8 && t[6] == 9);
        assert(coverage_laws(222));
    } else {
        let t = triangulation_table(223);
        assert(t[1] == 4 && t[2] == 5 && t[0] == 9);
        assert(coverage_laws(223));
    }
}

proof fn lemma_coverage_block_14(index: u8)
    requires
        224 <= index < 240,
    ensures
        coverage_laws(index),
{
    reveal(edge_table);
    reveal(triangulation_table);
    reveal(edge_crossed);
    if index == 224 {
        let t = triangulation_table(224);
        assert(t[0] == 4 && t[2] == 7 && t[4] == 9 && t[7] == 10 && t[1] == 11);
        assert(coverage_laws(224));
    } else if index == 225 {
        let t = triangulation_table(225);
        assert(t[0] == 0 && t[2] == 3 && t[3] == 4 && t[5] == 7 && t[1] == 8 && t[4] == 9 && t[10] == 10 && t[7] == 11);
        assert(coverage_laws(225));
    } else if index == 226 {
        let t = triangulation_table(226);
        assert(t[8] == 0 && t[0] == 1 && t[5] == 4 && t[9] == 7 && t[1] == 10 && t[2] == 11);
        assert(coverage_laws(226));
    } else if index == 227 {
        let t = triangulation_table(227);
        assert(t[1] == 1 && t[0] == 3 && t[2] == 4 && t[9] == 7 && t[5] == 8 && t[7] == 10 && t[11] == 11);
        assert(coverage_laws(227));
    } else if index == 228 {
        let t = triangulation_table(228);
        assert(t[10] == 1 && t[7] == 2 && t[0] == 4 && t[2] == 7 && t[3] == 9 && t[1] == 11);
        assert(coverage_laws(228));
    } else if index == 229 {
        let t = triangulation_table(229);
        assert(t[12] == 0 && t[7] == 1 && t[9] == 2 && t[14] == 3 && t[2] == 4 && t[1] == 7 && t[13] == 8 && t[0] == 9 && t[4] == 11);
        assert(coverage_laws(229));
    } else if index == 230 {
        let t = triangulation_table(230);
        assert(t[8] == 0 && t[5] == 2 && t[2] == 4 && t[1] == 7 && t[0] == 11);
        assert(coverage_laws(230));
    } else if index == 231 {
        let t = triangulation_table(231);
        assert(t[5] == 2 && t[7] == 3 && t[2] == 4 && t[1] == 7 && t[6] == 8 && t[0] == 11);
        assert(coverage_laws(231));
    } else if index == 232 {
        let t = triangulation_table(232);
        assert(t[0] == 2 && t[7] == 3 && t[10] == 4 && t[4] == 7 && t[1] == 9 && t[2] == 10);
        assert(coverage_laws(232));
    } else if index == 233 {
        let t = triangulation_table(233);
        assert(t[11] == 0 && t[7] == 2 && t[5] == 4 && t[2] == 7 && t[9] == 8 && t[0] == 9 && t[1] == 10);
        assert(coverage_laws(233));
    } else if index == 234 {
        let t = triangulation_table(234);
        assert(t[11] == 0 && t[9] == 1 && t[5] == 2 && t[0] == 3 && t[7] == 4 && t[1] == 7 && t[2] == 10);
        assert(coverage_laws(234));
    } else if index == 235 {
        let t = triangulation_table(235);
        assert(t[0] == 1 && t[2] == 2 && t[5] == 4 && t[4] == 7 && t[3] == 8 && t[1] == 10);
        assert(coverage_laws(235));
    } else if index == 236 {
        let t = triangulation_table(236);
        assert(t[2] == 1 && t[8] == 3 && t[0] == 4 && t[5] == 7 && t[1] == 9);
        assert(coverage_laws(236));
    } else if index == 237 {
        let t = triangulation_table(237);
        assert(t[6] == 0 && t[2] == 1 && t[0] == 4 && t[5] == 7 && t[7] == 8 && t[1] == 9);
        assert(coverage_laws(237));
    } else if index == 238 {
        let t = triangulation_table(238);
        assert(t[1] == 0 && t[2] == 3 && t[0] == 4 && t[3] == 7);
        assert(coverage_laws(238));
    } else {
        let t = triangulation_table(239);
        assert(t[0] == 4 && t[2] == 7 && t[1] == 8);
        assert(coverage_laws(239));
    }
}

proof fn lemma_coverage_block_15(index: u8)
    requires
        240 <= index < 256,
    ensures
        coverage_laws(index),
{
    reveal(edge_table);
    reveal(triangulation_table);
    reveal(edge_crossed);
    if index == 240 {
        let t = triangulation_table(240);
        assert(t[2] == 8 && t[0] == 9 && t[1] == 10 && t[4] == 11);
        assert(coverage_laws(240));
    } else if index == 241 {
        let t = triangulation_table(241);
        assert(t[1] == 0 && t[0] == 3 && t[2] == 9 && t[8] == 10 && t[5] == 11);
        assert(coverage_laws(241));
    } else if index == 242 {
        let t = triangulation_table(242);
        assert(t[0] == 0 && t[1] == 1 && t[5] == 8 && t[2] == 10 && t[8] == 11);
        assert(coverage_laws(242));
    } else if index == 243 {
        let t = triangulation_table(243);
        assert(t[1] == 1 && t[0] == 3 && t[2] == 10 && t[3] == 11);
        assert(coverage_laws(243));
    } else if index == 244 {
        let t = triangulation_table(244);
        assert(t[0] == 1 && t[1] == 2 && t[8] == 8 && t[5] == 9 && t[2] == 11);
        assert(coverage_laws(244));
    } else if index == 245 {
        let t = triangulation_table(245);
        assert(t[1] == 0 && t[6] == 1 && t[7] == 2 && t[0] == 3 && t[2] == 9 && t[5] == 11);
        assert(coverage_laws(245));
    } else if index == 246 {
        let t = triangulation_table(246);
        assert(t[0] == 0 && t[1] == 2 && t[3] == 8 && t[2] == 11);
        assert(coverage_laws(246));
    } else if index == 247 {
        let t = triangulation_table(247);
        assert(t[1] == 2 && t[0] == 3 && t[2] == 11);
        assert(coverage_laws(247));
    } else if index == 248 {
        let t = triangulation_table(248);
        assert(t[0] == 2 && t[1] == 3 && t[2] == 8 && t[8] == 9 && t[5] == 10);
        assert(coverage_laws(248));
    } else if index == 249 {
        let t = triangulation_table(249);
        assert(t[3] == 0 && t[2] == 2 && t[0] == 9 && t[1] == 10);
        assert(coverage_laws(249));
    } else if index == 250 {
        let t = triangulation_table(250);
        assert(t[6] == 0 && t[7] == 1 && t[0] == 2 && t[1] == 3 && t[2] == 8 && t[5] == 10);
        assert(coverage_laws(250));
    } else if index == 251 {
        let t = triangulation_table(251);
        assert(t[0] == 1 && t[2] == 2 && t[1] == 10);
        assert(coverage_laws(251));
    } else if index == 252 {
        let t = triangulation_table(252);
        assert(t[0] == 1 && t[1] == 3 && t[2] == 8 && t[3] == 9);
        assert(coverage_laws(252));
    } else if index == 253 {
        let t = triangulation_table(253);
        assert(t[0] == 0 && t[2] == 1 && t[1] == 9);
        assert(coverage_laws(253));
    } else if index == 254 {
        let t = triangulation_table(254);
        assert(t[0] == 0 && t[1] == 3 && t[2] == 8);
        assert(coverage_laws(254));
    } else {
        assert(coverage_laws(255));
    }
}

proof fn lemma_coverage_laws(index: u8)
    ensures
        coverage_laws(index),
{
    if index < 16 {
        lemma_coverage_block_0(index);
    } else if index < 32 {
        lemma_coverage_block_1(index);
    } else if index < 48 {
        lemma_coverage_block_2(index);
    } else if index < 64 {
        lemma_coverage_block_3(index);
    } else if index < 80 {
        lemma_coverage_block_4(index);
    } else if index < 96 {
        lemma_coverage_block_5(index);
    } else if index < 112 {
        lemma_coverage_block_6(index);
    } else if index < 128 {
        lemma_coverage_block_7(index);
    } else if index < 144 {
        lemma_coverage_block_8(index);
    } else if index < 160 {
        lemma_coverage_block_9(index);
    } else if index < 176 {
        lemma_coverage_block_10(index);
    } else if index < 192 {
        lemma_coverage_block_11(index);
    } else if index < 208 {
        lemma_coverage_block_12(index);
    } else if index < 224 {
        lemma_coverage_block_13(index);
    } else if index < 240 {
        lemma_coverage_block_14(index);
    } else {
        lemma_coverage_block_15(index);
    }
}

/// Law: every edge that a configuration crosses carries a vertex of one of its
/// triangles, so the triangles reach every place where the surface passes through the
/// cube's edges; and the three vertices of each triangle lie on three different edges.
pub proof fn lemma_triangulation_covers_crossed_edges(index: u8)
    ensures
        forall|e: u8|
            e < 12 && #[trigger] edge_crossed(edge_table(index), e) ==> uses_edge(
                triangulation_table(index),
                e,
            ),
        forall|m: int|
            0 <= m < triangulation_table(index).len() / 3 ==> #[trigger] triangle_edges_distinct(
                triangulation_table(index),
                m,
            ),
{
    lemma_coverage_laws(index);
    assert forall|e: u8| e < 12 && #[trigger] edge_crossed(edge_table(index), e) implies uses_edge(
        triangulation_table(index),
        e,
    ) by {
        assert(e == 0 || e == 1 || e == 2 || e == 3 || e == 4 || e == 5 || e == 6 || e == 7 || e == 8
            || e == 9 || e == 10 || e == 11);
    }
}

/// Law: the edge table marks exactly the edges whose two corners lie on opposite sides
/// of the iso level.
pub proof fn lemma_edge_table_marks_crossings(index: u8, edge: u8)
    requires
        edge < 12,
    ensures
        edge_law_at(index, edge),
{
    lemma_table_laws(index);
}

/// Law: every triangle of a configuration has its three vertices on edges that the
/// configuration crosses, the list is made of whole triangles, and it is empty exactly
/// when the configuration crosses no edge.
pub proof fn lemma_triangulation_uses_crossed_edges(index: u8)
    ensures
        triangulation_law(index),
{
    lemma_table_laws(index);
}

/// Law: swapping inside and outside (complementing the configuration) crosses the same
/// edges.
pub proof fn lemma_edge_table_complement(index: u8)
    ensures
        edge_table(index) == edge_table((255 - index) as u8),
{
    lemma_table_laws(index);
}

} // verus!
