//! Marching cubes over a grid of corner samples: the triangles of one cube, of a whole
//! chunk, and the vertex, index and normal buffers of the chunk's mesh.
//!
//! Corner positions are integers in half units: a value `v` stands for the coordinate
//! `v / 2`, so the corners of the unit cubes, at half-integer coordinates, are whole
//! numbers. Vertices are in quarter units, where the midpoint of any two corners is a
//! whole number: the sum of their half-unit coordinates.
pub mod tables;

use vstd::prelude::*;
use vstd::arithmetic::power2::{pow2, lemma2_to64};
use vstd::bits::{lemma_u8_shl_is_mul, lemma_u16_shr_is_div};
use crate::marching_cube::tables::{
    bit_weight, corner_set, edge_crossed, edge_corner_pair, edge_endpoints, edge_table, edge_lookup,
    triangulation_table, triangulation_lookup, triangulation_law,
    lemma_triangulation_uses_crossed_edges, lemma_edge_table_marks_crossings,
    lemma_triangulation_covers_crossed_edges,
};

verus! {

/// A position in half units.
#[derive(Clone, Copy, Debug, PartialEq, Eq)]
pub struct Point {
    pub x: i32,
    pub y: i32,
    pub z: i32,
}

/// A vertex position in quarter units: a value `v` stands for the coordinate `v / 4`.
#[derive(Clone, Copy, Debug, PartialEq, Eq)]
pub struct Vertex {
    pub x: i64,
    pub y: i64,
    pub z: i64,
}

/// A triangle of the surface, by its three vertices.
#[derive(Clone, Copy, Debug, PartialEq, Eq)]
pub struct Triangle {
    pub a: Vertex,
    pub b: Vertex,
    pub c: Vertex,
}

/// The midpoint of `p` and `q`, in quarter units: the sums of their half-unit coordinates.
pub open spec fn midpoint(p: Point, q: Point) -> Vertex {
    Vertex { x: (p.x + q.x) as i64, y: (p.y + q.y) as i64, z: (p.z + q.z) as i64 }
}

/// The below-iso flags of a cube's eight corners.
pub open spec fn corner_flags(cell: Seq<(Point, bool)>) -> Seq<bool> {
    cell.map_values(|corner: (Point, bool)| corner.1)
}

/// The sum of `2^c` over the corners `c < n` that are flagged.
pub open spec fn partial_cube_index(flags: Seq<bool>, n: nat) -> int
    decreases n,
{
    if n == 0 {
        0
    } else {
        partial_cube_index(flags, (n - 1) as nat) + if flags[n - 1] {
            bit_weight((n - 1) as u8)
        } else {
            0
        }
    }
}

/// The corner configuration of a cube: bit `c` is set when corner `c` is flagged.
pub open spec fn cube_index(flags: Seq<bool>) -> u8 {
    partial_cube_index(flags, 8) as u8
}

/// The vertex that a cube places on edge `edge`: the midpoint of the edge's corners.
pub open spec fn edge_vertex(cell: Seq<(Point, bool)>, edge: u8) -> Vertex {
    midpoint(cell[edge_corner_pair(edge).0 as int].0, cell[edge_corner_pair(edge).1 as int].0)
}

/// Triangle `m` of a cube, given the cube's triangle list `edges`.
pub open spec fn cube_triangle(cell: Seq<(Point, bool)>, edges: Seq<u8>, m: int) -> Triangle {
    Triangle {
        a: edge_vertex(cell, edges[3 * m]),
        b: edge_vertex(cell, edges[3 * m + 1]),
        c: edge_vertex(cell, edges[3 * m + 2]),
    }
}

/// The triangles of the iso surface inside one cube.
pub open spec fn cube_triangles(cell: Seq<(Point, bool)>) -> Seq<Triangle> {
    let edges = triangulation_table(cube_index(corner_flags(cell)));
    Seq::new(edges.len() / 3, |m: int| cube_triangle(cell, edges, m))
}

proof fn lemma_pow2_is_bit_weight(k: u8)
    requires
        k < 16,
    ensures
        pow2(k as nat) == bit_weight(k),
{
    lemma2_to64();
}

proof fn lemma_fresh_bit(x: u8, i: u8)
    requires
        i < 8,
        (x as int) < bit_weight(i),
    ensures
        (x | (1u8 << i)) as int == x + bit_weight(i),
{
    lemma_pow2_is_bit_weight(i);
    lemma2_to64();
    lemma_u8_shl_is_mul(1, i);
    assert(x | (1u8 << i) == x + (1u8 << i)) by (bit_vector)
        requires
            i < 8,
            x < (1u8 << i),
    ;
}

proof fn lemma_edge_bit(mask: u16, v: u8)
    requires
        v < 12,
    ensures
        ((mask & (1u16 << v)) > 0) == edge_crossed(mask, v),
{
    reveal(edge_crossed);
    assert(((mask & (1u16 << v)) > 0) == ((mask >> v) % 2 == 1)) by (bit_vector)
        requires
            v < 12,
    ;
    lemma_u16_shr_is_div(mask, v as u16);
    assert((mask >> v) == (mask >> (v as u16))) by (bit_vector);
    lemma_pow2_is_bit_weight(v);
}

/// The vertex on the edge from `a` to `b`: their exact midpoint. The samples' values play
/// no part in where the vertex goes, and the result does not depend on the order of `a`
/// and `b`.
pub fn interpolate(a: &(Point, bool), b: &(Point, bool)) -> (v: Vertex)
    ensures
        v == midpoint(a.0, b.0),
        v == midpoint(b.0, a.0),
{
    Vertex {
        x: a.0.x as i64 + b.0.x as i64,
        y: a.0.y as i64 + b.0.y as i64,
        z: a.0.z as i64 + b.0.z as i64,
    }
}

/// The triangles of the iso surface in one cube, from its eight corners and, for each, whether
/// its sample lies below the iso level.
pub fn calculate_single_cube_polygons(point_map: &[(Point, bool); 8]) -> (triangles: Vec<Triangle>)
    ensures
        triangles@ == cube_triangles(point_map@),
{
    let ghost cell = point_map@;
    let ghost flags = corner_flags(cell);
    let mut idx: u8 = 0;
    let mut i: u8 = 0;
    while i < 8
        invariant
            i <= 8,
            cell == point_map@,
            flags == corner_flags(cell),
            idx as int == partial_cube_index(flags, i as nat),
            (idx as int) < bit_weight(i),
        decreases 8 - i,
    {
        if point_map[i as usize].1 {
            proof {
                lemma_fresh_bit(idx, i);
            }
            idx = idx | (1u8 << i);
        }
        i = i + 1;
    }
    assert(idx == cube_index(flags));
    let edge = edge_lookup(idx);
    let edges = triangulation_lookup(idx);
    proof {
        lemma_triangulation_uses_crossed_edges(idx);
    }
    if edge == 0 {
        assert(cube_triangles(cell) =~= Seq::<Triangle>::empty());
        return Vec::new();
    }
    let mut vertex_list: Vec<Option<Vertex>> = Vec::new();
    let mut v: u8 = 0;
    while v < 12
        invariant
            v <= 12,
            cell == point_map@,
            vertex_list@.len() == v,
            forall|e: int|
                0 <= e < v ==> #[trigger] vertex_list@[e] == if edge_crossed(edge, e as u8) {
                    Some(edge_vertex(cell, e as u8))
                } else {
                    None::<Vertex>
                },
        decreases 12 - v,
    {
        proof {
            lemma_edge_bit(edge, v);
        }
        if edge & (1u16 << v) > 0 {
            let (a, b) = edge_endpoints(v);
            vertex_list.push(Some(interpolate(&point_map[a], &point_map[b])));
        } else {
            vertex_list.push(None);
        }
        v = v + 1;
    }
    let mut triangles: Vec<Triangle> = Vec::new();
    let mut k: usize = 0;
    while k < edges.len()
        invariant
            cell == point_map@,
            edges@ == triangulation_table(idx),
            edge == edge_table(idx),
            triangulation_law(idx),
            k % 3 == 0,
            k <= edges@.len(),
            vertex_list@.len() == 12,
            forall|e: int|
                0 <= e < 12 ==> #[trigger] vertex_list@[e] == if edge_crossed(edge, e as u8) {
                    Some(edge_vertex(cell, e as u8))
                } else {
                    None::<Vertex>
                },
            triangles@.len() == k / 3,
            forall|m: int| 0 <= m < k / 3 ==> #[trigger] triangles@[m] == cube_triangle(cell, edges@, m),
        decreases edges@.len() - k,
    {
        assert(edges@[k as int] < 12 && edge_crossed(edge, edges@[k as int]));
        assert(edges@[k + 1] < 12 && edge_crossed(edge, edges@[k + 1]));
        assert(edges@[k + 2] < 12 && edge_crossed(edge, edges@[k + 2]));
        let a = vertex_list[edges[k] as usize].unwrap();
        let b = vertex_list[edges[k + 1] as usize].unwrap();
        let c = vertex_list[edges[k + 2] as usize].unwrap();
        triangles.push(Triangle { a, b, c });
        k = k + 3;
    }
    assert(triangles@ =~= cube_triangles(cell));
    triangles
}

/// Offset of corner `corner` from the lower corner of its cube, in whole grid steps
/// (0 or 1 along each axis).
pub open spec fn corner_offset(corner: int) -> (int, int, int) {
    if corner == 0 {
        (0, 0, 0)
    } else if corner == 1 {
        (1, 0, 0)
    } else if corner == 2 {
        (1, 0, 1)
    } else if corner == 3 {
        (0, 0, 1)
    } else if corner == 4 {
        (0, 1, 0)
    } else if corner == 5 {
        (1, 1, 0)
    } else if corner == 6 {
        (1, 1, 1)
    } else {
        (0, 1, 1)
    }
}

/// Number of corner samples of a chunk with `size` cubes along each axis.
pub open spec fn corner_count(size: int) -> int {
    (size + 1) * (size + 1) * (size + 1)
}

/// Position of the sample of corner `(i, j, k)` in the flat sample grid, `k` varying
/// fastest.
pub open spec fn sample_index(size: int, i: int, j: int, k: int) -> int {
    (i * (size + 1) + j) * (size + 1) + k
}

/// The corner of grid point `(i, j, k)` in half units: the grid point sits half a step
/// below it on every axis.
pub open spec fn grid_corner(i: int, j: int, k: int) -> Point {
    Point { x: (2 * i - 1) as i32, y: (2 * j - 1) as i32, z: (2 * k - 1) as i32 }
}

/// The eight corners of cube `(x, y, z)` with their below-iso samples.
pub open spec fn cell_points(size: int, below: Seq<bool>, x: int, y: int, z: int) -> Seq<
    (Point, bool),
> {
    Seq::new(
        8,
        |c: int|
            {
                let (ox, oy, oz) = corner_offset(c);
                (
                    grid_corner(x + ox, y + oy, z + oz),
                    below[sample_index(size, x + ox, y + oy, z + oz)],
                )
            },
    )
}

/// Triangles of the cubes `(x, y, 0)` to `(x, y, count - 1)`, in that order.
pub open spec fn row_triangles(size: int, below: Seq<bool>, x: int, y: int, count: nat) -> Seq<
    Triangle,
>
    decreases count,
{
    if count == 0 {
        Seq::empty()
    } else {
        row_triangles(size, below, x, y, (count - 1) as nat) + cube_triangles(
            cell_points(size, below, x, y, count - 1),
        )
    }
}

/// Triangles of the rows `(x, 0)` to `(x, count - 1)`, in that order.
pub open spec fn layer_triangles(size: int, below: Seq<bool>, x: int, count: nat) -> Seq<Triangle>
    decreases count,
{
    if count == 0 {
        Seq::empty()
    } else {
        layer_triangles(size, below, x, (count - 1) as nat) + row_triangles(
            size,
            below,
            x,
            count - 1,
            size as nat,
        )
    }
}

/// Triangles of the layers `0` to `count - 1`, in that order.
pub open spec fn block_triangles(size: int, below: Seq<bool>, count: nat) -> Seq<Triangle>
    decreases count,
{
    if count == 0 {
        Seq::empty()
    } else {
        block_triangles(size, below, (count - 1) as nat) + layer_triangles(
            size,
            below,
            count - 1,
            size as nat,
        )
    }
}

/// All triangles of a chunk of `size` cubes per axis, cube by cube with `z` varying
/// fastest and `x` slowest.
pub open spec fn chunk_triangles(size: int, below: Seq<bool>) -> Seq<Triangle> {
    block_triangles(size, below, size as nat)
}

proof fn lemma_sample_index_bounds(size: int, i: int, j: int, k: int)
    requires
        0 <= size,
        0 <= i <= size,
        0 <= j <= size,
        0 <= k <= size,
    ensures
        0 <= sample_index(size, i, j, k) < corner_count(size),
        0 <= i * (size + 1) <= i * (size + 1) + j <= (size + 1) * (size + 1),
        0 <= (i * (size + 1) + j) * (size + 1) <= sample_index(size, i, j, k),
        (size + 1) * (size + 1) <= corner_count(size),
{
    assert((size + 1) * (size + 1) <= (size + 1) * (size + 1) * (size + 1)) by (nonlinear_arith)
        requires
            0 <= size,
    ;
    assert(0 <= i * (size + 1)) by (nonlinear_arith)
        requires
            0 <= size,
            0 <= i,
    ;
    assert(0 <= (i * (size + 1) + j) * (size + 1)) by (nonlinear_arith)
        requires
            0 <= size,
            0 <= i * (size + 1) + j,
    ;
    assert(0 <= sample_index(size, i, j, k) < corner_count(size)) by (nonlinear_arith)
        requires
            0 <= size,
            0 <= i <= size,
            0 <= j <= size,
            0 <= k <= size,
    ;
    assert(0 <= i * (size + 1) + j <= (size + 1) * (size + 1)) by (nonlinear_arith)
        requires
            0 <= size,
            0 <= i <= size,
            0 <= j <= size,
    ;
}

/// The corner `(i, j, k)` of the grid and its sample.
fn grid_sample(below: &Vec<bool>, size: usize, i: usize, j: usize, k: usize) -> (s: (Point, bool))
    requires
        size < 0x4000_0000,
        below@.len() == corner_count(size as int),
        i <= size,
        j <= size,
        k <= size,
    ensures
        s == (grid_corner(i as int, j as int, k as int), below@[sample_index(size as int, i as int, j as int, k as int)]),
{
    proof {
        lemma_sample_index_bounds(size as int, i as int, j as int, k as int);
    }
    let total = below.len();
    assert(total == corner_count(size as int));
    let m = size + 1;
    let index = (i * m + j) * m + k;
    let p = Point {
        x: (2 * i as i64 - 1) as i32,
        y: (2 * j as i64 - 1) as i32,
        z: (2 * k as i64 - 1) as i32,
    };
    (p, below[index])
}

/// The eight corners of cube `(x, y, z)` of a chunk, with their samples, in corner order.
fn cell_corners(below: &Vec<bool>, size: usize, x: usize, y: usize, z: usize) -> (cell: [(Point, bool); 8])
    requires
        size < 0x4000_0000,
        below@.len() == corner_count(size as int),
        x < size,
        y < size,
        z < size,
    ensures
        cell@ == cell_points(size as int, below@, x as int, y as int, z as int),
{
    let cell = [
        grid_sample(below, size, x, y, z),
        grid_sample(below, size, x + 1, y, z),
        grid_sample(below, size, x + 1, y, z + 1),
        grid_sample(below, size, x, y, z + 1),
        grid_sample(below, size, x, y + 1, z),
        grid_sample(below, size, x + 1, y + 1, z),
        grid_sample(below, size, x + 1, y + 1, z + 1),
        grid_sample(below, size, x, y + 1, z + 1),
    ];
    assert(cell@ =~= cell_points(size as int, below@, x as int, y as int, z as int));
    cell
}

proof fn lemma_scaled_coordinate(c: int, s: int)
    requires
        -0x8000_0000 <= c < 0x8000_0000,
        0 <= s < 0x1_0000_0000,
    ensures
        -0x8000_0000_0000_0000 <= c * s < 0x8000_0000_0000_0000,
{
    assert(-0x8000_0000 * 0x1_0000_0000 <= c * s <= 0x7fff_ffff * 0xffff_ffff) by (nonlinear_arith)
        requires
            -0x8000_0000 <= c < 0x8000_0000,
            0 <= s < 0x1_0000_0000,
    ;
}

/// An unnormalised surface normal, in square quarter units.
#[derive(Clone, Copy, Debug, PartialEq, Eq)]
pub struct Normal {
    pub x: i64,
    pub y: i64,
    pub z: i64,
}

/// The buffers of a chunk's mesh: one position and one normal per vertex, and the index
/// list of its triangles.
pub struct ChunkMesh {
    pub positions: Vec<Vertex>,
    pub normals: Vec<Normal>,
    pub indices: Vec<u32>,
}

/// Vertex `j` (0, 1 or 2) of triangle `t`.
pub open spec fn triangle_vertex(t: Triangle, j: int) -> Vertex {
    if j == 0 {
        t.a
    } else if j == 1 {
        t.b
    } else {
        t.c
    }
}

/// The vertices of the triangles in order, three per triangle.
pub open spec fn flattened_positions(triangles: Seq<Triangle>) -> Seq<Vertex> {
    Seq::new(3 * triangles.len(), |i: int| triangle_vertex(triangles[i / 3], i % 3))
}

/// The indices `0, 1, ..., count - 1`.
pub open spec fn sequential_index_list(count: nat) -> Seq<u32> {
    Seq::new(count, |i: int| i as u32)
}

/// The cross product `(q - p) x (r - p)`: a normal of triangle `p q r`, of length twice
/// its area.
pub open spec fn face_normal(p: Vertex, q: Vertex, r: Vertex) -> Normal {
    let (ux, uy, uz) = (q.x - p.x, q.y - p.y, q.z - p.z);
    let (vx, vy, vz) = (r.x - p.x, r.y - p.y, r.z - p.z);
    Normal {
        x: (uy * vz - uz * vy) as i64,
        y: (uz * vx - ux * vz) as i64,
        z: (ux * vy - uy * vx) as i64,
    }
}

/// The normal of triangle `t` of an indexed mesh.
pub open spec fn indexed_face_normal(positions: Seq<Vertex>, indices: Seq<u32>, t: int) -> Normal {
    face_normal(
        positions[indices[3 * t] as int],
        positions[indices[3 * t + 1] as int],
        positions[indices[3 * t + 2] as int],
    )
}

/// One normal per index: each vertex of a triangle gets the triangle's normal.
pub open spec fn indexed_normals(positions: Seq<Vertex>, indices: Seq<u32>) -> Seq<Normal> {
    Seq::new(indices.len(), |i: int| indexed_face_normal(positions, indices, i / 3))
}

/// Whether every coordinate of `p` lies within `bound` of zero.
pub open spec fn vertex_within(p: Vertex, bound: int) -> bool {
    -bound <= p.x <= bound && -bound <= p.y <= bound && -bound <= p.z <= bound
}

/// The mesh of a list of triangles: positions three per triangle, indices counting up
/// from zero, and per-vertex face normals.
pub open spec fn mesh_of(triangles: Seq<Triangle>) -> (Seq<Vertex>, Seq<Normal>, Seq<u32>) {
    let positions = flattened_positions(triangles);
    let indices = sequential_index_list(positions.len());
    (positions, indexed_normals(positions, indices), indices)
}

/// The vertex buffer of a triangle list, three vertices per triangle.
pub fn positions_from_triangles(triangles: &Vec<Triangle>) -> (positions: Vec<Vertex>)
    requires
        3 * triangles@.len() <= usize::MAX,
    ensures
        positions@ == flattened_positions(triangles@),
{
    let mut positions: Vec<Vertex> = Vec::new();
    let mut t: usize = 0;
    while t < triangles.len()
        invariant
            3 * triangles@.len() <= usize::MAX,
            t <= triangles@.len(),
            positions@.len() == 3 * t,
            forall|i: int|
                0 <= i < 3 * t ==> #[trigger] positions@[i] == triangle_vertex(
                    triangles@[i / 3],
                    i % 3,
                ),
        decreases triangles@.len() - t,
    {
        let triangle = triangles[t];
        positions.push(triangle.a);
        positions.push(triangle.b);
        positions.push(triangle.c);
        t = t + 1;
    }
    assert(positions@ =~= flattened_positions(triangles@));
    positions
}

/// The index buffer `0, 1, ..., count - 1`.
pub fn sequential_indices(count: usize) -> (indices: Vec<u32>)
    requires
        count <= 0x1_0000_0000,
    ensures
        indices@ == sequential_index_list(count as nat),
{
    let mut indices: Vec<u32> = Vec::new();
    let mut i: usize = 0;
    while i < count
        invariant
            count <= 0x1_0000_0000,
            i <= count,
            indices@.len() == i,
            forall|j: int| 0 <= j < i ==> #[trigger] indices@[j] == j as u32,
        decreases count - i,
    {
        indices.push(i as u32);
        i = i + 1;
    }
    assert(indices@ =~= sequential_index_list(count as nat));
    indices
}

fn triangle_normal(p: Vertex, q: Vertex, r: Vertex) -> (n: Normal)
    requires
        vertex_within(p, 0x3fff_ffff),
        vertex_within(q, 0x3fff_ffff),
        vertex_within(r, 0x3fff_ffff),
    ensures
        n == face_normal(p, q, r),
{
    let ux = q.x - p.x;
    let uy = q.y - p.y;
    let uz = q.z - p.z;
    let vx = r.x - p.x;
    let vy = r.y - p.y;
    let vz = r.z - p.z;
    proof {
        lemma_cross_term_bounds(uy, vz, uz, vy);
        lemma_cross_term_bounds(uz, vx, ux, vz);
        lemma_cross_term_bounds(ux, vy, uy, vx);
    }
    Normal { x: uy * vz - uz * vy, y: uz * vx - ux * vz, z: ux * vy - uy * vx }
}

proof fn lemma_product_bound(a: int, b: int, m: int)
    by (nonlinear_arith)
    requires
        0 <= m,
        -m <= a <= m,
        -m <= b <= m,
    ensures
        -(m * m) <= a * b <= m * m,
{
}

proof fn lemma_cross_term_bounds(a: i64, b: i64, c: i64, d: i64)
    requires
        -0x7fff_fffe <= a <= 0x7fff_fffe,
        -0x7fff_fffe <= b <= 0x7fff_fffe,
        -0x7fff_fffe <= c <= 0x7fff_fffe,
        -0x7fff_fffe <= d <= 0x7fff_fffe,
    ensures
        -0x3fff_fffe_0000_0004 <= a * b <= 0x3fff_fffe_0000_0004,
        -0x3fff_fffe_0000_0004 <= c * d <= 0x3fff_fffe_0000_0004,
{
    lemma_product_bound(a as int, b as int, 0x7fff_fffe);
    lemma_product_bound(c as int, d as int, 0x7fff_fffe);
}

/// The normal buffer of an indexed triangle mesh: every vertex of a triangle gets the
/// cross product of the triangle's edges.
pub fn face_normals(positions: &Vec<Vertex>, indices: &Vec<u32>) -> (normals: Vec<Normal>)
    requires
        indices@.len() % 3 == 0,
        forall|i: int| 0 <= i < indices@.len() ==> (#[trigger] indices@[i] as int) < positions@.len(),
        forall|i: int| 0 <= i < positions@.len() ==> vertex_within(#[trigger] positions@[i], 0x3fff_ffff),
    ensures
        normals@ == indexed_normals(positions@, indices@),
{
    let mut normals: Vec<Normal> = Vec::new();
    let mut k: usize = 0;
    while k < indices.len()
        invariant
            indices@.len() % 3 == 0,
            forall|i: int| 0 <= i < indices@.len() ==> (#[trigger] indices@[i] as int) < positions@.len(),
            forall|i: int| 0 <= i < positions@.len() ==> vertex_within(#[trigger] positions@[i], 0x3fff_ffff),
            k % 3 == 0,
            k <= indices@.len(),
            normals@.len() == k,
            forall|i: int|
                0 <= i < k ==> #[trigger] normals@[i] == indexed_face_normal(positions@, indices@, i / 3),
        decreases indices@.len() - k,
    {
        let p = positions[indices[k] as usize];
        let q = positions[indices[k + 1] as usize];
        let r = positions[indices[k + 2] as usize];
        let n = triangle_normal(p, q, r);
        assert(n == indexed_face_normal(positions@, indices@, (k / 3) as int));
        normals.push(n);
        normals.push(n);
        normals.push(n);
        k = k + 3;
    }
    assert(normals@ =~= indexed_normals(positions@, indices@));
    normals
}

/// Every vertex of every triangle in `ts` lies within `bound` of zero.
pub open spec fn triangles_within(ts: Seq<Triangle>, bound: int) -> bool {
    forall|i: int|
        0 <= i < ts.len() ==> vertex_within(#[trigger] ts[i].a, bound) && vertex_within(ts[i].b, bound)
            && vertex_within(ts[i].c, bound)
}

proof fn lemma_cube_triangles_bounded(size: int, below: Seq<bool>, x: int, y: int, z: int)
    requires
        0 <= x < size,
        0 <= y < size,
        0 <= z < size,
        size < 0x2000_0000,
    ensures
        cube_triangles(cell_points(size, below, x, y, z)).len() <= 5,
        triangles_within(cube_triangles(cell_points(size, below, x, y, z)), 4 * size + 2),
{
    let cell = cell_points(size, below, x, y, z);
    let index = cube_index(corner_flags(cell));
    lemma_triangulation_uses_crossed_edges(index);
    let edges = triangulation_table(index);
    let ts = cube_triangles(cell);
    assert forall|e: u8| edge_corner_pair(e).0 < 8 && edge_corner_pair(e).1 < 8 by {}
    assert forall|c: int| 0 <= c < 8 implies -1 <= (#[trigger] cell[c]).0.x <= 2 * size + 1 && -1
        <= cell[c].0.y <= 2 * size + 1 && -1 <= cell[c].0.z <= 2 * size + 1 by {}
    assert forall|i: int| 0 <= i < ts.len() implies vertex_within(#[trigger] ts[i].a, 4 * size + 2)
        && vertex_within(ts[i].b, 4 * size + 2) && vertex_within(ts[i].c, 4 * size + 2) by {
        assert(edges[3 * i] < 12);
    }
}

proof fn lemma_row_bounded(size: int, below: Seq<bool>, x: int, y: int, count: nat)
    requires
        0 <= x < size,
        0 <= y < size,
        count <= size,
        size < 0x2000_0000,
    ensures
        row_triangles(size, below, x, y, count).len() <= 5 * count,
        triangles_within(row_triangles(size, below, x, y, count), 4 * size + 2),
    decreases count,
{
    if count > 0 {
        lemma_row_bounded(size, below, x, y, (count - 1) as nat);
        lemma_cube_triangles_bounded(size, below, x, y, count - 1);
        lemma_concat_within(
            row_triangles(size, below, x, y, (count - 1) as nat),
            cube_triangles(cell_points(size, below, x, y, count - 1)),
            4 * size + 2,
        );
    }
}

proof fn lemma_concat_within(a: Seq<Triangle>, b: Seq<Triangle>, bound: int)
    requires
        triangles_within(a, bound),
        triangles_within(b, bound),
    ensures
        triangles_within(a + b, bound),
{
    assert forall|i: int| 0 <= i < (a + b).len() implies vertex_within(#[trigger] (a + b)[i].a, bound)
        && vertex_within((a + b)[i].b, bound) && vertex_within((a + b)[i].c, bound) by {
        if i < a.len() {
            assert((a + b)[i] == a[i]);
            assert(vertex_within(a[i].a, bound));
        } else {
            assert((a + b)[i] == b[i - a.len()]);
            assert(vertex_within(b[i - a.len()].a, bound));
        }
    }
}

proof fn lemma_layer_bounded(size: int, below: Seq<bool>, x: int, count: nat)
    requires
        0 <= x < size,
        count <= size,
        size < 0x2000_0000,
    ensures
        layer_triangles(size, below, x, count).len() <= 5 * size * count,
        triangles_within(layer_triangles(size, below, x, count), 4 * size + 2),
    decreases count,
{
    if count > 0 {
        lemma_layer_bounded(size, below, x, (count - 1) as nat);
        lemma_row_bounded(size, below, x, count - 1, size as nat);
        lemma_concat_within(
            layer_triangles(size, below, x, (count - 1) as nat),
            row_triangles(size, below, x, count - 1, size as nat),
            4 * size + 2,
        );
        assert(5 * size * (count - 1) + 5 * size == 5 * size * count) by (nonlinear_arith);
    }
}

proof fn lemma_block_bounded(size: int, below: Seq<bool>, count: nat)
    requires
        count <= size,
        size < 0x2000_0000,
    ensures
        block_triangles(size, below, count).len() <= 5 * size * size * count,
        triangles_within(block_triangles(size, below, count), 4 * size + 2),
    decreases count,
{
    if count > 0 {
        lemma_block_bounded(size, below, (count - 1) as nat);
        lemma_layer_bounded(size, below, count - 1, size as nat);
        lemma_concat_within(
            block_triangles(size, below, (count - 1) as nat),
            layer_triangles(size, below, count - 1, size as nat),
            4 * size + 2,
        );
        assert(5 * size * size * (count - 1) + 5 * size * size == 5 * size * size * count)
            by (nonlinear_arith);
    }
}

/// Law: a chunk has at most five triangles per cube, and every vertex lies within the
/// chunk's corner grid, so within `4 * size + 2` quarter units of zero on each axis.
pub proof fn lemma_chunk_triangles_bounded(size: int, below: Seq<bool>)
    requires
        0 <= size < 0x2000_0000,
    ensures
        chunk_triangles(size, below).len() <= 5 * size * size * size,
        triangles_within(chunk_triangles(size, below), 4 * size + 2),
{
    lemma_block_bounded(size, below, size as nat);
}

/// Law: bit `c` of a cube's configuration is set exactly when corner `c` is flagged.
pub proof fn lemma_cube_index_bits(flags: Seq<bool>, c: u8)
    requires
        flags.len() == 8,
        c < 8,
    ensures
        corner_set(cube_index(flags), c) == flags[c as int],
{
    reveal(corner_set);
    reveal_with_fuel(partial_cube_index, 9);
    let s = partial_cube_index(flags, 8);
    assert(0 <= s < 256);
    assert(cube_index(flags) as int == s);
}

/// Law: every vertex of every triangle a cube produces is the vertex of one of the cube's
/// edges whose two corners lie on opposite sides of the iso level.
pub proof fn lemma_cube_vertices_on_crossed_edges(cell: Seq<(Point, bool)>, m: int, j: int)
    requires
        cell.len() == 8,
        0 <= m < cube_triangles(cell).len(),
        0 <= j < 3,
    ensures
        exists|e: u8|
            e < 12 && triangle_vertex(cube_triangles(cell)[m], j) == edge_vertex(cell, e)
                && corner_flags(cell)[edge_corner_pair(e).0 as int] != corner_flags(
                cell,
            )[edge_corner_pair(e).1 as int],
{
    let flags = corner_flags(cell);
    let index = cube_index(flags);
    let edges = triangulation_table(index);
    lemma_triangulation_uses_crossed_edges(index);
    let e = edges[3 * m + j];
    assert(e < 12 && edge_crossed(edge_table(index), e));
    lemma_edge_table_marks_crossings(index, e);
    assert(edge_corner_pair(e).0 < 8 && edge_corner_pair(e).1 < 8);
    lemma_cube_index_bits(flags, edge_corner_pair(e).0);
    lemma_cube_index_bits(flags, edge_corner_pair(e).1);
    assert(triangle_vertex(cube_triangles(cell)[m], j) == edge_vertex(cell, e));
}

/// Law: the triangles of any cube leave no hole: every edge whose two corners lie on
/// opposite sides of the iso level carries a vertex of one of the cube's triangles, at
/// the edge's midpoint.
pub proof fn lemma_cube_triangles_reach_crossed_edges(cell: Seq<(Point, bool)>, e: u8)
    requires
        cell.len() == 8,
        e < 12,
        cell[edge_corner_pair(e).0 as int].1 != cell[edge_corner_pair(e).1 as int].1,
    ensures
        exists|m: int, j: int|
            0 <= m < cube_triangles(cell).len() && 0 <= j < 3 && #[trigger] triangle_vertex(
                cube_triangles(cell)[m],
                j,
            ) == midpoint(cell[edge_corner_pair(e).0 as int].0, cell[edge_corner_pair(e).1 as int].0),
{
    let flags = corner_flags(cell);
    let index = cube_index(flags);
    let edges = triangulation_table(index);
    assert(edge_corner_pair(e).0 < 8 && edge_corner_pair(e).1 < 8);
    lemma_cube_index_bits(flags, edge_corner_pair(e).0);
    lemma_cube_index_bits(flags, edge_corner_pair(e).1);
    lemma_edge_table_marks_crossings(index, e);
    lemma_triangulation_uses_crossed_edges(index);
    lemma_triangulation_covers_crossed_edges(index);
    assert(edge_crossed(edge_table(index), e));
    let k = choose|k: int| 0 <= k < edges.len() && edges[k] == e;
    let m = k / 3;
    let j = k % 3;
    assert(3 * m + j == k);
    let ts = cube_triangles(cell);
    assert(ts[m] == cube_triangle(cell, edges, m));
    assert(triangle_vertex(ts[m], j) == edge_vertex(cell, edges[k]));
}

/// A grid whose corner samples all fit in memory is less than `2^22` cubes wide.
proof fn lemma_grid_size_bound(size: int, samples: usize)
    requires
        0 <= size,
        corner_count(size) == samples,
    ensures
        size < 0x40_0000,
{
    let m = size + 1;
    assert(size < 0x40_0000) by (nonlinear_arith)
        requires
            m == size + 1,
            0 <= size,
            m * m * m <= 0xffff_ffff_ffff_ffff,
    {
        if m >= 0x40_0000 {
            assert(m * m >= 0x40_0000 * 0x40_0000);
            assert(m * m * m >= 0x40_0000 * 0x40_0000 * 0x40_0000);
        }
    }
}

/// A chunk of terrain: `size` cubes along each axis, placed at `coords` in units of whole
/// chunks.
pub struct TerrainChunk {
    pub coords: (i32, i32, i32),
    pub size: u32,
}

impl TerrainChunk {
    /// The position of the chunk's origin: its coordinates times its size.
    pub fn origin(&self) -> (o: (i64, i64, i64))
        ensures
            o.0 == self.coords.0 * self.size,
            o.1 == self.coords.1 * self.size,
            o.2 == self.coords.2 * self.size,
    {
        let s = self.size as i64;
        proof {
            lemma_scaled_coordinate(self.coords.0 as int, s as int);
            lemma_scaled_coordinate(self.coords.1 as int, s as int);
            lemma_scaled_coordinate(self.coords.2 as int, s as int);
        }
        (self.coords.0 as i64 * s, self.coords.1 as i64 * s, self.coords.2 as i64 * s)
    }

    /// The triangles of the chunk's iso surface, from the below-iso samples of its
    /// `(size + 1)^3` grid corners.
    pub fn mesh_triangles(&self, below: &Vec<bool>) -> (triangles: Vec<Triangle>)
        requires
            below@.len() == corner_count(self.size as int),
        ensures
            triangles@ == chunk_triangles(self.size as int, below@),
    {
        let samples = below.len();
        proof {
            lemma_grid_size_bound(self.size as int, samples);
        }
        let n = self.size as usize;
        let ghost size = n as int;
        let mut triangles: Vec<Triangle> = Vec::new();
        let mut x: usize = 0;
        while x < n
            invariant
                n == self.size,
                size == n,
                n < 0x4000_0000,
                below@.len() == corner_count(size),
                x <= n,
                triangles@ == block_triangles(size, below@, x as nat),
            decreases n - x,
        {
            let mut y: usize = 0;
            while y < n
                invariant
                    n == self.size,
                    size == n,
                    n < 0x4000_0000,
                    below@.len() == corner_count(size),
                    x < n,
                    y <= n,
                    triangles@ == block_triangles(size, below@, x as nat) + layer_triangles(
                        size,
                        below@,
                        x as int,
                        y as nat,
                    ),
                decreases n - y,
            {
                let mut z: usize = 0;
                while z < n
                    invariant
                        n == self.size,
                        size == n,
                        n < 0x4000_0000,
                        below@.len() == corner_count(size),
                        x < n,
                        y < n,
                        z <= n,
                        triangles@ == block_triangles(size, below@, x as nat) + layer_triangles(
                            size,
                            below@,
                            x as int,
                            y as nat,
                        ) + row_triangles(size, below@, x as int, y as int, z as nat),
                    decreases n - z,
                {
                    let cell = cell_corners(below, n, x, y, z);
                    let mut cube = calculate_single_cube_polygons(&cell);
                    triangles.append(&mut cube);
                    z = z + 1;
                }
                let ghost b = block_triangles(size, below@, x as nat);
                let ghost l = layer_triangles(size, below@, x as int, y as nat);
                let ghost r = row_triangles(size, below@, x as int, y as int, n as nat);
                assert(b + l + r =~= b + (l + r));
                y = y + 1;
            }
            x = x + 1;
        }
        triangles
    }

    /// The chunk's mesh, from the below-iso samples of its `(size + 1)^3` grid corners:
    /// three vertices per triangle with indices counting up from zero, and each vertex
    /// carrying its triangle's normal. The vertex count must fit the `u32` indices.
    pub fn mesh(&self, below: &Vec<bool>) -> (mesh: ChunkMesh)
        requires
            below@.len() == corner_count(self.size as int),
            3 * chunk_triangles(self.size as int, below@).len() <= 0x1_0000_0000,
        ensures
            (mesh.positions@, mesh.normals@, mesh.indices@) == mesh_of(
                chunk_triangles(self.size as int, below@),
            ),
    {
        let triangles = self.mesh_triangles(below);
        let samples = below.len();
        proof {
            let size = self.size as int;
            lemma_grid_size_bound(size, samples);
            lemma_chunk_triangles_bounded(size, below@);
            let ts = chunk_triangles(size, below@);
            assert forall|i: int| 0 <= i < ts.len() implies vertex_within(#[trigger] ts[i].a, 0x3fff_ffff)
                && vertex_within(ts[i].b, 0x3fff_ffff) && vertex_within(ts[i].c, 0x3fff_ffff) by {
                assert(vertex_within(ts[i].a, 4 * size + 2));
            }
        }
        ChunkMesh::from_triangles(&triangles)
    }
}

impl ChunkMesh {
    /// The mesh of a triangle list: three vertices per triangle with indices counting up
    /// from zero, and each vertex carrying its triangle's normal. The vertex count must fit
    /// the `u32` indices.
    pub fn from_triangles(triangles: &Vec<Triangle>) -> (mesh: ChunkMesh)
        requires
            3 * triangles@.len() <= 0x1_0000_0000,
            triangles_within(triangles@, 0x3fff_ffff),
        ensures
            (mesh.positions@, mesh.normals@, mesh.indices@) == mesh_of(triangles@),
    {
        let positions = positions_from_triangles(triangles);
        let indices = sequential_indices(positions.len());
        assert forall|i: int| 0 <= i < positions@.len() implies vertex_within(
            #[trigger] positions@[i],
            0x3fff_ffff,
        ) by {
            assert(positions@[i] == triangle_vertex(triangles@[i / 3], i % 3));
            assert(vertex_within(triangles@[i / 3].a, 0x3fff_ffff));
        }
        let normals = face_normals(&positions, &indices);
        ChunkMesh { positions, normals, indices }
    }
}

/// The chunks of the marching cubes terrain: the 3 x 3 block around the origin on the
/// ground plane, `x` varying slowest, each `size` cubes wide.
pub open spec fn marching_chunk_coords() -> Seq<(i32, i32, i32)> {
    Seq::new(9, |i: int| ((i / 3 - 1) as i32, 0i32, (i % 3 - 1) as i32))
}

/// The chunks meshed when the marching cubes terrain starts, each 100 cubes wide.
pub fn marching_cube_chunks() -> (chunks: Vec<TerrainChunk>)
    ensures
        chunks@.len() == 9,
        forall|i: int|
            0 <= i < 9 ==> (#[trigger] chunks@[i]).coords == marching_chunk_coords()[i]
                && chunks@[i].size == 100,
{
    let mut chunks: Vec<TerrainChunk> = Vec::new();
    let mut x: i32 = -1;
    while x <= 1
        invariant
            -1 <= x <= 2,
            chunks@.len() == 3 * (x + 1),
            forall|i: int|
                0 <= i < chunks@.len() ==> (#[trigger] chunks@[i]).coords == marching_chunk_coords()[i] && chunks@[i].size == 100,
        decreases 2 - x,
    {
        let mut z: i32 = -1;
        while z <= 1
            invariant
                -1 <= x <= 1,
                -1 <= z <= 2,
                chunks@.len() == 3 * (x + 1) + (z + 1),
                forall|i: int|
                    0 <= i < chunks@.len() ==> (#[trigger] chunks@[i]).coords
                        == marching_chunk_coords()[i] && chunks@[i].size == 100,
            decreases 2 - z,
        {
            chunks.push(TerrainChunk { coords: (x, 0, z), size: 100 });
            z = z + 1;
        }
        x = x + 1;
    }
    chunks
}

} // verus!
