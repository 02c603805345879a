use bevy_playground::marching_cube::tables::{edge_endpoints, edge_lookup, triangulation_lookup};
use bevy_playground::marching_cube::{
    calculate_single_cube_polygons, interpolate, marching_cube_chunks, positions_from_triangles,
    sequential_indices, face_normals, Normal, Point, TerrainChunk, Triangle, Vertex,
};

fn p(x: i32, y: i32, z: i32) -> Point {
    Point { x, y, z }
}

fn v(x: i64, y: i64, z: i64) -> Vertex {
    Vertex { x, y, z }
}

/// The single triangle around corner 0 of the unit cube, in quarter units.
fn corner_triangle() -> Triangle {
    Triangle { a: v(0, -2, -2), b: v(-2, 0, -2), c: v(-2, -2, 0) }
}

/// The eight corners of cube (0, 0, 0) in half units, in corner order.
fn unit_cube(below: [bool; 8]) -> [(Point, bool); 8] {
    let offsets = [(0, 0, 0), (1, 0, 0), (1, 0, 1), (0, 0, 1), (0, 1, 0), (1, 1, 0), (1, 1, 1), (0, 1, 1)];
    let mut cell = [(p(0, 0, 0), false); 8];
    for c in 0..8 {
        let (ox, oy, oz) = offsets[c];
        cell[c] = (p(2 * ox - 1, 2 * oy - 1, 2 * oz - 1), below[c]);
    }
    cell
}

fn samples(size: usize, f: impl Fn(usize, usize, usize) -> bool) -> Vec<bool> {
    let m = size + 1;
    let mut v = Vec::new();
    for i in 0..m {
        for j in 0..m {
            for k in 0..m {
                v.push(f(i, j, k));
            }
        }
    }
    v
}

#[test]
fn test_cube() {
    let chunk = TerrainChunk { coords: (0, 0, 0), size: 3 };
    let below = samples(3, |i, j, k| i + j + k <= 2);
    let mesh = chunk.mesh(&below);
    assert!(!mesh.positions.is_empty());
    assert_eq!(mesh.positions.len() % 3, 0);
    assert_eq!(mesh.indices.len(), mesh.positions.len());
    assert_eq!(mesh.normals.len(), mesh.positions.len());
}

#[test]
fn empty_and_full_cubes_have_no_triangles() {
    assert!(calculate_single_cube_polygons(&unit_cube([false; 8])).is_empty());
    assert!(calculate_single_cube_polygons(&unit_cube([true; 8])).is_empty());
}

#[test]
fn single_corner_gives_one_triangle() {
    let mut below = [false; 8];
    below[0] = true;
    let tris = calculate_single_cube_polygons(&unit_cube(below));
    assert_eq!(tris, vec![corner_triangle()]);
}

#[test]
fn corner_pattern_gives_expected_triangle_count() {
    // configuration 7: corners 0, 1 and 2 below, three triangles
    let mut below = [false; 8];
    below[0] = true;
    below[1] = true;
    below[2] = true;
    assert_eq!(calculate_single_cube_polygons(&unit_cube(below)).len(), 3);
}

#[test]
fn interpolate_takes_the_exact_midpoint() {
    // corners (-1, 3, 1) and (-3, 1, 1) in half units: the midpoint is (-1, 1, 0.5),
    // which is (-4, 4, 2) in quarter units
    let a = (p(-1, 3, 1), true);
    let b = (p(-3, 1, 1), false);
    assert_eq!(interpolate(&a, &b), v(-4, 4, 2));
    // the order of the corners and their samples do not move the vertex
    assert_eq!(interpolate(&b, &a), v(-4, 4, 2));
    assert_eq!(interpolate(&(a.0, false), &(b.0, true)), v(-4, 4, 2));
    // corners off the grid: (0.5, 0, 0) and (1, 0, 0) meet at 0.75, three quarter units
    assert_eq!(interpolate(&(p(1, 0, 0), true), &(p(2, 0, 0), false)), v(3, 0, 0));
    let n = interpolate(&(p(i32::MAX, i32::MIN, 0), true), &(p(i32::MAX, i32::MIN, 0), false));
    assert_eq!(n, v(2 * i32::MAX as i64, 2 * i32::MIN as i64, 0));
    let m = interpolate(&(p(i32::MAX, -7, 4), true), &(p(i32::MAX - 2, 7, -3), false));
    assert_eq!(m, v(2 * i32::MAX as i64 - 2, 0, 1));
}

#[test]
fn tables_hold_known_entries() {
    assert_eq!(edge_lookup(0), 0);
    assert_eq!(edge_lookup(1), 0x109);
    assert_eq!(edge_lookup(255), 0);
    assert_eq!(triangulation_lookup(1), &[0, 8, 3]);
    assert_eq!(triangulation_lookup(254), &[0, 3, 8]);
    assert!(triangulation_lookup(0).is_empty());
    assert_eq!(edge_endpoints(7), (7, 4));
}

#[test]
fn edge_table_marks_exactly_the_crossed_edges() {
    for index in 0..=255u8 {
        let mask = edge_lookup(index);
        for edge in 0..12u8 {
            let (a, b) = edge_endpoints(edge);
            let crossed = ((index >> a) & 1) != ((index >> b) & 1);
            assert_eq!(mask & (1 << edge) != 0, crossed);
        }
        assert_eq!(mask, edge_lookup(255 - index));
        let tri = triangulation_lookup(index);
        assert_eq!(tri.len() % 3, 0);
        assert_eq!(tri.is_empty(), mask == 0);
        for &e in tri {
            assert!(mask & (1 << e) != 0);
        }
    }
}

#[test]
fn mesh_buffers_of_one_triangle() {
    let t = corner_triangle();
    let positions = positions_from_triangles(&vec![t]);
    assert_eq!(positions, vec![t.a, t.b, t.c]);
    let indices = sequential_indices(positions.len());
    assert_eq!(indices, vec![0, 1, 2]);
    let normals = face_normals(&positions, &indices);
    assert_eq!(normals, vec![Normal { x: 4, y: 4, z: 4 }; 3]);
}

#[test]
fn mesh_of_a_chunk_with_one_low_corner() {
    let chunk = TerrainChunk { coords: (1, 0, -1), size: 2 };
    let below = samples(2, |i, j, k| i == 0 && j == 0 && k == 0);
    let tris = chunk.mesh_triangles(&below);
    assert_eq!(tris, vec![corner_triangle()]);
    let mesh = chunk.mesh(&below);
    assert_eq!(mesh.indices, vec![0, 1, 2]);
    assert_eq!(mesh.normals, vec![Normal { x: 4, y: 4, z: 4 }; 3]);
    assert_eq!(chunk.origin(), (2, 0, -2));
}

#[test]
fn marching_chunks_cover_the_origin_block() {
    let chunks = marching_cube_chunks();
    let coords: Vec<(i32, i32, i32)> = chunks.iter().map(|c| c.coords).collect();
    assert_eq!(
        coords,
        vec![(-1, 0, -1), (-1, 0, 0), (-1, 0, 1), (0, 0, -1), (0, 0, 0), (0, 0, 1), (1, 0, -1), (1, 0, 0), (1, 0, 1)]
    );
    assert!(chunks.iter().all(|c| c.size == 100));
}

#[test]
fn every_vertex_lies_on_a_crossed_edge() {
    for index in 0..=255u8 {
        let mut below = [false; 8];
        for c in 0..8 {
            below[c] = (index >> c) & 1 == 1;
        }
        let cell = unit_cube(below);
        for t in calculate_single_cube_polygons(&cell) {
            for v in [t.a, t.b, t.c] {
                let found = (0..12u8).any(|e| {
                    let (a, b) = edge_endpoints(e);
                    below[a] != below[b] && interpolate(&cell[a], &cell[b]) == v
                });
                assert!(found);
            }
        }
    }
}

#[test]
fn any_cube_gets_the_table_triangles_on_crossed_edges() {
    // an irregular cube whose edges have odd coordinate sums
    let corners = [p(0, 0, 0), p(3, 1, 0), p(2, 0, 5), p(-1, 0, 2), p(1, 4, 0), p(4, 3, 1), p(5, 6, 7), p(0, 3, 3)];
    for index in 0..=255u8 {
        let mut cell = [(p(0, 0, 0), false); 8];
        for c in 0..8 {
            cell[c] = (corners[c], (index >> c) & 1 == 1);
        }
        let tris = calculate_single_cube_polygons(&cell);
        let table = triangulation_lookup(index);
        assert_eq!(tris.len(), table.len() / 3);
        for (k, t) in tris.iter().enumerate() {
            for (j, vertex) in [t.a, t.b, t.c].into_iter().enumerate() {
                let (a, b) = edge_endpoints(table[3 * k + j]);
                assert!(cell[a].1 != cell[b].1);
                assert_eq!(vertex, interpolate(&cell[a], &cell[b]));
                let sum = corners[a].x as i64 + corners[b].x as i64;
                assert_eq!(vertex.x, sum);
            }
        }
    }
}
