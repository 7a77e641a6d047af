use isosurface::cube_sphere::{face_frame, face_indices, spawn_cube_sphere, FACE_RESOLUTION};
use isosurface::fan::fan_indices;
use isosurface::grid::{GridEdge, GridPoint, MeshError, SignGrid, MAX_RESOLUTION};
use isosurface::marching::{mesh_disjointed, mesh_flat, mesh_indexed};
use isosurface::surface_nets::{
    find_edges, is_face, quad_triangles, surface_net, triangulate_quads, FaceResult, Quad,
};
use isosurface::tables::{triangulation, EDGES, POINTS};

fn grid_from(resolution: usize, f: impl Fn(usize, usize, usize) -> bool) -> SignGrid {
    let side = resolution + 1;
    let mut inside = Vec::new();
    for z in 0..side {
        for y in 0..side {
            for x in 0..side {
                inside.push(f(x, y, z));
            }
        }
    }
    match SignGrid::new(resolution, inside) {
        Ok(g) => g,
        Err(e) => panic!("grid refused: {:?}", e),
    }
}

fn key(e: &GridEdge) -> (usize, usize, usize) {
    (e.a.x + e.b.x, e.a.y + e.b.y, e.a.z + e.b.z)
}

#[test]
fn table_rows_are_well_formed() {
    for c in 0..=255u8 {
        let row = triangulation(c);
        let n = row.iter().take_while(|&&e| e >= 0).count();
        assert!(n % 3 == 0 && n / 3 <= 5, "config {}", c);
        assert!(row[n..].iter().all(|&e| e == -1), "config {}", c);
        for &e in &row[..n] {
            assert!((0..12).contains(&e), "config {}", c);
            let (a, b) = EDGES[e as usize];
            assert_ne!((c >> a) & 1, (c >> b) & 1, "config {} edge {}", c, e);
        }
    }
    assert_eq!(triangulation(0)[0], -1);
    assert_eq!(triangulation(255)[0], -1);
    assert_eq!(&triangulation(1)[..4], &[0, 8, 3, -1]);
}

#[test]
fn corner_offsets_and_edges() {
    assert_eq!(POINTS[0], (0, 0, 0));
    assert_eq!(POINTS[6], (1, 1, 1));
    for (a, b) in EDGES {
        let (p, q) = (POINTS[a], POINTS[b]);
        let d = p.0.abs_diff(q.0) + p.1.abs_diff(q.1) + p.2.abs_diff(q.2);
        assert_eq!(d, 1);
    }
}

#[test]
fn grid_errors() {
    assert_eq!(SignGrid::new(0, vec![true]).err(), Some(MeshError::InvalidResolution));
    assert_eq!(
        SignGrid::new(MAX_RESOLUTION + 1, vec![]).err(),
        Some(MeshError::InvalidResolution)
    );
    assert_eq!(SignGrid::new(1, vec![false; 7]).err(), Some(MeshError::SampleCount));
    assert!(SignGrid::new(1, vec![false; 8]).is_ok());
}

#[test]
fn grid_read_uses_row_major_layout() {
    let g = grid_from(2, |x, y, z| (x, y, z) == (2, 1, 0));
    assert!(g.read(2, 1, 0));
    assert!(!g.read(0, 1, 2));
    assert!(g.inside[2 + 3]);
}

#[test]
fn single_corner_cell_gives_one_triangle() {
    let g = grid_from(1, |x, y, z| (x, y, z) == (0, 0, 0));
    assert_eq!(g.configuration(0, 0, 0), 1);
    let mesh = mesh_indexed(&g);
    assert_eq!(mesh.vertices.len(), 3);
    assert_eq!(mesh.indices, vec![0, 1, 2]);
    let flat = mesh_flat(&g);
    assert_eq!(flat.len(), 3);
    assert_eq!(flat[0].a, GridPoint { x: 0, y: 0, z: 0 });
    assert_eq!(flat[0].b, GridPoint { x: 0, y: 0, z: 1 });
}

#[test]
fn configuration_bits_follow_corner_order() {
    let g = grid_from(1, |x, y, z| (x, y, z) == (1, 1, 0) || (x, y, z) == (0, 0, 1));
    assert_eq!(g.configuration(0, 0, 0), 128 + 2);
    let full = grid_from(1, |_, _, _| true);
    assert_eq!(full.configuration(0, 0, 0), 255);
    assert!(mesh_indexed(&full).indices.is_empty());
}

#[test]
fn shared_edges_share_one_vertex() {
    let g = grid_from(2, |x, y, z| (x, y, z) == (1, 0, 0));
    let flat = mesh_flat(&g);
    assert_eq!(flat.len(), 6);
    let mesh = mesh_indexed(&g);
    assert_eq!(mesh.vertices.len(), 4);
    assert!(mesh.vertices.len() < flat.len());
    for (t, e) in flat.iter().enumerate() {
        assert_eq!(key(&mesh.vertices[mesh.indices[t] as usize]), key(e));
    }
    let cells = mesh_disjointed(&g);
    assert_eq!(cells.len(), 8);
    assert_eq!(cells[0].len(), 3);
    assert_eq!(cells[1].len(), 3);
    assert!(cells[2..].iter().all(|c| c.is_empty()));
}

#[test]
fn indexed_mesh_is_repeatable() {
    let g = grid_from(6, |x, y, z| {
        let (a, b, c) = (x as i64 - 3, y as i64 - 3, z as i64 - 2);
        a * a + b * b + c * c < 6
    });
    let first = mesh_indexed(&g);
    let second = mesh_indexed(&g);
    assert_eq!(first.vertices, second.vertices);
    assert_eq!(first.indices, second.indices);
    assert!(!first.indices.is_empty());
    assert_eq!(first.indices.len() % 3, 0);
    let n = first.vertices.len();
    assert!(first.indices.iter().all(|&i| (i as usize) < n));
    for e in &first.vertices {
        assert_ne!(g.read(e.a.x, e.a.y, e.a.z), g.read(e.b.x, e.b.y, e.b.z));
    }
}

fn sphere_samples(n: usize) -> (Vec<f32>, f32) {
    let side = n + 1;
    let c = n as f32 / 2.0;
    let r = n as f32 / 3.0;
    let mut v = Vec::new();
    for z in 0..side {
        for y in 0..side {
            for x in 0..side {
                let (a, b, d) = (x as f32 - c, y as f32 - c, z as f32 - c);
                v.push(a * a + b * b + d * d - r * r);
            }
        }
    }
    (v, r)
}

#[test]
fn sphere_vertices_lie_near_radius() {
    let mut counts = Vec::new();
    for n in [8usize, 16, 32] {
        let (samples, r) = sphere_samples(n);
        let g = SignGrid::new(n, samples.iter().map(|v| v.is_sign_negative()).collect()).unwrap();
        let mesh = mesh_indexed(&g);
        let side = n + 1;
        let at = |p: &GridPoint| samples[p.x + p.y * side + p.z * side * side];
        let c = n as f32 / 2.0;
        for e in &mesh.vertices {
            let (va, vb) = (at(&e.a), at(&e.b));
            let t = va / (va - vb);
            let p = [
                e.a.x as f32 + (e.b.x as f32 - e.a.x as f32) * t - c,
                e.a.y as f32 + (e.b.y as f32 - e.a.y as f32) * t - c,
                e.a.z as f32 + (e.b.z as f32 - e.a.z as f32) * t - c,
            ];
            let d = (p[0] * p[0] + p[1] * p[1] + p[2] * p[2]).sqrt();
            assert!((d - r).abs() < 0.25, "distance {} radius {}", d, r);
        }
        counts.push(mesh.indices.len() / 3);
    }
    for w in counts.windows(2) {
        let ratio = w[1] as f32 / w[0] as f32;
        assert!(ratio > 3.0 && ratio < 5.5, "ratio {}", ratio);
    }
}

#[test]
fn surface_net_one_flip_gives_one_quad() {
    let outside_point = grid_from(2, |x, y, z| (x, y, z) != (2, 1, 1));
    let inside_point = grid_from(2, |x, y, z| (x, y, z) == (2, 1, 1));
    let a = surface_net(&outside_point);
    let b = surface_net(&inside_point);
    assert_eq!(a.quads.len(), 1);
    assert_eq!(b.quads.len(), 1);
    assert!(a.quads[0].positive);
    assert!(!b.quads[0].positive);
    let cells = |m: &isosurface::surface_nets::NetMesh| -> Vec<GridPoint> {
        m.quads[0].v.iter().map(|&i| m.cells[i as usize]).collect()
    };
    let expect = vec![
        GridPoint { x: 1, y: 1, z: 1 },
        GridPoint { x: 1, y: 0, z: 1 },
        GridPoint { x: 1, y: 1, z: 0 },
        GridPoint { x: 1, y: 0, z: 0 },
    ];
    assert_eq!(cells(&a), expect);
    assert_eq!(cells(&b), expect);
    for split in [true, false] {
        let p = quad_triangles(&a.quads[0], split);
        let n = quad_triangles(&b.quads[0], split);
        assert_eq!((n[0], n[1], n[2]), (p[0], p[2], p[1]));
        assert_eq!((n[3], n[4], n[5]), (p[3], p[5], p[4]));
    }
}

#[test]
fn surface_net_cells_and_edges() {
    let g = grid_from(2, |x, y, z| (x, y, z) == (1, 1, 1));
    let net = surface_net(&g);
    assert_eq!(net.cells.len(), 8);
    assert_eq!(net.quads.len(), 6);
    let edges = find_edges(&g, GridPoint { x: 0, y: 0, z: 0 });
    assert_eq!(edges.len(), 3);
    assert_eq!(edges[0].a, GridPoint { x: 0, y: 1, z: 1 });
    assert_eq!(edges[0].b, GridPoint { x: 1, y: 1, z: 1 });
    let empty = grid_from(2, |_, _, _| false);
    let none = surface_net(&empty);
    assert!(none.cells.is_empty() && none.quads.is_empty());
}

#[test]
fn face_test_reads_both_signs() {
    let g = grid_from(1, |x, _, _| x == 0);
    let p = GridPoint { x: 0, y: 0, z: 0 };
    let q = GridPoint { x: 1, y: 0, z: 0 };
    assert_eq!(is_face(&g, p, q), FaceResult::FacePositive);
    assert_eq!(is_face(&g, q, p), FaceResult::FaceNegative);
    assert_eq!(is_face(&g, p, GridPoint { x: 0, y: 1, z: 0 }), FaceResult::NoFace);
}

#[test]
fn quads_split_along_chosen_diagonal() {
    let q = Quad { v: [10, 11, 12, 13], positive: true };
    assert_eq!(quad_triangles(&q, true), [10, 11, 13, 10, 13, 12]);
    assert_eq!(quad_triangles(&q, false), [11, 13, 12, 11, 12, 10]);
    let r = Quad { v: [10, 11, 12, 13], positive: false };
    let all = triangulate_quads(&vec![q, r], &vec![true, false]);
    assert_eq!(all, vec![10, 11, 13, 10, 13, 12, 11, 12, 13, 11, 10, 12]);
}

#[test]
fn face_index_lists() {
    assert_eq!(face_indices(2), vec![0, 3, 2, 0, 1, 3]);
    assert!(face_indices(1).is_empty());
    let three = face_indices(3);
    assert_eq!(three.len(), 24);
    assert_eq!(&three[18..], &[4, 8, 7, 4, 5, 8]);
    assert_eq!(face_frame((1, 0, 0)), ((0, 0, 1), (0, -1, 0)));
    assert_eq!(face_frame((0, 0, -1)), ((0, -1, 0), (-1, 0, 0)));
}

#[test]
fn cube_sphere_has_six_faces() {
    let faces = spawn_cube_sphere();
    assert_eq!(faces.len(), 6);
    assert_eq!(faces[3].dir, (-1, 0, 0));
    for f in &faces {
        assert_eq!(f.resolution, FACE_RESOLUTION);
        assert_eq!(f.indices.len(), 6 * 15 * 15);
        assert!(f.indices.iter().all(|&i| i < 256));
    }
}

#[test]
fn fan_wraps_to_first_rim_vertex() {
    assert_eq!(fan_indices(3), vec![0, 1, 2, 0, 2, 3, 0, 3, 1]);
    assert_eq!(fan_indices(1), vec![0, 1, 1]);
    assert!(fan_indices(0).is_empty());
}

#[test]
fn mixed_cells_get_triangles_and_crossing_edges_get_vertices() {
    let n = 6;
    let g = grid_from(n, |x, y, z| {
        let (a, b, c) = (x as i64 - 2, y as i64 - 3, z as i64 - 3);
        a * a + 2 * b * b + c * c < 7
    });
    let cells = mesh_disjointed(&g);
    let mut i = 0;
    for z in 0..n {
        for y in 0..n {
            for x in 0..n {
                let first = g.read(x, y, z);
                let mut agree = true;
                for (dx, dy, dz) in POINTS {
                    agree &= g.read(x + dx, y + dy, z + dz) == first;
                }
                assert_eq!(cells[i].is_empty(), agree);
                if !agree {
                    assert!(cells[i].len() >= 3);
                }
                i += 1;
            }
        }
    }
    let mesh = mesh_indexed(&g);
    let keys: Vec<(usize, usize, usize)> = mesh.vertices.iter().map(key).collect();
    let mut crossing = 0;
    for z in 0..=n {
        for y in 0..=n {
            for x in 0..=n {
                for (dx, dy, dz) in [(1, 0, 0), (0, 1, 0), (0, 0, 1)] {
                    let (qx, qy, qz) = (x + dx, y + dy, z + dz);
                    if qx > n || qy > n || qz > n {
                        continue;
                    }
                    if g.read(x, y, z) != g.read(qx, qy, qz) {
                        crossing += 1;
                        assert!(keys.contains(&(x + qx, y + qy, z + qz)));
                    }
                }
            }
        }
    }
    assert_eq!(crossing, mesh.vertices.len());
}
