use voxel_mesh::batch::{extract_chunk, Command, EdgeMesh, MESHLET_EDGE};
use voxel_mesh::cube::{cube_config, edge_vertex, extract_cube};
use voxel_mesh::lattice::{
    chunk_origin, lattice_points, lod_resolution, point_at, Lattice, LatticePoint, MeshError,
    OUTSIDE_COLOR, OUTSIDE_DENSITY,
};
use voxel_mesh::noise::{noise_hash, NOISE_TABLE};
use voxel_mesh::sample::{density_bits, density_key, pack_rgba, unpack_rgba};
use voxel_mesh::tables::{edge_mask, triangle_entry};

fn key(d: f32) -> i32 {
    density_key(d.to_bits())
}

/// A lattice whose density at each point is `field(x, y, z)` and whose color encodes
/// the point's flat index.
fn lattice_of(resolution: u32, field: impl Fn(u32, u32, u32) -> f32) -> Lattice {
    let n = lattice_points(resolution).unwrap();
    let mut densities = Vec::new();
    let mut colors = Vec::new();
    for i in 0..n {
        let p = point_at(resolution, i);
        densities.push(key(field(p.x, p.y, p.z)));
        colors.push(0xFF00_0000 | i as u32);
    }
    Lattice::new(resolution, densities, colors).unwrap()
}

fn sphere(resolution: u32, radius: f32) -> Lattice {
    let c = resolution as f32 / 2.0;
    lattice_of(resolution, move |x, y, z| {
        let (dx, dy, dz) = (x as f32 - c, y as f32 - c, z as f32 - c);
        (dx * dx + dy * dy + dz * dz).sqrt() - radius
    })
}

fn check_offsets(mesh: &EdgeMesh) {
    let mut running = 0u32;
    for (m, cmd) in mesh.commands.iter().enumerate() {
        assert_eq!(cmd.first_vertex, running);
        assert_eq!(cmd.vertex_count, mesh.vertex_counts[m]);
        assert_eq!(cmd.instance_count, 1);
        assert_eq!(cmd.first_instance, 0);
        assert_eq!(cmd.vertex_count % 3, 0);
        running += cmd.vertex_count;
    }
    assert_eq!(running as usize, mesh.vertices.len());
}

#[test]
fn single_cube_with_one_inside_corner() {
    let l = lattice_of(1, |x, y, z| if (x, y, z) == (0, 0, 0) { -1.0 } else { 1.0 });
    assert_eq!(cube_config(&l, 0, 0, 0), 1);
    assert_ne!(edge_mask(1), 0);
    assert_eq!(edge_mask(1), 0x109);
    let mesh = extract_chunk(&l, 1).unwrap();
    assert_eq!(mesh.vertices.len(), 3);
    assert_eq!(mesh.vertex_counts, vec![3]);
    assert_eq!(mesh.densities, vec![1]);
    let origin = LatticePoint { x: 0, y: 0, z: 0 };
    for v in &mesh.vertices {
        // Each vertex lies on an edge from corner 0 to one of its neighbours.
        let other = if v.start == origin { v.end } else { v.start };
        assert!(v.start == origin || v.end == origin);
        assert_eq!(other.x + other.y + other.z, 1);
        // The inside corner's color wins.
        assert_eq!(v.color, l.colors[0]);
    }
    assert_eq!(
        mesh.commands,
        vec![Command { vertex_count: 3, instance_count: 1, first_vertex: 0, first_instance: 0 }]
    );
}

#[test]
fn all_outside_lattice_emits_nothing() {
    for resolution in [1u32, 2, 8, 16] {
        let l = lattice_of(resolution, |_, _, _| 0.5);
        let edge = if resolution % 8 == 0 { 8 } else { 1 };
        let mesh = extract_chunk(&l, edge).unwrap();
        assert!(mesh.vertices.is_empty());
        assert!(mesh.colors.is_empty());
        let groups = (resolution / edge) as usize;
        assert_eq!(mesh.commands.len(), groups * groups * groups);
        for cmd in &mesh.commands {
            assert_eq!(cmd.vertex_count, 0);
            assert_eq!(cmd.first_vertex, 0);
        }
        assert!(mesh.densities.iter().all(|&d| d == 0));
    }
}

#[test]
fn uniform_cubes_have_trivial_configurations() {
    let inside = lattice_of(2, |_, _, _| -1.0);
    assert_eq!(cube_config(&inside, 0, 0, 0), 255);
    let mut out = Vec::new();
    assert!(!extract_cube(&inside, 0, 0, 0, &mut out));
    assert!(out.is_empty());
    let outside = lattice_of(2, |_, _, _| 2.0);
    assert_eq!(cube_config(&outside, 1, 1, 1), 0);
    assert!(!extract_cube(&outside, 1, 1, 1, &mut out));
    assert!(out.is_empty());
}

#[test]
fn border_cubes_see_solid_outside() {
    // Every lattice point is inside; the cube at the last lattice point reaches out
    // of the lattice, whose points read as solid (positive).
    let l = lattice_of(2, |_, _, _| -1.0);
    assert_eq!(cube_config(&l, 2, 2, 2), 1);
}

#[test]
fn planar_boundary_gives_two_triangles_per_column() {
    let resolution = 16u32;
    let half = resolution / 2;
    let l = lattice_of(resolution, move |_, y, _| y as f32 - half as f32 - 0.5);
    let mesh = extract_chunk(&l, MESHLET_EDGE).unwrap();
    let columns = (resolution * resolution) as usize;
    assert_eq!(mesh.vertices.len(), 3 * 2 * columns);
    for v in &mesh.vertices {
        // Each vertex lies on a vertical lattice edge across the plane.
        assert_eq!(v.start.x, v.end.x);
        assert_eq!(v.start.z, v.end.z);
        assert_eq!(v.start.y.min(v.end.y), half);
        assert_eq!(v.start.y.max(v.end.y), half + 1);
    }
    check_offsets(&mesh);
    let occupied: u32 = mesh.densities.iter().sum();
    assert_eq!(occupied as usize, columns);
}

#[test]
fn extraction_is_deterministic() {
    let a = extract_chunk(&sphere(16, 5.3), MESHLET_EDGE).unwrap();
    let b = extract_chunk(&sphere(16, 5.3), MESHLET_EDGE).unwrap();
    assert!(!a.vertices.is_empty());
    assert_eq!(a.vertices, b.vertices);
    assert_eq!(a.material_colors, b.material_colors);
    assert_eq!(a.colors, b.colors);
    assert_eq!(a.vertex_counts, b.vertex_counts);
    assert_eq!(a.densities, b.densities);
    assert_eq!(a.commands, b.commands);
}

#[test]
fn commands_tile_the_vertex_buffer() {
    let mesh = extract_chunk(&sphere(16, 6.1), MESHLET_EDGE).unwrap();
    assert_eq!(mesh.commands.len(), 8);
    check_offsets(&mesh);
    assert_eq!(mesh.material_colors.len(), mesh.vertices.len());
    assert_eq!(mesh.colors, mesh.material_colors);
    for (v, c) in mesh.vertices.iter().zip(&mesh.material_colors) {
        assert_eq!(v.color, *c);
    }
    let md = mesh.metadata().unwrap();
    let total: u32 = mesh.vertex_counts.iter().sum();
    assert_eq!(md.vertices_length, 4 * total as usize);
    assert_eq!(md.normals_length, 4 * total as usize);
    assert_eq!(md.colors_length, total as usize);
    assert_eq!(md.commands_length, 4 * 8);
    assert_eq!(md.densities_length, 8);
    assert_eq!(md.vertex_counts_length, 8);
    assert_eq!(md.indices_length, 0);
    let sizes = md.buffer_sizes().unwrap();
    assert_eq!(sizes.vertices_bytes, 16 * total as usize);
    assert_eq!(sizes.commands_bytes, 128);
    assert_eq!(sizes.indices_bytes, 0);
}

#[test]
fn meshlets_follow_lexicographic_order() {
    // The one inside point (4, 12, 0) is a corner of four cubes, all in the meshlet at
    // x = 0, y = 1, z = 0, which comes third.
    let l = lattice_of(16, |x, y, z| if (x, y, z) == (4, 12, 0) { -1.0 } else { 1.0 });
    let mesh = extract_chunk(&l, MESHLET_EDGE).unwrap();
    assert_eq!(mesh.vertex_counts, vec![0, 0, 12, 0, 0, 0, 0, 0]);
    assert_eq!(mesh.densities, vec![0, 0, 4, 0, 0, 0, 0, 0]);
    let firsts: Vec<u32> = mesh.commands.iter().map(|c| c.first_vertex).collect();
    assert_eq!(firsts, vec![0, 0, 0, 12, 12, 12, 12, 12]);
}

#[test]
fn bad_meshlet_sizes_are_rejected() {
    let l = lattice_of(12, |_, _, _| 1.0);
    assert!(matches!(extract_chunk(&l, 8), Err(MeshError::BadMeshletSize)));
    assert!(matches!(extract_chunk(&l, 0), Err(MeshError::BadMeshletSize)));
    assert!(extract_chunk(&l, 4).is_ok());
    let empty = lattice_of(0, |_, _, _| 1.0);
    assert!(matches!(extract_chunk(&empty, 8), Err(MeshError::BadMeshletSize)));
}

#[test]
fn lattice_sample_counts_are_checked() {
    assert!(matches!(
        Lattice::new(1, vec![0; 8], vec![0; 7]),
        Err(MeshError::SampleCountMismatch)
    ));
    assert!(matches!(
        Lattice::new(1, vec![0; 9], vec![0; 8]),
        Err(MeshError::SampleCountMismatch)
    ));
    assert!(Lattice::new(1, vec![0; 8], vec![0; 8]).is_ok());
    assert!(matches!(
        Lattice::new(u32::MAX, Vec::new(), Vec::new()),
        Err(MeshError::LatticeTooLarge)
    ));
    assert_eq!(lattice_points(2), Some(27));
    assert_eq!(lattice_points(u32::MAX), None);
}

#[test]
fn safe_access_uses_sentinels_outside() {
    let l = lattice_of(2, |x, _, _| x as f32 - 5.0);
    assert_eq!(l.index_of(1, 2, 0), Some(7));
    assert_eq!(l.index_of(2, 2, 2), Some(26));
    assert_eq!(l.index_of(3, 0, 0), None);
    assert_eq!(l.index_of(0, -1, 0), None);
    assert_eq!(l.density_at(1, 0, 0), key(-4.0));
    assert_eq!(l.color_at(1, 2, 0), 0xFF00_0007);
    assert_eq!(l.density_at(-1, 0, 0), OUTSIDE_DENSITY);
    assert_eq!(l.density_at(0, 0, 3), OUTSIDE_DENSITY);
    assert_eq!(l.color_at(0, 3, 0), OUTSIDE_COLOR);
    assert_eq!(OUTSIDE_COLOR, 0x8080_80FF);
    assert_eq!(f32::from_bits(density_bits(OUTSIDE_DENSITY)), 1.0);
}

#[test]
fn density_keys_keep_sign_and_order() {
    let values = [-1000.0f32, -1.0, -0.25, -1e-6, 0.0, 1e-6, 0.25, 1.0, 1000.0];
    for w in values.windows(2) {
        assert!(key(w[0]) < key(w[1]));
    }
    for v in values {
        assert_eq!(key(v) < 0, v < 0.0);
        assert_eq!(f32::from_bits(density_bits(key(v))), v);
    }
    assert_eq!(key(-0.0), 0);
    assert_eq!(key(1.0), OUTSIDE_DENSITY);
    assert_eq!(key(-1.0), -0x3F80_0000);
}

#[test]
fn hard_edge_color_comes_from_the_inside_corner() {
    let l = lattice_of(1, |x, _, _| if x == 1 { -2.0 } else { 3.0 });
    // Edge 0 joins corner 0 (x = 0, outside) and corner 1 (x = 1, inside).
    let v = edge_vertex(&l, 0, 0, 0, 0);
    assert_eq!(v.start, LatticePoint { x: 0, y: 0, z: 0 });
    assert_eq!(v.end, LatticePoint { x: 1, y: 0, z: 0 });
    assert_eq!(v.color, l.colors[1]);
    // Equal densities: the second endpoint's color.
    let flat = lattice_of(1, |_, _, _| 1.0);
    assert_eq!(edge_vertex(&flat, 0, 0, 0, 8).color, flat.colors[4]);
}

#[test]
fn triangle_rows_match_the_standard_table() {
    assert_eq!(
        [triangle_entry(1, 0), triangle_entry(1, 1), triangle_entry(1, 2), triangle_entry(1, 3)],
        [0, 8, 3, -1]
    );
    assert_eq!(triangle_entry(0, 0), -1);
    assert_eq!(triangle_entry(255, 0), -1);
    assert_eq!(triangle_entry(254, 0), 0);
    assert_eq!(triangle_entry(254, 1), 3);
    assert_eq!(triangle_entry(254, 2), 8);
    assert_eq!(edge_mask(0), 0);
    assert_eq!(edge_mask(255), 0);
    assert_eq!(edge_mask(128), 0x8c0);
}

#[test]
fn colors_pack_little_endian() {
    assert_eq!(pack_rgba(0x80, 0x80, 0x80, 0xFF), 0xFF80_8080);
    assert_eq!(pack_rgba(1, 2, 3, 4), 0x0403_0201);
    assert_eq!(unpack_rgba(0x0403_0201), [1, 2, 3, 4]);
    assert_eq!(unpack_rgba(0x8080_80FF), [0xFF, 0x80, 0x80, 0x80]);
}

#[test]
fn lattice_points_run_z_outer_x_inner() {
    assert_eq!(point_at(2, 0), LatticePoint { x: 0, y: 0, z: 0 });
    assert_eq!(point_at(2, 1), LatticePoint { x: 1, y: 0, z: 0 });
    assert_eq!(point_at(2, 3), LatticePoint { x: 0, y: 1, z: 0 });
    assert_eq!(point_at(2, 9), LatticePoint { x: 0, y: 0, z: 1 });
    assert_eq!(point_at(2, 26), LatticePoint { x: 2, y: 2, z: 2 });
}

#[test]
fn chunk_origins_and_levels_of_detail() {
    assert_eq!(chunk_origin(1, -2, 3, 256), (256, -512, 768));
    assert_eq!(chunk_origin(i32::MIN, 0, 0, u32::MAX), (i32::MIN as i64 * u32::MAX as i64, 0, 0));
    assert_eq!(lod_resolution(0), 256);
    assert_eq!(lod_resolution(1), 128);
    assert_eq!(lod_resolution(2), 85);
    assert_eq!(lod_resolution(u32::MAX), 0);
}

#[test]
fn noise_hash_uses_low_bytes() {
    assert_eq!(noise_hash(0, 0, 0), 36);
    assert_eq!(noise_hash(1, 2, 3), 42);
    assert_eq!(noise_hash(-1, -300, 70000), 58);
    assert_eq!(noise_hash(256, 0, 0), noise_hash(0, 0, 0));
    assert_eq!(NOISE_TABLE[0], 151);
}
