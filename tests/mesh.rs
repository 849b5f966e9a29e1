use voxel_terrain::block::Block;
use voxel_terrain::face::{pack, FaceDir};
use voxel_terrain::mesh::{mesh_terrain_simple, TerrainMeshData};
use voxel_terrain::terrain::Terrain;

fn face_count(m: &TerrainMeshData) -> usize {
    assert_eq!(m.positions.len() % 4, 0);
    assert_eq!(m.normals.len(), m.positions.len());
    assert_eq!(m.packed.len(), m.positions.len());
    assert_eq!(m.indices.len(), m.positions.len() / 4 * 6);
    m.positions.len() / 4
}

fn faces_facing(m: &TerrainMeshData, n: (i32, i32, i32)) -> usize {
    m.normals.iter().filter(|v| **v == n).count() / 4
}

#[test]
fn empty_grid_gives_empty_mesh() {
    let t = Terrain::new(5, 6, 7, 5);
    let m = mesh_terrain_simple(&t);
    assert!(m.positions.is_empty());
    assert!(m.normals.is_empty());
    assert!(m.packed.is_empty());
    assert!(m.indices.is_empty());
    let m = mesh_terrain_simple(&Terrain::default());
    assert!(m.positions.is_empty());
    assert!(m.indices.is_empty());
}

#[test]
fn single_voxel_gives_six_faces() {
    let mut t = Terrain::new(4, 6, 5, 5);
    t.set(1, 2, 3, Block::Dirt);
    let m = mesh_terrain_simple(&t);
    assert_eq!(m.positions.len(), 24);
    assert_eq!(m.normals.len(), 24);
    assert_eq!(m.packed.len(), 24);
    assert_eq!(m.indices.len(), 36);
}

#[test]
fn single_voxel_exact_buffers() {
    let mut t = Terrain::new(4, 6, 5, 5);
    t.set(1, 2, 3, Block::Dirt);
    let m = mesh_terrain_simple(&t);
    let expected_positions: Vec<(u32, u32, u32)> = vec![
        // above
        (1, 3, 3),
        (2, 3, 3),
        (2, 3, 4),
        (1, 3, 4),
        // front
        (1, 2, 3),
        (1, 3, 3),
        (2, 3, 3),
        (2, 2, 3),
        // right
        (2, 2, 3),
        (2, 2, 4),
        (2, 3, 4),
        (2, 3, 3),
        // behind
        (1, 2, 4),
        (1, 3, 4),
        (2, 3, 4),
        (2, 2, 4),
        // left
        (1, 2, 3),
        (1, 2, 4),
        (1, 3, 4),
        (1, 3, 3),
        // below
        (1, 2, 3),
        (2, 2, 3),
        (2, 2, 4),
        (1, 2, 4),
    ];
    assert_eq!(m.positions, expected_positions);
    let dirs = [
        FaceDir::PosY,
        FaceDir::NegZ,
        FaceDir::PosX,
        FaceDir::PosZ,
        FaceDir::NegX,
        FaceDir::NegY,
    ];
    for (f, d) in dirs.iter().enumerate() {
        for k in 0..4 {
            assert_eq!(m.normals[4 * f + k], d.normal_vector());
            assert_eq!(m.packed[4 * f + k], pack(1, *d));
        }
    }
    assert_eq!(
        m.indices,
        vec![
            2, 1, 0, 0, 3, 2, // above
            4, 5, 6, 6, 7, 4, // front
            10, 9, 8, 8, 11, 10, // right
            14, 13, 12, 12, 15, 14, // behind
            16, 17, 18, 18, 19, 16, // left
            20, 21, 22, 22, 23, 20, // below
        ]
    );
}

#[test]
fn adjacent_pair_shares_no_face() {
    for (dx, dy, dz) in [(1, 0, 0), (0, 1, 0), (0, 0, 1)] {
        let mut t = Terrain::new(4, 6, 4, 5);
        t.set(1, 1, 1, Block::Stone);
        t.set(1 + dx, 1 + dy, 1 + dz, Block::Dirt);
        let m = mesh_terrain_simple(&t);
        assert_eq!(face_count(&m), 10);
        assert_eq!(m.positions.len(), 40);
        assert_eq!(m.indices.len(), 60);
    }
}

#[test]
fn voxels_on_the_border_show_outer_faces() {
    let mut t = Terrain::new(1, 2, 1, 1);
    t.set(0, 0, 0, Block::Stone);
    let m = mesh_terrain_simple(&t);
    assert_eq!(face_count(&m), 6);
}

#[test]
fn lowered_slice_caps_the_cut() {
    let mut t = Terrain::new(3, 8, 3, 7);
    for y in 0..6 {
        t.set(1, y, 1, Block::Stone);
    }
    // Full column: one top, one bottom, four sides per cell.
    let m = mesh_terrain_simple(&t);
    assert_eq!(faces_facing(&m, (0, 1, 0)), 1);
    assert_eq!(face_count(&m), 2 + 4 * 6);

    // Cut through the column: the cell at y = 2 is capped though y = 3 is filled.
    t.set_slice(3);
    let m = mesh_terrain_simple(&t);
    assert_eq!(faces_facing(&m, (0, 1, 0)), 1);
    assert_eq!(face_count(&m), 2 + 4 * 3);
    let top = m.normals.iter().position(|n| *n == (0, 1, 0)).unwrap();
    assert_eq!(m.positions[top], (1, 3, 1));

    // Raise the slice again: the cap goes, culling by neighbours is back.
    t.set_slice(7);
    let m = mesh_terrain_simple(&t);
    assert_eq!(faces_facing(&m, (0, 1, 0)), 1);
    let top = m.normals.iter().position(|n| *n == (0, 1, 0)).unwrap();
    assert_eq!(m.positions[top], (1, 6, 1));
}

#[test]
fn cells_above_the_slice_are_not_meshed() {
    let mut t = Terrain::new(2, 4, 2, 1);
    t.set(0, 2, 0, Block::Dirt);
    let m = mesh_terrain_simple(&t);
    assert_eq!(face_count(&m), 0);
    t.set_slice(0);
    t.set(0, 0, 0, Block::Dirt);
    assert_eq!(face_count(&mesh_terrain_simple(&t)), 0);
}

#[test]
fn slab_of_two_layers_has_only_its_shell() {
    let mut t = Terrain::new(4, 4, 4, 4);
    for x in 0..4 {
        for z in 0..4 {
            for y in 0..2 {
                t.set(x, y, z, Block::Stone);
            }
        }
    }
    let m = mesh_terrain_simple(&t);
    assert_eq!(face_count(&m), 64);
    assert_eq!(m.positions.len(), 256);
    assert_eq!(m.indices.len(), 384);
    assert_eq!(faces_facing(&m, (0, 1, 0)), 16);
    assert_eq!(faces_facing(&m, (0, -1, 0)), 16);
    assert_eq!(faces_facing(&m, (1, 0, 0)), 8);
    assert_eq!(faces_facing(&m, (-1, 0, 0)), 8);
    assert_eq!(faces_facing(&m, (0, 0, 1)), 8);
    assert_eq!(faces_facing(&m, (0, 0, -1)), 8);
    for (p, n) in m.positions.iter().zip(m.normals.iter()) {
        match *n {
            (0, 1, 0) => assert_eq!(p.1, 2),
            (0, -1, 0) => assert_eq!(p.1, 0),
            (1, 0, 0) => assert_eq!(p.0, 4),
            (-1, 0, 0) => assert_eq!(p.0, 0),
            (0, 0, 1) => assert_eq!(p.2, 4),
            _ => assert_eq!(p.2, 0),
        }
    }
    assert!(m.packed.iter().all(|a| a & 15 == 2));
}

#[test]
fn rebuild_twice_gives_identical_buffers() {
    let mut t = Terrain::new(6, 6, 6, 4);
    for i in 0..6 {
        t.set(i, i % 5, (i * 2) % 6, Block::Dirt);
        t.set(5 - i, 0, i, Block::Stone);
    }
    let a = t.rebuild();
    assert!(!t.is_dirty());
    let b = t.rebuild();
    assert_eq!(a.positions, b.positions);
    assert_eq!(a.normals, b.normals);
    assert_eq!(a.packed, b.packed);
    assert_eq!(a.indices, b.indices);
    assert!(!a.positions.is_empty());
}

#[test]
fn update_rebuilds_once_per_dirty_window() {
    let mut t = Terrain::new(3, 3, 3, 2);
    assert!(t.update().is_some());
    assert!(t.update().is_none());
    t.set(1, 1, 1, Block::Dirt);
    t.set(0, 0, 0, Block::Stone);
    t.increment_slice(-1);
    let m = t.update().unwrap();
    assert_eq!(face_count(&m), 6);
    assert!(t.update().is_none());
    t.mark_modified();
    assert!(t.update().is_some());
}
