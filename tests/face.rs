use voxel_terrain::block::Block;
use voxel_terrain::face::{neighbor_dir_at, pack, pack_block, FaceDir};

const DIRS: [FaceDir; 6] = [
    FaceDir::PosX,
    FaceDir::NegX,
    FaceDir::PosY,
    FaceDir::NegY,
    FaceDir::PosZ,
    FaceDir::NegZ,
];

#[test]
fn direction_codes() {
    let codes: Vec<u32> = DIRS.iter().map(|d| d.bit()).collect();
    assert_eq!(codes, vec![0, 1, 2, 3, 4, 5]);
}

#[test]
fn pack_splits_back_losslessly() {
    for t in 0u32..16 {
        for d in DIRS.iter() {
            let r = pack(t, *d);
            assert_eq!(r & 15, t);
            assert_eq!((r >> 4) & 7, d.bit());
            assert_eq!(r >> 7, 0);
        }
    }
}

#[test]
fn pack_exact_values() {
    assert_eq!(pack(0, FaceDir::PosX), 0);
    assert_eq!(pack(15, FaceDir::NegZ), 15 | (5 << 4));
    assert_eq!(pack(2, FaceDir::PosY), 0b010_0010);
}

#[test]
fn pack_masks_wide_texture_ids() {
    assert_eq!(pack(17, FaceDir::NegX), 1 | (1 << 4));
    assert_eq!(pack(0xffff_ffff, FaceDir::PosX), 15);
}

#[test]
fn pack_block_uses_texture_id() {
    assert_eq!(pack_block(Block::Dirt, FaceDir::PosY), 1 | (2 << 4));
    assert_eq!(pack_block(Block::Stone, FaceDir::NegY), 2 | (3 << 4));
    assert_eq!(pack_block(Block::Empty, FaceDir::PosZ), 4 << 4);
}

#[test]
fn neighbor_order() {
    let order: Vec<FaceDir> = (0..6).map(neighbor_dir_at).collect();
    assert_eq!(
        order,
        vec![
            FaceDir::PosY,
            FaceDir::NegZ,
            FaceDir::PosX,
            FaceDir::PosZ,
            FaceDir::NegX,
            FaceDir::NegY
        ]
    );
}

#[test]
fn normals_are_axis_units() {
    assert_eq!(FaceDir::PosX.normal_vector(), (1, 0, 0));
    assert_eq!(FaceDir::NegX.normal_vector(), (-1, 0, 0));
    assert_eq!(FaceDir::PosY.normal_vector(), (0, 1, 0));
    assert_eq!(FaceDir::NegY.normal_vector(), (0, -1, 0));
    assert_eq!(FaceDir::PosZ.normal_vector(), (0, 0, 1));
    assert_eq!(FaceDir::NegZ.normal_vector(), (0, 0, -1));
}

#[test]
fn winding_groups() {
    for d in [FaceDir::PosX, FaceDir::PosY, FaceDir::PosZ] {
        let w: Vec<u32> = (0..6).map(|j| d.winding_index(j)).collect();
        assert_eq!(w, vec![2, 1, 0, 0, 3, 2]);
    }
    for d in [FaceDir::NegX, FaceDir::NegY, FaceDir::NegZ] {
        let w: Vec<u32> = (0..6).map(|j| d.winding_index(j)).collect();
        assert_eq!(w, vec![0, 1, 2, 2, 3, 0]);
    }
}
