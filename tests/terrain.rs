use voxel_terrain::block::Block;
use voxel_terrain::terrain::{Terrain, DEFAULT_SLICE, MAP_SIZE_X, MAP_SIZE_Y, MAP_SIZE_Z};

#[test]
fn block_kinds() {
    assert!(!Block::Oob.is_filled());
    assert!(!Block::Empty.is_filled());
    assert!(Block::Dirt.is_filled());
    assert!(Block::Stone.is_filled());
    assert_eq!(Block::Oob.texture_id(), 0);
    assert_eq!(Block::Empty.texture_id(), 0);
    assert_eq!(Block::Dirt.texture_id(), 1);
    assert_eq!(Block::Stone.texture_id(), 2);
}

#[test]
fn block_names() {
    assert_eq!(Block::Oob.name(), "Oob");
    assert_eq!(Block::Empty.name(), "Empty");
    assert_eq!(Block::Dirt.name(), "Dirt");
    assert_eq!(Block::Stone.name(), "Stone");
}

#[test]
fn default_world() {
    let t = Terrain::default();
    assert_eq!(t.size_x(), MAP_SIZE_X);
    assert_eq!(t.size_y(), MAP_SIZE_Y);
    assert_eq!(t.size_z(), MAP_SIZE_Z);
    assert_eq!(t.slice(), DEFAULT_SLICE);
    assert_eq!(t.slice(), 18);
    assert!(t.is_dirty());
    assert_eq!(t.get(0, 0, 0), Block::Empty);
    assert_eq!(t.get(31, 31, 31), Block::Empty);
}

#[test]
fn out_of_bounds_reads_as_air() {
    let mut t = Terrain::new(4, 5, 6, 2);
    for x in 0..4 {
        for y in 0..5 {
            for z in 0..6 {
                t.set(x, y, z, Block::Stone);
            }
        }
    }
    let outside: [(i16, i16, i16); 9] = [
        (-1, 0, 0),
        (0, -1, 0),
        (0, 0, -1),
        (4, 0, 0),
        (0, 5, 0),
        (0, 0, 6),
        (i16::MIN, i16::MIN, i16::MIN),
        (i16::MAX, 0, 0),
        (3, 4, i16::MAX),
    ];
    for (x, y, z) in outside {
        assert!(t.is_pos_oob(x, y, z));
        assert_eq!(t.get(x, y, z), Block::Oob);
        assert!(!t.get(x, y, z).is_filled());
    }
    assert!(!t.is_pos_oob(3, 4, 5));
    assert_eq!(t.get(3, 4, 5), Block::Stone);
}

#[test]
fn set_and_get() {
    let mut t = Terrain::new(3, 3, 3, 2);
    assert!(t.set(1, 2, 0, Block::Dirt));
    assert_eq!(t.get(1, 2, 0), Block::Dirt);
    assert_eq!(t.get(0, 2, 1), Block::Empty);
    assert_eq!(t.get(1, 0, 2), Block::Empty);
    assert!(!t.set(3, 0, 0, Block::Dirt));
    assert!(!t.set(0, -1, 0, Block::Dirt));
}

#[test]
fn neighbors_in_fixed_order() {
    let mut t = Terrain::new(3, 3, 3, 2);
    t.set(1, 2, 1, Block::Dirt); // above
    t.set(1, 1, 0, Block::Stone); // front
    t.set(2, 1, 1, Block::Dirt); // right
    t.set(1, 1, 2, Block::Stone); // behind
    // left (0, 1, 1) stays empty
    t.set(1, 0, 1, Block::Dirt); // below
    assert_eq!(
        t.get_neighbors_immediate(1, 1, 1),
        [
            Block::Dirt,
            Block::Stone,
            Block::Dirt,
            Block::Stone,
            Block::Empty,
            Block::Dirt
        ]
    );
    assert_eq!(
        t.get_neighbors_immediate(0, 0, 0),
        [
            Block::Empty,
            Block::Oob,
            Block::Empty,
            Block::Empty,
            Block::Oob,
            Block::Oob
        ]
    );
    assert_eq!(t.get_neighbors_immediate(i16::MAX, i16::MIN, 0), [Block::Oob; 6]);
}

#[test]
fn new_clamps_slice() {
    assert_eq!(Terrain::new(4, 4, 4, 4).slice(), 3);
    assert_eq!(Terrain::new(4, 4, 4, 0).slice(), 0);
    assert_eq!(Terrain::new(2, 9, 2, 5).slice(), 5);
}

#[test]
fn set_slice_clamps_and_marks_dirty_on_change() {
    let mut t = Terrain::new(2, 8, 2, 3);
    t.rebuild();
    t.set_slice(3);
    assert!(!t.is_dirty());
    t.set_slice(-5);
    assert_eq!(t.slice(), 0);
    assert!(t.is_dirty());
    t.rebuild();
    t.set_slice(100);
    assert_eq!(t.slice(), 7);
    assert!(t.is_dirty());
    t.rebuild();
    t.set_slice(i64::MIN);
    assert_eq!(t.slice(), 0);
}

#[test]
fn increment_slice_clamps() {
    let mut t = Terrain::new(2, 8, 2, 3);
    t.increment_slice(2);
    assert_eq!(t.slice(), 5);
    t.increment_slice(10);
    assert_eq!(t.slice(), 7);
    t.rebuild();
    t.increment_slice(1);
    assert_eq!(t.slice(), 7);
    assert!(!t.is_dirty());
    t.increment_slice(-100);
    assert_eq!(t.slice(), 0);
    assert!(t.is_dirty());
    t.increment_slice(i32::MAX);
    assert_eq!(t.slice(), 7);
}

#[test]
fn edits_mark_dirty_only_when_content_changes() {
    let mut t = Terrain::new(2, 2, 2, 1);
    t.rebuild();
    t.set(0, 0, 0, Block::Empty);
    assert!(!t.is_dirty());
    t.set(5, 0, 0, Block::Stone);
    assert!(!t.is_dirty());
    t.set(0, 0, 0, Block::Stone);
    assert!(t.is_dirty());
    t.rebuild();
    t.mark_modified();
    assert!(t.is_dirty());
}
