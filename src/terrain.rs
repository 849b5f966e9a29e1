use vstd::prelude::*;

use crate::block::Block;
use crate::face::{neighbor_dir, FaceDir};

verus! {

/// Extent of the default world along x.
pub const MAP_SIZE_X: u16 = 32;

/// Extent of the default world along z.
pub const MAP_SIZE_Z: u16 = 32;

/// Extent of the default world along y (height).
pub const MAP_SIZE_Y: u16 = 32;

/// First hidden layer of the default world.
pub const DEFAULT_SLICE: u16 = 18;

/// Largest extent along one axis: every cell stays addressable by `i16`
/// coordinates.
pub const MAX_EXTENT: u16 = 32767;

/// Largest number of cells in a grid. Keeps every vertex index of a mesh
/// within `u32`.
pub const MAX_VOXELS: usize = 16777216;

/// What a `Terrain` holds, as mathematical values.
pub struct TerrainView {
    pub size_x: int,
    pub size_y: int,
    pub size_z: int,
    /// The first hidden layer: layers `0..slice` are meshed.
    pub slice: int,
    /// The cells, at offset `(x * size_z + z) * size_y + y`.
    pub cells: Seq<Block>,
    /// Whether the mesh is stale with respect to the cells and the slice.
    pub dirty: bool,
}

/// `v` clamped to the slice range `[0, size_y - 1]`.
pub open spec fn clamp_slice(v: int, size_y: int) -> int {
    if v < 0 {
        0
    } else if v > size_y - 1 {
        size_y - 1
    } else {
        v
    }
}

impl TerrainView {
    /// Positive extents small enough for `i16` coordinates and `u32`
    /// vertex indices, one cell per position, and a slice below the top.
    pub open spec fn valid(self) -> bool {
        &&& 1 <= self.size_x <= MAX_EXTENT
        &&& 1 <= self.size_y <= MAX_EXTENT
        &&& 1 <= self.size_z <= MAX_EXTENT
        &&& self.size_x * self.size_y * self.size_z <= MAX_VOXELS
        &&& self.cells.len() == self.size_x * self.size_y * self.size_z
        &&& 0 <= self.slice < self.size_y
    }

    /// Whether `(x, y, z)` lies outside the grid.
    pub open spec fn oob(self, x: int, y: int, z: int) -> bool {
        x < 0 || y < 0 || z < 0 || x >= self.size_x || y >= self.size_y || z >= self.size_z
    }

    /// Where the cell `(x, y, z)` is stored.
    pub open spec fn index(self, x: int, y: int, z: int) -> int {
        (x * self.size_z + z) * self.size_y + y
    }

    /// The block at `(x, y, z)`: `Oob` anywhere outside the grid.
    pub open spec fn cell(self, x: int, y: int, z: int) -> Block {
        if self.oob(x, y, z) {
            Block::Oob
        } else {
            self.cells[self.index(x, y, z)]
        }
    }

    /// The neighbour of `(x, y, z)` one step towards `d`.
    pub open spec fn neighbor(self, x: int, y: int, z: int, d: FaceDir) -> Block {
        self.cell(x + d.step().0, y + d.step().1, z + d.step().2)
    }

    /// The cells and the slice, with the dirty flag cleared.
    pub open spec fn content(self) -> TerrainView {
        TerrainView { dirty: false, ..self }
    }

    /// The same cells and the same slice, dirty or not.
    pub open spec fn same_content(self, other: TerrainView) -> bool {
        &&& self.size_x == other.size_x
        &&& self.size_y == other.size_y
        &&& self.size_z == other.size_z
        &&& self.slice == other.slice
        &&& self.cells == other.cells
    }
}

/// A fixed-size voxel grid with its visible slice and its dirty flag.
pub struct Terrain {
    size_x: u16,
    size_y: u16,
    size_z: u16,
    slice: u16,
    blocks: Vec<Block>,
    dirty: bool,
}

impl View for Terrain {
    type V = TerrainView;

    closed spec fn view(&self) -> TerrainView {
        TerrainView {
            size_x: self.size_x as int,
            size_y: self.size_y as int,
            size_z: self.size_z as int,
            slice: self.slice as int,
            cells: self.blocks@,
            dirty: self.dirty,
        }
    }
}

impl Terrain {
    /// A grid of `size_x * size_y * size_z` empty cells, its slice clamped to
    /// `[0, size_y - 1]`, and dirty: no mesh has been built for it yet.
    pub fn new(size_x: u16, size_y: u16, size_z: u16, slice: u16) -> (r: Terrain)
        requires
            1 <= size_x <= MAX_EXTENT,
            1 <= size_y <= MAX_EXTENT,
            1 <= size_z <= MAX_EXTENT,
            size_x * size_y * size_z <= MAX_VOXELS,
        ensures
            r@.valid(),
            r@.size_x == size_x,
            r@.size_y == size_y,
            r@.size_z == size_z,
            r@.slice == clamp_slice(slice as int, size_y as int),
            r@.dirty,
            forall|x: int, y: int, z: int|
                !r@.oob(x, y, z) ==> #[trigger] r@.cell(x, y, z) == Block::Empty,
    {
        let sx = size_x as usize;
        let sy = size_y as usize;
        let sz = size_z as usize;
        assert(sx * sy * sz <= MAX_VOXELS);
        assert(sx * sy <= sx * sy * sz) by (nonlinear_arith)
            requires
                1 <= sz,
                0 <= sx * sy,
        ;
        let n: usize = sx * sy * sz;
        let mut blocks: Vec<Block> = Vec::new();
        let mut i: usize = 0;
        while i < n
            invariant
                i <= n,
                blocks@.len() == i,
                forall|j: int| 0 <= j < i ==> #[trigger] blocks@[j] == Block::Empty,
            decreases n - i,
        {
            blocks.push(Block::Empty);
            i = i + 1;
        }
        let top = size_y - 1;
        let s = if slice > top {
            top
        } else {
            slice
        };
        let r = Terrain { size_x, size_y, size_z, slice: s, blocks, dirty: true };
        assert forall|x: int, y: int, z: int| !r@.oob(x, y, z) implies #[trigger] r@.cell(
            x,
            y,
            z,
        ) == Block::Empty by {
            lemma_index_bounds(x, y, z, sx as int, sy as int, sz as int);
        }
        r
    }

    pub fn size_x(&self) -> (r: u16)
        ensures
            r == self@.size_x,
    {
        self.size_x
    }

    pub fn size_y(&self) -> (r: u16)
        ensures
            r == self@.size_y,
    {
        self.size_y
    }

    pub fn size_z(&self) -> (r: u16)
        ensures
            r == self@.size_z,
    {
        self.size_z
    }

    /// The first hidden layer.
    pub fn slice(&self) -> (r: u16)
        ensures
            r == self@.slice,
    {
        self.slice
    }

    /// Whether the mesh is stale.
    pub fn is_dirty(&self) -> (r: bool)
        ensures
            r == self@.dirty,
    {
        self.dirty
    }

    /// Whether `(x, y, z)` lies outside the grid.
    pub fn is_pos_oob(&self, x: i16, y: i16, z: i16) -> (r: bool)
        ensures
            r == self@.oob(x as int, y as int, z as int),
    {
        self.is_oob_wide(x as i32, y as i32, z as i32)
    }

    fn is_oob_wide(&self, x: i32, y: i32, z: i32) -> (r: bool)
        ensures
            r == self@.oob(x as int, y as int, z as int),
    {
        x < 0 || y < 0 || z < 0 || x >= self.size_x as i32 || y >= self.size_y as i32 || z
            >= self.size_z as i32
    }

    fn block_at(&self, x: i32, y: i32, z: i32) -> (r: Block)
        requires
            self@.valid(),
        ensures
            r == self@.cell(x as int, y as int, z as int),
    {
        if self.is_oob_wide(x, y, z) {
            return Block::Oob;
        }
        let i = self.offset(x, y, z);
        self.blocks[i]
    }

    fn offset(&self, x: i32, y: i32, z: i32) -> (r: usize)
        requires
            self@.valid(),
            !self@.oob(x as int, y as int, z as int),
        ensures
            r == self@.index(x as int, y as int, z as int),
            r < self@.cells.len(),
    {
        proof {
            lemma_index_bounds(
                x as int,
                y as int,
                z as int,
                self.size_x as int,
                self.size_y as int,
                self.size_z as int,
            );
        }
        (x as usize * self.size_z as usize + z as usize) * self.size_y as usize + y as usize
    }

    /// The block at `(x, y, z)`; `Oob` for any coordinate outside the grid,
    /// which is then never filled.
    pub fn get(&self, x: i16, y: i16, z: i16) -> (r: Block)
        requires
            self@.valid(),
        ensures
            r == self@.cell(x as int, y as int, z as int),
            self@.oob(x as int, y as int, z as int) ==> r == Block::Oob && !r.filled(),
    {
        self.block_at(x as i32, y as i32, z as i32)
    }

    /// The six neighbours of `(x, y, z)`, in the order above, front, right,
    /// behind, left, below.
    pub fn get_neighbors_immediate(&self, x: i16, y: i16, z: i16) -> (r: [Block; 6])
        requires
            self@.valid(),
        ensures
            forall|i: int|
                0 <= i < 6 ==> #[trigger] r@[i] == self@.neighbor(
                    x as int,
                    y as int,
                    z as int,
                    neighbor_dir(i),
                ),
    {
        let (x, y, z) = (x as i32, y as i32, z as i32);
        [
            self.block_at(x, y + 1, z),
            self.block_at(x, y, z - 1),
            self.block_at(x + 1, y, z),
            self.block_at(x, y, z + 1),
            self.block_at(x - 1, y, z),
            self.block_at(x, y - 1, z),
        ]
    }

    /// Writes `block` at `(x, y, z)` if that lies inside the grid, and
    /// reports whether it did. A write that changes the cell makes the
    /// terrain dirty.
    pub fn set(&mut self, x: i16, y: i16, z: i16, block: Block) -> (r: bool)
        requires
            old(self)@.valid(),
        ensures
            final(self)@.valid(),
            r == !old(self)@.oob(x as int, y as int, z as int),
            final(self)@.size_x == old(self)@.size_x,
            final(self)@.size_y == old(self)@.size_y,
            final(self)@.size_z == old(self)@.size_z,
            final(self)@.slice == old(self)@.slice,
            forall|a: int, b: int, c: int|
                #[trigger] final(self)@.cell(a, b, c) == if r && a == x && b == y && c == z {
                    block
                } else {
                    old(self)@.cell(a, b, c)
                },
            final(self)@.dirty == (old(self)@.dirty || (r && old(self)@.cell(
                x as int,
                y as int,
                z as int,
            ) != block)),
    {
        if self.is_oob_wide(x as i32, y as i32, z as i32) {
            return false;
        }
        let ghost pre = self@;
        let i = self.offset(x as i32, y as i32, z as i32);
        if self.blocks[i] != block {
            self.dirty = true;
        }
        self.blocks.set(i, block);
        proof {
            assert forall|a: int, b: int, c: int|
                #[trigger] self@.cell(a, b, c) == if a == x && b == y && c == z {
                    block
                } else {
                    pre.cell(a, b, c)
                } by {
                if !pre.oob(a, b, c) {
                    lemma_index_bounds(a, b, c, pre.size_x, pre.size_y, pre.size_z);
                    if pre.index(a, b, c) == i {
                        lemma_index_injective(
                            a,
                            b,
                            c,
                            x as int,
                            y as int,
                            z as int,
                            pre.size_y,
                            pre.size_z,
                        );
                    }
                }
            }
        }
        true
    }

    /// Sets the slice to `value` clamped to `[0, size_y - 1]`. A change of
    /// the slice makes the terrain dirty.
    pub fn set_slice(&mut self, value: i64)
        requires
            old(self)@.valid(),
        ensures
            final(self)@.valid(),
            final(self)@ == (TerrainView {
                slice: clamp_slice(value as int, old(self)@.size_y),
                dirty: old(self)@.dirty || clamp_slice(value as int, old(self)@.size_y)
                    != old(self)@.slice,
                ..old(self)@
            }),
    {
        let top = (self.size_y - 1) as i64;
        let clamped = if value < 0 {
            0
        } else if value > top {
            top
        } else {
            value
        };
        let s = clamped as u16;
        if s != self.slice {
            self.dirty = true;
        }
        self.slice = s;
    }

    /// Moves the slice by `delta` layers, clamped as `set_slice` does.
    pub fn increment_slice(&mut self, delta: i32)
        requires
            old(self)@.valid(),
        ensures
            final(self)@.valid(),
            final(self)@ == (TerrainView {
                slice: clamp_slice(old(self)@.slice + delta, old(self)@.size_y),
                dirty: old(self)@.dirty || clamp_slice(old(self)@.slice + delta, old(self)@.size_y)
                    != old(self)@.slice,
                ..old(self)@
            }),
    {
        let target = self.slice as i64 + delta as i64;
        self.set_slice(target);
    }

    /// Raises the terrain-modified signal: the mesh must be rebuilt.
    pub fn mark_modified(&mut self)
        ensures
            final(self)@ == (TerrainView { dirty: true, ..old(self)@ }),
    {
        self.dirty = true;
    }

    /// Records that a mesh of the current content has been built.
    pub(crate) fn mark_clean(&mut self)
        ensures
            final(self)@ == (TerrainView { dirty: false, ..old(self)@ }),
    {
        self.dirty = false;
    }
}

impl Default for Terrain {
    /// The default world: 32 cells along each axis, all empty, slice 18.
    fn default() -> (r: Terrain)
        ensures
            r@.valid(),
            r@.size_x == MAP_SIZE_X,
            r@.size_y == MAP_SIZE_Y,
            r@.size_z == MAP_SIZE_Z,
            r@.slice == DEFAULT_SLICE,
            r@.dirty,
            forall|x: int, y: int, z: int|
                !r@.oob(x, y, z) ==> #[trigger] r@.cell(x, y, z) == Block::Empty,
    {
        Terrain::new(MAP_SIZE_X, MAP_SIZE_Y, MAP_SIZE_Z, DEFAULT_SLICE)
    }
}

proof fn lemma_index_bounds(x: int, y: int, z: int, sx: int, sy: int, sz: int)
    requires
        0 <= x < sx,
        0 <= y < sy,
        0 <= z < sz,
    ensures
        0 <= x * sz + z < sx * sz,
        0 <= (x * sz + z) * sy + y < sx * sz * sy,
        sx * sz * sy == sx * sy * sz,
        0 <= x * sz,
        sx * sz <= sx * sz * sy,
{
    assert(0 <= x * sz) by (nonlinear_arith)
        requires
            0 <= x,
            0 <= sz,
    ;
    assert(sx * sz <= sx * sz * sy) by (nonlinear_arith)
        requires
            1 <= sx,
            1 <= sz,
            1 <= sy,
    ;
    assert(0 <= x * sz + z < sx * sz) by (nonlinear_arith)
        requires
            0 <= x < sx,
            0 <= z < sz,
    ;
    let a = x * sz + z;
    let n = sx * sz;
    assert(0 <= a * sy + y < n * sy) by (nonlinear_arith)
        requires
            0 <= a < n,
            0 <= y < sy,
    ;
    assert(sx * sz * sy == sx * sy * sz) by (nonlinear_arith);
}

proof fn lemma_index_injective(
    x1: int,
    y1: int,
    z1: int,
    x2: int,
    y2: int,
    z2: int,
    sy: int,
    sz: int,
)
    requires
        0 <= y1 < sy,
        0 <= y2 < sy,
        0 <= z1 < sz,
        0 <= z2 < sz,
        (x1 * sz + z1) * sy + y1 == (x2 * sz + z2) * sy + y2,
    ensures
        x1 == x2 && y1 == y2 && z1 == z2,
{
    let a1 = x1 * sz + z1;
    let a2 = x2 * sz + z2;
    assert(a1 == a2 && y1 == y2) by (nonlinear_arith)
        requires
            0 <= y1 < sy,
            0 <= y2 < sy,
            a1 * sy + y1 == a2 * sy + y2,
    ;
    assert(x1 == x2 && z1 == z2) by (nonlinear_arith)
        requires
            0 <= z1 < sz,
            0 <= z2 < sz,
            x1 * sz + z1 == x2 * sz + z2,
    ;
}

} // verus!
