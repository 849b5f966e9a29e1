use vstd::prelude::*;

use crate::block::Block;

verus! {

/// The six axis-aligned directions a cube face can point to.
#[derive(Debug, Clone, Copy, PartialEq, Eq, Structural)]
pub enum FaceDir {
    PosX,
    NegX,
    PosY,
    NegY,
    PosZ,
    NegZ,
}

/// The direction of the `i`-th neighbour returned by a neighbour query:
/// above, front, right, behind, left, below.
pub open spec fn neighbor_dir(i: int) -> FaceDir {
    if i == 0 {
        FaceDir::PosY
    } else if i == 1 {
        FaceDir::NegZ
    } else if i == 2 {
        FaceDir::PosX
    } else if i == 3 {
        FaceDir::PosZ
    } else if i == 4 {
        FaceDir::NegX
    } else {
        FaceDir::NegY
    }
}

/// The packed attribute: texture id in bits 0..4, direction code in bits 4..7.
pub open spec fn packed(texture_id: u32, code: u32) -> u32 {
    (texture_id & 15) | ((code & 7) << 4)
}

impl FaceDir {
    /// The direction's code in the packed attribute.
    pub open spec fn code(self) -> u32 {
        match self {
            FaceDir::PosX => 0,
            FaceDir::NegX => 1,
            FaceDir::PosY => 2,
            FaceDir::NegY => 3,
            FaceDir::PosZ => 4,
            FaceDir::NegZ => 5,
        }
    }

    /// The unit step from a cell to its neighbour in this direction.
    pub open spec fn step(self) -> (int, int, int) {
        match self {
            FaceDir::PosX => (1, 0, 0),
            FaceDir::NegX => (-1, 0, 0),
            FaceDir::PosY => (0, 1, 0),
            FaceDir::NegY => (0, -1, 0),
            FaceDir::PosZ => (0, 0, 1),
            FaceDir::NegZ => (0, 0, -1),
        }
    }

    /// The outward unit normal of a face pointing this way.
    pub open spec fn normal(self) -> (i32, i32, i32) {
        let (dx, dy, dz) = self.step();
        (dx as i32, dy as i32, dz as i32)
    }

    /// The offset of the `k`-th vertex of the face, relative to the cell's
    /// minimum corner.
    pub open spec fn corner(self, k: int) -> (u32, u32, u32) {
        let c: Seq<(u32, u32, u32)> = match self {
            FaceDir::PosY => seq![(0, 1, 0), (1, 1, 0), (1, 1, 1), (0, 1, 1)],
            FaceDir::NegZ => seq![(0, 0, 0), (0, 1, 0), (1, 1, 0), (1, 0, 0)],
            FaceDir::PosX => seq![(1, 0, 0), (1, 0, 1), (1, 1, 1), (1, 1, 0)],
            FaceDir::PosZ => seq![(0, 0, 1), (0, 1, 1), (1, 1, 1), (1, 0, 1)],
            FaceDir::NegX => seq![(0, 0, 0), (0, 0, 1), (0, 1, 1), (0, 1, 0)],
            FaceDir::NegY => seq![(0, 0, 0), (1, 0, 0), (1, 0, 1), (0, 0, 1)],
        };
        c[k]
    }

    /// Whether the face belongs to the winding group of the positive axes.
    pub open spec fn positive(self) -> bool {
        self is PosX || self is PosY || self is PosZ
    }

    /// The `j`-th index of the face's two triangles, relative to its first
    /// vertex: one order for the positive axes, the reverse for the others,
    /// so that every triangle is counter-clockwise seen from outside.
    pub open spec fn winding(self, j: int) -> u32 {
        if self.positive() {
            seq![2u32, 1, 0, 0, 3, 2][j]
        } else {
            seq![0u32, 1, 2, 2, 3, 0][j]
        }
    }

    pub fn bit(&self) -> (r: u32)
        ensures
            r == self.code(),
            r <= 5,
    {
        match self {
            FaceDir::PosX => 0,
            FaceDir::NegX => 1,
            FaceDir::PosY => 2,
            FaceDir::NegY => 3,
            FaceDir::PosZ => 4,
            FaceDir::NegZ => 5,
        }
    }

    pub fn normal_vector(&self) -> (r: (i32, i32, i32))
        ensures
            r == self.normal(),
    {
        match self {
            FaceDir::PosX => (1, 0, 0),
            FaceDir::NegX => (-1, 0, 0),
            FaceDir::PosY => (0, 1, 0),
            FaceDir::NegY => (0, -1, 0),
            FaceDir::PosZ => (0, 0, 1),
            FaceDir::NegZ => (0, 0, -1),
        }
    }

    pub fn corner_offset(&self, k: usize) -> (r: (u32, u32, u32))
        requires
            k < 4,
        ensures
            r == self.corner(k as int),
    {
        let c: [(u32, u32, u32); 4] = match self {
            FaceDir::PosY => [(0, 1, 0), (1, 1, 0), (1, 1, 1), (0, 1, 1)],
            FaceDir::NegZ => [(0, 0, 0), (0, 1, 0), (1, 1, 0), (1, 0, 0)],
            FaceDir::PosX => [(1, 0, 0), (1, 0, 1), (1, 1, 1), (1, 1, 0)],
            FaceDir::PosZ => [(0, 0, 1), (0, 1, 1), (1, 1, 1), (1, 0, 1)],
            FaceDir::NegX => [(0, 0, 0), (0, 0, 1), (0, 1, 1), (0, 1, 0)],
            FaceDir::NegY => [(0, 0, 0), (1, 0, 0), (1, 0, 1), (0, 0, 1)],
        };
        c[k]
    }

    pub fn winding_index(&self, j: usize) -> (r: u32)
        requires
            j < 6,
        ensures
            r == self.winding(j as int),
            r < 4,
    {
        let positive: [u32; 6] = [2, 1, 0, 0, 3, 2];
        let negative: [u32; 6] = [0, 1, 2, 2, 3, 0];
        match self {
            FaceDir::PosX | FaceDir::PosY | FaceDir::PosZ => positive[j],
            _ => negative[j],
        }
    }
}

/// The direction of the `i`-th neighbour: above, front, right, behind, left,
/// below.
pub fn neighbor_dir_at(i: usize) -> (r: FaceDir)
    requires
        i < 6,
    ensures
        r == neighbor_dir(i as int),
{
    let order: [FaceDir; 6] = [
        FaceDir::PosY,
        FaceDir::NegZ,
        FaceDir::PosX,
        FaceDir::PosZ,
        FaceDir::NegX,
        FaceDir::NegY,
    ];
    order[i]
}

/// Packs a texture id and a face direction into one vertex attribute.
///
/// Ids above 15 are masked to their low four bits; for ids in range the
/// value splits back into the id and the direction code without loss.
pub fn pack(texture_id: u32, dir: FaceDir) -> (r: u32)
    ensures
        r == packed(texture_id, dir.code()),
        texture_id <= 15 ==> r & 15 == texture_id,
        (r >> 4) & 7 == dir.code(),
        r >> 7 == 0,
{
    let code = dir.bit();
    let r = (texture_id & 15) | ((code & 7) << 4);
    assert(texture_id <= 15 ==> r & 15 == texture_id) by (bit_vector)
        requires
            r == (texture_id & 15) | ((code & 7) << 4),
    ;
    assert((r >> 4) & 7 == code && r >> 7 == 0) by (bit_vector)
        requires
            r == (texture_id & 15) | ((code & 7) << 4),
            code <= 5,
    ;
    r
}

/// The packed attribute of a face of `block` pointing towards `dir`.
pub fn pack_block(block: Block, dir: FaceDir) -> (r: u32)
    ensures
        r == packed(block.texture(), dir.code()),
        r & 15 == block.texture(),
        (r >> 4) & 7 == dir.code(),
{
    let t_id = block.texture_id();
    pack(t_id, dir)
}

} // verus!
