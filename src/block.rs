use vstd::prelude::*;

verus! {

/// One cell of the voxel grid.
///
/// `Oob` is the value read outside the grid: it is never filled, so the
/// grid's border behaves like open air.
#[derive(Debug, Clone, Copy, PartialEq, Eq, Structural)]
pub enum Block {
    Oob,
    Empty,
    Dirt,
    Stone,
}

impl Block {
    /// Whether the block is solid material.
    pub open spec fn filled(self) -> bool {
        self is Dirt || self is Stone
    }

    /// The atlas index of the block's texture.
    pub open spec fn texture(self) -> u32 {
        match self {
            Block::Oob => 0,
            Block::Empty => 0,
            Block::Dirt => 1,
            Block::Stone => 2,
        }
    }

    pub fn is_filled(&self) -> (r: bool)
        ensures
            r == self.filled(),
    {
        match *self {
            Block::Oob => false,
            Block::Empty => false,
            Block::Dirt => true,
            Block::Stone => true,
        }
    }

    pub fn texture_id(&self) -> (r: u32)
        ensures
            r == self.texture(),
            r <= 15,
    {
        match *self {
            Block::Oob => 0,
            Block::Empty => 0,
            Block::Dirt => 1,
            Block::Stone => 2,
        }
    }

    /// The variant's name, as shown to users.
    pub fn name(&self) -> (r: &'static str)
        ensures
            *self == Block::Oob ==> r@ == "Oob"@,
            *self == Block::Empty ==> r@ == "Empty"@,
            *self == Block::Dirt ==> r@ == "Dirt"@,
            *self == Block::Stone ==> r@ == "Stone"@,
    {
        match *self {
            Block::Oob => "Oob",
            Block::Empty => "Empty",
            Block::Dirt => "Dirt",
            Block::Stone => "Stone",
        }
    }
}

} // verus!
