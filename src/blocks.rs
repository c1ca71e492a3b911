//! Block kinds of the voxel game mode, which shares the host with the orbital
//! simulation: their flat colours and the hotbar slots that select them.
use vstd::prelude::*;
use crate::body::Rgb;

verus! {

/// A kind of voxel block.
#[derive(Clone, Copy, Debug, PartialEq, Eq, Structural, Hash)]
pub enum BlockType {
    Grass,
    Dirt,
    Stone,
    Wood,
    Leaves,
    Bedrock,
}

/// Hotbar slot (1 to 5) of each placeable kind; bedrock shows as slot 1.
pub open spec fn slot_of(b: BlockType) -> int {
    match b {
        BlockType::Grass => 1,
        BlockType::Dirt => 2,
        BlockType::Stone => 3,
        BlockType::Wood => 4,
        BlockType::Leaves => 5,
        BlockType::Bedrock => 1,
    }
}

impl BlockType {
    /// Flat colour of the block, channels in thousandths.
    pub fn color(&self) -> (r: Rgb)
        ensures
            *self == BlockType::Grass ==> r == (Rgb { r: 200, g: 800, b: 200 }),
            *self == BlockType::Dirt ==> r == (Rgb { r: 500, g: 300, b: 100 }),
            *self == BlockType::Stone ==> r == (Rgb { r: 500, g: 500, b: 500 }),
            *self == BlockType::Wood ==> r == (Rgb { r: 400, g: 200, b: 0 }),
            *self == BlockType::Leaves ==> r == (Rgb { r: 100, g: 600, b: 100 }),
            *self == BlockType::Bedrock ==> r == (Rgb { r: 100, g: 100, b: 100 }),
    {
        match self {
            BlockType::Grass => Rgb { r: 200, g: 800, b: 200 },
            BlockType::Dirt => Rgb { r: 500, g: 300, b: 100 },
            BlockType::Stone => Rgb { r: 500, g: 500, b: 500 },
            BlockType::Wood => Rgb { r: 400, g: 200, b: 0 },
            BlockType::Leaves => Rgb { r: 100, g: 600, b: 100 },
            BlockType::Bedrock => Rgb { r: 100, g: 100, b: 100 },
        }
    }

    /// The hotbar slot highlighted while this kind is selected.
    pub fn slot(&self) -> (r: u8)
        ensures
            r == slot_of(*self),
    {
        match self {
            BlockType::Grass => 1,
            BlockType::Dirt => 2,
            BlockType::Stone => 3,
            BlockType::Wood => 4,
            BlockType::Leaves => 5,
            BlockType::Bedrock => 1,
        }
    }

    /// The kind a hotbar slot key selects: slots 1 to 5 give grass, dirt, stone, wood
    /// and leaves; any other key selects nothing.
    pub fn from_slot(slot: u8) -> (r: Option<BlockType>)
        ensures
            r is Some <==> 1 <= slot <= 5,
            r matches Some(b) ==> slot_of(b) == slot && b != BlockType::Bedrock,
    {
        match slot {
            1 => Some(BlockType::Grass),
            2 => Some(BlockType::Dirt),
            3 => Some(BlockType::Stone),
            4 => Some(BlockType::Wood),
            5 => Some(BlockType::Leaves),
            _ => None,
        }
    }
}

} // verus!
