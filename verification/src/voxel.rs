//! A single cell of the voxel grid.

use vstd::prelude::*;

use crate::blocks::BlockId;

verus! {

/// One grid cell: either air, or a solid block of some kind.
///
/// Air is an explicit state, set apart from the block id. The voxels this
/// module makes carry block id zero, the id that no block kind uses, when
/// they are air.
#[derive(Copy, Clone, Debug, PartialEq, Eq, Structural)]
pub struct Voxel {
    /// Whether the cell is empty.
    pub air: bool,
    /// The kind of block in the cell; without meaning for air.
    pub block_id: BlockId,
}

impl Voxel {
    /// Whether this voxel is air.
    pub open spec fn spec_is_air(self) -> bool {
        self.air
    }

    /// The block id this voxel carries.
    pub open spec fn spec_block_id(self) -> BlockId {
        self.block_id
    }

    /// The air voxel as a specification value.
    pub open spec fn spec_air() -> Voxel {
        Voxel { air: true, block_id: 0 }
    }

    /// The voxel made from `block_id` as a specification value.
    pub open spec fn spec_new(block_id: BlockId) -> Voxel {
        Voxel { air: block_id == 0, block_id }
    }

    /// The air voxel.
    pub fn air() -> (v: Voxel)
        ensures
            v == Voxel::spec_air(),
            v.spec_is_air(),
            v.spec_block_id() == 0,
    {
        Voxel { air: true, block_id: 0 }
    }

    /// A voxel of the given block kind. Id zero names no block and gives air.
    pub fn new(block_id: BlockId) -> (v: Voxel)
        ensures
            v == Voxel::spec_new(block_id),
            v.spec_block_id() == block_id,
            v.spec_is_air() <==> block_id == 0,
    {
        Voxel { air: block_id == 0, block_id }
    }

    /// Whether this voxel is air.
    #[verifier::when_used_as_spec(spec_is_air)]
    pub fn is_air(self) -> (b: bool)
        ensures
            b == self.spec_is_air(),
    {
        self.air
    }

    /// Whether this voxel is a solid block.
    pub fn is_solid(self) -> (b: bool)
        ensures
            b == !self.spec_is_air(),
    {
        !self.air
    }

    /// The block id this voxel carries.
    #[verifier::when_used_as_spec(spec_block_id)]
    pub fn block_id(self) -> (id: BlockId)
        ensures
            id == self.spec_block_id(),
    {
        self.block_id
    }
}

} // verus!
