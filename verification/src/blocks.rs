//! Block kinds and the atlas tiles that draw them.

use vstd::prelude::*;

use bevy::platform::collections::HashMap;

use crate::collections::MAX_TABLE_CAPACITY;

verus! {

/// Identifier of a block kind. Zero names no block.
pub type BlockId = u16;

/// Index of one tile of the block texture atlas.
pub type TileId = u16;

/// Grass: green on top, earth below.
pub const BLOCK_GRASS: BlockId = 1;

/// Dirt.
pub const BLOCK_DIRT: BlockId = 2;

/// Stone.
pub const BLOCK_STONE: BlockId = 3;

/// The largest block id whose three atlas slots still fit a `TileId`.
pub const MAX_BLOCK_ID: BlockId = 21845;

/// The three atlas tiles of one block kind.
#[derive(Copy, Clone, Debug, PartialEq, Eq, Structural)]
pub struct BlockTiles {
    pub top: TileId,
    pub side: TileId,
    pub bottom: TileId,
}

/// The tiles of block `block_id`: three consecutive atlas slots, the first
/// at `(block_id - 1) * 3`, in the order top, side, bottom.
pub open spec fn tiles_of(block_id: BlockId) -> BlockTiles {
    BlockTiles {
        top: ((block_id - 1) * 3) as TileId,
        side: ((block_id - 1) * 3 + 1) as TileId,
        bottom: ((block_id - 1) * 3 + 2) as TileId,
    }
}

/// Whether `block_id` names a block whose atlas slots are representable.
pub open spec fn valid_block_id(block_id: BlockId) -> bool {
    1 <= block_id <= MAX_BLOCK_ID
}

impl BlockTiles {
    /// The tiles of block `block_id`, which must be a block whose three
    /// atlas slots are representable.
    pub fn new(block_id: BlockId) -> (t: BlockTiles)
        requires
            valid_block_id(block_id),
        ensures
            t == tiles_of(block_id),
            t.top == (block_id - 1) * 3,
            t.side == t.top + 1,
            t.bottom == t.top + 2,
    {
        let idx_start: u16 = (block_id - 1) * 3;
        BlockTiles { top: idx_start, side: idx_start + 1, bottom: idx_start + 2 }
    }
}

/// Side of one atlas tile, in pixels.
pub const TILE_PIXELS: u32 = 32;

/// Number of tile rows of the atlas: one each for top, side and bottom.
pub const ATLAS_ROWS: u32 = 3;

/// The size in tiles of an atlas image of `width` by `height` pixels. An
/// atlas is `ATLAS_ROWS` tiles high and a whole number of tiles wide,
/// without padding; any other image is no atlas.
pub open spec fn atlas_grid_of(width: u32, height: u32) -> Option<(u32, u32)> {
    if width % TILE_PIXELS == 0 && height == TILE_PIXELS * ATLAS_ROWS {
        Some((width / TILE_PIXELS, ATLAS_ROWS))
    } else {
        None
    }
}

/// The number of tiles along each side of an atlas image, or `None` when
/// the image does not have the size of an atlas.
pub fn atlas_grid(width: u32, height: u32) -> (grid: Option<(u32, u32)>)
    ensures
        grid == atlas_grid_of(width, height),
{
    if width % TILE_PIXELS == 0 && height == TILE_PIXELS * ATLAS_ROWS {
        Some((width / TILE_PIXELS, height / TILE_PIXELS))
    } else {
        None
    }
}

/// The engine's hash map from block id to tiles.
pub type BlockMap = HashMap<BlockId, BlockTiles>;

/// What a registry's map holds: the tiles stored under each block id.
pub uninterp spec fn registry_entries(blocks: BlockMap) -> Map<BlockId, BlockTiles>;

/// Calls `HashMap::with_capacity`. The new map holds no entry, whatever
/// capacity was asked for. The call panics with a capacity overflow when
/// the table for `capacity` entries outgrows the address space, so only
/// capacities far below that are admitted.
#[verifier::external_body]
fn blocks_with_capacity(capacity: usize) -> (map: BlockMap)
    requires
        capacity <= MAX_TABLE_CAPACITY,
    ensures
        registry_entries(map) == (Map::<BlockId, BlockTiles>::empty()),
{
    HashMap::with_capacity(capacity)
}

/// Calls `HashMap::get` and copies the value out. The result is the entry
/// stored under `id`, or `None` when the map has none.
#[verifier::external_body]
fn blocks_get(blocks: &BlockMap, id: BlockId) -> (found: Option<BlockTiles>)
    ensures
        found == (if registry_entries(*blocks).contains_key(id) {
            Some(registry_entries(*blocks)[id])
        } else {
            None
        }),
{
    blocks.get(&id).copied()
}

/// Calls `HashMap::insert`. Afterwards the map holds `tiles` under `id`
/// and is otherwise unchanged; the result is the entry that `id` had before.
#[verifier::external_body]
fn blocks_insert(blocks: &mut BlockMap, id: BlockId, tiles: BlockTiles) -> (previous: Option<BlockTiles>)
    ensures
        registry_entries(*final(blocks)) == registry_entries(*old(blocks)).insert(id, tiles),
        previous == (if registry_entries(*old(blocks)).contains_key(id) {
            Some(registry_entries(*old(blocks))[id])
        } else {
            None
        }),
{
    blocks.insert(id, tiles)
}

/// The table from block id to atlas tiles.
pub struct BlockRegistry {
    blocks: BlockMap,
}

impl View for BlockRegistry {
    type V = Map<BlockId, BlockTiles>;

    closed spec fn view(&self) -> Map<BlockId, BlockTiles> {
        registry_entries(self.blocks)
    }
}

impl Default for BlockRegistry {
    /// The registry of the blocks the game ships with: grass, dirt and stone.
    fn default() -> (registry: BlockRegistry)
        ensures
            registry@ == (Map::<BlockId, BlockTiles>::empty()).insert(BLOCK_GRASS, tiles_of(BLOCK_GRASS)).insert(
                BLOCK_DIRT,
                tiles_of(BLOCK_DIRT),
            ).insert(BLOCK_STONE, tiles_of(BLOCK_STONE)),
    {
        let mut registry = BlockRegistry::with_capacity(32);
        registry.insert(BLOCK_GRASS);
        registry.insert(BLOCK_DIRT);
        registry.insert(BLOCK_STONE);
        registry
    }
}

impl BlockRegistry {
    /// Whether `id` has been registered.
    pub open spec fn has(&self, id: BlockId) -> bool {
        self@.contains_key(id)
    }

    /// An empty registry with room for `capacity` blocks. No registry holds
    /// more blocks than there are block ids, so room for more is not reserved.
    pub fn with_capacity(capacity: usize) -> (registry: BlockRegistry)
        ensures
            registry@ == (Map::<BlockId, BlockTiles>::empty()),
    {
        let reserved = if capacity > MAX_TABLE_CAPACITY {
            MAX_TABLE_CAPACITY
        } else {
            capacity
        };
        BlockRegistry { blocks: blocks_with_capacity(reserved) }
    }

    /// The tiles registered for `id`, if any.
    pub fn get(&self, id: BlockId) -> (found: Option<BlockTiles>)
        ensures
            found == (if self.has(id) {
                Some(self@[id])
            } else {
                None
            }),
    {
        blocks_get(&self.blocks, id)
    }

    /// The tiles of a registered block.
    pub fn tiles(&self, id: BlockId) -> (t: BlockTiles)
        requires
            self.has(id),
        ensures
            t == self@[id],
    {
        match blocks_get(&self.blocks, id) {
            Some(t) => t,
            None => unreached(),
        }
    }

    /// Registers `block_id` with its computed tiles and returns what was
    /// registered for it before.
    pub fn insert(&mut self, block_id: BlockId) -> (previous: Option<BlockTiles>)
        requires
            valid_block_id(block_id),
        ensures
            final(self)@ == old(self)@.insert(block_id, tiles_of(block_id)),
            previous == (if old(self).has(block_id) {
                Some(old(self)@[block_id])
            } else {
                None
            }),
    {
        blocks_insert(&mut self.blocks, block_id, BlockTiles::new(block_id))
    }
}

} // verus!
