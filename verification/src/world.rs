//! The world's storage layout.

use vstd::prelude::*;

verus! {

/// Blocks along each horizontal axis of a chunk.
pub const CHUNK_WIDTH: usize = 16;

/// Blocks along the vertical axis of a chunk.
pub const CHUNK_HEIGHT: usize = 256;

/// One cell of the world. It carries no data of its own yet.
#[derive(Debug, Clone, Copy, PartialEq, Eq, Structural)]
pub struct Block {}

/// A column of the world, 16 by 256 by 16 blocks, stored as one flat list.
pub struct Chunk {
    pub blocks: Vec<Block>,
    pub position: (i32, i32),
}

impl Chunk {
    /// The chunk holds exactly the blocks of its volume.
    pub open spec fn wf(&self) -> bool {
        self.blocks@.len() == CHUNK_WIDTH * CHUNK_HEIGHT * CHUNK_WIDTH
    }
}

} // verus!
