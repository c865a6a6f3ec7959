//! The generator: the slot that holds the block to come and refills itself
//! at random.

use vstd::prelude::*;
use crate::blocks::{Block, BlockView};

verus! {

/// The slot that holds the block to come.
#[derive(Clone, Copy, Debug)]
pub struct Generator {
    block: Block,
}

impl View for Generator {
    type V = BlockView;

    closed spec fn view(&self) -> BlockView {
        self.block@
    }
}

impl Generator {
    /// A slot with a random block in it.
    pub fn new() -> (slot: Generator)
        ensures
            0 <= slot@.posture < 4,
    {
        Generator::holding(Block::new())
    }

    /// A slot with `block` in it.
    pub fn holding(block: Block) -> (slot: Generator)
        ensures
            slot@ == block@,
    {
        Generator { block }
    }

    /// The block in the slot.
    pub fn block(&self) -> (block: Block)
        ensures
            block@ == self@,
    {
        self.block
    }

    /// Takes the block out of the slot and puts a random one in.
    pub fn next(&mut self) -> (block: Block)
        ensures
            block@ == old(self)@,
            0 <= final(self)@.posture < 4,
    {
        self.replace(Block::new())
    }

    /// Takes the block out of the slot and puts `fresh` in.
    pub fn replace(&mut self, fresh: Block) -> (block: Block)
        ensures
            block@ == old(self)@,
            final(self)@ == fresh@,
    {
        let block = self.block;
        self.block = fresh;
        block
    }
}

} // verus!
