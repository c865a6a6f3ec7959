//! A falling-block puzzle engine on a bit-packed playfield.
//!
//! The playfield is twenty-one sixteen-bit row words: a floor of ones under
//! twenty rows that keep three wall bits at either end and ten playable
//! columns between them. A piece is a 4×4 bit pattern, one of four postures of
//! one of seven shapes. Whether a piece may stand somewhere is a single test
//! of its pattern against the rows under it; walls and floor take part in
//! that test like frozen cells, so that no move needs a bounds check of its
//! own.
//!
//! - [`blocks`]: postures, shapes, the catalogue of patterns, and blocks.
//! - [`playfield`]: what colliding, merging and clearing mean for row words.
//! - [`stage`]: the rows with the falling block, and the commands on it.
//! - [`generator`]: the slot that holds the block to come.
//! - [`tetris`]: the session that paces the fall and keeps the score.
//! - [`bits`]: the bit-level vocabulary that the others are stated in.
//!
//! Every type has a mathematical view, and every operation says in its
//! contract which view it leads to. The types keep their invariants by
//! themselves: a value that exists is well-formed.

pub mod bits;
pub mod blocks;
pub mod generator;
pub mod playfield;
pub mod stage;
pub mod tetris;
