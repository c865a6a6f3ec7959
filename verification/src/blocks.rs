//! Pieces: the rotation posture, the catalogue of shapes, and a live block.

use vstd::prelude::*;
use crate::bits::{bit, lemma_pattern_masks};

verus! {

/// Whether cell `(i, j)` of a 4×4 pattern is occupied: `i` counts rows from the
/// top, `j` columns from the left, and the pattern holds one row per nibble,
/// the top row in the uppermost nibble.
pub open spec fn piece_cell(data: u16, i: int, j: int) -> bool {
    0 <= i < 4 && 0 <= j < 4 && bit(data, 4 * i + j)
}

/// One of the four rotation states of a piece.
#[derive(Clone, Copy, Debug, PartialEq, Eq, Structural)]
pub struct Posture(u8);

impl View for Posture {
    type V = int;

    closed spec fn view(&self) -> int {
        self.0 as int
    }
}

impl Posture {
    /// Number of rotation states.
    pub const COUNT: u8 = 4;

    /// A posture is always one of `0..4`.
    #[verifier::type_invariant]
    pub open spec fn wf(self) -> bool {
        0 <= self@ < 4
    }

    /// A posture drawn at random.
    pub fn new() -> (p: Posture)
        ensures
            0 <= p@ < 4,
    {
        Posture::from_draw(random_u8())
    }

    /// The posture that a raw byte selects: the byte modulo four.
    pub fn from_draw(draw: u8) -> (p: Posture)
        ensures
            p@ == draw as int % 4,
    {
        Posture(draw % Self::COUNT)
    }

    /// Turns a quarter clockwise: one step up, and from 3 back to 0.
    pub fn clockwise(&mut self)
        ensures
            final(self)@ == turned(old(self)@, 1),
    {
        proof {
            use_type_invariant(&*self);
        }
        if self.0 == Self::COUNT - 1 {
            self.0 = 0;
        } else {
            self.0 += 1;
        }
    }

    /// Turns a quarter anticlockwise: one step down, and from 0 back to 3.
    pub fn anticlockwise(&mut self)
        ensures
            final(self)@ == turned(old(self)@, -1),
    {
        proof {
            use_type_invariant(&*self);
        }
        if self.0 == 0 {
            self.0 = Self::COUNT - 1;
        } else {
            self.0 -= 1;
        }
    }

    /// The posture as an index into a shape's four patterns.
    pub fn index(&self) -> (i: usize)
        ensures
            i == self@,
            i < 4,
    {
        proof {
            use_type_invariant(self);
        }
        self.0 as usize
    }
}

/// The posture reached from `posture` after `quarters` clockwise quarter
/// turns; a negative count turns anticlockwise.
pub open spec fn turned(posture: int, quarters: int) -> int {
    (posture + quarters) % 4
}

/// The seven piece geometries.
#[derive(Clone, Copy, Debug, PartialEq, Eq, Structural)]
pub enum Shape {
    I,
    O,
    Z,
    S,
    L,
    J,
    T,
}

/// Display colours of the shapes.
#[derive(Clone, Copy, Debug, PartialEq, Eq, Structural)]
pub enum Color {
    Red,
    DarkBlue,
    DarkCyan,
    DarkMagenta,
    Blue,
    DarkGreen,
    DarkRed,
}

/// The shape that a raw draw selects: the draw modulo seven, in catalogue
/// order I, O, Z, S, L, J, T.
pub open spec fn shape_of_draw(draw: int) -> Shape {
    let k = draw % 7;
    if k == 0 {
        Shape::I
    } else if k == 1 {
        Shape::O
    } else if k == 2 {
        Shape::Z
    } else if k == 3 {
        Shape::S
    } else if k == 4 {
        Shape::L
    } else if k == 5 {
        Shape::J
    } else {
        Shape::T
    }
}

/// The catalogue: the 4×4 pattern of `shape` in `posture`. Postures outside
/// `0..4` read as posture 3.
pub open spec fn shape_bits(shape: Shape, posture: int) -> u16 {
    match shape {
        Shape::I => if posture == 0 {
            0b0100_0100_0100_0100u16
        } else if posture == 1 {
            0b0000_1111_0000_0000u16
        } else if posture == 2 {
            0b0100_0100_0100_0100u16
        } else {
            0b0000_1111_0000_0000u16
        },
        Shape::O => 0b0000_1100_1100_0000u16,
        Shape::Z => if posture == 0 {
            0b0000_1100_0110_0000u16
        } else if posture == 1 {
            0b0010_0110_0100_0000u16
        } else if posture == 2 {
            0b0000_1100_0110_0000u16
        } else {
            0b0010_0110_0100_0000u16
        },
        Shape::S => if posture == 0 {
            0b0000_0110_1100_0000u16
        } else if posture == 1 {
            0b1000_1100_0100_0000u16
        } else if posture == 2 {
            0b0000_0110_1100_0000u16
        } else {
            0b1000_1100_0100_0000u16
        },
        Shape::L => if posture == 0 {
            0b0100_0100_0110_0000u16
        } else if posture == 1 {
            0b0000_1110_1000_0000u16
        } else if posture == 2 {
            0b1100_0100_0100_0000u16
        } else {
            0b0010_1110_0000_0000u16
        },
        Shape::J => if posture == 0 {
            0b0100_0100_1100_0000u16
        } else if posture == 1 {
            0b1000_1110_0000_0000u16
        } else if posture == 2 {
            0b0110_0100_0100_0000u16
        } else {
            0b0000_1110_0010_0000u16
        },
        Shape::T => if posture == 0 {
            0b0000_1110_0100_0000u16
        } else if posture == 1 {
            0b0100_1100_0100_0000u16
        } else if posture == 2 {
            0b0100_1110_0000_0000u16
        } else {
            0b0100_0110_0100_0000u16
        },
    }
}

/// The catalogue's colour of `shape`.
pub open spec fn shape_color(shape: Shape) -> Color {
    match shape {
        Shape::I => Color::Red,
        Shape::O => Color::DarkBlue,
        Shape::Z => Color::DarkCyan,
        Shape::S => Color::DarkMagenta,
        Shape::L => Color::Blue,
        Shape::J => Color::DarkGreen,
        Shape::T => Color::DarkRed,
    }
}

/// Every pattern of the catalogue has a cell in its two left columns and a
/// cell in its three right columns; in particular none is empty.
pub proof fn lemma_catalogue_spans(shape: Shape, posture: int)
    ensures
        shape_bits(shape, posture) & 0xCCCC != 0,
        shape_bits(shape, posture) & 0x7777 != 0,
        shape_bits(shape, posture) != 0,
{
    lemma_pattern_masks();
}

/// What a block is: its shape and its posture.
pub struct BlockView {
    pub shape: Shape,
    pub posture: int,
}

impl BlockView {
    /// The block's current 4×4 pattern.
    pub open spec fn data(self) -> u16 {
        shape_bits(self.shape, self.posture)
    }

    /// The same shape after `quarters` clockwise quarter turns.
    pub open spec fn rotated(self, quarters: int) -> BlockView {
        BlockView { shape: self.shape, posture: turned(self.posture, quarters) }
    }
}

/// A live piece: a shape, fixed at creation, and a posture that turns in place.
#[derive(Clone, Copy, Debug, PartialEq, Eq, Structural)]
pub struct Block {
    shape: Shape,
    posture: Posture,
}

impl View for Block {
    type V = BlockView;

    closed spec fn view(&self) -> BlockView {
        BlockView { shape: self.shape, posture: self.posture@ }
    }
}

impl Block {
    pub const BLOCKS_COUNT: usize = 7;

    /// The posture of a block is always one of `0..4`.
    #[verifier::type_invariant]
    pub open spec fn wf(self) -> bool {
        0 <= self@.posture < 4
    }

    pub const CELLS_COUNT: i32 = 4;

    pub const CELL_INNER: i32 = 28;

    pub const CELL_EDGE: i32 = 1;

    /// Side of one cell on screen: the inner square and an edge on either side.
    pub fn cell_size() -> (s: i32)
        ensures
            s == 30,
    {
        Self::CELL_EDGE + Self::CELL_INNER + Self::CELL_EDGE
    }

    /// Side of a block's 4×4 bounding box on screen.
    pub fn size() -> (s: i32)
        ensures
            s == 120,
    {
        Self::cell_size() * Self::CELLS_COUNT
    }

    /// A block of random shape and random posture, drawn independently.
    pub fn new() -> (b: Block)
        ensures
            0 <= b@.posture < 4,
    {
        let shape_draw = random_usize();
        let posture = Posture::new();
        Block { shape: shape_from_draw(shape_draw), posture }
    }

    /// The block that two raw draws select: the shape by the first modulo
    /// seven, the posture by the second modulo four.
    pub fn from_draws(shape_draw: usize, posture_draw: u8) -> (b: Block)
        ensures
            b@.shape == shape_of_draw(shape_draw as int),
            b@.posture == posture_draw as int % 4,
    {
        Block { shape: shape_from_draw(shape_draw), posture: Posture::from_draw(posture_draw) }
    }

    /// The shape of the block.
    pub fn shape(&self) -> (s: Shape)
        ensures
            s == self@.shape,
    {
        self.shape
    }

    /// The posture of the block.
    pub fn posture(&self) -> (p: Posture)
        ensures
            p@ == self@.posture,
    {
        self.posture
    }

    /// Turns the block a quarter clockwise. The turn always succeeds: whether
    /// the turned block fits anywhere is for its holder to decide.
    pub fn clockwise(&mut self)
        ensures
            final(self)@ == old(self)@.rotated(1),
    {
        let mut posture = self.posture;
        posture.clockwise();
        self.posture = posture;
    }

    /// Turns the block a quarter anticlockwise. The turn always succeeds.
    pub fn anticlockwise(&mut self)
        ensures
            final(self)@ == old(self)@.rotated(-1),
    {
        let mut posture = self.posture;
        posture.anticlockwise();
        self.posture = posture;
    }

    /// The display colour of the block.
    pub fn color(&self) -> (c: Color)
        ensures
            c == shape_color(self@.shape),
    {
        match self.shape {
            Shape::I => Color::Red,
            Shape::O => Color::DarkBlue,
            Shape::Z => Color::DarkCyan,
            Shape::S => Color::DarkMagenta,
            Shape::L => Color::Blue,
            Shape::J => Color::DarkGreen,
            Shape::T => Color::DarkRed,
        }
    }

    /// The block's 4×4 pattern in its current posture.
    pub fn data(&self) -> (d: u16)
        ensures
            d == self@.data(),
    {
        let p = self.posture.index();
        match self.shape {
            Shape::I => pick(
                p,
                [
                    0b0100_0100_0100_0100,
                    0b0000_1111_0000_0000,
                    0b0100_0100_0100_0100,
                    0b0000_1111_0000_0000,
                ],
            ),
            Shape::O => pick(
                p,
                [
                    0b0000_1100_1100_0000,
                    0b0000_1100_1100_0000,
                    0b0000_1100_1100_0000,
                    0b0000_1100_1100_0000,
                ],
            ),
            Shape::Z => pick(
                p,
                [
                    0b0000_1100_0110_0000,
                    0b0010_0110_0100_0000,
                    0b0000_1100_0110_0000,
                    0b0010_0110_0100_0000,
                ],
            ),
            Shape::S => pick(
                p,
                [
                    0b0000_0110_1100_0000,
                    0b1000_1100_0100_0000,
                    0b0000_0110_1100_0000,
                    0b1000_1100_0100_0000,
                ],
            ),
            Shape::L => pick(
                p,
                [
                    0b0100_0100_0110_0000,
                    0b0000_1110_1000_0000,
                    0b1100_0100_0100_0000,
                    0b0010_1110_0000_0000,
                ],
            ),
            Shape::J => pick(
                p,
                [
                    0b0100_0100_1100_0000,
                    0b1000_1110_0000_0000,
                    0b0110_0100_0100_0000,
                    0b0000_1110_0010_0000,
                ],
            ),
            Shape::T => pick(
                p,
                [
                    0b0000_1110_0100_0000,
                    0b0100_1100_0100_0000,
                    0b0100_1110_0000_0000,
                    0b0100_0110_0100_0000,
                ],
            ),
        }
    }

    /// Whether the block occupies cell `(i, j)` of its bounding box, `i`
    /// counted from the top row and `j` from the left column.
    pub fn has_cell(&self, i: usize, j: usize) -> (b: bool)
        ensures
            b == piece_cell(self@.data(), i as int, j as int),
    {
        if i >= 4 || j >= 4 {
            return false;
        }
        let k: u16 = (15 - (4 * i + j)) as u16;
        (self.data() >> k) & 1 == 1
    }
}

/// The entry of a shape's four patterns that `posture` selects.
fn pick(posture: usize, patterns: [u16; 4]) -> (d: u16)
    ensures
        d == if posture == 0 {
            patterns[0]
        } else if posture == 1 {
            patterns[1]
        } else if posture == 2 {
            patterns[2]
        } else {
            patterns[3]
        },
{
    if posture < 3 {
        patterns[posture]
    } else {
        patterns[3]
    }
}

/// The catalogue entry that a raw draw selects.
fn shape_from_draw(draw: usize) -> (s: Shape)
    ensures
        s == shape_of_draw(draw as int),
{
    let k = draw % Block::BLOCKS_COUNT;
    if k == 0 {
        Shape::I
    } else if k == 1 {
        Shape::O
    } else if k == 2 {
        Shape::Z
    } else if k == 3 {
        Shape::S
    } else if k == 4 {
        Shape::L
    } else if k == 5 {
        Shape::J
    } else {
        Shape::T
    }
}

/// One byte from `rand::random::<u8>()`, which samples the thread-local
/// generator of the `rand` crate. Any byte may come back, so nothing is
/// claimed of it. The call panics where the operating system gives the
/// generator no seed; no argument decides that, so no condition rules it out.
#[verifier::external_body]
fn random_u8() -> (r: u8) {
    rand::random::<u8>()
}

/// One machine word from `rand::random::<usize>()`, which samples the
/// thread-local generator of the `rand` crate. Any value may come back, so
/// nothing is claimed of it. The call panics where the operating system
/// gives the generator no seed.
#[verifier::external_body]
fn random_usize() -> (r: usize) {
    rand::random::<usize>()
}

} // verus!
