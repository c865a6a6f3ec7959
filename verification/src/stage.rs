//! The stage: the playfield together with the piece that is falling in it.

use vstd::prelude::*;
use crate::bits::{bit, lemma_or_keeps, lemma_sentinels_walled};
use crate::blocks::{Block, BlockView, lemma_catalogue_spans};
use crate::playfield::{
    DEFAULT_ROW_DATA, GROUND_ROW_DATA, SPAWN_COL, SPAWN_ROW, cleared, collides, empty_rows,
    full_rows, keeps, merged, no_full_row, resting_row, rows_wf, stamp, walled,
};
use crate::playfield::{
    lemma_cleared_wf, lemma_clears_two_rows, lemma_collides_is_overlap, lemma_floor_collides,
    lemma_merge_fills_at_most_four, lemma_merged_wf, lemma_resting_row, lemma_walls_collide,
};

verus! {

/// What a key can ask of the stage.
#[derive(Clone, Copy, Debug, PartialEq, Eq, Structural)]
pub enum Command {
    /// One column to the left.
    Left,
    /// One column to the right.
    Right,
    /// A quarter turn anticlockwise.
    Anticlockwise,
    /// A quarter turn clockwise.
    Clockwise,
    /// One row down.
    Down,
    /// Straight down to the resting row.
    Drop,
    /// Leave: nothing for the stage to do.
    Escape,
}

/// The command that the key with text `key` stands for: `a` and `d` move,
/// `q` and `e` turn, `s` lowers, the space bar drops, and the escape key
/// leaves. Any other text stands for nothing.
pub open spec fn command_of(key: Seq<char>) -> Option<Command> {
    if key.len() != 1 {
        None
    } else if key[0] == 'a' {
        Some(Command::Left)
    } else if key[0] == 'd' {
        Some(Command::Right)
    } else if key[0] == 'q' {
        Some(Command::Anticlockwise)
    } else if key[0] == 'e' {
        Some(Command::Clockwise)
    } else if key[0] == 's' {
        Some(Command::Down)
    } else if key[0] == ' ' {
        Some(Command::Drop)
    } else if key[0] == '\u{1b}' {
        Some(Command::Escape)
    } else {
        None
    }
}

impl Command {
    /// The command that the key with text `key` stands for.
    pub fn from_key(key: &str) -> (command: Option<Command>)
        ensures
            command == command_of(key@),
    {
        if key.unicode_len() != 1 {
            return None;
        }
        let c = key.get_char(0);
        if c == 'a' {
            Some(Command::Left)
        } else if c == 'd' {
            Some(Command::Right)
        } else if c == 'q' {
            Some(Command::Anticlockwise)
        } else if c == 'e' {
            Some(Command::Clockwise)
        } else if c == 's' {
            Some(Command::Down)
        } else if c == ' ' {
            Some(Command::Drop)
        } else if c == '\u{1b}' {
            Some(Command::Escape)
        } else {
            None
        }
    }
}

/// What a stage is: its rows, the falling block if there is one, where that
/// block is anchored, and the row at which it would come to rest.
pub struct StageView {
    pub rows: Seq<u16>,
    pub dropping: Option<BlockView>,
    pub col: int,
    pub row: int,
    pub shadow_row: int,
}

impl StageView {
    /// The rows are a playfield, and a falling block stands within the
    /// playfield's bounds with its resting row up to date.
    pub open spec fn wf(self) -> bool {
        &&& rows_wf(self.rows)
        &&& self.dropping matches Some(b) ==> {
            &&& 0 <= b.posture < 4
            &&& 2 <= self.col <= 11
            &&& 1 <= self.row <= 20
            &&& self.shadow_row == resting_row(self.rows, self.col, self.row, b.data())
        }
    }

    /// An empty stage that waits for its first block.
    pub open spec fn fresh() -> StageView {
        StageView::holding(empty_rows())
    }

    /// A stage with the given rows and no block.
    pub open spec fn holding(rows: Seq<u16>) -> StageView {
        StageView {
            rows,
            dropping: None,
            col: SPAWN_COL as int,
            row: SPAWN_ROW as int,
            shadow_row: 0,
        }
    }

    /// The stage with block `b` anchored at `(col, row)`.
    pub open spec fn placed(self, b: BlockView, col: int, row: int) -> StageView {
        StageView {
            dropping: Some(b),
            col,
            row,
            shadow_row: resting_row(self.rows, col, row, b.data()),
            ..self
        }
    }

    /// The stage with block `b` anchored at `(col, row)` if it fits there, and
    /// the stage as it is if it does not.
    pub open spec fn try_place(self, b: BlockView, col: int, row: int) -> StageView {
        if collides(self.rows, col, row, b.data()) {
            self
        } else {
            self.placed(b, col, row)
        }
    }

    /// Whether a block entering now would overlap what is frozen.
    pub open spec fn is_fulled(self, b: BlockView) -> bool {
        collides(self.rows, SPAWN_COL as int, SPAWN_ROW as int, b.data())
    }

    /// The stage after block `b` has entered at the spawn position.
    pub open spec fn next_block(self, b: BlockView) -> StageView {
        self.placed(b, SPAWN_COL as int, SPAWN_ROW as int)
    }

    /// The stage after an attempt to move the falling block `dc` columns to
    /// the right.
    pub open spec fn shift(self, dc: int) -> StageView {
        match self.dropping {
            Some(b) => self.try_place(b, self.col + dc, self.row),
            None => self,
        }
    }

    /// The stage after an attempt to turn the falling block by `quarters`
    /// clockwise quarter turns.
    pub open spec fn turn(self, quarters: int) -> StageView {
        match self.dropping {
            Some(b) => self.try_place(b.rotated(quarters), self.col, self.row),
            None => self,
        }
    }

    /// The stage after an attempt to move the falling block one row down.
    pub open spec fn soft_drop(self) -> StageView {
        match self.dropping {
            Some(b) => self.try_place(b, self.col, self.row - 1),
            None => self,
        }
    }

    /// The stage after the falling block has gone straight to its resting
    /// row.
    pub open spec fn hard_drop(self) -> StageView {
        match self.dropping {
            Some(b) => StageView { row: self.shadow_row, ..self },
            None => self,
        }
    }

    /// The stage after `command` is carried out.
    pub open spec fn apply(self, command: Command) -> StageView {
        match command {
            Command::Left => self.shift(-1),
            Command::Right => self.shift(1),
            Command::Anticlockwise => self.turn(-1),
            Command::Clockwise => self.turn(1),
            Command::Down => self.soft_drop(),
            Command::Drop => self.hard_drop(),
            Command::Escape => self,
        }
    }

    /// The stage after the key with text `key` is pressed.
    pub open spec fn on_keydown(self, key: Seq<char>) -> StageView {
        match command_of(key) {
            Some(command) => self.apply(command),
            None => self,
        }
    }

    /// Whether the falling block, if there is one, overlaps nothing that is
    /// frozen.
    pub open spec fn fits(self) -> bool {
        self.dropping matches Some(b) ==> !collides(self.rows, self.col, self.row, b.data())
    }

    /// Whether the falling block has something right under it.
    pub open spec fn landed(self) -> bool {
        self.dropping matches Some(b) && collides(self.rows, self.col, self.row - 1, b.data())
    }

    /// The rows once the falling block is merged into them.
    pub open spec fn merged_rows(self) -> Seq<u16> {
        match self.dropping {
            Some(b) => merged(self.rows, self.col, self.row, b.data()),
            None => self.rows,
        }
    }

    /// The stage after the falling block is frozen: its cells are merged into
    /// the rows, full rows are cleared, and no block is falling any more.
    /// Without a falling block the stage stays as it is.
    pub open spec fn freeze(self) -> StageView {
        match self.dropping {
            Some(b) => StageView { rows: cleared(self.merged_rows()), dropping: None, ..self },
            None => self,
        }
    }

    /// The number of rows that freezing the falling block clears.
    pub open spec fn freeze_removed(self) -> int {
        match self.dropping {
            Some(b) => full_rows(self.merged_rows()),
            None => 0,
        }
    }

    /// The stage after one step of gravity: a landed block freezes, any other
    /// goes one row down, and without a block nothing happens.
    pub open spec fn tick(self) -> StageView {
        if self.landed() {
            self.freeze()
        } else {
            self.soft_drop()
        }
    }

    /// The number of rows that one step of gravity clears.
    pub open spec fn tick_removed(self) -> int {
        if self.landed() {
            self.freeze_removed()
        } else {
            0
        }
    }
}

impl StageView {
    /// The resting row of a falling block is up to date: it lies between row
    /// 1 and the block's row, the block cannot go below it, and it can go
    /// through every row down to it.
    pub proof fn lemma_shadow_row(self)
        requires
            self.wf(),
            self.dropping is Some,
        ensures
            1 <= self.shadow_row <= self.row,
            collides(self.rows, self.col, self.shadow_row - 1, self.dropping->0.data()),
            forall|r: int|
                self.shadow_row <= r < self.row ==> !#[trigger] collides(
                    self.rows,
                    self.col,
                    r,
                    self.dropping->0.data(),
                ),
    {
        let b = self.dropping->0;
        lemma_resting_row(self.rows, self.col, self.row, b.data());
    }

    /// A block that is put where it does not collide stands within the
    /// bounds that a well-formed stage keeps.
    proof fn lemma_try_place_wf(self, b: BlockView, col: int, row: int)
        requires
            self.wf(),
            0 <= b.posture < 4,
            1 <= col <= 12,
            row <= 20,
        ensures
            self.try_place(b, col, row).wf(),
    {
        lemma_catalogue_spans(b.shape, b.posture);
        if !collides(self.rows, col, row, b.data()) {
            if col == 1 || col == 12 {
                lemma_walls_collide(self.rows, col, row, b.data());
            }
            if row <= 0 {
                lemma_floor_collides(self.rows, col, row, b.data());
            }
        }
    }

    /// Letting a block enter keeps the stage well-formed.
    pub proof fn lemma_next_block_wf(self, b: BlockView)
        requires
            self.wf(),
            0 <= b.posture < 4,
        ensures
            self.next_block(b).wf(),
    {
    }

    /// Every command keeps the stage well-formed: no move or turn takes the
    /// falling block into a wall, into the floor or out of the playfield.
    pub proof fn lemma_apply_wf(self, command: Command)
        requires
            self.wf(),
        ensures
            self.apply(command).wf(),
    {
        if let Some(b) = self.dropping {
            self.lemma_try_place_wf(b, self.col - 1, self.row);
            self.lemma_try_place_wf(b, self.col + 1, self.row);
            lemma_resting_row(self.rows, self.col, self.row, b.data());
        }
    }

    /// A block that enters fits exactly if the stage is not full for it.
    pub proof fn lemma_next_block_fits(self, b: BlockView)
        ensures
            self.next_block(b).fits() <==> !self.is_fulled(b),
    {
    }

    /// A falling block that overlaps nothing frozen still overlaps nothing
    /// after any command and after a step of gravity.
    pub proof fn lemma_fits_is_kept(self, command: Command)
        requires
            self.wf(),
            self.fits(),
        ensures
            self.apply(command).fits(),
            self.tick().fits(),
    {
        if self.dropping is Some {
            self.lemma_shadow_row();
        }
    }

    /// After a drop the falling block has landed: the next step of gravity
    /// freezes it where it is and takes it no further down.
    pub proof fn lemma_hard_drop_lands(self)
        requires
            self.wf(),
            self.dropping is Some,
        ensures
            self.hard_drop().landed(),
            self.hard_drop().row == self.shadow_row,
            self.hard_drop().tick() == self.hard_drop().freeze(),
            self.hard_drop().tick().dropping is None,
    {
        self.lemma_shadow_row();
    }

    /// A freeze keeps the stage well-formed, clears between none and twenty
    /// rows, and leaves no playable row full.
    pub proof fn lemma_freeze_wf(self)
        requires
            self.wf(),
        ensures
            self.freeze().wf(),
            0 <= self.freeze_removed() <= 20,
            self.dropping is Some ==> forall|r: int|
                1 <= r <= 20 ==> #[trigger] self.freeze().rows[r] != GROUND_ROW_DATA,
    {
        if let Some(b) = self.dropping {
            lemma_merged_wf(self.rows, self.col, self.row, b.data());
            lemma_cleared_wf(self.merged_rows());
        }
    }

    /// On a stage without a full row a freeze clears four rows at most, and
    /// no command, no spawn and no step of gravity brings a full row about.
    pub proof fn lemma_no_full_row(self, command: Command, b: BlockView)
        requires
            self.wf(),
            no_full_row(self.rows),
        ensures
            0 <= self.freeze_removed() <= 4,
            0 <= self.tick_removed() <= 4,
            no_full_row(self.freeze().rows),
            no_full_row(self.tick().rows),
            no_full_row(self.apply(command).rows),
            no_full_row(self.next_block(b).rows),
    {
        if let Some(falling) = self.dropping {
            lemma_merge_fills_at_most_four(self.rows, self.col, self.row, falling.data());
        }
    }

    /// A step of gravity keeps the stage well-formed.
    pub proof fn lemma_tick_wf(self)
        requires
            self.wf(),
        ensures
            self.tick().wf(),
            0 <= self.tick_removed() <= 20,
    {
        self.lemma_freeze_wf();
        self.lemma_apply_wf(Command::Down);
    }

    /// After a freeze the stage waits for a block, and until one enters
    /// neither a step of gravity nor another freeze changes anything or
    /// clears a row.
    pub proof fn lemma_idle_after_freeze(self)
        ensures
            self.freeze().dropping is None,
            self.freeze().tick() == self.freeze(),
            self.freeze().tick_removed() == 0,
            self.freeze().freeze() == self.freeze(),
            self.freeze().freeze_removed() == 0,
            self.landed() ==> self.tick() == self.freeze(),
    {
    }

    /// Where freezing the falling block leaves exactly rows `a` and `b`
    /// full, the freeze clears those two: the rows below `a` stay, the rows
    /// between move down by one, the rows above `b` move down by two, all in
    /// their old order, and the two rows at the top are empty.
    pub proof fn lemma_freeze_clears_two_rows(self, a: int, b: int)
        requires
            self.wf(),
            self.dropping is Some,
            1 <= a < b <= 20,
            forall|r: int|
                1 <= r <= 20 ==> (self.merged_rows()[r] == GROUND_ROW_DATA <==> (r == a || r
                    == b)),
        ensures
            self.freeze_removed() == 2,
            self.freeze().dropping is None,
            self.freeze().rows.len() == 21,
            self.freeze().rows[0] == GROUND_ROW_DATA,
            forall|r: int| 1 <= r < a ==> self.freeze().rows[r] == self.merged_rows()[r],
            forall|r: int| a < r < b ==> self.freeze().rows[r - 1] == self.merged_rows()[r],
            forall|r: int| b < r <= 20 ==> self.freeze().rows[r - 2] == self.merged_rows()[r],
            self.freeze().rows[19] == DEFAULT_ROW_DATA,
            self.freeze().rows[20] == DEFAULT_ROW_DATA,
    {
        lemma_clears_two_rows(self.merged_rows(), a, b);
    }
}

/// The playfield and the block that falls in it.
#[derive(Clone, Copy, Debug)]
pub struct Stage {
    rows: [u16; 21],
    dropping: Option<Block>,
    col: i32,
    row: i32,
    shadow_row: i32,
}

impl View for Stage {
    type V = StageView;

    closed spec fn view(&self) -> StageView {
        StageView {
            rows: self.rows@,
            dropping: match self.dropping {
                Some(b) => Some(b@),
                None => None,
            },
            col: self.col as int,
            row: self.row as int,
            shadow_row: self.shadow_row as int,
        }
    }
}

impl Stage {
    /// A stage is always well-formed.
    #[verifier::type_invariant]
    pub open spec fn wf(self) -> bool {
        self@.wf()
    }

    /// An empty stage that waits for its first block.
    pub fn new() -> (stage: Stage)
        ensures
            stage@ == StageView::fresh(),
    {
        let empty: u16 = DEFAULT_ROW_DATA;
        let mut rows: [u16; 21] = [empty;21];
        rows[0] = GROUND_ROW_DATA;
        proof {
            assert(rows@ =~= empty_rows());
            lemma_sentinels_walled();
        }
        Stage { rows, dropping: None, col: SPAWN_COL, row: SPAWN_ROW, shadow_row: 0 }
    }

    /// Whether the stage waits for a block.
    pub fn need_block(&self) -> (need: bool)
        ensures
            need == (self@.dropping is None),
    {
        self.dropping.is_none()
    }

    /// Whether a piece with pattern `data`, anchored at column `col` of row
    /// `row`, collides with what is on the stage. The four columns from `col`
    /// may hang over the left edge by up to three, where nothing is in the
    /// way; rows below the floor read as the floor.
    pub fn collide_at(&self, col: i32, row: i32, data: u16) -> (hit: bool)
        requires
            -3 <= col <= 12,
            row <= 20,
        ensures
            hit == collides(self@.rows, col as int, row as int, data),
    {
        let shift: u16 = (12 - col) as u16;
        let n0 = (self.rows[Self::probe(row, 0)] >> shift) & 0x000F;
        let n1 = (self.rows[Self::probe(row, 1)] >> shift) & 0x000F;
        let n2 = (self.rows[Self::probe(row, 2)] >> shift) & 0x000F;
        let n3 = (self.rows[Self::probe(row, 3)] >> shift) & 0x000F;
        let pos_data = (n0 << 12) | (n1 << 8) | (n2 << 4) | n3;
        proof {
            lemma_collides_is_overlap(self@.rows, col as int, row as int, data);
        }
        pos_data & data != 0
    }

    /// The index of the row that lies `i` below `row`, the floor standing in
    /// for everything below it.
    fn probe(row: i32, i: i32) -> (r: usize)
        requires
            row <= 20,
            0 <= i < 4,
        ensures
            r == crate::playfield::clamp_row(row - i),
            r <= 20,
    {
        if row > i {
            (row - i) as usize
        } else {
            0
        }
    }

    /// Whether `b`, entering now, would overlap what is frozen: the sign that
    /// the stage is full.
    pub fn is_fulled(&self, b: Block) -> (full: bool)
        ensures
            full == self@.is_fulled(b@),
    {
        self.collide_at(SPAWN_COL, SPAWN_ROW, b.data())
    }

    /// Lets `b` enter at the spawn position. Whether it fits there is not
    /// asked: `is_fulled` tells.
    pub fn next_block(&mut self, b: Block)
        ensures
            final(self)@ == old(self)@.next_block(b@),
    {
        self.place(b, SPAWN_COL, SPAWN_ROW);
    }

    /// The row at which a piece anchored at `(col, row)` comes to rest when it
    /// falls straight down.
    fn shadow(&self, col: i32, row: i32, data: u16) -> (shadow_row: i32)
        requires
            0 <= col <= 12,
            1 <= row <= 20,
            data != 0,
        ensures
            shadow_row == resting_row(self@.rows, col as int, row as int, data),
            1 <= shadow_row <= row,
    {
        proof {
            use_type_invariant(self);
        }
        let mut shadow_row = row;
        while !self.collide_at(col, shadow_row - 1, data)
            invariant
                1 <= shadow_row <= row <= 20,
                0 <= col <= 12,
                data != 0,
                rows_wf(self@.rows),
                resting_row(self@.rows, col as int, shadow_row as int, data) == resting_row(
                    self@.rows,
                    col as int,
                    row as int,
                    data,
                ),
            decreases shadow_row,
        {
            proof {
                if shadow_row == 1 {
                    lemma_floor_collides(self@.rows, col as int, 0, data);
                }
            }
            shadow_row -= 1;
        }
        shadow_row
    }

    /// Anchors `b` at `(col, row)` and brings the resting row up to date.
    fn place(&mut self, b: Block, col: i32, row: i32)
        requires
            2 <= col <= 11,
            1 <= row <= 20,
        ensures
            final(self)@ == old(self)@.placed(b@, col as int, row as int),
    {
        proof {
            use_type_invariant(&*self);
            use_type_invariant(&b);
        }
        let shadow_row = self.shadow(col, row, b.data());
        *self = Stage { rows: self.rows, dropping: Some(b), col, row, shadow_row };
    }

    /// Anchors `b` at `(col, row)` if it fits there, and otherwise leaves the
    /// stage as it is.
    fn try_place(&mut self, b: Block, col: i32, row: i32)
        requires
            1 <= col <= 12,
            0 <= row <= 20,
        ensures
            final(self)@ == old(self)@.try_place(b@, col as int, row as int),
    {
        proof {
            use_type_invariant(&*self);
        }
        if !self.collide_at(col, row, b.data()) {
            proof {
                lemma_catalogue_spans(b@.shape, b@.posture);
                if col == 1 || col == 12 {
                    lemma_walls_collide(self@.rows, col as int, row as int, b@.data());
                }
                if row == 0 {
                    lemma_floor_collides(self@.rows, col as int, row as int, b@.data());
                }
            }
            self.place(b, col, row);
        }
    }

    /// Moves the falling block one column to the left if it fits there.
    pub fn move_left(&mut self)
        ensures
            final(self)@ == old(self)@.shift(-1),
    {
        proof {
            use_type_invariant(&*self);
        }
        if let Some(b) = self.dropping {
            self.try_place(b, self.col - 1, self.row);
        }
    }

    /// Moves the falling block one column to the right if it fits there.
    pub fn move_right(&mut self)
        ensures
            final(self)@ == old(self)@.shift(1),
    {
        proof {
            use_type_invariant(&*self);
        }
        if let Some(b) = self.dropping {
            self.try_place(b, self.col + 1, self.row);
        }
    }

    /// Turns the falling block a quarter clockwise if it fits that way.
    pub fn rotate_clockwise(&mut self)
        ensures
            final(self)@ == old(self)@.turn(1),
    {
        proof {
            use_type_invariant(&*self);
        }
        if let Some(b) = self.dropping {
            let mut b2 = b;
            b2.clockwise();
            self.try_place(b2, self.col, self.row);
        }
    }

    /// Turns the falling block a quarter anticlockwise if it fits that way.
    pub fn rotate_anticlockwise(&mut self)
        ensures
            final(self)@ == old(self)@.turn(-1),
    {
        proof {
            use_type_invariant(&*self);
        }
        if let Some(b) = self.dropping {
            let mut b2 = b;
            b2.anticlockwise();
            self.try_place(b2, self.col, self.row);
        }
    }

    /// Moves the falling block one row down if it fits there.
    pub fn soft_drop(&mut self)
        ensures
            final(self)@ == old(self)@.soft_drop(),
    {
        proof {
            use_type_invariant(&*self);
        }
        if let Some(b) = self.dropping {
            self.try_place(b, self.col, self.row - 1);
        }
    }

    /// Sends the falling block straight down to its resting row.
    pub fn hard_drop(&mut self)
        ensures
            final(self)@ == old(self)@.hard_drop(),
    {
        proof {
            use_type_invariant(&*self);
        }
        if let Some(b) = self.dropping {
            proof {
                lemma_resting_row(self@.rows, self@.col, self@.row, b@.data());
            }
            self.row = self.shadow_row;
        }
    }

    /// Freezes the falling block: merges its cells into the rows under it,
    /// takes out every full row, lets the rows above sink down in their
    /// order, fills up with empty rows from the top, and gives up the block.
    /// Returns the number of rows taken out. Without a falling block nothing
    /// happens.
    pub fn freeze(&mut self) -> (removed: i32)
        ensures
            final(self)@ == old(self)@.freeze(),
            removed == old(self)@.freeze_removed(),
            0 <= removed <= 20,
    {
        proof {
            use_type_invariant(&*self);
        }
        match self.dropping {
            None => 0,
            Some(b) => {
                let merged_rows = self.merge(b.data());
                let (rows, removed) = Self::compact(&merged_rows);
                self.dropping = None;
                self.rows = rows;
                removed
            },
        }
    }

    /// The rows with a piece of pattern `data`, anchored where the falling
    /// block is, merged into them.
    fn merge(&self, data: u16) -> (rows: [u16; 21])
        requires
            0 <= self@.col < 16,
            1 <= self@.row <= 20,
        ensures
            rows@ == merged(self@.rows, self@.col, self@.row, data),
            rows_wf(rows@),
    {
        proof {
            use_type_invariant(self);
            lemma_merged_wf(self@.rows, self@.col, self@.row, data);
        }
        let col: u16 = self.col as u16;
        let mut rows = self.rows;
        let mut i: i32 = 0;
        while i < 4
            invariant
                0 <= i <= 4,
                1 <= self.row <= 20,
                col == self.col,
                0 <= self.col < 16,
                self.rows@[0] == GROUND_ROW_DATA,
                forall|r: int|
                    0 <= r <= 20 ==> #[trigger] rows@[r] == if 1 <= r && 0 <= self.row - r < i {
                        self.rows@[r] | stamp(data, self.row - r, self.col as int)
                    } else {
                        self.rows@[r]
                    },
            decreases 4 - i,
        {
            let r = Self::probe(self.row, i);
            let up: u16 = (4 * i) as u16;
            let cells = ((data << up) & 0xF000) >> col;
            proof {
                lemma_or_keeps(rows@[r as int], cells);
            }
            rows[r] = rows[r] | cells;
            i += 1;
        }
        rows
    }

    /// The rows with every full playable row taken out, and the number of
    /// rows taken out.
    fn compact(rows: &[u16; 21]) -> (out: ([u16; 21], i32))
        requires
            rows_wf(rows@),
        ensures
            out.0@ == cleared(rows@),
            out.1 == full_rows(rows@),
            0 <= out.1 <= 20,
            rows_wf(out.0@),
    {
        let empty: u16 = DEFAULT_ROW_DATA;
        let mut out: [u16; 21] = [empty;21];
        out[0] = rows[0];
        let mut kept: usize = 0;
        let mut r: usize = 1;
        proof {
            lemma_sentinels_walled();
        }
        while r < 21
            invariant
                1 <= r <= 21,
                kept <= r - 1,
                rows_wf(rows@),
                out@[0] == rows@[0],
                out@.subrange(1, 1 + kept as int) == rows@.subrange(1, r as int).filter(keeps()),
                forall|k: int| 1 + kept <= k <= 20 ==> #[trigger] out@[k] == DEFAULT_ROW_DATA,
                forall|k: int| 1 <= k <= 20 ==> walled(#[trigger] out@[k]),
            decreases 21 - r,
        {
            let word = rows[r];
            proof {
                reveal(Seq::filter);
                let before = rows@.subrange(1, r as int);
                let after = rows@.subrange(1, r as int + 1);
                assert(after.drop_last() =~= before);
            }
            let ghost prev = out@;
            if word != GROUND_ROW_DATA {
                out[1 + kept] = word;
                kept += 1;
                proof {
                    assert(out@.subrange(1, 1 + kept as int) =~= prev.subrange(
                        1,
                        kept as int,
                    ).push(word));
                }
            }
            r += 1;
        }
        (out, (20 - kept) as i32)
    }

    /// One step of gravity. A falling block that has something right under it
    /// is frozen, and the number of rows that this clears is returned; any
    /// other falling block goes one row down. Without a falling block nothing
    /// happens.
    pub fn tick(&mut self) -> (removed: i32)
        ensures
            final(self)@ == old(self)@.tick(),
            removed == old(self)@.tick_removed(),
            0 <= removed <= 20,
    {
        proof {
            use_type_invariant(&*self);
        }
        match self.dropping {
            None => 0,
            Some(b) => {
                if self.collide_at(self.col, self.row - 1, b.data()) {
                    self.freeze()
                } else {
                    proof {
                        if self.row == 1 {
                            lemma_floor_collides(self@.rows, self@.col, 0, b@.data());
                        }
                    }
                    self.row -= 1;
                    0
                }
            },
        }
    }

    /// Empties the stage: every playable row goes back to the default
    /// pattern, the floor stays, and a falling block is given up.
    pub fn reset(&mut self)
        ensures
            final(self)@ == StageView::fresh(),
    {
        *self = Stage::new();
    }

    /// A stage with the given rows and no block, if the rows are a playfield:
    /// a floor of ones under twenty walled rows.
    pub fn from_rows(rows: [u16; 21]) -> (stage: Option<Stage>)
        ensures
            stage is Some <==> rows_wf(rows@),
            stage matches Some(s) ==> s@ == StageView::holding(rows@),
    {
        if rows[0] != GROUND_ROW_DATA {
            return None;
        }
        let mut r: usize = 1;
        while r < 21
            invariant
                1 <= r <= 21,
                rows@[0] == GROUND_ROW_DATA,
                forall|k: int| 1 <= k < r ==> walled(#[trigger] rows@[k]),
            decreases 21 - r,
        {
            if rows[r] & DEFAULT_ROW_DATA != DEFAULT_ROW_DATA {
                return None;
            }
            r += 1;
        }
        Some(Stage { rows, dropping: None, col: SPAWN_COL, row: SPAWN_ROW, shadow_row: 0 })
    }

    /// The twenty-one row words, the floor first.
    pub fn rows(&self) -> (rows: [u16; 21])
        ensures
            rows@ == self@.rows,
    {
        self.rows
    }

    /// Whether the playfield is occupied at row `r`, column `c`, by the floor,
    /// a wall or a frozen cell. Outside the playfield nothing is.
    pub fn has_cell(&self, r: usize, c: usize) -> (occupied: bool)
        ensures
            occupied == (r <= 20 && bit(self@.rows[r as int], c as int)),
    {
        if r > 20 || c > 15 {
            return false;
        }
        let k: u16 = (15 - c) as u16;
        (self.rows[r] >> k) & 1 == 1
    }

    /// The falling block, if there is one.
    pub fn dropping(&self) -> (b: Option<Block>)
        ensures
            b is Some == self@.dropping is Some,
            b matches Some(block) ==> self@.dropping == Some(block@),
    {
        self.dropping
    }

    /// The column of the falling block's anchor.
    pub fn col(&self) -> (col: i32)
        ensures
            col == self@.col,
    {
        self.col
    }

    /// The row of the falling block's anchor.
    pub fn row(&self) -> (row: i32)
        ensures
            row == self@.row,
    {
        self.row
    }

    /// The row at which the falling block would come to rest.
    pub fn shadow_row(&self) -> (row: i32)
        ensures
            row == self@.shadow_row,
    {
        self.shadow_row
    }

    /// Carries out `command` on the falling block. A move or a turn that
    /// would collide changes nothing, and without a falling block no command
    /// changes anything.
    pub fn apply(&mut self, command: Command)
        ensures
            final(self)@ == old(self)@.apply(command),
    {
        match command {
            Command::Left => self.move_left(),
            Command::Right => self.move_right(),
            Command::Anticlockwise => self.rotate_anticlockwise(),
            Command::Clockwise => self.rotate_clockwise(),
            Command::Down => self.soft_drop(),
            Command::Drop => self.hard_drop(),
            Command::Escape => {},
        }
    }

    /// Handles the key with text `key`. Returns whether the key was taken:
    /// every key is, but for the escape key while a block is falling.
    pub fn on_keydown(&mut self, key: &str) -> (taken: bool)
        ensures
            final(self)@ == old(self)@.on_keydown(key@),
            taken == !(old(self)@.dropping is Some && command_of(key@) == Some(Command::Escape)),
    {
        let falling = self.dropping.is_some();
        match Command::from_key(key) {
            Some(Command::Escape) => !falling,
            Some(command) => {
                self.apply(command);
                true
            },
            None => true,
        }
    }
}

} // verus!
