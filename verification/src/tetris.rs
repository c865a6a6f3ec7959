//! The game session: it paces gravity, feeds blocks to the stage, keeps
//! lines, level and score, and notices when the stage is full.

use vstd::prelude::*;
use crate::blocks::{Block, BlockView};
use crate::generator::Generator;
use crate::playfield::no_full_row;
use crate::stage::{Command, Stage, StageView, command_of};

verus! {

/// What one tick of the session did.
#[derive(Clone, Copy, Debug, PartialEq, Eq, Structural)]
pub enum Status {
    /// The tick was skipped to slow the fall down.
    Idle,
    /// The block to come has entered the stage.
    Spawned,
    /// The block to come found its place taken: the stage is full.
    Full,
    /// The falling block went one row down.
    Dropping,
    /// The falling block was frozen; `removed` rows were cleared, and
    /// `level_up` tells whether that raised the level.
    Freeze { removed: i32, level_up: bool },
}

/// What a session is: its stage, the block to come, the three counters, and
/// the number of ticks skipped since gravity last acted.
pub struct TetrisView {
    pub stage: StageView,
    pub upcoming: BlockView,
    pub lines: int,
    pub level: int,
    pub score: int,
    pub count: int,
}

impl TetrisView {
    /// The stage and the block to come are well-formed, the falling block
    /// overlaps nothing that is frozen, the counters are in range, and the
    /// level is not ahead of the lines.
    pub open spec fn wf(self) -> bool {
        &&& self.stage.wf()
        &&& self.stage.fits()
        &&& 0 <= self.upcoming.posture < 4
        &&& 0 <= self.lines <= i32::MAX
        &&& 1 <= self.level
        &&& 0 <= self.score <= i32::MAX
        &&& 0 <= self.count <= Tetris::DEFAULT_COUNT
        &&& (self.level - 1) * Tetris::LINES_PER_LEVEL <= self.lines
    }

    /// A session at its start, with `upcoming` as the block to come.
    pub open spec fn fresh(upcoming: BlockView) -> TetrisView {
        TetrisView { stage: StageView::fresh(), upcoming, lines: 0, level: 1, score: 0, count: 0 }
    }

    /// Whether the counters can take whatever one more tick brings: up to
    /// twenty lines and up to four hundred points.
    pub open spec fn has_room(self) -> bool {
        self.lines + 20 <= i32::MAX && self.score + 400 <= i32::MAX
    }

    /// Whether the counters can take what the next tick brings: if it
    /// freezes the falling block, the rows that this clears and their
    /// square.
    pub open spec fn can_tick(self) -> bool {
        self.count >= Tetris::DEFAULT_COUNT && self.stage.landed() ==> {
            let removed = self.stage.freeze_removed();
            self.lines + removed <= i32::MAX && self.score + removed * removed <= i32::MAX
        }
    }

    /// Whether clearing `removed` rows raises the level: the lines have then
    /// reached ten times the level.
    pub open spec fn levels_up(self, removed: int) -> bool {
        removed > 0 && self.level * Tetris::LINES_PER_LEVEL <= self.lines + removed
    }

    /// The session after `removed` rows were cleared at once: the lines grow
    /// by their number, the score by its square, and the level by one if the
    /// lines have reached ten times the level.
    pub open spec fn settle(self, removed: int) -> TetrisView {
        if removed > 0 {
            TetrisView {
                lines: self.lines + removed,
                level: if self.levels_up(removed) {
                    self.level + 1
                } else {
                    self.level
                },
                score: self.score + removed * removed,
                ..self
            }
        } else {
            self
        }
    }

    /// What the next tick does.
    pub open spec fn tick_status(self) -> Status {
        if self.count < Tetris::DEFAULT_COUNT {
            Status::Idle
        } else if self.stage.dropping is None {
            if self.stage.is_fulled(self.upcoming) {
                Status::Full
            } else {
                Status::Spawned
            }
        } else if self.stage.landed() {
            Status::Freeze {
                removed: self.stage.freeze_removed() as i32,
                level_up: self.levels_up(self.stage.freeze_removed()),
            }
        } else {
            Status::Dropping
        }
    }

    /// The session after the next tick, where `fresh` is the block that a
    /// spawn puts into the generator.
    ///
    /// Ten ticks in a row are skipped. The eleventh acts: if the stage waits
    /// for a block, the block to come enters, unless its place is taken;
    /// otherwise gravity acts on the falling block, and a freeze is settled
    /// into the counters. A spawn, a fall and a freeze start the skipping
    /// again; a full stage does not.
    pub open spec fn tick(self, fresh: BlockView) -> TetrisView {
        match self.tick_status() {
            Status::Idle => TetrisView { count: self.count + 1, ..self },
            Status::Full => TetrisView { upcoming: fresh, ..self },
            Status::Spawned => TetrisView {
                stage: self.stage.next_block(self.upcoming),
                upcoming: fresh,
                count: 0,
                ..self
            },
            Status::Dropping => TetrisView { stage: self.stage.tick(), count: 0, ..self },
            Status::Freeze { .. } => TetrisView {
                stage: self.stage.tick(),
                count: 0,
                ..self
            }.settle(self.stage.freeze_removed()),
        }
    }

    /// Whether the next tick refills the generator.
    pub open spec fn draws(self) -> bool {
        self.tick_status() == Status::Full || self.tick_status() == Status::Spawned
    }

    /// The session after the key with text `key` is pressed: the stage handles
    /// the key, and a drop of a falling block starts the skipping of ticks
    /// again.
    pub open spec fn on_keydown(self, key: Seq<char>) -> TetrisView {
        TetrisView {
            stage: self.stage.on_keydown(key),
            count: if self.stage.dropping is Some && command_of(key) == Some(Command::Drop) {
                0
            } else {
                self.count
            },
            ..self
        }
    }

    /// The session after a restart: the counters and the stage are as at the
    /// start. The block to come and the tick count stay.
    pub open spec fn clean(self) -> TetrisView {
        TetrisView { stage: StageView::fresh(), lines: 0, level: 1, score: 0, ..self }
    }
}

impl TetrisView {
    /// Settling keeps the counters in range while there is room for them,
    /// and never lowers one of them; the score grows by exactly the square
    /// of the rows cleared, and the level by one at most.
    pub proof fn lemma_settle(self, removed: int)
        requires
            self.wf(),
            removed > 0 ==> self.lines + removed <= i32::MAX,
            removed > 0 ==> self.score + removed * removed <= i32::MAX,
        ensures
            self.settle(removed).wf(),
            self.settle(removed).lines >= self.lines,
            self.settle(removed).score >= self.score,
            self.level <= self.settle(removed).level <= self.level + 1,
            removed >= 0 ==> self.settle(removed).lines == self.lines + removed,
            removed >= 0 ==> self.settle(removed).score == self.score + removed * removed,
    {
        assert(removed * removed >= 0 && (removed == 0 ==> removed * removed == 0))
            by (nonlinear_arith);
    }

    /// Counters with room for twenty lines and four hundred points can take
    /// whatever the next tick brings.
    pub proof fn lemma_room_suffices(self)
        requires
            self.wf(),
            self.has_room(),
        ensures
            self.can_tick(),
    {
        let removed = self.stage.freeze_removed();
        assert(removed * removed <= 400) by (nonlinear_arith)
            requires
                0 <= removed <= 20,
        ;
    }

    /// A tick keeps the session well-formed and never lowers lines, level or
    /// score. The score changes only on a freeze, and then it grows by
    /// exactly the square of the rows cleared.
    pub proof fn lemma_tick(self, fresh: BlockView)
        requires
            self.wf(),
            self.can_tick(),
            0 <= fresh.posture < 4,
        ensures
            self.tick(fresh).wf(),
            self.tick(fresh).lines >= self.lines,
            self.tick(fresh).level >= self.level,
            self.tick(fresh).score >= self.score,
            match self.tick_status() {
                Status::Freeze { removed, level_up } => {
                    &&& 0 <= removed <= 20
                    &&& removed == self.stage.freeze_removed()
                    &&& self.tick(fresh).lines == self.lines + removed
                    &&& self.tick(fresh).score == self.score + removed * removed
                    &&& self.tick(fresh).level == if level_up {
                        self.level + 1
                    } else {
                        self.level
                    }
                },
                _ => {
                    &&& self.tick(fresh).lines == self.lines
                    &&& self.tick(fresh).score == self.score
                    &&& self.tick(fresh).level == self.level
                },
            },
    {
        self.stage.lemma_tick_wf();
        let removed = self.stage.freeze_removed();
        if self.tick_status() is Freeze {
            (TetrisView { stage: self.stage.tick(), count: 0, ..self }).lemma_settle(removed);
        }
    }

    /// A key keeps the session well-formed and leaves lines, level and score
    /// as they are.
    pub proof fn lemma_on_keydown(self, key: Seq<char>)
        requires
            self.wf(),
        ensures
            self.on_keydown(key).wf(),
            self.on_keydown(key).lines == self.lines,
            self.on_keydown(key).level == self.level,
            self.on_keydown(key).score == self.score,
    {
        if let Some(command) = command_of(key) {
            self.stage.lemma_apply_wf(command);
            self.stage.lemma_fits_is_kept(command);
        }
    }

    /// Whether the session is in step: no playable row of the stage is full,
    /// and the level is one more than the number of full tens of lines.
    pub open spec fn in_step(self) -> bool {
        no_full_row(self.stage.rows) && self.level == 1 + self.lines / 10
    }

    /// A session starts in step, and ticks, keys and restarts keep it in
    /// step. A tick of a session in step clears four rows at most. So in a
    /// game that is played from the start the level rises exactly when the
    /// lines pass a multiple of ten.
    pub proof fn lemma_in_step(self, fresh: BlockView, key: Seq<char>)
        requires
            self.wf(),
            self.in_step(),
        ensures
            TetrisView::fresh(fresh).in_step(),
            self.tick(fresh).in_step(),
            self.on_keydown(key).in_step(),
            self.clean().in_step(),
            self.tick_status() matches Status::Freeze { removed, level_up } ==> 0 <= removed <= 4
                && (level_up <==> (self.lines + removed) / 10 > self.lines / 10),
    {
        self.stage.lemma_no_full_row(Command::Down, self.upcoming);
        let removed = self.stage.freeze_removed();
        (TetrisView { stage: self.stage.tick(), count: 0, ..self }).lemma_level_follows_lines(
            removed,
        );
    }

    /// As long as fewer than ten rows are cleared at once, the level is one
    /// more than the number of full tens of lines: it rises exactly when the
    /// lines pass a multiple of ten, and not again before the next one.
    pub proof fn lemma_level_follows_lines(self, removed: int)
        requires
            0 <= self.lines,
            self.level == 1 + self.lines / 10,
            0 <= removed < 10,
        ensures
            self.settle(removed).level == 1 + self.settle(removed).lines / 10,
            self.levels_up(removed) <==> (self.lines + removed) / 10 > self.lines / 10,
    {
    }
}

/// A game session.
pub struct Tetris {
    stage: Stage,
    generator: Generator,
    lines: i32,
    level: i32,
    score: i32,
    count: usize,
}

impl View for Tetris {
    type V = TetrisView;

    closed spec fn view(&self) -> TetrisView {
        TetrisView {
            stage: self.stage@,
            upcoming: self.generator@,
            lines: self.lines as int,
            level: self.level as int,
            score: self.score as int,
            count: self.count as int,
        }
    }
}

impl Tetris {
    /// Ticks that are skipped between two steps of gravity.
    pub const DEFAULT_COUNT: usize = 10;

    /// Lines that it takes to raise the level.
    pub const LINES_PER_LEVEL: i32 = 10;

    /// A session is always well-formed.
    #[verifier::type_invariant]
    pub open spec fn wf(self) -> bool {
        self@.wf()
    }

    /// A session at its start, with a random block to come.
    pub fn new() -> (session: Tetris)
        ensures
            session@ == TetrisView::fresh(session@.upcoming),
    {
        Tetris::with_upcoming(Block::new())
    }

    /// A session at its start, with `upcoming` as the block to come.
    pub fn with_upcoming(upcoming: Block) -> (session: Tetris)
        ensures
            session@ == TetrisView::fresh(upcoming@),
    {
        let stage = Stage::new();
        proof {
            use_type_invariant(&stage);
            use_type_invariant(&upcoming);
        }
        Tetris {
            stage,
            generator: Generator::holding(upcoming),
            lines: 0,
            level: 1,
            score: 0,
            count: 0,
        }
    }

    /// Starts the skipping of ticks again.
    pub fn recount(&mut self)
        ensures
            final(self)@ == (TetrisView { count: 0, ..old(self)@ }),
    {
        proof {
            use_type_invariant(&*self);
        }
        self.count = 0;
    }

    /// Restarts the game: lines and score go to zero, the level to one, and
    /// the stage is emptied.
    pub fn clean(&mut self)
        ensures
            final(self)@ == old(self)@.clean(),
    {
        proof {
            use_type_invariant(&*self);
        }
        let mut stage = self.stage;
        stage.reset();
        proof {
            use_type_invariant(&stage);
        }
        self.stage = stage;
        self.level = 1;
        self.lines = 0;
        self.score = 0;
    }

    /// Settles `removed` rows, cleared at once, into the counters, and tells
    /// whether that raised the level. Without a row cleared nothing changes.
    pub fn settle(&mut self, removed: i32) -> (level_up: bool)
        requires
            removed > 0 ==> old(self)@.lines + removed <= i32::MAX,
            removed > 0 ==> old(self)@.score + removed * removed <= i32::MAX,
        ensures
            final(self)@ == old(self)@.settle(removed as int),
            level_up == old(self)@.levels_up(removed as int),
    {
        proof {
            use_type_invariant(&*self);
        }
        if removed <= 0 {
            return false;
        }
        let lines = self.lines + removed;
        let level_up = self.level <= lines / Self::LINES_PER_LEVEL;
        assert(removed * removed >= 0) by (nonlinear_arith)
            requires
                removed >= 0,
        ;
        let gain = removed * removed;
        if level_up {
            self.lines = lines;
            self.level = self.level + 1;
        } else {
            self.lines = lines;
        }
        self.score = self.score + gain;
        level_up
    }

    /// Whether the counters have room for twenty more lines and four
    /// hundred more points, which is as much as one tick can bring.
    pub fn has_room(&self) -> (room: bool)
        ensures
            room == self@.has_room(),
            room ==> self@.can_tick(),
    {
        proof {
            use_type_invariant(self);
            if self@.has_room() {
                self@.lemma_room_suffices();
            }
        }
        self.lines <= i32::MAX - 20 && self.score <= i32::MAX - 400
    }

    /// One tick of the session's timer. Where the tick lets a block enter or
    /// finds the stage full, the generator is refilled at random; everything
    /// but the new block to come is decided by the session as it was.
    pub fn tick(&mut self) -> (status: Status)
        requires
            old(self)@.can_tick(),
        ensures
            status == old(self)@.tick_status(),
            final(self)@ == old(self)@.tick(final(self)@.upcoming),
            !old(self)@.draws() ==> final(self)@.upcoming == old(self)@.upcoming,
            0 <= final(self)@.upcoming.posture < 4,
    {
        let status = if self.count >= Self::DEFAULT_COUNT && self.stage.need_block() {
            self.tick_with(Block::new())
        } else {
            self.tick_with(self.generator.block())
        };
        proof {
            use_type_invariant(&*self);
        }
        status
    }

    /// One tick of the session's timer, where `fresh` is the block that a
    /// spawn puts into the generator.
    pub fn tick_with(&mut self, fresh: Block) -> (status: Status)
        requires
            old(self)@.can_tick(),
        ensures
            status == old(self)@.tick_status(),
            final(self)@ == old(self)@.tick(fresh@),
    {
        proof {
            use_type_invariant(&*self);
        }
        if self.count < Self::DEFAULT_COUNT {
            self.count += 1;
            return Status::Idle;
        }
        let mut stage = self.stage;
        if stage.need_block() {
            let mut generator = self.generator;
            let block = generator.replace(fresh);
            proof {
                use_type_invariant(&fresh);
            }
            self.generator = generator;
            if stage.is_fulled(block) {
                return Status::Full;
            }
            stage.next_block(block);
            self.stage = stage;
            self.count = 0;
            return Status::Spawned;
        }
        let removed = stage.tick();
        proof {
            use_type_invariant(&stage);
        }
        self.stage = stage;
        self.count = 0;
        if stage.need_block() {
            let level_up = self.settle(removed);
            Status::Freeze { removed, level_up }
        } else {
            Status::Dropping
        }
    }

    /// Handles the key with text `key`, and tells whether the key was taken:
    /// every key is, but for the escape key while a block is falling. A drop
    /// of a falling block starts the skipping of ticks again, which leaves
    /// time to move the block before it freezes.
    pub fn on_keydown(&mut self, key: &str) -> (taken: bool)
        ensures
            final(self)@ == old(self)@.on_keydown(key@),
            taken == !(old(self)@.stage.dropping is Some && command_of(key@) == Some(
                Command::Escape,
            )),
    {
        proof {
            use_type_invariant(&*self);
        }
        let mut stage = self.stage;
        let falling = !stage.need_block();
        let taken = stage.on_keydown(key);
        proof {
            old(self)@.lemma_on_keydown(key@);
        }
        self.stage = stage;
        if falling {
            match Command::from_key(key) {
                Some(Command::Drop) => {
                    self.count = 0;
                },
                _ => {},
            }
        }
        taken
    }

    /// The stage.
    pub fn stage(&self) -> (stage: &Stage)
        ensures
            stage@ == self@.stage,
    {
        &self.stage
    }

    /// The block to come.
    pub fn upcoming(&self) -> (block: Block)
        ensures
            block@ == self@.upcoming,
    {
        self.generator.block()
    }

    /// Lines cleared in this game.
    pub fn lines(&self) -> (lines: i32)
        ensures
            lines == self@.lines,
    {
        self.lines
    }

    /// The level of this game, starting at one.
    pub fn level(&self) -> (level: i32)
        ensures
            level == self@.level,
    {
        self.level
    }

    /// The score of this game.
    pub fn score(&self) -> (score: i32)
        ensures
            score == self@.score,
    {
        self.score
    }

    /// Ticks skipped since gravity last acted.
    pub fn count(&self) -> (count: usize)
        ensures
            count == self@.count,
    {
        self.count
    }
}

} // verus!
