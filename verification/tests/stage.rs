use tetris::blocks::Block;
use tetris::playfield::{
    COLS_COUNT, DEFAULT_ROW_DATA, GROUND_ROW_DATA, LEFT_EDGE_COL, ROWS_COUNT, SPAWN_COL, SPAWN_ROW,
};
use tetris::stage::{Command, Stage};

fn empty_rows() -> [u16; 21] {
    let mut rows = [DEFAULT_ROW_DATA; 21];
    rows[0] = GROUND_ROW_DATA;
    rows
}

/// The word with a one in each of the given columns.
fn cols(columns: &[u32]) -> u16 {
    columns.iter().fold(0u16, |word, c| word | (1u16 << (15 - c)))
}

fn i_upright() -> Block {
    Block::from_draws(0, 0)
}

fn i_flat() -> Block {
    Block::from_draws(0, 1)
}

fn o_block() -> Block {
    Block::from_draws(1, 0)
}

/// Drops the falling block and freezes it; returns the rows cleared.
fn lock(stage: &mut Stage) -> i32 {
    stage.hard_drop();
    let removed = stage.tick();
    assert!(stage.need_block());
    removed
}

#[test]
fn geometry_constants() {
    assert_eq!(COLS_COUNT, 16);
    assert_eq!(ROWS_COUNT, 21);
    assert_eq!(DEFAULT_ROW_DATA, 0b1110_0000_0000_0111);
    assert_eq!(GROUND_ROW_DATA, 0b1111_1111_1111_1111);
    assert_eq!(LEFT_EDGE_COL, 3);
    assert_eq!((SPAWN_COL, SPAWN_ROW), (7, 20));
}

#[test]
fn new_stage_is_empty() {
    let stage = Stage::new();
    assert!(stage.need_block());
    assert!(stage.dropping().is_none());
    assert_eq!(stage.rows(), empty_rows());
    for r in 1..=20 {
        for c in 0..16 {
            assert_eq!(stage.has_cell(r, c), c < 3 || c > 12);
        }
    }
    for c in 0..16 {
        assert!(stage.has_cell(0, c));
    }
    assert!(!stage.has_cell(21, 0));
    assert!(!stage.has_cell(1, 16));
}

#[test]
fn empty_board_collides_only_with_walls_and_floor() {
    let stage = Stage::new();
    for s in 0..7 {
        for p in 0..4u8 {
            let block = Block::from_draws(s, p);
            for col in -3..=12i32 {
                for row in -2..=20i32 {
                    let mut expected = false;
                    for i in 0..4i32 {
                        for j in 0..4i32 {
                            if block.has_cell(i as usize, j as usize) {
                                let c = col + j;
                                let on_board = 0 <= c && c < 16;
                                if on_board && (row - i <= 0 || c < 3 || c > 12) {
                                    expected = true;
                                }
                            }
                        }
                    }
                    assert_eq!(stage.collide_at(col, row, block.data()), expected);
                }
            }
        }
    }
}

#[test]
fn piece_inside_the_playable_area_never_collides_when_empty() {
    let stage = Stage::new();
    // The upright I has its cells in column 1 of its box, in all four rows.
    let data = i_upright().data();
    for col in 2..=11 {
        for row in 4..=20 {
            assert!(!stage.collide_at(col, row, data));
        }
    }
    assert!(stage.collide_at(1, 10, data));
    assert!(stage.collide_at(12, 10, data));
    assert!(stage.collide_at(7, 3, data));
    // The flat I has its cells in row 1 of its box, in all four columns.
    let flat = i_flat().data();
    for col in 3..=9 {
        for row in 2..=20 {
            assert!(!stage.collide_at(col, row, flat));
        }
    }
    assert!(stage.collide_at(2, 10, flat));
    assert!(stage.collide_at(10, 10, flat));
    assert!(stage.collide_at(5, 1, flat));
    assert!(stage.collide_at(5, -7, flat));
}

#[test]
fn collision_with_frozen_cells() {
    let mut rows = empty_rows();
    rows[1] |= cols(&[8]);
    let stage = Stage::from_rows(rows).unwrap();
    let data = i_upright().data();
    assert!(stage.collide_at(7, 4, data));
    assert!(!stage.collide_at(7, 5, data));
    assert!(!stage.collide_at(6, 4, data));
    assert!(!stage.collide_at(8, 4, data));
    assert!(stage.collide_at(5, 2, i_flat().data()));
    assert!(!stage.collide_at(4, 2, i_flat().data()));
}

#[test]
fn spawn_places_the_block_at_the_top() {
    let mut stage = Stage::new();
    stage.next_block(i_upright());
    assert!(!stage.need_block());
    assert_eq!(stage.dropping(), Some(i_upright()));
    assert_eq!((stage.col(), stage.row()), (7, 20));
    assert_eq!(stage.shadow_row(), 4);
    assert_eq!(stage.rows(), empty_rows());
}

#[test]
fn shadow_follows_the_terrain() {
    let mut rows = empty_rows();
    rows[1] |= cols(&[3, 4]);
    rows[2] |= cols(&[3]);
    let mut stage = Stage::from_rows(rows).unwrap();
    stage.next_block(o_block());
    assert_eq!(stage.shadow_row(), 3);
    for _ in 0..3 {
        stage.move_left();
    }
    assert_eq!(stage.col(), 4);
    assert_eq!(stage.shadow_row(), 4);
    stage.move_left();
    assert_eq!(stage.col(), 3);
    assert_eq!(stage.shadow_row(), 5);
    stage.move_right();
    stage.move_right();
    assert_eq!(stage.col(), 5);
    assert_eq!(stage.shadow_row(), 3);
    assert!(stage.shadow_row() <= stage.row());
}

#[test]
fn moves_stop_at_the_walls() {
    let mut stage = Stage::new();
    stage.next_block(i_flat());
    for expected in [6, 5, 4, 3, 3, 3] {
        stage.move_left();
        assert_eq!(stage.col(), expected);
    }
    for expected in [4, 5, 6, 7, 8, 9, 9, 9] {
        stage.move_right();
        assert_eq!(stage.col(), expected);
    }
    assert_eq!(stage.row(), 20);

    let mut stage = Stage::new();
    stage.next_block(i_upright());
    for _ in 0..10 {
        stage.move_left();
    }
    assert_eq!(stage.col(), 2);
    for _ in 0..20 {
        stage.move_right();
    }
    assert_eq!(stage.col(), 11);
}

#[test]
fn rotation_is_refused_where_it_would_collide() {
    let mut stage = Stage::new();
    stage.next_block(i_upright());
    for _ in 0..10 {
        stage.move_left();
    }
    assert_eq!(stage.col(), 2);
    // Flat, the I would reach into the wall at column 2.
    stage.rotate_clockwise();
    assert_eq!(stage.dropping(), Some(i_upright()));
    stage.rotate_anticlockwise();
    assert_eq!(stage.dropping(), Some(i_upright()));
    stage.move_right();
    stage.rotate_clockwise();
    assert_eq!(stage.dropping(), Some(i_flat()));
    assert_eq!(stage.col(), 3);
    stage.rotate_anticlockwise();
    assert_eq!(stage.dropping(), Some(i_upright()));
}

#[test]
fn rotation_turns_the_falling_block() {
    let mut stage = Stage::new();
    stage.next_block(Block::from_draws(6, 0));
    stage.rotate_clockwise();
    assert_eq!(stage.dropping().unwrap().data(), 0b0100_1100_0100_0000);
    stage.rotate_anticlockwise();
    stage.rotate_anticlockwise();
    assert_eq!(stage.dropping().unwrap().data(), 0b0100_0110_0100_0000);
    assert_eq!(stage.dropping().unwrap().posture().index(), 3);
    assert_eq!((stage.col(), stage.row()), (7, 20));
}

#[test]
fn soft_drop_goes_down_to_the_floor_and_no_further() {
    let mut stage = Stage::new();
    stage.next_block(i_flat());
    for expected in (2..=19).rev() {
        stage.soft_drop();
        assert_eq!(stage.row(), expected);
        assert_eq!(stage.shadow_row(), 2);
    }
    stage.soft_drop();
    assert_eq!(stage.row(), 2);
    assert!(!stage.need_block());
    assert_eq!(stage.rows(), empty_rows());
}

#[test]
fn hard_drop_i_piece_rests_on_the_floor() {
    let mut stage = Stage::new();
    stage.next_block(i_upright());
    assert_eq!((stage.col(), stage.row()), (SPAWN_COL, SPAWN_ROW));
    stage.hard_drop();
    // The anchor is the top of the upright I: its lowest cell is three rows
    // further down, on row 1.
    assert_eq!(stage.row(), 4);
    assert_eq!(stage.row() - 3, 1);
    assert!(!stage.need_block());
    let removed = stage.tick();
    assert_eq!(removed, 0);
    assert!(stage.need_block());
    let mut expected = empty_rows();
    for r in 1..=4 {
        expected[r] |= cols(&[8]);
    }
    assert_eq!(stage.rows(), expected);
    assert_eq!(stage.rows()[1], 0xE087);
}

#[test]
fn hard_drop_flat_i_piece_rests_on_the_floor() {
    let mut stage = Stage::new();
    stage.next_block(i_flat());
    stage.hard_drop();
    assert_eq!(stage.row(), 2);
    assert_eq!(stage.tick(), 0);
    assert!(stage.need_block());
    let mut expected = empty_rows();
    expected[1] |= cols(&[7, 8, 9, 10]);
    assert_eq!(stage.rows(), expected);
    assert_eq!(stage.rows()[1], 0xE1E7);
}

#[test]
fn tick_lowers_the_block_until_it_lands() {
    let mut stage = Stage::new();
    stage.next_block(o_block());
    for expected in (3..=19).rev() {
        assert_eq!(stage.tick(), 0);
        assert_eq!(stage.row(), expected);
        assert!(!stage.need_block());
    }
    assert_eq!(stage.tick(), 0);
    assert!(stage.need_block());
    let mut expected = empty_rows();
    expected[1] |= cols(&[7, 8]);
    expected[2] |= cols(&[7, 8]);
    assert_eq!(stage.rows(), expected);
}

#[test]
fn tick_without_a_block_does_nothing() {
    let mut stage = Stage::new();
    assert_eq!(stage.tick(), 0);
    assert!(stage.need_block());
    assert_eq!(stage.rows(), empty_rows());
    assert_eq!(stage.freeze(), 0);
    assert_eq!(stage.rows(), empty_rows());
}

#[test]
fn second_tick_after_a_freeze_changes_nothing() {
    let mut stage = Stage::new();
    stage.next_block(Block::from_draws(6, 2));
    stage.move_left();
    stage.hard_drop();
    stage.tick();
    assert!(stage.need_block());
    let rows = stage.rows();
    assert_ne!(rows, empty_rows());
    let (col, row, shadow_row) = (stage.col(), stage.row(), stage.shadow_row());
    assert_eq!(stage.tick(), 0);
    assert!(stage.need_block());
    assert_eq!(stage.rows(), rows);
    assert_eq!((stage.col(), stage.row(), stage.shadow_row()), (col, row, shadow_row));
    assert_eq!(stage.freeze(), 0);
    assert_eq!(stage.rows(), rows);
}

/// A playfield in which rows 3 and 5 are full and every other row is
/// partial, each with a mark of its own, and column 8 free.
fn two_full_rows() -> [u16; 21] {
    let mut rows = empty_rows();
    for r in 1..=20usize {
        rows[r] |= cols(&[3 + (r % 5) as u32, 9 + (r / 5) as u32]);
    }
    rows[3] = GROUND_ROW_DATA;
    rows[5] = GROUND_ROW_DATA;
    rows
}

#[test]
fn two_full_rows_are_cleared_in_order() {
    let rows = two_full_rows();
    for r in 1..=20 {
        assert_eq!(rows[r] == GROUND_ROW_DATA, r == 3 || r == 5);
        assert_ne!(rows[r], DEFAULT_ROW_DATA);
    }
    let mut stage = Stage::from_rows(rows).unwrap();
    stage.next_block(i_upright());
    stage.hard_drop();
    // The I comes to rest on the full row 5.
    assert_eq!(stage.row(), 9);
    let removed = stage.tick();
    assert_eq!(removed, 2);
    assert!(stage.need_block());

    let mut expected = [DEFAULT_ROW_DATA; 21];
    expected[0] = GROUND_ROW_DATA;
    expected[1] = rows[1];
    expected[2] = rows[2];
    expected[3] = rows[4];
    for r in 6..=20 {
        expected[r - 2] = rows[r];
    }
    for r in 6..=9 {
        expected[r - 2] |= cols(&[8]);
    }
    assert_eq!(expected[19], DEFAULT_ROW_DATA);
    assert_eq!(expected[20], DEFAULT_ROW_DATA);
    assert_eq!(stage.rows(), expected);
}

#[test]
fn freeze_at_the_top_clears_the_full_rows_below() {
    let rows = two_full_rows();
    let mut stage = Stage::from_rows(rows).unwrap();
    stage.next_block(i_upright());
    assert_eq!(stage.freeze(), 2);
    assert!(stage.need_block());
    let mut merged = rows;
    for r in 17..=20 {
        merged[r] |= cols(&[8]);
    }
    let mut expected = [DEFAULT_ROW_DATA; 21];
    expected[0] = GROUND_ROW_DATA;
    let mut next = 1;
    for r in 1..=20 {
        if r != 3 && r != 5 {
            expected[next] = merged[r];
            next += 1;
        }
    }
    assert_eq!(next, 19);
    assert_eq!(stage.rows(), expected);
}

#[test]
fn a_completed_row_is_cleared() {
    let mut stage = Stage::new();
    stage.next_block(i_flat());
    for _ in 0..4 {
        stage.move_left();
    }
    assert_eq!(lock(&mut stage), 0);
    stage.next_block(i_flat());
    assert_eq!(lock(&mut stage), 0);
    assert_eq!(stage.rows()[1], DEFAULT_ROW_DATA | cols(&[3, 4, 5, 6, 7, 8, 9, 10]));
    stage.next_block(o_block());
    for _ in 0..4 {
        stage.move_right();
    }
    assert_eq!(stage.col(), 11);
    stage.hard_drop();
    assert_eq!(stage.row(), 3);
    assert_eq!(stage.tick(), 1);
    let mut expected = empty_rows();
    expected[1] |= cols(&[11, 12]);
    assert_eq!(stage.rows(), expected);
    assert_eq!(stage.rows()[1], 0xE01F);
}

#[test]
fn four_rows_are_cleared_at_once() {
    let mut rows = empty_rows();
    for r in 1..=4 {
        rows[r] = GROUND_ROW_DATA & !cols(&[8]);
    }
    rows[5] |= cols(&[4]);
    let mut stage = Stage::from_rows(rows).unwrap();
    stage.next_block(i_upright());
    assert_eq!(stage.shadow_row(), 4);
    assert_eq!(lock(&mut stage), 4);
    let mut expected = empty_rows();
    expected[1] |= cols(&[4]);
    assert_eq!(stage.rows(), expected);
}

#[test]
fn an_empty_row_between_others_keeps_its_place() {
    let mut rows = empty_rows();
    rows[1] |= cols(&[3]);
    rows[3] = GROUND_ROW_DATA;
    rows[4] |= cols(&[5]);
    let mut stage = Stage::from_rows(rows).unwrap();
    stage.next_block(o_block());
    assert_eq!(stage.freeze(), 1);
    let mut expected = empty_rows();
    expected[1] |= cols(&[3]);
    expected[3] |= cols(&[5]);
    expected[17] |= cols(&[7, 8]);
    expected[18] |= cols(&[7, 8]);
    assert_eq!(stage.rows(), expected);
}

#[test]
fn the_stage_fills_up() {
    let mut stage = Stage::new();
    for _ in 0..9 {
        assert!(!stage.is_fulled(o_block()));
        stage.next_block(o_block());
        assert_eq!(lock(&mut stage), 0);
    }
    assert!(stage.is_fulled(o_block()));
    assert!(stage.is_fulled(i_upright()));
    // One column further left the way is free.
    assert!(!stage.collide_at(5, 20, o_block().data()));
    stage.reset();
    assert!(!stage.is_fulled(o_block()));
}

#[test]
fn reset_empties_the_stage() {
    let mut stage = Stage::from_rows(two_full_rows()).unwrap();
    stage.next_block(i_flat());
    stage.move_left();
    stage.soft_drop();
    stage.reset();
    assert!(stage.need_block());
    assert_eq!(stage.rows(), empty_rows());
    assert_eq!(stage.rows()[0], GROUND_ROW_DATA);
    assert_eq!((stage.col(), stage.row()), (7, 20));
}

#[test]
fn rows_must_be_a_playfield() {
    assert!(Stage::from_rows(empty_rows()).is_some());
    assert!(Stage::from_rows(two_full_rows()).is_some());
    let mut no_floor = empty_rows();
    no_floor[0] = 0xFFFE;
    assert!(Stage::from_rows(no_floor).is_none());
    let mut no_left_wall = empty_rows();
    no_left_wall[7] = 0x6007;
    assert!(Stage::from_rows(no_left_wall).is_none());
    let mut no_right_wall = empty_rows();
    no_right_wall[20] = 0xE003;
    assert!(Stage::from_rows(no_right_wall).is_none());
    assert!(Stage::from_rows([0; 21]).is_none());
    let stage = Stage::from_rows(two_full_rows()).unwrap();
    assert!(stage.need_block());
    assert_eq!(stage.rows(), two_full_rows());
}

#[test]
fn keys_stand_for_commands() {
    assert_eq!(Command::from_key("a"), Some(Command::Left));
    assert_eq!(Command::from_key("d"), Some(Command::Right));
    assert_eq!(Command::from_key("q"), Some(Command::Anticlockwise));
    assert_eq!(Command::from_key("e"), Some(Command::Clockwise));
    assert_eq!(Command::from_key("s"), Some(Command::Down));
    assert_eq!(Command::from_key(" "), Some(Command::Drop));
    assert_eq!(Command::from_key("\u{1b}"), Some(Command::Escape));
    assert_eq!(Command::from_key(""), None);
    assert_eq!(Command::from_key("A"), None);
    assert_eq!(Command::from_key("x"), None);
    assert_eq!(Command::from_key("aa"), None);
    assert_eq!(Command::from_key("é"), None);
}

#[test]
fn keys_move_the_block() {
    let mut stage = Stage::new();
    stage.next_block(Block::from_draws(4, 0));
    assert!(stage.on_keydown("a"));
    assert_eq!(stage.col(), 6);
    assert!(stage.on_keydown("d"));
    assert!(stage.on_keydown("d"));
    assert_eq!(stage.col(), 8);
    assert!(stage.on_keydown("s"));
    assert_eq!(stage.row(), 19);
    assert!(stage.on_keydown("e"));
    assert_eq!(stage.dropping().unwrap().posture().index(), 1);
    assert!(stage.on_keydown("q"));
    assert!(stage.on_keydown("q"));
    assert_eq!(stage.dropping().unwrap().posture().index(), 3);
    assert!(stage.on_keydown("x"));
    assert!(stage.on_keydown("dd"));
    assert_eq!((stage.col(), stage.row()), (8, 19));
    assert!(!stage.on_keydown("\u{1b}"));
    assert_eq!((stage.col(), stage.row()), (8, 19));
    assert!(stage.on_keydown(" "));
    assert_eq!(stage.row(), stage.shadow_row());
    assert_eq!(stage.row(), 2);
    assert!(!stage.need_block());
}

#[test]
fn keys_without_a_block_change_nothing() {
    let mut stage = Stage::new();
    for key in ["a", "d", "q", "e", "s", " ", "\u{1b}", "x", ""] {
        assert!(stage.on_keydown(key));
        assert!(stage.need_block());
        assert_eq!(stage.rows(), empty_rows());
        assert_eq!((stage.col(), stage.row(), stage.shadow_row()), (7, 20, 0));
    }
}

#[test]
fn commands_are_carried_out() {
    let mut stage = Stage::new();
    stage.next_block(o_block());
    stage.apply(Command::Left);
    stage.apply(Command::Down);
    stage.apply(Command::Escape);
    assert_eq!((stage.col(), stage.row()), (6, 19));
    stage.apply(Command::Right);
    stage.apply(Command::Clockwise);
    stage.apply(Command::Anticlockwise);
    stage.apply(Command::Drop);
    assert_eq!((stage.col(), stage.row()), (7, 3));
}
