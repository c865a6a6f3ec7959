//! The playfield as a mathematical object: twenty-one row words, and what it
//! means for a piece to collide with them, to be merged into them, and for
//! full rows to be cleared.
//!
//! Row 0 is the floor and is all ones. Rows 1 to 20 are playable; each keeps
//! its three leftmost and three rightmost columns set as walls, which leaves
//! columns 3 to 12 to play in.

use vstd::prelude::*;
use crate::bits::{bit, nibble, pack, stamp_at};
use crate::bits::{lemma_and_bit, lemma_bit_nonzero, lemma_nonzero_witness, lemma_pack_bit};
use crate::bits::{lemma_left_mask_bits, lemma_ones_bit, lemma_or_bit, lemma_or_keeps};
use crate::bits::{lemma_right_mask_bits, lemma_sentinels_walled, lemma_stamp_bit};
use crate::bits::{lemma_wall_bits, lemma_walled_bits};
use crate::blocks::piece_cell;

verus! {

/// Columns of a row word.
pub const COLS_COUNT: i32 = 16;

/// Rows of the playfield, the floor included.
pub const ROWS_COUNT: i32 = 21;

/// A playable row with nothing in it: the walls alone.
pub const DEFAULT_ROW_DATA: u16 = 0b1110_0000_0000_0111;

/// The floor, and also the pattern of a playable row that is full.
pub const GROUND_ROW_DATA: u16 = 0b1111_1111_1111_1111;

/// The first playable column.
pub const LEFT_EDGE_COL: i32 = 3;

/// The column at which a piece enters.
pub const SPAWN_COL: i32 = 7;

/// The row at which a piece enters: the topmost one.
pub const SPAWN_ROW: i32 = 20;

/// The row that a probe at `r` reads: everything below the floor reads as
/// the floor.
pub open spec fn clamp_row(r: int) -> int {
    if r < 0 {
        0
    } else {
        r
    }
}

/// Whether the playfield is occupied at row `r`, column `c`.
pub open spec fn board_cell(rows: Seq<u16>, r: int, c: int) -> bool {
    bit(rows[clamp_row(r)], c)
}

/// Whether a piece with pattern `data`, anchored with its top left cell at
/// column `col` of row `row`, overlaps an occupied cell of the playfield.
/// The pattern's row `i` lies on playfield row `row - i`.
pub open spec fn collides(rows: Seq<u16>, col: int, row: int, data: u16) -> bool {
    exists|i: int, j: int| #[trigger] piece_cell(data, i, j) && board_cell(rows, row - i, col + j)
}

/// The 4×4 cut of the playfield under a piece anchored at `(col, row)`, laid
/// out as a pattern is.
pub open spec fn window(rows: Seq<u16>, col: int, row: int) -> u16 {
    let s = (12 - col) as u16;
    pack(
        nibble(rows[clamp_row(row)], s),
        nibble(rows[clamp_row(row - 1)], s),
        nibble(rows[clamp_row(row - 2)], s),
        nibble(rows[clamp_row(row - 3)], s),
    )
}

/// Cell `(i, j)` of the window is the playfield's cell under it.
pub proof fn lemma_window_cell(rows: Seq<u16>, col: int, row: int, i: int, j: int)
    requires
        -3 <= col <= 12,
        0 <= i < 4,
        0 <= j < 4,
    ensures
        bit(window(rows, col, row), 4 * i + j) == board_cell(rows, row - i, col + j),
{
    let s = (12 - col) as u16;
    let t = (3 - j) as u16;
    lemma_pack_bit(
        rows[clamp_row(row)],
        rows[clamp_row(row - 1)],
        rows[clamp_row(row - 2)],
        rows[clamp_row(row - 3)],
        s,
        t,
    );
}

/// A piece collides exactly when its pattern and the window under it share a
/// bit.
pub proof fn lemma_collides_is_overlap(rows: Seq<u16>, col: int, row: int, data: u16)
    requires
        -3 <= col <= 12,
    ensures
        collides(rows, col, row, data) <==> window(rows, col, row) & data != 0,
{
    let w = window(rows, col, row);
    if collides(rows, col, row, data) {
        let (i, j) = choose|i: int, j: int| #[trigger]
            piece_cell(data, i, j) && board_cell(rows, row - i, col + j);
        lemma_window_cell(rows, col, row, i, j);
        let k = (15 - (4 * i + j)) as u16;
        lemma_and_bit(w, data, k);
        lemma_bit_nonzero(w & data, k);
    }
    if w & data != 0 {
        let k = lemma_nonzero_witness(w & data);
        lemma_and_bit(w, data, k);
        let i = 3 - k as int / 4;
        let j = 3 - k as int % 4;
        lemma_window_cell(rows, col, row, i, j);
        assert(piece_cell(data, i, j));
    }
}

/// Whether a row word has both walls.
pub open spec fn walled(word: u16) -> bool {
    word & DEFAULT_ROW_DATA == DEFAULT_ROW_DATA
}

/// Whether `rows` is a playfield: twenty-one rows, a floor of ones under
/// twenty walled rows.
pub open spec fn rows_wf(rows: Seq<u16>) -> bool {
    &&& rows.len() == 21
    &&& rows[0] == GROUND_ROW_DATA
    &&& forall|r: int| 1 <= r <= 20 ==> walled(#[trigger] rows[r])
}

/// The playfield with nothing frozen in it.
pub open spec fn empty_rows() -> Seq<u16> {
    Seq::new(21, |r: int| if r == 0 { GROUND_ROW_DATA } else { DEFAULT_ROW_DATA })
}

/// Any piece that reaches down to the floor or below collides.
pub proof fn lemma_floor_collides(rows: Seq<u16>, col: int, row: int, data: u16)
    requires
        rows.len() > 0,
        rows[0] == GROUND_ROW_DATA,
        0 <= col <= 12,
        row <= 0,
        data != 0,
    ensures
        collides(rows, col, row, data),
{
    let k = lemma_nonzero_witness(data);
    let i = 3 - k as int / 4;
    let j = 3 - k as int % 4;
    assert(piece_cell(data, i, j));
    lemma_ones_bit((15 - (col + j)) as u16);
}

/// A piece with a cell in its two left columns collides when anchored at
/// column 1, and one with a cell in its three right columns collides when
/// anchored at column 12: the walls are in the way.
pub proof fn lemma_walls_collide(rows: Seq<u16>, col: int, row: int, data: u16)
    requires
        rows_wf(rows),
        row <= 20,
        (col == 1 && data & 0xCCCC != 0) || (col == 12 && data & 0x7777 != 0),
    ensures
        collides(rows, col, row, data),
{
    let mask: u16 = if col == 1 { 0xCCCC } else { 0x7777 };
    let k = lemma_nonzero_witness(data & mask);
    lemma_and_bit(data, mask, k);
    lemma_left_mask_bits(k);
    lemma_right_mask_bits(k);
    let i = 3 - k as int / 4;
    let j = 3 - k as int % 4;
    assert(piece_cell(data, i, j));
    lemma_sentinels_walled();
    lemma_walled_bits(rows[clamp_row(row - i)], (15 - (col + j)) as u16);
}

/// The row at which a piece anchored at `(col, row)` comes to rest when it
/// falls straight down: the first row, going down from `row`, below which it
/// would collide.
pub open spec fn resting_row(rows: Seq<u16>, col: int, row: int, data: u16) -> int
    decreases row,
{
    if row <= 0 || collides(rows, col, row - 1, data) {
        row
    } else {
        resting_row(rows, col, row - 1, data)
    }
}

/// The resting row lies between row 1 and the piece's row, the piece cannot
/// go below it, and it can go through every row down to it.
pub proof fn lemma_resting_row(rows: Seq<u16>, col: int, row: int, data: u16)
    requires
        rows.len() > 0,
        rows[0] == GROUND_ROW_DATA,
        0 <= col <= 12,
        1 <= row,
        data != 0,
    ensures
        1 <= resting_row(rows, col, row, data) <= row,
        collides(rows, col, resting_row(rows, col, row, data) - 1, data),
        forall|r: int|
            resting_row(rows, col, row, data) <= r < row ==> !#[trigger] collides(
                rows,
                col,
                r,
                data,
            ),
        resting_row(rows, col, resting_row(rows, col, row, data), data) == resting_row(
            rows,
            col,
            row,
            data,
        ),
    decreases row,
{
    if !collides(rows, col, row - 1, data) {
        if row == 1 {
            lemma_floor_collides(rows, col, 0, data);
        }
        lemma_resting_row(rows, col, row - 1, data);
    }
}

/// Row `i` of a pattern as a row word, its left column at column `col`.
pub open spec fn stamp(data: u16, i: int, col: int) -> u16 {
    stamp_at(data, (4 * i) as u16, col as u16)
}

/// The playfield after a piece anchored at `(col, row)` is merged into it:
/// each playable row under the piece takes the piece's cells in addition to
/// its own. The floor stays as it is.
pub open spec fn merged(rows: Seq<u16>, col: int, row: int, data: u16) -> Seq<u16> {
    Seq::new(
        rows.len(),
        |r: int|
            if 1 <= r && 0 <= row - r < 4 {
                rows[r] | stamp(data, row - r, col)
            } else {
                rows[r]
            },
    )
}

/// After a merge a playable cell is occupied exactly if it was occupied
/// before or the piece has a cell there.
pub proof fn lemma_merged_cell(rows: Seq<u16>, col: int, row: int, data: u16, r: int, c: int)
    requires
        0 <= col < 16,
        1 <= r < rows.len(),
    ensures
        board_cell(merged(rows, col, row, data), r, c) == (board_cell(rows, r, c) || (0 <= c < 16
            && piece_cell(data, row - r, c - col))),
{
    if 0 <= c < 16 && 0 <= row - r < 4 {
        let k = (15 - c) as u16;
        lemma_or_bit(rows[r], stamp(data, row - r, col), k);
        lemma_stamp_bit(data, (4 * (row - r)) as u16, col as u16, k);
    }
}

/// A merge keeps a playfield a playfield.
pub proof fn lemma_merged_wf(rows: Seq<u16>, col: int, row: int, data: u16)
    requires
        rows_wf(rows),
    ensures
        rows_wf(merged(rows, col, row, data)),
{
    let m = merged(rows, col, row, data);
    assert forall|r: int| 1 <= r <= 20 implies walled(#[trigger] m[r]) by {
        lemma_or_keeps(rows[r], stamp(data, row - r, col));
    }
}

/// The rows that a line clear keeps: those that are not full.
pub open spec fn keeps() -> spec_fn(u16) -> bool {
    |word: u16| word != GROUND_ROW_DATA
}

/// The playable rows that are not full, bottom to top.
pub open spec fn survivors(rows: Seq<u16>) -> Seq<u16> {
    rows.subrange(1, rows.len() as int).filter(keeps())
}

/// The number of playable rows that are full.
pub open spec fn full_rows(rows: Seq<u16>) -> int {
    rows.len() - 1 - survivors(rows).len()
}

/// The playfield after its full rows are taken out: the floor, then the rows
/// that are not full in their old order, then one default row for each row
/// that was taken out.
pub open spec fn cleared(rows: Seq<u16>) -> Seq<u16> {
    seq![rows[0]] + survivors(rows) + Seq::new(full_rows(rows) as nat, |k: int| DEFAULT_ROW_DATA)
}

/// Whether row `r`, column `c` is a cell of the floor or of a wall: a cell
/// that is occupied before anything is frozen.
pub open spec fn sentinel_cell(r: int, c: int) -> bool {
    0 <= c < 16 && (r <= 0 || c < 3 || c > 12)
}

/// The occupied cells of the empty playfield are the floor and the walls.
pub proof fn lemma_empty_cell(r: int, c: int)
    requires
        r <= 20,
    ensures
        board_cell(empty_rows(), r, c) == sentinel_cell(r, c),
{
    if 0 <= c < 16 {
        lemma_ones_bit((15 - c) as u16);
        lemma_wall_bits((15 - c) as u16);
    }
}

/// On the empty playfield a piece collides exactly if one of its cells lies
/// on the floor or on a wall. So a piece that has all its cells in the ten
/// playable columns and above the floor does not collide.
pub proof fn lemma_collides_when_empty(col: int, row: int, data: u16)
    requires
        row <= 20,
    ensures
        collides(empty_rows(), col, row, data) <==> exists|i: int, j: int|
            #[trigger] piece_cell(data, i, j) && sentinel_cell(row - i, col + j),
        (forall|i: int, j: int| #[trigger]
            piece_cell(data, i, j) ==> 1 <= row - i && 3 <= col + j <= 12) ==> !collides(
            empty_rows(),
            col,
            row,
            data,
        ),
{
    assert forall|i: int, j: int| #[trigger] piece_cell(data, i, j) implies board_cell(
        empty_rows(),
        row - i,
        col + j,
    ) == sentinel_cell(row - i, col + j) by {
        lemma_empty_cell(row - i, col + j);
    }
}

/// Where every row is kept, the filter keeps the sequence as it is.
proof fn lemma_filter_keeps_all(rows: Seq<u16>)
    requires
        forall|k: int| 0 <= k < rows.len() ==> rows[k] != GROUND_ROW_DATA,
    ensures
        rows.filter(keeps()) == rows,
    decreases rows.len(),
{
    reveal(Seq::filter);
    if rows.len() > 0 {
        lemma_filter_keeps_all(rows.drop_last());
    }
}

/// A playfield whose full rows are exactly rows `a` and `b` loses those two
/// on a line clear: the rows below `a` stay, the rows between move down by
/// one, the rows above `b` move down by two, all in their old order, and the
/// two rows at the top are empty.
pub proof fn lemma_clears_two_rows(rows: Seq<u16>, a: int, b: int)
    requires
        rows.len() == 21,
        1 <= a < b <= 20,
        forall|r: int| 1 <= r <= 20 ==> (rows[r] == GROUND_ROW_DATA <==> (r == a || r == b)),
    ensures
        full_rows(rows) == 2,
        cleared(rows).len() == 21,
        cleared(rows)[0] == rows[0],
        forall|r: int| 1 <= r < a ==> cleared(rows)[r] == rows[r],
        forall|r: int| a < r < b ==> cleared(rows)[r - 1] == rows[r],
        forall|r: int| b < r <= 20 ==> cleared(rows)[r - 2] == rows[r],
        cleared(rows)[19] == DEFAULT_ROW_DATA,
        cleared(rows)[20] == DEFAULT_ROW_DATA,
{
    let low = rows.subrange(1, a);
    let mid = rows.subrange(a + 1, b);
    let high = rows.subrange(b + 1, 21);
    let full = seq![GROUND_ROW_DATA];
    assert(rows.subrange(1, 21) =~= low + full + mid + full + high);
    lemma_filter_keeps_all(low);
    lemma_filter_keeps_all(mid);
    lemma_filter_keeps_all(high);
    assert(full.filter(keeps()) =~= Seq::<u16>::empty()) by {
        reveal(Seq::filter);
        assert(full.drop_last().filter(keeps()) =~= Seq::<u16>::empty());
    }
}

/// What the filter keeps of walled rows is walled, not full, and no longer
/// than what it was given.
proof fn lemma_filter_walled(rows: Seq<u16>)
    requires
        forall|k: int| 0 <= k < rows.len() ==> walled(#[trigger] rows[k]),
    ensures
        rows.filter(keeps()).len() <= rows.len(),
        forall|k: int|
            0 <= k < rows.filter(keeps()).len() ==> walled(#[trigger] rows.filter(keeps())[k])
                && rows.filter(keeps())[k] != GROUND_ROW_DATA,
    decreases rows.len(),
{
    reveal(Seq::filter);
    if rows.len() > 0 {
        lemma_filter_walled(rows.drop_last());
    }
}

/// A line clear keeps a playfield a playfield, takes out between none and
/// twenty rows, and leaves no playable row full.
pub proof fn lemma_cleared_wf(rows: Seq<u16>)
    requires
        rows_wf(rows),
    ensures
        rows_wf(cleared(rows)),
        0 <= full_rows(rows) <= 20,
        forall|r: int| 1 <= r <= 20 ==> #[trigger] cleared(rows)[r] != GROUND_ROW_DATA,
{
    let playable = rows.subrange(1, 21);
    lemma_filter_walled(playable);
    lemma_sentinels_walled();
}

/// Whether no playable row is full.
pub open spec fn no_full_row(rows: Seq<u16>) -> bool {
    forall|r: int| 1 <= r <= 20 ==> #[trigger] rows[r] != GROUND_ROW_DATA
}

/// A piece that is merged into a playfield without a full row fills four
/// rows at most: those that it lies on.
pub proof fn lemma_merge_fills_at_most_four(rows: Seq<u16>, col: int, row: int, data: u16)
    requires
        rows.len() == 21,
        no_full_row(rows),
    ensures
        0 <= full_rows(merged(rows, col, row, data)) <= 4,
{
    let m = merged(rows, col, row, data);
    let a = if row - 3 < 1 {
        1
    } else if row - 3 > 21 {
        21
    } else {
        row - 3
    };
    let b = if row + 1 < a {
        a
    } else if row + 1 > 21 {
        21
    } else {
        row + 1
    };
    let low = m.subrange(1, a);
    let mid = m.subrange(a, b);
    let high = m.subrange(b, 21);
    assert(m.subrange(1, 21) =~= low + mid + high);
    lemma_filter_keeps_all(low);
    lemma_filter_keeps_all(high);
}

} // verus!
