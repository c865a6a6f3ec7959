//! Bit-level vocabulary for row words and piece patterns.
//!
//! A row word and a piece pattern are both sixteen bits wide and are read
//! from the most significant bit: column 0 of a row is bit 15, and cell
//! `(i, j)` of a pattern is column `4 * i + j`.

use vstd::prelude::*;

verus! {

/// Whether bit `k` of `word` is set, `k` counted from the least significant bit.
pub open spec fn lsb(word: u16, k: u16) -> bool {
    (word >> k) & 1 == 1
}

/// Whether `word` has a one in column `c`, columns counted from the most
/// significant bit. Columns outside `0..16` hold nothing.
pub open spec fn bit(word: u16, c: int) -> bool {
    0 <= c < 16 && lsb(word, (15 - c) as u16)
}

/// The four columns of `word` that start at column `12 - s`, as the low
/// nibble of the result.
pub open spec fn nibble(word: u16, s: u16) -> u16 {
    (word >> s) & 0xF
}

/// Four nibbles packed into one word, the first one uppermost.
pub open spec fn pack(n0: u16, n1: u16, n2: u16, n3: u16) -> u16 {
    (n0 << 12) | (n1 << 8) | (n2 << 4) | n3
}

/// A bit of a conjunction is set exactly if it is set in both words.
pub(crate) proof fn lemma_and_bit(w: u16, d: u16, k: u16)
    by (bit_vector)
    requires
        k < 16,
    ensures
        lsb(w & d, k) == (lsb(w, k) && lsb(d, k)),
{
}

/// A bit of a disjunction is set exactly if it is set in one of the words.
pub(crate) proof fn lemma_or_bit(w: u16, d: u16, k: u16)
    by (bit_vector)
    requires
        k < 16,
    ensures
        lsb(w | d, k) == (lsb(w, k) || lsb(d, k)),
{
}

/// A word with a set bit is not zero.
pub(crate) proof fn lemma_bit_nonzero(x: u16, k: u16)
    by (bit_vector)
    requires
        k < 16,
        lsb(x, k),
    ensures
        x != 0,
{
}

/// A word that is not zero has a set bit.
proof fn lemma_nonzero_some_bit(x: u16)
    by (bit_vector)
    requires
        x != 0,
    ensures
        lsb(x, 0) || lsb(x, 1) || lsb(x, 2) || lsb(x, 3) || lsb(x, 4) || lsb(x, 5) || lsb(x, 6)
            || lsb(x, 7) || lsb(x, 8) || lsb(x, 9) || lsb(x, 10) || lsb(x, 11) || lsb(x, 12)
            || lsb(x, 13) || lsb(x, 14) || lsb(x, 15),
{
}

/// A set bit of a nonzero word.
pub(crate) proof fn lemma_nonzero_witness(x: u16) -> (k: u16)
    requires
        x != 0,
    ensures
        k < 16,
        lsb(x, k),
{
    lemma_nonzero_some_bit(x);
    choose|k: u16| k < 16 && lsb(x, k)
}

/// Bit `t` of nibble `i` of a packed window is bit `s + t` of the word the
/// nibble was cut from.
pub(crate) proof fn lemma_pack_bit(a0: u16, a1: u16, a2: u16, a3: u16, s: u16, t: u16)
    by (bit_vector)
    requires
        s < 16,
        t < 4,
    ensures
        lsb(pack(nibble(a0, s), nibble(a1, s), nibble(a2, s), nibble(a3, s)), (12 + t) as u16)
            == (s + t < 16 && lsb(a0, (s + t) as u16)),
        lsb(pack(nibble(a0, s), nibble(a1, s), nibble(a2, s), nibble(a3, s)), (8 + t) as u16)
            == (s + t < 16 && lsb(a1, (s + t) as u16)),
        lsb(pack(nibble(a0, s), nibble(a1, s), nibble(a2, s), nibble(a3, s)), (4 + t) as u16)
            == (s + t < 16 && lsb(a2, (s + t) as u16)),
        lsb(pack(nibble(a0, s), nibble(a1, s), nibble(a2, s), nibble(a3, s)), t)
            == (s + t < 16 && lsb(a3, (s + t) as u16)),
{
}

/// Each of the catalogue's patterns has a bit in the two left columns of its
/// rows and a bit in the three right columns.
pub(crate) proof fn lemma_pattern_masks()
    by (bit_vector)
    ensures
        0x4444u16 & 0xCCCC != 0 && 0x4444u16 & 0x7777 != 0,
        0x0F00u16 & 0xCCCC != 0 && 0x0F00u16 & 0x7777 != 0,
        0x0CC0u16 & 0xCCCC != 0 && 0x0CC0u16 & 0x7777 != 0,
        0x0C60u16 & 0xCCCC != 0 && 0x0C60u16 & 0x7777 != 0,
        0x2640u16 & 0xCCCC != 0 && 0x2640u16 & 0x7777 != 0,
        0x06C0u16 & 0xCCCC != 0 && 0x06C0u16 & 0x7777 != 0,
        0x8C40u16 & 0xCCCC != 0 && 0x8C40u16 & 0x7777 != 0,
        0x4460u16 & 0xCCCC != 0 && 0x4460u16 & 0x7777 != 0,
        0x0E80u16 & 0xCCCC != 0 && 0x0E80u16 & 0x7777 != 0,
        0xC440u16 & 0xCCCC != 0 && 0xC440u16 & 0x7777 != 0,
        0x2E00u16 & 0xCCCC != 0 && 0x2E00u16 & 0x7777 != 0,
        0x44C0u16 & 0xCCCC != 0 && 0x44C0u16 & 0x7777 != 0,
        0x8E00u16 & 0xCCCC != 0 && 0x8E00u16 & 0x7777 != 0,
        0x6440u16 & 0xCCCC != 0 && 0x6440u16 & 0x7777 != 0,
        0x0E20u16 & 0xCCCC != 0 && 0x0E20u16 & 0x7777 != 0,
        0x0E40u16 & 0xCCCC != 0 && 0x0E40u16 & 0x7777 != 0,
        0x4C40u16 & 0xCCCC != 0 && 0x4C40u16 & 0x7777 != 0,
        0x4E00u16 & 0xCCCC != 0 && 0x4E00u16 & 0x7777 != 0,
        0x4640u16 & 0xCCCC != 0 && 0x4640u16 & 0x7777 != 0,
{
}

/// Every bit of the all-ones word is set.
pub(crate) proof fn lemma_ones_bit(k: u16)
    by (bit_vector)
    requires
        k < 16,
    ensures
        lsb(0xFFFFu16, k),
{
}

/// The bits of the bare wall pattern are the three at either end.
pub(crate) proof fn lemma_wall_bits(k: u16)
    by (bit_vector)
    requires
        k < 16,
    ensures
        lsb(0xE007u16, k) == (k <= 2 || k >= 13),
{
}

/// A word that contains the wall pattern has the three bits at either end.
pub(crate) proof fn lemma_walled_bits(a: u16, k: u16)
    by (bit_vector)
    requires
        a & 0xE007 == 0xE007,
        k <= 2 || 13 <= k < 16,
    ensures
        lsb(a, k),
{
}

/// The mask of a pattern's two left columns has, in each nibble, the two
/// upper bits.
pub(crate) proof fn lemma_left_mask_bits(k: u16)
    by (bit_vector)
    requires
        k < 16,
    ensures
        lsb(0xCCCCu16, k) == (k % 4 >= 2),
{
}

/// The mask of a pattern's three right columns has, in each nibble, the three
/// lower bits.
pub(crate) proof fn lemma_right_mask_bits(k: u16)
    by (bit_vector)
    requires
        k < 16,
    ensures
        lsb(0x7777u16, k) == (k % 4 <= 2),
{
}

/// A word keeps its walls when bits are added to it, and the all-ones word
/// stays as it is.
pub(crate) proof fn lemma_or_keeps(a: u16, b: u16)
    by (bit_vector)
    ensures
        a & 0xE007 == 0xE007 ==> (a | b) & 0xE007 == 0xE007,
        a == 0xFFFF ==> a | b == 0xFFFF,
{
}

/// The all-ones word and the bare wall pattern both contain the walls.
pub(crate) proof fn lemma_sentinels_walled()
    by (bit_vector)
    ensures
        0xFFFFu16 & 0xE007 == 0xE007,
        0xE007u16 & 0xE007 == 0xE007,
{
}

/// One row of a pattern, cut out and moved to column `col` of a row word.
/// `up` is four times the index of the pattern's row.
pub open spec fn stamp_at(data: u16, up: u16, col: u16) -> u16 {
    ((data << up) & 0xF000) >> col
}

/// Bit `k` of a stamped pattern row is the pattern's bit in the column that
/// lies `col` to the left of it, if that column is one of the row's four.
pub(crate) proof fn lemma_stamp_bit(data: u16, up: u16, col: u16, k: u16)
    by (bit_vector)
    requires
        up == 0 || up == 4 || up == 8 || up == 12,
        col < 16,
        k < 16,
    ensures
        lsb(stamp_at(data, up, col), k) == (12 <= k + col <= 15 && lsb(
            data,
            (k + col - up) as u16,
        )),
{
}

} // verus!
