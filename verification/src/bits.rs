//! Single-bit reads and updates of register bytes, and their laws.

use vstd::prelude::*;

verus! {

/// Whether bit `i` of `v` is set.
pub open spec fn get_bit(v: u8, i: u8) -> bool {
    (v >> i) & 1 == 1
}

/// `v` with bit `i` forced to `b` and every other bit kept.
pub open spec fn update_bit(v: u8, i: u8, b: bool) -> u8 {
    if b {
        v | (1u8 << i)
    } else {
        v & !(1u8 << i)
    }
}

/// Whether bit `i` of `v` is set.
pub fn read_bit(v: u8, i: u8) -> (b: bool)
    requires
        i < 8,
    ensures
        b == get_bit(v, i),
{
    (v >> i) & 1 == 1
}

/// `v` with bit `i` forced to `b`.
pub fn write_bit(v: u8, i: u8, b: bool) -> (r: u8)
    requires
        i < 8,
    ensures
        r == update_bit(v, i, b),
{
    if b {
        v | (1u8 << i)
    } else {
        v & !(1u8 << i)
    }
}

/// Law: a bit forced into a register byte reads back exactly as written,
/// whatever the byte held before. This is the byte-level half of the
/// set-then-get round trips for direction, output, polarity inversion and
/// interrupt mask.
pub proof fn lemma_update_bit_reads_back(v: u8, i: u8, b: bool)
    requires
        i < 8,
    ensures
        get_bit(update_bit(v, i, b), i) == b,
{
    assert(get_bit(update_bit(v, i, b), i) == b) by (bit_vector)
        requires
            i < 8,
    ;
}

/// Law: a read-modify-write never touches bits outside the target bit.
/// Forcing bit `i` leaves every other bit `j` of the byte unchanged.
pub proof fn lemma_update_bit_preserves_others(v: u8, i: u8, j: u8, b: bool)
    requires
        i < 8,
        j < 8,
        i != j,
    ensures
        get_bit(update_bit(v, i, b), j) == get_bit(v, j),
{
    assert(get_bit(update_bit(v, i, b), j) == get_bit(v, j)) by (bit_vector)
        requires
            i < 8 && j < 8 && i != j,
    ;
}

} // verus!
