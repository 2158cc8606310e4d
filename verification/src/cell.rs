//! Cells: the machine word, its unsigned reading, and its image in memory.
//!
//! A cell is a signed machine word. In data space it occupies eight bytes,
//! least significant byte first, whatever the width of the host's word.
use vstd::bytes::*;
use vstd::prelude::*;

verus! {

/// Number of bytes that one cell occupies in data space.
pub const CELL_SIZE: usize = 8;

/// The unsigned word with the same bits as `v`.
pub open spec fn unsigned_of(v: isize) -> usize {
    if v >= 0 {
        v as usize
    } else {
        (v + usize::MAX + 1) as usize
    }
}

/// The signed word with the same bits as `u`.
pub open spec fn signed_of(u: usize) -> isize {
    if u <= isize::MAX {
        u as isize
    } else {
        (u - usize::MAX - 1) as isize
    }
}

/// Reads a cell as an unsigned word without changing its bits.
pub fn to_unsigned(v: isize) -> (r: usize)
    ensures
        r == unsigned_of(v),
{
    if v >= 0 {
        v as usize
    } else {
        usize::MAX - ((-(v + 1)) as usize)
    }
}

/// Reads an unsigned word as a cell without changing its bits.
pub fn to_signed(u: usize) -> (r: isize)
    ensures
        r == signed_of(u),
{
    if u <= isize::MAX as usize {
        u as isize
    } else {
        -((usize::MAX - u) as isize) - 1
    }
}

/// Reading a cell as unsigned and back gives the cell again, and the other
/// way round.
pub proof fn lemma_signed_unsigned(v: isize, u: usize)
    ensures
        signed_of(unsigned_of(v)) == v,
        unsigned_of(signed_of(u)) == u,
{
}

/// The eight bytes that hold the cell `v` in data space.
pub open spec fn cell_bytes(v: isize) -> Seq<u8> {
    spec_u64_to_le_bytes(v as i64 as u64)
}

/// The cell that eight bytes of data space hold.
pub open spec fn bytes_cell(s: Seq<u8>) -> isize {
    spec_u64_from_le_bytes(s) as i64 as isize
}

/// The eight bytes that hold a 64-bit pattern in data space.
pub open spec fn bits_bytes(v: u64) -> Seq<u8> {
    spec_u64_to_le_bytes(v)
}

/// The 64-bit pattern that eight bytes of data space hold.
pub open spec fn bytes_bits(s: Seq<u8>) -> u64 {
    spec_u64_from_le_bytes(s)
}

/// A cell written to memory and read back is unchanged.
pub proof fn lemma_cell_round_trip(v: isize)
    ensures
        cell_bytes(v).len() == 8,
        bytes_cell(cell_bytes(v)) == v,
{
    lemma_auto_spec_u64_to_from_le_bytes();
    let x = v as i64;
    assert((x as u64) as i64 == x) by (bit_vector);
}

/// A 64-bit pattern written to memory and read back is unchanged.
pub proof fn lemma_bits_round_trip(v: u64)
    ensures
        bits_bytes(v).len() == 8,
        bytes_bits(bits_bytes(v)) == v,
{
    lemma_auto_spec_u64_to_from_le_bytes();
}

/// Encodes a cell as its eight bytes.
pub fn encode_cell(v: isize) -> (r: Vec<u8>)
    ensures
        r@ == cell_bytes(v),
        r@.len() == 8,
{
    u64_to_le_bytes(v as i64 as u64)
}

/// Decodes eight bytes as a cell.
pub fn decode_cell(s: &[u8]) -> (r: isize)
    requires
        s@.len() == 8,
    ensures
        r == bytes_cell(s@),
{
    u64_from_le_bytes(s) as i64 as isize
}

} // verus!
