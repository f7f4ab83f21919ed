//! The named character reference table as data: a packed prefix trie over
//! the reference names, and the byte sequences that the names expand to.
//!
//! The trie is one table of 16-bit cells, held in parts. A node is a record
//! that starts at some offset `p`: cell `p` is the id of the node's expansion
//! (or `NO_ID`), cell `p + 1` the smallest byte that labels an edge out of the
//! node, cell `p + 2` the number of consecutive byte values the node has a
//! slot for, and the slots follow, each the offset of a child record or 0 for
//! no child. The root record is at offset 0, so 0 never names a child.
//!
//! The expansions lie end to end in one run of bytes, in id order; a table of
//! end offsets says where each stops.
pub mod trie_00;
pub mod trie_01;
pub mod trie_02;
pub mod trie_03;
pub mod trie_04;
pub mod trie_05;
pub mod trie_06;
pub mod trie_07;
pub mod trie_08;
pub mod trie_09;
pub mod trie_10;
pub mod trie_11;
pub mod trie_12;
pub mod trie_13;
pub mod trie_14;
pub mod trie_15;
pub mod trie_16;
pub mod trie_17;
pub mod trie_18;
pub mod trie_19;
pub mod trie_20;
pub mod trie_21;
pub mod trie_22;
pub mod trie_23;
pub mod ends;
pub mod bytes_0;
pub mod bytes_1;

use vstd::prelude::*;

verus! {

/// The id cell of a node that no name ends at.
pub const NO_ID: u16 = 0xFFFF;

/// Number of cells in the trie table.
pub const TRIE_LEN: usize = 60544;

/// Number of expansions.
pub const DECODED_COUNT: usize = 1511;

/// Number of bytes in all expansions together.
pub const DECODED_LEN: usize = 4374;

/// The cell at offset `i` of the trie table; 0 past its end.
pub open spec fn trie_cell(i: int) -> u16 {
    if i < 2560 {
        trie_00::cell(i)
    } else if i < 5120 {
        trie_01::cell(i - 2560)
    } else if i < 7680 {
        trie_02::cell(i - 5120)
    } else if i < 10240 {
        trie_03::cell(i - 7680)
    } else if i < 12800 {
        trie_04::cell(i - 10240)
    } else if i < 15360 {
        trie_05::cell(i - 12800)
    } else if i < 17920 {
        trie_06::cell(i - 15360)
    } else if i < 20480 {
        trie_07::cell(i - 17920)
    } else if i < 23040 {
        trie_08::cell(i - 20480)
    } else if i < 25600 {
        trie_09::cell(i - 23040)
    } else if i < 28160 {
        trie_10::cell(i - 25600)
    } else if i < 30720 {
        trie_11::cell(i - 28160)
    } else if i < 33280 {
        trie_12::cell(i - 30720)
    } else if i < 35840 {
        trie_13::cell(i - 33280)
    } else if i < 38400 {
        trie_14::cell(i - 35840)
    } else if i < 40960 {
        trie_15::cell(i - 38400)
    } else if i < 43520 {
        trie_16::cell(i - 40960)
    } else if i < 46080 {
        trie_17::cell(i - 43520)
    } else if i < 48640 {
        trie_18::cell(i - 46080)
    } else if i < 51200 {
        trie_19::cell(i - 48640)
    } else if i < 53760 {
        trie_20::cell(i - 51200)
    } else if i < 56320 {
        trie_21::cell(i - 53760)
    } else if i < 58880 {
        trie_22::cell(i - 56320)
    } else if i < 60544 {
        trie_23::cell(i - 58880)
    } else {
        0
    }
}

/// Reads the cell at offset `i` of the trie table.
pub fn read_trie_cell(i: usize) -> (cell: u16)
    ensures
        cell == trie_cell(i as int),
{
    if i < 2560 {
        trie_00::read_cell(i)
    } else if i < 5120 {
        trie_01::read_cell(i - 2560)
    } else if i < 7680 {
        trie_02::read_cell(i - 5120)
    } else if i < 10240 {
        trie_03::read_cell(i - 7680)
    } else if i < 12800 {
        trie_04::read_cell(i - 10240)
    } else if i < 15360 {
        trie_05::read_cell(i - 12800)
    } else if i < 17920 {
        trie_06::read_cell(i - 15360)
    } else if i < 20480 {
        trie_07::read_cell(i - 17920)
    } else if i < 23040 {
        trie_08::read_cell(i - 20480)
    } else if i < 25600 {
        trie_09::read_cell(i - 23040)
    } else if i < 28160 {
        trie_10::read_cell(i - 25600)
    } else if i < 30720 {
        trie_11::read_cell(i - 28160)
    } else if i < 33280 {
        trie_12::read_cell(i - 30720)
    } else if i < 35840 {
        trie_13::read_cell(i - 33280)
    } else if i < 38400 {
        trie_14::read_cell(i - 35840)
    } else if i < 40960 {
        trie_15::read_cell(i - 38400)
    } else if i < 43520 {
        trie_16::read_cell(i - 40960)
    } else if i < 46080 {
        trie_17::read_cell(i - 43520)
    } else if i < 48640 {
        trie_18::read_cell(i - 46080)
    } else if i < 51200 {
        trie_19::read_cell(i - 48640)
    } else if i < 53760 {
        trie_20::read_cell(i - 51200)
    } else if i < 56320 {
        trie_21::read_cell(i - 53760)
    } else if i < 58880 {
        trie_22::read_cell(i - 56320)
    } else if i < 60544 {
        trie_23::read_cell(i - 58880)
    } else {
        0
    }
}

/// The offset just past the last byte of expansion `i`; 0 where there is no such expansion.
pub open spec fn decoded_end(i: int) -> u16 {
    if i < 1511 {
        ends::cell(i)
    } else {
        0
    }
}

/// Reads the offset just past the last byte of expansion `i`.
pub fn read_decoded_end(i: usize) -> (end: u16)
    ensures
        end == decoded_end(i as int),
{
    if i < 1511 {
        ends::read_cell(i)
    } else {
        0
    }
}

/// The byte at offset `i` of the expansion bytes; 0 past their end.
pub open spec fn decoded_byte(i: int) -> u8 {
    if i < 2560 {
        bytes_0::cell(i)
    } else if i < 4374 {
        bytes_1::cell(i - 2560)
    } else {
        0
    }
}

/// Reads the byte at offset `i` of the expansion bytes.
pub fn read_decoded_byte(i: usize) -> (byte: u8)
    ensures
        byte == decoded_byte(i as int),
{
    if i < 2560 {
        bytes_0::read_cell(i)
    } else if i < 4374 {
        bytes_1::read_cell(i - 2560)
    } else {
        0
    }
}

} // verus!
