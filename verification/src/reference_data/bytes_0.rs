//! Bytes 0 to 2559 of the expansions, in id order.
use vstd::prelude::*;

verus! {

/// The entries of this part, in order.
pub const CELLS: [u8; 2560] = [
    195, 134, 38, 195, 129, 196, 130, 195, 130, 208, 144, 240, 157, 148, 132, 195,
    128, 206, 145, 196, 128, 226, 169, 147, 196, 132, 240, 157, 148, 184, 226, 129,
    161, 195, 133, 240, 157, 146, 156, 226, 137, 148, 195, 131, 195, 132, 226, 136,
    150, 226, 171, 167, 226, 140, 134, 208, 145, 226, 136, 181, 226, 132, 172, 206,
    146, 240, 157, 148, 133, 240, 157, 148, 185, 203, 152, 226, 137, 142, 208, 167,
    194, 169, 196, 134, 226, 139, 146, 226, 133, 133, 226, 132, 173, 196, 140, 195,
    135, 196, 136, 226, 136, 176, 196, 138, 194, 184, 194, 183, 206, 167, 226, 138,
    153, 226, 138, 150, 226, 138, 149, 226, 138, 151, 226, 136, 178, 226, 128, 157,
    226, 128, 153, 226, 136, 183, 226, 169, 180, 226, 137, 161, 226, 136, 175, 226,
    136, 174, 226, 132, 130, 226, 136, 144, 226, 136, 179, 226, 168, 175, 240, 157,
    146, 158, 226, 139, 147, 226, 137, 141, 226, 164, 145, 208, 130, 208, 133, 208,
    143, 226, 128, 161, 226, 134, 161, 226, 171, 164, 196, 142, 208, 148, 226, 136,
    135, 206, 148, 240, 157, 148, 135, 194, 180, 203, 153, 203, 157, 96, 203, 156,
    226, 139, 132, 226, 133, 134, 240, 157, 148, 187, 194, 168, 226, 131, 156, 226,
    137, 144, 226, 135, 147, 226, 135, 144, 226, 135, 148, 226, 159, 184, 226, 159,
    186, 226, 159, 185, 226, 135, 146, 226, 138, 168, 226, 135, 145, 226, 135, 149,
    226, 136, 165, 226, 134, 147, 226, 164, 147, 226, 135, 181, 204, 145, 226, 165,
    144, 226, 165, 158, 226, 134, 189, 226, 165, 150, 226, 165, 159, 226, 135, 129,
    226, 165, 151, 226, 138, 164, 226, 134, 167, 240, 157, 146, 159, 196, 144, 197,
    138, 195, 144, 195, 137, 196, 154, 195, 138, 208, 173, 196, 150, 240, 157, 148,
    136, 195, 136, 226, 136, 136, 196, 146, 226, 151, 187, 226, 150, 171, 196, 152,
    240, 157, 148, 188, 206, 149, 226, 169, 181, 226, 137, 130, 226, 135, 140, 226,
    132, 176, 226, 169, 179, 206, 151, 195, 139, 226, 136, 131, 226, 133, 135, 208,
    164, 240, 157, 148, 137, 226, 151, 188, 226, 150, 170, 240, 157, 148, 189, 226,
    136, 128, 226, 132, 177, 208, 131, 62, 206, 147, 207, 156, 196, 158, 196, 162,
    196, 156, 208, 147, 196, 160, 240, 157, 148, 138, 226, 139, 153, 240, 157, 148,
    190, 226, 137, 165, 226, 139, 155, 226, 137, 167, 226, 170, 162, 226, 137, 183,
    226, 169, 190, 226, 137, 179, 240, 157, 146, 162, 226, 137, 171, 208, 170, 203,
    135, 94, 196, 164, 226, 132, 140, 226, 132, 139, 226, 132, 141, 226, 148, 128,
    196, 166, 226, 137, 143, 208, 149, 196, 178, 208, 129, 195, 141, 195, 142, 208,
    152, 196, 176, 226, 132, 145, 195, 140, 196, 170, 226, 133, 136, 226, 136, 172,
    226, 136, 171, 226, 139, 130, 226, 129, 163, 226, 129, 162, 196, 174, 240, 157,
    149, 128, 206, 153, 226, 132, 144, 196, 168, 208, 134, 195, 143, 196, 180, 208,
    153, 240, 157, 148, 141, 240, 157, 149, 129, 240, 157, 146, 165, 208, 136, 208,
    132, 208, 165, 208, 140, 206, 154, 196, 182, 208, 154, 240, 157, 148, 142, 240,
    157, 149, 130, 240, 157, 146, 166, 208, 137, 60, 196, 185, 206, 155, 226, 159,
    170, 226, 132, 146, 226, 134, 158, 196, 189, 196, 187, 208, 155, 226, 159, 168,
    226, 134, 144, 226, 135, 164, 226, 135, 134, 226, 140, 136, 226, 159, 166, 226,
    165, 161, 226, 135, 131, 226, 165, 153, 226, 140, 138, 226, 134, 148, 226, 165,
    142, 226, 138, 163, 226, 134, 164, 226, 165, 154, 226, 138, 178, 226, 167, 143,
    226, 138, 180, 226, 165, 145, 226, 165, 160, 226, 134, 191, 226, 165, 152, 226,
    134, 188, 226, 165, 146, 226, 139, 154, 226, 137, 166, 226, 137, 182, 226, 170,
    161, 226, 169, 189, 226, 137, 178, 240, 157, 148, 143, 226, 139, 152, 226, 135,
    154, 196, 191, 226, 159, 181, 226, 159, 183, 226, 159, 182, 240, 157, 149, 131,
    226, 134, 153, 226, 134, 152, 226, 134, 176, 197, 129, 226, 137, 170, 226, 164,
    133, 208, 156, 226, 129, 159, 226, 132, 179, 240, 157, 148, 144, 226, 136, 147,
    240, 157, 149, 132, 206, 156, 208, 138, 197, 131, 197, 135, 197, 133, 208, 157,
    226, 128, 139, 10, 240, 157, 148, 145, 226, 129, 160, 194, 160, 226, 132, 149,
    226, 171, 172, 226, 137, 162, 226, 137, 173, 226, 136, 166, 226, 136, 137, 226,
    137, 160, 226, 137, 130, 204, 184, 226, 136, 132, 226, 137, 175, 226, 137, 177,
    226, 137, 167, 204, 184, 226, 137, 171, 204, 184, 226, 137, 185, 226, 169, 190,
    204, 184, 226, 137, 181, 226, 137, 142, 204, 184, 226, 137, 143, 204, 184, 226,
    139, 170, 226, 167, 143, 204, 184, 226, 139, 172, 226, 137, 174, 226, 137, 176,
    226, 137, 184, 226, 137, 170, 204, 184, 226, 169, 189, 204, 184, 226, 137, 180,
    226, 170, 162, 204, 184, 226, 170, 161, 204, 184, 226, 138, 128, 226, 170, 175,
    204, 184, 226, 139, 160, 226, 136, 140, 226, 139, 171, 226, 167, 144, 204, 184,
    226, 139, 173, 226, 138, 143, 204, 184, 226, 139, 162, 226, 138, 144, 204, 184,
    226, 139, 163, 226, 138, 130, 226, 131, 146, 226, 138, 136, 226, 138, 129, 226,
    170, 176, 204, 184, 226, 139, 161, 226, 137, 191, 204, 184, 226, 138, 131, 226,
    131, 146, 226, 138, 137, 226, 137, 129, 226, 137, 132, 226, 137, 135, 226, 137,
    137, 226, 136, 164, 240, 157, 146, 169, 195, 145, 206, 157, 197, 146, 195, 147,
    195, 148, 208, 158, 197, 144, 240, 157, 148, 146, 195, 146, 197, 140, 206, 169,
    206, 159, 240, 157, 149, 134, 226, 128, 156, 226, 128, 152, 226, 169, 148, 240,
    157, 146, 170, 195, 152, 195, 149, 226, 168, 183, 195, 150, 226, 128, 190, 226,
    143, 158, 226, 142, 180, 226, 143, 156, 226, 136, 130, 208, 159, 240, 157, 148,
    147, 206, 166, 206, 160, 194, 177, 226, 132, 153, 226, 170, 187, 226, 137, 186,
    226, 170, 175, 226, 137, 188, 226, 137, 190, 226, 128, 179, 226, 136, 143, 226,
    136, 157, 240, 157, 146, 171, 206, 168, 34, 240, 157, 148, 148, 226, 132, 154,
    240, 157, 146, 172, 226, 164, 144, 194, 174, 197, 148, 226, 159, 171, 226, 134,
    160, 226, 164, 150, 197, 152, 197, 150, 208, 160, 226, 132, 156, 226, 136, 139,
    226, 135, 139, 226, 165, 175, 206, 161, 226, 159, 169, 226, 134, 146, 226, 135,
    165, 226, 135, 132, 226, 140, 137, 226, 159, 167, 226, 165, 157, 226, 135, 130,
    226, 165, 149, 226, 140, 139, 226, 138, 162, 226, 134, 166, 226, 165, 155, 226,
    138, 179, 226, 167, 144, 226, 138, 181, 226, 165, 143, 226, 165, 156, 226, 134,
    190, 226, 165, 148, 226, 135, 128, 226, 165, 147, 226, 132, 157, 226, 165, 176,
    226, 135, 155, 226, 132, 155, 226, 134, 177, 226, 167, 180, 208, 169, 208, 168,
    208, 172, 197, 154, 226, 170, 188, 197, 160, 197, 158, 197, 156, 208, 161, 240,
    157, 148, 150, 226, 134, 145, 206, 163, 226, 136, 152, 240, 157, 149, 138, 226,
    136, 154, 226, 150, 161, 226, 138, 147, 226, 138, 143, 226, 138, 145, 226, 138,
    144, 226, 138, 146, 226, 138, 148, 240, 157, 146, 174, 226, 139, 134, 226, 139,
    144, 226, 138, 134, 226, 137, 187, 226, 170, 176, 226, 137, 189, 226, 137, 191,
    226, 136, 145, 226, 139, 145, 226, 138, 131, 226, 138, 135, 195, 158, 226, 132,
    162, 208, 139, 208, 166, 9, 206, 164, 197, 164, 197, 162, 208, 162, 240, 157,
    148, 151, 226, 136, 180, 206, 152, 226, 129, 159, 226, 128, 138, 226, 128, 137,
    226, 136, 188, 226, 137, 131, 226, 137, 133, 226, 137, 136, 240, 157, 149, 139,
    226, 131, 155, 240, 157, 146, 175, 197, 166, 195, 154, 226, 134, 159, 226, 165,
    137, 208, 142, 197, 172, 195, 155, 208, 163, 197, 176, 240, 157, 148, 152, 195,
    153, 197, 170, 95, 226, 143, 159, 226, 142, 181, 226, 143, 157, 226, 139, 131,
    226, 138, 142, 197, 178, 240, 157, 149, 140, 226, 164, 146, 226, 135, 133, 226,
    134, 149, 226, 165, 174, 226, 138, 165, 226, 134, 165, 226, 134, 150, 226, 134,
    151, 207, 146, 206, 165, 197, 174, 240, 157, 146, 176, 197, 168, 195, 156, 226,
    138, 171, 226, 171, 171, 208, 146, 226, 138, 169, 226, 171, 166, 226, 139, 129,
    226, 128, 150, 226, 136, 163, 124, 226, 157, 152, 226, 137, 128, 226, 128, 138,
    240, 157, 148, 153, 240, 157, 149, 141, 240, 157, 146, 177, 226, 138, 170, 197,
    180, 226, 139, 128, 240, 157, 148, 154, 240, 157, 149, 142, 240, 157, 146, 178,
    240, 157, 148, 155, 206, 158, 240, 157, 149, 143, 240, 157, 146, 179, 208, 175,
    208, 135, 208, 174, 195, 157, 197, 182, 208, 171, 240, 157, 148, 156, 240, 157,
    149, 144, 240, 157, 146, 180, 197, 184, 208, 150, 197, 185, 197, 189, 208, 151,
    197, 187, 206, 150, 226, 132, 168, 226, 132, 164, 240, 157, 146, 181, 195, 161,
    196, 131, 226, 136, 190, 226, 136, 190, 204, 179, 226, 136, 191, 195, 162, 208,
    176, 195, 166, 240, 157, 148, 158, 195, 160, 226, 132, 181, 206, 177, 196, 129,
    226, 168, 191, 226, 136, 167, 226, 169, 149, 226, 169, 156, 226, 169, 152, 226,
    169, 154, 226, 136, 160, 226, 166, 164, 226, 136, 161, 226, 166, 168, 226, 166,
    169, 226, 166, 170, 226, 166, 171, 226, 166, 172, 226, 166, 173, 226, 166, 174,
    226, 166, 175, 226, 136, 159, 226, 138, 190, 226, 166, 157, 226, 136, 162, 226,
    141, 188, 196, 133, 240, 157, 149, 146, 226, 169, 176, 226, 169, 175, 226, 137,
    138, 226, 137, 139, 39, 195, 165, 240, 157, 146, 182, 42, 195, 163, 195, 164,
    226, 168, 145, 226, 171, 173, 226, 137, 140, 207, 182, 226, 128, 181, 226, 136,
    189, 226, 139, 141, 226, 138, 189, 226, 140, 133, 226, 142, 182, 208, 177, 226,
    128, 158, 226, 166, 176, 206, 178, 226, 132, 182, 226, 137, 172, 240, 157, 148,
    159, 226, 151, 175, 226, 168, 128, 226, 168, 129, 226, 168, 130, 226, 168, 134,
    226, 152, 133, 226, 150, 189, 226, 150, 179, 226, 168, 132, 226, 164, 141, 226,
    167, 171, 226, 150, 180, 226, 150, 190, 226, 151, 130, 226, 150, 184, 226, 144,
    163, 226, 150, 146, 226, 150, 145, 226, 150, 147, 226, 150, 136, 61, 226, 131,
    165, 226, 137, 161, 226, 131, 165, 226, 140, 144, 240, 157, 149, 147, 226, 139,
    136, 226, 149, 151, 226, 149, 148, 226, 149, 150, 226, 149, 147, 226, 149, 144,
    226, 149, 166, 226, 149, 169, 226, 149, 164, 226, 149, 167, 226, 149, 157, 226,
    149, 154, 226, 149, 156, 226, 149, 153, 226, 149, 145, 226, 149, 172, 226, 149,
    163, 226, 149, 160, 226, 149, 171, 226, 149, 162, 226, 149, 159, 226, 167, 137,
    226, 149, 149, 226, 149, 146, 226, 148, 144, 226, 148, 140, 226, 149, 165, 226,
    149, 168, 226, 148, 172, 226, 148, 180, 226, 138, 159, 226, 138, 158, 226, 138,
    160, 226, 149, 155, 226, 149, 152, 226, 148, 152, 226, 148, 148, 226, 148, 130,
    226, 149, 170, 226, 149, 161, 226, 149, 158, 226, 148, 188, 226, 148, 164, 226,
    148, 156, 194, 166, 240, 157, 146, 183, 226, 129, 143, 92, 226, 167, 133, 226,
    159, 136, 226, 128, 162, 226, 170, 174, 196, 135, 226, 136, 169, 226, 169, 132,
    226, 169, 137, 226, 169, 139, 226, 169, 135, 226, 169, 128, 226, 136, 169, 239,
    184, 128, 226, 129, 129, 226, 169, 141, 196, 141, 195, 167, 196, 137, 226, 169,
    140, 226, 169, 144, 196, 139, 226, 166, 178, 194, 162, 240, 157, 148, 160, 209,
    135, 226, 156, 147, 207, 135, 226, 151, 139, 226, 167, 131, 203, 134, 226, 137,
    151, 226, 134, 186, 226, 134, 187, 226, 147, 136, 226, 138, 155, 226, 138, 154,
    226, 138, 157, 226, 168, 144, 226, 171, 175, 226, 167, 130, 226, 153, 163, 58,
    44, 64, 226, 136, 129, 226, 169, 173, 240, 157, 149, 148, 226, 132, 151, 226,
    134, 181, 226, 156, 151, 240, 157, 146, 184, 226, 171, 143, 226, 171, 145, 226,
    171, 144, 226, 171, 146, 226, 139, 175, 226, 164, 184, 226, 164, 181, 226, 139,
    158, 226, 139, 159, 226, 134, 182, 226, 164, 189, 226, 136, 170, 226, 169, 136,
    226, 169, 134, 226, 169, 138, 226, 138, 141, 226, 169, 133, 226, 136, 170, 239,
    184, 128, 226, 134, 183, 226, 164, 188, 226, 139, 142, 226, 139, 143, 194, 164,
    226, 136, 177, 226, 140, 173, 226, 165, 165, 226, 128, 160, 226, 132, 184, 226,
    128, 144, 226, 164, 143, 196, 143, 208, 180, 226, 135, 138, 226, 169, 183, 194,
    176, 206, 180, 226, 166, 177, 226, 165, 191, 240, 157, 148, 161, 226, 153, 166,
    207, 157, 226, 139, 178, 195, 183, 226, 139, 135, 209, 146, 226, 140, 158, 226,
    140, 141, 36, 240, 157, 149, 149, 226, 137, 145, 226, 136, 184, 226, 136, 148,
    226, 138, 161, 226, 140, 159, 226, 140, 140, 240, 157, 146, 185, 209, 149, 226,
    167, 182, 196, 145, 226, 139, 177, 226, 150, 191, 226, 166, 166, 209, 159, 226,
    159, 191, 195, 169, 226, 169, 174, 196, 155, 226, 137, 150, 195, 170, 226, 137,
    149, 209, 141, 196, 151, 226, 137, 146, 240, 157, 148, 162, 226, 170, 154, 195,
    168, 226, 170, 150, 226, 170, 152, 226, 170, 153, 226, 143, 167, 226, 132, 147,
    226, 170, 149, 226, 170, 151, 196, 147, 226, 136, 133, 226, 128, 132, 226, 128,
    133, 226, 128, 131, 197, 139, 226, 128, 130, 196, 153, 240, 157, 149, 150, 226,
    139, 149, 226, 167, 163, 226, 169, 177, 206, 181, 207, 181, 61, 226, 137, 159,
    226, 169, 184, 226, 167, 165, 226, 137, 147, 226, 165, 177, 226, 132, 175, 206,
    183, 195, 176, 195, 171, 226, 130, 172, 33, 209, 132, 226, 153, 128, 239, 172,
    131, 239, 172, 128, 239, 172, 132, 240, 157, 148, 163, 239, 172, 129, 102, 106,
    226, 153, 173, 239, 172, 130, 226, 150, 177, 198, 146, 240, 157, 149, 151, 226,
    139, 148, 226, 171, 153, 226, 168, 141, 194, 189, 226, 133, 147, 194, 188, 226,
    133, 149, 226, 133, 153, 226, 133, 155, 226, 133, 148, 226, 133, 150, 194, 190,
    226, 133, 151, 226, 133, 156, 226, 133, 152, 226, 133, 154, 226, 133, 157, 226,
    133, 158, 226, 129, 132, 226, 140, 162, 240, 157, 146, 187, 226, 170, 140, 199,
    181, 206, 179, 226, 170, 134, 196, 159, 196, 157, 208, 179, 196, 161, 226, 170,
    169, 226, 170, 128, 226, 170, 130, 226, 170, 132, 226, 139, 155, 239, 184, 128,
];

/// Entry `i` of this part; 0 where the part has no such entry.
#[verifier::opaque]
pub open spec fn cell(i: int) -> u8 {
    if 0 <= i < 2560 {
        CELLS[i]
    } else {
        0
    }
}

/// Reads entry `i` of this part.
pub fn read_cell(i: usize) -> (entry: u8)
    ensures
        entry == cell(i as int),
{
    reveal(cell);
    if i < 2560 {
        CELLS[i]
    } else {
        0
    }
}

/// The entries of this part that the references `amp;`, `lt;` and `gt;` go through.
pub proof fn lemma_basic_reference_cells()
    ensures
        cell(2) == 38,
        cell(391) == 62,
        cell(569) == 60,
{
    reveal(cell);
}

} // verus!
