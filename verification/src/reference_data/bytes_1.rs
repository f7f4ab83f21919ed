//! Bytes 2560 to 4373 of the expansions, in id order.
use vstd::prelude::*;

verus! {

/// The entries of this part, in order.
pub const CELLS: [u8; 1814] = [
    226, 170, 148, 240, 157, 148, 164, 226, 132, 183, 209, 147, 226, 170, 146, 226,
    170, 165, 226, 170, 164, 226, 137, 169, 226, 170, 138, 226, 170, 136, 226, 139,
    167, 240, 157, 149, 152, 226, 132, 138, 226, 170, 142, 226, 170, 144, 226, 170,
    167, 226, 169, 186, 226, 139, 151, 226, 166, 149, 226, 169, 188, 226, 165, 184,
    226, 137, 169, 239, 184, 128, 209, 138, 226, 165, 136, 226, 134, 173, 226, 132,
    143, 196, 165, 226, 153, 165, 226, 128, 166, 226, 138, 185, 240, 157, 148, 165,
    226, 164, 165, 226, 164, 166, 226, 135, 191, 226, 136, 187, 226, 134, 169, 226,
    134, 170, 240, 157, 149, 153, 226, 128, 149, 240, 157, 146, 189, 196, 167, 226,
    129, 131, 195, 173, 195, 174, 208, 184, 208, 181, 194, 161, 240, 157, 148, 166,
    195, 172, 226, 168, 140, 226, 136, 173, 226, 167, 156, 226, 132, 169, 196, 179,
    196, 171, 196, 177, 226, 138, 183, 198, 181, 226, 132, 133, 226, 136, 158, 226,
    167, 157, 226, 138, 186, 226, 168, 151, 226, 168, 188, 209, 145, 196, 175, 240,
    157, 149, 154, 206, 185, 194, 191, 240, 157, 146, 190, 226, 139, 185, 226, 139,
    181, 226, 139, 180, 226, 139, 179, 196, 169, 209, 150, 195, 175, 196, 181, 208,
    185, 240, 157, 148, 167, 200, 183, 240, 157, 149, 155, 240, 157, 146, 191, 209,
    152, 209, 148, 206, 186, 207, 176, 196, 183, 208, 186, 240, 157, 148, 168, 196,
    184, 209, 133, 209, 156, 240, 157, 149, 156, 240, 157, 147, 128, 226, 164, 155,
    226, 164, 142, 226, 170, 139, 226, 165, 162, 196, 186, 226, 166, 180, 206, 187,
    226, 166, 145, 226, 170, 133, 194, 171, 226, 164, 159, 226, 164, 157, 226, 134,
    171, 226, 164, 185, 226, 165, 179, 226, 134, 162, 226, 170, 171, 226, 164, 153,
    226, 170, 173, 226, 170, 173, 239, 184, 128, 226, 164, 140, 226, 157, 178, 123,
    91, 226, 166, 139, 226, 166, 143, 226, 166, 141, 196, 190, 196, 188, 208, 187,
    226, 164, 182, 226, 165, 167, 226, 165, 139, 226, 134, 178, 226, 137, 164, 226,
    135, 135, 226, 139, 139, 226, 170, 168, 226, 169, 191, 226, 170, 129, 226, 170,
    131, 226, 139, 154, 239, 184, 128, 226, 170, 147, 226, 139, 150, 226, 165, 188,
    240, 157, 148, 169, 226, 170, 145, 226, 165, 170, 226, 150, 132, 209, 153, 226,
    165, 171, 226, 151, 186, 197, 128, 226, 142, 176, 226, 137, 168, 226, 170, 137,
    226, 170, 135, 226, 139, 166, 226, 159, 172, 226, 135, 189, 226, 159, 188, 226,
    134, 172, 226, 166, 133, 240, 157, 149, 157, 226, 168, 173, 226, 168, 180, 226,
    136, 151, 226, 151, 138, 40, 226, 166, 147, 226, 165, 173, 226, 128, 142, 226,
    138, 191, 226, 128, 185, 240, 157, 147, 129, 226, 170, 141, 226, 170, 143, 226,
    128, 154, 197, 130, 226, 170, 166, 226, 169, 185, 226, 139, 137, 226, 165, 182,
    226, 169, 187, 226, 166, 150, 226, 151, 131, 226, 165, 138, 226, 165, 166, 226,
    137, 168, 239, 184, 128, 226, 136, 186, 194, 175, 226, 153, 130, 226, 156, 160,
    226, 150, 174, 226, 168, 169, 208, 188, 226, 128, 148, 240, 157, 148, 170, 226,
    132, 167, 194, 181, 226, 171, 176, 226, 136, 146, 226, 168, 170, 226, 171, 155,
    226, 138, 167, 240, 157, 149, 158, 240, 157, 147, 130, 206, 188, 226, 138, 184,
    226, 139, 153, 204, 184, 226, 137, 171, 226, 131, 146, 226, 135, 141, 226, 135,
    142, 226, 139, 152, 204, 184, 226, 137, 170, 226, 131, 146, 226, 135, 143, 226,
    138, 175, 226, 138, 174, 197, 132, 226, 136, 160, 226, 131, 146, 226, 169, 176,
    204, 184, 226, 137, 139, 204, 184, 197, 137, 226, 153, 174, 226, 169, 131, 197,
    136, 197, 134, 226, 169, 173, 204, 184, 226, 169, 130, 208, 189, 226, 128, 147,
    226, 135, 151, 226, 164, 164, 226, 137, 144, 204, 184, 226, 164, 168, 240, 157,
    148, 171, 226, 134, 174, 226, 171, 178, 226, 139, 188, 226, 139, 186, 209, 154,
    226, 137, 166, 204, 184, 226, 134, 154, 226, 128, 165, 240, 157, 149, 159, 194,
    172, 226, 139, 185, 204, 184, 226, 139, 181, 204, 184, 226, 139, 183, 226, 139,
    182, 226, 139, 190, 226, 139, 189, 226, 171, 189, 226, 131, 165, 226, 136, 130,
    204, 184, 226, 168, 148, 226, 134, 155, 226, 164, 179, 204, 184, 226, 134, 157,
    204, 184, 240, 157, 147, 131, 226, 138, 132, 226, 171, 133, 204, 184, 226, 138,
    133, 226, 171, 134, 204, 184, 195, 177, 206, 189, 35, 226, 132, 150, 226, 128,
    135, 226, 138, 173, 226, 164, 132, 226, 137, 141, 226, 131, 146, 226, 138, 172,
    226, 137, 165, 226, 131, 146, 62, 226, 131, 146, 226, 167, 158, 226, 164, 130,
    226, 137, 164, 226, 131, 146, 60, 226, 131, 146, 226, 138, 180, 226, 131, 146,
    226, 164, 131, 226, 138, 181, 226, 131, 146, 226, 136, 188, 226, 131, 146, 226,
    135, 150, 226, 164, 163, 226, 164, 167, 195, 179, 195, 180, 208, 190, 197, 145,
    226, 168, 184, 226, 166, 188, 197, 147, 226, 166, 191, 240, 157, 148, 172, 203,
    155, 195, 178, 226, 167, 129, 226, 166, 181, 226, 166, 190, 226, 166, 187, 226,
    167, 128, 197, 141, 207, 137, 206, 191, 226, 166, 182, 240, 157, 149, 160, 226,
    166, 183, 226, 166, 185, 226, 136, 168, 226, 169, 157, 226, 132, 180, 194, 170,
    194, 186, 226, 138, 182, 226, 169, 150, 226, 169, 151, 226, 169, 155, 195, 184,
    226, 138, 152, 195, 181, 226, 168, 182, 195, 182, 226, 140, 189, 194, 182, 226,
    171, 179, 226, 171, 189, 208, 191, 37, 46, 226, 128, 176, 226, 128, 177, 240,
    157, 148, 173, 207, 134, 207, 149, 226, 152, 142, 207, 128, 207, 150, 226, 132,
    142, 43, 226, 168, 163, 226, 168, 162, 226, 168, 165, 226, 169, 178, 226, 168,
    166, 226, 168, 167, 226, 168, 149, 240, 157, 149, 161, 194, 163, 226, 170, 179,
    226, 170, 183, 226, 170, 185, 226, 170, 181, 226, 139, 168, 226, 128, 178, 226,
    140, 174, 226, 140, 146, 226, 140, 147, 226, 138, 176, 240, 157, 147, 133, 207,
    136, 226, 128, 136, 240, 157, 148, 174, 240, 157, 149, 162, 226, 129, 151, 240,
    157, 147, 134, 226, 168, 150, 63, 226, 164, 156, 226, 165, 164, 226, 136, 189,
    204, 177, 197, 149, 226, 166, 179, 226, 166, 146, 226, 166, 165, 194, 187, 226,
    165, 181, 226, 164, 160, 226, 164, 179, 226, 164, 158, 226, 165, 133, 226, 165,
    180, 226, 134, 163, 226, 134, 157, 226, 164, 154, 226, 136, 182, 226, 157, 179,
    125, 93, 226, 166, 140, 226, 166, 142, 226, 166, 144, 197, 153, 197, 151, 209,
    128, 226, 164, 183, 226, 165, 169, 226, 134, 179, 226, 150, 173, 226, 165, 189,
    240, 157, 148, 175, 226, 165, 172, 207, 129, 207, 177, 226, 135, 137, 226, 139,
    140, 203, 154, 226, 128, 143, 226, 142, 177, 226, 171, 174, 226, 159, 173, 226,
    135, 190, 226, 166, 134, 240, 157, 149, 163, 226, 168, 174, 226, 168, 181, 41,
    226, 166, 148, 226, 168, 146, 226, 128, 186, 240, 157, 147, 135, 226, 139, 138,
    226, 150, 185, 226, 167, 142, 226, 165, 168, 226, 132, 158, 197, 155, 226, 170,
    180, 226, 170, 184, 197, 161, 197, 159, 197, 157, 226, 170, 182, 226, 170, 186,
    226, 139, 169, 226, 168, 147, 209, 129, 226, 139, 133, 226, 169, 166, 226, 135,
    152, 194, 167, 59, 226, 164, 169, 226, 156, 182, 240, 157, 148, 176, 226, 153,
    175, 209, 137, 209, 136, 194, 173, 207, 131, 207, 130, 226, 169, 170, 226, 170,
    158, 226, 170, 160, 226, 170, 157, 226, 170, 159, 226, 137, 134, 226, 168, 164,
    226, 165, 178, 226, 168, 179, 226, 167, 164, 226, 140, 163, 226, 170, 170, 226,
    170, 172, 226, 170, 172, 239, 184, 128, 209, 140, 47, 226, 167, 132, 226, 140,
    191, 240, 157, 149, 164, 226, 153, 160, 226, 138, 147, 239, 184, 128, 226, 138,
    148, 239, 184, 128, 240, 157, 147, 136, 226, 152, 134, 226, 138, 130, 226, 171,
    133, 226, 170, 189, 226, 171, 131, 226, 171, 129, 226, 171, 139, 226, 138, 138,
    226, 170, 191, 226, 165, 185, 226, 171, 135, 226, 171, 149, 226, 171, 147, 226,
    153, 170, 194, 185, 194, 178, 194, 179, 226, 171, 134, 226, 170, 190, 226, 171,
    152, 226, 171, 132, 226, 159, 137, 226, 171, 151, 226, 165, 187, 226, 171, 130,
    226, 171, 140, 226, 138, 139, 226, 171, 128, 226, 171, 136, 226, 171, 148, 226,
    171, 150, 226, 135, 153, 226, 164, 170, 195, 159, 226, 140, 150, 207, 132, 197,
    165, 197, 163, 209, 130, 226, 140, 149, 240, 157, 148, 177, 206, 184, 207, 145,
    195, 190, 195, 151, 226, 168, 177, 226, 168, 176, 226, 140, 182, 226, 171, 177,
    240, 157, 149, 165, 226, 171, 154, 226, 128, 180, 226, 150, 181, 226, 137, 156,
    226, 151, 172, 226, 168, 186, 226, 168, 185, 226, 167, 141, 226, 168, 187, 226,
    143, 162, 240, 157, 147, 137, 209, 134, 209, 155, 197, 167, 226, 165, 163, 195,
    186, 209, 158, 197, 173, 195, 187, 209, 131, 197, 177, 226, 165, 190, 240, 157,
    148, 178, 195, 185, 226, 150, 128, 226, 140, 156, 226, 140, 143, 226, 151, 184,
    197, 171, 197, 179, 240, 157, 149, 166, 207, 133, 226, 135, 136, 226, 140, 157,
    226, 140, 142, 197, 175, 226, 151, 185, 240, 157, 147, 138, 226, 139, 176, 197,
    169, 195, 188, 226, 166, 167, 226, 171, 168, 226, 171, 169, 226, 166, 156, 226,
    138, 138, 239, 184, 128, 226, 171, 139, 239, 184, 128, 226, 138, 139, 239, 184,
    128, 226, 171, 140, 239, 184, 128, 208, 178, 226, 138, 187, 226, 137, 154, 226,
    139, 174, 240, 157, 148, 179, 240, 157, 149, 167, 240, 157, 147, 139, 226, 166,
    154, 197, 181, 226, 169, 159, 226, 137, 153, 226, 132, 152, 240, 157, 148, 180,
    240, 157, 149, 168, 240, 157, 147, 140, 240, 157, 148, 181, 206, 190, 226, 139,
    187, 240, 157, 149, 169, 240, 157, 147, 141, 195, 189, 209, 143, 197, 183, 209,
    139, 194, 165, 240, 157, 148, 182, 209, 151, 240, 157, 149, 170, 240, 157, 147,
    142, 209, 142, 195, 191, 197, 186, 197, 190, 208, 183, 197, 188, 206, 182, 240,
    157, 148, 183, 208, 182, 226, 135, 157, 240, 157, 149, 171, 240, 157, 147, 143,
    226, 128, 141, 226, 128, 140,
];

/// Entry `i` of this part; 0 where the part has no such entry.
#[verifier::opaque]
pub open spec fn cell(i: int) -> u8 {
    if 0 <= i < 1814 {
        CELLS[i]
    } else {
        0
    }
}

/// Reads entry `i` of this part.
pub fn read_cell(i: usize) -> (entry: u8)
    ensures
        entry == cell(i as int),
{
    reveal(cell);
    if i < 1814 {
        CELLS[i]
    } else {
        0
    }
}

} // verus!
