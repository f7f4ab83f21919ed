//! Cells 58880 to 60543 of the trie table.
use vstd::prelude::*;

verus! {

/// The entries of this part, in order.
pub const CELLS: [u16; 1664] = [
    0, 0, 0, 0, 0, 0, 0, 0, 0, 0, 58906, 65535, 97, 1, 58895, 65535,
    114, 1, 58899, 65535, 59, 1, 58903, 523, 0, 0, 65535, 59, 1, 58910, 523, 0,
    0, 65535, 114, 1, 58917, 65535, 59, 1, 58921, 1472, 0, 0, 65535, 116, 1, 58928,
    65535, 114, 1, 58932, 65535, 105, 1, 58936, 65535, 59, 1, 58940, 238, 0, 0, 65535,
    115, 1, 58947, 65535, 117, 1, 58951, 65535, 98, 15, 58969, 0, 0, 0, 0, 0,
    0, 0, 0, 0, 0, 0, 0, 0, 58976, 65535, 59, 1, 58973, 324, 0, 0,
    65535, 59, 1, 58980, 330, 0, 0, 65535, 112, 1, 58987, 65535, 102, 1, 58991, 65535,
    59, 1, 58995, 1473, 0, 0, 65535, 114, 1, 59002, 65535, 111, 1, 59006, 65535, 112,
    1, 59010, 65535, 59, 1, 59014, 377, 0, 0, 65535, 116, 1, 59021, 65535, 114, 1,
    59025, 65535, 105, 1, 59029, 65535, 59, 1, 59033, 411, 0, 0, 65535, 99, 19, 59058,
    0, 0, 0, 0, 0, 0, 0, 0, 0, 0, 0, 0, 0, 0, 0, 0,
    0, 59069, 65535, 114, 1, 59062, 65535, 59, 1, 59066, 1474, 0, 0, 65535, 98, 15,
    59087, 0, 0, 0, 0, 0, 0, 0, 0, 0, 0, 0, 0, 0, 59141, 65535,
    110, 1, 59091, 65535, 69, 33, 59127, 0, 0, 0, 0, 0, 0, 0, 0, 0,
    0, 0, 0, 0, 0, 0, 0, 0, 0, 0, 0, 0, 0, 0, 0, 0,
    0, 0, 0, 0, 0, 0, 59134, 65535, 59, 1, 59131, 1465, 0, 0, 65535, 59,
    1, 59138, 1464, 0, 0, 65535, 110, 1, 59145, 65535, 69, 33, 59181, 0, 0, 0,
    0, 0, 0, 0, 0, 0, 0, 0, 0, 0, 0, 0, 0, 0, 0, 0,
    0, 0, 0, 0, 0, 0, 0, 0, 0, 0, 0, 0, 59188, 65535, 59, 1,
    59185, 1467, 0, 0, 65535, 59, 1, 59192, 1466, 0, 0, 65535, 105, 1, 59199, 65535,
    103, 1, 59203, 65535, 122, 1, 59207, 65535, 97, 1, 59211, 65535, 103, 1, 59215, 65535,
    59, 1, 59219, 1475, 0, 0, 65535, 99, 17, 59242, 0, 59261, 59385, 0, 0, 0,
    0, 0, 0, 0, 0, 59396, 59411, 0, 59418, 59486, 65535, 105, 1, 59246, 65535, 114,
    1, 59250, 65535, 99, 1, 59254, 65535, 59, 1, 59258, 1476, 0, 0, 65535, 100, 6,
    59270, 0, 0, 0, 0, 59366, 65535, 98, 6, 59279, 0, 0, 0, 0, 59294, 65535,
    97, 1, 59283, 65535, 114, 1, 59287, 65535, 59, 1, 59291, 1477, 0, 0, 65535, 101,
    1, 59298, 65535, 59, 55, 59356, 0, 0, 0, 0, 0, 0, 0, 0, 0, 0,
    0, 0, 0, 0, 0, 0, 0, 0, 0, 0, 0, 0, 0, 0, 0, 0,
    0, 0, 0, 0, 0, 0, 0, 0, 0, 0, 0, 0, 0, 0, 0, 0,
    0, 0, 0, 0, 0, 0, 0, 0, 0, 0, 0, 59359, 573, 0, 0, 65535,
    59, 1, 59363, 1478, 0, 0, 65535, 101, 1, 59370, 65535, 114, 1, 59374, 65535, 112,
    1, 59378, 65535, 59, 1, 59382, 1479, 0, 0, 65535, 114, 1, 59389, 65535, 59, 1,
    59393, 1480, 0, 0, 65535, 112, 1, 59400, 65535, 102, 1, 59404, 65535, 59, 1, 59408,
    1481, 0, 0, 65535, 59, 1, 59415, 1479, 0, 0, 65535, 59, 43, 59464, 0, 0,
    0, 0, 0, 0, 0, 0, 0, 0, 0, 0, 0, 0, 0, 0, 0, 0,
    0, 0, 0, 0, 0, 0, 0, 0, 0, 0, 0, 0, 0, 0, 0, 0,
    0, 0, 0, 0, 0, 0, 0, 59467, 525, 0, 0, 65535, 97, 1, 59471, 65535,
    116, 1, 59475, 65535, 104, 1, 59479, 65535, 59, 1, 59483, 525, 0, 0, 65535, 99,
    1, 59490, 65535, 114, 1, 59494, 65535, 59, 1, 59498, 1482, 0, 0, 65535, 99, 21,
    59525, 59586, 0, 59605, 0, 59616, 59682, 0, 0, 59689, 59755, 59770, 59785, 0, 0, 59871,
    59937, 0, 59985, 60027, 60042, 65535, 97, 21, 59549, 0, 0, 0, 0, 0, 0, 0,
    59560, 0, 0, 0, 0, 0, 0, 0, 0, 0, 0, 0, 59575, 65535, 112, 1,
    59553, 65535, 59, 1, 59557, 188, 0, 0, 65535, 114, 1, 59564, 65535, 99, 1, 59568,
    65535, 59, 1, 59572, 623, 0, 0, 65535, 112, 1, 59579, 65535, 59, 1, 59583, 497,
    0, 0, 65535, 116, 1, 59590, 65535, 114, 1, 59594, 65535, 105, 1, 59598, 65535, 59,
    1, 59602, 629, 0, 0, 65535, 114, 1, 59609, 65535, 59, 1, 59613, 1483, 0, 0,
    65535, 65, 33, 59652, 0, 0, 0, 0, 0, 0, 0, 0, 0, 0, 0, 0,
    0, 0, 0, 0, 0, 0, 0, 0, 0, 0, 0, 0, 0, 0, 0, 0,
    0, 0, 0, 59667, 65535, 114, 1, 59656, 65535, 114, 1, 59660, 65535, 59, 1, 59664,
    90, 0, 0, 65535, 114, 1, 59671, 65535, 114, 1, 59675, 65535, 59, 1, 59679, 258,
    0, 0, 65535, 59, 1, 59686, 1484, 0, 0, 65535, 65, 33, 59725, 0, 0, 0,
    0, 0, 0, 0, 0, 0, 0, 0, 0, 0, 0, 0, 0, 0, 0, 0,
    0, 0, 0, 0, 0, 0, 0, 0, 0, 0, 0, 0, 59740, 65535, 114, 1,
    59729, 65535, 114, 1, 59733, 65535, 59, 1, 59737, 89, 0, 0, 65535, 114, 1, 59744,
    65535, 114, 1, 59748, 65535, 59, 1, 59752, 257, 0, 0, 65535, 97, 1, 59759, 65535,
    112, 1, 59763, 65535, 59, 1, 59767, 1056, 0, 0, 65535, 105, 1, 59774, 65535, 115,
    1, 59778, 65535, 59, 1, 59782, 1485, 0, 0, 65535, 100, 17, 59805, 0, 0, 0,
    0, 0, 0, 0, 0, 0, 0, 0, 59820, 0, 0, 0, 59852, 65535, 111, 1,
    59809, 65535, 116, 1, 59813, 65535, 59, 1, 59817, 624, 0, 0, 65535, 102, 7, 59830,
    0, 0, 0, 0, 0, 59837, 65535, 59, 1, 59834, 1486, 0, 0, 65535, 117, 1,
    59841, 65535, 115, 1, 59845, 65535, 59, 1, 59849, 625, 0, 0, 65535, 105, 1, 59856,
    65535, 109, 1, 59860, 65535, 101, 1, 59864, 65535, 59, 1, 59868, 626, 0, 0, 65535,
    65, 33, 59907, 0, 0, 0, 0, 0, 0, 0, 0, 0, 0, 0, 0, 0,
    0, 0, 0, 0, 0, 0, 0, 0, 0, 0, 0, 0, 0, 0, 0, 0,
    0, 0, 59922, 65535, 114, 1, 59911, 65535, 114, 1, 59915, 65535, 59, 1, 59919, 91,
    0, 0, 65535, 114, 1, 59926, 65535, 114, 1, 59930, 65535, 59, 1, 59934, 259, 0,
    0, 65535, 99, 15, 59955, 0, 0, 0, 0, 0, 0, 0, 0, 0, 0, 0,
    0, 0, 59966, 65535, 114, 1, 59959, 65535, 59, 1, 59963, 1487, 0, 0, 65535, 99,
    1, 59970, 65535, 117, 1, 59974, 65535, 112, 1, 59978, 65535, 59, 1, 59982, 627, 0,
    0, 65535, 112, 5, 59993, 0, 0, 0, 60012, 65535, 108, 1, 59997, 65535, 117, 1,
    60001, 65535, 115, 1, 60005, 65535, 59, 1, 60009, 631, 0, 0, 65535, 114, 1, 60016,
    65535, 105, 1, 60020, 65535, 59, 1, 60024, 630, 0, 0, 65535, 101, 1, 60031, 65535,
    101, 1, 60035, 65535, 59, 1, 60039, 520, 0, 0, 65535, 101, 1, 60046, 65535, 100,
    1, 60050, 65535, 103, 1, 60054, 65535, 101, 1, 60058, 65535, 59, 1, 60062, 532, 0,
    0, 65535, 97, 21, 60089, 0, 60123, 0, 60165, 60176, 0, 0, 60187, 0, 0, 0,
    0, 0, 60202, 0, 0, 0, 60217, 0, 60232, 65535, 99, 1, 60093, 65535, 117, 5,
    60101, 0, 0, 0, 60116, 65535, 116, 1, 60105, 65535, 101, 1, 60109, 1488, 59, 1,
    60113, 1488, 0, 0, 65535, 59, 1, 60120, 1489, 0, 0, 65535, 105, 17, 60143, 0,
    0, 0, 0, 0, 0, 0, 0, 0, 0, 0, 0, 0, 0, 0, 60158, 65535,
    114, 1, 60147, 65535, 99, 1, 60151, 65535, 59, 1, 60155, 1490, 0, 0, 65535, 59,
    1, 60162, 1491, 0, 0, 65535, 110, 1, 60169, 1492, 59, 1, 60173, 1492, 0, 0,
    65535, 114, 1, 60180, 65535, 59, 1, 60184, 1493, 0, 0, 65535, 99, 1, 60191, 65535,
    121, 1, 60195, 65535, 59, 1, 60199, 1494, 0, 0, 65535, 112, 1, 60206, 65535, 102,
    1, 60210, 65535, 59, 1, 60214, 1495, 0, 0, 65535, 99, 1, 60221, 65535, 114, 1,
    60225, 65535, 59, 1, 60229, 1496, 0, 0, 65535, 99, 11, 60246, 0, 0, 0, 0,
    0, 0, 0, 0, 0, 60257, 65535, 121, 1, 60250, 65535, 59, 1, 60254, 1497, 0,
    0, 65535, 108, 1, 60261, 1498, 59, 1, 60265, 1498, 0, 0, 65535, 97, 23, 60294,
    0, 60317, 60371, 60386, 60435, 0, 60446, 60461, 0, 0, 0, 0, 0, 60488, 0, 0,
    0, 60503, 0, 0, 0, 60518, 65535, 99, 1, 60298, 65535, 117, 1, 60302, 65535, 116,
    1, 60306, 65535, 101, 1, 60310, 65535, 59, 1, 60314, 1499, 0, 0, 65535, 97, 25,
    60345, 0, 0, 0, 0, 0, 0, 0, 0, 0, 0, 0, 0, 0, 0, 0,
    0, 0, 0, 0, 0, 0, 0, 0, 60364, 65535, 114, 1, 60349, 65535, 111, 1,
    60353, 65535, 110, 1, 60357, 65535, 59, 1, 60361, 1500, 0, 0, 65535, 59, 1, 60368,
    1501, 0, 0, 65535, 111, 1, 60375, 65535, 116, 1, 60379, 65535, 59, 1, 60383, 1502,
    0, 0, 65535, 101, 16, 60405, 0, 0, 0, 0, 0, 0, 0, 0, 0, 0,
    0, 0, 0, 0, 60424, 65535, 116, 1, 60409, 65535, 114, 1, 60413, 65535, 102, 1,
    60417, 65535, 59, 1, 60421, 556, 0, 0, 65535, 97, 1, 60428, 65535, 59, 1, 60432,
    1503, 0, 0, 65535, 114, 1, 60439, 65535, 59, 1, 60443, 1504, 0, 0, 65535, 99,
    1, 60450, 65535, 121, 1, 60454, 65535, 59, 1, 60458, 1505, 0, 0, 65535, 103, 1,
    60465, 65535, 114, 1, 60469, 65535, 97, 1, 60473, 65535, 114, 1, 60477, 65535, 114, 1,
    60481, 65535, 59, 1, 60485, 1506, 0, 0, 65535, 112, 1, 60492, 65535, 102, 1, 60496,
    65535, 59, 1, 60500, 1507, 0, 0, 65535, 99, 1, 60507, 65535, 114, 1, 60511, 65535,
    59, 1, 60515, 1508, 0, 0, 65535, 106, 5, 60526, 0, 0, 0, 60533, 65535, 59,
    1, 60530, 1509, 0, 0, 65535, 106, 1, 60537, 65535, 59, 1, 60541, 1510, 0, 0,
];

/// Entry `i` of this part; 0 where the part has no such entry.
#[verifier::opaque]
pub open spec fn cell(i: int) -> u16 {
    if 0 <= i < 1664 {
        CELLS[i]
    } else {
        0
    }
}

/// Reads entry `i` of this part.
pub fn read_cell(i: usize) -> (entry: u16)
    ensures
        entry == cell(i as int),
{
    reveal(cell);
    if i < 1664 {
        CELLS[i]
    } else {
        0
    }
}

} // verus!
