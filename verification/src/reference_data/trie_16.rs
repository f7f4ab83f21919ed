//! Cells 40960 to 43519 of the trie table.
use vstd::prelude::*;

verus! {

/// The entries of this part, in order.
pub const CELLS: [u16; 2560] = [
    117, 1, 40963, 65535, 105, 1, 40967, 65535, 118, 1, 40971, 65535, 59, 1, 40975, 286,
    0, 0, 65535, 101, 5, 40986, 0, 0, 0, 41001, 65535, 97, 1, 40990, 65535, 114,
    1, 40994, 65535, 59, 1, 40998, 1130, 0, 0, 65535, 109, 1, 41005, 65535, 59, 1,
    41009, 291, 0, 0, 65535, 105, 1, 41016, 65535, 115, 1, 41020, 65535, 116, 1, 41024,
    65535, 59, 57, 41084, 0, 0, 0, 0, 0, 0, 0, 0, 0, 0, 0, 0,
    0, 0, 0, 0, 0, 0, 0, 0, 0, 0, 0, 0, 0, 0, 0, 0,
    0, 0, 0, 0, 0, 0, 0, 0, 0, 0, 0, 0, 0, 0, 0, 0,
    0, 0, 0, 0, 0, 0, 0, 0, 0, 0, 0, 41087, 292, 0, 0, 65535,
    59, 1, 41091, 292, 0, 0, 65535, 114, 1, 41098, 65535, 59, 1, 41102, 1131, 0,
    0, 65535, 69, 48, 41156, 0, 0, 0, 0, 0, 0, 0, 0, 0, 0, 0,
    0, 0, 0, 0, 0, 0, 0, 0, 0, 0, 0, 0, 0, 0, 0, 0,
    0, 0, 0, 0, 41163, 0, 0, 0, 0, 0, 0, 0, 0, 0, 0, 0,
    0, 0, 41326, 41341, 65535, 59, 1, 41160, 295, 0, 0, 65535, 59, 57, 41223, 0,
    0, 0, 0, 0, 0, 0, 0, 0, 0, 0, 0, 0, 0, 0, 0, 0,
    0, 0, 0, 0, 0, 0, 0, 0, 0, 0, 0, 0, 0, 0, 0, 0,
    0, 0, 0, 0, 0, 0, 0, 0, 0, 0, 0, 0, 0, 0, 0, 0,
    0, 0, 0, 0, 41226, 0, 41319, 294, 0, 0, 65535, 59, 57, 41286, 0, 0,
    0, 0, 0, 0, 0, 0, 0, 0, 0, 0, 0, 0, 0, 0, 0, 0,
    0, 0, 0, 0, 0, 0, 0, 0, 0, 0, 0, 0, 0, 0, 0, 0,
    0, 0, 0, 0, 0, 0, 0, 0, 0, 0, 0, 0, 0, 0, 0, 0,
    0, 0, 0, 41289, 0, 41296, 294, 0, 0, 65535, 59, 1, 41293, 295, 0, 0,
    65535, 108, 1, 41300, 65535, 97, 1, 41304, 65535, 110, 1, 41308, 65535, 116, 1, 41312,
    65535, 59, 1, 41316, 298, 0, 0, 65535, 59, 1, 41323, 298, 0, 0, 65535, 105,
    1, 41330, 65535, 109, 1, 41334, 65535, 59, 1, 41338, 299, 0, 0, 65535, 59, 56,
    41400, 0, 0, 0, 0, 0, 0, 0, 0, 0, 0, 0, 0, 0, 0, 0,
    0, 0, 0, 0, 0, 0, 0, 0, 0, 0, 0, 0, 0, 0, 0, 0,
    0, 0, 0, 0, 0, 0, 0, 0, 0, 0, 0, 0, 0, 0, 0, 0,
    0, 0, 0, 0, 0, 0, 0, 41403, 293, 0, 0, 65535, 59, 1, 41407, 293,
    0, 0, 65535, 65, 48, 41461, 0, 0, 0, 0, 0, 0, 0, 0, 0, 0,
    0, 0, 0, 0, 0, 0, 0, 0, 0, 0, 0, 0, 0, 0, 0, 0,
    0, 0, 0, 0, 0, 41476, 0, 0, 0, 0, 0, 0, 0, 0, 0, 0,
    0, 0, 0, 0, 41491, 65535, 114, 1, 41465, 65535, 114, 1, 41469, 65535, 59, 1,
    41473, 1108, 0, 0, 65535, 114, 1, 41480, 65535, 114, 1, 41484, 65535, 59, 1, 41488,
    1132, 0, 0, 65535, 97, 1, 41495, 65535, 114, 1, 41499, 65535, 59, 1, 41503, 1133,
    0, 0, 65535, 59, 60, 41569, 0, 0, 0, 0, 0, 0, 0, 0, 0, 0,
    0, 0, 0, 0, 0, 0, 0, 0, 0, 0, 0, 0, 0, 0, 0, 0,
    0, 0, 0, 0, 0, 0, 0, 0, 0, 0, 0, 0, 0, 0, 0, 0,
    0, 0, 0, 0, 0, 0, 0, 0, 0, 0, 0, 0, 0, 41572, 0, 0,
    41627, 394, 0, 0, 65535, 59, 42, 41617, 0, 0, 0, 0, 0, 0, 0, 0,
    0, 0, 0, 0, 0, 0, 0, 0, 0, 0, 0, 0, 0, 0, 0, 0,
    0, 0, 0, 0, 0, 0, 0, 0, 0, 0, 0, 0, 0, 0, 0, 0,
    41620, 1134, 0, 0, 65535, 59, 1, 41624, 1135, 0, 0, 65535, 59, 1, 41631, 394,
    0, 0, 65535, 99, 1, 41638, 65535, 121, 1, 41642, 65535, 59, 1, 41646, 1136, 0,
    0, 65535, 65, 52, 41704, 0, 0, 0, 41719, 0, 0, 0, 0, 0, 0, 0,
    0, 0, 0, 0, 0, 0, 0, 0, 0, 0, 0, 0, 0, 0, 0, 0,
    0, 0, 0, 0, 41726, 0, 0, 41741, 41752, 0, 0, 0, 0, 0, 0, 0,
    0, 0, 0, 0, 0, 0, 42069, 42084, 65535, 114, 1, 41708, 65535, 114, 1, 41712,
    65535, 59, 1, 41716, 1107, 0, 0, 65535, 59, 1, 41723, 1137, 0, 0, 65535, 114,
    1, 41730, 65535, 114, 1, 41734, 65535, 59, 1, 41738, 1138, 0, 0, 65535, 114, 1,
    41745, 65535, 59, 1, 41749, 1139, 0, 0, 65535, 59, 57, 41812, 0, 0, 0, 0,
    0, 0, 0, 0, 0, 0, 0, 0, 0, 0, 0, 0, 0, 0, 0, 0,
    0, 0, 0, 0, 0, 0, 0, 0, 0, 0, 0, 0, 0, 0, 0, 0,
    0, 0, 0, 0, 0, 0, 41815, 0, 0, 0, 0, 0, 0, 0, 0, 0,
    0, 41906, 0, 41999, 306, 0, 0, 65535, 116, 1, 41819, 65535, 97, 18, 41840, 0,
    0, 0, 0, 0, 0, 0, 0, 0, 0, 0, 0, 0, 0, 0, 0, 41863,
    65535, 114, 1, 41844, 65535, 114, 1, 41848, 65535, 111, 1, 41852, 65535, 119, 1, 41856,
    65535, 59, 1, 41860, 1138, 0, 0, 65535, 105, 1, 41867, 65535, 103, 1, 41871, 65535,
    104, 1, 41875, 65535, 116, 1, 41879, 65535, 97, 1, 41883, 65535, 114, 1, 41887, 65535,
    114, 1, 41891, 65535, 111, 1, 41895, 65535, 119, 1, 41899, 65535, 59, 1, 41903, 1132,
    0, 0, 65535, 59, 57, 41966, 0, 0, 0, 0, 0, 0, 0, 0, 0, 0,
    0, 0, 0, 0, 0, 0, 0, 0, 0, 0, 0, 0, 0, 0, 0, 0,
    0, 0, 0, 0, 0, 0, 0, 0, 0, 0, 0, 0, 0, 0, 0, 0,
    0, 0, 0, 0, 0, 0, 0, 0, 0, 0, 0, 41969, 0, 41976, 306, 0,
    0, 65535, 59, 1, 41973, 1137, 0, 0, 65535, 108, 1, 41980, 65535, 97, 1, 41984,
    65535, 110, 1, 41988, 65535, 116, 1, 41992, 65535, 59, 1, 41996, 309, 0, 0, 65535,
    59, 57, 42059, 0, 0, 0, 0, 0, 0, 0, 0, 0, 0, 0, 0, 0,
    0, 0, 0, 0, 0, 0, 0, 0, 0, 0, 0, 0, 0, 0, 0, 0,
    0, 0, 0, 0, 0, 0, 0, 0, 0, 0, 0, 0, 0, 0, 0, 0,
    0, 0, 0, 0, 0, 0, 0, 0, 0, 0, 42062, 309, 0, 0, 65535, 59,
    1, 42066, 305, 0, 0, 65535, 105, 1, 42073, 65535, 109, 1, 42077, 65535, 59, 1,
    42081, 310, 0, 0, 65535, 59, 56, 42143, 0, 0, 0, 0, 0, 0, 0, 0,
    0, 0, 0, 0, 0, 0, 0, 0, 0, 0, 0, 0, 0, 0, 0, 0,
    0, 0, 0, 0, 0, 0, 0, 0, 0, 0, 0, 0, 0, 0, 0, 0,
    0, 0, 0, 0, 0, 0, 0, 0, 0, 0, 0, 0, 0, 0, 42146, 305,
    0, 0, 65535, 105, 1, 42150, 65535, 59, 43, 42196, 0, 0, 0, 0, 0, 0,
    0, 0, 0, 0, 0, 0, 0, 0, 0, 0, 0, 0, 0, 0, 0, 0,
    0, 0, 0, 0, 0, 0, 0, 0, 0, 0, 0, 0, 0, 0, 0, 0,
    0, 0, 0, 42199, 302, 0, 0, 65535, 59, 1, 42203, 304, 0, 0, 65535, 105,
    1, 42210, 65535, 100, 1, 42214, 65535, 59, 1, 42218, 336, 0, 0, 65535, 112, 5,
    42229, 0, 0, 0, 42240, 65535, 102, 1, 42233, 65535, 59, 1, 42237, 1140, 0, 0,
    1141, 59, 52, 42295, 0, 0, 0, 0, 0, 0, 0, 0, 0, 0, 0, 0,
    0, 0, 0, 0, 0, 0, 0, 0, 0, 0, 0, 0, 0, 0, 0, 0,
    0, 0, 0, 0, 0, 0, 0, 0, 0, 0, 0, 0, 0, 0, 0, 0,
    0, 42298, 0, 0, 0, 0, 42417, 1141, 0, 0, 65535, 110, 1, 42302, 65535, 59,
    60, 42365, 0, 0, 0, 0, 0, 0, 0, 0, 0, 42368, 0, 0, 0, 0,
    0, 0, 0, 0, 0, 0, 0, 0, 0, 0, 0, 0, 0, 0, 0, 0,
    0, 0, 0, 0, 0, 0, 0, 0, 0, 0, 42375, 0, 0, 0, 0, 0,
    0, 0, 0, 0, 0, 0, 0, 0, 0, 0, 0, 0, 42390, 289, 0, 0,
    65535, 59, 1, 42372, 1142, 0, 0, 65535, 111, 1, 42379, 65535, 116, 1, 42383, 65535,
    59, 1, 42387, 1143, 0, 0, 65535, 97, 3, 42396, 42403, 42410, 65535, 59, 1, 42400,
    289, 0, 0, 65535, 59, 1, 42407, 1144, 0, 0, 65535, 59, 1, 42414, 1145, 0,
    0, 65535, 105, 1, 42421, 65535, 59, 60, 42484, 0, 0, 0, 0, 0, 0, 0,
    0, 0, 0, 0, 0, 0, 0, 0, 0, 0, 0, 0, 0, 0, 0, 0,
    0, 0, 0, 0, 0, 0, 0, 0, 0, 0, 0, 0, 0, 0, 0, 0,
    0, 0, 0, 0, 0, 0, 0, 0, 0, 0, 0, 0, 0, 0, 0, 0,
    0, 0, 0, 42487, 316, 0, 0, 65535, 97, 3, 42493, 42500, 42507, 65535, 59, 1,
    42497, 316, 0, 0, 65535, 59, 1, 42504, 1146, 0, 0, 65535, 59, 1, 42511, 1147,
    0, 0, 65535, 97, 18, 42535, 0, 0, 0, 0, 0, 0, 0, 0, 0, 0,
    0, 0, 0, 42644, 0, 0, 42667, 65535, 114, 1, 42539, 65535, 59, 58, 42600, 0,
    0, 0, 0, 0, 0, 0, 0, 0, 0, 0, 0, 0, 0, 0, 0, 0,
    0, 0, 0, 0, 0, 0, 0, 0, 0, 0, 0, 0, 0, 0, 0, 0,
    0, 0, 0, 0, 42603, 0, 0, 0, 0, 0, 0, 0, 0, 0, 0, 0,
    0, 0, 0, 0, 0, 0, 42626, 42637, 288, 0, 0, 65535, 108, 1, 42607, 65535,
    108, 1, 42611, 65535, 101, 1, 42615, 65535, 108, 1, 42619, 65535, 59, 1, 42623, 288,
    0, 0, 65535, 108, 1, 42630, 65535, 59, 1, 42634, 1148, 0, 0, 65535, 59, 1,
    42641, 1149, 0, 0, 65535, 108, 1, 42648, 65535, 105, 1, 42652, 65535, 110, 1, 42656,
    65535, 116, 1, 42660, 65535, 59, 1, 42664, 1150, 0, 0, 65535, 59, 43, 42713, 0,
    0, 0, 0, 0, 0, 0, 0, 0, 0, 0, 0, 0, 0, 0, 0, 0,
    0, 0, 0, 0, 0, 0, 0, 0, 0, 0, 0, 0, 0, 0, 0, 0,
    0, 0, 0, 0, 0, 0, 42716, 0, 42731, 313, 0, 0, 65535, 117, 1, 42720,
    65535, 101, 1, 42724, 65535, 59, 1, 42728, 315, 0, 0, 65535, 59, 41, 42775, 0,
    0, 0, 0, 0, 0, 0, 0, 0, 0, 0, 0, 0, 0, 0, 0, 0,
    0, 0, 0, 0, 0, 0, 0, 0, 0, 0, 0, 0, 0, 0, 0, 0,
    0, 0, 0, 0, 0, 0, 42778, 314, 0, 0, 65535, 59, 43, 42824, 0, 0,
    0, 0, 0, 0, 0, 0, 0, 0, 0, 0, 0, 0, 0, 0, 0, 0,
    0, 0, 0, 0, 0, 0, 0, 0, 0, 0, 0, 0, 0, 0, 0, 0,
    0, 0, 0, 0, 0, 0, 0, 42827, 313, 0, 0, 65535, 113, 1, 42831, 65535,
    59, 1, 42835, 314, 0, 0, 65535, 65, 52, 42893, 0, 0, 0, 0, 0, 0,
    0, 0, 0, 0, 0, 0, 0, 0, 0, 0, 0, 0, 0, 0, 0, 0,
    0, 0, 0, 0, 0, 0, 0, 0, 0, 42908, 0, 0, 0, 0, 0, 0,
    0, 42997, 0, 0, 0, 0, 0, 0, 0, 0, 0, 0, 43036, 65535, 114, 1,
    42897, 65535, 114, 1, 42901, 65535, 59, 1, 42905, 1111, 0, 0, 65535, 114, 1, 42912,
    65535, 114, 1, 42916, 65535, 59, 61, 42980, 0, 0, 0, 0, 0, 0, 0, 0,
    0, 0, 0, 0, 0, 0, 0, 0, 0, 0, 0, 0, 0, 0, 0, 0,
    0, 0, 0, 0, 0, 0, 0, 0, 0, 0, 0, 0, 0, 0, 0, 42983,
    0, 0, 0, 0, 0, 0, 0, 0, 0, 0, 0, 0, 0, 0, 0, 0,
    0, 0, 0, 42990, 1151, 0, 0, 65535, 59, 1, 42987, 1152, 0, 0, 65535, 59,
    1, 42994, 1153, 0, 0, 65535, 103, 1, 43001, 65535, 104, 1, 43005, 65535, 116, 1,
    43009, 65535, 97, 1, 43013, 65535, 114, 1, 43017, 65535, 114, 1, 43021, 65535, 111, 1,
    43025, 65535, 119, 1, 43029, 65535, 59, 1, 43033, 1151, 0, 0, 65535, 114, 1, 43040,
    65535, 105, 1, 43044, 65535, 59, 43, 43090, 0, 0, 0, 0, 0, 0, 0, 0,
    0, 0, 0, 0, 0, 0, 0, 0, 0, 0, 0, 0, 0, 0, 0, 0,
    0, 0, 0, 0, 0, 0, 0, 0, 0, 0, 0, 0, 0, 0, 0, 0,
    0, 43093, 317, 0, 0, 65535, 59, 1, 43097, 319, 0, 0, 65535, 99, 19, 43122,
    0, 0, 0, 0, 43213, 43282, 0, 0, 0, 43403, 0, 0, 43418, 43433, 0, 0,
    0, 43481, 65535, 59, 56, 43181, 0, 0, 0, 0, 0, 0, 0, 0, 0, 0,
    0, 0, 0, 0, 0, 0, 0, 0, 0, 0, 0, 0, 0, 0, 0, 0,
    0, 0, 0, 0, 0, 0, 0, 0, 0, 0, 0, 0, 0, 43184, 0, 43199,
    0, 0, 0, 0, 0, 0, 0, 0, 0, 0, 0, 0, 43206, 326, 0, 0,
    65535, 117, 1, 43188, 65535, 101, 1, 43192, 65535, 59, 1, 43196, 328, 0, 0, 65535,
    59, 1, 43203, 327, 0, 0, 65535, 59, 1, 43210, 1154, 0, 0, 65535, 111, 1,
    43217, 65535, 114, 1, 43221, 65535, 116, 1, 43225, 65535, 109, 4, 43232, 0, 0, 43247,
    65535, 105, 1, 43236, 65535, 100, 1, 43240, 65535, 59, 1, 43244, 336, 0, 0, 65535,
    97, 1, 43251, 65535, 114, 1, 43255, 65535, 97, 1, 43259, 65535, 108, 1, 43263, 65535,
    108, 1, 43267, 65535, 101, 1, 43271, 65535, 108, 1, 43275, 65535, 59, 1, 43279, 288,
    0, 0, 65535, 109, 1, 43286, 65535, 59, 43, 43332, 0, 0, 0, 0, 0, 0,
    0, 0, 0, 0, 0, 0, 0, 0, 0, 0, 0, 0, 0, 0, 0, 0,
    0, 0, 0, 0, 0, 0, 0, 0, 0, 0, 0, 0, 0, 0, 0, 0,
    0, 0, 0, 43335, 332, 0, 0, 65535, 59, 55, 43393, 0, 0, 0, 0, 0,
    0, 0, 0, 0, 0, 0, 0, 0, 0, 0, 0, 0, 0, 0, 0, 0,
    0, 0, 0, 0, 0, 0, 0, 0, 0, 0, 0, 0, 0, 0, 0, 0,
    0, 0, 0, 0, 0, 0, 0, 0, 0, 0, 0, 0, 0, 0, 0, 0,
    43396, 333, 0, 0, 65535, 59, 1, 43400, 333, 0, 0, 65535, 105, 1, 43407, 65535,
    100, 1, 43411, 65535, 59, 1, 43415, 336, 0, 0, 65535, 97, 1, 43422, 65535, 114,
    1, 43426, 65535, 59, 1, 43430, 288, 0, 0, 65535, 115, 1, 43437, 65535, 117, 1,
    43441, 65535, 98, 15, 43459, 0, 0, 0, 0, 0, 0, 0, 0, 0, 0, 0,
    0, 0, 43470, 65535, 101, 1, 43463, 65535, 59, 1, 43467, 321, 0, 0, 65535, 101,
    1, 43474, 65535, 59, 1, 43478, 323, 0, 0, 65535, 98, 15, 43499, 43705, 0, 0,
    0, 0, 0, 0, 0, 0, 0, 0, 0, 0, 43769, 65535, 59, 57, 43559, 0,
    0, 0, 0, 0, 0, 0, 0, 0, 43562, 0, 0, 0, 0, 0, 0, 0,
];

/// Entry `i` of this part; 0 where the part has no such entry.
#[verifier::opaque]
pub open spec fn cell(i: int) -> u16 {
    if 0 <= i < 2560 {
        CELLS[i]
    } else {
        0
    }
}

/// Reads entry `i` of this part.
pub fn read_cell(i: usize) -> (entry: u16)
    ensures
        entry == cell(i as int),
{
    reveal(cell);
    if i < 2560 {
        CELLS[i]
    } else {
        0
    }
}

} // verus!
