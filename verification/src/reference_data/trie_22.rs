//! Cells 56320 to 58879 of the trie table.
use vstd::prelude::*;

verus! {

/// The entries of this part, in order.
pub const CELLS: [u16; 2560] = [
    0, 65535, 59, 1, 56325, 1422, 0, 0, 65535, 105, 1, 56332, 65535, 103, 1, 56336,
    65535, 104, 1, 56340, 65535, 116, 1, 56344, 65535, 59, 43, 56390, 0, 0, 0, 0,
    0, 0, 0, 0, 0, 0, 0, 0, 0, 0, 0, 0, 0, 0, 0, 0,
    0, 0, 0, 0, 0, 0, 0, 0, 0, 0, 0, 0, 0, 0, 0, 0,
    0, 0, 0, 0, 0, 56393, 1317, 0, 0, 65535, 113, 1, 56397, 65535, 59, 1,
    56401, 413, 0, 0, 65535, 111, 1, 56408, 65535, 116, 1, 56412, 65535, 59, 1, 56416,
    1423, 0, 0, 65535, 59, 1, 56423, 1422, 0, 0, 65535, 105, 1, 56430, 65535, 110,
    1, 56434, 65535, 117, 1, 56438, 65535, 115, 1, 56442, 65535, 59, 1, 56446, 1424, 0,
    0, 65535, 108, 1, 56453, 65535, 117, 1, 56457, 65535, 115, 1, 56461, 65535, 59, 1,
    56465, 1425, 0, 0, 65535, 98, 1, 56472, 65535, 59, 1, 56476, 1426, 0, 0, 65535,
    105, 1, 56483, 65535, 109, 1, 56487, 65535, 101, 1, 56491, 65535, 59, 1, 56495, 1427,
    0, 0, 65535, 101, 1, 56502, 65535, 122, 1, 56506, 65535, 105, 1, 56510, 65535, 117,
    1, 56514, 65535, 109, 1, 56518, 65535, 59, 1, 56522, 1428, 0, 0, 65535, 99, 18,
    56546, 0, 0, 0, 0, 56571, 0, 0, 0, 0, 0, 0, 0, 0, 0, 0,
    0, 56586, 65535, 114, 8, 56557, 0, 0, 0, 0, 0, 0, 56564, 65535, 59, 1,
    56561, 1429, 0, 0, 65535, 59, 1, 56568, 1430, 0, 0, 65535, 99, 1, 56575, 65535,
    121, 1, 56579, 65535, 59, 1, 56583, 1431, 0, 0, 65535, 114, 1, 56590, 65535, 111,
    1, 56594, 65535, 107, 1, 56598, 65535, 59, 1, 56602, 1432, 0, 0, 65535, 105, 7,
    56615, 0, 0, 0, 0, 0, 56630, 65535, 120, 1, 56619, 65535, 116, 1, 56623, 65535,
    59, 1, 56627, 621, 0, 0, 65535, 104, 1, 56634, 65535, 101, 1, 56638, 65535, 97,
    1, 56642, 65535, 100, 1, 56646, 65535, 108, 7, 56656, 0, 0, 0, 0, 0, 56695,
    65535, 101, 1, 56660, 65535, 102, 1, 56664, 65535, 116, 1, 56668, 65535, 97, 1, 56672,
    65535, 114, 1, 56676, 65535, 114, 1, 56680, 65535, 111, 1, 56684, 65535, 119, 1, 56688,
    65535, 59, 1, 56692, 219, 0, 0, 65535, 105, 1, 56699, 65535, 103, 1, 56703, 65535,
    104, 1, 56707, 65535, 116, 1, 56711, 65535, 97, 1, 56715, 65535, 114, 1, 56719, 65535,
    114, 1, 56723, 65535, 111, 1, 56727, 65535, 119, 1, 56731, 65535, 59, 1, 56735, 388,
    0, 0, 65535, 65, 55, 56796, 0, 0, 0, 0, 0, 0, 56811, 0, 0, 0,
    0, 0, 0, 0, 0, 0, 0, 0, 0, 0, 0, 0, 0, 0, 0, 0,
    0, 0, 0, 0, 0, 56826, 56875, 56911, 56953, 0, 57013, 57052, 57075, 0, 0, 0,
    57123, 57249, 0, 57286, 57325, 0, 57619, 57760, 57775, 57888, 0, 57930, 65535, 114, 1, 56800,
    65535, 114, 1, 56804, 65535, 59, 1, 56808, 94, 0, 0, 65535, 97, 1, 56815, 65535,
    114, 1, 56819, 65535, 59, 1, 56823, 1433, 0, 0, 65535, 99, 16, 56845, 0, 0,
    0, 0, 0, 0, 0, 0, 0, 0, 0, 0, 0, 0, 56864, 65535, 117, 1,
    56849, 65535, 116, 1, 56853, 65535, 101, 1, 56857, 1434, 59, 1, 56861, 1434, 0, 0,
    65535, 114, 1, 56868, 65535, 59, 1, 56872, 436, 0, 0, 65535, 114, 1, 56879, 65535,
    99, 3, 56885, 0, 56896, 65535, 121, 1, 56889, 65535, 59, 1, 56893, 1435, 0, 0,
    65535, 118, 1, 56900, 65535, 101, 1, 56904, 65535, 59, 1, 56908, 1436, 0, 0, 65535,
    105, 17, 56931, 0, 0, 0, 0, 0, 0, 0, 0, 0, 0, 0, 0, 0,
    0, 0, 56946, 65535, 114, 1, 56935, 65535, 99, 1, 56939, 1437, 59, 1, 56943, 1437,
    0, 0, 65535, 59, 1, 56950, 1438, 0, 0, 65535, 97, 8, 56964, 56979, 0, 0,
    0, 0, 0, 56998, 65535, 114, 1, 56968, 65535, 114, 1, 56972, 65535, 59, 1, 56976,
    502, 0, 0, 65535, 108, 1, 56983, 65535, 97, 1, 56987, 65535, 99, 1, 56991, 65535,
    59, 1, 56995, 1439, 0, 0, 65535, 97, 1, 57002, 65535, 114, 1, 57006, 65535, 59,
    1, 57010, 504, 0, 0, 65535, 105, 10, 57026, 0, 0, 0, 0, 0, 0, 0,
    0, 57045, 65535, 115, 1, 57030, 65535, 104, 1, 57034, 65535, 116, 1, 57038, 65535, 59,
    1, 57042, 1440, 0, 0, 65535, 59, 1, 57049, 1441, 0, 0, 65535, 114, 1, 57056,
    65535, 97, 1, 57060, 65535, 118, 1, 57064, 65535, 101, 1, 57068, 1442, 59, 1, 57072,
    1442, 0, 0, 65535, 97, 2, 57080, 57108, 65535, 114, 1, 57084, 65535, 108, 7, 57094,
    0, 0, 0, 0, 0, 57101, 65535, 59, 1, 57098, 243, 0, 0, 65535, 59, 1,
    57105, 416, 0, 0, 65535, 108, 1, 57112, 65535, 107, 1, 57116, 65535, 59, 1, 57120,
    1443, 0, 0, 65535, 99, 18, 57144, 0, 0, 0, 0, 0, 0, 0, 0, 0,
    0, 0, 0, 0, 0, 0, 0, 57234, 65535, 111, 4, 57151, 0, 0, 57219, 65535,
    114, 1, 57155, 65535, 110, 1, 57159, 65535, 59, 43, 57205, 0, 0, 0, 0, 0,
    0, 0, 0, 0, 0, 0, 0, 0, 0, 0, 0, 0, 0, 0, 0, 0,
    0, 0, 0, 0, 0, 0, 0, 0, 0, 0, 0, 0, 0, 0, 0, 0,
    0, 0, 0, 0, 57208, 1444, 0, 0, 65535, 114, 1, 57212, 65535, 59, 1, 57216,
    1444, 0, 0, 65535, 111, 1, 57223, 65535, 112, 1, 57227, 65535, 59, 1, 57231, 1445,
    0, 0, 65535, 114, 1, 57238, 65535, 105, 1, 57242, 65535, 59, 1, 57246, 1446, 0,
    0, 65535, 97, 12, 57264, 0, 0, 0, 0, 0, 0, 0, 0, 0, 0, 57279,
    65535, 99, 1, 57268, 65535, 114, 1, 57272, 65535, 59, 1, 57276, 1447, 0, 0, 83,
    59, 1, 57283, 83, 0, 0, 65535, 103, 10, 57299, 0, 0, 0, 0, 0, 0,
    0, 0, 57314, 65535, 111, 1, 57303, 65535, 110, 1, 57307, 65535, 59, 1, 57311, 1448,
    0, 0, 65535, 102, 1, 57318, 65535, 59, 1, 57322, 1449, 0, 0, 65535, 97, 21,
    57349, 0, 0, 57372, 0, 0, 0, 57411, 0, 0, 0, 57487, 0, 0, 0, 0,
    0, 0, 57502, 0, 57584, 65535, 114, 1, 57353, 65535, 114, 1, 57357, 65535, 111, 1,
    57361, 65535, 119, 1, 57365, 65535, 59, 1, 57369, 436, 0, 0, 65535, 111, 1, 57376,
    65535, 119, 1, 57380, 65535, 110, 1, 57384, 65535, 97, 1, 57388, 65535, 114, 1, 57392,
    65535, 114, 1, 57396, 65535, 111, 1, 57400, 65535, 119, 1, 57404, 65535, 59, 1, 57408,
    503, 0, 0, 65535, 97, 1, 57415, 65535, 114, 1, 57419, 65535, 112, 1, 57423, 65535,
    111, 1, 57427, 65535, 111, 1, 57431, 65535, 110, 1, 57435, 65535, 108, 7, 57445, 0,
    0, 0, 0, 0, 57464, 65535, 101, 1, 57449, 65535, 102, 1, 57453, 65535, 116, 1,
    57457, 65535, 59, 1, 57461, 243, 0, 0, 65535, 105, 1, 57468, 65535, 103, 1, 57472,
    65535, 104, 1, 57476, 65535, 116, 1, 57480, 65535, 59, 1, 57484, 416, 0, 0, 65535,
    117, 1, 57491, 65535, 115, 1, 57495, 65535, 59, 1, 57499, 498, 0, 0, 65535, 105,
    1, 57506, 65535, 59, 50, 57559, 0, 0, 0, 0, 0, 0, 0, 0, 0, 0,
    0, 0, 0, 0, 0, 0, 0, 0, 0, 0, 0, 0, 0, 0, 0, 0,
    0, 0, 0, 0, 0, 0, 0, 0, 0, 0, 0, 0, 0, 0, 0, 0,
    0, 0, 57562, 0, 0, 0, 57569, 1450, 0, 0, 65535, 59, 1, 57566, 509, 0,
    0, 65535, 111, 1, 57573, 65535, 110, 1, 57577, 65535, 59, 1, 57581, 1450, 0, 0,
    65535, 112, 1, 57588, 65535, 97, 1, 57592, 65535, 114, 1, 57596, 65535, 114, 1, 57600,
    65535, 111, 1, 57604, 65535, 119, 1, 57608, 65535, 115, 1, 57612, 65535, 59, 1, 57616,
    1451, 0, 0, 65535, 99, 18, 57640, 0, 0, 0, 0, 0, 57730, 0, 0, 0,
    0, 0, 0, 0, 0, 0, 0, 57745, 65535, 111, 4, 57647, 0, 0, 57715, 65535,
    114, 1, 57651, 65535, 110, 1, 57655, 65535, 59, 43, 57701, 0, 0, 0, 0, 0,
    0, 0, 0, 0, 0, 0, 0, 0, 0, 0, 0, 0, 0, 0, 0, 0,
    0, 0, 0, 0, 0, 0, 0, 0, 0, 0, 0, 0, 0, 0, 0, 0,
    0, 0, 0, 0, 57704, 1452, 0, 0, 65535, 114, 1, 57708, 65535, 59, 1, 57712,
    1452, 0, 0, 65535, 111, 1, 57719, 65535, 112, 1, 57723, 65535, 59, 1, 57727, 1453,
    0, 0, 65535, 110, 1, 57734, 65535, 103, 1, 57738, 65535, 59, 1, 57742, 1454, 0,
    0, 65535, 114, 1, 57749, 65535, 105, 1, 57753, 65535, 59, 1, 57757, 1455, 0, 0,
    65535, 99, 1, 57764, 65535, 114, 1, 57768, 65535, 59, 1, 57772, 1456, 0, 0, 65535,
    100, 15, 57793, 0, 0, 0, 0, 57808, 0, 0, 0, 0, 0, 0, 0, 0,
    57827, 65535, 111, 1, 57797, 65535, 116, 1, 57801, 65535, 59, 1, 57805, 1457, 0, 0,
    65535, 108, 1, 57812, 65535, 100, 1, 57816, 65535, 101, 1, 57820, 65535, 59, 1, 57824,
    1458, 0, 0, 65535, 105, 1, 57831, 65535, 59, 44, 57878, 0, 0, 0, 0, 0,
    0, 0, 0, 0, 0, 0, 0, 0, 0, 0, 0, 0, 0, 0, 0, 0,
    0, 0, 0, 0, 0, 0, 0, 0, 0, 0, 0, 0, 0, 0, 0, 0,
    0, 0, 0, 0, 0, 57881, 1421, 0, 0, 65535, 59, 1, 57885, 634, 0, 0,
    65535, 97, 13, 57904, 0, 0, 0, 0, 0, 0, 0, 0, 0, 0, 0, 57919,
    65535, 114, 1, 57908, 65535, 114, 1, 57912, 65535, 59, 1, 57916, 1451, 0, 0, 65535,
    108, 1, 57923, 1459, 59, 1, 57927, 1459, 0, 0, 65535, 97, 1, 57934, 65535, 110,
    1, 57938, 65535, 103, 1, 57942, 65535, 108, 1, 57946, 65535, 101, 1, 57950, 65535, 59,
    1, 57954, 1460, 0, 0, 65535, 65, 58, 58018, 58033, 0, 58114, 0, 0, 0, 0,
    0, 0, 0, 0, 0, 0, 0, 0, 0, 0, 0, 0, 0, 0, 0, 0,
    0, 0, 0, 0, 0, 0, 0, 0, 58133, 0, 58728, 58739, 58758, 58913, 0, 0,
    0, 0, 0, 58924, 0, 58943, 58983, 58998, 0, 59017, 59036, 0, 0, 0, 0, 0,
    0, 59195, 65535, 114, 1, 58022, 65535, 114, 1, 58026, 65535, 59, 1, 58030, 95, 0,
    0, 65535, 97, 1, 58037, 65535, 114, 1, 58041, 65535, 59, 60, 58104, 0, 0, 0,
    0, 0, 0, 0, 0, 0, 0, 0, 0, 0, 0, 0, 0, 0, 0, 0,
    0, 0, 0, 0, 0, 0, 0, 0, 0, 0, 0, 0, 0, 0, 0, 0,
    0, 0, 0, 0, 0, 0, 0, 0, 0, 0, 0, 0, 0, 0, 0, 0,
    0, 0, 0, 0, 0, 0, 0, 58107, 1461, 0, 0, 65535, 59, 1, 58111, 1462,
    0, 0, 65535, 97, 1, 58118, 65535, 115, 1, 58122, 65535, 104, 1, 58126, 65535, 59,
    1, 58130, 93, 0, 0, 65535, 110, 5, 58141, 0, 0, 0, 58160, 65535, 103, 1,
    58145, 65535, 114, 1, 58149, 65535, 116, 1, 58153, 65535, 59, 1, 58157, 1463, 0, 0,
    65535, 101, 16, 58179, 0, 0, 0, 0, 0, 58210, 0, 0, 58233, 0, 58264, 0,
    58319, 58382, 58619, 65535, 112, 1, 58183, 65535, 115, 1, 58187, 65535, 105, 1, 58191, 65535,
    108, 1, 58195, 65535, 111, 1, 58199, 65535, 110, 1, 58203, 65535, 59, 1, 58207, 841,
    0, 0, 65535, 97, 1, 58214, 65535, 112, 1, 58218, 65535, 112, 1, 58222, 65535, 97,
    1, 58226, 65535, 59, 1, 58230, 987, 0, 0, 65535, 111, 1, 58237, 65535, 116, 1,
    58241, 65535, 104, 1, 58245, 65535, 105, 1, 58249, 65535, 110, 1, 58253, 65535, 103, 1,
    58257, 65535, 59, 1, 58261, 829, 0, 0, 65535, 104, 11, 58278, 58289, 0, 0, 0,
    0, 0, 0, 0, 0, 58296, 65535, 105, 1, 58282, 65535, 59, 1, 58286, 1229, 0,
    0, 65535, 59, 1, 58293, 1232, 0, 0, 65535, 111, 1, 58300, 65535, 112, 1, 58304,
    65535, 116, 1, 58308, 65535, 111, 1, 58312, 65535, 59, 1, 58316, 377, 0, 0, 65535,
    59, 46, 58368, 0, 0, 0, 0, 0, 0, 0, 0, 0, 0, 0, 0, 0,
    0, 0, 0, 0, 0, 0, 0, 0, 0, 0, 0, 0, 0, 0, 0, 0,
    0, 0, 0, 0, 0, 0, 0, 0, 0, 0, 0, 0, 0, 0, 0, 58371,
    503, 0, 0, 65535, 111, 1, 58375, 65535, 59, 1, 58379, 1298, 0, 0, 65535, 105,
    13, 58398, 0, 0, 0, 0, 0, 0, 0, 0, 0, 0, 0, 58417, 65535, 103,
    1, 58402, 65535, 109, 1, 58406, 65535, 97, 1, 58410, 65535, 59, 1, 58414, 1345, 0,
    0, 65535, 98, 15, 58435, 0, 0, 0, 0, 0, 0, 0, 0, 0, 0, 0,
    0, 0, 58527, 65535, 115, 1, 58439, 65535, 101, 1, 58443, 65535, 116, 1, 58447, 65535,
    110, 1, 58451, 65535, 101, 1, 58455, 65535, 113, 1, 58459, 65535, 59, 55, 58517, 0,
    0, 0, 0, 0, 0, 0, 0, 0, 0, 0, 0, 0, 0, 0, 0, 0,
    0, 0, 0, 0, 0, 0, 0, 0, 0, 0, 0, 0, 0, 0, 0, 0,
    0, 0, 0, 0, 0, 0, 0, 0, 0, 0, 0, 0, 0, 0, 0, 0,
    0, 0, 0, 0, 58520, 1464, 0, 0, 65535, 59, 1, 58524, 1465, 0, 0, 65535,
    115, 1, 58531, 65535, 101, 1, 58535, 65535, 116, 1, 58539, 65535, 110, 1, 58543, 65535,
    101, 1, 58547, 65535, 113, 1, 58551, 65535, 59, 55, 58609, 0, 0, 0, 0, 0,
    0, 0, 0, 0, 0, 0, 0, 0, 0, 0, 0, 0, 0, 0, 0, 0,
    0, 0, 0, 0, 0, 0, 0, 0, 0, 0, 0, 0, 0, 0, 0, 0,
    0, 0, 0, 0, 0, 0, 0, 0, 0, 0, 0, 0, 0, 0, 0, 0,
    58612, 1466, 0, 0, 65535, 59, 1, 58616, 1467, 0, 0, 65535, 104, 11, 58633, 0,
    0, 0, 0, 0, 0, 0, 0, 0, 58652, 65535, 101, 1, 58637, 65535, 116, 1,
    58641, 65535, 97, 1, 58645, 65535, 59, 1, 58649, 1411, 0, 0, 65535, 105, 1, 58656,
    65535, 97, 1, 58660, 65535, 110, 1, 58664, 65535, 103, 1, 58668, 65535, 108, 1, 58672,
    65535, 101, 1, 58676, 65535, 108, 7, 58686, 0, 0, 0, 0, 0, 58705, 65535, 101,
    1, 58690, 65535, 102, 1, 58694, 65535, 116, 1, 58698, 65535, 59, 1, 58702, 238, 0,
    0, 65535, 105, 1, 58709, 65535, 103, 1, 58713, 65535, 104, 1, 58717, 65535, 116, 1,
    58721, 65535, 59, 1, 58725, 411, 0, 0, 65535, 121, 1, 58732, 65535, 59, 1, 58736,
    1468, 0, 0, 65535, 97, 1, 58743, 65535, 115, 1, 58747, 65535, 104, 1, 58751, 65535,
    59, 1, 58755, 408, 0, 0, 65535, 101, 14, 58775, 0, 0, 0, 0, 0, 0,
    58850, 0, 0, 0, 0, 0, 58869, 65535, 59, 43, 58821, 0, 0, 0, 0, 0,
    0, 0, 0, 0, 0, 0, 0, 0, 0, 0, 0, 0, 0, 0, 0, 0,
    0, 0, 0, 0, 0, 0, 0, 0, 0, 0, 0, 0, 0, 0, 0, 0,
    0, 58824, 0, 0, 58839, 1204, 0, 0, 65535, 97, 1, 58828, 65535, 114, 1, 58832,
    65535, 59, 1, 58836, 1469, 0, 0, 65535, 113, 1, 58843, 65535, 59, 1, 58847, 1470,
    0, 0, 65535, 108, 1, 58854, 65535, 105, 1, 58858, 65535, 112, 1, 58862, 65535, 59,
    1, 58866, 1471, 0, 0, 65535, 98, 19, 58891, 0, 0, 0, 0, 0, 0, 0,
];

/// Entry `i` of this part; 0 where the part has no such entry.
#[verifier::opaque]
pub open spec fn cell(i: int) -> u16 {
    if 0 <= i < 2560 {
        CELLS[i]
    } else {
        0
    }
}

/// Reads entry `i` of this part.
pub fn read_cell(i: usize) -> (entry: u16)
    ensures
        entry == cell(i as int),
{
    reveal(cell);
    if i < 2560 {
        CELLS[i]
    } else {
        0
    }
}

} // verus!
